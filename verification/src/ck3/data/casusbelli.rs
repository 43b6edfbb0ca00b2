//! Casus belli types and their groups.

use vstd::prelude::*;

use crate::block::Block;
use crate::db::{Db, Item};
use crate::token::Token;
use crate::defines::{check_item, item_reports};
use crate::report::{views, Report, ReportView};
use crate::files::fileset::{FileEntry, Fileset};
use crate::game::Game;
use crate::validator::{
    append_reports, check_icon, icon_or_key, check_rules, check_unknown, icon_names, icon_reports, lemma_rules_reports_split,
    marked_more, opt_text, rules_range, rules_reports, rules_view, unknown_field_reports, FieldKind, FieldRule,
    KindView, RuleView,
};


verus! {

/// The casus belli items.
#[derive(Clone, Debug)]
pub struct CasusBelli {}

impl CasusBelli {
    /// Adds the casus belli `key`, defined by `block`, to the database.
    pub fn add(db: &mut Db, key: Token, block: Block)
        requires
            old(db).wf(),
        ensures
            final(db).wf(),
            final(db)@ == old(db)@.insert((Item::CasusBelli, key.s@), (key, block)),
            final(db).spec_flags() == old(db).spec_flags(),
    {
        db.add(Item::CasusBelli, key, block);
    }
}

/// The casus belli group items.
#[derive(Clone, Debug)]
pub struct CasusBelliGroup {}

impl CasusBelliGroup {
    /// Adds the casus belli group `key`, defined by `block`, to the database.
    pub fn add(db: &mut Db, key: Token, block: Block)
        requires
            old(db).wf(),
        ensures
            final(db).wf(),
            final(db)@ == old(db)@.insert((Item::CasusBelliGroup, key.s@), (key, block)),
            final(db).spec_flags() == old(db).spec_flags(),
    {
        db.add(Item::CasusBelliGroup, key, block);
    }
}


/// The rules for the fields of a casus belli.
pub open spec fn casus_belli_rules() -> Seq<RuleView> {
    seq![
        RuleView { name: "group"@, required: false, kind: KindView::Item(Item::CasusBelliGroup) },
        RuleView { name: "icon"@, required: false, kind: KindView::Value },
        RuleView { name: "attacker_ticking_warscore_delay"@, required: false, kind: KindView::Block },
        RuleView { name: "defender_ticking_warscore_delay"@, required: false, kind: KindView::Block },
        RuleView { name: "attacker_ticking_warscore"@, required: false, kind: KindView::Numeric },
        RuleView { name: "defender_ticking_warscore"@, required: false, kind: KindView::Numeric },
        RuleView { name: "attacker_wargoal_percentage"@, required: false, kind: KindView::UnitRange },
        RuleView { name: "defender_wargoal_percentage"@, required: false, kind: KindView::UnitRange },
        RuleView { name: "attacker_score_from_occupation_scale"@, required: false, kind: KindView::Numeric },
        RuleView { name: "defender_score_from_occupation_scale"@, required: false, kind: KindView::Numeric },
        RuleView { name: "attacker_score_from_battles_scale"@, required: false, kind: KindView::Numeric },
        RuleView { name: "defender_score_from_battles_scale"@, required: false, kind: KindView::Numeric },
        RuleView { name: "max_attacker_score_from_battles"@, required: false, kind: KindView::Numeric },
        RuleView { name: "max_defender_score_from_battles"@, required: false, kind: KindView::Numeric },
        RuleView { name: "max_attacker_score_from_occupation"@, required: false, kind: KindView::Numeric },
        RuleView { name: "max_defender_score_from_occupation"@, required: false, kind: KindView::Numeric },
        RuleView { name: "full_occupation_by_defender_gives_victory"@, required: false, kind: KindView::Bool },
        RuleView { name: "full_occupation_by_attacker_gives_victory"@, required: false, kind: KindView::Bool },
        RuleView { name: "landless_attacker_needs_armies"@, required: false, kind: KindView::Bool },
        RuleView { name: "allow_hostages"@, required: false, kind: KindView::Bool },
        RuleView { name: "occupation_participation_mult"@, required: false, kind: KindView::Numeric },
        RuleView { name: "siege_participation_mult"@, required: false, kind: KindView::Numeric },
        RuleView { name: "battle_participation_mult"@, required: false, kind: KindView::Numeric },
        RuleView { name: "cost"@, required: false, kind: KindView::Block },
        RuleView { name: "attacker_capital_gives_war_score"@, required: false, kind: KindView::Bool },
        RuleView { name: "defender_capital_gives_war_score"@, required: false, kind: KindView::Bool },
        RuleView { name: "imprisonment_by_attacker_give_war_score"@, required: false, kind: KindView::Bool },
        RuleView { name: "imprisonment_by_defender_give_war_score"@, required: false, kind: KindView::Bool },
        RuleView { name: "on_declaration"@, required: false, kind: KindView::Block },
        RuleView { name: "on_victory"@, required: false, kind: KindView::Block },
        RuleView { name: "on_white_peace"@, required: false, kind: KindView::Block },
        RuleView { name: "on_defeat"@, required: false, kind: KindView::Block },
        RuleView { name: "on_invalidated"@, required: false, kind: KindView::Block },
        RuleView { name: "on_victory_desc"@, required: false, kind: KindView::Any },
        RuleView { name: "on_defeat_desc"@, required: false, kind: KindView::Any },
        RuleView { name: "on_white_peace_desc"@, required: false, kind: KindView::Any },
        RuleView { name: "on_invalidated_desc"@, required: false, kind: KindView::Any },
        RuleView { name: "should_invalidate"@, required: false, kind: KindView::Trigger },
        RuleView { name: "mutually_exclusive_titles"@, required: false, kind: KindView::Trigger },
        RuleView { name: "combine_into_one"@, required: false, kind: KindView::Bool },
        RuleView { name: "allowed_for_character"@, required: false, kind: KindView::Trigger },
        RuleView { name: "allowed_for_character_display_regardless"@, required: false, kind: KindView::Trigger },
        RuleView { name: "allowed_against_character"@, required: false, kind: KindView::Trigger },
        RuleView { name: "allowed_against_character_display_regardless"@, required: false, kind: KindView::Trigger },
        RuleView { name: "valid_to_start"@, required: false, kind: KindView::Trigger },
        RuleView { name: "valid_to_start_display_regardless"@, required: false, kind: KindView::Trigger },
        RuleView { name: "is_allowed_claim_title"@, required: false, kind: KindView::Trigger },
        RuleView { name: "target_titles"@, required: false, kind: KindView::Choice(seq!["none"@, "neighbor_land"@, "neighbor_land_or_water"@, "neighbor_land_tributary"@, "neighbor_land_or_water_tributary"@, "de_jure_claim"@, "title_claim"@, "all"@, "claim"@, "de_jure"@, "independence_domain"@]) },
        RuleView { name: "target_title_tier"@, required: false, kind: KindView::Choice(seq!["all"@, "barony"@, "county"@, "duchy"@, "kingdom"@, "empire"@]) },
        RuleView { name: "target_de_jure_regions_above"@, required: false, kind: KindView::Bool },
        RuleView { name: "use_de_jure_wargoal_only"@, required: false, kind: KindView::Bool },
        RuleView { name: "cb_name"@, required: false, kind: KindView::Item(Item::Localization) },
        RuleView { name: "cb_name_no_target"@, required: false, kind: KindView::Item(Item::Localization) },
        RuleView { name: "war_name"@, required: false, kind: KindView::Item(Item::Localization) },
        RuleView { name: "my_war_name"@, required: false, kind: KindView::Item(Item::Localization) },
        RuleView { name: "war_name_base"@, required: false, kind: KindView::Item(Item::Localization) },
        RuleView { name: "my_war_name_base"@, required: false, kind: KindView::Item(Item::Localization) },
        RuleView { name: "truce_days"@, required: false, kind: KindView::Integer },
        RuleView { name: "ignore_effect"@, required: false, kind: KindView::Value },
        RuleView { name: "on_primary_attacker_death"@, required: false, kind: KindView::Choice(seq!["invalidate"@, "inherit"@, "inherit_faction"@]) },
        RuleView { name: "on_primary_defender_death"@, required: false, kind: KindView::Choice(seq!["invalidate"@, "inherit"@, "inherit_faction"@]) },
        RuleView { name: "transfer_behavior"@, required: false, kind: KindView::Choice(seq!["invalidate"@, "transfer"@]) },
        RuleView { name: "check_attacker_inheritance_validity"@, required: false, kind: KindView::Bool },
        RuleView { name: "check_defender_inheritance_validity"@, required: false, kind: KindView::Bool },
        RuleView { name: "attacker_allies_inherit"@, required: false, kind: KindView::Bool },
        RuleView { name: "defender_allies_inherit"@, required: false, kind: KindView::Bool },
        RuleView { name: "interface_priority"@, required: false, kind: KindView::Integer },
        RuleView { name: "max_ai_diplo_distance_to_title"@, required: false, kind: KindView::Integer },
        RuleView { name: "ai_only_against_liege"@, required: false, kind: KindView::Bool },
        RuleView { name: "ai_only_against_neighbors"@, required: false, kind: KindView::Bool },
        RuleView { name: "ai_can_target_all_titles"@, required: false, kind: KindView::Trigger },
        RuleView { name: "ai"@, required: false, kind: KindView::Bool },
        RuleView { name: "white_peace_possible"@, required: false, kind: KindView::Bool },
        RuleView { name: "check_all_defenders_for_ticking_war_score"@, required: false, kind: KindView::Bool },
        RuleView { name: "ticking_war_score_targets_entire_realm"@, required: false, kind: KindView::Bool },
        RuleView { name: "gui_attacker_faith_might_join"@, required: false, kind: KindView::Bool },
        RuleView { name: "gui_defender_faith_might_join"@, required: false, kind: KindView::Bool },
        RuleView { name: "defender_faith_can_join"@, required: false, kind: KindView::Bool },
        RuleView { name: "is_great_holy_war"@, required: false, kind: KindView::Bool },
        RuleView { name: "is_holy_war"@, required: false, kind: KindView::Bool },
        RuleView { name: "target_top_liege_if_outside_realm"@, required: false, kind: KindView::Bool },
        RuleView { name: "should_check_for_interface_availability"@, required: false, kind: KindView::Bool },
        RuleView { name: "ai_score"@, required: false, kind: KindView::Any },
        RuleView { name: "ai_score_mult"@, required: false, kind: KindView::Any },
        RuleView { name: "should_show_war_goal_subview"@, required: false, kind: KindView::Bool },
    ]
}

/// The reports on the casus belli `key` defined by `block`: its
/// localization, its `group` and `icon`, the file of its icon (its `icon`,
/// else its key) in the icon directory `icon_dir` among the `files` of
/// `game`, its other fields as [`casus_belli_rules`] has them, and the
/// fields it does not know.
pub open spec fn casus_belli_reports(
    key: Token,
    block: Block,
    db: Db,
    files: Seq<FileEntry>,
    game: Game,
    icon_dir: Option<Seq<char>>,
) -> Seq<ReportView> {
    item_reports(db, Item::Localization, key.s@, key.loc)
        + rules_reports(casus_belli_rules().take(2), block, db)
        + icon_reports(files, game, icon_dir, icon_or_key(block, key), ".dds"@) + rules_reports(
        casus_belli_rules().skip(2),
        block,
        db,
    ) + unknown_field_reports(casus_belli_rules(), block.v@)
}


impl CasusBelli {
    /// Checks the casus belli `key` defined by `block`, as
    /// [`casus_belli_reports`] says, with `fs` the file set and `icon_dir`
    /// the directory of casus belli icons (the game's define
    /// `NGameIcons|CASUS_BELLI_TYPE_ICON_PATH`), if known; the icon file is
    /// marked as used.
    pub fn validate(key: &Token, block: &Block, db: &Db, fs: &mut Fileset, icon_dir: Option<&str>) -> (r: Vec<Report>)
        requires
            db.wf(),
            old(fs).wf(),
        ensures
            final(fs).wf(),
            marked_more(*old(fs), *final(fs), icon_names(opt_text(icon_dir), icon_or_key(*block, *key).s@, ".dds"@)),
            views(r@) == casus_belli_reports(
                *key,
                *block,
                *db,
                old(fs).spec_files(),
                old(fs).spec_game(),
                opt_text(icon_dir),
            ),
    {
        let mut out: Vec<Report> = Vec::new();
        check_item(db, Item::Localization, key.as_str(), key.loc, &mut out);
        let ch0 = vec!["none", "neighbor_land", "neighbor_land_or_water", "neighbor_land_tributary", "neighbor_land_or_water_tributary", "de_jure_claim", "title_claim", "all", "claim", "de_jure", "independence_domain"];
        assert(ch0@.map_values(|c: &str| c@) =~= seq!["none"@, "neighbor_land"@, "neighbor_land_or_water"@, "neighbor_land_tributary"@, "neighbor_land_or_water_tributary"@, "de_jure_claim"@, "title_claim"@, "all"@, "claim"@, "de_jure"@, "independence_domain"@]);
        let ch1 = vec!["all", "barony", "county", "duchy", "kingdom", "empire"];
        assert(ch1@.map_values(|c: &str| c@) =~= seq!["all"@, "barony"@, "county"@, "duchy"@, "kingdom"@, "empire"@]);
        let ch2 = vec!["invalidate", "inherit", "inherit_faction"];
        assert(ch2@.map_values(|c: &str| c@) =~= seq!["invalidate"@, "inherit"@, "inherit_faction"@]);
        let ch3 = vec!["invalidate", "inherit", "inherit_faction"];
        assert(ch3@.map_values(|c: &str| c@) =~= seq!["invalidate"@, "inherit"@, "inherit_faction"@]);
        let ch4 = vec!["invalidate", "transfer"];
        assert(ch4@.map_values(|c: &str| c@) =~= seq!["invalidate"@, "transfer"@]);
        let rules = vec![
            FieldRule { name: "group", required: false, kind: FieldKind::Item(Item::CasusBelliGroup) },
            FieldRule { name: "icon", required: false, kind: FieldKind::Value },
            FieldRule { name: "attacker_ticking_warscore_delay", required: false, kind: FieldKind::Block },
            FieldRule { name: "defender_ticking_warscore_delay", required: false, kind: FieldKind::Block },
            FieldRule { name: "attacker_ticking_warscore", required: false, kind: FieldKind::Numeric },
            FieldRule { name: "defender_ticking_warscore", required: false, kind: FieldKind::Numeric },
            FieldRule { name: "attacker_wargoal_percentage", required: false, kind: FieldKind::UnitRange },
            FieldRule { name: "defender_wargoal_percentage", required: false, kind: FieldKind::UnitRange },
            FieldRule { name: "attacker_score_from_occupation_scale", required: false, kind: FieldKind::Numeric },
            FieldRule { name: "defender_score_from_occupation_scale", required: false, kind: FieldKind::Numeric },
            FieldRule { name: "attacker_score_from_battles_scale", required: false, kind: FieldKind::Numeric },
            FieldRule { name: "defender_score_from_battles_scale", required: false, kind: FieldKind::Numeric },
            FieldRule { name: "max_attacker_score_from_battles", required: false, kind: FieldKind::Numeric },
            FieldRule { name: "max_defender_score_from_battles", required: false, kind: FieldKind::Numeric },
            FieldRule { name: "max_attacker_score_from_occupation", required: false, kind: FieldKind::Numeric },
            FieldRule { name: "max_defender_score_from_occupation", required: false, kind: FieldKind::Numeric },
            FieldRule { name: "full_occupation_by_defender_gives_victory", required: false, kind: FieldKind::Bool },
            FieldRule { name: "full_occupation_by_attacker_gives_victory", required: false, kind: FieldKind::Bool },
            FieldRule { name: "landless_attacker_needs_armies", required: false, kind: FieldKind::Bool },
            FieldRule { name: "allow_hostages", required: false, kind: FieldKind::Bool },
            FieldRule { name: "occupation_participation_mult", required: false, kind: FieldKind::Numeric },
            FieldRule { name: "siege_participation_mult", required: false, kind: FieldKind::Numeric },
            FieldRule { name: "battle_participation_mult", required: false, kind: FieldKind::Numeric },
            FieldRule { name: "cost", required: false, kind: FieldKind::Block },
            FieldRule { name: "attacker_capital_gives_war_score", required: false, kind: FieldKind::Bool },
            FieldRule { name: "defender_capital_gives_war_score", required: false, kind: FieldKind::Bool },
            FieldRule { name: "imprisonment_by_attacker_give_war_score", required: false, kind: FieldKind::Bool },
            FieldRule { name: "imprisonment_by_defender_give_war_score", required: false, kind: FieldKind::Bool },
            FieldRule { name: "on_declaration", required: false, kind: FieldKind::Block },
            FieldRule { name: "on_victory", required: false, kind: FieldKind::Block },
            FieldRule { name: "on_white_peace", required: false, kind: FieldKind::Block },
            FieldRule { name: "on_defeat", required: false, kind: FieldKind::Block },
            FieldRule { name: "on_invalidated", required: false, kind: FieldKind::Block },
            FieldRule { name: "on_victory_desc", required: false, kind: FieldKind::Any },
            FieldRule { name: "on_defeat_desc", required: false, kind: FieldKind::Any },
            FieldRule { name: "on_white_peace_desc", required: false, kind: FieldKind::Any },
            FieldRule { name: "on_invalidated_desc", required: false, kind: FieldKind::Any },
            FieldRule { name: "should_invalidate", required: false, kind: FieldKind::Trigger },
            FieldRule { name: "mutually_exclusive_titles", required: false, kind: FieldKind::Trigger },
            FieldRule { name: "combine_into_one", required: false, kind: FieldKind::Bool },
            FieldRule { name: "allowed_for_character", required: false, kind: FieldKind::Trigger },
            FieldRule { name: "allowed_for_character_display_regardless", required: false, kind: FieldKind::Trigger },
            FieldRule { name: "allowed_against_character", required: false, kind: FieldKind::Trigger },
            FieldRule { name: "allowed_against_character_display_regardless", required: false, kind: FieldKind::Trigger },
            FieldRule { name: "valid_to_start", required: false, kind: FieldKind::Trigger },
            FieldRule { name: "valid_to_start_display_regardless", required: false, kind: FieldKind::Trigger },
            FieldRule { name: "is_allowed_claim_title", required: false, kind: FieldKind::Trigger },
            FieldRule { name: "target_titles", required: false, kind: FieldKind::Choice(ch0) },
            FieldRule { name: "target_title_tier", required: false, kind: FieldKind::Choice(ch1) },
            FieldRule { name: "target_de_jure_regions_above", required: false, kind: FieldKind::Bool },
            FieldRule { name: "use_de_jure_wargoal_only", required: false, kind: FieldKind::Bool },
            FieldRule { name: "cb_name", required: false, kind: FieldKind::Item(Item::Localization) },
            FieldRule { name: "cb_name_no_target", required: false, kind: FieldKind::Item(Item::Localization) },
            FieldRule { name: "war_name", required: false, kind: FieldKind::Item(Item::Localization) },
            FieldRule { name: "my_war_name", required: false, kind: FieldKind::Item(Item::Localization) },
            FieldRule { name: "war_name_base", required: false, kind: FieldKind::Item(Item::Localization) },
            FieldRule { name: "my_war_name_base", required: false, kind: FieldKind::Item(Item::Localization) },
            FieldRule { name: "truce_days", required: false, kind: FieldKind::Integer },
            FieldRule { name: "ignore_effect", required: false, kind: FieldKind::Value },
            FieldRule { name: "on_primary_attacker_death", required: false, kind: FieldKind::Choice(ch2) },
            FieldRule { name: "on_primary_defender_death", required: false, kind: FieldKind::Choice(ch3) },
            FieldRule { name: "transfer_behavior", required: false, kind: FieldKind::Choice(ch4) },
            FieldRule { name: "check_attacker_inheritance_validity", required: false, kind: FieldKind::Bool },
            FieldRule { name: "check_defender_inheritance_validity", required: false, kind: FieldKind::Bool },
            FieldRule { name: "attacker_allies_inherit", required: false, kind: FieldKind::Bool },
            FieldRule { name: "defender_allies_inherit", required: false, kind: FieldKind::Bool },
            FieldRule { name: "interface_priority", required: false, kind: FieldKind::Integer },
            FieldRule { name: "max_ai_diplo_distance_to_title", required: false, kind: FieldKind::Integer },
            FieldRule { name: "ai_only_against_liege", required: false, kind: FieldKind::Bool },
            FieldRule { name: "ai_only_against_neighbors", required: false, kind: FieldKind::Bool },
            FieldRule { name: "ai_can_target_all_titles", required: false, kind: FieldKind::Trigger },
            FieldRule { name: "ai", required: false, kind: FieldKind::Bool },
            FieldRule { name: "white_peace_possible", required: false, kind: FieldKind::Bool },
            FieldRule { name: "check_all_defenders_for_ticking_war_score", required: false, kind: FieldKind::Bool },
            FieldRule { name: "ticking_war_score_targets_entire_realm", required: false, kind: FieldKind::Bool },
            FieldRule { name: "gui_attacker_faith_might_join", required: false, kind: FieldKind::Bool },
            FieldRule { name: "gui_defender_faith_might_join", required: false, kind: FieldKind::Bool },
            FieldRule { name: "defender_faith_can_join", required: false, kind: FieldKind::Bool },
            FieldRule { name: "is_great_holy_war", required: false, kind: FieldKind::Bool },
            FieldRule { name: "is_holy_war", required: false, kind: FieldKind::Bool },
            FieldRule { name: "target_top_liege_if_outside_realm", required: false, kind: FieldKind::Bool },
            FieldRule { name: "should_check_for_interface_availability", required: false, kind: FieldKind::Bool },
            FieldRule { name: "ai_score", required: false, kind: FieldKind::Any },
            FieldRule { name: "ai_score_mult", required: false, kind: FieldKind::Any },
            FieldRule { name: "should_show_war_goal_subview", required: false, kind: FieldKind::Bool },
        ];
        assert(rules_view(rules@) =~= casus_belli_rules());
        let first = rules_range(&rules, 0, 2);
        let rest = rules_range(&rules, 2, rules.len());
        assert(rules_view(first@) =~= casus_belli_rules().take(2));
        assert(rules_view(rest@) =~= casus_belli_rules().skip(2));
        append_reports(&mut out, check_rules(block, db, &first));
        let icon = match block.get_field_value("icon") {
            Some(t) => t,
            None => key,
        };
        append_reports(&mut out, check_icon(fs, icon_dir, icon, ".dds"));
        append_reports(&mut out, check_rules(block, db, &rest));
        append_reports(&mut out, check_unknown(block, &rules));
        out
    }
}

/// The rules for the fields of the casus belli group.
pub open spec fn casus_belli_group_rules() -> Seq<RuleView> {
    seq![
        RuleView { name: "allowed_for_character"@, required: false, kind: KindView::Trigger },
        RuleView { name: "should_check_for_interface_availability"@, required: false, kind: KindView::Bool },
        RuleView { name: "can_only_start_via_script"@, required: false, kind: KindView::Bool },
    ]
}

/// The reports on the casus belli group `key` defined by `block`: its fields as
/// [`casus_belli_group_rules`] has them, and the fields it does not know.
pub open spec fn casus_belli_group_reports(block: Block, db: Db) -> Seq<ReportView> {
    rules_reports(casus_belli_group_rules(), block, db)
        + unknown_field_reports(casus_belli_group_rules(), block.v@)
}

impl CasusBelliGroup {
    /// Checks the casus belli group `key` defined by `block`, as [`casus_belli_group_reports`]
    /// says.
    pub fn validate(_key: &Token, block: &Block, db: &Db) -> (r: Vec<Report>)
        requires
            db.wf(),
        ensures
            views(r@) == casus_belli_group_reports(*block, *db),
    {
        let mut out: Vec<Report> = Vec::new();
        let r1 = vec![
            FieldRule { name: "allowed_for_character", required: false, kind: FieldKind::Trigger },
            FieldRule { name: "should_check_for_interface_availability", required: false, kind: FieldKind::Bool },
            FieldRule { name: "can_only_start_via_script", required: false, kind: FieldKind::Bool },
        ];
        assert(rules_view(r1@) =~= casus_belli_group_rules());
        append_reports(&mut out, check_rules(block, db, &r1));
        append_reports(&mut out, check_unknown(block, &r1));
        out
    }
}

} // verus!
