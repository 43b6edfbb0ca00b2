//! Schemes, agent types, scheme pulse actions and countermeasures.

use vstd::prelude::*;

use crate::block::{assignments, last_field_block, Block};
use crate::db::{add_assignment_flags, assignment_flags, Db, Item, ValueFilter};
use crate::token::Token;
use crate::files::fileset::{FileEntry, Fileset};
use crate::game::Game;
use crate::defines::{check_item, item_reports};
use crate::report::{views, Report, ReportView};
use crate::text::{push_str, string_from_chars};
use crate::validator::{
    append_reports, check_file_fields, check_icon, icon_or_key, check_nested, check_rules, check_unknown, file_field_names,
    file_field_reports, icon_names, icon_reports, marked_more, nested_reports, opt_text, rules_range,
    rules_reports, rules_view,
    unknown_field_reports, FieldKind, FieldRule, KindView, RuleView,
};

use crate::validator::{check_loca, extend_rules};
verus! {

/// The scheme items.
#[derive(Clone, Debug)]
pub struct Scheme {}

impl Scheme {
    /// Adds the scheme `key`, defined by `block`, to the database.
    pub fn add(db: &mut Db, key: Token, block: Block)
        requires
            old(db).wf(),
        ensures
            final(db).wf(),
            final(db)@ == old(db)@.insert((Item::Scheme, key.s@), (key, block)),
            final(db).spec_flags() == old(db).spec_flags(),
    {
        db.add(Item::Scheme, key, block);
    }
}

/// The agent type items.
#[derive(Clone, Debug)]
pub struct AgentType {}

impl AgentType {
    /// Adds the agent type `key`, defined by `block`, to the database.
    pub fn add(db: &mut Db, key: Token, block: Block)
        requires
            old(db).wf(),
        ensures
            final(db).wf(),
            final(db)@ == old(db)@.insert((Item::AgentType, key.s@), (key, block)),
            final(db).spec_flags() == old(db).spec_flags(),
    {
        db.add(Item::AgentType, key, block);
    }
}

/// The scheme pulse action items.
#[derive(Clone, Debug)]
pub struct SchemePulseAction {}

impl SchemePulseAction {
    /// Adds the scheme pulse action `key`, defined by `block`, to the database.
    pub fn add(db: &mut Db, key: Token, block: Block)
        requires
            old(db).wf(),
        ensures
            final(db).wf(),
            final(db)@ == old(db)@.insert((Item::SchemePulseAction, key.s@), (key, block)),
            final(db).spec_flags() == old(db).spec_flags(),
    {
        db.add(Item::SchemePulseAction, key, block);
    }
}

/// The countermeasure items.
#[derive(Clone, Debug)]
pub struct Countermeasure {}

impl Countermeasure {
    /// Adds the countermeasure `key`, defined by `block`, to the database.
    pub fn add(db: &mut Db, key: Token, block: Block)
        requires
            old(db).wf(),
        ensures
            final(db).wf(),
            final(db)@ == old(db)@.insert((Item::Countermeasure, key.s@), (key, block)),
            final(db).spec_flags() == old(db).spec_flags(),
    {
        db.add(Item::Countermeasure, key, block);
    }
}

impl Countermeasure {
    /// Adds the keys of the countermeasure's parameters as flags.
    pub fn add_subitems(&self, _key: &Token, block: &Block, db: &mut Db)
        ensures
            final(db).wf() == old(db).wf(),
            final(db)@ == old(db)@,
            final(db).spec_entries() == old(db).spec_entries(),
            final(db).spec_flags() == (match last_field_block(block.v@, "parameters"@) {
                Some(p) => old(db).spec_flags().union(
                    assignment_flags(Item::CountermeasureParameter, assignments(p.v@), ValueFilter::Any),
                ),
                None => old(db).spec_flags(),
            }),
    {
        if let Some(parameters) = block.get_field_block("parameters") {
            add_assignment_flags(db, Item::CountermeasureParameter, parameters, ValueFilter::Any);
        }
    }
}


/// The rules for the fields of a scheme before its `pulse_actions`, where
/// `targets` are the groups of agents the AI may aim at.
pub open spec fn scheme_rules_before(targets: Seq<Seq<char>>) -> Seq<RuleView> {
    seq![
        RuleView { name: "desc"@, required: true, kind: KindView::Any },
        RuleView { name: "success_desc"@, required: true, kind: KindView::Any },
        RuleView { name: "discovery_desc"@, required: false, kind: KindView::Any },
        RuleView { name: "skill"@, required: true, kind: KindView::Item(Item::Skill) },
        RuleView { name: "category"@, required: false, kind: KindView::Choice(seq!["personal"@, "contract"@, "hostile"@, "political"@]) },
        RuleView { name: "target_type"@, required: false, kind: KindView::Choice(seq!["character"@, "title"@, "culture"@, "faith"@, "nothing"@]) },
        RuleView { name: "hostile"@, required: false, kind: KindView::Advice("deprecated; replaced with `category`"@) },
        RuleView { name: "hostile"@, required: false, kind: KindView::Bool },
        RuleView { name: "icon"@, required: false, kind: KindView::Value },
        RuleView { name: "illustration"@, required: false, kind: KindView::Value },
        RuleView { name: "allow"@, required: false, kind: KindView::Trigger },
        RuleView { name: "valid"@, required: false, kind: KindView::Trigger },
        RuleView { name: "agent_join_threshold"@, required: false, kind: KindView::Integer },
        RuleView { name: "agent_leave_threshold"@, required: false, kind: KindView::Integer },
        RuleView { name: "uses_resistance"@, required: false, kind: KindView::Bool },
        RuleView { name: "is_basic"@, required: false, kind: KindView::Bool },
        RuleView { name: "valid_agent"@, required: false, kind: KindView::Trigger },
        RuleView { name: "agent_groups_owner_perspective"@, required: false, kind: KindView::ListChoice(targets) },
        RuleView { name: "agent_groups_target_character_perspective"@, required: false, kind: KindView::ListChoice(targets) },
        RuleView { name: "odds_prediction"@, required: false, kind: KindView::Any },
        RuleView { name: "agent_join_chance"@, required: false, kind: KindView::Block },
        RuleView { name: "agent_success_chance"@, required: false, kind: KindView::Block },
        RuleView { name: "base_success_chance"@, required: false, kind: KindView::Block },
        RuleView { name: "base_maximum_success_chance"@, required: false, kind: KindView::Advice("docs say `base_maximum_success_chance` but it's `base_maximum_success`"@) },
        RuleView { name: "base_maximum_success"@, required: false, kind: KindView::Any },
        RuleView { name: "maximum_success"@, required: false, kind: KindView::Advice("Replaced with `base_maximum_success`"@) },
        RuleView { name: "minimum_success"@, required: false, kind: KindView::IntRange(0, 100) },
        RuleView { name: "maximum_secrecy"@, required: false, kind: KindView::IntRange(0, 100) },
        RuleView { name: "minimum_secrecy"@, required: false, kind: KindView::IntRange(0, 100) },
        RuleView { name: "maximum_progress_chance"@, required: false, kind: KindView::Advice("Removed in 1.13"@) },
        RuleView { name: "minimum_progress_chance"@, required: false, kind: KindView::Advice("Removed in 1.13"@) },
        RuleView { name: "base_progress_goal"@, required: false, kind: KindView::Any },
        RuleView { name: "maximum_breaches"@, required: false, kind: KindView::Integer },
        RuleView { name: "power_per_skill_point"@, required: false, kind: KindView::Advice("Replaced with `speed_per_skill_point`"@) },
        RuleView { name: "resistance_per_skill_point"@, required: false, kind: KindView::Advice("Removed in 1.13"@) },
        RuleView { name: "power_per_agent_skill_point"@, required: false, kind: KindView::Advice("Removed in 1.13"@) },
        RuleView { name: "spymaster_power_per_skill_point"@, required: false, kind: KindView::Advice("Replaced with `spymaster_speed_per_skill_point`"@) },
        RuleView { name: "spymaster_resistance_per_skill_point"@, required: false, kind: KindView::Advice("Removed in 1.13"@) },
        RuleView { name: "tier_resistance"@, required: false, kind: KindView::Advice("Removed in 1.13"@) },
        RuleView { name: "uses_agents"@, required: false, kind: KindView::Advice("Removed in 1.13"@) },
    ]
}

/// The rules for the `pulse_actions` block of a scheme.
pub open spec fn pulse_action_rules() -> Seq<RuleView> {
    seq![
        RuleView { name: "entries"@, required: false, kind: KindView::ListItems(Item::SchemePulseAction) },
        RuleView { name: "chance_of_no_event"@, required: false, kind: KindView::Any },
    ]
}

/// The rules for the fields of a scheme after its `pulse_actions`.
pub open spec fn scheme_rules_after() -> Seq<RuleView> {
    seq![
        RuleView { name: "cooldown"@, required: false, kind: KindView::Block },
        RuleView { name: "is_secret"@, required: false, kind: KindView::Bool },
        RuleView { name: "use_secrecy"@, required: false, kind: KindView::Trigger },
        RuleView { name: "base_secrecy"@, required: false, kind: KindView::Any },
        RuleView { name: "on_start"@, required: false, kind: KindView::Block },
        RuleView { name: "on_phase_completed"@, required: false, kind: KindView::Block },
        RuleView { name: "on_hud_click"@, required: false, kind: KindView::Block },
        RuleView { name: "on_monthly"@, required: false, kind: KindView::Block },
        RuleView { name: "on_semiyearly"@, required: false, kind: KindView::Block },
        RuleView { name: "on_invalidated"@, required: false, kind: KindView::Block },
        RuleView { name: "on_ready"@, required: false, kind: KindView::Advice("Replaced with `on_phase_completed`"@) },
        RuleView { name: "on_agent_join"@, required: false, kind: KindView::Advice("Removed in 1.13"@) },
        RuleView { name: "on_agent_leave"@, required: false, kind: KindView::Advice("Removed in 1.13"@) },
        RuleView { name: "on_agent_exposed"@, required: false, kind: KindView::Advice("Removed in 1.13"@) },
        RuleView { name: "freeze_scheme_when_traveling"@, required: false, kind: KindView::Bool },
        RuleView { name: "freeze_scheme_when_traveling_target"@, required: false, kind: KindView::Bool },
        RuleView { name: "cancel_scheme_when_traveling"@, required: false, kind: KindView::Bool },
        RuleView { name: "cancel_scheme_when_traveling_target"@, required: false, kind: KindView::Bool },
        RuleView { name: "speed_per_skill_point"@, required: false, kind: KindView::Any },
        RuleView { name: "speed_per_target_skill_point"@, required: false, kind: KindView::Any },
        RuleView { name: "success_chance_growth_per_skill_point"@, required: false, kind: KindView::Any },
        RuleView { name: "spymaster_speed_per_skill_point"@, required: false, kind: KindView::Any },
        RuleView { name: "target_spymaster_speed_per_skill_point"@, required: false, kind: KindView::Any },
        RuleView { name: "tier_speed"@, required: false, kind: KindView::Integer },
        RuleView { name: "phases_per_agent_charge"@, required: false, kind: KindView::Any },
    ]
}

/// The rule that stands for the `pulse_actions` block among the known
/// fields.
pub open spec fn pulse_actions_rule() -> RuleView {
    RuleView { name: "pulse_actions"@, required: false, kind: KindView::Block }
}

/// The reports on the scheme `key` defined by `block`: its localization and
/// that of its action, then its fields in turn, its `pulse_actions`, the
/// rest of its fields, and the fields it does not know.
pub open spec fn scheme_reports(
    key: Token,
    block: Block,
    db: Db,
    targets: Seq<Seq<char>>,
    files: Seq<FileEntry>,
    game: Game,
    icon_dir: Option<Seq<char>>,
) -> Seq<ReportView> {
    item_reports(db, Item::Localization, key.s@, key.loc) + item_reports(
        db,
        Item::Localization,
        key.s@ + "_action"@,
        key.loc,
    ) + rules_reports(scheme_rules_before(targets).take(9), block, db) + icon_reports(
        files,
        game,
        icon_dir,
        icon_or_key(block, key),
        ".dds"@,
    ) + rules_reports(scheme_rules_before(targets).subrange(9, 10), block, db) + file_field_reports(
        files,
        game,
        "illustration"@,
        block.v@,
    ) + rules_reports(scheme_rules_before(targets).skip(10), block, db) + nested_reports(
        "pulse_actions"@,
        pulse_action_rules(),
        block.v@,
        db,
    ) + rules_reports(scheme_rules_after(), block, db) + unknown_field_reports(
        scheme_rules_before(targets) + seq![pulse_actions_rule()] + scheme_rules_after(),
        block.v@,
    )
}

impl Scheme {
    /// Checks the scheme `key` defined by `block`, as [`scheme_reports`]
    /// says; `targets` are the groups of agents the AI may aim at, `fs` the
    /// file set and `icon_dir` the directory of scheme icons (the game's
    /// define `NGameIcons|SCHEME_TYPE_ICON_PATH`), if known. The icon and
    /// illustration files are marked as used.
    pub fn validate(
        key: &Token,
        block: &Block,
        db: &Db,
        targets: &Vec<&'static str>,
        fs: &mut Fileset,
        icon_dir: Option<&str>,
    ) -> (r: Vec<Report>)
        requires
            db.wf(),
            old(fs).wf(),
        ensures
            final(fs).wf(),
            marked_more(
                *old(fs),
                *final(fs),
                icon_names(opt_text(icon_dir), icon_or_key(*block, *key).s@, ".dds"@).union(
                    file_field_names("illustration"@, block.v@),
                ),
            ),
            views(r@) == scheme_reports(
                *key,
                *block,
                *db,
                targets@.map_values(|c: &str| c@),
                old(fs).spec_files(),
                old(fs).spec_game(),
                opt_text(icon_dir),
            ),
    {
        let ghost tv = targets@.map_values(|c: &str| c@);
        let mut out: Vec<Report> = Vec::new();
        check_item(db, Item::Localization, key.as_str(), key.loc, &mut out);
        let mut loca: Vec<char> = Vec::new();
        push_str(&mut loca, key.as_str());
        push_str(&mut loca, "_action");
        let loca_s = string_from_chars(loca.as_slice());
        check_item(db, Item::Localization, loca_s.as_str(), key.loc, &mut out);
        let cat1 = vec!["personal", "contract", "hostile", "political"];
        let cat2 = vec!["personal", "contract", "hostile", "political"];
        let tt1 = vec!["character", "title", "culture", "faith", "nothing"];
        let tt2 = vec!["character", "title", "culture", "faith", "nothing"];
        assert(cat1@.map_values(|c: &str| c@) =~= seq!["personal"@, "contract"@, "hostile"@, "political"@]);
        assert(cat2@.map_values(|c: &str| c@) =~= seq!["personal"@, "contract"@, "hostile"@, "political"@]);
        assert(tt1@.map_values(|c: &str| c@) =~= seq!["character"@, "title"@, "culture"@, "faith"@, "nothing"@]);
        assert(tt2@.map_values(|c: &str| c@) =~= seq!["character"@, "title"@, "culture"@, "faith"@, "nothing"@]);
        let before = vec![
                FieldRule { name: "desc", required: true, kind: FieldKind::Any },
                FieldRule { name: "success_desc", required: true, kind: FieldKind::Any },
                FieldRule { name: "discovery_desc", required: false, kind: FieldKind::Any },
                FieldRule { name: "skill", required: true, kind: FieldKind::Item(Item::Skill) },
                FieldRule { name: "category", required: false, kind: FieldKind::Choice(cat1) },
                FieldRule { name: "target_type", required: false, kind: FieldKind::Choice(tt1) },
                FieldRule { name: "hostile", required: false, kind: FieldKind::Advice("deprecated; replaced with `category`") },
                FieldRule { name: "hostile", required: false, kind: FieldKind::Bool },
                FieldRule { name: "icon", required: false, kind: FieldKind::Value },
                FieldRule { name: "illustration", required: false, kind: FieldKind::Value },
                FieldRule { name: "allow", required: false, kind: FieldKind::Trigger },
                FieldRule { name: "valid", required: false, kind: FieldKind::Trigger },
                FieldRule { name: "agent_join_threshold", required: false, kind: FieldKind::Integer },
                FieldRule { name: "agent_leave_threshold", required: false, kind: FieldKind::Integer },
                FieldRule { name: "uses_resistance", required: false, kind: FieldKind::Bool },
                FieldRule { name: "is_basic", required: false, kind: FieldKind::Bool },
                FieldRule { name: "valid_agent", required: false, kind: FieldKind::Trigger },
                FieldRule { name: "agent_groups_owner_perspective", required: false, kind: FieldKind::ListChoice(targets.clone()) },
                FieldRule { name: "agent_groups_target_character_perspective", required: false, kind: FieldKind::ListChoice(targets.clone()) },
                FieldRule { name: "odds_prediction", required: false, kind: FieldKind::Any },
                FieldRule { name: "agent_join_chance", required: false, kind: FieldKind::Block },
                FieldRule { name: "agent_success_chance", required: false, kind: FieldKind::Block },
                FieldRule { name: "base_success_chance", required: false, kind: FieldKind::Block },
                FieldRule { name: "base_maximum_success_chance", required: false, kind: FieldKind::Advice("docs say `base_maximum_success_chance` but it's `base_maximum_success`") },
                FieldRule { name: "base_maximum_success", required: false, kind: FieldKind::Any },
                FieldRule { name: "maximum_success", required: false, kind: FieldKind::Advice("Replaced with `base_maximum_success`") },
                FieldRule { name: "minimum_success", required: false, kind: FieldKind::IntRange(0, 100) },
                FieldRule { name: "maximum_secrecy", required: false, kind: FieldKind::IntRange(0, 100) },
                FieldRule { name: "minimum_secrecy", required: false, kind: FieldKind::IntRange(0, 100) },
                FieldRule { name: "maximum_progress_chance", required: false, kind: FieldKind::Advice("Removed in 1.13") },
                FieldRule { name: "minimum_progress_chance", required: false, kind: FieldKind::Advice("Removed in 1.13") },
                FieldRule { name: "base_progress_goal", required: false, kind: FieldKind::Any },
                FieldRule { name: "maximum_breaches", required: false, kind: FieldKind::Integer },
                FieldRule { name: "power_per_skill_point", required: false, kind: FieldKind::Advice("Replaced with `speed_per_skill_point`") },
                FieldRule { name: "resistance_per_skill_point", required: false, kind: FieldKind::Advice("Removed in 1.13") },
                FieldRule { name: "power_per_agent_skill_point", required: false, kind: FieldKind::Advice("Removed in 1.13") },
                FieldRule { name: "spymaster_power_per_skill_point", required: false, kind: FieldKind::Advice("Replaced with `spymaster_speed_per_skill_point`") },
                FieldRule { name: "spymaster_resistance_per_skill_point", required: false, kind: FieldKind::Advice("Removed in 1.13") },
                FieldRule { name: "tier_resistance", required: false, kind: FieldKind::Advice("Removed in 1.13") },
                FieldRule { name: "uses_agents", required: false, kind: FieldKind::Advice("Removed in 1.13") },
            ];
        let after = vec![
                FieldRule { name: "cooldown", required: false, kind: FieldKind::Block },
                FieldRule { name: "is_secret", required: false, kind: FieldKind::Bool },
                FieldRule { name: "use_secrecy", required: false, kind: FieldKind::Trigger },
                FieldRule { name: "base_secrecy", required: false, kind: FieldKind::Any },
                FieldRule { name: "on_start", required: false, kind: FieldKind::Block },
                FieldRule { name: "on_phase_completed", required: false, kind: FieldKind::Block },
                FieldRule { name: "on_hud_click", required: false, kind: FieldKind::Block },
                FieldRule { name: "on_monthly", required: false, kind: FieldKind::Block },
                FieldRule { name: "on_semiyearly", required: false, kind: FieldKind::Block },
                FieldRule { name: "on_invalidated", required: false, kind: FieldKind::Block },
                FieldRule { name: "on_ready", required: false, kind: FieldKind::Advice("Replaced with `on_phase_completed`") },
                FieldRule { name: "on_agent_join", required: false, kind: FieldKind::Advice("Removed in 1.13") },
                FieldRule { name: "on_agent_leave", required: false, kind: FieldKind::Advice("Removed in 1.13") },
                FieldRule { name: "on_agent_exposed", required: false, kind: FieldKind::Advice("Removed in 1.13") },
                FieldRule { name: "freeze_scheme_when_traveling", required: false, kind: FieldKind::Bool },
                FieldRule { name: "freeze_scheme_when_traveling_target", required: false, kind: FieldKind::Bool },
                FieldRule { name: "cancel_scheme_when_traveling", required: false, kind: FieldKind::Bool },
                FieldRule { name: "cancel_scheme_when_traveling_target", required: false, kind: FieldKind::Bool },
                FieldRule { name: "speed_per_skill_point", required: false, kind: FieldKind::Any },
                FieldRule { name: "speed_per_target_skill_point", required: false, kind: FieldKind::Any },
                FieldRule { name: "success_chance_growth_per_skill_point", required: false, kind: FieldKind::Any },
                FieldRule { name: "spymaster_speed_per_skill_point", required: false, kind: FieldKind::Any },
                FieldRule { name: "target_spymaster_speed_per_skill_point", required: false, kind: FieldKind::Any },
                FieldRule { name: "tier_speed", required: false, kind: FieldKind::Integer },
                FieldRule { name: "phases_per_agent_charge", required: false, kind: FieldKind::Any },
            ];
        let pulse = vec![
                FieldRule { name: "entries", required: false, kind: FieldKind::ListItems(Item::SchemePulseAction) },
                FieldRule { name: "chance_of_no_event", required: false, kind: FieldKind::Any },
            ];
        proof {
            assert(targets@.map_values(|c: &str| c@) == tv);
        }
        assert(rules_view(before@) =~= scheme_rules_before(tv));
        assert(rules_view(after@) =~= scheme_rules_after());
        assert(rules_view(pulse@) =~= pulse_action_rules());
        let b1 = rules_range(&before, 0, 9);
        let b2 = rules_range(&before, 9, 10);
        let b3 = rules_range(&before, 10, before.len());
        let ghost f0 = *fs;
        append_reports(&mut out, check_rules(block, db, &b1));
        let icon = match block.get_field_value("icon") {
            Some(t) => t,
            None => key,
        };
        append_reports(&mut out, check_icon(fs, icon_dir, icon, ".dds"));
        append_reports(&mut out, check_rules(block, db, &b2));
        append_reports(&mut out, check_file_fields(fs, block, "illustration"));
        append_reports(&mut out, check_rules(block, db, &b3));
        assert(fs.spec_used() =~= f0.spec_used().union(
            icon_names(opt_text(icon_dir), icon_or_key(*block, *key).s@, ".dds"@).union(
                file_field_names("illustration"@, block.v@),
            ),
        ));
        append_reports(&mut out, check_nested("pulse_actions", &pulse, block, db));
        append_reports(&mut out, check_rules(block, db, &after));
        let mut all = vec![
                FieldRule { name: "desc", required: true, kind: FieldKind::Any },
                FieldRule { name: "success_desc", required: true, kind: FieldKind::Any },
                FieldRule { name: "discovery_desc", required: false, kind: FieldKind::Any },
                FieldRule { name: "skill", required: true, kind: FieldKind::Item(Item::Skill) },
                FieldRule { name: "category", required: false, kind: FieldKind::Choice(cat2) },
                FieldRule { name: "target_type", required: false, kind: FieldKind::Choice(tt2) },
                FieldRule { name: "hostile", required: false, kind: FieldKind::Advice("deprecated; replaced with `category`") },
                FieldRule { name: "hostile", required: false, kind: FieldKind::Bool },
                FieldRule { name: "icon", required: false, kind: FieldKind::Value },
                FieldRule { name: "illustration", required: false, kind: FieldKind::Value },
                FieldRule { name: "allow", required: false, kind: FieldKind::Trigger },
                FieldRule { name: "valid", required: false, kind: FieldKind::Trigger },
                FieldRule { name: "agent_join_threshold", required: false, kind: FieldKind::Integer },
                FieldRule { name: "agent_leave_threshold", required: false, kind: FieldKind::Integer },
                FieldRule { name: "uses_resistance", required: false, kind: FieldKind::Bool },
                FieldRule { name: "is_basic", required: false, kind: FieldKind::Bool },
                FieldRule { name: "valid_agent", required: false, kind: FieldKind::Trigger },
                FieldRule { name: "agent_groups_owner_perspective", required: false, kind: FieldKind::ListChoice(targets.clone()) },
                FieldRule { name: "agent_groups_target_character_perspective", required: false, kind: FieldKind::ListChoice(targets.clone()) },
                FieldRule { name: "odds_prediction", required: false, kind: FieldKind::Any },
                FieldRule { name: "agent_join_chance", required: false, kind: FieldKind::Block },
                FieldRule { name: "agent_success_chance", required: false, kind: FieldKind::Block },
                FieldRule { name: "base_success_chance", required: false, kind: FieldKind::Block },
                FieldRule { name: "base_maximum_success_chance", required: false, kind: FieldKind::Advice("docs say `base_maximum_success_chance` but it's `base_maximum_success`") },
                FieldRule { name: "base_maximum_success", required: false, kind: FieldKind::Any },
                FieldRule { name: "maximum_success", required: false, kind: FieldKind::Advice("Replaced with `base_maximum_success`") },
                FieldRule { name: "minimum_success", required: false, kind: FieldKind::IntRange(0, 100) },
                FieldRule { name: "maximum_secrecy", required: false, kind: FieldKind::IntRange(0, 100) },
                FieldRule { name: "minimum_secrecy", required: false, kind: FieldKind::IntRange(0, 100) },
                FieldRule { name: "maximum_progress_chance", required: false, kind: FieldKind::Advice("Removed in 1.13") },
                FieldRule { name: "minimum_progress_chance", required: false, kind: FieldKind::Advice("Removed in 1.13") },
                FieldRule { name: "base_progress_goal", required: false, kind: FieldKind::Any },
                FieldRule { name: "maximum_breaches", required: false, kind: FieldKind::Integer },
                FieldRule { name: "power_per_skill_point", required: false, kind: FieldKind::Advice("Replaced with `speed_per_skill_point`") },
                FieldRule { name: "resistance_per_skill_point", required: false, kind: FieldKind::Advice("Removed in 1.13") },
                FieldRule { name: "power_per_agent_skill_point", required: false, kind: FieldKind::Advice("Removed in 1.13") },
                FieldRule { name: "spymaster_power_per_skill_point", required: false, kind: FieldKind::Advice("Replaced with `spymaster_speed_per_skill_point`") },
                FieldRule { name: "spymaster_resistance_per_skill_point", required: false, kind: FieldKind::Advice("Removed in 1.13") },
                FieldRule { name: "tier_resistance", required: false, kind: FieldKind::Advice("Removed in 1.13") },
                FieldRule { name: "uses_agents", required: false, kind: FieldKind::Advice("Removed in 1.13") },
            ];
        let mut mid = vec![FieldRule { name: "pulse_actions", required: false, kind: FieldKind::Block }];
        let mut rest = vec![
                FieldRule { name: "cooldown", required: false, kind: FieldKind::Block },
                FieldRule { name: "is_secret", required: false, kind: FieldKind::Bool },
                FieldRule { name: "use_secrecy", required: false, kind: FieldKind::Trigger },
                FieldRule { name: "base_secrecy", required: false, kind: FieldKind::Any },
                FieldRule { name: "on_start", required: false, kind: FieldKind::Block },
                FieldRule { name: "on_phase_completed", required: false, kind: FieldKind::Block },
                FieldRule { name: "on_hud_click", required: false, kind: FieldKind::Block },
                FieldRule { name: "on_monthly", required: false, kind: FieldKind::Block },
                FieldRule { name: "on_semiyearly", required: false, kind: FieldKind::Block },
                FieldRule { name: "on_invalidated", required: false, kind: FieldKind::Block },
                FieldRule { name: "on_ready", required: false, kind: FieldKind::Advice("Replaced with `on_phase_completed`") },
                FieldRule { name: "on_agent_join", required: false, kind: FieldKind::Advice("Removed in 1.13") },
                FieldRule { name: "on_agent_leave", required: false, kind: FieldKind::Advice("Removed in 1.13") },
                FieldRule { name: "on_agent_exposed", required: false, kind: FieldKind::Advice("Removed in 1.13") },
                FieldRule { name: "freeze_scheme_when_traveling", required: false, kind: FieldKind::Bool },
                FieldRule { name: "freeze_scheme_when_traveling_target", required: false, kind: FieldKind::Bool },
                FieldRule { name: "cancel_scheme_when_traveling", required: false, kind: FieldKind::Bool },
                FieldRule { name: "cancel_scheme_when_traveling_target", required: false, kind: FieldKind::Bool },
                FieldRule { name: "speed_per_skill_point", required: false, kind: FieldKind::Any },
                FieldRule { name: "speed_per_target_skill_point", required: false, kind: FieldKind::Any },
                FieldRule { name: "success_chance_growth_per_skill_point", required: false, kind: FieldKind::Any },
                FieldRule { name: "spymaster_speed_per_skill_point", required: false, kind: FieldKind::Any },
                FieldRule { name: "target_spymaster_speed_per_skill_point", required: false, kind: FieldKind::Any },
                FieldRule { name: "tier_speed", required: false, kind: FieldKind::Integer },
                FieldRule { name: "phases_per_agent_charge", required: false, kind: FieldKind::Any },
            ];
        let ghost a0 = all@;
        let ghost m0 = mid@;
        let ghost r0 = rest@;
        assert(rules_view(a0) =~= scheme_rules_before(tv));
        assert(rules_view(r0) =~= scheme_rules_after());
        assert(rules_view(m0) =~= seq![pulse_actions_rule()]);
        all.append(&mut mid);
        all.append(&mut rest);
        assert(rules_view(all@) =~= rules_view(a0) + rules_view(m0) + rules_view(r0));
        append_reports(&mut out, check_unknown(block, &all));
        out
    }
}

/// The rules for the fields of the agent type.
pub open spec fn agent_type_rules() -> Seq<RuleView> {
    seq![
        RuleView { name: "valid_agent_for_slot"@, required: false, kind: KindView::Trigger },
        RuleView { name: "contribution_type"@, required: false, kind: KindView::Value },
        RuleView { name: "contribution"@, required: false, kind: KindView::Any },
    ]
}

/// The reports on the agent type `key` defined by `block`: the localization of its key and of its
/// key with `_i` and with `_desc`, its fields as [`agent_type_rules`] has them, and the fields it
/// does not know.
pub open spec fn agent_type_reports(key: Token, block: Block, db: Db) -> Seq<ReportView> {
    item_reports(db, Item::Localization, key.s@, key.loc)
        + item_reports(db, Item::Localization, key.s@ + "_i"@, key.loc)
        + item_reports(db, Item::Localization, key.s@ + "_desc"@, key.loc)
        + rules_reports(agent_type_rules(), block, db)
        + unknown_field_reports(agent_type_rules(), block.v@)
}

impl AgentType {
    /// Checks the agent type `key` defined by `block`, as [`agent_type_reports`] says.
    pub fn validate(key: &Token, block: &Block, db: &Db) -> (r: Vec<Report>)
        requires
            db.wf(),
        ensures
            views(r@) == agent_type_reports(*key, *block, *db),
    {
        let mut out: Vec<Report> = Vec::new();
        proof {
            reveal_strlit("");
            assert(""@ + key.s@ + ""@ =~= key.s@);
        }
        check_loca(db, "", key, "", &mut out);
        proof {
            reveal_strlit("");
            assert(""@ + key.s@ + "_i"@ =~= key.s@ + "_i"@);
        }
        check_loca(db, "", key, "_i", &mut out);
        proof {
            reveal_strlit("");
            assert(""@ + key.s@ + "_desc"@ =~= key.s@ + "_desc"@);
        }
        check_loca(db, "", key, "_desc", &mut out);
        let r1 = vec![
            FieldRule { name: "valid_agent_for_slot", required: false, kind: FieldKind::Trigger },
            FieldRule { name: "contribution_type", required: false, kind: FieldKind::Value },
            FieldRule { name: "contribution", required: false, kind: FieldKind::Any },
        ];
        assert(rules_view(r1@) =~= agent_type_rules());
        append_reports(&mut out, check_rules(block, db, &r1));
        append_reports(&mut out, check_unknown(block, &r1));
        out
    }
}

/// Rules for the fields of the scheme pulse action, part 1.
pub open spec fn scheme_pulse_action_rules_1() -> Seq<RuleView> {
    seq![
        RuleView { name: "icon"@, required: false, kind: KindView::Value },
    ]
}

/// Rules for the fields of the scheme pulse action, part 2.
pub open spec fn scheme_pulse_action_rules_2() -> Seq<RuleView> {
    seq![
        RuleView { name: "hud_text"@, required: false, kind: KindView::Item(Item::Localization) },
        RuleView { name: "is_valid"@, required: false, kind: KindView::Trigger },
        RuleView { name: "weight"@, required: false, kind: KindView::Any },
        RuleView { name: "effect"@, required: false, kind: KindView::Block },
    ]
}

/// The fields the scheme pulse action knows.
pub open spec fn scheme_pulse_action_known() -> Seq<RuleView> {
    scheme_pulse_action_rules_1() + scheme_pulse_action_rules_2()
}

/// The reports on the scheme pulse action `key` defined by `block`: its `icon`, the file of its
/// icon (its `icon`, else its key, with `.dds`) in `icon_dir` among the `files` of `game`, its
/// fields as [`scheme_pulse_action_rules_1`] and the parts after it have them, and the fields it
/// does not know.
pub open spec fn scheme_pulse_action_reports(
    key: Token,
    block: Block,
    db: Db,
    files: Seq<FileEntry>,
    game: Game,
    icon_dir: Option<Seq<char>>,
) -> Seq<ReportView> {
    rules_reports(scheme_pulse_action_rules_1(), block, db)
        + icon_reports(files, game, icon_dir, icon_or_key(block, key), ".dds"@)
        + rules_reports(scheme_pulse_action_rules_2(), block, db)
        + unknown_field_reports(scheme_pulse_action_known(), block.v@)
}

/// The files that checking the scheme pulse action marks as used.
pub open spec fn scheme_pulse_action_files(
    key: Token,
    block: Block,
    icon_dir: Option<Seq<char>>,
) -> Set<Seq<char>> {
    icon_names(icon_dir, icon_or_key(block, key).s@, ".dds"@)
}

impl SchemePulseAction {
    /// Checks the scheme pulse action `key` defined by `block`, as [`scheme_pulse_action_reports`]
    /// says, with
    /// `fs` the file set and `icon_dir` the directory of static modifier icons (the game's define
    /// `NGameIcons|STATICMODIFIER_ICON_PATH`), if known; the files looked up are marked as used.
    pub fn validate(key: &Token, block: &Block, db: &Db, fs: &mut Fileset, icon_dir: Option<&str>) -> (r: Vec<Report>)
        requires
            db.wf(),
            old(fs).wf(),
        ensures
            final(fs).wf(),
            marked_more(*old(fs), *final(fs), scheme_pulse_action_files(*key, *block, opt_text(icon_dir))),
            views(r@) == scheme_pulse_action_reports(*key, *block, *db, old(fs).spec_files(), old(fs).spec_game(), opt_text(icon_dir)),
    {
        let mut out: Vec<Report> = Vec::new();
        let ghost f0 = *fs;
        let r1 = vec![
            FieldRule { name: "icon", required: false, kind: FieldKind::Value },
        ];
        assert(rules_view(r1@) =~= scheme_pulse_action_rules_1());
        append_reports(&mut out, check_rules(block, db, &r1));
        let icon = match block.get_field_value("icon") {
            Some(t) => t,
            None => key,
        };
        append_reports(&mut out, check_icon(fs, icon_dir, icon, ".dds"));
        let r2 = vec![
            FieldRule { name: "hud_text", required: false, kind: FieldKind::Item(Item::Localization) },
            FieldRule { name: "is_valid", required: false, kind: FieldKind::Trigger },
            FieldRule { name: "weight", required: false, kind: FieldKind::Any },
            FieldRule { name: "effect", required: false, kind: FieldKind::Block },
        ];
        assert(rules_view(r2@) =~= scheme_pulse_action_rules_2());
        append_reports(&mut out, check_rules(block, db, &r2));
        let mut known: Vec<FieldRule> = Vec::new();
        extend_rules(&mut known, &r1);
        extend_rules(&mut known, &r2);
        assert(rules_view(known@) =~= scheme_pulse_action_known());
        append_reports(&mut out, check_unknown(block, &known));
        assert(fs.spec_used() =~= f0.spec_used().union(scheme_pulse_action_files(*key, *block, opt_text(icon_dir))));
        out
    }
}

/// The rules for the fields of the countermeasure.
pub open spec fn countermeasure_rules() -> Seq<RuleView> {
    seq![
        RuleView { name: "is_shown"@, required: false, kind: KindView::Trigger },
        RuleView { name: "is_valid_showing_failures_only"@, required: false, kind: KindView::Trigger },
        RuleView { name: "on_activate"@, required: false, kind: KindView::Block },
        RuleView { name: "activation_cost"@, required: false, kind: KindView::Block },
        RuleView { name: "owner_modifier"@, required: false, kind: KindView::Block },
        RuleView { name: "ai_will_do"@, required: false, kind: KindView::Any },
        RuleView { name: "parameters"@, required: false, kind: KindView::Block },
        RuleView { name: "frame"@, required: false, kind: KindView::Value },
    ]
}

/// The reports on the countermeasure `key` defined by `block`: its localization
/// (`scheme_countermeasure_type_` with its key, and with `_desc` after it), its icon (its key, with
/// `.dds`) in `icon_dir` among the `files` of `game`, its fields as [`countermeasure_rules`] has
/// them, the file its `frame` names, and the fields it does not know.
pub open spec fn countermeasure_reports(
    key: Token,
    block: Block,
    db: Db,
    files: Seq<FileEntry>,
    game: Game,
    icon_dir: Option<Seq<char>>,
) -> Seq<ReportView> {
    item_reports(db, Item::Localization, "scheme_countermeasure_type_"@ + key.s@, key.loc)
        + item_reports(db, Item::Localization, "scheme_countermeasure_type_"@ + key.s@ + "_desc"@, key.loc)
        + icon_reports(files, game, icon_dir, key, ".dds"@)
        + rules_reports(countermeasure_rules(), block, db)
        + file_field_reports(files, game, "frame"@, block.v@)
        + unknown_field_reports(countermeasure_rules(), block.v@)
}

/// The files that checking the countermeasure marks as used.
pub open spec fn countermeasure_files(
    key: Token,
    block: Block,
    icon_dir: Option<Seq<char>>,
) -> Set<Seq<char>> {
    icon_names(icon_dir, key.s@, ".dds"@).union(file_field_names("frame"@, block.v@))
}

impl Countermeasure {
    /// Checks the countermeasure `key` defined by `block`, as [`countermeasure_reports`] says, with
    /// `fs` the file set and `icon_dir` the directory of countermeasure icons (the game's define
    /// `NGameIcons|SCHEME_COUNTERMEASURE_TYPE_ICON_PATH`), if known; the files looked up are marked
    /// as used.
    pub fn validate(key: &Token, block: &Block, db: &Db, fs: &mut Fileset, icon_dir: Option<&str>) -> (r: Vec<Report>)
        requires
            db.wf(),
            old(fs).wf(),
        ensures
            final(fs).wf(),
            marked_more(*old(fs), *final(fs), countermeasure_files(*key, *block, opt_text(icon_dir))),
            views(r@) == countermeasure_reports(*key, *block, *db, old(fs).spec_files(), old(fs).spec_game(), opt_text(icon_dir)),
    {
        let mut out: Vec<Report> = Vec::new();
        let ghost f0 = *fs;
        proof {
            reveal_strlit("");
            assert("scheme_countermeasure_type_"@ + key.s@ + ""@ =~= "scheme_countermeasure_type_"@ + key.s@);
        }
        check_loca(db, "scheme_countermeasure_type_", key, "", &mut out);
        check_loca(db, "scheme_countermeasure_type_", key, "_desc", &mut out);
        append_reports(&mut out, check_icon(fs, icon_dir, key, ".dds"));
        let r1 = vec![
            FieldRule { name: "is_shown", required: false, kind: FieldKind::Trigger },
            FieldRule { name: "is_valid_showing_failures_only", required: false, kind: FieldKind::Trigger },
            FieldRule { name: "on_activate", required: false, kind: FieldKind::Block },
            FieldRule { name: "activation_cost", required: false, kind: FieldKind::Block },
            FieldRule { name: "owner_modifier", required: false, kind: FieldKind::Block },
            FieldRule { name: "ai_will_do", required: false, kind: FieldKind::Any },
            FieldRule { name: "parameters", required: false, kind: FieldKind::Block },
            FieldRule { name: "frame", required: false, kind: FieldKind::Value },
        ];
        assert(rules_view(r1@) =~= countermeasure_rules());
        append_reports(&mut out, check_rules(block, db, &r1));
        append_reports(&mut out, check_file_fields(fs, block, "frame"));
        append_reports(&mut out, check_unknown(block, &r1));
        assert(fs.spec_used() =~= f0.spec_used().union(countermeasure_files(*key, *block, opt_text(icon_dir))));
        out
    }
}

} // verus!
