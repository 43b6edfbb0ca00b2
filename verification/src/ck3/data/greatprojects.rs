//! Great project types.

use vstd::prelude::*;

use crate::block::{block_has_key, definitions, last_field_block, last_field_value, Block, BlockItem, BV};
use crate::db::{add_token_flags, token_flags, Db, Item};
use crate::token::Token;
use crate::files::fileset::{FileEntry, Fileset};
use crate::game::Game;
use crate::defines::{check_item, item_reports, not_block_reports};
use crate::report::{make_report, push_report, report_str, rv, views, ErrorKey, Report, ReportView, Severity};
use crate::text::{push_str, string_from_chars};
use crate::validator::{
    append_reports, check_file_fields, check_icon, check_nested, file_field_names, file_field_reports, file_reports,
    icon_names, marked_more, nested_file_names, opt_text, check_fields, check_rules, check_unknown, extend_rules, fields_reports,
    nested_reports, rule_reports, rules_reports, rules_view, unknown_field_reports, FieldKind, FieldRule,
    KindView, RuleView,
};

verus! {

/// The great project type items.
#[derive(Clone, Debug)]
pub struct GreatProjectType {}

impl GreatProjectType {
    /// Adds the great project type `key`, defined by `block`, to the database.
    pub fn add(db: &mut Db, key: Token, block: Block)
        requires
            old(db).wf(),
        ensures
            final(db).wf(),
            final(db)@ == old(db)@.insert((Item::GreatProjectType, key.s@), (key, block)),
            final(db).spec_flags() == old(db).spec_flags(),
    {
        db.add(Item::GreatProjectType, key, block);
    }
}

impl GreatProjectType {
    /// Adds the keys of the project's contributions as flags.
    pub fn add_subitems(&self, _key: &Token, block: &Block, db: &mut Db)
        ensures
            final(db).wf() == old(db).wf(),
            final(db)@ == old(db)@,
            final(db).spec_entries() == old(db).spec_entries(),
            final(db).spec_flags() == (match last_field_block(block.v@, "project_contributions"@) {
                Some(b) => old(db).spec_flags().union(
                    token_flags(Item::ProjectContribution, definitions(b.v@).map_values(|d: (Token, Block)| d.0)),
                ),
                None => old(db).spec_flags(),
            }),
    {
        if let Some(b) = block.get_field_block("project_contributions") {
            let defs = b.iter_definitions();
            let mut keys: Vec<Token> = Vec::new();
            let mut i: usize = 0;
            while i < defs.len()
                invariant
                    i <= defs@.len(),
                    defs@.len() == definitions(b.v@).len(),
                    forall|j: int| 0 <= j < defs@.len() ==> (*(#[trigger] defs@[j]).0, *defs@[j].1) == definitions(b.v@)[j],
                    keys@ == definitions(b.v@).map_values(|d: (Token, Block)| d.0).take(i as int),
                decreases defs@.len() - i,
            {
                let (k, _) = defs[i];
                assert((*k, *defs@[i as int].1) == definitions(b.v@)[i as int]);
                keys.push(k.dup());
                i = i + 1;
                assert(keys@ =~= definitions(b.v@).map_values(|d: (Token, Block)| d.0).take(i as int));
            }
            assert(keys@ =~= definitions(b.v@).map_values(|d: (Token, Block)| d.0));
            add_token_flags(db, Item::ProjectContribution, &keys);
        }
    }
}


/// The rules for an `icon` or `illustration` block: when it applies, and
/// the file it shows.
pub open spec fn trigger_ref_rules() -> Seq<RuleView> {
    seq![
        RuleView { name: "trigger"@, required: false, kind: KindView::Trigger },
        RuleView { name: "reference"@, required: false, kind: KindView::Value },
    ]
}

/// The rules for the fields of a great project up to its province filter,
/// where `filters` are the game's province filters.
pub open spec fn gp_rules_a(filters: Seq<Seq<char>>) -> Seq<RuleView> {
    seq![
        RuleView { name: "name"@, required: false, kind: KindView::Any },
        RuleView { name: "is_shown"@, required: false, kind: KindView::Trigger },
        RuleView { name: "province_filter"@, required: false, kind: KindView::Choice(filters) },
    ]
}

/// The rules for the fields of a great project after its province filter.
pub open spec fn gp_rules_b() -> Seq<RuleView> {
    seq![
        RuleView { name: "can_start_planning"@, required: false, kind: KindView::Trigger },
        RuleView { name: "can_cancel"@, required: false, kind: KindView::Trigger },
        RuleView { name: "is_location_valid"@, required: false, kind: KindView::Trigger },
        RuleView { name: "owner"@, required: false, kind: KindView::Choice(seq!["province_owner_top_liege"@, "province_owner"@, "founder_primary_title_owner"@, "founder_top_liege_title_owner"@]) },
        RuleView { name: "is_valid"@, required: false, kind: KindView::Trigger },
        RuleView { name: "cost"@, required: false, kind: KindView::Block },
        RuleView { name: "construction_time"@, required: false, kind: KindView::Any },
        RuleView { name: "contribution_threshold"@, required: false, kind: KindView::Numeric },
        RuleView { name: "investor_cooldown"@, required: false, kind: KindView::Advice("docs say `investor_cooldown` but it's `contributor_cooldown`"@) },
        RuleView { name: "contributor_cooldown"@, required: false, kind: KindView::Any },
        RuleView { name: "on_complete"@, required: false, kind: KindView::Block },
        RuleView { name: "on_cancel"@, required: false, kind: KindView::Block },
        RuleView { name: "on_plan_build"@, required: false, kind: KindView::Block },
        RuleView { name: "on_start_build"@, required: false, kind: KindView::Block },
        RuleView { name: "on_invalidated"@, required: false, kind: KindView::Block },
        RuleView { name: "invite_interaction"@, required: false, kind: KindView::Item(Item::CharacterInteraction) },
    ]
}

/// The rules for an `allowed_contributor_filter` block.
pub open spec fn contributor_filter_rules() -> Seq<RuleView> {
    seq![
        RuleView { name: "vassals"@, required: false, kind: KindView::Bool },
        RuleView { name: "tributaries"@, required: false, kind: KindView::Bool },
        RuleView { name: "liege"@, required: false, kind: KindView::Bool },
        RuleView { name: "top_liege"@, required: false, kind: KindView::Bool },
        RuleView { name: "owner"@, required: false, kind: KindView::Bool },
        RuleView { name: "allies"@, required: false, kind: KindView::Bool },
    ]
}

/// The rules for the AI fields of a great project, where `filters` are the
/// game's province filters.
pub open spec fn gp_rules_c(filters: Seq<Seq<char>>) -> Seq<RuleView> {
    seq![
        RuleView { name: "ai_will_do"@, required: false, kind: KindView::Any },
        RuleView { name: "ai_province_filter"@, required: false, kind: KindView::Choice(filters) },
        RuleView { name: "ai_check_interval"@, required: false, kind: KindView::Integer },
    ]
}

/// The rules for an `ai_check_interval_by_tier` block: every tier is
/// required.
pub open spec fn tier_rules() -> Seq<RuleView> {
    seq![
        RuleView { name: "barony"@, required: true, kind: KindView::Integer },
        RuleView { name: "county"@, required: true, kind: KindView::Integer },
        RuleView { name: "duchy"@, required: true, kind: KindView::Integer },
        RuleView { name: "kingdom"@, required: true, kind: KindView::Integer },
        RuleView { name: "empire"@, required: true, kind: KindView::Integer },
        RuleView { name: "hegemony"@, required: true, kind: KindView::Integer },
    ]
}

/// The rules for an `ai_target_quick_trigger` block.
pub open spec fn quick_trigger_rules() -> Seq<RuleView> {
    seq![
        RuleView { name: "adult"@, required: false, kind: KindView::Bool },
        RuleView { name: "rank"@, required: false, kind: KindView::Choice(seq!["barony"@, "county"@, "duchy"@, "kingdom"@, "empire"@, "hegemony"@]) },
        RuleView { name: "government_type"@, required: false, kind: KindView::ListItems(Item::GovernmentType) },
    ]
}

/// The rules for the last fields of a great project.
pub open spec fn gp_rules_d() -> Seq<RuleView> {
    seq![
        RuleView { name: "show_in_list"@, required: false, kind: KindView::Bool },
        RuleView { name: "is_important"@, required: false, kind: KindView::Bool },
        RuleView { name: "target_title_tier"@, required: false, kind: KindView::Choice(seq!["barony"@, "county"@, "duchy"@, "kingdom"@, "empire"@, "hegemony"@]) },
        RuleView { name: "group"@, required: false, kind: KindView::Value },
        RuleView { name: "completion_sound_effect"@, required: false, kind: KindView::Item(Item::Sound) },
    ]
}

/// The rules for a contribution before its `allowed_contributor_filter`.
pub open spec fn contribution_rules_a() -> Seq<RuleView> {
    seq![
        RuleView { name: "is_shown"@, required: false, kind: KindView::Trigger },
        RuleView { name: "show_in_planning_phase"@, required: false, kind: KindView::Bool },
        RuleView { name: "contributor_is_valid"@, required: false, kind: KindView::Trigger },
    ]
}

/// The rules for a contribution after its `allowed_contributor_filter`.
pub open spec fn contribution_rules_b() -> Seq<RuleView> {
    seq![
        RuleView { name: "context_allows_contributions"@, required: false, kind: KindView::Trigger },
        RuleView { name: "cost"@, required: false, kind: KindView::Block },
        RuleView { name: "contributor_cooldown"@, required: false, kind: KindView::Any },
        RuleView { name: "is_required"@, required: false, kind: KindView::Bool },
        RuleView { name: "on_contribution_funded"@, required: false, kind: KindView::Block },
        RuleView { name: "on_complete"@, required: false, kind: KindView::Block },
        RuleView { name: "ai_will_do"@, required: false, kind: KindView::Any },
        RuleView { name: "ai_check_interval"@, required: false, kind: KindView::Integer },
    ]
}

/// A block field named `name` with rules of its own.
pub open spec fn block_field(name: Seq<char>) -> RuleView {
    RuleView { name, required: false, kind: KindView::Block }
}

/// The reports on an `icon` or `illustration` block `nb`: its fields,
/// the file of its `reference`, and the fields it does not know.
pub open spec fn ref_block_reports(files: Seq<FileEntry>, game: Game, nb: Block, db: Db) -> Seq<ReportView> {
    rules_reports(trigger_ref_rules(), nb, db) + file_field_reports(files, game, "reference"@, nb.v@)
        + unknown_field_reports(trigger_ref_rules(), nb.v@)
}

/// The reports on the `icon` and `illustration` fields among `items`: an
/// `icon` value names a file, an `illustration` must be a block, and their
/// blocks are checked by [`ref_block_reports`].
pub open spec fn image_field_reports(files: Seq<FileEntry>, game: Game, name: Seq<char>, items: Seq<BlockItem>, db: Db) -> Seq<
    ReportView,
>
    decreases items.len(),
{
    if items.len() == 0 {
        Seq::empty()
    } else {
        image_field_reports(files, game, name, items.drop_last(), db) + match items.last() {
            BlockItem::Field(k, bv) => if k.s@ == name {
                match bv {
                    BV::Value(t) => if name == "icon"@ {
                        file_reports(files, game, t.s@, t.loc)
                    } else {
                        not_block_reports(t)
                    },
                    BV::Block(nb) => ref_block_reports(files, game, nb, db),
                }
            } else {
                Seq::empty()
            },
            _ => Seq::empty(),
        }
    }
}

/// The files named by the `icon` values among `items`, as marked.
pub open spec fn icon_value_names(items: Seq<BlockItem>) -> Set<Seq<char>> {
    file_field_names("icon"@, items)
}

/// The reports on the images of the great project `key` defined by `b`:
/// the icon named after the key when there is no `icon` field, in the icon
/// directory `dir`; then its `icon` and `illustration` fields.
pub open spec fn gp_image_reports(files: Seq<FileEntry>, game: Game, dir: Option<Seq<char>>, key: Token, b: Block, db: Db) -> Seq<
    ReportView,
> {
    (if block_has_key(b, "icon"@) {
        Seq::empty()
    } else {
        crate::validator::icon_reports(files, game, dir, key, ".dds"@)
    }) + image_field_reports(files, game, "icon"@, b.v@, db) + image_field_reports(
        files,
        game,
        "illustration"@,
        b.v@,
        db,
    )
}

/// The files that checking the images of a great project marks as used.
pub open spec fn gp_image_names(dir: Option<Seq<char>>, key: Token, b: Block) -> Set<Seq<char>> {
    (if block_has_key(b, "icon"@) {
        Set::empty()
    } else {
        icon_names(dir, key.s@, ".dds"@)
    }).union(icon_value_names(b.v@)).union(nested_file_names("icon"@, "reference"@, b.v@)).union(
        nested_file_names("illustration"@, "reference"@, b.v@),
    )
}

/// The message on a `province_filter_target` where the filter takes none.
pub open spec fn ban_msg() -> Seq<char> {
    "`province_filter_target` is only for `landed_title` or `geographical_region` filters"@
}

/// The reports on each `province_filter_target` among `items`.
pub open spec fn ban_reports(items: Seq<BlockItem>) -> Seq<ReportView>
    decreases items.len(),
{
    if items.len() == 0 {
        Seq::empty()
    } else {
        ban_reports(items.drop_last()) + match items.last() {
            BlockItem::Field(k, _) => if k.s@ == "province_filter_target"@ {
                seq![rv(ErrorKey::Validation, Severity::Error, ban_msg(), k.loc)]
            } else {
                Seq::empty()
            },
            _ => Seq::empty(),
        }
    }
}

/// The rule for `province_filter_target` under the filter `f`, if it
/// names a kind of item.
pub open spec fn filter_target_rule(f: Seq<char>) -> Option<RuleView> {
    if f == "landed_title"@ {
        Some(RuleView { name: "province_filter_target"@, required: false, kind: KindView::Item(Item::Title) })
    } else if f == "geographical_region"@ {
        Some(RuleView { name: "province_filter_target"@, required: false, kind: KindView::Item(Item::Region) })
    } else {
        None
    }
}

/// The reports on the `province_filter_target` of block `b`: checked as an
/// item when the `province_filter` takes one, refused under another filter.
pub open spec fn filter_target_reports(b: Block, db: Db) -> Seq<ReportView> {
    match last_field_value(b.v@, "province_filter"@) {
        Some(f) => match filter_target_rule(f.s@) {
            Some(r) => rule_reports(r, b, db),
            None => ban_reports(b.v@),
        },
        None => Seq::empty(),
    }
}

/// The warning on an `ai_check_interval_by_tier` beside an
/// `ai_check_interval`.
pub open spec fn both_intervals_msg() -> Seq<char> {
    "must not have both `ai_check_interval` and `ai_check_interval_by_tier`"@
}

/// The reports on the `ai_check_interval_by_tier` fields among `items`,
/// where `has_interval` tells whether the block also has an
/// `ai_check_interval`.
pub open spec fn tier_reports(items: Seq<BlockItem>, has_interval: bool, db: Db) -> Seq<ReportView>
    decreases items.len(),
{
    if items.len() == 0 {
        Seq::empty()
    } else {
        tier_reports(items.drop_last(), has_interval, db) + match items.last() {
            BlockItem::Field(k, bv) => if k.s@ == "ai_check_interval_by_tier"@ {
                match bv {
                    BV::Value(t) => not_block_reports(t),
                    BV::Block(t) => rules_reports(tier_rules(), t, db) + (if has_interval {
                        seq![rv(ErrorKey::Validation, Severity::Warning, both_intervals_msg(), k.loc)]
                    } else {
                        Seq::empty()
                    }) + unknown_field_reports(tier_rules(), t.v@),
                }
            } else {
                Seq::empty()
            },
            _ => Seq::empty(),
        }
    }
}

/// The fields a contribution knows.
pub open spec fn contribution_known() -> Seq<RuleView> {
    contribution_rules_a() + seq![block_field("allowed_contributor_filter"@)] + contribution_rules_b() + seq![
        block_field("ai_check_interval_by_tier"@),
    ]
}

/// The reports on the contribution `k`, defined by `c`, of the great project
/// `gp`: its localizations, then its fields.
pub open spec fn contribution_reports(gp: Seq<char>, k: Token, c: Block, db: Db) -> Seq<ReportView> {
    item_reports(db, Item::Localization, "great_project_type_"@ + gp + "_contribution_"@ + k.s@, k.loc)
        + item_reports(
        db,
        Item::Localization,
        "great_project_type_"@ + gp + "_contribution_"@ + k.s@ + "_desc"@,
        k.loc,
    ) + rules_reports(contribution_rules_a(), c, db) + nested_reports(
        "allowed_contributor_filter"@,
        contributor_filter_rules(),
        c.v@,
        db,
    ) + rules_reports(contribution_rules_b(), c, db) + tier_reports(
        c.v@,
        block_has_key(c, "ai_check_interval"@),
        db,
    ) + unknown_field_reports(contribution_known(), c.v@)
}

/// The reports on the contributions among `items`: every block field is
/// one.
pub open spec fn contributions_fold(gp: Seq<char>, items: Seq<BlockItem>, db: Db) -> Seq<ReportView>
    decreases items.len(),
{
    if items.len() == 0 {
        Seq::empty()
    } else {
        contributions_fold(gp, items.drop_last(), db) + match items.last() {
            BlockItem::Field(k, BV::Block(c)) => contribution_reports(gp, k, c, db),
            _ => Seq::empty(),
        }
    }
}

/// The value fields among `items`, where only contributions belong.
pub open spec fn value_fields_reports(items: Seq<BlockItem>) -> Seq<ReportView>
    decreases items.len(),
{
    if items.len() == 0 {
        Seq::empty()
    } else {
        value_fields_reports(items.drop_last()) + match items.last() {
            BlockItem::Field(k, BV::Value(_)) => seq![
                rv(ErrorKey::UnknownField, Severity::Warning, "unknown field `"@ + k.s@ + "`"@, k.loc),
            ],
            _ => Seq::empty(),
        }
    }
}

/// The reports on the `project_contributions` fields among `items`.
pub open spec fn project_contributions_reports(gp: Seq<char>, items: Seq<BlockItem>, db: Db) -> Seq<ReportView>
    decreases items.len(),
{
    if items.len() == 0 {
        Seq::empty()
    } else {
        project_contributions_reports(gp, items.drop_last(), db) + match items.last() {
            BlockItem::Field(k, bv) => if k.s@ == "project_contributions"@ {
                match bv {
                    BV::Value(t) => not_block_reports(t),
                    BV::Block(pc) => contributions_fold(gp, pc.v@, db) + value_fields_reports(pc.v@),
                }
            } else {
                Seq::empty()
            },
            _ => Seq::empty(),
        }
    }
}

/// The fields a great project knows.
pub open spec fn gp_known(b: Block, filters: Seq<Seq<char>>) -> Seq<RuleView> {
    seq![block_field("icon"@), block_field("illustration"@)] + gp_rules_a(filters) + (if last_field_value(
        b.v@,
        "province_filter"@,
    ) is Some {
        seq![block_field("province_filter_target"@)]
    } else {
        Seq::empty()
    }) + gp_rules_b() + seq![block_field("allowed_contributor_filter"@), block_field("project_contributions"@)]
        + gp_rules_c(filters) + seq![
        block_field("ai_check_interval_by_tier"@),
        block_field("ai_target_quick_trigger"@),
    ] + gp_rules_d()
}

/// The reports on the great project type `key` defined by `b`, where
/// `filters` are the game's province filters, `files` the files of `game`
/// and `icon_dir` the directory of great project icons: its localizations,
/// its icons and illustrations with the files they name, its fields in turn with their own blocks, its
/// contributions, and the fields it does not know.
pub open spec fn great_project_reports(
    key: Token,
    b: Block,
    db: Db,
    filters: Seq<Seq<char>>,
    files: Seq<FileEntry>,
    game: Game,
    icon_dir: Option<Seq<char>>,
) -> Seq<ReportView> {
    item_reports(db, Item::Localization, "great_project_type_"@ + key.s@, key.loc) + item_reports(
        db,
        Item::Localization,
        "great_project_type_tooltip_"@ + key.s@,
        key.loc,
    ) + gp_image_reports(files, game, icon_dir, key, b, db) + rules_reports(gp_rules_a(filters), b, db) + filter_target_reports(b, db) + rules_reports(
        gp_rules_b(),
        b,
        db,
    ) + nested_reports("allowed_contributor_filter"@, contributor_filter_rules(), b.v@, db)
        + project_contributions_reports(key.s@, b.v@, db) + rules_reports(gp_rules_c(filters), b, db)
        + tier_reports(b.v@, block_has_key(b, "ai_check_interval"@), db) + nested_reports(
        "ai_target_quick_trigger"@,
        quick_trigger_rules(),
        b.v@,
        db,
    ) + rules_reports(gp_rules_d(), b, db) + unknown_field_reports(gp_known(b, filters), b.v@)
}

/// The rule sets of a great project.
pub struct GreatProjectRules {
    pub trigger_ref: Vec<FieldRule>,
    pub a: Vec<FieldRule>,
    pub b: Vec<FieldRule>,
    pub filter: Vec<FieldRule>,
    pub c: Vec<FieldRule>,
    pub tiers: Vec<FieldRule>,
    pub quick: Vec<FieldRule>,
    pub d: Vec<FieldRule>,
    pub ca: Vec<FieldRule>,
    pub cb: Vec<FieldRule>,
}

/// Whether `r` holds the rule sets of a great project for `filters`.
pub open spec fn rules_ok(r: GreatProjectRules, filters: Seq<Seq<char>>) -> bool {
    &&& rules_view(r.trigger_ref@) == trigger_ref_rules()
    &&& rules_view(r.a@) == gp_rules_a(filters)
    &&& rules_view(r.b@) == gp_rules_b()
    &&& rules_view(r.filter@) == contributor_filter_rules()
    &&& rules_view(r.c@) == gp_rules_c(filters)
    &&& rules_view(r.tiers@) == tier_rules()
    &&& rules_view(r.quick@) == quick_trigger_rules()
    &&& rules_view(r.d@) == gp_rules_d()
    &&& rules_view(r.ca@) == contribution_rules_a()
    &&& rules_view(r.cb@) == contribution_rules_b()
}

/// Builds the rule sets of a great project for `filters`.
fn make_rules(filters: &Vec<&'static str>) -> (r: GreatProjectRules)
    ensures
        rules_ok(r, filters@.map_values(|c: &str| c@)),
{
    let f1 = filters.clone();
    let f2 = filters.clone();
    let owners = vec!["province_owner_top_liege", "province_owner", "founder_primary_title_owner", "founder_top_liege_title_owner"];
    assert(owners@.map_values(|c: &str| c@) =~= seq!["province_owner_top_liege"@, "province_owner"@, "founder_primary_title_owner"@, "founder_top_liege_title_owner"@]);
    let t6a = vec!["barony", "county", "duchy", "kingdom", "empire", "hegemony"];
    let t6b = vec!["barony", "county", "duchy", "kingdom", "empire", "hegemony"];
    assert(t6a@.map_values(|c: &str| c@) =~= seq!["barony"@, "county"@, "duchy"@, "kingdom"@, "empire"@, "hegemony"@]);
    assert(t6b@.map_values(|c: &str| c@) =~= seq!["barony"@, "county"@, "duchy"@, "kingdom"@, "empire"@, "hegemony"@]);
    let r = GreatProjectRules {
        trigger_ref: vec![
            FieldRule { name: "trigger", required: false, kind: FieldKind::Trigger },
            FieldRule { name: "reference", required: false, kind: FieldKind::Value },
        ],
        a: vec![
            FieldRule { name: "name", required: false, kind: FieldKind::Any },
            FieldRule { name: "is_shown", required: false, kind: FieldKind::Trigger },
            FieldRule { name: "province_filter", required: false, kind: FieldKind::Choice(f1) },
        ],
        b: vec![
            FieldRule { name: "can_start_planning", required: false, kind: FieldKind::Trigger },
            FieldRule { name: "can_cancel", required: false, kind: FieldKind::Trigger },
            FieldRule { name: "is_location_valid", required: false, kind: FieldKind::Trigger },
            FieldRule { name: "owner", required: false, kind: FieldKind::Choice(owners) },
            FieldRule { name: "is_valid", required: false, kind: FieldKind::Trigger },
            FieldRule { name: "cost", required: false, kind: FieldKind::Block },
            FieldRule { name: "construction_time", required: false, kind: FieldKind::Any },
            FieldRule { name: "contribution_threshold", required: false, kind: FieldKind::Numeric },
            FieldRule { name: "investor_cooldown", required: false, kind: FieldKind::Advice("docs say `investor_cooldown` but it's `contributor_cooldown`") },
            FieldRule { name: "contributor_cooldown", required: false, kind: FieldKind::Any },
            FieldRule { name: "on_complete", required: false, kind: FieldKind::Block },
            FieldRule { name: "on_cancel", required: false, kind: FieldKind::Block },
            FieldRule { name: "on_plan_build", required: false, kind: FieldKind::Block },
            FieldRule { name: "on_start_build", required: false, kind: FieldKind::Block },
            FieldRule { name: "on_invalidated", required: false, kind: FieldKind::Block },
            FieldRule { name: "invite_interaction", required: false, kind: FieldKind::Item(Item::CharacterInteraction) },
        ],
        filter: vec![
            FieldRule { name: "vassals", required: false, kind: FieldKind::Bool },
            FieldRule { name: "tributaries", required: false, kind: FieldKind::Bool },
            FieldRule { name: "liege", required: false, kind: FieldKind::Bool },
            FieldRule { name: "top_liege", required: false, kind: FieldKind::Bool },
            FieldRule { name: "owner", required: false, kind: FieldKind::Bool },
            FieldRule { name: "allies", required: false, kind: FieldKind::Bool },
        ],
        c: vec![
            FieldRule { name: "ai_will_do", required: false, kind: FieldKind::Any },
            FieldRule { name: "ai_province_filter", required: false, kind: FieldKind::Choice(f2) },
            FieldRule { name: "ai_check_interval", required: false, kind: FieldKind::Integer },
        ],
        tiers: vec![
            FieldRule { name: "barony", required: true, kind: FieldKind::Integer },
            FieldRule { name: "county", required: true, kind: FieldKind::Integer },
            FieldRule { name: "duchy", required: true, kind: FieldKind::Integer },
            FieldRule { name: "kingdom", required: true, kind: FieldKind::Integer },
            FieldRule { name: "empire", required: true, kind: FieldKind::Integer },
            FieldRule { name: "hegemony", required: true, kind: FieldKind::Integer },
        ],
        quick: vec![
            FieldRule { name: "adult", required: false, kind: FieldKind::Bool },
            FieldRule { name: "rank", required: false, kind: FieldKind::Choice(t6a) },
            FieldRule { name: "government_type", required: false, kind: FieldKind::ListItems(Item::GovernmentType) },
        ],
        d: vec![
            FieldRule { name: "show_in_list", required: false, kind: FieldKind::Bool },
            FieldRule { name: "is_important", required: false, kind: FieldKind::Bool },
            FieldRule { name: "target_title_tier", required: false, kind: FieldKind::Choice(t6b) },
            FieldRule { name: "group", required: false, kind: FieldKind::Value },
            FieldRule { name: "completion_sound_effect", required: false, kind: FieldKind::Item(Item::Sound) },
        ],
        ca: vec![
            FieldRule { name: "is_shown", required: false, kind: FieldKind::Trigger },
            FieldRule { name: "show_in_planning_phase", required: false, kind: FieldKind::Bool },
            FieldRule { name: "contributor_is_valid", required: false, kind: FieldKind::Trigger },
        ],
        cb: vec![
            FieldRule { name: "context_allows_contributions", required: false, kind: FieldKind::Trigger },
            FieldRule { name: "cost", required: false, kind: FieldKind::Block },
            FieldRule { name: "contributor_cooldown", required: false, kind: FieldKind::Any },
            FieldRule { name: "is_required", required: false, kind: FieldKind::Bool },
            FieldRule { name: "on_contribution_funded", required: false, kind: FieldKind::Block },
            FieldRule { name: "on_complete", required: false, kind: FieldKind::Block },
            FieldRule { name: "ai_will_do", required: false, kind: FieldKind::Any },
            FieldRule { name: "ai_check_interval", required: false, kind: FieldKind::Integer },
        ],
    };
    let ghost fv = filters@.map_values(|c: &str| c@);
    assert(rules_view(r.trigger_ref@) =~= trigger_ref_rules());
    assert(rules_view(r.a@) =~= gp_rules_a(fv));
    assert(rules_view(r.b@) =~= gp_rules_b());
    assert(rules_view(r.filter@) =~= contributor_filter_rules());
    assert(rules_view(r.c@) =~= gp_rules_c(fv));
    assert(rules_view(r.tiers@) =~= tier_rules());
    assert(rules_view(r.quick@) =~= quick_trigger_rules());
    assert(rules_view(r.d@) =~= gp_rules_d());
    assert(rules_view(r.ca@) =~= contribution_rules_a());
    assert(rules_view(r.cb@) =~= contribution_rules_b());
    r
}

/// A rule list of one block field named `name`.
fn one_block(name: &'static str) -> (r: Vec<FieldRule>)
    ensures
        rules_view(r@) == seq![block_field(name@)],
{
    let r = vec![FieldRule { name, required: false, kind: FieldKind::Block }];
    assert(rules_view(r@) =~= seq![block_field(name@)]);
    r
}

/// Computes [`ref_block_reports`], marking the referenced files as used.
fn check_ref_block(fs: &mut Fileset, nb: &Block, db: &Db, rules: &Vec<FieldRule>) -> (r: Vec<Report>)
    requires
        db.wf(),
        old(fs).wf(),
        rules_view(rules@) == trigger_ref_rules(),
    ensures
        final(fs).wf(),
        marked_more(*old(fs), *final(fs), file_field_names("reference"@, nb.v@)),
        views(r@) == ref_block_reports(old(fs).spec_files(), old(fs).spec_game(), *nb, *db),
{
    let mut out = check_rules(nb, db, rules);
    append_reports(&mut out, check_file_fields(fs, nb, "reference"));
    append_reports(&mut out, check_unknown(nb, rules));
    out
}

/// Computes [`image_field_reports`] for the fields `name` of `b`, marking
/// the files as used.
fn check_image_fields(fs: &mut Fileset, name: &str, b: &Block, db: &Db, rules: &Vec<FieldRule>) -> (r: Vec<Report>)
    requires
        db.wf(),
        old(fs).wf(),
        rules_view(rules@) == trigger_ref_rules(),
    ensures
        final(fs).wf(),
        marked_more(
            *old(fs),
            *final(fs),
            (if name@ == "icon"@ { file_field_names("icon"@, b.v@) } else { Set::empty() }).union(
                nested_file_names(name@, "reference"@, b.v@),
            ),
        ),
        views(r@) == image_field_reports(old(fs).spec_files(), old(fs).spec_game(), name@, b.v@, *db),
{
    let ghost f0 = *fs;
    let is_icon = crate::text::str_eq(name, "icon");
    let mut out: Vec<Report> = Vec::new();
    let mut i: usize = 0;
    assert(fs.spec_used() =~= f0.spec_used().union(
        (if name@ == "icon"@ { file_field_names("icon"@, b.v@.take(0)) } else { Set::empty() }).union(
            nested_file_names(name@, "reference"@, b.v@.take(0)),
        ),
    ));
    while i < b.v.len()
        invariant
            i <= b.v@.len(),
            db.wf(),
            fs.wf(),
            is_icon == (name@ == "icon"@),
            rules_view(rules@) == trigger_ref_rules(),
            marked_more(
                f0,
                *fs,
                (if name@ == "icon"@ { file_field_names("icon"@, b.v@.take(i as int)) } else { Set::empty() }).union(
                    nested_file_names(name@, "reference"@, b.v@.take(i as int)),
                ),
            ),
            views(out@) == image_field_reports(f0.spec_files(), f0.spec_game(), name@, b.v@.take(i as int), *db),
        decreases b.v@.len() - i,
    {
        assert(b.v@.take(i + 1).drop_last() =~= b.v@.take(i as int));
        assert(b.v@.take(i + 1).last() == b.v@[i as int]);
        match &b.v[i] {
            BlockItem::Field(k, bv) => {
                if k.is(name) {
                    match bv {
                        BV::Value(t) => {
                            if is_icon {
                                append_reports(&mut out, fs.verify_exists(t));
                            } else {
                                push_report(
                                    &mut out,
                                    report_str(ErrorKey::Structure, Severity::Error, "expected block, found value", t.loc),
                                );
                            }
                        },
                        BV::Block(nb) => {
                            append_reports(&mut out, check_ref_block(fs, nb, db, rules));
                        },
                    }
                }
            },
            _ => {},
        }
        assert(fs.spec_used() =~= f0.spec_used().union(
            (if name@ == "icon"@ { file_field_names("icon"@, b.v@.take(i + 1)) } else { Set::empty() }).union(
                nested_file_names(name@, "reference"@, b.v@.take(i + 1)),
            ),
        ));
        assert(views(out@) =~= image_field_reports(f0.spec_files(), f0.spec_game(), name@, b.v@.take(i + 1), *db));
        i = i + 1;
    }
    assert(b.v@.take(b.v@.len() as int) =~= b.v@);
    out
}

/// Computes [`gp_image_reports`], marking the files of
/// [`gp_image_names`] as used.
fn check_gp_images(fs: &mut Fileset, dir: Option<&str>, key: &Token, b: &Block, db: &Db, rules: &Vec<FieldRule>) -> (r: Vec<
    Report,
>)
    requires
        db.wf(),
        old(fs).wf(),
        rules_view(rules@) == trigger_ref_rules(),
    ensures
        final(fs).wf(),
        marked_more(*old(fs), *final(fs), gp_image_names(opt_text(dir), *key, *b)),
        views(r@) == gp_image_reports(old(fs).spec_files(), old(fs).spec_game(), opt_text(dir), *key, *b, *db),
{
    let ghost f0 = *fs;
    let mut out: Vec<Report> = Vec::new();
    if !b.has_key("icon") {
        out = check_icon(fs, dir, key, ".dds");
    }
    let ghost f1 = *fs;
    append_reports(&mut out, check_image_fields(fs, "icon", b, db, rules));
    let ghost f2 = *fs;
    append_reports(&mut out, check_image_fields(fs, "illustration", b, db, rules));
    proof {
        reveal_strlit("icon");
        reveal_strlit("illustration");
        assert("illustration"@ != "icon"@) by {
            assert("illustration"@[1] != "icon"@[1]);
        }
    }
    assert(fs.spec_used() =~= f0.spec_used().union(gp_image_names(opt_text(dir), *key, *b)));
    out
}

/// Computes [`ban_reports`] for the fields of `b`.
fn check_bans(b: &Block) -> (r: Vec<Report>)
    ensures
        views(r@) == ban_reports(b.v@),
{
    let mut out: Vec<Report> = Vec::new();
    let mut i: usize = 0;
    while i < b.v.len()
        invariant
            i <= b.v@.len(),
            views(out@) == ban_reports(b.v@.take(i as int)),
        decreases b.v@.len() - i,
    {
        assert(b.v@.take(i + 1).drop_last() =~= b.v@.take(i as int));
        assert(b.v@.take(i + 1).last() == b.v@[i as int]);
        match &b.v[i] {
            BlockItem::Field(k, _) => {
                if k.is("province_filter_target") {
                    push_report(
                        &mut out,
                        report_str(
                            ErrorKey::Validation,
                            Severity::Error,
                            "`province_filter_target` is only for `landed_title` or `geographical_region` filters",
                            k.loc,
                        ),
                    );
                }
            },
            _ => {},
        }
        assert(views(out@) =~= ban_reports(b.v@.take(i + 1)));
        i = i + 1;
    }
    assert(b.v@.take(b.v@.len() as int) =~= b.v@);
    out
}

/// Computes [`filter_target_reports`].
fn check_filter_target(b: &Block, db: &Db) -> (r: Vec<Report>)
    requires
        db.wf(),
    ensures
        views(r@) == filter_target_reports(*b, *db),
{
    match b.get_field_value("province_filter") {
        Some(f) => {
            if f.is("landed_title") {
                let rs = vec![FieldRule { name: "province_filter_target", required: false, kind: FieldKind::Item(Item::Title) }];
                assert(rules_view(rs@) =~= seq![filter_target_rule(f.s@)->0]);
                let r = check_rules(b, db, &rs);
                assert(rules_reports(rules_view(rs@), *b, *db) =~= rule_reports(filter_target_rule(f.s@)->0, *b, *db)) by {
                    assert(rules_view(rs@).drop_last() =~= Seq::<RuleView>::empty());
                    assert(rules_reports(Seq::<RuleView>::empty(), *b, *db) =~= Seq::<ReportView>::empty());
                    assert(rules_view(rs@).last() == filter_target_rule(f.s@)->0);
                }
                r
            } else if f.is("geographical_region") {
                let rs = vec![FieldRule { name: "province_filter_target", required: false, kind: FieldKind::Item(Item::Region) }];
                assert(rules_view(rs@) =~= seq![filter_target_rule(f.s@)->0]);
                let r = check_rules(b, db, &rs);
                assert(rules_reports(rules_view(rs@), *b, *db) =~= rule_reports(filter_target_rule(f.s@)->0, *b, *db)) by {
                    assert(rules_view(rs@).drop_last() =~= Seq::<RuleView>::empty());
                    assert(rules_reports(Seq::<RuleView>::empty(), *b, *db) =~= Seq::<ReportView>::empty());
                    assert(rules_view(rs@).last() == filter_target_rule(f.s@)->0);
                }
                r
            } else {
                check_bans(b)
            }
        },
        None => {
            let r: Vec<Report> = Vec::new();
            assert(views(r@) =~= Seq::<ReportView>::empty());
            r
        },
    }
}

/// Computes [`tier_reports`] for the fields of `b`.
fn check_tiers(b: &Block, has_interval: bool, db: &Db, tiers: &Vec<FieldRule>) -> (r: Vec<Report>)
    requires
        db.wf(),
        rules_view(tiers@) == tier_rules(),
    ensures
        views(r@) == tier_reports(b.v@, has_interval, *db),
{
    let mut out: Vec<Report> = Vec::new();
    let mut i: usize = 0;
    while i < b.v.len()
        invariant
            i <= b.v@.len(),
            db.wf(),
            rules_view(tiers@) == tier_rules(),
            views(out@) == tier_reports(b.v@.take(i as int), has_interval, *db),
        decreases b.v@.len() - i,
    {
        assert(b.v@.take(i + 1).drop_last() =~= b.v@.take(i as int));
        assert(b.v@.take(i + 1).last() == b.v@[i as int]);
        match &b.v[i] {
            BlockItem::Field(k, bv) => {
                if k.is("ai_check_interval_by_tier") {
                    match bv {
                        BV::Value(t) => {
                            push_report(
                                &mut out,
                                report_str(ErrorKey::Structure, Severity::Error, "expected block, found value", t.loc),
                            );
                        },
                        BV::Block(t) => {
                            append_reports(&mut out, check_rules(t, db, tiers));
                            if has_interval {
                                push_report(
                                    &mut out,
                                    report_str(
                                        ErrorKey::Validation,
                                        Severity::Warning,
                                        "must not have both `ai_check_interval` and `ai_check_interval_by_tier`",
                                        k.loc,
                                    ),
                                );
                            }
                            append_reports(&mut out, check_unknown(t, tiers));
                        },
                    }
                }
            },
            _ => {},
        }
        assert(views(out@) =~= tier_reports(b.v@.take(i + 1), has_interval, *db));
        i = i + 1;
    }
    assert(b.v@.take(b.v@.len() as int) =~= b.v@);
    out
}

/// Appends the reports on the localization `great_project_type_<gp>_contribution_<k><suffix>`.
fn check_contribution_loca(db: &Db, gp: &str, k: &Token, suffix: &str, out: &mut Vec<Report>)
    requires
        db.wf(),
    ensures
        views(final(out)@) == views(old(out)@) + item_reports(
            *db,
            Item::Localization,
            "great_project_type_"@ + gp@ + "_contribution_"@ + k.s@ + suffix@,
            k.loc,
        ),
{
    let mut v: Vec<char> = Vec::new();
    push_str(&mut v, "great_project_type_");
    push_str(&mut v, gp);
    push_str(&mut v, "_contribution_");
    push_str(&mut v, k.as_str());
    push_str(&mut v, suffix);
    let name = string_from_chars(v.as_slice());
    check_item(db, Item::Localization, name.as_str(), k.loc, out);
}

/// Computes [`contribution_reports`].
fn check_contribution(gp: &str, k: &Token, c: &Block, db: &Db, rs: &GreatProjectRules) -> (r: Vec<Report>)
    requires
        db.wf(),
        rules_view(rs.ca@) == contribution_rules_a(),
        rules_view(rs.cb@) == contribution_rules_b(),
        rules_view(rs.filter@) == contributor_filter_rules(),
        rules_view(rs.tiers@) == tier_rules(),
    ensures
        views(r@) == contribution_reports(gp@, *k, *c, *db),
{
    let mut out: Vec<Report> = Vec::new();
    check_contribution_loca(db, gp, k, "", &mut out);
    check_contribution_loca(db, gp, k, "_desc", &mut out);
    proof {
        reveal_strlit("");
        assert("great_project_type_"@ + gp@ + "_contribution_"@ + k.s@ + ""@ =~= "great_project_type_"@ + gp@
            + "_contribution_"@ + k.s@);
    }
    append_reports(&mut out, check_rules(c, db, &rs.ca));
    append_reports(&mut out, check_nested("allowed_contributor_filter", &rs.filter, c, db));
    append_reports(&mut out, check_rules(c, db, &rs.cb));
    append_reports(&mut out, check_tiers(c, c.has_key("ai_check_interval"), db, &rs.tiers));
    let mut known: Vec<FieldRule> = Vec::new();
    extend_rules(&mut known, &rs.ca);
    extend_rules(&mut known, &one_block("allowed_contributor_filter"));
    extend_rules(&mut known, &rs.cb);
    extend_rules(&mut known, &one_block("ai_check_interval_by_tier"));
    assert(rules_view(known@) =~= contribution_known());
    append_reports(&mut out, check_unknown(c, &known));
    out
}

/// Computes [`project_contributions_reports`] for the fields of `b`.
fn check_project_contributions(gp: &str, b: &Block, db: &Db, rs: &GreatProjectRules) -> (r: Vec<Report>)
    requires
        db.wf(),
        rules_view(rs.ca@) == contribution_rules_a(),
        rules_view(rs.cb@) == contribution_rules_b(),
        rules_view(rs.filter@) == contributor_filter_rules(),
        rules_view(rs.tiers@) == tier_rules(),
    ensures
        views(r@) == project_contributions_reports(gp@, b.v@, *db),
{
    let mut out: Vec<Report> = Vec::new();
    let mut i: usize = 0;
    while i < b.v.len()
        invariant
            i <= b.v@.len(),
            db.wf(),
            rules_view(rs.ca@) == contribution_rules_a(),
            rules_view(rs.cb@) == contribution_rules_b(),
            rules_view(rs.filter@) == contributor_filter_rules(),
            rules_view(rs.tiers@) == tier_rules(),
            views(out@) == project_contributions_reports(gp@, b.v@.take(i as int), *db),
        decreases b.v@.len() - i,
    {
        assert(b.v@.take(i + 1).drop_last() =~= b.v@.take(i as int));
        assert(b.v@.take(i + 1).last() == b.v@[i as int]);
        match &b.v[i] {
            BlockItem::Field(k, bv) => {
                if k.is("project_contributions") {
                    match bv {
                        BV::Value(t) => {
                            push_report(
                                &mut out,
                                report_str(ErrorKey::Structure, Severity::Error, "expected block, found value", t.loc),
                            );
                        },
                        BV::Block(pc) => {
                            let ghost before = views(out@);
                            let mut j: usize = 0;
                            while j < pc.v.len()
                                invariant
                                    j <= pc.v@.len(),
                                    db.wf(),
                                    rules_view(rs.ca@) == contribution_rules_a(),
                                    rules_view(rs.cb@) == contribution_rules_b(),
                                    rules_view(rs.filter@) == contributor_filter_rules(),
                                    rules_view(rs.tiers@) == tier_rules(),
                                    views(out@) == before + contributions_fold(gp@, pc.v@.take(j as int), *db),
                                decreases pc.v@.len() - j,
                            {
                                assert(pc.v@.take(j + 1).drop_last() =~= pc.v@.take(j as int));
                                assert(pc.v@.take(j + 1).last() == pc.v@[j as int]);
                                match &pc.v[j] {
                                    BlockItem::Field(ck, BV::Block(c)) => {
                                        append_reports(&mut out, check_contribution(gp, ck, c, db, rs));
                                    },
                                    _ => {},
                                }
                                assert(views(out@) =~= before + contributions_fold(gp@, pc.v@.take(j + 1), *db));
                                j = j + 1;
                            }
                            assert(pc.v@.take(pc.v@.len() as int) =~= pc.v@);
                            let ghost mid = views(out@);
                            let mut j: usize = 0;
                            while j < pc.v.len()
                                invariant
                                    j <= pc.v@.len(),
                                    views(out@) == mid + value_fields_reports(pc.v@.take(j as int)),
                                decreases pc.v@.len() - j,
                            {
                                assert(pc.v@.take(j + 1).drop_last() =~= pc.v@.take(j as int));
                                assert(pc.v@.take(j + 1).last() == pc.v@[j as int]);
                                match &pc.v[j] {
                                    BlockItem::Field(ck, BV::Value(_)) => {
                                        let mut m: Vec<char> = Vec::new();
                                        push_str(&mut m, "unknown field `");
                                        push_str(&mut m, ck.as_str());
                                        push_str(&mut m, "`");
                                        push_report(
                                            &mut out,
                                            make_report(ErrorKey::UnknownField, Severity::Warning, m.as_slice(), ck.loc),
                                        );
                                    },
                                    _ => {},
                                }
                                assert(views(out@) =~= mid + value_fields_reports(pc.v@.take(j + 1)));
                                j = j + 1;
                            }
                            assert(pc.v@.take(pc.v@.len() as int) =~= pc.v@);
                        },
                    }
                }
            },
            _ => {},
        }
        assert(views(out@) =~= project_contributions_reports(gp@, b.v@.take(i + 1), *db));
        i = i + 1;
    }
    assert(b.v@.take(b.v@.len() as int) =~= b.v@);
    out
}

/// Appends the reports on the localization `<prefix><key>`.
fn check_gp_loca(db: &Db, prefix: &str, key: &Token, out: &mut Vec<Report>)
    requires
        db.wf(),
    ensures
        views(final(out)@) == views(old(out)@) + item_reports(*db, Item::Localization, prefix@ + key.s@, key.loc),
{
    let mut v: Vec<char> = Vec::new();
    push_str(&mut v, prefix);
    push_str(&mut v, key.as_str());
    let name = string_from_chars(v.as_slice());
    check_item(db, Item::Localization, name.as_str(), key.loc, out);
}

impl GreatProjectType {
    /// Checks the great project type `key` defined by `block`, as
    /// [`great_project_reports`] says; `filters` are the game's province
    /// filters, `fs` the file set and `icon_dir` the directory of great
    /// project icons (the game's define
    /// `NGameIcons|GREAT_PROJECT_TYPE_ICON_PATH`), if known. The files
    /// looked up are marked as used.
    #[verifier::rlimit(100)]
    #[verifier::spinoff_prover]
    pub fn validate(
        key: &Token,
        block: &Block,
        db: &Db,
        filters: &Vec<&'static str>,
        fs: &mut Fileset,
        icon_dir: Option<&str>,
    ) -> (r: Vec<Report>)
        requires
            db.wf(),
            old(fs).wf(),
        ensures
            final(fs).wf(),
            marked_more(*old(fs), *final(fs), gp_image_names(opt_text(icon_dir), *key, *block)),
            views(r@) == great_project_reports(
                *key,
                *block,
                *db,
                filters@.map_values(|c: &str| c@),
                old(fs).spec_files(),
                old(fs).spec_game(),
                opt_text(icon_dir),
            ),
    {
        let ghost fv = filters@.map_values(|c: &str| c@);
        let rs = make_rules(filters);
        let mut out: Vec<Report> = Vec::new();
        check_gp_loca(db, "great_project_type_", key, &mut out);
        check_gp_loca(db, "great_project_type_tooltip_", key, &mut out);
        append_reports(&mut out, check_gp_images(fs, icon_dir, key, block, db, &rs.trigger_ref));
        append_reports(&mut out, check_rules(block, db, &rs.a));
        append_reports(&mut out, check_filter_target(block, db));
        append_reports(&mut out, check_rules(block, db, &rs.b));
        append_reports(&mut out, check_nested("allowed_contributor_filter", &rs.filter, block, db));
        append_reports(&mut out, check_project_contributions(key.as_str(), block, db, &rs));
        append_reports(&mut out, check_rules(block, db, &rs.c));
        append_reports(&mut out, check_tiers(block, block.has_key("ai_check_interval"), db, &rs.tiers));
        append_reports(&mut out, check_nested("ai_target_quick_trigger", &rs.quick, block, db));
        append_reports(&mut out, check_rules(block, db, &rs.d));
        let mut known: Vec<FieldRule> = Vec::new();
        extend_rules(&mut known, &one_block("icon"));
        extend_rules(&mut known, &one_block("illustration"));
        extend_rules(&mut known, &rs.a);
        let ghost k1 = rules_view(known@);
        if block.get_field_value("province_filter").is_some() {
            extend_rules(&mut known, &one_block("province_filter_target"));
        }
        assert(rules_view(known@) =~= k1 + (if last_field_value(block.v@, "province_filter"@) is Some {
            seq![block_field("province_filter_target"@)]
        } else {
            Seq::empty()
        }));
        extend_rules(&mut known, &rs.b);
        extend_rules(&mut known, &one_block("allowed_contributor_filter"));
        extend_rules(&mut known, &one_block("project_contributions"));
        extend_rules(&mut known, &rs.c);
        extend_rules(&mut known, &one_block("ai_check_interval_by_tier"));
        extend_rules(&mut known, &one_block("ai_target_quick_trigger"));
        extend_rules(&mut known, &rs.d);
        assert(rules_view(known@) =~= gp_known(*block, fv));
        append_reports(&mut out, check_unknown(block, &known));
        out
    }
}

} // verus!
