//! Domicile types and domicile buildings.

use vstd::prelude::*;

use crate::block::{field_blocks, Block};
use crate::db::{add_blocks_assignment_flags, blocks_assignment_flags, Db, Item, ValueFilter};
use crate::token::Token;

use crate::validator::{append_reports, check_file_fields, check_loca, check_nested, check_rules, check_unknown, extend_rules, file_field_names, file_field_reports, known_block, known_block_rules, marked_more, nested_reports, rules_reports, rules_view, unknown_field_reports, FieldKind, FieldRule, KindView, RuleView};
use crate::defines::item_reports;
use crate::files::fileset::{FileEntry, Fileset};
use crate::game::Game;
use crate::report::{views, Report, ReportView};
verus! {

/// The domicile type items.
#[derive(Clone, Debug)]
pub struct DomicileType {}

impl DomicileType {
    /// Adds the domicile type `key`, defined by `block`, to the database.
    pub fn add(db: &mut Db, key: Token, block: Block)
        requires
            old(db).wf(),
        ensures
            final(db).wf(),
            final(db)@ == old(db)@.insert((Item::DomicileType, key.s@), (key, block)),
            final(db).spec_flags() == old(db).spec_flags(),
    {
        db.add(Item::DomicileType, key, block);
    }
}

/// The domicile building items.
#[derive(Clone, Debug)]
pub struct DomicileBuilding {}

impl DomicileBuilding {
    /// Adds the domicile building `key`, defined by `block`, to the database.
    pub fn add(db: &mut Db, key: Token, block: Block)
        requires
            old(db).wf(),
        ensures
            final(db).wf(),
            final(db)@ == old(db)@.insert((Item::DomicileBuilding, key.s@), (key, block)),
            final(db).spec_flags() == old(db).spec_flags(),
    {
        db.add(Item::DomicileBuilding, key, block);
    }
}

impl DomicileBuilding {
    /// Adds the keys of each `parameters` block of the building as flags.
    pub fn add_subitems(&self, _key: &Token, block: &Block, db: &mut Db)
        ensures
            final(db).wf() == old(db).wf(),
            final(db)@ == old(db)@,
            final(db).spec_entries() == old(db).spec_entries(),
            final(db).spec_flags() == old(db).spec_flags().union(
                blocks_assignment_flags(
                    Item::DomicileParameter,
                    field_blocks(block.v@, "parameters"@),
                    None,
                    ValueFilter::Any,
                ),
            ),
    {
        let params = block.get_field_blocks("parameters");
        add_blocks_assignment_flags(db, Item::DomicileParameter, &params, None, ValueFilter::Any);
        assert(params@.map_values(|b: &Block| *b) =~= field_blocks(block.v@, "parameters"@));
    }
}

/// Rules for the fields of the domicile type, part 1.
pub open spec fn domicile_type_rules_1() -> Seq<RuleView> {
    seq![
        RuleView { name: "allowed_for_character"@, required: false, kind: KindView::Trigger },
        RuleView { name: "rename_window"@, required: false, kind: KindView::Choice(seq!["none"@, "primary_title"@, "house"@]) },
        RuleView { name: "illustration"@, required: false, kind: KindView::Value },
    ]
}

/// Rules for the fields of the domicile type, part 2.
pub open spec fn domicile_type_rules_2() -> Seq<RuleView> {
    seq![
        RuleView { name: "icon"@, required: false, kind: KindView::Value },
    ]
}

/// Rules for the fields of the domicile type, part 3.
pub open spec fn domicile_type_rules_3() -> Seq<RuleView> {
    seq![
        RuleView { name: "map_pin_texture"@, required: false, kind: KindView::Value },
    ]
}

/// Rules for the fields of the domicile type, part 4.
pub open spec fn domicile_type_rules_4() -> Seq<RuleView> {
    seq![
        RuleView { name: "map_pin_anchor"@, required: false, kind: KindView::Choice(seq!["up"@, "right"@]) },
        RuleView { name: "map_pin_lobby"@, required: false, kind: KindView::Bool },
        RuleView { name: "provisions"@, required: false, kind: KindView::Bool },
        RuleView { name: "travel"@, required: false, kind: KindView::Bool },
        RuleView { name: "herd"@, required: false, kind: KindView::Bool },
        RuleView { name: "culture_and_faith"@, required: false, kind: KindView::Bool },
        RuleView { name: "move_with_realm_capital"@, required: false, kind: KindView::Bool },
        RuleView { name: "can_move_manually"@, required: false, kind: KindView::Bool },
        RuleView { name: "move_cooldown"@, required: false, kind: KindView::Block },
        RuleView { name: "move_cost"@, required: false, kind: KindView::Block },
        RuleView { name: "domicile_temperament_low_modifier"@, required: false, kind: KindView::Block },
        RuleView { name: "domicile_temperament_high_modifier"@, required: false, kind: KindView::Block },
        RuleView { name: "base_external_slots"@, required: false, kind: KindView::Integer },
        RuleView { name: "domicile_building_slots"@, required: false, kind: KindView::Block },
    ]
}

/// Rules for the `domicile_asset` block of the domicile type.
pub open spec fn domicile_type_domicile_asset_rules() -> Seq<RuleView> {
    seq![
        RuleView { name: "trigger"@, required: false, kind: KindView::Trigger },
        RuleView { name: "background"@, required: false, kind: KindView::Value },
        RuleView { name: "foreground"@, required: false, kind: KindView::Value },
        RuleView { name: "ambience"@, required: false, kind: KindView::Item(Item::Sound) },
    ]
}

/// Rules for the fields of the domicile type, part 5.
pub open spec fn domicile_type_rules_5() -> Seq<RuleView> {
    seq![
        RuleView { name: "map_entity"@, required: false, kind: KindView::Any },
    ]
}

/// The fields the domicile type knows.
pub open spec fn domicile_type_known() -> Seq<RuleView> {
    domicile_type_rules_1()
        + domicile_type_rules_2()
        + domicile_type_rules_3()
        + domicile_type_rules_4()
        + seq![known_block("domicile_asset"@)]
        + domicile_type_rules_5()
}

/// The reports on the domicile type `key` defined by `block`: its localization (`domicile_` and its
/// key), its fields as [`domicile_type_rules_1`] and the parts after it have them, the files its
/// `illustration`, `icon` and `map_pin_texture` name among the `files` of `game`, each
/// `domicile_asset` block checked by its own rules, and the fields it does not know.
pub open spec fn domicile_type_reports(
    key: Token,
    block: Block,
    db: Db,
    files: Seq<FileEntry>,
    game: Game,
) -> Seq<ReportView> {
    item_reports(db, Item::Localization, "domicile_"@ + key.s@, key.loc)
        + rules_reports(domicile_type_rules_1(), block, db)
        + file_field_reports(files, game, "illustration"@, block.v@)
        + rules_reports(domicile_type_rules_2(), block, db)
        + file_field_reports(files, game, "icon"@, block.v@)
        + rules_reports(domicile_type_rules_3(), block, db)
        + file_field_reports(files, game, "map_pin_texture"@, block.v@)
        + rules_reports(domicile_type_rules_4(), block, db)
        + nested_reports("domicile_asset"@, domicile_type_domicile_asset_rules(), block.v@, db)
        + rules_reports(domicile_type_rules_5(), block, db)
        + unknown_field_reports(domicile_type_known(), block.v@)
}

/// The files that checking the domicile type marks as used.
pub open spec fn domicile_type_files(key: Token, block: Block) -> Set<Seq<char>> {
    file_field_names("illustration"@, block.v@)
        .union(file_field_names("icon"@, block.v@))
        .union(file_field_names("map_pin_texture"@, block.v@))
}

impl DomicileType {
    /// Checks the domicile type `key` defined by `block`, as [`domicile_type_reports`] says, with
    /// `fs` the file set; the files looked up are marked as used.
    pub fn validate(key: &Token, block: &Block, db: &Db, fs: &mut Fileset) -> (r: Vec<Report>)
        requires
            db.wf(),
            old(fs).wf(),
        ensures
            final(fs).wf(),
            marked_more(*old(fs), *final(fs), domicile_type_files(*key, *block)),
            views(r@) == domicile_type_reports(*key, *block, *db, old(fs).spec_files(), old(fs).spec_game()),
    {
        let ch0 = vec!["none", "primary_title", "house"];
        assert(ch0@.map_values(|c: &str| c@) =~= seq!["none"@, "primary_title"@, "house"@]);
        let ch1 = vec!["up", "right"];
        assert(ch1@.map_values(|c: &str| c@) =~= seq!["up"@, "right"@]);
        let mut out: Vec<Report> = Vec::new();
        let ghost f0 = *fs;
        proof {
            reveal_strlit("");
            assert("domicile_"@ + key.s@ + ""@ =~= "domicile_"@ + key.s@);
        }
        check_loca(db, "domicile_", key, "", &mut out);
        let r1 = vec![
            FieldRule { name: "allowed_for_character", required: false, kind: FieldKind::Trigger },
            FieldRule { name: "rename_window", required: false, kind: FieldKind::Choice(ch0) },
            FieldRule { name: "illustration", required: false, kind: FieldKind::Value },
        ];
        assert(rules_view(r1@) =~= domicile_type_rules_1());
        append_reports(&mut out, check_rules(block, db, &r1));
        append_reports(&mut out, check_file_fields(fs, block, "illustration"));
        let r2 = vec![
            FieldRule { name: "icon", required: false, kind: FieldKind::Value },
        ];
        assert(rules_view(r2@) =~= domicile_type_rules_2());
        append_reports(&mut out, check_rules(block, db, &r2));
        append_reports(&mut out, check_file_fields(fs, block, "icon"));
        let r3 = vec![
            FieldRule { name: "map_pin_texture", required: false, kind: FieldKind::Value },
        ];
        assert(rules_view(r3@) =~= domicile_type_rules_3());
        append_reports(&mut out, check_rules(block, db, &r3));
        append_reports(&mut out, check_file_fields(fs, block, "map_pin_texture"));
        let r4 = vec![
            FieldRule { name: "map_pin_anchor", required: false, kind: FieldKind::Choice(ch1) },
            FieldRule { name: "map_pin_lobby", required: false, kind: FieldKind::Bool },
            FieldRule { name: "provisions", required: false, kind: FieldKind::Bool },
            FieldRule { name: "travel", required: false, kind: FieldKind::Bool },
            FieldRule { name: "herd", required: false, kind: FieldKind::Bool },
            FieldRule { name: "culture_and_faith", required: false, kind: FieldKind::Bool },
            FieldRule { name: "move_with_realm_capital", required: false, kind: FieldKind::Bool },
            FieldRule { name: "can_move_manually", required: false, kind: FieldKind::Bool },
            FieldRule { name: "move_cooldown", required: false, kind: FieldKind::Block },
            FieldRule { name: "move_cost", required: false, kind: FieldKind::Block },
            FieldRule { name: "domicile_temperament_low_modifier", required: false, kind: FieldKind::Block },
            FieldRule { name: "domicile_temperament_high_modifier", required: false, kind: FieldKind::Block },
            FieldRule { name: "base_external_slots", required: false, kind: FieldKind::Integer },
            FieldRule { name: "domicile_building_slots", required: false, kind: FieldKind::Block },
        ];
        assert(rules_view(r4@) =~= domicile_type_rules_4());
        append_reports(&mut out, check_rules(block, db, &r4));
        let n_domicile_asset = vec![
            FieldRule { name: "trigger", required: false, kind: FieldKind::Trigger },
            FieldRule { name: "background", required: false, kind: FieldKind::Value },
            FieldRule { name: "foreground", required: false, kind: FieldKind::Value },
            FieldRule { name: "ambience", required: false, kind: FieldKind::Item(Item::Sound) },
        ];
        assert(rules_view(n_domicile_asset@) =~= domicile_type_domicile_asset_rules());
        append_reports(&mut out, check_nested("domicile_asset", &n_domicile_asset, block, db));
        let r5 = vec![
            FieldRule { name: "map_entity", required: false, kind: FieldKind::Any },
        ];
        assert(rules_view(r5@) =~= domicile_type_rules_5());
        append_reports(&mut out, check_rules(block, db, &r5));
        let mut known: Vec<FieldRule> = Vec::new();
        extend_rules(&mut known, &r1);
        extend_rules(&mut known, &r2);
        extend_rules(&mut known, &r3);
        extend_rules(&mut known, &r4);
        extend_rules(&mut known, &known_block_rules("domicile_asset"));
        extend_rules(&mut known, &r5);
        assert(rules_view(known@) =~= domicile_type_known());
        append_reports(&mut out, check_unknown(block, &known));
        assert(fs.spec_used() =~= f0.spec_used().union(domicile_type_files(*key, *block)));
        out
    }
}

/// Rules for the fields of the domicile building, part 1.
pub open spec fn domicile_building_rules_1() -> Seq<RuleView> {
    seq![
        RuleView { name: "can_construct"@, required: false, kind: KindView::Trigger },
        RuleView { name: "on_start"@, required: false, kind: KindView::Block },
        RuleView { name: "on_canceled"@, required: false, kind: KindView::Block },
        RuleView { name: "on_complete"@, required: false, kind: KindView::Block },
        RuleView { name: "construction_time"@, required: false, kind: KindView::Integer },
        RuleView { name: "parameters"@, required: false, kind: KindView::Block },
        RuleView { name: "slot_type"@, required: false, kind: KindView::Choice(seq!["main"@, "external"@, "internal"@]) },
        RuleView { name: "internal_slots"@, required: false, kind: KindView::Integer },
        RuleView { name: "allowed_domicile_types"@, required: false, kind: KindView::ListItems(Item::DomicileType) },
        RuleView { name: "previous_building"@, required: false, kind: KindView::Item(Item::DomicileBuilding) },
        RuleView { name: "cost"@, required: false, kind: KindView::Block },
        RuleView { name: "character_modifier"@, required: false, kind: KindView::Block },
        RuleView { name: "province_modifier"@, required: false, kind: KindView::Block },
        RuleView { name: "ai_value"@, required: false, kind: KindView::Any },
    ]
}

/// Rules for the `asset` block of the domicile building.
pub open spec fn domicile_building_asset_rules() -> Seq<RuleView> {
    seq![
        RuleView { name: "trigger"@, required: false, kind: KindView::Trigger },
        RuleView { name: "icon"@, required: false, kind: KindView::Value },
        RuleView { name: "texture"@, required: false, kind: KindView::Value },
        RuleView { name: "intersectionmask_texture"@, required: false, kind: KindView::Value },
        RuleView { name: "soundeffect"@, required: false, kind: KindView::Item(Item::Sound) },
    ]
}

/// Rules for the fields of the domicile building, part 2.
pub open spec fn domicile_building_rules_2() -> Seq<RuleView> {
    seq![
        RuleView { name: "refund"@, required: false, kind: KindView::Block },
    ]
}

/// The fields the domicile building knows.
pub open spec fn domicile_building_known() -> Seq<RuleView> {
    domicile_building_rules_1() + seq![known_block("asset"@)] + domicile_building_rules_2()
}

/// The reports on the domicile building `key` defined by `block`: its fields as
/// [`domicile_building_rules_1`] and the parts after it have them, each `asset` block checked by
/// its own rules, and the fields it does not know.
pub open spec fn domicile_building_reports(block: Block, db: Db) -> Seq<ReportView> {
    rules_reports(domicile_building_rules_1(), block, db)
        + nested_reports("asset"@, domicile_building_asset_rules(), block.v@, db)
        + rules_reports(domicile_building_rules_2(), block, db)
        + unknown_field_reports(domicile_building_known(), block.v@)
}

impl DomicileBuilding {
    /// Checks the domicile building `key` defined by `block`, as [`domicile_building_reports`]
    /// says.
    pub fn validate(_key: &Token, block: &Block, db: &Db) -> (r: Vec<Report>)
        requires
            db.wf(),
        ensures
            views(r@) == domicile_building_reports(*block, *db),
    {
        let ch0 = vec!["main", "external", "internal"];
        assert(ch0@.map_values(|c: &str| c@) =~= seq!["main"@, "external"@, "internal"@]);
        let mut out: Vec<Report> = Vec::new();
        let r1 = vec![
            FieldRule { name: "can_construct", required: false, kind: FieldKind::Trigger },
            FieldRule { name: "on_start", required: false, kind: FieldKind::Block },
            FieldRule { name: "on_canceled", required: false, kind: FieldKind::Block },
            FieldRule { name: "on_complete", required: false, kind: FieldKind::Block },
            FieldRule { name: "construction_time", required: false, kind: FieldKind::Integer },
            FieldRule { name: "parameters", required: false, kind: FieldKind::Block },
            FieldRule { name: "slot_type", required: false, kind: FieldKind::Choice(ch0) },
            FieldRule { name: "internal_slots", required: false, kind: FieldKind::Integer },
            FieldRule { name: "allowed_domicile_types", required: false, kind: FieldKind::ListItems(Item::DomicileType) },
            FieldRule { name: "previous_building", required: false, kind: FieldKind::Item(Item::DomicileBuilding) },
            FieldRule { name: "cost", required: false, kind: FieldKind::Block },
            FieldRule { name: "character_modifier", required: false, kind: FieldKind::Block },
            FieldRule { name: "province_modifier", required: false, kind: FieldKind::Block },
            FieldRule { name: "ai_value", required: false, kind: FieldKind::Any },
        ];
        assert(rules_view(r1@) =~= domicile_building_rules_1());
        append_reports(&mut out, check_rules(block, db, &r1));
        let n_asset = vec![
            FieldRule { name: "trigger", required: false, kind: FieldKind::Trigger },
            FieldRule { name: "icon", required: false, kind: FieldKind::Value },
            FieldRule { name: "texture", required: false, kind: FieldKind::Value },
            FieldRule { name: "intersectionmask_texture", required: false, kind: FieldKind::Value },
            FieldRule { name: "soundeffect", required: false, kind: FieldKind::Item(Item::Sound) },
        ];
        assert(rules_view(n_asset@) =~= domicile_building_asset_rules());
        append_reports(&mut out, check_nested("asset", &n_asset, block, db));
        let r2 = vec![
            FieldRule { name: "refund", required: false, kind: FieldKind::Block },
        ];
        assert(rules_view(r2@) =~= domicile_building_rules_2());
        append_reports(&mut out, check_rules(block, db, &r2));
        let mut known: Vec<FieldRule> = Vec::new();
        extend_rules(&mut known, &r1);
        extend_rules(&mut known, &known_block_rules("asset"));
        extend_rules(&mut known, &r2);
        assert(rules_view(known@) =~= domicile_building_known());
        append_reports(&mut out, check_unknown(block, &known));
        out
    }
}

} // verus!
