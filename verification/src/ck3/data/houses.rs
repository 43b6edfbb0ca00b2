//! Houses and house aspirations.

use vstd::prelude::*;

use crate::block::{field_blocks, last_field_value, Block};
use crate::db::{add_blocks_assignment_flags, blocks_assignment_flags, Db, Item, ValueFilter};
use crate::token::Token;

use crate::validator::{append_reports, check_file_fields, check_icon, check_loca, check_nested, check_rules, check_unknown, extend_rules, file_field_names, file_field_reports, icon_names, icon_reports, known_block, known_block_rules, marked_more, nested_reports, opt_text, rules_reports, rules_view, unknown_field_reports, FieldKind, FieldRule, KindView, RuleView};
use crate::defines::item_reports;
use crate::files::fileset::{FileEntry, Fileset};
use crate::game::Game;
use crate::report::{views, Report, ReportView};
verus! {

/// The house items.
#[derive(Clone, Debug)]
pub struct House {}

impl House {
    /// Adds the house `key`, defined by `block`, to the database.
    pub fn add(db: &mut Db, key: Token, block: Block)
        requires
            old(db).wf(),
        ensures
            final(db).wf(),
            final(db)@ == old(db)@.insert((Item::House, key.s@), (key, block)),
            final(db).spec_flags() == old(db).spec_flags(),
    {
        db.add(Item::House, key, block);
    }
}

/// The house aspiration items.
#[derive(Clone, Debug)]
pub struct HouseAspiration {}

impl HouseAspiration {
    /// Adds the house aspiration `key`, defined by `block`, to the database.
    pub fn add(db: &mut Db, key: Token, block: Block)
        requires
            old(db).wf(),
        ensures
            final(db).wf(),
            final(db)@ == old(db)@.insert((Item::HouseAspiration, key.s@), (key, block)),
            final(db).spec_flags() == old(db).spec_flags(),
    {
        db.add(Item::HouseAspiration, key, block);
    }
}

impl House {
    /// The dynasty of the house `key`: the `dynasty` field of its block.
    pub fn get_dynasty<'a>(key: &str, db: &'a Db) -> (r: Option<&'a Token>)
        requires
            db.wf(),
        ensures
            match r {
                Some(t) => db@.contains_key((Item::House, key@)) && last_field_value(
                    db@[(Item::House, key@)].1.v@,
                    "dynasty"@,
                ) == Some(*t),
                None => !db@.contains_key((Item::House, key@)) || last_field_value(
                    db@[(Item::House, key@)].1.v@,
                    "dynasty"@,
                ) is None,
            },
    {
        match db.get_key_block(Item::House, key) {
            Some((_, block)) => block.get_field_value("dynasty"),
            None => None,
        }
    }
}

impl HouseAspiration {
    /// Adds as boolean parameters the keys set to `yes` or `no`, in any case,
    /// in the `parameters` and `house_head_parameters` of each level.
    pub fn add_subitems(&self, _key: &Token, block: &Block, db: &mut Db)
        ensures
            final(db).wf() == old(db).wf(),
            final(db)@ == old(db)@,
            final(db).spec_entries() == old(db).spec_entries(),
            final(db).spec_flags() == old(db).spec_flags().union(
                blocks_assignment_flags(
                    Item::BooleanHousePowerParameter,
                    field_blocks(block.v@, "level"@),
                    Some("parameters"@),
                    ValueFilter::YesNoAnyCase,
                ),
            ).union(
                blocks_assignment_flags(
                    Item::BooleanHouseHeadParameter,
                    field_blocks(block.v@, "level"@),
                    Some("house_head_parameters"@),
                    ValueFilter::YesNoAnyCase,
                ),
            ),
    {
        let levels = block.get_field_blocks("level");
        assert(levels@.map_values(|b: &Block| *b) =~= field_blocks(block.v@, "level"@));
        add_blocks_assignment_flags(db, Item::BooleanHousePowerParameter, &levels, Some("parameters"), ValueFilter::YesNoAnyCase);
        add_blocks_assignment_flags(db, Item::BooleanHouseHeadParameter, &levels, Some("house_head_parameters"), ValueFilter::YesNoAnyCase);
    }
}

/// The rules for the fields of the house.
pub open spec fn house_rules() -> Seq<RuleView> {
    seq![
        RuleView { name: "name"@, required: true, kind: KindView::Any },
        RuleView { name: "dynasty"@, required: true, kind: KindView::Any },
        RuleView { name: "name"@, required: false, kind: KindView::Item(Item::Localization) },
        RuleView { name: "prefix"@, required: false, kind: KindView::Item(Item::Localization) },
        RuleView { name: "motto"@, required: false, kind: KindView::Item(Item::Localization) },
        RuleView { name: "dynasty"@, required: false, kind: KindView::Item(Item::Dynasty) },
        RuleView { name: "forced_coa_religiongroup"@, required: false, kind: KindView::Value },
    ]
}

/// The reports on the house `key` defined by `block`: its required `name` and `dynasty`, its fields
/// as [`house_rules`] has them, and the fields it does not know.
pub open spec fn house_reports(block: Block, db: Db) -> Seq<ReportView> {
    rules_reports(house_rules(), block, db)
        + unknown_field_reports(house_rules(), block.v@)
}

impl House {
    /// Checks the house `key` defined by `block`, as [`house_reports`] says.
    pub fn validate(_key: &Token, block: &Block, db: &Db) -> (r: Vec<Report>)
        requires
            db.wf(),
        ensures
            views(r@) == house_reports(*block, *db),
    {
        let mut out: Vec<Report> = Vec::new();
        let r1 = vec![
            FieldRule { name: "name", required: true, kind: FieldKind::Any },
            FieldRule { name: "dynasty", required: true, kind: FieldKind::Any },
            FieldRule { name: "name", required: false, kind: FieldKind::Item(Item::Localization) },
            FieldRule { name: "prefix", required: false, kind: FieldKind::Item(Item::Localization) },
            FieldRule { name: "motto", required: false, kind: FieldKind::Item(Item::Localization) },
            FieldRule { name: "dynasty", required: false, kind: FieldKind::Item(Item::Dynasty) },
            FieldRule { name: "forced_coa_religiongroup", required: false, kind: FieldKind::Value },
        ];
        assert(rules_view(r1@) =~= house_rules());
        append_reports(&mut out, check_rules(block, db, &r1));
        append_reports(&mut out, check_unknown(block, &r1));
        out
    }
}

/// Rules for the fields of the house aspiration, part 1.
pub open spec fn house_aspiration_rules_1() -> Seq<RuleView> {
    seq![
        RuleView { name: "show_in_main_hud"@, required: false, kind: KindView::Bool },
        RuleView { name: "is_shown"@, required: false, kind: KindView::Trigger },
        RuleView { name: "is_default"@, required: false, kind: KindView::Bool },
        RuleView { name: "level"@, required: true, kind: KindView::Any },
    ]
}

/// Rules for the `level` block of the house aspiration.
pub open spec fn house_aspiration_level_rules() -> Seq<RuleView> {
    seq![
        RuleView { name: "cost"@, required: false, kind: KindView::Block },
        RuleView { name: "powerful_family_top_liege_modifier"@, required: false, kind: KindView::Block },
        RuleView { name: "powerful_family_member_modifier"@, required: false, kind: KindView::Block },
        RuleView { name: "any_house_member_modifier"@, required: false, kind: KindView::Block },
        RuleView { name: "house_head_modifier"@, required: false, kind: KindView::Block },
        RuleView { name: "ai_score"@, required: false, kind: KindView::Any },
        RuleView { name: "parameters"@, required: false, kind: KindView::Block },
        RuleView { name: "house_head_parameters"@, required: false, kind: KindView::Block },
        RuleView { name: "can_request_great_project_contributions_from_allies"@, required: false, kind: KindView::Bool },
        RuleView { name: "can_upgrade"@, required: false, kind: KindView::Trigger },
    ]
}

/// Rules for the fields of the house aspiration, part 2.
pub open spec fn house_aspiration_rules_2() -> Seq<RuleView> {
    seq![
        RuleView { name: "illustration"@, required: false, kind: KindView::Value },
    ]
}

/// Rules for the `cooldown` block of the house aspiration.
pub open spec fn house_aspiration_cooldown_rules() -> Seq<RuleView> {
    seq![
        RuleView { name: "days"@, required: false, kind: KindView::Integer },
        RuleView { name: "weeks"@, required: false, kind: KindView::Integer },
        RuleView { name: "months"@, required: false, kind: KindView::Integer },
        RuleView { name: "years"@, required: false, kind: KindView::Integer },
    ]
}

/// Rules for the fields of the house aspiration, part 3.
pub open spec fn house_aspiration_rules_3() -> Seq<RuleView> {
    seq![
        RuleView { name: "on_changed"@, required: false, kind: KindView::Block },
        RuleView { name: "on_upgraded"@, required: false, kind: KindView::Block },
    ]
}

/// The fields the house aspiration knows.
pub open spec fn house_aspiration_known() -> Seq<RuleView> {
    house_aspiration_rules_1()
        + seq![known_block("level"@)]
        + house_aspiration_rules_2()
        + seq![known_block("cooldown"@)]
        + house_aspiration_rules_3()
}

/// The reports on the house aspiration `key` defined by `block`: its localization (its key and
/// `_house_power`), its icon (its key, with `.dds`) in `icon_dir` among the `files` of `game`, its
/// fields as [`house_aspiration_rules_1`] and the parts after it have them, each `level` and
/// `cooldown` block checked by its own rules, the file its `illustration` names, and the fields it
/// does not know.
pub open spec fn house_aspiration_reports(
    key: Token,
    block: Block,
    db: Db,
    files: Seq<FileEntry>,
    game: Game,
    icon_dir: Option<Seq<char>>,
) -> Seq<ReportView> {
    item_reports(db, Item::Localization, key.s@ + "_house_power"@, key.loc)
        + icon_reports(files, game, icon_dir, key, ".dds"@)
        + rules_reports(house_aspiration_rules_1(), block, db)
        + nested_reports("level"@, house_aspiration_level_rules(), block.v@, db)
        + rules_reports(house_aspiration_rules_2(), block, db)
        + file_field_reports(files, game, "illustration"@, block.v@)
        + nested_reports("cooldown"@, house_aspiration_cooldown_rules(), block.v@, db)
        + rules_reports(house_aspiration_rules_3(), block, db)
        + unknown_field_reports(house_aspiration_known(), block.v@)
}

/// The files that checking the house aspiration marks as used.
pub open spec fn house_aspiration_files(
    key: Token,
    block: Block,
    icon_dir: Option<Seq<char>>,
) -> Set<Seq<char>> {
    icon_names(icon_dir, key.s@, ".dds"@).union(file_field_names("illustration"@, block.v@))
}

impl HouseAspiration {
    /// Checks the house aspiration `key` defined by `block`, as [`house_aspiration_reports`] says,
    /// with
    /// `fs` the file set and `icon_dir` the directory of house power icons (the game's define
    /// `NGameIcons|HOUSE_POWER_BONUS_ICON_PATH`), if known; the files looked up are marked as used.
    pub fn validate(key: &Token, block: &Block, db: &Db, fs: &mut Fileset, icon_dir: Option<&str>) -> (r: Vec<Report>)
        requires
            db.wf(),
            old(fs).wf(),
        ensures
            final(fs).wf(),
            marked_more(*old(fs), *final(fs), house_aspiration_files(*key, *block, opt_text(icon_dir))),
            views(r@) == house_aspiration_reports(*key, *block, *db, old(fs).spec_files(), old(fs).spec_game(), opt_text(icon_dir)),
    {
        let mut out: Vec<Report> = Vec::new();
        let ghost f0 = *fs;
        proof {
            reveal_strlit("");
            assert(""@ + key.s@ + "_house_power"@ =~= key.s@ + "_house_power"@);
        }
        check_loca(db, "", key, "_house_power", &mut out);
        append_reports(&mut out, check_icon(fs, icon_dir, key, ".dds"));
        let r1 = vec![
            FieldRule { name: "show_in_main_hud", required: false, kind: FieldKind::Bool },
            FieldRule { name: "is_shown", required: false, kind: FieldKind::Trigger },
            FieldRule { name: "is_default", required: false, kind: FieldKind::Bool },
            FieldRule { name: "level", required: true, kind: FieldKind::Any },
        ];
        assert(rules_view(r1@) =~= house_aspiration_rules_1());
        append_reports(&mut out, check_rules(block, db, &r1));
        let n_level = vec![
            FieldRule { name: "cost", required: false, kind: FieldKind::Block },
            FieldRule { name: "powerful_family_top_liege_modifier", required: false, kind: FieldKind::Block },
            FieldRule { name: "powerful_family_member_modifier", required: false, kind: FieldKind::Block },
            FieldRule { name: "any_house_member_modifier", required: false, kind: FieldKind::Block },
            FieldRule { name: "house_head_modifier", required: false, kind: FieldKind::Block },
            FieldRule { name: "ai_score", required: false, kind: FieldKind::Any },
            FieldRule { name: "parameters", required: false, kind: FieldKind::Block },
            FieldRule { name: "house_head_parameters", required: false, kind: FieldKind::Block },
            FieldRule { name: "can_request_great_project_contributions_from_allies", required: false, kind: FieldKind::Bool },
            FieldRule { name: "can_upgrade", required: false, kind: FieldKind::Trigger },
        ];
        assert(rules_view(n_level@) =~= house_aspiration_level_rules());
        append_reports(&mut out, check_nested("level", &n_level, block, db));
        let r2 = vec![
            FieldRule { name: "illustration", required: false, kind: FieldKind::Value },
        ];
        assert(rules_view(r2@) =~= house_aspiration_rules_2());
        append_reports(&mut out, check_rules(block, db, &r2));
        append_reports(&mut out, check_file_fields(fs, block, "illustration"));
        let n_cooldown = vec![
            FieldRule { name: "days", required: false, kind: FieldKind::Integer },
            FieldRule { name: "weeks", required: false, kind: FieldKind::Integer },
            FieldRule { name: "months", required: false, kind: FieldKind::Integer },
            FieldRule { name: "years", required: false, kind: FieldKind::Integer },
        ];
        assert(rules_view(n_cooldown@) =~= house_aspiration_cooldown_rules());
        append_reports(&mut out, check_nested("cooldown", &n_cooldown, block, db));
        let r3 = vec![
            FieldRule { name: "on_changed", required: false, kind: FieldKind::Block },
            FieldRule { name: "on_upgraded", required: false, kind: FieldKind::Block },
        ];
        assert(rules_view(r3@) =~= house_aspiration_rules_3());
        append_reports(&mut out, check_rules(block, db, &r3));
        let mut known: Vec<FieldRule> = Vec::new();
        extend_rules(&mut known, &r1);
        extend_rules(&mut known, &known_block_rules("level"));
        extend_rules(&mut known, &r2);
        extend_rules(&mut known, &known_block_rules("cooldown"));
        extend_rules(&mut known, &r3);
        assert(rules_view(known@) =~= house_aspiration_known());
        append_reports(&mut out, check_unknown(block, &known));
        assert(fs.spec_used() =~= f0.spec_used().union(house_aspiration_files(*key, *block, opt_text(icon_dir))));
        out
    }
}

} // verus!
