//! Dynasty legacies and perks.

use vstd::prelude::*;

use crate::block::Block;
use crate::db::{Db, Item};
use crate::token::Token;

use crate::validator::{append_reports, check_icon, check_loca, check_rules, check_unknown, icon_names, icon_reports, marked_more, opt_text, rules_reports, rules_view, unknown_field_reports, FieldKind, FieldRule, KindView, RuleView};
use crate::defines::item_reports;
use crate::files::fileset::{FileEntry, Fileset};
use crate::game::Game;
use crate::report::{views, Report, ReportView};
verus! {

/// The dynasty legacy items.
#[derive(Clone, Debug)]
pub struct DynastyLegacy {}

impl DynastyLegacy {
    /// Adds the dynasty legacy `key`, defined by `block`, to the database.
    pub fn add(db: &mut Db, key: Token, block: Block)
        requires
            old(db).wf(),
        ensures
            final(db).wf(),
            final(db)@ == old(db)@.insert((Item::DynastyLegacy, key.s@), (key, block)),
            final(db).spec_flags() == old(db).spec_flags(),
    {
        db.add(Item::DynastyLegacy, key, block);
    }
}

/// The dynasty perk items.
#[derive(Clone, Debug)]
pub struct DynastyPerk {}

impl DynastyPerk {
    /// Adds the dynasty perk `key`, defined by `block`, to the database.
    pub fn add(db: &mut Db, key: Token, block: Block)
        requires
            old(db).wf(),
        ensures
            final(db).wf(),
            final(db)@ == old(db)@.insert((Item::DynastyPerk, key.s@), (key, block)),
            final(db).spec_flags() == old(db).spec_flags(),
    {
        db.add(Item::DynastyPerk, key, block);
    }
}

/// The rules for the fields of the dynasty legacy.
pub open spec fn dynasty_legacy_rules() -> Seq<RuleView> {
    seq![
        RuleView { name: "is_shown"@, required: false, kind: KindView::Trigger },
    ]
}

/// The reports on the dynasty legacy `key` defined by `block`: its localization (its key with
/// `_name` and with `_desc`), its icons (its key, with `.dds`) in `track_dir` and `icon_dir` among
/// the `files` of `game`, its fields as [`dynasty_legacy_rules`] has them, and the fields it does
/// not know.
pub open spec fn dynasty_legacy_reports(
    key: Token,
    block: Block,
    db: Db,
    files: Seq<FileEntry>,
    game: Game,
    track_dir: Option<Seq<char>>,
    icon_dir: Option<Seq<char>>,
) -> Seq<ReportView> {
    item_reports(db, Item::Localization, key.s@ + "_name"@, key.loc)
        + item_reports(db, Item::Localization, key.s@ + "_desc"@, key.loc)
        + icon_reports(files, game, track_dir, key, ".dds"@)
        + icon_reports(files, game, icon_dir, key, ".dds"@)
        + rules_reports(dynasty_legacy_rules(), block, db)
        + unknown_field_reports(dynasty_legacy_rules(), block.v@)
}

/// The files that checking the dynasty legacy marks as used.
pub open spec fn dynasty_legacy_files(
    key: Token,
    block: Block,
    track_dir: Option<Seq<char>>,
    icon_dir: Option<Seq<char>>,
) -> Set<Seq<char>> {
    icon_names(track_dir, key.s@, ".dds"@).union(icon_names(icon_dir, key.s@, ".dds"@))
}

impl DynastyLegacy {
    /// Checks the dynasty legacy `key` defined by `block`, as [`dynasty_legacy_reports`] says, with
    /// `fs` the file set and `track_dir` and `icon_dir` the directories of legacy track icons and
    /// legacy icons (the game's defines `NGameIcons|LEGACY_TRACK_ICON_PATH` and
    /// `NGameIcons|LEGACY_ICON_PATH`), if known; the files looked up are marked as used.
    pub fn validate(key: &Token, block: &Block, db: &Db, fs: &mut Fileset, track_dir: Option<&str>, icon_dir: Option<&str>) -> (r: Vec<Report>)
        requires
            db.wf(),
            old(fs).wf(),
        ensures
            final(fs).wf(),
            marked_more(*old(fs), *final(fs), dynasty_legacy_files(*key, *block, opt_text(track_dir), opt_text(icon_dir))),
            views(r@) == dynasty_legacy_reports(*key, *block, *db, old(fs).spec_files(), old(fs).spec_game(), opt_text(track_dir), opt_text(icon_dir)),
    {
        let mut out: Vec<Report> = Vec::new();
        let ghost f0 = *fs;
        proof {
            reveal_strlit("");
            assert(""@ + key.s@ + "_name"@ =~= key.s@ + "_name"@);
        }
        check_loca(db, "", key, "_name", &mut out);
        proof {
            reveal_strlit("");
            assert(""@ + key.s@ + "_desc"@ =~= key.s@ + "_desc"@);
        }
        check_loca(db, "", key, "_desc", &mut out);
        append_reports(&mut out, check_icon(fs, track_dir, key, ".dds"));
        append_reports(&mut out, check_icon(fs, icon_dir, key, ".dds"));
        let r1 = vec![
            FieldRule { name: "is_shown", required: false, kind: FieldKind::Trigger },
        ];
        assert(rules_view(r1@) =~= dynasty_legacy_rules());
        append_reports(&mut out, check_rules(block, db, &r1));
        append_reports(&mut out, check_unknown(block, &r1));
        assert(fs.spec_used() =~= f0.spec_used().union(dynasty_legacy_files(*key, *block, opt_text(track_dir), opt_text(icon_dir))));
        out
    }
}

/// The rules for the fields of the dynasty perk.
pub open spec fn dynasty_perk_rules() -> Seq<RuleView> {
    seq![
        RuleView { name: "legacy"@, required: false, kind: KindView::Item(Item::DynastyLegacy) },
        RuleView { name: "can_be_picked"@, required: false, kind: KindView::Trigger },
        RuleView { name: "effect"@, required: false, kind: KindView::Block },
        RuleView { name: "character_modifier"@, required: false, kind: KindView::Block },
        RuleView { name: "doctrine_character_modifier"@, required: false, kind: KindView::Block },
        RuleView { name: "unlock_maa"@, required: false, kind: KindView::Advice("removed in 1.16"@) },
        RuleView { name: "trait"@, required: false, kind: KindView::Item(Item::Trait) },
        RuleView { name: "traits"@, required: false, kind: KindView::Block },
        RuleView { name: "ai_chance"@, required: false, kind: KindView::Any },
    ]
}

/// The reports on the dynasty perk `key` defined by `block`: its localization (its key and
/// `_name`), its fields as [`dynasty_perk_rules`] has them, and the fields it does not know.
pub open spec fn dynasty_perk_reports(key: Token, block: Block, db: Db) -> Seq<ReportView> {
    item_reports(db, Item::Localization, key.s@ + "_name"@, key.loc)
        + rules_reports(dynasty_perk_rules(), block, db)
        + unknown_field_reports(dynasty_perk_rules(), block.v@)
}

impl DynastyPerk {
    /// Checks the dynasty perk `key` defined by `block`, as [`dynasty_perk_reports`] says.
    pub fn validate(key: &Token, block: &Block, db: &Db) -> (r: Vec<Report>)
        requires
            db.wf(),
        ensures
            views(r@) == dynasty_perk_reports(*key, *block, *db),
    {
        let mut out: Vec<Report> = Vec::new();
        proof {
            reveal_strlit("");
            assert(""@ + key.s@ + "_name"@ =~= key.s@ + "_name"@);
        }
        check_loca(db, "", key, "_name", &mut out);
        let r1 = vec![
            FieldRule { name: "legacy", required: false, kind: FieldKind::Item(Item::DynastyLegacy) },
            FieldRule { name: "can_be_picked", required: false, kind: FieldKind::Trigger },
            FieldRule { name: "effect", required: false, kind: FieldKind::Block },
            FieldRule { name: "character_modifier", required: false, kind: FieldKind::Block },
            FieldRule { name: "doctrine_character_modifier", required: false, kind: FieldKind::Block },
            FieldRule { name: "unlock_maa", required: false, kind: FieldKind::Advice("removed in 1.16") },
            FieldRule { name: "trait", required: false, kind: FieldKind::Item(Item::Trait) },
            FieldRule { name: "traits", required: false, kind: FieldKind::Block },
            FieldRule { name: "ai_chance", required: false, kind: FieldKind::Any },
        ];
        assert(rules_view(r1@) =~= dynasty_perk_rules());
        append_reports(&mut out, check_rules(block, db, &r1));
        append_reports(&mut out, check_unknown(block, &r1));
        out
    }
}

} // verus!
