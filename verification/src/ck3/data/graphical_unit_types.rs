//! Graphical unit types.

use vstd::prelude::*;

use crate::block::Block;
use crate::db::{Db, Item};
use crate::token::Token;

use crate::files::fileset::{has_path, lookup_path, FileEntry, Fileset};
use crate::game::Game;
use crate::report::{report_str, rv, views, ErrorKey, Report, ReportView, Severity};
use crate::validator::{
    append_reports, check_fields, fields_reports, icon_file, opt_text, rules_view, FieldKind, FieldRule, KindView,
    RuleView,
};
verus! {

/// The graphical unit type items.
#[derive(Clone, Debug)]
pub struct GraphicalUnitType {}

impl GraphicalUnitType {
    /// Adds the graphical unit type `key`, defined by `block`, to the database.
    pub fn add(db: &mut Db, key: Token, block: Block)
        requires
            old(db).wf(),
        ensures
            final(db).wf(),
            final(db)@ == old(db)@.insert((Item::GraphicalUnitType, key.s@), (key, block)),
            final(db).spec_flags() == old(db).spec_flags(),
    {
        db.add(Item::GraphicalUnitType, key, block);
    }
}


/// Whether the illustration of `key` (with `.dds`) is among the `files` of
/// `game` in the directory `dir`, when the directory is known.
pub open spec fn illustration_found(files: Seq<FileEntry>, game: Game, dir: Option<Seq<char>>, key: Seq<char>) -> bool {
    match dir {
        Some(d) => has_path(files, lookup_path(game, icon_file(d, key, ".dds"@))),
        None => false,
    }
}

/// The rules for the fields of a graphical unit type.
pub open spec fn graphical_unit_type_rules() -> Seq<RuleView> {
    seq![RuleView { name: "graphical_cultures"@, required: false, kind: KindView::ListItems(Item::UnitGfx) }]
}

/// The reports on the graphical unit type `key` defined by `block`: a
/// warning when none of the illustration directories `dirs` holds its
/// illustration among the `files` of `game` (but for the type `default`),
/// its fields as [`graphical_unit_type_rules`] has them, and the fields it
/// does not know.
pub open spec fn graphical_unit_type_reports(
    key: Token,
    block: Block,
    db: Db,
    files: Seq<FileEntry>,
    game: Game,
    dirs: Seq<Option<Seq<char>>>,
) -> Seq<ReportView> {
    (if !(exists|i: int| 0 <= i < dirs.len() && illustration_found(files, game, #[trigger] dirs[i], key.s@))
        && key.s@ != "default"@ {
        seq![
            rv(
                ErrorKey::MissingFile,
                Severity::Warning,
                "no knight or levy illustrations found for `{key}`"@,
                key.loc,
            ),
        ]
    } else {
        Seq::empty()
    }) + fields_reports(graphical_unit_type_rules(), block, db)
}

impl GraphicalUnitType {
    /// Checks the graphical unit type `key` defined by `block`, as
    /// [`graphical_unit_type_reports`] says, with `fs` the file set and
    /// `dirs` the directories of levy and knight illustrations, small and
    /// big (the game's defines `NGameIcons|GRAPHICAL_UNIT_TYPES_*_PATH`),
    /// each if known.
    pub fn validate(key: &Token, block: &Block, db: &Db, fs: &Fileset, dirs: &[Option<&str>]) -> (r: Vec<Report>)
        requires
            db.wf(),
            fs.wf(),
        ensures
            views(r@) == graphical_unit_type_reports(
                *key,
                *block,
                *db,
                fs.spec_files(),
                fs.spec_game(),
                dirs@.map_values(|d: Option<&str>| opt_text(d)),
            ),
    {
        let ghost ds = dirs@.map_values(|d: Option<&str>| opt_text(d));
        let mut found = false;
        let mut i: usize = 0;
        while i < dirs.len()
            invariant
                i <= dirs@.len(),
                fs.wf(),
                ds == dirs@.map_values(|d: Option<&str>| opt_text(d)),
                found == (exists|j: int| 0 <= j < i && illustration_found(fs.spec_files(), fs.spec_game(), #[trigger] ds[j], key.s@)),
            decreases dirs@.len() - i,
        {
            match dirs[i] {
                Some(d) => {
                    let mut v: Vec<char> = Vec::new();
                    crate::text::push_str(&mut v, d);
                    crate::text::push_str(&mut v, "/");
                    crate::text::push_str(&mut v, key.s.as_str());
                    crate::text::push_str(&mut v, ".dds");
                    let file = crate::text::string_from_chars(v.as_slice());
                    assert(file@ == icon_file(d@, key.s@, ".dds"@));
                    if fs.file_exists(file.as_str()) {
                        found = true;
                    }
                },
                None => {},
            }
            assert(ds[i as int] == opt_text(dirs@[i as int]));
            i = i + 1;
        }
        let mut out: Vec<Report> = Vec::new();
        if !found && !key.is("default") {
            out.push(report_str(
                ErrorKey::MissingFile,
                Severity::Warning,
                "no knight or levy illustrations found for `{key}`",
                key.loc,
            ));
        }
        let rules = vec![FieldRule { name: "graphical_cultures", required: false, kind: FieldKind::ListItems(Item::UnitGfx) }];
        assert(rules_view(rules@) =~= graphical_unit_type_rules());
        append_reports(&mut out, check_fields(block, db, &rules));
        out
    }
}

} // verus!
