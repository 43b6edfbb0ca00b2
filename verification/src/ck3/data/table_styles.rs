//! Table styles.

use vstd::prelude::*;

use crate::block::Block;
use crate::db::{Db, Item};
use crate::token::Token;

use crate::validator::{append_reports, check_file_fields, check_rules, check_unknown, file_field_names, file_field_reports, marked_more, rules_reports, rules_view, unknown_field_reports, FieldKind, FieldRule, KindView, RuleView};
use crate::files::fileset::{FileEntry, Fileset};
use crate::game::Game;
use crate::report::{views, Report, ReportView};
verus! {

/// The table style items.
#[derive(Clone, Debug)]
pub struct TableStyle {}

impl TableStyle {
    /// Adds the table style `key`, defined by `block`, to the database.
    pub fn add(db: &mut Db, key: Token, block: Block)
        requires
            old(db).wf(),
        ensures
            final(db).wf(),
            final(db)@ == old(db)@.insert((Item::TableStyle, key.s@), (key, block)),
            final(db).spec_flags() == old(db).spec_flags(),
    {
        db.add(Item::TableStyle, key, block);
    }
}

/// The rules for the fields of the table style.
pub open spec fn table_style_rules() -> Seq<RuleView> {
    seq![
        RuleView { name: "is_shown"@, required: false, kind: KindView::Trigger },
        RuleView { name: "dlc_feature"@, required: false, kind: KindView::Item(Item::DlcFeature) },
        RuleView { name: "priority"@, required: false, kind: KindView::Integer },
        RuleView { name: "default"@, required: false, kind: KindView::Bool },
        RuleView { name: "audio_parameter"@, required: false, kind: KindView::Choice(seq!["western"@, "asian"@]) },
        RuleView { name: "environment"@, required: false, kind: KindView::Value },
    ]
}

/// The reports on the table style `key` defined by `block`: its fields as [`table_style_rules`] has
/// them, the file that its `environment` names among the `files` of `game`, and the fields it does
/// not know.
pub open spec fn table_style_reports(
    block: Block,
    db: Db,
    files: Seq<FileEntry>,
    game: Game,
) -> Seq<ReportView> {
    rules_reports(table_style_rules(), block, db)
        + file_field_reports(files, game, "environment"@, block.v@)
        + unknown_field_reports(table_style_rules(), block.v@)
}

/// The files that checking the table style marks as used.
pub open spec fn table_style_files(block: Block) -> Set<Seq<char>> {
    file_field_names("environment"@, block.v@)
}

impl TableStyle {
    /// Checks the table style `key` defined by `block`, as [`table_style_reports`] says, with
    /// `fs` the file set;
    /// the files looked up are marked as used.
    pub fn validate(_key: &Token, block: &Block, db: &Db, fs: &mut Fileset) -> (r: Vec<Report>)
        requires
            db.wf(),
            old(fs).wf(),
        ensures
            final(fs).wf(),
            marked_more(*old(fs), *final(fs), table_style_files(*block)),
            views(r@) == table_style_reports(*block, *db, old(fs).spec_files(), old(fs).spec_game()),
    {
        let ch0 = vec!["western", "asian"];
        assert(ch0@.map_values(|c: &str| c@) =~= seq!["western"@, "asian"@]);
        let mut out: Vec<Report> = Vec::new();
        let ghost f0 = *fs;
        let r1 = vec![
            FieldRule { name: "is_shown", required: false, kind: FieldKind::Trigger },
            FieldRule { name: "dlc_feature", required: false, kind: FieldKind::Item(Item::DlcFeature) },
            FieldRule { name: "priority", required: false, kind: FieldKind::Integer },
            FieldRule { name: "default", required: false, kind: FieldKind::Bool },
            FieldRule { name: "audio_parameter", required: false, kind: FieldKind::Choice(ch0) },
            FieldRule { name: "environment", required: false, kind: FieldKind::Value },
        ];
        assert(rules_view(r1@) =~= table_style_rules());
        append_reports(&mut out, check_rules(block, db, &r1));
        append_reports(&mut out, check_file_fields(fs, block, "environment"));
        append_reports(&mut out, check_unknown(block, &r1));
        assert(fs.spec_used() =~= f0.spec_used().union(table_style_files(*block)));
        out
    }
}

} // verus!
