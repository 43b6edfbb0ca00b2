//! Insult types.

use vstd::prelude::*;

use crate::block::Block;
use crate::db::{Db, Item};
use crate::token::Token;

use crate::validator::{append_reports, check_loca, check_rules, check_unknown, rules_reports, rules_view, unknown_field_reports, FieldKind, FieldRule, KindView, RuleView};
use crate::defines::item_reports;
use crate::report::{views, Report, ReportView};
verus! {

/// The insult type items.
#[derive(Clone, Debug)]
pub struct InsultType {}

impl InsultType {
    /// Adds the insult type `key`, defined by `block`, to the database.
    pub fn add(db: &mut Db, key: Token, block: Block)
        requires
            old(db).wf(),
        ensures
            final(db).wf(),
            final(db)@ == old(db)@.insert((Item::InsultType, key.s@), (key, block)),
            final(db).spec_flags() == old(db).spec_flags(),
    {
        db.add(Item::InsultType, key, block);
    }
}

/// The rules for the fields of the insult type.
pub open spec fn insult_type_rules() -> Seq<RuleView> {
    seq![
        RuleView { name: "trigger"@, required: false, kind: KindView::Trigger },
    ]
}

/// The reports on the insult type `key` defined by `block`: the localization of its key, its fields
/// as [`insult_type_rules`] has them, and the fields it does not know.
pub open spec fn insult_type_reports(key: Token, block: Block, db: Db) -> Seq<ReportView> {
    item_reports(db, Item::Localization, key.s@, key.loc)
        + rules_reports(insult_type_rules(), block, db)
        + unknown_field_reports(insult_type_rules(), block.v@)
}

impl InsultType {
    /// Checks the insult type `key` defined by `block`, as [`insult_type_reports`] says.
    pub fn validate(key: &Token, block: &Block, db: &Db) -> (r: Vec<Report>)
        requires
            db.wf(),
        ensures
            views(r@) == insult_type_reports(*key, *block, *db),
    {
        let mut out: Vec<Report> = Vec::new();
        proof {
            reveal_strlit("");
            assert(""@ + key.s@ + ""@ =~= key.s@);
        }
        check_loca(db, "", key, "", &mut out);
        let r1 = vec![
            FieldRule { name: "trigger", required: false, kind: FieldKind::Trigger },
        ];
        assert(rules_view(r1@) =~= insult_type_rules());
        append_reports(&mut out, check_rules(block, db, &r1));
        append_reports(&mut out, check_unknown(block, &r1));
        out
    }
}

} // verus!
