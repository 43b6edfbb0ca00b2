//! Connection arrows on the map.

use vstd::prelude::*;

use crate::block::Block;
use crate::db::{Db, Item};
use crate::token::Token;

use crate::validator::{append_reports, check_rules, check_unknown, rules_reports, rules_view, unknown_field_reports, FieldKind, FieldRule, KindView, RuleView};
use crate::report::{views, Report, ReportView};
verus! {

/// The connection arrow items.
#[derive(Clone, Debug)]
pub struct ConnectionArrow {}

impl ConnectionArrow {
    /// Adds the connection arrow `key`, defined by `block`, to the database.
    pub fn add(db: &mut Db, key: Token, block: Block)
        requires
            old(db).wf(),
        ensures
            final(db).wf(),
            final(db)@ == old(db)@.insert((Item::ConnectionArrow, key.s@), (key, block)),
            final(db).spec_flags() == old(db).spec_flags(),
    {
        db.add(Item::ConnectionArrow, key, block);
    }
}

/// The rules for the fields of the connection arrow.
pub open spec fn connection_arrow_rules() -> Seq<RuleView> {
    seq![
        RuleView { name: "is_primary"@, required: false, kind: KindView::Bool },
        RuleView { name: "arrow_type"@, required: false, kind: KindView::Value },
        RuleView { name: "provinces"@, required: false, kind: KindView::ListItems(Item::Province) },
    ]
}

/// The reports on the connection arrow `key` defined by `block`: its fields as
/// [`connection_arrow_rules`] has them, and the fields it does not know.
pub open spec fn connection_arrow_reports(block: Block, db: Db) -> Seq<ReportView> {
    rules_reports(connection_arrow_rules(), block, db)
        + unknown_field_reports(connection_arrow_rules(), block.v@)
}

impl ConnectionArrow {
    /// Checks the connection arrow `key` defined by `block`, as [`connection_arrow_reports`] says.
    pub fn validate(_key: &Token, block: &Block, db: &Db) -> (r: Vec<Report>)
        requires
            db.wf(),
        ensures
            views(r@) == connection_arrow_reports(*block, *db),
    {
        let mut out: Vec<Report> = Vec::new();
        let r1 = vec![
            FieldRule { name: "is_primary", required: false, kind: FieldKind::Bool },
            FieldRule { name: "arrow_type", required: false, kind: FieldKind::Value },
            FieldRule { name: "provinces", required: false, kind: FieldKind::ListItems(Item::Province) },
        ];
        assert(rules_view(r1@) =~= connection_arrow_rules());
        append_reports(&mut out, check_rules(block, db, &r1));
        append_reports(&mut out, check_unknown(block, &r1));
        out
    }
}

} // verus!
