//! Ruler objective types.

use vstd::prelude::*;

use crate::block::Block;
use crate::db::{Db, Item};
use crate::token::Token;

use crate::validator::{append_reports, check_rules, check_unknown, rules_reports, rules_view, unknown_field_reports, FieldKind, FieldRule, KindView, RuleView};
use crate::report::{views, Report, ReportView};
verus! {

/// The ruler objective type items.
#[derive(Clone, Debug)]
pub struct RulerObjectiveType {}

impl RulerObjectiveType {
    /// Adds the ruler objective type `key`, defined by `block`, to the database.
    pub fn add(db: &mut Db, key: Token, block: Block)
        requires
            old(db).wf(),
        ensures
            final(db).wf(),
            final(db)@ == old(db)@.insert((Item::RulerObjectiveType, key.s@), (key, block)),
            final(db).spec_flags() == old(db).spec_flags(),
    {
        db.add(Item::RulerObjectiveType, key, block);
    }
}

/// The rules for the fields of the ruler objective type.
pub open spec fn ruler_objective_rules() -> Seq<RuleView> {
    seq![
        RuleView { name: "decisions"@, required: false, kind: KindView::ListItems(Item::Decision) },
        RuleView { name: "is_valid_advice"@, required: false, kind: KindView::Trigger },
        RuleView { name: "is_doing"@, required: false, kind: KindView::Trigger },
        RuleView { name: "is_valid_for_title"@, required: false, kind: KindView::Trigger },
        RuleView { name: "relevance"@, required: false, kind: KindView::Any },
        RuleView { name: "summary"@, required: false, kind: KindView::Any },
        RuleView { name: "description"@, required: false, kind: KindView::Any },
    ]
}

/// The reports on the ruler objective type `key` defined by `block`: its fields as
/// [`ruler_objective_rules`] has them, and the fields it does not know.
pub open spec fn ruler_objective_reports(block: Block, db: Db) -> Seq<ReportView> {
    rules_reports(ruler_objective_rules(), block, db)
        + unknown_field_reports(ruler_objective_rules(), block.v@)
}

impl RulerObjectiveType {
    /// Checks the ruler objective type `key` defined by `block`, as [`ruler_objective_reports`]
    /// says.
    pub fn validate(_key: &Token, block: &Block, db: &Db) -> (r: Vec<Report>)
        requires
            db.wf(),
        ensures
            views(r@) == ruler_objective_reports(*block, *db),
    {
        let mut out: Vec<Report> = Vec::new();
        let r1 = vec![
            FieldRule { name: "decisions", required: false, kind: FieldKind::ListItems(Item::Decision) },
            FieldRule { name: "is_valid_advice", required: false, kind: FieldKind::Trigger },
            FieldRule { name: "is_doing", required: false, kind: FieldKind::Trigger },
            FieldRule { name: "is_valid_for_title", required: false, kind: FieldKind::Trigger },
            FieldRule { name: "relevance", required: false, kind: FieldKind::Any },
            FieldRule { name: "summary", required: false, kind: FieldKind::Any },
            FieldRule { name: "description", required: false, kind: FieldKind::Any },
        ];
        assert(rules_view(r1@) =~= ruler_objective_rules());
        append_reports(&mut out, check_rules(block, db, &r1));
        append_reports(&mut out, check_unknown(block, &r1));
        out
    }
}

} // verus!
