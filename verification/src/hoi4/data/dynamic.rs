//! Dynamic modifiers.

use vstd::prelude::*;

use crate::block::Block;
use crate::db::{Db, Item};
use crate::token::Token;

use crate::validator::{append_reports, check_loca, check_rules, rules_reports, rules_view, FieldKind, FieldRule, KindView, RuleView};
use crate::defines::item_reports;
use crate::report::{views, Report, ReportView};
verus! {

/// The dynamic modifier items.
#[derive(Clone, Debug)]
pub struct DynamicModifier {}

impl DynamicModifier {
    /// Adds the dynamic modifier `key`, defined by `block`, to the database.
    pub fn add(db: &mut Db, key: Token, block: Block)
        requires
            old(db).wf(),
        ensures
            final(db).wf(),
            final(db)@ == old(db)@.insert((Item::DynamicModifier, key.s@), (key, block)),
            final(db).spec_flags() == old(db).spec_flags(),
    {
        db.add(Item::DynamicModifier, key, block);
    }
}

/// The rules for the fields of the dynamic modifier.
pub open spec fn dynamic_modifier_rules() -> Seq<RuleView> {
    seq![
        RuleView { name: "enable"@, required: false, kind: KindView::Trigger },
        RuleView { name: "remove_trigger"@, required: false, kind: KindView::Trigger },
        RuleView { name: "icon"@, required: false, kind: KindView::Item(Item::Sprite) },
        RuleView { name: "attacker_modifier"@, required: false, kind: KindView::Bool },
    ]
}

/// The reports on the dynamic modifier `key` defined by `block`: the localization of its key and
/// its fields as [`dynamic_modifier_rules`] has them; its other fields are its modifiers.
pub open spec fn dynamic_modifier_reports(key: Token, block: Block, db: Db) -> Seq<ReportView> {
    item_reports(db, Item::Localization, key.s@, key.loc)
        + rules_reports(dynamic_modifier_rules(), block, db)
}

impl DynamicModifier {
    /// Checks the dynamic modifier `key` defined by `block`, as [`dynamic_modifier_reports`] says.
    pub fn validate(key: &Token, block: &Block, db: &Db) -> (r: Vec<Report>)
        requires
            db.wf(),
        ensures
            views(r@) == dynamic_modifier_reports(*key, *block, *db),
    {
        let mut out: Vec<Report> = Vec::new();
        proof {
            reveal_strlit("");
            assert(""@ + key.s@ + ""@ =~= key.s@);
        }
        check_loca(db, "", key, "", &mut out);
        let r1 = vec![
            FieldRule { name: "enable", required: false, kind: FieldKind::Trigger },
            FieldRule { name: "remove_trigger", required: false, kind: FieldKind::Trigger },
            FieldRule { name: "icon", required: false, kind: FieldKind::Item(Item::Sprite) },
            FieldRule { name: "attacker_modifier", required: false, kind: FieldKind::Bool },
        ];
        assert(rules_view(r1@) =~= dynamic_modifier_rules());
        append_reports(&mut out, check_rules(block, db, &r1));
        out
    }
}

} // verus!
