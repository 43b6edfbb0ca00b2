//! Law groups and the laws in them.

use vstd::prelude::*;

use crate::block::{definitions, Block};
use crate::db::{add_copy, db_after_copies, lemma_after_copies_push, Db, DbEntry, Item};
use crate::token::Token;

use crate::validator::{append_reports, check_loca, check_rules, check_unknown, rules_reports, rules_view, unknown_field_reports, FieldKind, FieldRule, KindView, RuleView};
use crate::defines::item_reports;
use crate::report::{views, Report, ReportView};
verus! {

/// The law group items.
#[derive(Clone, Debug)]
pub struct LawGroup {}

impl LawGroup {
    /// Adds the law group `key`, defined by `block`, to the database.
    pub fn add(db: &mut Db, key: Token, block: Block)
        requires
            old(db).wf(),
        ensures
            final(db).wf(),
            final(db)@ == old(db)@.insert((Item::LawGroup, key.s@), (key, block)),
            final(db).spec_flags() == old(db).spec_flags(),
    {
        db.add(Item::LawGroup, key, block);
    }
}

/// The law items.
#[derive(Clone, Debug)]
pub struct Law {}

/// The laws defined in a law group: each field `key = { ... }` other than
/// `potential`.
pub open spec fn law_ops(defs: Seq<(Token, Block)>) -> Seq<DbEntry>
    decreases defs.len(),
{
    if defs.len() == 0 {
        Seq::empty()
    } else {
        let rest = law_ops(defs.drop_last());
        let (k, b) = defs.last();
        if k.s@ == "potential"@ {
            rest
        } else {
            rest.push((Item::Law, k, b))
        }
    }
}

impl LawGroup {
    /// Adds each law of the group, with a copy of its block.
    pub fn add_subitems(&self, _key: &Token, block: &Block, db: &mut Db)
        requires
            old(db).wf(),
        ensures
            final(db).wf(),
            db_after_copies(old(db)@, final(db)@, law_ops(definitions(block.v@))),
            final(db).spec_flags() == old(db).spec_flags(),
    {
        let defs = block.iter_definitions();
        let ghost ds = definitions(block.v@);
        let mut i: usize = 0;
        assert(law_ops(ds.take(0)) =~= Seq::<DbEntry>::empty()) by {
            assert(ds.take(0) =~= Seq::<(Token, Block)>::empty());
        }
        assert(db_after_copies(old(db)@, db@, Seq::<DbEntry>::empty()));
        while i < defs.len()
            invariant
                i <= defs@.len(),
                defs@.len() == ds.len(),
                ds == definitions(block.v@),
                forall|j: int| 0 <= j < defs@.len() ==> (*(#[trigger] defs@[j]).0, *defs@[j].1) == ds[j],
                db.wf(),
                db_after_copies(old(db)@, db@, law_ops(ds.take(i as int))),
                db.spec_flags() == old(db).spec_flags(),
            decreases defs@.len() - i,
        {
            let (k, b) = defs[i];
            assert((*k, *b) == ds[i as int]);
            assert(ds.take(i + 1).drop_last() =~= ds.take(i as int));
            assert(ds.take(i + 1).last() == ds[i as int]);
            if !k.is("potential") {
                let ghost m1 = db@;
                add_copy(db, Item::Law, k.dup(), b);
                proof {
                    lemma_after_copies_push(old(db)@, m1, db@, law_ops(ds.take(i as int)), (Item::Law, *k, *b));
                }
            }
            i = i + 1;
        }
        assert(ds.take(i as int) =~= ds);
    }
}

/// The rules for the fields of the law.
pub open spec fn law_rules() -> Seq<RuleView> {
    seq![
        RuleView { name: "succession"@, required: false, kind: KindView::Choice(seq!["elective_monarchy"@, "old_egyptian_succession"@, "agnatic"@, "cognatic"@, "agnatic_seniority"@]) },
        RuleView { name: "allow"@, required: false, kind: KindView::Trigger },
        RuleView { name: "on_enact"@, required: false, kind: KindView::Block },
        RuleView { name: "modifier"@, required: false, kind: KindView::Block },
    ]
}

/// The reports on the law `key` defined by `block`: the localization of its key and of its key with
/// `_desc`, its fields as [`law_rules`] has them, and the fields it does not know.
pub open spec fn law_reports(key: Token, block: Block, db: Db) -> Seq<ReportView> {
    item_reports(db, Item::Localization, key.s@, key.loc)
        + item_reports(db, Item::Localization, key.s@ + "_desc"@, key.loc)
        + rules_reports(law_rules(), block, db)
        + unknown_field_reports(law_rules(), block.v@)
}

impl Law {
    /// Checks the law `key` defined by `block`, as [`law_reports`] says.
    pub fn validate(key: &Token, block: &Block, db: &Db) -> (r: Vec<Report>)
        requires
            db.wf(),
        ensures
            views(r@) == law_reports(*key, *block, *db),
    {
        let ch0 = vec!["elective_monarchy", "old_egyptian_succession", "agnatic", "cognatic", "agnatic_seniority"];
        assert(ch0@.map_values(|c: &str| c@) =~= seq!["elective_monarchy"@, "old_egyptian_succession"@, "agnatic"@, "cognatic"@, "agnatic_seniority"@]);
        let mut out: Vec<Report> = Vec::new();
        proof {
            reveal_strlit("");
            assert(""@ + key.s@ + ""@ =~= key.s@);
        }
        check_loca(db, "", key, "", &mut out);
        proof {
            reveal_strlit("");
            assert(""@ + key.s@ + "_desc"@ =~= key.s@ + "_desc"@);
        }
        check_loca(db, "", key, "_desc", &mut out);
        let r1 = vec![
            FieldRule { name: "succession", required: false, kind: FieldKind::Choice(ch0) },
            FieldRule { name: "allow", required: false, kind: FieldKind::Trigger },
            FieldRule { name: "on_enact", required: false, kind: FieldKind::Block },
            FieldRule { name: "modifier", required: false, kind: FieldKind::Block },
        ];
        assert(rules_view(r1@) =~= law_rules());
        append_reports(&mut out, check_rules(block, db, &r1));
        append_reports(&mut out, check_unknown(block, &r1));
        out
    }
}

} // verus!
