//! Artist types.

use vstd::prelude::*;

use crate::block::Block;
use crate::db::{Db, Item};
use crate::token::Token;

use crate::validator::{append_reports, check_loca, check_rules, check_unknown, rules_reports, rules_view, unknown_field_reports, FieldKind, FieldRule, KindView, RuleView};
use crate::defines::item_reports;
use crate::report::{views, Report, ReportView};
verus! {

/// The artist type items.
#[derive(Clone, Debug)]
pub struct ArtistType {}

impl ArtistType {
    /// Adds the artist type `key`, defined by `block`, to the database.
    pub fn add(db: &mut Db, key: Token, block: Block)
        requires
            old(db).wf(),
        ensures
            final(db).wf(),
            final(db)@ == old(db)@.insert((Item::ArtistType, key.s@), (key, block)),
            final(db).spec_flags() == old(db).spec_flags(),
    {
        db.add(Item::ArtistType, key, block);
    }
}

/// The rules for the fields of the artist type.
pub open spec fn artist_type_rules() -> Seq<RuleView> {
    seq![
        RuleView { name: "potential"@, required: false, kind: KindView::Trigger },
    ]
}

/// The reports on the artist type `key` defined by `block`: its localization (`ARTIST_TYPE_NAME_`
/// and `ARTIST_TYPE_DESC_` with its key), its fields as [`artist_type_rules`] has them, and the
/// fields it does not know.
pub open spec fn artist_type_reports(key: Token, block: Block, db: Db) -> Seq<ReportView> {
    item_reports(db, Item::Localization, "ARTIST_TYPE_NAME_"@ + key.s@, key.loc)
        + item_reports(db, Item::Localization, "ARTIST_TYPE_DESC_"@ + key.s@, key.loc)
        + rules_reports(artist_type_rules(), block, db)
        + unknown_field_reports(artist_type_rules(), block.v@)
}

impl ArtistType {
    /// Checks the artist type `key` defined by `block`, as [`artist_type_reports`] says.
    pub fn validate(key: &Token, block: &Block, db: &Db) -> (r: Vec<Report>)
        requires
            db.wf(),
        ensures
            views(r@) == artist_type_reports(*key, *block, *db),
    {
        let mut out: Vec<Report> = Vec::new();
        proof {
            reveal_strlit("");
            assert("ARTIST_TYPE_NAME_"@ + key.s@ + ""@ =~= "ARTIST_TYPE_NAME_"@ + key.s@);
        }
        check_loca(db, "ARTIST_TYPE_NAME_", key, "", &mut out);
        proof {
            reveal_strlit("");
            assert("ARTIST_TYPE_DESC_"@ + key.s@ + ""@ =~= "ARTIST_TYPE_DESC_"@ + key.s@);
        }
        check_loca(db, "ARTIST_TYPE_DESC_", key, "", &mut out);
        let r1 = vec![
            FieldRule { name: "potential", required: false, kind: FieldKind::Trigger },
        ];
        assert(rules_view(r1@) =~= artist_type_rules());
        append_reports(&mut out, check_rules(block, db, &r1));
        append_reports(&mut out, check_unknown(block, &r1));
        out
    }
}

} // verus!
