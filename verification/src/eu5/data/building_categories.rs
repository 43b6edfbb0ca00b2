//! Building categories.

use vstd::prelude::*;

use crate::block::Block;
use crate::db::{Db, Item};
use crate::token::Token;

use crate::validator::check_loca;
use crate::defines::item_reports;
use crate::report::{views, Report, ReportView};
verus! {

/// The building category items.
#[derive(Clone, Debug)]
pub struct BuildingCategory {}

impl BuildingCategory {
    /// Adds the building category `key`, defined by `block`, to the database.
    pub fn add(db: &mut Db, key: Token, block: Block)
        requires
            old(db).wf(),
        ensures
            final(db).wf(),
            final(db)@ == old(db)@.insert((Item::BuildingCategory, key.s@), (key, block)),
            final(db).spec_flags() == old(db).spec_flags(),
    {
        db.add(Item::BuildingCategory, key, block);
    }
}

/// The reports on the building category `key` defined by `block`: the localization of its key and
/// of its key with `_desc`; its fields are not looked at.
pub open spec fn building_category_reports(key: Token, block: Block, db: Db) -> Seq<ReportView> {
    item_reports(db, Item::Localization, key.s@, key.loc)
        + item_reports(db, Item::Localization, key.s@ + "_desc"@, key.loc)
}

impl BuildingCategory {
    /// Checks the building category `key` defined by `block`, as [`building_category_reports`]
    /// says.
    pub fn validate(key: &Token, block: &Block, db: &Db) -> (r: Vec<Report>)
        requires
            db.wf(),
        ensures
            views(r@) == building_category_reports(*key, *block, *db),
    {
        let mut out: Vec<Report> = Vec::new();
        proof {
            reveal_strlit("");
            assert(""@ + key.s@ + ""@ =~= key.s@);
        }
        check_loca(db, "", key, "", &mut out);
        proof {
            reveal_strlit("");
            assert(""@ + key.s@ + "_desc"@ =~= key.s@ + "_desc"@);
        }
        check_loca(db, "", key, "_desc", &mut out);
        out
    }
}

} // verus!
