//! Scripted costs.

use vstd::prelude::*;

use crate::block::Block;
use crate::db::{Db, Item};
use crate::token::Token;

verus! {

/// The scripted cost items.
#[derive(Clone, Debug)]
pub struct ScriptedCost {}

impl ScriptedCost {
    /// Adds the scripted cost `key`, defined by `block`, to the database.
    pub fn add(db: &mut Db, key: Token, block: Block)
        requires
            old(db).wf(),
        ensures
            final(db).wf(),
            final(db)@ == old(db)@.insert((Item::ScriptedCost, key.s@), (key, block)),
            final(db).spec_flags() == old(db).spec_flags(),
    {
        db.add(Item::ScriptedCost, key, block);
    }
}

} // verus!
