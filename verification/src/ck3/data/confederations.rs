//! Confederation types.

use vstd::prelude::*;

use crate::block::{field_blocks, Block};
use crate::db::{add_blocks_assignment_flags, blocks_assignment_flags, Db, Item, ValueFilter};
use crate::token::Token;

verus! {

/// The confederation type items.
#[derive(Clone, Debug)]
pub struct ConfederationType {}

impl ConfederationType {
    /// Adds the confederation type `key`, defined by `block`, to the database.
    pub fn add(db: &mut Db, key: Token, block: Block)
        requires
            old(db).wf(),
        ensures
            final(db).wf(),
            final(db)@ == old(db)@.insert((Item::ConfederationType, key.s@), (key, block)),
            final(db).spec_flags() == old(db).spec_flags(),
    {
        db.add(Item::ConfederationType, key, block);
    }
}

impl ConfederationType {
    /// Adds the keys of the `parameters` of each cohesion level as flags.
    pub fn add_subitems(&self, _key: &Token, block: &Block, db: &mut Db)
        ensures
            final(db).wf() == old(db).wf(),
            final(db)@ == old(db)@,
            final(db).spec_entries() == old(db).spec_entries(),
            final(db).spec_flags() == old(db).spec_flags().union(
                blocks_assignment_flags(
                    Item::CohesionLevelParameter,
                    field_blocks(block.v@, "cohesion_level"@),
                    Some("parameters"@),
                    ValueFilter::Any,
                ),
            ),
    {
        let levels = block.get_field_blocks("cohesion_level");
        add_blocks_assignment_flags(db, Item::CohesionLevelParameter, &levels, Some("parameters"), ValueFilter::Any);
        assert(levels@.map_values(|b: &Block| *b) =~= field_blocks(block.v@, "cohesion_level"@));
    }
}

} // verus!
