//! Europa Universalis 5 specific facts about kinds of items.

use vstd::prelude::*;

use crate::db::Item;

verus! {

/// Whether items of a kind can be prefixed with `REPLACE:`, `INJECT:` or
/// `CREATE:`: script values, scripted effects and scripted triggers.
pub fn injectable_eu5(itype: Item) -> (r: bool)
    ensures
        r == (itype == Item::ScriptValue || itype == Item::ScriptedEffect || itype
            == Item::ScriptedTrigger),
{
    matches!(itype, Item::ScriptValue | Item::ScriptedEffect | Item::ScriptedTrigger)
}

} // verus!
