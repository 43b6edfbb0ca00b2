//! The kinds of things that modifiers modify in Europa Universalis 5.

use vstd::prelude::*;

use crate::modif::{flag_names, flags_text, join_text, table_view};

verus! {

/// A set of kinds of things that a modifier modifies in Europa Universalis 5.
#[derive(Clone, Copy, Debug, PartialEq, Eq, Structural)]
pub struct ModifKinds {
    pub bits: u32,
}

/// The flags of the kinds and their names, in display order.
pub open spec fn kind_names() -> Seq<(u32, Seq<char>)> {
    seq![
        (1, "None"@),
        (2, "Character"@),
        (4, "Country"@),
        (8, "Dynasty"@),
        (16, "InternationalOrganization"@),
        (32, "Location"@),
        (64, "Mercenary"@),
        (128, "Province"@),
        (256, "Rebel"@),
        (512, "Religion"@),
        (1024, "Unit"@),
    ]
}

/// Computes [`kind_names`].
fn kind_table() -> (r: Vec<(u32, &'static str)>)
    ensures
        table_view(r@) == kind_names(),
{
    let mut v: Vec<(u32, &'static str)> = Vec::new();
    v.push((1, "None"));
    v.push((2, "Character"));
    v.push((4, "Country"));
    v.push((8, "Dynasty"));
    v.push((16, "InternationalOrganization"));
    v.push((32, "Location"));
    v.push((64, "Mercenary"));
    v.push((128, "Province"));
    v.push((256, "Rebel"));
    v.push((512, "Religion"));
    v.push((1024, "Unit"));
    assert(table_view(v@) =~= kind_names());
    v
}

impl ModifKinds {
    /// Whether every kind of `other` is in this set.
    pub fn contains(self, other: ModifKinds) -> (r: bool)
        ensures
            r == (self.bits & other.bits == other.bits),
    {
        self.bits & other.bits == other.bits
    }

    /// The kinds of both sets.
    pub fn union(self, other: ModifKinds) -> (r: ModifKinds)
        ensures
            r.bits == self.bits | other.bits,
    {
        ModifKinds { bits: self.bits | other.bits }
    }

    /// The names of the kinds in the set, in display order, joined by `, `.
    pub fn display(&self) -> (r: String)
        ensures
            r@ == join_text(flag_names(self.bits, kind_names()), ", "@),
    {
        let t = kind_table();
        flags_text(self.bits, &t)
    }
}

} // verus!
