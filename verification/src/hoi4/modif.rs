//! The kinds of things that modifiers modify in Hearts of Iron 4.

use vstd::prelude::*;

use crate::modif::{flag_names, flags_text, join_text, table_view};

verus! {

/// A set of kinds of things that a modifier modifies in Hearts of Iron 4.
#[derive(Clone, Copy, Debug, PartialEq, Eq, Structural)]
pub struct ModifKinds {
    pub bits: u32,
}

/// The flags of the kinds and their names, in display order.
pub open spec fn kind_names() -> Seq<(u32, Seq<char>)> {
    seq![
        (32, "aggressive"@),
        (64, "ai"@),
        (128, "air"@),
        (256, "army"@),
        (512, "autonomy"@),
        (1, "character"@),
        (2, "country"@),
        (1024, "defensive"@),
        (2048, "government in exile"@),
        (4096, "intelligence agency"@),
        (8192, "military advancements"@),
        (16384, "naval"@),
        (32768, "peace"@),
        (65536, "politics"@),
        (131072, "scientist"@),
        (4, "state"@),
        (262144, "unit leader"@),
        (524288, "war production"@),
    ]
}

/// Computes [`kind_names`].
fn kind_table() -> (r: Vec<(u32, &'static str)>)
    ensures
        table_view(r@) == kind_names(),
{
    let mut v: Vec<(u32, &'static str)> = Vec::new();
    v.push((32, "aggressive"));
    v.push((64, "ai"));
    v.push((128, "air"));
    v.push((256, "army"));
    v.push((512, "autonomy"));
    v.push((1, "character"));
    v.push((2, "country"));
    v.push((1024, "defensive"));
    v.push((2048, "government in exile"));
    v.push((4096, "intelligence agency"));
    v.push((8192, "military advancements"));
    v.push((16384, "naval"));
    v.push((32768, "peace"));
    v.push((65536, "politics"));
    v.push((131072, "scientist"));
    v.push((4, "state"));
    v.push((262144, "unit leader"));
    v.push((524288, "war production"));
    assert(table_view(v@) =~= kind_names());
    v
}

impl ModifKinds {
    /// Whether every kind of `other` is in this set.
    pub fn contains(self, other: ModifKinds) -> (r: bool)
        ensures
            r == (self.bits & other.bits == other.bits),
    {
        self.bits & other.bits == other.bits
    }

    /// The kinds of both sets.
    pub fn union(self, other: ModifKinds) -> (r: ModifKinds)
        ensures
            r.bits == self.bits | other.bits,
    {
        ModifKinds { bits: self.bits | other.bits }
    }

    /// The names of the kinds in the set, in display order, joined by `, `.
    pub fn display(&self) -> (r: String)
        ensures
            r@ == join_text(flag_names(self.bits, kind_names()), ", "@),
    {
        let t = kind_table();
        flags_text(self.bits, &t)
    }
}

} // verus!
