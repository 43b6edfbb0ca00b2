//! Sets of scope types: the kinds of game objects that script runs on.

use vstd::prelude::*;

verus! {

/// A set of scope types, one bit per type.
#[derive(Clone, Copy, Debug, PartialEq, Eq, Structural)]
pub struct Scopes {
    pub bits: u64,
}

impl Scopes {
    /// No scope.
    pub fn none() -> (r: Scopes)
        ensures
            r.bits == 0x1,
    {
        Scopes { bits: 0x1 }
    }

    /// A character.
    pub fn character() -> (r: Scopes)
        ensures
            r.bits == 0x2,
    {
        Scopes { bits: 0x2 }
    }

    /// A country.
    pub fn country() -> (r: Scopes)
        ensures
            r.bits == 0x4,
    {
        Scopes { bits: 0x4 }
    }

    /// A location.
    pub fn location() -> (r: Scopes)
        ensures
            r.bits == 0x8,
    {
        Scopes { bits: 0x8 }
    }

    /// A unit.
    pub fn unit() -> (r: Scopes)
        ensures
            r.bits == 0x10,
    {
        Scopes { bits: 0x10 }
    }

    /// An exploration.
    pub fn exploration() -> (r: Scopes)
        ensures
            r.bits == 0x20,
    {
        Scopes { bits: 0x20 }
    }

    /// An age.
    pub fn age() -> (r: Scopes)
        ensures
            r.bits == 0x40,
    {
        Scopes { bits: 0x40 }
    }

    /// A great holy war.
    pub fn great_holy_war() -> (r: Scopes)
        ensures
            r.bits == 0x80,
    {
        Scopes { bits: 0x80 }
    }

    /// Every scope type.
    pub fn all() -> (r: Scopes)
        ensures
            r.bits == 0xffff_ffff_ffff_ffff,
    {
        Scopes { bits: 0xffff_ffff_ffff_ffff }
    }

    /// Whether the two sets share a type.
    pub fn intersects(self, other: Scopes) -> (r: bool)
        ensures
            r == (self.bits & other.bits != 0),
    {
        self.bits & other.bits != 0
    }

    /// The types of both sets.
    pub fn union(self, other: Scopes) -> (r: Scopes)
        ensures
            r.bits == self.bits | other.bits,
    {
        Scopes { bits: self.bits | other.bits }
    }

    /// Whether every type of `other` is in this set.
    pub fn contains(self, other: Scopes) -> (r: bool)
        ensures
            r == (self.bits & other.bits == other.bits),
    {
        self.bits & other.bits == other.bits
    }
}

} // verus!
