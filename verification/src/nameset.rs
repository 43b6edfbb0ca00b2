//! A set of names, such as the localization keys that are defined.

use vstd::prelude::*;

verus! {

/// A set of names.
#[derive(Debug)]
pub struct NameSet {
    names: Vec<Vec<char>>,
}

impl View for NameSet {
    type V = Set<Seq<char>>;

    closed spec fn view(&self) -> Set<Seq<char>> {
        Set::new(|s: Seq<char>| exists|i: int| 0 <= i < self.names@.len() && (#[trigger] self.names@[i])@ == s)
    }
}

impl NameSet {
    /// The empty set.
    pub fn new() -> (r: NameSet)
        ensures
            r@ == Set::<Seq<char>>::empty(),
    {
        let r = NameSet { names: Vec::new() };
        assert(r@ =~= Set::<Seq<char>>::empty());
        r
    }

    /// Adds `name` to the set.
    pub fn insert(&mut self, name: &str)
        ensures
            final(self)@ == old(self)@.insert(name@),
    {
        let ghost before = self.names@;
        self.names.push(crate::text::str_chars(name));
        proof {
            assert forall|s: Seq<char>| #[trigger] self@.contains(s) <==> old(self)@.insert(name@).contains(s) by {
                if old(self)@.contains(s) {
                    let j = choose|j: int| 0 <= j < before.len() && (#[trigger] before[j])@ == s;
                    assert(self.names@[j] == before[j]);
                }
                if self@.contains(s) && s != name@ {
                    let j = choose|j: int| 0 <= j < self.names@.len() && (#[trigger] self.names@[j])@ == s;
                    assert(j < before.len());
                    assert(before[j] == self.names@[j]);
                }
                if s == name@ {
                    assert(self.names@[before.len() as int]@ == s);
                }
            }
            assert(self@ =~= old(self)@.insert(name@));
        }
    }

    /// Whether `name`, given as characters, is in the set.
    pub fn contains_chars(&self, name: &[char]) -> (r: bool)
        ensures
            r == self@.contains(name@),
    {
        let mut i: usize = 0;
        while i < self.names.len()
            invariant
                i <= self.names@.len(),
                forall|j: int| 0 <= j < i ==> (#[trigger] self.names@[j])@ != name@,
            decreases self.names@.len() - i,
        {
            if crate::text::chars_eq(self.names[i].as_slice(), name) {
                return true;
            }
            i = i + 1;
        }
        false
    }

    /// Whether `name` is in the set.
    pub fn contains(&self, name: &str) -> (r: bool)
        ensures
            r == self@.contains(name@),
    {
        let cs = crate::text::str_chars(name);
        self.contains_chars(cs.as_slice())
    }
}

} // verus!
