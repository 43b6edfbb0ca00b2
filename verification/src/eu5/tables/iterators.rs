//! The list iterators of Europa Universalis 5: each stands for an `every_`,
//! `ordered_`, `random_` and `any_` form.

use vstd::prelude::*;

use crate::scopes::Scopes;
use crate::token::Token;

verus! {

/// The iterators: the scope type they run in, their name, and the scope
/// type they give. The game's table is not filled in yet.
pub open spec fn iterator_table() -> Seq<(u64, Seq<char>, u64)> {
    Seq::empty()
}

/// Computes [`iterator_table`].
fn iterators() -> (r: Vec<(Scopes, &'static str, Scopes)>)
    ensures
        r@.map_values(|e: (Scopes, &str, Scopes)| (e.0.bits, e.1@, e.2.bits)) == iterator_table(),
{
    let v: Vec<(Scopes, &'static str, Scopes)> = Vec::new();
    assert(v@.map_values(|e: (Scopes, &str, Scopes)| (e.0.bits, e.1@, e.2.bits)) =~= iterator_table());
    v
}

/// The iterators that were removed: their name, the game version, and an
/// explanation. There are none yet.
pub open spec fn removed_iterator_table() -> Seq<(Seq<char>, Seq<char>, Seq<char>)> {
    Seq::empty()
}

/// Computes [`removed_iterator_table`].
fn removed_iterators() -> (r: Vec<(&'static str, &'static str, &'static str)>)
    ensures
        r@.map_values(|e: (&str, &str, &str)| (e.0@, e.1@, e.2@)) == removed_iterator_table(),
{
    let v: Vec<(&'static str, &'static str, &'static str)> = Vec::new();
    assert(v@.map_values(|e: (&str, &str, &str)| (e.0@, e.1@, e.2@)) =~= removed_iterator_table());
    v
}

/// The scope types from and to of the iterator named `name_lc` in the table
/// `t`: its last entry.
pub open spec fn find_iterator(t: Seq<(u64, Seq<char>, u64)>, name_lc: Seq<char>) -> Option<(u64, u64)>
    decreases t.len(),
{
    if t.len() == 0 {
        None
    } else if t.last().1 == name_lc {
        Some((t.last().0, t.last().2))
    } else {
        find_iterator(t.drop_last(), name_lc)
    }
}

/// The scope types from and to of the iterator named `name_lc` (in
/// lowercase), if it is one.
pub fn iterator(name_lc: &str, _name: &Token) -> (r: Option<(Scopes, Scopes)>)
    ensures
        match r {
            Some((from, to)) => find_iterator(iterator_table(), name_lc@) == Some((from.bits, to.bits)),
            None => find_iterator(iterator_table(), name_lc@) is None,
        },
{
    let t = iterators();
    let ghost tv = t@.map_values(|e: (Scopes, &str, Scopes)| (e.0.bits, e.1@, e.2.bits));
    let mut i = t.len();
    assert(tv.take(i as int) =~= tv);
    while i > 0
        invariant
            i <= t@.len(),
            tv == t@.map_values(|e: (Scopes, &str, Scopes)| (e.0.bits, e.1@, e.2.bits)),
            tv == iterator_table(),
            find_iterator(tv, name_lc@) == find_iterator(tv.take(i as int), name_lc@),
        decreases i,
    {
        let e = t[i - 1];
        assert(tv.take(i as int).drop_last() =~= tv.take(i - 1));
        assert(tv.take(i as int).last() == (e.0.bits, e.1@, e.2.bits));
        if crate::text::str_eq(e.1, name_lc) {
            return Some((e.0, e.2));
        }
        i = i - 1;
    }
    None
}

/// The first entry of `t` naming `name`: the version it was removed in and
/// an explanation.
pub open spec fn find_removed(t: Seq<(Seq<char>, Seq<char>, Seq<char>)>, name: Seq<char>) -> Option<
    (Seq<char>, Seq<char>),
>
    decreases t.len(),
{
    if t.len() == 0 {
        None
    } else if t[0].0 == name {
        Some((t[0].1, t[0].2))
    } else {
        find_removed(t.drop_first(), name)
    }
}

/// The version in which the iterator `name` was removed, and an
/// explanation, if it was.
pub fn iterator_removed(name: &str) -> (r: Option<(&'static str, &'static str)>)
    ensures
        match r {
            Some((version, explanation)) => find_removed(removed_iterator_table(), name@) == Some(
                (version@, explanation@),
            ),
            None => find_removed(removed_iterator_table(), name@) is None,
        },
{
    let t = removed_iterators();
    let ghost tv = t@.map_values(|e: (&str, &str, &str)| (e.0@, e.1@, e.2@));
    let mut i: usize = 0;
    assert(tv.skip(0) =~= tv);
    while i < t.len()
        invariant
            i <= t@.len(),
            tv == t@.map_values(|e: (&str, &str, &str)| (e.0@, e.1@, e.2@)),
            tv == removed_iterator_table(),
            find_removed(tv, name@) == find_removed(tv.skip(i as int), name@),
        decreases t@.len() - i,
    {
        let e = t[i];
        assert(tv.skip(i as int).drop_first() =~= tv.skip(i + 1));
        assert(tv.skip(i as int)[0] == (e.0@, e.1@, e.2@));
        if crate::text::str_eq(name, e.0) {
            return Some((e.1, e.2));
        }
        i = i + 1;
    }
    None
}

} // verus!
