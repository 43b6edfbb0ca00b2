//! The load order of files: by path, and for the same path by kind, so that
//! later kinds override earlier ones.

use std::cmp::Ordering;

use itertools::Itertools;
use vstd::prelude::*;

use crate::files::fileset::{kind_order, kind_rank, FileEntry};
use crate::pathname::{compare_paths, path_order};

verus! {

/// Whether `a` loads no later than `b`: by path, then by kind.
pub open spec fn entry_le(a: FileEntry, b: FileEntry) -> bool {
    path_order(a.spec_path(), b.spec_path()) < 0 || (path_order(a.spec_path(), b.spec_path()) == 0
        && kind_order(a.spec_kind()) <= kind_order(b.spec_kind()))
}

/// Compares two files by path, then by kind.
pub fn compare_entries(a: &FileEntry, b: &FileEntry) -> (r: Ordering)
    ensures
        (r == Ordering::Less) == (path_order(a.spec_path(), b.spec_path()) < 0 || (path_order(
            a.spec_path(),
            b.spec_path(),
        ) == 0 && kind_order(a.spec_kind()) < kind_order(b.spec_kind()))),
        (r == Ordering::Equal) == (path_order(a.spec_path(), b.spec_path()) == 0 && kind_order(
            a.spec_kind(),
        ) == kind_order(b.spec_kind())),
        (r == Ordering::Greater) == (path_order(a.spec_path(), b.spec_path()) > 0 || (path_order(
            a.spec_path(),
            b.spec_path(),
        ) == 0 && kind_order(a.spec_kind()) > kind_order(b.spec_kind()))),
{
    let c = compare_paths(a.path(), b.path());
    if c < 0 {
        Ordering::Less
    } else if c > 0 {
        Ordering::Greater
    } else {
        let ka = kind_rank(a.kind());
        let kb = kind_rank(b.kind());
        if ka < kb {
            Ordering::Less
        } else if ka > kb {
            Ordering::Greater
        } else {
            Ordering::Equal
        }
    }
}

/// The files in load order.
/// Wraps `Itertools::sorted_by` with [`compare_entries`], a total order:
/// the result holds the same files, sorted by it.
#[verifier::external_body]
pub fn sort_entries(v: Vec<FileEntry>) -> (r: Vec<FileEntry>)
    ensures
        r@.to_multiset() == v@.to_multiset(),
        forall|i: int, j: int| 0 <= i < j < r@.len() ==> entry_le(#[trigger] r@[i], #[trigger] r@[j]),
{
    v.into_iter().sorted_by(|a, b| compare_entries(a, b)).collect()
}

} // verus!
