//! Lists of Europa Universalis 5 about its files.

use vstd::prelude::*;

verus! {

/// The directories below `common/` that the game reads. A directory whose
/// subdirectories may hold files is listed among
/// [`common_subdirs_ok`] instead, by its parent only.
pub fn common_dirs() -> (r: Vec<&'static str>)
    ensures
        r@.map_values(|s: &str| s@) == seq!["common/insults"@],
{
    let mut v: Vec<&'static str> = Vec::new();
    v.push("common/insults");
    assert(v@.map_values(|s: &str| s@) =~= seq!["common/insults"@]);
    v
}

/// The directories below `common/` whose files may lie in subdirectories.
pub fn common_subdirs_ok() -> (r: Vec<&'static str>)
    ensures
        r@.map_values(|s: &str| s@) == seq!["common/defines"@, "common/history"@],
{
    let mut v: Vec<&'static str> = Vec::new();
    v.push("common/defines");
    v.push("common/history");
    assert(v@.map_values(|s: &str| s@) =~= seq!["common/defines"@, "common/history"@]);
    v
}

} // verus!
