//! The mods to run the benchmarks on.

use vstd::prelude::*;

use crate::text::{ends_with, has_suffix, str_chars};

verus! {

/// The mod files to benchmark: the configured paths, then the files of the
/// configured directory whose names end in `.mod`.
pub open spec fn bench_paths(paths: Seq<String>, dir_entries: Seq<(String, String)>) -> Seq<Seq<char>>
    decreases dir_entries.len(),
{
    if dir_entries.len() == 0 {
        paths.map_values(|p: String| p@)
    } else {
        let rest = bench_paths(paths, dir_entries.drop_last());
        if has_suffix(dir_entries.last().0@, ".mod"@) {
            rest.push(dir_entries.last().1@)
        } else {
            rest
        }
    }
}

/// The pairs of the game directory and a mod file to benchmark, given the
/// configured mod file paths and the entries of the configured mod
/// directory, each as its file name and its path.
pub fn bench_mods(vanilla_dir: &str, modfile_paths: &Vec<String>, dir_entries: &Vec<(String, String)>) -> (r:
    Vec<(String, String)>)
    ensures
        r@.len() == bench_paths(modfile_paths@, dir_entries@).len(),
        forall|i: int|
            0 <= i < r@.len() ==> (#[trigger] r@[i]).0@ == vanilla_dir@ && r@[i].1@ == bench_paths(
                modfile_paths@,
                dir_entries@,
            )[i],
{
    let mut paths: Vec<Vec<char>> = Vec::new();
    let mut i: usize = 0;
    while i < modfile_paths.len()
        invariant
            i <= modfile_paths@.len(),
            paths@.map_values(|p: Vec<char>| p@) == modfile_paths@.map_values(|p: String| p@).take(i as int),
        decreases modfile_paths@.len() - i,
    {
        let c = str_chars(modfile_paths[i].as_str());
        let ghost before = paths@;
        paths.push(c);
        proof {
            crate::pathname::lemma_comps_push(before, c);
        }
        i = i + 1;
        assert(paths@.map_values(|p: Vec<char>| p@) =~= modfile_paths@.map_values(|p: String| p@).take(i as int));
    }
    assert(modfile_paths@.map_values(|p: String| p@).take(i as int) =~= modfile_paths@.map_values(|p: String| p@));
    assert(dir_entries@.take(0) =~= Seq::<(String, String)>::empty());
    let suffix = str_chars(".mod");
    let mut j: usize = 0;
    while j < dir_entries.len()
        invariant
            j <= dir_entries@.len(),
            suffix@ == ".mod"@,
            paths@.map_values(|p: Vec<char>| p@) == bench_paths(modfile_paths@, dir_entries@.take(j as int)),
        decreases dir_entries@.len() - j,
    {
        let ghost before = paths@;
        assert(dir_entries@.take(j + 1).drop_last() =~= dir_entries@.take(j as int));
        assert(dir_entries@.take(j + 1).last() == dir_entries@[j as int]);
        let name = str_chars(dir_entries[j].0.as_str());
        if ends_with(name.as_slice(), suffix.as_slice()) {
            let c = str_chars(dir_entries[j].1.as_str());
            paths.push(c);
            proof {
                crate::pathname::lemma_comps_push(before, c);
            }
            assert(paths@.map_values(|p: Vec<char>| p@) =~= before.map_values(|p: Vec<char>| p@).push(dir_entries@[j as int].1@));
        }
        j = j + 1;
    }
    assert(dir_entries@.take(j as int) =~= dir_entries@);
    let ghost all = bench_paths(modfile_paths@, dir_entries@);
    let mut r: Vec<(String, String)> = Vec::new();
    let mut k: usize = 0;
    while k < paths.len()
        invariant
            k <= paths@.len(),
            all == paths@.map_values(|p: Vec<char>| p@),
            r@.len() == k,
            forall|i: int| 0 <= i < k ==> (#[trigger] r@[i]).0@ == vanilla_dir@ && r@[i].1@ == all[i],
        decreases paths@.len() - k,
    {
        r.push((String::from_str(vanilla_dir), crate::text::string_from_chars(paths[k].as_slice())));
        k = k + 1;
    }
    r
}

} // verus!
