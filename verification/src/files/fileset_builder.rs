//! Building the file set: collecting the files of the game, its DLCs, the
//! loaded mods and the mod, and putting them in load order.

use vstd::prelude::*;

use crate::block::{last_field_value, Block};
use crate::text::{decimal, has_suffix, push_decimal};
use crate::files::fileset::{
    kind_order, law_kind_order_is_load_order, same_file, strictly_sorted, FileEntry, FileKind, Fileset, LoadedMod,
};
use crate::files::order::{entry_le, sort_entries};
use crate::game::Game;
use crate::pathname::{
    compare_paths, comps_view, file_name, lemma_path_order_trans,
    lemma_path_order_zero, path_from_str, path_of, path_order, path_starts_with,
    starts_with_path, Comps,
};

verus! {

broadcast use vstd::seq_lib::group_to_multiset_ensures;

/// All files found, in no particular order, one per place in the file
/// system.
#[derive(Debug)]
pub struct FileDb {
    files: Vec<FileEntry>,
}

impl FileDb {
    /// The files found.
    pub closed spec fn spec_files(&self) -> Seq<FileEntry> {
        self.files@
    }

    /// The invariant: one file per place in the file system.
    pub open spec fn wf(&self) -> bool {
        forall|i: int, j: int|
            0 <= i < j < self.spec_files().len() ==> (#[trigger] self.spec_files()[i]).spec_fullpath()
                != (#[trigger] self.spec_files()[j]).spec_fullpath()
    }

    /// An empty collection.
    pub fn new() -> (r: FileDb)
        ensures
            r.wf(),
            r.spec_files() == Seq::<FileEntry>::empty(),
    {
        FileDb { files: Vec::new() }
    }

    /// The place of the file at `fullpath` in the file system, if it was
    /// found.
    fn find_fullpath(&self, fullpath: &str) -> (r: Option<usize>)
        ensures
            match r {
                Some(i) => i < self.spec_files().len() && self.spec_files()[i as int].spec_fullpath()
                    == fullpath@,
                None => forall|i: int|
                    0 <= i < self.spec_files().len() ==> (#[trigger] self.spec_files()[i]).spec_fullpath()
                        != fullpath@,
            },
    {
        let mut i: usize = 0;
        while i < self.files.len()
            invariant
                i <= self.files@.len(),
                forall|k: int| 0 <= k < i ==> (#[trigger] self.files@[k]).spec_fullpath() != fullpath@,
            decreases self.files@.len() - i,
        {
            if crate::text::str_eq(self.files[i].fullpath(), fullpath) {
                return Some(i);
            }
            i = i + 1;
        }
        None
    }

    /// The place of the file at `fullpath`; a file at `path` below its root,
    /// of the given kind, is added for it if there is none yet.
    pub fn get_or_create_entry(&mut self, path: &str, kind: FileKind, fullpath: &str) -> (r: usize)
        requires
            old(self).wf(),
            file_name(path_of(path@)) is Some,
        ensures
            final(self).wf(),
            r < final(self).spec_files().len(),
            final(self).spec_files()[r as int].spec_fullpath() == fullpath@,
            (exists|i: int| 0 <= i < old(self).spec_files().len() && (#[trigger] old(self).spec_files()[i]).spec_fullpath() == fullpath@)
                ==> final(self).spec_files() == old(self).spec_files(),
            (forall|i: int| 0 <= i < old(self).spec_files().len() ==> (#[trigger] old(self).spec_files()[i]).spec_fullpath() != fullpath@)
                ==> {
                &&& final(self).spec_files().len() == old(self).spec_files().len() + 1
                &&& final(self).spec_files().drop_last() == old(self).spec_files()
                &&& final(self).spec_files().last().spec_path() == path_of(path@)
                &&& final(self).spec_files().last().spec_kind() == kind
                &&& final(self).spec_files().last().spec_fullpath() == fullpath@
                &&& final(self).spec_files().last().spec_idx() is None
            },
    {
        match self.find_fullpath(fullpath) {
            Some(i) => i,
            None => {
                let e = FileEntry::new(path, kind, fullpath);
                self.files.push(e);
                assert(self.files@.drop_last() =~= old(self).files@);
                assert forall|i: int, j: int| 0 <= i < j < self.spec_files().len() implies (#[trigger] self.spec_files()[i]).spec_fullpath()
                    != (#[trigger] self.spec_files()[j]).spec_fullpath() by {
                    if j < old(self).files@.len() {
                        assert(self.spec_files()[i] == old(self).spec_files()[i]);
                        assert(self.spec_files()[j] == old(self).spec_files()[j]);
                    } else {
                        assert(self.spec_files()[i] == old(self).spec_files()[i]);
                    }
                }
                self.files.len() - 1
            },
        }
    }
}

/// Whether some file of `fs` is `e`, whatever its index.
pub open spec fn contains_file(fs: Seq<FileEntry>, e: FileEntry) -> bool {
    exists|i: int| 0 <= i < fs.len() && same_file(#[trigger] fs[i], e)
}

/// Whether the file `e` is overridden by, or is, a file of `fs` with the same
/// path and a kind no earlier.
pub open spec fn covered_by(fs: Seq<FileEntry>, e: FileEntry) -> bool {
    exists|i: int|
        0 <= i < fs.len() && (#[trigger] fs[i]).spec_path() == e.spec_path() && kind_order(e.spec_kind())
            <= kind_order(fs[i].spec_kind())
}

/// In a file set `kept` that covers the files `files`, as
/// [`FilesetBuilderWithConfig::finalize`] builds it, the file kept for a path
/// is of a kind no earlier than any file with that path: of a DLC's file and a
/// loaded mod's file with the same path the loaded mod's is kept, and the mod
/// under scrutiny overrides all others.
pub proof fn law_kept_file_loads_last(files: Seq<FileEntry>, kept: Fileset, j: int, k: int)
    requires
        kept.wf(),
        forall|i: int| 0 <= i < files.len() ==> covered_by(kept.spec_files(), #[trigger] files[i]),
        0 <= j < files.len(),
        0 <= k < kept.spec_files().len(),
        kept.spec_files()[k].spec_path() == files[j].spec_path(),
    ensures
        kind_order(files[j].spec_kind()) <= kind_order(kept.spec_files()[k].spec_kind()),
        files[j].spec_kind() is LoadedMod ==> !(kept.spec_files()[k].spec_kind() is Dlc),
        files[j].spec_kind() is Mod ==> kept.spec_files()[k].spec_kind() is Mod,
{
    let ks = kept.spec_files();
    assert(covered_by(ks, files[j]));
    let i = choose|i: int|
        0 <= i < ks.len() && (#[trigger] ks[i]).spec_path() == files[j].spec_path() && kind_order(
            files[j].spec_kind(),
        ) <= kind_order(ks[i].spec_kind());
    if i != k {
        lemma_path_order_zero(ks[i].spec_path(), ks[k].spec_path());
        lemma_path_order_zero(ks[k].spec_path(), ks[i].spec_path());
        if i < k {
            assert(path_order(ks[i].spec_path(), ks[k].spec_path()) < 0);
        } else {
            assert(path_order(ks[k].spec_path(), ks[i].spec_path()) < 0);
        }
    }
    assert(i == k);
    law_kind_order_is_load_order(0, 0, 0, 0);
}

/// Of each run of files with the same path in `sorted`, keeps the last.
fn keep_last_per_path(sorted: Vec<FileEntry>) -> (r: Vec<FileEntry>)
    requires
        forall|i: int, j: int| 0 <= i < j < sorted@.len() ==> entry_le(#[trigger] sorted@[i], #[trigger] sorted@[j]),
    ensures
        r@.len() <= sorted@.len(),
        strictly_sorted(r@),
        forall|i: int| 0 <= i < r@.len() ==> sorted@.contains(#[trigger] r@[i]),
        forall|j: int| 0 <= j < sorted@.len() ==> covered_by(r@, #[trigger] sorted@[j]),
{
    let ghost orig = sorted@;
    let ghost n = orig.len();
    let mut sorted = sorted;
    let mut desc: Vec<FileEntry> = Vec::new();
    let ghost mut idxs: Seq<int> = Seq::empty();
    while sorted.len() > 0
        invariant
            sorted@ == orig.take(sorted@.len() as int),
            n == orig.len(),
            forall|i: int, j: int| 0 <= i < j < orig.len() ==> entry_le(#[trigger] orig[i], #[trigger] orig[j]),
            idxs.len() == desc@.len(),
            desc@.len() + sorted@.len() <= n,
            forall|k: int| 0 <= k < idxs.len() ==> sorted@.len() <= #[trigger] idxs[k] < n && desc@[k] == orig[idxs[k]],
            forall|a: int, b: int| 0 <= a < b < idxs.len() ==> #[trigger] idxs[b] < #[trigger] idxs[a],
            forall|a: int, b: int|
                0 <= a < b < desc@.len() ==> path_order(#[trigger] desc@[b].spec_path(), #[trigger] desc@[a].spec_path()) < 0,
            desc@.len() > 0 ==> desc@.last().spec_path() == orig[sorted@.len() as int].spec_path(),
            forall|j: int| sorted@.len() <= j < n ==> covered_by(desc@, #[trigger] orig[j]),
        decreases sorted@.len(),
    {
        let m = sorted.len() - 1;
        let e = sorted.pop().unwrap();
        assert(e == orig[m as int]);
        assert(sorted@ =~= orig.take(sorted@.len() as int));
        let dl = desc.len();
        let same = dl > 0 && compare_paths(desc[dl - 1].path(), e.path()) == 0;
        if same {
            proof {
                let last = idxs[dl - 1];
                lemma_path_order_zero(desc@[dl - 1].spec_path(), e.spec_path());
                assert(entry_le(orig[m as int], orig[last]));
                lemma_path_order_zero(orig[m as int].spec_path(), orig[last].spec_path());
                assert(covered_by(desc@, orig[m as int]));
                assert forall|j: int| m <= j < n implies covered_by(desc@, #[trigger] orig[j]) by {
                    if j > m {
                        assert(covered_by(desc@, orig[j]));
                    }
                }
            }
        } else {
            let ghost before = desc@;
            proof {
                if dl > 0 {
                    let last = idxs[dl - 1];
                    lemma_path_order_zero(orig[m as int].spec_path(), orig[last].spec_path());
                    assert(entry_le(orig[m as int], orig[last]));
                    assert(path_order(e.spec_path(), before[dl - 1].spec_path()) < 0);
                    assert forall|a: int| 0 <= a < dl implies path_order(e.spec_path(), #[trigger] before[a].spec_path()) < 0 by {
                        if a < dl - 1 {
                            lemma_path_order_trans(e.spec_path(), before[dl - 1].spec_path(), before[a].spec_path());
                        }
                    }
                }
            }
            desc.push(e);
            proof {
                idxs = idxs.push(m as int);
                lemma_path_order_zero(e.spec_path(), e.spec_path());
                assert(kind_order(orig[m as int].spec_kind()) <= kind_order(desc@[dl as int].spec_kind()));
                assert(covered_by(desc@, orig[m as int]));
                assert forall|j: int| m <= j < n implies covered_by(desc@, #[trigger] orig[j]) by {
                    if j > m {
                        assert(covered_by(before, orig[j]));
                        let w = choose|i: int|
                            0 <= i < before.len() && (#[trigger] before[i]).spec_path() == orig[j].spec_path()
                                && kind_order(orig[j].spec_kind()) <= kind_order(before[i].spec_kind());
                        assert(desc@[w] == before[w]);
                    }
                }
            }
        }
    }
    let ghost d = desc@;
    let dn = desc.len();
    let mut asc: Vec<FileEntry> = Vec::new();
    while desc.len() > 0
        invariant
            desc@ == d.take(desc@.len() as int),
            dn == d.len(),
            asc@.len() + desc@.len() == dn,
            forall|k: int| 0 <= k < asc@.len() ==> #[trigger] asc@[k] == d[dn - 1 - k],
        decreases desc@.len(),
    {
        let e = desc.pop().unwrap();
        asc.push(e);
        assert(desc@ =~= d.take(desc@.len() as int));
    }
    proof {
        assert(sorted@.len() == 0);
        assert forall|i: int, j: int| 0 <= i < j < asc@.len() implies path_order(
            #[trigger] asc@[i].spec_path(),
            #[trigger] asc@[j].spec_path(),
        ) < 0 by {
            assert(asc@[i] == d[dn - 1 - i]);
            assert(asc@[j] == d[dn - 1 - j]);
        }
        assert forall|i: int| 0 <= i < asc@.len() implies orig.contains(#[trigger] asc@[i]) by {
            assert(asc@[i] == d[dn - 1 - i]);
            assert(orig[idxs[dn - 1 - i]] == asc@[i]);
        }
        assert forall|j: int| 0 <= j < n implies covered_by(asc@, #[trigger] orig[j]) by {
            assert(covered_by(d, orig[j]));
            let w = choose|i: int|
                0 <= i < d.len() && (#[trigger] d[i]).spec_path() == orig[j].spec_path()
                    && kind_order(orig[j].spec_kind()) <= kind_order(d[i].spec_kind());
            assert(asc@[dn - 1 - w] == d[w]);
        }
    }
    asc
}

/// The file set under construction, once the mod and the configuration are
/// known.
#[derive(Debug)]
pub struct FilesetBuilderWithConfig {
    game: Game,
    db: FileDb,
    config: Block,
    the_mod: LoadedMod,
    loaded_mods: Vec<LoadedMod>,
    loaded_dlcs: Vec<LoadedMod>,
}

impl FilesetBuilderWithConfig {
    /// The files found so far.
    pub closed spec fn spec_files(&self) -> Seq<FileEntry> {
        self.db.spec_files()
    }

    /// The invariant: one file per place in the file system.
    pub closed spec fn wf(&self) -> bool {
        self.db.wf()
    }

    /// The files found lie at distinct places in the file system.
    pub proof fn lemma_distinct_fullpaths(&self)
        requires
            self.wf(),
        ensures
            forall|i: int, j: int|
                0 <= i < j < self.spec_files().len() ==> (#[trigger] self.spec_files()[i]).spec_fullpath()
                    != (#[trigger] self.spec_files()[j]).spec_fullpath(),
    {
    }

    /// The DLCs found so far.
    pub closed spec fn spec_dlcs(&self) -> Seq<LoadedMod> {
        self.loaded_dlcs@
    }

    /// The mod being analyzed.
    pub closed spec fn spec_the_mod(&self) -> LoadedMod {
        self.the_mod
    }

    /// The mods loaded before it.
    pub closed spec fn spec_loaded_mods(&self) -> Seq<LoadedMod> {
        self.loaded_mods@
    }

    /// The game being validated.
    pub closed spec fn spec_game(&self) -> Game {
        self.game
    }

    /// A builder for `game`, with the mod, the mods loaded before it, and the
    /// configuration; no files are found yet.
    pub fn new(game: Game, the_mod: LoadedMod, loaded_mods: Vec<LoadedMod>, config: Block) -> (r:
        FilesetBuilderWithConfig)
        ensures
            r.wf(),
            r.spec_files() == Seq::<FileEntry>::empty(),
            r.spec_dlcs() == Seq::<LoadedMod>::empty(),
            r.spec_the_mod() == the_mod,
            r.spec_loaded_mods() == loaded_mods@,
            r.spec_game() == game,
    {
        FilesetBuilderWithConfig {
            game,
            db: FileDb::new(),
            config,
            the_mod,
            loaded_mods,
            loaded_dlcs: Vec::new(),
        }
    }

    /// The number of DLCs found so far.
    pub fn dlc_count(&self) -> (r: usize)
        ensures
            r == self.spec_dlcs().len(),
    {
        self.loaded_dlcs.len()
    }

    /// The mod being analyzed.
    pub fn the_mod(&self) -> (r: &LoadedMod)
        ensures
            *r == self.spec_the_mod(),
    {
        &self.the_mod
    }

    /// The mods loaded before it, in order.
    pub fn loaded_mods(&self) -> (r: &Vec<LoadedMod>)
        ensures
            r@ == self.spec_loaded_mods(),
    {
        &self.loaded_mods
    }

    /// The number of files found so far.
    pub fn file_count(&self) -> (r: usize)
        ensures
            r == self.spec_files().len(),
    {
        self.db.files.len()
    }

    /// Whether the files of `kind` in directory `path` are replaced by a mod
    /// that loads after them.
    pub open spec fn spec_should_replace(&self, path: Comps, kind: FileKind) -> bool {
        kind != FileKind::Mod && ((kind_order(kind) < kind_order(FileKind::Mod)
            && self.spec_the_mod().spec_replace_paths().contains(path)) || exists|k: int|
            0 <= k < self.spec_loaded_mods().len() && kind_order(kind) < kind_order(
                (#[trigger] self.spec_loaded_mods()[k]).spec_kind(),
            ) && self.spec_loaded_mods()[k].spec_replace_paths().contains(path))
    }

    /// Computes [`Self::spec_should_replace`].
    pub fn should_replace(&self, path: &Vec<Vec<char>>, kind: FileKind) -> (r: bool)
        ensures
            r == self.spec_should_replace(comps_view(path@), kind),
    {
        if matches!(kind, FileKind::Mod) {
            return false;
        }
        let kr = crate::files::fileset::kind_rank(kind);
        if kr < 516 && self.the_mod.should_replace(path) {
            return true;
        }
        let mut k: usize = 0;
        while k < self.loaded_mods.len()
            invariant
                k <= self.loaded_mods@.len(),
                kr == kind_order(kind),
                kind != FileKind::Mod,
                forall|j: int|
                    0 <= j < k ==> !(kind_order(kind) < kind_order(
                        (#[trigger] self.loaded_mods@[j]).spec_kind(),
                    ) && self.loaded_mods@[j].spec_replace_paths().contains(comps_view(path@))),
            decreases self.loaded_mods@.len() - k,
        {
            let lm = &self.loaded_mods[k];
            if kr < crate::files::fileset::kind_rank(lm.kind()) && lm.should_replace(path) {
                return true;
            }
            k = k + 1;
        }
        false
    }

    /// Takes in a file found at `fullpath` in the file system, at
    /// `inner_path` below the root of its game, DLC or mod of the given
    /// kind: unless it is under `.git` or its directory is replaced by a
    /// later mod, it is added if no file at `fullpath` was yet.
    pub fn add_scanned_file(&mut self, inner_path: &str, kind: FileKind, fullpath: &str)
        requires
            old(self).wf(),
            file_name(path_of(inner_path@)) is Some,
        ensures
            final(self).wf(),
            final(self).spec_dlcs() == old(self).spec_dlcs(),
            final(self).spec_the_mod() == old(self).spec_the_mod(),
            final(self).spec_loaded_mods() == old(self).spec_loaded_mods(),
            final(self).spec_game() == old(self).spec_game(),
            (path_starts_with(path_of(inner_path@), path_of(".git"@)) || old(self).spec_should_replace(
                path_of(inner_path@).drop_last(),
                kind,
            )) ==> final(self).spec_files() == old(self).spec_files(),
            !(path_starts_with(path_of(inner_path@), path_of(".git"@)) || old(self).spec_should_replace(
                path_of(inner_path@).drop_last(),
                kind,
            )) ==> {
                ||| (exists|i: int| 0 <= i < old(self).spec_files().len() && (#[trigger] old(self).spec_files()[i]).spec_fullpath() == fullpath@)
                    && final(self).spec_files() == old(self).spec_files()
                ||| final(self).spec_files().drop_last() == old(self).spec_files()
                    && final(self).spec_files().last().spec_path() == path_of(inner_path@)
                    && final(self).spec_files().last().spec_kind() == kind
                    && final(self).spec_files().last().spec_fullpath() == fullpath@
                    && final(self).spec_files().last().spec_idx() is None
            },
    {
        let p = path_from_str(inner_path);
        let git = path_from_str(".git");
        if starts_with_path(&p, &git) {
            return;
        }
        let mut dir: Vec<Vec<char>> = Vec::new();
        let mut i: usize = 0;
        while i < p.len() - 1
            invariant
                p@.len() > 0,
                i + 1 <= p@.len(),
                comps_view(dir@) == comps_view(p@).take(i as int),
            decreases p@.len() - i,
        {
            let c = crate::text::copy_chars(p[i].as_slice());
            let ghost before = dir@;
            dir.push(c);
            proof {
                crate::pathname::lemma_comps_push(before, c);
            }
            i = i + 1;
            assert(comps_view(dir@) =~= comps_view(p@).take(i as int));
        }
        assert(comps_view(p@).take(i as int) =~= comps_view(p@).drop_last());
        if self.should_replace(&dir, kind) {
            return;
        }
        let ghost before = self.spec_files();
        let _ = self.db.get_or_create_entry(inner_path, kind, fullpath);
        proof {
            if !(exists|i: int| 0 <= i < before.len() && (#[trigger] before[i]).spec_fullpath() == fullpath@) {
                assert(forall|i: int| 0 <= i < before.len() ==> (#[trigger] before[i]).spec_fullpath() != fullpath@);
                assert(self.spec_files().drop_last() == before);
            }
        }
    }

    /// Registers the next DLC, named `label`, found at `root`; the kind of its
    /// files is returned.
    pub fn add_dlc(&mut self, label: &str, root: &str) -> (r: FileKind)
        requires
            old(self).spec_dlcs().len() < 256,
        ensures
            r == FileKind::Dlc(old(self).spec_dlcs().len() as u8),
            final(self).spec_dlcs().len() == old(self).spec_dlcs().len() + 1,
            final(self).spec_dlcs().drop_last() == old(self).spec_dlcs(),
            final(self).spec_dlcs().last().spec_kind() == r,
            final(self).spec_dlcs().last().spec_root() == root@,
            final(self).spec_dlcs().last().spec_label() == label@,
            final(self).spec_dlcs().last().spec_replace_paths() == Seq::<Comps>::empty(),
            final(self).spec_files() == old(self).spec_files(),
            final(self).wf() == old(self).wf(),
            final(self).spec_the_mod() == old(self).spec_the_mod(),
            final(self).spec_loaded_mods() == old(self).spec_loaded_mods(),
            final(self).spec_game() == old(self).spec_game(),
    {
        let idx = self.loaded_dlcs.len() as u8;
        let kind = FileKind::Dlc(idx);
        let dlc = LoadedMod::new(kind, label, root, Vec::new());
        assert(dlc.spec_replace_paths() =~= Seq::<Comps>::empty());
        self.loaded_dlcs.push(dlc);
        assert(self.loaded_dlcs@.drop_last() =~= old(self).loaded_dlcs@);
        kind
    }

    /// The file set: the files found, sorted by path, and of the files with
    /// the same path only the one of the latest kind.
    pub fn finalize(self) -> (r: Fileset)
        requires
            self.spec_files().len() < 0xffff_ffff,
            forall|i: int| 0 <= i < self.spec_files().len() ==> (file_name(#[trigger] self.spec_files()[i].spec_path()) is Some),
        ensures
            r.wf(),
            r.spec_game() == self.spec_game(),
            r.spec_used() == Set::<Seq<char>>::empty(),
            forall|i: int| 0 <= i < r.spec_files().len() ==> contains_file(self.spec_files(), #[trigger] r.spec_files()[i]),
            forall|j: int| 0 <= j < self.spec_files().len() ==> covered_by(r.spec_files(), #[trigger] self.spec_files()[j]),
    {
        let ghost all = self.spec_files();
        let sorted = sort_entries(self.db.files);
        let ghost s = sorted@;
        proof {
            assert forall|k: int| 0 <= k < s.len() implies all.contains(#[trigger] s[k]) by {
                assert(s.contains(s[k]));
                vstd::seq_lib::to_multiset_contains(s, s[k]);
                vstd::seq_lib::to_multiset_contains(all, s[k]);
            }
            assert forall|j: int| 0 <= j < all.len() implies s.contains(#[trigger] all[j]) by {
                assert(all.contains(all[j]));
                vstd::seq_lib::to_multiset_contains(s, all[j]);
                vstd::seq_lib::to_multiset_contains(all, all[j]);
            }
        }
        let kept = keep_last_per_path(sorted);
        let ghost kp = kept@;
        proof {
            assert forall|i: int| 0 <= i < kp.len() implies (file_name(#[trigger] kp[i].spec_path()) is Some) && all.contains(kp[i]) by {
                assert(s.contains(kp[i]));
                assert(all.contains(kp[i]));
            }
            vstd::seq_lib::to_multiset_len(s);
            vstd::seq_lib::to_multiset_len(all);
        }
        let r = Fileset::new(self.game, self.the_mod, self.loaded_mods, self.loaded_dlcs, self.config, kept);
        proof {
            assert forall|i: int| 0 <= i < r.spec_files().len() implies contains_file(all, #[trigger] r.spec_files()[i]) by {
                assert(same_file(r.spec_files()[i], kp[i]));
                let w = choose|k: int| 0 <= k < all.len() && all[k] == kp[i];
                assert(same_file(all[w], r.spec_files()[i]));
            }
            assert forall|j: int| 0 <= j < all.len() implies covered_by(r.spec_files(), #[trigger] all[j]) by {
                let k = choose|k: int| 0 <= k < s.len() && s[k] == all[j];
                assert(covered_by(kp, s[k]));
                let w = choose|i: int|
                    0 <= i < kp.len() && (#[trigger] kp[i]).spec_path() == s[k].spec_path()
                        && kind_order(s[k].spec_kind()) <= kind_order(kp[i].spec_kind());
                assert(same_file(r.spec_files()[w], kp[w]));
            }
        }
        r
    }
}

/// `dir` joined with the relative path `name`, as `Path::join` gives it.
pub open spec fn join_dir(dir: Seq<char>, name: Seq<char>) -> Seq<char> {
    if dir.len() == 0 || has_suffix(dir, "/"@) {
        dir + name
    } else {
        dir + "/"@ + name
    }
}

/// Computes [`join_dir`].
pub fn join_dir_str(dir: &str, name: &str) -> (r: String)
    ensures
        r@ == join_dir(dir@, name@),
{
    let mut v = crate::text::str_chars(dir);
    let slash = crate::text::str_chars("/");
    if !(v.len() == 0 || crate::text::ends_with(v.as_slice(), slash.as_slice())) {
        crate::text::push_str(&mut v, "/");
    }
    crate::text::push_str(&mut v, name);
    crate::text::string_from_chars(v.as_slice())
}

/// The directories of the game to read, below the directory where it is
/// installed.
#[derive(Debug)]
pub struct FilePaths {
    /// The base game.
    pub vanilla_root: Option<String>,
    /// Loaded before the base game, by the Jomini games.
    pub clausewitz_root: Option<String>,
    /// Loaded before the base game, by the Jomini games.
    pub jomini_root: Option<String>,
}

/// The text of an optional string.
pub open spec fn opt_str(o: Option<String>) -> Option<Seq<char>> {
    match o {
        Some(s) => Some(s@),
        None => None,
    }
}

impl FilePaths {
    /// The directories of `game` installed at `vanilla_dir`: the Jomini
    /// games keep the base game in `game/`, beside `clausewitz/` and
    /// `jomini/`.
    pub fn new(game: Game, vanilla_dir: Option<&str>) -> (r: FilePaths)
        ensures
            opt_str(r.vanilla_root) == (match vanilla_dir {
                Some(d) => Some(if game != Game::Hoi4 { join_dir(d@, "game"@) } else { d@ }),
                None => None,
            }),
            opt_str(r.clausewitz_root) == (match vanilla_dir {
                Some(d) => if game != Game::Hoi4 { Some(join_dir(d@, "clausewitz"@)) } else { None },
                None => None,
            }),
            opt_str(r.jomini_root) == (match vanilla_dir {
                Some(d) => if game != Game::Hoi4 { Some(join_dir(d@, "jomini"@)) } else { None },
                None => None,
            }),
    {
        match vanilla_dir {
            Some(d) => {
                if game.is_jomini() {
                    FilePaths {
                        vanilla_root: Some(join_dir_str(d, "game")),
                        clausewitz_root: Some(join_dir_str(d, "clausewitz")),
                        jomini_root: Some(join_dir_str(d, "jomini")),
                    }
                } else {
                    FilePaths { vanilla_root: Some(String::from_str(d)), clausewitz_root: None, jomini_root: None }
                }
            },
            None => FilePaths { vanilla_root: None, clausewitz_root: None, jomini_root: None },
        }
    }
}

/// The label of the loaded mod number `idx`, given its `load_mod` block of
/// the configuration: its `label` field, else `MOD` and the number.
pub fn loaded_mod_label(block: &Block, idx: u8) -> (r: String)
    ensures
        r@ == match last_field_value(block.v@, "label"@) {
            Some(t) => t.s@,
            None => "MOD"@ + decimal(idx as nat),
        },
{
    match block.get_field_value("label") {
        Some(t) => t.s.clone(),
        None => {
            let mut v = crate::text::str_chars("MOD");
            push_decimal(&mut v, idx as u64);
            crate::text::string_from_chars(v.as_slice())
        },
    }
}

/// The number of the next loaded mod, when `count` mods are loaded: at
/// most 256 can be.
pub fn next_mod_index(count: usize) -> (r: Result<u8, String>)
    ensures
        count < 256 ==> r == Ok::<u8, String>(count as u8),
        count >= 256 ==> (r matches Err(e) && e@ == "too many loaded mods, cannot process more"@),
{
    if count < 256 {
        Ok(count as u8)
    } else {
        Err(String::from_str("too many loaded mods, cannot process more"))
    }
}

/// The index of the last `/` in `s`, or -1.
pub open spec fn last_slash(s: Seq<char>) -> int
    decreases s.len(),
{
    if s.len() == 0 {
        -1
    } else if s.last() == '/' {
        s.len() - 1
    } else {
        last_slash(s.drop_last())
    }
}

/// Computes [`last_slash`].
fn find_last_slash(s: &[char]) -> (r: Option<usize>)
    ensures
        match r {
            Some(k) => k as int == last_slash(s@) && k < s@.len(),
            None => last_slash(s@) == -1,
        },
{
    let mut i = s.len();
    assert(s@.take(i as int) =~= s@);
    while i > 0
        invariant
            i <= s@.len(),
            last_slash(s@) == last_slash(s@.take(i as int)),
        decreases i,
    {
        let ghost t = s@.take(i as int);
        assert(t.drop_last() =~= s@.take(i - 1));
        if s[i - 1] == '/' {
            return Some(i - 1);
        }
        i = i - 1;
    }
    None
}

/// The directory that holds the file at `p`: the text before the last `/`,
/// the root where that `/` comes first, and the current directory (the
/// empty path) where there is none.
pub open spec fn parent_dir(p: Seq<char>) -> Seq<char> {
    let k = last_slash(p);
    if k < 0 {
        Seq::empty()
    } else if k == 0 {
        "/"@
    } else {
        p.take(k)
    }
}

/// `name` taken relative to `dir`, as `Path::join` gives it: an absolute
/// `name` stands for itself.
pub open spec fn path_join(dir: Seq<char>, name: Seq<char>) -> Seq<char> {
    if name.len() > 0 && name[0] == '/' {
        name
    } else {
        join_dir(dir, name)
    }
}

/// Computes [`path_join`].
pub fn path_join_str(dir: &str, name: &str) -> (r: String)
    ensures
        r@ == path_join(dir@, name@),
{
    let n = crate::text::str_chars(name);
    if n.len() > 0 && n[0] == '/' {
        crate::text::string_from_chars(n.as_slice())
    } else {
        join_dir_str(dir, name)
    }
}

/// Where the field `field` of a `load_mod` block points: its value taken
/// relative to the directory of the configuration file at `config_path`.
pub open spec fn mod_field_path(config_path: Seq<char>, block: Block, field: Seq<char>) -> Option<
    Seq<char>,
> {
    match last_field_value(block.v@, field) {
        Some(t) => Some(path_join(parent_dir(config_path), t.s@)),
        None => None,
    }
}

/// Computes [`mod_field_path`]: the place whose existence decides whether
/// a secondary mod is found through that field.
pub fn mod_field_candidate(config_path: &str, block: &Block, field: &str) -> (r: Option<String>)
    ensures
        opt_str(r) == mod_field_path(config_path@, *block, field@),
{
    match block.get_field_value(field) {
        Some(t) => {
            let cp = crate::text::str_chars(config_path);
            let dir: Vec<char> = match find_last_slash(cp.as_slice()) {
                None => Vec::new(),
                Some(k) => {
                    if k == 0 {
                        crate::text::str_chars("/")
                    } else {
                        let mut d: Vec<char> = Vec::new();
                        let mut i: usize = 0;
                        while i < k
                            invariant
                                k < cp@.len(),
                                i <= k,
                                d@ == cp@.take(i as int),
                            decreases k - i,
                        {
                            d.push(cp[i]);
                            i = i + 1;
                            assert(d@ =~= cp@.take(i as int));
                        }
                        d
                    }
                },
            };
            proof {
                reveal_strlit("/");
            }
            assert(dir@ == parent_dir(config_path@));
            let ds = crate::text::string_from_chars(dir.as_slice());
            Some(path_join_str(ds.as_str(), t.s.as_str()))
        },
        None => None,
    }
}

/// The text of an optional string slice.
pub open spec fn opt_strs(o: Option<&str>) -> Option<Seq<char>> {
    match o {
        Some(s) => Some(s@),
        None => None,
    }
}

/// The `.mod` file of a secondary mod of Crusader Kings 3, Imperator or
/// Hearts of Iron 4, given its `load_mod` block: where its `modfile` field
/// points, if that file exists; else the file of its `workshop_id` below
/// the Paradox directory, if both are known; else none.
pub open spec fn modfile_choice(
    config_path: Seq<char>,
    block: Block,
    paradox_dir: Option<Seq<char>>,
    modfile_exists: bool,
) -> Option<Seq<char>> {
    let direct = mod_field_path(config_path, block, "modfile"@);
    if direct is Some && modfile_exists {
        direct
    } else {
        match (last_field_value(block.v@, "workshop_id"@), paradox_dir) {
            (Some(id), Some(d)) => Some(join_dir(d, "mod/ugc_"@ + id.s@ + ".mod"@)),
            _ => None,
        }
    }
}

/// Finds the `.mod` file of a secondary mod, as [`modfile_choice`] says;
/// `modfile_exists` tells whether the file at [`mod_field_candidate`] for
/// `modfile` exists.
pub fn get_modfile(
    config_path: &str,
    block: &Block,
    paradox_dir: Option<&str>,
    modfile_exists: bool,
) -> (r: Option<String>)
    ensures
        opt_str(r) == modfile_choice(config_path@, *block, opt_strs(paradox_dir), modfile_exists),
{
    let direct = mod_field_candidate(config_path, block, "modfile");
    if direct.is_some() && modfile_exists {
        return direct;
    }
    match (block.get_field_value("workshop_id"), paradox_dir) {
        (Some(id), Some(d)) => {
            let mut v = crate::text::str_chars("mod/ugc_");
            crate::text::push_str(&mut v, id.s.as_str());
            crate::text::push_str(&mut v, ".mod");
            let name = crate::text::string_from_chars(v.as_slice());
            Some(join_dir_str(d, name.as_str()))
        },
        _ => None,
    }
}

/// The directory of a secondary mod of Victoria 3, given its `load_mod`
/// block: where its `mod` field points, if that exists; else its
/// `workshop_id` below the workshop directory, if both are known; else
/// none.
pub open spec fn mod_dir_choice(
    config_path: Seq<char>,
    block: Block,
    workshop_dir: Option<Seq<char>>,
    mod_exists: bool,
) -> Option<Seq<char>> {
    let direct = mod_field_path(config_path, block, "mod"@);
    if direct is Some && mod_exists {
        direct
    } else {
        match (last_field_value(block.v@, "workshop_id"@), workshop_dir) {
            (Some(id), Some(w)) => Some(path_join(w, id.s@)),
            _ => None,
        }
    }
}

/// Finds the directory of a secondary mod, as [`mod_dir_choice`] says;
/// `mod_exists` tells whether the place at [`mod_field_candidate`] for
/// `mod` exists.
pub fn get_mod(config_path: &str, block: &Block, workshop_dir: Option<&str>, mod_exists: bool) -> (r:
    Option<String>)
    ensures
        opt_str(r) == mod_dir_choice(config_path@, *block, opt_strs(workshop_dir), mod_exists),
{
    let direct = mod_field_candidate(config_path, block, "mod");
    if direct.is_some() && mod_exists {
        return direct;
    }
    match (block.get_field_value("workshop_id"), workshop_dir) {
        (Some(id), Some(w)) => Some(path_join_str(w, id.s.as_str())),
        _ => None,
    }
}


/// What reading a secondary mod's description gave, as the file system
/// found it: nothing to read, the mod's root and replaced directories, or
/// the error that reading gave.
pub enum ModLookup {
    Missing,
    Read(String, Vec<Vec<Vec<char>>>),
    Failed(String),
}

/// The message for a `load_mod` block that names no mod for `game`.
pub open spec fn missing_mod_msg(game: Game) -> Seq<char> {
    if game == Game::Vic3 {
        "could not load secondary mod from config; missing valid `mod` or `workshop_id` field"@
    } else {
        "could not load secondary mod from config; missing valid `modfile` or `workshop_id` field"@
    }
}

/// Whether `m` is the loaded mod number `idx` of the `load_mod` block `b`,
/// at `root`, replacing `replace_paths`.
pub open spec fn is_loaded_mod(m: LoadedMod, idx: u8, b: Block, root: Seq<char>, replace_paths: Seq<Comps>) -> bool {
    &&& m.spec_kind() == FileKind::LoadedMod(idx)
    &&& m.spec_label() == match last_field_value(b.v@, "label"@) {
        Some(t) => t.s@,
        None => "MOD"@ + decimal(idx as nat),
    }
    &&& m.spec_root() == root
    &&& m.spec_replace_paths() == replace_paths
}

/// One `load_mod` block `b` of the configuration of `game`, given what
/// reading the mod it names gave. With 256 mods loaded already, no more can
/// be. Crusader Kings 3, Imperator and Hearts of Iron 4 need the mod and
/// fail when it is missing or unreadable; Victoria 3 needs the mod but skips
/// one that is unreadable; Europa Universalis 5 loads no secondary mods.
/// A mod that was read is added to `loaded` as the next loaded mod.
pub fn config_step(game: Game, loaded: &mut Vec<LoadedMod>, b: &Block, lookup: ModLookup) -> (r: Result<(), String>)
    ensures
        old(loaded)@.len() >= 256 ==> (r matches Err(e) && e@ == "too many loaded mods, cannot process more"@
            && final(loaded)@ == old(loaded)@),
        old(loaded)@.len() < 256 ==> match lookup {
            ModLookup::Read(root, rp) => if game == Game::Eu5 {
                r is Ok && final(loaded)@ == old(loaded)@
            } else {
                &&& r is Ok
                &&& final(loaded)@.len() == old(loaded)@.len() + 1
                &&& final(loaded)@.take(old(loaded)@.len() as int) == old(loaded)@
                &&& is_loaded_mod(
                    final(loaded)@.last(),
                    old(loaded)@.len() as u8,
                    *b,
                    root@,
                    rp@.map_values(|p: Vec<Vec<char>>| comps_view(p@)),
                )
            },
            ModLookup::Missing => final(loaded)@ == old(loaded)@ && if game == Game::Eu5 {
                r is Ok
            } else {
                r matches Err(e) && e@ == missing_mod_msg(game)
            },
            ModLookup::Failed(msg) => final(loaded)@ == old(loaded)@ && if game == Game::Eu5 || game
                == Game::Vic3 {
                r is Ok
            } else {
                r == Err::<(), String>(msg)
            },
        },
{
    let idx = match next_mod_index(loaded.len()) {
        Ok(i) => i,
        Err(e) => {
            return Err(e);
        },
    };
    if game == Game::Eu5 {
        return Ok(());
    }
    match lookup {
        ModLookup::Read(root, rp) => {
            let label = loaded_mod_label(b, idx);
            let m = LoadedMod::new(FileKind::LoadedMod(idx), label.as_str(), root.as_str(), rp);
            let ghost before = loaded@;
            loaded.push(m);
            assert(loaded@.take(before.len() as int) =~= before);
            Ok(())
        },
        ModLookup::Missing => {
            if game == Game::Vic3 {
                Err(String::from_str(
                    "could not load secondary mod from config; missing valid `mod` or `workshop_id` field",
                ))
            } else {
                Err(String::from_str(
                    "could not load secondary mod from config; missing valid `modfile` or `workshop_id` field",
                ))
            }
        },
        ModLookup::Failed(msg) => {
            if game == Game::Vic3 {
                Ok(())
            } else {
                Err(msg)
            }
        },
    }
}

} // verus!
