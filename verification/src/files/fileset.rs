//! Track all the files (vanilla and mods) that are relevant to the current
//! validation.

use vstd::prelude::*;

use crate::block::Block;
use crate::files::filecontent::FileContent;
use crate::game::Game;
use crate::pathname::{
    compare_paths, comps_view, file_name, lemma_path_order_antisym, lemma_path_order_trans,
    lemma_path_order_zero, lemma_prefix_interval, lemma_prefix_not_below, path_from_str, path_of,
    path_order, path_starts_with, starts_with_path, Comps,
};
use crate::pathname::{extension_of_path, path_extension};
use crate::report::{
    capped, make_report, make_report_info, report_str, rv, rvi, views, ErrorKey, Report,
    ReportView, Severity,
};
use crate::text::{
    collapse_slashes, collapse_slashes_chars, contains_char, ends_with, has_suffix, lower_eq,
    lower_seq, push_chars, push_str, replace_char, replace_char_chars, str_chars,
    string_from_chars, strip_slash, strip_slash_chars,
};
use crate::token::{Loc, Token};

verus! {

/// Where a file comes from. The order of the kinds matters: files later in
/// the order override files of the same name before them.
#[derive(Clone, Copy, Debug, PartialEq, Eq, Structural)]
pub enum FileKind {
    /// Tiger's own data; the user should not see warnings from it.
    Internal,
    /// Directories bundled with the base game.
    Clausewitz,
    Jomini,
    /// The base game files.
    Vanilla,
    /// Downloadable content present on the user's system.
    Dlc(u8),
    /// Other mods loaded as directed by the config file, counted from 0.
    LoadedMod(u8),
    /// The mod under scrutiny.
    Mod,
}

/// The position of a kind in the order of kinds.
pub open spec fn kind_order(k: FileKind) -> int {
    match k {
        FileKind::Internal => 0,
        FileKind::Clausewitz => 1,
        FileKind::Jomini => 2,
        FileKind::Vanilla => 3,
        FileKind::Dlc(n) => 4 + n as int,
        FileKind::LoadedMod(n) => 260 + n as int,
        FileKind::Mod => 516,
    }
}

/// Computes [`kind_order`].
pub fn kind_rank(k: FileKind) -> (r: u32)
    ensures
        r == kind_order(k),
{
    match k {
        FileKind::Internal => 0,
        FileKind::Clausewitz => 1,
        FileKind::Jomini => 2,
        FileKind::Vanilla => 3,
        FileKind::Dlc(n) => 4 + n as u32,
        FileKind::LoadedMod(n) => 260 + n as u32,
        FileKind::Mod => 516,
    }
}

/// Two kinds of the same position are the same kind.
pub proof fn lemma_kind_order_injective(a: FileKind, b: FileKind)
    ensures
        kind_order(a) == kind_order(b) <==> a == b,
{
}

/// Files load in this order of kinds: Tiger's own files, then the
/// Clausewitz and Jomini directories, the base game, the DLCs in their order,
/// the other loaded mods in their order, and last the mod under scrutiny. In
/// particular every loaded mod loads after every DLC, so it overrides them.
pub proof fn law_kind_order_is_load_order(n: u8, n2: u8, m: u8, m2: u8)
    ensures
        kind_order(FileKind::Internal) < kind_order(FileKind::Clausewitz),
        kind_order(FileKind::Clausewitz) < kind_order(FileKind::Jomini),
        kind_order(FileKind::Jomini) < kind_order(FileKind::Vanilla),
        kind_order(FileKind::Vanilla) < kind_order(FileKind::Dlc(n)),
        kind_order(FileKind::Dlc(n)) < kind_order(FileKind::LoadedMod(m)),
        kind_order(FileKind::LoadedMod(m)) < kind_order(FileKind::Mod),
        kind_order(FileKind::Dlc(n)) < kind_order(FileKind::Dlc(n2)) <==> n < n2,
        kind_order(FileKind::LoadedMod(m)) < kind_order(FileKind::LoadedMod(m2)) <==> m < m2,
{
}

impl FileKind {
    /// Whether files of this kind count as part of the base game.
    pub fn counts_as_vanilla(&self) -> (r: bool)
        ensures
            r == (*self is Clausewitz || *self is Jomini || *self is Vanilla || *self is Dlc),
    {
        match self {
            FileKind::Clausewitz | FileKind::Jomini | FileKind::Vanilla | FileKind::Dlc(_) => true,
            FileKind::Internal | FileKind::LoadedMod(_) | FileKind::Mod => false,
        }
    }
}

/// The index of the files that are not in the table of loaded files.
pub open spec fn untracked() -> u32 {
    0xffff_ffff
}

/// A file of the game or of a mod.
#[derive(Debug)]
pub struct FileEntry {
    /// The path below the mod or game directory, as components.
    path: Vec<Vec<char>>,
    /// Where the file comes from.
    kind: FileKind,
    /// The index in the table of loaded files, once it has one.
    idx: Option<u32>,
    /// The full path in the file system; not used for ordering or equality.
    fullpath: String,
    /// The contents of a built-in file.
    contents: Option<FileContent>,
}

impl FileEntry {
    /// The path below the mod or game directory.
    pub closed spec fn spec_path(&self) -> Comps {
        comps_view(self.path@)
    }

    /// Where the file comes from.
    pub closed spec fn spec_kind(&self) -> FileKind {
        self.kind
    }

    /// The index in the table of loaded files.
    pub closed spec fn spec_idx(&self) -> Option<u32> {
        self.idx
    }

    /// The full path in the file system.
    pub closed spec fn spec_fullpath(&self) -> Seq<char> {
        self.fullpath@
    }

    /// An entry for the file at `path` below its root, of the given kind, at
    /// `fullpath` in the file system.
    pub fn new(path: &str, kind: FileKind, fullpath: &str) -> (r: FileEntry)
        requires
            file_name(path_of(path@)) is Some,
        ensures
            r.spec_path() == path_of(path@),
            r.spec_kind() == kind,
            r.spec_idx() is None,
            r.spec_fullpath() == fullpath@,
            r.spec_contents() is None,
    {
        FileEntry {
            path: path_from_str(path),
            kind,
            idx: None,
            fullpath: String::from_str(fullpath),
            contents: None,
        }
    }

    /// An entry for tiger's own data, described by `description`, with the
    /// given contents; it is not in the table of loaded files.
    pub fn new_internal(description: &str, contents: &str) -> (r: FileEntry)
        ensures
            r.spec_path() == path_of(description@),
            r.spec_kind() == FileKind::Internal,
            r.spec_idx() == Some(untracked()),
            r.spec_fullpath() == description@,
            r.spec_contents() == Some(contents@),
    {
        FileEntry {
            path: path_from_str(description),
            kind: FileKind::Internal,
            idx: Some(0xffff_ffff),
            fullpath: String::from_str(description),
            contents: Some(FileContent::new_static(contents)),
        }
    }

    /// An entry whose reports are not tracked.
    pub fn new_untracked(path: &str, kind: FileKind, fullpath: &str) -> (r: FileEntry)
        requires
            file_name(path_of(path@)) is Some,
        ensures
            r.spec_path() == path_of(path@),
            r.spec_kind() == kind,
            r.spec_idx() == Some(untracked()),
            r.spec_fullpath() == fullpath@,
            r.spec_contents() is None,
    {
        FileEntry {
            path: path_from_str(path),
            kind,
            idx: Some(0xffff_ffff),
            fullpath: String::from_str(fullpath),
            contents: None,
        }
    }

    /// The contents held by the entry, for built-in files.
    pub closed spec fn spec_contents(&self) -> Option<Seq<char>> {
        match self.contents {
            Some(c) => Some(c.spec_full()),
            None => None,
        }
    }

    /// Where the file comes from.
    pub fn kind(&self) -> (r: FileKind)
        ensures
            r == self.spec_kind(),
    {
        self.kind
    }

    /// The path below the mod or game directory.
    pub fn path(&self) -> (r: &Vec<Vec<char>>)
        ensures
            comps_view(r@) == self.spec_path(),
    {
        &self.path
    }

    /// The path below the mod or game directory, written with `/`.
    pub fn path_string(&self) -> (r: String)
        ensures
            r@ == path_text(self.spec_path()),
    {
        string_from_chars(join_path(&self.path).as_slice())
    }

    /// The full path in the file system.
    pub fn fullpath(&self) -> (r: &str)
        ensures
            r@ == self.spec_fullpath(),
    {
        self.fullpath.as_str()
    }

    /// The file name: the last component of the path.
    pub fn filename(&self) -> (r: Vec<char>)
        requires
            file_name(self.spec_path()) is Some,
        ensures
            Some(r@) == file_name(self.spec_path()),
    {
        let n = self.path.len();
        let last = &self.path[n - 1];
        let mut r: Vec<char> = Vec::new();
        let mut i: usize = 0;
        while i < last.len()
            invariant
                i <= last@.len(),
                r@ == last@.take(i as int),
            decreases last@.len() - i,
        {
            r.push(last[i]);
            i = i + 1;
            assert(r@ =~= last@.take(i as int));
        }
        assert(last@.take(last@.len() as int) =~= last@);
        r
    }

    /// The index in the table of loaded files, if it has one.
    pub fn path_idx(&self) -> (r: Option<u32>)
        ensures
            r == self.spec_idx(),
    {
        self.idx
    }

    /// The place that stands for the whole file in reports.
    pub fn loc(&self) -> (r: Loc)
        ensures
            r == entry_loc(*self),
    {
        match self.idx {
            Some(i) => Loc::for_file(i),
            None => Loc::for_file(0xffff_ffff),
        }
    }

    /// The contents held by the entry, for built-in files; other files are
    /// read from the file system by the caller.
    pub fn contents(&self) -> (r: Option<&FileContent>)
        ensures
            match r {
                Some(c) => self.spec_contents() == Some(c.spec_full()),
                None => self.spec_contents() is None,
            },
    {
        match &self.contents {
            Some(c) => Some(c),
            None => None,
        }
    }

    /// Sets the index in the table of loaded files.
    pub fn set_path_idx(&mut self, idx: u32)
        ensures
            final(self).spec_idx() == Some(idx),
            final(self).spec_path() == old(self).spec_path(),
            final(self).spec_kind() == old(self).spec_kind(),
            final(self).spec_fullpath() == old(self).spec_fullpath(),
            final(self).spec_contents() == old(self).spec_contents(),
    {
        self.idx = Some(idx);
    }
}

/// The place that stands for a whole file in reports.
pub open spec fn entry_loc(e: FileEntry) -> Loc {
    match e.spec_idx() {
        Some(i) => Loc { file: i, line: 0, column: 0 },
        None => Loc { file: untracked(), line: 0, column: 0 },
    }
}

/// A path written with `/` between its components.
pub open spec fn path_text(p: Comps) -> Seq<char>
    decreases p.len(),
{
    if p.len() == 0 {
        Seq::empty()
    } else if p.len() == 1 {
        p[0]
    } else {
        path_text(p.drop_last()) + seq!['/'] + p.last()
    }
}

/// Computes [`path_text`].
pub fn join_path(p: &Vec<Vec<char>>) -> (r: Vec<char>)
    ensures
        r@ == path_text(comps_view(p@)),
{
    let ghost v = comps_view(p@);
    let mut r: Vec<char> = Vec::new();
    let mut i: usize = 0;
    while i < p.len()
        invariant
            i <= p@.len(),
            v == comps_view(p@),
            r@ == path_text(v.take(i as int)),
        decreases p@.len() - i,
    {
        assert(v.take(i + 1).drop_last() =~= v.take(i as int));
        assert(v.take(i + 1).last() == p@[i as int]@);
        if i > 0 {
            r.push('/');
        } else {
            assert(v.take(0) =~= Seq::<Seq<char>>::empty());
        }
        crate::text::push_chars(&mut r, p[i].as_slice());
        i = i + 1;
        assert(r@ =~= path_text(v.take(i as int)));
    }
    assert(v.take(p@.len() as int) =~= v);
    r
}

/// A mod or DLC to be loaded.
#[derive(Debug)]
pub struct LoadedMod {
    /// The kind of the file entries from this mod.
    kind: FileKind,
    /// The tag used for this mod in reports.
    label: String,
    /// The location of this mod in the file system.
    root: String,
    /// Directories that should not be read from vanilla or earlier mods.
    replace_paths: Vec<Vec<Vec<char>>>,
}

impl LoadedMod {
    /// The kind of the file entries from this mod.
    pub closed spec fn spec_kind(&self) -> FileKind {
        self.kind
    }

    /// The directories that this mod replaces.
    pub closed spec fn spec_replace_paths(&self) -> Seq<Comps> {
        self.replace_paths@.map_values(|p: Vec<Vec<char>>| comps_view(p@))
    }

    /// The location of this mod in the file system.
    pub closed spec fn spec_root(&self) -> Seq<char> {
        self.root@
    }

    /// The tag of this mod in reports.
    pub closed spec fn spec_label(&self) -> Seq<char> {
        self.label@
    }

    /// The mod under scrutiny, at `root`, replacing the given directories.
    pub fn new_main_mod(root: &str, replace_paths: Vec<Vec<Vec<char>>>) -> (r: LoadedMod)
        ensures
            r.spec_kind() == FileKind::Mod,
            r.spec_label() == "MOD"@,
            r.spec_root() == root@,
            r.spec_replace_paths() == replace_paths@.map_values(
                |p: Vec<Vec<char>>| comps_view(p@),
            ),
    {
        LoadedMod {
            kind: FileKind::Mod,
            label: String::from_str("MOD"),
            root: String::from_str(root),
            replace_paths,
        }
    }

    /// A mod or DLC of the given kind and label, at `root`, replacing the
    /// given directories.
    pub fn new(kind: FileKind, label: &str, root: &str, replace_paths: Vec<Vec<Vec<char>>>) -> (r:
        LoadedMod)
        ensures
            r.spec_kind() == kind,
            r.spec_label() == label@,
            r.spec_root() == root@,
            r.spec_replace_paths() == replace_paths@.map_values(
                |p: Vec<Vec<char>>| comps_view(p@),
            ),
    {
        LoadedMod {
            kind,
            label: String::from_str(label),
            root: String::from_str(root),
            replace_paths,
        }
    }

    /// The location of this mod in the file system.
    pub fn root(&self) -> (r: &str)
        ensures
            r@ == self.spec_root(),
    {
        self.root.as_str()
    }

    /// The kind of the file entries from this mod.
    pub fn kind(&self) -> (r: FileKind)
        ensures
            r == self.spec_kind(),
    {
        self.kind
    }

    /// Whether this mod replaces the directory `path`.
    pub fn should_replace(&self, path: &Vec<Vec<char>>) -> (r: bool)
        ensures
            r == self.spec_replace_paths().contains(comps_view(path@)),
    {
        let ghost rp = self.spec_replace_paths();
        let mut i: usize = 0;
        while i < self.replace_paths.len()
            invariant
                i <= self.replace_paths@.len(),
                rp == self.spec_replace_paths(),
                forall|j: int| 0 <= j < i ==> rp[j] != comps_view(path@),
            decreases self.replace_paths@.len() - i,
        {
            if crate::pathname::compare_paths(&self.replace_paths[i], path) == 0 {
                proof {
                    crate::pathname::lemma_path_order_zero(rp[i as int], comps_view(path@));
                }
                assert(rp[i as int] == comps_view(path@));
                return true;
            }
            proof {
                crate::pathname::lemma_path_order_zero(rp[i as int], comps_view(path@));
            }
            i = i + 1;
        }
        false
    }
}

/// The same file, whatever index it has in the table of loaded files.
pub open spec fn same_file(a: FileEntry, b: FileEntry) -> bool {
    &&& a.spec_path() == b.spec_path()
    &&& a.spec_kind() == b.spec_kind()
    &&& a.spec_fullpath() == b.spec_fullpath()
    &&& a.spec_contents() == b.spec_contents()
}

/// Whether the paths of `s` rise strictly: they are sorted and distinct.
pub open spec fn strictly_sorted(s: Seq<FileEntry>) -> bool {
    forall|i: int, j: int|
        0 <= i < j < s.len() ==> path_order(#[trigger] s[i].spec_path(), #[trigger] s[j].spec_path())
            < 0
}

/// Whether some file of `files` has the path `p`.
pub open spec fn has_path(files: Seq<FileEntry>, p: Comps) -> bool {
    exists|i: int| 0 <= i < files.len() && #[trigger] files[i].spec_path() == p
}

/// Whether some file of `files` lies below (or is) `p`.
pub open spec fn has_path_under(files: Seq<FileEntry>, p: Comps) -> bool {
    exists|i: int| 0 <= i < files.len() && path_starts_with(#[trigger] files[i].spec_path(), p)
}

/// Whether some file of `files` is not ordered below `p`.
pub open spec fn has_path_not_below(files: Seq<FileEntry>, p: Comps) -> bool {
    exists|i: int| 0 <= i < files.len() && path_order(#[trigger] files[i].spec_path(), p) >= 0
}

/// The files of `files` lying below `sub` are exactly those at the places
/// `start .. end`.
pub open spec fn under_range(files: Seq<FileEntry>, sub: Comps, start: int, end: int) -> bool {
    &&& 0 <= start <= end <= files.len()
    &&& forall|i: int|
        0 <= i < files.len() ==> (path_starts_with(#[trigger] files[i].spec_path(), sub) <==> start
            <= i < end)
}

/// The path looked up for a file name `key`: without a leading `/`, and for
/// Hearts of Iron 4 with `\` read as `/` where the name has one.
pub open spec fn lookup_path(game: Game, key: Seq<char>) -> Comps {
    let k = strip_slash(key);
    if game == Game::Hoi4 && k.contains('\\') {
        path_of(replace_char(k, '\\', '/'))
    } else {
        path_of(k)
    }
}

/// The token that names a file: its file name, placed at the whole file.
pub open spec fn file_token(e: FileEntry, t: Token) -> bool {
    Some(t.s@) == file_name(e.spec_path()) && t.loc == entry_loc(e)
}

/// How serious a missing file is.
pub open spec fn file_severity() -> Severity {
    Severity::Error
}

proof fn lemma_sorted_le(s: Seq<FileEntry>, i: int, j: int)
    requires
        strictly_sorted(s),
        0 <= i <= j < s.len(),
    ensures
        path_order(s[i].spec_path(), s[j].spec_path()) <= 0,
{
    lemma_path_order_zero(s[i].spec_path(), s[j].spec_path());
}

proof fn lemma_below_before(s: Seq<FileEntry>, i: int, j: int, p: Comps)
    requires
        strictly_sorted(s),
        0 <= i <= j < s.len(),
        path_order(s[j].spec_path(), p) < 0,
    ensures
        path_order(s[i].spec_path(), p) < 0,
{
    lemma_sorted_le(s, i, j);
    lemma_path_order_trans(s[i].spec_path(), s[j].spec_path(), p);
}

proof fn lemma_not_below_after(s: Seq<FileEntry>, i: int, j: int, p: Comps)
    requires
        strictly_sorted(s),
        0 <= i <= j < s.len(),
        path_order(s[i].spec_path(), p) >= 0,
    ensures
        path_order(s[j].spec_path(), p) >= 0,
{
    lemma_sorted_le(s, i, j);
    lemma_path_order_zero(s[j].spec_path(), p);
    if path_order(s[j].spec_path(), p) < 0 {
        lemma_path_order_trans(s[i].spec_path(), s[j].spec_path(), p);
    }
}

/// Between a file not ordered below `p` and a later file below `p`, every
/// file lies below `p`.
proof fn lemma_under_between(s: Seq<FileEntry>, i: int, j: int, p: Comps)
    requires
        strictly_sorted(s),
        0 <= i <= j < s.len(),
        path_order(s[i].spec_path(), p) >= 0,
        path_starts_with(s[j].spec_path(), p),
    ensures
        path_starts_with(s[i].spec_path(), p),
{
    lemma_sorted_le(s, i, j);
    lemma_path_order_antisym(s[i].spec_path(), p);
    assert(p.take(p.len() as int) =~= p);
    lemma_prefix_interval(p, s[i].spec_path(), s[j].spec_path(), p);
}

/// A file ordered below `p` does not lie below `p`.
proof fn lemma_below_not_under(a: Comps, p: Comps)
    requires
        path_order(a, p) < 0,
    ensures
        !path_starts_with(a, p),
{
    if path_starts_with(a, p) {
        lemma_prefix_not_below(a, p);
        lemma_path_order_antisym(a, p);
    }
}

/// The paths named by a list of strings.
pub open spec fn strs_paths(l: Seq<&str>) -> Seq<Comps> {
    l.map_values(|s: &str| path_of(s@))
}

/// Whether `p` lies below one of `dirs`.
pub open spec fn under_any(p: Comps, dirs: Seq<Comps>) -> bool {
    exists|k: int| 0 <= k < dirs.len() && path_starts_with(p, #[trigger] dirs[k])
}

/// The message for a script file in `common/` whose directory is not known.
pub open spec fn misplaced_msg(game: Game, p: Comps) -> Seq<char> {
    if path_starts_with(p, path_of("common/scripted_values"@)) {
        "file should be in common/script_values/"@
    } else if (game == Game::Ck3 || game == Game::Imperator) && path_starts_with(
        p,
        path_of("common/on_actions"@),
    ) {
        "file should be in common/on_action/"@
    } else if (game == Game::Vic3 || game == Game::Hoi4) && path_starts_with(
        p,
        path_of("common/on_action"@),
    ) {
        "file should be in common/on_actions/"@
    } else if game == Game::Vic3 && path_starts_with(p, path_of("common/modifiers"@)) {
        "file should be in common/static_modifiers since 1.7"@
    } else if game == Game::Ck3 && path_starts_with(p, path_of("common/vassal_contracts"@)) {
        "common/vassal_contracts was replaced with common/subject_contracts/contracts/ in 1.16"@
    } else {
        "file in unexpected directory `"@ + path_text(p.drop_last()) + "`"@
    }
}

/// The report, if any, on a script file at `p` whose directory is not one
/// the game reads, given the directories already reported (`warned`), the
/// game's directories below `common/` (`dirs`), the directories below them
/// that may hold files (`subdirs`) and the game's single files (`files`).
pub open spec fn misplaced_report(
    game: Game,
    p: Comps,
    loc: Loc,
    warned: Seq<Comps>,
    dirs: Seq<Comps>,
    subdirs: Seq<Comps>,
    files: Seq<Comps>,
) -> Option<ReportView> {
    let d = p.drop_last();
    if !has_suffix(path_text(p), ".txt"@) {
        None
    } else if p == path_of("common/achievement_groups.txt"@) {
        None
    } else if game == Game::Hoi4 && files.contains(p) {
        None
    } else if warned.contains(d) {
        None
    } else if !path_starts_with(p, path_of("common"@)) {
        if under_any(path_of("common"@) + p, dirs) {
            Some(
                rvi(
                    ErrorKey::Filename,
                    Severity::Error,
                    "file in unexpected directory "@ + path_text(d),
                    "did you mean common/"@ + path_text(d) + " ?"@,
                    loc,
                ),
            )
        } else {
            None
        }
    } else if under_any(p, subdirs) {
        None
    } else if dirs.contains(d) {
        None
    } else {
        Some(rv(ErrorKey::Filename, Severity::Error, misplaced_msg(game, p), loc))
    }
}

/// The reports on misplaced script files among `fs`, each directory
/// reported once, and the directories reported.
pub open spec fn misplaced_fold(
    game: Game,
    fs: Seq<FileEntry>,
    dirs: Seq<Comps>,
    subdirs: Seq<Comps>,
    files: Seq<Comps>,
) -> (Seq<ReportView>, Seq<Comps>)
    decreases fs.len(),
{
    if fs.len() == 0 {
        (Seq::empty(), Seq::empty())
    } else {
        let (rs, w) = misplaced_fold(game, fs.drop_last(), dirs, subdirs, files);
        let e = fs.last();
        match misplaced_report(game, e.spec_path(), entry_loc(e), w, dirs, subdirs, files) {
            Some(r) => (rs.push(r), w.push(e.spec_path().drop_last())),
            None => (rs, w),
        }
    }
}

/// Whether `e` is a `.dds` file, outside the loading screens, that was never
/// looked up.
pub open spec fn is_unused_dds(e: FileEntry, used: Set<Seq<char>>) -> bool {
    &&& path_extension(e.spec_path()) matches Some(x) && lower_seq(x) == "dds"@
    &&& !path_starts_with(e.spec_path(), path_of("gfx/interface/illustrations/loading_screens"@))
    &&& !used.contains(path_text(e.spec_path()))
}

/// The reports on the unused `.dds` files among `fs`.
pub open spec fn unused_dds_reports(fs: Seq<FileEntry>, used: Set<Seq<char>>) -> Seq<ReportView>
    decreases fs.len(),
{
    if fs.len() == 0 {
        Seq::empty()
    } else {
        let rest = unused_dds_reports(fs.drop_last(), used);
        if is_unused_dds(fs.last(), used) {
            rest.push(rv(ErrorKey::UnusedFile, Severity::Untidy, "Unused DDS files"@, entry_loc(fs.last())))
        } else {
            rest
        }
    }
}

/// Computes whether `p` is one of the paths named in `list`.
fn path_listed(list: &[&str], p: &Vec<Vec<char>>) -> (r: bool)
    ensures
        r == strs_paths(list@).contains(comps_view(p@)),
{
    let ghost ps = strs_paths(list@);
    let mut k: usize = 0;
    while k < list.len()
        invariant
            k <= list@.len(),
            ps == strs_paths(list@),
            forall|j: int| 0 <= j < k ==> ps[j] != comps_view(p@),
        decreases list@.len() - k,
    {
        let q = path_from_str(list[k]);
        proof {
            lemma_path_order_zero(comps_view(q@), comps_view(p@));
        }
        if compare_paths(&q, p) == 0 {
            assert(ps[k as int] == comps_view(p@));
            return true;
        }
        k = k + 1;
    }
    false
}

/// Computes whether `p` lies below one of the paths named in `list`.
fn path_under_listed(list: &[&str], p: &Vec<Vec<char>>) -> (r: bool)
    ensures
        r == under_any(comps_view(p@), strs_paths(list@)),
{
    let ghost ps = strs_paths(list@);
    let mut k: usize = 0;
    while k < list.len()
        invariant
            k <= list@.len(),
            ps == strs_paths(list@),
            forall|j: int| 0 <= j < k ==> !path_starts_with(comps_view(p@), #[trigger] ps[j]),
        decreases list@.len() - k,
    {
        let q = path_from_str(list[k]);
        if starts_with_path(p, &q) {
            assert(path_starts_with(comps_view(p@), ps[k as int]));
            return true;
        }
        k = k + 1;
    }
    false
}

/// Computes whether `d` is one of the paths in `w`.
fn path_in(w: &Vec<Vec<Vec<char>>>, d: &Vec<Vec<char>>) -> (r: bool)
    ensures
        r == w@.map_values(|x: Vec<Vec<char>>| comps_view(x@)).contains(comps_view(d@)),
{
    let ghost ws = w@.map_values(|x: Vec<Vec<char>>| comps_view(x@));
    let mut k: usize = 0;
    while k < w.len()
        invariant
            k <= w@.len(),
            ws == w@.map_values(|x: Vec<Vec<char>>| comps_view(x@)),
            forall|j: int| 0 <= j < k ==> ws[j] != comps_view(d@),
        decreases w@.len() - k,
    {
        proof {
            lemma_path_order_zero(comps_view(w@[k as int]@), comps_view(d@));
        }
        if compare_paths(&w[k], d) == 0 {
            assert(ws[k as int] == comps_view(d@));
            return true;
        }
        k = k + 1;
    }
    false
}

/// A copy of the components of a path.
fn copy_path(p: &Vec<Vec<char>>) -> (r: Vec<Vec<char>>)
    ensures
        comps_view(r@) == comps_view(p@),
{
    let mut r: Vec<Vec<char>> = Vec::new();
    let mut i: usize = 0;
    while i < p.len()
        invariant
            i <= p@.len(),
            comps_view(r@) == comps_view(p@).take(i as int),
        decreases p@.len() - i,
    {
        let c = crate::text::copy_chars(p[i].as_slice());
        let ghost before = r@;
        r.push(c);
        proof {
            crate::pathname::lemma_comps_push(before, c);
        }
        i = i + 1;
        assert(comps_view(r@) =~= comps_view(p@).take(i as int));
    }
    assert(comps_view(p@).take(p@.len() as int) =~= comps_view(p@));
    r
}

/// The directory of a path: all but its last component.
fn parent_path(p: &Vec<Vec<char>>) -> (r: Vec<Vec<char>>)
    requires
        p@.len() > 0,
    ensures
        comps_view(r@) == comps_view(p@).drop_last(),
{
    let mut r: Vec<Vec<char>> = Vec::new();
    let mut i: usize = 0;
    while i < p.len() - 1
        invariant
            i + 1 <= p@.len(),
            comps_view(r@) == comps_view(p@).take(i as int),
        decreases p@.len() - i,
    {
        let c = crate::text::copy_chars(p[i].as_slice());
        let ghost before = r@;
        r.push(c);
        proof {
            crate::pathname::lemma_comps_push(before, c);
        }
        i = i + 1;
        assert(comps_view(r@) =~= comps_view(p@).take(i as int));
    }
    assert(comps_view(p@).take(i as int) =~= comps_view(p@).drop_last());
    r
}

/// The message characters for [`misplaced_msg`].
fn misplaced_msg_chars(game: Game, p: &Vec<Vec<char>>) -> (r: Vec<char>)
    requires
        p@.len() > 0,
    ensures
        r@ == misplaced_msg(game, comps_view(p@)),
{
    let mut m: Vec<char> = Vec::new();
    if starts_with_path(p, &path_from_str("common/scripted_values")) {
        push_str(&mut m, "file should be in common/script_values/");
    } else if (game.is_ck3() || game.is_imperator()) && starts_with_path(
        p,
        &path_from_str("common/on_actions"),
    ) {
        push_str(&mut m, "file should be in common/on_action/");
    } else if (game.is_vic3() || game.is_hoi4()) && starts_with_path(
        p,
        &path_from_str("common/on_action"),
    ) {
        push_str(&mut m, "file should be in common/on_actions/");
    } else if game.is_vic3() && starts_with_path(p, &path_from_str("common/modifiers")) {
        push_str(&mut m, "file should be in common/static_modifiers since 1.7");
    } else if game.is_ck3() && starts_with_path(p, &path_from_str("common/vassal_contracts")) {
        push_str(
            &mut m,
            "common/vassal_contracts was replaced with common/subject_contracts/contracts/ in 1.16",
        );
    } else {
        push_str(&mut m, "file in unexpected directory `");
        let d = parent_path(p);
        let dt = join_path(&d);
        push_chars(&mut m, dt.as_slice());
        push_str(&mut m, "`");
    }
    assert(m@ =~= misplaced_msg(game, comps_view(p@)));
    m
}

/// A file whose path was marked as used is never reported as an unused
/// `.dds` file: with every path of `fs` marked, nothing is reported.
pub proof fn law_marked_files_not_reported(fs: Seq<FileEntry>, used: Set<Seq<char>>)
    requires
        forall|i: int| 0 <= i < fs.len() ==> used.contains(path_text(#[trigger] fs[i].spec_path())),
    ensures
        unused_dds_reports(fs, used) == Seq::<ReportView>::empty(),
    decreases fs.len(),
{
    if fs.len() > 0 {
        let rest = fs.drop_last();
        assert forall|i: int| 0 <= i < rest.len() implies used.contains(path_text(#[trigger] rest[i].spec_path())) by {
            assert(rest[i] == fs[i]);
        }
        law_marked_files_not_reported(rest, used);
        assert(used.contains(path_text(fs[fs.len() - 1].spec_path())));
    }
}

/// Each directory is reported at most once for misplaced script files: the
/// directories reported are distinct, one per report.
pub proof fn law_each_directory_reported_once(
    game: Game,
    fs: Seq<FileEntry>,
    dirs: Seq<Comps>,
    subdirs: Seq<Comps>,
    files: Seq<Comps>,
)
    ensures
        misplaced_fold(game, fs, dirs, subdirs, files).1.no_duplicates(),
        misplaced_fold(game, fs, dirs, subdirs, files).0.len() == misplaced_fold(
            game,
            fs,
            dirs,
            subdirs,
            files,
        ).1.len(),
    decreases fs.len(),
{
    if fs.len() > 0 {
        law_each_directory_reported_once(game, fs.drop_last(), dirs, subdirs, files);
        let (rs, w) = misplaced_fold(game, fs.drop_last(), dirs, subdirs, files);
        let e = fs.last();
        let d = e.spec_path().drop_last();
        match misplaced_report(game, e.spec_path(), entry_loc(e), w, dirs, subdirs, files) {
            Some(r) => {
                assert(!w.contains(d));
                let w2 = w.push(d);
                assert forall|i: int, j: int| 0 <= i < w2.len() && 0 <= j < w2.len() && i != j implies w2[i] != w2[j] by {
                    if i < w.len() && j < w.len() {
                        assert(w2[i] == w[i] && w2[j] == w[j]);
                    } else if i == w.len() {
                        assert(w2[j] == w[j]);
                        assert(w.contains(w[j]));
                    } else {
                        assert(w2[i] == w[i]);
                        assert(w.contains(w[i]));
                    }
                }
            },
            None => {},
        }
    }
}

/// The files of the game and the mods, in the order the game loads them.
#[derive(Debug)]
pub struct Fileset {
    /// The game being validated.
    game: Game,
    /// The mod being analyzed.
    the_mod: LoadedMod,
    /// Other mods to be loaded before the mod, in order.
    loaded_mods: Vec<LoadedMod>,
    /// DLC directories to be loaded after the base game, in order.
    loaded_dlcs: Vec<LoadedMod>,
    /// The validator's configuration.
    config: Block,
    /// The files, sorted by path, one per path.
    ordered_files: Vec<FileEntry>,
    /// The file name tokens of `ordered_files`, in the same order.
    filename_tokens: Vec<Token>,
    /// File names that have been looked up during validation.
    used: Vec<Vec<char>>,
}

impl Fileset {
    /// The files, in load order.
    pub closed spec fn spec_files(&self) -> Seq<FileEntry> {
        self.ordered_files@
    }

    /// The game being validated.
    pub closed spec fn spec_game(&self) -> Game {
        self.game
    }

    /// The file names that have been marked as used.
    pub closed spec fn spec_used(&self) -> Set<Seq<char>> {
        Set::new(
            |u: Seq<char>| exists|i: int| 0 <= i < self.used@.len() && #[trigger] self.used@[i]@ == u,
        )
    }

    /// The file name tokens, in load order.
    pub closed spec fn spec_keys(&self) -> Seq<Token> {
        self.filename_tokens@
    }

    /// The configuration block.
    pub closed spec fn spec_config(&self) -> Block {
        self.config
    }

    /// The mod being analyzed.
    pub closed spec fn spec_the_mod(&self) -> LoadedMod {
        self.the_mod
    }

    /// The mods loaded before the mod.
    pub closed spec fn spec_loaded_mods(&self) -> Seq<LoadedMod> {
        self.loaded_mods@
    }

    /// The DLCs loaded after the base game.
    pub closed spec fn spec_loaded_dlcs(&self) -> Seq<LoadedMod> {
        self.loaded_dlcs@
    }

    /// The invariant of a file set: files sorted by path, one per path, each
    /// numbered by its place, and one name token for each.
    pub open spec fn wf(&self) -> bool {
        &&& strictly_sorted(self.spec_files())
        &&& self.spec_files().len() < 0xffff_ffff
        &&& self.spec_keys().len() == self.spec_files().len()
        &&& forall|i: int|
            0 <= i < self.spec_files().len() ==> (#[trigger] self.spec_files()[i]).spec_idx() == Some(
                i as u32,
            ) && file_token(self.spec_files()[i], self.spec_keys()[i])
    }

    /// A file set of the given files, which must already be in load order,
    /// one per path. Each file is numbered by its place.
    pub fn new(
        game: Game,
        the_mod: LoadedMod,
        loaded_mods: Vec<LoadedMod>,
        loaded_dlcs: Vec<LoadedMod>,
        config: Block,
        files: Vec<FileEntry>,
    ) -> (r: Fileset)
        requires
            strictly_sorted(files@),
            files@.len() < 0xffff_ffff,
            forall|i: int| 0 <= i < files@.len() ==> (file_name(#[trigger] files@[i].spec_path()) is Some),
        ensures
            r.wf(),
            r.spec_files().len() == files@.len(),
            forall|i: int| 0 <= i < files@.len() ==> same_file(#[trigger] r.spec_files()[i], files@[i]),
            r.spec_game() == game,
            r.spec_config() == config,
            r.spec_the_mod() == the_mod,
            r.spec_loaded_mods() == loaded_mods@,
            r.spec_loaded_dlcs() == loaded_dlcs@,
            r.spec_used() == Set::<Seq<char>>::empty(),
    {
        let numbered = number_entries(files);
        let ghost nf = numbered@;
        assert(strictly_sorted(nf)) by {
            assert forall|i: int, j: int| 0 <= i < j < nf.len() implies path_order(
                #[trigger] nf[i].spec_path(),
                #[trigger] nf[j].spec_path(),
            ) < 0 by {
                assert(same_file(nf[i], files@[i]));
                assert(same_file(nf[j], files@[j]));
            }
        }
        let mut tokens: Vec<Token> = Vec::new();
        let mut i: usize = 0;
        while i < numbered.len()
            invariant
                i <= numbered@.len(),
                nf == numbered@,
                nf.len() == files@.len(),
                tokens@.len() == i,
                forall|k: int| 0 <= k < nf.len() ==> same_file(#[trigger] nf[k], files@[k]),
                forall|k: int| 0 <= k < files@.len() ==> (file_name(#[trigger] files@[k].spec_path()) is Some),
                forall|k: int| 0 <= k < i ==> file_token(#[trigger] nf[k], tokens@[k]),
            decreases nf.len() - i,
        {
            assert(same_file(nf[i as int], files@[i as int]));
            let name = numbered[i].filename();
            let t = Token { s: string_from_chars(name.as_slice()), loc: numbered[i].loc() };
            tokens.push(t);
            i = i + 1;
        }
        let r = Fileset {
            game,
            the_mod,
            loaded_mods,
            loaded_dlcs,
            config,
            ordered_files: numbered,
            filename_tokens: tokens,
            used: Vec::new(),
        };
        assert(r.spec_used() =~= Set::<Seq<char>>::empty());
        r
    }

    /// The game being validated.
    pub fn game(&self) -> (r: Game)
        ensures
            r == self.spec_game(),
    {
        self.game
    }

    /// The validator's configuration.
    pub fn config(&self) -> (r: &Block)
        ensures
            *r == self.spec_config(),
    {
        &self.config
    }

    /// The mod being analyzed.
    pub fn the_mod(&self) -> (r: &LoadedMod)
        ensures
            *r == self.spec_the_mod(),
    {
        &self.the_mod
    }

    /// The mods loaded before the mod, in order.
    pub fn loaded_mods(&self) -> (r: &Vec<LoadedMod>)
        ensures
            r@ == self.spec_loaded_mods(),
    {
        &self.loaded_mods
    }

    /// The DLC directories loaded after the base game, in order.
    pub fn loaded_dlcs(&self) -> (r: &Vec<LoadedMod>)
        ensures
            r@ == self.spec_loaded_dlcs(),
    {
        &self.loaded_dlcs
    }

    /// The files, in load order.
    pub fn files(&self) -> (r: &Vec<FileEntry>)
        ensures
            r@ == self.spec_files(),
    {
        &self.ordered_files
    }

    /// The place of the first file whose path is not below `p`.
    fn lower_bound(&self, p: &Vec<Vec<char>>) -> (r: usize)
        requires
            strictly_sorted(self.spec_files()),
        ensures
            r <= self.spec_files().len(),
            forall|i: int| 0 <= i < r ==> path_order(#[trigger] self.spec_files()[i].spec_path(), comps_view(p@)) < 0,
            forall|i: int|
                r <= i < self.spec_files().len() ==> path_order(
                    #[trigger] self.spec_files()[i].spec_path(),
                    comps_view(p@),
                ) >= 0,
    {
        let ghost files = self.spec_files();
        let ghost pp = comps_view(p@);
        let mut lo: usize = 0;
        let mut hi: usize = self.ordered_files.len();
        while lo < hi
            invariant
                lo <= hi <= files.len(),
                files == self.spec_files(),
                pp == comps_view(p@),
                strictly_sorted(files),
                forall|i: int| 0 <= i < lo ==> path_order(#[trigger] files[i].spec_path(), pp) < 0,
                forall|i: int| hi <= i < files.len() ==> path_order(#[trigger] files[i].spec_path(), pp) >= 0,
            decreases hi - lo,
        {
            let mid = lo + (hi - lo) / 2;
            if compare_paths(&self.ordered_files[mid].path, p) < 0 {
                proof {
                    assert forall|i: int| 0 <= i <= mid implies path_order(
                        #[trigger] files[i].spec_path(),
                        pp,
                    ) < 0 by {
                        lemma_below_before(files, i, mid as int, pp);
                    }
                }
                lo = mid + 1;
            } else {
                proof {
                    assert forall|i: int| mid <= i < files.len() implies path_order(
                        #[trigger] files[i].spec_path(),
                        pp,
                    ) >= 0 by {
                        lemma_not_below_after(files, mid as int, i, pp);
                    }
                }
                hi = mid;
            }
        }
        lo
    }

    /// The files below the directory `subpath`, in load order.
    pub fn get_files_under(&self, subpath: &str) -> (r: &[FileEntry])
        requires
            self.wf(),
        ensures
            exists|start: int, end: int|
                #[trigger] under_range(self.spec_files(), path_of(subpath@), start, end) && r@
                    == self.spec_files().subrange(start, end),
    {
        let ghost files = self.spec_files();
        let sub = path_from_str(subpath);
        let ghost pp = comps_view(sub@);
        let start = self.lower_bound(&sub);
        let mut lo: usize = start;
        let mut hi: usize = self.ordered_files.len();
        while lo < hi
            invariant
                start <= lo <= hi <= files.len(),
                files == self.spec_files(),
                pp == comps_view(sub@),
                strictly_sorted(files),
                forall|i: int| 0 <= i < start ==> path_order(#[trigger] files[i].spec_path(), pp) < 0,
                forall|i: int| start <= i < files.len() ==> path_order(#[trigger] files[i].spec_path(), pp) >= 0,
                forall|i: int| start <= i < lo ==> path_starts_with(#[trigger] files[i].spec_path(), pp),
                forall|i: int| hi <= i < files.len() ==> !path_starts_with(#[trigger] files[i].spec_path(), pp),
            decreases hi - lo,
        {
            let mid = lo + (hi - lo) / 2;
            if starts_with_path(&self.ordered_files[mid].path, &sub) {
                proof {
                    assert forall|i: int| start <= i <= mid implies path_starts_with(
                        #[trigger] files[i].spec_path(),
                        pp,
                    ) by {
                        lemma_under_between(files, i, mid as int, pp);
                    }
                }
                lo = mid + 1;
            } else {
                proof {
                    assert forall|i: int| mid <= i < files.len() implies !path_starts_with(
                        #[trigger] files[i].spec_path(),
                        pp,
                    ) by {
                        if path_starts_with(files[i].spec_path(), pp) {
                            lemma_under_between(files, mid as int, i, pp);
                        }
                    }
                }
                hi = mid;
            }
        }
        proof {
            assert forall|i: int| 0 <= i < files.len() implies (path_starts_with(
                #[trigger] files[i].spec_path(),
                pp,
            ) <==> start <= i < lo) by {
                if i < start {
                    lemma_below_not_under(files[i].spec_path(), pp);
                }
            }
            assert(under_range(files, pp, start as int, lo as int));
        }
        vstd::slice::slice_subrange(self.ordered_files.as_slice(), start, lo)
    }

    /// The place of the file with path `p`, if there is one.
    fn find(&self, p: &Vec<Vec<char>>) -> (r: Option<usize>)
        requires
            strictly_sorted(self.spec_files()),
        ensures
            match r {
                Some(i) => i < self.spec_files().len() && self.spec_files()[i as int].spec_path()
                    == comps_view(p@),
                None => !has_path(self.spec_files(), comps_view(p@)),
            },
    {
        let ghost files = self.spec_files();
        let ghost pp = comps_view(p@);
        let lb = self.lower_bound(p);
        if lb < self.ordered_files.len() && compare_paths(&self.ordered_files[lb].path, p) == 0 {
            proof {
                lemma_path_order_zero(files[lb as int].spec_path(), pp);
            }
            Some(lb)
        } else {
            proof {
                assert forall|i: int| 0 <= i < files.len() implies #[trigger] files[i].spec_path()
                    != pp by {
                    lemma_path_order_zero(files[i].spec_path(), pp);
                    if i > lb {
                        lemma_path_order_zero(files[lb as int].spec_path(), pp);
                        if files[i].spec_path() == pp {
                            assert(path_order(files[lb as int].spec_path(), files[i].spec_path()) < 0);
                        }
                    }
                }
            }
            None
        }
    }

    /// The path looked up for `key`.
    fn key_path(&self, key: &str) -> (r: Vec<Vec<char>>)
        ensures
            comps_view(r@) == lookup_path(self.spec_game(), key@),
    {
        let cs = str_chars(key);
        let k = strip_slash_chars(cs.as_slice());
        if self.game.is_hoi4() && contains_char(k.as_slice(), '\\') {
            let fixed = replace_char_chars(k.as_slice(), '\\', '/');
            path_from_str(string_from_chars(fixed.as_slice()).as_str())
        } else {
            path_from_str(string_from_chars(k.as_slice()).as_str())
        }
    }

    /// The file named `key`, if there is one; a leading `/` is ignored.
    pub fn entry(&self, key: &str) -> (r: Option<&FileEntry>)
        requires
            self.wf(),
        ensures
            match r {
                Some(e) => self.spec_files().contains(*e) && e.spec_path() == lookup_path(
                    self.spec_game(),
                    key@,
                ),
                None => !has_path(self.spec_files(), lookup_path(self.spec_game(), key@)),
            },
    {
        let p = self.key_path(key);
        match self.find(&p) {
            Some(i) => {
                assert(self.spec_files()[i as int] == self.spec_files()[i as int]);
                Some(&self.ordered_files[i])
            },
            None => None,
        }
    }

    /// Whether a file named `key` exists.
    pub fn file_exists(&self, key: &str) -> (r: bool)
        requires
            self.wf(),
        ensures
            r == has_path(self.spec_files(), lookup_path(self.spec_game(), key@)),
    {
        let p = self.key_path(key);
        self.find(&p).is_some()
    }

    /// The file name tokens, in load order.
    pub fn iter_keys(&self) -> (r: &Vec<Token>)
        ensures
            r@ == self.spec_keys(),
    {
        &self.filename_tokens
    }

    /// Records that the file name `file` was looked up.
    fn mark_used_chars(&mut self, file: &[char])
        ensures
            final(self).spec_used() == old(self).spec_used().insert(strip_slash(file@)),
            final(self).spec_files() == old(self).spec_files(),
            final(self).spec_keys() == old(self).spec_keys(),
            final(self).spec_game() == old(self).spec_game(),
            final(self).spec_config() == old(self).spec_config(),
    {
        let k = strip_slash_chars(file);
        let ghost before = self.used@;
        self.used.push(k);
        proof {
            let u = strip_slash(file@);
            assert(self.used@[before.len() as int]@ == u);
            assert forall|x: Seq<char>| #[trigger] self.spec_used().contains(x) <==> old(self).spec_used().insert(u).contains(x) by {
                if old(self).spec_used().contains(x) {
                    let j = choose|j: int| 0 <= j < before.len() && #[trigger] before[j]@ == x;
                    assert(self.used@[j]@ == x);
                }
                if self.spec_used().contains(x) && x != u {
                    let j = choose|j: int| 0 <= j < self.used@.len() && #[trigger] self.used@[j]@ == x;
                    assert(j < before.len());
                    assert(before[j]@ == x);
                }
            }
            assert(final(self).spec_used() =~= old(self).spec_used().insert(u));
        }
    }

    /// Records that the file name `file` was looked up; a leading `/` is
    /// ignored.
    pub fn mark_used(&mut self, file: &str)
        ensures
            final(self).spec_used() == old(self).spec_used().insert(strip_slash(file@)),
            final(self).spec_files() == old(self).spec_files(),
            final(self).spec_keys() == old(self).spec_keys(),
            final(self).spec_game() == old(self).spec_game(),
            final(self).spec_config() == old(self).spec_config(),
    {
        let cs = str_chars(file);
        self.mark_used_chars(cs.as_slice());
    }

    /// Whether `key` names a file, or a directory with a file below it; a
    /// leading `/` is ignored.
    pub fn entry_exists(&self, key: &str) -> (r: bool)
        requires
            self.wf(),
            !has_path(self.spec_files(), lookup_path(self.spec_game(), key@)) ==> (!has_path(
                self.spec_files(),
                path_of(strip_slash(key@)),
            ) && has_path_not_below(self.spec_files(), path_of(strip_slash(key@)))),
        ensures
            r == (has_path(self.spec_files(), lookup_path(self.spec_game(), key@)) || has_path_under(
                self.spec_files(),
                path_of(strip_slash(key@)),
            )),
    {
        let ghost files = self.spec_files();
        if self.file_exists(key) {
            return true;
        }
        let cs = str_chars(key);
        let dir = strip_slash_chars(cs.as_slice());
        let dirpath = path_from_str(string_from_chars(dir.as_slice()).as_str());
        let ghost dp = comps_view(dirpath@);
        let idx = self.lower_bound(&dirpath);
        proof {
            if idx == files.len() {
                let w = choose|i: int| 0 <= i < files.len() && path_order(#[trigger] files[i].spec_path(), dp) >= 0;
                assert(path_order(files[w].spec_path(), dp) < 0);
            }
        }
        let r = starts_with_path(&self.ordered_files[idx].path, &dirpath);
        proof {
            if !r {
                assert forall|i: int| 0 <= i < files.len() implies !path_starts_with(
                    #[trigger] files[i].spec_path(),
                    dp,
                ) by {
                    if i < idx {
                        lemma_below_not_under(files[i].spec_path(), dp);
                    } else if path_starts_with(files[i].spec_path(), dp) {
                        lemma_under_between(files, idx as int, i, dp);
                    }
                }
            }
        }
        r
    }

    /// Reports that the file or directory `entry`, referred to at `token`,
    /// does not exist, with a severity of at most `max_sev`; the name is
    /// marked as used, with each `//` read as `/`.
    pub fn verify_entry_exists(&mut self, entry: &str, token: &Token, max_sev: Severity) -> (r: Vec<
        Report,
    >)
        requires
            old(self).wf(),
            !has_path(old(self).spec_files(), lookup_path(old(self).spec_game(), entry@)) ==> (
            !has_path(old(self).spec_files(), path_of(strip_slash(entry@))) && has_path_not_below(
                old(self).spec_files(),
                path_of(strip_slash(entry@)),
            )),
        ensures
            final(self).spec_used() == old(self).spec_used().insert(
                strip_slash(collapse_slashes(entry@)),
            ),
            final(self).spec_files() == old(self).spec_files(),
            final(self).spec_keys() == old(self).spec_keys(),
            final(self).spec_game() == old(self).spec_game(),
            final(self).spec_config() == old(self).spec_config(),
            views(r@) == (if has_path(old(self).spec_files(), lookup_path(old(self).spec_game(), entry@))
                || has_path_under(old(self).spec_files(), path_of(strip_slash(entry@))) {
                Seq::empty()
            } else {
                seq![
                    rv(
                        ErrorKey::MissingFile,
                        capped(file_severity(), max_sev),
                        "file or directory "@ + entry@ + " does not exist"@,
                        token.loc,
                    ),
                ]
            }),
    {
        let cs = str_chars(entry);
        let fixed = collapse_slashes_chars(cs.as_slice());
        self.mark_used_chars(fixed.as_slice());
        let mut r: Vec<Report> = Vec::new();
        if !self.entry_exists(entry) {
            let mut m: Vec<char> = Vec::new();
            push_str(&mut m, "file or directory ");
            push_chars(&mut m, cs.as_slice());
            push_str(&mut m, " does not exist");
            let rep = make_report(ErrorKey::MissingFile, Severity::Error.at_most(max_sev), m.as_slice(), token.loc);
            r.push(rep);
            assert(views(r@) =~= seq![rep@]);
        } else {
            assert(views(r@) =~= Seq::<ReportView>::empty());
        }
        r
    }

    /// Reports that the file named by `file` does not exist; the name is
    /// marked as used, with each `//` read as `/`.
    pub fn verify_exists(&mut self, file: &Token) -> (r: Vec<Report>)
        requires
            old(self).wf(),
        ensures
            final(self).spec_used() == old(self).spec_used().insert(
                strip_slash(collapse_slashes(file.s@)),
            ),
            final(self).spec_files() == old(self).spec_files(),
            final(self).spec_keys() == old(self).spec_keys(),
            final(self).spec_game() == old(self).spec_game(),
            final(self).spec_config() == old(self).spec_config(),
            views(r@) == (if has_path(old(self).spec_files(), lookup_path(old(self).spec_game(), file.s@)) {
                Seq::empty()
            } else {
                seq![
                    rv(
                        ErrorKey::MissingFile,
                        file_severity(),
                        "referenced file does not exist"@,
                        file.loc,
                    ),
                ]
            }),
    {
        let cs = str_chars(file.s.as_str());
        let fixed = collapse_slashes_chars(cs.as_slice());
        self.mark_used_chars(fixed.as_slice());
        let mut r: Vec<Report> = Vec::new();
        if !self.file_exists(file.s.as_str()) {
            let rep = report_str(ErrorKey::MissingFile, Severity::Error, "referenced file does not exist", file.loc);
            r.push(rep);
            assert(views(r@) =~= seq![rep@]);
        } else {
            assert(views(r@) =~= Seq::<ReportView>::empty());
        }
        r
    }

    /// The report that the file `file`, implied at `t`, does not exist.
    fn missing_file_report(file: &[char], severity: Severity, loc: Loc) -> (r: Report)
        ensures
            r@ == rv(ErrorKey::MissingFile, severity, "file "@ + file@ + " does not exist"@, loc),
    {
        let mut m: Vec<char> = Vec::new();
        push_str(&mut m, "file ");
        push_chars(&mut m, file);
        push_str(&mut m, " does not exist");
        make_report(ErrorKey::MissingFile, severity, m.as_slice(), loc)
    }

    /// Reports that the file `file`, implied at `t`, does not exist, with a
    /// severity of at most `max_sev`; the name is marked as used, with each
    /// `//` read as `/`.
    pub fn verify_exists_implied(&mut self, file: &str, t: &Token, max_sev: Severity) -> (r: Vec<
        Report,
    >)
        requires
            old(self).wf(),
        ensures
            final(self).spec_used() == old(self).spec_used().insert(
                strip_slash(collapse_slashes(file@)),
            ),
            final(self).spec_files() == old(self).spec_files(),
            final(self).spec_keys() == old(self).spec_keys(),
            final(self).spec_game() == old(self).spec_game(),
            final(self).spec_config() == old(self).spec_config(),
            views(r@) == (if has_path(old(self).spec_files(), lookup_path(old(self).spec_game(), file@)) {
                Seq::empty()
            } else {
                seq![
                    rv(
                        ErrorKey::MissingFile,
                        capped(file_severity(), max_sev),
                        "file "@ + file@ + " does not exist"@,
                        t.loc,
                    ),
                ]
            }),
    {
        let cs = str_chars(file);
        let fixed = collapse_slashes_chars(cs.as_slice());
        self.mark_used_chars(fixed.as_slice());
        let mut r: Vec<Report> = Vec::new();
        if !self.file_exists(file) {
            let rep = Self::missing_file_report(cs.as_slice(), Severity::Error.at_most(max_sev), t.loc);
            r.push(rep);
            assert(views(r@) =~= seq![rep@]);
        } else {
            assert(views(r@) =~= Seq::<ReportView>::empty());
        }
        r
    }

    /// Reports, as fatal, that the file `file`, implied at `t`, does not
    /// exist: the game would crash without it. The name is marked as used,
    /// with each `//` read as `/`.
    pub fn verify_exists_implied_crashes(&mut self, file: &str, t: &Token) -> (r: Vec<Report>)
        requires
            old(self).wf(),
        ensures
            final(self).spec_used() == old(self).spec_used().insert(
                strip_slash(collapse_slashes(file@)),
            ),
            final(self).spec_files() == old(self).spec_files(),
            final(self).spec_keys() == old(self).spec_keys(),
            final(self).spec_game() == old(self).spec_game(),
            final(self).spec_config() == old(self).spec_config(),
            views(r@) == (if has_path(old(self).spec_files(), lookup_path(old(self).spec_game(), file@)) {
                Seq::empty()
            } else {
                seq![
                    rv(
                        ErrorKey::Crash,
                        Severity::Fatal,
                        "file "@ + file@ + " does not exist"@,
                        t.loc,
                    ),
                ]
            }),
    {
        let cs = str_chars(file);
        let fixed = collapse_slashes_chars(cs.as_slice());
        self.mark_used_chars(fixed.as_slice());
        let mut r: Vec<Report> = Vec::new();
        if !self.file_exists(file) {
            let mut m: Vec<char> = Vec::new();
            push_str(&mut m, "file ");
            push_chars(&mut m, cs.as_slice());
            push_str(&mut m, " does not exist");
            let rep = make_report(ErrorKey::Crash, Severity::Fatal, m.as_slice(), t.loc);
            r.push(rep);
            assert(views(r@) =~= seq![rep@]);
        } else {
            assert(views(r@) =~= Seq::<ReportView>::empty());
        }
        r
    }

    /// The report, if any, on the file `e` for [`misplaced_report`].
    fn check_placement(
        &self,
        e: &FileEntry,
        warned: &Vec<Vec<Vec<char>>>,
        common_dirs: &[&str],
        common_subdirs_ok: &[&str],
        common_files: &[&str],
    ) -> (r: Option<Report>)
        requires
            e.spec_path().len() > 0,
        ensures
            match r {
                Some(rep) => misplaced_report(
                    self.spec_game(),
                    e.spec_path(),
                    entry_loc(*e),
                    warned@.map_values(|x: Vec<Vec<char>>| comps_view(x@)),
                    strs_paths(common_dirs@),
                    strs_paths(common_subdirs_ok@),
                    strs_paths(common_files@),
                ) == Some(rep@),
                None => misplaced_report(
                    self.spec_game(),
                    e.spec_path(),
                    entry_loc(*e),
                    warned@.map_values(|x: Vec<Vec<char>>| comps_view(x@)),
                    strs_paths(common_dirs@),
                    strs_paths(common_subdirs_ok@),
                    strs_paths(common_files@),
                ) is None,
            },
    {
        let p = &e.path;
        let text = join_path(p);
        let txt = str_chars(".txt");
        if !ends_with(text.as_slice(), txt.as_slice()) {
            return None;
        }
        proof {
            lemma_path_order_zero(e.spec_path(), path_of("common/achievement_groups.txt"@));
        }
        if compare_paths(p, &path_from_str("common/achievement_groups.txt")) == 0 {
            return None;
        }
        if self.game.is_hoi4() && path_listed(common_files, p) {
            return None;
        }
        let dirname = parent_path(p);
        if path_in(warned, &dirname) {
            return None;
        }
        let common = path_from_str("common");
        if !starts_with_path(p, &common) {
            let mut joined = copy_path(&common);
            let mut i: usize = 0;
            while i < p.len()
                invariant
                    i <= p@.len(),
                    comps_view(joined@) == path_of("common"@) + comps_view(p@).take(i as int),
                decreases p@.len() - i,
            {
                let c = crate::text::copy_chars(p[i].as_slice());
                let ghost before = joined@;
                joined.push(c);
                proof {
                    crate::pathname::lemma_comps_push(before, c);
                }
                i = i + 1;
                assert(comps_view(joined@) =~= path_of("common"@) + comps_view(p@).take(i as int));
            }
            assert(comps_view(p@).take(p@.len() as int) =~= comps_view(p@));
            if path_under_listed(common_dirs, &joined) {
                let dt = join_path(&dirname);
                let mut m: Vec<char> = Vec::new();
                push_str(&mut m, "file in unexpected directory ");
                push_chars(&mut m, dt.as_slice());
                let mut info: Vec<char> = Vec::new();
                push_str(&mut info, "did you mean common/");
                push_chars(&mut info, dt.as_slice());
                push_str(&mut info, " ?");
                return Some(
                    make_report_info(ErrorKey::Filename, Severity::Error, m.as_slice(), info.as_slice(), e.loc()),
                );
            }
            return None;
        }
        if path_under_listed(common_subdirs_ok, p) {
            return None;
        }
        if path_listed(common_dirs, &dirname) {
            return None;
        }
        let m = misplaced_msg_chars(self.game, p);
        Some(make_report(ErrorKey::Filename, Severity::Error, m.as_slice(), e.loc()))
    }

    /// Reports the script files that lie outside the directories the game
    /// reads: `common_dirs` are the game's directories below `common/`,
    /// `common_subdirs_ok` the directories below them that may hold files,
    /// and `common_files` the single files the game reads (Hearts of Iron 4).
    /// Each directory is reported once.
    pub fn validate(
        &self,
        common_dirs: &[&str],
        common_subdirs_ok: &[&str],
        common_files: &[&str],
    ) -> (r: Vec<Report>)
        requires
            self.wf(),
        ensures
            views(r@) == misplaced_fold(
                self.spec_game(),
                self.spec_files(),
                strs_paths(common_dirs@),
                strs_paths(common_subdirs_ok@),
                strs_paths(common_files@),
            ).0,
    {
        let ghost files = self.spec_files();
        let ghost dirs = strs_paths(common_dirs@);
        let ghost subdirs = strs_paths(common_subdirs_ok@);
        let ghost cfiles = strs_paths(common_files@);
        let mut warned: Vec<Vec<Vec<char>>> = Vec::new();
        let mut r: Vec<Report> = Vec::new();
        let mut i: usize = 0;
        while i < self.ordered_files.len()
            invariant
                i <= files.len(),
                files == self.spec_files(),
                self.wf(),
                dirs == strs_paths(common_dirs@),
                subdirs == strs_paths(common_subdirs_ok@),
                cfiles == strs_paths(common_files@),
                views(r@) == misplaced_fold(self.spec_game(), files.take(i as int), dirs, subdirs, cfiles).0,
                warned@.map_values(|x: Vec<Vec<char>>| comps_view(x@)) == misplaced_fold(
                    self.spec_game(),
                    files.take(i as int),
                    dirs,
                    subdirs,
                    cfiles,
                ).1,
            decreases files.len() - i,
        {
            let e = &self.ordered_files[i];
            proof {
                assert(file_token(files[i as int], self.spec_keys()[i as int]));
                assert(files.take(i + 1).drop_last() =~= files.take(i as int));
                assert(files.take(i + 1).last() == files[i as int]);
            }
            match self.check_placement(e, &warned, common_dirs, common_subdirs_ok, common_files) {
                Some(rep) => {
                    let ghost rs = r@;
                    r.push(rep);
                    let d = parent_path(&e.path);
                    let ghost ws = warned@;
                    warned.push(d);
                    proof {
                        assert(views(r@) =~= views(rs).push(rep@));
                        assert(warned@.map_values(|x: Vec<Vec<char>>| comps_view(x@)) =~= ws.map_values(
                            |x: Vec<Vec<char>>| comps_view(x@),
                        ).push(files[i as int].spec_path().drop_last()));
                    }
                },
                None => {},
            }
            i = i + 1;
        }
        assert(files.take(files.len() as int) =~= files);
        r
    }

    /// Reports the `.dds` files, outside the loading screens, that were never
    /// looked up.
    pub fn check_unused_dds(&self) -> (r: Vec<Report>)
        requires
            self.wf(),
        ensures
            views(r@) == unused_dds_reports(self.spec_files(), self.spec_used()),
    {
        let ghost files = self.spec_files();
        let dds = str_chars("dds");
        let screens = path_from_str("gfx/interface/illustrations/loading_screens");
        let mut r: Vec<Report> = Vec::new();
        let mut i: usize = 0;
        while i < self.ordered_files.len()
            invariant
                i <= files.len(),
                files == self.spec_files(),
                dds@ == "dds"@,
                comps_view(screens@) == path_of("gfx/interface/illustrations/loading_screens"@),
                views(r@) == unused_dds_reports(files.take(i as int), self.spec_used()),
            decreases files.len() - i,
        {
            let e = &self.ordered_files[i];
            proof {
                assert(files.take(i + 1).drop_last() =~= files.take(i as int));
                assert(files.take(i + 1).last() == files[i as int]);
            }
            let is_dds = match extension_of_path(&e.path) {
                Some(x) => lower_eq(x.as_slice(), dds.as_slice()),
                None => false,
            };
            if is_dds && !starts_with_path(&e.path, &screens) {
                let text = join_path(&e.path);
                if !self.is_used(text.as_slice()) {
                    let ghost rs = r@;
                    let rep = report_str(ErrorKey::UnusedFile, Severity::Untidy, "Unused DDS files", e.loc());
                    r.push(rep);
                    assert(views(r@) =~= views(rs).push(rep@));
                }
            }
            i = i + 1;
        }
        assert(files.take(files.len() as int) =~= files);
        r
    }

    /// Whether the file name `name` was marked as used.
    fn is_used(&self, name: &[char]) -> (r: bool)
        ensures
            r == self.spec_used().contains(name@),
    {
        let mut k: usize = 0;
        while k < self.used.len()
            invariant
                k <= self.used@.len(),
                forall|j: int| 0 <= j < k ==> (#[trigger] self.used@[j])@ != name@,
            decreases self.used@.len() - k,
        {
            if crate::text::chars_eq(self.used[k].as_slice(), name) {
                assert(self.used@[k as int]@ == name@);
                return true;
            }
            k = k + 1;
        }
        false
    }
}

/// Gives each file its place in `files` as its index.
fn number_entries(files: Vec<FileEntry>) -> (r: Vec<FileEntry>)
    requires
        files@.len() < 0xffff_ffff,
    ensures
        r@.len() == files@.len(),
        forall|i: int|
            0 <= i < files@.len() ==> same_file(#[trigger] r@[i], files@[i]) && r@[i].spec_idx() == Some(
                i as u32,
            ),
{
    let ghost orig = files@;
    let n = files.len();
    let mut files = files;
    let mut rev: Vec<FileEntry> = Vec::new();
    while files.len() > 0
        invariant
            files@ == orig.take(files@.len() as int),
            rev@.len() + files@.len() == orig.len(),
            n == orig.len(),
            forall|k: int| 0 <= k < rev@.len() ==> #[trigger] rev@[k] == orig[n - 1 - k],
        decreases files@.len(),
    {
        let e = files.pop().unwrap();
        rev.push(e);
        assert(files@ =~= orig.take(files@.len() as int));
    }
    let mut out: Vec<FileEntry> = Vec::new();
    while rev.len() > 0
        invariant
            out@.len() + rev@.len() == n,
            n == orig.len(),
            n < 0xffff_ffff,
            forall|k: int| 0 <= k < rev@.len() ==> #[trigger] rev@[k] == orig[n - 1 - k],
            forall|i: int|
                0 <= i < out@.len() ==> same_file(#[trigger] out@[i], orig[i]) && out@[i].spec_idx()
                    == Some(i as u32),
        decreases rev@.len(),
    {
        let mut e = rev.pop().unwrap();
        let idx = out.len() as u32;
        e.set_path_idx(idx);
        out.push(e);
    }
    out
}

} // verus!
