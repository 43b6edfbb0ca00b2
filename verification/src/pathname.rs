//! Relative path names as sequences of components, ordered component by
//! component as `std::path::Path` orders them.

use vstd::prelude::*;

use crate::text::{chars_eq, split_chars, split_seq, str_chars};

verus! {

/// A path name as its components.
pub type Comps = Seq<Seq<char>>;

/// Compares two character sequences lexicographically by code point:
/// -1, 0 or 1.
pub open spec fn chars_order(a: Seq<char>, b: Seq<char>) -> int
    decreases a.len(),
{
    if a.len() == 0 {
        if b.len() == 0 {
            0
        } else {
            -1
        }
    } else if b.len() == 0 {
        1
    } else if a[0] < b[0] {
        -1
    } else if a[0] > b[0] {
        1
    } else {
        chars_order(a.drop_first(), b.drop_first())
    }
}

/// The kind of a component, in the order of kinds: the root `/`, the
/// current directory `.`, the parent directory `..`, then names.
pub open spec fn comp_rank(c: Seq<char>) -> int {
    if c == seq!['/'] {
        0
    } else if c == seq!['.'] {
        1
    } else if c == seq!['.', '.'] {
        2
    } else {
        3
    }
}

/// Compares two components as `std::path::Component` orders them: by kind,
/// and names by code point: -1, 0 or 1.
pub open spec fn comp_order(a: Seq<char>, b: Seq<char>) -> int {
    if comp_rank(a) < comp_rank(b) {
        -1
    } else if comp_rank(a) > comp_rank(b) {
        1
    } else if comp_rank(a) == 3 {
        chars_order(a, b)
    } else {
        0
    }
}

/// Compares two paths component by component: -1, 0 or 1.
pub open spec fn path_order(a: Comps, b: Comps) -> int
    decreases a.len(),
{
    if a.len() == 0 {
        if b.len() == 0 {
            0
        } else {
            -1
        }
    } else if b.len() == 0 {
        1
    } else if comp_order(a[0], b[0]) != 0 {
        comp_order(a[0], b[0])
    } else {
        path_order(a.drop_first(), b.drop_first())
    }
}

/// Whether `p` lies below (or is) `prefix`.
pub open spec fn path_starts_with(p: Comps, prefix: Comps) -> bool {
    prefix.len() <= p.len() && p.take(prefix.len() as int) == prefix
}

/// The components that open a path: the root `/` of a path that starts
/// with `/`, else the current directory `.` of a path that starts with `./`
/// or is `.`.
pub open spec fn path_prefix(s: Seq<char>) -> Comps {
    if s.len() > 0 && s[0] == '/' {
        seq![seq!['/']]
    } else if s == seq!['.'] || (s.len() >= 2 && s[0] == '.' && s[1] == '/') {
        seq![seq!['.']]
    } else {
        Seq::empty()
    }
}

/// The components of a path written with `/` separators, as
/// `Path::components` gives them: the opening root or current directory,
/// then the pieces between separators, where empty pieces and `.` are
/// dropped.
pub open spec fn path_of(s: Seq<char>) -> Comps {
    path_prefix(s) + split_seq(s, '/').filter(|c: Seq<char>| c.len() > 0 && c != seq!['.'])
}

/// The final component, when it is a name: not for an empty path, nor for
/// one that ends in the root, `.` or `..`.
pub open spec fn file_name(p: Comps) -> Option<Seq<char>> {
    if p.len() == 0 || comp_rank(p.last()) < 3 {
        None
    } else {
        Some(p.last())
    }
}

/// The index of the last `.` in `s`, or -1.
pub open spec fn last_dot(s: Seq<char>) -> int
    decreases s.len(),
{
    if s.len() == 0 {
        -1
    } else if s.last() == '.' {
        s.len() - 1
    } else {
        last_dot(s.drop_last())
    }
}

/// The extension of a file name as `Path::extension` gives it: what follows
/// the last `.`, unless there is none or the only one starts the name.
pub open spec fn extension_of(name: Seq<char>) -> Option<Seq<char>> {
    let k = last_dot(name);
    if k <= 0 {
        None
    } else {
        Some(name.skip(k + 1))
    }
}

/// The extension of a path's file name.
pub open spec fn path_extension(p: Comps) -> Option<Seq<char>> {
    match file_name(p) {
        Some(n) => extension_of(n),
        None => None,
    }
}

proof fn lemma_last_dot_range(s: Seq<char>)
    ensures
        -1 <= last_dot(s) < s.len(),
    decreases s.len(),
{
    if s.len() > 0 {
        lemma_last_dot_range(s.drop_last());
    }
}

/// Computes [`last_dot`].
pub fn find_last_dot(s: &[char]) -> (r: Option<usize>)
    ensures
        match r {
            Some(k) => k as int == last_dot(s@),
            None => last_dot(s@) == -1,
        },
{
    let mut i = s.len();
    assert(s@.take(i as int) =~= s@);
    while i > 0
        invariant
            i <= s@.len(),
            last_dot(s@) == last_dot(s@.take(i as int)),
        decreases i,
    {
        let ghost t = s@.take(i as int);
        assert(t.drop_last() =~= s@.take(i - 1));
        if s[i - 1] == '.' {
            return Some(i - 1);
        }
        i = i - 1;
    }
    None
}

/// Computes [`path_extension`].
pub fn extension_of_path(p: &Vec<Vec<char>>) -> (r: Option<Vec<char>>)
    ensures
        match r {
            Some(x) => path_extension(comps_view(p@)) == Some(x@),
            None => path_extension(comps_view(p@)) is None,
        },
{
    let n = p.len();
    if n == 0 {
        return None;
    }
    let last = &p[n - 1];
    assert(comps_view(p@).last() == last@);
    if comp_rank_of(last.as_slice()) < 3 {
        return None;
    }
    proof {
        lemma_last_dot_range(last@);
    }
    match find_last_dot(last.as_slice()) {
        Some(k) => {
            if k == 0 {
                None
            } else {
                assert(k < last.len());
                Some(crate::text::sub_chars(last.as_slice(), k + 1, last.len()))
            }
        },
        None => None,
    }
}

/// The views of a vector of component vectors.
pub open spec fn comps_view(v: Seq<Vec<char>>) -> Comps {
    v.map_values(|c: Vec<char>| c@)
}

/// The view of a vector of components after a push.
pub proof fn lemma_comps_push(v: Seq<Vec<char>>, x: Vec<char>)
    ensures
        comps_view(v.push(x)) == comps_view(v).push(x@),
{
    assert(comps_view(v.push(x)) =~= comps_view(v).push(x@));
}

proof fn lemma_chars_order_refl(a: Seq<char>)
    ensures
        chars_order(a, a) == 0,
    decreases a.len(),
{
    if a.len() > 0 {
        lemma_chars_order_refl(a.drop_first());
    }
}

proof fn lemma_chars_order_zero(a: Seq<char>, b: Seq<char>)
    ensures
        chars_order(a, b) == 0 <==> a == b,
        -1 <= chars_order(a, b) <= 1,
    decreases a.len(),
{
    if a.len() > 0 && b.len() > 0 {
        lemma_chars_order_zero(a.drop_first(), b.drop_first());
        if a[0] == b[0] && a.drop_first() == b.drop_first() {
            assert(a =~= seq![a[0]] + a.drop_first());
            assert(b =~= seq![b[0]] + b.drop_first());
        }
        if a == b {
            assert(a.drop_first() == b.drop_first());
        }
    }
    if a.len() == 0 && b.len() == 0 {
        assert(a =~= b);
    }
}

proof fn lemma_chars_order_antisym(a: Seq<char>, b: Seq<char>)
    ensures
        chars_order(a, b) == -chars_order(b, a),
    decreases a.len(),
{
    if a.len() > 0 && b.len() > 0 {
        lemma_chars_order_antisym(a.drop_first(), b.drop_first());
    }
}

proof fn lemma_chars_order_trans(a: Seq<char>, b: Seq<char>, c: Seq<char>)
    requires
        chars_order(a, b) <= 0,
        chars_order(b, c) <= 0,
    ensures
        chars_order(a, c) <= 0,
        chars_order(a, b) < 0 || chars_order(b, c) < 0 ==> chars_order(a, c) < 0,
    decreases a.len(),
{
    lemma_chars_order_zero(a, b);
    lemma_chars_order_zero(b, c);
    lemma_chars_order_zero(a, c);
    if a.len() > 0 && b.len() > 0 && c.len() > 0 {
        if a[0] == b[0] && b[0] == c[0] {
            lemma_chars_order_trans(a.drop_first(), b.drop_first(), c.drop_first());
        }
    }
}

proof fn lemma_comp_order_refl(a: Seq<char>)
    ensures
        comp_order(a, a) == 0,
{
    lemma_chars_order_refl(a);
}

proof fn lemma_comp_order_zero(a: Seq<char>, b: Seq<char>)
    ensures
        comp_order(a, b) == 0 <==> a == b,
        -1 <= comp_order(a, b) <= 1,
{
    lemma_chars_order_zero(a, b);
}

proof fn lemma_comp_order_antisym(a: Seq<char>, b: Seq<char>)
    ensures
        comp_order(a, b) == -comp_order(b, a),
{
    lemma_chars_order_antisym(a, b);
}

proof fn lemma_comp_order_trans(a: Seq<char>, b: Seq<char>, c: Seq<char>)
    requires
        comp_order(a, b) <= 0,
        comp_order(b, c) <= 0,
    ensures
        comp_order(a, c) <= 0,
        comp_order(a, b) < 0 || comp_order(b, c) < 0 ==> comp_order(a, c) < 0,
{
    lemma_chars_order_zero(a, b);
    lemma_chars_order_zero(b, c);
    lemma_chars_order_zero(a, c);
    if comp_rank(a) == 3 && comp_rank(b) == 3 && comp_rank(c) == 3 {
        lemma_chars_order_trans(a, b, c);
    }
}

/// `path_order` is an order: zero exactly on equal paths, antisymmetric and
/// transitive.
pub proof fn lemma_path_order_zero(a: Comps, b: Comps)
    ensures
        path_order(a, b) == 0 <==> a == b,
        -1 <= path_order(a, b) <= 1,
    decreases a.len(),
{
    if a.len() > 0 && b.len() > 0 {
        lemma_comp_order_zero(a[0], b[0]);
        lemma_path_order_zero(a.drop_first(), b.drop_first());
        if a[0] == b[0] && a.drop_first() == b.drop_first() {
            assert(a =~= seq![a[0]] + a.drop_first());
            assert(b =~= seq![b[0]] + b.drop_first());
        }
        if a == b {
            assert(a.drop_first() == b.drop_first());
        }
    }
    if a.len() == 0 && b.len() == 0 {
        assert(a =~= b);
    }
}

/// `path_order(a, b)` is the negation of `path_order(b, a)`.
pub proof fn lemma_path_order_antisym(a: Comps, b: Comps)
    ensures
        path_order(a, b) == -path_order(b, a),
    decreases a.len(),
{
    if a.len() > 0 && b.len() > 0 {
        lemma_comp_order_antisym(a[0], b[0]);
        lemma_path_order_antisym(a.drop_first(), b.drop_first());
    }
}

/// `path_order` is transitive, strictly when either step is strict.
pub proof fn lemma_path_order_trans(a: Comps, b: Comps, c: Comps)
    requires
        path_order(a, b) <= 0,
        path_order(b, c) <= 0,
    ensures
        path_order(a, c) <= 0,
        path_order(a, b) < 0 || path_order(b, c) < 0 ==> path_order(a, c) < 0,
    decreases a.len(),
{
    lemma_path_order_zero(a, b);
    lemma_path_order_zero(b, c);
    lemma_path_order_zero(a, c);
    if a.len() > 0 && b.len() > 0 && c.len() > 0 {
        lemma_comp_order_zero(a[0], b[0]);
        lemma_comp_order_zero(b[0], c[0]);
        lemma_comp_order_zero(a[0], c[0]);
        if comp_order(a[0], b[0]) <= 0 && comp_order(b[0], c[0]) <= 0 {
            lemma_comp_order_trans(a[0], b[0], c[0]);
        }
        if a[0] == b[0] && b[0] == c[0] {
            lemma_path_order_trans(a.drop_first(), b.drop_first(), c.drop_first());
        }
    }
}

/// A path is never below a path that lies below it in order and shares no
/// prefix: the paths that start with `p` lie between any two of them.
pub proof fn lemma_prefix_interval(a: Comps, b: Comps, c: Comps, p: Comps)
    requires
        path_starts_with(a, p),
        path_starts_with(c, p),
        path_order(a, b) <= 0,
        path_order(b, c) <= 0,
    ensures
        path_starts_with(b, p),
    decreases p.len(),
{
    if p.len() == 0 {
        assert(b.take(0) =~= p);
    } else {
        assert(a.take(p.len() as int)[0] == p[0]);
        assert(c.take(p.len() as int)[0] == p[0]);
        let a0 = a[0];
        let c0 = c[0];
        assert(a0 == c0);
        assert(b.len() > 0);
        let b0 = b[0];
        lemma_comp_order_zero(a0, b0);
        lemma_comp_order_zero(b0, c0);
        lemma_comp_order_refl(a0);
        if comp_order(a0, b0) != 0 {
            assert(comp_order(a0, b0) == -1);
            if comp_order(b0, c0) == 0 {
                assert(b0 == c0);
            } else {
                assert(comp_order(b0, c0) == -1);
                lemma_comp_order_trans(a0, b0, c0);
            }
            assert(false);
        }
        assert(a0 == b0);
        assert(comp_order(b0, c0) == 0);
        let pa = a.drop_first();
        let pb = b.drop_first();
        let pc = c.drop_first();
        let pp = p.drop_first();
        assert(path_order(pa, pb) <= 0);
        assert(path_order(pb, pc) <= 0);
        assert(pa.take(pp.len() as int) =~= pp) by {
            assert forall|i: int| 0 <= i < pp.len() implies pa.take(pp.len() as int)[i] == pp[i] by {
                assert(a.take(p.len() as int)[i + 1] == p[i + 1]);
            }
        }
        assert(pc.take(pp.len() as int) =~= pp) by {
            assert forall|i: int| 0 <= i < pp.len() implies pc.take(pp.len() as int)[i] == pp[i] by {
                assert(c.take(p.len() as int)[i + 1] == p[i + 1]);
            }
        }
        lemma_prefix_interval(pa, pb, pc, pp);
        assert(b.take(p.len() as int) =~= p) by {
            assert forall|i: int| 0 <= i < p.len() implies b.take(p.len() as int)[i] == p[i] by {
                if i > 0 {
                    assert(pb.take(pp.len() as int)[i - 1] == pp[i - 1]);
                }
            }
        }
    }
}

/// A path that starts with `p` is not below `p`.
pub proof fn lemma_prefix_not_below(a: Comps, p: Comps)
    requires
        path_starts_with(a, p),
    ensures
        path_order(p, a) <= 0,
    decreases p.len(),
{
    if p.len() > 0 {
        lemma_comp_order_refl(p[0]);
        assert(a[0] == p[0]);
        let pa = a.drop_first();
        let pp = p.drop_first();
        assert(pa.take(pp.len() as int) =~= pp);
        lemma_prefix_not_below(pa, pp);
    }
}

/// Computes [`chars_order`].
pub fn compare_chars(a: &[char], b: &[char]) -> (r: i8)
    ensures
        r as int == chars_order(a@, b@),
{
    let mut i: usize = 0;
    assert(a@.skip(0) =~= a@);
    assert(b@.skip(0) =~= b@);
    while i < a.len() && i < b.len()
        invariant
            i <= a@.len(),
            i <= b@.len(),
            chars_order(a@, b@) == chars_order(a@.skip(i as int), b@.skip(i as int)),
        decreases a@.len() - i,
    {
        let x = a[i];
        let y = b[i];
        assert(a@.skip(i as int)[0] == a@[i as int]);
        assert(b@.skip(i as int)[0] == b@[i as int]);
        if x < y {
            return -1;
        }
        if x > y {
            return 1;
        }
        assert(a@.skip(i as int).drop_first() =~= a@.skip(i + 1));
        assert(b@.skip(i as int).drop_first() =~= b@.skip(i + 1));
        i = i + 1;
    }
    if i < b.len() {
        -1
    } else if i < a.len() {
        1
    } else {
        0
    }
}

/// Computes [`comp_rank`].
fn comp_rank_of(c: &[char]) -> (r: u8)
    ensures
        r as int == comp_rank(c@),
{
    if c.len() == 1 && c[0] == '/' {
        assert(c@ =~= seq!['/']);
        0
    } else if c.len() == 1 && c[0] == '.' {
        assert(c@ =~= seq!['.']);
        assert(c@ != seq!['/']);
        1
    } else if c.len() == 2 && c[0] == '.' && c[1] == '.' {
        assert(c@ =~= seq!['.', '.']);
        2
    } else {
        assert(c@ != seq!['/']) by {
            if c@.len() == 1 {
                assert(c@[0] != seq!['/'][0]);
            }
        }
        assert(c@ != seq!['.']) by {
            if c@.len() == 1 {
                assert(c@[0] != seq!['.'][0]);
            }
        }
        assert(c@ != seq!['.', '.']) by {
            if c@.len() == 2 {
                assert(c@[0] != '.' || c@[1] != '.');
                if c@[0] != '.' {
                    assert(c@[0] != seq!['.', '.'][0]);
                } else {
                    assert(c@[1] != seq!['.', '.'][1]);
                }
            }
        }
        3
    }
}

/// Computes [`comp_order`].
pub fn compare_comps(a: &[char], b: &[char]) -> (r: i8)
    ensures
        r as int == comp_order(a@, b@),
{
    let ra = comp_rank_of(a);
    let rb = comp_rank_of(b);
    if ra < rb {
        -1
    } else if ra > rb {
        1
    } else if ra == 3 {
        compare_chars(a, b)
    } else {
        0
    }
}

/// Computes [`path_order`].
pub fn compare_paths(a: &Vec<Vec<char>>, b: &Vec<Vec<char>>) -> (r: i8)
    ensures
        r as int == path_order(comps_view(a@), comps_view(b@)),
{
    let ghost va = comps_view(a@);
    let ghost vb = comps_view(b@);
    let mut i: usize = 0;
    assert(va.skip(0) =~= va);
    assert(vb.skip(0) =~= vb);
    while i < a.len() && i < b.len()
        invariant
            i <= a@.len(),
            i <= b@.len(),
            va == comps_view(a@),
            vb == comps_view(b@),
            path_order(va, vb) == path_order(va.skip(i as int), vb.skip(i as int)),
        decreases a@.len() - i,
    {
        let c = compare_comps(a[i].as_slice(), b[i].as_slice());
        assert(va.skip(i as int)[0] == a@[i as int]@);
        assert(vb.skip(i as int)[0] == b@[i as int]@);
        if c != 0 {
            return c;
        }
        assert(va.skip(i as int).drop_first() =~= va.skip(i + 1));
        assert(vb.skip(i as int).drop_first() =~= vb.skip(i + 1));
        i = i + 1;
    }
    if i < b.len() {
        -1
    } else if i < a.len() {
        1
    } else {
        0
    }
}

/// Computes [`path_starts_with`].
pub fn starts_with_path(p: &Vec<Vec<char>>, prefix: &Vec<Vec<char>>) -> (r: bool)
    ensures
        r == path_starts_with(comps_view(p@), comps_view(prefix@)),
{
    let ghost vp = comps_view(p@);
    let ghost vq = comps_view(prefix@);
    if prefix.len() > p.len() {
        return false;
    }
    let mut i: usize = 0;
    while i < prefix.len()
        invariant
            prefix@.len() <= p@.len(),
            i <= prefix@.len(),
            vp == comps_view(p@),
            vq == comps_view(prefix@),
            forall|j: int| 0 <= j < i ==> vp[j] == vq[j],
        decreases prefix@.len() - i,
    {
        if !chars_eq(p[i].as_slice(), prefix[i].as_slice()) {
            assert(vp.take(vq.len() as int)[i as int] != vq[i as int]);
            return false;
        }
        i = i + 1;
    }
    assert(vp.take(vq.len() as int) =~= vq);
    true
}

/// The components of the path written `s` with `/` separators.
pub fn path_from_str(s: &str) -> (r: Vec<Vec<char>>)
    ensures
        comps_view(r@) == path_of(s@),
{
    let cs = str_chars(s);
    let pieces = split_chars(cs.as_slice(), '/');
    let ghost sp = split_seq(s@, '/');
    assert(pieces@.map_values(|p: Vec<char>| p@) == sp);
    let ghost f = |c: Seq<char>| c.len() > 0 && c != seq!['.'];
    let mut r: Vec<Vec<char>> = Vec::new();
    let n = cs.len();
    if n > 0 && cs[0] == '/' {
        let mut root: Vec<char> = Vec::new();
        root.push('/');
        r.push(root);
        assert(comps_view(r@) =~= path_prefix(s@));
    } else if (n == 1 && cs[0] == '.') || (n >= 2 && cs[0] == '.' && cs[1] == '/') {
        let mut cur: Vec<char> = Vec::new();
        cur.push('.');
        r.push(cur);
        proof {
            if n == 1 {
                assert(s@ =~= seq!['.']);
            }
        }
        assert(comps_view(r@) =~= path_prefix(s@));
    } else {
        proof {
            if s@ == seq!['.'] {
                assert(cs@[0] == '.');
            }
        }
        assert(comps_view(r@) =~= path_prefix(s@));
    }
    let ghost pre = path_prefix(s@);
    assert(sp.take(0).filter(f) =~= Seq::<Seq<char>>::empty()) by {
        reveal_with_fuel(Seq::<_>::filter, 1);
    }
    assert(comps_view(r@) =~= pre + sp.take(0).filter(f));
    let mut i: usize = 0;
    while i < pieces.len()
        invariant
            i <= pieces@.len(),
            sp == pieces@.map_values(|p: Vec<char>| p@),
            f == (|c: Seq<char>| c.len() > 0 && c != seq!['.']),
            comps_view(r@) == pre + sp.take(i as int).filter(f),
        decreases pieces@.len() - i,
    {
        let piece = &pieces[i];
        proof {
            assert(sp.take(i + 1).drop_last() =~= sp.take(i as int));
            reveal_with_fuel(Seq::<_>::filter, 1);
            assert(sp.take(i + 1).last() == piece@);
        }
        let keep = piece.len() > 0 && !(piece.len() == 1 && piece[0] == '.');
        proof {
            if piece@.len() == 1 {
                assert(piece@ == seq!['.'] <==> piece@[0] == '.') by {
                    if piece@[0] == '.' {
                        assert(piece@ =~= seq!['.']);
                    }
                }
            } else {
                assert(piece@.len() != seq!['.'].len() ==> piece@ != seq!['.']);
            }
        }
        if keep {
            let mut c: Vec<char> = Vec::new();
            let mut k: usize = 0;
            while k < piece.len()
                invariant
                    k <= piece@.len(),
                    c@ == piece@.take(k as int),
                decreases piece@.len() - k,
            {
                c.push(piece[k]);
                k = k + 1;
                assert(c@ =~= piece@.take(k as int));
            }
            assert(piece@.take(piece@.len() as int) =~= piece@);
            let ghost before = r@;
            r.push(c);
            proof {
                lemma_comps_push(before, c);
            }
        }
        proof {
            let tail = sp.take(i as int).filter(f);
            reveal_with_fuel(Seq::<_>::filter, 1);
            assert(sp.take(i + 1).filter(f) == (if f(piece@) {
                tail.push(piece@)
            } else {
                tail
            }));
            if keep {
                assert((pre + tail).push(piece@) =~= pre + tail.push(piece@));
            }
        }
        i = i + 1;
        assert(comps_view(r@) =~= pre + sp.take(i as int).filter(f));
    }
    assert(sp.take(pieces@.len() as int) =~= sp);
    assert(pieces@.len() == sp.len());
    r
}

} // verus!
