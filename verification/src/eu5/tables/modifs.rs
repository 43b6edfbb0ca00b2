//! The modifs of Europa Universalis 5: the things that modifiers modify.

use vstd::prelude::*;

use crate::eu5::modif::ModifKinds;
use crate::text::push_str;
use crate::report::{make_report_info, rvi, views, ErrorKey, Report, ReportView, Severity};
use crate::token::Token;

verus! {

/// The lowercase form of a text, as `str::to_lowercase` gives it.
pub uninterp spec fn lowercase_of(s: Seq<char>) -> Seq<char>;

/// The lowercase form of `s`.
/// Wraps `str::to_lowercase`, whose result depends on the text alone: it is
/// named [`lowercase_of`].
#[verifier::external_body]
pub(crate) fn to_lowercase(s: &str) -> (r: String)
    ensures
        r@ == lowercase_of(s@),
{
    s.to_lowercase()
}

/// The modifs of the game by lowercase name, with their kinds. The game's
/// table is not filled in yet.
pub open spec fn modif_table() -> Seq<(Seq<char>, u32)> {
    Seq::empty()
}

/// Computes [`modif_table`].
fn modifs() -> (r: Vec<(&'static str, ModifKinds)>)
    ensures
        r@.map_values(|e: (&str, ModifKinds)| (e.0@, e.1.bits)) == modif_table(),
{
    let v: Vec<(&'static str, ModifKinds)> = Vec::new();
    assert(v@.map_values(|e: (&str, ModifKinds)| (e.0@, e.1.bits)) =~= modif_table());
    v
}

/// The modifs that were removed, by lowercase name, with an explanation.
/// There are none yet.
pub open spec fn removed_modif_table() -> Seq<(Seq<char>, Seq<char>)> {
    Seq::empty()
}

/// Computes [`removed_modif_table`].
fn removed_modifs() -> (r: Vec<(&'static str, &'static str)>)
    ensures
        r@.map_values(|e: (&str, &str)| (e.0@, e.1@)) == removed_modif_table(),
{
    let v: Vec<(&'static str, &'static str)> = Vec::new();
    assert(v@.map_values(|e: (&str, &str)| (e.0@, e.1@)) =~= removed_modif_table());
    v
}

/// The value of the last entry of `t` under `key`.
pub open spec fn table_lookup<V>(t: Seq<(Seq<char>, V)>, key: Seq<char>) -> Option<V>
    decreases t.len(),
{
    if t.len() == 0 {
        None
    } else if t.last().0 == key {
        Some(t.last().1)
    } else {
        table_lookup(t.drop_last(), key)
    }
}

/// The kinds of the modif `name`, whose lowercase form is `name_lc`, if it
/// is one; a removed modif is reported with severity `warn`, if given.
pub open spec fn engine_modif(name: Token, name_lc: Seq<char>, warn: Option<Severity>) -> (
    Option<u32>,
    Seq<ReportView>,
) {
    match table_lookup(modif_table(), name_lc) {
        Some(k) => (Some(k), Seq::empty()),
        None => match table_lookup(removed_modif_table(), name_lc) {
            Some(info) => (
                None,
                match warn {
                    Some(sev) => seq![
                        rvi(ErrorKey::Removed, sev, name.s@ + " has been removed"@, info, name.loc),
                    ],
                    None => Seq::empty(),
                },
            ),
            None => (None, Seq::empty()),
        },
    }
}

/// Looks up the modif `name`, whose lowercase form is `name_lc`: its kinds,
/// if it is one, and the report on a removed modif with severity `warn`, if
/// given.
pub fn lookup_engine_modif(name: &Token, name_lc: &str, warn: Option<Severity>) -> (r: (
    Option<ModifKinds>,
    Vec<Report>,
))
    ensures
        (match r.0 {
            Some(k) => Some(k.bits),
            None => None,
        }) == engine_modif(*name, name_lc@, warn).0,
        views(r.1@) == engine_modif(*name, name_lc@, warn).1,
{
    let mut reports: Vec<Report> = Vec::new();
    let t = modifs();
    let ghost tv = t@.map_values(|e: (&str, ModifKinds)| (e.0@, e.1.bits));
    let mut i = t.len();
    assert(tv.take(i as int) =~= tv);
    while i > 0
        invariant
            i <= t@.len(),
            tv == t@.map_values(|e: (&str, ModifKinds)| (e.0@, e.1.bits)),
            tv == modif_table(),
            reports@.len() == 0,
            table_lookup(tv, name_lc@) == table_lookup(tv.take(i as int), name_lc@),
        decreases i,
    {
        let e = t[i - 1];
        assert(tv.take(i as int).drop_last() =~= tv.take(i - 1));
        assert(tv.take(i as int).last() == (e.0@, e.1.bits));
        if crate::text::str_eq(e.0, name_lc) {
            assert(views(reports@) =~= Seq::<ReportView>::empty());
            return (Some(e.1), reports);
        }
        i = i - 1;
    }
    let rt = removed_modifs();
    let ghost rv = rt@.map_values(|e: (&str, &str)| (e.0@, e.1@));
    let mut j = rt.len();
    assert(rv.take(j as int) =~= rv);
    while j > 0
        invariant
            j <= rt@.len(),
            rv == rt@.map_values(|e: (&str, &str)| (e.0@, e.1@)),
            table_lookup(rv, name_lc@) == table_lookup(rv.take(j as int), name_lc@),
            table_lookup(tv, name_lc@) is None,
            tv == modif_table(),
            rv == removed_modif_table(),
            reports@.len() == 0,
        decreases j,
    {
        let e = rt[j - 1];
        assert(rv.take(j as int).drop_last() =~= rv.take(j - 1));
        assert(rv.take(j as int).last() == (e.0@, e.1@));
        if crate::text::str_eq(e.0, name_lc) {
            if let Some(sev) = warn {
                let mut m: Vec<char> = Vec::new();
                push_str(&mut m, name.s.as_str());
                push_str(&mut m, " has been removed");
                let info = crate::text::str_chars(e.1);
                let rep = make_report_info(ErrorKey::Removed, sev, m.as_slice(), info.as_slice(), name.loc);
                reports.push(rep);
                assert(views(reports@) =~= seq![rep@]);
            } else {
                assert(views(reports@) =~= Seq::<ReportView>::empty());
            }
            return (None, reports);
        }
        j = j - 1;
    }
    assert(views(reports@) =~= Seq::<ReportView>::empty());
    (None, reports)
}

/// Looks up the modif `name`, by its lowercase form.
pub fn lookup_modif(name: &Token, warn: Option<Severity>) -> (r: (Option<ModifKinds>, Vec<Report>))
    ensures
        (match r.0 {
            Some(k) => Some(k.bits),
            None => None,
        }) == engine_modif(*name, lowercase_of(name.s@), warn).0,
        views(r.1@) == engine_modif(*name, lowercase_of(name.s@), warn).1,
{
    let name_lc = to_lowercase(name.s.as_str());
    lookup_engine_modif(name, name_lc.as_str(), warn)
}

} // verus!
