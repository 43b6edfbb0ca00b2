//! The kinds of things that modifiers modify, as sets of flags, and their
//! names.

use vstd::prelude::*;

verus! {

/// The names of the entries of `table` whose flags are all set in `bits`,
/// in the order of `table`.
pub open spec fn flag_names(bits: u32, table: Seq<(u32, Seq<char>)>) -> Seq<Seq<char>>
    decreases table.len(),
{
    if table.len() == 0 {
        Seq::empty()
    } else {
        let rest = flag_names(bits, table.drop_last());
        if bits & table.last().0 == table.last().0 {
            rest.push(table.last().1)
        } else {
            rest
        }
    }
}

/// The texts `v` joined by `sep`.
pub open spec fn join_text(v: Seq<Seq<char>>, sep: Seq<char>) -> Seq<char>
    decreases v.len(),
{
    if v.len() == 0 {
        Seq::empty()
    } else if v.len() == 1 {
        v[0]
    } else {
        join_text(v.drop_last(), sep) + sep + v.last()
    }
}

/// The views of a table of flags and names.
pub open spec fn table_view(t: Seq<(u32, &str)>) -> Seq<(u32, Seq<char>)> {
    t.map_values(|p: (u32, &str)| (p.0, p.1@))
}

/// The names of the entries of `table` whose flags are set in `bits`,
/// joined by `, `.
pub fn flags_text(bits: u32, table: &Vec<(u32, &str)>) -> (r: String)
    ensures
        r@ == join_text(flag_names(bits, table_view(table@)), ", "@),
{
    let ghost tv = table_view(table@);
    let mut out: Vec<char> = Vec::new();
    let mut count: usize = 0;
    let mut i: usize = 0;
    while i < table.len()
        invariant
            i <= table@.len(),
            tv == table_view(table@),
            count == flag_names(bits, tv.take(i as int)).len(),
            out@ == join_text(flag_names(bits, tv.take(i as int)), ", "@),
            count <= i,
        decreases table@.len() - i,
    {
        let (f, name) = table[i];
        assert(tv.take(i + 1).drop_last() =~= tv.take(i as int));
        assert(tv.take(i + 1).last() == (f, name@));
        if bits & f == f {
            let ghost names = flag_names(bits, tv.take(i as int));
            if count > 0 {
                crate::text::push_str(&mut out, ", ");
            }
            crate::text::push_str(&mut out, name);
            count = count + 1;
            proof {
                let nn = names.push(name@);
                assert(nn.drop_last() =~= names);
                if names.len() == 0 {
                    assert(out@ =~= name@);
                    assert(nn =~= seq![name@]);
                }
            }
        }
        i = i + 1;
    }
    assert(tv.take(i as int) =~= tv);
    crate::text::string_from_chars(out.as_slice())
}

} // verus!
