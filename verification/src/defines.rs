//! The expected values of the game's defines in `common/defines`.

use vstd::prelude::*;

use crate::block::{loose_values, Block, BV};
use crate::db::{Db, Item};
use crate::modif::join_text;
use crate::report::{push_report, report_str, rv, views, ErrorKey, Report, ReportView, Severity};
use crate::text::{all_digits, is_digit, lemma_split_nonempty, split_chars, split_seq};
use crate::token::{Loc, Token};

verus! {

/// The types of values that the game's data functions work with, as far as
/// the defines need them.
#[derive(Clone, Copy, Debug, PartialEq, Eq, Structural)]
pub enum Datatype {
    Bool,
    CFixedPoint,
    Date,
    CString,
    Unknown,
    CVector3f,
    CVector4f,
}

/// The expected value of a define.
#[derive(Clone, Copy, Debug)]
pub enum DefineType {
    Boolean,
    Integer,
    Number,
    Date,
    String,
    Item(Item),
    SingleQuotedItem(Item),
    Choice(&'static [&'static str]),
    UnknownList,
    IntegerList,
    NumberList,
    StringList,
    ItemList(Item),
    ItemOrEmptyList(Item),
    /// A list of four numbers, presumably RGBA.
    Color,
    /// A list of three numbers, presumably RGB.
    Color3,
}

/// The data type of the value of a define.
pub open spec fn datatype_of(dt: DefineType) -> Datatype {
    match dt {
        DefineType::Boolean => Datatype::Bool,
        DefineType::Integer | DefineType::Number => Datatype::CFixedPoint,
        DefineType::Date => Datatype::Date,
        DefineType::String | DefineType::Item(_) | DefineType::SingleQuotedItem(_)
        | DefineType::Choice(_) => Datatype::CString,
        DefineType::UnknownList | DefineType::IntegerList | DefineType::NumberList
        | DefineType::StringList | DefineType::ItemList(_) | DefineType::ItemOrEmptyList(_) =>
            Datatype::Unknown,
        DefineType::Color3 => Datatype::CVector3f,
        DefineType::Color => Datatype::CVector4f,
    }
}

impl From<DefineType> for Datatype {
    fn from(dt: DefineType) -> (r: Datatype) {
        match dt {
            DefineType::Boolean => Datatype::Bool,
            DefineType::Integer | DefineType::Number => Datatype::CFixedPoint,
            DefineType::Date => Datatype::Date,
            DefineType::String | DefineType::Item(_) | DefineType::SingleQuotedItem(_)
            | DefineType::Choice(_) => Datatype::CString,
            DefineType::UnknownList | DefineType::IntegerList | DefineType::NumberList
            | DefineType::StringList | DefineType::ItemList(_) | DefineType::ItemOrEmptyList(_) =>
                Datatype::Unknown,
            DefineType::Color3 => Datatype::CVector3f,
            DefineType::Color => Datatype::CVector4f,
        }
    }
}

impl vstd::std_specs::convert::FromSpecImpl<DefineType> for Datatype {
    open spec fn obeys_from_spec() -> bool {
        true
    }

    open spec fn from_spec(dt: DefineType) -> Datatype {
        datatype_of(dt)
    }
}

/// `s` without one leading `-`.
pub open spec fn unsigned_part(s: Seq<char>) -> Seq<char> {
    if s.len() > 0 && s[0] == '-' {
        s.skip(1)
    } else {
        s
    }
}

/// One or more decimal digits.
pub open spec fn digits_text(s: Seq<char>) -> bool {
    s.len() > 0 && all_digits(s)
}

/// An integer: an optional `-`, then decimal digits.
pub open spec fn is_integer_text(s: Seq<char>) -> bool {
    digits_text(unsigned_part(s))
}

/// A number as the defines write it: an optional `-`, decimal digits, and
/// optionally a `.` followed by one to five digits.
pub open spec fn is_number_text(s: Seq<char>) -> bool {
    let p = split_seq(unsigned_part(s), '.');
    digits_text(p[0]) && (p.len() == 1 || (p.len() == 2 && digits_text(p[1]) && p[1].len() <= 5))
}

/// A date: three groups of decimal digits joined by `.`.
pub open spec fn is_date_text(s: Seq<char>) -> bool {
    let p = split_seq(s, '.');
    p.len() == 3 && digits_text(p[0]) && digits_text(p[1]) && digits_text(p[2])
}

/// The report that `t` is not of the expected form, unless `ok`.
pub open spec fn form_reports(ok: bool, msg: Seq<char>, t: Token) -> Seq<ReportView> {
    if ok {
        Seq::empty()
    } else {
        seq![rv(ErrorKey::Validation, Severity::Error, msg, t.loc)]
    }
}

/// The report on a token that should be an integer.
pub open spec fn integer_reports(t: Token) -> Seq<ReportView> {
    form_reports(is_integer_text(t.s@), "expected integer"@, t)
}

/// The report on a token that should be a number.
pub open spec fn number_reports(t: Token) -> Seq<ReportView> {
    form_reports(is_number_text(t.s@), "expected number"@, t)
}

/// The report on a token that should be a date.
pub open spec fn date_reports(t: Token) -> Seq<ReportView> {
    form_reports(is_date_text(t.s@), "expected date value"@, t)
}

/// Whether the database knows an item or flag of kind `item` named `key`.
pub open spec fn item_known(db: Db, item: Item, key: Seq<char>) -> bool {
    db@.contains_key((item, key)) || db.spec_flags().contains((item, key))
}

/// The report that the item `key` of kind `item`, written at `loc`, is not
/// defined.
pub open spec fn item_reports(db: Db, item: Item, key: Seq<char>, loc: Loc) -> Seq<ReportView> {
    if item_known(db, item, key) {
        Seq::empty()
    } else {
        seq![rv(ErrorKey::MissingItem, Severity::Error, "`"@ + key + "` is not defined"@, loc)]
    }
}

/// The reports on each token of `ts`, which should be integers.
pub open spec fn integers_reports(ts: Seq<Token>) -> Seq<ReportView>
    decreases ts.len(),
{
    if ts.len() == 0 {
        Seq::empty()
    } else {
        integers_reports(ts.drop_last()) + integer_reports(ts.last())
    }
}

/// The reports on each token of `ts`, which should be numbers.
pub open spec fn numbers_reports(ts: Seq<Token>) -> Seq<ReportView>
    decreases ts.len(),
{
    if ts.len() == 0 {
        Seq::empty()
    } else {
        numbers_reports(ts.drop_last()) + number_reports(ts.last())
    }
}

/// The reports on each token of `ts`, which should name items of kind
/// `item`; an empty token is passed over when `empty_ok`.
pub open spec fn items_reports(db: Db, item: Item, ts: Seq<Token>, empty_ok: bool) -> Seq<ReportView>
    decreases ts.len(),
{
    if ts.len() == 0 {
        Seq::empty()
    } else {
        let t = ts.last();
        items_reports(db, item, ts.drop_last(), empty_ok) + if empty_ok && t.s@.len() == 0 {
            Seq::empty()
        } else {
            item_reports(db, item, t.s@, t.loc)
        }
    }
}

/// The report on a block where a value was expected.
pub open spec fn not_value_reports(b: Block) -> Seq<ReportView> {
    seq![rv(ErrorKey::Structure, Severity::Error, "expected value, found block"@, b.loc)]
}

/// The report on a value where a block was expected.
pub open spec fn not_block_reports(t: Token) -> Seq<ReportView> {
    seq![rv(ErrorKey::Structure, Severity::Error, "expected block, found value"@, t.loc)]
}

/// The report on a color block holding `count` values where `want` are
/// expected.
pub open spec fn color_count_reports(count: nat, want: nat, msg: Seq<char>, b: Block) -> Seq<ReportView> {
    if count == want {
        Seq::empty()
    } else {
        seq![rv(ErrorKey::Colors, Severity::Warning, msg, b.loc)]
    }
}

/// The reports on the value `bv` of a define of type `dt`: a wrong form, an
/// item that is not defined, a choice not among those allowed, a color with
/// the wrong number of values. The loose values of a list are checked one
/// by one.
pub open spec fn define_reports(dt: DefineType, bv: BV, db: Db) -> Seq<ReportView> {
    match dt {
        DefineType::Boolean => match bv {
            BV::Value(t) => form_reports(t.s@ == "yes"@ || t.s@ == "no"@, "expected `yes` or `no`"@, t),
            BV::Block(b) => not_value_reports(b),
        },
        DefineType::Integer => match bv {
            BV::Value(t) => integer_reports(t),
            BV::Block(b) => not_value_reports(b),
        },
        DefineType::Number => match bv {
            BV::Value(t) => number_reports(t),
            BV::Block(b) => not_value_reports(b),
        },
        DefineType::Date => match bv {
            BV::Value(t) => date_reports(t),
            BV::Block(b) => not_value_reports(b),
        },
        DefineType::String => match bv {
            BV::Value(t) => Seq::empty(),
            BV::Block(b) => not_value_reports(b),
        },
        DefineType::Item(item) => match bv {
            BV::Value(t) => if item == Item::Sound && t.s@.len() == 0 {
                Seq::empty()
            } else {
                item_reports(db, item, t.s@, t.loc)
            },
            BV::Block(b) => not_value_reports(b),
        },
        DefineType::SingleQuotedItem(item) => match bv {
            BV::Value(t) => if t.s@.len() >= 2 && t.s@[0] == '\'' && t.s@.last() == '\'' {
                item_reports(db, item, t.s@.subrange(1, t.s@.len() - 1), t.loc)
            } else {
                Seq::empty()
            },
            BV::Block(b) => not_value_reports(b),
        },
        DefineType::Choice(choices) => match bv {
            BV::Value(t) => {
                let cs = choices@.map_values(|c: &str| c@);
                if cs.contains(t.s@) {
                    Seq::empty()
                } else {
                    seq![
                        rv(
                            ErrorKey::Choice,
                            Severity::Error,
                            "expected one of "@ + join_text(cs, ", "@),
                            t.loc,
                        ),
                    ]
                }
            },
            BV::Block(b) => not_value_reports(b),
        },
        DefineType::UnknownList | DefineType::StringList => match bv {
            BV::Value(t) => not_block_reports(t),
            BV::Block(b) => Seq::empty(),
        },
        DefineType::IntegerList => match bv {
            BV::Value(t) => not_block_reports(t),
            BV::Block(b) => integers_reports(loose_values(b.v@)),
        },
        DefineType::NumberList => match bv {
            BV::Value(t) => not_block_reports(t),
            BV::Block(b) => numbers_reports(loose_values(b.v@)),
        },
        DefineType::ItemList(item) => match bv {
            BV::Value(t) => not_block_reports(t),
            BV::Block(b) => items_reports(db, item, loose_values(b.v@), false),
        },
        DefineType::ItemOrEmptyList(item) => match bv {
            BV::Value(t) => not_block_reports(t),
            BV::Block(b) => items_reports(db, item, loose_values(b.v@), true),
        },
        DefineType::Color => match bv {
            BV::Value(t) => not_block_reports(t),
            BV::Block(b) => numbers_reports(loose_values(b.v@)) + color_count_reports(
                loose_values(b.v@).len(),
                4,
                "expected exactly 4 values for color"@,
                b,
            ),
        },
        DefineType::Color3 => match bv {
            BV::Value(t) => not_block_reports(t),
            BV::Block(b) => numbers_reports(loose_values(b.v@)) + color_count_reports(
                loose_values(b.v@).len(),
                3,
                "expected exactly 3 values for this color"@,
                b,
            ),
        },
    }
}

/// Computes [`digits_text`].
pub(crate) fn digits_only(s: &[char]) -> (r: bool)
    ensures
        r == digits_text(s@),
{
    if s.len() == 0 {
        return false;
    }
    let mut i: usize = 0;
    while i < s.len()
        invariant
            i <= s@.len(),
            forall|j: int| 0 <= j < i ==> is_digit(#[trigger] s@[j]),
        decreases s@.len() - i,
    {
        if !('0' <= s[i] && s[i] <= '9') {
            return false;
        }
        i = i + 1;
    }
    true
}

/// Computes [`unsigned_part`].
pub(crate) fn unsigned_chars(s: &[char]) -> (r: Vec<char>)
    ensures
        r@ == unsigned_part(s@),
{
    if s.len() > 0 && s[0] == '-' {
        crate::text::sub_chars(s, 1, s.len())
    } else {
        crate::text::copy_chars(s)
    }
}

/// Computes [`is_integer_text`].
pub fn is_integer_chars(s: &[char]) -> (r: bool)
    ensures
        r == is_integer_text(s@),
{
    let u = unsigned_chars(s);
    digits_only(u.as_slice())
}

/// Computes [`is_number_text`].
pub fn is_number_chars(s: &[char]) -> (r: bool)
    ensures
        r == is_number_text(s@),
{
    let u = unsigned_chars(s);
    let p = split_chars(u.as_slice(), '.');
    proof {
        lemma_split_nonempty(u@, '.');
        assert(p@[0]@ == split_seq(u@, '.')[0]);
    }
    if !digits_only(p[0].as_slice()) {
        return false;
    }
    if p.len() == 1 {
        return true;
    }
    if p.len() != 2 {
        return false;
    }
    assert(p@[1]@ == split_seq(u@, '.')[1]);
    digits_only(p[1].as_slice()) && p[1].len() <= 5
}

/// Computes [`is_date_text`].
pub fn is_date_chars(s: &[char]) -> (r: bool)
    ensures
        r == is_date_text(s@),
{
    let p = split_chars(s, '.');
    if p.len() != 3 {
        return false;
    }
    assert(p@[0]@ == split_seq(s@, '.')[0]);
    assert(p@[1]@ == split_seq(s@, '.')[1]);
    assert(p@[2]@ == split_seq(s@, '.')[2]);
    digits_only(p[0].as_slice()) && digits_only(p[1].as_slice()) && digits_only(p[2].as_slice())
}

/// Appends the report that `t` is not of the expected form, unless `ok`.
pub(crate) fn check_form(ok: bool, msg: &str, t: &Token, out: &mut Vec<Report>)
    ensures
        views(final(out)@) == views(old(out)@) + form_reports(ok, msg@, *t),
{
    if ok {
        assert(views(out@) =~= views(out@) + form_reports(ok, msg@, *t));
    } else {
        let ghost before = views(out@);
        push_report(out, report_str(ErrorKey::Validation, Severity::Error, msg, t.loc));
        assert(views(out@) =~= before + form_reports(ok, msg@, *t));
    }
}

/// Appends the report that the item `key` of kind `item` is not defined.
pub(crate) fn check_item(db: &Db, item: Item, key: &str, loc: Loc, out: &mut Vec<Report>)
    requires
        db.wf(),
    ensures
        views(final(out)@) == views(old(out)@) + item_reports(*db, item, key@, loc),
{
    let ghost before = views(out@);
    if db.item_exists(item, key) {
        assert(views(out@) =~= before + item_reports(*db, item, key@, loc));
    } else {
        let mut m: Vec<char> = Vec::new();
        crate::text::push_str(&mut m, "`");
        crate::text::push_str(&mut m, key);
        crate::text::push_str(&mut m, "` is not defined");
        push_report(out, crate::report::make_report(ErrorKey::MissingItem, Severity::Error, m.as_slice(), loc));
        assert(views(out@) =~= before + item_reports(*db, item, key@, loc));
    }
}

/// The texts of `v` joined by `sep`.
pub(crate) fn join_strs(v: &[&str], sep: &str) -> (r: String)
    ensures
        r@ == join_text(v@.map_values(|c: &str| c@), sep@),
{
    let ghost vs = v@.map_values(|c: &str| c@);
    let mut out: Vec<char> = Vec::new();
    let mut i: usize = 0;
    while i < v.len()
        invariant
            i <= v@.len(),
            vs == v@.map_values(|c: &str| c@),
            out@ == join_text(vs.take(i as int), sep@),
        decreases v@.len() - i,
    {
        assert(vs.take(i + 1).drop_last() =~= vs.take(i as int));
        if i > 0 {
            crate::text::push_str(&mut out, sep);
        }
        crate::text::push_str(&mut out, v[i]);
        proof {
            if i == 0 {
                assert(out@ =~= vs.take(1)[0]);
            }
        }
        i = i + 1;
    }
    assert(vs.take(v@.len() as int) =~= vs);
    crate::text::string_from_chars(out.as_slice())
}

/// Whether `s` is one of `choices`.
pub(crate) fn is_choice(choices: &[&str], s: &str) -> (r: bool)
    ensures
        r == choices@.map_values(|c: &str| c@).contains(s@),
{
    let ghost cs = choices@.map_values(|c: &str| c@);
    let mut i: usize = 0;
    while i < choices.len()
        invariant
            i <= choices@.len(),
            cs == choices@.map_values(|c: &str| c@),
            forall|j: int| 0 <= j < i ==> cs[j] != s@,
        decreases choices@.len() - i,
    {
        if crate::text::str_eq(choices[i], s) {
            assert(cs[i as int] == s@);
            return true;
        }
        i = i + 1;
    }
    false
}

impl DefineType {
    /// Checks the value `bv` of a define of this type, as
    /// [`define_reports`] says, looking items up in `db`.
    pub fn validate(self, bv: &BV, db: &Db) -> (r: Vec<Report>)
        requires
            db.wf(),
        ensures
            views(r@) == define_reports(self, *bv, *db),
    {
        let mut out: Vec<Report> = Vec::new();
        match bv {
            BV::Block(b) => {
                match self {
                    DefineType::Boolean | DefineType::Integer | DefineType::Number | DefineType::Date
                    | DefineType::String | DefineType::Item(_) | DefineType::SingleQuotedItem(_)
                    | DefineType::Choice(_) => {
                        push_report(
                            &mut out,
                            report_str(ErrorKey::Structure, Severity::Error, "expected value, found block", b.loc),
                        );
                        assert(views(out@) =~= define_reports(self, *bv, *db));
                    },
                    DefineType::UnknownList | DefineType::StringList => {
                        assert(views(out@) =~= define_reports(self, *bv, *db));
                    },
                    _ => {
                        Self::validate_list(self, b, db, &mut out);
                    },
                }
            },
            BV::Value(t) => {
                let cs = t.chars();
                match self {
                    DefineType::Boolean => {
                        let ok = t.is("yes") || t.is("no");
                        check_form(ok, "expected `yes` or `no`", t, &mut out);
                    },
                    DefineType::Integer => {
                        check_form(is_integer_chars(cs.as_slice()), "expected integer", t, &mut out);
                    },
                    DefineType::Number => {
                        check_form(is_number_chars(cs.as_slice()), "expected number", t, &mut out);
                    },
                    DefineType::Date => {
                        check_form(is_date_chars(cs.as_slice()), "expected date value", t, &mut out);
                    },
                    DefineType::String => {},
                    DefineType::Item(item) => {
                        if !(item == Item::Sound && cs.len() == 0) {
                            check_item(db, item, t.as_str(), t.loc, &mut out);
                        }
                    },
                    DefineType::SingleQuotedItem(item) => {
                        let n = cs.len();
                        if n >= 2 && cs[0] == '\'' && cs[n - 1] == '\'' {
                            let bare = crate::text::sub_chars(cs.as_slice(), 1, n - 1);
                            let bs = crate::text::string_from_chars(bare.as_slice());
                            check_item(db, item, bs.as_str(), t.loc, &mut out);
                        }
                    },
                    DefineType::Choice(choices) => {
                        if !is_choice(choices, t.as_str()) {
                            let joined = join_strs(choices, ", ");
                            let mut m: Vec<char> = Vec::new();
                            crate::text::push_str(&mut m, "expected one of ");
                            crate::text::push_str(&mut m, joined.as_str());
                            push_report(
                                &mut out,
                                crate::report::make_report(ErrorKey::Choice, Severity::Error, m.as_slice(), t.loc),
                            );
                        }
                    },
                    _ => {
                        push_report(
                            &mut out,
                            report_str(ErrorKey::Structure, Severity::Error, "expected block, found value", t.loc),
                        );
                    },
                }
                assert(views(out@) =~= define_reports(self, *bv, *db));
            },
        }
        out
    }

    /// Checks the loose values of the list block `b`.
    fn validate_list(self, b: &Block, db: &Db, out: &mut Vec<Report>)
        requires
            db.wf(),
            old(out)@.len() == 0,
            self is IntegerList || self is NumberList || self is ItemList || self is ItemOrEmptyList
                || self is Color || self is Color3,
        ensures
            views(final(out)@) == define_reports(self, BV::Block(*b), *db),
    {
        let vals = b.iter_values();
        let ghost lv = loose_values(b.v@);
        let mut i: usize = 0;
        while i < vals.len()
            invariant
                i <= vals@.len(),
                vals@.len() == lv.len(),
                lv == loose_values(b.v@),
                forall|j: int| 0 <= j < vals@.len() ==> *#[trigger] vals@[j] == lv[j],
                db.wf(),
                views(out@) == match self {
                    DefineType::IntegerList => integers_reports(lv.take(i as int)),
                    DefineType::ItemList(item) => items_reports(*db, item, lv.take(i as int), false),
                    DefineType::ItemOrEmptyList(item) => items_reports(*db, item, lv.take(i as int), true),
                    _ => numbers_reports(lv.take(i as int)),
                },
            decreases vals@.len() - i,
        {
            let t = vals[i];
            assert(lv.take(i + 1).drop_last() =~= lv.take(i as int));
            assert(lv.take(i + 1).last() == *t);
            let cs = t.chars();
            match self {
                DefineType::IntegerList => {
                    check_form(is_integer_chars(cs.as_slice()), "expected integer", t, out);
                },
                DefineType::ItemList(item) => {
                    check_item(db, item, t.as_str(), t.loc, out);
                },
                DefineType::ItemOrEmptyList(item) => {
                    if cs.len() > 0 {
                        check_item(db, item, t.as_str(), t.loc, out);
                    } else {
                        assert(views(out@) =~= items_reports(*db, item, lv.take(i + 1), true));
                    }
                },
                _ => {
                    check_form(is_number_chars(cs.as_slice()), "expected number", t, out);
                },
            }
            i = i + 1;
        }
        assert(lv.take(vals@.len() as int) =~= lv);
        match self {
            DefineType::Color => {
                if vals.len() != 4 {
                    push_report(
                        out,
                        report_str(ErrorKey::Colors, Severity::Warning, "expected exactly 4 values for color", b.loc),
                    );
                }
            },
            DefineType::Color3 => {
                if vals.len() != 3 {
                    push_report(
                        out,
                        report_str(
                            ErrorKey::Colors,
                            Severity::Warning,
                            "expected exactly 3 values for this color",
                            b.loc,
                        ),
                    );
                }
            },
            _ => {},
        }
        assert(views(out@) =~= define_reports(self, BV::Block(*b), *db));
    }
}

} // verus!
