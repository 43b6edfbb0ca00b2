//! Checking the fields of a block against a list of rules: which fields are
//! required, what form each field's value must have, and which fields are
//! not known at all.

use vstd::prelude::*;

use crate::block::{block_has_key, last_field_value, loose_values, Block, BlockItem, BV};
use crate::db::{Db, Item};
use crate::defines::{
    check_form, check_item, digits_only, integer_reports, is_choice, is_integer_chars, is_integer_text,
    item_reports, items_reports, join_strs, not_block_reports, not_value_reports, unsigned_chars,
    digits_text, form_reports, unsigned_part, date_reports,
};
use crate::modif::join_text;
use crate::report::{
    push_report, report_str, rv, rvi, views, ErrorKey, Report, ReportView, Severity,
};
use crate::text::{lemma_split_nonempty, parse_int_spec, signed_decimal, split_chars, split_seq};
use crate::token::{Loc, Token};
use crate::files::fileset::{file_severity, has_path, lookup_path, FileEntry, Fileset};
use crate::game::Game;
use crate::report::capped;
use crate::text::{collapse_slashes, strip_slash};

verus! {

/// What the value of a field must be.
#[derive(Debug)]
pub enum FieldKind {
    /// The name of an item of this kind.
    Item(Item),
    /// An integer.
    Integer,
    /// A number.
    Numeric,
    /// `yes` or `no`.
    Bool,
    /// One of these words.
    Choice(Vec<&'static str>),
    /// Any value.
    Value,
    /// A scope target: any value.
    Target,
    /// A trigger: a block.
    Trigger,
    /// A block listing items of this kind.
    ListItems(Item),
    /// A block listing words from these.
    ListChoice(Vec<&'static str>),
    /// An integer from `lo` to `hi`.
    IntRange(u32, u32),
    /// A block whose contents are checked elsewhere: effects, modifiers,
    /// durations.
    Block,
    /// A value or a block whose contents are checked elsewhere: script
    /// values and descriptions.
    Any,
    /// A field no longer used: any occurrence is reported with this advice.
    Advice(&'static str),
    /// `yes`, `no` or a number.
    YesNoOrNumber,
    /// A block listing numbers.
    NumberList,
    /// A number from 0 to 1.
    UnitRange,
    /// A date.
    Date,
}

/// A rule for the fields named `name`.
#[derive(Debug)]
pub struct FieldRule {
    pub name: &'static str,
    pub required: bool,
    pub kind: FieldKind,
}

/// What the value of a field must be, as plain values.
pub enum KindView {
    Item(Item),
    Integer,
    Numeric,
    Bool,
    Choice(Seq<Seq<char>>),
    Value,
    Target,
    Trigger,
    ListItems(Item),
    ListChoice(Seq<Seq<char>>),
    IntRange(int, int),
    Block,
    Any,
    Advice(Seq<char>),
    YesNoOrNumber,
    NumberList,
    UnitRange,
    Date,
}

/// A rule, as plain values.
pub struct RuleView {
    pub name: Seq<char>,
    pub required: bool,
    pub kind: KindView,
}

/// The plain value of a kind.
pub open spec fn kind_view(k: FieldKind) -> KindView {
    match k {
        FieldKind::Item(i) => KindView::Item(i),
        FieldKind::Integer => KindView::Integer,
        FieldKind::Numeric => KindView::Numeric,
        FieldKind::Bool => KindView::Bool,
        FieldKind::Choice(cs) => KindView::Choice(cs@.map_values(|c: &str| c@)),
        FieldKind::Value => KindView::Value,
        FieldKind::Target => KindView::Target,
        FieldKind::Trigger => KindView::Trigger,
        FieldKind::ListItems(i) => KindView::ListItems(i),
        FieldKind::ListChoice(cs) => KindView::ListChoice(cs@.map_values(|c: &str| c@)),
        FieldKind::IntRange(lo, hi) => KindView::IntRange(lo as int, hi as int),
        FieldKind::Block => KindView::Block,
        FieldKind::Any => KindView::Any,
        FieldKind::Advice(m) => KindView::Advice(m@),
        FieldKind::YesNoOrNumber => KindView::YesNoOrNumber,
        FieldKind::NumberList => KindView::NumberList,
        FieldKind::UnitRange => KindView::UnitRange,
        FieldKind::Date => KindView::Date,
    }
}

/// The plain value of a rule.
pub open spec fn rule_view(r: FieldRule) -> RuleView {
    RuleView { name: r.name@, required: r.required, kind: kind_view(r.kind) }
}

/// The plain values of rules.
pub open spec fn rules_view(rs: Seq<FieldRule>) -> Seq<RuleView> {
    rs.map_values(|r: FieldRule| rule_view(r))
}

/// A number: an optional `-`, decimal digits, and optionally a `.`
/// followed by decimal digits.
pub open spec fn is_numeric_text(s: Seq<char>) -> bool {
    let p = split_seq(unsigned_part(s), '.');
    digits_text(p[0]) && (p.len() == 1 || (p.len() == 2 && digits_text(p[1])))
}

/// The reports on the value `bv` of a field that must be of kind `k`.
pub open spec fn value_reports(k: KindView, bv: BV, db: Db) -> Seq<ReportView> {
    match k {
        KindView::Item(item) => match bv {
            BV::Value(t) => item_reports(db, item, t.s@, t.loc),
            BV::Block(b) => not_value_reports(b),
        },
        KindView::Integer => match bv {
            BV::Value(t) => integer_reports(t),
            BV::Block(b) => not_value_reports(b),
        },
        KindView::Numeric => match bv {
            BV::Value(t) => form_reports(is_numeric_text(t.s@), "expected number"@, t),
            BV::Block(b) => not_value_reports(b),
        },
        KindView::Bool => match bv {
            BV::Value(t) => form_reports(t.s@ == "yes"@ || t.s@ == "no"@, "expected `yes` or `no`"@, t),
            BV::Block(b) => not_value_reports(b),
        },
        KindView::Choice(cs) => match bv {
            BV::Value(t) => if cs.contains(t.s@) {
                Seq::empty()
            } else {
                seq![
                    rv(ErrorKey::Choice, Severity::Error, "expected one of "@ + join_text(cs, ", "@), t.loc),
                ]
            },
            BV::Block(b) => not_value_reports(b),
        },
        KindView::Value | KindView::Target => match bv {
            BV::Value(t) => Seq::empty(),
            BV::Block(b) => not_value_reports(b),
        },
        KindView::Trigger => match bv {
            BV::Value(t) => not_block_reports(t),
            BV::Block(b) => Seq::empty(),
        },
        KindView::ListItems(item) => match bv {
            BV::Value(t) => not_block_reports(t),
            BV::Block(b) => items_reports(db, item, loose_values(b.v@), false),
        },
        KindView::ListChoice(cs) => match bv {
            BV::Value(t) => not_block_reports(t),
            BV::Block(b) => choices_reports(cs, loose_values(b.v@)),
        },
        KindView::IntRange(lo, hi) => match bv {
            BV::Value(t) => int_range_reports(t, lo, hi),
            BV::Block(b) => not_value_reports(b),
        },
        KindView::Block => match bv {
            BV::Value(t) => not_block_reports(t),
            BV::Block(b) => Seq::empty(),
        },
        KindView::Any => Seq::empty(),
        KindView::Advice(m) => Seq::empty(),
        KindView::YesNoOrNumber => match bv {
            BV::Value(t) => form_reports(
                t.s@ == "yes"@ || t.s@ == "no"@ || is_numeric_text(t.s@),
                "expected number"@,
                t,
            ),
            BV::Block(b) => not_value_reports(b),
        },
        KindView::NumberList => match bv {
            BV::Value(t) => not_block_reports(t),
            BV::Block(b) => numerics_reports(loose_values(b.v@)),
        },
        KindView::UnitRange => match bv {
            BV::Value(t) => unit_range_reports(t),
            BV::Block(b) => not_value_reports(b),
        },
        KindView::Date => match bv {
            BV::Value(t) => date_reports(t),
            BV::Block(b) => not_value_reports(b),
        },
    }
}

/// Every character of `s` is `0`.
pub open spec fn all_zero(s: Seq<char>) -> bool {
    forall|i: int| 0 <= i < s.len() ==> #[trigger] s[i] == '0'
}

/// Digits whose value is one.
pub open spec fn is_one(s: Seq<char>) -> bool {
    s.len() > 0 && s.last() == '1' && all_zero(s.drop_last())
}

/// Whether the number `s` lies from 0 to 1.
pub open spec fn in_unit_range(s: Seq<char>) -> bool {
    let u = unsigned_part(s);
    let neg = s.len() > 0 && s[0] == '-';
    let p = split_seq(u, '.');
    let frac_zero = p.len() == 1 || all_zero(p[1]);
    (all_zero(p[0]) && (!neg || frac_zero)) || (!neg && is_one(p[0]) && frac_zero)
}

/// The report on a token that should be a number from 0 to 1.
pub open spec fn unit_range_reports(t: Token) -> Seq<ReportView> {
    if !is_numeric_text(t.s@) {
        seq![rv(ErrorKey::Validation, Severity::Error, "expected number"@, t.loc)]
    } else if !in_unit_range(t.s@) {
        seq![rv(ErrorKey::Range, Severity::Error, "expected a number from 0 to 1"@, t.loc)]
    } else {
        Seq::empty()
    }
}

/// The reports on each token of `ts` that is not a number.
pub open spec fn numerics_reports(ts: Seq<Token>) -> Seq<ReportView>
    decreases ts.len(),
{
    if ts.len() == 0 {
        Seq::empty()
    } else {
        numerics_reports(ts.drop_last()) + form_reports(is_numeric_text(ts.last().s@), "expected number"@, ts.last())
    }
}

/// The report on a word that is not one of `cs`.
pub open spec fn choice_reports(cs: Seq<Seq<char>>, t: Token) -> Seq<ReportView> {
    if cs.contains(t.s@) {
        Seq::empty()
    } else {
        seq![rv(ErrorKey::Choice, Severity::Error, "expected one of "@ + join_text(cs, ", "@), t.loc)]
    }
}

/// The reports on each word of `ts` that is not one of `cs`.
pub open spec fn choices_reports(cs: Seq<Seq<char>>, ts: Seq<Token>) -> Seq<ReportView>
    decreases ts.len(),
{
    if ts.len() == 0 {
        Seq::empty()
    } else {
        choices_reports(cs, ts.drop_last()) + choice_reports(cs, ts.last())
    }
}

/// The report on a token that should be an integer from `lo` to `hi`.
pub open spec fn int_range_reports(t: Token, lo: int, hi: int) -> Seq<ReportView> {
    if !is_integer_text(t.s@) {
        seq![rv(ErrorKey::Validation, Severity::Error, "expected integer"@, t.loc)]
    } else if parse_int_spec(t.s@, lo, hi) is None {
        seq![
            rv(
                ErrorKey::Range,
                Severity::Error,
                "expected a number from "@ + signed_decimal(lo) + " to "@ + signed_decimal(hi),
                t.loc,
            ),
        ]
    } else {
        Seq::empty()
    }
}

/// The advice on a field `k` that is no longer used.
pub open spec fn advice_reports(name: Seq<char>, msg: Seq<char>, k: Token) -> Seq<ReportView> {
    seq![rvi(ErrorKey::Deprecated, Severity::Warning, "`"@ + name + "` is not used"@, msg, k.loc)]
}

/// The reports on the values of the fields among `items` that rule `r`
/// names, in order.
pub open spec fn occurrence_reports(r: RuleView, items: Seq<BlockItem>, db: Db) -> Seq<ReportView>
    decreases items.len(),
{
    if items.len() == 0 {
        Seq::empty()
    } else {
        occurrence_reports(r, items.drop_last(), db) + match items.last() {
            BlockItem::Field(k, bv) => if k.s@ == r.name {
                match r.kind {
                    KindView::Advice(m) => advice_reports(r.name, m, k),
                    _ => value_reports(r.kind, bv, db),
                }
            } else {
                Seq::empty()
            },
            _ => Seq::empty(),
        }
    }
}

/// The reports of one rule on block `b`: a required field that is missing,
/// then the values of its fields.
pub open spec fn rule_reports(r: RuleView, b: Block, db: Db) -> Seq<ReportView> {
    (if r.required && !block_has_key(b, r.name) {
        seq![
            rv(
                ErrorKey::FieldMissing,
                Severity::Error,
                "required field `"@ + r.name + "` missing"@,
                b.loc,
            ),
        ]
    } else {
        Seq::empty()
    }) + occurrence_reports(r, b.v@, db)
}

/// The reports of the rules, one rule after another.
pub open spec fn rules_reports(rs: Seq<RuleView>, b: Block, db: Db) -> Seq<ReportView>
    decreases rs.len(),
{
    if rs.len() == 0 {
        Seq::empty()
    } else {
        rules_reports(rs.drop_last(), b, db) + rule_reports(rs.last(), b, db)
    }
}

/// Whether some rule names the field `name`.
pub open spec fn accepted(rs: Seq<RuleView>, name: Seq<char>) -> bool {
    exists|i: int| 0 <= i < rs.len() && (#[trigger] rs[i]).name == name
}

/// The reports on the fields among `items` that no rule names, in order.
pub open spec fn unknown_field_reports(rs: Seq<RuleView>, items: Seq<BlockItem>) -> Seq<ReportView>
    decreases items.len(),
{
    if items.len() == 0 {
        Seq::empty()
    } else {
        unknown_field_reports(rs, items.drop_last()) + match items.last() {
            BlockItem::Field(k, _) => if accepted(rs, k.s@) {
                Seq::empty()
            } else {
                seq![rv(ErrorKey::UnknownField, Severity::Warning, "unknown field `"@ + k.s@ + "`"@, k.loc)]
            },
            _ => Seq::empty(),
        }
    }
}

/// All reports of checking block `b` against the rules: those of each rule
/// in turn, then those on unknown fields.
pub open spec fn fields_reports(rs: Seq<RuleView>, b: Block, db: Db) -> Seq<ReportView> {
    rules_reports(rs, b, db) + unknown_field_reports(rs, b.v@)
}

/// Computes [`is_numeric_text`].
pub fn is_numeric_chars(s: &[char]) -> (r: bool)
    ensures
        r == is_numeric_text(s@),
{
    let u = unsigned_chars(s);
    let p = split_chars(u.as_slice(), '.');
    proof {
        lemma_split_nonempty(u@, '.');
        assert(p@[0]@ == split_seq(u@, '.')[0]);
    }
    if !digits_only(p[0].as_slice()) {
        return false;
    }
    if p.len() == 1 {
        return true;
    }
    if p.len() != 2 {
        return false;
    }
    assert(p@[1]@ == split_seq(u@, '.')[1]);
    digits_only(p[1].as_slice())
}

/// Appends the reports on the items listed in block `b`.
fn check_items(db: &Db, item: Item, b: &Block, out: &mut Vec<Report>)
    requires
        db.wf(),
    ensures
        views(final(out)@) == views(old(out)@) + items_reports(*db, item, loose_values(b.v@), false),
{
    let ghost start = views(out@);
    let vals = b.iter_values();
    let ghost lv = loose_values(b.v@);
    let mut i: usize = 0;
    while i < vals.len()
        invariant
            i <= vals@.len(),
            vals@.len() == lv.len(),
            lv == loose_values(b.v@),
            forall|j: int| 0 <= j < vals@.len() ==> *#[trigger] vals@[j] == lv[j],
            db.wf(),
            views(out@) == start + items_reports(*db, item, lv.take(i as int), false),
        decreases vals@.len() - i,
    {
        let t = vals[i];
        assert(lv.take(i + 1).drop_last() =~= lv.take(i as int));
        assert(lv.take(i + 1).last() == *t);
        check_item(db, item, t.as_str(), t.loc, out);
        assert(views(out@) =~= start + items_reports(*db, item, lv.take(i + 1), false));
        i = i + 1;
    }
    assert(lv.take(vals@.len() as int) =~= lv);
}

/// Appends the report of [`choice_reports`].
fn check_choice(cs: &Vec<&'static str>, t: &Token, out: &mut Vec<Report>)
    ensures
        views(final(out)@) == views(old(out)@) + choice_reports(cs@.map_values(|c: &str| c@), *t),
{
    let ghost start = views(out@);
    if !is_choice(cs.as_slice(), t.as_str()) {
        let joined = join_strs(cs.as_slice(), ", ");
        let mut m: Vec<char> = Vec::new();
        crate::text::push_str(&mut m, "expected one of ");
        crate::text::push_str(&mut m, joined.as_str());
        push_report(out, crate::report::make_report(ErrorKey::Choice, Severity::Error, m.as_slice(), t.loc));
    }
    assert(views(out@) =~= start + choice_reports(cs@.map_values(|c: &str| c@), *t));
}

/// Appends the reports on the words listed in block `b`.
fn check_choices(cs: &Vec<&'static str>, b: &Block, out: &mut Vec<Report>)
    ensures
        views(final(out)@) == views(old(out)@) + choices_reports(cs@.map_values(|c: &str| c@), loose_values(b.v@)),
{
    let ghost start = views(out@);
    let ghost cv = cs@.map_values(|c: &str| c@);
    let vals = b.iter_values();
    let ghost lv = loose_values(b.v@);
    let mut i: usize = 0;
    while i < vals.len()
        invariant
            i <= vals@.len(),
            vals@.len() == lv.len(),
            lv == loose_values(b.v@),
            cv == cs@.map_values(|c: &str| c@),
            forall|j: int| 0 <= j < vals@.len() ==> *#[trigger] vals@[j] == lv[j],
            views(out@) == start + choices_reports(cv, lv.take(i as int)),
        decreases vals@.len() - i,
    {
        let t = vals[i];
        assert(lv.take(i + 1).drop_last() =~= lv.take(i as int));
        assert(lv.take(i + 1).last() == *t);
        check_choice(cs, t, out);
        assert(views(out@) =~= start + choices_reports(cv, lv.take(i + 1)));
        i = i + 1;
    }
    assert(lv.take(vals@.len() as int) =~= lv);
}

/// Appends the report of [`int_range_reports`].
fn check_int_range(t: &Token, lo: u32, hi: u32, out: &mut Vec<Report>)
    ensures
        views(final(out)@) == views(old(out)@) + int_range_reports(*t, lo as int, hi as int),
{
    let ghost start = views(out@);
    let cs = t.chars();
    if !is_integer_chars(cs.as_slice()) {
        push_report(out, report_str(ErrorKey::Validation, Severity::Error, "expected integer", t.loc));
    } else {
        let v = crate::text::parse_int(cs.as_slice(), 0, hi as i64);
        let ok = match v {
            Some(n) => lo as i64 <= n,
            None => false,
        };
        if !ok {
            let mut m: Vec<char> = Vec::new();
            crate::text::push_str(&mut m, "expected a number from ");
            crate::text::push_signed_decimal(&mut m, lo as i64);
            crate::text::push_str(&mut m, " to ");
            crate::text::push_signed_decimal(&mut m, hi as i64);
            push_report(out, crate::report::make_report(ErrorKey::Range, Severity::Error, m.as_slice(), t.loc));
        }
    }
    assert(views(out@) =~= start + int_range_reports(*t, lo as int, hi as int));
}

/// Appends the reports on the numbers listed in block `b`.
fn check_numbers(b: &Block, out: &mut Vec<Report>)
    ensures
        views(final(out)@) == views(old(out)@) + numerics_reports(loose_values(b.v@)),
{
    let ghost start = views(out@);
    let vals = b.iter_values();
    let ghost lv = loose_values(b.v@);
    let mut i: usize = 0;
    while i < vals.len()
        invariant
            i <= vals@.len(),
            vals@.len() == lv.len(),
            lv == loose_values(b.v@),
            forall|j: int| 0 <= j < vals@.len() ==> *#[trigger] vals@[j] == lv[j],
            views(out@) == start + numerics_reports(lv.take(i as int)),
        decreases vals@.len() - i,
    {
        let t = vals[i];
        assert(lv.take(i + 1).drop_last() =~= lv.take(i as int));
        assert(lv.take(i + 1).last() == *t);
        let cs = t.chars();
        check_form(is_numeric_chars(cs.as_slice()), "expected number", t, out);
        assert(views(out@) =~= start + numerics_reports(lv.take(i + 1)));
        i = i + 1;
    }
    assert(lv.take(vals@.len() as int) =~= lv);
}

/// A copy of the kind `k`.
pub fn copy_kind(k: &FieldKind) -> (r: FieldKind)
    ensures
        kind_view(r) == kind_view(*k),
{
    match k {
        FieldKind::Item(i) => FieldKind::Item(*i),
        FieldKind::Integer => FieldKind::Integer,
        FieldKind::Numeric => FieldKind::Numeric,
        FieldKind::Bool => FieldKind::Bool,
        FieldKind::Choice(cs) => FieldKind::Choice(cs.clone()),
        FieldKind::Value => FieldKind::Value,
        FieldKind::Target => FieldKind::Target,
        FieldKind::Trigger => FieldKind::Trigger,
        FieldKind::ListItems(i) => FieldKind::ListItems(*i),
        FieldKind::ListChoice(cs) => FieldKind::ListChoice(cs.clone()),
        FieldKind::IntRange(lo, hi) => FieldKind::IntRange(*lo, *hi),
        FieldKind::Block => FieldKind::Block,
        FieldKind::Any => FieldKind::Any,
        FieldKind::Advice(m) => FieldKind::Advice(m),
        FieldKind::YesNoOrNumber => FieldKind::YesNoOrNumber,
        FieldKind::NumberList => FieldKind::NumberList,
        FieldKind::UnitRange => FieldKind::UnitRange,
        FieldKind::Date => FieldKind::Date,
    }
}

/// Appends copies of the rules `more` to `all`.
pub fn extend_rules(all: &mut Vec<FieldRule>, more: &Vec<FieldRule>)
    ensures
        rules_view(final(all)@) == rules_view(old(all)@) + rules_view(more@),
{
    let ghost start = rules_view(all@);
    let mut i: usize = 0;
    while i < more.len()
        invariant
            i <= more@.len(),
            rules_view(all@) == start + rules_view(more@.take(i as int)),
        decreases more@.len() - i,
    {
        let r = &more[i];
        let ghost before = all@;
        all.push(FieldRule { name: r.name, required: r.required, kind: copy_kind(&r.kind) });
        assert(more@.take(i + 1) =~= more@.take(i as int).push(more@[i as int]));
        assert(rules_view(all@) =~= rules_view(before).push(rule_view(more@[i as int])));
        assert(rules_view(all@) =~= start + rules_view(more@.take(i + 1)));
        i = i + 1;
    }
    assert(more@.take(more@.len() as int) =~= more@);
}

/// Boolean rules, one for each name, none required.
pub open spec fn bool_rules(names: Seq<Seq<char>>) -> Seq<RuleView> {
    names.map_values(|n: Seq<char>| RuleView { name: n, required: false, kind: KindView::Bool })
}

/// Builds [`bool_rules`].
pub fn make_bool_rules(names: &Vec<&'static str>) -> (r: Vec<FieldRule>)
    ensures
        rules_view(r@) == bool_rules(names@.map_values(|c: &str| c@)),
{
    let ghost nv = names@.map_values(|c: &str| c@);
    let mut r: Vec<FieldRule> = Vec::new();
    let mut i: usize = 0;
    while i < names.len()
        invariant
            i <= names@.len(),
            nv == names@.map_values(|c: &str| c@),
            rules_view(r@) == bool_rules(nv.take(i as int)),
        decreases names@.len() - i,
    {
        let ghost before = r@;
        r.push(FieldRule { name: names[i], required: false, kind: FieldKind::Bool });
        assert(nv.take(i + 1) =~= nv.take(i as int).push(nv[i as int]));
        assert(nv[i as int] == names@[i as int]@);
        assert(rules_view(r@) =~= rules_view(before).push(rule_view(r@[i as int])));
        assert(rules_view(r@) =~= bool_rules(nv.take(i + 1)));
        i = i + 1;
    }
    assert(nv.take(names@.len() as int) =~= nv);
    r
}

/// Computes [`all_zero`].
fn zeros_only(s: &[char]) -> (r: bool)
    ensures
        r == all_zero(s@),
{
    let mut i: usize = 0;
    while i < s.len()
        invariant
            i <= s@.len(),
            forall|j: int| 0 <= j < i ==> #[trigger] s@[j] == '0',
        decreases s@.len() - i,
    {
        if s[i] != '0' {
            return false;
        }
        i = i + 1;
    }
    true
}

/// Computes [`in_unit_range`].
fn unit_range_chars(s: &[char]) -> (r: bool)
    ensures
        r == in_unit_range(s@),
{
    let u = unsigned_chars(s);
    let neg = s.len() > 0 && s[0] == '-';
    let p = split_chars(u.as_slice(), '.');
    proof {
        lemma_split_nonempty(u@, '.');
        assert(p@[0]@ == split_seq(u@, '.')[0]);
        if p@.len() > 1 {
            assert(p@[1]@ == split_seq(u@, '.')[1]);
        }
    }
    let frac_zero = p.len() == 1 || zeros_only(p[1].as_slice());
    let n = p[0].len();
    let one = n > 0 && p[0][n - 1] == '1' && zeros_only(crate::text::sub_chars(p[0].as_slice(), 0, n - 1).as_slice());
    proof {
        if n > 0 {
            assert(p@[0]@.subrange(0, n - 1) =~= p@[0]@.drop_last());
        }
    }
    (zeros_only(p[0].as_slice()) && (!neg || frac_zero)) || (!neg && one && frac_zero)
}

/// Appends the report of [`unit_range_reports`].
fn check_unit_range(t: &Token, out: &mut Vec<Report>)
    ensures
        views(final(out)@) == views(old(out)@) + unit_range_reports(*t),
{
    let ghost start = views(out@);
    let cs = t.chars();
    if !is_numeric_chars(cs.as_slice()) {
        push_report(out, report_str(ErrorKey::Validation, Severity::Error, "expected number", t.loc));
    } else if !unit_range_chars(cs.as_slice()) {
        push_report(out, report_str(ErrorKey::Range, Severity::Error, "expected a number from 0 to 1", t.loc));
    }
    assert(views(out@) =~= start + unit_range_reports(*t));
}

/// Appends the reports of [`value_reports`].
fn check_value(kind: &FieldKind, bv: &BV, db: &Db, out: &mut Vec<Report>)
    requires
        db.wf(),
    ensures
        views(final(out)@) == views(old(out)@) + value_reports(kind_view(*kind), *bv, *db),
{
    let ghost start = views(out@);
    match bv {
        BV::Block(b) => {
            match kind {
                FieldKind::Trigger => {
                    assert(views(out@) =~= start + value_reports(kind_view(*kind), *bv, *db));
                },
                FieldKind::ListItems(item) => {
                    check_items(db, *item, b, out);
                },
                FieldKind::ListChoice(cs) => {
                    check_choices(cs, b, out);
                },
                FieldKind::NumberList => {
                    check_numbers(b, out);
                },
                FieldKind::Block | FieldKind::Any | FieldKind::Advice(_) => {
                    assert(views(out@) =~= start + value_reports(kind_view(*kind), *bv, *db));
                },
                _ => {
                    push_report(
                        out,
                        report_str(ErrorKey::Structure, Severity::Error, "expected value, found block", b.loc),
                    );
                    assert(views(out@) =~= start + value_reports(kind_view(*kind), *bv, *db));
                },
            }
        },
        BV::Value(t) => {
            let cs = t.chars();
            match kind {
                FieldKind::Item(item) => {
                    check_item(db, *item, t.as_str(), t.loc, out);
                },
                FieldKind::Integer => {
                    check_form(is_integer_chars(cs.as_slice()), "expected integer", t, out);
                },
                FieldKind::Numeric => {
                    check_form(is_numeric_chars(cs.as_slice()), "expected number", t, out);
                },
                FieldKind::Bool => {
                    let ok = t.is("yes") || t.is("no");
                    check_form(ok, "expected `yes` or `no`", t, out);
                },
                FieldKind::Choice(choices) => {
                    if !is_choice(choices.as_slice(), t.as_str()) {
                        let joined = join_strs(choices.as_slice(), ", ");
                        let mut m: Vec<char> = Vec::new();
                        crate::text::push_str(&mut m, "expected one of ");
                        crate::text::push_str(&mut m, joined.as_str());
                        push_report(
                            out,
                            crate::report::make_report(ErrorKey::Choice, Severity::Error, m.as_slice(), t.loc),
                        );
                    }
                    assert(views(out@) =~= start + value_reports(kind_view(*kind), *bv, *db));
                },
                FieldKind::Value | FieldKind::Target | FieldKind::Any | FieldKind::Advice(_) => {
                    assert(views(out@) =~= start + value_reports(kind_view(*kind), *bv, *db));
                },
                FieldKind::IntRange(lo, hi) => {
                    check_int_range(t, *lo, *hi, out);
                },
                FieldKind::UnitRange => {
                    check_unit_range(t, out);
                },
                FieldKind::Date => {
                    check_form(crate::defines::is_date_chars(cs.as_slice()), "expected date value", t, out);
                },
                FieldKind::YesNoOrNumber => {
                    let ok = t.is("yes") || t.is("no") || is_numeric_chars(cs.as_slice());
                    check_form(ok, "expected number", t, out);
                },
                FieldKind::Trigger | FieldKind::ListItems(_) | FieldKind::ListChoice(_) | FieldKind::Block
                | FieldKind::NumberList => {
                    push_report(
                        out,
                        report_str(ErrorKey::Structure, Severity::Error, "expected block, found value", t.loc),
                    );
                    assert(views(out@) =~= start + value_reports(kind_view(*kind), *bv, *db));
                },
            }
        },
    }
}

/// Appends the reports of [`rule_reports`].
fn check_rule(rule: &FieldRule, b: &Block, db: &Db, out: &mut Vec<Report>)
    requires
        db.wf(),
    ensures
        views(final(out)@) == views(old(out)@) + rule_reports(rule_view(*rule), *b, *db),
{
    let ghost start = views(out@);
    let ghost rv0 = rule_view(*rule);
    if rule.required && !b.has_key(rule.name) {
        let mut m: Vec<char> = Vec::new();
        crate::text::push_str(&mut m, "required field `");
        crate::text::push_str(&mut m, rule.name);
        crate::text::push_str(&mut m, "` missing");
        push_report(out, crate::report::make_report(ErrorKey::FieldMissing, Severity::Error, m.as_slice(), b.loc));
    }
    let ghost mid = views(out@);
    assert(mid =~= start + (if rv0.required && !block_has_key(*b, rv0.name) {
        seq![
            rv(
                ErrorKey::FieldMissing,
                Severity::Error,
                "required field `"@ + rv0.name + "` missing"@,
                b.loc,
            ),
        ]
    } else {
        Seq::empty()
    }));
    let mut i: usize = 0;
    while i < b.v.len()
        invariant
            i <= b.v@.len(),
            db.wf(),
            rv0 == rule_view(*rule),
            views(out@) == mid + occurrence_reports(rv0, b.v@.take(i as int), *db),
        decreases b.v@.len() - i,
    {
        assert(b.v@.take(i + 1).drop_last() =~= b.v@.take(i as int));
        assert(b.v@.take(i + 1).last() == b.v@[i as int]);
        match &b.v[i] {
            BlockItem::Field(k, bv) => {
                if crate::text::str_eq(k.s.as_str(), rule.name) {
                    match &rule.kind {
                        FieldKind::Advice(m) => {
                            let mut msg: Vec<char> = Vec::new();
                            crate::text::push_str(&mut msg, "`");
                            crate::text::push_str(&mut msg, rule.name);
                            crate::text::push_str(&mut msg, "` is not used");
                            let info = crate::text::str_chars(m);
                            push_report(
                                out,
                                crate::report::make_report_info(
                                    ErrorKey::Deprecated,
                                    Severity::Warning,
                                    msg.as_slice(),
                                    info.as_slice(),
                                    k.loc,
                                ),
                            );
                        },
                        _ => check_value(&rule.kind, bv, db, out),
                    }
                }
            },
            _ => {},
        }
        assert(views(out@) =~= mid + occurrence_reports(rv0, b.v@.take(i + 1), *db));
        i = i + 1;
    }
    assert(b.v@.take(b.v@.len() as int) =~= b.v@);
    assert(views(out@) =~= start + rule_reports(rv0, *b, *db));
}

/// Whether some rule names the field `name`.
fn is_accepted(rules: &Vec<FieldRule>, name: &str) -> (r: bool)
    ensures
        r == accepted(rules_view(rules@), name@),
{
    let ghost rs = rules_view(rules@);
    let mut i: usize = 0;
    while i < rules.len()
        invariant
            i <= rules@.len(),
            rs == rules_view(rules@),
            forall|j: int| 0 <= j < i ==> rs[j].name != name@,
        decreases rules@.len() - i,
    {
        if crate::text::str_eq(rules[i].name, name) {
            assert(rs[i as int].name == name@);
            return true;
        }
        i = i + 1;
    }
    false
}

/// Checks block `b` against each of the rules in turn, as
/// [`rules_reports`] says.
pub fn check_rules(b: &Block, db: &Db, rules: &Vec<FieldRule>) -> (r: Vec<Report>)
    requires
        db.wf(),
    ensures
        views(r@) == rules_reports(rules_view(rules@), *b, *db),
{
    let ghost rs = rules_view(rules@);
    let mut out: Vec<Report> = Vec::new();
    let mut i: usize = 0;
    while i < rules.len()
        invariant
            i <= rules@.len(),
            db.wf(),
            rs == rules_view(rules@),
            views(out@) == rules_reports(rs.take(i as int), *b, *db),
        decreases rules@.len() - i,
    {
        assert(rs.take(i + 1).drop_last() =~= rs.take(i as int));
        assert(rs.take(i + 1).last() == rule_view(rules@[i as int]));
        check_rule(&rules[i], b, db, &mut out);
        i = i + 1;
    }
    assert(rs.take(rules@.len() as int) =~= rs);
    out
}

/// Reports the fields of `b` that no rule names, as
/// [`unknown_field_reports`] says.
pub fn check_unknown(b: &Block, rules: &Vec<FieldRule>) -> (r: Vec<Report>)
    ensures
        views(r@) == unknown_field_reports(rules_view(rules@), b.v@),
{
    let ghost rs = rules_view(rules@);
    let mut out: Vec<Report> = Vec::new();
    let mut j: usize = 0;
    while j < b.v.len()
        invariant
            j <= b.v@.len(),
            rs == rules_view(rules@),
            views(out@) == unknown_field_reports(rs, b.v@.take(j as int)),
        decreases b.v@.len() - j,
    {
        assert(b.v@.take(j + 1).drop_last() =~= b.v@.take(j as int));
        assert(b.v@.take(j + 1).last() == b.v@[j as int]);
        match &b.v[j] {
            BlockItem::Field(k, _) => {
                if !is_accepted(rules, k.s.as_str()) {
                    let mut m: Vec<char> = Vec::new();
                    crate::text::push_str(&mut m, "unknown field `");
                    crate::text::push_str(&mut m, k.s.as_str());
                    crate::text::push_str(&mut m, "`");
                    push_report(
                        &mut out,
                        crate::report::make_report(ErrorKey::UnknownField, Severity::Warning, m.as_slice(), k.loc),
                    );
                }
            },
            _ => {},
        }
        assert(views(out@) =~= unknown_field_reports(rs, b.v@.take(j + 1)));
        j = j + 1;
    }
    assert(b.v@.take(b.v@.len() as int) =~= b.v@);
    out
}

/// Appends the reports `more` to `out`.
pub fn append_reports(out: &mut Vec<Report>, more: Vec<Report>)
    ensures
        views(final(out)@) == views(old(out)@) + views(more@),
{
    let ghost a = out@;
    let ghost m = more@;
    let mut more = more;
    out.append(&mut more);
    assert(views(out@) =~= views(a) + views(m));
}

/// Checks block `b` against the rules, as [`fields_reports`] says, looking
/// items up in `db`.
pub fn check_fields(b: &Block, db: &Db, rules: &Vec<FieldRule>) -> (r: Vec<Report>)
    requires
        db.wf(),
    ensures
        views(r@) == fields_reports(rules_view(rules@), *b, *db),
{
    let mut out = check_rules(b, db, rules);
    let more = check_unknown(b, rules);
    append_reports(&mut out, more);
    out
}


/// The reports on the fields named `name` among `items` that hold a block
/// checked against `rules`: a value where the block belongs, or the
/// reports on the block's fields.
pub open spec fn nested_reports(name: Seq<char>, rules: Seq<RuleView>, items: Seq<BlockItem>, db: Db) -> Seq<
    ReportView,
>
    decreases items.len(),
{
    if items.len() == 0 {
        Seq::empty()
    } else {
        nested_reports(name, rules, items.drop_last(), db) + match items.last() {
            BlockItem::Field(k, bv) => if k.s@ == name {
                match bv {
                    BV::Value(t) => not_block_reports(t),
                    BV::Block(b) => fields_reports(rules, b, db),
                }
            } else {
                Seq::empty()
            },
            _ => Seq::empty(),
        }
    }
}

/// Computes [`nested_reports`] for the fields of `b`.
pub fn check_nested(name: &str, rules: &Vec<FieldRule>, b: &Block, db: &Db) -> (r: Vec<Report>)
    requires
        db.wf(),
    ensures
        views(r@) == nested_reports(name@, rules_view(rules@), b.v@, *db),
{
    let mut out: Vec<Report> = Vec::new();
    let mut i: usize = 0;
    while i < b.v.len()
        invariant
            i <= b.v@.len(),
            db.wf(),
            views(out@) == nested_reports(name@, rules_view(rules@), b.v@.take(i as int), *db),
        decreases b.v@.len() - i,
    {
        assert(b.v@.take(i + 1).drop_last() =~= b.v@.take(i as int));
        assert(b.v@.take(i + 1).last() == b.v@[i as int]);
        match &b.v[i] {
            BlockItem::Field(k, bv) => {
                if k.is(name) {
                    match bv {
                        BV::Value(t) => {
                            push_report(
                                &mut out,
                                report_str(ErrorKey::Structure, Severity::Error, "expected block, found value", t.loc),
                            );
                        },
                        BV::Block(inner) => append_reports(&mut out, check_fields(inner, db, rules)),
                    }
                }
            },
            _ => {},
        }
        assert(views(out@) =~= nested_reports(name@, rules_view(rules@), b.v@.take(i + 1), *db));
        i = i + 1;
    }
    assert(b.v@.take(b.v@.len() as int) =~= b.v@);
    out
}


/// The name under which a looked-up file is marked as used: each `//` read
/// as `/`, without a leading `/`.
pub open spec fn used_name(file: Seq<char>) -> Seq<char> {
    strip_slash(collapse_slashes(file))
}

/// The report that the file `file`, referenced at `loc`, is not among the
/// `files` of `game`.
pub open spec fn file_reports(files: Seq<FileEntry>, game: Game, file: Seq<char>, loc: Loc) -> Seq<ReportView> {
    if has_path(files, lookup_path(game, file)) {
        Seq::empty()
    } else {
        seq![rv(ErrorKey::MissingFile, file_severity(), "referenced file does not exist"@, loc)]
    }
}

/// The reports on the value fields named `name` among `items`, each naming
/// a file.
pub open spec fn file_field_reports(files: Seq<FileEntry>, game: Game, name: Seq<char>, items: Seq<BlockItem>) -> Seq<
    ReportView,
>
    decreases items.len(),
{
    if items.len() == 0 {
        Seq::empty()
    } else {
        file_field_reports(files, game, name, items.drop_last()) + match items.last() {
            BlockItem::Field(k, BV::Value(t)) => if k.s@ == name {
                file_reports(files, game, t.s@, t.loc)
            } else {
                Seq::empty()
            },
            _ => Seq::empty(),
        }
    }
}

/// The files named by the value fields `name` among `items`, as marked.
pub open spec fn file_field_names(name: Seq<char>, items: Seq<BlockItem>) -> Set<Seq<char>>
    decreases items.len(),
{
    if items.len() == 0 {
        Set::empty()
    } else {
        let rest = file_field_names(name, items.drop_last());
        match items.last() {
            BlockItem::Field(k, BV::Value(t)) => if k.s@ == name {
                rest.insert(used_name(t.s@))
            } else {
                rest
            },
            _ => rest,
        }
    }
}

/// The reports on the file fields `inner` of the blocks of the fields
/// `outer` among `items`.
pub open spec fn nested_file_reports(
    files: Seq<FileEntry>,
    game: Game,
    outer: Seq<char>,
    inner: Seq<char>,
    items: Seq<BlockItem>,
) -> Seq<ReportView>
    decreases items.len(),
{
    if items.len() == 0 {
        Seq::empty()
    } else {
        nested_file_reports(files, game, outer, inner, items.drop_last()) + match items.last() {
            BlockItem::Field(k, BV::Block(nb)) => if k.s@ == outer {
                file_field_reports(files, game, inner, nb.v@)
            } else {
                Seq::empty()
            },
            _ => Seq::empty(),
        }
    }
}

/// The files named by the file fields `inner` of the blocks of the fields
/// `outer` among `items`.
pub open spec fn nested_file_names(outer: Seq<char>, inner: Seq<char>, items: Seq<BlockItem>) -> Set<Seq<char>>
    decreases items.len(),
{
    if items.len() == 0 {
        Set::empty()
    } else {
        let rest = nested_file_names(outer, inner, items.drop_last());
        match items.last() {
            BlockItem::Field(k, BV::Block(nb)) => if k.s@ == outer {
                rest.union(file_field_names(inner, nb.v@))
            } else {
                rest
            },
            _ => rest,
        }
    }
}

/// The file of the icon `icon` in the icon directory `dir`.
pub open spec fn icon_file(dir: Seq<char>, icon: Seq<char>, suffix: Seq<char>) -> Seq<char> {
    dir + "/"@ + icon + suffix
}

/// The report that the icon `icon` has no file in the icon directory `dir`,
/// when the directory is known; at most a warning.
pub open spec fn icon_reports(files: Seq<FileEntry>, game: Game, dir: Option<Seq<char>>, icon: Token, suffix: Seq<char>) -> Seq<
    ReportView,
> {
    match dir {
        Some(d) => if has_path(files, lookup_path(game, icon_file(d, icon.s@, suffix))) {
            Seq::empty()
        } else {
            seq![
                rv(
                    ErrorKey::MissingFile,
                    capped(file_severity(), Severity::Warning),
                    "file "@ + icon_file(d, icon.s@, suffix) + " does not exist"@,
                    icon.loc,
                ),
            ]
        },
        None => Seq::empty(),
    }
}

/// The file of the icon, as marked, when the directory is known.
pub open spec fn icon_names(dir: Option<Seq<char>>, icon: Seq<char>, suffix: Seq<char>) -> Set<Seq<char>> {
    match dir {
        Some(d) => Set::empty().insert(used_name(icon_file(d, icon, suffix))),
        None => Set::empty(),
    }
}

/// The text of an optional string slice.
pub open spec fn opt_text(o: Option<&str>) -> Option<Seq<char>> {
    match o {
        Some(s) => Some(s@),
        None => None,
    }
}

/// Whether the file set `b` is `a` with more files marked as used: `more`.
pub open spec fn marked_more(a: Fileset, b: Fileset, more: Set<Seq<char>>) -> bool {
    &&& b.spec_used() == a.spec_used().union(more)
    &&& b.spec_files() == a.spec_files()
    &&& b.spec_keys() == a.spec_keys()
    &&& b.spec_game() == a.spec_game()
    &&& b.spec_config() == a.spec_config()
}

/// Checks the icon `icon` in the icon directory `dir`, as [`icon_reports`]
/// says, marking its file as used.
pub fn check_icon(fs: &mut Fileset, dir: Option<&str>, icon: &Token, suffix: &str) -> (r: Vec<Report>)
    requires
        old(fs).wf(),
    ensures
        final(fs).wf(),
        marked_more(*old(fs), *final(fs), icon_names(opt_text(dir), icon.s@, suffix@)),
        views(r@) == icon_reports(old(fs).spec_files(), old(fs).spec_game(), opt_text(dir), *icon, suffix@),
{
    match dir {
        Some(d) => {
            let mut v: Vec<char> = Vec::new();
            crate::text::push_str(&mut v, d);
            crate::text::push_str(&mut v, "/");
            crate::text::push_str(&mut v, icon.s.as_str());
            crate::text::push_str(&mut v, suffix);
            let file = crate::text::string_from_chars(v.as_slice());
            let r = fs.verify_exists_implied(file.as_str(), icon, Severity::Warning);
            assert(fs.spec_used() =~= old(fs).spec_used().union(icon_names(opt_text(dir), icon.s@, suffix@)));
            r
        },
        None => {
            let r: Vec<Report> = Vec::new();
            assert(views(r@) =~= Seq::<ReportView>::empty());
            assert(fs.spec_used() =~= old(fs).spec_used().union(icon_names(opt_text(dir), icon.s@, suffix@)));
            r
        },
    }
}

/// Checks the file named by each value field `name` of `b`, marking the
/// files as used.
pub fn check_file_fields(fs: &mut Fileset, b: &Block, name: &str) -> (r: Vec<Report>)
    requires
        old(fs).wf(),
    ensures
        final(fs).wf(),
        marked_more(*old(fs), *final(fs), file_field_names(name@, b.v@)),
        views(r@) == file_field_reports(old(fs).spec_files(), old(fs).spec_game(), name@, b.v@),
{
    let ghost f0 = *fs;
    let mut out: Vec<Report> = Vec::new();
    let mut i: usize = 0;
    assert(fs.spec_used() =~= f0.spec_used().union(file_field_names(name@, b.v@.take(0))));
    while i < b.v.len()
        invariant
            i <= b.v@.len(),
            fs.wf(),
            marked_more(f0, *fs, file_field_names(name@, b.v@.take(i as int))),
            views(out@) == file_field_reports(f0.spec_files(), f0.spec_game(), name@, b.v@.take(i as int)),
        decreases b.v@.len() - i,
    {
        assert(b.v@.take(i + 1).drop_last() =~= b.v@.take(i as int));
        assert(b.v@.take(i + 1).last() == b.v@[i as int]);
        let ghost before = fs.spec_used();
        match &b.v[i] {
            BlockItem::Field(k, BV::Value(t)) => {
                if k.is(name) {
                    append_reports(&mut out, fs.verify_exists(t));
                }
            },
            _ => {},
        }
        assert(fs.spec_used() =~= f0.spec_used().union(file_field_names(name@, b.v@.take(i + 1))));
        assert(views(out@) =~= file_field_reports(f0.spec_files(), f0.spec_game(), name@, b.v@.take(i + 1)));
        i = i + 1;
    }
    assert(b.v@.take(b.v@.len() as int) =~= b.v@);
    out
}

/// Checks the file fields `inner` of the blocks of the fields `outer` of
/// `b`, marking the files as used.
pub fn check_nested_file_fields(fs: &mut Fileset, b: &Block, outer: &str, inner: &str) -> (r: Vec<Report>)
    requires
        old(fs).wf(),
    ensures
        final(fs).wf(),
        marked_more(*old(fs), *final(fs), nested_file_names(outer@, inner@, b.v@)),
        views(r@) == nested_file_reports(old(fs).spec_files(), old(fs).spec_game(), outer@, inner@, b.v@),
{
    let ghost f0 = *fs;
    let mut out: Vec<Report> = Vec::new();
    let mut i: usize = 0;
    assert(fs.spec_used() =~= f0.spec_used().union(nested_file_names(outer@, inner@, b.v@.take(0))));
    while i < b.v.len()
        invariant
            i <= b.v@.len(),
            fs.wf(),
            marked_more(f0, *fs, nested_file_names(outer@, inner@, b.v@.take(i as int))),
            views(out@) == nested_file_reports(f0.spec_files(), f0.spec_game(), outer@, inner@, b.v@.take(i as int)),
        decreases b.v@.len() - i,
    {
        assert(b.v@.take(i + 1).drop_last() =~= b.v@.take(i as int));
        assert(b.v@.take(i + 1).last() == b.v@[i as int]);
        match &b.v[i] {
            BlockItem::Field(k, BV::Block(nb)) => {
                if k.is(outer) {
                    append_reports(&mut out, check_file_fields(fs, nb, inner));
                }
            },
            _ => {},
        }
        assert(fs.spec_used() =~= f0.spec_used().union(nested_file_names(outer@, inner@, b.v@.take(i + 1))));
        assert(views(out@) =~= nested_file_reports(f0.spec_files(), f0.spec_game(), outer@, inner@, b.v@.take(i + 1)));
        i = i + 1;
    }
    assert(b.v@.take(b.v@.len() as int) =~= b.v@);
    out
}


/// The reports of two lists of rules are those of each list in turn.
pub proof fn lemma_rules_reports_append(a: Seq<RuleView>, b: Seq<RuleView>, blk: Block, db: Db)
    ensures
        rules_reports(a + b, blk, db) == rules_reports(a, blk, db) + rules_reports(b, blk, db),
    decreases b.len(),
{
    if b.len() == 0 {
        assert(a + b =~= a);
        assert(rules_reports(a, blk, db) + Seq::<ReportView>::empty() =~= rules_reports(a, blk, db));
    } else {
        lemma_rules_reports_append(a, b.drop_last(), blk, db);
        assert((a + b).drop_last() =~= a + b.drop_last());
        assert((a + b).last() == b.last());
    }
}

/// The reports of a list of rules split at `k` are those of each part in
/// turn.
pub proof fn lemma_rules_reports_split(rs: Seq<RuleView>, k: int, blk: Block, db: Db)
    requires
        0 <= k <= rs.len(),
    ensures
        rules_reports(rs, blk, db) == rules_reports(rs.take(k), blk, db) + rules_reports(rs.skip(k), blk, db),
{
    lemma_rules_reports_append(rs.take(k), rs.skip(k), blk, db);
    assert(rs.take(k) + rs.skip(k) =~= rs);
}


/// Copies of the rules `v[lo..hi]`.
pub fn rules_range(v: &Vec<FieldRule>, lo: usize, hi: usize) -> (r: Vec<FieldRule>)
    requires
        lo <= hi <= v@.len(),
    ensures
        rules_view(r@) == rules_view(v@).subrange(lo as int, hi as int),
{
    let mut r: Vec<FieldRule> = Vec::new();
    let mut i: usize = lo;
    while i < hi
        invariant
            lo <= i <= hi <= v@.len(),
            rules_view(r@) == rules_view(v@).subrange(lo as int, i as int),
        decreases hi - i,
    {
        let x = &v[i];
        let ghost before = r@;
        r.push(FieldRule { name: x.name, required: x.required, kind: copy_kind(&x.kind) });
        assert(rules_view(r@) =~= rules_view(before).push(rule_view(r@[r@.len() - 1])));
        assert(rule_view(r@[r@.len() - 1]) == rule_view(v@[i as int]));
        assert(rules_view(r@) =~= rules_view(v@).subrange(lo as int, i + 1));
        i = i + 1;
    }
    r
}

/// The icon of an item: its `icon` value, else its key.
pub open spec fn icon_or_key(block: Block, key: Token) -> Token {
    match last_field_value(block.v@, "icon"@) {
        Some(t) => t,
        None => key,
    }
}


/// A field named `name` whose block is checked by rules of its own.
pub open spec fn known_block(name: Seq<char>) -> RuleView {
    RuleView { name, required: false, kind: KindView::Block }
}

/// A rule list of one block field named `name`.
pub fn known_block_rules(name: &'static str) -> (r: Vec<FieldRule>)
    ensures
        rules_view(r@) == seq![known_block(name@)],
{
    let r = vec![FieldRule { name, required: false, kind: FieldKind::Block }];
    assert(rules_view(r@) =~= seq![known_block(name@)]);
    r
}

/// Appends the report that the localization `<prefix><key><suffix>` is not
/// defined.
pub fn check_loca(db: &Db, prefix: &str, key: &Token, suffix: &str, out: &mut Vec<Report>)
    requires
        db.wf(),
    ensures
        views(final(out)@) == views(old(out)@) + item_reports(
            *db,
            Item::Localization,
            prefix@ + key.s@ + suffix@,
            key.loc,
        ),
{
    let mut v: Vec<char> = Vec::new();
    crate::text::push_str(&mut v, prefix);
    crate::text::push_str(&mut v, key.as_str());
    crate::text::push_str(&mut v, suffix);
    let name = crate::text::string_from_chars(v.as_slice());
    check_item(db, Item::Localization, name.as_str(), key.loc, out);
}

} // verus!
