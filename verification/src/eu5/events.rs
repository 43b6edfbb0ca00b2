//! Europa Universalis 5 events.

use vstd::prelude::*;

use crate::block::{last_field_value, Block, BlockItem, BV};
use crate::db::{Db, Item};
use crate::defines::{check_item, item_reports, not_block_reports};
use crate::report::{
    push_report, report_str, report_str_info, rvi, views, ErrorKey, Report, ReportView, Severity,
};
use crate::validator::{
    append_reports, check_fields, check_nested, check_rules, check_unknown, extend_rules, fields_reports,
    nested_reports, rule_reports, rules_reports, rules_view, unknown_field_reports, FieldKind, FieldRule,
    KindView, RuleView,
};
use crate::scopes::Scopes;
use crate::token::Token;

verus! {

/// The scope type of an event of the given `type`, if it is a known one.
pub open spec fn event_type_scope(t: Seq<char>) -> Option<u64> {
    if t == "character_event"@ {
        Some(0x2)
    } else if t == "country_event"@ {
        Some(0x4)
    } else if t == "location_event"@ {
        Some(0x8)
    } else if t == "unit_event"@ {
        Some(0x10)
    } else if t == "exploration_event"@ {
        Some(0x20)
    } else if t == "age_event"@ {
        Some(0x40)
    } else {
        None
    }
}

/// The scope type an event `key`, defined by `block`, runs on, and the
/// token that decided it: its `type` field when it names a known type of
/// event, else the key, with a country.
pub fn get_event_scope(key: &Token, block: &Block) -> (r: (Scopes, Token))
    ensures
        match last_field_value(block.v@, "type"@) {
            Some(t) => match event_type_scope(t.s@) {
                Some(b) => r.0.bits == b && r.1 == t,
                None => r.0.bits == 0x4 && r.1 == *key,
            },
            None => r.0.bits == 0x4 && r.1 == *key,
        },
{
    if let Some(event_type) = block.get_field_value("type") {
        if event_type.is("character_event") {
            (Scopes::character(), event_type.dup())
        } else if event_type.is("country_event") {
            (Scopes::country(), event_type.dup())
        } else if event_type.is("location_event") {
            (Scopes::location(), event_type.dup())
        } else if event_type.is("unit_event") {
            (Scopes::unit(), event_type.dup())
        } else if event_type.is("exploration_event") {
            (Scopes::exploration(), event_type.dup())
        } else if event_type.is("age_event") {
            (Scopes::age(), event_type.dup())
        } else {
            (Scopes::country(), key.dup())
        }
    } else {
        (Scopes::country(), key.dup())
    }
}


/// The rules for the fields of an event before its
/// `dynamic_historical_event` blocks.
pub open spec fn event_rules_a() -> Seq<RuleView> {
    seq![
        RuleView { name: "type"@, required: false, kind: KindView::Choice(seq!["character_event"@, "country_event"@, "location_event"@, "unit_event"@, "exploration_event"@, "age_event"@]) },
        RuleView { name: "orphan"@, required: false, kind: KindView::Bool },
        RuleView { name: "hidden"@, required: false, kind: KindView::Bool },
        RuleView { name: "trigger"@, required: false, kind: KindView::Trigger },
        RuleView { name: "major_trigger"@, required: false, kind: KindView::Trigger },
        RuleView { name: "on_trigger_fail"@, required: false, kind: KindView::Block },
        RuleView { name: "weight_multiplier"@, required: false, kind: KindView::Block },
        RuleView { name: "immediate"@, required: false, kind: KindView::Block },
        RuleView { name: "image"@, required: false, kind: KindView::Value },
    ]
}

/// The rules for a `dynamic_historical_event` block.
pub open spec fn dynamic_event_rules() -> Seq<RuleView> {
    seq![
        RuleView { name: "monthly_chance"@, required: true, kind: KindView::Numeric },
        RuleView { name: "from"@, required: false, kind: KindView::Date },
        RuleView { name: "to"@, required: false, kind: KindView::Date },
        RuleView { name: "tag"@, required: false, kind: KindView::Item(Item::Country) },
    ]
}

/// The rules for the fields of an event after its
/// `dynamic_historical_event` blocks.
pub open spec fn event_rules_b() -> Seq<RuleView> {
    seq![
        RuleView { name: "major"@, required: false, kind: KindView::Bool },
        RuleView { name: "fire_only_once"@, required: false, kind: KindView::Bool },
        RuleView { name: "interface_lock"@, required: false, kind: KindView::Bool },
        RuleView { name: "hide_portraits"@, required: false, kind: KindView::Bool },
        RuleView { name: "illustration_tags"@, required: false, kind: KindView::Block },
        RuleView { name: "outcome"@, required: false, kind: KindView::Choice(seq!["positive"@, "neutral"@, "negative"@]) },
        RuleView { name: "category"@, required: false, kind: KindView::Choice(seq!["disaster_event"@, "situation_event"@, "international_organization_event"@]) },
        RuleView { name: "title"@, required: false, kind: KindView::Any },
        RuleView { name: "desc"@, required: false, kind: KindView::Any },
        RuleView { name: "historical_info"@, required: false, kind: KindView::Any },
    ]
}

/// The rules for a `name` block of an option.
pub open spec fn option_name_rules() -> Seq<RuleView> {
    seq![
        RuleView { name: "text"@, required: true, kind: KindView::Any },
        RuleView { name: "trigger"@, required: false, kind: KindView::Trigger },
    ]
}

/// The rules for the fields of an option besides its names and effects.
pub open spec fn option_rules() -> Seq<RuleView> {
    seq![
        RuleView { name: "trigger"@, required: false, kind: KindView::Trigger },
        RuleView { name: "show_as_unavailable"@, required: false, kind: KindView::Trigger },
        RuleView { name: "historical_option"@, required: false, kind: KindView::Bool },
        RuleView { name: "exclusive"@, required: false, kind: KindView::Bool },
        RuleView { name: "evil_option"@, required: false, kind: KindView::Bool },
        RuleView { name: "high_risk_option"@, required: false, kind: KindView::Bool },
        RuleView { name: "high_reward_option"@, required: false, kind: KindView::Bool },
        RuleView { name: "default_option"@, required: false, kind: KindView::Bool },
        RuleView { name: "highlighted_option"@, required: false, kind: KindView::Bool },
        RuleView { name: "fallback"@, required: false, kind: KindView::Bool },
        RuleView { name: "ai_will_select"@, required: false, kind: KindView::Any },
        RuleView { name: "ai_chance"@, required: false, kind: KindView::Any },
    ]
}

/// The rule that an event needs an `option`.
pub open spec fn option_required() -> RuleView {
    RuleView { name: "option"@, required: true, kind: KindView::Any }
}

/// Whether the event block `b` is hidden.
pub open spec fn event_hidden(b: Block) -> bool {
    last_field_value(b.v@, "hidden"@) matches Some(t) && t.s@ == "yes"@
}

/// The reports on the `name` fields among the items of an option: a value
/// is a localization, a block is checked against [`option_name_rules`].
pub open spec fn option_name_reports(items: Seq<BlockItem>, db: Db) -> Seq<ReportView>
    decreases items.len(),
{
    if items.len() == 0 {
        Seq::empty()
    } else {
        option_name_reports(items.drop_last(), db) + match items.last() {
            BlockItem::Field(k, bv) => if k.s@ == "name"@ {
                match bv {
                    BV::Value(t) => item_reports(db, Item::Localization, t.s@, t.loc),
                    BV::Block(n) => fields_reports(option_name_rules(), n, db),
                }
            } else {
                Seq::empty()
            },
            _ => Seq::empty(),
        }
    }
}

/// The reports on an option block: its names and its fields; the rest of
/// it is effects, checked elsewhere.
pub open spec fn option_reports(o: Block, db: Db) -> Seq<ReportView> {
    option_name_reports(o.v@, db) + rules_reports(option_rules(), o, db)
}

/// The reports on the `option` fields among `items`.
pub open spec fn options_reports(items: Seq<BlockItem>, db: Db) -> Seq<ReportView>
    decreases items.len(),
{
    if items.len() == 0 {
        Seq::empty()
    } else {
        options_reports(items.drop_last(), db) + match items.last() {
            BlockItem::Field(k, bv) => if k.s@ == "option"@ {
                match bv {
                    BV::Value(t) => not_block_reports(t),
                    BV::Block(o) => option_reports(o, db),
                }
            } else {
                Seq::empty()
            },
            _ => Seq::empty(),
        }
    }
}

/// Whether some `option` field of `b` holds a block.
pub open spec fn has_option_block(b: Block) -> bool {
    exists|i: int| 0 <= i < b.v@.len() && (#[trigger] b.v@[i] matches BlockItem::Field(k, BV::Block(_)) && k.s@
        == "option"@)
}

/// The reports on the `after` fields among `items`: an `after` effect of an
/// event without options never runs.
pub open spec fn after_reports(items: Seq<BlockItem>, has_options: bool) -> Seq<ReportView>
    decreases items.len(),
{
    if items.len() == 0 {
        Seq::empty()
    } else {
        after_reports(items.drop_last(), has_options) + match items.last() {
            BlockItem::Field(k, bv) => if k.s@ == "after"@ {
                match bv {
                    BV::Value(t) => not_block_reports(t),
                    BV::Block(_) => if has_options {
                        Seq::empty()
                    } else {
                        seq![
                            rvi(
                                ErrorKey::Logic,
                                Severity::Error,
                                "`after` effect will not run if there are no `option` blocks"@,
                                "you can put it in `immediate` instead"@,
                                k.loc,
                            ),
                        ]
                    },
                }
            } else {
                Seq::empty()
            },
            _ => Seq::empty(),
        }
    }
}

/// A block field named `name`.
pub open spec fn event_block_field(name: Seq<char>) -> RuleView {
    RuleView { name, required: false, kind: KindView::Block }
}

/// The fields an event knows.
pub open spec fn event_known() -> Seq<RuleView> {
    event_rules_a() + seq![event_block_field("dynamic_historical_event"@)] + event_rules_b() + seq![
        event_block_field("option"@),
        event_block_field("after"@),
    ]
}

/// The reports on the event defined by `b`: its fields in turn, its
/// `dynamic_historical_event` blocks, its options (required unless it is
/// hidden), its `after` effects, and the fields it does not know.
pub open spec fn event_reports(b: Block, db: Db) -> Seq<ReportView> {
    rules_reports(event_rules_a(), b, db) + nested_reports("dynamic_historical_event"@, dynamic_event_rules(), b.v@, db)
        + rules_reports(event_rules_b(), b, db) + (if event_hidden(b) {
        Seq::empty()
    } else {
        rule_reports(option_required(), b, db)
    }) + options_reports(b.v@, db) + after_reports(b.v@, has_option_block(b)) + unknown_field_reports(
        event_known(),
        b.v@,
    )
}

/// Computes [`option_name_reports`] for the fields of `o`.
fn check_option_names(o: &Block, db: &Db, name_rules: &Vec<FieldRule>) -> (r: Vec<Report>)
    requires
        db.wf(),
        rules_view(name_rules@) == option_name_rules(),
    ensures
        views(r@) == option_name_reports(o.v@, *db),
{
    let mut out: Vec<Report> = Vec::new();
    let mut i: usize = 0;
    while i < o.v.len()
        invariant
            i <= o.v@.len(),
            db.wf(),
            rules_view(name_rules@) == option_name_rules(),
            views(out@) == option_name_reports(o.v@.take(i as int), *db),
        decreases o.v@.len() - i,
    {
        assert(o.v@.take(i + 1).drop_last() =~= o.v@.take(i as int));
        assert(o.v@.take(i + 1).last() == o.v@[i as int]);
        match &o.v[i] {
            BlockItem::Field(k, bv) => {
                if k.is("name") {
                    match bv {
                        BV::Value(t) => check_item(db, Item::Localization, t.as_str(), t.loc, &mut out),
                        BV::Block(n) => append_reports(&mut out, check_fields(n, db, name_rules)),
                    }
                }
            },
            _ => {},
        }
        assert(views(out@) =~= option_name_reports(o.v@.take(i + 1), *db));
        i = i + 1;
    }
    assert(o.v@.take(o.v@.len() as int) =~= o.v@);
    out
}

/// Computes [`options_reports`] for the fields of `b`, and whether some
/// option is a block.
fn check_options(b: &Block, db: &Db, name_rules: &Vec<FieldRule>, opt_rules: &Vec<FieldRule>) -> (r: (
    Vec<Report>,
    bool,
))
    requires
        db.wf(),
        rules_view(name_rules@) == option_name_rules(),
        rules_view(opt_rules@) == option_rules(),
    ensures
        views(r.0@) == options_reports(b.v@, *db),
        r.1 == has_option_block(*b),
{
    let mut out: Vec<Report> = Vec::new();
    let mut found = false;
    let mut i: usize = 0;
    while i < b.v.len()
        invariant
            i <= b.v@.len(),
            db.wf(),
            rules_view(name_rules@) == option_name_rules(),
            rules_view(opt_rules@) == option_rules(),
            views(out@) == options_reports(b.v@.take(i as int), *db),
            found == exists|j: int| 0 <= j < i && (#[trigger] b.v@[j] matches BlockItem::Field(k, BV::Block(_)) && k.s@
                == "option"@),
        decreases b.v@.len() - i,
    {
        assert(b.v@.take(i + 1).drop_last() =~= b.v@.take(i as int));
        assert(b.v@.take(i + 1).last() == b.v@[i as int]);
        match &b.v[i] {
            BlockItem::Field(k, bv) => {
                if k.is("option") {
                    match bv {
                        BV::Value(t) => {
                            push_report(
                                &mut out,
                                report_str(ErrorKey::Structure, Severity::Error, "expected block, found value", t.loc),
                            );
                        },
                        BV::Block(o) => {
                            found = true;
                            append_reports(&mut out, check_option_names(o, db, name_rules));
                            append_reports(&mut out, check_rules(o, db, opt_rules));
                        },
                    }
                }
            },
            _ => {},
        }
        assert(views(out@) =~= options_reports(b.v@.take(i + 1), *db));
        i = i + 1;
    }
    assert(b.v@.take(b.v@.len() as int) =~= b.v@);
    (out, found)
}

/// Computes [`after_reports`] for the fields of `b`.
fn check_after(b: &Block, has_options: bool) -> (r: Vec<Report>)
    ensures
        views(r@) == after_reports(b.v@, has_options),
{
    let mut out: Vec<Report> = Vec::new();
    let mut i: usize = 0;
    while i < b.v.len()
        invariant
            i <= b.v@.len(),
            views(out@) == after_reports(b.v@.take(i as int), has_options),
        decreases b.v@.len() - i,
    {
        assert(b.v@.take(i + 1).drop_last() =~= b.v@.take(i as int));
        assert(b.v@.take(i + 1).last() == b.v@[i as int]);
        match &b.v[i] {
            BlockItem::Field(k, bv) => {
                if k.is("after") {
                    match bv {
                        BV::Value(t) => {
                            push_report(
                                &mut out,
                                report_str(ErrorKey::Structure, Severity::Error, "expected block, found value", t.loc),
                            );
                        },
                        BV::Block(_) => {
                            if !has_options {
                                push_report(
                                    &mut out,
                                    report_str_info(
                                        ErrorKey::Logic,
                                        Severity::Error,
                                        "`after` effect will not run if there are no `option` blocks",
                                        "you can put it in `immediate` instead",
                                        k.loc,
                                    ),
                                );
                            }
                        },
                    }
                }
            },
            _ => {},
        }
        assert(views(out@) =~= after_reports(b.v@.take(i + 1), has_options));
        i = i + 1;
    }
    assert(b.v@.take(b.v@.len() as int) =~= b.v@);
    out
}

/// Checks the event defined by `block`, as [`event_reports`] says.
#[verifier::rlimit(60)]
pub fn validate_event(block: &Block, db: &Db) -> (r: Vec<Report>)
    requires
        db.wf(),
    ensures
        views(r@) == event_reports(*block, *db),
{
    let ch0 = vec!["character_event", "country_event", "location_event", "unit_event", "exploration_event", "age_event"];
    assert(ch0@.map_values(|c: &str| c@) =~= seq!["character_event"@, "country_event"@, "location_event"@, "unit_event"@, "exploration_event"@, "age_event"@]);
    let ch1 = vec!["positive", "neutral", "negative"];
    assert(ch1@.map_values(|c: &str| c@) =~= seq!["positive"@, "neutral"@, "negative"@]);
    let ch2 = vec!["disaster_event", "situation_event", "international_organization_event"];
    assert(ch2@.map_values(|c: &str| c@) =~= seq!["disaster_event"@, "situation_event"@, "international_organization_event"@]);
    let a = vec![
        FieldRule { name: "type", required: false, kind: FieldKind::Choice(ch0) },
        FieldRule { name: "orphan", required: false, kind: FieldKind::Bool },
        FieldRule { name: "hidden", required: false, kind: FieldKind::Bool },
        FieldRule { name: "trigger", required: false, kind: FieldKind::Trigger },
        FieldRule { name: "major_trigger", required: false, kind: FieldKind::Trigger },
        FieldRule { name: "on_trigger_fail", required: false, kind: FieldKind::Block },
        FieldRule { name: "weight_multiplier", required: false, kind: FieldKind::Block },
        FieldRule { name: "immediate", required: false, kind: FieldKind::Block },
        FieldRule { name: "image", required: false, kind: FieldKind::Value },
    ];
    let dynamic = vec![
        FieldRule { name: "monthly_chance", required: true, kind: FieldKind::Numeric },
        FieldRule { name: "from", required: false, kind: FieldKind::Date },
        FieldRule { name: "to", required: false, kind: FieldKind::Date },
        FieldRule { name: "tag", required: false, kind: FieldKind::Item(Item::Country) },
    ];
    let b = vec![
        FieldRule { name: "major", required: false, kind: FieldKind::Bool },
        FieldRule { name: "fire_only_once", required: false, kind: FieldKind::Bool },
        FieldRule { name: "interface_lock", required: false, kind: FieldKind::Bool },
        FieldRule { name: "hide_portraits", required: false, kind: FieldKind::Bool },
        FieldRule { name: "illustration_tags", required: false, kind: FieldKind::Block },
        FieldRule { name: "outcome", required: false, kind: FieldKind::Choice(ch1) },
        FieldRule { name: "category", required: false, kind: FieldKind::Choice(ch2) },
        FieldRule { name: "title", required: false, kind: FieldKind::Any },
        FieldRule { name: "desc", required: false, kind: FieldKind::Any },
        FieldRule { name: "historical_info", required: false, kind: FieldKind::Any },
    ];
    let names = vec![
        FieldRule { name: "text", required: true, kind: FieldKind::Any },
        FieldRule { name: "trigger", required: false, kind: FieldKind::Trigger },
    ];
    let opts = vec![
        FieldRule { name: "trigger", required: false, kind: FieldKind::Trigger },
        FieldRule { name: "show_as_unavailable", required: false, kind: FieldKind::Trigger },
        FieldRule { name: "historical_option", required: false, kind: FieldKind::Bool },
        FieldRule { name: "exclusive", required: false, kind: FieldKind::Bool },
        FieldRule { name: "evil_option", required: false, kind: FieldKind::Bool },
        FieldRule { name: "high_risk_option", required: false, kind: FieldKind::Bool },
        FieldRule { name: "high_reward_option", required: false, kind: FieldKind::Bool },
        FieldRule { name: "default_option", required: false, kind: FieldKind::Bool },
        FieldRule { name: "highlighted_option", required: false, kind: FieldKind::Bool },
        FieldRule { name: "fallback", required: false, kind: FieldKind::Bool },
        FieldRule { name: "ai_will_select", required: false, kind: FieldKind::Any },
        FieldRule { name: "ai_chance", required: false, kind: FieldKind::Any },
    ];
    assert(rules_view(a@) =~= event_rules_a());
    assert(rules_view(dynamic@) =~= dynamic_event_rules());
    assert(rules_view(b@) =~= event_rules_b());
    assert(rules_view(names@) =~= option_name_rules());
    assert(rules_view(opts@) =~= option_rules());
    let mut out = check_rules(block, db, &a);
    append_reports(&mut out, check_nested("dynamic_historical_event", &dynamic, block, db));
    append_reports(&mut out, check_rules(block, db, &b));
    if !block.field_value_is("hidden", "yes") {
        let req = vec![FieldRule { name: "option", required: true, kind: FieldKind::Any }];
        assert(rules_view(req@) =~= seq![option_required()]);
        let rr = check_rules(block, db, &req);
        assert(rules_reports(rules_view(req@), *block, *db) =~= rule_reports(option_required(), *block, *db)) by {
            assert(rules_view(req@).drop_last() =~= Seq::<RuleView>::empty());
            assert(rules_reports(Seq::<RuleView>::empty(), *block, *db) =~= Seq::<ReportView>::empty());
        }
        append_reports(&mut out, rr);
    }
    let (opt_reports, has_options) = check_options(block, db, &names, &opts);
    append_reports(&mut out, opt_reports);
    append_reports(&mut out, check_after(block, has_options));
    let mut known: Vec<FieldRule> = Vec::new();
    extend_rules(&mut known, &a);
    let dh = vec![FieldRule { name: "dynamic_historical_event", required: false, kind: FieldKind::Block }];
    assert(rules_view(dh@) =~= seq![event_block_field("dynamic_historical_event"@)]);
    extend_rules(&mut known, &dh);
    extend_rules(&mut known, &b);
    let tail = vec![
        FieldRule { name: "option", required: false, kind: FieldKind::Block },
        FieldRule { name: "after", required: false, kind: FieldKind::Block },
    ];
    assert(rules_view(tail@) =~= seq![event_block_field("option"@), event_block_field("after"@)]);
    extend_rules(&mut known, &tail);
    assert(rules_view(known@) =~= event_known());
    append_reports(&mut out, check_unknown(block, &known));
    out
}

} // verus!
