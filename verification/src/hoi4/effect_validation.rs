//! Checks of Hearts of Iron 4 effects.

use vstd::prelude::*;

use crate::report::{
    report_str, report_str_info, rv, rvi, strongly, views, ErrorKey, Report, ReportView, Severity,
};
use crate::text::{has_prefix, split_chars, split_seq, starts_with, str_chars};
use crate::token::Token;
use crate::block::{last_field_value, Block};
use crate::db::{Db, Item};
use crate::text::str_eq;
use crate::block::{BlockItem, BV};
use crate::defines::not_block_reports;
use crate::validator::{accepted, is_numeric_chars, is_numeric_text};
use crate::validator::{
    append_reports, check_fields, check_rules, check_unknown, fields_reports, rules_reports, rules_view,
    unknown_field_reports, FieldKind, FieldRule, KindView, RuleView,
};

verus! {

/// Whether a flag's `@`-tag is one of `ROOT`, `PREV`, `FROM` and `THIS`,
/// possibly followed by more.
pub open spec fn valid_flag_tag(sfx: Seq<char>) -> bool {
    has_prefix(sfx, "ROOT"@) || has_prefix(sfx, "PREV"@) || has_prefix(sfx, "FROM"@) || has_prefix(
        sfx,
        "THIS"@,
    )
}

/// The reports on a flag name: it may have at most one `@`-tag, which must
/// be a valid one.
pub open spec fn flag_name_reports(name: Token) -> Seq<ReportView> {
    let v = split_seq(name.s@, '@');
    if v.len() > 2 {
        seq![
            rvi(
                ErrorKey::Validation,
                Severity::Error,
                "too many tags in flag name"@,
                "each flag may only have one @-tag"@,
                name.loc,
            ),
        ]
    } else if v.len() == 2 && !valid_flag_tag(v[1]) {
        seq![
            rvi(
                ErrorKey::Validation,
                Severity::Error,
                "invalid tag in flag name"@,
                "must be @ROOT, @PREV, @FROM, or @THIS"@,
                name.loc,
            ),
        ]
    } else {
        Seq::empty()
    }
}

/// Checks a flag name.
pub fn validate_flag_name(name: &Token) -> (r: Vec<Report>)
    ensures
        views(r@) == flag_name_reports(*name),
{
    let cs = str_chars(name.s.as_str());
    let v = split_chars(cs.as_slice(), '@');
    let mut r: Vec<Report> = Vec::new();
    if v.len() > 2 {
        let rep = report_str_info(
            ErrorKey::Validation,
            Severity::Error,
            "too many tags in flag name",
            "each flag may only have one @-tag",
            name.loc,
        );
        r.push(rep);
        assert(views(r@) =~= seq![rep@]);
    } else if v.len() == 2 {
        let sfx = v[1].as_slice();
        let ok = starts_with(sfx, str_chars("ROOT").as_slice()) || starts_with(sfx, str_chars("PREV").as_slice())
            || starts_with(sfx, str_chars("FROM").as_slice()) || starts_with(sfx, str_chars("THIS").as_slice());
        if !ok {
            let rep = report_str_info(
                ErrorKey::Validation,
                Severity::Error,
                "invalid tag in flag name",
                "must be @ROOT, @PREV, @FROM, or @THIS",
                name.loc,
            );
            r.push(rep);
            assert(views(r@) =~= seq![rep@]);
        } else {
            assert(views(r@) =~= Seq::<ReportView>::empty());
        }
    } else {
        assert(views(r@) =~= Seq::<ReportView>::empty());
    }
    r
}

/// Checks a `clr_*_flag` effect `key` with the flag name `value`: the form
/// for unit leaders is deprecated.
pub fn validate_clr_flag(key: &Token, value: &Token) -> (r: Vec<Report>)
    ensures
        views(r@) == (if key.s@ == "clr_unit_leader_flag"@ {
            seq![
                rv(
                    ErrorKey::Deprecated,
                    Severity::Warning,
                    "deprecated in favor of clr_character_flag"@,
                    key.loc,
                ),
            ]
        } else {
            Seq::empty()
        }) + flag_name_reports(*value),
{
    let mut r: Vec<Report> = Vec::new();
    if key.is("clr_unit_leader_flag") {
        r.push(report_str(ErrorKey::Deprecated, Severity::Warning, "deprecated in favor of clr_character_flag", key.loc));
    }
    let ghost before = r@;
    let mut more = validate_flag_name(value);
    let ghost m = more@;
    r.append(&mut more);
    assert(views(r@) =~= views(before) + views(m));
    if key.is("clr_unit_leader_flag") {
        assert(views(before) =~= seq![before[0]@]);
    } else {
        assert(views(before) =~= Seq::<ReportView>::empty());
    }
    r
}

/// The values allowed for the `id` of an experience spending strategy.
pub open spec fn xp_choices(s: Seq<char>) -> Seq<Seq<char>> {
    seq!["division_template"@, "unlock_doctrine"@, "equipment_variant"@, "upgrade_xp_cutoff"@].push(
        if s == "land_xp_spend_priority"@ {
            "army_spirit"@
        } else if s == "air_xp_spend_priority"@ {
            "air_spirit"@
        } else {
            "navy_spirit"@
        },
    )
}

/// The rules shared by the front and force concentration strategies.
pub open spec fn front_common_rules() -> Seq<RuleView> {
    seq![RuleView { name: "tag"@, required: false, kind: KindView::Target }, RuleView { name: "state"@, required: false, kind: KindView::Item(Item::State) }, RuleView { name: "strategic_region"@, required: false, kind: KindView::Item(Item::StrategicRegion) }, RuleView { name: "area"@, required: false, kind: KindView::Item(Item::AiArea) }, RuleView { name: "country_trigger"@, required: false, kind: KindView::Trigger }, RuleView { name: "state_trigger"@, required: false, kind: KindView::Trigger }, RuleView { name: "ratio"@, required: false, kind: KindView::Numeric }]
}

/// The rules after the shared ones for the strategy `s` of that family:
/// `front_control` takes orders, the others a value.
pub open spec fn front_more_rules(s: Seq<char>) -> Seq<RuleView> {
    if s == "front_control"@ {
        seq![RuleView { name: "priority"@, required: false, kind: KindView::Integer }, RuleView { name: "ordertype"@, required: false, kind: KindView::Choice(seq!["front"@, "invasion"@]) }, RuleView { name: "execution_type"@, required: false, kind: KindView::Choice(seq!["careful"@, "balanced"@, "rush"@, "rush_weak"@]) }, RuleView { name: "execute_order"@, required: false, kind: KindView::Bool }, RuleView { name: "manual_attack"@, required: false, kind: KindView::Bool }]
    } else {
        seq![RuleView { name: "value"@, required: false, kind: KindView::Integer }]
    }
}

/// The rules for the fields of an AI strategy of type `s`, after its
/// `type`.
pub open spec fn strategy_rules(s: Seq<char>) -> Seq<RuleView> {
    strategy_rules_0(s)
}

/// The rules of [`strategy_rules`] for the strategy types of part 0 of
/// the table, and the later parts after them.
pub open spec fn strategy_rules_0(s: Seq<char>) -> Seq<RuleView> {
    if s == "dont_defend_ally_borders"@ || s == "declare_war"@ || s == "invade"@ || s == "equipment_market_trade_desire"@ || s == "raid_target_country"@ {
        seq![RuleView { name: "id"@, required: true, kind: KindView::Target }, RuleView { name: "value"@, required: false, kind: KindView::Integer }]
    } else if s == "force_concentration_front_factor"@ || s == "force_concentration_target_weight"@ || s == "front_control"@ || s == "front_unit_request"@ || s == "invasion_unit_request"@ {
        front_common_rules() + front_more_rules(s)
    } else if s == "put_unit_buffers"@ {
        seq![RuleView { name: "ratio"@, required: false, kind: KindView::Numeric }, RuleView { name: "order_id"@, required: false, kind: KindView::Integer }, RuleView { name: "states"@, required: false, kind: KindView::ListItems(Item::State) }, RuleView { name: "area"@, required: false, kind: KindView::Item(Item::AiArea) }, RuleView { name: "subtract_invasions_from_need"@, required: false, kind: KindView::Bool }, RuleView { name: "subtract_fronts_from_need"@, required: false, kind: KindView::Bool }]
    } else if s == "avoid_starting_wars"@ || s == "force_concentration_factor"@ || s == "naval_invasion_supremacy_weight"@ || s == "intelligence_agency_usable_factories"@ || s == "equipment_market_spend_factories"@ || s == "become_spymaster"@ {
        seq![RuleView { name: "value"@, required: false, kind: KindView::Integer }]
    } else if s == "theatre_distribution_demand_increase"@ {
        seq![RuleView { name: "id"@, required: true, kind: KindView::Item(Item::State) }, RuleView { name: "value"@, required: false, kind: KindView::Integer }]
    } else {
        strategy_rules_1(s)
    }
}

/// The rules of [`strategy_rules`] for the strategy types of part 1 of
/// the table, and the later parts after them.
pub open spec fn strategy_rules_1(s: Seq<char>) -> Seq<RuleView> {
    if s == "intelligence_agency_branch_desire_factor"@ {
        seq![RuleView { name: "id"@, required: true, kind: KindView::Item(Item::IntelligenceAgencyBranch) }, RuleView { name: "value"@, required: false, kind: KindView::Integer }]
    } else if s == "operative_mission"@ {
        seq![RuleView { name: "mission"@, required: false, kind: KindView::Item(Item::Mission) }, RuleView { name: "mission_target"@, required: false, kind: KindView::Target }, RuleView { name: "state"@, required: false, kind: KindView::Item(Item::State) }, RuleView { name: "priority"@, required: false, kind: KindView::Integer }, RuleView { name: "value"@, required: false, kind: KindView::Integer }]
    } else if s == "operative_operation"@ {
        seq![RuleView { name: "operation"@, required: false, kind: KindView::Item(Item::Operation) }, RuleView { name: "operation_target"@, required: false, kind: KindView::Target }, RuleView { name: "state"@, required: false, kind: KindView::Item(Item::State) }, RuleView { name: "region"@, required: false, kind: KindView::Item(Item::StrategicRegion) }, RuleView { name: "priority"@, required: false, kind: KindView::Integer }, RuleView { name: "value"@, required: false, kind: KindView::Integer }]
    } else if s == "build_building"@ {
        seq![RuleView { name: "id"@, required: true, kind: KindView::Item(Item::Building) }, RuleView { name: "target"@, required: false, kind: KindView::Integer }, RuleView { name: "value"@, required: false, kind: KindView::Integer }]
    } else if s == "building_target"@ {
        seq![RuleView { name: "id"@, required: true, kind: KindView::Item(Item::Building) }, RuleView { name: "value"@, required: false, kind: KindView::Integer }]
    } else {
        strategy_rules_2(s)
    }
}

/// The rules of [`strategy_rules`] for the strategy types of part 2 of
/// the table, and the later parts after them.
pub open spec fn strategy_rules_2(s: Seq<char>) -> Seq<RuleView> {
    if s == "equipment_production_factor"@ || s == "equipment_production_surplus_management"@ || s == "equipment_production_min_factories"@ {
        seq![RuleView { name: "id"@, required: true, kind: KindView::Item(Item::EquipmentCategory) }, RuleView { name: "value"@, required: false, kind: KindView::Integer }]
    } else if s == "equipment_production_min_factories_archetype"@ || s == "equipment_market_for_sale_threshold"@ || s == "equipment_market_for_sale_factor"@ || s == "equipment_market_max_for_sale"@ || s == "equipment_market_min_for_sale"@ || s == "equipment_market_buying_threshold"@ {
        seq![RuleView { name: "id"@, required: true, kind: KindView::Item(Item::Equipment) }, RuleView { name: "value"@, required: false, kind: KindView::Integer }]
    } else if s == "equipment_market_buy"@ {
        seq![RuleView { name: "equipment_type"@, required: false, kind: KindView::Item(Item::Equipment) }, RuleView { name: "seller"@, required: false, kind: KindView::Target }, RuleView { name: "value"@, required: false, kind: KindView::Integer }]
    } else if s == "research_tech"@ || s == "research_weight_factor"@ {
        seq![RuleView { name: "id"@, required: true, kind: KindView::Item(Item::Technology) }, RuleView { name: "value"@, required: false, kind: KindView::Integer }]
    } else if s == "unit_ratio"@ {
        seq![RuleView { name: "id"@, required: true, kind: KindView::Item(Item::SubUnit) }, RuleView { name: "value"@, required: false, kind: KindView::Integer }]
    } else {
        strategy_rules_3(s)
    }
}

/// The rules of [`strategy_rules`] for the strategy types of part 3 of
/// the table, and the later parts after them.
pub open spec fn strategy_rules_3(s: Seq<char>) -> Seq<RuleView> {
    if s == "land_xp_spend_priority"@ || s == "air_xp_spend_priority"@ || s == "navy_xp_spend_priority"@ {
        seq![RuleView { name: "id"@, required: true, kind: KindView::Choice(xp_choices(s)) }, RuleView { name: "value"@, required: false, kind: KindView::Integer }]
    } else if s == "strategic_air_importance"@ {
        seq![RuleView { name: "id"@, required: true, kind: KindView::Item(Item::StrategicRegion) }, RuleView { name: "value"@, required: false, kind: KindView::Integer }]
    } else if s == "befriend"@ || s == "alliance"@ || s == "antagonize"@ || s == "protect"@ || s == "conquer"@ {
        seq![RuleView { name: "id"@, required: false, kind: KindView::Target }, RuleView { name: "target"@, required: false, kind: KindView::Target }, RuleView { name: "value"@, required: false, kind: KindView::Integer }]
    } else {
        seq![RuleView { name: "id"@, required: false, kind: KindView::Value }, RuleView { name: "value"@, required: false, kind: KindView::Integer }]
    }
}

/// The rules for the block of an `add_ai_strategy` effect: a required
/// `type` naming an AI strategy type, then the rules of that type.
pub open spec fn ai_strategy_rules(b: Block) -> Seq<RuleView> {
    let type_rule = RuleView { name: "type"@, required: true, kind: KindView::Item(Item::AiStrategyType) };
    match last_field_value(b.v@, "type"@) {
        Some(t) => seq![type_rule] + strategy_rules(t.s@),
        None => seq![type_rule],
    }
}

/// Computes [`strategy_rules_0`].
fn strategy_rules_of_0(s: &str) -> (r: Vec<FieldRule>)
    ensures
        rules_view(r@) == strategy_rules_0(s@),
{
    let r = if str_eq(s, "dont_defend_ally_borders") || str_eq(s, "declare_war") || str_eq(s, "invade") || str_eq(s, "equipment_market_trade_desire") || str_eq(s, "raid_target_country") {
        vec![FieldRule { name: "id", required: true, kind: FieldKind::Target }, FieldRule { name: "value", required: false, kind: FieldKind::Integer }]
    } else if str_eq(s, "force_concentration_front_factor") || str_eq(s, "force_concentration_target_weight") || str_eq(s, "front_control") || str_eq(s, "front_unit_request") || str_eq(s, "invasion_unit_request") {
        let mut v = vec![FieldRule { name: "tag", required: false, kind: FieldKind::Target }, FieldRule { name: "state", required: false, kind: FieldKind::Item(Item::State) }, FieldRule { name: "strategic_region", required: false, kind: FieldKind::Item(Item::StrategicRegion) }, FieldRule { name: "area", required: false, kind: FieldKind::Item(Item::AiArea) }, FieldRule { name: "country_trigger", required: false, kind: FieldKind::Trigger }, FieldRule { name: "state_trigger", required: false, kind: FieldKind::Trigger }, FieldRule { name: "ratio", required: false, kind: FieldKind::Numeric }];
        let mut more = if str_eq(s, "front_control") {
            let ord = vec!["front", "invasion"];
            let exe = vec!["careful", "balanced", "rush", "rush_weak"];
            assert(ord@.map_values(|c: &str| c@) =~= seq!["front"@, "invasion"@]);
            assert(exe@.map_values(|c: &str| c@) =~= seq!["careful"@, "balanced"@, "rush"@, "rush_weak"@]);
            vec![FieldRule { name: "priority", required: false, kind: FieldKind::Integer }, FieldRule { name: "ordertype", required: false, kind: FieldKind::Choice(ord) }, FieldRule { name: "execution_type", required: false, kind: FieldKind::Choice(exe) }, FieldRule { name: "execute_order", required: false, kind: FieldKind::Bool }, FieldRule { name: "manual_attack", required: false, kind: FieldKind::Bool }]
        } else {
            vec![FieldRule { name: "value", required: false, kind: FieldKind::Integer }]
        };
        assert(rules_view(v@) =~= front_common_rules());
        assert(rules_view(more@) =~= front_more_rules(s@));
        let ghost a = v@;
        let ghost m = more@;
        v.append(&mut more);
        assert(rules_view(v@) =~= rules_view(a) + rules_view(m));
        v
    } else if str_eq(s, "put_unit_buffers") {
        vec![FieldRule { name: "ratio", required: false, kind: FieldKind::Numeric }, FieldRule { name: "order_id", required: false, kind: FieldKind::Integer }, FieldRule { name: "states", required: false, kind: FieldKind::ListItems(Item::State) }, FieldRule { name: "area", required: false, kind: FieldKind::Item(Item::AiArea) }, FieldRule { name: "subtract_invasions_from_need", required: false, kind: FieldKind::Bool }, FieldRule { name: "subtract_fronts_from_need", required: false, kind: FieldKind::Bool }]
    } else if str_eq(s, "avoid_starting_wars") || str_eq(s, "force_concentration_factor") || str_eq(s, "naval_invasion_supremacy_weight") || str_eq(s, "intelligence_agency_usable_factories") || str_eq(s, "equipment_market_spend_factories") || str_eq(s, "become_spymaster") {
        vec![FieldRule { name: "value", required: false, kind: FieldKind::Integer }]
    } else if str_eq(s, "theatre_distribution_demand_increase") {
        vec![FieldRule { name: "id", required: true, kind: FieldKind::Item(Item::State) }, FieldRule { name: "value", required: false, kind: FieldKind::Integer }]
    } else {
        strategy_rules_of_1(s)
    };
    assert(rules_view(r@) =~= strategy_rules_0(s@));
    r
}

/// Computes [`strategy_rules_1`].
fn strategy_rules_of_1(s: &str) -> (r: Vec<FieldRule>)
    ensures
        rules_view(r@) == strategy_rules_1(s@),
{
    let r = if str_eq(s, "intelligence_agency_branch_desire_factor") {
        vec![FieldRule { name: "id", required: true, kind: FieldKind::Item(Item::IntelligenceAgencyBranch) }, FieldRule { name: "value", required: false, kind: FieldKind::Integer }]
    } else if str_eq(s, "operative_mission") {
        vec![FieldRule { name: "mission", required: false, kind: FieldKind::Item(Item::Mission) }, FieldRule { name: "mission_target", required: false, kind: FieldKind::Target }, FieldRule { name: "state", required: false, kind: FieldKind::Item(Item::State) }, FieldRule { name: "priority", required: false, kind: FieldKind::Integer }, FieldRule { name: "value", required: false, kind: FieldKind::Integer }]
    } else if str_eq(s, "operative_operation") {
        vec![FieldRule { name: "operation", required: false, kind: FieldKind::Item(Item::Operation) }, FieldRule { name: "operation_target", required: false, kind: FieldKind::Target }, FieldRule { name: "state", required: false, kind: FieldKind::Item(Item::State) }, FieldRule { name: "region", required: false, kind: FieldKind::Item(Item::StrategicRegion) }, FieldRule { name: "priority", required: false, kind: FieldKind::Integer }, FieldRule { name: "value", required: false, kind: FieldKind::Integer }]
    } else if str_eq(s, "build_building") {
        vec![FieldRule { name: "id", required: true, kind: FieldKind::Item(Item::Building) }, FieldRule { name: "target", required: false, kind: FieldKind::Integer }, FieldRule { name: "value", required: false, kind: FieldKind::Integer }]
    } else if str_eq(s, "building_target") {
        vec![FieldRule { name: "id", required: true, kind: FieldKind::Item(Item::Building) }, FieldRule { name: "value", required: false, kind: FieldKind::Integer }]
    } else {
        strategy_rules_of_2(s)
    };
    assert(rules_view(r@) =~= strategy_rules_1(s@));
    r
}

/// Computes [`strategy_rules_2`].
fn strategy_rules_of_2(s: &str) -> (r: Vec<FieldRule>)
    ensures
        rules_view(r@) == strategy_rules_2(s@),
{
    let r = if str_eq(s, "equipment_production_factor") || str_eq(s, "equipment_production_surplus_management") || str_eq(s, "equipment_production_min_factories") {
        vec![FieldRule { name: "id", required: true, kind: FieldKind::Item(Item::EquipmentCategory) }, FieldRule { name: "value", required: false, kind: FieldKind::Integer }]
    } else if str_eq(s, "equipment_production_min_factories_archetype") || str_eq(s, "equipment_market_for_sale_threshold") || str_eq(s, "equipment_market_for_sale_factor") || str_eq(s, "equipment_market_max_for_sale") || str_eq(s, "equipment_market_min_for_sale") || str_eq(s, "equipment_market_buying_threshold") {
        vec![FieldRule { name: "id", required: true, kind: FieldKind::Item(Item::Equipment) }, FieldRule { name: "value", required: false, kind: FieldKind::Integer }]
    } else if str_eq(s, "equipment_market_buy") {
        vec![FieldRule { name: "equipment_type", required: false, kind: FieldKind::Item(Item::Equipment) }, FieldRule { name: "seller", required: false, kind: FieldKind::Target }, FieldRule { name: "value", required: false, kind: FieldKind::Integer }]
    } else if str_eq(s, "research_tech") || str_eq(s, "research_weight_factor") {
        vec![FieldRule { name: "id", required: true, kind: FieldKind::Item(Item::Technology) }, FieldRule { name: "value", required: false, kind: FieldKind::Integer }]
    } else if str_eq(s, "unit_ratio") {
        vec![FieldRule { name: "id", required: true, kind: FieldKind::Item(Item::SubUnit) }, FieldRule { name: "value", required: false, kind: FieldKind::Integer }]
    } else {
        strategy_rules_of_3(s)
    };
    assert(rules_view(r@) =~= strategy_rules_2(s@));
    r
}

/// Computes [`strategy_rules_3`].
fn strategy_rules_of_3(s: &str) -> (r: Vec<FieldRule>)
    ensures
        rules_view(r@) == strategy_rules_3(s@),
{
    let r = if str_eq(s, "land_xp_spend_priority") || str_eq(s, "air_xp_spend_priority") || str_eq(s, "navy_xp_spend_priority") {
        let mut cs = vec!["division_template", "unlock_doctrine", "equipment_variant", "upgrade_xp_cutoff"];
        if str_eq(s, "land_xp_spend_priority") {
            cs.push("army_spirit");
        } else if str_eq(s, "air_xp_spend_priority") {
            cs.push("air_spirit");
        } else {
            cs.push("navy_spirit");
        }
        assert(cs@.map_values(|c: &str| c@) =~= xp_choices(s@));
        vec![FieldRule { name: "id", required: true, kind: FieldKind::Choice(cs) }, FieldRule { name: "value", required: false, kind: FieldKind::Integer }]
    } else if str_eq(s, "strategic_air_importance") {
        vec![FieldRule { name: "id", required: true, kind: FieldKind::Item(Item::StrategicRegion) }, FieldRule { name: "value", required: false, kind: FieldKind::Integer }]
    } else if str_eq(s, "befriend") || str_eq(s, "alliance") || str_eq(s, "antagonize") || str_eq(s, "protect") || str_eq(s, "conquer") {
        vec![FieldRule { name: "id", required: false, kind: FieldKind::Target }, FieldRule { name: "target", required: false, kind: FieldKind::Target }, FieldRule { name: "value", required: false, kind: FieldKind::Integer }]
    } else {
        vec![FieldRule { name: "id", required: false, kind: FieldKind::Value }, FieldRule { name: "value", required: false, kind: FieldKind::Integer }]
    };
    assert(rules_view(r@) =~= strategy_rules_3(s@));
    r
}

/// Computes [`strategy_rules`].
fn strategy_rules_of(s: &str) -> (r: Vec<FieldRule>)
    ensures
        rules_view(r@) == strategy_rules(s@),
{
    strategy_rules_of_0(s)
}

/// Checks the block of an `add_ai_strategy` effect: its `type`, and the
/// fields that type takes, as [`ai_strategy_rules`] gives them; unknown
/// fields are reported.
pub fn validate_add_ai_strategy(block: &Block, db: &Db) -> (r: Vec<Report>)
    requires
        db.wf(),
    ensures
        views(r@) == fields_reports(ai_strategy_rules(*block), *block, *db),
{
    let mut rules: Vec<FieldRule> = vec![
        FieldRule { name: "type", required: true, kind: FieldKind::Item(Item::AiStrategyType) },
    ];
    match block.get_field_value("type") {
        Some(t) => {
            let mut more = strategy_rules_of(t.s.as_str());
            let ghost a = rules@;
            let ghost m = more@;
            rules.append(&mut more);
            assert(rules_view(rules@) =~= rules_view(a) + rules_view(m));
        },
        None => {},
    }
    assert(rules_view(rules@) =~= ai_strategy_rules(*block));
    check_fields(block, db, &rules)
}


/// The warning that the effect `key` is deprecated, when it is `old_name`.
pub open spec fn deprecated_reports(key: Token, old_name: Seq<char>, msg: Seq<char>) -> Seq<ReportView> {
    if key.s@ == old_name {
        seq![rv(ErrorKey::Deprecated, Severity::Warning, msg, key.loc)]
    } else {
        Seq::empty()
    }
}

/// Appends the warning of [`deprecated_reports`].
fn check_deprecated(key: &Token, old_name: &str, msg: &str, out: &mut Vec<Report>)
    ensures
        views(final(out)@) == views(old(out)@) + deprecated_reports(*key, old_name@, msg@),
{
    let ghost before = views(out@);
    if key.is(old_name) {
        crate::report::push_report(out, report_str(ErrorKey::Deprecated, Severity::Warning, msg, key.loc));
    }
    assert(views(out@) =~= before + deprecated_reports(*key, old_name@, msg@));
}

/// The rule for the required `flag` of a flag effect.
pub open spec fn flag_rule() -> RuleView {
    RuleView { name: "flag"@, required: true, kind: KindView::Value }
}

/// The reports on the flag name in the `flag` field of `b`.
pub open spec fn flag_field_reports(b: Block) -> Seq<ReportView> {
    match last_field_value(b.v@, "flag"@) {
        Some(t) => flag_name_reports(t),
        None => Seq::empty(),
    }
}

/// The reports on a block that sets or changes a flag: its `flag`, the
/// flag's name, then the integer fields `more`, then unknown fields.
pub open spec fn flag_block_reports(b: Block, db: Db, more: Seq<RuleView>) -> Seq<ReportView> {
    rules_reports(seq![flag_rule()], b, db) + flag_field_reports(b) + rules_reports(more, b, db)
        + unknown_field_reports(seq![flag_rule()] + more, b.v@)
}

/// An integer field that may be left out.
pub open spec fn integer_rule(name: Seq<char>) -> RuleView {
    RuleView { name, required: false, kind: KindView::Integer }
}

/// Appends the reports of [`flag_block_reports`].
fn check_flag_block(b: &Block, db: &Db, more: &Vec<FieldRule>, out: &mut Vec<Report>)
    requires
        db.wf(),
    ensures
        views(final(out)@) == views(old(out)@) + flag_block_reports(*b, *db, rules_view(more@)),
{
    let ghost start = views(out@);
    let flag = vec![FieldRule { name: "flag", required: true, kind: FieldKind::Value }];
    assert(rules_view(flag@) =~= seq![flag_rule()]);
    append_reports(out, check_rules(b, db, &flag));
    match b.get_field_value("flag") {
        Some(t) => append_reports(out, validate_flag_name(t)),
        None => {},
    }
    append_reports(out, check_rules(b, db, more));
    let mut all = vec![FieldRule { name: "flag", required: true, kind: FieldKind::Value }];
    let mut i: usize = 0;
    while i < more.len()
        invariant
            i <= more@.len(),
            rules_view(all@) == seq![flag_rule()] + rules_view(more@.take(i as int)),
        decreases more@.len() - i,
    {
        let r = &more[i];
        let k = crate::validator::copy_kind(&r.kind);
        let ghost before = all@;
        all.push(FieldRule { name: r.name, required: r.required, kind: k });
        assert(more@.take(i + 1) =~= more@.take(i as int).push(more@[i as int]));
        assert(rules_view(all@) =~= rules_view(before).push(rule_view_of(&more@[i as int])));
        i = i + 1;
    }
    assert(more@.take(more@.len() as int) =~= more@);
    append_reports(out, check_unknown(b, &all));
    assert(views(out@) =~= start + flag_block_reports(*b, *db, rules_view(more@)));
}

/// The plain value of a rule behind a reference.
pub open spec fn rule_view_of(r: &FieldRule) -> RuleView {
    crate::validator::rule_view(*r)
}

/// The reports on a `modify_flag` effect `key` with block `b`: its form
/// for unit leaders is deprecated; then its `flag` and its integer `value`.
pub open spec fn modify_flag_reports(key: Token, b: Block, db: Db) -> Seq<ReportView> {
    deprecated_reports(key, "modify_unit_leader_flag"@, "deprecated in favor of modify_character_flag"@)
        + flag_block_reports(b, db, seq![integer_rule("value"@)])
}

/// Checks a `modify_*_flag` effect, as [`modify_flag_reports`] says.
pub fn validate_modify_flag(key: &Token, block: &Block, db: &Db) -> (r: Vec<Report>)
    requires
        db.wf(),
    ensures
        views(r@) == modify_flag_reports(*key, *block, *db),
{
    let mut out: Vec<Report> = Vec::new();
    check_deprecated(key, "modify_unit_leader_flag", "deprecated in favor of modify_character_flag", &mut out);
    let more = vec![FieldRule { name: "value", required: false, kind: FieldKind::Integer }];
    assert(rules_view(more@) =~= seq![integer_rule("value"@)]);
    check_flag_block(block, db, &more, &mut out);
    proof {
        assert(views(Seq::<Report>::empty()) =~= Seq::<ReportView>::empty());
    }
    out
}

/// The reports on a `set_flag` effect `key` with value `bv`: its form for
/// unit leaders is deprecated; a bare value is a flag name; a block holds
/// the `flag` and the integers `days` and `value`.
pub open spec fn set_flag_reports(key: Token, bv: BV, db: Db) -> Seq<ReportView> {
    deprecated_reports(key, "set_unit_leader_flag"@, "deprecated in favor of set_character_flag"@)
        + match bv {
        BV::Value(name) => flag_name_reports(name),
        BV::Block(b) => flag_block_reports(b, db, seq![integer_rule("days"@), integer_rule("value"@)]),
    }
}

/// Checks a `set_*_flag` effect, as [`set_flag_reports`] says.
pub fn validate_set_flag(key: &Token, bv: &BV, db: &Db) -> (r: Vec<Report>)
    requires
        db.wf(),
    ensures
        views(r@) == set_flag_reports(*key, *bv, *db),
{
    let mut out: Vec<Report> = Vec::new();
    check_deprecated(key, "set_unit_leader_flag", "deprecated in favor of set_character_flag", &mut out);
    match bv {
        BV::Value(name) => append_reports(&mut out, validate_flag_name(name)),
        BV::Block(b) => {
            let more = vec![
                FieldRule { name: "days", required: false, kind: FieldKind::Integer },
                FieldRule { name: "value", required: false, kind: FieldKind::Integer },
            ];
            assert(rules_view(more@) =~= seq![integer_rule("days"@), integer_rule("value"@)]);
            check_flag_block(b, db, &more, &mut out);
        },
    }
    out
}

/// The rules for the block of an `add_ace` effect.
pub open spec fn ace_rules() -> Seq<RuleView> {
    seq![
        RuleView { name: "name"@, required: true, kind: KindView::Value },
        RuleView { name: "surname"@, required: true, kind: KindView::Value },
        RuleView { name: "callsign"@, required: true, kind: KindView::Value },
        RuleView { name: "type"@, required: false, kind: KindView::Item(Item::AceModifier) },
    ]
}

/// Checks the block of an `add_ace` effect: its name, surname and call
/// sign, and its type of ace.
pub fn validate_add_ace(block: &Block, db: &Db) -> (r: Vec<Report>)
    requires
        db.wf(),
    ensures
        views(r@) == fields_reports(ace_rules(), *block, *db),
{
    let rules = vec![
        FieldRule { name: "name", required: true, kind: FieldKind::Value },
        FieldRule { name: "surname", required: true, kind: FieldKind::Value },
        FieldRule { name: "callsign", required: true, kind: FieldKind::Value },
        FieldRule { name: "type", required: false, kind: FieldKind::Item(Item::AceModifier) },
    ];
    assert(rules_view(rules@) =~= ace_rules());
    check_fields(block, db, &rules)
}

/// The rules for the `advisor` block of an `add_advisor_role` effect.
pub open spec fn advisor_rules() -> Seq<RuleView> {
    seq![
        RuleView { name: "slot"@, required: false, kind: KindView::Item(Item::AdvisorSlot) },
        RuleView { name: "cost"@, required: false, kind: KindView::Numeric },
        RuleView { name: "can_be_fired"@, required: false, kind: KindView::Bool },
        RuleView { name: "idea_token"@, required: false, kind: KindView::Value },
        RuleView { name: "traits"@, required: false, kind: KindView::ListItems(Item::CountryLeaderTrait) },
        RuleView { name: "allowed"@, required: false, kind: KindView::Trigger },
    ]
}

/// The rules for the fields of an `add_advisor_role` effect before its
/// `advisor`: the `character` is required unless the effect runs on a
/// character.
pub open spec fn advisor_role_rules(in_character_scope: bool) -> Seq<RuleView> {
    seq![
        RuleView { name: "character"@, required: !in_character_scope, kind: KindView::Item(Item::Character) },
        RuleView { name: "activate"@, required: false, kind: KindView::Bool },
    ]
}

/// The reports on the `advisor` fields among `items`: a value where a block
/// belongs, or the reports on the block's own fields.
pub open spec fn advisor_reports(items: Seq<BlockItem>, db: Db) -> Seq<ReportView>
    decreases items.len(),
{
    if items.len() == 0 {
        Seq::empty()
    } else {
        advisor_reports(items.drop_last(), db) + match items.last() {
            BlockItem::Field(k, bv) => if k.s@ == "advisor"@ {
                match bv {
                    BV::Value(t) => not_block_reports(t),
                    BV::Block(b) => fields_reports(advisor_rules(), b, db),
                }
            } else {
                Seq::empty()
            },
            _ => Seq::empty(),
        }
    }
}

/// The reports on an `add_advisor_role` effect with block `b`, where
/// `in_character_scope` tells whether it runs on a character.
pub open spec fn advisor_role_reports(b: Block, db: Db, in_character_scope: bool) -> Seq<ReportView> {
    rules_reports(advisor_role_rules(in_character_scope), b, db) + advisor_reports(b.v@, db)
        + unknown_field_reports(
        advisor_role_rules(in_character_scope) + seq![
            RuleView { name: "advisor"@, required: false, kind: KindView::Trigger },
        ],
        b.v@,
    )
}

/// Checks an `add_advisor_role` effect, as [`advisor_role_reports`] says.
pub fn validate_add_advisor_role(block: &Block, db: &Db, in_character_scope: bool) -> (r: Vec<Report>)
    requires
        db.wf(),
    ensures
        views(r@) == advisor_role_reports(*block, *db, in_character_scope),
{
    let rules = vec![
        FieldRule { name: "character", required: !in_character_scope, kind: FieldKind::Item(Item::Character) },
        FieldRule { name: "activate", required: false, kind: FieldKind::Bool },
    ];
    assert(rules_view(rules@) =~= advisor_role_rules(in_character_scope));
    let mut out = check_rules(block, db, &rules);
    let inner = vec![
        FieldRule { name: "slot", required: false, kind: FieldKind::Item(Item::AdvisorSlot) },
        FieldRule { name: "cost", required: false, kind: FieldKind::Numeric },
        FieldRule { name: "can_be_fired", required: false, kind: FieldKind::Bool },
        FieldRule { name: "idea_token", required: false, kind: FieldKind::Value },
        FieldRule { name: "traits", required: false, kind: FieldKind::ListItems(Item::CountryLeaderTrait) },
        FieldRule { name: "allowed", required: false, kind: FieldKind::Trigger },
    ];
    assert(rules_view(inner@) =~= advisor_rules());
    let ghost mid = views(out@);
    let mut i: usize = 0;
    while i < block.v.len()
        invariant
            i <= block.v@.len(),
            db.wf(),
            rules_view(inner@) == advisor_rules(),
            views(out@) == mid + advisor_reports(block.v@.take(i as int), *db),
        decreases block.v@.len() - i,
    {
        assert(block.v@.take(i + 1).drop_last() =~= block.v@.take(i as int));
        assert(block.v@.take(i + 1).last() == block.v@[i as int]);
        let ghost before = views(out@);
        match &block.v[i] {
            BlockItem::Field(k, bv) => {
                if k.is("advisor") {
                    match bv {
                        BV::Value(t) => {
                            crate::report::push_report(
                                &mut out,
                                report_str(ErrorKey::Structure, Severity::Error, "expected block, found value", t.loc),
                            );
                        },
                        BV::Block(b) => append_reports(&mut out, check_fields(b, db, &inner)),
                    }
                }
            },
            _ => {},
        }
        assert(views(out@) =~= mid + advisor_reports(block.v@.take(i + 1), *db));
        i = i + 1;
    }
    assert(block.v@.take(block.v@.len() as int) =~= block.v@);
    let all = vec![
        FieldRule { name: "character", required: !in_character_scope, kind: FieldKind::Item(Item::Character) },
        FieldRule { name: "activate", required: false, kind: FieldKind::Bool },
        FieldRule { name: "advisor", required: false, kind: FieldKind::Trigger },
    ];
    assert(rules_view(all@) =~= advisor_role_rules(in_character_scope) + seq![
        RuleView { name: "advisor"@, required: false, kind: KindView::Trigger },
    ]);
    append_reports(&mut out, check_unknown(block, &all));
    out
}


/// Whether a weight is a negative number: a `-` before a number that is
/// not zero.
pub open spec fn negative_weight(s: Seq<char>) -> bool {
    s.len() > 0 && s[0] == '-' && is_numeric_text(s) && exists|i: int|
        0 <= i < s.len() && '1' <= #[trigger] s[i] && s[i] <= '9'
}

/// The rules for the plain fields of a `random_list` effect.
pub open spec fn random_list_rules() -> Seq<RuleView> {
    seq![
        RuleView { name: "log"@, required: false, kind: KindView::Bool },
        RuleView { name: "seed"@, required: false, kind: KindView::Value },
    ]
}

/// The reports on the weighted branches among `items`: every block field
/// other than `log` and `seed` is a branch, and a negative weight fails.
pub open spec fn branch_reports(items: Seq<BlockItem>) -> Seq<ReportView>
    decreases items.len(),
{
    if items.len() == 0 {
        Seq::empty()
    } else {
        branch_reports(items.drop_last()) + match items.last() {
            BlockItem::Field(k, BV::Block(_)) => if !accepted(random_list_rules(), k.s@) && negative_weight(
                k.s@,
            ) {
                seq![
                    strongly(
                        rv(
                            ErrorKey::Range,
                            Severity::Error,
                            "negative weights make the whole `random_list` fail"@,
                            k.loc,
                        ),
                    ),
                ]
            } else {
                Seq::empty()
            },
            _ => Seq::empty(),
        }
    }
}

/// The fields among `items` that are neither named by the rules nor a
/// weighted branch, reported as unknown.
pub open spec fn random_list_unknown(items: Seq<BlockItem>) -> Seq<ReportView>
    decreases items.len(),
{
    if items.len() == 0 {
        Seq::empty()
    } else {
        random_list_unknown(items.drop_last()) + match items.last() {
            BlockItem::Field(k, BV::Value(_)) => if accepted(random_list_rules(), k.s@) {
                Seq::empty()
            } else {
                seq![rv(ErrorKey::UnknownField, Severity::Warning, "unknown field `"@ + k.s@ + "`"@, k.loc)]
            },
            _ => Seq::empty(),
        }
    }
}

/// The reports on a `random_list` effect with block `b`: its `log` and
/// `seed`, its branches' weights, then value fields it does not know.
pub open spec fn random_list_reports(b: Block, db: Db) -> Seq<ReportView> {
    rules_reports(random_list_rules(), b, db) + branch_reports(b.v@) + random_list_unknown(b.v@)
}

/// Computes [`negative_weight`].
fn is_negative_weight(s: &[char]) -> (r: bool)
    ensures
        r == negative_weight(s@),
{
    if s.len() == 0 || s[0] != '-' || !is_numeric_chars(s) {
        return false;
    }
    let mut i: usize = 0;
    while i < s.len()
        invariant
            i <= s@.len(),
            s@.len() > 0 && s@[0] == '-' && is_numeric_text(s@),
            forall|j: int| 0 <= j < i ==> !('1' <= #[trigger] s@[j] && s@[j] <= '9'),
        decreases s@.len() - i,
    {
        if '1' <= s[i] && s[i] <= '9' {
            assert('1' <= s@[i as int] && s@[i as int] <= '9');
            return true;
        }
        i = i + 1;
    }
    false
}

/// The weighted branches among `items`: the blocks of every block field
/// other than `log` and `seed`, in order.
pub open spec fn branch_blocks(items: Seq<BlockItem>) -> Seq<Block>
    decreases items.len(),
{
    if items.len() == 0 {
        Seq::empty()
    } else {
        let rest = branch_blocks(items.drop_last());
        match items.last() {
            BlockItem::Field(k, BV::Block(b)) => if !accepted(random_list_rules(), k.s@) {
                rest.push(b)
            } else {
                rest
            },
            _ => rest,
        }
    }
}

/// Checks a `random_list` effect, as [`random_list_reports`] says, and
/// hands back its weighted branches, whose blocks are effects for the
/// caller to check.
pub fn validate_random_list<'a>(block: &'a Block, db: &Db) -> (r: (Vec<Report>, Vec<&'a Block>))
    requires
        db.wf(),
    ensures
        views(r.0@) == random_list_reports(*block, *db),
        r.1@.len() == branch_blocks(block.v@).len(),
        forall|j: int| 0 <= j < r.1@.len() ==> *#[trigger] r.1@[j] == branch_blocks(block.v@)[j],
{
    let rules = vec![
        FieldRule { name: "log", required: false, kind: FieldKind::Bool },
        FieldRule { name: "seed", required: false, kind: FieldKind::Value },
    ];
    assert(rules_view(rules@) =~= random_list_rules());
    let mut out = check_rules(block, db, &rules);
    let ghost mid = views(out@);
    let mut branches: Vec<&'a Block> = Vec::new();
    let mut i: usize = 0;
    while i < block.v.len()
        invariant
            i <= block.v@.len(),
            views(out@) == mid + branch_reports(block.v@.take(i as int)),
            branches@.len() == branch_blocks(block.v@.take(i as int)).len(),
            forall|j: int| 0 <= j < branches@.len() ==> *#[trigger] branches@[j] == branch_blocks(block.v@.take(i as int))[j],
        decreases block.v@.len() - i,
    {
        assert(block.v@.take(i + 1).drop_last() =~= block.v@.take(i as int));
        assert(block.v@.take(i + 1).last() == block.v@[i as int]);
        match &block.v[i] {
            BlockItem::Field(k, BV::Block(br)) => {
                if !k.is("log") && !k.is("seed") {
                    branches.push(br);
                }
                if !k.is("log") && !k.is("seed") && is_negative_weight(k.chars().as_slice()) {
                    crate::report::push_report(
                        &mut out,
                        report_str(
                            ErrorKey::Range,
                            Severity::Error,
                            "negative weights make the whole `random_list` fail",
                            k.loc,
                        ).make_strong(),
                    );
                }
                proof {
                    if accepted(random_list_rules(), k.s@) {
                        let w = choose|w: int| 0 <= w < random_list_rules().len() && (#[trigger] random_list_rules()[w]).name == k.s@;
                        assert(w == 0 || w == 1);
                    }
                    if k.s@ == "log"@ {
                        assert(random_list_rules()[0].name == k.s@);
                    }
                    if k.s@ == "seed"@ {
                        assert(random_list_rules()[1].name == k.s@);
                    }
                }
            },
            _ => {},
        }
        assert(views(out@) =~= mid + branch_reports(block.v@.take(i + 1)));
        i = i + 1;
    }
    assert(block.v@.take(block.v@.len() as int) =~= block.v@);
    let ghost mid2 = views(out@);
    let mut j: usize = 0;
    while j < block.v.len()
        invariant
            j <= block.v@.len(),
            views(out@) == mid2 + random_list_unknown(block.v@.take(j as int)),
        decreases block.v@.len() - j,
    {
        assert(block.v@.take(j + 1).drop_last() =~= block.v@.take(j as int));
        assert(block.v@.take(j + 1).last() == block.v@[j as int]);
        match &block.v[j] {
            BlockItem::Field(k, BV::Value(_)) => {
                let known = k.is("log") || k.is("seed");
                proof {
                    if accepted(random_list_rules(), k.s@) {
                        let w = choose|w: int| 0 <= w < random_list_rules().len() && (#[trigger] random_list_rules()[w]).name == k.s@;
                        assert(w == 0 || w == 1);
                    }
                    if k.s@ == "log"@ {
                        assert(random_list_rules()[0].name == k.s@);
                    }
                    if k.s@ == "seed"@ {
                        assert(random_list_rules()[1].name == k.s@);
                    }
                }
                if !known {
                    let mut m: Vec<char> = Vec::new();
                    crate::text::push_str(&mut m, "unknown field `");
                    crate::text::push_str(&mut m, k.s.as_str());
                    crate::text::push_str(&mut m, "`");
                    crate::report::push_report(
                        &mut out,
                        crate::report::make_report(ErrorKey::UnknownField, Severity::Warning, m.as_slice(), k.loc),
                    );
                }
            },
            _ => {},
        }
        assert(views(out@) =~= mid2 + random_list_unknown(block.v@.take(j + 1)));
        j = j + 1;
    }
    assert(block.v@.take(block.v@.len() as int) =~= block.v@);
    (out, branches)
}

} // verus!
