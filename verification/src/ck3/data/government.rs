//! Government types.

use vstd::prelude::*;

use crate::block::{last_field_block, loose_values, Block};
use crate::db::{add_token_flags, token_flags, Db, Item};
use crate::token::Token;
use crate::block::block_has_key;
use crate::defines::{check_item, item_reports};
use crate::report::{views, Report, ReportView};
use crate::text::{push_str, string_from_chars};
use crate::validator::{
    append_reports, bool_rules, check_nested, check_rules, check_unknown, extend_rules, make_bool_rules,
    nested_reports, rules_reports, rules_view, unknown_field_reports, FieldKind, FieldRule, KindView,
    RuleView,
};

verus! {

/// The government type items.
#[derive(Clone, Debug)]
pub struct Government {}

impl Government {
    /// Adds the government type `key`, defined by `block`, to the database.
    pub fn add(db: &mut Db, key: Token, block: Block)
        requires
            old(db).wf(),
        ensures
            final(db).wf(),
            final(db)@ == old(db)@.insert((Item::GovernmentType, key.s@), (key, block)),
            final(db).spec_flags() == old(db).spec_flags(),
    {
        db.add(Item::GovernmentType, key, block);
    }
}

impl Government {
    /// Adds the tokens of the government's `flags` list as flags.
    pub fn add_subitems(&self, _key: &Token, block: &Block, db: &mut Db)
        ensures
            final(db).wf() == old(db).wf(),
            final(db)@ == old(db)@,
            final(db).spec_entries() == old(db).spec_entries(),
            final(db).spec_flags() == (match last_field_block(block.v@, "flags"@) {
                Some(b) => old(db).spec_flags().union(token_flags(Item::GovernmentFlag, loose_values(b.v@))),
                None => old(db).spec_flags(),
            }),
    {
        if let Some(vec) = block.get_field_list("flags") {
            add_token_flags(db, Item::GovernmentFlag, &vec);
        }
    }
}


/// The rules for the fields of a government between its rules and its
/// `currency_levels_cap`.
pub open spec fn government_rules_main() -> Seq<RuleView> {
    seq![
        RuleView { name: "mechanic_type"@, required: false, kind: KindView::Choice(seq!["feudal"@, "mercenary"@, "holy_order"@, "clan"@, "theocracy"@, "administrative"@, "landless_adventurer"@, "herder"@, "nomad"@, "mandala"@]) },
        RuleView { name: "is_mechanic_type_default"@, required: false, kind: KindView::Bool },
        RuleView { name: "fallback"@, required: false, kind: KindView::Integer },
        RuleView { name: "can_get_government"@, required: false, kind: KindView::Trigger },
        RuleView { name: "can_move_realm_capital"@, required: false, kind: KindView::Trigger },
        RuleView { name: "primary_holding"@, required: false, kind: KindView::Item(Item::HoldingType) },
        RuleView { name: "valid_holdings"@, required: false, kind: KindView::ListItems(Item::HoldingType) },
        RuleView { name: "required_county_holdings"@, required: false, kind: KindView::ListItems(Item::HoldingType) },
        RuleView { name: "generated_character_template"@, required: false, kind: KindView::Item(Item::CharacterTemplate) },
        RuleView { name: "primary_heritages"@, required: false, kind: KindView::ListItems(Item::CultureHeritage) },
        RuleView { name: "preferred_religions"@, required: false, kind: KindView::ListItems(Item::Religion) },
        RuleView { name: "primary_cultures"@, required: false, kind: KindView::ListItems(Item::Culture) },
        RuleView { name: "court_generate_spouses"@, required: false, kind: KindView::Bool },
        RuleView { name: "court_generate_commanders"@, required: false, kind: KindView::YesNoOrNumber },
        RuleView { name: "supply_limit_mult_for_others"@, required: false, kind: KindView::Numeric },
        RuleView { name: "prestige_opinion_override"@, required: false, kind: KindView::NumberList },
        RuleView { name: "royal_court"@, required: false, kind: KindView::Choice(seq!["none"@, "any"@, "top_liege"@]) },
        RuleView { name: "blocked_subject_courts"@, required: false, kind: KindView::ListItems(Item::GovernmentType) },
        RuleView { name: "main_administrative_tier"@, required: false, kind: KindView::Choice(seq!["county"@, "duchy"@, "kingdom"@]) },
        RuleView { name: "min_appointment_tier"@, required: false, kind: KindView::Choice(seq!["county"@, "duchy"@, "kingdom"@]) },
        RuleView { name: "minimum_provincial_maa_tier"@, required: false, kind: KindView::Choice(seq!["county"@, "duchy"@, "kingdom"@]) },
        RuleView { name: "title_maa_setup"@, required: false, kind: KindView::Choice(seq!["main_administrative_tier_and_top_liege"@, "vassals_and_top_liege"@, "top_vassals_and_top_liege"@]) },
        RuleView { name: "max_dread"@, required: false, kind: KindView::Integer },
        RuleView { name: "vassal_contract"@, required: false, kind: KindView::Advice("docs say vassal_contract but it's vassal_contract_group"@) },
        RuleView { name: "vassal_contract_group"@, required: false, kind: KindView::Item(Item::SubjectContractGroup) },
        RuleView { name: "house_unity"@, required: false, kind: KindView::Item(Item::HouseUnity) },
        RuleView { name: "domicile_type"@, required: false, kind: KindView::Item(Item::DomicileType) },
        RuleView { name: "opinion_of_liege"@, required: false, kind: KindView::Any },
        RuleView { name: "opinion_of_liege_desc"@, required: false, kind: KindView::Any },
        RuleView { name: "opinion_of_suzerain"@, required: false, kind: KindView::Any },
        RuleView { name: "opinion_of_suzerain_desc"@, required: false, kind: KindView::Any },
        RuleView { name: "opinion_of_overlord"@, required: false, kind: KindView::Any },
        RuleView { name: "opinion_of_overlord_desc"@, required: false, kind: KindView::Any },
    ]
}

/// The rules for the `currency_levels_cap` block of a government.
pub open spec fn currency_cap_rules() -> Seq<RuleView> {
    seq![
        RuleView { name: "piety"@, required: false, kind: KindView::Integer },
        RuleView { name: "prestige"@, required: false, kind: KindView::Integer },
        RuleView { name: "influence"@, required: false, kind: KindView::Integer },
        RuleView { name: "merit"@, required: false, kind: KindView::Integer },
    ]
}

/// The rules for the field of a government between its
/// `currency_levels_cap` and its `ai`.
pub open spec fn government_rules_succession() -> Seq<RuleView> {
    seq![
        RuleView { name: "compatible_government_type_succession"@, required: false, kind: KindView::ListItems(Item::GovernmentType) },
    ]
}

/// The rules for the `ai` block of a government.
pub open spec fn government_ai_rules() -> Seq<RuleView> {
    seq![
        RuleView { name: "use_lifestyle"@, required: false, kind: KindView::Bool },
        RuleView { name: "arrange_marriage"@, required: false, kind: KindView::Bool },
        RuleView { name: "use_goals"@, required: false, kind: KindView::Bool },
        RuleView { name: "use_decisions"@, required: false, kind: KindView::Bool },
        RuleView { name: "use_scripted_guis"@, required: false, kind: KindView::Bool },
        RuleView { name: "use_legends"@, required: false, kind: KindView::Bool },
        RuleView { name: "perform_religious_reformation"@, required: false, kind: KindView::Bool },
        RuleView { name: "use_great_projects"@, required: false, kind: KindView::Bool },
        RuleView { name: "imprison"@, required: false, kind: KindView::Bool },
        RuleView { name: "start_murders"@, required: false, kind: KindView::Bool },
    ]
}

/// The rules for the fields of a government after its `ai`.
pub open spec fn government_rules_last() -> Seq<RuleView> {
    seq![
        RuleView { name: "character_modifier"@, required: false, kind: KindView::Block },
        RuleView { name: "top_liege_character_modifier"@, required: false, kind: KindView::Block },
        RuleView { name: "color"@, required: false, kind: KindView::Block },
        RuleView { name: "ai_ruler_desired_kingdom_titles"@, required: false, kind: KindView::Any },
        RuleView { name: "ai_ruler_desired_empire_titles"@, required: false, kind: KindView::Any },
        RuleView { name: "ai_can_reassign_council_positions"@, required: false, kind: KindView::Trigger },
        RuleView { name: "flag"@, required: false, kind: KindView::Advice("replaced with `flags` list in 1.18"@) },
        RuleView { name: "flags"@, required: false, kind: KindView::Block },
        RuleView { name: "tax_slot_type"@, required: false, kind: KindView::Item(Item::TaxSlotType) },
    ]
}

/// A block field named `name`, checked by its own rules.
pub open spec fn block_rule(name: Seq<char>) -> RuleView {
    RuleView { name, required: false, kind: KindView::Block }
}

/// The fields a government knows, for the report on unknown ones: the
/// game's government rules both in `government_rules` and bare.
pub open spec fn government_known(rules: Seq<Seq<char>>) -> Seq<RuleView> {
    seq![block_rule("government_rules"@)] + bool_rules(rules) + government_rules_main() + seq![
        block_rule("currency_levels_cap"@),
    ] + government_rules_succession() + seq![block_rule("ai"@)] + government_rules_last()
}

/// The localizations a government needs: its name, adjective, realm and
/// description, and the label of its vassals when it has a
/// `vassal_contract`.
pub open spec fn government_loca_reports(key: Token, block: Block, db: Db) -> Seq<ReportView> {
    item_reports(db, Item::Localization, key.s@, key.loc) + item_reports(
        db,
        Item::Localization,
        key.s@ + "_adjective"@,
        key.loc,
    ) + item_reports(db, Item::Localization, key.s@ + "_realm"@, key.loc) + item_reports(
        db,
        Item::Localization,
        key.s@ + "_desc"@,
        key.loc,
    ) + if block_has_key(block, "vassal_contract"@) {
        item_reports(db, Item::Localization, key.s@ + "_vassals_label"@, key.loc)
    } else {
        Seq::empty()
    }
}

/// The reports on the government `key` defined by `block`, where `rules`
/// are the game's government rules: its localizations, its
/// `government_rules` block, the same rules as bare fields (deprecated),
/// its other fields in turn with the blocks `currency_levels_cap` and `ai`
/// checked by their own rules, and the fields it does not know.
pub open spec fn government_reports(key: Token, block: Block, db: Db, rules: Seq<Seq<char>>) -> Seq<
    ReportView,
> {
    government_loca_reports(key, block, db) + nested_reports(
        "government_rules"@,
        bool_rules(rules),
        block.v@,
        db,
    ) + rules_reports(bool_rules(rules), block, db) + rules_reports(government_rules_main(), block, db)
        + nested_reports("currency_levels_cap"@, currency_cap_rules(), block.v@, db) + rules_reports(
        government_rules_succession(),
        block,
        db,
    ) + nested_reports("ai"@, government_ai_rules(), block.v@, db) + rules_reports(
        government_rules_last(),
        block,
        db,
    ) + unknown_field_reports(government_known(rules), block.v@)
}

/// Appends the reports on a localization `name` that `key` needs.
fn check_loca(db: &Db, key: &Token, suffix: &str, out: &mut Vec<Report>)
    requires
        db.wf(),
    ensures
        views(final(out)@) == views(old(out)@) + item_reports(*db, Item::Localization, key.s@ + suffix@, key.loc),
{
    let mut v: Vec<char> = Vec::new();
    push_str(&mut v, key.as_str());
    push_str(&mut v, suffix);
    let name = string_from_chars(v.as_slice());
    check_item(db, Item::Localization, name.as_str(), key.loc, out);
}

impl Government {
    /// Checks the government `key` defined by `block`, as
    /// [`government_reports`] says; `rules` are the game's government rules.
    pub fn validate(key: &Token, block: &Block, db: &Db, rules: &Vec<&'static str>) -> (r: Vec<Report>)
        requires
            db.wf(),
        ensures
            views(r@) == government_reports(*key, *block, *db, rules@.map_values(|c: &str| c@)),
    {
        let ghost rv = rules@.map_values(|c: &str| c@);
        let mut out: Vec<Report> = Vec::new();
        check_item(db, Item::Localization, key.as_str(), key.loc, &mut out);
        check_loca(db, key, "_adjective", &mut out);
        check_loca(db, key, "_realm", &mut out);
        check_loca(db, key, "_desc", &mut out);
        if block.has_key("vassal_contract") {
            check_loca(db, key, "_vassals_label", &mut out);
        }
        assert(views(out@) =~= government_loca_reports(*key, *block, *db));
        let bools = make_bool_rules(rules);
        let ch0 = vec!["feudal", "mercenary", "holy_order", "clan", "theocracy", "administrative", "landless_adventurer", "herder", "nomad", "mandala"];
        assert(ch0@.map_values(|c: &str| c@) =~= seq!["feudal"@, "mercenary"@, "holy_order"@, "clan"@, "theocracy"@, "administrative"@, "landless_adventurer"@, "herder"@, "nomad"@, "mandala"@]);
        let ch1 = vec!["none", "any", "top_liege"];
        assert(ch1@.map_values(|c: &str| c@) =~= seq!["none"@, "any"@, "top_liege"@]);
        let ch2 = vec!["county", "duchy", "kingdom"];
        assert(ch2@.map_values(|c: &str| c@) =~= seq!["county"@, "duchy"@, "kingdom"@]);
        let ch3 = vec!["county", "duchy", "kingdom"];
        assert(ch3@.map_values(|c: &str| c@) =~= seq!["county"@, "duchy"@, "kingdom"@]);
        let ch4 = vec!["county", "duchy", "kingdom"];
        assert(ch4@.map_values(|c: &str| c@) =~= seq!["county"@, "duchy"@, "kingdom"@]);
        let ch5 = vec!["main_administrative_tier_and_top_liege", "vassals_and_top_liege", "top_vassals_and_top_liege"];
        assert(ch5@.map_values(|c: &str| c@) =~= seq!["main_administrative_tier_and_top_liege"@, "vassals_and_top_liege"@, "top_vassals_and_top_liege"@]);
        let main = vec![
            FieldRule { name: "mechanic_type", required: false, kind: FieldKind::Choice(ch0) },
            FieldRule { name: "is_mechanic_type_default", required: false, kind: FieldKind::Bool },
            FieldRule { name: "fallback", required: false, kind: FieldKind::Integer },
            FieldRule { name: "can_get_government", required: false, kind: FieldKind::Trigger },
            FieldRule { name: "can_move_realm_capital", required: false, kind: FieldKind::Trigger },
            FieldRule { name: "primary_holding", required: false, kind: FieldKind::Item(Item::HoldingType) },
            FieldRule { name: "valid_holdings", required: false, kind: FieldKind::ListItems(Item::HoldingType) },
            FieldRule { name: "required_county_holdings", required: false, kind: FieldKind::ListItems(Item::HoldingType) },
            FieldRule { name: "generated_character_template", required: false, kind: FieldKind::Item(Item::CharacterTemplate) },
            FieldRule { name: "primary_heritages", required: false, kind: FieldKind::ListItems(Item::CultureHeritage) },
            FieldRule { name: "preferred_religions", required: false, kind: FieldKind::ListItems(Item::Religion) },
            FieldRule { name: "primary_cultures", required: false, kind: FieldKind::ListItems(Item::Culture) },
            FieldRule { name: "court_generate_spouses", required: false, kind: FieldKind::Bool },
            FieldRule { name: "court_generate_commanders", required: false, kind: FieldKind::YesNoOrNumber },
            FieldRule { name: "supply_limit_mult_for_others", required: false, kind: FieldKind::Numeric },
            FieldRule { name: "prestige_opinion_override", required: false, kind: FieldKind::NumberList },
            FieldRule { name: "royal_court", required: false, kind: FieldKind::Choice(ch1) },
            FieldRule { name: "blocked_subject_courts", required: false, kind: FieldKind::ListItems(Item::GovernmentType) },
            FieldRule { name: "main_administrative_tier", required: false, kind: FieldKind::Choice(ch2) },
            FieldRule { name: "min_appointment_tier", required: false, kind: FieldKind::Choice(ch3) },
            FieldRule { name: "minimum_provincial_maa_tier", required: false, kind: FieldKind::Choice(ch4) },
            FieldRule { name: "title_maa_setup", required: false, kind: FieldKind::Choice(ch5) },
            FieldRule { name: "max_dread", required: false, kind: FieldKind::Integer },
            FieldRule { name: "vassal_contract", required: false, kind: FieldKind::Advice("docs say vassal_contract but it's vassal_contract_group") },
            FieldRule { name: "vassal_contract_group", required: false, kind: FieldKind::Item(Item::SubjectContractGroup) },
            FieldRule { name: "house_unity", required: false, kind: FieldKind::Item(Item::HouseUnity) },
            FieldRule { name: "domicile_type", required: false, kind: FieldKind::Item(Item::DomicileType) },
            FieldRule { name: "opinion_of_liege", required: false, kind: FieldKind::Any },
            FieldRule { name: "opinion_of_liege_desc", required: false, kind: FieldKind::Any },
            FieldRule { name: "opinion_of_suzerain", required: false, kind: FieldKind::Any },
            FieldRule { name: "opinion_of_suzerain_desc", required: false, kind: FieldKind::Any },
            FieldRule { name: "opinion_of_overlord", required: false, kind: FieldKind::Any },
            FieldRule { name: "opinion_of_overlord_desc", required: false, kind: FieldKind::Any },
        ];
        let cur = vec![
            FieldRule { name: "piety", required: false, kind: FieldKind::Integer },
            FieldRule { name: "prestige", required: false, kind: FieldKind::Integer },
            FieldRule { name: "influence", required: false, kind: FieldKind::Integer },
            FieldRule { name: "merit", required: false, kind: FieldKind::Integer },
        ];
        let succession = vec![
            FieldRule { name: "compatible_government_type_succession", required: false, kind: FieldKind::ListItems(Item::GovernmentType) },
        ];
        let ai = vec![
            FieldRule { name: "use_lifestyle", required: false, kind: FieldKind::Bool },
            FieldRule { name: "arrange_marriage", required: false, kind: FieldKind::Bool },
            FieldRule { name: "use_goals", required: false, kind: FieldKind::Bool },
            FieldRule { name: "use_decisions", required: false, kind: FieldKind::Bool },
            FieldRule { name: "use_scripted_guis", required: false, kind: FieldKind::Bool },
            FieldRule { name: "use_legends", required: false, kind: FieldKind::Bool },
            FieldRule { name: "perform_religious_reformation", required: false, kind: FieldKind::Bool },
            FieldRule { name: "use_great_projects", required: false, kind: FieldKind::Bool },
            FieldRule { name: "imprison", required: false, kind: FieldKind::Bool },
            FieldRule { name: "start_murders", required: false, kind: FieldKind::Bool },
        ];
        let last = vec![
            FieldRule { name: "character_modifier", required: false, kind: FieldKind::Block },
            FieldRule { name: "top_liege_character_modifier", required: false, kind: FieldKind::Block },
            FieldRule { name: "color", required: false, kind: FieldKind::Block },
            FieldRule { name: "ai_ruler_desired_kingdom_titles", required: false, kind: FieldKind::Any },
            FieldRule { name: "ai_ruler_desired_empire_titles", required: false, kind: FieldKind::Any },
            FieldRule { name: "ai_can_reassign_council_positions", required: false, kind: FieldKind::Trigger },
            FieldRule { name: "flag", required: false, kind: FieldKind::Advice("replaced with `flags` list in 1.18") },
            FieldRule { name: "flags", required: false, kind: FieldKind::Block },
            FieldRule { name: "tax_slot_type", required: false, kind: FieldKind::Item(Item::TaxSlotType) },
        ];
        assert(rules_view(main@) =~= government_rules_main());
        assert(rules_view(cur@) =~= currency_cap_rules());
        assert(rules_view(succession@) =~= government_rules_succession());
        assert(rules_view(ai@) =~= government_ai_rules());
        assert(rules_view(last@) =~= government_rules_last());
        append_reports(&mut out, check_nested("government_rules", &bools, block, db));
        append_reports(&mut out, check_rules(block, db, &bools));
        append_reports(&mut out, check_rules(block, db, &main));
        append_reports(&mut out, check_nested("currency_levels_cap", &cur, block, db));
        append_reports(&mut out, check_rules(block, db, &succession));
        append_reports(&mut out, check_nested("ai", &ai, block, db));
        append_reports(&mut out, check_rules(block, db, &last));
        let mut known = vec![FieldRule { name: "government_rules", required: false, kind: FieldKind::Block }];
        assert(rules_view(known@) =~= seq![block_rule("government_rules"@)]);
        extend_rules(&mut known, &bools);
        extend_rules(&mut known, &main);
        let mid1 = vec![FieldRule { name: "currency_levels_cap", required: false, kind: FieldKind::Block }];
        assert(rules_view(mid1@) =~= seq![block_rule("currency_levels_cap"@)]);
        extend_rules(&mut known, &mid1);
        extend_rules(&mut known, &succession);
        let mid2 = vec![FieldRule { name: "ai", required: false, kind: FieldKind::Block }];
        assert(rules_view(mid2@) =~= seq![block_rule("ai"@)]);
        extend_rules(&mut known, &mid2);
        extend_rules(&mut known, &last);
        assert(rules_view(known@) =~= government_known(rv));
        append_reports(&mut out, check_unknown(block, &known));
        out
    }
}

} // verus!
