//! Modifier type definitions.

use vstd::prelude::*;

use crate::block::Block;
use crate::db::{Db, Item};
use crate::token::Token;

use crate::validator::{append_reports, check_loca, check_nested, check_rules, check_unknown, extend_rules, known_block, known_block_rules, nested_reports, rules_reports, rules_view, unknown_field_reports, FieldKind, FieldRule, KindView, RuleView};
use crate::defines::item_reports;
use crate::report::{views, Report, ReportView};
use crate::eu5::tables::modifs::{lowercase_of, to_lowercase};
use crate::report::{report_str, rv, ErrorKey, Severity};
use crate::text::str_eq;
verus! {

/// The modifier type definition items.
#[derive(Clone, Debug)]
pub struct ModifierTypeDefinition {}

impl ModifierTypeDefinition {
    /// Adds the modifier type definition `key`, defined by `block`, to the database.
    pub fn add(db: &mut Db, key: Token, block: Block)
        requires
            old(db).wf(),
        ensures
            final(db).wf(),
            final(db)@ == old(db)@.insert((Item::ModifierTypeDefinition, key.s@), (key, block)),
            final(db).spec_flags() == old(db).spec_flags(),
    {
        db.add(Item::ModifierTypeDefinition, key, block);
    }
}

/// The rules for the fields of the modifier type definition.
pub open spec fn modifier_type_definition_rules() -> Seq<RuleView> {
    seq![
        RuleView { name: "decimals"@, required: false, kind: KindView::Integer },
        RuleView { name: "color"@, required: false, kind: KindView::Choice(seq!["neutral"@, "good"@, "bad"@]) },
        RuleView { name: "percent"@, required: false, kind: KindView::Bool },
        RuleView { name: "boolean"@, required: false, kind: KindView::Bool },
        RuleView { name: "already_percent"@, required: false, kind: KindView::Bool },
    ]
}

/// Rules for the `game_data` block of the modifier type definition.
pub open spec fn modifier_type_definition_game_data_rules() -> Seq<RuleView> {
    seq![
        RuleView { name: "category"@, required: false, kind: KindView::Choice(seq!["all"@, "none"@, "country"@, "location"@, "province"@, "character"@, "unit"@, "mercenary"@, "religion"@, "internationalorganization"@, "rebel"@]) },
        RuleView { name: "format"@, required: false, kind: KindView::Choice(seq!["FormatPopCaps"@, "FormatManPower"@, "FormatGold"@]) },
        RuleView { name: "bias_type"@, required: false, kind: KindView::Choice(seq!["opinion"@, "trust"@, "voting"@]) },
        RuleView { name: "min"@, required: false, kind: KindView::Numeric },
        RuleView { name: "max"@, required: false, kind: KindView::Numeric },
        RuleView { name: "cap_zero_to_one"@, required: false, kind: KindView::Bool },
        RuleView { name: "scale_with_pop"@, required: false, kind: KindView::Bool },
        RuleView { name: "ai"@, required: false, kind: KindView::Bool },
        RuleView { name: "should_show_in_modifiers_tab"@, required: false, kind: KindView::Bool },
        RuleView { name: "is_societal_value_change"@, required: false, kind: KindView::Bool },
    ]
}

/// The fields the modifier type definition knows.
pub open spec fn modifier_type_definition_known() -> Seq<RuleView> {
    modifier_type_definition_rules() + seq![known_block("game_data"@)]
}

/// The reports on the modifier type definition `key` defined by `block`: a report unless its key is
/// lowercase (equal to [`lowercase_of`] itself), its localization (`MODIFIER_TYPE_NAME_` and
/// `MODIFIER_TYPE_DESC_` with its key), its fields as [`modifier_type_definition_rules`] has them,
/// its `game_data` block checked by its own rules, and the fields it does not know.
pub open spec fn modifier_type_definition_reports(
    key: Token,
    block: Block,
    db: Db,
) -> Seq<ReportView> {
    (if lowercase_of(key.s@) == key.s@ {
            Seq::empty()
        } else {
            seq![rv(ErrorKey::DefinitionName, Severity::Error, "modifier type definition names must be lowercase"@, key.loc)]
        })
        + item_reports(db, Item::Localization, "MODIFIER_TYPE_NAME_"@ + key.s@, key.loc)
        + item_reports(db, Item::Localization, "MODIFIER_TYPE_DESC_"@ + key.s@, key.loc)
        + rules_reports(modifier_type_definition_rules(), block, db)
        + nested_reports("game_data"@, modifier_type_definition_game_data_rules(), block.v@, db)
        + unknown_field_reports(modifier_type_definition_known(), block.v@)
}

impl ModifierTypeDefinition {
    /// Checks the modifier type definition `key` defined by `block`, as
    /// [`modifier_type_definition_reports`] says.
    pub fn validate(key: &Token, block: &Block, db: &Db) -> (r: Vec<Report>)
        requires
            db.wf(),
        ensures
            views(r@) == modifier_type_definition_reports(*key, *block, *db),
    {
        let ch0 = vec!["neutral", "good", "bad"];
        assert(ch0@.map_values(|c: &str| c@) =~= seq!["neutral"@, "good"@, "bad"@]);
        let ch1 = vec!["all", "none", "country", "location", "province", "character", "unit", "mercenary", "religion", "internationalorganization", "rebel"];
        assert(ch1@.map_values(|c: &str| c@) =~= seq!["all"@, "none"@, "country"@, "location"@, "province"@, "character"@, "unit"@, "mercenary"@, "religion"@, "internationalorganization"@, "rebel"@]);
        let ch2 = vec!["FormatPopCaps", "FormatManPower", "FormatGold"];
        assert(ch2@.map_values(|c: &str| c@) =~= seq!["FormatPopCaps"@, "FormatManPower"@, "FormatGold"@]);
        let ch3 = vec!["opinion", "trust", "voting"];
        assert(ch3@.map_values(|c: &str| c@) =~= seq!["opinion"@, "trust"@, "voting"@]);
        let mut out: Vec<Report> = Vec::new();
        let low = to_lowercase(key.as_str());
        if !str_eq(low.as_str(), key.as_str()) {
            out.push(report_str(ErrorKey::DefinitionName, Severity::Error, "modifier type definition names must be lowercase", key.loc));
        }
        proof {
            reveal_strlit("");
            assert("MODIFIER_TYPE_NAME_"@ + key.s@ + ""@ =~= "MODIFIER_TYPE_NAME_"@ + key.s@);
        }
        check_loca(db, "MODIFIER_TYPE_NAME_", key, "", &mut out);
        proof {
            reveal_strlit("");
            assert("MODIFIER_TYPE_DESC_"@ + key.s@ + ""@ =~= "MODIFIER_TYPE_DESC_"@ + key.s@);
        }
        check_loca(db, "MODIFIER_TYPE_DESC_", key, "", &mut out);
        let r1 = vec![
            FieldRule { name: "decimals", required: false, kind: FieldKind::Integer },
            FieldRule { name: "color", required: false, kind: FieldKind::Choice(ch0) },
            FieldRule { name: "percent", required: false, kind: FieldKind::Bool },
            FieldRule { name: "boolean", required: false, kind: FieldKind::Bool },
            FieldRule { name: "already_percent", required: false, kind: FieldKind::Bool },
        ];
        assert(rules_view(r1@) =~= modifier_type_definition_rules());
        append_reports(&mut out, check_rules(block, db, &r1));
        let n_game_data = vec![
            FieldRule { name: "category", required: false, kind: FieldKind::Choice(ch1) },
            FieldRule { name: "format", required: false, kind: FieldKind::Choice(ch2) },
            FieldRule { name: "bias_type", required: false, kind: FieldKind::Choice(ch3) },
            FieldRule { name: "min", required: false, kind: FieldKind::Numeric },
            FieldRule { name: "max", required: false, kind: FieldKind::Numeric },
            FieldRule { name: "cap_zero_to_one", required: false, kind: FieldKind::Bool },
            FieldRule { name: "scale_with_pop", required: false, kind: FieldKind::Bool },
            FieldRule { name: "ai", required: false, kind: FieldKind::Bool },
            FieldRule { name: "should_show_in_modifiers_tab", required: false, kind: FieldKind::Bool },
            FieldRule { name: "is_societal_value_change", required: false, kind: FieldKind::Bool },
        ];
        assert(rules_view(n_game_data@) =~= modifier_type_definition_game_data_rules());
        append_reports(&mut out, check_nested("game_data", &n_game_data, block, db));
        let mut known: Vec<FieldRule> = Vec::new();
        extend_rules(&mut known, &r1);
        extend_rules(&mut known, &known_block_rules("game_data"));
        assert(rules_view(known@) =~= modifier_type_definition_known());
        append_reports(&mut out, check_unknown(block, &known));
        out
    }
}

} // verus!
