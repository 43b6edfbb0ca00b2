//! Character templates.

use vstd::prelude::*;

use crate::block::{block_has_key, Block};
use crate::db::{Db, Item};
use crate::token::Token;
use crate::report::{views, Report, ReportView};
use crate::validator::{check_fields, fields_reports, kind_view, rule_view, rules_view, FieldKind, FieldRule, KindView, RuleView};

verus! {

/// The character template items.
#[derive(Clone, Debug)]
pub struct CharacterTemplate {}

impl CharacterTemplate {
    /// Adds the character template `key`, defined by `block`, to the database.
    pub fn add(db: &mut Db, key: Token, block: Block)
        requires
            old(db).wf(),
        ensures
            final(db).wf(),
            final(db)@ == old(db)@.insert((Item::CharacterTemplate, key.s@), (key, block)),
            final(db).spec_flags() == old(db).spec_flags(),
    {
        db.add(Item::CharacterTemplate, key, block);
    }
}


/// The rule for the field `name` of a character template: of kind `set` when
/// the caller sets that field itself (`given(name)`), else of kind `unset`.
pub open spec fn template_rule(given: spec_fn(Seq<char>) -> bool, name: Seq<char>, set: KindView, unset: KindView) -> RuleView {
    RuleView { name, required: false, kind: if given(name) { set } else { unset } }
}

/// The rules for the fields of a character template whose caller sets the
/// fields for which `given` holds: such a field is only read as it stands.
pub open spec fn template_rules_given(given: spec_fn(Seq<char>) -> bool) -> Seq<RuleView> {
    seq![
        template_rule(given, "name"@, KindView::Value, KindView::Item(Item::Localization)),
        RuleView { name: "age"@, required: false, kind: KindView::Any },
        RuleView { name: "health"@, required: false, kind: KindView::Any },
        RuleView { name: "diplomacy"@, required: false, kind: KindView::Any },
        RuleView { name: "intrigue"@, required: false, kind: KindView::Any },
        RuleView { name: "learning"@, required: false, kind: KindView::Any },
        RuleView { name: "martial"@, required: false, kind: KindView::Any },
        RuleView { name: "prowess"@, required: false, kind: KindView::Any },
        RuleView { name: "stewardship"@, required: false, kind: KindView::Any },
        RuleView { name: "gender"@, required: false, kind: KindView::Value },
        RuleView { name: "gender_female_chance"@, required: false, kind: KindView::Any },
        RuleView { name: "trait"@, required: false, kind: KindView::Item(Item::Trait) },
        RuleView { name: "random_traits_list"@, required: false, kind: KindView::Block },
        RuleView { name: "random_traits"@, required: false, kind: KindView::Bool },
        template_rule(given, "culture"@, KindView::Value, KindView::Target),
        RuleView { name: "random_culture"@, required: false, kind: KindView::Block },
        template_rule(given, "faith"@, KindView::Value, KindView::Target),
        RuleView { name: "random_faith"@, required: false, kind: KindView::Block },
        template_rule(given, "dynasty_house"@, KindView::Value, KindView::Target),
        template_rule(
            given,
            "dynasty"@,
            KindView::Value,
            KindView::Choice(seq!["generate"@, "inherit"@, "none"@]),
        ),
        RuleView { name: "after_creation"@, required: false, kind: KindView::Block },
    ]
}

/// The rules for the fields of a character template called from the block
/// `from`: the fields that `from` has are the ones its caller sets.
pub open spec fn template_rules(from: Block) -> Seq<RuleView> {
    template_rules_given(|name: Seq<char>| block_has_key(from, name))
}

/// The rules for the fields of a character template checked on its own,
/// with no field set by a caller.
pub open spec fn lone_template_rules() -> Seq<RuleView> {
    template_rules_given(|name: Seq<char>| false)
}

/// The rule for the field `name`, of kind `set` when `from` sets that field
/// itself, else of kind `unset`.
fn pick_rule(from: &Block, name: &'static str, set: FieldKind, unset: FieldKind) -> (r: FieldRule)
    ensures
        rule_view(r) == template_rule(|n: Seq<char>| block_has_key(*from, n), name@, kind_view(set), kind_view(unset)),
{
    if from.has_key(name) {
        FieldRule { name, required: false, kind: set }
    } else {
        FieldRule { name, required: false, kind: unset }
    }
}

impl CharacterTemplate {
    /// Checks the character template `key` defined by `block` on its own, as
    /// a call from an empty block.
    pub fn validate(key: &Token, block: &Block, db: &Db) -> (r: Vec<Report>)
        requires
            db.wf(),
        ensures
            views(r@) == fields_reports(lone_template_rules(), *block, *db),
    {
        let from = Block::new(key.loc);
        assert(template_rules(from) =~= lone_template_rules());
        Self::validate_call(key, block, key, &from, db)
    }

    /// Checks the character template `key` defined by `block`, called by
    /// `from` with the block `from_block`: its fields as [`template_rules`]
    /// has them for `from_block`, and the fields it does not know.
    pub fn validate_call(_key: &Token, block: &Block, _from: &Token, from_block: &Block, db: &Db) -> (r: Vec<Report>)
        requires
            db.wf(),
        ensures
            views(r@) == fields_reports(template_rules(*from_block), *block, *db),
    {
        let dynasties = vec!["generate", "inherit", "none"];
        assert(dynasties@.map_values(|c: &str| c@) =~= seq!["generate"@, "inherit"@, "none"@]);
        let rules = vec![
            pick_rule(from_block, "name", FieldKind::Value, FieldKind::Item(Item::Localization)),
            FieldRule { name: "age", required: false, kind: FieldKind::Any },
            FieldRule { name: "health", required: false, kind: FieldKind::Any },
            FieldRule { name: "diplomacy", required: false, kind: FieldKind::Any },
            FieldRule { name: "intrigue", required: false, kind: FieldKind::Any },
            FieldRule { name: "learning", required: false, kind: FieldKind::Any },
            FieldRule { name: "martial", required: false, kind: FieldKind::Any },
            FieldRule { name: "prowess", required: false, kind: FieldKind::Any },
            FieldRule { name: "stewardship", required: false, kind: FieldKind::Any },
            FieldRule { name: "gender", required: false, kind: FieldKind::Value },
            FieldRule { name: "gender_female_chance", required: false, kind: FieldKind::Any },
            FieldRule { name: "trait", required: false, kind: FieldKind::Item(Item::Trait) },
            FieldRule { name: "random_traits_list", required: false, kind: FieldKind::Block },
            FieldRule { name: "random_traits", required: false, kind: FieldKind::Bool },
            pick_rule(from_block, "culture", FieldKind::Value, FieldKind::Target),
            FieldRule { name: "random_culture", required: false, kind: FieldKind::Block },
            pick_rule(from_block, "faith", FieldKind::Value, FieldKind::Target),
            FieldRule { name: "random_faith", required: false, kind: FieldKind::Block },
            pick_rule(from_block, "dynasty_house", FieldKind::Value, FieldKind::Target),
            pick_rule(from_block, "dynasty", FieldKind::Value, FieldKind::Choice(dynasties)),
            FieldRule { name: "after_creation", required: false, kind: FieldKind::Block },
        ];
        assert(rules_view(rules@) =~= template_rules(*from_block));
        check_fields(block, db, &rules)
    }
}

} // verus!
