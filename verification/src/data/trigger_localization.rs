//! Trigger localizations: how a trigger is described to the player, from
//! each perspective, plain and negated.

use vstd::prelude::*;

use crate::block::{block_has_key, last_field_value, Block};
use crate::db::{Db, Item};
use crate::nameset::NameSet;
use crate::text::push_str;
use crate::report::{make_report, rv, views, with_also, ErrorKey, Report, ReportView, Severity};
use crate::tooltipped::Tooltipped;
use crate::token::Token;
use crate::game::Game;
use crate::defines::{check_item, item_reports};

use crate::validator::{append_reports, check_rules, check_unknown, rules_reports, rules_view, unknown_field_reports, FieldKind, FieldRule, KindView, RuleView};
verus! {

/// The trigger localization items.
#[derive(Clone, Debug)]
pub struct TriggerLocalization {}

/// Whether a localization `NOT_<text>` of the `field` of `block` is defined.
pub open spec fn has_not_loca(block: Block, field: Seq<char>, locas: Set<Seq<char>>) -> bool {
    last_field_value(block.v@, field) matches Some(t) && locas.contains("NOT_"@ + t.s@)
}

/// The report, if any, on a use at `caller` of the trigger localization
/// `key`, defined by `block`, given the defined localization keys: a tooltip
/// needs a perspective for the trigger, and a negated one needs a negated
/// perspective or a `NOT_` localization of a plain one. The report points
/// also to `key`.
pub open spec fn use_reports(
    key: Token,
    block: Block,
    locas: Set<Seq<char>>,
    caller: Token,
    tooltipped: Tooltipped,
    negated: bool,
) -> Seq<ReportView> {
    if tooltipped == Tooltipped::No {
        Seq::empty()
    } else if negated {
        if block_has_key(block, "global_not"@) || block_has_key(block, "first_not"@) || block_has_key(
            block,
            "third_not"@,
        ) || block_has_key(block, "none_not"@) {
            Seq::empty()
        } else if has_not_loca(block, "global"@, locas) || has_not_loca(block, "first"@, locas)
            || has_not_loca(block, "third"@, locas) {
            Seq::empty()
        } else {
            seq![
                with_also(
                    rv(
                        ErrorKey::MissingPerspective,
                        Severity::Warning,
                        "missing `NOT_` perspective for "@ + key.s@,
                        caller.loc,
                    ),
                    key.loc,
                    "here"@,
                ),
            ]
        }
    } else if block_has_key(block, "global"@) || block_has_key(block, "first"@) || block_has_key(
        block,
        "third"@,
    ) || block_has_key(block, "none"@) {
        Seq::empty()
    } else {
        seq![
            with_also(
                rv(
                    ErrorKey::MissingPerspective,
                    Severity::Warning,
                    "missing positive perspective for "@ + key.s@,
                    caller.loc,
                ),
                key.loc,
                "here"@,
            ),
        ]
    }
}

impl TriggerLocalization {
    /// Adds the trigger localization `key`, defined by `block`, to the
    /// database.
    pub fn add(db: &mut Db, key: Token, block: Block)
        requires
            old(db).wf(),
        ensures
            final(db).wf(),
            final(db)@ == old(db)@.insert((Item::TriggerLocalization, key.s@), (key, block)),
            final(db).spec_flags() == old(db).spec_flags(),
    {
        db.add(Item::TriggerLocalization, key, block);
    }

    /// Whether a localization `NOT_<text>` of the `field` of `block` is in
    /// `locas`.
    fn not_loca_exists(block: &Block, field: &str, locas: &NameSet) -> (r: bool)
        ensures
            r == has_not_loca(*block, field@, locas@),
    {
        match block.get_field_value(field) {
            Some(t) => {
                let mut name: Vec<char> = Vec::new();
                push_str(&mut name, "NOT_");
                push_str(&mut name, t.s.as_str());
                locas.contains_chars(name.as_slice())
            },
            None => false,
        }
    }

    /// Checks a use at `caller` of the trigger localization `key`, defined
    /// by `block`, where `locas` are the defined localization keys.
    pub fn validate_use(
        key: &Token,
        block: &Block,
        locas: &NameSet,
        caller: &Token,
        tooltipped: Tooltipped,
        negated: bool,
    ) -> (r: Vec<Report>)
        ensures
            views(r@) == use_reports(*key, *block, locas@, *caller, tooltipped, negated),
    {
        let mut r: Vec<Report> = Vec::new();
        if !tooltipped.is_tooltipped() {
            assert(views(r@) =~= Seq::<ReportView>::empty());
            return r;
        }
        if negated {
            if block.has_key("global_not") || block.has_key("first_not") || block.has_key("third_not")
                || block.has_key("none_not") {
                assert(views(r@) =~= Seq::<ReportView>::empty());
                return r;
            }
            if Self::not_loca_exists(block, "global", locas) || Self::not_loca_exists(block, "first", locas)
                || Self::not_loca_exists(block, "third", locas) {
                assert(views(r@) =~= Seq::<ReportView>::empty());
                return r;
            }
            let mut m: Vec<char> = Vec::new();
            push_str(&mut m, "missing `NOT_` perspective for ");
            push_str(&mut m, key.s.as_str());
            let rep = make_report(ErrorKey::MissingPerspective, Severity::Warning, m.as_slice(), caller.loc).point_also(
                key.loc,
                "here",
            );
            r.push(rep);
            assert(views(r@) =~= seq![rep@]);
        } else {
            if block.has_key("global") || block.has_key("first") || block.has_key("third")
                || block.has_key("none") {
                assert(views(r@) =~= Seq::<ReportView>::empty());
                return r;
            }
            let mut m: Vec<char> = Vec::new();
            push_str(&mut m, "missing positive perspective for ");
            push_str(&mut m, key.s.as_str());
            let rep = make_report(ErrorKey::MissingPerspective, Severity::Warning, m.as_slice(), caller.loc).point_also(
                key.loc,
                "here",
            );
            r.push(rep);
            assert(views(r@) =~= seq![rep@]);
        }
        r
    }
}


/// Whether a localization `<caller>_<sfx>` is in `locas` for one of the
/// suffixes `sfxs`.
pub open spec fn some_perspective(caller: Seq<char>, sfxs: Seq<Seq<char>>, locas: Set<Seq<char>>) -> bool {
    exists|i: int| 0 <= i < sfxs.len() && locas.contains(caller + "_"@ + #[trigger] sfxs[i])
}

/// The reports on the use at `caller` of a trigger localization in `game`:
/// a defined trigger localization is checked as [`use_reports`] says;
/// otherwise Crusader Kings 3 accepts plain localizations of the
/// perspectives, and the other games need the trigger localization.
pub open spec fn trigger_localization_reports(
    caller: Token,
    db: Db,
    locas: Set<Seq<char>>,
    game: Game,
    tooltipped: Tooltipped,
    negated: bool,
) -> Seq<ReportView> {
    if db@.contains_key((Item::TriggerLocalization, caller.s@)) {
        let (key, block) = db@[(Item::TriggerLocalization, caller.s@)];
        use_reports(key, block, locas, caller, tooltipped, negated)
    } else if game == Game::Ck3 {
        if tooltipped == Tooltipped::No {
            Seq::empty()
        } else if negated {
            if some_perspective(caller.s@, seq!["global_not"@, "first_not"@, "third_not"@, "none_not"@], locas) {
                Seq::empty()
            } else {
                seq![
                    rv(
                        ErrorKey::MissingPerspective,
                        Severity::Warning,
                        "missing negated perspective for "@ + caller.s@,
                        caller.loc,
                    ),
                ]
            }
        } else if locas.contains(caller.s@) || some_perspective(
            caller.s@,
            seq!["global"@, "first"@, "third"@, "none"@],
            locas,
        ) {
            Seq::empty()
        } else {
            seq![
                rv(
                    ErrorKey::MissingPerspective,
                    Severity::Warning,
                    "missing positive perspective for "@ + caller.s@,
                    caller.loc,
                ),
            ]
        }
    } else {
        item_reports(db, Item::TriggerLocalization, caller.s@, caller.loc)
    }
}

/// Whether a localization `<caller>_<sfx>` is in `locas` for one of `sfxs`.
fn has_perspective(caller: &Token, sfxs: &Vec<&str>, locas: &NameSet) -> (r: bool)
    ensures
        r == some_perspective(caller.s@, sfxs@.map_values(|c: &str| c@), locas@),
{
    let ghost sv = sfxs@.map_values(|c: &str| c@);
    let mut i: usize = 0;
    while i < sfxs.len()
        invariant
            i <= sfxs@.len(),
            sv == sfxs@.map_values(|c: &str| c@),
            forall|j: int| 0 <= j < i ==> !locas@.contains(caller.s@ + "_"@ + #[trigger] sv[j]),
        decreases sfxs@.len() - i,
    {
        let mut name: Vec<char> = Vec::new();
        push_str(&mut name, caller.s.as_str());
        push_str(&mut name, "_");
        push_str(&mut name, sfxs[i]);
        if locas.contains_chars(name.as_slice()) {
            assert(name@ == caller.s@ + "_"@ + sv[i as int]);
            return true;
        }
        assert(name@ == caller.s@ + "_"@ + sv[i as int]);
        i = i + 1;
    }
    false
}

/// Checks a use at `caller` of a trigger localization, as
/// [`trigger_localization_reports`] says; `locas` are the defined
/// localization keys.
pub fn validate_trigger_localization(
    caller: &Token,
    db: &Db,
    locas: &NameSet,
    game: Game,
    tooltipped: Tooltipped,
    negated: bool,
) -> (r: Vec<Report>)
    requires
        db.wf(),
    ensures
        views(r@) == trigger_localization_reports(*caller, *db, locas@, game, tooltipped, negated),
{
    if let Some((key, block)) = db.get_key_block(Item::TriggerLocalization, caller.as_str()) {
        return TriggerLocalization::validate_use(key, block, locas, caller, tooltipped, negated);
    }
    let mut r: Vec<Report> = Vec::new();
    if game == Game::Ck3 {
        if tooltipped.is_tooltipped() {
            if negated {
                let sfxs = vec!["global_not", "first_not", "third_not", "none_not"];
                assert(sfxs@.map_values(|c: &str| c@) =~= seq!["global_not"@, "first_not"@, "third_not"@, "none_not"@]);
                if !has_perspective(caller, &sfxs, locas) {
                    let mut m: Vec<char> = Vec::new();
                    push_str(&mut m, "missing negated perspective for ");
                    push_str(&mut m, caller.s.as_str());
                    crate::report::push_report(
                        &mut r,
                        make_report(ErrorKey::MissingPerspective, Severity::Warning, m.as_slice(), caller.loc),
                    );
                }
            } else {
                let sfxs = vec!["global", "first", "third", "none"];
                assert(sfxs@.map_values(|c: &str| c@) =~= seq!["global"@, "first"@, "third"@, "none"@]);
                if !locas.contains(caller.s.as_str()) && !has_perspective(caller, &sfxs, locas) {
                    let mut m: Vec<char> = Vec::new();
                    push_str(&mut m, "missing positive perspective for ");
                    push_str(&mut m, caller.s.as_str());
                    crate::report::push_report(
                        &mut r,
                        make_report(ErrorKey::MissingPerspective, Severity::Warning, m.as_slice(), caller.loc),
                    );
                }
            }
        }
    } else {
        check_item(db, Item::TriggerLocalization, caller.as_str(), caller.loc, &mut r);
    }
    assert(views(r@) =~= trigger_localization_reports(*caller, *db, locas@, game, tooltipped, negated));
    r
}

/// The rules for the fields of the trigger localization.
pub open spec fn trigger_localization_item_rules() -> Seq<RuleView> {
    seq![
        RuleView { name: "global"@, required: false, kind: KindView::Item(Item::Localization) },
        RuleView { name: "global_not"@, required: false, kind: KindView::Item(Item::Localization) },
        RuleView { name: "first"@, required: false, kind: KindView::Item(Item::Localization) },
        RuleView { name: "first_not"@, required: false, kind: KindView::Item(Item::Localization) },
        RuleView { name: "third"@, required: false, kind: KindView::Item(Item::Localization) },
        RuleView { name: "third_not"@, required: false, kind: KindView::Item(Item::Localization) },
        RuleView { name: "none"@, required: false, kind: KindView::Item(Item::Localization) },
        RuleView { name: "none_not"@, required: false, kind: KindView::Item(Item::Localization) },
    ]
}

/// The reports on the trigger localization `key` defined by `block`: its fields as
/// [`trigger_localization_item_rules`] has them, and the fields it does not know.
pub open spec fn trigger_localization_item_reports(block: Block, db: Db) -> Seq<ReportView> {
    rules_reports(trigger_localization_item_rules(), block, db)
        + unknown_field_reports(trigger_localization_item_rules(), block.v@)
}

impl TriggerLocalization {
    /// Checks the trigger localization `key` defined by `block`, as
    /// [`trigger_localization_item_reports`] says.
    pub fn validate(_key: &Token, block: &Block, db: &Db) -> (r: Vec<Report>)
        requires
            db.wf(),
        ensures
            views(r@) == trigger_localization_item_reports(*block, *db),
    {
        let mut out: Vec<Report> = Vec::new();
        let r1 = vec![
            FieldRule { name: "global", required: false, kind: FieldKind::Item(Item::Localization) },
            FieldRule { name: "global_not", required: false, kind: FieldKind::Item(Item::Localization) },
            FieldRule { name: "first", required: false, kind: FieldKind::Item(Item::Localization) },
            FieldRule { name: "first_not", required: false, kind: FieldKind::Item(Item::Localization) },
            FieldRule { name: "third", required: false, kind: FieldKind::Item(Item::Localization) },
            FieldRule { name: "third_not", required: false, kind: FieldKind::Item(Item::Localization) },
            FieldRule { name: "none", required: false, kind: FieldKind::Item(Item::Localization) },
            FieldRule { name: "none_not", required: false, kind: FieldKind::Item(Item::Localization) },
        ];
        assert(rules_view(r1@) =~= trigger_localization_item_rules());
        append_reports(&mut out, check_rules(block, db, &r1));
        append_reports(&mut out, check_unknown(block, &r1));
        out
    }
}

} // verus!
