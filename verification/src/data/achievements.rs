//! Achievements and achievement groups.

use vstd::prelude::*;

use crate::block::{last_field_value, Block};
use crate::db::{Db, Item};
use crate::report::{
    report_str, report_str_info, rv, rvi, views, ErrorKey, Report, ReportView, Severity,
};
use crate::game::Game;
use crate::scopes::Scopes;
use crate::token::Token;

use crate::validator::{append_reports, check_loca, check_rules, check_unknown, extend_rules, rules_reports, rules_view, unknown_field_reports, FieldKind, FieldRule, KindView, RuleView};
use crate::defines::item_reports;
verus! {

/// The achievement items.
#[derive(Clone, Debug)]
pub struct Achievement {}

impl Achievement {
    /// Adds the achievement `key`, defined by `block`, to the database.
    pub fn add(db: &mut Db, key: Token, block: Block)
        requires
            old(db).wf(),
        ensures
            final(db).wf(),
            final(db)@ == old(db)@.insert((Item::Achievement, key.s@), (key, block)),
            final(db).spec_flags() == old(db).spec_flags(),
    {
        db.add(Item::Achievement, key, block);
    }
}

/// The achievement group items.
#[derive(Clone, Debug)]
pub struct AchievementGroup {}

impl AchievementGroup {
    /// Adds an achievement group, written as `group = { name = ... }`, to the
    /// database under its name; a `group` without a name, and any other key,
    /// is reported instead.
    pub fn add(db: &mut Db, key: Token, block: Block) -> (r: Vec<Report>)
        requires
            old(db).wf(),
        ensures
            final(db).wf(),
            final(db).spec_flags() == old(db).spec_flags(),
            key.s@ == "group"@ ==> match last_field_value(block.v@, "name"@) {
                Some(name) => final(db)@ == old(db)@.insert((Item::AchievementGroup, name.s@), (name, block))
                    && views(r@) == Seq::<ReportView>::empty(),
                None => final(db)@ == old(db)@ && views(r@) == seq![
                    rv(ErrorKey::FieldMissing, Severity::Error, "group missing `name` field"@, key.loc),
                ],
            },
            key.s@ != "group"@ ==> final(db)@ == old(db)@ && views(r@) == seq![
                rvi(
                    ErrorKey::UnknownField,
                    Severity::Error,
                    "unknown key in achievement groups"@,
                    "expected only `group`"@,
                    key.loc,
                ),
            ],
    {
        let mut r: Vec<Report> = Vec::new();
        if key.is("group") {
            let name = match block.get_field_value("name") {
                Some(t) => Some(t.dup()),
                None => None,
            };
            match name {
                Some(name) => {
                    db.add(Item::AchievementGroup, name, block);
                    assert(views(r@) =~= Seq::<ReportView>::empty());
                },
                None => {
                    let rep = report_str(ErrorKey::FieldMissing, Severity::Error, "group missing `name` field", key.loc);
                    r.push(rep);
                    assert(views(r@) =~= seq![rep@]);
                },
            }
        } else {
            let rep = report_str_info(
                ErrorKey::UnknownField,
                Severity::Error,
                "unknown key in achievement groups",
                "expected only `group`",
                key.loc,
            );
            r.push(rep);
            assert(views(r@) =~= seq![rep@]);
        }
        r
    }
}

/// The scope type that achievement triggers run on: a character in
/// Crusader Kings 3, a country in the other games that have achievements.
pub fn achievement_scope(game: Game) -> (r: Scopes)
    requires
        game != Game::Eu5,
    ensures
        r.bits == (if game == Game::Ck3 {
            0x2u64
        } else {
            0x4u64
        }),
{
    match game {
        Game::Ck3 => Scopes::character(),
        _ => Scopes::country(),
    }
}


/// The rules for the fields that only Hearts of Iron 4 gives an achievement.
pub open spec fn achievement_hoi4_rules() -> Seq<RuleView> {
    seq![
        RuleView { name: "id"@, required: false, kind: KindView::Integer },
        RuleView { name: "hidden"@, required: false, kind: KindView::Bool },
    ]
}

/// The rules for the triggers of an achievement.
pub open spec fn achievement_rules() -> Seq<RuleView> {
    seq![
        RuleView { name: "possible"@, required: false, kind: KindView::Trigger },
        RuleView { name: "happened"@, required: false, kind: KindView::Trigger },
    ]
}

/// The fields an achievement knows in `game`.
pub open spec fn achievement_known(game: Game) -> Seq<RuleView> {
    if game == Game::Hoi4 {
        achievement_hoi4_rules() + achievement_rules()
    } else {
        achievement_rules()
    }
}

/// The reports on the achievement `key` defined by `block` in `game`: in a
/// game of the Jomini engine its localization (`ACHIEVEMENT_` and
/// `ACHIEVEMENT_DESC_` with its key), in Hearts of Iron 4 its fields as
/// [`achievement_hoi4_rules`] has them, then its triggers as
/// [`achievement_rules`] has them, and the fields it does not know.
pub open spec fn achievement_reports(
    key: Token,
    block: Block,
    db: Db,
    game: Game,
) -> Seq<ReportView> {
    (if game != Game::Hoi4 {
        item_reports(db, Item::Localization, "ACHIEVEMENT_"@ + key.s@, key.loc) + item_reports(
            db,
            Item::Localization,
            "ACHIEVEMENT_DESC_"@ + key.s@,
            key.loc,
        )
    } else {
        Seq::empty()
    }) + (if game == Game::Hoi4 {
        rules_reports(achievement_hoi4_rules(), block, db)
    } else {
        Seq::empty()
    })
        + rules_reports(achievement_rules(), block, db)
        + unknown_field_reports(achievement_known(game), block.v@)
}

impl Achievement {
    /// Checks the achievement `key` defined by `block` in `game`, as
    /// [`achievement_reports`] says.
    pub fn validate(key: &Token, block: &Block, db: &Db, game: Game) -> (r: Vec<Report>)
        requires
            db.wf(),
        ensures
            views(r@) == achievement_reports(*key, *block, *db, game),
    {
        let mut out: Vec<Report> = Vec::new();
        if game.is_jomini() {
            proof {
                reveal_strlit("");
                assert("ACHIEVEMENT_"@ + key.s@ + ""@ =~= "ACHIEVEMENT_"@ + key.s@);
                assert("ACHIEVEMENT_DESC_"@ + key.s@ + ""@ =~= "ACHIEVEMENT_DESC_"@ + key.s@);
            }
            check_loca(db, "ACHIEVEMENT_", key, "", &mut out);
            check_loca(db, "ACHIEVEMENT_DESC_", key, "", &mut out);
        }
        let hoi4_rules = vec![
            FieldRule { name: "id", required: false, kind: FieldKind::Integer },
            FieldRule { name: "hidden", required: false, kind: FieldKind::Bool },
        ];
        assert(rules_view(hoi4_rules@) =~= achievement_hoi4_rules());
        let rules = vec![
            FieldRule { name: "possible", required: false, kind: FieldKind::Trigger },
            FieldRule { name: "happened", required: false, kind: FieldKind::Trigger },
        ];
        assert(rules_view(rules@) =~= achievement_rules());
        let mut known: Vec<FieldRule> = Vec::new();
        if game.is_hoi4() {
            append_reports(&mut out, check_rules(block, db, &hoi4_rules));
            extend_rules(&mut known, &hoi4_rules);
        }
        append_reports(&mut out, check_rules(block, db, &rules));
        extend_rules(&mut known, &rules);
        assert(rules_view(known@) =~= achievement_known(game));
        append_reports(&mut out, check_unknown(block, &known));
        out
    }
}

/// The rules for the fields of the achievement group.
pub open spec fn achievement_group_rules() -> Seq<RuleView> {
    seq![
        RuleView { name: "name"@, required: false, kind: KindView::Value },
        RuleView { name: "order"@, required: false, kind: KindView::ListItems(Item::Achievement) },
    ]
}

/// The reports on the achievement group `key` defined by `block`: its localization
/// (`ACHIEVEMENT_GROUP_` and its key), its fields as [`achievement_group_rules`] has them, and the
/// fields it does not know.
pub open spec fn achievement_group_reports(key: Token, block: Block, db: Db) -> Seq<ReportView> {
    item_reports(db, Item::Localization, "ACHIEVEMENT_GROUP_"@ + key.s@, key.loc)
        + rules_reports(achievement_group_rules(), block, db)
        + unknown_field_reports(achievement_group_rules(), block.v@)
}

impl AchievementGroup {
    /// Checks the achievement group `key` defined by `block`, as [`achievement_group_reports`]
    /// says.
    pub fn validate(key: &Token, block: &Block, db: &Db) -> (r: Vec<Report>)
        requires
            db.wf(),
        ensures
            views(r@) == achievement_group_reports(*key, *block, *db),
    {
        let mut out: Vec<Report> = Vec::new();
        proof {
            reveal_strlit("");
            assert("ACHIEVEMENT_GROUP_"@ + key.s@ + ""@ =~= "ACHIEVEMENT_GROUP_"@ + key.s@);
        }
        check_loca(db, "ACHIEVEMENT_GROUP_", key, "", &mut out);
        let r1 = vec![
            FieldRule { name: "name", required: false, kind: FieldKind::Value },
            FieldRule { name: "order", required: false, kind: FieldKind::ListItems(Item::Achievement) },
        ];
        assert(rules_view(r1@) =~= achievement_group_rules());
        append_reports(&mut out, check_rules(block, db, &r1));
        append_reports(&mut out, check_unknown(block, &r1));
        out
    }
}

} // verus!
