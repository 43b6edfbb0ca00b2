//! Court scene groups, roles, cultures and settings.

use vstd::prelude::*;

use crate::block::Block;
use crate::db::{Db, Item};
use crate::token::Token;

use crate::validator::{append_reports, check_rules, check_unknown, rules_reports, rules_view, unknown_field_reports, FieldKind, FieldRule, KindView, RuleView};
use crate::report::{views, Report, ReportView};
verus! {

/// The court scene group items.
#[derive(Clone, Debug)]
pub struct CourtSceneGroup {}

impl CourtSceneGroup {
    /// Adds the court scene group `key`, defined by `block`, to the database.
    pub fn add(db: &mut Db, key: Token, block: Block)
        requires
            old(db).wf(),
        ensures
            final(db).wf(),
            final(db)@ == old(db)@.insert((Item::CourtSceneGroup, key.s@), (key, block)),
            final(db).spec_flags() == old(db).spec_flags(),
    {
        db.add(Item::CourtSceneGroup, key, block);
    }
}

/// The court scene role items.
#[derive(Clone, Debug)]
pub struct CourtSceneRole {}

impl CourtSceneRole {
    /// Adds the court scene role `key`, defined by `block`, to the database.
    pub fn add(db: &mut Db, key: Token, block: Block)
        requires
            old(db).wf(),
        ensures
            final(db).wf(),
            final(db)@ == old(db)@.insert((Item::CourtSceneRole, key.s@), (key, block)),
            final(db).spec_flags() == old(db).spec_flags(),
    {
        db.add(Item::CourtSceneRole, key, block);
    }
}

/// The court scene culture items.
#[derive(Clone, Debug)]
pub struct CourtSceneCulture {}

impl CourtSceneCulture {
    /// Adds the court scene culture `key`, defined by `block`, to the database.
    pub fn add(db: &mut Db, key: Token, block: Block)
        requires
            old(db).wf(),
        ensures
            final(db).wf(),
            final(db)@ == old(db)@.insert((Item::CourtSceneCulture, key.s@), (key, block)),
            final(db).spec_flags() == old(db).spec_flags(),
    {
        db.add(Item::CourtSceneCulture, key, block);
    }
}

/// The court scene setting items.
#[derive(Clone, Debug)]
pub struct CourtSceneSetting {}

impl CourtSceneSetting {
    /// Adds the court scene setting `key`, defined by `block`, to the
    /// database, unless it is the table of grandeur levels.
    pub fn add(db: &mut Db, key: Token, block: Block)
        requires
            old(db).wf(),
        ensures
            final(db).wf(),
            final(db)@ == (if key.s@ == "grandeur_levels"@ {
                old(db)@
            } else {
                old(db)@.insert((Item::CourtSceneSetting, key.s@), (key, block))
            }),
            final(db).spec_flags() == old(db).spec_flags(),
    {
        if !key.is("grandeur_levels") {
            db.add(Item::CourtSceneSetting, key, block);
        }
    }
}

/// The rules for the fields of the court scene group.
pub open spec fn court_scene_group_rules() -> Seq<RuleView> {
    seq![
        RuleView { name: "order_type"@, required: false, kind: KindView::Choice(seq!["random"@, "ascending"@, "descending"@]) },
        RuleView { name: "position_type"@, required: false, kind: KindView::Choice(seq!["dynamic"@, "static"@]) },
        RuleView { name: "access_type"@, required: false, kind: KindView::Choice(seq!["random"@, "top"@]) },
        RuleView { name: "value"@, required: false, kind: KindView::Value },
    ]
}

/// The reports on the court scene group `key` defined by `block`: its fields as
/// [`court_scene_group_rules`] has them, and the fields it does not know.
pub open spec fn court_scene_group_reports(block: Block, db: Db) -> Seq<ReportView> {
    rules_reports(court_scene_group_rules(), block, db)
        + unknown_field_reports(court_scene_group_rules(), block.v@)
}

impl CourtSceneGroup {
    /// Checks the court scene group `key` defined by `block`, as [`court_scene_group_reports`]
    /// says.
    pub fn validate(_key: &Token, block: &Block, db: &Db) -> (r: Vec<Report>)
        requires
            db.wf(),
        ensures
            views(r@) == court_scene_group_reports(*block, *db),
    {
        let ch0 = vec!["random", "ascending", "descending"];
        assert(ch0@.map_values(|c: &str| c@) =~= seq!["random"@, "ascending"@, "descending"@]);
        let ch1 = vec!["dynamic", "static"];
        assert(ch1@.map_values(|c: &str| c@) =~= seq!["dynamic"@, "static"@]);
        let ch2 = vec!["random", "top"];
        assert(ch2@.map_values(|c: &str| c@) =~= seq!["random"@, "top"@]);
        let mut out: Vec<Report> = Vec::new();
        let r1 = vec![
            FieldRule { name: "order_type", required: false, kind: FieldKind::Choice(ch0) },
            FieldRule { name: "position_type", required: false, kind: FieldKind::Choice(ch1) },
            FieldRule { name: "access_type", required: false, kind: FieldKind::Choice(ch2) },
            FieldRule { name: "value", required: false, kind: FieldKind::Value },
        ];
        assert(rules_view(r1@) =~= court_scene_group_rules());
        append_reports(&mut out, check_rules(block, db, &r1));
        append_reports(&mut out, check_unknown(block, &r1));
        out
    }
}

/// The rules for the fields of the court scene role.
pub open spec fn court_scene_role_rules() -> Seq<RuleView> {
    seq![
        RuleView { name: "scripted_animation"@, required: false, kind: KindView::Any },
        RuleView { name: "camera"@, required: false, kind: KindView::Item(Item::PortraitCamera) },
        RuleView { name: "effect"@, required: false, kind: KindView::Block },
        RuleView { name: "is_low_priority"@, required: false, kind: KindView::Bool },
        RuleView { name: "group"@, required: false, kind: KindView::Item(Item::CourtSceneGroup) },
    ]
}

/// The reports on the court scene role `key` defined by `block`: its fields as
/// [`court_scene_role_rules`] has them, and the fields it does not know.
pub open spec fn court_scene_role_reports(block: Block, db: Db) -> Seq<ReportView> {
    rules_reports(court_scene_role_rules(), block, db)
        + unknown_field_reports(court_scene_role_rules(), block.v@)
}

impl CourtSceneRole {
    /// Checks the court scene role `key` defined by `block`, as [`court_scene_role_reports`] says.
    pub fn validate(_key: &Token, block: &Block, db: &Db) -> (r: Vec<Report>)
        requires
            db.wf(),
        ensures
            views(r@) == court_scene_role_reports(*block, *db),
    {
        let mut out: Vec<Report> = Vec::new();
        let r1 = vec![
            FieldRule { name: "scripted_animation", required: false, kind: FieldKind::Any },
            FieldRule { name: "camera", required: false, kind: FieldKind::Item(Item::PortraitCamera) },
            FieldRule { name: "effect", required: false, kind: FieldKind::Block },
            FieldRule { name: "is_low_priority", required: false, kind: FieldKind::Bool },
            FieldRule { name: "group", required: false, kind: FieldKind::Item(Item::CourtSceneGroup) },
        ];
        assert(rules_view(r1@) =~= court_scene_role_rules());
        append_reports(&mut out, check_rules(block, db, &r1));
        append_reports(&mut out, check_unknown(block, &r1));
        out
    }
}

/// The rules for the fields of the court scene culture.
pub open spec fn court_scene_culture_rules() -> Seq<RuleView> {
    seq![
        RuleView { name: "trigger"@, required: false, kind: KindView::Trigger },
    ]
}

/// The reports on the court scene culture `key` defined by `block`: its fields as
/// [`court_scene_culture_rules`] has them, and the fields it does not know.
pub open spec fn court_scene_culture_reports(block: Block, db: Db) -> Seq<ReportView> {
    rules_reports(court_scene_culture_rules(), block, db)
        + unknown_field_reports(court_scene_culture_rules(), block.v@)
}

impl CourtSceneCulture {
    /// Checks the court scene culture `key` defined by `block`, as [`court_scene_culture_reports`]
    /// says.
    pub fn validate(_key: &Token, block: &Block, db: &Db) -> (r: Vec<Report>)
        requires
            db.wf(),
        ensures
            views(r@) == court_scene_culture_reports(*block, *db),
    {
        let mut out: Vec<Report> = Vec::new();
        let r1 = vec![
            FieldRule { name: "trigger", required: false, kind: FieldKind::Trigger },
        ];
        assert(rules_view(r1@) =~= court_scene_culture_rules());
        append_reports(&mut out, check_rules(block, db, &r1));
        append_reports(&mut out, check_unknown(block, &r1));
        out
    }
}

} // verus!
