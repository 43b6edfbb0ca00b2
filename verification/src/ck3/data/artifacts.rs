//! Artifacts: slots, types, templates, visuals, features and blueprints.

use vstd::prelude::*;

use crate::block::{last_field_value, Block};
use crate::db::{Db, Item};
use crate::token::Token;

use crate::validator::{append_reports, check_loca, check_rules, check_unknown, rules_reports, rules_view, unknown_field_reports, FieldKind, FieldRule, KindView, RuleView};
use crate::defines::item_reports;
use crate::report::{views, Report, ReportView};

use crate::defines::check_item;
use crate::validator::{check_icon, extend_rules, icon_names, icon_or_key, icon_reports, marked_more, opt_text};
use crate::files::fileset::{FileEntry, Fileset};
use crate::game::Game;
use crate::block::{block_has_key, BlockItem, BV};
use crate::report::{report_str, rv, ErrorKey, Severity};
use crate::validator::{check_fields, fields_reports};
verus! {

/// The artifact slot items.
#[derive(Clone, Debug)]
pub struct ArtifactSlot {}

impl ArtifactSlot {
    /// Adds the artifact slot `key`, defined by `block`, to the database.
    pub fn add(db: &mut Db, key: Token, block: Block)
        requires
            old(db).wf(),
        ensures
            final(db).wf(),
            final(db)@ == old(db)@.insert((Item::ArtifactSlot, key.s@), (key, block)),
            final(db).spec_flags() == old(db).spec_flags(),
    {
        db.add(Item::ArtifactSlot, key, block);
    }
}

/// The artifact type items.
#[derive(Clone, Debug)]
pub struct ArtifactType {}

impl ArtifactType {
    /// Adds the artifact type `key`, defined by `block`, to the database.
    pub fn add(db: &mut Db, key: Token, block: Block)
        requires
            old(db).wf(),
        ensures
            final(db).wf(),
            final(db)@ == old(db)@.insert((Item::ArtifactType, key.s@), (key, block)),
            final(db).spec_flags() == old(db).spec_flags(),
    {
        db.add(Item::ArtifactType, key, block);
    }
}

/// The artifact template items.
#[derive(Clone, Debug)]
pub struct ArtifactTemplate {}

impl ArtifactTemplate {
    /// Adds the artifact template `key`, defined by `block`, to the database.
    pub fn add(db: &mut Db, key: Token, block: Block)
        requires
            old(db).wf(),
        ensures
            final(db).wf(),
            final(db)@ == old(db)@.insert((Item::ArtifactTemplate, key.s@), (key, block)),
            final(db).spec_flags() == old(db).spec_flags(),
    {
        db.add(Item::ArtifactTemplate, key, block);
    }
}

/// The artifact visual items.
#[derive(Clone, Debug)]
pub struct ArtifactVisual {}

impl ArtifactVisual {
    /// Adds the artifact visual `key`, defined by `block`, to the database.
    pub fn add(db: &mut Db, key: Token, block: Block)
        requires
            old(db).wf(),
        ensures
            final(db).wf(),
            final(db)@ == old(db)@.insert((Item::ArtifactVisual, key.s@), (key, block)),
            final(db).spec_flags() == old(db).spec_flags(),
    {
        db.add(Item::ArtifactVisual, key, block);
    }
}

/// The artifact feature items.
#[derive(Clone, Debug)]
pub struct ArtifactFeature {}

impl ArtifactFeature {
    /// Adds the artifact feature `key`, defined by `block`, to the database.
    pub fn add(db: &mut Db, key: Token, block: Block)
        requires
            old(db).wf(),
        ensures
            final(db).wf(),
            final(db)@ == old(db)@.insert((Item::ArtifactFeature, key.s@), (key, block)),
            final(db).spec_flags() == old(db).spec_flags(),
    {
        db.add(Item::ArtifactFeature, key, block);
    }
}

/// The artifact feature group items.
#[derive(Clone, Debug)]
pub struct ArtifactFeatureGroup {}

impl ArtifactFeatureGroup {
    /// Adds the artifact feature group `key`, defined by `block`, to the database.
    pub fn add(db: &mut Db, key: Token, block: Block)
        requires
            old(db).wf(),
        ensures
            final(db).wf(),
            final(db)@ == old(db)@.insert((Item::ArtifactFeatureGroup, key.s@), (key, block)),
            final(db).spec_flags() == old(db).spec_flags(),
    {
        db.add(Item::ArtifactFeatureGroup, key, block);
    }
}

/// The artifact blueprint items.
#[derive(Clone, Debug)]
pub struct ArtifactBlueprint {}

impl ArtifactBlueprint {
    /// Adds the artifact blueprint `key`, defined by `block`, to the database.
    pub fn add(db: &mut Db, key: Token, block: Block)
        requires
            old(db).wf(),
        ensures
            final(db).wf(),
            final(db)@ == old(db)@.insert((Item::ArtifactBlueprint, key.s@), (key, block)),
            final(db).spec_flags() == old(db).spec_flags(),
    {
        db.add(Item::ArtifactBlueprint, key, block);
    }
}

impl ArtifactSlot {
    /// Adds the slot type named by the `type` field of the slot as a flag.
    pub fn add_subitems(&self, _key: &Token, block: &Block, db: &mut Db)
        ensures
            final(db).wf() == old(db).wf(),
            final(db)@ == old(db)@,
            final(db).spec_entries() == old(db).spec_entries(),
            final(db).spec_flags() == (match last_field_value(block.v@, "type"@) {
                Some(t) => old(db).spec_flags().insert((Item::ArtifactSlotType, t.s@)),
                None => old(db).spec_flags(),
            }),
    {
        if let Some(slot_type) = block.get_field_value("type") {
            db.add_flag(Item::ArtifactSlotType, slot_type.dup());
        }
    }
}

/// The rules for the fields of the artifact type.
pub open spec fn artifact_type_rules() -> Seq<RuleView> {
    seq![
        RuleView { name: "slot"@, required: false, kind: KindView::Item(Item::ArtifactSlotType) },
        RuleView { name: "required_features"@, required: false, kind: KindView::ListItems(Item::ArtifactFeatureGroup) },
        RuleView { name: "optional_features"@, required: false, kind: KindView::ListItems(Item::ArtifactFeatureGroup) },
        RuleView { name: "can_reforge"@, required: false, kind: KindView::Bool },
        RuleView { name: "default_visuals"@, required: false, kind: KindView::Item(Item::ArtifactVisual) },
    ]
}

/// The reports on the artifact type `key` defined by `block`: its localization `artifact_` and key,
/// its fields as [`artifact_type_rules`] has them, and the fields it does not know.
pub open spec fn artifact_type_reports(key: Token, block: Block, db: Db) -> Seq<ReportView> {
    item_reports(db, Item::Localization, "artifact_"@ + key.s@, key.loc)
        + rules_reports(artifact_type_rules(), block, db)
        + unknown_field_reports(artifact_type_rules(), block.v@)
}

impl ArtifactType {
    /// Checks the artifact type `key` defined by `block`, as [`artifact_type_reports`] says.
    pub fn validate(key: &Token, block: &Block, db: &Db) -> (r: Vec<Report>)
        requires
            db.wf(),
        ensures
            views(r@) == artifact_type_reports(*key, *block, *db),
    {
        let mut out: Vec<Report> = Vec::new();
        proof {
            reveal_strlit("");
            assert("artifact_"@ + key.s@ + ""@ =~= "artifact_"@ + key.s@);
        }
        check_loca(db, "artifact_", key, "", &mut out);
        let r1 = vec![
            FieldRule { name: "slot", required: false, kind: FieldKind::Item(Item::ArtifactSlotType) },
            FieldRule { name: "required_features", required: false, kind: FieldKind::ListItems(Item::ArtifactFeatureGroup) },
            FieldRule { name: "optional_features", required: false, kind: FieldKind::ListItems(Item::ArtifactFeatureGroup) },
            FieldRule { name: "can_reforge", required: false, kind: FieldKind::Bool },
            FieldRule { name: "default_visuals", required: false, kind: FieldKind::Item(Item::ArtifactVisual) },
        ];
        assert(rules_view(r1@) =~= artifact_type_rules());
        append_reports(&mut out, check_rules(block, db, &r1));
        append_reports(&mut out, check_unknown(block, &r1));
        out
    }
}

/// The rules for the fields of the artifact template.
pub open spec fn artifact_template_rules() -> Seq<RuleView> {
    seq![
        RuleView { name: "can_equip"@, required: false, kind: KindView::Trigger },
        RuleView { name: "can_benefit"@, required: false, kind: KindView::Trigger },
        RuleView { name: "can_reforge"@, required: false, kind: KindView::Trigger },
        RuleView { name: "can_repair"@, required: false, kind: KindView::Trigger },
        RuleView { name: "fallback"@, required: false, kind: KindView::Block },
        RuleView { name: "ai_score"@, required: false, kind: KindView::Any },
        RuleView { name: "unique"@, required: false, kind: KindView::Bool },
    ]
}

/// The reports on the artifact template `key` defined by `block`: its fields as
/// [`artifact_template_rules`] has them, and the fields it does not know.
pub open spec fn artifact_template_reports(block: Block, db: Db) -> Seq<ReportView> {
    rules_reports(artifact_template_rules(), block, db)
        + unknown_field_reports(artifact_template_rules(), block.v@)
}

impl ArtifactTemplate {
    /// Checks the artifact template `key` defined by `block`, as [`artifact_template_reports`]
    /// says.
    pub fn validate(_key: &Token, block: &Block, db: &Db) -> (r: Vec<Report>)
        requires
            db.wf(),
        ensures
            views(r@) == artifact_template_reports(*block, *db),
    {
        let mut out: Vec<Report> = Vec::new();
        let r1 = vec![
            FieldRule { name: "can_equip", required: false, kind: FieldKind::Trigger },
            FieldRule { name: "can_benefit", required: false, kind: FieldKind::Trigger },
            FieldRule { name: "can_reforge", required: false, kind: FieldKind::Trigger },
            FieldRule { name: "can_repair", required: false, kind: FieldKind::Trigger },
            FieldRule { name: "fallback", required: false, kind: FieldKind::Block },
            FieldRule { name: "ai_score", required: false, kind: FieldKind::Any },
            FieldRule { name: "unique", required: false, kind: FieldKind::Bool },
        ];
        assert(rules_view(r1@) =~= artifact_template_rules());
        append_reports(&mut out, check_rules(block, db, &r1));
        append_reports(&mut out, check_unknown(block, &r1));
        out
    }
}

/// The rules for the fields of the artifact feature.
pub open spec fn artifact_feature_rules() -> Seq<RuleView> {
    seq![
        RuleView { name: "group"@, required: false, kind: KindView::Item(Item::ArtifactFeatureGroup) },
        RuleView { name: "weight"@, required: false, kind: KindView::Any },
        RuleView { name: "trigger"@, required: false, kind: KindView::Trigger },
    ]
}

/// The reports on the artifact feature `key` defined by `block`: its localization `feature_` and
/// key, its fields as [`artifact_feature_rules`] has them, and the fields it does not know.
pub open spec fn artifact_feature_reports(key: Token, block: Block, db: Db) -> Seq<ReportView> {
    item_reports(db, Item::Localization, "feature_"@ + key.s@, key.loc)
        + rules_reports(artifact_feature_rules(), block, db)
        + unknown_field_reports(artifact_feature_rules(), block.v@)
}

impl ArtifactFeature {
    /// Checks the artifact feature `key` defined by `block`, as [`artifact_feature_reports`] says.
    pub fn validate(key: &Token, block: &Block, db: &Db) -> (r: Vec<Report>)
        requires
            db.wf(),
        ensures
            views(r@) == artifact_feature_reports(*key, *block, *db),
    {
        let mut out: Vec<Report> = Vec::new();
        proof {
            reveal_strlit("");
            assert("feature_"@ + key.s@ + ""@ =~= "feature_"@ + key.s@);
        }
        check_loca(db, "feature_", key, "", &mut out);
        let r1 = vec![
            FieldRule { name: "group", required: false, kind: FieldKind::Item(Item::ArtifactFeatureGroup) },
            FieldRule { name: "weight", required: false, kind: FieldKind::Any },
            FieldRule { name: "trigger", required: false, kind: FieldKind::Trigger },
        ];
        assert(rules_view(r1@) =~= artifact_feature_rules());
        append_reports(&mut out, check_rules(block, db, &r1));
        append_reports(&mut out, check_unknown(block, &r1));
        out
    }
}

/// The fields the artifact feature group knows.
pub open spec fn artifact_feature_group_known() -> Seq<RuleView> {
    Seq::empty()
}

/// The reports on the artifact feature group `key` defined by `block`: every field it has, since it
/// knows none.
pub open spec fn artifact_feature_group_reports(block: Block, db: Db) -> Seq<ReportView> {
    unknown_field_reports(artifact_feature_group_known(), block.v@)
}

impl ArtifactFeatureGroup {
    /// Checks the artifact feature group `key` defined by `block`, as
    /// [`artifact_feature_group_reports`] says.
    pub fn validate(_key: &Token, block: &Block, db: &Db) -> (r: Vec<Report>)
        requires
            db.wf(),
        ensures
            views(r@) == artifact_feature_group_reports(*block, *db),
    {
        let mut out: Vec<Report> = Vec::new();

        let mut known: Vec<FieldRule> = Vec::new();
        assert(rules_view(known@) =~= artifact_feature_group_known());
        append_reports(&mut out, check_unknown(block, &known));
        out
    }
}

/// The rules for the fields of the artifact blueprint.
pub open spec fn artifact_blueprint_rules() -> Seq<RuleView> {
    seq![
        RuleView { name: "in_type"@, required: true, kind: KindView::Any },
        RuleView { name: "in_visuals"@, required: true, kind: KindView::Any },
        RuleView { name: "in_type"@, required: false, kind: KindView::Item(Item::ArtifactType) },
        RuleView { name: "in_visuals"@, required: false, kind: KindView::Item(Item::ArtifactVisual) },
        RuleView { name: "out_type"@, required: true, kind: KindView::Any },
        RuleView { name: "out_visuals"@, required: true, kind: KindView::Any },
        RuleView { name: "out_type"@, required: false, kind: KindView::Item(Item::ArtifactType) },
        RuleView { name: "out_visuals"@, required: false, kind: KindView::Item(Item::ArtifactVisual) },
        RuleView { name: "disallowed_modifiers"@, required: false, kind: KindView::Block },
        RuleView { name: "replacement_modifiers"@, required: false, kind: KindView::Block },
        RuleView { name: "template"@, required: false, kind: KindView::Item(Item::ArtifactTemplate) },
    ]
}

/// The reports on the artifact blueprint `key` defined by `block`: its required `in_type`,
/// `in_visuals`, `out_type` and `out_visuals`, its fields as [`artifact_blueprint_rules`] has them,
/// and the fields it does not know.
pub open spec fn artifact_blueprint_reports(block: Block, db: Db) -> Seq<ReportView> {
    rules_reports(artifact_blueprint_rules(), block, db)
        + unknown_field_reports(artifact_blueprint_rules(), block.v@)
}

impl ArtifactBlueprint {
    /// Checks the artifact blueprint `key` defined by `block`, as [`artifact_blueprint_reports`]
    /// says.
    pub fn validate(_key: &Token, block: &Block, db: &Db) -> (r: Vec<Report>)
        requires
            db.wf(),
        ensures
            views(r@) == artifact_blueprint_reports(*block, *db),
    {
        let mut out: Vec<Report> = Vec::new();
        let r1 = vec![
            FieldRule { name: "in_type", required: true, kind: FieldKind::Any },
            FieldRule { name: "in_visuals", required: true, kind: FieldKind::Any },
            FieldRule { name: "in_type", required: false, kind: FieldKind::Item(Item::ArtifactType) },
            FieldRule { name: "in_visuals", required: false, kind: FieldKind::Item(Item::ArtifactVisual) },
            FieldRule { name: "out_type", required: true, kind: FieldKind::Any },
            FieldRule { name: "out_visuals", required: true, kind: FieldKind::Any },
            FieldRule { name: "out_type", required: false, kind: FieldKind::Item(Item::ArtifactType) },
            FieldRule { name: "out_visuals", required: false, kind: FieldKind::Item(Item::ArtifactVisual) },
            FieldRule { name: "disallowed_modifiers", required: false, kind: FieldKind::Block },
            FieldRule { name: "replacement_modifiers", required: false, kind: FieldKind::Block },
            FieldRule { name: "template", required: false, kind: FieldKind::Item(Item::ArtifactTemplate) },
        ];
        assert(rules_view(r1@) =~= artifact_blueprint_rules());
        append_reports(&mut out, check_rules(block, db, &r1));
        append_reports(&mut out, check_unknown(block, &r1));
        out
    }
}


/// The rules for the fields of an artifact slot.
pub open spec fn artifact_slot_rules() -> Seq<RuleView> {
    seq![
        RuleView { name: "type"@, required: false, kind: KindView::Item(Item::ArtifactSlotType) },
        RuleView { name: "category"@, required: false, kind: KindView::Choice(seq!["inventory"@, "court"@]) },
    ]
}

/// The rule for the `icon` of an artifact slot, which it reads only when the
/// slot has a category.
pub open spec fn artifact_slot_icon_rules() -> Seq<RuleView> {
    seq![RuleView { name: "icon"@, required: false, kind: KindView::Value }]
}

/// The icon whose file an artifact slot needs: for an `inventory` slot its
/// `icon`, else its key; for a slot of another category its `icon`, if it
/// has one; none for a slot without a category.
pub open spec fn artifact_slot_icon(key: Token, block: Block) -> Option<Token> {
    match last_field_value(block.v@, "category"@) {
        Some(c) => if c.s@ == "inventory"@ {
            Some(icon_or_key(block, key))
        } else {
            last_field_value(block.v@, "icon"@)
        },
        None => None,
    }
}

/// The fields an artifact slot knows: `icon` only when it has a category.
pub open spec fn artifact_slot_known(block: Block) -> Seq<RuleView> {
    if last_field_value(block.v@, "category"@) is Some {
        artifact_slot_rules() + artifact_slot_icon_rules()
    } else {
        artifact_slot_rules()
    }
}

/// The reports on the artifact slot `key` defined by `block`: the
/// localization of its key, its fields as [`artifact_slot_rules`] has them,
/// its `icon` when it has a category, the file of
/// [`artifact_slot_icon`] with `.dds` in `icon_dir` among the `files` of
/// `game`, and the fields it does not know.
pub open spec fn artifact_slot_reports(
    key: Token,
    block: Block,
    db: Db,
    files: Seq<FileEntry>,
    game: Game,
    icon_dir: Option<Seq<char>>,
) -> Seq<ReportView> {
    item_reports(db, Item::Localization, key.s@, key.loc)
        + rules_reports(artifact_slot_rules(), block, db)
        + (
    if last_field_value(block.v@, "category"@) is Some {
        rules_reports(artifact_slot_icon_rules(), block, db)
    } else {
        Seq::empty()
    }) + match artifact_slot_icon(key, block) {
        Some(t) => icon_reports(files, game, icon_dir, t, ".dds"@),
        None => Seq::empty(),
    } + unknown_field_reports(artifact_slot_known(block), block.v@)
}

/// The files that checking an artifact slot marks as used.
pub open spec fn artifact_slot_files(
    key: Token,
    block: Block,
    icon_dir: Option<Seq<char>>,
) -> Set<Seq<char>> {
    match artifact_slot_icon(key, block) {
        Some(t) => icon_names(icon_dir, t.s@, ".dds"@),
        None => Set::empty(),
    }
}

impl ArtifactSlot {
    /// Checks the artifact slot `key` defined by `block`, as
    /// [`artifact_slot_reports`] says, with `fs` the file set and `icon_dir`
    /// the directory of inventory slot icons (the game's define
    /// `NGameIcons|INVENTORY_SLOT_ICON_PATH`), if known; the icon file is
    /// marked as used.
    pub fn validate(key: &Token, block: &Block, db: &Db, fs: &mut Fileset, icon_dir: Option<&str>) -> (r: Vec<Report>)
        requires
            db.wf(),
            old(fs).wf(),
        ensures
            final(fs).wf(),
            marked_more(*old(fs), *final(fs), artifact_slot_files(*key, *block, opt_text(icon_dir))),
            views(r@) == artifact_slot_reports(
                *key,
                *block,
                *db,
                old(fs).spec_files(),
                old(fs).spec_game(),
                opt_text(icon_dir),
            ),
    {
        let ghost f0 = *fs;
        let mut out: Vec<Report> = Vec::new();
        check_item(db, Item::Localization, key.as_str(), key.loc, &mut out);
        let categories = vec!["inventory", "court"];
        assert(categories@.map_values(|c: &str| c@) =~= seq!["inventory"@, "court"@]);
        let rules = vec![
            FieldRule { name: "type", required: false, kind: FieldKind::Item(Item::ArtifactSlotType) },
            FieldRule { name: "category", required: false, kind: FieldKind::Choice(categories) },
        ];
        assert(rules_view(rules@) =~= artifact_slot_rules());
        append_reports(&mut out, check_rules(block, db, &rules));
        let icon_rules = vec![FieldRule { name: "icon", required: false, kind: FieldKind::Value }];
        assert(rules_view(icon_rules@) =~= artifact_slot_icon_rules());
        let mut known: Vec<FieldRule> = Vec::new();
        extend_rules(&mut known, &rules);
        match block.get_field_value("category") {
            Some(c) => {
                append_reports(&mut out, check_rules(block, db, &icon_rules));
                extend_rules(&mut known, &icon_rules);
                if c.is("inventory") {
                    let icon = match block.get_field_value("icon") {
                        Some(t) => t,
                        None => key,
                    };
                    append_reports(&mut out, check_icon(fs, icon_dir, icon, ".dds"));
                } else {
                    match block.get_field_value("icon") {
                        Some(t) => append_reports(&mut out, check_icon(fs, icon_dir, t, ".dds")),
                        None => {
                            assert(fs.spec_used() =~= f0.spec_used().union(Set::empty()));
                        },
                    }
                }
            },
            None => {
                assert(fs.spec_used() =~= f0.spec_used().union(Set::empty()));
            },
        }
        assert(rules_view(known@) =~= artifact_slot_known(*block));
        append_reports(&mut out, check_unknown(block, &known));
        out
    }
}


/// The rules for the fields of an `icon` block of an artifact visual.
pub open spec fn visual_icon_rules() -> Seq<RuleView> {
    seq![
        RuleView { name: "trigger"@, required: false, kind: KindView::Trigger },
        RuleView { name: "reference"@, required: false, kind: KindView::Value },
    ]
}

/// The rules for the fields of an `asset` block of an artifact visual.
pub open spec fn visual_asset_rules() -> Seq<RuleView> {
    seq![
        RuleView { name: "trigger"@, required: false, kind: KindView::Trigger },
        RuleView { name: "reference"@, required: false, kind: KindView::Item(Item::Asset) },
    ]
}

/// The reports on an `icon` block `b` of an artifact visual: its fields as
/// [`visual_icon_rules`] has them, the file of its `reference` in the icon
/// directory `dir` among the `files` of `game`, and the fields it does not
/// know.
pub open spec fn visual_icon_block_reports(b: Block, db: Db, files: Seq<FileEntry>, game: Game, dir: Option<Seq<char>>) -> Seq<
    ReportView,
> {
    rules_reports(visual_icon_rules(), b, db) + match last_field_value(b.v@, "reference"@) {
        Some(t) => icon_reports(files, game, dir, t, ""@),
        None => Seq::empty(),
    } + unknown_field_reports(visual_icon_rules(), b.v@)
}

/// The reports on the `icon` fields among `items`: an icon named by value
/// needs its file in `dir`, a block is checked by
/// [`visual_icon_block_reports`].
pub open spec fn visual_icons_reports(
    items: Seq<BlockItem>,
    db: Db,
    files: Seq<FileEntry>,
    game: Game,
    dir: Option<Seq<char>>,
) -> Seq<ReportView>
    decreases items.len(),
{
    if items.len() == 0 {
        Seq::empty()
    } else {
        visual_icons_reports(items.drop_last(), db, files, game, dir) + match items.last() {
            BlockItem::Field(k, bv) => if k.s@ == "icon"@ {
                match bv {
                    BV::Value(t) => icon_reports(files, game, dir, t, ""@),
                    BV::Block(b) => visual_icon_block_reports(b, db, files, game, dir),
                }
            } else {
                Seq::empty()
            },
            _ => Seq::empty(),
        }
    }
}

/// The icon files that the `icon` fields among `items` name.
pub open spec fn visual_icons_names(items: Seq<BlockItem>, dir: Option<Seq<char>>) -> Set<Seq<char>>
    decreases items.len(),
{
    if items.len() == 0 {
        Set::empty()
    } else {
        visual_icons_names(items.drop_last(), dir).union(
            match items.last() {
                BlockItem::Field(k, bv) => if k.s@ == "icon"@ {
                    match bv {
                        BV::Value(t) => icon_names(dir, t.s@, ""@),
                        BV::Block(b) => match last_field_value(b.v@, "reference"@) {
                            Some(t) => icon_names(dir, t.s@, ""@),
                            None => Set::empty(),
                        },
                    }
                } else {
                    Set::empty()
                },
                _ => Set::empty(),
            },
        )
    }
}

/// The reports on the `asset` fields among `items`: an asset named by value
/// must be defined, a block is checked against [`visual_asset_rules`].
pub open spec fn visual_assets_reports(items: Seq<BlockItem>, db: Db) -> Seq<ReportView>
    decreases items.len(),
{
    if items.len() == 0 {
        Seq::empty()
    } else {
        visual_assets_reports(items.drop_last(), db) + match items.last() {
            BlockItem::Field(k, bv) => if k.s@ == "asset"@ {
                match bv {
                    BV::Value(t) => item_reports(db, Item::Asset, t.s@, t.loc),
                    BV::Block(b) => fields_reports(visual_asset_rules(), b, db),
                }
            } else {
                Seq::empty()
            },
            _ => Seq::empty(),
        }
    }
}

/// Whether `it` is a field `name` that applies without a condition: a value,
/// or a block without a `trigger`.
pub open spec fn unconditional_item(it: BlockItem, name: Seq<char>) -> bool {
    match it {
        BlockItem::Field(k, bv) => k.s@ == name && match bv {
            BV::Value(_) => true,
            BV::Block(b) => !block_has_key(b, "trigger"@),
        },
        _ => false,
    }
}

/// Whether some field `name` among `items` applies without a condition.
pub open spec fn has_unconditional(items: Seq<BlockItem>, name: Seq<char>) -> bool {
    exists|i: int| 0 <= i < items.len() && unconditional_item(#[trigger] items[i], name)
}

/// The rules for the plain fields of an artifact visual.
pub open spec fn artifact_visual_rules() -> Seq<RuleView> {
    seq![
        RuleView { name: "default_type"@, required: false, kind: KindView::Value },
        RuleView { name: "pedestal"@, required: false, kind: KindView::Value },
        RuleView { name: "support_type"@, required: false, kind: KindView::Value },
    ]
}

/// The fields an artifact visual knows.
pub open spec fn artifact_visual_known() -> Seq<RuleView> {
    artifact_visual_rules() + seq![
        RuleView { name: "icon"@, required: false, kind: KindView::Any },
        RuleView { name: "asset"@, required: false, kind: KindView::Any },
    ]
}

/// The reports on the artifact visual `key` defined by `block`: its fields as
/// [`artifact_visual_rules`] has them, its icons as
/// [`visual_icons_reports`] has them with the icon directory `icon_dir`
/// among the `files` of `game`, a warning unless one icon applies without a
/// trigger, its assets as [`visual_assets_reports`] has them, a warning
/// unless one asset applies without a trigger, and the fields it does not
/// know.
pub open spec fn artifact_visual_reports(
    key: Token,
    block: Block,
    db: Db,
    files: Seq<FileEntry>,
    game: Game,
    icon_dir: Option<Seq<char>>,
) -> Seq<ReportView> {
    rules_reports(artifact_visual_rules(), block, db)
        + visual_icons_reports(block.v@, db, files, game, icon_dir)
        + (
    if has_unconditional(block.v@, "icon"@) {
        Seq::empty()
    } else {
        seq![rv(ErrorKey::Validation, Severity::Warning, "needs one icon without a trigger"@, key.loc)]
    }) + visual_assets_reports(block.v@, db) + (if has_unconditional(block.v@, "asset"@) {
        Seq::empty()
    } else {
        seq![rv(ErrorKey::Validation, Severity::Warning, "needs at least one asset without a trigger"@, key.loc)]
    }) + unknown_field_reports(artifact_visual_known(), block.v@)
}

/// Checks the `icon` fields of `b`, as [`visual_icons_reports`] says, and
/// tells whether one applies without a condition.
fn check_visual_icons(fs: &mut Fileset, b: &Block, db: &Db, dir: Option<&str>) -> (r: (Vec<Report>, bool))
    requires
        db.wf(),
        old(fs).wf(),
    ensures
        final(fs).wf(),
        marked_more(*old(fs), *final(fs), visual_icons_names(b.v@, opt_text(dir))),
        views(r.0@) == visual_icons_reports(b.v@, *db, old(fs).spec_files(), old(fs).spec_game(), opt_text(dir)),
        r.1 == has_unconditional(b.v@, "icon"@),
{
    let ghost f0 = *fs;
    let rules = vec![
        FieldRule { name: "trigger", required: false, kind: FieldKind::Trigger },
        FieldRule { name: "reference", required: false, kind: FieldKind::Value },
    ];
    assert(rules_view(rules@) =~= visual_icon_rules());
    let mut out: Vec<Report> = Vec::new();
    let mut found = false;
    let mut i: usize = 0;
    assert(fs.spec_used() =~= f0.spec_used().union(visual_icons_names(b.v@.take(0), opt_text(dir))));
    while i < b.v.len()
        invariant
            i <= b.v@.len(),
            db.wf(),
            fs.wf(),
            rules_view(rules@) == visual_icon_rules(),
            marked_more(f0, *fs, visual_icons_names(b.v@.take(i as int), opt_text(dir))),
            views(out@) == visual_icons_reports(b.v@.take(i as int), *db, f0.spec_files(), f0.spec_game(), opt_text(dir)),
            found == (exists|j: int| 0 <= j < i && unconditional_item(#[trigger] b.v@[j], "icon"@)),
        decreases b.v@.len() - i,
    {
        assert(b.v@.take(i + 1).drop_last() =~= b.v@.take(i as int));
        assert(b.v@.take(i + 1).last() == b.v@[i as int]);
        match &b.v[i] {
            BlockItem::Field(k, BV::Value(t)) => {
                if k.is("icon") {
                    found = true;
                    append_reports(&mut out, check_icon(fs, dir, t, ""));
                }
            },
            BlockItem::Field(k, BV::Block(ib)) => {
                if k.is("icon") {
                    if !ib.has_key("trigger") {
                        found = true;
                    }
                    append_reports(&mut out, check_rules(ib, db, &rules));
                    match ib.get_field_value("reference") {
                        Some(t) => append_reports(&mut out, check_icon(fs, dir, t, "")),
                        None => {},
                    }
                    append_reports(&mut out, check_unknown(ib, &rules));
                }
            },
            _ => {},
        }
        assert(fs.spec_used() =~= f0.spec_used().union(visual_icons_names(b.v@.take(i + 1), opt_text(dir))));
        assert(views(out@) =~= visual_icons_reports(b.v@.take(i + 1), *db, f0.spec_files(), f0.spec_game(), opt_text(dir)));
        i = i + 1;
    }
    assert(b.v@.take(b.v@.len() as int) =~= b.v@);
    (out, found)
}

/// Checks the `asset` fields of `b`, as [`visual_assets_reports`] says, and
/// tells whether one applies without a condition.
fn check_visual_assets(b: &Block, db: &Db) -> (r: (Vec<Report>, bool))
    requires
        db.wf(),
    ensures
        views(r.0@) == visual_assets_reports(b.v@, *db),
        r.1 == has_unconditional(b.v@, "asset"@),
{
    let rules = vec![
        FieldRule { name: "trigger", required: false, kind: FieldKind::Trigger },
        FieldRule { name: "reference", required: false, kind: FieldKind::Item(Item::Asset) },
    ];
    assert(rules_view(rules@) =~= visual_asset_rules());
    let mut out: Vec<Report> = Vec::new();
    let mut found = false;
    let mut i: usize = 0;
    while i < b.v.len()
        invariant
            i <= b.v@.len(),
            db.wf(),
            rules_view(rules@) == visual_asset_rules(),
            views(out@) == visual_assets_reports(b.v@.take(i as int), *db),
            found == (exists|j: int| 0 <= j < i && unconditional_item(#[trigger] b.v@[j], "asset"@)),
        decreases b.v@.len() - i,
    {
        assert(b.v@.take(i + 1).drop_last() =~= b.v@.take(i as int));
        assert(b.v@.take(i + 1).last() == b.v@[i as int]);
        match &b.v[i] {
            BlockItem::Field(k, BV::Value(t)) => {
                if k.is("asset") {
                    found = true;
                    check_item(db, Item::Asset, t.as_str(), t.loc, &mut out);
                }
            },
            BlockItem::Field(k, BV::Block(ib)) => {
                if k.is("asset") {
                    if !ib.has_key("trigger") {
                        found = true;
                    }
                    append_reports(&mut out, check_fields(ib, db, &rules));
                }
            },
            _ => {},
        }
        assert(views(out@) =~= visual_assets_reports(b.v@.take(i + 1), *db));
        i = i + 1;
    }
    assert(b.v@.take(b.v@.len() as int) =~= b.v@);
    (out, found)
}

impl ArtifactVisual {
    /// Checks the artifact visual `key` defined by `block`, as
    /// [`artifact_visual_reports`] says, with `fs` the file set and
    /// `icon_dir` the directory of artifact icons (the game's define
    /// `NGameIcons|ARTIFACT_ICON_PATH`), if known; the icon files are marked
    /// as used.
    pub fn validate(key: &Token, block: &Block, db: &Db, fs: &mut Fileset, icon_dir: Option<&str>) -> (r: Vec<Report>)
        requires
            db.wf(),
            old(fs).wf(),
        ensures
            final(fs).wf(),
            marked_more(*old(fs), *final(fs), visual_icons_names(block.v@, opt_text(icon_dir))),
            views(r@) == artifact_visual_reports(
                *key,
                *block,
                *db,
                old(fs).spec_files(),
                old(fs).spec_game(),
                opt_text(icon_dir),
            ),
    {
        let rules = vec![
            FieldRule { name: "default_type", required: false, kind: FieldKind::Value },
            FieldRule { name: "pedestal", required: false, kind: FieldKind::Value },
            FieldRule { name: "support_type", required: false, kind: FieldKind::Value },
        ];
        assert(rules_view(rules@) =~= artifact_visual_rules());
        let mut out = check_rules(block, db, &rules);
        let (icons, icon_found) = check_visual_icons(fs, block, db, icon_dir);
        append_reports(&mut out, icons);
        let mut icon_warning: Vec<Report> = Vec::new();
        if !icon_found {
            icon_warning.push(report_str(ErrorKey::Validation, Severity::Warning, "needs one icon without a trigger", key.loc));
        }
        assert(views(icon_warning@) =~= (if has_unconditional(block.v@, "icon"@) {
            Seq::empty()
        } else {
            seq![rv(ErrorKey::Validation, Severity::Warning, "needs one icon without a trigger"@, key.loc)]
        }));
        append_reports(&mut out, icon_warning);
        let (assets, asset_found) = check_visual_assets(block, db);
        append_reports(&mut out, assets);
        let mut asset_warning: Vec<Report> = Vec::new();
        if !asset_found {
            asset_warning.push(report_str(
                ErrorKey::Validation,
                Severity::Warning,
                "needs at least one asset without a trigger",
                key.loc,
            ));
        }
        assert(views(asset_warning@) =~= (if has_unconditional(block.v@, "asset"@) {
            Seq::empty()
        } else {
            seq![rv(ErrorKey::Validation, Severity::Warning, "needs at least one asset without a trigger"@, key.loc)]
        }));
        append_reports(&mut out, asset_warning);
        let mut known: Vec<FieldRule> = Vec::new();
        extend_rules(&mut known, &rules);
        known.push(FieldRule { name: "icon", required: false, kind: FieldKind::Any });
        known.push(FieldRule { name: "asset", required: false, kind: FieldKind::Any });
        assert(rules_view(known@) =~= artifact_visual_known());
        append_reports(&mut out, check_unknown(block, &known));
        out
    }
}

} // verus!
