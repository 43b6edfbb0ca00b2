use tiger_lib::block::{Block, BV};
use tiger_lib::ck3::data::artifacts::{ArtifactBlueprint, ArtifactFeatureGroup, ArtifactSlot, ArtifactType, ArtifactVisual};
use tiger_lib::ck3::data::casusbelli::CasusBelliGroup;
use tiger_lib::ck3::data::character_templates::CharacterTemplate;
use tiger_lib::ck3::data::doctrines::Doctrine;
use tiger_lib::ck3::data::schemes::{AgentType, Countermeasure, SchemePulseAction};
use tiger_lib::ck3::data::domiciles::DomicileType;
use tiger_lib::ck3::data::graphical_unit_types::GraphicalUnitType;
use tiger_lib::ck3::data::houses::HouseAspiration;
use tiger_lib::ck3::data::table_styles::TableStyle;
use tiger_lib::data::achievements::Achievement;
use tiger_lib::data::scripted_effects::Effects;
use tiger_lib::scopes::Scopes;
use tiger_lib::db::{Db, Item};
use tiger_lib::eu5::data::building_categories::BuildingCategory;
use tiger_lib::eu5::data::game_concepts::GameConcept;
use tiger_lib::eu5::data::modifier_type_definitions::ModifierTypeDefinition;
use tiger_lib::files::fileset::{FileKind, Fileset, LoadedMod};
use tiger_lib::files::fileset_builder::FilesetBuilderWithConfig;
use tiger_lib::game::Game;
use tiger_lib::hoi4::data::dynamic::DynamicModifier;
use tiger_lib::hoi4::data::focus::NationalFocus;
use tiger_lib::imperator::data::laws::Law;
use tiger_lib::report::Report;
use tiger_lib::token::{Loc, Token};

fn tok(s: &str) -> Token {
    Token::new(s, Loc::new(1, 2, 3))
}

fn block() -> Block {
    Block::new(Loc::new(1, 1, 1))
}

fn with_field(mut b: Block, key: &str, value: &str) -> Block {
    b.add_field(tok(key), BV::Value(tok(value)));
    b
}

fn with_block(mut b: Block, key: &str, inner: Block) -> Block {
    b.add_field(tok(key), BV::Block(inner));
    b
}

fn with_values(mut b: Block, values: &[&str]) -> Block {
    for v in values {
        b.add_value(BV::Value(tok(v)));
    }
    b
}

fn files(game: Game, paths: &[&str]) -> Fileset {
    let the_mod = LoadedMod::new_main_mod("/mods/mine", Vec::new());
    let mut b = FilesetBuilderWithConfig::new(game, the_mod, Vec::new(), Block::new(Loc::new(0, 0, 0)));
    for p in paths {
        b.add_scanned_file(p, FileKind::Mod, &format!("/mods/mine/{p}"));
    }
    b.finalize()
}

fn msgs(r: &[Report]) -> Vec<String> {
    r.iter().map(|r| r.msg.clone()).collect()
}

#[test]
fn artifact_type_checks_localization_and_fields() {
    let mut db = Db::new();
    db.add_flag(Item::Localization, tok("artifact_sword"));
    db.add_flag(Item::ArtifactFeatureGroup, tok("blade"));
    let b = with_block(block(), "required_features", with_values(block(), &["blade", "hilt"]));
    let b = with_field(b, "can_reforge", "sometimes");
    let b = with_field(b, "sharpness", "9");
    assert_eq!(
        msgs(&ArtifactType::validate(&tok("sword"), &b, &db)),
        vec!["`hilt` is not defined", "expected `yes` or `no`", "unknown field `sharpness`"]
    );
    assert_eq!(msgs(&ArtifactType::validate(&tok("axe"), &block(), &db)), vec!["`artifact_axe` is not defined"]);
}

#[test]
fn artifact_feature_group_knows_no_field() {
    let db = Db::new();
    assert!(ArtifactFeatureGroup::validate(&tok("g"), &block(), &db).is_empty());
    let b = with_field(block(), "weight", "1");
    assert_eq!(msgs(&ArtifactFeatureGroup::validate(&tok("g"), &b, &db)), vec!["unknown field `weight`"]);
}

#[test]
fn artifact_blueprint_requires_its_types() {
    let mut db = Db::new();
    db.add_flag(Item::ArtifactType, tok("sword"));
    let b = with_field(block(), "in_type", "sword");
    let b = with_field(b, "out_type", "spear");
    assert_eq!(
        msgs(&ArtifactBlueprint::validate(&tok("bp"), &b, &db)),
        vec![
            "required field `in_visuals` missing",
            "required field `out_visuals` missing",
            "`spear` is not defined",
        ]
    );
}

#[test]
fn house_aspiration_checks_icon_levels_and_files() {
    let mut db = Db::new();
    db.add_flag(Item::Localization, tok("rich_house_power"));
    let mut fs = files(Game::Ck3, &["gfx/powers/rich.dds", "gfx/ill/rich.dds"]);
    let level = with_field(block(), "can_upgrade", "x");
    let level = with_field(level, "cost_factor", "2");
    let b = with_block(block(), "level", level);
    let b = with_field(b, "illustration", "gfx/ill/poor.dds");
    let b = with_block(b, "cooldown", with_field(block(), "days", "many"));
    let r = HouseAspiration::validate(&tok("rich"), &b, &db, &mut fs, Some("gfx/powers"));
    assert_eq!(
        msgs(&r),
        vec!["expected block, found value", "unknown field `cost_factor`", "referenced file does not exist", "expected integer"]
    );
    let r = HouseAspiration::validate(&tok("poor"), &block(), &db, &mut fs, Some("gfx/powers"));
    assert_eq!(
        msgs(&r),
        vec![
            "`poor_house_power` is not defined",
            "file gfx/powers/poor.dds does not exist",
            "required field `level` missing",
        ]
    );
}

#[test]
fn doctrine_name_replaces_localization() {
    let mut db = Db::new();
    db.add_flag(Item::Localization, tok("pluralism_desc"));
    let mut fs = files(Game::Ck3, &["gfx/doctrines/pluralism.dds"]);
    let r = Doctrine::validate(&tok("pluralism"), &block(), &db, &mut fs, Some("gfx/doctrines"));
    assert_eq!(msgs(&r), vec!["`pluralism_name` is not defined"]);
    let b = with_field(block(), "name", "custom_name");
    assert!(Doctrine::validate(&tok("pluralism"), &b, &db, &mut fs, Some("gfx/doctrines")).is_empty());
    let b = with_field(b, "icon", "other");
    assert_eq!(
        msgs(&Doctrine::validate(&tok("pluralism"), &b, &db, &mut fs, Some("gfx/doctrines"))),
        vec!["file gfx/doctrines/other.dds does not exist"]
    );
}

#[test]
fn domicile_files_are_looked_up() {
    let mut db = Db::new();
    db.add_flag(Item::Localization, tok("domicile_camp"));
    let mut fs = files(Game::Ck3, &["gfx/camp.dds"]);
    let b = with_field(block(), "illustration", "gfx/camp.dds");
    let b = with_field(b, "icon", "gfx/camp_icon.dds");
    let b = with_field(b, "map_pin_anchor", "down");
    let b = with_block(b, "domicile_asset", with_field(block(), "music", "x"));
    assert_eq!(
        msgs(&DomicileType::validate(&tok("camp"), &b, &db, &mut fs)),
        vec!["referenced file does not exist", "expected one of up, right", "unknown field `music`"]
    );
}

#[test]
fn table_style_environment_is_a_file() {
    let db = Db::new();
    let mut fs = files(Game::Ck3, &["gfx/env.txt"]);
    let b = with_field(block(), "environment", "gfx/env.txt");
    assert!(TableStyle::validate(&tok("t"), &b, &db, &mut fs).is_empty());
    let b = with_field(block(), "environment", "gfx/none.txt");
    assert_eq!(msgs(&TableStyle::validate(&tok("t"), &b, &db, &mut fs)), vec!["referenced file does not exist"]);
}

#[test]
fn achievements_depend_on_the_game() {
    let mut db = Db::new();
    db.add_flag(Item::Localization, tok("ACHIEVEMENT_win"));
    let b = with_field(block(), "id", "x");
    assert_eq!(
        msgs(&Achievement::validate(&tok("win"), &b, &db, Game::Ck3)),
        vec!["`ACHIEVEMENT_DESC_win` is not defined", "unknown field `id`"]
    );
    assert_eq!(msgs(&Achievement::validate(&tok("win"), &b, &db, Game::Hoi4)), vec!["expected integer"]);
}

#[test]
fn game_concept_texture_is_an_icon() {
    let mut db = Db::new();
    db.add_flag(Item::Localization, tok("game_concept_tax"));
    db.add_flag(Item::Localization, tok("game_concept_tax_desc"));
    let mut fs = files(Game::Eu5, &["gfx/interface/icons/coin.dds"]);
    let b = with_field(block(), "texture", "coin");
    assert!(GameConcept::validate(&tok("tax"), &b, &db, &mut fs).is_empty());
    let b = with_field(block(), "texture", "gold");
    let b = with_field(b, "family", "money");
    assert_eq!(
        msgs(&GameConcept::validate(&tok("tax"), &b, &db, &mut fs)),
        vec![
            "file gfx/interface/icons/gold.dds does not exist",
            "expected one of good, tax_base, religion, culture, food, integration_status, combat, dice, cabinet, market, mercenary, trait, role, location_rank, ability",
        ]
    );
}

#[test]
fn modifier_type_names_are_lowercase() {
    let mut db = Db::new();
    for l in ["MODIFIER_TYPE_NAME_Tax", "MODIFIER_TYPE_DESC_Tax", "MODIFIER_TYPE_NAME_tax", "MODIFIER_TYPE_DESC_tax"] {
        db.add_flag(Item::Localization, tok(l));
    }
    assert_eq!(
        msgs(&ModifierTypeDefinition::validate(&tok("Tax"), &block(), &db)),
        vec!["modifier type definition names must be lowercase"]
    );
    let b = with_block(block(), "game_data", with_field(block(), "format", "FormatSilver"));
    assert_eq!(
        msgs(&ModifierTypeDefinition::validate(&tok("tax"), &b, &db)),
        vec!["expected one of FormatPopCaps, FormatManPower, FormatGold"]
    );
}

#[test]
fn building_category_ignores_its_fields() {
    let mut db = Db::new();
    db.add_flag(Item::Localization, tok("farms"));
    let b = with_field(block(), "anything", "1");
    assert_eq!(msgs(&BuildingCategory::validate(&tok("farms"), &b, &db)), vec!["`farms_desc` is not defined"]);
}

#[test]
fn focus_prerequisites_name_focuses() {
    let mut db = Db::new();
    db.add_flag(Item::NationalFocus, tok("industry"));
    let pre = with_field(with_field(block(), "focus", "industry"), "focus", "army");
    let b = with_block(block(), "prerequisite", pre);
    let b = with_field(b, "cost", "10");
    assert_eq!(msgs(&NationalFocus::validate(&tok("f"), &b, &db)), vec!["`army` is not defined"]);
}

#[test]
fn laws_and_dynamic_modifiers() {
    let mut db = Db::new();
    db.add_flag(Item::Localization, tok("monarchy"));
    let b = with_field(block(), "succession", "random");
    assert_eq!(
        msgs(&Law::validate(&tok("monarchy"), &b, &db)),
        vec!["`monarchy_desc` is not defined", "expected one of elective_monarchy, old_egyptian_succession, agnatic, cognatic, agnatic_seniority"]
    );
    db.add_flag(Item::Localization, tok("war_fever"));
    let b = with_field(block(), "army_speed", "0.1");
    assert!(DynamicModifier::validate(&tok("war_fever"), &b, &db).is_empty());
}

#[test]
fn artifact_slot_icon_depends_on_the_category() {
    let mut db = Db::new();
    db.add_flag(Item::Localization, tok("helmet"));
    db.add_flag(Item::ArtifactSlotType, tok("head"));
    let mut fs = files(Game::Ck3, &["gfx/slots/helmet.dds"]);
    let b = with_field(block(), "type", "head");
    let b = with_field(b, "category", "inventory");
    assert!(ArtifactSlot::validate(&tok("helmet"), &b, &db, &mut fs, Some("gfx/slots")).is_empty());
    let b = with_field(b, "icon", "hat");
    assert_eq!(
        msgs(&ArtifactSlot::validate(&tok("helmet"), &b, &db, &mut fs, Some("gfx/slots"))),
        vec!["file gfx/slots/hat.dds does not exist"]
    );
    let b = with_field(block(), "category", "court");
    assert!(ArtifactSlot::validate(&tok("helmet"), &b, &db, &mut fs, Some("gfx/slots")).is_empty());
    let b = with_field(block(), "icon", "hat");
    assert_eq!(
        msgs(&ArtifactSlot::validate(&tok("helmet"), &b, &db, &mut fs, Some("gfx/slots"))),
        vec!["unknown field `icon`"]
    );
}

#[test]
fn graphical_unit_types_need_an_illustration() {
    let mut db = Db::new();
    db.add_flag(Item::UnitGfx, tok("western"));
    let fs = files(Game::Ck3, &["gfx/knights_big/archers.dds"]);
    let dirs = [Some("gfx/levies_small"), None, None, Some("gfx/knights_big")];
    let b = with_block(block(), "graphical_cultures", with_values(block(), &["western"]));
    assert!(GraphicalUnitType::validate(&tok("archers"), &b, &db, &fs, &dirs).is_empty());
    assert_eq!(
        msgs(&GraphicalUnitType::validate(&tok("spearmen"), &b, &db, &fs, &dirs)),
        vec!["no knight or levy illustrations found for `{key}`"]
    );
    assert!(GraphicalUnitType::validate(&tok("default"), &block(), &db, &fs, &dirs).is_empty());
}

#[test]
fn artifact_visuals_need_unconditional_icons_and_assets() {
    let mut db = Db::new();
    db.add_flag(Item::Asset, tok("sword_mesh"));
    let mut fs = files(Game::Ck3, &["gfx/artifacts/sword.dds"]);
    let icon = with_block(block(), "trigger", block());
    let icon = with_field(icon, "reference", "sword.dds");
    let b = with_block(block(), "icon", icon);
    let b = with_field(b, "asset", "sword_mesh");
    assert_eq!(
        msgs(&ArtifactVisual::validate(&tok("sword"), &b, &db, &mut fs, Some("gfx/artifacts"))),
        vec!["needs one icon without a trigger"]
    );
    let b = with_field(block(), "icon", "missing.dds");
    let b = with_block(b, "asset", with_block(with_field(block(), "reference", "axe_mesh"), "trigger", block()));
    assert_eq!(
        msgs(&ArtifactVisual::validate(&tok("axe"), &b, &db, &mut fs, Some("gfx/artifacts"))),
        vec![
            "file gfx/artifacts/missing.dds does not exist",
            "`axe_mesh` is not defined",
            "needs at least one asset without a trigger",
        ]
    );
}

#[test]
fn scripted_effects_registry() {
    let mut effects = Effects::new();
    assert!(!effects.has_effect("give_gold"));
    effects.set_scope_override(tok("give_gold"), Scopes::character());
    effects.load_item(tok("give_gold"), block());
    effects.load_item(tok("take_gold"), with_field(block(), "add_gold", "-1"));
    effects.load_item(tok("give_gold"), with_field(block(), "add_gold", "1"));
    assert!(effects.has_effect("give_gold"));
    assert!(!effects.has_effect("steal_gold"));
    let e = effects.get("give_gold").unwrap();
    assert_eq!(e.block.v.len(), 1);
    assert_eq!(e.scope_override, Some(Scopes::character()));
    assert_eq!(effects.get("take_gold").unwrap().scope_override, None);
    let mut names: Vec<String> = effects.iter_keys().iter().map(|t| t.s.clone()).collect();
    names.sort();
    assert_eq!(names, vec!["give_gold", "take_gold"]);
}

#[test]
fn character_template_fields_set_by_the_caller_are_only_read() {
    let mut db = Db::new();
    db.add_flag(Item::Localization, tok("knight_name"));
    let b = with_field(block(), "name", "knight_name");
    let b = with_field(b, "dynasty", "royal");
    let b = with_field(b, "random_traits", "maybe");
    let b = with_field(b, "culture", "scope:culture");
    let b = with_field(b, "hair", "red");
    assert_eq!(
        msgs(&CharacterTemplate::validate(&tok("knight"), &b, &db)),
        vec!["expected `yes` or `no`", "expected one of generate, inherit, none", "unknown field `hair`"]
    );
    let from = with_field(with_field(block(), "dynasty", "generate"), "name", "x");
    let b = with_field(block(), "name", "plain_name");
    let b = with_field(b, "dynasty", "royal");
    assert!(CharacterTemplate::validate_call(&tok("knight"), &b, &tok("caller"), &from, &db).is_empty());
}

#[test]
fn scheme_items_are_checked() {
    let mut db = Db::new();
    for l in ["spy", "spy_i", "scheme_countermeasure_type_guards", "scheme_countermeasure_type_guards_desc"] {
        db.add_flag(Item::Localization, tok(l));
    }
    assert_eq!(
        msgs(&AgentType::validate(&tok("spy"), &with_field(block(), "contribution", "10"), &db)),
        vec!["`spy_desc` is not defined"]
    );
    let mut fs = files(Game::Ck3, &["gfx/modifiers/pulse.dds", "gfx/countermeasures/guards.dds"]);
    let b = with_field(block(), "icon", "pulse");
    let b = with_field(b, "hud_text", "pulse_hud");
    assert_eq!(
        msgs(&SchemePulseAction::validate(&tok("p"), &b, &db, &mut fs, Some("gfx/modifiers"))),
        vec!["`pulse_hud` is not defined"]
    );
    let b = with_field(block(), "frame", "gfx/frames/gold.dds");
    assert_eq!(
        msgs(&Countermeasure::validate(&tok("guards"), &b, &db, &mut fs, Some("gfx/countermeasures"))),
        vec!["referenced file does not exist"]
    );
    let b = with_field(block(), "can_only_start_via_script", "yes");
    assert!(CasusBelliGroup::validate(&tok("g"), &b, &db).is_empty());
}

#[test]
fn game_concept_aliases_need_the_concept_localization() {
    let mut db = Db::new();
    db.add_flag(Item::Localization, tok("game_concept_tax"));
    db.add_flag(Item::Localization, tok("game_concept_tax_desc"));
    let mut fs = files(Game::Eu5, &[]);
    let b = with_field(block(), "alias", "taxes");
    assert!(GameConcept::validate(&tok("tax"), &b, &db, &mut fs).is_empty());
    assert_eq!(
        msgs(&GameConcept::validate(&tok("war"), &b, &db, &mut fs)),
        vec!["`game_concept_war` is not defined", "`game_concept_war_desc` is not defined", "`game_concept_war` is not defined"]
    );
}
