use tiger_lib::block::{Block, BV};
use tiger_lib::ck3::data::artifacts::ArtifactSlot;
use tiger_lib::ck3::data::confederations::ConfederationType;
use tiger_lib::ck3::data::connection_arrows::ConnectionArrow;
use tiger_lib::ck3::data::court_scene::CourtSceneSetting;
use tiger_lib::ck3::data::doctrines::Doctrine;
use tiger_lib::ck3::data::domiciles::DomicileBuilding;
use tiger_lib::ck3::data::government::Government;
use tiger_lib::ck3::data::greatprojects::GreatProjectType;
use tiger_lib::ck3::data::houses::{House, HouseAspiration};
use tiger_lib::ck3::data::schemes::Countermeasure;
use tiger_lib::data::achievements::AchievementGroup;
use tiger_lib::db::{Db, Item};
use tiger_lib::eu5::data::game_concepts::GameConcept;
use tiger_lib::hoi4::data::focus::NationalFocusTree;
use tiger_lib::imperator::data::laws::LawGroup;
use tiger_lib::report::{ErrorKey, Severity};
use tiger_lib::token::{Loc, Token};

fn tok(s: &str) -> Token {
    Token::new(s, Loc::new(1, 2, 3))
}

fn block() -> Block {
    Block::new(Loc::new(1, 1, 1))
}

fn with_field(mut b: Block, key: &str, value: &str) -> Block {
    b.add_field(tok(key), BV::Value(tok(value)));
    b
}

fn with_block(mut b: Block, key: &str, inner: Block) -> Block {
    b.add_field(tok(key), BV::Block(inner));
    b
}

fn with_values(mut b: Block, values: &[&str]) -> Block {
    for v in values {
        b.add_value(BV::Value(tok(v)));
    }
    b
}

#[test]
fn added_items_can_be_read_back() {
    let mut db = Db::new();
    ConnectionArrow::add(&mut db, tok("arrow"), with_field(block(), "is_primary", "yes"));
    assert!(db.item_exists(Item::ConnectionArrow, "arrow"));
    assert!(!db.item_exists(Item::ConnectionArrow, "other"));
    assert!(!db.item_exists(Item::House, "arrow"));
    let (k, b) = db.get_key_block(Item::ConnectionArrow, "arrow").unwrap();
    assert_eq!(k.s, "arrow");
    assert!(b.field_value_is("is_primary", "yes"));
}

#[test]
fn a_later_definition_replaces_an_earlier_one() {
    let mut db = Db::new();
    House::add(&mut db, tok("house_a"), with_field(block(), "dynasty", "d1"));
    House::add(&mut db, tok("house_a"), with_field(block(), "dynasty", "d2"));
    assert_eq!(db.len(), 1);
    assert_eq!(House::get_dynasty("house_a", &db).map(|t| t.s.clone()), Some("d2".to_string()));
    assert!(House::get_dynasty("house_b", &db).is_none());
}

#[test]
fn grandeur_levels_are_not_a_court_scene_setting() {
    let mut db = Db::new();
    CourtSceneSetting::add(&mut db, tok("grandeur_levels"), block());
    CourtSceneSetting::add(&mut db, tok("throne_room"), block());
    assert!(!db.item_exists(Item::CourtSceneSetting, "grandeur_levels"));
    assert!(db.item_exists(Item::CourtSceneSetting, "throne_room"));
}

#[test]
fn achievement_groups_are_named_by_their_name_field() {
    let mut db = Db::new();
    let r = AchievementGroup::add(&mut db, tok("group"), with_field(block(), "name", "g1"));
    assert!(r.is_empty());
    assert!(db.item_exists(Item::AchievementGroup, "g1"));
    let r = AchievementGroup::add(&mut db, tok("group"), block());
    assert_eq!(r[0].msg, "group missing `name` field");
    assert_eq!(r[0].key, ErrorKey::FieldMissing);
    let r = AchievementGroup::add(&mut db, tok("other"), block());
    assert_eq!(r[0].msg, "unknown key in achievement groups");
    assert_eq!(r[0].info.as_deref(), Some("expected only `group`"));
    assert_eq!(r[0].key, ErrorKey::UnknownField);
    assert_eq!(r[0].severity, Severity::Error);
}

#[test]
fn focus_files_hold_trees_focuses_and_styles() {
    let mut db = Db::new();
    let focus_a = with_field(block(), "id", "focus_a");
    let nameless = block();
    let tree = with_block(with_block(with_field(block(), "id", "tree_1"), "focus", focus_a), "focus", nameless);
    assert!(NationalFocusTree::add(&mut db, tok("focus_tree"), tree).is_empty());
    assert!(db.item_exists(Item::NationalFocusTree, "tree_1"));
    let r = NationalFocusTree::add(&mut db, tok("style"), block());
    assert_eq!(r[0].msg, "style without name");
    let r = NationalFocusTree::add(&mut db, tok("joint_focus"), block());
    assert_eq!(r[0].msg, "focus without id");
    let r = NationalFocusTree::add(&mut db, tok("bogus"), block());
    assert_eq!(r[0].msg, "unexpected key");

    let (_, tree_block) = db.get_key_block(Item::NationalFocusTree, "tree_1").unwrap();
    let tree_block = tree_block.copy();
    let r = NationalFocusTree {}.add_subitems(&tok("tree_1"), &tree_block, &mut db);
    assert!(db.item_exists(Item::NationalFocus, "focus_a"));
    assert_eq!(r.len(), 1);
    assert_eq!(r[0].msg, "focus without id");
}

#[test]
fn law_groups_define_their_laws() {
    let mut db = Db::new();
    let group = with_block(with_block(block(), "potential", block()), "law_a", with_field(block(), "x", "1"));
    LawGroup {}.add_subitems(&tok("group"), &group, &mut db);
    assert!(db.item_exists(Item::Law, "law_a"));
    assert!(!db.item_exists(Item::Law, "potential"));
    let (_, b) = db.get_key_block(Item::Law, "law_a").unwrap();
    assert!(b.field_value_is("x", "1"));
}

#[test]
fn subitems_add_flags() {
    let mut db = Db::new();
    ArtifactSlot {}.add_subitems(&tok("slot"), &with_field(block(), "type", "helmet"), &mut db);
    assert!(db.item_exists(Item::ArtifactSlotType, "helmet"));

    let params = with_field(with_field(block(), "p_yes", "yes"), "p_other", "3");
    let doctrine = with_block(block(), "parameters", params);
    Doctrine {}.add_subitems(&tok("d"), &doctrine, &mut db);
    assert!(db.item_exists(Item::DoctrineBooleanParameter, "p_yes"));
    assert!(!db.item_exists(Item::DoctrineBooleanParameter, "p_other"));
    assert!(db.item_exists(Item::DoctrineParameter, "p_other"));

    let level = with_block(
        with_block(block(), "parameters", with_field(block(), "power_a", "YES")),
        "house_head_parameters",
        with_field(block(), "head_a", "No"),
    );
    HouseAspiration {}.add_subitems(&tok("h"), &with_block(block(), "level", level), &mut db);
    assert!(db.item_exists(Item::BooleanHousePowerParameter, "power_a"));
    assert!(db.item_exists(Item::BooleanHouseHeadParameter, "head_a"));

    let coh = with_block(block(), "parameters", with_field(block(), "coh_a", "1"));
    ConfederationType {}.add_subitems(&tok("c"), &with_block(block(), "cohesion_level", coh), &mut db);
    assert!(db.item_exists(Item::CohesionLevelParameter, "coh_a"));

    let dom = with_field(block(), "dom_a", "2");
    DomicileBuilding {}.add_subitems(&tok("b"), &with_block(block(), "parameters", dom), &mut db);
    assert!(db.item_exists(Item::DomicileParameter, "dom_a"));

    Government {}.add_subitems(&tok("g"), &with_block(block(), "flags", with_values(block(), &["f1", "f2"])), &mut db);
    assert!(db.item_exists(Item::GovernmentFlag, "f2"));

    GameConcept {}.add_subitems(&tok("gc"), &with_block(block(), "alias", with_values(block(), &["alias_a"])), &mut db);
    assert!(db.item_exists(Item::GameConcept, "alias_a"));

    let contributions = with_block(block(), "contrib_a", block());
    GreatProjectType {}.add_subitems(&tok("gp"), &with_block(block(), "project_contributions", contributions), &mut db);
    assert!(db.item_exists(Item::ProjectContribution, "contrib_a"));

    Countermeasure {}.add_subitems(&tok("cm"), &with_block(block(), "parameters", with_field(block(), "cm_a", "1")), &mut db);
    assert!(db.item_exists(Item::CountermeasureParameter, "cm_a"));
    assert_eq!(db.len(), 0);
}

#[test]
fn unreformed_doctrines() {
    let d = with_block(block(), "parameters", with_field(block(), "unreformed", "yes"));
    assert!(Doctrine {}.has_property(&tok("d"), &d, "unreformed"));
    assert!(!Doctrine {}.has_property(&tok("d"), &d, "reformed"));
    assert!(!Doctrine {}.has_property(&tok("d"), &block(), "unreformed"));
}
