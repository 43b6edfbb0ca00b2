use tiger_lib::benches::bench_mods;
use tiger_lib::block::{Block, BV};
use tiger_lib::datacontext::DataContext;
use tiger_lib::data::trigger_localization::TriggerLocalization;
use tiger_lib::db::Item;
use tiger_lib::defines::{Datatype, DefineType};
use tiger_lib::eu5::events::get_event_scope;
use tiger_lib::eu5::item::injectable_eu5;
use tiger_lib::eu5::tables::iterators::{iterator, iterator_removed};
use tiger_lib::eu5::tables::modifs::{lookup_engine_modif, lookup_modif};
use tiger_lib::files::fileset::{FileEntry, FileKind};
use tiger_lib::game::{Game, GameFlags};
use tiger_lib::hoi4::effect_validation::{validate_clr_flag, validate_flag_name};
use tiger_lib::imperator::provinces::{
    is_map_key, map_filename, FileContent, ImperatorProvinces, MapFileNames, MapRole,
};
use tiger_lib::nameset::NameSet;
use tiger_lib::pathname::{compare_paths, extension_of_path, path_from_str};
use tiger_lib::report::{ErrorKey, Report, Severity};
use tiger_lib::scopes::Scopes;
use tiger_lib::text::{
    collapse_slashes_chars, display_choices, parse_int, push_decimal, push_signed_decimal,
    replace_char_chars, strip_slash_chars,
    trim_char_chars, trim_ws_chars,
};
use tiger_lib::token::{Loc, Token};
use tiger_lib::tooltipped::Tooltipped;

fn tok(s: &str) -> Token {
    Token::new(s, Loc::new(4, 5, 6))
}

fn chars(s: &str) -> Vec<char> {
    s.chars().collect()
}

fn text(v: Vec<char>) -> String {
    v.into_iter().collect()
}

fn block() -> Block {
    Block::new(Loc::new(4, 1, 1))
}

fn with_field(mut b: Block, key: &str, value: &str) -> Block {
    b.add_field(tok(key), BV::Value(tok(value)));
    b
}

#[test]
fn text_helpers() {
    assert_eq!(text(strip_slash_chars(&chars("/a/b"))), "a/b");
    assert_eq!(text(strip_slash_chars(&chars("a/b"))), "a/b");
    assert_eq!(text(collapse_slashes_chars(&chars("a//b///c"))), "a/b//c");
    assert_eq!(text(replace_char_chars(&chars("a\\b\\c"), '\\', '/')), "a/b/c");
    let q = char::from(34u8);
    assert_eq!(text(trim_char_chars(&chars(&format!("{q}{q}x{q}y{q}")), q)), format!("x{q}y"));
    assert_eq!(text(trim_ws_chars(&chars(" \t x y\u{3000}\n"))), "x y");
    assert_eq!(text(trim_ws_chars(&chars("   "))), "");
    assert_eq!(parse_int(&chars("-12"), -100, 100), Some(-12));
    assert_eq!(parse_int(&chars("+7"), 0, 10), Some(7));
    assert_eq!(parse_int(&chars("11"), 0, 10), None);
    assert_eq!(parse_int(&chars("1x"), 0, 10), None);
    assert_eq!(display_choices(&vec!["a", "b", "c"], "or"), "a, b or c");
}

#[test]
fn game_flags_display() {
    assert_eq!(GameFlags::jomini().display(), "Crusader Kings 3, Victoria 3, Imperator: Rome and Europa Universalis 5");
    assert_eq!(GameFlags::hoi4().display(), "Hearts of Iron 4");
    assert!(GameFlags::jomini().contains(GameFlags::from_game(Game::Eu5)));
    assert!(!GameFlags::jomini().contains(GameFlags::from_game(Game::Hoi4)));
    assert!(GameFlags::all().contains(GameFlags::ck3().union(GameFlags::hoi4())));
}

#[test]
fn modif_kinds_display() {
    let k = tiger_lib::ck3::modif::ModifKinds { bits: 0x1 | 0x200 };
    assert_eq!(k.display(), "character, travel plan");
    let k = tiger_lib::hoi4::modif::ModifKinds { bits: 0x1 | 0x20 | 0x4 };
    assert_eq!(k.display(), "aggressive, character, state");
    let k = tiger_lib::imperator::modif::ModifKinds { bits: 0x4 | 0x8 };
    assert_eq!(k.display(), "province, state");
    let k = tiger_lib::eu5::modif::ModifKinds { bits: 0x1 | 0x400 };
    assert_eq!(k.display(), "None, Unit");
    assert_eq!(tiger_lib::eu5::modif::ModifKinds { bits: 0 }.display(), "");
    assert!(k.contains(tiger_lib::eu5::modif::ModifKinds { bits: 0x400 }));
}

#[test]
fn eu5_tables() {
    assert!(injectable_eu5(Item::ScriptedEffect));
    assert!(!injectable_eu5(Item::House));
    let (scope, t) = get_event_scope(&tok("my_event"), &with_field(block(), "type", "unit_event"));
    assert_eq!(scope, Scopes::unit());
    assert_eq!(t.s, "unit_event");
    let (scope, t) = get_event_scope(&tok("my_event"), &with_field(block(), "type", "weird_event"));
    assert_eq!(scope, Scopes::country());
    assert_eq!(t.s, "my_event");
    assert_eq!(iterator("every_thing", &tok("every_thing")), None);
    assert_eq!(iterator_removed("any_thing"), None);
    let (kinds, reports) = lookup_modif(&tok("Some_Modif"), Some(Severity::Warning));
    assert!(kinds.is_none() && reports.is_empty());
    let (kinds, reports) = lookup_engine_modif(&tok("x"), "x", None);
    assert!(kinds.is_none() && reports.is_empty());
}

#[test]
fn hoi4_flag_names() {
    assert!(validate_flag_name(&tok("my_flag")).is_empty());
    assert!(validate_flag_name(&tok("my_flag@ROOT")).is_empty());
    assert!(validate_flag_name(&tok("my_flag@THIS_X")).is_empty());
    let r = validate_flag_name(&tok("my_flag@OTHER"));
    assert_eq!(r[0].msg, "invalid tag in flag name");
    assert_eq!(r[0].info.as_deref(), Some("must be @ROOT, @PREV, @FROM, or @THIS"));
    let r = validate_flag_name(&tok("a@ROOT@PREV"));
    assert_eq!(r[0].msg, "too many tags in flag name");
    let r = validate_clr_flag(&tok("clr_unit_leader_flag"), &tok("f@BAD"));
    let msgs: Vec<String> = r.iter().map(|r| r.msg.clone()).collect();
    assert_eq!(msgs, vec!["deprecated in favor of clr_character_flag", "invalid tag in flag name"]);
    assert_eq!(r[0].key, ErrorKey::Deprecated);
    assert!(validate_clr_flag(&tok("clr_character_flag"), &tok("f")).is_empty());
}

#[test]
fn define_types_have_datatypes() {
    assert_eq!(Datatype::from(DefineType::Boolean), Datatype::Bool);
    assert_eq!(Datatype::from(DefineType::Number), Datatype::CFixedPoint);
    assert_eq!(Datatype::from(DefineType::Choice(&["a", "b"])), Datatype::CString);
    assert_eq!(Datatype::from(DefineType::ItemList(Item::House)), Datatype::Unknown);
    assert_eq!(Datatype::from(DefineType::Color3), Datatype::CVector3f);
    assert_eq!(Datatype::from(DefineType::Color), Datatype::CVector4f);
}

#[test]
fn data_context_remembers_the_gui() {
    let mut dc = DataContext::new();
    assert!(dc.sgui_name().is_none());
    dc.set_sgui_name(tok("my_gui"));
    assert_eq!(dc.sgui_name().map(|t| t.s.clone()), Some("my_gui".to_string()));
}

fn use_msgs(block: &Block, locas: &NameSet, tooltipped: Tooltipped, negated: bool) -> Vec<String> {
    let r: Vec<Report> = TriggerLocalization::validate_use(&tok("trig"), block, locas, &tok("caller"), tooltipped, negated);
    r.into_iter().map(|r| r.msg).collect()
}

#[test]
fn trigger_localization_perspectives() {
    let mut locas = NameSet::new();
    let plain = with_field(block(), "first", "trig_first");
    assert!(use_msgs(&plain, &locas, Tooltipped::Yes, false).is_empty());
    assert!(use_msgs(&plain, &locas, Tooltipped::No, true).is_empty());
    assert_eq!(use_msgs(&plain, &locas, Tooltipped::Yes, true), vec!["missing `NOT_` perspective for trig"]);
    locas.insert("NOT_trig_first");
    assert!(locas.contains("NOT_trig_first"));
    assert!(use_msgs(&plain, &locas, Tooltipped::FailuresOnly, true).is_empty());
    let negated_only = with_field(block(), "first_not", "x");
    assert_eq!(use_msgs(&negated_only, &locas, Tooltipped::Yes, false), vec!["missing positive perspective for trig"]);
    assert!(use_msgs(&negated_only, &locas, Tooltipped::Yes, true).is_empty());
    let key = Token::new("trig", Loc::new(9, 8, 7));
    let caller = Token::new("caller", Loc::new(1, 2, 3));
    let r = TriggerLocalization::validate_use(&key, &negated_only, &locas, &caller, Tooltipped::Yes, false);
    assert_eq!(r.len(), 1);
    assert_eq!(r[0].loc, Loc::new(1, 2, 3));
    assert_eq!(r[0].also, Some((Loc::new(9, 8, 7), "here".to_string())));
    assert_eq!(r[0].severity, Severity::Warning);
}

#[test]
fn bench_mods_pairs_game_dir_with_mod_files() {
    let r = bench_mods(
        "/games/ck3",
        &vec!["/m/a.mod".to_string()],
        &vec![("b.mod".to_string(), "/dir/b.mod".to_string()), ("c.txt".to_string(), "/dir/c.txt".to_string())],
    );
    assert_eq!(
        r,
        vec![
            ("/games/ck3".to_string(), "/m/a.mod".to_string()),
            ("/games/ck3".to_string(), "/dir/b.mod".to_string())
        ]
    );
}

#[test]
fn map_file_names_come_from_default_map() {
    let q = char::from(34u8);
    let dm = with_field(
        with_field(block(), "definitions", &format!("{q}my_defs.csv{q}")),
        "provinces",
        &format!("{q}{q}"),
    );
    let names = MapFileNames::from_default_map(&dm);
    assert_eq!(names.definitions.as_deref(), Some("my_defs.csv"));
    assert_eq!(names.provinces, None);
    assert_eq!(names.adjacencies, None);
    assert_eq!(map_filename(Some(&tok(&format!("{q}a.png{q}")))).as_deref(), Some("a.png"));
    assert_eq!(map_filename(None), None);
    assert!(is_map_key(&tok("Adjacencies")));
    assert!(!is_map_key(&tok("sea_zones")));
    let d = MapFileNames::defaults();
    assert_eq!(d.climate.as_deref(), Some("climate.txt"));

    let e = FileEntry::new("map_data/my_defs.csv", FileKind::Mod, "/m/map_data/my_defs.csv");
    assert!(MapFileNames::matches_entry(&e, names.definitions.as_ref()));
    assert!(MapFileNames::matches_entry(&e, Some(&" map_data/my_defs.csv ".to_string())));
    assert!(!MapFileNames::matches_entry(&e, Some(&"  ".to_string())));
    assert!(!MapFileNames::matches_entry(&e, None));
}

#[test]
fn map_files_wait_for_default_map() {
    let mut p = ImperatorProvinces::new();
    let mut reports: Vec<Report> = Vec::new();
    let adj = FileEntry::new("map_data/adjacencies.csv", FileKind::Vanilla, "/v/map_data/adjacencies.csv");
    assert_eq!(ImperatorProvinces::map_file_kind(&adj), Some(false));
    let dm_entry = FileEntry::new("map_data/default.map", FileKind::Vanilla, "/v/map_data/default.map");
    assert_eq!(ImperatorProvinces::map_file_kind(&dm_entry), Some(true));
    let deep = FileEntry::new("map_data/x/y.txt", FileKind::Vanilla, "/v/map_data/x/y.txt");
    assert_eq!(ImperatorProvinces::map_file_kind(&deep), None);

    let now = p.handle_file(adj, FileContent::Deferred, &mut reports);
    assert!(now.is_empty());
    let q = char::from(34u8);
    let dm = with_field(block(), "adjacencies", &format!("{q}adjacencies.csv{q}"));
    let now = p.handle_file(dm_entry, FileContent::DefaultMap(dm), &mut reports);
    assert_eq!(now.len(), 1);
    assert_eq!(p.map_file_role(&now[0]), Some(MapRole::Adjacencies));
    assert!(reports.is_empty());
    assert!(p.finalize_map_files().is_empty());
}

#[test]
fn without_default_map_the_base_names_apply() {
    let mut p = ImperatorProvinces::new();
    let mut reports: Vec<Report> = Vec::new();
    let defs = FileEntry::new("map_data/definition.csv", FileKind::Vanilla, "/v/map_data/definition.csv");
    assert!(p.handle_file(defs, FileContent::Deferred, &mut reports).is_empty());
    let now = p.finalize_map_files();
    assert_eq!(now.len(), 1);
    assert_eq!(p.map_file_role(&now[0]), Some(MapRole::Definitions));
    let png = FileEntry::new("map_data/provinces.png", FileKind::Vanilla, "/v/map_data/provinces.png");
    assert_eq!(p.map_file_role(&png), Some(MapRole::Provinces));
    let other = FileEntry::new("map_data/rivers.png", FileKind::Vanilla, "/v/map_data/rivers.png");
    assert_eq!(p.map_file_role(&other), None);
}

#[test]
fn block_copies_are_the_same() {
    let mut inner = block();
    inner.add_value(BV::Value(tok("v")));
    let mut b = with_field(block(), "k", "x");
    b.add_field(tok("sub"), BV::Block(inner));
    let c = b.copy();
    assert!(c.field_value_is("k", "x"));
    assert_eq!(c.get_field_list("sub").map(|v| v.len()), Some(1));
    assert_eq!(c.get_field_block("sub").map(|b| b.iter_values().len()), Some(1));
}

#[test]
fn paths_compare_as_components() {
    assert_eq!(compare_paths(&path_from_str("a/.."), &path_from_str("a/-")), -1);
    assert_eq!(compare_paths(&path_from_str("/x"), &path_from_str("-")), -1);
    assert_eq!(compare_paths(&path_from_str("./a"), &path_from_str("a")), -1);
    assert_eq!(compare_paths(&path_from_str("a/./b"), &path_from_str("a/b")), 0);
    assert_eq!(compare_paths(&path_from_str("a//b/"), &path_from_str("a/b")), 0);
    assert_eq!(compare_paths(&path_from_str("b"), &path_from_str("a/z")), 1);
    assert_eq!(path_from_str("/a").len(), 2);
    assert_eq!(path_from_str(".").len(), 1);
    assert_eq!(extension_of_path(&path_from_str("gfx/a.tar.gz")), Some(vec!['g', 'z']));
    assert_eq!(extension_of_path(&path_from_str("gfx/.hidden")), None);
    assert_eq!(extension_of_path(&path_from_str("gfx/..")), None);
}

#[test]
fn rendered_numbers_parse_back() {
    let mut v = Vec::new();
    push_signed_decimal(&mut v, -4200);
    assert_eq!(text(v.clone()), "-4200");
    assert_eq!(parse_int(&v, i64::MIN, i64::MAX), Some(-4200));
    let mut w = Vec::new();
    push_decimal(&mut w, 18446744073709551615);
    assert_eq!(text(w), "18446744073709551615");
}
