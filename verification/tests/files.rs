use tiger_lib::block::{Block, BV};
use tiger_lib::files::filecontent::{decode_detect_encoding, FileContent};
use tiger_lib::files::fileset::{FileEntry, FileKind, Fileset, LoadedMod};
use tiger_lib::files::fileset_builder::{
    config_step, get_mod, get_modfile, ModLookup, join_dir_str, loaded_mod_label, mod_field_candidate, next_mod_index,
    path_join_str, FileDb, FilePaths, FilesetBuilderWithConfig,
};
use tiger_lib::game::Game;
use tiger_lib::pathname::path_from_str;
use tiger_lib::report::{ErrorKey, Severity};
use tiger_lib::token::{Loc, Token};

fn builder(game: Game, replaced_by_mod: &[&str]) -> FilesetBuilderWithConfig {
    let the_mod = LoadedMod::new_main_mod(
        "/mods/mine",
        replaced_by_mod.iter().map(|p| path_from_str(p)).collect(),
    );
    FilesetBuilderWithConfig::new(game, the_mod, Vec::new(), Block::new(Loc::new(0, 0, 0)))
}

fn fileset(game: Game, files: &[(&str, FileKind)]) -> Fileset {
    let mut b = builder(game, &[]);
    for (path, kind) in files {
        let full = format!("/root/{kind:?}/{path}");
        b.add_scanned_file(path, *kind, &full);
    }
    b.finalize()
}

fn paths(files: &[FileEntry]) -> Vec<String> {
    files.iter().map(|e| e.path_string()).collect()
}

#[test]
fn later_kind_wins_for_the_same_path() {
    let fs = fileset(
        Game::Ck3,
        &[
            ("common/traits/a.txt", FileKind::Mod),
            ("common/traits/a.txt", FileKind::Vanilla),
            ("common/traits/b.txt", FileKind::Vanilla),
            ("common/traits/a.txt", FileKind::LoadedMod(0)),
            ("common/traits/b.txt", FileKind::Dlc(3)),
        ],
    );
    let files = fs.files();
    assert_eq!(paths(files), vec!["common/traits/a.txt", "common/traits/b.txt"]);
    assert_eq!(files[0].kind(), FileKind::Mod);
    assert_eq!(files[1].kind(), FileKind::Dlc(3));
    assert_eq!(files[0].path_idx(), Some(0));
    assert_eq!(files[1].path_idx(), Some(1));
}

#[test]
fn files_are_in_path_order() {
    let fs = fileset(
        Game::Ck3,
        &[
            ("gfx/b.dds", FileKind::Vanilla),
            ("common/z.txt", FileKind::Vanilla),
            ("common/a/b.txt", FileKind::Vanilla),
            ("common-x/a.txt", FileKind::Vanilla),
        ],
    );
    // Paths are ordered component by component: `common` sorts before `common-x`.
    assert_eq!(
        paths(fs.files()),
        vec!["common/a/b.txt", "common/z.txt", "common-x/a.txt", "gfx/b.dds"]
    );
    let keys: Vec<String> = fs.iter_keys().iter().map(|t| t.s.clone()).collect();
    assert_eq!(keys, vec!["b.txt", "z.txt", "a.txt", "b.dds"]);
    assert_eq!(fs.iter_keys()[2].loc.file, 2);
}

#[test]
fn get_files_under_gives_exactly_the_subtree() {
    let fs = fileset(
        Game::Ck3,
        &[
            ("common/traits/a.txt", FileKind::Vanilla),
            ("common/traits/sub/b.txt", FileKind::Vanilla),
            ("common/traits_extra/c.txt", FileKind::Vanilla),
            ("common/tra.txt", FileKind::Vanilla),
            ("events/e.txt", FileKind::Vanilla),
        ],
    );
    assert_eq!(
        paths(fs.get_files_under("common/traits")),
        vec!["common/traits/a.txt", "common/traits/sub/b.txt"]
    );
    assert_eq!(paths(fs.get_files_under("common/traits/")).len(), 2);
    assert_eq!(paths(fs.get_files_under("nothing")), Vec::<String>::new());
    assert_eq!(paths(fs.get_files_under("")).len(), 5);
}

#[test]
fn entry_lookup_ignores_leading_slash() {
    let fs = fileset(Game::Ck3, &[("gfx/a.dds", FileKind::Vanilla)]);
    assert!(fs.file_exists("gfx/a.dds"));
    assert!(fs.file_exists("/gfx/a.dds"));
    assert!(!fs.file_exists("gfx/b.dds"));
    assert_eq!(fs.entry("gfx//a.dds").map(|e| e.path_string()), Some("gfx/a.dds".to_string()));
}

#[test]
fn backslashes_are_separators_for_hoi4_only() {
    let hoi4 = fileset(Game::Hoi4, &[("gfx/a.dds", FileKind::Vanilla)]);
    assert!(hoi4.file_exists("gfx\\a.dds"));
    let ck3 = fileset(Game::Ck3, &[("gfx/a.dds", FileKind::Vanilla)]);
    assert!(!ck3.file_exists("gfx\\a.dds"));
}

#[test]
fn entry_exists_finds_directories() {
    let fs = fileset(
        Game::Ck3,
        &[("gfx/icons/a.dds", FileKind::Vanilla), ("music/z.ogg", FileKind::Vanilla)],
    );
    assert!(fs.entry_exists("gfx/icons/a.dds"));
    assert!(fs.entry_exists("gfx/icons"));
    assert!(fs.entry_exists("/gfx"));
    assert!(!fs.entry_exists("gfx/ico"));
    assert!(!fs.entry_exists("fonts"));
}

#[test]
fn verify_exists_implied_reports_missing_file() {
    let mut fs = fileset(Game::Ck3, &[("gfx/a.dds", FileKind::Vanilla)]);
    let t = Token::new("x", Loc::new(3, 4, 5));
    assert!(fs.verify_exists_implied("gfx/a.dds", &t, Severity::Warning).is_empty());
    let r = fs.verify_exists_implied("gfx/b.dds", &t, Severity::Warning);
    assert_eq!(r.len(), 1);
    assert_eq!(r[0].msg, "file gfx/b.dds does not exist");
    assert_eq!(r[0].key, ErrorKey::MissingFile);
    assert_eq!(r[0].severity, Severity::Warning);
    assert_eq!(r[0].loc.line, 4);
    let r = fs.verify_exists_implied("gfx/c.dds", &t, Severity::Fatal);
    assert_eq!(r[0].severity, Severity::Error);
}

#[test]
fn verify_exists_and_crashes_messages() {
    let mut fs = fileset(Game::Ck3, &[("gfx/a.dds", FileKind::Vanilla)]);
    let t = Token::new("gfx/none.dds", Loc::new(1, 2, 3));
    let r = fs.verify_exists(&t);
    assert_eq!(r[0].msg, "referenced file does not exist");
    let r = fs.verify_exists_implied_crashes("gfx/none.dds", &t);
    assert_eq!(r[0].key, ErrorKey::Crash);
    assert_eq!(r[0].severity, Severity::Fatal);
    assert_eq!(r[0].msg, "file gfx/none.dds does not exist");
    let r = fs.verify_entry_exists("fonts/nothing", &t, Severity::Error);
    assert_eq!(r[0].msg, "file or directory fonts/nothing does not exist");
    assert!(fs.verify_entry_exists("gfx", &t, Severity::Error).is_empty());
}

#[test]
fn unused_dds_files_are_reported_unless_used() {
    let mut fs = fileset(
        Game::Ck3,
        &[
            ("gfx/a.DDS", FileKind::Vanilla),
            ("gfx/b.dds", FileKind::Vanilla),
            ("gfx/interface/illustrations/loading_screens/c.dds", FileKind::Vanilla),
            ("gfx/d.png", FileKind::Vanilla),
        ],
    );
    let t = Token::new("x", Loc::new(0, 1, 1));
    let _ = fs.verify_exists_implied("gfx//b.dds", &t, Severity::Error);
    let r = fs.check_unused_dds();
    assert_eq!(r.len(), 1);
    assert_eq!(r[0].msg, "Unused DDS files");
    assert_eq!(r[0].severity, Severity::Untidy);
    assert_eq!(r[0].loc.file, 0);
    fs.mark_used("/gfx/a.DDS");
    assert!(fs.check_unused_dds().is_empty());
}

#[test]
fn misplaced_script_files_are_reported_once_per_directory() {
    let fs = fileset(
        Game::Ck3,
        &[
            ("common/traits/a.txt", FileKind::Vanilla),
            ("common/bogus/a.txt", FileKind::Vanilla),
            ("common/bogus/b.txt", FileKind::Vanilla),
            ("traits/c.txt", FileKind::Mod),
            ("common/scripted_values/v.txt", FileKind::Mod),
            ("common/on_actions/o.txt", FileKind::Mod),
            ("common/achievement_groups.txt", FileKind::Vanilla),
            ("common/traits/readme.md", FileKind::Vanilla),
            ("common/landed_titles/sub/x.txt", FileKind::Vanilla),
        ],
    );
    let r = fs.validate(&["common/traits", "common/landed_titles"], &["common/landed_titles"], &[]);
    let msgs: Vec<String> = r.iter().map(|r| r.msg.clone()).collect();
    assert_eq!(
        msgs,
        vec![
            "file in unexpected directory `common/bogus`",
            "file should be in common/on_action/",
            "file should be in common/script_values/",
            "file in unexpected directory traits",
        ]
    );
    assert_eq!(r[3].info.as_deref(), Some("did you mean common/traits ?"));
    assert!(r.iter().all(|r| r.key == ErrorKey::Filename && r.severity == Severity::Error));
}

#[test]
fn on_action_directory_depends_on_the_game() {
    let fs = fileset(Game::Vic3, &[("common/on_action/a.txt", FileKind::Mod)]);
    let r = fs.validate(&[], &[], &[]);
    assert_eq!(r[0].msg, "file should be in common/on_actions/");
    let fs = fileset(Game::Hoi4, &[("common/x.txt", FileKind::Mod)]);
    assert!(fs.validate(&[], &[], &["common/x.txt"]).is_empty());
}

#[test]
fn replaced_directories_are_skipped_for_earlier_kinds() {
    let mut b = builder(Game::Ck3, &["common/traits"]);
    b.add_scanned_file("common/traits/a.txt", FileKind::Vanilla, "/v/common/traits/a.txt");
    b.add_scanned_file("common/traits/b.txt", FileKind::Mod, "/m/common/traits/b.txt");
    b.add_scanned_file(".git/config", FileKind::Mod, "/m/.git/config");
    b.add_scanned_file("common/other/c.txt", FileKind::Vanilla, "/v/common/other/c.txt");
    assert!(b.should_replace(&path_from_str("common/traits"), FileKind::Vanilla));
    assert!(!b.should_replace(&path_from_str("common/traits"), FileKind::Mod));
    let fs = b.finalize();
    assert_eq!(paths(fs.files()), vec!["common/other/c.txt", "common/traits/b.txt"]);
}

#[test]
fn dlcs_are_numbered_in_order() {
    let mut b = builder(Game::Ck3, &[]);
    assert_eq!(b.add_dlc("dlc001", "/game/dlc/dlc001"), FileKind::Dlc(0));
    assert_eq!(b.add_dlc("dlc002", "/game/dlc/dlc002"), FileKind::Dlc(1));
}

#[test]
fn file_db_keeps_the_first_entry_per_fullpath() {
    let mut db = FileDb::new();
    let i = db.get_or_create_entry("a/b.txt", FileKind::Vanilla, "/x/a/b.txt");
    let j = db.get_or_create_entry("other/b.txt", FileKind::Mod, "/x/a/b.txt");
    assert_eq!(i, j);
    assert_eq!(db.get_or_create_entry("a/c.txt", FileKind::Mod, "/x/a/c.txt"), 1);
}

#[test]
fn file_entry_accessors() {
    let e = FileEntry::new("gfx/icons/a.dds", FileKind::Dlc(2), "/game/gfx/icons/a.dds");
    assert_eq!(e.filename(), vec!['a', '.', 'd', 'd', 's']);
    assert_eq!(e.path_string(), "gfx/icons/a.dds");
    assert_eq!(e.fullpath(), "/game/gfx/icons/a.dds");
    assert!(e.kind().counts_as_vanilla());
    assert!(!FileKind::Mod.counts_as_vanilla());
    let i = FileEntry::new_internal("internal/data", "x = 1");
    assert_eq!(i.contents().map(|c| c.full().to_string()), Some("x = 1".to_string()));
    assert_eq!(i.path_idx(), Some(u32::MAX));
}

#[test]
fn loaded_mod_replace_paths() {
    let m = LoadedMod::new(FileKind::LoadedMod(0), "MOD0", "/mods/other", vec![path_from_str("gfx/x")]);
    assert!(m.should_replace(&path_from_str("gfx/x")));
    assert!(m.should_replace(&path_from_str("gfx//x/")));
    assert!(!m.should_replace(&path_from_str("gfx")));
    assert_eq!(m.root(), "/mods/other");
    assert_eq!(m.kind(), FileKind::LoadedMod(0));
}

#[test]
fn config_helpers() {
    assert_eq!(next_mod_index(3), Ok(3));
    assert_eq!(next_mod_index(256), Err("too many loaded mods, cannot process more".to_string()));
    let b = Block::new(Loc::new(0, 0, 0));
    assert_eq!(loaded_mod_label(&b, 12), "MOD12");
    assert_eq!(join_dir_str("/games/ck3", "game"), "/games/ck3/game");
    assert_eq!(join_dir_str("/games/ck3/", "game"), "/games/ck3/game");
    let p = FilePaths::new(Game::Ck3, Some("/g"));
    assert_eq!(p.clausewitz_root.as_deref(), Some("/g/clausewitz"));
    let p = FilePaths::new(Game::Hoi4, Some("/g"));
    assert_eq!(p.vanilla_root.as_deref(), Some("/g"));
    assert_eq!(p.jomini_root, None);
}

#[test]
fn decoding_detects_the_encoding() {
    let c = decode_detect_encoding(vec![0xef, 0xbb, 0xbf, b'a', 0xc3, 0xa9], Loc::new(0, 0, 0)).unwrap();
    assert_eq!(c.full(), "\u{feff}a\u{e9}");
    assert!(c.has_bom());
    assert_eq!(c.nobom(), "a\u{e9}");
    let c = decode_detect_encoding(vec![b'a', 0x80, 0xe9], Loc::new(0, 0, 0)).unwrap();
    assert_eq!(c.full(), "a\u{20ac}\u{e9}");
    let e = decode_detect_encoding(vec![0xef, 0xbb, 0xbf, 0xff], Loc::new(2, 0, 0)).unwrap_err();
    assert_eq!(e.msg, "could not decode UTF-8 file");
    assert_eq!(e.key, ErrorKey::ReadError);
    assert!(e.info.is_some());
}

#[test]
fn file_content_lines() {
    let c = FileContent::new("a\r\nb\n\nc".to_string());
    assert_eq!(c.lines(), vec!["a", "b", "", "c"]);
    assert_eq!(c.line(2), Some("b".to_string()));
    assert_eq!(c.line(0), None);
    assert_eq!(c.line(5), None);
    let s = FileContent::new_static("x");
    assert!(!s.has_bom());
}

#[test]
fn eu5_common_directories() {
    let fs = fileset(
        Game::Eu5,
        &[
            ("common/insults/a.txt", FileKind::Vanilla),
            ("common/history/x/y.txt", FileKind::Vanilla),
            ("common/bad/a.txt", FileKind::Vanilla),
        ],
    );
    let dirs = tiger_lib::eu5::tables::misc::common_dirs();
    let ok = tiger_lib::eu5::tables::misc::common_subdirs_ok();
    let r = fs.validate(&dirs, &ok, &[]);
    assert_eq!(r.len(), 1);
    assert_eq!(r[0].msg, "file in unexpected directory `common/bad`");
}

fn load_mod_block(fields: &[(&str, &str)]) -> Block {
    let loc = Loc::new(0, 0, 0);
    let mut b = Block::new(loc);
    for (k, v) in fields {
        b.add_field(Token::new(k, loc), BV::Value(Token::new(v, loc)));
    }
    b
}

#[test]
fn secondary_mod_paths() {
    assert_eq!(path_join_str("/a/b", "c/d"), "/a/b/c/d");
    assert_eq!(path_join_str("/a/b", "/c"), "/c");
    let b = load_mod_block(&[("modfile", "../mods/other.mod"), ("workshop_id", "1234")]);
    assert_eq!(
        mod_field_candidate("/home/u/tiger.conf", &b, "modfile").as_deref(),
        Some("/home/u/../mods/other.mod")
    );
    assert_eq!(mod_field_candidate("tiger.conf", &b, "modfile").as_deref(), Some("../mods/other.mod"));
    assert_eq!(mod_field_candidate("/tiger.conf", &b, "modfile").as_deref(), Some("/../mods/other.mod"));
    assert_eq!(mod_field_candidate("/home/u/tiger.conf", &b, "mod"), None);
    assert_eq!(
        get_modfile("/home/u/tiger.conf", &b, Some("/pdx"), true).as_deref(),
        Some("/home/u/../mods/other.mod")
    );
    assert_eq!(
        get_modfile("/home/u/tiger.conf", &b, Some("/pdx"), false).as_deref(),
        Some("/pdx/mod/ugc_1234.mod")
    );
    assert_eq!(get_modfile("/home/u/tiger.conf", &b, None, false), None);
    let v = load_mod_block(&[("mod", "/abs/mod"), ("workshop_id", "77")]);
    assert_eq!(get_mod("/home/u/tiger.conf", &v, Some("/ws"), true).as_deref(), Some("/abs/mod"));
    assert_eq!(get_mod("/home/u/tiger.conf", &v, Some("/ws/"), false).as_deref(), Some("/ws/77"));
    assert_eq!(get_mod("/home/u/tiger.conf", &load_mod_block(&[]), Some("/ws"), true), None);
}

#[test]
fn config_steps_load_secondary_mods() {
    let b = load_mod_block(&[("label", "other")]);
    let mut loaded: Vec<LoadedMod> = Vec::new();
    assert_eq!(
        config_step(Game::Ck3, &mut loaded, &b, ModLookup::Read("/m/other".to_string(), Vec::new())),
        Ok(())
    );
    assert_eq!(loaded.len(), 1);
    assert_eq!(loaded[0].root(), "/m/other");
    assert_eq!(loaded[0].kind(), FileKind::LoadedMod(0));
    assert_eq!(
        config_step(Game::Ck3, &mut loaded, &b, ModLookup::Missing),
        Err("could not load secondary mod from config; missing valid `modfile` or `workshop_id` field".to_string())
    );
    assert_eq!(
        config_step(Game::Vic3, &mut loaded, &b, ModLookup::Missing),
        Err("could not load secondary mod from config; missing valid `mod` or `workshop_id` field".to_string())
    );
    assert_eq!(config_step(Game::Vic3, &mut loaded, &b, ModLookup::Failed("bad".to_string())), Ok(()));
    assert_eq!(
        config_step(Game::Hoi4, &mut loaded, &b, ModLookup::Failed("bad".to_string())),
        Err("bad".to_string())
    );
    assert_eq!(config_step(Game::Eu5, &mut loaded, &b, ModLookup::Read("/x".to_string(), Vec::new())), Ok(()));
    assert_eq!(loaded.len(), 1);
    assert_eq!(
        config_step(Game::Vic3, &mut loaded, &b, ModLookup::Read("/m/two".to_string(), Vec::new())),
        Ok(())
    );
    assert_eq!(loaded[1].kind(), FileKind::LoadedMod(1));
}
