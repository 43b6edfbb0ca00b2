use tiger_lib::files::fileset::{FileKind, Fileset, LoadedMod};
use tiger_lib::files::fileset_builder::FilesetBuilderWithConfig;
use tiger_lib::data::scripted_guis::{Code, CodeArg, ScriptedGui};
use tiger_lib::scopes::Scopes;
use tiger_lib::eu5::events::validate_event;
use tiger_lib::data::trigger_localization::validate_trigger_localization;
use tiger_lib::game::Game;
use tiger_lib::nameset::NameSet;
use tiger_lib::tooltipped::Tooltipped;
use tiger_lib::ck3::data::greatprojects::GreatProjectType;
use tiger_lib::ck3::data::casusbelli::CasusBelli;
use tiger_lib::ck3::data::government::Government;
use tiger_lib::ck3::data::schemes::Scheme;
use tiger_lib::block::{Block, BV};
use tiger_lib::db::{Db, Item};
use tiger_lib::defines::DefineType;
use tiger_lib::hoi4::effect_validation::{
    validate_add_ace, validate_add_advisor_role, validate_add_ai_strategy, validate_modify_flag,
    validate_random_list, validate_set_flag,
};
use tiger_lib::report::{ErrorKey, Report, Severity};
use tiger_lib::token::{Loc, Token};

fn tok(s: &str) -> Token {
    Token::new(s, Loc::new(1, 2, 3))
}

fn block() -> Block {
    Block::new(Loc::new(1, 1, 1))
}

fn with_field(mut b: Block, key: &str, value: &str) -> Block {
    b.add_field(tok(key), BV::Value(tok(value)));
    b
}

fn with_block(mut b: Block, key: &str, inner: Block) -> Block {
    b.add_field(tok(key), BV::Block(inner));
    b
}

fn with_values(mut b: Block, values: &[&str]) -> Block {
    for v in values {
        b.add_value(BV::Value(tok(v)));
    }
    b
}

fn files(game: Game, paths: &[&str]) -> Fileset {
    let the_mod = LoadedMod::new_main_mod("/mods/mine", Vec::new());
    let mut b = FilesetBuilderWithConfig::new(game, the_mod, Vec::new(), Block::new(Loc::new(0, 0, 0)));
    for p in paths {
        b.add_scanned_file(p, FileKind::Mod, &format!("/mods/mine/{p}"));
    }
    b.finalize()
}

fn msgs(r: &[Report]) -> Vec<String> {
    r.iter().map(|r| r.msg.clone()).collect()
}

fn value(s: &str) -> BV {
    BV::Value(tok(s))
}

#[test]
fn define_values_are_checked_by_type() {
    let mut db = Db::new();
    db.add_flag(Item::House, tok("house_a"));
    assert!(DefineType::Boolean.validate(&value("yes"), &db).is_empty());
    assert_eq!(msgs(&DefineType::Boolean.validate(&value("maybe"), &db)), vec!["expected `yes` or `no`"]);
    assert!(DefineType::Integer.validate(&value("-12"), &db).is_empty());
    assert_eq!(msgs(&DefineType::Integer.validate(&value("1.5"), &db)), vec!["expected integer"]);
    assert!(DefineType::Number.validate(&value("1.25"), &db).is_empty());
    assert_eq!(msgs(&DefineType::Number.validate(&value("1.123456"), &db)), vec!["expected number"]);
    assert!(DefineType::Date.validate(&value("1444.11.11"), &db).is_empty());
    assert_eq!(msgs(&DefineType::Date.validate(&value("1444.11"), &db)), vec!["expected date value"]);
    assert!(DefineType::Item(Item::House).validate(&value("house_a"), &db).is_empty());
    let r = DefineType::Item(Item::House).validate(&value("house_b"), &db);
    assert_eq!(msgs(&r), vec!["`house_b` is not defined"]);
    assert_eq!(r[0].key, ErrorKey::MissingItem);
    assert!(DefineType::Item(Item::Sound).validate(&value(""), &db).is_empty());
    assert!(DefineType::SingleQuotedItem(Item::House).validate(&value("'house_a'"), &db).is_empty());
    assert_eq!(msgs(&DefineType::SingleQuotedItem(Item::House).validate(&value("'x'"), &db)), vec!["`x` is not defined"]);
    let r = DefineType::Choice(&["a", "b"]).validate(&value("c"), &db);
    assert_eq!(msgs(&r), vec!["expected one of a, b"]);
    assert_eq!(r[0].key, ErrorKey::Choice);
    assert_eq!(msgs(&DefineType::String.validate(&BV::Block(block()), &db)), vec!["expected value, found block"]);
    assert_eq!(msgs(&DefineType::IntegerList.validate(&value("1"), &db)), vec!["expected block, found value"]);
    let list = with_values(block(), &["1", "x", "3"]);
    assert_eq!(msgs(&DefineType::IntegerList.validate(&BV::Block(list), &db)), vec!["expected integer"]);
    let color = with_values(block(), &["0.5", "1", "0"]);
    let r = DefineType::Color.validate(&BV::Block(color), &db);
    assert_eq!(msgs(&r), vec!["expected exactly 4 values for color"]);
    assert_eq!(r[0].severity, Severity::Warning);
    let color3 = with_values(block(), &["0.5", "1", "0"]);
    assert!(DefineType::Color3.validate(&BV::Block(color3), &db).is_empty());
    let items = with_values(block(), &["", "house_a", "nope"]);
    assert_eq!(msgs(&DefineType::ItemOrEmptyList(Item::House).validate(&BV::Block(items), &db)), vec!["`nope` is not defined"]);
}

#[test]
fn ai_strategy_fields_depend_on_the_type() {
    let mut db = Db::new();
    db.add_flag(Item::AiStrategyType, tok("declare_war"));
    db.add_flag(Item::AiStrategyType, tok("front_control"));
    assert_eq!(msgs(&validate_add_ai_strategy(&block(), &db)), vec!["required field `type` missing"]);
    let b = with_field(with_field(block(), "type", "declare_war"), "value", "x");
    assert_eq!(
        msgs(&validate_add_ai_strategy(&b, &db)),
        vec!["required field `id` missing", "expected integer"]
    );
    let b = with_field(with_field(with_field(block(), "type", "front_control"), "ordertype", "sideways"), "ratio", "0.5");
    assert_eq!(msgs(&validate_add_ai_strategy(&b, &db)), vec!["expected one of front, invasion"]);
    let b = with_field(with_field(block(), "type", "front_control"), "bogus", "1");
    let r = validate_add_ai_strategy(&b, &db);
    assert_eq!(msgs(&r), vec!["unknown field `bogus`"]);
    assert_eq!(r[0].key, ErrorKey::UnknownField);
    let b = with_field(with_field(block(), "type", "land_xp_spend_priority"), "id", "air_spirit");
    assert_eq!(
        msgs(&validate_add_ai_strategy(&b, &db)),
        vec![
            "`land_xp_spend_priority` is not defined",
            "expected one of division_template, unlock_doctrine, equipment_variant, upgrade_xp_cutoff, army_spirit"
        ]
    );
}

#[test]
fn flag_effects() {
    let db = Db::new();
    let b = with_field(with_field(block(), "flag", "a@B"), "value", "2");
    let r = validate_modify_flag(&tok("modify_unit_leader_flag"), &b, &db);
    assert_eq!(msgs(&r), vec!["deprecated in favor of modify_character_flag", "invalid tag in flag name"]);
    assert_eq!(msgs(&validate_modify_flag(&tok("modify_country_flag"), &block(), &db)), vec!["required field `flag` missing"]);
    assert_eq!(msgs(&validate_set_flag(&tok("set_country_flag"), &value("a@b@c"), &db)), vec!["too many tags in flag name"]);
    let b = with_field(with_field(block(), "flag", "x"), "days", "soon");
    assert_eq!(msgs(&validate_set_flag(&tok("set_country_flag"), &BV::Block(b), &db)), vec!["expected integer"]);
}

#[test]
fn ace_and_advisor_effects() {
    let mut db = Db::new();
    db.add_flag(Item::AdvisorSlot, tok("political_advisor"));
    let b = with_field(with_field(block(), "name", "A"), "surname", "B");
    assert_eq!(
        msgs(&validate_add_ace(&b, &db)),
        vec!["required field `callsign` missing"]
    );
    let inner = with_field(with_field(block(), "slot", "political_advisor"), "cost", "x");
    let b = with_block(block(), "advisor", inner);
    assert_eq!(
        msgs(&validate_add_advisor_role(&b, &db, false)),
        vec!["required field `character` missing", "expected number"]
    );
    let inner = with_field(block(), "slot", "political_advisor");
    let b = with_block(block(), "advisor", inner);
    assert!(validate_add_advisor_role(&b, &db, true).is_empty());
}

#[test]
fn random_list_weights() {
    let db = Db::new();
    let b = with_block(with_block(with_field(block(), "log", "yes"), "10", block()), "-5", block());
    let (r, branches) = validate_random_list(&b, &db);
    assert_eq!(msgs(&r), vec!["negative weights make the whole `random_list` fail"]);
    assert!(r[0].strong);
    assert_eq!(branches.len(), 2);
    let b = with_block(with_field(block(), "stray", "1"), "-0", with_field(block(), "x", "y"));
    let (r, branches) = validate_random_list(&b, &db);
    assert_eq!(msgs(&r), vec!["unknown field `stray`"]);
    assert_eq!(branches.len(), 1);
    assert!(branches[0].has_key("x"));
}

#[test]
fn scheme_fields_are_checked() {
    let mut db = Db::new();
    db.add_flag(Item::Localization, tok("murder"));
    db.add_flag(Item::Skill, tok("intrigue"));
    db.add_flag(Item::SchemePulseAction, tok("pulse_a"));
    let targets = vec!["primary", "secondary"];
    let pulse = with_values(block(), &["pulse_a", "pulse_b"]);
    let b = with_field(block(), "desc", "d");
    let b = with_field(b, "success_desc", "s");
    let b = with_field(b, "skill", "intrigue");
    let b = with_field(b, "minimum_success", "150");
    let b = with_field(b, "uses_agents", "yes");
    let b = with_block(b, "agent_groups_owner_perspective", with_values(block(), &["primary", "tertiary"]));
    let b = with_block(b, "pulse_actions", with_block(block(), "entries", pulse));
    let b = with_field(b, "mystery", "1");
    let mut fs = files(Game::Ck3, &["gfx/schemes/murder.dds"]);
    let b = with_field(b, "illustration", "gfx/illustrations/murder.dds");
    let r = Scheme::validate(&tok("murder"), &b, &db, &targets, &mut fs, Some("gfx/schemes"));
    assert_eq!(
        msgs(&r),
        vec![
            "`murder_action` is not defined",
            "referenced file does not exist",
            "expected one of primary, secondary",
            "expected a number from 0 to 100",
            "`uses_agents` is not used",
            "`pulse_b` is not defined",
            "unknown field `mystery`",
        ]
    );
    assert_eq!(r[4].info.as_deref(), Some("Removed in 1.13"));
}

#[test]
fn government_fields_are_checked() {
    let mut db = Db::new();
    for l in ["feudal_government", "feudal_government_adjective", "feudal_government_realm", "feudal_government_desc"] {
        db.add_flag(Item::Localization, tok(l));
    }
    db.add_flag(Item::HoldingType, tok("castle_holding"));
    let rules = vec!["rulers_should_have_dynasty", "create_cadet_branches"];
    let b = with_block(block(), "government_rules", with_field(block(), "rulers_should_have_dynasty", "perhaps"));
    let b = with_field(b, "create_cadet_branches", "yes");
    let b = with_field(b, "mechanic_type", "feudal");
    let b = with_field(b, "court_generate_commanders", "0.5");
    let b = with_block(b, "valid_holdings", with_values(block(), &["castle_holding", "city_holding"]));
    let b = with_block(b, "ai", with_field(block(), "use_goals", "7"));
    let b = with_field(b, "vassal_contract", "x");
    let r = Government::validate(&tok("feudal_government"), &b, &db, &rules);
    assert_eq!(
        msgs(&r),
        vec![
            "`feudal_government_vassals_label` is not defined",
            "expected `yes` or `no`",
            "`city_holding` is not defined",
            "`vassal_contract` is not used",
            "expected `yes` or `no`",
        ]
    );
}

#[test]
fn casus_belli_fields_are_checked() {
    let mut db = Db::new();
    db.add_flag(Item::Localization, tok("claim_cb"));
    let b = with_field(block(), "attacker_wargoal_percentage", "1.5");
    let b = with_field(b, "defender_wargoal_percentage", "0.75");
    let b = with_field(b, "target_title_tier", "county");
    let b = with_field(b, "transfer_behavior", "keep");
    let b = with_field(b, "war_name", "CLAIM_WAR");
    let b = with_field(b, "allow_hostages", "yes");
    let mut fs = files(Game::Ck3, &["gfx/cbs/claim_cb.dds"]);
    let r = CasusBelli::validate(&tok("claim_cb"), &b, &db, &mut fs, Some("gfx/cbs"));
    assert_eq!(
        msgs(&r),
        vec!["expected a number from 0 to 1", "`CLAIM_WAR` is not defined", "expected one of invalidate, transfer"]
    );
    assert!(CasusBelli::validate(&tok("claim_cb"), &with_field(block(), "attacker_wargoal_percentage", "1.000"), &db, &mut fs, Some("gfx/cbs")).is_empty());
    assert_eq!(
        msgs(&CasusBelli::validate(&tok("other_cb"), &block(), &db, &mut fs, Some("gfx/cbs"))),
        vec!["`other_cb` is not defined", "file gfx/cbs/other_cb.dds does not exist"]
    );
    let r = CasusBelli::validate(&tok("claim_cb"), &with_field(block(), "icon", "claim_cb"), &db, &mut fs, None);
    assert!(r.is_empty());
}

#[test]
fn great_project_fields_are_checked() {
    let mut db = Db::new();
    db.add_flag(Item::Localization, tok("great_project_type_wonder"));
    db.add_flag(Item::Localization, tok("great_project_type_tooltip_wonder"));
    db.add_flag(Item::Localization, tok("great_project_type_wonder_contribution_gold"));
    let filters = vec!["landed_title", "geographical_region", "all"];
    let contribution = with_field(block(), "is_required", "sometimes");
    let contribution = with_field(contribution, "ai_check_interval", "12");
    let contribution = with_block(contribution, "ai_check_interval_by_tier", with_field(block(), "barony", "1"));
    let b = with_field(block(), "province_filter", "all");
    let b = with_field(b, "province_filter_target", "k_france");
    let b = with_block(b, "project_contributions", with_block(block(), "gold", contribution));
    let b = with_field(b, "owner", "nobody");
    let b = with_field(b, "mystery", "1");
    let mut fs = files(Game::Ck3, &["gfx/gp/wonder.dds", "gfx/illu/a.dds"]);
    let b = with_block(b, "illustration", with_field(block(), "reference", "gfx/illu/b.dds"));
    let r = GreatProjectType::validate(&tok("wonder"), &b, &db, &filters, &mut fs, Some("gfx/gp"));
    assert_eq!(
        msgs(&r),
        vec![
            "referenced file does not exist",
            "`province_filter_target` is only for `landed_title` or `geographical_region` filters",
            "expected one of province_owner_top_liege, province_owner, founder_primary_title_owner, founder_top_liege_title_owner",
            "`great_project_type_wonder_contribution_gold_desc` is not defined",
            "expected `yes` or `no`",
            "required field `county` missing",
            "required field `duchy` missing",
            "required field `kingdom` missing",
            "required field `empire` missing",
            "required field `hegemony` missing",
            "must not have both `ai_check_interval` and `ai_check_interval_by_tier`",
            "unknown field `mystery`",
        ]
    );
    let b = with_field(with_field(block(), "province_filter", "landed_title"), "province_filter_target", "k_x");
    let b = with_field(b, "icon", "gfx/illu/a.dds");
    assert_eq!(
        msgs(&GreatProjectType::validate(&tok("wonder"), &b, &db, &filters, &mut fs, Some("gfx/gp"))),
        vec!["`k_x` is not defined"]
    );
    let r = GreatProjectType::validate(&tok("other"), &block(), &db, &filters, &mut fs, Some("gfx/gp"));
    assert!(msgs(&r).contains(&"file gfx/gp/other.dds does not exist".to_string()));
}

#[test]
fn trigger_localizations_of_any_kind() {
    let mut db = Db::new();
    let mut locas = NameSet::new();
    locas.insert("my_trigger_first");
    let r = validate_trigger_localization(&tok("my_trigger"), &db, &locas, Game::Ck3, Tooltipped::Yes, false);
    assert!(r.is_empty());
    let r = validate_trigger_localization(&tok("my_trigger"), &db, &locas, Game::Ck3, Tooltipped::Yes, true);
    assert_eq!(msgs(&r), vec!["missing negated perspective for my_trigger"]);
    let r = validate_trigger_localization(&tok("my_trigger"), &db, &locas, Game::Vic3, Tooltipped::Yes, false);
    assert_eq!(msgs(&r), vec!["`my_trigger` is not defined"]);
    db.add(Item::TriggerLocalization, tok("my_trigger"), with_field(block(), "first", "x"));
    let r = validate_trigger_localization(&tok("my_trigger"), &db, &locas, Game::Vic3, Tooltipped::Yes, true);
    assert_eq!(msgs(&r), vec!["missing `NOT_` perspective for my_trigger"]);
}

#[test]
fn events_and_their_options() {
    let mut db = Db::new();
    db.add_flag(Item::Localization, tok("opt_a"));
    let option = with_field(with_field(block(), "name", "opt_a"), "exclusive", "maybe");
    let b = with_field(block(), "type", "country_event");
    let b = with_block(b, "dynamic_historical_event", with_field(block(), "from", "1500.1"));
    let b = with_block(b, "option", option);
    let r = validate_event(&b, &db);
    assert_eq!(
        msgs(&r),
        vec!["required field `monthly_chance` missing", "expected date value", "expected `yes` or `no`"]
    );
    let b = with_block(with_field(block(), "type", "pirate_event"), "after", block());
    let r = validate_event(&b, &db);
    assert_eq!(
        msgs(&r),
        vec![
            "expected one of character_event, country_event, location_event, unit_event, exploration_event, age_event",
            "required field `option` missing",
            "`after` effect will not run if there are no `option` blocks",
        ]
    );
    assert_eq!(r[2].key, ErrorKey::Logic);
    let hidden = with_field(block(), "hidden", "yes");
    assert!(validate_event(&hidden, &db).is_empty());
}

fn call(name: &str, args: Vec<CodeArg>) -> Code {
    Code { name: tok(name), arguments: args }
}

#[test]
fn scripted_gui_calls() {
    let key = Token::new("my_gui", Loc::new(9, 9, 9));
    let gui = with_block(with_field(block(), "scope", "character"), "is_valid", block());
    let chain = vec![
        call("GuiScope", vec![]),
        call("SetRoot", vec![CodeArg::Chain(vec![call("GetPlayer", vec![])])]),
        call("AddScope", vec![CodeArg::Literal(tok("target")), CodeArg::Chain(vec![call("GetX", vec![])])]),
        call("End", vec![]),
    ];
    let code = call("Execute", vec![CodeArg::Chain(chain)]);
    let deduced = vec![Scopes::all(), Scopes::country(), Scopes::location()];
    let r = ScriptedGui::validate_guicall(&key, &gui, Game::Ck3, Some(Scopes::character()), &code, &deduced);
    assert_eq!(
        msgs(&r.reports),
        vec!["SetRoot scope does not match scripted gui scope", "scripted gui `my_gui` has no effect block"]
    );
    assert_eq!(r.reports[1].severity, Severity::Error);
    assert_eq!(r.reports[1].also, Some((Loc::new(9, 9, 9), "scripted gui here".to_string())));
    let scope = r.scope.unwrap();
    assert_eq!(scope.root, Scopes::country());
    assert_eq!(scope.names, vec![("target".to_string(), Scopes::location())]);
    assert!(scope.strict);
    assert!(r.checks.is_empty());
    let code = call("IsValidTooltip", vec![CodeArg::Chain(vec![call("GuiScope", vec![]), call("Oops", vec![])])]);
    let r = ScriptedGui::validate_guicall(&key, &gui, Game::Ck3, None, &code, &deduced);
    assert_eq!(msgs(&r.reports), vec!["expected SetRoot"]);
    assert!(r.scope.is_none());
    let chain = vec![
        call("GuiScope", vec![]),
        call("SetRoot", vec![CodeArg::Chain(vec![])]),
    ];
    let code = call("IsValidTooltip", vec![CodeArg::Chain(chain)]);
    let r = ScriptedGui::validate_guicall(&key, &gui, Game::Ck3, None, &code, &deduced);
    assert!(r.reports.is_empty());
    assert_eq!(r.checks.len(), 1);
    assert_eq!(r.checks[0].field, "is_valid");
    assert_eq!(r.checks[0].tooltipped, Tooltipped::Yes);
    let code = call("Execute", vec![CodeArg::Chain(vec![call("GuiScope", vec![])])]);
    let r = ScriptedGui::validate_guicall(&key, &gui, Game::Ck3, None, &code, &deduced);
    assert_eq!(msgs(&r.reports), vec!["expected GuiScope.SetRoot in argument"]);
}
