//! Scripted GUIs: script that the user interface can call.

use vstd::prelude::*;

use crate::block::{last_field_block, last_field_value, Block};
use crate::db::{Db, Item};
use crate::game::Game;
use crate::report::{
    make_report, push_report, report_str, rv, views, with_also, ErrorKey, Report, ReportView, Severity,
};
use crate::scopes::Scopes;
use crate::text::push_str;
use crate::token::Token;
use crate::tooltipped::Tooltipped;

use crate::validator::{append_reports, check_rules, check_unknown, rules_reports, rules_view, unknown_field_reports, FieldKind, FieldRule, KindView, RuleView};
verus! {

/// The scripted GUI items.
#[derive(Clone, Debug)]
pub struct ScriptedGui {}

impl ScriptedGui {
    /// Adds the scripted GUI `key`, defined by `block`, to the database.
    pub fn add(db: &mut Db, key: Token, block: Block)
        requires
            old(db).wf(),
        ensures
            final(db).wf(),
            final(db)@ == old(db)@.insert((Item::ScriptedGui, key.s@), (key, block)),
            final(db).spec_flags() == old(db).spec_flags(),
    {
        db.add(Item::ScriptedGui, key, block);
    }
}


/// An argument of a call in a data function chain: a literal, or a chain.
#[derive(Debug)]
pub enum CodeArg {
    Literal(Token),
    Chain(Vec<Code>),
}

/// A call in a data function chain: its name and its arguments.
#[derive(Debug)]
pub struct Code {
    pub name: Token,
    pub arguments: Vec<CodeArg>,
}

/// A check that a call of a scripted GUI asks for: the trigger or effect
/// block of the field `field`, with the given tooltips.
#[derive(Debug)]
pub struct GuiCheck {
    pub field: &'static str,
    pub effect: bool,
    pub tooltipped: Tooltipped,
}

/// The scope context in which a call of a scripted GUI runs: the root scope
/// type, the named scopes, and whether undeclared names are errors.
#[derive(Debug)]
pub struct GuiScope {
    pub root: Scopes,
    pub names: Vec<(String, Scopes)>,
    pub strict: bool,
}

/// What checking a call of a scripted GUI gives: the reports, the scope
/// context of the call if it could be built, and the blocks to check in it.
#[derive(Debug)]
pub struct GuiCall {
    pub reports: Vec<Report>,
    pub scope: Option<GuiScope>,
    pub checks: Vec<GuiCheck>,
}

/// The data functions that call a scripted GUI.
pub open spec fn known_sguicall(name: Seq<char>) -> bool {
    name == "BuildTooltip"@ || name == "Execute"@ || name == "ExecuteTooltip"@ || name == "IsValid"@
        || name == "IsValidTooltip"@ || name == "IsShown"@ || name == "IsShownTooltip"@
}

/// The scope type of the chain argument of the call at `i`, as given.
pub open spec fn deduced_at(d: Seq<u64>, i: int) -> u64 {
    if 0 <= i < d.len() {
        d[i]
    } else {
        0xffff_ffff_ffff_ffff
    }
}

/// The named scopes, strictness, warnings and whether the walk stopped,
/// after the calls `codes[2..n]` that add scopes: `AddScope(name, chain)`
/// names a scope, `AddScope` with a chain for a name makes the scopes
/// lenient, `End` does nothing, and anything else stops the walk with a
/// warning; an `AddScope` without two arguments stops it silently.
pub open spec fn add_scopes(codes: Seq<Code>, n: int, d: Seq<u64>) -> (Seq<(Seq<char>, u64)>, bool, Seq<ReportView>, bool)
    decreases n,
{
    if n <= 2 {
        (Seq::empty(), true, Seq::empty(), false)
    } else {
        let prev = add_scopes(codes, n - 1, d);
        if prev.3 {
            prev
        } else {
            let c = codes[n - 1];
            if c.name.s@ == "AddScope"@ {
                if c.arguments@.len() != 2 {
                    (prev.0, prev.1, prev.2, true)
                } else {
                    let sc = match c.arguments@[1] {
                        CodeArg::Chain(_) => deduced_at(d, n - 1),
                        CodeArg::Literal(_) => 0xffff_ffff_ffff_ffff,
                    };
                    match c.arguments@[0] {
                        CodeArg::Literal(t) => (prev.0.push((t.s@, sc)), prev.1, prev.2, false),
                        CodeArg::Chain(_) => (prev.0, false, prev.2, false),
                    }
                }
            } else if c.name.s@ == "End"@ {
                prev
            } else {
                (
                    prev.0,
                    prev.1,
                    prev.2.push(rv(ErrorKey::Gui, Severity::Warning, "expected AddScope or End"@, c.name.loc)),
                    true,
                )
            }
        }
    }
}

/// The root scope type of a call whose chain is `codes`, and whether it is
/// the great holy war window of Crusader Kings 3; `None` where the call is
/// not checked further.
pub open spec fn gui_root(codes: Seq<Code>, game: Game, d: Seq<u64>) -> Option<(u64, bool)> {
    let ghw = game == Game::Ck3 && codes[0].name.s@ == "GreatHolyWarWindow"@ && codes[1].name.s@ == "GetScope"@;
    if ghw {
        Some((0x2, true))
    } else if codes[0].name.s@ != "GuiScope"@ || codes[1].name.s@ != "SetRoot"@ || codes[1].arguments@.len() != 1 {
        None
    } else {
        match codes[1].arguments@[0] {
            CodeArg::Chain(_) => Some((deduced_at(d, 1), false)),
            CodeArg::Literal(_) => None,
        }
    }
}

/// The warnings on the start of a chain `codes` of two or more calls.
pub open spec fn gui_start_reports(codes: Seq<Code>, game: Game) -> Seq<ReportView> {
    let ghw = game == Game::Ck3 && codes[0].name.s@ == "GreatHolyWarWindow"@ && codes[1].name.s@ == "GetScope"@;
    if ghw {
        Seq::empty()
    } else if codes[0].name.s@ != "GuiScope"@ {
        seq![rv(ErrorKey::Gui, Severity::Warning, "expected GuiScope"@, codes[0].name.loc)]
    } else if codes[1].name.s@ != "SetRoot"@ {
        seq![rv(ErrorKey::Gui, Severity::Warning, "expected SetRoot"@, codes[1].name.loc)]
    } else {
        Seq::empty()
    }
}

/// The warning that the root scope type `root` does not meet the scope
/// `declared` that the `scope` field of `block` names.
pub open spec fn root_mismatch_reports(
    codes: Seq<Code>,
    block: Block,
    declared: Option<u64>,
    root: u64,
) -> Seq<ReportView> {
    match (last_field_value(block.v@, "scope"@), declared) {
        (Some(token), Some(dd)) => if root & dd == 0 {
            seq![
                with_also(
                    rv(
                        ErrorKey::Scopes,
                        Severity::Warning,
                        "SetRoot scope does not match scripted gui scope"@,
                        codes[1].name.loc,
                    ),
                    token.loc,
                    "scripted gui scope here"@,
                ),
            ]
        } else {
            Seq::empty()
        },
        _ => Seq::empty(),
    }
}

/// The blocks to check for the call `name`, given the scripted GUI's block,
/// as (field, whether an effect, tooltips).
pub open spec fn gui_checks(name: Seq<char>, block: Block) -> Seq<(Seq<char>, bool, Tooltipped)> {
    let valid = last_field_block(block.v@, "is_valid"@) is Some;
    let effect = last_field_block(block.v@, "effect"@) is Some;
    let shown = last_field_block(block.v@, "is_shown"@) is Some;
    if name == "BuildTooltip"@ {
        (if valid { seq![("is_valid"@, false, Tooltipped::Yes)] } else { Seq::empty() }) + if effect {
            seq![("effect"@, true, Tooltipped::Yes)]
        } else {
            Seq::empty()
        }
    } else if name == "Execute"@ {
        if effect { seq![("effect"@, true, Tooltipped::No)] } else { Seq::empty() }
    } else if name == "ExecuteTooltip"@ {
        if effect { seq![("effect"@, true, Tooltipped::Yes)] } else { Seq::empty() }
    } else if name == "IsShown"@ {
        if shown { seq![("is_shown"@, false, Tooltipped::No)] } else { Seq::empty() }
    } else if name == "IsShownTooltip"@ {
        if shown { seq![("is_shown"@, false, Tooltipped::Yes)] } else { Seq::empty() }
    } else if name == "IsValid"@ {
        if valid { seq![("is_valid"@, false, Tooltipped::No)] } else { Seq::empty() }
    } else {
        if valid { seq![("is_valid"@, false, Tooltipped::Yes)] } else { Seq::empty() }
    }
}

/// The report on a call `code` that executes the scripted GUI `key`, whose
/// block has no `effect`: an error for `Execute`, a warning for
/// `ExecuteTooltip`.
pub open spec fn no_effect_reports(key: Token, code: Code, block: Block) -> Seq<ReportView> {
    if last_field_block(block.v@, "effect"@) is None && (code.name.s@ == "Execute"@ || code.name.s@
        == "ExecuteTooltip"@) {
        seq![
            with_also(
                rv(
                    ErrorKey::Gui,
                    if code.name.s@ == "Execute"@ { Severity::Error } else { Severity::Warning },
                    "scripted gui `"@ + key.s@ + "` has no effect block"@,
                    code.name.loc,
                ),
                key.loc,
                "scripted gui here"@,
            ),
        ]
    } else {
        Seq::empty()
    }
}

/// What checking the call `code` of the scripted GUI `key`, defined by
/// `block`, gives in `game`: its reports, its scope context (root, named
/// scopes, strictness) and the blocks to check. `declared` is the scope
/// type named by the GUI's `scope` field, and `d` gives, for each call of
/// the argument chain, the scope type its own chain argument yields.
pub open spec fn guicall_result(key: Token, block: Block, game: Game, declared: Option<u64>, code: Code, d: Seq<u64>) -> (
    Seq<ReportView>,
    Option<(u64, Seq<(Seq<char>, u64)>, bool)>,
    Seq<(Seq<char>, bool, Tooltipped)>,
) {
    if !known_sguicall(code.name.s@) || code.arguments@.len() != 1 {
        (Seq::empty(), None, Seq::empty())
    } else {
        match code.arguments@[0] {
            CodeArg::Literal(_) => (Seq::empty(), None, Seq::empty()),
            CodeArg::Chain(cv) => {
                let codes = cv@;
                if codes.len() < 2 {
                    (
                        seq![
                            rv(ErrorKey::Gui, Severity::Warning, "expected GuiScope.SetRoot in argument"@, code.name.loc),
                        ],
                        None,
                        Seq::empty(),
                    )
                } else {
                    let start = gui_start_reports(codes, game);
                    match gui_root(codes, game, d) {
                        None => (start, None, Seq::empty()),
                        Some((root, ghw)) => {
                            let mism = root_mismatch_reports(codes, block, declared, root);
                            let adds = add_scopes(codes, codes.len() as int, d);
                            let base = if ghw { seq![("great_holy_war"@, 0x80u64)] } else { Seq::empty() };
                            if adds.3 {
                                (start + mism + adds.2, None, Seq::empty())
                            } else {
                                (
                                    start + mism + no_effect_reports(key, code, block),
                                    Some((root, base + adds.0, adds.1)),
                                    gui_checks(code.name.s@, block),
                                )
                            }
                        },
                    }
                }
            },
        }
    }
}


/// Computes [`known_sguicall`].
fn is_known_sguicall(name: &Token) -> (r: bool)
    ensures
        r == known_sguicall(name.s@),
{
    name.is("BuildTooltip") || name.is("Execute") || name.is("ExecuteTooltip") || name.is("IsValid")
        || name.is("IsValidTooltip") || name.is("IsShown") || name.is("IsShownTooltip")
}

/// Computes [`deduced_at`].
fn deduced_scope(d: &Vec<Scopes>, i: usize) -> (r: Scopes)
    ensures
        r.bits == deduced_at(d@.map_values(|s: Scopes| s.bits), i as int),
{
    if i < d.len() {
        d[i]
    } else {
        Scopes::all()
    }
}

/// The plain values of named scopes.
pub open spec fn names_view(v: Seq<(String, Scopes)>) -> Seq<(Seq<char>, u64)> {
    v.map_values(|p: (String, Scopes)| (p.0@, p.1.bits))
}

/// The plain values of checks.
pub open spec fn checks_view(v: Seq<GuiCheck>) -> Seq<(Seq<char>, bool, Tooltipped)> {
    v.map_values(|c: GuiCheck| (c.field@, c.effect, c.tooltipped))
}

/// The plain value of a scope context.
pub open spec fn gui_scope_view(s: Option<GuiScope>) -> Option<(u64, Seq<(Seq<char>, u64)>, bool)> {
    match s {
        Some(g) => Some((g.root.bits, names_view(g.names@), g.strict)),
        None => None,
    }
}

/// Once the walk of [`add_scopes`] stops, later calls change nothing.
proof fn lemma_add_scopes_stopped(codes: Seq<Code>, k: int, n: int, d: Seq<u64>)
    requires
        k <= n,
        add_scopes(codes, k, d).3,
    ensures
        add_scopes(codes, n, d) == add_scopes(codes, k, d),
    decreases n - k,
{
    if k < n {
        lemma_add_scopes_stopped(codes, k, n - 1, d);
    }
}

/// Walks the calls after `SetRoot` that add scopes, as [`add_scopes`]
/// says.
fn walk_add_scopes(codes: &Vec<Code>, d: &Vec<Scopes>) -> (r: (Vec<(String, Scopes)>, bool, Vec<Report>, bool))
    requires
        codes@.len() >= 2,
    ensures
        ({
            let a = add_scopes(codes@, codes@.len() as int, d@.map_values(|s: Scopes| s.bits));
            &&& names_view(r.0@) == a.0
            &&& r.1 == a.1
            &&& views(r.2@) == a.2
            &&& r.3 == a.3
        }),
{
    let ghost dv = d@.map_values(|s: Scopes| s.bits);
    let mut names: Vec<(String, Scopes)> = Vec::new();
    let mut strict = true;
    let mut reports: Vec<Report> = Vec::new();
    let mut i: usize = 2;
    assert(names_view(names@) =~= Seq::<(Seq<char>, u64)>::empty());
    assert(views(reports@) =~= Seq::<ReportView>::empty());
    while i < codes.len()
        invariant
            2 <= i <= codes@.len(),
            dv == d@.map_values(|s: Scopes| s.bits),
            ({
                let a = add_scopes(codes@, i as int, dv);
                &&& names_view(names@) == a.0
                &&& strict == a.1
                &&& views(reports@) == a.2
                &&& !a.3
            }),
        decreases codes@.len() - i,
    {
        let c = &codes[i];
        let ghost prev = add_scopes(codes@, i as int, dv);
        assert(add_scopes(codes@, i + 1, dv) == {
            if prev.3 {
                prev
            } else {
                let c = codes@[i as int];
                if c.name.s@ == "AddScope"@ {
                    if c.arguments@.len() != 2 {
                        (prev.0, prev.1, prev.2, true)
                    } else {
                        let sc = match c.arguments@[1] {
                            CodeArg::Chain(_) => deduced_at(dv, i as int),
                            CodeArg::Literal(_) => 0xffff_ffff_ffff_ffff,
                        };
                        match c.arguments@[0] {
                            CodeArg::Literal(t) => (prev.0.push((t.s@, sc)), prev.1, prev.2, false),
                            CodeArg::Chain(_) => (prev.0, false, prev.2, false),
                        }
                    }
                } else if c.name.s@ == "End"@ {
                    prev
                } else {
                    (
                        prev.0,
                        prev.1,
                        prev.2.push(rv(ErrorKey::Gui, Severity::Warning, "expected AddScope or End"@, c.name.loc)),
                        true,
                    )
                }
            }
        });
        if c.name.is("AddScope") {
            if c.arguments.len() != 2 {
                proof {
                    lemma_add_scopes_stopped(codes@, i + 1, codes@.len() as int, dv);
                }
                return (names, strict, reports, true);
            }
            let sc = match &c.arguments[1] {
                CodeArg::Chain(_) => deduced_scope(d, i),
                CodeArg::Literal(_) => Scopes::all(),
            };
            match &c.arguments[0] {
                CodeArg::Literal(t) => {
                    let ghost before = names@;
                    names.push((t.s.clone(), sc));
                    assert(names_view(names@) =~= names_view(before).push((t.s@, sc.bits)));
                },
                CodeArg::Chain(_) => {
                    strict = false;
                },
            }
        } else if !c.name.is("End") {
            push_report(&mut reports, report_str(ErrorKey::Gui, Severity::Warning, "expected AddScope or End", c.name.loc));
            proof {
                lemma_add_scopes_stopped(codes@, i + 1, codes@.len() as int, dv);
            }
            return (names, strict, reports, true);
        }
        i = i + 1;
    }
    (names, strict, reports, false)
}

/// Builds the checks of [`gui_checks`].
fn make_checks(name: &Token, block: &Block) -> (r: Vec<GuiCheck>)
    requires
        known_sguicall(name.s@),
    ensures
        checks_view(r@) == gui_checks(name.s@, *block),
{
    let valid = block.get_field_block("is_valid").is_some();
    let effect = block.get_field_block("effect").is_some();
    let shown = block.get_field_block("is_shown").is_some();
    let mut r: Vec<GuiCheck> = Vec::new();
    if name.is("BuildTooltip") {
        if valid {
            r.push(GuiCheck { field: "is_valid", effect: false, tooltipped: Tooltipped::Yes });
        }
        if effect {
            r.push(GuiCheck { field: "effect", effect: true, tooltipped: Tooltipped::Yes });
        }
    } else if name.is("Execute") {
        if effect {
            r.push(GuiCheck { field: "effect", effect: true, tooltipped: Tooltipped::No });
        }
    } else if name.is("ExecuteTooltip") {
        if effect {
            r.push(GuiCheck { field: "effect", effect: true, tooltipped: Tooltipped::Yes });
        }
    } else if name.is("IsShown") {
        if shown {
            r.push(GuiCheck { field: "is_shown", effect: false, tooltipped: Tooltipped::No });
        }
    } else if name.is("IsShownTooltip") {
        if shown {
            r.push(GuiCheck { field: "is_shown", effect: false, tooltipped: Tooltipped::Yes });
        }
    } else if name.is("IsValid") {
        if valid {
            r.push(GuiCheck { field: "is_valid", effect: false, tooltipped: Tooltipped::No });
        }
    } else {
        if valid {
            r.push(GuiCheck { field: "is_valid", effect: false, tooltipped: Tooltipped::Yes });
        }
    }
    assert(checks_view(r@) =~= gui_checks(name.s@, *block));
    r
}

impl ScriptedGui {
    /// Checks the call `code` of the scripted GUI `key`, defined by `block`,
    /// in `game`, as [`guicall_result`] says: `declared` is the scope type
    /// that the GUI's `scope` field names, if it names one, and
    /// `deduced[i]` the scope type that the chain argument of the `i`-th call
    /// of the argument chain yields (every type where none is given).
    pub fn validate_guicall(
        key: &Token,
        block: &Block,
        game: Game,
        declared: Option<Scopes>,
        code: &Code,
        deduced: &Vec<Scopes>,
    ) -> (r: GuiCall)
        ensures
            ({
                let res = guicall_result(
                    *key,
                    *block,
                    game,
                    match declared {
                        Some(s) => Some(s.bits),
                        None => None,
                    },
                    *code,
                    deduced@.map_values(|s: Scopes| s.bits),
                );
                &&& views(r.reports@) == res.0
                &&& gui_scope_view(r.scope) == res.1
                &&& checks_view(r.checks@) == res.2
            }),
    {
        let ghost dv = deduced@.map_values(|s: Scopes| s.bits);
        let ghost dec = match declared {
            Some(s) => Some(s.bits),
            None => None,
        };
        let ghost res = guicall_result(*key, *block, game, dec, *code, dv);
        let mut reports: Vec<Report> = Vec::new();
        let empty_checks: Vec<GuiCheck> = Vec::new();
        assert(checks_view(empty_checks@) =~= Seq::<(Seq<char>, bool, Tooltipped)>::empty());
        assert(views(reports@) =~= Seq::<ReportView>::empty());
        if !is_known_sguicall(&code.name) || code.arguments.len() != 1 {
            return GuiCall { reports, scope: None, checks: empty_checks };
        }
        let codes = match &code.arguments[0] {
            CodeArg::Chain(cs) => cs,
            CodeArg::Literal(_) => {
                return GuiCall { reports, scope: None, checks: empty_checks };
            },
        };
        if codes.len() < 2 {
            push_report(
                &mut reports,
                report_str(ErrorKey::Gui, Severity::Warning, "expected GuiScope.SetRoot in argument", code.name.loc),
            );
            return GuiCall { reports, scope: None, checks: empty_checks };
        }
        let ghw = game == Game::Ck3 && codes[0].name.is("GreatHolyWarWindow") && codes[1].name.is("GetScope");
        if !ghw {
            if !codes[0].name.is("GuiScope") {
                push_report(&mut reports, report_str(ErrorKey::Gui, Severity::Warning, "expected GuiScope", codes[0].name.loc));
                return GuiCall { reports, scope: None, checks: empty_checks };
            }
            if !codes[1].name.is("SetRoot") {
                push_report(&mut reports, report_str(ErrorKey::Gui, Severity::Warning, "expected SetRoot", codes[1].name.loc));
                return GuiCall { reports, scope: None, checks: empty_checks };
            }
            if codes[1].arguments.len() != 1 {
                return GuiCall { reports, scope: None, checks: empty_checks };
            }
        }
        assert(views(reports@) == gui_start_reports(codes@, game));
        let root = if ghw {
            Scopes::character()
        } else {
            match &codes[1].arguments[0] {
                CodeArg::Chain(_) => deduced_scope(deduced, 1),
                CodeArg::Literal(_) => {
                    return GuiCall { reports, scope: None, checks: empty_checks };
                },
            }
        };
        assert(gui_root(codes@, game, dv) == Some((root.bits, ghw)));
        match (block.get_field_value("scope"), declared) {
            (Some(token), Some(d)) => {
                if !root.intersects(d) {
                    push_report(
                        &mut reports,
                        report_str(
                            ErrorKey::Scopes,
                            Severity::Warning,
                            "SetRoot scope does not match scripted gui scope",
                            codes[1].name.loc,
                        ).point_also(token.loc, "scripted gui scope here"),
                    );
                }
            },
            _ => {},
        }
        let ghost mid = views(reports@);
        assert(mid =~= gui_start_reports(codes@, game) + root_mismatch_reports(codes@, *block, dec, root.bits));
        let (added, strict, more, stopped) = walk_add_scopes(codes, deduced);
        if stopped {
            let ghost m = more@;
            let mut more = more;
            reports.append(&mut more);
            assert(views(reports@) =~= mid + views(m));
            return GuiCall { reports, scope: None, checks: empty_checks };
        }
        let mut names: Vec<(String, Scopes)> = Vec::new();
        if ghw {
            names.push((String::from_str("great_holy_war"), Scopes::great_holy_war()));
        }
        assert(names_view(names@) =~= (if ghw { seq![("great_holy_war"@, 0x80u64)] } else { Seq::empty() }));
        let ghost base = names@;
        let ghost a = added@;
        let mut added = added;
        names.append(&mut added);
        assert(names_view(names@) =~= names_view(base) + names_view(a));
        if block.get_field_block("effect").is_none() && (code.name.is("Execute") || code.name.is("ExecuteTooltip")) {
            let sev = if code.name.is("Execute") { Severity::Error } else { Severity::Warning };
            let mut m: Vec<char> = Vec::new();
            push_str(&mut m, "scripted gui `");
            push_str(&mut m, key.s.as_str());
            push_str(&mut m, "` has no effect block");
            push_report(
                &mut reports,
                make_report(ErrorKey::Gui, sev, m.as_slice(), code.name.loc).point_also(key.loc, "scripted gui here"),
            );
        }
        assert(views(reports@) =~= mid + no_effect_reports(*key, *code, *block));
        let checks = make_checks(&code.name, block);
        GuiCall { reports, scope: Some(GuiScope { root, names, strict }), checks }
    }
}

/// The rules for the fields of the scripted GUI.
pub open spec fn scripted_gui_rules() -> Seq<RuleView> {
    seq![
        RuleView { name: "scope"@, required: false, kind: KindView::Value },
        RuleView { name: "notification_key"@, required: false, kind: KindView::Value },
        RuleView { name: "confirm_title"@, required: false, kind: KindView::Any },
        RuleView { name: "confirm_text"@, required: false, kind: KindView::Any },
        RuleView { name: "ai_is_valid"@, required: false, kind: KindView::Trigger },
        RuleView { name: "ai_chance"@, required: false, kind: KindView::Block },
        RuleView { name: "ai_frequency"@, required: false, kind: KindView::Any },
        RuleView { name: "saved_scopes"@, required: false, kind: KindView::Block },
        RuleView { name: "is_shown"@, required: false, kind: KindView::Trigger },
        RuleView { name: "is_valid"@, required: false, kind: KindView::Trigger },
        RuleView { name: "effect"@, required: false, kind: KindView::Block },
    ]
}

/// The reports on the scripted GUI `key` defined by `block`: its fields as [`scripted_gui_rules`]
/// has them, and the fields it does not know.
pub open spec fn scripted_gui_reports(block: Block, db: Db) -> Seq<ReportView> {
    rules_reports(scripted_gui_rules(), block, db)
        + unknown_field_reports(scripted_gui_rules(), block.v@)
}

impl ScriptedGui {
    /// Checks the scripted GUI `key` defined by `block`, as [`scripted_gui_reports`] says.
    pub fn validate(_key: &Token, block: &Block, db: &Db) -> (r: Vec<Report>)
        requires
            db.wf(),
        ensures
            views(r@) == scripted_gui_reports(*block, *db),
    {
        let mut out: Vec<Report> = Vec::new();
        let r1 = vec![
            FieldRule { name: "scope", required: false, kind: FieldKind::Value },
            FieldRule { name: "notification_key", required: false, kind: FieldKind::Value },
            FieldRule { name: "confirm_title", required: false, kind: FieldKind::Any },
            FieldRule { name: "confirm_text", required: false, kind: FieldKind::Any },
            FieldRule { name: "ai_is_valid", required: false, kind: FieldKind::Trigger },
            FieldRule { name: "ai_chance", required: false, kind: FieldKind::Block },
            FieldRule { name: "ai_frequency", required: false, kind: FieldKind::Any },
            FieldRule { name: "saved_scopes", required: false, kind: FieldKind::Block },
            FieldRule { name: "is_shown", required: false, kind: FieldKind::Trigger },
            FieldRule { name: "is_valid", required: false, kind: FieldKind::Trigger },
            FieldRule { name: "effect", required: false, kind: FieldKind::Block },
        ];
        assert(rules_view(r1@) =~= scripted_gui_rules());
        append_reports(&mut out, check_rules(block, db, &r1));
        append_reports(&mut out, check_unknown(block, &r1));
        out
    }
}

} // verus!
