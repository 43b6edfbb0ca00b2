//! National focus trees, national focuses and focus styles.

use vstd::prelude::*;

use crate::block::{field_blocks, last_field_value, Block};
use crate::db::{add_copy, db_after_copies, lemma_after_copies_push, Db, DbEntry, Item};
use crate::report::{report_str, rv, views, ErrorKey, Report, ReportView, Severity};
use crate::token::Token;

use crate::validator::{append_reports, check_nested, check_rules, check_unknown, extend_rules, known_block, known_block_rules, nested_reports, rules_reports, rules_view, unknown_field_reports, FieldKind, FieldRule, KindView, RuleView};
verus! {

/// The national focus tree items.
#[derive(Clone, Debug)]
pub struct NationalFocusTree {}

/// The national focus items.
#[derive(Clone, Debug)]
pub struct NationalFocus {}

/// The national focus style items.
#[derive(Clone, Debug)]
pub struct NationalFocusStyle {}

/// The field under which an item written as `key = { ... }` is named, and the
/// kind of item it is: a focus tree and a shared or joint focus by `id`, a
/// style by `name`.
pub open spec fn focus_file_item(key: Seq<char>) -> Option<(Item, Seq<char>, Seq<char>)> {
    if key == "focus_tree"@ {
        Some((Item::NationalFocusTree, "id"@, "focus tree without id"@))
    } else if key == "shared_focus"@ || key == "joint_focus"@ {
        Some((Item::NationalFocus, "id"@, "focus without id"@))
    } else if key == "style"@ {
        Some((Item::NationalFocusStyle, "name"@, "style without name"@))
    } else {
        None
    }
}

/// The focuses of a focus tree, given its `focus` blocks: those with an `id`.
pub open spec fn focus_ops(bs: Seq<Block>) -> Seq<DbEntry>
    decreases bs.len(),
{
    if bs.len() == 0 {
        Seq::empty()
    } else {
        let rest = focus_ops(bs.drop_last());
        match last_field_value(bs.last().v@, "id"@) {
            Some(id) => rest.push((Item::NationalFocus, id, bs.last())),
            None => rest,
        }
    }
}

/// The reports on the `focus` blocks of a tree that have no `id`.
pub open spec fn focus_reports(bs: Seq<Block>) -> Seq<ReportView>
    decreases bs.len(),
{
    if bs.len() == 0 {
        Seq::empty()
    } else {
        let rest = focus_reports(bs.drop_last());
        match last_field_value(bs.last().v@, "id"@) {
            Some(_) => rest,
            None => rest.push(rv(ErrorKey::FieldMissing, Severity::Error, "focus without id"@, bs.last().loc)),
        }
    }
}

impl NationalFocusTree {
    /// Adds an item of a focus file to the database: a `focus_tree`, a
    /// `shared_focus` or `joint_focus` under its `id`, or a `style` under its
    /// `name`. A missing name and any other key are reported instead.
    pub fn add(db: &mut Db, key: Token, block: Block) -> (r: Vec<Report>)
        requires
            old(db).wf(),
        ensures
            final(db).wf(),
            final(db).spec_flags() == old(db).spec_flags(),
            match focus_file_item(key.s@) {
                Some((item, field, missing)) => match last_field_value(block.v@, field) {
                    Some(id) => final(db)@ == old(db)@.insert((item, id.s@), (id, block)) && views(r@)
                        == Seq::<ReportView>::empty(),
                    None => final(db)@ == old(db)@ && views(r@) == seq![
                        rv(ErrorKey::FieldMissing, Severity::Error, missing, key.loc),
                    ],
                },
                None => final(db)@ == old(db)@ && views(r@) == seq![
                    rv(ErrorKey::UnknownField, Severity::Error, "unexpected key"@, key.loc),
                ],
            },
    {
        let mut r: Vec<Report> = Vec::new();
        let (item, field, missing): (Item, &str, &str) = if key.is("focus_tree") {
            (Item::NationalFocusTree, "id", "focus tree without id")
        } else if key.is("shared_focus") || key.is("joint_focus") {
            (Item::NationalFocus, "id", "focus without id")
        } else if key.is("style") {
            (Item::NationalFocusStyle, "name", "style without name")
        } else {
            let rep = report_str(ErrorKey::UnknownField, Severity::Error, "unexpected key", key.loc);
            r.push(rep);
            assert(views(r@) =~= seq![rep@]);
            return r;
        };
        let id = match block.get_field_value(field) {
            Some(t) => Some(t.dup()),
            None => None,
        };
        match id {
            Some(id) => {
                db.add(item, id, block);
                assert(views(r@) =~= Seq::<ReportView>::empty());
            },
            None => {
                let rep = report_str(ErrorKey::FieldMissing, Severity::Error, missing, key.loc);
                r.push(rep);
                assert(views(r@) =~= seq![rep@]);
            },
        }
        r
    }

    /// Adds each `focus` of the tree that has an `id`, with a copy of its
    /// block, as a national focus; a focus without an `id` is reported.
    pub fn add_subitems(&self, _key: &Token, block: &Block, db: &mut Db) -> (r: Vec<Report>)
        requires
            old(db).wf(),
        ensures
            final(db).wf(),
            db_after_copies(old(db)@, final(db)@, focus_ops(field_blocks(block.v@, "focus"@))),
            final(db).spec_flags() == old(db).spec_flags(),
            views(r@) == focus_reports(field_blocks(block.v@, "focus"@)),
    {
        let bs = block.get_field_blocks("focus");
        let ghost fb = field_blocks(block.v@, "focus"@);
        let mut r: Vec<Report> = Vec::new();
        let mut i: usize = 0;
        assert(fb.take(0) =~= Seq::<Block>::empty());
        assert(db_after_copies(old(db)@, db@, Seq::<DbEntry>::empty()));
        while i < bs.len()
            invariant
                i <= bs@.len(),
                bs@.len() == fb.len(),
                fb == field_blocks(block.v@, "focus"@),
                forall|j: int| 0 <= j < bs@.len() ==> *#[trigger] bs@[j] == fb[j],
                db.wf(),
                db_after_copies(old(db)@, db@, focus_ops(fb.take(i as int))),
                db.spec_flags() == old(db).spec_flags(),
                views(r@) == focus_reports(fb.take(i as int)),
            decreases bs@.len() - i,
        {
            let b: &Block = bs[i];
            assert(*b == fb[i as int]);
            assert(fb.take(i + 1).drop_last() =~= fb.take(i as int));
            assert(fb.take(i + 1).last() == fb[i as int]);
            match b.get_field_value("id") {
                Some(id) => {
                    let ghost m1 = db@;
                    add_copy(db, Item::NationalFocus, id.dup(), b);
                    proof {
                        lemma_after_copies_push(old(db)@, m1, db@, focus_ops(fb.take(i as int)), (Item::NationalFocus, *id, *b));
                    }
                },
                None => {
                    let ghost rs = r@;
                    let rep = report_str(ErrorKey::FieldMissing, Severity::Error, "focus without id", b.loc);
                    r.push(rep);
                    assert(views(r@) =~= views(rs).push(rep@));
                },
            }
            i = i + 1;
        }
        assert(fb.take(i as int) =~= fb);
        r
    }
}

/// Rules for the fields of the national focus tree, part 1.
pub open spec fn focus_tree_rules_1() -> Seq<RuleView> {
    seq![
        RuleView { name: "id"@, required: false, kind: KindView::Value },
        RuleView { name: "country"@, required: false, kind: KindView::Block },
        RuleView { name: "default"@, required: false, kind: KindView::Bool },
    ]
}

/// Rules for the `initial_show_position` block of the national focus tree.
pub open spec fn focus_tree_initial_show_position_rules() -> Seq<RuleView> {
    seq![
        RuleView { name: "x"@, required: false, kind: KindView::Integer },
        RuleView { name: "y"@, required: false, kind: KindView::Integer },
    ]
}

/// Rules for the `continuous_focus_position` block of the national focus tree.
pub open spec fn focus_tree_continuous_focus_position_rules() -> Seq<RuleView> {
    seq![
        RuleView { name: "x"@, required: false, kind: KindView::Integer },
        RuleView { name: "y"@, required: false, kind: KindView::Integer },
    ]
}

/// Rules for the fields of the national focus tree, part 2.
pub open spec fn focus_tree_rules_2() -> Seq<RuleView> {
    seq![
        RuleView { name: "shared_focus"@, required: false, kind: KindView::Item(Item::NationalFocus) },
        RuleView { name: "focus"@, required: false, kind: KindView::Any },
    ]
}

/// The fields the national focus tree knows.
pub open spec fn focus_tree_known() -> Seq<RuleView> {
    focus_tree_rules_1()
        + seq![known_block("initial_show_position"@)]
        + seq![known_block("continuous_focus_position"@)]
        + focus_tree_rules_2()
}

/// The reports on the national focus tree `key` defined by `block`: its fields as
/// [`focus_tree_rules_1`] and the parts after it have them, its `initial_show_position` and
/// `continuous_focus_position` blocks checked by their own rules, and the fields it does not know.
pub open spec fn focus_tree_reports(block: Block, db: Db) -> Seq<ReportView> {
    rules_reports(focus_tree_rules_1(), block, db)
        + nested_reports("initial_show_position"@, focus_tree_initial_show_position_rules(), block.v@, db)
        + nested_reports("continuous_focus_position"@, focus_tree_continuous_focus_position_rules(), block.v@, db)
        + rules_reports(focus_tree_rules_2(), block, db)
        + unknown_field_reports(focus_tree_known(), block.v@)
}

impl NationalFocusTree {
    /// Checks the national focus tree `key` defined by `block`, as [`focus_tree_reports`] says.
    pub fn validate(_key: &Token, block: &Block, db: &Db) -> (r: Vec<Report>)
        requires
            db.wf(),
        ensures
            views(r@) == focus_tree_reports(*block, *db),
    {
        let mut out: Vec<Report> = Vec::new();
        let r1 = vec![
            FieldRule { name: "id", required: false, kind: FieldKind::Value },
            FieldRule { name: "country", required: false, kind: FieldKind::Block },
            FieldRule { name: "default", required: false, kind: FieldKind::Bool },
        ];
        assert(rules_view(r1@) =~= focus_tree_rules_1());
        append_reports(&mut out, check_rules(block, db, &r1));
        let n_initial_show_position = vec![
            FieldRule { name: "x", required: false, kind: FieldKind::Integer },
            FieldRule { name: "y", required: false, kind: FieldKind::Integer },
        ];
        assert(rules_view(n_initial_show_position@) =~= focus_tree_initial_show_position_rules());
        append_reports(&mut out, check_nested("initial_show_position", &n_initial_show_position, block, db));
        let n_continuous_focus_position = vec![
            FieldRule { name: "x", required: false, kind: FieldKind::Integer },
            FieldRule { name: "y", required: false, kind: FieldKind::Integer },
        ];
        assert(rules_view(n_continuous_focus_position@) =~= focus_tree_continuous_focus_position_rules());
        append_reports(&mut out, check_nested("continuous_focus_position", &n_continuous_focus_position, block, db));
        let r2 = vec![
            FieldRule { name: "shared_focus", required: false, kind: FieldKind::Item(Item::NationalFocus) },
            FieldRule { name: "focus", required: false, kind: FieldKind::Any },
        ];
        assert(rules_view(r2@) =~= focus_tree_rules_2());
        append_reports(&mut out, check_rules(block, db, &r2));
        let mut known: Vec<FieldRule> = Vec::new();
        extend_rules(&mut known, &r1);
        extend_rules(&mut known, &known_block_rules("initial_show_position"));
        extend_rules(&mut known, &known_block_rules("continuous_focus_position"));
        extend_rules(&mut known, &r2);
        assert(rules_view(known@) =~= focus_tree_known());
        append_reports(&mut out, check_unknown(block, &known));
        out
    }
}

/// Rules for the fields of the national focus, part 1.
pub open spec fn national_focus_rules_1() -> Seq<RuleView> {
    seq![
        RuleView { name: "id"@, required: false, kind: KindView::Value },
        RuleView { name: "icon"@, required: false, kind: KindView::Any },
        RuleView { name: "text_icon"@, required: false, kind: KindView::Item(Item::NationalFocusStyle) },
        RuleView { name: "allow_branch"@, required: false, kind: KindView::Trigger },
    ]
}

/// Rules for the `mutually_exclusive` block of the national focus.
pub open spec fn national_focus_mutually_exclusive_rules() -> Seq<RuleView> {
    seq![
        RuleView { name: "focus"@, required: false, kind: KindView::Item(Item::NationalFocus) },
    ]
}

/// Rules for the `prerequisite` block of the national focus.
pub open spec fn national_focus_prerequisite_rules() -> Seq<RuleView> {
    seq![
        RuleView { name: "focus"@, required: false, kind: KindView::Item(Item::NationalFocus) },
    ]
}

/// Rules for the fields of the national focus, part 2.
pub open spec fn national_focus_rules_2() -> Seq<RuleView> {
    seq![
        RuleView { name: "x"@, required: false, kind: KindView::Integer },
        RuleView { name: "y"@, required: false, kind: KindView::Integer },
        RuleView { name: "relative_position_id"@, required: false, kind: KindView::Item(Item::NationalFocus) },
    ]
}

/// Rules for the `offset` block of the national focus.
pub open spec fn national_focus_offset_rules() -> Seq<RuleView> {
    seq![
        RuleView { name: "x"@, required: false, kind: KindView::Integer },
        RuleView { name: "y"@, required: false, kind: KindView::Integer },
        RuleView { name: "trigger"@, required: false, kind: KindView::Trigger },
    ]
}

/// Rules for the fields of the national focus, part 3.
pub open spec fn national_focus_rules_3() -> Seq<RuleView> {
    seq![
        RuleView { name: "cost"@, required: false, kind: KindView::Integer },
        RuleView { name: "bypass"@, required: false, kind: KindView::Trigger },
        RuleView { name: "available"@, required: false, kind: KindView::Trigger },
        RuleView { name: "select_effect"@, required: false, kind: KindView::Block },
        RuleView { name: "cancel_if_invalid"@, required: false, kind: KindView::Bool },
        RuleView { name: "continue_if_invalid"@, required: false, kind: KindView::Bool },
        RuleView { name: "available_if_capitulated"@, required: false, kind: KindView::Bool },
        RuleView { name: "search_filters"@, required: false, kind: KindView::ListItems(Item::Localization) },
        RuleView { name: "complete_tooltip"@, required: false, kind: KindView::Block },
        RuleView { name: "completion_reward"@, required: false, kind: KindView::Block },
        RuleView { name: "ai_will_do"@, required: false, kind: KindView::Block },
        RuleView { name: "dynamic"@, required: false, kind: KindView::Bool },
        RuleView { name: "will_lead_to_war_with"@, required: false, kind: KindView::Item(Item::CountryTag) },
    ]
}

/// The fields the national focus knows.
pub open spec fn national_focus_known() -> Seq<RuleView> {
    national_focus_rules_1()
        + seq![known_block("mutually_exclusive"@)]
        + seq![known_block("prerequisite"@)]
        + national_focus_rules_2()
        + seq![known_block("offset"@)]
        + national_focus_rules_3()
}

/// The reports on the national focus `key` defined by `block`: its fields as
/// [`national_focus_rules_1`] and the parts after it have them, its `mutually_exclusive`,
/// `prerequisite` and `offset` blocks checked by their own rules, and the fields it does not know.
pub open spec fn national_focus_reports(block: Block, db: Db) -> Seq<ReportView> {
    rules_reports(national_focus_rules_1(), block, db)
        + nested_reports("mutually_exclusive"@, national_focus_mutually_exclusive_rules(), block.v@, db)
        + nested_reports("prerequisite"@, national_focus_prerequisite_rules(), block.v@, db)
        + rules_reports(national_focus_rules_2(), block, db)
        + nested_reports("offset"@, national_focus_offset_rules(), block.v@, db)
        + rules_reports(national_focus_rules_3(), block, db)
        + unknown_field_reports(national_focus_known(), block.v@)
}

impl NationalFocus {
    /// Checks the national focus `key` defined by `block`, as [`national_focus_reports`] says.
    pub fn validate(_key: &Token, block: &Block, db: &Db) -> (r: Vec<Report>)
        requires
            db.wf(),
        ensures
            views(r@) == national_focus_reports(*block, *db),
    {
        let mut out: Vec<Report> = Vec::new();
        let r1 = vec![
            FieldRule { name: "id", required: false, kind: FieldKind::Value },
            FieldRule { name: "icon", required: false, kind: FieldKind::Any },
            FieldRule { name: "text_icon", required: false, kind: FieldKind::Item(Item::NationalFocusStyle) },
            FieldRule { name: "allow_branch", required: false, kind: FieldKind::Trigger },
        ];
        assert(rules_view(r1@) =~= national_focus_rules_1());
        append_reports(&mut out, check_rules(block, db, &r1));
        let n_mutually_exclusive = vec![
            FieldRule { name: "focus", required: false, kind: FieldKind::Item(Item::NationalFocus) },
        ];
        assert(rules_view(n_mutually_exclusive@) =~= national_focus_mutually_exclusive_rules());
        append_reports(&mut out, check_nested("mutually_exclusive", &n_mutually_exclusive, block, db));
        let n_prerequisite = vec![
            FieldRule { name: "focus", required: false, kind: FieldKind::Item(Item::NationalFocus) },
        ];
        assert(rules_view(n_prerequisite@) =~= national_focus_prerequisite_rules());
        append_reports(&mut out, check_nested("prerequisite", &n_prerequisite, block, db));
        let r2 = vec![
            FieldRule { name: "x", required: false, kind: FieldKind::Integer },
            FieldRule { name: "y", required: false, kind: FieldKind::Integer },
            FieldRule { name: "relative_position_id", required: false, kind: FieldKind::Item(Item::NationalFocus) },
        ];
        assert(rules_view(r2@) =~= national_focus_rules_2());
        append_reports(&mut out, check_rules(block, db, &r2));
        let n_offset = vec![
            FieldRule { name: "x", required: false, kind: FieldKind::Integer },
            FieldRule { name: "y", required: false, kind: FieldKind::Integer },
            FieldRule { name: "trigger", required: false, kind: FieldKind::Trigger },
        ];
        assert(rules_view(n_offset@) =~= national_focus_offset_rules());
        append_reports(&mut out, check_nested("offset", &n_offset, block, db));
        let r3 = vec![
            FieldRule { name: "cost", required: false, kind: FieldKind::Integer },
            FieldRule { name: "bypass", required: false, kind: FieldKind::Trigger },
            FieldRule { name: "available", required: false, kind: FieldKind::Trigger },
            FieldRule { name: "select_effect", required: false, kind: FieldKind::Block },
            FieldRule { name: "cancel_if_invalid", required: false, kind: FieldKind::Bool },
            FieldRule { name: "continue_if_invalid", required: false, kind: FieldKind::Bool },
            FieldRule { name: "available_if_capitulated", required: false, kind: FieldKind::Bool },
            FieldRule { name: "search_filters", required: false, kind: FieldKind::ListItems(Item::Localization) },
            FieldRule { name: "complete_tooltip", required: false, kind: FieldKind::Block },
            FieldRule { name: "completion_reward", required: false, kind: FieldKind::Block },
            FieldRule { name: "ai_will_do", required: false, kind: FieldKind::Block },
            FieldRule { name: "dynamic", required: false, kind: FieldKind::Bool },
            FieldRule { name: "will_lead_to_war_with", required: false, kind: FieldKind::Item(Item::CountryTag) },
        ];
        assert(rules_view(r3@) =~= national_focus_rules_3());
        append_reports(&mut out, check_rules(block, db, &r3));
        let mut known: Vec<FieldRule> = Vec::new();
        extend_rules(&mut known, &r1);
        extend_rules(&mut known, &known_block_rules("mutually_exclusive"));
        extend_rules(&mut known, &known_block_rules("prerequisite"));
        extend_rules(&mut known, &r2);
        extend_rules(&mut known, &known_block_rules("offset"));
        extend_rules(&mut known, &r3);
        assert(rules_view(known@) =~= national_focus_known());
        append_reports(&mut out, check_unknown(block, &known));
        out
    }
}

/// The rules for the fields of the national focus style.
pub open spec fn focus_style_rules() -> Seq<RuleView> {
    seq![
        RuleView { name: "name"@, required: false, kind: KindView::Value },
        RuleView { name: "default"@, required: false, kind: KindView::Bool },
        RuleView { name: "unavailable"@, required: false, kind: KindView::Item(Item::Sprite) },
        RuleView { name: "completed"@, required: false, kind: KindView::Item(Item::Sprite) },
        RuleView { name: "available"@, required: false, kind: KindView::Item(Item::Sprite) },
        RuleView { name: "current"@, required: false, kind: KindView::Item(Item::Sprite) },
    ]
}

/// The reports on the national focus style `key` defined by `block`: its fields as
/// [`focus_style_rules`] has them, and the fields it does not know.
pub open spec fn focus_style_reports(block: Block, db: Db) -> Seq<ReportView> {
    rules_reports(focus_style_rules(), block, db)
        + unknown_field_reports(focus_style_rules(), block.v@)
}

impl NationalFocusStyle {
    /// Checks the national focus style `key` defined by `block`, as [`focus_style_reports`] says.
    pub fn validate(_key: &Token, block: &Block, db: &Db) -> (r: Vec<Report>)
        requires
            db.wf(),
        ensures
            views(r@) == focus_style_reports(*block, *db),
    {
        let mut out: Vec<Report> = Vec::new();
        let r1 = vec![
            FieldRule { name: "name", required: false, kind: FieldKind::Value },
            FieldRule { name: "default", required: false, kind: FieldKind::Bool },
            FieldRule { name: "unavailable", required: false, kind: FieldKind::Item(Item::Sprite) },
            FieldRule { name: "completed", required: false, kind: FieldKind::Item(Item::Sprite) },
            FieldRule { name: "available", required: false, kind: FieldKind::Item(Item::Sprite) },
            FieldRule { name: "current", required: false, kind: FieldKind::Item(Item::Sprite) },
        ];
        assert(rules_view(r1@) =~= focus_style_rules());
        append_reports(&mut out, check_rules(block, db, &r1));
        append_reports(&mut out, check_unknown(block, &r1));
        out
    }
}

} // verus!
