//! Doctrines and doctrine groups.

use vstd::prelude::*;

use crate::block::{assignments, last_field_block, Block};
use crate::db::{add_assignment_flags, assignment_flags, Db, Item, ValueFilter};
use crate::token::Token;

use crate::validator::{append_reports, check_icon, check_loca, check_rules, check_unknown, extend_rules, icon_names, icon_or_key, icon_reports, marked_more, opt_text, rules_reports, rules_view, unknown_field_reports, FieldKind, FieldRule, KindView, RuleView};
use crate::defines::item_reports;
use crate::files::fileset::{FileEntry, Fileset};
use crate::game::Game;
use crate::report::{views, Report, ReportView};
use crate::block::block_has_key;
verus! {

/// The doctrine group items.
#[derive(Clone, Debug)]
pub struct DoctrineGroup {}

impl DoctrineGroup {
    /// Adds the doctrine group `key`, defined by `block`, to the database.
    pub fn add(db: &mut Db, key: Token, block: Block)
        requires
            old(db).wf(),
        ensures
            final(db).wf(),
            final(db)@ == old(db)@.insert((Item::DoctrineGroup, key.s@), (key, block)),
            final(db).spec_flags() == old(db).spec_flags(),
    {
        db.add(Item::DoctrineGroup, key, block);
    }
}

/// The doctrine items.
#[derive(Clone, Debug)]
pub struct Doctrine {}

impl Doctrine {
    /// Adds the doctrine `key`, defined by `block`, to the database.
    pub fn add(db: &mut Db, key: Token, block: Block)
        requires
            old(db).wf(),
        ensures
            final(db).wf(),
            final(db)@ == old(db)@.insert((Item::Doctrine, key.s@), (key, block)),
            final(db).spec_flags() == old(db).spec_flags(),
    {
        db.add(Item::Doctrine, key, block);
    }
}

/// Whether the `parameters` of a doctrine have a field `unreformed`.
pub open spec fn has_unreformed_parameter(block: Block) -> bool {
    match last_field_block(block.v@, "parameters"@) {
        Some(p) => exists|i: int|
            0 <= i < assignments(p.v@).len() && (#[trigger] assignments(p.v@)[i]).0.s@ == "unreformed"@,
        None => false,
    }
}

impl Doctrine {
    /// Whether the doctrine has the named property: `unreformed` holds of a
    /// doctrine with a field `unreformed` among its parameters.
    pub fn has_property(&self, _key: &Token, block: &Block, property: &str) -> (r: bool)
        ensures
            r == (property@ == "unreformed"@ && has_unreformed_parameter(*block)),
    {
        if !crate::text::str_eq(property, "unreformed") {
            return false;
        }
        if let Some(parameters) = block.get_field_block("parameters") {
            let pairs = parameters.iter_assignments();
            let mut i: usize = 0;
            while i < pairs.len()
                invariant
                    i <= pairs@.len(),
                    property@ == "unreformed"@,
                    last_field_block(block.v@, "parameters"@) == Some(*parameters),
                    pairs@.len() == assignments(parameters.v@).len(),
                    forall|j: int| 0 <= j < pairs@.len() ==> (*(#[trigger] pairs@[j]).0, *pairs@[j].1) == assignments(parameters.v@)[j],
                    forall|j: int| 0 <= j < i ==> (#[trigger] assignments(parameters.v@)[j]).0.s@ != "unreformed"@,
                decreases pairs@.len() - i,
            {
                let (k, _) = pairs[i];
                assert((*k, *pairs@[i as int].1) == assignments(parameters.v@)[i as int]);
                if k.is("unreformed") {
                    proof {
                        let pp = *parameters;
                        assert(assignments(pp.v@)[i as int].0.s@ == "unreformed"@);
                        assert(match last_field_block(block.v@, "parameters"@) {
                            Some(p) => p == pp,
                            None => false,
                        });
                    }
                    return true;
                }
                i = i + 1;
            }
        }
        false
    }

    /// Adds the keys of the doctrine's parameters as flags, and those set to
    /// `yes` or `no` also as boolean parameters.
    pub fn add_subitems(&self, _key: &Token, block: &Block, db: &mut Db)
        ensures
            final(db).wf() == old(db).wf(),
            final(db)@ == old(db)@,
            final(db).spec_entries() == old(db).spec_entries(),
            final(db).spec_flags() == (match last_field_block(block.v@, "parameters"@) {
                Some(p) => old(db).spec_flags().union(
                    assignment_flags(Item::DoctrineBooleanParameter, assignments(p.v@), ValueFilter::YesNo),
                ).union(assignment_flags(Item::DoctrineParameter, assignments(p.v@), ValueFilter::Any)),
                None => old(db).spec_flags(),
            }),
    {
        if let Some(parameters) = block.get_field_block("parameters") {
            add_assignment_flags(db, Item::DoctrineBooleanParameter, parameters, ValueFilter::YesNo);
            add_assignment_flags(db, Item::DoctrineParameter, parameters, ValueFilter::Any);
        }
    }
}

/// The rules for the fields of the doctrine group.
pub open spec fn doctrine_group_rules() -> Seq<RuleView> {
    seq![
        RuleView { name: "category"@, required: false, kind: KindView::Value },
        RuleView { name: "number_of_picks"@, required: false, kind: KindView::Integer },
        RuleView { name: "is_available_on_create"@, required: false, kind: KindView::Trigger },
        RuleView { name: "doctrine_types"@, required: false, kind: KindView::ListItems(Item::Doctrine) },
    ]
}

/// The reports on the doctrine group `key` defined by `block`: its localization (its key and
/// `_name`), its icon (its key, with `.dds`) in `icon_dir` among the `files` of `game`, its fields
/// as [`doctrine_group_rules`] has them, and the fields it does not know.
pub open spec fn doctrine_group_reports(
    key: Token,
    block: Block,
    db: Db,
    files: Seq<FileEntry>,
    game: Game,
    icon_dir: Option<Seq<char>>,
) -> Seq<ReportView> {
    item_reports(db, Item::Localization, key.s@ + "_name"@, key.loc)
        + icon_reports(files, game, icon_dir, key, ".dds"@)
        + rules_reports(doctrine_group_rules(), block, db)
        + unknown_field_reports(doctrine_group_rules(), block.v@)
}

/// The files that checking the doctrine group marks as used.
pub open spec fn doctrine_group_files(
    key: Token,
    block: Block,
    icon_dir: Option<Seq<char>>,
) -> Set<Seq<char>> {
    icon_names(icon_dir, key.s@, ".dds"@)
}

impl DoctrineGroup {
    /// Checks the doctrine group `key` defined by `block`, as [`doctrine_group_reports`] says, with
    /// `fs` the file set and `icon_dir` the directory of doctrine group icons (the game's define
    /// `NGameIcons|DOCTRINE_GROUP_TYPE_ICON_PATH`), if known; the files looked up are marked as
    /// used.
    pub fn validate(key: &Token, block: &Block, db: &Db, fs: &mut Fileset, icon_dir: Option<&str>) -> (r: Vec<Report>)
        requires
            db.wf(),
            old(fs).wf(),
        ensures
            final(fs).wf(),
            marked_more(*old(fs), *final(fs), doctrine_group_files(*key, *block, opt_text(icon_dir))),
            views(r@) == doctrine_group_reports(*key, *block, *db, old(fs).spec_files(), old(fs).spec_game(), opt_text(icon_dir)),
    {
        let mut out: Vec<Report> = Vec::new();
        let ghost f0 = *fs;
        proof {
            reveal_strlit("");
            assert(""@ + key.s@ + "_name"@ =~= key.s@ + "_name"@);
        }
        check_loca(db, "", key, "_name", &mut out);
        append_reports(&mut out, check_icon(fs, icon_dir, key, ".dds"));
        let r1 = vec![
            FieldRule { name: "category", required: false, kind: FieldKind::Value },
            FieldRule { name: "number_of_picks", required: false, kind: FieldKind::Integer },
            FieldRule { name: "is_available_on_create", required: false, kind: FieldKind::Trigger },
            FieldRule { name: "doctrine_types", required: false, kind: FieldKind::ListItems(Item::Doctrine) },
        ];
        assert(rules_view(r1@) =~= doctrine_group_rules());
        append_reports(&mut out, check_rules(block, db, &r1));
        append_reports(&mut out, check_unknown(block, &r1));
        assert(fs.spec_used() =~= f0.spec_used().union(doctrine_group_files(*key, *block, opt_text(icon_dir))));
        out
    }
}

/// Rules for the fields of the doctrine, part 1.
pub open spec fn doctrine_rules_1() -> Seq<RuleView> {
    seq![
        RuleView { name: "icon"@, required: false, kind: KindView::Value },
    ]
}

/// Rules for the fields of the doctrine, part 2.
pub open spec fn doctrine_rules_2() -> Seq<RuleView> {
    seq![
        RuleView { name: "name"@, required: false, kind: KindView::Any },
    ]
}

/// Rules for the fields of the doctrine, part 3.
pub open spec fn doctrine_rules_3() -> Seq<RuleView> {
    seq![
        RuleView { name: "desc"@, required: false, kind: KindView::Any },
    ]
}

/// Rules for the fields of the doctrine, part 4.
pub open spec fn doctrine_rules_4() -> Seq<RuleView> {
    seq![
        RuleView { name: "visible"@, required: false, kind: KindView::Bool },
        RuleView { name: "parameters"@, required: false, kind: KindView::Block },
        RuleView { name: "piety_cost"@, required: false, kind: KindView::Any },
        RuleView { name: "is_shown"@, required: false, kind: KindView::Trigger },
        RuleView { name: "can_pick"@, required: false, kind: KindView::Trigger },
        RuleView { name: "character_modifier"@, required: false, kind: KindView::Block },
        RuleView { name: "clergy_modifier"@, required: false, kind: KindView::Block },
        RuleView { name: "doctrine_character_modifier"@, required: false, kind: KindView::Block },
        RuleView { name: "traits"@, required: false, kind: KindView::Block },
    ]
}

/// The fields the doctrine knows.
pub open spec fn doctrine_known() -> Seq<RuleView> {
    doctrine_rules_1() + doctrine_rules_2() + doctrine_rules_3() + doctrine_rules_4()
}

/// The reports on the doctrine `key` defined by `block`: its `icon`, the file of its icon (its
/// `icon`, else its key, with `.dds`) in `icon_dir` among the `files` of `game`, its `name` (else
/// the localization of its key and `_name`), its `desc` (else the localization of its key and
/// `_desc`), its fields as [`doctrine_rules_1`] and the parts after it have them, and the fields it
/// does not know.
pub open spec fn doctrine_reports(
    key: Token,
    block: Block,
    db: Db,
    files: Seq<FileEntry>,
    game: Game,
    icon_dir: Option<Seq<char>>,
) -> Seq<ReportView> {
    rules_reports(doctrine_rules_1(), block, db)
        + icon_reports(files, game, icon_dir, icon_or_key(block, key), ".dds"@)
        + rules_reports(doctrine_rules_2(), block, db)
        + (if block_has_key(block, "name"@) {
            Seq::empty()
        } else {
            item_reports(db, Item::Localization, key.s@ + "_name"@, key.loc)
        })
        + rules_reports(doctrine_rules_3(), block, db)
        + (if block_has_key(block, "desc"@) {
            Seq::empty()
        } else {
            item_reports(db, Item::Localization, key.s@ + "_desc"@, key.loc)
        })
        + rules_reports(doctrine_rules_4(), block, db)
        + unknown_field_reports(doctrine_known(), block.v@)
}

/// The files that checking the doctrine marks as used.
pub open spec fn doctrine_files(
    key: Token,
    block: Block,
    icon_dir: Option<Seq<char>>,
) -> Set<Seq<char>> {
    icon_names(icon_dir, icon_or_key(block, key).s@, ".dds"@)
}

impl Doctrine {
    /// Checks the doctrine `key` defined by `block`, as [`doctrine_reports`] says, with
    /// `fs` the file set and `icon_dir` the directory of doctrine icons (the game's define
    /// `NGameIcons|DOCTRINE_TYPE_ICON_PATH`), if known; the files looked up are marked as used.
    pub fn validate(key: &Token, block: &Block, db: &Db, fs: &mut Fileset, icon_dir: Option<&str>) -> (r: Vec<Report>)
        requires
            db.wf(),
            old(fs).wf(),
        ensures
            final(fs).wf(),
            marked_more(*old(fs), *final(fs), doctrine_files(*key, *block, opt_text(icon_dir))),
            views(r@) == doctrine_reports(*key, *block, *db, old(fs).spec_files(), old(fs).spec_game(), opt_text(icon_dir)),
    {
        let mut out: Vec<Report> = Vec::new();
        let ghost f0 = *fs;
        let r1 = vec![
            FieldRule { name: "icon", required: false, kind: FieldKind::Value },
        ];
        assert(rules_view(r1@) =~= doctrine_rules_1());
        append_reports(&mut out, check_rules(block, db, &r1));
        let icon = match block.get_field_value("icon") {
            Some(t) => t,
            None => key,
        };
        append_reports(&mut out, check_icon(fs, icon_dir, icon, ".dds"));
        let r2 = vec![
            FieldRule { name: "name", required: false, kind: FieldKind::Any },
        ];
        assert(rules_view(r2@) =~= doctrine_rules_2());
        append_reports(&mut out, check_rules(block, db, &r2));
        if !block.has_key("name") {
            proof {
                reveal_strlit("");
                assert(""@ + key.s@ + "_name"@ =~= key.s@ + "_name"@);
            }
            check_loca(db, "", key, "_name", &mut out);
        }
        let r3 = vec![
            FieldRule { name: "desc", required: false, kind: FieldKind::Any },
        ];
        assert(rules_view(r3@) =~= doctrine_rules_3());
        append_reports(&mut out, check_rules(block, db, &r3));
        if !block.has_key("desc") {
            proof {
                reveal_strlit("");
                assert(""@ + key.s@ + "_desc"@ =~= key.s@ + "_desc"@);
            }
            check_loca(db, "", key, "_desc", &mut out);
        }
        let r4 = vec![
            FieldRule { name: "visible", required: false, kind: FieldKind::Bool },
            FieldRule { name: "parameters", required: false, kind: FieldKind::Block },
            FieldRule { name: "piety_cost", required: false, kind: FieldKind::Any },
            FieldRule { name: "is_shown", required: false, kind: FieldKind::Trigger },
            FieldRule { name: "can_pick", required: false, kind: FieldKind::Trigger },
            FieldRule { name: "character_modifier", required: false, kind: FieldKind::Block },
            FieldRule { name: "clergy_modifier", required: false, kind: FieldKind::Block },
            FieldRule { name: "doctrine_character_modifier", required: false, kind: FieldKind::Block },
            FieldRule { name: "traits", required: false, kind: FieldKind::Block },
        ];
        assert(rules_view(r4@) =~= doctrine_rules_4());
        append_reports(&mut out, check_rules(block, db, &r4));
        let mut known: Vec<FieldRule> = Vec::new();
        extend_rules(&mut known, &r1);
        extend_rules(&mut known, &r2);
        extend_rules(&mut known, &r3);
        extend_rules(&mut known, &r4);
        assert(rules_view(known@) =~= doctrine_known());
        append_reports(&mut out, check_unknown(block, &known));
        assert(fs.spec_used() =~= f0.spec_used().union(doctrine_files(*key, *block, opt_text(icon_dir))));
        out
    }
}

} // verus!
