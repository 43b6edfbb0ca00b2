//! Game concepts.

use vstd::prelude::*;

use crate::block::{last_field_block, loose_values, Block};
use crate::db::{add_token_flags, token_flags, Db, Item};
use crate::token::Token;

use crate::validator::{append_reports, check_icon, check_loca, check_rules, check_unknown, extend_rules, icon_names, icon_reports, marked_more, rules_reports, rules_view, unknown_field_reports, FieldKind, FieldRule, KindView, RuleView};
use crate::defines::item_reports;
use crate::files::fileset::{FileEntry, Fileset};
use crate::game::Game;
use crate::report::{views, Report, ReportView};
use crate::block::{last_field_value, BlockItem};
use crate::defines::check_item;
use crate::text::{push_str, string_from_chars};
verus! {

/// The game concept items.
#[derive(Clone, Debug)]
pub struct GameConcept {}

impl GameConcept {
    /// Adds the game concept `key`, defined by `block`, to the database.
    pub fn add(db: &mut Db, key: Token, block: Block)
        requires
            old(db).wf(),
        ensures
            final(db).wf(),
            final(db)@ == old(db)@.insert((Item::GameConcept, key.s@), (key, block)),
            final(db).spec_flags() == old(db).spec_flags(),
    {
        db.add(Item::GameConcept, key, block);
    }
}

impl GameConcept {
    /// Adds the tokens of the concept's `alias` list as game concepts.
    pub fn add_subitems(&self, _key: &Token, block: &Block, db: &mut Db)
        ensures
            final(db).wf() == old(db).wf(),
            final(db)@ == old(db)@,
            final(db).spec_entries() == old(db).spec_entries(),
            final(db).spec_flags() == (match last_field_block(block.v@, "alias"@) {
                Some(b) => old(db).spec_flags().union(token_flags(Item::GameConcept, loose_values(b.v@))),
                None => old(db).spec_flags(),
            }),
    {
        if let Some(list) = block.get_field_list("alias") {
            add_token_flags(db, Item::GameConcept, &list);
        }
    }
}

/// Rules for the fields of the game concept, part 1.
pub open spec fn game_concept_rules_1() -> Seq<RuleView> {
    seq![
        RuleView { name: "texture"@, required: false, kind: KindView::Value },
    ]
}

/// Rules for the fields of the game concept, part 2.
pub open spec fn game_concept_rules_2() -> Seq<RuleView> {
    seq![
        RuleView { name: "alias"@, required: false, kind: KindView::Any },
        RuleView { name: "shown_in_loading_screen"@, required: false, kind: KindView::Bool },
        RuleView { name: "family"@, required: false, kind: KindView::Choice(seq!["good"@, "tax_base"@, "religion"@, "culture"@, "food"@, "integration_status"@, "combat"@, "dice"@, "cabinet"@, "market"@, "mercenary"@, "trait"@, "role"@, "location_rank"@, "ability"@]) },
        RuleView { name: "tooltip_map_mode"@, required: false, kind: KindView::Item(Item::MapMode) },
        RuleView { name: "tutorial_lesson"@, required: false, kind: KindView::Item(Item::TutorialLesson) },
    ]
}

/// The fields the game concept knows.
pub open spec fn game_concept_known() -> Seq<RuleView> {
    game_concept_rules_1() + game_concept_rules_2()
}

/// The reports on the `alias` fields among `items`: each alias needs the
/// localization `loca` of its concept, and is reported where it stands.
pub open spec fn alias_reports(items: Seq<BlockItem>, db: Db, loca: Seq<char>) -> Seq<ReportView>
    decreases items.len(),
{
    if items.len() == 0 {
        Seq::empty()
    } else {
        alias_reports(items.drop_last(), db, loca) + match items.last() {
            BlockItem::Field(k, _) => if k.s@ == "alias"@ {
                item_reports(db, Item::Localization, loca, k.loc)
            } else {
                Seq::empty()
            },
            _ => Seq::empty(),
        }
    }
}

/// Checks the `alias` fields of `b`, as [`alias_reports`] says.
fn check_aliases(b: &Block, db: &Db, loca: &str) -> (r: Vec<Report>)
    requires
        db.wf(),
    ensures
        views(r@) == alias_reports(b.v@, *db, loca@),
{
    let mut out: Vec<Report> = Vec::new();
    let mut i: usize = 0;
    while i < b.v.len()
        invariant
            i <= b.v@.len(),
            db.wf(),
            views(out@) == alias_reports(b.v@.take(i as int), *db, loca@),
        decreases b.v@.len() - i,
    {
        assert(b.v@.take(i + 1).drop_last() =~= b.v@.take(i as int));
        assert(b.v@.take(i + 1).last() == b.v@[i as int]);
        match &b.v[i] {
            BlockItem::Field(k, _) => {
                if k.is("alias") {
                    check_item(db, Item::Localization, loca, k.loc, &mut out);
                }
            },
            _ => {},
        }
        i = i + 1;
    }
    assert(b.v@.take(b.v@.len() as int) =~= b.v@);
    out
}

/// The reports on the game concept `key` defined by `block`: its localization (`game_concept_` with
/// its key, and with `_desc` after it), its `texture` and the file it names in
/// `gfx/interface/icons` with `.dds` among the `files` of `game`, its aliases as
/// [`alias_reports`] has them, its fields as [`game_concept_rules_1`] and the parts after it have
/// them, and the fields it does not know.
pub open spec fn game_concept_reports(
    key: Token,
    block: Block,
    db: Db,
    files: Seq<FileEntry>,
    game: Game,
) -> Seq<ReportView> {
    item_reports(db, Item::Localization, "game_concept_"@ + key.s@, key.loc)
        + item_reports(db, Item::Localization, "game_concept_"@ + key.s@ + "_desc"@, key.loc)
        + rules_reports(game_concept_rules_1(), block, db)
        + match last_field_value(block.v@, "texture"@) {
            Some(t) => icon_reports(files, game, Some("gfx/interface/icons"@), t, ".dds"@),
            None => Seq::empty(),
        }
        + alias_reports(block.v@, db, "game_concept_"@ + key.s@)
        + rules_reports(game_concept_rules_2(), block, db)
        + unknown_field_reports(game_concept_known(), block.v@)
}

/// The files that checking the game concept marks as used.
pub open spec fn game_concept_files(key: Token, block: Block) -> Set<Seq<char>> {
    match last_field_value(block.v@, "texture"@) {
        Some(t) => icon_names(Some("gfx/interface/icons"@), t.s@, ".dds"@),
        None => Set::empty(),
    }
}

impl GameConcept {
    /// Checks the game concept `key` defined by `block`, as [`game_concept_reports`] says, with
    /// `fs` the file set; the files looked up are marked as used.
    pub fn validate(key: &Token, block: &Block, db: &Db, fs: &mut Fileset) -> (r: Vec<Report>)
        requires
            db.wf(),
            old(fs).wf(),
        ensures
            final(fs).wf(),
            marked_more(*old(fs), *final(fs), game_concept_files(*key, *block)),
            views(r@) == game_concept_reports(*key, *block, *db, old(fs).spec_files(), old(fs).spec_game()),
    {
        let ch0 = vec!["good", "tax_base", "religion", "culture", "food", "integration_status", "combat", "dice", "cabinet", "market", "mercenary", "trait", "role", "location_rank", "ability"];
        assert(ch0@.map_values(|c: &str| c@) =~= seq!["good"@, "tax_base"@, "religion"@, "culture"@, "food"@, "integration_status"@, "combat"@, "dice"@, "cabinet"@, "market"@, "mercenary"@, "trait"@, "role"@, "location_rank"@, "ability"@]);
        let mut out: Vec<Report> = Vec::new();
        let ghost f0 = *fs;
        proof {
            reveal_strlit("");
            assert("game_concept_"@ + key.s@ + ""@ =~= "game_concept_"@ + key.s@);
        }
        check_loca(db, "game_concept_", key, "", &mut out);
        check_loca(db, "game_concept_", key, "_desc", &mut out);
        let r1 = vec![
            FieldRule { name: "texture", required: false, kind: FieldKind::Value },
        ];
        assert(rules_view(r1@) =~= game_concept_rules_1());
        append_reports(&mut out, check_rules(block, db, &r1));
        match block.get_field_value("texture") {
            Some(t) => append_reports(&mut out, check_icon(fs, Some("gfx/interface/icons"), t, ".dds")),
            None => {},
        }
        let mut loca: Vec<char> = Vec::new();
        push_str(&mut loca, "game_concept_");
        push_str(&mut loca, key.as_str());
        let loca = string_from_chars(loca.as_slice());
        append_reports(&mut out, check_aliases(block, db, loca.as_str()));
        let r2 = vec![
            FieldRule { name: "alias", required: false, kind: FieldKind::Any },
            FieldRule { name: "shown_in_loading_screen", required: false, kind: FieldKind::Bool },
            FieldRule { name: "family", required: false, kind: FieldKind::Choice(ch0) },
            FieldRule { name: "tooltip_map_mode", required: false, kind: FieldKind::Item(Item::MapMode) },
            FieldRule { name: "tutorial_lesson", required: false, kind: FieldKind::Item(Item::TutorialLesson) },
        ];
        assert(rules_view(r2@) =~= game_concept_rules_2());
        append_reports(&mut out, check_rules(block, db, &r2));
        let mut known: Vec<FieldRule> = Vec::new();
        extend_rules(&mut known, &r1);
        extend_rules(&mut known, &r2);
        assert(rules_view(known@) =~= game_concept_known());
        append_reports(&mut out, check_unknown(block, &known));
        assert(fs.spec_used() =~= f0.spec_used().union(game_concept_files(*key, *block)));
        out
    }
}

} // verus!
