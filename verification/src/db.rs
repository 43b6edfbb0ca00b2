//! The database of script items: each item is a block of script defined
//! under a key, and some items only exist as flags, without a block.

use vstd::prelude::*;

use crate::block::{assignments, last_field_block, same_block, Block};
use crate::text::lower_seq;
use crate::token::Token;

verus! {

/// The kinds of items that the database holds.
#[derive(Clone, Copy, Debug, PartialEq, Eq, Structural)]
pub enum Item {
    AceModifier,
    Achievement,
    AchievementGroup,
    AdvisorSlot,
    AgentType,
    AiArea,
    AiStrategyType,
    ArtifactBlueprint,
    ArtifactFeature,
    ArtifactFeatureGroup,
    ArtifactSlot,
    ArtifactSlotType,
    ArtifactTemplate,
    ArtifactType,
    ArtifactVisual,
    ArtistType,
    Asset,
    BooleanHouseHeadParameter,
    BooleanHousePowerParameter,
    Building,
    BuildingCategory,
    CasusBelli,
    CasusBelliGroup,
    Character,
    CharacterInteraction,
    CharacterTemplate,
    CohesionLevelParameter,
    ConfederationType,
    ConnectionArrow,
    Countermeasure,
    CountermeasureParameter,
    Country,
    CountryLeaderTrait,
    CountryTag,
    CourtSceneCulture,
    CourtSceneGroup,
    CourtSceneRole,
    CourtSceneSetting,
    Culture,
    CultureHeritage,
    Decision,
    DlcFeature,
    Doctrine,
    DoctrineBooleanParameter,
    DoctrineGroup,
    DoctrineParameter,
    DomicileBuilding,
    DomicileParameter,
    DomicileType,
    DynamicModifier,
    Dynasty,
    DynastyLegacy,
    DynastyPerk,
    Equipment,
    EquipmentCategory,
    GameConcept,
    GovernmentFlag,
    GovernmentType,
    GraphicalUnitType,
    GreatProjectType,
    HoldingType,
    House,
    HouseAspiration,
    HouseUnity,
    InsultType,
    IntelligenceAgencyBranch,
    Law,
    LawGroup,
    Localization,
    MapMode,
    Mission,
    ModifierTypeDefinition,
    NationalFocus,
    NationalFocusStyle,
    NationalFocusTree,
    Operation,
    PortraitCamera,
    ProjectContribution,
    Province,
    Region,
    Religion,
    RulerObjectiveType,
    Scheme,
    SchemePulseAction,
    ScriptValue,
    ScriptedCost,
    ScriptedEffect,
    ScriptedGui,
    ScriptedTrigger,
    Skill,
    Sound,
    Sprite,
    State,
    StrategicRegion,
    SubUnit,
    SubjectContractGroup,
    TableStyle,
    TaxSlotType,
    Technology,
    Title,
    Trait,
    TriggerLocalization,
    TutorialLesson,
    UnitGfx,
}

/// An entry of the database: the kind of item, its key and its block.
pub type DbEntry = (Item, Token, Block);

/// The name under which an entry is found: its kind and the text of its key.
pub open spec fn entry_name(e: DbEntry) -> (Item, Seq<char>) {
    (e.0, e.1.s@)
}

/// The key and block of the last entry of `s` named `k`.
pub open spec fn lookup_last(s: Seq<DbEntry>, k: (Item, Seq<char>)) -> Option<(Token, Block)>
    decreases s.len(),
{
    if s.len() == 0 {
        None
    } else if entry_name(s.last()) == k {
        Some((s.last().1, s.last().2))
    } else {
        lookup_last(s.drop_last(), k)
    }
}

/// Whether no two entries of `s` have the same name.
pub open spec fn unique_names(s: Seq<DbEntry>) -> bool {
    forall|i: int, j: int| 0 <= i < j < s.len() ==> entry_name(#[trigger] s[i]) != entry_name(#[trigger] s[j])
}

/// The entries of `s` as a map from names to keys and blocks.
pub open spec fn entries_map(s: Seq<DbEntry>) -> Map<(Item, Seq<char>), (Token, Block)> {
    Map::new(|k: (Item, Seq<char>)| lookup_last(s, k) is Some, |k: (Item, Seq<char>)| lookup_last(s, k)->0)
}

proof fn lemma_lookup_none(s: Seq<DbEntry>, k: (Item, Seq<char>))
    ensures
        lookup_last(s, k) is None <==> forall|i: int| 0 <= i < s.len() ==> entry_name(#[trigger] s[i]) != k,
    decreases s.len(),
{
    if s.len() > 0 {
        lemma_lookup_none(s.drop_last(), k);
        if lookup_last(s, k) is None {
            assert forall|i: int| 0 <= i < s.len() implies entry_name(#[trigger] s[i]) != k by {
                if i < s.len() - 1 {
                    assert(s.drop_last()[i] == s[i]);
                }
            }
        } else if entry_name(s.last()) != k {
            let j = choose|j: int| 0 <= j < s.drop_last().len() && entry_name(#[trigger] s.drop_last()[j]) == k;
            assert(s[j] == s.drop_last()[j]);
        }
    }
}

proof fn lemma_lookup_at(s: Seq<DbEntry>, i: int)
    requires
        unique_names(s),
        0 <= i < s.len(),
    ensures
        lookup_last(s, entry_name(s[i])) == Some((s[i].1, s[i].2)),
    decreases s.len(),
{
    if i < s.len() - 1 {
        assert(entry_name(s.last()) != entry_name(s[i]));
        assert(s.drop_last()[i] == s[i]);
        lemma_lookup_at(s.drop_last(), i);
    }
}

/// The items of the game and the mod, by kind and key, and the items that
/// only exist as flags.
#[derive(Debug)]
pub struct Db {
    entries: Vec<DbEntry>,
    flags: Vec<(Item, Token)>,
}

impl View for Db {
    type V = Map<(Item, Seq<char>), (Token, Block)>;

    closed spec fn view(&self) -> Self::V {
        entries_map(self.entries@)
    }
}

impl Db {
    /// The entries, in the order they were first added.
    pub closed spec fn spec_entries(&self) -> Seq<DbEntry> {
        self.entries@
    }

    /// The names of the items that exist as flags.
    pub closed spec fn spec_flags(&self) -> Set<(Item, Seq<char>)> {
        Set::new(
            |k: (Item, Seq<char>)|
                exists|i: int| 0 <= i < self.flags@.len() && (#[trigger] self.flags@[i]).0 == k.0 && self.flags@[i].1.s@ == k.1,
        )
    }

    /// The invariant: one entry per name.
    pub closed spec fn wf(&self) -> bool {
        unique_names(self.entries@)
    }

    /// The entries hold exactly what the map view says.
    pub proof fn lemma_entries_view(&self)
        requires
            self.wf(),
        ensures
            self.spec_entries().len() == self@.dom().len(),
            forall|i: int|
                0 <= i < self.spec_entries().len() ==> self@.contains_key(entry_name(#[trigger] self.spec_entries()[i]))
                    && self@[entry_name(self.spec_entries()[i])] == (self.spec_entries()[i].1, self.spec_entries()[i].2),
            forall|k: (Item, Seq<char>)|
                #[trigger] self@.contains_key(k) ==> exists|i: int| 0 <= i < self.spec_entries().len() && entry_name(#[trigger] self.spec_entries()[i]) == k,
    {
        let s = self.entries@;
        assert forall|i: int| 0 <= i < s.len() implies self@.contains_key(entry_name(#[trigger] s[i])) && self@[entry_name(s[i])] == (s[i].1, s[i].2) by {
            lemma_lookup_at(s, i);
        }
        assert forall|k: (Item, Seq<char>)| #[trigger] self@.contains_key(k) implies exists|i: int| 0 <= i < s.len() && entry_name(#[trigger] s[i]) == k by {
            lemma_lookup_none(s, k);
        }
        let names = s.map_values(|e: DbEntry| entry_name(e));
        assert(self@.dom() =~= names.to_set()) by {
            assert forall|k: (Item, Seq<char>)| self@.dom().contains(k) implies names.to_set().contains(k) by {
                let i = choose|i: int| 0 <= i < s.len() && entry_name(#[trigger] s[i]) == k;
                assert(names[i] == k);
            }
            assert forall|k: (Item, Seq<char>)| names.to_set().contains(k) implies self@.dom().contains(k) by {
                let i = choose|i: int| 0 <= i < names.len() && names[i] == k;
                lemma_lookup_at(s, i);
            }
        }
        assert(names.no_duplicates()) by {
            assert forall|i: int, j: int| 0 <= i < names.len() && 0 <= j < names.len() && i != j implies names[i] != names[j] by {
                if i < j {
                    assert(entry_name(s[i]) != entry_name(s[j]));
                } else {
                    assert(entry_name(s[j]) != entry_name(s[i]));
                }
            }
        }
        names.unique_seq_to_set();
    }

    /// An empty database.
    pub fn new() -> (r: Db)
        ensures
            r.wf(),
            r@ == Map::<(Item, Seq<char>), (Token, Block)>::empty(),
            r.spec_flags() == Set::<(Item, Seq<char>)>::empty(),
    {
        let r = Db { entries: Vec::new(), flags: Vec::new() };
        assert(r@ =~= Map::<(Item, Seq<char>), (Token, Block)>::empty());
        assert(r.spec_flags() =~= Set::<(Item, Seq<char>)>::empty());
        r
    }

    /// The place of the entry named `item` and `key`, if there is one.
    fn find(&self, item: Item, key: &str) -> (r: Option<usize>)
        ensures
            match r {
                Some(i) => i < self.entries@.len() && entry_name(self.entries@[i as int]) == (item, key@),
                None => forall|i: int| 0 <= i < self.entries@.len() ==> entry_name(#[trigger] self.entries@[i]) != (item, key@),
            },
    {
        let mut i: usize = 0;
        while i < self.entries.len()
            invariant
                i <= self.entries@.len(),
                forall|j: int| 0 <= j < i ==> entry_name(#[trigger] self.entries@[j]) != (item, key@),
            decreases self.entries@.len() - i,
        {
            let e = &self.entries[i];
            if e.0 == item && crate::text::str_eq(e.1.s.as_str(), key) {
                return Some(i);
            }
            i = i + 1;
        }
        None
    }

    /// Adds the item `key` of kind `item`, defined by `block`; it replaces an
    /// item of the same kind and key added before.
    pub fn add(&mut self, item: Item, key: Token, block: Block)
        requires
            old(self).wf(),
        ensures
            final(self).wf(),
            final(self)@ == old(self)@.insert((item, key.s@), (key, block)),
            final(self).spec_flags() == old(self).spec_flags(),
    {
        let ghost s = self.entries@;
        let ghost k = (item, key.s@);
        let ghost x: DbEntry = (item, key, block);
        match self.find(item, key.s.as_str()) {
            Some(i) => {
                self.entries.set(i, (item, key, block));
                proof {
                    let t = self.entries@;
                    assert(t == s.update(i as int, x));
                    assert(unique_names(t)) by {
                        assert forall|a: int, b: int| 0 <= a < b < t.len() implies entry_name(#[trigger] t[a]) != entry_name(#[trigger] t[b]) by {
                            assert(entry_name(t[a]) == entry_name(s[a]));
                            assert(entry_name(t[b]) == entry_name(s[b]));
                        }
                    }
                    assert forall|q: (Item, Seq<char>)| lookup_last(t, q) == (if q == k { Some((x.1, x.2)) } else { lookup_last(s, q) }) by {
                        if q == k {
                            lemma_lookup_at(t, i as int);
                        } else {
                            lemma_lookup_none(s, q);
                            lemma_lookup_none(t, q);
                            if lookup_last(s, q) is Some {
                                let j = choose|j: int| 0 <= j < s.len() && entry_name(#[trigger] s[j]) == q;
                                lemma_lookup_at(s, j);
                                lemma_lookup_at(t, j);
                            }
                        }
                    }
                    assert(self@ =~= old(self)@.insert(k, (x.1, x.2)));
                }
            },
            None => {
                self.entries.push((item, key, block));
                proof {
                    let t = self.entries@;
                    assert(t.drop_last() =~= s);
                    assert(unique_names(t)) by {
                        assert forall|a: int, b: int| 0 <= a < b < t.len() implies entry_name(#[trigger] t[a]) != entry_name(#[trigger] t[b]) by {
                            if b < s.len() {
                                assert(t[a] == s[a]);
                                assert(t[b] == s[b]);
                            } else {
                                assert(t[a] == s[a]);
                                assert(entry_name(s[a]) != k);
                            }
                        }
                    }
                    assert(self@ =~= old(self)@.insert(k, (x.1, x.2)));
                }
            },
        }
    }

    /// Adds the flag `key` of kind `item`: an item without a block.
    pub fn add_flag(&mut self, item: Item, key: Token)
        ensures
            final(self).wf() == old(self).wf(),
            final(self)@ == old(self)@,
            final(self).spec_entries() == old(self).spec_entries(),
            final(self).spec_flags() == old(self).spec_flags().insert((item, key.s@)),
    {
        let ghost before = self.flags@;
        let ghost k = (item, key.s@);
        self.flags.push((item, key));
        proof {
            assert forall|q: (Item, Seq<char>)| #[trigger] self.spec_flags().contains(q) <==> old(self).spec_flags().insert(k).contains(q) by {
                if old(self).spec_flags().contains(q) {
                    let j = choose|j: int| 0 <= j < before.len() && (#[trigger] before[j]).0 == q.0 && before[j].1.s@ == q.1;
                    assert(self.flags@[j] == before[j]);
                }
                if self.spec_flags().contains(q) && q != k {
                    let j = choose|j: int| 0 <= j < self.flags@.len() && (#[trigger] self.flags@[j]).0 == q.0 && self.flags@[j].1.s@ == q.1;
                    assert(j < before.len());
                    assert(before[j] == self.flags@[j]);
                }
                if q == k {
                    assert(self.flags@[before.len() as int].0 == q.0);
                }
            }
            assert(self.spec_flags() =~= old(self).spec_flags().insert(k));
        }
    }

    /// Whether an item or a flag of kind `item` and key `key` exists.
    pub fn item_exists(&self, item: Item, key: &str) -> (r: bool)
        requires
            self.wf(),
        ensures
            r == (self@.contains_key((item, key@)) || self.spec_flags().contains((item, key@))),
    {
        let found = self.find(item, key);
        proof {
            lemma_lookup_none(self.entries@, (item, key@));
        }
        if found.is_some() {
            return true;
        }
        let mut i: usize = 0;
        while i < self.flags.len()
            invariant
                i <= self.flags@.len(),
                !self@.contains_key((item, key@)),
                forall|j: int| 0 <= j < i ==> !((#[trigger] self.flags@[j]).0 == item && self.flags@[j].1.s@ == key@),
            decreases self.flags@.len() - i,
        {
            let f = &self.flags[i];
            if f.0 == item && crate::text::str_eq(f.1.s.as_str(), key) {
                return true;
            }
            i = i + 1;
        }
        proof {
            if self.spec_flags().contains((item, key@)) {
                let j = choose|j: int| 0 <= j < self.flags@.len() && (#[trigger] self.flags@[j]).0 == item && self.flags@[j].1.s@ == key@;
                assert(false);
            }
        }
        false
    }

    /// The key and block of the item of kind `item` and key `key`, if there
    /// is one.
    pub fn get_key_block(&self, item: Item, key: &str) -> (r: Option<(&Token, &Block)>)
        requires
            self.wf(),
        ensures
            match r {
                Some(p) => self@.contains_key((item, key@)) && self@[(item, key@)].0 == *p.0
                    && self@[(item, key@)].1 == *p.1,
                None => !self@.contains_key((item, key@)),
            },
    {
        match self.find(item, key) {
            Some(i) => {
                proof {
                    lemma_lookup_at(self.entries@, i as int);
                }
                let e = &self.entries[i];
                assert(self@.contains_key((item, key@)));
                assert(self@[(item, key@)] == (e.1, e.2));
                Some((&e.1, &e.2))
            },
            None => {
                proof {
                    lemma_lookup_none(self.entries@, (item, key@));
                }
                None
            },
        }
    }

    /// The number of items with a block.
    pub fn len(&self) -> (r: usize)
        ensures
            r == self.spec_entries().len(),
    {
        self.entries.len()
    }

    /// The entry at place `i`, in the order the entries were first added.
    pub fn entry_at(&self, i: usize) -> (r: (&Item, &Token, &Block))
        requires
            i < self.spec_entries().len(),
        ensures
            (*r.0, *r.1, *r.2) == self.spec_entries()[i as int],
    {
        let e = &self.entries[i];
        (&e.0, &e.1, &e.2)
    }
}

/// Which values of `key = value` fields make their keys flags.
#[derive(Clone, Copy, Debug, PartialEq, Eq, Structural)]
pub enum ValueFilter {
    /// Every value.
    Any,
    /// `yes` and `no`.
    YesNo,
    /// `yes` and `no`, in any ASCII case.
    YesNoAnyCase,
}

/// Whether the value `v` passes the filter `f`.
pub open spec fn value_passes(v: Token, f: ValueFilter) -> bool {
    match f {
        ValueFilter::Any => true,
        ValueFilter::YesNo => v.s@ == "yes"@ || v.s@ == "no"@,
        ValueFilter::YesNoAnyCase => lower_seq(v.s@) == "yes"@ || lower_seq(v.s@) == "no"@,
    }
}

/// The flags of kind `item` named by the keys of `pairs` whose values pass
/// `f`.
pub open spec fn assignment_flags(item: Item, pairs: Seq<(Token, Token)>, f: ValueFilter) -> Set<
    (Item, Seq<char>),
> {
    Set::new(
        |k: (Item, Seq<char>)|
            k.0 == item && exists|i: int|
                0 <= i < pairs.len() && (#[trigger] pairs[i]).0.s@ == k.1 && value_passes(pairs[i].1, f),
    )
}

/// The flags of kind `item` named by the tokens `toks`.
pub open spec fn token_flags(item: Item, toks: Seq<Token>) -> Set<(Item, Seq<char>)> {
    Set::new(
        |k: (Item, Seq<char>)| k.0 == item && exists|i: int| 0 <= i < toks.len() && (#[trigger] toks[i]).s@ == k.1,
    )
}

/// Adds as flags of kind `item` the keys of the fields `key = value` of
/// `block` whose values pass `f`.
pub fn add_assignment_flags(db: &mut Db, item: Item, block: &Block, f: ValueFilter)
    ensures
        final(db).wf() == old(db).wf(),
        final(db)@ == old(db)@,
        final(db).spec_entries() == old(db).spec_entries(),
        final(db).spec_flags() == old(db).spec_flags().union(assignment_flags(item, assignments(block.v@), f)),
{
    let pairs = block.iter_assignments();
    let ghost ps = assignments(block.v@);
    let mut i: usize = 0;
    while i < pairs.len()
        invariant
            i <= pairs@.len(),
            pairs@.len() == ps.len(),
            ps == assignments(block.v@),
            forall|j: int| 0 <= j < pairs@.len() ==> (*(#[trigger] pairs@[j]).0, *pairs@[j].1) == ps[j],
            db.wf() == old(db).wf(),
            db@ == old(db)@,
            db.spec_entries() == old(db).spec_entries(),
            db.spec_flags() == old(db).spec_flags().union(assignment_flags(item, ps.take(i as int), f)),
        decreases pairs@.len() - i,
    {
        let (k, v) = pairs[i];
        assert((*k, *v) == ps[i as int]);
        let pass = match f {
            ValueFilter::Any => true,
            ValueFilter::YesNo => v.is("yes") || v.is("no"),
            ValueFilter::YesNoAnyCase => v.lowercase_is("yes") || v.lowercase_is("no"),
        };
        let ghost before = db.spec_flags();
        if pass {
            db.add_flag(item, k.dup());
        }
        proof {
            let a = assignment_flags(item, ps.take(i as int), f);
            let b = assignment_flags(item, ps.take(i + 1), f);
            assert forall|q: (Item, Seq<char>)| #[trigger] b.contains(q) <==> (a.contains(q) || (pass && q == (item, k.s@))) by {
                if b.contains(q) {
                    let w = choose|w: int| 0 <= w < ps.take(i + 1).len() && (#[trigger] ps.take(i + 1)[w]).0.s@ == q.1 && value_passes(ps.take(i + 1)[w].1, f);
                    if w < i {
                        assert(ps.take(i as int)[w] == ps.take(i + 1)[w]);
                    }
                }
                if a.contains(q) {
                    let w = choose|w: int| 0 <= w < ps.take(i as int).len() && (#[trigger] ps.take(i as int)[w]).0.s@ == q.1 && value_passes(ps.take(i as int)[w].1, f);
                    assert(ps.take(i + 1)[w] == ps.take(i as int)[w]);
                }
                if pass && q == (item, k.s@) {
                    assert(ps.take(i + 1)[i as int] == ps[i as int]);
                }
            }
            assert(db.spec_flags() =~= old(db).spec_flags().union(b));
        }
        i = i + 1;
    }
    assert(ps.take(i as int) =~= ps);
}

/// Adds the tokens `toks` as flags of kind `item`.
pub fn add_token_flags(db: &mut Db, item: Item, toks: &Vec<Token>)
    ensures
        final(db).wf() == old(db).wf(),
        final(db)@ == old(db)@,
        final(db).spec_entries() == old(db).spec_entries(),
        final(db).spec_flags() == old(db).spec_flags().union(token_flags(item, toks@)),
{
    let mut i: usize = 0;
    while i < toks.len()
        invariant
            i <= toks@.len(),
            db.wf() == old(db).wf(),
            db@ == old(db)@,
            db.spec_entries() == old(db).spec_entries(),
            db.spec_flags() == old(db).spec_flags().union(token_flags(item, toks@.take(i as int))),
        decreases toks@.len() - i,
    {
        let t = &toks[i];
        db.add_flag(item, t.dup());
        proof {
            let a = token_flags(item, toks@.take(i as int));
            let b = token_flags(item, toks@.take(i + 1));
            assert forall|q: (Item, Seq<char>)| #[trigger] b.contains(q) <==> (a.contains(q) || q == (item, t.s@)) by {
                if b.contains(q) {
                    let w = choose|w: int| 0 <= w < toks@.take(i + 1).len() && (#[trigger] toks@.take(i + 1)[w]).s@ == q.1;
                    if w < i {
                        assert(toks@.take(i as int)[w] == toks@.take(i + 1)[w]);
                    }
                }
                if a.contains(q) {
                    let w = choose|w: int| 0 <= w < toks@.take(i as int).len() && (#[trigger] toks@.take(i as int)[w]).s@ == q.1;
                    assert(toks@.take(i + 1)[w] == toks@.take(i as int)[w]);
                }
                if q == (item, t.s@) {
                    assert(toks@.take(i + 1)[i as int] == toks@[i as int]);
                }
            }
            assert(db.spec_flags() =~= old(db).spec_flags().union(b));
        }
        i = i + 1;
    }
    assert(toks@.take(i as int) =~= toks@);
}

/// The block whose fields are read in `b`: `b` itself, or the block of its
/// last field named `inner`.
pub open spec fn block_target(b: Block, inner: Option<Seq<char>>) -> Option<Block> {
    match inner {
        None => Some(b),
        Some(n) => last_field_block(b.v@, n),
    }
}

/// The flags of kind `item` named by the keys of the fields `key = value`,
/// with values passing `f`, of the target blocks of `bs`.
pub open spec fn blocks_assignment_flags(
    item: Item,
    bs: Seq<Block>,
    inner: Option<Seq<char>>,
    f: ValueFilter,
) -> Set<(Item, Seq<char>)> {
    Set::new(
        |k: (Item, Seq<char>)|
            exists|j: int|
                0 <= j < bs.len() && (block_target(#[trigger] bs[j], inner) matches Some(t)
                    && assignment_flags(item, assignments(t.v@), f).contains(k)),
    )
}

/// Adds as flags of kind `item` the keys of the fields `key = value`, with
/// values passing `f`, of each block of `bs`, or, where `inner` is given, of
/// the block of its last field named `inner`.
pub fn add_blocks_assignment_flags(
    db: &mut Db,
    item: Item,
    bs: &Vec<&Block>,
    inner: Option<&str>,
    f: ValueFilter,
)
    ensures
        final(db).wf() == old(db).wf(),
        final(db)@ == old(db)@,
        final(db).spec_entries() == old(db).spec_entries(),
        final(db).spec_flags() == old(db).spec_flags().union(
            blocks_assignment_flags(
                item,
                bs@.map_values(|b: &Block| *b),
                match inner {
                    Some(n) => Some(n@),
                    None => None,
                },
                f,
            ),
        ),
{
    let ghost blocks = bs@.map_values(|b: &Block| *b);
    let ghost inn = match inner {
        Some(n) => Some(n@),
        None => None::<Seq<char>>,
    };
    let mut i: usize = 0;
    while i < bs.len()
        invariant
            i <= bs@.len(),
            blocks == bs@.map_values(|b: &Block| *b),
            inn == (match inner {
                Some(n) => Some(n@),
                None => None,
            }),
            db.wf() == old(db).wf(),
            db@ == old(db)@,
            db.spec_entries() == old(db).spec_entries(),
            db.spec_flags() == old(db).spec_flags().union(blocks_assignment_flags(item, blocks.take(i as int), inn, f)),
        decreases bs@.len() - i,
    {
        let b: &Block = bs[i];
        let target: Option<&Block> = match inner {
            Some(n) => b.get_field_block(n),
            None => Some(b),
        };
        let ghost before = db.spec_flags();
        match target {
            Some(t) => {
                add_assignment_flags(db, item, t, f);
            },
            None => {},
        }
        proof {
            let a = blocks_assignment_flags(item, blocks.take(i as int), inn, f);
            let c = blocks_assignment_flags(item, blocks.take(i + 1), inn, f);
            assert(blocks[i as int] == *b);
            assert forall|q: (Item, Seq<char>)| #[trigger] c.contains(q) <==> (a.contains(q) || (
            block_target(*b, inn) matches Some(t) && assignment_flags(item, assignments(t.v@), f).contains(q))) by {
                if c.contains(q) {
                    let w = choose|w: int|
                        0 <= w < blocks.take(i + 1).len() && (block_target(#[trigger] blocks.take(i + 1)[w], inn) matches Some(t)
                            && assignment_flags(item, assignments(t.v@), f).contains(q));
                    if w < i {
                        assert(blocks.take(i as int)[w] == blocks.take(i + 1)[w]);
                    }
                }
                if a.contains(q) {
                    let w = choose|w: int|
                        0 <= w < blocks.take(i as int).len() && (block_target(#[trigger] blocks.take(i as int)[w], inn) matches Some(t)
                            && assignment_flags(item, assignments(t.v@), f).contains(q));
                    assert(blocks.take(i + 1)[w] == blocks.take(i as int)[w]);
                }
                if block_target(*b, inn) matches Some(t) && assignment_flags(item, assignments(t.v@), f).contains(q) {
                    assert(blocks.take(i + 1)[i as int] == *b);
                }
            }
            assert(db.spec_flags() =~= old(db).spec_flags().union(c));
        }
        i = i + 1;
    }
    assert(blocks.take(i as int) =~= blocks);
}

/// `new` is `old` after adding, in order, copies of the entries `ops`: each
/// name of `ops` holds the key and a copy of the block of its last entry in
/// `ops`, and the other names are unchanged.
pub open spec fn db_after_copies(
    old: Map<(Item, Seq<char>), (Token, Block)>,
    new: Map<(Item, Seq<char>), (Token, Block)>,
    ops: Seq<DbEntry>,
) -> bool {
    &&& forall|k: (Item, Seq<char>)| #[trigger] new.contains_key(k) <==> (old.contains_key(k) || lookup_last(ops, k) is Some)
    &&& forall|k: (Item, Seq<char>)|
        #[trigger] lookup_last(ops, k) is Some ==> new[k].0 == (lookup_last(ops, k)->0).0 && same_block(
            (lookup_last(ops, k)->0).1,
            new[k].1,
        )
    &&& forall|k: (Item, Seq<char>)|
        old.contains_key(k) && #[trigger] lookup_last(ops, k) is None ==> new[k] == old[k]
}

proof fn lemma_lookup_single(op: DbEntry, k: (Item, Seq<char>))
    ensures
        lookup_last(seq![op], k) == (if entry_name(op) == k {
            Some((op.1, op.2))
        } else {
            None
        }),
{
    assert(seq![op].drop_last() =~= Seq::<DbEntry>::empty());
    assert(lookup_last(Seq::<DbEntry>::empty(), k) is None);
}

/// Adding one more entry extends [`db_after_copies`].
pub proof fn lemma_after_copies_push(
    m0: Map<(Item, Seq<char>), (Token, Block)>,
    m1: Map<(Item, Seq<char>), (Token, Block)>,
    m2: Map<(Item, Seq<char>), (Token, Block)>,
    ops: Seq<DbEntry>,
    op: DbEntry,
)
    requires
        db_after_copies(m0, m1, ops),
        db_after_copies(m1, m2, seq![op]),
    ensures
        db_after_copies(m0, m2, ops.push(op)),
{
    assert(ops.push(op).drop_last() =~= ops);
    assert(seq![op].drop_last() =~= Seq::<DbEntry>::empty());
    assert forall|k: (Item, Seq<char>)| #[trigger] m2.contains_key(k) <==> (m0.contains_key(k) || lookup_last(ops.push(op), k) is Some) by {
        lemma_lookup_single(op, k);
    }
    assert forall|k: (Item, Seq<char>)| #[trigger] lookup_last(ops.push(op), k) is Some implies m2[k].0 == (lookup_last(ops.push(op), k)->0).0 && same_block((lookup_last(ops.push(op), k)->0).1, m2[k].1) by {
        lemma_lookup_single(op, k);
        if entry_name(op) != k {
            assert(lookup_last(seq![op], k) is None);
            assert(lookup_last(ops, k) is Some);
            assert(m1.contains_key(k));
        }
    }
    assert forall|k: (Item, Seq<char>)| m0.contains_key(k) && #[trigger] lookup_last(ops.push(op), k) is None implies m2[k] == m0[k] by {
        lemma_lookup_single(op, k);
        assert(entry_name(op) != k);
        assert(lookup_last(ops, k) is None);
    }
}

/// Adds the item `key` of kind `item` with a copy of `block`.
pub fn add_copy(db: &mut Db, item: Item, key: Token, block: &Block)
    requires
        old(db).wf(),
    ensures
        final(db).wf(),
        db_after_copies(old(db)@, final(db)@, seq![(item, key, *block)]),
        final(db).spec_flags() == old(db).spec_flags(),
{
    let ghost k = key;
    let c = block.copy();
    let ghost cb = c;
    db.add(item, key, c);
    proof {
        let ops = seq![(item, k, *block)];
        assert(ops.drop_last() =~= Seq::<DbEntry>::empty());
        assert forall|q: (Item, Seq<char>)| #[trigger] lookup_last(ops, q) is Some <==> q == (item, k.s@) by {
            lemma_lookup_single((item, k, *block), q);
        }
    }
}

/// What an addition to the database gives back: the item added is found
/// under its kind and key with its key and block, and every other item is
/// found as before.
pub proof fn law_add_then_get(
    before: Map<(Item, Seq<char>), (Token, Block)>,
    after: Map<(Item, Seq<char>), (Token, Block)>,
    item: Item,
    key: Token,
    block: Block,
)
    requires
        after == before.insert((item, key.s@), (key, block)),
    ensures
        after.contains_key((item, key.s@)),
        after[(item, key.s@)] == (key, block),
        forall|k: (Item, Seq<char>)|
            k != (item, key.s@) ==> (#[trigger] after.contains_key(k) == before.contains_key(k) && (
            before.contains_key(k) ==> after[k] == before[k])),
{
}

} // verus!
