//! The registry of scripted effects.

use vstd::prelude::*;

use crate::block::Block;
use crate::scopes::Scopes;
use crate::text::str_eq;
use crate::token::Token;

verus! {

/// A scripted effect: its name, its definition, and the scopes the
/// configuration gives it, if it gives any.
#[derive(Debug)]
pub struct Effect {
    pub key: Token,
    pub block: Block,
    pub scope_override: Option<Scopes>,
}

impl Effect {
    /// The effect `key`, defined by `block`, with the scopes
    /// `scope_override` from the configuration.
    pub fn new(key: Token, block: Block, scope_override: Option<Scopes>) -> (r: Effect)
        ensures
            r.key == key,
            r.block == block,
            r.scope_override == scope_override,
    {
        Effect { key, block, scope_override }
    }
}

/// The scope overrides among `s`, by name: a later one replaces an earlier
/// one of the same name.
pub open spec fn overrides_map(s: Seq<(Token, Scopes)>) -> Map<Seq<char>, Scopes>
    decreases s.len(),
{
    if s.len() == 0 {
        Map::empty()
    } else {
        overrides_map(s.drop_last()).insert(s.last().0.s@, s.last().1)
    }
}

/// The effects among `s`, by name.
pub open spec fn effects_map(s: Seq<Effect>) -> Map<Seq<char>, Effect>
    decreases s.len(),
{
    if s.len() == 0 {
        Map::empty()
    } else {
        effects_map(s.drop_last()).insert(s.last().key.s@, s.last())
    }
}

/// The effects `m` after loading the effect `key`, defined by `block`, with
/// the scope overrides `overrides`: the new effect replaces one of the same
/// name.
pub open spec fn effects_after_load(
    m: Map<Seq<char>, Effect>,
    overrides: Map<Seq<char>, Scopes>,
    key: Token,
    block: Block,
) -> Map<Seq<char>, Effect> {
    m.insert(
        key.s@,
        Effect {
            key,
            block,
            scope_override: if overrides.contains_key(key.s@) {
                Some(overrides[key.s@])
            } else {
                None
            },
        },
    )
}

/// An effect that was loaded is found under its name with the definition it
/// was loaded with and the scopes the configuration gives its name; every
/// other effect stays as it was.
pub proof fn law_loaded_effect_is_found(
    m: Map<Seq<char>, Effect>,
    overrides: Map<Seq<char>, Scopes>,
    key: Token,
    block: Block,
    other: Seq<char>,
)
    ensures
        effects_after_load(m, overrides, key, block).contains_key(key.s@),
        effects_after_load(m, overrides, key, block)[key.s@].key == key,
        effects_after_load(m, overrides, key, block)[key.s@].block == block,
        overrides.contains_key(key.s@) ==> effects_after_load(m, overrides, key, block)[key.s@].scope_override
            == Some(overrides[key.s@]),
        other != key.s@ ==> (effects_after_load(m, overrides, key, block).contains_key(other) == m.contains_key(other)
            && (m.contains_key(other) ==> effects_after_load(m, overrides, key, block)[other] == m[other])),
{
}

/// Whether no two effects among `s` share a name.
pub open spec fn distinct_names(s: Seq<Effect>) -> bool {
    forall|i: int, j: int| 0 <= i < j < s.len() ==> (#[trigger] s[i]).key.s@ != (#[trigger] s[j]).key.s@
}

/// The scripted effects, with the scope overrides of the configuration.
#[derive(Debug)]
pub struct Effects {
    scope_overrides: Vec<(Token, Scopes)>,
    effects: Vec<Effect>,
}

impl View for Effects {
    type V = Map<Seq<char>, Effect>;

    closed spec fn view(&self) -> Self::V {
        effects_map(self.effects@)
    }
}

/// Each effect among `s` is held in the map under its own name.
proof fn lemma_effects_map_contains(s: Seq<Effect>, i: int)
    requires
        distinct_names(s),
        0 <= i < s.len(),
    ensures
        effects_map(s).contains_key(s[i].key.s@),
        effects_map(s)[s[i].key.s@] == s[i],
    decreases s.len(),
{
    if i < s.len() - 1 {
        lemma_effects_map_contains(s.drop_last(), i);
    }
}

/// An effect in the map is held in the sequence.
proof fn lemma_effects_map_has(s: Seq<Effect>, name: Seq<char>)
    requires
        effects_map(s).contains_key(name),
    ensures
        exists|i: int| 0 <= i < s.len() && (#[trigger] s[i]).key.s@ == name,
    decreases s.len(),
{
    if s.last().key.s@ != name {
        lemma_effects_map_has(s.drop_last(), name);
        let i = choose|i: int| 0 <= i < s.drop_last().len() && (#[trigger] s.drop_last()[i]).key.s@ == name;
        assert(s[i] == s.drop_last()[i]);
    }
}

/// Replacing the effect at `i` by one of the same name replaces it in the map.
proof fn lemma_effects_map_update(s: Seq<Effect>, i: int, e: Effect)
    requires
        distinct_names(s),
        0 <= i < s.len(),
        e.key.s@ == s[i].key.s@,
    ensures
        distinct_names(s.update(i, e)),
        effects_map(s.update(i, e)) == effects_map(s).insert(e.key.s@, e),
    decreases s.len(),
{
    let t = s.update(i, e);
    if i == s.len() - 1 {
        assert(t.drop_last() =~= s.drop_last());
        assert(effects_map(t) =~= effects_map(s).insert(e.key.s@, e));
    } else {
        lemma_effects_map_update(s.drop_last(), i, e);
        assert(t.drop_last() =~= s.drop_last().update(i, e));
        assert(effects_map(t) =~= effects_map(s).insert(e.key.s@, e));
    }
}

impl Effects {
    /// The scope overrides of the configuration, by name.
    pub closed spec fn spec_overrides(&self) -> Map<Seq<char>, Scopes> {
        overrides_map(self.scope_overrides@)
    }

    /// Whether the registry is well formed: no two effects share a name.
    pub closed spec fn wf(&self) -> bool {
        distinct_names(self.effects@)
    }

    /// An empty registry.
    pub fn new() -> (r: Effects)
        ensures
            r.wf(),
            r@ == Map::<Seq<char>, Effect>::empty(),
            r.spec_overrides() == Map::<Seq<char>, Scopes>::empty(),
    {
        Effects { scope_overrides: Vec::new(), effects: Vec::new() }
    }

    /// Gives the effect `name` the scopes `scopes`, for the effects loaded
    /// after this.
    pub fn set_scope_override(&mut self, name: Token, scopes: Scopes)
        requires
            old(self).wf(),
        ensures
            final(self).wf(),
            final(self)@ == old(self)@,
            final(self).spec_overrides() == old(self).spec_overrides().insert(name.s@, scopes),
    {
        self.scope_overrides.push((name, scopes));
        assert(self.scope_overrides@.drop_last() =~= old(self).scope_overrides@);
    }

    /// The scopes the configuration gives the effect `name`, if it gives any.
    pub fn scope_override(&self, name: &str) -> (r: Option<Scopes>)
        ensures
            r == (if self.spec_overrides().contains_key(name@) {
                Some(self.spec_overrides()[name@])
            } else {
                None
            }),
    {
        let mut i: usize = self.scope_overrides.len();
        while i > 0
            invariant
                i <= self.scope_overrides@.len(),
                forall|j: int|
                    #![trigger self.scope_overrides@[j]]
                    i <= j < self.scope_overrides@.len() ==> self.scope_overrides@[j].0.s@ != name@,
            decreases i,
        {
            if str_eq(self.scope_overrides[i - 1].0.s.as_str(), name) {
                proof {
                    lemma_overrides_last(self.scope_overrides@, i as int - 1, name@);
                }
                return Some(self.scope_overrides[i - 1].1);
            }
            i = i - 1;
        }
        proof {
            lemma_overrides_absent(self.scope_overrides@, name@);
        }
        None
    }

    /// Adds the scripted effect `key`, defined by `block`, with the scopes the
    /// configuration gives it; it replaces an effect of the same name.
    pub fn load_item(&mut self, key: Token, block: Block)
        requires
            old(self).wf(),
        ensures
            final(self).wf(),
            final(self).spec_overrides() == old(self).spec_overrides(),
            final(self)@ == effects_after_load(old(self)@, old(self).spec_overrides(), key, block),
    {
        let scope_override = self.scope_override(key.as_str());
        let ghost name = key.s@;
        let ghost want = Effect { key, block, scope_override };
        let e = Effect::new(key, block, scope_override);
        assert(e == want);
        let mut i: usize = 0;
        while i < self.effects.len()
            invariant
                i <= self.effects@.len(),
                self.effects@ == old(self).effects@,
                self.scope_overrides@ == old(self).scope_overrides@,
                distinct_names(self.effects@),
                e.key.s@ == name,
                e == want,
                want == (Effect {
                    key,
                    block,
                    scope_override: if old(self).spec_overrides().contains_key(key.s@) {
                        Some(old(self).spec_overrides()[key.s@])
                    } else {
                        None
                    },
                }),
                forall|j: int| 0 <= j < i ==> (#[trigger] self.effects@[j]).key.s@ != name,
            decreases self.effects@.len() - i,
        {
            if str_eq(self.effects[i].key.s.as_str(), e.key.s.as_str()) {
                proof {
                    lemma_effects_map_update(self.effects@, i as int, e);
                }
                self.effects.set(i, e);
                return;
            }
            i = i + 1;
        }
        let ghost s = self.effects@;
        self.effects.push(e);
        assert(self.effects@.drop_last() =~= s);
    }

    /// Whether a scripted effect `key` is defined.
    pub fn has_effect(&self, key: &str) -> (r: bool)
        requires
            self.wf(),
        ensures
            r == self@.contains_key(key@),
    {
        match self.get(key) {
            Some(_) => true,
            None => false,
        }
    }

    /// The names of the scripted effects, each once, in no promised order.
    pub fn iter_keys(&self) -> (r: Vec<&Token>)
        requires
            self.wf(),
        ensures
            forall|i: int, j: int| 0 <= i < j < r@.len() ==> (#[trigger] r@[i]).s@ != (#[trigger] r@[j]).s@,
            forall|i: int| 0 <= i < r@.len() ==> self@.contains_key((#[trigger] r@[i]).s@),
            forall|name: Seq<char>| self@.contains_key(name) ==> exists|i: int| 0 <= i < r@.len() && (#[trigger] r@[i]).s@ == name,
    {
        let mut r: Vec<&Token> = Vec::new();
        let mut i: usize = 0;
        while i < self.effects.len()
            invariant
                i <= self.effects@.len(),
                r@.len() == i,
                forall|j: int| 0 <= j < i ==> #[trigger] r@[j] == &self.effects@[j].key,
            decreases self.effects@.len() - i,
        {
            r.push(&self.effects[i].key);
            i = i + 1;
        }
        proof {
            assert forall|i: int| 0 <= i < r@.len() implies self@.contains_key((#[trigger] r@[i]).s@) by {
                lemma_effects_map_contains(self.effects@, i);
            }
            assert forall|name: Seq<char>| self@.contains_key(name) implies exists|i: int|
                0 <= i < r@.len() && (#[trigger] r@[i]).s@ == name by {
                lemma_effects_map_has(self.effects@, name);
                let i = choose|i: int| 0 <= i < self.effects@.len() && (#[trigger] self.effects@[i]).key.s@ == name;
                assert(r@[i].s@ == name);
            }
        }
        r
    }

    /// The scripted effect `key`, if it is defined.
    pub fn get(&self, key: &str) -> (r: Option<&Effect>)
        requires
            self.wf(),
        ensures
            match r {
                Some(e) => self@.contains_key(key@) && *e == self@[key@],
                None => !self@.contains_key(key@),
            },
    {
        let mut i: usize = 0;
        while i < self.effects.len()
            invariant
                i <= self.effects@.len(),
                distinct_names(self.effects@),
                forall|j: int| 0 <= j < i ==> (#[trigger] self.effects@[j]).key.s@ != key@,
            decreases self.effects@.len() - i,
        {
            if str_eq(self.effects[i].key.s.as_str(), key) {
                proof {
                    lemma_effects_map_contains(self.effects@, i as int);
                }
                return Some(&self.effects[i]);
            }
            i = i + 1;
        }
        proof {
            if effects_map(self.effects@).contains_key(key@) {
                lemma_effects_map_has(self.effects@, key@);
            }
        }
        None
    }
}

/// The last scope override named `name` is the one the map holds.
proof fn lemma_overrides_last(s: Seq<(Token, Scopes)>, i: int, name: Seq<char>)
    requires
        0 <= i < s.len(),
        s[i].0.s@ == name,
        forall|j: int| #![trigger s[j]] i < j < s.len() ==> s[j].0.s@ != name,
    ensures
        overrides_map(s).contains_key(name),
        overrides_map(s)[name] == s[i].1,
    decreases s.len(),
{
    if i < s.len() - 1 {
        lemma_overrides_last(s.drop_last(), i, name);
        assert(s.drop_last()[i] == s[i]);
    }
}

/// A name no scope override has is not in the map.
proof fn lemma_overrides_absent(s: Seq<(Token, Scopes)>, name: Seq<char>)
    requires
        forall|j: int| #![trigger s[j]] 0 <= j < s.len() ==> s[j].0.s@ != name,
    ensures
        !overrides_map(s).contains_key(name),
    decreases s.len(),
{
    if s.len() > 0 {
        lemma_overrides_absent(s.drop_last(), name);
    }
}

} // verus!
