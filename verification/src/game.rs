//! Which game is being validated, and sets of games for which something is
//! intended.

use vstd::prelude::*;

verus! {

/// A game that can be validated.
#[derive(Clone, Copy, Debug, PartialEq, Eq, Structural)]
pub enum Game {
    Ck3,
    Vic3,
    Imperator,
    Eu5,
    Hoi4,
}

impl Game {
    /// Whether the game is built on the Jomini engine (all but Hearts of
    /// Iron 4).
    pub fn is_jomini(self) -> (r: bool)
        ensures
            r == (self != Game::Hoi4),
    {
        !matches!(self, Game::Hoi4)
    }

    /// Whether the game is Hearts of Iron 4.
    pub fn is_hoi4(self) -> (r: bool)
        ensures
            r == (self == Game::Hoi4),
    {
        matches!(self, Game::Hoi4)
    }

    /// Whether the game is Crusader Kings 3.
    pub fn is_ck3(self) -> (r: bool)
        ensures
            r == (self == Game::Ck3),
    {
        matches!(self, Game::Ck3)
    }

    /// Whether the game is Victoria 3.
    pub fn is_vic3(self) -> (r: bool)
        ensures
            r == (self == Game::Vic3),
    {
        matches!(self, Game::Vic3)
    }

    /// Whether the game is Imperator: Rome.
    pub fn is_imperator(self) -> (r: bool)
        ensures
            r == (self == Game::Imperator),
    {
        matches!(self, Game::Imperator)
    }
}

/// The flag bit of each game.
pub open spec fn game_bit(g: Game) -> u8 {
    match g {
        Game::Ck3 => 0x01,
        Game::Vic3 => 0x02,
        Game::Imperator => 0x04,
        Game::Eu5 => 0x08,
        Game::Hoi4 => 0x10,
    }
}

/// A set of games, one bit each, independent of the game being validated,
/// so that using something in the wrong game can be reported.
#[derive(Clone, Copy, Debug, PartialEq, Eq, Structural)]
pub struct GameFlags {
    pub bits: u8,
}

/// The bits that name games.
pub open spec fn all_game_bits() -> u8 {
    0x1f
}

impl GameFlags {
    /// Whether every game of `other` is in this set.
    pub open spec fn spec_contains(self, other: GameFlags) -> bool {
        self.bits & other.bits == other.bits
    }

    /// The set of just Crusader Kings 3.
    pub fn ck3() -> (r: GameFlags)
        ensures
            r.bits == game_bit(Game::Ck3),
    {
        GameFlags { bits: 0x01 }
    }

    /// The set of just Victoria 3.
    pub fn vic3() -> (r: GameFlags)
        ensures
            r.bits == game_bit(Game::Vic3),
    {
        GameFlags { bits: 0x02 }
    }

    /// The set of just Imperator: Rome.
    pub fn imperator() -> (r: GameFlags)
        ensures
            r.bits == game_bit(Game::Imperator),
    {
        GameFlags { bits: 0x04 }
    }

    /// The set of just Europa Universalis 5.
    pub fn eu5() -> (r: GameFlags)
        ensures
            r.bits == game_bit(Game::Eu5),
    {
        GameFlags { bits: 0x08 }
    }

    /// The set of just Hearts of Iron 4.
    pub fn hoi4() -> (r: GameFlags)
        ensures
            r.bits == game_bit(Game::Hoi4),
    {
        GameFlags { bits: 0x10 }
    }

    /// The set of all games.
    pub fn all() -> (r: GameFlags)
        ensures
            r.bits == all_game_bits(),
    {
        GameFlags { bits: 0x1f }
    }

    /// The games of both sets.
    pub fn union(self, other: GameFlags) -> (r: GameFlags)
        ensures
            r.bits == self.bits | other.bits,
    {
        GameFlags { bits: self.bits | other.bits }
    }

    /// Whether every game of `other` is in this set.
    pub fn contains(self, other: GameFlags) -> (r: bool)
        ensures
            r == self.spec_contains(other),
    {
        self.bits & other.bits == other.bits
    }

    /// The games of the Jomini engine: all but Hearts of Iron 4.
    pub fn jomini() -> (r: GameFlags)
        ensures
            r.bits == game_bit(Game::Ck3) | game_bit(Game::Vic3) | game_bit(Game::Imperator)
                | game_bit(Game::Eu5),
    {
        GameFlags::ck3().union(GameFlags::vic3()).union(GameFlags::imperator()).union(
            GameFlags::eu5(),
        )
    }

    /// The set of just the given game.
    pub fn from_game(game: Game) -> (r: GameFlags)
        ensures
            r.bits == game_bit(game),
    {
        match game {
            Game::Ck3 => GameFlags::ck3(),
            Game::Vic3 => GameFlags::vic3(),
            Game::Imperator => GameFlags::imperator(),
            Game::Eu5 => GameFlags::eu5(),
            Game::Hoi4 => GameFlags::hoi4(),
        }
    }

    /// The names of the games in the set, as "A", "A and B", or "A, B and
    /// C", in the order Crusader Kings 3, Victoria 3, Imperator: Rome,
    /// Europa Universalis 5, Hearts of Iron 4.
    pub fn display(self) -> (r: String)
        ensures
            r@ == crate::text::choices_text(game_names(self), "and"@),
    {
        let mut names: Vec<&str> = Vec::new();
        if self.contains(GameFlags::ck3()) {
            names.push("Crusader Kings 3");
        }
        if self.contains(GameFlags::vic3()) {
            names.push("Victoria 3");
        }
        if self.contains(GameFlags::imperator()) {
            names.push("Imperator: Rome");
        }
        if self.contains(GameFlags::eu5()) {
            names.push("Europa Universalis 5");
        }
        if self.contains(GameFlags::hoi4()) {
            names.push("Hearts of Iron 4");
        }
        assert(names@.map_values(|s: &str| s@) =~= game_names(self));
        crate::text::display_choices(&names, "and")
    }
}

/// The names of the games in a set, in display order.
pub open spec fn game_names(f: GameFlags) -> Seq<Seq<char>> {
    let a: Seq<Seq<char>> = if f.spec_contains(GameFlags { bits: 0x01 }) {
        seq!["Crusader Kings 3"@]
    } else {
        Seq::empty()
    };
    let b = if f.spec_contains(GameFlags { bits: 0x02 }) {
        a.push("Victoria 3"@)
    } else {
        a
    };
    let c = if f.spec_contains(GameFlags { bits: 0x04 }) {
        b.push("Imperator: Rome"@)
    } else {
        b
    };
    let d = if f.spec_contains(GameFlags { bits: 0x08 }) {
        c.push("Europa Universalis 5"@)
    } else {
        c
    };
    if f.spec_contains(GameFlags { bits: 0x10 }) {
        d.push("Hearts of Iron 4"@)
    } else {
        d
    }
}

/// A game's set holds that game and no other.
pub proof fn lemma_from_game_contains(g: Game, h: Game)
    ensures
        (GameFlags { bits: game_bit(g) }).spec_contains(GameFlags { bits: game_bit(h) }) <==> g == h,
{
    assert(0x01u8 & 0x02u8 == 0 && 0x01u8 & 0x04u8 == 0 && 0x01u8 & 0x08u8 == 0 && 0x01u8 & 0x10u8
        == 0 && 0x02u8 & 0x01u8 == 0 && 0x02u8 & 0x04u8 == 0 && 0x02u8 & 0x08u8 == 0 && 0x02u8
        & 0x10u8 == 0 && 0x04u8 & 0x01u8 == 0 && 0x04u8 & 0x02u8 == 0 && 0x04u8 & 0x08u8 == 0
        && 0x04u8 & 0x10u8 == 0 && 0x08u8 & 0x01u8 == 0 && 0x08u8 & 0x02u8 == 0 && 0x08u8 & 0x04u8
        == 0 && 0x08u8 & 0x10u8 == 0 && 0x10u8 & 0x01u8 == 0 && 0x10u8 & 0x02u8 == 0 && 0x10u8
        & 0x04u8 == 0 && 0x10u8 & 0x08u8 == 0 && 0x01u8 & 0x01u8 == 0x01 && 0x02u8 & 0x02u8 == 0x02
        && 0x04u8 & 0x04u8 == 0x04 && 0x08u8 & 0x08u8 == 0x08 && 0x10u8 & 0x10u8 == 0x10)
        by (bit_vector);
}

/// The Jomini set holds every game but Hearts of Iron 4.
pub proof fn lemma_jomini_games(g: Game)
    ensures
        (GameFlags {
            bits: game_bit(Game::Ck3) | game_bit(Game::Vic3) | game_bit(Game::Imperator) | game_bit(
                Game::Eu5,
            ),
        }).spec_contains(GameFlags { bits: game_bit(g) }) <==> g != Game::Hoi4,
{
    assert(0x01u8 | 0x02u8 | 0x04u8 | 0x08u8 == 0x0f && 0x0fu8 & 0x01u8 == 0x01 && 0x0fu8 & 0x02u8
        == 0x02 && 0x0fu8 & 0x04u8 == 0x04 && 0x0fu8 & 0x08u8 == 0x08 && 0x0fu8 & 0x10u8 == 0)
        by (bit_vector);
}

} // verus!
