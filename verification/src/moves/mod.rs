//! Moves: what a pokemon can do in a battle.

use vstd::prelude::*;

use crate::id::{Id, Identifiable};
use crate::types::PokemonType;

pub mod owned;
pub mod set;

verus! {

/// The identifier of a move.
pub type MoveId = Id;

/// How strong a move is.
pub type Power = u8;

/// How likely a move is to hit, in percent.
pub type Accuracy = u8;

/// How many times a move can be used.
pub type PP = u8;

/// How early a move acts within a turn.
pub type Priority = i8;

/// How likely a move is to hit critically.
pub type CriticalRate = u8;

/// The way in which a move acts.
#[derive(Debug, Clone, Copy, PartialEq, Eq, Structural)]
pub enum MoveCategory {
    Physical,
    Special,
    Status,
}

/// Whom a move can be aimed at.
#[derive(Debug, Clone, Copy, PartialEq, Eq, Structural)]
pub enum MoveTarget {
    Any,
    Ally,
    Allies,
    UserOrAlly,
    UserAndAllies,
    User,
    Opponent,
    AllOpponents,
    RandomOpponent,
    AllOtherPokemon,
    AllPokemon,
    Nobody,
}

/// A move as the registry of moves describes it.
#[derive(Debug, Clone)]
pub struct Move {
    pub id: MoveId,
    pub name: String,
    pub category: MoveCategory,
    pub pokemon_type: PokemonType,
    pub accuracy: Option<Accuracy>,
    pub power: Option<Power>,
    pub pp: PP,
    pub priority: Priority,
    pub target: MoveTarget,
    pub contact: bool,
    pub crit_rate: CriticalRate,
}

impl Identifiable for Move {
    const UNKNOWN: Id = 0;

    open spec fn spec_id(&self) -> Id {
        self.id
    }

    open spec fn spec_name(&self) -> Seq<char> {
        self.name@
    }

    fn id(&self) -> (id: &Id) {
        &self.id
    }

    fn name(&self) -> (name: &str) {
        self.name.as_str()
    }
}

} // verus!
