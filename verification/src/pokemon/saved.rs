//! The record of a pokemon as it is written to a save file.

use vstd::prelude::*;

use crate::ailment::LiveAilment;
use crate::item::ItemId;
use crate::moves::set::SavedMoveSet;
use crate::pokemon::data::Gender;
use crate::pokemon::stat::Stats;
use crate::pokemon::{Experience, Friendship, Level, PokemonId};

verus! {

/// The condition that a pokemon was saved with.
pub type PokemonStatus = LiveAilment;

/// The record of one pokemon.
#[derive(Debug)]
pub struct SavedPokemon {
    pub id: PokemonId,
    pub data: PokemonData,
    pub item: Option<ItemId>,
    pub moves: Option<SavedMoveSet>,
    pub current_hp: Option<u16>,
    pub owned_data: Option<OwnedPokemon>,
}

/// What a record says of the pokemon itself.
#[derive(Debug, Clone)]
pub struct PokemonData {
    pub nickname: Option<String>,
    pub level: Level,
    pub gender: Gender,
    pub ivs: Stats,
    pub evs: Stats,
    pub experience: Experience,
    pub friendship: Friendship,
    pub status: Option<PokemonStatus>,
}

/// Where a pokemon comes from.
#[derive(Debug)]
pub struct OwnedPokemon {
    pub original_trainer: String,
    pub original_location: (String, Level),
}

/// The individual values of a record that names none.
pub fn default_iv() -> (ivs: Stats)
    ensures
        ivs == Stats::spec_uniform(15),
{
    Stats::uniform(15)
}

/// The friendship of a record that names none.
pub fn default_friendship() -> (friendship: Friendship)
    ensures
        friendship == 70,
{
    70
}

} // verus!
