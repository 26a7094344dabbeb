//! A pokemon of a player in the plain layout: its health is a number that is
//! at its largest while nothing is known of it, and its item stays an
//! identifier.

use vstd::prelude::*;

use crate::ailment::LiveAilment;
use crate::dex::Dex;
use crate::id::Id;
use crate::item::ItemId;
use crate::moves::owned::{OwnedMove, SavedMove};
use crate::moves::set::{
    resolved, saved_as_slice, saved_new, saved_slots, MoveSlots, OwnedMoveSet, SavedMoveSet,
};
use crate::moves::{Move, MoveId, PP};
use crate::pokemon::data::Gender;
use crate::pokemon::stat::{full_health, plain_stat, BaseStat, StatType, Stats};
use crate::pokemon::{
    learned, picked, Experience, Friendship, Health, Level, Party, Pokemon, PokemonId,
};
use crate::random::{roll_below, Random};

verus! {

/// A move of a pokemon that is not resolved.
pub type UninitMove = SavedMove;

/// A move of a pokemon that is resolved.
pub type InitMove<'a> = OwnedMove<'a>;

/// A pokemon of a player. The parameters are the forms of its species and
/// of its moves.
#[derive(Debug, Clone)]
pub struct PokemonInstance<P, M> {
    pub pokemon: P,
    pub level: Level,
    pub nickname: Option<String>,
    pub gender: Option<Gender>,
    pub moves: M,
    pub hp: Health,
    pub item: Option<ItemId>,
    pub ailment: Option<LiveAilment>,
    pub ivs: Stats,
    pub evs: Stats,
    pub experience: Experience,
    pub friendship: Friendship,
}

/// A pokemon that names its species and its moves by identifier.
pub type UninitPokemon = PokemonInstance<PokemonId, SavedMoveSet>;

/// A pokemon that borrows its species and its moves from the registries.
pub type InitPokemon<'a> = PokemonInstance<&'a Pokemon, OwnedMoveSet<'a>>;

/// A party of pokemon that are not resolved.
pub type UninitParty = Party<UninitPokemon>;

/// A party of pokemon that are resolved.
pub type InitParty<'a> = Party<InitPokemon<'a>>;

/// The health that stands for a health of which nothing is known.
pub fn default_hp_marker() -> (marker: Health)
    ensures
        marker == Health::MAX,
{
    Health::MAX
}

impl<P, M> PokemonInstance<P, M> {
    /// Whether `other` is this pokemon but for its health and its moves.
    pub open spec fn but_for_hp_and_moves(self, other: Self) -> bool {
        &&& other.pokemon == self.pokemon
        &&& other.level == self.level
        &&& other.nickname == self.nickname
        &&& other.gender == self.gender
        &&& other.item == self.item
        &&& other.ailment == self.ailment
        &&& other.ivs == self.ivs
        &&& other.evs == self.evs
        &&& other.experience == self.experience
        &&& other.friendship == self.friendship
    }

    /// Whether the pokemon has no health left.
    pub fn fainted(&self) -> (fainted: bool)
        ensures
            fainted == (self.hp == 0),
    {
        self.hp == 0
    }
}

impl<P, M: MoveSlots> PokemonInstance<P, M> {
    /// Puts `m` in the place of the move at `index`. An index that names no
    /// move of the pokemon changes nothing.
    pub fn replace_move(&mut self, index: usize, m: M::Slot)
        ensures
            final(self).moves.held() == crate::moves::set::replaced(old(self).moves.held(), index, m),
            old(self).but_for_hp_and_moves(*final(self)),
            final(self).hp == old(self).hp,
    {
        self.moves.replace(index, m);
    }
}

impl UninitPokemon {
    /// The gender of the live form: the one written down, or the one that the
    /// species gives to the roll; none for a species without gender.
    pub open spec fn settled_gender(self, species: Pokemon, roll: u8) -> Option<Gender> {
        match self.gender {
            Some(gender) => Some(gender),
            None => match Gender::rolled(species.breeding.gender, roll) {
                Gender::Neither => None,
                gender => Some(gender),
            },
        }
    }

    /// The saved moves that the live form is made of: those of the pokemon,
    /// or the moves that its species starts with at its level where it has
    /// none.
    pub open spec fn settled_moves(self, species: Pokemon) -> Seq<SavedMove> {
        if saved_slots(self.moves).len() == 0 {
            picked(learned(species.moves@, 0, self.level as int))
        } else {
            saved_slots(self.moves)
        }
    }

    /// Whether `live` is the live form of this pokemon with respect to the
    /// registries, where an open gender is settled by the roll. A health of
    /// which nothing is known becomes the full health.
    pub open spec fn lives_as(
        self,
        live: InitPokemon,
        gender_roll: u8,
        species: Map<Id, Pokemon>,
        moves: Map<Id, Move>,
    ) -> bool {
        &&& *live.pokemon == species[self.pokemon]
        &&& live.level == self.level
        &&& live.nickname == self.nickname
        &&& live.gender == self.settled_gender(species[self.pokemon], gender_roll)
        &&& live.moves@ == resolved(self.settled_moves(species[self.pokemon]), moves)
        &&& live.hp == if self.hp == Health::MAX {
            full_health(species[self.pokemon].base.hp, self.ivs.hp, self.evs.hp, self.level)
        } else {
            self.hp as nat
        }
        &&& live.item == self.item
        &&& live.ailment == self.ailment
        &&& live.ivs == self.ivs
        &&& live.evs == self.evs
        &&& live.experience == self.experience
        &&& live.friendship == self.friendship
    }

    /// A new pokemon of the given species and level. Individual values that
    /// are not given are picked by chance. Nothing is known of its health,
    /// and it has no moves, which it gets when it is first made live.
    pub fn generate(
        random: &mut Random,
        pokemon: PokemonId,
        level: Level,
        gender: Option<Gender>,
        ivs: Option<Stats>,
    ) -> (fresh: Self)
        ensures
            fresh.pokemon == pokemon,
            fresh.level == level,
            fresh.nickname is None,
            fresh.gender == gender,
            saved_slots(fresh.moves).len() == 0,
            fresh.hp == Health::MAX,
            fresh.item is None,
            fresh.ailment is None,
            match ivs {
                Some(ivs) => fresh.ivs == ivs,
                None => fresh.ivs.individual(),
            },
            fresh.evs == Stats::spec_uniform(0),
            fresh.experience == 0,
            fresh.friendship == 70,
    {
        PokemonInstance {
            pokemon,
            nickname: None,
            level,
            gender,
            moves: saved_new(),
            hp: default_hp_marker(),
            ivs: match ivs {
                Some(ivs) => ivs,
                None => Stats::random(random),
            },
            evs: Stats::default(),
            item: None,
            ailment: None,
            experience: 0,
            friendship: Pokemon::default_friendship(),
        }
    }

    /// The live form of the pokemon, where an open gender is settled by the
    /// roll. There is none where the registry of species does not hold the
    /// species. Moves that the registry of moves does not hold are dropped.
    pub fn init_with<'a, PD: Dex<Pokemon>, MD: Dex<Move>>(
        self,
        gender_roll: u8,
        pokedex: &'a PD,
        movedex: &'a MD,
    ) -> (live: Option<InitPokemon<'a>>)
        ensures
            live is Some <==> pokedex.entries().contains_key(self.pokemon),
            live is Some ==> self.lives_as(
                live.unwrap(),
                gender_roll,
                pokedex.entries(),
                movedex.entries(),
            ),
    {
        let pokemon = match pokedex.try_get(&self.pokemon) {
            Some(pokemon) => pokemon,
            None => { return None; },
        };
        let saved = if saved_as_slice(&self.moves).len() == 0 {
            pokemon.generate_moves(self.level)
        } else {
            self.moves
        };
        let moves = match OwnedMoveSet::init(&saved, movedex) {
            Some(moves) => moves,
            None => { return None; },
        };
        let gender = match self.gender {
            Some(gender) => Some(gender),
            None => match pokemon.gender_for(gender_roll) {
                Gender::Neither => None,
                gender => Some(gender),
            },
        };
        let hp: Health = if self.hp == default_hp_marker() {
            Pokemon::base_hp(pokemon.base.hp, self.ivs.hp, self.evs.hp, self.level)
        } else {
            self.hp
        };
        Some(
            PokemonInstance {
                pokemon,
                nickname: self.nickname,
                level: self.level,
                gender,
                ivs: self.ivs,
                evs: self.evs,
                experience: self.experience,
                friendship: self.friendship,
                moves,
                ailment: self.ailment,
                item: self.item,
                hp,
            },
        )
    }

    /// The live form of the pokemon. A gender that was left open is picked by
    /// chance. There is none where the registry of species does not hold the
    /// species; the generator is then left alone.
    pub fn init<'a, PD: Dex<Pokemon>, MD: Dex<Move>>(
        self,
        random: &mut Random,
        pokedex: &'a PD,
        movedex: &'a MD,
    ) -> (live: Option<InitPokemon<'a>>)
        ensures
            live is Some <==> pokedex.entries().contains_key(self.pokemon),
            live is Some ==> exists|gender_roll: u8|
                gender_roll < Gender::RANGE && #[trigger] self.lives_as(
                    live.unwrap(),
                    gender_roll,
                    pokedex.entries(),
                    movedex.entries(),
                ),
    {
        let pokemon = match pokedex.try_get(&self.pokemon) {
            Some(pokemon) => pokemon,
            None => { return None; },
        };
        let gender_roll: u8 = if self.gender.is_none() && pokemon.breeding.gender.is_some() {
            roll_below(random, Gender::RANGE)
        } else {
            0
        };
        self.init_with(gender_roll, pokedex, movedex)
    }

    /// The form of `live` that names its species and its moves by identifier.
    pub fn from<'a>(live: InitPokemon<'a>) -> (saved: Self)
        ensures
            live.saves_as(saved),
    {
        PokemonInstance {
            pokemon: live.pokemon.id,
            level: live.level,
            nickname: live.nickname,
            gender: live.gender,
            moves: live.moves.uninit(),
            hp: live.hp,
            item: live.item,
            ailment: live.ailment,
            ivs: live.ivs,
            evs: live.evs,
            experience: live.experience,
            friendship: live.friendship,
        }
    }
}

impl<'a> InitPokemon<'a> {
    /// Whether `saved` is this pokemon with identifiers in the place of what
    /// it borrows.
    pub open spec fn saves_as(self, saved: UninitPokemon) -> bool {
        &&& saved.pokemon == self.pokemon.id
        &&& saved.level == self.level
        &&& saved.nickname == self.nickname
        &&& saved.gender == self.gender
        &&& saved_slots(saved.moves) == self.moves@.map_values(|slot: OwnedMove<'a>| slot.saved())
        &&& saved.hp == self.hp
        &&& saved.item == self.item
        &&& saved.ailment == self.ailment
        &&& saved.ivs == self.ivs
        &&& saved.evs == self.evs
        &&& saved.experience == self.experience
        &&& saved.friendship == self.friendship
    }

    /// The name that the pokemon goes by.
    pub open spec fn spec_name(&self) -> Seq<char> {
        match self.nickname {
            Some(nickname) => nickname@,
            None => self.pokemon.name@,
        }
    }

    /// The value of a stat of the pokemon. No nature scales it.
    pub open spec fn spec_stat(&self, stat: StatType) -> nat {
        match stat {
            StatType::Health => full_health(
                self.pokemon.base.hp,
                self.ivs.hp,
                self.evs.hp,
                self.level,
            ),
            _ => plain_stat(
                self.pokemon.base.spec_get(stat),
                self.ivs.spec_get(stat),
                self.evs.spec_get(stat),
                self.level,
            ),
        }
    }

    /// The health after a healing by `amount`: the amount, or the full health
    /// where none is named or the amount is more.
    pub open spec fn healed(&self, amount: Option<Health>) -> nat {
        match amount {
            Some(amount) if amount < self.spec_stat(StatType::Health) => amount as nat,
            _ => self.spec_stat(StatType::Health),
        }
    }

    /// The name that the pokemon goes by: its nickname, or the name of its
    /// species where it has none.
    pub fn name(&self) -> (name: &str)
        ensures
            name@ == self.spec_name(),
    {
        match &self.nickname {
            Some(nickname) => nickname.as_str(),
            None => self.pokemon.name.as_str(),
        }
    }

    /// The health of the pokemon.
    pub fn hp(&self) -> (hp: Health)
        ensures
            hp == self.hp,
    {
        self.hp
    }

    /// The full health of the pokemon.
    pub fn max_hp(&self) -> (hp: Health)
        ensures
            hp == self.spec_stat(StatType::Health),
    {
        self.stat(StatType::Health)
    }

    /// The value of a stat of the pokemon.
    pub fn stat(&self, stat: StatType) -> (value: BaseStat)
        ensures
            value == self.spec_stat(stat),
    {
        match stat {
            StatType::Health => Pokemon::base_hp(
                self.pokemon.base.hp,
                self.ivs.hp,
                self.evs.hp,
                self.level,
            ),
            stat => Pokemon::base_stat(
                *self.pokemon.base.get(stat),
                *self.ivs.get(stat),
                *self.evs.get(stat),
                self.level,
            ),
        }
    }

    /// Heals the pokemon and gives its moves uses back.
    pub fn heal(&mut self, hp: Option<Health>, pp: Option<PP>)
        ensures
            final(self).hp == old(self).healed(hp),
            final(self).moves@ == old(self).moves@.map_values(
                |slot: OwnedMove<'a>| slot.restored(pp),
            ),
            old(self).but_for_hp_and_moves(*final(self)),
    {
        self.heal_hp(hp);
        self.heal_pp(pp);
    }

    /// Sets the health to `amount`, or to the full health where no amount is
    /// named or the amount is more.
    pub fn heal_hp(&mut self, amount: Option<Health>)
        ensures
            final(self).hp == old(self).healed(amount),
            final(self).moves == old(self).moves,
            old(self).but_for_hp_and_moves(*final(self)),
    {
        let max: Health = self.max_hp();
        self.hp = match amount {
            Some(amount) => if amount < max {
                amount
            } else {
                max
            },
            None => max,
        };
    }

    /// Gives every move `amount` uses back, or all of them where no amount is
    /// named.
    pub fn heal_pp(&mut self, amount: Option<PP>)
        ensures
            final(self).moves@ == old(self).moves@.map_values(
                |slot: OwnedMove<'a>| slot.restored(amount),
            ),
            final(self).hp == old(self).hp,
            old(self).but_for_hp_and_moves(*final(self)),
    {
        self.moves.restore(amount);
    }

    /// The moves that the species learns on reaching the level of the
    /// pokemon.
    pub fn moves_at_level(&self) -> (moves: Vec<MoveId>)
        ensures
            moves@ == learned(self.pokemon.moves@, self.level as int, self.level as int),
    {
        self.pokemon.moves_at_level(self.level)
    }
}

} // verus!
