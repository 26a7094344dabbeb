//! A pokemon that a player owns, in its saved form and in its live form.
//!
//! The saved form names its species, moves and item by identifier and may
//! leave gender, nature and health open. The live form borrows them from the
//! registries and has all three settled.

use core::ops::Range;

use vstd::prelude::*;

use crate::ailment::LiveAilment;
use crate::dex::{keyed, Dex};
use crate::id::Id;
use crate::item::{Item, ItemId};
use crate::moves::owned::{OwnedMove, SavedMove};
use crate::moves::set::{
    resolved, saved_as_mut_slice, saved_new, saved_slots, OwnedMoveSet, SavedMoveSet, MOVE_SET_SIZE,
};
use crate::moves::{Move, MoveId, PP};
use crate::pokemon::data::{EvolutionType, Gender, GrowthRate, LearnableMove, Nature};
use crate::pokemon::stat::{full_health, BaseStat, StatType, Stats};
use crate::pokemon::{
    learned, learned_down, Experience, Friendship, Health, Level, Pokemon, PokemonId,
};
use crate::random::{roll_below, Random};

verus! {

/// A pokemon that a player owns. The parameters are the forms of its
/// species, moves, item, gender, nature and health.
#[derive(Debug, Clone)]
pub struct OwnablePokemon<P, M, I, G, N, H> {
    pub pokemon: P,
    pub level: Level,
    pub gender: G,
    pub nature: N,
    pub hp: H,
    pub ivs: Stats,
    pub evs: Stats,
    pub friendship: Friendship,
    pub ailment: Option<LiveAilment>,
    pub nickname: Option<String>,
    pub moves: M,
    pub item: Option<I>,
    pub experience: Experience,
}

/// The saved form: identifiers only, and gender, nature and health may be
/// open.
pub type SavedPokemon = OwnablePokemon<
    PokemonId,
    SavedMoveSet,
    ItemId,
    Option<Gender>,
    Option<Nature>,
    Option<Health>,
>;

/// The live form: borrowed from the registries of species, moves and items.
pub type OwnedPokemon<'d> = OwnablePokemon<
    &'d Pokemon,
    OwnedMoveSet<'d>,
    &'d Item,
    Gender,
    Nature,
    Health,
>;

/// The level and the experience of a pokemon that holds more experience than
/// its level needs: as long as that is so, what the level needs is taken from
/// the experience and the level goes up by one. The highest level stays.
pub open spec fn leveled(
    growth: GrowthRate,
    level: Level,
    experience: Experience,
) -> (Level, Experience)
    decreases Level::MAX - level, experience,
{
    if experience > growth.threshold(level) {
        leveled(
            growth,
            if level < Level::MAX {
                (level + 1) as Level
            } else {
                level
            },
            (experience - growth.threshold(level)) as Experience,
        )
    } else {
        (level, experience)
    }
}

/// A pokemon of the highest level needs some experience for more, so that
/// its experience cannot be taken from without end.
pub proof fn lemma_highest_level_needs_some(growth: GrowthRate)
    ensures
        growth.threshold(Level::MAX) > 0,
{
    assert(255 * 255 * 255 == 16_581_375) by (nonlinear_arith);
}

/// The experience of a pokemon after it gained `gained`, which counts
/// fivefold; the sum stops at the most that can be held.
pub open spec fn gained(experience: Experience, gained: Experience) -> Experience {
    if experience + gained * 5 > Experience::MAX {
        Experience::MAX
    } else {
        (experience + gained * 5) as Experience
    }
}

/// What becomes of a set of moves and of the moves `pending` that a pokemon
/// is about to learn. They are taken one after another while the set has a
/// free slot: a move that `moves` holds takes the next slot, and one that it
/// does not hold is passed over. The result is the set and the moves that
/// were not reached.
pub open spec fn offered<'d>(
    set: Seq<OwnedMove<'d>>,
    pending: Seq<MoveId>,
    moves: Map<Id, Move>,
) -> (Seq<OwnedMove<'d>>, Seq<MoveId>)
    decreases pending.len(),
{
    if set.len() >= MOVE_SET_SIZE || pending.len() == 0 {
        (set, pending)
    } else if moves.contains_key(pending.first()) {
        offered(set.push(OwnedMove::fresh(&moves[pending.first()])), pending.drop_first(), moves)
    } else {
        offered(set, pending.drop_first(), moves)
    }
}

/// The last `MOVE_SET_SIZE` of `ids`, the last one first.
pub open spec fn latest(ids: Seq<MoveId>) -> Seq<MoveId> {
    if ids.len() <= MOVE_SET_SIZE {
        ids.reverse()
    } else {
        ids.subrange(ids.len() - MOVE_SET_SIZE, ids.len() as int).reverse()
    }
}

/// The moves that a pokemon without moves starts with: of the last four
/// moves that its species has learned by its level, the latest first, those
/// that `moves` holds.
pub open spec fn starting(
    learnset: Seq<LearnableMove>,
    level: Level,
    moves: Map<Id, Move>,
) -> Seq<OwnedMove<'static>> {
    latest(learned(learnset, 1, level as int)).filter_map(
        |id: MoveId|
            if moves.contains_key(id) {
                Some(OwnedMove::fresh(&moves[id]))
            } else {
                None
            },
    )
}

impl<P, M, I, G, N, H: Copy> OwnablePokemon<P, M, I, G, N, H> {
    /// The health of the pokemon.
    pub fn hp(&self) -> (hp: H)
        ensures
            hp == self.hp,
    {
        self.hp
    }
}

impl<P, M, I, G, N> OwnablePokemon<P, M, I, G, N, Health> {
    /// Whether the pokemon has no health left.
    pub fn fainted(&self) -> (fainted: bool)
        ensures
            fainted == (self.hp == 0),
    {
        self.hp == 0
    }
}

impl<P, M, I, G, N, H> OwnablePokemon<P, M, I, G, N, H> {
    /// Whether `other` is this pokemon but for its health.
    pub open spec fn but_for_hp(self, other: Self) -> bool {
        &&& other.pokemon == self.pokemon
        &&& other.level == self.level
        &&& other.gender == self.gender
        &&& other.nature == self.nature
        &&& other.ivs == self.ivs
        &&& other.evs == self.evs
        &&& other.friendship == self.friendship
        &&& other.ailment == self.ailment
        &&& other.nickname == self.nickname
        &&& other.moves == self.moves
        &&& other.item == self.item
        &&& other.experience == self.experience
    }

    /// Whether `other` is this pokemon but for its health and its moves.
    pub open spec fn but_for_hp_and_moves(self, other: Self) -> bool {
        &&& other.pokemon == self.pokemon
        &&& other.level == self.level
        &&& other.gender == self.gender
        &&& other.nature == self.nature
        &&& other.ivs == self.ivs
        &&& other.evs == self.evs
        &&& other.friendship == self.friendship
        &&& other.ailment == self.ailment
        &&& other.nickname == self.nickname
        &&& other.item == self.item
        &&& other.experience == self.experience
    }

    /// Whether `other` is this pokemon but for its level, its experience and
    /// its moves.
    pub open spec fn but_for_growth(self, other: Self) -> bool {
        &&& other.pokemon == self.pokemon
        &&& other.gender == self.gender
        &&& other.nature == self.nature
        &&& other.hp == self.hp
        &&& other.ivs == self.ivs
        &&& other.evs == self.evs
        &&& other.friendship == self.friendship
        &&& other.ailment == self.ailment
        &&& other.nickname == self.nickname
        &&& other.item == self.item
    }
}

impl<'d, M, I, G, N, H> OwnablePokemon<&'d Pokemon, M, I, G, N, H> {
    /// The name that the pokemon goes by.
    pub open spec fn spec_name(&self) -> Seq<char> {
        match self.nickname {
            Some(nickname) => nickname@,
            None => self.pokemon.name@,
        }
    }

    /// The species that the pokemon is to turn into.
    pub open spec fn evolves_into(&self) -> Option<PokemonId> {
        match self.pokemon.evolution {
            Some(evolution) => match evolution.0 {
                EvolutionType::Level(level) if level >= self.level => Some(evolution.1),
                _ => None,
            },
            None => None,
        }
    }

    /// The name that the pokemon goes by: its nickname, or the name of its
    /// species where it has none.
    pub fn name(&self) -> (name: &str)
        ensures
            name@ == self.spec_name(),
    {
        match &self.nickname {
            Some(nickname) => nickname.as_str(),
            None => self.pokemon.name.as_str(),
        }
    }

    /// The species that the pokemon is to turn into: that of an evolution by
    /// level whose level is not below the level of the pokemon.
    pub fn should_evolve(&self) -> (into: Option<&PokemonId>)
        ensures
            into is Some <==> self.evolves_into() is Some,
            into is Some ==> *into.unwrap() == self.evolves_into().unwrap(),
    {
        match &self.pokemon.evolution {
            Some(evolution) => match &evolution.0 {
                EvolutionType::Level(level) => if *level >= self.level {
                    Some(&evolution.1)
                } else {
                    None
                },
                _ => None,
            },
            None => None,
        }
    }

    /// The experience that defeating this pokemon is worth.
    pub fn exp_from(&self) -> (experience: Experience)
        ensures
            experience == self.pokemon.worth(self.level),
    {
        self.pokemon.exp_from(self.level)
    }

    /// The moves that the species learns on reaching the level of the
    /// pokemon.
    pub fn moves_at_level(&self) -> (moves: Vec<MoveId>)
        ensures
            moves@ == learned(self.pokemon.moves@, self.level as int, self.level as int),
    {
        self.pokemon.moves_at_level(self.level)
    }
}

impl<'d, M, I, G> OwnablePokemon<&'d Pokemon, M, I, G, Nature, Health> {
    /// The value of a stat of the pokemon.
    pub open spec fn spec_stat(&self, stat: StatType) -> nat {
        self.pokemon.spec_stat(self.ivs, self.evs, self.level, self.nature, stat)
    }

    /// The health after a healing by `amount`: the amount, or the full health
    /// where none is named or the amount is more.
    pub open spec fn healed(&self, amount: Option<Health>) -> nat {
        match amount {
            Some(amount) if amount < self.spec_stat(StatType::Health) => amount as nat,
            _ => self.spec_stat(StatType::Health),
        }
    }

    /// The full health of the pokemon.
    pub fn max_hp(&self) -> (hp: Health)
        ensures
            hp == self.spec_stat(StatType::Health),
    {
        self.stat(StatType::Health)
    }

    /// The value of a stat of the pokemon.
    pub fn stat(&self, stat: StatType) -> (value: BaseStat)
        ensures
            value == self.spec_stat(stat),
    {
        self.pokemon.stat(&self.ivs, &self.evs, self.level, self.nature, stat)
    }

    /// Sets the health to `amount`, or to the full health where no amount is
    /// named or the amount is more.
    pub fn heal_hp(&mut self, amount: Option<Health>)
        ensures
            final(self).hp == old(self).healed(amount),
            old(self).but_for_hp(*final(self)),
    {
        let max: Health = self.max_hp();
        self.hp = match amount {
            Some(amount) => if amount < max {
                amount
            } else {
                max
            },
            None => max,
        };
    }
}

impl<'d, I, G> OwnablePokemon<&'d Pokemon, OwnedMoveSet<'d>, I, G, Nature, Health> {
    /// Heals the pokemon and gives its moves uses back.
    pub fn heal(&mut self, hp: Option<Health>, pp: Option<PP>)
        ensures
            final(self).hp == old(self).healed(hp),
            final(self).moves@ == old(self).moves@.map_values(
                |slot: OwnedMove<'d>| slot.restored(pp),
            ),
            old(self).but_for_hp_and_moves(*final(self)),
    {
        self.heal_hp(hp);
        self.moves.restore(pp);
    }
}

impl<'d, I, G, N> OwnablePokemon<&'d Pokemon, OwnedMoveSet<'d>, I, G, N, Health> {
    /// Adds experience, which counts fivefold, and lets the pokemon gain the
    /// levels that it is enough for. The moves of the levels gained are then
    /// offered as [`Self::on_level_up`] says. The result holds the moves that
    /// found no free slot.
    pub fn add_exp<D: Dex<Move>>(
        &mut self,
        movedex: &'d D,
        experience: Experience,
    ) -> (skipped: Vec<MoveId>)
        ensures
            (final(self).level, final(self).experience) == leveled(
                old(self).pokemon.training.growth,
                old(self).level,
                gained(old(self).experience, experience),
            ),
            (final(self).moves@, skipped@) == offered(
                old(self).moves@,
                learned_down(old(self).pokemon.moves@, old(self).level + 1, final(self).level as int),
                movedex.entries(),
            ),
            old(self).but_for_growth(*final(self)),
    {
        let scaled: Experience = if experience > Experience::MAX / 5 {
            Experience::MAX
        } else {
            experience * 5
        };
        self.experience = self.experience.saturating_add(scaled);
        let previous: Level = self.level;
        let growth = self.pokemon.training.growth;
        while self.experience > growth.max_exp(self.level)
            invariant
                growth == old(self).pokemon.training.growth,
                leveled(growth, self.level, self.experience) == leveled(
                    growth,
                    old(self).level,
                    gained(old(self).experience, experience),
                ),
                old(self).but_for_growth(*self),
                self.moves == old(self).moves,
            decreases Level::MAX - self.level, self.experience,
        {
            proof {
                lemma_highest_level_needs_some(growth);
            }
            self.experience -= growth.max_exp(self.level);
            self.level = if self.level < Level::MAX {
                self.level + 1
            } else {
                self.level
            };
        }
        self.on_level_up(movedex, previous)
    }

    /// Offers the pokemon the moves that its species learns on the way from
    /// the level `previous` to its own, those of the highest level first. A
    /// move takes the next free slot; none takes the place of another. The
    /// result holds the moves that found no free slot, in the order in which
    /// they would have been tried.
    pub fn on_level_up<D: Dex<Move>>(
        &mut self,
        movedex: &'d D,
        previous: Level,
    ) -> (skipped: Vec<MoveId>)
        ensures
            (final(self).moves@, skipped@) == offered(
                old(self).moves@,
                learned_down(old(self).pokemon.moves@, previous + 1, old(self).level as int),
                movedex.entries(),
            ),
            old(self).but_for_hp_and_moves(*final(self)),
            final(self).hp == old(self).hp,
    {
        let mut pending = self.pokemon.latest_moves_at(Range { start: previous, end: self.level });
        let ghost all = pending@;
        let mut next: usize = 0;
        assert(all.skip(0) == all);
        while next < pending.len() && !self.moves.is_full()
            invariant
                next <= pending.len(),
                pending@ == all,
                offered(self.moves@, all.skip(next as int), movedex.entries()) == offered(
                    old(self).moves@,
                    all,
                    movedex.entries(),
                ),
                old(self).but_for_hp_and_moves(*self),
                self.hp == old(self).hp,
            decreases pending.len() - next,
        {
            assert(all.skip(next as int).drop_first() == all.skip(next + 1));
            if let Some(m) = movedex.try_get(&pending[next]) {
                self.moves.add(None, m);
            }
            next = next + 1;
        }
        assert(all.skip(next as int) == all.subrange(next as int, all.len() as int));
        pending.split_off(next)
    }
}

impl SavedPokemon {
    /// Whether `live` has what a live form takes over unchanged: level,
    /// values, friendship, ailment, nickname and experience.
    pub open spec fn carried_by(self, live: OwnedPokemon) -> bool {
        &&& live.level == self.level
        &&& live.ivs == self.ivs
        &&& live.evs == self.evs
        &&& live.friendship == self.friendship
        &&& live.ailment == self.ailment
        &&& live.nickname == self.nickname
        &&& live.experience == self.experience
    }

    /// Whether `live` holds the item of this pokemon as `items` gives it: an
    /// item that `items` does not hold is dropped.
    pub open spec fn item_resolved(self, live: OwnedPokemon, items: Map<Id, Item>) -> bool {
        live.item == match self.item {
            Some(id) if items.contains_key(id) => Some(&items[id]),
            _ => None,
        }
    }

    /// Whether `live` is the live form of this pokemon with respect to the
    /// registries, where what was left open is settled by the two rolls.
    ///
    /// The species is the one that `species` holds under the identifier. An
    /// open gender is the one that the species gives to the roll, an open
    /// nature the one at the place of the roll, an open health the full
    /// health. Moves that `moves` does not hold are dropped, and a pokemon
    /// that is left with none gets the starting moves of its species.
    pub open spec fn lives_as(
        self,
        live: OwnedPokemon,
        gender_roll: u8,
        nature_roll: u8,
        species: Map<Id, Pokemon>,
        moves: Map<Id, Move>,
        items: Map<Id, Item>,
    ) -> bool {
        &&& *live.pokemon == species[self.pokemon]
        &&& self.carried_by(live)
        &&& live.gender == match self.gender {
            Some(gender) => gender,
            None => Gender::rolled(species[self.pokemon].breeding.gender, gender_roll),
        }
        &&& match self.nature {
            Some(nature) => live.nature == nature,
            None => live.nature.index() == nature_roll % Nature::COUNT,
        }
        &&& live.hp == match self.hp {
            Some(hp) => hp as nat,
            None => full_health(
                species[self.pokemon].base.hp,
                self.ivs.hp,
                self.evs.hp,
                self.level,
            ),
        }
        &&& live.moves@ == if resolved(saved_slots(self.moves), moves).len() == 0 {
            starting(species[self.pokemon].moves@, self.level, moves)
        } else {
            resolved(saved_slots(self.moves), moves)
        }
        &&& self.item_resolved(live, items)
    }

    /// Whether `live` is the live form of this pokemon with respect to the
    /// registries, where nothing was left open.
    pub open spec fn lives_as_given(
        self,
        live: OwnedPokemon,
        species: Map<Id, Pokemon>,
        moves: Map<Id, Move>,
        items: Map<Id, Item>,
    ) -> bool {
        &&& *live.pokemon == species[self.pokemon]
        &&& self.carried_by(live)
        &&& self.gender == Some(live.gender)
        &&& self.nature == Some(live.nature)
        &&& self.hp == Some(live.hp)
        &&& live.moves@ == resolved(saved_slots(self.moves), moves)
        &&& self.item_resolved(live, items)
    }

    /// Whether the pokemon is known to have no health left.
    pub fn fainted(&self) -> (fainted: bool)
        ensures
            fainted == (self.hp == Some(0 as Health)),
    {
        match self.hp {
            Some(hp) => hp == 0,
            None => false,
        }
    }

    /// Heals the pokemon and gives its moves uses back.
    pub fn heal(&mut self, hp: Option<Health>, pp: Option<PP>)
        ensures
            final(self).hp == old(self).healed(hp),
            saved_slots(final(self).moves) == saved_slots(old(self).moves).map_values(
                |m: SavedMove| m.restored(pp),
            ),
            old(self).but_for_hp_and_moves(*final(self)),
    {
        self.heal_hp(hp);
        self.heal_pp(pp);
    }

    /// The health after a healing: `by` more where the health is written
    /// down, stopping at the most that can be held; open, which stands for
    /// the full health, where no amount is named.
    pub open spec fn healed(self, hp: Option<Health>) -> Option<Health> {
        match (hp, self.hp) {
            (Some(by), Some(hp)) => Some(
                if hp + by > Health::MAX {
                    Health::MAX
                } else {
                    (hp + by) as Health
                },
            ),
            (Some(_), None) => None,
            (None, _) => None,
        }
    }

    /// Raises the health by `hp`, or leaves it open, so that the pokemon has
    /// its full health when it is next made live, where no amount is named.
    pub fn heal_hp(&mut self, hp: Option<Health>)
        ensures
            final(self).hp == old(self).healed(hp),
            old(self).but_for_hp(*final(self)),
    {
        match hp {
            Some(by) => {
                if let Some(hp) = self.hp {
                    self.hp = Some(hp.saturating_add(by));
                }
            },
            None => self.hp = None,
        }
    }

    /// Gives every move `pp` uses back, or leaves its uses open where no
    /// amount is named.
    pub fn heal_pp(&mut self, pp: Option<PP>)
        ensures
            saved_slots(final(self).moves) == saved_slots(old(self).moves).map_values(
                |m: SavedMove| m.restored(pp),
            ),
            old(self).but_for_hp_and_moves(*final(self)),
            final(self).hp == old(self).hp,
    {
        let all = saved_as_mut_slice(&mut self.moves);
        let ghost before = all@;
        let count: usize = all.len();
        for at in 0..count
            invariant
                count == before.len(),
                all@.len() == count,
                forall|i: int| 0 <= i < at ==> all@[i] == before[i].restored(pp),
                forall|i: int| at <= i < count ==> all@[i] == before[i],
        {
            let mut m: SavedMove = all[at];
            m.restore(pp);
            all[at] = m;
        }
        assert(all@ =~= before.map_values(|m: SavedMove| m.restored(pp)));
    }

    /// A new pokemon of the given species and level. Its nature and health
    /// are open, and so is its gender unless one is given; it has no moves,
    /// which it gets when it is first made live.
    pub fn generate(
        pokemon: PokemonId,
        level: Level,
        gender: Option<Gender>,
        ivs: Option<Stats>,
    ) -> (saved: Self)
        ensures
            saved.pokemon == pokemon,
            saved.level == level,
            saved.gender == gender,
            saved.nature is None,
            saved.hp is None,
            saved.ivs == match ivs {
                Some(ivs) => ivs,
                None => Stats::spec_uniform(0),
            },
            saved.evs == Stats::spec_uniform(0),
            saved.friendship == 70,
            saved.ailment is None,
            saved.nickname is None,
            saved_slots(saved.moves).len() == 0,
            saved.item is None,
            saved.experience == 0,
    {
        OwnablePokemon {
            pokemon,
            level,
            gender,
            nature: None,
            hp: None,
            ivs: match ivs {
                Some(ivs) => ivs,
                None => Stats::default(),
            },
            evs: Stats::default(),
            friendship: Pokemon::default_friendship(),
            ailment: None,
            nickname: None,
            moves: saved_new(),
            item: None,
            experience: 0,
        }
    }

    /// The live form of a pokemon whose gender, nature and health are all
    /// written down. There is none where one of them is open, or where the
    /// registry of species does not hold the species. Moves and an item that
    /// their registries do not hold are dropped.
    pub fn try_init<'d, PD: Dex<Pokemon>, MD: Dex<Move>, ID: Dex<Item>>(
        self,
        pokedex: &'d PD,
        movedex: &'d MD,
        itemdex: &'d ID,
    ) -> (live: Option<OwnedPokemon<'d>>)
        ensures
            live is Some <==> pokedex.entries().contains_key(self.pokemon) && self.gender is Some
                && self.nature is Some && self.hp is Some,
            live is Some ==> self.lives_as_given(
                live.unwrap(),
                pokedex.entries(),
                movedex.entries(),
                itemdex.entries(),
            ),
    {
        let pokemon = match pokedex.try_get(&self.pokemon) {
            Some(pokemon) => pokemon,
            None => { return None; },
        };
        let (gender, nature, hp) = match (self.gender, self.nature, self.hp) {
            (Some(gender), Some(nature), Some(hp)) => (gender, nature, hp),
            _ => { return None; },
        };
        let moves = match OwnedMoveSet::init(&self.moves, movedex) {
            Some(moves) => moves,
            None => { return None; },
        };
        let item = match self.item {
            Some(id) => itemdex.try_get(&id),
            None => None,
        };
        Some(
            OwnablePokemon {
                pokemon,
                level: self.level,
                gender,
                nature,
                hp,
                ivs: self.ivs,
                evs: self.evs,
                friendship: self.friendship,
                ailment: self.ailment,
                nickname: self.nickname,
                moves,
                item,
                experience: self.experience,
            },
        )
    }

    /// The live form of the pokemon, where the gender and the nature that
    /// were left open are settled by the two rolls. There is none where the
    /// registry of species does not hold the species.
    pub fn init_with<'d, PD: Dex<Pokemon>, MD: Dex<Move>, ID: Dex<Item>>(
        self,
        gender_roll: u8,
        nature_roll: u8,
        pokedex: &'d PD,
        movedex: &'d MD,
        itemdex: &'d ID,
    ) -> (live: Option<OwnedPokemon<'d>>)
        ensures
            live is Some <==> pokedex.entries().contains_key(self.pokemon),
            live is Some ==> self.lives_as(
                live.unwrap(),
                gender_roll,
                nature_roll,
                pokedex.entries(),
                movedex.entries(),
                itemdex.entries(),
            ),
    {
        let pokemon = match pokedex.try_get(&self.pokemon) {
            Some(pokemon) => pokemon,
            None => { return None; },
        };
        let gender = match self.gender {
            Some(gender) => gender,
            None => pokemon.gender_for(gender_roll),
        };
        let nature = match self.nature {
            Some(nature) => nature,
            None => Nature::from_roll(nature_roll),
        };
        let hp: Health = match self.hp {
            Some(hp) => hp,
            None => pokemon.stat(&self.ivs, &self.evs, self.level, nature, StatType::Health),
        };
        let mut moves = match OwnedMoveSet::init(&self.moves, movedex) {
            Some(moves) => moves,
            None => { return None; },
        };
        if moves.is_empty() {
            moves = starting_moves(pokemon, self.level, movedex);
        }
        let item = match self.item {
            Some(id) => itemdex.try_get(&id),
            None => None,
        };
        Some(
            OwnablePokemon {
                pokemon,
                level: self.level,
                gender,
                nature,
                hp,
                ivs: self.ivs,
                evs: self.evs,
                friendship: self.friendship,
                ailment: self.ailment,
                nickname: self.nickname,
                moves,
                item,
                experience: self.experience,
            },
        )
    }

    /// The live form of the pokemon. A gender and a nature that were left
    /// open are picked by chance, an open health becomes the full health.
    /// There is none where the registry of species does not hold the species;
    /// the generator is then left alone.
    pub fn init<'d, PD: Dex<Pokemon>, MD: Dex<Move>, ID: Dex<Item>>(
        self,
        random: &mut Random,
        pokedex: &'d PD,
        movedex: &'d MD,
        itemdex: &'d ID,
    ) -> (live: Option<OwnedPokemon<'d>>)
        ensures
            live is Some <==> pokedex.entries().contains_key(self.pokemon),
            live is Some ==> exists|gender_roll: u8, nature_roll: u8|
                gender_roll < Gender::RANGE && nature_roll < Nature::COUNT && #[trigger] self.lives_as(
                    live.unwrap(),
                    gender_roll,
                    nature_roll,
                    pokedex.entries(),
                    movedex.entries(),
                    itemdex.entries(),
                ),
    {
        let pokemon = match pokedex.try_get(&self.pokemon) {
            Some(pokemon) => pokemon,
            None => { return None; },
        };
        let gender_roll: u8 = if self.gender.is_none() && pokemon.breeding.gender.is_some() {
            roll_below(random, Gender::RANGE)
        } else {
            0
        };
        let nature_roll: u8 = if self.nature.is_none() {
            roll_below(random, Nature::COUNT)
        } else {
            0
        };
        self.init_with(gender_roll, nature_roll, pokedex, movedex, itemdex)
    }
}

/// The moves that a pokemon of the given species and level starts with.
fn starting_moves<'d, MD: Dex<Move>>(
    pokemon: &Pokemon,
    level: Level,
    movedex: &'d MD,
) -> (moves: OwnedMoveSet<'d>)
    ensures
        moves@ == starting(pokemon.moves@, level, movedex.entries()),
{
    let known = pokemon.moves_at(Range { start: 0, end: level });
    let ghost recent = latest(known@);
    let ghost found = |id: MoveId|
        if movedex.entries().contains_key(id) {
            Some(OwnedMove::fresh(&movedex.entries()[id]))
        } else {
            None
        };
    let count: usize = if known.len() <= MOVE_SET_SIZE {
        known.len()
    } else {
        MOVE_SET_SIZE
    };
    let mut moves = OwnedMoveSet::new();
    for tried in 0..count
        invariant
            count == recent.len(),
            count <= MOVE_SET_SIZE,
            count <= known@.len(),
            recent == latest(known@),
            forall|i: int| 0 <= i < count ==> recent[i] == known@[known@.len() - 1 - i],
            moves@.len() <= tried,
            moves@ == recent.take(tried as int).filter_map(found),
            found == |id: MoveId|
                if movedex.entries().contains_key(id) {
                    Some(OwnedMove::fresh(&movedex.entries()[id]))
                } else {
                    None
                },
    {
        assert(recent.take(tried + 1).drop_last() == recent.take(tried as int));
        if let Some(m) = movedex.try_get(&known[known.len() - 1 - tried]) {
            moves.add(None, m);
        }
    }
    assert(recent.take(count as int) == recent);
    moves
}

impl<'d> OwnablePokemon<&'d Pokemon, OwnedMoveSet<'d>, &'d Item, Gender, Nature, Health> {
    /// Whether `saved` is the saved form of this pokemon: the identifiers of
    /// what it borrows, and everything else as it is.
    pub open spec fn saves_as(self, saved: SavedPokemon) -> bool {
        &&& saved.pokemon == self.pokemon.id
        &&& saved.level == self.level
        &&& saved.gender == Some(self.gender)
        &&& saved.nature == Some(self.nature)
        &&& saved.hp == Some(self.hp)
        &&& saved.ivs == self.ivs
        &&& saved.evs == self.evs
        &&& saved.friendship == self.friendship
        &&& saved.ailment == self.ailment
        &&& saved.nickname == self.nickname
        &&& saved_slots(saved.moves) == self.moves@.map_values(|slot: OwnedMove<'d>| slot.saved())
        &&& saved.item == match self.item {
            Some(item) => Some(item.id),
            None => None,
        }
        &&& saved.experience == self.experience
    }

    /// The saved form of the pokemon.
    pub fn uninit(self) -> (saved: SavedPokemon)
        ensures
            self.saves_as(saved),
    {
        OwnablePokemon {
            pokemon: self.pokemon.id,
            level: self.level,
            gender: Some(self.gender),
            nature: Some(self.nature),
            hp: Some(self.hp),
            ivs: self.ivs,
            evs: self.evs,
            friendship: self.friendship,
            ailment: self.ailment,
            nickname: self.nickname,
            moves: self.moves.uninit(),
            item: match self.item {
                Some(item) => Some(item.id),
                None => None,
            },
            experience: self.experience,
        }
    }
}

impl SavedPokemon {
    /// Whether the item of the pokemon comes through a round trip: it has
    /// none, or `items` holds it.
    pub open spec fn keeps_item(self, items: Map<Id, Item>) -> bool {
        self.item matches Some(id) ==> items.contains_key(id)
    }

    /// Whether the moves of the pokemon come through a round trip: `moves`
    /// holds each of them, the uses of each are written down, and a pokemon
    /// without moves is of a species that gives it no starting moves.
    pub open spec fn keeps_moves(self, species: Map<Id, Pokemon>, moves: Map<Id, Move>) -> bool {
        &&& forall|i: int|
            0 <= i < saved_slots(self.moves).len() ==> moves.contains_key(
                (#[trigger] saved_slots(self.moves)[i]).id,
            ) && saved_slots(self.moves)[i].pp is Some
        &&& saved_slots(self.moves).len() == 0 ==> starting(
            species[self.pokemon].moves@,
            self.level,
            moves,
        ).len() == 0
    }
}

/// Where the registry of moves holds every one of the saved moves, each of
/// them is resolved and none is left out.
pub proof fn lemma_all_resolved(saved: Seq<SavedMove>, moves: Map<Id, Move>)
    requires
        forall|i: int| 0 <= i < saved.len() ==> moves.contains_key((#[trigger] saved[i]).id),
    ensures
        resolved(saved, moves).len() == saved.len(),
        forall|i: int|
            0 <= i < saved.len() ==> Some(#[trigger] resolved(saved, moves)[i]) == saved[i].resolved(
                moves,
            ),
    decreases saved.len(),
{
    if saved.len() > 0 {
        lemma_all_resolved(saved.drop_last(), moves);
        assert(moves.contains_key(saved[saved.len() - 1].id));
    }
}

/// The round trip: a pokemon that was made live and saved again is the
/// pokemon that was saved at first in its species, level, values,
/// friendship, ailment, nickname and experience. Its gender, nature and
/// health are written down, and are those that were written down before.
/// Its item and its moves are those saved at first where the registries hold
/// them.
pub proof fn lemma_round_trip(
    saved: SavedPokemon,
    live: OwnedPokemon,
    back: SavedPokemon,
    gender_roll: u8,
    nature_roll: u8,
    species: Map<Id, Pokemon>,
    moves: Map<Id, Move>,
    items: Map<Id, Item>,
)
    requires
        keyed(species),
        keyed(moves),
        keyed(items),
        species.contains_key(saved.pokemon),
        saved.lives_as(live, gender_roll, nature_roll, species, moves, items),
        live.saves_as(back),
    ensures
        back.pokemon == saved.pokemon,
        back.level == saved.level,
        back.ivs == saved.ivs,
        back.evs == saved.evs,
        back.friendship == saved.friendship,
        back.ailment == saved.ailment,
        back.nickname == saved.nickname,
        back.experience == saved.experience,
        back.gender is Some && (saved.gender is Some ==> back.gender == saved.gender),
        back.nature is Some && (saved.nature is Some ==> back.nature == saved.nature),
        back.hp is Some && (saved.hp is Some ==> back.hp == saved.hp),
        saved.keeps_item(items) ==> back.item == saved.item,
        saved.keeps_moves(species, moves) ==> saved_slots(back.moves) == saved_slots(saved.moves),
{
    if saved.keeps_moves(species, moves) {
        let before = saved_slots(saved.moves);
        lemma_all_resolved(before, moves);
        assert forall|i: int| 0 <= i < before.len() implies #[trigger] saved_slots(back.moves)[i]
            == before[i] by {
            assert(Some(resolved(before, moves)[i]) == before[i].resolved(moves));
            assert(moves.contains_key(before[i].id));
        }
        assert(saved_slots(back.moves) =~= before);
    }
}

/// A pokemon is done with gaining levels when its experience is no more
/// than its level needs.
pub proof fn lemma_leveled_settles(growth: GrowthRate, level: Level, experience: Experience)
    ensures
        leveled(growth, level, experience).1 <= growth.threshold(leveled(growth, level, experience).0),
        leveled(growth, level, experience).0 >= level,
        leveled(growth, level, experience).1 <= experience,
    decreases Level::MAX - level, experience,
{
    if experience > growth.threshold(level) {
        lemma_highest_level_needs_some(growth);
        lemma_leveled_settles(
            growth,
            if level < Level::MAX {
                (level + 1) as Level
            } else {
                level
            },
            (experience - growth.threshold(level)) as Experience,
        );
    }
}

/// Experience that is more than two levels need, and not more than three,
/// raises the level by exactly two, and what the two levels needed is gone
/// from it.
pub proof fn lemma_two_levels(growth: GrowthRate, level: Level, experience: Experience)
    requires
        level + 2 <= Level::MAX,
        experience > growth.threshold(level) + growth.threshold((level + 1) as Level),
        experience <= growth.threshold(level) + growth.threshold((level + 1) as Level)
            + growth.threshold((level + 2) as Level),
    ensures
        leveled(growth, level, experience) == (
            (level + 2) as Level,
            (experience - growth.threshold(level) - growth.threshold((level + 1) as Level)) as Experience,
        ),
{
    reveal_with_fuel(leveled, 3);
}

/// Moves that a pokemon is offered never take the place of a move that it
/// has: the set holds its moves where they were, and new ones behind them.
/// No more than four moves are held, and a move is only left over where all
/// four slots are taken. The moves left over are those that were not
/// reached.
pub proof fn lemma_offered_keeps<'d>(
    set: Seq<OwnedMove<'d>>,
    pending: Seq<MoveId>,
    moves: Map<Id, Move>,
)
    requires
        set.len() <= MOVE_SET_SIZE,
    ensures
        set.len() <= offered(set, pending, moves).0.len() <= MOVE_SET_SIZE,
        offered(set, pending, moves).0.take(set.len() as int) == set,
        offered(set, pending, moves).1.len() <= pending.len(),
        offered(set, pending, moves).1 == pending.skip(
            pending.len() - offered(set, pending, moves).1.len(),
        ),
        offered(set, pending, moves).1.len() > 0 ==> offered(set, pending, moves).0.len()
            == MOVE_SET_SIZE,
    decreases pending.len(),
{
    if set.len() >= MOVE_SET_SIZE || pending.len() == 0 {
        assert(set.take(set.len() as int) == set);
        assert(pending.skip(0) == pending);
    } else {
        let next = if moves.contains_key(pending.first()) {
            set.push(OwnedMove::fresh(&moves[pending.first()]))
        } else {
            set
        };
        lemma_offered_keeps(next, pending.drop_first(), moves);
        let (after, rest) = offered(next, pending.drop_first(), moves);
        assert(after.take(set.len() as int) =~= after.take(next.len() as int).take(set.len() as int));
        assert(next.take(set.len() as int) == set);
        assert(rest =~= pending.skip(pending.len() - rest.len()));
    }
}

} // verus!
