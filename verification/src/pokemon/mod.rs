//! Species of pokemon, and the pokemon that a player owns.

use core::ops::Range;

use vstd::prelude::*;

use crate::id::{Id, Identifiable};
use crate::moves::owned::SavedMove;
use crate::moves::set::{
    saved_as_slice, saved_new, saved_push, saved_slots, SavedMoveSet, MOVE_SET_SIZE,
};
use crate::moves::{MoveCategory, MoveId};
use crate::pokemon::data::{Breeding, Evolution, Gender, LearnableMove, Nature, Training};
use crate::pokemon::stat::{
    full_health, grow, plain_stat, scale_stat, scaled_stat, BaseStat, Stat, StatType, Stats,
};
use crate::random::{roll_below, Random};
use crate::types::{Effective, PokemonType};

pub mod data;
pub mod instance;
pub mod owned;
pub mod saved;
pub mod stat;

verus! {

/// The identifier of a species.
pub type PokemonId = Id;

/// The level of a pokemon.
pub type Level = u8;

/// The experience that a pokemon has gained on its way to the next level.
pub type Experience = u32;

/// How fond a pokemon is of its owner.
pub type Friendship = u8;

/// The health of a pokemon.
pub type Health = BaseStat;

/// How many pokemon a party holds.
pub const PARTY_SIZE: usize = 6;

/// The pokemon that a player carries.
pub type Party<P> = arrayvec::ArrayVec<P, PARTY_SIZE>;

/// A species as the registry of species describes it.
#[derive(Debug, Clone)]
pub struct Pokemon {
    pub id: PokemonId,
    pub name: String,
    pub primary_type: PokemonType,
    pub secondary_type: Option<PokemonType>,
    pub moves: Vec<LearnableMove>,
    pub base: Stats,
    pub species: String,
    pub evolution: Option<Evolution>,
    pub height: u8,
    pub weight: u16,
    pub training: Training,
    pub breeding: Breeding,
}

/// The identifiers of the moves of `learnset` that are learned at a level
/// from `first` to `last`, in the order of the learnset.
pub open spec fn learned(learnset: Seq<LearnableMove>, first: int, last: int) -> Seq<MoveId> {
    learnset.filter_map(
        |m: LearnableMove|
            if first <= m.0 <= last {
                Some(m.1)
            } else {
                None
            },
    )
}

/// The identifiers of the moves of `learnset` that are learned at a level
/// from `first` to `last`, those of the highest level first and those of one
/// level in the order of the learnset.
pub open spec fn learned_down(learnset: Seq<LearnableMove>, first: int, last: int) -> Seq<MoveId>
    decreases last - first + 1,
{
    if last < first {
        Seq::empty()
    } else {
        learned(learnset, last, last) + learned_down(learnset, first, last - 1)
    }
}

/// Whether the moves of `set` hold the move `id`.
pub open spec fn knows(set: Seq<SavedMove>, id: MoveId) -> bool {
    exists|i: int| 0 <= i < set.len() && (#[trigger] set[i]).id == id
}

/// The set after a pokemon was taught the move `id`: the move comes last,
/// with its uses unwritten, unless the set holds four moves or this one.
pub open spec fn taught(set: Seq<SavedMove>, id: MoveId) -> Seq<SavedMove> {
    if set.len() < MOVE_SET_SIZE && !knows(set, id) {
        set.push(SavedMove { id, pp: None })
    } else {
        set
    }
}

/// The moves that a pokemon is given out of `ids`, which are taken from the
/// last one backwards.
pub open spec fn picked(ids: Seq<MoveId>) -> Seq<SavedMove> {
    ids.fold_right(|id: MoveId, set: Seq<SavedMove>| taught(set, id), Seq::empty())
}

impl Pokemon {
    /// The gender that a roll gives to a pokemon of this species.
    pub fn gender_for(&self, roll: u8) -> (gender: Gender)
        ensures
            gender == Gender::rolled(self.breeding.gender, roll),
    {
        match self.breeding.gender {
            Some(share) => if roll > share {
                Gender::Male
            } else {
                Gender::Female
            },
            None => Gender::Neither,
        }
    }

    /// A gender for a pokemon of this species, picked by chance. A species
    /// without gender takes nothing from the generator.
    pub fn generate_gender(&self, random: &mut Random) -> (gender: Gender)
        ensures
            exists|roll: u8|
                roll < Gender::RANGE && gender == #[trigger] Gender::rolled(
                    self.breeding.gender,
                    roll,
                ),
    {
        match self.breeding.gender {
            Some(_) => {
                let roll: u8 = roll_below(random, Gender::RANGE);
                self.gender_for(roll)
            },
            None => {
                assert(Gender::Neither == Gender::rolled(self.breeding.gender, 0));
                Gender::Neither
            },
        }
    }

    /// A nature picked by chance: any of them may come.
    pub fn generate_nature(random: &mut Random) -> (nature: Nature) {
        let roll: u8 = roll_below(random, Nature::COUNT);
        Nature::from_roll(roll)
    }

    /// The moves that a pokemon of this species and of the given level starts
    /// with: the moves learned up to that level, the latest first, each once,
    /// four at most.
    pub fn generate_moves(&self, level: Level) -> (moves: SavedMoveSet)
        ensures
            saved_slots(moves) == picked(learned(self.moves@, 0, level as int)),
    {
        let known = self.moves_between(0, level);
        let ghost step = |id: MoveId, set: Seq<SavedMove>| taught(set, id);
        let mut moves = saved_new();
        let mut left: usize = known.len();
        while left > 0
            invariant
                left <= known.len(),
                step == |id: MoveId, set: Seq<SavedMove>| taught(set, id),
                picked(known@) == known@.take(left as int).fold_right(step, saved_slots(moves)),
            decreases left,
        {
            left = left - 1;
            let id: MoveId = known[left];
            assert(known@.take(left as int + 1).drop_last() == known@.take(left as int));
            let held = saved_as_slice(&moves);
            if held.len() < MOVE_SET_SIZE && !holds(held, id) {
                saved_push(&mut moves, SavedMove::from(id));
            }
        }
        moves
    }

    /// How well a move of the type `user` and of the given category works on a
    /// pokemon of this species: as on its first type, and by the product of
    /// the two factors where it has a second type.
    pub fn effective(&self, user: PokemonType, category: MoveCategory) -> (effective: Effective)
        ensures
            match self.secondary_type {
                Some(secondary) => effective.quarters() * 4 == user.spec_effective(
                    self.primary_type,
                    category,
                ).quarters() * user.spec_effective(secondary, category).quarters(),
                None => effective == user.spec_effective(self.primary_type, category),
            },
    {
        let primary = user.effective(self.primary_type, category);
        if let Some(secondary) = self.secondary_type {
            primary.times(user.effective(secondary, category))
        } else {
            primary
        }
    }

    /// The experience that defeating a pokemon of this species and of the
    /// given level is worth: a seventh of the base experience by the level,
    /// where the product stops at the most that the base experience can be.
    pub open spec fn worth(&self, level: Level) -> nat {
        if self.training.base_exp * level > u16::MAX {
            (u16::MAX / 7) as nat
        } else {
            (self.training.base_exp * level / 7) as nat
        }
    }

    /// The experience that defeating a pokemon of this species and of the
    /// given level is worth: a seventh of the base experience by the level.
    pub fn exp_from(&self, level: Level) -> (experience: Experience)
        ensures
            experience == self.worth(level),
    {
        assert(self.training.base_exp * level <= 65535 * 255) by (nonlinear_arith)
            requires
                self.training.base_exp <= 65535,
                level <= 255,
        ;
        let product: u32 = self.training.base_exp as u32 * level as u32;
        if product > u16::MAX as u32 {
            (u16::MAX / 7) as Experience
        } else {
            product / 7
        }
    }

    /// The moves learned on reaching exactly the given level.
    pub fn moves_at_level(&self, level: Level) -> (moves: Vec<MoveId>)
        ensures
            moves@ == learned(self.moves@, level as int, level as int),
    {
        self.moves_between(level, level)
    }

    /// The moves learned on the way from the level `levels.start` to the level
    /// `levels.end`: those of every level after the first and up to the last.
    pub fn moves_at(&self, levels: Range<Level>) -> (moves: Vec<MoveId>)
        ensures
            moves@ == learned(self.moves@, levels.start + 1, levels.end as int),
    {
        if levels.start == Level::MAX {
            proof {
                lemma_none_learned(self.moves@, levels.start + 1, levels.end as int);
            }
            Vec::new()
        } else {
            self.moves_between(levels.start + 1, levels.end)
        }
    }

    /// The moves learned on the way from the level `levels.start` to the level
    /// `levels.end`, as [`Self::moves_at`] gives them, but those of the
    /// highest level first.
    pub fn latest_moves_at(&self, levels: Range<Level>) -> (moves: Vec<MoveId>)
        ensures
            moves@ == learned_down(self.moves@, levels.start + 1, levels.end as int),
    {
        let mut moves: Vec<MoveId> = Vec::new();
        let mut level: Level = levels.end;
        while level > levels.start
            invariant
                level <= levels.end,
                moves@ + learned_down(self.moves@, levels.start + 1, level as int) == learned_down(
                    self.moves@,
                    levels.start + 1,
                    levels.end as int,
                ),
            decreases level,
        {
            let mut learned = self.moves_between(level, level);
            assert((moves@ + learned@) + learned_down(self.moves@, levels.start + 1, level - 1)
                =~= moves@ + (learned@ + learned_down(self.moves@, levels.start + 1, level - 1)));
            moves.append(&mut learned);
            level = level - 1;
        }
        assert(moves@ + Seq::<MoveId>::empty() =~= moves@);
        moves
    }

    fn moves_between(&self, first: Level, last: Level) -> (moves: Vec<MoveId>)
        ensures
            moves@ == learned(self.moves@, first as int, last as int),
    {
        let mut moves: Vec<MoveId> = Vec::new();
        for at in 0..self.moves.len()
            invariant
                moves@ == learned(self.moves@.take(at as int), first as int, last as int),
        {
            assert(self.moves@.take(at + 1).drop_last() == self.moves@.take(at as int));
            let m = &self.moves[at];
            if first <= m.0 && m.0 <= last {
                moves.push(m.1);
            }
        }
        assert(self.moves@.take(self.moves.len() as int) == self.moves@);
        moves
    }

    /// The value of a stat that the base values of the species give with the
    /// given individual and effort values, at a level and under a nature.
    pub open spec fn spec_stat(
        &self,
        ivs: Stats,
        evs: Stats,
        level: Level,
        nature: Nature,
        stat: StatType,
    ) -> nat {
        match stat {
            StatType::Health => full_health(self.base.hp, ivs.hp, evs.hp, level),
            _ => scaled_stat(
                self.base.spec_get(stat),
                ivs.spec_get(stat),
                evs.spec_get(stat),
                level,
                nature.tenths(stat),
            ),
        }
    }

    /// The value of a stat of a pokemon of this species.
    pub fn stat(
        &self,
        ivs: &Stats,
        evs: &Stats,
        level: Level,
        nature: Nature,
        stat: StatType,
    ) -> (value: BaseStat)
        ensures
            value == self.spec_stat(*ivs, *evs, level, nature, stat),
    {
        match stat {
            StatType::Health => Self::base_hp(self.base.hp, ivs.hp, evs.hp, level),
            stat => scale_stat(
                *self.base.get(stat),
                *ivs.get(stat),
                *evs.get(stat),
                level,
                nature.multiplier(stat),
            ),
        }
    }

    /// A stat other than health under a nature that leaves it alone.
    pub fn base_stat(base: Stat, iv: Stat, ev: Stat, level: Level) -> (stat: BaseStat)
        ensures
            stat == plain_stat(base, iv, ev, level),
    {
        scale_stat(base, iv, ev, level, 10)
    }

    /// The full health.
    pub fn base_hp(base: Stat, iv: Stat, ev: Stat, level: Level) -> (hp: Health)
        ensures
            hp == full_health(base, iv, ev, level),
    {
        (grow(base, iv, ev, level) + level as u32 + 10) as Health
    }

    /// The friendship that a pokemon starts with.
    pub fn default_friendship() -> (friendship: Friendship)
        ensures
            friendship == 70,
    {
        70
    }
}

/// No level lies in an empty span, so nothing is learned in it.
pub proof fn lemma_none_learned(learnset: Seq<LearnableMove>, first: int, last: int)
    requires
        first > last,
    ensures
        learned(learnset, first, last) == Seq::<MoveId>::empty(),
    decreases learnset.len(),
{
    if learnset.len() > 0 {
        lemma_none_learned(learnset.drop_last(), first, last);
    }
}

/// Whether the moves hold the move `id`.
fn holds(moves: &[SavedMove], id: MoveId) -> (held: bool)
    ensures
        held == knows(moves@, id),
{
    for at in 0..moves.len()
        invariant
            forall|i: int| 0 <= i < at ==> moves@[i].id != id,
    {
        if moves[at].id == id {
            return true;
        }
    }
    false
}

impl Identifiable for Pokemon {
    const UNKNOWN: Id = 0;

    open spec fn spec_id(&self) -> Id {
        self.id
    }

    open spec fn spec_name(&self) -> Seq<char> {
        self.name@
    }

    fn id(&self) -> (id: &Id) {
        &self.id
    }

    fn name(&self) -> (name: &str) {
        self.name.as_str()
    }
}

} // verus!
