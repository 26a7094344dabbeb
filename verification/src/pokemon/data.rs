//! What a species says of breeding, training and growing.

use vstd::prelude::*;

use crate::item::ItemId;
use crate::moves::MoveId;
use crate::pokemon::stat::StatType;
use crate::pokemon::{Experience, Level, PokemonId};

verus! {

/// The gender of a pokemon.
#[derive(Debug, Clone, Copy, PartialEq, Eq, Structural)]
pub enum Gender {
    /// Neither: the species has no gender.
    Neither,
    Male,
    Female,
}

impl Gender {
    /// A roll for a gender lies below this number.
    pub const RANGE: u8 = 8;

    /// The gender that a roll gives to a pokemon of a species with the given
    /// share of females: male where the roll is above the share.
    pub open spec fn rolled(share: Option<u8>, roll: u8) -> Gender {
        match share {
            Some(share) => if roll > share { Gender::Male } else { Gender::Female },
            None => Gender::Neither,
        }
    }
}

/// The nature of a pokemon, which raises one of its stats by a tenth and
/// lowers another by as much.
#[derive(Debug, Clone, Copy, PartialEq, Eq, Structural)]
pub enum Nature {
    Hardy,
    Lonely,
    Brave,
    Adamant,
    Naughty,
    Bold,
    Docile,
    Relaxed,
    Impish,
    Lax,
    Timid,
    Hasty,
    Serious,
    Jolly,
    Naive,
    Modest,
    Mild,
    Quiet,
    Bashful,
    Rash,
    Calm,
    Gentle,
    Sassy,
    Careful,
    Quirky,
}

impl Nature {
    /// The number of natures.
    pub const COUNT: u8 = 25;

    /// The place of the nature in the list of natures.
    pub open spec fn index(self) -> nat {
        match self {
            Nature::Hardy => 0,
            Nature::Lonely => 1,
            Nature::Brave => 2,
            Nature::Adamant => 3,
            Nature::Naughty => 4,
            Nature::Bold => 5,
            Nature::Docile => 6,
            Nature::Relaxed => 7,
            Nature::Impish => 8,
            Nature::Lax => 9,
            Nature::Timid => 10,
            Nature::Hasty => 11,
            Nature::Serious => 12,
            Nature::Jolly => 13,
            Nature::Naive => 14,
            Nature::Modest => 15,
            Nature::Mild => 16,
            Nature::Quiet => 17,
            Nature::Bashful => 18,
            Nature::Rash => 19,
            Nature::Calm => 20,
            Nature::Gentle => 21,
            Nature::Sassy => 22,
            Nature::Careful => 23,
            Nature::Quirky => 24,
        }
    }

    /// The place of a stat among those that a nature touches; health has none.
    pub open spec fn lane(stat: StatType) -> Option<nat> {
        match stat {
            StatType::Health => None,
            StatType::Attack => Some(0),
            StatType::Defense => Some(1),
            StatType::Speed => Some(2),
            StatType::SpAttack => Some(3),
            StatType::SpDefense => Some(4),
        }
    }

    /// The tenths by which the nature scales a stat: eleven for the stat that
    /// it raises, nine for the one that it lowers, ten for every other. A
    /// nature that would raise and lower the same stat leaves it alone.
    pub open spec fn tenths(self, stat: StatType) -> nat {
        let raised = self.index() / 5;
        let lowered = self.index() % 5;
        if raised == lowered || Nature::lane(stat) is None {
            10
        } else if Nature::lane(stat) == Some(raised) {
            11
        } else if Nature::lane(stat) == Some(lowered) {
            9
        } else {
            10
        }
    }

    /// The nature that stands at the place `roll`, counted round the list.
    pub fn from_roll(roll: u8) -> (nature: Nature)
        ensures
            nature.index() == roll % Nature::COUNT,
    {
        match roll % 25 {
            0 => Nature::Hardy,
            1 => Nature::Lonely,
            2 => Nature::Brave,
            3 => Nature::Adamant,
            4 => Nature::Naughty,
            5 => Nature::Bold,
            6 => Nature::Docile,
            7 => Nature::Relaxed,
            8 => Nature::Impish,
            9 => Nature::Lax,
            10 => Nature::Timid,
            11 => Nature::Hasty,
            12 => Nature::Serious,
            13 => Nature::Jolly,
            14 => Nature::Naive,
            15 => Nature::Modest,
            16 => Nature::Mild,
            17 => Nature::Quiet,
            18 => Nature::Bashful,
            19 => Nature::Rash,
            20 => Nature::Calm,
            21 => Nature::Gentle,
            22 => Nature::Sassy,
            23 => Nature::Careful,
            _ => Nature::Quirky,
        }
    }

    /// The tenths by which the nature scales a stat.
    pub fn multiplier(self, stat: StatType) -> (tenths: u8)
        ensures
            tenths == self.tenths(stat),
    {
        let index = self.place();
        let raised = index / 5;
        let lowered = index % 5;
        let lane: u8 = match stat {
            StatType::Health => { return 10; },
            StatType::Attack => 0,
            StatType::Defense => 1,
            StatType::Speed => 2,
            StatType::SpAttack => 3,
            StatType::SpDefense => 4,
        };
        if raised == lowered {
            10
        } else if lane == raised {
            11
        } else if lane == lowered {
            9
        } else {
            10
        }
    }

    fn place(self) -> (index: u8)
        ensures
            index == self.index(),
    {
        match self {
            Nature::Hardy => 0,
            Nature::Lonely => 1,
            Nature::Brave => 2,
            Nature::Adamant => 3,
            Nature::Naughty => 4,
            Nature::Bold => 5,
            Nature::Docile => 6,
            Nature::Relaxed => 7,
            Nature::Impish => 8,
            Nature::Lax => 9,
            Nature::Timid => 10,
            Nature::Hasty => 11,
            Nature::Serious => 12,
            Nature::Jolly => 13,
            Nature::Naive => 14,
            Nature::Modest => 15,
            Nature::Mild => 16,
            Nature::Quiet => 17,
            Nature::Bashful => 18,
            Nature::Rash => 19,
            Nature::Calm => 20,
            Nature::Gentle => 21,
            Nature::Sassy => 22,
            Nature::Careful => 23,
            Nature::Quirky => 24,
        }
    }
}

/// How fast a species gains levels.
#[derive(Debug, Clone, Copy, PartialEq, Eq, Structural)]
pub enum GrowthRate {
    Slow,
    Medium,
    Fast,
}

impl GrowthRate {
    /// The experience that a pokemon of the given level needs for its next
    /// level: the cube of the level, by five fourths for a slow species and
    /// by four fifths for a fast one.
    pub open spec fn threshold(self, level: Level) -> nat {
        let cube = (level as nat) * (level as nat) * (level as nat);
        match self {
            GrowthRate::Slow => 5 * cube / 4,
            GrowthRate::Medium => cube,
            GrowthRate::Fast => 4 * cube / 5,
        }
    }

    /// The experience that a pokemon of the given level needs for its next
    /// level.
    pub fn max_exp(self, level: Level) -> (needed: Experience)
        ensures
            needed == self.threshold(level),
    {
        let side: u32 = level as u32;
        assert(side * side <= 255 * 255) by (nonlinear_arith)
            requires
                side <= 255,
        ;
        let square: u32 = side * side;
        assert(square * side <= 255 * 255 * 255) by (nonlinear_arith)
            requires
                square <= 255 * 255,
                side <= 255,
        ;
        let cube: u32 = square * side;
        match self {
            GrowthRate::Slow => 5 * cube / 4,
            GrowthRate::Medium => cube,
            GrowthRate::Fast => 4 * cube / 5,
        }
    }
}

impl Default for GrowthRate {
    fn default() -> (rate: GrowthRate)
        ensures
            rate == GrowthRate::Medium,
    {
        GrowthRate::Medium
    }
}

/// What a species says of training.
#[derive(Debug, Clone, Copy, PartialEq, Eq, Structural)]
pub struct Training {
    pub base_exp: u16,
    pub growth: GrowthRate,
}

/// What a species says of breeding.
#[derive(Debug, Clone, Copy, PartialEq, Eq, Structural)]
pub struct Breeding {
    /// The share of females, out of [`Gender::RANGE`]; none for a species
    /// without gender.
    pub gender: Option<u8>,
}

/// A move that a species learns on reaching a level.
#[derive(Debug, Clone, Copy, PartialEq, Eq, Structural)]
pub struct LearnableMove(pub Level, pub MoveId);

/// What makes a pokemon evolve.
#[derive(Debug, Clone, Copy, PartialEq, Eq, Structural)]
pub enum EvolutionType {
    Level(Level),
    Item(ItemId),
    Trade,
}

/// An evolution: what brings it about, and the species that comes of it.
#[derive(Debug, Clone, Copy, PartialEq, Eq, Structural)]
pub struct Evolution(pub EvolutionType, pub PokemonId);

} // verus!
