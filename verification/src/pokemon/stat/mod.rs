//! The six stats of a pokemon and the numbers they are made of.
//!
//! Every stat is computed in whole numbers. A division leaves out what does
//! not go in, which is rounding down, so that the results do not depend on
//! the precision of any floating-point type.

use vstd::prelude::*;

use crate::random::{roll_below, Random};

pub mod base;

verus! {

/// A number that a stat is made of: a base value, an individual value or an
/// effort value.
pub type Stat = u8;

/// A stat as it counts in play.
pub type BaseStat = u16;

/// A sextet of individual, effort or base values.
pub type Stats = StatSet<Stat>;

/// A sextet of stats as they count in play.
pub type BaseStatSet = StatSet<BaseStat>;

/// The six stats.
#[derive(Debug, Clone, Copy, PartialEq, Eq, Structural)]
pub enum StatType {
    Health,
    Attack,
    Defense,
    SpAttack,
    SpDefense,
    Speed,
}

/// One value for each of the six stats.
#[derive(Debug, Clone, Copy, PartialEq, Eq, Structural)]
pub struct StatSet<S> {
    pub hp: S,
    pub atk: S,
    pub def: S,
    pub sp_atk: S,
    pub sp_def: S,
    pub speed: S,
}

impl<S> StatSet<S> {
    /// The value that the set holds for `stat`.
    pub open spec fn spec_get(self, stat: StatType) -> S {
        match stat {
            StatType::Health => self.hp,
            StatType::Attack => self.atk,
            StatType::Defense => self.def,
            StatType::SpAttack => self.sp_atk,
            StatType::SpDefense => self.sp_def,
            StatType::Speed => self.speed,
        }
    }

    /// The set that holds `value` for `stat` and is otherwise as this one.
    pub open spec fn with(self, stat: StatType, value: S) -> StatSet<S> {
        match stat {
            StatType::Health => StatSet { hp: value, ..self },
            StatType::Attack => StatSet { atk: value, ..self },
            StatType::Defense => StatSet { def: value, ..self },
            StatType::SpAttack => StatSet { sp_atk: value, ..self },
            StatType::SpDefense => StatSet { sp_def: value, ..self },
            StatType::Speed => StatSet { speed: value, ..self },
        }
    }

    /// The value that the set holds for `stat`.
    pub fn get(&self, stat: StatType) -> (value: &S)
        ensures
            *value == self.spec_get(stat),
    {
        match stat {
            StatType::Health => &self.hp,
            StatType::Attack => &self.atk,
            StatType::Defense => &self.def,
            StatType::SpAttack => &self.sp_atk,
            StatType::SpDefense => &self.sp_def,
            StatType::Speed => &self.speed,
        }
    }
}

impl<S: Copy> StatSet<S> {
    /// The set that holds `value` for every stat.
    pub open spec fn spec_uniform(value: S) -> StatSet<S> {
        StatSet { hp: value, atk: value, def: value, sp_atk: value, sp_def: value, speed: value }
    }

    /// The set that holds `value` for every stat.
    pub fn uniform(value: S) -> (set: StatSet<S>)
        ensures
            set == StatSet::spec_uniform(value),
    {
        StatSet { hp: value, atk: value, def: value, sp_atk: value, sp_def: value, speed: value }
    }
}

impl StatSet<Stat> {
    /// An individual value lies below this number.
    pub const IV_RANGE: Stat = 32;

    /// Whether every value of the set can be an individual value.
    pub open spec fn individual(self) -> bool {
        &&& self.hp < Stats::IV_RANGE
        &&& self.atk < Stats::IV_RANGE
        &&& self.def < Stats::IV_RANGE
        &&& self.sp_atk < Stats::IV_RANGE
        &&& self.sp_def < Stats::IV_RANGE
        &&& self.speed < Stats::IV_RANGE
    }

    /// The individual values of a pokemon of which no more is known.
    pub fn default_iv() -> (ivs: Stats)
        ensures
            ivs == Stats::spec_uniform(15),
    {
        StatSet::uniform(15)
    }

    /// Individual values picked by chance.
    pub fn random(random: &mut Random) -> (ivs: Stats)
        ensures
            ivs.individual(),
    {
        StatSet {
            hp: roll_below(random, Stats::IV_RANGE),
            atk: roll_below(random, Stats::IV_RANGE),
            def: roll_below(random, Stats::IV_RANGE),
            sp_atk: roll_below(random, Stats::IV_RANGE),
            sp_def: roll_below(random, Stats::IV_RANGE),
            speed: roll_below(random, Stats::IV_RANGE),
        }
    }
}

impl Default for StatSet<Stat> {
    fn default() -> (none: Stats)
        ensures
            none == Stats::spec_uniform(0),
    {
        StatSet::uniform(0)
    }
}

/// The share of the base, individual and effort values that a pokemon of the
/// given level has reached: twice the base value and the two others, by the
/// level, in whole hundredths.
pub open spec fn grown(base: Stat, iv: Stat, ev: Stat, level: u8) -> nat {
    ((2 * base + iv + ev) * level / 100) as nat
}

/// A stat other than health: five more than the grown share, scaled by the
/// tenths of the nature and cut to a whole number.
pub open spec fn scaled_stat(base: Stat, iv: Stat, ev: Stat, level: u8, tenths: nat) -> nat {
    (grown(base, iv, ev, level) + 5) * tenths / 10
}

/// A stat other than health under a nature that leaves it alone.
pub open spec fn plain_stat(base: Stat, iv: Stat, ev: Stat, level: u8) -> nat {
    grown(base, iv, ev, level) + 5
}

/// The full health: the grown share, the level and ten more. No nature
/// scales it.
pub open spec fn full_health(base: Stat, iv: Stat, ev: Stat, level: u8) -> nat {
    grown(base, iv, ev, level) + level as nat + 10
}

/// The grown share is at most 2601, which a level of 255 and values of 255
/// give.
pub proof fn lemma_grown_bound(base: Stat, iv: Stat, ev: Stat, level: u8)
    ensures
        (2 * base + iv + ev) * level <= 260_100,
        grown(base, iv, ev, level) <= 2601,
{
    assert((2 * base + iv + ev) * level <= 1020 * 255) by (nonlinear_arith)
        requires
            0 <= 2 * base + iv + ev <= 1020,
            0 <= level <= 255,
    ;
}

/// The grown share in whole hundredths.
pub(crate) fn grow(base: Stat, iv: Stat, ev: Stat, level: u8) -> (share: u32)
    ensures
        share == grown(base, iv, ev, level),
        share <= 2601,
{
    proof {
        lemma_grown_bound(base, iv, ev, level);
    }
    let sum: u32 = 2 * (base as u32) + iv as u32 + ev as u32;
    sum * (level as u32) / 100
}

/// A stat other than health, scaled by the given tenths.
pub(crate) fn scale_stat(base: Stat, iv: Stat, ev: Stat, level: u8, tenths: u8) -> (stat: BaseStat)
    requires
        tenths <= 11,
    ensures
        stat == scaled_stat(base, iv, ev, level, tenths as nat),
{
    let inner: u32 = grow(base, iv, ev, level) + 5;
    assert(inner * tenths <= 2606 * 11) by (nonlinear_arith)
        requires
            inner <= 2606,
            tenths <= 11,
    ;
    (inner * (tenths as u32) / 10) as BaseStat
}

} // verus!
