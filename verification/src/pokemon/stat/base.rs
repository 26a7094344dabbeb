//! The stats of a pokemon in a battle, with the stages that raise and lower
//! them for a while.

use vstd::prelude::*;

use crate::pokemon::stat::{
    full_health, grow, plain_stat, scale_stat, BaseStat, Stat, StatSet, StatType, Stats,
};
use crate::pokemon::{Level, Pokemon};

verus! {

/// The steps by which a stat is raised or lowered for a while.
pub type Stage = i8;

/// A stat of a battle: one of the six, or the accuracy or evasion.
#[derive(Debug, Clone, Copy, PartialEq, Eq, Structural)]
pub enum FullStatType {
    Basic(StatType),
    Accuracy,
    Evasion,
}

/// One value for each stat of a battle.
#[derive(Debug, Clone, Copy, PartialEq, Eq, Structural)]
pub struct FullStatSet<S> {
    pub basic: StatSet<S>,
    pub accuracy: S,
    pub evasion: S,
}

impl<S> FullStatSet<S> {
    /// The value that the set holds for `stat`.
    pub open spec fn spec_get(self, stat: FullStatType) -> S {
        match stat {
            FullStatType::Basic(stat) => self.basic.spec_get(stat),
            FullStatType::Accuracy => self.accuracy,
            FullStatType::Evasion => self.evasion,
        }
    }

    /// The set that holds `value` for `stat` and is otherwise as this one.
    pub open spec fn with(self, stat: FullStatType, value: S) -> FullStatSet<S> {
        match stat {
            FullStatType::Basic(stat) => FullStatSet { basic: self.basic.with(stat, value), ..self },
            FullStatType::Accuracy => FullStatSet { accuracy: value, ..self },
            FullStatType::Evasion => FullStatSet { evasion: value, ..self },
        }
    }

    /// The value that the set holds for `stat`.
    pub fn get(&self, stat: FullStatType) -> (value: &S)
        ensures
            *value == self.spec_get(stat),
    {
        match stat {
            FullStatType::Basic(stat) => self.basic.get(stat),
            FullStatType::Accuracy => &self.accuracy,
            FullStatType::Evasion => &self.evasion,
        }
    }
}

/// The stats of a pokemon in a battle.
#[derive(Debug, Clone, Copy)]
pub struct BaseStats {
    pub stats: StatSet<BaseStat>,
    pub stages: FullStatSet<Stage>,
    pub accuracy: Stage,
    pub evasion: Stage,
}

/// A change of the stage of one stat.
#[derive(Debug, Clone, Copy, PartialEq, Eq, Structural)]
pub struct StatStage {
    pub stat: FullStatType,
    pub stage: Stage,
}

/// The sum of two stages, kept within what a stage can hold.
pub open spec fn stage_sum(stage: Stage, by: Stage) -> Stage {
    if stage + by > Stage::MAX {
        Stage::MAX
    } else if stage + by < Stage::MIN {
        Stage::MIN
    } else {
        (stage + by) as Stage
    }
}

/// How far a stage is from none, in either direction.
pub open spec fn stage_distance(stage: Stage) -> nat {
    if stage < 0 {
        (-stage) as nat
    } else {
        stage as nat
    }
}

/// A stat under a stage: halves are added above for a raised stat and below
/// for a lowered one. The result is kept within what a stat can hold.
pub open spec fn staged(base: BaseStat, stage: Stage) -> nat {
    let above = if stage > 0 { 2 + stage } else { 2 };
    let below = if stage < 0 { 2 - stage } else { 2 };
    if base * above / below > BaseStat::MAX {
        BaseStat::MAX as nat
    } else {
        (base * above / below) as nat
    }
}

impl BaseStats {
    /// The stats of a pokemon of the given species, values and level, with no
    /// stage raised or lowered.
    pub fn new(pokemon: &Pokemon, ivs: &Stats, evs: &Stats, level: Level) -> (stats: BaseStats)
        ensures
            stats.stats == StatSet::<BaseStat>::computed(pokemon.base, *ivs, *evs, level),
            stats.stages == (FullStatSet {
                basic: StatSet::<Stage>::spec_uniform(0),
                accuracy: 0,
                evasion: 0,
            }),
            stats.accuracy == 0,
            stats.evasion == 0,
    {
        BaseStats {
            stats: StatSet::new(pokemon, ivs, evs, level),
            stages: FullStatSet { basic: StatSet::uniform(0), accuracy: 0, evasion: 0 },
            accuracy: 0,
            evasion: 0,
        }
    }

    /// The number that stands behind a stat of a battle before any stage: the
    /// stat of the pokemon, and a hundred for accuracy and evasion.
    pub open spec fn unstaged(self, stat: FullStatType) -> BaseStat {
        match stat {
            FullStatType::Basic(stat) => self.stats.spec_get(stat),
            FullStatType::Accuracy | FullStatType::Evasion => 100,
        }
    }

    /// A stat as it counts at this moment of the battle.
    pub fn get(&self, stat: FullStatType) -> (value: BaseStat)
        ensures
            value == staged(self.unstaged(stat), self.stages.spec_get(stat)),
    {
        StatSet::mult(
            match stat {
                FullStatType::Basic(stat) => *self.stats.get(stat),
                FullStatType::Accuracy | FullStatType::Evasion => 100,
            },
            *self.stages.get(stat),
        )
    }

    /// The full health.
    pub fn hp(&self) -> (hp: BaseStat)
        ensures
            hp == self.stats.hp,
    {
        self.stats.hp
    }

    /// Whether the change is small enough: the distance of the stage from
    /// none and the change make less than six together.
    pub fn can_change_stage(&self, stat: &StatStage) -> (can: bool)
        ensures
            can == (stage_distance(self.stages.spec_get(stat.stat)) + stat.stage < 6),
    {
        let stage: i16 = *self.stages.get(stat.stat) as i16;
        let distance: i16 = if stage < 0 {
            -stage
        } else {
            stage
        };
        distance + (stat.stage as i16) < 6
    }

    /// Adds the change to the stage of its stat.
    pub fn change_stage(&mut self, stat: StatStage)
        ensures
            final(self).stages == old(self).stages.with(
                stat.stat,
                stage_sum(old(self).stages.spec_get(stat.stat), stat.stage),
            ),
            final(self).stats == old(self).stats,
            final(self).accuracy == old(self).accuracy,
            final(self).evasion == old(self).evasion,
    {
        let sum: i16 = (*self.stages.get(stat.stat) as i16) + (stat.stage as i16);
        let stage: Stage = if sum > Stage::MAX as i16 {
            Stage::MAX
        } else if sum < Stage::MIN as i16 {
            Stage::MIN
        } else {
            sum as Stage
        };
        match stat.stat {
            FullStatType::Basic(StatType::Health) => self.stages.basic.hp = stage,
            FullStatType::Basic(StatType::Attack) => self.stages.basic.atk = stage,
            FullStatType::Basic(StatType::Defense) => self.stages.basic.def = stage,
            FullStatType::Basic(StatType::SpAttack) => self.stages.basic.sp_atk = stage,
            FullStatType::Basic(StatType::SpDefense) => self.stages.basic.sp_def = stage,
            FullStatType::Basic(StatType::Speed) => self.stages.basic.speed = stage,
            FullStatType::Accuracy => self.stages.accuracy = stage,
            FullStatType::Evasion => self.stages.evasion = stage,
        }
    }
}

impl StatSet<BaseStat> {
    /// The stats that the base, individual and effort values give at a level,
    /// under a nature that leaves every stat alone.
    pub open spec fn computed(
        base: Stats,
        ivs: Stats,
        evs: Stats,
        level: Level,
    ) -> StatSet<BaseStat> {
        StatSet {
            hp: full_health(base.hp, ivs.hp, evs.hp, level) as BaseStat,
            atk: plain_stat(base.atk, ivs.atk, evs.atk, level) as BaseStat,
            def: plain_stat(base.def, ivs.def, evs.def, level) as BaseStat,
            sp_atk: plain_stat(base.sp_atk, ivs.sp_atk, evs.sp_atk, level) as BaseStat,
            sp_def: plain_stat(base.sp_def, ivs.sp_def, evs.sp_def, level) as BaseStat,
            speed: plain_stat(base.speed, ivs.speed, evs.speed, level) as BaseStat,
        }
    }

    /// The stats of a pokemon of the given species, values and level.
    pub fn new(
        pokemon: &Pokemon,
        ivs: &Stats,
        evs: &Stats,
        level: Level,
    ) -> (stats: StatSet<BaseStat>)
        ensures
            stats == StatSet::<BaseStat>::computed(pokemon.base, *ivs, *evs, level),
    {
        StatSet {
            hp: StatSet::hp(pokemon.base.hp, ivs.hp, evs.hp, level),
            atk: StatSet::stat(pokemon.base.atk, ivs.atk, evs.atk, level),
            def: StatSet::stat(pokemon.base.def, ivs.def, evs.def, level),
            sp_atk: StatSet::stat(pokemon.base.sp_atk, ivs.sp_atk, evs.sp_atk, level),
            sp_def: StatSet::stat(pokemon.base.sp_def, ivs.sp_def, evs.sp_def, level),
            speed: StatSet::stat(pokemon.base.speed, ivs.speed, evs.speed, level),
        }
    }

    /// A stat other than health, from its base, individual and effort value
    /// at a level.
    pub fn stat(base: Stat, iv: Stat, ev: Stat, level: Level) -> (stat: BaseStat)
        ensures
            stat == plain_stat(base, iv, ev, level),
    {
        scale_stat(base, iv, ev, level, 10)
    }

    /// The full health, from its base, individual and effort value at a
    /// level.
    pub fn hp(base: Stat, iv: Stat, ev: Stat, level: Level) -> (hp: BaseStat)
        ensures
            hp == full_health(base, iv, ev, level),
    {
        (grow(base, iv, ev, level) + level as u32 + 10) as BaseStat
    }
}

impl StatSet<Stage> {
    /// A stat under a stage.
    pub fn mult(base: BaseStat, stage: Stage) -> (value: BaseStat)
        ensures
            value == staged(base, stage),
    {
        let above: u32 = if stage > 0 {
            2 + stage as u32
        } else {
            2
        };
        let below: u32 = if stage < 0 {
            (2 - stage as i32) as u32
        } else {
            2
        };
        assert(base as u32 * above <= 65535 * 129) by (nonlinear_arith)
            requires
                base <= 65535,
                above <= 129,
        ;
        let value: u32 = base as u32 * above / below;
        if value > BaseStat::MAX as u32 {
            BaseStat::MAX
        } else {
            value as BaseStat
        }
    }
}

} // verus!
