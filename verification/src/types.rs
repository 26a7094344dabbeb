//! The elemental types, and how well a move of one type works on another.

use vstd::prelude::*;

use crate::moves::MoveCategory;
use crate::types::PokemonType::{
    Bug, Dark, Dragon, Electric, Fairy, Fighting, Fire, Flying, Phantom, Grass, Ground, Ice, Normal,
    Poison, Psychic, Rock, Steel, Water,
};

verus! {

/// The elemental type of a species or of a move.
#[derive(Debug, Clone, Copy, PartialEq, Eq, Structural)]
pub enum PokemonType {
    Normal,
    Fire,
    Water,
    Electric,
    Grass,
    Ice,
    Fighting,
    Poison,
    Ground,
    Flying,
    Psychic,
    Bug,
    Rock,
    Phantom,
    Dragon,
    Dark,
    Steel,
    Fairy,
}

/// How well a move works on its target: the factor by which its damage is
/// scaled.
#[derive(Debug, Clone, Copy, PartialEq, Eq, Structural)]
pub enum Effective {
    /// No effect: a factor of zero.
    Ineffective,
    /// A quarter: both types of the target resist.
    BarelyEffective,
    /// A half.
    NotEffective,
    /// The plain damage.
    Effective,
    /// Double.
    SuperEffective,
    /// Fourfold: both types of the target are weak.
    ExtremelyEffective,
}

impl Effective {
    /// The factor, counted in quarters.
    pub open spec fn quarters(self) -> nat {
        match self {
            Effective::Ineffective => 0,
            Effective::BarelyEffective => 1,
            Effective::NotEffective => 2,
            Effective::Effective => 4,
            Effective::SuperEffective => 8,
            Effective::ExtremelyEffective => 16,
        }
    }

    /// Whether this is a factor that a single type of a target can give.
    pub open spec fn single(self) -> bool {
        self != Effective::BarelyEffective && self != Effective::ExtremelyEffective
    }

    /// The quarters of the product of two factors given in quarters. Where
    /// neither is zero, the product is kept between a quarter and fourfold.
    pub open spec fn product(a: nat, b: nat) -> nat {
        if a == 0 || b == 0 {
            0
        } else if a * b < 4 {
            1
        } else if a * b > 64 {
            16
        } else {
            a * b / 4
        }
    }

    /// The factor that the two factors give together: their product, which is
    /// exact for the factors of the two types of one target.
    pub fn times(self, other: Effective) -> (both: Effective)
        ensures
            both.quarters() == Effective::product(self.quarters(), other.quarters()),
            self.single() && other.single() ==> both.quarters() * 4 == self.quarters()
                * other.quarters(),
    {
        if self.is_ineffective() || other.is_ineffective() {
            return Effective::Ineffective;
        }
        let doublings: u8 = self.doublings() + other.doublings();
        proof {
            let a = self.quarters();
            let b = other.quarters();
            assert(a == 1 || a == 2 || a == 4 || a == 8 || a == 16);
            assert(a * b == if a == 1 {
                b
            } else if a == 2 {
                2 * b
            } else if a == 4 {
                4 * b
            } else if a == 8 {
                8 * b
            } else {
                16 * b
            }) by (nonlinear_arith)
                requires
                    a == 1 || a == 2 || a == 4 || a == 8 || a == 16,
            ;
        }
        if doublings <= 4 {
            Effective::BarelyEffective
        } else if doublings == 5 {
            Effective::NotEffective
        } else if doublings == 6 {
            Effective::Effective
        } else if doublings == 7 {
            Effective::SuperEffective
        } else {
            Effective::ExtremelyEffective
        }
    }

    fn is_ineffective(self) -> (none: bool)
        ensures
            none == (self.quarters() == 0),
    {
        match self {
            Effective::Ineffective => true,
            _ => false,
        }
    }

    /// The number of doublings that lead from an eighth to this factor: one
    /// for a quarter, five for fourfold.
    fn doublings(self) -> (doublings: u8)
        requires
            self.quarters() != 0,
        ensures
            1 <= doublings <= 5,
            self.quarters() == match doublings {
                1 => 1nat,
                2 => 2,
                3 => 4,
                4 => 8,
                _ => 16,
            },
    {
        match self {
            Effective::Ineffective => 1,
            Effective::BarelyEffective => 1,
            Effective::NotEffective => 2,
            Effective::Effective => 3,
            Effective::SuperEffective => 4,
            Effective::ExtremelyEffective => 5,
        }
    }
}

impl PokemonType {
    /// How well a damaging move of this type works on a target of one type.
    pub open spec fn against(self, target: PokemonType) -> Effective {
        match (self, target) {
            (Normal, Phantom) | (Electric, Ground) | (Fighting, Phantom) | (Poison, Steel)
            | (Ground, Flying) | (Psychic, Dark) | (Phantom, Normal) | (Dragon, Fairy) => Effective::Ineffective,
            (Normal, Rock) | (Normal, Steel) | (Fire, Fire) | (Fire, Water) | (Fire, Rock)
            | (Fire, Dragon) | (Water, Water) | (Water, Grass) | (Water, Dragon)
            | (Electric, Electric) | (Electric, Grass) | (Electric, Dragon) | (Grass, Fire)
            | (Grass, Grass) | (Grass, Poison) | (Grass, Flying) | (Grass, Bug)
            | (Grass, Dragon) | (Grass, Steel) | (Ice, Fire) | (Ice, Water) | (Ice, Ice)
            | (Ice, Steel) | (Fighting, Poison) | (Fighting, Flying) | (Fighting, Psychic)
            | (Fighting, Bug) | (Fighting, Fairy) | (Poison, Poison) | (Poison, Ground)
            | (Poison, Rock) | (Poison, Phantom) | (Ground, Grass) | (Ground, Bug)
            | (Flying, Electric) | (Flying, Rock) | (Flying, Steel) | (Psychic, Psychic)
            | (Psychic, Steel) | (Bug, Fire) | (Bug, Fighting) | (Bug, Poison) | (Bug, Flying)
            | (Bug, Phantom) | (Bug, Steel) | (Bug, Fairy) | (Rock, Fighting) | (Rock, Ground)
            | (Rock, Steel) | (Phantom, Dark) | (Dragon, Steel) | (Dark, Fighting) | (Dark, Dark)
            | (Dark, Fairy) | (Steel, Fire) | (Steel, Water) | (Steel, Electric)
            | (Steel, Steel) | (Fairy, Fire) | (Fairy, Poison) | (Fairy, Steel) => Effective::NotEffective,
            (Fire, Grass) | (Fire, Ice) | (Fire, Bug) | (Fire, Steel) | (Water, Fire)
            | (Water, Ground) | (Water, Rock) | (Electric, Water) | (Electric, Flying)
            | (Grass, Water) | (Grass, Ground) | (Grass, Rock) | (Ice, Grass) | (Ice, Ground)
            | (Ice, Flying) | (Ice, Dragon) | (Fighting, Normal) | (Fighting, Ice)
            | (Fighting, Rock) | (Fighting, Dark) | (Fighting, Steel) | (Poison, Grass)
            | (Poison, Fairy) | (Ground, Fire) | (Ground, Electric) | (Ground, Poison)
            | (Ground, Rock) | (Ground, Steel) | (Flying, Grass) | (Flying, Fighting)
            | (Flying, Bug) | (Psychic, Fighting) | (Psychic, Poison) | (Bug, Grass)
            | (Bug, Psychic) | (Bug, Dark) | (Rock, Fire) | (Rock, Ice) | (Rock, Flying)
            | (Rock, Bug) | (Phantom, Psychic) | (Phantom, Phantom) | (Dragon, Dragon)
            | (Dark, Psychic) | (Dark, Phantom) | (Steel, Ice) | (Steel, Rock) | (Steel, Fairy)
            | (Fairy, Fighting) | (Fairy, Dragon) | (Fairy, Dark) => Effective::SuperEffective,
            _ => Effective::Effective,
        }
    }

    /// How well a move of this type and of the given category works on a
    /// target of one type. A status move deals no damage and is never scaled.
    pub open spec fn spec_effective(self, target: PokemonType, category: MoveCategory) -> Effective {
        if category == MoveCategory::Status {
            Effective::Effective
        } else {
            self.against(target)
        }
    }

    /// How well a move of this type and of the given category works on a
    /// target of one type.
    pub fn effective(&self, target: PokemonType, category: MoveCategory) -> (effective: Effective)
        ensures
            effective == self.spec_effective(target, category),
            effective.single(),
    {
        if category == MoveCategory::Status {
            return Effective::Effective;
        }
        match (*self, target) {
            (Normal, Phantom) | (Electric, Ground) | (Fighting, Phantom) | (Poison, Steel)
            | (Ground, Flying) | (Psychic, Dark) | (Phantom, Normal) | (Dragon, Fairy) => Effective::Ineffective,
            (Normal, Rock) | (Normal, Steel) | (Fire, Fire) | (Fire, Water) | (Fire, Rock)
            | (Fire, Dragon) | (Water, Water) | (Water, Grass) | (Water, Dragon)
            | (Electric, Electric) | (Electric, Grass) | (Electric, Dragon) | (Grass, Fire)
            | (Grass, Grass) | (Grass, Poison) | (Grass, Flying) | (Grass, Bug)
            | (Grass, Dragon) | (Grass, Steel) | (Ice, Fire) | (Ice, Water) | (Ice, Ice)
            | (Ice, Steel) | (Fighting, Poison) | (Fighting, Flying) | (Fighting, Psychic)
            | (Fighting, Bug) | (Fighting, Fairy) | (Poison, Poison) | (Poison, Ground)
            | (Poison, Rock) | (Poison, Phantom) | (Ground, Grass) | (Ground, Bug)
            | (Flying, Electric) | (Flying, Rock) | (Flying, Steel) | (Psychic, Psychic)
            | (Psychic, Steel) | (Bug, Fire) | (Bug, Fighting) | (Bug, Poison) | (Bug, Flying)
            | (Bug, Phantom) | (Bug, Steel) | (Bug, Fairy) | (Rock, Fighting) | (Rock, Ground)
            | (Rock, Steel) | (Phantom, Dark) | (Dragon, Steel) | (Dark, Fighting) | (Dark, Dark)
            | (Dark, Fairy) | (Steel, Fire) | (Steel, Water) | (Steel, Electric)
            | (Steel, Steel) | (Fairy, Fire) | (Fairy, Poison) | (Fairy, Steel) => Effective::NotEffective,
            (Fire, Grass) | (Fire, Ice) | (Fire, Bug) | (Fire, Steel) | (Water, Fire)
            | (Water, Ground) | (Water, Rock) | (Electric, Water) | (Electric, Flying)
            | (Grass, Water) | (Grass, Ground) | (Grass, Rock) | (Ice, Grass) | (Ice, Ground)
            | (Ice, Flying) | (Ice, Dragon) | (Fighting, Normal) | (Fighting, Ice)
            | (Fighting, Rock) | (Fighting, Dark) | (Fighting, Steel) | (Poison, Grass)
            | (Poison, Fairy) | (Ground, Fire) | (Ground, Electric) | (Ground, Poison)
            | (Ground, Rock) | (Ground, Steel) | (Flying, Grass) | (Flying, Fighting)
            | (Flying, Bug) | (Psychic, Fighting) | (Psychic, Poison) | (Bug, Grass)
            | (Bug, Psychic) | (Bug, Dark) | (Rock, Fire) | (Rock, Ice) | (Rock, Flying)
            | (Rock, Bug) | (Phantom, Psychic) | (Phantom, Phantom) | (Dragon, Dragon)
            | (Dark, Psychic) | (Dark, Phantom) | (Steel, Ice) | (Steel, Rock) | (Steel, Fairy)
            | (Fairy, Fighting) | (Fairy, Dragon) | (Fairy, Dark) => Effective::SuperEffective,
            _ => Effective::Effective,
        }
    }
}

} // verus!
