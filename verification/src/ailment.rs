//! Lasting conditions that trouble a pokemon.

use vstd::prelude::*;

verus! {

/// A lasting condition.
#[derive(Debug, Clone, Copy, PartialEq, Eq, Structural)]
pub enum Ailment {
    Paralysis,
    Sleep,
    Freeze,
    Burn,
    Poison,
}

/// A condition that a pokemon suffers from, with the turns that it still
/// lasts.
#[derive(Debug, Clone, Copy, PartialEq, Eq, Structural)]
pub struct LiveAilment {
    pub ailment: Ailment,
    pub turns: u8,
}

} // verus!
