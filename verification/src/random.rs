//! The one place where chance comes in.

use vstd::prelude::*;

verus! {

/// The generator of random numbers that is handed to whatever rolls dice.
pub type Random = rand::rngs::StdRng;

/// `rand::rngs::StdRng`: the state of a generator, of which nothing is known.
#[verifier::external_type_specification]
#[verifier::external_body]
pub struct ExStdRng(rand::rngs::StdRng);

/// `rand::Rng::gen_range` on `0..bound`: some number below `bound`. Which one
/// depends on the state of the generator, so nothing more is said of it.
#[verifier::external_body]
pub(crate) fn roll_below(random: &mut Random, bound: u8) -> (roll: u8)
    requires
        bound > 0,
    ensures
        roll < bound,
{
    rand::Rng::gen_range(random, 0..bound)
}

} // verus!
