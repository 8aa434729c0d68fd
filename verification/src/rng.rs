//! The pseudo-random source behind target placement and lifetime jitter.
//!
//! Nothing here is proved: the items below state what is taken on trust of
//! the generator that `macroquad::rand` exports.

use macroquad::rand::RandGenerator;
use vstd::prelude::*;

verus! {

#[verifier::external_type_specification]
#[verifier::external_body]
pub struct ExRandGenerator(RandGenerator);

/// `RandGenerator::new` builds a generator in its fixed initial state.
/// Nothing is claimed of the value.
pub assume_specification[ RandGenerator::new ]() -> (generator: RandGenerator);

/// `RandGenerator::srand` restarts the stream of a generator from a seed.
/// Nothing is claimed of the state it leaves.
pub assume_specification[ RandGenerator::srand ](generator: &RandGenerator, seed: u64);

/// `RandGenerator::gen_range` on `u32` bounds. The crate scales one raw draw
/// to `low + (high - low) * r` with `0 <= r < 1`, in double precision, where
/// every `u32` is exact, and truncates. For `low <= high` the outcome
/// therefore lies in the closed range; which value comes is not specified.
#[verifier::external_body]
pub(crate) fn draw_between(generator: &RandGenerator, low: u32, high: u32) -> (value: u32)
    requires
        low <= high,
    ensures
        low <= value <= high,
{
    generator.gen_range(low, high)
}

} // verus!
