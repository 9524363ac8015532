//! The run's random number source: rand's standard generator, seeded, so
//! a run can be reproduced from its seed. Every stochastic step of the
//! engine draws from one of these.

use vstd::prelude::*;

use crate::fixed::UNIT;

verus! {

#[verifier::external_type_specification]
#[verifier::external_body]
pub struct ExStdRng(rand::rngs::StdRng);

/// Relies on `rand::SeedableRng::seed_from_u64`: a standard generator
/// deterministically derived from the seed. The generator is opaque;
/// nothing is promised of it.
#[verifier::external_body]
pub fn rng_from_seed(seed: u64) -> rand::rngs::StdRng {
    <rand::rngs::StdRng as rand::SeedableRng>::seed_from_u64(seed)
}

/// Relies on `rand::Rng::gen_range`: a value drawn from `[0, 1000000)`,
/// the non-empty range handed to it. The value is random, so only its
/// range is promised.
#[verifier::external_body]
pub fn next_unit(rng: &mut rand::rngs::StdRng) -> (r: i64)
    ensures
        0 <= r < UNIT,
{
    rand::Rng::gen_range(rng, 0..1000000i64)
}

} // verus!
