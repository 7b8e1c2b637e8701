//! The single seeded random source shared by all spawners.
use vstd::prelude::*;
use rand::rngs::SmallRng;
use rand::Rng;
use rand::SeedableRng;

verus! {

#[verifier::external_type_specification]
#[verifier::external_body]
pub struct ExSmallRng(SmallRng);

/// Relies on `SeedableRng::seed_from_u64` for `SmallRng`: a generator whose
/// whole stream is fixed by the seed.
#[verifier::external_body]
fn small_rng_from_seed(seed: u64) -> (r: SmallRng) {
    SmallRng::seed_from_u64(seed)
}

/// Relies on `Rng::random_range` over `lo..=hi`: a value inside the inclusive
/// range; it panics only on an empty range, which `requires` leaves out.
#[verifier::external_body]
fn small_rng_between(rng: &mut SmallRng, lo: u64, hi: u64) -> (r: u64)
    requires
        lo <= hi,
    ensures
        lo <= r <= hi,
{
    rng.random_range(lo..=hi)
}

/// Relies on `Rng::random_ratio`: `true` with chance `numerator / denominator`,
/// always `false` for a zero numerator and always `true` when the two are
/// equal; it panics on a zero denominator or a numerator above it.
#[verifier::external_body]
fn small_rng_ratio(rng: &mut SmallRng, numerator: u32, denominator: u32) -> (r: bool)
    requires
        0 < denominator,
        numerator <= denominator,
    ensures
        numerator == 0 ==> !r,
        numerator == denominator ==> r,
{
    rng.random_ratio(numerator, denominator)
}

/// The process-wide pseudo-random generator. It is seeded once and then
/// only advanced; the values it hands out depend on the seed and on the order
/// of the calls alone.
pub struct RandomSource {
    rng: SmallRng,
}

/// The seed the game starts from.
pub const RANDOM_SOURCE_SEED: u64 = 0xDEAD_C0DE;

impl RandomSource {
    /// A source seeded with `seed`.
    pub fn new(seed: u64) -> (r: RandomSource) {
        RandomSource { rng: small_rng_from_seed(seed) }
    }

    /// A value drawn uniformly from `lo..=hi`.
    pub fn between(&mut self, lo: u64, hi: u64) -> (r: u64)
        requires
            lo <= hi,
        ensures
            lo <= r <= hi,
    {
        small_rng_between(&mut self.rng, lo, hi)
    }

    /// `true` with chance `numerator / denominator`.
    pub fn ratio(&mut self, numerator: u32, denominator: u32) -> (r: bool)
        requires
            0 < denominator,
            numerator <= denominator,
        ensures
            numerator == 0 ==> !r,
            numerator == denominator ==> r,
    {
        small_rng_ratio(&mut self.rng, numerator, denominator)
    }
}

} // verus!
