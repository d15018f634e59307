//! The random-number source: one explicitly owned generator, seeded once and
//! passed to every sampling operation. All calls into the `rand` crate stand
//! here; each wrapper states only what holds of every outcome.

use vstd::prelude::*;
use rand::distributions::Distribution;
use rand::SeedableRng;
use crate::city::is_alnum_byte;

verus! {

/// Relies on rand's StdRng: declared opaquely so a generator value can be
/// owned and threaded through the sampling wrappers below.
#[verifier::external_type_specification]
#[verifier::external_body]
pub struct ExStdRng(rand::rngs::StdRng);

/// The generator state that every sampling operation draws from.
pub struct GenRng {
    rng: rand::rngs::StdRng,
}

impl GenRng {
    /// Relies on StdRng::seed_from_u64: builds a generator from the given seed.
    #[verifier::external_body]
    pub fn from_seed(seed: u64) -> GenRng {
        GenRng { rng: rand::rngs::StdRng::seed_from_u64(seed) }
    }

    /// Relies on StdRng::from_entropy: builds a generator from system entropy.
    #[verifier::external_body]
    pub fn from_entropy() -> GenRng {
        GenRng { rng: rand::rngs::StdRng::from_entropy() }
    }

    /// Relies on Uniform::new_inclusive and Distribution::sample: the sample
    /// lies in [lo, hi]; Uniform::new_inclusive panics when lo > hi.
    #[verifier::external_body]
    pub(crate) fn sample_usize_inclusive(&mut self, lo: usize, hi: usize) -> (r: usize)
        requires
            lo <= hi,
        ensures
            lo <= r <= hi,
    {
        rand::distributions::Uniform::new_inclusive(lo, hi).sample(&mut self.rng)
    }

    /// Relies on Uniform::new and Distribution::sample: the sample lies in
    /// [lo, hi); Uniform::new panics when lo >= hi.
    #[verifier::external_body]
    pub(crate) fn sample_usize_range(&mut self, lo: usize, hi: usize) -> (r: usize)
        requires
            lo < hi,
        ensures
            lo <= r < hi,
    {
        rand::distributions::Uniform::new(lo, hi).sample(&mut self.rng)
    }

    /// Relies on Uniform::new_inclusive and Distribution::sample: the sample
    /// lies in [lo, hi]; Uniform::new_inclusive panics when lo > hi.
    #[verifier::external_body]
    pub(crate) fn sample_i16_inclusive(&mut self, lo: i16, hi: i16) -> (r: i16)
        requires
            lo <= hi,
        ensures
            lo <= r <= hi,
    {
        rand::distributions::Uniform::new_inclusive(lo, hi).sample(&mut self.rng)
    }

    /// Relies on Alphanumeric's Distribution<u8> impl: the sample is one byte
    /// of A-Z, a-z or 0-9.
    #[verifier::external_body]
    pub(crate) fn sample_alnum_byte(&mut self) -> (r: u8)
        ensures
            is_alnum_byte(r),
    {
        rand::distributions::Alphanumeric.sample(&mut self.rng)
    }
}

} // verus!
