//! A seed for the random choices of a job, carried from job to job.
use rand::{RngCore, SeedableRng};
use vstd::prelude::*;

verus! {

#[verifier::external_type_specification]
#[verifier::external_body]
pub struct ExSmallRng(rand::rngs::SmallRng);

/// A fresh random number from the operating system; wraps
/// `rand::rngs::OsRng::next_u64`. Nothing is stated of its value.
#[verifier::external_body]
fn os_random_u64() -> u64 {
    let mut rng = rand::rngs::OsRng;
    rng.next_u64()
}

/// A small fast generator started from `seed`; wraps
/// `rand::rngs::SmallRng::seed_from_u64`. Its stream is documented as not
/// portable across platforms or versions of `rand`, so nothing is stated of it.
#[verifier::external_body]
pub(crate) fn small_rng_from_seed(seed: u64) -> rand::rngs::SmallRng {
    rand::rngs::SmallRng::seed_from_u64(seed)
}

/// The next number of the generator; wraps `RngCore::next_u64` of
/// `rand::rngs::SmallRng`. Nothing is stated of its value.
#[verifier::external_body]
pub(crate) fn small_rng_next_u64(rng: &mut rand::rngs::SmallRng) -> u64 {
    rng.next_u64()
}

/// A seed for the random choices of a job.
#[derive(Debug, Clone, Copy, PartialEq, Eq, Structural)]
pub struct RandomSeed(pub u64);

impl RandomSeed {
    /// The seed with the given value.
    pub fn from_u64(seed: u64) -> (res: Self)
        ensures
            res.0 == seed,
    {
        RandomSeed(seed)
    }

    /// A seed drawn from the operating system's randomness; any value may
    /// come, so nothing is stated of it.
    pub fn new() -> Self {
        RandomSeed(os_random_u64())
    }

    /// The value of the seed.
    pub fn value(&self) -> (res: u64)
        ensures
            res == self.0,
    {
        self.0
    }

    /// Two seeds: the first two numbers of a small generator started from this
    /// seed. `rand` documents that generator's stream as not reproducible across
    /// platforms or versions, so nothing is stated of the two numbers.
    pub fn split(&self) -> (RandomSeed, RandomSeed) {
        let mut rng = small_rng_from_seed(self.0);
        let seed1 = RandomSeed::from_u64(small_rng_next_u64(&mut rng));
        let seed2 = RandomSeed::from_u64(small_rng_next_u64(&mut rng));
        (seed1, seed2)
    }
}

} // verus!
