//! The unit sampler: draws values invertible modulo `n` by rejection
//! sampling, with a hard cap on retries so that a pathological modulus can
//! stall a round but never hang it.

use crate::arith::{gcd, spec_gcd};
use crate::rng::RandomSource;
use vstd::prelude::*;

verus! {

/// Failure of the unit sampler.
#[derive(Clone, Copy, Debug, PartialEq, Eq, Structural)]
pub enum SampleError {
    /// The retry cap was reached without finding a unit.
    SamplingExhausted,
}

/// Rejection sampling of units modulo `n`: draw, test by gcd, retry, and
/// give up after a configured number of attempts.
#[derive(Clone, Copy, Debug, PartialEq, Eq, Structural)]
pub struct UnitSampler {
    /// How many draws are attempted before `SamplingExhausted`.
    pub max_attempts: u64,
}

impl UnitSampler {
    /// A sampler that gives up after `max_attempts` draws.
    pub fn new(max_attempts: u64) -> (s: UnitSampler)
        ensures
            s.max_attempts == max_attempts,
    {
        UnitSampler { max_attempts }
    }

    /// Draw a value `u` with `0 <= u < n` and `gcd(u, n) == 1`. Success
    /// depends on the source's draws, so it cannot be promised; every failure
    /// is `SamplingExhausted`, never a looping retry.
    pub fn sample_unit<R: RandomSource>(&self, n: u64, source: &mut R) -> (r: Result<
        u64,
        SampleError,
    >)
        requires
            2 <= n,
        ensures
            r matches Ok(u) ==> u < n && spec_gcd(u as nat, n as nat) == 1,
            r is Err ==> r == Err::<u64, SampleError>(SampleError::SamplingExhausted),
    {
        let mut attempts: u64 = 0;
        while attempts < self.max_attempts
            invariant
                2 <= n,
                attempts <= self.max_attempts,
            decreases self.max_attempts - attempts,
        {
            let draw = source.next_u64();
            let candidate = draw % n;
            if gcd(candidate, n) == 1 {
                return Ok(candidate);
            }
            attempts = attempts + 1;
        }
        Err(SampleError::SamplingExhausted)
    }
}

} // verus!
