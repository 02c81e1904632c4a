//! The prover: holds the secret witness `x` and modulus `n`, commits to a
//! fresh pair of masked roots each round, and reveals the root the challenge
//! selects. The witness never leaves the prover.

use crate::arith::{lemma_mul_inverse_cancels, mod_inverse, mul_mod, spec_gcd};
use crate::messages::{ChallengeMsg, CommitmentMsg, ResponseMsg};
use crate::rng::RandomSource;
use crate::sampler::UnitSampler;
use vstd::arithmetic::div_mod::lemma_small_mod;
use vstd::prelude::*;

verus! {

/// Failure of a commitment.
#[derive(Clone, Copy, Debug, PartialEq, Eq, Structural)]
pub enum CommitError {
    /// The unit sampler reached its retry cap.
    SamplingExhausted,
    /// The sampled value was not invertible. The sampler's contract rules
    /// this out, but the commitment checks it defensively all the same.
    NoInverse,
}

/// The transcript of one round, scoped to that round and discarded at its
/// terminal state: the random unit `u1`, its partner `u2 = x * u1^-1 mod n`,
/// their squares `x1` and `x2`, and, once exchanged, the challenge bit and
/// the revealed response.
#[derive(Clone, Copy, Debug, PartialEq, Eq, Structural)]
pub struct RoundState {
    pub u1: u64,
    pub u2: u64,
    pub x1: u64,
    pub x2: u64,
    pub challenge_bit: Option<bool>,
    pub response: Option<u64>,
}

/// The prover's side of the scheme: witness and modulus, fixed at
/// construction, plus the transient state of the round in flight.
pub struct Prover {
    x: u64,
    n: u64,
    round: Option<RoundState>,
}

impl Prover {
    /// The modulus `n`.
    pub closed spec fn spec_n(&self) -> u64 {
        self.n
    }

    /// The secret witness `x`.
    pub closed spec fn spec_x(&self) -> u64 {
        self.x
    }

    /// The round in flight, if any.
    pub closed spec fn spec_round(&self) -> Option<RoundState> {
        self.round
    }

    /// A well-formed prover: composite modulus, witness reduced and coprime
    /// to it.
    pub open spec fn wf(&self) -> bool {
        &&& 2 <= self.spec_n()
        &&& self.spec_x() < self.spec_n()
        &&& spec_gcd(self.spec_x() as nat, self.spec_n() as nat) == 1
    }

    /// The invariant of every generated round: residues are reduced, the
    /// squares are those of the two roots, and the roots multiply back to
    /// the witness: `u1 * u2 == x (mod n)`, hence `x1 * x2 == x^2 (mod n)`.
    pub open spec fn round_wf(&self, rs: RoundState) -> bool {
        &&& rs.u1 < self.spec_n()
        &&& rs.u2 < self.spec_n()
        &&& rs.x1 == (rs.u1 as int * rs.u1 as int) % (self.spec_n() as int)
        &&& rs.x2 == (rs.u2 as int * rs.u2 as int) % (self.spec_n() as int)
        &&& (rs.u1 as int * rs.u2 as int) % (self.spec_n() as int) == self.spec_x()
    }

    /// A prover for witness `x` and modulus `n`; `x` must be a unit modulo
    /// `n`, which is what the scheme proves knowledge of a root for.
    pub fn new(x: u64, n: u64) -> (p: Prover)
        requires
            2 <= n,
            x < n,
            spec_gcd(x as nat, n as nat) == 1,
        ensures
            p.wf(),
            p.spec_x() == x,
            p.spec_n() == n,
            p.spec_round() is None,
    {
        Prover { x, n, round: None }
    }

    /// One commitment: sample a fresh unit `u1`, mask the witness into
    /// `u2 = x * u1^-1 mod n`, and send the squares of both. The previous
    /// round's state, if any, is dropped first and never reused.
    pub fn commit<R: RandomSource>(
        &mut self,
        sampler: &UnitSampler,
        source: &mut R,
    ) -> (r: Result<CommitmentMsg, CommitError>)
        requires
            old(self).wf(),
        ensures
            final(self).wf(),
            final(self).spec_x() == old(self).spec_x(),
            final(self).spec_n() == old(self).spec_n(),
            match r {
                Ok(msg) => {
                    &&& final(self).spec_round() matches Some(rs)
                    &&& final(self).round_wf(rs)
                    &&& msg == (CommitmentMsg { x1: rs.x1, x2: rs.x2 })
                    &&& rs.challenge_bit is None
                    &&& rs.response is None
                },
                Err(e) => {
                    &&& e == CommitError::SamplingExhausted
                    &&& final(self).spec_round() is None
                },
            },
    {
        self.round = None;
        let u1 = match sampler.sample_unit(self.n, source) {
            Ok(u) => u,
            Err(_) => {
                return Err(CommitError::SamplingExhausted);
            },
        };
        let inv = match mod_inverse(u1, self.n) {
            Ok(v) => v,
            Err(_) => {
                // Unreachable: the sampler guarantees gcd(u1, n) == 1.
                return Err(CommitError::NoInverse);
            },
        };
        let u2 = mul_mod(self.x, inv, self.n);
        let x1 = mul_mod(u1, u1, self.n);
        let x2 = mul_mod(u2, u2, self.n);
        proof {
            lemma_mul_inverse_cancels(self.x as int, u1 as int, inv as int, self.n as int);
            lemma_small_mod(self.x as nat, self.n as nat);
        }
        let rs = RoundState { u1, u2, x1, x2, challenge_bit: None, response: None };
        self.round = Some(rs);
        Ok(CommitmentMsg { x1, x2 })
    }

    /// Reveal the root the challenge selects: `u1` for bit `false` (a root
    /// of `x1`), `u2` for bit `true` (a root of `x2`). The bit and the
    /// revealed value are recorded in the round's transcript; the unused
    /// root stays where it is and is discarded with the round.
    pub fn respond(&mut self, challenge: ChallengeMsg) -> (r: ResponseMsg)
        requires
            old(self).spec_round() is Some,
        ensures
            final(self).spec_x() == old(self).spec_x(),
            final(self).spec_n() == old(self).spec_n(),
            r.value == (if challenge.bit {
                old(self).spec_round()->0.u2
            } else {
                old(self).spec_round()->0.u1
            }),
            final(self).spec_round() matches Some(rs2) && rs2 == (RoundState {
                challenge_bit: Some(challenge.bit),
                response: Some(r.value),
                ..old(self).spec_round()->0
            }),
    {
        let value = match &self.round {
            Some(rs) => {
                if challenge.bit {
                    rs.u2
                } else {
                    rs.u1
                }
            },
            None => 0,
        };
        let updated = match &self.round {
            Some(rs) => {
                RoundState {
                    challenge_bit: Some(challenge.bit),
                    response: Some(value),
                    ..*rs
                }
            },
            None => {
                RoundState {
                    u1: 0,
                    u2: 0,
                    x1: 0,
                    x2: 0,
                    challenge_bit: None,
                    response: None,
                }
            },
        };
        self.round = Some(updated);
        ResponseMsg { value }
    }

    /// Drop the round in flight. The orchestrator calls this on entering a
    /// round's terminal state, so that no round state outlives its round.
    pub fn discard_round(&mut self)
        ensures
            final(self).spec_x() == old(self).spec_x(),
            final(self).spec_n() == old(self).spec_n(),
            final(self).spec_round() is None,
    {
        self.round = None;
    }
}

} // verus!
