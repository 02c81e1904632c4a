//! The verifier: holds the public value `x^2 mod n`, checks the consistency
//! of each commitment, issues random challenge bits, and checks the revealed
//! root against the committed square it selects.

use crate::arith::mul_mod;
use crate::messages::{ChallengeMsg, CommitmentMsg, ResponseMsg};
use crate::rng::RandomSource;
use vstd::prelude::*;

verus! {

/// The verifier's side of the scheme: the modulus and the public value
/// `x^2 mod n`, both fixed at construction.
#[derive(Clone, Copy, Debug, PartialEq, Eq, Structural)]
pub struct Verifier {
    /// The public composite modulus.
    pub n: u64,
    /// The public value the prover claims a square root of, reduced mod `n`.
    pub x_squared: u64,
}

impl Verifier {
    /// A well-formed verifier: composite modulus, public value reduced.
    pub open spec fn wf(&self) -> bool {
        &&& 2 <= self.n
        &&& self.x_squared < self.n
    }

    /// A verifier for public value `x_squared` modulo `n`.
    pub fn new(n: u64, x_squared: u64) -> (v: Verifier)
        requires
            2 <= n,
            x_squared < n,
        ensures
            v.n == n,
            v.x_squared == x_squared,
            v.wf(),
    {
        Verifier { n, x_squared }
    }

    /// Accept a commitment exactly when `x1 * x2 mod n` equals the public
    /// value: an honest pair of masked roots always satisfies this, and a
    /// mismatch aborts the round as a rejection.
    pub fn check_commitment(&self, commitment: &CommitmentMsg) -> (ok: bool)
        requires
            self.wf(),
        ensures
            ok <==> (commitment.x1 as int * commitment.x2 as int) % (self.n as int)
                == self.x_squared,
    {
        mul_mod(commitment.x1, commitment.x2, self.n) == self.x_squared
    }

    /// Draw a fresh challenge bit from the injected source, independent of
    /// everything drawn before. Nothing is promised of its value.
    pub fn issue_challenge<R: RandomSource>(&self, source: &mut R) -> (c: ChallengeMsg) {
        ChallengeMsg { bit: source.next_bit() }
    }

    /// Accept a response exactly when its square modulo `n` is the committed
    /// square the challenge selected: `x1` for bit `false`, `x2` for `true`.
    pub fn verify_response(
        &self,
        response: &ResponseMsg,
        challenge: &ChallengeMsg,
        commitment: &CommitmentMsg,
    ) -> (ok: bool)
        requires
            self.wf(),
        ensures
            ok <==> (response.value as int * response.value as int) % (self.n as int) == (
            if challenge.bit {
                commitment.x2 as int
            } else {
                commitment.x1 as int
            }),
    {
        let target = if challenge.bit {
            commitment.x2
        } else {
            commitment.x1
        };
        mul_mod(response.value, response.value, self.n) == target
    }
}

} // verus!
