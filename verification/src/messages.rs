//! The three messages a round exchanges over the (externally supplied)
//! channel between prover and verifier.

use vstd::prelude::*;

verus! {

/// First message of a round: the two committed squares `x1 = u1^2 mod n` and
/// `x2 = u2^2 mod n`, binding the prover to its masked roots.
#[derive(Clone, Copy, Debug, PartialEq, Eq, Structural)]
pub struct CommitmentMsg {
    pub x1: u64,
    pub x2: u64,
}

/// Second message of a round: the verifier's challenge. Bit `false` requests
/// a square root of `x1`, bit `true` one of `x2`.
#[derive(Clone, Copy, Debug, PartialEq, Eq, Structural)]
pub struct ChallengeMsg {
    pub bit: bool,
}

/// Third message of a round: the root the challenge selected.
#[derive(Clone, Copy, Debug, PartialEq, Eq, Structural)]
pub struct ResponseMsg {
    pub value: u64,
}

} // verus!
