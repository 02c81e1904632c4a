//! The round orchestrator and the session controller. A round drives one
//! commit / challenge / respond / verify cycle, in that order and skipping
//! nothing; a session repeats rounds, fail-fast, until one rejects or all
//! accept.

use crate::arith::lemma_square_product;
use crate::checker::Verifier;
use crate::prover::Prover;
use crate::rng::RandomSource;
use crate::sampler::UnitSampler;
use vstd::prelude::*;

verus! {

/// Why a round (and with it the session) ended without a cryptographic
/// verdict. Never folded into an accept or a reject.
#[derive(Clone, Copy, Debug, PartialEq, Eq, Structural)]
pub enum AbortReason {
    /// The unit sampler reached its retry cap: a configuration problem,
    /// not a failed proof.
    SamplingExhausted,
    /// The external channel failed mid-round. Raised by transport-layer
    /// drivers outside this crate, never by the in-process orchestrator.
    TransportFailure,
}

/// Terminal state of one round.
#[derive(Clone, Copy, Debug, PartialEq, Eq, Structural)]
pub enum RoundOutcome {
    /// The revealed root matched the committed square the challenge chose.
    Accept,
    /// The commitment was inconsistent or the response did not verify.
    Reject,
    /// The round could not be completed.
    Abort(AbortReason),
}

/// Terminal state of a session: exactly one of accepted, rejected at a
/// round, or indeterminate for a stated reason.
#[derive(Clone, Copy, Debug, PartialEq, Eq, Structural)]
pub enum SessionOutcome {
    /// Every round accepted.
    Accepted,
    /// Fail-fast: the first rejecting round's index.
    Rejected(usize),
    /// A round aborted; neither an accept nor a reject.
    Indeterminate(AbortReason),
}

/// The sealed record of a session: its terminal state, how many rounds ran,
/// and the ordered per-round outcomes.
#[derive(Clone, Debug)]
pub struct SessionVerdict {
    /// The aggregated verdict.
    pub outcome: SessionOutcome,
    /// How many rounds actually ran (equals the length of `round_results`).
    pub rounds_run: usize,
    /// One outcome per round that ran, in order.
    pub round_results: Vec<RoundOutcome>,
}

impl SessionVerdict {
    /// Whether the session accepted.
    pub fn accepted(&self) -> (b: bool)
        ensures
            b <==> self.outcome is Accepted,
    {
        match self.outcome {
            SessionOutcome::Accepted => true,
            _ => false,
        }
    }

    /// The index of the rejecting round, where there is one.
    pub fn failed_round(&self) -> (r: Option<usize>)
        ensures
            match self.outcome {
                SessionOutcome::Rejected(i) => r == Some(i),
                _ => r is None,
            },
    {
        match self.outcome {
            SessionOutcome::Rejected(i) => Some(i),
            _ => None,
        }
    }
}

/// An honest pairing: the verifier checks against exactly the square of the
/// prover's witness, over the prover's modulus.
pub open spec fn honest_setup(p: &Prover, v: &Verifier) -> bool {
    &&& v.n == p.spec_n()
    &&& v.x_squared == (p.spec_x() as int * p.spec_x() as int) % (p.spec_n() as int)
}

/// One round: commit, check the commitment, challenge, respond, verify, in
/// that order; the round state is discarded on entering the terminal state.
/// An honest pairing always accepts unless the sampler gives up; an accept
/// in turn certifies the pairing was honest, since the commitment check
/// compares the committed squares against the public value. The only abort
/// the in-process orchestrator can raise is `SamplingExhausted`.
pub fn run_round<R: RandomSource>(
    prover: &mut Prover,
    verifier: &Verifier,
    sampler: &UnitSampler,
    source: &mut R,
) -> (out: RoundOutcome)
    requires
        old(prover).wf(),
        verifier.wf(),
        verifier.n == old(prover).spec_n(),
    ensures
        final(prover).wf(),
        final(prover).spec_x() == old(prover).spec_x(),
        final(prover).spec_n() == old(prover).spec_n(),
        final(prover).spec_round() is None,
        out matches RoundOutcome::Abort(reason) ==> reason == AbortReason::SamplingExhausted,
        honest_setup(old(prover), verifier) ==> (out is Accept || out == RoundOutcome::Abort(
            AbortReason::SamplingExhausted,
        )),
        out is Accept ==> honest_setup(old(prover), verifier),
{
    let commitment = match prover.commit(sampler, source) {
        Ok(c) => c,
        Err(_) => {
            prover.discard_round();
            return RoundOutcome::Abort(AbortReason::SamplingExhausted);
        },
    };
    proof {
        let rs = prover.spec_round()->0;
        lemma_square_product(rs.u1 as int, rs.u2 as int, verifier.n as int);
    }
    if !verifier.check_commitment(&commitment) {
        prover.discard_round();
        return RoundOutcome::Reject;
    }
    let challenge = verifier.issue_challenge(source);
    let response = prover.respond(challenge);
    let ok = verifier.verify_response(&response, &challenge, &commitment);
    prover.discard_round();
    if ok {
        RoundOutcome::Accept
    } else {
        RoundOutcome::Reject
    }
}

/// A session: up to `round_count` rounds, fail-fast. The verdict is
/// `Accepted` exactly when all `round_count` rounds ran and accepted;
/// `Rejected(i)` names the first (and only) rejecting round; an abort
/// surfaces as `Indeterminate`, never as an accept or a reject. All
/// outcomes before the last recorded one are accepts. An honest pairing
/// always accepts unless the sampler gives up — it is never rejected — and
/// a session of at least one round accepts only an honest pairing.
pub fn run_session<R: RandomSource>(
    prover: &mut Prover,
    verifier: &Verifier,
    sampler: &UnitSampler,
    round_count: usize,
    source: &mut R,
) -> (verdict: SessionVerdict)
    requires
        old(prover).wf(),
        verifier.wf(),
        verifier.n == old(prover).spec_n(),
    ensures
        final(prover).wf(),
        final(prover).spec_x() == old(prover).spec_x(),
        final(prover).spec_n() == old(prover).spec_n(),
        final(prover).spec_round() is None,
        verdict.round_results@.len() == verdict.rounds_run,
        verdict.rounds_run <= round_count,
        verdict.outcome is Accepted <==> (verdict.rounds_run == round_count && forall|i: int|
            0 <= i < verdict.round_results@.len() ==> verdict.round_results@[i] is Accept),
        verdict.outcome matches SessionOutcome::Rejected(i) ==> {
            &&& i < round_count
            &&& verdict.rounds_run == i + 1
            &&& verdict.round_results@[i as int] is Reject
        },
        verdict.outcome matches SessionOutcome::Indeterminate(reason) ==> {
            &&& reason == AbortReason::SamplingExhausted
            &&& verdict.rounds_run >= 1
            &&& verdict.round_results@[verdict.rounds_run - 1] == RoundOutcome::Abort(reason)
        },
        forall|i: int|
            0 <= i < verdict.round_results@.len() - 1 ==> verdict.round_results@[i] is Accept,
        honest_setup(old(prover), verifier) ==> (verdict.outcome is Accepted || verdict.outcome
            == SessionOutcome::Indeterminate(AbortReason::SamplingExhausted)),
        verdict.outcome is Accepted && round_count >= 1 ==> honest_setup(old(prover), verifier),
{
    prover.discard_round();
    let mut round_results: Vec<RoundOutcome> = Vec::new();
    let mut idx: usize = 0;
    while idx < round_count
        invariant
            prover.wf(),
            prover.spec_x() == old(prover).spec_x(),
            prover.spec_n() == old(prover).spec_n(),
            prover.spec_round() is None,
            verifier.wf(),
            verifier.n == prover.spec_n(),
            idx <= round_count,
            round_results@.len() == idx,
            forall|i: int| 0 <= i < round_results@.len() ==> round_results@[i] is Accept,
            idx >= 1 ==> honest_setup(old(prover), verifier),
        decreases round_count - idx,
    {
        let out = run_round(prover, verifier, sampler, source);
        match out {
            RoundOutcome::Accept => {
                round_results.push(out);
                idx = idx + 1;
            },
            RoundOutcome::Reject => {
                round_results.push(out);
                return SessionVerdict {
                    outcome: SessionOutcome::Rejected(idx),
                    rounds_run: idx + 1,
                    round_results,
                };
            },
            RoundOutcome::Abort(reason) => {
                round_results.push(out);
                return SessionVerdict {
                    outcome: SessionOutcome::Indeterminate(reason),
                    rounds_run: idx + 1,
                    round_results,
                };
            },
        }
    }
    SessionVerdict { outcome: SessionOutcome::Accepted, rounds_run: idx, round_results }
}

/// Special soundness, the deterministic core of the cheating-prover bound:
/// whoever can answer both challenges of a single commitment that passes the
/// consistency check holds a square root of the public value, for the product
/// of the two answers squares to it. A prover without such a root can
/// therefore answer at most one of the two challenges per round, and the
/// uniformly random challenge bit catches it with probability at least one
/// half per round.
pub proof fn lemma_special_soundness(
    n: int,
    x_squared: int,
    x1: int,
    x2: int,
    r0: int,
    r1: int,
)
    requires
        0 < n,
        (x1 * x2) % n == x_squared,
        (r0 * r0) % n == x1,
        (r1 * r1) % n == x2,
    ensures
        (((r0 * r1) % n) * ((r0 * r1) % n)) % n == x_squared,
{
    lemma_square_product(r0, r1, n);
}

} // verus!
