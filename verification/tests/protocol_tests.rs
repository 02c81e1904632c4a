use qr_ident::checker::Verifier;
use qr_ident::messages::{ChallengeMsg, CommitmentMsg};
use qr_ident::prover::{CommitError, Prover};
use qr_ident::protocol::{run_round, run_session, AbortReason, RoundOutcome, SessionOutcome};
use qr_ident::rng::{RandomSource, ScriptedSource, SystemRandom};
use qr_ident::sampler::UnitSampler;

// The worked scenario: p = 61, q = 53, n = 3233; witness x = 17, public
// value 17^2 mod 3233 = 289; fixed unit u1 = 15, so u2 = 17 * 15^-1 mod
// 3233 = 2372, x1 = 225, x2 = 964.
const N: u64 = 3233;
const X: u64 = 17;
const X_SQUARED: u64 = 289;

fn scripted(words: Vec<u64>, bits: Vec<bool>) -> ScriptedSource {
    ScriptedSource::new(words, bits)
}

#[test]
fn scripted_source_replays_and_then_zeroes() {
    let mut s = scripted(vec![5, 6], vec![true]);
    assert_eq!(s.next_u64(), 5);
    assert_eq!(s.next_u64(), 6);
    assert_eq!(s.next_u64(), 0);
    assert!(s.next_bit());
    assert!(!s.next_bit());
}

#[test]
fn commitment_of_fixed_unit_matches_scenario() {
    let mut prover = Prover::new(X, N);
    let sampler = UnitSampler::new(8);
    let mut source = scripted(vec![15], vec![]);
    let msg = prover.commit(&sampler, &mut source).unwrap();
    assert_eq!(msg.x1, 225); // 15^2 mod 3233
    assert_eq!(msg.x2, 964); // 2372^2 mod 3233
    // the committed squares multiply to the public value
    assert_eq!((msg.x1 * msg.x2) % N, X_SQUARED);
}

#[test]
fn masked_pair_recovers_witness() {
    // u2 = x * u1^-1 mod n satisfies u1 * u2 == x (mod n)
    let u1: u64 = 15;
    let u2: u64 = 2372;
    assert_eq!((u1 * u2) % N, X);
}

#[test]
fn responses_answer_both_challenges() {
    let mut prover = Prover::new(X, N);
    let sampler = UnitSampler::new(8);
    let verifier = Verifier::new(N, X_SQUARED);

    let mut source = scripted(vec![15], vec![]);
    let msg = prover.commit(&sampler, &mut source).unwrap();
    assert!(verifier.check_commitment(&msg));
    let r0 = prover.respond(ChallengeMsg { bit: false });
    assert_eq!(r0.value, 15);
    assert!(verifier.verify_response(&r0, &ChallengeMsg { bit: false }, &msg));

    let mut source = scripted(vec![15], vec![]);
    let msg = prover.commit(&sampler, &mut source).unwrap();
    let r1 = prover.respond(ChallengeMsg { bit: true });
    assert_eq!(r1.value, 2372);
    assert!(verifier.verify_response(&r1, &ChallengeMsg { bit: true }, &msg));

    // a root of the wrong square does not verify
    assert!(!verifier.verify_response(&r1, &ChallengeMsg { bit: false }, &msg));
}

#[test]
fn tampered_commitment_is_refused() {
    let mut prover = Prover::new(X, N);
    let sampler = UnitSampler::new(8);
    let verifier = Verifier::new(N, X_SQUARED);
    let mut source = scripted(vec![15], vec![]);
    let msg = prover.commit(&sampler, &mut source).unwrap();
    assert!(verifier.check_commitment(&msg));
    let tampered = CommitmentMsg { x1: msg.x1 + 1, x2: msg.x2 };
    assert!(!verifier.check_commitment(&tampered));
}

#[test]
fn round_with_wrong_public_value_rejects() {
    // a verifier expecting a different square must reject the round
    let mut prover = Prover::new(X, N);
    let sampler = UnitSampler::new(8);
    let verifier = Verifier::new(N, X_SQUARED + 1);
    let mut source = scripted(vec![15], vec![false]);
    let out = run_round(&mut prover, &verifier, &sampler, &mut source);
    assert_eq!(out, RoundOutcome::Reject);
}

#[test]
fn honest_round_accepts_under_either_bit() {
    let sampler = UnitSampler::new(64);
    let verifier = Verifier::new(N, X_SQUARED);
    for bit in [false, true] {
        let mut prover = Prover::new(X, N);
        let mut source = scripted(vec![15], vec![bit]);
        let out = run_round(&mut prover, &verifier, &sampler, &mut source);
        assert_eq!(out, RoundOutcome::Accept);
    }
}

#[test]
fn honest_session_accepts_all_rounds() {
    let mut prover = Prover::new(X, N);
    let sampler = UnitSampler::new(64);
    let verifier = Verifier::new(N, X_SQUARED);
    let mut source = SystemRandom;
    let verdict = run_session(&mut prover, &verifier, &sampler, 20, &mut source);
    assert!(verdict.accepted());
    assert_eq!(verdict.outcome, SessionOutcome::Accepted);
    assert_eq!(verdict.rounds_run, 20);
    assert_eq!(verdict.round_results.len(), 20);
    assert_eq!(verdict.failed_round(), None);
    assert!(verdict.round_results.iter().all(|o| *o == RoundOutcome::Accept));
}

#[test]
fn dishonest_session_fails_fast_at_round_zero() {
    let mut prover = Prover::new(X, N);
    let sampler = UnitSampler::new(64);
    let verifier = Verifier::new(N, X_SQUARED + 1);
    let mut source = SystemRandom;
    let verdict = run_session(&mut prover, &verifier, &sampler, 20, &mut source);
    assert!(!verdict.accepted());
    assert_eq!(verdict.outcome, SessionOutcome::Rejected(0));
    assert_eq!(verdict.failed_round(), Some(0));
    assert_eq!(verdict.rounds_run, 1);
    assert_eq!(verdict.round_results, vec![RoundOutcome::Reject]);
}

#[test]
fn exhausted_sampler_aborts_commitment() {
    let mut prover = Prover::new(X, N);
    let sampler = UnitSampler::new(3);
    // 61 divides 3233, so every scripted draw is rejected
    let mut source = scripted(vec![61, 61, 61], vec![]);
    let err = prover.commit(&sampler, &mut source).unwrap_err();
    assert_eq!(err, CommitError::SamplingExhausted);
}

#[test]
fn exhausted_sampler_makes_session_indeterminate() {
    let mut prover = Prover::new(X, N);
    let sampler = UnitSampler::new(3);
    let mut source = scripted(vec![61, 61, 61], vec![]);
    let verdict = run_session(&mut prover, &verifier_honest(), &sampler, 5, &mut source);
    assert!(!verdict.accepted());
    assert_eq!(
        verdict.outcome,
        SessionOutcome::Indeterminate(AbortReason::SamplingExhausted)
    );
    assert_eq!(verdict.failed_round(), None);
    assert_eq!(verdict.rounds_run, 1);
    assert_eq!(
        verdict.round_results,
        vec![RoundOutcome::Abort(AbortReason::SamplingExhausted)]
    );
}

fn verifier_honest() -> Verifier {
    Verifier::new(N, X_SQUARED)
}

#[test]
fn abort_in_a_later_round_keeps_earlier_accepts() {
    let mut prover = Prover::new(X, N);
    let sampler = UnitSampler::new(3);
    // round 0 draws the unit 15 and accepts; round 1 exhausts the sampler
    let mut source = scripted(vec![15, 61, 61, 61], vec![true]);
    let verdict = run_session(&mut prover, &verifier_honest(), &sampler, 5, &mut source);
    assert_eq!(
        verdict.outcome,
        SessionOutcome::Indeterminate(AbortReason::SamplingExhausted)
    );
    assert_eq!(verdict.rounds_run, 2);
    assert_eq!(
        verdict.round_results,
        vec![
            RoundOutcome::Accept,
            RoundOutcome::Abort(AbortReason::SamplingExhausted)
        ]
    );
}

#[test]
fn deterministic_session_replays_exactly() {
    let mut prover = Prover::new(X, N);
    let sampler = UnitSampler::new(8);
    let verifier = verifier_honest();
    let mut source = scripted(vec![15, 15, 15], vec![false, true, false]);
    let verdict = run_session(&mut prover, &verifier, &sampler, 3, &mut source);
    assert!(verdict.accepted());
    assert_eq!(verdict.rounds_run, 3);
}

#[test]
fn extracted_root_squares_to_public_value() {
    // both answers of one commitment combine into a root of the public value
    let r0: u64 = 15;
    let r1: u64 = 2372;
    let witness = (r0 * r1) % N;
    assert_eq!((witness * witness) % N, X_SQUARED);
}
