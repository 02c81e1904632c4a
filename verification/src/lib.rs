//! An interactive zero-knowledge identification scheme in the style of
//! Feige, Fiat and Shamir: a prover convinces a verifier that it knows a
//! square root `x` of a public quadratic residue `x^2 mod n`, for a composite
//! modulus `n`, without revealing `x`.
//!
//! The crate is organised leaves first: arithmetic primitives (`arith`), a
//! source of randomness (`rng`), the rejection sampler for units modulo `n`
//! (`sampler`), the wire messages (`messages`), the two parties (`prover`,
//! `checker`), and the round and session drivers (`protocol`).

pub mod arith;
pub mod protocol;
pub mod checker;
pub mod prover;
pub mod messages;
pub mod rng;
pub mod sampler;
