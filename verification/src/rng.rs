//! Randomness as an injected capability. The sampler and the verifier take a
//! `RandomSource` rather than reaching for global state, so deterministic
//! sources can stand in where reproducible rounds are wanted.

use rand::Rng;
use vstd::prelude::*;

verus! {

/// A source of random words and challenge bits. Nothing is promised of the
/// values drawn: every caller must state what holds of each possible outcome.
pub trait RandomSource {
    /// Draw the next machine word.
    fn next_u64(&mut self) -> u64;

    /// Draw the next challenge bit.
    fn next_bit(&mut self) -> bool;
}

/// The operating system's randomness, as production sessions use it.
pub struct SystemRandom;

/// Relies on `rand::thread_rng` and `Rng::gen::<u64>`: a word drawn from the
/// thread-local generator. Nothing is promised of its value.
#[verifier::external_body]
fn os_random_u64() -> (r: u64) {
    rand::thread_rng().gen::<u64>()
}

/// Relies on `rand::thread_rng` and `Rng::gen::<bool>`: a bit drawn uniformly
/// from the thread-local generator. Nothing is promised of its value.
#[verifier::external_body]
fn os_random_bool() -> (r: bool) {
    rand::thread_rng().gen::<bool>()
}

impl RandomSource for SystemRandom {
    fn next_u64(&mut self) -> u64 {
        os_random_u64()
    }

    fn next_bit(&mut self) -> bool {
        os_random_bool()
    }
}

/// A deterministic source that replays a fixed script of words and bits.
/// Once a script is exhausted it yields zeros (and `false` bits).
pub struct ScriptedSource {
    pub words: Vec<u64>,
    pub bits: Vec<bool>,
    pub word_pos: usize,
    pub bit_pos: usize,
}

impl ScriptedSource {
    /// A source that will hand out `words` and `bits` in order.
    pub fn new(words: Vec<u64>, bits: Vec<bool>) -> (s: ScriptedSource)
        ensures
            s.words@ == words@,
            s.bits@ == bits@,
            s.word_pos == 0,
            s.bit_pos == 0,
    {
        ScriptedSource { words, bits, word_pos: 0, bit_pos: 0 }
    }
}

impl RandomSource for ScriptedSource {
    fn next_u64(&mut self) -> (r: u64)
        ensures
            final(self).words@ == old(self).words@,
            final(self).bits@ == old(self).bits@,
            final(self).bit_pos == old(self).bit_pos,
            old(self).word_pos < old(self).words@.len() ==> {
                &&& r == old(self).words@[old(self).word_pos as int]
                &&& final(self).word_pos == old(self).word_pos + 1
            },
            old(self).word_pos >= old(self).words@.len() ==> {
                &&& r == 0
                &&& final(self).word_pos == old(self).word_pos
            },
    {
        if self.word_pos < self.words.len() {
            let r = self.words[self.word_pos];
            self.word_pos = self.word_pos + 1;
            r
        } else {
            0
        }
    }

    fn next_bit(&mut self) -> (r: bool)
        ensures
            final(self).words@ == old(self).words@,
            final(self).bits@ == old(self).bits@,
            final(self).word_pos == old(self).word_pos,
            old(self).bit_pos < old(self).bits@.len() ==> {
                &&& r == old(self).bits@[old(self).bit_pos as int]
                &&& final(self).bit_pos == old(self).bit_pos + 1
            },
            old(self).bit_pos >= old(self).bits@.len() ==> {
                &&& r == false
                &&& final(self).bit_pos == old(self).bit_pos
            },
    {
        if self.bit_pos < self.bits.len() {
            let r = self.bits[self.bit_pos];
            self.bit_pos = self.bit_pos + 1;
            r
        } else {
            false
        }
    }
}

} // verus!
