//! The machine's source of random words, backing the random-number port:
//! the rand crate's thread-local generator.

use vstd::prelude::*;

verus! {

#[verifier::external_type_specification]
#[verifier::external_body]
pub struct ExThreadRng(rand::rngs::ThreadRng);

/// Relies on rand::rng: returns a handle to the thread-local generator.
#[verifier::external_body]
pub(crate) fn fresh_rng() -> rand::rngs::ThreadRng {
    rand::rng()
}

/// Relies on rand's Rng::random for u8: draws one random word. The result
/// depends on the generator's hidden state, so nothing is promised of it;
/// callers must be correct for every value that comes back.
#[verifier::external_body]
pub(crate) fn random_word(rng: &mut rand::rngs::ThreadRng) -> u8 {
    rand::RngExt::random(rng)
}

} // verus!
