//! The source of random cell states: a seedable generator that the caller
//! owns and hands in.

use rand::Rng;
use vstd::prelude::*;

verus! {

/// The seedable generator `rand::rngs::StdRng`, carried through as an opaque
/// value.
#[verifier::external_type_specification]
#[verifier::external_body]
pub struct ExStdRng(rand::rngs::StdRng);

/// Draws one cell state with `rand::Rng::gen::<bool>`, which advances the
/// generator and tests the top bit of its next 32-bit word. Nothing is
/// claimed of the state that comes back: either value may.
#[verifier::external_body]
pub(crate) fn random_state(rng: &mut rand::rngs::StdRng) -> (alive: bool) {
    rng.gen::<bool>()
}

} // verus!
