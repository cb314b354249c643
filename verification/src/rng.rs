//! Random numbers for the game systems.

use vstd::prelude::*;

verus! {

/// `rand::random::<u32>()`: a number drawn from the thread-local generator.
/// Any `u32` may come back, so nothing is stated of the result.
#[verifier::external_body]
pub(crate) fn random_u32() -> u32 {
    rand::random::<u32>()
}

} // verus!
