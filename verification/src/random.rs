//! The source of random bytes.

use rand::Rng;
use vstd::prelude::*;

verus! {

/// Draws one byte from the thread-local generator of the `rand` crate, by
/// `rand::thread_rng().gen()`. The generator is seeded by the system, so
/// the byte differs from call to call and nothing is claimed of it: callers
/// are verified for every value. The call panics if the system cannot seed
/// the generator.
#[verifier::external_body]
pub(crate) fn random_byte() -> (byte: u8) {
    rand::thread_rng().gen()
}

} // verus!
