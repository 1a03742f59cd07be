//! The machine's source of random bytes.

use vstd::prelude::*;
use rand::Rng;

verus! {

/// A byte from `rand::thread_rng().gen::<u8>()`, the thread-local generator
/// that the operating system seeds. Nothing is claimed of the byte: two
/// calls may return any two values. `rand` panics where the operating
/// system has no entropy to seed the generator with; nothing a caller passes
/// can bring that about or prevent it.
#[verifier::external_body]
pub(crate) fn random_byte() -> (byte: u8) {
    rand::thread_rng().gen::<u8>()
}

} // verus!
