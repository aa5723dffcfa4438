//! The outside source of randomness the random-byte action consumes.

use vstd::prelude::*;

verus! {

/// Relies on rand::random::<u8>: a byte from the thread-local generator.
/// Nothing is promised of the value; every caller must cope with every
/// byte, and the functions that consume one are verified for all of them.
#[verifier::external_body]
pub(crate) fn random_byte() -> u8 {
    rand::random()
}

} // verus!
