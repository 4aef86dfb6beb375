//! The source of random bytes.

use vstd::prelude::*;

verus! {

/// A byte from `rand::random`, which draws it from the thread-local
/// generator of the `rand` crate. The generator is seeded by the operating
/// system, so nothing is claimed of the value: callers are verified for
/// every byte.
#[verifier::external_body]
pub(crate) fn random_byte() -> u8 {
    rand::random()
}

} // verus!
