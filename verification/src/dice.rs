//! The dice: the one place where chance enters the crate.
//!
//! Every random number comes from the `rand` crate's thread-local generator.
//! Nothing is proved of that crate; the three functions below are believed to
//! return a value of their type and nothing more, which is all the rest of the
//! crate relies on. The generator seeds itself from the operating system on
//! first use and panics if the system has no randomness to give; no argument
//! of ours decides that.

use vstd::prelude::*;

verus! {

/// Calls `rand::random::<u8>()`. Any byte may come back, so the contract
/// promises nothing beyond the type.
#[verifier::external_body]
pub(crate) fn random_u8() -> (roll: u8) {
    rand::random::<u8>()
}

/// Calls `rand::random::<u16>()`. Any value may come back, so the contract
/// promises nothing beyond the type.
#[verifier::external_body]
pub(crate) fn random_u16() -> (roll: u16) {
    rand::random::<u16>()
}

/// Calls `rand::random::<usize>()`. Any value may come back, so the contract
/// promises nothing beyond the type.
#[verifier::external_body]
pub(crate) fn random_usize() -> (roll: usize) {
    rand::random::<usize>()
}

} // verus!
