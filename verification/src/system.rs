//! The clock and the random sources that the library draws on.
use vstd::prelude::*;

verus! {

/// Seconds since the Unix epoch by the system clock
/// (`SystemTime::now().duration_since(UNIX_EPOCH)`), or `None` when the clock
/// reads a time before the epoch. The clock can read anything, so nothing
/// more is stated.
#[verifier::external_body]
pub(crate) fn unix_now() -> (seconds: Option<u64>) {
    std::time::SystemTime::now().duration_since(std::time::UNIX_EPOCH).ok().map(|d| d.as_secs())
}

/// A random (version 4) UUID from `uuid::Uuid::new_v4`, as its 128-bit
/// value. It is random, so nothing is stated of it.
#[verifier::external_body]
pub(crate) fn new_uuid() -> (id: u128) {
    uuid::Uuid::new_v4().as_u128()
}

/// 32 random bytes from `rand::random`. They are random, so nothing is
/// stated of them.
#[verifier::external_body]
pub(crate) fn random_nonce() -> (nonce: [u8; 32]) {
    rand::random()
}

} // verus!
