//! Random values drawn for a volley.

use vstd::prelude::*;

verus! {

/// Calls `rand::random::<u16>()`, which draws a value from the thread's
/// generator. Nothing is stated of the value: every 16-bit number may come.
///
/// Trusted: the body is not verified.
#[verifier::external_body]
pub(crate) fn random_identifier() -> (identifier: u16) {
    rand::random::<u16>()
}

/// Calls `fill_bytes` of `rand::thread_rng()` on a buffer of `len` bytes. Only
/// the length of the result is stated: every content may come.
///
/// Trusted: the body is not verified against the contract.
#[verifier::external_body]
pub(crate) fn random_payload(len: usize) -> (payload: Vec<u8>)
    ensures
        payload@.len() == len,
{
    let mut payload = vec![0u8; len];
    rand::RngCore::fill_bytes(&mut rand::thread_rng(), &mut payload);
    payload
}

} // verus!
