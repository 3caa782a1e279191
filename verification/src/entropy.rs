//! The flow's only source of randomness: the operating system's
//! cryptographically secure generator, reached through the `getrandom` crate.

use vstd::prelude::*;

verus! {

/// Draw `n` bytes from the operating system's secure random source, or
/// `None` when the platform's entropy source fails.
///
/// Relies on getrandom::getrandom: on success it fills the whole buffer with
/// random bytes. Nothing is promised of the bytes' values: they are random.
#[verifier::external_body]
pub(crate) fn random_bytes(n: usize) -> (r: Option<Vec<u8>>)
    ensures
        r matches Some(v) ==> v@.len() == n,
{
    let mut buf = vec![0u8; n];
    match getrandom::getrandom(&mut buf) {
        Ok(()) => Some(buf),
        Err(_) => None,
    }
}

} // verus!
