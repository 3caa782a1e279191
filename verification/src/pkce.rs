//! PKCE verifier and challenge generation (method "S256").
//!
//! A code verifier is a random string of 43 to 128 characters from the
//! unreserved set `[A-Z a-z 0-9 - . _ ~]`; its challenge is the base64url
//! encoding, without padding, of the verifier's SHA-256 digest.

use vstd::prelude::*;

use crate::OAuthError;
use crate::encode::{base64url, base64url_encode, is_unreserved};
use crate::entropy::random_bytes;
use crate::hashing::{sha256, sha256_of};

verus! {

/// The random per-attempt secret, revealed only at token exchange.
/// Must never be logged or transmitted before that step.
#[derive(Debug)]
pub struct CodeVerifier {
    pub bytes: Vec<u8>,
}

/// The public, derived hash of a verifier, sent at authorization time.
#[derive(Debug)]
pub struct CodeChallenge {
    pub bytes: Vec<u8>,
}

/// A well-formed verifier: 43 to 128 characters, all unreserved.
pub open spec fn valid_verifier(s: Seq<u8>) -> bool {
    &&& 43 <= s.len() <= 128
    &&& forall|i: int| 0 <= i < s.len() ==> is_unreserved(s[i])
}

/// The S256 challenge of a verifier: base64url of its SHA-256 digest,
/// no padding.
pub open spec fn challenge_of(v: Seq<u8>) -> Seq<u8> {
    base64url(sha256_of(v))
}

/// The character a random byte is mapped to when a verifier is drawn:
/// index `n` in the 66-character unreserved alphabet
/// `A-Z a-z 0-9 - . _ ~`.
pub open spec fn unreserved_char(n: int) -> u8
    recommends
        0 <= n < 66,
{
    if n < 26 {
        (0x41 + n) as u8
    } else if n < 52 {
        (0x61 + (n - 26)) as u8
    } else if n < 62 {
        (0x30 + (n - 52)) as u8
    } else if n == 62 {
        0x2D
    } else if n == 63 {
        0x2E
    } else if n == 64 {
        0x5F
    } else {
        0x7E
    }
}

fn unreserved_char_byte(n: u8) -> (r: u8)
    requires
        n < 66,
    ensures
        r == unreserved_char(n as int),
        is_unreserved(r),
{
    if n < 26 {
        0x41 + n
    } else if n < 52 {
        0x61 + (n - 26)
    } else if n < 62 {
        0x30 + (n - 52)
    } else if n == 62 {
        0x2D
    } else if n == 63 {
        0x2E
    } else if n == 64 {
        0x5F
    } else {
        0x7E
    }
}

/// Map random bytes onto the unreserved alphabet, one character per byte.
pub(crate) fn bytes_to_unreserved(bytes: &Vec<u8>) -> (r: Vec<u8>)
    ensures
        r@.len() == bytes@.len(),
        forall|i: int| 0 <= i < r@.len() ==> r@[i] == unreserved_char(bytes@[i] as int % 66),
        forall|i: int| 0 <= i < r@.len() ==> is_unreserved(r@[i]),
{
    let mut out: Vec<u8> = Vec::new();
    let mut i: usize = 0;
    while i < bytes.len()
        invariant
            i <= bytes@.len(),
            out@.len() == i,
            forall|j: int| 0 <= j < i ==> out@[j] == unreserved_char(bytes@[j] as int % 66),
            forall|j: int| 0 <= j < i ==> is_unreserved(out@[j]),
        decreases bytes@.len() - i,
    {
        out.push(unreserved_char_byte(bytes[i] % 66));
        i = i + 1;
    }
    out
}

/// Generate a fresh code verifier of exactly `length` characters from a
/// cryptographically secure random source.
///
/// Fails with `InvalidLength` exactly when `length` lies outside [43, 128],
/// and with `TransportFailure` only when the platform's entropy source
/// fails.
pub fn generate_verifier(length: usize) -> (r: Result<CodeVerifier, OAuthError>)
    ensures
        (43 <= length <= 128) <==> !(r matches Err(e) && e == OAuthError::InvalidLength),
        r matches Ok(v) ==> v.bytes@.len() == length && valid_verifier(v.bytes@),
        r matches Err(e) ==> e == OAuthError::InvalidLength || e == OAuthError::TransportFailure,
{
    if length < 43 || length > 128 {
        return Err(OAuthError::InvalidLength);
    }
    match random_bytes(length) {
        Some(raw) => Ok(CodeVerifier { bytes: bytes_to_unreserved(&raw) }),
        None => Err(OAuthError::TransportFailure),
    }
}

/// Derive the S256 code challenge of a verifier. Deterministic: the result
/// is a function of the verifier's characters alone, so the server's
/// recomputation at token exchange matches.
pub fn derive_challenge(verifier: &CodeVerifier) -> (r: CodeChallenge)
    ensures
        r.bytes@ == challenge_of(verifier.bytes@),
{
    let digest = sha256(verifier.bytes.as_slice());
    CodeChallenge { bytes: base64url_encode(digest.as_slice()) }
}

/// Two verifiers with the same characters always yield the same challenge:
/// the derivation is deterministic.
pub proof fn lemma_challenge_deterministic(a: Seq<u8>, b: Seq<u8>)
    requires
        a == b,
    ensures
        challenge_of(a) == challenge_of(b),
{
}

} // verus!
