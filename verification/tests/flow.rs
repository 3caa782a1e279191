//! The authorization leg: verifier generation, challenge derivation, and
//! the session's begin/complete state machine.

use pkce_flow::OAuthError;
use sha2::Digest;
use pkce_flow::pkce::{CodeVerifier, derive_challenge, generate_verifier};
use pkce_flow::session::begin;

fn is_unreserved(b: u8) -> bool {
    b.is_ascii_alphanumeric() || b == b'-' || b == b'.' || b == b'_' || b == b'~'
}

fn find(haystack: &[u8], needle: &[u8]) -> Option<usize> {
    if needle.is_empty() || haystack.len() < needle.len() {
        return None;
    }
    (0..=haystack.len() - needle.len()).find(|&i| &haystack[i..i + needle.len()] == needle)
}

#[test]
fn verifier_length_and_charset_across_valid_range() {
    for length in 43..=128usize {
        let v = generate_verifier(length).expect("valid length must succeed");
        assert_eq!(v.bytes.len(), length);
        assert!(v.bytes.iter().all(|&b| is_unreserved(b)));
    }
}

#[test]
fn verifier_rejects_lengths_outside_range() {
    assert_eq!(generate_verifier(42).unwrap_err(), OAuthError::InvalidLength);
    assert_eq!(generate_verifier(129).unwrap_err(), OAuthError::InvalidLength);
    assert_eq!(generate_verifier(0).unwrap_err(), OAuthError::InvalidLength);
}

#[test]
fn distinct_attempts_draw_distinct_verifiers() {
    let a = generate_verifier(64).unwrap();
    let b = generate_verifier(64).unwrap();
    assert_ne!(a.bytes, b.bytes);
}

#[test]
fn distinct_attempts_draw_distinct_state_tokens() {
    let scopes: Vec<Vec<u8>> = Vec::new();
    let (a, _) = begin(
        b"abc123".to_vec(),
        b"https://localhost/callback".to_vec(),
        &scopes,
        b"https://accounts.example/authorize",
        0,
    )
    .unwrap();
    let (b, _) = begin(
        b"abc123".to_vec(),
        b"https://localhost/callback".to_vec(),
        &scopes,
        b"https://accounts.example/authorize",
        0,
    )
    .unwrap();
    assert_ne!(a.state_token, b.state_token);
    assert_ne!(a.code_verifier.bytes, b.code_verifier.bytes);
}

#[test]
fn challenge_is_deterministic() {
    let v = CodeVerifier { bytes: b"dBjftJeZ4CVP-mB92K27uhbUJU1p1r_wW1gFWFOEjXk".to_vec() };
    let c1 = derive_challenge(&v);
    let c2 = derive_challenge(&v);
    assert_eq!(c1.bytes, c2.bytes);
}

#[test]
fn distinct_verifiers_yield_distinct_challenges() {
    let a = CodeVerifier { bytes: b"dBjftJeZ4CVP-mB92K27uhbUJU1p1r_wW1gFWFOEjXk".to_vec() };
    let b = CodeVerifier { bytes: b"dBjftJeZ4CVP-mB92K27uhbUJU1p1r_wW1gFWFOEjXl".to_vec() };
    assert_ne!(derive_challenge(&a).bytes, derive_challenge(&b).bytes);
}

#[test]
fn challenge_matches_known_s256_pair() {
    // The verifier/challenge pair from the PKCE specification's example.
    let v = CodeVerifier { bytes: b"dBjftJeZ4CVP-mB92K27uhbUJU1p1r_wW1gFWFOEjXk".to_vec() };
    let c = derive_challenge(&v);
    assert_eq!(c.bytes, b"E9Melhoa2OwvFrEMTJguCHaoeK1t8URWbuGJSstw-cM".to_vec());
}

#[test]
fn begin_then_complete_with_stored_state_yields_the_code() {
    let scopes = vec![b"user-read-playback-state".to_vec()];
    let (mut session, _url) = begin(
        b"abc123".to_vec(),
        b"https://localhost/callback".to_vec(),
        &scopes,
        b"https://accounts.example/authorize",
        1_700_000_000,
    )
    .unwrap();
    let state = session.state_token.clone();
    let code = session.complete(b"the-code".to_vec(), &state).unwrap();
    assert_eq!(code.bytes, b"the-code".to_vec());
}

#[test]
fn complete_with_differing_state_fails_with_state_mismatch() {
    let scopes: Vec<Vec<u8>> = Vec::new();
    let (mut session, _url) = begin(
        b"abc123".to_vec(),
        b"https://localhost/callback".to_vec(),
        &scopes,
        b"https://accounts.example/authorize",
        0,
    )
    .unwrap();
    let mut wrong = session.state_token.clone();
    wrong[0] = if wrong[0] == b'A' { b'B' } else { b'A' };
    let r = session.complete(b"the-code".to_vec(), &wrong);
    assert_eq!(r.unwrap_err(), OAuthError::StateMismatch);
}

#[test]
fn complete_with_empty_code_fails_with_user_denied() {
    let scopes: Vec<Vec<u8>> = Vec::new();
    let (mut session, _url) = begin(
        b"abc123".to_vec(),
        b"https://localhost/callback".to_vec(),
        &scopes,
        b"https://accounts.example/authorize",
        0,
    )
    .unwrap();
    let state = session.state_token.clone();
    let r = session.complete(Vec::new(), &state);
    assert_eq!(r.unwrap_err(), OAuthError::UserDenied);
}

#[test]
fn second_complete_fails_with_session_already_consumed() {
    let scopes: Vec<Vec<u8>> = Vec::new();
    let (mut session, _url) = begin(
        b"abc123".to_vec(),
        b"https://localhost/callback".to_vec(),
        &scopes,
        b"https://accounts.example/authorize",
        0,
    )
    .unwrap();
    let state = session.state_token.clone();
    session.complete(b"the-code".to_vec(), &state).unwrap();
    let r = session.complete(b"the-code".to_vec(), &state);
    assert_eq!(r.unwrap_err(), OAuthError::SessionAlreadyConsumed);
}

#[test]
fn second_complete_fails_even_after_a_failed_first_call() {
    let scopes: Vec<Vec<u8>> = Vec::new();
    let (mut session, _url) = begin(
        b"abc123".to_vec(),
        b"https://localhost/callback".to_vec(),
        &scopes,
        b"https://accounts.example/authorize",
        0,
    )
    .unwrap();
    let state = session.state_token.clone();
    let mut wrong = state.clone();
    wrong[0] = if wrong[0] == b'A' { b'B' } else { b'A' };
    assert_eq!(
        session.complete(b"the-code".to_vec(), &wrong).unwrap_err(),
        OAuthError::StateMismatch
    );
    assert_eq!(
        session.complete(b"the-code".to_vec(), &state).unwrap_err(),
        OAuthError::SessionAlreadyConsumed
    );
}

#[test]
fn authorize_url_carries_s256_method_and_the_session_challenge() {
    let scopes = vec![b"user-read-playback-state".to_vec()];
    let (session, url) = begin(
        b"abc123".to_vec(),
        b"https://localhost/callback".to_vec(),
        &scopes,
        b"https://accounts.example/authorize",
        0,
    )
    .unwrap();
    assert!(find(&url, b"code_challenge_method=S256").is_some());
    assert!(find(&url, b"client_id=abc123").is_some());
    assert!(find(&url, b"response_type=code").is_some());
    assert!(find(&url, b"redirect_uri=https%3A%2F%2Flocalhost%2Fcallback").is_some());
    assert!(find(&url, b"scope=user-read-playback-state").is_some());

    // The challenge in the URL is exactly the S256 derivation of the
    // session's verifier, recomputed here with the hash crate directly.
    let start = find(&url, b"&code_challenge=").unwrap() + b"&code_challenge=".len();
    let end = url[start..]
        .iter()
        .position(|&b| b == b'&')
        .map(|p| start + p)
        .unwrap_or(url.len());
    let challenge_in_url = &url[start..end];
    assert_eq!(challenge_in_url, session.code_challenge.bytes.as_slice());

    let digest = sha2::Sha256::digest(&session.code_verifier.bytes);
    let expected = base64url_no_pad(&digest);
    assert_eq!(session.code_challenge.bytes, expected);
    // The verifier itself never appears in the URL.
    assert!(find(&url, &session.code_verifier.bytes).is_none());
}

fn base64url_no_pad(data: &[u8]) -> Vec<u8> {
    let alphabet: &[u8] = b"ABCDEFGHIJKLMNOPQRSTUVWXYZabcdefghijklmnopqrstuvwxyz0123456789-_";
    let mut out = Vec::new();
    let mut chunks = data.chunks_exact(3);
    for c in &mut chunks {
        let n = ((c[0] as u32) << 16) | ((c[1] as u32) << 8) | c[2] as u32;
        out.push(alphabet[(n >> 18) as usize & 63]);
        out.push(alphabet[(n >> 12) as usize & 63]);
        out.push(alphabet[(n >> 6) as usize & 63]);
        out.push(alphabet[n as usize & 63]);
    }
    let rem = chunks.remainder();
    if rem.len() == 1 {
        let n = (rem[0] as u32) << 16;
        out.push(alphabet[(n >> 18) as usize & 63]);
        out.push(alphabet[(n >> 12) as usize & 63]);
    } else if rem.len() == 2 {
        let n = ((rem[0] as u32) << 16) | ((rem[1] as u32) << 8);
        out.push(alphabet[(n >> 18) as usize & 63]);
        out.push(alphabet[(n >> 12) as usize & 63]);
        out.push(alphabet[(n >> 6) as usize & 63]);
    }
    out
}
