//! The token-endpoint leg: request bodies, response parsing, expiry, and
//! refresh-token retention.

use pkce_flow::OAuthError;
use pkce_flow::pkce::CodeVerifier;
use pkce_flow::session::AuthorizationCode;
use pkce_flow::token::{
    effective_refresh_token, exchange_code_request, expiry_instant, parse_token_response,
    refresh_request,
};

#[test]
fn success_response_parses_into_bundle() {
    let body = br#"{"access_token":"abc","token_type":"Bearer","scope":"user-read-playback-state","expires_in":3600,"refresh_token":"r1"}"#;
    let bundle = parse_token_response(200, body).unwrap();
    assert_eq!(bundle.access_token, b"abc".to_vec());
    assert_eq!(bundle.token_type, b"Bearer".to_vec());
    assert_eq!(bundle.scope, b"user-read-playback-state".to_vec());
    assert_eq!(bundle.expires_in, 3600);
    assert_eq!(bundle.refresh_token, Some(b"r1".to_vec()));
    let now = 1_700_000_000u64;
    assert_eq!(expiry_instant(now, bundle.expires_in), now + 3600);
}

#[test]
fn success_response_tolerates_whitespace_and_field_order() {
    let body = br#" { "expires_in" : 120 , "scope" : "s" , "token_type" : "Bearer" , "access_token" : "t" } "#;
    let bundle = parse_token_response(204, body).unwrap();
    assert_eq!(bundle.access_token, b"t".to_vec());
    assert_eq!(bundle.expires_in, 120);
    assert_eq!(bundle.refresh_token, None);
}

#[test]
fn string_escapes_are_decoded() {
    let body = br#"{"access_token":"a\"b\\c\/d\n","token_type":"B","scope":"","expires_in":1}"#;
    let bundle = parse_token_response(200, body).unwrap();
    assert_eq!(bundle.access_token, b"a\"b\\c/d\n".to_vec());
    assert_eq!(bundle.scope, b"".to_vec());
}

#[test]
fn unicode_escapes_are_rejected_as_malformed() {
    let body = br#"{"access_token":"a\u0041","token_type":"B","scope":"","expires_in":1}"#;
    assert_eq!(
        parse_token_response(200, body).unwrap_err(),
        OAuthError::MalformedTokenResponse
    );
}

#[test]
fn missing_required_field_is_malformed() {
    let body = br#"{"access_token":"abc","token_type":"Bearer","expires_in":3600}"#;
    assert_eq!(
        parse_token_response(200, body).unwrap_err(),
        OAuthError::MalformedTokenResponse
    );
}

#[test]
fn wrongly_typed_field_is_malformed() {
    let body = br#"{"access_token":"abc","token_type":"Bearer","scope":"s","expires_in":"soon"}"#;
    assert_eq!(
        parse_token_response(200, body).unwrap_err(),
        OAuthError::MalformedTokenResponse
    );
    let body2 = br#"{"access_token":"abc","token_type":"Bearer","scope":"s","expires_in":1,"refresh_token":7}"#;
    assert_eq!(
        parse_token_response(200, body2).unwrap_err(),
        OAuthError::MalformedTokenResponse
    );
}

#[test]
fn expires_in_beyond_64_bits_is_malformed() {
    let body = br#"{"access_token":"a","token_type":"B","scope":"","expires_in":99999999999999999999}"#;
    assert_eq!(
        parse_token_response(200, body).unwrap_err(),
        OAuthError::MalformedTokenResponse
    );
}

#[test]
fn non_object_bodies_are_malformed() {
    assert_eq!(
        parse_token_response(200, b"").unwrap_err(),
        OAuthError::MalformedTokenResponse
    );
    assert_eq!(
        parse_token_response(200, b"[1,2]").unwrap_err(),
        OAuthError::MalformedTokenResponse
    );
    assert_eq!(
        parse_token_response(200, b"{\"a\":1}garbage").unwrap_err(),
        OAuthError::MalformedTokenResponse
    );
    assert_eq!(
        parse_token_response(200, b"{\"a\":1").unwrap_err(),
        OAuthError::MalformedTokenResponse
    );
}

#[test]
fn http_400_with_oauth_error_body_is_rejected_with_its_code() {
    let body = br#"{"error":"invalid_grant"}"#;
    match parse_token_response(400, body).unwrap_err() {
        OAuthError::TokenExchangeRejected { code, description } => {
            assert_eq!(code, b"invalid_grant".to_vec());
            assert_eq!(description, None);
        },
        other => panic!("unexpected error: {:?}", other),
    }
}

#[test]
fn error_description_is_carried_when_present() {
    let body = br#"{"error":"invalid_request","error_description":"missing code"}"#;
    match parse_token_response(401, body).unwrap_err() {
        OAuthError::TokenExchangeRejected { code, description } => {
            assert_eq!(code, b"invalid_request".to_vec());
            assert_eq!(description, Some(b"missing code".to_vec()));
        },
        other => panic!("unexpected error: {:?}", other),
    }
}

#[test]
fn undecodable_error_body_is_malformed() {
    assert_eq!(
        parse_token_response(500, b"Internal Server Error").unwrap_err(),
        OAuthError::MalformedTokenResponse
    );
    assert_eq!(
        parse_token_response(400, br#"{"mistake":"yes"}"#).unwrap_err(),
        OAuthError::MalformedTokenResponse
    );
}

#[test]
fn exchange_request_body_carries_all_parameters_form_encoded() {
    let verifier = CodeVerifier { bytes: b"dBjftJeZ4CVP-mB92K27uhbUJU1p1r_wW1gFWFOEjXk".to_vec() };
    let code = AuthorizationCode { bytes: b"the code".to_vec() };
    let req = exchange_code_request(
        b"https://accounts.example/api/token".to_vec(),
        b"abc123",
        &verifier,
        b"https://localhost/callback",
        &code,
    );
    assert_eq!(req.endpoint, b"https://accounts.example/api/token".to_vec());
    let expected: &[u8] = b"grant_type=authorization_code&code=the%20code\
&redirect_uri=https%3A%2F%2Flocalhost%2Fcallback&client_id=abc123\
&code_verifier=dBjftJeZ4CVP-mB92K27uhbUJU1p1r_wW1gFWFOEjXk";
    assert_eq!(req.body, expected.to_vec());
}

#[test]
fn refresh_request_body_carries_grant_and_token() {
    let req = refresh_request(b"https://accounts.example/api/token".to_vec(), b"abc123", b"r/1");
    assert_eq!(
        req.body,
        b"grant_type=refresh_token&refresh_token=r%2F1&client_id=abc123".to_vec()
    );
}

#[test]
fn expiry_saturates_at_the_representable_maximum() {
    assert_eq!(expiry_instant(u64::MAX - 10, 3600), u64::MAX);
    assert_eq!(expiry_instant(0, 0), 0);
}

#[test]
fn omitted_refresh_token_leaves_the_prior_one_in_force() {
    let prior = Some(b"r-old".to_vec());
    assert_eq!(
        effective_refresh_token(prior.clone(), None),
        Some(b"r-old".to_vec())
    );
    assert_eq!(
        effective_refresh_token(prior, Some(b"r-new".to_vec())),
        Some(b"r-new".to_vec())
    );
    assert_eq!(effective_refresh_token(None, None), None);
}
