//! The authorization session: the stateful value tying one PKCE pair and one
//! anti-forgery state token to a single in-flight authorization attempt.

use vstd::prelude::*;

use crate::OAuthError;
use crate::encode::{bytes_equal, is_unreserved};
use crate::entropy::random_bytes;
use crate::pkce::{
    CodeChallenge, CodeVerifier, bytes_to_unreserved, challenge_of, derive_challenge,
    generate_verifier, valid_verifier,
};
use crate::request::{authorize_url_of, build_authorize_url};

verus! {

/// The opaque, single-use credential returned after user consent; it is
/// exchanged for tokens and never reused.
#[derive(Debug)]
pub struct AuthorizationCode {
    pub bytes: Vec<u8>,
}

/// One in-flight authorization attempt. Created by [`begin`]; consumed by
/// the first call of [`AuthorizationSession::complete`], whatever its
/// outcome, and never reused across attempts: replaying a verifier defeats
/// PKCE's protection.
#[derive(Debug)]
pub struct AuthorizationSession {
    pub client_id: Vec<u8>,
    pub redirect_uri: Vec<u8>,
    pub code_verifier: CodeVerifier,
    pub code_challenge: CodeChallenge,
    pub state_token: Vec<u8>,
    pub created_at: u64,
    pub consumed: bool,
}

impl AuthorizationSession {
    /// A session's invariant: its verifier and challenge are an S256 pair
    /// generated together, and its state token is a non-empty string of
    /// unreserved characters.
    pub open spec fn wf(self) -> bool {
        &&& valid_verifier(self.code_verifier.bytes@)
        &&& self.code_challenge.bytes@ == challenge_of(self.code_verifier.bytes@)
        &&& self.state_token@.len() == 32
        &&& forall|i: int|
            0 <= i < self.state_token@.len() ==> is_unreserved(self.state_token@[i])
    }

    /// Accept the authorization code that came back from the redirect.
    ///
    /// Callable at most once per session: every call consumes the session,
    /// and a second call fails with `SessionAlreadyConsumed`. A returned
    /// state differing from the session's fails with `StateMismatch`; an
    /// empty code signals that the user declined and fails with
    /// `UserDenied`, distinguishable from any transport error. Otherwise
    /// exactly the returned code is handed back.
    pub fn complete(&mut self, returned_code: Vec<u8>, returned_state: &[u8]) -> (r: Result<
        AuthorizationCode,
        OAuthError,
    >)
        ensures
            final(self).client_id == old(self).client_id,
            final(self).redirect_uri == old(self).redirect_uri,
            final(self).code_verifier == old(self).code_verifier,
            final(self).code_challenge == old(self).code_challenge,
            final(self).state_token == old(self).state_token,
            final(self).created_at == old(self).created_at,
            final(self).consumed,
            old(self).wf() ==> final(self).wf(),
            old(self).consumed ==> r == Err::<AuthorizationCode, OAuthError>(
                OAuthError::SessionAlreadyConsumed,
            ),
            !old(self).consumed && returned_state@ != old(self).state_token@ ==> r == Err::<
                AuthorizationCode,
                OAuthError,
            >(OAuthError::StateMismatch),
            !old(self).consumed && returned_state@ == old(self).state_token@
                && returned_code@.len() == 0 ==> r == Err::<AuthorizationCode, OAuthError>(
                OAuthError::UserDenied,
            ),
            !old(self).consumed && returned_state@ == old(self).state_token@
                && returned_code@.len() > 0 ==> (r matches Ok(c) && c.bytes@ == returned_code@),
    {
        if self.consumed {
            return Err(OAuthError::SessionAlreadyConsumed);
        }
        self.consumed = true;
        if !bytes_equal(returned_state, self.state_token.as_slice()) {
            return Err(OAuthError::StateMismatch);
        }
        if returned_code.len() == 0 {
            return Err(OAuthError::UserDenied);
        }
        Ok(AuthorizationCode { bytes: returned_code })
    }
}

/// Start one authorization attempt: generate a fresh 128-character verifier
/// and its challenge, draw a fresh 32-character state token, and build the
/// authorization URL to present to the user. No I/O is performed here;
/// presenting the URL and capturing the redirect belong to the caller.
///
/// `created_at` is the caller's clock reading (seconds since the Unix
/// epoch); the core never reads the clock itself. Fails only with
/// `TransportFailure`, when the platform's entropy source fails.
pub fn begin(
    client_id: Vec<u8>,
    redirect_uri: Vec<u8>,
    scopes: &Vec<Vec<u8>>,
    authorize_endpoint: &[u8],
    created_at: u64,
) -> (r: Result<(AuthorizationSession, Vec<u8>), OAuthError>)
    ensures
        r matches Ok((s, url)) ==> {
            &&& s.wf()
            &&& s.client_id@ == client_id@
            &&& s.redirect_uri@ == redirect_uri@
            &&& s.code_verifier.bytes@.len() == 128
            &&& s.created_at == created_at
            &&& !s.consumed
            &&& url@ == authorize_url_of(
                authorize_endpoint@,
                client_id@,
                redirect_uri@,
                scopes@.map_values(|v: Vec<u8>| v@),
                s.state_token@,
                s.code_challenge.bytes@,
            )
        },
        r matches Err(e) ==> e == OAuthError::TransportFailure,
{
    let code_verifier = match generate_verifier(128) {
        Ok(v) => v,
        Err(_) => {
            return Err(OAuthError::TransportFailure);
        },
    };
    let state_raw = match random_bytes(32) {
        Some(raw) => raw,
        None => {
            return Err(OAuthError::TransportFailure);
        },
    };
    let state_token = bytes_to_unreserved(&state_raw);
    let code_challenge = derive_challenge(&code_verifier);
    let url = build_authorize_url(
        authorize_endpoint,
        client_id.as_slice(),
        redirect_uri.as_slice(),
        scopes,
        state_token.as_slice(),
        code_challenge.bytes.as_slice(),
    );
    let session = AuthorizationSession {
        client_id,
        redirect_uri,
        code_verifier,
        code_challenge,
        state_token,
        created_at,
        consumed: false,
    };
    Ok((session, url))
}

} // verus!
