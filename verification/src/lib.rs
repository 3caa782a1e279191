//! An OAuth 2.0 Authorization Code flow client with PKCE (Proof Key for Code
//! Exchange): verifier and challenge generation, the authorization session
//! that ties one attempt together, and the building and parsing of the token
//! endpoint's request and response bodies.
//!
//! All protocol values are byte strings (`Vec<u8>`); the flow's endpoints are
//! ASCII URLs and the token response is a JSON body, so bytes are the natural
//! carrier. Network transport and configuration loading are the caller's job.

pub mod encode;
pub mod entropy;
pub mod hashing;
pub mod json;
pub mod pkce;
pub mod request;
pub mod session;
pub mod token;

use vstd::prelude::*;

verus! {

/// Every failure the flow can report, returned as a typed result; no failure
/// is resolved silently and none terminates the process.
#[derive(Debug, Clone, PartialEq, Eq)]
pub enum OAuthError {
    /// Verifier generation asked for a length outside [43, 128].
    InvalidLength,
    /// The state returned by the redirect differs from the session's.
    StateMismatch,
    /// The user declined authorization (signalled by an empty code).
    UserDenied,
    /// `complete` was called a second time on the same session.
    SessionAlreadyConsumed,
    /// The token endpoint's body could not be decoded.
    MalformedTokenResponse,
    /// The token endpoint rejected the exchange with an OAuth error body.
    TokenExchangeRejected { code: Vec<u8>, description: Option<Vec<u8>> },
    /// The token endpoint did not answer within the caller's bound.
    NetworkTimeout,
    /// DNS or connection-level failure, or the platform's entropy source failed.
    TransportFailure,
    /// A collaborator could not supply a required configuration value.
    ConfigurationMissing,
}

} // verus!
