//! The token endpoint's side of the flow: the request bodies of the
//! authorization-code and refresh-token grants, and the parsing of the
//! endpoint's success and error responses into a [`TokenBundle`] or a
//! typed failure.

use vstd::prelude::*;

use crate::OAuthError;
use crate::json::{
    JsonVal, SpecJsonVal, lookup, pairs_view, parse_object, spec_lookup, spec_parse_object,
};
use crate::pkce::CodeVerifier;
use crate::request::{build_exchange_body, build_refresh_body, exchange_body_of, refresh_body_of};
use crate::session::AuthorizationCode;

verus! {

/// The response key `access_token`.
pub open spec fn key_access_token() -> Seq<u8> {
    seq![0x61u8, 0x63, 0x63, 0x65, 0x73, 0x73, 0x5f, 0x74, 0x6f, 0x6b, 0x65, 0x6e]
}

/// The response key `token_type`.
pub open spec fn key_token_type() -> Seq<u8> {
    seq![0x74u8, 0x6f, 0x6b, 0x65, 0x6e, 0x5f, 0x74, 0x79, 0x70, 0x65]
}

/// The response key `scope`.
pub open spec fn key_scope() -> Seq<u8> {
    seq![0x73u8, 0x63, 0x6f, 0x70, 0x65]
}

/// The response key `expires_in`.
pub open spec fn key_expires_in() -> Seq<u8> {
    seq![0x65u8, 0x78, 0x70, 0x69, 0x72, 0x65, 0x73, 0x5f, 0x69, 0x6e]
}

/// The response key `refresh_token`.
pub open spec fn key_refresh_token() -> Seq<u8> {
    seq![0x72u8, 0x65, 0x66, 0x72, 0x65, 0x73, 0x68, 0x5f, 0x74, 0x6f, 0x6b, 0x65, 0x6e]
}

/// The response key `error`.
pub open spec fn key_error() -> Seq<u8> {
    seq![0x65u8, 0x72, 0x72, 0x6f, 0x72]
}

/// The response key `error_description`.
pub open spec fn key_error_description() -> Seq<u8> {
    seq![0x65u8, 0x72, 0x72, 0x6f, 0x72, 0x5f, 0x64, 0x65, 0x73, 0x63, 0x72, 0x69, 0x70, 0x74, 0x69, 0x6f, 0x6e]
}
/// The bundle a successful token response carries. Immutable once parsed;
/// the caller owns it thereafter and converts `expires_in` to an absolute
/// instant at receipt (see [`expiry_instant`]).
#[derive(Debug)]
pub struct TokenBundle {
    pub access_token: Vec<u8>,
    pub token_type: Vec<u8>,
    pub scope: Vec<u8>,
    pub expires_in: u64,
    pub refresh_token: Option<Vec<u8>>,
}

/// One prepared token-endpoint call: where to POST and the
/// `application/x-www-form-urlencoded` body to send. No Authorization
/// header belongs to it: PKCE is for public clients without a secret.
#[derive(Debug)]
pub struct TokenRequest {
    pub endpoint: Vec<u8>,
    pub body: Vec<u8>,
}

/// A string-valued member's content, or `None` where the key is absent or
/// its value is not a string.
pub open spec fn spec_str_field(pairs: Seq<(Seq<u8>, SpecJsonVal)>, key: Seq<u8>) -> Option<
    Seq<u8>,
> {
    match spec_lookup(pairs, key) {
        Some(SpecJsonVal::Str(v)) => Some(v),
        _ => None,
    }
}

/// An integer-valued member's content, or `None` where the key is absent
/// or its value is not an integer.
pub open spec fn spec_uint_field(pairs: Seq<(Seq<u8>, SpecJsonVal)>, key: Seq<u8>) -> Option<u64> {
    match spec_lookup(pairs, key) {
        Some(SpecJsonVal::UInt(n)) => Some(n),
        _ => None,
    }
}

/// An HTTP status that carries a success response.
pub open spec fn is_success_status(status: u16) -> bool {
    200 <= status < 300
}

/// A parsed success body that carries everything a bundle needs: the three
/// required strings, an integer `expires_in`, and a `refresh_token` that,
/// if present at all, is a string.
pub open spec fn spec_good_token_body(pairs: Seq<(Seq<u8>, SpecJsonVal)>) -> bool {
    &&& spec_str_field(pairs, key_access_token()) is Some
    &&& spec_str_field(pairs, key_token_type()) is Some
    &&& spec_str_field(pairs, key_scope()) is Some
    &&& spec_uint_field(pairs, key_expires_in()) is Some
    &&& spec_lookup(pairs, key_refresh_token()) is Some ==> spec_str_field(
        pairs,
        key_refresh_token(),
    ) is Some
}

fn get_str_field(pairs: &Vec<(Vec<u8>, JsonVal)>, key: &[u8]) -> (r: Option<Vec<u8>>)
    ensures
        match r {
            Some(v) => spec_str_field(pairs_view(pairs@), key@) == Some(v@),
            None => spec_str_field(pairs_view(pairs@), key@) is None,
        },
{
    match lookup(pairs, key) {
        Some(idx) => {
            match &pairs[idx].1 {
                JsonVal::Str(b) => Some(vstd::slice::slice_to_vec(b.as_slice())),
                JsonVal::UInt(_) => None,
            }
        },
        None => None,
    }
}

fn get_uint_field(pairs: &Vec<(Vec<u8>, JsonVal)>, key: &[u8]) -> (r: Option<u64>)
    ensures
        match r {
            Some(n) => spec_uint_field(pairs_view(pairs@), key@) == Some(n),
            None => spec_uint_field(pairs_view(pairs@), key@) is None,
        },
{
    match lookup(pairs, key) {
        Some(idx) => {
            match &pairs[idx].1 {
                JsonVal::UInt(n) => Some(*n),
                JsonVal::Str(_) => None,
            }
        },
        None => None,
    }
}

fn has_key(pairs: &Vec<(Vec<u8>, JsonVal)>, key: &[u8]) -> (r: bool)
    ensures
        r == (spec_lookup(pairs_view(pairs@), key@) is Some),
{
    match lookup(pairs, key) {
        Some(_) => true,
        None => false,
    }
}

/// Decode one token-endpoint answer, success or error leg alike.
///
/// On a success status the body must be an object carrying `access_token`,
/// `token_type` and `scope` as strings and `expires_in` as an integer;
/// `refresh_token` is taken when present (absent is server-dependent and
/// legal, see [`effective_refresh_token`]). On any other status the
/// standard OAuth error body is decoded into `TokenExchangeRejected`. A
/// body that fits neither shape fails with `MalformedTokenResponse`.
pub fn parse_token_response(status: u16, body: &[u8]) -> (r: Result<TokenBundle, OAuthError>)
    ensures
        is_success_status(status) && (spec_parse_object(body@) matches Some(pairs)
            && spec_good_token_body(pairs)) ==> (r matches Ok(b)
            && spec_parse_object(body@) matches Some(pairs) && {
            &&& Some(b.access_token@) == spec_str_field(pairs, key_access_token())
            &&& Some(b.token_type@) == spec_str_field(pairs, key_token_type())
            &&& Some(b.scope@) == spec_str_field(pairs, key_scope())
            &&& Some(b.expires_in) == spec_uint_field(pairs, key_expires_in())
            &&& match b.refresh_token {
                Some(v) => Some(v@) == spec_str_field(pairs, key_refresh_token()),
                None => spec_lookup(pairs, key_refresh_token()) is None,
            }
        }),
        is_success_status(status) && !(spec_parse_object(body@) matches Some(pairs)
            && spec_good_token_body(pairs)) ==> (r matches Err(e) && e
            == OAuthError::MalformedTokenResponse),
        !is_success_status(status) && (spec_parse_object(body@) matches Some(pairs)
            && spec_str_field(pairs, key_error()) is Some) ==> (r matches Err(e)
            && spec_parse_object(body@) matches Some(pairs) && e matches
            OAuthError::TokenExchangeRejected { code, description } && Some(code@)
            == spec_str_field(pairs, key_error()) && (match description {
            Some(d) => Some(d@) == spec_str_field(pairs, key_error_description()),
            None => spec_str_field(pairs, key_error_description()) is None,
        })),
        !is_success_status(status) && !(spec_parse_object(body@) matches Some(pairs)
            && spec_str_field(pairs, key_error()) is Some) ==> (r matches Err(e) && e
            == OAuthError::MalformedTokenResponse),
{
    let pairs = match parse_object(body) {
        Some(p) => p,
        None => {
            return Err(OAuthError::MalformedTokenResponse);
        },
    };
    let k_access = [0x61u8, 0x63, 0x63, 0x65, 0x73, 0x73, 0x5f, 0x74, 0x6f, 0x6b, 0x65, 0x6e];
    let k_type = [0x74u8, 0x6f, 0x6b, 0x65, 0x6e, 0x5f, 0x74, 0x79, 0x70, 0x65];
    let k_scope = [0x73u8, 0x63, 0x6f, 0x70, 0x65];
    let k_expires = [0x65u8, 0x78, 0x70, 0x69, 0x72, 0x65, 0x73, 0x5f, 0x69, 0x6e];
    let k_refresh = [0x72u8, 0x65, 0x66, 0x72, 0x65, 0x73, 0x68, 0x5f, 0x74, 0x6f, 0x6b, 0x65, 0x6e];
    let k_error = [0x65u8, 0x72, 0x72, 0x6f, 0x72];
    let k_error_desc = [0x65u8, 0x72, 0x72, 0x6f, 0x72, 0x5f, 0x64, 0x65, 0x73, 0x63, 0x72, 0x69, 0x70, 0x74, 0x69, 0x6f, 0x6e];
    proof {
        assert(k_access@ =~= key_access_token());
        assert(k_type@ =~= key_token_type());
        assert(k_scope@ =~= key_scope());
        assert(k_expires@ =~= key_expires_in());
        assert(k_refresh@ =~= key_refresh_token());
        assert(k_error@ =~= key_error());
        assert(k_error_desc@ =~= key_error_description());
    }
    if 200 <= status && status < 300 {
        let access_token = match get_str_field(&pairs, k_access.as_slice()) {
            Some(v) => v,
            None => {
                return Err(OAuthError::MalformedTokenResponse);
            },
        };
        let token_type = match get_str_field(&pairs, k_type.as_slice()) {
            Some(v) => v,
            None => {
                return Err(OAuthError::MalformedTokenResponse);
            },
        };
        let scope = match get_str_field(&pairs, k_scope.as_slice()) {
            Some(v) => v,
            None => {
                return Err(OAuthError::MalformedTokenResponse);
            },
        };
        let expires_in = match get_uint_field(&pairs, k_expires.as_slice()) {
            Some(n) => n,
            None => {
                return Err(OAuthError::MalformedTokenResponse);
            },
        };
        let refresh_token = if has_key(&pairs, k_refresh.as_slice()) {
            match get_str_field(&pairs, k_refresh.as_slice()) {
                Some(v) => Some(v),
                None => {
                    return Err(OAuthError::MalformedTokenResponse);
                },
            }
        } else {
            None
        };
        Ok(TokenBundle { access_token, token_type, scope, expires_in, refresh_token })
    } else {
        let code = match get_str_field(&pairs, k_error.as_slice()) {
            Some(v) => v,
            None => {
                return Err(OAuthError::MalformedTokenResponse);
            },
        };
        let description = get_str_field(&pairs, k_error_desc.as_slice());
        Err(OAuthError::TokenExchangeRejected { code, description })
    }
}

/// Prepare the authorization-code grant: the verifier substitutes for a
/// client secret, and the redirect URI must repeat the one the
/// authorization request used.
pub fn exchange_code_request(
    token_endpoint: Vec<u8>,
    client_id: &[u8],
    code_verifier: &CodeVerifier,
    redirect_uri: &[u8],
    authorization_code: &AuthorizationCode,
) -> (r: TokenRequest)
    ensures
        r.endpoint@ == token_endpoint@,
        r.body@ == exchange_body_of(
            client_id@,
            code_verifier.bytes@,
            redirect_uri@,
            authorization_code.bytes@,
        ),
{
    let body = build_exchange_body(
        client_id,
        code_verifier.bytes.as_slice(),
        redirect_uri,
        authorization_code.bytes.as_slice(),
    );
    TokenRequest { endpoint: token_endpoint, body }
}

/// Prepare the refresh-token grant.
pub fn refresh_request(token_endpoint: Vec<u8>, client_id: &[u8], refresh_token: &[u8]) -> (r:
    TokenRequest)
    ensures
        r.endpoint@ == token_endpoint@,
        r.body@ == refresh_body_of(client_id@, refresh_token@),
{
    let body = build_refresh_body(client_id, refresh_token);
    TokenRequest { endpoint: token_endpoint, body }
}

/// The absolute expiry instant of a bundle received `now` (seconds since
/// the Unix epoch): `now + expires_in`, saturating at the representable
/// maximum.
pub fn expiry_instant(now: u64, expires_in: u64) -> (r: u64)
    ensures
        now + expires_in <= u64::MAX ==> r == now + expires_in,
        now + expires_in > u64::MAX ==> r == u64::MAX,
{
    if now <= u64::MAX - expires_in {
        now + expires_in
    } else {
        u64::MAX
    }
}

/// The refresh token to hold after a refresh: the rotated one when the
/// response carried one, else the previously known one. A server may omit
/// `refresh_token` from a refresh response; the old token then stays
/// usable.
pub fn effective_refresh_token(prior: Option<Vec<u8>>, rotated: Option<Vec<u8>>) -> (r: Option<
    Vec<u8>,
>)
    ensures
        rotated matches Some(t) ==> (r matches Some(u) && u@ == t@),
        rotated is None ==> (prior matches Some(p) ==> (r matches Some(u) && u@ == p@)),
        rotated is None && prior is None ==> r is None,
{
    match rotated {
        Some(t) => Some(t),
        None => prior,
    }
}

} // verus!
