//! The authorization-request URL and the token endpoint's form bodies,
//! built exactly as the protocol prescribes, with every parameter
//! percent-encoded.

use vstd::prelude::*;

use crate::encode::{percent_encode, percent_encoding};

verus! {

/// The literal `?client_id=`.
pub open spec fn lit_q_client_id() -> Seq<u8> {
    seq![0x3fu8, 0x63, 0x6c, 0x69, 0x65, 0x6e, 0x74, 0x5f, 0x69, 0x64, 0x3d]
}

/// The literal `&response_type=code`.
pub open spec fn lit_amp_response_type_code() -> Seq<u8> {
    seq![0x26u8, 0x72, 0x65, 0x73, 0x70, 0x6f, 0x6e, 0x73, 0x65, 0x5f, 0x74, 0x79, 0x70, 0x65, 0x3d, 0x63, 0x6f, 0x64, 0x65]
}

/// The literal `&redirect_uri=`.
pub open spec fn lit_amp_redirect_uri() -> Seq<u8> {
    seq![0x26u8, 0x72, 0x65, 0x64, 0x69, 0x72, 0x65, 0x63, 0x74, 0x5f, 0x75, 0x72, 0x69, 0x3d]
}

/// The literal `&state=`.
pub open spec fn lit_amp_state() -> Seq<u8> {
    seq![0x26u8, 0x73, 0x74, 0x61, 0x74, 0x65, 0x3d]
}

/// The literal `&code_challenge_method=S256`.
pub open spec fn lit_amp_ccm_s256() -> Seq<u8> {
    seq![0x26u8, 0x63, 0x6f, 0x64, 0x65, 0x5f, 0x63, 0x68, 0x61, 0x6c, 0x6c, 0x65, 0x6e, 0x67, 0x65, 0x5f, 0x6d, 0x65, 0x74, 0x68, 0x6f, 0x64, 0x3d, 0x53, 0x32, 0x35, 0x36]
}

/// The literal `&code_challenge=`.
pub open spec fn lit_amp_code_challenge() -> Seq<u8> {
    seq![0x26u8, 0x63, 0x6f, 0x64, 0x65, 0x5f, 0x63, 0x68, 0x61, 0x6c, 0x6c, 0x65, 0x6e, 0x67, 0x65, 0x3d]
}

/// The literal `&scope=`.
pub open spec fn lit_amp_scope() -> Seq<u8> {
    seq![0x26u8, 0x73, 0x63, 0x6f, 0x70, 0x65, 0x3d]
}

/// The literal `grant_type=authorization_code&code=`.
pub open spec fn lit_grant_auth_code() -> Seq<u8> {
    seq![0x67u8, 0x72, 0x61, 0x6e, 0x74, 0x5f, 0x74, 0x79, 0x70, 0x65, 0x3d, 0x61, 0x75, 0x74, 0x68, 0x6f, 0x72, 0x69, 0x7a, 0x61, 0x74, 0x69, 0x6f, 0x6e, 0x5f, 0x63, 0x6f, 0x64, 0x65, 0x26, 0x63, 0x6f, 0x64, 0x65, 0x3d]
}

/// The literal `&client_id=`.
pub open spec fn lit_amp_client_id() -> Seq<u8> {
    seq![0x26u8, 0x63, 0x6c, 0x69, 0x65, 0x6e, 0x74, 0x5f, 0x69, 0x64, 0x3d]
}

/// The literal `&code_verifier=`.
pub open spec fn lit_amp_code_verifier() -> Seq<u8> {
    seq![0x26u8, 0x63, 0x6f, 0x64, 0x65, 0x5f, 0x76, 0x65, 0x72, 0x69, 0x66, 0x69, 0x65, 0x72, 0x3d]
}

/// The literal `grant_type=refresh_token&refresh_token=`.
pub open spec fn lit_grant_refresh() -> Seq<u8> {
    seq![0x67u8, 0x72, 0x61, 0x6e, 0x74, 0x5f, 0x74, 0x79, 0x70, 0x65, 0x3d, 0x72, 0x65, 0x66, 0x72, 0x65, 0x73, 0x68, 0x5f, 0x74, 0x6f, 0x6b, 0x65, 0x6e, 0x26, 0x72, 0x65, 0x66, 0x72, 0x65, 0x73, 0x68, 0x5f, 0x74, 0x6f, 0x6b, 0x65, 0x6e, 0x3d]
}

/// The scope parameter's value: the scopes joined by single spaces.
pub open spec fn scope_joined(scopes: Seq<Seq<u8>>) -> Seq<u8> {
    if scopes.len() == 0 {
        Seq::empty()
    } else {
        scopes[0] + tail_joined(scopes.skip(1))
    }
}

/// Every scope after the first, each preceded by one space.
pub open spec fn tail_joined(scopes: Seq<Seq<u8>>) -> Seq<u8>
    decreases scopes.len(),
{
    if scopes.len() == 0 {
        Seq::empty()
    } else {
        seq![0x20u8] + scopes[0] + tail_joined(scopes.skip(1))
    }
}

/// The full authorization-endpoint URL for one attempt: the endpoint
/// followed by the query parameters `client_id`, `response_type=code`,
/// `redirect_uri`, `state`, `code_challenge_method=S256`, `code_challenge`
/// and, when any scopes were asked for, `scope`, each value
/// percent-encoded.
pub open spec fn authorize_url_of(
    endpoint: Seq<u8>,
    client_id: Seq<u8>,
    redirect_uri: Seq<u8>,
    scopes: Seq<Seq<u8>>,
    state: Seq<u8>,
    challenge: Seq<u8>,
) -> Seq<u8> {
    endpoint + lit_q_client_id() + percent_encoding(client_id) + lit_amp_response_type_code()
        + lit_amp_redirect_uri() + percent_encoding(redirect_uri) + lit_amp_state()
        + percent_encoding(state) + lit_amp_ccm_s256() + lit_amp_code_challenge()
        + percent_encoding(challenge) + (if scopes.len() == 0 {
        Seq::<u8>::empty()
    } else {
        lit_amp_scope() + percent_encoding(scope_joined(scopes))
    })
}

/// The form body of the authorization-code grant: `grant_type`, `code`,
/// `redirect_uri`, `client_id` and `code_verifier`, values
/// percent-encoded. No client secret appears anywhere: the verifier takes
/// its place.
pub open spec fn exchange_body_of(
    client_id: Seq<u8>,
    verifier: Seq<u8>,
    redirect_uri: Seq<u8>,
    code: Seq<u8>,
) -> Seq<u8> {
    lit_grant_auth_code() + percent_encoding(code) + lit_amp_redirect_uri() + percent_encoding(
        redirect_uri,
    ) + lit_amp_client_id() + percent_encoding(client_id) + lit_amp_code_verifier()
        + percent_encoding(verifier)
}

/// The form body of the refresh-token grant: `grant_type`,
/// `refresh_token` and `client_id`, values percent-encoded.
pub open spec fn refresh_body_of(client_id: Seq<u8>, refresh_token: Seq<u8>) -> Seq<u8> {
    lit_grant_refresh() + percent_encoding(refresh_token) + lit_amp_client_id()
        + percent_encoding(client_id)
}

/// Join the scopes with single spaces, first scope first.
pub fn join_scopes(scopes: &Vec<Vec<u8>>) -> (r: Vec<u8>)
    ensures
        r@ == scope_joined(scopes@.map_values(|v: Vec<u8>| v@)),
{
    let ghost sv = scopes@.map_values(|v: Vec<u8>| v@);
    let mut out: Vec<u8> = Vec::new();
    if scopes.len() == 0 {
        return out;
    }
    out.extend_from_slice(scopes[0].as_slice());
    proof {
        assert(out@ =~= sv[0]);
        assert(out@ + tail_joined(sv.skip(1)) == scope_joined(sv));
    }
    let mut i: usize = 1;
    while i < scopes.len()
        invariant
            1 <= i <= scopes@.len(),
            sv == scopes@.map_values(|v: Vec<u8>| v@),
            out@ + tail_joined(sv.skip(i as int)) == scope_joined(sv),
        decreases scopes@.len() - i,
    {
        let ghost out0 = out@;
        out.push(0x20);
        out.extend_from_slice(scopes[i].as_slice());
        proof {
            assert(sv.skip(i as int).skip(1) =~= sv.skip(i as int + 1));
            assert(sv.skip(i as int)[0] == sv[i as int]);
            assert(out@ + tail_joined(sv.skip(i as int + 1)) =~= out0 + tail_joined(
                sv.skip(i as int),
            ));
        }
        i = i + 1;
    }
    proof {
        assert(sv.skip(i as int) =~= Seq::<Seq<u8>>::empty());
        assert(out@ + tail_joined(sv.skip(i as int)) =~= out@);
    }
    out
}

/// Every authorization URL advertises the challenge method `S256` and
/// carries, right after it, the `code_challenge` parameter with the
/// percent-encoding of the challenge it was built with: the server can
/// recompute and compare at token exchange.
pub proof fn lemma_authorize_url_carries_challenge(
    endpoint: Seq<u8>,
    client_id: Seq<u8>,
    redirect_uri: Seq<u8>,
    scopes: Seq<Seq<u8>>,
    state: Seq<u8>,
    challenge: Seq<u8>,
)
    ensures
        ({
            let url = authorize_url_of(endpoint, client_id, redirect_uri, scopes, state, challenge);
            let k: int = endpoint.len() as int + 11 + percent_encoding(client_id).len() as int + 19 + 14
                + percent_encoding(redirect_uri).len() as int + 7 + percent_encoding(state).len() as int;
            &&& url.subrange(k, k + 27) == lit_amp_ccm_s256()
            &&& url.subrange(k + 27, k + 43) == lit_amp_code_challenge()
            &&& url.subrange(k + 43, k + 43 + percent_encoding(challenge).len() as int)
                == percent_encoding(challenge)
        }),
{
    let url = authorize_url_of(endpoint, client_id, redirect_uri, scopes, state, challenge);
    let k: int = endpoint.len() as int + 11 + percent_encoding(client_id).len() as int + 19 + 14
        + percent_encoding(redirect_uri).len() as int + 7 + percent_encoding(state).len() as int;
    assert(url.subrange(k, k + 27) =~= lit_amp_ccm_s256());
    assert(url.subrange(k + 27, k + 43) =~= lit_amp_code_challenge());
    assert(url.subrange(k + 43, k + 43 + percent_encoding(challenge).len() as int)
        =~= percent_encoding(challenge));
}

/// Build the authorization-endpoint URL for one attempt, with every query
/// parameter percent-encoded.
pub fn build_authorize_url(
    authorize_endpoint: &[u8],
    client_id: &[u8],
    redirect_uri: &[u8],
    scopes: &Vec<Vec<u8>>,
    state: &[u8],
    challenge: &[u8],
) -> (r: Vec<u8>)
    ensures
        r@ == authorize_url_of(
            authorize_endpoint@,
            client_id@,
            redirect_uri@,
            scopes@.map_values(|v: Vec<u8>| v@),
            state@,
            challenge@,
        ),
{
    let mut out: Vec<u8> = Vec::new();
    out.extend_from_slice(authorize_endpoint);
    let l0 = [0x3fu8, 0x63, 0x6c, 0x69, 0x65, 0x6e, 0x74, 0x5f, 0x69, 0x64, 0x3d];
    out.extend_from_slice(l0.as_slice());
    proof {
        assert(l0@ =~= lit_q_client_id());
    }
    let mut e_client_id = percent_encode(client_id);
    out.append(&mut e_client_id);
    let l1 = [0x26u8, 0x72, 0x65, 0x73, 0x70, 0x6f, 0x6e, 0x73, 0x65, 0x5f, 0x74, 0x79, 0x70, 0x65, 0x3d, 0x63, 0x6f, 0x64, 0x65];
    out.extend_from_slice(l1.as_slice());
    proof {
        assert(l1@ =~= lit_amp_response_type_code());
    }
    let l2 = [0x26u8, 0x72, 0x65, 0x64, 0x69, 0x72, 0x65, 0x63, 0x74, 0x5f, 0x75, 0x72, 0x69, 0x3d];
    out.extend_from_slice(l2.as_slice());
    proof {
        assert(l2@ =~= lit_amp_redirect_uri());
    }
    let mut e_redirect_uri = percent_encode(redirect_uri);
    out.append(&mut e_redirect_uri);
    let l3 = [0x26u8, 0x73, 0x74, 0x61, 0x74, 0x65, 0x3d];
    out.extend_from_slice(l3.as_slice());
    proof {
        assert(l3@ =~= lit_amp_state());
    }
    let mut e_state = percent_encode(state);
    out.append(&mut e_state);
    let l4 = [0x26u8, 0x63, 0x6f, 0x64, 0x65, 0x5f, 0x63, 0x68, 0x61, 0x6c, 0x6c, 0x65, 0x6e, 0x67, 0x65, 0x5f, 0x6d, 0x65, 0x74, 0x68, 0x6f, 0x64, 0x3d, 0x53, 0x32, 0x35, 0x36];
    out.extend_from_slice(l4.as_slice());
    proof {
        assert(l4@ =~= lit_amp_ccm_s256());
    }
    let l5 = [0x26u8, 0x63, 0x6f, 0x64, 0x65, 0x5f, 0x63, 0x68, 0x61, 0x6c, 0x6c, 0x65, 0x6e, 0x67, 0x65, 0x3d];
    out.extend_from_slice(l5.as_slice());
    proof {
        assert(l5@ =~= lit_amp_code_challenge());
    }
    let mut e_challenge = percent_encode(challenge);
    out.append(&mut e_challenge);
    if scopes.len() > 0 {
        let l6 = [0x26u8, 0x73, 0x63, 0x6f, 0x70, 0x65, 0x3d];
        out.extend_from_slice(l6.as_slice());
        proof {
                assert(l6@ =~= lit_amp_scope());
        }
        let joined = join_scopes(scopes);
        let mut e_scope = percent_encode(joined.as_slice());
        out.append(&mut e_scope);
        proof {
            assert(out@ =~= authorize_url_of(
                authorize_endpoint@,
                client_id@,
                redirect_uri@,
                scopes@.map_values(|v: Vec<u8>| v@),
                state@,
                challenge@,
            ));
        }
    } else {
        proof {
            assert(scopes@.map_values(|v: Vec<u8>| v@).len() == 0);
            assert(out@ =~= authorize_url_of(
                authorize_endpoint@,
                client_id@,
                redirect_uri@,
                scopes@.map_values(|v: Vec<u8>| v@),
                state@,
                challenge@,
            ));
        }
    }
    out
}

/// Build the form body of the authorization-code grant.
pub fn build_exchange_body(
    client_id: &[u8],
    verifier: &[u8],
    redirect_uri: &[u8],
    code: &[u8],
) -> (r: Vec<u8>)
    ensures
        r@ == exchange_body_of(client_id@, verifier@, redirect_uri@, code@),
{
    let mut out: Vec<u8> = Vec::new();
    let l0 = [0x67u8, 0x72, 0x61, 0x6e, 0x74, 0x5f, 0x74, 0x79, 0x70, 0x65, 0x3d, 0x61, 0x75, 0x74, 0x68, 0x6f, 0x72, 0x69, 0x7a, 0x61, 0x74, 0x69, 0x6f, 0x6e, 0x5f, 0x63, 0x6f, 0x64, 0x65, 0x26, 0x63, 0x6f, 0x64, 0x65, 0x3d];
    out.extend_from_slice(l0.as_slice());
    proof {
        assert(l0@ =~= lit_grant_auth_code());
    }
    let mut e_code = percent_encode(code);
    out.append(&mut e_code);
    let l1 = [0x26u8, 0x72, 0x65, 0x64, 0x69, 0x72, 0x65, 0x63, 0x74, 0x5f, 0x75, 0x72, 0x69, 0x3d];
    out.extend_from_slice(l1.as_slice());
    proof {
        assert(l1@ =~= lit_amp_redirect_uri());
    }
    let mut e_redirect_uri = percent_encode(redirect_uri);
    out.append(&mut e_redirect_uri);
    let l2 = [0x26u8, 0x63, 0x6c, 0x69, 0x65, 0x6e, 0x74, 0x5f, 0x69, 0x64, 0x3d];
    out.extend_from_slice(l2.as_slice());
    proof {
        assert(l2@ =~= lit_amp_client_id());
    }
    let mut e_client_id = percent_encode(client_id);
    out.append(&mut e_client_id);
    let l3 = [0x26u8, 0x63, 0x6f, 0x64, 0x65, 0x5f, 0x76, 0x65, 0x72, 0x69, 0x66, 0x69, 0x65, 0x72, 0x3d];
    out.extend_from_slice(l3.as_slice());
    proof {
        assert(l3@ =~= lit_amp_code_verifier());
    }
    let mut e_verifier = percent_encode(verifier);
    out.append(&mut e_verifier);
    out
}

/// Build the form body of the refresh-token grant.
pub fn build_refresh_body(client_id: &[u8], refresh_token: &[u8]) -> (r: Vec<u8>)
    ensures
        r@ == refresh_body_of(client_id@, refresh_token@),
{
    let mut out: Vec<u8> = Vec::new();
    let l0 = [0x67u8, 0x72, 0x61, 0x6e, 0x74, 0x5f, 0x74, 0x79, 0x70, 0x65, 0x3d, 0x72, 0x65, 0x66, 0x72, 0x65, 0x73, 0x68, 0x5f, 0x74, 0x6f, 0x6b, 0x65, 0x6e, 0x26, 0x72, 0x65, 0x66, 0x72, 0x65, 0x73, 0x68, 0x5f, 0x74, 0x6f, 0x6b, 0x65, 0x6e, 0x3d];
    out.extend_from_slice(l0.as_slice());
    proof {
        assert(l0@ =~= lit_grant_refresh());
    }
    let mut e_refresh_token = percent_encode(refresh_token);
    out.append(&mut e_refresh_token);
    let l1 = [0x26u8, 0x63, 0x6c, 0x69, 0x65, 0x6e, 0x74, 0x5f, 0x69, 0x64, 0x3d];
    out.extend_from_slice(l1.as_slice());
    proof {
        assert(l1@ =~= lit_amp_client_id());
    }
    let mut e_client_id = percent_encode(client_id);
    out.append(&mut e_client_id);
    out
}

} // verus!
