//! OIDC: the authorization URL of the code flow with PKCE, parsing of the
//! loopback callback, and the token requests against the `/sso` endpoint.

use vstd::prelude::*;

use crate::error::LeproError;
use crate::text::{opt_text, pairs_text, text_pair};

verus! {

/// The OAuth client identifier of the connector.
pub const CLIENT_ID: &'static str = "lepro-connect";

/// A parsed OAuth2 loopback callback containing code and state.
#[derive(Debug, Clone, PartialEq)]
pub struct Callback {
    pub code: String,
    pub state: String,
}

/// A token set returned from the OIDC token endpoint.
#[derive(Debug, Clone, PartialEq)]
pub struct TokenSet {
    pub access_token: String,
    pub refresh_token: Option<String>,
    pub expires_in: i64,
    pub scope: String,
}

/// The query parameters of the authorization request, in order.
pub open spec fn authorize_params_text(
    redirect_uri: Seq<char>,
    challenge: Seq<char>,
    state: Seq<char>,
) -> Seq<(Seq<char>, Seq<char>)> {
    seq![
        ("response_type"@, "code"@),
        ("client_id"@, "lepro-connect"@),
        ("redirect_uri"@, redirect_uri),
        ("scope"@, "openid offline_access"@),
        ("state"@, state),
        ("code_challenge"@, challenge),
        ("code_challenge_method"@, "S256"@),
    ]
}

/// The URL that `url::Url::parse_with_params(input, params)` serializes to,
/// or `None` when `input` is not a valid absolute URL.
pub uninterp spec fn url_with_params(input: Seq<char>, params: Seq<(Seq<char>, Seq<char>)>) -> Option<
    Seq<char>,
>;

/// What parsing `input` with `url::Url::parse` gives: the query component
/// (`Url::query`), or the parse error's message.
pub uninterp spec fn url_query_component(input: Seq<char>) -> Result<Option<Seq<char>>, Seq<char>>;

/// The name/value pairs that `form_urlencoded::parse` decodes from `input`.
pub uninterp spec fn form_urlencoded_parse(input: Seq<char>) -> Seq<(Seq<char>, Seq<char>)>;

/// Trusted: `url::Url::parse_with_params`, which parses `input` and appends
/// the pairs, form-encoded, to its query; the serialization of the result
/// (or its failure) is named `url_with_params`.
#[verifier::external_body]
fn url_parse_with_params(input: &str, params: &Vec<(String, String)>) -> (res: Option<String>)
    ensures
        opt_text(res) == url_with_params(input@, pairs_text(params@)),
{
    url::Url::parse_with_params(input, params.iter()).ok().map(String::from)
}

/// Trusted: `url::Url::parse` followed by `Url::query`; the outcome (the
/// query component, or the parse error's message) is named `url_query_component`.
#[verifier::external_body]
fn url_query(input: &str) -> (res: Result<Option<String>, String>)
    ensures
        match res {
            Ok(q) => url_query_component(input@) == Ok::<Option<Seq<char>>, Seq<char>>(
                opt_text(q),
            ),
            Err(e) => url_query_component(input@) == Err::<Option<Seq<char>>, Seq<char>>(e@),
        },
{
    match url::Url::parse(input) {
        Ok(u) => Ok(u.query().map(String::from)),
        Err(e) => Err(e.to_string()),
    }
}

/// Trusted: `form_urlencoded::parse` (re-exported by url) with owned
/// strings; the decoded pairs are named `form_urlencoded_parse`.
#[verifier::external_body]
fn form_urlencoded_pairs(input: &str) -> (res: Vec<(String, String)>)
    ensures
        pairs_text(res@) == form_urlencoded_parse(input@),
{
    url::form_urlencoded::parse(input.as_bytes()).into_owned().collect()
}

/// The query parameters of the authorization request: response type `code`,
/// client `lepro-connect`, the redirect URI, scope `openid offline_access`,
/// the state, the S256 challenge.
pub fn authorize_params(redirect_uri: &str, challenge: &str, state: &str) -> (res: Vec<(String, String)>)
    ensures
        pairs_text(res@) == authorize_params_text(redirect_uri@, challenge@, state@),
{
    let mut v: Vec<(String, String)> = Vec::new();
    v.push(text_pair("response_type", "code"));
    v.push(text_pair("client_id", CLIENT_ID));
    v.push(text_pair("redirect_uri", redirect_uri));
    v.push(text_pair("scope", "openid offline_access"));
    v.push(text_pair("state", state));
    v.push(text_pair("code_challenge", challenge));
    v.push(text_pair("code_challenge_method", "S256"));
    assert(pairs_text(v@) =~= authorize_params_text(redirect_uri@, challenge@, state@));
    v
}

/// The authorization endpoint of an issuer: `{issuer}/authorize`.
pub open spec fn authorize_endpoint_text(issuer: Seq<char>) -> Seq<char> {
    issuer + "/authorize"@
}

/// Builds the authorization URL for the code flow with PKCE:
/// `{issuer}/authorize` with the parameters of [`authorize_params`] appended
/// to its query.
///
/// The issuer must make `{issuer}/authorize` a valid absolute URL.
pub fn build_authorize_url(issuer: &str, redirect_uri: &str, challenge: &str, state: &str) -> (res:
    String)
    requires
        url_with_params(
            authorize_endpoint_text(issuer@),
            authorize_params_text(redirect_uri@, challenge@, state@),
        ) is Some,
    ensures
        Some(res@) == url_with_params(
            authorize_endpoint_text(issuer@),
            authorize_params_text(redirect_uri@, challenge@, state@),
        ),
{
    let mut endpoint = String::from_str(issuer);
    endpoint.append("/authorize");
    let params = authorize_params(redirect_uri, challenge, state);
    match url_parse_with_params(endpoint.as_str(), &params) {
        Some(u) => u,
        None => {
            proof {
                assert(false);
            }
            String::new()
        },
    }
}

/// The authorization URL, or `None` when `{issuer}/authorize` is not a valid
/// absolute URL.
pub fn try_build_authorize_url(issuer: &str, redirect_uri: &str, challenge: &str, state: &str) -> (res:
    Option<String>)
    ensures
        opt_text(res) == url_with_params(
            authorize_endpoint_text(issuer@),
            authorize_params_text(redirect_uri@, challenge@, state@),
        ),
{
    let mut endpoint = String::from_str(issuer);
    endpoint.append("/authorize");
    let params = authorize_params(redirect_uri, challenge, state);
    if url_parse_with_params(endpoint.as_str(), &params).is_some() {
        Some(build_authorize_url(issuer, redirect_uri, challenge, state))
    } else {
        None
    }
}

/// The value of the last pair named `key`, if any.
pub open spec fn last_value(pairs: Seq<(Seq<char>, Seq<char>)>, key: Seq<char>) -> Option<Seq<char>>
    decreases pairs.len(),
{
    if pairs.len() == 0 {
        None
    } else if pairs.last().0 == key {
        Some(pairs.last().1)
    } else {
        last_value(pairs.drop_last(), key)
    }
}

/// The message of the error for a callback without `code`.
pub open spec fn missing_code_message() -> Seq<char> {
    "missing 'code' parameter in callback"@
}

/// `res` is the callback that the query pairs describe: the last `code`
/// (an error when there is none) and the last `state` (empty when there is none).
pub open spec fn is_callback_outcome(
    pairs: Seq<(Seq<char>, Seq<char>)>,
    res: Result<Callback, LeproError>,
) -> bool {
    match last_value(pairs, "code"@) {
        None => res matches Err(LeproError::Oidc(m)) && m@ == missing_code_message(),
        Some(c) => res matches Ok(cb) && cb.code@ == c && cb.state@ == match last_value(
            pairs,
            "state"@,
        ) {
            Some(s) => s,
            None => Seq::empty(),
        },
    }
}

/// Extracts code and state from decoded query pairs: the last `code` and the
/// last `state` win; a missing `code` is an error, a missing `state` is empty.
pub fn callback_from_pairs(pairs: &Vec<(String, String)>) -> (res: Result<Callback, LeproError>)
    ensures
        is_callback_outcome(pairs_text(pairs@), res),
{
    let ghost t = pairs_text(pairs@);
    let code_key = String::from_str("code");
    let state_key = String::from_str("state");
    let mut code: Option<String> = None;
    let mut state: Option<String> = None;
    let n = pairs.len();
    let mut i: usize = 0;
    assert(t.subrange(0, 0) =~= Seq::<(Seq<char>, Seq<char>)>::empty());
    while i < n
        invariant
            n == pairs@.len(),
            t == pairs_text(pairs@),
            i <= n,
            code_key@ == "code"@,
            state_key@ == "state"@,
            opt_text(code) == last_value(t.subrange(0, i as int), "code"@),
            opt_text(state) == last_value(t.subrange(0, i as int), "state"@),
        decreases n - i,
    {
        assert(t.subrange(0, i + 1).drop_last() =~= t.subrange(0, i as int));
        assert(t.subrange(0, i + 1).last() == t[i as int]);
        if pairs[i].0 == code_key {
            code = Some(pairs[i].1.clone());
        } else if pairs[i].0 == state_key {
            state = Some(pairs[i].1.clone());
        }
        proof {
            reveal_strlit("code");
            reveal_strlit("state");
            assert("code"@.len() != "state"@.len());
        }
        i = i + 1;
    }
    assert(t.subrange(0, n as int) =~= t);
    match code {
        Some(c) => {
            let s = match state {
                Some(s) => s,
                None => String::new(),
            };
            Ok(Callback { code: c, state: s })
        },
        None => Err(LeproError::Oidc(String::from_str("missing 'code' parameter in callback"))),
    }
}

/// Parses a loopback callback URL and extracts the authorization code and
/// state from its query.
///
/// A URL that does not parse gives `LeproError::Parse` with the parser's
/// message; otherwise the query pairs decide, as in [`callback_from_pairs`].
pub fn parse_callback(url: &str) -> (res: Result<Callback, LeproError>)
    ensures
        match url_query_component(url@) {
            Err(e) => res matches Err(LeproError::Parse(m)) && m@ == e,
            Ok(q) => is_callback_outcome(
                form_urlencoded_parse(
                    match q {
                        Some(q) => q,
                        None => Seq::empty(),
                    },
                ),
                res,
            ),
        },
{
    match url_query(url) {
        Err(e) => Err(LeproError::Parse(e)),
        Ok(q) => {
            let query = match q {
                Some(q) => q,
                None => String::new(),
            };
            let pairs = form_urlencoded_pairs(query.as_str());
            callback_from_pairs(&pairs)
        },
    }
}

/// The token endpoint of an issuer: `{issuer}/token`.
pub fn token_endpoint(issuer: &str) -> (res: String)
    ensures
        res@ == issuer@ + "/token"@,
{
    let mut s = String::from_str(issuer);
    s.append("/token");
    s
}

/// The form of the authorization-code grant.
pub open spec fn authorization_code_form_text(
    code: Seq<char>,
    redirect_uri: Seq<char>,
    verifier: Seq<char>,
) -> Seq<(Seq<char>, Seq<char>)> {
    seq![
        ("grant_type"@, "authorization_code"@),
        ("code"@, code),
        ("redirect_uri"@, redirect_uri),
        ("client_id"@, "lepro-connect"@),
        ("code_verifier"@, verifier),
    ]
}

/// The form fields that exchange an authorization code for tokens.
pub fn authorization_code_form(code: &str, redirect_uri: &str, verifier: &str) -> (res: Vec<
    (String, String),
>)
    ensures
        pairs_text(res@) == authorization_code_form_text(code@, redirect_uri@, verifier@),
{
    let mut v: Vec<(String, String)> = Vec::new();
    v.push(text_pair("grant_type", "authorization_code"));
    v.push(text_pair("code", code));
    v.push(text_pair("redirect_uri", redirect_uri));
    v.push(text_pair("client_id", CLIENT_ID));
    v.push(text_pair("code_verifier", verifier));
    assert(pairs_text(v@) =~= authorization_code_form_text(code@, redirect_uri@, verifier@));
    v
}

/// The form of the refresh-token grant.
pub open spec fn refresh_form_text(refresh_token: Seq<char>) -> Seq<(Seq<char>, Seq<char>)> {
    seq![
        ("grant_type"@, "refresh_token"@),
        ("refresh_token"@, refresh_token),
        ("client_id"@, "lepro-connect"@),
    ]
}

/// The form fields that refresh an access token.
pub fn refresh_form(refresh_token: &str) -> (res: Vec<(String, String)>)
    ensures
        pairs_text(res@) == refresh_form_text(refresh_token@),
{
    let mut v: Vec<(String, String)> = Vec::new();
    v.push(text_pair("grant_type", "refresh_token"));
    v.push(text_pair("refresh_token", refresh_token));
    v.push(text_pair("client_id", CLIENT_ID));
    assert(pairs_text(v@) =~= refresh_form_text(refresh_token@));
    v
}

/// The error for a token endpoint that answered with a non-2xx status;
/// `status` is the status as displayed (code and reason).
pub fn token_status_error(status: &str) -> (res: LeproError)
    ensures
        res matches LeproError::Oidc(m) && m@ == "token "@ + status@,
{
    let mut m = String::from_str("token ");
    m.append(status);
    LeproError::Oidc(m)
}

/// A pair named `key` appended at the end is the one a lookup of `key` finds.
pub proof fn lemma_last_value_push_same(pairs: Seq<(Seq<char>, Seq<char>)>, key: Seq<char>, v: Seq<char>)
    ensures
        last_value(pairs.push((key, v)), key) == Some(v),
{
    assert(pairs.push((key, v)).last() == (key, v));
}

/// A pair whose name differs from `key`, wherever it is inserted, does not
/// change what a lookup of `key` finds: names are compared whole.
pub proof fn lemma_last_value_ignores_other_names(
    pairs: Seq<(Seq<char>, Seq<char>)>,
    i: int,
    name: Seq<char>,
    v: Seq<char>,
    key: Seq<char>,
)
    requires
        0 <= i <= pairs.len(),
        name != key,
    ensures
        last_value(pairs.insert(i, (name, v)), key) == last_value(pairs, key),
    decreases pairs.len(),
{
    let q = pairs.insert(i, (name, v));
    if i == pairs.len() {
        assert(q.drop_last() =~= pairs);
        assert(q.last() == (name, v));
    } else {
        lemma_last_value_ignores_other_names(pairs.drop_last(), i, name, v, key);
        assert(q.drop_last() =~= pairs.drop_last().insert(i, (name, v)));
        assert(q.last() == pairs.last());
    }
}

/// Only pairs named exactly `code` or `state` matter to the callback: a pair
/// with any other name, inserted anywhere, leaves the outcome unchanged; and
/// a `code` or `state` pair appended at the end is the one that counts.
pub proof fn lemma_callback_ignores_other_parameters(
    pairs: Seq<(Seq<char>, Seq<char>)>,
    i: int,
    name: Seq<char>,
    v: Seq<char>,
    res: Result<Callback, LeproError>,
)
    requires
        0 <= i <= pairs.len(),
        name != "code"@,
        name != "state"@,
    ensures
        is_callback_outcome(pairs.insert(i, (name, v)), res) == is_callback_outcome(pairs, res),
        last_value(pairs.push(("code"@, v)), "code"@) == Some(v),
        last_value(pairs.push(("state"@, v)), "state"@) == Some(v),
{
    lemma_last_value_ignores_other_names(pairs, i, name, v, "code"@);
    lemma_last_value_ignores_other_names(pairs, i, name, v, "state"@);
    lemma_last_value_push_same(pairs, "code"@, v);
    lemma_last_value_push_same(pairs, "state"@, v);
}

} // verus!
