//! Token bookkeeping of the OIDC login: the stored token set, the decision
//! to refresh an access token that is about to expire, and the rotation of
//! stored tokens after a refresh.

use vstd::prelude::*;

use crate::error::LeproError;
use crate::oidc::{
    authorize_endpoint_text, authorize_params_text, try_build_authorize_url, url_with_params,
    Callback, TokenSet,
};
use crate::pkce::{challenge_s256, generate_verifier, is_unreserved, s256_challenge, VERIFIER_LEN};
use crate::text::opt_text;

verus! {

#[verifier::external_type_specification]
#[verifier::external_body]
pub struct ExSystemTime(std::time::SystemTime);

/// The token set kept in the OS keychain.
#[derive(Debug, Clone, PartialEq)]
pub struct StoredTokens {
    pub access_token: String,
    pub refresh_token: Option<String>,
    /// When the tokens were obtained (Unix seconds); used to judge whether
    /// the access token is about to expire.
    pub obtained_at: i64,
    /// `expires_in` as returned by the server; 0 means unknown and never
    /// counts as expiring.
    pub expires_in: i64,
}

/// Trusted: std's `SystemTime::now`. Nothing is claimed of the clock.
#[verifier::external_body]
fn system_time_now() -> std::time::SystemTime {
    std::time::SystemTime::now()
}

/// Trusted: std's `SystemTime::duration_since(UNIX_EPOCH)`; `None` when the
/// time lies before the epoch. Nothing is claimed of the value, which
/// depends on the clock.
#[verifier::external_body]
fn duration_since_unix_epoch(t: &std::time::SystemTime) -> Option<std::time::Duration> {
    t.duration_since(std::time::UNIX_EPOCH).ok()
}

/// Trusted: std's `Duration::as_secs`, the whole seconds of a duration.
/// Nothing is claimed, since `Duration` is opaque here.
#[verifier::external_body]
fn duration_secs(d: &std::time::Duration) -> u64 {
    d.as_secs()
}

/// Seconds since the epoch as an `i64` (a wrapping cast), or 0 for a time
/// before the epoch.
pub fn unix_secs_to_i64(secs: Option<u64>) -> (res: i64)
    ensures
        res == match secs {
            Some(s) => s as i64,
            None => 0,
        },
{
    match secs {
        Some(s) => s as i64,
        None => 0,
    }
}

/// The current time in Unix seconds (0 when the clock is before the epoch).
pub fn now_secs() -> i64 {
    let t = system_time_now();
    let secs = match duration_since_unix_epoch(&t) {
        Some(d) => Some(duration_secs(&d)),
        None => None,
    };
    unix_secs_to_i64(secs)
}

/// `now - obtained_at` does not overflow for a token set that has an expiry.
pub open spec fn age_fits(t: StoredTokens, now: i64) -> bool {
    t.expires_in > 0 ==> i64::MIN <= now - t.obtained_at <= i64::MAX
}

/// Whether the access token is about to expire: it has a known lifetime and
/// less than 60 seconds of it remain.
pub open spec fn is_near_expiry(t: StoredTokens, now: i64) -> bool {
    t.expires_in > 0 && now - t.obtained_at >= t.expires_in - 60
}

/// Whether the access token is about to expire at time `now`.
pub fn near_expiry(t: &StoredTokens, now: i64) -> (res: bool)
    requires
        age_fits(*t, now),
    ensures
        res == is_near_expiry(*t, now),
{
    t.expires_in > 0 && (now - t.obtained_at) >= (t.expires_in - 60)
}

/// How to obtain a usable access token.
#[derive(Debug, Clone, PartialEq)]
pub enum TokenPlan {
    /// The stored access token is still good.
    UseCurrent(String),
    /// Refresh with this refresh token, then store the rotated set.
    Refresh(String),
}

/// The message of the error for a missing login.
pub open spec fn not_logged_in_message() -> Seq<char> {
    "未登录"@
}

/// `res` is how to obtain a usable access token from `stored` at `now`:
/// without stored tokens the user is not logged in; an access token about to
/// expire is refreshed when a refresh token is stored; otherwise the stored
/// access token is used.
pub open spec fn is_token_plan(stored: Option<StoredTokens>, now: i64, res: Result<TokenPlan, LeproError>) -> bool {
    match stored {
        None => res matches Err(LeproError::Oidc(m)) && m@ == not_logged_in_message(),
        Some(t) => if is_near_expiry(t, now) && t.refresh_token is Some {
            res == Ok::<TokenPlan, LeproError>(TokenPlan::Refresh(t.refresh_token->0))
        } else {
            res == Ok::<TokenPlan, LeproError>(TokenPlan::UseCurrent(t.access_token))
        },
    }
}

/// Decides how to obtain a usable access token: without stored tokens the
/// user is not logged in; an access token about to expire is refreshed when
/// a refresh token is stored; otherwise the stored access token is used.
pub fn access_token_plan(stored: Option<StoredTokens>, now: i64) -> (res: Result<TokenPlan, LeproError>)
    requires
        stored matches Some(t) ==> age_fits(t, now),
    ensures
        is_token_plan(stored, now, res),
{
    match stored {
        None => Err(LeproError::Oidc(String::from_str("未登录"))),
        Some(t) => {
            if near_expiry(&t, now) {
                if let Some(rt) = t.refresh_token {
                    return Ok(TokenPlan::Refresh(rt));
                }
            }
            Ok(TokenPlan::UseCurrent(t.access_token))
        },
    }
}

/// The stored tokens after a refresh at time `now`: the new access token and
/// lifetime, and the new refresh token, or the previous one when the server
/// sent none.
pub fn rotated_tokens(fresh: TokenSet, previous_refresh: String, now: i64) -> (res: StoredTokens)
    ensures
        res.access_token == fresh.access_token,
        res.refresh_token == match fresh.refresh_token {
            Some(r) => Some(r),
            None => Some(previous_refresh),
        },
        res.refresh_token is Some,
        res.obtained_at == now,
        res.expires_in == fresh.expires_in,
{
    let refresh_token = match fresh.refresh_token {
        Some(r) => Some(r),
        None => Some(previous_refresh),
    };
    StoredTokens {
        access_token: fresh.access_token,
        refresh_token,
        obtained_at: now,
        expires_in: fresh.expires_in,
    }
}

/// The stored tokens after a code exchange at time `now`.
pub fn tokens_from_exchange(ts: TokenSet, now: i64) -> (res: StoredTokens)
    ensures
        res.access_token == ts.access_token,
        res.refresh_token == ts.refresh_token,
        res.obtained_at == now,
        res.expires_in == ts.expires_in,
{
    StoredTokens {
        access_token: ts.access_token,
        refresh_token: ts.refresh_token,
        obtained_at: now,
        expires_in: ts.expires_in,
    }
}

/// The message of the error for a callback whose state differs from the one sent.
pub open spec fn state_mismatch_message() -> Seq<char> {
    "回调 state 不匹配（CSRF）"@
}

/// Checks the callback's state against the one sent with the authorization
/// request (CSRF protection).
pub fn check_callback_state(cb: &Callback, expected: &str) -> (res: Result<(), LeproError>)
    ensures
        res is Ok <==> cb.state@ == expected@,
        res matches Err(e) ==> e matches LeproError::Oidc(m) && m@ == state_mismatch_message(),
{
    let expected_s = String::from_str(expected);
    if cb.state != expected_s {
        Err(LeproError::Oidc(String::from_str("回调 state 不匹配（CSRF）")))
    } else {
        Ok(())
    }
}

/// Where a login stands.
#[derive(Debug, Clone, Copy, PartialEq, Eq, Structural)]
pub enum LoginPhase {
    /// The browser was sent to the authorization URL; waiting for the callback.
    AwaitingCallback,
    /// The code is being exchanged; waiting for the token set.
    AwaitingTokens,
    /// The login is over (stored or failed).
    Finished,
}

/// A login in progress: the PKCE verifier, the state value sent in the
/// authorization request, and the loopback redirect URI.
#[derive(Debug)]
pub struct LoginFlow {
    pub phase: LoginPhase,
    pub expected_state: String,
    pub verifier: String,
    pub redirect_uri: String,
}

/// What happened during a login.
#[derive(Debug)]
pub enum LoginEvent {
    /// The loopback listener received this callback.
    CallbackReceived(Callback),
    /// The token endpoint answered with this token set, at this time (Unix seconds).
    TokensReceived(TokenSet, i64),
}

/// What the login does next.
#[derive(Debug, PartialEq)]
pub enum LoginAction {
    /// Exchange this authorization code, with this redirect URI and PKCE
    /// verifier, for tokens.
    ExchangeCode { code: String, redirect_uri: String, verifier: String },
    /// Store these tokens; the login succeeded.
    Store(StoredTokens),
    /// The login failed with this error.
    Fail(LeproError),
    /// The event does not apply at this point and is ignored.
    Ignore,
}

/// One login step from `before` to `after` on `event`, with `action`: a
/// callback whose state matches leads to the exchange of its code with the
/// login's own redirect URI and verifier; one whose state differs fails the
/// login; the token set of the exchange is stored with the time it arrived;
/// any other event is ignored. Verifier, state and redirect URI never change.
pub open spec fn login_step(before: LoginFlow, event: LoginEvent, after: LoginFlow, action: LoginAction) -> bool {
    &&& after.expected_state == before.expected_state
    &&& after.verifier == before.verifier
    &&& after.redirect_uri == before.redirect_uri
    &&& match (before.phase, event) {
        (LoginPhase::AwaitingCallback, LoginEvent::CallbackReceived(cb)) => if cb.state@
            == before.expected_state@ {
            after.phase == LoginPhase::AwaitingTokens && action == LoginAction::ExchangeCode {
                code: cb.code,
                redirect_uri: before.redirect_uri,
                verifier: before.verifier,
            }
        } else {
            after.phase == LoginPhase::Finished && (action matches LoginAction::Fail(
                LeproError::Oidc(m),
            ) && m@ == state_mismatch_message())
        },
        (LoginPhase::AwaitingTokens, LoginEvent::TokensReceived(ts, now)) => after.phase
            == LoginPhase::Finished && action == LoginAction::Store(
            StoredTokens {
                access_token: ts.access_token,
                refresh_token: ts.refresh_token,
                obtained_at: now,
                expires_in: ts.expires_in,
            },
        ),
        _ => after.phase == before.phase && action == LoginAction::Ignore,
    }
}

impl LoginFlow {
    /// A login with this verifier, state and redirect URI that waits for its callback.
    pub fn new(verifier: String, expected_state: String, redirect_uri: String) -> (res: LoginFlow)
        ensures
            res.phase == LoginPhase::AwaitingCallback,
            res.verifier == verifier,
            res.expected_state == expected_state,
            res.redirect_uri == redirect_uri,
    {
        LoginFlow { phase: LoginPhase::AwaitingCallback, expected_state, verifier, redirect_uri }
    }

    /// Starts a login for a listener at `redirect_uri`: a fresh random PKCE
    /// verifier, and a fresh random state drawn the same way.
    pub fn begin(redirect_uri: String) -> (res: LoginFlow)
        ensures
            res.phase == LoginPhase::AwaitingCallback,
            res.redirect_uri == redirect_uri,
            res.verifier@.len() == VERIFIER_LEN,
            forall|i: int| 0 <= i < res.verifier@.len() ==> is_unreserved(#[trigger] res.verifier@[i]),
            res.expected_state@.len() == VERIFIER_LEN,
            forall|i: int|
                0 <= i < res.expected_state@.len() ==> is_unreserved(#[trigger] res.expected_state@[i]),
    {
        let verifier = generate_verifier();
        let state = generate_verifier();
        LoginFlow::new(verifier, state, redirect_uri)
    }

    /// The authorization URL of this login: `{issuer}/authorize` with the
    /// login's redirect URI, the S256 challenge of its verifier, and its
    /// state; `None` when `{issuer}/authorize` is not a valid absolute URL.
    pub fn authorize_url(&self, issuer: &str) -> (res: Option<String>)
        ensures
            opt_text(res) == url_with_params(
                authorize_endpoint_text(issuer@),
                authorize_params_text(
                    self.redirect_uri@,
                    s256_challenge(self.verifier@),
                    self.expected_state@,
                ),
            ),
    {
        let challenge = challenge_s256(self.verifier.as_str());
        try_build_authorize_url(
            issuer,
            self.redirect_uri.as_str(),
            challenge.as_str(),
            self.expected_state.as_str(),
        )
    }

    /// Takes one login step.
    pub fn step(&mut self, event: LoginEvent) -> (res: LoginAction)
        ensures
            login_step(*old(self), event, *final(self), res),
    {
        match (self.phase, event) {
            (LoginPhase::AwaitingCallback, LoginEvent::CallbackReceived(cb)) => {
                match check_callback_state(&cb, self.expected_state.as_str()) {
                    Ok(()) => {
                        self.phase = LoginPhase::AwaitingTokens;
                        LoginAction::ExchangeCode {
                            code: cb.code,
                            redirect_uri: self.redirect_uri.clone(),
                            verifier: self.verifier.clone(),
                        }
                    },
                    Err(e) => {
                        self.phase = LoginPhase::Finished;
                        LoginAction::Fail(e)
                    },
                }
            },
            (LoginPhase::AwaitingTokens, LoginEvent::TokensReceived(ts, now)) => {
                self.phase = LoginPhase::Finished;
                LoginAction::Store(tokens_from_exchange(ts, now))
            },
            _ => LoginAction::Ignore,
        }
    }
}

/// The code is exchanged with the PKCE verifier whose S256 challenge the
/// login's authorization URL carries, and with the redirect URI that URL
/// names: the values that a login starts with are the ones its exchange sends.
pub proof fn lemma_exchange_uses_login_verifier(
    f: LoginFlow,
    e: LoginEvent,
    f2: LoginFlow,
    code: String,
    redirect_uri: String,
    verifier: String,
)
    requires
        login_step(f, e, f2, LoginAction::ExchangeCode { code, redirect_uri, verifier }),
    ensures
        verifier == f.verifier,
        redirect_uri == f.redirect_uri,
        authorize_params_text(redirect_uri@, s256_challenge(verifier@), f.expected_state@)
            == authorize_params_text(f.redirect_uri@, s256_challenge(f.verifier@), f.expected_state@),
        e matches LoginEvent::CallbackReceived(cb) && cb.code == code && cb.state@
            == f.expected_state@,
{
}

/// A callback whose state differs from the one sent ends the login without
/// a code exchange, and no later event of that login does anything.
pub proof fn lemma_mismatched_state_sends_no_code(
    f0: LoginFlow,
    cb: Callback,
    f1: LoginFlow,
    a1: LoginAction,
    e2: LoginEvent,
    f2: LoginFlow,
    a2: LoginAction,
)
    requires
        f0.phase == LoginPhase::AwaitingCallback,
        cb.state@ != f0.expected_state@,
        login_step(f0, LoginEvent::CallbackReceived(cb), f1, a1),
        login_step(f1, e2, f2, a2),
    ensures
        !(a1 is ExchangeCode),
        a1 is Fail,
        f1.phase == LoginPhase::Finished,
        a2 == LoginAction::Ignore,
        f2.phase == LoginPhase::Finished,
{
}

/// A code is exchanged only on a callback whose state is the one sent, while
/// the login waits for its callback.
pub proof fn lemma_exchange_only_on_matching_state(f: LoginFlow, e: LoginEvent, f2: LoginFlow, a: LoginAction)
    requires
        login_step(f, e, f2, a),
        a is ExchangeCode,
    ensures
        f.phase == LoginPhase::AwaitingCallback,
        e matches LoginEvent::CallbackReceived(cb) && cb.state@ == f.expected_state@,
{
}

/// Expiry only comes closer with time: a token that counts as about to
/// expire at `now` still counts so at any later time; a token whose whole
/// lifetime has passed counts as about to expire; one without a known
/// lifetime never does, and neither does one with more than 60 seconds left.
pub proof fn lemma_near_expiry_monotonic(t: StoredTokens, now: i64, later: i64)
    ensures
        is_near_expiry(t, now) && now <= later ==> is_near_expiry(t, later),
        t.expires_in > 0 && now - t.obtained_at >= t.expires_in ==> is_near_expiry(t, now),
        t.expires_in > 0 && now - t.obtained_at >= t.expires_in - 60 ==> is_near_expiry(t, now),
        t.expires_in <= 0 ==> !is_near_expiry(t, now),
        now - t.obtained_at < t.expires_in - 60 ==> !is_near_expiry(t, now),
{
}

/// The plan for stored tokens whose lifetime is known and at most 60 seconds
/// from its end (or past it) is a refresh whenever a refresh token is stored.
pub proof fn lemma_expired_token_is_refreshed(t: StoredTokens, now: i64, res: Result<TokenPlan, LeproError>)
    requires
        t.expires_in > 0,
        now - t.obtained_at >= t.expires_in - 60,
        t.refresh_token is Some,
        is_token_plan(Some(t), now, res),
    ensures
        res == Ok::<TokenPlan, LeproError>(TokenPlan::Refresh(t.refresh_token->0)),
{
}

} // verus!
