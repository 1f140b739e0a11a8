use lepro_core::auth::{LoginAction, LoginEvent, LoginFlow, LoginPhase};
use lepro_core::auth::{
    access_token_plan, check_callback_state, near_expiry, now_secs, rotated_tokens,
    tokens_from_exchange, unix_secs_to_i64, StoredTokens, TokenPlan,
};
use lepro_core::credentials::{credentials_status_error, credentials_url};
use lepro_core::http::status_is_success;
use lepro_core::json::{JsonObject, JsonValue};
use lepro_core::loopback::{loopback_closed_error, redirect_uri_for_port, CallbackParams, LoopbackState};
use lepro_core::oidc::{Callback, TokenSet};
use lepro_core::LeproError;

fn stored(expires_in: i64, obtained_at: i64, rt: Option<&str>) -> StoredTokens {
    StoredTokens {
        access_token: "AT".into(),
        refresh_token: rt.map(String::from),
        obtained_at,
        expires_in,
    }
}

#[test]
fn refresh_only_near_expiry_with_refresh_token() {
    assert_eq!(access_token_plan(Some(stored(3600, 1000, Some("RT"))), 1000 + 3540), Ok(TokenPlan::Refresh("RT".into())));
    assert_eq!(access_token_plan(Some(stored(3600, 1000, Some("RT"))), 1000 + 3539), Ok(TokenPlan::UseCurrent("AT".into())));
    assert_eq!(access_token_plan(Some(stored(3600, 1000, None)), 999_999), Ok(TokenPlan::UseCurrent("AT".into())));
    assert_eq!(access_token_plan(Some(stored(0, 0, Some("RT"))), 999_999), Ok(TokenPlan::UseCurrent("AT".into())));
    assert_eq!(access_token_plan(None, 0), Err(LeproError::Oidc("未登录".into())));
    assert!(!near_expiry(&stored(0, 0, None), i64::MAX));
}

#[test]
fn rotation_keeps_previous_refresh_token() {
    let fresh = TokenSet { access_token: "new".into(), refresh_token: None, expires_in: 60, scope: String::new() };
    let t = rotated_tokens(fresh, "old-rt".into(), 77);
    assert_eq!(t, StoredTokens { access_token: "new".into(), refresh_token: Some("old-rt".into()), obtained_at: 77, expires_in: 60 });
    let fresh = TokenSet { access_token: "n".into(), refresh_token: Some("rt2".into()), expires_in: 5, scope: "s".into() };
    assert_eq!(rotated_tokens(fresh, "old".into(), 1).refresh_token, Some("rt2".into()));
    let ts = TokenSet { access_token: "a".into(), refresh_token: None, expires_in: 9, scope: String::new() };
    assert_eq!(tokens_from_exchange(ts, 3), StoredTokens { access_token: "a".into(), refresh_token: None, obtained_at: 3, expires_in: 9 });
}

#[test]
fn callback_state_must_match() {
    let cb = Callback { code: "c".into(), state: "s1".into() };
    assert_eq!(check_callback_state(&cb, "s1"), Ok(()));
    assert_eq!(check_callback_state(&cb, "s2"), Err(LeproError::Oidc("回调 state 不匹配（CSRF）".into())));
}

#[test]
fn clock_conversion() {
    assert_eq!(unix_secs_to_i64(None), 0);
    assert_eq!(unix_secs_to_i64(Some(42)), 42);
    assert_eq!(unix_secs_to_i64(Some(u64::MAX)), -1);
    assert!(now_secs() > 1_600_000_000);
}

#[test]
fn loopback_first_request_wins() {
    let mut st = LoopbackState::new();
    let a = st.on_callback_request(CallbackParams { code: "THECODE".into(), state: Some("st".into()) });
    assert_eq!(a.deliver, Some(Callback { code: "THECODE".into(), state: "st".into() }));
    assert!(a.shutdown);
    let b = st.on_callback_request(CallbackParams { code: "OTHER".into(), state: None });
    assert_eq!(b.deliver, None);
    assert!(!b.shutdown);
}

#[test]
fn loopback_missing_state_is_empty() {
    let mut st = LoopbackState::new();
    let a = st.on_callback_request(CallbackParams { code: "c".into(), state: None });
    assert_eq!(a.deliver.unwrap().state, "");
    assert!(matches!(loopback_closed_error(), LeproError::Oidc(_)));
}

#[test]
fn redirect_uri_uses_port() {
    assert_eq!(redirect_uri_for_port(54321), "http://127.0.0.1:54321/cb");
    assert_eq!(redirect_uri_for_port(0), "http://127.0.0.1:0/cb");
    assert_eq!(redirect_uri_for_port(65535), "http://127.0.0.1:65535/cb");
}

#[test]
fn http_helpers() {
    assert!(status_is_success(200));
    assert!(status_is_success(299));
    assert!(!status_is_success(199));
    assert!(!status_is_success(401));
    assert_eq!(credentials_url("http://p"), "http://p/api/me/llm-credentials");
    assert_eq!(
        credentials_status_error("401 Unauthorized"),
        LeproError::Oidc("credentials endpoint returned 401 Unauthorized".into())
    );
}

#[test]
fn error_display_forms() {
    assert_eq!(LeproError::Http("x".into()).to_string(), "http: x");
    assert_eq!(LeproError::Parse("x".into()).to_string(), "parse: x");
    assert_eq!(LeproError::Oidc("x".into()).to_string(), "oidc: x");
    assert_eq!(LeproError::Io("x".into()).to_string(), "io: x");
}

#[test]
fn json_object_read_after_write() {
    let mut o = JsonObject::new();
    o.insert("a".into(), JsonValue::Null);
    o.insert("b".into(), JsonValue::Bool(false));
    o.insert("a".into(), JsonValue::Str("x".into()));
    assert_eq!(o.len(), 2);
    assert_eq!(o.get("a").unwrap().as_str(), Some("x"));
    assert!(matches!(o.get("b"), Some(JsonValue::Bool(false))));
    assert!(matches!(o.remove("b"), Some(JsonValue::Bool(false))));
    assert!(o.get("b").is_none());
    assert!(o.remove("b").is_none());
    assert_eq!(o.len(), 1);
    assert_eq!(o.into_entries().len(), 1);
}

#[test]
fn login_flow_exchanges_only_on_matching_state() {
    let mut flow = LoginFlow::new("ver".into(), "s1".into(), "http://127.0.0.1:5/cb".into());
    let a = flow.step(LoginEvent::CallbackReceived(Callback { code: "c".into(), state: "s1".into() }));
    assert_eq!(
        a,
        LoginAction::ExchangeCode { code: "c".into(), redirect_uri: "http://127.0.0.1:5/cb".into(), verifier: "ver".into() }
    );
    assert_eq!(flow.phase, LoginPhase::AwaitingTokens);
    let ts = TokenSet { access_token: "a".into(), refresh_token: Some("r".into()), expires_in: 10, scope: String::new() };
    let a = flow.step(LoginEvent::TokensReceived(ts, 5));
    assert_eq!(
        a,
        LoginAction::Store(StoredTokens { access_token: "a".into(), refresh_token: Some("r".into()), obtained_at: 5, expires_in: 10 })
    );
    assert_eq!(flow.phase, LoginPhase::Finished);

    let mut flow = LoginFlow::new("ver".into(), "s1".into(), "r".into());
    let a = flow.step(LoginEvent::CallbackReceived(Callback { code: "c".into(), state: "evil".into() }));
    assert_eq!(a, LoginAction::Fail(LeproError::Oidc("回调 state 不匹配（CSRF）".into())));
    let a = flow.step(LoginEvent::CallbackReceived(Callback { code: "c".into(), state: "s1".into() }));
    assert_eq!(a, LoginAction::Ignore);
    assert_eq!(flow.phase, LoginPhase::Finished);
}

#[test]
fn login_authorize_url_carries_challenge_of_verifier() {
    let v = "dBjftJeZ4CVP-mB92K27uhbUJU1p1r_wW1gFWFOEjXk";
    let flow = LoginFlow::new(v.into(), "ST".into(), "http://127.0.0.1:5/cb".into());
    let u = flow.authorize_url("http://h/sso").unwrap();
    assert!(u.contains("code_challenge=E9Melhoa2OwvFrEMTJguCHaoeK1t8URWbuGJSstw-cM"));
    assert!(u.contains("state=ST"));
    assert!(u.contains("redirect_uri=http%3A%2F%2F127.0.0.1%3A5%2Fcb"));
    let begun = LoginFlow::begin("http://127.0.0.1:9/cb".into());
    assert_eq!(begun.verifier.len(), 64);
    assert_eq!(begun.expected_state.len(), 64);
    assert_eq!(begun.phase, LoginPhase::AwaitingCallback);
}
