use lepro_core::oidc::{
    authorization_code_form, authorize_params, build_authorize_url, callback_from_pairs,
    parse_callback, refresh_form, token_endpoint, token_status_error, try_build_authorize_url,
};
use lepro_core::LeproError;

#[test]
fn authorize_url_has_required_params() {
    let u = build_authorize_url("http://h/sso", "http://127.0.0.1:5/cb", "CH", "ST");
    assert!(u.contains("client_id=lepro-connect"));
    assert!(u.contains("code_challenge=CH"));
    assert!(u.contains("code_challenge_method=S256"));
    assert!(u.contains("scope=openid+offline_access") || u.contains("scope=openid%20offline_access"));
    assert!(u.contains("redirect_uri=http%3A%2F%2F127.0.0.1%3A5%2Fcb"));
}

#[test]
fn authorize_url_is_exact() {
    let u = build_authorize_url("http://h/sso", "http://127.0.0.1:5/cb", "CH", "ST");
    assert_eq!(
        u,
        "http://h/sso/authorize?response_type=code&client_id=lepro-connect&redirect_uri=http%3A%2F%2F127.0.0.1%3A5%2Fcb&scope=openid+offline_access&state=ST&code_challenge=CH&code_challenge_method=S256"
    );
    assert_eq!(try_build_authorize_url("http://h/sso", "r", "c", "s").is_some(), true);
}

#[test]
fn invalid_issuer_gives_no_authorize_url() {
    assert!(try_build_authorize_url("not a url", "r", "c", "s").is_none());
}

#[test]
fn authorize_params_are_in_order() {
    let p = authorize_params("R", "C", "S");
    let names: Vec<&str> = p.iter().map(|(k, _)| k.as_str()).collect();
    assert_eq!(
        names,
        vec!["response_type", "client_id", "redirect_uri", "scope", "state", "code_challenge", "code_challenge_method"]
    );
    assert_eq!(p[2].1, "R");
    assert_eq!(p[4].1, "S");
    assert_eq!(p[5].1, "C");
}

#[test]
fn parse_callback_extracts_code_state() {
    let c = parse_callback("http://127.0.0.1:5/cb?code=abc&state=st").unwrap();
    assert_eq!(c.code, "abc");
    assert_eq!(c.state, "st");
}

#[test]
fn parse_callback_errors_without_code() {
    assert!(parse_callback("http://127.0.0.1:5/cb?state=st").is_err());
}

#[test]
fn parse_callback_missing_code_is_oidc_error() {
    match parse_callback("http://127.0.0.1:5/cb?state=st") {
        Err(LeproError::Oidc(m)) => assert_eq!(m, "missing 'code' parameter in callback"),
        other => panic!("unexpected {:?}", other),
    }
}

#[test]
fn parse_callback_invalid_url_is_parse_error() {
    assert!(matches!(parse_callback("no scheme here"), Err(LeproError::Parse(_))));
}

#[test]
fn parse_callback_decodes_and_defaults_state() {
    let c = parse_callback("http://127.0.0.1:5/cb?code=a%20b+c").unwrap();
    assert_eq!(c.code, "a b c");
    assert_eq!(c.state, "");
    let c = parse_callback("http://127.0.0.1:5/cb?code=1&code=2&state=x&state=y").unwrap();
    assert_eq!(c.code, "2");
    assert_eq!(c.state, "y");
}

#[test]
fn callback_from_pairs_takes_last_values() {
    let pairs = vec![
        ("code".to_string(), "first".to_string()),
        ("other".to_string(), "z".to_string()),
        ("code".to_string(), "second".to_string()),
    ];
    let c = callback_from_pairs(&pairs).unwrap();
    assert_eq!(c.code, "second");
    assert_eq!(c.state, "");
    assert!(callback_from_pairs(&vec![]).is_err());
}

#[test]
fn token_requests() {
    assert_eq!(token_endpoint("http://h/sso"), "http://h/sso/token");
    let f = authorization_code_form("C", "R", "V");
    assert_eq!(
        f,
        vec![
            ("grant_type".to_string(), "authorization_code".to_string()),
            ("code".to_string(), "C".to_string()),
            ("redirect_uri".to_string(), "R".to_string()),
            ("client_id".to_string(), "lepro-connect".to_string()),
            ("code_verifier".to_string(), "V".to_string()),
        ]
    );
    let f = refresh_form("RT");
    assert_eq!(
        f,
        vec![
            ("grant_type".to_string(), "refresh_token".to_string()),
            ("refresh_token".to_string(), "RT".to_string()),
            ("client_id".to_string(), "lepro-connect".to_string()),
        ]
    );
    assert_eq!(token_status_error("401 Unauthorized"), LeproError::Oidc("token 401 Unauthorized".to_string()));
}
