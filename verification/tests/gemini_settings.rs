use lepro_core::gemini_settings::{build, gemini_base_url};

#[test]
fn build_sets_env() {
    let v = build("http://h:18050/v1", "sk-gem", "gpt-5.5");
    let env = v.get("env").unwrap();
    assert_eq!(env.get("GOOGLE_GEMINI_BASE_URL").unwrap().as_str(), Some("http://h:18050"));
    assert_eq!(env.get("GEMINI_API_KEY").unwrap().as_str(), Some("sk-gem"));
    assert_eq!(env.get("GEMINI_MODEL").unwrap().as_str(), Some("gpt-5.5"));
}

#[test]
fn base_url_without_v1_kept() {
    let v = build("http://h:18050", "t", "m");
    assert_eq!(v.get("env").unwrap().get("GOOGLE_GEMINI_BASE_URL").unwrap().as_str(), Some("http://h:18050"));
}

#[test]
fn gemini_base_url_trims_slashes() {
    assert_eq!(gemini_base_url("http://h/v1///"), "http://h");
    assert_eq!(gemini_base_url("http://h/v10"), "http://h/v10");
}
