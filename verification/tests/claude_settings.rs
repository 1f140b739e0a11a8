use lepro_core::claude_settings::{build, normalize_anthropic_base_url};
use lepro_core::credentials::ModelMapping;
use lepro_core::json::{JsonObject, JsonValue};

fn nomap() -> ModelMapping {
    ModelMapping::default()
}

fn s(v: &str) -> JsonValue {
    JsonValue::Str(v.to_string())
}

fn text<'a>(v: &'a JsonValue, path: &[&str]) -> Option<&'a str> {
    let mut cur = v;
    for key in path {
        cur = cur.get(key)?;
    }
    cur.as_str()
}

fn existing_env_foo_theme() -> JsonValue {
    let mut env = JsonObject::new();
    env.insert("FOO".to_string(), s("bar"));
    let mut top = JsonObject::new();
    top.insert("env".to_string(), JsonValue::Object(env));
    top.insert("theme".to_string(), s("dark"));
    JsonValue::Object(top)
}

#[test]
fn build_sets_env_and_preserves_other_keys() {
    let existing = existing_env_foo_theme();
    let out = build(Some(existing), "http://h:18050", "sk-1", &nomap());
    assert_eq!(text(&out, &["env", "ANTHROPIC_BASE_URL"]), Some("http://h:18050"));
    assert_eq!(text(&out, &["env", "ANTHROPIC_AUTH_TOKEN"]), Some("sk-1"));
    assert_eq!(text(&out, &["env", "FOO"]), Some("bar"));
    assert_eq!(text(&out, &["theme"]), Some("dark"));
}

#[test]
fn build_from_none_creates_env() {
    let out = build(None, "http://h", "sk-2", &nomap());
    assert_eq!(text(&out, &["env", "ANTHROPIC_AUTH_TOKEN"]), Some("sk-2"));
}

#[test]
fn strips_trailing_v1_from_base_url() {
    let out = build(None, "http://192.168.33.13:18050/v1", "sk-3", &nomap());
    assert_eq!(text(&out, &["env", "ANTHROPIC_BASE_URL"]), Some("http://192.168.33.13:18050"));
}

#[test]
fn strips_trailing_v1_with_slash() {
    let out = build(None, "http://h:18050/v1/", "sk-4", &nomap());
    assert_eq!(text(&out, &["env", "ANTHROPIC_BASE_URL"]), Some("http://h:18050"));
}

#[test]
fn keeps_base_url_without_v1() {
    let out = build(None, "http://h:18050", "sk-5", &nomap());
    assert_eq!(text(&out, &["env", "ANTHROPIC_BASE_URL"]), Some("http://h:18050"));
}

#[test]
fn does_not_strip_non_v1_suffix() {
    let out = build(None, "http://h:18050/v1beta", "sk-6", &nomap());
    assert_eq!(text(&out, &["env", "ANTHROPIC_BASE_URL"]), Some("http://h:18050/v1beta"));
}

#[test]
fn writes_mapping_env_and_keeps_absent() {
    let m = ModelMapping {
        default: Some("Qwen3.6".into()),
        opus: Some("gpt-5.5".into()),
        sonnet: Some("gpt-5.4".into()),
        haiku: Some("Qwen3.6".into()),
        fable: None,
    };
    let out = build(None, "http://h:18050/v1", "sk-7", &m);
    assert_eq!(text(&out, &["env", "ANTHROPIC_MODEL"]), Some("Qwen3.6"));
    assert_eq!(text(&out, &["env", "ANTHROPIC_DEFAULT_OPUS_MODEL"]), Some("gpt-5.5"));
    assert_eq!(text(&out, &["env", "ANTHROPIC_DEFAULT_SONNET_MODEL"]), Some("gpt-5.4"));
    assert_eq!(text(&out, &["env", "ANTHROPIC_DEFAULT_HAIKU_MODEL"]), Some("Qwen3.6"));
    assert_eq!(text(&out, &["env", "ANTHROPIC_SMALL_FAST_MODEL"]), Some("Qwen3.6"));
    assert!(out.get("env").unwrap().get("ANTHROPIC_DEFAULT_FABLE_MODEL").is_none());
}

#[test]
fn small_fast_falls_back_to_default_without_haiku() {
    let m = ModelMapping { default: Some("D".into()), ..ModelMapping::default() };
    let out = build(None, "http://h", "t", &m);
    assert_eq!(text(&out, &["env", "ANTHROPIC_SMALL_FAST_MODEL"]), Some("D"));
    assert!(out.get("env").unwrap().get("ANTHROPIC_DEFAULT_HAIKU_MODEL").is_none());
}

#[test]
fn empty_haiku_writes_no_small_fast_model() {
    let m = ModelMapping { default: Some("D".into()), haiku: Some(String::new()), ..ModelMapping::default() };
    let out = build(None, "http://h", "t", &m);
    assert!(out.get("env").unwrap().get("ANTHROPIC_SMALL_FAST_MODEL").is_none());
    assert!(out.get("env").unwrap().get("ANTHROPIC_DEFAULT_HAIKU_MODEL").is_none());
    assert_eq!(text(&out, &["env", "ANTHROPIC_MODEL"]), Some("D"));
}

#[test]
fn absent_tier_keeps_previous_value() {
    let mut env = JsonObject::new();
    env.insert("ANTHROPIC_DEFAULT_OPUS_MODEL".to_string(), s("old-opus"));
    env.insert("ANTHROPIC_AUTH_TOKEN".to_string(), s("old-token"));
    let mut top = JsonObject::new();
    top.insert("env".to_string(), JsonValue::Object(env));
    let out = build(Some(JsonValue::Object(top)), "http://h", "new-token", &nomap());
    assert_eq!(text(&out, &["env", "ANTHROPIC_DEFAULT_OPUS_MODEL"]), Some("old-opus"));
    assert_eq!(text(&out, &["env", "ANTHROPIC_AUTH_TOKEN"]), Some("new-token"));
}

#[test]
fn non_object_existing_and_env_start_fresh() {
    let out = build(Some(s("not an object")), "http://h", "t", &nomap());
    assert_eq!(text(&out, &["env", "ANTHROPIC_AUTH_TOKEN"]), Some("t"));
    let mut top = JsonObject::new();
    top.insert("env".to_string(), JsonValue::Number("3".to_string()));
    top.insert("keep".to_string(), JsonValue::Bool(true));
    let out = build(Some(JsonValue::Object(top)), "http://h", "t", &nomap());
    assert!(out.get("env").unwrap().is_object());
    assert_eq!(text(&out, &["env", "ANTHROPIC_BASE_URL"]), Some("http://h"));
    assert!(matches!(out.get("keep"), Some(JsonValue::Bool(true))));
}

#[test]
fn merging_twice_gives_the_same_settings() {
    let first = build(Some(existing_env_foo_theme()), "http://h/v1", "tok", &nomap());
    let second = build(Some(build(Some(existing_env_foo_theme()), "http://h/v1", "tok", &nomap())), "http://h/v1", "tok", &nomap());
    for key in ["ANTHROPIC_BASE_URL", "ANTHROPIC_AUTH_TOKEN", "FOO"] {
        assert_eq!(text(&first, &["env", key]), text(&second, &["env", key]));
    }
    assert_eq!(text(&second, &["theme"]), Some("dark"));
    match (&first, &second) {
        (JsonValue::Object(a), JsonValue::Object(b)) => assert_eq!(a.len(), b.len()),
        _ => panic!("settings must be objects"),
    }
}

#[test]
fn normalize_removes_only_one_v1() {
    assert_eq!(normalize_anthropic_base_url("http://h/v1/v1"), "http://h/v1");
    assert_eq!(normalize_anthropic_base_url("http://h///"), "http://h");
    assert_eq!(normalize_anthropic_base_url("/v1"), "");
}
