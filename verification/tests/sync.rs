use lepro_core::credentials::{Credentials, ModelMapping};
use lepro_core::json::{JsonObject, JsonValue};
use lepro_core::sync::{
    needs_update, to_codex_provider_settings, to_gemini_provider_settings, to_provider_settings,
    next_provider_write, upsert_next, write_lepro_provider, AppType, SyncOutcome, SyncStep,
    UpsertDecision, UpsertStage,
};
use lepro_core::LeproError;

fn text<'a>(v: &'a JsonValue, path: &[&str]) -> Option<&'a str> {
    let mut cur = v;
    for key in path {
        cur = cur.get(key)?;
    }
    cur.as_str()
}

#[test]
fn needs_update_true_on_token_change() {
    let a = Credentials {
        base_url: "b".into(),
        token: "t1".into(),
        group: "default".into(),
        models: vec![],
        model_mapping: ModelMapping::default(),
    };
    let b = Credentials { token: "t2".into(), ..a.clone() };
    assert!(needs_update(Some(&a), &b));
    assert!(!needs_update(Some(&a), &a.clone()));
    assert!(needs_update(None, &a));
}

#[test]
fn needs_update_sees_models_group_and_mapping() {
    let a = Credentials {
        base_url: "b".into(),
        token: "t".into(),
        group: "g".into(),
        models: vec!["m1".into()],
        model_mapping: ModelMapping::default(),
    };
    assert!(needs_update(Some(&a), &Credentials { models: vec!["m1".into(), "m2".into()], ..a.clone() }));
    assert!(needs_update(Some(&a), &Credentials { models: vec!["m2".into()], ..a.clone() }));
    assert!(needs_update(Some(&a), &Credentials { group: "h".into(), ..a.clone() }));
    let mapped = ModelMapping { opus: Some("o".into()), ..ModelMapping::default() };
    assert!(needs_update(Some(&a), &Credentials { model_mapping: mapped, ..a.clone() }));
    assert!(!a.same_as(&Credentials { base_url: "c".into(), ..a.clone() }));
}

#[test]
fn to_provider_settings_sets_env_keys() {
    let creds = Credentials {
        base_url: "http://localhost:18050".into(),
        token: "sk-test-123".into(),
        group: "default".into(),
        models: vec!["qwen-max".into()],
        model_mapping: ModelMapping::default(),
    };
    let mut env = JsonObject::new();
    env.insert("FOO".to_string(), JsonValue::Str("bar".to_string()));
    let mut top = JsonObject::new();
    top.insert("env".to_string(), JsonValue::Object(env));
    top.insert("theme".to_string(), JsonValue::Str("dark".to_string()));
    let result = to_provider_settings(&creds, Some(JsonValue::Object(top)));
    assert_eq!(text(&result, &["env", "ANTHROPIC_BASE_URL"]), Some("http://localhost:18050"));
    assert_eq!(text(&result, &["env", "ANTHROPIC_AUTH_TOKEN"]), Some("sk-test-123"));
    assert_eq!(text(&result, &["env", "FOO"]), Some("bar"));
    assert_eq!(text(&result, &["theme"]), Some("dark"));
    assert!(result.get("env").unwrap().get("ANTHROPIC_DEFAULT_SONNET_MODEL").is_none());
}

#[test]
fn to_provider_settings_writes_model_mapping() {
    let creds = Credentials {
        base_url: "http://h:18050/v1".into(),
        token: "sk-x".into(),
        group: "default".into(),
        models: vec![],
        model_mapping: ModelMapping {
            default: Some("Qwen3.6".into()),
            opus: Some("gpt-5.5".into()),
            sonnet: Some("gpt-5.4".into()),
            haiku: Some("Qwen3.6".into()),
            fable: None,
        },
    };
    let r = to_provider_settings(&creds, None);
    assert_eq!(text(&r, &["env", "ANTHROPIC_BASE_URL"]), Some("http://h:18050"));
    assert_eq!(text(&r, &["env", "ANTHROPIC_MODEL"]), Some("Qwen3.6"));
    assert_eq!(text(&r, &["env", "ANTHROPIC_DEFAULT_OPUS_MODEL"]), Some("gpt-5.5"));
    assert_eq!(text(&r, &["env", "ANTHROPIC_DEFAULT_SONNET_MODEL"]), Some("gpt-5.4"));
    assert_eq!(text(&r, &["env", "ANTHROPIC_DEFAULT_HAIKU_MODEL"]), Some("Qwen3.6"));
    assert_eq!(text(&r, &["env", "ANTHROPIC_SMALL_FAST_MODEL"]), Some("Qwen3.6"));
    assert!(r.get("env").unwrap().get("ANTHROPIC_DEFAULT_FABLE_MODEL").is_none());
}

#[test]
fn to_provider_settings_with_none_creates_fresh() {
    let creds = Credentials {
        base_url: "http://h".into(),
        token: "sk-x".into(),
        group: "default".into(),
        models: vec![],
        model_mapping: ModelMapping::default(),
    };
    let result = to_provider_settings(&creds, None);
    assert_eq!(text(&result, &["env", "ANTHROPIC_BASE_URL"]), Some("http://h"));
    assert_eq!(text(&result, &["env", "ANTHROPIC_AUTH_TOKEN"]), Some("sk-x"));
}

#[test]
fn write_lepro_provider_covers_all_apps() {
    let creds = Credentials {
        base_url: "http://h:18050/v1".into(),
        token: "sk-all".into(),
        group: "g".into(),
        models: vec![],
        model_mapping: ModelMapping::default(),
    };
    let w = write_lepro_provider(&creds);
    let apps: Vec<AppType> = w.iter().map(|x| x.app).collect();
    assert_eq!(apps, vec![AppType::Claude, AppType::ClaudeDesktop, AppType::Codex, AppType::Gemini]);
    assert_eq!(text(&w[0].settings, &["env", "ANTHROPIC_BASE_URL"]), Some("http://h:18050"));
    assert_eq!(text(&w[1].settings, &["env", "ANTHROPIC_AUTH_TOKEN"]), Some("sk-all"));
    assert_eq!(text(&w[2].settings, &["auth", "OPENAI_API_KEY"]), Some("sk-all"));
    assert!(text(&w[2].settings, &["config"]).unwrap().contains("base_url = \"http://h:18050/v1\""));
    assert_eq!(text(&w[3].settings, &["env", "GEMINI_MODEL"]), Some("gpt-5.5"));
    let c = to_codex_provider_settings(&creds);
    assert!(text(&c, &["config"]).unwrap().contains("model = \"gpt-5.5\""));
    let g = to_gemini_provider_settings(&creds);
    assert_eq!(text(&g, &["env", "GOOGLE_GEMINI_BASE_URL"]), Some("http://h:18050"));
}

#[test]
fn upsert_falls_back_to_update() {
    assert_eq!(upsert_next(UpsertStage::Adding, Ok(())), UpsertDecision::Finished(Ok(())));
    assert_eq!(upsert_next(UpsertStage::Adding, Err("exists".into())), UpsertDecision::TryUpdate);
    assert_eq!(upsert_next(UpsertStage::Updating, Ok(())), UpsertDecision::Finished(Ok(())));
    assert_eq!(
        upsert_next(UpsertStage::Updating, Err("disk full".into())),
        UpsertDecision::Finished(Err(LeproError::Io("disk full".into())))
    );
}

#[test]
fn sync_outcome_reports_credentials() {
    let creds = Credentials {
        base_url: "b".into(),
        token: "t".into(),
        group: "g".into(),
        models: vec!["m".into()],
        model_mapping: ModelMapping::default(),
    };
    let o = SyncOutcome::from_credentials(creds);
    assert_eq!(o, SyncOutcome { base_url: "b".into(), group: "g".into(), models: vec!["m".into()] });
}

#[test]
fn provider_sync_stops_at_first_failure() {
    assert_eq!(next_provider_write(0, 4, Ok(())), SyncStep::Write(0));
    assert_eq!(next_provider_write(2, 4, Ok(())), SyncStep::Write(2));
    assert_eq!(
        next_provider_write(2, 4, Err(LeproError::Io("x".into()))),
        SyncStep::Done(Err(LeproError::Io("x".into())))
    );
    assert_eq!(next_provider_write(4, 4, Ok(())), SyncStep::Done(Ok(())));
    assert_eq!(next_provider_write(0, 0, Ok(())), SyncStep::Done(Ok(())));
}
