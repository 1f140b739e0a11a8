//! Codex provider settings: `{ "auth": { "OPENAI_API_KEY": .. }, "config": <config.toml text> }`.
//!
//! The base URL keeps exactly one trailing `/v1` (Codex appends `/responses`
//! and `/chat/completions`). The gateway routes by model name, so `model` is
//! only the default.

use vstd::prelude::*;

use crate::json::{JsonObject, JsonValue};
use crate::text::{
    base_without_v1, base_without_v1s, ends_with_v1, lemma_strip_v1_segments_done, push_char,
    strip_all_v1, strip_v1_segments, trim_trailing_slashes,
};

verus! {

/// Default Codex model.
pub const DEFAULT_CODEX_MODEL: &'static str = "gpt-5.5";

/// Codex base URL: trailing slashes removed, then every trailing `/v1`
/// segment removed, then exactly one `/v1` added.
pub open spec fn codex_base_url_text(base_url: Seq<char>) -> Seq<char> {
    base_without_v1s(base_url) + "/v1"@
}

/// A character as it stands inside a TOML basic string.
pub open spec fn toml_escape_char(c: char) -> Seq<char> {
    if c == '\\' {
        seq!['\\', '\\']
    } else if c == '"' {
        seq!['\\', '"']
    } else {
        seq![c]
    }
}

/// Backslashes doubled and quotes preceded by a backslash.
pub open spec fn toml_escape(s: Seq<char>) -> Seq<char>
    decreases s.len(),
{
    if s.len() == 0 {
        Seq::empty()
    } else {
        toml_escape(s.drop_last()) + toml_escape_char(s.last())
    }
}

/// A TOML basic string literal holding `s`.
pub open spec fn toml_string_text(s: Seq<char>) -> Seq<char> {
    seq!['"'] + toml_escape(s) + seq!['"']
}

/// The `config.toml` text of the Codex provider.
pub open spec fn codex_config_text(base_url: Seq<char>, model: Seq<char>) -> Seq<char> {
    "model_provider = \"custom\"\nmodel = "@ + toml_string_text(model)
        + "\nmodel_reasoning_effort = \"high\"\ndisable_response_storage = true\n\n[model_providers.custom]\nname = \"Lepro\"\nbase_url = "@
        + toml_string_text(codex_base_url_text(base_url))
        + "\nwire_api = \"responses\"\nrequires_openai_auth = true"@
}

/// `res` is the Codex settings document for these values.
pub open spec fn is_codex_settings(res: JsonValue, base_url: Seq<char>, token: Seq<char>, model: Seq<char>) -> bool {
    let top = res.members();
    &&& res is Object
    &&& top.dom() == set!["auth"@, "config"@]
    &&& top["auth"@] is Object
    &&& top["auth"@].members().dom() == set!["OPENAI_API_KEY"@]
    &&& top["auth"@].members()["OPENAI_API_KEY"@].is_str_of(token)
    &&& top["config"@].is_str_of(codex_config_text(base_url, model))
}

/// Normalizes the Codex base URL so that it ends in exactly one `/v1`.
pub fn codex_base_url(base_url: &str) -> (res: String)
    ensures
        res@ == codex_base_url_text(base_url@),
{
    let mut s = strip_all_v1(base_url);
    s.append("/v1");
    s
}

/// A minimal TOML string literal: quotes and backslashes escaped.
pub fn toml_string(value: &str) -> (res: String)
    ensures
        res@ == toml_string_text(value@),
{
    let n = value.unicode_len();
    let mut out = String::new();
    push_char(&mut out, '"');
    let mut i: usize = 0;
    assert(value@.subrange(0, 0) =~= Seq::<char>::empty());
    while i < n
        invariant
            n == value@.len(),
            i <= n,
            out@ == seq!['"'] + toml_escape(value@.subrange(0, i as int)),
        decreases n - i,
    {
        let c = value.get_char(i);
        assert(value@.subrange(0, i + 1).drop_last() =~= value@.subrange(0, i as int));
        if c == '\\' {
            push_char(&mut out, '\\');
            push_char(&mut out, '\\');
        } else if c == '"' {
            push_char(&mut out, '\\');
            push_char(&mut out, '"');
        } else {
            push_char(&mut out, c);
        }
        assert(out@ =~= seq!['"'] + toml_escape(value@.subrange(0, i + 1)));
        i = i + 1;
    }
    push_char(&mut out, '"');
    assert(value@.subrange(0, n as int) =~= value@);
    assert(out@ =~= toml_string_text(value@));
    out
}

/// Builds the Codex provider settings (`{ auth, config }`).
pub fn build(base_url: &str, token: &str, model: &str) -> (res: JsonValue)
    ensures
        is_codex_settings(res, base_url@, token@, model@),
{
    let base = codex_base_url(base_url);
    let mut config = String::from_str("model_provider = \"custom\"\nmodel = ");
    config.append(toml_string(model).as_str());
    config.append(
        "\nmodel_reasoning_effort = \"high\"\ndisable_response_storage = true\n\n[model_providers.custom]\nname = \"Lepro\"\nbase_url = ",
    );
    config.append(toml_string(base.as_str()).as_str());
    config.append("\nwire_api = \"responses\"\nrequires_openai_auth = true");
    let mut auth = JsonObject::new();
    let tok = String::from_str(token);
    let ghost tok_v = tok;
    auth.insert(String::from_str("OPENAI_API_KEY"), JsonValue::Str(tok));
    let ghost auth_v = auth;
    let ghost cfg_v = config;
    let mut top = JsonObject::new();
    top.insert(String::from_str("auth"), JsonValue::Object(auth));
    top.insert(String::from_str("config"), JsonValue::Str(config));
    let res = JsonValue::Object(top);
    proof {
        reveal_strlit("auth");
        reveal_strlit("config");
        assert("auth"@.len() == 4 && "config"@.len() == 6);
        assert(res.members()["auth"@] == JsonValue::Object(auth_v));
        assert(auth_v@ == Map::<Seq<char>, JsonValue>::empty().insert("OPENAI_API_KEY"@, JsonValue::Str(tok_v)));
        assert(res.members().dom() =~= set!["auth"@, "config"@]);
        assert(auth_v@.dom() =~= set!["OPENAI_API_KEY"@]);
        assert(res.members()["config"@] == JsonValue::Str(cfg_v));
        assert(cfg_v@ =~= codex_config_text(base_url@, model@));
    }
    res
}

/// The Codex base URL ends in exactly one `/v1`: it ends in `/v1`, what
/// precedes that `/v1` does not end in `/v1`, normalizing it again changes
/// nothing, and the base URL that the Anthropic CLI and Gemini would derive
/// from it is the input with its trailing slashes and `/v1` segments removed.
pub proof fn lemma_codex_base_url_exactly_one_v1(base_url: Seq<char>)
    ensures
        ends_with_v1(codex_base_url_text(base_url)),
        !ends_with_v1(base_without_v1s(base_url)),
        codex_base_url_text(base_url) == base_without_v1s(base_url) + "/v1"@,
        codex_base_url_text(codex_base_url_text(base_url)) == codex_base_url_text(base_url),
        base_without_v1(codex_base_url_text(base_url)) == base_without_v1s(base_url),
{
    reveal_strlit("/v1");
    let b = base_without_v1s(base_url);
    let c = codex_base_url_text(base_url);
    lemma_strip_v1_segments_done(trim_trailing_slashes(base_url));
    assert(c.len() == b.len() + 3);
    assert(c.last() == '1');
    assert(trim_trailing_slashes(c) == c);
    assert(c.subrange(0, c.len() - 3) =~= b);
    assert(base_without_v1(c) == b);
    assert(strip_v1_segments(c) == strip_v1_segments(b));
}

} // verus!
