//! Gemini provider settings: `{ "env": { GOOGLE_GEMINI_BASE_URL, GEMINI_API_KEY, GEMINI_MODEL } }`.
//!
//! gemini-cli appends `/v1beta/models/<model>:generateContent` itself, so the
//! base URL loses its trailing `/v1`.

use vstd::prelude::*;

use crate::json::{JsonObject, JsonValue};
use crate::text::{base_without_v1, strip_base_v1};

verus! {

/// Default Gemini model.
pub const DEFAULT_GEMINI_MODEL: &'static str = "gpt-5.5";

/// `res` is the Gemini settings document for these values.
pub open spec fn is_gemini_settings(res: JsonValue, base_url: Seq<char>, token: Seq<char>, model: Seq<char>) -> bool {
    let top = res.members();
    let env = top["env"@].members();
    &&& res is Object
    &&& top.dom() == set!["env"@]
    &&& top["env"@] is Object
    &&& env.dom() == set!["GOOGLE_GEMINI_BASE_URL"@, "GEMINI_API_KEY"@, "GEMINI_MODEL"@]
    &&& env["GOOGLE_GEMINI_BASE_URL"@].is_str_of(base_without_v1(base_url))
    &&& env["GEMINI_API_KEY"@].is_str_of(token)
    &&& env["GEMINI_MODEL"@].is_str_of(model)
}

/// Removes trailing slashes and one trailing `/v1`.
pub fn gemini_base_url(base_url: &str) -> (res: String)
    ensures
        res@ == base_without_v1(base_url@),
{
    strip_base_v1(base_url)
}

/// Builds the Gemini provider settings (`{ env: {...} }`).
pub fn build(base_url: &str, token: &str, model: &str) -> (res: JsonValue)
    ensures
        is_gemini_settings(res, base_url@, token@, model@),
{
    let b = gemini_base_url(base_url);
    let t = String::from_str(token);
    let m = String::from_str(model);
    let ghost (bv, tv, mv) = (b, t, m);
    let mut env = JsonObject::new();
    env.insert(String::from_str("GOOGLE_GEMINI_BASE_URL"), JsonValue::Str(b));
    env.insert(String::from_str("GEMINI_API_KEY"), JsonValue::Str(t));
    env.insert(String::from_str("GEMINI_MODEL"), JsonValue::Str(m));
    let ghost env_v = env;
    let mut top = JsonObject::new();
    top.insert(String::from_str("env"), JsonValue::Object(env));
    let res = JsonValue::Object(top);
    proof {
        reveal_strlit("GOOGLE_GEMINI_BASE_URL");
        reveal_strlit("GEMINI_API_KEY");
        reveal_strlit("GEMINI_MODEL");
        let k1 = "GOOGLE_GEMINI_BASE_URL"@;
        let k2 = "GEMINI_API_KEY"@;
        let k3 = "GEMINI_MODEL"@;
        assert(k1.len() == 22 && k2.len() == 14 && k3.len() == 12);
        assert(res.members()["env"@] == JsonValue::Object(env_v));
        assert(env_v@ == Map::<Seq<char>, JsonValue>::empty().insert(k1, JsonValue::Str(bv)).insert(
            k2,
            JsonValue::Str(tv),
        ).insert(k3, JsonValue::Str(mv)));
        assert(res.members().dom() =~= set!["env"@]);
        assert(env_v@.dom() =~= set![k1, k2, k3]);
    }
    res
}

} // verus!
