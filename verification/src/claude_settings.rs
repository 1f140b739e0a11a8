//! Anthropic CLI `settings.json`: merges the gateway address, key and tier
//! mapping into an existing settings document without touching other keys.

use vstd::prelude::*;

use crate::credentials::{ModelMapping, ModelMappingView};
use crate::json::{JsonObject, JsonValue};
use crate::text::{base_without_v1, opt_text, strip_base_v1};

verus! {

/// A mapping value that is written: present and non-empty.
pub open spec fn provided(v: Option<Seq<char>>) -> Option<Seq<char>> {
    match v {
        Some(s) => if s.len() > 0 {
            Some(s)
        } else {
            None
        },
        None => None,
    }
}

/// The model behind the small/fast slot: the haiku tier when the portal gave
/// one, else the default model.
pub open spec fn small_fast_source(m: ModelMappingView) -> Option<Seq<char>> {
    if m.haiku is Some {
        m.haiku
    } else {
        m.default
    }
}

/// The string that the merge writes under `env.key`, or `None` when it leaves
/// that key as it was.
pub open spec fn claude_env_text(
    base_url: Seq<char>,
    token: Seq<char>,
    m: ModelMappingView,
    key: Seq<char>,
) -> Option<Seq<char>> {
    if key == "ANTHROPIC_BASE_URL"@ {
        Some(base_without_v1(base_url))
    } else if key == "ANTHROPIC_AUTH_TOKEN"@ {
        Some(token)
    } else if key == "ANTHROPIC_MODEL"@ {
        provided(m.default)
    } else if key == "ANTHROPIC_DEFAULT_OPUS_MODEL"@ {
        provided(m.opus)
    } else if key == "ANTHROPIC_DEFAULT_SONNET_MODEL"@ {
        provided(m.sonnet)
    } else if key == "ANTHROPIC_DEFAULT_HAIKU_MODEL"@ {
        provided(m.haiku)
    } else if key == "ANTHROPIC_DEFAULT_FABLE_MODEL"@ {
        provided(m.fable)
    } else if key == "ANTHROPIC_SMALL_FAST_MODEL"@ {
        provided(small_fast_source(m))
    } else {
        None
    }
}

/// Top-level members of the existing document (none when it is absent or not an object).
pub open spec fn existing_members(existing: Option<JsonValue>) -> Map<Seq<char>, JsonValue> {
    match existing {
        Some(v) => v.members(),
        None => Map::empty(),
    }
}

/// Members of the existing `env` object (none when it is absent or not an object).
pub open spec fn existing_env(existing: Option<JsonValue>) -> Map<Seq<char>, JsonValue> {
    let top = existing_members(existing);
    if top.dom().contains("env"@) {
        top["env"@].members()
    } else {
        Map::empty()
    }
}

/// `new` is `old` with `key` set to the string `text`, or `old` itself when
/// there is no text.
pub open spec fn set_to_text(
    old: Map<Seq<char>, JsonValue>,
    new: Map<Seq<char>, JsonValue>,
    key: Seq<char>,
    text: Option<Seq<char>>,
) -> bool {
    match text {
        Some(s) => {
            &&& new.dom() == old.dom().insert(key)
            &&& new[key].is_str_of(s)
            &&& forall|k: Seq<char>| k != key && old.dom().contains(k) ==> new[k] == old[k]
        },
        None => new == old,
    }
}

/// Member `key` of `env` is what the merge leaves there, given the previous `env`.
pub open spec fn env_member_ok(
    env: Map<Seq<char>, JsonValue>,
    old_env: Map<Seq<char>, JsonValue>,
    base_url: Seq<char>,
    token: Seq<char>,
    m: ModelMappingView,
    key: Seq<char>,
) -> bool {
    match claude_env_text(base_url, token, m, key) {
        Some(s) => env.dom().contains(key) && env[key].is_str_of(s),
        None => env.dom().contains(key) == old_env.dom().contains(key) && (old_env.dom().contains(
            key,
        ) ==> env[key] == old_env[key]),
    }
}

/// `res` is the merge of the gateway settings into `existing`.
pub open spec fn is_claude_settings(
    res: JsonValue,
    existing: Option<JsonValue>,
    base_url: Seq<char>,
    token: Seq<char>,
    m: ModelMappingView,
) -> bool {
    let top = existing_members(existing);
    let out = res.members();
    &&& res is Object
    &&& out.dom() == top.dom().insert("env"@)
    &&& forall|k: Seq<char>| k != "env"@ && top.dom().contains(k) ==> out[k] == top[k]
    &&& out["env"@] is Object
    &&& forall|k: Seq<char>|
        #[trigger] env_member_ok(out["env"@].members(), existing_env(existing), base_url, token, m, k)
}

/// The Anthropic base URL: trailing slashes and one trailing `/v1` removed.
///
/// The distribution API hands out an OpenAI-style base ending in `/v1`; the
/// Anthropic SDK appends `/v1/messages` itself.
pub fn normalize_anthropic_base_url(base_url: &str) -> (res: String)
    ensures
        res@ == base_without_v1(base_url@),
{
    strip_base_v1(base_url)
}

fn set_text(env: &mut JsonObject, key: &str, text: &str)
    ensures
        set_to_text(old(env)@, final(env)@, key@, Some(text@)),
{
    let v = String::from_str(text);
    let ghost vv = v;
    env.insert(String::from_str(key), JsonValue::Str(v));
    assert(final(env)@ == old(env)@.insert(key@, JsonValue::Str(vv)));
}

fn set_model(env: &mut JsonObject, key: &str, val: &Option<String>)
    ensures
        set_to_text(old(env)@, final(env)@, key@, provided(opt_text(*val))),
{
    if let Some(v) = val {
        if v.as_str().unicode_len() > 0 {
            set_text(env, key, v.as_str());
        }
    }
}

/// Builds a settings document by merging the base URL, token and tier mapping
/// into `existing`.
///
/// An `env` object exists in the result; `env.ANTHROPIC_BASE_URL` and
/// `env.ANTHROPIC_AUTH_TOKEN` are set; each tier of the mapping that is given
/// and non-empty is written, and a tier that is not given keeps its previous
/// value. Every other top-level key and every other `env` key is kept.
/// An absent or non-object `existing` counts as an empty object, and so does
/// an `env` that is not an object.
pub fn build(existing: Option<JsonValue>, base_url: &str, token: &str, mapping: &ModelMapping) -> (res:
    JsonValue)
    ensures
        is_claude_settings(res, existing, base_url@, token@, mapping@),
{
    let ghost top = existing_members(existing);
    let mut settings = match existing {
        Some(JsonValue::Object(obj)) => obj,
        _ => JsonObject::new(),
    };
    assert(settings@ == top);
    let ghost old_env = existing_env(existing);
    let mut env = match settings.remove("env") {
        Some(JsonValue::Object(e)) => e,
        _ => JsonObject::new(),
    };
    assert(env@ == old_env);
    let ghost e0 = env@;
    let base = normalize_anthropic_base_url(base_url);
    set_text(&mut env, "ANTHROPIC_BASE_URL", base.as_str());
    let ghost e1 = env@;
    set_text(&mut env, "ANTHROPIC_AUTH_TOKEN", token);
    let ghost e2 = env@;
    set_model(&mut env, "ANTHROPIC_MODEL", &mapping.default);
    let ghost e3 = env@;
    set_model(&mut env, "ANTHROPIC_DEFAULT_OPUS_MODEL", &mapping.opus);
    let ghost e4 = env@;
    set_model(&mut env, "ANTHROPIC_DEFAULT_SONNET_MODEL", &mapping.sonnet);
    let ghost e5 = env@;
    set_model(&mut env, "ANTHROPIC_DEFAULT_HAIKU_MODEL", &mapping.haiku);
    let ghost e6 = env@;
    set_model(&mut env, "ANTHROPIC_DEFAULT_FABLE_MODEL", &mapping.fable);
    let ghost e7 = env@;
    let fast = if mapping.haiku.is_some() {
        &mapping.haiku
    } else {
        &mapping.default
    };
    set_model(&mut env, "ANTHROPIC_SMALL_FAST_MODEL", fast);
    let ghost e8 = env@;
    proof {
        assert(small_fast_source(mapping@) == opt_text(*fast));
        assert forall|k: Seq<char>|
            #[trigger] env_member_ok(e8, old_env, base_url@, token@, mapping@, k) by {
            lemma_env_member(e0, e1, e2, e3, e4, e5, e6, e7, e8, base_url@, token@, mapping@, k);
        }
    }
    let ghost s0 = settings@;
    settings.insert(String::from_str("env"), JsonValue::Object(env));
    let res = JsonValue::Object(settings);
    proof {
        lemma_claude_keys_distinct();
        assert(s0 == top.remove("env"@));
        assert(res.members() == s0.insert("env"@, JsonValue::Object(env)));
        assert(res.members().dom() =~= top.dom().insert("env"@));
        assert(res.members()["env"@].members() == e8);
    }
    res
}

proof fn lemma_keep(
    old: Map<Seq<char>, JsonValue>,
    new: Map<Seq<char>, JsonValue>,
    key: Seq<char>,
    text: Option<Seq<char>>,
    k: Seq<char>,
)
    requires
        set_to_text(old, new, key, text),
        k != key || text is None,
    ensures
        new.dom().contains(k) == old.dom().contains(k),
        old.dom().contains(k) ==> new[k] == old[k],
{
}

proof fn lemma_hit(
    old: Map<Seq<char>, JsonValue>,
    new: Map<Seq<char>, JsonValue>,
    key: Seq<char>,
    s: Seq<char>,
)
    requires
        set_to_text(old, new, key, Some(s)),
    ensures
        new.dom().contains(key),
        new[key].is_str_of(s),
{
}

/// The keys that the merge writes are distinct texts (their lengths, and the
/// characters that tell apart the ones of equal length).
pub proof fn lemma_claude_keys_distinct()
    ensures
        "ANTHROPIC_BASE_URL"@ != "ANTHROPIC_AUTH_TOKEN"@,
        "ANTHROPIC_DEFAULT_HAIKU_MODEL"@ != "ANTHROPIC_DEFAULT_FABLE_MODEL"@,
        "ANTHROPIC_DEFAULT_HAIKU_MODEL"@ != "ANTHROPIC_DEFAULT_OPUS_MODEL"@,
        "ANTHROPIC_DEFAULT_FABLE_MODEL"@ != "ANTHROPIC_DEFAULT_OPUS_MODEL"@,
        "ANTHROPIC_DEFAULT_SONNET_MODEL"@.len() == 30,
        "ANTHROPIC_DEFAULT_HAIKU_MODEL"@.len() == 29,
        "ANTHROPIC_DEFAULT_FABLE_MODEL"@.len() == 29,
        "ANTHROPIC_DEFAULT_OPUS_MODEL"@.len() == 28,
        "ANTHROPIC_SMALL_FAST_MODEL"@.len() == 26,
        "ANTHROPIC_MODEL"@.len() == 15,
        "ANTHROPIC_BASE_URL"@.len() == 18,
        "ANTHROPIC_AUTH_TOKEN"@.len() == 20,
        "env"@.len() == 3,
{
    reveal_strlit("ANTHROPIC_BASE_URL");
    reveal_strlit("ANTHROPIC_AUTH_TOKEN");
    reveal_strlit("ANTHROPIC_MODEL");
    reveal_strlit("ANTHROPIC_DEFAULT_OPUS_MODEL");
    reveal_strlit("ANTHROPIC_DEFAULT_SONNET_MODEL");
    reveal_strlit("ANTHROPIC_DEFAULT_HAIKU_MODEL");
    reveal_strlit("ANTHROPIC_DEFAULT_FABLE_MODEL");
    reveal_strlit("ANTHROPIC_SMALL_FAST_MODEL");
    reveal_strlit("env");
    assert("ANTHROPIC_BASE_URL"@[10] != "ANTHROPIC_AUTH_TOKEN"@[10]);
    assert("ANTHROPIC_DEFAULT_HAIKU_MODEL"@[18] != "ANTHROPIC_DEFAULT_FABLE_MODEL"@[18]);
    assert("ANTHROPIC_DEFAULT_HAIKU_MODEL"@[18] != "ANTHROPIC_DEFAULT_OPUS_MODEL"@[18]);
    assert("ANTHROPIC_DEFAULT_FABLE_MODEL"@[18] != "ANTHROPIC_DEFAULT_OPUS_MODEL"@[18]);
}

proof fn lemma_env_member(
    e0: Map<Seq<char>, JsonValue>,
    e1: Map<Seq<char>, JsonValue>,
    e2: Map<Seq<char>, JsonValue>,
    e3: Map<Seq<char>, JsonValue>,
    e4: Map<Seq<char>, JsonValue>,
    e5: Map<Seq<char>, JsonValue>,
    e6: Map<Seq<char>, JsonValue>,
    e7: Map<Seq<char>, JsonValue>,
    e8: Map<Seq<char>, JsonValue>,
    base_url: Seq<char>,
    token: Seq<char>,
    m: ModelMappingView,
    k: Seq<char>,
)
    requires
        set_to_text(e0, e1, "ANTHROPIC_BASE_URL"@, Some(base_without_v1(base_url))),
        set_to_text(e1, e2, "ANTHROPIC_AUTH_TOKEN"@, Some(token)),
        set_to_text(e2, e3, "ANTHROPIC_MODEL"@, provided(m.default)),
        set_to_text(e3, e4, "ANTHROPIC_DEFAULT_OPUS_MODEL"@, provided(m.opus)),
        set_to_text(e4, e5, "ANTHROPIC_DEFAULT_SONNET_MODEL"@, provided(m.sonnet)),
        set_to_text(e5, e6, "ANTHROPIC_DEFAULT_HAIKU_MODEL"@, provided(m.haiku)),
        set_to_text(e6, e7, "ANTHROPIC_DEFAULT_FABLE_MODEL"@, provided(m.fable)),
        set_to_text(e7, e8, "ANTHROPIC_SMALL_FAST_MODEL"@, provided(small_fast_source(m))),
    ensures
        env_member_ok(e8, e0, base_url, token, m, k),
{
    lemma_claude_keys_distinct();
    let k1 = "ANTHROPIC_BASE_URL"@;
    let k2 = "ANTHROPIC_AUTH_TOKEN"@;
    let k3 = "ANTHROPIC_MODEL"@;
    let k4 = "ANTHROPIC_DEFAULT_OPUS_MODEL"@;
    let k5 = "ANTHROPIC_DEFAULT_SONNET_MODEL"@;
    let k6 = "ANTHROPIC_DEFAULT_HAIKU_MODEL"@;
    let k7 = "ANTHROPIC_DEFAULT_FABLE_MODEL"@;
    let k8 = "ANTHROPIC_SMALL_FAST_MODEL"@;
    let t1 = Some(base_without_v1(base_url));
    let t2 = Some(token);
    let t3 = provided(m.default);
    let t4 = provided(m.opus);
    let t5 = provided(m.sonnet);
    let t6 = provided(m.haiku);
    let t7 = provided(m.fable);
    let t8 = provided(small_fast_source(m));
    if k == k1 {
        lemma_hit(e0, e1, k1, base_without_v1(base_url));
    } else {
        lemma_keep(e0, e1, k1, t1, k);
    }
    if k == k2 {
        lemma_hit(e1, e2, k2, token);
    } else {
        lemma_keep(e1, e2, k2, t2, k);
    }
    if k == k3 && t3 is Some {
        lemma_hit(e2, e3, k3, t3->0);
    } else {
        lemma_keep(e2, e3, k3, t3, k);
    }
    if k == k4 && t4 is Some {
        lemma_hit(e3, e4, k4, t4->0);
    } else {
        lemma_keep(e3, e4, k4, t4, k);
    }
    if k == k5 && t5 is Some {
        lemma_hit(e4, e5, k5, t5->0);
    } else {
        lemma_keep(e4, e5, k5, t5, k);
    }
    if k == k6 && t6 is Some {
        lemma_hit(e5, e6, k6, t6->0);
    } else {
        lemma_keep(e5, e6, k6, t6, k);
    }
    if k == k7 && t7 is Some {
        lemma_hit(e6, e7, k7, t7->0);
    } else {
        lemma_keep(e6, e7, k7, t7, k);
    }
    if k == k8 && t8 is Some {
        lemma_hit(e7, e8, k8, t8->0);
    } else {
        lemma_keep(e7, e8, k8, t8, k);
    }
}

/// Each tier key names its own tier of the mapping: `ANTHROPIC_MODEL` the
/// default model, and the opus, sonnet, haiku and fable keys their tiers. A
/// given, non-empty tier is written as that text; any other leaves the previous
/// member. The base URL key holds the base without its `/v1`, and the token key
/// the token.
pub proof fn lemma_tier_keys_hold_their_tiers(
    res: JsonValue,
    existing: Option<JsonValue>,
    base_url: Seq<char>,
    token: Seq<char>,
    m: ModelMappingView,
)
    requires
        is_claude_settings(res, existing, base_url, token, m),
    ensures
        ({
            let env = res.members()["env"@].members();
            let old_env = existing_env(existing);
            &&& env.dom().contains("ANTHROPIC_BASE_URL"@)
            &&& env["ANTHROPIC_BASE_URL"@].is_str_of(base_without_v1(base_url))
            &&& env.dom().contains("ANTHROPIC_AUTH_TOKEN"@)
            &&& env["ANTHROPIC_AUTH_TOKEN"@].is_str_of(token)
            &&& tier_written(env, old_env, "ANTHROPIC_MODEL"@, m.default)
            &&& tier_written(env, old_env, "ANTHROPIC_DEFAULT_OPUS_MODEL"@, m.opus)
            &&& tier_written(env, old_env, "ANTHROPIC_DEFAULT_SONNET_MODEL"@, m.sonnet)
            &&& tier_written(env, old_env, "ANTHROPIC_DEFAULT_HAIKU_MODEL"@, m.haiku)
            &&& tier_written(env, old_env, "ANTHROPIC_DEFAULT_FABLE_MODEL"@, m.fable)
        }),
{
    lemma_claude_keys_distinct();
    let env = res.members()["env"@].members();
    let old_env = existing_env(existing);
    assert(env_member_ok(env, old_env, base_url, token, m, "ANTHROPIC_BASE_URL"@));
    assert(env_member_ok(env, old_env, base_url, token, m, "ANTHROPIC_AUTH_TOKEN"@));
    assert(env_member_ok(env, old_env, base_url, token, m, "ANTHROPIC_MODEL"@));
    assert(env_member_ok(env, old_env, base_url, token, m, "ANTHROPIC_DEFAULT_OPUS_MODEL"@));
    assert(env_member_ok(env, old_env, base_url, token, m, "ANTHROPIC_DEFAULT_SONNET_MODEL"@));
    assert(env_member_ok(env, old_env, base_url, token, m, "ANTHROPIC_DEFAULT_HAIKU_MODEL"@));
    assert(env_member_ok(env, old_env, base_url, token, m, "ANTHROPIC_DEFAULT_FABLE_MODEL"@));
}

/// Member `key` of `env` is the tier `tier` when that is given and non-empty,
/// and otherwise what `old_env` held there (or absent, as there).
pub open spec fn tier_written(
    env: Map<Seq<char>, JsonValue>,
    old_env: Map<Seq<char>, JsonValue>,
    key: Seq<char>,
    tier: Option<Seq<char>>,
) -> bool {
    if tier is Some && tier->0.len() > 0 {
        env.dom().contains(key) && env[key].is_str_of(tier->0)
    } else {
        env.dom().contains(key) == old_env.dom().contains(key) && (old_env.dom().contains(key)
            ==> env[key] == old_env[key])
    }
}

/// The small/fast slot follows the haiku tier when the mapping gives one and
/// the default model otherwise; the opus, sonnet and fable tiers never reach
/// it. A given, non-empty model is written as that text; a given but empty
/// one, or none at all, leaves the previous `env` member as it was.
pub proof fn lemma_small_fast_follows_haiku_then_default(
    res: JsonValue,
    existing: Option<JsonValue>,
    base_url: Seq<char>,
    token: Seq<char>,
    m: ModelMappingView,
)
    requires
        is_claude_settings(res, existing, base_url, token, m),
    ensures
        ({
            let env = res.members()["env"@].members();
            let key = "ANTHROPIC_SMALL_FAST_MODEL"@;
            let old_env = existing_env(existing);
            &&& (m.haiku is Some && m.haiku->0.len() > 0) ==> (env.dom().contains(key)
                && env[key].is_str_of(m.haiku->0))
            &&& (m.haiku is None && m.default is Some && m.default->0.len() > 0) ==> (
            env.dom().contains(key) && env[key].is_str_of(m.default->0))
            &&& ((m.haiku is Some && m.haiku->0.len() == 0) || (m.haiku is None && (m.default is None
                || m.default->0.len() == 0))) ==> (env.dom().contains(key) == old_env.dom().contains(
                key) && (old_env.dom().contains(key) ==> env[key] == old_env[key]))
        }),
{
    lemma_claude_keys_distinct();
    let key = "ANTHROPIC_SMALL_FAST_MODEL"@;
    assert(env_member_ok(res.members()["env"@].members(), existing_env(existing), base_url, token, m, key));
}

/// Two merges into the same document with the same base URL and token, under
/// mappings that agree on the haiku tier and the default model, write the same
/// small/fast slot, whatever their opus, sonnet and fable tiers are.
pub proof fn lemma_small_fast_ignores_other_tiers(
    res1: JsonValue,
    res2: JsonValue,
    existing: Option<JsonValue>,
    base_url: Seq<char>,
    token: Seq<char>,
    m1: ModelMappingView,
    m2: ModelMappingView,
)
    requires
        is_claude_settings(res1, existing, base_url, token, m1),
        is_claude_settings(res2, existing, base_url, token, m2),
        m1.haiku == m2.haiku,
        m1.default == m2.default,
    ensures
        ({
            let e1 = res1.members()["env"@].members();
            let e2 = res2.members()["env"@].members();
            let key = "ANTHROPIC_SMALL_FAST_MODEL"@;
            &&& e1.dom().contains(key) == e2.dom().contains(key)
            &&& e1.dom().contains(key) ==> same_json(e1[key], e2[key])
        }),
{
    lemma_small_fast_follows_haiku_then_default(res1, existing, base_url, token, m1);
    lemma_small_fast_follows_haiku_then_default(res2, existing, base_url, token, m2);
}

/// Equal values, or strings with the same text.
pub open spec fn same_json(a: JsonValue, b: JsonValue) -> bool {
    a == b || (a is Str && b is Str && a->Str_0@ == b->Str_0@)
}

/// Merging the same base URL, token and mapping into an already merged
/// document changes nothing: the same top-level members with the same
/// values, and the same `env` members with the same values (strings with
/// the same text).
pub proof fn lemma_claude_merge_idempotent(
    existing: Option<JsonValue>,
    first: JsonValue,
    second: JsonValue,
    base_url: Seq<char>,
    token: Seq<char>,
    m: ModelMappingView,
)
    requires
        is_claude_settings(first, existing, base_url, token, m),
        is_claude_settings(second, Some(first), base_url, token, m),
    ensures
        second.members().dom() == first.members().dom(),
        forall|k: Seq<char>|
            k != "env"@ && first.members().dom().contains(k) ==> second.members()[k]
                == first.members()[k],
        second.members()["env"@].members().dom() == first.members()["env"@].members().dom(),
        forall|k: Seq<char>|
            #[trigger] first.members()["env"@].members().dom().contains(k) ==> same_json(
                second.members()["env"@].members()[k],
                first.members()["env"@].members()[k],
            ),
{
    let e1 = first.members()["env"@].members();
    let e2 = second.members()["env"@].members();
    assert(existing_members(Some(first)) == first.members());
    assert(existing_env(Some(first)) == e1);
    assert(second.members().dom() =~= first.members().dom());
    assert forall|k: Seq<char>| e2.dom().contains(k) == e1.dom().contains(k) by {
        assert(env_member_ok(e2, e1, base_url, token, m, k));
        assert(env_member_ok(e1, existing_env(existing), base_url, token, m, k));
    }
    assert(e2.dom() =~= e1.dom());
    assert forall|k: Seq<char>| #[trigger] e1.dom().contains(k) implies same_json(e2[k], e1[k]) by {
        assert(env_member_ok(e2, e1, base_url, token, m, k));
        assert(env_member_ok(e1, existing_env(existing), base_url, token, m, k));
    }
}

} // verus!
