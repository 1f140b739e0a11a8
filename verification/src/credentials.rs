//! Credentials handed out by the distribution API: the gateway key, the
//! models and the tier-to-model mapping, with the requests that fetch them.

use vstd::prelude::*;

use crate::error::LeproError;
use crate::text::opt_text;

verus! {

/// Tier → upstream-model mapping supplied by the portal.
///
/// The Anthropic CLI exposes fixed tiers (Opus/Sonnet/Haiku/Fable) and a default
/// model. The portal maps each tier to a real gateway model. Every field is
/// optional: the portal may omit any of them.
#[derive(Debug, Clone, Default, PartialEq)]
pub struct ModelMapping {
    pub default: Option<String>,
    pub opus: Option<String>,
    pub sonnet: Option<String>,
    pub haiku: Option<String>,
    pub fable: Option<String>,
}

/// Gateway credentials returned from the distribution API.
///
/// `models` and `group` are for display. `base_url`, `token` and
/// `model_mapping` are consumed when writing the local configuration.
#[derive(Debug, Clone, PartialEq)]
pub struct Credentials {
    pub base_url: String,
    pub token: String,
    pub group: String,
    pub models: Vec<String>,
    pub model_mapping: ModelMapping,
}

/// Abstract value of a [`ModelMapping`].
pub struct ModelMappingView {
    pub default: Option<Seq<char>>,
    pub opus: Option<Seq<char>>,
    pub sonnet: Option<Seq<char>>,
    pub haiku: Option<Seq<char>>,
    pub fable: Option<Seq<char>>,
}

impl View for ModelMapping {
    type V = ModelMappingView;

    open spec fn view(&self) -> ModelMappingView {
        ModelMappingView {
            default: opt_text(self.default),
            opus: opt_text(self.opus),
            sonnet: opt_text(self.sonnet),
            haiku: opt_text(self.haiku),
            fable: opt_text(self.fable),
        }
    }
}

/// Abstract value of [`Credentials`].
pub struct CredentialsView {
    pub base_url: Seq<char>,
    pub token: Seq<char>,
    pub group: Seq<char>,
    pub models: Seq<Seq<char>>,
    pub model_mapping: ModelMappingView,
}

impl View for Credentials {
    type V = CredentialsView;

    open spec fn view(&self) -> CredentialsView {
        CredentialsView {
            base_url: self.base_url@,
            token: self.token@,
            group: self.group@,
            models: self.models@.map_values(|m: String| m@),
            model_mapping: self.model_mapping@,
        }
    }
}

fn same_opt_text(a: &Option<String>, b: &Option<String>) -> (res: bool)
    ensures
        res == (opt_text(*a) == opt_text(*b)),
{
    match (a, b) {
        (Some(x), Some(y)) => *x == *y,
        (None, None) => true,
        _ => false,
    }
}

impl ModelMapping {
    /// Whether two mappings hold the same models for every tier.
    pub fn same_as(&self, other: &ModelMapping) -> (res: bool)
        ensures
            res == (self@ == other@),
    {
        same_opt_text(&self.default, &other.default) && same_opt_text(&self.opus, &other.opus)
            && same_opt_text(&self.sonnet, &other.sonnet) && same_opt_text(
            &self.haiku,
            &other.haiku,
        ) && same_opt_text(&self.fable, &other.fable)
    }
}

fn same_strings(a: &Vec<String>, b: &Vec<String>) -> (res: bool)
    ensures
        res == (a@.map_values(|m: String| m@) == b@.map_values(|m: String| m@)),
{
    let ghost va = a@.map_values(|m: String| m@);
    let ghost vb = b@.map_values(|m: String| m@);
    if a.len() != b.len() {
        assert(va.len() != vb.len());
        return false;
    }
    let n = a.len();
    let mut i: usize = 0;
    while i < n
        invariant
            n == a@.len(),
            n == b@.len(),
            i <= n,
            va == a@.map_values(|m: String| m@),
            vb == b@.map_values(|m: String| m@),
            forall|j: int| 0 <= j < i ==> va[j] == vb[j],
        decreases n - i,
    {
        if a[i] != b[i] {
            assert(va[i as int] != vb[i as int]);
            return false;
        }
        i = i + 1;
    }
    assert(va =~= vb);
    true
}

impl Credentials {
    /// Whether two credential sets agree in every field.
    pub fn same_as(&self, other: &Credentials) -> (res: bool)
        ensures
            res == (self@ == other@),
    {
        let r = self.base_url == other.base_url && self.token == other.token && self.group
            == other.group && same_strings(&self.models, &other.models)
            && self.model_mapping.same_as(&other.model_mapping);
        proof {
            if self@ == other@ {
                assert(self@.model_mapping == other@.model_mapping);
            }
        }
        r
    }
}

/// The credentials endpoint of the portal: `{portal_base}/api/me/llm-credentials`.
pub fn credentials_url(portal_base: &str) -> (res: String)
    ensures
        res@ == portal_base@ + "/api/me/llm-credentials"@,
{
    let mut s = String::from_str(portal_base);
    s.append("/api/me/llm-credentials");
    s
}

/// The error for a credentials endpoint that answered with a non-2xx status;
/// `status` is the status as displayed (code and reason).
pub fn credentials_status_error(status: &str) -> (res: LeproError)
    ensures
        res matches LeproError::Oidc(m) && m@ == "credentials endpoint returned "@ + status@,
{
    let mut m = String::from_str("credentials endpoint returned ");
    m.append(status);
    LeproError::Oidc(m)
}

} // verus!
