//! Sync decisions: whether credentials changed, and the provider settings
//! that each application receives from them.

use vstd::prelude::*;

use crate::claude_settings::{self, is_claude_settings};
use crate::codex_settings::{self, is_codex_settings, DEFAULT_CODEX_MODEL};
use crate::credentials::Credentials;
use crate::error::LeproError;
use crate::gemini_settings::{self, is_gemini_settings, DEFAULT_GEMINI_MODEL};
use crate::json::JsonValue;

verus! {

/// Identifier of the provider entry that the connector maintains.
pub const LEPRO_PROVIDER_ID: &'static str = "lepro";

/// Display name of the provider entry that the connector maintains.
pub const LEPRO_PROVIDER_NAME: &'static str = "Lepro";

/// Whether credentials need updating: on the first sync (`old` is `None`) or
/// when any field differs (base URL, token, group, models or mapping).
pub fn needs_update(old: Option<&Credentials>, new: &Credentials) -> (res: bool)
    ensures
        res == match old {
            None => true,
            Some(o) => o@ != new@,
        },
{
    match old {
        None => true,
        Some(o) => !o.same_as(new),
    }
}

/// Anthropic CLI provider settings for these credentials, merged into `existing`.
pub fn to_provider_settings(creds: &Credentials, existing: Option<JsonValue>) -> (res: JsonValue)
    ensures
        is_claude_settings(res, existing, creds@.base_url, creds@.token, creds@.model_mapping),
{
    claude_settings::build(existing, creds.base_url.as_str(), creds.token.as_str(), &creds.model_mapping)
}

/// Codex provider settings for these credentials, with the default Codex model.
pub fn to_codex_provider_settings(creds: &Credentials) -> (res: JsonValue)
    ensures
        is_codex_settings(res, creds@.base_url, creds@.token, DEFAULT_CODEX_MODEL@),
{
    codex_settings::build(creds.base_url.as_str(), creds.token.as_str(), DEFAULT_CODEX_MODEL)
}

/// Gemini provider settings for these credentials, with the default Gemini model.
pub fn to_gemini_provider_settings(creds: &Credentials) -> (res: JsonValue)
    ensures
        is_gemini_settings(res, creds@.base_url, creds@.token, DEFAULT_GEMINI_MODEL@),
{
    gemini_settings::build(creds.base_url.as_str(), creds.token.as_str(), DEFAULT_GEMINI_MODEL)
}

/// The applications that receive a Lepro provider.
#[derive(Debug, Clone, Copy, PartialEq, Eq, Structural)]
pub enum AppType {
    Claude,
    ClaudeDesktop,
    Codex,
    Gemini,
}

/// One provider entry to create or update.
#[derive(Debug)]
pub struct ProviderWrite {
    pub app: AppType,
    pub settings: JsonValue,
}

/// The Lepro provider entries for all four applications, in the order in
/// which they are written: the Anthropic CLI and desktop app share the same
/// settings (built fresh, with no existing document), then Codex, then
/// Gemini. Nothing is switched: the caller creates or updates each entry.
pub fn write_lepro_provider(creds: &Credentials) -> (res: Vec<ProviderWrite>)
    ensures
        res.len() == 4,
        res[0].app == AppType::Claude,
        is_claude_settings(res[0].settings, None, creds@.base_url, creds@.token, creds@.model_mapping),
        res[1].app == AppType::ClaudeDesktop,
        is_claude_settings(res[1].settings, None, creds@.base_url, creds@.token, creds@.model_mapping),
        res[2].app == AppType::Codex,
        is_codex_settings(res[2].settings, creds@.base_url, creds@.token, DEFAULT_CODEX_MODEL@),
        res[3].app == AppType::Gemini,
        is_gemini_settings(res[3].settings, creds@.base_url, creds@.token, DEFAULT_GEMINI_MODEL@),
{
    let mut writes: Vec<ProviderWrite> = Vec::new();
    writes.push(ProviderWrite { app: AppType::Claude, settings: to_provider_settings(creds, None) });
    writes.push(
        ProviderWrite { app: AppType::ClaudeDesktop, settings: to_provider_settings(creds, None) },
    );
    writes.push(ProviderWrite { app: AppType::Codex, settings: to_codex_provider_settings(creds) });
    writes.push(ProviderWrite { app: AppType::Gemini, settings: to_gemini_provider_settings(creds) });
    writes
}

/// Where an upsert of a provider entry stands.
#[derive(Debug, Clone, Copy, PartialEq, Eq, Structural)]
pub enum UpsertStage {
    /// The entry is being added.
    Adding,
    /// Adding failed; the existing entry is being updated.
    Updating,
}

/// What to do after one step of an upsert.
#[derive(Debug, PartialEq)]
pub enum UpsertDecision {
    /// Try to update the existing entry.
    TryUpdate,
    /// The upsert is over, with this outcome.
    Finished(Result<(), LeproError>),
}

/// Decides the next step of an upsert from the outcome of the last one:
/// a failed add falls back to an update; a failed update is an I/O error
/// carrying the update's message; a success ends the upsert.
pub fn upsert_next(stage: UpsertStage, outcome: Result<(), String>) -> (res: UpsertDecision)
    ensures
        match (stage, outcome) {
            (UpsertStage::Adding, Ok(())) => res == UpsertDecision::Finished(Ok(())),
            (UpsertStage::Adding, Err(_)) => res == UpsertDecision::TryUpdate,
            (UpsertStage::Updating, Ok(())) => res == UpsertDecision::Finished(Ok(())),
            (UpsertStage::Updating, Err(m)) => res == UpsertDecision::Finished(
                Err(LeproError::Io(m)),
            ),
        },
{
    match (stage, outcome) {
        (UpsertStage::Adding, Ok(())) => UpsertDecision::Finished(Ok(())),
        (UpsertStage::Adding, Err(_)) => UpsertDecision::TryUpdate,
        (UpsertStage::Updating, Ok(())) => UpsertDecision::Finished(Ok(())),
        (UpsertStage::Updating, Err(m)) => UpsertDecision::Finished(Err(LeproError::Io(m))),
    }
}

/// What a provider sync does next.
#[derive(Debug, PartialEq)]
pub enum SyncStep {
    /// Create or update the provider entry with this index in the list of writes.
    Write(usize),
    /// The sync is over, with this outcome.
    Done(Result<(), LeproError>),
}

/// The next step of a provider sync, once `completed` of the `total` writes
/// have been attempted and the last one had the outcome `last` (`Ok` before
/// the first write): a failure ends the sync with that failure, so no later
/// entry is written; otherwise the writes proceed in order until all are done.
pub open spec fn provider_sync_next(completed: usize, total: usize, last: Result<(), LeproError>) -> SyncStep {
    match last {
        Err(e) => SyncStep::Done(Err(e)),
        Ok(()) => if completed < total {
            SyncStep::Write(completed)
        } else {
            SyncStep::Done(Ok(()))
        },
    }
}

/// Decides the next step of a provider sync (see [`provider_sync_next`]).
pub fn next_provider_write(completed: usize, total: usize, last: Result<(), LeproError>) -> (res: SyncStep)
    requires
        completed <= total,
    ensures
        res == provider_sync_next(completed, total, last),
{
    match last {
        Err(e) => SyncStep::Done(Err(e)),
        Ok(()) => if completed < total {
            SyncStep::Write(completed)
        } else {
            SyncStep::Done(Ok(()))
        },
    }
}

/// A failed write ends the sync with its error: nothing after it is written.
/// Writes happen in order: the next write is always the one after those
/// already attempted.
pub proof fn lemma_sync_stops_at_first_failure(completed: usize, total: usize, last: Result<(), LeproError>)
    requires
        completed <= total,
    ensures
        last is Err ==> provider_sync_next(completed, total, last) == SyncStep::Done(last),
        provider_sync_next(completed, total, last) matches SyncStep::Write(i) ==> i == completed
            && last is Ok && completed < total,
        provider_sync_next(completed, total, last) == SyncStep::Done(Ok::<(), LeproError>(()))
            ==> completed == total,
{
}

/// The Anthropic CLI settings depend on the base URL, token and mapping of
/// the credentials only: credentials that agree on these give settings of
/// the same description, whatever their group and models.
pub proof fn lemma_provider_settings_ignore_group_and_models(
    a: Credentials,
    b: Credentials,
    existing: Option<JsonValue>,
    res: JsonValue,
)
    requires
        a@.base_url == b@.base_url,
        a@.token == b@.token,
        a@.model_mapping == b@.model_mapping,
        is_claude_settings(res, existing, a@.base_url, a@.token, a@.model_mapping),
    ensures
        is_claude_settings(res, existing, b@.base_url, b@.token, b@.model_mapping),
{
}

/// Sync result shown to the user.
#[derive(Debug, Clone, PartialEq)]
pub struct SyncOutcome {
    pub base_url: String,
    pub group: String,
    pub models: Vec<String>,
}

impl SyncOutcome {
    /// The part of the credentials that a sync reports.
    pub fn from_credentials(creds: Credentials) -> (res: SyncOutcome)
        ensures
            res.base_url == creds.base_url,
            res.group == creds.group,
            res.models == creds.models,
    {
        SyncOutcome { base_url: creds.base_url, group: creds.group, models: creds.models }
    }
}

} // verus!
