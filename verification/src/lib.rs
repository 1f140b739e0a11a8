//! Portable core logic of the Lepro desktop connector: PKCE, OIDC request
//! building and callback parsing, credential comparison, provider settings
//! documents for the Anthropic CLI, Codex and Gemini, loopback callback decisions
//! and token bookkeeping.

pub mod auth;
pub mod claude_settings;
pub mod codex_settings;
pub mod credentials;
pub mod error;
pub mod gemini_settings;
pub mod http;
pub mod json;
pub mod loopback;
pub mod oidc;
pub mod pkce;
pub mod sync;
pub mod text;

pub use error::LeproError;
