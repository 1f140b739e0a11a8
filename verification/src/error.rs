//! Error type shared by every module of the crate.

use vstd::prelude::*;

verus! {

/// The error type for Lepro operations.
#[derive(Debug, Clone, PartialEq, Eq)]
pub enum LeproError {
    /// HTTP-related errors.
    Http(String),
    /// Parsing errors.
    Parse(String),
    /// OIDC-related errors.
    Oidc(String),
    /// I/O errors.
    Io(String),
}

impl LeproError {
    /// The message carried by the error.
    pub open spec fn message(self) -> Seq<char> {
        match self {
            LeproError::Http(m) => m@,
            LeproError::Parse(m) => m@,
            LeproError::Oidc(m) => m@,
            LeproError::Io(m) => m@,
        }
    }

    /// The prefix that the human-readable form puts before the message.
    pub open spec fn kind_prefix(self) -> Seq<char> {
        match self {
            LeproError::Http(_) => "http: "@,
            LeproError::Parse(_) => "parse: "@,
            LeproError::Oidc(_) => "oidc: "@,
            LeproError::Io(_) => "io: "@,
        }
    }

    /// Human-readable form: `http: {0}`, `parse: {0}`, `oidc: {0}` or `io: {0}`.
    pub fn to_string(&self) -> (res: String)
        ensures
            res@ == self.kind_prefix() + self.message(),
    {
        let (prefix, msg) = match self {
            LeproError::Http(m) => ("http: ", m),
            LeproError::Parse(m) => ("parse: ", m),
            LeproError::Oidc(m) => ("oidc: ", m),
            LeproError::Io(m) => ("io: ", m),
        };
        let mut out = String::from_str(prefix);
        out.append(msg.as_str());
        out
    }
}

} // verus!
