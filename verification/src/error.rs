//! Error kinds surfaced by the dispatch core.

use vstd::prelude::*;

verus! {

/// A failure raised while translating a command line into an operation
/// request, before any external operation runs.
#[derive(Debug, Clone, PartialEq, Eq)]
pub enum CliError {
    /// The token does not conform to the version scheme at all.
    VersionParse,
    /// The token parses, but carries more release segments than major.minor.
    VersionGranularity { token: String },
    /// A required flag combination is missing, e.g. install without a shell.
    Configuration { message: String },
    /// A recognized but unsupported shell family was requested.
    Unimplemented { message: String },
    /// A filesystem or environment lookup failed, e.g. no home directory.
    Io { message: String },
}

/// The mathematical value of a [`CliError`]: the same variants over
/// character sequences.
#[verifier::ext_equal]
pub ghost enum ErrorModel {
    VersionParse,
    VersionGranularity { token: Seq<char> },
    Configuration { message: Seq<char> },
    Unimplemented { message: Seq<char> },
    Io { message: Seq<char> },
}

impl CliError {
    /// The abstract value of this error.
    pub open spec fn abs(&self) -> ErrorModel {
        match self {
            CliError::VersionParse => ErrorModel::VersionParse,
            CliError::VersionGranularity { token } => ErrorModel::VersionGranularity {
                token: token@,
            },
            CliError::Configuration { message } => ErrorModel::Configuration { message: message@ },
            CliError::Unimplemented { message } => ErrorModel::Unimplemented { message: message@ },
            CliError::Io { message } => ErrorModel::Io { message: message@ },
        }
    }

    /// Human-readable description of the failure.
    pub fn message(&self) -> (r: String)
        ensures
            r@ == self.message_spec(),
    {
        match self {
            CliError::VersionParse => String::from_str("failed to parse version"),
            CliError::VersionGranularity { token } => token.clone().concat(
                " is invalid, use major.minor",
            ),
            CliError::Configuration { message } => message.clone(),
            CliError::Unimplemented { message } => message.clone(),
            CliError::Io { message } => message.clone(),
        }
    }

    /// What `message` returns, per variant.
    pub open spec fn message_spec(&self) -> Seq<char> {
        match self {
            CliError::VersionParse => "failed to parse version"@,
            CliError::VersionGranularity { token } => token@ + " is invalid, use major.minor"@,
            CliError::Configuration { message } => message@,
            CliError::Unimplemented { message } => message@,
            CliError::Io { message } => message@,
        }
    }
}

} // verus!
