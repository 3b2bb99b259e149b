//! The error taxonomy. Every failure of an invocation is one of these; each
//! renders to the one human-readable line that reaches the diagnostic stream.
use vstd::prelude::*;

use crate::text::dec_of;
use vstd::string::*;

verus! {

/// A non-2xx response was obtained: its status and a human-readable message.
#[derive(Debug, PartialEq, Eq)]
pub struct ApiError {
    pub status: u16,
    pub message: String,
}

impl ApiError {
    /// The rendered error line: `API error (<status>): <message>`.
    pub open spec fn spec_text(self) -> Seq<char> {
        "API error ("@ + dec_of(self.status as int) + "): "@ + self.message@
    }

    pub fn text(&self) -> (r: String)
        ensures
            r@ == self.spec_text(),
    {
        let mut s: String = "API error (".to_owned();
        let dec = crate::text::u64_to_dec(self.status as u64);
        s.append(dec.as_str());
        s.append("): ");
        s.append(self.message.as_str());
        s
    }
}

/// The field of a fetched configuration that a merge found missing.
#[derive(Clone, Copy, Debug, PartialEq, Eq, Structural)]
pub enum ConfigField {
    RwSize,
    RsSize,
    FlockSize,
}

/// Everything that can end an invocation without a result. All variants are
/// terminal: nothing is retried.
#[derive(Debug, PartialEq, Eq)]
pub enum CliError {
    /// A `--token` value was supplied but trims to nothing.
    EmptyTokenValue,
    /// The token was to come from standard input, which trims to nothing.
    EmptyStdin,
    /// No credential source yielded a token.
    NoCredential,
    /// A configuration update was requested with no override at all.
    NoOverrides,
    /// The fetched current configuration lacks a field that no override covers.
    IncompleteConfig(ConfigField),
    /// A response was obtained, with a status outside the 2xx range.
    Api(ApiError),
    /// No response was obtained: connection, name resolution or timeout failure.
    Transport(String),
    /// The user declined the confirmation prompt.
    Aborted,
}

impl CliError {
    /// The one line this error prints on the diagnostic stream.
    pub open spec fn spec_message(self) -> Seq<char> {
        match self {
            CliError::EmptyTokenValue => "--token value must not be empty"@,
            CliError::EmptyStdin => "stdin was empty; expected a token"@,
            CliError::NoCredential =>
                "No MotherDuck token found. Set one of: motherduck_token, MOTHERDUCK_TOKEN, motherduck_api_key, MOTHERDUCK_API_KEY"@,
            CliError::NoOverrides =>
                "at least one of --rw-size, --rs-size, --flock-size must be supplied"@,
            CliError::IncompleteConfig(f) => match f {
                ConfigField::RwSize => "current config missing read_write.instance_size"@,
                ConfigField::RsSize => "current config missing read_scaling.instance_size"@,
                ConfigField::FlockSize => "current config missing read_scaling.flock_size"@,
            },
            CliError::Api(e) => e.spec_text(),
            CliError::Transport(m) => m@,
            CliError::Aborted => "aborted"@,
        }
    }

    pub fn message(&self) -> (r: String)
        ensures
            r@ == self.spec_message(),
    {
        match self {
            CliError::EmptyTokenValue => "--token value must not be empty".to_owned(),
            CliError::EmptyStdin => "stdin was empty; expected a token".to_owned(),
            CliError::NoCredential =>
                "No MotherDuck token found. Set one of: motherduck_token, MOTHERDUCK_TOKEN, motherduck_api_key, MOTHERDUCK_API_KEY".to_owned(),
            CliError::NoOverrides =>
                "at least one of --rw-size, --rs-size, --flock-size must be supplied".to_owned(),
            CliError::IncompleteConfig(f) => match f {
                ConfigField::RwSize =>
                    "current config missing read_write.instance_size".to_owned(),
                ConfigField::RsSize =>
                    "current config missing read_scaling.instance_size".to_owned(),
                ConfigField::FlockSize =>
                    "current config missing read_scaling.flock_size".to_owned(),
            },
            CliError::Api(e) => e.text(),
            CliError::Transport(m) => m.clone(),
            CliError::Aborted => "aborted".to_owned(),
        }
    }
}

} // verus!
