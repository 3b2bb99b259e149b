use vstd::prelude::*;

pub mod auth;
pub mod client;
pub mod confirm;
pub mod duckling;
pub mod encode;
pub mod errors;
pub mod jsonv;
pub mod render;
pub mod text;

verus! {

/// Capacity tier of a single managed compute instance, smallest to largest.
#[derive(Clone, Copy, Debug, PartialEq, Eq, Structural)]
pub enum InstanceSize {
    Pulse,
    Standard,
    Jumbo,
    Mega,
    Giga,
}

impl InstanceSize {
    /// The wire name of this size in API request bodies.
    pub open spec fn spec_api_str(self) -> Seq<char> {
        match self {
            InstanceSize::Pulse => "pulse"@,
            InstanceSize::Standard => "standard"@,
            InstanceSize::Jumbo => "jumbo"@,
            InstanceSize::Mega => "mega"@,
            InstanceSize::Giga => "giga"@,
        }
    }

    pub fn as_api_str(&self) -> (r: &'static str)
        ensures
            r@ == self.spec_api_str(),
    {
        match self {
            InstanceSize::Pulse => "pulse",
            InstanceSize::Standard => "standard",
            InstanceSize::Jumbo => "jumbo",
            InstanceSize::Mega => "mega",
            InstanceSize::Giga => "giga",
        }
    }
}

/// Which of a user's two instances a token is scoped to.
#[derive(Clone, Copy, Debug, PartialEq, Eq, Structural)]
pub enum TokenType {
    ReadWrite,
    ReadScaling,
}

impl TokenType {
    /// The wire name of this token type in API request bodies.
    pub open spec fn spec_api_str(self) -> Seq<char> {
        match self {
            TokenType::ReadWrite => "read_write"@,
            TokenType::ReadScaling => "read_scaling"@,
        }
    }

    pub fn as_api_str(&self) -> (r: &'static str)
        ensures
            r@ == self.spec_api_str(),
    {
        match self {
            TokenType::ReadWrite => "read_write",
            TokenType::ReadScaling => "read_scaling",
        }
    }
}

/// The two mutually exclusive output modes, selected once per invocation.
#[derive(Clone, Copy, Debug, PartialEq, Eq, Structural)]
pub enum OutputMode {
    Text,
    Json,
}

} // verus!
