use vstd::prelude::*;
use vstd::string::StringExecFns;

use crate::text::dec_digits;

verus! {

/// Typed error taxonomy shared by every tool endpoint.
#[derive(Debug)]
pub enum Error {
    /// Authentication against the remote service failed.
    Auth(String),
    /// The remote data provider returned an error.
    TelegramApi(String),
    /// Admission was denied; carries the wait hint in whole seconds.
    RateLimit { retry_after_seconds: u64 },
    /// The process configuration is unusable.
    Config(String),
    /// A transport-level failure.
    Network(String),
    /// A protocol-level failure on the tool-call boundary.
    Mcp(String),
    /// A malformed or out-of-range request field.
    InvalidInput(String),
}

impl Error {
    /// The human-readable rendering of an error, one fixed prefix per
    /// variant.
    pub open spec fn message_spec(&self) -> Seq<char> {
        match self {
            Error::Auth(m) => "authentication failed: "@ + m@,
            Error::TelegramApi(m) => "telegram API error: "@ + m@,
            Error::RateLimit { retry_after_seconds } => "rate limit exceeded, retry after "@
                + dec_digits(*retry_after_seconds as int) + " seconds"@,
            Error::Config(m) => "configuration error: "@ + m@,
            Error::Network(m) => "network error: "@ + m@,
            Error::Mcp(m) => "MCP protocol error: "@ + m@,
            Error::InvalidInput(m) => "invalid input: "@ + m@,
        }
    }

    /// Renders the error for logs and the tool-call boundary.
    pub fn message(&self) -> (r: String)
        ensures
            r@ == self.message_spec(),
    {
        match self {
            Error::Auth(m) => {
                let mut s = String::from_str("authentication failed: ");
                s.append(m.as_str());
                s
            },
            Error::TelegramApi(m) => {
                let mut s = String::from_str("telegram API error: ");
                s.append(m.as_str());
                s
            },
            Error::RateLimit { retry_after_seconds } => {
                let mut s = String::from_str("rate limit exceeded, retry after ");
                let d = crate::text::u64_to_string(*retry_after_seconds);
                s.append(d.as_str());
                s.append(" seconds");
                s
            },
            Error::Config(m) => {
                let mut s = String::from_str("configuration error: ");
                s.append(m.as_str());
                s
            },
            Error::Network(m) => {
                let mut s = String::from_str("network error: ");
                s.append(m.as_str());
                s
            },
            Error::Mcp(m) => {
                let mut s = String::from_str("MCP protocol error: ");
                s.append(m.as_str());
                s
            },
            Error::InvalidInput(m) => {
                let mut s = String::from_str("invalid input: ");
                s.append(m.as_str());
                s
            },
        }
    }

    /// True exactly for the rate-limit denial variant.
    pub fn is_rate_limit(&self) -> (r: bool)
        ensures
            r == (self matches Error::RateLimit { .. }),
    {
        match self {
            Error::RateLimit { .. } => true,
            _ => false,
        }
    }
}

} // verus!
