//! Rate-gated dispatch layer for a Telegram MCP connector.
//!
//! The crate verifies the concurrency-sensitive core of the connector: the
//! token-bucket admission control behind the shared rate limiter, the
//! validation and normalization each tool endpoint performs before spending
//! rate-limit credit, and the validated identifier value objects. Transport,
//! configuration loading and the remote Telegram client live outside the
//! verified library.

pub mod config;
pub mod error;
pub mod link;
pub mod logging;
pub mod mcp;
pub mod rate_limiter;
pub mod telegram;
pub mod text;

pub use error::Error;
