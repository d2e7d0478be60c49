//! Configuration values for the pieces the library verifies.
//!
//! Token quantities are measured in millitokens (one thousandth of a token),
//! so fractional refill rates are exact integers: a refill rate of two tokens
//! per second is stored as `2000` millitokens per second.

use vstd::prelude::*;
use vstd::string::StringExecFns;

verus! {

/// Search window and result-count settings.
#[derive(Debug, Clone)]
pub struct SearchConfig {
    pub default_hours_back: u32,
    pub max_results_default: u32,
    pub max_results_limit: u32,
}

/// Admission-control settings: the bucket capacity in whole tokens and the
/// refill rate in millitokens per second.
#[derive(Debug, Clone)]
pub struct RateLimitConfig {
    pub max_tokens: u32,
    pub refill_rate_millitokens: u64,
}

/// Log level and format names.
#[derive(Debug, Clone)]
pub struct LoggingConfig {
    pub level: String,
    pub format: String,
}

/// Default search window: two days.
pub fn default_hours_back() -> (r: u32)
    ensures
        r == 48,
{
    48
}

/// Default number of search results.
pub fn default_max_results_default() -> (r: u32)
    ensures
        r == 20,
{
    20
}

/// Ceiling on the number of search results.
pub fn default_max_results_limit() -> (r: u32)
    ensures
        r == 100,
{
    100
}

/// Default bucket capacity in whole tokens.
pub fn default_max_tokens() -> (r: u32)
    ensures
        r == 50,
{
    50
}

/// Default refill rate: two tokens per second.
pub fn default_refill_rate_millitokens() -> (r: u64)
    ensures
        r == 2000,
{
    2000
}

/// Default log level.
pub fn default_log_level() -> (r: String)
    ensures
        r@ == "info"@,
{
    String::from_str("info")
}

/// Default log format.
pub fn default_log_format() -> (r: String)
    ensures
        r@ == "compact"@,
{
    String::from_str("compact")
}

/// The search settings used when the configuration names none.
pub fn default_search_config() -> (c: SearchConfig)
    ensures
        c.default_hours_back == 48,
        c.max_results_default == 20,
        c.max_results_limit == 100,
{
    SearchConfig {
        default_hours_back: default_hours_back(),
        max_results_default: default_max_results_default(),
        max_results_limit: default_max_results_limit(),
    }
}

/// The admission-control settings used when the configuration names none.
pub fn default_rate_limit_config() -> (c: RateLimitConfig)
    ensures
        c.max_tokens == 50,
        c.refill_rate_millitokens == 2000,
{
    RateLimitConfig {
        max_tokens: default_max_tokens(),
        refill_rate_millitokens: default_refill_rate_millitokens(),
    }
}

/// The logging settings used when the configuration names none.
pub fn default_logging_config() -> (c: LoggingConfig)
    ensures
        c.level@ == "info"@,
        c.format@ == "compact"@,
{
    LoggingConfig { level: default_log_level(), format: default_log_format() }
}

} // verus!
