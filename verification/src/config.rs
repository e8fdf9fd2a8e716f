//! Client configuration: a timeout and an optional redirect cap,
//! parsed from string key/value pairs.  A malformed numeric value
//! fails the whole parse; nothing falls back to a default.

use vstd::prelude::*;
use crate::errors::ProviderError;
use crate::kv::{kv_map, kv_get};
use crate::text::{is_dec_string, dec_value, parse_u64};

verus! {

/// The timeout used when the configuration does not name one.
pub const DEFAULT_TIMEOUT_SECS: u64 = 30;

/// The configuration a principal's client is built from: a request
/// timeout in seconds and, optionally, a cap on followed redirects.
/// `None` for the cap means the underlying client library's default
/// redirect policy.
#[derive(Debug, Clone, Copy, PartialEq, Eq, Structural)]
pub struct ClientConfig {
    pub timeout_secs: u64,
    pub max_redirects: Option<u64>,
}

/// A configuration value that denotes a number a `u64` can hold.
pub open spec fn valid_count(s: Seq<char>) -> bool {
    is_dec_string(s) && dec_value(s) <= u64::MAX
}

/// The configuration denoted by a mapping of configuration values:
/// `None` when a present `timeout` or `max_redirects` value is
/// malformed, otherwise the parsed values with their defaults.
pub open spec fn config_of(m: Map<Seq<char>, Seq<char>>) -> Option<ClientConfig> {
    if m.contains_key("timeout"@) && !valid_count(m["timeout"@]) {
        None
    } else if m.contains_key("max_redirects"@) && !valid_count(m["max_redirects"@]) {
        None
    } else {
        Some(
            ClientConfig {
                timeout_secs: if m.contains_key("timeout"@) {
                    dec_value(m["timeout"@]) as u64
                } else {
                    DEFAULT_TIMEOUT_SECS
                },
                max_redirects: if m.contains_key("max_redirects"@) {
                    Some(dec_value(m["max_redirects"@]) as u64)
                } else {
                    None
                },
            },
        )
    }
}

/// Parse a configuration from key/value pairs.  Succeeds exactly when
/// the mapping denotes a configuration, and then returns that
/// configuration.
pub fn parse_config(values: &Vec<(String, String)>) -> (r: Result<ClientConfig, ProviderError>)
    ensures
        match r {
            Ok(c) => config_of(kv_map(values@)) == Some(c),
            Err(e) => config_of(kv_map(values@)) is None && e matches ProviderError::ConfigError(_),
        },
{
    let timeout_secs: u64 = match kv_get(values, "timeout") {
        Some(v) => match parse_u64(v.as_str()) {
            Some(n) => n,
            None => {
                return Err(
                    ProviderError::ConfigError(String::from_str("malformed timeout value")),
                );
            },
        },
        None => DEFAULT_TIMEOUT_SECS,
    };
    let max_redirects: Option<u64> = match kv_get(values, "max_redirects") {
        Some(v) => match parse_u64(v.as_str()) {
            Some(n) => Some(n),
            None => {
                return Err(
                    ProviderError::ConfigError(String::from_str("malformed max_redirects value")),
                );
            },
        },
        None => None,
    };
    Ok(ClientConfig { timeout_secs, max_redirects })
}

} // verus!
