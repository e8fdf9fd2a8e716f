//! The broker's error taxonomy.  Every operation returns one of these
//! to its immediate caller; nothing is retried and nothing is
//! swallowed, except that unbinding an unknown principal is reported
//! as a success (the caller may log a warning).

use vstd::prelude::*;

verus! {

/// An error returned by a broker operation.
#[derive(Debug, Clone)]
pub enum ProviderError {
    /// A request (or lookup) named a principal with no bound client.
    UnknownPrincipal,
    /// A malformed or unbuildable client configuration at bind time.
    ConfigError(String),
    /// A lifecycle operation attempted by a caller other than the
    /// trusted system identity.
    Unauthorized,
    /// An operation name the broker does not recognize.
    UnsupportedOperation,
    /// A network-level failure while executing a request, with a
    /// human-readable cause.
    TransportError(String),
}

impl ProviderError {
    /// A short human-readable description of the error.
    pub fn message(&self) -> (r: String)
        ensures
            match self {
                ProviderError::ConfigError(m) => r@ == m@,
                ProviderError::TransportError(m) => r@ == m@,
                _ => true,
            },
    {
        match self {
            ProviderError::UnknownPrincipal => String::from_str("unknown principal"),
            ProviderError::ConfigError(m) => m.clone(),
            ProviderError::Unauthorized => String::from_str("operation requires the system identity"),
            ProviderError::UnsupportedOperation => String::from_str("unknown operation"),
            ProviderError::TransportError(m) => m.clone(),
        }
    }
}

} // verus!
