//! A per-principal client handle: the engine client built from one
//! configuration, together with that configuration.  A handle is
//! immutable once built; reconfiguring a principal means building a
//! new handle and rebinding it.

use vstd::prelude::*;
use crate::config::ClientConfig;
use crate::errors::ProviderError;
use crate::http::{RequestDescriptor, ResponseDescriptor};
use crate::text::target_url;
use crate::transport::{
    add_header,
    build_client_default,
    build_client_limited,
    response_body,
    response_headers,
    response_status,
    send_request,
    set_body,
    start_request,
};

verus! {

/// An HTTP client handle: the engine client and the configuration it
/// was built from.
pub struct ClientHandle {
    client: reqwest::blocking::Client,
    config: ClientConfig,
}

impl ClientHandle {
    /// The configuration this handle was built from.
    pub closed spec fn spec_config(&self) -> ClientConfig {
        self.config
    }

    /// The configuration this handle was built from.
    pub fn config(&self) -> (c: ClientConfig)
        ensures
            c == self.spec_config(),
    {
        self.config
    }

    /// Build a handle from a configuration.  Building the engine
    /// client may itself fail; that surfaces as a configuration
    /// error.  On success the handle carries exactly the
    /// configuration it was built from.
    pub fn build(config: ClientConfig) -> (r: Result<ClientHandle, ProviderError>)
        ensures
            match r {
                Ok(h) => h.spec_config() == config,
                Err(e) => e matches ProviderError::ConfigError(_),
            },
    {
        let built = match config.max_redirects {
            Some(n) => build_client_limited(config.timeout_secs, n),
            None => build_client_default(config.timeout_secs),
        };
        match built {
            Ok(client) => Ok(ClientHandle { client, config }),
            Err(m) => Err(ProviderError::ConfigError(m)),
        }
    }

    /// Perform one request through this handle: assemble the target
    /// from path and query string, set method, headers and body
    /// verbatim, send, and translate the outcome.  The network
    /// decides between the response and a transport failure, so the
    /// contract pins only that every failure here is a transport
    /// error (the principal was already resolved by the caller).
    pub fn execute(&self, msg: &RequestDescriptor) -> (r: Result<ResponseDescriptor, ProviderError>)
        ensures
            r matches Err(e) ==> e matches ProviderError::TransportError(_),
    {
        let url = target_url(msg.path.as_str(), msg.query_string.as_str());
        let started = start_request(&self.client, msg.method.as_str(), url.as_str());
        let mut rb = match started {
            Ok(rb) => rb,
            Err(m) => {
                return Err(ProviderError::TransportError(m));
            },
        };
        let n = msg.header.len();
        let mut i: usize = 0;
        while i < n
            invariant
                n == msg.header@.len(),
                0 <= i <= n,
            decreases n - i,
        {
            rb = add_header(rb, msg.header[i].0.as_str(), msg.header[i].1.as_str());
            i = i + 1;
        }
        rb = set_body(rb, &msg.body);
        let resp = match send_request(rb) {
            Ok(resp) => resp,
            Err(m) => {
                return Err(ProviderError::TransportError(m));
            },
        };
        let status = response_status(&resp);
        let header = response_headers(&resp);
        let body = match response_body(resp) {
            Ok(b) => b,
            Err(m) => {
                return Err(ProviderError::TransportError(m));
            },
        };
        Ok(ResponseDescriptor { status_code: status as u32, header, body })
    }
}

} // verus!
