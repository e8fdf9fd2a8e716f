//! The boundary to the underlying HTTP client engine (reqwest's
//! blocking client).  Everything here either declares an engine type
//! opaquely or wraps one engine call; nothing about the network is
//! assumed beyond what the engine's own documentation states, so the
//! contracts of these wrappers promise nothing about any outcome that
//! the network decides.

use vstd::prelude::*;

verus! {

#[verifier::external_type_specification]
#[verifier::external_body]
pub struct ExClient(reqwest::blocking::Client);

#[verifier::external_type_specification]
#[verifier::external_body]
pub struct ExRequestBuilder(reqwest::blocking::RequestBuilder);

#[verifier::external_type_specification]
#[verifier::external_body]
pub struct ExResponse(reqwest::blocking::Response);

/// Relies on `reqwest::blocking::ClientBuilder`: `timeout` sets the
/// whole-request timeout and `redirect(Policy::limited(n))` makes the
/// client fail a request once it has been redirected more than `n`
/// times.  `build` may fail (engine setup), hence the `Result`.
#[verifier::external_body]
pub(crate) fn build_client_limited(timeout_secs: u64, max_redirects: u64) -> (r: Result<
    reqwest::blocking::Client,
    String,
>) {
    let b = reqwest::blocking::Client::builder().timeout(
        std::time::Duration::from_secs(timeout_secs),
    ).redirect(reqwest::redirect::Policy::limited(max_redirects as usize));
    match b.build() {
        Ok(c) => Ok(c),
        Err(e) => Err(format!("{}", e)),
    }
}

/// Relies on `reqwest::blocking::ClientBuilder`: as
/// `build_client_limited`, but leaving the engine's default redirect
/// policy in place.
#[verifier::external_body]
pub(crate) fn build_client_default(timeout_secs: u64) -> (r: Result<
    reqwest::blocking::Client,
    String,
>) {
    let b = reqwest::blocking::Client::builder().timeout(
        std::time::Duration::from_secs(timeout_secs),
    );
    match b.build() {
        Ok(c) => Ok(c),
        Err(e) => Err(format!("{}", e)),
    }
}

/// Relies on `reqwest::Method::from_bytes` (fails on an invalid
/// method name) and `reqwest::blocking::Client::request`, which
/// starts building a request for the given method and target.
#[verifier::external_body]
pub(crate) fn start_request(
    client: &reqwest::blocking::Client,
    method: &str,
    url: &str,
) -> (r: Result<reqwest::blocking::RequestBuilder, String>) {
    match reqwest::Method::from_bytes(method.as_bytes()) {
        Ok(m) => Ok(client.request(m, url)),
        Err(e) => Err(format!("{}", e)),
    }
}

/// Relies on `reqwest::blocking::RequestBuilder::header`: sets one
/// header verbatim (an invalid name or value surfaces as an error
/// when the request is sent).
#[verifier::external_body]
pub(crate) fn add_header(
    rb: reqwest::blocking::RequestBuilder,
    name: &str,
    value: &str,
) -> reqwest::blocking::RequestBuilder {
    rb.header(name, value)
}

/// Relies on `reqwest::blocking::RequestBuilder::body`: sets the
/// request body bytes.
#[verifier::external_body]
pub(crate) fn set_body(
    rb: reqwest::blocking::RequestBuilder,
    body: &Vec<u8>,
) -> reqwest::blocking::RequestBuilder {
    rb.body(body.clone())
}

/// Relies on `reqwest::blocking::RequestBuilder::send`: performs the
/// network call.  Whether it succeeds is the network's to decide
/// (timeout, connection, TLS, redirect-cap and malformed-URL failures
/// all surface here), so nothing is promised of the outcome.
#[verifier::external_body]
pub(crate) fn send_request(rb: reqwest::blocking::RequestBuilder) -> (r: Result<
    reqwest::blocking::Response,
    String,
>) {
    match rb.send() {
        Ok(resp) => Ok(resp),
        Err(e) => Err(format!("{}", e)),
    }
}

/// Relies on `reqwest::blocking::Response::status`: the numeric
/// status code of the response.
#[verifier::external_body]
pub(crate) fn response_status(resp: &reqwest::blocking::Response) -> u16 {
    resp.status().as_u16()
}

/// Relies on `reqwest::blocking::Response::headers`: hands the
/// response's header entries out as plain pairs, in iteration order;
/// a header name that occurs several times yields several pairs, its
/// values in wire order.
#[verifier::external_body]
pub(crate) fn response_headers(resp: &reqwest::blocking::Response) -> Vec<(String, String)> {
    let mut out: Vec<(String, String)> = Vec::new();
    for (k, v) in resp.headers().iter() {
        out.push((k.as_str().to_string(), String::from_utf8_lossy(v.as_bytes()).into_owned()));
    }
    out
}

/// Relies on `reqwest::blocking::Response::bytes`: reads the full
/// response body (a read failure is a transport failure).
#[verifier::external_body]
pub(crate) fn response_body(resp: reqwest::blocking::Response) -> (r: Result<Vec<u8>, String>) {
    match resp.bytes() {
        Ok(b) => Ok(b.to_vec()),
        Err(e) => Err(format!("{}", e)),
    }
}

} // verus!
