//! Tests of the broker's lifecycle, dispatch and parsing logic that
//! need no network.

use http_client_provider::errors::ProviderError;
use http_client_provider::http::{RequestDescriptor, ResponseDescriptor};
use http_client_provider::provider::{
    CallOutcome, HttpClientProvider, OpKind, Operation, op_kind,
};
use http_client_provider::text::{parse_u64, str_eq, target_url};

fn kv(pairs: &[(&str, &str)]) -> Vec<(String, String)> {
    pairs.iter().map(|(k, v)| (k.to_string(), v.to_string())).collect()
}

fn get_request(url: &str) -> RequestDescriptor {
    RequestDescriptor {
        method: "GET".to_string(),
        path: url.to_string(),
        header: Vec::new(),
        body: Vec::new(),
        query_string: String::new(),
    }
}

#[test]
fn unknown_principal_fails() {
    let provider = HttpClientProvider::new();
    let r = provider.request("nobody", &get_request("http://127.0.0.1:1/"));
    assert!(matches!(r, Err(ProviderError::UnknownPrincipal)));
}

#[test]
fn unbind_never_bound_is_success() {
    let mut provider = HttpClientProvider::new();
    let was_bound = provider.deconfigure("ghost");
    assert!(!was_bound);
    let r = provider.handle_call(
        "system",
        Operation::UnbindPrincipal { principal: "ghost".to_string() },
    );
    assert!(matches!(r, Ok(CallOutcome::Accepted)));
}

#[test]
fn default_configuration() {
    let mut provider = HttpClientProvider::new();
    provider.configure("p1".to_string(), &kv(&[])).unwrap();
    let c = provider.current_config("p1").unwrap();
    assert_eq!(c.timeout_secs, 30);
    assert_eq!(c.max_redirects, None);
}

#[test]
fn explicit_configuration() {
    let mut provider = HttpClientProvider::new();
    provider
        .configure("p1".to_string(), &kv(&[("timeout", "7"), ("max_redirects", "3")]))
        .unwrap();
    let c = provider.current_config("p1").unwrap();
    assert_eq!(c.timeout_secs, 7);
    assert_eq!(c.max_redirects, Some(3));
}

#[test]
fn malformed_timeout_fails_bind_and_keeps_previous_binding() {
    let mut provider = HttpClientProvider::new();
    provider.configure("p1".to_string(), &kv(&[("timeout", "7")])).unwrap();
    let r = provider.configure("p1".to_string(), &kv(&[("timeout", "seven")]));
    assert!(matches!(r, Err(ProviderError::ConfigError(_))));
    let c = provider.current_config("p1").unwrap();
    assert_eq!(c.timeout_secs, 7);
}

#[test]
fn malformed_timeout_fails_bind_when_never_bound() {
    let mut provider = HttpClientProvider::new();
    let r = provider.configure("p1".to_string(), &kv(&[("timeout", "30x")]));
    assert!(matches!(r, Err(ProviderError::ConfigError(_))));
    assert!(provider.current_config("p1").is_none());
}

#[test]
fn malformed_max_redirects_fails_bind() {
    let mut provider = HttpClientProvider::new();
    let r = provider.configure("p1".to_string(), &kv(&[("max_redirects", "-1")]));
    assert!(matches!(r, Err(ProviderError::ConfigError(_))));
}

#[test]
fn rebind_replaces_configuration() {
    let mut provider = HttpClientProvider::new();
    provider.configure("p1".to_string(), &kv(&[("timeout", "5")])).unwrap();
    provider.configure("p1".to_string(), &kv(&[("timeout", "9")])).unwrap();
    let c = provider.current_config("p1").unwrap();
    assert_eq!(c.timeout_secs, 9);
}

#[test]
fn unbind_removes_binding() {
    let mut provider = HttpClientProvider::new();
    provider.configure("p1".to_string(), &kv(&[])).unwrap();
    assert!(provider.deconfigure("p1"));
    assert!(provider.current_config("p1").is_none());
    let r = provider.request("p1", &get_request("http://127.0.0.1:1/"));
    assert!(matches!(r, Err(ProviderError::UnknownPrincipal)));
}

#[test]
fn lifecycle_operations_require_system_identity() {
    let mut provider = HttpClientProvider::new();
    let r = provider.handle_call(
        "intruder",
        Operation::BindPrincipal { principal: "p1".to_string(), values: kv(&[]) },
    );
    assert!(matches!(r, Err(ProviderError::Unauthorized)));
    let r = provider.handle_call(
        "intruder",
        Operation::UnbindPrincipal { principal: "p1".to_string() },
    );
    assert!(matches!(r, Err(ProviderError::Unauthorized)));
    assert!(provider.current_config("p1").is_none());
}

#[test]
fn system_identity_binds_and_unbinds() {
    let mut provider = HttpClientProvider::new();
    let r = provider.handle_call(
        "system",
        Operation::BindPrincipal {
            principal: "p1".to_string(),
            values: kv(&[("timeout", "4")]),
        },
    );
    assert!(matches!(r, Ok(CallOutcome::Accepted)));
    assert_eq!(provider.current_config("p1").unwrap().timeout_secs, 4);
    let r = provider.handle_call(
        "system",
        Operation::UnbindPrincipal { principal: "p1".to_string() },
    );
    assert!(matches!(r, Ok(CallOutcome::Accepted)));
    assert!(provider.current_config("p1").is_none());
}

#[test]
fn bind_with_bad_config_through_dispatch() {
    let mut provider = HttpClientProvider::new();
    let r = provider.handle_call(
        "system",
        Operation::BindPrincipal {
            principal: "p1".to_string(),
            values: kv(&[("timeout", "oops")]),
        },
    );
    assert!(matches!(r, Err(ProviderError::ConfigError(_))));
}

#[test]
fn unsupported_operation_is_rejected() {
    let mut provider = HttpClientProvider::new();
    let r = provider.handle_call("anyone", Operation::Other);
    assert!(matches!(r, Err(ProviderError::UnsupportedOperation)));
}

#[test]
fn perform_request_through_dispatch_unbound() {
    let mut provider = HttpClientProvider::new();
    let r = provider.handle_call(
        "p1",
        Operation::PerformRequest { request: get_request("http://127.0.0.1:1/") },
    );
    assert!(matches!(r, Err(ProviderError::UnknownPrincipal)));
}

#[test]
fn operation_names() {
    assert_eq!(op_kind("BindActor"), OpKind::BindPrincipal);
    assert_eq!(op_kind("RemoveActor"), OpKind::UnbindPrincipal);
    assert_eq!(op_kind("PerformRequest"), OpKind::PerformRequest);
    assert_eq!(op_kind("GetCapabilityDescriptor"), OpKind::DescribeCapability);
    assert_eq!(op_kind("FlushCache"), OpKind::Unknown);
    assert_eq!(op_kind(""), OpKind::Unknown);
}

#[test]
fn descriptor_metadata() {
    let provider = HttpClientProvider::new();
    let d = provider.get_descriptor();
    assert_eq!(d.id, "wascc:http_client");
    assert_eq!(d.name, "wasCC HTTP Client Provider");
    assert_eq!(d.description, "A http client provider");
    assert_eq!(d.version, "0.1.0");
    assert_eq!(d.revision, 0);
    assert_eq!(d.operations, vec!["PerformRequest".to_string()]);
    let mut provider = provider;
    let r = provider.handle_call("anyone", Operation::DescribeCapability);
    match r {
        Ok(CallOutcome::Capability(d)) => assert_eq!(d.id, "wascc:http_client"),
        other => panic!("unexpected outcome: {:?}", other.is_ok()),
    }
}

#[test]
fn parse_u64_values() {
    assert_eq!(parse_u64("0"), Some(0));
    assert_eq!(parse_u64("30"), Some(30));
    assert_eq!(parse_u64("005"), Some(5));
    assert_eq!(parse_u64("18446744073709551615"), Some(u64::MAX));
    assert_eq!(parse_u64("18446744073709551616"), None);
    assert_eq!(parse_u64(""), None);
    assert_eq!(parse_u64("1x"), None);
    assert_eq!(parse_u64("-1"), None);
    assert_eq!(parse_u64(" 1"), None);
}

#[test]
fn response_header_last_occurrence_wins() {
    let resp = ResponseDescriptor {
        status_code: 200,
        header: vec![
            ("content-type".to_string(), "text/plain".to_string()),
            ("x-twice".to_string(), "first".to_string()),
            ("x-twice".to_string(), "second".to_string()),
        ],
        body: Vec::new(),
    };
    assert_eq!(resp.header_value("x-twice").unwrap(), "second");
    assert_eq!(resp.header_value("content-type").unwrap(), "text/plain");
    assert!(resp.header_value("x-missing").is_none());
}

#[test]
fn target_url_assembly() {
    assert_eq!(target_url("http://h/p", "a=1&b=2"), "http://h/p?a=1&b=2");
    assert_eq!(target_url("http://h/p", ""), "http://h/p");
}

#[test]
fn str_eq_matches_string_equality() {
    assert!(str_eq("abc", "abc"));
    assert!(!str_eq("abc", "abd"));
    assert!(!str_eq("abc", "ab"));
    assert!(str_eq("", ""));
}

#[test]
fn config_value_last_occurrence_wins() {
    let mut provider = HttpClientProvider::new();
    provider
        .configure("p1".to_string(), &kv(&[("timeout", "3"), ("timeout", "8")]))
        .unwrap();
    assert_eq!(provider.current_config("p1").unwrap().timeout_secs, 8);
}

#[test]
fn redirect_cap_is_stored() {
    let mut provider = HttpClientProvider::new();
    provider.configure("p2".to_string(), &kv(&[("max_redirects", "0")])).unwrap();
    let c = provider.current_config("p2").unwrap();
    assert_eq!(c.max_redirects, Some(0));
    assert_eq!(c.timeout_secs, 30);
}

#[test]
fn unreachable_server_is_transport_error() {
    let mut provider = HttpClientProvider::new();
    provider.configure("p1".to_string(), &kv(&[("timeout", "2")])).unwrap();
    let r = provider.request("p1", &get_request("http://127.0.0.1:1/"));
    assert!(matches!(r, Err(ProviderError::TransportError(_))));
    // The failed request leaves the binding in place.
    assert_eq!(provider.current_config("p1").unwrap().timeout_secs, 2);
}

#[test]
fn invalid_method_is_transport_error() {
    let mut provider = HttpClientProvider::new();
    provider.configure("p1".to_string(), &kv(&[])).unwrap();
    let mut req = get_request("http://127.0.0.1:1/");
    req.method = "NO METHOD".to_string();
    let r = provider.request("p1", &req);
    assert!(matches!(r, Err(ProviderError::TransportError(_))));
}

#[test]
fn invalid_url_is_transport_error() {
    let mut provider = HttpClientProvider::new();
    provider.configure("p1".to_string(), &kv(&[])).unwrap();
    let r = provider.request("p1", &get_request("not a url"));
    assert!(matches!(r, Err(ProviderError::TransportError(_))));
}

#[test]
fn isolation_of_other_principals() {
    let mut provider = HttpClientProvider::new();
    provider.configure("a".to_string(), &kv(&[("timeout", "1")])).unwrap();
    provider.configure("b".to_string(), &kv(&[("timeout", "60")])).unwrap();
    let b_before = provider.current_config("b").unwrap();
    // A failing request from one principal must not disturb another.
    let r = provider.request("a", &get_request("http://127.0.0.1:1/"));
    assert!(matches!(r, Err(ProviderError::TransportError(_))));
    assert_eq!(provider.current_config("b").unwrap(), b_before);
    provider.deconfigure("a");
    assert_eq!(provider.current_config("b").unwrap(), b_before);
    assert!(provider.current_config("a").is_none());
}
