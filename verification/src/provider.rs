//! The dispatch front of the broker: one entry point that receives
//! named operations with the caller's identity attached, enforces
//! which of them are privileged, and routes them to the registry,
//! the client factory and the request executor.
//!
//! Per principal the lifecycle is a two-state machine: unbound until
//! a bind, bound until an unbind; a repeated bind replaces the
//! handle, and a request leaves the state untouched.  Lifecycles of
//! distinct principals are independent.

use vstd::prelude::*;
use crate::client::ClientHandle;
use crate::config::{ClientConfig, config_of, parse_config};
use crate::errors::ProviderError;
use crate::http::{RequestDescriptor, ResponseDescriptor};
use crate::kv::kv_map;
use crate::registry::Registry;
use crate::text::str_eq;

verus! {

/// The identity of the one caller allowed to bind and unbind.
pub open spec fn system_identity() -> Seq<char> {
    "system"@
}

/// Whether a caller is the trusted system identity.
pub fn is_system(actor: &str) -> (r: bool)
    ensures
        r == (actor@ == system_identity()),
{
    str_eq(actor, "system")
}

/// The wire names of the operations the broker understands.
pub open spec fn op_bind_name() -> Seq<char> {
    "BindActor"@
}

pub open spec fn op_unbind_name() -> Seq<char> {
    "RemoveActor"@
}

pub open spec fn op_request_name() -> Seq<char> {
    "PerformRequest"@
}

pub open spec fn op_describe_name() -> Seq<char> {
    "GetCapabilityDescriptor"@
}

/// The operation an inbound call names.
#[derive(Debug, Clone, Copy, PartialEq, Eq, Structural)]
pub enum OpKind {
    BindPrincipal,
    UnbindPrincipal,
    PerformRequest,
    DescribeCapability,
    Unknown,
}

/// Classify an operation name.  Exactly the four known names map to
/// their kinds; every other name is unknown.
pub fn op_kind(op: &str) -> (k: OpKind)
    ensures
        (k == OpKind::BindPrincipal) == (op@ == op_bind_name()),
        (k == OpKind::UnbindPrincipal) == (op@ == op_unbind_name()),
        (k == OpKind::PerformRequest) == (op@ == op_request_name()),
        (k == OpKind::DescribeCapability) == (op@ == op_describe_name()),
        (k == OpKind::Unknown) == (op@ != op_bind_name() && op@ != op_unbind_name() && op@
            != op_request_name() && op@ != op_describe_name()),
{
    proof {
        reveal_strlit("BindActor");
        reveal_strlit("RemoveActor");
        reveal_strlit("PerformRequest");
        reveal_strlit("GetCapabilityDescriptor");
        assert(op_bind_name().len() == 9);
        assert(op_unbind_name().len() == 11);
        assert(op_request_name().len() == 14);
        assert(op_describe_name().len() == 23);
    }
    if str_eq(op, "BindActor") {
        OpKind::BindPrincipal
    } else if str_eq(op, "RemoveActor") {
        OpKind::UnbindPrincipal
    } else if str_eq(op, "PerformRequest") {
        OpKind::PerformRequest
    } else if str_eq(op, "GetCapabilityDescriptor") {
        OpKind::DescribeCapability
    } else {
        OpKind::Unknown
    }
}

/// A decoded inbound operation: the operation name together with its
/// decoded payload.  A name the broker does not recognize decodes to
/// `Other`.
pub enum Operation {
    BindPrincipal { principal: String, values: Vec<(String, String)> },
    UnbindPrincipal { principal: String },
    PerformRequest { request: RequestDescriptor },
    DescribeCapability,
    Other,
}

/// What a successful operation hands back.
pub enum CallOutcome {
    /// A lifecycle operation succeeded; there is nothing to return.
    Accepted,
    /// The response descriptor of a performed request.
    Response(ResponseDescriptor),
    /// The broker's capability metadata.
    Capability(CapabilityInfo),
}

/// Capability metadata: what this broker advertises about itself.
pub struct CapabilityInfo {
    pub id: String,
    pub name: String,
    pub description: String,
    pub version: String,
    pub revision: u32,
    pub operations: Vec<String>,
}

/// The advertised metadata, field by field: the capability id, the
/// human-readable name and description, version and revision, and
/// the one operation served to bound principals.
pub open spec fn descriptor_ok(d: CapabilityInfo) -> bool {
    &&& d.id@ == "wascc:http_client"@
    &&& d.name@ == "wasCC HTTP Client Provider"@
    &&& d.description@ == "A http client provider"@
    &&& d.version@ == "0.1.0"@
    &&& d.revision == 0
    &&& d.operations@.len() == 1
    &&& d.operations@[0]@ == op_request_name()
}

/// The HTTP client broker: a registry of per-principal client
/// handles behind the uniform operation surface.  Its view is the
/// registry's: the mapping from bound principals to the
/// configurations of their clients.
pub struct HttpClientProvider {
    registry: Registry,
}

impl View for HttpClientProvider {
    type V = Map<Seq<char>, ClientConfig>;

    closed spec fn view(&self) -> Map<Seq<char>, ClientConfig> {
        self.registry@
    }
}

impl HttpClientProvider {
    /// The broker invariant: the registry binds each principal at
    /// most once.
    pub closed spec fn wf(&self) -> bool {
        self.registry.wf()
    }

    /// A new broker: no principal is bound.
    pub fn new() -> (r: Self)
        ensures
            r.wf(),
            r@ == Map::<Seq<char>, ClientConfig>::empty(),
    {
        HttpClientProvider { registry: Registry::new() }
    }

    /// Bind (or rebind) a principal: parse the configuration, build a
    /// fresh client handle from it, and store it under the principal.
    /// A malformed configuration, or a client the engine cannot
    /// build, fails the whole bind and leaves every binding — the
    /// caller's previous one included — unchanged.
    pub fn configure(&mut self, principal: String, values: &Vec<(String, String)>) -> (r: Result<
        (),
        ProviderError,
    >)
        requires
            old(self).wf(),
        ensures
            final(self).wf(),
            match config_of(kv_map(values@)) {
                Option::None => r matches Err(ProviderError::ConfigError(_)) && final(self)@
                    == old(self)@,
                Option::Some(c) => (r matches Err(ProviderError::ConfigError(_)) && final(self)@
                    == old(self)@) || (r matches Ok(_) && final(self)@ == old(self)@.insert(
                    principal@,
                    c,
                )),
            },
    {
        let cfg = match parse_config(values) {
            Ok(c) => c,
            Err(e) => {
                return Err(e);
            },
        };
        let handle = match ClientHandle::build(cfg) {
            Ok(h) => h,
            Err(e) => {
                return Err(e);
            },
        };
        self.registry.bind(principal, handle);
        Ok(())
    }

    /// Remove a principal's client.  Removing a principal that was
    /// never bound succeeds and changes nothing; the result reports
    /// whether a client was actually bound, so the caller may log a
    /// warning for out-of-order lifecycle events.
    pub fn deconfigure(&mut self, principal: &str) -> (was_bound: bool)
        requires
            old(self).wf(),
        ensures
            final(self).wf(),
            final(self)@ == old(self)@.remove(principal@),
            was_bound == old(self)@.contains_key(principal@),
            !old(self)@.contains_key(principal@) ==> final(self)@ == old(self)@,
    {
        self.registry.unbind(principal)
    }

    /// Perform a request on behalf of a principal: resolve the
    /// principal's handle and execute the request through it.  An
    /// unbound principal fails with `UnknownPrincipal` — exactly
    /// then; a bound one yields the server's response or a transport
    /// failure.  No request changes any binding.
    pub fn request(&self, actor: &str, msg: &RequestDescriptor) -> (r: Result<
        ResponseDescriptor,
        ProviderError,
    >)
        requires
            self.wf(),
        ensures
            (r matches Err(ProviderError::UnknownPrincipal)) == !self@.contains_key(actor@),
            self@.contains_key(actor@) ==> (r matches Ok(_) || r matches Err(
                ProviderError::TransportError(_),
            )),
    {
        match self.registry.lookup(actor) {
            Some(h) => {
                let out = h.execute(msg);
                match out {
                    Ok(resp) => Ok(resp),
                    Err(e) => Err(e),
                }
            },
            None => Err(ProviderError::UnknownPrincipal),
        }
    }

    /// The capability metadata this broker advertises.
    pub fn get_descriptor(&self) -> (d: CapabilityInfo)
        ensures
            descriptor_ok(d),
    {
        let mut operations: Vec<String> = Vec::new();
        operations.push(String::from_str("PerformRequest"));
        CapabilityInfo {
            id: String::from_str("wascc:http_client"),
            name: String::from_str("wasCC HTTP Client Provider"),
            description: String::from_str("A http client provider"),
            version: String::from_str("0.1.0"),
            revision: 0,
            operations,
        }
    }

    /// The configuration a principal is currently bound with, if any.
    pub fn current_config(&self, principal: &str) -> (r: Option<ClientConfig>)
        requires
            self.wf(),
        ensures
            match r {
                Some(c) => self@.contains_key(principal@) && c == self@[principal@],
                None => !self@.contains_key(principal@),
            },
    {
        match self.registry.lookup(principal) {
            Some(h) => Some(h.config()),
            None => None,
        }
    }

    /// Handle one inbound call: route the operation, enforcing that
    /// only the trusted system identity may bind or unbind, that a
    /// request is served only for a bound principal, and that an
    /// unrecognized operation is rejected — while every outcome
    /// leaves the bindings of all uninvolved principals as they
    /// were.
    pub fn handle_call(&mut self, actor: &str, op: Operation) -> (r: Result<
        CallOutcome,
        ProviderError,
    >)
        requires
            old(self).wf(),
        ensures
            final(self).wf(),
            match op {
                Operation::BindPrincipal { principal, values } => {
                    if actor@ != system_identity() {
                        r matches Err(ProviderError::Unauthorized) && final(self)@ == old(self)@
                    } else {
                        match config_of(kv_map(values@)) {
                            Option::None => r matches Err(ProviderError::ConfigError(_))
                                && final(self)@ == old(self)@,
                            Option::Some(c) => (r matches Err(ProviderError::ConfigError(_))
                                && final(self)@ == old(self)@) || (r matches Ok(
                                CallOutcome::Accepted,
                            ) && final(self)@ == old(self)@.insert(principal@, c)),
                        }
                    }
                },
                Operation::UnbindPrincipal { principal } => {
                    if actor@ != system_identity() {
                        r matches Err(ProviderError::Unauthorized) && final(self)@ == old(self)@
                    } else {
                        r matches Ok(CallOutcome::Accepted) && final(self)@ == old(self)@.remove(
                            principal@,
                        )
                    }
                },
                Operation::PerformRequest { request } => {
                    &&& final(self)@ == old(self)@
                    &&& (r matches Err(ProviderError::UnknownPrincipal))
                        == !old(self)@.contains_key(actor@)
                    &&& old(self)@.contains_key(actor@) ==> (r matches Ok(CallOutcome::Response(_))
                        || r matches Err(ProviderError::TransportError(_)))
                },
                Operation::DescribeCapability => {
                    &&& final(self)@ == old(self)@
                    &&& match r {
                        Ok(CallOutcome::Capability(d)) => descriptor_ok(d),
                        _ => false,
                    }
                },
                Operation::Other => {
                    r matches Err(ProviderError::UnsupportedOperation)
                        && final(self)@ == old(self)@
                },
            },
    {
        match op {
            Operation::BindPrincipal { principal, values } => {
                if !is_system(actor) {
                    return Err(ProviderError::Unauthorized);
                }
                match self.configure(principal, &values) {
                    Ok(_) => Ok(CallOutcome::Accepted),
                    Err(e) => Err(e),
                }
            },
            Operation::UnbindPrincipal { principal } => {
                if !is_system(actor) {
                    return Err(ProviderError::Unauthorized);
                }
                self.deconfigure(principal.as_str());
                Ok(CallOutcome::Accepted)
            },
            Operation::PerformRequest { request } => {
                match self.request(actor, &request) {
                    Ok(resp) => Ok(CallOutcome::Response(resp)),
                    Err(e) => Err(e),
                }
            },
            Operation::DescribeCapability => Ok(CallOutcome::Capability(self.get_descriptor())),
            Operation::Other => Err(ProviderError::UnsupportedOperation),
        }
    }
}

impl Default for HttpClientProvider {
    /// A new broker with nothing bound, exactly as `new` returns.
    fn default() -> (r: Self)
        ensures
            r.wf(),
            r@ == Map::<Seq<char>, ClientConfig>::empty(),
    {
        HttpClientProvider::new()
    }
}

/// After a successful bind the principal is bound, with exactly the
/// configuration it was bound with: a following request therefore
/// resolves a client and can never fail with an unknown principal.
pub proof fn lemma_bound_after_bind(
    m: Map<Seq<char>, ClientConfig>,
    p: Seq<char>,
    c: ClientConfig,
)
    ensures
        m.insert(p, c).contains_key(p),
        m.insert(p, c)[p] == c,
{
}

/// Rebinding a principal replaces the effective configuration: a
/// second bind of the same principal leaves the registry exactly as
/// if only the newer bind had happened, and a lookup then sees the
/// newer configuration.
pub proof fn lemma_rebind_replaces(
    m: Map<Seq<char>, ClientConfig>,
    p: Seq<char>,
    c1: ClientConfig,
    c2: ClientConfig,
)
    ensures
        m.insert(p, c1).insert(p, c2) == m.insert(p, c2),
        m.insert(p, c2)[p] == c2,
{
    assert(m.insert(p, c1).insert(p, c2) =~= m.insert(p, c2));
}

/// Principal isolation: binding or unbinding one principal neither
/// adds, removes nor changes any other principal's binding, so no
/// operation of one tenant can affect the effective configuration of
/// another.
pub proof fn lemma_principal_isolation(
    m: Map<Seq<char>, ClientConfig>,
    p: Seq<char>,
    q: Seq<char>,
    c: ClientConfig,
)
    requires
        p != q,
    ensures
        m.insert(p, c).contains_key(q) == m.contains_key(q),
        m.contains_key(q) ==> m.insert(p, c)[q] == m[q],
        m.remove(p).contains_key(q) == m.contains_key(q),
        m.contains_key(q) ==> m.remove(p)[q] == m[q],
{
}

} // verus!
