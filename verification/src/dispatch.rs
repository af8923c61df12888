//! Routing of inbound requests by the transport version they arrived on.
use vstd::prelude::*;

verus! {

/// The transport version observed on a request.
#[derive(Clone, Copy, Debug, PartialEq, Eq, Structural)]
pub enum ProtocolVersion {
    Http09,
    Http10,
    Http11,
    Http2,
    Http3,
}

/// Which of the two handlers serves a request.
#[derive(Clone, Copy, Debug, PartialEq, Eq, Structural)]
pub enum RoutingDecision {
    /// The text protocol.
    Legacy,
    /// The schema-based RPC protocol.
    Structured,
}

/// A request arrived on a transport version that neither handler serves.
#[derive(Clone, Copy, Debug, PartialEq, Eq, Structural)]
pub struct ProtocolMismatchError {
    pub version: ProtocolVersion,
}

/// A request as it is received. The body is of whatever type the transport
/// streams; nothing in this module looks inside it.
#[derive(Clone, Debug, PartialEq, Eq)]
pub struct IncomingRequest<B> {
    pub version: ProtocolVersion,
    pub path: String,
    pub headers: Vec<(String, String)>,
    pub body: B,
}

/// A request on its way to the handler that was chosen for it.
#[derive(Clone, Debug, PartialEq, Eq)]
pub enum Routed<B> {
    Legacy(IncomingRequest<B>),
    Structured(IncomingRequest<B>),
}

/// The handler for each transport version: the text protocol on HTTP/1.0 and
/// HTTP/1.1, which carry one request at a time; the RPC protocol on HTTP/2,
/// whose multiplexed streams it needs; none for any other version.
pub open spec fn routing_of(version: ProtocolVersion) -> Option<RoutingDecision> {
    match version {
        ProtocolVersion::Http10 | ProtocolVersion::Http11 => Some(RoutingDecision::Legacy),
        ProtocolVersion::Http2 => Some(RoutingDecision::Structured),
        ProtocolVersion::Http09 | ProtocolVersion::Http3 => None,
    }
}

/// Where `dispatch` sends a request: to the handler of its version, unchanged,
/// or nowhere.
pub open spec fn dispatched<B>(request: IncomingRequest<B>) -> Result<
    Routed<B>,
    ProtocolMismatchError,
> {
    match routing_of(request.version) {
        Some(RoutingDecision::Legacy) => Ok(Routed::Legacy(request)),
        Some(RoutingDecision::Structured) => Ok(Routed::Structured(request)),
        None => Err(ProtocolMismatchError { version: request.version }),
    }
}

impl<B> Routed<B> {
    /// The handler that the request goes to.
    pub open spec fn decision(self) -> RoutingDecision {
        match self {
            Routed::Legacy(_) => RoutingDecision::Legacy,
            Routed::Structured(_) => RoutingDecision::Structured,
        }
    }

    /// The request that is handed on.
    pub open spec fn request(self) -> IncomingRequest<B> {
        match self {
            Routed::Legacy(request) => request,
            Routed::Structured(request) => request,
        }
    }

    /// The handler that the request goes to.
    pub fn handler(&self) -> (decision: RoutingDecision)
        ensures
            decision == self.decision(),
    {
        match self {
            Routed::Legacy(_) => RoutingDecision::Legacy,
            Routed::Structured(_) => RoutingDecision::Structured,
        }
    }

    /// Gives the request back, as it was received.
    pub fn into_request(self) -> (request: IncomingRequest<B>)
        ensures
            request == self.request(),
    {
        match self {
            Routed::Legacy(request) => request,
            Routed::Structured(request) => request,
        }
    }
}

/// Chooses the handler from the transport version alone. A version that no
/// handler serves is refused; there is no fallback.
pub fn route(version: ProtocolVersion) -> (decision: Result<RoutingDecision, ProtocolMismatchError>)
    ensures
        decision == match routing_of(version) {
            Some(chosen) => Ok::<RoutingDecision, ProtocolMismatchError>(chosen),
            None => Err(ProtocolMismatchError { version }),
        },
{
    match version {
        ProtocolVersion::Http10 | ProtocolVersion::Http11 => Ok(RoutingDecision::Legacy),
        ProtocolVersion::Http2 => Ok(RoutingDecision::Structured),
        ProtocolVersion::Http09 | ProtocolVersion::Http3 => Err(ProtocolMismatchError { version }),
    }
}

/// Hands a request to the handler of its transport version, headers and body
/// untouched. A request on an unsupported version fails alone: the error names
/// the version and the request is dropped.
pub fn dispatch<B>(request: IncomingRequest<B>) -> (routed: Result<
    Routed<B>,
    ProtocolMismatchError,
>)
    ensures
        routed == dispatched(request),
{
    match route(request.version) {
        Ok(RoutingDecision::Legacy) => Ok(Routed::Legacy(request)),
        Ok(RoutingDecision::Structured) => Ok(Routed::Structured(request)),
        Err(mismatch) => Err(mismatch),
    }
}

/// Routing reads the version and nothing else: two requests on one version
/// fare alike, whatever else they hold. Both go to the same handler, each as
/// it was received, or both are refused with the same error.
pub proof fn lemma_routing_by_version_alone<A, B>(
    first: IncomingRequest<A>,
    second: IncomingRequest<B>,
)
    requires
        first.version == second.version,
    ensures
        match (dispatched(first), dispatched(second)) {
            (Ok(one), Ok(other)) => one.decision() == other.decision() && one.request() == first
                && other.request() == second,
            (Err(one), Err(other)) => one == other,
            _ => false,
        },
{
}

/// HTTP/1.0 and HTTP/1.1 go to the text protocol, HTTP/2 to the RPC protocol,
/// and every other version is refused.
pub proof fn lemma_versions_routed(version: ProtocolVersion)
    ensures
        (version == ProtocolVersion::Http10 || version == ProtocolVersion::Http11)
            <==> routing_of(version) == Some(RoutingDecision::Legacy),
        version == ProtocolVersion::Http2 <==> routing_of(version) == Some(
            RoutingDecision::Structured,
        ),
        (version == ProtocolVersion::Http09 || version == ProtocolVersion::Http3) <==> routing_of(
            version,
        ).is_none(),
{
}

} // verus!
