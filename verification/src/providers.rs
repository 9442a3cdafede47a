//! The capability contracts every upstream node provider implements, and the
//! shared response-normalization step.
//!
//! A provider exposes pure reads over its immutable state (`Provider`), a
//! request-planning and response-normalization pair for HTTP forwarding
//! (`RpcProvider`), a connection-planning step for WebSocket bridging
//! (`RpcWsProvider`), and a rate-limit predicate over completed responses
//! (`RateLimited`). The network transport itself lives outside this crate:
//! the planning step says exactly what to send, and the normalization step
//! says exactly what the caller gets back for whatever the upstream returned.
use crate::classifier::{
    classify_rpc_error, spec_classify, spec_is_internal_error_code, spec_is_node_error_message,
    spec_is_rate_limited_message, Verdict,
};
use crate::response::{spec_is_success, GatewayResponse, OutboundHttpRequest, RpcError, RpcResult};
use vstd::prelude::*;

verus! {

/// A stable tag identifying a provider implementation, used in metrics
/// labels and error messages.
#[derive(Clone, Copy, Debug, PartialEq, Eq, Structural)]
pub enum ProviderKind {
    Allnodes,
    Publicnode,
}

impl ProviderKind {
    /// The stable wire/metrics name of the provider kind.
    pub fn name(&self) -> (r: &'static str)
        ensures
            *self == ProviderKind::Allnodes ==> r@ == "allnodes"@,
            *self == ProviderKind::Publicnode ==> r@ == "publicnode"@,
    {
        match self {
            ProviderKind::Allnodes => "allnodes",
            ProviderKind::Publicnode => "publicnode",
        }
    }
}

/// The baseline capability every provider exposes: pure reads over its
/// immutable chain mapping and kind tag.
pub trait Provider {
    /// The provider's internal invariant, established at construction.
    spec fn wf(&self) -> bool;

    /// The chain mapping as a mathematical map from chain identifier to
    /// upstream network token.
    spec fn chain_map(&self) -> Map<Seq<char>, Seq<char>>;

    /// The provider's kind tag, as a spec-level value.
    spec fn kind(&self) -> ProviderKind;

    /// Membership test against the chain mapping.
    fn supports_caip_chainid(&self, chain_id: &str) -> (r: bool)
        requires
            self.wf(),
        ensures
            r == self.chain_map().contains_key(chain_id@),
    ;

    /// All supported chain identifiers, without duplicates.
    fn supported_caip_chains(&self) -> (r: Vec<String>)
        requires
            self.wf(),
        ensures
            forall|i: int|
                0 <= i < r@.len() ==> self.chain_map().contains_key(#[trigger] r@[i]@),
            forall|k: Seq<char>|
                self.chain_map().contains_key(k) ==> exists|i: int|
                    0 <= i < r@.len() && r@[i]@ == k,
            forall|i: int, j: int| 0 <= i < j < r@.len() ==> r@[i]@ != r@[j]@,
    ;

    /// The provider's kind tag.
    fn provider_kind(&self) -> (r: ProviderKind)
        ensures
            r == self.kind(),
    ;
}

/// The rate-limit signal the external router consumes: it looks only at the
/// final HTTP status of a completed response, regardless of which code path
/// produced that status.
pub trait RateLimited {
    /// True exactly when the final response status is 429.
    fn is_rate_limited(&self, response: &GatewayResponse) -> (r: bool)
        ensures
            r == (response.status == 429),
    ;
}

/// The HTTP forwarding contract, split around the one network call: plan the
/// outbound request, then normalize whatever response came back.
pub trait RpcProvider: Provider {
    /// The upstream URI built from a mapped network token.
    spec fn spec_request_uri(&self, token: Seq<char>) -> Seq<char>;

    /// The final status this provider reports for an upstream status and
    /// body.
    spec fn spec_final_status(&self, upstream_status: u16, body: Seq<u8>) -> u16;

    /// Build the outbound request for a chain identifier, or fail with
    /// `ChainNotFound` without any request being issued.
    fn plan_proxy(&self, chain_id: &str, body: Vec<u8>) -> (r: RpcResult<OutboundHttpRequest>)
        requires
            self.wf(),
        ensures
            match r {
                Ok(req) => self.chain_map().contains_key(chain_id@) && req.uri@
                    == self.spec_request_uri(self.chain_map()[chain_id@]) && req.body@ == body@
                    && req.method@ == "POST"@ && req.content_type@ == "application/json"@,
                Err(e) => !self.chain_map().contains_key(chain_id@) && e
                    == RpcError::ChainNotFound,
            },
    ;

    /// Normalize an upstream response: the body passes through byte for
    /// byte, the content type is forced to `application/json`, and the
    /// status is the provider's reinterpretation of the upstream status.
    fn finalize_response(&self, upstream_status: u16, body: Vec<u8>) -> (r: GatewayResponse)
        ensures
            r.body@ == body@,
            r.content_type@ == "application/json"@,
            r.status == self.spec_final_status(upstream_status, body@),
    ;
}

/// The selectors an inbound request carries: the chain to reach and the
/// calling project (the latter only labels metrics and logs).
#[derive(Debug, Clone)]
pub struct RpcQueryParams {
    pub chain_id: String,
    pub project_id: String,
}

/// The WebSocket bridging contract, split around the connection itself: plan
/// the outbound connection URI, or fail with `ChainNotFound` before any
/// upgrade happens. The frame relay that follows a successful connection is
/// the bridge state machine's business.
pub trait RpcWsProvider: Provider {
    /// The upstream WebSocket URI built from a mapped network token.
    spec fn spec_ws_uri(&self, token: Seq<char>) -> Seq<char>;

    /// Build the outbound WebSocket URI for the requested chain, or fail
    /// with `ChainNotFound` without any connection being opened.
    fn plan_proxy(&self, query_params: &RpcQueryParams) -> (r: RpcResult<String>)
        requires
            self.wf(),
        ensures
            match r {
                Ok(uri) => self.chain_map().contains_key(query_params.chain_id@) && uri@
                    == self.spec_ws_uri(self.chain_map()[query_params.chain_id@]),
                Err(e) => !self.chain_map().contains_key(query_params.chain_id@) && e
                    == RpcError::ChainNotFound,
            },
    ;
}

/// Constructs a provider instance from its typed configuration fragment,
/// deterministically and without network activity.
pub trait RpcProviderFactory<C>: Provider + Sized {
    /// How the constructed instance relates to its configuration.
    spec fn constructed_from(&self, provider_config: &C) -> bool;

    /// Build the provider from configuration.
    fn new(provider_config: &C) -> (r: Self)
        ensures
            r.wf(),
            r.constructed_from(provider_config),
    ;
}

/// The spec-level view of a parsed JSON-RPC error pair.
pub open spec fn error_pair_view(r: Option<(i32, String)>) -> Option<(int, Seq<char>)> {
    match r {
        Some(pair) => Some((pair.0 as int, pair.1@)),
        None => None,
    }
}

/// What a byte body contains as a JSON-RPC error: `None` when the bytes do
/// not parse as a JSON-RPC response envelope or parse without an `error`
/// object, and the error's `code` and `message` otherwise. A function of
/// the bytes alone.
pub uninterp spec fn rpc_error_of(body: Seq<u8>) -> Option<(int, Seq<char>)>;

/// Relies on `serde_json::from_slice` deserializing the `jsonrpc` crate's
/// `Response` struct: success and the resulting `error` field depend on the
/// byte body alone, and `Response::error` carries the JSON-RPC `code` and
/// `message` pair when the envelope holds a non-null `error` object.
#[verifier::external_body]
fn parse_rpc_error(body: &Vec<u8>) -> (r: Option<(i32, String)>)
    ensures
        error_pair_view(r) == rpc_error_of(body@),
{
    match serde_json::from_slice::<jsonrpc::Response>(body.as_slice()) {
        Ok(response) => match response.error {
            Some(e) => Some((e.code, e.message)),
            None => None,
        },
        Err(_) => None,
    }
}

/// The status reinterpretation rule for providers that re-inspect success
/// responses: an upstream 2xx whose body carries an internal-error-coded
/// JSON-RPC error becomes 429 under rate-limit phrasing and 500 under
/// node-error phrasing; every other response keeps its upstream status.
pub open spec fn spec_reclassified_status(status: u16, err: Option<(int, Seq<char>)>) -> u16 {
    if spec_is_success(status) {
        match err {
            Some(pair) => {
                if spec_classify(pair.0, pair.1) == Verdict::RateLimited {
                    429
                } else if spec_classify(pair.0, pair.1) == Verdict::NodeError {
                    500
                } else {
                    status
                }
            },
            None => status,
        }
    } else {
        status
    }
}

/// A success status whose body carries an internal-error-coded JSON-RPC
/// error with rate-limit phrasing is reported as 429; the phrasing takes
/// precedence over any node-error phrasing.
pub proof fn lemma_rate_limit_misreport_yields_429(status: u16, code: int, message: Seq<char>)
    requires
        spec_is_success(status),
        spec_is_internal_error_code(code),
        spec_is_rate_limited_message(message),
    ensures
        spec_reclassified_status(status, Some((code, message))) == 429,
{
}

/// A success status whose body carries an internal-error-coded JSON-RPC
/// error with node-error phrasing (and no rate-limit phrasing) is reported
/// as 500.
pub proof fn lemma_node_error_misreport_yields_500(status: u16, code: int, message: Seq<char>)
    requires
        spec_is_success(status),
        spec_is_internal_error_code(code),
        !spec_is_rate_limited_message(message),
        spec_is_node_error_message(message),
    ensures
        spec_reclassified_status(status, Some((code, message))) == 500,
{
}

/// An embedded error outside the internal-error code set, or one whose
/// message matches no known pattern, leaves the upstream status in charge.
pub proof fn lemma_unrecognized_error_passes_through(status: u16, code: int, message: Seq<char>)
    requires
        !spec_is_internal_error_code(code) || (!spec_is_rate_limited_message(message)
            && !spec_is_node_error_message(message)),
    ensures
        spec_reclassified_status(status, Some((code, message))) == status,
{
}

/// A body that does not parse as a JSON-RPC envelope, or parses without an
/// `error` object, never changes the upstream status.
pub proof fn lemma_opaque_body_passes_through(status: u16)
    ensures
        spec_reclassified_status(status, None) == status,
{
}

/// A non-success upstream status is trusted as-is: reclassification only
/// ever touches responses the upstream itself called successful.
pub proof fn lemma_error_status_trusted(status: u16, err: Option<(int, Seq<char>)>)
    requires
        !spec_is_success(status),
    ensures
        spec_reclassified_status(status, err) == status,
{
}

/// Apply the status reinterpretation rule to an already-parsed JSON-RPC
/// error pair. Exact for every value of the pair, so the classification
/// logic is checkable without any upstream involved.
pub fn reclassified_status(status: u16, error: &Option<(i32, String)>) -> (r: u16)
    ensures
        r == spec_reclassified_status(status, error_pair_view(*error)),
{
    if 200 <= status && status < 300 {
        match error {
            Some(pair) => {
                match classify_rpc_error(pair.0, pair.1.as_str()) {
                    Verdict::RateLimited => 429,
                    Verdict::NodeError => 500,
                    Verdict::InternalError => status,
                    Verdict::Unclassified => status,
                }
            },
            None => status,
        }
    } else {
        status
    }
}

/// Normalize an upstream response for a provider that re-inspects success
/// statuses: parse the body as a JSON-RPC envelope, reinterpret the status,
/// and pass the body through unchanged with the content type forced to
/// `application/json`.
pub fn reclassify_response(upstream_status: u16, body: Vec<u8>) -> (r: GatewayResponse)
    ensures
        r.body@ == body@,
        r.content_type@ == "application/json"@,
        r.status == spec_reclassified_status(upstream_status, rpc_error_of(body@)),
{
    let parsed = parse_rpc_error(&body);
    let status = reclassified_status(upstream_status, &parsed);
    GatewayResponse { status, body, content_type: String::from_str("application/json") }
}

} // verus!
