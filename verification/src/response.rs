//! The gateway's response envelope and local error taxonomy.
use vstd::prelude::*;

verus! {

/// Errors of the proxying layer itself, distinct from anything the upstream
/// reported inside a response body.
#[derive(Debug, Clone, PartialEq, Eq, Structural)]
pub enum RpcError {
    /// The requested chain identifier is not in this provider's mapping;
    /// local and non-retryable, the caller must pick another provider.
    ChainNotFound,
    /// A network, TLS or connect failure talking to the upstream; the
    /// external router may retry against a different provider.
    Transport,
}

impl RpcError {
    /// A short human-readable description of the error.
    pub fn message(&self) -> (r: &'static str)
        ensures
            *self == RpcError::ChainNotFound ==> r@ == "chain not found"@,
            *self == RpcError::Transport ==> r@ == "transport error"@,
    {
        match self {
            RpcError::ChainNotFound => "chain not found",
            RpcError::Transport => "transport error",
        }
    }
}

/// The result type of the proxying layer.
pub type RpcResult<T> = Result<T, RpcError>;

/// A success (2xx) HTTP status.
pub open spec fn spec_is_success(status: u16) -> bool {
    200 <= status && status < 300
}

/// The normalized response handed back to the caller: a status, the raw
/// body bytes, and the content type the transport layer must set.
#[derive(Debug)]
pub struct GatewayResponse {
    pub status: u16,
    pub body: Vec<u8>,
    pub content_type: String,
}

/// The outbound HTTP request a provider asks the transport layer to issue:
/// always a POST with an `application/json` content type and the inbound
/// body unchanged.
#[derive(Debug)]
pub struct OutboundHttpRequest {
    pub method: String,
    pub uri: String,
    pub content_type: String,
    pub body: Vec<u8>,
}

} // verus!
