//! Typed per-provider configuration fragments.
//!
//! Configuration loading itself happens outside this crate; providers are
//! built from these plain fragments once at startup and are immutable
//! afterwards.
use vstd::prelude::*;

verus! {

/// Configuration for the Allnodes provider: chain-identifier to subdomain
/// token pairs for HTTP and (separately) for WebSocket, and the API key
/// embedded in upstream URLs.
pub struct AllnodesConfig {
    pub supported_chains: Vec<(String, String)>,
    pub supported_ws_chains: Vec<(String, String)>,
    pub api_key: String,
}

/// Configuration for the Publicnode provider: chain-identifier to subdomain
/// token pairs. Publicnode embeds no credential in its URLs.
pub struct PublicnodeConfig {
    pub supported_chains: Vec<(String, String)>,
}

} // verus!
