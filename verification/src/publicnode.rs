//! The Publicnode upstream provider.
//!
//! Publicnode fronts each chain on its own subdomain with no embedded
//! credential. Like every HTTP forwarding provider, its success responses
//! are re-inspected for JSON-RPC errors mis-reported under a success
//! status.
use crate::chains::{map_of_pairs, ChainMap};
use crate::env::PublicnodeConfig;
use crate::providers::{
    reclassify_response, rpc_error_of, spec_reclassified_status, Provider, ProviderKind,
    RateLimited, RpcProvider, RpcProviderFactory,
};
use crate::response::{GatewayResponse, OutboundHttpRequest, RpcError, RpcResult};
use vstd::prelude::*;

verus! {

/// The HTTP URI for a mapped network token: `https://{token}.publicnode.com`.
pub open spec fn spec_publicnode_uri(token: Seq<char>) -> Seq<char> {
    "https://"@ + token + ".publicnode.com"@
}

/// The Publicnode HTTP forwarding provider. The outbound transport client
/// is owned by the surrounding process, not by this state.
pub struct PublicnodeProvider {
    pub supported_chains: ChainMap,
}

impl Provider for PublicnodeProvider {
    open spec fn wf(&self) -> bool {
        self.supported_chains.wf()
    }

    open spec fn chain_map(&self) -> Map<Seq<char>, Seq<char>> {
        self.supported_chains@
    }

    open spec fn kind(&self) -> ProviderKind {
        ProviderKind::Publicnode
    }

    fn supports_caip_chainid(&self, chain_id: &str) -> bool {
        self.supported_chains.contains_key(chain_id)
    }

    fn supported_caip_chains(&self) -> Vec<String> {
        self.supported_chains.keys()
    }

    fn provider_kind(&self) -> ProviderKind {
        ProviderKind::Publicnode
    }
}

impl RateLimited for PublicnodeProvider {
    fn is_rate_limited(&self, response: &GatewayResponse) -> bool {
        response.status == 429
    }
}

impl RpcProvider for PublicnodeProvider {
    open spec fn spec_request_uri(&self, token: Seq<char>) -> Seq<char> {
        spec_publicnode_uri(token)
    }

    open spec fn spec_final_status(&self, upstream_status: u16, body: Seq<u8>) -> u16 {
        spec_reclassified_status(upstream_status, rpc_error_of(body))
    }

    fn plan_proxy(&self, chain_id: &str, body: Vec<u8>) -> RpcResult<OutboundHttpRequest> {
        match self.supported_chains.get(chain_id) {
            Some(token) => {
                let mut uri = String::from_str("https://");
                uri.append(token.as_str());
                uri.append(".publicnode.com");
                proof {
                    assert(uri@ =~= spec_publicnode_uri(token@));
                }
                Ok(
                    OutboundHttpRequest {
                        method: String::from_str("POST"),
                        uri,
                        content_type: String::from_str("application/json"),
                        body,
                    },
                )
            },
            None => Err(RpcError::ChainNotFound),
        }
    }

    fn finalize_response(&self, upstream_status: u16, body: Vec<u8>) -> GatewayResponse {
        reclassify_response(upstream_status, body)
    }
}

impl RpcProviderFactory<PublicnodeConfig> for PublicnodeProvider {
    open spec fn constructed_from(&self, provider_config: &PublicnodeConfig) -> bool {
        self.chain_map() == map_of_pairs(provider_config.supported_chains@)
    }

    fn new(provider_config: &PublicnodeConfig) -> Self {
        PublicnodeProvider {
            supported_chains: ChainMap::from_pairs(&provider_config.supported_chains),
        }
    }
}

} // verus!
