//! The Allnodes upstream provider.
//!
//! Allnodes fronts each chain on its own subdomain and embeds the API key
//! as the URL path, on port 8545 for HTTP and 8546 for WebSocket. Its HTTP
//! responses are re-inspected for JSON-RPC errors mis-reported under a
//! success status.
use crate::chains::{map_of_pairs, ChainMap};
use crate::env::AllnodesConfig;
use crate::providers::{
    reclassify_response, rpc_error_of, spec_reclassified_status, Provider, ProviderKind,
    RateLimited, RpcProvider, RpcProviderFactory, RpcQueryParams, RpcWsProvider,
};
use crate::response::{GatewayResponse, OutboundHttpRequest, RpcError, RpcResult};
use vstd::prelude::*;

verus! {

/// The HTTP URI for a mapped network token:
/// `https://{token}.allnodes.me:8545/{api_key}`.
pub open spec fn spec_allnodes_http_uri(token: Seq<char>, api_key: Seq<char>) -> Seq<char> {
    "https://"@ + token + ".allnodes.me:8545/"@ + api_key
}

/// The WebSocket URI for a mapped network token:
/// `wss://{token}.allnodes.me:8546/{api_key}`.
pub open spec fn spec_allnodes_ws_uri(token: Seq<char>, api_key: Seq<char>) -> Seq<char> {
    "wss://"@ + token + ".allnodes.me:8546/"@ + api_key
}

/// The Allnodes HTTP forwarding provider. The outbound transport client is
/// owned by the surrounding process, not by this state.
pub struct AllnodesProvider {
    pub supported_chains: ChainMap,
    pub api_key: String,
}

/// The Allnodes WebSocket bridging provider, with its own (possibly
/// different) chain mapping.
pub struct AllnodesWsProvider {
    pub supported_chains: ChainMap,
    pub api_key: String,
}

impl Provider for AllnodesProvider {
    open spec fn wf(&self) -> bool {
        self.supported_chains.wf()
    }

    open spec fn chain_map(&self) -> Map<Seq<char>, Seq<char>> {
        self.supported_chains@
    }

    open spec fn kind(&self) -> ProviderKind {
        ProviderKind::Allnodes
    }

    fn supports_caip_chainid(&self, chain_id: &str) -> bool {
        self.supported_chains.contains_key(chain_id)
    }

    fn supported_caip_chains(&self) -> Vec<String> {
        self.supported_chains.keys()
    }

    fn provider_kind(&self) -> ProviderKind {
        ProviderKind::Allnodes
    }
}

impl RateLimited for AllnodesProvider {
    fn is_rate_limited(&self, response: &GatewayResponse) -> bool {
        response.status == 429
    }
}

impl AllnodesProvider {
    /// Build the upstream HTTP URI around a mapped network token.
    fn request_uri(&self, token: &String) -> (r: String)
        ensures
            r@ == spec_allnodes_http_uri(token@, self.api_key@),
    {
        let mut uri = String::from_str("https://");
        uri.append(token.as_str());
        uri.append(".allnodes.me:8545/");
        uri.append(self.api_key.as_str());
        proof {
            assert(uri@ =~= spec_allnodes_http_uri(token@, self.api_key@));
        }
        uri
    }
}

impl RpcProvider for AllnodesProvider {
    open spec fn spec_request_uri(&self, token: Seq<char>) -> Seq<char> {
        spec_allnodes_http_uri(token, self.api_key@)
    }

    open spec fn spec_final_status(&self, upstream_status: u16, body: Seq<u8>) -> u16 {
        spec_reclassified_status(upstream_status, rpc_error_of(body))
    }

    fn plan_proxy(&self, chain_id: &str, body: Vec<u8>) -> RpcResult<OutboundHttpRequest> {
        match self.supported_chains.get(chain_id) {
            Some(token) => {
                let uri = self.request_uri(token);
                Ok(
                    OutboundHttpRequest {
                        method: String::from_str("POST"),
                        uri,
                        content_type: String::from_str("application/json"),
                        body,
                    },
                )
            },
            None => Err(RpcError::ChainNotFound),
        }
    }

    fn finalize_response(&self, upstream_status: u16, body: Vec<u8>) -> GatewayResponse {
        reclassify_response(upstream_status, body)
    }
}

impl RpcProviderFactory<AllnodesConfig> for AllnodesProvider {
    open spec fn constructed_from(&self, provider_config: &AllnodesConfig) -> bool {
        self.chain_map() == map_of_pairs(provider_config.supported_chains@) && self.api_key@
            == provider_config.api_key@
    }

    fn new(provider_config: &AllnodesConfig) -> Self {
        AllnodesProvider {
            supported_chains: ChainMap::from_pairs(&provider_config.supported_chains),
            api_key: provider_config.api_key.clone(),
        }
    }
}

impl Provider for AllnodesWsProvider {
    open spec fn wf(&self) -> bool {
        self.supported_chains.wf()
    }

    open spec fn chain_map(&self) -> Map<Seq<char>, Seq<char>> {
        self.supported_chains@
    }

    open spec fn kind(&self) -> ProviderKind {
        ProviderKind::Allnodes
    }

    fn supports_caip_chainid(&self, chain_id: &str) -> bool {
        self.supported_chains.contains_key(chain_id)
    }

    fn supported_caip_chains(&self) -> Vec<String> {
        self.supported_chains.keys()
    }

    fn provider_kind(&self) -> ProviderKind {
        ProviderKind::Allnodes
    }
}

impl RateLimited for AllnodesWsProvider {
    fn is_rate_limited(&self, response: &GatewayResponse) -> bool {
        response.status == 429
    }
}

impl RpcWsProvider for AllnodesWsProvider {
    open spec fn spec_ws_uri(&self, token: Seq<char>) -> Seq<char> {
        spec_allnodes_ws_uri(token, self.api_key@)
    }

    fn plan_proxy(&self, query_params: &RpcQueryParams) -> RpcResult<String> {
        match self.supported_chains.get(query_params.chain_id.as_str()) {
            Some(token) => {
                let mut uri = String::from_str("wss://");
                uri.append(token.as_str());
                uri.append(".allnodes.me:8546/");
                uri.append(self.api_key.as_str());
                proof {
                    assert(uri@ =~= spec_allnodes_ws_uri(token@, self.api_key@));
                }
                Ok(uri)
            },
            None => Err(RpcError::ChainNotFound),
        }
    }
}

impl RpcProviderFactory<AllnodesConfig> for AllnodesWsProvider {
    open spec fn constructed_from(&self, provider_config: &AllnodesConfig) -> bool {
        self.chain_map() == map_of_pairs(provider_config.supported_ws_chains@) && self.api_key@
            == provider_config.api_key@
    }

    fn new(provider_config: &AllnodesConfig) -> Self {
        AllnodesWsProvider {
            supported_chains: ChainMap::from_pairs(&provider_config.supported_ws_chains),
            api_key: provider_config.api_key.clone(),
        }
    }
}

} // verus!
