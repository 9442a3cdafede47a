use rpc_gateway::allnodes::{AllnodesProvider, AllnodesWsProvider};
use rpc_gateway::bridge::{BridgeAction, BridgeEvent, BridgeState, WsFrame};
use rpc_gateway::classifier::{
    classify_rpc_error, is_internal_error_rpc_code, is_node_error_rpc_message,
    is_rate_limited_error_rpc_message, Verdict,
};
use rpc_gateway::env::{AllnodesConfig, PublicnodeConfig};
use rpc_gateway::providers::{
    reclassify_response, Provider, ProviderKind, RateLimited, RpcProvider, RpcProviderFactory,
    RpcQueryParams, RpcWsProvider,
};
use rpc_gateway::publicnode::PublicnodeProvider;
use rpc_gateway::response::{GatewayResponse, RpcError};

fn response_with_status(status: u16, body: Vec<u8>) -> GatewayResponse {
    GatewayResponse { status, body, content_type: "application/json".to_string() }
}

fn allnodes_config() -> AllnodesConfig {
    AllnodesConfig {
        supported_chains: vec![
            ("eip155:1".to_string(), "ethereum".to_string()),
            ("eip155:137".to_string(), "polygon".to_string()),
        ],
        supported_ws_chains: vec![("eip155:1".to_string(), "ethereum".to_string())],
        api_key: "testkey".to_string(),
    }
}

fn publicnode_config() -> PublicnodeConfig {
    PublicnodeConfig {
        supported_chains: vec![
            ("eip155:1".to_string(), "ethereum".to_string()),
            ("eip155:56".to_string(), "bsc".to_string()),
        ],
    }
}

#[test]
fn internal_error_code_set() {
    assert!(is_internal_error_rpc_code(-32603));
    assert!(is_internal_error_rpc_code(-32000));
    assert!(is_internal_error_rpc_code(-32050));
    assert!(is_internal_error_rpc_code(-32099));
    assert!(!is_internal_error_rpc_code(-32100));
    assert!(!is_internal_error_rpc_code(-32602));
    assert!(!is_internal_error_rpc_code(-32601));
    assert!(!is_internal_error_rpc_code(0));
    assert!(!is_internal_error_rpc_code(429));
}

#[test]
fn rate_limit_message_patterns() {
    assert!(is_rate_limited_error_rpc_message("rate limit exceeded"));
    assert!(is_rate_limited_error_rpc_message("Rate Limit Exceeded"));
    assert!(is_rate_limited_error_rpc_message("client quota reached"));
    assert!(is_rate_limited_error_rpc_message("Too Many Requests, slow down"));
    assert!(!is_rate_limited_error_rpc_message("header not found"));
    assert!(!is_rate_limited_error_rpc_message("execution reverted"));
    assert!(!is_rate_limited_error_rpc_message(""));
}

#[test]
fn node_error_message_patterns() {
    assert!(is_node_error_rpc_message("header not found"));
    assert!(is_node_error_rpc_message("Block Not Found"));
    assert!(is_node_error_rpc_message("node is syncing"));
    assert!(!is_node_error_rpc_message("rate limit exceeded"));
    assert!(!is_node_error_rpc_message("invalid params"));
}

#[test]
fn classification_precedence() {
    assert_eq!(
        classify_rpc_error(-32603, "rate limit while block not found"),
        Verdict::RateLimited
    );
    assert_eq!(classify_rpc_error(-32603, "block not found"), Verdict::NodeError);
    assert_eq!(classify_rpc_error(-32603, "something odd"), Verdict::InternalError);
    assert_eq!(classify_rpc_error(-32601, "rate limit"), Verdict::Unclassified);
}

#[test]
fn allnodes_plan_proxy_builds_url() {
    let provider = AllnodesProvider::new(&allnodes_config());
    let req = provider.plan_proxy("eip155:1", b"{}".to_vec()).unwrap();
    assert_eq!(req.method, "POST");
    assert_eq!(req.content_type, "application/json");
    assert_eq!(req.uri, "https://ethereum.allnodes.me:8545/testkey");
    assert_eq!(req.body, b"{}".to_vec());
    let req = provider.plan_proxy("eip155:137", b"[1]".to_vec()).unwrap();
    assert_eq!(req.uri, "https://polygon.allnodes.me:8545/testkey");
}

#[test]
fn allnodes_unknown_chain_is_chain_not_found() {
    let provider = AllnodesProvider::new(&allnodes_config());
    let err = provider.plan_proxy("eip155:10", b"{}".to_vec()).unwrap_err();
    assert_eq!(err, RpcError::ChainNotFound);
    assert_eq!(err.message(), "chain not found");
}

#[test]
fn allnodes_ws_plan_proxy_builds_url() {
    let provider = AllnodesWsProvider::new(&allnodes_config());
    let params = RpcQueryParams {
        chain_id: "eip155:1".to_string(),
        project_id: "p1".to_string(),
    };
    let uri = provider.plan_proxy(&params).unwrap();
    assert_eq!(uri, "wss://ethereum.allnodes.me:8546/testkey");
    let unknown = RpcQueryParams {
        chain_id: "eip155:137".to_string(),
        project_id: "p1".to_string(),
    };
    assert_eq!(provider.plan_proxy(&unknown).unwrap_err(), RpcError::ChainNotFound);
}

#[test]
fn publicnode_plan_proxy_builds_url() {
    let provider = PublicnodeProvider::new(&publicnode_config());
    let req = provider.plan_proxy("eip155:56", b"{}".to_vec()).unwrap();
    assert_eq!(req.uri, "https://bsc.publicnode.com");
    assert_eq!(req.method, "POST");
    assert_eq!(
        provider.plan_proxy("eip155:2", b"{}".to_vec()).unwrap_err(),
        RpcError::ChainNotFound
    );
}

#[test]
fn provider_capabilities() {
    let provider = AllnodesProvider::new(&allnodes_config());
    assert!(provider.supports_caip_chainid("eip155:1"));
    assert!(provider.supports_caip_chainid("eip155:137"));
    assert!(!provider.supports_caip_chainid("eip155:10"));
    let mut chains = provider.supported_caip_chains();
    chains.sort();
    assert_eq!(chains, vec!["eip155:1".to_string(), "eip155:137".to_string()]);
    assert_eq!(provider.provider_kind(), ProviderKind::Allnodes);
    assert_eq!(provider.provider_kind().name(), "allnodes");
    let ws = AllnodesWsProvider::new(&allnodes_config());
    assert_eq!(ws.supported_caip_chains(), vec!["eip155:1".to_string()]);
    let pn = PublicnodeProvider::new(&publicnode_config());
    assert_eq!(pn.provider_kind().name(), "publicnode");
}

#[test]
fn duplicate_chain_pairs_first_entry_wins() {
    let cfg = AllnodesConfig {
        supported_chains: vec![
            ("eip155:1".to_string(), "ethereum".to_string()),
            ("eip155:1".to_string(), "other".to_string()),
        ],
        supported_ws_chains: vec![],
        api_key: "k".to_string(),
    };
    let provider = AllnodesProvider::new(&cfg);
    let req = provider.plan_proxy("eip155:1", b"{}".to_vec()).unwrap();
    assert_eq!(req.uri, "https://ethereum.allnodes.me:8545/k");
    assert_eq!(provider.supported_caip_chains(), vec!["eip155:1".to_string()]);
}

#[test]
fn misreported_rate_limit_becomes_429() {
    let provider = AllnodesProvider::new(&allnodes_config());
    let body =
        br#"{"jsonrpc":"2.0","id":1,"error":{"code":-32603,"message":"Rate limit exceeded"}}"#
            .to_vec();
    let response = provider.finalize_response(200, body.clone());
    assert_eq!(response.status, 429);
    assert_eq!(response.body, body);
    assert_eq!(response.content_type, "application/json");
    assert!(provider.is_rate_limited(&response));
}

#[test]
fn misreported_node_error_becomes_500() {
    let provider = AllnodesProvider::new(&allnodes_config());
    let body =
        br#"{"jsonrpc":"2.0","id":1,"error":{"code":-32000,"message":"header not found"}}"#
            .to_vec();
    let response = provider.finalize_response(200, body.clone());
    assert_eq!(response.status, 500);
    assert_eq!(response.body, body);
    assert!(!provider.is_rate_limited(&response));
}

#[test]
fn successful_result_passes_through() {
    let provider = AllnodesProvider::new(&allnodes_config());
    let body = br#"{"jsonrpc":"2.0","id":1,"result":"0x1"}"#.to_vec();
    let response = provider.finalize_response(200, body.clone());
    assert_eq!(response.status, 200);
    assert_eq!(response.body, body);
    assert_eq!(response.content_type, "application/json");
}

#[test]
fn client_error_code_passes_through() {
    let body =
        br#"{"jsonrpc":"2.0","id":1,"error":{"code":-32601,"message":"rate limit"}}"#.to_vec();
    let response = reclassify_response(200, body.clone());
    assert_eq!(response.status, 200);
    assert_eq!(response.body, body);
}

#[test]
fn non_json_body_passes_through() {
    let provider = AllnodesProvider::new(&allnodes_config());
    let body = b"<html>service unavailable</html>".to_vec();
    let response = provider.finalize_response(200, body.clone());
    assert_eq!(response.status, 200);
    assert_eq!(response.body, body);
    assert_eq!(response.content_type, "application/json");
}

#[test]
fn null_error_field_passes_through() {
    let body = br#"{"jsonrpc":"2.0","id":1,"result":"0x0","error":null}"#.to_vec();
    let response = reclassify_response(200, body.clone());
    assert_eq!(response.status, 200);
    assert_eq!(response.body, body);
}

#[test]
fn envelope_without_id_passes_through() {
    let body = br#"{"jsonrpc":"2.0","error":{"code":-32603,"message":"rate limit"}}"#.to_vec();
    let response = reclassify_response(200, body.clone());
    assert_eq!(response.status, 200);
    assert_eq!(response.body, body);
}

#[test]
fn error_status_is_trusted_as_is() {
    let body =
        br#"{"jsonrpc":"2.0","id":1,"error":{"code":-32603,"message":"rate limit"}}"#.to_vec();
    let response = reclassify_response(503, body.clone());
    assert_eq!(response.status, 503);
    assert_eq!(response.body, body);
}

#[test]
fn publicnode_reclassifies_misreported_errors() {
    let provider = PublicnodeProvider::new(&publicnode_config());
    let body =
        br#"{"jsonrpc":"2.0","id":1,"error":{"code":-32603,"message":"rate limit"}}"#.to_vec();
    let response = provider.finalize_response(200, body.clone());
    assert_eq!(response.status, 429);
    assert_eq!(response.body, body);
    assert_eq!(response.content_type, "application/json");
    let node_body =
        br#"{"jsonrpc":"2.0","id":1,"error":{"code":-32000,"message":"node is syncing"}}"#
            .to_vec();
    let response = provider.finalize_response(200, node_body.clone());
    assert_eq!(response.status, 500);
    assert_eq!(response.body, node_body);
}

#[test]
fn publicnode_passes_plain_results_through() {
    let provider = PublicnodeProvider::new(&publicnode_config());
    let body = br#"{"jsonrpc":"2.0","id":1,"result":"0x10"}"#.to_vec();
    let response = provider.finalize_response(200, body.clone());
    assert_eq!(response.status, 200);
    assert_eq!(response.body, body);
    assert_eq!(response.content_type, "application/json");
}

#[test]
fn rate_limited_iff_status_429() {
    let provider = AllnodesProvider::new(&allnodes_config());
    let direct = response_with_status(429, b"busy".to_vec());
    assert!(provider.is_rate_limited(&direct));
    let reclassified = reclassify_response(
        200,
        br#"{"jsonrpc":"2.0","id":1,"error":{"code":-32005,"message":"quota exceeded"}}"#
            .to_vec(),
    );
    assert_eq!(reclassified.status, 429);
    assert!(provider.is_rate_limited(&reclassified));
    for status in [200u16, 400, 430, 500, 503] {
        let response = response_with_status(status, Vec::new());
        assert!(!provider.is_rate_limited(&response));
    }
    let ws = AllnodesWsProvider::new(&allnodes_config());
    assert!(ws.is_rate_limited(&response_with_status(429, Vec::new())));
    assert!(!ws.is_rate_limited(&response_with_status(500, Vec::new())));
}

#[test]
fn independent_calls_for_different_chains() {
    let provider = AllnodesProvider::new(&allnodes_config());
    let first = provider.plan_proxy("eip155:1", b"{\"id\":1}".to_vec()).unwrap();
    let second = provider.plan_proxy("eip155:137", b"{\"id\":2}".to_vec()).unwrap();
    assert_eq!(first.uri, "https://ethereum.allnodes.me:8545/testkey");
    assert_eq!(second.uri, "https://polygon.allnodes.me:8545/testkey");
    assert_eq!(first.body, b"{\"id\":1}".to_vec());
    assert_eq!(second.body, b"{\"id\":2}".to_vec());
    let again = provider.plan_proxy("eip155:1", b"{\"id\":1}".to_vec()).unwrap();
    assert_eq!(again.uri, first.uri);
}

#[test]
fn bridge_relays_frames_in_order() {
    let mut state = BridgeState::begin();
    let frames = [
        WsFrame::Text("first".to_string()),
        WsFrame::Binary(vec![1, 2, 3]),
        WsFrame::Text("second".to_string()),
    ];
    for frame in frames.iter() {
        let action = state.step(BridgeEvent::InboundFrame(frame.clone()));
        assert_eq!(action, BridgeAction::ForwardToOutbound(frame.clone()));
        assert!(state.is_open());
    }
    let action = state.step(BridgeEvent::OutboundFrame(WsFrame::Text("reply".to_string())));
    assert_eq!(action, BridgeAction::ForwardToInbound(WsFrame::Text("reply".to_string())));
    assert!(state.is_open());
}

#[test]
fn bridge_close_frame_is_relayed_then_session_ends() {
    let mut state = BridgeState::begin();
    let action = state.step(BridgeEvent::InboundFrame(WsFrame::Close));
    assert_eq!(action, BridgeAction::ForwardToOutbound(WsFrame::Close));
    assert!(!state.is_open());

    let mut state = BridgeState::begin();
    let action = state.step(BridgeEvent::OutboundFrame(WsFrame::Close));
    assert_eq!(action, BridgeAction::ForwardToInbound(WsFrame::Close));
    assert!(!state.is_open());
}

#[test]
fn bridge_disconnect_closes_both() {
    let mut state = BridgeState::begin();
    assert_eq!(state.step(BridgeEvent::InboundGone), BridgeAction::CloseBoth);
    assert!(!state.is_open());

    let mut state = BridgeState::begin();
    assert_eq!(state.step(BridgeEvent::OutboundGone), BridgeAction::CloseBoth);
    assert!(!state.is_open());
}

#[test]
fn bridge_ping_pong_preserved() {
    let mut state = BridgeState::begin();
    let action = state.step(BridgeEvent::InboundFrame(WsFrame::Ping(vec![9])));
    assert_eq!(action, BridgeAction::ForwardToOutbound(WsFrame::Ping(vec![9])));
    let action = state.step(BridgeEvent::OutboundFrame(WsFrame::Pong(vec![9])));
    assert_eq!(action, BridgeAction::ForwardToInbound(WsFrame::Pong(vec![9])));
    assert!(state.is_open());
}
