use rpc_gateway::caip19::Caip19Asset;
use rpc_gateway::exchanges::{
    get_exchange_by_id, get_supported_exchanges, is_feature_enabled_for_project_id,
    BuyTransactionStatus, ExchangeError, ExchangeProvider, ExchangeType, GetBuyStatusResponse,
};

#[test]
fn caip19_parse_splits_segments() {
    let asset = Caip19Asset::parse("eip155:1/erc20:0x6b175474e89094c44da98b954eedeac495271d0f")
        .unwrap();
    assert_eq!(asset.chain_namespace, "eip155");
    assert_eq!(asset.chain_reference, "1");
    assert_eq!(asset.asset_namespace, "erc20");
    assert_eq!(asset.asset_reference, "0x6b175474e89094c44da98b954eedeac495271d0f");

    let asset = Caip19Asset::parse("solana:mainnet/token:abc").unwrap();
    assert_eq!(asset.chain_namespace, "solana");
    assert_eq!(asset.asset_namespace, "token");
}

#[test]
fn caip19_parse_rejects_malformed_input() {
    assert!(Caip19Asset::parse("").is_none());
    assert!(Caip19Asset::parse("eip155:1").is_none());
    assert!(Caip19Asset::parse("eip155/erc20:0xabc").is_none());
    assert!(Caip19Asset::parse("eip155:1/erc20").is_none());
    assert!(Caip19Asset::parse("ei:1/erc20:0xabc").is_none());
    assert!(Caip19Asset::parse("waytoolongns:1/erc20:0xabc").is_none());
    assert!(Caip19Asset::parse("EIP155:1/erc20:0xabc").is_none());
    assert!(Caip19Asset::parse("eip155:1/erc20:0x abc").is_none());
    assert!(Caip19Asset::parse("eip155:/erc20:0xabc").is_none());
}

#[test]
fn exchange_ids_round_trip() {
    assert!(matches!(ExchangeType::from_id("binance"), Some(ExchangeType::Binance)));
    assert!(matches!(ExchangeType::from_id("coinbase"), Some(ExchangeType::Coinbase)));
    assert!(matches!(ExchangeType::from_id("reown_test"), Some(ExchangeType::ReownTest)));
    assert!(ExchangeType::from_id("kraken").is_none());
    assert!(ExchangeType::from_id("").is_none());
    assert!(ExchangeType::from_id("Binance").is_none());
}

#[test]
fn provider_identity_matches_type() {
    for t in [ExchangeType::Binance, ExchangeType::Coinbase, ExchangeType::ReownTest] {
        let provider = t.provider();
        let exchange = t.to_exchange();
        assert_eq!(provider.id(), exchange.id);
        assert_eq!(provider.name(), exchange.name);
        assert!(provider.image_url().is_none());
    }
    assert_eq!(ExchangeType::Binance.to_exchange().name, "Binance");
    assert_eq!(ExchangeType::Coinbase.to_exchange().id, "coinbase");
}

#[test]
fn exchange_by_id_resolves() {
    let exchange = get_exchange_by_id("binance").unwrap();
    assert_eq!(exchange.id, "binance");
    assert_eq!(exchange.name, "Binance");
    assert!(get_exchange_by_id("nope").is_none());
}

#[test]
fn asset_support_by_chain_namespace() {
    let evm = Caip19Asset::parse("eip155:1/erc20:0xabc").unwrap();
    let sol = Caip19Asset::parse("solana:mainnet/token:abc").unwrap();
    let cosmos = Caip19Asset::parse("cosmos:hub/native:atom").unwrap();
    assert!(ExchangeType::Binance.is_asset_supported(&evm));
    assert!(ExchangeType::Binance.is_asset_supported(&sol));
    assert!(!ExchangeType::Binance.is_asset_supported(&cosmos));
    assert!(ExchangeType::Coinbase.is_asset_supported(&evm));
    assert!(!ExchangeType::Coinbase.is_asset_supported(&sol));
    assert!(ExchangeType::ReownTest.is_asset_supported(&cosmos));
}

#[test]
fn supported_exchanges_without_asset_lists_all() {
    let list = get_supported_exchanges(None).unwrap();
    let ids: Vec<&str> = list.iter().map(|e| e.id.as_str()).collect();
    assert_eq!(ids, vec!["binance", "coinbase", "reown_test"]);
    let names: Vec<&str> = list.iter().map(|e| e.name.as_str()).collect();
    assert_eq!(names, vec!["Binance", "Coinbase", "Reown Test"]);
    assert!(list.iter().all(|e| e.image_url.is_none()));
}

#[test]
fn supported_exchanges_filters_by_asset() {
    let list = get_supported_exchanges(Some("eip155:1/erc20:0xabc".to_string())).unwrap();
    let ids: Vec<&str> = list.iter().map(|e| e.id.as_str()).collect();
    assert_eq!(ids, vec!["binance", "coinbase", "reown_test"]);

    let list = get_supported_exchanges(Some("solana:mainnet/token:abc".to_string())).unwrap();
    let ids: Vec<&str> = list.iter().map(|e| e.id.as_str()).collect();
    assert_eq!(ids, vec!["binance", "reown_test"]);

    let list = get_supported_exchanges(Some("cosmos:hub/native:atom".to_string())).unwrap();
    let ids: Vec<&str> = list.iter().map(|e| e.id.as_str()).collect();
    assert_eq!(ids, vec!["reown_test"]);
}

#[test]
fn supported_exchanges_rejects_invalid_asset() {
    let err = get_supported_exchanges(Some("not an asset".to_string())).unwrap_err();
    match err {
        ExchangeError::ValidationError(m) => assert_eq!(m, "invalid CAIP-19 asset"),
        other => panic!("unexpected error: {:?}", other),
    }
}

#[test]
fn feature_gate_allows_testing_project() {
    let testing = "test-project".to_string();
    let result = is_feature_enabled_for_project_id(Some(&testing), None, "test-project");
    assert!(result.is_ok());
}

#[test]
fn feature_gate_requires_allow_list() {
    let result = is_feature_enabled_for_project_id(None, None, "p1");
    match result.unwrap_err() {
        ExchangeError::FeatureNotEnabled(m) => assert_eq!(m, "Feature is not enabled"),
        other => panic!("unexpected error: {:?}", other),
    }
}

#[test]
fn feature_gate_checks_allow_list_membership() {
    let allowed = vec!["p1".to_string(), "p2".to_string()];
    assert!(is_feature_enabled_for_project_id(None, Some(&allowed), "p2").is_ok());
    let testing = "tp".to_string();
    assert!(is_feature_enabled_for_project_id(Some(&testing), Some(&allowed), "p1").is_ok());
    match is_feature_enabled_for_project_id(Some(&testing), Some(&allowed), "p3").unwrap_err() {
        ExchangeError::FeatureNotEnabled(m) => {
            assert_eq!(m, "Project is not allowed to use this feature")
        },
        other => panic!("unexpected error: {:?}", other),
    }
}

#[test]
fn exchange_error_messages() {
    assert_eq!(
        ExchangeError::ConfigurationError("missing key".to_string()).message(),
        "Configuration error: missing key"
    );
    assert_eq!(
        ExchangeError::ValidationError("bad asset".to_string()).message(),
        "Validation error: bad asset"
    );
    assert_eq!(
        ExchangeError::GetPayUrlError("upstream down".to_string()).message(),
        "Get pay url error: upstream down"
    );
    assert_eq!(
        ExchangeError::FeatureNotEnabled("off".to_string()).message(),
        "Feature not enabled: off"
    );
    assert_eq!(ExchangeError::InternalError("oops".to_string()).message(), "Internal error");
}

#[test]
fn buy_status_response_holds_status() {
    let response = GetBuyStatusResponse {
        status: BuyTransactionStatus::InProgress,
        tx_hash: None,
    };
    assert_eq!(response.status, BuyTransactionStatus::InProgress);
    assert!(response.tx_hash.is_none());
    let done = GetBuyStatusResponse {
        status: BuyTransactionStatus::Success,
        tx_hash: Some("0xdead".to_string()),
    };
    assert_eq!(done.status, BuyTransactionStatus::Success);
}
