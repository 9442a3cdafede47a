//! The fiat-onramp exchange catalogue.
//!
//! The gateway exposes a small, closed set of purchase providers
//! ("exchanges"), each identified by a stable id. This module owns the
//! catalogue itself: enumerating exchanges, resolving one by id, testing
//! whether an exchange supports a CAIP-19 asset, and the feature gate over
//! calling project ids. The purchase flows (buy-URL generation, buy-status
//! polling) delegate to the third-party purchase APIs and live with the
//! transport code outside this crate.
use crate::caip19::{
    spec_asset_part, spec_chain_part, spec_segment_head, spec_valid_caip19, Caip19Asset,
};
use crate::text::{constant_time_str_eq, str_eq};
use vstd::prelude::*;

verus! {

/// Configuration of the exchange integrations, as loaded by the process.
#[derive(Debug, Clone)]
pub struct Config {
    pub coinbase_project_id: Option<String>,
    pub coinbase_key_name: Option<String>,
    pub coinbase_key_secret: Option<String>,
    pub binance_client_id: Option<String>,
    pub binance_token: Option<String>,
    pub binance_key: Option<String>,
    pub binance_host: Option<String>,
    pub allowed_project_ids: Option<Vec<String>>,
}

/// The caller-facing description of one exchange.
#[derive(Debug, Clone)]
pub struct Exchange {
    pub id: String,
    pub name: String,
    pub image_url: Option<String>,
}

/// Parameters of a buy-status poll.
pub struct GetBuyStatusParams {
    pub session_id: String,
}

/// The lifecycle state of a purchase.
#[derive(Debug, Clone, Copy, PartialEq, Eq, Structural)]
pub enum BuyTransactionStatus {
    Unknown,
    InProgress,
    Success,
    Failed,
}

/// The result of a buy-status poll.
#[derive(Debug, Clone)]
pub struct GetBuyStatusResponse {
    pub status: BuyTransactionStatus,
    pub tx_hash: Option<String>,
}

/// Errors of the exchange layer.
#[derive(Debug, Clone)]
pub enum ExchangeError {
    ConfigurationError(String),
    ValidationError(String),
    GetPayUrlError(String),
    FeatureNotEnabled(String),
    InternalError(String),
}

impl ExchangeError {
    /// A human-readable description of the error.
    pub fn message(&self) -> (r: String)
        ensures
            match self {
                ExchangeError::ConfigurationError(m) => r@ == "Configuration error: "@ + m@,
                ExchangeError::ValidationError(m) => r@ == "Validation error: "@ + m@,
                ExchangeError::GetPayUrlError(m) => r@ == "Get pay url error: "@ + m@,
                ExchangeError::FeatureNotEnabled(m) => r@ == "Feature not enabled: "@ + m@,
                ExchangeError::InternalError(m) => r@ == "Internal error"@,
            },
    {
        match self {
            ExchangeError::ConfigurationError(m) => String::from_str(
                "Configuration error: ",
            ).concat(m.as_str()),
            ExchangeError::ValidationError(m) => String::from_str("Validation error: ").concat(
                m.as_str(),
            ),
            ExchangeError::GetPayUrlError(m) => String::from_str("Get pay url error: ").concat(
                m.as_str(),
            ),
            ExchangeError::FeatureNotEnabled(m) => String::from_str(
                "Feature not enabled: ",
            ).concat(m.as_str()),
            ExchangeError::InternalError(_) => String::from_str("Internal error"),
        }
    }
}

/// The capability every exchange integration exposes: stable identity and
/// an asset-support test.
pub trait ExchangeProvider {
    /// The exchange's stable id, as a spec-level value.
    spec fn spec_id(&self) -> Seq<char>;

    /// The exchange's display name, as a spec-level value.
    spec fn spec_name(&self) -> Seq<char>;

    /// The exchange's logo URL, as a spec-level value.
    spec fn spec_image_url(&self) -> Option<Seq<char>>;

    /// Whether the exchange supports purchases of `asset`.
    spec fn spec_is_asset_supported(&self, asset: &Caip19Asset) -> bool;

    /// The exchange's stable id.
    fn id(&self) -> (r: &'static str)
        ensures
            r@ == self.spec_id(),
    ;

    /// The exchange's display name.
    fn name(&self) -> (r: &'static str)
        ensures
            r@ == self.spec_name(),
    ;

    /// An optional logo URL for the exchange.
    fn image_url(&self) -> (r: Option<&'static str>)
        ensures
            match (r, self.spec_image_url()) {
                (Some(u), Some(v)) => u@ == v,
                (None, None) => true,
                _ => false,
            },
    ;

    /// Test whether the exchange supports purchases of `asset`.
    fn is_asset_supported(&self, asset: &Caip19Asset) -> (r: bool)
        ensures
            r == self.spec_is_asset_supported(asset),
    ;

    /// The caller-facing description of the exchange.
    fn to_exchange(&self) -> (r: Exchange)
        ensures
            r.id@ == self.spec_id(),
            r.name@ == self.spec_name(),
            match (r.image_url, self.spec_image_url()) {
                (Some(u), Some(v)) => u@ == v,
                (None, None) => true,
                _ => false,
            },
    {
        Exchange {
            id: String::from_str(self.id()),
            name: String::from_str(self.name()),
            image_url: match self.image_url() {
                Some(u) => Some(String::from_str(u)),
                None => None,
            },
        }
    }
}

/// The Binance purchase integration: EVM and Solana assets.
pub struct BinanceExchange;

/// The Coinbase purchase integration: EVM assets.
pub struct CoinbaseExchange;

/// The in-house test integration: accepts every asset.
pub struct TestExchange;

impl ExchangeProvider for BinanceExchange {
    open spec fn spec_id(&self) -> Seq<char> {
        "binance"@
    }

    open spec fn spec_name(&self) -> Seq<char> {
        "Binance"@
    }

    open spec fn spec_image_url(&self) -> Option<Seq<char>> {
        None
    }

    open spec fn spec_is_asset_supported(&self, asset: &Caip19Asset) -> bool {
        asset.chain_namespace@ == "eip155"@ || asset.chain_namespace@ == "solana"@
    }

    fn id(&self) -> &'static str {
        "binance"
    }

    fn name(&self) -> &'static str {
        "Binance"
    }

    fn image_url(&self) -> Option<&'static str> {
        None
    }

    fn is_asset_supported(&self, asset: &Caip19Asset) -> bool {
        str_eq(asset.chain_namespace.as_str(), "eip155") || str_eq(
            asset.chain_namespace.as_str(),
            "solana",
        )
    }
}

impl ExchangeProvider for CoinbaseExchange {
    open spec fn spec_id(&self) -> Seq<char> {
        "coinbase"@
    }

    open spec fn spec_name(&self) -> Seq<char> {
        "Coinbase"@
    }

    open spec fn spec_image_url(&self) -> Option<Seq<char>> {
        None
    }

    open spec fn spec_is_asset_supported(&self, asset: &Caip19Asset) -> bool {
        asset.chain_namespace@ == "eip155"@
    }

    fn id(&self) -> &'static str {
        "coinbase"
    }

    fn name(&self) -> &'static str {
        "Coinbase"
    }

    fn image_url(&self) -> Option<&'static str> {
        None
    }

    fn is_asset_supported(&self, asset: &Caip19Asset) -> bool {
        str_eq(asset.chain_namespace.as_str(), "eip155")
    }
}

impl ExchangeProvider for TestExchange {
    open spec fn spec_id(&self) -> Seq<char> {
        "reown_test"@
    }

    open spec fn spec_name(&self) -> Seq<char> {
        "Reown Test"@
    }

    open spec fn spec_image_url(&self) -> Option<Seq<char>> {
        None
    }

    open spec fn spec_is_asset_supported(&self, asset: &Caip19Asset) -> bool {
        true
    }

    fn id(&self) -> &'static str {
        "reown_test"
    }

    fn name(&self) -> &'static str {
        "Reown Test"
    }

    fn image_url(&self) -> Option<&'static str> {
        None
    }

    fn is_asset_supported(&self, asset: &Caip19Asset) -> bool {
        true
    }
}

/// One concrete exchange integration, dispatched by tag.
pub enum AnyExchangeProvider {
    Binance(BinanceExchange),
    Coinbase(CoinbaseExchange),
    ReownTest(TestExchange),
}

impl ExchangeProvider for AnyExchangeProvider {
    open spec fn spec_id(&self) -> Seq<char> {
        match self {
            AnyExchangeProvider::Binance(e) => e.spec_id(),
            AnyExchangeProvider::Coinbase(e) => e.spec_id(),
            AnyExchangeProvider::ReownTest(e) => e.spec_id(),
        }
    }

    open spec fn spec_name(&self) -> Seq<char> {
        match self {
            AnyExchangeProvider::Binance(e) => e.spec_name(),
            AnyExchangeProvider::Coinbase(e) => e.spec_name(),
            AnyExchangeProvider::ReownTest(e) => e.spec_name(),
        }
    }

    open spec fn spec_image_url(&self) -> Option<Seq<char>> {
        match self {
            AnyExchangeProvider::Binance(e) => e.spec_image_url(),
            AnyExchangeProvider::Coinbase(e) => e.spec_image_url(),
            AnyExchangeProvider::ReownTest(e) => e.spec_image_url(),
        }
    }

    open spec fn spec_is_asset_supported(&self, asset: &Caip19Asset) -> bool {
        match self {
            AnyExchangeProvider::Binance(e) => e.spec_is_asset_supported(asset),
            AnyExchangeProvider::Coinbase(e) => e.spec_is_asset_supported(asset),
            AnyExchangeProvider::ReownTest(e) => e.spec_is_asset_supported(asset),
        }
    }

    fn id(&self) -> &'static str {
        match self {
            AnyExchangeProvider::Binance(e) => e.id(),
            AnyExchangeProvider::Coinbase(e) => e.id(),
            AnyExchangeProvider::ReownTest(e) => e.id(),
        }
    }

    fn name(&self) -> &'static str {
        match self {
            AnyExchangeProvider::Binance(e) => e.name(),
            AnyExchangeProvider::Coinbase(e) => e.name(),
            AnyExchangeProvider::ReownTest(e) => e.name(),
        }
    }

    fn image_url(&self) -> Option<&'static str> {
        match self {
            AnyExchangeProvider::Binance(e) => e.image_url(),
            AnyExchangeProvider::Coinbase(e) => e.image_url(),
            AnyExchangeProvider::ReownTest(e) => e.image_url(),
        }
    }

    fn is_asset_supported(&self, asset: &Caip19Asset) -> bool {
        match self {
            AnyExchangeProvider::Binance(e) => e.is_asset_supported(asset),
            AnyExchangeProvider::Coinbase(e) => e.is_asset_supported(asset),
            AnyExchangeProvider::ReownTest(e) => e.is_asset_supported(asset),
        }
    }
}

/// The closed enumeration of configured exchanges.
#[derive(Debug, Clone, Copy, PartialEq, Eq, Structural)]
pub enum ExchangeType {
    Binance,
    Coinbase,
    ReownTest,
}

impl ExchangeType {
    /// The exchange's stable id, as a spec-level value.
    pub open spec fn spec_id(&self) -> Seq<char> {
        match self {
            ExchangeType::Binance => "binance"@,
            ExchangeType::Coinbase => "coinbase"@,
            ExchangeType::ReownTest => "reown_test"@,
        }
    }

    /// The exchange's display name, as a spec-level value.
    pub open spec fn spec_name(&self) -> Seq<char> {
        match self {
            ExchangeType::Binance => "Binance"@,
            ExchangeType::Coinbase => "Coinbase"@,
            ExchangeType::ReownTest => "Reown Test"@,
        }
    }

    /// The exchange's logo URL, as a spec-level value; no catalogue entry
    /// currently ships one.
    pub open spec fn spec_image_url(&self) -> Option<Seq<char>> {
        None
    }

    /// Whether this exchange supports purchases of an asset, by the chain
    /// namespace of the asset's CAIP-2 half.
    pub open spec fn spec_supports(&self, asset: &Caip19Asset) -> bool {
        match self {
            ExchangeType::Binance => asset.chain_namespace@ == "eip155"@
                || asset.chain_namespace@ == "solana"@,
            ExchangeType::Coinbase => asset.chain_namespace@ == "eip155"@,
            ExchangeType::ReownTest => true,
        }
    }

    /// The integration behind this tag.
    pub fn provider(&self) -> (r: AnyExchangeProvider)
        ensures
            r.spec_id() == self.spec_id(),
            r.spec_name() == self.spec_name(),
            r.spec_image_url() == self.spec_image_url(),
            forall|asset: &Caip19Asset|
                r.spec_is_asset_supported(asset) == self.spec_supports(asset),
    {
        match self {
            ExchangeType::Binance => AnyExchangeProvider::Binance(BinanceExchange),
            ExchangeType::Coinbase => AnyExchangeProvider::Coinbase(CoinbaseExchange),
            ExchangeType::ReownTest => AnyExchangeProvider::ReownTest(TestExchange),
        }
    }

    /// The caller-facing description of this exchange.
    pub fn to_exchange(&self) -> (r: Exchange)
        ensures
            spec_entry_matches(r, *self),
    {
        self.provider().to_exchange()
    }

    /// Resolve an exchange tag from its stable id.
    pub fn from_id(id: &str) -> (r: Option<ExchangeType>)
        ensures
            match r {
                Some(t) => t.spec_id() == id@,
                None => id@ != "binance"@ && id@ != "coinbase"@ && id@ != "reown_test"@,
            },
    {
        if str_eq(id, ExchangeType::Binance.provider().id()) {
            Some(ExchangeType::Binance)
        } else if str_eq(id, ExchangeType::Coinbase.provider().id()) {
            Some(ExchangeType::Coinbase)
        } else if str_eq(id, ExchangeType::ReownTest.provider().id()) {
            Some(ExchangeType::ReownTest)
        } else {
            None
        }
    }

    /// Whether this exchange supports purchases of `asset`.
    pub fn is_asset_supported(&self, asset: &Caip19Asset) -> (r: bool)
        ensures
            r == self.spec_supports(asset),
    {
        self.provider().is_asset_supported(asset)
    }
}

/// A returned catalogue entry carries exactly one exchange's identity: its
/// id, display name and logo URL.
pub open spec fn spec_entry_matches(e: Exchange, t: ExchangeType) -> bool {
    e.id@ == t.spec_id() && e.name@ == t.spec_name() && (match (e.image_url, t.spec_image_url()) {
        (Some(u), Some(v)) => u@ == v,
        (None, None) => true,
        _ => false,
    })
}

/// The whole catalogue, in declaration order.
pub open spec fn spec_catalogue() -> Seq<ExchangeType> {
    seq![ExchangeType::Binance, ExchangeType::Coinbase, ExchangeType::ReownTest]
}

/// The exchanges supporting an asset whose CAIP-2 chain namespace is `cn`,
/// in catalogue order.
pub open spec fn spec_supported_types(cn: Seq<char>) -> Seq<ExchangeType> {
    (if cn == "eip155"@ || cn == "solana"@ {
        seq![ExchangeType::Binance]
    } else {
        Seq::empty()
    }) + (if cn == "eip155"@ {
        seq![ExchangeType::Coinbase]
    } else {
        Seq::empty()
    }) + seq![ExchangeType::ReownTest]
}

/// List the exchanges, restricted to those supporting `asset` when one is
/// given; a given but invalid CAIP-19 asset is rejected. Each returned
/// entry is the full description of its exchange, in catalogue order.
pub fn get_supported_exchanges(asset: Option<String>) -> (r: Result<Vec<Exchange>, ExchangeError>)
    ensures
        match r {
            Ok(v) => match asset {
                None => v@.len() == spec_catalogue().len() && forall|i: int|
                    0 <= i < v@.len() ==> spec_entry_matches(#[trigger] v@[i], spec_catalogue()[i]),
                Some(s) => spec_valid_caip19(s@) && v@.len() == spec_supported_types(
                    spec_segment_head(spec_chain_part(s@)),
                ).len() && forall|i: int|
                    0 <= i < v@.len() ==> spec_entry_matches(
                        #[trigger] v@[i],
                        spec_supported_types(spec_segment_head(spec_chain_part(s@)))[i],
                    ),
            },
            Err(e) => match asset {
                None => false,
                Some(s) => !spec_valid_caip19(s@) && (e matches ExchangeError::ValidationError(m)
                    && m@ == "invalid CAIP-19 asset"@),
            },
        },
{
    match asset {
        Some(asset_str) => {
            match Caip19Asset::parse(asset_str.as_str()) {
                None => Err(
                    ExchangeError::ValidationError(String::from_str("invalid CAIP-19 asset")),
                ),
                Some(parsed) => {
                    let mut out: Vec<Exchange> = Vec::new();
                    if ExchangeType::Binance.is_asset_supported(&parsed) {
                        out.push(ExchangeType::Binance.to_exchange());
                    }
                    if ExchangeType::Coinbase.is_asset_supported(&parsed) {
                        out.push(ExchangeType::Coinbase.to_exchange());
                    }
                    out.push(ExchangeType::ReownTest.to_exchange());
                    proof {
                        let cn = parsed.chain_namespace@;
                        let types = spec_supported_types(cn);
                        if cn == "eip155"@ {
                            assert(types =~= seq![
                                ExchangeType::Binance,
                                ExchangeType::Coinbase,
                                ExchangeType::ReownTest,
                            ]);
                        } else if cn == "solana"@ {
                            assert(types =~= seq![ExchangeType::Binance, ExchangeType::ReownTest]);
                        } else {
                            assert(types =~= seq![ExchangeType::ReownTest]);
                        }
                        assert(out@.len() == types.len());
                        assert(forall|i: int|
                            0 <= i < out@.len() ==> spec_entry_matches(
                                #[trigger] out@[i],
                                types[i],
                            ));
                    }
                    Ok(out)
                },
            }
        },
        None => {
            let mut out: Vec<Exchange> = Vec::new();
            out.push(ExchangeType::Binance.to_exchange());
            out.push(ExchangeType::Coinbase.to_exchange());
            out.push(ExchangeType::ReownTest.to_exchange());
            proof {
                assert(out@.len() == spec_catalogue().len());
                assert(forall|i: int|
                    0 <= i < out@.len() ==> spec_entry_matches(
                        #[trigger] out@[i],
                        spec_catalogue()[i],
                    ));
            }
            Ok(out)
        },
    }
}

/// Resolve the full caller-facing description of an exchange from its id.
pub fn get_exchange_by_id(id: &str) -> (r: Option<Exchange>)
    ensures
        match r {
            Some(e) => e.id@ == id@ && exists|t: ExchangeType| spec_entry_matches(e, t),
            None => id@ != "binance"@ && id@ != "coinbase"@ && id@ != "reown_test"@,
        },
{
    match ExchangeType::from_id(id) {
        Some(t) => Some(t.to_exchange()),
        None => None,
    }
}

/// Whether the allow-list contains the project id.
fn contains_project_id(allowed: &Vec<String>, project_id: &str) -> (r: bool)
    ensures
        r == exists|i: int| 0 <= i < allowed@.len() && allowed@[i]@ == project_id@,
{
    let mut i: usize = 0;
    while i < allowed.len()
        invariant
            i <= allowed@.len(),
            forall|t: int| 0 <= t < i ==> allowed@[t]@ != project_id@,
        decreases allowed@.len() - i,
    {
        if str_eq(allowed[i].as_str(), project_id) {
            assert(allowed@[i as int]@ == project_id@);
            return true;
        }
        i += 1;
    }
    false
}

/// The testing project id, if configured, matches the caller.
pub open spec fn spec_testing_match(testing_project_id: Option<&String>, project_id: Seq<char>) -> bool {
    match testing_project_id {
        Some(t) => t@ == project_id,
        None => false,
    }
}

/// The allow-list is configured and contains the caller.
pub open spec fn spec_allowed_match(
    allowed_project_ids: Option<&Vec<String>>,
    project_id: Seq<char>,
) -> bool {
    match allowed_project_ids {
        Some(v) => exists|i: int| 0 <= i < v@.len() && v@[i]@ == project_id,
        None => false,
    }
}

/// The feature gate over calling project ids: the configured testing
/// project id is always allowed; otherwise the caller must appear in the
/// configured allow-list, and an absent allow-list means the feature is off
/// altogether.
pub fn is_feature_enabled_for_project_id(
    testing_project_id: Option<&String>,
    allowed_project_ids: Option<&Vec<String>>,
    project_id: &str,
) -> (r: Result<(), ExchangeError>)
    ensures
        match r {
            Ok(_) => spec_testing_match(testing_project_id, project_id@) || spec_allowed_match(
                allowed_project_ids,
                project_id@,
            ),
            Err(e) => !spec_testing_match(testing_project_id, project_id@)
                && !spec_allowed_match(allowed_project_ids, project_id@) && (e matches ExchangeError::FeatureNotEnabled(m)
                && m@ == (if allowed_project_ids matches Some(_) {
                "Project is not allowed to use this feature"@
            } else {
                "Feature is not enabled"@
            })),
        },
{
    if let Some(testing_id) = testing_project_id {
        if constant_time_str_eq(testing_id.as_str(), project_id) {
            return Ok(());
        }
    }
    match allowed_project_ids {
        None => Err(
            ExchangeError::FeatureNotEnabled(String::from_str("Feature is not enabled")),
        ),
        Some(allowed) => {
            if contains_project_id(allowed, project_id) {
                Ok(())
            } else {
                Err(
                    ExchangeError::FeatureNotEnabled(
                        String::from_str("Project is not allowed to use this feature"),
                    ),
                )
            }
        },
    }
}

} // verus!
