//! Static configuration of the two venues.

use vstd::prelude::*;
use vstd::string::StringExecFns;

verus! {

/// The whole configuration.
#[derive(Debug, Clone)]
pub struct Config {
    pub kalshi: KalshiConfig,
    pub binance: BinanceConfig,
}

/// Prediction-market venue credentials and tracked series.
#[derive(Debug, Clone)]
pub struct KalshiConfig {
    pub api_key_id: String,
    pub private_key_path: String,
    pub tracked_symbols: Vec<String>,
}

/// Centralized-exchange credentials and tracked symbols.
#[derive(Debug, Clone)]
pub struct BinanceConfig {
    pub api_key: Option<String>,
    pub tracked_symbols: Vec<String>,
}

impl Default for KalshiConfig {
    fn default() -> (r: Self)
        ensures
            r.api_key_id@.len() == 0,
            r.private_key_path@ == "private_key.pem"@,
            r.tracked_symbols@.len() == 2,
    {
        let mut tracked_symbols: Vec<String> = Vec::new();
        tracked_symbols.push("ETH15M".to_owned());
        tracked_symbols.push("BTC15M".to_owned());
        KalshiConfig {
            api_key_id: String::new(),
            private_key_path: "private_key.pem".to_owned(),
            tracked_symbols,
        }
    }
}

impl Default for BinanceConfig {
    fn default() -> (r: Self)
        ensures
            r.api_key is None,
            r.tracked_symbols@.len() == 2,
    {
        let mut tracked_symbols: Vec<String> = Vec::new();
        tracked_symbols.push("ETHUSDT".to_owned());
        tracked_symbols.push("BTCUSDT".to_owned());
        BinanceConfig { api_key: None, tracked_symbols }
    }
}

} // verus!
