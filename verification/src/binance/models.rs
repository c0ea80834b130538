//! Typed models of the centralized exchange's JSON streams and the client
//! configuration builder.

use vstd::prelude::*;
use vstd::string::{StringExecFns, StringSliceAdditionalSpecFns};

use crate::config::BinanceConfig;
use super::url::{lower_of, lowercase};

verus! {

/// The market-data streams a symbol can be subscribed to.
#[derive(Debug, Clone, Copy, PartialEq, Eq, Structural)]
pub enum BinanceStream {
    Trade,
    BestBidAsk,
    Depth,
    Depth20,
    Kline(KlineInterval),
}

/// Candle intervals.
#[derive(Debug, Clone, Copy, PartialEq, Eq, Structural)]
pub enum KlineInterval {
    M1,
    M3,
    M5,
    M15,
    M30,
    H1,
    H2,
    H4,
    H6,
    H8,
    H12,
    D1,
    D3,
    W1,
    Month1,
}

/// The wire name of a candle interval.
pub open spec fn spec_interval_str(i: KlineInterval) -> Seq<char> {
    match i {
        KlineInterval::M1 => "1m"@,
        KlineInterval::M3 => "3m"@,
        KlineInterval::M5 => "5m"@,
        KlineInterval::M15 => "15m"@,
        KlineInterval::M30 => "30m"@,
        KlineInterval::H1 => "1h"@,
        KlineInterval::H2 => "2h"@,
        KlineInterval::H4 => "4h"@,
        KlineInterval::H6 => "6h"@,
        KlineInterval::H8 => "8h"@,
        KlineInterval::H12 => "12h"@,
        KlineInterval::D1 => "1d"@,
        KlineInterval::D3 => "3d"@,
        KlineInterval::W1 => "1w"@,
        KlineInterval::Month1 => "1M"@,
    }
}

impl KlineInterval {
    pub fn as_str(&self) -> (r: &'static str)
        ensures
            r@ == spec_interval_str(*self),
    {
        match self {
            KlineInterval::M1 => "1m",
            KlineInterval::M3 => "3m",
            KlineInterval::M5 => "5m",
            KlineInterval::M15 => "15m",
            KlineInterval::M30 => "30m",
            KlineInterval::H1 => "1h",
            KlineInterval::H2 => "2h",
            KlineInterval::H4 => "4h",
            KlineInterval::H6 => "6h",
            KlineInterval::H8 => "8h",
            KlineInterval::H12 => "12h",
            KlineInterval::D1 => "1d",
            KlineInterval::D3 => "3d",
            KlineInterval::W1 => "1w",
            KlineInterval::Month1 => "1M",
        }
    }
}

/// The stream suffix of each stream kind.
pub open spec fn spec_stream_suffix(s: BinanceStream) -> Seq<char> {
    match s {
        BinanceStream::Trade => "@trade"@,
        BinanceStream::BestBidAsk => "@bestBidAsk"@,
        BinanceStream::Depth => "@depth"@,
        BinanceStream::Depth20 => "@depth20"@,
        BinanceStream::Kline(i) => "@kline_"@ + spec_interval_str(i),
    }
}

impl BinanceStream {
    /// The wire stream name: the lower-cased symbol, then the stream
    /// suffix.
    pub fn stream_name(&self, symbol: &str) -> (r: String)
        ensures
            r@ == lower_of(symbol@) + spec_stream_suffix(*self),
    {
        let mut name = lowercase(symbol);
        match self {
            BinanceStream::Trade => {
                name.append("@trade");
            },
            BinanceStream::BestBidAsk => {
                name.append("@bestBidAsk");
            },
            BinanceStream::Depth => {
                name.append("@depth");
            },
            BinanceStream::Depth20 => {
                name.append("@depth20");
            },
            BinanceStream::Kline(i) => {
                name.append("@kline_");
                name.append(i.as_str());
                proof {
                    assert(name@ =~= lower_of(symbol@) + ("@kline_"@ + spec_interval_str(*i)));
                }
            },
        }
        name
    }
}

/// An outgoing stream subscription request.
#[derive(Debug, Clone)]
pub struct SubscribeRequest {
    pub method: String,
    pub params: Vec<String>,
    pub id: u64,
}

impl SubscribeRequest {
    pub fn subscribe(id: u64, streams: Vec<String>) -> (r: Self)
        ensures
            r.method@ == "SUBSCRIBE"@,
            r.params == streams,
            r.id == id,
    {
        Self { method: "SUBSCRIBE".to_owned(), params: streams, id }
    }

    pub fn unsubscribe(id: u64, streams: Vec<String>) -> (r: Self)
        ensures
            r.method@ == "UNSUBSCRIBE"@,
            r.params == streams,
            r.id == id,
    {
        Self { method: "UNSUBSCRIBE".to_owned(), params: streams, id }
    }
}

/// Which side initiated a trade.
#[derive(Debug, Clone, Copy, PartialEq, Eq, Structural)]
pub enum TradeSide {
    Buy,
    Sell,
    Unknown,
}

/// A trade event from the JSON stream, prices as decimal strings.
#[derive(Debug, Clone)]
pub struct BinanceTrade {
    pub event_type: String,
    pub event_time: u64,
    pub symbol: String,
    pub trade_id: u64,
    pub price: String,
    pub quantity: String,
    pub trade_time: u64,
    pub is_buyer_maker: bool,
}

impl BinanceTrade {
    /// The aggressor side: a resting buyer means the taker sold.
    pub fn side(&self) -> (r: TradeSide)
        ensures
            r == TradeSide::Sell <==> self.is_buyer_maker,
            r == TradeSide::Buy <==> !self.is_buyer_maker,
    {
        if self.is_buyer_maker {
            TradeSide::Sell
        } else {
            TradeSide::Buy
        }
    }
}

/// A best bid/ask event from the JSON stream.
#[derive(Debug, Clone)]
pub struct BinanceBestBidAsk {
    pub event_type: Option<String>,
    pub update_id: u64,
    pub symbol: String,
    pub best_bid_price: String,
    pub best_bid_qty: String,
    pub best_ask_price: String,
    pub best_ask_qty: String,
}

/// An incremental depth update from the JSON stream, levels as price and
/// quantity string pairs.
#[derive(Debug, Clone)]
pub struct BinanceDepthUpdate {
    pub event_type: String,
    pub event_time: u64,
    pub symbol: String,
    pub first_update_id: u64,
    pub final_update_id: u64,
    pub bids: Vec<(String, String)>,
    pub asks: Vec<(String, String)>,
}

/// A partial depth snapshot from the JSON stream.
#[derive(Debug, Clone)]
pub struct BinancePartialDepth {
    pub last_update_id: u64,
    pub bids: Vec<(String, String)>,
    pub asks: Vec<(String, String)>,
}

/// A candle event from the JSON stream.
#[derive(Debug, Clone)]
pub struct BinanceKlineEvent {
    pub event_type: String,
    pub event_time: u64,
    pub symbol: String,
    pub kline: BinanceKline,
}

/// One candle, prices and volumes as decimal strings.
#[derive(Debug, Clone)]
pub struct BinanceKline {
    pub open_time: u64,
    pub close_time: u64,
    pub symbol: String,
    pub interval: String,
    pub first_trade_id: i64,
    pub last_trade_id: i64,
    pub open: String,
    pub close: String,
    pub high: String,
    pub low: String,
    pub volume: String,
    pub number_of_trades: u64,
    pub is_closed: bool,
    pub quote_asset_volume: String,
    pub taker_buy_base_volume: String,
    pub taker_buy_quote_volume: String,
}

/// The kinds of payload a combined JSON stream can carry, told apart by the
/// stream name.
#[derive(Debug, Clone, Copy, PartialEq, Eq, Structural)]
pub enum BinanceStreamKind {
    Trade,
    BestBidAsk,
    PartialDepth,
    DepthUpdate,
    Kline,
    Unknown,
}

/// Classifies a combined-stream name by the tags it contains, most specific
/// first: trade, then best bid/ask, then the twenty-level partial depth,
/// then incremental depth, then candles.
pub fn classify_stream(stream: &str) -> (r: BinanceStreamKind)
    ensures
        r == {
            let bytes = stream.spec_bytes();
            if crate::strings::spec_contains_bytes(bytes, "@trade".spec_bytes()) {
                BinanceStreamKind::Trade
            } else if crate::strings::spec_contains_bytes(bytes, "@bestBidAsk".spec_bytes()) {
                BinanceStreamKind::BestBidAsk
            } else if crate::strings::spec_contains_bytes(bytes, "@depth20".spec_bytes()) {
                BinanceStreamKind::PartialDepth
            } else if crate::strings::spec_contains_bytes(bytes, "@depth".spec_bytes()) {
                BinanceStreamKind::DepthUpdate
            } else if crate::strings::spec_contains_bytes(bytes, "@kline".spec_bytes()) {
                BinanceStreamKind::Kline
            } else {
                BinanceStreamKind::Unknown
            }
        },
{
    if crate::strings::str_contains(stream, "@trade") {
        BinanceStreamKind::Trade
    } else if crate::strings::str_contains(stream, "@bestBidAsk") {
        BinanceStreamKind::BestBidAsk
    } else if crate::strings::str_contains(stream, "@depth20") {
        BinanceStreamKind::PartialDepth
    } else if crate::strings::str_contains(stream, "@depth") {
        BinanceStreamKind::DepthUpdate
    } else if crate::strings::str_contains(stream, "@kline") {
        BinanceStreamKind::Kline
    } else {
        BinanceStreamKind::Unknown
    }
}

/// Builds the client configuration step by step.
#[derive(Debug, Clone)]
pub struct BinanceClientBuilder {
    pub config: Option<BinanceConfig>,
    pub use_sbe: bool,
}

impl BinanceClientBuilder {
    pub fn new() -> (r: Self)
        ensures
            r.config is None,
            !r.use_sbe,
    {
        Self { config: None, use_sbe: false }
    }

    pub fn config(self, config: BinanceConfig) -> (r: Self)
        ensures
            r.config == Some(config),
            r.use_sbe == self.use_sbe,
    {
        Self { config: Some(config), use_sbe: self.use_sbe }
    }

    pub fn use_sbe(self, enable: bool) -> (r: Self)
        ensures
            r.config == self.config,
            r.use_sbe == enable,
    {
        Self { config: self.config, use_sbe: enable }
    }

    pub fn symbols(self, symbols: Vec<String>) -> (r: Self)
        ensures
            r.use_sbe == self.use_sbe,
            r.config is Some,
            r.config.unwrap().tracked_symbols == symbols,
            self.config is Some ==> r.config.unwrap().api_key == self.config.unwrap().api_key,
            self.config is None ==> r.config.unwrap().api_key is None,
    {
        match self.config {
            Some(mut config) => {
                config.tracked_symbols = symbols;
                Self { config: Some(config), use_sbe: self.use_sbe }
            },
            None => {
                Self {
                    config: Some(BinanceConfig { api_key: None, tracked_symbols: symbols }),
                    use_sbe: self.use_sbe,
                }
            },
        }
    }
}

} // verus!
