//! Typed models of the prediction-market wire protocol. Serialisation to
//! and from JSON happens outside the library; these types carry the decoded
//! values.

use vstd::prelude::*;

use crate::book::KalshiOrderbook;

verus! {

/// An outgoing subscription command.
#[derive(Debug, Clone)]
pub struct SubscribeMessage {
    pub id: u64,
    pub cmd: String,
    pub params: SubscribeParams,
}

/// Channels to subscribe, optionally narrowed to market tickers.
#[derive(Debug, Clone)]
pub struct SubscribeParams {
    pub channels: Vec<String>,
    pub market_tickers: Option<Vec<String>>,
}

impl SubscribeMessage {
    pub fn new(id: u64, channels: Vec<String>, market_tickers: Option<Vec<String>>) -> (r: Self)
        ensures
            r.id == id,
            r.cmd@ == "subscribe"@,
            r.params.channels == channels,
            r.params.market_tickers == market_tickers,
    {
        Self {
            id,
            cmd: "subscribe".to_owned(),
            params: SubscribeParams { channels, market_tickers },
        }
    }
}

/// Targets of an unsubscription: server-assigned subscription ids, or the
/// same shape a subscription uses.
#[derive(Debug, Clone)]
pub struct UnsubscribeParams {
    pub sids: Option<Vec<u64>>,
    pub channels: Option<Vec<String>>,
    pub market_tickers: Option<Vec<String>>,
}

/// An outgoing unsubscription command.
#[derive(Debug, Clone)]
pub struct UnsubscribeMessage {
    pub id: u64,
    pub cmd: String,
    pub params: UnsubscribeParams,
}

impl UnsubscribeMessage {
    pub fn new(id: u64, sids: Vec<u64>) -> (r: Self)
        ensures
            r.id == id,
            r.cmd@ == "unsubscribe"@,
            r.params.sids == Some(sids),
            r.params.channels is None,
            r.params.market_tickers is None,
    {
        Self {
            id,
            cmd: "unsubscribe".to_owned(),
            params: UnsubscribeParams { sids: Some(sids), channels: None, market_tickers: None },
        }
    }
}

/// A ticker update: prices in integer cents, or fixed-point dollar strings.
#[derive(Debug, Clone)]
pub struct KalshiTicker {
    pub market_ticker: String,
    pub price: Option<i64>,
    pub yes_bid: Option<i64>,
    pub yes_ask: Option<i64>,
    pub price_dollars: Option<String>,
    pub yes_bid_dollars: Option<String>,
    pub no_bid_dollars: Option<String>,
    pub volume: Option<i64>,
    pub volume_fp: Option<String>,
    pub open_interest: Option<i64>,
    pub open_interest_fp: Option<String>,
    pub dollar_volume: Option<i64>,
    pub dollar_open_interest: Option<i64>,
    pub ts: Option<i64>,
}

impl KalshiTicker {
    /// The best yes ask in micro-dollars, from the integer cent field.
    pub fn yes_ask_micros(&self) -> (r: Option<u64>)
        ensures
            r is Some <==> self.yes_ask is Some && 0 <= self.yes_ask.unwrap() <= 100,
            r is Some ==> r.unwrap() == self.yes_ask.unwrap() * 10000,
    {
        match self.yes_ask {
            Some(cents) if 0 <= cents && cents <= 100 => Some((cents as u64) * 10000),
            _ => None,
        }
    }

    /// The best yes bid in micro-dollars, from the integer cent field.
    pub fn yes_bid_micros(&self) -> (r: Option<u64>)
        ensures
            r is Some <==> self.yes_bid is Some && 0 <= self.yes_bid.unwrap() <= 100,
            r is Some ==> r.unwrap() == self.yes_bid.unwrap() * 10000,
    {
        match self.yes_bid {
            Some(cents) if 0 <= cents && cents <= 100 => Some((cents as u64) * 10000),
            _ => None,
        }
    }

    /// The implied no ask: one dollar less the best yes bid.
    pub fn implied_no_ask_micros(&self) -> (r: Option<u64>)
        ensures
            r is Some <==> self.yes_bid is Some && 0 <= self.yes_bid.unwrap() <= 100,
            r is Some ==> r.unwrap() == 1000000 - self.yes_bid.unwrap() * 10000,
    {
        match self.yes_bid_micros() {
            Some(m) => Some(1000000 - m),
            None => None,
        }
    }
}

/// A market listed by the venue's REST interface, reduced to the fields the
/// controller reads.
#[derive(Debug, Clone)]
pub struct KalshiMarket {
    pub ticker: String,
    pub title: Option<String>,
    pub subtitle: Option<String>,
    pub status: KalshiMarketStatus,
    pub open_time: Option<String>,
    pub close_time: Option<String>,
    pub expiration_time: Option<String>,
    pub settlement_timer_seconds: Option<i64>,
    pub volume: Option<i64>,
    pub volume_24h: Option<i64>,
    pub open_interest: Option<i64>,
    pub category: Option<String>,
    pub series_ticker: Option<String>,
    pub floor_strike: Option<String>,
}

/// One page of a market listing, with the pagination cursor.
#[derive(Debug, Clone)]
pub struct MarketsResponse {
    pub markets: Vec<KalshiMarket>,
    pub cursor: Option<String>,
}

/// An order-book snapshot as sent on the wire: dollar price strings with
/// quantities, one list per side.
#[derive(Debug, Clone)]
pub struct KalshiOrderbookSnapshot {
    pub market_ticker: String,
    pub yes_dollars: Vec<(String, i64)>,
    pub no_dollars: Vec<(String, i64)>,
}

/// An incremental order-book change at one price on one side.
#[derive(Debug, Clone)]
pub struct KalshiOrderbookDelta {
    pub market_ticker: String,
    pub price_dollars: String,
    pub delta: i64,
    pub side: String,
}

/// The lifecycle transitions a market announces.
#[derive(Debug, Clone, Copy, PartialEq, Eq, Structural)]
pub enum KalshiMarketLifecycleEventType {
    Created,
    Activated,
    Deactivated,
    CloseDateUpdated,
    Determined,
    Settled,
}

/// The status a lifecycle event maps to: `deactivated` pauses only when the
/// flag says so, `determined` closes, `settled` settles.
pub open spec fn spec_event_status(
    e: KalshiMarketLifecycleEventType,
    is_deactivated: Option<bool>,
) -> Option<KalshiMarketStatus> {
    match e {
        KalshiMarketLifecycleEventType::Created => Some(KalshiMarketStatus::Unopened),
        KalshiMarketLifecycleEventType::Activated => Some(KalshiMarketStatus::Open),
        KalshiMarketLifecycleEventType::Deactivated => {
            if is_deactivated == Some(true) {
                Some(KalshiMarketStatus::Paused)
            } else {
                Some(KalshiMarketStatus::Open)
            }
        },
        KalshiMarketLifecycleEventType::CloseDateUpdated => Some(KalshiMarketStatus::Open),
        KalshiMarketLifecycleEventType::Determined => Some(KalshiMarketStatus::Closed),
        KalshiMarketLifecycleEventType::Settled => Some(KalshiMarketStatus::Settled),
    }
}

impl KalshiMarketLifecycleEventType {
    /// Parses the wire name of a lifecycle event; unknown names yield
    /// nothing and are ignored upstream.
    pub fn from_wire(s: &str) -> (r: Option<Self>)
        ensures
            r == Some(KalshiMarketLifecycleEventType::Created) <==> s@ == "created"@,
            r == Some(KalshiMarketLifecycleEventType::Activated) <==> s@ == "activated"@,
            r == Some(KalshiMarketLifecycleEventType::Deactivated) <==> s@ == "deactivated"@,
            r == Some(KalshiMarketLifecycleEventType::CloseDateUpdated) <==> s@
                == "close_date_updated"@,
            r == Some(KalshiMarketLifecycleEventType::Determined) <==> s@ == "determined"@,
            r == Some(KalshiMarketLifecycleEventType::Settled) <==> s@ == "settled"@,
    {
        proof {
            reveal_strlit("created");
            reveal_strlit("activated");
            reveal_strlit("deactivated");
            reveal_strlit("close_date_updated");
            reveal_strlit("determined");
            reveal_strlit("settled");
            assert("created"@.len() == 7);
            assert("activated"@.len() == 9);
            assert("deactivated"@.len() == 11);
            assert("close_date_updated"@.len() == 18);
            assert("determined"@.len() == 10);
            assert("settled"@.len() == 7);
            assert("created"@[0] == 'c' && "settled"@[0] == 's');
        }
        if crate::strings::str_eq(s, "created") {
            Some(KalshiMarketLifecycleEventType::Created)
        } else if crate::strings::str_eq(s, "activated") {
            Some(KalshiMarketLifecycleEventType::Activated)
        } else if crate::strings::str_eq(s, "deactivated") {
            Some(KalshiMarketLifecycleEventType::Deactivated)
        } else if crate::strings::str_eq(s, "close_date_updated") {
            Some(KalshiMarketLifecycleEventType::CloseDateUpdated)
        } else if crate::strings::str_eq(s, "determined") {
            Some(KalshiMarketLifecycleEventType::Determined)
        } else if crate::strings::str_eq(s, "settled") {
            Some(KalshiMarketLifecycleEventType::Settled)
        } else {
            None
        }
    }

    pub fn to_status(&self, is_deactivated: Option<bool>) -> (r: Option<KalshiMarketStatus>)
        ensures
            r == spec_event_status(*self, is_deactivated),
    {
        match self {
            Self::Created => Some(KalshiMarketStatus::Unopened),
            Self::Activated => Some(KalshiMarketStatus::Open),
            Self::Deactivated => {
                if is_deactivated == Some(true) {
                    Some(KalshiMarketStatus::Paused)
                } else {
                    Some(KalshiMarketStatus::Open)
                }
            },
            Self::CloseDateUpdated => Some(KalshiMarketStatus::Open),
            Self::Determined => Some(KalshiMarketStatus::Closed),
            Self::Settled => Some(KalshiMarketStatus::Settled),
        }
    }
}

/// A lifecycle notification for one market.
#[derive(Debug, Clone)]
pub struct KalshiMarketLifecycleMsg {
    pub event_type: KalshiMarketLifecycleEventType,
    pub market_ticker: String,
    pub open_ts: Option<i64>,
    pub close_ts: Option<i64>,
    pub result: Option<String>,
    pub determination_ts: Option<i64>,
    pub settled_ts: Option<i64>,
    pub is_deactivated: Option<bool>,
}

/// A trade print, prices as fixed-point dollar strings.
#[derive(Debug, Clone)]
pub struct KalshiTrade {
    pub market_ticker: String,
    pub trade_id: Option<String>,
    pub side: Option<String>,
    pub yes_price_dollars: Option<String>,
    pub no_price_dollars: Option<String>,
    pub count: Option<i64>,
    pub created_time: Option<String>,
}

/// A market status change surfaced as a plain event.
#[derive(Debug, Clone)]
pub struct MarketStatusChange {
    pub market_ticker: String,
    pub old_status: Option<String>,
    pub new_status: String,
}

/// The subscription channels the protocol understands.
#[derive(Debug, Clone, Copy, PartialEq, Eq, Structural)]
pub enum KalshiChannel {
    Ticker,
    OrderbookDelta,
    Trade,
    MarketLifecycle,
}

impl KalshiChannel {
    pub fn as_str(&self) -> (r: &'static str)
        ensures
            *self == KalshiChannel::Ticker ==> r@ == "ticker"@,
            *self == KalshiChannel::OrderbookDelta ==> r@ == "orderbook_delta"@,
            *self == KalshiChannel::Trade ==> r@ == "trade"@,
            *self == KalshiChannel::MarketLifecycle ==> r@ == "market_lifecycle_v2"@,
    {
        match self {
            KalshiChannel::Ticker => "ticker",
            KalshiChannel::OrderbookDelta => "orderbook_delta",
            KalshiChannel::Trade => "trade",
            KalshiChannel::MarketLifecycle => "market_lifecycle_v2",
        }
    }
}

/// The status a market can be in.
#[derive(Debug, Clone, Copy, PartialEq, Eq, Structural)]
pub enum KalshiMarketStatus {
    Unopened,
    Open,
    Active,
    Paused,
    Closed,
    Settled,
}

impl KalshiMarketStatus {
    pub fn as_str(&self) -> (r: &'static str)
        ensures
            *self == KalshiMarketStatus::Unopened ==> r@ == "unopened"@,
            *self == KalshiMarketStatus::Open ==> r@ == "open"@,
            *self == KalshiMarketStatus::Active ==> r@ == "active"@,
            *self == KalshiMarketStatus::Paused ==> r@ == "paused"@,
            *self == KalshiMarketStatus::Closed ==> r@ == "closed"@,
            *self == KalshiMarketStatus::Settled ==> r@ == "settled"@,
    {
        match self {
            KalshiMarketStatus::Unopened => "unopened",
            KalshiMarketStatus::Open => "open",
            KalshiMarketStatus::Active => "active",
            KalshiMarketStatus::Paused => "paused",
            KalshiMarketStatus::Closed => "closed",
            KalshiMarketStatus::Settled => "settled",
        }
    }
}

/// The decoded payload of one incoming frame.
#[derive(Debug, Clone)]
pub enum KalshiPayload {
    Snapshot(KalshiOrderbookSnapshot),
    Delta(KalshiOrderbookDelta),
    Lifecycle(KalshiMarketLifecycleMsg),
    Ticker(KalshiTicker),
    Trade(KalshiTrade),
    StatusChange(MarketStatusChange),
    Unknown,
}

/// One incoming frame: its type tag, optional subscription id, payload
/// under either the `msg` or `data` key, and error fields.
#[derive(Debug, Clone)]
pub struct KalshiWsMessage {
    pub msg_type: Option<String>,
    pub sid: Option<u64>,
    pub msg: Option<KalshiPayload>,
    pub data: Option<KalshiPayload>,
    pub status: Option<String>,
    pub error: Option<String>,
}

impl KalshiWsMessage {
    /// The payload, preferring the `msg` key over `data`.
    pub fn payload(&self) -> (r: Option<&KalshiPayload>)
        ensures
            r is Some <==> (self.msg is Some || self.data is Some),
            self.msg is Some ==> r is Some && *r.unwrap() == self.msg.unwrap(),
            self.msg is None && self.data is Some ==> r is Some && *r.unwrap()
                == self.data.unwrap(),
    {
        match &self.msg {
            Some(p) => Some(p),
            None => self.data.as_ref(),
        }
    }

    /// Whether this frame confirms a subscription.
    pub fn is_subscribed(&self) -> (r: bool)
        ensures
            r <==> (self.msg_type is Some && self.msg_type.unwrap()@ == "subscribed"@),
    {
        crate::strings::opt_str_is(&self.msg_type, "subscribed")
    }
}

/// The events the protocol layer surfaces to the coordinator.
#[derive(Debug, Clone)]
pub enum KalshiEvent {
    MarketStatusChanged { ticker: String, old_status: Option<String>, new_status: String },
    TickerUpdate(KalshiTicker),
    OrderbookUpdate(KalshiOrderbook),
    OrderbookDelta(KalshiOrderbookDelta),
    Trade(KalshiTrade),
}

} // verus!
