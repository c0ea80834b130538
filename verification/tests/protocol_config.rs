use white_shark::auth::{signing_payload, AuthHeaders};
use white_shark::binance::models::{
    classify_stream, BinanceClientBuilder, BinanceStream, BinanceStreamKind, BinanceTrade,
    KlineInterval, SubscribeRequest, TradeSide,
};
use white_shark::binance::url::{build_sbe_combined_url, build_sbe_stream_url, streams_for_symbols};
use white_shark::config::{BinanceConfig, KalshiConfig};
use white_shark::kalshi::lifecycle::{accumulate_page, LifecycleAction, LifecycleState};
use white_shark::kalshi::models::{KalshiMarket, MarketsResponse};
use white_shark::kalshi::models::{
    KalshiChannel, KalshiEvent, KalshiMarketLifecycleEventType, KalshiMarketLifecycleMsg,
    KalshiMarketStatus, KalshiOrderbookDelta, KalshiOrderbookSnapshot, KalshiPayload,
    KalshiTicker, KalshiWsMessage, SubscribeMessage, UnsubscribeMessage,
};
use white_shark::kalshi::protocol::{parse_book_side, route_message, Routed};
use white_shark::kalshi::models::KalshiMarketLifecycleEventType as E;
use white_shark::kalshi::models::KalshiMarketStatus as S;
use white_shark::book::BookSide;

#[test]
fn test_auth_headers() {
    let headers = AuthHeaders {
        api_key: "test-key".to_string(),
        timestamp: "1234567890".to_string(),
        signature: "test-sig".to_string(),
    };

    let tuples = headers.to_header_tuples();
    assert_eq!(tuples.len(), 3);
}

#[test]
fn header_tuples_carry_the_values() {
    let headers = AuthHeaders {
        api_key: "k".to_string(),
        timestamp: "t".to_string(),
        signature: "s".to_string(),
    };
    let tuples = headers.to_header_tuples();
    assert_eq!(tuples[0], ("KALSHI-ACCESS-KEY", "k".to_string()));
    assert_eq!(tuples[1], ("KALSHI-ACCESS-TIMESTAMP", "t".to_string()));
    assert_eq!(tuples[2], ("KALSHI-ACCESS-SIGNATURE", "s".to_string()));
}

#[test]
fn signing_payload_concatenates_in_order() {
    assert_eq!(
        signing_payload("1234567890", "GET", "/trade-api/ws/v2"),
        "1234567890GET/trade-api/ws/v2"
    );
}

fn empty_message() -> KalshiWsMessage {
    KalshiWsMessage {
        msg_type: None,
        sid: None,
        msg: None,
        data: None,
        status: None,
        error: None,
    }
}

#[test]
fn route_subscription_confirmation() {
    let msg = KalshiWsMessage {
        msg_type: Some("subscribed".to_string()),
        sid: Some(77),
        ..empty_message()
    };
    match route_message(msg) {
        Routed::SubscriptionConfirmed { sid } => assert_eq!(sid, Some(77)),
        _ => panic!("expected confirmation"),
    }
}

#[test]
fn route_error_frames() {
    let msg = KalshiWsMessage { error: Some("bad".to_string()), ..empty_message() };
    assert!(matches!(route_message(msg), Routed::ErrorNoted));
    let msg = KalshiWsMessage { msg_type: Some("error".to_string()), ..empty_message() };
    assert!(matches!(route_message(msg), Routed::ErrorNoted));
}

#[test]
fn route_without_payload_is_nothing() {
    assert!(matches!(route_message(empty_message()), Routed::Nothing));
}

#[test]
fn route_snapshot_builds_a_derived_book() {
    let snap = KalshiOrderbookSnapshot {
        market_ticker: "ETH15M-X".to_string(),
        yes_dollars: vec![("0.51".to_string(), 100)],
        no_dollars: vec![("0.47".to_string(), 90)],
    };
    let msg = KalshiWsMessage {
        msg_type: Some("orderbook_snapshot".to_string()),
        msg: Some(KalshiPayload::Snapshot(snap)),
        ..empty_message()
    };
    match route_message(msg) {
        Routed::Event(KalshiEvent::OrderbookUpdate(book)) => {
            assert_eq!(book.market_ticker, "ETH15M-X");
            assert_eq!(book.yes_asks.len(), 1);
            assert_eq!(book.yes_asks[0].price_micros, 530_000);
        }
        _ => panic!("expected an order-book update"),
    }
}

#[test]
fn route_delta_passes_through() {
    let delta = KalshiOrderbookDelta {
        market_ticker: "ETH15M-X".to_string(),
        price_dollars: "0.50".to_string(),
        delta: -80,
        side: "yes".to_string(),
    };
    let msg = KalshiWsMessage {
        msg_type: Some("orderbook_delta".to_string()),
        msg: Some(KalshiPayload::Delta(delta)),
        ..empty_message()
    };
    match route_message(msg) {
        Routed::Event(KalshiEvent::OrderbookDelta(d)) => {
            assert_eq!(d.price_dollars, "0.50");
            assert_eq!(d.delta, -80);
        }
        _ => panic!("expected a delta event"),
    }
}

#[test]
fn route_prefers_msg_over_data() {
    let ticker = KalshiTicker {
        market_ticker: "A".to_string(),
        price: None,
        yes_bid: None,
        yes_ask: None,
        price_dollars: None,
        yes_bid_dollars: None,
        no_bid_dollars: None,
        volume: None,
        volume_fp: None,
        open_interest: None,
        open_interest_fp: None,
        dollar_volume: None,
        dollar_open_interest: None,
        ts: None,
    };
    let msg = KalshiWsMessage {
        msg_type: Some("ticker".to_string()),
        msg: Some(KalshiPayload::Ticker(ticker)),
        data: Some(KalshiPayload::Unknown),
        ..empty_message()
    };
    assert!(matches!(
        route_message(msg),
        Routed::Event(KalshiEvent::TickerUpdate(_))
    ));
}

#[test]
fn parse_book_side_folds_ascii_case() {
    assert_eq!(parse_book_side("yes"), BookSide::Yes);
    assert_eq!(parse_book_side("YES"), BookSide::Yes);
    assert_eq!(parse_book_side("Yes"), BookSide::Yes);
    assert_eq!(parse_book_side("no"), BookSide::No);
    assert_eq!(parse_book_side("maybe"), BookSide::No);
}

#[test]
fn lifecycle_event_names_parse_from_the_wire() {
    assert_eq!(E::from_wire("created"), Some(E::Created));
    assert_eq!(E::from_wire("activated"), Some(E::Activated));
    assert_eq!(E::from_wire("deactivated"), Some(E::Deactivated));
    assert_eq!(E::from_wire("close_date_updated"), Some(E::CloseDateUpdated));
    assert_eq!(E::from_wire("determined"), Some(E::Determined));
    assert_eq!(E::from_wire("settled"), Some(E::Settled));
    assert_eq!(E::from_wire("renamed"), None);
}

#[test]
fn lifecycle_status_mapping_follows_the_table() {
    assert_eq!(E::Created.to_status(None), Some(S::Unopened));
    assert_eq!(E::Activated.to_status(None), Some(S::Open));
    assert_eq!(E::Deactivated.to_status(Some(true)), Some(S::Paused));
    assert_eq!(E::Deactivated.to_status(Some(false)), Some(S::Open));
    assert_eq!(E::Deactivated.to_status(None), Some(S::Open));
    assert_eq!(E::CloseDateUpdated.to_status(None), Some(S::Open));
    assert_eq!(E::Determined.to_status(None), Some(S::Closed));
    assert_eq!(E::Settled.to_status(None), Some(S::Settled));
}

fn lifecycle_msg(event_type: KalshiMarketLifecycleEventType, ticker: &str) -> KalshiMarketLifecycleMsg {
    KalshiMarketLifecycleMsg {
        event_type,
        market_ticker: ticker.to_string(),
        open_ts: None,
        close_ts: None,
        result: None,
        determination_ts: None,
        settled_ts: None,
        is_deactivated: None,
    }
}

fn market(ticker: &str) -> KalshiMarket {
    KalshiMarket {
        ticker: ticker.to_string(),
        title: None,
        subtitle: None,
        status: KalshiMarketStatus::Open,
        open_time: None,
        close_time: None,
        expiration_time: None,
        settlement_timer_seconds: None,
        volume: None,
        volume_24h: None,
        open_interest: None,
        category: None,
        series_ticker: None,
        floor_strike: None,
    }
}

#[test]
fn pagination_accumulates_until_the_cursor_runs_out() {
    let mut all: Vec<KalshiMarket> = Vec::new();
    let page = MarketsResponse { markets: vec![market("A")], cursor: Some("next".to_string()) };
    assert_eq!(accumulate_page(&mut all, page), Some("next".to_string()));
    let page = MarketsResponse { markets: vec![market("B")], cursor: Some(String::new()) };
    assert_eq!(accumulate_page(&mut all, page), None);
    let page = MarketsResponse { markets: vec![], cursor: None };
    assert_eq!(accumulate_page(&mut all, page), None);
    assert_eq!(all.len(), 2);
    assert_eq!(all[0].ticker, "A");
    assert_eq!(all[1].ticker, "B");
}

#[test]
fn determined_event_for_current_market_rolls_over() {
    let mut state = LifecycleState::new("ETH15M".to_string());
    state.set_current_market("ETH15MDEC31-0X".to_string());
    state.record_subscription("orderbook_delta", 7);
    state.record_subscription("market_lifecycle_v2", 9);
    state.record_subscription("orderbook_delta", 8);

    let action = state.handle_lifecycle(&lifecycle_msg(
        KalshiMarketLifecycleEventType::Determined,
        "ETH15MDEC31-0X",
    ));
    assert_eq!(action, LifecycleAction::Rollover);

    let sids = state.all_sids();
    assert_eq!(sids, vec![7, 8, 9]);
    state.clear_subscriptions();
    assert_eq!(state.all_sids(), Vec::<u64>::new());
}

#[test]
fn lifecycle_events_for_other_markets_are_ignored() {
    let mut state = LifecycleState::new("ETH15M".to_string());
    state.set_current_market("ETH15MDEC31-0X".to_string());
    let action = state.handle_lifecycle(&lifecycle_msg(
        KalshiMarketLifecycleEventType::Determined,
        "OTHER",
    ));
    assert_eq!(action, LifecycleAction::Ignore);
    let action = state.handle_lifecycle(&lifecycle_msg(
        KalshiMarketLifecycleEventType::Activated,
        "ETH15MDEC31-0X",
    ));
    assert_eq!(action, LifecycleAction::Ignore);
}

#[test]
fn channel_and_status_names_match_the_wire() {
    assert_eq!(KalshiChannel::Ticker.as_str(), "ticker");
    assert_eq!(KalshiChannel::OrderbookDelta.as_str(), "orderbook_delta");
    assert_eq!(KalshiChannel::Trade.as_str(), "trade");
    assert_eq!(KalshiChannel::MarketLifecycle.as_str(), "market_lifecycle_v2");
    assert_eq!(KalshiMarketStatus::Open.as_str(), "open");
    assert_eq!(KalshiMarketStatus::Closed.as_str(), "closed");
    assert_eq!(KalshiMarketStatus::Settled.as_str(), "settled");
}

#[test]
fn subscription_commands_carry_their_shapes() {
    let sub = SubscribeMessage::new(
        3,
        vec!["orderbook_delta".to_string()],
        Some(vec!["ETH15M-X".to_string()]),
    );
    assert_eq!(sub.id, 3);
    assert_eq!(sub.cmd, "subscribe");
    assert_eq!(sub.params.channels, vec!["orderbook_delta".to_string()]);

    let unsub = UnsubscribeMessage::new(4, vec![7, 9]);
    assert_eq!(unsub.id, 4);
    assert_eq!(unsub.cmd, "unsubscribe");
    assert_eq!(unsub.params.sids, Some(vec![7, 9]));
    assert!(unsub.params.channels.is_none());
}

#[test]
fn ticker_cents_translate_to_micro_dollars() {
    let ticker = KalshiTicker {
        market_ticker: "A".to_string(),
        price: None,
        yes_bid: Some(51),
        yes_ask: Some(53),
        price_dollars: None,
        yes_bid_dollars: None,
        no_bid_dollars: None,
        volume: None,
        volume_fp: None,
        open_interest: None,
        open_interest_fp: None,
        dollar_volume: None,
        dollar_open_interest: None,
        ts: None,
    };
    assert_eq!(ticker.yes_ask_micros(), Some(530_000));
    assert_eq!(ticker.yes_bid_micros(), Some(510_000));
    assert_eq!(ticker.implied_no_ask_micros(), Some(490_000));
}

#[test]
fn stream_names_lowercase_the_symbol() {
    assert_eq!(BinanceStream::Trade.stream_name("ETHUSDT"), "ethusdt@trade");
    assert_eq!(BinanceStream::BestBidAsk.stream_name("BTCUSDT"), "btcusdt@bestBidAsk");
    assert_eq!(BinanceStream::Depth20.stream_name("EthUsdt"), "ethusdt@depth20");
    assert_eq!(
        BinanceStream::Kline(KlineInterval::M15).stream_name("ETHUSDT"),
        "ethusdt@kline_15m"
    );
}

#[test]
fn sbe_urls_join_streams() {
    assert_eq!(
        build_sbe_stream_url("ETHUSDT", "trade"),
        "wss://stream-sbe.binance.com:9443/ws/ethusdt@trade"
    );
    let streams = streams_for_symbols(&vec!["ETHUSDT".to_string(), "BTCUSDT".to_string()]);
    assert_eq!(
        streams,
        vec![
            "ethusdt@trade".to_string(),
            "ethusdt@bestBidAsk".to_string(),
            "ethusdt@depth20".to_string(),
            "btcusdt@trade".to_string(),
            "btcusdt@bestBidAsk".to_string(),
            "btcusdt@depth20".to_string(),
        ]
    );
    assert_eq!(
        build_sbe_combined_url(&streams),
        "wss://stream-sbe.binance.com:9443/stream?streams=ethusdt@trade/ethusdt@bestBidAsk/ethusdt@depth20/btcusdt@trade/btcusdt@bestBidAsk/btcusdt@depth20"
    );
}

#[test]
fn stream_names_classify_by_their_tags() {
    assert_eq!(classify_stream("ethusdt@trade"), BinanceStreamKind::Trade);
    assert_eq!(classify_stream("ethusdt@bestBidAsk"), BinanceStreamKind::BestBidAsk);
    assert_eq!(classify_stream("ethusdt@depth20"), BinanceStreamKind::PartialDepth);
    assert_eq!(classify_stream("ethusdt@depth"), BinanceStreamKind::DepthUpdate);
    assert_eq!(classify_stream("ethusdt@kline_15m"), BinanceStreamKind::Kline);
    assert_eq!(classify_stream("ethusdt@ticker"), BinanceStreamKind::Unknown);
}

#[test]
fn trade_side_reflects_the_maker_flag() {
    let mut trade = BinanceTrade {
        event_type: "trade".to_string(),
        event_time: 0,
        symbol: "ETHUSDT".to_string(),
        trade_id: 1,
        price: "2500.00".to_string(),
        quantity: "0.5".to_string(),
        trade_time: 0,
        is_buyer_maker: true,
    };
    assert_eq!(trade.side(), TradeSide::Sell);
    trade.is_buyer_maker = false;
    assert_eq!(trade.side(), TradeSide::Buy);
}

#[test]
fn subscribe_requests_name_their_method() {
    let sub = SubscribeRequest::subscribe(1, vec!["ethusdt@trade".to_string()]);
    assert_eq!(sub.method, "SUBSCRIBE");
    let unsub = SubscribeRequest::unsubscribe(2, vec!["ethusdt@trade".to_string()]);
    assert_eq!(unsub.method, "UNSUBSCRIBE");
    assert_eq!(unsub.id, 2);
}

#[test]
fn builder_collects_config_and_symbols() {
    let built = BinanceClientBuilder::new()
        .use_sbe(true)
        .symbols(vec!["ETHUSDT".to_string()]);
    assert!(built.use_sbe);
    let config = built.config.expect("config");
    assert_eq!(config.tracked_symbols, vec!["ETHUSDT".to_string()]);
    assert!(config.api_key.is_none());
}

#[test]
fn defaults_track_the_usual_pairs() {
    let kalshi = KalshiConfig::default();
    assert_eq!(kalshi.private_key_path, "private_key.pem");
    assert_eq!(kalshi.tracked_symbols.len(), 2);
    let binance = BinanceConfig::default();
    assert!(binance.api_key.is_none());
    assert_eq!(binance.tracked_symbols, vec!["ETHUSDT".to_string(), "BTCUSDT".to_string()]);
}

#[test]
fn is_subscribed_matches_the_tag() {
    let msg = KalshiWsMessage {
        msg_type: Some("subscribed".to_string()),
        ..empty_message()
    };
    assert!(msg.is_subscribed());
    let other = KalshiWsMessage {
        msg_type: Some("ticker".to_string()),
        ..empty_message()
    };
    assert!(!other.is_subscribed());
}
