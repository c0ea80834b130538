use white_shark::book::{BookSide, KalshiOrderbook, OrderbookLevel};
use white_shark::kalshi::models::KalshiOrderbookSnapshot;
use white_shark::kalshi::protocol::{parse_snapshot_levels, snapshot_to_book};
use white_shark::price::parse_price_micros;
use white_shark::state::KalshiState;

fn sample_snapshot() -> KalshiOrderbookSnapshot {
    KalshiOrderbookSnapshot {
        market_ticker: "ETH15M-X".to_string(),
        yes_dollars: vec![
            ("0.51".to_string(), 100),
            ("0.50".to_string(), 80),
        ],
        no_dollars: vec![("0.47".to_string(), 90)],
    }
}

#[test]
fn snapshot_populates_bids_and_derives_asks() {
    let book = snapshot_to_book(sample_snapshot());
    assert_eq!(book.market_ticker, "ETH15M-X");
    assert_eq!(
        book.yes_bids,
        vec![
            OrderbookLevel { price_micros: 510_000, quantity: 100 },
            OrderbookLevel { price_micros: 500_000, quantity: 80 },
        ]
    );
    assert_eq!(book.no_bids, vec![OrderbookLevel { price_micros: 470_000, quantity: 90 }]);
    assert_eq!(book.yes_asks, vec![OrderbookLevel { price_micros: 530_000, quantity: 90 }]);
    assert_eq!(book.no_asks, vec![OrderbookLevel { price_micros: 490_000, quantity: 100 }]);
}

#[test]
fn delta_that_zeroes_a_level_removes_it() {
    let mut book = snapshot_to_book(sample_snapshot());
    book.apply_delta(BookSide::Yes, 500_000, -80);
    assert_eq!(book.yes_bids, vec![OrderbookLevel { price_micros: 510_000, quantity: 100 }]);
    // The no side did not change, so the derived yes asks did not either.
    assert_eq!(book.yes_asks, vec![OrderbookLevel { price_micros: 530_000, quantity: 90 }]);
    assert_eq!(book.no_asks, vec![OrderbookLevel { price_micros: 490_000, quantity: 100 }]);
}

#[test]
fn delta_on_empty_book_inserts_then_removes() {
    let mut book = KalshiOrderbook::new_empty("M".to_string());
    book.apply_delta(BookSide::Yes, 530_000, 5);
    assert_eq!(book.yes_bids, vec![OrderbookLevel { price_micros: 530_000, quantity: 5 }]);
    book.apply_delta(BookSide::Yes, 530_000, -5);
    assert_eq!(book.yes_bids, vec![]);
}

#[test]
fn delta_accumulates_at_an_existing_price() {
    let mut book = KalshiOrderbook::new_empty("M".to_string());
    book.apply_delta(BookSide::No, 470_000, 5);
    book.apply_delta(BookSide::No, 470_000, 3);
    assert_eq!(book.no_bids, vec![OrderbookLevel { price_micros: 470_000, quantity: 8 }]);
    assert_eq!(book.yes_asks, vec![OrderbookLevel { price_micros: 530_000, quantity: 8 }]);
}

#[test]
fn negative_delta_at_absent_price_is_ignored() {
    let mut book = KalshiOrderbook::new_empty("M".to_string());
    book.apply_delta(BookSide::Yes, 400_000, -7);
    assert_eq!(book.yes_bids, vec![]);
}

#[test]
fn bids_stay_sorted_descending() {
    let mut book = KalshiOrderbook::new_empty("M".to_string());
    book.apply_delta(BookSide::Yes, 400_000, 1);
    book.apply_delta(BookSide::Yes, 600_000, 2);
    book.apply_delta(BookSide::Yes, 500_000, 3);
    let prices: Vec<u64> = book.yes_bids.iter().map(|l| l.price_micros).collect();
    assert_eq!(prices, vec![600_000, 500_000, 400_000]);
}

#[test]
fn net_zero_delta_sequence_restores_the_level() {
    let mut book = KalshiOrderbook::new_empty("M".to_string());
    book.apply_delta(BookSide::Yes, 530_000, 10);
    book.apply_delta(BookSide::Yes, 530_000, -4);
    book.apply_delta(BookSide::Yes, 530_000, 7);
    book.apply_delta(BookSide::Yes, 530_000, -3);
    assert_eq!(book.yes_bids, vec![OrderbookLevel { price_micros: 530_000, quantity: 10 }]);
}

#[test]
fn parse_price_handles_dollar_strings() {
    assert_eq!(parse_price_micros("0.53"), Some(530_000));
    assert_eq!(parse_price_micros("0.5312"), Some(531_200));
    assert_eq!(parse_price_micros("1"), Some(1_000_000));
    assert_eq!(parse_price_micros(".5"), Some(500_000));
    assert_eq!(parse_price_micros("0.000001"), Some(1));
    assert_eq!(parse_price_micros("0"), Some(0));
}

#[test]
fn parse_price_rejects_malformed_strings() {
    assert_eq!(parse_price_micros(""), None);
    assert_eq!(parse_price_micros("."), None);
    assert_eq!(parse_price_micros("abc"), None);
    assert_eq!(parse_price_micros("0.1234567"), None);
    assert_eq!(parse_price_micros("1.2.3"), None);
    assert_eq!(parse_price_micros("-0.5"), None);
}

#[test]
fn snapshot_parse_drops_unparsable_entries() {
    let pairs = vec![
        ("0.51".to_string(), 10),
        ("junk".to_string(), 20),
        ("0.49".to_string(), 30),
    ];
    let levels = parse_snapshot_levels(&pairs);
    assert_eq!(
        levels,
        vec![
            OrderbookLevel { price_micros: 510_000, quantity: 10 },
            OrderbookLevel { price_micros: 490_000, quantity: 30 },
        ]
    );
}

#[test]
fn store_applies_snapshots_and_deltas_per_market() {
    let mut state = KalshiState::new();
    let ticker = "ETH15M-X".to_string();
    let yes = parse_snapshot_levels(&vec![
        ("0.51".to_string(), 100),
        ("0.50".to_string(), 80),
    ]);
    let no = parse_snapshot_levels(&vec![("0.47".to_string(), 90)]);
    state.apply_snapshot(&ticker, &yes, &no);
    assert_eq!(state.get_top_bid(&ticker), Some(510_000));
    assert_eq!(state.get_top_ask(&ticker), Some(530_000));

    state.apply_delta(&ticker, BookSide::Yes, 520_000, 5);
    assert_eq!(state.get_top_bid(&ticker), Some(520_000));

    let other = "BTC15M-Y".to_string();
    assert_eq!(state.get_top_bid(&other), None);
    assert!(state.get_orderbook(&other).is_none());
    let book = state.get_orderbook(&ticker).expect("book");
    assert_eq!(book.no_bids, vec![OrderbookLevel { price_micros: 470_000, quantity: 90 }]);
}

#[test]
fn store_processes_routed_updates_and_deltas() {
    let mut state = KalshiState::new();
    let ticker = "ETH15M-X".to_string();
    let book = snapshot_to_book(sample_snapshot());
    state.process_orderbook_update(&book);
    assert_eq!(state.get_top_bid(&ticker), Some(510_000));

    let applied = state.process_orderbook_delta(&white_shark::kalshi::models::KalshiOrderbookDelta {
        market_ticker: ticker.clone(),
        price_dollars: "0.50".to_string(),
        delta: -80,
        side: "yes".to_string(),
    });
    assert!(applied);
    let updated = state.get_orderbook(&ticker).expect("book");
    assert_eq!(updated.yes_bids, vec![OrderbookLevel { price_micros: 510_000, quantity: 100 }]);

    let rejected = state.process_orderbook_delta(&white_shark::kalshi::models::KalshiOrderbookDelta {
        market_ticker: ticker.clone(),
        price_dollars: "junk".to_string(),
        delta: 5,
        side: "yes".to_string(),
    });
    assert!(!rejected);
    assert_eq!(state.get_top_bid(&ticker), Some(510_000));
}

#[test]
fn store_tracks_markets() {
    let mut state = KalshiState::new();
    assert_eq!(state.first_tracked(), None);
    let ticker = "ETH15M-X".to_string();
    assert!(!state.is_tracked(&ticker));
    let market = white_shark::kalshi::models::KalshiMarket {
        ticker: ticker.clone(),
        title: None,
        subtitle: None,
        status: white_shark::kalshi::models::KalshiMarketStatus::Open,
        open_time: None,
        close_time: None,
        expiration_time: None,
        settlement_timer_seconds: None,
        volume: None,
        volume_24h: None,
        open_interest: None,
        category: None,
        series_ticker: Some("ETH15M".to_string()),
        floor_strike: None,
    };
    state.track_market(market);
    assert!(state.is_tracked(&ticker));
    assert_eq!(state.first_tracked(), Some(ticker));
}
