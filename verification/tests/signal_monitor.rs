use white_shark::book::{KalshiOrderbook, OrderbookLevel};
use white_shark::imbalance::{detect_imbalance, evaluate_imbalance, ImbalanceAlert};
use white_shark::monitor::{AlertDecision, MonitorState, PriceQuad};
use white_shark::sbe::depth::{DepthSnapshotView, DepthSums};
use white_shark::sbe::messages::DepthSnapshotStreamEvent;
use white_shark::sbe::wire::DepthLevel;

fn sums(top5: i128, top10: i128, all: i128) -> DepthSums {
    DepthSums { top5, top10, all }
}

fn sample_alert() -> ImbalanceAlert {
    ImbalanceAlert {
        message_received_micros: 1_700_000_000_000_000,
        detected_epoch_millis: 1_700_000_000_123,
        symbol: "ETHUSDT".to_string(),
        bids: sums(2000, 2000, 2000),
        asks: sums(10, 10, 10),
        qty_exponent: -8,
    }
}

fn sample_book() -> KalshiOrderbook {
    let mut book = KalshiOrderbook::new_empty("ETH15M-X".to_string());
    let yes = vec![OrderbookLevel { price_micros: 510_000, quantity: 100 }];
    let no = vec![OrderbookLevel { price_micros: 470_000, quantity: 90 }];
    book.apply_snapshot(&yes, &no);
    book
}

#[test]
fn no_alert_when_top5_ask_sum_is_not_positive() {
    assert!(!evaluate_imbalance(&sums(1_000_000, 1_000_000, 1_000_000), &sums(0, 10, 10)));
    assert!(!evaluate_imbalance(&sums(1_000_000, 1_000_000, 1_000_000), &sums(-5, 10, 10)));
}

#[test]
fn alert_fires_when_bids_dwarf_asks() {
    // 2000 / 10 = 200, beyond the upper threshold of one hundred.
    assert!(evaluate_imbalance(&sums(2000, 2000, 2000), &sums(10, 2000, 2000)));
}

#[test]
fn alert_fires_when_bids_vanish_against_asks() {
    // 1 / 500 is below the lower threshold of one hundredth.
    assert!(evaluate_imbalance(&sums(1, 500, 500), &sums(500, 500, 500)));
}

#[test]
fn no_alert_when_ratios_are_moderate() {
    assert!(!evaluate_imbalance(&sums(50, 80, 100), &sums(10, 20, 30)));
}

#[test]
fn exact_threshold_does_not_fire() {
    // Exactly one hundred is not beyond the threshold.
    assert!(!evaluate_imbalance(&sums(1000, 1000, 1000), &sums(10, 10, 10)));
}

#[test]
fn detector_runs_over_a_lazy_snapshot_view() {
    let event = DepthSnapshotStreamEvent {
        event_time_micros: 1_700_000_000_000_000,
        book_update_id: 9,
        price_exponent: -2,
        qty_exponent: -8,
        bids: vec![DepthLevel { price_mantissa: 100, qty_mantissa: 2000 }],
        asks: vec![DepthLevel { price_mantissa: 101, qty_mantissa: 10 }],
        symbol: "ETHUSDT".to_string(),
    };
    let frame = event.encode();
    let view = DepthSnapshotView::decode(&frame[8..]).expect("decode");
    let alert = detect_imbalance(&view, "ETHUSDT".to_string(), 1_700_000_000_000_000, 77)
        .expect("sums")
        .expect("alert");
    assert_eq!(alert.symbol, "ETHUSDT");
    assert_eq!(alert.detected_epoch_millis, 77);
    assert_eq!(alert.bids.top5, 2000);
    assert_eq!(alert.asks.top5, 10);
}

#[test]
fn detector_is_silent_on_an_empty_ask_side() {
    let event = DepthSnapshotStreamEvent {
        event_time_micros: 0,
        book_update_id: 0,
        price_exponent: 0,
        qty_exponent: 0,
        bids: vec![DepthLevel { price_mantissa: 1, qty_mantissa: 1_000_000 }],
        asks: vec![],
        symbol: "X".to_string(),
    };
    let frame = event.encode();
    let view = DepthSnapshotView::decode(&frame[8..]).expect("decode");
    let r = detect_imbalance(&view, "X".to_string(), 0, 0).expect("sums");
    assert!(r.is_none());
}

#[test]
fn second_alert_within_window_is_skipped() {
    let mut monitors = MonitorState::new();
    let book = sample_book();
    let t0: u64 = 1_000_000;
    let first = monitors.handle_alert(&sample_alert(), Some(&book), t0);
    assert_eq!(first, AlertDecision::Started);
    assert_eq!(monitors.sessions.len(), 1);

    // Four seconds later: still inside the fifteen-second window.
    let second = monitors.handle_alert(&sample_alert(), Some(&book), t0 + 4_000);
    assert_eq!(second, AlertDecision::SkippedActive);
    assert_eq!(monitors.sessions.len(), 1);
}

#[test]
fn alert_after_window_opens_a_new_session() {
    let mut monitors = MonitorState::new();
    let book = sample_book();
    let t0: u64 = 1_000_000;
    assert_eq!(monitors.handle_alert(&sample_alert(), Some(&book), t0), AlertDecision::Started);
    let later = monitors.handle_alert(&sample_alert(), Some(&book), t0 + 15_001);
    assert_eq!(later, AlertDecision::Started);
    assert_eq!(monitors.sessions.len(), 2);
}

#[test]
fn alert_without_a_book_is_skipped() {
    let mut monitors = MonitorState::new();
    assert_eq!(monitors.handle_alert(&sample_alert(), None, 5), AlertDecision::SkippedNoBook);
    assert_eq!(monitors.sessions.len(), 0);
}

#[test]
fn session_records_changes_within_window_only() {
    let mut monitors = MonitorState::new();
    let book = sample_book();
    let t0: u64 = 1_000_000;
    assert_eq!(monitors.handle_alert(&sample_alert(), Some(&book), t0), AlertDecision::Started);
    // The session was seeded with the initial quad.
    assert_eq!(monitors.sessions[0].observations.len(), 1);

    let quad = |yes_bid: u64| PriceQuad {
        yes_ask: 530_000,
        no_ask: 490_000,
        yes_bid,
        no_bid: 470_000,
    };
    monitors.record_change(quad(505_000), t0 + 1_000);
    monitors.record_change(quad(512_000), t0 + 5_000);
    monitors.record_change(quad(508_000), t0 + 10_000);
    // Past the window: not recorded.
    monitors.record_change(quad(555_000), t0 + 16_000);

    let session = monitors
        .finish_session(&"ETHUSDT".to_string(), 1_700_000_000_123)
        .expect("session");
    assert_eq!(session.observations.len(), 4);
    assert_eq!(session.observations[1].quad.yes_bid, 505_000);
    assert_eq!(session.observations[3].quad.yes_bid, 508_000);
    assert_eq!(monitors.sessions.len(), 0);
}

#[test]
fn unchanged_quad_is_not_recorded_twice() {
    let mut monitors = MonitorState::new();
    let book = sample_book();
    let t0: u64 = 1_000_000;
    assert_eq!(monitors.handle_alert(&sample_alert(), Some(&book), t0), AlertDecision::Started);
    let quad = PriceQuad { yes_ask: 530_000, no_ask: 490_000, yes_bid: 510_000, no_bid: 470_000 };
    // Equal to the seed on every price: dropped.
    monitors.record_change(quad, t0 + 1_000);
    // One micro-dollar away on one price: still within tolerance, dropped.
    let near = PriceQuad { yes_bid: 510_001, ..quad };
    monitors.record_change(near, t0 + 2_000);
    // Two micro-dollars away: recorded.
    let far = PriceQuad { yes_bid: 510_002, ..quad };
    monitors.record_change(far, t0 + 3_000);
    assert_eq!(monitors.sessions[0].observations.len(), 2);
}

#[test]
fn finish_session_without_match_returns_none() {
    let mut monitors = MonitorState::new();
    assert!(monitors.finish_session(&"NONE".to_string(), 1).is_none());
}
