use white_shark::errors::{DecodeError, DecodeErrorKind, Error};
use white_shark::sbe::cursor::{read_i64_le_from, SbeCursor};
use white_shark::sbe::decoder::SbeDecoder;
use white_shark::sbe::depth::DepthSnapshotView;
use white_shark::sbe::messages::{
    BestBidAskStreamEvent, DepthSnapshotStreamEvent, SbeMessage, TradeStreamEvent,
};
use white_shark::sbe::types::{read_symbol, MessageHeader, SbeMessageType};
use white_shark::sbe::wire::{DepthLevel, Trade};

fn push_u16(out: &mut Vec<u8>, v: u16) {
    out.extend_from_slice(&v.to_le_bytes());
}

fn push_u32(out: &mut Vec<u8>, v: u32) {
    out.extend_from_slice(&v.to_le_bytes());
}

fn push_i64(out: &mut Vec<u8>, v: i64) {
    out.extend_from_slice(&v.to_le_bytes());
}

#[test]
fn trade_frame_round_trips() {
    let event = TradeStreamEvent {
        event_time_micros: 1_700_000_000_000_000,
        transact_time_micros: 1_700_000_000_000_123,
        price_exponent: -2,
        qty_exponent: -8,
        trades: vec![Trade {
            id: 42,
            price_mantissa: 345_601,
            qty_mantissa: 250_000_000,
            is_buyer_maker: true,
        }],
        symbol: "ETHUSDT".to_string(),
    };
    let frame = event.encode();
    let decoder = SbeDecoder::new();
    match decoder.decode(&frame).expect("decode") {
        SbeMessage::Trade(e) => {
            assert_eq!(e.event_time_micros, 1_700_000_000_000_000);
            assert_eq!(e.transact_time_micros, 1_700_000_000_000_123);
            assert_eq!(e.price_exponent, -2);
            assert_eq!(e.qty_exponent, -8);
            assert_eq!(e.trades.len(), 1);
            assert_eq!(e.trades[0].id, 42);
            assert_eq!(e.trades[0].price_mantissa, 345_601);
            assert_eq!(e.trades[0].qty_mantissa, 250_000_000);
            assert!(e.trades[0].is_buyer_maker);
            assert_eq!(e.symbol, "ETHUSDT");
        }
        _ => panic!("wrong message kind"),
    }
}

#[test]
fn trade_frame_with_empty_group_round_trips() {
    let event = TradeStreamEvent {
        event_time_micros: 5,
        transact_time_micros: 6,
        price_exponent: 0,
        qty_exponent: 0,
        trades: vec![],
        symbol: "BTCUSDT".to_string(),
    };
    let frame = event.encode();
    match SbeDecoder::new().decode(&frame).expect("decode") {
        SbeMessage::Trade(e) => {
            assert_eq!(e.trades.len(), 0);
            assert_eq!(e.symbol, "BTCUSDT");
        }
        _ => panic!("wrong message kind"),
    }
}

#[test]
fn bba_frame_round_trips() {
    let event = BestBidAskStreamEvent {
        event_time_micros: 99,
        book_update_id: 1234,
        price_exponent: -2,
        qty_exponent: -3,
        bid_price_mantissa: 250_012,
        bid_qty_mantissa: 7_000,
        ask_price_mantissa: 250_013,
        ask_qty_mantissa: 6_000,
        symbol: "ETHUSDT".to_string(),
    };
    let frame = event.encode();
    match SbeDecoder::new().decode(&frame).expect("decode") {
        SbeMessage::BestBidAsk(e) => {
            assert_eq!(e.book_update_id, 1234);
            assert_eq!(e.bid_price_mantissa, 250_012);
            assert_eq!(e.ask_qty_mantissa, 6_000);
            assert_eq!(e.symbol, "ETHUSDT");
        }
        _ => panic!("wrong message kind"),
    }
}

#[test]
fn depth_frame_round_trips() {
    let event = DepthSnapshotStreamEvent {
        event_time_micros: 7,
        book_update_id: 8,
        price_exponent: -2,
        qty_exponent: -8,
        bids: vec![
            DepthLevel { price_mantissa: 100, qty_mantissa: 11 },
            DepthLevel { price_mantissa: 99, qty_mantissa: 12 },
        ],
        asks: vec![DepthLevel { price_mantissa: 101, qty_mantissa: 5 }],
        symbol: "ETHUSDT".to_string(),
    };
    let frame = event.encode();
    match SbeDecoder::new().decode(&frame).expect("decode") {
        SbeMessage::DepthSnapshot(e) => {
            assert_eq!(e.bids.len(), 2);
            assert_eq!(e.bids[1].qty_mantissa, 12);
            assert_eq!(e.asks.len(), 1);
            assert_eq!(e.asks[0].price_mantissa, 101);
            assert_eq!(e.symbol, "ETHUSDT");
        }
        _ => panic!("wrong message kind"),
    }
}

// A trade body whose group declares 26-byte blocks: the decoder must skip
// the first three entries and surface the last one.
#[test]
fn trade_batch_skips_to_last_entry() {
    let mut body: Vec<u8> = Vec::new();
    push_i64(&mut body, 111); // event time
    push_i64(&mut body, 222); // transact time
    body.push(0u8.wrapping_sub(2)); // price exponent -2
    body.push(0); // qty exponent
    push_u16(&mut body, 26); // block length
    push_u32(&mut body, 4); // num trades
    for k in 0..4i64 {
        push_i64(&mut body, k); // id
        push_i64(&mut body, 1000 + k); // price mantissa
        push_i64(&mut body, 50 + k); // qty mantissa
        body.push(0); // is_buyer_maker
        body.push(1); // is_best_match
    }
    body.push(3);
    body.extend_from_slice(b"ETH");
    let e = TradeStreamEvent::decode(&body).expect("decode");
    assert_eq!(e.trades.len(), 1);
    assert_eq!(e.trades[0].id, 3);
    assert_eq!(e.trades[0].price_mantissa, 1003);
    assert_eq!(e.symbol, "ETH");
}

// A single 25-byte block has no trailing is_best_match byte to read.
#[test]
fn trade_block_25_has_no_best_match_byte() {
    let mut body: Vec<u8> = Vec::new();
    push_i64(&mut body, 1);
    push_i64(&mut body, 2);
    body.push(0);
    body.push(0);
    push_u16(&mut body, 25);
    push_u32(&mut body, 1);
    push_i64(&mut body, 9); // id
    push_i64(&mut body, 10); // price
    push_i64(&mut body, 11); // qty
    body.push(1); // is_buyer_maker; block ends here
    body.push(2);
    body.extend_from_slice(b"AB");
    let e = TradeStreamEvent::decode(&body).expect("decode");
    assert_eq!(e.trades.len(), 1);
    assert!(e.trades[0].is_buyer_maker);
    assert_eq!(e.symbol, "AB");
}

#[test]
fn empty_depth_groups_decode_to_empty_sides() {
    let event = DepthSnapshotStreamEvent {
        event_time_micros: 1,
        book_update_id: 2,
        price_exponent: 0,
        qty_exponent: 0,
        bids: vec![],
        asks: vec![],
        symbol: "X".to_string(),
    };
    let frame = event.encode();
    match SbeDecoder::new().decode(&frame).expect("decode") {
        SbeMessage::DepthSnapshot(e) => {
            assert_eq!(e.bids.len(), 0);
            assert_eq!(e.asks.len(), 0);
        }
        _ => panic!("wrong message kind"),
    }
}

#[test]
fn empty_symbol_decodes_to_empty_string() {
    let event = BestBidAskStreamEvent {
        event_time_micros: 0,
        book_update_id: 0,
        price_exponent: 0,
        qty_exponent: 0,
        bid_price_mantissa: 0,
        bid_qty_mantissa: 0,
        ask_price_mantissa: 0,
        ask_qty_mantissa: 0,
        symbol: String::new(),
    };
    let frame = event.encode();
    match SbeDecoder::new().decode(&frame).expect("decode") {
        SbeMessage::BestBidAsk(e) => assert_eq!(e.symbol, ""),
        _ => panic!("wrong message kind"),
    }
}

#[test]
fn error_kinds_have_names() {
    let e = Error::SbeDecode(DecodeError { kind: DecodeErrorKind::ShortFrame, needed: 8, have: 2 });
    assert_eq!(e.kind_name(), "decode");
    assert_eq!(Error::Config("missing".to_string()).kind_name(), "configuration");
    assert_eq!(Error::MarketNotFound("X".to_string()).kind_name(), "market not found");
}

#[test]
fn truncated_frame_is_short_frame_error() {
    let err = SbeDecoder::new().decode(&[1, 2, 3]).unwrap_err();
    assert_eq!(err.kind, DecodeErrorKind::ShortFrame);
}

#[test]
fn unknown_template_is_an_error() {
    let mut frame: Vec<u8> = Vec::new();
    push_u16(&mut frame, 0); // block length
    push_u16(&mut frame, 4242); // template id outside the schema
    push_u16(&mut frame, 1);
    push_u16(&mut frame, 0);
    let err = SbeDecoder::new().decode(&frame).unwrap_err();
    assert_eq!(err.kind, DecodeErrorKind::Unknown);
}

#[test]
fn invalid_utf8_symbol_is_bad_utf8_error() {
    let mut body: Vec<u8> = Vec::new();
    push_i64(&mut body, 0);
    push_i64(&mut body, 0);
    body.push(0);
    body.push(0);
    push_u16(&mut body, 25);
    push_u32(&mut body, 0);
    body.push(2);
    body.extend_from_slice(&[0xff, 0xfe]);
    let err = TradeStreamEvent::decode(&body).unwrap_err();
    assert_eq!(err.kind, DecodeErrorKind::BadUtf8);
}

#[test]
fn header_fields_decode_little_endian() {
    let mut bytes: Vec<u8> = Vec::new();
    push_u16(&mut bytes, 18);
    push_u16(&mut bytes, 10002);
    push_u16(&mut bytes, 1);
    push_u16(&mut bytes, 0);
    let h = MessageHeader::decode(&bytes).expect("decode");
    assert_eq!(h.block_length, 18);
    assert_eq!(h.template_id, 10002);
    assert_eq!(h.schema_id, 1);
    assert_eq!(h.version, 0);
    assert_eq!(h.message_type(), SbeMessageType::DepthSnapshot);
}

#[test]
fn cursor_reads_little_endian_fields() {
    let data: Vec<u8> = vec![0x01, 0x02, 0x03, 0x04, 0x05, 0x06, 0x07, 0x08, 0x09, 0x0a];
    let mut cursor = SbeCursor::new(&data);
    assert_eq!(cursor.read_u16_le().unwrap(), 0x0201);
    assert_eq!(cursor.read_u32_le().unwrap(), 0x06050403);
    assert_eq!(cursor.position(), 6);
    assert_eq!(cursor.remaining(), 4);
    assert!(cursor.read_i64_le().is_err());
    assert!(cursor.skip(4).is_ok());
    assert_eq!(cursor.remaining(), 0);
}

#[test]
fn cursor_var_string_reads_length_prefixed_utf8() {
    let data: Vec<u8> = vec![3, b'A', b'B', b'C', 9];
    let mut cursor = SbeCursor::new(&data);
    assert_eq!(cursor.read_var_string8().unwrap(), "ABC");
    assert_eq!(cursor.position(), 4);
}

#[test]
fn read_i64_le_from_reads_prefix() {
    let data: Vec<u8> = vec![0x2a, 0, 0, 0, 0, 0, 0, 0, 0xff];
    assert_eq!(read_i64_le_from(&data).unwrap(), 42);
    assert!(read_i64_le_from(&data[..7]).is_err());
}

#[test]
fn read_symbol_stops_at_first_zero() {
    let bytes: Vec<u8> = vec![b'E', b'T', b'H', 0, b'X', b'Y'];
    assert_eq!(read_symbol(&bytes), "ETH");
    let no_zero: Vec<u8> = vec![b'B', b'T', b'C'];
    assert_eq!(read_symbol(&no_zero), "BTC");
}

// The lazy sums over the raw group bytes must equal summing the eagerly
// parsed levels of the same frame.
#[test]
fn lazy_sums_match_eager_parse() {
    let bids: Vec<DepthLevel> = (0..12)
        .map(|k| DepthLevel { price_mantissa: 1000 - k, qty_mantissa: 10 + k })
        .collect();
    let asks: Vec<DepthLevel> = (0..7)
        .map(|k| DepthLevel { price_mantissa: 1001 + k, qty_mantissa: 3 + k })
        .collect();
    let event = DepthSnapshotStreamEvent {
        event_time_micros: 1,
        book_update_id: 2,
        price_exponent: -2,
        qty_exponent: -8,
        bids: bids.clone(),
        asks: asks.clone(),
        symbol: "ETHUSDT".to_string(),
    };
    let frame = event.encode();
    let body = &frame[8..];
    let view = DepthSnapshotView::decode(body).expect("lazy decode");
    assert_eq!(view.qty_exponent, -8);
    let bid_sums = view.bids.sum_qtys_top5_top10_all().expect("sums");
    let ask_sums = view.asks.sum_qtys_top5_top10_all().expect("sums");

    let eager_bids: i128 = bids.iter().map(|l| l.qty_mantissa as i128).sum();
    let eager_bids_5: i128 = bids.iter().take(5).map(|l| l.qty_mantissa as i128).sum();
    let eager_bids_10: i128 = bids.iter().take(10).map(|l| l.qty_mantissa as i128).sum();
    assert_eq!(bid_sums.top5, eager_bids_5);
    assert_eq!(bid_sums.top10, eager_bids_10);
    assert_eq!(bid_sums.all, eager_bids);

    let eager_asks: i128 = asks.iter().map(|l| l.qty_mantissa as i128).sum();
    let eager_asks_5: i128 = asks.iter().take(5).map(|l| l.qty_mantissa as i128).sum();
    assert_eq!(ask_sums.top5, eager_asks_5);
    assert_eq!(ask_sums.top10, eager_asks);
    assert_eq!(ask_sums.all, eager_asks);
}
