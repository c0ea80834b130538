//! The wire grammar of the SBE message bodies, written as specification
//! functions over byte sequences. The executable decoders and encoders are
//! proved against these definitions, and the round-trip laws are stated over
//! them.

use vstd::prelude::*;
use vstd::bytes::{
    spec_u16_from_le_bytes, spec_u16_to_le_bytes, spec_u32_from_le_bytes, spec_u32_to_le_bytes,
    spec_u64_from_le_bytes, spec_u64_to_le_bytes,
};
use vstd::utf8::{decode_utf8, encode_utf8, valid_utf8};

use crate::errors::DecodeErrorKind;
use super::cursor::spec_i64_from_le_bytes;

verus! {

/// Numeric identifier of each message template in the schema.
pub const TEMPLATE_TRADES_STREAM: u16 = 10000;

pub const TEMPLATE_BEST_BID_ASK_STREAM: u16 = 10001;

pub const TEMPLATE_DEPTH_SNAPSHOT_STREAM: u16 = 10002;

pub const TEMPLATE_DEPTH_DIFF_STREAM: u16 = 10003;

/// Schema id and version this decoder expects; a mismatch is advisory only.
pub const SCHEMA_ID: u16 = 1;

pub const SCHEMA_VERSION: u16 = 0;

/// One trade entry, prices and quantities as raw mantissas; the enclosing
/// message carries the exponents.
#[derive(Debug, Clone, Copy, PartialEq, Eq, Structural)]
pub struct Trade {
    pub id: i64,
    pub price_mantissa: i64,
    pub qty_mantissa: i64,
    pub is_buyer_maker: bool,
}

/// One depth level: price and quantity mantissas.
#[derive(Debug, Clone, Copy, PartialEq, Eq, Structural)]
pub struct DepthLevel {
    pub price_mantissa: i64,
    pub qty_mantissa: i64,
}

/// Specification-level value of a decoded trade-stream message.
#[verifier::ext_equal]
pub struct TradeStreamEventV {
    pub event_time_micros: i64,
    pub transact_time_micros: i64,
    pub price_exponent: i8,
    pub qty_exponent: i8,
    pub trades: Seq<Trade>,
    pub symbol: Seq<char>,
}

/// Specification-level value of a decoded best-bid/ask message.
#[verifier::ext_equal]
pub struct BestBidAskStreamEventV {
    pub event_time_micros: i64,
    pub book_update_id: i64,
    pub price_exponent: i8,
    pub qty_exponent: i8,
    pub bid_price_mantissa: i64,
    pub bid_qty_mantissa: i64,
    pub ask_price_mantissa: i64,
    pub ask_qty_mantissa: i64,
    pub symbol: Seq<char>,
}

/// Specification-level value of a decoded depth-snapshot message.
#[verifier::ext_equal]
pub struct DepthSnapshotStreamEventV {
    pub event_time_micros: i64,
    pub book_update_id: i64,
    pub price_exponent: i8,
    pub qty_exponent: i8,
    pub bids: Seq<DepthLevel>,
    pub asks: Seq<DepthLevel>,
    pub symbol: Seq<char>,
}

/// Specification-level value of a decoded depth-diff message.
#[verifier::ext_equal]
pub struct DepthDiffStreamEventV {
    pub event_time_micros: i64,
    pub first_book_update_id: i64,
    pub last_book_update_id: i64,
    pub price_exponent: i8,
    pub qty_exponent: i8,
    pub bids: Seq<DepthLevel>,
    pub asks: Seq<DepthLevel>,
    pub symbol: Seq<char>,
}

/// The length-prefixed UTF-8 string at position `pos`, or the error class of
/// its absence: too few bytes, or bytes that are not UTF-8.
pub open spec fn parse_var_string8(d: Seq<u8>, pos: int) -> Result<Seq<char>, DecodeErrorKind> {
    if pos + 1 > d.len() {
        Err(DecodeErrorKind::ShortFrame)
    } else {
        let len = d[pos] as int;
        if pos + 1 + len > d.len() {
            Err(DecodeErrorKind::ShortFrame)
        } else {
            let bytes = d.subrange(pos + 1, pos + 1 + len);
            if valid_utf8(bytes) {
                Ok(decode_utf8(bytes))
            } else {
                Err(DecodeErrorKind::BadUtf8)
            }
        }
    }
}

/// A trade-stream body: two timestamps, two exponents, a repeating group of
/// trades of which only the last is surfaced, then the symbol.
pub open spec fn parse_trade_body(d: Seq<u8>) -> Result<TradeStreamEventV, DecodeErrorKind> {
    if d.len() < 24 {
        Err(DecodeErrorKind::ShortFrame)
    } else {
        let event_time_micros = spec_i64_from_le_bytes(d.subrange(0, 8));
        let transact_time_micros = spec_i64_from_le_bytes(d.subrange(8, 16));
        let price_exponent = d[16] as i8;
        let qty_exponent = d[17] as i8;
        let bl = spec_u16_from_le_bytes(d.subrange(18, 20)) as int;
        let n = spec_u32_from_le_bytes(d.subrange(20, 24)) as int;
        if n == 0 {
            match parse_var_string8(d, 24) {
                Ok(symbol) => Ok(
                    TradeStreamEventV {
                        event_time_micros,
                        transact_time_micros,
                        price_exponent,
                        qty_exponent,
                        trades: Seq::empty(),
                        symbol,
                    },
                ),
                Err(k) => Err(k),
            }
        } else if bl < 25 {
            Err(DecodeErrorKind::BadGroup)
        } else {
            let last_start = 24 + (n - 1) * bl;
            if last_start + bl > d.len() {
                Err(DecodeErrorKind::ShortFrame)
            } else {
                let trade = Trade {
                    id: spec_i64_from_le_bytes(d.subrange(last_start, last_start + 8)),
                    price_mantissa: spec_i64_from_le_bytes(
                        d.subrange(last_start + 8, last_start + 16),
                    ),
                    qty_mantissa: spec_i64_from_le_bytes(
                        d.subrange(last_start + 16, last_start + 24),
                    ),
                    is_buyer_maker: d[last_start + 24] != 0,
                };
                match parse_var_string8(d, last_start + bl) {
                    Ok(symbol) => Ok(
                        TradeStreamEventV {
                            event_time_micros,
                            transact_time_micros,
                            price_exponent,
                            qty_exponent,
                            trades: seq![trade],
                            symbol,
                        },
                    ),
                    Err(k) => Err(k),
                }
            }
        }
    }
}

/// A best-bid/ask body: timestamp, book-update id, two exponents, four
/// mantissas, then the symbol.
pub open spec fn parse_bba_body(d: Seq<u8>) -> Result<BestBidAskStreamEventV, DecodeErrorKind> {
    if d.len() < 50 {
        Err(DecodeErrorKind::ShortFrame)
    } else {
        match parse_var_string8(d, 50) {
            Ok(symbol) => Ok(
                BestBidAskStreamEventV {
                    event_time_micros: spec_i64_from_le_bytes(d.subrange(0, 8)),
                    book_update_id: spec_i64_from_le_bytes(d.subrange(8, 16)),
                    price_exponent: d[16] as i8,
                    qty_exponent: d[17] as i8,
                    bid_price_mantissa: spec_i64_from_le_bytes(d.subrange(18, 26)),
                    bid_qty_mantissa: spec_i64_from_le_bytes(d.subrange(26, 34)),
                    ask_price_mantissa: spec_i64_from_le_bytes(d.subrange(34, 42)),
                    ask_qty_mantissa: spec_i64_from_le_bytes(d.subrange(42, 50)),
                    symbol,
                },
            ),
            Err(k) => Err(k),
        }
    }
}

/// The sequence of `n` depth levels striding `bl` bytes from `start`. The
/// block length is the authoritative stride; fields beyond the first 16 bytes
/// of a block are padding.
pub open spec fn depth_levels_at(d: Seq<u8>, start: int, bl: int, n: int) -> Seq<DepthLevel> {
    Seq::new(
        n as nat,
        |i: int|
            DepthLevel {
                price_mantissa: spec_i64_from_le_bytes(
                    d.subrange(start + i * bl, start + i * bl + 8),
                ),
                qty_mantissa: spec_i64_from_le_bytes(
                    d.subrange(start + i * bl + 8, start + i * bl + 16),
                ),
            },
    )
}

/// Carving the member bytes out of the frame does not change the levels they
/// denote.
pub proof fn lemma_levels_of_subrange(d: Seq<u8>, a: int, bl: int, n: int)
    requires
        16 <= bl,
        0 <= n,
        0 <= a,
        a + n * bl <= d.len(),
    ensures
        depth_levels_at(d.subrange(a, a + n * bl), 0, bl, n) =~= depth_levels_at(d, a, bl, n),
{
    let carved = d.subrange(a, a + n * bl);
    assert forall|i: int| 0 <= i < n implies depth_levels_at(carved, 0, bl, n)[i]
        == depth_levels_at(d, a, bl, n)[i] by {
        assert(i * bl + bl <= n * bl) by (nonlinear_arith)
            requires
                i + 1 <= n,
                bl >= 0,
        ;
        assert(0 <= i * bl) by (nonlinear_arith)
            requires
                0 <= i,
                0 <= bl,
        ;
        assert(carved.subrange(i * bl, i * bl + 8) =~= d.subrange(a + i * bl, a + i * bl + 8));
        assert(carved.subrange(i * bl + 8, i * bl + 16) =~= d.subrange(
            a + i * bl + 8,
            a + i * bl + 16,
        ));
    }
}

/// A depth repeating group at `pos`: 2-byte block length, 2-byte count, then
/// the members. Yields the parsed levels and the position after the group.
pub open spec fn parse_depth_group(d: Seq<u8>, pos: int) -> Result<
    (Seq<DepthLevel>, int),
    DecodeErrorKind,
> {
    if pos + 4 > d.len() {
        Err(DecodeErrorKind::ShortFrame)
    } else {
        let bl = spec_u16_from_le_bytes(d.subrange(pos, pos + 2)) as int;
        let n = spec_u16_from_le_bytes(d.subrange(pos + 2, pos + 4)) as int;
        if bl < 16 {
            Err(DecodeErrorKind::BadGroup)
        } else if pos + 4 + n * bl > d.len() {
            Err(DecodeErrorKind::ShortFrame)
        } else {
            Ok((depth_levels_at(d, pos + 4, bl, n), pos + 4 + n * bl))
        }
    }
}

/// A depth-snapshot body: timestamp, book-update id, two exponents, a bids
/// group, an asks group, then the symbol.
pub open spec fn parse_depth_body(d: Seq<u8>) -> Result<
    DepthSnapshotStreamEventV,
    DecodeErrorKind,
> {
    if d.len() < 18 {
        Err(DecodeErrorKind::ShortFrame)
    } else {
        match parse_depth_group(d, 18) {
            Err(k) => Err(k),
            Ok((bids, asks_pos)) => match parse_depth_group(d, asks_pos) {
                Err(k) => Err(k),
                Ok((asks, sym_pos)) => match parse_var_string8(d, sym_pos) {
                    Err(k) => Err(k),
                    Ok(symbol) => Ok(
                        DepthSnapshotStreamEventV {
                            event_time_micros: spec_i64_from_le_bytes(d.subrange(0, 8)),
                            book_update_id: spec_i64_from_le_bytes(d.subrange(8, 16)),
                            price_exponent: d[16] as i8,
                            qty_exponent: d[17] as i8,
                            bids,
                            asks,
                            symbol,
                        },
                    ),
                },
            },
        }
    }
}

/// A depth-diff body: timestamp, first and last book-update ids, two
/// exponents, a bids group, an asks group, then the symbol.
pub open spec fn parse_depth_diff_body(d: Seq<u8>) -> Result<
    DepthDiffStreamEventV,
    DecodeErrorKind,
> {
    if d.len() < 26 {
        Err(DecodeErrorKind::ShortFrame)
    } else {
        match parse_depth_group(d, 26) {
            Err(k) => Err(k),
            Ok((bids, asks_pos)) => match parse_depth_group(d, asks_pos) {
                Err(k) => Err(k),
                Ok((asks, sym_pos)) => match parse_var_string8(d, sym_pos) {
                    Err(k) => Err(k),
                    Ok(symbol) => Ok(
                        DepthDiffStreamEventV {
                            event_time_micros: spec_i64_from_le_bytes(d.subrange(0, 8)),
                            first_book_update_id: spec_i64_from_le_bytes(d.subrange(8, 16)),
                            last_book_update_id: spec_i64_from_le_bytes(d.subrange(16, 24)),
                            price_exponent: d[24] as i8,
                            qty_exponent: d[25] as i8,
                            bids,
                            asks,
                            symbol,
                        },
                    ),
                },
            },
        }
    }
}

// ---------------------------------------------------------------------------
// Canonical encodings. A conforming encoder writes trade blocks of exactly 25
// bytes and depth blocks of exactly 16 bytes, with no trailing padding.
// ---------------------------------------------------------------------------

/// Little-endian bytes of a signed 64-bit value.
pub open spec fn spec_i64_to_le_bytes(x: i64) -> Seq<u8> {
    spec_u64_to_le_bytes(x as u64)
}

/// The canonical 25-byte encoding of one trade entry.
pub open spec fn spec_encode_trade_entry(t: Trade) -> Seq<u8> {
    spec_i64_to_le_bytes(t.id) + spec_i64_to_le_bytes(t.price_mantissa) + spec_i64_to_le_bytes(
        t.qty_mantissa,
    ) + seq![if t.is_buyer_maker { 1u8 } else { 0u8 }]
}

/// The encoding of a var-string: one length byte, then the UTF-8 bytes.
pub open spec fn spec_encode_var_string8(symbol: Seq<char>) -> Seq<u8>
    recommends
        encode_utf8(symbol).len() <= 255,
{
    seq![encode_utf8(symbol).len() as u8] + encode_utf8(symbol)
}

/// A value the canonical trade encoder accepts: at most one surfaced trade
/// and a symbol whose encoding fits the length byte.
pub open spec fn trade_event_wf(v: TradeStreamEventV) -> bool {
    v.trades.len() <= 1 && encode_utf8(v.symbol).len() <= 255
}

/// The canonical encoding of a trade-stream body.
pub open spec fn spec_encode_trade_body(v: TradeStreamEventV) -> Seq<u8>
    recommends
        trade_event_wf(v),
{
    spec_i64_to_le_bytes(v.event_time_micros) + spec_i64_to_le_bytes(v.transact_time_micros)
        + seq![v.price_exponent as u8, v.qty_exponent as u8] + spec_u16_to_le_bytes(25)
        + spec_u32_to_le_bytes(v.trades.len() as u32) + (if v.trades.len() == 0 {
        Seq::<u8>::empty()
    } else {
        spec_encode_trade_entry(v.trades[0])
    }) + spec_encode_var_string8(v.symbol)
}

/// A value the canonical best-bid/ask encoder accepts.
pub open spec fn bba_event_wf(v: BestBidAskStreamEventV) -> bool {
    encode_utf8(v.symbol).len() <= 255
}

/// The canonical encoding of a best-bid/ask body.
pub open spec fn spec_encode_bba_body(v: BestBidAskStreamEventV) -> Seq<u8>
    recommends
        bba_event_wf(v),
{
    spec_i64_to_le_bytes(v.event_time_micros) + spec_i64_to_le_bytes(v.book_update_id)
        + seq![v.price_exponent as u8, v.qty_exponent as u8] + spec_i64_to_le_bytes(
        v.bid_price_mantissa,
    ) + spec_i64_to_le_bytes(v.bid_qty_mantissa) + spec_i64_to_le_bytes(v.ask_price_mantissa)
        + spec_i64_to_le_bytes(v.ask_qty_mantissa) + spec_encode_var_string8(v.symbol)
}

/// The canonical 16-byte encoding of one depth level.
pub open spec fn spec_encode_depth_level(l: DepthLevel) -> Seq<u8> {
    spec_i64_to_le_bytes(l.price_mantissa) + spec_i64_to_le_bytes(l.qty_mantissa)
}

/// The flattened canonical encoding of a level sequence.
pub open spec fn spec_encode_depth_levels(ls: Seq<DepthLevel>) -> Seq<u8>
    decreases ls.len(),
{
    if ls.len() == 0 {
        Seq::empty()
    } else {
        spec_encode_depth_level(ls[0]) + spec_encode_depth_levels(ls.drop_first())
    }
}

/// The canonical encoding of a depth group: block length 16, the count, then
/// the members.
pub open spec fn spec_encode_depth_group(ls: Seq<DepthLevel>) -> Seq<u8>
    recommends
        ls.len() <= u16::MAX,
{
    spec_u16_to_le_bytes(16) + spec_u16_to_le_bytes(ls.len() as u16) + spec_encode_depth_levels(ls)
}

/// A value the canonical depth-snapshot encoder accepts.
pub open spec fn depth_event_wf(v: DepthSnapshotStreamEventV) -> bool {
    v.bids.len() <= u16::MAX && v.asks.len() <= u16::MAX && encode_utf8(v.symbol).len() <= 255
}

/// The canonical encoding of a depth-snapshot body.
pub open spec fn spec_encode_depth_body(v: DepthSnapshotStreamEventV) -> Seq<u8>
    recommends
        depth_event_wf(v),
{
    spec_i64_to_le_bytes(v.event_time_micros) + spec_i64_to_le_bytes(v.book_update_id)
        + seq![v.price_exponent as u8, v.qty_exponent as u8] + spec_encode_depth_group(v.bids)
        + spec_encode_depth_group(v.asks) + spec_encode_var_string8(v.symbol)
}

} // verus!
