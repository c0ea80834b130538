//! Typed SBE messages and their decoders, proved against the wire grammar.

use vstd::prelude::*;

use crate::errors::{DecodeError, DecodeErrorKind};
use super::cursor::SbeCursor;
use super::cursor::{read_group_size, read_group_size16};
use super::wire::{
    depth_levels_at, parse_bba_body, parse_depth_body, parse_depth_diff_body, parse_depth_group,
    parse_trade_body, BestBidAskStreamEventV, DepthDiffStreamEventV, DepthLevel,
    DepthSnapshotStreamEventV, Trade, TradeStreamEventV,
};

verus! {

/// A decoded trade-stream message. Only the last trade of the wire group is
/// surfaced; prices and quantities stay as mantissas scaled by the two
/// exponents.
#[derive(Debug, Clone)]
pub struct TradeStreamEvent {
    pub event_time_micros: i64,
    pub transact_time_micros: i64,
    pub price_exponent: i8,
    pub qty_exponent: i8,
    pub trades: Vec<Trade>,
    pub symbol: String,
}

impl View for TradeStreamEvent {
    type V = TradeStreamEventV;

    open spec fn view(&self) -> TradeStreamEventV {
        TradeStreamEventV {
            event_time_micros: self.event_time_micros,
            transact_time_micros: self.transact_time_micros,
            price_exponent: self.price_exponent,
            qty_exponent: self.qty_exponent,
            trades: self.trades@,
            symbol: self.symbol@,
        }
    }
}

impl TradeStreamEvent {
    /// Decodes a trade-stream body (the bytes after the message header).
    pub fn decode(data: &[u8]) -> (r: Result<Self, DecodeError>)
        ensures
            r is Ok <==> parse_trade_body(data@) is Ok,
            r is Ok ==> r->Ok_0@ == parse_trade_body(data@)->Ok_0,
            r is Err ==> r->Err_0.kind == parse_trade_body(data@)->Err_0,
    {
        let mut cursor = SbeCursor::new(data);
        let event_time_micros = match cursor.read_i64_le() {
            Ok(v) => v,
            Err(e) => { return Err(e) },
        };
        let transact_time_micros = match cursor.read_i64_le() {
            Ok(v) => v,
            Err(e) => { return Err(e) },
        };
        let price_exponent = match cursor.read_i8() {
            Ok(v) => v,
            Err(e) => { return Err(e) },
        };
        let qty_exponent = match cursor.read_i8() {
            Ok(v) => v,
            Err(e) => { return Err(e) },
        };
        let (block_length, num_trades) = match read_group_size(&mut cursor) {
            Ok(v) => v,
            Err(e) => { return Err(e) },
        };

        let mut trades: Vec<Trade> = Vec::new();
        if num_trades > 0 {
            if block_length < 25 {
                return Err(DecodeError {
                    kind: DecodeErrorKind::BadGroup,
                    needed: 25,
                    have: block_length as usize,
                });
            }
            proof {
                assert((num_trades - 1) * (block_length as int) < 0x1000000000000int)
                    by (nonlinear_arith)
                    requires
                        0 < num_trades <= u32::MAX,
                        block_length <= u16::MAX,
                ;
            }
            let skip64: u64 = (num_trades as u64 - 1) * (block_length as u64);
            let rem: usize = cursor.remaining();
            if (rem as u64) < skip64 + (block_length as u64) {
                return Err(DecodeError {
                    kind: DecodeErrorKind::ShortFrame,
                    needed: block_length as usize,
                    have: rem,
                });
            }
            if let Err(e) = cursor.skip(skip64 as usize) {
                return Err(e);
            }
            let id = match cursor.read_i64_le() {
                Ok(v) => v,
                Err(e) => { return Err(e) },
            };
            let price_mantissa = match cursor.read_i64_le() {
                Ok(v) => v,
                Err(e) => { return Err(e) },
            };
            let qty_mantissa = match cursor.read_i64_le() {
                Ok(v) => v,
                Err(e) => { return Err(e) },
            };
            let maker_byte = match cursor.read_u8() {
                Ok(v) => v,
                Err(e) => { return Err(e) },
            };
            if let Err(e) = cursor.skip((block_length - 25) as usize) {
                return Err(e);
            }
            trades.push(
                Trade {
                    id,
                    price_mantissa,
                    qty_mantissa,
                    is_buyer_maker: maker_byte != 0,
                },
            );
        }
        let symbol = match cursor.read_var_string8() {
            Ok(s) => s.to_owned(),
            Err(e) => { return Err(e) },
        };
        let event = TradeStreamEvent {
            event_time_micros,
            transact_time_micros,
            price_exponent,
            qty_exponent,
            trades,
            symbol,
        };
        proof {
            assert(event@.trades =~= parse_trade_body(data@)->Ok_0.trades);
        }
        Ok(event)
    }

    /// The price mantissa of the surfaced (last) trade, if the group was
    /// non-empty.
    pub fn last_price_mantissa(&self) -> (r: Option<i64>)
        ensures
            r is Some <==> self@.trades.len() > 0,
            r is Some ==> r.unwrap() == self@.trades.last().price_mantissa,
    {
        let n = self.trades.len();
        if n > 0 {
            Some(self.trades[n - 1].price_mantissa)
        } else {
            None
        }
    }
}

/// A decoded best-bid/ask message, prices and quantities as mantissas.
#[derive(Debug, Clone)]
pub struct BestBidAskStreamEvent {
    pub event_time_micros: i64,
    pub book_update_id: i64,
    pub price_exponent: i8,
    pub qty_exponent: i8,
    pub bid_price_mantissa: i64,
    pub bid_qty_mantissa: i64,
    pub ask_price_mantissa: i64,
    pub ask_qty_mantissa: i64,
    pub symbol: String,
}

impl View for BestBidAskStreamEvent {
    type V = BestBidAskStreamEventV;

    open spec fn view(&self) -> BestBidAskStreamEventV {
        BestBidAskStreamEventV {
            event_time_micros: self.event_time_micros,
            book_update_id: self.book_update_id,
            price_exponent: self.price_exponent,
            qty_exponent: self.qty_exponent,
            bid_price_mantissa: self.bid_price_mantissa,
            bid_qty_mantissa: self.bid_qty_mantissa,
            ask_price_mantissa: self.ask_price_mantissa,
            ask_qty_mantissa: self.ask_qty_mantissa,
            symbol: self.symbol@,
        }
    }
}

impl BestBidAskStreamEvent {
    /// Decodes a best-bid/ask body (the bytes after the message header).
    pub fn decode(data: &[u8]) -> (r: Result<Self, DecodeError>)
        ensures
            r is Ok <==> parse_bba_body(data@) is Ok,
            r is Ok ==> r->Ok_0@ == parse_bba_body(data@)->Ok_0,
            r is Err ==> r->Err_0.kind == parse_bba_body(data@)->Err_0,
    {
        let mut cursor = SbeCursor::new(data);
        let event_time_micros = match cursor.read_i64_le() {
            Ok(v) => v,
            Err(e) => { return Err(e) },
        };
        let book_update_id = match cursor.read_i64_le() {
            Ok(v) => v,
            Err(e) => { return Err(e) },
        };
        let price_exponent = match cursor.read_i8() {
            Ok(v) => v,
            Err(e) => { return Err(e) },
        };
        let qty_exponent = match cursor.read_i8() {
            Ok(v) => v,
            Err(e) => { return Err(e) },
        };
        let bid_price_mantissa = match cursor.read_i64_le() {
            Ok(v) => v,
            Err(e) => { return Err(e) },
        };
        let bid_qty_mantissa = match cursor.read_i64_le() {
            Ok(v) => v,
            Err(e) => { return Err(e) },
        };
        let ask_price_mantissa = match cursor.read_i64_le() {
            Ok(v) => v,
            Err(e) => { return Err(e) },
        };
        let ask_qty_mantissa = match cursor.read_i64_le() {
            Ok(v) => v,
            Err(e) => { return Err(e) },
        };
        let symbol = match cursor.read_var_string8() {
            Ok(s) => s.to_owned(),
            Err(e) => { return Err(e) },
        };
        Ok(
            BestBidAskStreamEvent {
                event_time_micros,
                book_update_id,
                price_exponent,
                qty_exponent,
                bid_price_mantissa,
                bid_qty_mantissa,
                ask_price_mantissa,
                ask_qty_mantissa,
                symbol,
            },
        )
    }
}

/// Reads one depth repeating group at the cursor: its four-byte header, then
/// its members, striding by the declared block length.
fn read_depth_group(cursor: &mut SbeCursor<'_>) -> (r: Result<Vec<DepthLevel>, DecodeError>)
    requires
        old(cursor).wf(),
    ensures
        final(cursor).wf(),
        final(cursor).bytes() == old(cursor).bytes(),
        r is Ok <==> parse_depth_group(old(cursor).bytes(), old(cursor).cur()) is Ok,
        r is Ok ==> r->Ok_0@ == parse_depth_group(old(cursor).bytes(), old(cursor).cur())->Ok_0.0
            && final(cursor).cur() == parse_depth_group(
            old(cursor).bytes(),
            old(cursor).cur(),
        )->Ok_0.1,
        r is Err ==> r->Err_0.kind == parse_depth_group(old(cursor).bytes(), old(cursor).cur())->Err_0,
{
    let ghost d = old(cursor).bytes();
    let ghost pos0 = old(cursor).cur();
    let (block_length, num_in_group) = match read_group_size16(cursor) {
        Ok(v) => v,
        Err(e) => { return Err(e) },
    };
    if block_length < 16 {
        return Err(DecodeError {
            kind: DecodeErrorKind::BadGroup,
            needed: 16,
            have: block_length as usize,
        });
    }
    proof {
        assert((num_in_group as int) * (block_length as int) < 0x100000000int) by (nonlinear_arith)
            requires
                num_in_group <= u16::MAX,
                block_length <= u16::MAX,
        ;
    }
    let total: u64 = (num_in_group as u64) * (block_length as u64);
    let rem: usize = cursor.remaining();
    if (rem as u64) < total {
        return Err(DecodeError {
            kind: DecodeErrorKind::ShortFrame,
            needed: total as usize,
            have: rem,
        });
    }
    let ghost start = pos0 + 4;
    let ghost bl = block_length as int;
    let ghost n = num_in_group as int;
    let mut levels: Vec<DepthLevel> = Vec::new();
    let mut i: usize = 0;
    while i < num_in_group as usize
        invariant
            cursor.wf(),
            cursor.bytes() == d,
            0 <= i <= n,
            bl == block_length as int,
            n == num_in_group as int,
            bl >= 16,
            n <= u16::MAX,
            cursor.cur() == start + i * bl,
            start + n * bl <= d.len(),
            levels@ =~= depth_levels_at(d, start, bl, n).take(i as int),
        decreases n - i,
    {
        proof {
            assert((i + 1) * bl == i * bl + bl) by (nonlinear_arith);
            assert(i * bl + bl <= n * bl) by (nonlinear_arith)
                requires
                    i + 1 <= n,
                    bl >= 0,
            ;
        }
        let price_mantissa = match cursor.read_i64_le() {
            Ok(v) => v,
            Err(e) => { return Err(e) },
        };
        let qty_mantissa = match cursor.read_i64_le() {
            Ok(v) => v,
            Err(e) => { return Err(e) },
        };
        if let Err(e) = cursor.skip((block_length - 16) as usize) {
            return Err(e);
        }
        levels.push(DepthLevel { price_mantissa, qty_mantissa });
        i += 1;
        proof {
            assert(levels@ =~= depth_levels_at(d, start, bl, n).take(i as int));
        }
    }
    proof {
        assert(levels@ =~= depth_levels_at(d, start, bl, n));
    }
    Ok(levels)
}

/// A decoded depth-snapshot message: the full bid and ask ladders as
/// mantissa levels.
#[derive(Debug, Clone)]
pub struct DepthSnapshotStreamEvent {
    pub event_time_micros: i64,
    pub book_update_id: i64,
    pub price_exponent: i8,
    pub qty_exponent: i8,
    pub bids: Vec<DepthLevel>,
    pub asks: Vec<DepthLevel>,
    pub symbol: String,
}

impl View for DepthSnapshotStreamEvent {
    type V = DepthSnapshotStreamEventV;

    open spec fn view(&self) -> DepthSnapshotStreamEventV {
        DepthSnapshotStreamEventV {
            event_time_micros: self.event_time_micros,
            book_update_id: self.book_update_id,
            price_exponent: self.price_exponent,
            qty_exponent: self.qty_exponent,
            bids: self.bids@,
            asks: self.asks@,
            symbol: self.symbol@,
        }
    }
}

impl DepthSnapshotStreamEvent {
    /// Decodes a depth-snapshot body (the bytes after the message header).
    pub fn decode(data: &[u8]) -> (r: Result<Self, DecodeError>)
        ensures
            r is Ok <==> parse_depth_body(data@) is Ok,
            r is Ok ==> r->Ok_0@ == parse_depth_body(data@)->Ok_0,
            r is Err ==> r->Err_0.kind == parse_depth_body(data@)->Err_0,
    {
        let mut cursor = SbeCursor::new(data);
        let event_time_micros = match cursor.read_i64_le() {
            Ok(v) => v,
            Err(e) => { return Err(e) },
        };
        let book_update_id = match cursor.read_i64_le() {
            Ok(v) => v,
            Err(e) => { return Err(e) },
        };
        let price_exponent = match cursor.read_i8() {
            Ok(v) => v,
            Err(e) => { return Err(e) },
        };
        let qty_exponent = match cursor.read_i8() {
            Ok(v) => v,
            Err(e) => { return Err(e) },
        };
        let bids = match read_depth_group(&mut cursor) {
            Ok(v) => v,
            Err(e) => { return Err(e) },
        };
        let asks = match read_depth_group(&mut cursor) {
            Ok(v) => v,
            Err(e) => { return Err(e) },
        };
        let symbol = match cursor.read_var_string8() {
            Ok(s) => s.to_owned(),
            Err(e) => { return Err(e) },
        };
        Ok(
            DepthSnapshotStreamEvent {
                event_time_micros,
                book_update_id,
                price_exponent,
                qty_exponent,
                bids,
                asks,
                symbol,
            },
        )
    }
}

/// A decoded depth-diff message.
#[derive(Debug, Clone)]
pub struct DepthDiffStreamEvent {
    pub event_time_micros: i64,
    pub first_book_update_id: i64,
    pub last_book_update_id: i64,
    pub price_exponent: i8,
    pub qty_exponent: i8,
    pub bids: Vec<DepthLevel>,
    pub asks: Vec<DepthLevel>,
    pub symbol: String,
}

impl View for DepthDiffStreamEvent {
    type V = DepthDiffStreamEventV;

    open spec fn view(&self) -> DepthDiffStreamEventV {
        DepthDiffStreamEventV {
            event_time_micros: self.event_time_micros,
            first_book_update_id: self.first_book_update_id,
            last_book_update_id: self.last_book_update_id,
            price_exponent: self.price_exponent,
            qty_exponent: self.qty_exponent,
            bids: self.bids@,
            asks: self.asks@,
            symbol: self.symbol@,
        }
    }
}

impl DepthDiffStreamEvent {
    /// Decodes a depth-diff body (the bytes after the message header).
    pub fn decode(data: &[u8]) -> (r: Result<Self, DecodeError>)
        ensures
            r is Ok <==> parse_depth_diff_body(data@) is Ok,
            r is Ok ==> r->Ok_0@ == parse_depth_diff_body(data@)->Ok_0,
            r is Err ==> r->Err_0.kind == parse_depth_diff_body(data@)->Err_0,
    {
        let mut cursor = SbeCursor::new(data);
        let event_time_micros = match cursor.read_i64_le() {
            Ok(v) => v,
            Err(e) => { return Err(e) },
        };
        let first_book_update_id = match cursor.read_i64_le() {
            Ok(v) => v,
            Err(e) => { return Err(e) },
        };
        let last_book_update_id = match cursor.read_i64_le() {
            Ok(v) => v,
            Err(e) => { return Err(e) },
        };
        let price_exponent = match cursor.read_i8() {
            Ok(v) => v,
            Err(e) => { return Err(e) },
        };
        let qty_exponent = match cursor.read_i8() {
            Ok(v) => v,
            Err(e) => { return Err(e) },
        };
        let bids = match read_depth_group(&mut cursor) {
            Ok(v) => v,
            Err(e) => { return Err(e) },
        };
        let asks = match read_depth_group(&mut cursor) {
            Ok(v) => v,
            Err(e) => { return Err(e) },
        };
        let symbol = match cursor.read_var_string8() {
            Ok(s) => s.to_owned(),
            Err(e) => { return Err(e) },
        };
        Ok(
            DepthDiffStreamEvent {
                event_time_micros,
                first_book_update_id,
                last_book_update_id,
                price_exponent,
                qty_exponent,
                bids,
                asks,
                symbol,
            },
        )
    }
}

/// The closed family of decoded SBE messages.
#[derive(Debug, Clone)]
pub enum SbeMessage {
    Trade(TradeStreamEvent),
    BestBidAsk(BestBidAskStreamEvent),
    DepthDiff(DepthDiffStreamEvent),
    DepthSnapshot(DepthSnapshotStreamEvent),
}

impl SbeMessage {
    /// The market symbol the message concerns.
    pub fn symbol(&self) -> (r: &String)
        ensures
            r@ == match self {
                SbeMessage::Trade(e) => e.symbol@,
                SbeMessage::BestBidAsk(e) => e.symbol@,
                SbeMessage::DepthDiff(e) => e.symbol@,
                SbeMessage::DepthSnapshot(e) => e.symbol@,
            },
    {
        match self {
            SbeMessage::Trade(e) => &e.symbol,
            SbeMessage::BestBidAsk(e) => &e.symbol,
            SbeMessage::DepthDiff(e) => &e.symbol,
            SbeMessage::DepthSnapshot(e) => &e.symbol,
        }
    }

    /// The event timestamp, in microseconds since the epoch.
    pub fn event_time_micros(&self) -> (r: i64)
        ensures
            r == match self {
                SbeMessage::Trade(e) => e.event_time_micros,
                SbeMessage::BestBidAsk(e) => e.event_time_micros,
                SbeMessage::DepthDiff(e) => e.event_time_micros,
                SbeMessage::DepthSnapshot(e) => e.event_time_micros,
            },
    {
        match self {
            SbeMessage::Trade(e) => e.event_time_micros,
            SbeMessage::BestBidAsk(e) => e.event_time_micros,
            SbeMessage::DepthDiff(e) => e.event_time_micros,
            SbeMessage::DepthSnapshot(e) => e.event_time_micros,
        }
    }
}

} // verus!
