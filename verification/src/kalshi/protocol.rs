//! Routing of incoming protocol frames: subscription confirmations, errors,
//! order-book material, lifecycle notices and ticker updates.

use vstd::prelude::*;
use vstd::string::StringSliceAdditionalSpecFns;
use vstd::utf8::encode_utf8;

use crate::book::{BookSide, KalshiOrderbook, OrderbookLevel, MICRO_ONE};
use crate::book::{rebuild_qty, side_qty};
use crate::price::{parse_price_micros, spec_price_micros};
use super::models::{
    KalshiEvent, KalshiMarketLifecycleMsg, KalshiOrderbookSnapshot, KalshiPayload, KalshiWsMessage,
};

verus! {

/// An ASCII byte with any upper-case letter folded to lower case.
pub open spec fn ascii_fold(b: u8) -> u8 {
    if 65 <= b <= 90 {
        (b + 32) as u8
    } else {
        b
    }
}

/// Whether the bytes spell `yes`, ignoring ASCII case.
pub open spec fn spec_side_is_yes(bytes: Seq<u8>) -> bool {
    bytes.len() == 3 && ascii_fold(bytes[0]) == 121 && ascii_fold(bytes[1]) == 101 && ascii_fold(
        bytes[2],
    ) == 115
}

/// The book side a delta's `side` field names: `yes` (in any ASCII case)
/// selects the yes side, anything else the no side.
pub fn parse_book_side(s: &str) -> (r: BookSide)
    ensures
        r == BookSide::Yes <==> spec_side_is_yes(s.spec_bytes()),
{
    let bytes = s.as_bytes();
    if bytes.len() != 3 {
        return BookSide::No;
    }
    let b0 = fold_byte(*vstd::slice::slice_index_get(bytes, 0));
    let b1 = fold_byte(*vstd::slice::slice_index_get(bytes, 1));
    let b2 = fold_byte(*vstd::slice::slice_index_get(bytes, 2));
    if b0 == 121 && b1 == 101 && b2 == 115 {
        BookSide::Yes
    } else {
        BookSide::No
    }
}

/// Folds one ASCII byte to lower case.
fn fold_byte(b: u8) -> (r: u8)
    ensures
        r == ascii_fold(b),
{
    if b >= 65 && b <= 90 {
        b + 32
    } else {
        b
    }
}

/// The levels a snapshot side denotes: each dollar string parsed to
/// micro-dollars, entries that do not parse or price above one dollar
/// dropped.
pub open spec fn levels_of_pairs(ps: Seq<(String, i64)>) -> Seq<OrderbookLevel>
    decreases ps.len(),
{
    if ps.len() == 0 {
        Seq::empty()
    } else {
        let head = levels_of_pairs(ps.drop_last());
        let last = ps.last();
        match spec_price_micros(encode_utf8(last.0@)) {
            Some(p) => {
                if p <= MICRO_ONE {
                    head.push(OrderbookLevel { price_micros: p, quantity: last.1 })
                } else {
                    head
                }
            },
            None => head,
        }
    }
}

/// Every level the snapshot parse yields is within one dollar.
pub proof fn lemma_levels_of_pairs_bounded(ps: Seq<(String, i64)>)
    ensures
        forall|i: int|
            0 <= i < levels_of_pairs(ps).len() ==> #[trigger] levels_of_pairs(
                ps,
            )[i].price_micros <= MICRO_ONE,
    decreases ps.len(),
{
    if ps.len() > 0 {
        lemma_levels_of_pairs_bounded(ps.drop_last());
        let head = levels_of_pairs(ps.drop_last());
        let lv = levels_of_pairs(ps);
        assert forall|i: int| 0 <= i < lv.len() implies #[trigger] lv[i].price_micros
            <= MICRO_ONE by {
            match spec_price_micros(encode_utf8(ps.last().0@)) {
                Some(p) => {
                    if p <= MICRO_ONE {
                        assert(lv == head.push(
                            OrderbookLevel { price_micros: p, quantity: ps.last().1 },
                        ));
                        if i < head.len() {
                            assert(lv[i] == head[i]);
                        }
                    } else {
                        assert(lv == head);
                    }
                },
                None => {
                    assert(lv == head);
                },
            }
        }
    }
}

/// Parses one snapshot side into levels.
pub fn parse_snapshot_levels(pairs: &Vec<(String, i64)>) -> (r: Vec<OrderbookLevel>)
    ensures
        r@ == levels_of_pairs(pairs@),
        forall|i: int| 0 <= i < r@.len() ==> #[trigger] r@[i].price_micros <= MICRO_ONE,
{
    let mut out: Vec<OrderbookLevel> = Vec::new();
    let mut i: usize = 0;
    while i < pairs.len()
        invariant
            0 <= i <= pairs@.len(),
            out@ == levels_of_pairs(pairs@.take(i as int)),
        decreases pairs@.len() - i,
    {
        proof {
            assert(pairs@.take(i + 1).drop_last() =~= pairs@.take(i as int));
            assert(pairs@.take(i + 1).last() == pairs@[i as int]);
        }
        match parse_price_micros(pairs[i].0.as_str()) {
            Some(p) if p <= MICRO_ONE => {
                out.push(OrderbookLevel { price_micros: p, quantity: pairs[i].1 });
            },
            _ => {},
        }
        i += 1;
    }
    proof {
        assert(pairs@.take(pairs@.len() as int) =~= pairs@);
        lemma_levels_of_pairs_bounded(pairs@);
    }
    out
}

/// Builds a fresh well-formed book from a wire snapshot: only the bid sides
/// are authoritative, the asks are derived.
pub fn snapshot_to_book(snap: KalshiOrderbookSnapshot) -> (r: KalshiOrderbook)
    ensures
        r.wf(),
        r.market_ticker@ == snap.market_ticker@,
        forall|q: u64|
            side_qty(r.yes_bids@, q) == rebuild_qty(levels_of_pairs(snap.yes_dollars@), q),
        forall|q: u64| side_qty(r.no_bids@, q) == rebuild_qty(levels_of_pairs(snap.no_dollars@), q),
{
    let yes_levels = parse_snapshot_levels(&snap.yes_dollars);
    let no_levels = parse_snapshot_levels(&snap.no_dollars);
    let mut book = KalshiOrderbook::new_empty(snap.market_ticker);
    book.apply_snapshot(&yes_levels, &no_levels);
    book
}

/// What the protocol layer decided about one incoming frame.
#[derive(Debug, Clone)]
pub enum Routed {
    /// A subscription confirmation, carrying the server-assigned id.
    SubscriptionConfirmed { sid: Option<u64> },
    /// An error frame; noted and dropped.
    ErrorNoted,
    /// A typed event for the coordinator.
    Event(KalshiEvent),
    /// A lifecycle notice for the market controller.
    Lifecycle(KalshiMarketLifecycleMsg),
    /// Nothing to act on.
    Nothing,
}

/// Routes one incoming frame: confirmations first, then error frames, then
/// the payload by variant. Snapshots are rebuilt into a fresh well-formed
/// book; deltas, tickers, trades and status changes pass through typed.
pub fn route_message(msg: KalshiWsMessage) -> (r: Routed)
    ensures
        (msg.msg_type is Some && msg.msg_type.unwrap()@ == "subscribed"@) ==> (r
            == Routed::SubscriptionConfirmed { sid: msg.sid }),
        !(msg.msg_type is Some && msg.msg_type.unwrap()@ == "subscribed"@) && (msg.error is Some
            || (msg.msg_type is Some && msg.msg_type.unwrap()@ == "error"@)) ==> (r
            == Routed::ErrorNoted),
        !(msg.msg_type is Some && msg.msg_type.unwrap()@ == "subscribed"@) && !(msg.error is Some
            || (msg.msg_type is Some && msg.msg_type.unwrap()@ == "error"@)) ==> {
            let payload = if msg.msg is Some {
                msg.msg
            } else {
                msg.data
            };
            match payload {
                None => r == Routed::Nothing,
                Some(p) => match p {
                    KalshiPayload::Snapshot(snap) => (r matches Routed::Event(
                        KalshiEvent::OrderbookUpdate(ob),
                    ) && ob.wf() && ob.market_ticker@ == snap.market_ticker@ && (forall|q: u64|
                        side_qty(ob.yes_bids@, q) == rebuild_qty(
                            levels_of_pairs(snap.yes_dollars@),
                            q,
                        )) && (forall|q: u64|
                        side_qty(ob.no_bids@, q) == rebuild_qty(
                            levels_of_pairs(snap.no_dollars@),
                            q,
                        ))),
                    KalshiPayload::Delta(d) => r == Routed::Event(KalshiEvent::OrderbookDelta(d)),
                    KalshiPayload::Lifecycle(m) => r == Routed::Lifecycle(m),
                    KalshiPayload::Ticker(t) => r == Routed::Event(KalshiEvent::TickerUpdate(t)),
                    KalshiPayload::Trade(t) => r == Routed::Event(KalshiEvent::Trade(t)),
                    KalshiPayload::StatusChange(c) => r == Routed::Event(
                        KalshiEvent::MarketStatusChanged {
                            ticker: c.market_ticker,
                            old_status: c.old_status,
                            new_status: c.new_status,
                        },
                    ),
                    KalshiPayload::Unknown => r == Routed::Nothing,
                },
            }
        },
{
    if msg.is_subscribed() {
        return Routed::SubscriptionConfirmed { sid: msg.sid };
    }
    if msg.error.is_some() || crate::strings::opt_str_is(&msg.msg_type, "error") {
        return Routed::ErrorNoted;
    }
    let payload = match msg.msg {
        Some(p) => p,
        None => match msg.data {
            Some(p) => p,
            None => { return Routed::Nothing },
        },
    };
    match payload {
        KalshiPayload::Snapshot(snap) => {
            Routed::Event(KalshiEvent::OrderbookUpdate(snapshot_to_book(snap)))
        },
        KalshiPayload::Delta(d) => Routed::Event(KalshiEvent::OrderbookDelta(d)),
        KalshiPayload::Lifecycle(m) => Routed::Lifecycle(m),
        KalshiPayload::Ticker(t) => Routed::Event(KalshiEvent::TickerUpdate(t)),
        KalshiPayload::Trade(t) => Routed::Event(KalshiEvent::Trade(t)),
        KalshiPayload::StatusChange(c) => Routed::Event(
            KalshiEvent::MarketStatusChanged {
                ticker: c.market_ticker,
                old_status: c.old_status,
                new_status: c.new_status,
            },
        ),
        KalshiPayload::Unknown => Routed::Nothing,
    }
}

} // verus!
