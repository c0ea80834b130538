//! Canonical encoders for the in-schema messages, and the codec round-trip
//! laws: decoding a canonically encoded frame yields the encoded value, so
//! re-encoding a decoded frame reproduces the frame byte for byte.

use vstd::prelude::*;
use vstd::bytes::{
    lemma_auto_spec_u16_to_from_le_bytes, lemma_auto_spec_u32_to_from_le_bytes,
    lemma_auto_spec_u64_to_from_le_bytes, spec_u16_to_le_bytes, u16_to_le_bytes, u32_to_le_bytes,
    u64_to_le_bytes,
};
use vstd::utf8::{encode_utf8, encode_utf8_decode_utf8, encode_utf8_valid_utf8};
use vstd::string::StringSliceAdditionalSpecFns;

use crate::errors::DecodeErrorKind;
use super::cursor::{spec_i64_from_le_bytes};
use super::decoder::{parse_frame, SbeMessageV};
use super::messages::{BestBidAskStreamEvent, DepthSnapshotStreamEvent, TradeStreamEvent};
use super::types::spec_header;
use super::wire::{
    bba_event_wf, depth_event_wf, depth_levels_at, parse_bba_body, parse_depth_body,
    parse_depth_group, parse_trade_body, parse_var_string8, spec_encode_bba_body,
    spec_encode_depth_body, spec_encode_depth_group, spec_encode_depth_levels,
    spec_encode_trade_body, spec_encode_var_string8, spec_i64_to_le_bytes, trade_event_wf,
    BestBidAskStreamEventV, DepthLevel, DepthSnapshotStreamEventV, TradeStreamEventV, SCHEMA_ID,
    SCHEMA_VERSION, TEMPLATE_BEST_BID_ASK_STREAM, TEMPLATE_DEPTH_SNAPSHOT_STREAM,
    TEMPLATE_TRADES_STREAM,
};

verus! {

/// The eight header bytes a conforming encoder writes.
pub open spec fn spec_header_bytes(block_length: u16, template_id: u16) -> Seq<u8> {
    spec_u16_to_le_bytes(block_length) + spec_u16_to_le_bytes(template_id) + spec_u16_to_le_bytes(
        SCHEMA_ID,
    ) + spec_u16_to_le_bytes(SCHEMA_VERSION)
}

/// The canonical complete trade frame: header, then body.
pub open spec fn spec_encode_trade_frame(v: TradeStreamEventV) -> Seq<u8> {
    spec_header_bytes(18, TEMPLATE_TRADES_STREAM) + spec_encode_trade_body(v)
}

/// The canonical complete best-bid/ask frame: header, then body.
pub open spec fn spec_encode_bba_frame(v: BestBidAskStreamEventV) -> Seq<u8> {
    spec_header_bytes(50, TEMPLATE_BEST_BID_ASK_STREAM) + spec_encode_bba_body(v)
}

/// The canonical complete depth-snapshot frame: header, then body.
pub open spec fn spec_encode_depth_frame(v: DepthSnapshotStreamEventV) -> Seq<u8> {
    spec_header_bytes(18, TEMPLATE_DEPTH_SNAPSHOT_STREAM) + spec_encode_depth_body(v)
}

/// A signed 64-bit value survives its little-endian encoding.
proof fn lemma_i64_le_round_trip(x: i64)
    ensures
        spec_i64_from_le_bytes(spec_i64_to_le_bytes(x)) == x,
        spec_i64_to_le_bytes(x).len() == 8,
{
    lemma_auto_spec_u64_to_from_le_bytes();
    assert(((x as u64) as i64) == x) by (bit_vector);
}

/// Parsing a canonically encoded var-string yields the original characters.
#[verifier::spinoff_prover]
proof fn lemma_var_string8_round_trip(d: Seq<u8>, pos: int, sym: Seq<char>)
    requires
        encode_utf8(sym).len() <= 255,
        0 <= pos,
        d.len() == pos + 1 + encode_utf8(sym).len(),
        d.subrange(pos, d.len() as int) =~= spec_encode_var_string8(sym),
    ensures
        parse_var_string8(d, pos) == Ok::<Seq<char>, DecodeErrorKind>(sym),
{
    encode_utf8_valid_utf8(sym);
    encode_utf8_decode_utf8(sym);
    let enc = encode_utf8(sym);
    let e = spec_encode_var_string8(sym);
    let tail = d.subrange(pos, d.len() as int);
    assert(e[0] == enc.len() as u8);
    assert(d[pos] == tail[0]);
    assert(d[pos] == enc.len() as u8);
    assert(d[pos] as int == enc.len());
    assert forall|j: int| 0 <= j < enc.len() implies d.subrange(pos + 1, pos + 1 + enc.len())[j]
        == enc[j] by {
        assert(d.subrange(pos + 1, pos + 1 + enc.len())[j] == d[pos + 1 + j]);
        assert(d[pos + 1 + j] == tail[1 + j]);
        assert(tail[1 + j] == e[1 + j]);
        assert(e[1 + j] == enc[j]);
    }
    assert(d.subrange(pos + 1, pos + 1 + enc.len()) =~= enc);
}

/// Law: the trade codec round-trips. Decoding the canonical encoding of any
/// well-formed trade value yields exactly that value.
#[verifier::spinoff_prover]
pub proof fn law_trade_codec_round_trip(v: TradeStreamEventV)
    requires
        trade_event_wf(v),
    ensures
        parse_trade_body(spec_encode_trade_body(v)) == Ok::<TradeStreamEventV, DecodeErrorKind>(v),
{
    lemma_auto_spec_u16_to_from_le_bytes();
    lemma_auto_spec_u32_to_from_le_bytes();
    lemma_auto_spec_u64_to_from_le_bytes();
    let d = spec_encode_trade_body(v);
    let sym = encode_utf8(v.symbol);
    let n = v.trades.len() as int;
    let entry_len: int = if n == 0 {
        0
    } else {
        25
    };
    assert(d.len() == 24 + entry_len + 1 + sym.len());
    assert(d.subrange(0, 8) =~= vstd::bytes::spec_u64_to_le_bytes(v.event_time_micros as u64));
    assert(d.subrange(8, 16) =~= vstd::bytes::spec_u64_to_le_bytes(
        v.transact_time_micros as u64,
    ));
    assert(d[16] == v.price_exponent as u8);
    assert(d[17] == v.qty_exponent as u8);
    assert(d.subrange(18, 20) =~= spec_u16_to_le_bytes(25));
    assert(d.subrange(20, 24) =~= vstd::bytes::spec_u32_to_le_bytes(v.trades.len() as u32));
    let et = v.event_time_micros;
    let tt = v.transact_time_micros;
    assert(((et as u64) as i64) == et) by (bit_vector);
    assert(((tt as u64) as i64) == tt) by (bit_vector);
    let pe = v.price_exponent;
    let qe = v.qty_exponent;
    assert(((pe as u8) as i8) == pe) by (bit_vector);
    assert(((qe as u8) as i8) == qe) by (bit_vector);
    assert((v.trades.len() as u32) as int == n);
    if n == 0 {
        lemma_var_string8_round_trip(d, 24, v.symbol);
        assert(parse_trade_body(d) is Ok);
        let p = parse_trade_body(d)->Ok_0;
        assert(p.symbol == v.symbol);
        assert(p.event_time_micros == v.event_time_micros);
        assert(p.trades =~= v.trades);
        assert(p =~= v);
    } else {
        let t = v.trades[0];
        assert(d.subrange(24, 32) =~= vstd::bytes::spec_u64_to_le_bytes(t.id as u64));
        assert(d.subrange(32, 40) =~= vstd::bytes::spec_u64_to_le_bytes(t.price_mantissa as u64));
        assert(d.subrange(40, 48) =~= vstd::bytes::spec_u64_to_le_bytes(t.qty_mantissa as u64));
        assert(d[48] == (if t.is_buyer_maker {
            1u8
        } else {
            0u8
        }));
        let tid = t.id;
        let tpm = t.price_mantissa;
        let tqm = t.qty_mantissa;
        assert(((tid as u64) as i64) == tid) by (bit_vector);
        assert(((tpm as u64) as i64) == tpm) by (bit_vector);
        assert(((tqm as u64) as i64) == tqm) by (bit_vector);
        lemma_var_string8_round_trip(d, 49, v.symbol);
        let p = parse_trade_body(d)->Ok_0;
        assert(p.trades =~= v.trades);
        assert(p =~= v);
    }
}

/// Law: complete trade frames round-trip through the frame parser.
#[verifier::spinoff_prover]
pub proof fn law_trade_frame_round_trip(v: TradeStreamEventV)
    requires
        trade_event_wf(v),
    ensures
        parse_frame(spec_encode_trade_frame(v)) == Ok::<SbeMessageV, DecodeErrorKind>(
            SbeMessageV::Trade(v),
        ),
{
    lemma_auto_spec_u16_to_from_le_bytes();
    let d = spec_encode_trade_frame(v);
    let body = spec_encode_trade_body(v);
    assert(d.len() == 8 + body.len());
    assert(d.subrange(0, 2) =~= spec_u16_to_le_bytes(18));
    assert(d.subrange(2, 4) =~= spec_u16_to_le_bytes(TEMPLATE_TRADES_STREAM));
    assert(spec_header(d).template_id == TEMPLATE_TRADES_STREAM);
    assert(d.subrange(8, d.len() as int) =~= body);
    law_trade_codec_round_trip(v);
}

/// Law: the best-bid/ask codec round-trips.
#[verifier::spinoff_prover]
pub proof fn law_bba_codec_round_trip(v: BestBidAskStreamEventV)
    requires
        bba_event_wf(v),
    ensures
        parse_bba_body(spec_encode_bba_body(v)) == Ok::<BestBidAskStreamEventV, DecodeErrorKind>(
            v,
        ),
{
    lemma_auto_spec_u64_to_from_le_bytes();
    let d = spec_encode_bba_body(v);
    let sym = encode_utf8(v.symbol);
    assert(d.len() == 50 + 1 + sym.len());
    assert(d.subrange(0, 8) =~= spec_i64_to_le_bytes(v.event_time_micros));
    assert(d.subrange(8, 16) =~= spec_i64_to_le_bytes(v.book_update_id));
    assert(d[16] == v.price_exponent as u8);
    assert(d[17] == v.qty_exponent as u8);
    assert(d.subrange(18, 26) =~= spec_i64_to_le_bytes(v.bid_price_mantissa));
    assert(d.subrange(26, 34) =~= spec_i64_to_le_bytes(v.bid_qty_mantissa));
    assert(d.subrange(34, 42) =~= spec_i64_to_le_bytes(v.ask_price_mantissa));
    assert(d.subrange(42, 50) =~= spec_i64_to_le_bytes(v.ask_qty_mantissa));
    lemma_i64_le_round_trip(v.event_time_micros);
    lemma_i64_le_round_trip(v.book_update_id);
    lemma_i64_le_round_trip(v.bid_price_mantissa);
    lemma_i64_le_round_trip(v.bid_qty_mantissa);
    lemma_i64_le_round_trip(v.ask_price_mantissa);
    lemma_i64_le_round_trip(v.ask_qty_mantissa);
    let pe = v.price_exponent;
    let qe = v.qty_exponent;
    assert(((pe as u8) as i8) == pe) by (bit_vector);
    assert(((qe as u8) as i8) == qe) by (bit_vector);
    lemma_var_string8_round_trip(d, 50, v.symbol);
    let p = parse_bba_body(d)->Ok_0;
    assert(p =~= v);
}

/// Law: complete best-bid/ask frames round-trip through the frame parser.
#[verifier::spinoff_prover]
pub proof fn law_bba_frame_round_trip(v: BestBidAskStreamEventV)
    requires
        bba_event_wf(v),
    ensures
        parse_frame(spec_encode_bba_frame(v)) == Ok::<SbeMessageV, DecodeErrorKind>(
            SbeMessageV::BestBidAsk(v),
        ),
{
    lemma_auto_spec_u16_to_from_le_bytes();
    let d = spec_encode_bba_frame(v);
    let body = spec_encode_bba_body(v);
    assert(d.len() == 8 + body.len());
    assert(d.subrange(0, 2) =~= spec_u16_to_le_bytes(50));
    assert(d.subrange(2, 4) =~= spec_u16_to_le_bytes(TEMPLATE_BEST_BID_ASK_STREAM));
    assert(spec_header(d).template_id == TEMPLATE_BEST_BID_ASK_STREAM);
    assert(d.subrange(8, d.len() as int) =~= body);
    law_bba_codec_round_trip(v);
}

/// The flattened level encoding is 16 bytes per level, each level's two
/// fields at their expected offsets.
#[verifier::spinoff_prover]
proof fn lemma_encode_depth_levels(ls: Seq<DepthLevel>)
    ensures
        spec_encode_depth_levels(ls).len() == 16 * ls.len(),
        forall|i: int|
            0 <= i < ls.len() ==> #[trigger] spec_encode_depth_levels(ls).subrange(
                16 * i,
                16 * i + 8,
            ) == spec_i64_to_le_bytes(ls[i].price_mantissa) && spec_encode_depth_levels(
                ls,
            ).subrange(16 * i + 8, 16 * i + 16) == spec_i64_to_le_bytes(ls[i].qty_mantissa),
    decreases ls.len(),
{
    lemma_auto_spec_u64_to_from_le_bytes();
    if ls.len() > 0 {
        lemma_encode_depth_levels(ls.drop_first());
        let enc = spec_encode_depth_levels(ls);
        let rest = spec_encode_depth_levels(ls.drop_first());
        assert forall|i: int| 0 <= i < ls.len() implies #[trigger] enc.subrange(
            16 * i,
            16 * i + 8,
        ) == spec_i64_to_le_bytes(ls[i].price_mantissa) && enc.subrange(16 * i + 8, 16 * i + 16)
            == spec_i64_to_le_bytes(ls[i].qty_mantissa) by {
            if i == 0 {
                assert(enc.subrange(0, 8) =~= spec_i64_to_le_bytes(ls[0].price_mantissa));
                assert(enc.subrange(8, 16) =~= spec_i64_to_le_bytes(ls[0].qty_mantissa));
            } else {
                assert(ls.drop_first()[i - 1] == ls[i]);
                assert(rest.subrange(16 * (i - 1), 16 * (i - 1) + 8) == spec_i64_to_le_bytes(
                    ls[i].price_mantissa,
                ));
                assert(enc.subrange(16 * i, 16 * i + 8) =~= rest.subrange(
                    16 * (i - 1),
                    16 * (i - 1) + 8,
                ));
                assert(enc.subrange(16 * i + 8, 16 * i + 16) =~= rest.subrange(
                    16 * (i - 1) + 8,
                    16 * (i - 1) + 16,
                ));
            }
        }
    }
}

/// Parsing a canonically encoded depth group yields the original levels.
#[verifier::spinoff_prover]
proof fn lemma_depth_group_round_trip(d: Seq<u8>, pos: int, ls: Seq<DepthLevel>)
    requires
        ls.len() <= u16::MAX,
        0 <= pos,
        pos + 4 + 16 * ls.len() <= d.len(),
        d.subrange(pos, pos + 4 + 16 * ls.len()) =~= spec_encode_depth_group(ls),
    ensures
        parse_depth_group(d, pos) == Ok::<(Seq<DepthLevel>, int), DecodeErrorKind>(
            (ls, pos + 4 + 16 * ls.len()),
        ),
{
    lemma_auto_spec_u16_to_from_le_bytes();
    lemma_encode_depth_levels(ls);
    let g = spec_encode_depth_group(ls);
    let enc = spec_encode_depth_levels(ls);
    let n = ls.len() as int;
    let tail = d.subrange(pos, pos + 4 + 16 * n);
    let a = spec_u16_to_le_bytes(16);
    let b = spec_u16_to_le_bytes(ls.len() as u16);
    assert forall|j: int| 0 <= j < 2 implies d.subrange(pos, pos + 2)[j] == a[j] by {
        assert(d.subrange(pos, pos + 2)[j] == d[pos + j]);
        assert(d[pos + j] == tail[j]);
        assert(tail[j] == g[j]);
        assert(g[j] == (a + b)[j]);
        assert((a + b)[j] == a[j]);
    }
    assert(d.subrange(pos, pos + 2) =~= a);
    assert forall|j: int| 0 <= j < 2 implies d.subrange(pos + 2, pos + 4)[j] == b[j] by {
        assert(d.subrange(pos + 2, pos + 4)[j] == d[pos + 2 + j]);
        assert(d[pos + 2 + j] == tail[2 + j]);
        assert(tail[2 + j] == g[2 + j]);
        assert(g[2 + j] == (a + b)[2 + j]);
        assert((a + b)[2 + j] == b[j]);
    }
    assert(d.subrange(pos + 2, pos + 4) =~= b);
    assert((ls.len() as u16) as int == n);
    assert forall|j: int| 0 <= j < 16 * n implies d.subrange(pos + 4, pos + 4 + 16 * n)[j]
        == enc[j] by {
        assert(d.subrange(pos + 4, pos + 4 + 16 * n)[j] == d[pos + 4 + j]);
        assert(d[pos + 4 + j] == tail[4 + j]);
        assert(tail[4 + j] == g[4 + j]);
        assert(g[4 + j] == enc[j]);
    }
    assert(d.subrange(pos + 4, pos + 4 + 16 * n) =~= enc);
    let parsed = depth_levels_at(d, pos + 4, 16, n);
    assert forall|i: int| 0 <= i < n implies parsed[i] == ls[i] by {
        assert(d.subrange(pos + 4 + i * 16, pos + 4 + i * 16 + 8) =~= enc.subrange(
            16 * i,
            16 * i + 8,
        ));
        assert(d.subrange(pos + 4 + i * 16 + 8, pos + 4 + i * 16 + 16) =~= enc.subrange(
            16 * i + 8,
            16 * i + 16,
        ));
        lemma_i64_le_round_trip(ls[i].price_mantissa);
        lemma_i64_le_round_trip(ls[i].qty_mantissa);
    }
    assert(parsed =~= ls);
}

/// Law: the depth-snapshot codec round-trips.
#[verifier::spinoff_prover]
pub proof fn law_depth_codec_round_trip(v: DepthSnapshotStreamEventV)
    requires
        depth_event_wf(v),
    ensures
        parse_depth_body(spec_encode_depth_body(v)) == Ok::<
            DepthSnapshotStreamEventV,
            DecodeErrorKind,
        >(v),
{
    lemma_auto_spec_u16_to_from_le_bytes();
    lemma_auto_spec_u64_to_from_le_bytes();
    lemma_encode_depth_levels(v.bids);
    lemma_encode_depth_levels(v.asks);
    let d = spec_encode_depth_body(v);
    let sym = encode_utf8(v.symbol);
    let nb = v.bids.len() as int;
    let na = v.asks.len() as int;
    let bids_pos: int = 18;
    let asks_pos: int = 22 + 16 * nb;
    let sym_pos: int = asks_pos + 4 + 16 * na;
    assert(d.len() == sym_pos + 1 + sym.len());
    assert(d.subrange(0, 8) =~= spec_i64_to_le_bytes(v.event_time_micros));
    assert(d.subrange(8, 16) =~= spec_i64_to_le_bytes(v.book_update_id));
    assert(d[16] == v.price_exponent as u8);
    assert(d[17] == v.qty_exponent as u8);
    lemma_i64_le_round_trip(v.event_time_micros);
    lemma_i64_le_round_trip(v.book_update_id);
    let pe = v.price_exponent;
    let qe = v.qty_exponent;
    assert(((pe as u8) as i8) == pe) by (bit_vector);
    assert(((qe as u8) as i8) == qe) by (bit_vector);
    assert(d.subrange(bids_pos, bids_pos + 4 + 16 * nb) =~= spec_encode_depth_group(v.bids));
    lemma_depth_group_round_trip(d, bids_pos, v.bids);
    assert(d.subrange(asks_pos, asks_pos + 4 + 16 * na) =~= spec_encode_depth_group(v.asks));
    lemma_depth_group_round_trip(d, asks_pos, v.asks);
    lemma_var_string8_round_trip(d, sym_pos, v.symbol);
    let p = parse_depth_body(d)->Ok_0;
    assert(p =~= v);
}

/// Law: complete depth-snapshot frames round-trip through the frame parser.
#[verifier::spinoff_prover]
pub proof fn law_depth_frame_round_trip(v: DepthSnapshotStreamEventV)
    requires
        depth_event_wf(v),
    ensures
        parse_frame(spec_encode_depth_frame(v)) == Ok::<SbeMessageV, DecodeErrorKind>(
            SbeMessageV::DepthSnapshot(v),
        ),
{
    lemma_auto_spec_u16_to_from_le_bytes();
    let d = spec_encode_depth_frame(v);
    let body = spec_encode_depth_body(v);
    assert(d.len() == 8 + body.len());
    assert(d.subrange(0, 2) =~= spec_u16_to_le_bytes(18));
    assert(d.subrange(2, 4) =~= spec_u16_to_le_bytes(TEMPLATE_DEPTH_SNAPSHOT_STREAM));
    assert(spec_header(d).template_id == TEMPLATE_DEPTH_SNAPSHOT_STREAM);
    assert(d.subrange(8, d.len() as int) =~= body);
    law_depth_codec_round_trip(v);
}

/// Appending one level extends the flattened encoding by that level's bytes.
proof fn lemma_encode_levels_snoc(ls: Seq<DepthLevel>, x: DepthLevel)
    ensures
        spec_encode_depth_levels(ls.push(x)) =~= spec_encode_depth_levels(ls)
            + super::wire::spec_encode_depth_level(x),
    decreases ls.len(),
{
    if ls.len() == 0 {
        assert(ls.push(x)[0] == x);
        assert(ls.push(x).drop_first() =~= Seq::<DepthLevel>::empty());
        assert(spec_encode_depth_levels(ls.push(x)) == super::wire::spec_encode_depth_level(x)
            + spec_encode_depth_levels(Seq::<DepthLevel>::empty()));
        assert(spec_encode_depth_levels(ls) == Seq::<u8>::empty());
    } else {
        assert(ls.push(x)[0] == ls[0]);
        assert(ls.push(x).drop_first() =~= ls.drop_first().push(x));
        lemma_encode_levels_snoc(ls.drop_first(), x);
        assert(spec_encode_depth_levels(ls.push(x)) == super::wire::spec_encode_depth_level(
            ls[0],
        ) + spec_encode_depth_levels(ls.drop_first().push(x)));
        assert(spec_encode_depth_levels(ls) == super::wire::spec_encode_depth_level(ls[0])
            + spec_encode_depth_levels(ls.drop_first()));
    }
}

/// Writes the sixteen canonical bytes of each level in order.
fn push_depth_levels(out: &mut Vec<u8>, levels: &Vec<DepthLevel>)
    ensures
        final(out)@ == old(out)@ + spec_encode_depth_levels(levels@),
{
    let ghost head = out@;
    let mut i: usize = 0;
    while i < levels.len()
        invariant
            0 <= i <= levels@.len(),
            out@ == head + spec_encode_depth_levels(levels@.take(i as int)),
        decreases levels@.len() - i,
    {
        let l = levels[i];
        let mut part = u64_to_le_bytes(l.price_mantissa as u64);
        out.append(&mut part);
        let mut part = u64_to_le_bytes(l.qty_mantissa as u64);
        out.append(&mut part);
        proof {
            lemma_encode_levels_snoc(levels@.take(i as int), levels@[i as int]);
            assert(levels@.take(i as int).push(levels@[i as int]) =~= levels@.take(i + 1));
            assert(out@ =~= head + spec_encode_depth_levels(levels@.take(i + 1)));
        }
        i += 1;
    }
    proof {
        assert(levels@.take(levels@.len() as int) =~= levels@);
    }
}

/// Writes a var-string: one length byte, then the UTF-8 bytes.
fn push_var_string8(out: &mut Vec<u8>, symbol: &String)
    requires
        encode_utf8(symbol@).len() <= 255,
    ensures
        final(out)@ == old(out)@ + spec_encode_var_string8(symbol@),
{
    let ghost head = out@;
    let sym_bytes = symbol.as_str().as_bytes();
    out.push(sym_bytes.len() as u8);
    let mut i: usize = 0;
    let ghost before = out@;
    while i < sym_bytes.len()
        invariant
            0 <= i <= sym_bytes@.len(),
            out@ == before + sym_bytes@.subrange(0, i as int),
        decreases sym_bytes@.len() - i,
    {
        out.push(*vstd::slice::slice_index_get(sym_bytes, i));
        i += 1;
        proof {
            assert(out@ =~= before + sym_bytes@.subrange(0, i as int));
        }
    }
    proof {
        assert(sym_bytes@.subrange(0, sym_bytes@.len() as int) =~= sym_bytes@);
        assert(out@ =~= head + spec_encode_var_string8(symbol@));
    }
}

impl BestBidAskStreamEvent {
    /// Encodes the message as a complete canonical frame.
    pub fn encode(&self) -> (r: Vec<u8>)
        requires
            bba_event_wf(self@),
        ensures
            r@ == spec_encode_bba_frame(self@),
    {
        let mut out = u16_to_le_bytes(50);
        let mut part = u16_to_le_bytes(TEMPLATE_BEST_BID_ASK_STREAM);
        out.append(&mut part);
        let mut part = u16_to_le_bytes(SCHEMA_ID);
        out.append(&mut part);
        let mut part = u16_to_le_bytes(SCHEMA_VERSION);
        out.append(&mut part);
        let mut part = u64_to_le_bytes(self.event_time_micros as u64);
        out.append(&mut part);
        let mut part = u64_to_le_bytes(self.book_update_id as u64);
        out.append(&mut part);
        out.push(self.price_exponent as u8);
        out.push(self.qty_exponent as u8);
        let mut part = u64_to_le_bytes(self.bid_price_mantissa as u64);
        out.append(&mut part);
        let mut part = u64_to_le_bytes(self.bid_qty_mantissa as u64);
        out.append(&mut part);
        let mut part = u64_to_le_bytes(self.ask_price_mantissa as u64);
        out.append(&mut part);
        let mut part = u64_to_le_bytes(self.ask_qty_mantissa as u64);
        out.append(&mut part);
        push_var_string8(&mut out, &self.symbol);
        proof {
            assert(out@ =~= spec_encode_bba_frame(self@));
        }
        out
    }
}

impl DepthSnapshotStreamEvent {
    /// Encodes the message as a complete canonical frame with 16-byte depth
    /// blocks.
    pub fn encode(&self) -> (r: Vec<u8>)
        requires
            depth_event_wf(self@),
        ensures
            r@ == spec_encode_depth_frame(self@),
    {
        let mut out = u16_to_le_bytes(18);
        let mut part = u16_to_le_bytes(TEMPLATE_DEPTH_SNAPSHOT_STREAM);
        out.append(&mut part);
        let mut part = u16_to_le_bytes(SCHEMA_ID);
        out.append(&mut part);
        let mut part = u16_to_le_bytes(SCHEMA_VERSION);
        out.append(&mut part);
        let mut part = u64_to_le_bytes(self.event_time_micros as u64);
        out.append(&mut part);
        let mut part = u64_to_le_bytes(self.book_update_id as u64);
        out.append(&mut part);
        out.push(self.price_exponent as u8);
        out.push(self.qty_exponent as u8);
        let mut part = u16_to_le_bytes(16);
        out.append(&mut part);
        let mut part = u16_to_le_bytes(self.bids.len() as u16);
        out.append(&mut part);
        push_depth_levels(&mut out, &self.bids);
        let mut part = u16_to_le_bytes(16);
        out.append(&mut part);
        let mut part = u16_to_le_bytes(self.asks.len() as u16);
        out.append(&mut part);
        push_depth_levels(&mut out, &self.asks);
        push_var_string8(&mut out, &self.symbol);
        proof {
            assert(out@ =~= spec_encode_depth_frame(self@));
        }
        out
    }
}

impl TradeStreamEvent {
    /// Encodes the message as a complete canonical frame: the eight-byte
    /// header, then a body with 25-byte trade blocks and no padding.
    pub fn encode(&self) -> (r: Vec<u8>)
        requires
            trade_event_wf(self@),
        ensures
            r@ == spec_encode_trade_frame(self@),
    {
        let mut out = u16_to_le_bytes(18);
        let mut part = u16_to_le_bytes(TEMPLATE_TRADES_STREAM);
        out.append(&mut part);
        let mut part = u16_to_le_bytes(SCHEMA_ID);
        out.append(&mut part);
        let mut part = u16_to_le_bytes(SCHEMA_VERSION);
        out.append(&mut part);
        let mut part = u64_to_le_bytes(self.event_time_micros as u64);
        out.append(&mut part);
        let mut part = u64_to_le_bytes(self.transact_time_micros as u64);
        out.append(&mut part);
        out.push(self.price_exponent as u8);
        out.push(self.qty_exponent as u8);
        let mut part = u16_to_le_bytes(25);
        out.append(&mut part);
        let mut part = u32_to_le_bytes(self.trades.len() as u32);
        out.append(&mut part);
        if self.trades.len() > 0 {
            let t = self.trades[0];
            let mut part = u64_to_le_bytes(t.id as u64);
            out.append(&mut part);
            let mut part = u64_to_le_bytes(t.price_mantissa as u64);
            out.append(&mut part);
            let mut part = u64_to_le_bytes(t.qty_mantissa as u64);
            out.append(&mut part);
            out.push(if t.is_buyer_maker {
                1
            } else {
                0
            });
        }
        push_var_string8(&mut out, &self.symbol);
        proof {
            assert(out@ =~= spec_encode_trade_frame(self@));
        }
        out
    }
}

} // verus!
