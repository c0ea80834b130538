//! The fixed eight-byte message header and the small wire enumerations.

use vstd::prelude::*;
use vstd::bytes::spec_u16_from_le_bytes;
use vstd::slice::{slice_index_get, slice_subrange};

use crate::errors::{DecodeError, DecodeErrorKind};
use crate::strings::bytes_to_string_lossy;
use crate::strings::lossy_utf8_chars;
use super::cursor::SbeCursor;
use super::wire::{
    TEMPLATE_BEST_BID_ASK_STREAM, TEMPLATE_DEPTH_DIFF_STREAM, TEMPLATE_DEPTH_SNAPSHOT_STREAM,
    TEMPLATE_TRADES_STREAM,
};

verus! {

/// The size in bytes of the fixed message header.
pub const HEADER_SIZE: usize = 8;

/// The four little-endian 16-bit fields that precede every message body.
#[derive(Debug, Clone, Copy, PartialEq, Eq, Structural)]
pub struct MessageHeader {
    pub block_length: u16,
    pub template_id: u16,
    pub schema_id: u16,
    pub version: u16,
}

/// The header encoded in the first eight bytes of `d`.
pub open spec fn spec_header(d: Seq<u8>) -> MessageHeader
    recommends
        d.len() >= 8,
{
    MessageHeader {
        block_length: spec_u16_from_le_bytes(d.subrange(0, 2)),
        template_id: spec_u16_from_le_bytes(d.subrange(2, 4)),
        schema_id: spec_u16_from_le_bytes(d.subrange(4, 6)),
        version: spec_u16_from_le_bytes(d.subrange(6, 8)),
    }
}

impl MessageHeader {
    /// Decodes the fixed header from the front of a frame.
    pub fn decode(data: &[u8]) -> (r: Result<Self, DecodeError>)
        ensures
            r is Ok <==> data@.len() >= 8,
            r is Ok ==> r->Ok_0 == spec_header(data@),
            r is Err ==> r->Err_0.kind == DecodeErrorKind::ShortFrame,
    {
        let mut cursor = SbeCursor::new(data);
        let block_length = match cursor.read_u16_le() {
            Ok(v) => v,
            Err(e) => { return Err(e) },
        };
        let template_id = match cursor.read_u16_le() {
            Ok(v) => v,
            Err(e) => { return Err(e) },
        };
        let schema_id = match cursor.read_u16_le() {
            Ok(v) => v,
            Err(e) => { return Err(e) },
        };
        let version = match cursor.read_u16_le() {
            Ok(v) => v,
            Err(e) => { return Err(e) },
        };
        Ok(MessageHeader { block_length, template_id, schema_id, version })
    }

    /// The message kind this header announces.
    pub fn message_type(&self) -> (r: SbeMessageType)
        ensures
            r == spec_message_type(self.template_id),
    {
        SbeMessageType::from_template_id(self.template_id)
    }
}

/// The message kind named by a template id.
#[derive(Debug, Clone, Copy, PartialEq, Eq, Structural)]
pub enum SbeMessageType {
    Trade,
    BestBidAsk,
    DepthDiff,
    DepthSnapshot,
    Unknown(u16),
}

/// The template-id-to-kind mapping of the schema.
pub open spec fn spec_message_type(id: u16) -> SbeMessageType {
    if id == TEMPLATE_TRADES_STREAM {
        SbeMessageType::Trade
    } else if id == TEMPLATE_BEST_BID_ASK_STREAM {
        SbeMessageType::BestBidAsk
    } else if id == TEMPLATE_DEPTH_DIFF_STREAM {
        SbeMessageType::DepthDiff
    } else if id == TEMPLATE_DEPTH_SNAPSHOT_STREAM {
        SbeMessageType::DepthSnapshot
    } else {
        SbeMessageType::Unknown(id)
    }
}

impl SbeMessageType {
    pub fn from_template_id(id: u16) -> (r: Self)
        ensures
            r == spec_message_type(id),
    {
        if id == TEMPLATE_TRADES_STREAM {
            SbeMessageType::Trade
        } else if id == TEMPLATE_BEST_BID_ASK_STREAM {
            SbeMessageType::BestBidAsk
        } else if id == TEMPLATE_DEPTH_DIFF_STREAM {
            SbeMessageType::DepthDiff
        } else if id == TEMPLATE_DEPTH_SNAPSHOT_STREAM {
            SbeMessageType::DepthSnapshot
        } else {
            SbeMessageType::Unknown(id)
        }
    }
}

/// Which side initiated a trade.
#[derive(Debug, Clone, Copy, PartialEq, Eq, Structural)]
pub enum AggressorSide {
    Buy,
    Sell,
    Unknown(u8),
}

impl AggressorSide {
    pub fn from_u8(v: u8) -> (r: Self)
        ensures
            v == 0 ==> r == AggressorSide::Buy,
            v == 1 ==> r == AggressorSide::Sell,
            v > 1 ==> r == AggressorSide::Unknown(v),
    {
        match v {
            0 => AggressorSide::Buy,
            1 => AggressorSide::Sell,
            _ => AggressorSide::Unknown(v),
        }
    }
}

/// The action a depth-diff entry applies to a level.
#[derive(Debug, Clone, Copy, PartialEq, Eq, Structural)]
pub enum DepthUpdateAction {
    New,
    Change,
    Delete,
    Unknown(u8),
}

impl DepthUpdateAction {
    pub fn from_u8(v: u8) -> (r: Self)
        ensures
            v == 0 ==> r == DepthUpdateAction::New,
            v == 1 ==> r == DepthUpdateAction::Change,
            v == 2 ==> r == DepthUpdateAction::Delete,
            v > 2 ==> r == DepthUpdateAction::Unknown(v),
    {
        match v {
            0 => DepthUpdateAction::New,
            1 => DepthUpdateAction::Change,
            2 => DepthUpdateAction::Delete,
            _ => DepthUpdateAction::Unknown(v),
        }
    }
}

/// Which side of the book a depth entry belongs to.
#[derive(Debug, Clone, Copy, PartialEq, Eq, Structural)]
pub enum DepthSide {
    Bid,
    Ask,
    Unknown(u8),
}

impl DepthSide {
    pub fn from_u8(v: u8) -> (r: Self)
        ensures
            v == 0 ==> r == DepthSide::Bid,
            v == 1 ==> r == DepthSide::Ask,
            v > 1 ==> r == DepthSide::Unknown(v),
    {
        match v {
            0 => DepthSide::Bid,
            1 => DepthSide::Ask,
            _ => DepthSide::Unknown(v),
        }
    }
}

/// The index of the first zero byte of `s`, or its length when none occurs.
pub open spec fn first_zero(s: Seq<u8>) -> int
    decreases s.len(),
{
    if s.len() == 0 {
        0
    } else if s[0] == 0 {
        0
    } else {
        1 + first_zero(s.drop_first())
    }
}

/// The first zero index never runs past the end, and everything before it is
/// non-zero.
pub proof fn lemma_first_zero(s: Seq<u8>)
    ensures
        0 <= first_zero(s) <= s.len(),
        forall|i: int| 0 <= i < first_zero(s) ==> s[i] != 0,
        first_zero(s) < s.len() ==> s[first_zero(s)] == 0,
    decreases s.len(),
{
    if s.len() > 0 && s[0] != 0 {
        lemma_first_zero(s.drop_first());
        assert forall|i: int| 0 <= i < first_zero(s) implies s[i] != 0 by {
            if i > 0 {
                assert(s.drop_first()[i - 1] != 0);
            }
        }
    }
}

/// Reads a fixed-width symbol field: the bytes before the first zero byte,
/// decoded leniently as UTF-8.
pub fn read_symbol(bytes: &[u8]) -> (r: String)
    ensures
        r@ == lossy_utf8_chars(bytes@.subrange(0, first_zero(bytes@))),
{
    let n: usize = bytes.len();
    let mut end: usize = 0;
    while end < n && *slice_index_get(bytes, end) != 0
        invariant
            0 <= end <= n,
            n == bytes@.len(),
            forall|i: int| 0 <= i < end ==> bytes@[i] != 0,
        decreases n - end,
    {
        end += 1;
    }
    proof {
        lemma_first_zero(bytes@);
        if end < n {
            assert(bytes@[end as int] == 0);
        }
        assert(first_zero(bytes@) == end as int) by {
            let fz = first_zero(bytes@);
            if fz < end {
                assert(bytes@[fz] != 0);
            }
            if end < fz {
                assert(bytes@[end as int] != 0);
            }
        }
    }
    let prefix = slice_subrange(bytes, 0, end);
    bytes_to_string_lossy(prefix)
}

} // verus!
