//! The frame-level decoder: header, template dispatch, typed message.

use vstd::prelude::*;
use vstd::slice::slice_subrange;

use crate::errors::{DecodeError, DecodeErrorKind};
use super::messages::{
    BestBidAskStreamEvent, DepthDiffStreamEvent, DepthSnapshotStreamEvent, SbeMessage,
    TradeStreamEvent,
};
use super::types::{spec_header, spec_message_type, MessageHeader, SbeMessageType, HEADER_SIZE};
use super::wire::{
    parse_bba_body, parse_depth_body, parse_depth_diff_body, parse_trade_body,
    BestBidAskStreamEventV, DepthDiffStreamEventV, DepthSnapshotStreamEventV, TradeStreamEventV,
    SCHEMA_ID, SCHEMA_VERSION,
};

verus! {

/// Specification-level value of a decoded frame.
pub enum SbeMessageV {
    Trade(TradeStreamEventV),
    BestBidAsk(BestBidAskStreamEventV),
    DepthDiff(DepthDiffStreamEventV),
    DepthSnapshot(DepthSnapshotStreamEventV),
}

impl View for SbeMessage {
    type V = SbeMessageV;

    open spec fn view(&self) -> SbeMessageV {
        match self {
            SbeMessage::Trade(e) => SbeMessageV::Trade(e@),
            SbeMessage::BestBidAsk(e) => SbeMessageV::BestBidAsk(e@),
            SbeMessage::DepthDiff(e) => SbeMessageV::DepthDiff(e@),
            SbeMessage::DepthSnapshot(e) => SbeMessageV::DepthSnapshot(e@),
        }
    }
}

/// A complete frame: the eight-byte header, then the body of the template
/// the header names. Unknown template ids are a decode error.
pub open spec fn parse_frame(d: Seq<u8>) -> Result<SbeMessageV, DecodeErrorKind> {
    if d.len() < 8 {
        Err(DecodeErrorKind::ShortFrame)
    } else {
        let body = d.subrange(8, d.len() as int);
        match spec_message_type(spec_header(d).template_id) {
            SbeMessageType::Trade => match parse_trade_body(body) {
                Ok(v) => Ok(SbeMessageV::Trade(v)),
                Err(k) => Err(k),
            },
            SbeMessageType::BestBidAsk => match parse_bba_body(body) {
                Ok(v) => Ok(SbeMessageV::BestBidAsk(v)),
                Err(k) => Err(k),
            },
            SbeMessageType::DepthDiff => match parse_depth_diff_body(body) {
                Ok(v) => Ok(SbeMessageV::DepthDiff(v)),
                Err(k) => Err(k),
            },
            SbeMessageType::DepthSnapshot => match parse_depth_body(body) {
                Ok(v) => Ok(SbeMessageV::DepthSnapshot(v)),
                Err(k) => Err(k),
            },
            SbeMessageType::Unknown(_) => Err(DecodeErrorKind::Unknown),
        }
    }
}

/// Decodes complete frames. The expected schema id and version are advisory:
/// a mismatch does not stop decoding.
pub struct SbeDecoder {
    pub expected_schema_id: u16,
    pub expected_version: u16,
}

impl SbeDecoder {
    pub fn new() -> (r: Self)
        ensures
            r.expected_schema_id == SCHEMA_ID,
            r.expected_version == SCHEMA_VERSION,
    {
        Self { expected_schema_id: SCHEMA_ID, expected_version: SCHEMA_VERSION }
    }

    pub fn with_schema(schema_id: u16, version: u16) -> (r: Self)
        ensures
            r.expected_schema_id == schema_id,
            r.expected_version == version,
    {
        Self { expected_schema_id: schema_id, expected_version: version }
    }

    /// Decodes one complete frame into a typed message.
    pub fn decode(&self, data: &[u8]) -> (r: Result<SbeMessage, DecodeError>)
        ensures
            r is Ok <==> parse_frame(data@) is Ok,
            r is Ok ==> r->Ok_0@ == parse_frame(data@)->Ok_0,
            r is Err ==> r->Err_0.kind == parse_frame(data@)->Err_0,
    {
        let header = match MessageHeader::decode(data) {
            Ok(h) => h,
            Err(e) => { return Err(e) },
        };
        let body = slice_subrange(data, HEADER_SIZE, data.len());
        match header.message_type() {
            SbeMessageType::Trade => match TradeStreamEvent::decode(body) {
                Ok(e) => Ok(SbeMessage::Trade(e)),
                Err(e) => Err(e),
            },
            SbeMessageType::BestBidAsk => match BestBidAskStreamEvent::decode(body) {
                Ok(e) => Ok(SbeMessage::BestBidAsk(e)),
                Err(e) => Err(e),
            },
            SbeMessageType::DepthDiff => match DepthDiffStreamEvent::decode(body) {
                Ok(e) => Ok(SbeMessage::DepthDiff(e)),
                Err(e) => Err(e),
            },
            SbeMessageType::DepthSnapshot => match DepthSnapshotStreamEvent::decode(body) {
                Ok(e) => Ok(SbeMessage::DepthSnapshot(e)),
                Err(e) => Err(e),
            },
            SbeMessageType::Unknown(id) => Err(DecodeError {
                kind: DecodeErrorKind::Unknown,
                needed: id as usize,
                have: data.len(),
            }),
        }
    }
}

impl Default for SbeDecoder {
    fn default() -> (r: Self)
        ensures
            r.expected_schema_id == SCHEMA_ID,
            r.expected_version == SCHEMA_VERSION,
    {
        Self::new()
    }
}

} // verus!
