//! A bounds-checked reading position over one binary frame.

use vstd::prelude::*;
use vstd::bytes::{spec_u16_from_le_bytes, spec_u32_from_le_bytes, spec_u64_from_le_bytes};
use vstd::bytes::{u16_from_le_bytes, u32_from_le_bytes, u64_from_le_bytes};
use vstd::slice::{slice_index_get, slice_subrange};
use vstd::utf8::{decode_utf8, valid_utf8};

use crate::errors::{DecodeError, DecodeErrorKind};
use crate::strings::bytes_as_utf8;

verus! {

/// The signed 64-bit value encoded little-endian in an 8-byte sequence.
pub open spec fn spec_i64_from_le_bytes(s: Seq<u8>) -> i64
    recommends
        s.len() == 8,
{
    spec_u64_from_le_bytes(s) as i64
}

/// A cursor over a byte slice: the bytes plus the next position to read.
pub struct SbeCursor<'a> {
    data: &'a [u8],
    pos: usize,
}

impl<'a> SbeCursor<'a> {
    /// The whole underlying byte sequence.
    pub closed spec fn bytes(&self) -> Seq<u8> {
        self.data@
    }

    /// The current reading position.
    pub closed spec fn cur(&self) -> int {
        self.pos as int
    }

    /// The position never runs past the end of the data.
    pub closed spec fn wf(&self) -> bool {
        0 <= self.pos <= self.data@.len()
    }

    pub fn new(data: &'a [u8]) -> (r: Self)
        ensures
            r.bytes() == data@,
            r.cur() == 0,
            r.wf(),
    {
        Self { data, pos: 0 }
    }

    pub fn position(&self) -> (r: usize)
        ensures
            r == self.cur(),
    {
        self.pos
    }

    pub fn remaining(&self) -> (r: usize)
        requires
            self.wf(),
        ensures
            r == self.bytes().len() - self.cur(),
    {
        self.data.len() - self.pos
    }

    /// Advances the position by `len` bytes, or fails without moving when
    /// fewer than `len` bytes remain.
    pub fn skip(&mut self, len: usize) -> (r: Result<(), DecodeError>)
        requires
            old(self).wf(),
        ensures
            final(self).wf(),
            final(self).bytes() == old(self).bytes(),
            r is Ok <==> old(self).cur() + len <= old(self).bytes().len(),
            r is Ok ==> final(self).cur() == old(self).cur() + len,
            r is Err ==> final(self).cur() == old(self).cur()
                && r->Err_0.kind == DecodeErrorKind::ShortFrame,
    {
        self.advance(len)
    }

    pub fn read_u8(&mut self) -> (r: Result<u8, DecodeError>)
        requires
            old(self).wf(),
        ensures
            final(self).wf(),
            final(self).bytes() == old(self).bytes(),
            r is Ok <==> old(self).cur() + 1 <= old(self).bytes().len(),
            r is Ok ==> final(self).cur() == old(self).cur() + 1
                && r->Ok_0 == old(self).bytes()[old(self).cur()],
            r is Err ==> final(self).cur() == old(self).cur()
                && r->Err_0.kind == DecodeErrorKind::ShortFrame,
    {
        let n: usize = self.data.len();
        if n - self.pos < 1 {
            return Err(DecodeError {
                kind: DecodeErrorKind::ShortFrame,
                needed: 1,
                have: n - self.pos,
            });
        }
        let value: u8 = *slice_index_get(self.data, self.pos);
        self.pos += 1;
        Ok(value)
    }

    pub fn read_i8(&mut self) -> (r: Result<i8, DecodeError>)
        requires
            old(self).wf(),
        ensures
            final(self).wf(),
            final(self).bytes() == old(self).bytes(),
            r is Ok <==> old(self).cur() + 1 <= old(self).bytes().len(),
            r is Ok ==> final(self).cur() == old(self).cur() + 1
                && r->Ok_0 == old(self).bytes()[old(self).cur()] as i8,
            r is Err ==> final(self).cur() == old(self).cur()
                && r->Err_0.kind == DecodeErrorKind::ShortFrame,
    {
        match self.read_u8() {
            Ok(b) => Ok(
                #[verifier::truncate]
                (b as i8),
            ),
            Err(e) => Err(e),
        }
    }

    pub fn read_u16_le(&mut self) -> (r: Result<u16, DecodeError>)
        requires
            old(self).wf(),
        ensures
            final(self).wf(),
            final(self).bytes() == old(self).bytes(),
            r is Ok <==> old(self).cur() + 2 <= old(self).bytes().len(),
            r is Ok ==> final(self).cur() == old(self).cur() + 2
                && r->Ok_0 == spec_u16_from_le_bytes(
                    old(self).bytes().subrange(old(self).cur(), old(self).cur() + 2),
                ),
            r is Err ==> final(self).cur() == old(self).cur()
                && r->Err_0.kind == DecodeErrorKind::ShortFrame,
    {
        let n: usize = self.data.len();
        if n - self.pos < 2 {
            return Err(DecodeError {
                kind: DecodeErrorKind::ShortFrame,
                needed: 2,
                have: n - self.pos,
            });
        }
        let part = slice_subrange(self.data, self.pos, self.pos + 2);
        let value = u16_from_le_bytes(part);
        self.pos += 2;
        Ok(value)
    }

    pub fn read_u32_le(&mut self) -> (r: Result<u32, DecodeError>)
        requires
            old(self).wf(),
        ensures
            final(self).wf(),
            final(self).bytes() == old(self).bytes(),
            r is Ok <==> old(self).cur() + 4 <= old(self).bytes().len(),
            r is Ok ==> final(self).cur() == old(self).cur() + 4
                && r->Ok_0 == spec_u32_from_le_bytes(
                    old(self).bytes().subrange(old(self).cur(), old(self).cur() + 4),
                ),
            r is Err ==> final(self).cur() == old(self).cur()
                && r->Err_0.kind == DecodeErrorKind::ShortFrame,
    {
        let n: usize = self.data.len();
        if n - self.pos < 4 {
            return Err(DecodeError {
                kind: DecodeErrorKind::ShortFrame,
                needed: 4,
                have: n - self.pos,
            });
        }
        let part = slice_subrange(self.data, self.pos, self.pos + 4);
        let value = u32_from_le_bytes(part);
        self.pos += 4;
        Ok(value)
    }

    pub fn read_i64_le(&mut self) -> (r: Result<i64, DecodeError>)
        requires
            old(self).wf(),
        ensures
            final(self).wf(),
            final(self).bytes() == old(self).bytes(),
            r is Ok <==> old(self).cur() + 8 <= old(self).bytes().len(),
            r is Ok ==> final(self).cur() == old(self).cur() + 8
                && r->Ok_0 == spec_i64_from_le_bytes(
                    old(self).bytes().subrange(old(self).cur(), old(self).cur() + 8),
                ),
            r is Err ==> final(self).cur() == old(self).cur()
                && r->Err_0.kind == DecodeErrorKind::ShortFrame,
    {
        let n: usize = self.data.len();
        if n - self.pos < 8 {
            return Err(DecodeError {
                kind: DecodeErrorKind::ShortFrame,
                needed: 8,
                have: n - self.pos,
            });
        }
        let part = slice_subrange(self.data, self.pos, self.pos + 8);
        let value = u64_from_le_bytes(part);
        self.pos += 8;
        Ok(
            #[verifier::truncate]
            (value as i64),
        )
    }

    pub fn read_bytes(&mut self, len: usize) -> (r: Result<&'a [u8], DecodeError>)
        requires
            old(self).wf(),
        ensures
            final(self).wf(),
            final(self).bytes() == old(self).bytes(),
            r is Ok <==> old(self).cur() + len <= old(self).bytes().len(),
            r is Ok ==> final(self).cur() == old(self).cur() + len
                && r->Ok_0@ == old(self).bytes().subrange(
                    old(self).cur(),
                    old(self).cur() + len,
                ),
            r is Err ==> final(self).cur() == old(self).cur()
                && r->Err_0.kind == DecodeErrorKind::ShortFrame,
    {
        let n: usize = self.data.len();
        if n - self.pos < len {
            return Err(DecodeError {
                kind: DecodeErrorKind::ShortFrame,
                needed: len,
                have: n - self.pos,
            });
        }
        let start = self.pos;
        self.pos += len;
        Ok(slice_subrange(self.data, start, start + len))
    }

    /// Reads a length-prefixed string: one length byte, then that many bytes
    /// of UTF-8.
    pub fn read_var_string8(&mut self) -> (r: Result<&'a str, DecodeError>)
        requires
            old(self).wf(),
        ensures
            final(self).wf(),
            final(self).bytes() == old(self).bytes(),
            r is Ok <==> spec_var_string8_at(old(self).bytes(), old(self).cur()) is Some,
            r is Ok ==> r->Ok_0@ == spec_var_string8_at(
                old(self).bytes(),
                old(self).cur(),
            ).unwrap() && final(self).cur() == old(self).cur() + 1 + old(self).bytes()[old(
                self,
            ).cur()],
            r is Err && (old(self).cur() + 1 > old(self).bytes().len() || old(self).cur() + 1
                + old(self).bytes()[old(self).cur()] > old(self).bytes().len())
                ==> r->Err_0.kind == DecodeErrorKind::ShortFrame,
            r is Err && old(self).cur() + 1 <= old(self).bytes().len() && old(self).cur() + 1
                + old(self).bytes()[old(self).cur()] <= old(self).bytes().len()
                ==> r->Err_0.kind == DecodeErrorKind::BadUtf8,
    {
        let length = match self.read_u8() {
            Ok(b) => b as usize,
            Err(e) => { return Err(e) },
        };
        let bytes = match self.read_bytes(length) {
            Ok(b) => b,
            Err(e) => { return Err(e) },
        };
        match bytes_as_utf8(bytes) {
            Some(s) => Ok(s),
            None => Err(DecodeError {
                kind: DecodeErrorKind::BadUtf8,
                needed: length,
                have: length,
            }),
        }
    }

    fn advance(&mut self, len: usize) -> (r: Result<(), DecodeError>)
        requires
            old(self).wf(),
        ensures
            final(self).wf(),
            final(self).bytes() == old(self).bytes(),
            r is Ok <==> old(self).cur() + len <= old(self).bytes().len(),
            r is Ok ==> final(self).cur() == old(self).cur() + len,
            r is Err ==> final(self).cur() == old(self).cur()
                && r->Err_0.kind == DecodeErrorKind::ShortFrame,
    {
        let n: usize = self.data.len();
        if n - self.pos < len {
            return Err(DecodeError {
                kind: DecodeErrorKind::ShortFrame,
                needed: len,
                have: n - self.pos,
            });
        }
        self.pos += len;
        Ok(())
    }
}

/// The length-prefixed UTF-8 string found at position `pos` of `data`, when
/// one is wholly present and valid there.
pub open spec fn spec_var_string8_at(data: Seq<u8>, pos: int) -> Option<Seq<char>> {
    if pos + 1 > data.len() {
        None
    } else {
        let len = data[pos] as int;
        if pos + 1 + len > data.len() {
            None
        } else {
            let bytes = data.subrange(pos + 1, pos + 1 + len);
            if valid_utf8(bytes) {
                Some(decode_utf8(bytes))
            } else {
                None
            }
        }
    }
}

/// Reads a repeating-group header in `groupSizeEncoding`: a 16-bit block
/// length then a 32-bit member count, both little-endian.
pub fn read_group_size(cursor: &mut SbeCursor<'_>) -> (r: Result<(u16, u32), DecodeError>)
    requires
        old(cursor).wf(),
    ensures
        final(cursor).wf(),
        final(cursor).bytes() == old(cursor).bytes(),
        r is Ok <==> old(cursor).cur() + 6 <= old(cursor).bytes().len(),
        r is Ok ==> final(cursor).cur() == old(cursor).cur() + 6
            && r->Ok_0.0 == spec_u16_from_le_bytes(
                old(cursor).bytes().subrange(old(cursor).cur(), old(cursor).cur() + 2),
            )
            && r->Ok_0.1 == spec_u32_from_le_bytes(
                old(cursor).bytes().subrange(old(cursor).cur() + 2, old(cursor).cur() + 6),
            ),
        r is Err ==> r->Err_0.kind == DecodeErrorKind::ShortFrame,
{
    let block_length = match cursor.read_u16_le() {
        Ok(v) => v,
        Err(e) => { return Err(e) },
    };
    let num_in_group = match cursor.read_u32_le() {
        Ok(v) => v,
        Err(e) => {
            return Err(DecodeError {
                kind: DecodeErrorKind::ShortFrame,
                needed: e.needed,
                have: e.have,
            })
        },
    };
    Ok((block_length, num_in_group))
}

/// Reads a repeating-group header in `groupSize16Encoding`: two 16-bit
/// little-endian fields, block length then member count.
pub fn read_group_size16(cursor: &mut SbeCursor<'_>) -> (r: Result<(u16, u16), DecodeError>)
    requires
        old(cursor).wf(),
    ensures
        final(cursor).wf(),
        final(cursor).bytes() == old(cursor).bytes(),
        r is Ok <==> old(cursor).cur() + 4 <= old(cursor).bytes().len(),
        r is Ok ==> final(cursor).cur() == old(cursor).cur() + 4
            && r->Ok_0.0 == spec_u16_from_le_bytes(
                old(cursor).bytes().subrange(old(cursor).cur(), old(cursor).cur() + 2),
            )
            && r->Ok_0.1 == spec_u16_from_le_bytes(
                old(cursor).bytes().subrange(old(cursor).cur() + 2, old(cursor).cur() + 4),
            ),
        r is Err ==> r->Err_0.kind == DecodeErrorKind::ShortFrame,
{
    let block_length = match cursor.read_u16_le() {
        Ok(v) => v,
        Err(e) => { return Err(e) },
    };
    let num_in_group = match cursor.read_u16_le() {
        Ok(v) => v,
        Err(e) => {
            return Err(DecodeError {
                kind: DecodeErrorKind::ShortFrame,
                needed: e.needed,
                have: e.have,
            })
        },
    };
    Ok((block_length, num_in_group))
}

/// Reads the signed 64-bit little-endian value at the start of `data`.
pub fn read_i64_le_from(data: &[u8]) -> (r: Result<i64, DecodeError>)
    ensures
        r is Ok <==> data@.len() >= 8,
        r is Ok ==> r->Ok_0 == spec_i64_from_le_bytes(data@.subrange(0, 8)),
        r is Err ==> r->Err_0.kind == DecodeErrorKind::ShortFrame,
{
    if data.len() < 8 {
        return Err(DecodeError {
            kind: DecodeErrorKind::ShortFrame,
            needed: 8,
            have: data.len(),
        });
    }
    let part = slice_subrange(data, 0, 8);
    let value = u64_from_le_bytes(part);
    Ok(
        #[verifier::truncate]
        (value as i64),
    )
}

} // verus!
