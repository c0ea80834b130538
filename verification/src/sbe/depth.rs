//! A lazy view over the raw bytes of a depth repeating group. Quantity sums
//! for the imbalance signal are computed straight off the bytes, without
//! materialising the levels; the result is proved equal to summing the
//! eagerly parsed levels.

use vstd::prelude::*;
use vstd::slice::slice_subrange;

use crate::errors::{DecodeError, DecodeErrorKind};
use super::cursor::{read_group_size16, read_i64_le_from, SbeCursor};
use super::wire::{depth_levels_at, lemma_levels_of_subrange, parse_depth_body, DepthLevel};

verus! {

/// The sum of the quantity mantissas of the first `k` levels (all levels,
/// when fewer than `k` exist).
pub open spec fn sum_qty_prefix(ls: Seq<DepthLevel>, k: int) -> int
    decreases ls.len(),
{
    if k <= 0 || ls.len() == 0 {
        0
    } else {
        ls[0].qty_mantissa + sum_qty_prefix(ls.drop_first(), k - 1)
    }
}

/// Extending the prefix by one adds exactly the next level's quantity.
pub proof fn lemma_sum_step(ls: Seq<DepthLevel>, k: int)
    requires
        0 <= k < ls.len(),
    ensures
        sum_qty_prefix(ls, k + 1) == sum_qty_prefix(ls, k) + ls[k].qty_mantissa,
    decreases k,
{
    if k == 0 {
        assert(sum_qty_prefix(ls, 1) == ls[0].qty_mantissa + sum_qty_prefix(ls.drop_first(), 0));
        assert(sum_qty_prefix(ls.drop_first(), 0) == 0);
    } else {
        lemma_sum_step(ls.drop_first(), k - 1);
        assert(ls.drop_first()[k - 1] == ls[k]);
    }
}

/// Past the end of the sequence the prefix sum no longer grows.
pub proof fn lemma_sum_saturates(ls: Seq<DepthLevel>, k: int)
    requires
        k >= ls.len(),
    ensures
        sum_qty_prefix(ls, k) == sum_qty_prefix(ls, ls.len() as int),
    decreases ls.len(),
{
    if ls.len() > 0 {
        lemma_sum_saturates(ls.drop_first(), k - 1);
    }
}

/// A prefix sum of `k` signed 64-bit values stays within `k` times their
/// magnitude bound.
pub proof fn lemma_sum_bound(ls: Seq<DepthLevel>, k: int)
    requires
        k >= 0,
    ensures
        -k * 0x8000_0000_0000_0000 <= sum_qty_prefix(ls, k) <= k * 0x8000_0000_0000_0000,
    decreases ls.len(),
{
    if k > 0 && ls.len() > 0 {
        lemma_sum_bound(ls.drop_first(), k - 1);
        assert((k - 1) * 0x8000_0000_0000_0000 + 0x8000_0000_0000_0000 == k
            * 0x8000_0000_0000_0000) by (nonlinear_arith);
    } else {
        assert(0 <= k * 0x8000_0000_0000_0000) by (nonlinear_arith)
            requires
                k >= 0,
        ;
    }
}

/// The quantity sums a depth group yields: over the first five levels, the
/// first ten, and the whole side, as raw mantissas.
#[derive(Debug, Clone, Copy, PartialEq, Eq, Structural)]
pub struct DepthSums {
    pub top5: i128,
    pub top10: i128,
    pub all: i128,
}

/// A borrowed view over the member bytes of one depth repeating group.
pub struct DepthLevels<'a> {
    data: &'a [u8],
    count: u16,
    block_length: u16,
    qty_exponent: i8,
}

impl<'a> DepthLevels<'a> {
    /// The raw member bytes.
    pub closed spec fn bytes(&self) -> Seq<u8> {
        self.data@
    }

    /// The declared number of levels.
    pub closed spec fn spec_count(&self) -> int {
        self.count as int
    }

    /// The declared stride.
    pub closed spec fn spec_block_length(&self) -> int {
        self.block_length as int
    }

    /// The declared quantity exponent.
    pub closed spec fn spec_qty_exponent(&self) -> i8 {
        self.qty_exponent
    }

    /// A usable view declares a stride of at least one full level.
    pub closed spec fn wf(&self) -> bool {
        self.block_length >= 16
    }

    /// The levels this view denotes, parsed eagerly.
    pub open spec fn levels(&self) -> Seq<DepthLevel> {
        depth_levels_at(self.bytes(), 0, self.spec_block_length(), self.spec_count())
    }

    /// The three quantity sums this view denotes.
    pub open spec fn sums_spec(&self) -> DepthSums {
        DepthSums {
            top5: sum_qty_prefix(self.levels(), 5) as i128,
            top10: sum_qty_prefix(self.levels(), 10) as i128,
            all: sum_qty_prefix(self.levels(), self.spec_count()) as i128,
        }
    }

    /// Wraps group bytes; the stride must cover at least the price and
    /// quantity fields of a level.
    pub fn new(data: &'a [u8], count: u16, block_length: u16, qty_exponent: i8) -> (r: Result<
        Self,
        DecodeError,
    >)
        ensures
            r is Ok <==> block_length >= 16,
            r is Ok ==> r->Ok_0.bytes() == data@ && r->Ok_0.spec_count() == count
                && r->Ok_0.spec_block_length() == block_length && r->Ok_0.spec_qty_exponent()
                == qty_exponent && r->Ok_0.wf(),
            r is Err ==> r->Err_0.kind == DecodeErrorKind::BadGroup,
    {
        if block_length < 16 {
            return Err(DecodeError {
                kind: DecodeErrorKind::BadGroup,
                needed: 16,
                have: block_length as usize,
            });
        }
        Ok(Self { data, count, block_length, qty_exponent })
    }

    /// The declared count is a 16-bit value.
    pub proof fn lemma_count_range(&self)
        ensures
            0 <= self.spec_count() <= u16::MAX,
    {
    }

    /// The declared number of levels.
    pub fn count(&self) -> (r: u16)
        ensures
            r == self.spec_count(),
    {
        self.count
    }

    /// The declared quantity exponent.
    pub fn qty_exponent(&self) -> (r: i8)
        ensures
            r == self.spec_qty_exponent(),
    {
        self.qty_exponent
    }

    /// Sums the quantity mantissas of the first five levels, the first ten,
    /// and the whole side, reading directly from the raw bytes.
    pub fn sum_qtys_top5_top10_all(&self) -> (r: Result<DepthSums, DecodeError>)
        requires
            self.wf(),
        ensures
            r is Ok <==> (self.spec_count() == 0 || (self.spec_count() - 1)
                * self.spec_block_length() + 16 <= self.bytes().len()),
            r is Ok ==> r->Ok_0.top5 == sum_qty_prefix(self.levels(), 5) && r->Ok_0.top10
                == sum_qty_prefix(self.levels(), 10) && r->Ok_0.all == sum_qty_prefix(
                self.levels(),
                self.spec_count(),
            ) && r->Ok_0 == self.sums_spec(),
            r is Err ==> r->Err_0.kind == DecodeErrorKind::ShortFrame,
    {
        let ghost lvls = self.levels();
        let n: usize = self.count as usize;
        let bl: usize = self.block_length as usize;
        let data_len: usize = self.data.len();
        let mut top_5_sum: i128 = 0;
        let mut top_10_sum: i128 = 0;
        let mut all_sum: i128 = 0;
        let mut i: usize = 0;
        while i < n
            invariant
                self.wf(),
                n == self.spec_count(),
                bl == self.spec_block_length(),
                data_len == self.bytes().len(),
                lvls == self.levels(),
                lvls.len() == n,
                0 <= i <= n,
                i > 0 ==> (i - 1) * bl + 16 <= data_len,
                top_5_sum == sum_qty_prefix(lvls, if i < 5 { i as int } else { 5 }),
                top_10_sum == sum_qty_prefix(lvls, if i < 10 { i as int } else { 10 }),
                all_sum == sum_qty_prefix(lvls, i as int),
            decreases n - i,
        {
            proof {
                assert((i as int) * bl < 0x100000000int) by (nonlinear_arith)
                    requires
                        0 <= i < 0x10000,
                        0 <= bl < 0x10000,
                ;
            }
            let offset64: u64 = (i as u64) * (bl as u64);
            if offset64 + 16 > (data_len as u64) {
                proof {
                    assert((i as int) * bl <= (n - 1) * bl) by (nonlinear_arith)
                        requires
                            0 <= i <= n - 1,
                            bl >= 0,
                    ;
                }
                return Err(DecodeError {
                    kind: DecodeErrorKind::ShortFrame,
                    needed: #[verifier::truncate] ((offset64 + 16) as usize),
                    have: data_len,
                });
            }
            let qty_offset: usize = (offset64 as usize) + 8;
            let tail = slice_subrange(self.data, qty_offset, data_len);
            let qty = match read_i64_le_from(tail) {
                Ok(v) => v,
                Err(e) => { return Err(e) },
            };
            proof {
                assert(tail@.subrange(0, 8) =~= self.bytes().subrange(
                    i * bl + 8,
                    i * bl + 16,
                ));
                assert(qty == lvls[i as int].qty_mantissa);
                lemma_sum_bound(lvls, 5);
                lemma_sum_bound(lvls, 10);
                lemma_sum_bound(lvls, i as int);
                if (i as int) < 5 {
                    lemma_sum_step(lvls, i as int);
                }
                if (i as int) < 10 {
                    lemma_sum_step(lvls, i as int);
                }
                lemma_sum_step(lvls, i as int);
            }
            if i < 5 {
                top_5_sum = top_5_sum + (qty as i128);
            }
            if i < 10 {
                top_10_sum = top_10_sum + (qty as i128);
            }
            all_sum = all_sum + (qty as i128);
            i += 1;
        }
        proof {
            if n < 5 {
                lemma_sum_saturates(lvls, 5);
            }
            if n < 10 {
                lemma_sum_saturates(lvls, 10);
            }
            lemma_sum_bound(lvls, 5);
            lemma_sum_bound(lvls, 10);
            lemma_sum_bound(lvls, n as int);
        }
        Ok(DepthSums { top5: top_5_sum, top10: top_10_sum, all: all_sum })
    }
}

/// A lazily decoded depth-snapshot body: scalars parsed, the two ladders
/// kept as borrowed group views.
pub struct DepthSnapshotView<'a> {
    pub event_time_micros: i64,
    pub book_update_id: i64,
    pub price_exponent: i8,
    pub qty_exponent: i8,
    pub bids: DepthLevels<'a>,
    pub asks: DepthLevels<'a>,
    pub symbol: &'a str,
}

impl<'a> DepthSnapshotView<'a> {
    /// Decodes a depth-snapshot body without materialising the levels. The
    /// group member bytes are carved out of the frame, and the view denotes
    /// exactly the levels the eager parse of the same bytes yields: the lazy
    /// quantity sums therefore equal the eager parse-then-sum.
    pub fn decode(data: &'a [u8]) -> (r: Result<Self, DecodeError>)
        ensures
            r is Ok <==> parse_depth_body(data@) is Ok,
            r is Ok ==> {
                let v = r->Ok_0;
                let p = parse_depth_body(data@)->Ok_0;
                &&& v.bids.wf()
                &&& v.asks.wf()
                &&& v.event_time_micros == p.event_time_micros
                &&& v.book_update_id == p.book_update_id
                &&& v.price_exponent == p.price_exponent
                &&& v.qty_exponent == p.qty_exponent
                &&& v.qty_exponent == v.bids.spec_qty_exponent()
                &&& v.qty_exponent == v.asks.spec_qty_exponent()
                &&& v.bids.levels() == p.bids
                &&& v.asks.levels() == p.asks
                &&& v.bids.spec_count() == p.bids.len()
                &&& v.asks.spec_count() == p.asks.len()
                &&& v.symbol@ == p.symbol
                &&& (v.bids.spec_count() == 0 || (v.bids.spec_count() - 1)
                    * v.bids.spec_block_length() + 16 <= v.bids.bytes().len())
                &&& (v.asks.spec_count() == 0 || (v.asks.spec_count() - 1)
                    * v.asks.spec_block_length() + 16 <= v.asks.bytes().len())
            },
            r is Err ==> r->Err_0.kind == parse_depth_body(data@)->Err_0,
    {
        let mut cursor = SbeCursor::new(data);
        let event_time_micros = match cursor.read_i64_le() {
            Ok(v) => v,
            Err(e) => { return Err(e) },
        };
        let book_update_id = match cursor.read_i64_le() {
            Ok(v) => v,
            Err(e) => { return Err(e) },
        };
        let price_exponent = match cursor.read_i8() {
            Ok(v) => v,
            Err(e) => { return Err(e) },
        };
        let qty_exponent = match cursor.read_i8() {
            Ok(v) => v,
            Err(e) => { return Err(e) },
        };

        let (bids_bl, bids_n) = match read_group_size16(&mut cursor) {
            Ok(v) => v,
            Err(e) => { return Err(e) },
        };
        if bids_bl < 16 {
            return Err(DecodeError {
                kind: DecodeErrorKind::BadGroup,
                needed: 16,
                have: bids_bl as usize,
            });
        }
        proof {
            assert((bids_n as int) * (bids_bl as int) < 0x100000000int) by (nonlinear_arith)
                requires
                    bids_n <= u16::MAX,
                    bids_bl <= u16::MAX,
            ;
        }
        let bids_bytes64: u64 = (bids_n as u64) * (bids_bl as u64);
        if (cursor.remaining() as u64) < bids_bytes64 {
            return Err(DecodeError {
                kind: DecodeErrorKind::ShortFrame,
                needed: #[verifier::truncate] (bids_bytes64 as usize),
                have: cursor.remaining(),
            });
        }
        let ghost bids_start = cursor.cur();
        let bids_data = match cursor.read_bytes(bids_bytes64 as usize) {
            Ok(v) => v,
            Err(e) => { return Err(e) },
        };
        let bids = match DepthLevels::new(bids_data, bids_n, bids_bl, qty_exponent) {
            Ok(v) => v,
            Err(e) => { return Err(e) },
        };
        proof {
            lemma_levels_of_subrange(data@, bids_start, bids_bl as int, bids_n as int);
            if bids_n > 0 {
                assert((bids_n - 1) * (bids_bl as int) + 16 <= (bids_n as int) * (
                bids_bl as int)) by (nonlinear_arith)
                    requires
                        bids_n >= 1,
                        bids_bl >= 16,
                ;
            }
        }

        let (asks_bl, asks_n) = match read_group_size16(&mut cursor) {
            Ok(v) => v,
            Err(e) => { return Err(e) },
        };
        if asks_bl < 16 {
            return Err(DecodeError {
                kind: DecodeErrorKind::BadGroup,
                needed: 16,
                have: asks_bl as usize,
            });
        }
        proof {
            assert((asks_n as int) * (asks_bl as int) < 0x100000000int) by (nonlinear_arith)
                requires
                    asks_n <= u16::MAX,
                    asks_bl <= u16::MAX,
            ;
        }
        let asks_bytes64: u64 = (asks_n as u64) * (asks_bl as u64);
        if (cursor.remaining() as u64) < asks_bytes64 {
            return Err(DecodeError {
                kind: DecodeErrorKind::ShortFrame,
                needed: #[verifier::truncate] (asks_bytes64 as usize),
                have: cursor.remaining(),
            });
        }
        let ghost asks_start = cursor.cur();
        let asks_data = match cursor.read_bytes(asks_bytes64 as usize) {
            Ok(v) => v,
            Err(e) => { return Err(e) },
        };
        let asks = match DepthLevels::new(asks_data, asks_n, asks_bl, qty_exponent) {
            Ok(v) => v,
            Err(e) => { return Err(e) },
        };
        proof {
            lemma_levels_of_subrange(data@, asks_start, asks_bl as int, asks_n as int);
            if asks_n > 0 {
                assert((asks_n - 1) * (asks_bl as int) + 16 <= (asks_n as int) * (
                asks_bl as int)) by (nonlinear_arith)
                    requires
                        asks_n >= 1,
                        asks_bl >= 16,
                ;
            }
        }

        let symbol = match cursor.read_var_string8() {
            Ok(v) => v,
            Err(e) => { return Err(e) },
        };

        Ok(
            DepthSnapshotView {
                event_time_micros,
                book_update_id,
                price_exponent,
                qty_exponent,
                bids,
                asks,
                symbol,
            },
        )
    }
}

} // verus!
