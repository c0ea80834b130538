//! The depth-imbalance signal: three bid/ask quantity ratios computed over a
//! depth snapshot, compared in exact integer arithmetic.

use vstd::prelude::*;

use crate::errors::{DecodeError, DecodeErrorKind};
use crate::sbe::depth::{lemma_sum_bound, DepthSnapshotView, DepthSums};

verus! {

/// The magnitude every group quantity sum stays within: at most 65535
/// levels of signed 64-bit mantissas.
pub open spec fn sums_bounded(s: DepthSums) -> bool {
    &&& -0x8000_0000_0000_0000_0000i128 <= s.top5 <= 0x8000_0000_0000_0000_0000i128
    &&& -0x8000_0000_0000_0000_0000i128 <= s.top10 <= 0x8000_0000_0000_0000_0000i128
    &&& -0x8000_0000_0000_0000_0000i128 <= s.all <= 0x8000_0000_0000_0000_0000i128
}

/// The bid/ask quantity ratio exceeds one hundred.
pub open spec fn ratio_above(bids: int, asks: int) -> bool {
    bids > 100 * asks
}

/// The bid/ask quantity ratio falls below one hundredth.
pub open spec fn ratio_below(bids: int, asks: int) -> bool {
    100 * bids < asks
}

/// When the signal fires: the top-five ask sum is positive, and any of the
/// three ratios is above one hundred or below one hundredth.
pub open spec fn alert_fires(bids: DepthSums, asks: DepthSums) -> bool {
    &&& asks.top5 > 0
    &&& (ratio_above(bids.top5 as int, asks.top5 as int) || ratio_above(
        bids.top10 as int,
        asks.top10 as int,
    ) || ratio_above(bids.all as int, asks.all as int) || ratio_below(
        bids.top5 as int,
        asks.top5 as int,
    ) || ratio_below(bids.top10 as int, asks.top10 as int) || ratio_below(
        bids.all as int,
        asks.all as int,
    ))
}

/// An imbalance alert: when the message arrived and when the signal was
/// detected, the symbol, and the six quantity sums the ratios came from, as
/// mantissas scaled by the quantity exponent.
#[derive(Debug, Clone)]
pub struct ImbalanceAlert {
    pub message_received_micros: i64,
    pub detected_epoch_millis: i64,
    pub symbol: String,
    pub bids: DepthSums,
    pub asks: DepthSums,
    pub qty_exponent: i8,
}

/// Decides the signal from the two sides' quantity sums.
pub fn evaluate_imbalance(bids: &DepthSums, asks: &DepthSums) -> (r: bool)
    requires
        sums_bounded(*bids),
        sums_bounded(*asks),
    ensures
        r == alert_fires(*bids, *asks),
        asks.top5 <= 0 ==> !r,
{
    if asks.top5 <= 0 {
        return false;
    }
    (bids.top5 > 100 * asks.top5) || (bids.top10 > 100 * asks.top10) || (bids.all > 100 * asks.all)
        || (100 * bids.top5 < asks.top5) || (100 * bids.top10 < asks.top10) || (100 * bids.all
        < asks.all)
}

/// Evaluates the signal over a lazily decoded depth snapshot. No alert is
/// produced when the top-five ask sum is not positive; a truncated group is
/// an error.
pub fn detect_imbalance(
    view: &DepthSnapshotView<'_>,
    symbol: String,
    message_received_micros: i64,
    detected_epoch_millis: i64,
) -> (r: Result<Option<ImbalanceAlert>, DecodeError>)
    requires
        view.bids.wf(),
        view.asks.wf(),
    ensures
        r is Ok <==> (view.bids.spec_count() == 0 || (view.bids.spec_count() - 1)
            * view.bids.spec_block_length() + 16 <= view.bids.bytes().len()) && (
        view.asks.spec_count() == 0 || (view.asks.spec_count() - 1)
            * view.asks.spec_block_length() + 16 <= view.asks.bytes().len()),
        r is Err ==> r->Err_0.kind == DecodeErrorKind::ShortFrame,
        r is Ok ==> {
            let bids_sums = view.bids.sums_spec();
            let asks_sums = view.asks.sums_spec();
            &&& (r->Ok_0 is Some <==> alert_fires(bids_sums, asks_sums))
            &&& (asks_sums.top5 <= 0 ==> r->Ok_0 is None)
            &&& (r->Ok_0 is Some ==> {
                let a = r->Ok_0.unwrap();
                &&& a.symbol@ == symbol@
                &&& a.message_received_micros == message_received_micros
                &&& a.detected_epoch_millis == detected_epoch_millis
                &&& a.bids == bids_sums
                &&& a.asks == asks_sums
                &&& a.qty_exponent == view.qty_exponent
            })
        },
{
    let bids_sums = match view.bids.sum_qtys_top5_top10_all() {
        Ok(v) => v,
        Err(e) => { return Err(e) },
    };
    let asks_sums = match view.asks.sum_qtys_top5_top10_all() {
        Ok(v) => v,
        Err(e) => { return Err(e) },
    };
    proof {
        view.bids.lemma_count_range();
        view.asks.lemma_count_range();
        lemma_sum_bound(view.bids.levels(), 5);
        lemma_sum_bound(view.bids.levels(), 10);
        lemma_sum_bound(view.bids.levels(), view.bids.spec_count());
        lemma_sum_bound(view.asks.levels(), 5);
        lemma_sum_bound(view.asks.levels(), 10);
        lemma_sum_bound(view.asks.levels(), view.asks.spec_count());
    }
    if evaluate_imbalance(&bids_sums, &asks_sums) {
        Ok(
            Some(
                ImbalanceAlert {
                    message_received_micros,
                    detected_epoch_millis,
                    symbol,
                    bids: bids_sums,
                    asks: asks_sums,
                    qty_exponent: view.qty_exponent,
                },
            ),
        )
    } else {
        Ok(None)
    }
}

} // verus!
