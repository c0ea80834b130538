//! The market lifecycle controller: tracks the single current market of a
//! series, books subscription ids per channel, and decides when to roll to
//! the successor market.

use vstd::prelude::*;

use crate::strings::str_eq;
use super::models::{
    spec_event_status, KalshiMarket, KalshiMarketLifecycleMsg, KalshiMarketStatus, MarketsResponse,
};

verus! {

/// The subscription ids recorded for one channel.
#[derive(Debug, Clone)]
pub struct ChannelSids {
    pub channel: String,
    pub sids: Vec<u64>,
}

/// The controller's state: the series being tracked, the current market of
/// that series, and the per-channel subscription ids.
#[derive(Debug)]
pub struct LifecycleState {
    pub series_ticker: String,
    pub current_market: Option<String>,
    pub subscriptions: Vec<ChannelSids>,
}

/// What the controller decided about a lifecycle notice.
#[derive(Debug, Clone, Copy, PartialEq, Eq, Structural)]
pub enum LifecycleAction {
    /// Not the current market, or not a closing transition.
    Ignore,
    /// The current market closed or settled: unsubscribe, fetch the next
    /// market, subscribe again.
    Rollover,
}

/// Whether a lifecycle event closes the market it names.
pub open spec fn spec_is_closing(msg: KalshiMarketLifecycleMsg) -> bool {
    spec_event_status(msg.event_type, msg.is_deactivated) == Some(KalshiMarketStatus::Closed)
        || spec_event_status(msg.event_type, msg.is_deactivated) == Some(
        KalshiMarketStatus::Settled,
    )
}

/// All recorded subscription ids, flattened in channel order.
pub open spec fn flat_sids(subs: Seq<ChannelSids>) -> Seq<u64>
    decreases subs.len(),
{
    if subs.len() == 0 {
        Seq::empty()
    } else {
        flat_sids(subs.drop_last()) + subs.last().sids@
    }
}

impl LifecycleState {
    pub fn new(series_ticker: String) -> (r: Self)
        ensures
            r.series_ticker@ == series_ticker@,
            r.current_market is None,
            r.subscriptions@.len() == 0,
    {
        LifecycleState { series_ticker, current_market: None, subscriptions: Vec::new() }
    }

    /// Makes `ticker` the current market.
    pub fn set_current_market(&mut self, ticker: String)
        ensures
            final(self).current_market is Some,
            final(self).current_market.unwrap()@ == ticker@,
            final(self).series_ticker == old(self).series_ticker,
            final(self).subscriptions == old(self).subscriptions,
    {
        self.current_market = Some(ticker);
    }

    /// Books one confirmed subscription id under its channel: the sid is
    /// appended to an entry of that channel and every other entry is left
    /// untouched, or a fresh entry for the channel is appended when none
    /// exists.
    pub fn record_subscription(&mut self, channel: &str, sid: u64)
        ensures
            final(self).series_ticker == old(self).series_ticker,
            final(self).current_market == old(self).current_market,
            ({
                let pre = old(self).subscriptions@;
                let post = final(self).subscriptions@;
                if exists|i: int| 0 <= i < pre.len() && (#[trigger] pre[i]).channel@ == channel@ {
                    exists|i: int|
                        0 <= i < pre.len() && (#[trigger] pre[i]).channel@ == channel@
                            && post.len() == pre.len() && post[i].channel == pre[i].channel
                            && post[i].sids@ == pre[i].sids@.push(sid) && (forall|j: int|
                            0 <= j < pre.len() && j != i ==> post[j] == pre[j])
                } else {
                    &&& post.len() == pre.len() + 1
                    &&& (forall|j: int| 0 <= j < pre.len() ==> #[trigger] post[j] == pre[j])
                    &&& post.last().channel@ == channel@
                    &&& post.last().sids@ == seq![sid]
                }
            }),
    {
        let n: usize = self.subscriptions.len();
        let mut i: usize = 0;
        while i < n
            invariant
                n == self.subscriptions@.len(),
                0 <= i <= n,
                self.subscriptions == old(self).subscriptions,
                self.series_ticker == old(self).series_ticker,
                self.current_market == old(self).current_market,
                forall|j: int|
                    0 <= j < i ==> (#[trigger] old(self).subscriptions@[j]).channel@ != channel@,
            decreases n - i,
        {
            if str_eq(self.subscriptions[i].channel.as_str(), channel) {
                let ghost before = self.subscriptions@;
                let mut entry = self.subscriptions.remove(i);
                entry.sids.push(sid);
                self.subscriptions.insert(i, entry);
                proof {
                    assert(self.subscriptions@ =~= before.update(i as int, entry));
                    assert(self.subscriptions@[i as int].sids@ == before[i as int].sids@.push(
                        sid,
                    ));
                }
                return ;
            }
            i += 1;
        }
        let mut sids: Vec<u64> = Vec::new();
        sids.push(sid);
        let entry = ChannelSids { channel: channel.to_owned(), sids };
        let ghost before = self.subscriptions@;
        self.subscriptions.push(entry);
        proof {
            assert(entry.sids@ =~= seq![sid]);
            assert(self.subscriptions@.last() == entry);
        }
    }

    /// Collects every recorded subscription id, for an unsubscription by
    /// sids.
    pub fn all_sids(&self) -> (r: Vec<u64>)
        ensures
            r@ == flat_sids(self.subscriptions@),
    {
        let mut out: Vec<u64> = Vec::new();
        let n: usize = self.subscriptions.len();
        let mut i: usize = 0;
        while i < n
            invariant
                n == self.subscriptions@.len(),
                0 <= i <= n,
                out@ == flat_sids(self.subscriptions@.take(i as int)),
            decreases n - i,
        {
            let mut j: usize = 0;
            let m: usize = self.subscriptions[i].sids.len();
            while j < m
                invariant
                    n == self.subscriptions@.len(),
                    0 <= i < n,
                    m == self.subscriptions@[i as int].sids@.len(),
                    0 <= j <= m,
                    out@ == flat_sids(self.subscriptions@.take(i as int)) + self.subscriptions@[
                        i as int].sids@.take(j as int),
                decreases m - j,
            {
                out.push(self.subscriptions[i].sids[j]);
                j += 1;
                proof {
                    assert(out@ =~= flat_sids(self.subscriptions@.take(i as int))
                        + self.subscriptions@[i as int].sids@.take(j as int));
                }
            }
            i += 1;
            proof {
                let taken = self.subscriptions@.take(i as int);
                assert(taken.drop_last() =~= self.subscriptions@.take(i - 1));
                assert(taken.last() == self.subscriptions@[i - 1]);
                assert(self.subscriptions@[i - 1].sids@.take(m as int) =~= self.subscriptions@[i
                    - 1].sids@);
            }
        }
        proof {
            assert(self.subscriptions@.take(n as int) =~= self.subscriptions@);
        }
        out
    }

    /// Forgets all recorded subscription ids.
    pub fn clear_subscriptions(&mut self)
        ensures
            final(self).subscriptions@.len() == 0,
            final(self).series_ticker == old(self).series_ticker,
            final(self).current_market == old(self).current_market,
    {
        self.subscriptions = Vec::new();
    }

    /// Decides what a lifecycle notice requires: a rollover exactly when it
    /// closes or settles the current market.
    pub fn handle_lifecycle(&self, msg: &KalshiMarketLifecycleMsg) -> (r: LifecycleAction)
        ensures
            r == LifecycleAction::Rollover <==> (self.current_market is Some
                && self.current_market.unwrap()@ == msg.market_ticker@ && spec_is_closing(*msg)),
    {
        let current = match &self.current_market {
            Some(c) => c,
            None => { return LifecycleAction::Ignore },
        };
        if !str_eq(current.as_str(), msg.market_ticker.as_str()) {
            return LifecycleAction::Ignore;
        }
        match msg.event_type.to_status(msg.is_deactivated) {
            Some(status) => {
                if status == KalshiMarketStatus::Closed || status == KalshiMarketStatus::Settled {
                    LifecycleAction::Rollover
                } else {
                    LifecycleAction::Ignore
                }
            },
            None => LifecycleAction::Ignore,
        }
    }
}

/// One step of the paginated market listing: the page's markets are
/// appended to the accumulator, and the listing continues exactly while the
/// page carries a non-empty cursor, which is handed back.
pub fn accumulate_page(all: &mut Vec<KalshiMarket>, page: MarketsResponse) -> (r: Option<String>)
    ensures
        final(all)@ == old(all)@ + page.markets@,
        r is Some <==> (page.cursor is Some && page.cursor.unwrap()@.len() > 0),
        r is Some ==> r.unwrap()@ == page.cursor.unwrap()@,
{
    let mut markets = page.markets;
    all.append(&mut markets);
    match page.cursor {
        Some(c) => {
            if c.as_str().is_empty() {
                None
            } else {
                Some(c)
            }
        },
        None => None,
    }
}

/// The market the bootstrap listing selects: the first, when any is open.
pub fn select_next_market(markets: &Vec<KalshiMarket>) -> (r: Option<&KalshiMarket>)
    ensures
        r is Some <==> markets@.len() > 0,
        r is Some ==> *r.unwrap() == markets@[0],
{
    if markets.len() > 0 {
        Some(&markets[0])
    } else {
        None
    }
}

} // verus!
