//! Prediction-market order books: bid sides held as sorted unique positive
//! levels, ask sides derived from the opposing best bid.

use vstd::prelude::*;

verus! {

/// One dollar, in the fixed-point micro-dollar price unit.
pub const MICRO_ONE: u64 = 1_000_000;

/// One price level of an order book: a fixed-point dollar price (in
/// micro-dollars, so one dollar is 1_000_000) and a signed contract quantity.
#[derive(Debug, Clone, Copy, PartialEq, Eq, Structural)]
pub struct OrderbookLevel {
    pub price_micros: u64,
    pub quantity: i64,
}

/// Strictly descending prices: the best bid first, no duplicates.
pub open spec fn sorted_desc(s: Seq<OrderbookLevel>) -> bool {
    forall|i: int, j: int|
        0 <= i < j < s.len() ==> #[trigger] s[i].price_micros > #[trigger] s[j].price_micros
}

/// A well-formed bid side: strictly descending, every quantity positive,
/// every price at most one dollar.
pub open spec fn wf_side(s: Seq<OrderbookLevel>) -> bool {
    &&& sorted_desc(s)
    &&& forall|i: int| 0 <= i < s.len() ==> #[trigger] s[i].quantity > 0
    &&& forall|i: int| 0 <= i < s.len() ==> #[trigger] s[i].price_micros <= MICRO_ONE
}

/// The total quantity resting at price `p` (zero when no level is there).
pub open spec fn side_qty(s: Seq<OrderbookLevel>, p: u64) -> int
    decreases s.len(),
{
    if s.len() == 0 {
        0
    } else {
        (if s[0].price_micros == p {
            s[0].quantity as int
        } else {
            0int
        }) + side_qty(s.drop_first(), p)
    }
}

/// A side with no level at `p` rests nothing at `p`.
pub proof fn lemma_side_qty_absent(s: Seq<OrderbookLevel>, p: u64)
    requires
        forall|j: int| 0 <= j < s.len() ==> #[trigger] s[j].price_micros != p,
    ensures
        side_qty(s, p) == 0,
    decreases s.len(),
{
    if s.len() > 0 {
        assert forall|j: int| 0 <= j < s.drop_first().len() implies #[trigger] s.drop_first()[j].price_micros
            != p by {
            assert(s.drop_first()[j] == s[j + 1]);
        }
        lemma_side_qty_absent(s.drop_first(), p);
    }
}

/// Inserting a level adds its quantity at its price and nothing elsewhere.
pub proof fn lemma_side_qty_insert(s: Seq<OrderbookLevel>, i: int, l: OrderbookLevel, p: u64)
    requires
        0 <= i <= s.len(),
    ensures
        side_qty(s.insert(i, l), p) == side_qty(s, p) + (if l.price_micros == p {
            l.quantity as int
        } else {
            0int
        }),
    decreases i,
{
    let ins = s.insert(i, l);
    if i == 0 {
        assert(ins[0] == l);
        assert(ins.drop_first() =~= s);
    } else {
        assert(ins[0] == s[0]);
        assert(ins.drop_first() =~= s.drop_first().insert(i - 1, l));
        lemma_side_qty_insert(s.drop_first(), i - 1, l, p);
    }
}

/// Removing a level subtracts its quantity at its price and nothing
/// elsewhere.
pub proof fn lemma_side_qty_remove(s: Seq<OrderbookLevel>, i: int, p: u64)
    requires
        0 <= i < s.len(),
    ensures
        side_qty(s.remove(i), p) == side_qty(s, p) - (if s[i].price_micros == p {
            s[i].quantity as int
        } else {
            0int
        }),
    decreases i,
{
    let rem = s.remove(i);
    if i == 0 {
        assert(rem =~= s.drop_first());
    } else {
        assert(rem[0] == s[0]);
        assert(rem.drop_first() =~= s.drop_first().remove(i - 1));
        lemma_side_qty_remove(s.drop_first(), i - 1, p);
    }
}

/// On a side with unique prices, the level at `p` carries the whole resting
/// quantity at `p`.
pub proof fn lemma_side_qty_unique(s: Seq<OrderbookLevel>, i: int, p: u64)
    requires
        0 <= i < s.len(),
        s[i].price_micros == p,
        forall|j: int| 0 <= j < s.len() && j != i ==> #[trigger] s[j].price_micros != p,
    ensures
        side_qty(s, p) == s[i].quantity,
{
    lemma_side_qty_remove(s, i, p);
    let rem = s.remove(i);
    assert forall|j: int| 0 <= j < rem.len() implies #[trigger] rem[j].price_micros != p by {
        if j < i {
            assert(rem[j] == s[j]);
        } else {
            assert(rem[j] == s[j + 1]);
        }
    }
    lemma_side_qty_absent(rem, p);
}

/// Adding `d` to a quantity, clamped to the signed 64-bit range.
pub open spec fn sat_add_i64(q: int, d: int) -> int {
    if q + d > i64::MAX {
        i64::MAX as int
    } else if q + d < i64::MIN {
        i64::MIN as int
    } else {
        q + d
    }
}

/// What one delta leaves resting at its price: an absent level appears only
/// for a positive delta, and a level driven to zero or below disappears.
pub open spec fn spec_new_qty(q: int, d: int) -> int {
    if q == 0 {
        if d > 0 {
            d
        } else {
            0
        }
    } else {
        let s = sat_add_i64(q, d);
        if s <= 0 {
            0
        } else {
            s
        }
    }
}

/// Applies one signed delta to a bid side at one price: quantities
/// accumulate at an existing level, a level driven to zero or below is
/// removed, and a positive delta at a new price inserts a level in order.
pub fn apply_side_delta(levels: &mut Vec<OrderbookLevel>, price: u64, delta: i64)
    requires
        wf_side(old(levels)@),
        price <= MICRO_ONE,
    ensures
        wf_side(final(levels)@),
        side_qty(final(levels)@, price) == spec_new_qty(
            side_qty(old(levels)@, price),
            delta as int,
        ),
        forall|q: u64| q != price ==> side_qty(final(levels)@, q) == side_qty(old(levels)@, q),
{
    let ghost s0 = levels@;
    let n: usize = levels.len();
    let mut i: usize = 0;
    while i < n && levels[i].price_micros > price
        invariant
            n == levels@.len(),
            levels@ == s0,
            0 <= i <= n,
            forall|j: int| 0 <= j < i ==> #[trigger] s0[j].price_micros > price,
        decreases n - i,
    {
        i += 1;
    }
    if i < n && levels[i].price_micros == price {
        proof {
            assert forall|j: int| 0 <= j < s0.len() && j != i implies #[trigger] s0[j].price_micros
                != price by {
                if j > i {
                    assert(s0[i as int].price_micros > s0[j].price_micros);
                }
            }
            lemma_side_qty_unique(s0, i as int, price);
        }
        let new_qty: i64 = match levels[i].quantity.checked_add(delta) {
            Some(v) => v,
            None => {
                if delta > 0 {
                    i64::MAX
                } else {
                    i64::MIN
                }
            },
        };
        if new_qty <= 0 {
            levels.remove(i);
            proof {
                let s1 = levels@;
                assert(s1 == s0.remove(i as int));
                assert forall|q: u64| true implies side_qty(s1, q) == side_qty(s0, q) - (
                if s0[i as int].price_micros == q {
                    s0[i as int].quantity as int
                } else {
                    0int
                }) by {
                    lemma_side_qty_remove(s0, i as int, q);
                }
                assert forall|a: int, b: int|
                    0 <= a < b < s1.len() implies #[trigger] s1[a].price_micros
                    > #[trigger] s1[b].price_micros by {
                    let a0 = if a < i {
                        a
                    } else {
                        a + 1
                    };
                    let b0 = if b < i {
                        b
                    } else {
                        b + 1
                    };
                    assert(s1[a] == s0[a0]);
                    assert(s1[b] == s0[b0]);
                }
            }
        } else {
            let lv = OrderbookLevel { price_micros: price, quantity: new_qty };
            levels.remove(i);
            levels.insert(i, lv);
            proof {
                let s1 = levels@;
                assert(s1 == s0.remove(i as int).insert(i as int, lv));
                assert(s1 =~= s0.update(i as int, lv));
                assert forall|q: u64| true implies side_qty(s1, q) == side_qty(s0, q) - (
                if s0[i as int].price_micros == q {
                    s0[i as int].quantity as int
                } else {
                    0int
                }) + (if lv.price_micros == q {
                    lv.quantity as int
                } else {
                    0int
                }) by {
                    lemma_side_qty_remove(s0, i as int, q);
                    lemma_side_qty_insert(s0.remove(i as int), i as int, lv, q);
                }
                assert forall|a: int, b: int|
                    0 <= a < b < s1.len() implies #[trigger] s1[a].price_micros
                    > #[trigger] s1[b].price_micros by {
                    assert(s1[a] == if a == i {
                        lv
                    } else {
                        s0[a]
                    });
                    assert(s1[b] == if b == i {
                        lv
                    } else {
                        s0[b]
                    });
                }
            }
        }
    } else {
        proof {
            assert forall|j: int| 0 <= j < s0.len() implies #[trigger] s0[j].price_micros
                != price by {
                if j >= i {
                    if j > i {
                        assert(s0[i as int].price_micros > s0[j].price_micros);
                    }
                }
            }
            lemma_side_qty_absent(s0, price);
        }
        if delta > 0 {
            let lv = OrderbookLevel { price_micros: price, quantity: delta };
            levels.insert(i, lv);
            proof {
                let s1 = levels@;
                assert(s1 == s0.insert(i as int, lv));
                assert forall|q: u64| true implies side_qty(s1, q) == side_qty(s0, q) + (
                if lv.price_micros == q {
                    lv.quantity as int
                } else {
                    0int
                }) by {
                    lemma_side_qty_insert(s0, i as int, lv, q);
                }
                assert forall|a: int, b: int|
                    0 <= a < b < s1.len() implies #[trigger] s1[a].price_micros
                    > #[trigger] s1[b].price_micros by {
                    if a < i {
                        assert(s1[a] == s0[a]);
                    }
                    if a == i {
                        assert(s1[a] == lv);
                    }
                    if a > i {
                        assert(s1[a] == s0[a - 1]);
                    }
                    if b < i {
                        assert(s1[b] == s0[b]);
                    }
                    if b == i {
                        assert(s1[b] == lv);
                    }
                    if b > i {
                        assert(s1[b] == s0[b - 1]);
                        if b - 1 > i {
                            assert(s0[i as int].price_micros > s0[b - 1].price_micros);
                        }
                    }
                }
            }
        }
    }
}

/// Which side of a binary market a bid belongs to.
#[derive(Debug, Clone, Copy, PartialEq, Eq, Structural)]
pub enum BookSide {
    Yes,
    No,
}

/// The derived-ask contract: the ask side holds exactly one level, the
/// complement of the opposing best bid at its quantity, and is empty exactly
/// when the opposing bid side is.
pub open spec fn derived_ok(bids: Seq<OrderbookLevel>, asks: Seq<OrderbookLevel>) -> bool {
    if bids.len() == 0 {
        asks.len() == 0
    } else {
        &&& asks.len() == 1
        &&& asks[0].price_micros == MICRO_ONE - bids[0].price_micros
        &&& asks[0].quantity == bids[0].quantity
    }
}

/// An order book for one prediction market: authoritative bid sides and
/// derived ask sides.
#[derive(Debug, Clone)]
pub struct KalshiOrderbook {
    pub market_ticker: String,
    pub yes_bids: Vec<OrderbookLevel>,
    pub yes_asks: Vec<OrderbookLevel>,
    pub no_bids: Vec<OrderbookLevel>,
    pub no_asks: Vec<OrderbookLevel>,
}

/// Best bid and derived best ask of each side, as fixed-point prices.
#[derive(Debug, Clone, Copy, PartialEq, Eq, Structural)]
pub struct TopOfBook {
    pub yes_bid: Option<u64>,
    pub yes_ask: Option<u64>,
    pub no_bid: Option<u64>,
    pub no_ask: Option<u64>,
}

impl KalshiOrderbook {
    /// Both bid sides well formed and both ask sides derived from them.
    pub open spec fn wf(&self) -> bool {
        &&& wf_side(self.yes_bids@)
        &&& wf_side(self.no_bids@)
        &&& derived_ok(self.no_bids@, self.yes_asks@)
        &&& derived_ok(self.yes_bids@, self.no_asks@)
    }

    /// An empty book for a market.
    pub fn new_empty(market_ticker: String) -> (r: Self)
        ensures
            r.wf(),
            r.market_ticker@ == market_ticker@,
            r.yes_bids@.len() == 0,
            r.no_bids@.len() == 0,
    {
        KalshiOrderbook {
            market_ticker,
            yes_bids: Vec::new(),
            yes_asks: Vec::new(),
            no_bids: Vec::new(),
            no_asks: Vec::new(),
        }
    }

    /// Recomputes both derived ask sides from the current bid sides.
    pub fn recompute_derived_asks(&mut self)
        requires
            wf_side(old(self).yes_bids@),
            wf_side(old(self).no_bids@),
        ensures
            final(self).wf(),
            final(self).yes_bids == old(self).yes_bids,
            final(self).no_bids == old(self).no_bids,
            final(self).market_ticker == old(self).market_ticker,
    {
        self.yes_asks = Vec::new();
        self.no_asks = Vec::new();
        if self.no_bids.len() > 0 {
            let best = self.no_bids[0];
            self.yes_asks.push(
                OrderbookLevel {
                    price_micros: MICRO_ONE - best.price_micros,
                    quantity: best.quantity,
                },
            );
        }
        if self.yes_bids.len() > 0 {
            let best = self.yes_bids[0];
            self.no_asks.push(
                OrderbookLevel {
                    price_micros: MICRO_ONE - best.price_micros,
                    quantity: best.quantity,
                },
            );
        }
    }

    /// Applies one signed delta to the named bid side, then refreshes the
    /// derived asks.
    pub fn apply_delta(&mut self, side: BookSide, price: u64, delta: i64)
        requires
            old(self).wf(),
            price <= MICRO_ONE,
        ensures
            final(self).wf(),
            final(self).market_ticker == old(self).market_ticker,
            side == BookSide::Yes ==> side_qty(final(self).yes_bids@, price) == spec_new_qty(
                side_qty(old(self).yes_bids@, price),
                delta as int,
            ) && final(self).no_bids == old(self).no_bids && (forall|q: u64|
                q != price ==> side_qty(final(self).yes_bids@, q) == side_qty(
                    old(self).yes_bids@,
                    q,
                )),
            side == BookSide::No ==> side_qty(final(self).no_bids@, price) == spec_new_qty(
                side_qty(old(self).no_bids@, price),
                delta as int,
            ) && final(self).yes_bids == old(self).yes_bids && (forall|q: u64|
                q != price ==> side_qty(final(self).no_bids@, q) == side_qty(
                    old(self).no_bids@,
                    q,
                )),
    {
        match side {
            BookSide::Yes => apply_side_delta(&mut self.yes_bids, price, delta),
            BookSide::No => apply_side_delta(&mut self.no_bids, price, delta),
        }
        self.recompute_derived_asks();
    }

    /// Replaces both bid sides with the aggregated snapshot levels, then
    /// refreshes the derived asks.
    pub fn apply_snapshot(&mut self, yes_levels: &Vec<OrderbookLevel>, no_levels: &Vec<
        OrderbookLevel,
    >)
        requires
            forall|i: int|
                0 <= i < yes_levels@.len() ==> #[trigger] yes_levels@[i].price_micros <= MICRO_ONE,
            forall|i: int|
                0 <= i < no_levels@.len() ==> #[trigger] no_levels@[i].price_micros <= MICRO_ONE,
        ensures
            final(self).wf(),
            final(self).market_ticker == old(self).market_ticker,
            forall|q: u64|
                side_qty(final(self).yes_bids@, q) == rebuild_qty(yes_levels@, q),
            forall|q: u64| side_qty(final(self).no_bids@, q) == rebuild_qty(no_levels@, q),
    {
        self.yes_bids = rebuild_side(yes_levels);
        self.no_bids = rebuild_side(no_levels);
        self.recompute_derived_asks();
    }

    /// The best bid of each side and the derived best asks.
    pub fn top_of_book(&self) -> (r: TopOfBook)
        ensures
            r.yes_bid is Some <==> self.yes_bids@.len() > 0,
            r.yes_bid is Some ==> r.yes_bid.unwrap() == self.yes_bids@[0].price_micros,
            r.no_bid is Some <==> self.no_bids@.len() > 0,
            r.no_bid is Some ==> r.no_bid.unwrap() == self.no_bids@[0].price_micros,
            r.yes_ask is Some <==> self.yes_asks@.len() > 0,
            r.yes_ask is Some ==> r.yes_ask.unwrap() == self.yes_asks@[0].price_micros,
            r.no_ask is Some <==> self.no_asks@.len() > 0,
            r.no_ask is Some ==> r.no_ask.unwrap() == self.no_asks@[0].price_micros,
    {
        TopOfBook {
            yes_bid: if self.yes_bids.len() > 0 {
                Some(self.yes_bids[0].price_micros)
            } else {
                None
            },
            yes_ask: if self.yes_asks.len() > 0 {
                Some(self.yes_asks[0].price_micros)
            } else {
                None
            },
            no_bid: if self.no_bids.len() > 0 {
                Some(self.no_bids[0].price_micros)
            } else {
                None
            },
            no_ask: if self.no_asks.len() > 0 {
                Some(self.no_asks[0].price_micros)
            } else {
                None
            },
        }
    }
}

/// What sequentially inserting the snapshot levels leaves resting at `p`.
pub open spec fn rebuild_qty(ls: Seq<OrderbookLevel>, p: u64) -> int
    decreases ls.len(),
{
    if ls.len() == 0 {
        0
    } else {
        let prev = rebuild_qty(ls.drop_last(), p);
        if ls.last().price_micros == p {
            spec_new_qty(prev, ls.last().quantity as int)
        } else {
            prev
        }
    }
}

/// Builds a well-formed bid side from raw snapshot levels by inserting them
/// in order: duplicate prices accumulate, non-positive results are dropped.
pub fn rebuild_side(input: &Vec<OrderbookLevel>) -> (r: Vec<OrderbookLevel>)
    requires
        forall|i: int| 0 <= i < input@.len() ==> #[trigger] input@[i].price_micros <= MICRO_ONE,
    ensures
        wf_side(r@),
        forall|q: u64| side_qty(r@, q) == rebuild_qty(input@, q),
{
    let mut out: Vec<OrderbookLevel> = Vec::new();
    let mut i: usize = 0;
    while i < input.len()
        invariant
            0 <= i <= input@.len(),
            forall|j: int| 0 <= j < input@.len() ==> #[trigger] input@[j].price_micros <= MICRO_ONE,
            wf_side(out@),
            forall|q: u64| side_qty(out@, q) == rebuild_qty(input@.take(i as int), q),
        decreases input@.len() - i,
    {
        let lv = input[i];
        apply_side_delta(&mut out, lv.price_micros, lv.quantity);
        i += 1;
        proof {
            let taken = input@.take(i as int);
            assert(taken.drop_last() =~= input@.take(i - 1));
            assert(taken.last() == input@[i - 1]);
        }
    }
    proof {
        assert(input@.take(input@.len() as int) =~= input@);
    }
    out
}

/// Running sum of the first `k` deltas.
pub open spec fn psum(ds: Seq<i64>, k: int) -> int
    decreases ds.len(),
{
    if k <= 0 || ds.len() == 0 {
        0
    } else {
        ds[0] + psum(ds.drop_first(), k - 1)
    }
}

/// What a delta sequence leaves of a level that starts with quantity `q0`
/// (zero meaning absent), one `spec_new_qty` step per delta, exactly as
/// `apply_side_delta` performs them.
pub open spec fn apply_deltas(q0: int, ds: Seq<i64>) -> int
    decreases ds.len(),
{
    if ds.len() == 0 {
        q0
    } else {
        apply_deltas(spec_new_qty(q0, ds[0] as int), ds.drop_first())
    }
}

/// While the running quantity stays strictly positive and in range, the
/// delta steps are plain addition, clamped at zero on the final step.
proof fn lemma_apply_deltas_tracks_sum(q0: int, ds: Seq<i64>)
    requires
        0 < q0 <= i64::MAX,
        forall|k: int| 1 <= k < ds.len() ==> q0 + #[trigger] psum(ds, k) > 0,
        forall|k: int| 0 <= k <= ds.len() ==> i64::MIN <= q0 + #[trigger] psum(ds, k) <= i64::MAX,
    ensures
        apply_deltas(q0, ds) == if q0 + psum(ds, ds.len() as int) > 0 {
            q0 + psum(ds, ds.len() as int)
        } else {
            0
        },
    decreases ds.len(),
{
    if ds.len() == 0 {
        assert(psum(ds, 0) == 0);
    } else {
        let d0 = ds[0] as int;
        assert(psum(ds, 1) == d0 + psum(ds.drop_first(), 0));
        assert(psum(ds.drop_first(), 0) == 0);
        assert(i64::MIN <= q0 + psum(ds, 1) <= i64::MAX);
        let s = q0 + d0;
        if ds.len() == 1 {
            assert(apply_deltas(q0, ds) == apply_deltas(spec_new_qty(q0, d0), ds.drop_first()));
            assert(psum(ds, 1) == d0);
        } else {
            assert(q0 + psum(ds, 1) > 0);
            assert(spec_new_qty(q0, d0) == s);
            assert forall|k: int| 1 <= k < ds.drop_first().len() implies s + #[trigger] psum(
                ds.drop_first(),
                k,
            ) > 0 by {
                assert(psum(ds, k + 1) == d0 + psum(ds.drop_first(), k));
                assert(q0 + psum(ds, k + 1) > 0);
            }
            assert forall|k: int| 0 <= k <= ds.drop_first().len() implies i64::MIN <= s
                + #[trigger] psum(ds.drop_first(), k) <= i64::MAX by {
                assert(psum(ds, k + 1) == d0 + psum(ds.drop_first(), k));
            }
            lemma_apply_deltas_tracks_sum(s, ds.drop_first());
            assert(psum(ds, ds.len() as int) == d0 + psum(
                ds.drop_first(),
                ds.drop_first().len() as int,
            ));
        }
    }
}

/// Law: a delta sequence whose net change at a price is zero, and whose
/// running quantity neither hits zero before the end nor leaves the signed
/// 64-bit range, leaves the level exactly as it started: no stale
/// zero-quantity level remains, and no quantity is invented.
pub proof fn law_net_zero_deltas(q0: int, ds: Seq<i64>)
    requires
        0 <= q0 <= i64::MAX,
        forall|k: int| 1 <= k < ds.len() ==> q0 + #[trigger] psum(ds, k) > 0,
        forall|k: int| 0 <= k <= ds.len() ==> i64::MIN <= q0 + #[trigger] psum(ds, k) <= i64::MAX,
        psum(ds, ds.len() as int) == 0,
    ensures
        apply_deltas(q0, ds) == q0,
{
    if q0 > 0 {
        lemma_apply_deltas_tracks_sum(q0, ds);
    } else {
        if ds.len() == 0 {
        } else if ds.len() == 1 {
            assert(psum(ds, 1) == ds[0] + psum(ds.drop_first(), 0));
            assert(ds[0] == 0);
            assert(spec_new_qty(0, 0) == 0);
            assert(apply_deltas(q0, ds) == apply_deltas(0, ds.drop_first()));
        } else {
            let d0 = ds[0] as int;
            assert(psum(ds, 1) == d0 + psum(ds.drop_first(), 0));
            assert(d0 > 0);
            assert(spec_new_qty(0, d0) == d0);
            assert forall|k: int| 1 <= k < ds.drop_first().len() implies d0 + #[trigger] psum(
                ds.drop_first(),
                k,
            ) > 0 by {
                assert(psum(ds, k + 1) == d0 + psum(ds.drop_first(), k));
            }
            assert forall|k: int| 0 <= k <= ds.drop_first().len() implies i64::MIN <= d0
                + #[trigger] psum(ds.drop_first(), k) <= i64::MAX by {
                assert(psum(ds, k + 1) == d0 + psum(ds.drop_first(), k));
            }
            lemma_apply_deltas_tracks_sum(d0, ds.drop_first());
            assert(psum(ds, ds.len() as int) == d0 + psum(
                ds.drop_first(),
                ds.drop_first().len() as int,
            ));
            assert(d0 + psum(ds.drop_first(), ds.drop_first().len() as int) == 0);
        }
    }
}

/// Law: on a well-formed book the derived best asks are the exact
/// complements of the opposing best bids, at the opposing bids' quantities,
/// and a derived side is non-empty exactly when its opposing bid side is.
pub proof fn law_derived_top_of_book(b: &KalshiOrderbook)
    requires
        b.wf(),
    ensures
        b.no_bids@.len() > 0 ==> b.yes_asks@.len() == 1 && b.yes_asks@[0].price_micros == MICRO_ONE
            - b.no_bids@[0].price_micros && b.yes_asks@[0].quantity == b.no_bids@[0].quantity,
        b.yes_bids@.len() > 0 ==> b.no_asks@.len() == 1 && b.no_asks@[0].price_micros == MICRO_ONE
            - b.yes_bids@[0].price_micros && b.no_asks@[0].quantity == b.yes_bids@[0].quantity,
        b.no_bids@.len() == 0 ==> b.yes_asks@.len() == 0,
        b.yes_bids@.len() == 0 ==> b.no_asks@.len() == 0,
{
}

} // verus!
