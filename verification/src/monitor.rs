//! Monitoring sessions: a time-boxed recording of prediction-market
//! top-of-book transitions, started by an imbalance alert and gated so that
//! overlapping alerts never open a second session.

use vstd::prelude::*;

use crate::book::{KalshiOrderbook, TopOfBook};
use crate::imbalance::ImbalanceAlert;

verus! {

/// The observation window, in milliseconds.
pub const MONITOR_WINDOW_MILLIS: u64 = 15000;

/// The four top-of-book prices recorded together, in micro-dollars.
#[derive(Debug, Clone, Copy, PartialEq, Eq, Structural)]
pub struct PriceQuad {
    pub yes_ask: u64,
    pub no_ask: u64,
    pub yes_bid: u64,
    pub no_bid: u64,
}

/// One recorded observation: a wall-clock stamp and the four prices.
#[derive(Debug, Clone, Copy, PartialEq, Eq, Structural)]
pub struct Observation {
    pub wall_millis: u64,
    pub quad: PriceQuad,
}

/// Whether two quads differ by more than one micro-dollar on any price.
pub open spec fn quad_changed(a: PriceQuad, b: PriceQuad) -> bool {
    ||| (a.yes_ask > b.yes_ask + 1) || (b.yes_ask > a.yes_ask + 1)
    ||| (a.no_ask > b.no_ask + 1) || (b.no_ask > a.no_ask + 1)
    ||| (a.yes_bid > b.yes_bid + 1) || (b.yes_bid > a.yes_bid + 1)
    ||| (a.no_bid > b.no_bid + 1) || (b.no_bid > a.no_bid + 1)
}

/// One monitoring session: its identifying key, when it started, the
/// initial top-of-book, and the observations recorded so far.
#[derive(Debug, Clone)]
pub struct MonitorSession {
    pub symbol: String,
    pub detected_epoch_millis: i64,
    pub start_millis: u64,
    pub initial: TopOfBook,
    pub observations: Vec<Observation>,
}

impl MonitorSession {
    /// A session is active at `now` while the window has not elapsed.
    pub open spec fn active_at(&self, now: u64) -> bool {
        now - self.start_millis <= MONITOR_WINDOW_MILLIS
    }
}

/// The set of live monitoring sessions owned by the coordinator.
#[derive(Debug)]
pub struct MonitorState {
    pub sessions: Vec<MonitorSession>,
}

/// What the coordinator decided about one imbalance alert.
#[derive(Debug, Clone, Copy, PartialEq, Eq, Structural)]
pub enum AlertDecision {
    /// A session within the window exists: the alert is dropped.
    SkippedActive,
    /// No tracked market book was available: the alert is dropped.
    SkippedNoBook,
    /// A new session was opened.
    Started,
}

impl MonitorState {
    /// Every session started no later than `now`.
    pub open spec fn clocks_ok(&self, now: u64) -> bool {
        forall|i: int|
            0 <= i < self.sessions@.len() ==> #[trigger] self.sessions@[i].start_millis <= now
    }

    /// Whether any session is inside its observation window at `now`.
    pub open spec fn spec_has_active(&self, now: u64) -> bool {
        exists|i: int| 0 <= i < self.sessions@.len() && #[trigger] self.sessions@[i].active_at(now)
    }

    pub fn new() -> (r: Self)
        ensures
            r.sessions@.len() == 0,
    {
        MonitorState { sessions: Vec::new() }
    }

    /// Whether any session is inside its observation window at `now`.
    pub fn has_active_session(&self, now_millis: u64) -> (r: bool)
        requires
            self.clocks_ok(now_millis),
        ensures
            r == self.spec_has_active(now_millis),
    {
        let mut i: usize = 0;
        while i < self.sessions.len()
            invariant
                self.clocks_ok(now_millis),
                0 <= i <= self.sessions@.len(),
                forall|j: int|
                    0 <= j < i ==> !#[trigger] self.sessions@[j].active_at(now_millis),
            decreases self.sessions@.len() - i,
        {
            if now_millis - self.sessions[i].start_millis <= MONITOR_WINDOW_MILLIS {
                proof {
                    assert(self.sessions@[i as int].active_at(now_millis));
                }
                return true;
            }
            i += 1;
        }
        false
    }

    /// Handles one imbalance alert: skipped while any session is inside its
    /// window, skipped when no book is available, and otherwise opens a new
    /// session seeded with the book's top-of-book quad when all four sides
    /// are present.
    pub fn handle_alert(
        &mut self,
        alert: &ImbalanceAlert,
        book: Option<&KalshiOrderbook>,
        now_millis: u64,
    ) -> (r: AlertDecision)
        requires
            old(self).clocks_ok(now_millis),
        ensures
            final(self).clocks_ok(now_millis),
            r == AlertDecision::SkippedActive <==> old(self).spec_has_active(now_millis),
            r == AlertDecision::SkippedActive ==> final(self).sessions == old(self).sessions,
            r == AlertDecision::SkippedNoBook <==> !old(self).spec_has_active(now_millis) && book
                is None,
            r == AlertDecision::SkippedNoBook ==> final(self).sessions == old(self).sessions,
            r == AlertDecision::Started <==> !old(self).spec_has_active(now_millis) && book
                is Some,
            r == AlertDecision::Started ==> {
                let s = final(self).sessions@.last();
                let b = book.unwrap();
                let complete = b.yes_asks@.len() > 0 && b.no_asks@.len() > 0 && b.yes_bids@.len()
                    > 0 && b.no_bids@.len() > 0;
                &&& final(self).sessions@ == old(self).sessions@.push(s)
                &&& s.symbol@ == alert.symbol@
                &&& s.detected_epoch_millis == alert.detected_epoch_millis
                &&& s.start_millis == now_millis
                &&& s.active_at(now_millis)
                &&& (s.initial.yes_bid == if b.yes_bids@.len() > 0 {
                    Some(b.yes_bids@[0].price_micros)
                } else {
                    None::<u64>
                })
                &&& (s.initial.yes_ask == if b.yes_asks@.len() > 0 {
                    Some(b.yes_asks@[0].price_micros)
                } else {
                    None::<u64>
                })
                &&& (s.initial.no_bid == if b.no_bids@.len() > 0 {
                    Some(b.no_bids@[0].price_micros)
                } else {
                    None::<u64>
                })
                &&& (s.initial.no_ask == if b.no_asks@.len() > 0 {
                    Some(b.no_asks@[0].price_micros)
                } else {
                    None::<u64>
                })
                &&& (complete ==> s.observations@.len() == 1 && s.observations@[0].wall_millis
                    == now_millis && s.observations@[0].quad == (PriceQuad {
                    yes_ask: b.yes_asks@[0].price_micros,
                    no_ask: b.no_asks@[0].price_micros,
                    yes_bid: b.yes_bids@[0].price_micros,
                    no_bid: b.no_bids@[0].price_micros,
                }))
                &&& (!complete ==> s.observations@.len() == 0)
            },
    {
        if self.has_active_session(now_millis) {
            return AlertDecision::SkippedActive;
        }
        let book = match book {
            Some(b) => b,
            None => { return AlertDecision::SkippedNoBook },
        };
        let top = book.top_of_book();
        let mut observations: Vec<Observation> = Vec::new();
        match (top.yes_ask, top.no_ask, top.yes_bid, top.no_bid) {
            (Some(ya), Some(na), Some(yb), Some(nb)) => {
                observations.push(
                    Observation {
                        wall_millis: now_millis,
                        quad: PriceQuad { yes_ask: ya, no_ask: na, yes_bid: yb, no_bid: nb },
                    },
                );
            },
            _ => {},
        }
        let session = MonitorSession {
            symbol: alert.symbol.clone(),
            detected_epoch_millis: alert.detected_epoch_millis,
            start_millis: now_millis,
            initial: top,
            observations,
        };
        self.sessions.push(session);
        AlertDecision::Started
    }

    /// Records a top-of-book quad into every session still inside its
    /// window, skipping sessions whose last observation differs by at most
    /// one micro-dollar on every price.
    pub fn record_change(&mut self, quad: PriceQuad, now_millis: u64)
        requires
            old(self).clocks_ok(now_millis),
        ensures
            final(self).sessions@.len() == old(self).sessions@.len(),
            forall|i: int|
                0 <= i < old(self).sessions@.len() ==> {
                    let s0 = old(self).sessions@[i];
                    let s1 = #[trigger] final(self).sessions@[i];
                    &&& s1.symbol == s0.symbol
                    &&& s1.detected_epoch_millis == s0.detected_epoch_millis
                    &&& s1.start_millis == s0.start_millis
                    &&& s1.initial == s0.initial
                    &&& (s0.active_at(now_millis) && (s0.observations@.len() == 0 || quad_changed(
                        s0.observations@.last().quad,
                        quad,
                    )) ==> s1.observations@ == s0.observations@.push(
                        Observation { wall_millis: now_millis, quad },
                    ))
                    &&& (!(s0.active_at(now_millis) && (s0.observations@.len() == 0
                        || quad_changed(s0.observations@.last().quad, quad)))
                        ==> s1.observations@ == s0.observations@)
                },
    {
        let ghost snap = self.sessions@;
        let n: usize = self.sessions.len();
        let mut i: usize = 0;
        while i < n
            invariant
                n == self.sessions@.len(),
                snap.len() == n,
                0 <= i <= n,
                forall|j: int| i <= j < n ==> #[trigger] self.sessions@[j] == snap[j],
                forall|j: int| 0 <= j < n ==> #[trigger] snap[j].start_millis <= now_millis,
                forall|j: int|
                    0 <= j < i ==> {
                        let s0 = snap[j];
                        let s1 = #[trigger] self.sessions@[j];
                        &&& s1.symbol == s0.symbol
                        &&& s1.detected_epoch_millis == s0.detected_epoch_millis
                        &&& s1.start_millis == s0.start_millis
                        &&& s1.initial == s0.initial
                        &&& (s0.active_at(now_millis) && (s0.observations@.len() == 0
                            || quad_changed(s0.observations@.last().quad, quad))
                            ==> s1.observations@ == s0.observations@.push(
                            Observation { wall_millis: now_millis, quad },
                        ))
                        &&& (!(s0.active_at(now_millis) && (s0.observations@.len() == 0
                            || quad_changed(s0.observations@.last().quad, quad)))
                            ==> s1.observations@ == s0.observations@)
                    },
            decreases n - i,
        {
            let active = now_millis - self.sessions[i].start_millis <= MONITOR_WINDOW_MILLIS;
            let should_record = if !active {
                false
            } else {
                let m = self.sessions[i].observations.len();
                if m == 0 {
                    true
                } else {
                    let last = self.sessions[i].observations[m - 1].quad;
                    quad_differs(last, quad)
                }
            };
            if should_record {
                let ghost before = self.sessions@;
                let mut session = self.sessions.remove(i);
                session.observations.push(Observation { wall_millis: now_millis, quad });
                self.sessions.insert(i, session);
                proof {
                    assert(self.sessions@ =~= before.update(i as int, session));
                }
            }
            i += 1;
        }
    }

    /// Removes and returns the session with the given key, if one exists:
    /// the timer task retires its session when the window elapses.
    pub fn finish_session(&mut self, symbol: &String, detected_epoch_millis: i64) -> (r: Option<
        MonitorSession,
    >)
        ensures
            r is Some <==> exists|i: int|
                0 <= i < old(self).sessions@.len() && (#[trigger] old(
                    self,
                ).sessions@[i]).symbol@ == symbol@ && old(self).sessions@[i].detected_epoch_millis
                    == detected_epoch_millis,
            r is None ==> final(self).sessions == old(self).sessions,
            r is Some ==> {
                let s = r.unwrap();
                &&& s.symbol@ == symbol@
                &&& s.detected_epoch_millis == detected_epoch_millis
                &&& exists|i: int|
                    0 <= i < old(self).sessions@.len() && old(self).sessions@[i] == s
                        && #[trigger] old(self).sessions@.remove(i) == final(self).sessions@
            },
    {
        let n: usize = self.sessions.len();
        let mut i: usize = 0;
        while i < n
            invariant
                n == self.sessions@.len(),
                0 <= i <= n,
                self.sessions == old(self).sessions,
                forall|j: int|
                    0 <= j < i ==> !((#[trigger] old(self).sessions@[j]).symbol@ == symbol@ && old(
                        self,
                    ).sessions@[j].detected_epoch_millis == detected_epoch_millis),
            decreases n - i,
        {
            let matches_key = crate::strings::str_eq(
                self.sessions[i].symbol.as_str(),
                symbol.as_str(),
            ) && self.sessions[i].detected_epoch_millis == detected_epoch_millis;
            if matches_key {
                let s = self.sessions.remove(i);
                proof {
                    assert(s.symbol@ == symbol@);
                }
                return Some(s);
            }
            i += 1;
        }
        None
    }
}

/// The four top-of-book prices together, when every side has one.
pub fn quad_of_top(top: &TopOfBook) -> (r: Option<PriceQuad>)
    ensures
        r is Some <==> (top.yes_ask is Some && top.no_ask is Some && top.yes_bid is Some
            && top.no_bid is Some),
        r is Some ==> r.unwrap() == (PriceQuad {
            yes_ask: top.yes_ask.unwrap(),
            no_ask: top.no_ask.unwrap(),
            yes_bid: top.yes_bid.unwrap(),
            no_bid: top.no_bid.unwrap(),
        }),
{
    match (top.yes_ask, top.no_ask, top.yes_bid, top.no_bid) {
        (Some(yes_ask), Some(no_ask), Some(yes_bid), Some(no_bid)) => Some(
            PriceQuad { yes_ask, no_ask, yes_bid, no_bid },
        ),
        _ => None,
    }
}

/// Whether two quads differ by more than one micro-dollar on any price.
pub fn quad_differs(a: PriceQuad, b: PriceQuad) -> (r: bool)
    ensures
        r == quad_changed(a, b),
{
    let dya: u64 = if a.yes_ask > b.yes_ask {
        a.yes_ask - b.yes_ask
    } else {
        b.yes_ask - a.yes_ask
    };
    let dna: u64 = if a.no_ask > b.no_ask {
        a.no_ask - b.no_ask
    } else {
        b.no_ask - a.no_ask
    };
    let dyb: u64 = if a.yes_bid > b.yes_bid {
        a.yes_bid - b.yes_bid
    } else {
        b.yes_bid - a.yes_bid
    };
    let dnb: u64 = if a.no_bid > b.no_bid {
        a.no_bid - b.no_bid
    } else {
        b.no_bid - a.no_bid
    };
    dya > 1 || dna > 1 || dyb > 1 || dnb > 1
}

/// Law: alerts are gated. A state holding a session opened at `t1` still
/// has an active session at any `t2` within the observation window, so by
/// the contract of `handle_alert` a second alert arriving before the window
/// elapses is answered `SkippedActive` and the sessions are left untouched:
/// at most one session ever runs inside a window.
pub proof fn law_alert_gating(s: MonitorState, t1: u64, t2: u64)
    requires
        s.sessions@.len() > 0,
        s.sessions@.last().start_millis == t1,
        t1 <= t2,
        t2 - t1 <= MONITOR_WINDOW_MILLIS,
    ensures
        s.spec_has_active(t2),
{
    let last = s.sessions@.len() - 1;
    assert(s.sessions@[last].active_at(t2));
}

} // verus!
