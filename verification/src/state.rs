//! The shared order-book store: a concurrent map of per-market books, with
//! the mutation helpers proved over a map-of-books model.

use vstd::prelude::*;
use dashmap::DashMap;

use vstd::utf8::encode_utf8;

use crate::book::{rebuild_qty, side_qty, spec_new_qty, BookSide, KalshiOrderbook, OrderbookLevel,
    MICRO_ONE};
use crate::kalshi::models::{KalshiMarket, KalshiOrderbookDelta};
use crate::kalshi::protocol::{parse_book_side, spec_side_is_yes};
use crate::price::{parse_price_micros, spec_price_micros};

verus! {

#[verifier::external_type_specification]
#[verifier::external_body]
#[verifier::reject_recursive_types(K)]
#[verifier::reject_recursive_types(V)]
#[verifier::reject_recursive_types(S)]
pub struct ExDashMap<K, V, S>(DashMap<K, V, S>);

/// The concurrent map of per-market books.
pub type BookMap = DashMap<String, KalshiOrderbook>;

/// The concurrent map of tracked markets.
pub type MarketMap = DashMap<String, KalshiMarket>;

/// What the order-book map holds: books keyed by market ticker.
pub uninterp spec fn store_books(m: BookMap) -> Map<
    Seq<char>,
    KalshiOrderbook,
>;

/// What the tracked-market map holds: markets keyed by ticker.
pub uninterp spec fn store_markets(m: MarketMap) -> Map<
    Seq<char>,
    KalshiMarket,
>;

/// Relies on dashmap::DashMap::new: a freshly built map is empty.
#[verifier::external_body]
fn books_new() -> (r: BookMap)
    ensures
        store_books(r) =~= Map::empty(),
{
    DashMap::new()
}

/// Relies on dashmap::DashMap::get: it returns the value stored under the
/// key, or nothing; the clone taken through the guard equals the stored
/// book field for field.
#[verifier::external_body]
fn books_get(m: &BookMap, key: &String) -> (r: Option<KalshiOrderbook>)
    ensures
        r == if store_books(*m).dom().contains(key@) {
            Some(store_books(*m)[key@])
        } else {
            None::<KalshiOrderbook>
        },
{
    m.get(key).map(|e| e.value().clone())
}

/// Relies on dashmap::DashMap::insert: the map afterwards holds exactly the
/// old contents with this key bound to this value.
#[verifier::external_body]
fn books_put(m: &mut BookMap, key: String, value: KalshiOrderbook)
    ensures
        store_books(*final(m)) == store_books(*old(m)).insert(key@, value),
{
    m.insert(key, value);
}

/// Relies on dashmap::DashMap::new: a freshly built map is empty.
#[verifier::external_body]
fn markets_new() -> (r: MarketMap)
    ensures
        store_markets(r) =~= Map::empty(),
{
    DashMap::new()
}

/// Relies on dashmap::DashMap::insert, as for the book map.
#[verifier::external_body]
fn markets_put(m: &mut MarketMap, key: String, value: KalshiMarket)
    ensures
        store_markets(*final(m)) == store_markets(*old(m)).insert(key@, value),
{
    m.insert(key, value);
}

/// Relies on dashmap::DashMap::contains_key.
#[verifier::external_body]
fn markets_contains(m: &MarketMap, key: &String) -> (r: bool)
    ensures
        r == store_markets(*m).dom().contains(key@),
{
    m.contains_key(key)
}

/// Relies on dashmap::DashMap::iter: the first key yielded, if any, is a
/// key of the map, and none is yielded exactly when the map is empty. The
/// iteration order is unspecified, so nothing more is claimed of which key
/// comes out.
#[verifier::external_body]
fn markets_any_key(m: &MarketMap) -> (r: Option<String>)
    ensures
        r is Some ==> store_markets(*m).dom().contains(r.unwrap()@),
        r is None <==> store_markets(*m).dom() =~= Set::<Seq<char>>::empty(),
{
    m.iter().next().map(|e| e.key().clone())
}

/// Shared state of the prediction-market side: the tracked markets and the
/// per-market order books.
pub struct KalshiState {
    pub tracked_markets: MarketMap,
    pub orderbooks: BookMap,
}

impl KalshiState {
    /// Every stored book is well formed.
    pub open spec fn wf(&self) -> bool {
        forall|k: Seq<char>|
            store_books(self.orderbooks).dom().contains(k)
                ==> (#[trigger] store_books(self.orderbooks)[k]).wf()
    }

    pub fn new() -> (r: Self)
        ensures
            r.wf(),
            store_books(r.orderbooks) =~= Map::<Seq<char>, KalshiOrderbook>::empty(),
            store_markets(r.tracked_markets) =~= Map::<Seq<char>, KalshiMarket>::empty(),
    {
        KalshiState { tracked_markets: markets_new(), orderbooks: books_new() }
    }

    /// Remembers a market as tracked.
    pub fn track_market(&mut self, market: KalshiMarket)
        ensures
            store_markets(final(self).tracked_markets) == store_markets(old(self).tracked_markets).insert(market.ticker@, market),
            final(self).orderbooks == old(self).orderbooks,
    {
        let key = market.ticker.clone();
        markets_put(&mut self.tracked_markets, key, market);
    }

    /// Whether a market is tracked.
    pub fn is_tracked(&self, ticker: &String) -> (r: bool)
        ensures
            r == store_markets(self.tracked_markets).dom().contains(ticker@),
    {
        markets_contains(&self.tracked_markets, ticker)
    }

    /// Some tracked market's ticker, when any is tracked. Which one comes
    /// back is not specified: the store's iteration order is arbitrary.
    pub fn first_tracked(&self) -> (r: Option<String>)
        ensures
            r is Some ==> store_markets(self.tracked_markets).dom().contains(r.unwrap()@),
            r is None <==> store_markets(self.tracked_markets).dom() =~= Set::<Seq<char>>::empty(),
    {
        markets_any_key(&self.tracked_markets)
    }

    /// A snapshot copy of the book for a market.
    pub fn get_orderbook(&self, market_ticker: &String) -> (r: Option<KalshiOrderbook>)
        ensures
            r == if store_books(self.orderbooks).dom().contains(market_ticker@) {
                Some(store_books(self.orderbooks)[market_ticker@])
            } else {
                None::<KalshiOrderbook>
            },
    {
        books_get(&self.orderbooks, market_ticker)
    }

    /// The best yes bid of a market's book.
    pub fn get_top_bid(&self, market_ticker: &String) -> (r: Option<u64>)
        ensures
            r is Some <==> store_books(self.orderbooks).dom().contains(market_ticker@)
                && store_books(self.orderbooks)[market_ticker@].yes_bids@.len() > 0,
            r is Some ==> r.unwrap() == store_books(self.orderbooks)[market_ticker@].yes_bids@[0].price_micros,
    {
        match books_get(&self.orderbooks, market_ticker) {
            Some(book) => {
                if book.yes_bids.len() > 0 {
                    Some(book.yes_bids[0].price_micros)
                } else {
                    None
                }
            },
            None => None,
        }
    }

    /// The best derived yes ask of a market's book.
    pub fn get_top_ask(&self, market_ticker: &String) -> (r: Option<u64>)
        ensures
            r is Some <==> store_books(self.orderbooks).dom().contains(market_ticker@)
                && store_books(self.orderbooks)[market_ticker@].yes_asks@.len() > 0,
            r is Some ==> r.unwrap() == store_books(self.orderbooks)[market_ticker@].yes_asks@[0].price_micros,
    {
        match books_get(&self.orderbooks, market_ticker) {
            Some(book) => {
                if book.yes_asks.len() > 0 {
                    Some(book.yes_asks[0].price_micros)
                } else {
                    None
                }
            },
            None => None,
        }
    }

    /// Replaces a market's bid sides from parsed snapshot levels and
    /// rederives the asks, creating the book when absent.
    pub fn apply_snapshot(
        &mut self,
        market_ticker: &String,
        yes_levels: &Vec<OrderbookLevel>,
        no_levels: &Vec<OrderbookLevel>,
    )
        requires
            old(self).wf(),
            forall|i: int|
                0 <= i < yes_levels@.len() ==> #[trigger] yes_levels@[i].price_micros <= MICRO_ONE,
            forall|i: int|
                0 <= i < no_levels@.len() ==> #[trigger] no_levels@[i].price_micros <= MICRO_ONE,
        ensures
            final(self).wf(),
            final(self).tracked_markets == old(self).tracked_markets,
            store_books(final(self).orderbooks).dom() =~= store_books(
                old(self).orderbooks,
            ).dom().insert(market_ticker@),
            ({
                let b = store_books(final(self).orderbooks)[market_ticker@];
                &&& b.wf()
                &&& b.market_ticker@ == market_ticker@
                &&& (forall|q: u64| side_qty(b.yes_bids@, q) == rebuild_qty(yes_levels@, q))
                &&& (forall|q: u64| side_qty(b.no_bids@, q) == rebuild_qty(no_levels@, q))
            }),
            forall|k: Seq<char>|
                k != market_ticker@ && store_books(old(self).orderbooks).dom().contains(k)
                    ==> #[trigger] store_books(final(self).orderbooks)[k] == store_books(
                    old(self).orderbooks,
                )[k],
    {
        let mut book = match books_get(&self.orderbooks, market_ticker) {
            Some(b) => b,
            None => KalshiOrderbook::new_empty(market_ticker.clone()),
        };
        book.market_ticker = market_ticker.clone();
        book.apply_snapshot(yes_levels, no_levels);
        books_put(&mut self.orderbooks, market_ticker.clone(), book);
    }

    /// Applies a routed snapshot book to the store: its bid sides replace
    /// the stored market's sides and the asks are rederived.
    pub fn process_orderbook_update(&mut self, book: &KalshiOrderbook)
        requires
            old(self).wf(),
            book.wf(),
        ensures
            final(self).wf(),
            final(self).tracked_markets == old(self).tracked_markets,
            (store_books(final(self).orderbooks).dom() =~= store_books(
                old(self).orderbooks,
            ).dom().insert(book.market_ticker@)),
            ({
                let b = store_books(final(self).orderbooks)[book.market_ticker@];
                &&& b.wf()
                &&& (forall|q: u64|
                    side_qty(b.yes_bids@, q) == rebuild_qty(book.yes_bids@, q))
                &&& (forall|q: u64| side_qty(b.no_bids@, q) == rebuild_qty(book.no_bids@, q))
            }),
            forall|k: Seq<char>|
                k != book.market_ticker@ && store_books(old(self).orderbooks).dom().contains(k)
                    ==> #[trigger] store_books(final(self).orderbooks)[k] == store_books(
                    old(self).orderbooks,
                )[k],
    {
        self.apply_snapshot(&book.market_ticker, &book.yes_bids, &book.no_bids);
    }

    /// Applies a wire delta to the store: the dollar price string is parsed
    /// to micro-dollars and the named side updated. A price that does not
    /// parse, or lies above one dollar, leaves the store untouched.
    pub fn process_orderbook_delta(&mut self, delta: &KalshiOrderbookDelta) -> (r: bool)
        requires
            old(self).wf(),
        ensures
            final(self).wf(),
            final(self).tracked_markets == old(self).tracked_markets,
            r <==> (spec_price_micros(encode_utf8(delta.price_dollars@)) is Some
                && spec_price_micros(encode_utf8(delta.price_dollars@)).unwrap() <= MICRO_ONE),
            !r ==> final(self).orderbooks == old(self).orderbooks,
            r ==> {
                let price = spec_price_micros(encode_utf8(delta.price_dollars@)).unwrap();
                let side = if spec_side_is_yes(encode_utf8(delta.side@)) {
                    BookSide::Yes
                } else {
                    BookSide::No
                };
                let b1 = store_books(final(self).orderbooks)[delta.market_ticker@];
                let prior_yes: Seq<OrderbookLevel> = if store_books(
                    old(self).orderbooks,
                ).dom().contains(delta.market_ticker@) {
                    store_books(old(self).orderbooks)[delta.market_ticker@].yes_bids@
                } else {
                    Seq::empty()
                };
                let prior_no: Seq<OrderbookLevel> = if store_books(
                    old(self).orderbooks,
                ).dom().contains(delta.market_ticker@) {
                    store_books(old(self).orderbooks)[delta.market_ticker@].no_bids@
                } else {
                    Seq::empty()
                };
                &&& (store_books(final(self).orderbooks).dom() =~= store_books(
                    old(self).orderbooks,
                ).dom().insert(delta.market_ticker@))
                &&& b1.wf()
                &&& (side == BookSide::Yes ==> side_qty(b1.yes_bids@, price) == spec_new_qty(
                    side_qty(prior_yes, price),
                    delta.delta as int,
                ) && (forall|q: u64|
                    q != price ==> #[trigger] side_qty(b1.yes_bids@, q) == side_qty(
                        prior_yes,
                        q,
                    )) && b1.no_bids@ == prior_no)
                &&& (side == BookSide::No ==> side_qty(b1.no_bids@, price) == spec_new_qty(
                    side_qty(prior_no, price),
                    delta.delta as int,
                ) && (forall|q: u64|
                    q != price ==> #[trigger] side_qty(b1.no_bids@, q) == side_qty(
                        prior_no,
                        q,
                    )) && b1.yes_bids@ == prior_yes)
                &&& (forall|k: Seq<char>|
                    k != delta.market_ticker@ && store_books(old(self).orderbooks).dom().contains(
                        k,
                    ) ==> #[trigger] store_books(final(self).orderbooks)[k] == store_books(
                        old(self).orderbooks,
                    )[k])
            },
    {
        let parsed = parse_price_micros(delta.price_dollars.as_str());
        if let Some(price) = parsed {
            if price <= MICRO_ONE {
                let side = parse_book_side(delta.side.as_str());
                self.apply_delta(&delta.market_ticker, side, price, delta.delta);
                return true;
            }
        }
        false
    }

    /// Applies one signed delta to a market's book at one price, creating
    /// the book when absent, and rederives the asks.
    pub fn apply_delta(&mut self, market_ticker: &String, side: BookSide, price: u64, delta: i64)
        requires
            old(self).wf(),
            price <= MICRO_ONE,
        ensures
            final(self).wf(),
            final(self).tracked_markets == old(self).tracked_markets,
            store_books(final(self).orderbooks).dom() =~= store_books(
                old(self).orderbooks,
            ).dom().insert(market_ticker@),
            ({
                let b1 = store_books(final(self).orderbooks)[market_ticker@];
                let prior_yes: Seq<OrderbookLevel> = if store_books(
                    old(self).orderbooks,
                ).dom().contains(market_ticker@) {
                    store_books(old(self).orderbooks)[market_ticker@].yes_bids@
                } else {
                    Seq::empty()
                };
                let prior_no: Seq<OrderbookLevel> = if store_books(
                    old(self).orderbooks,
                ).dom().contains(market_ticker@) {
                    store_books(old(self).orderbooks)[market_ticker@].no_bids@
                } else {
                    Seq::empty()
                };
                &&& b1.wf()
                &&& (side == BookSide::Yes ==> side_qty(b1.yes_bids@, price) == spec_new_qty(
                    side_qty(prior_yes, price),
                    delta as int,
                ) && (forall|q: u64|
                    q != price ==> #[trigger] side_qty(b1.yes_bids@, q) == side_qty(
                        prior_yes,
                        q,
                    )) && b1.no_bids@ == prior_no)
                &&& (side == BookSide::No ==> side_qty(b1.no_bids@, price) == spec_new_qty(
                    side_qty(prior_no, price),
                    delta as int,
                ) && (forall|q: u64|
                    q != price ==> #[trigger] side_qty(b1.no_bids@, q) == side_qty(
                        prior_no,
                        q,
                    )) && b1.yes_bids@ == prior_yes)
            }),
            forall|k: Seq<char>|
                k != market_ticker@ && store_books(old(self).orderbooks).dom().contains(k)
                    ==> #[trigger] store_books(final(self).orderbooks)[k] == store_books(
                    old(self).orderbooks,
                )[k],
    {
        let mut book = match books_get(&self.orderbooks, market_ticker) {
            Some(b) => b,
            None => KalshiOrderbook::new_empty(market_ticker.clone()),
        };
        proof {
            if !store_books(old(self).orderbooks).dom().contains(market_ticker@) {
                assert(book.yes_bids@ =~= Seq::<OrderbookLevel>::empty());
                assert(book.no_bids@ =~= Seq::<OrderbookLevel>::empty());
            }
        }
        book.apply_delta(side, price, delta);
        books_put(&mut self.orderbooks, market_ticker.clone(), book);
    }
}

} // verus!
