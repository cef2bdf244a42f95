//! The spread-capture loop's state: latest book per token and the spread
//! detector, checked over the active markets.
use vstd::prelude::*;
use crate::market::Market;
use crate::orderbook::{update_ok, BookView, OrderBook};
use crate::spread::{instant_ok, spread_emits, spread_signal_for, MarketBooks, SpreadConfig, SpreadDetector, SpreadSignal};

verus! {

/// The store holds, for token `t`, a book whose view is `v`.
pub open spec fn stored(books: Seq<OrderBook>, t: Seq<char>, v: BookView) -> bool {
    exists|i: int| 0 <= i < books.len() && books[i].token_id@ == t && books[i]@ == v
}

/// The signal is the detector's output for one of `markets`, still open at
/// `now`, judged on that market's stored YES and NO books.
pub open spec fn drawn_from(s: SpreadSignal, markets: Seq<Market>, now: i64, det: SpreadDetector, books: Seq<OrderBook>) -> bool {
    exists|i: int|
        0 <= i < markets.len() && s.market == markets[i] && markets[i].close_time > now && exists|yv: BookView, nv: BookView|
            #![trigger stored(books, markets[i].yes_token_id@, yv), stored(books, markets[i].no_token_id@, nv)]
            stored(books, markets[i].yes_token_id@, yv) && stored(books, markets[i].no_token_id@, nv) && spread_emits(
                det.config,
                yv,
                nv,
                now as int,
                det.count_of(markets[i].condition_id@),
            ) && spread_signal_for(s, det.config, yv, nv, now, markets[i])
}

/// The market is open at `now`, both its books are stored, and the
/// detector emits on them.
pub open spec fn emits_for(books: Seq<OrderBook>, m: Market, now: i64, det: SpreadDetector) -> bool {
    m.close_time > now && exists|yv: BookView, nv: BookView|
        #![trigger stored(books, m.yes_token_id@, yv), stored(books, m.no_token_id@, nv)]
        stored(books, m.yes_token_id@, yv) && stored(books, m.no_token_id@, nv) && spread_emits(
            det.config,
            yv,
            nv,
            now as int,
            det.count_of(m.condition_id@),
        )
}

/// Some signal of `out` is for market `m`.
pub open spec fn has_signal_for(out: Seq<SpreadSignal>, m: Market) -> bool {
    exists|k: int| 0 <= k < out.len() && out[k].market == m
}

/// Latest book per token and the detector.
pub struct SpreadOrchestrator {
    pub order_books: Vec<OrderBook>,
    pub detector: SpreadDetector,
    /// How often the loop checks, milliseconds.
    pub check_interval_ms: u64,
}

impl SpreadOrchestrator {
    /// Every stored book is well formed with a representable time, one per
    /// token.
    pub open spec fn wf(&self) -> bool {
        &&& self.detector.config.wf()
        &&& forall|i: int, j: int|
            0 <= i < j < self.order_books@.len() ==> (#[trigger] self.order_books@[i]).token_id@ != (#[trigger] self.order_books@[j]).token_id@
        &&& forall|i: int|
            0 <= i < self.order_books@.len() ==> (#[trigger] self.order_books@[i]).wf() && instant_ok(
                self.order_books@[i].updated_at as int,
            )
    }

    pub fn new(config: SpreadConfig) -> (r: SpreadOrchestrator)
        requires
            config.wf(),
        ensures
            r.wf(),
            r.detector.config == config,
            r.order_books@.len() == 0,
            r.check_interval_ms == 100,
    {
        SpreadOrchestrator { order_books: Vec::new(), detector: SpreadDetector::with_config(config), check_interval_ms: 100 }
    }

    pub fn with_defaults() -> (r: SpreadOrchestrator)
        ensures
            r.wf(),
            r.order_books@.len() == 0,
    {
        Self::new(SpreadConfig::default())
    }

    /// Position of the book for `token`, if any.
    fn find(&self, token: &String) -> (r: Option<usize>)
        ensures
            match r {
                Some(i) => i < self.order_books@.len() && self.order_books@[i as int].token_id@ == token@,
                None => forall|k: int| 0 <= k < self.order_books@.len() ==> (#[trigger] self.order_books@[k]).token_id@ != token@,
            },
    {
        let mut i: usize = 0;
        while i < self.order_books.len()
            invariant
                0 <= i <= self.order_books@.len(),
                forall|k: int| 0 <= k < i ==> (#[trigger] self.order_books@[k]).token_id@ != token@,
            decreases self.order_books@.len() - i,
        {
            if self.order_books[i].token_id == *token {
                return Some(i);
            }
            i = i + 1;
        }
        None
    }

    /// Store `book` as its token's latest book (normalised: levels in price
    /// order, zero sizes dropped), replacing any earlier one.
    pub fn update_order_book(&mut self, book: &OrderBook)
        requires
            old(self).wf(),
            update_ok(book@),
            instant_ok(book.updated_at as int),
        ensures
            final(self).wf(),
            final(self).detector == old(self).detector,
            exists|i: int|
                0 <= i < final(self).order_books@.len() && (#[trigger] final(self).order_books@[i]).token_id@ == book.token_id@
                    && crate::orderbook::apply_post(crate::orderbook::empty_book(book.token_id@), book@, final(self).order_books@[i]@),
    {
        let mut fresh = OrderBook::new(book.token_id.as_str(), 0);
        proof {
            assert(fresh@.bids =~= Seq::<crate::orderbook::PriceLevel>::empty());
            assert(fresh@.asks =~= Seq::<crate::orderbook::PriceLevel>::empty());
            assert(fresh@ == crate::orderbook::empty_book(book@.token));
        }
        fresh.apply_update(book);
        let ghost fv = fresh@;
        match self.find(&book.token_id) {
            Some(i) => {
                self.order_books.set(i, fresh);
                proof {
                    assert(self.order_books@[i as int]@ == fv);
                    assert forall|a: int, b: int|
                        0 <= a < b < self.order_books@.len() implies (#[trigger] self.order_books@[a]).token_id@ != (#[trigger] self.order_books@[b]).token_id@ by {
                        assert(old(self).order_books@[a].token_id@ != old(self).order_books@[b].token_id@);
                    }
                }
            },
            None => {
                self.order_books.push(fresh);
                proof {
                    assert(self.order_books@[self.order_books@.len() - 1]@ == fv);
                    let n = old(self).order_books@.len() as int;
                    assert forall|a: int, b: int|
                        0 <= a < b < self.order_books@.len() implies (#[trigger] self.order_books@[a]).token_id@ != (#[trigger] self.order_books@[b]).token_id@ by {
                        if b < n {
                            assert(old(self).order_books@[a].token_id@ != old(self).order_books@[b].token_id@);
                        } else {
                            assert(self.order_books@[a] == old(self).order_books@[a]);
                        }
                    }
                }
            },
        }
    }

    /// The two books of a market, when both are stored.
    pub fn get_market_books(&self, market: &Market) -> (r: Option<MarketBooks>)
        requires
            self.wf(),
        ensures
            r matches Some(b) ==> b.wf() && stored(self.order_books@, market.yes_token_id@, b.yes_book@) && stored(
                self.order_books@,
                market.no_token_id@,
                b.no_book@,
            ),
            r.is_none() ==> (forall|k: int| 0 <= k < self.order_books@.len() ==> (#[trigger] self.order_books@[k]).token_id@ != market.yes_token_id@)
                || (forall|k: int| 0 <= k < self.order_books@.len() ==> (#[trigger] self.order_books@[k]).token_id@ != market.no_token_id@),
    {
        let yi = match self.find(&market.yes_token_id) {
            Some(i) => i,
            None => return None,
        };
        let ni = match self.find(&market.no_token_id) {
            Some(i) => i,
            None => return None,
        };
        let yes = self.order_books[yi].duplicate();
        let no = self.order_books[ni].duplicate();
        proof {
            assert(stored(self.order_books@, market.yes_token_id@, yes@));
            assert(stored(self.order_books@, market.no_token_id@, no@));
        }
        Some(MarketBooks::new(yes, no))
    }

    /// Spread signals over `markets` at `now`: one for each market that is
    /// still open, below its position cap, with both books stored, on which
    /// the detector emits; each is the detector's output on those books.
    pub fn check_spreads(&self, markets: &Vec<Market>, now: i64) -> (r: Vec<SpreadSignal>)
        requires
            self.wf(),
            instant_ok(now as int),
        ensures
            r@.len() <= markets@.len(),
            forall|k: int| 0 <= k < r@.len() ==> drawn_from(#[trigger] r@[k], markets@, now, self.detector, self.order_books@),
            forall|i: int|
                0 <= i < markets@.len() && emits_for(self.order_books@, #[trigger] markets@[i], now, self.detector) ==> has_signal_for(
                    r@,
                    markets@[i],
                ),
    {
        let mut out: Vec<SpreadSignal> = Vec::new();
        let mut i: usize = 0;
        while i < markets.len()
            invariant
                0 <= i <= markets@.len(),
                out@.len() <= i,
                self.wf(),
                instant_ok(now as int),
                forall|k: int| 0 <= k < out@.len() ==> drawn_from(#[trigger] out@[k], markets@, now, self.detector, self.order_books@),
                forall|j: int|
                    0 <= j < i && emits_for(self.order_books@, #[trigger] markets@[j], now, self.detector) ==> has_signal_for(
                        out@,
                        markets@[j],
                    ),
            decreases markets@.len() - i,
        {
            let market = &markets[i];
            let ghost before = out@;
            if market.close_time > now && self.detector.can_take_position(market.condition_id.as_str()) {
                match self.get_market_books(market) {
                    Some(books) => {
                        match self.detector.detect(market, &books, now) {
                            Some(s) => {
                                proof {
                                    assert(s.market == markets@[i as int]);
                                    assert(stored(self.order_books@, markets@[i as int].yes_token_id@, books.yes_book@));
                                    assert(stored(self.order_books@, markets@[i as int].no_token_id@, books.no_book@));
                                    assert(drawn_from(s, markets@, now, self.detector, self.order_books@));
                                }
                                out.push(s);
                            },
                            None => {},
                        }
                        proof {
                            if emits_for(self.order_books@, markets@[i as int], now, self.detector) {
                                let m = markets@[i as int];
                                let (yv, nv) = choose|yv: BookView, nv: BookView|
                                    #![trigger stored(self.order_books@, m.yes_token_id@, yv), stored(self.order_books@, m.no_token_id@, nv)]
                                    stored(self.order_books@, m.yes_token_id@, yv) && stored(self.order_books@, m.no_token_id@, nv)
                                        && spread_emits(self.detector.config, yv, nv, now as int, self.detector.count_of(m.condition_id@));
                                self.lemma_stored_unique(m.yes_token_id@, yv, books.yes_book@);
                                self.lemma_stored_unique(m.no_token_id@, nv, books.no_book@);
                                assert(out@[out@.len() - 1].market == m);
                            }
                        }
                    },
                    None => {
                        proof {
                            if emits_for(self.order_books@, markets@[i as int], now, self.detector) {
                                let m = markets@[i as int];
                                let (yv, nv) = choose|yv: BookView, nv: BookView|
                                    #![trigger stored(self.order_books@, m.yes_token_id@, yv), stored(self.order_books@, m.no_token_id@, nv)]
                                    stored(self.order_books@, m.yes_token_id@, yv) && stored(self.order_books@, m.no_token_id@, nv)
                                        && spread_emits(self.detector.config, yv, nv, now as int, self.detector.count_of(m.condition_id@));
                                let a = choose|a: int| 0 <= a < self.order_books@.len() && self.order_books@[a].token_id@ == m.yes_token_id@ && self.order_books@[a]@ == yv;
                                let b = choose|b: int| 0 <= b < self.order_books@.len() && self.order_books@[b].token_id@ == m.no_token_id@ && self.order_books@[b]@ == nv;
                                assert(self.order_books@[a].token_id@ == m.yes_token_id@);
                                assert(self.order_books@[b].token_id@ == m.no_token_id@);
                            }
                        }
                    },
                }
            }
            proof {
                assert forall|j: int|
                    0 <= j < i + 1 && emits_for(self.order_books@, #[trigger] markets@[j], now, self.detector) implies has_signal_for(
                        out@,
                        markets@[j],
                    ) by {
                    if j < i {
                        let k = choose|k: int| 0 <= k < before.len() && before[k].market == markets@[j];
                        assert(out@[k] == before[k]);
                    }
                }
                assert forall|k: int| 0 <= k < out@.len() implies drawn_from(#[trigger] out@[k], markets@, now, self.detector, self.order_books@) by {
                    if k < before.len() {
                        assert(out@[k] == before[k]);
                    }
                }
            }
            i = i + 1;
        }
        out
    }

    /// With one book per token, a token's stored view is unique.
    proof fn lemma_stored_unique(&self, t: Seq<char>, v1: BookView, v2: BookView)
        requires
            self.wf(),
            stored(self.order_books@, t, v1),
            stored(self.order_books@, t, v2),
        ensures
            v1 == v2,
    {
        let a = choose|a: int| 0 <= a < self.order_books@.len() && self.order_books@[a].token_id@ == t && self.order_books@[a]@ == v1;
        let b = choose|b: int| 0 <= b < self.order_books@.len() && self.order_books@[b].token_id@ == t && self.order_books@[b]@ == v2;
        if a < b {
            assert(self.order_books@[a].token_id@ != self.order_books@[b].token_id@);
        } else if b < a {
            assert(self.order_books@[b].token_id@ != self.order_books@[a].token_id@);
        }
    }

    pub fn record_position(&mut self, market_id: &str)
        requires
            old(self).detector.count_of(market_id@) < usize::MAX,
        ensures
            final(self).detector.count_of(market_id@) == old(self).detector.count_of(market_id@) + 1,
            final(self).detector.config == old(self).detector.config,
            final(self).order_books == old(self).order_books,
    {
        self.detector.add_position(market_id);
    }

    pub fn close_position(&mut self, market_id: &str)
        ensures
            final(self).detector.count_of(market_id@) == if old(self).detector.count_of(market_id@) > 0 {
                old(self).detector.count_of(market_id@) - 1
            } else {
                0
            },
            final(self).detector.config == old(self).detector.config,
            final(self).order_books == old(self).order_books,
    {
        self.detector.remove_position(market_id);
    }

    pub fn config(&self) -> (r: SpreadConfig)
        ensures
            r == self.detector.config,
    {
        self.detector.config
    }
}

} // verus!
