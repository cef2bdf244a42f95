//! Cross-leg spread capture: buy YES and NO together when their combined
//! ask is below one unit by more than the fees.
use vstd::prelude::*;
use crate::fixed::{div_raw, Fixed, SCALE};
use crate::market::Market;
use crate::orderbook::{BookView, OrderBook};

verus! {

/// Largest magnitude admitted for an instant, in microseconds.
pub const MAX_INSTANT: i64 = 4_000_000_000_000_000_000;

/// Whole milliseconds elapsed from `t` to `now`, truncated toward zero.
pub open spec fn age_ms(now: int, t: int) -> int {
    crate::fixed::tdiv(now - t, 1000)
}

pub open spec fn instant_ok(t: int) -> bool {
    -MAX_INSTANT <= t <= MAX_INSTANT
}

/// Configuration of the spread detector.
#[derive(Clone, Copy, Debug)]
pub struct SpreadConfig {
    /// Minimum net profit as a fraction of the combined cost.
    pub min_profit_pct: Fixed,
    /// Fee rate charged on each leg.
    pub fee_rate_per_side: Fixed,
    /// Books older than this (milliseconds) are stale.
    pub max_book_age_ms: i64,
    /// Base size per leg.
    pub base_size_usd: Fixed,
    /// Maximum concurrent spread positions per market.
    pub max_positions: usize,
}

impl SpreadConfig {
    pub open spec fn wf(&self) -> bool {
        self.min_profit_pct.bounded() && self.fee_rate_per_side.bounded() && self.base_size_usd.bounded()
    }

    /// Two percent minimum profit, half a percent fee per side, two seconds
    /// of staleness, five per leg, fifty positions.
    pub fn default() -> (r: SpreadConfig)
        ensures
            r == default_spread_config(),
            r.wf(),
    {
        SpreadConfig {
            min_profit_pct: Fixed::from_raw(20_000),
            fee_rate_per_side: Fixed::from_raw(5_000),
            max_book_age_ms: 2000,
            base_size_usd: Fixed::from_raw(5_000_000),
            max_positions: 50,
        }
    }
}

/// Two percent minimum profit, half a percent fee per side, two seconds of
/// staleness, five per leg, fifty positions.
pub open spec fn default_spread_config() -> SpreadConfig {
    SpreadConfig {
        min_profit_pct: Fixed { raw: 20_000 },
        fee_rate_per_side: Fixed { raw: 5_000 },
        max_book_age_ms: 2000,
        base_size_usd: Fixed { raw: 5_000_000 },
        max_positions: 50,
    }
}

/// A detected spread opportunity.
#[derive(Clone, Debug)]
pub struct SpreadSignal {
    /// The market both legs belong to.
    pub market: Market,
    /// Best ask of the YES token.
    pub yes_price: Fixed,
    /// Best ask of the NO token.
    pub no_price: Fixed,
    /// `yes_price + no_price`.
    pub total_cost: Fixed,
    /// `1 − total_cost`.
    pub gross_profit: Fixed,
    /// Gross profit less the fees of both legs.
    pub net_profit: Fixed,
    /// `net_profit / total_cost`.
    pub profit_pct: Fixed,
    /// Size to buy on each leg.
    pub size_per_leg_usd: Fixed,
    /// Size at the YES best ask.
    pub yes_liquidity: Fixed,
    /// Size at the NO best ask.
    pub no_liquidity: Fixed,
    /// Detection instant, microseconds since the epoch.
    pub timestamp: i64,
}

impl SpreadSignal {
    /// Expected profit for a position of `size_per_leg` on each leg.
    pub fn expected_profit_usd(&self, size_per_leg: Fixed) -> (r: Fixed)
        requires
            self.net_profit.bounded(),
            size_per_leg.bounded(),
        ensures
            r.v() == crate::fixed::mul_raw(self.net_profit.v(), size_per_leg.v()),
    {
        proof {
            crate::fixed::lemma_mul_bounded(self.net_profit, size_per_leg);
        }
        self.net_profit.mul(size_per_leg)
    }
}

/// The YES and NO books of one market.
#[derive(Clone, Debug)]
pub struct MarketBooks {
    pub yes_book: OrderBook,
    pub no_book: OrderBook,
    /// The later of the two books' update instants.
    pub updated_at: i64,
}

impl MarketBooks {
    pub open spec fn wf(&self) -> bool {
        self.yes_book.wf() && self.no_book.wf() && instant_ok(self.yes_book.updated_at as int)
            && instant_ok(self.no_book.updated_at as int)
    }

    pub fn new(yes_book: OrderBook, no_book: OrderBook) -> (r: MarketBooks)
        ensures
            r.yes_book == yes_book,
            r.no_book == no_book,
            r.updated_at == if yes_book.updated_at >= no_book.updated_at { yes_book.updated_at } else { no_book.updated_at },
    {
        let updated_at = if yes_book.updated_at >= no_book.updated_at {
            yes_book.updated_at
        } else {
            no_book.updated_at
        };
        MarketBooks { yes_book, no_book, updated_at }
    }

    /// Age in milliseconds of the older of the two books at `now`.
    pub fn max_age_ms(&self, now: i64) -> (r: i64)
        requires
            self.wf(),
            instant_ok(now as int),
        ensures
            r == books_age_ms(self.yes_book@, self.no_book@, now as int),
    {
        let ya: i64 = now - self.yes_book.updated_at;
        let na: i64 = now - self.no_book.updated_at;
        let y: i64 = if ya >= 0 { ya / 1000 } else { -((-ya) / 1000) };
        let n: i64 = if na >= 0 { na / 1000 } else { -((-na) / 1000) };
        if y >= n {
            y
        } else {
            n
        }
    }

    pub fn yes_ask(&self) -> (r: Option<Fixed>)
        ensures
            r == if self.yes_book@.asks.len() > 0 { Some(self.yes_book@.asks[0].price) } else { None::<Fixed> },
    {
        self.yes_book.best_ask()
    }

    pub fn no_ask(&self) -> (r: Option<Fixed>)
        ensures
            r == if self.no_book@.asks.len() > 0 { Some(self.no_book@.asks[0].price) } else { None::<Fixed> },
    {
        self.no_book.best_ask()
    }

    pub fn yes_ask_size(&self) -> (r: Option<Fixed>)
        ensures
            r == if self.yes_book@.asks.len() > 0 { Some(self.yes_book@.asks[0].size) } else { None::<Fixed> },
    {
        self.yes_book.best_ask_size()
    }

    pub fn no_ask_size(&self) -> (r: Option<Fixed>)
        ensures
            r == if self.no_book@.asks.len() > 0 { Some(self.no_book@.asks[0].size) } else { None::<Fixed> },
    {
        self.no_book.best_ask_size()
    }

    /// Cost of buying one unit of each leg at the best asks.
    pub fn combined_cost(&self) -> (r: Option<Fixed>)
        requires
            self.wf(),
        ensures
            r.is_some() == (self.yes_book@.asks.len() > 0 && self.no_book@.asks.len() > 0),
            r.is_some() ==> r.unwrap().v() == self.yes_book@.asks[0].price.v() + self.no_book@.asks[0].price.v(),
    {
        match (self.yes_ask(), self.no_ask()) {
            (Some(y), Some(n)) => Some(y.add(n)),
            _ => None,
        }
    }
}

/// Age of the older of two books at `now`, in milliseconds.
pub open spec fn books_age_ms(yes: BookView, no: BookView, now: int) -> int {
    let y = age_ms(now, yes.updated_at);
    let n = age_ms(now, no.updated_at);
    if y >= n {
        y
    } else {
        n
    }
}

/// Figures of a spread opportunity, all in raw units.
pub struct SpreadFigures {
    pub total: int,
    pub gross: int,
    pub net: int,
    pub pct: int,
    pub size: int,
}

/// The figures a spread opportunity between these best asks carries.
pub open spec fn spread_figures(cfg: SpreadConfig, yes: BookView, no: BookView) -> SpreadFigures {
    let total = yes.asks[0].price.v() + no.asks[0].price.v();
    let gross = SCALE - total;
    let net = gross - 2 * cfg.fee_rate_per_side.v();
    let liq = if yes.asks[0].size.v() <= no.asks[0].size.v() { yes.asks[0].size.v() } else { no.asks[0].size.v() };
    let size = if cfg.base_size_usd.v() <= liq { cfg.base_size_usd.v() } else { liq };
    SpreadFigures { total, gross, net, pct: div_raw(net, total), size }
}

/// Whether the detector emits for these books at `now`: the market below its
/// position cap, both books fresh,
/// both asks present, combined cost positive and under one, net profit
/// positive, profit ratio at least the minimum, and at least one unit of
/// size available on both legs.
pub open spec fn spread_emits(cfg: SpreadConfig, yes: BookView, no: BookView, now: int, open_positions: int) -> bool {
    let f = spread_figures(cfg, yes, no);
    &&& open_positions < cfg.max_positions
    &&& books_age_ms(yes, no, now) <= cfg.max_book_age_ms
    &&& yes.asks.len() > 0
    &&& no.asks.len() > 0
    &&& f.total > 0
    &&& f.gross > 0
    &&& f.net > 0
    &&& f.pct >= cfg.min_profit_pct.v()
    &&& f.size >= SCALE
}

/// `s` is the signal the detector gives for these books and market.
pub open spec fn spread_signal_for(s: SpreadSignal, cfg: SpreadConfig, yes: BookView, no: BookView, now: i64, market: Market) -> bool {
    let f = spread_figures(cfg, yes, no);
    &&& s.market == market
    &&& s.yes_price == yes.asks[0].price
    &&& s.no_price == no.asks[0].price
    &&& s.total_cost.v() == f.total
    &&& s.gross_profit.v() == f.gross
    &&& s.net_profit.v() == f.net
    &&& s.profit_pct.v() == f.pct
    &&& s.size_per_leg_usd.v() == f.size
    &&& s.yes_liquidity == yes.asks[0].size
    &&& s.no_liquidity == no.asks[0].size
    &&& s.timestamp == now
    &&& s.total_cost.v() < SCALE
    &&& s.net_profit.v() > 0
    &&& s.profit_pct.v() >= cfg.min_profit_pct.v()
}

/// Spread detector with a per-market count of open spread positions.
pub struct SpreadDetector {
    pub config: SpreadConfig,
    /// Open spread positions per market condition id.
    pub active_positions: Vec<(String, usize)>,
}

impl SpreadDetector {
    pub fn new() -> (r: SpreadDetector)
        ensures
            r.config == default_spread_config(),
            r.active_positions@.len() == 0,
    {
        Self::with_config(SpreadConfig::default())
    }

    pub fn with_config(config: SpreadConfig) -> (r: SpreadDetector)
        ensures
            r.config == config,
            r.active_positions@.len() == 0,
    {
        SpreadDetector { config, active_positions: Vec::new() }
    }

    /// Detect a spread opportunity in `books` at instant `now`.
    pub fn detect(&self, market: &Market, books: &MarketBooks, now: i64) -> (r: Option<SpreadSignal>)
        requires
            self.config.wf(),
            books.wf(),
            instant_ok(now as int),
        ensures
            r.is_some() == spread_emits(self.config, books.yes_book@, books.no_book@, now as int, self.count_of(market.condition_id@)),
            r matches Some(sig) ==> spread_signal_for(sig, self.config, books.yes_book@, books.no_book@, now, *market),
    {
        if !self.can_take_position(market.condition_id.as_str()) {
            return None;
        }
        let age = books.max_age_ms(now);
        if age > self.config.max_book_age_ms {
            return None;
        }
        let yes_ask = match books.yes_ask() {
            Some(p) => p,
            None => return None,
        };
        let no_ask = match books.no_ask() {
            Some(p) => p,
            None => return None,
        };
        let total_cost = yes_ask.add(no_ask);
        if total_cost.raw <= 0 {
            return None;
        }
        let gross_profit = Fixed::one().sub(total_cost);
        if gross_profit.raw <= 0 {
            return None;
        }
        let total_fees = Fixed::from_raw(self.config.fee_rate_per_side.raw * 2);
        let net_profit = gross_profit.sub(total_fees);
        if net_profit.raw <= 0 {
            return None;
        }
        proof {
            let n = net_profit.v();
            let t = total_cost.v();
            assert(n * 1_000_000 <= 4_000_000_000_000 * 1_000_000) by (nonlinear_arith)
                requires 0 < n <= 4_000_000_000_000;
            assert((n * 1_000_000) / t <= n * 1_000_000) by (nonlinear_arith)
                requires n > 0, t > 0;
        }
        let profit_pct = net_profit.div(total_cost);
        if profit_pct.raw < self.config.min_profit_pct.raw {
            return None;
        }
        let yes_liquidity = books.yes_book.asks[0].size;
        let no_liquidity = books.no_book.asks[0].size;
        let min_liquidity = yes_liquidity.min(no_liquidity);
        let size_per_leg = self.config.base_size_usd.min(min_liquidity);
        if size_per_leg.raw < SCALE {
            return None;
        }
        Some(SpreadSignal {
            market: market.duplicate(),
            yes_price: yes_ask,
            no_price: no_ask,
            total_cost,
            gross_profit,
            net_profit,
            profit_pct,
            size_per_leg_usd: size_per_leg,
            yes_liquidity,
            no_liquidity,
            timestamp: now,
        })
    }

    /// Position of the counter for `market_id`, if any.
    fn find(&self, market_id: &String) -> (r: Option<usize>)
        ensures
            match r {
                Some(i) => i < self.active_positions@.len() && self.active_positions@[i as int].0@ == market_id@
                    && forall|k: int| 0 <= k < i ==> (#[trigger] self.active_positions@[k]).0@ != market_id@,
                None => forall|k: int| 0 <= k < self.active_positions@.len() ==> (#[trigger] self.active_positions@[k]).0@ != market_id@,
            },
    {
        let mut i: usize = 0;
        while i < self.active_positions.len()
            invariant
                0 <= i <= self.active_positions@.len(),
                forall|k: int| 0 <= k < i ==> (#[trigger] self.active_positions@[k]).0@ != market_id@,
            decreases self.active_positions@.len() - i,
        {
            if self.active_positions[i].0 == *market_id {
                return Some(i);
            }
            i = i + 1;
        }
        None
    }

    /// Open spread positions counted for `market_id` (the first entry for it).
    pub open spec fn count_of(&self, market_id: Seq<char>) -> int {
        count_in(self.active_positions@, market_id)
    }

    /// Record one more open position on `market_id`.
    pub fn add_position(&mut self, market_id: &str)
        requires
            old(self).count_of(market_id@) < usize::MAX,
        ensures
            final(self).config == old(self).config,
            final(self).count_of(market_id@) == old(self).count_of(market_id@) + 1,
    {
        let m = market_id.to_owned();
        match self.find(&m) {
            Some(i) => {
                let c = self.active_positions[i].1;
                proof { lemma_count_at(self.active_positions@, market_id@, i as int); }
                self.active_positions.set(i, (m, c + 1));
                proof { lemma_count_at(self.active_positions@, market_id@, i as int); }
            },
            None => {
                proof { lemma_count_absent(self.active_positions@, market_id@); }
                self.active_positions.push((m, 1));
                proof {
                    lemma_count_absent(old(self).active_positions@, market_id@);
                    lemma_count_at(self.active_positions@, market_id@, old(self).active_positions@.len() as int);
                }
            },
        }
    }

    /// Record one position fewer on `market_id` (never below zero).
    pub fn remove_position(&mut self, market_id: &str)
        ensures
            final(self).config == old(self).config,
            final(self).count_of(market_id@) == if old(self).count_of(market_id@) > 0 { old(self).count_of(market_id@) - 1 } else { 0 },
    {
        let m = market_id.to_owned();
        match self.find(&m) {
            Some(i) => {
                let c = self.active_positions[i].1;
                proof { lemma_count_at(self.active_positions@, market_id@, i as int); }
                if c > 0 {
                    self.active_positions.set(i, (m, c - 1));
                    proof { lemma_count_at(self.active_positions@, market_id@, i as int); }
                }
            },
            None => {
                proof { lemma_count_absent(self.active_positions@, market_id@); }
            },
        }
    }

    /// Whether another position may be opened on `market_id`.
    pub fn can_take_position(&self, market_id: &str) -> (r: bool)
        ensures
            r == (self.count_of(market_id@) < self.config.max_positions),
    {
        let m = market_id.to_owned();
        match self.find(&m) {
            Some(i) => {
                proof { lemma_count_at(self.active_positions@, market_id@, i as int); }
                self.active_positions[i].1 < self.config.max_positions
            },
            None => {
                proof { lemma_count_absent(self.active_positions@, market_id@); }
                0 < self.config.max_positions
            },
        }
    }

    pub fn config(&self) -> (r: &SpreadConfig)
        ensures
            *r == self.config,
    {
        &self.config
    }
}

/// Count recorded for `m`: that of the first entry for it, zero if none.
pub open spec fn count_in(s: Seq<(String, usize)>, m: Seq<char>) -> int
    decreases s.len(),
{
    if s.len() == 0 {
        0
    } else if s[0].0@ == m {
        s[0].1 as int
    } else {
        count_in(s.drop_first(), m)
    }
}

proof fn lemma_count_at(s: Seq<(String, usize)>, m: Seq<char>, i: int)
    requires
        0 <= i < s.len(),
        s[i].0@ == m,
        forall|k: int| 0 <= k < i ==> (#[trigger] s[k]).0@ != m,
    ensures
        count_in(s, m) == s[i].1,
    decreases i,
{
    if i > 0 {
        let t = s.drop_first();
        assert forall|k: int| 0 <= k < i - 1 implies (#[trigger] t[k]).0@ != m by {
            assert(t[k] == s[k + 1]);
        }
        lemma_count_at(t, m, i - 1);
    }
}

proof fn lemma_count_absent(s: Seq<(String, usize)>, m: Seq<char>)
    requires
        forall|k: int| 0 <= k < s.len() ==> (#[trigger] s[k]).0@ != m,
    ensures
        count_in(s, m) == 0,
    decreases s.len(),
{
    if s.len() > 0 {
        let t = s.drop_first();
        assert forall|k: int| 0 <= k < t.len() implies (#[trigger] t[k]).0@ != m by {
            assert(t[k] == s[k + 1]);
        }
        lemma_count_absent(t, m);
    }
}

} // verus!
