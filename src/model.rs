//! Fair-value signals: the exact parts of the fair-value model and the edge
//! decision that follows it, and the volatility estimator's window.
use vstd::prelude::*;
use crate::fixed::{Fixed, SCALE};
use crate::market::Market;
use crate::orderbook::OrderBook;
use crate::signal::{Side, Signal, SignalReason};
use crate::spread::instant_ok;
use crate::market::MICROS_PER_SEC;

verus! {

/// Fair probabilities of the two outcomes.
#[derive(Clone, Copy, Debug)]
pub struct FairValue {
    pub yes_prob: Fixed,
    pub no_prob: Fixed,
    pub confidence: Fixed,
}

/// Geometric Brownian motion fair-value model. Its probability needs a
/// normal CDF in floating point; only the exact limit case lives here.
#[derive(Clone, Copy, Debug)]
pub struct GbmModel {}

impl GbmModel {
    pub fn new() -> (r: GbmModel) {
        GbmModel {}
    }

    /// At expiry or with zero volatility the outcome is certain: YES
    /// exactly when the price is at or above the open.
    pub fn deterministic(&self, current_price: Fixed, open_price: Fixed) -> (r: FairValue)
        ensures
            r.yes_prob.v() == if current_price.v() >= open_price.v() { SCALE as int } else { 0 },
            r.no_prob.v() == SCALE - r.yes_prob.v(),
            r.confidence.v() == SCALE,
    {
        let yes = if current_price.raw >= open_price.raw {
            Fixed::one()
        } else {
            Fixed::zero()
        };
        FairValue { yes_prob: yes, no_prob: Fixed::one().sub(yes), confidence: Fixed::one() }
    }
}

/// Edge decision from a fair value: the side with the larger edge against
/// the YES ask (NO priced at its complement), net of costs.
pub struct SignalDetector {
    pub fee_rate: Fixed,
    pub slippage_estimate: Fixed,
}

/// The side, fair probability, market price and raw edge a fair value
/// gives against a YES ask.
pub open spec fn edge_choice(fair: FairValue, yes_ask: int) -> (Side, int, int, int) {
    let no_bid = SCALE - yes_ask;
    let yes_edge = fair.yes_prob.v() - yes_ask;
    let no_edge = fair.no_prob.v() - no_bid;
    if yes_edge > no_edge {
        (Side::Yes, fair.yes_prob.v(), yes_ask, yes_edge)
    } else {
        (Side::No, fair.no_prob.v(), no_bid, no_edge)
    }
}

impl SignalDetector {
    pub open spec fn wf(&self) -> bool {
        self.fee_rate.bounded() && self.slippage_estimate.bounded()
    }

    pub fn new(fee_rate: Fixed, slippage_estimate: Fixed) -> (r: SignalDetector)
        ensures
            r.fee_rate == fee_rate,
            r.slippage_estimate == slippage_estimate,
    {
        SignalDetector { fee_rate, slippage_estimate }
    }

    /// Within two minutes of the open.
    pub fn is_post_reset(&self, market: &Market, now: i64) -> (r: bool)
        requires
            instant_ok(now as int),
            instant_ok(market.open_time as int),
        ensures
            r == (now - market.open_time < 120 * MICROS_PER_SEC),
    {
        now - market.open_time < 120 * MICROS_PER_SEC
    }

    /// A signal when the market is still open at `now`, the YES book has an
    /// ask, and the better edge stays positive after costs.
    pub fn detect(&self, market: &Market, fair: FairValue, orderbook: &OrderBook, now: i64) -> (r: Option<Signal>)
        requires
            self.wf(),
            fair.yes_prob.bounded(),
            fair.no_prob.bounded(),
            orderbook.wf(),
            instant_ok(now as int),
            instant_ok(market.open_time as int),
            instant_ok(market.close_time as int),
        ensures
            r.is_some() == (market.close_time > now && orderbook.asks@.len() > 0 && edge_choice(fair, orderbook.asks@[0].price.v()).3
                - (self.fee_rate.v() + self.slippage_estimate.v()) > 0),
            r.is_some() ==> {
                let (side, prob, price, raw) = edge_choice(fair, orderbook.asks@[0].price.v());
                let s = r.unwrap();
                &&& s.side == side
                &&& s.fair_value.v() == prob
                &&& s.market_price.v() == price
                &&& s.adjusted_edge.v() == raw - (self.fee_rate.v() + self.slippage_estimate.v())
                &&& s.confidence == fair.confidence
                &&& s.reason == if now - market.open_time < 120 * MICROS_PER_SEC {
                    SignalReason::PostResetLag
                } else if raw > 20_000 {
                    SignalReason::SpotDivergence
                } else {
                    SignalReason::VolatilitySpike
                }
                &&& s.timestamp == now
            },
    {
        if market.close_time <= now {
            return None;
        }
        let yes_ask = match orderbook.best_ask() {
            Some(p) => p,
            None => return None,
        };
        let no_bid = Fixed::one().sub(yes_ask);
        let yes_edge = fair.yes_prob.sub(yes_ask);
        let no_edge = fair.no_prob.sub(no_bid);
        let (side, raw_edge, fair_prob, market_price) = if yes_edge.raw > no_edge.raw {
            (Side::Yes, yes_edge, fair.yes_prob, yes_ask)
        } else {
            (Side::No, no_edge, fair.no_prob, no_bid)
        };
        let costs = self.fee_rate.add(self.slippage_estimate);
        let adjusted_edge = raw_edge.sub(costs);
        if adjusted_edge.raw <= 0 {
            return None;
        }
        let reason = if self.is_post_reset(market, now) {
            SignalReason::PostResetLag
        } else if raw_edge.raw > 20_000 {
            SignalReason::SpotDivergence
        } else {
            SignalReason::VolatilitySpike
        };
        Some(Signal::new(market.duplicate(), side, fair_prob, market_price, adjusted_edge, fair.confidence, reason, now))
    }
}

/// Rolling window of observations for the volatility estimate (computed in
/// floating point outside the library).
pub struct VolatilityEstimator {
    /// Window length, microseconds.
    pub window: i64,
    /// Observations `(instant, price)`, oldest first.
    pub prices: Vec<(i64, Fixed)>,
}

impl VolatilityEstimator {
    pub fn new(window: i64) -> (r: VolatilityEstimator)
        requires
            0 <= window <= crate::recorder::MAX_INTERVAL_US,
        ensures
            r.window == window,
            r.prices@.len() == 0,
    {
        VolatilityEstimator { window, prices: Vec::new() }
    }

    /// Add an observation, then drop every observation older than
    /// `timestamp − window`.
    pub fn update(&mut self, timestamp: i64, price: Fixed)
        requires
            0 <= old(self).window <= crate::recorder::MAX_INTERVAL_US,
            instant_ok(timestamp as int),
        ensures
            final(self).window == old(self).window,
            final(self).prices@ == crate::momentum::recent(old(self).prices@.push((timestamp, price)), (timestamp - old(self).window) as i64),
    {
        self.prices.push((timestamp, price));
        let cutoff: i64 = timestamp - self.window;
        self.prices = crate::momentum::retain_recent(&self.prices, cutoff);
    }

    pub fn sample_count(&self) -> (r: usize)
        ensures
            r == self.prices@.len(),
    {
        self.prices.len()
    }
}

} // verus!
