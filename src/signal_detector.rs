//! The live signal path: momentum on the spot price, then lag against the
//! YES book, turned into a trading signal.
use vstd::prelude::*;
use crate::fixed::{Fixed, SCALE};
use crate::lag::{lag_decision, LagDetector, LagDetectorConfig, LagSignal, NoLagReason, OddsState, TradeSide};
use crate::market::Market;
use crate::momentum::{detect_post, MomentumConfig, MomentumDetector, MomentumSignal};
use crate::orderbook::OrderBook;
use crate::signal::{Side, Signal, SignalReason};
use crate::spread::instant_ok;

verus! {

/// Odds read from the YES book: YES at the best ask, NO its complement.
pub open spec fn odds_of(book: OrderBook) -> OddsState {
    let yes = book.asks@[0].price;
    OddsState {
        yes_price: yes,
        no_price: Fixed { raw: (SCALE - yes.v()) as i64 },
        spread: if book.bids@.len() > 0 {
            Some(Fixed { raw: (book.asks@[0].price.v() - book.bids@[0].price.v()) as i64 })
        } else {
            None::<Fixed>
        },
        timestamp: book.updated_at,
    }
}

/// Edge left after fees and slippage, never negative.
pub open spec fn adjusted_edge_of(raw_edge: int, fee_rate: int, slippage: int) -> int {
    let e = raw_edge - (fee_rate + slippage);
    if e >= 0 { e } else { 0 }
}

/// Outcome of a detection, with the reason when there is no signal.
#[derive(Clone, Debug)]
pub enum DetectionResult {
    Signal(Signal),
    NoMomentum,
    NoLag(NoLagReason),
    NoOrderBook,
    /// Fewer than two prices in the window.
    NotReady,
}

/// Result `r` and detector state `d1` are what one detection on `market`'s
/// YES book `orderbook` at `now` yields from state `d0`: the momentum step,
/// then, when it emits and the book has an ask, the lag check and the
/// signal it gives.
pub open spec fn detection_post(
    d0: MomentumSignalDetector,
    market: Market,
    orderbook: OrderBook,
    now: i64,
    d1: MomentumSignalDetector,
    r: Option<Signal>,
) -> bool {
    exists|ms: Option<MomentumSignal>| {
        &&& #[trigger] detect_post(d0.momentum_detector, market.open_price, d1.momentum_detector, ms)
        &&& r.is_some() == (ms.is_some() && orderbook.asks@.len() > 0 && lag_decision(
            d0.lag_detector.config,
            ms.unwrap(),
            odds_of(orderbook),
            market,
            now as int,
        ).is_ok())
        &&& r.is_some() ==> {
            let (side, lag, expected) = lag_decision(
                d0.lag_detector.config,
                ms.unwrap(),
                odds_of(orderbook),
                market,
                now as int,
            ).unwrap();
            let s = r.unwrap();
            &&& s.side == match side {
                TradeSide::Yes => Side::Yes,
                TradeSide::No => Side::No,
            }
            &&& s.fair_value.v() == expected
            &&& s.market_price == orderbook.asks@[0].price
            &&& s.adjusted_edge.v() == adjusted_edge_of(lag, d0.fee_rate.v(), d0.slippage_estimate.v())
            &&& s.market == market
            &&& s.timestamp == now
        }
    }
}

/// Momentum and lag detection combined into trading signals.
pub struct MomentumSignalDetector {
    pub momentum_detector: MomentumDetector,
    pub lag_detector: LagDetector,
    pub fee_rate: Fixed,
    pub slippage_estimate: Fixed,
}

impl MomentumSignalDetector {
    pub open spec fn wf(&self) -> bool {
        &&& self.momentum_detector.wf()
        &&& self.lag_detector.config.wf()
        &&& self.fee_rate.bounded()
        &&& self.slippage_estimate.bounded()
    }

    /// Default detectors with the given costs.
    pub fn new(fee_rate: Fixed, slippage_estimate: Fixed) -> (r: MomentumSignalDetector)
        requires
            fee_rate.bounded(),
            slippage_estimate.bounded(),
        ensures
            r.wf(),
            r.momentum_detector.prices@.len() == 0,
            r.fee_rate == fee_rate,
            r.slippage_estimate == slippage_estimate,
    {
        MomentumSignalDetector {
            momentum_detector: MomentumDetector::with_defaults(),
            lag_detector: LagDetector::new(),
            fee_rate,
            slippage_estimate,
        }
    }

    pub fn with_configs(
        momentum_config: MomentumConfig,
        lag_config: LagDetectorConfig,
        fee_rate: Fixed,
        slippage_estimate: Fixed,
    ) -> (r: MomentumSignalDetector)
        requires
            momentum_config.wf(),
            lag_config.wf(),
            fee_rate.bounded(),
            slippage_estimate.bounded(),
        ensures
            r.wf(),
            r.momentum_detector.config == momentum_config,
            r.momentum_detector.prices@.len() == 0,
            r.lag_detector.config == lag_config,
            r.fee_rate == fee_rate,
            r.slippage_estimate == slippage_estimate,
    {
        MomentumSignalDetector {
            momentum_detector: MomentumDetector::new(momentum_config),
            lag_detector: LagDetector::with_config(lag_config),
            fee_rate,
            slippage_estimate,
        }
    }

    /// Detectors built from the configuration sections; the lag detector
    /// keeps the default sensitivity of ten.
    pub fn from_configs(
        momentum_config: &crate::config::MomentumConfig,
        lag_config: &crate::config::LagConfig,
        fee_rate: Fixed,
        slippage_estimate: Fixed,
    ) -> (r: MomentumSignalDetector)
        requires
            momentum_config.window_seconds <= crate::momentum::MAX_PERIOD_SECS,
            momentum_config.confirmation_seconds <= crate::momentum::MAX_PERIOD_SECS,
            0 < momentum_config.min_move_pct.v(),
            momentum_config.min_move_pct.bounded(),
            momentum_config.max_move_pct.bounded(),
            lag_config.min_lag_cents.bounded(),
            lag_config.max_yes_for_up.bounded(),
            lag_config.min_yes_for_down.bounded(),
            lag_config.min_seconds_after_open <= i64::MAX,
            lag_config.max_seconds_before_close <= i64::MAX,
            fee_rate.bounded(),
            slippage_estimate.bounded(),
        ensures
            r.wf(),
            r.momentum_detector.config.window_seconds == momentum_config.window_seconds,
            r.momentum_detector.config.min_move_pct == momentum_config.min_move_pct,
            r.momentum_detector.config.max_move_pct == momentum_config.max_move_pct,
            r.momentum_detector.config.confirmation_seconds == momentum_config.confirmation_seconds,
            r.lag_detector.config.min_lag_cents == lag_config.min_lag_cents,
            r.lag_detector.config.max_yes_for_up == lag_config.max_yes_for_up,
            r.lag_detector.config.min_yes_for_down == lag_config.min_yes_for_down,
            r.lag_detector.config.min_seconds_after_open == lag_config.min_seconds_after_open,
            r.lag_detector.config.max_seconds_before_close == lag_config.max_seconds_before_close,
            r.lag_detector.config.price_sensitivity.v() == 10 * SCALE,
    {
        let momentum = MomentumConfig {
            window_seconds: momentum_config.window_seconds,
            min_move_pct: momentum_config.min_move_pct,
            max_move_pct: momentum_config.max_move_pct,
            confirmation_seconds: momentum_config.confirmation_seconds,
        };
        let lag = LagDetectorConfig {
            min_lag_cents: lag_config.min_lag_cents,
            max_yes_for_up: lag_config.max_yes_for_up,
            min_yes_for_down: lag_config.min_yes_for_down,
            min_seconds_after_open: lag_config.min_seconds_after_open as i64,
            max_seconds_before_close: lag_config.max_seconds_before_close as i64,
            price_sensitivity: Fixed::from_raw(10 * SCALE),
        };
        Self::with_configs(momentum, lag, fee_rate, slippage_estimate)
    }

    /// Feed one spot price into the momentum window.
    pub fn update_price(&mut self, timestamp: i64, price: Fixed)
        requires
            old(self).wf(),
            price.bounded(),
            instant_ok(timestamp as int),
        ensures
            final(self).wf(),
            final(self).lag_detector == old(self).lag_detector,
            final(self).fee_rate == old(self).fee_rate,
            final(self).slippage_estimate == old(self).slippage_estimate,
    {
        self.momentum_detector.update(timestamp, price);
    }

    /// Odds from the YES book, absent when it has no ask.
    pub fn get_odds_state(&self, orderbook: &OrderBook) -> (r: Option<OddsState>)
        requires
            orderbook.wf(),
        ensures
            r.is_some() == (orderbook.asks@.len() > 0),
            r.is_some() ==> r.unwrap() == odds_of(*orderbook),
    {
        let yes_price = match orderbook.best_ask() {
            Some(p) => p,
            None => return None,
        };
        let spread = orderbook.spread();
        Some(OddsState { yes_price, no_price: Fixed::one().sub(yes_price), spread, timestamp: orderbook.updated_at })
    }

    /// The trading signal for a lag: the lag's side, expected price as fair
    /// value, quoted YES price as market price, edge net of costs, and the
    /// reason by how long the market has been open.
    pub fn lag_signal_to_signal(&self, lag: &LagSignal, market: &Market) -> (r: Signal)
        requires
            self.wf(),
            lag.expected_price.bounded(),
            lag.actual_price.bounded(),
            -4_000_000_000_000 <= lag.lag_magnitude.v() <= 4_000_000_000_000,
        ensures
            r.market == *market,
            r.side == match lag.side {
                TradeSide::Yes => Side::Yes,
                TradeSide::No => Side::No,
            },
            r.fair_value == lag.expected_price,
            r.market_price == lag.actual_price,
            r.raw_edge.v() == lag.expected_price.v() - lag.actual_price.v(),
            r.adjusted_edge.v() == adjusted_edge_of(lag.lag_magnitude.v(), self.fee_rate.v(), self.slippage_estimate.v()),
            r.confidence == lag.confidence,
            r.reason == if lag.seconds_since_open < 120 { SignalReason::PostResetLag } else { SignalReason::SpotDivergence },
            r.timestamp == lag.detected_at,
    {
        let side = match lag.side {
            TradeSide::Yes => Side::Yes,
            TradeSide::No => Side::No,
        };
        let costs = self.fee_rate.add(self.slippage_estimate);
        let adjusted_edge = lag.lag_magnitude.sub(costs).max(Fixed::zero());
        let reason = if lag.seconds_since_open < 120 {
            SignalReason::PostResetLag
        } else {
            SignalReason::SpotDivergence
        };
        Signal::new(
            market.duplicate(),
            side,
            lag.expected_price,
            lag.actual_price,
            adjusted_edge,
            lag.confidence,
            reason,
            lag.detected_at,
        )
    }

    /// Advance momentum against the market's open price; when it emits and
    /// the YES book has an ask, run the lag check at `now` and turn a lag
    /// into a signal.
    pub fn detect_at(&mut self, market: &Market, orderbook: &OrderBook, now: i64) -> (r: Option<Signal>)
        requires
            old(self).wf(),
            market.open_price.bounded(),
            orderbook.wf(),
            instant_ok(now as int),
            instant_ok(market.open_time as int),
            instant_ok(market.close_time as int),
        ensures
            final(self).wf(),
            final(self).lag_detector == old(self).lag_detector,
            final(self).fee_rate == old(self).fee_rate,
            final(self).slippage_estimate == old(self).slippage_estimate,
            final(self).momentum_detector.prices == old(self).momentum_detector.prices,
            final(self).momentum_detector.config == old(self).momentum_detector.config,
            detection_post(*old(self), *market, *orderbook, now, *final(self), r),
    {
        let ms = self.momentum_detector.detect(market.open_price);
        let momentum = match ms {
            Some(m) => m,
            None => return None,
        };
        let odds = match self.get_odds_state(orderbook) {
            Some(o) => o,
            None => return None,
        };
        match self.lag_detector.detect_at(&momentum, &odds, market, now) {
            Ok(Some(lag)) => {
                proof {
                    crate::fixed::lemma_mul_bounded(momentum.move_pct, self.lag_detector.config.price_sensitivity);
                }
                Some(self.lag_signal_to_signal(&lag, market))
            },
            _ => None,
        }
    }

    /// As `detect_at`, at the wall clock's current instant.
    pub fn detect(&mut self, market: &Market, orderbook: &OrderBook) -> (r: Option<Signal>)
        requires
            old(self).wf(),
            market.open_price.bounded(),
            orderbook.wf(),
            instant_ok(market.open_time as int),
            instant_ok(market.close_time as int),
        ensures
            final(self).wf(),
            final(self).lag_detector == old(self).lag_detector,
            final(self).momentum_detector.prices == old(self).momentum_detector.prices,
            final(self).momentum_detector.config == old(self).momentum_detector.config,
            exists|now: i64| instant_ok(now as int) && #[trigger] detection_post(*old(self), *market, *orderbook, now, *final(self), r),
    {
        let clock = crate::clock::now_micros();
        let now = if clock < -crate::spread::MAX_INSTANT {
            -crate::spread::MAX_INSTANT
        } else if clock > crate::spread::MAX_INSTANT {
            crate::spread::MAX_INSTANT
        } else {
            clock
        };
        let r = self.detect_at(market, orderbook, now);
        proof {
            assert(detection_post(*old(self), *market, *orderbook, now, *self, r));
        }
        r
    }

    /// As `detect_at`, but saying why no signal came: too few prices, no
    /// momentum, no ask on the YES book, or the lag check's reason.
    pub fn detect_with_reason_at(&mut self, market: &Market, orderbook: &OrderBook, now: i64) -> (r: DetectionResult)
        requires
            old(self).wf(),
            market.open_price.bounded(),
            orderbook.wf(),
            instant_ok(now as int),
            instant_ok(market.open_time as int),
            instant_ok(market.close_time as int),
        ensures
            final(self).wf(),
            final(self).momentum_detector.prices == old(self).momentum_detector.prices,
            final(self).momentum_detector.config == old(self).momentum_detector.config,
            final(self).lag_detector == old(self).lag_detector,
            old(self).momentum_detector.prices@.len() < 2 ==> (r matches DetectionResult::NotReady) && *final(self) == *old(self),
            old(self).momentum_detector.prices@.len() >= 2 ==> exists|ms: Option<MomentumSignal>| {
                &&& #[trigger] detect_post(old(self).momentum_detector, market.open_price, final(self).momentum_detector, ms)
                &&& match ms {
                    None => r matches DetectionResult::NoMomentum,
                    Some(m) => if orderbook.asks@.len() == 0 {
                        r matches DetectionResult::NoOrderBook
                    } else {
                        match lag_decision(old(self).lag_detector.config, m, odds_of(*orderbook), *market, now as int) {
                            Err(reason) => r matches DetectionResult::NoLag(x) && x == reason,
                            Ok(_) => r matches DetectionResult::Signal(_),
                        }
                    },
                }
            },
    {
        if !self.is_ready() {
            return DetectionResult::NotReady;
        }
        let ms = self.momentum_detector.detect(market.open_price);
        let momentum = match ms {
            Some(m) => m,
            None => return DetectionResult::NoMomentum,
        };
        let odds = match self.get_odds_state(orderbook) {
            Some(o) => o,
            None => return DetectionResult::NoOrderBook,
        };
        match self.lag_detector.detect_at(&momentum, &odds, market, now) {
            Ok(Some(lag)) => DetectionResult::Signal(self.lag_signal_to_signal(&lag, market)),
            Ok(None) => DetectionResult::NoLag(NoLagReason::LagTooSmall),
            Err(reason) => DetectionResult::NoLag(reason),
        }
    }

    pub fn is_ready(&self) -> (r: bool)
        ensures
            r == (self.momentum_detector.prices@.len() >= 2),
    {
        self.momentum_detector.is_ready()
    }

    pub fn sample_count(&self) -> (r: usize)
        ensures
            r == self.momentum_detector.prices@.len(),
    {
        self.momentum_detector.sample_count()
    }

    pub fn clear(&mut self)
        requires
            old(self).wf(),
        ensures
            final(self).wf(),
            final(self).momentum_detector.prices@.len() == 0,
            final(self).lag_detector == old(self).lag_detector,
    {
        self.momentum_detector.clear();
    }
}

} // verus!
