//! Lag between confirmed spot momentum and the prediction market's odds.
use vstd::prelude::*;
use crate::fixed::{mul_raw, tdiv, Fixed, SCALE};
use crate::market::{secs_between, whole_secs, Market};
use crate::momentum::{MomentumDirection, MomentumSignal};
use crate::spread::instant_ok;

verus! {

/// Which token to buy.
#[derive(Clone, Copy, Debug, PartialEq, Eq, Structural)]
pub enum TradeSide {
    /// Buy YES (bullish).
    Yes,
    /// Buy NO (bearish).
    No,
}

impl TradeSide {
    pub fn opposite(&self) -> (r: TradeSide)
        ensures
            r != *self,
    {
        match self {
            TradeSide::Yes => TradeSide::No,
            TradeSide::No => TradeSide::Yes,
        }
    }
}

/// A snapshot of the market's odds.
#[derive(Clone, Copy, Debug)]
pub struct OddsState {
    pub yes_price: Fixed,
    pub no_price: Fixed,
    /// Bid/ask spread, when known.
    pub spread: Option<Fixed>,
    /// Snapshot instant, microseconds since the epoch.
    pub timestamp: i64,
}

impl OddsState {
    pub fn new(yes_price: Fixed, no_price: Fixed, timestamp: i64) -> (r: OddsState)
        ensures
            r.yes_price == yes_price,
            r.no_price == no_price,
            r.spread.is_none(),
            r.timestamp == timestamp,
    {
        OddsState { yes_price, no_price, spread: None, timestamp }
    }

    /// Odds from the YES price alone: NO is `1 − YES`.
    pub fn from_yes_price(yes_price: Fixed, timestamp: i64) -> (r: OddsState)
        requires
            yes_price.bounded(),
        ensures
            r.yes_price == yes_price,
            r.no_price.v() == SCALE - yes_price.v(),
            r.spread.is_none(),
            r.timestamp == timestamp,
    {
        OddsState { yes_price, no_price: Fixed::one().sub(yes_price), spread: None, timestamp }
    }

    pub fn is_neutral(&self, min_yes: Fixed, max_yes: Fixed) -> (r: bool)
        ensures
            r == (min_yes.v() <= self.yes_price.v() <= max_yes.v()),
    {
        self.yes_price.raw >= min_yes.raw && self.yes_price.raw <= max_yes.raw
    }

    pub fn favors_yes(&self, threshold: Fixed) -> (r: bool)
        ensures
            r == (self.yes_price.v() > threshold.v()),
    {
        self.yes_price.raw > threshold.raw
    }

    pub fn favors_no(&self, threshold: Fixed) -> (r: bool)
        ensures
            r == (self.yes_price.v() < threshold.v()),
    {
        self.yes_price.raw < threshold.raw
    }
}

/// Confidence of a lag signal: `(min(lag / 0.20, 1) + momentum_confidence) / 2`.
pub open spec fn lag_confidence(lag: int, momentum_confidence: int) -> int {
    let lc = if 5 * lag <= SCALE { 5 * lag } else { SCALE as int };
    tdiv(lc + momentum_confidence, 2)
}

/// A detected lag: the odds have not yet followed a confirmed move.
#[derive(Clone, Copy, Debug)]
pub struct LagSignal {
    pub side: TradeSide,
    /// How far the quoted YES price trails the expected one.
    pub lag_magnitude: Fixed,
    /// Expected YES price given the move.
    pub expected_price: Fixed,
    /// Quoted YES price.
    pub actual_price: Fixed,
    pub momentum: MomentumSignal,
    pub odds: OddsState,
    pub confidence: Fixed,
    /// Detection instant, microseconds since the epoch.
    pub detected_at: i64,
    pub seconds_since_open: i64,
    pub seconds_until_close: i64,
}

impl LagSignal {
    pub fn new(
        side: TradeSide,
        lag_magnitude: Fixed,
        expected_price: Fixed,
        actual_price: Fixed,
        momentum: MomentumSignal,
        odds: OddsState,
        seconds_since_open: i64,
        seconds_until_close: i64,
        detected_at: i64,
    ) -> (r: LagSignal)
        requires
            -4_000_000_000_000 <= lag_magnitude.v() <= 4_000_000_000_000,
            momentum.confidence.bounded(),
        ensures
            r.side == side,
            r.lag_magnitude == lag_magnitude,
            r.expected_price == expected_price,
            r.actual_price == actual_price,
            r.momentum == momentum,
            r.odds == odds,
            r.confidence.v() == lag_confidence(lag_magnitude.v(), momentum.confidence.v()),
            r.detected_at == detected_at,
            r.seconds_since_open == seconds_since_open,
            r.seconds_until_close == seconds_until_close,
    {
        let five = Fixed::from_raw(lag_magnitude.raw * 5);
        let lag_conf = five.min(Fixed::one());
        let s: i64 = lag_conf.raw + momentum.confidence.raw;
        let c: i64 = if s >= 0 {
            s / 2
        } else {
            -((-s) / 2)
        };
        LagSignal {
            side,
            lag_magnitude,
            expected_price,
            actual_price,
            momentum,
            odds,
            confidence: Fixed::from_raw(c),
            detected_at,
            seconds_since_open,
            seconds_until_close,
        }
    }

    pub fn is_yes(&self) -> (r: bool)
        ensures
            r == (self.side == TradeSide::Yes),
    {
        self.side == TradeSide::Yes
    }

    pub fn is_no(&self) -> (r: bool)
        ensures
            r == (self.side == TradeSide::No),
    {
        self.side == TradeSide::No
    }

    pub fn entry_price(&self) -> (r: Fixed)
        ensures
            r == self.actual_price,
    {
        self.actual_price
    }

    /// Between five and twelve minutes after the open.
    pub fn is_prime_window(&self) -> (r: bool)
        ensures
            r == (300 <= self.seconds_since_open <= 720),
    {
        self.seconds_since_open >= 300 && self.seconds_since_open <= 720
    }
}

/// Why no lag signal was produced.
#[derive(Clone, Copy, Debug, PartialEq, Eq, Structural)]
pub enum NoLagReason {
    NoMomentum,
    OddsAlreadyMoved,
    LagTooSmall,
    TooEarlyInWindow,
    TooCloseToClose,
    NoOrderBookData,
    MarketNotActive,
}

impl NoLagReason {
    /// Human-readable description.
    pub fn message(&self) -> (r: String)
        ensures
            r@ == match self {
                NoLagReason::NoMomentum => "No momentum detected"@,
                NoLagReason::OddsAlreadyMoved => "Odds already reflect momentum"@,
                NoLagReason::LagTooSmall => "Lag below minimum threshold"@,
                NoLagReason::TooEarlyInWindow => "Too early in market window"@,
                NoLagReason::TooCloseToClose => "Too close to market close"@,
                NoLagReason::NoOrderBookData => "No order book data available"@,
                NoLagReason::MarketNotActive => "Market not active"@,
            },
    {
        match self {
            NoLagReason::NoMomentum => "No momentum detected".to_owned(),
            NoLagReason::OddsAlreadyMoved => "Odds already reflect momentum".to_owned(),
            NoLagReason::LagTooSmall => "Lag below minimum threshold".to_owned(),
            NoLagReason::TooEarlyInWindow => "Too early in market window".to_owned(),
            NoLagReason::TooCloseToClose => "Too close to market close".to_owned(),
            NoLagReason::NoOrderBookData => "No order book data available".to_owned(),
            NoLagReason::MarketNotActive => "Market not active".to_owned(),
        }
    }
}

/// Configuration of the lag detector.
#[derive(Clone, Copy, Debug)]
pub struct LagDetectorConfig {
    /// Smallest lag worth trading.
    pub min_lag_cents: Fixed,
    /// On an up move, no trade once YES is at or above this.
    pub max_yes_for_up: Fixed,
    /// On a down move, no trade once YES is at or below this.
    pub min_yes_for_down: Fixed,
    pub min_seconds_after_open: i64,
    pub max_seconds_before_close: i64,
    /// Expected YES-price change per unit of relative move, e.g. 10: a 1 %
    /// move shifts the expected price by ten cents.
    pub price_sensitivity: Fixed,
}

/// Ten cents of lag, YES at most 0.60 on the way up and at least 0.40 on
/// the way down, one minute after open, two minutes before close,
/// sensitivity ten.
pub open spec fn default_lag_detector_config() -> LagDetectorConfig {
    LagDetectorConfig {
        min_lag_cents: Fixed { raw: 100_000 },
        max_yes_for_up: Fixed { raw: 600_000 },
        min_yes_for_down: Fixed { raw: 400_000 },
        min_seconds_after_open: 60,
        max_seconds_before_close: 120,
        price_sensitivity: Fixed { raw: 10_000_000 },
    }
}

impl LagDetectorConfig {
    pub open spec fn wf(&self) -> bool {
        self.min_lag_cents.bounded() && self.max_yes_for_up.bounded() && self.min_yes_for_down.bounded()
            && self.price_sensitivity.bounded()
    }

    pub fn default() -> (r: LagDetectorConfig)
        ensures
            r == default_lag_detector_config(),
            r.wf(),
    {
        LagDetectorConfig {
            min_lag_cents: Fixed::from_raw(100_000),
            max_yes_for_up: Fixed::from_raw(600_000),
            min_yes_for_down: Fixed::from_raw(400_000),
            min_seconds_after_open: 60,
            max_seconds_before_close: 120,
            price_sensitivity: Fixed::from_raw(10_000_000),
        }
    }
}

/// Expected YES price after a move of relative size `move_pct`:
/// `0.50 + move_pct · sensitivity`, clamped to `[0.10, 0.90]`.
pub open spec fn expected_price_of(move_pct: int, sensitivity: int) -> int {
    let e = 500_000 + mul_raw(move_pct, sensitivity);
    if e < 100_000 {
        100_000
    } else if e > 900_000 {
        900_000
    } else {
        e
    }
}

/// Outcome of a lag check: the side, the lag and the expected YES price, or
/// the reason for rejection. Checks run in order: too early, too close to
/// close, inactive market, odds already moved, lag too small.
pub open spec fn lag_decision(
    cfg: LagDetectorConfig,
    m: MomentumSignal,
    odds: OddsState,
    market: Market,
    now: int,
) -> Result<(TradeSide, int, int), NoLagReason> {
    let since_open = whole_secs(market.open_time as int, now);
    let until_close = whole_secs(now, market.close_time as int);
    let expected = expected_price_of(m.move_pct.v(), cfg.price_sensitivity.v());
    let yes = odds.yes_price.v();
    if since_open < cfg.min_seconds_after_open {
        Err(NoLagReason::TooEarlyInWindow)
    } else if until_close < cfg.max_seconds_before_close {
        Err(NoLagReason::TooCloseToClose)
    } else if now < market.open_time || now > market.close_time {
        Err(NoLagReason::MarketNotActive)
    } else if m.direction == MomentumDirection::Up {
        if yes >= cfg.max_yes_for_up.v() {
            Err(NoLagReason::OddsAlreadyMoved)
        } else if expected - yes < cfg.min_lag_cents.v() {
            Err(NoLagReason::LagTooSmall)
        } else {
            Ok((TradeSide::Yes, expected - yes, expected))
        }
    } else {
        if yes <= cfg.min_yes_for_down.v() {
            Err(NoLagReason::OddsAlreadyMoved)
        } else if yes - (SCALE - expected) < cfg.min_lag_cents.v() {
            Err(NoLagReason::LagTooSmall)
        } else {
            Ok((TradeSide::No, yes - (SCALE - expected), SCALE - expected))
        }
    }
}

impl LagDetectorConfig {
    /// Settings from the configuration section, with sensitivity ten.
    pub fn from(config: &crate::config::LagConfig) -> (r: LagDetectorConfig)
        requires
            config.min_seconds_after_open <= i64::MAX,
            config.max_seconds_before_close <= i64::MAX,
        ensures
            r.min_lag_cents == config.min_lag_cents,
            r.max_yes_for_up == config.max_yes_for_up,
            r.min_yes_for_down == config.min_yes_for_down,
            r.min_seconds_after_open == config.min_seconds_after_open,
            r.max_seconds_before_close == config.max_seconds_before_close,
            r.price_sensitivity.v() == 10 * SCALE,
    {
        LagDetectorConfig {
            min_lag_cents: config.min_lag_cents,
            max_yes_for_up: config.max_yes_for_up,
            min_yes_for_down: config.min_yes_for_down,
            min_seconds_after_open: config.min_seconds_after_open as i64,
            max_seconds_before_close: config.max_seconds_before_close as i64,
            price_sensitivity: Fixed::from_raw(10 * SCALE),
        }
    }
}

/// Compares confirmed momentum with the current odds.
pub struct LagDetector {
    pub config: LagDetectorConfig,
}

impl LagDetector {
    pub fn new() -> (r: LagDetector)
        ensures
            r.config == default_lag_detector_config(),
    {
        LagDetector { config: LagDetectorConfig::default() }
    }

    pub fn with_config(config: LagDetectorConfig) -> (r: LagDetector)
        ensures
            r.config == config,
    {
        LagDetector { config }
    }

    pub fn from_lag_config(config: &crate::config::LagConfig) -> (r: LagDetector)
        requires
            config.min_seconds_after_open <= i64::MAX,
            config.max_seconds_before_close <= i64::MAX,
        ensures
            r.config.min_lag_cents == config.min_lag_cents,
            r.config.min_seconds_after_open == config.min_seconds_after_open,
            r.config.max_seconds_before_close == config.max_seconds_before_close,
            r.config.price_sensitivity.v() == 10 * SCALE,
    {
        LagDetector { config: LagDetectorConfig::from(config) }
    }

    /// Expected YES price given the momentum's move.
    pub fn calculate_expected_price(&self, momentum: &MomentumSignal) -> (r: Fixed)
        requires
            self.config.wf(),
            momentum.move_pct.bounded(),
        ensures
            r.v() == expected_price_of(momentum.move_pct.v(), self.config.price_sensitivity.v()),
    {
        proof {
            crate::fixed::lemma_mul_bounded(momentum.move_pct, self.config.price_sensitivity);
        }
        let adjustment = momentum.move_pct.mul(self.config.price_sensitivity);
        let expected = Fixed::from_raw(500_000).add(adjustment);
        expected.max(Fixed::from_raw(100_000)).min(Fixed::from_raw(900_000))
    }

    /// Decide on a lag signal at instant `now`.
    pub fn detect_at(&self, momentum: &MomentumSignal, odds: &OddsState, market: &Market, now: i64) -> (r: Result<
        Option<LagSignal>,
        NoLagReason,
    >)
        requires
            self.config.wf(),
            momentum.move_pct.bounded(),
            momentum.confidence.bounded(),
            odds.yes_price.bounded(),
            instant_ok(now as int),
            instant_ok(market.open_time as int),
            instant_ok(market.close_time as int),
        ensures
            match lag_decision(self.config, *momentum, *odds, *market, now as int) {
                Err(reason) => r == Err::<Option<LagSignal>, NoLagReason>(reason),
                Ok((side, lag, expected)) => r.is_ok() && r.unwrap().is_some() && {
                    let s = r.unwrap().unwrap();
                    &&& s.side == side
                    &&& s.lag_magnitude.v() == lag
                    &&& s.expected_price.v() == expected
                    &&& s.actual_price == odds.yes_price
                    &&& s.momentum == *momentum
                    &&& s.odds == *odds
                    &&& s.confidence.v() == lag_confidence(lag, momentum.confidence.v())
                    &&& s.detected_at == now
                    &&& s.seconds_since_open == whole_secs(market.open_time as int, now as int)
                    &&& s.seconds_until_close == whole_secs(now as int, market.close_time as int)
                },
            },
    {
        let seconds_since_open = secs_between(market.open_time, now);
        let seconds_until_close = secs_between(now, market.close_time);
        if seconds_since_open < self.config.min_seconds_after_open {
            return Err(NoLagReason::TooEarlyInWindow);
        }
        if seconds_until_close < self.config.max_seconds_before_close {
            return Err(NoLagReason::TooCloseToClose);
        }
        if now < market.open_time || now > market.close_time {
            return Err(NoLagReason::MarketNotActive);
        }
        let expected_price = self.calculate_expected_price(momentum);
        match momentum.direction {
            MomentumDirection::Up => {
                if odds.yes_price.raw >= self.config.max_yes_for_up.raw {
                    return Err(NoLagReason::OddsAlreadyMoved);
                }
                let lag = expected_price.sub(odds.yes_price);
                if lag.raw < self.config.min_lag_cents.raw {
                    return Err(NoLagReason::LagTooSmall);
                }
                Ok(
                    Some(
                        LagSignal::new(
                            TradeSide::Yes,
                            lag,
                            expected_price,
                            odds.yes_price,
                            *momentum,
                            *odds,
                            seconds_since_open,
                            seconds_until_close,
                            now,
                        ),
                    ),
                )
            },
            MomentumDirection::Down => {
                if odds.yes_price.raw <= self.config.min_yes_for_down.raw {
                    return Err(NoLagReason::OddsAlreadyMoved);
                }
                let expected_yes = Fixed::one().sub(expected_price);
                let lag = odds.yes_price.sub(expected_yes);
                if lag.raw < self.config.min_lag_cents.raw {
                    return Err(NoLagReason::LagTooSmall);
                }
                Ok(
                    Some(
                        LagSignal::new(
                            TradeSide::No,
                            lag,
                            expected_yes,
                            odds.yes_price,
                            *momentum,
                            *odds,
                            seconds_since_open,
                            seconds_until_close,
                            now,
                        ),
                    ),
                )
            },
        }
    }

    /// Decide on a lag signal now, by the wall clock.
    pub fn detect(&self, momentum: &MomentumSignal, odds: &OddsState, market: &Market) -> (r: Result<
        Option<LagSignal>,
        NoLagReason,
    >)
        requires
            self.config.wf(),
            momentum.move_pct.bounded(),
            momentum.confidence.bounded(),
            odds.yes_price.bounded(),
            instant_ok(market.open_time as int),
            instant_ok(market.close_time as int),
        ensures
            exists|now: int|
                instant_ok(now) && match #[trigger] lag_decision(self.config, *momentum, *odds, *market, now) {
                    Err(reason) => r == Err::<Option<LagSignal>, NoLagReason>(reason),
                    Ok((side, lag, expected)) => r.is_ok() && r.unwrap().is_some() && {
                        let s = r.unwrap().unwrap();
                        &&& s.side == side
                        &&& s.lag_magnitude.v() == lag
                        &&& s.expected_price.v() == expected
                        &&& s.actual_price == odds.yes_price
                        &&& s.confidence.v() == lag_confidence(lag, momentum.confidence.v())
                        &&& s.detected_at == now
                        &&& s.seconds_since_open == whole_secs(market.open_time as int, now)
                        &&& s.seconds_until_close == whole_secs(now, market.close_time as int)
                    },
                },
    {
        let clock = crate::clock::now_micros();
        let now = if clock < -crate::spread::MAX_INSTANT {
            -crate::spread::MAX_INSTANT
        } else if clock > crate::spread::MAX_INSTANT {
            crate::spread::MAX_INSTANT
        } else {
            clock
        };
        let r = self.detect_at(momentum, odds, market, now);
        proof {
            let _ = lag_decision(self.config, *momentum, *odds, *market, now as int);
        }
        r
    }

    pub fn config(&self) -> (r: &LagDetectorConfig)
        ensures
            *r == self.config,
    {
        &self.config
    }
}

/// The signal's side is YES exactly for an up move, and the window checks
/// come first: input that is too early is never rejected for a small lag.
pub proof fn lemma_lag_side_follows_direction(
    cfg: LagDetectorConfig,
    m: MomentumSignal,
    odds: OddsState,
    market: Market,
    now: int,
)
    ensures
        lag_decision(cfg, m, odds, market, now) matches Ok((side, _, _)) ==> ((side == TradeSide::Yes)
            <==> (m.direction == MomentumDirection::Up)),
        whole_secs(market.open_time as int, now) >= cfg.min_seconds_after_open && whole_secs(now, market.close_time as int)
            < cfg.max_seconds_before_close ==> lag_decision(cfg, m, odds, market, now) == Err::<(TradeSide, int, int), NoLagReason>(
            NoLagReason::TooCloseToClose,
        ),
        whole_secs(market.open_time as int, now) < cfg.min_seconds_after_open ==> lag_decision(
            cfg,
            m,
            odds,
            market,
            now,
        ) == Err::<(TradeSide, int, int), NoLagReason>(NoLagReason::TooEarlyInWindow),
{
}

} // verus!
