//! Risk limits, drawdown monitoring and position sizing.
use vstd::prelude::*;
use crate::fixed::{div_raw, mul_raw, Fixed, SCALE, BOUND};

verus! {

/// Limits on positions and losses.
#[derive(Clone, Copy, Debug)]
pub struct PositionLimits {
    pub max_position_pct: Fixed,
    pub max_concurrent_positions: usize,
    /// Halt when the day's loss exceeds this fraction of the day's start.
    pub max_daily_loss_pct: Fixed,
    /// Halt when equity falls more than this fraction below its peak.
    pub max_drawdown_pct: Fixed,
    pub max_exposure_pct: Fixed,
}

impl PositionLimits {
    /// One percent per position, three positions, five percent daily loss,
    /// ten percent drawdown, ten percent exposure.
    pub fn default() -> (r: PositionLimits)
        ensures
            r.max_position_pct.v() == 10_000,
            r.max_concurrent_positions == 3,
            r.max_daily_loss_pct.v() == 50_000,
            r.max_drawdown_pct.v() == 100_000,
            r.max_exposure_pct.v() == 100_000,
    {
        PositionLimits {
            max_position_pct: Fixed::from_raw(10_000),
            max_concurrent_positions: 3,
            max_daily_loss_pct: Fixed::from_raw(50_000),
            max_drawdown_pct: Fixed::from_raw(100_000),
            max_exposure_pct: Fixed::from_raw(100_000),
        }
    }
}

/// Why trading must stop.
#[derive(Clone, Copy, Debug, PartialEq, Eq, Structural)]
pub enum HaltReason {
    /// The day's loss, as a fraction of the day's starting equity.
    MaxDailyLossReached(Fixed),
    /// The drop from peak equity, as a fraction of the peak.
    MaxDrawdownReached(Fixed),
    MaxExposureReached(Fixed),
}

/// Risk errors that suppress an order.
#[derive(Clone, Copy, Debug, PartialEq, Eq, Structural)]
pub enum RiskError {
    PositionTooLarge(Fixed),
    MaxPositionsReached,
    MaxExposureReached,
    TradingHalted(HaltReason),
}

impl RiskError {
    /// Human-readable description.
    pub fn message(&self) -> (r: String)
        ensures
            r@ == match self {
                RiskError::PositionTooLarge(_) => "Position too large"@,
                RiskError::MaxPositionsReached => "Maximum positions reached"@,
                RiskError::MaxExposureReached => "Maximum exposure reached"@,
                RiskError::TradingHalted(_) => "Trading halted"@,
            },
    {
        match self {
            RiskError::PositionTooLarge(_) => "Position too large".to_owned(),
            RiskError::MaxPositionsReached => "Maximum positions reached".to_owned(),
            RiskError::MaxExposureReached => "Maximum exposure reached".to_owned(),
            RiskError::TradingHalted(_) => "Trading halted".to_owned(),
        }
    }
}

/// Fractional drop from `peak` to `current` (zero when the peak is zero).
pub open spec fn drawdown_of(peak: int, current: int) -> int {
    if peak == 0 {
        0
    } else {
        div_raw(peak - current, peak)
    }
}

/// The day's loss as a fraction of the day's starting equity (zero when that
/// is zero).
pub open spec fn daily_drawdown_of(start: int, pnl: int) -> int {
    if start == 0 {
        0
    } else {
        div_raw(-pnl, start)
    }
}

/// Tracks peak, current and start-of-day equity.
#[derive(Clone, Copy, Debug)]
pub struct DrawdownMonitor {
    pub peak_equity: Fixed,
    pub current_equity: Fixed,
    pub daily_start_equity: Fixed,
    /// `current_equity − daily_start_equity`.
    pub daily_pnl: Fixed,
}

impl DrawdownMonitor {
    pub open spec fn wf(&self) -> bool {
        &&& self.peak_equity.bounded()
        &&& self.current_equity.bounded()
        &&& self.daily_start_equity.bounded()
        &&& self.daily_pnl.v() == self.current_equity.v() - self.daily_start_equity.v()
        &&& self.peak_equity.v() >= self.current_equity.v()
    }

    pub fn new(initial_equity: Fixed) -> (r: DrawdownMonitor)
        requires
            initial_equity.bounded(),
        ensures
            r.wf(),
            r.peak_equity == initial_equity,
            r.current_equity == initial_equity,
            r.daily_start_equity == initial_equity,
            r.daily_pnl.v() == 0,
    {
        DrawdownMonitor {
            peak_equity: initial_equity,
            current_equity: initial_equity,
            daily_start_equity: initial_equity,
            daily_pnl: Fixed::zero(),
        }
    }

    /// Record a new equity value.
    pub fn update(&mut self, new_equity: Fixed)
        requires
            old(self).wf(),
            new_equity.bounded(),
        ensures
            final(self).wf(),
            final(self).current_equity == new_equity,
            final(self).peak_equity.v() == if new_equity.v() > old(self).peak_equity.v() { new_equity.v() } else { old(self).peak_equity.v() },
            final(self).daily_start_equity == old(self).daily_start_equity,
            final(self).daily_pnl.v() == new_equity.v() - old(self).daily_start_equity.v(),
    {
        self.current_equity = new_equity;
        if new_equity.raw > self.peak_equity.raw {
            self.peak_equity = new_equity;
        }
        self.daily_pnl = new_equity.sub(self.daily_start_equity);
    }

    /// `(peak − current) / peak`, zero for a zero peak.
    pub fn current_drawdown(&self) -> (r: Fixed)
        requires
            self.wf(),
        ensures
            r.v() == drawdown_of(self.peak_equity.v(), self.current_equity.v()),
    {
        if self.peak_equity.raw == 0 {
            return Fixed::zero();
        }
        let diff = self.peak_equity.sub(self.current_equity);
        proof { lemma_ratio_fits(diff.v(), self.peak_equity.v()); }
        diff.div(self.peak_equity)
    }

    /// `−daily_pnl / daily_start`, zero for a zero start.
    pub fn daily_drawdown(&self) -> (r: Fixed)
        requires
            self.wf(),
        ensures
            r.v() == daily_drawdown_of(self.daily_start_equity.v(), self.daily_pnl.v()),
    {
        if self.daily_start_equity.raw == 0 {
            return Fixed::zero();
        }
        let loss = self.daily_pnl.neg();
        proof { lemma_ratio_fits(loss.v(), self.daily_start_equity.v()); }
        loss.div(self.daily_start_equity)
    }

    /// The daily loss limit is checked first, then the drawdown from peak.
    pub fn should_halt(&self, limits: &PositionLimits) -> (r: Option<HaltReason>)
        requires
            self.wf(),
        ensures
            r == halt_decision(*self, *limits),
    {
        let daily_dd = self.daily_drawdown();
        if daily_dd.raw > limits.max_daily_loss_pct.raw {
            return Some(HaltReason::MaxDailyLossReached(daily_dd));
        }
        let drawdown = self.current_drawdown();
        if drawdown.raw > limits.max_drawdown_pct.raw {
            return Some(HaltReason::MaxDrawdownReached(drawdown));
        }
        None
    }

    /// Start a new trading day at the current equity.
    pub fn reset_daily(&mut self)
        requires
            old(self).wf(),
        ensures
            final(self).wf(),
            final(self).daily_start_equity == old(self).current_equity,
            final(self).daily_pnl.v() == 0,
            final(self).current_equity == old(self).current_equity,
            final(self).peak_equity == old(self).peak_equity,
    {
        self.daily_start_equity = self.current_equity;
        self.daily_pnl = Fixed::zero();
    }
}

/// The halt decision: daily loss in preference to peak drawdown.
pub open spec fn halt_decision(m: DrawdownMonitor, limits: PositionLimits) -> Option<HaltReason> {
    let daily = daily_drawdown_of(m.daily_start_equity.v(), m.daily_pnl.v());
    let dd = drawdown_of(m.peak_equity.v(), m.current_equity.v());
    if daily > limits.max_daily_loss_pct.v() {
        Some(HaltReason::MaxDailyLossReached(Fixed { raw: daily as i64 }))
    } else if dd > limits.max_drawdown_pct.v() {
        Some(HaltReason::MaxDrawdownReached(Fixed { raw: dd as i64 }))
    } else {
        None
    }
}

/// A ratio of a difference of bounded values to a non-zero bounded value
/// fits in raw range.
proof fn lemma_ratio_fits(n: int, d: int)
    requires
        -2 * BOUND <= n <= 2 * BOUND,
        d != 0,
    ensures
        i64::MIN < div_raw(n, d) <= i64::MAX,
{
    let an = if n >= 0 { n } else { -n };
    assert(an * 1_000_000 <= 2_000_000_000_000 * 1_000_000) by (nonlinear_arith)
        requires 0 <= an <= 2_000_000_000_000;
    if d > 0 {
        if n >= 0 {
            assert((n * 1_000_000) / d <= n * 1_000_000) by (nonlinear_arith) requires n >= 0, d >= 1;
        } else {
            assert((-(n * 1_000_000)) / d <= -(n * 1_000_000)) by (nonlinear_arith) requires n < 0, d >= 1;
        }
    } else {
        if -n >= 0 {
            assert((-n * 1_000_000) / (-d) <= -n * 1_000_000) by (nonlinear_arith) requires -n >= 0, -d >= 1;
        } else {
            assert((-(-n * 1_000_000)) / (-d) <= -(-n * 1_000_000)) by (nonlinear_arith) requires -n < 0, -d >= 1;
        }
    }
}

/// Size `bankroll · pct`, at most `bankroll · max_pct`, at least `min_size`.
pub open spec fn fixed_size_of(bankroll: int, pct: int, max_pct: int, min_size: int) -> int {
    let base = mul_raw(bankroll, pct);
    let cap = mul_raw(bankroll, max_pct);
    let capped = if base <= cap { base } else { cap };
    if capped >= min_size { capped } else { min_size }
}

/// Fixed-fraction sizing.
#[derive(Clone, Copy, Debug)]
pub struct FixedSizer {
    pub fixed_pct: Fixed,
    pub max_pct: Fixed,
    pub min_size: Fixed,
}

impl FixedSizer {
    pub open spec fn wf(&self) -> bool {
        self.fixed_pct.bounded() && self.max_pct.bounded() && self.min_size.bounded()
    }

    pub fn new(fixed_pct: Fixed, max_pct: Fixed) -> (r: FixedSizer)
        ensures
            r.fixed_pct == fixed_pct,
            r.max_pct == max_pct,
            r.min_size.v() == SCALE,
    {
        FixedSizer { fixed_pct, max_pct, min_size: Fixed::one() }
    }

    /// Ten percent per trade, twenty percent at most, one unit at least.
    pub fn default() -> (r: FixedSizer)
        ensures
            r.wf(),
            r.fixed_pct.v() == 100_000,
            r.max_pct.v() == 200_000,
            r.min_size.v() == SCALE,
    {
        FixedSizer { fixed_pct: Fixed::from_raw(100_000), max_pct: Fixed::from_raw(200_000), min_size: Fixed::one() }
    }

    pub fn with_min_size(self, min_size: Fixed) -> (r: FixedSizer)
        ensures
            r.fixed_pct == self.fixed_pct,
            r.max_pct == self.max_pct,
            r.min_size == min_size,
    {
        FixedSizer { min_size, ..self }
    }

    pub fn calculate_size(&self, bankroll: Fixed) -> (r: Fixed)
        requires
            self.wf(),
            bankroll.bounded(),
        ensures
            r.v() == fixed_size_of(bankroll.v(), self.fixed_pct.v(), self.max_pct.v(), self.min_size.v()),
    {
        proof {
            crate::fixed::lemma_mul_bounded(bankroll, self.fixed_pct);
            crate::fixed::lemma_mul_bounded(bankroll, self.max_pct);
        }
        let base_size = bankroll.mul(self.fixed_pct);
        let max_size = bankroll.mul(self.max_pct);
        base_size.min(max_size).max(self.min_size)
    }
}

/// Win probability estimated from a lag: `min(0.80 + lag / 2, 0.95)`.
pub open spec fn win_prob_of(lag: int) -> int {
    let p = 800_000 + mul_raw(lag, 500_000);
    if p <= 950_000 { p } else { 950_000 }
}

/// Fractional-Kelly size from a lag: Kelly `p − q` times the fraction, at
/// most `bankroll · max_pct`, at least `min_size`; zero when `p − q ≤ 0`.
pub open spec fn kelly_size_of(lag: int, bankroll: int, fraction: int, max_pct: int, min_size: int) -> int {
    let p = win_prob_of(lag);
    let kelly = p - (SCALE - p);
    if kelly <= 0 {
        0
    } else {
        let position = mul_raw(mul_raw(kelly, fraction), bankroll);
        let cap = mul_raw(bankroll, max_pct);
        let capped = if position <= cap { position } else { cap };
        if capped >= min_size { capped } else { min_size }
    }
}

/// Fractional-Kelly sizing.
#[derive(Clone, Copy, Debug)]
pub struct KellySizer {
    pub fraction: Fixed,
    pub max_pct: Fixed,
    pub min_size: Fixed,
}

impl KellySizer {
    pub open spec fn wf(&self) -> bool {
        &&& -SCALE <= self.fraction.v() <= SCALE
        &&& self.max_pct.bounded()
        &&& self.min_size.bounded()
    }

    pub fn new(fraction: Fixed, max_pct: Fixed) -> (r: KellySizer)
        ensures
            r.fraction == fraction,
            r.max_pct == max_pct,
            r.min_size.v() == SCALE,
    {
        KellySizer { fraction, max_pct, min_size: Fixed::one() }
    }

    /// Quarter Kelly, twenty percent at most, one unit at least.
    pub fn default() -> (r: KellySizer)
        ensures
            r.wf(),
            r.fraction.v() == 250_000,
            r.max_pct.v() == 200_000,
            r.min_size.v() == SCALE,
    {
        KellySizer { fraction: Fixed::from_raw(250_000), max_pct: Fixed::from_raw(200_000), min_size: Fixed::one() }
    }

    pub fn calculate_from_lag(&self, lag_magnitude: Fixed, bankroll: Fixed) -> (r: Fixed)
        requires
            self.wf(),
            lag_magnitude.bounded(),
            bankroll.bounded(),
        ensures
            r.v() == kelly_size_of(lag_magnitude.v(), bankroll.v(), self.fraction.v(), self.max_pct.v(), self.min_size.v()),
    {
        proof {
            crate::fixed::lemma_mul_bounded(lag_magnitude, Fixed { raw: 500_000 });
            let l = lag_magnitude.v();
            assert(mul_raw(l, 500_000) <= l && -l <= mul_raw(l, 500_000) || mul_raw(l, 500_000) >= l && mul_raw(l, 500_000) <= -l) by (nonlinear_arith)
                requires -1_000_000_000_000 <= l <= 1_000_000_000_000,
                    mul_raw(l, 500_000) == (if l * 500_000 >= 0 { (l * 500_000) / 1_000_000 } else { -((-(l * 500_000)) / 1_000_000) });
        }
        let win_prob = Fixed::from_raw(800_000).add(lag_magnitude.mul(Fixed::from_raw(500_000))).min(Fixed::from_raw(950_000));
        let lose_prob = Fixed::one().sub(win_prob);
        let kelly = win_prob.sub(lose_prob);
        if kelly.raw <= 0 {
            return Fixed::zero();
        }
        proof {
            crate::fixed::lemma_mul_bounded(kelly, self.fraction);
            let k = kelly.v();
            let f = self.fraction.v();
            assert(-k <= mul_raw(k, f) <= k) by (nonlinear_arith)
                requires 0 < k <= 1_000_000, -1_000_000 <= f <= 1_000_000,
                    mul_raw(k, f) == (if k * f >= 0 { (k * f) / 1_000_000 } else { -((-(k * f)) / 1_000_000) });
        }
        let adjusted = kelly.mul(self.fraction);
        proof {
            crate::fixed::lemma_mul_bounded(adjusted, bankroll);
            crate::fixed::lemma_mul_bounded(bankroll, self.max_pct);
        }
        let position = adjusted.mul(bankroll);
        let max_size = bankroll.mul(self.max_pct);
        position.min(max_size).max(self.min_size)
    }
}

impl FixedSizer {
    /// Fixed sizing from the configuration section, one unit at least.
    pub fn from_config(config: &crate::config::SizingConfig) -> (r: FixedSizer)
        ensures
            r.fixed_pct == config.fixed_pct,
            r.max_pct == config.max_pct,
            r.min_size.v() == SCALE,
    {
        FixedSizer::new(config.fixed_pct, config.max_pct)
    }
}

impl FixedSizer {
    /// Size for a lag signal: fixed sizing scaled by its confidence.
    pub fn calculate(&self, signal: &crate::lag::LagSignal, bankroll: Fixed) -> (r: Fixed)
        requires
            self.wf(),
            bankroll.bounded(),
            0 <= signal.confidence.v() <= SCALE,
        ensures
            r.v() == confident_size_of(
                fixed_size_of(bankroll.v(), self.fixed_pct.v(), self.max_pct.v(), self.min_size.v()),
                signal.confidence.v(),
                self.min_size.v(),
            ),
    {
        self.calculate_with_confidence(bankroll, signal.confidence)
    }

    pub fn mode_name(&self) -> (r: &'static str)
        ensures
            r@ == "fixed"@,
    {
        "fixed"
    }
}

impl KellySizer {
    /// Size for a lag signal from its lag.
    pub fn calculate(&self, signal: &crate::lag::LagSignal, bankroll: Fixed) -> (r: Fixed)
        requires
            self.wf(),
            signal.lag_magnitude.bounded(),
            bankroll.bounded(),
        ensures
            r.v() == kelly_size_of(signal.lag_magnitude.v(), bankroll.v(), self.fraction.v(), self.max_pct.v(), self.min_size.v()),
    {
        self.calculate_from_lag(signal.lag_magnitude, bankroll)
    }

    pub fn mode_name(&self) -> (r: &'static str)
        ensures
            r@ == "kelly"@,
    {
        "kelly"
    }
}

impl KellySizer {
    /// Quarter-Kelly sizing capped at the section's maximum fraction.
    pub fn from_config(config: &crate::config::SizingConfig) -> (r: KellySizer)
        ensures
            r.fraction.v() == 250_000,
            r.max_pct == config.max_pct,
            r.min_size.v() == SCALE,
    {
        KellySizer::new(Fixed::from_raw(250_000), config.max_pct)
    }
}

/// Kelly size for a binary bet bought at `price` with fair value `fair`:
/// `(fair − price) / (1 − price)` times the fraction times the bankroll,
/// capped at `bankroll · max_bet_pct` and at least zero; zero without an
/// edge or at a price of one or more.
pub open spec fn kelly_bet_of(fair: int, price: int, fraction: int, max_bet_pct: int, bankroll: int) -> int {
    let edge = fair - price;
    if edge <= 0 || price >= SCALE {
        0
    } else {
        let position = mul_raw(mul_raw(div_raw(edge, SCALE - price), fraction), bankroll);
        let cap = mul_raw(bankroll, max_bet_pct);
        let capped = if position <= cap { position } else { cap };
        if capped >= 0 { capped } else { 0 }
    }
}

/// Kelly sizing from a fair-value signal.
#[derive(Clone, Copy, Debug)]
pub struct KellyCalculator {
    pub fraction: Fixed,
    pub max_bet_pct: Fixed,
}

impl KellyCalculator {
    pub fn new(fraction: Fixed, max_bet_pct: Fixed) -> (r: KellyCalculator)
        ensures
            r.fraction == fraction,
            r.max_bet_pct == max_bet_pct,
    {
        KellyCalculator { fraction, max_bet_pct }
    }

    /// Quarter Kelly, one percent at most.
    pub fn default() -> (r: KellyCalculator)
        ensures
            r.fraction.v() == 250_000,
            r.max_bet_pct.v() == 10_000,
    {
        KellyCalculator { fraction: Fixed::from_raw(250_000), max_bet_pct: Fixed::from_raw(10_000) }
    }

    /// Size for a signal whose fair value and market price are
    /// probabilities.
    pub fn calculate(&self, signal: &crate::signal::Signal, bankroll: Fixed) -> (r: Fixed)
        requires
            0 <= signal.fair_value.v() <= SCALE,
            0 <= signal.market_price.v() <= SCALE,
            0 <= self.fraction.v() <= SCALE,
            self.max_bet_pct.bounded(),
            bankroll.bounded(),
        ensures
            r.v() == kelly_bet_of(signal.fair_value.v(), signal.market_price.v(), self.fraction.v(), self.max_bet_pct.v(), bankroll.v()),
    {
        let edge = signal.fair_value.sub(signal.market_price);
        if edge.raw <= 0 || signal.market_price.raw >= SCALE {
            return Fixed::zero();
        }
        let room = Fixed::one().sub(signal.market_price);
        proof {
            let e = edge.v();
            let d = room.v();
            assert(0 < (e * 1_000_000) / d <= 1_000_000_000_000 || (e * 1_000_000) / d == 0) by (nonlinear_arith)
                requires 0 < e <= 1_000_000, 1 <= d <= 1_000_000;
            assert((e * 1_000_000) / d <= 1_000_000_000_000) by (nonlinear_arith)
                requires 0 < e <= 1_000_000, 1 <= d;
        }
        let kelly = edge.div(room);
        proof {
            let k = kelly.v();
            let f = self.fraction.v();
            assert(0 <= (k * f) / 1_000_000 <= k) by (nonlinear_arith)
                requires 0 <= k <= 1_000_000_000_000, 0 <= f <= 1_000_000;
        }
        let adjusted = kelly.mul(self.fraction);
        proof {
            crate::fixed::lemma_mul_bounded(adjusted, bankroll);
            crate::fixed::lemma_mul_bounded(bankroll, self.max_bet_pct);
        }
        let position = adjusted.mul(bankroll);
        let max_size = bankroll.mul(self.max_bet_pct);
        position.min(max_size).max(Fixed::zero())
    }
}

/// The two interchangeable sizing policies.
#[derive(Clone, Copy, Debug)]
pub enum Sizer {
    Fixed(FixedSizer),
    Kelly(KellySizer),
}

impl Sizer {
    pub open spec fn wf(&self) -> bool {
        match self {
            Sizer::Fixed(s) => s.wf(),
            Sizer::Kelly(s) => s.wf(),
        }
    }

    /// Size for a lag signal: the fixed policy scales by the signal's
    /// confidence, the Kelly policy sizes from its lag.
    pub fn calculate(&self, signal: &crate::lag::LagSignal, bankroll: Fixed) -> (r: Fixed)
        requires
            self.wf(),
            signal.lag_magnitude.bounded(),
            0 <= signal.confidence.v() <= SCALE,
            bankroll.bounded(),
        ensures
            r.v() == sizer_size(*self, signal.lag_magnitude.v(), signal.confidence.v(), bankroll.v()),
    {
        self.size_for(signal.lag_magnitude, signal.confidence, bankroll)
    }

    /// Size from a lag and a confidence.
    pub fn size_for(&self, lag_magnitude: Fixed, confidence: Fixed, bankroll: Fixed) -> (r: Fixed)
        requires
            self.wf(),
            lag_magnitude.bounded(),
            0 <= confidence.v() <= SCALE,
            bankroll.bounded(),
        ensures
            r.v() == sizer_size(*self, lag_magnitude.v(), confidence.v(), bankroll.v()),
    {
        match self {
            Sizer::Fixed(s) => s.calculate_with_confidence(bankroll, confidence),
            Sizer::Kelly(s) => s.calculate_from_lag(lag_magnitude, bankroll),
        }
    }

    pub fn mode_name(&self) -> (r: &'static str)
        ensures
            r@ == match self {
                Sizer::Fixed(_) => "fixed"@,
                Sizer::Kelly(_) => "kelly"@,
            },
    {
        match self {
            Sizer::Fixed(_) => "fixed",
            Sizer::Kelly(_) => "kelly",
        }
    }
}

/// The size a policy gives: fixed sizing scaled by confidence, or Kelly
/// sizing from the lag.
pub open spec fn sizer_size(s: Sizer, lag: int, confidence: int, bankroll: int) -> int {
    match s {
        Sizer::Fixed(f) => confident_size_of(
            fixed_size_of(bankroll, f.fixed_pct.v(), f.max_pct.v(), f.min_size.v()),
            confidence,
            f.min_size.v(),
        ),
        Sizer::Kelly(k) => kelly_size_of(lag, bankroll, k.fraction.v(), k.max_pct.v(), k.min_size.v()),
    }
}

/// `size · (0.5 · confidence + 0.5)`, at least `min_size`.
pub open spec fn confident_size_of(size: int, confidence: int, min_size: int) -> int {
    let factor = mul_raw(confidence, 500_000) + 500_000;
    let scaled = mul_raw(size, factor);
    if scaled >= min_size { scaled } else { min_size }
}

impl FixedSizer {
    /// Fixed size scaled by `0.5 · confidence + 0.5`, at least `min_size`.
    pub fn calculate_with_confidence(&self, bankroll: Fixed, confidence: Fixed) -> (r: Fixed)
        requires
            self.wf(),
            bankroll.bounded(),
            0 <= confidence.v() <= SCALE,
        ensures
            r.v() == confident_size_of(
                fixed_size_of(bankroll.v(), self.fixed_pct.v(), self.max_pct.v(), self.min_size.v()),
                confidence.v(),
                self.min_size.v(),
            ),
    {
        let base_size = self.calculate_size(bankroll);
        proof {
            crate::fixed::lemma_mul_bounded(bankroll, self.fixed_pct);
            crate::fixed::lemma_mul_bounded(confidence, Fixed { raw: 500_000 });
            let c = confidence.v();
            assert(0 <= mul_raw(c, 500_000) <= 500_000) by (nonlinear_arith)
                requires 0 <= c <= 1_000_000, mul_raw(c, 500_000) == (c * 500_000) / 1_000_000;
            crate::fixed::lemma_mul_bounded(bankroll, self.max_pct);
        }
        let factor = confidence.mul(Fixed::from_raw(500_000)).add(Fixed::from_raw(500_000));
        proof {
            let b = base_size.v();
            let f = factor.v();
            assert(-1_000_000_000_000_000_000 * 1_000_000 <= b * f <= 1_000_000_000_000_000_000 * 1_000_000) by (nonlinear_arith)
                requires -1_000_000_000_000_000_000 <= b <= 1_000_000_000_000_000_000, 0 <= f <= 1_000_000;
            assert(-1_000_000_000_000_000_000 <= mul_raw(b, f) <= 1_000_000_000_000_000_000) by (nonlinear_arith)
                requires -1_000_000_000_000_000_000 * 1_000_000 <= b * f <= 1_000_000_000_000_000_000 * 1_000_000,
                    mul_raw(b, f) == (if b * f >= 0 { (b * f) / 1_000_000 } else { -((-(b * f)) / 1_000_000) });
        }
        base_size.mul(factor).max(self.min_size)
    }
}

/// The sizing policy a configuration selects; Kelly uses a quarter fraction.
pub fn create_sizer(config: &crate::config::SizingConfig) -> (r: Sizer)
    ensures
        r == match config.mode {
            crate::config::SizingMode::Fixed => Sizer::Fixed(FixedSizer { fixed_pct: config.fixed_pct, max_pct: config.max_pct, min_size: Fixed { raw: SCALE } }),
            crate::config::SizingMode::Kelly => Sizer::Kelly(KellySizer { fraction: Fixed { raw: 250_000 }, max_pct: config.max_pct, min_size: Fixed { raw: SCALE } }),
        },
{
    match config.mode {
        crate::config::SizingMode::Fixed => Sizer::Fixed(FixedSizer::new(config.fixed_pct, config.max_pct)),
        crate::config::SizingMode::Kelly => Sizer::Kelly(KellySizer::new(Fixed::from_raw(250_000), config.max_pct)),
    }
}

} // verus!
