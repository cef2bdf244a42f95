//! Confirmed directional moves of the spot price away from a strike.
use vstd::prelude::*;
use crate::fixed::{div_raw, mul_raw, tdiv, Fixed, SCALE};
use crate::market::{secs_between, whole_secs, MICROS_PER_SEC};
use crate::spread::instant_ok;

verus! {

/// Direction of a move relative to the strike.
#[derive(Clone, Copy, Debug, PartialEq, Eq, Structural)]
pub enum MomentumDirection {
    /// Price above the strike.
    Up,
    /// Price below the strike.
    Down,
}

/// A confirmed move away from the strike.
#[derive(Clone, Copy, Debug)]
pub struct MomentumSignal {
    pub direction: MomentumDirection,
    /// Magnitude of the move as a fraction of the strike.
    pub move_pct: Fixed,
    pub strike_price: Fixed,
    pub current_price: Fixed,
    /// Price change per second over the window.
    pub velocity: Fixed,
    /// Instant of the observation that confirmed the move (microseconds).
    pub detected_at: i64,
    /// Confidence in `[0, 1]`.
    pub confidence: Fixed,
}

impl MomentumSignal {
    pub fn new(
        direction: MomentumDirection,
        move_pct: Fixed,
        strike_price: Fixed,
        current_price: Fixed,
        velocity: Fixed,
        confidence: Fixed,
        detected_at: i64,
    ) -> (r: MomentumSignal)
        ensures
            r.direction == direction,
            r.move_pct == move_pct,
            r.strike_price == strike_price,
            r.current_price == current_price,
            r.velocity == velocity,
            r.confidence == confidence,
            r.detected_at == detected_at,
    {
        MomentumSignal { direction, move_pct, strike_price, current_price, velocity, detected_at, confidence }
    }

    pub fn is_up(&self) -> (r: bool)
        ensures
            r == (self.direction == MomentumDirection::Up),
    {
        self.direction == MomentumDirection::Up
    }

    pub fn is_down(&self) -> (r: bool)
        ensures
            r == (self.direction == MomentumDirection::Down),
    {
        self.direction == MomentumDirection::Down
    }
}

/// Configuration of the momentum detector.
#[derive(Clone, Copy, Debug)]
pub struct MomentumConfig {
    /// Length of the price window, seconds.
    pub window_seconds: u64,
    /// Smallest move (fraction of the strike) that counts.
    pub min_move_pct: Fixed,
    /// Largest credible move; anything beyond is treated as bad data.
    pub max_move_pct: Fixed,
    /// How long a direction must persist before it is confirmed, seconds.
    pub confirmation_seconds: u64,
}

/// Largest admitted window or confirmation length, in seconds.
pub const MAX_PERIOD_SECS: u64 = 1_000_000_000;

impl MomentumConfig {
    pub open spec fn wf(&self) -> bool {
        &&& self.window_seconds <= MAX_PERIOD_SECS
        &&& self.confirmation_seconds <= MAX_PERIOD_SECS
        &&& 0 < self.min_move_pct.v()
        &&& self.min_move_pct.bounded()
        &&& self.max_move_pct.bounded()
    }

    /// Window 120 s, moves between 0.7 % and 5 %, confirmation 30 s.
    pub fn default() -> (r: MomentumConfig)
        ensures
            r.wf(),
            r.window_seconds == 120,
            r.min_move_pct.v() == 7_000,
            r.max_move_pct.v() == 50_000,
            r.confirmation_seconds == 30,
    {
        MomentumConfig {
            window_seconds: 120,
            min_move_pct: Fixed::from_raw(7_000),
            max_move_pct: Fixed::from_raw(50_000),
            confirmation_seconds: 30,
        }
    }
}

/// Signed division truncated toward zero, for a non-zero divisor.
pub open spec fn sdiv(a: int, b: int) -> int {
    if b > 0 {
        tdiv(a, b)
    } else {
        tdiv(-a, -b)
    }
}

/// `|x|`.
pub open spec fn abs(x: int) -> int {
    if x >= 0 {
        x
    } else {
        -x
    }
}

/// Signed move of `current` from `strike`, as a fraction of the strike.
pub open spec fn move_of(current: int, strike: int) -> int {
    div_raw(current - strike, strike)
}

/// Confidence of a move of magnitude `am` over `n` samples:
/// `0.6 · min(am / min_move, 2) / 2 + 0.4 · min(n, 100) / 100`.
pub open spec fn confidence_of(am: int, min_move: int, n: int) -> int {
    let ratio = div_raw(am, min_move);
    let capped = if ratio <= 2 * SCALE { ratio } else { 2 * SCALE };
    let samples = if n <= 100 { n } else { 100 };
    mul_raw(tdiv(capped, 2), 600_000) + mul_raw(samples * 10_000, 400_000)
}

/// Price change per whole second between the first and last observation
/// (zero when they are less than a second apart).
pub open spec fn velocity_of(prices: Seq<(i64, Fixed)>) -> int {
    if prices.len() < 2 {
        0
    } else {
        let secs = whole_secs(prices[0].0 as int, prices.last().0 as int);
        if secs == 0 {
            0
        } else {
            sdiv(prices.last().1.v() - prices[0].1.v(), secs)
        }
    }
}

/// `e` is one of the observations of `s`.
pub open spec fn occurs_in(e: (i64, Fixed), s: Seq<(i64, Fixed)>) -> bool {
    exists|j: int| 0 <= j < s.len() && s[j] == e
}

/// The observations at or after `cutoff`, in their order.
pub open spec fn recent(s: Seq<(i64, Fixed)>, cutoff: i64) -> Seq<(i64, Fixed)> {
    s.filter(|o: (i64, Fixed)| o.0 >= cutoff)
}

/// Keep exactly the observations at or after `cutoff`, whatever their order.
pub fn retain_recent(prices: &Vec<(i64, Fixed)>, cutoff: i64) -> (r: Vec<(i64, Fixed)>)
    ensures
        r@ == recent(prices@, cutoff),
        forall|i: int| 0 <= i < r@.len() ==> occurs_in(#[trigger] r@[i], prices@),
{
    let mut out: Vec<(i64, Fixed)> = Vec::new();
    let mut i: usize = 0;
    while i < prices.len()
        invariant
            0 <= i <= prices@.len(),
            out@ == recent(prices@.subrange(0, i as int), cutoff),
            forall|a: int| 0 <= a < out@.len() ==> occurs_in(#[trigger] out@[a], prices@),
        decreases prices@.len() - i,
    {
        proof {
            reveal(Seq::filter);
            assert(prices@.subrange(0, i + 1).drop_last() =~= prices@.subrange(0, i as int));
        }
        if prices[i].0 >= cutoff {
            let ghost before = out@;
            out.push(prices[i]);
            proof {
                assert forall|a: int| 0 <= a < out@.len() implies occurs_in(#[trigger] out@[a], prices@) by {
                    if a < before.len() {
                        assert(out@[a] == before[a]);
                    } else {
                        assert(prices@[i as int] == out@[a]);
                    }
                }
            }
        }
        i = i + 1;
    }
    proof {
        assert(prices@.subrange(0, i as int) =~= prices@);
    }
    out
}

/// Momentum detector over a sliding window of observations, with the
/// confirmation state `Idle` (no direction) or `Candidate(direction, since)`.
pub struct MomentumDetector {
    pub config: MomentumConfig,
    /// Observations `(instant, price)`, oldest first.
    pub prices: Vec<(i64, Fixed)>,
    /// Direction under confirmation.
    pub last_direction: Option<MomentumDirection>,
    /// When that direction was first seen.
    pub direction_start: Option<i64>,
}

impl MomentumDetector {
    pub open spec fn wf(&self) -> bool {
        &&& self.config.wf()
        &&& forall|i: int|
            0 <= i < self.prices@.len() ==> (#[trigger] self.prices@[i]).1.bounded() && instant_ok(
                self.prices@[i].0 as int,
            )
        &&& match self.direction_start {
            Some(t) => instant_ok(t as int),
            None => true,
        }
    }

    pub fn new(config: MomentumConfig) -> (r: MomentumDetector)
        requires
            config.wf(),
        ensures
            r.wf(),
            r.config == config,
            r.prices@.len() == 0,
            r.last_direction.is_none(),
            r.direction_start.is_none(),
    {
        MomentumDetector { config, prices: Vec::new(), last_direction: None, direction_start: None }
    }

    pub fn with_defaults() -> (r: MomentumDetector)
        ensures
            r.wf(),
            r.prices@.len() == 0,
            r.config.window_seconds == 120,
            r.config.confirmation_seconds == 30,
    {
        Self::new(MomentumConfig::default())
    }

    /// Add an observation, then drop from the front every observation older
    /// than `timestamp − window`.
    pub fn update(&mut self, timestamp: i64, price: Fixed)
        requires
            old(self).wf(),
            price.bounded(),
            instant_ok(timestamp as int),
        ensures
            final(self).wf(),
            final(self).config == old(self).config,
            final(self).last_direction == old(self).last_direction,
            final(self).direction_start == old(self).direction_start,
            final(self).prices@ == recent(
                old(self).prices@.push((timestamp, price)),
                (timestamp - old(self).config.window_seconds * MICROS_PER_SEC) as i64,
            ),
    {
        self.prices.push((timestamp, price));
        let cutoff: i64 = timestamp - (self.config.window_seconds as i64) * MICROS_PER_SEC;
        let kept = retain_recent(&self.prices, cutoff);
        proof {
            assert forall|i: int| 0 <= i < kept@.len() implies (#[trigger] kept@[i]).1.bounded() && instant_ok(kept@[i].0 as int) by {
                let j = choose|j: int| 0 <= j < self.prices@.len() && self.prices@[j] == kept@[i];
                if j < old(self).prices@.len() {
                    assert(self.prices@[j] == old(self).prices@[j]);
                }
            }
        }
        self.prices = kept;
    }

    /// Advance the confirmation state machine against `strike_price` and
    /// emit a signal once one direction has held for the confirmation period.
    pub fn detect(&mut self, strike_price: Fixed) -> (r: Option<MomentumSignal>)
        requires
            old(self).wf(),
            strike_price.bounded(),
        ensures
            final(self).wf(),
            final(self).config == old(self).config,
            final(self).prices == old(self).prices,
            detect_post(*old(self), strike_price, *final(self), r),
            r matches Some(m) ==> 0 <= m.confidence.v() <= SCALE && m.move_pct.bounded() && m.current_price.bounded(),
    {
        if self.prices.len() == 0 || strike_price.raw == 0 {
            return None;
        }
        let last = self.prices.len() - 1;
        let (current_ts, current_price) = self.prices[last];
        let diff = current_price.sub(strike_price);
        proof {
            let d = diff.v();
            let st = strike_price.v();
            assert(abs(d) * 1_000_000 <= 2_000_000_000_000 * 1_000_000) by (nonlinear_arith)
                requires abs(d) <= 2_000_000_000_000;
            if st > 0 {
                assert(tdiv(d * 1_000_000, st) <= abs(d) * 1_000_000 && -(abs(d) * 1_000_000) <= tdiv(d * 1_000_000, st)) by (nonlinear_arith)
                    requires st >= 1, abs(d) == (if d >= 0 { d } else { -d }), tdiv(d * 1_000_000, st) == (if d * 1_000_000 >= 0 { (d * 1_000_000) / st } else { -((-(d * 1_000_000)) / st) });
            } else {
                assert(tdiv(-d * 1_000_000, -st) <= abs(d) * 1_000_000 && -(abs(d) * 1_000_000) <= tdiv(-d * 1_000_000, -st)) by (nonlinear_arith)
                    requires -st >= 1, abs(d) == (if d >= 0 { d } else { -d }), tdiv(-d * 1_000_000, -st) == (if -d * 1_000_000 >= 0 { (-d * 1_000_000) / (-st) } else { -((-(-d * 1_000_000)) / (-st)) });
            }
        }
        let move_pct = diff.div(strike_price);
        let abs_move = move_pct.abs();
        if abs_move.raw < self.config.min_move_pct.raw {
            self.last_direction = None;
            self.direction_start = None;
            return None;
        }
        if abs_move.raw > self.config.max_move_pct.raw {
            return None;
        }
        let direction = if move_pct.raw > 0 {
            MomentumDirection::Up
        } else {
            MomentumDirection::Down
        };
        match self.last_direction {
            Some(last_dir) if last_dir == direction => {
                match self.direction_start {
                    Some(start) => {
                        let elapsed = secs_between(start, current_ts);
                        if elapsed >= self.config.confirmation_seconds as i64 {
                            let velocity = self.calculate_velocity();
                            let confidence = self.calculate_confidence(abs_move);
                            return Some(
                                MomentumSignal::new(
                                    direction,
                                    abs_move,
                                    strike_price,
                                    current_price,
                                    velocity,
                                    confidence,
                                    current_ts,
                                ),
                            );
                        }
                    },
                    None => {},
                }
            },
            _ => {
                self.last_direction = Some(direction);
                self.direction_start = Some(current_ts);
            },
        }
        None
    }

    /// Price change per second between the first and last observation.
    fn calculate_velocity(&self) -> (r: Fixed)
        requires
            self.wf(),
        ensures
            r.v() == velocity_of(self.prices@),
    {
        if self.prices.len() < 2 {
            return Fixed::zero();
        }
        let (first_ts, first_price) = self.prices[0];
        let (last_ts, last_price) = self.prices[self.prices.len() - 1];
        let secs = secs_between(first_ts, last_ts);
        if secs == 0 {
            return Fixed::zero();
        }
        let diff: i64 = last_price.raw - first_price.raw;
        let (n, d): (i64, i64) = if secs > 0 {
            (diff, secs)
        } else {
            (-diff, -secs)
        };
        let q: i64 = if n >= 0 {
            n / d
        } else {
            -((-n) / d)
        };
        proof {
            if n >= 0 {
                assert((n as int) / (d as int) <= n as int) by (nonlinear_arith) requires n as int >= 0, d as int >= 1;
            } else {
                assert((-(n as int)) / (d as int) <= -(n as int)) by (nonlinear_arith) requires -(n as int) > 0, d as int >= 1;
            }
        }
        Fixed { raw: q }
    }

    /// Confidence of a move of magnitude `abs_move` given the window size.
    fn calculate_confidence(&self, abs_move: Fixed) -> (r: Fixed)
        requires
            self.wf(),
            0 <= abs_move.v() <= self.config.max_move_pct.v(),
        ensures
            r.v() == confidence_of(abs_move.v(), self.config.min_move_pct.v(), self.prices@.len() as int),
            0 <= r.v() <= SCALE,
    {
        let ghost a = abs_move.v();
        let ghost m = self.config.min_move_pct.v();
        proof {
            assert((a * 1_000_000) / m <= a * 1_000_000) by (nonlinear_arith) requires a >= 0, m >= 1;
            assert(a * 1_000_000 <= 1_000_000_000_000 * 1_000_000) by (nonlinear_arith) requires 0 <= a <= 1_000_000_000_000;
        }
        let ratio = abs_move.div(self.config.min_move_pct);
        let two = Fixed::from_raw(2 * SCALE);
        let capped = ratio.min(two);
        let half = Fixed::from_raw(capped.raw / 2);
        proof {
            crate::fixed::lemma_mul_bounded(half, Fixed { raw: 600_000 });
        }
        let move_conf = half.mul(Fixed::from_raw(600_000));
        let n: usize = if self.prices.len() <= 100 {
            self.prices.len()
        } else {
            100
        };
        let samples = Fixed::from_raw((n as i64) * 10_000);
        proof {
            crate::fixed::lemma_mul_bounded(samples, Fixed { raw: 400_000 });
        }
        let sample_conf = samples.mul(Fixed::from_raw(400_000));
        proof {
            let h = half.v();
            let sm = samples.v();
            assert(0 <= h <= 1_000_000);
            assert(0 <= (h * 600_000) / 1_000_000 <= 600_000) by (nonlinear_arith) requires 0 <= h <= 1_000_000;
            assert(0 <= (sm * 400_000) / 1_000_000 <= 400_000) by (nonlinear_arith) requires 0 <= sm <= 1_000_000;
        }
        move_conf.add(sample_conf)
    }

    pub fn sample_count(&self) -> (r: usize)
        ensures
            r == self.prices@.len(),
    {
        self.prices.len()
    }

    pub fn is_ready(&self) -> (r: bool)
        ensures
            r == (self.prices@.len() >= 2),
    {
        self.prices.len() >= 2
    }

    /// Forget all observations and the confirmation state.
    pub fn clear(&mut self)
        requires
            old(self).wf(),
        ensures
            final(self).wf(),
            final(self).config == old(self).config,
            final(self).prices@.len() == 0,
            final(self).last_direction.is_none(),
            final(self).direction_start.is_none(),
    {
        self.prices.clear();
        self.last_direction = None;
        self.direction_start = None;
    }
}

/// `r` and state `d1` are what one detection against `strike` yields from
/// state `d0`.
pub open spec fn detect_post(d0: MomentumDetector, strike: Fixed, d1: MomentumDetector, r: Option<MomentumSignal>) -> bool {
    let n = d0.prices@.len();
    if n == 0 || strike.v() == 0 {
        r.is_none() && d1.last_direction == d0.last_direction && d1.direction_start == d0.direction_start
    } else {
        let cur = d0.prices@[n - 1];
        let mv = move_of(cur.1.v(), strike.v());
        let am = abs(mv);
        let dir = if mv > 0 { MomentumDirection::Up } else { MomentumDirection::Down };
        if am < d0.config.min_move_pct.v() {
            r.is_none() && d1.last_direction.is_none() && d1.direction_start.is_none()
        } else if am > d0.config.max_move_pct.v() {
            r.is_none() && d1.last_direction == d0.last_direction && d1.direction_start == d0.direction_start
        } else if d0.last_direction == Some(dir) {
            &&& d1.last_direction == d0.last_direction
            &&& d1.direction_start == d0.direction_start
            &&& match d0.direction_start {
                Some(start) => if whole_secs(start as int, cur.0 as int) >= d0.config.confirmation_seconds {
                    r == Some(MomentumSignal {
                        direction: dir,
                        move_pct: Fixed { raw: am as i64 },
                        strike_price: strike,
                        current_price: cur.1,
                        velocity: Fixed { raw: velocity_of(d0.prices@) as i64 },
                        detected_at: cur.0,
                        confidence: Fixed { raw: confidence_of(am, d0.config.min_move_pct.v(), n as int) as i64 },
                    })
                } else {
                    r.is_none()
                },
                None => r.is_none(),
            }
        } else {
            r.is_none() && d1.last_direction == Some(dir) && d1.direction_start == Some(cur.0)
        }
    }
}

/// A signal is emitted only for a move within `[min_move_pct, max_move_pct]`,
/// and its direction is that of `current − strike` (for a positive strike).
pub proof fn lemma_momentum_emits_in_range(d0: MomentumDetector, strike: Fixed, d1: MomentumDetector, r: Option<MomentumSignal>)
    requires
        d0.wf(),
        strike.v() > 0,
        detect_post(d0, strike, d1, r),
        r.is_some(),
    ensures
        r.unwrap().strike_price == strike,
        d0.config.min_move_pct.v() <= r.unwrap().move_pct.v() <= d0.config.max_move_pct.v(),
        r.unwrap().move_pct.v() == abs(move_of(r.unwrap().current_price.v(), strike.v())),
        (r.unwrap().direction == MomentumDirection::Up) <==> r.unwrap().current_price.v() > strike.v(),
        (r.unwrap().direction == MomentumDirection::Down) <==> r.unwrap().current_price.v() < strike.v(),
{
    let n = d0.prices@.len();
    let cur = d0.prices@[n - 1];
    let d = cur.1.v() - strike.v();
    let st = strike.v();
    let mv = move_of(cur.1.v(), st);
    assert(mv == tdiv(d * 1_000_000, st));
    if d > 0 {
        assert(d * 1_000_000 >= 1_000_000) by (nonlinear_arith) requires d >= 1;
        assert((d * 1_000_000) / st >= 0) by (nonlinear_arith) requires d * 1_000_000 >= 0, st >= 1;
        // a positive move is at least the positive minimum, so it is not zero
    } else {
        assert((-(d * 1_000_000)) / st >= 0) by (nonlinear_arith) requires -(d * 1_000_000) >= 0, st >= 1;
    }
}

/// A move beyond `max_move_pct` (and so beyond the minimum) is treated as a
/// data error: nothing is emitted and the confirmation state is kept.
pub proof fn lemma_momentum_extreme_move_ignored(d0: MomentumDetector, strike: Fixed, d1: MomentumDetector, r: Option<MomentumSignal>)
    requires
        d0.config.min_move_pct.v() <= d0.config.max_move_pct.v(),
        d0.prices@.len() > 0,
        strike.v() != 0,
        abs(move_of(d0.prices@.last().1.v(), strike.v())) > d0.config.max_move_pct.v(),
        detect_post(d0, strike, d1, r),
    ensures
        r.is_none(),
        d1.last_direction == d0.last_direction,
        d1.direction_start == d0.direction_start,
{
}

} // verus!
