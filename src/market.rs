//! Binary prediction markets.
use vstd::prelude::*;
use crate::fixed::Fixed;

verus! {

/// Microseconds in one second.
pub const MICROS_PER_SEC: i64 = 1_000_000;

/// Whole seconds from `from` to `to` (both microsecond instants), truncated
/// toward zero.
pub open spec fn whole_secs(from: int, to: int) -> int {
    crate::fixed::tdiv(to - from, MICROS_PER_SEC as int)
}

/// Whole seconds between two microsecond instants, truncated toward zero.
pub fn secs_between(from: i64, to: i64) -> (r: i64)
    requires
        i64::MIN <= to - from <= i64::MAX,
    ensures
        r == whole_secs(from as int, to as int),
{
    let d: i64 = to - from;
    if d >= 0 {
        d / MICROS_PER_SEC
    } else if d == i64::MIN {
        // `-d` would overflow; i64::MIN is not a multiple of a million.
        proof {
            assert(-(i64::MIN as int) / 1_000_000 == 9223372036854);
        }
        -9223372036854
    } else {
        -((-d) / MICROS_PER_SEC)
    }
}

/// A 15-minute binary market on the direction of a spot price.
#[derive(Clone, Debug)]
pub struct Market {
    /// Unique condition identifier.
    pub condition_id: String,
    /// Token that pays out if the price ends above the open price.
    pub yes_token_id: String,
    /// Token that pays out otherwise.
    pub no_token_id: String,
    /// Reference (strike) price at market open.
    pub open_price: Fixed,
    /// Open instant, in microseconds since the epoch.
    pub open_time: i64,
    /// Close instant, in microseconds since the epoch.
    pub close_time: i64,
}

impl Market {
    /// The market is active at `now`.
    pub open spec fn active_at(&self, now: int) -> bool {
        self.open_time <= now <= self.close_time
    }

    /// An identical copy.
    pub fn duplicate(&self) -> (r: Market)
        ensures
            r == *self,
    {
        Market {
            condition_id: self.condition_id.clone(),
            yes_token_id: self.yes_token_id.clone(),
            no_token_id: self.no_token_id.clone(),
            open_price: self.open_price,
            open_time: self.open_time,
            close_time: self.close_time,
        }
    }

    pub fn is_active_at(&self, now: i64) -> (r: bool)
        ensures
            r == self.active_at(now as int),
    {
        self.open_time <= now && now <= self.close_time
    }
}

} // verus!
