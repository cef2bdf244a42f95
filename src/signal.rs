//! Generic trading signals.
use vstd::prelude::*;
use crate::fixed::Fixed;
use crate::market::Market;

verus! {

/// Which token a trade buys.
#[derive(Clone, Copy, Debug, PartialEq, Eq, Structural)]
pub enum Side {
    Yes,
    No,
}

/// What produced a signal.
#[derive(Clone, Copy, Debug, PartialEq, Eq, Structural)]
pub enum SignalReason {
    PostResetLag,
    SpotDivergence,
    VolatilitySpike,
    SpreadCapture,
}

/// A trading signal.
#[derive(Clone, Debug)]
pub struct Signal {
    pub id: String,
    pub market: Market,
    pub side: Side,
    pub fair_value: Fixed,
    pub market_price: Fixed,
    /// `fair_value − market_price`.
    pub raw_edge: Fixed,
    pub adjusted_edge: Fixed,
    pub confidence: Fixed,
    pub reason: SignalReason,
    /// Creation instant, microseconds since the epoch.
    pub timestamp: i64,
}

impl Signal {
    /// A signal with a fresh random identifier.
    pub fn new(
        market: Market,
        side: Side,
        fair_value: Fixed,
        market_price: Fixed,
        adjusted_edge: Fixed,
        confidence: Fixed,
        reason: SignalReason,
        timestamp: i64,
    ) -> (r: Signal)
        requires
            -2_000_000_000_000 <= fair_value.v() <= 2_000_000_000_000,
            -2_000_000_000_000 <= market_price.v() <= 2_000_000_000_000,
        ensures
            r.side == side,
            r.fair_value == fair_value,
            r.market_price == market_price,
            r.raw_edge.v() == fair_value.v() - market_price.v(),
            r.adjusted_edge == adjusted_edge,
            r.confidence == confidence,
            r.reason == reason,
            r.timestamp == timestamp,
            r.market == market,
    {
        Signal {
            id: crate::clock::new_id(),
            market,
            side,
            fair_value,
            market_price,
            raw_edge: fair_value.sub(market_price),
            adjusted_edge,
            confidence,
            reason,
            timestamp,
        }
    }
}

} // verus!
