//! Pre-trade filter on signals.
use vstd::prelude::*;
use crate::fixed::Fixed;
use crate::signal::Signal;

verus! {

/// Why a signal is rejected.
#[derive(Clone, Copy, Debug, PartialEq, Eq, Structural)]
pub enum RejectReason {
    EdgeTooSmall(Fixed),
    EdgeTooLarge(Fixed),
    InsufficientLiquidity(Fixed),
    /// Time to expiry, microseconds.
    TooCloseToExpiry(i64),
    VolatilityOutOfRange(Fixed),
    MaxPositionsReached,
}

/// Outcome of the filter.
#[derive(Clone, Copy, Debug, PartialEq, Eq, Structural)]
pub enum FilterResult {
    Pass,
    Reject(RejectReason),
}

/// Filter thresholds; durations in microseconds.
#[derive(Clone, Copy, Debug)]
pub struct FilterConfig {
    pub min_edge: Fixed,
    pub max_edge: Fixed,
    pub min_time_to_expiry: i64,
    pub max_time_to_expiry: i64,
    pub min_liquidity: Fixed,
    pub min_volatility: Fixed,
    pub max_volatility: Fixed,
}

/// What the filter decides: position cap first, edge bounds next, time to
/// expiry, liquidity, and last the volatility range.
pub open spec fn filter_outcome(
    cfg: FilterConfig,
    edge: Fixed,
    current_positions: int,
    max_positions: int,
    liquidity: Fixed,
    volatility: Fixed,
    time_to_expiry: i64,
) -> FilterResult {
    if current_positions >= max_positions {
        FilterResult::Reject(RejectReason::MaxPositionsReached)
    } else if edge.v() < cfg.min_edge.v() {
        FilterResult::Reject(RejectReason::EdgeTooSmall(edge))
    } else if edge.v() > cfg.max_edge.v() {
        FilterResult::Reject(RejectReason::EdgeTooLarge(edge))
    } else if time_to_expiry < cfg.min_time_to_expiry {
        FilterResult::Reject(RejectReason::TooCloseToExpiry(time_to_expiry))
    } else if liquidity.v() < cfg.min_liquidity.v() {
        FilterResult::Reject(RejectReason::InsufficientLiquidity(liquidity))
    } else if volatility.v() < cfg.min_volatility.v() || volatility.v() > cfg.max_volatility.v() {
        FilterResult::Reject(RejectReason::VolatilityOutOfRange(volatility))
    } else {
        FilterResult::Pass
    }
}

pub struct SignalFilter {
    pub config: FilterConfig,
}

impl SignalFilter {
    pub fn new(config: FilterConfig) -> (r: SignalFilter)
        ensures
            r.config == config,
    {
        SignalFilter { config }
    }

    pub fn apply(
        &self,
        signal: &Signal,
        current_positions: usize,
        max_positions: usize,
        available_liquidity: Fixed,
        volatility: Fixed,
        time_to_expiry: i64,
    ) -> (r: FilterResult)
        ensures
            r == filter_outcome(
                self.config,
                signal.adjusted_edge,
                current_positions as int,
                max_positions as int,
                available_liquidity,
                volatility,
                time_to_expiry,
            ),
    {
        if current_positions >= max_positions {
            return FilterResult::Reject(RejectReason::MaxPositionsReached);
        }
        if signal.adjusted_edge.raw < self.config.min_edge.raw {
            return FilterResult::Reject(RejectReason::EdgeTooSmall(signal.adjusted_edge));
        }
        if signal.adjusted_edge.raw > self.config.max_edge.raw {
            return FilterResult::Reject(RejectReason::EdgeTooLarge(signal.adjusted_edge));
        }
        if time_to_expiry < self.config.min_time_to_expiry {
            return FilterResult::Reject(RejectReason::TooCloseToExpiry(time_to_expiry));
        }
        if available_liquidity.raw < self.config.min_liquidity.raw {
            return FilterResult::Reject(RejectReason::InsufficientLiquidity(available_liquidity));
        }
        if volatility.raw < self.config.min_volatility.raw || volatility.raw > self.config.max_volatility.raw {
            return FilterResult::Reject(RejectReason::VolatilityOutOfRange(volatility));
        }
        FilterResult::Pass
    }
}

} // verus!
