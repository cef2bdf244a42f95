//! Metric names and latency samples; exporters are wired outside the
//! library.
use vstd::prelude::*;
use core::time::Duration;
use crate::ws::{duration_millis, millis_of};

verus! {

/// Latency histograms.
#[derive(Clone, Copy, Debug, PartialEq, Eq, Structural)]
pub enum LatencyMetric {
    PriceFeed,
    OrderBook,
    SignalGeneration,
    OrderSubmission,
}

/// Gauges.
#[derive(Clone, Copy, Debug, PartialEq, Eq, Structural)]
pub enum GaugeMetric {
    Equity,
    UnrealizedPnl,
    RealizedPnl,
    OpenPositions,
    TotalExposure,
    DrawdownPct,
    DailyPnl,
    CurrentVolatility,
    ActiveMarkets,
}

/// Log output format.
#[derive(Clone, Copy, Debug, PartialEq, Eq, Structural)]
pub enum LogFormat {
    Pretty,
    Json,
}

/// Held while telemetry is running.
#[derive(Debug)]
pub struct TelemetryGuard {}

/// Exported name of a latency histogram.
pub open spec fn latency_name(m: LatencyMetric) -> Seq<char> {
    match m {
        LatencyMetric::PriceFeed => "polyhft_price_feed_latency_ms"@,
        LatencyMetric::OrderBook => "polyhft_orderbook_update_latency_ms"@,
        LatencyMetric::SignalGeneration => "polyhft_signal_generation_latency_ms"@,
        LatencyMetric::OrderSubmission => "polyhft_order_submission_latency_ms"@,
    }
}

impl LatencyMetric {
    /// Exported name of the histogram.
    pub fn name(&self) -> (r: &'static str)
        ensures
            r@ == latency_name(*self),
    {
        match self {
            LatencyMetric::PriceFeed => "polyhft_price_feed_latency_ms",
            LatencyMetric::OrderBook => "polyhft_orderbook_update_latency_ms",
            LatencyMetric::SignalGeneration => "polyhft_signal_generation_latency_ms",
            LatencyMetric::OrderSubmission => "polyhft_order_submission_latency_ms",
        }
    }
}

impl GaugeMetric {
    /// Exported name of the gauge.
    pub fn name(&self) -> (r: &'static str)
        ensures
            r@ == match self {
                GaugeMetric::Equity => "polyhft_equity_usd"@,
                GaugeMetric::UnrealizedPnl => "polyhft_unrealized_pnl_usd"@,
                GaugeMetric::RealizedPnl => "polyhft_realized_pnl_usd"@,
                GaugeMetric::OpenPositions => "polyhft_open_positions"@,
                GaugeMetric::TotalExposure => "polyhft_total_exposure_usd"@,
                GaugeMetric::DrawdownPct => "polyhft_drawdown_pct"@,
                GaugeMetric::DailyPnl => "polyhft_daily_pnl_usd"@,
                GaugeMetric::CurrentVolatility => "polyhft_current_volatility"@,
                GaugeMetric::ActiveMarkets => "polyhft_active_markets"@,
            },
    {
        match self {
            GaugeMetric::Equity => "polyhft_equity_usd",
            GaugeMetric::UnrealizedPnl => "polyhft_unrealized_pnl_usd",
            GaugeMetric::RealizedPnl => "polyhft_realized_pnl_usd",
            GaugeMetric::OpenPositions => "polyhft_open_positions",
            GaugeMetric::TotalExposure => "polyhft_total_exposure_usd",
            GaugeMetric::DrawdownPct => "polyhft_drawdown_pct",
            GaugeMetric::DailyPnl => "polyhft_daily_pnl_usd",
            GaugeMetric::CurrentVolatility => "polyhft_current_volatility",
            GaugeMetric::ActiveMarkets => "polyhft_active_markets",
        }
    }
}

/// A latency observation ready for export: histogram name and whole
/// milliseconds.
pub fn record_latency(metric: LatencyMetric, duration: Duration) -> (r: (&'static str, u64))
    ensures
        r.0@ == latency_name(metric),
        r.1 as nat == if millis_of(duration) <= u64::MAX { millis_of(duration) } else { u64::MAX as nat },
{
    (metric.name(), duration_millis(duration))
}

} // verus!
