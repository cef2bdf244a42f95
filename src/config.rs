//! Configuration sections of the engine.
use vstd::prelude::*;
use crate::fixed::Fixed;

verus! {

/// Price feed selection.
#[derive(Clone, Debug)]
pub struct FeedConfig {
    pub exchange: String,
    pub symbol: String,
}

/// Market discovery.
#[derive(Clone, Debug)]
pub struct MarketConfig {
    pub asset: String,
    pub interval: String,
    pub refresh_interval_secs: u64,
}

/// Fair-value model.
#[derive(Clone, Copy, Debug)]
pub struct ModelConfig {
    pub volatility_window_minutes: u64,
    pub min_time_to_expiry_secs: u64,
}

/// Signal thresholds.
#[derive(Clone, Copy, Debug)]
pub struct SignalConfig {
    pub min_edge_threshold: Fixed,
    pub max_edge_threshold: Fixed,
}

/// Risk parameters.
#[derive(Clone, Copy, Debug)]
pub struct RiskConfig {
    pub kelly_fraction: Fixed,
    pub max_position_pct: Fixed,
    pub max_concurrent_positions: usize,
    pub initial_bankroll: Fixed,
}

/// Paper or live execution.
#[derive(Clone, Copy, Debug, PartialEq, Eq, Structural)]
pub enum ExecutionMode {
    Paper,
    Live,
}

/// Execution engine.
#[derive(Clone, Copy, Debug)]
pub struct ExecutionConfig {
    pub mode: ExecutionMode,
    pub slippage_estimate: Fixed,
}

/// Data capture.
#[derive(Clone, Debug)]
pub struct DataConfig {
    pub capture_enabled: bool,
    pub output_dir: String,
    pub rotation_interval: String,
}

/// Telemetry.
#[derive(Clone, Debug)]
pub struct TelemetryConfig {
    pub metrics_port: u16,
    pub log_level: String,
    pub otlp_endpoint: Option<String>,
}

/// Momentum detection section.
#[derive(Clone, Copy, Debug)]
pub struct MomentumConfig {
    pub enabled: bool,
    pub window_seconds: u64,
    pub min_move_pct: Fixed,
    pub max_move_pct: Fixed,
    pub confirmation_seconds: u64,
}

pub fn default_true() -> (r: bool)
    ensures
        r,
{
    true
}

pub fn default_momentum_window() -> (r: u64)
    ensures
        r == 120,
{
    120
}

pub fn default_min_move_pct() -> (r: Fixed)
    ensures
        r.v() == 7_000,
{
    Fixed::from_raw(7_000)
}

pub fn default_max_move_pct() -> (r: Fixed)
    ensures
        r.v() == 50_000,
{
    Fixed::from_raw(50_000)
}

pub fn default_confirmation_seconds() -> (r: u64)
    ensures
        r == 30,
{
    30
}

impl MomentumConfig {
    /// Enabled, 120 s window, moves between 0.7 % and 5 %, 30 s confirmation.
    pub fn default() -> (r: MomentumConfig)
        ensures
            r.enabled,
            r.window_seconds == 120,
            r.min_move_pct.v() == 7_000,
            r.max_move_pct.v() == 50_000,
            r.confirmation_seconds == 30,
    {
        MomentumConfig {
            enabled: default_true(),
            window_seconds: default_momentum_window(),
            min_move_pct: default_min_move_pct(),
            max_move_pct: default_max_move_pct(),
            confirmation_seconds: default_confirmation_seconds(),
        }
    }
}

/// Lag detection section.
#[derive(Clone, Copy, Debug)]
pub struct LagConfig {
    pub min_lag_cents: Fixed,
    pub max_yes_for_up: Fixed,
    pub min_yes_for_down: Fixed,
    pub min_seconds_after_open: u64,
    pub max_seconds_before_close: u64,
}

pub fn default_min_lag_cents() -> (r: Fixed)
    ensures
        r.v() == 100_000,
{
    Fixed::from_raw(100_000)
}

pub fn default_max_yes_for_up() -> (r: Fixed)
    ensures
        r.v() == 600_000,
{
    Fixed::from_raw(600_000)
}

pub fn default_min_yes_for_down() -> (r: Fixed)
    ensures
        r.v() == 400_000,
{
    Fixed::from_raw(400_000)
}

pub fn default_min_seconds_after_open() -> (r: u64)
    ensures
        r == 60,
{
    60
}

pub fn default_max_seconds_before_close() -> (r: u64)
    ensures
        r == 120,
{
    120
}

impl LagConfig {
    /// Ten cents of lag, YES 0.60 / 0.40 limits, 60 s after open, 120 s
    /// before close.
    pub fn default() -> (r: LagConfig)
        ensures
            r.min_lag_cents.v() == 100_000,
            r.max_yes_for_up.v() == 600_000,
            r.min_yes_for_down.v() == 400_000,
            r.min_seconds_after_open == 60,
            r.max_seconds_before_close == 120,
    {
        LagConfig {
            min_lag_cents: default_min_lag_cents(),
            max_yes_for_up: default_max_yes_for_up(),
            min_yes_for_down: default_min_yes_for_down(),
            min_seconds_after_open: default_min_seconds_after_open(),
            max_seconds_before_close: default_max_seconds_before_close(),
        }
    }
}

/// Sizing policy selector.
#[derive(Clone, Copy, Debug, PartialEq, Eq, Structural)]
pub enum SizingMode {
    Fixed,
    Kelly,
}

pub fn default_sizing_mode() -> (r: SizingMode)
    ensures
        r == SizingMode::Fixed,
{
    SizingMode::Fixed
}

pub fn default_fixed_pct() -> (r: Fixed)
    ensures
        r.v() == 100_000,
{
    Fixed::from_raw(100_000)
}

pub fn default_max_pct() -> (r: Fixed)
    ensures
        r.v() == 200_000,
{
    Fixed::from_raw(200_000)
}

/// Position sizing section.
#[derive(Clone, Copy, Debug)]
pub struct SizingConfig {
    pub mode: SizingMode,
    pub fixed_pct: Fixed,
    pub max_pct: Fixed,
}

impl SizingConfig {
    /// Fixed mode, ten percent per trade, twenty percent at most.
    pub fn default() -> (r: SizingConfig)
        ensures
            r.mode == SizingMode::Fixed,
            r.fixed_pct.v() == 100_000,
            r.max_pct.v() == 200_000,
    {
        SizingConfig { mode: default_sizing_mode(), fixed_pct: default_fixed_pct(), max_pct: default_max_pct() }
    }
}

/// The whole configuration document.
#[derive(Clone, Debug)]
pub struct Config {
    pub feed: FeedConfig,
    pub market: MarketConfig,
    pub model: ModelConfig,
    pub signal: SignalConfig,
    pub risk: RiskConfig,
    pub execution: ExecutionConfig,
    pub data: DataConfig,
    pub telemetry: TelemetryConfig,
    pub momentum: MomentumConfig,
    pub lag: LagConfig,
    pub sizing: SizingConfig,
}

} // verus!
