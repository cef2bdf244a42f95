use poly_hft::config::{ExecutionMode, FeedConfig, LagConfig, MarketConfig, MomentumConfig, RiskConfig, SignalConfig, SizingConfig, SizingMode};
use poly_hft::feed::parse_fixed;
use poly_hft::directory::{GammaConfig, GAMMA_API_URL};
use std::time::Duration;

#[test]
fn test_feed_config() {
    let config = FeedConfig {
        exchange: "binance".to_string(),
        symbol: "BTCUSDT".to_string(),
    };
    assert_eq!(config.exchange, "binance");
    assert_eq!(config.symbol, "BTCUSDT");
}

#[test]
fn test_market_config() {
    let config = MarketConfig {
        asset: "BTC".to_string(),
        interval: "15m".to_string(),
        refresh_interval_secs: 30,
    };
    assert_eq!(config.asset, "BTC");
    assert_eq!(config.refresh_interval_secs, 30);
}

#[test]
fn test_execution_mode_equality() {
    assert_eq!(ExecutionMode::Paper, ExecutionMode::Paper);
    assert_eq!(ExecutionMode::Live, ExecutionMode::Live);
    assert_ne!(ExecutionMode::Paper, ExecutionMode::Live);
}

#[test]
fn test_config_clone() {
    let config = FeedConfig {
        exchange: "binance".to_string(),
        symbol: "BTCUSDT".to_string(),
    };
    let cloned = config.clone();
    assert_eq!(config.exchange, cloned.exchange);
}

#[test]
fn test_gamma_config_default() {
    let config = GammaConfig::default();
    assert_eq!(config.base_url, GAMMA_API_URL);
    assert_eq!(config.timeout, Duration::from_secs(10));
    assert_eq!(config.btc_search_term, "bitcoin");
}

#[test]
fn section_defaults() {
    let m = MomentumConfig::default();
    assert!(m.enabled);
    assert_eq!(m.window_seconds, 120);
    assert_eq!(m.min_move_pct.raw, 7_000);
    assert_eq!(m.max_move_pct.raw, 50_000);
    assert_eq!(m.confirmation_seconds, 30);
    let l = LagConfig::default();
    assert_eq!(l.min_lag_cents.raw, 100_000);
    assert_eq!(l.max_yes_for_up.raw, 600_000);
    assert_eq!(l.min_yes_for_down.raw, 400_000);
    assert_eq!(l.min_seconds_after_open, 60);
    assert_eq!(l.max_seconds_before_close, 120);
    let s = SizingConfig::default();
    assert_eq!(s.mode, SizingMode::Fixed);
    assert_eq!(s.fixed_pct.raw, 100_000);
    assert_eq!(s.max_pct.raw, 200_000);
}

#[test]
fn test_signal_config() {
    let config = SignalConfig {
        min_edge_threshold: parse_fixed("0.005").unwrap(),
        max_edge_threshold: parse_fixed("0.10").unwrap(),
    };
    assert_eq!(config.min_edge_threshold, parse_fixed("0.005").unwrap());
}

#[test]
fn test_risk_config() {
    let config = RiskConfig {
        kelly_fraction: parse_fixed("0.25").unwrap(),
        max_position_pct: parse_fixed("0.01").unwrap(),
        max_concurrent_positions: 3,
        initial_bankroll: parse_fixed("500").unwrap(),
    };
    assert_eq!(config.kelly_fraction, parse_fixed("0.25").unwrap());
}
