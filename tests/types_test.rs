use poly_hft::depth::{PolymarketClient, PolymarketConfig, POLYMARKET_WS_URL};
use poly_hft::execution::OrderType;
use poly_hft::feed::BinanceFeed;
use poly_hft::lag::{NoLagReason, TradeSide};
use poly_hft::momentum::MomentumDirection;

#[test]
fn test_order_type_market() {
    let order_type = OrderType::Market;
    assert_eq!(order_type, OrderType::Market);
}

#[test]
fn test_order_type_limit() {
    let order_type = OrderType::Limit;
    assert_eq!(order_type, OrderType::Limit);
}

#[test]
fn test_order_type_clone() {
    let order_type = OrderType::Market;
    let cloned = order_type;
    assert_eq!(order_type, cloned);
}

#[test]
fn test_order_type_debug() {
    let order_type = OrderType::Market;
    let debug_str = format!("{:?}", order_type);
    assert!(debug_str.contains("Market"));
}

#[test]
fn test_binance_feed_creation() {
    let feed = BinanceFeed::new("btcusdt");
    assert_eq!(feed.symbol, "btcusdt");
}

#[test]
fn test_binance_feed_uppercase_symbol() {
    let feed = BinanceFeed::new("BTCUSDT");
    assert_eq!(feed.symbol, "btcusdt");
}

#[test]
fn test_build_ws_url() {
    let feed = BinanceFeed::new("btcusdt");
    let url = feed.build_ws_url();
    assert_eq!(url, "wss://stream.binance.com:9443/ws/btcusdt@trade");
}

#[test]
fn test_trade_side() {
    assert_eq!(TradeSide::Yes.opposite(), TradeSide::No);
    assert_eq!(TradeSide::No.opposite(), TradeSide::Yes);
}

#[test]
fn test_no_lag_reason_display() {
    assert_eq!(NoLagReason::NoMomentum.message(), "No momentum detected");
    assert_eq!(NoLagReason::OddsAlreadyMoved.message(), "Odds already reflect momentum");
    assert_eq!(NoLagReason::LagTooSmall.message(), "Lag below minimum threshold");
}

#[test]
fn test_momentum_direction() {
    assert_eq!(MomentumDirection::Up, MomentumDirection::Up);
    assert_ne!(MomentumDirection::Up, MomentumDirection::Down);
}

#[test]
fn test_polymarket_client_creation() {
    let client = PolymarketClient::new();
    assert_eq!(client.config.ws_url, POLYMARKET_WS_URL);
}

#[test]
fn test_polymarket_config_default() {
    let config = PolymarketConfig::default();
    assert_eq!(config.max_reconnects, 0);
    assert_eq!(config.buffer_size, 256);
}
