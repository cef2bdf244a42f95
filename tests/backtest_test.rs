use poly_hft::backtest::{merge_by_time, BacktestEvent, BacktestResult, BacktestSummary, EventStream};
use poly_hft::feed::PriceTick;
use poly_hft::fixed::Fixed;
use poly_hft::market::Market;
use poly_hft::orderbook::OrderBook;

fn tick(t: i64) -> (i64, BacktestEvent) {
    (t, BacktestEvent::PriceTick(PriceTick { symbol: "BTCUSDT".to_string(), price: Fixed::from_raw(t), timestamp: t, exchange_ts: t }))
}

#[test]
fn streams_merge_in_time_order() {
    let merged = merge_by_time(vec![tick(1), tick(4), tick(9)], vec![tick(2), tick(4), tick(10)]);
    let times: Vec<i64> = merged.iter().map(|e| e.0).collect();
    assert_eq!(times, vec![1, 2, 4, 4, 9, 10]);
}

#[test]
fn event_stream_respects_bounds() {
    let mut s = EventStream::new("./data", Some(2), Some(9));
    assert_eq!(s.data_dir, "./data");
    s.load(vec![tick(1), tick(2), tick(5), tick(10)]);
    let mut seen = Vec::new();
    while let Some((t, _)) = s.next_event() {
        seen.push(t);
    }
    assert_eq!(seen, vec![2, 5]);
}

#[test]
fn default_results() {
    let r = BacktestResult::default();
    assert_eq!(r.trades_path, "backtest_trades.parquet");
    assert_eq!(r.summary.total_trades, 0);
    assert_eq!(BacktestSummary::default().net_pnl, Fixed::zero());
}

fn market() -> Market {
    Market {
        condition_id: "c".to_string(),
        yes_token_id: "y".to_string(),
        no_token_id: "n".to_string(),
        open_price: Fixed::from_int(100_000),
        open_time: 0,
        close_time: 900_000_000,
    }
}

#[test]
fn test_event_stream_creation() {
    let stream = EventStream::new("./data", None, None);
    assert_eq!(stream.data_dir, "./data");
    assert!(stream.start_time.is_none());
    assert!(stream.end_time.is_none());
}

#[test]
fn test_event_stream_with_time_bounds() {
    let stream = EventStream::new("./data", Some(1), Some(2));
    assert!(stream.start_time.is_some());
    assert!(stream.end_time.is_some());
}

#[test]
fn test_event_stream_iterator_empty() {
    let mut stream = EventStream::new("./data", None, None);
    assert!(stream.next_event().is_none());
}

#[test]
fn test_backtest_event_price_tick() {
    let e = tick(5).1;
    assert!(matches!(e, BacktestEvent::PriceTick(_)));
}

#[test]
fn test_backtest_event_orderbook() {
    let e = BacktestEvent::OrderBookUpdate(OrderBook::new("t", 0));
    assert!(matches!(e, BacktestEvent::OrderBookUpdate(_)));
}

#[test]
fn test_backtest_event_market_open() {
    let e = BacktestEvent::MarketOpen(market());
    assert!(matches!(e, BacktestEvent::MarketOpen(_)));
}

#[test]
fn test_backtest_event_market_close() {
    let e = BacktestEvent::MarketClose(market());
    assert!(matches!(e, BacktestEvent::MarketClose(_)));
}

#[test]
fn test_backtest_event_clone() {
    let e = BacktestEvent::MarketOpen(market());
    let c = e.clone();
    assert!(matches!(c, BacktestEvent::MarketOpen(m) if m.condition_id == "c"));
}

#[test]
fn test_backtest_summary_default() {
    let s = BacktestSummary::default();
    assert_eq!(s.total_pnl, Fixed::zero());
    assert_eq!(s.total_trades, 0);
    assert_eq!(s.win_rate, Fixed::zero());
}

#[test]
fn test_backtest_summary_clone() {
    let s = BacktestSummary { total_trades: 7, ..BacktestSummary::default() };
    let c = s.clone();
    assert_eq!(c.total_trades, 7);
}

#[test]
fn test_backtest_result_default() {
    let r = BacktestResult::default();
    assert_eq!(r.trades_path, "backtest_trades.parquet");
    assert_eq!(r.equity_path, "equity_curve.parquet");
}

#[test]
fn test_backtest_result_clone() {
    let r = BacktestResult::default();
    let c = r.clone();
    assert_eq!(r.trades_path, c.trades_path);
}
