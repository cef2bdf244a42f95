use poly_hft::risk::KellyCalculator;
use poly_hft::execution::{Fill, Order, OrderType, PaperEngine};
use poly_hft::fixed::Fixed;
use poly_hft::lag::{LagDetector, LagDetectorConfig, NoLagReason, OddsState, TradeSide};
use poly_hft::market::Market;
use poly_hft::momentum::{MomentumConfig, MomentumDetector, MomentumDirection, MomentumSignal};
use poly_hft::orderbook::{OrderBook, OrderBookManager, PriceLevel};
use poly_hft::position::PositionTracker;
use poly_hft::risk::{DrawdownMonitor, FixedSizer, HaltReason, KellySizer, PositionLimits};
use poly_hft::signal::{Side, Signal, SignalReason};
use poly_hft::spread::{MarketBooks, SpreadConfig, SpreadDetector};

const NOW: i64 = 1_700_000_000_000_000;
const SEC: i64 = 1_000_000;

fn dec(m: i64, scale: u32) -> Fixed {
    Fixed::new(m, scale)
}

fn market() -> Market {
    Market {
        condition_id: "cond".to_string(),
        yes_token_id: "yes".to_string(),
        no_token_id: "no".to_string(),
        open_price: dec(95000, 0),
        open_time: NOW - 300 * SEC,
        close_time: NOW + 600 * SEC,
    }
}

fn level(p: Fixed, s: Fixed) -> PriceLevel {
    PriceLevel { price: p, size: s }
}

fn book(token: &str, bids: Vec<PriceLevel>, asks: Vec<PriceLevel>, at: i64) -> OrderBook {
    OrderBook { token_id: token.to_string(), bids, asks, updated_at: at }
}

#[test]
fn empty_book_has_no_prices() {
    let b = OrderBook::new("t", NOW);
    assert!(b.best_bid().is_none());
    assert!(b.best_ask().is_none());
    assert!(b.mid_price().is_none());
    assert!(b.spread().is_none());
}

#[test]
fn mid_and_spread() {
    let b = book("t", vec![level(dec(50, 2), dec(100, 0))], vec![level(dec(52, 2), dec(100, 0))], NOW);
    assert_eq!(b.mid_price(), Some(dec(51, 2)));
    assert_eq!(b.spread(), Some(dec(2, 2)));
}

#[test]
fn deltas_merge_in_order_and_zero_removes() {
    let mut store = OrderBookManager::new();
    store.update(book("t", vec![level(dec(50, 2), dec(10, 0))], vec![level(dec(60, 2), dec(5, 0))], NOW));
    store.update(book(
        "t",
        vec![level(dec(52, 2), dec(7, 0)), level(dec(48, 2), dec(3, 0))],
        vec![level(dec(58, 2), dec(2, 0)), level(dec(60, 2), dec(0, 0))],
        NOW + 1,
    ));
    let b = store.get("t").unwrap();
    let bids: Vec<i64> = b.bids.iter().map(|l| l.price.raw).collect();
    assert_eq!(bids, vec![520_000, 500_000, 480_000]);
    let asks: Vec<i64> = b.asks.iter().map(|l| l.price.raw).collect();
    assert_eq!(asks, vec![580_000]);
    assert_eq!(b.updated_at, NOW + 1);
    assert_eq!(store.best_yes_price("t"), Some(dec(58, 2)));
    assert_eq!(store.len(), 1);
    assert!(store.has_token("t"));
    assert!(!store.has_token("u"));
}

#[test]
fn snapshot_twice_equals_once() {
    let snap_bids: Vec<PriceLevel> = (1..=6).map(|i| level(dec(40 + i, 2), dec(i, 0))).collect();
    let snap_asks: Vec<PriceLevel> = (1..=6).map(|i| level(dec(60 + i, 2), dec(i, 0))).collect();
    let snap = book("t", snap_bids, snap_asks, NOW);
    let mut store = OrderBookManager::new();
    store.update(book("t", vec![level(dec(10, 2), dec(1, 0))], vec![], NOW - 5));
    store.update(snap.clone());
    let once = store.get("t").unwrap().clone();
    store.update(snap);
    let twice = store.get("t").unwrap();
    assert_eq!(once.bids, twice.bids);
    assert_eq!(once.asks, twice.asks);
    assert_eq!(once.bids.len(), 6);
    assert_eq!(once.bids[0].price, dec(46, 2));
    assert_eq!(once.asks[0].price, dec(61, 2));
}

fn spread_books(yes_at: i64) -> MarketBooks {
    MarketBooks::new(
        book("yes", vec![], vec![level(dec(56, 2), dec(100, 0))], yes_at),
        book("no", vec![], vec![level(dec(40, 2), dec(100, 0))], NOW),
    )
}

#[test]
fn spread_arbitrage_scenario() {
    let config = SpreadConfig { min_profit_pct: dec(1, 2), fee_rate_per_side: dec(5, 3), max_book_age_ms: 2000, base_size_usd: dec(5, 0), max_positions: 50 };
    let detector = SpreadDetector::with_config(config);
    let s = detector.detect(&market(), &spread_books(NOW), NOW).unwrap();
    assert_eq!(s.total_cost, dec(96, 2));
    assert_eq!(s.gross_profit, dec(4, 2));
    assert_eq!(s.net_profit, dec(3, 2));
    assert_eq!(s.profit_pct, dec(3125, 5));
    assert_eq!(s.size_per_leg_usd, dec(5, 0));
    assert_eq!(s.yes_liquidity, dec(100, 0));
}

#[test]
fn spread_stale_scenario() {
    let config = SpreadConfig { min_profit_pct: dec(1, 2), fee_rate_per_side: dec(5, 3), max_book_age_ms: 100, base_size_usd: dec(5, 0), max_positions: 50 };
    let detector = SpreadDetector::with_config(config);
    assert!(detector.detect(&market(), &spread_books(NOW - 5 * SEC), NOW).is_none());
    let edge = SpreadConfig { max_book_age_ms: 100, ..config };
    let d2 = SpreadDetector::with_config(edge);
    assert!(d2.detect(&market(), &spread_books(NOW - 100_000), NOW).is_some());
    assert!(d2.detect(&market(), &spread_books(NOW - 101_000), NOW).is_none());
}

#[test]
fn spread_rejections() {
    let detector = SpreadDetector::new();
    let costly = MarketBooks::new(
        book("yes", vec![], vec![level(dec(56, 2), dec(100, 0))], NOW),
        book("no", vec![], vec![level(dec(46, 2), dec(100, 0))], NOW),
    );
    assert!(detector.detect(&market(), &costly, NOW).is_none());
    let thin = MarketBooks::new(
        book("yes", vec![], vec![level(dec(50, 2), dec(5, 1))], NOW),
        book("no", vec![], vec![level(dec(40, 2), dec(100, 0))], NOW),
    );
    assert!(detector.detect(&market(), &thin, NOW).is_none());
    assert_eq!(spread_books(NOW).combined_cost(), Some(dec(96, 2)));
}

#[test]
fn spread_position_counting() {
    let config = SpreadConfig { max_positions: 2, ..SpreadConfig::default() };
    let mut d = SpreadDetector::with_config(config);
    assert!(d.can_take_position("m"));
    d.add_position("m");
    assert!(d.can_take_position("m"));
    d.add_position("m");
    assert!(!d.can_take_position("m"));
    d.remove_position("m");
    assert!(d.can_take_position("m"));
}

fn momentum_config() -> MomentumConfig {
    MomentumConfig { window_seconds: 120, min_move_pct: dec(7, 3), max_move_pct: dec(5, 2), confirmation_seconds: 5 }
}

fn feed(det: &mut MomentumDetector, price: Fixed) -> Vec<Option<MomentumSignal>> {
    let mut out = Vec::new();
    for s in 0..10 {
        det.update(NOW + s * SEC, price);
        out.push(det.detect(dec(95000, 0)));
    }
    out
}

fn lag_config() -> LagDetectorConfig {
    LagDetectorConfig { min_lag_cents: dec(5, 2), ..LagDetectorConfig::default() }
}

fn odds() -> OddsState {
    OddsState::new(dec(52, 2), dec(48, 2), NOW)
}

#[test]
fn momentum_lag_up_scenario() {
    let mut det = MomentumDetector::new(momentum_config());
    let out = feed(&mut det, dec(95760, 0));
    assert!(out[..5].iter().all(|s| s.is_none()));
    let m = out[5].unwrap();
    assert_eq!(m.direction, MomentumDirection::Up);
    assert_eq!(m.move_pct, dec(8, 3));
    let lag = LagDetector::with_config(lag_config());
    let sig = lag.detect_at(&m, &odds(), &market(), NOW + 5 * SEC).unwrap().unwrap();
    assert_eq!(sig.side, TradeSide::Yes);
    assert_eq!(sig.expected_price, dec(58, 2));
    assert_eq!(sig.lag_magnitude, dec(6, 2));
    assert!(sig.confidence.raw > 0);
}

#[test]
fn momentum_lag_down_scenario() {
    let mut det = MomentumDetector::new(momentum_config());
    let out = feed(&mut det, dec(94050, 0));
    let m = out[5].unwrap();
    assert_eq!(m.direction, MomentumDirection::Down);
    let lag = LagDetector::with_config(lag_config());
    let sig = lag.detect_at(&m, &odds(), &market(), NOW + 5 * SEC).unwrap().unwrap();
    assert_eq!(sig.side, TradeSide::No);
    assert_eq!(sig.expected_price, dec(40, 2));
    assert_eq!(sig.lag_magnitude, dec(12, 2));
}

#[test]
fn extreme_move_scenario() {
    let mut det = MomentumDetector::new(momentum_config());
    let out = feed(&mut det, dec(104500, 0));
    assert!(out.iter().all(|s| s.is_none()));
}

#[test]
fn small_move_resets_confirmation() {
    let mut det = MomentumDetector::new(momentum_config());
    det.update(NOW, dec(95760, 0));
    assert!(det.detect(dec(95000, 0)).is_none());
    assert_eq!(det.last_direction, Some(MomentumDirection::Up));
    det.update(NOW + SEC, dec(95100, 0));
    assert!(det.detect(dec(95000, 0)).is_none());
    assert_eq!(det.last_direction, None);
    assert_eq!(det.direction_start, None);
}

#[test]
fn window_drops_old_observations() {
    let mut det = MomentumDetector::new(MomentumConfig { window_seconds: 10, ..momentum_config() });
    det.update(NOW, dec(1, 0));
    det.update(NOW + 5 * SEC, dec(1, 0));
    assert_eq!(det.sample_count(), 2);
    det.update(NOW + 15 * SEC, dec(1, 0));
    assert_eq!(det.sample_count(), 2);
    det.update(NOW + 16 * SEC, dec(1, 0));
    assert_eq!(det.sample_count(), 2);
}

#[test]
fn too_early_wins_over_small_lag() {
    let m = MomentumSignal::new(MomentumDirection::Up, dec(1, 3), dec(95000, 0), dec(95095, 0), dec(0, 0), dec(5, 1), NOW);
    let lag = LagDetector::new();
    let early = Market { open_time: NOW - 10 * SEC, ..market() };
    assert_eq!(lag.detect_at(&m, &odds(), &early, NOW).unwrap_err(), NoLagReason::TooEarlyInWindow);
    assert_eq!(lag.detect_at(&m, &odds(), &market(), NOW).unwrap_err(), NoLagReason::LagTooSmall);
    let late = Market { close_time: NOW + 60 * SEC, ..market() };
    assert_eq!(lag.detect_at(&m, &odds(), &late, NOW).unwrap_err(), NoLagReason::TooCloseToClose);
}

#[test]
fn risk_halt_scenario() {
    let mut monitor = DrawdownMonitor::new(dec(1000, 0));
    let limits = PositionLimits::default();
    monitor.update(dec(850, 0));
    assert!(matches!(monitor.should_halt(&limits), Some(HaltReason::MaxDailyLossReached(_))));
    monitor.reset_daily();
    monitor.update(dec(1000, 0));
    monitor.update(dec(850, 0));
    assert_eq!(monitor.should_halt(&limits), Some(HaltReason::MaxDrawdownReached(dec(15, 2))));
}

#[test]
fn drawdown_from_peak() {
    let mut monitor = DrawdownMonitor::new(dec(1000, 0));
    monitor.update(dec(1100, 0));
    assert_eq!(monitor.peak_equity, dec(1100, 0));
    assert_eq!(monitor.current_drawdown(), dec(0, 0));
    monitor.update(dec(990, 0));
    assert_eq!(monitor.current_drawdown(), dec(10, 2));
}

#[test]
fn sizing_policies() {
    let fixed = FixedSizer::default();
    assert_eq!(fixed.calculate_size(dec(1000, 0)), dec(100, 0));
    assert_eq!(fixed.calculate_size(dec(5, 0)), dec(1, 0));
    assert_eq!(fixed.calculate_with_confidence(dec(1000, 0), dec(1, 0)), dec(100, 0));
    assert_eq!(fixed.calculate_with_confidence(dec(1000, 0), dec(0, 0)), dec(50, 0));
    let kelly = KellySizer::default();
    // p = min(0.8 + 0.05, 0.95) = 0.85, k = 0.7, quarter = 0.175, capped at 0.2
    assert_eq!(kelly.calculate_from_lag(dec(1, 1), dec(1000, 0)), dec(175, 0));
    assert_eq!(kelly.calculate_from_lag(dec(1, 0), dec(1000, 0)), dec(200, 0));
}

fn fill(price: Fixed, size: Fixed, fees: Fixed) -> Fill {
    Fill { order_id: "o".to_string(), token_id: "yes".to_string(), side: Side::Yes, price, size, timestamp: NOW, fees }
}

#[test]
fn ledger_open_close_and_marks() {
    let mut t = PositionTracker::new();
    let sig = Signal::new(market(), Side::Yes, dec(55, 2), dec(50, 2), dec(2, 2), dec(8, 1), SignalReason::SpotDivergence, NOW);
    assert_eq!(sig.raw_edge, dec(5, 2));
    let p = t.open(&sig, &fill(dec(50, 2), dec(100, 0), dec(5, 1)));
    assert_eq!(t.total_exposure, dec(50, 0));
    t.update_mark("cond", dec(60, 2));
    assert_eq!(t.open_positions[0].unrealized_pnl, dec(10, 0));
    t.update_mark("other", dec(90, 2));
    assert_eq!(t.open_positions[0].unrealized_pnl, dec(10, 0));
    assert_eq!(t.total_pnl(), dec(10, 0));
    let c = t.close(&p.id, &fill(dec(60, 2), dec(100, 0), dec(5, 1))).unwrap();
    assert_eq!(c.realized_pnl, dec(95, 1));
    assert_eq!(c.realized_pnl.raw + c.fees.raw, 10_000_000);
    assert_eq!(t.open_count(), 0);
    assert_eq!(t.total_pnl(), dec(95, 1));
    assert!(t.close("missing", &fill(dec(1, 1), dec(1, 0), dec(0, 0))).is_none());
}

#[test]
fn ledger_no_side_profit() {
    let mut t = PositionTracker::new();
    let sig = Signal::new(market(), Side::No, dec(55, 2), dec(50, 2), dec(2, 2), dec(8, 1), SignalReason::SpotDivergence, NOW);
    let p = t.open(&sig, &fill(dec(50, 2), dec(100, 0), dec(5, 1)));
    let c = t.close(&p.id, &fill(dec(40, 2), dec(100, 0), dec(5, 1))).unwrap();
    assert_eq!(c.realized_pnl, dec(95, 1));
}

#[test]
fn paper_engine_fills_at_order_price() {
    let mut engine = PaperEngine::new(dec(1, 3));
    let order = Order { token_id: "t".to_string(), side: Side::Yes, price: dec(50, 2), size: dec(100, 0), order_type: OrderType::Limit };
    let id = engine.submit_order(order);
    assert_eq!(id.len(), 36);
    let fills = engine.get_fills();
    assert_eq!(fills.len(), 1);
    assert_eq!(fills[0].order_id, id);
    assert_eq!(fills[0].price, dec(50, 2));
    assert_eq!(fills[0].fees, dec(5, 2));
}

#[test]
fn kelly_calculator_sizes_edges() {
    let k = KellyCalculator::default();
    let edge = Signal::new(market(), Side::Yes, dec(60, 2), dec(50, 2), dec(0, 0), dec(1, 0), SignalReason::SpotDivergence, NOW);
    // (0.6 - 0.5) / 0.5 = 0.2, quarter = 0.05 of 1000 = 50, capped at 10
    assert_eq!(k.calculate(&edge, dec(1000, 0)), dec(10, 0));
    let loose = KellyCalculator::new(dec(25, 2), dec(1, 0));
    assert_eq!(loose.calculate(&edge, dec(1000, 0)), dec(50, 0));
    let none = Signal::new(market(), Side::Yes, dec(40, 2), dec(50, 2), dec(0, 0), dec(1, 0), SignalReason::SpotDivergence, NOW);
    assert_eq!(k.calculate(&none, dec(1000, 0)), dec(0, 0));
}
