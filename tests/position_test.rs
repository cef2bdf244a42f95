use poly_hft::config::{LagConfig, SizingConfig, SizingMode};
use poly_hft::depth::{book_event_to_orderbook, price_changes_to_orderbooks, BookEvent, BookLevel, PriceChange};
use poly_hft::directory::{convert_to_market, parse_token_ids, CatalogMarket, GammaClient, GammaConfig};
use poly_hft::execution::{Fill, Order, OrderType, PaperEngine};
use poly_hft::feed::parse_fixed;
use poly_hft::filter::{FilterConfig, FilterResult, RejectReason, SignalFilter};
use poly_hft::fixed::Fixed;
use poly_hft::lag::{LagDetector, LagDetectorConfig, LagSignal, NoLagReason, OddsState, TradeSide};
use poly_hft::market::Market;
use poly_hft::model::{FairValue, GbmModel, SignalDetector};
use poly_hft::momentum::{MomentumConfig, MomentumDetector, MomentumDirection, MomentumSignal};
use poly_hft::orderbook::{OrderBook, OrderBookManager, PriceLevel};
use poly_hft::position::{ClosedPosition, Position, PositionTracker};
use poly_hft::risk::{create_sizer, DrawdownMonitor, FixedSizer, HaltReason, KellyCalculator, KellySizer, PositionLimits, Sizer};
use poly_hft::signal::{Side, Signal, SignalReason};
use poly_hft::signal_detector::{DetectionResult, MomentumSignalDetector};
use poly_hft::spread::{MarketBooks, SpreadConfig, SpreadDetector};

const NOW: i64 = 1_700_000_000_000_000;
const SEC: i64 = 1_000_000;

fn d(s: &str) -> Fixed {
    parse_fixed(s).unwrap()
}



    fn create_test_market() -> Market {
        Market {
            condition_id: "test-cond-123".to_string(),
            yes_token_id: "yes-token".to_string(),
            no_token_id: "no-token".to_string(),
            open_price: d("100000"),
            open_time: NOW - (5 * 60 * SEC),
            close_time: NOW + (10 * 60 * SEC),
        }
    }

    fn create_test_signal(side: Side) -> Signal {
        Signal::new(
            create_test_market(),
            side,
            d("0.55"),
            d("0.50"),
            d("0.02"),
            d("0.8"),
            SignalReason::SpotDivergence, NOW)
    }

    fn create_test_fill(price: Fixed, size: Fixed, fees: Fixed) -> Fill {
        Fill {
            order_id: "x".to_string(),
            token_id: "yes-token".to_string(),
            side: Side::Yes,
            price,
            size,
            timestamp: NOW,
            fees,
        }
    }

    #[test]
    fn test_position_tracker_creation() {
        let tracker = PositionTracker::new();
        assert_eq!(tracker.open_count(), 0);
        assert_eq!(tracker.total_exposure, d("0"));
        assert!(tracker.closed_positions.is_empty());
    }

    #[test]
    fn test_position_tracker_default() {
        let tracker = PositionTracker::default();
        assert_eq!(tracker.open_count(), 0);
    }

    #[test]
    fn test_open_position() {
        let mut tracker = PositionTracker::new();
        let signal = create_test_signal(Side::Yes);
        let fill = create_test_fill(d("0.50"), d("100"), d("0.5"));

        let position = tracker.open(&signal, &fill);

        assert_eq!(position.side, Side::Yes);
        assert_eq!(position.entry_price, d("0.50"));
        assert_eq!(position.size, d("100"));
        assert_eq!(position.unrealized_pnl, d("0"));
        assert_eq!(tracker.open_count(), 1);
        assert_eq!(tracker.total_exposure, d("50"));
    }

    #[test]
    fn test_close_position_yes_profit() {
        let mut tracker = PositionTracker::new();
        let signal = create_test_signal(Side::Yes);
        let entry_fill = create_test_fill(d("0.50"), d("100"), d("0.5"));

        let position = tracker.open(&signal, &entry_fill);
        let position_id = position.id;


        let exit_fill = create_test_fill(d("0.60"), d("100"), d("0.5"));
        let closed = tracker.close(&position_id, &exit_fill).unwrap();


        assert_eq!(closed.exit_price, d("0.60"));
        assert_eq!(closed.realized_pnl, d("9.5"));
        assert_eq!(tracker.open_count(), 0);
    }

    #[test]
    fn test_close_position_yes_loss() {
        let mut tracker = PositionTracker::new();
        let signal = create_test_signal(Side::Yes);
        let entry_fill = create_test_fill(d("0.50"), d("100"), d("0.5"));

        let position = tracker.open(&signal, &entry_fill);
        let position_id = position.id;


        let exit_fill = create_test_fill(d("0.40"), d("100"), d("0.5"));
        let closed = tracker.close(&position_id, &exit_fill).unwrap();


        assert_eq!(closed.realized_pnl, d("-10.5"));
    }

    #[test]
    fn test_close_position_no_side() {
        let mut tracker = PositionTracker::new();
        let signal = create_test_signal(Side::No);
        let entry_fill = Fill {
            order_id: "x".to_string(),
            token_id: "no-token".to_string(),
            side: Side::No,
            price: d("0.50"),
            size: d("100"),
            timestamp: NOW,
            fees: d("0.5"),
        };

        let position = tracker.open(&signal, &entry_fill);
        let position_id = position.id;


        let exit_fill = Fill {
            order_id: "x".to_string(),
            token_id: "no-token".to_string(),
            side: Side::No,
            price: d("0.40"),
            size: d("100"),
            timestamp: NOW,
            fees: d("0.5"),
        };
        let closed = tracker.close(&position_id, &exit_fill).unwrap();


        assert_eq!(closed.realized_pnl, d("9.5"));
    }

    #[test]
    fn test_close_nonexistent_position() {
        let mut tracker = PositionTracker::new();
        let fill = create_test_fill(d("0.50"), d("100"), d("0.5"));
        let result = tracker.close("x", &fill);
        assert!(result.is_none());
    }

    #[test]
    fn test_update_mark() {
        let mut tracker = PositionTracker::new();
        let signal = create_test_signal(Side::Yes);
        let fill = create_test_fill(d("0.50"), d("100"), d("0.5"));

        let position = tracker.open(&signal, &fill);
        let position_id = position.id;


        tracker.update_mark("test-cond-123", d("0.60"));

        let updated_position = tracker.open_positions.iter().find(|p| p.id == position_id).unwrap();

        assert_eq!(updated_position.unrealized_pnl, d("10"));
    }

    #[test]
    fn test_update_mark_no_side() {
        let mut tracker = PositionTracker::new();
        let signal = create_test_signal(Side::No);
        let fill = Fill {
            order_id: "x".to_string(),
            token_id: "no-token".to_string(),
            side: Side::No,
            price: d("0.50"),
            size: d("100"),
            timestamp: NOW,
            fees: d("0.5"),
        };

        let position = tracker.open(&signal, &fill);
        let position_id = position.id;


        tracker.update_mark("test-cond-123", d("0.40"));

        let updated_position = tracker.open_positions.iter().find(|p| p.id == position_id).unwrap();

        assert_eq!(updated_position.unrealized_pnl, d("10"));
    }

    #[test]
    fn test_update_mark_different_market() {
        let mut tracker = PositionTracker::new();
        let signal = create_test_signal(Side::Yes);
        let fill = create_test_fill(d("0.50"), d("100"), d("0.5"));

        let position = tracker.open(&signal, &fill);
        let position_id = position.id;


        tracker.update_mark("other-market", d("0.60"));

        let updated_position = tracker.open_positions.iter().find(|p| p.id == position_id).unwrap();

        assert_eq!(updated_position.unrealized_pnl, d("0"));
    }

    #[test]
    fn test_total_pnl() {
        let mut tracker = PositionTracker::new();
        let signal = create_test_signal(Side::Yes);


        let fill1 = create_test_fill(d("0.50"), d("100"), d("0.5"));
        let pos1 = tracker.open(&signal, &fill1);
        let exit1 = create_test_fill(d("0.60"), d("100"), d("0.5"));
        tracker.close(&pos1.id, &exit1);


        let fill2 = create_test_fill(d("0.50"), d("100"), d("0.5"));
        tracker.open(&signal, &fill2);
        tracker.update_mark("test-cond-123", d("0.55"));


        assert_eq!(tracker.total_pnl(), d("14.5"));
    }

    #[test]
    fn test_position_clone() {
        let position = Position {
            id: "x".to_string(),
            market: create_test_market(),
            side: Side::Yes,
            entry_price: d("0.50"),
            size: d("100"),
            entry_time: NOW,
            unrealized_pnl: d("5"),
        };

        let cloned = position.clone();
        assert_eq!(position.id, cloned.id);
        assert_eq!(position.entry_price, cloned.entry_price);
        assert_eq!(position.unrealized_pnl, cloned.unrealized_pnl);
    }

    #[test]
    fn test_closed_position_clone() {
        let position = Position {
            id: "x".to_string(),
            market: create_test_market(),
            side: Side::Yes,
            entry_price: d("0.50"),
            size: d("100"),
            entry_time: NOW,
            unrealized_pnl: d("0"),
        };

        let closed = ClosedPosition {
            position,
            exit_price: d("0.60"),
            exit_time: NOW,
            realized_pnl: d("10"),
            fees: d("1"),
        };

        let cloned = closed.clone();
        assert_eq!(closed.exit_price, cloned.exit_price);
        assert_eq!(closed.realized_pnl, cloned.realized_pnl);
    }

