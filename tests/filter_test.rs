use poly_hft::config::{LagConfig, SizingConfig, SizingMode};
use poly_hft::depth::{book_event_to_orderbook, price_changes_to_orderbooks, BookEvent, BookLevel, PriceChange};
use poly_hft::directory::{convert_to_market, parse_token_ids, CatalogMarket, GammaClient, GammaConfig};
use poly_hft::execution::{Fill, Order, OrderType, PaperEngine};
use poly_hft::feed::parse_fixed;
use poly_hft::filter::{FilterConfig, FilterResult, RejectReason, SignalFilter};
use poly_hft::fixed::Fixed;
use poly_hft::lag::{LagDetector, LagDetectorConfig, LagSignal, NoLagReason, OddsState, TradeSide};
use poly_hft::market::Market;
use poly_hft::model::{FairValue, GbmModel, SignalDetector};
use poly_hft::momentum::{MomentumConfig, MomentumDetector, MomentumDirection, MomentumSignal};
use poly_hft::orderbook::{OrderBook, OrderBookManager, PriceLevel};
use poly_hft::position::{ClosedPosition, Position, PositionTracker};
use poly_hft::risk::{create_sizer, DrawdownMonitor, FixedSizer, HaltReason, KellyCalculator, KellySizer, PositionLimits, Sizer};
use poly_hft::signal::{Side, Signal, SignalReason};
use poly_hft::signal_detector::{DetectionResult, MomentumSignalDetector};
use poly_hft::spread::{MarketBooks, SpreadConfig, SpreadDetector};

const NOW: i64 = 1_700_000_000_000_000;
const SEC: i64 = 1_000_000;

fn d(s: &str) -> Fixed {
    parse_fixed(s).unwrap()
}



    fn default_filter_config() -> FilterConfig {
        FilterConfig {
            min_edge: d("0.005"),
            max_edge: d("0.15"),
            min_time_to_expiry: (1 * 60 * SEC),
            max_time_to_expiry: (14 * 60 * SEC),
            min_liquidity: d("100"),
            min_volatility: d("0.1"),
            max_volatility: d("1.5"),
        }
    }

    fn create_test_signal(adjusted_edge: Fixed) -> Signal {
        let market = Market {
            condition_id: "test-cond".to_string(),
            yes_token_id: "yes-token".to_string(),
            no_token_id: "no-token".to_string(),
            open_price: d("100000"),
            open_time: NOW - (5 * 60 * SEC),
            close_time: NOW + (10 * 60 * SEC),
        };

        Signal::new(
            market,
            Side::Yes,
            d("0.55"),
            d("0.50"),
            adjusted_edge,
            d("0.8"),
            SignalReason::SpotDivergence, NOW)
    }

    #[test]
    fn test_filter_creation() {
        let config = default_filter_config();
        let filter = SignalFilter::new(config);
        assert_eq!(filter.config.min_edge, d("0.005"));
    }

    #[test]
    fn test_filter_pass() {
        let config = default_filter_config();
        let filter = SignalFilter::new(config);
        let signal = create_test_signal(d("0.02"));

        let result = filter.apply(
            &signal,
            0,
            5,
            d("500"),
            d("0.4"),
            (10 * 60 * SEC),
        );

        assert!(matches!(result, FilterResult::Pass));
    }

    #[test]
    fn test_filter_reject_max_positions() {
        let config = default_filter_config();
        let filter = SignalFilter::new(config);
        let signal = create_test_signal(d("0.02"));

        let result = filter.apply(
            &signal,
            5,
            5,
            d("500"),
            d("0.4"),
            (10 * 60 * SEC),
        );

        assert!(matches!(
            result,
            FilterResult::Reject(RejectReason::MaxPositionsReached)
        ));
    }

    #[test]
    fn test_filter_reject_edge_too_small() {
        let config = default_filter_config();
        let filter = SignalFilter::new(config);
        let signal = create_test_signal(d("0.001"));

        let result = filter.apply(&signal, 0, 5, d("500"), d("0.4"), (10 * 60 * SEC));

        assert!(matches!(
            result,
            FilterResult::Reject(RejectReason::EdgeTooSmall(_))
        ));
    }

    #[test]
    fn test_filter_reject_edge_too_large() {
        let config = default_filter_config();
        let filter = SignalFilter::new(config);
        let signal = create_test_signal(d("0.20"));

        let result = filter.apply(&signal, 0, 5, d("500"), d("0.4"), (10 * 60 * SEC));

        assert!(matches!(
            result,
            FilterResult::Reject(RejectReason::EdgeTooLarge(_))
        ));
    }

    #[test]
    fn test_filter_reject_time_to_expiry() {
        let config = default_filter_config();
        let filter = SignalFilter::new(config);
        let signal = create_test_signal(d("0.02"));

        let result = filter.apply(
            &signal,
            0,
            5,
            d("500"),
            d("0.4"),
            (30 * SEC),
        );

        assert!(matches!(
            result,
            FilterResult::Reject(RejectReason::TooCloseToExpiry(_))
        ));
    }

    #[test]
    fn test_filter_reject_insufficient_liquidity() {
        let config = default_filter_config();
        let filter = SignalFilter::new(config);
        let signal = create_test_signal(d("0.02"));

        let result = filter.apply(
            &signal,
            0,
            5,
            d("50"),
            d("0.4"),
            (10 * 60 * SEC),
        );

        assert!(matches!(
            result,
            FilterResult::Reject(RejectReason::InsufficientLiquidity(_))
        ));
    }

    #[test]
    fn test_filter_reject_volatility_too_low() {
        let config = default_filter_config();
        let filter = SignalFilter::new(config);
        let signal = create_test_signal(d("0.02"));

        let result = filter.apply(
            &signal,
            0,
            5,
            d("500"),
            d("0.05"),
            (10 * 60 * SEC),
        );

        assert!(matches!(
            result,
            FilterResult::Reject(RejectReason::VolatilityOutOfRange(_))
        ));
    }

    #[test]
    fn test_filter_reject_volatility_too_high() {
        let config = default_filter_config();
        let filter = SignalFilter::new(config);
        let signal = create_test_signal(d("0.02"));

        let result = filter.apply(
            &signal,
            0,
            5,
            d("500"),
            d("2.0"),
            (10 * 60 * SEC),
        );

        assert!(matches!(
            result,
            FilterResult::Reject(RejectReason::VolatilityOutOfRange(_))
        ));
    }

    #[test]
    fn test_reject_reason_display_edge_too_small() {
        let reason = RejectReason::EdgeTooSmall(d("0.001"));
        let serialized = format!("{:?}", reason);
        assert!(serialized.contains("EdgeTooSmall"));
    }

    #[test]
    fn test_filter_config_clone() {
        let config = default_filter_config();
        let cloned = config.clone();
        assert_eq!(config.min_edge, cloned.min_edge);
        assert_eq!(config.max_edge, cloned.max_edge);
    }

