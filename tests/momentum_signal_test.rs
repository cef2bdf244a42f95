use poly_hft::config::{LagConfig, SizingConfig, SizingMode};
use poly_hft::depth::{book_event_to_orderbook, price_changes_to_orderbooks, BookEvent, BookLevel, PriceChange};
use poly_hft::directory::{convert_to_market, parse_token_ids, CatalogMarket, GammaClient, GammaConfig};
use poly_hft::execution::{Fill, Order, OrderType, PaperEngine};
use poly_hft::feed::parse_fixed;
use poly_hft::filter::{FilterConfig, FilterResult, RejectReason, SignalFilter};
use poly_hft::fixed::Fixed;
use poly_hft::lag::{LagDetector, LagDetectorConfig, LagSignal, NoLagReason, OddsState, TradeSide};
use poly_hft::market::Market;
use poly_hft::model::{FairValue, GbmModel, SignalDetector};
use poly_hft::momentum::{MomentumConfig, MomentumDetector, MomentumDirection, MomentumSignal};
use poly_hft::orderbook::{OrderBook, OrderBookManager, PriceLevel};
use poly_hft::position::{ClosedPosition, Position, PositionTracker};
use poly_hft::risk::{create_sizer, DrawdownMonitor, FixedSizer, HaltReason, KellyCalculator, KellySizer, PositionLimits, Sizer};
use poly_hft::signal::{Side, Signal, SignalReason};
use poly_hft::signal_detector::{DetectionResult, MomentumSignalDetector};
use poly_hft::spread::{MarketBooks, SpreadConfig, SpreadDetector};

const NOW: i64 = 1_700_000_000_000_000;
const SEC: i64 = 1_000_000;

fn d(s: &str) -> Fixed {
    parse_fixed(s).unwrap()
}



    fn create_test_market() -> Market {
        let now = NOW;
        Market {
            condition_id: "test".to_string(),
            yes_token_id: "yes".to_string(),
            no_token_id: "no".to_string(),
            open_price: d("95000"),
            open_time: now - (5 * 60 * SEC),
            close_time: now + (10 * 60 * SEC),
        }
    }

    fn create_test_orderbook(yes_ask: Fixed) -> OrderBook {
        OrderBook {
            token_id: "yes".to_string(),
            bids: vec![PriceLevel {
                price: yes_ask.sub(d("0.02")),
                size: d("100"),
            }],
            asks: vec![PriceLevel {
                price: yes_ask,
                size: d("100"),
            }],
            updated_at: NOW,
        }
    }

    #[test]
    fn momentum_detector_test_detector_creation() {
        let detector = MomentumSignalDetector::new(d("0.005"), d("0.002"));
        assert!(!detector.is_ready());
        assert_eq!(detector.sample_count(), 0);
    }

    #[test]
    fn test_update_price() {
        let mut detector = MomentumSignalDetector::new(d("0.005"), d("0.002"));
        let now = NOW;

        detector.update_price(now, d("95000"));
        assert_eq!(detector.sample_count(), 1);

        detector.update_price(now + (1 * SEC), d("95100"));
        assert_eq!(detector.sample_count(), 2);
        assert!(detector.is_ready());
    }

    #[test]
    fn test_detect_no_momentum() {
        let mut detector = MomentumSignalDetector::new(d("0.005"), d("0.002"));
        let market = create_test_market();
        let orderbook = create_test_orderbook(d("0.50"));
        let now = NOW;


        for i in 0..10 {
            detector.update_price(now + (i * SEC), d("95000"));
        }

        let signal = detector.detect_at(&market, &orderbook, NOW);
        assert!(signal.is_none());
    }

    #[test]
    fn test_detect_with_momentum_and_lag() {
        let mut detector = MomentumSignalDetector::with_configs(
            MomentumConfig {
                window_seconds: 120,
                min_move_pct: d("0.007"),
                max_move_pct: d("0.05"),
                confirmation_seconds: 5,
            },
            LagDetectorConfig {
                min_lag_cents: d("0.05"),
                max_yes_for_up: d("0.60"),
                min_yes_for_down: d("0.40"),
                min_seconds_after_open: 60,
                max_seconds_before_close: 120,
                price_sensitivity: d("10"),
            },
            d("0.005"),
            d("0.002"),
        );

        let market = create_test_market();

        let orderbook = create_test_orderbook(d("0.48"));
        let base_time = market.open_time + (2 * 60 * SEC);



        let high_price = market.open_price.mul(d("1.01"));



        for i in 0..10 {
            let detect_time = base_time + (i * SEC);
            detector.update_price(detect_time, high_price);

            let _ = detector.detect_at(&market, &orderbook, detect_time);
        }


        let detect_time = base_time + (10 * SEC);
        let signal = detector.detect_at(&market, &orderbook, detect_time);


        assert!(signal.is_some());
        let signal = signal.unwrap();
        assert_eq!(signal.side, Side::Yes);
        assert!(signal.adjusted_edge > d("0"));
    }

    #[test]
    fn test_detect_no_lag_odds_moved() {
        let mut detector = MomentumSignalDetector::with_configs(
            MomentumConfig {
                window_seconds: 120,
                min_move_pct: d("0.007"),
                max_move_pct: d("0.05"),
                confirmation_seconds: 5,
            },
            LagDetectorConfig::default(),
            d("0.005"),
            d("0.002"),
        );

        let market = create_test_market();

        let orderbook = create_test_orderbook(d("0.70"));
        let base_time = market.open_time + (2 * 60 * SEC);


        for i in 0..10 {
            let price = d("95000").add(Fixed::from_int(i * 100));
            detector.update_price(base_time + (i * SEC), price);
        }

        let signal = detector.detect_at(&market, &orderbook, NOW);
        assert!(signal.is_none());
    }

    #[test]
    fn momentum_detector_test_clear() {
        let mut detector = MomentumSignalDetector::new(d("0.005"), d("0.002"));
        let now = NOW;

        detector.update_price(now, d("95000"));
        detector.update_price(now + (1 * SEC), d("95100"));
        assert!(detector.is_ready());

        detector.clear();
        assert!(!detector.is_ready());
        assert_eq!(detector.sample_count(), 0);
    }

    #[test]
    fn test_detection_result_variants() {
        let mut detector = MomentumSignalDetector::new(d("0.005"), d("0.002"));
        let market = create_test_market();
        let orderbook = create_test_orderbook(d("0.50"));


        let result = detector.detect_with_reason_at(&market, &orderbook, NOW);
        assert!(matches!(result, DetectionResult::NotReady));


        let now = NOW;
        for i in 0..5 {
            detector.update_price(now + (i * SEC), d("95000"));
        }


        let result = detector.detect_with_reason_at(&market, &orderbook, NOW);
        assert!(matches!(result, DetectionResult::NoMomentum));
    }

    #[test]
    fn test_get_odds_state() {
        let detector = MomentumSignalDetector::new(d("0.005"), d("0.002"));
        let orderbook = create_test_orderbook(d("0.55"));

        let odds = detector.get_odds_state(&orderbook).unwrap();
        assert_eq!(odds.yes_price, d("0.55"));
        assert_eq!(odds.no_price, d("0.45"));
        assert!(odds.spread.is_some());
    }

    #[test]
    fn test_lag_signal_conversion() {
        let detector = MomentumSignalDetector::new(d("0.005"), d("0.002"));
        let market = create_test_market();

        let momentum = MomentumSignal::new(
            MomentumDirection::Up,
            d("0.01"),
            d("95000"),
            d("95950"),
            d("0.0001"),
            d("0.8"), NOW);

        let lag = LagSignal::new(
            TradeSide::Yes,
            d("0.12"),
            d("0.60"),
            d("0.48"),
            momentum,
            OddsState::from_yes_price(d("0.48"), NOW),
            180,
            720, NOW);

        let signal = detector.lag_signal_to_signal(&lag, &market);
        assert_eq!(signal.side, Side::Yes);
        assert_eq!(signal.fair_value, d("0.60"));
        assert_eq!(signal.market_price, d("0.48"));

        assert!(signal.adjusted_edge > d("0.11"));
    }

