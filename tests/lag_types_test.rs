use poly_hft::config::{LagConfig, SizingConfig, SizingMode};
use poly_hft::depth::{book_event_to_orderbook, price_changes_to_orderbooks, BookEvent, BookLevel, PriceChange};
use poly_hft::directory::{convert_to_market, parse_token_ids, CatalogMarket, GammaClient, GammaConfig};
use poly_hft::execution::{Fill, Order, OrderType, PaperEngine};
use poly_hft::feed::parse_fixed;
use poly_hft::filter::{FilterConfig, FilterResult, RejectReason, SignalFilter};
use poly_hft::fixed::Fixed;
use poly_hft::lag::{LagDetector, LagDetectorConfig, LagSignal, NoLagReason, OddsState, TradeSide};
use poly_hft::market::Market;
use poly_hft::model::{FairValue, GbmModel, SignalDetector};
use poly_hft::momentum::{MomentumConfig, MomentumDetector, MomentumDirection, MomentumSignal};
use poly_hft::orderbook::{OrderBook, OrderBookManager, PriceLevel};
use poly_hft::position::{ClosedPosition, Position, PositionTracker};
use poly_hft::risk::{create_sizer, DrawdownMonitor, FixedSizer, HaltReason, KellyCalculator, KellySizer, PositionLimits, Sizer};
use poly_hft::signal::{Side, Signal, SignalReason};
use poly_hft::signal_detector::{DetectionResult, MomentumSignalDetector};
use poly_hft::spread::{MarketBooks, SpreadConfig, SpreadDetector};

const NOW: i64 = 1_700_000_000_000_000;
const SEC: i64 = 1_000_000;

fn d(s: &str) -> Fixed {
    parse_fixed(s).unwrap()
}




    #[test]
    fn test_odds_state_new() {
        let odds = OddsState::new(d("0.55"), d("0.45"), NOW);
        assert_eq!(odds.yes_price, d("0.55"));
        assert_eq!(odds.no_price, d("0.45"));
    }

    #[test]
    fn test_odds_state_from_yes_price() {
        let odds = OddsState::from_yes_price(d("0.60"), NOW);
        assert_eq!(odds.yes_price, d("0.60"));
        assert_eq!(odds.no_price, d("0.40"));
    }

    #[test]
    fn test_odds_state_is_neutral() {
        let odds = OddsState::from_yes_price(d("0.52"), NOW);
        assert!(odds.is_neutral(d("0.40"), d("0.60")));

        let high_odds = OddsState::from_yes_price(d("0.70"), NOW);
        assert!(!high_odds.is_neutral(d("0.40"), d("0.60")));

        let low_odds = OddsState::from_yes_price(d("0.30"), NOW);
        assert!(!low_odds.is_neutral(d("0.40"), d("0.60")));
    }

    #[test]
    fn test_odds_favors() {
        let odds = OddsState::from_yes_price(d("0.65"), NOW);
        assert!(odds.favors_yes(d("0.60")));
        assert!(!odds.favors_no(d("0.40")));

        let low_odds = OddsState::from_yes_price(d("0.35"), NOW);
        assert!(low_odds.favors_no(d("0.40")));
        assert!(!low_odds.favors_yes(d("0.60")));
    }

    #[test]
    fn test_lag_signal_new() {
        let momentum = MomentumSignal::new(
            MomentumDirection::Up,
            d("0.01"),
            d("95000"),
            d("95950"),
            d("0.0001"),
            d("0.8"), NOW);
        let odds = OddsState::from_yes_price(d("0.52"), NOW);

        let signal = LagSignal::new(
            TradeSide::Yes,
            d("0.15"),
            d("0.67"),
            d("0.52"),
            momentum,
            odds,
            180,
            720, NOW);

        assert!(signal.is_yes());
        assert!(!signal.is_no());
        assert_eq!(signal.lag_magnitude, d("0.15"));
        assert_eq!(signal.entry_price(), d("0.52"));
    }

    #[test]
    fn test_lag_signal_prime_window() {
        let momentum = MomentumSignal::new(
            MomentumDirection::Up,
            d("0.01"),
            d("95000"),
            d("95950"),
            d("0.0001"),
            d("0.8"), NOW);
        let odds = OddsState::from_yes_price(d("0.52"), NOW);


        let prime_signal = LagSignal::new(
            TradeSide::Yes,
            d("0.15"),
            d("0.67"),
            d("0.52"),
            momentum.clone(),
            odds.clone(),
            400,
            500, NOW);
        assert!(prime_signal.is_prime_window());


        let early_signal = LagSignal::new(
            TradeSide::Yes,
            d("0.15"),
            d("0.67"),
            d("0.52"),
            momentum.clone(),
            odds.clone(),
            120,
            780, NOW);
        assert!(!early_signal.is_prime_window());


        let late_signal = LagSignal::new(
            TradeSide::Yes,
            d("0.15"),
            d("0.67"),
            d("0.52"),
            momentum,
            odds,
            780,
            120, NOW);
        assert!(!late_signal.is_prime_window());
    }

