use poly_hft::config::{LagConfig, SizingConfig, SizingMode};
use poly_hft::depth::{book_event_to_orderbook, price_changes_to_orderbooks, BookEvent, BookLevel, PriceChange};
use poly_hft::directory::{convert_to_market, parse_token_ids, CatalogMarket, GammaClient, GammaConfig};
use poly_hft::execution::{Fill, Order, OrderType, PaperEngine};
use poly_hft::feed::parse_fixed;
use poly_hft::filter::{FilterConfig, FilterResult, RejectReason, SignalFilter};
use poly_hft::fixed::Fixed;
use poly_hft::lag::{LagDetector, LagDetectorConfig, LagSignal, NoLagReason, OddsState, TradeSide};
use poly_hft::market::Market;
use poly_hft::model::{FairValue, GbmModel, SignalDetector};
use poly_hft::momentum::{MomentumConfig, MomentumDetector, MomentumDirection, MomentumSignal};
use poly_hft::orderbook::{OrderBook, OrderBookManager, PriceLevel};
use poly_hft::position::{ClosedPosition, Position, PositionTracker};
use poly_hft::risk::{create_sizer, DrawdownMonitor, FixedSizer, HaltReason, KellyCalculator, KellySizer, PositionLimits, Sizer};
use poly_hft::signal::{Side, Signal, SignalReason};
use poly_hft::signal_detector::{DetectionResult, MomentumSignalDetector};
use poly_hft::spread::{MarketBooks, SpreadConfig, SpreadDetector};

const NOW: i64 = 1_700_000_000_000_000;
const SEC: i64 = 1_000_000;

fn d(s: &str) -> Fixed {
    parse_fixed(s).unwrap()
}




    #[test]
    fn test_momentum_signal_up() {
        let signal = MomentumSignal::new(
            MomentumDirection::Up,
            d("0.008"),
            d("95000"),
            d("95760"),
            d("0.0001"),
            d("0.85"), NOW);

        assert!(signal.is_up());
        assert!(!signal.is_down());
        assert_eq!(signal.move_pct, d("0.008"));
    }

    #[test]
    fn test_momentum_signal_down() {
        let signal = MomentumSignal::new(
            MomentumDirection::Down,
            d("0.012"),
            d("95000"),
            d("93860"),
            d("0.0002"),
            d("0.90"), NOW);

        assert!(!signal.is_up());
        assert!(signal.is_down());
        assert_eq!(signal.move_pct, d("0.012"));
    }

