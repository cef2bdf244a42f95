use poly_hft::config::{LagConfig, SizingConfig, SizingMode};
use poly_hft::depth::{book_event_to_orderbook, price_changes_to_orderbooks, BookEvent, BookLevel, PriceChange};
use poly_hft::directory::{convert_to_market, parse_token_ids, CatalogMarket, GammaClient, GammaConfig};
use poly_hft::execution::{Fill, Order, OrderType, PaperEngine};
use poly_hft::feed::parse_fixed;
use poly_hft::filter::{FilterConfig, FilterResult, RejectReason, SignalFilter};
use poly_hft::fixed::Fixed;
use poly_hft::lag::{LagDetector, LagDetectorConfig, LagSignal, NoLagReason, OddsState, TradeSide};
use poly_hft::market::Market;
use poly_hft::model::{FairValue, GbmModel, SignalDetector};
use poly_hft::momentum::{MomentumConfig, MomentumDetector, MomentumDirection, MomentumSignal};
use poly_hft::orderbook::{OrderBook, OrderBookManager, PriceLevel};
use poly_hft::position::{ClosedPosition, Position, PositionTracker};
use poly_hft::risk::{create_sizer, DrawdownMonitor, FixedSizer, HaltReason, KellyCalculator, KellySizer, PositionLimits, Sizer};
use poly_hft::signal::{Side, Signal, SignalReason};
use poly_hft::signal_detector::{DetectionResult, MomentumSignalDetector};
use poly_hft::spread::{MarketBooks, SpreadConfig, SpreadDetector};

const NOW: i64 = 1_700_000_000_000_000;
const SEC: i64 = 1_000_000;

fn d(s: &str) -> Fixed {
    parse_fixed(s).unwrap()
}



    fn make_signal(fair_value: Fixed, market_price: Fixed) -> Signal {
        let now = NOW;
        Signal::new(
            Market {
                condition_id: "test".to_string(),
                yes_token_id: "yes".to_string(),
                no_token_id: "no".to_string(),
                open_price: d("100000"),
                open_time: now,
                close_time: now + (15 * 60 * SEC),
            },
            Side::Yes,
            fair_value,
            market_price,
            fair_value.sub(market_price),
            d("0.8"),
            SignalReason::SpotDivergence, NOW)
    }

    #[test]
    fn test_kelly_calculation() {
        let calc = KellyCalculator::new(d("0.25"), d("0.01"));
        let bankroll = d("1000");


        let signal = make_signal(d("0.55"), d("0.50"));
        let size = calc.calculate(&signal, bankroll);





        assert_eq!(size, d("10"));
    }

    #[test]
    fn test_kelly_no_edge() {
        let calc = KellyCalculator::default();
        let signal = make_signal(d("0.50"), d("0.50"));
        let size = calc.calculate(&signal, d("1000"));
        assert_eq!(size, d("0"));
    }

