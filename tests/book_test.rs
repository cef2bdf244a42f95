use poly_hft::config::{LagConfig, SizingConfig, SizingMode};
use poly_hft::depth::{book_event_to_orderbook, price_changes_to_orderbooks, BookEvent, BookLevel, PriceChange};
use poly_hft::directory::{convert_to_market, parse_token_ids, CatalogMarket, GammaClient, GammaConfig};
use poly_hft::execution::{Fill, Order, OrderType, PaperEngine};
use poly_hft::feed::parse_fixed;
use poly_hft::filter::{FilterConfig, FilterResult, RejectReason, SignalFilter};
use poly_hft::fixed::Fixed;
use poly_hft::lag::{LagDetector, LagDetectorConfig, LagSignal, NoLagReason, OddsState, TradeSide};
use poly_hft::market::Market;
use poly_hft::model::{FairValue, GbmModel, SignalDetector};
use poly_hft::momentum::{MomentumConfig, MomentumDetector, MomentumDirection, MomentumSignal};
use poly_hft::orderbook::{OrderBook, OrderBookManager, PriceLevel};
use poly_hft::position::{ClosedPosition, Position, PositionTracker};
use poly_hft::risk::{create_sizer, DrawdownMonitor, FixedSizer, HaltReason, KellyCalculator, KellySizer, PositionLimits, Sizer};
use poly_hft::signal::{Side, Signal, SignalReason};
use poly_hft::signal_detector::{DetectionResult, MomentumSignalDetector};
use poly_hft::spread::{MarketBooks, SpreadConfig, SpreadDetector};

const NOW: i64 = 1_700_000_000_000_000;
const SEC: i64 = 1_000_000;

fn d(s: &str) -> Fixed {
    parse_fixed(s).unwrap()
}



    #[test]
    fn test_order_book_mid_price() {
        let mut book = OrderBook::new("test", NOW);
        book.bids = vec![PriceLevel {
            price: d("0.50"),
            size: d("100"),
        }];
        book.asks = vec![PriceLevel {
            price: d("0.52"),
            size: d("100"),
        }];

        assert_eq!(book.mid_price(), Some(d("0.51")));
        assert_eq!(book.spread(), Some(d("0.02")));
    }

    #[test]
    fn test_order_book_new() {
        let book = OrderBook::new("test-token", NOW);
        assert_eq!(book.token_id, "test-token");
        assert!(book.bids.is_empty());
        assert!(book.asks.is_empty());
    }

    #[test]
    fn test_order_book_best_bid() {
        let mut book = OrderBook::new("test", NOW);
        assert!(book.best_bid().is_none());

        book.bids = vec![
            PriceLevel {
                price: d("0.55"),
                size: d("100"),
            },
            PriceLevel {
                price: d("0.54"),
                size: d("100"),
            },
        ];
        assert_eq!(book.best_bid(), Some(d("0.55")));
    }

    #[test]
    fn test_order_book_best_ask() {
        let mut book = OrderBook::new("test", NOW);
        assert!(book.best_ask().is_none());

        book.asks = vec![
            PriceLevel {
                price: d("0.56"),
                size: d("100"),
            },
            PriceLevel {
                price: d("0.57"),
                size: d("100"),
            },
        ];
        assert_eq!(book.best_ask(), Some(d("0.56")));
    }

    #[test]
    fn test_order_book_mid_price_no_bids() {
        let mut book = OrderBook::new("test", NOW);
        book.asks = vec![PriceLevel {
            price: d("0.56"),
            size: d("100"),
        }];
        assert!(book.mid_price().is_none());
    }

    #[test]
    fn test_order_book_mid_price_no_asks() {
        let mut book = OrderBook::new("test", NOW);
        book.bids = vec![PriceLevel {
            price: d("0.54"),
            size: d("100"),
        }];
        assert!(book.mid_price().is_none());
    }

    #[test]
    fn test_order_book_spread_no_bids() {
        let mut book = OrderBook::new("test", NOW);
        book.asks = vec![PriceLevel {
            price: d("0.56"),
            size: d("100"),
        }];
        assert!(book.spread().is_none());
    }

    #[test]
    fn test_order_book_clone() {
        let mut book = OrderBook::new("test", NOW);
        book.bids = vec![PriceLevel {
            price: d("0.50"),
            size: d("100"),
        }];

        let cloned = book.clone();
        assert_eq!(book.token_id, cloned.token_id);
        assert_eq!(book.bids.len(), cloned.bids.len());
    }

