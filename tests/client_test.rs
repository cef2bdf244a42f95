use poly_hft::depth::{book_event_to_orderbook, BookEvent, BookLevel};
use poly_hft::feed::parse_fixed;
use poly_hft::fixed::Fixed;
use poly_hft::orderbook::{OrderBook, OrderBookManager, PriceLevel};

const NOW: i64 = 1_700_000_000_000_000;

fn d(s: &str) -> Fixed {
    parse_fixed(s).unwrap()
}

#[test]
fn test_book_level_parsing() {
    let book = BookEvent {
        asset_id: "test".to_string(),
        bids: vec![
            BookLevel { price: "0.50".to_string(), size: "100.5".to_string() },
            BookLevel { price: "invalid".to_string(), size: "50".to_string() },
        ],
        asks: vec![],
        timestamp: String::new(),
    };
    let order_book = book_event_to_orderbook(&book, NOW);
    assert_eq!(order_book.bids.len(), 1);
    assert_eq!(order_book.bids[0].price, d("0.50"));
    assert_eq!(order_book.bids[0].size, d("100.5"));
}

#[test]
fn test_order_book_manager_new() {
    let manager = OrderBookManager::new();
    assert!(manager.is_empty());
    assert_eq!(manager.len(), 0);
}

#[test]
fn test_order_book_manager_update() {
    let mut manager = OrderBookManager::new();
    let mut book = OrderBook::new("token1", NOW);
    book.bids = vec![PriceLevel { price: d("0.50"), size: d("100") }];
    book.asks = vec![PriceLevel { price: d("0.52"), size: d("100") }];
    manager.update(book);
    assert_eq!(manager.len(), 1);
    assert!(manager.has_token("token1"));
    assert!(!manager.has_token("token2"));
}

#[test]
fn test_order_book_manager_get() {
    let mut manager = OrderBookManager::new();
    let mut book = OrderBook::new("yes_token", NOW);
    book.asks = vec![PriceLevel { price: d("0.55"), size: d("200") }];
    manager.update(book);
    let retrieved = manager.get("yes_token");
    assert!(retrieved.is_some());
    assert_eq!(retrieved.unwrap().best_ask(), Some(d("0.55")));
}

#[test]
fn test_order_book_manager_best_prices() {
    let mut manager = OrderBookManager::new();
    let mut yes_book = OrderBook::new("yes_token", NOW);
    yes_book.asks = vec![PriceLevel { price: d("0.52"), size: d("100") }];
    manager.update(yes_book);
    let mut no_book = OrderBook::new("no_token", NOW);
    no_book.asks = vec![PriceLevel { price: d("0.48"), size: d("100") }];
    manager.update(no_book);
    assert_eq!(manager.best_yes_price("yes_token"), Some(d("0.52")));
    assert_eq!(manager.best_no_price("no_token"), Some(d("0.48")));
    assert_eq!(manager.best_yes_price("missing"), None);
}

#[test]
fn test_order_book_manager_clear() {
    let mut manager = OrderBookManager::new();
    manager.update(OrderBook::new("token1", NOW));
    manager.update(OrderBook::new("token2", NOW));
    assert_eq!(manager.len(), 2);
    manager.clear();
    assert!(manager.is_empty());
}

#[test]
fn test_timestamp_parsing() {
    let book = BookEvent { asset_id: "test".to_string(), bids: vec![], asks: vec![], timestamp: "1704067200000".to_string() };
    let order_book = book_event_to_orderbook(&book, NOW);
    assert!(order_book.updated_at > 0);
    assert_eq!(order_book.updated_at, 1_704_067_200_000_000);
}

#[test]
fn test_empty_timestamp() {
    let book = BookEvent { asset_id: "test".to_string(), bids: vec![], asks: vec![], timestamp: String::new() };
    let order_book = book_event_to_orderbook(&book, NOW);
    assert!(order_book.updated_at > 0);
}
