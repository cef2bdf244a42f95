use poly_hft::depth::{book_event_to_orderbook, classify_event, price_changes_to_orderbooks, BookEvent, BookLevel, EventKind, PriceChange};
use poly_hft::feed::{fixed_from_parts, parse_fixed, BinanceFeed};
use poly_hft::fixed::Fixed;

#[test]
fn decimal_text_parses_to_six_places() {
    assert_eq!(parse_fixed("0.56"), Some(Fixed::from_raw(560_000)));
    assert_eq!(parse_fixed("95760"), Some(Fixed::from_raw(95_760_000_000)));
    assert_eq!(parse_fixed("-1.5"), Some(Fixed::from_raw(-1_500_000)));
    assert_eq!(parse_fixed("0.123456789"), Some(Fixed::from_raw(123_456)));
    assert_eq!(parse_fixed("abc"), None);
    assert_eq!(parse_fixed("10000000"), None);
}

#[test]
fn parts_convert_exactly() {
    assert_eq!(fixed_from_parts(56, 2), Some(Fixed::from_raw(560_000)));
    assert_eq!(fixed_from_parts(-1234567, 7), Some(Fixed::from_raw(-123_456)));
    assert_eq!(fixed_from_parts(1_000_001, 0), None);
}

#[test]
fn trade_records_become_ticks() {
    let t = BinanceFeed::parse_trade("trade", "BTCUSDT".to_string(), "95000.50", 1_700_000_000_123, 42).unwrap();
    assert_eq!(t.symbol, "BTCUSDT");
    assert_eq!(t.price, Fixed::from_raw(95_000_500_000));
    assert_eq!(t.exchange_ts, 1_700_000_000_123_000);
    assert_eq!(t.timestamp, 42);
    assert!(BinanceFeed::parse_trade("aggTrade", "BTCUSDT".to_string(), "1", 0, 0).is_none());
    assert!(BinanceFeed::parse_trade("trade", "BTCUSDT".to_string(), "x", 0, 0).is_none());
}

#[test]
fn events_are_classified() {
    assert_eq!(classify_event("book", true, true, true, false), EventKind::Book);
    assert_eq!(classify_event("price_change", true, false, false, true), EventKind::PriceChanges);
    assert_eq!(classify_event("price_change", true, false, false, false), EventKind::Ignore);
    assert_eq!(classify_event("", true, true, false, false), EventKind::Book);
    assert_eq!(classify_event("", false, false, false, true), EventKind::PriceChanges);
    assert_eq!(classify_event("last_trade_price", true, true, true, true), EventKind::Ignore);
}

fn lvl(p: &str, s: &str) -> BookLevel {
    BookLevel { price: p.to_string(), size: s.to_string() }
}

#[test]
fn snapshot_event_converts() {
    let ev = BookEvent {
        asset_id: "tok".to_string(),
        bids: vec![lvl("0.50", "100"), lvl("bad", "1")],
        asks: vec![lvl("0.52", "50")],
        timestamp: "1700000000000".to_string(),
    };
    let b = book_event_to_orderbook(&ev, 7);
    assert_eq!(b.token_id, "tok");
    assert_eq!(b.bids.len(), 1);
    assert_eq!(b.bids[0].price, Fixed::from_raw(500_000));
    assert_eq!(b.asks[0].size, Fixed::from_raw(50_000_000));
    assert_eq!(b.updated_at, 1_700_000_000_000_000);
    let ev2 = BookEvent { asset_id: "tok".to_string(), bids: vec![], asks: vec![], timestamp: String::new() };
    assert_eq!(book_event_to_orderbook(&ev2, 7).updated_at, 7);
    let ev3 = BookEvent { asset_id: "tok".to_string(), bids: vec![], asks: vec![], timestamp: "soon".to_string() };
    assert_eq!(book_event_to_orderbook(&ev3, 7).updated_at, 0);
}

fn change(a: &str, p: &str, s: &str, side: &str) -> PriceChange {
    PriceChange { asset_id: a.to_string(), price: p.to_string(), size: s.to_string(), side: side.to_string() }
}

#[test]
fn price_changes_group_by_asset() {
    let changes = vec![
        change("a", "0.50", "10", "BUY"),
        change("b", "0.40", "5", "SELL"),
        change("a", "0.55", "0", "SELL"),
        change("a", "0.51", "3", "HOLD"),
    ];
    let books = price_changes_to_orderbooks(&changes, 9);
    assert_eq!(books.len(), 2);
    assert_eq!(books[0].token_id, "a");
    assert_eq!(books[0].bids.len(), 1);
    assert_eq!(books[0].asks.len(), 1);
    assert_eq!(books[0].asks[0].size, Fixed::from_raw(0));
    assert_eq!(books[1].token_id, "b");
    assert_eq!(books[1].asks[0].price, Fixed::from_raw(400_000));
    assert_eq!(books[1].updated_at, 9);
}
