use poly_hft::execution::{Fill, Order, OrderType};
use poly_hft::feed::parse_fixed;
use poly_hft::fixed::Fixed;
use poly_hft::signal::Side;

const NOW: i64 = 1_700_000_000_000_000;

fn d(s: &str) -> Fixed {
    parse_fixed(s).unwrap()
}






    #[test]
    fn test_order_creation() {
        let order = Order {
            token_id: "yes-token".to_string(),
            side: Side::Yes,
            price: d("0.55"),
            size: d("100"),
            order_type: OrderType::Limit,
        };

        assert_eq!(order.token_id, "yes-token");
        assert_eq!(order.side, Side::Yes);
        assert_eq!(order.price, d("0.55"));
        assert_eq!(order.size, d("100"));
        assert_eq!(order.order_type, OrderType::Limit);
    }

    #[test]
    fn test_order_clone() {
        let order = Order {
            token_id: "yes-token".to_string(),
            side: Side::Yes,
            price: d("0.55"),
            size: d("100"),
            order_type: OrderType::Limit,
        };

        let cloned = order.clone();
        assert_eq!(order.token_id, cloned.token_id);
        assert_eq!(order.price, cloned.price);
    }

    #[test]
    fn test_fill_creation() {
        let fill = Fill {
            order_id: "order-1".to_string(),
            token_id: "yes-token".to_string(),
            side: Side::Yes,
            price: d("0.55"),
            size: d("100"),
            timestamp: NOW,
            fees: d("0.5"),
        };

        assert_eq!(fill.token_id, "yes-token");
        assert_eq!(fill.side, Side::Yes);
        assert_eq!(fill.price, d("0.55"));
        assert_eq!(fill.fees, d("0.5"));
    }

    #[test]
    fn test_fill_clone() {
        let fill = Fill {
            order_id: "order-1".to_string(),
            token_id: "yes-token".to_string(),
            side: Side::Yes,
            price: d("0.55"),
            size: d("100"),
            timestamp: NOW,
            fees: d("0.5"),
        };

        let cloned = fill.clone();
        assert_eq!(fill.order_id, cloned.order_id);
        assert_eq!(fill.price, cloned.price);
    }


    #[test]
    fn test_order_debug() {
        let order = Order {
            token_id: "test".to_string(),
            side: Side::Yes,
            price: d("0.50"),
            size: d("10"),
            order_type: OrderType::Market,
        };
        let debug_str = format!("{:?}", order);
        assert!(debug_str.contains("test"));
    }

