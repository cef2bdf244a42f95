use poly_hft::ws::{Backoff, ReconnectAction, StreamAction, StreamEvent, StreamSession, WsClient, WsConfig, WsError, WsMessage};
use std::time::Duration;

#[test]
fn test_ws_config_default() {
    let config = WsConfig::default();
    assert_eq!(config.max_reconnect_attempts, 10);
    assert_eq!(config.initial_reconnect_delay, Duration::from_secs(1));
    assert_eq!(config.max_reconnect_delay, Duration::from_secs(60));
    assert_eq!(config.ping_interval, Duration::from_secs(30));
}

#[test]
fn test_ws_config_builder() {
    let config = WsConfig::new("wss://example.com")
        .max_reconnects(5)
        .initial_delay(Duration::from_millis(500))
        .max_delay(Duration::from_secs(30))
        .ping_interval(Duration::from_secs(15));

    assert_eq!(config.url, "wss://example.com");
    assert_eq!(config.max_reconnect_attempts, 5);
    assert_eq!(config.initial_reconnect_delay, Duration::from_millis(500));
    assert_eq!(config.max_reconnect_delay, Duration::from_secs(30));
    assert_eq!(config.ping_interval, Duration::from_secs(15));
}

#[test]
fn test_ws_error_display() {
    let err = WsError::ConnectionFailed("timeout".to_string());
    assert_eq!(err.message(), "Connection failed: timeout");

    let err = WsError::MaxReconnectsExceeded;
    assert_eq!(err.message(), "Maximum reconnection attempts exceeded");
}

#[test]
fn test_ws_message_variants() {
    let msg = WsMessage::Text("hello".to_string());
    assert!(matches!(msg, WsMessage::Text(_)));

    let msg = WsMessage::Connected;
    assert!(matches!(msg, WsMessage::Connected));

    let msg = WsMessage::Reconnecting { attempt: 3 };
    assert!(matches!(msg, WsMessage::Reconnecting { attempt: 3 }));
}

#[test]
fn test_ws_client_creation() {
    let client = WsClient::with_url("wss://example.com");
    assert_eq!(client.url(), "wss://example.com");
}

#[test]
fn test_ws_client_with_config() {
    let config = WsConfig::new("wss://test.com")
        .max_reconnects(5)
        .ping_interval(Duration::from_secs(15));

    let client = WsClient::new(config);
    assert_eq!(client.url(), "wss://test.com");
    assert_eq!(client.config.max_reconnect_attempts, 5);
    assert_eq!(client.config.ping_interval, Duration::from_secs(15));
}

#[test]
fn test_config_builder_chain() {
    let config = WsConfig::new("wss://example.com")
        .max_reconnects(3)
        .initial_delay(Duration::from_millis(100))
        .max_delay(Duration::from_secs(10))
        .ping_interval(Duration::from_secs(20));

    assert_eq!(config.max_reconnect_attempts, 3);
    assert_eq!(config.initial_reconnect_delay, Duration::from_millis(100));
    assert_eq!(config.max_reconnect_delay, Duration::from_secs(10));
    assert_eq!(config.ping_interval, Duration::from_secs(20));
}

#[test]
fn reconnect_delays_double_up_to_the_cap() {
    let config = WsConfig::new("wss://example.com").max_reconnects(0);
    let mut b = Backoff::from_config(&config);
    assert_eq!(b.initial_ms, 1000);
    assert_eq!(b.max_ms, 60_000);
    let expected = [1000u64, 2000, 4000, 8000, 16_000, 32_000, 60_000, 60_000];
    for (k, want) in expected.iter().enumerate() {
        match b.on_error(false) {
            ReconnectAction::Retry { attempt, delay_ms } => {
                assert_eq!(attempt as usize, k + 1);
                assert_eq!(delay_ms, *want);
            }
            other => panic!("unexpected {:?}", other),
        }
    }
}

#[test]
fn reconnect_gives_up_at_the_bound() {
    let mut b = Backoff::new(10, 100, 2);
    assert_eq!(b.on_error(false), ReconnectAction::Retry { attempt: 1, delay_ms: 10 });
    assert_eq!(b.on_error(false), ReconnectAction::GiveUp);
}

#[test]
fn reconnect_stops_without_reader() {
    let mut b = Backoff::new(10, 100, 0);
    assert_eq!(b.on_error(true), ReconnectAction::Stop);
}

#[test]
fn keepalive_times_out_without_pong() {
    let mut s = StreamSession::new();
    assert!(matches!(s.on_event(StreamEvent::PingTick), StreamAction::SendPing));
    assert!(matches!(s.on_event(StreamEvent::PingTick), StreamAction::Fail(WsError::ConnectionFailed(_))));
    let mut s = StreamSession::new();
    assert!(matches!(s.on_event(StreamEvent::PingTick), StreamAction::SendPing));
    assert!(matches!(s.on_event(StreamEvent::Pong), StreamAction::Ignore));
    assert!(matches!(s.on_event(StreamEvent::PingTick), StreamAction::SendPing));
    match s.on_event(StreamEvent::Ping(vec![1, 2])) {
        StreamAction::SendPong(p) => assert_eq!(p, vec![1, 2]),
        _ => panic!("expected a pong"),
    }
}
