use poly_hft::recorder::{Enqueue, RecordError, RecorderConfig, RecorderStats, StreamRecorder};

#[test]
fn test_default_config() {
    let config = RecorderConfig::default();
    assert_eq!(config.rotation_interval_secs, 3600);
    assert_eq!(config.buffer_size, 100);
    assert_eq!(config.flush_interval_secs, 10);
}

#[test]
fn test_record_error_display() {
    let full_error = RecordError::ChannelFull;
    assert_eq!(full_error.message(), "Channel full, data dropped");

    let closed_error = RecordError::ChannelClosed;
    assert_eq!(closed_error.message(), "Channel closed");
}

#[test]
fn test_record_error_is_error() {
    let error = RecordError::ChannelFull;
    assert!(error.message().contains("Channel full"));
}

#[test]
fn test_record_error_equality() {
    assert_eq!(RecordError::ChannelFull, RecordError::ChannelFull);
    assert_eq!(RecordError::ChannelClosed, RecordError::ChannelClosed);
    assert_ne!(RecordError::ChannelFull, RecordError::ChannelClosed);
}

#[test]
fn test_recorder_config_clone() {
    let config = RecorderConfig::default();
    let cloned = config.clone();
    assert_eq!(config.buffer_size, cloned.buffer_size);
    assert_eq!(config.output_dir, cloned.output_dir);
}

#[test]
fn test_recorder_stats_clone() {
    let stats = RecorderStats {
        price_ticks_received: 100,
        price_ticks_written: 90,
        orderbook_updates_received: 50,
        orderbook_updates_written: 45,
        files_written: 5,
        channel_drops: 2,
    };
    let cloned = stats.clone();
    assert_eq!(stats.price_ticks_received, cloned.price_ticks_received);
    assert_eq!(stats.channel_drops, cloned.channel_drops);
}

#[test]
fn recorder_counts_balance() {
    let config = RecorderConfig { output_dir: "./data".to_string(), rotation_interval_secs: 3600, buffer_size: 3, flush_interval_secs: 10 };
    let mut r = StreamRecorder::new(&config, 0);
    assert_eq!(r.on_offer(Enqueue::Accepted), Ok(false));
    assert_eq!(r.on_offer(Enqueue::Full), Err(RecordError::ChannelFull));
    assert_eq!(r.on_offer(Enqueue::Accepted), Ok(false));
    assert_eq!(r.on_offer(Enqueue::Accepted), Ok(true));
    assert_eq!(r.on_offer(Enqueue::Closed), Err(RecordError::ChannelClosed));
    assert_eq!(r.received, r.written + r.in_buffer + r.channel_drops);
    let (count, rotate) = r.begin_flush(1_000_000);
    assert_eq!(count, 3);
    assert!(!rotate);
    r.end_flush(true);
    assert_eq!(r.written, 3);
    assert_eq!(r.files_written, 1);
    assert_eq!(r.channel_drops, 1);
    assert_eq!(r.received, r.written + r.in_buffer + r.channel_drops);
}

#[test]
fn recorder_flush_and_rotation_timing() {
    let config = RecorderConfig { output_dir: "./data".to_string(), rotation_interval_secs: 60, buffer_size: 100, flush_interval_secs: 10 };
    let mut r = StreamRecorder::new(&config, 0);
    assert!(!r.due_for_flush(20_000_000));
    assert_eq!(r.on_offer(Enqueue::Accepted), Ok(false));
    assert!(!r.due_for_flush(9_999_999));
    assert!(r.due_for_flush(10_000_000));
    let (count, rotate) = r.begin_flush(61_000_000);
    assert_eq!(count, 1);
    assert!(rotate);
    assert_eq!(r.last_rotation, 61_000_000);
    r.end_flush(false);
    assert!(r.errored);
}
