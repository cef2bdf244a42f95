//! Tick and book recording: configuration, statistics, errors, and the
//! buffering and flushing decisions of one stream's writer.
use vstd::prelude::*;
use std::sync::atomic::{AtomicU64, Ordering};

verus! {

/// Recorder configuration.
#[derive(Clone, Debug)]
pub struct RecorderConfig {
    /// Directory the columnar files go to.
    pub output_dir: String,
    /// Start a new file after this many seconds.
    pub rotation_interval_secs: u64,
    /// Flush once this many records are buffered.
    pub buffer_size: usize,
    /// Flush at least this often, seconds.
    pub flush_interval_secs: u64,
}

impl RecorderConfig {
    /// `./data`, hourly rotation, flush every 100 records or 10 seconds.
    pub fn default() -> (r: RecorderConfig)
        ensures
            r.output_dir@ == "./data"@,
            r.rotation_interval_secs == 3600,
            r.buffer_size == 100,
            r.flush_interval_secs == 10,
    {
        RecorderConfig {
            output_dir: String::from_str("./data"),
            rotation_interval_secs: 3600,
            buffer_size: 100,
            flush_interval_secs: 10,
        }
    }
}

/// Counters shared by the producers and the writers, updated without locks.
#[derive(Debug)]
pub struct AtomicRecorderStats {
    pub price_ticks_received: AtomicU64,
    pub price_ticks_written: AtomicU64,
    pub orderbook_updates_received: AtomicU64,
    pub orderbook_updates_written: AtomicU64,
    pub files_written: AtomicU64,
    pub channel_drops: AtomicU64,
}

impl AtomicRecorderStats {
    /// All counters at zero.
    pub fn new() -> (r: AtomicRecorderStats) {
        AtomicRecorderStats {
            price_ticks_received: AtomicU64::new(0),
            price_ticks_written: AtomicU64::new(0),
            orderbook_updates_received: AtomicU64::new(0),
            orderbook_updates_written: AtomicU64::new(0),
            files_written: AtomicU64::new(0),
            channel_drops: AtomicU64::new(0),
        }
    }

    /// A copy of the counters; other threads may move them meanwhile, so
    /// nothing is promised of the values read.
    pub fn snapshot(&self) -> (r: RecorderStats) {
        RecorderStats {
            price_ticks_received: self.price_ticks_received.load(Ordering::Relaxed),
            price_ticks_written: self.price_ticks_written.load(Ordering::Relaxed),
            orderbook_updates_received: self.orderbook_updates_received.load(Ordering::Relaxed),
            orderbook_updates_written: self.orderbook_updates_written.load(Ordering::Relaxed),
            files_written: self.files_written.load(Ordering::Relaxed),
            channel_drops: self.channel_drops.load(Ordering::Relaxed),
        }
    }
}

/// A snapshot of the recorder's counters.
#[derive(Clone, Copy, Debug, PartialEq, Eq, Structural)]
pub struct RecorderStats {
    pub price_ticks_received: u64,
    pub price_ticks_written: u64,
    pub orderbook_updates_received: u64,
    pub orderbook_updates_written: u64,
    pub files_written: u64,
    pub channel_drops: u64,
}

impl RecorderStats {
    pub fn default() -> (r: RecorderStats)
        ensures
            r == (RecorderStats {
                price_ticks_received: 0,
                price_ticks_written: 0,
                orderbook_updates_received: 0,
                orderbook_updates_written: 0,
                files_written: 0,
                channel_drops: 0,
            }),
    {
        RecorderStats {
            price_ticks_received: 0,
            price_ticks_written: 0,
            orderbook_updates_received: 0,
            orderbook_updates_written: 0,
            files_written: 0,
            channel_drops: 0,
        }
    }
}

/// Why a record could not be enqueued.
#[derive(Clone, Copy, Debug, PartialEq, Eq, Structural)]
pub enum RecordError {
    /// The queue is full; the record was dropped.
    ChannelFull,
    /// The recorder is shutting down.
    ChannelClosed,
}

impl RecordError {
    /// Human-readable description.
    pub fn message(&self) -> (r: String)
        ensures
            r@ == match self {
                RecordError::ChannelFull => "Channel full, data dropped"@,
                RecordError::ChannelClosed => "Channel closed"@,
            },
    {
        match self {
            RecordError::ChannelFull => String::from_str("Channel full, data dropped"),
            RecordError::ChannelClosed => String::from_str("Channel closed"),
        }
    }
}

/// Outcome of offering a record to the bounded queue.
#[derive(Clone, Copy, Debug, PartialEq, Eq, Structural)]
pub enum Enqueue {
    Accepted,
    Full,
    Closed,
}

/// Buffering state and counters of one stream's writer.
#[derive(Clone, Copy, Debug)]
pub struct StreamRecorder {
    pub buffer_size: u64,
    /// Flush interval, microseconds.
    pub flush_interval_us: i64,
    /// Rotation interval, microseconds.
    pub rotation_interval_us: i64,
    /// Records offered by producers, dropped ones included.
    pub received: u64,
    /// Records durably written.
    pub written: u64,
    pub files_written: u64,
    /// Records dropped because the queue was full.
    pub channel_drops: u64,
    /// Records waiting in the buffer.
    pub in_buffer: u64,
    /// Records handed to a write that has not finished.
    pub in_flight: u64,
    /// A write has failed and lost its records.
    pub errored: bool,
    pub last_flush: i64,
    pub last_rotation: i64,
}

/// Largest admitted interval, in microseconds (about 30 years).
pub const MAX_INTERVAL_US: i64 = 1_000_000_000_000_000;

impl StreamRecorder {
    /// Every record offered is written, buffered, in flight or dropped,
    /// unless a write has failed.
    pub open spec fn wf(&self) -> bool {
        &&& !self.errored ==> self.received == self.written + self.in_buffer + self.in_flight + self.channel_drops
        &&& self.written + self.in_buffer + self.in_flight + self.channel_drops <= self.received
        &&& 0 <= self.flush_interval_us <= MAX_INTERVAL_US
        &&& 0 <= self.rotation_interval_us <= MAX_INTERVAL_US
        &&& crate::spread::instant_ok(self.last_flush as int)
        &&& crate::spread::instant_ok(self.last_rotation as int)
    }

    pub fn new(config: &RecorderConfig, now: i64) -> (r: StreamRecorder)
        requires
            config.flush_interval_secs <= 1_000_000_000,
            config.rotation_interval_secs <= 1_000_000_000,
            crate::spread::instant_ok(now as int),
        ensures
            r.wf(),
            r.buffer_size == config.buffer_size,
            r.flush_interval_us == config.flush_interval_secs * 1_000_000,
            r.rotation_interval_us == config.rotation_interval_secs * 1_000_000,
            r.received == 0 && r.written == 0 && r.files_written == 0 && r.channel_drops == 0,
            r.in_buffer == 0 && r.in_flight == 0 && !r.errored,
            r.last_flush == now && r.last_rotation == now,
    {
        StreamRecorder {
            buffer_size: config.buffer_size as u64,
            flush_interval_us: (config.flush_interval_secs as i64) * 1_000_000,
            rotation_interval_us: (config.rotation_interval_secs as i64) * 1_000_000,
            received: 0,
            written: 0,
            files_written: 0,
            channel_drops: 0,
            in_buffer: 0,
            in_flight: 0,
            errored: false,
            last_flush: now,
            last_rotation: now,
        }
    }

    /// Account for a producer's offer. An accepted record joins the buffer
    /// and the result says whether the buffer is now full and must be
    /// flushed; a full queue drops the record and reports `ChannelFull`; a
    /// closed one reports `ChannelClosed`.
    pub fn on_offer(&mut self, outcome: Enqueue) -> (r: Result<bool, RecordError>)
        requires
            old(self).wf(),
            old(self).received < u64::MAX,
        ensures
            final(self).wf(),
            match outcome {
                Enqueue::Accepted => {
                    &&& *final(self) == (StreamRecorder { received: (old(self).received + 1) as u64, in_buffer: (old(self).in_buffer + 1) as u64, ..*old(self) })
                    &&& r == Ok::<bool, RecordError>(final(self).in_buffer >= old(self).buffer_size)
                },
                Enqueue::Full => {
                    &&& *final(self) == (StreamRecorder { received: (old(self).received + 1) as u64, channel_drops: (old(self).channel_drops + 1) as u64, ..*old(self) })
                    &&& r == Err::<bool, RecordError>(RecordError::ChannelFull)
                },
                Enqueue::Closed => *final(self) == *old(self) && r == Err::<bool, RecordError>(RecordError::ChannelClosed),
            },
    {
        match outcome {
            Enqueue::Accepted => {
                self.received = self.received + 1;
                self.in_buffer = self.in_buffer + 1;
                Ok(self.in_buffer >= self.buffer_size)
            },
            Enqueue::Full => {
                self.received = self.received + 1;
                self.channel_drops = self.channel_drops + 1;
                Err(RecordError::ChannelFull)
            },
            Enqueue::Closed => Err(RecordError::ChannelClosed),
        }
    }

    /// The buffer holds at least `buffer_size` records and must be flushed.
    pub fn buffer_full(&self) -> (r: bool)
        ensures
            r == (self.in_buffer >= self.buffer_size),
    {
        self.in_buffer >= self.buffer_size
    }

    /// On a timer tick: flush when the interval has elapsed since the last
    /// flush and something is buffered.
    pub fn due_for_flush(&self, now: i64) -> (r: bool)
        requires
            self.wf(),
            crate::spread::instant_ok(now as int),
        ensures
            r == (now - self.last_flush >= self.flush_interval_us && self.in_buffer > 0),
    {
        now - self.last_flush >= self.flush_interval_us && self.in_buffer > 0
    }

    /// Hand the buffer to a write at `now`. Returns how many records the
    /// write carries and whether a new file must be started first.
    pub fn begin_flush(&mut self, now: i64) -> (r: (u64, bool))
        requires
            old(self).wf(),
            old(self).in_flight == 0,
            crate::spread::instant_ok(now as int),
        ensures
            final(self).wf(),
            r.0 == old(self).in_buffer,
            r.1 == (now - old(self).last_rotation >= old(self).rotation_interval_us),
            final(self).in_buffer == 0,
            final(self).in_flight == old(self).in_buffer,
            final(self).last_flush == now,
            final(self).last_rotation == if r.1 { now } else { old(self).last_rotation },
            final(self).received == old(self).received,
            final(self).written == old(self).written,
            final(self).channel_drops == old(self).channel_drops,
            final(self).files_written == old(self).files_written,
            final(self).errored == old(self).errored,
    {
        let count = self.in_buffer;
        let rotate = now - self.last_rotation >= self.rotation_interval_us;
        if rotate {
            self.last_rotation = now;
        }
        self.in_flight = count;
        self.in_buffer = 0;
        self.last_flush = now;
        (count, rotate)
    }

    /// Account for the end of a write: on success the records count as
    /// written and one more file exists; on failure they are lost.
    pub fn end_flush(&mut self, ok: bool)
        requires
            old(self).wf(),
            old(self).files_written < u64::MAX,
        ensures
            final(self).wf(),
            final(self).in_flight == 0,
            final(self).written == if ok { old(self).written + old(self).in_flight } else { old(self).written as int },
            final(self).files_written == if ok { old(self).files_written + 1 } else { old(self).files_written as int },
            final(self).errored == (old(self).errored || (!ok && old(self).in_flight > 0)),
            final(self).received == old(self).received,
            final(self).in_buffer == old(self).in_buffer,
            final(self).channel_drops == old(self).channel_drops,
    {
        if ok {
            self.written = self.written + self.in_flight;
            self.files_written = self.files_written + 1;
        } else if self.in_flight > 0 {
            self.errored = true;
        }
        self.in_flight = 0;
    }
}

} // verus!
