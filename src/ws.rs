//! Reconnecting streaming transport: configuration, frames, errors, the
//! reconnect backoff and the per-connection keepalive decisions.
use vstd::prelude::*;
use core::time::Duration;

verus! {

/// Whole milliseconds in a duration (what `Duration::as_millis` reports).
pub uninterp spec fn millis_of(d: Duration) -> nat;

pub assume_specification[ core::time::Duration::from_secs ](secs: u64) -> (r: Duration)
    ensures
        millis_of(r) == secs * 1000,
;

pub assume_specification[ <core::time::Duration as Clone>::clone ](d: &Duration) -> (r: Duration)
    ensures
        r == *d,
;

/// Relies on `Duration::as_millis`: whole milliseconds, here saturated to
/// `u64`.
#[verifier::external_body]
pub(crate) fn duration_millis(d: Duration) -> (r: u64)
    ensures
        r == if millis_of(d) <= u64::MAX { millis_of(d) } else { u64::MAX as nat },
{
    u64::try_from(d.as_millis()).unwrap_or(u64::MAX)
}

/// Transport configuration.
#[derive(Clone, Debug)]
pub struct WsConfig {
    pub url: String,
    /// Reconnection attempts before giving up; zero means unbounded.
    pub max_reconnect_attempts: u32,
    pub initial_reconnect_delay: Duration,
    pub max_reconnect_delay: Duration,
    pub ping_interval: Duration,
    pub pong_timeout: Duration,
}

impl WsConfig {
    /// Empty URL, ten attempts, delays from one to sixty seconds, a ping
    /// every thirty seconds, ten seconds for the pong.
    pub fn default() -> (r: WsConfig)
        ensures
            r.url@.len() == 0,
            r.max_reconnect_attempts == 10,
            millis_of(r.initial_reconnect_delay) == 1000,
            millis_of(r.max_reconnect_delay) == 60_000,
            millis_of(r.ping_interval) == 30_000,
            millis_of(r.pong_timeout) == 10_000,
    {
        WsConfig {
            url: String::new(),
            max_reconnect_attempts: 10,
            initial_reconnect_delay: Duration::from_secs(1),
            max_reconnect_delay: Duration::from_secs(60),
            ping_interval: Duration::from_secs(30),
            pong_timeout: Duration::from_secs(10),
        }
    }

    /// Default configuration for `url`.
    pub fn new(url: &str) -> (r: WsConfig)
        ensures
            r.url@ == url@,
            r.max_reconnect_attempts == 10,
            millis_of(r.initial_reconnect_delay) == 1000,
            millis_of(r.max_reconnect_delay) == 60_000,
            millis_of(r.ping_interval) == 30_000,
            millis_of(r.pong_timeout) == 10_000,
    {
        WsConfig { url: url.to_owned(), ..Self::default() }
    }

    pub fn max_reconnects(self, n: u32) -> (r: WsConfig)
        ensures
            r == (WsConfig { max_reconnect_attempts: n, ..self }),
    {
        WsConfig { max_reconnect_attempts: n, ..self }
    }

    pub fn initial_delay(self, d: Duration) -> (r: WsConfig)
        ensures
            r == (WsConfig { initial_reconnect_delay: d, ..self }),
    {
        WsConfig { initial_reconnect_delay: d, ..self }
    }

    pub fn max_delay(self, d: Duration) -> (r: WsConfig)
        ensures
            r == (WsConfig { max_reconnect_delay: d, ..self }),
    {
        WsConfig { max_reconnect_delay: d, ..self }
    }

    pub fn ping_interval(self, d: Duration) -> (r: WsConfig)
        ensures
            r == (WsConfig { ping_interval: d, ..self }),
    {
        WsConfig { ping_interval: d, ..self }
    }
}

/// What the transport hands to its reader.
#[derive(Clone, Debug)]
pub enum WsMessage {
    Text(String),
    Binary(Vec<u8>),
    Connected,
    Disconnected,
    Reconnecting { attempt: u32 },
}

/// Transport errors.
#[derive(Clone, Debug)]
pub enum WsError {
    ConnectionFailed(String),
    MaxReconnectsExceeded,
    ChannelClosed,
    SendFailed(String),
}

impl WsError {
    /// Human-readable description.
    pub fn message(&self) -> (r: String)
        ensures
            r@ == match self {
                WsError::ConnectionFailed(e) => "Connection failed: "@ + e@,
                WsError::MaxReconnectsExceeded => "Maximum reconnection attempts exceeded"@,
                WsError::ChannelClosed => "Channel closed"@,
                WsError::SendFailed(e) => "Send failed: "@ + e@,
            },
    {
        match self {
            WsError::ConnectionFailed(e) => {
                let mut s = String::from_str("Connection failed: ");
                s.append(e.as_str());
                s
            },
            WsError::MaxReconnectsExceeded => String::from_str("Maximum reconnection attempts exceeded"),
            WsError::ChannelClosed => String::from_str("Channel closed"),
            WsError::SendFailed(e) => {
                let mut s = String::from_str("Send failed: ");
                s.append(e.as_str());
                s
            },
        }
    }
}

/// A transport client; connecting is done by the runtime around the library.
#[derive(Clone, Debug)]
pub struct WsClient {
    pub config: WsConfig,
}

impl WsClient {
    pub fn new(config: WsConfig) -> (r: WsClient)
        ensures
            r.config == config,
    {
        WsClient { config }
    }

    pub fn with_url(url: &str) -> (r: WsClient)
        ensures
            r.config.url@ == url@,
            r.config.max_reconnect_attempts == 10,
    {
        Self::new(WsConfig::new(url))
    }

    pub fn url(&self) -> (r: &str)
        ensures
            r@ == self.config.url@,
    {
        self.config.url.as_str()
    }
}

/// `2^k`.
pub open spec fn pow2(k: nat) -> nat
    decreases k,
{
    if k == 0 {
        1
    } else {
        2 * pow2((k - 1) as nat)
    }
}

/// Delay after `k` doublings from `initial`, every value capped at `max`.
pub open spec fn doubled_delay(initial: nat, max: nat, k: nat) -> nat
    decreases k,
{
    if k == 0 {
        if initial <= max { initial } else { max }
    } else {
        let d = 2 * doubled_delay(initial, max, (k - 1) as nat);
        if d <= max { d } else { max }
    }
}

/// What to do after a connection error.
#[derive(Clone, Copy, Debug, PartialEq, Eq, Structural)]
pub enum ReconnectAction {
    /// Attempts exhausted: report `Disconnected` and fail.
    GiveUp,
    /// Nobody is reading any more: stop quietly.
    Stop,
    /// Report `Reconnecting { attempt }`, wait `delay_ms`, reconnect.
    Retry { attempt: u32, delay_ms: u64 },
}

/// Reconnect state: attempts so far and the delay before the next one.
#[derive(Clone, Copy, Debug)]
pub struct Backoff {
    pub initial_ms: u64,
    pub max_ms: u64,
    /// Zero means unbounded.
    pub max_attempts: u32,
    pub attempts: u32,
    pub delay_ms: u64,
}

impl Backoff {
    /// Nothing more than `attempts` retries have doubled the delay.
    pub open spec fn wf(&self) -> bool {
        self.delay_ms == doubled_delay(self.initial_ms as nat, self.max_ms as nat, self.attempts as nat)
    }

    /// Fresh state for a transport configuration.
    pub fn new(initial_ms: u64, max_ms: u64, max_attempts: u32) -> (r: Backoff)
        ensures
            r.wf(),
            r.initial_ms == initial_ms,
            r.max_ms == max_ms,
            r.max_attempts == max_attempts,
            r.attempts == 0,
    {
        let first = if initial_ms <= max_ms {
            initial_ms
        } else {
            max_ms
        };
        Backoff { initial_ms, max_ms, max_attempts, attempts: 0, delay_ms: first }
    }

    /// Fresh state from a transport configuration's delays.
    pub fn from_config(config: &WsConfig) -> (r: Backoff)
        ensures
            r.wf(),
            r.attempts == 0,
            r.max_attempts == config.max_reconnect_attempts,
            r.initial_ms as nat == if millis_of(config.initial_reconnect_delay) <= u64::MAX { millis_of(config.initial_reconnect_delay) } else { u64::MAX as nat },
            r.max_ms as nat == if millis_of(config.max_reconnect_delay) <= u64::MAX { millis_of(config.max_reconnect_delay) } else { u64::MAX as nat },
    {
        Self::new(
            duration_millis(config.initial_reconnect_delay),
            duration_millis(config.max_reconnect_delay),
            config.max_reconnect_attempts,
        )
    }

    /// Decide after a connection error: count the attempt, give up when a
    /// bound exists and is reached, stop when the reader is gone, else retry
    /// after the current delay and double it (capped) for the next time.
    pub fn on_error(&mut self, receiver_closed: bool) -> (r: ReconnectAction)
        requires
            old(self).wf(),
            old(self).attempts < u32::MAX,
        ensures
            final(self).wf(),
            final(self).initial_ms == old(self).initial_ms,
            final(self).max_ms == old(self).max_ms,
            final(self).max_attempts == old(self).max_attempts,
            final(self).attempts == old(self).attempts + 1,
            r == if old(self).max_attempts > 0 && final(self).attempts >= old(self).max_attempts {
                ReconnectAction::GiveUp
            } else if receiver_closed {
                ReconnectAction::Stop
            } else {
                ReconnectAction::Retry { attempt: final(self).attempts, delay_ms: old(self).delay_ms }
            },
    {
        let delay = self.delay_ms;
        self.attempts = self.attempts + 1;
        let next: u64 = if self.delay_ms > self.max_ms / 2 {
            self.max_ms
        } else if self.delay_ms * 2 <= self.max_ms {
            self.delay_ms * 2
        } else {
            self.max_ms
        };
        self.delay_ms = next;
        if self.max_attempts > 0 && self.attempts >= self.max_attempts {
            ReconnectAction::GiveUp
        } else if receiver_closed {
            ReconnectAction::Stop
        } else {
            ReconnectAction::Retry { attempt: self.attempts, delay_ms: delay }
        }
    }
}

/// While errors persist, the `k`-th retry waits `initial · 2^(k−1)` capped
/// at `max`.
pub proof fn lemma_backoff_delays(initial: nat, max: nat, k: nat)
    requires
        k >= 1,
    ensures
        doubled_delay(initial, max, (k - 1) as nat) == if initial * pow2((k - 1) as nat) <= max {
            initial * pow2((k - 1) as nat)
        } else {
            max
        },
    decreases k,
{
    if k == 1 {
        assert(pow2(0) == 1);
        assert(initial * 1 == initial);
    } else {
        let j = (k - 1) as nat;
        lemma_backoff_delays(initial, max, j);
        let pj = pow2((j - 1) as nat);
        let prev = doubled_delay(initial, max, (j - 1) as nat);
        assert(pow2(j) == 2 * pj);
        assert(initial * pow2(j) == 2 * (initial * pj)) by (nonlinear_arith)
            requires pow2(j) == 2 * pj;
        assert(doubled_delay(initial, max, j) == if 2 * prev <= max { 2 * prev } else { max });
    }
}

/// One event seen by a live connection.
#[derive(Clone, Debug)]
pub enum StreamEvent {
    /// A text frame arrived.
    Text(String),
    /// A binary frame arrived.
    Binary(Vec<u8>),
    /// The peer pinged with this payload.
    Ping(Vec<u8>),
    /// The peer answered our ping.
    Pong,
    /// The peer closed the connection.
    Close,
    /// Reading failed.
    ReadError(String),
    /// The stream ended without a close frame.
    Ended,
    /// The owner asked to send a text frame.
    Outbound(String),
    /// The owner's sender is gone.
    OutboundClosed,
    /// The ping interval elapsed.
    PingTick,
    /// The pong timeout has run out since the last ping was sent.
    PongDeadline,
}

/// What the connection does in response to an event.
#[derive(Clone, Debug)]
pub enum StreamAction {
    /// Pass a message to the reader.
    Forward(WsMessage),
    /// Answer a ping with the same payload.
    SendPong(Vec<u8>),
    /// Send a text frame.
    SendText(String),
    /// Send a ping and wait for the pong.
    SendPing,
    /// End the connection cleanly.
    Finish,
    /// Tear the connection down and reconnect.
    Fail(WsError),
    /// Nothing to do.
    Ignore,
}

/// Keepalive state of one connection.
#[derive(Clone, Copy, Debug)]
pub struct StreamSession {
    pub waiting_for_pong: bool,
}

impl StreamSession {
    pub fn new() -> (r: StreamSession)
        ensures
            !r.waiting_for_pong,
    {
        StreamSession { waiting_for_pong: false }
    }

    /// Decide on one event. A pong deadline, or a ping tick, while a pong is
    /// still awaited fails the connection; a ping tick otherwise sends a
    /// ping and starts waiting.
    pub fn on_event(&mut self, ev: StreamEvent) -> (r: StreamAction)
        ensures
            match ev {
                StreamEvent::Text(t) => r == StreamAction::Forward(WsMessage::Text(t)) && *final(self) == *old(self),
                StreamEvent::Binary(b) => r == StreamAction::Forward(WsMessage::Binary(b)) && *final(self) == *old(self),
                StreamEvent::Ping(p) => r == StreamAction::SendPong(p) && *final(self) == *old(self),
                StreamEvent::Pong => r == StreamAction::Ignore && !final(self).waiting_for_pong,
                StreamEvent::Close => r == StreamAction::Finish && *final(self) == *old(self),
                StreamEvent::ReadError(e) => r == StreamAction::Fail(WsError::ConnectionFailed(e)) && *final(self) == *old(self),
                StreamEvent::Ended => (r matches StreamAction::Fail(WsError::ConnectionFailed(_))) && *final(self) == *old(self),
                StreamEvent::Outbound(t) => r == StreamAction::SendText(t) && *final(self) == *old(self),
                StreamEvent::OutboundClosed => r == StreamAction::Finish && *final(self) == *old(self),
                StreamEvent::PongDeadline => if old(self).waiting_for_pong {
                    (r matches StreamAction::Fail(WsError::ConnectionFailed(_))) && *final(self) == *old(self)
                } else {
                    (r matches StreamAction::Ignore) && *final(self) == *old(self)
                },
                StreamEvent::PingTick => if old(self).waiting_for_pong {
                    (r matches StreamAction::Fail(WsError::ConnectionFailed(_))) && *final(self) == *old(self)
                } else {
                    r == StreamAction::SendPing && final(self).waiting_for_pong
                },
            },
    {
        match ev {
            StreamEvent::Text(t) => StreamAction::Forward(WsMessage::Text(t)),
            StreamEvent::Binary(b) => StreamAction::Forward(WsMessage::Binary(b)),
            StreamEvent::Ping(p) => StreamAction::SendPong(p),
            StreamEvent::Pong => {
                self.waiting_for_pong = false;
                StreamAction::Ignore
            },
            StreamEvent::Close => StreamAction::Finish,
            StreamEvent::ReadError(e) => StreamAction::Fail(WsError::ConnectionFailed(e)),
            StreamEvent::Ended => StreamAction::Fail(WsError::ConnectionFailed(String::from_str("Stream ended unexpectedly"))),
            StreamEvent::Outbound(t) => StreamAction::SendText(t),
            StreamEvent::OutboundClosed => StreamAction::Finish,
            StreamEvent::PongDeadline => {
                if self.waiting_for_pong {
                    StreamAction::Fail(WsError::ConnectionFailed(String::from_str("Pong timeout")))
                } else {
                    StreamAction::Ignore
                }
            },
            StreamEvent::PingTick => {
                if self.waiting_for_pong {
                    StreamAction::Fail(WsError::ConnectionFailed(String::from_str("Pong timeout")))
                } else {
                    self.waiting_for_pong = true;
                    StreamAction::SendPing
                }
            },
        }
    }
}

} // verus!
