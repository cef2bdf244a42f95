//! Depth feed of the prediction venue: configuration, event classification
//! and conversion of decoded book events into book updates.
use vstd::prelude::*;
use core::time::Duration;
use crate::feed::{decimal_of, fixed_of_parts, parse_fixed};
use crate::fixed::Fixed;
use crate::orderbook::{OrderBook, PriceLevel};
use crate::ws::{millis_of, WsMessage};

verus! {

/// Address of the venue's market-data stream.
pub const POLYMARKET_WS_URL: &'static str = "wss://ws-subscriptions-clob.polymarket.com/ws/market";

/// Depth feed configuration.
#[derive(Clone, Debug)]
pub struct PolymarketConfig {
    pub ws_url: String,
    /// Zero means unbounded.
    pub max_reconnects: u32,
    pub initial_delay: Duration,
    pub max_delay: Duration,
    /// Capacity of the outgoing update queue.
    pub buffer_size: usize,
}

impl PolymarketConfig {
    /// The venue's address, unbounded retries from one to thirty seconds,
    /// 256 queued updates.
    pub fn default() -> (r: PolymarketConfig)
        ensures
            r.ws_url@ == POLYMARKET_WS_URL@,
            r.max_reconnects == 0,
            millis_of(r.initial_delay) == 1000,
            millis_of(r.max_delay) == 30_000,
            r.buffer_size == 256,
    {
        PolymarketConfig {
            ws_url: String::from_str(POLYMARKET_WS_URL),
            max_reconnects: 0,
            initial_delay: Duration::from_secs(1),
            max_delay: Duration::from_secs(30),
            buffer_size: 256,
        }
    }
}

/// Depth feed client; the streaming itself is run by the runtime.
#[derive(Clone, Debug)]
pub struct PolymarketClient {
    pub config: PolymarketConfig,
}

impl PolymarketClient {
    pub fn new() -> (r: PolymarketClient)
        ensures
            r.config.ws_url@ == POLYMARKET_WS_URL@,
            r.config.max_reconnects == 0,
            millis_of(r.config.initial_delay) == 1000,
            millis_of(r.config.max_delay) == 30_000,
            r.config.buffer_size == 256,
    {
        PolymarketClient { config: PolymarketConfig::default() }
    }

    pub fn with_config(config: PolymarketConfig) -> (r: PolymarketClient)
        ensures
            r.config == config,
    {
        PolymarketClient { config }
    }
}

/// What the depth feed does with one transport message.
#[derive(Clone, Debug)]
pub enum SubscriptionAction {
    /// Send the subscription message for the session's tokens.
    Subscribe,
    /// Decode this text frame into book updates.
    Parse(String),
    /// Nothing to do.
    Ignore,
    /// The transport has given up: end the feed.
    Stop,
}

/// State of the depth feed's subscription over one transport.
#[derive(Clone, Debug)]
pub struct SubscriptionSession {
    pub connected: bool,
    /// Tokens to subscribe to on every (re)connection.
    pub token_ids: Vec<String>,
}

impl SubscriptionSession {
    pub fn new(token_ids: Vec<String>) -> (r: SubscriptionSession)
        ensures
            !r.connected,
            r.token_ids == token_ids,
    {
        SubscriptionSession { connected: false, token_ids }
    }

    /// Decide on one transport message: subscribe on each connection, parse
    /// text only while connected, forget the connection while reconnecting,
    /// stop when the transport has given up.
    pub fn on_message(&mut self, msg: WsMessage) -> (r: SubscriptionAction)
        ensures
            final(self).token_ids == old(self).token_ids,
            match msg {
                WsMessage::Connected => final(self).connected && (r matches SubscriptionAction::Subscribe),
                WsMessage::Text(t) => final(self).connected == old(self).connected && if old(self).connected {
                    r matches SubscriptionAction::Parse(x) && x == t
                } else {
                    r matches SubscriptionAction::Ignore
                },
                WsMessage::Binary(_) => final(self).connected == old(self).connected && (r matches SubscriptionAction::Ignore),
                WsMessage::Reconnecting { .. } => !final(self).connected && (r matches SubscriptionAction::Ignore),
                WsMessage::Disconnected => !final(self).connected && (r matches SubscriptionAction::Stop),
            },
    {
        match msg {
            WsMessage::Connected => {
                self.connected = true;
                SubscriptionAction::Subscribe
            },
            WsMessage::Text(t) => {
                if self.connected {
                    SubscriptionAction::Parse(t)
                } else {
                    SubscriptionAction::Ignore
                }
            },
            WsMessage::Binary(_) => SubscriptionAction::Ignore,
            WsMessage::Reconnecting { .. } => {
                self.connected = false;
                SubscriptionAction::Ignore
            },
            WsMessage::Disconnected => {
                self.connected = false;
                SubscriptionAction::Stop
            },
        }
    }

    /// Add tokens to the subscription; the caller sends a new subscription
    /// message when connected.
    pub fn add_tokens(&mut self, tokens: Vec<String>)
        ensures
            final(self).connected == old(self).connected,
            final(self).token_ids@ == old(self).token_ids@ + tokens@,
    {
        let mut t = tokens;
        self.token_ids.append(&mut t);
    }
}

/// Kind of a decoded depth event.
#[derive(Clone, Copy, Debug, PartialEq, Eq, Structural)]
pub enum EventKind {
    /// A full book snapshot.
    Book,
    /// A batch of per-level changes.
    PriceChanges,
    /// Anything else (trades, tick size changes, unknown types).
    Ignore,
}

/// Classify an event by its `event_type` and the fields it carries: `book`
/// is a snapshot; `price_change` with a `price_changes` array is a delta;
/// with no type, an `asset_id` and either side make a snapshot, else a
/// `price_changes` array makes a delta.
pub fn classify_event(event_type: &str, has_asset_id: bool, has_bids: bool, has_asks: bool, has_price_changes: bool) -> (r: EventKind)
    ensures
        r == if event_type@ == "book"@ {
            EventKind::Book
        } else if event_type@ == "price_change"@ {
            if has_price_changes { EventKind::PriceChanges } else { EventKind::Ignore }
        } else if event_type@ == ""@ {
            if has_asset_id && (has_bids || has_asks) {
                EventKind::Book
            } else if has_price_changes {
                EventKind::PriceChanges
            } else {
                EventKind::Ignore
            }
        } else {
            EventKind::Ignore
        },
{
    if crate::position::str_eq(event_type, "book") {
        EventKind::Book
    } else if crate::position::str_eq(event_type, "price_change") {
        if has_price_changes {
            EventKind::PriceChanges
        } else {
            EventKind::Ignore
        }
    } else if crate::position::str_eq(event_type, "") {
        if has_asset_id && (has_bids || has_asks) {
            EventKind::Book
        } else if has_price_changes {
            EventKind::PriceChanges
        } else {
            EventKind::Ignore
        }
    } else {
        EventKind::Ignore
    }
}

/// A level as text, as the venue sends it.
#[derive(Clone, Debug)]
pub struct BookLevel {
    pub price: String,
    pub size: String,
}

/// A decoded snapshot event.
#[derive(Clone, Debug)]
pub struct BookEvent {
    pub asset_id: String,
    pub bids: Vec<BookLevel>,
    pub asks: Vec<BookLevel>,
    /// Milliseconds since the epoch, as text; may be empty.
    pub timestamp: String,
}

/// One decoded per-level change.
#[derive(Clone, Debug)]
pub struct PriceChange {
    pub asset_id: String,
    pub price: String,
    pub size: String,
    /// `BUY` (bids) or `SELL` (asks).
    pub side: String,
}

/// The fixed-point value of a decimal text, when it has one in range.
pub open spec fn text_value(s: Seq<char>) -> Option<int> {
    match decimal_of(s) {
        Some((m, e)) => fixed_of_parts(m, e),
        None => None,
    }
}

/// The level a text pair denotes, when both parts are decimals in range.
pub open spec fn level_of(l: BookLevel) -> Option<PriceLevel> {
    match (text_value(l.price@), text_value(l.size@)) {
        (Some(p), Some(z)) => Some(PriceLevel { price: Fixed { raw: p as i64 }, size: Fixed { raw: z as i64 } }),
        _ => None,
    }
}

/// The levels of a text sequence, unparseable ones left out.
pub open spec fn levels_of(s: Seq<BookLevel>) -> Seq<PriceLevel>
    decreases s.len(),
{
    if s.len() == 0 {
        Seq::empty()
    } else {
        match level_of(s.last()) {
            Some(l) => levels_of(s.drop_last()).push(l),
            None => levels_of(s.drop_last()),
        }
    }
}

fn parse_level(l: &BookLevel) -> (r: Option<PriceLevel>)
    ensures
        r == level_of(*l),
{
    match (parse_fixed(l.price.as_str()), parse_fixed(l.size.as_str())) {
        (Some(price), Some(size)) => Some(PriceLevel { price, size }),
        _ => None,
    }
}

/// The parseable levels of `levels`, in order.
pub fn parse_levels(levels: &Vec<BookLevel>) -> (r: Vec<PriceLevel>)
    ensures
        r@ == levels_of(levels@),
{
    let mut out: Vec<PriceLevel> = Vec::new();
    let mut i: usize = 0;
    while i < levels.len()
        invariant
            0 <= i <= levels@.len(),
            out@ == levels_of(levels@.subrange(0, i as int)),
        decreases levels@.len() - i,
    {
        proof {
            assert(levels@.subrange(0, i + 1).drop_last() =~= levels@.subrange(0, i as int));
        }
        match parse_level(&levels[i]) {
            Some(l) => out.push(l),
            None => {},
        }
        i = i + 1;
    }
    proof {
        assert(levels@.subrange(0, i as int) =~= levels@);
    }
    out
}

/// What `str::parse::<i64>` makes of a text.
pub uninterp spec fn i64_of(s: Seq<char>) -> Option<i64>;

/// Relies on `str::parse::<i64>`: the integer the text denotes, if any.
#[verifier::external_body]
fn parse_i64(s: &str) -> (r: Option<i64>)
    ensures
        r == i64_of(s@),
{
    s.parse::<i64>().ok()
}

/// Largest magnitude of a millisecond time that maps to an instant.
pub const MAX_MILLIS: i64 = 4_000_000_000_000_000;

/// Instant (microseconds) of a millisecond text: `now` when it is empty,
/// the epoch when it is not an integer in range.
pub open spec fn stamp_of(s: Seq<char>, now: i64) -> i64 {
    if s == ""@ {
        now
    } else {
        match i64_of(s) {
            Some(ms) => if -MAX_MILLIS <= ms <= MAX_MILLIS { (ms * 1000) as i64 } else { 0 },
            None => 0,
        }
    }
}

/// The book update a snapshot event carries.
pub fn book_event_to_orderbook(book: &BookEvent, now: i64) -> (r: OrderBook)
    ensures
        r.token_id@ == book.asset_id@,
        r.bids@ == levels_of(book.bids@),
        r.asks@ == levels_of(book.asks@),
        r.updated_at == stamp_of(book.timestamp@, now),
{
    let updated_at: i64 = if crate::position::str_eq(book.timestamp.as_str(), "") {
        now
    } else {
        match parse_i64(book.timestamp.as_str()) {
            Some(ms) => if -MAX_MILLIS <= ms && ms <= MAX_MILLIS {
                ms * 1000
            } else {
                0
            },
            None => 0,
        }
    };
    OrderBook {
        token_id: book.asset_id.clone(),
        bids: parse_levels(&book.bids),
        asks: parse_levels(&book.asks),
        updated_at,
    }
}

/// The change as a level on the side it names, when it parses.
pub open spec fn change_level(c: PriceChange) -> Option<(bool, PriceLevel)> {
    match (text_value(c.price@), text_value(c.size@)) {
        (Some(p), Some(z)) => if c.side@ == "BUY"@ {
            Some((true, PriceLevel { price: Fixed { raw: p as i64 }, size: Fixed { raw: z as i64 } }))
        } else if c.side@ == "SELL"@ {
            Some((false, PriceLevel { price: Fixed { raw: p as i64 }, size: Fixed { raw: z as i64 } }))
        } else {
            None
        },
        _ => None,
    }
}

/// The levels that the changes for `asset` set on one side, in order.
pub open spec fn side_changes(s: Seq<PriceChange>, asset: Seq<char>, bids: bool) -> Seq<PriceLevel>
    decreases s.len(),
{
    if s.len() == 0 {
        Seq::empty()
    } else {
        let rest = side_changes(s.drop_last(), asset, bids);
        let c = s.last();
        if c.asset_id@ == asset {
            match change_level(c) {
                Some((b, l)) => if b == bids { rest.push(l) } else { rest },
                None => rest,
            }
        } else {
            rest
        }
    }
}

#[verifier::rlimit(40)]
/// Some change for token `t` parses and names a side.
pub open spec fn has_delta(changes: Seq<PriceChange>, t: Seq<char>) -> bool {
    side_changes(changes, t, true).len() + side_changes(changes, t, false).len() > 0
}

/// Some book of `out` belongs to token `t`.
pub open spec fn has_book_for(out: Seq<OrderBook>, t: Seq<char>) -> bool {
    exists|a: int| 0 <= a < out.len() && out[a].token_id@ == t
}

/// Token `t` is among the seen ones.
pub open spec fn named(seen: Seq<String>, t: Seq<char>) -> bool {
    exists|x: int| 0 <= x < seen.len() && seen[x]@ == t
}

/// Turn a batch of changes into one delta per asset, in order of each
/// asset's first change. A size of zero is kept: it removes the level.
/// Unparseable changes and unknown sides are skipped; an asset left with
/// no level gives no delta.
pub fn price_changes_to_orderbooks(changes: &Vec<PriceChange>, now: i64) -> (r: Vec<OrderBook>)
    ensures
        forall|i: int|
            0 <= i < r@.len() ==> {
                let b = #[trigger] r@[i];
                &&& b.bids@ == side_changes(changes@, b.token_id@, true)
                &&& b.asks@ == side_changes(changes@, b.token_id@, false)
                &&& b.bids@.len() + b.asks@.len() > 0
                &&& b.updated_at == now
                &&& exists|k: int| 0 <= k < changes@.len() && changes@[k].asset_id@ == b.token_id@
            },
        forall|i: int, j: int| 0 <= i < j < r@.len() ==> (#[trigger] r@[i]).token_id@ != (#[trigger] r@[j]).token_id@,
        forall|k: int|
            0 <= k < changes@.len() && has_delta(changes@, (#[trigger] changes@[k]).asset_id@) ==> has_book_for(r@, changes@[k].asset_id@),
{
    let mut out: Vec<OrderBook> = Vec::new();
    let mut seen: Vec<String> = Vec::new();
    let mut i: usize = 0;
    while i < changes.len()
        invariant
            0 <= i <= changes@.len(),
            forall|a: int|
                0 <= a < out@.len() ==> {
                    let b = #[trigger] out@[a];
                    &&& b.bids@ == side_changes(changes@, b.token_id@, true)
                    &&& b.asks@ == side_changes(changes@, b.token_id@, false)
                    &&& b.bids@.len() + b.asks@.len() > 0
                    &&& b.updated_at == now
                    &&& exists|k: int| 0 <= k < changes@.len() && changes@[k].asset_id@ == b.token_id@
                    &&& exists|k: int| 0 <= k < seen@.len() && seen@[k]@ == b.token_id@
                },
            forall|a: int, c: int| 0 <= a < c < out@.len() ==> (#[trigger] out@[a]).token_id@ != (#[trigger] out@[c]).token_id@,
            forall|k: int| 0 <= k < i ==> named(seen@, (#[trigger] changes@[k]).asset_id@),
            forall|x: int| 0 <= x < seen@.len() ==> (has_delta(changes@, (#[trigger] seen@[x])@) ==> has_book_for(out@, seen@[x]@)),
        decreases changes@.len() - i,
    {
        let asset = changes[i].asset_id.clone();
        let mut known = false;
        let mut k: usize = 0;
        while k < seen.len()
            invariant
                0 <= k <= seen@.len(),
                known == exists|x: int| 0 <= x < k && seen@[x]@ == asset@,
            decreases seen@.len() - k,
        {
            if seen[k] == asset {
                known = true;
            }
            k = k + 1;
        }
        if !known {
            let bids = collect_side(changes, &asset, true);
            let asks = collect_side(changes, &asset, false);
            let ghost tok = asset@;
            let ghost old_out = out@;
            let ghost old_seen = seen@;
            proof {
                assert forall|a: int| 0 <= a < old_out.len() implies old_out[a].token_id@ != tok by {
                    let b = old_out[a];
                    let x = choose|x: int| 0 <= x < old_seen.len() && old_seen[x]@ == b.token_id@;
                    assert(!(old_seen[x]@ == asset@));
                }
            }
            if bids.len() > 0 || asks.len() > 0 {
                out.push(OrderBook { token_id: asset.clone(), bids, asks, updated_at: now });
                proof {
                    assert(changes@[i as int].asset_id@ == tok);
                }
            }
            seen.push(asset);
            proof {
                assert(seen@[old_seen.len() as int]@ == tok);
                assert forall|k: int| 0 <= k < i + 1 implies named(seen@, (#[trigger] changes@[k]).asset_id@) by {
                    if k < i {
                        assert(named(old_seen, changes@[k].asset_id@));
                        let x = choose|x: int| 0 <= x < old_seen.len() && old_seen[x]@ == changes@[k].asset_id@;
                        assert(seen@[x] == old_seen[x]);
                    } else {
                        assert(seen@[old_seen.len() as int]@ == changes@[k].asset_id@);
                    }
                }
                assert forall|x: int| 0 <= x < seen@.len() implies (has_delta(changes@, (#[trigger] seen@[x])@) ==> has_book_for(out@, seen@[x]@)) by {
                    if x < old_seen.len() {
                        assert(seen@[x] == old_seen[x]);
                        if has_delta(changes@, old_seen[x]@) {
                            assert(has_book_for(old_out, old_seen[x]@));
                            let a = choose|a: int| 0 <= a < old_out.len() && old_out[a].token_id@ == old_seen[x]@;
                            assert(out@[a] == old_out[a]);
                        }
                    } else {
                        if has_delta(changes@, tok) {
                            assert(out@[old_out.len() as int].token_id@ == tok);
                        }
                    }
                }
                assert forall|a: int| 0 <= a < out@.len() implies {
                    let b = #[trigger] out@[a];
                    &&& b.bids@ == side_changes(changes@, b.token_id@, true)
                    &&& b.asks@ == side_changes(changes@, b.token_id@, false)
                    &&& b.bids@.len() + b.asks@.len() > 0
                    &&& b.updated_at == now
                    &&& exists|k: int| 0 <= k < changes@.len() && changes@[k].asset_id@ == b.token_id@
                    &&& exists|k: int| 0 <= k < seen@.len() && seen@[k]@ == b.token_id@
                } by {
                    if a < old_out.len() {
                        let b = out@[a];
                        assert(b == old_out[a]);
                        let x = choose|x: int| 0 <= x < old_seen.len() && old_seen[x]@ == b.token_id@;
                        assert(seen@[x] == old_seen[x]);
                    } else {
                        assert(changes@[i as int].asset_id@ == tok);
                        assert(seen@[old_seen.len() as int]@ == tok);
                    }
                }
                assert forall|a: int, c: int| 0 <= a < c < out@.len() implies (#[trigger] out@[a]).token_id@ != (#[trigger] out@[c]).token_id@ by {
                    if c >= old_out.len() {
                        assert(out@[a] == old_out[a]);
                    } else {
                        assert(out@[a] == old_out[a]);
                        assert(out@[c] == old_out[c]);
                    }
                }
            }
        }
        i = i + 1;
    }
    out
}

/// The levels the changes for `asset` set on one side, in order.
fn collect_side(changes: &Vec<PriceChange>, asset: &String, bids: bool) -> (r: Vec<PriceLevel>)
    ensures
        r@ == side_changes(changes@, asset@, bids),
{
    let mut out: Vec<PriceLevel> = Vec::new();
    let mut i: usize = 0;
    while i < changes.len()
        invariant
            0 <= i <= changes@.len(),
            out@ == side_changes(changes@.subrange(0, i as int), asset@, bids),
        decreases changes@.len() - i,
    {
        proof {
            assert(changes@.subrange(0, i + 1).drop_last() =~= changes@.subrange(0, i as int));
        }
        let c = &changes[i];
        if c.asset_id == *asset {
            match (parse_fixed(c.price.as_str()), parse_fixed(c.size.as_str())) {
                (Some(price), Some(size)) => {
                    let is_buy = crate::position::str_eq(c.side.as_str(), "BUY");
                    let is_sell = crate::position::str_eq(c.side.as_str(), "SELL");
                    if (is_buy && bids) || (is_sell && !is_buy && !bids) {
                        out.push(PriceLevel { price, size });
                    }
                },
                _ => {},
            }
        }
        i = i + 1;
    }
    proof {
        assert(changes@.subrange(0, i as int) =~= changes@);
    }
    out
}

} // verus!
