//! Layout of the recorded columnar files: names, rotation, and the records
//! with their decimal-text columns.
use vstd::prelude::*;
use crate::fixed::{decimal_text_of, Fixed};
use crate::feed::PriceTick;
use crate::orderbook::{OrderBook, PriceLevel};
use crate::signal::{Side, Signal};

verus! {

/// What chrono's `format("%Y%m%d_%H%M%S")` writes for an instant given in
/// microseconds since the epoch (UTC).
pub uninterp spec fn stamp_text_of(micros: i64) -> Seq<char>;

/// Relies on chrono's `DateTime::from_timestamp_micros` and `format`: the
/// UTC date and time of an instant as `YYYYMMDD_HHMMSS`. It is `None` only
/// outside chrono's dates (years ±262142), so never for instants within
/// ±4·10^18 µs (about ±126,000 years).
#[verifier::external_body]
fn stamp_text(micros: i64) -> (r: Option<String>)
    ensures
        r matches Some(s) ==> s@ == stamp_text_of(micros),
        -4_000_000_000_000_000_000 <= micros <= 4_000_000_000_000_000_000 ==> r.is_some(),
{
    chrono::DateTime::from_timestamp_micros(micros).map(|t| t.format("%Y%m%d_%H%M%S").to_string())
}

/// File writer state: where files go and when the current one started.
#[derive(Clone, Debug)]
pub struct ParquetWriter {
    pub output_dir: String,
    /// Rotation interval, microseconds.
    pub rotation_interval: i64,
    pub current_file_start: Option<i64>,
}

impl ParquetWriter {
    pub fn new(output_dir: &str, rotation_interval_secs: u64) -> (r: ParquetWriter)
        requires
            rotation_interval_secs <= 1_000_000_000,
        ensures
            r.output_dir@ == output_dir@,
            r.rotation_interval == rotation_interval_secs * 1_000_000,
            r.current_file_start.is_none(),
    {
        ParquetWriter {
            output_dir: output_dir.to_owned(),
            rotation_interval: (rotation_interval_secs as i64) * 1_000_000,
            current_file_start: None,
        }
    }

    /// A new file is due: none started yet, or the interval has elapsed.
    pub fn needs_rotation(&self, now: i64) -> (r: bool)
        requires
            crate::spread::instant_ok(now as int),
            self.current_file_start matches Some(t) ==> crate::spread::instant_ok(t as int),
        ensures
            r == match self.current_file_start {
                None => true,
                Some(start) => now - start >= self.rotation_interval,
            },
    {
        match self.current_file_start {
            None => true,
            Some(start) => now - start >= self.rotation_interval,
        }
    }

    pub fn mark_rotation(&mut self, timestamp: i64)
        ensures
            final(self).current_file_start == Some(timestamp),
            final(self).output_dir == old(self).output_dir,
            final(self).rotation_interval == old(self).rotation_interval,
    {
        self.current_file_start = Some(timestamp);
    }

    /// `<dir>/<prefix>_<YYYYMMDD>_<HHMMSS>.parquet`, when the instant can be
    /// written as a date.
    pub fn file_path(&self, prefix: &str, timestamp: i64) -> (r: Option<String>)
        ensures
            r matches Some(p) ==> p@ == self.output_dir@ + "/"@ + prefix@ + "_"@ + stamp_text_of(timestamp) + ".parquet"@,
            crate::spread::instant_ok(timestamp as int) ==> r.is_some(),
    {
        match stamp_text(timestamp) {
            Some(stamp) => {
                let mut p = self.output_dir.clone();
                p.append("/");
                p.append(prefix);
                p.append("_");
                p.append(stamp.as_str());
                p.append(".parquet");
                Some(p)
            },
            None => None,
        }
    }
}

/// A recorded tick.
#[derive(Clone, Debug)]
pub struct PriceTickRecord {
    pub timestamp: i64,
    pub symbol: String,
    pub price: Fixed,
    pub exchange_ts: i64,
}

impl PriceTickRecord {
    pub fn new(tick: &PriceTick) -> (r: PriceTickRecord)
        ensures
            r.timestamp == tick.timestamp,
            r.symbol == tick.symbol,
            r.price == tick.price,
            r.exchange_ts == tick.exchange_ts,
    {
        PriceTickRecord { timestamp: tick.timestamp, symbol: tick.symbol.clone(), price: tick.price, exchange_ts: tick.exchange_ts }
    }

    /// The price column: canonical decimal text.
    pub fn price_text(&self) -> (r: String)
        ensures
            r@ == decimal_text_of(self.price.v()),
    {
        self.price.to_text()
    }
}

/// A recorded book: both sides as `(price, size)` pairs.
#[derive(Clone, Debug)]
pub struct OrderBookRecord {
    pub timestamp: i64,
    pub token_id: String,
    pub bids: Vec<(Fixed, Fixed)>,
    pub asks: Vec<(Fixed, Fixed)>,
}

/// A side as `(price, size)` pairs.
pub fn level_pairs(levels: &Vec<PriceLevel>) -> (r: Vec<(Fixed, Fixed)>)
    ensures
        r@.len() == levels@.len(),
        forall|i: int| 0 <= i < levels@.len() ==> #[trigger] r@[i] == (levels@[i].price, levels@[i].size),
{
    let mut out: Vec<(Fixed, Fixed)> = Vec::new();
    let mut i: usize = 0;
    while i < levels.len()
        invariant
            0 <= i <= levels@.len(),
            out@.len() == i,
            forall|k: int| 0 <= k < i ==> #[trigger] out@[k] == (levels@[k].price, levels@[k].size),
        decreases levels@.len() - i,
    {
        out.push((levels[i].price, levels[i].size));
        i = i + 1;
    }
    out
}

impl OrderBookRecord {
    pub fn new(book: &OrderBook) -> (r: OrderBookRecord)
        ensures
            r.timestamp == book.updated_at,
            r.token_id == book.token_id,
            r.bids@.len() == book.bids@.len(),
            r.asks@.len() == book.asks@.len(),
            forall|i: int| 0 <= i < book.bids@.len() ==> #[trigger] r.bids@[i] == (book.bids@[i].price, book.bids@[i].size),
            forall|i: int| 0 <= i < book.asks@.len() ==> #[trigger] r.asks@[i] == (book.asks@[i].price, book.asks@[i].size),
    {
        OrderBookRecord {
            timestamp: book.updated_at,
            token_id: book.token_id.clone(),
            bids: level_pairs(&book.bids),
            asks: level_pairs(&book.asks),
        }
    }
}

/// Reader of one recorded file; decoding is done by the runtime.
#[derive(Clone, Debug)]
pub struct ParquetReader {
    pub path: String,
}

impl ParquetReader {
    pub fn new(path: &str) -> (r: ParquetReader)
        ensures
            r.path@ == path@,
    {
        ParquetReader { path: path.to_owned() }
    }

    pub fn path(&self) -> (r: &str)
        ensures
            r@ == self.path@,
    {
        self.path.as_str()
    }
}

/// The text of an optional column value.
pub open spec fn opt_text(o: Option<String>) -> Option<Seq<char>> {
    match o {
        Some(t) => Some(t@),
        None => None,
    }
}

/// Column `c` of a book row: for level `c / 4`, in turn bid price, bid
/// size, ask price and ask size, as decimal text when the side has that
/// level, else nothing.
pub open spec fn book_col(rec: OrderBookRecord, c: int) -> Option<Seq<char>> {
    let i = c / 4;
    let kind = c % 4;
    let side = if kind < 2 { rec.bids@ } else { rec.asks@ };
    if i < side.len() {
        Some(decimal_text_of(if kind % 2 == 0 { side[i].0.v() } else { side[i].1.v() }))
    } else {
        None
    }
}

/// Levels in a book row: the deeper of the two sides.
pub open spec fn row_depth(rec: OrderBookRecord) -> int {
    if rec.bids@.len() >= rec.asks@.len() { rec.bids@.len() as int } else { rec.asks@.len() as int }
}

/// Largest number of levels per side a book row holds.
pub const MAX_ROW_LEVELS: usize = 0x1000_0000;

/// One row of the book file: time, token, then for every level of the
/// deeper side four columns (bid price, bid size, ask price, ask size), each
/// the decimal text of the value, or nothing past that side's end.
pub fn orderbook_row(rec: &OrderBookRecord) -> (r: (i64, String, Vec<Option<String>>))
    requires
        rec.bids@.len() <= MAX_ROW_LEVELS,
        rec.asks@.len() <= MAX_ROW_LEVELS,
    ensures
        r.0 == rec.timestamp,
        r.1 == rec.token_id,
        r.2@.len() == 4 * row_depth(*rec),
        forall|c: int| 0 <= c < r.2@.len() ==> opt_text(#[trigger] r.2@[c]) == book_col(*rec, c),
        forall|i: int|
            0 <= i < rec.bids@.len() ==> opt_text(#[trigger] r.2@[4 * i]) == Some(decimal_text_of(rec.bids@[i].0.v()))
                && opt_text(r.2@[4 * i + 1]) == Some(decimal_text_of(rec.bids@[i].1.v())),
        forall|i: int|
            0 <= i < rec.asks@.len() ==> opt_text(#[trigger] r.2@[4 * i + 2]) == Some(decimal_text_of(rec.asks@[i].0.v()))
                && opt_text(r.2@[4 * i + 3]) == Some(decimal_text_of(rec.asks@[i].1.v())),
{
    let depth: usize = if rec.bids.len() >= rec.asks.len() {
        rec.bids.len()
    } else {
        rec.asks.len()
    };
    let mut cols: Vec<Option<String>> = Vec::new();
    let mut i: usize = 0;
    while i < depth
        invariant
            0 <= i <= depth,
            depth == row_depth(*rec),
            depth <= MAX_ROW_LEVELS,
            cols@.len() == 4 * i,
            forall|c: int| 0 <= c < 4 * i ==> opt_text(#[trigger] cols@[c]) == book_col(*rec, c),
            forall|k: int|
                0 <= k < i && k < rec.bids@.len() ==> opt_text(#[trigger] cols@[4 * k]) == Some(decimal_text_of(rec.bids@[k].0.v()))
                    && opt_text(cols@[4 * k + 1]) == Some(decimal_text_of(rec.bids@[k].1.v())),
            forall|k: int|
                0 <= k < i && k < rec.asks@.len() ==> opt_text(#[trigger] cols@[4 * k + 2]) == Some(decimal_text_of(rec.asks@[k].0.v()))
                    && opt_text(cols@[4 * k + 3]) == Some(decimal_text_of(rec.asks@[k].1.v())),
        decreases depth - i,
    {
        let ghost before = cols@;
        let bp = if i < rec.bids.len() { Some(rec.bids[i].0.to_text()) } else { None };
        let bs = if i < rec.bids.len() { Some(rec.bids[i].1.to_text()) } else { None };
        let ap = if i < rec.asks.len() { Some(rec.asks[i].0.to_text()) } else { None };
        let az = if i < rec.asks.len() { Some(rec.asks[i].1.to_text()) } else { None };
        cols.push(bp);
        cols.push(bs);
        cols.push(ap);
        cols.push(az);
        proof {
            let b = 4 * i as int;
            assert forall|c: int| 0 <= c < 4 * (i + 1) implies opt_text(#[trigger] cols@[c]) == book_col(*rec, c) by {
                if c < b {
                    assert(cols@[c] == before[c]);
                } else {
                    assert(c / 4 == i as int) by (nonlinear_arith) requires b <= c < b + 4, b == 4 * i;
                    assert(c % 4 == c - b) by (nonlinear_arith) requires b <= c < b + 4, b == 4 * i;
                }
            }
            assert forall|k: int|
                0 <= k < i + 1 && k < rec.bids@.len() implies opt_text(#[trigger] cols@[4 * k]) == Some(decimal_text_of(rec.bids@[k].0.v()))
                    && opt_text(cols@[4 * k + 1]) == Some(decimal_text_of(rec.bids@[k].1.v())) by {
                if k < i {
                    assert(cols@[4 * k] == before[4 * k]);
                    assert(cols@[4 * k + 1] == before[4 * k + 1]);
                }
            }
            assert forall|k: int|
                0 <= k < i + 1 && k < rec.asks@.len() implies opt_text(#[trigger] cols@[4 * k + 2]) == Some(decimal_text_of(rec.asks@[k].0.v()))
                    && opt_text(cols@[4 * k + 3]) == Some(decimal_text_of(rec.asks@[k].1.v())) by {
                if k < i {
                    assert(cols@[4 * k + 2] == before[4 * k + 2]);
                    assert(cols@[4 * k + 3] == before[4 * k + 3]);
                }
            }
        }
        i = i + 1;
    }
    (rec.timestamp, rec.token_id.clone(), cols)
}

/// A recorded trading signal.
#[derive(Clone, Debug)]
pub struct SignalRecord {
    pub timestamp: i64,
    pub market_id: String,
    /// `yes` or `no`.
    pub side: String,
    pub fair_value: Fixed,
    pub market_price: Fixed,
    pub edge: Fixed,
    /// What was done with the signal.
    pub action: String,
}

/// The record of a signal and the action taken on it.
pub fn signal_record(s: &Signal, action: &str) -> (r: SignalRecord)
    ensures
        r.timestamp == s.timestamp,
        r.market_id@ == s.market.condition_id@,
        r.side@ == match s.side {
            Side::Yes => "yes"@,
            Side::No => "no"@,
        },
        r.fair_value == s.fair_value,
        r.market_price == s.market_price,
        r.edge == s.adjusted_edge,
        r.action@ == action@,
{
    let side = match s.side {
        Side::Yes => String::from_str("yes"),
        Side::No => String::from_str("no"),
    };
    SignalRecord {
        timestamp: s.timestamp,
        market_id: s.market.condition_id.clone(),
        side,
        fair_value: s.fair_value,
        market_price: s.market_price,
        edge: s.adjusted_edge,
        action: action.to_owned(),
    }
}

/// One row of the signal file: time, then market, side, fair value, market
/// price, edge and action as text; the three numbers as decimal text.
pub fn signal_row(rec: &SignalRecord) -> (r: (i64, Vec<String>))
    ensures
        r.0 == rec.timestamp,
        r.1@.len() == 6,
        r.1@[0]@ == rec.market_id@,
        r.1@[1]@ == rec.side@,
        r.1@[2]@ == decimal_text_of(rec.fair_value.v()),
        r.1@[3]@ == decimal_text_of(rec.market_price.v()),
        r.1@[4]@ == decimal_text_of(rec.edge.v()),
        r.1@[5]@ == rec.action@,
{
    let mut cols: Vec<String> = Vec::new();
    cols.push(rec.market_id.clone());
    cols.push(rec.side.clone());
    cols.push(rec.fair_value.to_text());
    cols.push(rec.market_price.to_text());
    cols.push(rec.edge.to_text());
    cols.push(rec.action.clone());
    (rec.timestamp, cols)
}

/// One row of the tick file: time, symbol, price as decimal text, venue
/// time.
pub fn tick_row(rec: &PriceTickRecord) -> (r: (i64, String, String, i64))
    ensures
        r.0 == rec.timestamp,
        r.1 == rec.symbol,
        r.2@ == decimal_text_of(rec.price.v()),
        r.3 == rec.exchange_ts,
{
    (rec.timestamp, rec.symbol.clone(), rec.price.to_text(), rec.exchange_ts)
}

} // verus!
