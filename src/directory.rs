//! Market directory: which catalog events to fetch, how a catalog entry
//! becomes a market, and the set of current markets.
use vstd::prelude::*;
use vstd::string::StrSliceExecFns;
use core::time::Duration;
use crate::feed::{fixed_of_parts, decimal_of, parse_fixed};
use crate::fixed::Fixed;
use crate::market::Market;
use crate::ws::millis_of;

verus! {

/// Base address of the catalog API.
pub const GAMMA_API_URL: &'static str = "https://gamma-api.polymarket.com";

/// Catalog client configuration.
#[derive(Clone, Debug)]
pub struct GammaConfig {
    pub base_url: String,
    pub timeout: Duration,
    pub btc_search_term: String,
    /// Market length filter, e.g. `15` for 15-minute markets.
    pub duration_filter: Option<String>,
}

impl GammaConfig {
    /// The public catalog, ten seconds per request, bitcoin markets of 15
    /// minutes.
    pub fn default() -> (r: GammaConfig)
        ensures
            r.base_url@ == GAMMA_API_URL@,
            millis_of(r.timeout) == 10_000,
            r.btc_search_term@ == "bitcoin"@,
            r.duration_filter.is_some() && r.duration_filter.unwrap()@ == "15"@,
    {
        GammaConfig {
            base_url: String::from_str(GAMMA_API_URL),
            timeout: Duration::from_secs(10),
            btc_search_term: String::from_str("bitcoin"),
            duration_filter: Some(String::from_str("15")),
        }
    }
}

/// `n` occurs in `h` as a contiguous run.
pub open spec fn has_sub(h: Seq<char>, n: Seq<char>) -> bool {
    exists|i: int| 0 <= i && i + n.len() <= h.len() && #[trigger] h.subrange(i, i + n.len()) == n
}

/// `n` occurs in `h` at position `i`.
pub open spec fn occurs_at(h: Seq<char>, n: Seq<char>, i: int) -> bool {
    0 <= i && i + n.len() <= h.len() && h.subrange(i, i + n.len()) == n
}

/// Whether the characters of `n` match those of `h` from position `i`.
fn matches_at(h: &str, n: &str, i: usize, hl: usize, nl: usize) -> (r: bool)
    requires
        hl == h@.len(),
        nl == n@.len(),
        i + nl <= hl,
    ensures
        r == (h@.subrange(i as int, i + nl) == n@),
{
    let mut j: usize = 0;
    while j < nl
        invariant
            0 <= j <= nl,
            hl == h@.len(),
            nl == n@.len(),
            i + nl <= hl,
            forall|k: int| 0 <= k < j ==> h@[i + k] == n@[k],
        decreases nl - j,
    {
        if h.get_char(i + j) != n.get_char(j) {
            proof {
                assert(h@.subrange(i as int, i + nl)[j as int] != n@[j as int]);
            }
            return false;
        }
        j = j + 1;
    }
    proof {
        assert(h@.subrange(i as int, i + nl) =~= n@);
    }
    true
}

/// Whether `n` occurs in `h` as a contiguous run of characters.
pub fn str_contains(h: &str, n: &str) -> (r: bool)
    ensures
        r == has_sub(h@, n@),
{
    let hl = h.unicode_len();
    let nl = n.unicode_len();
    if nl > hl {
        proof {
            assert forall|i: int| !(0 <= i && i + n@.len() <= h@.len() && #[trigger] h@.subrange(i, i + n@.len()) == n@) by {}
        }
        return false;
    }
    if nl == 0 {
        proof {
            assert(h@.subrange(0int, 0int + n@.len()) =~= n@);
        }
        return true;
    }
    let mut i: usize = 0;
    while i <= hl - nl
        invariant
            hl == h@.len(),
            nl == n@.len(),
            1 <= nl <= hl,
            0 <= i <= hl - nl + 1,
            forall|k: int| 0 <= k < i ==> !(#[trigger] h@.subrange(k, k + nl) == n@),
        decreases hl - nl + 1 - i,
    {
        if matches_at(h, n, i, hl, nl) {
            return true;
        }
        i = i + 1;
    }
    proof {
        assert forall|k: int| !(0 <= k && k + n@.len() <= h@.len() && #[trigger] h@.subrange(k, k + n@.len()) == n@) by {
            if 0 <= k && k + n@.len() <= h@.len() {
                assert(k < i);
            }
        }
    }
    false
}

/// The question names bitcoin, an up/down outcome and (when a duration
/// filter is set) that many minutes.
pub open spec fn btc_question(q: Seq<char>, duration: Option<Seq<char>>) -> bool {
    &&& (has_sub(q, "btc"@) || has_sub(q, "bitcoin"@) || has_sub(q, "\u{20bf}"@))
    &&& (has_sub(q, "up"@) || has_sub(q, "down"@) || has_sub(q, "higher"@) || has_sub(q, "lower"@) || has_sub(q, "above"@)
        || has_sub(q, "below"@))
    &&& match duration {
        Some(d) => has_sub(q, d + " min"@) || has_sub(q, d + "-min"@) || has_sub(q, d + "min"@) || has_sub(q, d + " minute"@),
        None => true,
    }
}

/// Catalog client settings; the requests themselves are made by the
/// runtime.
#[derive(Clone, Debug)]
pub struct GammaClient {
    pub config: GammaConfig,
}

impl GammaClient {
    pub fn new() -> (r: GammaClient)
        ensures
            r.config.base_url@ == GAMMA_API_URL@,
    {
        GammaClient { config: GammaConfig::default() }
    }

    pub fn with_config(config: GammaConfig) -> (r: GammaClient)
        ensures
            r.config == config,
    {
        GammaClient { config }
    }

    /// A catalog market is a 15-minute bitcoin up/down market with token ids.
    pub fn is_btc_15min_market(&self, question: &str, has_token_ids: bool) -> (r: bool)
        ensures
            r == (btc_question(crate::feed::lower_of(question@), match self.config.duration_filter {
                Some(d) => Some(d@),
                None => None,
            }) && has_token_ids),
    {
        let q = crate::feed::to_lower(question);
        let qs = q.as_str();
        let is_btc = str_contains(qs, "btc") || str_contains(qs, "bitcoin") || str_contains(qs, "\u{20bf}");
        let is_up_down = str_contains(qs, "up") || str_contains(qs, "down") || str_contains(qs, "higher") || str_contains(qs, "lower")
            || str_contains(qs, "above") || str_contains(qs, "below");
        let is_15 = match &self.config.duration_filter {
            Some(d) => {
                let a = d.clone().concat(" min");
                let b = d.clone().concat("-min");
                let c = d.clone().concat("min");
                let e = d.clone().concat(" minute");
                str_contains(qs, a.as_str()) || str_contains(qs, b.as_str()) || str_contains(qs, c.as_str()) || str_contains(qs, e.as_str())
            },
            None => true,
        };
        is_btc && is_up_down && is_15 && has_token_ids
    }
}

/// Most new market fetches per refresh.
pub const MAX_FETCHES_PER_REFRESH: usize = 5;

/// A catalog event, reduced to what the selection reads.
#[derive(Clone, Debug)]
pub struct CatalogEvent {
    pub slug: String,
    pub active: bool,
    pub closed: bool,
}

/// Slugs of the active, unclosed events, in order, at most `max`.
pub open spec fn selected(s: Seq<CatalogEvent>, max: int) -> Seq<Seq<char>>
    decreases s.len(),
{
    if s.len() == 0 {
        Seq::empty()
    } else {
        let prev = selected(s.drop_last(), max);
        let e = s.last();
        if e.active && !e.closed && prev.len() < max {
            prev.push(e.slug@)
        } else {
            prev
        }
    }
}

/// The events whose markets a refresh fetches: active and not closed, at
/// most five.
pub fn select_events(events: &Vec<CatalogEvent>) -> (r: Vec<String>)
    ensures
        r@.len() <= MAX_FETCHES_PER_REFRESH,
        r@.map_values(|x: String| x@) == selected(events@, MAX_FETCHES_PER_REFRESH as int),
{
    let mut out: Vec<String> = Vec::new();
    let mut i: usize = 0;
    while i < events.len()
        invariant
            0 <= i <= events@.len(),
            out@.len() <= MAX_FETCHES_PER_REFRESH,
            out@.map_values(|x: String| x@) == selected(events@.subrange(0, i as int), MAX_FETCHES_PER_REFRESH as int),
        decreases events@.len() - i,
    {
        proof {
            assert(events@.subrange(0, i + 1).drop_last() =~= events@.subrange(0, i as int));
        }
        let e = &events[i];
        if e.active && !e.closed && out.len() < MAX_FETCHES_PER_REFRESH {
            let ghost before = out@;
            out.push(e.slug.clone());
            proof {
                assert(out@.map_values(|x: String| x@) =~= before.map_values(|x: String| x@).push(e.slug@));
            }
        }
        i = i + 1;
    }
    proof {
        assert(events@.subrange(0, i as int) =~= events@);
    }
    out
}

/// What `serde_json::from_str::<Vec<String>>` makes of a text: the strings
/// of a JSON array of strings, or nothing.
pub uninterp spec fn json_strings_of(s: Seq<char>) -> Option<Seq<Seq<char>>>;

/// Relies on serde_json's `from_str` for a `Vec<String>`: decodes a JSON
/// array of strings.
#[verifier::external_body]
fn json_strings(s: &str) -> (r: Option<Vec<String>>)
    ensures
        match r {
            Some(v) => json_strings_of(s@) == Some(v@.map_values(|x: String| x@)),
            None => json_strings_of(s@).is_none(),
        },
{
    serde_json::from_str::<Vec<String>>(s).ok()
}

/// Why a catalog entry could not become a market.
#[derive(Clone, Copy, Debug, PartialEq, Eq, Structural)]
pub enum DirectoryError {
    /// No token id list.
    MissingTokenIds,
    /// The token id list is not a JSON array of strings.
    MalformedTokenIds,
    /// Fewer than two token ids.
    TooFewTokenIds,
}

/// The YES and NO token ids of a JSON array-in-a-string: its first two
/// elements.
pub fn parse_token_ids(s: &str) -> (r: Result<(String, String), DirectoryError>)
    ensures
        match json_strings_of(s@) {
            None => r == Err::<(String, String), DirectoryError>(DirectoryError::MalformedTokenIds),
            Some(v) => if v.len() < 2 {
                r == Err::<(String, String), DirectoryError>(DirectoryError::TooFewTokenIds)
            } else {
                r.is_ok() && r.unwrap().0@ == v[0] && r.unwrap().1@ == v[1]
            },
        },
{
    match json_strings(s) {
        None => Err(DirectoryError::MalformedTokenIds),
        Some(v) => {
            if v.len() < 2 {
                Err(DirectoryError::TooFewTokenIds)
            } else {
                Ok((v[0].clone(), v[1].clone()))
            }
        },
    }
}

/// What chrono's RFC 3339 parser makes of a text, as microseconds since the
/// epoch.
pub uninterp spec fn rfc3339_micros_of(s: Seq<char>) -> Option<i64>;

/// Relies on chrono's `DateTime::parse_from_rfc3339` and
/// `timestamp_micros`: the instant a date-time text denotes.
#[verifier::external_body]
fn parse_rfc3339(s: &str) -> (r: Option<i64>)
    ensures
        r == rfc3339_micros_of(s@),
{
    chrono::DateTime::parse_from_rfc3339(s).ok().map(|d| d.timestamp_micros())
}

/// Length of a market window, microseconds.
pub const WINDOW_MICROS: i64 = 900_000_000;

/// A catalog market entry, reduced to what a market is made from.
#[derive(Clone, Debug)]
pub struct CatalogMarket {
    pub condition_id: String,
    pub clob_token_ids: Option<String>,
    pub outcome_prices: Option<String>,
    pub start_date: Option<String>,
    pub end_date: Option<String>,
}

/// The opening price an outcome-price list gives: its first element, or
/// one half when there is none or it does not parse.
pub open spec fn open_price_of(prices: Option<String>) -> int {
    match prices {
        Some(p) => match json_strings_of(p@) {
            Some(v) => if v.len() > 0 {
                match decimal_of(v[0]) {
                    Some((m, e)) => match fixed_of_parts(m, e) {
                        Some(raw) => raw,
                        None => 500_000,
                    },
                    None => 500_000,
                }
            } else {
                500_000
            },
            None => 500_000,
        },
        None => 500_000,
    }
}

/// Open instant: the start date, or `now` when absent or unparseable.
pub open spec fn open_time_of(start: Option<String>, now: i64) -> i64 {
    match start {
        Some(s) => match rfc3339_micros_of(s@) {
            Some(t) => t,
            None => now,
        },
        None => now,
    }
}

/// Fifteen minutes after `open` (the latest instant if that overflows).
pub open spec fn window_end(open: i64) -> i64 {
    if open <= i64::MAX - WINDOW_MICROS {
        (open + WINDOW_MICROS) as i64
    } else {
        i64::MAX
    }
}

/// Close instant: the end date, or fifteen minutes after the open.
pub open spec fn close_time_of(end: Option<String>, open: i64) -> i64 {
    match end {
        Some(s) => match rfc3339_micros_of(s@) {
            Some(t) => t,
            None => window_end(open),
        },
        None => window_end(open),
    }
}

fn first_price(prices: &Option<String>) -> (r: Fixed)
    ensures
        r.v() == open_price_of(*prices),
{
    match prices {
        Some(p) => match json_strings(p.as_str()) {
            Some(v) => {
                if v.len() > 0 {
                    match parse_fixed(v[0].as_str()) {
                        Some(x) => x,
                        None => Fixed::from_raw(500_000),
                    }
                } else {
                    Fixed::from_raw(500_000)
                }
            },
            None => Fixed::from_raw(500_000),
        },
        None => Fixed::from_raw(500_000),
    }
}

fn date_or(d: &Option<String>, fallback: i64) -> (r: i64)
    ensures
        r == match *d {
            Some(s) => match rfc3339_micros_of(s@) {
                Some(t) => t,
                None => fallback,
            },
            None => fallback,
        },
{
    match d {
        Some(s) => match parse_rfc3339(s.as_str()) {
            Some(t) => t,
            None => fallback,
        },
        None => fallback,
    }
}

/// A market from a catalog entry: token ids from the id list, open price
/// from the outcome prices (one half by default), open and close instants
/// from the dates (now, and fifteen minutes later, by default).
pub fn convert_to_market(gamma: &CatalogMarket, now: i64) -> (r: Result<Market, DirectoryError>)
    ensures
        match gamma.clob_token_ids {
            None => r == Err::<Market, DirectoryError>(DirectoryError::MissingTokenIds),
            Some(ids) => match json_strings_of(ids@) {
                None => r == Err::<Market, DirectoryError>(DirectoryError::MalformedTokenIds),
                Some(v) => if v.len() < 2 {
                    r == Err::<Market, DirectoryError>(DirectoryError::TooFewTokenIds)
                } else {
                    r.is_ok() && {
                        let m = r.unwrap();
                        let open = open_time_of(gamma.start_date, now);
                        &&& m.condition_id@ == gamma.condition_id@
                        &&& m.yes_token_id@ == v[0]
                        &&& m.no_token_id@ == v[1]
                        &&& m.open_price.v() == open_price_of(gamma.outcome_prices)
                        &&& m.open_time == open
                        &&& m.close_time == close_time_of(gamma.end_date, open)
                    }
                },
            },
        },
{
    let ids = match &gamma.clob_token_ids {
        Some(ids) => ids,
        None => return Err(DirectoryError::MissingTokenIds),
    };
    let (yes_token_id, no_token_id) = match parse_token_ids(ids.as_str()) {
        Ok(p) => p,
        Err(e) => return Err(e),
    };
    let open_price = first_price(&gamma.outcome_prices);
    let open_time = date_or(&gamma.start_date, now);
    let end = if open_time <= i64::MAX - WINDOW_MICROS {
        open_time + WINDOW_MICROS
    } else {
        i64::MAX
    };
    let close_time = date_or(&gamma.end_date, end);
    Ok(Market { condition_id: gamma.condition_id.clone(), yes_token_id, no_token_id, open_price, open_time, close_time })
}

/// The current markets, one per condition id.
pub struct MarketDirectory {
    pub markets: Vec<Market>,
}

/// The markets still open at `now`.
pub open spec fn unexpired(s: Seq<Market>, now: i64) -> Seq<Market> {
    s.filter(|m: Market| m.close_time >= now)
}

impl MarketDirectory {
    pub fn new() -> (r: MarketDirectory)
        ensures
            r.markets@.len() == 0,
    {
        MarketDirectory { markets: Vec::new() }
    }

    /// Drop markets that closed before `now`, keeping the others in order.
    pub fn remove_expired(&mut self, now: i64)
        ensures
            final(self).markets@ == unexpired(old(self).markets@, now),
    {
        let mut kept: Vec<Market> = Vec::new();
        let mut i: usize = 0;
        while i < self.markets.len()
            invariant
                0 <= i <= self.markets@.len(),
                self.markets@ == old(self).markets@,
                kept@ == unexpired(self.markets@.subrange(0, i as int), now),
            decreases self.markets@.len() - i,
        {
            proof {
                reveal(Seq::filter);
                assert(self.markets@.subrange(0, i + 1).drop_last() =~= self.markets@.subrange(0, i as int));
            }
            if self.markets[i].close_time >= now {
                let m = self.markets[i].duplicate();
                kept.push(m);
            }
            i = i + 1;
        }
        proof {
            assert(self.markets@.subrange(0, i as int) =~= self.markets@);
        }
        self.markets = kept;
    }

    /// Add a market unless its condition id is already present; reports
    /// whether it was added (so its tokens need subscribing).
    pub fn insert(&mut self, market: Market) -> (r: bool)
        ensures
            r == forall|i: int| 0 <= i < old(self).markets@.len() ==> (#[trigger] old(self).markets@[i]).condition_id@ != market.condition_id@,
            r ==> final(self).markets@ == old(self).markets@.push(market),
            !r ==> final(self).markets@ == old(self).markets@,
    {
        let mut i: usize = 0;
        while i < self.markets.len()
            invariant
                0 <= i <= self.markets@.len(),
                forall|k: int| 0 <= k < i ==> (#[trigger] self.markets@[k]).condition_id@ != market.condition_id@,
            decreases self.markets@.len() - i,
        {
            if self.markets[i].condition_id == market.condition_id {
                return false;
            }
            i = i + 1;
        }
        self.markets.push(market);
        true
    }

    /// Markets active at `now`.
    pub fn active_at(&self, now: i64) -> (r: Vec<Market>)
        ensures
            forall|i: int| 0 <= i < r@.len() ==> (#[trigger] r@[i]).active_at(now as int),
            forall|i: int|
                0 <= i < self.markets@.len() && (#[trigger] self.markets@[i]).active_at(now as int) ==> exists|j: int|
                    0 <= j < r@.len() && r@[j] == self.markets@[i],
    {
        let mut out: Vec<Market> = Vec::new();
        let mut i: usize = 0;
        while i < self.markets.len()
            invariant
                0 <= i <= self.markets@.len(),
                forall|a: int| 0 <= a < out@.len() ==> (#[trigger] out@[a]).active_at(now as int),
                forall|b: int|
                    0 <= b < i && (#[trigger] self.markets@[b]).active_at(now as int) ==> exists|a: int|
                        0 <= a < out@.len() && out@[a] == self.markets@[b],
            decreases self.markets@.len() - i,
        {
            if self.markets[i].is_active_at(now) {
                let ghost before = out@;
                out.push(self.markets[i].duplicate());
                proof {
                    assert forall|b: int| 0 <= b < i + 1 && (#[trigger] self.markets@[b]).active_at(now as int) implies exists|a: int| 0 <= a < out@.len() && out@[a] == self.markets@[b] by {
                        if b < i {
                            let a = choose|a: int| 0 <= a < before.len() && before[a] == self.markets@[b];
                            assert(out@[a] == before[a]);
                        } else {
                            assert(out@[out@.len() - 1] == self.markets@[b]);
                        }
                    }
                }
            }
            i = i + 1;
        }
        out
    }
}

} // verus!
