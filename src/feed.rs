//! Spot trade feed: decimal text, trade records and the stream address.
use vstd::prelude::*;
use crate::fixed::{pow10, tdiv, Fixed, BOUND};

verus! {

/// What `Decimal::from_str` makes of a text: its mantissa and scale, or
/// nothing when the text is not a decimal number.
pub uninterp spec fn decimal_of(s: Seq<char>) -> Option<(int, int)>;

/// Relies on rust_decimal's `Decimal::from_str`, `mantissa` and `scale`: a
/// decimal's mantissa is below 2^96 in magnitude and its scale at most 28.
#[verifier::external_body]
fn decimal_parts(s: &str) -> (r: Option<(i128, u32)>)
    ensures
        match r {
            Some((m, e)) => decimal_of(s@) == Some((m as int, e as int)) && e <= 28
                && -0x1_0000_0000_0000_0000_0000_0000 < m < 0x1_0000_0000_0000_0000_0000_0000,
            None => decimal_of(s@).is_none(),
        },
{
    match <rust_decimal::Decimal as std::str::FromStr>::from_str(s) {
        Ok(d) => Some((d.mantissa(), d.scale())),
        Err(_) => None,
    }
}

/// Raw six-place value of `m · 10^(−e)`, truncated toward zero, when it is
/// within the bound.
pub open spec fn fixed_of_parts(m: int, e: int) -> Option<int> {
    let raw = if e <= 6 {
        m * pow10((6 - e) as nat)
    } else {
        tdiv(m, pow10((e - 6) as nat))
    };
    if -BOUND <= raw <= BOUND {
        Some(raw)
    } else {
        None
    }
}

proof fn lemma_pow10_pos(n: nat)
    ensures
        pow10(n) >= 1,
    decreases n,
{
    if n > 0 {
        lemma_pow10_pos((n - 1) as nat);
    }
}

/// The fixed-point value of mantissa `m` at scale `e`, truncated toward zero
/// to six places; `None` beyond the bound.
pub fn fixed_from_parts(m: i128, e: u32) -> (r: Option<Fixed>)
    requires
        e <= 28,
        -0x1_0000_0000_0000_0000_0000_0000 < m < 0x1_0000_0000_0000_0000_0000_0000,
    ensures
        match fixed_of_parts(m as int, e as int) {
            Some(raw) => r == Some(Fixed { raw: raw as i64 }),
            None => r.is_none(),
        },
{
    if e <= 6 {
        let k: u32 = 6 - e;
        let mut p: i128 = 1;
        let mut j: u32 = 0;
        while j < k
            invariant
                j <= k <= 6,
                p == pow10(j as nat),
                1 <= p <= 1_000_000,
            decreases k - j,
        {
            proof {
                reveal_with_fuel(pow10, 2);
                assert(p * 10 <= 10_000_000);
            }
            p = p * 10;
            j = j + 1;
            proof {
                assert(pow10(j as nat) == 10 * pow10((j - 1) as nat));
                assert(j <= 6 ==> p <= 1_000_000) by {
                    lemma_pow_le(j as nat);
                }
            }
        }
        if m > (BOUND as i128) || m < -(BOUND as i128) {
            proof {
                let mm = m as int;
                assert(mm * p >= mm || mm * p <= mm) by (nonlinear_arith) requires p >= 1;
                if mm > 0 {
                    assert(mm * p >= mm) by (nonlinear_arith) requires p >= 1, mm > 0;
                } else {
                    assert(mm * p <= mm) by (nonlinear_arith) requires p >= 1, mm < 0;
                }
            }
            return None;
        }
        proof {
            assert(-1_000_000_000_000 * 1_000_000 <= (m as int) * p <= 1_000_000_000_000 * 1_000_000) by (nonlinear_arith)
                requires -1_000_000_000_000 <= m as int <= 1_000_000_000_000, 1 <= p <= 1_000_000;
        }
        let raw: i128 = m * p;
        if raw > (BOUND as i128) || raw < -(BOUND as i128) {
            None
        } else {
            Some(Fixed { raw: raw as i64 })
        }
    } else {
        let k: u32 = e - 6;
        let mut p: i128 = 1;
        let mut j: u32 = 0;
        while j < k
            invariant
                j <= k <= 22,
                p == pow10(j as nat),
                1 <= p <= pow10(j as nat),
                p <= 10_000_000_000_000_000_000_000,
            decreases k - j,
        {
            proof {
                lemma_pow_le22(j as nat);
                lemma_pow_le22((j + 1) as nat);
                reveal_with_fuel(pow10, 2);
            }
            p = p * 10;
            j = j + 1;
        }
        proof {
            lemma_pow10_pos(k as nat);
        }
        let q: i128 = if m >= 0 {
            m / p
        } else {
            -((-m) / p)
        };
        proof {
            let mm = m as int;
            if mm >= 0 {
                assert(mm / (p as int) <= mm) by (nonlinear_arith) requires mm >= 0, p >= 1;
            } else {
                assert((-mm) / (p as int) <= -mm) by (nonlinear_arith) requires mm < 0, p >= 1;
            }
        }
        if q > (BOUND as i128) || q < -(BOUND as i128) {
            None
        } else {
            Some(Fixed { raw: q as i64 })
        }
    }
}

proof fn lemma_pow_le(j: nat)
    requires
        j <= 6,
    ensures
        pow10(j) <= 1_000_000,
{
    reveal_with_fuel(pow10, 7);
}

proof fn lemma_pow_le22(j: nat)
    requires
        j <= 22,
    ensures
        pow10(j) <= 10_000_000_000_000_000_000_000,
    decreases 22 - j,
{
    if j == 22 {
        reveal_with_fuel(pow10, 23);
    } else {
        lemma_pow_le22(j + 1);
        lemma_pow10_pos(j);
        assert(pow10(j + 1) == 10 * pow10(j));
    }
}

/// The decimal text `s` as a six-place fixed-point value (extra places
/// truncated toward zero), or `None` when it is not a decimal or is out of
/// range.
pub fn parse_fixed(s: &str) -> (r: Option<Fixed>)
    ensures
        match decimal_of(s@) {
            Some((m, e)) => match fixed_of_parts(m, e) {
                Some(raw) => r == Some(Fixed { raw: raw as i64 }),
                None => r.is_none(),
            },
            None => r.is_none(),
        },
{
    match decimal_parts(s) {
        Some((m, e)) => fixed_from_parts(m, e),
        None => None,
    }
}

/// What `str::to_lowercase` makes of a text.
pub uninterp spec fn lower_of(s: Seq<char>) -> Seq<char>;

/// Relies on `str::to_lowercase`: the result depends on the characters
/// alone, and the empty text stays empty.
#[verifier::external_body]
pub(crate) fn to_lower(s: &str) -> (r: String)
    ensures
        r@ == lower_of(s@),
        s@.len() == 0 ==> r@.len() == 0,
{
    s.to_lowercase()
}

/// One trade observed on the spot venue.
#[derive(Clone, Debug)]
pub struct PriceTick {
    pub symbol: String,
    pub price: Fixed,
    /// Local receipt instant, microseconds since the epoch.
    pub timestamp: i64,
    /// Venue trade instant, microseconds since the epoch.
    pub exchange_ts: i64,
}

/// Largest magnitude of a venue millisecond time that maps to an instant.
pub const MAX_MILLIS: i64 = 4_000_000_000_000_000;

/// Trade stream of one symbol on the spot venue.
#[derive(Clone, Debug)]
pub struct BinanceFeed {
    pub symbol: String,
}

impl BinanceFeed {
    /// Feed for `symbol`, kept in lower case.
    pub fn new(symbol: &str) -> (r: BinanceFeed)
        ensures
            r.symbol@ == lower_of(symbol@),
    {
        BinanceFeed { symbol: to_lower(symbol) }
    }

    pub fn symbol(&self) -> (r: &str)
        ensures
            r@ == self.symbol@,
    {
        self.symbol.as_str()
    }

    /// Address of the symbol's trade stream.
    pub fn build_ws_url(&self) -> (r: String)
        ensures
            r@ == "wss://stream.binance.com:9443/ws/"@ + self.symbol@ + "@trade"@,
    {
        let mut url = String::from_str("wss://stream.binance.com:9443/ws/");
        url.append(self.symbol.as_str());
        url.append("@trade");
        url
    }

    /// A tick from a decoded trade record: only `trade` events with a
    /// decimal price and a representable trade time count.
    pub fn parse_trade(event_type: &str, symbol: String, price: &str, trade_time_ms: i64, now: i64) -> (r: Option<PriceTick>)
        ensures
            r.is_some() == (event_type@ == "trade"@ && -MAX_MILLIS <= trade_time_ms <= MAX_MILLIS && match decimal_of(price@) {
                Some((m, e)) => fixed_of_parts(m, e).is_some(),
                None => false,
            }),
            r.is_some() ==> {
                let t = r.unwrap();
                &&& t.symbol == symbol
                &&& t.price.v() == fixed_of_parts(decimal_of(price@).unwrap().0, decimal_of(price@).unwrap().1).unwrap()
                &&& t.timestamp == now
                &&& t.exchange_ts == trade_time_ms * 1000
            },
    {
        if !crate::position::str_eq(event_type, "trade") {
            return None;
        }
        if trade_time_ms < -MAX_MILLIS || trade_time_ms > MAX_MILLIS {
            return None;
        }
        match parse_fixed(price) {
            Some(p) => Some(PriceTick { symbol, price: p, timestamp: now, exchange_ts: trade_time_ms * 1000 }),
            None => None,
        }
    }
}

} // verus!
