//! Exact fixed-point decimal scalar for prices, sizes and money.
use vstd::prelude::*;

verus! {

/// Number of raw units in one whole unit (six decimal places).
pub const SCALE: i64 = 1_000_000;

/// Magnitude bound (in raw units) under which products and sums of two
/// values cannot overflow: one million whole units.
pub const BOUND: i64 = 1_000_000_000_000;

/// Truncating (toward zero) division of an integer by a positive divisor.
pub open spec fn tdiv(a: int, d: int) -> int
    recommends
        d > 0,
{
    if a >= 0 {
        a / d
    } else {
        -((-a) / d)
    }
}

/// Raw value of the exact product of two fixed-point values, truncated
/// toward zero to six decimal places.
pub open spec fn mul_raw(a: int, b: int) -> int {
    tdiv(a * b, SCALE as int)
}

/// Raw value of the quotient of two fixed-point values, truncated toward zero
/// to six decimal places.
pub open spec fn div_raw(a: int, b: int) -> int {
    if b > 0 {
        tdiv(a * SCALE, b)
    } else {
        tdiv(-a * SCALE, -b)
    }
}

/// A decimal number with six fractional digits, held as an integer count of
/// millionths.
#[derive(Clone, Copy, Debug, PartialEq, Eq, Structural, PartialOrd, Ord, Hash)]
pub struct Fixed {
    pub raw: i64,
}

impl Fixed {
    /// The value in raw units (millionths).
    pub open spec fn v(self) -> int {
        self.raw as int
    }

    /// The value lies within the bound under which arithmetic is safe.
    pub open spec fn bounded(self) -> bool {
        -BOUND <= self.raw <= BOUND
    }

    pub fn from_raw(raw: i64) -> (r: Fixed)
        ensures
            r.raw == raw,
    {
        Fixed { raw }
    }

    pub fn zero() -> (r: Fixed)
        ensures
            r.v() == 0,
    {
        Fixed { raw: 0 }
    }

    pub fn one() -> (r: Fixed)
        ensures
            r.v() == SCALE,
    {
        Fixed { raw: SCALE }
    }

    /// Whole number `n`.
    pub fn from_int(n: i64) -> (r: Fixed)
        requires
            -1_000_000_000_000 <= n <= 1_000_000_000_000,
        ensures
            r.v() == n * SCALE,
    {
        Fixed { raw: n * SCALE }
    }

    /// `mantissa · 10^(−scale)`, for at most six decimal places.
    pub fn new(mantissa: i64, scale: u32) -> (r: Fixed)
        requires
            scale <= 6,
            -1_000_000_000_000 <= mantissa <= 1_000_000_000_000,
        ensures
            r.v() == mantissa * pow10((6 - scale) as nat),
    {
        reveal_with_fuel(pow10, 7);
        let mult: i64 = if scale == 0 {
            1_000_000
        } else if scale == 1 {
            100_000
        } else if scale == 2 {
            10_000
        } else if scale == 3 {
            1_000
        } else if scale == 4 {
            100
        } else if scale == 5 {
            10
        } else {
            1
        };
        assert(mult == pow10((6 - scale) as nat));
        assert(-1_000_000_000_000_000_000 <= mantissa * mult <= 1_000_000_000_000_000_000) by (nonlinear_arith)
            requires
                -1_000_000_000_000 <= mantissa <= 1_000_000_000_000,
                1 <= mult <= 1_000_000,
        ;
        Fixed { raw: mantissa * mult }
    }

    pub fn add(self, o: Fixed) -> (r: Fixed)
        requires
            i64::MIN <= self.v() + o.v() <= i64::MAX,
        ensures
            r.v() == self.v() + o.v(),
    {
        Fixed { raw: self.raw + o.raw }
    }

    pub fn sub(self, o: Fixed) -> (r: Fixed)
        requires
            i64::MIN <= self.v() - o.v() <= i64::MAX,
        ensures
            r.v() == self.v() - o.v(),
    {
        Fixed { raw: self.raw - o.raw }
    }

    pub fn neg(self) -> (r: Fixed)
        requires
            self.raw > i64::MIN,
        ensures
            r.v() == -self.v(),
    {
        Fixed { raw: -self.raw }
    }

    pub fn abs(self) -> (r: Fixed)
        requires
            self.raw > i64::MIN,
        ensures
            r.v() == if self.v() >= 0 { self.v() } else { -self.v() },
    {
        if self.raw >= 0 {
            self
        } else {
            Fixed { raw: -self.raw }
        }
    }

    pub fn is_zero(self) -> (r: bool)
        ensures
            r == (self.v() == 0),
    {
        self.raw == 0
    }

    pub fn lt(self, o: Fixed) -> (r: bool)
        ensures
            r == (self.v() < o.v()),
    {
        self.raw < o.raw
    }

    pub fn le(self, o: Fixed) -> (r: bool)
        ensures
            r == (self.v() <= o.v()),
    {
        self.raw <= o.raw
    }

    pub fn min(self, o: Fixed) -> (r: Fixed)
        ensures
            r.v() == if self.v() <= o.v() { self.v() } else { o.v() },
    {
        if self.raw <= o.raw {
            self
        } else {
            o
        }
    }

    pub fn max(self, o: Fixed) -> (r: Fixed)
        ensures
            r.v() == if self.v() >= o.v() { self.v() } else { o.v() },
    {
        if self.raw >= o.raw {
            self
        } else {
            o
        }
    }

    /// Product, truncated toward zero to six decimal places.
    pub fn mul(self, o: Fixed) -> (r: Fixed)
        requires
            i64::MIN < mul_raw(self.v(), o.v()) <= i64::MAX,
        ensures
            r.v() == mul_raw(self.v(), o.v()),
    {
        let p: i128 = (self.raw as i128) * (o.raw as i128);
        let q: i128 = if p >= 0 {
            p / (SCALE as i128)
        } else {
            -((-p) / (SCALE as i128))
        };
        Fixed { raw: q as i64 }
    }

    /// Quotient, truncated toward zero to six decimal places.
    pub fn div(self, o: Fixed) -> (r: Fixed)
        requires
            o.v() != 0,
            i64::MIN < div_raw(self.v(), o.v()) <= i64::MAX,
        ensures
            r.v() == div_raw(self.v(), o.v()),
    {
        let n: i128 = (self.raw as i128) * (SCALE as i128);
        let (n2, d2): (i128, i128) = if o.raw > 0 {
            (n, o.raw as i128)
        } else {
            (-n, -(o.raw as i128))
        };
        let q: i128 = if n2 >= 0 {
            n2 / d2
        } else {
            -((-n2) / d2)
        };
        Fixed { raw: q as i64 }
    }
}

/// The canonical decimal text of a raw six-place value, as rust_decimal
/// writes it after normalising away trailing zeros.
pub uninterp spec fn decimal_text_of(raw: int) -> Seq<char>;

/// Relies on rust_decimal's `Decimal::new`, `normalize` and `to_string`:
/// the decimal text of `raw · 10^(−6)` without trailing zeros.
#[verifier::external_body]
fn decimal_text(raw: i64) -> (r: String)
    ensures
        r@ == decimal_text_of(raw as int),
{
    rust_decimal::Decimal::new(raw, 6).normalize().to_string()
}

impl Fixed {
    /// Canonical decimal text, e.g. `0.56` or `-12.5`.
    pub fn to_text(&self) -> (r: String)
        ensures
            r@ == decimal_text_of(self.v()),
    {
        decimal_text(self.raw)
    }
}

/// `10^n`.
pub open spec fn pow10(n: nat) -> int
    decreases n,
{
    if n == 0 {
        1
    } else {
        10 * pow10((n - 1) as nat)
    }
}

/// The product of two bounded values fits comfortably in raw range.
pub proof fn lemma_mul_bounded(a: Fixed, b: Fixed)
    requires
        a.bounded(),
        b.bounded(),
    ensures
        -1_000_000_000_000_000_000 <= mul_raw(a.v(), b.v()) <= 1_000_000_000_000_000_000,
{
    let x = a.v();
    let y = b.v();
    assert(-1_000_000_000_000_000_000_000_000 <= x * y <= 1_000_000_000_000_000_000_000_000) by (nonlinear_arith)
        requires
            -1_000_000_000_000 <= x <= 1_000_000_000_000,
            -1_000_000_000_000 <= y <= 1_000_000_000_000,
    ;
    let p = x * y;
    if p >= 0 {
        assert(p / 1_000_000 <= 1_000_000_000_000_000_000) by (nonlinear_arith)
            requires
                0 <= p <= 1_000_000_000_000_000_000_000_000,
        ;
    } else {
        assert((-p) / 1_000_000 <= 1_000_000_000_000_000_000) by (nonlinear_arith)
            requires
                0 < -p <= 1_000_000_000_000_000_000_000_000,
        ;
    }
}

/// A product of a value up to twice the bound and a bounded value still fits.
pub proof fn lemma_mul_wide(a: Fixed, b: Fixed)
    requires
        -2 * BOUND <= a.v() <= 2 * BOUND,
        b.bounded(),
    ensures
        -2_000_000_000_000_000_000 <= mul_raw(a.v(), b.v()) <= 2_000_000_000_000_000_000,
{
    let x = a.v();
    let y = b.v();
    assert(-2_000_000_000_000_000_000_000_000 <= x * y <= 2_000_000_000_000_000_000_000_000) by (nonlinear_arith)
        requires
            -2_000_000_000_000 <= x <= 2_000_000_000_000,
            -1_000_000_000_000 <= y <= 1_000_000_000_000,
    ;
    let p = x * y;
    if p >= 0 {
        assert(p / 1_000_000 <= 2_000_000_000_000_000_000) by (nonlinear_arith)
            requires
                0 <= p <= 2_000_000_000_000_000_000_000_000,
        ;
    } else {
        assert((-p) / 1_000_000 <= 2_000_000_000_000_000_000) by (nonlinear_arith)
            requires
                0 < -p <= 2_000_000_000_000_000_000_000_000,
        ;
    }
}

} // verus!
