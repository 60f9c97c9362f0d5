//! Fixed-point numbers for pixel coordinates and normalized values.
//!
//! A `Scalar` counts millionths: the quantity it stands for is `raw / UNIT`.
//! Sums and differences are exact; quotients round towards negative infinity.
//! A result that does not fit is clipped to the nearest representable value.

use vstd::prelude::*;
use vstd::arithmetic::div_mod::lemma_fundamental_div_mod_converse;

verus! {

/// Raw steps in one whole: `Scalar { raw: UNIT }` is the number one.
pub const UNIT: i64 = 1_000_000;

/// The representable value nearest to `v`.
pub open spec fn clip(v: int) -> int {
    if v < i64::MIN {
        i64::MIN as int
    } else if v > i64::MAX {
        i64::MAX as int
    } else {
        v
    }
}

/// `v` limited to the interval from `lo` to `hi`.
pub open spec fn clamp_int(v: int, lo: int, hi: int) -> int {
    if v < lo {
        lo
    } else if v > hi {
        hi
    } else {
        v
    }
}

/// The greatest integer not above the exact quotient `a / b`, for `b != 0`.
pub open spec fn floor_div(a: int, b: int) -> int {
    if b > 0 {
        a / b
    } else {
        (-a) / (-b)
    }
}

/// The quotient `num / den` as a count of millionths, rounded down.
pub open spec fn unit_ratio(num: int, den: int) -> int {
    floor_div(num * UNIT, den)
}

/// `floor_div` is the one integer `q` with `q * b <= a < (q + 1) * b` when `b`
/// is positive, and with the inequalities reversed when `b` is negative.
pub proof fn lemma_floor_div_bounds(a: int, b: int)
    requires
        b != 0,
    ensures
        b > 0 ==> floor_div(a, b) * b <= a < (floor_div(a, b) + 1) * b,
        b < 0 ==> floor_div(a, b) * b >= a > (floor_div(a, b) + 1) * b,
{
    let q = floor_div(a, b);
    if b > 0 {
        vstd::arithmetic::div_mod::lemma_fundamental_div_mod(a, b);
        vstd::arithmetic::div_mod::lemma_mod_bound(a, b);
        assert(q * b == b * q) by (nonlinear_arith);
        assert((q + 1) * b == q * b + b) by (nonlinear_arith);
    } else {
        let m = -b;
        vstd::arithmetic::div_mod::lemma_fundamental_div_mod(-a, m);
        vstd::arithmetic::div_mod::lemma_mod_bound(-a, m);
        assert(q * b == -(m * q)) by (nonlinear_arith)
            requires
                m == -b,
        ;
        assert((q + 1) * b == q * b + b) by (nonlinear_arith);
    }
}

/// A quotient of a numerator between zero and the denominator lies between
/// zero and one, whichever sign the denominator has.
pub proof fn lemma_unit_ratio_within(num: int, den: int)
    requires
        den != 0,
        (0 <= num <= den) || (den <= num <= 0),
    ensures
        0 <= unit_ratio(num, den) <= UNIT,
{
    let q = unit_ratio(num, den);
    lemma_floor_div_bounds(num * UNIT, den);
    if den > 0 {
        assert(q >= 0) by (nonlinear_arith)
            requires
                (q + 1) * den > num * UNIT,
                num >= 0,
                den > 0,
        ;
        assert(q <= UNIT) by (nonlinear_arith)
            requires
                q * den <= num * UNIT,
                num <= den,
                den > 0,
        ;
    } else {
        assert(q >= 0) by (nonlinear_arith)
            requires
                (q + 1) * den < num * UNIT,
                num <= 0,
                den < 0,
        ;
        assert(q <= UNIT) by (nonlinear_arith)
            requires
                q * den >= num * UNIT,
                num >= den,
                den < 0,
        ;
    }
}

/// Clips a wide intermediate result to the representable range.
pub fn saturate(v: i128) -> (r: i64)
    ensures
        r as int == clip(v as int),
{
    if v < i64::MIN as i128 {
        i64::MIN
    } else if v > i64::MAX as i128 {
        i64::MAX
    } else {
        v as i64
    }
}

/// Converts a count of wholes into a count of millionths.
pub fn times_unit(v: i128) -> (r: i128)
    requires
        -0x1_0000_0000_0000_0000_0000 <= v <= 0x1_0000_0000_0000_0000_0000,
    ensures
        r as int == v * UNIT,
{
    v * 1_000_000
}

/// Divides rounding towards negative infinity.
pub fn div_floor(a: i128, b: i128) -> (q: i128)
    requires
        b != 0,
        a > i128::MIN,
        b > i128::MIN,
    ensures
        q as int == floor_div(a as int, b as int),
{
    let n: i128 = if b > 0 { a } else { -a };
    let d: i128 = if b > 0 { b } else { -b };
    if n >= 0 {
        n / d
    } else {
        let m: i128 = -n;
        let t: i128 = m / d;
        let r: i128 = m % d;
        if r == 0 {
            proof {
                assert(m as int == (d as int) * (t as int)) by {
                    vstd::arithmetic::div_mod::lemma_fundamental_div_mod(m as int, d as int);
                }
                assert(n as int == (-(t as int)) * (d as int) + 0) by (nonlinear_arith)
                    requires
                        m as int == (d as int) * (t as int),
                        n as int == -(m as int),
                ;
                lemma_fundamental_div_mod_converse(n as int, d as int, -(t as int), 0);
            }
            -t
        } else {
            proof {
                assert(m as int == (d as int) * (t as int) + (r as int)) by {
                    vstd::arithmetic::div_mod::lemma_fundamental_div_mod(m as int, d as int);
                }
                assert(n as int == (-(t as int) - 1) * (d as int) + ((d as int) - (r as int)))
                    by (nonlinear_arith)
                    requires
                        m as int == (d as int) * (t as int) + (r as int),
                        n as int == -(m as int),
                ;
                lemma_fundamental_div_mod_converse(
                    n as int,
                    d as int,
                    -(t as int) - 1,
                    (d as int) - (r as int),
                );
            }
            -t - 1
        }
    }
}

/// A fixed-point number with six decimal places.
#[derive(Clone, Copy, Debug, PartialEq, Eq, Structural)]
pub struct Scalar {
    /// The number in millionths.
    pub raw: i64,
}

impl View for Scalar {
    type V = int;

    /// The number in millionths, as a mathematical integer.
    open spec fn view(&self) -> int {
        self.raw as int
    }
}

impl Scalar {
    /// The number that is `raw` millionths.
    pub fn from_raw(raw: i64) -> (s: Scalar)
        ensures
            s@ == raw,
    {
        Scalar { raw }
    }

    /// The whole number `n`, clipped if it is out of range.
    pub fn from_int(n: i64) -> (s: Scalar)
        ensures
            s@ == clip(n * UNIT),
    {
        Scalar { raw: saturate(times_unit(n as i128)) }
    }

    /// The number in millionths.
    pub fn raw(self) -> (raw: i64)
        ensures
            raw == self@,
    {
        self.raw
    }

    /// Zero.
    pub fn zero() -> (s: Scalar)
        ensures
            s@ == 0,
    {
        Scalar { raw: 0 }
    }

    /// One.
    pub fn one() -> (s: Scalar)
        ensures
            s@ == UNIT,
    {
        Scalar { raw: UNIT }
    }

    /// The sum, clipped if it is out of range.
    pub fn saturating_add(self, rhs: Scalar) -> (s: Scalar)
        ensures
            s@ == clip(self@ + rhs@),
    {
        Scalar { raw: saturate(self.raw as i128 + rhs.raw as i128) }
    }

    /// The difference, clipped if it is out of range.
    pub fn saturating_sub(self, rhs: Scalar) -> (s: Scalar)
        ensures
            s@ == clip(self@ - rhs@),
    {
        Scalar { raw: saturate(self.raw as i128 - rhs.raw as i128) }
    }

    /// The number limited to the interval from `min` to `max`.
    pub fn clamp(self, min: Scalar, max: Scalar) -> (s: Scalar)
        requires
            min@ <= max@,
        ensures
            s@ == clamp_int(self@, min@, max@),
    {
        if self.raw < min.raw {
            min
        } else if self.raw > max.raw {
            max
        } else {
            self
        }
    }
}

} // verus!
