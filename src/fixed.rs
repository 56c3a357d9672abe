use sp_arithmetic::{FixedPointNumber, FixedU128, Permill};
use vstd::prelude::*;

verus! {

/// Scale of a [`Rate`]: the rate `r` stands for `r.inner / RATE_ACCURACY`.
pub const RATE_ACCURACY: u128 = 1_000_000_000_000_000_000;

/// Scale of a [`Ratio`]: the ratio `f` stands for `f.parts / RATIO_ACCURACY`.
pub const RATIO_ACCURACY: u32 = 1_000_000;

/// A non-negative fixed-point number with eighteen decimals (base asset per voucher).
#[derive(Clone, Copy, Debug, PartialEq, Eq, Structural)]
pub struct Rate {
    pub inner: u128,
}

/// A fraction in `[0, 1]` with six decimals (parts per million).
#[derive(Clone, Copy, Debug, PartialEq, Eq, Structural)]
pub struct Ratio {
    pub parts: u32,
}

/// `a * b / c` as sp-arithmetic's 128-bit helper `multiply_by_rational` computes it, for
/// `c >= 1`: rounded down when the product fits in 128 bits, when `c` divides one of the
/// factors, or when `c` fits in 32 bits; otherwise rounded to the nearest integer, an
/// exact half rounding down.
pub open spec fn mul_div(a: int, b: int, c: int) -> int {
    if a * b <= u128::MAX || a % c == 0 || b % c == 0 || c <= u32::MAX {
        a * b / c
    } else if a * b % c > c / 2 {
        a * b / c + 1
    } else {
        a * b / c
    }
}

/// What `multiply_by_rational(a, b, c)` hands back: `None` where the result leaves `u128`.
pub open spec fn checked_mul_div(a: int, b: int, c: int) -> Option<u128> {
    if mul_div(a, b, c) <= u128::MAX {
        Some(mul_div(a, b, c) as u128)
    } else {
        None
    }
}

/// `rate * n` on an integer, as `FixedU128::checked_mul_int` gives it.
pub open spec fn rate_mul_int(rate: Rate, n: u128) -> Option<u128> {
    checked_mul_div(rate.inner as int, n as int, RATE_ACCURACY as int)
}

/// `1 / rate`, as `FixedU128::reciprocal` gives it.
pub open spec fn rate_reciprocal(rate: Rate) -> Option<Rate> {
    if rate.inner == 0 {
        None
    } else {
        match checked_mul_div(RATE_ACCURACY as int, RATE_ACCURACY as int, rate.inner as int) {
            Some(v) => Some(Rate { inner: v }),
            None => None,
        }
    }
}

/// `n / d` as a rate, as `FixedU128::checked_from_rational` gives it.
pub open spec fn rate_from_rational(n: u128, d: u128) -> Option<Rate> {
    if d == 0 {
        None
    } else {
        match checked_mul_div(n as int, RATE_ACCURACY as int, d as int) {
            Some(v) => Some(Rate { inner: v }),
            None => None,
        }
    }
}

/// `mul_div` lies between the exact quotient rounded down and one above it.
pub proof fn lemma_mul_div_bounds(a: int, b: int, c: int)
    requires
        0 <= a,
        0 <= b,
        1 <= c,
    ensures
        a * b / c <= mul_div(a, b, c) <= a * b / c + 1,
        a * b <= u128::MAX ==> mul_div(a, b, c) == a * b / c,
{
}

/// Where `a * b` is at most `n * c`, `mul_div(a, b, c)` is at most `n`, whichever way it
/// rounds: it rounds up only past a non-zero remainder.
pub proof fn lemma_mul_div_at_most(a: int, b: int, c: int, n: int)
    requires
        0 <= a,
        0 <= b,
        1 <= c,
        0 <= n,
        a * b <= n * c,
    ensures
        mul_div(a, b, c) <= n,
{
    let p = a * b;
    let q = p / c;
    let r = p % c;
    assert(p == q * c + r && 0 <= r < c) by (nonlinear_arith)
        requires
            q == p / c,
            r == p % c,
            c >= 1,
    ;
    assert(q <= n) by (nonlinear_arith)
        requires
            p == q * c + r,
            0 <= r,
            p <= n * c,
            c >= 1,
    ;
    if r > 0 {
        assert(q < n) by (nonlinear_arith)
            requires
                p == q * c + r,
                r > 0,
                p <= n * c,
                c >= 1,
        ;
    }
}

impl Rate {
    /// The rate `inner / RATE_ACCURACY`.
    pub fn from_inner(inner: u128) -> (r: Rate)
        ensures
            r.inner == inner,
    {
        Rate { inner }
    }

    /// The rate `1`.
    pub fn one() -> (r: Rate)
        ensures
            r.inner == RATE_ACCURACY,
    {
        Rate { inner: RATE_ACCURACY }
    }

    /// The raw scaled value.
    pub fn into_inner(&self) -> (r: u128)
        ensures
            r == self.inner,
    {
        self.inner
    }

    /// Relies on `FixedU128::checked_mul_int`, which multiplies through
    /// `multiply_by_rational(inner, n, DIV)`.
    #[verifier::external_body]
    pub(crate) fn checked_mul_int(&self, n: u128) -> (r: Option<u128>)
        ensures
            r == rate_mul_int(*self, n),
    {
        FixedU128::from_inner(self.inner).checked_mul_int(n)
    }

    /// Relies on `FixedU128::reciprocal`, which divides one by the rate through
    /// `multiply_by_rational(DIV, DIV, inner)` and fails on zero.
    #[verifier::external_body]
    pub(crate) fn reciprocal(&self) -> (r: Option<Rate>)
        ensures
            r == rate_reciprocal(*self),
    {
        FixedU128::from_inner(self.inner).reciprocal().map(|x| Rate { inner: x.into_inner() })
    }

    /// Relies on `FixedU128::checked_from_rational`, which fails on a zero divisor and
    /// otherwise scales through `multiply_by_rational(n, DIV, d)`.
    #[verifier::external_body]
    pub(crate) fn checked_from_rational(n: u128, d: u128) -> (r: Option<Rate>)
        ensures
            r == rate_from_rational(n, d),
    {
        FixedU128::checked_from_rational(n, d).map(|x| Rate { inner: x.into_inner() })
    }
}

impl Ratio {
    pub open spec fn wf(&self) -> bool {
        self.parts <= RATIO_ACCURACY
    }

    /// The ratio `parts / RATIO_ACCURACY`, where `parts` above the scale counts as one.
    pub fn from_parts(parts: u32) -> (r: Ratio)
        ensures
            r.wf(),
            r.parts == if parts <= RATIO_ACCURACY { parts } else { RATIO_ACCURACY },
    {
        if parts <= RATIO_ACCURACY {
            Ratio { parts }
        } else {
            Ratio { parts: RATIO_ACCURACY }
        }
    }

    /// The ratio `percent / 100`, where a percent above 100 counts as one.
    pub fn from_percent(percent: u32) -> (r: Ratio)
        ensures
            r.wf(),
            r.parts == if percent <= 100 { percent * 10_000 } else { RATIO_ACCURACY as int },
    {
        if percent <= 100 {
            Ratio { parts: percent * 10_000 }
        } else {
            Ratio { parts: RATIO_ACCURACY }
        }
    }

    /// Parts per million.
    pub fn deconstruct(&self) -> (r: u32)
        ensures
            r == self.parts,
    {
        self.parts
    }

    /// Relies on `Permill::mul_floor`: `n * parts / 1_000_000`, rounded down.
    #[verifier::external_body]
    pub(crate) fn mul_floor(&self, n: u128) -> (r: u128)
        requires
            self.wf(),
        ensures
            r == n * self.parts / (RATIO_ACCURACY as int),
    {
        Permill::from_parts(self.parts).mul_floor(n)
    }
}

} // verus!
