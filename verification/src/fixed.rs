//! Saturating fixed-point arithmetic over `i64`, with one millionth as the
//! unit.  All engine quantities (levels, rates, sub-indices, scores,
//! probabilities) are values of this type, so every formula in the crate is
//! exact integer arithmetic with fully specified rounding and saturation.

use vstd::prelude::*;

verus! {

/// Number of fixed-point units per 1.0.
pub const SCALE: i64 = 1_000_000;

/// A fixed-point number: `v` counts millionths.
#[derive(Clone, Copy, PartialEq, Eq, Structural, Debug)]
pub struct Fx {
    pub v: i64,
}

/// Truncating division (rounding toward zero), for a positive divisor.
/// This is the quotient the machine division operator computes.
pub open spec fn tdiv(a: int, b: int) -> int {
    if a >= 0 {
        a / b
    } else {
        -((-a) / b)
    }
}

/// Clamp a mathematical integer into the `i64` range.
pub open spec fn sat64(x: int) -> int {
    if x > i64::MAX {
        i64::MAX as int
    } else if x < i64::MIN {
        i64::MIN as int
    } else {
        x
    }
}

/// Value of a saturating fixed-point addition.
pub open spec fn fx_add_v(a: int, b: int) -> int {
    sat64(a + b)
}

/// Value of a saturating fixed-point subtraction.
pub open spec fn fx_sub_v(a: int, b: int) -> int {
    sat64(a - b)
}

/// Value of a saturating fixed-point multiplication.
pub open spec fn fx_mul_v(a: int, b: int) -> int {
    sat64(tdiv(a * b, SCALE as int))
}

/// Value of a saturating fixed-point division; division by zero yields zero.
pub open spec fn fx_div_v(a: int, b: int) -> int {
    if b == 0 {
        0
    } else if b > 0 {
        sat64(tdiv(a * SCALE, b))
    } else {
        sat64(tdiv(-(a * SCALE), -b))
    }
}

/// Clamp `x` into `[lo, hi]`.
pub open spec fn clamp_v(x: int, lo: int, hi: int) -> int {
    if x < lo {
        lo
    } else if x > hi {
        hi
    } else {
        x
    }
}

impl Fx {
    /// The value as a count of millionths.
    pub open spec fn m(self) -> int {
        self.v as int
    }

    pub fn from_micros(v: i64) -> (r: Fx)
        ensures
            r.m() == v,
    {
        Fx { v }
    }

    pub fn micros(self) -> (r: i64)
        ensures
            r == self.m(),
    {
        self.v
    }

    pub fn zero() -> (r: Fx)
        ensures
            r.m() == 0,
    {
        Fx { v: 0 }
    }

    /// The fixed-point value of a small integer.
    pub fn from_int(n: i32) -> (r: Fx)
        ensures
            r.m() == n * SCALE,
    {
        Fx { v: (n as i64) * SCALE }
    }

    pub fn add(self, o: Fx) -> (r: Fx)
        ensures
            r.m() == fx_add_v(self.m(), o.m()),
    {
        let s: i128 = self.v as i128 + o.v as i128;
        Fx { v: clamp_i128(s) }
    }

    pub fn sub(self, o: Fx) -> (r: Fx)
        ensures
            r.m() == fx_sub_v(self.m(), o.m()),
    {
        let s: i128 = self.v as i128 - o.v as i128;
        Fx { v: clamp_i128(s) }
    }

    pub fn neg(self) -> (r: Fx)
        ensures
            r.m() == sat64(-self.m()),
    {
        let s: i128 = -(self.v as i128);
        Fx { v: clamp_i128(s) }
    }

    pub fn mul(self, o: Fx) -> (r: Fx)
        ensures
            r.m() == fx_mul_v(self.m(), o.m()),
    {
        let p: i128 = mul_i64_wide(self.v, o.v);
        Fx { v: clamp_i128(p / (SCALE as i128)) }
    }

    pub fn div(self, o: Fx) -> (r: Fx)
        ensures
            r.m() == fx_div_v(self.m(), o.m()),
    {
        if o.v == 0 {
            Fx { v: 0 }
        } else {
            let p: i128 = (self.v as i128) * 1_000_000i128;
            if o.v < 0 {
                Fx { v: clamp_i128((-p) / (-(o.v as i128))) }
            } else {
                Fx { v: clamp_i128(p / (o.v as i128)) }
            }
        }
    }

    /// Clamp into `[lo, hi]`; meaningful when `lo <= hi`.
    pub fn clamp(self, lo: Fx, hi: Fx) -> (r: Fx)
        requires
            lo.m() <= hi.m(),
        ensures
            r.m() == clamp_v(self.m(), lo.m(), hi.m()),
    {
        if self.v < lo.v {
            lo
        } else if self.v > hi.v {
            hi
        } else {
            self
        }
    }

    pub fn abs(self) -> (r: Fx)
        ensures
            r.m() == sat64(if self.m() < 0 { -self.m() } else { self.m() }),
    {
        if self.v < 0 {
            self.neg()
        } else {
            self
        }
    }

    pub fn max(self, o: Fx) -> (r: Fx)
        ensures
            r.m() == if self.m() >= o.m() { self.m() } else { o.m() },
    {
        if self.v >= o.v {
            self
        } else {
            o
        }
    }

    pub fn lt(self, o: Fx) -> (r: bool)
        ensures
            r == (self.m() < o.m()),
    {
        self.v < o.v
    }

    pub fn le(self, o: Fx) -> (r: bool)
        ensures
            r == (self.m() <= o.m()),
    {
        self.v <= o.v
    }
}

/// Exact widening product of two machine words.
pub fn mul_i64_wide(a: i64, b: i64) -> (r: i128)
    ensures
        r == a * b,
{
    proof {
        assert(a * b <= 0x4000_0000_0000_0000_0000_0000_0000_0000int
            && a * b >= -0x4000_0000_0000_0000_0000_0000_0000_0000int) by (nonlinear_arith)
            requires
                i64::MIN <= a <= i64::MAX,
                i64::MIN <= b <= i64::MAX,
        ;
    }
    (a as i128) * (b as i128)
}

/// Saturate a wide intermediate back into a machine word.
pub fn clamp_i128(x: i128) -> (r: i64)
    ensures
        r == sat64(x as int),
{
    if x > i64::MAX as i128 {
        i64::MAX
    } else if x < i64::MIN as i128 {
        i64::MIN
    } else {
        x as i64
    }
}

} // verus!
