//! Fixed-point elementary functions: exponential, natural logarithm,
//! hyperbolic tangent, powers with a fixed-point exponent, and integer
//! square root.  Each executable function is pinned by `ensures` to a spec
//! mirror of the same computation, so callers reason about exact values.

use vstd::prelude::*;
use vstd::arithmetic::power2::pow2;
use vstd::arithmetic::power2::lemma2_to64;
use crate::fixed::{Fx, SCALE, tdiv, fx_mul_v, clamp_i128, mul_i64_wide};

verus! {

/// e, in millionths.
pub const E_FX: i64 = 2_718_282;

/// ln 2, in millionths.
pub const LN2_FX: i64 = 693_147;

/// Arguments at or above this saturate the fixed-point exponential.
pub const EXP_SAT_ARG: i64 = 29_000_000;

/// Arguments at or below this flush the fixed-point exponential to zero.
pub const EXP_ZERO_ARG: i64 = -21_000_000;

/// Number of Taylor terms used on the fractional part of the exponential.
pub const EXP_TERMS: u64 = 12;

/// `k`-th Taylor term of the exponential at `f`, in millionths:
/// each term is the previous one times `f / k`, starting from one.
pub open spec fn exp_term_v(f: int, k: nat) -> int
    decreases k,
{
    if k == 0 {
        SCALE as int
    } else {
        tdiv(exp_term_v(f, (k - 1) as nat) * f, SCALE * k)
    }
}

/// Partial Taylor sum of the exponential at `f`, through term `k`.
pub open spec fn exp_sum_v(f: int, k: nat) -> int
    decreases k,
{
    if k == 0 {
        exp_term_v(f, 0)
    } else {
        exp_sum_v(f, (k - 1) as nat) + exp_term_v(f, k)
    }
}

/// `acc` multiplied `n` times by e, in saturating fixed point.
pub open spec fn exp_iter_v(acc: int, n: nat) -> int
    decreases n,
{
    if n == 0 {
        acc
    } else {
        fx_mul_v(exp_iter_v(acc, (n - 1) as nat), E_FX as int)
    }
}

/// The fixed-point exponential on nonnegative arguments.
pub open spec fn exp_pos_v(y: int) -> int {
    if y >= EXP_SAT_ARG {
        i64::MAX as int
    } else {
        exp_iter_v(exp_sum_v(y % (SCALE as int), EXP_TERMS as nat), (y / (SCALE as int)) as nat)
    }
}

/// The fixed-point exponential on all arguments.
pub open spec fn exp_v(x: int) -> int {
    if x >= 0 {
        exp_pos_v(x)
    } else if x <= EXP_ZERO_ARG {
        0
    } else {
        tdiv(1_000_000_000_000, exp_pos_v(-x))
    }
}

/// Taylor evaluation of the exponential on the fractional part.
fn exp_taylor(f: i64) -> (r: i64)
    requires
        0 <= f < SCALE,
    ensures
        r == exp_sum_v(f as int, EXP_TERMS as nat),
        SCALE <= r <= 13_000_000,
{
    let mut term: i64 = SCALE;
    let mut acc: i64 = SCALE;
    let mut k: u64 = 1;
    while k <= EXP_TERMS
        invariant
            1 <= k <= EXP_TERMS + 1,
            0 <= f < SCALE,
            term == exp_term_v(f as int, (k - 1) as nat),
            acc == exp_sum_v(f as int, (k - 1) as nat),
            0 <= term <= SCALE,
            SCALE <= acc <= SCALE + (k - 1) * SCALE,
        decreases EXP_TERMS + 1 - k,
    {
        let p: i128 = mul_i64_wide(term, f);
        let d: i128 = 1_000_000i128 * (k as i128);
        let t2: i128 = p / d;
        proof {
            assert(0 <= tdiv(term as int * f as int, SCALE * k as int) <= term as int)
                by (nonlinear_arith)
                requires
                    0 <= (term as int) <= SCALE,
                    0 <= (f as int) < SCALE,
                    1 <= (k as int),
            ;
        }
        term = t2 as i64;
        acc = acc + term;
        k = k + 1;
    }
    acc
}

/// Fixed-point exponential of a nonnegative argument, saturating high.
fn exp_pos(y: i64) -> (r: i64)
    requires
        y >= 0,
    ensures
        r == exp_pos_v(y as int),
        r >= SCALE,
{
    if y >= EXP_SAT_ARG {
        proof {
            assert(exp_pos_v(y as int) == i64::MAX as int);
        }
        i64::MAX
    } else {
        let n: i64 = y / SCALE;
        let f: i64 = y % SCALE;
        let mut acc: i64 = exp_taylor(f);
        let mut i: i64 = 0;
        while i < n
            invariant
                0 <= i <= n,
                0 <= n < 29,
                acc == exp_iter_v(exp_sum_v(f as int, EXP_TERMS as nat), i as nat),
                acc >= SCALE,
            decreases n - i,
        {
            let p: i128 = mul_i64_wide(acc, E_FX);
            let q: i128 = p / 1_000_000i128;
            let next: i64 = clamp_i128(q);
            proof {
                assert(fx_mul_v(acc as int, E_FX as int) >= SCALE) by (nonlinear_arith)
                    requires
                        (acc as int) >= SCALE,
                ;
            }
            acc = next;
            i = i + 1;
        }
        acc
    }
}

/// Fixed-point exponential, total over the machine range: saturates to the
/// largest representable value for large arguments and flushes to zero for
/// very negative ones.
pub fn exp_fx(x: Fx) -> (r: Fx)
    ensures
        r.m() == exp_v(x.m()),
        r.m() >= 0,
        x.m() >= 0 ==> r.m() >= SCALE,
        x.m() <= 0 ==> r.m() <= SCALE,
        x.m() == 0 ==> r.m() == SCALE,
{
    if x.v >= 0 {
        let r = exp_pos(x.v);
        proof {
            if x.m() == 0 {
                lemma_exp_zero();
            }
        }
        Fx { v: r }
    } else if x.v <= EXP_ZERO_ARG {
        Fx { v: 0 }
    } else {
        let p = exp_pos(-x.v);
        let r: i64 = 1_000_000_000_000i64 / p;
        proof {
            assert(0 <= 1_000_000_000_000int / (p as int) <= SCALE) by (nonlinear_arith)
                requires
                    (p as int) >= SCALE,
            ;
        }
        Fx { v: r }
    }
}

/// At zero the exponential is exactly one.
proof fn lemma_exp_zero()
    ensures
        exp_pos_v(0) == SCALE,
{
    assert(exp_sum_v(0, EXP_TERMS as nat) == SCALE) by {
        reveal_with_fuel(exp_sum_v, 13);
        reveal_with_fuel(exp_term_v, 13);
    }
    assert(exp_iter_v(SCALE as int, 0nat) == SCALE);
}


/// Doublings applied to a small positive value until it reaches one,
/// tracking the binary exponent.
pub open spec fn norm_up_v(m: int, k: int) -> (int, int)
    decreases 2 * SCALE - m
        when 1 <= m
{
    if m >= SCALE {
        (m, k)
    } else {
        norm_up_v(2 * m, k - 1)
    }
}

/// Halvings applied to a large value until it drops below two, tracking the
/// binary exponent.
pub open spec fn norm_down_v(m: int, k: int) -> (int, int)
    decreases m
        when m >= 1
{
    if m < 2 * SCALE {
        (m, k)
    } else {
        norm_down_v(tdiv(m, 2), k + 1)
    }
}

/// Normal form of a positive value: a mantissa in `[1, 2)` and a binary
/// exponent.
pub open spec fn norm_v(x: int) -> (int, int) {
    if x < SCALE {
        norm_up_v(x, 0)
    } else {
        norm_down_v(x, 0)
    }
}

/// Odd power of `z` used by the inverse-hyperbolic-tangent series.
pub open spec fn atanh_pow_v(z: int, j: nat) -> int
    decreases j,
{
    if j == 0 {
        z
    } else {
        fx_mul_v(fx_mul_v(atanh_pow_v(z, (j - 1) as nat), z), z)
    }
}

/// Partial sum of the inverse-hyperbolic-tangent series through term `j`.
pub open spec fn atanh_sum_v(z: int, j: nat) -> int
    decreases j,
{
    if j == 0 {
        z
    } else {
        atanh_sum_v(z, (j - 1) as nat) + tdiv(atanh_pow_v(z, j), 2 * (j as int) + 1)
    }
}

/// The fixed-point natural logarithm; zero on non-positive arguments.
pub open spec fn ln_v(x: int) -> int {
    if x <= 0 {
        0
    } else {
        let (m, k) = norm_v(x);
        let z = tdiv((m - SCALE) * SCALE, m + SCALE);
        k * LN2_FX + 2 * atanh_sum_v(z, 6)
    }
}

/// Normalize a positive value to mantissa and binary exponent.
fn normalize(x: i64) -> (r: (i64, i64))
    requires
        x >= 1,
    ensures
        (r.0 as int, r.1 as int) == norm_v(x as int),
        SCALE <= r.0 < 2 * SCALE,
        -21 <= r.1 <= 63,
{
    let mut m: i64 = x;
    let mut k: i64 = 0;
    proof {
        lemma2_to64();
    }
    if x < SCALE {
        while m < SCALE
            invariant
                1 <= x < SCALE,
                1 <= m < 2 * SCALE,
                -21 <= k <= 0,
                m >= pow2((-k) as nat),
                norm_up_v(m as int, k as int) == norm_up_v(x as int, 0),
            decreases 2 * SCALE - m,
        {
            proof {
                lemma2_to64();
                if k <= -20 {
                    assert(m >= pow2(20nat));
                    assert(false);
                }
                assert(pow2((-(k - 1)) as nat) == 2 * pow2((-k) as nat)) by {
                    vstd::arithmetic::power2::lemma_pow2_unfold((-(k - 1)) as nat);
                }
            }
            m = 2 * m;
            k = k - 1;
        }
        (m, k)
    } else {
        proof {
            assert(pow2(0nat) == 1);
            assert(pow2(0nat) * (x as int) == x as int) by (nonlinear_arith)
                requires
                    pow2(0nat) == 1,
            ;
        }
        while m >= 2 * SCALE
            invariant
                SCALE <= x,
                SCALE <= m,
                0 <= k <= 63,
                pow2(k as nat) * m <= x,
                norm_down_v(m as int, k as int) == norm_down_v(x as int, 0),
            decreases m,
        {
            proof {
                lemma2_to64();
                vstd::arithmetic::power2::lemma2_to64_rest();
                if k >= 63 {
                    assert(pow2(63nat) * m <= x as int);
                    assert(pow2(63nat) * m >= pow2(63nat)) by (nonlinear_arith)
                        requires
                            m >= 1,
                            pow2(63nat) >= 0,
                    ;
                    assert(false);
                }
                assert(pow2((k + 1) as nat) == 2 * pow2(k as nat)) by {
                    vstd::arithmetic::power2::lemma_pow2_unfold((k + 1) as nat);
                }
                assert(pow2((k + 1) as nat) * ((m as int) / 2) <= pow2(k as nat) * (m as int))
                    by (nonlinear_arith)
                    requires
                        pow2((k + 1) as nat) == 2 * pow2(k as nat),
                        m >= 1,
                ;
            }
            m = m / 2;
            k = k + 1;
        }
        (m, k)
    }
}

/// Fixed-point natural logarithm, total: zero on non-positive arguments.
pub fn ln_fx(x: Fx) -> (r: Fx)
    ensures
        r.m() == ln_v(x.m()),
{
    if x.v <= 0 {
        Fx { v: 0 }
    } else {
        let (m, k) = normalize(x.v);
        let num: i128 = ((m - SCALE) as i128) * 1_000_000i128;
        let den: i128 = (m + SCALE) as i128;
        let zq: i128 = num / den;
        proof {
            assert(0 <= tdiv((m - SCALE) * SCALE, (m + SCALE) as int) <= 340_000)
                by (nonlinear_arith)
                requires
                    SCALE <= (m as int) < 2 * SCALE,
            ;
        }
        let z: i64 = zq as i64;
        let mut p: i64 = z;
        let mut acc: i64 = z;
        let mut j: u64 = 1;
        while j <= 6
            invariant
                1 <= j <= 7,
                0 <= z <= 340_000,
                p == atanh_pow_v(z as int, (j - 1) as nat),
                acc == atanh_sum_v(z as int, (j - 1) as nat),
                0 <= p <= z,
                0 <= acc <= j * 340_000,
            decreases 7 - j,
        {
            let p1: i128 = mul_i64_wide(p, z);
            proof {
                assert(0 <= tdiv((p as int) * (z as int), SCALE as int) <= p as int)
                    by (nonlinear_arith)
                    requires
                        0 <= (p as int) <= 340_000,
                        0 <= (z as int) <= 340_000,
                ;
                assert(fx_mul_v(p as int, z as int) == tdiv((p as int) * (z as int), SCALE as int));
            }
            let p1s: i64 = (p1 / 1_000_000i128) as i64;
            let p2: i128 = mul_i64_wide(p1s, z);
            proof {
                assert(0 <= tdiv((p1s as int) * (z as int), SCALE as int) <= p1s as int)
                    by (nonlinear_arith)
                    requires
                        0 <= (p1s as int) <= 340_000,
                        0 <= (z as int) <= 340_000,
                ;
                assert(fx_mul_v(p1s as int, z as int) == tdiv((p1s as int) * (z as int), SCALE as int));
            }
            p = (p2 / 1_000_000i128) as i64;
            let dv: i64 = 2 * (j as i64) + 1;
            proof {
                assert(0 <= tdiv(p as int, dv as int) <= p as int) by (nonlinear_arith)
                    requires
                        0 <= (p as int),
                        (dv as int) >= 1,
                ;
            }
            acc = acc + p / dv;
            j = j + 1;
        }
        let r: i64 = k * LN2_FX + 2 * acc;
        Fx { v: r }
    }
}

/// Raise a positive fixed-point base to a fixed-point power, through the
/// exponential of the scaled logarithm; zero on non-positive bases.
pub open spec fn pow_v(b: int, e: int) -> int {
    if b <= 0 {
        0
    } else {
        exp_v(fx_mul_v(e, ln_v(b)))
    }
}

pub fn pow_fx(base: Fx, eta: Fx) -> (r: Fx)
    ensures
        r.m() == pow_v(base.m(), eta.m()),
        r.m() >= 0,
{
    if base.v <= 0 {
        Fx { v: 0 }
    } else {
        let l = ln_fx(base);
        let a = eta.mul(l);
        exp_fx(a)
    }
}

/// The fixed-point hyperbolic tangent on small nonnegative arguments.
pub open spec fn tanh_core_v(y: int) -> int {
    let e = exp_pos_v(2 * y);
    tdiv((e - SCALE) * SCALE, e + SCALE)
}

/// The fixed-point hyperbolic tangent, clamped to its asymptotes outside a
/// central interval.
pub open spec fn tanh_v(x: int) -> int {
    if x >= 14_000_000 {
        SCALE as int
    } else if x <= -14_000_000 {
        -SCALE
    } else if x >= 0 {
        tanh_core_v(x)
    } else {
        -tanh_core_v(-x)
    }
}

fn tanh_core(y: i64) -> (r: i64)
    requires
        0 <= y < 14_000_000,
    ensures
        r == tanh_core_v(y as int),
        0 <= r < SCALE,
{
    let e: i64 = exp_pos(2 * y);
    let num: i128 = ((e - SCALE) as i128) * 1_000_000i128;
    let den: i128 = (e as i128) + 1_000_000i128;
    let q: i128 = num / den;
    proof {
        assert(0 <= tdiv((e - SCALE) * SCALE, e + SCALE) < SCALE) by (nonlinear_arith)
            requires
                (e as int) >= SCALE,
        ;
    }
    q as i64
}

/// Fixed-point hyperbolic tangent, always within `[-1, 1]` and odd about
/// zero on the central interval.
pub fn tanh_fx(x: Fx) -> (r: Fx)
    ensures
        r.m() == tanh_v(x.m()),
        -SCALE <= r.m() <= SCALE,
        x.m() == 0 ==> r.m() == 0,
        x.m() >= 0 ==> r.m() >= 0,
        x.m() <= 0 ==> r.m() <= 0,
{
    if x.v >= 14_000_000 {
        Fx { v: SCALE }
    } else if x.v <= -14_000_000 {
        Fx { v: -SCALE }
    } else if x.v >= 0 {
        proof {
            if x.m() == 0 {
                lemma_exp_zero();
            }
        }
        Fx { v: tanh_core(x.v) }
    } else {
        let t = tanh_core(-x.v);
        Fx { v: -t }
    }
}

/// Integer square root of a wide unsigned value: the unique `r` with
/// `r * r <= x < (r + 1) * (r + 1)`.
pub fn isqrt_u128(x: u128) -> (r: u64)
    ensures
        (r as int) * (r as int) <= x as int,
        x < ((r as int) + 1) * ((r as int) + 1),
{
    let mut lo: u128 = 0;
    let mut hi: u128 = 0x1_0000_0000_0000_0000u128;
    proof {
        assert((0x1_0000_0000_0000_0000int) * (0x1_0000_0000_0000_0000int) > u128::MAX as int)
            by (nonlinear_arith);
    }
    while hi - lo > 1
        invariant
            0 <= lo < hi <= 0x1_0000_0000_0000_0000u128,
            (lo as int) * (lo as int) <= x as int,
            (x as int) < (hi as int) * (hi as int),
        decreases hi - lo,
    {
        let mid: u128 = lo + (hi - lo) / 2;
        proof {
            assert((mid as int) * (mid as int) <= (0xFFFF_FFFF_FFFF_FFFFu128 as int)
                * (0xFFFF_FFFF_FFFF_FFFFu128 as int) <= u128::MAX as int) by (nonlinear_arith)
                requires
                    0 <= (mid as int) <= 0xFFFF_FFFF_FFFF_FFFFu128 as int,
            ;
        }
        let sq: u128 = mid * mid;
        if sq <= x {
            lo = mid;
        } else {
            hi = mid;
        }
    }
    lo as u64
}

/// Unsigned saturating addition on wide intermediates.
pub fn sat_add_u128(a: u128, b: u128) -> (r: u128)
    ensures
        r as int == if a + b > u128::MAX { u128::MAX as int } else { a + b },
{
    if a > u128::MAX - b {
        u128::MAX
    } else {
        a + b
    }
}

} // verus!
