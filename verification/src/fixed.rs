//! Fixed-point scalar arithmetic.
//!
//! Every scalar quantity of the renderer (coordinates, radii, colors,
//! reflectivities, intensities) is an `i64` counted in units of `1/SCALE`,
//! so `SCALE` itself denotes the real number one.  All operations saturate
//! at `±LIM` instead of overflowing, which keeps them total: no input can
//! make them panic or wrap.

use vstd::prelude::*;

verus! {

use vstd::arithmetic::div_mod::lemma_div_multiples_vanish;
use vstd::arithmetic::mul::lemma_mul_upper_bound;
use vstd::arithmetic::mul::lemma_mul_inequality;

/// The fixed-point unit: the integer `SCALE` stands for the real number one,
/// so values carry four decimal digits of fraction.
pub const SCALE: i64 = 10_000;

/// Saturation bound of every fixed-point operation (10^11 in real terms).
/// All renderer arithmetic stays far below it on well-formed scenes.
pub const LIM: i64 = 1_000_000_000_000_000;

/// Truncating division (the quotient is rounded toward zero), defined as 0
/// for a non-positive divisor so that it is total.
pub open spec fn tdiv(a: int, b: int) -> int {
    if b <= 0 {
        0
    } else if a >= 0 {
        a / b
    } else {
        -((-a) / b)
    }
}

/// Clamp a mathematical integer into the representable band `[-LIM, LIM]`.
pub open spec fn sat(v: int) -> int {
    if v > LIM as int {
        LIM as int
    } else if v < -(LIM as int) {
        -(LIM as int)
    } else {
        v
    }
}

/// Fixed-point product: `(a * b) / SCALE`, truncated and saturated.
pub open spec fn mul_fx_s(a: int, b: int) -> int {
    sat(tdiv(a * b, SCALE as int))
}

/// Fixed-point quotient: `(a * SCALE) / b`, truncated and saturated.
pub open spec fn div_fx_s(a: int, b: int) -> int {
    sat(tdiv(a * SCALE, b))
}

/// Saturating sum.
pub open spec fn add_fx_s(a: int, b: int) -> int {
    sat(a + b)
}

/// Saturating difference.
pub open spec fn sub_fx_s(a: int, b: int) -> int {
    sat(a - b)
}

/// Saturating negation.
pub open spec fn neg_fx_s(a: int) -> int {
    sat(-a)
}

/// Integer square root by unit steps: the largest `r` with `r * r <= n`.
pub open spec fn isqrt_s(n: nat) -> nat
    decreases n,
{
    if n == 0 {
        0
    } else {
        let r = isqrt_s((n - 1) as nat);
        if (r + 1) * (r + 1) <= n {
            r + 1
        } else {
            r
        }
    }
}

/// Fixed-point square root: `isqrt(x * SCALE)` keeps the result on the same
/// scale as the argument; non-positive arguments map to 0.
pub open spec fn sqrt_fx_s(x: int) -> int {
    if x <= 0 {
        0
    } else {
        isqrt_s((sat(x) * SCALE) as nat) as int
    }
}

/// `isqrt_s` really brackets its argument between two consecutive squares.
pub proof fn lemma_isqrt_brackets(n: nat)
    ensures
        (isqrt_s(n) as int) * (isqrt_s(n) as int) <= n as int,
        (isqrt_s(n) as int + 1) * (isqrt_s(n) as int + 1) > n as int,
    decreases n,
{
    if n > 0 {
        lemma_isqrt_brackets((n - 1) as nat);
        let r = isqrt_s((n - 1) as nat) as int;
        assert(r * r <= n as int - 1);
        assert((r + 1) * (r + 1) > n as int - 1);
        if (r + 1) * (r + 1) <= n as int {
            assert(isqrt_s(n) as int == r + 1);
            assert((r + 2) * (r + 2) > n as int) by (nonlinear_arith)
                requires r >= 0 && (r + 1) * (r + 1) > n as int - 1;
        } else {
            assert(isqrt_s(n) as int == r);
        }
    } else {
        assert(isqrt_s(n) == 0);
    }
}

/// Any value bracketed between the same consecutive squares is `isqrt_s(n)`.
pub proof fn lemma_isqrt_unique(n: nat, r: nat)
    requires
        (r as int) * (r as int) <= n as int,
        (r as int + 1) * (r as int + 1) > n as int,
    ensures
        r == isqrt_s(n),
{
    lemma_isqrt_brackets(n);
    let q = isqrt_s(n) as int;
    if r < q {
        lemma_mul_inequality(r as int + 1, q, r as int + 1);
        lemma_mul_inequality(r as int + 1, q, q);
        assert(false);
    }
    if q < r {
        lemma_mul_inequality(q + 1, r as int, q + 1);
        lemma_mul_inequality(q + 1, r as int, r as int);
        assert(false);
    }
}

/// Multiplying by the unit is the identity on representable values.
pub proof fn lemma_mul_fx_unit(a: int)
    requires
        -(LIM as int) <= a <= LIM as int,
    ensures
        mul_fx_s(SCALE as int, a) == a,
{
    if a >= 0 {
        lemma_div_multiples_vanish(a, SCALE as int);
        assert(a * SCALE == SCALE * a) by (nonlinear_arith);
    } else {
        lemma_div_multiples_vanish(-a, SCALE as int);
        assert(-(SCALE as int * a) == (-a) * SCALE) by (nonlinear_arith);
    }
}

/// Multiplying by zero yields zero.
pub proof fn lemma_mul_fx_zero(a: int)
    ensures
        mul_fx_s(0, a) == 0,
{
    assert(0 * a == 0) by (nonlinear_arith);
}

/// Clamp a (possibly wide) intermediate into an `i64` inside `[-LIM, LIM]`.
fn sat_i128(q: i128) -> (r: i64)
    ensures
        r as int == sat(q as int),
{
    if q > LIM as i128 {
        LIM
    } else if q < -(LIM as i128) {
        -LIM
    } else {
        q as i64
    }
}

/// Magnitude of an `i64` as a `u128`.
fn abs_u128(a: i64) -> (r: u128)
    ensures
        a >= 0 ==> r as int == a as int,
        a < 0 ==> r as int == -(a as int),
{
    if a >= 0 {
        a as u128
    } else {
        (-(a as i128)) as u128
    }
}

/// Truncating division of a signed magnitude pair by a positive divisor.
fn signed_div(neg: bool, num: u128, den: u128) -> (r: i64)
    requires
        den > 0,
    ensures
        neg ==> r as int == sat(-((num as int) / (den as int))),
        !neg ==> r as int == sat((num as int) / (den as int)),
{
    let q: u128 = num / den;
    if neg {
        if q > LIM as u128 {
            -LIM
        } else {
            -(q as i64)
        }
    } else {
        if q > LIM as u128 {
            LIM
        } else {
            q as i64
        }
    }
}

/// Fixed-point multiplication, saturating at `±LIM`.
pub fn mul_fx(a: i64, b: i64) -> (r: i64)
    ensures
        r as int == mul_fx_s(a as int, b as int),
{
    let ua: u128 = abs_u128(a);
    let ub: u128 = abs_u128(b);
    proof {
        lemma_mul_upper_bound(ua as int, 0x8000_0000_0000_0000, ub as int, 0x8000_0000_0000_0000);
    }
    let prod: u128 = ua * ub;
    let neg: bool = (a < 0) != (b < 0);
    proof {
        if a >= 0 && b >= 0 {
            assert(a as int * b as int == ua as int * ub as int) by (nonlinear_arith)
                requires ua as int == a as int && ub as int == b as int;
        } else if a < 0 && b < 0 {
            assert(a as int * b as int == ua as int * ub as int) by (nonlinear_arith)
                requires ua as int == -(a as int) && ub as int == -(b as int);
        } else if a < 0 {
            assert(a as int * b as int == -(ua as int * ub as int)) by (nonlinear_arith)
                requires ua as int == -(a as int) && ub as int == b as int;
        } else {
            assert(a as int * b as int == -(ua as int * ub as int)) by (nonlinear_arith)
                requires ua as int == a as int && ub as int == -(b as int);
        }
    }
    signed_div(neg && prod != 0, prod, SCALE as u128)
}

/// Fixed-point division by a positive divisor, saturating at `±LIM`.
pub fn div_fx(a: i64, b: i64) -> (r: i64)
    requires
        b > 0,
    ensures
        r as int == div_fx_s(a as int, b as int),
{
    let ua: u128 = abs_u128(a);
    proof {
        lemma_mul_upper_bound(ua as int, 0x8000_0000_0000_0000, SCALE as int, SCALE as int);
    }
    let num: u128 = ua * (SCALE as u128);
    proof {
        if a >= 0 {
            assert(a as int * SCALE as int == ua as int * SCALE as int) by (nonlinear_arith)
                requires ua as int == a as int;
        } else {
            assert(a as int * SCALE as int == -(ua as int * SCALE as int)) by (nonlinear_arith)
                requires ua as int == -(a as int);
        }
    }
    signed_div(a < 0 && num != 0, num, b as u128)
}

/// Saturating addition.
pub fn add_fx(a: i64, b: i64) -> (r: i64)
    ensures
        r as int == add_fx_s(a as int, b as int),
{
    sat_i128(a as i128 + b as i128)
}

/// Saturating subtraction.
pub fn sub_fx(a: i64, b: i64) -> (r: i64)
    ensures
        r as int == sub_fx_s(a as int, b as int),
{
    sat_i128(a as i128 - b as i128)
}

/// Saturating negation.
pub fn neg_fx(a: i64) -> (r: i64)
    ensures
        r as int == neg_fx_s(a as int),
{
    sat_i128(-(a as i128))
}

/// Integer square root of a `u64` by bisection.
pub fn isqrt_u64(n: u64) -> (r: u64)
    ensures
        r as nat == isqrt_s(n as nat),
{
    let mut lo: u64 = 0;
    let mut hi: u64 = 0x1_0000_0000;
    while lo + 1 < hi
        invariant
            lo < hi <= 0x1_0000_0000,
            (lo as int) * (lo as int) <= n as int,
            (hi as int) * (hi as int) > n as int,
        decreases hi - lo,
    {
        let mid: u64 = lo + (hi - lo) / 2;
        proof {
            lemma_mul_upper_bound(mid as int, 0xffff_ffff, mid as int, 0xffff_ffff);
        }
        if mid * mid <= n {
            lo = mid;
        } else {
            hi = mid;
        }
    }
    proof {
        lemma_isqrt_unique(n as nat, lo as nat);
    }
    lo
}

/// Fixed-point square root, on the same scale as its argument.
pub fn sqrt_fx(x: i64) -> (r: i64)
    ensures
        r as int == sqrt_fx_s(x as int),
{
    if x <= 0 {
        0
    } else {
        let xc: i64 = if x > LIM {
            LIM
        } else {
            x
        };
        proof {
            lemma_mul_upper_bound(xc as int, LIM as int, SCALE as int, SCALE as int);
        }
        let n: u64 = (xc as u64) * (SCALE as u64);
        proof {
            lemma_isqrt_brackets(n as nat);
            let rt = isqrt_s(n as nat) as int;
            if rt >= 4_000_000_000 {
                lemma_mul_inequality(4_000_000_000, rt, 4_000_000_000);
                lemma_mul_inequality(4_000_000_000, rt, rt);
                assert(false);
            }
        }
        isqrt_u64(n) as i64
    }
}

} // verus!
