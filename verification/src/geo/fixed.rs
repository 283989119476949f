//! Fixed-point scalar arithmetic for the geometry kernel.
//!
//! A scalar is an `i64` counting raw units of `1 / SCALE` world units.
//! Every operation is total: results are saturated ("clamped") to the
//! representable band `[-FX_INF, FX_INF]`, and division by zero saturates
//! toward the sign of the dividend.  Each executable operation returns
//! exactly the value of its specification-level counterpart (`fadd_s`,
//! `fmul_s`, ...), so all higher-level geometry can be described by
//! composing those spec functions.

use vstd::prelude::*;

verus! {

/// Number of raw units in one world unit.
pub const SCALE: i64 = 1_000_000;

/// Comparison tolerance in raw units (one ten-thousandth of a world unit).
/// Every "is it zero / are they equal" decision in the kernel is made
/// against this tolerance, never exactly.
pub const EPSILON: i64 = 100;

/// The largest raw magnitude a scalar may take; arithmetic saturates here.
/// It also stands in for "infinity" in unbounded ranges.
pub const FX_INF: i64 = 1_000_000_000_000_000_000;

/// Whether a raw value lies in the representable band.
pub open spec fn fx_ok(v: int) -> bool {
    -(FX_INF as int) <= v <= FX_INF as int
}

/// Magnitude of an integer.
pub open spec fn abs_s(v: int) -> int {
    if v < 0 {
        -v
    } else {
        v
    }
}

/// Saturation to the representable band.
pub open spec fn clamp_s(v: int) -> int {
    if v > FX_INF as int {
        FX_INF as int
    } else if v < -(FX_INF as int) {
        -(FX_INF as int)
    } else {
        v
    }
}

/// Magnitude saturated to the representable band (what `fx_abs` returns).
pub open spec fn fabs_s(v: int) -> int {
    clamp_s(abs_s(v))
}

/// Division rounding toward zero (the rounding the executable code uses),
/// defined for any non-zero divisor.
pub open spec fn trunc_div_s(p: int, q: int) -> int {
    let m = abs_s(p) / abs_s(q);
    if (p < 0) != (q < 0) {
        -m
    } else {
        m
    }
}

/// Saturating addition.
pub open spec fn fadd_s(a: int, b: int) -> int {
    clamp_s(a + b)
}

/// Saturating subtraction.
pub open spec fn fsub_s(a: int, b: int) -> int {
    clamp_s(a - b)
}

/// Saturating negation.
pub open spec fn fneg_s(a: int) -> int {
    clamp_s(-a)
}

/// Saturating fixed-point product: `a * b / SCALE`, rounded toward zero.
pub open spec fn fmul_s(a: int, b: int) -> int {
    clamp_s(trunc_div_s(a * b, SCALE as int))
}

/// Saturating fixed-point quotient: `a * SCALE / b`, rounded toward zero.
/// A zero divisor saturates toward the sign of the dividend.
pub open spec fn fdiv_s(a: int, b: int) -> int {
    if b == 0 {
        if a > 0 {
            FX_INF as int
        } else if a < 0 {
            -(FX_INF as int)
        } else {
            0
        }
    } else {
        clamp_s(trunc_div_s(a * (SCALE as int), b))
    }
}

/// `r` is the integer square root (rounded down) of `n`.
pub open spec fn is_sqrt_floor(n: int, r: int) -> bool {
    r >= 0 && r * r <= n && n < (r + 1) * (r + 1)
}

/// The integer square root, rounded down.
pub open spec fn sqrt_floor(n: int) -> int {
    choose|r: int| is_sqrt_floor(n, r)
}

/// Fixed-point square root: zero on non-positive input, else the raw value
/// of the square root of the represented world quantity, rounded down.
pub open spec fn fsqrt_s(x: int) -> int {
    if x <= 0 {
        0
    } else {
        sqrt_floor(x * (SCALE as int))
    }
}

/// The integer square root is unique.
proof fn lemma_sqrt_floor_unique(n: int, r1: int, r2: int)
    requires
        is_sqrt_floor(n, r1),
        is_sqrt_floor(n, r2),
    ensures
        r1 == r2,
{
    if r1 < r2 {
        assert((r1 + 1) * (r1 + 1) <= r2 * r2) by (nonlinear_arith)
            requires
                0 <= r1,
                r1 < r2,
        ;
    }
    if r2 < r1 {
        assert((r2 + 1) * (r2 + 1) <= r1 * r1) by (nonlinear_arith)
            requires
                0 <= r2,
                r2 < r1,
        ;
    }
}

/// The integer square root of a perfect square is its root.
pub proof fn lemma_sqrt_floor_square(r: int)
    requires
        0 <= r,
    ensures
        sqrt_floor(r * r) == r,
{
    assert(is_sqrt_floor(r * r, r)) by (nonlinear_arith)
        requires
            0 <= r,
    ;
    lemma_sqrt_floor_unique(r * r, r, sqrt_floor(r * r));
}

/// Evaluates a fixed-point product whose true value sits on the grid.
pub proof fn lemma_fmul_exact(x: int, y: int, k: int)
    requires
        x * y == (SCALE as int) * k,
        -(FX_INF as int) <= k <= FX_INF as int,
    ensures
        fmul_s(x, y) == k,
{
    let s = SCALE as int;
    if k >= 0 {
        assert(x * y >= 0 && (x * y) / s == k) by (nonlinear_arith)
            requires
                0 < s,
                0 <= k,
                x * y == s * k,
        ;
    } else {
        assert(x * y < 0 && (-(x * y)) / s == -k) by (nonlinear_arith)
            requires
                0 < s,
                k < 0,
                x * y == s * k,
        ;
    }
}

/// Evaluates a fixed-point quotient that divides out exactly.
pub proof fn lemma_fdiv_exact(x: int, y: int, k: int)
    requires
        y != 0,
        x * (SCALE as int) == y * k,
        -(FX_INF as int) <= k <= FX_INF as int,
    ensures
        fdiv_s(x, y) == k,
{
    let s = SCALE as int;
    let p = x * s;
    if k == 0 {
        assert(p == 0) by (nonlinear_arith)
            requires
                p == y * k,
                k == 0,
        ;
        assert(abs_s(p) / abs_s(y) == 0) by (nonlinear_arith)
            requires
                abs_s(p) == 0,
                abs_s(y) > 0,
        ;
    } else {
        assert(abs_s(p) == abs_s(y) * abs_s(k) && ((p < 0) != (y < 0)) == (k < 0))
            by (nonlinear_arith)
            requires
                p == y * k,
                k != 0,
                y != 0,
        ;
        assert(abs_s(p) / abs_s(y) == abs_s(k)) by (nonlinear_arith)
            requires
                abs_s(p) == abs_s(y) * abs_s(k),
                abs_s(y) > 0,
                abs_s(k) >= 0,
        ;
    }
}

/// Evaluates the fixed-point square root of an on-grid square.
pub proof fn lemma_fsqrt_exact(x: int, k: int)
    requires
        0 < x,
        0 <= k,
        x * (SCALE as int) == k * k,
    ensures
        fsqrt_s(x) == k,
{
    lemma_sqrt_floor_square(k);
}

/// The magnitude of a raw value, widened so that `i64::MIN` is representable.
fn abs_mag(a: i64) -> (r: u128)
    ensures
        r as int == abs_s(a as int),
{
    if a >= 0 {
        a as u128
    } else {
        (-(a as i128)) as u128
    }
}

/// Saturation of a widened intermediate back to a raw scalar.
fn clamp128(v: i128) -> (r: i64)
    ensures
        r as int == clamp_s(v as int),
{
    if v > FX_INF as i128 {
        FX_INF
    } else if v < -(FX_INF as i128) {
        -FX_INF
    } else {
        v as i64
    }
}

/// Applies a sign to a clamped magnitude.
fn apply_sign(mag: u128, neg: bool) -> (r: i64)
    requires
        mag <= FX_INF as u128,
    ensures
        r as int == if neg {
            -(mag as int)
        } else {
            mag as int
        },
{
    let m = mag as i64;
    if neg {
        -m
    } else {
        m
    }
}

/// Saturating addition of raw scalars.
pub fn fx_add(a: i64, b: i64) -> (r: i64)
    ensures
        r as int == fadd_s(a as int, b as int),
{
    clamp128(a as i128 + b as i128)
}

/// Saturating subtraction of raw scalars.
pub fn fx_sub(a: i64, b: i64) -> (r: i64)
    ensures
        r as int == fsub_s(a as int, b as int),
{
    clamp128(a as i128 - b as i128)
}

/// Saturating negation of a raw scalar.
pub fn fx_neg(a: i64) -> (r: i64)
    ensures
        r as int == fneg_s(a as int),
{
    clamp128(-(a as i128))
}

/// Magnitude of a raw scalar, saturated to the representable band.
pub fn fx_abs(a: i64) -> (r: i64)
    ensures
        r as int == clamp_s(abs_s(a as int)),
{
    if a >= 0 {
        clamp128(a as i128)
    } else {
        clamp128(-(a as i128))
    }
}

/// Saturating fixed-point multiplication.
pub fn fx_mul(a: i64, b: i64) -> (r: i64)
    ensures
        r as int == fmul_s(a as int, b as int),
{
    let neg = (a < 0) != (b < 0);
    let ma = abs_mag(a);
    let mb = abs_mag(b);
    proof {
        assert(ma * mb <= 0x8000000000000000u128 * 0x8000000000000000u128) by (nonlinear_arith)
            requires
                ma <= 0x8000000000000000u128,
                mb <= 0x8000000000000000u128,
        ;
    }
    let p: u128 = (ma * mb) / (SCALE as u128);
    let c: u128 = if p > FX_INF as u128 {
        FX_INF as u128
    } else {
        p
    };
    proof {
        lemma_signed_product(a as int, b as int, ma as int, mb as int, neg);
    }
    apply_sign(c, neg)
}

/// Relates a signed product with the product of the magnitudes.
proof fn lemma_signed_product(a: int, b: int, ma: int, mb: int, neg: bool)
    requires
        ma == abs_s(a),
        mb == abs_s(b),
        neg == ((a < 0) != (b < 0)),
    ensures
        abs_s(a * b) == ma * mb,
        a * b < 0 ==> neg,
        a * b > 0 ==> !neg,
        a * b == 0 ==> ma * mb == 0,
{
    assert(abs_s(a * b) == abs_s(a) * abs_s(b) && (a * b < 0 ==> ((a < 0) != (b < 0))) && (a * b
        > 0 ==> ((a < 0) == (b < 0))) && (a * b == 0 ==> abs_s(a) * abs_s(b) == 0))
        by (nonlinear_arith);
}

/// Saturating fixed-point division.
pub fn fx_div(a: i64, b: i64) -> (r: i64)
    ensures
        r as int == fdiv_s(a as int, b as int),
{
    if b == 0 {
        if a > 0 {
            FX_INF
        } else if a < 0 {
            -FX_INF
        } else {
            0
        }
    } else {
        let neg = (a < 0) != (b < 0);
        let ma = abs_mag(a);
        let mb = abs_mag(b);
        proof {
            assert(ma * (SCALE as u128) <= 0x8000000000000000u128 * 1_000_000u128)
                by (nonlinear_arith)
                requires
                    ma <= 0x8000000000000000u128,
            ;
        }
        let p: u128 = (ma * (SCALE as u128)) / mb;
        let c: u128 = if p > FX_INF as u128 {
            FX_INF as u128
        } else {
            p
        };
        proof {
            lemma_signed_product(
                a as int,
                SCALE as int,
                ma as int,
                SCALE as int,
                (a as int) < 0,
            );
            assert(abs_s((a as int) * (SCALE as int)) == ma * (SCALE as int));
            assert((((a as int) * (SCALE as int)) < 0 != ((b as int) < 0)) == neg || (a as int)
                == 0) by (nonlinear_arith)
                requires
                    neg == (((a as int) < 0) != ((b as int) < 0)),
                    SCALE as int > 0,
            ;
        }
        apply_sign(c, neg)
    }
}

/// Integer square root by bisection.
fn isqrt(n: u128) -> (r: u128)
    requires
        n < 0x10000000000000000000000000u128,  // 2^100
    ensures
        is_sqrt_floor(n as int, r as int),
{
    let mut lo: u128 = 0;
    let mut hi: u128 = 0x4000000000000u128;  // 2^50
    proof {
        assert(0x4000000000000u128 * 0x4000000000000u128 == 0x10000000000000000000000000u128)
            by (nonlinear_arith);
    }
    while lo + 1 < hi
        invariant
            (lo as int) * (lo as int) <= n as int,
            (n as int) < (hi as int) * (hi as int),
            lo < hi,
            hi <= 0x4000000000000u128,
        decreases hi - lo,
    {
        let mid = lo + (hi - lo) / 2;
        proof {
            assert(mid * mid <= 0x4000000000000u128 * 0x4000000000000u128) by (nonlinear_arith)
                requires
                    mid <= 0x4000000000000u128,
            ;
        }
        if mid * mid <= n {
            lo = mid;
        } else {
            hi = mid;
        }
    }
    lo
}

/// Fixed-point square root of a raw scalar.
pub fn fx_sqrt(x: i64) -> (r: i64)
    ensures
        r as int == fsqrt_s(x as int),
{
    if x <= 0 {
        0
    } else {
        proof {
            assert((x as u128) * (SCALE as u128) < 0x10000000000000000000000000u128)
                by (nonlinear_arith)
                requires
                    (x as u128) <= 0x8000000000000000u128,
            ;
        }
        let n: u128 = (x as u128) * (SCALE as u128);
        let s = isqrt(n);
        proof {
            assert((s as int) * (s as int) <= n as int);
            lemma_sqrt_floor_unique(n as int, s as int, sqrt_floor(n as int));
            assert((s as int) <= 0x4000000000000int) by (nonlinear_arith)
                requires
                    is_sqrt_floor(n as int, s as int),
                    (n as int) < 0x10000000000000000000000000int,
            ;
        }
        s as i64
    }
}

} // verus!
