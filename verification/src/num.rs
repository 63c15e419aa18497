//! Integer arithmetic helpers shared by the steering components: truncating
//! division (the rounding mode of Rust's `/` on signed integers), clamping,
//! and an integer square root.

use vstd::prelude::*;

verus! {

/// Quotient of `a / b` rounded toward zero, as Rust's `/` computes it on
/// signed integers.
pub open spec fn div_trunc(a: int, b: int) -> int {
    if a >= 0 {
        a / b
    } else {
        -((-a) / b)
    }
}

/// `x` clamped to `[lo, hi]`.
pub open spec fn clamp_spec(x: int, lo: int, hi: int) -> int {
    if x < lo {
        lo
    } else if x > hi {
        hi
    } else {
        x
    }
}

/// Largest `r` with `r * r <= n`.
pub open spec fn sqrt_floor(n: nat) -> nat
    decreases n,
{
    if n < 4 {
        if n == 0 {
            0
        } else {
            1
        }
    } else {
        let r = 2 * sqrt_floor(n / 4);
        if (r + 1) * (r + 1) <= n {
            r + 1
        } else {
            r
        }
    }
}

/// `sqrt_floor(n)` is indeed the floor of the square root of `n`.
pub proof fn lemma_sqrt_floor(n: nat)
    ensures
        sqrt_floor(n) * sqrt_floor(n) <= n,
        n < (sqrt_floor(n) + 1) * (sqrt_floor(n) + 1),
    decreases n,
{
    if n < 4 {
        if n == 0 {
            assert(sqrt_floor(n) == 0);
            assert(n < (sqrt_floor(n) + 1) * (sqrt_floor(n) + 1)) by (nonlinear_arith)
                requires
                    n == 0,
                    sqrt_floor(n) == 0,
            ;
        } else {
            assert(sqrt_floor(n) == 1);
            assert(n < (sqrt_floor(n) + 1) * (sqrt_floor(n) + 1)) by (nonlinear_arith)
                requires
                    n < 4,
                    sqrt_floor(n) == 1,
            ;
        }
    } else {
        lemma_sqrt_floor(n / 4);
        let s = sqrt_floor(n / 4);
        assert(s * s <= n / 4);
        assert(n / 4 < (s + 1) * (s + 1));
        assert(4 * (n / 4) <= n && n < 4 * (n / 4) + 4) by (nonlinear_arith);
        assert((2 * s) * (2 * s) <= 4 * (n / 4)) by (nonlinear_arith)
            requires
                s * s <= n / 4,
        ;
        assert(4 * (n / 4) + 4 <= 4 * ((s + 1) * (s + 1))) by (nonlinear_arith)
            requires
                n / 4 + 1 <= (s + 1) * (s + 1),
        ;
        assert((2 * s + 2) * (2 * s + 2) == 4 * ((s + 1) * (s + 1))) by (nonlinear_arith);
        let r = 2 * s;
        assert(n < (r + 2) * (r + 2));
        assert(r * r <= n);
        if (r + 1) * (r + 1) <= n {
            assert(sqrt_floor(n) == r + 1);
            assert(n < (sqrt_floor(n) + 1) * (sqrt_floor(n) + 1)) by (nonlinear_arith)
                requires
                    sqrt_floor(n) == r + 1,
                    n < (r + 2) * (r + 2),
            ;
        } else {
            assert(sqrt_floor(n) == r);
            assert(n < (sqrt_floor(n) + 1) * (sqrt_floor(n) + 1)) by (nonlinear_arith)
                requires
                    sqrt_floor(n) == r,
                    n < (r + 1) * (r + 1),
            ;
        }
    }
}

/// There is only one floor square root, so bracketing `n` pins it down.
pub proof fn lemma_sqrt_floor_unique(n: nat, r: nat)
    requires
        r * r <= n,
        n < (r + 1) * (r + 1),
    ensures
        r == sqrt_floor(n),
{
    lemma_sqrt_floor(n);
    let s = sqrt_floor(n);
    assert(r < s + 1 && s < r + 1) by (nonlinear_arith)
        requires
            r * r <= n,
            n < (r + 1) * (r + 1),
            s * s <= n,
            n < (s + 1) * (s + 1);
}

/// An upper bound on the input gives an upper bound on the square root.
pub proof fn lemma_sqrt_floor_le(n: nat, b: nat)
    requires
        n < (b + 1) * (b + 1),
    ensures
        sqrt_floor(n) <= b,
{
    lemma_sqrt_floor(n);
    let s = sqrt_floor(n);
    assert(s < b + 1) by (nonlinear_arith)
        requires
            s * s <= n,
            n < (b + 1) * (b + 1);
}

/// Integer square root by bisection: the largest `r` with `r * r <= n`.
pub fn isqrt(n: u64) -> (r: u64)
    ensures
        r == sqrt_floor(n as nat),
{
    let mut lo: u64 = 0;
    let mut hi: u64 = if n < 4294967295 {
        n + 1
    } else {
        4294967296
    };
    proof {
        assert(n < hi * hi) by (nonlinear_arith)
            requires
                hi == if n < 4294967295 { n + 1 } else { 4294967296 },
                n <= u64::MAX;
    }
    while lo + 1 < hi
        invariant
            lo < hi,
            hi <= 4294967296,
            lo * lo <= n,
            n < hi * hi,
        decreases hi - lo,
    {
        let mid = lo + (hi - lo) / 2;
        assert(lo < mid < hi);
        proof {
            assert(mid * mid <= 4294967295 * 4294967295) by (nonlinear_arith)
                requires
                    mid <= 4294967295,
            ;
        }
        if mid * mid <= n {
            lo = mid;
        } else {
            hi = mid;
        }
    }
    proof {
        lemma_sqrt_floor_unique(n as nat, lo as nat);
    }
    lo
}

/// Truncating division is antisymmetric in its dividend.
pub proof fn lemma_div_trunc_neg(a: int, b: int)
    requires
        b > 0,
    ensures
        div_trunc(-a, b) == -div_trunc(a, b),
{
}

/// Truncating division by a positive divisor never enlarges magnitude
/// bounds: a bound on the dividend gives the matching bound on the quotient.
pub proof fn lemma_div_trunc_bounds(a: int, b: int, m: int)
    requires
        b > 0,
        -m <= a <= m,
        0 <= m,
    ensures
        -m <= div_trunc(a, b) <= m,
        a >= 0 ==> 0 <= div_trunc(a, b) <= a,
        a <= 0 ==> a <= div_trunc(a, b) <= 0,
{
    if a >= 0 {
        assert(0 <= a / b <= a) by (nonlinear_arith)
            requires
                b > 0,
                a >= 0;
    } else {
        assert(0 <= (-a) / b <= -a) by (nonlinear_arith)
            requires
                b > 0,
                a < 0;
    }
}

/// Truncating division is monotone on non-negative dividends.
pub proof fn lemma_div_trunc_mono(a1: int, a2: int, b: int)
    requires
        b > 0,
        0 <= a1 <= a2,
    ensures
        div_trunc(a1, b) <= div_trunc(a2, b),
{
    assert(a1 / b <= a2 / b) by (nonlinear_arith)
        requires
            b > 0,
            0 <= a1 <= a2;
}

/// Multiplying by zero and dividing the result leaves zero.
pub proof fn lemma_zero_mul_div(x: int, b: int)
    requires
        b > 0,
    ensures
        0 * x == 0,
        div_trunc(0 * x, b) == 0,
{
    assert(0 * x == 0) by (nonlinear_arith);
    assert((0int) / b == 0) by (nonlinear_arith)
        requires
            b > 0,
    ;
}

/// Bounds of a product of non-negative factors from bounds of the factors.
pub proof fn lemma_mul_le_nonneg(a: int, amax: int, b: int, bmax: int)
    requires
        0 <= a <= amax,
        0 <= b <= bmax,
    ensures
        0 <= a * b <= amax * bmax,
{
    assert(0 <= a * b <= amax * bmax) by (nonlinear_arith)
        requires
            0 <= a <= amax,
            0 <= b <= bmax,
    ;
}

/// Bounds of a quotient of a non-negative dividend from bounds of the
/// dividend.
pub proof fn lemma_div_le_nonneg(a: int, amax: int, b: int)
    requires
        0 <= a <= amax,
        b > 0,
    ensures
        0 <= a / b <= amax / b,
        div_trunc(a, b) == a / b,
{
    assert(0 <= a / b <= amax / b) by (nonlinear_arith)
        requires
            0 <= a <= amax,
            b > 0,
    ;
}

/// Exact truncating division of an `i64` by a positive divisor.
pub fn div_trunc_i64(a: i64, b: i64) -> (r: i64)
    requires
        b > 0,
        a > i64::MIN,
    ensures
        r == div_trunc(a as int, b as int),
{
    a / b
}

/// Exact clamp of an `i64` to `[lo, hi]`.
pub fn clamp_i64(x: i64, lo: i64, hi: i64) -> (r: i64)
    requires
        lo <= hi,
    ensures
        r == clamp_spec(x as int, lo as int, hi as int),
{
    if x < lo {
        lo
    } else if x > hi {
        hi
    } else {
        x
    }
}

} // verus!
