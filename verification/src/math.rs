//! Fixed-point scalar arithmetic: the subunit scale, clamping, integer
//! square roots and truncating scaled division, with the lemmas the
//! geometric code needs.

use vstd::prelude::*;

verus! {

/// Fixed-point subunits per world unit (or per second, for durations).
pub const SCALE: i64 = 1_000_000;

/// Floor of the mathematical square root.
pub open spec fn sqrt_floor(n: nat) -> nat
    decreases n,
{
    if n == 0 {
        0
    } else {
        let s = sqrt_floor((n - 1) as nat);
        if (s + 1) * (s + 1) <= n {
            s + 1
        } else {
            s
        }
    }
}

/// `sqrt_floor(n)` really is the floor of the square root of `n`.
pub proof fn lemma_sqrt_floor_bounds(n: nat)
    ensures
        sqrt_floor(n) * sqrt_floor(n) <= n,
        n < (sqrt_floor(n) + 1) * (sqrt_floor(n) + 1),
    decreases n,
{
    if n == 0 {
        assert(sqrt_floor(0) == 0);
        assert(0nat < (0nat + 1) * (0nat + 1)) by (nonlinear_arith);
    } else {
        lemma_sqrt_floor_bounds((n - 1) as nat);
        let s = sqrt_floor((n - 1) as nat);
        assert(sqrt_floor(n) == if (s + 1) * (s + 1) <= n {
            s + 1
        } else {
            s
        });
        if (s + 1) * (s + 1) <= n {
            assert(n < (s + 1 + 1) * (s + 1 + 1)) by (nonlinear_arith)
                requires
                    n - 1 < (s + 1) * (s + 1),
            ;
        }
    }
}

/// Any `r` with `r * r <= n < (r + 1) * (r + 1)` equals `sqrt_floor(n)`.
pub proof fn lemma_sqrt_floor_unique(n: nat, r: nat)
    requires
        r * r <= n,
        n < (r + 1) * (r + 1),
    ensures
        r == sqrt_floor(n),
{
    lemma_sqrt_floor_bounds(n);
    let s = sqrt_floor(n);
    if r < s {
        assert(n < s * s) by (nonlinear_arith)
            requires
                r < s,
                n < (r + 1) * (r + 1),
        ;
    }
    if s < r {
        assert(n < r * r) by (nonlinear_arith)
            requires
                s < r,
                n < (s + 1) * (s + 1),
        ;
    }
}

/// The square-root floor is monotone.
pub proof fn lemma_sqrt_floor_mono(a: nat, b: nat)
    requires
        a <= b,
    ensures
        sqrt_floor(a) <= sqrt_floor(b),
{
    lemma_sqrt_floor_bounds(a);
    lemma_sqrt_floor_bounds(b);
    let sa = sqrt_floor(a);
    let sb = sqrt_floor(b);
    if sb < sa {
        assert(a > b) by (nonlinear_arith)
            requires
                sb < sa,
                sa * sa <= a,
                b < (sb + 1) * (sb + 1),
        ;
    }
}

/// A square does not exceed the containing square's side: if `x * x <= n`
/// and `0 <= x`, then `x <= sqrt_floor(n)`.
pub proof fn lemma_sqrt_floor_contains(n: nat, x: nat)
    requires
        x * x <= n,
    ensures
        x <= sqrt_floor(n),
{
    lemma_sqrt_floor_bounds(n);
    let s = sqrt_floor(n);
    if s < x {
        assert(n < x * x) by (nonlinear_arith)
            requires
                s < x,
                n < (s + 1) * (s + 1),
        ;
    }
}

/// Integer square root by bisection.
pub fn isqrt(n: u128) -> (r: u64)
    requires
        n < 85070591730234615865843651857942052864u128,
    ensures
        r == sqrt_floor(n as nat),
{
    if n == 0 {
        proof {
            lemma_sqrt_floor_bounds(0nat);
        }
        return 0;
    }
    let mut lo: u128 = 0;
    let mut hi: u128 = 9223372036854775808u128;
    proof {
        assert(hi * hi == 85070591730234615865843651857942052864u128) by (nonlinear_arith)
            requires
                hi == 9223372036854775808u128,
        ;
        assert(lo * lo == 0) by (nonlinear_arith)
            requires
                lo == 0,
        ;
    }
    while lo + 1 < hi
        invariant
            lo < hi,
            hi <= 9223372036854775808u128,
            lo * lo <= n,
            (n as int) < hi * hi,
        decreases hi - lo,
    {
        let mid = lo + (hi - lo) / 2;
        assert(lo < mid < hi);
        assert(mid * mid < 85070591730234615865843651857942052864u128) by (nonlinear_arith)
            requires
                mid < hi,
                hi <= 9223372036854775808u128,
        ;
        if mid * mid <= n {
            lo = mid;
        } else {
            hi = mid;
        }
    }
    proof {
        assert(hi == lo + 1);
        lemma_sqrt_floor_unique(n as nat, lo as nat);
        assert(lo < 9223372036854775808u128);
    }
    lo as u64
}

/// Truncating (toward zero) division of `a` by a positive `d`.
pub open spec fn div_trunc(a: int, d: int) -> int {
    if a >= 0 {
        a / d
    } else {
        -((-a) / d)
    }
}

/// `a * b / d`, truncated toward zero: the fixed-point product rescale.
pub open spec fn mul_div(a: int, b: int, d: int) -> int {
    div_trunc(a * b, d)
}

/// Truncating division shrinks magnitudes: `|a * b / d| <= |a|` when
/// `|b| <= d`.
pub proof fn lemma_mul_div_shrinks(a: int, b: int, d: int)
    requires
        0 < d,
        -d <= b <= d,
    ensures
        -abs_spec(a) <= mul_div(a, b, d) <= abs_spec(a),
{
    let p = a * b;
    let m = abs_spec(a);
    assert(-(m * d) <= p <= m * d) by (nonlinear_arith)
        requires
            -d <= b <= d,
            0 < d,
            m >= a,
            m >= -a,
            m >= 0,
            p == a * b,
    ;
    if p >= 0 {
        assert(0 <= p / d <= m) by (nonlinear_arith)
            requires
                0 < d,
                0 <= p <= m * d,
        ;
    } else {
        assert(0 <= (-p) / d <= m) by (nonlinear_arith)
            requires
                0 < d,
                0 <= -p <= m * d,
        ;
    }
}

/// A truncated proportional share lies between zero and the whole:
/// for `0 <= b <= d`, `a * b / d` is between `0` and `a`.
pub proof fn lemma_mul_div_between(a: int, b: int, d: int)
    requires
        0 < d,
        0 <= b <= d,
    ensures
        a >= 0 ==> 0 <= mul_div(a, b, d) <= a,
        a < 0 ==> a <= mul_div(a, b, d) <= 0,
{
    let p = a * b;
    if a >= 0 {
        assert(0 <= p <= a * d) by (nonlinear_arith)
            requires
                0 <= b <= d,
                a >= 0,
                p == a * b,
        ;
        assert(0 <= p / d <= a) by (nonlinear_arith)
            requires
                0 < d,
                0 <= p,
                p <= a * d,
        ;
    } else {
        assert(a * d <= p <= 0) by (nonlinear_arith)
            requires
                0 <= b <= d,
                a < 0,
                p == a * b,
        ;
        assert(0 <= (-p) / d <= -a) by (nonlinear_arith)
            requires
                0 < d,
                p <= 0,
                a * d <= p,
        ;
    }
}

/// Absolute value.
pub open spec fn abs_spec(a: int) -> int {
    if a >= 0 {
        a
    } else {
        -a
    }
}

/// `a * b / d` in 128-bit intermediates, truncated toward zero.
pub fn mul_div_i64(a: i64, b: i64, d: i64) -> (r: i64)
    requires
        0 < d,
        i64::MIN <= mul_div(a as int, b as int, d as int) <= i64::MAX,
    ensures
        r == mul_div(a as int, b as int, d as int),
{
    proof {
        assert(-85070591730234615865843651857942052864int <= a as int * b as int
            <= 85070591730234615865843651857942052864int) by (nonlinear_arith)
            requires
                -0x8000000000000000 <= a as int <= 0x7fffffffffffffff,
                -0x8000000000000000 <= b as int <= 0x7fffffffffffffff,
        ;
    }
    let p: i128 = (a as i128) * (b as i128);
    if p >= 0 {
        let q: i128 = p / (d as i128);
        proof {
            assert(q == (a as int * b as int) / (d as int));
            assert(0 <= q) by (nonlinear_arith)
                requires
                    q == (p as int) / (d as int),
                    p >= 0,
                    d > 0,
            ;
        }
        q as i64
    } else {
        let np: i128 = -p;
        let q: i128 = np / (d as i128);
        proof {
            assert(q == (-(a as int * b as int)) / (d as int));
            assert(0 <= q) by (nonlinear_arith)
                requires
                    q == (np as int) / (d as int),
                    np >= 0,
                    d > 0,
            ;
            assert(-q == mul_div(a as int, b as int, d as int));
        }
        let r: i128 = -q;
        r as i64
    }
}

/// Clamp `x` to `[lo, hi]`.
pub fn clamp_i64(x: i64, lo: i64, hi: i64) -> (r: i64)
    requires
        lo <= hi,
    ensures
        r == clamp_spec(x as int, lo as int, hi as int),
{
    if x < lo {
        lo
    } else if x > hi {
        hi
    } else {
        x
    }
}

/// The value of `x` clamped to `[lo, hi]`.
pub open spec fn clamp_spec(x: int, lo: int, hi: int) -> int {
    if x < lo {
        lo
    } else if x > hi {
        hi
    } else {
        x
    }
}

} // verus!
