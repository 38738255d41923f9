//! Fixed-point scalar arithmetic.
//!
//! A scalar is an `i64` counting thousandths of a world unit
//! (`SCALE` = 1000). Every operation clamps its exact mathematical
//! result into `[-FX_MAX, FX_MAX]`, so the operations are total and the
//! stored state of the library stays inside that range.

use vstd::prelude::*;

verus! {

/// Number of fixed-point steps per world unit.
pub const SCALE: i64 = 1000;

/// Largest magnitude a stored scalar may have (one billion world units).
pub const FX_MAX: i64 = 1_000_000_000_000;

/// A scalar is well formed when it lies in the clamping range.
pub open spec fn fx_wf(x: int) -> bool {
    -FX_MAX <= x <= FX_MAX
}

/// Clamp an exact result into the representable range.
pub open spec fn cl(x: int) -> int {
    if x > FX_MAX as int {
        FX_MAX as int
    } else if x < -(FX_MAX as int) {
        -(FX_MAX as int)
    } else {
        x
    }
}

/// Quotient truncated toward zero, for a positive divisor.
pub open spec fn tdiv(a: int, b: int) -> int
    recommends
        b > 0,
{
    if a >= 0 {
        a / b
    } else {
        -((-a) / b)
    }
}

/// Fixed-point sum: the exact sum, clamped.
pub open spec fn fx_add_s(a: int, b: int) -> int {
    cl(a + b)
}

/// Fixed-point product: the exact product rescaled (truncated toward
/// zero), then clamped.
pub open spec fn fx_mul_s(a: int, b: int) -> int {
    cl(tdiv(a * b, SCALE as int))
}

/// Half of a scalar, truncated toward zero.
pub open spec fn half_s(a: int) -> int {
    tdiv(a as int, 2)
}

/// Clamp an `i64` into the representable range.
pub fn fx_clamp(x: i64) -> (r: i64)
    ensures
        r == cl(x as int),
        fx_wf(r as int),
{
    if x > FX_MAX {
        FX_MAX
    } else if x < -FX_MAX {
        -FX_MAX
    } else {
        x
    }
}

/// Clamp a bounded `i128` into the representable scalar range.
pub fn fx_clamp128(x: i128) -> (r: i64)
    ensures
        r == cl(x as int),
{
    if x > FX_MAX as i128 {
        FX_MAX
    } else if x < -FX_MAX as i128 {
        -FX_MAX
    } else {
        x as i64
    }
}

/// Truncating division of a bounded `i128` by a positive divisor.
pub fn div_trunc128(a: i128, b: i128) -> (r: i128)
    requires
        b > 0,
        a > i128::MIN,
    ensures
        r == tdiv(a as int, b as int),
{
    if a >= 0 {
        let q = a / b;
        assert(q == a as int / b as int);
        q
    } else {
        let q = (-a) / b;
        assert(q == (-a) as int / b as int);
        -q
    }
}

/// The magnitude of a product is bounded by the product of the bounds.
pub proof fn lemma_mul_bound(a: int, b: int, ba: int, bb: int)
    requires
        -ba <= a <= ba,
        -bb <= b <= bb,
        0 <= ba,
        0 <= bb,
    ensures
        -(ba * bb) <= a * b <= ba * bb,
{
    assert(-(ba * bb) <= a * b <= ba * bb) by (nonlinear_arith)
        requires
            -ba <= a <= ba,
            -bb <= b <= bb,
            0 <= ba,
            0 <= bb,
    ;
}

/// Clamped fixed-point addition.
pub fn fx_add(a: i64, b: i64) -> (r: i64)
    requires
        fx_wf(a as int),
        fx_wf(b as int),
    ensures
        r == fx_add_s(a as int, b as int),
        fx_wf(r as int),
{
    fx_clamp(a + b)
}

/// Clamped fixed-point subtraction.
pub fn fx_sub(a: i64, b: i64) -> (r: i64)
    requires
        fx_wf(a as int),
        fx_wf(b as int),
    ensures
        r == fx_add_s(a as int, -b as int),
        fx_wf(r as int),
{
    fx_clamp(a - b)
}

/// Clamped fixed-point multiplication.
pub fn fx_mul(a: i64, b: i64) -> (r: i64)
    requires
        fx_wf(a as int),
        fx_wf(b as int),
    ensures
        r == fx_mul_s(a as int, b as int),
        fx_wf(r as int),
{
    proof {
        lemma_mul_bound(a as int, b as int, FX_MAX as int, FX_MAX as int);
    }
    let p: i128 = (a as i128) * (b as i128);
    let q = div_trunc128(p, SCALE as i128);
    fx_clamp128(q)
}

/// Truncating division by a positive divisor never exceeds the
/// divided bound.
pub proof fn lemma_tdiv_bound(a: int, b: int, m: int)
    requires
        b > 0,
        0 <= m,
        -m <= a <= m,
    ensures
        -(m / b) <= tdiv(a, b) <= m / b,
{
    vstd::arithmetic::div_mod::lemma_div_pos_is_pos(m, b);
    if a >= 0 {
        vstd::arithmetic::div_mod::lemma_div_is_ordered(a, m, b);
        vstd::arithmetic::div_mod::lemma_div_pos_is_pos(a, b);
    } else {
        vstd::arithmetic::div_mod::lemma_div_is_ordered(-a, m, b);
        vstd::arithmetic::div_mod::lemma_div_pos_is_pos(-a, b);
    }
}

/// Clamped negation; safe on every input.
pub fn fx_neg(a: i64) -> (r: i64)
    ensures
        r == cl(-(a as int)),
{
    if a >= FX_MAX {
        -FX_MAX
    } else if a <= -FX_MAX {
        FX_MAX
    } else {
        -a
    }
}

/// Integer square root, rounded down.
pub open spec fn spec_isqrt(n: nat) -> nat
    decreases n,
{
    if n == 0 {
        0
    } else {
        let r = spec_isqrt((n - 1) as nat);
        if (r + 1) * (r + 1) <= n {
            r + 1
        } else {
            r
        }
    }
}

/// The rounded-down square root brackets its argument.
pub proof fn lemma_isqrt_bounds(n: nat)
    ensures
        spec_isqrt(n) * spec_isqrt(n) <= n,
        n < (spec_isqrt(n) + 1) * (spec_isqrt(n) + 1),
    decreases n,
{
    if n == 0 {
        assert(spec_isqrt(n) == 0);
        assert(spec_isqrt(n) * spec_isqrt(n) <= n) by (nonlinear_arith)
            requires
                spec_isqrt(n) == 0 && n == 0,
        ;
        assert(n < (spec_isqrt(n) + 1) * (spec_isqrt(n) + 1)) by (nonlinear_arith)
            requires
                spec_isqrt(n) == 0 && n == 0,
        ;
    } else {
        lemma_isqrt_bounds((n - 1) as nat);
        let r = spec_isqrt((n - 1) as nat);
        assert(r * r <= n - 1);
        assert(n - 1 < (r + 1) * (r + 1));
        if (r + 1) * (r + 1) <= n {
            assert(spec_isqrt(n) == r + 1);
            assert(spec_isqrt(n) * spec_isqrt(n) == (r + 1) * (r + 1));
            assert((spec_isqrt(n) + 1) * (spec_isqrt(n) + 1) == (r + 2) * (r + 2));
            assert(n <= (r + 1) * (r + 1));
            assert(n < (r + 2) * (r + 2)) by (nonlinear_arith)
                requires
                    n <= (r + 1) * (r + 1),
            ;
        } else {
            assert(spec_isqrt(n) == r);
            assert(spec_isqrt(n) * spec_isqrt(n) == r * r);
            assert((spec_isqrt(n) + 1) * (spec_isqrt(n) + 1) == (r + 1) * (r + 1));
        }
    }
}

/// Any value that brackets `n` the same way is that square root.
pub proof fn lemma_isqrt_unique(n: nat, r: nat)
    requires
        r * r <= n,
        n < (r + 1) * (r + 1),
    ensures
        r == spec_isqrt(n),
{
    lemma_isqrt_bounds(n);
    let s = spec_isqrt(n);
    if r < s {
        assert((r + 1) * (r + 1) <= s * s) by (nonlinear_arith)
            requires
                r + 1 <= s,
        ;
    }
    if s < r {
        assert((s + 1) * (s + 1) <= r * r) by (nonlinear_arith)
            requires
                s + 1 <= r,
        ;
    }
}

/// Integer square root of a bounded 128-bit value, by bisection.
pub fn isqrt_u128(n: u128) -> (r: u128)
    requires
        n < 0x10000000000000000000000000,  // 2^100
    ensures
        r == spec_isqrt(n as nat),
        r <= 0x4000000000000,
{
    let mut lo: u128 = 0;
    let mut hi: u128 = 0x4000000000000;  // 2^50
    assert(hi * hi > n) by (nonlinear_arith)
        requires
            n < 0x10000000000000000000000000,
            hi == 0x4000000000000,
    ;
    while lo + 1 < hi
        invariant
            lo < hi,
            hi <= 0x4000000000000,
            lo * lo <= n,
            n < hi * hi,
        decreases hi - lo,
    {
        let mid = lo + (hi - lo) / 2;
        proof {
            lemma_mul_bound(mid as int, mid as int, 0x4000000000000, 0x4000000000000);
        }
        if mid * mid <= n {
            lo = mid;
        } else {
            hi = mid;
        }
    }
    proof {
        lemma_isqrt_unique(n as nat, lo as nat);
    }
    lo
}

/// Half of a well-formed scalar, truncated toward zero.
pub fn fx_half(a: i64) -> (r: i64)
    requires
        fx_wf(a as int),
    ensures
        r == half_s(a as int),
        fx_wf(r as int),
{
    if a >= 0 {
        a / 2
    } else {
        -((-a) / 2)
    }
}

} // verus!
