//! Fixed-point trigonometry.
//!
//! Angles are `i64` micro-degrees (see `angle`); unit-interval values such as
//! sines and cosines are `i64` in `Q` units, `Q = 10^12`.  `sin_q` and `cos_q`
//! have exact integer specifications (`spec_sin_q`, `spec_cos_q`): the body is
//! a truncated Taylor evaluation carried out in non-negative 128-bit
//! arithmetic and mirrored step for step by the spec, so two calls on equal
//! arguments are provably equal.  The square root and the inverse functions
//! carry exact models of the same kind, plus the range and sign facts their
//! callers lean on.

use vstd::prelude::*;
use crate::angle;

verus! {

/// Unit scale for sines and cosines: 1.0 == 10^12.
pub const Q: i64 = 1_000_000_000_000;

/// Radians (in `Q` units) per micro-degree, times 10^9:
/// pi/180 * 10^-6 * 10^12 * 10^9 rounded.
pub const RAD_PER_UDEG_E9: u64 = 17_453_292_519_943;

/// Micro-degrees per radian (in `Q` units), times 10^6:
/// 180/pi * 10^6 * 10^6 rounded.
pub const UDEG_PER_RAD_E6: u64 = 57_295_779_513_082;

/// Taylor sine on one octant, `t` micro-degrees in `[0, 45_000_000]`,
/// exact model of the executable evaluation.  Result in `Q` units.
pub open spec fn spec_sin_kernel(t: int) -> int {
    let th = (t * 17_453_292_519_943) / 1_000_000_000;
    let t2 = (th * th) / 1_000_000_000_000;
    let u1 = 1_000_000_000_000 - t2 / 110;
    let u2 = 1_000_000_000_000 - ((t2 * u1) / 1_000_000_000_000) / 72;
    let u3 = 1_000_000_000_000 - ((t2 * u2) / 1_000_000_000_000) / 42;
    let u4 = 1_000_000_000_000 - ((t2 * u3) / 1_000_000_000_000) / 20;
    let u5 = 1_000_000_000_000 - ((t2 * u4) / 1_000_000_000_000) / 6;
    (th * u5) / 1_000_000_000_000
}

/// Taylor cosine on one octant, `t` micro-degrees in `[0, 45_000_000]`,
/// exact model of the executable evaluation.  Result in `Q` units.
pub open spec fn spec_cos_kernel(t: int) -> int {
    let th = (t * 17_453_292_519_943) / 1_000_000_000;
    let t2 = (th * th) / 1_000_000_000_000;
    let v1 = 1_000_000_000_000 - t2 / 90;
    let v2 = 1_000_000_000_000 - ((t2 * v1) / 1_000_000_000_000) / 56;
    let v3 = 1_000_000_000_000 - ((t2 * v2) / 1_000_000_000_000) / 30;
    let v4 = 1_000_000_000_000 - ((t2 * v3) / 1_000_000_000_000) / 12;
    1_000_000_000_000 - ((t2 * v4) / 1_000_000_000_000) / 2
}

/// Sine on one quadrant, `t` micro-degrees in `[0, 90_000_000]`.
pub open spec fn spec_sin_quadrant(t: int) -> int {
    if t <= 45_000_000 {
        spec_sin_kernel(t)
    } else {
        spec_cos_kernel(90_000_000 - t)
    }
}

/// Sine of an arbitrary angle in micro-degrees, result in `Q` units.
pub open spec fn spec_sin_q(x: int) -> int {
    let n = angle::norm_360(x);
    if n <= 90_000_000 {
        spec_sin_quadrant(n)
    } else if n <= 180_000_000 {
        spec_sin_quadrant(180_000_000 - n)
    } else if n <= 270_000_000 {
        -spec_sin_quadrant(n - 180_000_000)
    } else {
        -spec_sin_quadrant(360_000_000 - n)
    }
}

/// Cosine of an arbitrary angle in micro-degrees, result in `Q` units.
pub open spec fn spec_cos_q(x: int) -> int {
    spec_sin_q(angle::norm_360(x) + 90_000_000)
}

/// A product of two non-negative bounded factors is bounded by the product
/// of the bounds.
pub proof fn lemma_mul_le(x: int, xb: int, y: int, yb: int)
    requires
        0 <= x <= xb,
        0 <= y <= yb,
    ensures
        0 <= x * y <= xb * yb,
{
    assert(0 <= x * y <= xb * yb) by (nonlinear_arith)
        requires 0 <= x <= xb, 0 <= y <= yb;
}

/// Bound on a scaled product `x * y / d` of non-negative bounded factors.
pub proof fn lemma_mul_div_le(x: int, xb: int, y: int, yb: int, d: int)
    requires
        0 <= x <= xb,
        0 <= y <= yb,
        0 < d,
    ensures
        0 <= (x * y) / d <= (xb * yb) / d,
{
    lemma_mul_le(x, xb, y, yb);
    vstd::arithmetic::div_mod::lemma_div_is_ordered(x * y, xb * yb, d);
    vstd::arithmetic::div_mod::lemma_div_pos_is_pos(x * y, d);
}

/// Bounds of the octant kernels: both stay within `[0, Q]`.
pub proof fn lemma_kernel_bounds(t: int)
    requires
        0 <= t <= 45_000_000,
    ensures
        0 <= spec_sin_kernel(t) <= 785_398_163_398,
        690_000_000_000 <= spec_cos_kernel(t) <= 1_000_000_000_000,
{
    lemma_mul_div_le(t, 45_000_000, 17_453_292_519_943, 17_453_292_519_943, 1_000_000_000);
    let th = (t * 17_453_292_519_943) / 1_000_000_000;
    assert(th <= 785_398_163_398);
    lemma_mul_div_le(th, 785_398_163_398, th, 785_398_163_398, 1_000_000_000_000);
    let t2 = (th * th) / 1_000_000_000_000;
    assert(t2 <= 616_851_000_000);
    vstd::arithmetic::div_mod::lemma_div_pos_is_pos(t2, 110);
    vstd::arithmetic::div_mod::lemma_div_is_ordered(t2, 616_851_000_000, 110);
    let u1 = 1_000_000_000_000 - t2 / 110;
    assert(0 <= u1 <= 1_000_000_000_000);
    lemma_mul_div_le(t2, 616_851_000_000, u1, 1_000_000_000_000, 1_000_000_000_000);
    vstd::arithmetic::div_mod::lemma_div_pos_is_pos((t2 * u1) / 1_000_000_000_000, 72);
    vstd::arithmetic::div_mod::lemma_div_is_ordered((t2 * u1) / 1_000_000_000_000, 616_851_000_000, 72);
    let u2 = 1_000_000_000_000 - ((t2 * u1) / 1_000_000_000_000) / 72;
    assert(0 <= u2 <= 1_000_000_000_000);
    lemma_mul_div_le(t2, 616_851_000_000, u2, 1_000_000_000_000, 1_000_000_000_000);
    vstd::arithmetic::div_mod::lemma_div_pos_is_pos((t2 * u2) / 1_000_000_000_000, 42);
    vstd::arithmetic::div_mod::lemma_div_is_ordered((t2 * u2) / 1_000_000_000_000, 616_851_000_000, 42);
    let u3 = 1_000_000_000_000 - ((t2 * u2) / 1_000_000_000_000) / 42;
    assert(0 <= u3 <= 1_000_000_000_000);
    lemma_mul_div_le(t2, 616_851_000_000, u3, 1_000_000_000_000, 1_000_000_000_000);
    vstd::arithmetic::div_mod::lemma_div_pos_is_pos((t2 * u3) / 1_000_000_000_000, 20);
    vstd::arithmetic::div_mod::lemma_div_is_ordered((t2 * u3) / 1_000_000_000_000, 616_851_000_000, 20);
    let u4 = 1_000_000_000_000 - ((t2 * u3) / 1_000_000_000_000) / 20;
    assert(0 <= u4 <= 1_000_000_000_000);
    lemma_mul_div_le(t2, 616_851_000_000, u4, 1_000_000_000_000, 1_000_000_000_000);
    vstd::arithmetic::div_mod::lemma_div_pos_is_pos((t2 * u4) / 1_000_000_000_000, 6);
    vstd::arithmetic::div_mod::lemma_div_is_ordered((t2 * u4) / 1_000_000_000_000, 616_851_000_000, 6);
    let u5 = 1_000_000_000_000 - ((t2 * u4) / 1_000_000_000_000) / 6;
    assert(0 <= u5 <= 1_000_000_000_000);
    lemma_mul_div_le(th, 785_398_163_398, u5, 1_000_000_000_000, 1_000_000_000_000);
    assert(0 <= spec_sin_kernel(t) <= 785_398_163_398);

    vstd::arithmetic::div_mod::lemma_div_pos_is_pos(t2, 90);
    vstd::arithmetic::div_mod::lemma_div_is_ordered(t2, 616_851_000_000, 90);
    let v1 = 1_000_000_000_000 - t2 / 90;
    assert(0 <= v1 <= 1_000_000_000_000);
    lemma_mul_div_le(t2, 616_851_000_000, v1, 1_000_000_000_000, 1_000_000_000_000);
    vstd::arithmetic::div_mod::lemma_div_pos_is_pos((t2 * v1) / 1_000_000_000_000, 56);
    vstd::arithmetic::div_mod::lemma_div_is_ordered((t2 * v1) / 1_000_000_000_000, 616_851_000_000, 56);
    let v2 = 1_000_000_000_000 - ((t2 * v1) / 1_000_000_000_000) / 56;
    assert(0 <= v2 <= 1_000_000_000_000);
    lemma_mul_div_le(t2, 616_851_000_000, v2, 1_000_000_000_000, 1_000_000_000_000);
    vstd::arithmetic::div_mod::lemma_div_pos_is_pos((t2 * v2) / 1_000_000_000_000, 30);
    vstd::arithmetic::div_mod::lemma_div_is_ordered((t2 * v2) / 1_000_000_000_000, 616_851_000_000, 30);
    let v3 = 1_000_000_000_000 - ((t2 * v2) / 1_000_000_000_000) / 30;
    assert(0 <= v3 <= 1_000_000_000_000);
    lemma_mul_div_le(t2, 616_851_000_000, v3, 1_000_000_000_000, 1_000_000_000_000);
    vstd::arithmetic::div_mod::lemma_div_pos_is_pos((t2 * v3) / 1_000_000_000_000, 12);
    vstd::arithmetic::div_mod::lemma_div_is_ordered((t2 * v3) / 1_000_000_000_000, 616_851_000_000, 12);
    let v4 = 1_000_000_000_000 - ((t2 * v3) / 1_000_000_000_000) / 12;
    assert(0 <= v4 <= 1_000_000_000_000);
    lemma_mul_div_le(t2, 616_851_000_000, v4, 1_000_000_000_000, 1_000_000_000_000);
    vstd::arithmetic::div_mod::lemma_div_pos_is_pos((t2 * v4) / 1_000_000_000_000, 2);
    vstd::arithmetic::div_mod::lemma_div_is_ordered((t2 * v4) / 1_000_000_000_000, 616_851_000_000, 2);
    assert(690_000_000_000 <= spec_cos_kernel(t) <= 1_000_000_000_000);
}

/// Bounds of the quadrant sine and of the full sine: within `[-Q, Q]`.
pub proof fn lemma_sin_quadrant_bounds(t: int)
    requires
        0 <= t <= 90_000_000,
    ensures
        0 <= spec_sin_quadrant(t) <= 1_000_000_000_000,
{
    if t <= 45_000_000 {
        lemma_kernel_bounds(t);
    } else {
        lemma_kernel_bounds(90_000_000 - t);
    }
}

/// Sine of zero is exactly zero, and of 90 degrees exactly one.
pub proof fn lemma_sin_exact_points()
    ensures
        spec_sin_q(0) == 0,
        spec_sin_q(90_000_000) == 1_000_000_000_000,
        spec_cos_q(0) == 1_000_000_000_000,
{
    assert(angle::norm_360(0) == 0);
    assert((0 as int) * 17_453_292_519_943 / 1_000_000_000 == 0);
    assert(spec_sin_kernel(0) == 0);
    assert(angle::norm_360(90_000_000) == 90_000_000);
    assert(spec_cos_kernel(0) == 1_000_000_000_000);
    assert(spec_sin_q(90_000_000) == spec_sin_quadrant(90_000_000));
    assert(spec_cos_q(0) == spec_sin_q(90_000_000));
}

/// Octant sine kernel, executable mirror of `spec_sin_kernel`.
fn sin_kernel(t: i64) -> (r: i64)
    requires
        0 <= t <= 45_000_000,
    ensures
        r == spec_sin_kernel(t as int),
        0 <= r <= 785_398_163_398,
{
    proof {
        lemma_kernel_bounds(t as int);
        lemma_mul_le(t as int, 45_000_000, 17_453_292_519_943, 17_453_292_519_943);
    }
    let th: u128 = (t as u128) * 17_453_292_519_943 / 1_000_000_000;
    proof {
        assert(th <= 785_398_163_398);
        assert(th * th <= 785_398_163_398 * 785_398_163_398) by (nonlinear_arith)
            requires th <= 785_398_163_398;
    }
    let t2: u128 = th * th / 1_000_000_000_000;
    proof {
        assert(t2 <= 616_851_000_000);
    }
    let u1: u128 = 1_000_000_000_000 - t2 / 110;
    proof {
        assert(t2 * u1 <= 616_851_000_000 * 1_000_000_000_000) by (nonlinear_arith)
            requires t2 <= 616_851_000_000, u1 <= 1_000_000_000_000;
        assert(t2 * u1 / 1_000_000_000_000 / 72 <= 1_000_000_000_000);
    }
    let u2: u128 = 1_000_000_000_000 - t2 * u1 / 1_000_000_000_000 / 72;
    proof {
        assert(t2 * u2 <= 616_851_000_000 * 1_000_000_000_000) by (nonlinear_arith)
            requires t2 <= 616_851_000_000, u2 <= 1_000_000_000_000;
        assert(t2 * u2 / 1_000_000_000_000 / 42 <= 1_000_000_000_000);
    }
    let u3: u128 = 1_000_000_000_000 - t2 * u2 / 1_000_000_000_000 / 42;
    proof {
        assert(t2 * u3 <= 616_851_000_000 * 1_000_000_000_000) by (nonlinear_arith)
            requires t2 <= 616_851_000_000, u3 <= 1_000_000_000_000;
        assert(t2 * u3 / 1_000_000_000_000 / 20 <= 1_000_000_000_000);
    }
    let u4: u128 = 1_000_000_000_000 - t2 * u3 / 1_000_000_000_000 / 20;
    proof {
        assert(t2 * u4 <= 616_851_000_000 * 1_000_000_000_000) by (nonlinear_arith)
            requires t2 <= 616_851_000_000, u4 <= 1_000_000_000_000;
        assert(t2 * u4 / 1_000_000_000_000 / 6 <= 1_000_000_000_000);
    }
    let u5: u128 = 1_000_000_000_000 - t2 * u4 / 1_000_000_000_000 / 6;
    proof {
        assert(th * u5 <= 785_398_163_398 * 1_000_000_000_000) by (nonlinear_arith)
            requires th <= 785_398_163_398, u5 <= 1_000_000_000_000;
    }
    (th * u5 / 1_000_000_000_000) as i64
}

/// Octant cosine kernel, executable mirror of `spec_cos_kernel`.
fn cos_kernel(t: i64) -> (r: i64)
    requires
        0 <= t <= 45_000_000,
    ensures
        r == spec_cos_kernel(t as int),
        690_000_000_000 <= r <= 1_000_000_000_000,
{
    proof {
        lemma_kernel_bounds(t as int);
        lemma_mul_le(t as int, 45_000_000, 17_453_292_519_943, 17_453_292_519_943);
    }
    let th: u128 = (t as u128) * 17_453_292_519_943 / 1_000_000_000;
    proof {
        assert(th <= 785_398_163_398);
        assert(th * th <= 785_398_163_398 * 785_398_163_398) by (nonlinear_arith)
            requires th <= 785_398_163_398;
    }
    let t2: u128 = th * th / 1_000_000_000_000;
    proof {
        assert(t2 <= 616_851_000_000);
    }
    let v1: u128 = 1_000_000_000_000 - t2 / 90;
    proof {
        assert(t2 * v1 <= 616_851_000_000 * 1_000_000_000_000) by (nonlinear_arith)
            requires t2 <= 616_851_000_000, v1 <= 1_000_000_000_000;
        assert(t2 * v1 / 1_000_000_000_000 / 56 <= 1_000_000_000_000);
    }
    let v2: u128 = 1_000_000_000_000 - t2 * v1 / 1_000_000_000_000 / 56;
    proof {
        assert(t2 * v2 <= 616_851_000_000 * 1_000_000_000_000) by (nonlinear_arith)
            requires t2 <= 616_851_000_000, v2 <= 1_000_000_000_000;
        assert(t2 * v2 / 1_000_000_000_000 / 30 <= 1_000_000_000_000);
    }
    let v3: u128 = 1_000_000_000_000 - t2 * v2 / 1_000_000_000_000 / 30;
    proof {
        assert(t2 * v3 <= 616_851_000_000 * 1_000_000_000_000) by (nonlinear_arith)
            requires t2 <= 616_851_000_000, v3 <= 1_000_000_000_000;
        assert(t2 * v3 / 1_000_000_000_000 / 12 <= 1_000_000_000_000);
    }
    let v4: u128 = 1_000_000_000_000 - t2 * v3 / 1_000_000_000_000 / 12;
    proof {
        assert(t2 * v4 <= 616_851_000_000 * 1_000_000_000_000) by (nonlinear_arith)
            requires t2 <= 616_851_000_000, v4 <= 1_000_000_000_000;
        assert(t2 * v4 / 1_000_000_000_000 / 2 <= 1_000_000_000_000);
    }
    (1_000_000_000_000 - t2 * v4 / 1_000_000_000_000 / 2) as i64
}

/// Sine on one quadrant.
fn sin_quadrant(t: i64) -> (r: i64)
    requires
        0 <= t <= 90_000_000,
    ensures
        r == spec_sin_quadrant(t as int),
        0 <= r <= Q,
{
    let r = if t <= 45_000_000 {
        sin_kernel(t)
    } else {
        cos_kernel(90_000_000 - t)
    };
    r
}

/// Sine of an angle in micro-degrees; result in `Q` units of `[-1, 1]`.
pub fn sin_q(x: i64) -> (r: i64)
    ensures
        r == spec_sin_q(x as int),
        -Q <= r <= Q,
{
    let n = angle::normalize_deg(x);
    if n <= 90_000_000 {
        sin_quadrant(n)
    } else if n <= 180_000_000 {
        sin_quadrant(180_000_000 - n)
    } else if n <= 270_000_000 {
        -sin_quadrant(n - 180_000_000)
    } else {
        -sin_quadrant(360_000_000 - n)
    }
}

/// Cosine of an angle in micro-degrees; result in `Q` units of `[-1, 1]`.
pub fn cos_q(x: i64) -> (r: i64)
    ensures
        r == spec_cos_q(x as int),
        -Q <= r <= Q,
{
    let n = angle::normalize_deg(x);
    sin_q(n + 90_000_000)
}

/// The integer square root, defined recursively so that executable code
/// can be pinned to it exactly.
pub open spec fn spec_isqrt(n: int) -> int
    decreases n,
{
    if n <= 0 {
        0
    } else {
        let p = spec_isqrt(n - 1);
        if (p + 1) * (p + 1) <= n {
            p + 1
        } else {
            p
        }
    }
}

/// The defining property of `spec_isqrt`.
pub proof fn lemma_spec_isqrt_bounds(n: int)
    requires
        n >= 0,
    ensures
        0 <= spec_isqrt(n),
        spec_isqrt(n) * spec_isqrt(n) <= n,
        (spec_isqrt(n) + 1) * (spec_isqrt(n) + 1) > n,
    decreases n,
{
    if n == 0 {
        assert(spec_isqrt(0) == 0);
    } else {
        lemma_spec_isqrt_bounds(n - 1);
        let p = spec_isqrt(n - 1);
        if (p + 1) * (p + 1) <= n {
            assert((p + 2) * (p + 2) > n) by (nonlinear_arith)
                requires
                    (p + 1) * (p + 1) > n - 1,
                    p >= 0;
        }
    }
}

/// Any integer with the square-root property is the square root.
pub proof fn lemma_isqrt_unique(n: int, r: int)
    requires
        n >= 0,
        r >= 0,
        r * r <= n,
        (r + 1) * (r + 1) > n,
    ensures
        r == spec_isqrt(n),
{
    lemma_spec_isqrt_bounds(n);
    let s = spec_isqrt(n);
    assert(r == s) by (nonlinear_arith)
        requires
            r * r <= n,
            (r + 1) * (r + 1) > n,
            s * s <= n,
            (s + 1) * (s + 1) > n,
            r >= 0,
            s >= 0;
}

/// Integer square root with an exact contract.
pub fn isqrt_u128(n: u128) -> (r: u64)
    ensures
        (r as int) * (r as int) <= n as int,
        ((r as int) + 1) * ((r as int) + 1) > n as int,
        r as int == spec_isqrt(n as int),
{
    let mut lo: u128 = 0;
    let mut hi: u128 = if n >= 0xffff_ffff_ffff_ffff {
        0x1_0000_0000_0000_0000
    } else {
        n + 1
    };
    proof {
        assert((0x1_0000_0000_0000_0000 as int) * (0x1_0000_0000_0000_0000 as int) > u128::MAX as int) by (nonlinear_arith);
        if n < 0xffff_ffff_ffff_ffff {
            assert((n as int + 1) * (n as int + 1) > n as int) by (nonlinear_arith)
                requires n >= 0;
        }
    }
    while hi - lo > 1
        invariant
            0 <= lo < hi <= 0x1_0000_0000_0000_0000,
            (lo as int) * (lo as int) <= n as int,
            (hi as int) * (hi as int) > n as int,
        decreases hi - lo,
    {
        let mid = lo + (hi - lo) / 2;
        proof {
            assert(mid * mid <= 0xffff_ffff_ffff_ffff * 0x1_0000_0000_0000_0000) by (nonlinear_arith)
                requires mid <= 0xffff_ffff_ffff_ffff;
        }
        if mid * mid <= n {
            lo = mid;
        } else {
            hi = mid;
        }
    }
    proof {
        lemma_isqrt_unique(n as int, lo as int);
    }
    lo as u64
}

/// Integer square root over `i128`, same exact contract.
pub fn isqrt_i128(n: i128) -> (r: i128)
    requires
        n >= 0,
    ensures
        0 <= r,
        r * r <= n,
        (r + 1) * (r + 1) > n,
        r as int == spec_isqrt(n as int),
{
    let u = isqrt_u128(n as u128);
    let r = u as i128;
    proof {
        assert((n as u128) as int == n as int);
        assert((u as int) * (u as int) == (r as int) * (r as int)) by (nonlinear_arith)
            requires u as int == r as int;
        assert(((u as int) + 1) * ((u as int) + 1) == ((r as int) + 1) * ((r as int) + 1)) by (nonlinear_arith)
            requires u as int == r as int;
    }
    r
}

/// Exact model of the arc tangent Taylor kernel below.
pub open spec fn spec_atan_kernel(w: int) -> int {
    let w2 = (w * w) / 1_000_000_000_000;
    let p3 = (w * w2) / 1_000_000_000_000;
    let p5 = (p3 * w2) / 1_000_000_000_000;
    let p7 = (p5 * w2) / 1_000_000_000_000;
    let p9 = (p7 * w2) / 1_000_000_000_000;
    let p11 = (p9 * w2) / 1_000_000_000_000;
    let rad = (w - p3 / 3) + (p5 / 5 - p7 / 7) + (p9 / 9 - p11 / 11);
    (rad * 57_295_779_513_082) / 1_000_000_000_000_000_000
}

/// Exact model of `atan_unit`: the kernel after the half-angle reduction.
pub open spec fn spec_atan_unit(z: int) -> int {
    if z > 414_213_562_373 {
        45_000_000 - spec_atan_kernel(((1_000_000_000_000 - z) * 1_000_000_000_000) / (
        1_000_000_000_000 + z))
    } else {
        spec_atan_kernel(z)
    }
}

/// Exact model of the non-negative arc tangent ratio.
pub open spec fn spec_atan_ratio_nonneg(num: int, den: int) -> int {
    if num == 0 {
        0
    } else if num <= den {
        spec_atan_unit((num * 1_000_000_000_000) / den)
    } else {
        90_000_000 - spec_atan_unit((den * 1_000_000_000_000) / num)
    }
}

/// Exact model of the signed arc tangent ratio.
pub open spec fn spec_atan_ratio(num: int, den: int) -> int {
    if num >= 0 {
        spec_atan_ratio_nonneg(num, den)
    } else {
        -spec_atan_ratio_nonneg(-num, den)
    }
}

/// Exact model of the two-argument arc tangent.
pub open spec fn spec_atan2(y: int, x: int) -> int {
    if y == 0 {
        if x >= 0 {
            0
        } else {
            180_000_000
        }
    } else if x == 0 {
        if y > 0 {
            90_000_000
        } else {
            -90_000_000
        }
    } else if x > 0 {
        if y > 0 {
            spec_atan_ratio_nonneg(y, x)
        } else {
            -spec_atan_ratio_nonneg(-y, x)
        }
    } else {
        if y > 0 {
            180_000_000 - spec_atan_ratio_nonneg(y, -x)
        } else {
            -(180_000_000 - spec_atan_ratio_nonneg(-y, -x))
        }
    }
}

/// Exact model of the arc sine of a clamped unit value.
pub open spec fn spec_asin(s: int) -> int {
    let c = if s > 1_000_000_000_000 {
        1_000_000_000_000
    } else if s < -1_000_000_000_000 {
        -1_000_000_000_000
    } else {
        s
    };
    if c == 0 {
        0
    } else {
        let a = if c >= 0 {
            c
        } else {
            -c
        };
        let den = spec_isqrt(1_000_000_000_000_000_000_000_000 - a * a);
        if den == 0 {
            if c > 0 {
                90_000_000
            } else {
                -90_000_000
            }
        } else {
            if c > 0 {
                spec_atan_ratio_nonneg(a, den)
            } else {
                -spec_atan_ratio_nonneg(a, den)
            }
        }
    }
}

/// Exact model of the arc cosine.
pub open spec fn spec_acos(c: int) -> int {
    90_000_000 - spec_asin(c)
}

/// Arc tangent of `z` in `Q` units with `0 <= z <= Q`; micro-degrees in
/// `[0, 45_000_000]`.  Taylor series after a half-angle style reduction.
fn atan_unit(z: i64) -> (r: i64)
    requires
        0 <= z <= Q,
    ensures
        r == spec_atan_unit(z as int),
        0 <= r <= 45_000_000,
{
    if z > 414_213_562_373 {
        let w: u128 = ((Q - z) as u128) * 1_000_000_000_000 / ((Q + z) as u128);
        proof {
            assert(((Q - z) as u128 as int) * 1_000_000_000_000 / ((Q + z) as u128 as int)
                <= 414_213_562_374) by (nonlinear_arith)
                requires 414_213_562_373 < z <= 1_000_000_000_000;
        }
        let k = atan_kernel(w as i64);
        45_000_000 - k
    } else {
        atan_kernel(z)
    }
}

/// Arc tangent Taylor kernel for `0 <= w <= 0.41422 * Q`; micro-degrees.
fn atan_kernel(w: i64) -> (r: i64)
    requires
        0 <= w <= 414_213_562_374,
    ensures
        r == spec_atan_kernel(w as int),
        0 <= r <= 24_000_000,
{
    let wu = w as u128;
    proof {
        assert(wu * wu <= 414_213_562_374 * 414_213_562_374) by (nonlinear_arith)
            requires wu <= 414_213_562_374;
    }
    let w2: u128 = wu * wu / 1_000_000_000_000;
    proof {
        assert(w2 <= 171_573_000_000);
        assert(wu * w2 <= 414_213_562_374 * 171_573_000_000) by (nonlinear_arith)
            requires wu <= 414_213_562_374, w2 <= 171_573_000_000;
    }
    let p3: u128 = wu * w2 / 1_000_000_000_000;
    proof {
        assert(p3 <= 71_100_000_000);
        assert(p3 * w2 <= 71_100_000_000 * 171_573_000_000) by (nonlinear_arith)
            requires p3 <= 71_100_000_000, w2 <= 171_573_000_000;
    }
    let p5: u128 = p3 * w2 / 1_000_000_000_000;
    proof {
        assert(p5 <= 12_200_000_000);
        assert(p5 * w2 <= 12_200_000_000 * 171_573_000_000) by (nonlinear_arith)
            requires p5 <= 12_200_000_000, w2 <= 171_573_000_000;
    }
    let p7: u128 = p5 * w2 / 1_000_000_000_000;
    proof {
        assert(p7 <= 2_100_000_000);
        assert(p7 * w2 <= 2_100_000_000 * 171_573_000_000) by (nonlinear_arith)
            requires p7 <= 2_100_000_000, w2 <= 171_573_000_000;
    }
    let p9: u128 = p7 * w2 / 1_000_000_000_000;
    proof {
        assert(p9 <= 361_000_000);
        assert(p9 * w2 <= 361_000_000 * 171_573_000_000) by (nonlinear_arith)
            requires p9 <= 361_000_000, w2 <= 171_573_000_000;
    }
    let p11: u128 = p9 * w2 / 1_000_000_000_000;
    proof {
        assert(p11 <= 62_000_000);
        assert(p3 / 3 <= wu) by (nonlinear_arith)
            requires p3 == wu * w2 / 1_000_000_000_000, w2 <= 1_000_000_000_000, wu >= 0;
        assert(p7 / 7 <= p5 / 5) by (nonlinear_arith)
            requires p7 == p5 * w2 / 1_000_000_000_000, w2 <= 1_000_000_000_000, p5 >= 0;
        assert(p11 / 11 <= p9 / 9) by (nonlinear_arith)
            requires p11 == p9 * w2 / 1_000_000_000_000, w2 <= 1_000_000_000_000, p9 >= 0;
    }
    // Alternating partial sums: group as (p1 - p3/3) + (p5/5 - p7/7) + (p9/9 - p11/11),
    // each group non-negative because the powers shrink.
    let g1: u128 = wu - p3 / 3;
    let g2: u128 = p5 / 5 - p7 / 7;
    let g3: u128 = p9 / 9 - p11 / 11;
    let rad: u128 = g1 + g2 + g3;
    proof {
        assert(rad <= 416_693_562_374);
        assert(rad * 57_295_779_513_082 <= 416_693_562_374 * 57_295_779_513_082) by (nonlinear_arith)
            requires rad <= 416_693_562_374;
    }
    let udeg: u128 = rad * 57_295_779_513_082 / 1_000_000_000_000_000_000;
    proof {
        assert(udeg <= 24_000_000);
    }
    udeg as i64
}

/// Arc tangent of the ratio `num / den` for `den > 0`; micro-degrees in
/// `[-90_000_000, 90_000_000]`, with the sign of `num`.
pub fn atan_ratio(num: i64, den: i64) -> (r: i64)
    requires
        den > 0,
        num > i64::MIN,
    ensures
        r == spec_atan_ratio(num as int, den as int),
        -90_000_000 <= r <= 90_000_000,
        num >= 0 ==> r >= 0,
        num <= 0 ==> r <= 0,
        num == 0 ==> r == 0,
{
    if num >= 0 {
        atan_ratio_nonneg(num, den)
    } else {
        -atan_ratio_nonneg(-num, den)
    }
}

/// Arc tangent of a non-negative ratio.
fn atan_ratio_nonneg(num: i64, den: i64) -> (r: i64)
    requires
        num >= 0,
        den > 0,
    ensures
        r == spec_atan_ratio_nonneg(num as int, den as int),
        0 <= r <= 90_000_000,
        num == 0 ==> r == 0,
{
    if num == 0 {
        return 0;
    }
    if num <= den {
        let z: u128 = (num as u128) * 1_000_000_000_000 / (den as u128);
        proof {
            assert((num as u128 as int) * 1_000_000_000_000 / (den as u128 as int)
                <= 1_000_000_000_000) by (nonlinear_arith)
                requires 0 < num <= den;
        }
        atan_unit(z as i64)
    } else {
        let z: u128 = (den as u128) * 1_000_000_000_000 / (num as u128);
        proof {
            assert((den as u128 as int) * 1_000_000_000_000 / (num as u128 as int)
                <= 1_000_000_000_000) by (nonlinear_arith)
                requires 0 < den < num;
        }
        90_000_000 - atan_unit(z as i64)
    }
}

/// Two-argument arc tangent; micro-degrees in `[-180_000_000, 180_000_000]`.
/// `atan2(0, x)` is `0` for `x >= 0` and `180` degrees for `x < 0`.
pub fn atan2_udeg(y: i64, x: i64) -> (r: i64)
    requires
        y > i64::MIN,
        x > i64::MIN,
    ensures
        r == spec_atan2(y as int, x as int),
        -180_000_000 <= r <= 180_000_000,
        y == 0 && x >= 0 ==> r == 0,
        y == 0 && x < 0 ==> r == 180_000_000,
        y > 0 ==> r >= 0,
        y < 0 ==> r <= 0,
        x >= 0 ==> -90_000_000 <= r <= 90_000_000,
{
    if y == 0 {
        if x >= 0 {
            0
        } else {
            180_000_000
        }
    } else if x == 0 {
        if y > 0 {
            90_000_000
        } else {
            -90_000_000
        }
    } else if x > 0 {
        if y > 0 {
            atan_ratio_nonneg(y, x)
        } else {
            -atan_ratio_nonneg(-y, x)
        }
    } else {
        if y > 0 {
            180_000_000 - atan_ratio_nonneg(y, -x)
        } else {
            -(180_000_000 - atan_ratio_nonneg(-y, -x))
        }
    }
}

/// Arc sine of a value in `Q` units (clamped to `[-1, 1]`); micro-degrees in
/// `[-90_000_000, 90_000_000]`, with the sign of the argument.
pub fn asin_unit(s: i64) -> (r: i64)
    ensures
        r == spec_asin(s as int),
        -90_000_000 <= r <= 90_000_000,
        s >= 0 ==> r >= 0,
        s <= 0 ==> r <= 0,
        s == 0 ==> r == 0,
{
    let c = if s > Q {
        Q
    } else if s < -Q {
        -Q
    } else {
        s
    };
    if c == 0 {
        return 0;
    }
    let a: u128 = if c >= 0 { c as u128 } else { (-c) as u128 };
    proof {
        assert(a * a <= 1_000_000_000_000 * 1_000_000_000_000) by (nonlinear_arith)
            requires a <= 1_000_000_000_000;
        assert((Q as u128) * (Q as u128) == 1_000_000_000_000_000_000_000_000) by (nonlinear_arith);
    }
    let rest: u128 = (Q as u128) * (Q as u128) - a * a;
    let den = isqrt_u128(rest);
    proof {
        assert((den as int) * (den as int) <= 1_000_000_000_000_000_000_000_000);
        assert(den <= 1_000_000_000_000) by (nonlinear_arith)
            requires (den as int) * (den as int) <= 1_000_000_000_000_000_000_000_000;
    }
    if den == 0 {
        if c > 0 {
            90_000_000
        } else {
            -90_000_000
        }
    } else {
        if c > 0 {
            atan_ratio_nonneg(c, den as i64)
        } else {
            -atan_ratio_nonneg(-c, den as i64)
        }
    }
}

/// Arc cosine of a value in `Q` units (clamped to `[-1, 1]`); micro-degrees
/// in `[0, 180_000_000]`.
pub fn acos_unit(c: i64) -> (r: i64)
    ensures
        r == spec_acos(c as int),
        0 <= r <= 180_000_000,
{
    let s = asin_unit(c);
    90_000_000 - s
}

} // verus!
