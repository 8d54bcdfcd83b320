//! Small helpers for bounded 128-bit fixed-point arithmetic.

use vstd::prelude::*;

verus! {

/// Product of two values with known magnitude bounds.  The bound arguments
/// make the overflow reasoning local: the result's magnitude is at most
/// `ab * bb`.
pub fn mulb(a: i128, ab: i128, b: i128, bb: i128) -> (r: i128)
    requires
        0 <= ab,
        0 <= bb,
        -ab <= a <= ab,
        -bb <= b <= bb,
        ab * bb <= i128::MAX,
    ensures
        r == a * b,
        -(ab * bb) <= r <= ab * bb,
{
    proof {
        assert(-(ab * bb) <= a * b <= ab * bb) by (nonlinear_arith)
            requires -ab <= a <= ab, -bb <= b <= bb, 0 <= ab, 0 <= bb;
    }
    a * b
}

/// Euclidean division by a positive divisor with a magnitude bound carried
/// through: the result lies between `(-xb)/d` and `xb/d`.
pub fn divb(x: i128, xb: i128, d: i128) -> (r: i128)
    requires
        d > 0,
        -xb <= x <= xb,
    ensures
        r == x as int / d as int,
        (-xb) as int / d as int <= r <= xb as int / d as int,
{
    proof {
        vstd::arithmetic::div_mod::lemma_div_is_ordered((-xb) as int, x as int, d as int);
        vstd::arithmetic::div_mod::lemma_div_is_ordered(x as int, xb as int, d as int);
    }
    divc(x, d)
}

/// Product of two unit-scale (`10^12`) values, scaled back down, with
/// magnitude bounds carried through.
pub fn qmulb(a: i128, ab: i128, b: i128, bb: i128) -> (r: i128)
    requires
        0 <= ab,
        0 <= bb,
        -ab <= a <= ab,
        -bb <= b <= bb,
        ab * bb <= i128::MAX,
    ensures
        r == (a * b) / 1_000_000_000_000,
        (-(ab * bb)) / 1_000_000_000_000 <= r <= (ab * bb) / 1_000_000_000_000,
{
    let p = mulb(a, ab, b, bb);
    let bound = ab * bb;
    divb(p, bound, 1_000_000_000_000)
}

/// Sign-symmetric division: the quotient of the magnitudes, carrying the
/// dividend's sign.
pub open spec fn spec_divv(x: int, d: int) -> int {
    if x >= 0 {
        x / d
    } else {
        -((-x) / d)
    }
}

/// Magnitude-bounded division by a variable divisor with a known positive
/// lower bound.  The quotient is computed on the magnitude of `x`, so the
/// result is symmetric in sign and bounded by `xb / dmin`.
pub fn divv(x: i128, xb: i128, d: i128, dmin: i128) -> (r: i128)
    requires
        0 < dmin <= d,
        0 <= xb,
        -xb <= x <= xb,
    ensures
        r == spec_divv(x as int, d as int),
        -(xb / dmin) <= r <= xb / dmin,
{
    let neg = x < 0;
    let ax: i128 = if neg {
        -x
    } else {
        x
    };
    let q = divc(ax, d);
    proof {
        vstd::arithmetic::div_mod::lemma_div_is_ordered(ax as int, xb as int, d as int);
        vstd::arithmetic::div_mod::lemma_div_is_ordered_by_denominator(xb as int, dmin as int, d as int);
    }
    if neg {
        -q
    } else {
        q
    }
}

/// Euclidean division by a positive divisor, with the spec-level `/`
/// as its exact result.
pub fn divc(x: i128, d: i128) -> (r: i128)
    requires
        d > 0,
    ensures
        r == x as int / d as int,
        x >= 0 ==> 0 <= r <= x,
        x <= 0 ==> x <= r <= 0,
{
    proof {
        vstd::arithmetic::div_mod::lemma_fundamental_div_mod(x as int, d as int);
        let q = x as int / d as int;
        let m = x as int % d as int;
        assert(0 <= m < d);
        if x >= 0 {
            assert(0 <= q <= x) by (nonlinear_arith)
                requires x == d * q + m, 0 <= m < d, d > 0, x >= 0;
        } else {
            assert(x <= q <= 0) by (nonlinear_arith)
                requires x == d * q + m, 0 <= m < d, d > 0, x <= 0;
        }
    }
    match x.checked_div_euclid(d) {
        Some(v) => v,
        None => {
            proof {
                assert(false);
            }
            0
        },
    }
}

} // verus!
