//! Angles in micro-degrees (1 degree = 1_000_000 units), stored as `i64`.
//!
//! Two normal forms are used throughout the crate: `[0, 360)` degrees for
//! right ascensions and sidereal times, and `(-180, 180]` degrees for signed
//! geographic longitudes.

use vstd::prelude::*;

verus! {

/// Micro-degrees in one degree.
pub const DEG: i64 = 1_000_000;

/// Micro-degrees in a full turn.
pub const TURN: i64 = 360_000_000;

/// Micro-degrees in a half turn.
pub const HALF_TURN: i64 = 180_000_000;

/// Mathematical normal form of an angle: the Euclidean remainder mod 360°,
/// always in `[0, 360°)`.
pub open spec fn norm_360(x: int) -> int {
    x % 360_000_000
}

/// Mathematical signed normal form: the unique representative of `x`
/// modulo 360° lying in `(-180°, 180°]`.
pub open spec fn norm_signed(x: int) -> int {
    if norm_360(x) > 180_000_000 {
        norm_360(x) - 360_000_000
    } else {
        norm_360(x)
    }
}

/// Normalize an angle to `[0, 360°)` micro-degrees.
pub fn normalize_deg(x: i64) -> (r: i64)
    ensures
        r == norm_360(x as int),
        0 <= r < TURN,
{
    match x.checked_rem_euclid(TURN) {
        Some(v) => v,
        None => {
            proof {
                assert(false);
            }
            0
        },
    }
}

/// Normalize an angle to the signed form `(-180°, 180°]` micro-degrees.
pub fn normalize_signed_deg(x: i64) -> (r: i64)
    ensures
        r == norm_signed(x as int),
        -HALF_TURN < r <= HALF_TURN,
{
    let n = normalize_deg(x);
    if n > HALF_TURN {
        n - TURN
    } else {
        n
    }
}

/// Adding a multiple of a full turn does not change the normal form.
pub proof fn lemma_norm_360_add_turn(x: int, k: int)
    ensures
        norm_360(x + k * 360_000_000) == norm_360(x),
{
    assert((x + k * 360_000_000) % 360_000_000 == x % 360_000_000) by (nonlinear_arith);
}

} // verus!
