//! House cusps of the simple systems, the ascendant and midheaven, and
//! the Lahiri ayanamsa.  The iterative quadrant systems live with the
//! chart adapters outside the verified core; these are the closed-form
//! pieces.

use vstd::prelude::*;
use crate::angle;
use crate::calendar;
use crate::fixmath::{divb, mulb, qmulb};
use crate::frames;
use crate::trig;

verus! {

/// Twelve equal houses from the ascendant: each cusp thirty degrees on.
pub fn calculate_equal_houses(asc_udeg: i64) -> (r: Vec<i64>)
    requires
        0 <= asc_udeg < angle::TURN,
    ensures
        r@.len() == 12,
        forall|i: int|
            0 <= i < 12 ==> #[trigger] r@[i] == angle::norm_360(asc_udeg + i * 30_000_000),
{
    let mut cusps: Vec<i64> = Vec::new();
    let mut i: i64 = 0;
    while i < 12
        invariant
            0 <= i <= 12,
            cusps@.len() == i,
            0 <= asc_udeg < angle::TURN,
            forall|j: int|
                0 <= j < i ==> #[trigger] cusps@[j] == angle::norm_360(asc_udeg + j * 30_000_000),
        decreases 12 - i,
    {
        cusps.push(angle::normalize_deg(asc_udeg + i * 30_000_000));
        i = i + 1;
    }
    cusps
}

/// Whole-sign houses: the first cusp is the start of the ascendant's
/// sign, the rest follow sign by sign.
pub fn calculate_whole_sign_houses(asc_udeg: i64) -> (r: Vec<i64>)
    requires
        0 <= asc_udeg < angle::TURN,
    ensures
        r@.len() == 12,
        forall|i: int|
            0 <= i < 12 ==> #[trigger] r@[i] == angle::norm_360(
                (asc_udeg / 30_000_000) * 30_000_000 + i * 30_000_000,
            ),
{
    let first = (asc_udeg / 30_000_000) * 30_000_000;
    proof {
        assert(0 <= asc_udeg / 30_000_000 < 12);
    }
    let mut cusps: Vec<i64> = Vec::new();
    let mut i: i64 = 0;
    while i < 12
        invariant
            0 <= i <= 12,
            cusps@.len() == i,
            0 <= first <= 330_000_000,
            first == (asc_udeg / 30_000_000) * 30_000_000,
            forall|j: int|
                0 <= j < i ==> #[trigger] cusps@[j] == angle::norm_360(first + j * 30_000_000),
        decreases 12 - i,
    {
        cusps.push(angle::normalize_deg(first + i * 30_000_000));
        i = i + 1;
    }
    cusps
}

/// Porphyry houses: each quadrant between the angles divided into equal
/// thirds.
pub fn calculate_porphyry_houses(asc_udeg: i64, mc_udeg: i64) -> (r: Vec<i64>)
    requires
        0 <= asc_udeg < angle::TURN,
        0 <= mc_udeg < angle::TURN,
    ensures
        r@.len() == 12,
        forall|i: int| 0 <= i < 12 ==> 0 <= #[trigger] r@[i] < angle::TURN,
        r@[0] == asc_udeg,
        r@[9] == mc_udeg,
{
    let ic = angle::normalize_deg(mc_udeg + 180_000_000);
    let dsc = angle::normalize_deg(asc_udeg + 180_000_000);
    let q1 = angle::normalize_deg(asc_udeg - mc_udeg);
    let q2 = angle::normalize_deg(ic - asc_udeg);
    let q3 = angle::normalize_deg(dsc - ic);
    let q4 = angle::normalize_deg(mc_udeg - dsc);
    let mut cusps: Vec<i64> = Vec::new();
    cusps.push(asc_udeg);
    cusps.push(angle::normalize_deg(asc_udeg + q2 / 3));
    cusps.push(angle::normalize_deg(asc_udeg + 2 * (q2 / 3)));
    cusps.push(ic);
    cusps.push(angle::normalize_deg(ic + q3 / 3));
    cusps.push(angle::normalize_deg(ic + 2 * (q3 / 3)));
    cusps.push(dsc);
    cusps.push(angle::normalize_deg(dsc + q4 / 3));
    cusps.push(angle::normalize_deg(dsc + 2 * (q4 / 3)));
    cusps.push(mc_udeg);
    cusps.push(angle::normalize_deg(mc_udeg + q1 / 3));
    cusps.push(angle::normalize_deg(mc_udeg + 2 * (q1 / 3)));
    cusps
}

/// Ecliptic longitude of the ascendant for a local sidereal time, a
/// geographic latitude and the true obliquity, micro-degrees in
/// `[0, 360)` degrees.
pub fn calculate_ascendant(lst_udeg: i64, lat_udeg: i64, obliquity_udeg: i64) -> (r: i64)
    requires
        0 <= lst_udeg < angle::TURN,
        -90_000_000 <= lat_udeg <= 90_000_000,
        0 <= obliquity_udeg <= 90_000_000,
    ensures
        0 <= r < angle::TURN,
{
    // Clamp the latitude away from the poles where the tangent blows up.
    let lat: i64 = if lat_udeg > 89_900_000 {
        89_900_000
    } else if lat_udeg < -89_900_000 {
        -89_900_000
    } else {
        lat_udeg
    };
    let qb: i128 = 1_000_000_000_000;
    let cos_lst = trig::cos_q(lst_udeg) as i128;
    let sin_lst = trig::sin_q(lst_udeg) as i128;
    let cos_ob = trig::cos_q(obliquity_udeg) as i128;
    let sin_ob = trig::sin_q(obliquity_udeg) as i128;
    let sin_lat = trig::sin_q(lat) as i128;
    let cos_lat_raw = trig::cos_q(lat);
    let cos_lat: i128 = if cos_lat_raw < 1_500_000_000 {
        1_500_000_000
    } else {
        cos_lat_raw as i128
    };
    // tan(lat) in Q units, bounded by the clamp.
    let tan_lat = crate::fixmath::divv(
        mulb(sin_lat, qb, qb, qb),
        1_000_000_000_000_000_000_000_000,
        cos_lat,
        1_500_000_000,
    );
    let x: i128 = -qmulb(sin_lst, qb, cos_ob, qb) - qmulb(tan_lat, 667_000 * qb, sin_ob, qb);
    let y: i128 = cos_lst;
    proof {
        assert(-668_000_000_000_000_000 <= x <= 668_000_000_000_000_000);
    }
    let a = trig::atan2_udeg(y as i64, x as i64);
    angle::normalize_deg(a)
}

/// Ecliptic longitude of the midheaven for a local sidereal time and the
/// true obliquity, micro-degrees in `[0, 360)` degrees.
pub fn calculate_midheaven(lst_udeg: i64, obliquity_udeg: i64) -> (r: i64)
    requires
        0 <= lst_udeg < angle::TURN,
        0 <= obliquity_udeg <= 90_000_000,
    ensures
        0 <= r < angle::TURN,
{
    let qb: i128 = 1_000_000_000_000;
    let y = trig::sin_q(lst_udeg) as i128;
    let x = qmulb(trig::cos_q(lst_udeg) as i128, qb, trig::cos_q(obliquity_udeg) as i128, qb);
    angle::normalize_deg(trig::atan2_udeg(y as i64, x as i64))
}

/// Lahiri ayanamsa in micro-degrees: the mean tropical-to-sidereal shift,
/// a linear precession model.
pub fn calculate_lahiri_ayanamsa(jd_ms: i64) -> (r: i64)
    requires
        frames::FRAMES_MIN_MS <= jd_ms <= frames::FRAMES_MAX_MS,
    ensures
        1_000_000 <= r <= 47_000_000,
{
    let delta: i128 = (jd_ms as i128) - (calendar::J2000_MS as i128);
    // 50.29 arcseconds a year: 0.0139694 degrees, of 365.25-day years.
    let t_micro_centuries = divb(delta * 1_000_000, 50_000_000_000_000_000_000, 3_155_760_000_000);
    // 1.39694 degrees per century = 1_396_940 micro-degrees per century.
    let drift = divb(
        mulb(t_micro_centuries, 16_000_000, 1_396_940, 1_396_940),
        22_351_040_000_000,
        1_000_000,
    );
    (23_852_500 + drift) as i64
}

} // verus!
