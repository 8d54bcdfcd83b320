//! Geocentric ecliptic positions of the twelve bodies and their
//! conversion to equatorial coordinates.
//!
//! The Moon follows the ELP2000-derived periodic terms (sixty in longitude,
//! sixty in latitude, with the classical planetary corrections), Pluto the
//! analytical 43-term theory, Chiron a Kepler solution on slowly varying
//! elements with first-order giant-planet perturbations, and the true lunar
//! node the mean-node polynomial plus its wobble series.  The Sun and the
//! planets Mercury through Neptune enter through heliocentric spherical
//! coordinates supplied by the caller, so this module stays a pure function
//! of plain values.
//!
//! Angles are `i64` micro-degrees; distances `i64` nano-astronomical-units.

use vstd::prelude::*;
use crate::angle;
use crate::calendar;
use crate::fixmath::{divb, divc, divv, mulb, qmulb};
use crate::frames;
use crate::timescale;
use crate::trig;

verus! {

/// The twelve bodies.
#[derive(Clone, Copy, Debug, PartialEq, Eq, Structural)]
pub enum Planet {
    Sun,
    Moon,
    Mercury,
    Venus,
    Mars,
    Jupiter,
    Saturn,
    Uranus,
    Neptune,
    Pluto,
    Chiron,
    NorthNode,
}

/// Whether a body's geocentric position is derived from caller-supplied
/// heliocentric coordinates (the Sun mirrors the Earth; the planets
/// subtract the Earth) rather than computed from the date alone.
pub open spec fn spec_needs_heliocentric(planet: Planet) -> bool {
    match planet {
        Planet::Moon | Planet::Pluto | Planet::Chiron | Planet::NorthNode => false,
        _ => true,
    }
}

/// Executable twin of `spec_needs_heliocentric`.
pub fn needs_heliocentric(planet: Planet) -> (r: bool)
    ensures
        r == spec_needs_heliocentric(planet),
{
    match planet {
        Planet::Moon | Planet::Pluto | Planet::Chiron | Planet::NorthNode => false,
        _ => true,
    }
}

/// A heliocentric spherical position: ecliptic longitude and latitude in
/// micro-degrees, radius in nano-astronomical-units.
#[derive(Clone, Copy, Debug, PartialEq, Eq, Structural)]
pub struct HelioPosition {
    pub lon_udeg: i64,
    pub lat_udeg: i64,
    pub r_nano_au: i64,
}

impl HelioPosition {
    /// Latitude in range and a radius below fifty astronomical units.
    pub open spec fn wf(self) -> bool {
        &&& -90_000_000 <= self.lat_udeg <= 90_000_000
        &&& 0 <= self.r_nano_au <= 50_000_000_000
        &&& -360_000_000 <= self.lon_udeg <= 720_000_000
    }
}

/// A geocentric ecliptic position in micro-degrees.
#[derive(Clone, Copy, Debug, PartialEq, Eq, Structural)]
pub struct EclipticPosition {
    pub lon_udeg: i64,
    pub lat_udeg: i64,
}

impl EclipticPosition {
    /// Longitude normalized, latitude within the poles.
    pub open spec fn wf(self) -> bool {
        &&& 0 <= self.lon_udeg < 360_000_000
        &&& -90_000_000 <= self.lat_udeg <= 90_000_000
    }
}

/// An equatorial position in micro-degrees, with the ecliptic longitude of
/// the same instant retained for aspect work.
#[derive(Clone, Copy, Debug, PartialEq, Eq, Structural)]
pub struct PlanetaryPosition {
    pub planet: Planet,
    pub right_ascension_udeg: i64,
    pub declination_udeg: i64,
    pub ecliptic_longitude_udeg: i64,
}

impl PlanetaryPosition {
    /// The equatorial range invariant: right ascension in `[0, 360)`
    /// degrees and declination in `[-90, 90]` degrees.
    pub open spec fn wf(self) -> bool {
        &&& 0 <= self.right_ascension_udeg < 360_000_000
        &&& -90_000_000 <= self.declination_udeg <= 90_000_000
        &&& 0 <= self.ecliptic_longitude_udeg < 360_000_000
    }

    /// Make a position from its parts.
    pub fn new(planet: Planet, ra_udeg: i64, dec_udeg: i64, ecl_lon_udeg: i64) -> (r: PlanetaryPosition)
        ensures
            r.planet == planet,
            r.right_ascension_udeg == ra_udeg,
            r.declination_udeg == dec_udeg,
            r.ecliptic_longitude_udeg == ecl_lon_udeg,
    {
        PlanetaryPosition {
            planet,
            right_ascension_udeg: ra_udeg,
            declination_udeg: dec_udeg,
            ecliptic_longitude_udeg: ecl_lon_udeg,
        }
    }
}


/// Exact model of one lunar series term: the coefficient, scaled by the
/// eccentricity factor where the solar-anomaly multiplier calls for it,
/// times the sine of the element combination (micro-degrees times 10^12).
pub open spec fn spec_lunar_term(
    dm: int,
    mm: int,
    mpm: int,
    fm: int,
    c: int,
    d: int,
    m: int,
    mp: int,
    f: int,
    e9: int,
    e2_9: int,
) -> int {
    let arg = dm * d + mm * m + mpm * mp + fm * f;
    let eff = if mm == 1 || mm == -1 {
        e9
    } else if mm == 2 || mm == -2 {
        e2_9
    } else {
        1_000_000_000
    };
    ((c * eff) / 1_000_000_000) * trig::spec_sin_q(arg)
}

/// Exact model of `moon_lon_chunk_0`.
pub open spec fn spec_moon_lon_chunk_0(d: int, m: int, mp: int, f: int, e9: int, e2_9: int) -> int {
    spec_lunar_term(0, 0, 1, 0, 6288774, d, m, mp, f, e9, e2_9) + spec_lunar_term(2, 0, -1, 0, 1274027, d, m, mp, f, e9, e2_9) + spec_lunar_term(2, 0, 0, 0, 658314, d, m, mp, f, e9, e2_9) + spec_lunar_term(0, 0, 2, 0, 213618, d, m, mp, f, e9, e2_9) + spec_lunar_term(0, 1, 0, 0, -185116, d, m, mp, f, e9, e2_9) + spec_lunar_term(0, 0, 0, 2, -114332, d, m, mp, f, e9, e2_9) + spec_lunar_term(2, 0, -2, 0, 58793, d, m, mp, f, e9, e2_9) + spec_lunar_term(2, -1, -1, 0, 57066, d, m, mp, f, e9, e2_9) + spec_lunar_term(2, 0, 1, 0, 53322, d, m, mp, f, e9, e2_9) + spec_lunar_term(2, -1, 0, 0, 45758, d, m, mp, f, e9, e2_9) + spec_lunar_term(0, 1, -1, 0, -40923, d, m, mp, f, e9, e2_9) + spec_lunar_term(1, 0, 0, 0, -34720, d, m, mp, f, e9, e2_9) + spec_lunar_term(0, 1, 1, 0, -30383, d, m, mp, f, e9, e2_9) + spec_lunar_term(2, 0, 0, -2, 15327, d, m, mp, f, e9, e2_9) + spec_lunar_term(0, 0, 1, 2, -12528, d, m, mp, f, e9, e2_9)
}

/// Exact model of `moon_lon_chunk_1`.
pub open spec fn spec_moon_lon_chunk_1(d: int, m: int, mp: int, f: int, e9: int, e2_9: int) -> int {
    spec_lunar_term(0, 0, 1, -2, 10980, d, m, mp, f, e9, e2_9) + spec_lunar_term(4, 0, -1, 0, 10675, d, m, mp, f, e9, e2_9) + spec_lunar_term(0, 0, 3, 0, 10034, d, m, mp, f, e9, e2_9) + spec_lunar_term(4, 0, -2, 0, 8548, d, m, mp, f, e9, e2_9) + spec_lunar_term(2, 1, -1, 0, -7888, d, m, mp, f, e9, e2_9) + spec_lunar_term(2, 1, 0, 0, -6766, d, m, mp, f, e9, e2_9) + spec_lunar_term(1, 0, -1, 0, -5163, d, m, mp, f, e9, e2_9) + spec_lunar_term(1, 1, 0, 0, 4987, d, m, mp, f, e9, e2_9) + spec_lunar_term(2, -1, 1, 0, 4036, d, m, mp, f, e9, e2_9) + spec_lunar_term(2, 0, 2, 0, 3994, d, m, mp, f, e9, e2_9) + spec_lunar_term(4, 0, 0, 0, 3861, d, m, mp, f, e9, e2_9) + spec_lunar_term(2, 0, -3, 0, 3665, d, m, mp, f, e9, e2_9) + spec_lunar_term(0, 1, -2, 0, -2689, d, m, mp, f, e9, e2_9) + spec_lunar_term(2, 0, -1, 2, -2602, d, m, mp, f, e9, e2_9) + spec_lunar_term(2, -1, -2, 0, 2390, d, m, mp, f, e9, e2_9)
}

/// Exact model of `moon_lon_chunk_2`.
pub open spec fn spec_moon_lon_chunk_2(d: int, m: int, mp: int, f: int, e9: int, e2_9: int) -> int {
    spec_lunar_term(1, 0, 1, 0, -2348, d, m, mp, f, e9, e2_9) + spec_lunar_term(2, -2, 0, 0, 2236, d, m, mp, f, e9, e2_9) + spec_lunar_term(0, 1, 2, 0, -2120, d, m, mp, f, e9, e2_9) + spec_lunar_term(0, 2, 0, 0, -2069, d, m, mp, f, e9, e2_9) + spec_lunar_term(2, -2, -1, 0, 2048, d, m, mp, f, e9, e2_9) + spec_lunar_term(2, 0, 1, -2, -1773, d, m, mp, f, e9, e2_9) + spec_lunar_term(2, 0, 0, 2, -1595, d, m, mp, f, e9, e2_9) + spec_lunar_term(4, -1, -1, 0, 1215, d, m, mp, f, e9, e2_9) + spec_lunar_term(0, 0, 2, 2, -1110, d, m, mp, f, e9, e2_9) + spec_lunar_term(3, 0, -1, 0, -892, d, m, mp, f, e9, e2_9) + spec_lunar_term(2, 1, 1, 0, -810, d, m, mp, f, e9, e2_9) + spec_lunar_term(4, -1, -2, 0, 759, d, m, mp, f, e9, e2_9) + spec_lunar_term(0, 2, -1, 0, -713, d, m, mp, f, e9, e2_9) + spec_lunar_term(2, 2, -1, 0, -700, d, m, mp, f, e9, e2_9) + spec_lunar_term(2, 1, -2, 0, 691, d, m, mp, f, e9, e2_9)
}

/// Exact model of `moon_lon_chunk_3`.
pub open spec fn spec_moon_lon_chunk_3(d: int, m: int, mp: int, f: int, e9: int, e2_9: int) -> int {
    spec_lunar_term(2, -1, 0, -2, 596, d, m, mp, f, e9, e2_9) + spec_lunar_term(4, 0, 1, 0, 549, d, m, mp, f, e9, e2_9) + spec_lunar_term(0, 0, 4, 0, 537, d, m, mp, f, e9, e2_9) + spec_lunar_term(4, -1, 0, 0, 520, d, m, mp, f, e9, e2_9) + spec_lunar_term(1, 0, -2, 0, -487, d, m, mp, f, e9, e2_9) + spec_lunar_term(2, 1, 0, -2, -399, d, m, mp, f, e9, e2_9) + spec_lunar_term(0, 0, 2, -2, -381, d, m, mp, f, e9, e2_9) + spec_lunar_term(1, 1, 1, 0, 351, d, m, mp, f, e9, e2_9) + spec_lunar_term(3, 0, -2, 0, -340, d, m, mp, f, e9, e2_9) + spec_lunar_term(4, 0, -3, 0, 330, d, m, mp, f, e9, e2_9) + spec_lunar_term(2, -1, 2, 0, 327, d, m, mp, f, e9, e2_9) + spec_lunar_term(0, 2, 1, 0, -323, d, m, mp, f, e9, e2_9) + spec_lunar_term(1, 1, -1, 0, 299, d, m, mp, f, e9, e2_9) + spec_lunar_term(2, 0, 3, 0, 294, d, m, mp, f, e9, e2_9)
}

/// Exact model of `moon_lat_chunk_0`.
pub open spec fn spec_moon_lat_chunk_0(d: int, m: int, mp: int, f: int, e9: int, e2_9: int) -> int {
    spec_lunar_term(0, 0, 0, 1, 5128122, d, m, mp, f, e9, e2_9) + spec_lunar_term(0, 0, 1, 1, 280602, d, m, mp, f, e9, e2_9) + spec_lunar_term(0, 0, 1, -1, 277693, d, m, mp, f, e9, e2_9) + spec_lunar_term(2, 0, 0, -1, 173237, d, m, mp, f, e9, e2_9) + spec_lunar_term(2, 0, -1, 1, 55413, d, m, mp, f, e9, e2_9) + spec_lunar_term(2, 0, -1, -1, 46271, d, m, mp, f, e9, e2_9) + spec_lunar_term(2, 0, 0, 1, 32573, d, m, mp, f, e9, e2_9) + spec_lunar_term(0, 0, 2, 1, 17198, d, m, mp, f, e9, e2_9) + spec_lunar_term(2, 0, 1, -1, 9266, d, m, mp, f, e9, e2_9) + spec_lunar_term(0, 0, 2, -1, 8822, d, m, mp, f, e9, e2_9) + spec_lunar_term(2, -1, 0, -1, 8216, d, m, mp, f, e9, e2_9) + spec_lunar_term(2, 0, -2, -1, 4324, d, m, mp, f, e9, e2_9) + spec_lunar_term(2, 0, 1, 1, 4200, d, m, mp, f, e9, e2_9) + spec_lunar_term(2, 1, 0, -1, -3359, d, m, mp, f, e9, e2_9) + spec_lunar_term(2, -1, -1, 1, 2463, d, m, mp, f, e9, e2_9)
}

/// Exact model of `moon_lat_chunk_1`.
pub open spec fn spec_moon_lat_chunk_1(d: int, m: int, mp: int, f: int, e9: int, e2_9: int) -> int {
    spec_lunar_term(2, -1, 0, 1, 2211, d, m, mp, f, e9, e2_9) + spec_lunar_term(2, -1, -1, -1, 2065, d, m, mp, f, e9, e2_9) + spec_lunar_term(0, 1, -1, -1, -1870, d, m, mp, f, e9, e2_9) + spec_lunar_term(4, 0, -1, -1, 1828, d, m, mp, f, e9, e2_9) + spec_lunar_term(0, 1, 0, 1, -1794, d, m, mp, f, e9, e2_9) + spec_lunar_term(0, 0, 0, 3, -1749, d, m, mp, f, e9, e2_9) + spec_lunar_term(0, 1, -1, 1, -1565, d, m, mp, f, e9, e2_9) + spec_lunar_term(1, 0, 0, 1, -1491, d, m, mp, f, e9, e2_9) + spec_lunar_term(0, 1, 1, 1, -1475, d, m, mp, f, e9, e2_9) + spec_lunar_term(0, 1, 1, -1, -1410, d, m, mp, f, e9, e2_9) + spec_lunar_term(0, 1, 0, -1, -1344, d, m, mp, f, e9, e2_9) + spec_lunar_term(1, 0, 0, -1, -1335, d, m, mp, f, e9, e2_9) + spec_lunar_term(0, 0, 3, 1, 1107, d, m, mp, f, e9, e2_9) + spec_lunar_term(4, 0, 0, -1, 1021, d, m, mp, f, e9, e2_9) + spec_lunar_term(4, 0, -1, 1, 833, d, m, mp, f, e9, e2_9)
}

/// Exact model of `moon_lat_chunk_2`.
pub open spec fn spec_moon_lat_chunk_2(d: int, m: int, mp: int, f: int, e9: int, e2_9: int) -> int {
    spec_lunar_term(0, 0, 1, -3, 777, d, m, mp, f, e9, e2_9) + spec_lunar_term(4, 0, -2, 1, 671, d, m, mp, f, e9, e2_9) + spec_lunar_term(2, 0, 0, -3, 607, d, m, mp, f, e9, e2_9) + spec_lunar_term(2, 0, 2, -1, 596, d, m, mp, f, e9, e2_9) + spec_lunar_term(2, -1, 1, -1, 491, d, m, mp, f, e9, e2_9) + spec_lunar_term(2, 0, -2, 1, -451, d, m, mp, f, e9, e2_9) + spec_lunar_term(0, 0, 3, -1, 439, d, m, mp, f, e9, e2_9) + spec_lunar_term(2, 0, 2, 1, 422, d, m, mp, f, e9, e2_9) + spec_lunar_term(2, 0, -3, -1, 421, d, m, mp, f, e9, e2_9) + spec_lunar_term(2, 1, -1, 1, -366, d, m, mp, f, e9, e2_9) + spec_lunar_term(2, 1, 0, 1, -351, d, m, mp, f, e9, e2_9) + spec_lunar_term(4, 0, 0, 1, 331, d, m, mp, f, e9, e2_9) + spec_lunar_term(2, -1, 1, 1, 315, d, m, mp, f, e9, e2_9) + spec_lunar_term(2, -2, 0, -1, 302, d, m, mp, f, e9, e2_9) + spec_lunar_term(0, 0, 1, 3, -283, d, m, mp, f, e9, e2_9)
}

/// Exact model of `moon_lat_chunk_3`.
pub open spec fn spec_moon_lat_chunk_3(d: int, m: int, mp: int, f: int, e9: int, e2_9: int) -> int {
    spec_lunar_term(2, 1, 1, -1, -229, d, m, mp, f, e9, e2_9) + spec_lunar_term(1, 1, 0, -1, 223, d, m, mp, f, e9, e2_9) + spec_lunar_term(1, 1, 0, 1, 223, d, m, mp, f, e9, e2_9) + spec_lunar_term(0, 1, -2, -1, -220, d, m, mp, f, e9, e2_9) + spec_lunar_term(2, 1, -1, -1, -220, d, m, mp, f, e9, e2_9) + spec_lunar_term(1, 0, 1, 1, -185, d, m, mp, f, e9, e2_9) + spec_lunar_term(2, -1, -2, -1, 181, d, m, mp, f, e9, e2_9) + spec_lunar_term(0, 1, 2, 1, -177, d, m, mp, f, e9, e2_9) + spec_lunar_term(4, 0, -2, -1, 176, d, m, mp, f, e9, e2_9) + spec_lunar_term(4, -1, -1, -1, 166, d, m, mp, f, e9, e2_9) + spec_lunar_term(1, 0, 1, -1, -164, d, m, mp, f, e9, e2_9) + spec_lunar_term(4, 0, 1, -1, 132, d, m, mp, f, e9, e2_9) + spec_lunar_term(1, 0, -1, -1, -119, d, m, mp, f, e9, e2_9) + spec_lunar_term(4, -1, 0, -1, 115, d, m, mp, f, e9, e2_9) + spec_lunar_term(2, -2, 0, 1, 107, d, m, mp, f, e9, e2_9)
}

/// One periodic term of the lunar series: the coefficient `c` (micro-degrees,
/// bounded by `cb`) times the sine of the integer combination of the mean
/// elements, scaled by the eccentricity factor when the solar anomaly
/// multiplier is non-zero.  Result is in micro-degrees times `10^12`.
#[verifier::rlimit(30)]
fn lunar_term(
    dm: i64,
    mm: i64,
    mpm: i64,
    fm: i64,
    c: i64,
    cb: i64,
    d: i64,
    m: i64,
    mp: i64,
    f: i64,
    e9: i128,
    e2_9: i128,
) -> (r: i128)
    requires
        -4 <= dm <= 4,
        -2 <= mm <= 2,
        -4 <= mpm <= 4,
        -3 <= fm <= 3,
        100 <= cb <= 7_000_000,
        -cb <= c <= cb,
        -35_000_000_000_000 <= d <= 35_000_000_000_000,
        -35_000_000_000_000 <= m <= 35_000_000_000_000,
        -35_000_000_000_000 <= mp <= 35_000_000_000_000,
        -35_000_000_000_000 <= f <= 35_000_000_000_000,
        950_000_000 <= e9 <= 1_050_000_000,
        900_000_000 <= e2_9 <= 1_103_000_000,
    ensures
        r == spec_lunar_term(
            dm as int,
            mm as int,
            mpm as int,
            fm as int,
            c as int,
            d as int,
            m as int,
            mp as int,
            f as int,
            e9 as int,
            e2_9 as int,
        ),
        -(cb as int) * 1_150_000_000_000 <= r <= (cb as int) * 1_150_000_000_000,
{
    let arg128: i128 = mulb(dm as i128, 4, d as i128, 35_000_000_000_000)
        + mulb(mm as i128, 2, m as i128, 35_000_000_000_000)
        + mulb(mpm as i128, 4, mp as i128, 35_000_000_000_000)
        + mulb(fm as i128, 3, f as i128, 35_000_000_000_000);
    let s = trig::sin_q(arg128 as i64) as i128;
    let eff: i128 = if mm == 1 || mm == -1 {
        e9
    } else if mm == 2 || mm == -2 {
        e2_9
    } else {
        1_000_000_000
    };
    let ce_num = mulb(c as i128, cb as i128, eff, 1_103_000_000);
    let ce = divb(ce_num, (cb as i128) * 1_103_000_000, 1_000_000_000);
    let bound_ce = divc((cb as i128) * 1_103_000_000, 1_000_000_000);
    mulb(ce, bound_ce + 1, s, 1_000_000_000_000)
}


/// A block of the lunar periodic series; result bounded by the sum of its
/// coefficient magnitudes (micro-degrees times 10^12).
#[verifier::rlimit(100)]
#[verifier::spinoff_prover]
fn moon_lon_chunk_0(d: i64, m: i64, mp: i64, f: i64, e9: i128, e2_9: i128) -> (r: i128)
    requires
        -35_000_000_000_000 <= d <= 35_000_000_000_000,
        -35_000_000_000_000 <= m <= 35_000_000_000_000,
        -35_000_000_000_000 <= mp <= 35_000_000_000_000,
        -35_000_000_000_000 <= f <= 35_000_000_000_000,
        950_000_000 <= e9 <= 1_050_000_000,
        900_000_000 <= e2_9 <= 1_103_000_000,
    ensures
        r == spec_moon_lon_chunk_0(d as int, m as int, mp as int, f as int, e9 as int, e2_9 as int),
        -10445451150000000000 <= r <= 10445451150000000000,
{
    let mut acc: i128 = 0;
    acc = acc + lunar_term(0, 0, 1, 0, 6288774, 6288774, d, m, mp, f, e9, e2_9);
    acc = acc + lunar_term(2, 0, -1, 0, 1274027, 1274027, d, m, mp, f, e9, e2_9);
    acc = acc + lunar_term(2, 0, 0, 0, 658314, 658314, d, m, mp, f, e9, e2_9);
    acc = acc + lunar_term(0, 0, 2, 0, 213618, 213618, d, m, mp, f, e9, e2_9);
    acc = acc + lunar_term(0, 1, 0, 0, -185116, 185116, d, m, mp, f, e9, e2_9);
    acc = acc + lunar_term(0, 0, 0, 2, -114332, 114332, d, m, mp, f, e9, e2_9);
    acc = acc + lunar_term(2, 0, -2, 0, 58793, 58793, d, m, mp, f, e9, e2_9);
    acc = acc + lunar_term(2, -1, -1, 0, 57066, 57066, d, m, mp, f, e9, e2_9);
    acc = acc + lunar_term(2, 0, 1, 0, 53322, 53322, d, m, mp, f, e9, e2_9);
    acc = acc + lunar_term(2, -1, 0, 0, 45758, 45758, d, m, mp, f, e9, e2_9);
    acc = acc + lunar_term(0, 1, -1, 0, -40923, 40923, d, m, mp, f, e9, e2_9);
    acc = acc + lunar_term(1, 0, 0, 0, -34720, 34720, d, m, mp, f, e9, e2_9);
    acc = acc + lunar_term(0, 1, 1, 0, -30383, 30383, d, m, mp, f, e9, e2_9);
    acc = acc + lunar_term(2, 0, 0, -2, 15327, 15327, d, m, mp, f, e9, e2_9);
    acc = acc + lunar_term(0, 0, 1, 2, -12528, 12528, d, m, mp, f, e9, e2_9);
    acc
}

/// A block of the lunar periodic series; result bounded by the sum of its
/// coefficient magnitudes (micro-degrees times 10^12).
#[verifier::rlimit(100)]
#[verifier::spinoff_prover]
fn moon_lon_chunk_1(d: i64, m: i64, mp: i64, f: i64, e9: i128, e2_9: i128) -> (r: i128)
    requires
        -35_000_000_000_000 <= d <= 35_000_000_000_000,
        -35_000_000_000_000 <= m <= 35_000_000_000_000,
        -35_000_000_000_000 <= mp <= 35_000_000_000_000,
        -35_000_000_000_000 <= f <= 35_000_000_000_000,
        950_000_000 <= e9 <= 1_050_000_000,
        900_000_000 <= e2_9 <= 1_103_000_000,
    ensures
        r == spec_moon_lon_chunk_1(d as int, m as int, mp as int, f as int, e9 as int, e2_9 as int),
        -101519700000000000 <= r <= 101519700000000000,
{
    let mut acc: i128 = 0;
    acc = acc + lunar_term(0, 0, 1, -2, 10980, 10980, d, m, mp, f, e9, e2_9);
    acc = acc + lunar_term(4, 0, -1, 0, 10675, 10675, d, m, mp, f, e9, e2_9);
    acc = acc + lunar_term(0, 0, 3, 0, 10034, 10034, d, m, mp, f, e9, e2_9);
    acc = acc + lunar_term(4, 0, -2, 0, 8548, 8548, d, m, mp, f, e9, e2_9);
    acc = acc + lunar_term(2, 1, -1, 0, -7888, 7888, d, m, mp, f, e9, e2_9);
    acc = acc + lunar_term(2, 1, 0, 0, -6766, 6766, d, m, mp, f, e9, e2_9);
    acc = acc + lunar_term(1, 0, -1, 0, -5163, 5163, d, m, mp, f, e9, e2_9);
    acc = acc + lunar_term(1, 1, 0, 0, 4987, 4987, d, m, mp, f, e9, e2_9);
    acc = acc + lunar_term(2, -1, 1, 0, 4036, 4036, d, m, mp, f, e9, e2_9);
    acc = acc + lunar_term(2, 0, 2, 0, 3994, 3994, d, m, mp, f, e9, e2_9);
    acc = acc + lunar_term(4, 0, 0, 0, 3861, 3861, d, m, mp, f, e9, e2_9);
    acc = acc + lunar_term(2, 0, -3, 0, 3665, 3665, d, m, mp, f, e9, e2_9);
    acc = acc + lunar_term(0, 1, -2, 0, -2689, 2689, d, m, mp, f, e9, e2_9);
    acc = acc + lunar_term(2, 0, -1, 2, -2602, 2602, d, m, mp, f, e9, e2_9);
    acc = acc + lunar_term(2, -1, -2, 0, 2390, 2390, d, m, mp, f, e9, e2_9);
    acc
}

/// A block of the lunar periodic series; result bounded by the sum of its
/// coefficient magnitudes (micro-degrees times 10^12).
#[verifier::rlimit(100)]
#[verifier::spinoff_prover]
fn moon_lon_chunk_2(d: i64, m: i64, mp: i64, f: i64, e9: i128, e2_9: i128) -> (r: i128)
    requires
        -35_000_000_000_000 <= d <= 35_000_000_000_000,
        -35_000_000_000_000 <= m <= 35_000_000_000_000,
        -35_000_000_000_000 <= mp <= 35_000_000_000_000,
        -35_000_000_000_000 <= f <= 35_000_000_000_000,
        950_000_000 <= e9 <= 1_050_000_000,
        900_000_000 <= e2_9 <= 1_103_000_000,
    ensures
        r == spec_moon_lon_chunk_2(d as int, m as int, mp as int, f as int, e9 as int, e2_9 as int),
        -24240850000000000 <= r <= 24240850000000000,
{
    let mut acc: i128 = 0;
    acc = acc + lunar_term(1, 0, 1, 0, -2348, 2348, d, m, mp, f, e9, e2_9);
    acc = acc + lunar_term(2, -2, 0, 0, 2236, 2236, d, m, mp, f, e9, e2_9);
    acc = acc + lunar_term(0, 1, 2, 0, -2120, 2120, d, m, mp, f, e9, e2_9);
    acc = acc + lunar_term(0, 2, 0, 0, -2069, 2069, d, m, mp, f, e9, e2_9);
    acc = acc + lunar_term(2, -2, -1, 0, 2048, 2048, d, m, mp, f, e9, e2_9);
    acc = acc + lunar_term(2, 0, 1, -2, -1773, 1773, d, m, mp, f, e9, e2_9);
    acc = acc + lunar_term(2, 0, 0, 2, -1595, 1595, d, m, mp, f, e9, e2_9);
    acc = acc + lunar_term(4, -1, -1, 0, 1215, 1215, d, m, mp, f, e9, e2_9);
    acc = acc + lunar_term(0, 0, 2, 2, -1110, 1110, d, m, mp, f, e9, e2_9);
    acc = acc + lunar_term(3, 0, -1, 0, -892, 892, d, m, mp, f, e9, e2_9);
    acc = acc + lunar_term(2, 1, 1, 0, -810, 810, d, m, mp, f, e9, e2_9);
    acc = acc + lunar_term(4, -1, -2, 0, 759, 759, d, m, mp, f, e9, e2_9);
    acc = acc + lunar_term(0, 2, -1, 0, -713, 713, d, m, mp, f, e9, e2_9);
    acc = acc + lunar_term(2, 2, -1, 0, -700, 700, d, m, mp, f, e9, e2_9);
    acc = acc + lunar_term(2, 1, -2, 0, 691, 691, d, m, mp, f, e9, e2_9);
    acc
}

/// A block of the lunar periodic series; result bounded by the sum of its
/// coefficient magnitudes (micro-degrees times 10^12).
#[verifier::rlimit(100)]
#[verifier::spinoff_prover]
fn moon_lon_chunk_3(d: i64, m: i64, mp: i64, f: i64, e9: i128, e2_9: i128) -> (r: i128)
    requires
        -35_000_000_000_000 <= d <= 35_000_000_000_000,
        -35_000_000_000_000 <= m <= 35_000_000_000_000,
        -35_000_000_000_000 <= mp <= 35_000_000_000_000,
        -35_000_000_000_000 <= f <= 35_000_000_000_000,
        950_000_000 <= e9 <= 1_050_000_000,
        900_000_000 <= e2_9 <= 1_103_000_000,
    ensures
        r == spec_moon_lon_chunk_3(d as int, m as int, mp as int, f as int, e9 as int, e2_9 as int),
        -6592950000000000 <= r <= 6592950000000000,
{
    let mut acc: i128 = 0;
    acc = acc + lunar_term(2, -1, 0, -2, 596, 596, d, m, mp, f, e9, e2_9);
    acc = acc + lunar_term(4, 0, 1, 0, 549, 549, d, m, mp, f, e9, e2_9);
    acc = acc + lunar_term(0, 0, 4, 0, 537, 537, d, m, mp, f, e9, e2_9);
    acc = acc + lunar_term(4, -1, 0, 0, 520, 520, d, m, mp, f, e9, e2_9);
    acc = acc + lunar_term(1, 0, -2, 0, -487, 487, d, m, mp, f, e9, e2_9);
    acc = acc + lunar_term(2, 1, 0, -2, -399, 399, d, m, mp, f, e9, e2_9);
    acc = acc + lunar_term(0, 0, 2, -2, -381, 381, d, m, mp, f, e9, e2_9);
    acc = acc + lunar_term(1, 1, 1, 0, 351, 351, d, m, mp, f, e9, e2_9);
    acc = acc + lunar_term(3, 0, -2, 0, -340, 340, d, m, mp, f, e9, e2_9);
    acc = acc + lunar_term(4, 0, -3, 0, 330, 330, d, m, mp, f, e9, e2_9);
    acc = acc + lunar_term(2, -1, 2, 0, 327, 327, d, m, mp, f, e9, e2_9);
    acc = acc + lunar_term(0, 2, 1, 0, -323, 323, d, m, mp, f, e9, e2_9);
    acc = acc + lunar_term(1, 1, -1, 0, 299, 299, d, m, mp, f, e9, e2_9);
    acc = acc + lunar_term(2, 0, 3, 0, 294, 294, d, m, mp, f, e9, e2_9);
    acc
}

/// A block of the lunar periodic series; result bounded by the sum of its
/// coefficient magnitudes (micro-degrees times 10^12).
#[verifier::rlimit(100)]
#[verifier::spinoff_prover]
fn moon_lat_chunk_0(d: i64, m: i64, mp: i64, f: i64, e9: i128, e2_9: i128) -> (r: i128)
    requires
        -35_000_000_000_000 <= d <= 35_000_000_000_000,
        -35_000_000_000_000 <= m <= 35_000_000_000_000,
        -35_000_000_000_000 <= mp <= 35_000_000_000_000,
        -35_000_000_000_000 <= f <= 35_000_000_000_000,
        950_000_000 <= e9 <= 1_050_000_000,
        900_000_000 <= e2_9 <= 1_103_000_000,
    ensures
        r == spec_moon_lat_chunk_0(d as int, m as int, mp as int, f as int, e9 as int, e2_9 as int),
        -6959522850000000000 <= r <= 6959522850000000000,
{
    let mut acc: i128 = 0;
    acc = acc + lunar_term(0, 0, 0, 1, 5128122, 5128122, d, m, mp, f, e9, e2_9);
    acc = acc + lunar_term(0, 0, 1, 1, 280602, 280602, d, m, mp, f, e9, e2_9);
    acc = acc + lunar_term(0, 0, 1, -1, 277693, 277693, d, m, mp, f, e9, e2_9);
    acc = acc + lunar_term(2, 0, 0, -1, 173237, 173237, d, m, mp, f, e9, e2_9);
    acc = acc + lunar_term(2, 0, -1, 1, 55413, 55413, d, m, mp, f, e9, e2_9);
    acc = acc + lunar_term(2, 0, -1, -1, 46271, 46271, d, m, mp, f, e9, e2_9);
    acc = acc + lunar_term(2, 0, 0, 1, 32573, 32573, d, m, mp, f, e9, e2_9);
    acc = acc + lunar_term(0, 0, 2, 1, 17198, 17198, d, m, mp, f, e9, e2_9);
    acc = acc + lunar_term(2, 0, 1, -1, 9266, 9266, d, m, mp, f, e9, e2_9);
    acc = acc + lunar_term(0, 0, 2, -1, 8822, 8822, d, m, mp, f, e9, e2_9);
    acc = acc + lunar_term(2, -1, 0, -1, 8216, 8216, d, m, mp, f, e9, e2_9);
    acc = acc + lunar_term(2, 0, -2, -1, 4324, 4324, d, m, mp, f, e9, e2_9);
    acc = acc + lunar_term(2, 0, 1, 1, 4200, 4200, d, m, mp, f, e9, e2_9);
    acc = acc + lunar_term(2, 1, 0, -1, -3359, 3359, d, m, mp, f, e9, e2_9);
    acc = acc + lunar_term(2, -1, -1, 1, 2463, 2463, d, m, mp, f, e9, e2_9);
    acc
}

/// A block of the lunar periodic series; result bounded by the sum of its
/// coefficient magnitudes (micro-degrees times 10^12).
#[verifier::rlimit(100)]
#[verifier::spinoff_prover]
fn moon_lat_chunk_1(d: i64, m: i64, mp: i64, f: i64, e9: i128, e2_9: i128) -> (r: i128)
    requires
        -35_000_000_000_000 <= d <= 35_000_000_000_000,
        -35_000_000_000_000 <= m <= 35_000_000_000_000,
        -35_000_000_000_000 <= mp <= 35_000_000_000_000,
        -35_000_000_000_000 <= f <= 35_000_000_000_000,
        950_000_000 <= e9 <= 1_050_000_000,
        900_000_000 <= e2_9 <= 1_103_000_000,
    ensures
        r == spec_moon_lat_chunk_1(d as int, m as int, mp as int, f as int, e9 as int, e2_9 as int),
        -26562700000000000 <= r <= 26562700000000000,
{
    let mut acc: i128 = 0;
    acc = acc + lunar_term(2, -1, 0, 1, 2211, 2211, d, m, mp, f, e9, e2_9);
    acc = acc + lunar_term(2, -1, -1, -1, 2065, 2065, d, m, mp, f, e9, e2_9);
    acc = acc + lunar_term(0, 1, -1, -1, -1870, 1870, d, m, mp, f, e9, e2_9);
    acc = acc + lunar_term(4, 0, -1, -1, 1828, 1828, d, m, mp, f, e9, e2_9);
    acc = acc + lunar_term(0, 1, 0, 1, -1794, 1794, d, m, mp, f, e9, e2_9);
    acc = acc + lunar_term(0, 0, 0, 3, -1749, 1749, d, m, mp, f, e9, e2_9);
    acc = acc + lunar_term(0, 1, -1, 1, -1565, 1565, d, m, mp, f, e9, e2_9);
    acc = acc + lunar_term(1, 0, 0, 1, -1491, 1491, d, m, mp, f, e9, e2_9);
    acc = acc + lunar_term(0, 1, 1, 1, -1475, 1475, d, m, mp, f, e9, e2_9);
    acc = acc + lunar_term(0, 1, 1, -1, -1410, 1410, d, m, mp, f, e9, e2_9);
    acc = acc + lunar_term(0, 1, 0, -1, -1344, 1344, d, m, mp, f, e9, e2_9);
    acc = acc + lunar_term(1, 0, 0, -1, -1335, 1335, d, m, mp, f, e9, e2_9);
    acc = acc + lunar_term(0, 0, 3, 1, 1107, 1107, d, m, mp, f, e9, e2_9);
    acc = acc + lunar_term(4, 0, 0, -1, 1021, 1021, d, m, mp, f, e9, e2_9);
    acc = acc + lunar_term(4, 0, -1, 1, 833, 833, d, m, mp, f, e9, e2_9);
    acc
}

/// A block of the lunar periodic series; result bounded by the sum of its
/// coefficient magnitudes (micro-degrees times 10^12).
#[verifier::rlimit(100)]
#[verifier::spinoff_prover]
fn moon_lat_chunk_2(d: i64, m: i64, mp: i64, f: i64, e9: i128, e2_9: i128) -> (r: i128)
    requires
        -35_000_000_000_000 <= d <= 35_000_000_000_000,
        -35_000_000_000_000 <= m <= 35_000_000_000_000,
        -35_000_000_000_000 <= mp <= 35_000_000_000_000,
        -35_000_000_000_000 <= f <= 35_000_000_000_000,
        950_000_000 <= e9 <= 1_050_000_000,
        900_000_000 <= e2_9 <= 1_103_000_000,
    ensures
        r == spec_moon_lat_chunk_2(d as int, m as int, mp as int, f as int, e9 as int, e2_9 as int),
        -7846450000000000 <= r <= 7846450000000000,
{
    let mut acc: i128 = 0;
    acc = acc + lunar_term(0, 0, 1, -3, 777, 777, d, m, mp, f, e9, e2_9);
    acc = acc + lunar_term(4, 0, -2, 1, 671, 671, d, m, mp, f, e9, e2_9);
    acc = acc + lunar_term(2, 0, 0, -3, 607, 607, d, m, mp, f, e9, e2_9);
    acc = acc + lunar_term(2, 0, 2, -1, 596, 596, d, m, mp, f, e9, e2_9);
    acc = acc + lunar_term(2, -1, 1, -1, 491, 491, d, m, mp, f, e9, e2_9);
    acc = acc + lunar_term(2, 0, -2, 1, -451, 451, d, m, mp, f, e9, e2_9);
    acc = acc + lunar_term(0, 0, 3, -1, 439, 439, d, m, mp, f, e9, e2_9);
    acc = acc + lunar_term(2, 0, 2, 1, 422, 422, d, m, mp, f, e9, e2_9);
    acc = acc + lunar_term(2, 0, -3, -1, 421, 421, d, m, mp, f, e9, e2_9);
    acc = acc + lunar_term(2, 1, -1, 1, -366, 366, d, m, mp, f, e9, e2_9);
    acc = acc + lunar_term(2, 1, 0, 1, -351, 351, d, m, mp, f, e9, e2_9);
    acc = acc + lunar_term(4, 0, 0, 1, 331, 331, d, m, mp, f, e9, e2_9);
    acc = acc + lunar_term(2, -1, 1, 1, 315, 315, d, m, mp, f, e9, e2_9);
    acc = acc + lunar_term(2, -2, 0, -1, 302, 302, d, m, mp, f, e9, e2_9);
    acc = acc + lunar_term(0, 0, 1, 3, -283, 283, d, m, mp, f, e9, e2_9);
    acc
}

/// A block of the lunar periodic series; result bounded by the sum of its
/// coefficient magnitudes (micro-degrees times 10^12).
#[verifier::rlimit(100)]
#[verifier::spinoff_prover]
fn moon_lat_chunk_3(d: i64, m: i64, mp: i64, f: i64, e9: i128, e2_9: i128) -> (r: i128)
    requires
        -35_000_000_000_000 <= d <= 35_000_000_000_000,
        -35_000_000_000_000 <= m <= 35_000_000_000_000,
        -35_000_000_000_000 <= mp <= 35_000_000_000_000,
        -35_000_000_000_000 <= f <= 35_000_000_000_000,
        950_000_000 <= e9 <= 1_050_000_000,
        900_000_000 <= e2_9 <= 1_103_000_000,
    ensures
        r == spec_moon_lat_chunk_3(d as int, m as int, mp as int, f as int, e9 as int, e2_9 as int),
        -3032550000000000 <= r <= 3032550000000000,
{
    let mut acc: i128 = 0;
    acc = acc + lunar_term(2, 1, 1, -1, -229, 229, d, m, mp, f, e9, e2_9);
    acc = acc + lunar_term(1, 1, 0, -1, 223, 223, d, m, mp, f, e9, e2_9);
    acc = acc + lunar_term(1, 1, 0, 1, 223, 223, d, m, mp, f, e9, e2_9);
    acc = acc + lunar_term(0, 1, -2, -1, -220, 220, d, m, mp, f, e9, e2_9);
    acc = acc + lunar_term(2, 1, -1, -1, -220, 220, d, m, mp, f, e9, e2_9);
    acc = acc + lunar_term(1, 0, 1, 1, -185, 185, d, m, mp, f, e9, e2_9);
    acc = acc + lunar_term(2, -1, -2, -1, 181, 181, d, m, mp, f, e9, e2_9);
    acc = acc + lunar_term(0, 1, 2, 1, -177, 177, d, m, mp, f, e9, e2_9);
    acc = acc + lunar_term(4, 0, -2, -1, 176, 176, d, m, mp, f, e9, e2_9);
    acc = acc + lunar_term(4, -1, -1, -1, 166, 166, d, m, mp, f, e9, e2_9);
    acc = acc + lunar_term(1, 0, 1, -1, -164, 164, d, m, mp, f, e9, e2_9);
    acc = acc + lunar_term(4, 0, 1, -1, 132, 132, d, m, mp, f, e9, e2_9);
    acc = acc + lunar_term(1, 0, -1, -1, -119, 119, d, m, mp, f, e9, e2_9);
    acc = acc + lunar_term(4, -1, 0, -1, 115, 115, d, m, mp, f, e9, e2_9);
    acc = acc + lunar_term(2, -2, 0, 1, 107, 107, d, m, mp, f, e9, e2_9);
    acc
}

/// Exact model of the Moon's mean elements, correction arguments and
/// eccentricity factor.
pub open spec fn spec_moon_elements(jd_tt_ms: int) -> (int, int, int, int, int, int, int, int, int, int) {
    let t = frames::spec_centuries(jd_tt_ms);
    let p2 = t * t;
    let p3 = p2 * t;
    let p4 = p3 * t;
    let lp = 218_316_448 + (48_126_788_123_421 * t) / 100_000_000 - (15_786 * p2)
        / 10_000_000_000_000 + p3 / 538_841_000_000_000_000 - p4
        / 65_194_000_000_000_000_000_000_000;
    let d = 297_850_192 + (44_526_711_140_340 * t) / 100_000_000 - (18_819 * p2)
        / 10_000_000_000_000 + p3 / 545_868_000_000_000_000 - p4
        / 113_065_000_000_000_000_000_000_000;
    let m = 357_529_109 + (3_599_905_029_090 * t) / 100_000_000 - (1_536 * p2)
        / 10_000_000_000_000 + p3 / 24_490_000_000_000_000_000_000_000;
    let mp = 134_963_396 + (47_719_886_750_550 * t) / 100_000_000 + (87_414 * p2)
        / 10_000_000_000_000 + p3 / 69_699_000_000_000_000_000_000 - p4
        / 14_712_000_000_000_000_000_000_000;
    let f = 93_272_095 + (48_320_201_752_330 * t) / 100_000_000 - (36_539 * p2)
        / 10_000_000_000_000 - p3 / 3_526_000_000_000_000_000_000 + p4
        / 863_310_000_000_000_000_000_000_000;
    let a1 = 119_750_000 + (131_849_000 * t) / 1_000_000;
    let a2 = 53_090_000 + (479_264_290_000 * t) / 1_000_000;
    let a3 = 313_450_000 + (481_266_484_000 * t) / 1_000_000;
    let e9 = 1_000_000_000 - (2_516_000 * t) / 1_000_000 - (7_400 * p2) / 1_000_000_000_000;
    let e2_9 = (e9 * e9) / 1_000_000_000;
    (lp, d, m, mp, f, a1, a2, a3, e9, e2_9)
}

/// Exact model of the Moon's geocentric ecliptic position.
pub open spec fn spec_moon_position(jd_tt_ms: int) -> (int, int) {
    let e = spec_moon_elements(jd_tt_ms);
    let lp = e.0;
    let d = e.1;
    let m = e.2;
    let mp = e.3;
    let f = e.4;
    let a1 = e.5;
    let a2 = e.6;
    let a3 = e.7;
    let e9 = e.8;
    let e2_9 = e.9;
    let acc_l = spec_moon_lon_chunk_0(d, m, mp, f, e9, e2_9) + spec_moon_lon_chunk_1(
        d, m, mp, f, e9, e2_9,
    ) + spec_moon_lon_chunk_2(d, m, mp, f, e9, e2_9) + spec_moon_lon_chunk_3(
        d, m, mp, f, e9, e2_9,
    ) + 3958 * trig::spec_sin_q(a1) + 1962 * trig::spec_sin_q(lp - f) + 318 * trig::spec_sin_q(a2);
    let acc_b = spec_moon_lat_chunk_0(d, m, mp, f, e9, e2_9) + spec_moon_lat_chunk_1(
        d, m, mp, f, e9, e2_9,
    ) + spec_moon_lat_chunk_2(d, m, mp, f, e9, e2_9) + spec_moon_lat_chunk_3(
        d, m, mp, f, e9, e2_9,
    ) + (-2235) * trig::spec_sin_q(lp) + 382 * trig::spec_sin_q(a3) + 175 * trig::spec_sin_q(
        a1 - f,
    ) + 175 * trig::spec_sin_q(a1 + f) + 127 * trig::spec_sin_q(lp - mp) + (-115)
        * trig::spec_sin_q(lp + mp);
    let sum_l = acc_l / 1_000_000_000_000;
    let sum_b = acc_b / 1_000_000_000_000;
    (angle::norm_360(lp + sum_l), sum_b)
}

/// Geocentric ecliptic position of the Moon from the ELP2000-style series.
#[verifier::rlimit(100)]
#[verifier::spinoff_prover]
pub fn calculate_moon_position(jd_tt_ms: i64) -> (r: EclipticPosition)
    requires
        frames::FRAMES_MIN_MS <= jd_tt_ms <= frames::FRAMES_MAX_MS,
    ensures
        r.lon_udeg == spec_moon_position(jd_tt_ms as int).0,
        r.lat_udeg == spec_moon_position(jd_tt_ms as int).1,
        r.wf(),
        -7_100_000 <= r.lat_udeg <= 7_100_000,
{
    let t = centuries(jd_tt_ms);
    let p2 = mulb(t, 16_000_000, t, 16_000_000);
    let p3 = mulb(p2, 256_000_000_000_000, t, 16_000_000);
    let p4 = mulb(p3, 4_096_000_000_000_000_000_000, t, 16_000_000);

    // Mean elements, micro-degrees (un-normalized; the sines normalize).
    let lp: i128 = 218_316_448
        + divb(48_126_788_123_421 * t, 770_028_609_974_736_000_000, 100_000_000)
        - divb(15_786 * p2, 4_041_216_000_000_000_000, 10_000_000_000_000)
        + divb(p3, 4_096_000_000_000_000_000_000, 538_841_000_000_000_000)
        - divb(p4, 65_536_000_000_000_000_000_000_000_000, 65_194_000_000_000_000_000_000_000);
    let d_elem: i128 = 297_850_192
        + divb(44_526_711_140_340 * t, 712_427_378_245_440_000_000, 100_000_000)
        - divb(18_819 * p2, 4_817_664_000_000_000_000, 10_000_000_000_000)
        + divb(p3, 4_096_000_000_000_000_000_000, 545_868_000_000_000_000)
        - divb(p4, 65_536_000_000_000_000_000_000_000_000, 113_065_000_000_000_000_000_000_000);
    let m_elem: i128 = 357_529_109
        + divb(3_599_905_029_090 * t, 57_598_480_465_440_000_000, 100_000_000)
        - divb(1_536 * p2, 393_216_000_000_000_000, 10_000_000_000_000)
        + divb(p3, 4_096_000_000_000_000_000_000, 24_490_000_000_000_000_000_000_000);
    let mp_elem: i128 = 134_963_396
        + divb(47_719_886_750_550 * t, 763_518_188_008_800_000_000, 100_000_000)
        + divb(87_414 * p2, 22_377_984_000_000_000_000, 10_000_000_000_000)
        + divb(p3, 4_096_000_000_000_000_000_000, 69_699_000_000_000_000_000_000)
        - divb(p4, 65_536_000_000_000_000_000_000_000_000, 14_712_000_000_000_000_000_000_000);
    let f_elem: i128 = 93_272_095
        + divb(48_320_201_752_330 * t, 773_123_228_037_280_000_000, 100_000_000)
        - divb(36_539 * p2, 9_353_984_000_000_000_000, 10_000_000_000_000)
        - divb(p3, 4_096_000_000_000_000_000_000, 3_526_000_000_000_000_000_000)
        + divb(p4, 65_536_000_000_000_000_000_000_000_000, 863_310_000_000_000_000_000_000_000);
    let a1: i128 = 119_750_000 + divb(131_849_000 * t, 2_109_584_000_000_000, 1_000_000);
    let a2: i128 = 53_090_000 + divb(479_264_290_000 * t, 7_668_228_640_000_000_000, 1_000_000);
    let a3: i128 = 313_450_000 + divb(481_266_484_000 * t, 7_700_263_744_000_000_000, 1_000_000);

    // Eccentricity factor of the Earth's orbit, scaled by 10^9.
    let e9: i128 = 1_000_000_000 - divb(2_516_000 * t, 40_256_000_000_000, 1_000_000)
        - divb(7_400 * p2, 1_894_400_000_000_000_000, 1_000_000_000_000);
    let e2_9: i128 = divb(mulb(e9, 1_050_000_000, e9, 1_050_000_000), 1_102_500_000_000_000_000, 1_000_000_000);
    proof {
        assert(e2_9 >= 900_000_000) by (nonlinear_arith)
            requires
                e9 >= 950_000_000,
                e2_9 == (e9 * e9) / 1_000_000_000;
    }

    let d: i64 = d_elem as i64;
    let m: i64 = m_elem as i64;
    let mp: i64 = mp_elem as i64;
    let f: i64 = f_elem as i64;

    let mut acc_l: i128 = 0;
    acc_l = acc_l + moon_lon_chunk_0(d, m, mp, f, e9, e2_9);
    acc_l = acc_l + moon_lon_chunk_1(d, m, mp, f, e9, e2_9);
    acc_l = acc_l + moon_lon_chunk_2(d, m, mp, f, e9, e2_9);
    acc_l = acc_l + moon_lon_chunk_3(d, m, mp, f, e9, e2_9);
    acc_l = acc_l + mulb(3958, 3958, trig::sin_q(a1 as i64) as i128, 1_000_000_000_000);
    acc_l = acc_l + mulb(1962, 1962, trig::sin_q((lp - f_elem) as i64) as i128, 1_000_000_000_000);
    acc_l = acc_l + mulb(318, 318, trig::sin_q(a2 as i64) as i128, 1_000_000_000_000);

    let mut acc_b: i128 = 0;
    acc_b = acc_b + moon_lat_chunk_0(d, m, mp, f, e9, e2_9);
    acc_b = acc_b + moon_lat_chunk_1(d, m, mp, f, e9, e2_9);
    acc_b = acc_b + moon_lat_chunk_2(d, m, mp, f, e9, e2_9);
    acc_b = acc_b + moon_lat_chunk_3(d, m, mp, f, e9, e2_9);
    acc_b = acc_b + mulb(-2235, 2235, trig::sin_q(lp as i64) as i128, 1_000_000_000_000);
    acc_b = acc_b + mulb(382, 382, trig::sin_q(a3 as i64) as i128, 1_000_000_000_000);
    acc_b = acc_b + mulb(175, 175, trig::sin_q((a1 - f_elem) as i64) as i128, 1_000_000_000_000);
    acc_b = acc_b + mulb(175, 175, trig::sin_q((a1 + f_elem) as i64) as i128, 1_000_000_000_000);
    acc_b = acc_b + mulb(127, 127, trig::sin_q((lp - mp_elem) as i64) as i128, 1_000_000_000_000);
    acc_b = acc_b + mulb(-115, 115, trig::sin_q((lp + mp_elem) as i64) as i128, 1_000_000_000_000);

    let sum_l = divb(acc_l, 10_600_000_000_000_000_000, 1_000_000_000_000);
    let sum_b = divb(acc_b, 7_003_000_000_000_000_000, 1_000_000_000_000);

    let lon = angle::normalize_deg((lp + sum_l) as i64);
    EclipticPosition { lon_udeg: lon, lat_udeg: sum_b as i64 }
}

/// Exact model of one Pluto series row.
pub open spec fn spec_pluto_row(
    jm: int,
    sm: int,
    pm: int,
    jl: int,
    sl: int,
    pl: int,
    ls: int,
    lc: int,
    bs: int,
    bc: int,
) -> (int, int) {
    let arg = jm * jl + sm * sl + pm * pl;
    (
        ls * trig::spec_sin_q(arg) + lc * trig::spec_cos_q(arg),
        bs * trig::spec_sin_q(arg) + bc * trig::spec_cos_q(arg),
    )
}

/// Exact model of Pluto's geocentric ecliptic position.
pub open spec fn spec_pluto_position(jd_tt_ms: int) -> (int, int) {
    let t = frames::spec_centuries(jd_tt_ms);
    let jl = 34_350_000 + (3_034_905_700 * t) / 1_000_000;
    let sl = 50_080_000 + (1_222_113_800 * t) / 1_000_000;
    let pl = 238_960_000 + (144_960_000 * t) / 1_000_000;
    let acc_lon = spec_pluto_rows_0(jl, sl, pl).0 + spec_pluto_rows_1(jl, sl, pl).0
        + spec_pluto_rows_2(jl, sl, pl).0 + spec_pluto_rows_3(jl, sl, pl).0 + spec_pluto_rows_4(
        jl,
        sl,
        pl,
    ).0;
    let acc_lat = spec_pluto_rows_0(jl, sl, pl).1 + spec_pluto_rows_1(jl, sl, pl).1
        + spec_pluto_rows_2(jl, sl, pl).1 + spec_pluto_rows_3(jl, sl, pl).1 + spec_pluto_rows_4(
        jl,
        sl,
        pl,
    ).1;
    let sum_lon = acc_lon / 1_000_000_000_000;
    let sum_lat = acc_lat / 1_000_000_000_000;
    let lon = 238_958_116 + (144_960_000 * t) / 1_000_000 + sum_lon;
    let lat = -3_908_239 + sum_lat;
    let lat_clamped = if lat > 90_000_000 {
        90_000_000
    } else if lat < -90_000_000 {
        -90_000_000
    } else {
        lat
    };
    (angle::norm_360(lon), lat_clamped)
}

/// One row of the Pluto series: sine and cosine coefficients for longitude
/// and latitude (micro-degrees, bounded by the `..b` arguments) at the
/// integer combination of the three mean longitudes.
fn pluto_term(
    jm: i64,
    sm: i64,
    pm: i64,
    jl: i64,
    sl: i64,
    pl: i64,
    ls: i64,
    lsb: i64,
    lc: i64,
    lcb: i64,
    bs: i64,
    bsb: i64,
    bc: i64,
    bcb: i64,
) -> (r: (i128, i128))
    requires
        -6 <= jm <= 6,
        -6 <= sm <= 6,
        -6 <= pm <= 6,
        -1_000_000_000_000 <= jl <= 1_000_000_000_000,
        -1_000_000_000_000 <= sl <= 1_000_000_000_000,
        -1_000_000_000_000 <= pl <= 1_000_000_000_000,
        0 <= lsb <= 20_000_000,
        -lsb <= ls <= lsb,
        0 <= lcb <= 20_000_000,
        -lcb <= lc <= lcb,
        0 <= bsb <= 20_000_000,
        -bsb <= bs <= bsb,
        0 <= bcb <= 20_000_000,
        -bcb <= bc <= bcb,
    ensures
        r.0 == spec_pluto_row(
            jm as int, sm as int, pm as int, jl as int, sl as int, pl as int, ls as int, lc as int,
            bs as int, bc as int,
        ).0,
        r.1 == spec_pluto_row(
            jm as int, sm as int, pm as int, jl as int, sl as int, pl as int, ls as int, lc as int,
            bs as int, bc as int,
        ).1,
        -((lsb + lcb) as int) * 1_000_000_000_000 <= r.0 <= ((lsb + lcb) as int) * 1_000_000_000_000,
        -((bsb + bcb) as int) * 1_000_000_000_000 <= r.1 <= ((bsb + bcb) as int) * 1_000_000_000_000,
{
    let arg128: i128 = mulb(jm as i128, 6, jl as i128, 1_000_000_000_000)
        + mulb(sm as i128, 6, sl as i128, 1_000_000_000_000)
        + mulb(pm as i128, 6, pl as i128, 1_000_000_000_000);
    let arg = arg128 as i64;
    let s = trig::sin_q(arg) as i128;
    let c = trig::cos_q(arg) as i128;
    let r_lon = mulb(ls as i128, lsb as i128, s, 1_000_000_000_000)
        + mulb(lc as i128, lcb as i128, c, 1_000_000_000_000);
    let r_lat = mulb(bs as i128, bsb as i128, s, 1_000_000_000_000)
        + mulb(bc as i128, bcb as i128, c, 1_000_000_000_000);
    (r_lon, r_lat)
}

/// Exact model of the matching block of Pluto series rows.
pub open spec fn spec_pluto_rows_0(jl: int, sl: int, pl: int) -> (int, int) {
    (
        spec_pluto_row(0, 0, 1, jl, sl, pl, -19799805, 19850055, -5452852, -14974862).0 + spec_pluto_row(0, 0, 2, jl, sl, pl, 897144, -4954829, 3527812, 1672790).0 + spec_pluto_row(0, 0, 3, jl, sl, pl, 611149, 1211027, -1050748, 327647).0 + spec_pluto_row(0, 0, 4, jl, sl, pl, -341243, -189585, 178690, -292153).0 + spec_pluto_row(0, 0, 5, jl, sl, pl, 129027, -34863, 18650, 100340).0 + spec_pluto_row(0, 0, 6, jl, sl, pl, -38215, 31061, -30594, -25823).0 + spec_pluto_row(0, 1, -1, jl, sl, pl, 20349, -9886, 4965, 11263).0 + spec_pluto_row(0, 1, 0, jl, sl, pl, -4045, -4904, 310, -132).0 + spec_pluto_row(0, 1, 1, jl, sl, pl, -5885, -3238, 2036, -947).0,
        spec_pluto_row(0, 0, 1, jl, sl, pl, -19799805, 19850055, -5452852, -14974862).1 + spec_pluto_row(0, 0, 2, jl, sl, pl, 897144, -4954829, 3527812, 1672790).1 + spec_pluto_row(0, 0, 3, jl, sl, pl, 611149, 1211027, -1050748, 327647).1 + spec_pluto_row(0, 0, 4, jl, sl, pl, -341243, -189585, 178690, -292153).1 + spec_pluto_row(0, 0, 5, jl, sl, pl, 129027, -34863, 18650, 100340).1 + spec_pluto_row(0, 0, 6, jl, sl, pl, -38215, 31061, -30594, -25823).1 + spec_pluto_row(0, 1, -1, jl, sl, pl, 20349, -9886, 4965, 11263).1 + spec_pluto_row(0, 1, 0, jl, sl, pl, -4045, -4904, 310, -132).1 + spec_pluto_row(0, 1, 1, jl, sl, pl, -5885, -3238, 2036, -947).1,
    )
}

/// Exact model of the matching block of Pluto series rows.
pub open spec fn spec_pluto_rows_1(jl: int, sl: int, pl: int) -> (int, int) {
    (
        spec_pluto_row(0, 1, 2, jl, sl, pl, -3812, 3011, -2, -674).0 + spec_pluto_row(0, 1, 3, jl, sl, pl, -601, 3468, -329, -563).0 + spec_pluto_row(0, 2, -2, jl, sl, pl, 1237, 463, -64, 39).0 + spec_pluto_row(0, 2, -1, jl, sl, pl, 1086, -911, -94, 210).0 + spec_pluto_row(0, 2, 0, jl, sl, pl, 595, -1229, -8, -160).0 + spec_pluto_row(1, -1, 0, jl, sl, pl, 2484, -485, -177, 259).0 + spec_pluto_row(1, -1, 1, jl, sl, pl, 839, -1414, 17, 234).0 + spec_pluto_row(1, 0, -3, jl, sl, pl, -964, 1059, 582, -285).0 + spec_pluto_row(1, 0, -2, jl, sl, pl, -2303, -1038, -298, 692).0,
        spec_pluto_row(0, 1, 2, jl, sl, pl, -3812, 3011, -2, -674).1 + spec_pluto_row(0, 1, 3, jl, sl, pl, -601, 3468, -329, -563).1 + spec_pluto_row(0, 2, -2, jl, sl, pl, 1237, 463, -64, 39).1 + spec_pluto_row(0, 2, -1, jl, sl, pl, 1086, -911, -94, 210).1 + spec_pluto_row(0, 2, 0, jl, sl, pl, 595, -1229, -8, -160).1 + spec_pluto_row(1, -1, 0, jl, sl, pl, 2484, -485, -177, 259).1 + spec_pluto_row(1, -1, 1, jl, sl, pl, 839, -1414, 17, 234).1 + spec_pluto_row(1, 0, -3, jl, sl, pl, -964, 1059, 582, -285).1 + spec_pluto_row(1, 0, -2, jl, sl, pl, -2303, -1038, -298, 692).1,
    )
}

/// Exact model of the matching block of Pluto series rows.
pub open spec fn spec_pluto_rows_2(jl: int, sl: int, pl: int) -> (int, int) {
    (
        spec_pluto_row(1, 0, -1, jl, sl, pl, 7049, 747, 157, 201).0 + spec_pluto_row(1, 0, 0, jl, sl, pl, 1179, -358, 304, 825).0 + spec_pluto_row(1, 0, 1, jl, sl, pl, 393, -63, -124, -29).0 + spec_pluto_row(1, 0, 2, jl, sl, pl, 111, -268, 15, 8).0 + spec_pluto_row(1, 0, 3, jl, sl, pl, -52, -154, 7, 15).0 + spec_pluto_row(1, 0, 4, jl, sl, pl, -78, -30, 2, 2).0 + spec_pluto_row(1, 1, -3, jl, sl, pl, -34, -26, 4, 2).0 + spec_pluto_row(1, 1, -2, jl, sl, pl, -43, 1, 3, 0).0 + spec_pluto_row(1, 1, -1, jl, sl, pl, -15, 21, 1, -1).0,
        spec_pluto_row(1, 0, -1, jl, sl, pl, 7049, 747, 157, 201).1 + spec_pluto_row(1, 0, 0, jl, sl, pl, 1179, -358, 304, 825).1 + spec_pluto_row(1, 0, 1, jl, sl, pl, 393, -63, -124, -29).1 + spec_pluto_row(1, 0, 2, jl, sl, pl, 111, -268, 15, 8).1 + spec_pluto_row(1, 0, 3, jl, sl, pl, -52, -154, 7, 15).1 + spec_pluto_row(1, 0, 4, jl, sl, pl, -78, -30, 2, 2).1 + spec_pluto_row(1, 1, -3, jl, sl, pl, -34, -26, 4, 2).1 + spec_pluto_row(1, 1, -2, jl, sl, pl, -43, 1, 3, 0).1 + spec_pluto_row(1, 1, -1, jl, sl, pl, -15, 21, 1, -1).1,
    )
}

/// Exact model of the matching block of Pluto series rows.
pub open spec fn spec_pluto_rows_3(jl: int, sl: int, pl: int) -> (int, int) {
    (
        spec_pluto_row(1, 1, 0, jl, sl, pl, -1, 15, 0, -2).0 + spec_pluto_row(1, 1, 1, jl, sl, pl, 4, 7, 1, 0).0 + spec_pluto_row(1, 1, 3, jl, sl, pl, 1, 5, 1, -1).0 + spec_pluto_row(2, 0, -6, jl, sl, pl, 8, 3, -2, -3).0 + spec_pluto_row(2, 0, -5, jl, sl, pl, -3, 6, 1, 2).0 + spec_pluto_row(2, 0, -4, jl, sl, pl, 6, -13, -8, 2).0 + spec_pluto_row(2, 0, -3, jl, sl, pl, 10, 22, 10, -7).0 + spec_pluto_row(2, 0, -2, jl, sl, pl, -57, -32, 0, 21).0 + spec_pluto_row(2, 0, -1, jl, sl, pl, 157, -46, 8, 5).0,
        spec_pluto_row(1, 1, 0, jl, sl, pl, -1, 15, 0, -2).1 + spec_pluto_row(1, 1, 1, jl, sl, pl, 4, 7, 1, 0).1 + spec_pluto_row(1, 1, 3, jl, sl, pl, 1, 5, 1, -1).1 + spec_pluto_row(2, 0, -6, jl, sl, pl, 8, 3, -2, -3).1 + spec_pluto_row(2, 0, -5, jl, sl, pl, -3, 6, 1, 2).1 + spec_pluto_row(2, 0, -4, jl, sl, pl, 6, -13, -8, 2).1 + spec_pluto_row(2, 0, -3, jl, sl, pl, 10, 22, 10, -7).1 + spec_pluto_row(2, 0, -2, jl, sl, pl, -57, -32, 0, 21).1 + spec_pluto_row(2, 0, -1, jl, sl, pl, 157, -46, 8, 5).1,
    )
}

/// Exact model of the matching block of Pluto series rows.
pub open spec fn spec_pluto_rows_4(jl: int, sl: int, pl: int) -> (int, int) {
    (
        spec_pluto_row(2, 0, 0, jl, sl, pl, 12, -18, 13, 16).0 + spec_pluto_row(2, 0, 1, jl, sl, pl, -4, 8, -2, -3).0 + spec_pluto_row(2, 0, 2, jl, sl, pl, -5, 0, 0, 0).0 + spec_pluto_row(2, 0, 3, jl, sl, pl, 3, 4, 0, 1).0 + spec_pluto_row(3, 0, -2, jl, sl, pl, -1, -1, 0, 1).0 + spec_pluto_row(3, 0, -1, jl, sl, pl, 6, -3, 0, 0).0 + spec_pluto_row(3, 0, 0, jl, sl, pl, -1, -2, 0, 1).0,
        spec_pluto_row(2, 0, 0, jl, sl, pl, 12, -18, 13, 16).1 + spec_pluto_row(2, 0, 1, jl, sl, pl, -4, 8, -2, -3).1 + spec_pluto_row(2, 0, 2, jl, sl, pl, -5, 0, 0, 0).1 + spec_pluto_row(2, 0, 3, jl, sl, pl, 3, 4, 0, 1).1 + spec_pluto_row(3, 0, -2, jl, sl, pl, -1, -1, 0, 1).1 + spec_pluto_row(3, 0, -1, jl, sl, pl, 6, -3, 0, 0).1 + spec_pluto_row(3, 0, 0, jl, sl, pl, -1, -2, 0, 1).1,
    )
}

/// A block of the Pluto series rows.
#[verifier::rlimit(100)]
#[verifier::spinoff_prover]
fn pluto_rows_0(jl: i64, sl: i64, pl: i64) -> (r: (i128, i128))
    requires
        -1_000_000_000_000 <= jl <= 1_000_000_000_000,
        -1_000_000_000_000 <= sl <= 1_000_000_000_000,
        -1_000_000_000_000 <= pl <= 1_000_000_000_000,
    ensures
        r.0 == spec_pluto_rows_0(jl as int, sl as int, pl as int).0,
        r.1 == spec_pluto_rows_0(jl as int, sl as int, pl as int).1,
        -48136310000000000000 <= r.0 <= 48136310000000000000,
        -27672614000000000000 <= r.1 <= 27672614000000000000,
{
    let mut lon: i128 = 0;
    let mut lat: i128 = 0;
    let tp = pluto_term(0, 0, 1, jl, sl, pl, -19799805, 19799805, 19850055, 19850055, -5452852, 5452852, -14974862, 14974862);
    lon = lon + tp.0;
    lat = lat + tp.1;
    let tp = pluto_term(0, 0, 2, jl, sl, pl, 897144, 897144, -4954829, 4954829, 3527812, 3527812, 1672790, 1672790);
    lon = lon + tp.0;
    lat = lat + tp.1;
    let tp = pluto_term(0, 0, 3, jl, sl, pl, 611149, 611149, 1211027, 1211027, -1050748, 1050748, 327647, 327647);
    lon = lon + tp.0;
    lat = lat + tp.1;
    let tp = pluto_term(0, 0, 4, jl, sl, pl, -341243, 341243, -189585, 189585, 178690, 178690, -292153, 292153);
    lon = lon + tp.0;
    lat = lat + tp.1;
    let tp = pluto_term(0, 0, 5, jl, sl, pl, 129027, 129027, -34863, 34863, 18650, 18650, 100340, 100340);
    lon = lon + tp.0;
    lat = lat + tp.1;
    let tp = pluto_term(0, 0, 6, jl, sl, pl, -38215, 38215, 31061, 31061, -30594, 30594, -25823, 25823);
    lon = lon + tp.0;
    lat = lat + tp.1;
    let tp = pluto_term(0, 1, -1, jl, sl, pl, 20349, 20349, -9886, 9886, 4965, 4965, 11263, 11263);
    lon = lon + tp.0;
    lat = lat + tp.1;
    let tp = pluto_term(0, 1, 0, jl, sl, pl, -4045, 4045, -4904, 4904, 310, 310, -132, 132);
    lon = lon + tp.0;
    lat = lat + tp.1;
    let tp = pluto_term(0, 1, 1, jl, sl, pl, -5885, 5885, -3238, 3238, 2036, 2036, -947, 947);
    lon = lon + tp.0;
    lat = lat + tp.1;
    (lon, lat)
}

/// A block of the Pluto series rows.
#[verifier::rlimit(100)]
#[verifier::spinoff_prover]
fn pluto_rows_1(jl: i64, sl: i64, pl: i64) -> (r: (i128, i128))
    requires
        -1_000_000_000_000 <= jl <= 1_000_000_000_000,
        -1_000_000_000_000 <= sl <= 1_000_000_000_000,
        -1_000_000_000_000 <= pl <= 1_000_000_000_000,
    ensures
        r.0 == spec_pluto_rows_1(jl as int, sl as int, pl as int).0,
        r.1 == spec_pluto_rows_1(jl as int, sl as int, pl as int).1,
        -26999000000000000 <= r.0 <= 26999000000000000,
        -4687000000000000 <= r.1 <= 4687000000000000,
{
    let mut lon: i128 = 0;
    let mut lat: i128 = 0;
    let tp = pluto_term(0, 1, 2, jl, sl, pl, -3812, 3812, 3011, 3011, -2, 2, -674, 674);
    lon = lon + tp.0;
    lat = lat + tp.1;
    let tp = pluto_term(0, 1, 3, jl, sl, pl, -601, 601, 3468, 3468, -329, 329, -563, 563);
    lon = lon + tp.0;
    lat = lat + tp.1;
    let tp = pluto_term(0, 2, -2, jl, sl, pl, 1237, 1237, 463, 463, -64, 64, 39, 39);
    lon = lon + tp.0;
    lat = lat + tp.1;
    let tp = pluto_term(0, 2, -1, jl, sl, pl, 1086, 1086, -911, 911, -94, 94, 210, 210);
    lon = lon + tp.0;
    lat = lat + tp.1;
    let tp = pluto_term(0, 2, 0, jl, sl, pl, 595, 595, -1229, 1229, -8, 8, -160, 160);
    lon = lon + tp.0;
    lat = lat + tp.1;
    let tp = pluto_term(1, -1, 0, jl, sl, pl, 2484, 2484, -485, 485, -177, 177, 259, 259);
    lon = lon + tp.0;
    lat = lat + tp.1;
    let tp = pluto_term(1, -1, 1, jl, sl, pl, 839, 839, -1414, 1414, 17, 17, 234, 234);
    lon = lon + tp.0;
    lat = lat + tp.1;
    let tp = pluto_term(1, 0, -3, jl, sl, pl, -964, 964, 1059, 1059, 582, 582, -285, 285);
    lon = lon + tp.0;
    lat = lat + tp.1;
    let tp = pluto_term(1, 0, -2, jl, sl, pl, -2303, 2303, -1038, 1038, -298, 298, 692, 692);
    lon = lon + tp.0;
    lat = lat + tp.1;
    (lon, lat)
}

/// A block of the Pluto series rows.
#[verifier::rlimit(100)]
#[verifier::spinoff_prover]
fn pluto_rows_2(jl: i64, sl: i64, pl: i64) -> (r: (i128, i128))
    requires
        -1_000_000_000_000 <= jl <= 1_000_000_000_000,
        -1_000_000_000_000 <= sl <= 1_000_000_000_000,
        -1_000_000_000_000 <= pl <= 1_000_000_000_000,
    ensures
        r.0 == spec_pluto_rows_2(jl as int, sl as int, pl as int).0,
        r.1 == spec_pluto_rows_2(jl as int, sl as int, pl as int).1,
        -10622000000000000 <= r.0 <= 10622000000000000,
        -1700000000000000 <= r.1 <= 1700000000000000,
{
    let mut lon: i128 = 0;
    let mut lat: i128 = 0;
    let tp = pluto_term(1, 0, -1, jl, sl, pl, 7049, 7049, 747, 747, 157, 157, 201, 201);
    lon = lon + tp.0;
    lat = lat + tp.1;
    let tp = pluto_term(1, 0, 0, jl, sl, pl, 1179, 1179, -358, 358, 304, 304, 825, 825);
    lon = lon + tp.0;
    lat = lat + tp.1;
    let tp = pluto_term(1, 0, 1, jl, sl, pl, 393, 393, -63, 63, -124, 124, -29, 29);
    lon = lon + tp.0;
    lat = lat + tp.1;
    let tp = pluto_term(1, 0, 2, jl, sl, pl, 111, 111, -268, 268, 15, 15, 8, 8);
    lon = lon + tp.0;
    lat = lat + tp.1;
    let tp = pluto_term(1, 0, 3, jl, sl, pl, -52, 52, -154, 154, 7, 7, 15, 15);
    lon = lon + tp.0;
    lat = lat + tp.1;
    let tp = pluto_term(1, 0, 4, jl, sl, pl, -78, 78, -30, 30, 2, 2, 2, 2);
    lon = lon + tp.0;
    lat = lat + tp.1;
    let tp = pluto_term(1, 1, -3, jl, sl, pl, -34, 34, -26, 26, 4, 4, 2, 2);
    lon = lon + tp.0;
    lat = lat + tp.1;
    let tp = pluto_term(1, 1, -2, jl, sl, pl, -43, 43, 1, 1, 3, 3, 0, 0);
    lon = lon + tp.0;
    lat = lat + tp.1;
    let tp = pluto_term(1, 1, -1, jl, sl, pl, -15, 15, 21, 21, 1, 1, -1, 1);
    lon = lon + tp.0;
    lat = lat + tp.1;
    (lon, lat)
}

/// A block of the Pluto series rows.
#[verifier::rlimit(100)]
#[verifier::spinoff_prover]
fn pluto_rows_3(jl: i64, sl: i64, pl: i64) -> (r: (i128, i128))
    requires
        -1_000_000_000_000 <= jl <= 1_000_000_000_000,
        -1_000_000_000_000 <= sl <= 1_000_000_000_000,
        -1_000_000_000_000 <= pl <= 1_000_000_000_000,
    ensures
        r.0 == spec_pluto_rows_3(jl as int, sl as int, pl as int).0,
        r.1 == spec_pluto_rows_3(jl as int, sl as int, pl as int).1,
        -396000000000000 <= r.0 <= 396000000000000,
        -74000000000000 <= r.1 <= 74000000000000,
{
    let mut lon: i128 = 0;
    let mut lat: i128 = 0;
    let tp = pluto_term(1, 1, 0, jl, sl, pl, -1, 1, 15, 15, 0, 0, -2, 2);
    lon = lon + tp.0;
    lat = lat + tp.1;
    let tp = pluto_term(1, 1, 1, jl, sl, pl, 4, 4, 7, 7, 1, 1, 0, 0);
    lon = lon + tp.0;
    lat = lat + tp.1;
    let tp = pluto_term(1, 1, 3, jl, sl, pl, 1, 1, 5, 5, 1, 1, -1, 1);
    lon = lon + tp.0;
    lat = lat + tp.1;
    let tp = pluto_term(2, 0, -6, jl, sl, pl, 8, 8, 3, 3, -2, 2, -3, 3);
    lon = lon + tp.0;
    lat = lat + tp.1;
    let tp = pluto_term(2, 0, -5, jl, sl, pl, -3, 3, 6, 6, 1, 1, 2, 2);
    lon = lon + tp.0;
    lat = lat + tp.1;
    let tp = pluto_term(2, 0, -4, jl, sl, pl, 6, 6, -13, 13, -8, 8, 2, 2);
    lon = lon + tp.0;
    lat = lat + tp.1;
    let tp = pluto_term(2, 0, -3, jl, sl, pl, 10, 10, 22, 22, 10, 10, -7, 7);
    lon = lon + tp.0;
    lat = lat + tp.1;
    let tp = pluto_term(2, 0, -2, jl, sl, pl, -57, 57, -32, 32, 0, 0, 21, 21);
    lon = lon + tp.0;
    lat = lat + tp.1;
    let tp = pluto_term(2, 0, -1, jl, sl, pl, 157, 157, -46, 46, 8, 8, 5, 5);
    lon = lon + tp.0;
    lat = lat + tp.1;
    (lon, lat)
}

/// A block of the Pluto series rows.
#[verifier::rlimit(100)]
#[verifier::spinoff_prover]
fn pluto_rows_4(jl: i64, sl: i64, pl: i64) -> (r: (i128, i128))
    requires
        -1_000_000_000_000 <= jl <= 1_000_000_000_000,
        -1_000_000_000_000 <= sl <= 1_000_000_000_000,
        -1_000_000_000_000 <= pl <= 1_000_000_000_000,
    ensures
        r.0 == spec_pluto_rows_4(jl as int, sl as int, pl as int).0,
        r.1 == spec_pluto_rows_4(jl as int, sl as int, pl as int).1,
        -68000000000000 <= r.0 <= 68000000000000,
        -37000000000000 <= r.1 <= 37000000000000,
{
    let mut lon: i128 = 0;
    let mut lat: i128 = 0;
    let tp = pluto_term(2, 0, 0, jl, sl, pl, 12, 12, -18, 18, 13, 13, 16, 16);
    lon = lon + tp.0;
    lat = lat + tp.1;
    let tp = pluto_term(2, 0, 1, jl, sl, pl, -4, 4, 8, 8, -2, 2, -3, 3);
    lon = lon + tp.0;
    lat = lat + tp.1;
    let tp = pluto_term(2, 0, 2, jl, sl, pl, -5, 5, 0, 0, 0, 0, 0, 0);
    lon = lon + tp.0;
    lat = lat + tp.1;
    let tp = pluto_term(2, 0, 3, jl, sl, pl, 3, 3, 4, 4, 0, 0, 1, 1);
    lon = lon + tp.0;
    lat = lat + tp.1;
    let tp = pluto_term(3, 0, -2, jl, sl, pl, -1, 1, -1, 1, 0, 0, 1, 1);
    lon = lon + tp.0;
    lat = lat + tp.1;
    let tp = pluto_term(3, 0, -1, jl, sl, pl, 6, 6, -3, 3, 0, 0, 0, 0);
    lon = lon + tp.0;
    lat = lat + tp.1;
    let tp = pluto_term(3, 0, 0, jl, sl, pl, -1, 1, -2, 2, 0, 0, 1, 1);
    lon = lon + tp.0;
    lat = lat + tp.1;
    (lon, lat)
}

/// Heliocentric-as-geocentric ecliptic position of Pluto from the
/// analytical theory.
#[verifier::rlimit(100)]
#[verifier::spinoff_prover]
#[verifier::rlimit(100)]
#[verifier::spinoff_prover]
pub fn calculate_pluto_position(jd_tt_ms: i64) -> (r: EclipticPosition)
    requires
        frames::FRAMES_MIN_MS <= jd_tt_ms <= frames::FRAMES_MAX_MS,
    ensures
        r.lon_udeg == spec_pluto_position(jd_tt_ms as int).0,
        r.lat_udeg == spec_pluto_position(jd_tt_ms as int).1,
        r.wf(),
{
    let t = centuries(jd_tt_ms);
    let jl128: i128 = 34_350_000 + divb(3_034_905_700 * t, 48_558_491_200_000_000, 1_000_000);
    let sl128: i128 = 50_080_000 + divb(1_222_113_800 * t, 19_553_820_800_000_000, 1_000_000);
    let pl128: i128 = 238_960_000 + divb(144_960_000 * t, 2_319_360_000_000_000, 1_000_000);
    let jl: i64 = jl128 as i64;
    let sl: i64 = sl128 as i64;
    let pl: i64 = pl128 as i64;

    let mut acc_lon: i128 = 0;
    let mut acc_lat: i128 = 0;
    let g0 = pluto_rows_0(jl, sl, pl);
    acc_lon = acc_lon + g0.0;
    acc_lat = acc_lat + g0.1;
    let g1 = pluto_rows_1(jl, sl, pl);
    acc_lon = acc_lon + g1.0;
    acc_lat = acc_lat + g1.1;
    let g2 = pluto_rows_2(jl, sl, pl);
    acc_lon = acc_lon + g2.0;
    acc_lat = acc_lat + g2.1;
    let g3 = pluto_rows_3(jl, sl, pl);
    acc_lon = acc_lon + g3.0;
    acc_lat = acc_lat + g3.1;
    let g4 = pluto_rows_4(jl, sl, pl);
    acc_lon = acc_lon + g4.0;
    acc_lat = acc_lat + g4.1;
    let sum_lon = divb(acc_lon, 48_174_395_000_000_000_000, 1_000_000_000_000);
    let sum_lat = divb(acc_lat, 27_679_112_000_000_000_000, 1_000_000_000_000);
    let lon128: i128 = 238_958_116 + divb(144_960_000 * t, 2_319_360_000_000_000, 1_000_000) + sum_lon;
    let lat128: i128 = -3_908_239 + sum_lat;
    let lon = angle::normalize_deg(lon128 as i64);
    let lat: i64 = if lat128 > 90_000_000 {
        90_000_000
    } else if lat128 < -90_000_000 {
        -90_000_000
    } else {
        lat128 as i64
    };
    EclipticPosition { lon_udeg: lon, lat_udeg: lat }
}

/// Julian centuries since J2000.0 in micro-centuries (local mirror of the
/// frames helper, kept private there).
fn centuries(jd_tt_ms: i64) -> (t: i128)
    requires
        frames::FRAMES_MIN_MS <= jd_tt_ms <= frames::FRAMES_MAX_MS,
    ensures
        t == frames::spec_centuries(jd_tt_ms as int),
        -16_000_000 <= t <= 16_000_000,
{
    let delta: i128 = (jd_tt_ms as i128) - (calendar::J2000_MS as i128);
    divb(delta * 1_000_000, 50_000_000_000_000_000_000, 3_155_760_000_000)
}

/// One clamped Newton step of the Kepler solver, exactly as executed.
pub open spec fn spec_kepler_step(e: int, mean_anomaly: int, e9: int) -> int {
    let sin_e = trig::spec_sin_q(e);
    let cos_e = trig::spec_cos_q(e);
    let es_q = (e9 * sin_e) / 1_000_000_000;
    let esin_udeg = (es_q * 57_295_779_513_082) / 1_000_000_000_000_000_000;
    let denom_q = 1_000_000_000_000 - (e9 * cos_e) / 1_000_000_000;
    let err = e - esin_udeg - mean_anomaly;
    let delta = crate::fixmath::spec_divv(err * 1_000_000_000_000, denom_q);
    let next = e - delta;
    if next < mean_anomaly - 23_000_000 {
        mean_anomaly - 23_000_000
    } else if next > mean_anomaly + 23_000_000 {
        mean_anomaly + 23_000_000
    } else {
        next
    }
}

/// The Kepler iteration after `k` steps from the mean anomaly.
pub open spec fn spec_kepler_iter(k: nat, mean_anomaly: int, e9: int) -> int
    decreases k,
{
    if k == 0 {
        mean_anomaly
    } else {
        spec_kepler_step(spec_kepler_iter((k - 1) as nat, mean_anomaly, e9), mean_anomaly, e9)
    }
}

/// Exact model of Chiron's geocentric ecliptic position.
pub open spec fn spec_chiron_position(jd_tt_ms: int) -> (int, int) {
    let t = frames::spec_centuries(jd_tt_ms);
    let days_1000 = ((jd_tt_ms - 211_813_488_000_000) * 1000) / 86_400_000;
    let a9 = 13_648_000_000 + (100_000 * t) / 1_000_000;
    let e9 = 381_400_000 + (10_000 * t) / 1_000_000;
    let incl = 6_930_000 + (100 * t) / 1_000_000;
    let node = 209_379_000 - (9_400 * t) / 1_000_000;
    let peri = 339_557_000 + (8_500 * t) / 1_000_000;
    let sqrt_a = trig::spec_isqrt(a9 * 1_000_000_000);
    let a15 = sqrt_a * a9;
    let n_scaled = crate::fixmath::spec_divv(985_607_668_600_000_000_000_000, a15);
    let mean_anomaly = angle::norm_360(12_490_000 + (n_scaled * days_1000) / 1000);
    let ecc_anomaly = spec_kepler_iter(15, mean_anomaly, e9);
    let half_e = ecc_anomaly / 2;
    let sp = trig::spec_isqrt((1_000_000_000 + e9) * 1_000_000_000);
    let sm = trig::spec_isqrt((1_000_000_000 - e9) * 1_000_000_000);
    let y_true = (sp * trig::spec_sin_q(half_e)) / 1_000_000_000;
    let x_true = (sm * trig::spec_cos_q(half_e)) / 1_000_000_000;
    let true_anomaly = 2 * trig::spec_atan2(y_true, x_true);
    let ecos9 = (e9 * trig::spec_cos_q(ecc_anomaly)) / 1_000_000_000_000;
    let r9 = (a9 * (1_000_000_000 - ecos9)) / 1_000_000_000;
    let x_orb = (r9 * trig::spec_cos_q(true_anomaly)) / 1_000_000_000_000;
    let y_orb = (r9 * trig::spec_sin_q(true_anomaly)) / 1_000_000_000_000;
    let cos_n = trig::spec_cos_q(node);
    let sin_n = trig::spec_sin_q(node);
    let cos_i = trig::spec_cos_q(incl);
    let sin_i = trig::spec_sin_q(incl);
    let cos_w = trig::spec_cos_q(peri);
    let sin_w = trig::spec_sin_q(peri);
    let m11 = (cos_n * cos_w) / 1_000_000_000_000 - ((((sin_n * sin_w) / 1_000_000_000_000)
        * cos_i) / 1_000_000_000_000);
    let m12 = -((cos_n * sin_w) / 1_000_000_000_000) - ((((sin_n * cos_w) / 1_000_000_000_000)
        * cos_i) / 1_000_000_000_000);
    let m21 = (sin_n * cos_w) / 1_000_000_000_000 + ((((cos_n * sin_w) / 1_000_000_000_000)
        * cos_i) / 1_000_000_000_000);
    let m22 = -((sin_n * sin_w) / 1_000_000_000_000) + ((((cos_n * cos_w) / 1_000_000_000_000)
        * cos_i) / 1_000_000_000_000);
    let m31 = (sin_i * sin_w) / 1_000_000_000_000;
    let m32 = (sin_i * cos_w) / 1_000_000_000_000;
    let x_ecl = (m11 * x_orb) / 1_000_000_000_000 + (m12 * y_orb) / 1_000_000_000_000;
    let y_ecl = (m21 * x_orb) / 1_000_000_000_000 + (m22 * y_orb) / 1_000_000_000_000;
    let z_ecl = (m31 * x_orb) / 1_000_000_000_000 + (m32 * y_orb) / 1_000_000_000_000;
    let lon = trig::spec_atan2(y_ecl, x_ecl);
    let z_ratio = crate::fixmath::spec_divv(z_ecl * 1_000_000_000_000, r9);
    let lat = trig::spec_asin(z_ratio);
    let l_jup = 34_350_000 + (3_034_905_700 * t) / 1_000_000;
    let l_sat = 50_080_000 + (1_222_113_800 * t) / 1_000_000;
    let l_ura = 314_055_000 + (429_864_000 * t) / 1_000_000;
    let pert = (120_000 * trig::spec_sin_q(lon - l_jup)) / 1_000_000_000_000 + (350_000
        * trig::spec_sin_q(lon - l_sat)) / 1_000_000_000_000 + (80_000 * trig::spec_sin_q(
        2 * (lon - l_sat),
    )) / 1_000_000_000_000 + (180_000 * trig::spec_sin_q(lon - l_ura)) / 1_000_000_000_000;
    (angle::norm_360(lon + pert), lat)
}

/// Geocentric ecliptic position of Chiron: a Kepler solution on slowly
/// varying heliocentric elements, with first-order perturbations from
/// Jupiter, Saturn and Uranus.  The accuracy of the underlying theory is a
/// few tenths of a degree over a few decades around J2000.
#[verifier::rlimit(100)]
#[verifier::spinoff_prover]
pub fn calculate_chiron_position(jd_tt_ms: i64) -> (r: EclipticPosition)
    requires
        frames::FRAMES_MIN_MS <= jd_tt_ms <= frames::FRAMES_MAX_MS,
    ensures
        r.lon_udeg == spec_chiron_position(jd_tt_ms as int).0,
        r.lat_udeg == spec_chiron_position(jd_tt_ms as int).1,
        r.wf(),
{
    let t = centuries(jd_tt_ms);
    // Days since J2000, bounded by the frame era.
    let days_1000: i128 = divb(
        ((jd_tt_ms as i128) - (calendar::J2000_MS as i128)) * 1000,
        50_000_000_000_000_000,
        86_400_000,
    );

    // Elements: semi-major axis in nano-AU, eccentricity in 10^-9,
    // inclination / node / argument of perihelion in micro-degrees.
    let a9: i128 = 13_648_000_000 + divb(100_000 * t, 1_600_000_000_000, 1_000_000);
    let e9: i128 = 381_400_000 + divb(10_000 * t, 160_000_000_000, 1_000_000);
    proof {
        assert(380_000_000 <= e9 <= 382_000_000);
        assert(13_000_000_000 <= a9 <= 14_000_000_000);
    }
    let incl: i64 = (6_930_000 + divb(100 * t, 1_600_000_000, 1_000_000)) as i64;
    let node: i64 = (209_379_000 - divb(9_400 * t, 150_400_000_000, 1_000_000)) as i64;
    let peri: i64 = (339_557_000 + divb(8_500 * t, 136_000_000_000, 1_000_000)) as i64;

    // Mean motion: 0.9856076686 / a^1.5 degrees per day.  With a around
    // 13.65 AU the period is about 50.7 years.  a^1.5 in units of 10^-13:
    // sqrt(a9) * a9 has scale 10^(4.5+9) = 10^13.5; work via isqrt.
    let sqrt_a = trig::isqrt_i128(a9 * 1_000_000_000);
    proof {
        assert(sqrt_a <= 4_000_000_000) by (nonlinear_arith)
            requires
                sqrt_a * sqrt_a <= a9 * 1_000_000_000,
                a9 <= 14_000_000_000,
                sqrt_a >= 0;
    }
    // a^1.5 scaled by 10^13.5 -> use (sqrt_a * a9) with scale 10^(9+9)/10^.5:
    // n_udeg_per_day = 985607.6686 * 10^18 / (sqrt(a9*10^9) * a9).
    let a15: i128 = mulb(sqrt_a, 4_000_000_000, a9, 14_000_000_000);
    proof {
        assert(sqrt_a >= 3_600_000_000) by (nonlinear_arith)
            requires
                (sqrt_a + 1) * (sqrt_a + 1) > a9 * 1_000_000_000,
                a9 >= 13_000_000_000,
                sqrt_a >= 0;
        assert(a15 >= 45_000_000_000_000_000_000) by (nonlinear_arith)
            requires
                a15 == sqrt_a * a9,
                sqrt_a >= 3_600_000_000,
                a9 >= 13_000_000_000;
    }
    let n_scaled: i128 = divv(
        985_607_668_600_000_000_000_000,
        985_607_668_600_000_000_000_000,
        a15,
        45_000_000_000_000_000_000,
    );
    // n_scaled is micro-degrees per day (0.9856e6 * 10^18 / a15 where a15
    // is a^1.5 * 10^18): about 19.5 micro-degrees per day... scale check:
    // 0.9856076686 deg/day / 50.43 = 0.019543 deg/day = 19543 udeg/day.
    let mean_anom_unnorm: i128 = 12_490_000 + divb(
        mulb(n_scaled, 21_902, days_1000, 600_000_000_000),
        13_141_200_000_000_000,
        1000,
    );
    let mean_anomaly: i64 = angle::normalize_deg(mean_anom_unnorm as i64);

    // Solve Kepler's equation E - e sin E = M by a clamped Newton
    // iteration; with e below one half the root lies within 23 degrees of
    // the mean anomaly.
    let mut ecc_anomaly: i64 = mean_anomaly;
    let mut iter: u64 = 0;
    while iter < 15
        invariant
            iter <= 15,
            ecc_anomaly == spec_kepler_iter(iter as nat, mean_anomaly as int, e9 as int),
            mean_anomaly - 23_000_000 <= ecc_anomaly <= mean_anomaly + 23_000_000,
            0 <= mean_anomaly < 360_000_000,
            380_000_000 <= e9 <= 382_000_000,
        decreases 15 - iter,
    {
        let sin_e = trig::sin_q(ecc_anomaly) as i128;
        let cos_e = trig::cos_q(ecc_anomaly) as i128;
        // e sin E in micro-degrees: e * sin(E) * (180/pi).
        let es_q = divb(mulb(e9, 382_000_000, sin_e, 1_000_000_000_000), 382_000_000_000_000_000_000, 1_000_000_000);
        let esin_udeg = divb(
            mulb(es_q, 382_000_000_000, 57_295_779_513_082, 57_295_779_513_082),
            22_000_000_000_000_000_000_000_000,
            1_000_000_000_000_000_000,
        );
        let denom_q: i128 = 1_000_000_000_000 - divb(mulb(e9, 382_000_000, cos_e, 1_000_000_000_000), 382_000_000_000_000_000_000, 1_000_000_000);
        proof {
            assert(denom_q >= 618_000_000_000);
        }
        let err: i128 = (ecc_anomaly as i128) - esin_udeg - (mean_anomaly as i128);
        let delta = divv(
            mulb(err, 70_000_000, 1_000_000_000_000, 1_000_000_000_000),
            70_000_000_000_000_000_000,
            denom_q,
            618_000_000_000,
        );
        let next_unclamped: i128 = (ecc_anomaly as i128) - delta;
        let lo: i128 = (mean_anomaly as i128) - 23_000_000;
        let hi: i128 = (mean_anomaly as i128) + 23_000_000;
        let next: i128 = if next_unclamped < lo {
            lo
        } else if next_unclamped > hi {
            hi
        } else {
            next_unclamped
        };
        ecc_anomaly = next as i64;
        iter = iter + 1;
    }

    // True anomaly via the half-angle form.
    let half_e = divc(ecc_anomaly as i128, 2) as i64;
    let sp = trig::isqrt_i128((1_000_000_000 + e9) * 1_000_000_000);
    let sm = trig::isqrt_i128((1_000_000_000 - e9) * 1_000_000_000);
    proof {
        assert(sp <= 1_200_000_000) by (nonlinear_arith)
            requires
                sp * sp <= (1_000_000_000 + e9) * 1_000_000_000,
                e9 <= 382_000_000,
                sp >= 0;
        assert(sm <= 1_000_000_000) by (nonlinear_arith)
            requires
                sm * sm <= (1_000_000_000 - e9) * 1_000_000_000,
                e9 >= 380_000_000,
                sm >= 0;
    }
    let y_true = divb(mulb(sp, 1_200_000_000, trig::sin_q(half_e) as i128, 1_000_000_000_000), 1_200_000_000_000_000_000_000, 1_000_000_000);
    let x_true = divb(mulb(sm, 1_000_000_000, trig::cos_q(half_e) as i128, 1_000_000_000_000), 1_000_000_000_000_000_000_000, 1_000_000_000);
    let half_true = trig::atan2_udeg(y_true as i64, x_true as i64);
    let true_anomaly: i64 = 2 * half_true;

    // Heliocentric distance r = a (1 - e cos E), nano-AU.
    let ecos9 = divb(mulb(e9, 382_000_000, trig::cos_q(ecc_anomaly) as i128, 1_000_000_000_000), 382_000_000_000_000_000_000, 1_000_000_000_000);
    let r9: i128 = divb(mulb(a9, 14_000_000_000, 1_000_000_000 - ecos9, 1_382_000_000), 19_348_000_000_000_000_000, 1_000_000_000);
    proof {
        assert(r9 >= 8_000_000_000) by (nonlinear_arith)
            requires
                r9 == (a9 * (1_000_000_000 - ecos9)) / 1_000_000_000,
                a9 >= 13_000_000_000,
                ecos9 <= 382_000_000,
                1_000_000_000 - ecos9 >= 618_000_000;
    }

    // Position in the orbital plane, nano-AU.
    let x_orb = divb(mulb(r9, 19_400_000_000, trig::cos_q(true_anomaly) as i128, 1_000_000_000_000), 19_400_000_000_000_000_000_000, 1_000_000_000_000);
    let y_orb = divb(mulb(r9, 19_400_000_000, trig::sin_q(true_anomaly) as i128, 1_000_000_000_000), 19_400_000_000_000_000_000_000, 1_000_000_000_000);

    // Rotate into the ecliptic frame.
    let cos_n = trig::cos_q(node) as i128;
    let sin_n = trig::sin_q(node) as i128;
    let cos_i = trig::cos_q(incl) as i128;
    let sin_i = trig::sin_q(incl) as i128;
    let cos_w = trig::cos_q(peri) as i128;
    let sin_w = trig::sin_q(peri) as i128;
    let qb: i128 = 1_000_000_000_000;

    let m11: i128 = qmulb(cos_n, qb, cos_w, qb) - qmulb(qmulb(sin_n, qb, sin_w, qb), qb, cos_i, qb);
    let m12: i128 = -qmulb(cos_n, qb, sin_w, qb) - qmulb(qmulb(sin_n, qb, cos_w, qb), qb, cos_i, qb);
    let m21: i128 = qmulb(sin_n, qb, cos_w, qb) + qmulb(qmulb(cos_n, qb, sin_w, qb), qb, cos_i, qb);
    let m22: i128 = -qmulb(sin_n, qb, sin_w, qb) + qmulb(qmulb(cos_n, qb, cos_w, qb), qb, cos_i, qb);
    let m31: i128 = qmulb(sin_i, qb, sin_w, qb);
    let m32: i128 = qmulb(sin_i, qb, cos_w, qb);

    let x_ecl: i128 = qmulb(m11, 2 * qb, x_orb, 19_400_000_000) + qmulb(m12, 2 * qb, y_orb, 19_400_000_000);
    let y_ecl: i128 = qmulb(m21, 2 * qb, x_orb, 19_400_000_000) + qmulb(m22, 2 * qb, y_orb, 19_400_000_000);
    let z_ecl: i128 = qmulb(m31, qb, x_orb, 19_400_000_000) + qmulb(m32, qb, y_orb, 19_400_000_000);

    let mut lon: i64 = trig::atan2_udeg(y_ecl as i64, x_ecl as i64);
    let z_ratio = divv(
        mulb(z_ecl, 38_800_000_000, 1_000_000_000_000, 1_000_000_000_000),
        38_800_000_000_000_000_000_000,
        r9,
        8_000_000_000,
    );
    let lat: i64 = trig::asin_unit(z_ratio as i64);

    // Giant-planet perturbations, micro-degrees.
    let l_jup: i128 = 34_350_000 + divb(3_034_905_700 * t, 48_558_491_200_000_000, 1_000_000);
    let l_sat: i128 = 50_080_000 + divb(1_222_113_800 * t, 19_553_820_800_000_000, 1_000_000);
    let l_ura: i128 = 314_055_000 + divb(429_864_000 * t, 6_877_824_000_000_000, 1_000_000);
    let pert: i128 = qmulb(120_000, 120_000, trig::sin_q((lon as i128 - l_jup) as i64) as i128, 1_000_000_000_000)
        + qmulb(350_000, 350_000, trig::sin_q((lon as i128 - l_sat) as i64) as i128, 1_000_000_000_000)
        + qmulb(80_000, 80_000, trig::sin_q((2 * (lon as i128 - l_sat)) as i64) as i128, 1_000_000_000_000)
        + qmulb(180_000, 180_000, trig::sin_q((lon as i128 - l_ura) as i64) as i128, 1_000_000_000_000);
    let lon_final = angle::normalize_deg((lon as i128 + pert) as i64);
    EclipticPosition { lon_udeg: lon_final, lat_udeg: lat }
}

/// Exact model of the true node's geocentric ecliptic longitude.
pub open spec fn spec_node_longitude(jd_tt_ms: int) -> int {
    let e = spec_moon_elements(jd_tt_ms);
    let d = e.1;
    let m = e.2;
    let mp = e.3;
    let f = e.4;
    let t = frames::spec_centuries(jd_tt_ms);
    let p2 = t * t;
    let p3 = p2 * t;
    let omega = 125_044_520 - (1_934_136_261 * t) / 1_000_000 + (20_708 * p2)
        / 10_000_000_000_000 + p3 / 450_000_000_000_000_000;
    let d2 = 2 * d;
    let f2 = 2 * f;
    let acc = (-1_497_900) * trig::spec_sin_q(d2 - f2) + (-150_000) * trig::spec_sin_q(mp) + (
    -122_600) * trig::spec_sin_q(d2) + 117_600 * trig::spec_sin_q(f2) + (-80_100)
        * trig::spec_sin_q(2 * mp - f2) + (-61_600) * trig::spec_sin_q(d2 - m - f2) + 49_000
        * trig::spec_sin_q(d2 - mp - f2) + 43_800 * trig::spec_sin_q(d2 - 2 * mp) + (-39_300)
        * trig::spec_sin_q(2 * mp) + (-31_100) * trig::spec_sin_q(d2 - mp) + 22_700
        * trig::spec_sin_q(mp - f2) + (-22_000) * trig::spec_sin_q(d2 + mp - f2) + 18_100
        * trig::spec_sin_q(m) + (-14_900) * trig::spec_sin_q(d2 - 2 * mp - f2);
    let corr = acc / 1_000_000_000_000;
    angle::norm_360(omega + corr)
}

/// Geocentric ecliptic position of the true lunar node: the mean-node
/// polynomial plus the wobble series.  The node is on the ecliptic, so the
/// latitude is exactly zero.
#[verifier::rlimit(100)]
#[verifier::spinoff_prover]
pub fn calculate_north_node_position(jd_tt_ms: i64) -> (r: EclipticPosition)
    requires
        frames::FRAMES_MIN_MS <= jd_tt_ms <= frames::FRAMES_MAX_MS,
    ensures
        r.lon_udeg == spec_node_longitude(jd_tt_ms as int),
        r.wf(),
        r.lat_udeg == 0,
{
    let t = centuries(jd_tt_ms);
    let p2 = mulb(t, 16_000_000, t, 16_000_000);
    let p3 = mulb(p2, 256_000_000_000_000, t, 16_000_000);
    let p4 = mulb(p3, 4_096_000_000_000_000_000_000, t, 16_000_000);

    let omega: i128 = 125_044_520
        - divb(1_934_136_261 * t, 30_946_180_176_000_000, 1_000_000)
        + divb(20_708 * p2, 5_301_248_000_000_000_000, 10_000_000_000_000)
        + divb(p3, 4_096_000_000_000_000_000_000, 450_000_000_000_000_000);

    let d_elem: i128 = 297_850_192
        + divb(44_526_711_140_340 * t, 712_427_378_245_440_000_000, 100_000_000)
        - divb(18_819 * p2, 4_817_664_000_000_000_000, 10_000_000_000_000)
        + divb(p3, 4_096_000_000_000_000_000_000, 545_868_000_000_000_000)
        - divb(p4, 65_536_000_000_000_000_000_000_000_000, 113_065_000_000_000_000_000_000_000);
    let m_elem: i128 = 357_529_109
        + divb(3_599_905_029_090 * t, 57_598_480_465_440_000_000, 100_000_000)
        - divb(1_536 * p2, 393_216_000_000_000_000, 10_000_000_000_000)
        + divb(p3, 4_096_000_000_000_000_000_000, 24_490_000_000_000_000_000_000_000);
    let mp_elem: i128 = 134_963_396
        + divb(47_719_886_750_550 * t, 763_518_188_008_800_000_000, 100_000_000)
        + divb(87_414 * p2, 22_377_984_000_000_000_000, 10_000_000_000_000)
        + divb(p3, 4_096_000_000_000_000_000_000, 69_699_000_000_000_000_000_000)
        - divb(p4, 65_536_000_000_000_000_000_000_000_000, 14_712_000_000_000_000_000_000_000);
    let f_elem: i128 = 93_272_095
        + divb(48_320_201_752_330 * t, 773_123_228_037_280_000_000, 100_000_000)
        - divb(36_539 * p2, 9_353_984_000_000_000_000, 10_000_000_000_000)
        - divb(p3, 4_096_000_000_000_000_000_000, 3_526_000_000_000_000_000_000)
        + divb(p4, 65_536_000_000_000_000_000_000_000_000, 863_310_000_000_000_000_000_000_000);

    let d2: i64 = (2 * d_elem) as i64;
    let f2: i64 = (2 * f_elem) as i64;
    let m1: i64 = m_elem as i64;
    let mp1: i64 = mp_elem as i64;
    let q: i128 = 1_000_000_000_000;

    let mut acc: i128 = 0;
    acc = acc + mulb(-1_497_900, 1_497_900, trig::sin_q(d2 - f2) as i128, q);
    acc = acc + mulb(-150_000, 150_000, trig::sin_q(mp1) as i128, q);
    acc = acc + mulb(-122_600, 122_600, trig::sin_q(d2) as i128, q);
    acc = acc + mulb(117_600, 117_600, trig::sin_q(f2) as i128, q);
    acc = acc + mulb(-80_100, 80_100, trig::sin_q(2 * mp1 - f2) as i128, q);
    acc = acc + mulb(-61_600, 61_600, trig::sin_q(d2 - m1 - f2) as i128, q);
    acc = acc + mulb(49_000, 49_000, trig::sin_q(d2 - mp1 - f2) as i128, q);
    acc = acc + mulb(43_800, 43_800, trig::sin_q(d2 - 2 * mp1) as i128, q);
    acc = acc + mulb(-39_300, 39_300, trig::sin_q(2 * mp1) as i128, q);
    acc = acc + mulb(-31_100, 31_100, trig::sin_q(d2 - mp1) as i128, q);
    acc = acc + mulb(22_700, 22_700, trig::sin_q(mp1 - f2) as i128, q);
    acc = acc + mulb(-22_000, 22_000, trig::sin_q(d2 + mp1 - f2) as i128, q);
    acc = acc + mulb(18_100, 18_100, trig::sin_q(m1) as i128, q);
    acc = acc + mulb(-14_900, 14_900, trig::sin_q(d2 - 2 * mp1 - f2) as i128, q);

    let corr = divb(acc, 2_270_700_000_000_000_000, 1_000_000_000_000);
    let lon = angle::normalize_deg((omega + corr) as i64);
    EclipticPosition { lon_udeg: lon, lat_udeg: 0 }
}

/// The Sun's geocentric ecliptic position is the mirror of the Earth's
/// heliocentric one: longitude shifted by half a turn, latitude negated.
pub fn sun_from_earth(earth: &HelioPosition) -> (r: EclipticPosition)
    requires
        earth.wf(),
    ensures
        r.lon_udeg == spec_sun_from_earth(*earth).0,
        r.lat_udeg == spec_sun_from_earth(*earth).1,
        r.wf(),
        r.lon_udeg == angle::norm_360(earth.lon_udeg + 180_000_000),
        r.lat_udeg == -earth.lat_udeg,
{
    let lon = angle::normalize_deg(earth.lon_udeg + 180_000_000);
    EclipticPosition { lon_udeg: lon, lat_udeg: -earth.lat_udeg }
}

/// Geocentric ecliptic position of a planet from its own and the Earth's
/// heliocentric spherical coordinates: convert both to rectangular,
/// subtract, and convert back.
/// Exact model of the rectangular conversion of a heliocentric position.
pub open spec fn spec_rect(h: HelioPosition) -> (int, int, int) {
    let cb = trig::spec_cos_q(h.lat_udeg as int);
    let sb = trig::spec_sin_q(h.lat_udeg as int);
    let cl = trig::spec_cos_q(h.lon_udeg as int);
    let sl = trig::spec_sin_q(h.lon_udeg as int);
    let rr = h.r_nano_au as int;
    (
        (rr * ((cb * cl) / 1_000_000_000_000)) / 1_000_000_000_000,
        (rr * ((cb * sl) / 1_000_000_000_000)) / 1_000_000_000_000,
        (rr * sb) / 1_000_000_000_000,
    )
}

/// Exact model of the heliocentric-to-geocentric conversion.
pub open spec fn spec_helio_to_geocentric(p: HelioPosition, e: HelioPosition) -> (int, int) {
    let pr = spec_rect(p);
    let er = spec_rect(e);
    let x = pr.0 - er.0;
    let y = pr.1 - er.1;
    let z = pr.2 - er.2;
    let lon = angle::norm_360(trig::spec_atan2(y, x));
    let rho = trig::spec_isqrt(x * x + y * y);
    (lon, trig::spec_atan2(z, rho))
}

/// Exact model of the Sun's mirror of the Earth.
pub open spec fn spec_sun_from_earth(earth: HelioPosition) -> (int, int) {
    (angle::norm_360(earth.lon_udeg + 180_000_000), -(earth.lat_udeg as int))
}

/// Exact model of the geocentric ecliptic dispatch.
pub open spec fn spec_geocentric_ecliptic(
    planet: Planet,
    jd_tt_ms: int,
    helio: Option<(HelioPosition, HelioPosition)>,
) -> Option<(int, int)> {
    match planet {
        Planet::Moon => Some(spec_moon_position(jd_tt_ms)),
        Planet::Pluto => Some(spec_pluto_position(jd_tt_ms)),
        Planet::Chiron => Some(spec_chiron_position(jd_tt_ms)),
        Planet::NorthNode => Some((spec_node_longitude(jd_tt_ms), 0int)),
        Planet::Sun => match helio {
            Some(h) => Some(spec_sun_from_earth(h.1)),
            None => None,
        },
        _ => match helio {
            Some(h) => Some(spec_helio_to_geocentric(h.0, h.1)),
            None => None,
        },
    }
}

/// Exact model of the equatorial position pipeline: nutation in longitude,
/// the rotation to the equator, and (for every body but the Moon) the
/// aberration correction with the declination clamp.
pub open spec fn spec_position_tt(
    planet: Planet,
    jd_tt_ms: int,
    helio: Option<(HelioPosition, HelioPosition)>,
    true_obliquity: int,
    delta_psi: int,
) -> Option<(int, int, int)> {
    match spec_geocentric_ecliptic(planet, jd_tt_ms, helio) {
        None => None,
        Some(ecl) => {
            let lon = angle::norm_360(ecl.0 + delta_psi);
            let eq = frames::spec_ecliptic_to_equatorial(lon, ecl.1, true_obliquity);
            if planet == Planet::Moon {
                Some((eq.0, eq.1, lon))
            } else {
                let ab = frames::spec_aberration(eq.0, eq.1, jd_tt_ms, true_obliquity);
                let ra = angle::norm_360(eq.0 + ab.0);
                let dec_raw = eq.1 + ab.1;
                let dec = if dec_raw > 90_000_000 {
                    90_000_000int
                } else if dec_raw < -90_000_000 {
                    -90_000_000int
                } else {
                    dec_raw
                };
                Some((ra, dec, lon))
            }
        },
    }
}

/// Rectangular ecliptic coordinates of a heliocentric spherical position,
/// nano-AU in each axis.
fn rect_from_spherical(h: &HelioPosition) -> (r: (i128, i128, i128))
    requires
        h.wf(),
    ensures
        r.0 == spec_rect(*h).0,
        r.1 == spec_rect(*h).1,
        r.2 == spec_rect(*h).2,
        -50_000_000_000 <= r.0 <= 50_000_000_000,
        -50_000_000_000 <= r.1 <= 50_000_000_000,
        -50_000_000_000 <= r.2 <= 50_000_000_000,
{
    let qb: i128 = 1_000_000_000_000;
    let cb = trig::cos_q(h.lat_udeg) as i128;
    let sb = trig::sin_q(h.lat_udeg) as i128;
    let cl = trig::cos_q(h.lon_udeg) as i128;
    let sl = trig::sin_q(h.lon_udeg) as i128;
    let rr: i128 = h.r_nano_au as i128;
    let x = divb(mulb(rr, 50_000_000_000, qmulb(cb, qb, cl, qb), qb), 50_000_000_000_000_000_000_000, qb);
    let y = divb(mulb(rr, 50_000_000_000, qmulb(cb, qb, sl, qb), qb), 50_000_000_000_000_000_000_000, qb);
    let z = divb(mulb(rr, 50_000_000_000, sb, qb), 50_000_000_000_000_000_000_000, qb);
    (x, y, z)
}

#[verifier::rlimit(100)]
#[verifier::spinoff_prover]
pub fn helio_to_geocentric(planet_h: &HelioPosition, earth_h: &HelioPosition) -> (r: EclipticPosition)
    requires
        planet_h.wf(),
        earth_h.wf(),
    ensures
        r.lon_udeg == spec_helio_to_geocentric(*planet_h, *earth_h).0,
        r.lat_udeg == spec_helio_to_geocentric(*planet_h, *earth_h).1,
        r.wf(),
{
    let p_rect = rect_from_spherical(planet_h);
    let e_rect = rect_from_spherical(earth_h);
    let x: i128 = p_rect.0 - e_rect.0;
    let y: i128 = p_rect.1 - e_rect.1;
    let z: i128 = p_rect.2 - e_rect.2;

    let lon = angle::normalize_deg(trig::atan2_udeg(y as i64, x as i64));
    let x2 = mulb(x, 100_000_000_000, x, 100_000_000_000);
    let y2 = mulb(y, 100_000_000_000, y, 100_000_000_000);
    proof {
        assert(x2 >= 0 && y2 >= 0) by (nonlinear_arith)
            requires
                x2 == x * x,
                y2 == y * y;
    }
    let rho = trig::isqrt_i128(x2 + y2);
    proof {
        assert(rho <= 200_000_000_000) by (nonlinear_arith)
            requires
                rho * rho <= x2 + y2,
                x2 <= 10_000_000_000_000_000_000_000,
                y2 <= 10_000_000_000_000_000_000_000,
                rho >= 0;
    }
    let lat = trig::atan2_udeg(z as i64, rho as i64);
    EclipticPosition { lon_udeg: lon, lat_udeg: lat }
}

/// Dispatch a body's geocentric ecliptic position for an instant of TT.
/// Bodies whose theory is carried in this module are computed from the
/// date alone; the Sun and the planets need the caller-supplied
/// heliocentric coordinates `(body, earth)` and come back `None` without
/// them.
pub fn geocentric_ecliptic(
    planet: Planet,
    jd_tt_ms: i64,
    helio: Option<(HelioPosition, HelioPosition)>,
) -> (r: Option<EclipticPosition>)
    requires
        frames::FRAMES_MIN_MS <= jd_tt_ms <= frames::FRAMES_MAX_MS,
        helio matches Some(h) ==> h.0.wf() && h.1.wf(),
    ensures
        r is Some <==> (!spec_needs_heliocentric(planet) || helio is Some),
        r matches Some(p) ==> p.wf() && Some((p.lon_udeg as int, p.lat_udeg as int))
            == spec_geocentric_ecliptic(planet, jd_tt_ms as int, helio),
{
    match planet {
        Planet::Moon => Some(calculate_moon_position(jd_tt_ms)),
        Planet::Pluto => Some(calculate_pluto_position(jd_tt_ms)),
        Planet::Chiron => Some(calculate_chiron_position(jd_tt_ms)),
        Planet::NorthNode => Some(calculate_north_node_position(jd_tt_ms)),
        Planet::Sun => {
            match helio {
                Some((_body, earth)) => Some(sun_from_earth(&earth)),
                None => None,
            }
        },
        _ => {
            match helio {
                Some((body, earth)) => Some(helio_to_geocentric(&body, &earth)),
                None => None,
            }
        },
    }
}

/// Equatorial position of a body at an instant of TT, given the true
/// obliquity and nutation of that instant: apply nutation in longitude,
/// rotate to the equator, and apply annual aberration (not for the Moon,
/// whose geocentric parallax dwarfs it).  The result satisfies the
/// equatorial range invariant for every input.
#[verifier::rlimit(100)]
#[verifier::spinoff_prover]
pub fn calculate_planetary_position_tt(
    planet: Planet,
    jd_tt_ms: i64,
    helio: Option<(HelioPosition, HelioPosition)>,
    true_obliquity_udeg: i64,
    nutation: &frames::Nutation,
) -> (r: Option<PlanetaryPosition>)
    requires
        frames::FRAMES_MIN_MS <= jd_tt_ms <= frames::FRAMES_MAX_MS,
        helio matches Some(h) ==> h.0.wf() && h.1.wf(),
        -10_000 <= nutation.delta_psi_udeg <= 10_000,
    ensures
        r is Some <==> (!spec_needs_heliocentric(planet) || helio is Some),
        r matches Some(p) ==> p.wf() && p.planet == planet && Some(
            (
                p.right_ascension_udeg as int,
                p.declination_udeg as int,
                p.ecliptic_longitude_udeg as int,
            ),
        ) == spec_position_tt(
            planet,
            jd_tt_ms as int,
            helio,
            true_obliquity_udeg as int,
            nutation.delta_psi_udeg as int,
        ),
{
    let ecl = geocentric_ecliptic(planet, jd_tt_ms, helio);
    match ecl {
        None => None,
        Some(pos) => {
            let lon = angle::normalize_deg(pos.lon_udeg + nutation.delta_psi_udeg);
            let (ra0, dec0) = frames::ecliptic_to_equatorial(lon, pos.lat_udeg, true_obliquity_udeg);
            let is_moon = match planet {
                Planet::Moon => true,
                _ => false,
            };
            let (ra, dec) = if is_moon {
                (ra0, dec0)
            } else {
                let (dra, ddec) = frames::calculate_aberration(ra0, dec0, jd_tt_ms, true_obliquity_udeg);
                let ra1 = angle::normalize_deg(ra0 + dra);
                let dec_raw = dec0 + ddec;
                let dec1: i64 = if dec_raw > 90_000_000 {
                    90_000_000
                } else if dec_raw < -90_000_000 {
                    -90_000_000
                } else {
                    dec_raw
                };
                (ra1, dec1)
            };
            Some(PlanetaryPosition {
                planet,
                right_ascension_udeg: ra,
                declination_udeg: dec,
                ecliptic_longitude_udeg: lon,
            })
        },
    }
}

/// Equatorial position of a body for a UTC Julian Date: resolve the time
/// frame, the nutation and the true obliquity of the instant, then
/// delegate.
pub fn calculate_planetary_position(
    planet: Planet,
    jd_utc_ms: i64,
    helio: Option<(HelioPosition, HelioPosition)>,
) -> (r: Option<PlanetaryPosition>)
    requires
        190_000_000_000_000 <= jd_utc_ms <= 259_000_000_000_000,
        helio matches Some(h) ==> h.0.wf() && h.1.wf(),
    ensures
        r is Some <==> (!spec_needs_heliocentric(planet) || helio is Some),
        r matches Some(p) ==> p.wf() && p.planet == planet && ({
            let ym = calendar::spec_jd_to_calendar(jd_utc_ms as int);
            let jde = jd_utc_ms + timescale::spec_dut1_ms(jd_utc_ms as int)
                + timescale::spec_delta_t_ms(ym.0, ym.1);
            let eps = frames::spec_obliquity(jde) + frames::spec_nutation(jde).1;
            Some(
                (
                    p.right_ascension_udeg as int,
                    p.declination_udeg as int,
                    p.ecliptic_longitude_udeg as int,
                ),
            ) == spec_position_tt(planet, jde, helio, eps, frames::spec_nutation(jde).0)
        }),
{
    let (year, month, _day) = calendar::jd_to_calendar(jd_utc_ms);
    proof {
        calendar::lemma_jd_to_calendar_shape(jd_utc_ms as int);
    }
    let jde = timescale::ut_to_tt(jd_utc_ms, year, month);
    let nutation = frames::calculate_nutation(jde);
    let obliquity = frames::calculate_true_obliquity(jde);
    calculate_planetary_position_tt(planet, jde, helio, obliquity, &nutation)
}

} // verus!
