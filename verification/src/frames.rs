//! Frame transformations: mean and true obliquity (IAU 2006), the
//! simplified IAU 2000B nutation series, Greenwich and local sidereal time,
//! the ecliptic-to-equatorial rotation and annual aberration.
//!
//! Angles are `i64` micro-degrees; internal series run in micro-arcseconds
//! (`i128`).  Time enters as `t`, micro-centuries of TT since J2000.

use vstd::prelude::*;
use crate::angle;
use crate::calendar;
use crate::fixmath::{divb, divv, mulb, qmulb};
use crate::timescale;
use crate::trig;

verus! {

/// Earliest TT accepted by the frame series, as Julian Date milliseconds
/// (around the year 1100).
pub const FRAMES_MIN_MS: i64 = 180_000_000_000_000;

/// Latest TT accepted by the frame series (around the year 3300).
pub const FRAMES_MAX_MS: i64 = 260_000_000_000_000;

/// Nutation components in micro-degrees.
pub struct Nutation {
    /// Nutation in longitude.
    pub delta_psi_udeg: i64,
    /// Nutation in obliquity.
    pub delta_epsilon_udeg: i64,
}


/// Julian centuries since J2000.0 in micro-centuries, the exact model.
pub open spec fn spec_centuries(jd_tt_ms: int) -> int {
    ((jd_tt_ms - 211_813_488_000_000) * 1_000_000) / 3_155_760_000_000
}

/// Exact model of the mean obliquity series, micro-degrees.
pub open spec fn spec_obliquity(jd_tt_ms: int) -> int {
    let t = spec_centuries(jd_tt_ms);
    let p2 = t * t;
    let p3 = p2 * t;
    let p4 = p3 * t;
    let p5 = p4 * t;
    let q5 = p5 / 1_000_000;
    let eps_uas = 84_381_406_000 - (46_836_769 * t) / 1_000_000 - (1_831 * p2)
        / 10_000_000_000_000 + (20_034 * p3) / 10_000_000_000_000_000_000 - (576 * p4)
        / 1_000_000_000_000_000_000_000_000_000 - (434 * q5)
        / 10_000_000_000_000_000_000_000_000_000;
    eps_uas / 3600
}

/// Exact model of one fundamental lunisolar argument, micro-degrees.
pub open spec fn spec_fund_arg(t: int, c0: int, c1x10: int, c2: int, c3: int, c4x100: int) -> int {
    let p2 = t * t;
    let p3 = p2 * t;
    let p4 = p3 * t;
    let arg_uas = c0 + (c1x10 * t) / 10_000_000 + (c2 * p2) / 1_000_000_000_000 + (c3 * p3)
        / 1_000_000_000_000_000_000 + (c4x100 * p4) / 100_000_000_000_000_000_000_000_000;
    arg_uas / 3600
}

/// Exact model of `nutation_rows_a`.
pub open spec fn spec_nutation_rows_a(t: int, l: int, lp: int, f: int, d: int, om: int) -> (int, int) {
    let psi = (-17_199_600 + ((-17_420) * t) / 1_000_000) * trig::spec_sin_q(om)
        + (-1_318_700 + ((-160) * t) / 1_000_000) * trig::spec_sin_q(2 * f - 2 * d + 2 * om)
        + (-227_400 + ((-20) * t) / 1_000_000) * trig::spec_sin_q(2 * f + 2 * om)
        + (206_200 + ((20) * t) / 1_000_000) * trig::spec_sin_q(2 * om)
        + (142_600 + ((-340) * t) / 1_000_000) * trig::spec_sin_q(lp)
        + (71_200 + ((10) * t) / 1_000_000) * trig::spec_sin_q(l);
    let eps = (9_202_500 + ((890) * t) / 1_000_000) * trig::spec_cos_q(om)
        + (573_600 + ((-310) * t) / 1_000_000) * trig::spec_cos_q(2 * f - 2 * d + 2 * om)
        + (97_700 + ((-50) * t) / 1_000_000) * trig::spec_cos_q(2 * f + 2 * om)
        + (-89_500 + ((50) * t) / 1_000_000) * trig::spec_cos_q(2 * om)
        + (5_400 + ((-10) * t) / 1_000_000) * trig::spec_cos_q(lp)
        + (-700) * trig::spec_cos_q(l);
    (psi, eps)
}

/// Exact model of `nutation_rows_b`.
pub open spec fn spec_nutation_rows_b(t: int, l: int, lp: int, f: int, d: int, om: int) -> (int, int) {
    let psi = (-51_700 + ((120) * t) / 1_000_000) * trig::spec_sin_q(lp + 2 * f - 2 * d + 2 * om)
        + (-38_600 + ((-40) * t) / 1_000_000) * trig::spec_sin_q(2 * f + om)
        + (-30_100) * trig::spec_sin_q(l + 2 * f + 2 * om)
        + (21_700 + ((-50) * t) / 1_000_000) * trig::spec_sin_q(-lp + 2 * f - 2 * d + 2 * om)
        + (-15_800) * trig::spec_sin_q(l - 2 * d)
        + (12_900 + ((10) * t) / 1_000_000) * trig::spec_sin_q(2 * f - 2 * d + om)
        + (12_300) * trig::spec_sin_q(-l + 2 * f + 2 * om);
    let eps = (22_400 + ((-60) * t) / 1_000_000) * trig::spec_cos_q(lp + 2 * f - 2 * d + 2 * om)
        + (20_000) * trig::spec_cos_q(2 * f + om)
        + (12_900 + ((-10) * t) / 1_000_000) * trig::spec_cos_q(l + 2 * f + 2 * om)
        + (-9_500 + ((30) * t) / 1_000_000) * trig::spec_cos_q(-lp + 2 * f - 2 * d + 2 * om)
        + (-100) * trig::spec_cos_q(l - 2 * d)
        + (-7_000) * trig::spec_cos_q(2 * f - 2 * d + om)
        + (-5_300) * trig::spec_cos_q(-l + 2 * f + 2 * om);
    (psi, eps)
}

/// Exact model of the nutation components, micro-degrees: the five
/// fundamental arguments, the thirteen series rows, and the two
/// scale-downs.
pub open spec fn spec_nutation(jd_tt_ms: int) -> (int, int) {
    let t = spec_centuries(jd_tt_ms);
    let l = spec_fund_arg(t, 485_868_249_036, 17_179_159_232_178_000, 31_879_200, 51_635, -24_470);
    let lp = spec_fund_arg(t, 1_287_104_793_050, 1_295_965_810_481_000, -553_200, 136, -1_149);
    let f = spec_fund_arg(t, 335_779_526_232, 17_395_272_628_478_000, -12_751_200, -1_037, 417);
    let d = spec_fund_arg(t, 1_072_260_703_690, 16_029_616_012_090_000, -6_370_600, 6_593, -3_169);
    let om = spec_fund_arg(t, 450_160_398_036, -69_628_905_431_000, 7_472_200, 7_702, -5_939);
    let ra = spec_nutation_rows_a(t, l, lp, f, d, om);
    let rb = spec_nutation_rows_b(t, l, lp, f, d, om);
    let dpsi_uas = (ra.0 + rb.0) / 1_000_000_000_000;
    let deps_uas = (ra.1 + rb.1) / 1_000_000_000_000;
    (dpsi_uas / 3600, deps_uas / 3600)
}

/// Julian centuries since J2000.0 in micro-centuries.
fn centuries_micro(jd_tt_ms: i64) -> (t: i128)
    requires
        FRAMES_MIN_MS - 1_000_000 <= jd_tt_ms <= FRAMES_MAX_MS + 1_000_000,
    ensures
        t == spec_centuries(jd_tt_ms as int),
        -16_000_000 <= t <= 16_000_000,
{
    let delta: i128 = (jd_tt_ms as i128) - (calendar::J2000_MS as i128);
    divb(delta * 1_000_000, 50_000_000_000_000_000_000, 3_155_760_000_000)
}

/// Mean obliquity of the ecliptic (IAU 2006 series) in micro-degrees.
#[verifier::rlimit(100)]
#[verifier::spinoff_prover]
pub fn calculate_obliquity(jd_tt_ms: i64) -> (r: i64)
    requires
        FRAMES_MIN_MS <= jd_tt_ms <= FRAMES_MAX_MS,
    ensures
        r == spec_obliquity(jd_tt_ms as int),
        23_200_000 <= r <= 23_700_000,
{
    let t = centuries_micro(jd_tt_ms);
    let p2 = mulb(t, 16_000_000, t, 16_000_000);
    let p3 = mulb(p2, 256_000_000_000_000, t, 16_000_000);
    let p4 = mulb(p3, 4_096_000_000_000_000_000_000, t, 16_000_000);
    let p5 = mulb(p4, 65_536_000_000_000_000_000_000_000_000, t, 16_000_000);
    let q5 = divb(p5, 1_048_576_000_000_000_000_000_000_000_000_000_000, 1_000_000);
    let eps_uas: i128 = 84_381_406_000
        - divb(mulb(46_836_769, 46_836_769, t, 16_000_000), 749_388_304_000_000, 1_000_000)
        - divb(mulb(1_831, 1_831, p2, 256_000_000_000_000), 468_736_000_000_000_000, 10_000_000_000_000)
        + divb(20_034 * p3, 82_059_264_000_000_000_000_000_000, 10_000_000_000_000_000_000)
        - divb(
            576 * p4,
            37_748_736_000_000_000_000_000_000_000_000,
            1_000_000_000_000_000_000_000_000_000,
        )
        - divb(
            434 * q5,
            455_081_984_000_000_000_000_000_000_000_000,
            10_000_000_000_000_000_000_000_000_000,
        );
    divb(eps_uas, 85_200_000_000, 3600) as i64
}

/// One fundamental lunisolar argument of the nutation series, in
/// micro-degrees (un-normalized; the sine normalizes).
///
/// Coefficients: `c0` in micro-arcseconds, `c1x10` in tenths of a
/// micro-arcsecond per century, `c2` and `c3` in micro-arcseconds per
/// century squared and cubed, `c4x100` in hundredths per century fourth.
#[verifier::rlimit(100)]
#[verifier::spinoff_prover]
fn fund_arg(t: i128, c0: i128, c1x10: i128, c2: i128, c3: i128, c4x100: i128) -> (r: i64)
    requires
        -16_000_000 <= t <= 16_000_000,
        0 <= c0 <= 2_000_000_000_000,
        -18_000_000_000_000_000 <= c1x10 <= 18_000_000_000_000_000,
        -32_000_000 <= c2 <= 32_000_000,
        -60_000 <= c3 <= 60_000,
        -25_000 <= c4x100 <= 25_000,
    ensures
        r == spec_fund_arg(t as int, c0 as int, c1x10 as int, c2 as int, c3 as int, c4x100 as int),
        -10_000_000_000_000 <= r <= 10_000_000_000_000,
{
    let p2 = mulb(t, 16_000_000, t, 16_000_000);
    let p3 = mulb(p2, 256_000_000_000_000, t, 16_000_000);
    let p4 = mulb(p3, 4_096_000_000_000_000_000_000, t, 16_000_000);
    let c1t = mulb(c1x10, 18_000_000_000_000_000, t, 16_000_000);
    let arg_uas: i128 = c0
        + divb(c1t, 288_000_000_000_000_000_000_000, 10_000_000)
        + divb(mulb(c2, 32_000_000, p2, 256_000_000_000_000), 8_192_000_000_000_000_000_000, 1_000_000_000_000)
        + divb(mulb(c3, 60_000, p3, 4_096_000_000_000_000_000_000), 245_760_000_000_000_000_000_000_000, 1_000_000_000_000_000_000)
        + divb(mulb(c4x100, 25_000, p4, 65_536_000_000_000_000_000_000_000_000), 1_638_400_000_000_000_000_000_000_000_000_000_000, 100_000_000_000_000_000_000_000_000);
    divb(arg_uas, 33_000_000_000_000_000, 3600) as i64
}


/// A block of the nutation series rows; partial sums for the longitude and
/// obliquity components, bounded by the block's coefficient sums (in
/// micro-arcseconds times 10^12).
#[verifier::rlimit(100)]
#[verifier::spinoff_prover]
fn nutation_rows_a(t: i128, l: i64, lp: i64, f: i64, d: i64, om: i64) -> (r: (i128, i128))
    requires
        -16_000_000 <= t <= 16_000_000,
        -10_000_000_000_000 <= l <= 10_000_000_000_000,
        -10_000_000_000_000 <= lp <= 10_000_000_000_000,
        -10_000_000_000_000 <= f <= 10_000_000_000_000,
        -10_000_000_000_000 <= d <= 10_000_000_000_000,
        -10_000_000_000_000 <= om <= 10_000_000_000_000,
    ensures
        r.0 == spec_nutation_rows_a(t as int, l as int, lp as int, f as int, d as int, om as int).0,
        r.1 == spec_nutation_rows_a(t as int, l as int, lp as int, f as int, d as int, om as int).1,
        -19457000000000000000 <= r.0 <= 19457000000000000000,
        -9993000000000000000 <= r.1 <= 9993000000000000000,
{
    let mut psi: i128 = 0;
    let mut eps: i128 = 0;
    let a1 = om;
    let s1: i128 = -17_199_600 + divb(mulb(-17_420, 17_420, t, 16_000_000), 300_000_000_000, 1_000_000);
    let c1: i128 = 9_202_500 + divb(mulb(890, 890, t, 16_000_000), 300_000_000_000, 1_000_000);
    psi = psi + mulb(s1, 17_479_000, trig::sin_q(a1) as i128, 1_000_000_000_000);
    eps = eps + mulb(c1, 9_217_000, trig::cos_q(a1) as i128, 1_000_000_000_000);
    let a2 = 2 * f - 2 * d + 2 * om;
    let s2: i128 = -1_318_700 + divb(mulb(-160, 160, t, 16_000_000), 300_000_000_000, 1_000_000);
    let c2: i128 = 573_600 + divb(mulb(-310, 310, t, 16_000_000), 300_000_000_000, 1_000_000);
    psi = psi + mulb(s2, 1_322_000, trig::sin_q(a2) as i128, 1_000_000_000_000);
    eps = eps + mulb(c2, 579_000, trig::cos_q(a2) as i128, 1_000_000_000_000);
    let a3 = 2 * f + 2 * om;
    let s3: i128 = -227_400 + divb(mulb(-20, 20, t, 16_000_000), 300_000_000_000, 1_000_000);
    let c3: i128 = 97_700 + divb(mulb(-50, 50, t, 16_000_000), 300_000_000_000, 1_000_000);
    psi = psi + mulb(s3, 228_000, trig::sin_q(a3) as i128, 1_000_000_000_000);
    eps = eps + mulb(c3, 99_000, trig::cos_q(a3) as i128, 1_000_000_000_000);
    let a4 = 2 * om;
    let s4: i128 = 206_200 + divb(mulb(20, 20, t, 16_000_000), 300_000_000_000, 1_000_000);
    let c4: i128 = -89_500 + divb(mulb(50, 50, t, 16_000_000), 300_000_000_000, 1_000_000);
    psi = psi + mulb(s4, 207_000, trig::sin_q(a4) as i128, 1_000_000_000_000);
    eps = eps + mulb(c4, 91_000, trig::cos_q(a4) as i128, 1_000_000_000_000);
    let a5 = lp;
    let s5: i128 = 142_600 + divb(mulb(-340, 340, t, 16_000_000), 300_000_000_000, 1_000_000);
    let c5: i128 = 5_400 + divb(mulb(-10, 10, t, 16_000_000), 300_000_000_000, 1_000_000);
    psi = psi + mulb(s5, 149_000, trig::sin_q(a5) as i128, 1_000_000_000_000);
    eps = eps + mulb(c5, 6_000, trig::cos_q(a5) as i128, 1_000_000_000_000);
    let a6 = l;
    let s6: i128 = 71_200 + divb(mulb(10, 10, t, 16_000_000), 300_000_000_000, 1_000_000);
    let c6: i128 = -700;
    psi = psi + mulb(s6, 72_000, trig::sin_q(a6) as i128, 1_000_000_000_000);
    eps = eps + mulb(c6, 1_000, trig::cos_q(a6) as i128, 1_000_000_000_000);
    (psi, eps)
}

/// A block of the nutation series rows; partial sums for the longitude and
/// obliquity components, bounded by the block's coefficient sums (in
/// micro-arcseconds times 10^12).
#[verifier::rlimit(100)]
#[verifier::spinoff_prover]
fn nutation_rows_b(t: i128, l: i64, lp: i64, f: i64, d: i64, om: i64) -> (r: (i128, i128))
    requires
        -16_000_000 <= t <= 16_000_000,
        -10_000_000_000_000 <= l <= 10_000_000_000_000,
        -10_000_000_000_000 <= lp <= 10_000_000_000_000,
        -10_000_000_000_000 <= f <= 10_000_000_000_000,
        -10_000_000_000_000 <= d <= 10_000_000_000_000,
        -10_000_000_000_000 <= om <= 10_000_000_000_000,
    ensures
        r.0 == spec_nutation_rows_b(t as int, l as int, lp as int, f as int, d as int, om as int).0,
        r.1 == spec_nutation_rows_b(t as int, l as int, lp as int, f as int, d as int, om as int).1,
        -191000000000000000 <= r.0 <= 191000000000000000,
        -82000000000000000 <= r.1 <= 82000000000000000,
{
    let mut psi: i128 = 0;
    let mut eps: i128 = 0;
    let a7 = lp + 2 * f - 2 * d + 2 * om;
    let s7: i128 = -51_700 + divb(mulb(120, 120, t, 16_000_000), 300_000_000_000, 1_000_000);
    let c7: i128 = 22_400 + divb(mulb(-60, 60, t, 16_000_000), 300_000_000_000, 1_000_000);
    psi = psi + mulb(s7, 54_000, trig::sin_q(a7) as i128, 1_000_000_000_000);
    eps = eps + mulb(c7, 24_000, trig::cos_q(a7) as i128, 1_000_000_000_000);
    let a8 = 2 * f + om;
    let s8: i128 = -38_600 + divb(mulb(-40, 40, t, 16_000_000), 300_000_000_000, 1_000_000);
    let c8: i128 = 20_000;
    psi = psi + mulb(s8, 40_000, trig::sin_q(a8) as i128, 1_000_000_000_000);
    eps = eps + mulb(c8, 20_000, trig::cos_q(a8) as i128, 1_000_000_000_000);
    let a9 = l + 2 * f + 2 * om;
    let s9: i128 = -30_100;
    let c9: i128 = 12_900 + divb(mulb(-10, 10, t, 16_000_000), 300_000_000_000, 1_000_000);
    psi = psi + mulb(s9, 31_000, trig::sin_q(a9) as i128, 1_000_000_000_000);
    eps = eps + mulb(c9, 14_000, trig::cos_q(a9) as i128, 1_000_000_000_000);
    let a10 = -lp + 2 * f - 2 * d + 2 * om;
    let s10: i128 = 21_700 + divb(mulb(-50, 50, t, 16_000_000), 300_000_000_000, 1_000_000);
    let c10: i128 = -9_500 + divb(mulb(30, 30, t, 16_000_000), 300_000_000_000, 1_000_000);
    psi = psi + mulb(s10, 23_000, trig::sin_q(a10) as i128, 1_000_000_000_000);
    eps = eps + mulb(c10, 10_000, trig::cos_q(a10) as i128, 1_000_000_000_000);
    let a11 = l - 2 * d;
    let s11: i128 = -15_800;
    let c11: i128 = -100;
    psi = psi + mulb(s11, 16_000, trig::sin_q(a11) as i128, 1_000_000_000_000);
    eps = eps + mulb(c11, 1_000, trig::cos_q(a11) as i128, 1_000_000_000_000);
    let a12 = 2 * f - 2 * d + om;
    let s12: i128 = 12_900 + divb(mulb(10, 10, t, 16_000_000), 300_000_000_000, 1_000_000);
    let c12: i128 = -7_000;
    psi = psi + mulb(s12, 14_000, trig::sin_q(a12) as i128, 1_000_000_000_000);
    eps = eps + mulb(c12, 7_000, trig::cos_q(a12) as i128, 1_000_000_000_000);
    let a13 = -l + 2 * f + 2 * om;
    let s13: i128 = 12_300;
    let c13: i128 = -5_300;
    psi = psi + mulb(s13, 13_000, trig::sin_q(a13) as i128, 1_000_000_000_000);
    eps = eps + mulb(c13, 6_000, trig::cos_q(a13) as i128, 1_000_000_000_000);
    (psi, eps)
}

/// Nutation in longitude and obliquity, IAU 2000B main terms, in
/// micro-degrees.
#[verifier::rlimit(100)]
#[verifier::spinoff_prover]
pub fn calculate_nutation(jd_tt_ms: i64) -> (r: Nutation)
    requires
        FRAMES_MIN_MS <= jd_tt_ms <= FRAMES_MAX_MS,
    ensures
        r.delta_psi_udeg == spec_nutation(jd_tt_ms as int).0,
        r.delta_epsilon_udeg == spec_nutation(jd_tt_ms as int).1,
        -5_500 <= r.delta_psi_udeg <= 5_500,
        -2_800 <= r.delta_epsilon_udeg <= 2_800,
{
    let t = centuries_micro(jd_tt_ms);
    let l = fund_arg(t, 485_868_249_036, 17_179_159_232_178_000, 31_879_200, 51_635, -24_470);
    let lp = fund_arg(t, 1_287_104_793_050, 1_295_965_810_481_000, -553_200, 136, -1_149);
    let f = fund_arg(t, 335_779_526_232, 17_395_272_628_478_000, -12_751_200, -1_037, 417);
    let d = fund_arg(t, 1_072_260_703_690, 16_029_616_012_090_000, -6_370_600, 6_593, -3_169);
    let om = fund_arg(t, 450_160_398_036, -69_628_905_431_000, 7_472_200, 7_702, -5_939);

    let ra = nutation_rows_a(t, l, lp, f, d, om);
    let rb = nutation_rows_b(t, l, lp, f, d, om);
    let acc_psi: i128 = ra.0 + rb.0;
    let acc_eps: i128 = ra.1 + rb.1;

    let dpsi_uas = divb(acc_psi, 19_648_000_000_000_000_000, 1_000_000_000_000);
    let deps_uas = divb(acc_eps, 10_075_000_000_000_000_000, 1_000_000_000_000);
    Nutation {
        delta_psi_udeg: divb(dpsi_uas, 19_648_000, 3600) as i64,
        delta_epsilon_udeg: divb(deps_uas, 10_075_000, 3600) as i64,
    }
}

/// True obliquity: mean obliquity plus nutation in obliquity, micro-degrees.
pub fn calculate_true_obliquity(jd_tt_ms: i64) -> (r: i64)
    requires
        FRAMES_MIN_MS <= jd_tt_ms <= FRAMES_MAX_MS,
    ensures
        r == spec_obliquity(jd_tt_ms as int) + spec_nutation(jd_tt_ms as int).1,
        23_100_000 <= r <= 23_800_000,
{
    let eps = calculate_obliquity(jd_tt_ms);
    let nut = calculate_nutation(jd_tt_ms);
    eps + nut.delta_epsilon_udeg
}


/// Exact model of the sidereal-time polynomial: UT1 via the DUT1 model,
/// the linear day term, the century terms, folded into `[0, 360)` degrees.
pub open spec fn spec_gmst(jd_utc_ms: int) -> int {
    let jd_ut1 = jd_utc_ms + timescale::spec_dut1_ms(jd_utc_ms);
    let d_ms = jd_ut1 - 211_813_488_000_000;
    let term_main = (d_ms * 36_098_564_736_629) / 86_400_000_000;
    let t = spec_centuries(jd_ut1);
    let p2 = t * t;
    let p3 = p2 * t;
    let term_sq = (387_933 * p2) / 10_000_000_000_000;
    let term_cb = p3 / 387_100_000_000_000_000;
    let total_udeg = (28_046_061_837 + term_main + term_sq - term_cb) / 100;
    total_udeg % 360_000_000
}

/// Exact model of the solar elements used by the aberration correction:
/// the Sun's true longitude, the longitude of perihelion (micro-degrees)
/// and the orbital eccentricity scaled by 10^9.
pub open spec fn spec_solar_elements(jd_tt_ms: int) -> (int, int, int) {
    let t = spec_centuries(jd_tt_ms);
    let p2 = t * t;
    let l0 = 280_466_460 + (36_000_769_830 * t) / 1_000_000 + (303 * p2) / 1_000_000_000_000;
    let m = 357_529_110 + (35_999_050_290 * t) / 1_000_000 + ((-154) * p2) / 1_000_000_000_000;
    let ecc = 16_708_634 - (42_037 * t) / 1_000_000 - (127 * p2) / 1_000_000_000_000;
    let c_coeff = 1_914_602 - (4_817 * t) / 1_000_000 - (14 * p2) / 1_000_000_000_000;
    let c2_coeff = 19_993 - (101 * t) / 1_000_000;
    let center = (c_coeff * trig::spec_sin_q(m)) / 1_000_000_000_000 + (c2_coeff * trig::spec_sin_q(
        2 * m,
    )) / 1_000_000_000_000 + (289 * trig::spec_sin_q(3 * m)) / 1_000_000_000_000;
    let sun_lon = l0 + center;
    let pi_lon = 102_937_350 + (1_719_460 * t) / 1_000_000 + (460 * p2) / 1_000_000_000_000;
    (sun_lon, pi_lon, ecc)
}

/// Exact model of the equatorial rotation: the right ascension through the
/// two-argument arc tangent, the declination through the arc sine.
pub open spec fn spec_ecliptic_to_equatorial(lon: int, lat: int, eps: int) -> (int, int) {
    let sin_lon = trig::spec_sin_q(lon);
    let cos_lon = trig::spec_cos_q(lon);
    let sin_lat = trig::spec_sin_q(lat);
    let cos_lat = trig::spec_cos_q(lat);
    let sin_eps = trig::spec_sin_q(eps);
    let cos_eps = trig::spec_cos_q(eps);
    let sl_ce = (sin_lon * cos_eps) / 1_000_000_000_000;
    let y = (sl_ce * cos_lat) / 1_000_000_000_000 - (sin_lat * sin_eps) / 1_000_000_000_000;
    let x = (cos_lon * cos_lat) / 1_000_000_000_000;
    let ra = angle::norm_360(trig::spec_atan2(y, x));
    let cl_se = (cos_lat * sin_eps) / 1_000_000_000_000;
    let sdec = (sin_lat * cos_eps) / 1_000_000_000_000 + (cl_se * sin_lon) / 1_000_000_000_000;
    (ra, trig::spec_asin(sdec))
}

/// Exact model of the annual aberration corrections.
pub open spec fn spec_aberration(ra: int, dec: int, jd_tt_ms: int, eps: int) -> (int, int) {
    let cos_dec = trig::spec_cos_q(dec);
    if cos_dec < 8_726_000_000 {
        (0, 0)
    } else {
        let solar = spec_solar_elements(jd_tt_ms);
        let sun_lon = solar.0;
        let pi_lon = solar.1;
        let ecc = solar.2;
        let sin_sun = trig::spec_sin_q(sun_lon);
        let cos_sun = trig::spec_cos_q(sun_lon);
        let sin_pi = trig::spec_sin_q(pi_lon);
        let cos_pi = trig::spec_cos_q(pi_lon);
        let sin_ra = trig::spec_sin_q(ra);
        let cos_ra = trig::spec_cos_q(ra);
        let sin_ob = trig::spec_sin_q(eps);
        let cos_ob = trig::spec_cos_q(eps);
        let sin_dec = trig::spec_sin_q(dec);
        let tan_dec = crate::fixmath::spec_divv(sin_dec * 1_000_000_000_000, cos_dec);
        let cra_csun = (cos_ra * cos_sun) / 1_000_000_000_000;
        let comb1 = (cra_csun * cos_ob) / 1_000_000_000_000 + (sin_ra * sin_sun)
            / 1_000_000_000_000;
        let cra_cpi = (cos_ra * cos_pi) / 1_000_000_000_000;
        let comb2 = (cra_cpi * cos_ob) / 1_000_000_000_000 + (sin_ra * sin_pi) / 1_000_000_000_000;
        let num1 = crate::fixmath::spec_divv(5_693_200 * comb1, cos_dec);
        let e_k = (ecc * 5_693_200) / 1_000_000_000;
        let num2 = crate::fixmath::spec_divv(e_k * comb2, cos_dec);
        let dra = (-num1 + num2) / 1000;
        let td_cos = (tan_dec * cos_ob) / 1_000_000_000_000;
        let inner = td_cos - (sin_ra * sin_ob) / 1_000_000_000_000;
        let csun_cob = (cos_sun * cos_ob) / 1_000_000_000_000;
        let part1 = (csun_cob * inner) / 1_000_000_000_000;
        let cra_ssun = (cos_ra * sin_sun) / 1_000_000_000_000;
        let part2 = (cra_ssun * sin_ob) / 1_000_000_000_000;
        let cpi_cob = (cos_pi * cos_ob) / 1_000_000_000_000;
        let part1e = (cpi_cob * inner) / 1_000_000_000_000;
        let cra_spi = (cos_ra * sin_pi) / 1_000_000_000_000;
        let part2e = (cra_spi * sin_ob) / 1_000_000_000_000;
        let num3 = (5_693_200 * (part1 + part2)) / 1_000_000_000_000;
        let num4e = (e_k * (part1e + part2e)) / 1_000_000_000_000;
        let ddec = (-num3 + num4e) / 1000;
        (dra, ddec)
    }
}

/// Greenwich Mean Sidereal Time in micro-degrees, normalized to
/// `[0, 360)` degrees.  The input Julian Date is UTC; DUT1 is applied
/// internally so the rotation angle is referred to UT1.
#[verifier::rlimit(100)]
#[verifier::spinoff_prover]
pub fn calculate_gmst(jd_utc_ms: i64) -> (r: i64)
    requires
        FRAMES_MIN_MS <= jd_utc_ms <= FRAMES_MAX_MS,
    ensures
        r == spec_gmst(jd_utc_ms as int),
        0 <= r < angle::TURN,
        r == angle::norm_360(r as int),
{
    let jd_ut1 = timescale::utc_to_ut1(jd_utc_ms);
    let d_ms: i128 = (jd_ut1 as i128) - (calendar::J2000_MS as i128);
    // 360.98564736629 degrees per day, in hundredths of a micro-degree.
    let main = mulb(d_ms, 50_000_000_000_000, 36_098_564_736_629, 36_098_564_736_629);
    let term_main = divb(
        main,
        1_804_928_236_831_450_000_000_000_000,
        86_400_000_000,
    );
    let t = centuries_micro(jd_ut1);
    let p2 = mulb(t, 16_000_000, t, 16_000_000);
    let p3 = mulb(p2, 256_000_000_000_000, t, 16_000_000);
    let term_sq = divb(mulb(387_933, 387_933, p2, 256_000_000_000_000), 99_311_000_000_000_000_000, 10_000_000_000_000);
    let term_cb = divb(p3, 4_096_000_000_000_000_000_000, 387_100_000_000_000_000);
    let total_cudeg: i128 = 28_046_061_837 + term_main + term_sq - term_cb;
    let total_udeg = divb(total_cudeg, 30_000_000_000_000_000_000_000_000, 100);
    let folded = match total_udeg.checked_rem_euclid(360_000_000) {
        Some(v) => v,
        None => {
            proof {
                assert(false);
            }
            0
        },
    };
    let reduced: i64 = folded as i64;
    let g = angle::normalize_deg(reduced);
    g
}

/// Local Sidereal Time: GMST plus the geographic longitude, normalized.
pub fn calculate_lst(gmst_udeg: i64, longitude_udeg: i64) -> (r: i64)
    requires
        0 <= gmst_udeg < angle::TURN,
        -180_000_000 <= longitude_udeg <= 180_000_000,
    ensures
        r == angle::norm_360(gmst_udeg + longitude_udeg),
        0 <= r < angle::TURN,
{
    angle::normalize_deg(gmst_udeg + longitude_udeg)
}

/// Rotate an ecliptic position (longitude, latitude, both micro-degrees)
/// into equatorial coordinates at the given obliquity.  The right ascension
/// comes back normalized to `[0, 360)` degrees and the declination lies in
/// `[-90, 90]` degrees: every body's published coordinates satisfy the
/// equatorial range invariant by construction.
#[verifier::rlimit(100)]
#[verifier::spinoff_prover]
pub fn ecliptic_to_equatorial(ecl_lon_udeg: i64, ecl_lat_udeg: i64, obliquity_udeg: i64) -> (r: (i64, i64))
    ensures
        r.0 == spec_ecliptic_to_equatorial(
            ecl_lon_udeg as int,
            ecl_lat_udeg as int,
            obliquity_udeg as int,
        ).0,
        r.1 == spec_ecliptic_to_equatorial(
            ecl_lon_udeg as int,
            ecl_lat_udeg as int,
            obliquity_udeg as int,
        ).1,
        0 <= r.0 < angle::TURN,
        -90_000_000 <= r.1 <= 90_000_000,
{
    let sin_lon = trig::sin_q(ecl_lon_udeg) as i128;
    let cos_lon = trig::cos_q(ecl_lon_udeg) as i128;
    let sin_lat = trig::sin_q(ecl_lat_udeg) as i128;
    let cos_lat = trig::cos_q(ecl_lat_udeg) as i128;
    let sin_eps = trig::sin_q(obliquity_udeg) as i128;
    let cos_eps = trig::cos_q(obliquity_udeg) as i128;
    let qb: i128 = 1_000_000_000_000;

    // y = sin(lon) cos(eps) cos(lat) - sin(lat) sin(eps), in Q units.
    let sl_ce = qmulb(sin_lon, qb, cos_eps, qb);
    let y: i128 = qmulb(sl_ce, qb, cos_lat, qb) - qmulb(sin_lat, qb, sin_eps, qb);
    // x = cos(lon) cos(lat), in Q units.
    let x: i128 = qmulb(cos_lon, qb, cos_lat, qb);

    let ra = angle::normalize_deg(trig::atan2_udeg(y as i64, x as i64));

    // sin(dec) = sin(lat) cos(eps) + cos(lat) sin(eps) sin(lon), in Q units.
    let cl_se = qmulb(cos_lat, qb, sin_eps, qb);
    let s: i128 = qmulb(sin_lat, qb, cos_eps, qb) + qmulb(cl_se, qb, sin_lon, qb);
    let dec = trig::asin_unit(s as i64);
    (ra, dec)
}

/// The Sun's true longitude, the longitude of perihelion (both
/// micro-degrees) and the eccentricity of the Earth's orbit (scaled by
/// 10^9), for the annual aberration correction.
#[verifier::rlimit(100)]
#[verifier::spinoff_prover]
fn solar_elements(jd_tt_ms: i64) -> (r: (i64, i64, i64))
    requires
        FRAMES_MIN_MS <= jd_tt_ms <= FRAMES_MAX_MS,
    ensures
        r.0 == spec_solar_elements(jd_tt_ms as int).0,
        r.1 == spec_solar_elements(jd_tt_ms as int).1,
        r.2 == spec_solar_elements(jd_tt_ms as int).2,
        -600_000_000_000 <= r.0 <= 600_000_000_000,
        -30_000_000_000 <= r.1 <= 30_000_000_000,
        15_000_000 <= r.2 <= 18_000_000,
{
    let t = centuries_micro(jd_tt_ms);
    let p2 = mulb(t, 16_000_000, t, 16_000_000);

    // Sun's mean longitude and mean anomaly, micro-degrees (un-normalized).
    let l0: i64 = (280_466_460
        + divb(mulb(36_000_769_830, 36_000_769_830, t, 16_000_000), 576_012_317_280_000_000, 1_000_000)
        + divb(mulb(303, 303, p2, 256_000_000_000_000), 77_568_000_000_000_000, 1_000_000_000_000)) as i64;
    let m: i64 = (357_529_110
        + divb(mulb(35_999_050_290, 35_999_050_290, t, 16_000_000), 575_984_804_640_000_000, 1_000_000)
        + divb(mulb(-154, 154, p2, 256_000_000_000_000), 39_424_000_000_000_000, 1_000_000_000_000)) as i64;

    // Eccentricity of the Earth's orbit, scaled by 10^9.
    let ecc: i128 = 16_708_634 - divb(mulb(42_037, 42_037, t, 16_000_000), 672_592_000_000, 1_000_000)
        - divb(mulb(127, 127, p2, 256_000_000_000_000), 32_512_000_000_000_000, 1_000_000_000_000);

    // Equation of center, micro-degrees.
    let sin_m = trig::sin_q(m) as i128;
    let sin_2m = trig::sin_q(2 * m) as i128;
    let sin_3m = trig::sin_q(3 * m) as i128;
    let c_coeff: i128 = 1_914_602 - divb(mulb(4_817, 4_817, t, 16_000_000), 77_072_000_000, 1_000_000)
        - divb(mulb(14, 14, p2, 256_000_000_000_000), 3_584_000_000_000_000, 1_000_000_000_000);
    let c2_coeff: i128 = 19_993 - divb(mulb(101, 101, t, 16_000_000), 1_616_000_000, 1_000_000);
    let center: i128 = qmulb(c_coeff, 2_000_000, sin_m, 1_000_000_000_000)
        + qmulb(c2_coeff, 22_000, sin_2m, 1_000_000_000_000)
        + qmulb(289, 289, sin_3m, 1_000_000_000_000);

    let sun_lon: i64 = (l0 as i128 + center) as i64;
    // Longitude of perihelion, micro-degrees.
    let pi_lon: i64 = (102_937_350
        + divb(mulb(1_719_460, 1_719_460, t, 16_000_000), 27_511_360_000_000, 1_000_000)
        + divb(mulb(460, 460, p2, 256_000_000_000_000), 117_760_000_000_000_000, 1_000_000_000_000)) as i64;
    (sun_lon, pi_lon, ecc as i64)
}

/// Annual aberration corrections to a right ascension and declination, in
/// micro-degrees.  The corrections are small; at declinations within half a
/// degree of the poles the tangent formula degenerates and zero is
/// returned instead.
#[verifier::rlimit(100)]
#[verifier::spinoff_prover]
pub fn calculate_aberration(ra_udeg: i64, dec_udeg: i64, jd_tt_ms: i64, obliquity_udeg: i64) -> (r: (i64, i64))
    requires
        FRAMES_MIN_MS <= jd_tt_ms <= FRAMES_MAX_MS,
        -90_000_000 <= dec_udeg <= 90_000_000,
    ensures
        r.0 == spec_aberration(ra_udeg as int, dec_udeg as int, jd_tt_ms as int, obliquity_udeg as int).0,
        r.1 == spec_aberration(ra_udeg as int, dec_udeg as int, jd_tt_ms as int, obliquity_udeg as int).1,
        -1_500_000 <= r.0 <= 1_500_000,
        -1_500_000 <= r.1 <= 1_500_000,
{
    let cos_dec = trig::cos_q(dec_udeg);
    // cos(89.5 degrees) in Q units; below this the correction is skipped.
    if cos_dec < 8_726_000_000 {
        return (0, 0);
    }
    let solar = solar_elements(jd_tt_ms);
    let sun_lon: i64 = solar.0;
    let pi_lon: i64 = solar.1;
    let ecc: i128 = solar.2 as i128;

    let sin_sun = trig::sin_q(sun_lon) as i128;
    let cos_sun = trig::cos_q(sun_lon) as i128;
    let sin_pi = trig::sin_q(pi_lon) as i128;
    let cos_pi = trig::cos_q(pi_lon) as i128;
    let sin_ra = trig::sin_q(ra_udeg) as i128;
    let cos_ra = trig::cos_q(ra_udeg) as i128;
    let sin_ob = trig::sin_q(obliquity_udeg) as i128;
    let cos_ob = trig::cos_q(obliquity_udeg) as i128;
    let sin_dec = trig::sin_q(dec_udeg) as i128;

    let qb: i128 = 1_000_000_000_000;
    // tan(dec) in Q units; its magnitude stays below 115 Q here.
    let tan_dec = divv(
        mulb(sin_dec, qb, qb, qb),
        1_000_000_000_000_000_000_000_000,
        cos_dec as i128,
        8_726_000_000,
    );

    // Aberration constant 20.49552 arcseconds, in milli-micro-degrees.
    let kappa: i128 = 5_693_200;

    // Combination for the right ascension term:
    // cos(ra) cos(sun) cos(eps) + sin(ra) sin(sun), in Q units.
    let cra_csun = qmulb(cos_ra, qb, cos_sun, qb);
    let comb1: i128 = qmulb(cra_csun, qb, cos_ob, qb) + qmulb(sin_ra, qb, sin_sun, qb);
    let cra_cpi = qmulb(cos_ra, qb, cos_pi, qb);
    let comb2: i128 = qmulb(cra_cpi, qb, cos_ob, qb) + qmulb(sin_ra, qb, sin_pi, qb);

    // delta_ra = kappa * (-comb1 + e * comb2) / cos(dec).
    let num1 = divv(
        mulb(kappa, 5_693_200, comb1, 2 * qb),
        11_386_400_000_000_000_000,
        cos_dec as i128,
        8_726_000_000,
    );
    let e_k = divb(mulb(ecc, 18_000_000, kappa, 5_693_200), 102_477_600_000_000, 1_000_000_000);
    let num2 = divv(
        mulb(e_k, 102_477, comb2, 2 * qb),
        204_954_000_000_000_000,
        cos_dec as i128,
        8_726_000_000,
    );
    let dra: i128 = divb(-num1 + num2, 1_400_000_000, 1000);

    // Combination for the declination term.
    let td_cos = qmulb(tan_dec, 120 * qb, cos_ob, qb);
    let inner: i128 = td_cos - qmulb(sin_ra, qb, sin_ob, qb);
    let csun_cob = qmulb(cos_sun, qb, cos_ob, qb);
    let part1: i128 = qmulb(csun_cob, qb, inner, 121 * qb);
    let cra_ssun = qmulb(cos_ra, qb, sin_sun, qb);
    let part2: i128 = qmulb(cra_ssun, qb, sin_ob, qb);
    let cpi_cob = qmulb(cos_pi, qb, cos_ob, qb);
    let part1e: i128 = qmulb(cpi_cob, qb, inner, 121 * qb);
    let cra_spi = qmulb(cos_ra, qb, sin_pi, qb);
    let part2e: i128 = qmulb(cra_spi, qb, sin_ob, qb);

    let num3 = qmulb(kappa, 5_693_200, part1 + part2, 122 * qb);
    let num4e = qmulb(e_k, 102_477, part1e + part2e, 122 * qb);
    let ddec: i128 = divb(-num3 + num4e, 800_000_000, 1000);

    (dra as i64, ddec as i64)
}

} // verus!
