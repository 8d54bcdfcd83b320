//! Time scales: Delta T (TT - UT1), DUT1 (UT1 - UTC) and the chain from a
//! UTC Julian Date to UT1 and TT.
//!
//! Delta T follows the usual piecewise polynomials (USNO style), evaluated
//! in integer milli-year and millisecond units.  DUT1 is a small fitted
//! model around a 2020 epoch, clamped to the +-0.9 s band that leap seconds
//! guarantee.

use vstd::prelude::*;
use crate::calendar;
use crate::fixmath::{divc, mulb};
use crate::trig;

verus! {

/// Delta T in milliseconds never reported below this.
pub const DELTA_T_FLOOR_MS: i64 = -10_000_000;

/// Delta T in milliseconds never reported above this.
pub const DELTA_T_CEIL_MS: i64 = 10_000_000_000;

/// A divisor-monotone bound: if `lb <= x` then `lb / d <= x / d`.
proof fn lemma_div_ge(lb: int, x: int, d: int)
    requires
        lb <= x,
        0 < d,
    ensures
        lb / d <= x / d,
{
    vstd::arithmetic::div_mod::lemma_div_is_ordered(lb, x, d);
}

/// A divisor-monotone bound: if `x <= ub` then `x / d <= ub / d`.
proof fn lemma_div_le(x: int, ub: int, d: int)
    requires
        x <= ub,
        0 < d,
    ensures
        x / d <= ub / d,
{
    vstd::arithmetic::div_mod::lemma_div_is_ordered(x, ub, d);
}


/// Decimal year in milli-years: the year plus the month's midpoint.
pub open spec fn spec_milli_year(year: int, month: int) -> int {
    year * 1000 + ((2 * month - 1) * 1000) / 24
}

/// Exact model of the piecewise Delta T polynomial, before the final
/// clamp, over the decimal year in milli-years.
pub open spec fn spec_delta_t_raw(ym: int) -> int {
    if ym < -500_000 {
        let w = ym - 1_820_000;
        -20_000 + (32 * (w * w)) / 10_000_000
    } else if ym < 500_000 {
        let w = ym;
        let p2 = w * w;
        let p3 = p2 * w;
        let p4 = p3 * w;
        let p5 = p4 * w;
        let p6 = p5 * w;
        let q6 = p6 / 1_000_000;
        10_583_600 - (1_014_410 * w) / 100_000 + (3_378_311 * p2) / 1_000_000_000_000 - (5_952_053
            * p3) / 1_000_000_000_000_000_000 - (1_798_452 * p4)
            / 1_000_000_000_000_000_000_000_000 + (22_174_192 * p5)
            / 10_000_000_000_000_000_000_000_000_000_000 + (90_316_521 * q6)
            / 10_000_000_000_000_000_000_000_000_000_000
    } else if ym < 1_600_000 {
        let w = ym - 1_000_000;
        let p2 = w * w;
        let p3 = p2 * w;
        let p4 = p3 * w;
        let p5 = p4 * w;
        let p6 = p5 * w;
        let q6 = p6 / 1_000_000;
        1_574_200 - (556_010 * w) / 100_000 + (7_123_472 * p2) / 1_000_000_000_000 + (319_781 * p3)
            / 1_000_000_000_000_000_000 - (8_503_463 * p4) / 1_000_000_000_000_000_000_000_000 - (
        5_050_998 * p5) / 10_000_000_000_000_000_000_000_000_000_000 + (83_572_073 * q6)
            / 10_000_000_000_000_000_000_000_000_000_000
    } else if ym < 1_700_000 {
        let w = ym - 1_600_000;
        let p2 = w * w;
        let p3 = p2 * w;
        120_000 - (9_808 * w) / 10_000 - (1_532 * p2) / 100_000_000 + p3 / 7_129_000_000
    } else if ym < 1_800_000 {
        let w = ym - 1_700_000;
        let p2 = w * w;
        let p3 = p2 * w;
        let p4 = p3 * w;
        8_830 + (1_603 * w) / 10_000 - (59_285 * p2) / 10_000_000_000 + (13_336 * p3)
            / 100_000_000_000_000 - p4 / 1_174_000_000_000_000
    } else if ym < 1_860_000 {
        let w = ym - 1_800_000;
        let p2 = w * w;
        let p3 = p2 * w;
        let p4 = p3 * w;
        let p5 = p4 * w;
        let p6 = p5 * w;
        let p7 = p6 * w;
        13_720 - (332_447 * w) / 1_000_000 + (68_612 * p2) / 10_000_000_000 + (41_116 * p3)
            / 10_000_000_000_000 - (37_436 * p4) / 100_000_000_000_000_000 + (121_272 * p5)
            / 10_000_000_000_000_000_000_000 - (1_699 * p6) / 10_000_000_000_000_000_000_000_000
            + (875 * p7) / 1_000_000_000_000_000_000_000_000_000_000
    } else if ym < 1_900_000 {
        let w = ym - 1_860_000;
        let p2 = w * w;
        let p3 = p2 * w;
        let p4 = p3 * w;
        let p5 = p4 * w;
        7_620 + (5_737 * w) / 10_000 - (251_754 * p2) / 1_000_000_000 + (1_680_668 * p3)
            / 100_000_000_000_000 - (4_473_624 * p4) / 10_000_000_000_000_000_000 + p5
            / 233_174_000_000_000_000
    } else if ym < 1_920_000 {
        let w = ym - 1_900_000;
        let p2 = w * w;
        let p3 = p2 * w;
        let p4 = p3 * w;
        -2_790 + (1_494_119 * w) / 1_000_000 - (598_939 * p2) / 10_000_000_000 + (61_966 * p3)
            / 10_000_000_000_000 - (197 * p4) / 1_000_000_000_000_000
    } else if ym < 1_941_000 {
        let w = ym - 1_920_000;
        let p2 = w * w;
        let p3 = p2 * w;
        21_200 + (84_493 * w) / 100_000 - (761 * p2) / 10_000_000 + (20_936 * p3)
            / 10_000_000_000_000
    } else if ym < 1_961_000 {
        let w = ym - 1_950_000;
        let p2 = w * w;
        let p3 = p2 * w;
        29_070 + (407 * w) / 1_000 - p2 / 233_000 + p3 / 2_547_000_000
    } else if ym < 1_986_000 {
        let w = ym - 1_975_000;
        let p2 = w * w;
        let p3 = p2 * w;
        45_450 + (1_067 * w) / 1_000 - p2 / 260_000 - p3 / 718_000_000
    } else if ym < 2_005_000 {
        let w = ym - 2_000_000;
        let p2 = w * w;
        let p3 = p2 * w;
        let p4 = p3 * w;
        let p5 = p4 * w;
        63_860 + (3_345 * w) / 10_000 - (60_374 * p2) / 1_000_000_000 + (17_275 * p3)
            / 10_000_000_000_000 + (651_814 * p4) / 1_000_000_000_000_000_000 + (2_373_599 * p5)
            / 100_000_000_000_000_000_000_000
    } else if ym < 2_050_000 {
        let w = ym - 2_000_000;
        let p2 = w * w;
        62_920 + (32_217 * w) / 100_000 + (5_589 * p2) / 1_000_000_000
    } else if ym < 2_150_000 {
        let w = ym - 1_820_000;
        let p2 = w * w;
        let back = 2_150_000 - ym;
        -20_000 + (32 * p2) / 10_000_000 - (5_628 * back) / 10_000
    } else {
        let w = ym - 1_820_000;
        let p2 = w * w;
        -20_000 + (32 * p2) / 10_000_000
    }
}

/// Exact model of `calculate_delta_t`: the raw polynomial clamped to the
/// reporting band.
pub open spec fn spec_delta_t_ms(year: int, month: int) -> int {
    let raw = spec_delta_t_raw(spec_milli_year(year, month));
    if raw < -10_000_000 {
        -10_000_000
    } else if raw > 10_000_000_000 {
        10_000_000_000
    } else {
        raw
    }
}

/// Delta T = TT - UT1 in milliseconds for a calendar year and month.
///
/// Piecewise polynomial fits; the modern era (year >= 1950) is guaranteed
/// non-negative, which downstream time-frame invariants rely on.
#[verifier::rlimit(100)]
#[verifier::spinoff_prover]
pub fn calculate_delta_t(year: i32, month: u32) -> (r: i64)
    requires
        -20_000 <= year <= 20_000,
        1 <= month <= 12,
    ensures
        r == spec_delta_t_ms(year as int, month as int),
        DELTA_T_FLOOR_MS <= r <= DELTA_T_CEIL_MS,
        year >= 1950 ==> 0 <= r,
{
    // Decimal year in milli-years: year + (month - 0.5) / 12.
    let ym: i128 = (year as i128) * 1000 + divc(((2 * (month as i128)) - 1) * 1000, 24);
    proof {
        assert(0 <= ((2 * (month as int)) - 1) * 1000 <= 23_000);
    }
    let raw: i128 = if ym < -500_000 {
        let w: i128 = ym - 1_820_000;
        let p2 = mulb(w, 21_820_000, w, 21_820_000);
        -20_000 + divc(32 * p2, 10_000_000)
    } else if ym < 500_000 {
        let w: i128 = ym;
        let p2 = mulb(w, 500_000, w, 500_000);
        let p3 = mulb(p2, 250_000_000_000, w, 500_000);
        let p4 = mulb(p3, 125_000_000_000_000_000, w, 500_000);
        let p5 = mulb(p4, 62_500_000_000_000_000_000_000, w, 500_000);
        let p6 = mulb(p5, 31_250_000_000_000_000_000_000_000_000, w, 500_000);
        let q6 = divc(p6, 1_000_000);
        10_583_600 - divc(1_014_410 * w, 100_000) + divc(3_378_311 * p2, 1_000_000_000_000)
            - divc(5_952_053 * p3, 1_000_000_000_000_000_000)
            - divc(1_798_452 * p4, 1_000_000_000_000_000_000_000_000)
            + divc(22_174_192 * p5, 10_000_000_000_000_000_000_000_000_000_000)
            + divc(90_316_521 * q6, 10_000_000_000_000_000_000_000_000_000_000)
    } else if ym < 1_600_000 {
        let w: i128 = ym - 1_000_000;
        let p2 = mulb(w, 600_000, w, 600_000);
        let p3 = mulb(p2, 360_000_000_000, w, 600_000);
        let p4 = mulb(p3, 216_000_000_000_000_000, w, 600_000);
        let p5 = mulb(p4, 129_600_000_000_000_000_000_000, w, 600_000);
        let p6 = mulb(p5, 77_760_000_000_000_000_000_000_000_000, w, 600_000);
        let q6 = divc(p6, 1_000_000);
        1_574_200 - divc(556_010 * w, 100_000) + divc(7_123_472 * p2, 1_000_000_000_000)
            + divc(319_781 * p3, 1_000_000_000_000_000_000)
            - divc(8_503_463 * p4, 1_000_000_000_000_000_000_000_000)
            - divc(5_050_998 * p5, 10_000_000_000_000_000_000_000_000_000_000)
            + divc(83_572_073 * q6, 10_000_000_000_000_000_000_000_000_000_000)
    } else if ym < 1_700_000 {
        let w: i128 = ym - 1_600_000;
        let p2 = mulb(w, 100_000, w, 100_000);
        let p3 = mulb(p2, 10_000_000_000, w, 100_000);
        120_000 - divc(9_808 * w, 10_000) - divc(1_532 * p2, 100_000_000)
            + divc(p3, 7_129_000_000)
    } else if ym < 1_800_000 {
        let w: i128 = ym - 1_700_000;
        let p2 = mulb(w, 100_000, w, 100_000);
        let p3 = mulb(p2, 10_000_000_000, w, 100_000);
        let p4 = mulb(p3, 1_000_000_000_000_000, w, 100_000);
        8_830 + divc(1_603 * w, 10_000) - divc(59_285 * p2, 10_000_000_000)
            + divc(13_336 * p3, 100_000_000_000_000)
            - divc(p4, 1_174_000_000_000_000)
    } else if ym < 1_860_000 {
        let w: i128 = ym - 1_800_000;
        let p2 = mulb(w, 60_000, w, 60_000);
        let p3 = mulb(p2, 3_600_000_000, w, 60_000);
        let p4 = mulb(p3, 216_000_000_000_000, w, 60_000);
        let p5 = mulb(p4, 12_960_000_000_000_000_000, w, 60_000);
        let p6 = mulb(p5, 777_600_000_000_000_000_000_000, w, 60_000);
        let p7 = mulb(p6, 46_656_000_000_000_000_000_000_000_000, w, 60_000);
        13_720 - divc(332_447 * w, 1_000_000) + divc(68_612 * p2, 10_000_000_000)
            + divc(41_116 * p3, 10_000_000_000_000)
            - divc(37_436 * p4, 100_000_000_000_000_000)
            + divc(121_272 * p5, 10_000_000_000_000_000_000_000)
            - divc(1_699 * p6, 10_000_000_000_000_000_000_000_000)
            + divc(875 * p7, 1_000_000_000_000_000_000_000_000_000_000)
    } else if ym < 1_900_000 {
        let w: i128 = ym - 1_860_000;
        let p2 = mulb(w, 40_000, w, 40_000);
        let p3 = mulb(p2, 1_600_000_000, w, 40_000);
        let p4 = mulb(p3, 64_000_000_000_000, w, 40_000);
        let p5 = mulb(p4, 2_560_000_000_000_000_000, w, 40_000);
        7_620 + divc(5_737 * w, 10_000) - divc(251_754 * p2, 1_000_000_000)
            + divc(1_680_668 * p3, 100_000_000_000_000)
            - divc(4_473_624 * p4, 10_000_000_000_000_000_000)
            + divc(p5, 233_174_000_000_000_000)
    } else if ym < 1_920_000 {
        let w: i128 = ym - 1_900_000;
        let p2 = mulb(w, 20_000, w, 20_000);
        let p3 = mulb(p2, 400_000_000, w, 20_000);
        let p4 = mulb(p3, 8_000_000_000_000, w, 20_000);
        -2_790 + divc(1_494_119 * w, 1_000_000) - divc(598_939 * p2, 10_000_000_000)
            + divc(61_966 * p3, 10_000_000_000_000)
            - divc(197 * p4, 1_000_000_000_000_000)
    } else if ym < 1_941_000 {
        let w: i128 = ym - 1_920_000;
        let p2 = mulb(w, 21_000, w, 21_000);
        let p3 = mulb(p2, 441_000_000, w, 21_000);
        21_200 + divc(84_493 * w, 100_000) - divc(761 * p2, 10_000_000)
            + divc(20_936 * p3, 10_000_000_000_000)
    } else if ym < 1_961_000 {
        let w: i128 = ym - 1_950_000;
        let p2 = mulb(w, 11_000, w, 11_000);
        let p3 = mulb(p2, 121_000_000, w, 11_000);
        let r = 29_070 + divc(407 * w, 1_000) - divc(p2, 233_000) + divc(p3, 2_547_000_000);
        proof {
            if w >= 0 {
                lemma_div_ge(0, 407 * w, 1_000);
                lemma_div_le(p2 as int, 121_000_000, 233_000);
                lemma_div_ge(0, p3 as int, 2_547_000_000);
            }
        }
        r
    } else if ym < 1_986_000 {
        let w: i128 = ym - 1_975_000;
        let p2 = mulb(w, 14_000, w, 14_000);
        let p3 = mulb(p2, 196_000_000, w, 14_000);
        let r = 45_450 + divc(1_067 * w, 1_000) - divc(p2, 260_000) - divc(p3, 718_000_000);
        proof {
            lemma_div_ge(-14_938_000, 1_067 * w, 1_000);
            lemma_div_le(p2 as int, 196_000_000, 260_000);
            lemma_div_le(p3 as int, 2_744_000_000_000, 718_000_000);
        }
        r
    } else if ym < 2_005_000 {
        let w: i128 = ym - 2_000_000;
        let p2 = mulb(w, 14_000, w, 14_000);
        let p3 = mulb(p2, 196_000_000, w, 14_000);
        let p4 = mulb(p3, 2_744_000_000_000, w, 14_000);
        let p5 = mulb(p4, 38_416_000_000_000_000, w, 14_000);
        let r = 63_860 + divc(3_345 * w, 10_000) - divc(60_374 * p2, 1_000_000_000)
            + divc(17_275 * p3, 10_000_000_000_000)
            + divc(651_814 * p4, 1_000_000_000_000_000_000)
            + divc(2_373_599 * p5, 100_000_000_000_000_000_000_000);
        proof {
            lemma_div_ge(-46_830_000, 3_345 * w, 10_000);
            lemma_div_le(60_374 * p2 as int, 60_374int * 196_000_000, 1_000_000_000);
            lemma_div_ge(17_275 * (-2_744_000_000_000), 17_275 * p3 as int, 10_000_000_000_000);
            assert(p4 >= 0) by (nonlinear_arith)
                requires p4 == p3 * w, p3 == p2 * w, p2 == w * w;
            lemma_div_ge(0, 651_814 * p4 as int, 1_000_000_000_000_000_000);
            lemma_div_ge(
                2_373_599 * (-537_824_000_000_000_000_000),
                2_373_599 * p5 as int,
                100_000_000_000_000_000_000_000,
            );
        }
        r
    } else if ym < 2_050_000 {
        let w: i128 = ym - 2_000_000;
        let p2 = mulb(w, 50_000, w, 50_000);
        let r = 62_920 + divc(32_217 * w, 100_000) + divc(5_589 * p2, 1_000_000_000);
        proof {
            lemma_div_ge(0, 32_217 * w, 100_000);
            lemma_div_ge(0, 5_589 * p2 as int, 1_000_000_000);
        }
        r
    } else if ym < 2_150_000 {
        let w: i128 = ym - 1_820_000;
        let p2 = mulb(w, 330_000, w, 330_000);
        let back: i128 = 2_150_000 - ym;
        let r = -20_000 + divc(32 * p2, 10_000_000) - divc(5_628 * back, 10_000);
        proof {
            assert(p2 >= 52_900_000_000) by (nonlinear_arith)
                requires w >= 230_000, p2 == w * w;
            lemma_div_ge(32int * 52_900_000_000, 32 * p2 as int, 10_000_000);
            lemma_div_le(5_628 * back as int, 5_628int * 100_000, 10_000);
        }
        r
    } else {
        let w: i128 = ym - 1_820_000;
        let p2 = mulb(w, 18_300_000, w, 18_300_000);
        let r = -20_000 + divc(32 * p2, 10_000_000);
        proof {
            assert(p2 >= 108_900_000_000) by (nonlinear_arith)
                requires w >= 330_000, p2 == w * w;
            lemma_div_ge(32int * 108_900_000_000, 32 * p2 as int, 10_000_000);
        }
        r
    };
    if raw < (DELTA_T_FLOOR_MS as i128) {
        proof {
            assert(!(year >= 1950));
        }
        DELTA_T_FLOOR_MS
    } else if raw > (DELTA_T_CEIL_MS as i128) {
        DELTA_T_CEIL_MS
    } else {
        raw as i64
    }
}


/// Exact model of the DUT1 fit: trend, annual, semi-annual and Chandler
/// oscillations, clamped to the leap-second band.
pub open spec fn spec_dut1_ms(jd_utc_ms: int) -> int {
    let y = ((jd_utc_ms - 212_444_596_800_000) * 1_000_000) / 31_557_600_000;
    let trend = -177 + y / 10_000_000 - (y * y) / 50_000_000_000_000;
    let turn = 360 * y;
    let annual = (22 * trig::spec_sin_q(turn)) / 1_000_000_000_000 + (12 * trig::spec_cos_q(turn))
        / 1_000_000_000_000;
    let semi = (6 * trig::spec_sin_q(2 * turn)) / 1_000_000_000_000 + (7 * trig::spec_cos_q(
        2 * turn,
    )) / 1_000_000_000_000;
    let chandler = (3 * trig::spec_sin_q((turn * 36_525) / 43_300)) / 1_000_000_000_000;
    let total = trend + annual + semi + chandler;
    if total < -900 {
        -900
    } else if total > 900 {
        900
    } else {
        total
    }
}

/// DUT1 = UT1 - UTC in milliseconds: a small polynomial-plus-oscillation
/// model around 2020.0, clamped to the +-0.9 s band.
#[verifier::rlimit(100)]
#[verifier::spinoff_prover]
pub fn calculate_dut1(jd_utc_ms: i64) -> (r: i64)
    requires
        0 <= jd_utc_ms < 470_000_000_000_000,
    ensures
        r == spec_dut1_ms(jd_utc_ms as int),
        -900 <= r <= 900,
{
    // Julian Date of 2020-01-01 00:00 UTC (JD 2458849.5), in milliseconds.
    let jd_2020_ms: i64 = 212_444_596_800_000;
    // Years from 2020.0, in micro-years.
    let delta_scaled: i128 = ((jd_utc_ms as i128) - (jd_2020_ms as i128)) * 1_000_000;
    let years_micro: i128 = divc(delta_scaled, 31_557_600_000);
    proof {
        lemma_div_ge(-300_000_000_000_000_000_000, delta_scaled as int, 31_557_600_000);
        lemma_div_le(delta_scaled as int, 300_000_000_000_000_000_000, 31_557_600_000);
        assert(-15_000_000_000 <= years_micro <= 15_000_000_000);
    }
    let y = years_micro;
    // Polynomial trend in milliseconds.
    let p2 = mulb(y, 15_000_000_000, y, 15_000_000_000);
    let trend: i128 = -177 + divc(y, 10_000_000) - divc(p2, 50_000_000_000_000);
    // One revolution per year: 360 degrees times the fractional year, in
    // micro-degrees; the sine itself normalizes.
    let turn_udeg: i128 = 360 * y;
    let a1: i64 = turn_udeg as i64;
    let annual: i128 = divc(22 * (trig::sin_q(a1) as i128), 1_000_000_000_000)
        + divc(12 * (trig::cos_q(a1) as i128), 1_000_000_000_000);
    let a2: i64 = (2 * turn_udeg) as i64;
    let semi: i128 = divc(6 * (trig::sin_q(a2) as i128), 1_000_000_000_000)
        + divc(7 * (trig::cos_q(a2) as i128), 1_000_000_000_000);
    // Chandler wobble, period 433 days = 433/365.25 years.
    let a3: i128 = divc(turn_udeg * 36_525, 43_300);
    proof {
        lemma_div_ge(-200_000_000_000_000_000, (turn_udeg * 36_525) as int, 43_300);
        lemma_div_le((turn_udeg * 36_525) as int, 200_000_000_000_000_000, 43_300);
    }
    let chandler: i128 = divc(3 * (trig::sin_q(a3 as i64) as i128), 1_000_000_000_000);
    let total: i128 = trend + annual + semi + chandler;
    if total < -900 {
        -900
    } else if total > 900 {
        900
    } else {
        total as i64
    }
}

/// UT1 Julian Date in milliseconds from a UTC one.
pub fn utc_to_ut1(jd_utc_ms: i64) -> (r: i64)
    requires
        0 <= jd_utc_ms < 470_000_000_000_000,
    ensures
        r == jd_utc_ms + spec_dut1_ms(jd_utc_ms as int),
        jd_utc_ms - 900 <= r <= jd_utc_ms + 900,
{
    jd_utc_ms + calculate_dut1(jd_utc_ms)
}

/// TT Julian Date in milliseconds from a UTC one, through UT1.
///
/// The calendar year and month select the Delta T polynomial; derive them
/// from the Julian Date itself (`jd_to_calendar`) for dates near month
/// boundaries.
pub fn ut_to_tt(jd_utc_ms: i64, year: i32, month: u32) -> (r: i64)
    requires
        0 <= jd_utc_ms < 470_000_000_000_000,
        -20_000 <= year <= 20_000,
        1 <= month <= 12,
    ensures
        r == jd_utc_ms + spec_dut1_ms(jd_utc_ms as int) + spec_delta_t_ms(year as int, month as int),
        jd_utc_ms - 900 + DELTA_T_FLOOR_MS <= r <= jd_utc_ms + 900 + DELTA_T_CEIL_MS,
        year >= 1950 ==> r >= jd_utc_ms - 900,
{
    let jd_ut1 = utc_to_ut1(jd_utc_ms);
    let dt = calculate_delta_t(year, month);
    jd_ut1 + dt
}

/// The three time scales of one instant, in Julian Date milliseconds.
pub struct TimeFrame {
    pub jd_utc_ms: i64,
    pub jd_ut1_ms: i64,
    pub jd_tt_ms: i64,
}

impl TimeFrame {
    /// The scales stand in their documented relation: UT1 within the leap
    /// second band of UTC, and TT ahead of UT1 by a bounded Delta T.
    pub open spec fn wf(self) -> bool {
        &&& self.jd_utc_ms - 900 <= self.jd_ut1_ms <= self.jd_utc_ms + 900
        &&& self.jd_ut1_ms + DELTA_T_FLOOR_MS <= self.jd_tt_ms <= self.jd_ut1_ms + DELTA_T_CEIL_MS
    }
}

/// Resolve the full time frame of a UTC instant.
pub fn time_frame(jd_utc_ms: i64) -> (r: TimeFrame)
    requires
        190_000_000_000_000 < jd_utc_ms < 470_000_000_000_000,
    ensures
        r.wf(),
        r.jd_utc_ms == jd_utc_ms,
        r.jd_ut1_ms == jd_utc_ms + spec_dut1_ms(jd_utc_ms as int),
        ({
            let (y, m, _d) = calendar::spec_jd_to_calendar(jd_utc_ms as int);
            r.jd_tt_ms == r.jd_ut1_ms + spec_delta_t_ms(y, m)
        }),
{
    let (year, month, _day) = calendar::jd_to_calendar(jd_utc_ms);
    proof {
        calendar::lemma_jd_to_calendar_shape(jd_utc_ms as int);
    }
    let jd_ut1 = utc_to_ut1(jd_utc_ms);
    let dt = calculate_delta_t(year, month);
    TimeFrame { jd_utc_ms, jd_ut1_ms: jd_ut1, jd_tt_ms: jd_ut1 + dt }
}

} // verus!
