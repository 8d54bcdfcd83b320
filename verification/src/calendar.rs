//! Civil calendar and Julian Date conversions.
//!
//! A Julian Date is held as an `i64` count of milliseconds: `jd_ms` equals
//! the real-valued Julian Date times 86_400_000.  A civil time of day is
//! always an exact number of milliseconds, so the classic Gregorian
//! conversion (Meeus' algorithm) becomes exact integer arithmetic.

use vstd::prelude::*;

verus! {

/// Milliseconds in one day.
pub const DAY_MS: i64 = 86_400_000;

/// Julian Date of the J2000.0 epoch (2000-01-01 12:00 TT), in milliseconds.
pub const J2000_MS: i64 = 211_813_488_000_000;

/// Day number used by the conversion: the Julian Date at noon of the civil
/// date, for the Gregorian calendar.
pub open spec fn spec_jdn(year: int, month: int, day: int) -> int {
    let yy = if month <= 2 { year - 1 } else { year };
    let mm = if month <= 2 { month + 12 } else { month };
    let a = yy / 100;
    let b = 2 - a + a / 4;
    (1461 * (yy + 4716)) / 4 + (306001 * (mm + 1)) / 10000 + day + b - 1524
}

/// Julian Date in milliseconds of a civil Gregorian date and time of day.
pub open spec fn spec_jd_ms(year: int, month: int, day: int, hour: int, minute: int, second: int) -> int {
    spec_jdn(year, month, day) * 86_400_000 - 43_200_000 + (hour * 3600 + minute * 60 + second) * 1000
}

/// Inverse conversion (Meeus chapter 7): Julian Date in milliseconds to the
/// civil `(year, month, day)` of that instant.
pub open spec fn spec_jd_to_calendar(jd_ms: int) -> (int, int, int) {
    let z = (jd_ms + 43_200_000) / 86_400_000;
    let a = if z < 2_299_161 {
        z
    } else {
        let alpha = (z * 100 - 186_721_625) / 3_652_425;
        z + 1 + alpha - alpha / 4
    };
    let b = a + 1524;
    let c = (b * 100 - 12_210) / 36_525;
    let d = (1461 * c) / 4;
    let e = ((b - d) * 10000) / 306_001;
    let day = b - d - (306_001 * e) / 10000;
    let month = if e < 14 { e - 1 } else { e - 13 };
    let year = if month > 2 { c - 4716 } else { c - 4715 };
    (year, month, day)
}

/// Convert a civil Gregorian date and time, understood as a uniform time
/// scale, to a Julian Date in milliseconds.
pub fn to_julian_date(year: i32, month: u32, day: u32, hour: u32, minute: u32, second: u32) -> (r: i64)
    requires
        1583 <= year <= 9999,
        1 <= month <= 12,
        1 <= day <= 31,
        hour <= 23,
        minute <= 59,
        second <= 59,
    ensures
        r == spec_jd_ms(year as int, month as int, day as int, hour as int, minute as int, second as int),
        190_000_000_000_000 < r < 470_000_000_000_000,
{
    let (yy, mm): (i64, i64) = if month <= 2 {
        ((year - 1) as i64, (month + 12) as i64)
    } else {
        (year as i64, month as i64)
    };
    let a: i64 = yy / 100;
    let b: i64 = 2 - a + a / 4;
    let jdn: i64 = (1461 * (yy + 4716)) / 4 + (306001 * (mm + 1)) / 10000 + (day as i64) + b - 1524;
    let time_ms: i64 = ((hour as i64) * 3600 + (minute as i64) * 60 + (second as i64)) * 1000;
    jdn * 86_400_000 - 43_200_000 + time_ms
}

/// Convert a Julian Date in milliseconds back to the civil Gregorian
/// `(year, month, day)` of that instant.
pub fn jd_to_calendar(jd_ms: i64) -> (r: (i32, u32, u32))
    requires
        0 <= jd_ms < 470_000_000_000_000,
    ensures
        (r.0 as int, r.1 as int, r.2 as int) == spec_jd_to_calendar(jd_ms as int),
        1 <= r.1 <= 12,
        1 <= r.2 <= 31,
{
    proof {
        lemma_jd_to_calendar_shape(jd_ms as int);
    }
    let z: i64 = (jd_ms + 43_200_000) / 86_400_000;
    let a: i64 = if z < 2_299_161 {
        z
    } else {
        let alpha: i64 = (z * 100 - 186_721_625) / 3_652_425;
        z + 1 + alpha - alpha / 4
    };
    let b: i64 = a + 1524;
    let c: i64 = (b * 100 - 12_210) / 36_525;
    let d: i64 = (1461 * c) / 4;
    let e: i64 = ((b - d) * 10000) / 306_001;
    let day: i64 = b - d - (306_001 * e) / 10000;
    let month: i64 = if e < 14 { e - 1 } else { e - 13 };
    let year: i64 = if month > 2 { c - 4716 } else { c - 4715 };
    (year as i32, month as u32, day as u32)
}

/// Days in a Gregorian month.
pub open spec fn spec_days_in_month(year: int, month: int) -> int {
    if month == 2 {
        if year % 4 == 0 && (year % 100 != 0 || year % 400 == 0) {
            29
        } else {
            28
        }
    } else if month == 4 || month == 6 || month == 9 || month == 11 {
        30
    } else {
        31
    }
}

/// Days in a Gregorian month, executable twin of `spec_days_in_month`.
pub fn days_in_month(year: i32, month: u32) -> (r: u32)
    requires
        1 <= year,
        1 <= month <= 12,
    ensures
        r == spec_days_in_month(year as int, month as int),
{
    if month == 2 {
        if year % 4 == 0 && (year % 100 != 0 || year % 400 == 0) {
            29
        } else {
            28
        }
    } else if month == 4 || month == 6 || month == 9 || month == 11 {
        30
    } else {
        31
    }
}

/// Round trip of the calendar conversions: a valid Gregorian date taken to
/// its Julian Date at noon and back is recovered unchanged.
#[verifier::rlimit(100)]
#[verifier::spinoff_prover]
pub proof fn lemma_calendar_round_trip(year: int, month: int, day: int)
    requires
        1600 <= year <= 2200,
        1 <= month <= 12,
        1 <= day <= spec_days_in_month(year, month),
    ensures
        spec_jd_to_calendar(spec_jd_ms(year, month, day, 12, 0, 0)) == (year, month, day),
{
    let jdn = spec_jdn(year, month, day);
    let jd_ms = spec_jd_ms(year, month, day, 12, 0, 0);
    assert(jd_ms == jdn * 86_400_000);
    assert((jdn * 86_400_000 + 43_200_000) / 86_400_000 == jdn) by (nonlinear_arith);

    let yy = if month <= 2 { year - 1 } else { year };
    let mm = if month <= 2 { month + 12 } else { month };
    assert(1599 <= yy <= 2200);
    let aa = yy / 100;
    let bb = 2 - aa + aa / 4;
    assert(15 <= aa <= 22);
    let z = jdn;
    assert(z == (1461 * (yy + 4716)) / 4 + (306001 * (mm + 1)) / 10000 + day + bb - 1524);
    assert(2_305_000 <= z <= 2_525_000);

    let alpha = (z * 100 - 186_721_625) / 3_652_425;
    let a2 = z + 1 + alpha - alpha / 4;
    let b2 = a2 + 1524;
    let c2 = (b2 * 100 - 12_210) / 36_525;
    let d2 = (1461 * c2) / 4;
    let e2 = ((b2 - d2) * 10000) / 306_001;

    assert(alpha == aa - 4);
    assert(c2 == yy + 4716);
    assert(d2 == (1461 * (yy + 4716)) / 4);
    assert(b2 - d2 == (306001 * (mm + 1)) / 10000 + day);
    assert(e2 == mm + 1);
    assert(b2 - d2 - (306_001 * e2) / 10000 == day);
}

/// Shape of the inverse conversion on its whole domain: the month and day
/// slots stay in calendar range, which also keeps the executable
/// arithmetic in bounds.
pub proof fn lemma_jd_to_calendar_shape(jd_ms: int)
    requires
        0 <= jd_ms < 470_000_000_000_000,
    ensures
        ({
            let (y, m, d) = spec_jd_to_calendar(jd_ms);
            1 <= m <= 12 && 1 <= d <= 31 && -5000 <= y <= 15000
        }),
{
    let z = (jd_ms + 43_200_000) / 86_400_000;
    assert(0 <= z <= 5_439_815);
    let a = if z < 2_299_161 {
        z
    } else {
        let alpha = (z * 100 - 186_721_625) / 3_652_425;
        z + 1 + alpha - alpha / 4
    };
    assert(0 <= a <= 5_550_000);
    let b = a + 1524;
    let c = (b * 100 - 12_210) / 36_525;
    let d = (1461 * c) / 4;
    let e = ((b - d) * 10000) / 306_001;
    assert(36_525 * c <= b * 100 - 12_210);
    assert(b * 100 - 12_210 < 36_525 * (c + 1));
    assert(122 <= b - d <= 489);
    assert(3 <= e <= 15);
    let day = b - d - (306_001 * e) / 10000;
    assert(1 <= day <= 31);
}

} // verus!
