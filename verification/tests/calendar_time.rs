use astro_core::calendar;
use astro_core::timescale;

const DAY_MS: f64 = 86_400_000.0;

fn jd_of(ms: i64) -> f64 {
    ms as f64 / DAY_MS
}

#[test]
fn test_julian_date_j2000_epoch() {
    // 2000-01-01 12:00 UTC should be JD ~2451545.0
    let jd = jd_of(calendar::to_julian_date(2000, 1, 1, 12, 0, 0));
    assert!((jd - 2451545.0).abs() < 1e-9);
}

#[test]
fn test_julian_date_known_dates() {
    let jd1 = jd_of(calendar::to_julian_date(1999, 12, 31, 0, 0, 0));
    assert!((jd1 - 2451543.5).abs() < 1e-9, "1999-12-31 00:00 should be ~2451543.5");
    let jd2 = jd_of(calendar::to_julian_date(1776, 7, 4, 0, 0, 0));
    assert!((jd2 - 2369915.5).abs() < 1.0, "1776-07-04 should be ~2369916");
    let jd3 = jd_of(calendar::to_julian_date(2024, 1, 1, 0, 0, 0));
    assert!((jd3 - 2460310.5).abs() < 1e-9, "2024-01-01 00:00 should be ~2460310.5");
}

#[test]
fn test_julian_date_leap_year() {
    // Feb 29, 2024 should be valid and sit between its neighbours.
    let feb29 = jd_of(calendar::to_julian_date(2024, 2, 29, 12, 0, 0));
    assert!(feb29 > 2460369.0 && feb29 < 2460371.0, "Feb 29, 2024 should be valid");
}

#[test]
fn test_jd_to_calendar_j2000() {
    let jd_ms = calendar::to_julian_date(2000, 1, 1, 12, 0, 0);
    let (y, m, d) = calendar::jd_to_calendar(jd_ms);
    assert_eq!((y, m, d), (2000, 1, 1));
}

#[test]
fn test_calendar_round_trip_sample() {
    // The proved round trip, exercised across a sweep of dates.
    for year in [1600, 1700, 1776, 1900, 1999, 2000, 2024, 2100, 2200] {
        for month in 1..=12u32 {
            for day in [1u32, 15, 28] {
                let jd_ms = calendar::to_julian_date(year, month, day, 12, 0, 0);
                let (y, m, d) = calendar::jd_to_calendar(jd_ms);
                assert_eq!((y, m, d), (year, month, day), "round trip {year}-{month}-{day}");
            }
        }
    }
}

#[test]
fn test_delta_t_modern_value() {
    // Around 2024 Delta T is close to 69 seconds and never negative.
    let dt = timescale::calculate_delta_t(2024, 6);
    assert!(dt > 60_000 && dt < 80_000, "Delta T 2024 should be ~69 s, got {dt} ms");
    for year in [1950, 1975, 2000, 2024, 2100] {
        assert!(timescale::calculate_delta_t(year, 1) >= 0);
    }
}

#[test]
fn test_dut1_band() {
    for year in [1990, 2000, 2010, 2020, 2024] {
        let jd_ms = calendar::to_julian_date(year, 6, 1, 0, 0, 0);
        let dut1 = timescale::calculate_dut1(jd_ms);
        assert!(dut1.abs() <= 900, "DUT1 must stay within +-0.9 s, got {dut1} ms");
    }
}

#[test]
fn test_time_frame_chain() {
    let jd_ms = calendar::to_julian_date(2024, 6, 21, 12, 0, 0);
    let frame = timescale::time_frame(jd_ms);
    assert_eq!(frame.jd_utc_ms, jd_ms);
    assert!((frame.jd_ut1_ms - jd_ms).abs() <= 900);
    let dt = frame.jd_tt_ms - frame.jd_ut1_ms;
    assert!(dt > 60_000 && dt < 80_000, "TT-UT1 should be ~69 s, got {dt} ms");
}
