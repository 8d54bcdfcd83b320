use astro_core::calendar;
use astro_core::tz;

#[test]
fn test_chennai_timezone_detection() {
    // Chennai, India: the IANA zone resolves to Asia/Kolkata (UTC+5:30).
    let finder = tzf_rs::DefaultFinder::new();
    let name = finder.get_tz_name(80.2707, 13.0827);
    assert_eq!(name, "Asia/Kolkata", "Chennai should be in Asia/Kolkata");
    let offset = tz::timezone_offset_seconds(name, 1990, 1, 15, 14, 30, 0, 80_270_700);
    assert_eq!(offset, 19_800, "Chennai offset should be +5.5 hours");
}

#[test]
fn test_chennai_sun_mc_line() {
    // 1990-01-15 14:30 IST is 09:00 UTC: JD ~2447906.875; the Sun's RA is
    // in the mid-January band and the MC longitude is a valid signed one.
    let (jd_ms, used_zone) = tz::local_to_utc_julian_date(
        "Asia/Kolkata", 1990, 1, 15, 14, 30, 0, 80_270_700,
    );
    assert!(used_zone);
    let jd = jd_ms as f64 / 86_400_000.0;
    assert!((jd - 2447906.875).abs() < 0.001, "JD should be ~2447906.875, got {jd}");

    let gmst = astro_core::frames::calculate_gmst(jd_ms);
    let (y, m, _d) = calendar::jd_to_calendar(jd_ms);
    let jde = astro_core::timescale::ut_to_tt(jd_ms, y, m) as f64 / 86_400_000.0;
    let e = vsop87::vsop87b::earth(jde);
    let earth = astro_core::ephemeris::HelioPosition {
        lon_udeg: (e.longitude().to_degrees().rem_euclid(360.0) * 1e6).round() as i64,
        lat_udeg: (e.latitude().to_degrees() * 1e6).round() as i64,
        r_nano_au: (e.distance() * 1e9).round() as i64,
    };
    let sun = astro_core::ephemeris::calculate_planetary_position(
        astro_core::ephemeris::Planet::Sun,
        jd_ms,
        Some((earth, earth)),
    )
    .unwrap();
    let ra_deg = sun.right_ascension_udeg as f64 / 1e6;
    assert!(ra_deg > 290.0 && ra_deg < 305.0, "Sun RA in mid-January should be ~296-298, got {ra_deg}");
    let mc = astro_core::lines::calculate_mc_longitude(sun.right_ascension_udeg, gmst);
    assert!((-180_000_000..=180_000_000).contains(&mc));
}

#[test]
fn test_half_hour_timezone_offsets() {
    // India +5:30, Nepal +5:45, Iran in winter +3:30.
    let india = tz::timezone_offset_seconds("Asia/Kolkata", 2024, 6, 15, 12, 0, 0, 77_209_000);
    assert_eq!(india, 19_800, "India should be UTC+5:30");
    let nepal = tz::timezone_offset_seconds("Asia/Kathmandu", 2024, 6, 15, 12, 0, 0, 85_324_000);
    assert_eq!(nepal, 20_700, "Nepal should be UTC+5:45");
    let iran = tz::timezone_offset_seconds("Asia/Tehran", 2024, 1, 15, 12, 0, 0, 51_389_000);
    assert_eq!(iran, 12_600, "Iran in winter should be UTC+3:30");
}

#[test]
fn test_unknown_zone_falls_back_to_longitude() {
    // A name outside the database uses the half-hour longitude fallback.
    let (jd_ms, used_zone) = tz::local_to_utc_julian_date(
        "Nowhere/Atlantis", 2000, 6, 1, 12, 0, 0, 80_270_700,
    );
    assert!(!used_zone);
    // 80.2707 E rounds to +5.5 hours: local noon is 06:30 UTC.
    let expected = calendar::to_julian_date(2000, 6, 1, 6, 30, 0);
    assert_eq!(jd_ms, expected);
}

#[test]
fn test_fallback_offset_rounding() {
    assert_eq!(tz::fallback_offset_half_hours(0), 0);
    assert_eq!(tz::fallback_offset_half_hours(80_270_700), 11); // +5.5 h
    assert_eq!(tz::fallback_offset_half_hours(-74_006_000), -10); // New York band: -5 h
    assert_eq!(tz::fallback_offset_half_hours(180_000_000), 24);
}
