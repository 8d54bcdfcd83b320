use astro_core::calendar;
use astro_core::frames;

#[test]
fn test_gmst_j2000_epoch() {
    // GMST at 2000-01-01 12:00 UTC should be ~280.46 degrees.
    let jd_ms = calendar::to_julian_date(2000, 1, 1, 12, 0, 0);
    let gmst_deg = frames::calculate_gmst(jd_ms) as f64 / 1e6;
    assert!((gmst_deg - 280.46).abs() < 0.1, "GMST at J2000 should be ~280.46, got {gmst_deg}");
}

#[test]
fn test_gmst_known_value() {
    // GMST at 2000-01-02 00:00 UTC should be ~100.95 degrees.
    let jd_ms = calendar::to_julian_date(2000, 1, 2, 0, 0, 0);
    let gmst_deg = frames::calculate_gmst(jd_ms) as f64 / 1e6;
    assert!((gmst_deg - 100.95).abs() < 0.1, "GMST should be ~100.95, got {gmst_deg}");
}

#[test]
fn test_gmst_normalization() {
    // GMST stays in [0, 360) for a sweep of dates.
    for year in [1950, 1990, 2000, 2024, 2100] {
        for month in [1u32, 6, 12] {
            let jd_ms = calendar::to_julian_date(year, month, 15, 12, 0, 0);
            let gmst = frames::calculate_gmst(jd_ms);
            assert!((0..360_000_000).contains(&gmst), "GMST should be in [0, 360)");
        }
    }
}

#[test]
fn test_obliquity_j2000() {
    let jd_ms = calendar::to_julian_date(2000, 1, 1, 12, 0, 0);
    let obl_deg = frames::calculate_obliquity(jd_ms) as f64 / 1e6;
    assert!((obl_deg - 23.439).abs() < 0.01, "Obliquity at J2000.0 should be ~23.439, got {obl_deg}");
}

#[test]
fn test_obliquity_decreasing() {
    let obl_2000 = frames::calculate_obliquity(calendar::to_julian_date(2000, 1, 1, 12, 0, 0));
    let obl_2100 = frames::calculate_obliquity(calendar::to_julian_date(2100, 1, 1, 12, 0, 0));
    assert!(obl_2100 < obl_2000, "Obliquity should decrease over time");
}

#[test]
fn test_ecliptic_to_equatorial_vernal_equinox() {
    let (ra, dec) = frames::ecliptic_to_equatorial(0, 0, 23_439_291);
    assert!(ra.abs() < 10_000, "Vernal equinox RA should be 0");
    assert!(dec.abs() < 10_000, "Vernal equinox Dec should be 0");
}

#[test]
fn test_ecliptic_to_equatorial_summer_solstice() {
    let (ra, dec) = frames::ecliptic_to_equatorial(90_000_000, 0, 23_439_291);
    let ra_deg = ra as f64 / 1e6;
    let dec_deg = dec as f64 / 1e6;
    assert!((ra_deg - 90.0).abs() < 1.0, "Summer solstice RA should be ~90");
    assert!((dec_deg - 23.44).abs() < 0.5, "Summer solstice Dec should be ~+23.44");
}

#[test]
fn test_nutation_small() {
    // Nutation stays within its classical bounds (|dpsi| < 20 arcsec).
    for year in [1990, 2000, 2010, 2024] {
        let jd_ms = calendar::to_julian_date(year, 3, 1, 0, 0, 0);
        let n = frames::calculate_nutation(jd_ms);
        assert!(n.delta_psi_udeg.abs() <= 7_000);
        assert!(n.delta_epsilon_udeg.abs() <= 4_500);
    }
}
