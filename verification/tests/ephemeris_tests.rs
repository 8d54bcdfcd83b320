use astro_core::calendar;
use astro_core::ephemeris::{self, HelioPosition, Planet};
use astro_core::timescale;

const DAY_MS: f64 = 86_400_000.0;

fn helio_from_vsop(c: vsop87::SphericalCoordinates) -> HelioPosition {
    HelioPosition {
        lon_udeg: (c.longitude().to_degrees().rem_euclid(360.0) * 1e6).round() as i64,
        lat_udeg: (c.latitude().to_degrees() * 1e6).round() as i64,
        r_nano_au: (c.distance() * 1e9).round() as i64,
    }
}

fn jde_of(jd_utc_ms: i64) -> f64 {
    let (y, m, _d) = calendar::jd_to_calendar(jd_utc_ms);
    timescale::ut_to_tt(jd_utc_ms, y, m) as f64 / DAY_MS
}

fn earth_pair(jd_utc_ms: i64) -> (HelioPosition, HelioPosition) {
    let earth = helio_from_vsop(vsop87::vsop87b::earth(jde_of(jd_utc_ms)));
    (earth, earth)
}

fn planet_pair(planet: Planet, jd_utc_ms: i64) -> (HelioPosition, HelioPosition) {
    let jde = jde_of(jd_utc_ms);
    let earth = helio_from_vsop(vsop87::vsop87b::earth(jde));
    let body = match planet {
        Planet::Mercury => helio_from_vsop(vsop87::vsop87b::mercury(jde)),
        Planet::Venus => helio_from_vsop(vsop87::vsop87b::venus(jde)),
        Planet::Mars => helio_from_vsop(vsop87::vsop87b::mars(jde)),
        Planet::Jupiter => helio_from_vsop(vsop87::vsop87b::jupiter(jde)),
        Planet::Saturn => helio_from_vsop(vsop87::vsop87b::saturn(jde)),
        Planet::Uranus => helio_from_vsop(vsop87::vsop87b::uranus(jde)),
        Planet::Neptune => helio_from_vsop(vsop87::vsop87b::neptune(jde)),
        _ => earth,
    };
    (body, earth)
}

#[test]
fn test_sun_high_precision_crosscheck() {
    // 2000-01-01 12:00 UTC: Sun RA ~281.29 deg, Dec ~-23.01 deg, within
    // five arcminutes.
    let jd_ms = calendar::to_julian_date(2000, 1, 1, 12, 0, 0);
    let pos = ephemeris::calculate_planetary_position(Planet::Sun, jd_ms, Some(earth_pair(jd_ms)))
        .unwrap();
    let ra_deg = pos.right_ascension_udeg as f64 / 1e6;
    let dec_deg = pos.declination_udeg as f64 / 1e6;
    let tol = 5.0 / 60.0;
    assert!((ra_deg - 281.29).abs() < tol, "Sun RA at J2000 should be ~281.29, got {ra_deg}");
    assert!((dec_deg + 23.01).abs() < tol, "Sun Dec at J2000 should be ~-23.01, got {dec_deg}");
}

#[test]
fn test_summer_solstice_sun() {
    let jd_ms = calendar::to_julian_date(2024, 6, 21, 12, 0, 0);
    let pos = ephemeris::calculate_planetary_position(Planet::Sun, jd_ms, Some(earth_pair(jd_ms)))
        .unwrap();
    let dec_deg = pos.declination_udeg as f64 / 1e6;
    assert!((dec_deg - 23.44).abs() < 0.5, "Sun at solstice should have Dec ~23.44, got {dec_deg}");
}

#[test]
fn test_sun_position_range() {
    let jd_ms = calendar::to_julian_date(2024, 6, 21, 12, 0, 0);
    let pos = ephemeris::calculate_planetary_position(Planet::Sun, jd_ms, Some(earth_pair(jd_ms)))
        .unwrap();
    assert!(pos.declination_udeg.abs() < 24_000_000, "Sun declination within +-24 deg");
}

#[test]
fn test_sun_declination_band_across_years() {
    // Sampled across 1900-2100: the Sun's declination stays within the
    // obliquity band plus a fifth of a degree.
    for year in (1900..=2100).step_by(10) {
        for month in [3u32, 6, 9, 12] {
            let jd_ms = calendar::to_julian_date(year, month, 21, 12, 0, 0);
            let pos = ephemeris::calculate_planetary_position(
                Planet::Sun,
                jd_ms,
                Some(earth_pair(jd_ms)),
            )
            .unwrap();
            let dec = pos.declination_udeg as f64 / 1e6;
            assert!(dec.abs() <= 23.7, "Sun dec {dec} out of band at {year}-{month}");
        }
    }
}

#[test]
fn test_moon_position_range() {
    let jd_ms = calendar::to_julian_date(2024, 3, 15, 12, 0, 0);
    let pos = ephemeris::calculate_planetary_position(Planet::Moon, jd_ms, None).unwrap();
    assert!(pos.declination_udeg.abs() < 30_000_000, "Moon declination within +-30 deg");
}

#[test]
fn test_moon_declination_band_across_years() {
    // Sampled across 1900-2100: the Moon's declination stays within 29
    // degrees of the equator.
    for year in (1900..=2100).step_by(7) {
        let jd_ms = calendar::to_julian_date(year, 4, 7, 3, 0, 0);
        let pos = ephemeris::calculate_planetary_position(Planet::Moon, jd_ms, None).unwrap();
        let dec = pos.declination_udeg as f64 / 1e6;
        assert!(dec.abs() <= 29.0, "Moon dec {dec} out of band in {year}");
    }
}

#[test]
fn test_planet_ra_range() {
    let jd_ms = calendar::to_julian_date(2024, 1, 1, 12, 0, 0);
    let planets = [
        Planet::Sun, Planet::Moon, Planet::Mercury, Planet::Venus, Planet::Mars,
        Planet::Jupiter, Planet::Saturn, Planet::Uranus, Planet::Neptune, Planet::Pluto,
    ];
    for planet in planets {
        let helio = Some(planet_pair(planet, jd_ms));
        let pos = ephemeris::calculate_planetary_position(planet, jd_ms, helio).unwrap();
        assert!(
            (0..360_000_000).contains(&pos.right_ascension_udeg),
            "RA should be in [0, 360) for {:?}", planet
        );
        assert!(pos.declination_udeg.abs() <= 90_000_000, "Dec within +-90 for {:?}", planet);
    }
}

#[test]
fn test_true_node_wobble() {
    let jd_ms = calendar::to_julian_date(2000, 1, 1, 12, 0, 0);
    let pos = ephemeris::calculate_planetary_position(Planet::NorthNode, jd_ms, None).unwrap();
    assert!((0..360_000_000).contains(&pos.ecliptic_longitude_udeg));
    assert!(pos.declination_udeg.abs() < 30_000_000, "Node declination should be reasonable");
}

#[test]
fn test_true_node_retrograde_motion() {
    let jd1 = calendar::to_julian_date(2024, 1, 1, 12, 0, 0);
    let jd2 = calendar::to_julian_date(2024, 7, 1, 12, 0, 0);
    let p1 = ephemeris::calculate_planetary_position(Planet::NorthNode, jd1, None).unwrap();
    let p2 = ephemeris::calculate_planetary_position(Planet::NorthNode, jd2, None).unwrap();
    let diff = ((p2.ecliptic_longitude_udeg - p1.ecliptic_longitude_udeg).abs() as f64) / 1e6;
    assert!(diff > 0.1 && diff < 20.0, "Node should move ~9.67 deg in 6 months, got {diff}");
}

#[test]
fn test_planet_needs_heliocentric() {
    // Bodies with internal theories work without heliocentric input; the
    // others report the missing input by returning None.
    let jd_ms = calendar::to_julian_date(2024, 1, 1, 12, 0, 0);
    assert!(ephemeris::calculate_planetary_position(Planet::Moon, jd_ms, None).is_some());
    assert!(ephemeris::calculate_planetary_position(Planet::Pluto, jd_ms, None).is_some());
    assert!(ephemeris::calculate_planetary_position(Planet::Chiron, jd_ms, None).is_some());
    assert!(ephemeris::calculate_planetary_position(Planet::Sun, jd_ms, None).is_none());
    assert!(ephemeris::calculate_planetary_position(Planet::Mars, jd_ms, None).is_none());
}

#[test]
fn test_positions_deterministic() {
    // The same instant always gives bit-identical coordinates.
    let jd_ms = calendar::to_julian_date(1990, 1, 15, 9, 0, 0);
    let a = ephemeris::calculate_planetary_position(Planet::Moon, jd_ms, None).unwrap();
    let b = ephemeris::calculate_planetary_position(Planet::Moon, jd_ms, None).unwrap();
    assert_eq!(a.right_ascension_udeg, b.right_ascension_udeg);
    assert_eq!(a.declination_udeg, b.declination_udeg);
    assert_eq!(a.ecliptic_longitude_udeg, b.ecliptic_longitude_udeg);
}

#[test]
fn test_asc_dsc_complementary() {
    // At the solstice the Sun's horizon line has many valid points, split
    // between the rising and the setting side.
    let jd_ms = calendar::to_julian_date(2024, 6, 21, 12, 0, 0);
    let gmst = astro_core::frames::calculate_gmst(jd_ms);
    let pos = ephemeris::calculate_planetary_position(Planet::Sun, jd_ms, Some(earth_pair(jd_ms)))
        .unwrap();
    let mut asc_count = 0;
    let mut dsc_count = 0;
    let mut valid_count = 0;
    let mut lng: i64 = -180_000_000;
    while lng <= 180_000_000 {
        if astro_core::lines::calculate_horizon_latitude(
            pos.right_ascension_udeg,
            pos.declination_udeg,
            gmst,
            lng,
        )
        .is_some()
        {
            valid_count += 1;
            if astro_core::lines::is_rising(pos.right_ascension_udeg, gmst, lng) {
                asc_count += 1;
            } else {
                dsc_count += 1;
            }
        }
        lng += 2_000_000;
    }
    assert!(valid_count > 50, "Should have many valid horizon points, got {valid_count}");
    assert!(asc_count > 0 && dsc_count > 0, "Both ASC ({asc_count}) and DSC ({dsc_count}) sides");
}
