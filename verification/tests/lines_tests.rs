use astro_core::lines;

#[test]
fn test_mc_longitude_basic() {
    // When RA equals GMST the MC meridian is at longitude zero.
    let mc = lines::calculate_mc_longitude(180_000_000, 180_000_000);
    assert_eq!(mc, 0, "When RA = GMST, MC should be at 0 degrees");
}

#[test]
fn test_mc_longitude_offset() {
    // RA 45 degrees east of GMST puts the MC at 45 east.
    let mc = lines::calculate_mc_longitude(225_000_000, 180_000_000);
    assert_eq!(mc, 45_000_000, "MC should be at 45 E");
}

#[test]
fn test_ic_longitude_basic() {
    let mc = lines::calculate_mc_longitude(180_000_000, 180_000_000);
    let ic = lines::calculate_ic_longitude(180_000_000, 180_000_000);
    let diff = (mc - ic).abs();
    assert!(
        (diff - 180_000_000).abs() < 1_000_000 || (360_000_000 - diff - 180_000_000).abs() < 1_000_000,
        "IC should be 180 degrees from MC"
    );
}

#[test]
fn test_mc_ic_opposite() {
    // The proved law, exercised: the separation is exactly half a turn.
    let cases: [(i64, i64); 4] = [
        (0, 0),
        (90_000_000, 45_000_000),
        (180_000_000, 90_000_000),
        (270_000_000, 180_000_000),
    ];
    for (ra, gmst) in cases {
        let mc = lines::calculate_mc_longitude(ra, gmst);
        let ic = lines::calculate_ic_longitude(ra, gmst);
        let d = (mc - ic).abs() % 360_000_000;
        let sep = d.min(360_000_000 - d);
        assert_eq!(sep, 180_000_000, "MC-IC difference should be 180 degrees");
    }
}

#[test]
fn test_mc_ic_opposite_mixed_case() {
    // The scenario with RA = 180 and GMST = 180: MC at 0, IC at 180.
    let mc = lines::calculate_mc_longitude(180_000_000, 180_000_000);
    let ic = lines::calculate_ic_longitude(180_000_000, 180_000_000);
    assert_eq!(mc, 0);
    assert_eq!(ic, 180_000_000);
}

#[test]
fn test_horizon_latitude_equatorial_planet() {
    // An equatorial body has no single horizon latitude: None there.
    let lat = lines::calculate_horizon_latitude(180_000_000, 0, 0, 90_000_000);
    assert!(lat.is_none(), "Equatorial declination should return None");
    // One degree off the cardinal point the hour angle's cosine is far
    // from zero: the gap is real and the all-latitudes predicate is off.
    let off = lines::calculate_horizon_latitude(180_000_000, 0, 0, 91_000_000);
    assert!(off.is_none());
    assert!(!lines::is_all_latitudes_horizon(180_000_000, 0, 0, 91_000_000));

    // A slightly non-zero declination has a solution.
    let lat_small = lines::calculate_horizon_latitude(180_000_000, 57_296, 0, 90_000_000);
    assert!(lat_small.is_some(), "Small but non-zero declination should have a solution");
}

#[test]
fn test_horizon_degenerate_vertical() {
    // On the celestial equator with the hour angle at a quarter turn the
    // predicate holds and the latitude is still None.
    let ra: i64 = 0;
    let gmst: i64 = 0;
    let lon: i64 = 90_000_000;
    assert!(lines::is_all_latitudes_horizon(ra, 0, gmst, lon));
    assert!(lines::calculate_horizon_latitude(ra, 0, gmst, lon).is_none());
}

#[test]
fn test_horizon_latitude_declination_effect() {
    let lat_low = lines::calculate_horizon_latitude(180_000_000, 10_000_000, 0, 45_000_000);
    let lat_high = lines::calculate_horizon_latitude(180_000_000, 45_000_000, 0, 45_000_000);
    assert!(lat_low.is_some() && lat_high.is_some(), "Both should have solutions");
    assert_ne!(lat_low.unwrap(), lat_high.unwrap());
}

#[test]
fn test_horizon_latitude_polar_declination() {
    let lat = lines::calculate_horizon_latitude(0, 80_000_000, 0, 0);
    if let Some(l) = lat {
        assert!(l.abs() <= 90_000_000, "Latitude should be within [-90, 90]");
    }
}

#[test]
fn test_is_rising_basic() {
    // GMST 90, RA 180: at longitude 0 the hour angle is -90, rising.
    assert!(lines::is_rising(180_000_000, 90_000_000, 0));
    // At longitude 180 the hour angle is +90, setting.
    assert!(!lines::is_rising(180_000_000, 90_000_000, 180_000_000));
}

#[test]
fn test_planet_lines_meridians() {
    let pos = astro_core::ephemeris::PlanetaryPosition {
        planet: astro_core::ephemeris::Planet::Sun,
        right_ascension_udeg: 200_000_000,
        declination_udeg: -20_000_000,
        ecliptic_longitude_udeg: 197_000_000,
    };
    let pl = lines::calculate_planet_lines(&pos, 100_000_000, 2_000_000);
    assert_eq!(pl.mc_points.len(), 90);
    assert_eq!(pl.ic_points.len(), 90);
    assert_eq!(pl.mc_longitude_udeg, 100_000_000);
    assert_eq!(pl.zenith.lat_udeg, -20_000_000);
    assert!(pl.asc_points.len() > 0);
    assert!(pl.dsc_points.len() > 0);
}

#[test]
fn test_aspect_lines_harmonious_flags() {
    let pos = astro_core::ephemeris::PlanetaryPosition {
        planet: astro_core::ephemeris::Planet::Mars,
        right_ascension_udeg: 10_000_000,
        declination_udeg: 5_000_000,
        ecliptic_longitude_udeg: 12_000_000,
    };
    let aspects = lines::calculate_planet_aspect_lines(&pos, 50_000_000, 2_000_000, 23_440_000);
    assert!(aspects.len() >= 12, "At least the meridian aspect lines exist");
    for a in &aspects {
        let harmonious = a.aspect != lines::AspectKind::Square;
        assert_eq!(a.is_harmonious, harmonious);
    }
}

#[test]
fn test_paran_meridian_pair() {
    // Two bodies with nearly equal right ascension: their MC meridians
    // coincide, so the meridian-meridian paran sits at the equator.
    let p1 = astro_core::ephemeris::PlanetaryPosition {
        planet: astro_core::ephemeris::Planet::Sun,
        right_ascension_udeg: 100_000_000,
        declination_udeg: 10_000_000,
        ecliptic_longitude_udeg: 100_000_000,
    };
    let p2 = astro_core::ephemeris::PlanetaryPosition {
        planet: astro_core::ephemeris::Planet::Venus,
        right_ascension_udeg: 100_500_000,
        declination_udeg: -5_000_000,
        ecliptic_longitude_udeg: 99_000_000,
    };
    let parans = lines::calculate_paran(&p1, &p2, lines::LineType::MC, lines::LineType::MC, 0);
    assert_eq!(parans.len(), 1);
    assert_eq!(parans[0].latitude_udeg, 0);
}

#[test]
fn test_angular_separation_same_point() {
    // Same point: separation within the fixed-point rounding of zero.
    let sep = lines::angular_separation(85_943_669, 28_647_890, 85_943_669, 28_647_890);
    assert!(sep < 10_000, "Same point should have ~0 separation, got {sep}");
}

#[test]
fn test_angular_separation_opposite_points() {
    let sep = lines::angular_separation(0, 0, 180_000_000, 0);
    assert!((sep - 180_000_000).abs() < 10_000, "Opposite points should be 180 degrees apart");
}

#[test]
fn test_angular_separation_90_degrees() {
    // North pole to the equator: exactly a quarter turn.
    let sep = lines::angular_separation(0, 90_000_000, 0, 0);
    assert_eq!(sep, 90_000_000, "Pole to equator should be 90 degrees");
}

#[test]
fn test_angular_separation_known_values() {
    // Two equatorial points sixty degrees of right ascension apart.
    let sep = lines::angular_separation(0, 0, 60_000_000, 0);
    assert!((sep - 60_000_000).abs() < 10_000, "60 deg RA difference on the equator");
}

#[test]
fn test_aspect_meridian_longitude_value() {
    // The first aspect line is the trine MC line in the negative direction:
    // its longitude is the culmination longitude of the point 120 degrees
    // back along the ecliptic at latitude zero.
    let pos = astro_core::ephemeris::PlanetaryPosition {
        planet: astro_core::ephemeris::Planet::Mars,
        right_ascension_udeg: 10_000_000,
        declination_udeg: 5_000_000,
        ecliptic_longitude_udeg: 12_000_000,
    };
    let gmst = 50_000_000;
    let obliquity = 23_440_000;
    let aspects = lines::calculate_planet_aspect_lines(&pos, gmst, 2_000_000, obliquity);
    let shifted_lon = astro_core::angle::normalize_deg(12_000_000 - 120_000_000);
    let (ra, _dec) = astro_core::frames::ecliptic_to_equatorial(shifted_lon, 0, obliquity);
    let expected_mc = lines::calculate_mc_longitude(ra, gmst);
    let expected_ic = lines::calculate_ic_longitude(ra, gmst);
    assert_eq!(aspects[0].aspect, lines::AspectKind::Trine);
    assert!(!aspects[0].direction_positive);
    assert_eq!(aspects[0].angle, lines::LineType::MC);
    assert_eq!(aspects[0].longitude_udeg, Some(expected_mc));
    assert_eq!(aspects[0].points.len(), 90);
    assert_eq!(aspects[0].points[0].lat_udeg, -89_000_000);
    assert_eq!(aspects[0].points[0].lng_udeg, expected_mc);
    assert_eq!(aspects[1].angle, lines::LineType::IC);
    assert_eq!(aspects[1].longitude_udeg, Some(expected_ic));
}
