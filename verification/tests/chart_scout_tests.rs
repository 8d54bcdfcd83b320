use astro_core::calendar;
use astro_core::chart;
use astro_core::ephemeris::{HelioPosition, Planet};
use astro_core::lines::GlobePoint;
use astro_core::scoring::{LifeCategory, ScoringConfig, SortMode};
use astro_core::scout::{self, CityData, LineData};
use astro_core::timescale;

fn helio_from_vsop(c: vsop87::SphericalCoordinates) -> HelioPosition {
    HelioPosition {
        lon_udeg: (c.longitude().to_degrees().rem_euclid(360.0) * 1e6).round() as i64,
        lat_udeg: (c.latitude().to_degrees() * 1e6).round() as i64,
        r_nano_au: (c.distance() * 1e9).round() as i64,
    }
}

fn helio_table(jd_utc_ms: i64) -> Vec<(HelioPosition, HelioPosition)> {
    let (y, m, _d) = calendar::jd_to_calendar(jd_utc_ms);
    let jde = timescale::ut_to_tt(jd_utc_ms, y, m) as f64 / 86_400_000.0;
    let earth = helio_from_vsop(vsop87::vsop87b::earth(jde));
    let bodies = [
        earth,
        earth,
        helio_from_vsop(vsop87::vsop87b::mercury(jde)),
        helio_from_vsop(vsop87::vsop87b::venus(jde)),
        helio_from_vsop(vsop87::vsop87b::mars(jde)),
        helio_from_vsop(vsop87::vsop87b::jupiter(jde)),
        helio_from_vsop(vsop87::vsop87b::saturn(jde)),
        helio_from_vsop(vsop87::vsop87b::uranus(jde)),
        helio_from_vsop(vsop87::vsop87b::neptune(jde)),
        earth,
        earth,
        earth,
    ];
    bodies.iter().map(|b| (*b, earth)).collect()
}

#[test]
fn test_calculate_all_lines_returns_valid_data() {
    let jd_ms = calendar::to_julian_date(1990, 1, 15, 14, 30, 0);
    let chart = chart::calculate_all_lines(jd_ms, &helio_table(jd_ms), 2_000_000);
    assert_eq!(chart.planetary_positions.len(), 12);
    assert_eq!(chart.planetary_lines.len(), 12);
    assert_eq!(chart.zenith_points.len(), 12);
    assert!((0..360_000_000).contains(&chart.gmst_udeg));
    for pl in &chart.planetary_lines {
        // MC and IC meridians are half a turn apart.
        let d = (pl.mc_longitude_udeg - pl.ic_longitude_udeg).abs() % 360_000_000;
        let sep = d.min(360_000_000 - d);
        assert_eq!(sep, 180_000_000, "MC-IC should be 180 degrees apart");
        assert_eq!(pl.mc_points.len(), 90);
    }
    assert!(chart.aspect_lines.len() >= 12 * 12, "24 aspect lines per body, meridian ones always");
}

#[test]
fn test_all_lines_deterministic() {
    // The whole pipeline is a pure function: two runs agree exactly.
    let jd_ms = calendar::to_julian_date(2024, 6, 21, 12, 0, 0);
    let helio = helio_table(jd_ms);
    let a = chart::calculate_all_lines(jd_ms, &helio, 4_000_000);
    let b = chart::calculate_all_lines(jd_ms, &helio, 4_000_000);
    assert_eq!(a.gmst_udeg, b.gmst_udeg);
    assert_eq!(a.paran_lines.len(), b.paran_lines.len());
    for (x, y) in a.planetary_positions.iter().zip(b.planetary_positions.iter()) {
        assert_eq!(x.right_ascension_udeg, y.right_ascension_udeg);
        assert_eq!(x.declination_udeg, y.declination_udeg);
    }
    for (x, y) in a.paran_lines.iter().zip(b.paran_lines.iter()) {
        assert_eq!(x.latitude_udeg, y.latitude_udeg);
        assert_eq!(x.longitude_udeg, y.longitude_udeg);
    }
}

fn vertical_line(planet: &str, angle: &str, rating: u8, lon_deg: f64) -> LineData {
    let mut points = Vec::new();
    let mut lat = -89;
    while lat <= 89 {
        points.push(GlobePoint {
            lat_udeg: lat * 1_000_000,
            lng_udeg: (lon_deg * 1e6).round() as i64,
        });
        lat += 2;
    }
    LineData {
        planet: planet.to_string(),
        angle: angle.to_string(),
        rating,
        aspect: None,
        points,
    }
}

#[test]
fn test_scout_city_near_line() {
    // A city on a beneficial line at distance zero scores above neutral.
    let config = ScoringConfig::balanced();
    let lines = vec![vertical_line("Sun", "MC", 5, 10.0)];
    let on_line = scout::scout_city("OnLine", "Land", 0, 10_000_000, &lines, &config);
    assert!(on_line.benefit_milli > 50_000);
    assert_eq!(on_line.influence_count, 1);
    // A city on the far side of the planet sees no influence at all.
    let far = scout::scout_city("Far", "Land", 0, -170_000_000, &lines, &config);
    assert_eq!(far.influence_count, 0);
    assert_eq!(far.benefit_milli, 50_000);
}

#[test]
fn test_scout_cities_ranked_order() {
    let config = ScoringConfig::balanced();
    let lines = vec![vertical_line("Sun", "MC", 5, 10.0)];
    let cities = vec![
        CityData { name: "Near".to_string(), country: "A".to_string(), lat_udeg: 0, lon_udeg: 10_500_000 },
        CityData { name: "Mid".to_string(), country: "A".to_string(), lat_udeg: 0, lon_udeg: 12_500_000 },
        CityData { name: "Off".to_string(), country: "B".to_string(), lat_udeg: 0, lon_udeg: 120_000_000 },
    ];
    let rankings = scout::scout_cities_for_category(
        &cities, &lines, LifeCategory::Career, SortMode::BenefitFirst, &config,
    );
    assert_eq!(rankings.len(), 2, "the far city collects no career influence");
    assert!(rankings[0].benefit_milli >= rankings[1].benefit_milli);
    assert_eq!(rankings[0].city_name, "Near");
}

#[test]
fn test_sequential_and_fast_scout_agree_on_rank_order() {
    // The fast path prunes with estimates but must keep the ranking of
    // clearly separated cities.
    let config = ScoringConfig::balanced();
    // The fast path keeps only the simplified polyline's endpoints of a
    // straight line, so the cities sit near one end of it.
    let lines = vec![vertical_line("Jupiter", "MC", 5, -60.0)];
    let cities = vec![
        CityData { name: "P1".to_string(), country: "X".to_string(), lat_udeg: -86_000_000, lon_udeg: -60_200_000 },
        CityData { name: "P2".to_string(), country: "X".to_string(), lat_udeg: -86_000_000, lon_udeg: -62_500_000 },
    ];
    let slow = scout::scout_cities_for_category(
        &cities, &lines, LifeCategory::Wealth, SortMode::BenefitFirst, &config,
    );
    let fast = scout::scout_cities_fast(
        &cities, &lines, LifeCategory::Wealth, SortMode::BenefitFirst, &config,
    );
    assert_eq!(slow.len(), fast.len());
    for (a, b) in slow.iter().zip(fast.iter()) {
        assert_eq!(a.city_name, b.city_name, "rank order must agree");
    }
}

#[test]
fn test_grid_scout_bounds() {
    let config = ScoringConfig::balanced();
    let lines = vec![vertical_line("Jupiter", "MC", 5, 20.0)];
    let result = scout::scout_grid_optimized(&lines, LifeCategory::Wealth, &config);
    assert!(result.points.len() > 0);
    for p in &result.points {
        assert!((0..=100_000).contains(&p.score_milli));
        assert!(p.lat_udeg.abs() <= 90_000_000);
    }
}

#[test]
fn test_group_countries() {
    let config = ScoringConfig::balanced();
    let lines = vec![vertical_line("Sun", "MC", 5, 10.0)];
    let cities = vec![
        CityData { name: "A1".to_string(), country: "A".to_string(), lat_udeg: 0, lon_udeg: 10_000_000 },
        CityData { name: "B1".to_string(), country: "B".to_string(), lat_udeg: 20_000_000, lon_udeg: 11_000_000 },
        CityData { name: "A2".to_string(), country: "A".to_string(), lat_udeg: -10_000_000, lon_udeg: 12_000_000 },
    ];
    let rankings = scout::scout_cities_for_category(
        &cities, &lines, LifeCategory::Career, SortMode::BenefitFirst, &config,
    );
    let countries = astro_core::rank::group_and_rank_countries(rankings);
    assert!(countries.len() >= 1);
    for c in &countries {
        assert!(c.cities.len() > 0);
        for w in c.cities.windows(2) {
            assert!(w[0].benefit_milli >= w[1].benefit_milli, "cities sorted by benefit");
        }
    }
}

#[test]
fn test_houses_equal_spacing() {
    let cusps = astro_core::houses::calculate_equal_houses(123_000_000);
    assert_eq!(cusps.len(), 12);
    assert_eq!(cusps[0], 123_000_000);
    assert_eq!(cusps[1], 153_000_000);
    assert_eq!(cusps[11], 93_000_000);
    let whole = astro_core::houses::calculate_whole_sign_houses(123_000_000);
    assert_eq!(whole[0], 120_000_000);
}

#[test]
fn test_group_countries_counts_tally() {
    type LineNature = astro_core::scoring::LineNature;
    let mk = |name: &str, country: &str, benefit: i64, nature: LineNature| {
        astro_core::rank::CityRanking {
            city_name: name.to_string(),
            country: country.to_string(),
            latitude_udeg: 0,
            longitude_udeg: 0,
            benefit_milli: benefit,
            intensity_milli: 50_000,
            volatility_milli: 0,
            mixed_flag: false,
            top_influences: Vec::new(),
            nature,
        }
    };
    let rankings = vec![
        mk("A1", "A", 80_000, LineNature::Beneficial),
        mk("B1", "B", 30_000, LineNature::Challenging),
        mk("A2", "A", 60_000, LineNature::Beneficial),
        mk("A3", "A", 40_000, LineNature::Mixed),
    ];
    let countries = astro_core::rank::group_and_rank_countries(rankings);
    assert_eq!(countries.len(), 2);
    let a = countries.iter().find(|c| c.country == "A").expect("country A grouped");
    assert_eq!(a.cities.len(), 3);
    assert_eq!(a.beneficial_count, 2);
    assert_eq!(a.challenging_count, 0);
    for city in &a.cities {
        assert_eq!(city.country, "A");
    }
    let b = countries.iter().find(|c| c.country == "B").expect("country B grouped");
    assert_eq!(b.cities.len(), 1);
    assert_eq!(b.beneficial_count, 0);
    assert_eq!(b.challenging_count, 1);
    // Groups ordered by their best city.
    assert_eq!(countries[0].country, "A");
}
