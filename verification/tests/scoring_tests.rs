use astro_core::rank::{calculate_city_score, CityInfluenceSet};
use astro_core::scoring::{
    self, aspect_benefit_multiplier, gaussian_kernel, is_beneficial_for_category,
    is_challenging_for_category, linear_kernel, rating_to_benefit, AspectType, LifeCategory,
    ScoringConfig,
};

fn influence(planet: &str, rating: u8, aspect: Option<AspectType>, distance_m: i64) -> scoring::Influence {
    scoring::Influence {
        planet: planet.to_string(),
        angle: "MC".to_string(),
        rating,
        aspect,
        distance_m,
    }
}

fn city_of(influences: Vec<scoring::Influence>) -> CityInfluenceSet {
    CityInfluenceSet {
        city_name: "Test".to_string(),
        country: "Test".to_string(),
        latitude_udeg: 0,
        longitude_udeg: 0,
        influences,
    }
}

#[test]
fn test_linear_kernel() {
    assert_eq!(linear_kernel(0, 500_000), 1_000_000);
    assert_eq!(linear_kernel(250_000, 500_000), 500_000);
    assert_eq!(linear_kernel(500_000, 500_000), 0);
    assert_eq!(linear_kernel(600_000, 500_000), 0);
}

#[test]
fn test_gaussian_kernel() {
    let at_zero = gaussian_kernel(0, 180_000);
    assert_eq!(at_zero, 1_000_000);
    let at_sigma = gaussian_kernel(180_000, 180_000) as f64 / 1e6;
    assert!((at_sigma - 0.6065).abs() < 0.01, "kernel at sigma should be ~0.6065, got {at_sigma}");
}

#[test]
fn test_rating_to_benefit() {
    assert_eq!(rating_to_benefit(5), 2);
    assert_eq!(rating_to_benefit(4), 1);
    assert_eq!(rating_to_benefit(3), 0);
    assert_eq!(rating_to_benefit(2), -1);
    assert_eq!(rating_to_benefit(1), -2);
}

#[test]
fn test_category_filtering() {
    assert!(is_beneficial_for_category("Sun", "MC", LifeCategory::Career));
    assert!(is_challenging_for_category("Neptune", "MC", LifeCategory::Career));
    assert!(!is_beneficial_for_category("Neptune", "MC", LifeCategory::Career));
}

#[test]
fn test_pluto_mc_not_challenging_for_career() {
    assert!(is_beneficial_for_category("Pluto", "MC", LifeCategory::Career),
        "Pluto:MC should be beneficial for Career");
    assert!(!is_challenging_for_category("Pluto", "MC", LifeCategory::Career),
        "Pluto:MC should NOT be challenging for Career");
}

#[test]
fn test_score_bounds_max_beneficial() {
    // Seven top-rated influences at distance zero: benefit close to but
    // within one hundred points.
    let config = ScoringConfig::balanced();
    let city = city_of((0..7).map(|_| influence("Sun", 5, None, 0)).collect());
    let score = calculate_city_score(&city, &config);
    assert!(score.benefit_milli <= 100_000 && score.benefit_milli > 95_000,
        "max-beneficial benefit should approach 100 points, got {}", score.benefit_milli);
    assert!((0..=100_000).contains(&score.intensity_milli));
    assert!((0..=100_000).contains(&score.volatility_milli));
}

#[test]
fn test_score_bounds_max_challenging() {
    let config = ScoringConfig::balanced();
    let city = city_of((0..7).map(|_| influence("Saturn", 1, None, 0)).collect());
    let score = calculate_city_score(&city, &config);
    assert!(score.benefit_milli >= 0 && score.benefit_milli < 5_000,
        "max-challenging benefit should approach 0 points, got {}", score.benefit_milli);
    assert!((0..=100_000).contains(&score.intensity_milli));
}

#[test]
fn test_score_bounds_mixed_volatile() {
    let config = ScoringConfig::balanced();
    let influences = vec![
        influence("Sun", 5, None, 0),
        influence("Saturn", 1, None, 0),
        influence("Jupiter", 5, None, 0),
        influence("Neptune", 1, None, 0),
        influence("Venus", 5, None, 0),
        influence("Pluto", 1, None, 0),
        influence("Mars", 5, None, 0),
    ];
    let score = calculate_city_score(&city_of(influences), &config);
    assert!((0..=100_000).contains(&score.benefit_milli));
    assert!((0..=100_000).contains(&score.intensity_milli));
    assert!((0..=100_000).contains(&score.volatility_milli));
    assert!(score.mixed_flag, "Alternating beneficial/challenging should set the mixed flag");
    assert!(score.volatility_milli > 0, "Alternating pattern should be volatile");
}

#[test]
fn test_volatility_both_directions() {
    // A square flips a positive rating and a negative one; both flips are
    // flagged as volatile.
    let pos = scoring::contribution_from_kernel(5, Some(AspectType::Square), 1_000_000);
    assert!(pos.volatility_c > 0, "positive flipped negative should be volatile");
    let neg = scoring::contribution_from_kernel(1, Some(AspectType::Square), 1_000_000);
    assert!(neg.volatility_c > 0, "negative flipped positive should be volatile");
    let steady = scoring::contribution_from_kernel(5, Some(AspectType::Trine), 1_000_000);
    assert_eq!(steady.volatility_c, 0, "no sign flip, no volatility");
}

#[test]
fn test_top_k_capping() {
    // Twenty identical influences score exactly like seven: the
    // aggregation truncates to the top seven.
    let config = ScoringConfig::balanced();
    let many = city_of((0..20).map(|_| influence("Sun", 5, None, 0)).collect());
    let seven = city_of((0..7).map(|_| influence("Sun", 5, None, 0)).collect());
    let score_many = calculate_city_score(&many, &config);
    let score_seven = calculate_city_score(&seven, &config);
    assert!((0..=100_000).contains(&score_many.benefit_milli));
    assert_eq!(score_many.benefit_milli, score_seven.benefit_milli);
    assert_eq!(score_many.intensity_milli, score_seven.intensity_milli);
}

#[test]
fn test_benefit_formula_exact() {
    // One full-strength beneficial influence: benefit 50 + 2 * 10.5 = 71.
    let config = ScoringConfig::balanced();
    let city = city_of(vec![influence("Sun", 5, None, 0)]);
    let score = calculate_city_score(&city, &config);
    assert_eq!(score.benefit_milli, 71_000);
    assert_eq!(score.intensity_milli, 42_000);
    assert_eq!(score.volatility_milli, 0);
    assert!(!score.mixed_flag);
}

#[test]
fn test_empty_city_defaults() {
    let config = ScoringConfig::balanced();
    let score = calculate_city_score(&city_of(Vec::new()), &config);
    assert_eq!(score.benefit_milli, 50_000);
    assert_eq!(score.intensity_milli, 0);
    assert_eq!(score.volatility_milli, 0);
    assert!(!score.mixed_flag);
    assert_eq!(score.influence_count, 0);
}

#[test]
fn test_aspect_multipliers_table() {
    assert_eq!(aspect_benefit_multiplier(AspectType::Conjunction), 100);
    assert_eq!(aspect_benefit_multiplier(AspectType::Trine), 70);
    assert_eq!(aspect_benefit_multiplier(AspectType::Sextile), 70);
    assert_eq!(aspect_benefit_multiplier(AspectType::Square), -60);
    assert_eq!(aspect_benefit_multiplier(AspectType::Quincunx), 30);
    assert_eq!(aspect_benefit_multiplier(AspectType::Opposition), -50);
    assert_eq!(aspect_benefit_multiplier(AspectType::Sesquisquare), -40);
}

#[test]
fn test_mixed_flag_threshold() {
    // One strong positive and one strong negative at full kernel both
    // exceed the one-half weighted threshold: mixed.
    let config = ScoringConfig::balanced();
    let both = city_of(vec![influence("Sun", 5, None, 0), influence("Saturn", 1, None, 0)]);
    assert!(calculate_city_score(&both, &config).mixed_flag);
    // A single positive cannot be mixed.
    let one = city_of(vec![influence("Sun", 5, None, 0)]);
    assert!(!calculate_city_score(&one, &config).mixed_flag);
}
