use astro_core::angle;
use astro_core::trig;

#[test]
fn test_normalize_angle() {
    // The unsigned normal form lies in [0, 360) degrees.
    assert_eq!(angle::normalize_deg(540_000_000), 180_000_000);
    assert_eq!(angle::normalize_deg(-180_000_000), 180_000_000);
    assert_eq!(angle::normalize_deg(0), 0);
    assert_eq!(angle::normalize_deg(360_000_000), 0);
    assert_eq!(angle::normalize_deg(900_000_000), 180_000_000);
}

#[test]
fn test_normalize_signed_angle() {
    assert_eq!(angle::normalize_signed_deg(0), 0, "0 should stay 0");
    assert_eq!(angle::normalize_signed_deg(180_000_000), 180_000_000, "180 should stay 180");
    assert_eq!(angle::normalize_signed_deg(270_000_000), -90_000_000, "270 should become -90");
}

#[test]
fn test_sin_cos_against_reference() {
    // The fixed-point sine and cosine track the floating reference to a
    // few parts in a billion across the circle.
    for k in -720..=720 {
        let x_udeg: i64 = k * 500_000; // quarter-degree steps
        let x_rad = (x_udeg as f64 / 1e6).to_radians();
        let s = trig::sin_q(x_udeg) as f64 / 1e12;
        let c = trig::cos_q(x_udeg) as f64 / 1e12;
        assert!((s - x_rad.sin()).abs() < 1e-8, "sin at {} off: {}", x_udeg, s - x_rad.sin());
        assert!((c - x_rad.cos()).abs() < 1e-8, "cos at {} off: {}", x_udeg, c - x_rad.cos());
    }
}

#[test]
fn test_sin_exact_points() {
    assert_eq!(trig::sin_q(0), 0);
    assert_eq!(trig::sin_q(90_000_000), 1_000_000_000_000);
    assert_eq!(trig::cos_q(0), 1_000_000_000_000);
}

#[test]
fn test_atan2_against_reference() {
    let cases: [(i64, i64); 8] = [
        (1_000_000_000_000, 1_000_000_000_000),
        (1_000_000_000_000, -1_000_000_000_000),
        (-500_000_000_000, 866_025_403_784),
        (707_106_781_187, -707_106_781_187),
        (0, 1_000_000_000_000),
        (1, 1_000_000_000_000),
        (-1_000_000_000_000, -1),
        (123_456_789_000, 987_654_321_000),
    ];
    for (y, x) in cases {
        let got = trig::atan2_udeg(y, x) as f64 / 1e6;
        let want = (y as f64).atan2(x as f64).to_degrees();
        let mut diff = (got - want).abs();
        if diff > 180.0 {
            diff = 360.0 - diff;
        }
        assert!(diff < 1e-3, "atan2({y},{x}) = {got}, want {want}");
    }
}

#[test]
fn test_isqrt_exact() {
    for n in [0u128, 1, 2, 3, 4, 15, 16, 1_000_000, 999_999_999_999_999_999] {
        let r = trig::isqrt_u128(n) as u128;
        assert!(r * r <= n && (r + 1) * (r + 1) > n, "isqrt({n}) = {r}");
    }
}

#[test]
fn test_asin_acos_ranges() {
    for k in -10..=10 {
        let v = k * 100_000_000_000i64;
        let a = trig::asin_unit(v);
        assert!((-90_000_000..=90_000_000).contains(&a));
        let want = ((v as f64 / 1e12).clamp(-1.0, 1.0)).asin().to_degrees();
        assert!((a as f64 / 1e6 - want).abs() < 1e-3, "asin({v})");
        let c = trig::acos_unit(v);
        assert!((0..=180_000_000).contains(&c));
    }
}
