use astro_core::geo;
use astro_core::lines::GlobePoint;

fn p(lat_deg: f64, lon_deg: f64) -> GlobePoint {
    GlobePoint {
        lat_udeg: (lat_deg * 1e6).round() as i64,
        lng_udeg: (lon_deg * 1e6).round() as i64,
    }
}

#[test]
fn test_haversine_distance() {
    // Tokyo to Osaka: about 400 km.
    let d = geo::haversine_distance(35_676_200, 139_650_300, 34_693_700, 135_502_300);
    let km = d as f64 / 1000.0;
    assert!(km > 390.0 && km < 410.0, "Tokyo-Osaka should be ~400 km, got {km}");
}

#[test]
fn test_haversine_zero_and_symmetry() {
    assert_eq!(geo::haversine_distance(10_000_000, 20_000_000, 10_000_000, 20_000_000), 0);
    let a = geo::haversine_distance(10_000_000, 20_000_000, -35_000_000, 150_000_000);
    let b = geo::haversine_distance(-35_000_000, 150_000_000, 10_000_000, 20_000_000);
    assert_eq!(a, b, "haversine should be symmetric");
}

#[test]
fn test_cross_track_simple_case() {
    // A point on the segment has nearly zero cross-track distance.
    let (cross, along) = geo::cross_track_distance(0, 5_000_000, 0, 0, 0, 10_000_000);
    assert!(cross < 1_000, "Cross-track should be ~0 for a point on the line, got {cross}");
    assert!(along > 0, "Along-track should be positive between the endpoints");
}

#[test]
fn test_cross_track_perpendicular_offset() {
    // One degree of latitude off the equator line: ~111 km.
    let (cross, _along) = geo::cross_track_distance(1_000_000, 5_000_000, 0, 0, 0, 10_000_000);
    let km = cross as f64 / 1000.0;
    assert!(km > 100.0 && km < 120.0, "Expected ~111 km cross-track, got {km}");
}

#[test]
fn test_cross_track_dateline_crossing() {
    // A segment from 170 E to 170 W passes the dateline; a point on the
    // 180th meridian is near it.
    let d = geo::distance_to_line_segment(0, 180_000_000, 0, 170_000_000, 0, -170_000_000);
    assert!(d < 100_000, "Point at the dateline should be near the line, got {d} m");
}

#[test]
fn test_cross_track_high_latitude() {
    let (cross, _along) = geo::cross_track_distance(
        70_000_000, 25_000_000, 69_650_000, 18_960_000, 68_970_000, 33_090_000,
    );
    assert!(cross < 200_000, "High latitude cross-track should work, got {cross} m");
}

#[test]
fn test_cross_track_endpoint_fallback() {
    // A point beyond the segment's end is measured to that endpoint.
    let d = geo::distance_to_line_segment(0, 20_000_000, 0, 0, 0, 10_000_000);
    let endpoint = geo::haversine_distance(0, 20_000_000, 0, 10_000_000);
    assert!((d - endpoint).abs() < 1_000, "Should fall back to the endpoint distance");
}

#[test]
fn test_cross_track_symmetry_under_endpoint_swap() {
    // Swapping a segment's endpoints leaves the computed distance the
    // same up to the fixed-point rounding.
    let cases = [
        ((10.0, 20.0), (0.0, 0.0), (0.0, 40.0)),
        ((48.0, 2.0), (40.0, -4.0), (52.0, 13.0)),
        ((-30.0, 100.0), (-20.0, 80.0), (-45.0, 120.0)),
    ];
    for (pt, a, b) in cases {
        let d1 = geo::distance_to_line_segment(
            (pt.0 * 1e6) as i64, (pt.1 * 1e6) as i64,
            (a.0 * 1e6) as i64, (a.1 * 1e6) as i64,
            (b.0 * 1e6) as i64, (b.1 * 1e6) as i64,
        );
        let d2 = geo::distance_to_line_segment(
            (pt.0 * 1e6) as i64, (pt.1 * 1e6) as i64,
            (b.0 * 1e6) as i64, (b.1 * 1e6) as i64,
            (a.0 * 1e6) as i64, (a.1 * 1e6) as i64,
        );
        let diff = (d1 - d2).abs();
        assert!(diff < 1_000, "endpoint swap changed the distance by {diff} m");
    }
}

#[test]
fn test_dateline_invariance() {
    // A polyline crossing the 180th meridian gives the same city distance
    // whether it is listed east-to-west or west-to-east.
    let east_to_west = vec![p(0.0, 170.0), p(5.0, 179.0), p(10.0, -172.0)];
    let west_to_east = vec![p(10.0, -172.0), p(5.0, 179.0), p(0.0, 170.0)];
    for city in [(2.0, 175.0), (8.0, -179.0), (-3.0, 168.0)] {
        let c_lat = (city.0 * 1e6) as i64;
        let c_lon = (city.1 * 1e6) as i64;
        let d1 = geo::distance_to_polyline(c_lat, c_lon, &east_to_west);
        let d2 = geo::distance_to_polyline(c_lat, c_lon, &west_to_east);
        assert!((d1 - d2).abs() < 1_000, "direction changed the distance: {d1} vs {d2}");
    }
}

#[test]
fn test_simplify_polyline_keeps_endpoints() {
    // Douglas-Peucker: never more points than the input, endpoints exact.
    let mut pts: Vec<GlobePoint> = Vec::new();
    for i in 0..=100 {
        let lat = -50.0 + i as f64;
        let lon = 10.0 + 0.001 * ((i % 7) as f64);
        pts.push(p(lat, lon));
    }
    let out = geo::simplify_polyline(&pts, 100_000);
    assert!(out.len() <= pts.len());
    assert!(out.len() >= 2);
    assert_eq!(out[0], pts[0], "first point preserved exactly");
    assert_eq!(out[out.len() - 1], pts[pts.len() - 1], "last point preserved exactly");
    assert!(out.len() < 10, "a near-straight line should collapse, got {}", out.len());
}

#[test]
fn test_simplify_polyline_keeps_detail() {
    // A sharp corner survives the tolerance.
    let pts = vec![p(0.0, 0.0), p(10.0, 10.0), p(0.0, 20.0)];
    let out = geo::simplify_polyline(&pts, 100_000);
    assert_eq!(out.len(), 3, "a 10-degree corner must not be dropped");
}

#[test]
fn test_bounding_box_dateline() {
    // A box whose longitude bounds wrap (min above max) uses the
    // disjunctive membership test around the dateline.
    let bbox = geo::LineBoundingBox {
        min_lat_udeg: -10_000_000,
        max_lat_udeg: 10_000_000,
        min_lon_udeg: 170_000_000,
        max_lon_udeg: -170_000_000,
        buffer_udeg: 1_000_000,
    };
    assert!(bbox.might_contain(0, 180_000_000));
    assert!(bbox.might_contain(0, -175_000_000));
    assert!(!bbox.might_contain(0, 0));
    // Points built from a plain list keep min below max and contain all
    // their members.
    let pts = vec![p(0.0, 179.0), p(2.0, -179.0)];
    let wide = geo::LineBoundingBox::from_points(&pts, 100_000);
    assert!(wide.might_contain(1_000_000, 179_000_000));
    assert!(wide.might_contain(1_000_000, -179_000_000));
}

#[test]
fn test_equirectangular_estimate_sane() {
    let est = geo::equirectangular_distance_approx(35_676_200, 139_650_300, 34_693_700, 135_502_300);
    let exact = geo::haversine_distance(35_676_200, 139_650_300, 34_693_700, 135_502_300);
    let ratio = est as f64 / exact as f64;
    assert!(ratio > 0.9 && ratio < 1.1, "flat estimate should be within 10%, ratio {ratio}");
}
