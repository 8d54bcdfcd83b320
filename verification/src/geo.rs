//! Spherical geodesy on the mean-radius Earth: great-circle and cross-track
//! distances, segment and polyline distances with dateline splitting,
//! bounding-box pruning, equirectangular estimates, polyline
//! simplification, and the scouting grids.
//!
//! Coordinates are micro-degrees; distances metres.

use vstd::prelude::*;
use crate::fixmath::{divb, divc, divv, mulb, qmulb};
use crate::lines::GlobePoint;
use crate::trig;

verus! {

/// Mean Earth radius in metres.
pub const EARTH_RADIUS_M: i64 = 6_371_000;

/// Upper bound of any great-circle distance: half the circumference,
/// rounded up.
pub const MAX_DISTANCE_M: i64 = 20_016_000;

/// Metres per degree of arc at the Earth's surface (for flat estimates).
pub const M_PER_DEG: i64 = 111_320;


/// Exact model of the central angle between two points.
pub open spec fn spec_central_angle(lat1: int, lon1: int, lat2: int, lon2: int) -> int {
    let t1 = (1_000_000_000_000 - trig::spec_cos_q(lat2 - lat1)) / 2;
    let c1 = trig::spec_cos_q(lat1);
    let c2 = trig::spec_cos_q(lat2);
    let t2_base = (1_000_000_000_000 - trig::spec_cos_q(lon2 - lon1)) / 2;
    let cc = (c1 * c2) / 1_000_000_000_000;
    let t2 = (cc * t2_base) / 1_000_000_000_000;
    let a_raw = t1 + t2;
    let a = if a_raw < 0 {
        0
    } else if a_raw > 1_000_000_000_000 {
        1_000_000_000_000
    } else {
        a_raw
    };
    let sy = trig::spec_isqrt(a * 1_000_000_000_000);
    let sx = trig::spec_isqrt((1_000_000_000_000 - a) * 1_000_000_000_000);
    2 * trig::spec_atan2(sy, sx)
}

/// Exact model of the arc-to-metres conversion.
pub open spec fn spec_arc_to_metres(c_udeg: int) -> int {
    (c_udeg * 111_194_927) / 1_000_000_000
}

/// Exact model of the great-circle distance in metres.
pub open spec fn spec_haversine(lat1: int, lon1: int, lat2: int, lon2: int) -> int {
    spec_arc_to_metres(spec_central_angle(lat1, lon1, lat2, lon2))
}

/// Exact model of the initial bearing.
pub open spec fn spec_bearing(lat1: int, lon1: int, lat2: int, lon2: int) -> int {
    let dlon = lon2 - lon1;
    let y = (trig::spec_sin_q(dlon) * trig::spec_cos_q(lat2)) / 1_000_000_000_000;
    let x = (trig::spec_cos_q(lat1) * trig::spec_sin_q(lat2)) / 1_000_000_000_000 - ((((
    trig::spec_sin_q(lat1) * trig::spec_cos_q(lat2)) / 1_000_000_000_000) * trig::spec_cos_q(
        dlon,
    )) / 1_000_000_000_000);
    trig::spec_atan2(y, x)
}

/// Exact model of the cross-track and along-track distances.
pub open spec fn spec_cross_track(
    lat_pt: int,
    lon_pt: int,
    lat1: int,
    lon1: int,
    lat2: int,
    lon2: int,
) -> (int, int) {
    let d13 = spec_central_angle(lat1, lon1, lat_pt, lon_pt);
    let b13 = spec_bearing(lat1, lon1, lat_pt, lon_pt);
    let b12 = spec_bearing(lat1, lon1, lat2, lon2);
    let s_raw = (trig::spec_sin_q(d13) * trig::spec_sin_q(b13 - b12)) / 1_000_000_000_000;
    let sc = if s_raw > 1_000_000_000_000 {
        1_000_000_000_000
    } else if s_raw < -1_000_000_000_000 {
        -1_000_000_000_000
    } else {
        s_raw
    };
    let dxt = trig::spec_asin(sc);
    let dxt_abs = if dxt >= 0 {
        dxt
    } else {
        -dxt
    };
    let cross = spec_arc_to_metres(dxt_abs);
    let cos_dxt_raw = trig::spec_cos_q(dxt);
    let cos_dxt = if cos_dxt_raw < 100 {
        100
    } else {
        cos_dxt_raw
    };
    let ratio_raw = crate::fixmath::spec_divv(trig::spec_cos_q(d13) * 1_000_000_000_000, cos_dxt);
    let ratio = if ratio_raw > 1_000_000_000_000 {
        1_000_000_000_000
    } else if ratio_raw < -1_000_000_000_000 {
        -1_000_000_000_000
    } else {
        ratio_raw
    };
    let dat = trig::spec_acos(ratio);
    let along_arc = if dat > 180_000_000 {
        180_000_000
    } else {
        dat
    };
    let along_mag = spec_arc_to_metres(along_arc);
    let along = if trig::spec_cos_q(b13 - b12) >= 0 {
        along_mag
    } else {
        -along_mag
    };
    (cross, along)
}

/// Exact model of the longitude unwrap.
pub open spec fn spec_unwrap_longitude(lon: int, ref_lon: int) -> int {
    let d = lon - ref_lon;
    if d > 180_000_000 {
        lon - 360_000_000
    } else if d < -180_000_000 {
        lon + 360_000_000
    } else {
        lon
    }
}

/// Exact model of the dateline-crossing interpolation.
pub open spec fn spec_dateline_crossing(lat1: int, lon1: int, lat2: int, lon2: int) -> (int, int) {
    let lon2u = spec_unwrap_longitude(lon2, lon1);
    let crossing = if lon2u > lon1 {
        180_000_000int
    } else {
        -180_000_000int
    };
    let den = lon2u - lon1;
    if den == 0 {
        (lat1, crossing)
    } else {
        let num = (crossing - lon1) * (lat2 - lat1);
        let adj = if den > 0 {
            crate::fixmath::spec_divv(num, den)
        } else {
            crate::fixmath::spec_divv(num, -den)
        };
        let step = if den > 0 {
            adj
        } else {
            -adj
        };
        let lat_raw = lat1 + step;
        let lat = if lat_raw > 90_000_000 {
            90_000_000int
        } else if lat_raw < -90_000_000 {
            -90_000_000int
        } else {
            lat_raw
        };
        (lat, crossing)
    }
}

/// Exact model of the clamped-projection segment distance (no dateline
/// handling).
pub open spec fn spec_segment_distance_direct(
    lat_pt: int,
    lon_pt: int,
    lat1: int,
    lon1: int,
    lat2: int,
    lon2: int,
) -> int {
    let ct = spec_cross_track(lat_pt, lon_pt, lat1, lon1, lat2, lon2);
    let seg_len = spec_haversine(lat1, lon1, lat2, lon2);
    if ct.1 < 0 {
        spec_haversine(lat_pt, lon_pt, lat1, lon1)
    } else if ct.1 > seg_len {
        spec_haversine(lat_pt, lon_pt, lat2, lon2)
    } else {
        ct.0
    }
}

/// Exact model of the segment distance with the dateline split.
pub open spec fn spec_segment_distance(
    lat_pt: int,
    lon_pt: int,
    lat1: int,
    lon1: int,
    lat2: int,
    lon2: int,
) -> int {
    let dlon = lon2 - lon1;
    if dlon > 180_000_000 || dlon < -180_000_000 {
        let c = spec_dateline_crossing(lat1, lon1, lat2, lon2);
        let cross_lon2 = if c.1 == 180_000_000 {
            -180_000_000int
        } else {
            180_000_000int
        };
        let d1 = spec_segment_distance_direct(lat_pt, lon_pt, lat1, lon1, c.0, c.1);
        let d2 = spec_segment_distance_direct(lat_pt, lon_pt, c.0, cross_lon2, lat2, lon2);
        if d1 <= d2 {
            d1
        } else {
            d2
        }
    } else {
        spec_segment_distance_direct(lat_pt, lon_pt, lat1, lon1, lat2, lon2)
    }
}

/// Minimum segment distance over the first `k` segments of a polyline,
/// starting from the scan's upper bound.
pub open spec fn spec_polyline_min(lat: int, lon: int, pts: Seq<GlobePoint>, k: int) -> int
    decreases k,
{
    if k <= 0 {
        20_016_000
    } else {
        let prev = spec_polyline_min(lat, lon, pts, k - 1);
        let d = spec_segment_distance(
            lat,
            lon,
            pts[k - 1].lat_udeg as int,
            pts[k - 1].lng_udeg as int,
            pts[k].lat_udeg as int,
            pts[k].lng_udeg as int,
        );
        if d < prev {
            d
        } else {
            prev
        }
    }
}

/// Exact model of the polyline distance: the far-away sentinel when empty,
/// the single point's distance for one point, the segment minimum
/// otherwise.
pub open spec fn spec_polyline_distance(lat: int, lon: int, pts: Seq<GlobePoint>) -> int {
    if pts.len() == 0 {
        1_000_000_000
    } else if pts.len() == 1 {
        spec_haversine(lat, lon, pts[0].lat_udeg as int, pts[0].lng_udeg as int)
    } else {
        spec_polyline_min(lat, lon, pts, pts.len() - 1)
    }
}

/// Central angle (micro-degrees, `[0, 180]` degrees) between two points,
/// by the haversine formula written with cosines so that it is symmetric.
fn central_angle_udeg(lat1: i64, lon1: i64, lat2: i64, lon2: i64) -> (r: i64)
    requires
        -90_000_000 <= lat1 <= 90_000_000,
        -90_000_000 <= lat2 <= 90_000_000,
        -360_000_000 <= lon1 <= 360_000_000,
        -360_000_000 <= lon2 <= 360_000_000,
    ensures
        r == spec_central_angle(lat1 as int, lon1 as int, lat2 as int, lon2 as int),
        0 <= r <= 180_000_000,
        lat1 == lat2 && lon1 == lon2 ==> r == 0,
{
    let qb: i128 = 1_000_000_000_000;
    // hav(dlat) and hav(dlon) through (1 - cos)/2, which is even.
    let t1: i128 = ((trig::Q - trig::cos_q(lat2 - lat1)) as i128) / 2;
    let c1 = trig::cos_q(lat1) as i128;
    let c2 = trig::cos_q(lat2) as i128;
    let t2_base: i128 = ((trig::Q - trig::cos_q(lon2 - lon1)) as i128) / 2;
    let cc = qmulb(c1, qb, c2, qb);
    let t2 = qmulb(cc, qb, t2_base, qb);
    let a_raw: i128 = t1 + t2;
    let a: i128 = if a_raw < 0 {
        0
    } else if a_raw > 1_000_000_000_000 {
        1_000_000_000_000
    } else {
        a_raw
    };
    proof {
        trig::lemma_sin_exact_points();
        if lat1 == lat2 && lon1 == lon2 {
            assert(trig::spec_cos_q(0) == 1_000_000_000_000);
            assert(t1 == 0);
            assert(t2_base == 0);
            assert(cc * 0 == 0) by (nonlinear_arith);
            assert(t2 == 0);
        }
    }
    let sy = trig::isqrt_i128(a * 1_000_000_000_000);
    let sx = trig::isqrt_i128((1_000_000_000_000 - a) * 1_000_000_000_000);
    proof {
        assert(sy <= 1_000_000_000_000) by (nonlinear_arith)
            requires
                sy * sy <= a * 1_000_000_000_000,
                a <= 1_000_000_000_000,
                sy >= 0;
        assert(sx <= 1_000_000_000_000) by (nonlinear_arith)
            requires
                sx * sx <= (1_000_000_000_000 - a) * 1_000_000_000_000,
                1_000_000_000_000 - a <= 1_000_000_000_000,
                sx >= 0;
        if a == 0 {
            assert(sy * sy <= 0);
            assert(sy == 0) by (nonlinear_arith)
                requires
                    sy * sy <= 0,
                    sy >= 0;
        }
    }
    let half = trig::atan2_udeg(sy as i64, sx as i64);
    proof {
        assert(half >= 0);
    }
    2 * half
}

/// Great-circle distance between two points in metres (mean-radius
/// sphere).  Zero for coincident points; symmetric in form.
pub fn haversine_distance(lat1: i64, lon1: i64, lat2: i64, lon2: i64) -> (r: i64)
    requires
        -90_000_000 <= lat1 <= 90_000_000,
        -90_000_000 <= lat2 <= 90_000_000,
        -360_000_000 <= lon1 <= 360_000_000,
        -360_000_000 <= lon2 <= 360_000_000,
    ensures
        r == spec_haversine(lat1 as int, lon1 as int, lat2 as int, lon2 as int),
        0 <= r <= MAX_DISTANCE_M,
        lat1 == lat2 && lon1 == lon2 ==> r == 0,
{
    let c = central_angle_udeg(lat1, lon1, lat2, lon2);
    arc_to_metres(c)
}

/// Convert a central angle in micro-degrees to surface metres.
fn arc_to_metres(c_udeg: i64) -> (r: i64)
    requires
        0 <= c_udeg <= 360_000_000,
    ensures
        r == spec_arc_to_metres(c_udeg as int),
        0 <= r <= 2 * MAX_DISTANCE_M,
        c_udeg <= 180_000_000 ==> r <= MAX_DISTANCE_M,
        c_udeg == 0 ==> r == 0,
{
    // metres = angle * (pi/180) * R / 10^6 = angle * 111194.9266 / 10^6.
    let m = divb((c_udeg as i128) * 111_194_927, 40_030_173_720_000_000, 1_000_000_000);
    m as i64
}


/// Exact model of the flat equirectangular estimate.
pub open spec fn spec_equirectangular(lat1: int, lon1: int, lat2: int, lon2: int) -> int {
    let mid = (lat1 + lat2) / 2;
    let dx = ((lon2 - lon1) * trig::spec_cos_q(mid)) / 1_000_000_000_000;
    let dy = lat2 - lat1;
    let dd = trig::spec_isqrt(dx * dx + dy * dy);
    (dd * 111_320) / 1_000_000
}

/// Flat equirectangular estimate of the distance, metres; cheap and
/// symmetric, for pruning only.
pub fn equirectangular_distance_approx(lat1: i64, lon1: i64, lat2: i64, lon2: i64) -> (r: i64)
    requires
        -90_000_000 <= lat1 <= 90_000_000,
        -90_000_000 <= lat2 <= 90_000_000,
        -360_000_000 <= lon1 <= 360_000_000,
        -360_000_000 <= lon2 <= 360_000_000,
    ensures
        r == spec_equirectangular(lat1 as int, lon1 as int, lat2 as int, lon2 as int),
        0 <= r <= 100_000_000,
{
    let mid: i64 = divc(((lat1 as i128) + (lat2 as i128)), 2) as i64;
    let cos_mid = trig::cos_q(mid) as i128;
    let dx: i128 = qmulb((lon2 - lon1) as i128, 720_000_000, cos_mid, 1_000_000_000_000);
    let dy: i128 = (lat2 - lat1) as i128;
    let d2 = mulb(dx, 720_000_000, dx, 720_000_000) + mulb(dy, 180_000_000, dy, 180_000_000);
    proof {
        assert(d2 >= 0) by (nonlinear_arith)
            requires
                d2 == dx * dx + dy * dy;
    }
    let dd = trig::isqrt_i128(d2);
    proof {
        assert(dd <= 800_000_000) by (nonlinear_arith)
            requires
                dd * dd <= d2,
                d2 <= 720_000_000 * 720_000_000 + 180_000_000 * 180_000_000,
                dd >= 0;
    }
    // micro-degrees of arc to metres: 111.32 km per degree.
    (divb(dd * 111_320, 89_056_000_000_000_000, 1_000_000)) as i64
}


/// Minimum latitude over the first `k` points (from the first point).
pub open spec fn spec_min_lat(pts: Seq<GlobePoint>, k: int) -> int
    decreases k,
{
    if k <= 1 {
        pts[0].lat_udeg as int
    } else {
        let prev = spec_min_lat(pts, k - 1);
        if pts[k - 1].lat_udeg < prev {
            pts[k - 1].lat_udeg as int
        } else {
            prev
        }
    }
}

/// Maximum latitude over the first `k` points.
pub open spec fn spec_max_lat(pts: Seq<GlobePoint>, k: int) -> int
    decreases k,
{
    if k <= 1 {
        pts[0].lat_udeg as int
    } else {
        let prev = spec_max_lat(pts, k - 1);
        if pts[k - 1].lat_udeg > prev {
            pts[k - 1].lat_udeg as int
        } else {
            prev
        }
    }
}

/// Minimum longitude over the first `k` points.
pub open spec fn spec_min_lon(pts: Seq<GlobePoint>, k: int) -> int
    decreases k,
{
    if k <= 1 {
        pts[0].lng_udeg as int
    } else {
        let prev = spec_min_lon(pts, k - 1);
        if pts[k - 1].lng_udeg < prev {
            pts[k - 1].lng_udeg as int
        } else {
            prev
        }
    }
}

/// Maximum longitude over the first `k` points.
pub open spec fn spec_max_lon(pts: Seq<GlobePoint>, k: int) -> int
    decreases k,
{
    if k <= 1 {
        pts[0].lng_udeg as int
    } else {
        let prev = spec_max_lon(pts, k - 1);
        if pts[k - 1].lng_udeg > prev {
            pts[k - 1].lng_udeg as int
        } else {
            prev
        }
    }
}

/// The buffer in micro-degrees for a metre distance, capped at a turn.
pub open spec fn spec_buffer_udeg(buffer_m: int) -> int {
    let wide = (buffer_m * 1_000_000) / 111_320;
    if wide > 360_000_000 {
        360_000_000
    } else {
        wide
    }
}

/// An axis-aligned bounding box around a polyline, inflated by a buffer.
pub struct LineBoundingBox {
    pub min_lat_udeg: i64,
    pub max_lat_udeg: i64,
    pub min_lon_udeg: i64,
    pub max_lon_udeg: i64,
    pub buffer_udeg: i64,
}

impl LineBoundingBox {
    /// Coordinates in range and a non-negative buffer.
    pub open spec fn wf(self) -> bool {
        &&& -90_000_000 <= self.min_lat_udeg <= 90_000_000
        &&& -90_000_000 <= self.max_lat_udeg <= 90_000_000
        &&& -180_000_000 <= self.min_lon_udeg <= 180_000_000
        &&& -180_000_000 <= self.max_lon_udeg <= 180_000_000
        &&& 0 <= self.buffer_udeg <= 360_000_000
    }

    /// The box's own membership test, over its fields.
    pub open spec fn spec_might_contain(self, lat: int, lon: int) -> bool {
        let lat_in = self.min_lat_udeg - self.buffer_udeg <= lat <= self.max_lat_udeg
            + self.buffer_udeg;
        let lon_in = if self.min_lon_udeg > self.max_lon_udeg {
            lon >= self.min_lon_udeg - self.buffer_udeg || lon <= self.max_lon_udeg
                + self.buffer_udeg
        } else {
            self.min_lon_udeg - self.buffer_udeg <= lon <= self.max_lon_udeg + self.buffer_udeg
        };
        lat_in && lon_in
    }

    /// Build the box of a polyline, buffered by a distance in metres.
    /// An empty polyline gets the whole-world box.
    pub fn from_points(points: &Vec<GlobePoint>, buffer_m: i64) -> (r: LineBoundingBox)
        requires
            forall|i: int| 0 <= i < points@.len() ==> (#[trigger] points@[i]).wf(),
            0 <= buffer_m <= 40_000_000_000,
        ensures
            r.wf(),
            r.buffer_udeg == spec_buffer_udeg(buffer_m as int),
            points@.len() == 0 ==> r.min_lat_udeg == -90_000_000 && r.max_lat_udeg == 90_000_000
                && r.min_lon_udeg == -180_000_000 && r.max_lon_udeg == 180_000_000,
            points@.len() > 0 ==> r.min_lat_udeg == spec_min_lat(points@, points@.len() as int)
                && r.max_lat_udeg == spec_max_lat(points@, points@.len() as int)
                && r.min_lon_udeg == spec_min_lon(points@, points@.len() as int)
                && r.max_lon_udeg == spec_max_lon(points@, points@.len() as int),
            forall|i: int|
                0 <= i < points@.len() ==> r.min_lat_udeg <= (#[trigger] points@[i]).lat_udeg
                    <= r.max_lat_udeg,
            forall|i: int|
                0 <= i < points@.len() ==> r.min_lon_udeg <= (#[trigger] points@[i]).lng_udeg
                    <= r.max_lon_udeg,
    {
        let buffer_udeg_wide = divc((buffer_m as i128) * 1_000_000, 111_320);
        let buffer_udeg: i64 = if buffer_udeg_wide > 360_000_000 {
            360_000_000
        } else {
            buffer_udeg_wide as i64
        };
        if points.len() == 0 {
            return LineBoundingBox {
                min_lat_udeg: -90_000_000,
                max_lat_udeg: 90_000_000,
                min_lon_udeg: -180_000_000,
                max_lon_udeg: 180_000_000,
                buffer_udeg,
            };
        }
        let mut min_lat: i64 = points[0].lat_udeg;
        let mut max_lat: i64 = points[0].lat_udeg;
        let mut min_lon: i64 = points[0].lng_udeg;
        let mut max_lon: i64 = points[0].lng_udeg;
        let mut i: usize = 1;
        while i < points.len()
            invariant
                1 <= i <= points@.len(),
                points@.len() >= 1,
                forall|j: int| 0 <= j < points@.len() ==> (#[trigger] points@[j]).wf(),
                min_lat == spec_min_lat(points@, i as int),
                max_lat == spec_max_lat(points@, i as int),
                min_lon == spec_min_lon(points@, i as int),
                max_lon == spec_max_lon(points@, i as int),
                -90_000_000 <= min_lat <= 90_000_000,
                -90_000_000 <= max_lat <= 90_000_000,
                -180_000_000 <= min_lon <= 180_000_000,
                -180_000_000 <= max_lon <= 180_000_000,
                forall|j: int|
                    0 <= j < i ==> min_lat <= (#[trigger] points@[j]).lat_udeg <= max_lat,
                forall|j: int|
                    0 <= j < i ==> min_lon <= (#[trigger] points@[j]).lng_udeg <= max_lon,
            decreases points@.len() - i,
        {
            let p = points[i];
            if p.lat_udeg < min_lat {
                min_lat = p.lat_udeg;
            }
            if p.lat_udeg > max_lat {
                max_lat = p.lat_udeg;
            }
            if p.lng_udeg < min_lon {
                min_lon = p.lng_udeg;
            }
            if p.lng_udeg > max_lon {
                max_lon = p.lng_udeg;
            }
            i = i + 1;
        }
        LineBoundingBox {
            min_lat_udeg: min_lat,
            max_lat_udeg: max_lat,
            min_lon_udeg: min_lon,
            max_lon_udeg: max_lon,
            buffer_udeg,
        }
    }

    /// Whether a city could lie within the buffered box (the dateline case
    /// uses the disjunctive longitude test).
    pub fn might_contain(&self, city_lat_udeg: i64, city_lon_udeg: i64) -> (r: bool)
        requires
            self.wf(),
            -90_000_000 <= city_lat_udeg <= 90_000_000,
            -180_000_000 <= city_lon_udeg <= 180_000_000,
        ensures
            r == self.spec_might_contain(city_lat_udeg as int, city_lon_udeg as int),
    {
        let lat_in = city_lat_udeg >= self.min_lat_udeg - self.buffer_udeg && city_lat_udeg
            <= self.max_lat_udeg + self.buffer_udeg;
        if !lat_in {
            return false;
        }
        if self.min_lon_udeg > self.max_lon_udeg {
            city_lon_udeg >= self.min_lon_udeg - self.buffer_udeg || city_lon_udeg
                <= self.max_lon_udeg + self.buffer_udeg
        } else {
            city_lon_udeg >= self.min_lon_udeg - self.buffer_udeg && city_lon_udeg
                <= self.max_lon_udeg + self.buffer_udeg
        }
    }
}

/// Initial great-circle bearing from one point toward another, in
/// micro-degrees.
fn bearing_udeg(lat1: i64, lon1: i64, lat2: i64, lon2: i64) -> (r: i64)
    requires
        -90_000_000 <= lat1 <= 90_000_000,
        -90_000_000 <= lat2 <= 90_000_000,
        -360_000_000 <= lon1 <= 360_000_000,
        -360_000_000 <= lon2 <= 360_000_000,
    ensures
        r == spec_bearing(lat1 as int, lon1 as int, lat2 as int, lon2 as int),
        -180_000_000 <= r <= 180_000_000,
{
    let qb: i128 = 1_000_000_000_000;
    let dlon = lon2 - lon1;
    let y: i128 = qmulb(trig::sin_q(dlon) as i128, qb, trig::cos_q(lat2) as i128, qb);
    let x: i128 = qmulb(trig::cos_q(lat1) as i128, qb, trig::sin_q(lat2) as i128, qb) - qmulb(
        qmulb(trig::sin_q(lat1) as i128, qb, trig::cos_q(lat2) as i128, qb),
        qb,
        trig::cos_q(dlon) as i128,
        qb,
    );
    trig::atan2_udeg(y as i64, x as i64)
}

/// Cross-track and along-track distances (metres) of a point against the
/// great circle through a segment's endpoints.  The cross-track part is the
/// perpendicular distance to the path; the along-track part is signed and
/// negative when the point projects before the start.
pub fn cross_track_distance(
    lat_pt: i64,
    lon_pt: i64,
    lat1: i64,
    lon1: i64,
    lat2: i64,
    lon2: i64,
) -> (r: (i64, i64))
    requires
        -90_000_000 <= lat_pt <= 90_000_000,
        -90_000_000 <= lat1 <= 90_000_000,
        -90_000_000 <= lat2 <= 90_000_000,
        -180_000_000 <= lon_pt <= 180_000_000,
        -180_000_000 <= lon1 <= 180_000_000,
        -180_000_000 <= lon2 <= 180_000_000,
    ensures
        r.0 == spec_cross_track(
            lat_pt as int, lon_pt as int, lat1 as int, lon1 as int, lat2 as int, lon2 as int,
        ).0,
        r.1 == spec_cross_track(
            lat_pt as int, lon_pt as int, lat1 as int, lon1 as int, lat2 as int, lon2 as int,
        ).1,
        0 <= r.0 <= MAX_DISTANCE_M,
        -(MAX_DISTANCE_M as int) <= r.1 <= MAX_DISTANCE_M,
{
    let qb: i128 = 1_000_000_000_000;
    let d13 = central_angle_udeg(lat1, lon1, lat_pt, lon_pt);
    let b13 = bearing_udeg(lat1, lon1, lat_pt, lon_pt);
    let b12 = bearing_udeg(lat1, lon1, lat2, lon2);
    // sin(cross) = sin(d13) sin(b13 - b12), clamped into [-1, 1].
    let s_raw: i128 = qmulb(
        trig::sin_q(d13) as i128,
        qb,
        trig::sin_q(b13 - b12) as i128,
        qb,
    );
    let s: i64 = if s_raw > 1_000_000_000_000 {
        1_000_000_000_000
    } else if s_raw < -1_000_000_000_000 {
        -1_000_000_000_000
    } else {
        s_raw as i64
    };
    let dxt = trig::asin_unit(s);
    let dxt_abs: i64 = if dxt >= 0 {
        dxt
    } else {
        -dxt
    };
    let cross = arc_to_metres(dxt_abs);

    // cos(along) = cos(d13) / cos(dxt), the denominator kept away from
    // zero; the sign of the along-track distance follows cos(b13 - b12).
    let cos_d13 = trig::cos_q(d13) as i128;
    let cos_dxt_raw = trig::cos_q(dxt);
    let cos_dxt: i128 = if cos_dxt_raw < 100 {
        100
    } else {
        cos_dxt_raw as i128
    };
    let ratio_raw = divv(cos_d13 * 1_000_000_000_000, 1_000_000_000_000_000_000_000_000, cos_dxt, 100);
    let ratio: i64 = if ratio_raw > 1_000_000_000_000 {
        1_000_000_000_000
    } else if ratio_raw < -1_000_000_000_000 {
        -1_000_000_000_000
    } else {
        ratio_raw as i64
    };
    let dat = trig::acos_unit(ratio);
    let along_mag_arc: i64 = if dat > 180_000_000 {
        180_000_000
    } else {
        dat
    };
    let along_mag = arc_to_metres(along_mag_arc);
    let along: i64 = if trig::cos_q(b13 - b12) >= 0 {
        along_mag
    } else {
        -along_mag
    };
    (cross, along)
}

/// Bring a longitude within half a turn of a reference, by whole turns.
fn unwrap_longitude(lon: i64, ref_lon: i64) -> (r: i64)
    requires
        -180_000_000 <= lon <= 180_000_000,
        -180_000_000 <= ref_lon <= 180_000_000,
    ensures
        r == spec_unwrap_longitude(lon as int, ref_lon as int),
        -180_000_000 <= r - ref_lon <= 180_000_000,
        r == lon || r == lon + 360_000_000 || r == lon - 360_000_000,
{
    let d = lon - ref_lon;
    if d > 180_000_000 {
        lon - 360_000_000
    } else if d < -180_000_000 {
        lon + 360_000_000
    } else {
        lon
    }
}

/// Latitude and meridian at which a dateline-crossing segment meets the
/// 180th meridian, by linear interpolation in unwrapped longitude.
fn interpolate_dateline_crossing(lat1: i64, lon1: i64, lat2: i64, lon2: i64) -> (r: (i64, i64))
    requires
        -90_000_000 <= lat1 <= 90_000_000,
        -90_000_000 <= lat2 <= 90_000_000,
        -180_000_000 <= lon1 <= 180_000_000,
        -180_000_000 <= lon2 <= 180_000_000,
        lon2 - lon1 > 180_000_000 || lon2 - lon1 < -180_000_000,
    ensures
        r.0 == spec_dateline_crossing(lat1 as int, lon1 as int, lat2 as int, lon2 as int).0,
        r.1 == spec_dateline_crossing(lat1 as int, lon1 as int, lat2 as int, lon2 as int).1,
        -90_000_000 <= r.0 <= 90_000_000,
        r.1 == 180_000_000 || r.1 == -180_000_000,
{
    let lon2u = unwrap_longitude(lon2, lon1);
    let crossing: i64 = if lon2u > lon1 {
        180_000_000
    } else {
        -180_000_000
    };
    let den: i64 = lon2u - lon1;
    if den == 0 {
        return (lat1, crossing);
    }
    let num = mulb((crossing - lon1) as i128, 360_000_000, (lat2 - lat1) as i128, 180_000_000);
    let adj: i128 = if den > 0 {
        divv(num, 64_800_000_000_000_000, den as i128, 1)
    } else {
        divv(num, 64_800_000_000_000_000, (-den) as i128, 1)
    };
    let step: i128 = if den > 0 {
        adj
    } else {
        -adj
    };
    let lat_raw: i128 = (lat1 as i128) + step;
    let lat: i64 = if lat_raw > 90_000_000 {
        90_000_000
    } else if lat_raw < -90_000_000 {
        -90_000_000
    } else {
        lat_raw as i64
    };
    (lat, crossing)
}

/// Distance from a point to a great-circle segment, with the projection
/// clamped to the segment: beyond either end the answer is the distance to
/// that endpoint.
fn distance_to_line_segment_direct(
    lat_pt: i64,
    lon_pt: i64,
    lat1: i64,
    lon1: i64,
    lat2: i64,
    lon2: i64,
) -> (r: i64)
    requires
        -90_000_000 <= lat_pt <= 90_000_000,
        -90_000_000 <= lat1 <= 90_000_000,
        -90_000_000 <= lat2 <= 90_000_000,
        -180_000_000 <= lon_pt <= 180_000_000,
        -180_000_000 <= lon1 <= 180_000_000,
        -180_000_000 <= lon2 <= 180_000_000,
    ensures
        r == spec_segment_distance_direct(
            lat_pt as int, lon_pt as int, lat1 as int, lon1 as int, lat2 as int, lon2 as int,
        ),
        0 <= r <= MAX_DISTANCE_M,
{
    let (cross, along) = cross_track_distance(lat_pt, lon_pt, lat1, lon1, lat2, lon2);
    let seg_len = haversine_distance(lat1, lon1, lat2, lon2);
    if along < 0 {
        haversine_distance(lat_pt, lon_pt, lat1, lon1)
    } else if along > seg_len {
        haversine_distance(lat_pt, lon_pt, lat2, lon2)
    } else {
        cross
    }
}

/// Distance from a point to a segment, splitting segments that cross the
/// dateline at the 180th meridian first.
pub fn distance_to_line_segment(
    lat_pt: i64,
    lon_pt: i64,
    lat1: i64,
    lon1: i64,
    lat2: i64,
    lon2: i64,
) -> (r: i64)
    requires
        -90_000_000 <= lat_pt <= 90_000_000,
        -90_000_000 <= lat1 <= 90_000_000,
        -90_000_000 <= lat2 <= 90_000_000,
        -180_000_000 <= lon_pt <= 180_000_000,
        -180_000_000 <= lon1 <= 180_000_000,
        -180_000_000 <= lon2 <= 180_000_000,
    ensures
        r == spec_segment_distance(
            lat_pt as int, lon_pt as int, lat1 as int, lon1 as int, lat2 as int, lon2 as int,
        ),
        0 <= r <= MAX_DISTANCE_M,
{
    let dlon = lon2 - lon1;
    if dlon > 180_000_000 || dlon < -180_000_000 {
        let (cross_lat, cross_lon1) = interpolate_dateline_crossing(lat1, lon1, lat2, lon2);
        let cross_lon2: i64 = if cross_lon1 == 180_000_000 {
            -180_000_000
        } else {
            180_000_000
        };
        let d1 = distance_to_line_segment_direct(lat_pt, lon_pt, lat1, lon1, cross_lat, cross_lon1);
        let d2 = distance_to_line_segment_direct(lat_pt, lon_pt, cross_lat, cross_lon2, lat2, lon2);
        if d1 <= d2 {
            d1
        } else {
            d2
        }
    } else {
        distance_to_line_segment_direct(lat_pt, lon_pt, lat1, lon1, lat2, lon2)
    }
}

/// Minimum distance from a city to a polyline, metres; the far-away
/// sentinel for an empty polyline.
pub fn distance_to_polyline(city_lat: i64, city_lon: i64, line_points: &Vec<GlobePoint>) -> (r: i64)
    requires
        -90_000_000 <= city_lat <= 90_000_000,
        -180_000_000 <= city_lon <= 180_000_000,
        forall|i: int| 0 <= i < line_points@.len() ==> (#[trigger] line_points@[i]).wf(),
    ensures
        r == spec_polyline_distance(city_lat as int, city_lon as int, line_points@),
        line_points@.len() == 0 ==> r == crate::scoring::FAR_AWAY_M,
        line_points@.len() > 0 ==> 0 <= r <= MAX_DISTANCE_M,
{
    if line_points.len() == 0 {
        return crate::scoring::FAR_AWAY_M;
    }
    if line_points.len() == 1 {
        let p = line_points[0];
        return haversine_distance(city_lat, city_lon, p.lat_udeg, p.lng_udeg);
    }
    let mut min_distance: i64 = MAX_DISTANCE_M;
    let mut i: usize = 0;
    while i < line_points.len() - 1
        invariant
            line_points@.len() >= 2,
            i <= line_points@.len() - 1,
            min_distance == spec_polyline_min(city_lat as int, city_lon as int, line_points@, i as int),
            0 <= min_distance <= MAX_DISTANCE_M,
            -90_000_000 <= city_lat <= 90_000_000,
            -180_000_000 <= city_lon <= 180_000_000,
            forall|j: int| 0 <= j < line_points@.len() ==> (#[trigger] line_points@[j]).wf(),
        decreases line_points@.len() - i,
    {
        let p1 = line_points[i];
        let p2 = line_points[i + 1];
        let d = distance_to_line_segment(
            city_lat,
            city_lon,
            p1.lat_udeg,
            p1.lng_udeg,
            p2.lat_udeg,
            p2.lng_udeg,
        );
        if d < min_distance {
            min_distance = d;
        }
        i = i + 1;
    }
    min_distance
}

/// Whether a point lies farther from the chord through `a` and `b` than a
/// tolerance, by the exact integer comparison of the squared shoelace
/// cross-product against the squared tolerance times the squared chord
/// length.  For a degenerate chord the point's flat squared distance to
/// `a` is compared instead.
pub open spec fn spec_farther_than(p: GlobePoint, a: GlobePoint, b: GlobePoint, tol: int) -> bool {
    let dx = b.lat_udeg - a.lat_udeg;
    let dy = b.lng_udeg - a.lng_udeg;
    if dx == 0 && dy == 0 {
        let ex = p.lat_udeg - a.lat_udeg;
        let ey = p.lng_udeg - a.lng_udeg;
        ex * ex + ey * ey > tol * tol
    } else {
        let cross = dy * p.lat_udeg - dx * p.lng_udeg + b.lat_udeg * a.lng_udeg - b.lng_udeg
            * a.lat_udeg;
        cross * cross > tol * tol * (dx * dx + dy * dy)
    }
}

/// Executable mirror of `spec_farther_than`.
fn farther_than(p: GlobePoint, a: GlobePoint, b: GlobePoint, tol: i64) -> (r: bool)
    requires
        p.wf(),
        a.wf(),
        b.wf(),
        0 <= tol <= 360_000_000,
    ensures
        r == spec_farther_than(p, a, b, tol as int),
{
    let dx: i128 = (b.lat_udeg - a.lat_udeg) as i128;
    let dy: i128 = (b.lng_udeg - a.lng_udeg) as i128;
    if dx == 0 && dy == 0 {
        let ex: i128 = (p.lat_udeg - a.lat_udeg) as i128;
        let ey: i128 = (p.lng_udeg - a.lng_udeg) as i128;
        let e2 = mulb(ex, 180_000_000, ex, 180_000_000) + mulb(ey, 360_000_000, ey, 360_000_000);
        let t2 = mulb(tol as i128, 360_000_000, tol as i128, 360_000_000);
        e2 > t2
    } else {
        let c1 = mulb(dy, 720_000_000, p.lat_udeg as i128, 90_000_000);
        let c2 = mulb(dx, 180_000_000, p.lng_udeg as i128, 180_000_000);
        let c3 = mulb(b.lat_udeg as i128, 90_000_000, a.lng_udeg as i128, 180_000_000);
        let c4 = mulb(b.lng_udeg as i128, 180_000_000, a.lat_udeg as i128, 90_000_000);
        let cross: i128 = c1 - c2 + c3 - c4;
        let cross2 = mulb(cross, 200_000_000_000_000_000, cross, 200_000_000_000_000_000);
        let len2 = mulb(dx, 180_000_000, dx, 180_000_000) + mulb(dy, 720_000_000, dy, 720_000_000);
        let t2 = mulb(tol as i128, 360_000_000, tol as i128, 360_000_000);
        let rhs = mulb(t2, 129_600_000_000_000_000, len2, 600_000_000_000_000_000);
        cross2 > rhs
    }
}

/// An order-preserving selection: `idx` picks the points of `r` out of
/// `pts`, strictly left to right.
pub open spec fn spec_subsequence_of(r: Seq<GlobePoint>, pts: Seq<GlobePoint>, idx: Seq<int>) -> bool {
    &&& idx.len() == r.len()
    &&& forall|k: int| 0 <= k < idx.len() ==> 0 <= #[trigger] idx[k] < pts.len()
    &&& forall|k: int| 0 < k < idx.len() ==> #[trigger] idx[k] > idx[k - 1]
    &&& forall|k: int| 0 <= k < idx.len() ==> #[trigger] r[k] == pts[idx[k]]
}

/// Douglas-Peucker simplification of the points between two indices
/// (inclusive): keep the endpoints; if some interior point lies farther
/// from the chord than the tolerance, split there, otherwise drop the
/// interior.  The result keeps the segment's endpoints, never grows, and
/// draws every point from the input.
fn simplify_range(points: &Vec<GlobePoint>, lo: usize, hi: usize, tol: i64) -> (r: Vec<GlobePoint>)
    requires
        lo < hi < points@.len(),
        0 <= tol <= 360_000_000,
        forall|i: int| 0 <= i < points@.len() ==> (#[trigger] points@[i]).wf(),
    ensures
        2 <= r@.len() <= hi - lo + 1,
        r@[0] == points@[lo as int],
        r@[r@.len() - 1] == points@[hi as int],
        forall|i: int| 0 <= i < r@.len() ==> (#[trigger] r@[i]).wf(),
        exists|idx: Seq<int>|
            spec_subsequence_of(r@, points@, idx) && #[trigger] idx[0] == lo && idx[idx.len() - 1]
                == hi,
    decreases hi - lo,
{
    let first = points[lo];
    let last = points[hi];
    // Find the interior point farthest from the chord, by the squared
    // cross-product measure.
    let mut max_idx: usize = lo;
    let mut have: bool = false;
    let mut k: usize = lo + 1;
    while k < hi
        invariant
            lo < hi < points@.len(),
            lo + 1 <= k <= hi,
            have ==> lo < max_idx < hi,
            !have ==> max_idx == lo,
            forall|i: int| 0 <= i < points@.len() ==> (#[trigger] points@[i]).wf(),
        decreases hi - k,
    {
        if !have {
            max_idx = k;
            have = true;
        } else {
            // Compare the cross measures of k and max_idx against the
            // same chord: larger cross squared means farther.
            let a = points[lo];
            let b = points[hi];
            let ck = cross_measure(points[k], a, b);
            let cm = cross_measure(points[max_idx], a, b);
            if ck > cm {
                max_idx = k;
            }
        }
        k = k + 1;
    }
    if have && farther_than(points[max_idx], first, last, tol) {
        let left = simplify_range(points, lo, max_idx, tol);
        let right = simplify_range(points, max_idx, hi, tol);
        let ghost left0 = left@;
        let ghost right0 = right@;
        let mut out = left;
        // Drop the duplicated junction point.
        let mut j: usize = 1;
        while j < right.len()
            invariant
                1 <= j <= right@.len(),
                right@ == right0,
                right@.len() >= 2,
                out@ == left0 + right0.subrange(1, j as int),
                out@.len() == left0.len() + j - 1,
                out@.len() >= 2,
                out@[0] == points@[lo as int],
                out@[out@.len() - 1] == right@[j - 1],
                forall|i: int| 0 <= i < out@.len() ==> (#[trigger] out@[i]).wf(),
                forall|i: int| 0 <= i < right@.len() ==> (#[trigger] right@[i]).wf(),
                left0.len() <= max_idx - lo + 1,
                right@.len() <= hi - max_idx + 1,
                right@[right@.len() - 1] == points@[hi as int],
            decreases right@.len() - j,
    {
            proof {
                assert(out@ =~= left0 + right0.subrange(1, j as int));
                assert((left0 + right0.subrange(1, j as int)).push(right0[j as int]) =~= left0
                    + right0.subrange(1, j as int + 1));
            }
            out.push(right[j]);
            j = j + 1;
        }
        proof {
            assert(out@ =~= left0 + right0.subrange(1, right0.len() as int));
            let il = choose|il: Seq<int>|
                spec_subsequence_of(left0, points@, il) && #[trigger] il[0] == lo && il[il.len()
                    - 1] == max_idx;
            let ir = choose|ir: Seq<int>|
                spec_subsequence_of(right0, points@, ir) && #[trigger] ir[0] == max_idx
                    && ir[ir.len() - 1] == hi;
            let idx = il + ir.subrange(1, ir.len() as int);
            assert forall|k: int| 0 < k < idx.len() implies #[trigger] idx[k] > idx[k - 1] by {
                if k < il.len() {
                    assert(idx[k] == il[k] && idx[k - 1] == il[k - 1]);
                } else if k == il.len() {
                    assert(idx[k] == ir[1] && idx[k - 1] == il[il.len() - 1]);
                    assert(ir[1] > ir[0]);
                } else {
                    assert(idx[k] == ir[k - il.len() + 1] && idx[k - 1] == ir[k - il.len()]);
                }
            }
            assert forall|k: int| 0 <= k < idx.len() implies #[trigger] out@[k] == points@[idx[k]] by {
                if k < il.len() {
                    assert(out@[k] == left0[k]);
                } else {
                    assert(out@[k] == right0[k - il.len() + 1]);
                    assert(idx[k] == ir[k - il.len() + 1]);
                }
            }
            assert(spec_subsequence_of(out@, points@, idx) && idx[0] == lo && idx[idx.len() - 1]
                == hi);
        }
        out
    } else {
        let mut out: Vec<GlobePoint> = Vec::new();
        out.push(first);
        out.push(last);
        proof {
            let idx = seq![lo as int, hi as int];
            assert(out@[0] == points@[lo as int]);
            assert(out@[1] == points@[hi as int]);
            assert(spec_subsequence_of(out@, points@, idx) && idx[0] == lo && idx[idx.len() - 1]
                == hi);
        }
        out
    }
}

/// Squared-cross-product measure used to pick the farthest point.
fn cross_measure(p: GlobePoint, a: GlobePoint, b: GlobePoint) -> (r: i128)
    requires
        p.wf(),
        a.wf(),
        b.wf(),
{
    let dx: i128 = (b.lat_udeg - a.lat_udeg) as i128;
    let dy: i128 = (b.lng_udeg - a.lng_udeg) as i128;
    let c1 = mulb(dy, 720_000_000, p.lat_udeg as i128, 90_000_000);
    let c2 = mulb(dx, 180_000_000, p.lng_udeg as i128, 180_000_000);
    let c3 = mulb(b.lat_udeg as i128, 90_000_000, a.lng_udeg as i128, 180_000_000);
    let c4 = mulb(b.lng_udeg as i128, 180_000_000, a.lat_udeg as i128, 90_000_000);
    let cross: i128 = c1 - c2 + c3 - c4;
    if cross >= 0 {
        cross
    } else {
        -cross
    }
}

/// Simplify a polyline by the Douglas-Peucker criterion with a tolerance
/// in micro-degrees.  The output never has more points than the input, and
/// the first and last points are kept exactly.
pub fn simplify_polyline(points: &Vec<GlobePoint>, tolerance_udeg: i64) -> (r: Vec<GlobePoint>)
    requires
        0 <= tolerance_udeg <= 360_000_000,
        forall|i: int| 0 <= i < points@.len() ==> (#[trigger] points@[i]).wf(),
    ensures
        r@.len() <= points@.len(),
        points@.len() >= 1 ==> r@.len() >= 1 && r@[0] == points@[0] && r@[r@.len() - 1]
            == points@[points@.len() - 1],
        points@.len() <= 2 ==> r@ == points@,
        exists|idx: Seq<int>| #[trigger] spec_subsequence_of(r@, points@, idx),
        forall|i: int| 0 <= i < r@.len() ==> (#[trigger] r@[i]).wf(),
{
    if points.len() <= 2 {
        let mut out: Vec<GlobePoint> = Vec::new();
        let mut i: usize = 0;
        while i < points.len()
            invariant
                i <= points@.len(),
                out@.len() == i,
                forall|j: int| 0 <= j < points@.len() ==> (#[trigger] points@[j]).wf(),
                forall|j: int| 0 <= j < i ==> out@[j] == points@[j],
            decreases points@.len() - i,
        {
            out.push(points[i]);
            i = i + 1;
        }
        proof {
            assert(out@ =~= points@);
            let idx = Seq::new(out@.len(), |k: int| k);
            assert(spec_subsequence_of(out@, points@, idx));
        }
        return out;
    }
    simplify_range(points, 0, points.len() - 1, tolerance_udeg)
}

/// A rectangular grid of sample points at a resolution, spanning latitudes
/// minus sixty to plus seventy degrees (the populated band) and all
/// longitudes.
pub fn generate_grid(resolution_udeg: i64) -> (r: Vec<GlobePoint>)
    requires
        100_000 <= resolution_udeg <= 360_000_000,
    ensures
        forall|i: int| 0 <= i < r@.len() ==> (#[trigger] r@[i]).wf(),
        r@.len() > 0,
{
    let mut points: Vec<GlobePoint> = Vec::new();
    let mut lat: i64 = -60_000_000;
    while lat <= 70_000_000
        invariant
            -60_000_000 <= lat <= 70_000_000 + resolution_udeg,
            100_000 <= resolution_udeg <= 360_000_000,
            lat > -60_000_000 ==> points@.len() > 0,
            forall|i: int| 0 <= i < points@.len() ==> (#[trigger] points@[i]).wf(),
        decreases 70_000_000 - lat + resolution_udeg,
    {
        let mut lon: i64 = -180_000_000;
        while lon < 180_000_000
            invariant
                -180_000_000 <= lon <= 180_000_000 + resolution_udeg,
                100_000 <= resolution_udeg <= 360_000_000,
                -60_000_000 <= lat <= 70_000_000,
                lon > -180_000_000 ==> points@.len() > 0,
                forall|i: int| 0 <= i < points@.len() ==> (#[trigger] points@[i]).wf(),
            decreases 180_000_000 - lon + resolution_udeg,
        {
            let lon_point: i64 = if lon == -180_000_000 {
                180_000_000
            } else {
                lon
            };
            points.push(GlobePoint { lat_udeg: lat, lng_udeg: lon_point });
            lon = lon + resolution_udeg;
        }
        lat = lat + resolution_udeg;
    }
    points
}

/// The five-degree coarse scouting grid.
pub fn generate_coarse_grid() -> (r: Vec<GlobePoint>)
    ensures
        forall|i: int| 0 <= i < r@.len() ==> (#[trigger] r@[i]).wf(),
        r@.len() > 0,
{
    generate_grid(5_000_000)
}

/// A one-degree grid over the squares around hot zones.
pub fn generate_regional_grid(hot_zones: &Vec<(i64, i64, i64)>) -> (r: Vec<GlobePoint>)
    requires
        forall|i: int|
            0 <= i < hot_zones@.len() ==> -90_000_000 <= (#[trigger] hot_zones@[i]).0
                <= 90_000_000 && -180_000_000 <= hot_zones@[i].1 <= 180_000_000 && 0
                <= hot_zones@[i].2 <= 10_000_000,
    ensures
        forall|i: int| 0 <= i < r@.len() ==> (#[trigger] r@[i]).wf(),
        hot_zones@.len() > 0 ==> r@.len() > 0,
{
    grid_around_zones(hot_zones, 1_000_000)
}

/// A quarter-degree grid over the squares around the best zones.
pub fn generate_fine_grid(top_zones: &Vec<(i64, i64, i64)>) -> (r: Vec<GlobePoint>)
    requires
        forall|i: int|
            0 <= i < top_zones@.len() ==> -90_000_000 <= (#[trigger] top_zones@[i]).0
                <= 90_000_000 && -180_000_000 <= top_zones@[i].1 <= 180_000_000 && 0
                <= top_zones@[i].2 <= 10_000_000,
    ensures
        forall|i: int| 0 <= i < r@.len() ==> (#[trigger] r@[i]).wf(),
        top_zones@.len() > 0 ==> r@.len() > 0,
{
    grid_around_zones(top_zones, 250_000)
}

/// Sample the square around each zone centre at the given step.
fn grid_around_zones(zones: &Vec<(i64, i64, i64)>, step_udeg: i64) -> (r: Vec<GlobePoint>)
    requires
        100_000 <= step_udeg <= 10_000_000,
        forall|i: int|
            0 <= i < zones@.len() ==> -90_000_000 <= (#[trigger] zones@[i]).0 <= 90_000_000
                && -180_000_000 <= zones@[i].1 <= 180_000_000 && 0 <= zones@[i].2 <= 10_000_000,
    ensures
        forall|i: int| 0 <= i < r@.len() ==> (#[trigger] r@[i]).wf(),
        zones@.len() > 0 ==> r@.len() > 0,
{
    let mut points: Vec<GlobePoint> = Vec::new();
    let mut z: usize = 0;
    while z < zones.len()
        invariant
            z <= zones@.len(),
            z > 0 ==> points@.len() > 0,
            100_000 <= step_udeg <= 10_000_000,
            forall|i: int|
                0 <= i < zones@.len() ==> -90_000_000 <= (#[trigger] zones@[i]).0 <= 90_000_000
                    && -180_000_000 <= zones@[i].1 <= 180_000_000 && 0 <= zones@[i].2
                    <= 10_000_000,
            forall|i: int| 0 <= i < points@.len() ==> (#[trigger] points@[i]).wf(),
        decreases zones@.len() - z,
    {
        let zone = zones[z];
        let center_lat = zone.0;
        let center_lon = zone.1;
        let radius = zone.2;
        let mut lat = center_lat - radius;
        while lat <= center_lat + radius
            invariant
                center_lat - radius <= lat <= center_lat + radius + step_udeg,
                -90_000_000 <= center_lat <= 90_000_000,
                -180_000_000 <= center_lon <= 180_000_000,
                0 <= radius <= 10_000_000,
                100_000 <= step_udeg <= 10_000_000,
                lat > center_lat - radius ==> points@.len() > 0,
                forall|i: int| 0 <= i < points@.len() ==> (#[trigger] points@[i]).wf(),
            decreases center_lat + radius - lat + step_udeg,
        {
            let mut lon = center_lon - radius;
            while lon <= center_lon + radius
                invariant
                    center_lon - radius <= lon <= center_lon + radius + step_udeg,
                    -90_000_000 <= center_lat <= 90_000_000,
                    -180_000_000 <= center_lon <= 180_000_000,
                    center_lat - radius <= lat <= center_lat + radius,
                    0 <= radius <= 10_000_000,
                    100_000 <= step_udeg <= 10_000_000,
                    lon > center_lon - radius ==> points@.len() > 0,
                    forall|i: int| 0 <= i < points@.len() ==> (#[trigger] points@[i]).wf(),
                decreases center_lon + radius - lon + step_udeg,
            {
                let norm_lon: i64 = if lon <= -180_000_000 {
                    lon + 360_000_000
                } else if lon > 180_000_000 {
                    lon - 360_000_000
                } else {
                    lon
                };
                let lat_clamped: i64 = if lat > 90_000_000 {
                    90_000_000
                } else if lat < -90_000_000 {
                    -90_000_000
                } else {
                    lat
                };
                points.push(GlobePoint { lat_udeg: lat_clamped, lng_udeg: norm_lon });
                lon = lon + step_udeg;
            }
            lat = lat + step_udeg;
        }
        z = z + 1;
    }
    points
}

} // verus!
