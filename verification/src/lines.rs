//! Line geometry: for a body's equatorial position and the sidereal time,
//! the meridian (MC/IC) longitudes, the horizon (ASC/DSC) polylines with
//! their degeneracy handling, the zenith point, zodiac-aspect lines and
//! paran latitudes.

use vstd::prelude::*;
use crate::angle;
use crate::ephemeris::{Planet, PlanetaryPosition};
use crate::frames;
use crate::trig;

verus! {

/// The four angles a body can stand on.
#[derive(Clone, Copy, Debug, PartialEq, Eq, Structural)]
pub enum LineType {
    MC,
    IC,
    ASC,
    DSC,
}

/// A point on the world map, micro-degrees.
#[derive(Clone, Copy, Debug, PartialEq, Eq, Structural)]
pub struct GlobePoint {
    pub lat_udeg: i64,
    pub lng_udeg: i64,
}

impl GlobePoint {
    /// Latitude within the poles, longitude in the signed normal form.
    pub open spec fn wf(self) -> bool {
        &&& -90_000_000 <= self.lat_udeg <= 90_000_000
        &&& -180_000_000 < self.lng_udeg <= 180_000_000
    }

    /// Make a point.
    pub fn new(lat_udeg: i64, lng_udeg: i64) -> (r: GlobePoint)
        ensures
            r.lat_udeg == lat_udeg,
            r.lng_udeg == lng_udeg,
    {
        GlobePoint { lat_udeg, lng_udeg }
    }
}

/// Signed longitude at which a body with right ascension `ra` culminates.
pub fn calculate_mc_longitude(ra_udeg: i64, gmst_udeg: i64) -> (r: i64)
    requires
        0 <= ra_udeg < angle::TURN,
        0 <= gmst_udeg < angle::TURN,
    ensures
        r == angle::norm_signed(ra_udeg - gmst_udeg),
        -angle::HALF_TURN < r <= angle::HALF_TURN,
{
    angle::normalize_signed_deg(ra_udeg - gmst_udeg)
}

/// Signed longitude of the anti-culmination meridian.
pub fn calculate_ic_longitude(ra_udeg: i64, gmst_udeg: i64) -> (r: i64)
    requires
        0 <= ra_udeg < angle::TURN,
        0 <= gmst_udeg < angle::TURN,
    ensures
        r == angle::norm_signed(ra_udeg + angle::HALF_TURN - gmst_udeg),
        -angle::HALF_TURN < r <= angle::HALF_TURN,
{
    angle::normalize_signed_deg(ra_udeg + angle::HALF_TURN - gmst_udeg)
}

/// The MC and IC meridians of one body stand exactly half a turn apart:
/// their difference is 180 degrees modulo 360, for every right ascension
/// and every sidereal time.
pub proof fn lemma_mc_ic_opposite(ra: int, gmst: int)
    ensures
        angle::norm_360(
            angle::norm_signed(ra - gmst) - angle::norm_signed(ra + 180_000_000 - gmst),
        ) == 180_000_000,
{
    let x = ra - gmst;
    let y = ra + 180_000_000 - gmst;
    let nx = angle::norm_360(x);
    let ny = angle::norm_360(y);
    let sx = angle::norm_signed(x);
    let sy = angle::norm_signed(y);
    vstd::arithmetic::div_mod::lemma_fundamental_div_mod(x, 360_000_000);
    vstd::arithmetic::div_mod::lemma_fundamental_div_mod(y, 360_000_000);
    let qx = x / 360_000_000;
    let qy = y / 360_000_000;
    // sx - sy differs from x - y == -180_000_000 by a multiple of a turn.
    let ka: int = if nx > 180_000_000 { 1 } else { 0 };
    let kb: int = if ny > 180_000_000 { 1 } else { 0 };
    assert(sx == x - 360_000_000 * qx - 360_000_000 * ka);
    assert(sy == y - 360_000_000 * qy - 360_000_000 * kb);
    assert(sx - sy == -180_000_000 + (qy - qx + kb - ka) * 360_000_000) by (nonlinear_arith)
        requires
            sx == x - 360_000_000 * qx - 360_000_000 * ka,
            sy == y - 360_000_000 * qy - 360_000_000 * kb,
            y == x + 180_000_000;
    angle::lemma_norm_360_add_turn(-180_000_000, qy - qx + kb - ka);
    assert(angle::norm_360(-180_000_000) == 180_000_000) by (nonlinear_arith);
}

/// Zenith point of a body: the latitude equals its declination and the
/// longitude its MC meridian.
pub fn calculate_zenith_point(position: &PlanetaryPosition, gmst_udeg: i64) -> (r: GlobePoint)
    requires
        position.wf(),
        0 <= gmst_udeg < angle::TURN,
    ensures
        r.wf(),
        r.lat_udeg == position.declination_udeg,
        r.lng_udeg == angle::norm_signed(position.right_ascension_udeg - gmst_udeg),
{
    let lng = calculate_mc_longitude(position.right_ascension_udeg, gmst_udeg);
    GlobePoint { lat_udeg: position.declination_udeg, lng_udeg: lng }
}

/// Angular separation of two equatorial positions on the celestial
/// sphere, micro-degrees in `[0, 180]` degrees.
pub fn angular_separation(ra1_udeg: i64, dec1_udeg: i64, ra2_udeg: i64, dec2_udeg: i64) -> (r: i64)
    requires
        -90_000_000 <= dec1_udeg <= 90_000_000,
        -90_000_000 <= dec2_udeg <= 90_000_000,
        -360_000_000 <= ra1_udeg <= 360_000_000,
        -360_000_000 <= ra2_udeg <= 360_000_000,
    ensures
        0 <= r <= 180_000_000,
{
    let qb: i128 = 1_000_000_000_000;
    let s1 = trig::sin_q(dec1_udeg) as i128;
    let s2 = trig::sin_q(dec2_udeg) as i128;
    let c1 = trig::cos_q(dec1_udeg) as i128;
    let c2 = trig::cos_q(dec2_udeg) as i128;
    let cd = trig::cos_q(ra1_udeg - ra2_udeg) as i128;
    let cos_sep: i128 = crate::fixmath::qmulb(s1, qb, s2, qb)
        + crate::fixmath::qmulb(crate::fixmath::qmulb(c1, qb, c2, qb), qb, cd, qb);
    let clamped: i64 = if cos_sep > 1_000_000_000_000 {
        1_000_000_000_000
    } else if cos_sep < -1_000_000_000_000 {
        -1_000_000_000_000
    } else {
        cos_sep as i64
    };
    trig::acos_unit(clamped)
}

/// Local hour angle of a body seen from a longitude, in the signed form.
pub open spec fn spec_hour_angle(gmst: int, lon: int, ra: int) -> int {
    angle::norm_signed(gmst + lon - ra)
}

/// The degenerate horizon condition: the body stands on the celestial
/// equator (sine of declination below 10^-9) and the hour angle is a
/// quarter turn (cosine below 10^-9), so every latitude of this meridian
/// lies on the horizon.
pub open spec fn spec_all_latitudes_horizon(ra: int, dec: int, gmst: int, lon: int) -> bool {
    let sd = trig::spec_sin_q(dec);
    let ch = trig::spec_cos_q(spec_hour_angle(gmst, lon, ra));
    -1000 < sd < 1000 && -1000 < ch < 1000
}

/// Whether every latitude of the meridian at `lon` lies on the body's
/// horizon line (the fully degenerate equatorial case).
pub fn is_all_latitudes_horizon(ra_udeg: i64, dec_udeg: i64, gmst_udeg: i64, lon_udeg: i64) -> (r: bool)
    requires
        0 <= ra_udeg < angle::TURN,
        -90_000_000 <= dec_udeg <= 90_000_000,
        0 <= gmst_udeg < angle::TURN,
        -180_000_000 <= lon_udeg <= 180_000_000,
    ensures
        r == spec_all_latitudes_horizon(ra_udeg as int, dec_udeg as int, gmst_udeg as int, lon_udeg as int),
{
    let h = angle::normalize_signed_deg(gmst_udeg + lon_udeg - ra_udeg);
    let sd = trig::sin_q(dec_udeg);
    let ch = trig::cos_q(h);
    -1000 < sd && sd < 1000 && -1000 < ch && ch < 1000
}

/// Whether a longitude lies on the rising (ASC) side for the body.
pub fn is_rising(ra_udeg: i64, gmst_udeg: i64, lon_udeg: i64) -> (r: bool)
    requires
        0 <= ra_udeg < angle::TURN,
        0 <= gmst_udeg < angle::TURN,
        -180_000_000 <= lon_udeg <= 180_000_000,
    ensures
        r == (trig::spec_sin_q(spec_hour_angle(gmst_udeg as int, lon_udeg as int, ra_udeg as int)) < 0),
{
    let h = angle::normalize_signed_deg(gmst_udeg + lon_udeg - ra_udeg);
    trig::sin_q(h) < 0
}


/// Exact model of the single horizon latitude: the arc tangent of
/// `-cos(dec) cos(H) / sin(dec)` with the sign split on the denominator.
pub open spec fn spec_horizon_latitude(ra: int, dec: int, gmst: int, lon: int) -> int {
    let h = spec_hour_angle(gmst, lon, ra);
    let sin_d = trig::spec_sin_q(dec);
    let cos_d = trig::spec_cos_q(dec);
    let cos_h = trig::spec_cos_q(h);
    let num = -((cos_d * cos_h) / 1_000_000_000_000);
    if sin_d > 0 {
        trig::spec_atan_ratio(num, sin_d)
    } else {
        trig::spec_atan_ratio(-num, -sin_d)
    }
}

/// Exact model of the horizon longitude-at-latitude solution: `None` at
/// the pole guard and where `|cos H|` would exceed one, the wrapped
/// `ra + H - gmst` otherwise, with the rising side taking the negative
/// hour angle.
pub open spec fn spec_horizon_longitude(ra: int, dec: int, gmst: int, lat: int, to_dsc: bool) -> Option<int> {
    let sin_lat = trig::spec_sin_q(lat);
    let cos_lat = trig::spec_cos_q(lat);
    let sin_dec = trig::spec_sin_q(dec);
    let cos_dec = trig::spec_cos_q(dec);
    if cos_lat < 15_000_000_000 || cos_dec < 15_000_000_000 {
        None
    } else {
        let num = sin_lat * sin_dec;
        let den = cos_lat * cos_dec;
        let neg_num = -num;
        let abs_num = if neg_num >= 0 {
            neg_num
        } else {
            -neg_num
        };
        if abs_num > den {
            None
        } else {
            let cos_h = crate::fixmath::spec_divv(neg_num * 1_000_000_000_000, den);
            let cos_h_clamped = if cos_h > 1_000_000_000_000 {
                1_000_000_000_000int
            } else if cos_h < -1_000_000_000_000 {
                -1_000_000_000_000int
            } else {
                cos_h
            };
            let h_mag = trig::spec_acos(cos_h_clamped);
            let h = if to_dsc {
                h_mag
            } else {
                -h_mag
            };
            Some(angle::norm_signed(ra + h - gmst))
        }
    }
}

/// An optional angle narrowed to the machine word.
pub open spec fn spec_opt_i64(o: Option<int>) -> Option<i64> {
    match o {
        None => None,
        Some(v) => Some(v as i64),
    }
}

/// Geographic latitude at which the body crosses the horizon on the
/// meridian at `lon`, when a single such latitude exists.
///
/// For an equatorial body (sine of declination below 10^-9) there is no
/// single solution: either the degenerate condition holds and every
/// latitude qualifies, or none does; both come back `None`, and
/// `is_all_latitudes_horizon` tells them apart.
pub fn calculate_horizon_latitude(ra_udeg: i64, dec_udeg: i64, gmst_udeg: i64, lon_udeg: i64) -> (r: Option<i64>)
    requires
        0 <= ra_udeg < angle::TURN,
        -90_000_000 <= dec_udeg <= 90_000_000,
        0 <= gmst_udeg < angle::TURN,
        -180_000_000 <= lon_udeg <= 180_000_000,
    ensures
        r is Some <==> (trig::spec_sin_q(dec_udeg as int) <= -1000 || trig::spec_sin_q(dec_udeg as int) >= 1000),
        spec_all_latitudes_horizon(ra_udeg as int, dec_udeg as int, gmst_udeg as int, lon_udeg as int) ==> r is None,
        r matches Some(lat) ==> lat == spec_horizon_latitude(
            ra_udeg as int,
            dec_udeg as int,
            gmst_udeg as int,
            lon_udeg as int,
        ) && -90_000_000 <= lat <= 90_000_000,
{
    let h = angle::normalize_signed_deg(gmst_udeg + lon_udeg - ra_udeg);
    let sin_d = trig::sin_q(dec_udeg);
    let cos_d = trig::cos_q(dec_udeg);
    let cos_h = trig::cos_q(h);
    if -1000 < sin_d && sin_d < 1000 {
        return None;
    }
    // tan(phi) = -cos(dec) cos(h) / sin(dec); the arc tangent keeps the
    // result within the poles.
    let num128: i128 = -crate::fixmath::qmulb(
        cos_d as i128,
        1_000_000_000_000,
        cos_h as i128,
        1_000_000_000_000,
    );
    let num: i64 = num128 as i64;
    let lat = if sin_d > 0 {
        trig::atan_ratio(num, sin_d)
    } else {
        trig::atan_ratio(-num, -sin_d)
    };
    Some(lat)
}

/// Longitude at which a body stands on a chosen angle at a given latitude.
/// Meridian angles do not depend on the latitude; horizon angles solve
/// `cos H = -tan(lat) tan(dec)` and give `None` where the body is
/// circumpolar or never rises (or the latitude is within a degree of a
/// pole, where the tangent degenerates).
pub fn get_longitude_for_angle_at_latitude(
    ra_udeg: i64,
    dec_udeg: i64,
    gmst_udeg: i64,
    lat_udeg: i64,
    line_type: LineType,
) -> (r: Option<i64>)
    requires
        0 <= ra_udeg < angle::TURN,
        -90_000_000 <= dec_udeg <= 90_000_000,
        0 <= gmst_udeg < angle::TURN,
        -90_000_000 <= lat_udeg <= 90_000_000,
    ensures
        r matches Some(lng) ==> -180_000_000 < lng <= 180_000_000,
        line_type == LineType::MC ==> r == Some((angle::norm_signed(ra_udeg - gmst_udeg)) as i64),
        line_type == LineType::IC ==> r == Some((angle::norm_signed(ra_udeg + 180_000_000 - gmst_udeg)) as i64),
        line_type == LineType::ASC ==> r == spec_opt_i64(
            spec_horizon_longitude(ra_udeg as int, dec_udeg as int, gmst_udeg as int, lat_udeg as int, false),
        ),
        line_type == LineType::DSC ==> r == spec_opt_i64(
            spec_horizon_longitude(ra_udeg as int, dec_udeg as int, gmst_udeg as int, lat_udeg as int, true),
        ),
{
    match line_type {
        LineType::MC => Some(calculate_mc_longitude(ra_udeg, gmst_udeg)),
        LineType::IC => Some(calculate_ic_longitude(ra_udeg, gmst_udeg)),
        _ => {
            let sin_lat = trig::sin_q(lat_udeg) as i128;
            let cos_lat = trig::cos_q(lat_udeg) as i128;
            let sin_dec = trig::sin_q(dec_udeg) as i128;
            let cos_dec = trig::cos_q(dec_udeg) as i128;
            // Guard the tangent: near the poles there is no solution.
            if cos_lat < 15_000_000_000 || cos_dec < 15_000_000_000 {
                return None;
            }
            // cos H = -tan(lat) tan(dec) = -(sin_lat sin_dec)/(cos_lat cos_dec).
            let num: i128 = crate::fixmath::mulb(sin_lat, 1_000_000_000_000, sin_dec, 1_000_000_000_000);
            let den: i128 = crate::fixmath::mulb(cos_lat, 1_000_000_000_000, cos_dec, 1_000_000_000_000);
            proof {
                assert(den >= 225_000_000_000_000_000_000) by (nonlinear_arith)
                    requires
                        den == cos_lat * cos_dec,
                        cos_lat >= 15_000_000_000,
                        cos_dec >= 15_000_000_000;
            }
            let neg_num = -num;
            let abs_num: i128 = if neg_num >= 0 {
                neg_num
            } else {
                -neg_num
            };
            if abs_num > den {
                // |cos H| would exceed one: circumpolar or never rising.
                return None;
            }
            // cos H in Q units.
            let cos_h: i128 = crate::fixmath::divv(
                crate::fixmath::mulb(neg_num, 1_000_000_000_000_000_000_000_000, 1_000_000_000_000, 1_000_000_000_000),
                1_000_000_000_000_000_000_000_000_000_000_000_000,
                den,
                225_000_000_000_000_000_000,
            );
            let cos_h_clamped: i64 = if cos_h > 1_000_000_000_000 {
                1_000_000_000_000
            } else if cos_h < -1_000_000_000_000 {
                -1_000_000_000_000
            } else {
                cos_h as i64
            };
            let h_mag = trig::acos_unit(cos_h_clamped);
            let h: i64 = match line_type {
                LineType::ASC => -h_mag,
                _ => h_mag,
            };
            Some(angle::normalize_signed_deg(ra_udeg + h - gmst_udeg))
        },
    }
}

/// All four line polylines of one body, with its position and zenith point.
pub struct PlanetLines {
    pub position: PlanetaryPosition,
    pub mc_longitude_udeg: i64,
    pub ic_longitude_udeg: i64,
    pub mc_points: Vec<GlobePoint>,
    pub ic_points: Vec<GlobePoint>,
    pub asc_points: Vec<GlobePoint>,
    pub dsc_points: Vec<GlobePoint>,
    pub zenith: GlobePoint,
}

impl PlanetLines {
    /// Every published point is a valid map point, and the meridian
    /// longitudes are the exact wrapped differences of right ascension and
    /// sidereal time.
    pub open spec fn wf(self) -> bool {
        &&& self.position.wf()
        &&& -180_000_000 < self.mc_longitude_udeg <= 180_000_000
        &&& -180_000_000 < self.ic_longitude_udeg <= 180_000_000
        &&& forall|i: int| 0 <= i < self.mc_points@.len() ==> (#[trigger] self.mc_points@[i]).wf()
        &&& forall|i: int| 0 <= i < self.ic_points@.len() ==> (#[trigger] self.ic_points@[i]).wf()
        &&& forall|i: int| 0 <= i < self.asc_points@.len() ==> (#[trigger] self.asc_points@[i]).wf()
        &&& forall|i: int| 0 <= i < self.dsc_points@.len() ==> (#[trigger] self.dsc_points@[i]).wf()
        &&& self.zenith.wf()
    }
}

/// The sampled vertical meridian at a longitude: ninety points from
/// latitude -89 to +89 in two-degree steps.
pub open spec fn spec_meridian_seq(lng: int) -> Seq<GlobePoint> {
    Seq::new(
        90,
        |i: int| GlobePoint { lat_udeg: (-89_000_000 + 2_000_000 * i) as i64, lng_udeg: lng as i64 },
    )
}

/// Sample a vertical meridian from latitude -89 to +89 in two-degree steps.
fn meridian_points(lng_udeg: i64) -> (r: Vec<GlobePoint>)
    requires
        -180_000_000 < lng_udeg <= 180_000_000,
    ensures
        r@ == spec_meridian_seq(lng_udeg as int),
        r@.len() == 90,
        forall|i: int| 0 <= i < r@.len() ==> (#[trigger] r@[i]).wf(),
        forall|i: int| 0 <= i < r@.len() ==> (#[trigger] r@[i]).lng_udeg == lng_udeg,
        forall|i: int| 0 <= i < r@.len() ==> (#[trigger] r@[i]).lat_udeg == -89_000_000 + 2_000_000 * i,
{
    let mut pts: Vec<GlobePoint> = Vec::new();
    let mut k: i64 = 0;
    while k < 90
        invariant
            0 <= k <= 90,
            pts@.len() == k,
            -180_000_000 < lng_udeg <= 180_000_000,
            forall|i: int| 0 <= i < pts@.len() ==> (#[trigger] pts@[i]).wf(),
            forall|i: int| 0 <= i < pts@.len() ==> (#[trigger] pts@[i]).lng_udeg == lng_udeg,
            forall|i: int| 0 <= i < pts@.len() ==> (#[trigger] pts@[i]).lat_udeg == -89_000_000 + 2_000_000 * i,
        decreases 90 - k,
    {
        pts.push(GlobePoint { lat_udeg: -89_000_000 + 2_000_000 * k, lng_udeg });
        k = k + 1;
    }
    proof {
        assert(pts@ =~= spec_meridian_seq(lng_udeg as int));
    }
    pts
}

/// One scan stop of the horizon polyline: the full vertical segment in the
/// degenerate equatorial case, the single horizon-latitude point where one
/// exists, nothing where the side does not match or no solution exists.
pub open spec fn spec_horizon_step(
    ra: int,
    dec: int,
    gmst: int,
    lng: int,
    want_rising: bool,
) -> Seq<GlobePoint> {
    let lng_point = if lng == -180_000_000 {
        180_000_000int
    } else {
        lng
    };
    let rising = trig::spec_sin_q(spec_hour_angle(gmst, lng, ra)) < 0;
    if spec_all_latitudes_horizon(ra, dec, gmst, lng) {
        if rising == want_rising {
            spec_meridian_seq(lng_point)
        } else {
            Seq::empty()
        }
    } else if -1000 < trig::spec_sin_q(dec) < 1000 {
        Seq::empty()
    } else if rising == want_rising {
        seq![
            GlobePoint {
                lat_udeg: (spec_horizon_latitude(ra, dec, gmst, lng)) as i64,
                lng_udeg: lng_point as i64,
            },
        ]
    } else {
        Seq::empty()
    }
}

/// The horizon polyline from a scan position onward: one step at each
/// longitude from `lng` to 180 degrees in `step`-sized strides.
pub open spec fn spec_horizon_scan_from(
    ra: int,
    dec: int,
    gmst: int,
    step: int,
    want_rising: bool,
    lng: int,
) -> Seq<GlobePoint>
    decreases (if lng > 180_000_000 { 0int } else { 180_000_001 - lng }) when step >= 1
{
    if lng > 180_000_000 {
        Seq::empty()
    } else {
        spec_horizon_step(ra, dec, gmst, lng, want_rising) + spec_horizon_scan_from(
            ra,
            dec,
            gmst,
            step,
            want_rising,
            lng + step,
        )
    }
}

/// Horizon polyline points of one side (rising when `want_rising`), scanned
/// across the longitudes with the given step; the degenerate equatorial
/// case contributes full vertical segments on its own side.
fn horizon_points(
    ra_udeg: i64,
    dec_udeg: i64,
    gmst_udeg: i64,
    step_udeg: i64,
    want_rising: bool,
) -> (r: Vec<GlobePoint>)
    requires
        0 <= ra_udeg < angle::TURN,
        -90_000_000 <= dec_udeg <= 90_000_000,
        0 <= gmst_udeg < angle::TURN,
        1000 <= step_udeg <= 360_000_000,
    ensures
        r@ == spec_horizon_scan_from(
            ra_udeg as int,
            dec_udeg as int,
            gmst_udeg as int,
            step_udeg as int,
            want_rising,
            -180_000_000,
        ),
        forall|i: int| 0 <= i < r@.len() ==> (#[trigger] r@[i]).wf(),
{
    let ghost whole = spec_horizon_scan_from(
        ra_udeg as int,
        dec_udeg as int,
        gmst_udeg as int,
        step_udeg as int,
        want_rising,
        -180_000_000,
    );
    let mut pts: Vec<GlobePoint> = Vec::new();
    let mut lng: i64 = -180_000_000;
    while lng <= 180_000_000
        invariant
            -180_000_000 <= lng <= 180_000_000 + step_udeg,
            1000 <= step_udeg <= 360_000_000,
            0 <= ra_udeg < angle::TURN,
            -90_000_000 <= dec_udeg <= 90_000_000,
            0 <= gmst_udeg < angle::TURN,
            whole == spec_horizon_scan_from(
                ra_udeg as int,
                dec_udeg as int,
                gmst_udeg as int,
                step_udeg as int,
                want_rising,
                -180_000_000,
            ),
            whole =~= pts@ + spec_horizon_scan_from(
                ra_udeg as int,
                dec_udeg as int,
                gmst_udeg as int,
                step_udeg as int,
                want_rising,
                lng as int,
            ),
            forall|i: int| 0 <= i < pts@.len() ==> (#[trigger] pts@[i]).wf(),
        decreases 180_000_000 - lng + step_udeg,
    {
        let ghost pre = pts@;
        let ghost here = spec_horizon_step(
            ra_udeg as int,
            dec_udeg as int,
            gmst_udeg as int,
            lng as int,
            want_rising,
        );
        let lng_point: i64 = if lng == -180_000_000 {
            180_000_000
        } else {
            lng
        };
        if is_all_latitudes_horizon(ra_udeg, dec_udeg, gmst_udeg, lng) {
            if is_rising(ra_udeg, gmst_udeg, lng) == want_rising {
                let seg = meridian_points(lng_point);
                proof {
                    assert(seg@ == here);
                }
                let mut k: usize = 0;
                while k < seg.len()
                    invariant
                        forall|i: int| 0 <= i < seg@.len() ==> (#[trigger] seg@[i]).wf(),
                        forall|i: int| 0 <= i < pts@.len() ==> (#[trigger] pts@[i]).wf(),
                        k <= seg@.len(),
                        pts@ == pre + seg@.take(k as int),
                    decreases seg@.len() - k,
                {
                    proof {
                        assert(seg@.take((k + 1) as int) =~= seg@.take(k as int).push(
                            seg@[k as int],
                        ));
                    }
                    pts.push(seg[k]);
                    k = k + 1;
                }
                proof {
                    assert(seg@.take(seg@.len() as int) =~= seg@);
                    assert(pts@ == pre + here);
                }
            } else {
                proof {
                    assert(pts@ =~= pre + here);
                }
            }
        } else {
            match calculate_horizon_latitude(ra_udeg, dec_udeg, gmst_udeg, lng) {
                Some(lat) => {
                    if is_rising(ra_udeg, gmst_udeg, lng) == want_rising {
                        pts.push(GlobePoint { lat_udeg: lat, lng_udeg: lng_point });
                        proof {
                            assert(pts@ =~= pre + here);
                        }
                    } else {
                        proof {
                            assert(pts@ =~= pre + here);
                        }
                    }
                },
                None => {
                    proof {
                        assert(pts@ =~= pre + here);
                    }
                },
            }
        }
        proof {
            assert(spec_horizon_scan_from(
                ra_udeg as int,
                dec_udeg as int,
                gmst_udeg as int,
                step_udeg as int,
                want_rising,
                lng as int,
            ) == here + spec_horizon_scan_from(
                ra_udeg as int,
                dec_udeg as int,
                gmst_udeg as int,
                step_udeg as int,
                want_rising,
                lng as int + step_udeg as int,
            ));
            assert(whole =~= pts@ + spec_horizon_scan_from(
                ra_udeg as int,
                dec_udeg as int,
                gmst_udeg as int,
                step_udeg as int,
                want_rising,
                lng as int + step_udeg as int,
            ));
        }
        lng = lng + step_udeg;
    }
    proof {
        assert(spec_horizon_scan_from(
            ra_udeg as int,
            dec_udeg as int,
            gmst_udeg as int,
            step_udeg as int,
            want_rising,
            lng as int,
        ) =~= Seq::<GlobePoint>::empty());
        assert(pts@ =~= whole);
    }
    pts
}

/// All lines of one body: the sampled MC and IC meridians, the two horizon
/// polylines with adaptive stepping near the celestial equator, and the
/// zenith point.
pub fn calculate_planet_lines(
    position: &PlanetaryPosition,
    gmst_udeg: i64,
    longitude_step_udeg: i64,
) -> (r: PlanetLines)
    requires
        position.wf(),
        0 <= gmst_udeg < angle::TURN,
        500_000 <= longitude_step_udeg <= 360_000_000,
    ensures
        r.wf(),
        r.position == *position,
        r.mc_longitude_udeg == angle::norm_signed(position.right_ascension_udeg - gmst_udeg),
        r.ic_longitude_udeg == angle::norm_signed(
            position.right_ascension_udeg + 180_000_000 - gmst_udeg,
        ),
        r.mc_points@.len() == 90,
        r.ic_points@.len() == 90,
        r.mc_points@ == spec_meridian_seq(
            angle::norm_signed(position.right_ascension_udeg - gmst_udeg),
        ),
        r.ic_points@ == spec_meridian_seq(
            angle::norm_signed(position.right_ascension_udeg + 180_000_000 - gmst_udeg),
        ),
        ({
            let ra = position.right_ascension_udeg as int;
            let dec = position.declination_udeg as int;
            let step: int = if -10_000_000 < dec < 10_000_000 {
                500_000int
            } else {
                longitude_step_udeg as int
            };
            &&& r.asc_points@ == spec_horizon_scan_from(
                ra,
                dec,
                gmst_udeg as int,
                step,
                true,
                -180_000_000,
            )
            &&& r.dsc_points@ == spec_horizon_scan_from(
                ra,
                dec,
                gmst_udeg as int,
                step,
                false,
                -180_000_000,
            )
        }),
        r.zenith.lat_udeg == position.declination_udeg,
        r.zenith.lng_udeg == angle::norm_signed(
            position.right_ascension_udeg - gmst_udeg,
        ),
{
    let ra = position.right_ascension_udeg;
    let dec = position.declination_udeg;
    let mc_longitude = calculate_mc_longitude(ra, gmst_udeg);
    let ic_longitude = calculate_ic_longitude(ra, gmst_udeg);
    let mc_points = meridian_points(mc_longitude);
    let ic_points = meridian_points(ic_longitude);
    let zenith = calculate_zenith_point(position, gmst_udeg);

    // Near the celestial equator the horizon curve bends fast: tighten the
    // sampling to half a degree.
    let abs_dec: i64 = if dec >= 0 {
        dec
    } else {
        -dec
    };
    let step = if abs_dec < 10_000_000 {
        500_000
    } else {
        longitude_step_udeg
    };
    let asc_points = horizon_points(ra, dec, gmst_udeg, step, true);
    let dsc_points = horizon_points(ra, dec, gmst_udeg, step, false);

    PlanetLines {
        position: *position,
        mc_longitude_udeg: mc_longitude,
        ic_longitude_udeg: ic_longitude,
        mc_points,
        ic_points,
        asc_points,
        dsc_points,
        zenith,
    }
}

/// The three zodiacal aspects used for aspect lines.
#[derive(Clone, Copy, Debug, PartialEq, Eq, Structural)]
pub enum AspectKind {
    Trine,
    Sextile,
    Square,
}

/// Aspect offset along the ecliptic, micro-degrees.
pub open spec fn spec_aspect_angle(kind: AspectKind) -> int {
    match kind {
        AspectKind::Trine => 120_000_000,
        AspectKind::Sextile => 60_000_000,
        AspectKind::Square => 90_000_000,
    }
}

/// Executable twin of `spec_aspect_angle`.
pub fn aspect_angle_udeg(kind: AspectKind) -> (r: i64)
    ensures
        r == spec_aspect_angle(kind),
{
    match kind {
        AspectKind::Trine => 120_000_000,
        AspectKind::Sextile => 60_000_000,
        AspectKind::Square => 90_000_000,
    }
}

/// Whether an aspect is traditionally harmonious: the square is not.
pub fn aspect_is_harmonious(kind: AspectKind) -> (r: bool)
    ensures
        r == (kind != AspectKind::Square),
{
    match kind {
        AspectKind::Square => false,
        _ => true,
    }
}

/// One zodiac-aspect line: a point a fixed arc along the ecliptic from the
/// body, taken to an angle.
pub struct AspectLine {
    pub planet: Planet,
    pub angle: LineType,
    pub aspect: AspectKind,
    pub direction_positive: bool,
    pub is_harmonious: bool,
    pub points: Vec<GlobePoint>,
    pub longitude_udeg: Option<i64>,
}

impl AspectLine {
    /// Points valid; the harmonious flag follows the aspect kind.
    pub open spec fn wf(self) -> bool {
        &&& forall|i: int| 0 <= i < self.points@.len() ==> (#[trigger] self.points@[i]).wf()
        &&& self.is_harmonious == (self.aspect != AspectKind::Square)
    }
}

/// Exact model of the zodiacal aspect point: the signed aspect arc added
/// to the body's ecliptic longitude, latitude taken as zero, turned into
/// equatorial coordinates.
pub open spec fn spec_shifted_equatorial(
    position: PlanetaryPosition,
    aspect: AspectKind,
    positive: bool,
    obliquity: int,
) -> (int, int) {
    let shift = if positive {
        spec_aspect_angle(aspect)
    } else {
        -spec_aspect_angle(aspect)
    };
    frames::spec_ecliptic_to_equatorial(
        angle::norm_360(position.ecliptic_longitude_udeg + shift),
        0,
        obliquity,
    )
}

/// Equatorial position of the point a signed aspect arc along the ecliptic
/// from the body.  The zodiacal convention: the shift is applied to the
/// ecliptic longitude and the latitude is taken as zero, whatever the
/// body's own latitude.
fn shifted_equatorial(
    position: &PlanetaryPosition,
    aspect: AspectKind,
    positive: bool,
    obliquity_udeg: i64,
) -> (r: (i64, i64))
    requires
        position.wf(),
    ensures
        r.0 == spec_shifted_equatorial(*position, aspect, positive, obliquity_udeg as int).0,
        r.1 == spec_shifted_equatorial(*position, aspect, positive, obliquity_udeg as int).1,
        0 <= r.0 < angle::TURN,
        -90_000_000 <= r.1 <= 90_000_000,
{
    let shift = aspect_angle_udeg(aspect);
    let signed_shift: i64 = if positive {
        shift
    } else {
        -shift
    };
    let shifted_lon = angle::normalize_deg(position.ecliptic_longitude_udeg + signed_shift);
    frames::ecliptic_to_equatorial(shifted_lon, 0, obliquity_udeg)
}

/// The culmination (or anti-culmination) longitude of the zodiacal aspect
/// point: its right ascension wrapped against sidereal time.
pub open spec fn spec_aspect_meridian_longitude(
    position: PlanetaryPosition,
    aspect: AspectKind,
    positive: bool,
    to_ic: bool,
    gmst: int,
    obliquity: int,
) -> int {
    let ra = spec_shifted_equatorial(position, aspect, positive, obliquity).0;
    if to_ic {
        angle::norm_signed(ra + 180_000_000 - gmst)
    } else {
        angle::norm_signed(ra - gmst)
    }
}

/// Aspect line to the MC or IC: a sampled vertical meridian at the shifted
/// point's culmination (or anti-culmination) longitude.
pub fn calculate_aspect_to_meridian(
    position: &PlanetaryPosition,
    aspect: AspectKind,
    positive: bool,
    to_ic: bool,
    gmst_udeg: i64,
    obliquity_udeg: i64,
) -> (r: AspectLine)
    requires
        position.wf(),
        0 <= gmst_udeg < angle::TURN,
    ensures
        r.wf(),
        r.planet == position.planet,
        r.aspect == aspect,
        r.direction_positive == positive,
        r.is_harmonious == (aspect != AspectKind::Square),
        r.angle == (if to_ic { LineType::IC } else { LineType::MC }),
        r.longitude_udeg == Some(
            (spec_aspect_meridian_longitude(
                *position,
                aspect,
                positive,
                to_ic,
                gmst_udeg as int,
                obliquity_udeg as int,
            )) as i64,
        ),
        r.points@ == spec_meridian_seq(
            spec_aspect_meridian_longitude(
                *position,
                aspect,
                positive,
                to_ic,
                gmst_udeg as int,
                obliquity_udeg as int,
            ),
        ),
{
    let (ra, _dec) = shifted_equatorial(position, aspect, positive, obliquity_udeg);
    let lng = if to_ic {
        calculate_ic_longitude(ra, gmst_udeg)
    } else {
        calculate_mc_longitude(ra, gmst_udeg)
    };
    let points = meridian_points(lng);
    AspectLine {
        planet: position.planet,
        angle: if to_ic {
            LineType::IC
        } else {
            LineType::MC
        },
        aspect,
        direction_positive: positive,
        is_harmonious: aspect_is_harmonious(aspect),
        points,
        longitude_udeg: Some(lng),
    }
}

/// Aspect line to the ASC or DSC: the horizon polyline of the shifted
/// point.  Comes back `None` when the scan finds no crossing at all.
pub fn calculate_aspect_to_horizon(
    position: &PlanetaryPosition,
    aspect: AspectKind,
    positive: bool,
    to_dsc: bool,
    gmst_udeg: i64,
    longitude_step_udeg: i64,
    obliquity_udeg: i64,
) -> (r: Option<AspectLine>)
    requires
        position.wf(),
        0 <= gmst_udeg < angle::TURN,
        500_000 <= longitude_step_udeg <= 360_000_000,
    ensures
        ({
            let ra = spec_shifted_equatorial(*position, aspect, positive, obliquity_udeg as int).0;
            let dec = spec_shifted_equatorial(*position, aspect, positive, obliquity_udeg as int).1;
            let scan = spec_horizon_scan_from(
                ra,
                dec,
                gmst_udeg as int,
                longitude_step_udeg as int,
                !to_dsc,
                -180_000_000,
            );
            &&& (r is Some <==> scan.len() > 0)
            &&& (r matches Some(line) ==> line.wf() && line.planet == position.planet
                && line.angle == (if to_dsc {
                    LineType::DSC
                } else {
                    LineType::ASC
                }) && line.aspect == aspect && line.direction_positive == positive
                && line.is_harmonious == (aspect != AspectKind::Square) && line.points@ == scan
                && line.longitude_udeg is None)
        }),
{
    let (ra, dec) = shifted_equatorial(position, aspect, positive, obliquity_udeg);
    let points = horizon_points(ra, dec, gmst_udeg, longitude_step_udeg, !to_dsc);
    if points.len() == 0 {
        return None;
    }
    Some(AspectLine {
        planet: position.planet,
        angle: if to_dsc {
            LineType::DSC
        } else {
            LineType::ASC
        },
        aspect,
        direction_positive: positive,
        is_harmonious: aspect_is_harmonious(aspect),
        points,
        longitude_udeg: None,
    })
}

/// The attributes and points of one aspect line, as plain values.
pub open spec fn spec_aspect_line_view(l: AspectLine) -> (
    Planet,
    LineType,
    AspectKind,
    bool,
    bool,
    Seq<GlobePoint>,
    Option<i64>,
) {
    (
        l.planet,
        l.angle,
        l.aspect,
        l.direction_positive,
        l.is_harmonious,
        l.points@,
        l.longitude_udeg,
    )
}

/// The aspect lines of one body for one aspect and direction: the MC and
/// IC meridian lines always, then each horizon side whose scan found
/// points.
pub open spec fn spec_aspect_group_views(
    position: PlanetaryPosition,
    aspect: AspectKind,
    positive: bool,
    gmst: int,
    step: int,
    obliquity: int,
) -> Seq<(Planet, LineType, AspectKind, bool, bool, Seq<GlobePoint>, Option<i64>)> {
    let harmonious = aspect != AspectKind::Square;
    let mc_lng = spec_aspect_meridian_longitude(position, aspect, positive, false, gmst, obliquity);
    let ic_lng = spec_aspect_meridian_longitude(position, aspect, positive, true, gmst, obliquity);
    let ra = spec_shifted_equatorial(position, aspect, positive, obliquity).0;
    let dec = spec_shifted_equatorial(position, aspect, positive, obliquity).1;
    let asc = spec_horizon_scan_from(ra, dec, gmst, step, true, -180_000_000);
    let dsc = spec_horizon_scan_from(ra, dec, gmst, step, false, -180_000_000);
    seq![
        (
            position.planet,
            LineType::MC,
            aspect,
            positive,
            harmonious,
            spec_meridian_seq(mc_lng),
            Some(mc_lng as i64),
        ),
        (
            position.planet,
            LineType::IC,
            aspect,
            positive,
            harmonious,
            spec_meridian_seq(ic_lng),
            Some(ic_lng as i64),
        ),
    ] + (if asc.len() > 0 {
        seq![(position.planet, LineType::ASC, aspect, positive, harmonious, asc, Option::<i64>::None)]
    } else {
        Seq::empty()
    }) + (if dsc.len() > 0 {
        seq![(position.planet, LineType::DSC, aspect, positive, harmonious, dsc, Option::<i64>::None)]
    } else {
        Seq::empty()
    })
}

/// The aspect of the group at a position in the trine, sextile, square
/// order, each taken negative direction first.
pub open spec fn spec_aspect_of_group(g: int) -> AspectKind {
    if g < 2 {
        AspectKind::Trine
    } else if g < 4 {
        AspectKind::Sextile
    } else {
        AspectKind::Square
    }
}

/// The first `n` aspect groups of a body, concatenated.
pub open spec fn spec_aspect_views_prefix(
    position: PlanetaryPosition,
    gmst: int,
    step: int,
    obliquity: int,
    n: int,
) -> Seq<(Planet, LineType, AspectKind, bool, bool, Seq<GlobePoint>, Option<i64>)>
    decreases n,
{
    if n <= 0 {
        Seq::empty()
    } else {
        spec_aspect_views_prefix(position, gmst, step, obliquity, n - 1)
            + spec_aspect_group_views(
            position,
            spec_aspect_of_group(n - 1),
            (n - 1) % 2 == 1,
            gmst,
            step,
            obliquity,
        )
    }
}

/// All aspect line views of one body: the six groups in order.
pub open spec fn spec_planet_aspect_views(
    position: PlanetaryPosition,
    gmst: int,
    step: int,
    obliquity: int,
) -> Seq<(Planet, LineType, AspectKind, bool, bool, Seq<GlobePoint>, Option<i64>)> {
    spec_aspect_views_prefix(position, gmst, step, obliquity, 6)
}

/// Push the MC, IC and found horizon aspect lines of one aspect and
/// direction, in that order.
#[verifier::rlimit(100)]
#[verifier::spinoff_prover]
fn push_aspect_group(
    lines: &mut Vec<AspectLine>,
    position: &PlanetaryPosition,
    aspect: AspectKind,
    positive: bool,
    gmst_udeg: i64,
    longitude_step_udeg: i64,
    obliquity_udeg: i64,
)
    requires
        position.wf(),
        0 <= gmst_udeg < angle::TURN,
        500_000 <= longitude_step_udeg <= 360_000_000,
    ensures
        final(lines)@.map_values(|l: AspectLine| spec_aspect_line_view(l))
            == old(lines)@.map_values(|l: AspectLine| spec_aspect_line_view(l))
            + spec_aspect_group_views(
            *position,
            aspect,
            positive,
            gmst_udeg as int,
            longitude_step_udeg as int,
            obliquity_udeg as int,
        ),
        forall|i: int|
            0 <= i < old(lines)@.len() ==> #[trigger] final(lines)@[i] == old(lines)@[i],
        forall|i: int|
            old(lines)@.len() <= i < final(lines)@.len()
                ==> (#[trigger] final(lines)@[i]).wf()
                && final(lines)@[i].planet == position.planet,
{
    let ghost view_of = |l: AspectLine| spec_aspect_line_view(l);
    let ghost pre = lines@;
    let mc = calculate_aspect_to_meridian(position, aspect, positive, false, gmst_udeg, obliquity_udeg);
    lines.push(mc);
    let ic = calculate_aspect_to_meridian(position, aspect, positive, true, gmst_udeg, obliquity_udeg);
    lines.push(ic);
    match calculate_aspect_to_horizon(position, aspect, positive, false, gmst_udeg, longitude_step_udeg, obliquity_udeg) {
        Some(asc) => lines.push(asc),
        None => {},
    }
    match calculate_aspect_to_horizon(position, aspect, positive, true, gmst_udeg, longitude_step_udeg, obliquity_udeg) {
        Some(dsc) => lines.push(dsc),
        None => {},
    }
    proof {
        let group = spec_aspect_group_views(
            *position,
            aspect,
            positive,
            gmst_udeg as int,
            longitude_step_udeg as int,
            obliquity_udeg as int,
        );
        assert(lines@.map_values(view_of) =~= pre.map_values(view_of) + group);
        assert(lines@.map_values(|l: AspectLine| spec_aspect_line_view(l)) == lines@.map_values(
            view_of,
        ));
        assert(pre.map_values(|l: AspectLine| spec_aspect_line_view(l)) == pre.map_values(view_of));
    }
}

/// All aspect lines of one body: three aspects, two directions, four
/// angles; horizon lines that found no crossing are left out.
#[verifier::rlimit(100)]
#[verifier::spinoff_prover]
pub fn calculate_planet_aspect_lines(
    position: &PlanetaryPosition,
    gmst_udeg: i64,
    longitude_step_udeg: i64,
    obliquity_udeg: i64,
) -> (r: Vec<AspectLine>)
    requires
        position.wf(),
        0 <= gmst_udeg < angle::TURN,
        500_000 <= longitude_step_udeg <= 360_000_000,
    ensures
        forall|i: int| 0 <= i < r@.len() ==> (#[trigger] r@[i]).wf(),
        forall|i: int| 0 <= i < r@.len() ==> (#[trigger] r@[i]).planet == position.planet,
        r@.map_values(|l: AspectLine| spec_aspect_line_view(l)) == spec_planet_aspect_views(
            *position,
            gmst_udeg as int,
            longitude_step_udeg as int,
            obliquity_udeg as int,
        ),
{
    let ghost view_of = |l: AspectLine| spec_aspect_line_view(l);
    let mut lines: Vec<AspectLine> = Vec::new();
    let mut ai: usize = 0;
    while ai < 3
        invariant
            ai <= 3,
            position.wf(),
            0 <= gmst_udeg < angle::TURN,
            500_000 <= longitude_step_udeg <= 360_000_000,
            forall|i: int| 0 <= i < lines@.len() ==> (#[trigger] lines@[i]).wf(),
            forall|i: int| 0 <= i < lines@.len() ==> (#[trigger] lines@[i]).planet == position.planet,
            lines@.map_values(view_of) == spec_aspect_views_prefix(
                *position,
                gmst_udeg as int,
                longitude_step_udeg as int,
                obliquity_udeg as int,
                2 * ai as int,
            ),
            view_of == (|l: AspectLine| spec_aspect_line_view(l)),
        decreases 3 - ai,
    {
        let aspect = if ai == 0 {
            AspectKind::Trine
        } else if ai == 1 {
            AspectKind::Sextile
        } else {
            AspectKind::Square
        };
        let mut di: usize = 0;
        while di < 2
            invariant
                di <= 2,
                ai < 3,
                aspect == spec_aspect_of_group(2 * ai as int),
                aspect == spec_aspect_of_group(2 * ai as int + 1),
                position.wf(),
                0 <= gmst_udeg < angle::TURN,
                500_000 <= longitude_step_udeg <= 360_000_000,
                forall|i: int| 0 <= i < lines@.len() ==> (#[trigger] lines@[i]).wf(),
                forall|i: int| 0 <= i < lines@.len() ==> (#[trigger] lines@[i]).planet == position.planet,
                lines@.map_values(view_of) == spec_aspect_views_prefix(
                    *position,
                    gmst_udeg as int,
                    longitude_step_udeg as int,
                    obliquity_udeg as int,
                    2 * ai as int + di as int,
                ),
                view_of == (|l: AspectLine| spec_aspect_line_view(l)),
            decreases 2 - di,
        {
            let ghost g = 2 * ai as int + di as int;
            let ghost prefix = spec_aspect_views_prefix(
                *position,
                gmst_udeg as int,
                longitude_step_udeg as int,
                obliquity_udeg as int,
                g,
            );
            let positive = di == 1;
            push_aspect_group(
                &mut lines,
                position,
                aspect,
                positive,
                gmst_udeg,
                longitude_step_udeg,
                obliquity_udeg,
            );
            proof {
                let group = spec_aspect_group_views(
                    *position,
                    aspect,
                    positive,
                    gmst_udeg as int,
                    longitude_step_udeg as int,
                    obliquity_udeg as int,
                );
                assert(positive == (g % 2 == 1));
                assert(lines@.map_values(view_of) == prefix + group);
                assert(spec_aspect_views_prefix(
                    *position,
                    gmst_udeg as int,
                    longitude_step_udeg as int,
                    obliquity_udeg as int,
                    g + 1,
                ) == prefix + group);
            }
            di = di + 1;
        }
        ai = ai + 1;
    }
    lines
}

/// A paran: a geographic latitude where two bodies stand on their chosen
/// angles at once.
#[derive(Clone, Copy, Debug)]
pub struct Paran {
    pub planet1: Planet,
    pub angle1: LineType,
    pub planet2: Planet,
    pub angle2: LineType,
    pub latitude_udeg: i64,
    pub longitude_udeg: Option<i64>,
    pub is_latitude_circle: bool,
}

impl Paran {
    /// Latitude within the scanned band, longitude in the signed form.
    pub open spec fn wf(self) -> bool {
        &&& -66_000_000 <= self.latitude_udeg <= 66_000_000
        &&& match self.longitude_udeg {
            Some(lng) => -180_000_000 <= lng <= 180_000_000,
            None => true,
        }
    }
}

/// Shortest-arc separation of two signed longitudes.
pub open spec fn spec_arc_separation(a: int, b: int) -> int {
    let d = if a >= b {
        a - b
    } else {
        b - a
    };
    if d > 180_000_000 {
        360_000_000 - d
    } else {
        d
    }
}

/// Signed meridian longitude of a body on the MC or IC.
pub open spec fn spec_meridian_longitude(ra: int, gmst: int, to_ic: bool) -> int {
    if to_ic {
        angle::norm_signed(ra + 180_000_000 - gmst)
    } else {
        angle::norm_signed(ra - gmst)
    }
}

/// Shortest-arc separation of two signed longitudes, micro-degrees in
/// `[0, 180]` degrees.
fn arc_separation(a: i64, b: i64) -> (r: i64)
    requires
        -180_000_000 <= a <= 180_000_000,
        -180_000_000 <= b <= 180_000_000,
    ensures
        0 <= r <= 180_000_000,
        r == spec_arc_separation(a as int, b as int),
{
    let d: i64 = if a >= b {
        a - b
    } else {
        b - a
    };
    if d > 180_000_000 {
        360_000_000 - d
    } else {
        d
    }
}

/// Circular mean of two close signed longitudes, taking the dateline into
/// account in the way the latitude scan expects.
fn mean_longitude(l1: i64, l2: i64) -> (r: i64)
    requires
        -180_000_000 <= l1 <= 180_000_000,
        -180_000_000 <= l2 <= 180_000_000,
    ensures
        -180_000_000 <= r <= 180_000_000,
{
    let d: i64 = if l1 >= l2 {
        l1 - l2
    } else {
        l2 - l1
    };
    if d > 180_000_000 {
        let n1: i64 = if l1 < 0 {
            l1 + 360_000_000
        } else {
            l1
        };
        let n2: i64 = if l2 < 0 {
            l2 + 360_000_000
        } else {
            l2
        };
        let avg = (n1 + n2) / 2;
        if avg > 180_000_000 {
            avg - 360_000_000
        } else {
            avg
        }
    } else {
        (l1 + l2) / 2
    }
}

/// Whether a line type is a meridian angle.
fn is_meridian(t: LineType) -> (r: bool)
    ensures
        r == (t == LineType::MC || t == LineType::IC),
{
    match t {
        LineType::MC | LineType::IC => true,
        _ => false,
    }
}

/// Parans of one ordered pair of bodies on one pair of angles.
///
/// Meridian against meridian: one paran at the equator when the two
/// meridians agree within two degrees.  Meridian against horizon: the
/// horizon body's latitude whose longitude comes closest to the fixed
/// meridian, accepted within one degree.  Horizon against horizon: the
/// latitude where the two horizon longitudes agree within one degree, with
/// the circular mean as the crossing longitude.
pub fn calculate_paran(
    pos1: &PlanetaryPosition,
    pos2: &PlanetaryPosition,
    angle1: LineType,
    angle2: LineType,
    gmst_udeg: i64,
) -> (r: Vec<Paran>)
    requires
        pos1.wf(),
        pos2.wf(),
        0 <= gmst_udeg < angle::TURN,
    ensures
        r@.len() <= 1,
        forall|i: int| 0 <= i < r@.len() ==> (#[trigger] r@[i]).wf(),
        forall|i: int| 0 <= i < r@.len() ==>
            (#[trigger] r@[i]).planet1 == pos1.planet && r@[i].planet2 == pos2.planet,
        (angle1 == LineType::MC || angle1 == LineType::IC) && (angle2 == LineType::MC || angle2
            == LineType::IC) ==> (r@.len() == 1 <==> spec_arc_separation(
            spec_meridian_longitude(
                pos1.right_ascension_udeg as int,
                gmst_udeg as int,
                angle1 == LineType::IC,
            ),
            spec_meridian_longitude(
                pos2.right_ascension_udeg as int,
                gmst_udeg as int,
                angle2 == LineType::IC,
            ),
        ) < 2_000_000),
        (angle1 == LineType::MC || angle1 == LineType::IC) && (angle2 == LineType::MC || angle2
            == LineType::IC) && r@.len() == 1 ==> r@[0].latitude_udeg == 0 && r@[0].longitude_udeg
            == Some(
            (spec_meridian_longitude(
                pos1.right_ascension_udeg as int,
                gmst_udeg as int,
                angle1 == LineType::IC,
            )) as i64,
        ) && !r@[0].is_latitude_circle,
{
    let mut parans: Vec<Paran> = Vec::new();
    let m1 = is_meridian(angle1);
    let m2 = is_meridian(angle2);

    if m1 && m2 {
        let lng1 = match get_longitude_for_angle_at_latitude(
            pos1.right_ascension_udeg, pos1.declination_udeg, gmst_udeg, 0, angle1) {
            Some(l) => l,
            None => {
                proof {
                    assert(false);
                }
                0
            },
        };
        let lng2 = match get_longitude_for_angle_at_latitude(
            pos2.right_ascension_udeg, pos2.declination_udeg, gmst_udeg, 0, angle2) {
            Some(l) => l,
            None => {
                proof {
                    assert(false);
                }
                0
            },
        };
        if arc_separation(lng1, lng2) < 2_000_000 {
            parans.push(Paran {
                planet1: pos1.planet,
                angle1,
                planet2: pos2.planet,
                angle2,
                latitude_udeg: 0,
                longitude_udeg: Some(lng1),
                is_latitude_circle: false,
            });
        }
        return parans;
    }

    if m1 {
        let fixed_lng = match get_longitude_for_angle_at_latitude(
            pos1.right_ascension_udeg, pos1.declination_udeg, gmst_udeg, 0, angle1) {
            Some(l) => l,
            None => {
                proof {
                    assert(false);
                }
                0
            },
        };
        let mut best: Option<(i64, i64)> = None;
        let mut lat: i64 = -66_000_000;
        while lat <= 66_000_000
            invariant
                -66_000_000 <= lat <= 66_250_000,
                pos2.wf(),
                0 <= gmst_udeg < angle::TURN,
                -180_000_000 <= fixed_lng <= 180_000_000,
                match best {
                    Some(b) => -66_000_000 <= b.0 <= 66_000_000 && 0 <= b.1 < 1_000_000,
                    None => true,
                },
            decreases 66_250_000 - lat,
        {
            match get_longitude_for_angle_at_latitude(
                pos2.right_ascension_udeg, pos2.declination_udeg, gmst_udeg, lat, angle2) {
                Some(lng2) => {
                    let diff = arc_separation(fixed_lng, lng2);
                    if diff < 1_000_000 {
                        let better = match best {
                            None => true,
                            Some(b) => diff < b.1,
                        };
                        if better {
                            best = Some((lat, diff));
                        }
                    }
                },
                None => {},
            }
            lat = lat + 250_000;
        }
        match best {
            Some(b) => {
                parans.push(Paran {
                    planet1: pos1.planet,
                    angle1,
                    planet2: pos2.planet,
                    angle2,
                    latitude_udeg: b.0,
                    longitude_udeg: Some(fixed_lng),
                    is_latitude_circle: false,
                });
            },
            None => {},
        }
        return parans;
    }

    // Both horizon angles: scan for the closest agreement of the two
    // longitude-at-latitude curves.
    let mut best: Option<(i64, i64, i64)> = None;
    let mut lat: i64 = -66_000_000;
    while lat <= 66_000_000
        invariant
            -66_000_000 <= lat <= 66_250_000,
            pos1.wf(),
            pos2.wf(),
            0 <= gmst_udeg < angle::TURN,
            match best {
                Some(b) => -66_000_000 <= b.0 <= 66_000_000 && -180_000_000 <= b.1 <= 180_000_000
                    && 0 <= b.2 < 1_000_000,
                None => true,
            },
        decreases 66_250_000 - lat,
    {
        let r1 = get_longitude_for_angle_at_latitude(
            pos1.right_ascension_udeg, pos1.declination_udeg, gmst_udeg, lat, angle1);
        let r2 = get_longitude_for_angle_at_latitude(
            pos2.right_ascension_udeg, pos2.declination_udeg, gmst_udeg, lat, angle2);
        match (r1, r2) {
            (Some(lng1), Some(lng2)) => {
                let diff = arc_separation(lng1, lng2);
                if diff < 1_000_000 {
                    let better = match best {
                        None => true,
                        Some(b) => diff < b.2,
                    };
                    if better {
                        best = Some((lat, mean_longitude(lng1, lng2), diff));
                    }
                }
            },
            _ => {},
        }
        lat = lat + 250_000;
    }
    match best {
        Some(b) => {
            parans.push(Paran {
                planet1: pos1.planet,
                angle1,
                planet2: pos2.planet,
                angle2,
                latitude_udeg: b.0,
                longitude_udeg: Some(b.1),
                is_latitude_circle: false,
            });
        },
        None => {},
    }
    parans
}

} // verus!
