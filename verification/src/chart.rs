//! Assembly of a full astrocartography chart: for one instant, the
//! positions of all twelve bodies, their four angular lines each, the
//! twenty-four aspect lines per body, the paran latitudes of every body
//! pair, and the zenith points.
//!
//! The Sun and the planets Mercury through Neptune need heliocentric
//! spherical coordinates (body and Earth) supplied by the caller; the
//! Moon, Pluto, Chiron and the node are computed from the date alone.

use vstd::prelude::*;
use crate::calendar;
use crate::ephemeris::{
    calculate_planetary_position_tt, HelioPosition, Planet, PlanetaryPosition,
};
use crate::frames;
use crate::lines::{
    calculate_paran, calculate_planet_aspect_lines, calculate_planet_lines, AspectLine, GlobePoint,
    LineType, Paran, PlanetLines,
};
use crate::timescale;

verus! {

/// The twelve bodies in their canonical order.
pub open spec fn spec_planet_of_index(i: int) -> Planet {
    if i == 0 {
        Planet::Sun
    } else if i == 1 {
        Planet::Moon
    } else if i == 2 {
        Planet::Mercury
    } else if i == 3 {
        Planet::Venus
    } else if i == 4 {
        Planet::Mars
    } else if i == 5 {
        Planet::Jupiter
    } else if i == 6 {
        Planet::Saturn
    } else if i == 7 {
        Planet::Uranus
    } else if i == 8 {
        Planet::Neptune
    } else if i == 9 {
        Planet::Pluto
    } else if i == 10 {
        Planet::Chiron
    } else {
        Planet::NorthNode
    }
}

/// The equatorial coordinates the chart assigns to one body of a UTC
/// instant: the TT conversion, nutation and obliquity of the instant, then
/// the position pipeline.
pub open spec fn spec_chart_position(
    planet: Planet,
    jd_utc_ms: int,
    helio: (HelioPosition, HelioPosition),
) -> Option<(int, int, int)> {
    let ym = calendar::spec_jd_to_calendar(jd_utc_ms);
    let jde = jd_utc_ms + timescale::spec_dut1_ms(jd_utc_ms) + timescale::spec_delta_t_ms(
        ym.0,
        ym.1,
    );
    let eps = frames::spec_obliquity(jde) + frames::spec_nutation(jde).1;
    crate::ephemeris::spec_position_tt(
        planet,
        jde,
        Some(helio),
        eps,
        frames::spec_nutation(jde).0,
    )
}

/// The twelve bodies in their canonical order.
pub fn planet_of_index(i: usize) -> (r: Planet)
    requires
        i < 12,
    ensures
        r == spec_planet_of_index(i as int),
{
    match i {
        0 => Planet::Sun,
        1 => Planet::Moon,
        2 => Planet::Mercury,
        3 => Planet::Venus,
        4 => Planet::Mars,
        5 => Planet::Jupiter,
        6 => Planet::Saturn,
        7 => Planet::Uranus,
        8 => Planet::Neptune,
        9 => Planet::Pluto,
        10 => Planet::Chiron,
        _ => Planet::NorthNode,
    }
}

/// A whole chart: everything the lines pipeline produces for one instant.
pub struct AstroChart {
    pub jd_utc_ms: i64,
    pub gmst_udeg: i64,
    pub planetary_positions: Vec<PlanetaryPosition>,
    pub planetary_lines: Vec<PlanetLines>,
    pub aspect_lines: Vec<AspectLine>,
    pub paran_lines: Vec<Paran>,
    pub zenith_points: Vec<GlobePoint>,
}

impl AstroChart {
    /// Twelve bodies' worth of valid data, with the sidereal time
    /// normalized.
    pub open spec fn wf(self) -> bool {
        &&& 0 <= self.gmst_udeg < 360_000_000
        &&& self.planetary_positions@.len() == 12
        &&& forall|i: int|
            0 <= i < self.planetary_positions@.len() ==> (
            #[trigger] self.planetary_positions@[i]).wf()
        &&& self.planetary_lines@.len() == 12
        &&& forall|i: int|
            0 <= i < self.planetary_lines@.len() ==> (#[trigger] self.planetary_lines@[i]).wf()
        &&& forall|i: int|
            0 <= i < self.aspect_lines@.len() ==> (#[trigger] self.aspect_lines@[i]).wf()
        &&& forall|i: int|
            0 <= i < self.paran_lines@.len() ==> (#[trigger] self.paran_lines@[i]).wf()
        &&& self.zenith_points@.len() == 12
        &&& forall|i: int|
            0 <= i < self.zenith_points@.len() ==> (#[trigger] self.zenith_points@[i]).wf()
    }
}

/// The aspect line views of the first `k` bodies, concatenated in body
/// order.
pub open spec fn spec_chart_aspect_views(
    positions: Seq<PlanetaryPosition>,
    gmst: int,
    step: int,
    obliquity: int,
    k: int,
) -> Seq<
    (
        Planet,
        crate::lines::LineType,
        crate::lines::AspectKind,
        bool,
        bool,
        Seq<GlobePoint>,
        Option<i64>,
    ),
>
    decreases k,
{
    if k <= 0 {
        Seq::empty()
    } else {
        spec_chart_aspect_views(positions, gmst, step, obliquity, k - 1)
            + crate::lines::spec_planet_aspect_views(positions[k - 1], gmst, step, obliquity)
    }
}

/// Build the full chart of one UTC instant.  `helio` carries, for each
/// body in canonical order, the body's and the Earth's heliocentric
/// spherical coordinates; the entries of the bodies whose theory is
/// internal are not read.
pub fn calculate_all_lines(
    jd_utc_ms: i64,
    helio: &Vec<(HelioPosition, HelioPosition)>,
    longitude_step_udeg: i64,
) -> (r: AstroChart)
    requires
        190_000_000_000_000 <= jd_utc_ms <= 259_000_000_000_000,
        helio@.len() == 12,
        forall|i: int|
            0 <= i < helio@.len() ==> (#[trigger] helio@[i]).0.wf() && helio@[i].1.wf(),
        500_000 <= longitude_step_udeg <= 360_000_000,
    ensures
        r.wf(),
        r.jd_utc_ms == jd_utc_ms,
        r.gmst_udeg == frames::spec_gmst(jd_utc_ms as int),
        forall|i: int|
            0 <= i < 12 ==> (#[trigger] r.planetary_positions@[i]).planet == spec_planet_of_index(
                i,
            ) && Some(
                (
                    r.planetary_positions@[i].right_ascension_udeg as int,
                    r.planetary_positions@[i].declination_udeg as int,
                    r.planetary_positions@[i].ecliptic_longitude_udeg as int,
                ),
            ) == spec_chart_position(spec_planet_of_index(i), jd_utc_ms as int, helio@[i]),
        forall|i: int|
            0 <= i < 12 ==> (#[trigger] r.planetary_lines@[i]).position
                == r.planetary_positions@[i] && r.planetary_lines@[i].mc_longitude_udeg
                == crate::angle::norm_signed(
                r.planetary_positions@[i].right_ascension_udeg - r.gmst_udeg,
            ) && r.planetary_lines@[i].ic_longitude_udeg == crate::angle::norm_signed(
                r.planetary_positions@[i].right_ascension_udeg + 180_000_000 - r.gmst_udeg,
            ),
        forall|i: int| 0 <= i < 12 ==> #[trigger] r.zenith_points@[i] == r.planetary_lines@[i].zenith,
        ({
            let jde = jd_utc_ms + timescale::spec_dut1_ms(jd_utc_ms as int)
                + timescale::spec_delta_t_ms(
                calendar::spec_jd_to_calendar(jd_utc_ms as int).0,
                calendar::spec_jd_to_calendar(jd_utc_ms as int).1,
            );
            let obliq = frames::spec_obliquity(jde) + frames::spec_nutation(jde).1;
            r.aspect_lines@.map_values(|l: AspectLine| crate::lines::spec_aspect_line_view(l))
                == spec_chart_aspect_views(
                r.planetary_positions@,
                frames::spec_gmst(jd_utc_ms as int),
                longitude_step_udeg as int,
                obliq,
                12,
            )
        }),
{
    let (year, month, _day) = calendar::jd_to_calendar(jd_utc_ms);
    proof {
        calendar::lemma_jd_to_calendar_shape(jd_utc_ms as int);
    }
    let jde = timescale::ut_to_tt(jd_utc_ms, year, month);
    let nutation = frames::calculate_nutation(jde);
    let obliquity = frames::calculate_true_obliquity(jde);
    let gmst = frames::calculate_gmst(jd_utc_ms);

    // Positions of the twelve bodies.
    let mut positions: Vec<PlanetaryPosition> = Vec::new();
    let mut i: usize = 0;
    while i < 12
        invariant
            i <= 12,
            positions@.len() == i,
            forall|j: int| 0 <= j < positions@.len() ==> (#[trigger] positions@[j]).wf(),
            forall|j: int|
                0 <= j < positions@.len() ==> (#[trigger] positions@[j]).planet
                    == spec_planet_of_index(j) && Some(
                    (
                        positions@[j].right_ascension_udeg as int,
                        positions@[j].declination_udeg as int,
                        positions@[j].ecliptic_longitude_udeg as int,
                    ),
                ) == spec_chart_position(spec_planet_of_index(j), jd_utc_ms as int, helio@[j]),
            190_000_000_000_000 <= jd_utc_ms <= 259_000_000_000_000,
            jde as int == jd_utc_ms + timescale::spec_dut1_ms(jd_utc_ms as int)
                + timescale::spec_delta_t_ms(
                calendar::spec_jd_to_calendar(jd_utc_ms as int).0,
                calendar::spec_jd_to_calendar(jd_utc_ms as int).1,
            ),
            obliquity as int == frames::spec_obliquity(jde as int) + frames::spec_nutation(
                jde as int,
            ).1,
            nutation.delta_psi_udeg as int == frames::spec_nutation(jde as int).0,
            helio@.len() == 12,
            forall|j: int|
                0 <= j < helio@.len() ==> (#[trigger] helio@[j]).0.wf() && helio@[j].1.wf(),
            frames::FRAMES_MIN_MS <= jde <= frames::FRAMES_MAX_MS,
            -10_000 <= nutation.delta_psi_udeg <= 10_000,
        decreases 12 - i,
    {
        let planet = planet_of_index(i);
        let h = helio[i];
        let pos = calculate_planetary_position_tt(planet, jde, Some((h.0, h.1)), obliquity, &nutation);
        match pos {
            Some(p) => {
                positions.push(p);
            },
            None => {
                proof {
                    assert(false);
                }
            },
        }
        i = i + 1;
    }

    // Per-body lines and zenith points.
    let ghost view_of = |l: AspectLine| crate::lines::spec_aspect_line_view(l);
    let mut planet_lines: Vec<PlanetLines> = Vec::new();
    let mut zeniths: Vec<GlobePoint> = Vec::new();
    let mut aspect_lines: Vec<AspectLine> = Vec::new();
    let mut k: usize = 0;
    while k < positions.len()
        invariant
            view_of == (|l: AspectLine| crate::lines::spec_aspect_line_view(l)),
            aspect_lines@.map_values(view_of) == spec_chart_aspect_views(
                positions@,
                gmst as int,
                longitude_step_udeg as int,
                obliquity as int,
                k as int,
            ),
            k <= positions@.len(),
            positions@.len() == 12,
            planet_lines@.len() == k,
            zeniths@.len() == k,
            forall|j: int| 0 <= j < positions@.len() ==> (#[trigger] positions@[j]).wf(),
            forall|j: int| 0 <= j < planet_lines@.len() ==> (#[trigger] planet_lines@[j]).wf(),
            forall|j: int|
                0 <= j < planet_lines@.len() ==> (#[trigger] planet_lines@[j]).position
                    == positions@[j] && planet_lines@[j].mc_longitude_udeg
                    == crate::angle::norm_signed(
                    positions@[j].right_ascension_udeg - gmst,
                ) && planet_lines@[j].ic_longitude_udeg == crate::angle::norm_signed(
                    positions@[j].right_ascension_udeg + 180_000_000 - gmst,
                ),
            forall|j: int|
                0 <= j < zeniths@.len() ==> #[trigger] zeniths@[j] == planet_lines@[j].zenith,
            forall|j: int| 0 <= j < zeniths@.len() ==> (#[trigger] zeniths@[j]).wf(),
            forall|j: int| 0 <= j < aspect_lines@.len() ==> (#[trigger] aspect_lines@[j]).wf(),
            0 <= gmst < 360_000_000,
            500_000 <= longitude_step_udeg <= 360_000_000,
        decreases positions@.len() - k,
    {
        let pos = &positions[k];
        let pl = calculate_planet_lines(pos, gmst, longitude_step_udeg);
        zeniths.push(pl.zenith);
        planet_lines.push(pl);
        let mut aspects = calculate_planet_aspect_lines(pos, gmst, longitude_step_udeg, obliquity);
        proof {
            assert(aspect_lines@.map_values(view_of) + aspects@.map_values(view_of)
                =~= spec_chart_aspect_views(
                positions@,
                gmst as int,
                longitude_step_udeg as int,
                obliquity as int,
                k as int + 1,
            ));
        }
        while aspects.len() > 0
            invariant
                view_of == (|l: AspectLine| crate::lines::spec_aspect_line_view(l)),
                forall|j: int| 0 <= j < aspects@.len() ==> (#[trigger] aspects@[j]).wf(),
                forall|j: int| 0 <= j < aspect_lines@.len() ==> (#[trigger] aspect_lines@[j]).wf(),
                aspect_lines@.map_values(view_of) + aspects@.map_values(view_of)
                    == spec_chart_aspect_views(
                    positions@,
                    gmst as int,
                    longitude_step_udeg as int,
                    obliquity as int,
                    k as int + 1,
                ),
            decreases aspects@.len(),
        {
            let ghost done_pre = aspect_lines@;
            let ghost rest_pre = aspects@;
            let line = aspects.remove(0);
            aspect_lines.push(line);
            proof {
                assert(aspect_lines@ =~= done_pre.push(line));
                assert(aspects@ =~= rest_pre.drop_first());
                assert(aspect_lines@.map_values(view_of) + aspects@.map_values(view_of)
                    =~= done_pre.map_values(view_of) + rest_pre.map_values(view_of));
            }
        }
        k = k + 1;
    }

    // Parans over every ordered pair of distinct bodies and every angle
    // pair.
    let angle_pairs: [(LineType, LineType); 6] = [
        (LineType::MC, LineType::ASC),
        (LineType::MC, LineType::DSC),
        (LineType::MC, LineType::IC),
        (LineType::IC, LineType::ASC),
        (LineType::IC, LineType::DSC),
        (LineType::ASC, LineType::DSC),
    ];
    let mut parans: Vec<Paran> = Vec::new();
    let mut p1: usize = 0;
    while p1 < positions.len()
        invariant
            p1 <= positions@.len(),
            positions@.len() == 12,
            forall|j: int| 0 <= j < positions@.len() ==> (#[trigger] positions@[j]).wf(),
            forall|j: int| 0 <= j < parans@.len() ==> (#[trigger] parans@[j]).wf(),
            0 <= gmst < 360_000_000,
        decreases positions@.len() - p1,
    {
        let mut p2: usize = p1 + 1;
        while p2 < positions.len()
            invariant
                p1 < p2 <= positions@.len() || p2 == p1 + 1,
                positions@.len() == 12,
                p1 < 12,
                forall|j: int| 0 <= j < positions@.len() ==> (#[trigger] positions@[j]).wf(),
                forall|j: int| 0 <= j < parans@.len() ==> (#[trigger] parans@[j]).wf(),
                0 <= gmst < 360_000_000,
            decreases positions@.len() - p2,
        {
            let mut ap: usize = 0;
            while ap < 6
                invariant
                    ap <= 6,
                    p1 < 12,
                    p2 < 12,
                    positions@.len() == 12,
                    forall|j: int| 0 <= j < positions@.len() ==> (#[trigger] positions@[j]).wf(),
                    forall|j: int| 0 <= j < parans@.len() ==> (#[trigger] parans@[j]).wf(),
                    0 <= gmst < 360_000_000,
                decreases 6 - ap,
            {
                let pair = angle_pairs[ap];
                let found1 = calculate_paran(&positions[p1], &positions[p2], pair.0, pair.1, gmst);
                let mut f: usize = 0;
                while f < found1.len()
                    invariant
                        f <= found1@.len(),
                        forall|j: int| 0 <= j < found1@.len() ==> (#[trigger] found1@[j]).wf(),
                        forall|j: int| 0 <= j < parans@.len() ==> (#[trigger] parans@[j]).wf(),
                    decreases found1@.len() - f,
                {
                    parans.push(found1[f]);
                    f = f + 1;
                }
                let found2 = calculate_paran(&positions[p2], &positions[p1], pair.0, pair.1, gmst);
                let mut f2: usize = 0;
                while f2 < found2.len()
                    invariant
                        f2 <= found2@.len(),
                        forall|j: int| 0 <= j < found2@.len() ==> (#[trigger] found2@[j]).wf(),
                        forall|j: int| 0 <= j < parans@.len() ==> (#[trigger] parans@[j]).wf(),
                    decreases found2@.len() - f2,
                {
                    parans.push(found2[f2]);
                    f2 = f2 + 1;
                }
                ap = ap + 1;
            }
            p2 = p2 + 1;
        }
        p1 = p1 + 1;
    }

    proof {
        assert(aspect_lines@.map_values(|l: AspectLine| crate::lines::spec_aspect_line_view(l))
            == aspect_lines@.map_values(view_of));
    }
    AstroChart {
        jd_utc_ms,
        gmst_udeg: gmst,
        planetary_positions: positions,
        planetary_lines: planet_lines,
        aspect_lines,
        paran_lines: parans,
        zenith_points: zeniths,
    }
}

} // verus!
