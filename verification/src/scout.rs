//! Scouting: turn planetary lines plus a city catalogue (or a sampling
//! grid) into influences, scores and rankings, with the spatial pruning
//! cascade in front of the exact distances.

use vstd::prelude::*;
use vstd::string::StringSliceAdditionalSpecFns;
use crate::geo;
use crate::lines::GlobePoint;
use crate::rank::{
    calculate_city_score, clone_string, rank_cities_by_category, CityInfluenceSet, CityRanking,
    CityScore, spec_rank_key, spec_influence_view, spec_count_relevant_views,
    lemma_count_relevant_views, spec_contributions_of_views, spec_min_distance_views,
    lemma_scores_from_views,
};
use crate::scoring::{
    apply_kernel, is_beneficial_for_category, is_challenging_for_category, rating_to_benefit,
    aspect_benefit_multiplier, AspectType, Influence, LifeCategory, ScoringConfig, SortMode,
};

verus! {

/// One planetary line as the scoring side sees it: names, the user rating,
/// an optional aspect, and the polyline.
pub struct LineData {
    pub planet: String,
    pub angle: String,
    pub rating: u8,
    pub aspect: Option<AspectType>,
    pub points: Vec<GlobePoint>,
}

impl LineData {
    /// Rating on the one-to-five scale and all points valid.
    pub open spec fn wf(self) -> bool {
        &&& 1 <= self.rating <= 5
        &&& forall|i: int| 0 <= i < self.points@.len() ==> (#[trigger] self.points@[i]).wf()
    }
}

/// A catalogue city.
pub struct CityData {
    pub name: String,
    pub country: String,
    pub lat_udeg: i64,
    pub lon_udeg: i64,
}

impl CityData {
    /// Coordinates on the map.
    pub open spec fn wf(self) -> bool {
        &&& -90_000_000 <= self.lat_udeg <= 90_000_000
        &&& -180_000_000 <= self.lon_udeg <= 180_000_000
    }
}


/// The bounding box a polyline gets, as a value: the coordinate extremes
/// (the whole world for an empty polyline) and the metre buffer in
/// micro-degrees.
pub open spec fn spec_line_bbox(points: Seq<GlobePoint>, buffer_m: int) -> geo::LineBoundingBox {
    if points.len() == 0 {
        geo::LineBoundingBox {
            min_lat_udeg: -90_000_000i64,
            max_lat_udeg: 90_000_000i64,
            min_lon_udeg: -180_000_000i64,
            max_lon_udeg: 180_000_000i64,
            buffer_udeg: (geo::spec_buffer_udeg(buffer_m)) as i64,
        }
    } else {
        geo::LineBoundingBox {
            min_lat_udeg: (geo::spec_min_lat(points, points.len() as int)) as i64,
            max_lat_udeg: (geo::spec_max_lat(points, points.len() as int)) as i64,
            min_lon_udeg: (geo::spec_min_lon(points, points.len() as int)) as i64,
            max_lon_udeg: (geo::spec_max_lon(points, points.len() as int)) as i64,
            buffer_udeg: (geo::spec_buffer_udeg(buffer_m)) as i64,
        }
    }
}

/// Whether a polyline influences a city under a configuration: the
/// buffered box admits the city and the exact polyline distance is within
/// the cut-off.
pub open spec fn spec_line_accepted(
    points: Seq<GlobePoint>,
    lat: int,
    lon: int,
    config: ScoringConfig,
) -> bool {
    &&& spec_line_bbox(points, config.max_distance_km * 1000).spec_might_contain(lat, lon)
    &&& geo::spec_polyline_distance(lat, lon, points) <= config.max_distance_km * 1000
}

/// How many of the first `k` lines influence the city.
pub open spec fn spec_accepted_count(
    lines: Seq<LineData>,
    lat: int,
    lon: int,
    config: ScoringConfig,
    k: int,
) -> int
    decreases k,
{
    if k <= 0 {
        0
    } else {
        spec_accepted_count(lines, lat, lon, config, k - 1) + if spec_line_accepted(
            lines[k - 1].points@,
            lat,
            lon,
            config,
        ) {
            1int
        } else {
            0int
        }
    }
}

/// The accepted count only reads each line's polyline, so it carries over
/// between line sequences whose polylines agree pointwise.
proof fn lemma_accepted_count_matches(
    a: Seq<LineData>,
    b: Seq<LineData>,
    lat: int,
    lon: int,
    config: ScoringConfig,
    k: int,
)
    requires
        a.len() == b.len(),
        0 <= k <= a.len(),
        forall|i: int| 0 <= i < a.len() ==> (#[trigger] a[i]).points@ == b[i].points@,
    ensures
        spec_accepted_count(a, lat, lon, config, k) == spec_accepted_count(b, lat, lon, config, k),
    decreases k,
{
    if k > 0 {
        lemma_accepted_count_matches(a, b, lat, lon, config, k - 1);
    }
}

/// The influences a city collects from the first `k` lines, as views, in
/// line order: each accepted line contributes its names, rating, aspect
/// and exact polyline distance.
pub open spec fn spec_accepted_views(
    lines: Seq<LineData>,
    lat: int,
    lon: int,
    config: ScoringConfig,
    k: int,
) -> Seq<(Seq<u8>, Seq<u8>, u8, Option<AspectType>, i64)>
    decreases k,
{
    if k <= 0 {
        Seq::empty()
    } else {
        let prev = spec_accepted_views(lines, lat, lon, config, k - 1);
        if spec_line_accepted(lines[k - 1].points@, lat, lon, config) {
            prev.push(
                (
                    vstd::utf8::encode_utf8(lines[k - 1].planet@),
                    vstd::utf8::encode_utf8(lines[k - 1].angle@),
                    lines[k - 1].rating,
                    lines[k - 1].aspect,
                    (geo::spec_polyline_distance(lat, lon, lines[k - 1].points@)) as i64,
                ),
            )
        } else {
            prev
        }
    }
}

/// The accepted views only read each line's names, rating, aspect and
/// polyline, so they carry over between line sequences that agree on
/// those.
proof fn lemma_accepted_views_matches(
    a: Seq<LineData>,
    b: Seq<LineData>,
    lat: int,
    lon: int,
    config: ScoringConfig,
    k: int,
)
    requires
        a.len() == b.len(),
        0 <= k <= a.len(),
        forall|i: int|
            0 <= i < a.len() ==> (#[trigger] a[i]).points@ == b[i].points@ && a[i].planet@
                == b[i].planet@ && a[i].angle@ == b[i].angle@ && a[i].rating == b[i].rating
                && a[i].aspect == b[i].aspect,
    ensures
        spec_accepted_views(a, lat, lon, config, k) == spec_accepted_views(b, lat, lon, config, k),
    decreases k,
{
    if k > 0 {
        lemma_accepted_views_matches(a, b, lat, lon, config, k - 1);
    }
}

/// How many of the first `k` cities collect at least one category-relevant
/// influence from the lines.
pub open spec fn spec_count_qualifying_cities(
    cities: Seq<CityData>,
    lines: Seq<LineData>,
    category: LifeCategory,
    config: ScoringConfig,
    k: int,
) -> int
    decreases k,
{
    if k <= 0 {
        0
    } else {
        let views = spec_accepted_views(
            lines,
            cities[k - 1].lat_udeg as int,
            cities[k - 1].lon_udeg as int,
            config,
            lines.len() as int,
        );
        spec_count_qualifying_cities(cities, lines, category, config, k - 1)
            + if spec_count_relevant_views(views, category, views.len() as int) > 0 {
            1int
        } else {
            0int
        }
    }
}

/// A line together with its buffered bounding box, for fast rejection.
pub struct OptimizedLine {
    pub data: LineData,
    pub bbox: geo::LineBoundingBox,
}

impl OptimizedLine {
    /// Valid line and box.
    pub open spec fn wf(self) -> bool {
        &&& self.data.wf()
        &&& self.bbox.wf()
    }
}

/// Attach a bounding box, buffered by the influence cut-off, to each line.
pub fn optimize_lines(lines: &Vec<LineData>, max_distance_km: i64) -> (r: Vec<OptimizedLine>)
    requires
        forall|i: int| 0 <= i < lines@.len() ==> (#[trigger] lines@[i]).wf(),
        0 <= max_distance_km <= 100_000,
    ensures
        r@.len() == lines@.len(),
        forall|i: int| 0 <= i < r@.len() ==> (#[trigger] r@[i]).wf(),
        forall|i: int|
            0 <= i < r@.len() ==> (#[trigger] r@[i]).data.points@ == lines@[i].points@
                && r@[i].data.planet@ == lines@[i].planet@ && r@[i].data.angle@
                == lines@[i].angle@ && r@[i].data.rating == lines@[i].rating && r@[i].data.aspect
                == lines@[i].aspect,
        forall|i: int|
            0 <= i < r@.len() ==> (#[trigger] r@[i]).bbox == spec_line_bbox(
                lines@[i].points@,
                max_distance_km * 1000,
            ),
{
    let mut out: Vec<OptimizedLine> = Vec::new();
    let mut i: usize = 0;
    while i < lines.len()
        invariant
            i <= lines@.len(),
            out@.len() == i,
            0 <= max_distance_km <= 100_000,
            forall|j: int| 0 <= j < lines@.len() ==> (#[trigger] lines@[j]).wf(),
            forall|j: int| 0 <= j < out@.len() ==> (#[trigger] out@[j]).wf(),
            forall|j: int|
                0 <= j < out@.len() ==> (#[trigger] out@[j]).data.points@ == lines@[j].points@
                    && out@[j].data.planet@ == lines@[j].planet@ && out@[j].data.angle@
                    == lines@[j].angle@ && out@[j].data.rating == lines@[j].rating
                    && out@[j].data.aspect == lines@[j].aspect,
            forall|j: int|
                0 <= j < out@.len() ==> (#[trigger] out@[j]).bbox == spec_line_bbox(
                    lines@[j].points@,
                    max_distance_km * 1000,
                ),
        decreases lines@.len() - i,
    {
        let line = &lines[i];
        let bbox = geo::LineBoundingBox::from_points(&line.points, max_distance_km * 1000);
        let mut pts: Vec<GlobePoint> = Vec::new();
        let mut k: usize = 0;
        while k < line.points.len()
            invariant
                k <= line.points@.len(),
                pts@.len() == k,
                forall|j: int| 0 <= j < line.points@.len() ==> (#[trigger] line.points@[j]).wf(),
                forall|j: int| 0 <= j < pts@.len() ==> (#[trigger] pts@[j]).wf(),
                forall|j: int| 0 <= j < k ==> #[trigger] pts@[j] == line.points@[j],
            decreases line.points@.len() - k,
    {
            pts.push(line.points[k]);
            k = k + 1;
        }
        proof {
            assert(pts@ =~= line.points@);
        }
        out.push(OptimizedLine {
            data: LineData {
                planet: clone_string(&line.planet),
                angle: clone_string(&line.angle),
                rating: line.rating,
                aspect: line.aspect,
                points: pts,
            },
            bbox,
        });
        i = i + 1;
    }
    out
}

/// The influences a city collects from a set of optimized lines: every
/// line whose box admits the city and whose exact polyline distance is
/// within the cut-off.
pub fn build_influences(
    city_lat: i64,
    city_lon: i64,
    lines: &Vec<OptimizedLine>,
    config: &ScoringConfig,
) -> (r: Vec<Influence>)
    requires
        -90_000_000 <= city_lat <= 90_000_000,
        -180_000_000 <= city_lon <= 180_000_000,
        forall|i: int| 0 <= i < lines@.len() ==> (#[trigger] lines@[i]).wf(),
        forall|i: int|
            0 <= i < lines@.len() ==> (#[trigger] lines@[i]).bbox == spec_line_bbox(
                lines@[i].data.points@,
                config.max_distance_km * 1000,
            ),
        config.wf(),
    ensures
        forall|i: int| 0 <= i < r@.len() ==> (#[trigger] r@[i]).wf(),
        r@.len() == spec_accepted_count(
            lines@.map_values(|l: OptimizedLine| l.data),
            city_lat as int,
            city_lon as int,
            *config,
            lines@.len() as int,
        ),
        r@.map_values(|inf: Influence| spec_influence_view(inf)) == spec_accepted_views(
            lines@.map_values(|l: OptimizedLine| l.data),
            city_lat as int,
            city_lon as int,
            *config,
            lines@.len() as int,
        ),
        r@.len() <= lines@.len(),
{
    let mut influences: Vec<Influence> = Vec::new();
    let ghost datas = lines@.map_values(|l: OptimizedLine| l.data);
    let mut i: usize = 0;
    while i < lines.len()
        invariant
            i <= lines@.len(),
            datas == lines@.map_values(|l: OptimizedLine| l.data),
            influences@.len() == spec_accepted_count(
                datas,
                city_lat as int,
                city_lon as int,
                *config,
                i as int,
            ),
            influences@.map_values(|inf: Influence| spec_influence_view(inf))
                == spec_accepted_views(
                datas,
                city_lat as int,
                city_lon as int,
                *config,
                i as int,
            ),
            influences@.len() <= i,
            -90_000_000 <= city_lat <= 90_000_000,
            -180_000_000 <= city_lon <= 180_000_000,
            config.wf(),
            forall|j: int| 0 <= j < lines@.len() ==> (#[trigger] lines@[j]).wf(),
            forall|j: int|
                0 <= j < lines@.len() ==> (#[trigger] lines@[j]).bbox == spec_line_bbox(
                    lines@[j].data.points@,
                    config.max_distance_km * 1000,
                ),
            forall|j: int| 0 <= j < influences@.len() ==> (#[trigger] influences@[j]).wf(),
        decreases lines@.len() - i,
    {
        let line = &lines[i];
        let ghost pre = influences@;
        if line.bbox.might_contain(city_lat, city_lon) {
            let distance = geo::distance_to_polyline(city_lat, city_lon, &line.data.points);
            if distance <= config.max_distance_km * 1000 {
                influences.push(Influence {
                    planet: clone_string(&line.data.planet),
                    angle: clone_string(&line.data.angle),
                    rating: line.data.rating,
                    aspect: line.data.aspect,
                    distance_m: distance,
                });
            }
        }
        proof {
            assert(datas[i as int] == lines@[i as int].data);
            assert(influences@.map_values(|inf: Influence| spec_influence_view(inf))
                =~= spec_accepted_views(
                datas,
                city_lat as int,
                city_lon as int,
                *config,
                i as int + 1,
            ));
        }
        i = i + 1;
    }
    influences
}

/// Score one city against a set of lines: collect the influences within
/// the cut-off and aggregate them.
pub fn scout_city(
    city_name: &str,
    country: &str,
    city_lat: i64,
    city_lon: i64,
    lines: &Vec<LineData>,
    config: &ScoringConfig,
) -> (r: CityScore)
    requires
        -90_000_000 <= city_lat <= 90_000_000,
        -180_000_000 <= city_lon <= 180_000_000,
        forall|i: int| 0 <= i < lines@.len() ==> (#[trigger] lines@[i]).wf(),
        config.wf(),
    ensures
        r.wf(),
        r.city_name@ == city_name@,
        r.country@ == country@,
        r.latitude_udeg == city_lat,
        r.longitude_udeg == city_lon,
        r.influence_count == spec_accepted_count(
            lines@,
            city_lat as int,
            city_lon as int,
            *config,
            lines@.len() as int,
        ),
        ({
            let views = spec_accepted_views(
                lines@,
                city_lat as int,
                city_lon as int,
                *config,
                lines@.len() as int,
            );
            let sorted = crate::rank::spec_stable_sort(
                spec_contributions_of_views(views, *config),
            );
            let k = if sorted.len() >= 7 {
                7int
            } else {
                sorted.len() as int
            };
            &&& r.benefit_milli == 50_000 + (21 * crate::scoring::spec_wsum_benefit(sorted, k))
                / 20_000_000
            &&& r.intensity_milli == (21 * crate::scoring::spec_wsum_intensity(sorted, k))
                / 10_000_000
            &&& r.volatility_milli == (crate::trig::spec_isqrt(
                crate::scoring::spec_wsum_pos(sorted, k) * crate::scoring::spec_wsum_neg(sorted, k),
            ) * 42_000) / 10_000_000_000
            &&& r.mixed_flag == (crate::scoring::spec_wsum_pos(sorted, k) > 5_000_000_000
                && crate::scoring::spec_wsum_neg(sorted, k) > 5_000_000_000)
            &&& r.min_distance_m == spec_min_distance_views(views, views.len() as int)
        }),
{
    let optimized = optimize_lines(lines, config.max_distance_km);
    let influences = build_influences(city_lat, city_lon, &optimized, config);
    proof {
        lemma_accepted_count_matches(
            optimized@.map_values(|l: OptimizedLine| l.data),
            lines@,
            city_lat as int,
            city_lon as int,
            *config,
            lines@.len() as int,
        );
        lemma_accepted_views_matches(
            optimized@.map_values(|l: OptimizedLine| l.data),
            lines@,
            city_lat as int,
            city_lon as int,
            *config,
            lines@.len() as int,
        );
        lemma_scores_from_views(influences@, *config, influences@.len() as int);
        assert(influences@.map_values(|inf: Influence| spec_influence_view(inf)).len()
            == influences@.len());
    }
    let set = CityInfluenceSet {
        city_name: city_name.to_owned(),
        country: country.to_owned(),
        latitude_udeg: city_lat,
        longitude_udeg: city_lon,
        influences,
    };
    calculate_city_score(&set, config)
}

/// The rankings the first `k` cities earn from the lines, qualifying
/// cities only, in input order.
pub open spec fn spec_expected_rankings_cities(
    cities: Seq<CityData>,
    lines: Seq<LineData>,
    category: LifeCategory,
    config: ScoringConfig,
    k: int,
) -> Seq<
    (Seq<u8>, Seq<u8>, int, int, int, int, int, bool, Seq<(Seq<u8>, Seq<u8>, int)>, crate::scoring::LineNature),
>
    decreases k,
{
    if k <= 0 {
        Seq::empty()
    } else {
        let prev = spec_expected_rankings_cities(cities, lines, category, config, k - 1);
        let views = spec_accepted_views(
            lines,
            cities[k - 1].lat_udeg as int,
            cities[k - 1].lon_udeg as int,
            config,
            lines.len() as int,
        );
        if spec_count_relevant_views(views, category, views.len() as int) > 0 {
            prev.push(
                crate::rank::spec_ranking_of_views(
                    vstd::utf8::encode_utf8(cities[k - 1].name@),
                    vstd::utf8::encode_utf8(cities[k - 1].country@),
                    cities[k - 1].lat_udeg as int,
                    cities[k - 1].lon_udeg as int,
                    views,
                    category,
                    config,
                ),
            )
        } else {
            prev
        }
    }
}

/// Ranking-content bridge: where each set carries the city's names,
/// coordinates and exact influence views, the expected rankings agree.
proof fn lemma_expected_from_sets(
    sets: Seq<CityInfluenceSet>,
    cities: Seq<CityData>,
    lines: Seq<LineData>,
    category: LifeCategory,
    config: ScoringConfig,
    k: int,
)
    requires
        sets.len() == cities.len(),
        0 <= k <= sets.len(),
        forall|j: int|
            0 <= j < sets.len() ==> vstd::utf8::encode_utf8((#[trigger] sets[j]).city_name@)
                == vstd::utf8::encode_utf8(cities[j].name@) && vstd::utf8::encode_utf8(
                sets[j].country@,
            ) == vstd::utf8::encode_utf8(cities[j].country@) && sets[j].latitude_udeg
                == cities[j].lat_udeg && sets[j].longitude_udeg == cities[j].lon_udeg,
        forall|j: int|
            0 <= j < sets.len() ==> (#[trigger] sets[j]).influences@.map_values(
                |inf: Influence| spec_influence_view(inf),
            ) == spec_accepted_views(
                lines,
                cities[j].lat_udeg as int,
                cities[j].lon_udeg as int,
                config,
                lines.len() as int,
            ),
    ensures
        crate::rank::spec_expected_rankings(sets, category, config, k)
            == spec_expected_rankings_cities(cities, lines, category, config, k),
    decreases k,
{
    if k > 0 {
        lemma_expected_from_sets(sets, cities, lines, category, config, k - 1);
        let infs = sets[k - 1].influences@;
        lemma_count_relevant_views(infs, category, infs.len() as int);
        assert(infs.map_values(|inf: Influence| spec_influence_view(inf)).len() == infs.len());
    }
}

/// Qualifying-count bridge: where each set's influences carry exactly the
/// views a city collects from the lines, the per-set count equals the
/// per-city count.
proof fn lemma_qualifying_from_sets(
    sets: Seq<CityInfluenceSet>,
    cities: Seq<CityData>,
    lines: Seq<LineData>,
    category: LifeCategory,
    config: ScoringConfig,
    k: int,
)
    requires
        sets.len() == cities.len(),
        0 <= k <= sets.len(),
        forall|j: int|
            0 <= j < sets.len() ==> (#[trigger] sets[j]).influences@.map_values(
                |inf: Influence| spec_influence_view(inf),
            ) == spec_accepted_views(
                lines,
                cities[j].lat_udeg as int,
                cities[j].lon_udeg as int,
                config,
                lines.len() as int,
            ),
    ensures
        crate::rank::spec_count_qualifying(sets, category, k) == spec_count_qualifying_cities(
            cities,
            lines,
            category,
            config,
            k,
        ),
    decreases k,
{
    if k > 0 {
        lemma_qualifying_from_sets(sets, cities, lines, category, config, k - 1);
        let infs = sets[k - 1].influences@;
        lemma_count_relevant_views(infs, category, infs.len() as int);
        assert(infs.map_values(|inf: Influence| spec_influence_view(inf)).len() == infs.len());
    }
}

/// Scout a city catalogue for a category: influences behind the bounding
/// box screen, then the filtered, scored and sorted rankings.
#[verifier::rlimit(100)]
#[verifier::spinoff_prover]
pub fn scout_cities_for_category(
    cities: &Vec<CityData>,
    lines: &Vec<LineData>,
    category: LifeCategory,
    sort_mode: SortMode,
    config: &ScoringConfig,
) -> (r: Vec<CityRanking>)
    requires
        forall|i: int| 0 <= i < cities@.len() ==> (#[trigger] cities@[i]).wf(),
        forall|i: int| 0 <= i < lines@.len() ==> (#[trigger] lines@[i]).wf(),
        config.wf(),
    ensures
        forall|i: int| 0 <= i < r@.len() ==> (#[trigger] r@[i]).wf(),
        forall|i: int, j: int|
            0 <= i <= j < r@.len() ==> spec_rank_key(
                #[trigger] r@[i],
                sort_mode,
                config.volatility_penalty_milli as int,
            ) >= spec_rank_key(#[trigger] r@[j], sort_mode, config.volatility_penalty_milli as int),
        r@.len() == spec_count_qualifying_cities(
            cities@,
            lines@,
            category,
            *config,
            cities@.len() as int,
        ),
        r@.len() <= cities@.len(),
        r@.map_values(|x: CityRanking| crate::rank::spec_ranking_view(x)).to_multiset()
            == spec_expected_rankings_cities(
            cities@,
            lines@,
            category,
            *config,
            cities@.len() as int,
        ).to_multiset(),
{
    let optimized = optimize_lines(lines, config.max_distance_km);
    let ghost datas = optimized@.map_values(|l: OptimizedLine| l.data);
    proof {
        assert forall|j: int| 0 <= j < lines@.len() implies (#[trigger] datas[j]).points@
            == lines@[j].points@ && datas[j].planet@ == lines@[j].planet@ && datas[j].angle@
            == lines@[j].angle@ && datas[j].rating == lines@[j].rating && datas[j].aspect
            == lines@[j].aspect by {
            assert(datas[j] == optimized@[j].data);
        }
    }
    let mut sets: Vec<CityInfluenceSet> = Vec::new();
    let mut i: usize = 0;
    while i < cities.len()
        invariant
            i <= cities@.len(),
            sets@.len() == i,
            config.wf(),
            optimized@.len() == lines@.len(),
            forall|j: int| 0 <= j < cities@.len() ==> (#[trigger] cities@[j]).wf(),
            forall|j: int| 0 <= j < optimized@.len() ==> (#[trigger] optimized@[j]).wf(),
            forall|j: int|
                0 <= j < optimized@.len() ==> (#[trigger] optimized@[j]).bbox == spec_line_bbox(
                    optimized@[j].data.points@,
                    config.max_distance_km * 1000,
                ),
            datas == optimized@.map_values(|l: OptimizedLine| l.data),
            forall|j: int|
                0 <= j < lines@.len() ==> (#[trigger] datas[j]).points@ == lines@[j].points@
                    && datas[j].planet@ == lines@[j].planet@ && datas[j].angle@
                    == lines@[j].angle@ && datas[j].rating == lines@[j].rating && datas[j].aspect
                    == lines@[j].aspect,
            forall|j: int| 0 <= j < sets@.len() ==> (#[trigger] sets@[j]).wf(),
            forall|j: int|
                0 <= j < sets@.len() ==> (#[trigger] sets@[j]).influences@.map_values(
                    |inf: Influence| spec_influence_view(inf),
                ) == spec_accepted_views(
                    lines@,
                    cities@[j].lat_udeg as int,
                    cities@[j].lon_udeg as int,
                    *config,
                    lines@.len() as int,
                ),
            forall|j: int|
                0 <= j < sets@.len() ==> vstd::utf8::encode_utf8(
                    (#[trigger] sets@[j]).city_name@,
                ) == vstd::utf8::encode_utf8(cities@[j].name@) && vstd::utf8::encode_utf8(
                    sets@[j].country@,
                ) == vstd::utf8::encode_utf8(cities@[j].country@) && sets@[j].latitude_udeg
                    == cities@[j].lat_udeg && sets@[j].longitude_udeg == cities@[j].lon_udeg,
        decreases cities@.len() - i,
    {
        let city = &cities[i];
        let influences = build_influences(city.lat_udeg, city.lon_udeg, &optimized, config);
        proof {
            lemma_accepted_views_matches(
                datas,
                lines@,
                city.lat_udeg as int,
                city.lon_udeg as int,
                *config,
                lines@.len() as int,
            );
        }
        sets.push(CityInfluenceSet {
            city_name: clone_string(&city.name),
            country: clone_string(&city.country),
            latitude_udeg: city.lat_udeg,
            longitude_udeg: city.lon_udeg,
            influences,
        });
        i = i + 1;
    }
    proof {
        lemma_qualifying_from_sets(
            sets@,
            cities@,
            lines@,
            category,
            *config,
            cities@.len() as int,
        );
        lemma_expected_from_sets(
            sets@,
            cities@,
            lines@,
            category,
            *config,
            cities@.len() as int,
        );
    }
    rank_cities_by_category(&sets, category, config, sort_mode)
}

/// Sum of the latitudes of the first `k` points, micro-degrees.
pub open spec fn spec_lat_sum(points: Seq<GlobePoint>, k: int) -> int
    decreases k,
{
    if k <= 0 {
        0
    } else {
        spec_lat_sum(points, k - 1) + points[k - 1].lat_udeg
    }
}

/// Sum of the longitudes of the first `k` points, micro-degrees.
pub open spec fn spec_lon_sum(points: Seq<GlobePoint>, k: int) -> int
    decreases k,
{
    if k <= 0 {
        0
    } else {
        spec_lon_sum(points, k - 1) + points[k - 1].lng_udeg
    }
}

/// A line simplified for the fast scouting paths, with its box and a
/// centroid for the cheapest rejection test.
pub struct SimplifiedLine {
    pub planet: String,
    pub angle: String,
    pub rating: u8,
    pub aspect: Option<AspectType>,
    pub points: Vec<GlobePoint>,
    pub bbox: geo::LineBoundingBox,
    pub centroid_lat_udeg: i64,
    pub centroid_lon_udeg: i64,
}

impl SimplifiedLine {
    /// Valid fields and centroid on the map.
    pub open spec fn wf(self) -> bool {
        &&& 1 <= self.rating <= 5
        &&& forall|i: int| 0 <= i < self.points@.len() ==> (#[trigger] self.points@[i]).wf()
        &&& self.bbox.wf()
        &&& -90_000_000 <= self.centroid_lat_udeg <= 90_000_000
        &&& -180_000_000 <= self.centroid_lon_udeg <= 180_000_000
    }

    /// Simplify a line's polyline and precompute its box and centroid.
    pub fn from_line_data(line: &LineData, max_distance_km: i64, simplify_tolerance_udeg: i64) -> (r: SimplifiedLine)
        requires
            line.wf(),
            0 <= max_distance_km <= 100_000,
            0 <= simplify_tolerance_udeg <= 360_000_000,
        ensures
            r.wf(),
            r.planet@ == line.planet@,
            r.angle@ == line.angle@,
            r.rating == line.rating,
            r.aspect == line.aspect,
            r.points@.len() <= line.points@.len(),
            line.points@.len() <= 2 ==> r.points@ == line.points@,
            exists|idx: Seq<int>| #[trigger] geo::spec_subsequence_of(r.points@, line.points@, idx),
            r.bbox == spec_line_bbox(r.points@, max_distance_km * 1000),
            r.points@.len() == 0 ==> r.centroid_lat_udeg == 0 && r.centroid_lon_udeg == 0,
            r.points@.len() > 0 ==> r.centroid_lat_udeg == crate::fixmath::spec_divv(
                spec_lat_sum(r.points@, r.points@.len() as int),
                r.points@.len() as int,
            ) && r.centroid_lon_udeg == crate::fixmath::spec_divv(
                spec_lon_sum(r.points@, r.points@.len() as int),
                r.points@.len() as int,
            ),
    {
        let simplified = if simplify_tolerance_udeg > 0 {
            geo::simplify_polyline(&line.points, simplify_tolerance_udeg)
        } else {
            geo::simplify_polyline(&line.points, 0)
        };
        let bbox = geo::LineBoundingBox::from_points(&simplified, max_distance_km * 1000);
        let n = simplified.len();
        let mut sum_lat: i128 = 0;
        let mut sum_lon: i128 = 0;
        let mut k: usize = 0;
        while k < simplified.len()
            invariant
                k <= simplified@.len(),
                forall|j: int| 0 <= j < simplified@.len() ==> (#[trigger] simplified@[j]).wf(),
                -(k as int) * 90_000_000 <= sum_lat <= (k as int) * 90_000_000,
                -(k as int) * 180_000_000 <= sum_lon <= (k as int) * 180_000_000,
                sum_lat == spec_lat_sum(simplified@, k as int),
                sum_lon == spec_lon_sum(simplified@, k as int),
            decreases simplified@.len() - k,
        {
            sum_lat = sum_lat + (simplified[k].lat_udeg as i128);
            sum_lon = sum_lon + (simplified[k].lng_udeg as i128);
            k = k + 1;
        }
        let (c_lat, c_lon): (i64, i64) = if n == 0 {
            (0, 0)
        } else {
            let nn = n as i128;
            let la = crate::fixmath::divv(sum_lat, nn * 90_000_000, nn, nn);
            let lo = crate::fixmath::divv(sum_lon, nn * 180_000_000, nn, nn);
            proof {
                assert((nn * 90_000_000) as int / (nn as int) == 90_000_000) by (nonlinear_arith)
                    requires nn >= 1;
                assert((nn * 180_000_000) as int / (nn as int) == 180_000_000) by (nonlinear_arith)
                    requires nn >= 1;
            }
            ((la) as i64, (lo) as i64)
        };
        SimplifiedLine {
            planet: clone_string(&line.planet),
            angle: clone_string(&line.angle),
            rating: line.rating,
            aspect: line.aspect,
            points: simplified,
            bbox,
            centroid_lat_udeg: c_lat,
            centroid_lon_udeg: c_lon,
        }
    }
}

/// The cheap estimate used by the fast paths (flat-Earth approximation).
pub fn fast_distance_estimate(lat1: i64, lon1: i64, lat2: i64, lon2: i64) -> (r: i64)
    requires
        -90_000_000 <= lat1 <= 90_000_000,
        -90_000_000 <= lat2 <= 90_000_000,
        -360_000_000 <= lon1 <= 360_000_000,
        -360_000_000 <= lon2 <= 360_000_000,
    ensures
        r == geo::spec_equirectangular(lat1 as int, lon1 as int, lat2 as int, lon2 as int),
        0 <= r <= 100_000_000,
{
    geo::equirectangular_distance_approx(lat1, lon1, lat2, lon2)
}


/// Minimum flat estimate to the polyline's points, over the first `k`.
pub open spec fn spec_min_endpoint_estimate(
    lat: int,
    lon: int,
    points: Seq<GlobePoint>,
    k: int,
) -> int
    decreases k,
{
    if k <= 0 {
        100_000_000
    } else {
        let prev = spec_min_endpoint_estimate(lat, lon, points, k - 1);
        let d = geo::spec_equirectangular(
            lat,
            lon,
            points[k - 1].lat_udeg as int,
            points[k - 1].lng_udeg as int,
        );
        if d < prev {
            d
        } else {
            prev
        }
    }
}

/// Exact model of the fast distance: the centroid screen, the box screen,
/// the flat endpoint screen, then the exact distance against the
/// threshold.
#[verifier::opaque]
pub open spec fn spec_fast_distance(lat: int, lon: int, line: SimplifiedLine, threshold_m: int) -> Option<int> {
    let centroid_dist = geo::spec_equirectangular(
        lat,
        lon,
        line.centroid_lat_udeg as int,
        line.centroid_lon_udeg as int,
    );
    let dlat = line.bbox.max_lat_udeg - line.bbox.min_lat_udeg;
    let dlon = line.bbox.max_lon_udeg - line.bbox.min_lon_udeg;
    let diag_m = (crate::trig::spec_isqrt(dlat * dlat + dlon * dlon) * 111_320) / 1_000_000;
    if centroid_dist > diag_m + threshold_m + 200_000 {
        None
    } else if !line.bbox.spec_might_contain(lat, lon) {
        None
    } else if line.points@.len() > 1 && spec_min_endpoint_estimate(
        lat,
        lon,
        line.points@,
        line.points@.len() as int,
    ) > threshold_m + threshold_m / 5 {
        None
    } else {
        let d = geo::spec_polyline_distance(lat, lon, line.points@);
        if d <= threshold_m {
            Some(d)
        } else {
            None
        }
    }
}

/// Fast distance from a city to a simplified line: the centroid screen,
/// the box screen and a per-segment flat screen run first; only survivors
/// pay for the exact distance.  `Some` exactly reports a distance within
/// the threshold.
#[verifier::rlimit(100)]
#[verifier::spinoff_prover]
pub fn fast_distance_to_polyline(
    city_lat: i64,
    city_lon: i64,
    line: &SimplifiedLine,
    threshold_m: i64,
) -> (r: Option<i64>)
    requires
        -90_000_000 <= city_lat <= 90_000_000,
        -180_000_000 <= city_lon <= 180_000_000,
        line.wf(),
        0 <= threshold_m <= 100_000_000,
    ensures
        r == (match spec_fast_distance(city_lat as int, city_lon as int, *line, threshold_m as int) {
            None => None::<i64>,
            Some(d) => Some(d as i64),
        }),
        spec_fast_distance(city_lat as int, city_lon as int, *line, threshold_m as int) matches Some(
            d,
        ) ==> 0 <= d <= threshold_m,
        r matches Some(d) ==> 0 <= d <= threshold_m,
{
    proof {
        reveal(spec_fast_distance);
    }
    // Centroid rejection: farther than the box diagonal plus threshold
    // plus a safety margin cannot be within range.
    let centroid_dist = fast_distance_estimate(
        city_lat,
        city_lon,
        line.centroid_lat_udeg,
        line.centroid_lon_udeg,
    );
    let dlat: i128 = (line.bbox.max_lat_udeg - line.bbox.min_lat_udeg) as i128;
    let dlon: i128 = (line.bbox.max_lon_udeg - line.bbox.min_lon_udeg) as i128;
    let diag2 = crate::fixmath::mulb(dlat, 180_000_000, dlat, 180_000_000)
        + crate::fixmath::mulb(dlon, 360_000_000, dlon, 360_000_000);
    proof {
        assert(diag2 >= 0) by (nonlinear_arith)
            requires diag2 == dlat * dlat + dlon * dlon;
    }
    let diag_udeg = crate::trig::isqrt_i128(diag2);
    proof {
        assert(diag_udeg <= 450_000_000) by (nonlinear_arith)
            requires
                diag_udeg * diag_udeg <= diag2,
                diag2 <= 180_000_000 * 180_000_000 + 360_000_000 * 360_000_000,
                diag_udeg >= 0;
    }
    let diag_m: i64 = (crate::fixmath::divb(
        diag_udeg * 111_320,
        50_094_000_000_000_000,
        1_000_000,
    )) as i64;
    if centroid_dist > diag_m + threshold_m + 200_000 {
        return None;
    }
    if !line.bbox.might_contain(city_lat, city_lon) {
        return None;
    }
    // Flat screen against the segment endpoints.
    if line.points.len() > 1 {
        let mut min_fast: i64 = 100_000_000;
        let mut i: usize = 0;
        while i < line.points.len()
            invariant
                i <= line.points@.len(),
                min_fast == spec_min_endpoint_estimate(
                    city_lat as int,
                    city_lon as int,
                    line.points@,
                    i as int,
                ),
                0 <= min_fast <= 100_000_000,
                -90_000_000 <= city_lat <= 90_000_000,
                -180_000_000 <= city_lon <= 180_000_000,
                forall|j: int| 0 <= j < line.points@.len() ==> (#[trigger] line.points@[j]).wf(),
            decreases line.points@.len() - i,
        {
            let p = line.points[i];
            let d = fast_distance_estimate(city_lat, city_lon, p.lat_udeg, p.lng_udeg);
            if d < min_fast {
                min_fast = d;
            }
            i = i + 1;
        }
        // Twenty percent margin for the approximation error.
        if min_fast > threshold_m + threshold_m / 5 {
            return None;
        }
    }
    let accurate = geo::distance_to_polyline(city_lat, city_lon, &line.points);
    if accurate <= threshold_m {
        Some(accurate)
    } else {
        None
    }
}

/// One scored grid sample.
pub struct GridPoint {
    pub lat_udeg: i64,
    pub lon_udeg: i64,
    pub score_milli: i64,
    pub influence_count: usize,
}

impl GridPoint {
    /// On the map with a score in range.
    pub open spec fn wf(self) -> bool {
        &&& -90_000_000 <= self.lat_udeg <= 90_000_000
        &&& -180_000_000 <= self.lon_udeg <= 180_000_000
        &&& 0 <= self.score_milli <= 100_000
    }
}

/// The hierarchical grid result: scored points and the zones they came
/// from.
pub struct GridResult {
    pub points: Vec<GridPoint>,
    pub hot_zones: Vec<(i64, i64, i64)>,
}


/// The fast scorer's running pair over the first `k` lines: the summed
/// benefit contribution of every category-relevant line within reach, and
/// how many there were.
pub open spec fn spec_grid_accumulate(
    lines: Seq<SimplifiedLine>,
    lat: int,
    lon: int,
    category: LifeCategory,
    config: ScoringConfig,
    k: int,
) -> (int, int)
    decreases k,
{
    if k <= 0 {
        (0, 0)
    } else {
        let prev = spec_grid_accumulate(lines, lat, lon, category, config, k - 1);
        let line = lines[k - 1];
        let relevant = crate::scoring::spec_is_beneficial(
            vstd::utf8::encode_utf8(line.planet@),
            vstd::utf8::encode_utf8(line.angle@),
            category,
        ) || crate::scoring::spec_is_challenging(
            vstd::utf8::encode_utf8(line.planet@),
            vstd::utf8::encode_utf8(line.angle@),
            category,
        );
        if relevant {
            match spec_fast_distance(lat, lon, line, config.max_distance_km * 1000) {
                Some(d) => {
                    let kernel = crate::scoring::spec_apply_kernel(d, config);
                    let mult = crate::scoring::spec_benefit_mult_c(line.aspect);
                    (prev.0 + ((line.rating - 3) * mult) * kernel, prev.1 + 1)
                },
                None => prev,
            }
        } else {
            prev
        }
    }
}

/// The fast grid score: fifty points plus the summed benefit at the usual
/// scale, clamped into range (the fast path has no top-seven truncation,
/// so the clamp is part of its definition).
pub open spec fn spec_grid_score(
    lines: Seq<SimplifiedLine>,
    lat: int,
    lon: int,
    category: LifeCategory,
    config: ScoringConfig,
) -> int {
    let total = spec_grid_accumulate(lines, lat, lon, category, config, lines.len() as int).0;
    let raw = 50_000 + (21 * total) / 20_000_000;
    if raw < 0 {
        0
    } else if raw > 100_000 {
        100_000
    } else {
        raw
    }
}


/// One line's part in the fast grid score: the benefit contribution and
/// whether the line counted.
#[verifier::rlimit(100)]
#[verifier::spinoff_prover]
fn grid_line_contribution(
    lat: i64,
    lon: i64,
    line: &SimplifiedLine,
    category: LifeCategory,
    config: &ScoringConfig,
) -> (r: (i64, bool))
    requires
        -90_000_000 <= lat <= 90_000_000,
        -180_000_000 <= lon <= 180_000_000,
        line.wf(),
        config.wf(),
    ensures
        ({
            let relevant = crate::scoring::spec_is_beneficial(
                vstd::utf8::encode_utf8(line.planet@),
                vstd::utf8::encode_utf8(line.angle@),
                category,
            ) || crate::scoring::spec_is_challenging(
                vstd::utf8::encode_utf8(line.planet@),
                vstd::utf8::encode_utf8(line.angle@),
                category,
            );
            if relevant {
                match spec_fast_distance(lat as int, lon as int, *line, config.max_distance_km * 1000) {
                    Some(d) => r.1 && r.0 == ((line.rating - 3)
                        * crate::scoring::spec_benefit_mult_c(line.aspect))
                        * crate::scoring::spec_apply_kernel(d, *config),
                    None => !r.1 && r.0 == 0,
                }
            } else {
                !r.1 && r.0 == 0
            }
        }),
        -200_000_000 <= r.0 <= 200_000_000,
{
    let relevant = is_beneficial_for_category(line.planet.as_str(), line.angle.as_str(), category)
        || is_challenging_for_category(line.planet.as_str(), line.angle.as_str(), category);
    if !relevant {
        return (0, false);
    }
    match fast_distance_to_polyline(lat, lon, line, config.max_distance_km * 1000) {
        Some(distance) => {
            let kernel = apply_kernel(distance, config);
            let base = rating_to_benefit(line.rating);
            let mult: i64 = match line.aspect {
                Some(a) => aspect_benefit_multiplier(a),
                None => 100,
            };
            proof {
                assert(-200 <= base * mult <= 200) by (nonlinear_arith)
                    requires
                        -2 <= base <= 2,
                        -100 <= mult <= 100;
                assert(-200_000_000 <= (base * mult) * kernel <= 200_000_000) by (nonlinear_arith)
                    requires
                        -200 <= base * mult <= 200,
                        0 <= kernel <= 1_000_000;
            }
            (base * mult * kernel, true)
        },
        None => (0, false),
    }
}

/// Score a single grid point against the category-relevant lines, the fast
/// way: benefit contributions only, summed and mapped to the fifty-centred
/// scale, clamped into range.
#[verifier::rlimit(100)]
#[verifier::spinoff_prover]
pub fn score_grid_point(
    lat: i64,
    lon: i64,
    lines: &Vec<SimplifiedLine>,
    category: LifeCategory,
    config: &ScoringConfig,
) -> (r: (i64, usize))
    requires
        -90_000_000 <= lat <= 90_000_000,
        -180_000_000 <= lon <= 180_000_000,
        forall|i: int| 0 <= i < lines@.len() ==> (#[trigger] lines@[i]).wf(),
        config.wf(),
    ensures
        r.0 == spec_grid_score(lines@, lat as int, lon as int, category, *config),
        r.1 == spec_grid_accumulate(
            lines@,
            lat as int,
            lon as int,
            category,
            *config,
            lines@.len() as int,
        ).1,
        0 <= r.0 <= 100_000,
        r.1 <= lines@.len(),
{
    let mut total_benefit: i128 = 0;
    let mut count: usize = 0;
    let mut i: usize = 0;
    while i < lines.len()
        invariant
            i <= lines@.len(),
            count <= i,
            total_benefit == spec_grid_accumulate(
                lines@,
                lat as int,
                lon as int,
                category,
                *config,
                i as int,
            ).0,
            count == spec_grid_accumulate(
                lines@,
                lat as int,
                lon as int,
                category,
                *config,
                i as int,
            ).1,
            -90_000_000 <= lat <= 90_000_000,
            -180_000_000 <= lon <= 180_000_000,
            config.wf(),
            forall|j: int| 0 <= j < lines@.len() ==> (#[trigger] lines@[j]).wf(),
            -(i as int) * 200_000_000 <= total_benefit <= (i as int) * 200_000_000,
        decreases lines@.len() - i,
    {
        let (contribution, counted) = grid_line_contribution(lat, lon, &lines[i], category, config);
        total_benefit = total_benefit + (contribution as i128);
        if counted {
            count = count + 1;
        }
        i = i + 1;
    }
    // score = 50 + benefit * 10.5 points, clamped; the fast path has no
    // top-seven truncation, so the clamp is load-bearing here.
    let raw_milli: i128 = 50_000 + crate::fixmath::divc(21 * total_benefit, 20_000_000);
    let score: i64 = if raw_milli < 0 {
        0
    } else if raw_milli > 100_000 {
        100_000
    } else {
        raw_milli as i64
    };
    (score, count)
}

/// Score every point of a grid.
fn score_grid(
    grid: &Vec<GlobePoint>,
    lines: &Vec<SimplifiedLine>,
    category: LifeCategory,
    config: &ScoringConfig,
) -> (r: Vec<GridPoint>)
    requires
        forall|i: int| 0 <= i < grid@.len() ==> (#[trigger] grid@[i]).wf(),
        forall|i: int| 0 <= i < lines@.len() ==> (#[trigger] lines@[i]).wf(),
        config.wf(),
    ensures
        r@.len() == grid@.len(),
        forall|i: int| 0 <= i < r@.len() ==> (#[trigger] r@[i]).wf(),
        forall|i: int|
            0 <= i < r@.len() ==> (#[trigger] r@[i]).lat_udeg == grid@[i].lat_udeg
                && r@[i].lon_udeg == grid@[i].lng_udeg && r@[i].score_milli == spec_grid_score(
                lines@,
                grid@[i].lat_udeg as int,
                grid@[i].lng_udeg as int,
                category,
                *config,
            ),
{
    let mut out: Vec<GridPoint> = Vec::new();
    let mut i: usize = 0;
    while i < grid.len()
        invariant
            i <= grid@.len(),
            out@.len() == i,
            config.wf(),
            forall|j: int| 0 <= j < grid@.len() ==> (#[trigger] grid@[j]).wf(),
            forall|j: int| 0 <= j < lines@.len() ==> (#[trigger] lines@[j]).wf(),
            forall|j: int| 0 <= j < out@.len() ==> (#[trigger] out@[j]).wf(),
            forall|j: int|
                0 <= j < out@.len() ==> (#[trigger] out@[j]).lat_udeg == grid@[j].lat_udeg
                    && out@[j].lon_udeg == grid@[j].lng_udeg && out@[j].score_milli
                    == spec_grid_score(
                    lines@,
                    grid@[j].lat_udeg as int,
                    grid@[j].lng_udeg as int,
                    category,
                    *config,
                ),
        decreases grid@.len() - i,
    {
        let p = grid[i];
        let (score, n) = score_grid_point(p.lat_udeg, p.lng_udeg, lines, category, config);
        out.push(GridPoint {
            lat_udeg: p.lat_udeg,
            lon_udeg: p.lng_udeg,
            score_milli: score,
            influence_count: n,
        });
        i = i + 1;
    }
    out
}

/// Hot zones of a scored grid: the points with any influence whose score
/// reaches the top percentile band, each opened to a square of the given
/// radius.
fn identify_hot_zones(results: &Vec<GridPoint>, percentile_milli: i64, radius_udeg: i64) -> (r: Vec<(i64, i64, i64)>)
    requires
        forall|i: int| 0 <= i < results@.len() ==> (#[trigger] results@[i]).wf(),
        0 <= percentile_milli <= 1000,
        0 <= radius_udeg <= 10_000_000,
    ensures
        forall|i: int|
            0 <= i < r@.len() ==> -90_000_000 <= (#[trigger] r@[i]).0 <= 90_000_000
                && -180_000_000 <= r@[i].1 <= 180_000_000 && 0 <= r@[i].2 <= 10_000_000,
{
    // Collect the scores of the points that saw any influence.
    let mut scores: Vec<i64> = Vec::new();
    let mut i: usize = 0;
    while i < results.len()
        invariant
            i <= results@.len(),
            forall|j: int| 0 <= j < results@.len() ==> (#[trigger] results@[j]).wf(),
            forall|j: int| 0 <= j < scores@.len() ==> 0 <= #[trigger] scores@[j] <= 100_000,
        decreases results@.len() - i,
    {
        let p = &results[i];
        if p.influence_count > 0 {
            scores.push(p.score_milli);
        }
        i = i + 1;
    }
    if scores.len() == 0 {
        return Vec::new();
    }
    // The threshold: the score at the percentile index of the descending
    // order, found by counting rather than sorting.
    let threshold = kth_largest(&scores, percentile_milli);
    let mut zones: Vec<(i64, i64, i64)> = Vec::new();
    let mut j: usize = 0;
    while j < results.len()
        invariant
            j <= results@.len(),
            0 <= radius_udeg <= 10_000_000,
            forall|k: int| 0 <= k < results@.len() ==> (#[trigger] results@[k]).wf(),
            forall|k: int|
                0 <= k < zones@.len() ==> -90_000_000 <= (#[trigger] zones@[k]).0 <= 90_000_000
                    && -180_000_000 <= zones@[k].1 <= 180_000_000 && 0 <= zones@[k].2
                    <= 10_000_000,
        decreases results@.len() - j,
    {
        let p = &results[j];
        if p.influence_count > 0 && p.score_milli >= threshold {
            zones.push((p.lat_udeg, p.lon_udeg, radius_udeg));
        }
        j = j + 1;
    }
    zones
}

/// The value at the given per-mille rank of the descending order of a
/// non-empty score list (approximately: the smallest score that at most
/// that share of the scores strictly exceed).
fn kth_largest(scores: &Vec<i64>, per_mille: i64) -> (r: i64)
    requires
        scores@.len() > 0,
        0 <= per_mille <= 1000,
        forall|j: int| 0 <= j < scores@.len() ==> 0 <= #[trigger] scores@[j] <= 100_000,
    ensures
        0 <= r <= 100_000,
{
    // Rank to reach, rounded up.
    let len = scores.len();
    proof {
        assert((len as int) * (per_mille as int) <= 0xffff_ffff_ffff_ffff * 1000) by (nonlinear_arith)
            requires
                0 <= per_mille <= 1000,
                0 <= len <= 0xffff_ffff_ffff_ffff;
    }
    let want_wide: u128 = ((len as u128) * (per_mille as u128) + 999) / 1000;
    proof {
        assert(((len as int) * (per_mille as int) + 999) / 1000 <= len as int) by (nonlinear_arith)
            requires
                0 <= per_mille <= 1000,
                len >= 0;
    }
    let want: usize = want_wide as usize;
    // For each candidate score from the list, count how many scores
    // strictly exceed it; pick the largest candidate whose exceed-count is
    // within the wanted rank.  Quadratic but grids are small.
    let mut best: i64 = 0;
    let mut have: bool = false;
    let mut i: usize = 0;
    while i < len
        invariant
            len == scores@.len(),
            i <= len,
            have ==> 0 <= best <= 100_000,
            !have ==> best == 0,
            forall|j: int| 0 <= j < scores@.len() ==> 0 <= #[trigger] scores@[j] <= 100_000,
        decreases len - i,
    {
        let cand = scores[i];
        let mut above: usize = 0;
        let mut j: usize = 0;
        while j < len
            invariant
                len == scores@.len(),
                j <= len,
                above <= j,
                forall|k: int| 0 <= k < scores@.len() ==> 0 <= #[trigger] scores@[k] <= 100_000,
                0 <= cand <= 100_000,
            decreases len - j,
        {
            if scores[j] > cand {
                above = above + 1;
            }
            j = j + 1;
        }
        if above <= want {
            if !have || cand > best {
                best = cand;
                have = true;
            }
        }
        i = i + 1;
    }
    best
}

/// Hierarchical grid scout: a coarse five-degree pass over the populated
/// band, a one-degree pass inside its hot zones, and a quarter-degree pass
/// inside the best of those; each phase keeps only the top percentile
/// band.
pub fn scout_grid_optimized(
    lines: &Vec<LineData>,
    category: LifeCategory,
    config: &ScoringConfig,
) -> (r: GridResult)
    requires
        forall|i: int| 0 <= i < lines@.len() ==> (#[trigger] lines@[i]).wf(),
        config.wf(),
    ensures
        forall|i: int| 0 <= i < r.points@.len() ==> (#[trigger] r.points@[i]).wf(),
        r.points@.len() > 0,
        exists|simp: Seq<SimplifiedLine>|
            #[trigger] spec_simplified_of(simp, lines@, config.max_distance_km as int) && (forall|
                i: int,
            |
                0 <= i < r.points@.len() ==> (#[trigger] r.points@[i]).score_milli
                    == spec_grid_score(
                    simp,
                    r.points@[i].lat_udeg as int,
                    r.points@[i].lon_udeg as int,
                    category,
                    *config,
                )),
{
    let simplified = simplify_lines(lines, config.max_distance_km, 100_000);
    proof {
        assert(spec_simplified_of(simplified@, lines@, config.max_distance_km as int));
    }
    let coarse_grid = geo::generate_coarse_grid();
    let coarse = score_grid(&coarse_grid, &simplified, category, config);
    let hot_zones = identify_hot_zones(&coarse, 200, 5_000_000);
    if hot_zones.len() == 0 {
        return GridResult { points: coarse, hot_zones: Vec::new() };
    }
    let regional_grid = geo::generate_regional_grid(&hot_zones);
    let regional = score_grid(&regional_grid, &simplified, category, config);
    let top_zones = identify_hot_zones(&regional, 100, 1_000_000);
    if top_zones.len() == 0 {
        return GridResult { points: regional, hot_zones };
    }
    let fine_grid = geo::generate_fine_grid(&top_zones);
    let fine = score_grid(&fine_grid, &simplified, category, config);
    GridResult { points: fine, hot_zones: top_zones }
}

/// Simplify every line for the fast paths.
pub fn simplify_lines(lines: &Vec<LineData>, max_distance_km: i64, tolerance_udeg: i64) -> (r: Vec<SimplifiedLine>)
    requires
        forall|i: int| 0 <= i < lines@.len() ==> (#[trigger] lines@[i]).wf(),
        0 <= max_distance_km <= 100_000,
        0 <= tolerance_udeg <= 360_000_000,
    ensures
        r@.len() == lines@.len(),
        forall|i: int| 0 <= i < r@.len() ==> (#[trigger] r@[i]).wf(),
        forall|i: int|
            0 <= i < r@.len() ==> (#[trigger] r@[i]).planet@ == lines@[i].planet@ && r@[i].angle@
                == lines@[i].angle@ && r@[i].rating == lines@[i].rating && r@[i].aspect
                == lines@[i].aspect && r@[i].bbox == spec_line_bbox(
                r@[i].points@,
                max_distance_km * 1000,
            ) && (exists|idx: Seq<int>|
                #[trigger] geo::spec_subsequence_of(r@[i].points@, lines@[i].points@, idx)),
{
    let mut out: Vec<SimplifiedLine> = Vec::new();
    let mut i: usize = 0;
    while i < lines.len()
        invariant
            i <= lines@.len(),
            out@.len() == i,
            0 <= max_distance_km <= 100_000,
            0 <= tolerance_udeg <= 360_000_000,
            forall|j: int| 0 <= j < lines@.len() ==> (#[trigger] lines@[j]).wf(),
            forall|j: int| 0 <= j < out@.len() ==> (#[trigger] out@[j]).wf(),
            forall|j: int|
                0 <= j < out@.len() ==> (#[trigger] out@[j]).planet@ == lines@[j].planet@
                    && out@[j].angle@ == lines@[j].angle@ && out@[j].rating == lines@[j].rating
                    && out@[j].aspect == lines@[j].aspect && out@[j].bbox == spec_line_bbox(
                    out@[j].points@,
                    max_distance_km * 1000,
                ) && (exists|idx: Seq<int>|
                    #[trigger] geo::spec_subsequence_of(out@[j].points@, lines@[j].points@, idx)),
        decreases lines@.len() - i,
    {
        out.push(SimplifiedLine::from_line_data(&lines[i], max_distance_km, tolerance_udeg));
        i = i + 1;
    }
    out
}

/// Whether a simplified line set is a faithful simplification of the
/// lines: same names, ratings and aspects, an exact buffered box over the
/// kept points, and the kept points an order-preserving subsequence.
pub open spec fn spec_simplified_of(
    simp: Seq<SimplifiedLine>,
    lines: Seq<LineData>,
    max_distance_km: int,
) -> bool {
    &&& simp.len() == lines.len()
    &&& forall|j: int|
        0 <= j < simp.len() ==> (#[trigger] simp[j]).planet@ == lines[j].planet@ && simp[j].angle@
            == lines[j].angle@ && simp[j].rating == lines[j].rating && simp[j].aspect
            == lines[j].aspect && simp[j].bbox == spec_line_bbox(
            simp[j].points@,
            max_distance_km * 1000,
        ) && (exists|idx: Seq<int>|
            #[trigger] geo::spec_subsequence_of(simp[j].points@, lines[j].points@, idx))
}

/// The influences a city collects from the first `k` simplified lines on
/// the fast path, as views, in line order.
pub open spec fn spec_fast_views(
    simp: Seq<SimplifiedLine>,
    lat: int,
    lon: int,
    threshold_m: int,
    k: int,
) -> Seq<(Seq<u8>, Seq<u8>, u8, Option<AspectType>, i64)>
    decreases k,
{
    if k <= 0 {
        Seq::empty()
    } else {
        let prev = spec_fast_views(simp, lat, lon, threshold_m, k - 1);
        match spec_fast_distance(lat, lon, simp[k - 1], threshold_m) {
            Some(d) => prev.push(
                (
                    vstd::utf8::encode_utf8(simp[k - 1].planet@),
                    vstd::utf8::encode_utf8(simp[k - 1].angle@),
                    simp[k - 1].rating,
                    simp[k - 1].aspect,
                    d as i64,
                ),
            ),
            None => prev,
        }
    }
}

/// How many of the first `k` cities collect at least one category-relevant
/// influence on the fast path.
pub open spec fn spec_count_qualifying_fast(
    cities: Seq<CityData>,
    simp: Seq<SimplifiedLine>,
    category: LifeCategory,
    config: ScoringConfig,
    k: int,
) -> int
    decreases k,
{
    if k <= 0 {
        0
    } else {
        let views = spec_fast_views(
            simp,
            cities[k - 1].lat_udeg as int,
            cities[k - 1].lon_udeg as int,
            config.max_distance_km * 1000,
            simp.len() as int,
        );
        spec_count_qualifying_fast(cities, simp, category, config, k - 1)
            + if spec_count_relevant_views(views, category, views.len() as int) > 0 {
            1int
        } else {
            0int
        }
    }
}

/// The rankings the first `k` cities earn on the fast path, qualifying
/// cities only, in input order.
pub open spec fn spec_expected_rankings_fast(
    cities: Seq<CityData>,
    simp: Seq<SimplifiedLine>,
    category: LifeCategory,
    config: ScoringConfig,
    k: int,
) -> Seq<
    (Seq<u8>, Seq<u8>, int, int, int, int, int, bool, Seq<(Seq<u8>, Seq<u8>, int)>, crate::scoring::LineNature),
>
    decreases k,
{
    if k <= 0 {
        Seq::empty()
    } else {
        let prev = spec_expected_rankings_fast(cities, simp, category, config, k - 1);
        let views = spec_fast_views(
            simp,
            cities[k - 1].lat_udeg as int,
            cities[k - 1].lon_udeg as int,
            config.max_distance_km * 1000,
            simp.len() as int,
        );
        if spec_count_relevant_views(views, category, views.len() as int) > 0 {
            prev.push(
                crate::rank::spec_ranking_of_views(
                    vstd::utf8::encode_utf8(cities[k - 1].name@),
                    vstd::utf8::encode_utf8(cities[k - 1].country@),
                    cities[k - 1].lat_udeg as int,
                    cities[k - 1].lon_udeg as int,
                    views,
                    category,
                    config,
                ),
            )
        } else {
            prev
        }
    }
}

/// Ranking-content bridge for the fast path.
proof fn lemma_expected_from_sets_fast(
    sets: Seq<CityInfluenceSet>,
    cities: Seq<CityData>,
    simp: Seq<SimplifiedLine>,
    category: LifeCategory,
    config: ScoringConfig,
    k: int,
)
    requires
        sets.len() == cities.len(),
        0 <= k <= sets.len(),
        forall|j: int|
            0 <= j < sets.len() ==> vstd::utf8::encode_utf8((#[trigger] sets[j]).city_name@)
                == vstd::utf8::encode_utf8(cities[j].name@) && vstd::utf8::encode_utf8(
                sets[j].country@,
            ) == vstd::utf8::encode_utf8(cities[j].country@) && sets[j].latitude_udeg
                == cities[j].lat_udeg && sets[j].longitude_udeg == cities[j].lon_udeg,
        forall|j: int|
            0 <= j < sets.len() ==> (#[trigger] sets[j]).influences@.map_values(
                |inf: Influence| spec_influence_view(inf),
            ) == spec_fast_views(
                simp,
                cities[j].lat_udeg as int,
                cities[j].lon_udeg as int,
                config.max_distance_km * 1000,
                simp.len() as int,
            ),
    ensures
        crate::rank::spec_expected_rankings(sets, category, config, k)
            == spec_expected_rankings_fast(cities, simp, category, config, k),
    decreases k,
{
    if k > 0 {
        lemma_expected_from_sets_fast(sets, cities, simp, category, config, k - 1);
        let infs = sets[k - 1].influences@;
        lemma_count_relevant_views(infs, category, infs.len() as int);
        assert(infs.map_values(|inf: Influence| spec_influence_view(inf)).len() == infs.len());
    }
}

/// Qualifying-count bridge for the fast path.
proof fn lemma_qualifying_from_sets_fast(
    sets: Seq<CityInfluenceSet>,
    cities: Seq<CityData>,
    simp: Seq<SimplifiedLine>,
    category: LifeCategory,
    config: ScoringConfig,
    k: int,
)
    requires
        sets.len() == cities.len(),
        0 <= k <= sets.len(),
        forall|j: int|
            0 <= j < sets.len() ==> (#[trigger] sets[j]).influences@.map_values(
                |inf: Influence| spec_influence_view(inf),
            ) == spec_fast_views(
                simp,
                cities[j].lat_udeg as int,
                cities[j].lon_udeg as int,
                config.max_distance_km * 1000,
                simp.len() as int,
            ),
    ensures
        crate::rank::spec_count_qualifying(sets, category, k) == spec_count_qualifying_fast(
            cities,
            simp,
            category,
            config,
            k,
        ),
    decreases k,
{
    if k > 0 {
        lemma_qualifying_from_sets_fast(sets, cities, simp, category, config, k - 1);
        let infs = sets[k - 1].influences@;
        lemma_count_relevant_views(infs, category, infs.len() as int);
        assert(infs.map_values(|inf: Influence| spec_influence_view(inf)).len() == infs.len());
    }
}

/// Fast city scoring over simplified lines: the same rankings interface as
/// the exact path, with the pruning cascade in front of every distance.
#[verifier::rlimit(100)]
#[verifier::spinoff_prover]
pub fn scout_cities_fast(
    cities: &Vec<CityData>,
    lines: &Vec<LineData>,
    category: LifeCategory,
    sort_mode: SortMode,
    config: &ScoringConfig,
) -> (r: Vec<CityRanking>)
    requires
        forall|i: int| 0 <= i < cities@.len() ==> (#[trigger] cities@[i]).wf(),
        forall|i: int| 0 <= i < lines@.len() ==> (#[trigger] lines@[i]).wf(),
        config.wf(),
    ensures
        forall|i: int| 0 <= i < r@.len() ==> (#[trigger] r@[i]).wf(),
        forall|i: int, j: int|
            0 <= i <= j < r@.len() ==> spec_rank_key(
                #[trigger] r@[i],
                sort_mode,
                config.volatility_penalty_milli as int,
            ) >= spec_rank_key(#[trigger] r@[j], sort_mode, config.volatility_penalty_milli as int),
        exists|simp: Seq<SimplifiedLine>|
            #[trigger] spec_simplified_of(simp, lines@, config.max_distance_km as int)
                && r@.len() == spec_count_qualifying_fast(
                cities@,
                simp,
                category,
                *config,
                cities@.len() as int,
            ) && r@.map_values(|x: CityRanking| crate::rank::spec_ranking_view(x)).to_multiset()
                == spec_expected_rankings_fast(
                cities@,
                simp,
                category,
                *config,
                cities@.len() as int,
            ).to_multiset(),
{
    let simplified = simplify_lines(lines, config.max_distance_km, 100_000);
    let mut sets: Vec<CityInfluenceSet> = Vec::new();
    let mut i: usize = 0;
    while i < cities.len()
        invariant
            i <= cities@.len(),
            sets@.len() == i,
            config.wf(),
            simplified@.len() == lines@.len(),
            spec_simplified_of(simplified@, lines@, config.max_distance_km as int),
            forall|j: int| 0 <= j < cities@.len() ==> (#[trigger] cities@[j]).wf(),
            forall|j: int| 0 <= j < simplified@.len() ==> (#[trigger] simplified@[j]).wf(),
            forall|j: int| 0 <= j < sets@.len() ==> (#[trigger] sets@[j]).wf(),
            forall|j: int|
                0 <= j < sets@.len() ==> (#[trigger] sets@[j]).influences@.map_values(
                    |inf: Influence| spec_influence_view(inf),
                ) == spec_fast_views(
                    simplified@,
                    cities@[j].lat_udeg as int,
                    cities@[j].lon_udeg as int,
                    config.max_distance_km * 1000,
                    simplified@.len() as int,
                ),
            forall|j: int|
                0 <= j < sets@.len() ==> vstd::utf8::encode_utf8(
                    (#[trigger] sets@[j]).city_name@,
                ) == vstd::utf8::encode_utf8(cities@[j].name@) && vstd::utf8::encode_utf8(
                    sets@[j].country@,
                ) == vstd::utf8::encode_utf8(cities@[j].country@) && sets@[j].latitude_udeg
                    == cities@[j].lat_udeg && sets@[j].longitude_udeg == cities@[j].lon_udeg,
        decreases cities@.len() - i,
    {
        let city = &cities[i];
        let mut influences: Vec<Influence> = Vec::new();
        let mut l: usize = 0;
        while l < simplified.len()
            invariant
                l <= simplified@.len(),
                config.wf(),
                -90_000_000 <= city.lat_udeg <= 90_000_000,
                -180_000_000 <= city.lon_udeg <= 180_000_000,
                city == cities@[i as int],
                i < cities@.len(),
                forall|j: int| 0 <= j < simplified@.len() ==> (#[trigger] simplified@[j]).wf(),
                forall|j: int| 0 <= j < influences@.len() ==> (#[trigger] influences@[j]).wf(),
                influences@.map_values(|inf: Influence| spec_influence_view(inf))
                    == spec_fast_views(
                    simplified@,
                    city.lat_udeg as int,
                    city.lon_udeg as int,
                    config.max_distance_km * 1000,
                    l as int,
                ),
            decreases simplified@.len() - l,
        {
            let line = &simplified[l];
            let ghost pre = influences@;
            match fast_distance_to_polyline(
                city.lat_udeg,
                city.lon_udeg,
                line,
                config.max_distance_km * 1000,
            ) {
                Some(distance) => {
                    influences.push(Influence {
                        planet: clone_string(&line.planet),
                        angle: clone_string(&line.angle),
                        rating: line.rating,
                        aspect: line.aspect,
                        distance_m: distance,
                    });
                },
                None => {},
            }
            proof {
                assert(influences@.map_values(|inf: Influence| spec_influence_view(inf))
                    =~= spec_fast_views(
                    simplified@,
                    city.lat_udeg as int,
                    city.lon_udeg as int,
                    config.max_distance_km * 1000,
                    l as int + 1,
                ));
            }
            l = l + 1;
        }
        sets.push(CityInfluenceSet {
            city_name: clone_string(&city.name),
            country: clone_string(&city.country),
            latitude_udeg: city.lat_udeg,
            longitude_udeg: city.lon_udeg,
            influences,
        });
        i = i + 1;
    }
    proof {
        lemma_qualifying_from_sets_fast(
            sets@,
            cities@,
            simplified@,
            category,
            *config,
            cities@.len() as int,
        );
        lemma_expected_from_sets_fast(
            sets@,
            cities@,
            simplified@,
            category,
            *config,
            cities@.len() as int,
        );
    }
    rank_cities_by_category(&sets, category, config, sort_mode)
}

/// Decay strength of an influence at a distance under a kernel choice.
pub fn get_influence_strength(distance_m: i64, kernel_type: crate::scoring::KernelType, kernel_param_m: i64) -> (r: i64)
    requires
        0 <= distance_m,
        1 <= kernel_param_m <= 100_000_000,
    ensures
        r == crate::scoring::spec_apply_kernel(
            distance_m as int,
            ScoringConfig {
                kernel_type,
                kernel_parameter_m: kernel_param_m,
                max_distance_km: 500,
                volatility_penalty_milli: 300,
            },
        ),
        0 <= r <= crate::scoring::KQ,
        distance_m == 0 ==> r == crate::scoring::KQ,
{
    let config = ScoringConfig {
        kernel_type,
        kernel_parameter_m: kernel_param_m,
        max_distance_km: 500,
        volatility_penalty_milli: 300,
    };
    apply_kernel(distance_m, &config)
}

/// Minimum distance from a point to a raw polyline, the exact way.
pub fn calculate_line_distance(city_lat: i64, city_lon: i64, points: &Vec<GlobePoint>) -> (r: i64)
    requires
        -90_000_000 <= city_lat <= 90_000_000,
        -180_000_000 <= city_lon <= 180_000_000,
        forall|i: int| 0 <= i < points@.len() ==> (#[trigger] points@[i]).wf(),
    ensures
        r == geo::spec_polyline_distance(city_lat as int, city_lon as int, points@),
        0 <= r,
{
    geo::distance_to_polyline(city_lat, city_lon, points)
}

} // verus!
