//! City-level scoring and ranking: contributions sorted strongest first,
//! aggregated into bounded scores, filtered per life category, and ordered
//! into city and country rankings.

use vstd::prelude::*;
use vstd::string::StringSliceAdditionalSpecFns;
use crate::scoring::{
    calculate_influence_contribution, aggregate_scores, is_beneficial_for_category,
    is_challenging_for_category, AspectType, LineNature, Influence, InfluenceContribution,
    LifeCategory, ScoringConfig, SortMode, FAR_AWAY_M,
};

verus! {

/// Magnitude of a contribution's benefit, the sort key for the
/// diminishing-returns truncation.
pub open spec fn spec_abs_benefit(c: InfluenceContribution) -> int {
    if c.benefit_c >= 0 {
        c.benefit_c as int
    } else {
        -(c.benefit_c as int)
    }
}

/// Removing an element by a swap with the last keeps a sequence's multiset
/// except for that one element.
proof fn lemma_swap_remove_multiset<T>(s: Seq<T>, i: int)
    requires
        0 <= i < s.len(),
    ensures
        s.update(i, s.last()).drop_last().to_multiset() =~= s.to_multiset().remove(s[i]),
{
    broadcast use vstd::seq_lib::group_to_multiset_ensures;
    broadcast use vstd::multiset::group_multiset_axioms;

    let s2 = s.update(i, s.last());
    vstd::seq_lib::to_multiset_update(s, i, s.last());
    assert(s2.drop_last() =~= s2.remove(s2.len() - 1));
    assert(s2.remove(s2.len() - 1).to_multiset() =~= s2.to_multiset().remove(s2[s2.len() - 1]));
    assert(s2[s2.len() - 1] == s.last());
    assert(s2.to_multiset().remove(s.last()) =~= s.to_multiset().insert(s.last()).remove(
        s[i],
    ).remove(s.last()));
    assert(s.to_multiset().insert(s.last()).remove(s[i]).remove(s.last()) =~= s.to_multiset()
        .remove(s[i]));
}

/// Insert a contribution into a magnitude-descending sequence after every
/// element at least as strong: where equal magnitudes meet, the newcomer
/// goes behind, which is how a stable descending sort places ties.
pub open spec fn spec_insert_desc(
    s: Seq<InfluenceContribution>,
    x: InfluenceContribution,
) -> Seq<InfluenceContribution>
    decreases s.len(),
{
    if s.len() == 0 {
        seq![x]
    } else if spec_abs_benefit(s[0]) >= spec_abs_benefit(x) {
        seq![s[0]] + spec_insert_desc(s.drop_first(), x)
    } else {
        seq![x] + s
    }
}

/// The stable sort by benefit magnitude, strongest first: the elements are
/// taken in input order and each is inserted behind the ones at least as
/// strong, so ties keep their input order.
pub open spec fn spec_stable_sort(s: Seq<InfluenceContribution>) -> Seq<InfluenceContribution>
    decreases s.len(),
{
    if s.len() == 0 {
        Seq::empty()
    } else {
        spec_insert_desc(spec_stable_sort(s.drop_last()), s.last())
    }
}

/// The insertion keeps the length, the multiset and the descending order.
proof fn lemma_insert_desc_props(s: Seq<InfluenceContribution>, x: InfluenceContribution)
    requires
        spec_sorted_by_abs_benefit(s),
    ensures
        spec_insert_desc(s, x).len() == s.len() + 1,
        spec_insert_desc(s, x).to_multiset() == s.to_multiset().insert(x),
        spec_sorted_by_abs_benefit(spec_insert_desc(s, x)),
    decreases s.len(),
{
    broadcast use vstd::seq_lib::group_to_multiset_ensures;
    broadcast use vstd::multiset::group_multiset_axioms;
    broadcast use vstd::seq_lib::lemma_multiset_commutative;

    let r = spec_insert_desc(s, x);
    if s.len() == 0 {
        assert(seq![x] =~= Seq::<InfluenceContribution>::empty().push(x));
        assert(r.to_multiset() =~= s.to_multiset().insert(x));
        assert(spec_sorted_by_abs_benefit(r));
    } else if spec_abs_benefit(s[0]) >= spec_abs_benefit(x) {
        let t = s.drop_first();
        assert(forall|i: int, j: int|
            0 <= i <= j < t.len() ==> spec_abs_benefit(#[trigger] t[i]) >= spec_abs_benefit(
                #[trigger] t[j],
            ) && t[i] == s[i + 1] && t[j] == s[j + 1]);
        lemma_insert_desc_props(t, x);
        let u = spec_insert_desc(t, x);
        assert(r == seq![s[0]] + u);
        assert(r.to_multiset() =~= seq![s[0]].to_multiset().add(u.to_multiset()));
        assert(seq![s[0]] =~= Seq::<InfluenceContribution>::empty().push(s[0]));
        assert(s =~= seq![s[0]] + t);
        assert(s.to_multiset() =~= seq![s[0]].to_multiset().add(t.to_multiset()));
        assert(r.to_multiset() =~= s.to_multiset().insert(x));
        assert forall|i: int, j: int| 0 <= i <= j < r.len() implies spec_abs_benefit(
            #[trigger] r[i],
        ) >= spec_abs_benefit(#[trigger] r[j]) by {
            if i == 0 && j > 0 {
                let e = r[j];
                assert(e == u[j - 1]);
                assert(u.to_multiset().count(e) > 0);
                assert(t.to_multiset().insert(x).count(e) > 0);
                if e == x {
                    assert(spec_abs_benefit(s[0]) >= spec_abs_benefit(e));
                } else {
                    assert(t.to_multiset().count(e) > 0);
                    assert(t.contains(e));
                    let w = choose|w: int| 0 <= w < t.len() && t[w] == e;
                    assert(t[w] == s[w + 1]);
                    assert(spec_abs_benefit(s[0]) >= spec_abs_benefit(s[w + 1]));
                }
            } else if i > 0 {
                assert(r[i] == u[i - 1] && r[j] == u[j - 1]);
            }
        }
    } else {
        assert(r == seq![x] + s);
        assert(r.to_multiset() =~= s.to_multiset().insert(x));
        assert forall|i: int, j: int| 0 <= i <= j < r.len() implies spec_abs_benefit(
            #[trigger] r[i],
        ) >= spec_abs_benefit(#[trigger] r[j]) by {
            if i == 0 && j > 0 {
                assert(r[j] == s[j - 1]);
                assert(spec_abs_benefit(s[0]) >= spec_abs_benefit(s[j - 1]));
            } else if i > 0 {
                assert(r[i] == s[i - 1] && r[j] == s[j - 1]);
            }
        }
    }
}

/// The stable sort is a permutation of its input and descending.
pub proof fn lemma_stable_sort_props(s: Seq<InfluenceContribution>)
    ensures
        spec_stable_sort(s).len() == s.len(),
        spec_stable_sort(s).to_multiset() == s.to_multiset(),
        spec_sorted_by_abs_benefit(spec_stable_sort(s)),
    decreases s.len(),
{
    broadcast use vstd::seq_lib::group_to_multiset_ensures;
    broadcast use vstd::multiset::group_multiset_axioms;

    if s.len() == 0 {
        assert(spec_stable_sort(s).to_multiset() =~= s.to_multiset());
    } else {
        let t = s.drop_last();
        lemma_stable_sort_props(t);
        lemma_insert_desc_props(spec_stable_sort(t), s.last());
        assert(s =~= t.push(s.last()));
        assert(s.to_multiset() =~= t.to_multiset().insert(s.last()));
        assert(spec_stable_sort(s).to_multiset() =~= s.to_multiset());
    }
}

/// Inserting behind a prefix of stronger elements leaves that prefix in
/// place.
proof fn lemma_insert_desc_prefix(t: Seq<InfluenceContribution>, y: InfluenceContribution, k: int)
    requires
        spec_sorted_by_abs_benefit(t),
        0 <= k <= t.len(),
        forall|i: int| 0 <= i < k ==> spec_abs_benefit(#[trigger] t[i]) >= spec_abs_benefit(y),
    ensures
        spec_insert_desc(t, y).len() == t.len() + 1,
        forall|i: int| 0 <= i < k ==> #[trigger] spec_insert_desc(t, y)[i] == t[i],
    decreases t.len(),
{
    lemma_insert_desc_props(t, y);
    if k > 0 {
        assert(spec_abs_benefit(t[0]) >= spec_abs_benefit(y));
        let u = t.drop_first();
        assert(forall|i: int, j: int|
            0 <= i <= j < u.len() ==> spec_abs_benefit(#[trigger] u[i]) >= spec_abs_benefit(
                #[trigger] u[j],
            ) && u[i] == t[i + 1] && u[j] == t[j + 1]);
        assert forall|i: int| 0 <= i < k - 1 implies spec_abs_benefit(#[trigger] u[i])
            >= spec_abs_benefit(y) by {
            assert(u[i] == t[i + 1]);
        }
        lemma_insert_desc_prefix(u, y, k - 1);
        assert(spec_insert_desc(t, y) == seq![t[0]] + spec_insert_desc(u, y));
        assert forall|i: int| 0 <= i < k implies #[trigger] spec_insert_desc(t, y)[i] == t[i] by {
            if i > 0 {
                assert(spec_insert_desc(t, y)[i] == spec_insert_desc(u, y)[i - 1]);
                assert(spec_insert_desc(u, y)[i - 1] == u[i - 1]);
            }
        }
    }
}

/// Weighted partial sums read only the agreed prefix.
proof fn lemma_wsum_agree(a: Seq<InfluenceContribution>, b: Seq<InfluenceContribution>, k: int)
    requires
        0 <= k,
        forall|i: int| 0 <= i < k ==> #[trigger] a[i] == b[i],
    ensures
        crate::scoring::spec_wsum_benefit(a, k) == crate::scoring::spec_wsum_benefit(b, k),
        crate::scoring::spec_wsum_intensity(a, k) == crate::scoring::spec_wsum_intensity(b, k),
        crate::scoring::spec_wsum_pos(a, k) == crate::scoring::spec_wsum_pos(b, k),
        crate::scoring::spec_wsum_neg(a, k) == crate::scoring::spec_wsum_neg(b, k),
    decreases k,
{
    if k > 0 {
        lemma_wsum_agree(a, b, k - 1);
    }
}

/// Appending a contribution no stronger than each of the seven strongest
/// leaves the seven strongest in place, so every weighted sum the scores
/// are built from, and with them benefit, intensity, volatility and the
/// mixed flag, is unchanged.
pub proof fn lemma_top_seven_append_invariant(
    s: Seq<InfluenceContribution>,
    y: InfluenceContribution,
)
    requires
        s.len() >= 7,
        forall|i: int|
            0 <= i < 7 ==> spec_abs_benefit(#[trigger] spec_stable_sort(s)[i])
                >= spec_abs_benefit(y),
    ensures
        forall|i: int|
            0 <= i < 7 ==> #[trigger] spec_stable_sort(s.push(y))[i] == spec_stable_sort(s)[i],
        crate::scoring::spec_wsum_benefit(spec_stable_sort(s.push(y)), 7)
            == crate::scoring::spec_wsum_benefit(spec_stable_sort(s), 7),
        crate::scoring::spec_wsum_intensity(spec_stable_sort(s.push(y)), 7)
            == crate::scoring::spec_wsum_intensity(spec_stable_sort(s), 7),
        crate::scoring::spec_wsum_pos(spec_stable_sort(s.push(y)), 7)
            == crate::scoring::spec_wsum_pos(spec_stable_sort(s), 7),
        crate::scoring::spec_wsum_neg(spec_stable_sort(s.push(y)), 7)
            == crate::scoring::spec_wsum_neg(spec_stable_sort(s), 7),
{
    lemma_stable_sort_props(s);
    assert(s.push(y).drop_last() =~= s);
    assert(s.push(y).last() == y);
    assert(spec_stable_sort(s.push(y)) == spec_insert_desc(spec_stable_sort(s), y));
    lemma_insert_desc_prefix(spec_stable_sort(s), y, 7);
    lemma_wsum_agree(spec_stable_sort(s.push(y)), spec_stable_sort(s), 7);
}

/// Where a descending prefix ends exactly at `j`, the insertion lands at
/// index `j`.
proof fn lemma_insert_desc_at(s: Seq<InfluenceContribution>, x: InfluenceContribution, j: int)
    requires
        spec_sorted_by_abs_benefit(s),
        0 <= j <= s.len(),
        forall|i: int| 0 <= i < j ==> spec_abs_benefit(#[trigger] s[i]) >= spec_abs_benefit(x),
        j < s.len() ==> spec_abs_benefit(s[j]) < spec_abs_benefit(x),
    ensures
        spec_insert_desc(s, x) == s.insert(j, x),
    decreases s.len(),
{
    if s.len() == 0 {
        assert(spec_insert_desc(s, x) =~= s.insert(0, x));
    } else if j == 0 {
        assert(spec_abs_benefit(s[0]) < spec_abs_benefit(x));
        assert(seq![x] + s =~= s.insert(0, x));
    } else {
        let t = s.drop_first();
        assert(forall|i: int, k: int|
            0 <= i <= k < t.len() ==> spec_abs_benefit(#[trigger] t[i]) >= spec_abs_benefit(
                #[trigger] t[k],
            ) && t[i] == s[i + 1] && t[k] == s[k + 1]);
        assert forall|i: int| 0 <= i < j - 1 implies spec_abs_benefit(#[trigger] t[i])
            >= spec_abs_benefit(x) by {
            assert(t[i] == s[i + 1]);
        }
        assert(j - 1 < t.len() ==> t[j - 1] == s[j]);
        lemma_insert_desc_at(t, x, j - 1);
        assert(spec_insert_desc(s, x) == seq![s[0]] + t.insert(j - 1, x));
        assert(seq![s[0]] + t.insert(j - 1, x) =~= s.insert(j, x));
    }
}

/// Whether the contribution at `j` is at least as strong as `ax`.
fn abs_at_least(v: &Vec<InfluenceContribution>, j: usize, ax: i64) -> (r: bool)
    requires
        j < v@.len(),
        v@[j as int].wf(),
    ensures
        r == (spec_abs_benefit(v@[j as int]) >= ax),
{
    let e = &v[j];
    let ae: i64 = if e.benefit_c >= 0 {
        e.benefit_c
    } else {
        -e.benefit_c
    };
    ae >= ax
}

/// Sort contributions by benefit magnitude, strongest first, stably: the
/// result is exactly the stable sort of the input, ties in input order.
pub fn sort_contributions_desc(input: Vec<InfluenceContribution>) -> (r: Vec<InfluenceContribution>)
    requires
        forall|i: int| 0 <= i < input@.len() ==> (#[trigger] input@[i]).wf(),
    ensures
        r@ == spec_stable_sort(input@),
        r@.to_multiset() == input@.to_multiset(),
        r@.len() == input@.len(),
        forall|i: int, j: int|
            0 <= i <= j < r@.len() ==> spec_abs_benefit(#[trigger] r@[i]) >= spec_abs_benefit(
                #[trigger] r@[j],
            ),
{
    let mut out: Vec<InfluenceContribution> = Vec::new();
    let mut i: usize = 0;
    proof {
        assert(input@.take(0) =~= Seq::<InfluenceContribution>::empty());
    }
    while i < input.len()
        invariant
            i <= input@.len(),
            forall|j: int| 0 <= j < input@.len() ==> (#[trigger] input@[j]).wf(),
            out@ == spec_stable_sort(input@.take(i as int)),
            out@.len() == i,
            spec_sorted_by_abs_benefit(out@),
            forall|j: int| 0 <= j < out@.len() ==> (#[trigger] out@[j]).wf(),
        decreases input@.len() - i,
    {
        let x = input[i];
        let ax: i64 = if x.benefit_c >= 0 {
            x.benefit_c
        } else {
            -x.benefit_c
        };
        let mut j: usize = 0;
        while j < out.len() && abs_at_least(&out, j, ax)
            invariant
                j <= out@.len(),
                forall|k: int| 0 <= k < input@.len() ==> (#[trigger] input@[k]).wf(),
                x == input@[i as int],
                i < input@.len(),
                ax == spec_abs_benefit(x),
                spec_sorted_by_abs_benefit(out@),
                forall|k: int| 0 <= k < out@.len() ==> (#[trigger] out@[k]).wf(),
                forall|k: int|
                    0 <= k < j ==> spec_abs_benefit(#[trigger] out@[k]) >= spec_abs_benefit(x),
            decreases out@.len() - j,
        {
            j = j + 1;
        }
        let ghost pre = out@;
        out.insert(j, x);
        proof {
            lemma_insert_desc_at(pre, x, j as int);
            lemma_insert_desc_props(pre, x);
            assert(out@ == spec_insert_desc(pre, x));
            assert(input@.take((i + 1) as int).drop_last() =~= input@.take(i as int));
            assert(input@.take((i + 1) as int).last() == input@[i as int]);
            assert(out@ == spec_stable_sort(input@.take((i + 1) as int)));
            assert forall|k: int| 0 <= k < out@.len() implies (#[trigger] out@[k]).wf() by {
                if k < j as int {
                    assert(out@[k] == pre[k]);
                } else if k == j as int {
                    assert(out@[k] == x);
                } else {
                    assert(out@[k] == pre[k - 1]);
                }
            }
        }
        i = i + 1;
    }
    proof {
        assert(input@.take(input@.len() as int) =~= input@);
        lemma_stable_sort_props(input@);
    }
    out
}

/// The contribution sequence of a city's influences, in input order.
pub open spec fn spec_contributions(influences: Seq<Influence>, config: ScoringConfig) -> Seq<
    InfluenceContribution,
> {
    Seq::new(
        influences.len(),
        |i: int|
            crate::scoring::spec_contribution(
                influences[i].rating as int,
                influences[i].aspect,
                crate::scoring::spec_apply_kernel(influences[i].distance_m as int, config),
            ),
    )
}

/// Minimum influence distance among the first `k`, from the far-away
/// sentinel.
pub open spec fn spec_min_distance(influences: Seq<Influence>, k: int) -> int
    decreases k,
{
    if k <= 0 {
        1_000_000_000
    } else {
        let prev = spec_min_distance(influences, k - 1);
        if influences[k - 1].distance_m < prev {
            influences[k - 1].distance_m as int
        } else {
            prev
        }
    }
}

/// Strongest-first order by benefit magnitude.
pub open spec fn spec_sorted_by_abs_benefit(s: Seq<InfluenceContribution>) -> bool {
    forall|i: int, j: int|
        0 <= i <= j < s.len() ==> spec_abs_benefit(#[trigger] s[i]) >= spec_abs_benefit(
            #[trigger] s[j],
        )
}

/// Whether an influence's planet-angle pair plays any role for a category.
pub open spec fn spec_relevant_influence(inf: Influence, category: LifeCategory) -> bool {
    crate::scoring::spec_is_beneficial(
        vstd::utf8::encode_utf8(inf.planet@),
        vstd::utf8::encode_utf8(inf.angle@),
        category,
    ) || crate::scoring::spec_is_challenging(
        vstd::utf8::encode_utf8(inf.planet@),
        vstd::utf8::encode_utf8(inf.angle@),
        category,
    )
}

/// How many of the first `k` influences are category-relevant.
pub open spec fn spec_count_relevant(s: Seq<Influence>, category: LifeCategory, k: int) -> int
    decreases k,
{
    if k <= 0 {
        0
    } else {
        spec_count_relevant(s, category, k - 1) + if spec_relevant_influence(s[k - 1], category) {
            1int
        } else {
            0int
        }
    }
}

/// How many of the first `k` cities carry at least one category-relevant
/// influence.
pub open spec fn spec_count_qualifying(
    cities: Seq<CityInfluenceSet>,
    category: LifeCategory,
    k: int,
) -> int
    decreases k,
{
    if k <= 0 {
        0
    } else {
        spec_count_qualifying(cities, category, k - 1) + if spec_count_relevant(
            cities[k - 1].influences@,
            category,
            cities[k - 1].influences@.len() as int,
        ) > 0 {
            1int
        } else {
            0int
        }
    }
}

/// The plain view of one influence: encoded planet and angle names,
/// rating, aspect and distance.
pub open spec fn spec_influence_view(inf: Influence) -> (Seq<u8>, Seq<u8>, u8, Option<AspectType>, i64) {
    (
        vstd::utf8::encode_utf8(inf.planet@),
        vstd::utf8::encode_utf8(inf.angle@),
        inf.rating,
        inf.aspect,
        inf.distance_m,
    )
}

/// Whether an influence view's planet-angle pair plays any role for a
/// category.
pub open spec fn spec_view_relevant(
    v: (Seq<u8>, Seq<u8>, u8, Option<AspectType>, i64),
    category: LifeCategory,
) -> bool {
    crate::scoring::spec_is_beneficial(v.0, v.1, category) || crate::scoring::spec_is_challenging(
        v.0,
        v.1,
        category,
    )
}

/// How many of the first `k` influence views are category-relevant.
pub open spec fn spec_count_relevant_views(
    vs: Seq<(Seq<u8>, Seq<u8>, u8, Option<AspectType>, i64)>,
    category: LifeCategory,
    k: int,
) -> int
    decreases k,
{
    if k <= 0 {
        0
    } else {
        spec_count_relevant_views(vs, category, k - 1) + if spec_view_relevant(
            vs[k - 1],
            category,
        ) {
            1int
        } else {
            0int
        }
    }
}

/// Relevance counting agrees between influences and their views.
pub proof fn lemma_count_relevant_views(infs: Seq<Influence>, category: LifeCategory, k: int)
    requires
        0 <= k <= infs.len(),
    ensures
        spec_count_relevant(infs, category, k) == spec_count_relevant_views(
            infs.map_values(|inf: Influence| spec_influence_view(inf)),
            category,
            k,
        ),
    decreases k,
{
    if k > 0 {
        lemma_count_relevant_views(infs, category, k - 1);
    }
}

/// The contributions the views produce, in order.
pub open spec fn spec_contributions_of_views(
    vs: Seq<(Seq<u8>, Seq<u8>, u8, Option<AspectType>, i64)>,
    config: ScoringConfig,
) -> Seq<crate::scoring::InfluenceContribution> {
    Seq::new(
        vs.len(),
        |i: int|
            crate::scoring::spec_contribution(
                vs[i].2 as int,
                vs[i].3,
                crate::scoring::spec_apply_kernel(vs[i].4 as int, config),
            ),
    )
}

/// Minimum view distance among the first `k`, from the far-away sentinel.
pub open spec fn spec_min_distance_views(
    vs: Seq<(Seq<u8>, Seq<u8>, u8, Option<AspectType>, i64)>,
    k: int,
) -> int
    decreases k,
{
    if k <= 0 {
        1_000_000_000
    } else {
        let prev = spec_min_distance_views(vs, k - 1);
        if vs[k - 1].4 < prev {
            vs[k - 1].4 as int
        } else {
            prev
        }
    }
}

/// Contributions and minimum distance only read the view components, so
/// they carry over from influences to their views.
pub proof fn lemma_scores_from_views(infs: Seq<Influence>, config: ScoringConfig, k: int)
    requires
        0 <= k <= infs.len(),
    ensures
        spec_contributions(infs, config) == spec_contributions_of_views(
            infs.map_values(|inf: Influence| spec_influence_view(inf)),
            config,
        ),
        spec_min_distance(infs, k) == spec_min_distance_views(
            infs.map_values(|inf: Influence| spec_influence_view(inf)),
            k,
        ),
    decreases k,
{
    if k > 0 {
        lemma_scores_from_views(infs, config, k - 1);
    } else {
        assert(spec_contributions(infs, config) =~= spec_contributions_of_views(
            infs.map_values(|inf: Influence| spec_influence_view(inf)),
            config,
        ));
    }
}

/// A city together with the influences found on it.
pub struct CityInfluenceSet {
    pub city_name: String,
    pub country: String,
    pub latitude_udeg: i64,
    pub longitude_udeg: i64,
    pub influences: Vec<Influence>,
}

impl CityInfluenceSet {
    /// All influences valid.
    pub open spec fn wf(self) -> bool {
        forall|i: int| 0 <= i < self.influences@.len() ==> (#[trigger] self.influences@[i]).wf()
    }
}

/// The final milli-point scores of one city.
pub struct CityScore {
    pub city_name: String,
    pub country: String,
    pub latitude_udeg: i64,
    pub longitude_udeg: i64,
    pub benefit_milli: i64,
    pub intensity_milli: i64,
    pub volatility_milli: i64,
    pub mixed_flag: bool,
    pub influence_count: usize,
    pub min_distance_m: i64,
}

impl CityScore {
    /// The proved score bounds: every score within zero and one hundred
    /// points (milli-points here), whatever the influences.
    pub open spec fn wf(self) -> bool {
        &&& 0 <= self.benefit_milli <= 100_000
        &&& 0 <= self.intensity_milli <= 100_000
        &&& 0 <= self.volatility_milli <= 100_000
        &&& 0 <= self.min_distance_m
    }

    /// The city's name.
    pub fn city_name(&self) -> (r: String)
        ensures
            r@ == self.city_name@,
    {
        clone_string(&self.city_name)
    }

    /// The city's country.
    pub fn country(&self) -> (r: String)
        ensures
            r@ == self.country@,
    {
        clone_string(&self.country)
    }

    /// Latitude in micro-degrees.
    pub fn latitude(&self) -> (r: i64)
        ensures
            r == self.latitude_udeg,
    {
        self.latitude_udeg
    }

    /// Longitude in micro-degrees.
    pub fn longitude(&self) -> (r: i64)
        ensures
            r == self.longitude_udeg,
    {
        self.longitude_udeg
    }

    /// Benefit in milli-points.
    pub fn benefit_score(&self) -> (r: i64)
        ensures
            r == self.benefit_milli,
    {
        self.benefit_milli
    }

    /// Intensity in milli-points.
    pub fn intensity_score(&self) -> (r: i64)
        ensures
            r == self.intensity_milli,
    {
        self.intensity_milli
    }

    /// Volatility in milli-points.
    pub fn volatility_score(&self) -> (r: i64)
        ensures
            r == self.volatility_milli,
    {
        self.volatility_milli
    }

    /// Whether strong positive and negative influences coexist.
    pub fn mixed_flag(&self) -> (r: bool)
        ensures
            r == self.mixed_flag,
    {
        self.mixed_flag
    }

    /// How many influences were aggregated.
    pub fn influence_count(&self) -> (r: usize)
        ensures
            r == self.influence_count,
    {
        self.influence_count
    }

    /// The closest line's distance, whole kilometres.
    pub fn min_distance_km(&self) -> (r: i64)
        ensures
            r == self.min_distance_m / 1000,
    {
        crate::fixmath::divc(self.min_distance_m as i128, 1000) as i64
    }
}

/// Score a city from its influences: contributions, strongest first, fed
/// through the bounded aggregation.  A city without influences scores the
/// neutral fifty points of benefit and nothing else.
pub fn calculate_city_score(city: &CityInfluenceSet, config: &ScoringConfig) -> (r: CityScore)
    requires
        city.wf(),
        config.wf(),
    ensures
        r.wf(),
        r.influence_count == city.influences@.len(),
        r.city_name@ == city.city_name@,
        r.country@ == city.country@,
        r.latitude_udeg == city.latitude_udeg,
        r.longitude_udeg == city.longitude_udeg,
        r.min_distance_m == spec_min_distance(city.influences@, city.influences@.len() as int),
        ({
            let sorted = spec_stable_sort(spec_contributions(city.influences@, *config));
            let k = if sorted.len() >= 7 {
                7int
            } else {
                sorted.len() as int
            };
            &&& r.benefit_milli == 50_000 + (21 * crate::scoring::spec_wsum_benefit(sorted, k))
                / 20_000_000
            &&& r.intensity_milli == (21 * crate::scoring::spec_wsum_intensity(sorted, k))
                / 10_000_000
            &&& r.volatility_milli == (crate::trig::spec_isqrt(
                crate::scoring::spec_wsum_pos(sorted, k) * crate::scoring::spec_wsum_neg(sorted, k),
            ) * 42_000) / 10_000_000_000
            &&& r.mixed_flag == (crate::scoring::spec_wsum_pos(sorted, k) > 5_000_000_000
                && crate::scoring::spec_wsum_neg(sorted, k) > 5_000_000_000)
        }),
        city.influences@.len() == 0 ==> r.benefit_milli == 50_000 && r.intensity_milli == 0
            && r.volatility_milli == 0 && !r.mixed_flag && r.min_distance_m == FAR_AWAY_M,
{
    let mut contribs: Vec<InfluenceContribution> = Vec::new();
    let mut min_distance: i64 = FAR_AWAY_M;
    let mut i: usize = 0;
    while i < city.influences.len()
        invariant
            i <= city.influences@.len(),
            city.wf(),
            config.wf(),
            contribs@.len() == i,
            forall|j: int| 0 <= j < contribs@.len() ==> (#[trigger] contribs@[j]).wf(),
            forall|j: int|
                0 <= j < i ==> #[trigger] contribs@[j] == spec_contributions(
                    city.influences@,
                    *config,
                )[j],
            min_distance == spec_min_distance(city.influences@, i as int),
            0 <= min_distance <= FAR_AWAY_M,
            i == 0 ==> min_distance == FAR_AWAY_M,
        decreases city.influences@.len() - i,
    {
        let inf = &city.influences[i];
        let c = calculate_influence_contribution(inf, config);
        contribs.push(c);
        if inf.distance_m < min_distance {
            min_distance = inf.distance_m;
        }
        i = i + 1;
    }
    if contribs.len() == 0 {
        proof {
            assert(spec_contributions(city.influences@, *config) =~= Seq::<
                InfluenceContribution,
            >::empty());
            let sorted = spec_stable_sort(spec_contributions(city.influences@, *config));
            assert(sorted =~= Seq::<InfluenceContribution>::empty());
            assert(crate::scoring::spec_wsum_benefit(sorted, 0) == 0);
            assert(crate::scoring::spec_wsum_intensity(sorted, 0) == 0);
            assert(crate::scoring::spec_wsum_pos(sorted, 0) == 0);
            assert(crate::scoring::spec_wsum_neg(sorted, 0) == 0);
            assert(crate::trig::spec_isqrt(0) == 0);
        }
        return CityScore {
            city_name: clone_string(&city.city_name),
            country: clone_string(&city.country),
            latitude_udeg: city.latitude_udeg,
            longitude_udeg: city.longitude_udeg,
            benefit_milli: 50_000,
            intensity_milli: 0,
            volatility_milli: 0,
            mixed_flag: false,
            influence_count: 0,
            min_distance_m: FAR_AWAY_M,
        };
    }
    let n = contribs.len();
    proof {
        assert(contribs@ =~= spec_contributions(city.influences@, *config));
    }
    let sorted = sort_contributions_desc(contribs);
    proof {
        broadcast use vstd::seq_lib::group_to_multiset_ensures;
        broadcast use vstd::multiset::group_multiset_axioms;

        assert forall|j: int| 0 <= j < sorted@.len() implies (#[trigger] sorted@[j]).wf() by {
            assert(sorted@.to_multiset().count(sorted@[j]) > 0);
        }
        assert(sorted@ == spec_stable_sort(spec_contributions(city.influences@, *config)));
    }
    let values = aggregate_scores(&sorted);
    CityScore {
        city_name: clone_string(&city.city_name),
        country: clone_string(&city.country),
        latitude_udeg: city.latitude_udeg,
        longitude_udeg: city.longitude_udeg,
        benefit_milli: values.benefit_milli,
        intensity_milli: values.intensity_milli,
        volatility_milli: values.volatility_milli,
        mixed_flag: values.mixed,
        influence_count: n,
        min_distance_m: min_distance,
    }
}

/// Clone a string with its view carried along.
pub fn clone_string(s: &String) -> (r: String)
    ensures
        r@ == s@,
{
    s.clone()
}

/// Copy an influence field for field, so that the copy provably carries
/// the same data.
pub fn clone_influence(x: &Influence) -> (r: Influence)
    ensures
        r.planet@ == x.planet@,
        r.angle@ == x.angle@,
        r.rating == x.rating,
        r.aspect == x.aspect,
        r.distance_m == x.distance_m,
        x.wf() ==> r.wf(),
{
    Influence {
        planet: clone_string(&x.planet),
        angle: clone_string(&x.angle),
        rating: x.rating,
        aspect: x.aspect,
        distance_m: x.distance_m,
    }
}

/// The views of the category-relevant influences among the first `k`, in
/// input order.
pub open spec fn spec_filter_relevant_views(
    s: Seq<Influence>,
    category: LifeCategory,
    k: int,
) -> Seq<(Seq<u8>, Seq<u8>, u8, Option<AspectType>, i64)>
    decreases k,
{
    if k <= 0 {
        Seq::empty()
    } else {
        let prev = spec_filter_relevant_views(s, category, k - 1);
        if spec_relevant_influence(s[k - 1], category) {
            prev.push(spec_influence_view(s[k - 1]))
        } else {
            prev
        }
    }
}

/// The category-relevant views among the first `k`, in order.
pub open spec fn spec_filter_views(
    vs: Seq<(Seq<u8>, Seq<u8>, u8, Option<AspectType>, i64)>,
    category: LifeCategory,
    k: int,
) -> Seq<(Seq<u8>, Seq<u8>, u8, Option<AspectType>, i64)>
    decreases k,
{
    if k <= 0 {
        Seq::empty()
    } else {
        let prev = spec_filter_views(vs, category, k - 1);
        if spec_view_relevant(vs[k - 1], category) {
            prev.push(vs[k - 1])
        } else {
            prev
        }
    }
}

/// Filtering influences and filtering their views agree.
pub proof fn lemma_filter_views_map(s: Seq<Influence>, category: LifeCategory, k: int)
    requires
        0 <= k <= s.len(),
    ensures
        spec_filter_relevant_views(s, category, k) == spec_filter_views(
            s.map_values(|inf: Influence| spec_influence_view(inf)),
            category,
            k,
        ),
    decreases k,
{
    if k > 0 {
        lemma_filter_views_map(s, category, k - 1);
    }
}

/// The filtered views are exactly as many as the relevant count.
pub proof fn lemma_filter_views_len(s: Seq<Influence>, category: LifeCategory, k: int)
    requires
        0 <= k <= s.len(),
    ensures
        spec_filter_relevant_views(s, category, k).len() == spec_count_relevant(s, category, k),
    decreases k,
{
    if k > 0 {
        lemma_filter_views_len(s, category, k - 1);
    }
}

/// Keep the influences whose planet-angle pair plays a role for the
/// category, on either list.
pub fn filter_influences_by_category(influences: &Vec<Influence>, category: LifeCategory) -> (r: Vec<Influence>)
    requires
        forall|i: int| 0 <= i < influences@.len() ==> (#[trigger] influences@[i]).wf(),
    ensures
        forall|i: int| 0 <= i < r@.len() ==> (#[trigger] r@[i]).wf(),
        forall|i: int| 0 <= i < r@.len() ==> spec_relevant_influence(#[trigger] r@[i], category),
        r@.len() == spec_count_relevant(influences@, category, influences@.len() as int),
        r@.map_values(|inf: Influence| spec_influence_view(inf)) == spec_filter_relevant_views(
            influences@,
            category,
            influences@.len() as int,
        ),
{
    let mut out: Vec<Influence> = Vec::new();
    let mut i: usize = 0;
    while i < influences.len()
        invariant
            i <= influences@.len(),
            out@.len() == spec_count_relevant(influences@, category, i as int),
            out@.len() <= i,
            forall|j: int| 0 <= j < influences@.len() ==> (#[trigger] influences@[j]).wf(),
            forall|j: int| 0 <= j < out@.len() ==> (#[trigger] out@[j]).wf(),
            forall|j: int| 0 <= j < out@.len() ==> spec_relevant_influence(#[trigger] out@[j], category),
            out@.map_values(|inf: Influence| spec_influence_view(inf))
                == spec_filter_relevant_views(influences@, category, i as int),
        decreases influences@.len() - i,
    {
        let inf = &influences[i];
        let relevant = is_beneficial_for_category(inf.planet.as_str(), inf.angle.as_str(), category)
            || is_challenging_for_category(inf.planet.as_str(), inf.angle.as_str(), category);
        if relevant {
            out.push(clone_influence(inf));
        }
        proof {
            assert(out@.map_values(|inf2: Influence| spec_influence_view(inf2))
                =~= spec_filter_relevant_views(influences@, category, i as int + 1));
        }
        i = i + 1;
    }
    out
}

/// A city's place in a category ranking.
pub struct CityRanking {
    pub city_name: String,
    pub country: String,
    pub latitude_udeg: i64,
    pub longitude_udeg: i64,
    pub benefit_milli: i64,
    pub intensity_milli: i64,
    pub volatility_milli: i64,
    pub mixed_flag: bool,
    pub top_influences: Vec<(String, String, i64)>,
    pub nature: LineNature,
}

impl CityRanking {
    /// Scores within bounds.
    pub open spec fn wf(self) -> bool {
        &&& 0 <= self.benefit_milli <= 100_000
        &&& 0 <= self.intensity_milli <= 100_000
        &&& 0 <= self.volatility_milli <= 100_000
    }
}

/// The nature label a score pair earns: mixed when both strong sides are
/// present, else by the benefit band.
pub open spec fn spec_nature_of(benefit: int, mixed: bool) -> LineNature {
    if mixed {
        LineNature::Mixed
    } else if benefit > 52_000 {
        LineNature::Beneficial
    } else if benefit < 48_000 {
        LineNature::Challenging
    } else {
        LineNature::Mixed
    }
}

/// A ranking's content as plain values: encoded names, coordinates,
/// scores, flag, top influences and nature.
pub open spec fn spec_ranking_view(r: CityRanking) -> (
    Seq<u8>,
    Seq<u8>,
    int,
    int,
    int,
    int,
    int,
    bool,
    Seq<(Seq<u8>, Seq<u8>, int)>,
    LineNature,
) {
    (
        vstd::utf8::encode_utf8(r.city_name@),
        vstd::utf8::encode_utf8(r.country@),
        r.latitude_udeg as int,
        r.longitude_udeg as int,
        r.benefit_milli as int,
        r.intensity_milli as int,
        r.volatility_milli as int,
        r.mixed_flag,
        Seq::new(
            r.top_influences@.len(),
            |t: int|
                (
                    vstd::utf8::encode_utf8(r.top_influences@[t].0@),
                    vstd::utf8::encode_utf8(r.top_influences@[t].1@),
                    r.top_influences@[t].2 as int,
                ),
        ),
        r.nature,
    )
}

/// The ranking a city earns from its influence views under a category:
/// scores from the stable-sorted contributions of the relevant views, the
/// first three of them as the top list, and the nature label.
pub open spec fn spec_ranking_of_views(
    name: Seq<u8>,
    country: Seq<u8>,
    lat: int,
    lon: int,
    views: Seq<(Seq<u8>, Seq<u8>, u8, Option<AspectType>, i64)>,
    category: LifeCategory,
    config: ScoringConfig,
) -> (Seq<u8>, Seq<u8>, int, int, int, int, int, bool, Seq<(Seq<u8>, Seq<u8>, int)>, LineNature) {
    let fviews = spec_filter_views(views, category, views.len() as int);
    let sorted = spec_stable_sort(spec_contributions_of_views(fviews, config));
    let k = if sorted.len() >= 7 {
        7int
    } else {
        sorted.len() as int
    };
    let benefit = 50_000 + (21 * crate::scoring::spec_wsum_benefit(sorted, k)) / 20_000_000;
    let intensity = (21 * crate::scoring::spec_wsum_intensity(sorted, k)) / 10_000_000;
    let volatility = (crate::trig::spec_isqrt(
        crate::scoring::spec_wsum_pos(sorted, k) * crate::scoring::spec_wsum_neg(sorted, k),
    ) * 42_000) / 10_000_000_000;
    let mixed = crate::scoring::spec_wsum_pos(sorted, k) > 5_000_000_000
        && crate::scoring::spec_wsum_neg(sorted, k) > 5_000_000_000;
    let tcount = if fviews.len() >= 3 {
        3int
    } else {
        fviews.len() as int
    };
    (
        name,
        country,
        lat,
        lon,
        benefit,
        intensity,
        volatility,
        mixed,
        Seq::new(tcount as nat, |t: int| (fviews[t].0, fviews[t].1, fviews[t].4 as int)),
        spec_nature_of(benefit, mixed),
    )
}

/// The ranking a city's influence set earns under a category.
pub open spec fn spec_expected_ranking(
    set: CityInfluenceSet,
    category: LifeCategory,
    config: ScoringConfig,
) -> (Seq<u8>, Seq<u8>, int, int, int, int, int, bool, Seq<(Seq<u8>, Seq<u8>, int)>, LineNature) {
    spec_ranking_of_views(
        vstd::utf8::encode_utf8(set.city_name@),
        vstd::utf8::encode_utf8(set.country@),
        set.latitude_udeg as int,
        set.longitude_udeg as int,
        set.influences@.map_values(|inf: Influence| spec_influence_view(inf)),
        category,
        config,
    )
}

/// The rankings the first `k` cities earn, qualifying cities only, in
/// input order.
pub open spec fn spec_expected_rankings(
    sets: Seq<CityInfluenceSet>,
    category: LifeCategory,
    config: ScoringConfig,
    k: int,
) -> Seq<(Seq<u8>, Seq<u8>, int, int, int, int, int, bool, Seq<(Seq<u8>, Seq<u8>, int)>, LineNature)>
    decreases k,
{
    if k <= 0 {
        Seq::empty()
    } else {
        let prev = spec_expected_rankings(sets, category, config, k - 1);
        if spec_count_relevant(
            sets[k - 1].influences@,
            category,
            sets[k - 1].influences@.len() as int,
        ) > 0 {
            prev.push(spec_expected_ranking(sets[k - 1], category, config))
        } else {
            prev
        }
    }
}

/// The ordering key of a ranking under a sort mode: benefit, intensity, or
/// benefit lowered by the weighted volatility.
pub open spec fn spec_rank_key(r: CityRanking, mode: SortMode, penalty_milli: int) -> int {
    match mode {
        SortMode::BenefitFirst => r.benefit_milli as int,
        SortMode::IntensityFirst => r.intensity_milli as int,
        SortMode::BalancedBenefit => r.benefit_milli * 1000 - r.volatility_milli * penalty_milli,
    }
}

/// Executable ranking key.
fn rank_key(r: &CityRanking, mode: SortMode, penalty_milli: i64) -> (k: i64)
    requires
        r.wf(),
        0 <= penalty_milli <= 1000,
    ensures
        k == spec_rank_key(*r, mode, penalty_milli as int),
{
    match mode {
        SortMode::BenefitFirst => r.benefit_milli,
        SortMode::IntensityFirst => r.intensity_milli,
        SortMode::BalancedBenefit => {
            proof {
                assert(r.volatility_milli * penalty_milli <= 100_000 * 1000) by (nonlinear_arith)
                    requires
                        0 <= r.volatility_milli <= 100_000,
                        0 <= penalty_milli <= 1000;
                assert(r.volatility_milli * penalty_milli >= 0) by (nonlinear_arith)
                    requires
                        0 <= r.volatility_milli,
                        0 <= penalty_milli;
            }
            r.benefit_milli * 1000 - r.volatility_milli * penalty_milli
        },
    }
}

/// Sort rankings by the mode's key, best first, by repeated extraction of
/// the maximum; the result is a permutation of the input.
pub fn sort_rankings(input: Vec<CityRanking>, mode: SortMode, penalty_milli: i64) -> (r: Vec<CityRanking>)
    requires
        0 <= penalty_milli <= 1000,
        forall|i: int| 0 <= i < input@.len() ==> (#[trigger] input@[i]).wf(),
    ensures
        r@.to_multiset() == input@.to_multiset(),
        r@.map_values(|x: CityRanking| spec_ranking_view(x)).to_multiset() == input@.map_values(
            |x: CityRanking| spec_ranking_view(x),
        ).to_multiset(),
        r@.len() == input@.len(),
        forall|i: int| 0 <= i < r@.len() ==> (#[trigger] r@[i]).wf(),
        forall|i: int, j: int|
            0 <= i <= j < r@.len() ==> spec_rank_key(#[trigger] r@[i], mode, penalty_milli as int)
                >= spec_rank_key(#[trigger] r@[j], mode, penalty_milli as int),
{
    let ghost view_of = |x: CityRanking| spec_ranking_view(x);
    let ghost orig = input@;
    let mut v = input;
    let mut out: Vec<CityRanking> = Vec::new();
    proof {
        broadcast use vstd::seq_lib::group_to_multiset_ensures;
        broadcast use vstd::multiset::group_multiset_axioms;

        assert(out@.to_multiset().add(v@.to_multiset()) =~= orig.to_multiset());
        assert(out@.map_values(view_of).to_multiset().add(v@.map_values(view_of).to_multiset())
            =~= orig.map_values(view_of).to_multiset());
    }
    while v.len() > 0
        invariant
            0 <= penalty_milli <= 1000,
            view_of == (|x: CityRanking| spec_ranking_view(x)),
            out@.to_multiset().add(v@.to_multiset()) =~= orig.to_multiset(),
            out@.map_values(view_of).to_multiset().add(v@.map_values(view_of).to_multiset())
                =~= orig.map_values(view_of).to_multiset(),
            out@.len() + v@.len() == orig.len(),
            forall|i: int| 0 <= i < v@.len() ==> (#[trigger] v@[i]).wf(),
            forall|i: int| 0 <= i < out@.len() ==> (#[trigger] out@[i]).wf(),
            forall|i: int, j: int|
                0 <= i <= j < out@.len() ==> spec_rank_key(
                    #[trigger] out@[i],
                    mode,
                    penalty_milli as int,
                ) >= spec_rank_key(#[trigger] out@[j], mode, penalty_milli as int),
            forall|i: int, j: int|
                0 <= i < out@.len() && 0 <= j < v@.len() ==> spec_rank_key(
                    #[trigger] out@[i],
                    mode,
                    penalty_milli as int,
                ) >= spec_rank_key(#[trigger] v@[j], mode, penalty_milli as int),
        decreases v@.len(),
    {
        let mut m: usize = 0;
        let mut j: usize = 1;
        while j < v.len()
            invariant
                0 <= penalty_milli <= 1000,
                m < v@.len(),
                1 <= j <= v@.len(),
                forall|i: int| 0 <= i < v@.len() ==> (#[trigger] v@[i]).wf(),
                forall|jj: int|
                    0 <= jj < j ==> spec_rank_key(v@[m as int], mode, penalty_milli as int)
                        >= spec_rank_key(#[trigger] v@[jj], mode, penalty_milli as int),
            decreases v@.len() - j,
        {
            let kj = rank_key(&v[j], mode, penalty_milli);
            let km = rank_key(&v[m], mode, penalty_milli);
            if kj > km {
                m = j;
            }
            j = j + 1;
        }
        let ghost pre = v@;
        let x = v.swap_remove(m);
        proof {
            broadcast use vstd::seq_lib::group_to_multiset_ensures;
            broadcast use vstd::multiset::group_multiset_axioms;

            lemma_swap_remove_multiset(pre, m as int);
            assert(out@.push(x).to_multiset() =~= out@.to_multiset().insert(x));
            assert(out@.to_multiset().insert(x).add(v@.to_multiset()) =~= orig.to_multiset());
            assert(v@.map_values(view_of) =~= pre.map_values(view_of).update(
                m as int,
                pre.map_values(view_of).last(),
            ).drop_last());
            lemma_swap_remove_multiset(pre.map_values(view_of), m as int);
            assert(out@.push(x).map_values(view_of) =~= out@.map_values(view_of).push(
                view_of(x),
            ));
            assert(out@.push(x).map_values(view_of).to_multiset() =~= out@.map_values(
                view_of,
            ).to_multiset().insert(view_of(x)));
            assert(out@.map_values(view_of).to_multiset().insert(view_of(x)).add(
                v@.map_values(view_of).to_multiset(),
            ) =~= orig.map_values(view_of).to_multiset());
            assert forall|jj: int| 0 <= jj < v@.len() implies spec_rank_key(
                x,
                mode,
                penalty_milli as int,
            ) >= spec_rank_key(#[trigger] v@[jj], mode, penalty_milli as int) by {
                if jj == m {
                    assert(v@[jj] == pre.last());
                } else {
                    assert(v@[jj] == pre[jj]);
                }
            }
            assert forall|jj: int| 0 <= jj < v@.len() implies (#[trigger] v@[jj]).wf() by {
                if jj == m {
                    assert(v@[jj] == pre.last());
                } else {
                    assert(v@[jj] == pre[jj]);
                }
            }
        }
        out.push(x);
    }
    proof {
        broadcast use vstd::seq_lib::group_to_multiset_ensures;
        broadcast use vstd::multiset::group_multiset_axioms;

        assert(v@.to_multiset() =~= vstd::multiset::Multiset::empty());
        assert(out@.to_multiset() =~= orig.to_multiset());
        assert(v@.map_values(view_of) =~= Seq::<
            (Seq<u8>, Seq<u8>, int, int, int, int, int, bool, Seq<(Seq<u8>, Seq<u8>, int)>, LineNature),
        >::empty());
        assert(out@.map_values(view_of).to_multiset() =~= orig.map_values(view_of).to_multiset());
        assert(out@.map_values(|x: CityRanking| spec_ranking_view(x)) == out@.map_values(view_of));
        assert(orig.map_values(|x: CityRanking| spec_ranking_view(x)) == orig.map_values(view_of));
    }
    out
}

/// Rank the cities that carry any category-relevant influence: filter,
/// score, classify and sort by the chosen mode, best first.
pub fn rank_cities_by_category(
    cities: &Vec<CityInfluenceSet>,
    category: LifeCategory,
    config: &ScoringConfig,
    sort_mode: SortMode,
) -> (r: Vec<CityRanking>)
    requires
        forall|i: int| 0 <= i < cities@.len() ==> (#[trigger] cities@[i]).wf(),
        config.wf(),
    ensures
        forall|i: int| 0 <= i < r@.len() ==> (#[trigger] r@[i]).wf(),
        forall|i: int, j: int|
            0 <= i <= j < r@.len() ==> spec_rank_key(
                #[trigger] r@[i],
                sort_mode,
                config.volatility_penalty_milli as int,
            ) >= spec_rank_key(#[trigger] r@[j], sort_mode, config.volatility_penalty_milli as int),
        r@.len() == spec_count_qualifying(cities@, category, cities@.len() as int),
        r@.len() <= cities@.len(),
        r@.map_values(|x: CityRanking| spec_ranking_view(x)).to_multiset()
            == spec_expected_rankings(
            cities@,
            category,
            *config,
            cities@.len() as int,
        ).to_multiset(),
{
    let ghost view_of = |x: CityRanking| spec_ranking_view(x);
    let mut rankings: Vec<CityRanking> = Vec::new();
    let mut i: usize = 0;
    while i < cities.len()
        invariant
            i <= cities@.len(),
            view_of == (|x: CityRanking| spec_ranking_view(x)),
            rankings@.len() == spec_count_qualifying(cities@, category, i as int),
            rankings@.len() <= i,
            rankings@.map_values(view_of) == spec_expected_rankings(
                cities@,
                category,
                *config,
                i as int,
            ),
            forall|j: int| 0 <= j < cities@.len() ==> (#[trigger] cities@[j]).wf(),
            config.wf(),
            forall|j: int| 0 <= j < rankings@.len() ==> (#[trigger] rankings@[j]).wf(),
        decreases cities@.len() - i,
    {
        let city = &cities[i];
        let filtered = filter_influences_by_category(&city.influences, category);
        proof {
            lemma_filter_views_len(
                city.influences@,
                category,
                city.influences@.len() as int,
            );
        }
        let ghost fviews = spec_filter_relevant_views(
            city.influences@,
            category,
            city.influences@.len() as int,
        );
        if filtered.len() > 0 {
            let mut top: Vec<(String, String, i64)> = Vec::new();
            let mut t: usize = 0;
            while t < filtered.len() && t < 3
                invariant
                    t <= filtered@.len(),
                    t <= 3,
                    top@.len() == t,
                    forall|j: int| 0 <= j < filtered@.len() ==> (#[trigger] filtered@[j]).wf(),
                    forall|tt: int|
                        0 <= tt < t ==> (#[trigger] top@[tt]).0@ == filtered@[tt].planet@
                            && top@[tt].1@ == filtered@[tt].angle@ && top@[tt].2
                            == filtered@[tt].distance_m,
                decreases 3 - t,
            {
                let inf = &filtered[t];
                top.push((clone_string(&inf.planet), clone_string(&inf.angle), inf.distance_m));
                t = t + 1;
            }
            let filtered_city = CityInfluenceSet {
                city_name: clone_string(&city.city_name),
                country: clone_string(&city.country),
                latitude_udeg: city.latitude_udeg,
                longitude_udeg: city.longitude_udeg,
                influences: filtered,
            };
            let score = calculate_city_score(&filtered_city, config);
            let nature = if score.mixed_flag {
                LineNature::Mixed
            } else if score.benefit_milli > 52_000 {
                LineNature::Beneficial
            } else if score.benefit_milli < 48_000 {
                LineNature::Challenging
            } else {
                LineNature::Mixed
            };
            let ranking = CityRanking {
                city_name: score.city_name,
                country: score.country,
                latitude_udeg: score.latitude_udeg,
                longitude_udeg: score.longitude_udeg,
                benefit_milli: score.benefit_milli,
                intensity_milli: score.intensity_milli,
                volatility_milli: score.volatility_milli,
                mixed_flag: score.mixed_flag,
                top_influences: top,
                nature,
            };
            proof {
                let expected = spec_expected_ranking(cities@[i as int], category, *config);
                lemma_scores_from_views(
                    filtered_city.influences@,
                    *config,
                    filtered_city.influences@.len() as int,
                );
                assert(filtered_city.influences@.map_values(
                    |inf: Influence| spec_influence_view(inf),
                ) == fviews);
                assert(spec_contributions(filtered_city.influences@, *config)
                    == spec_contributions_of_views(fviews, *config));
                lemma_filter_views_map(
                    cities@[i as int].influences@,
                    category,
                    cities@[i as int].influences@.len() as int,
                );
                let got = view_of(ranking);
                assert(got.0 =~= expected.0);
                assert(got.1 =~= expected.1);
                assert forall|tt: int| 0 <= tt < got.8.len() implies #[trigger] got.8[tt]
                    == expected.8[tt] by {
                    assert(fviews[tt] == spec_influence_view(filtered@[tt]));
                }
                assert(got.8 =~= expected.8);
                assert(got == expected);
                assert(rankings@.push(ranking).map_values(view_of) =~= rankings@.map_values(
                    view_of,
                ).push(expected));
                assert(rankings@.push(ranking).map_values(view_of) =~= spec_expected_rankings(
                    cities@,
                    category,
                    *config,
                    i as int + 1,
                ));
            }
            rankings.push(ranking);
        } else {
            proof {
                assert(spec_expected_rankings(cities@, category, *config, i as int + 1)
                    == spec_expected_rankings(cities@, category, *config, i as int));
            }
        }
        i = i + 1;
    }
    sort_rankings(rankings, sort_mode, config.volatility_penalty_milli)
}

/// One country's cities in a category ranking, with its counts.
pub struct RankedCountry {
    pub country: String,
    pub cities: Vec<CityRanking>,
    pub beneficial_count: usize,
    pub challenging_count: usize,
}

impl RankedCountry {
    /// A country group holds at least one city, each within bounds, sorted
    /// by benefit, and its counts cannot exceed its city count.
    pub open spec fn wf(self) -> bool {
        &&& self.cities@.len() > 0
        &&& forall|i: int| 0 <= i < self.cities@.len() ==> (#[trigger] self.cities@[i]).wf()
        &&& self.beneficial_count <= self.cities@.len()
        &&& self.challenging_count <= self.cities@.len()
        &&& forall|i: int, j: int|
            0 <= i <= j < self.cities@.len() ==> (#[trigger] self.cities@[i]).benefit_milli
                >= (#[trigger] self.cities@[j]).benefit_milli
    }
}

/// How many of the first `k` rankings carry a given nature.
pub open spec fn spec_count_nature(cities: Seq<CityRanking>, nature: LineNature, k: int) -> int
    decreases k,
{
    if k <= 0 {
        0
    } else {
        spec_count_nature(cities, nature, k - 1) + if cities[k - 1].nature == nature {
            1int
        } else {
            0int
        }
    }
}

/// Group rankings by country; inside each group the cities are sorted by
/// benefit, and the groups themselves are ordered by their best city.
pub fn group_and_rank_countries(city_rankings: Vec<CityRanking>) -> (r: Vec<RankedCountry>)
    requires
        forall|i: int| 0 <= i < city_rankings@.len() ==> (#[trigger] city_rankings@[i]).wf(),
    ensures
        forall|i: int| 0 <= i < r@.len() ==> (#[trigger] r@[i]).wf(),
        forall|i: int, j: int|
            0 <= i <= j < r@.len() ==> (#[trigger] r@[i]).cities@[0].benefit_milli
                >= (#[trigger] r@[j]).cities@[0].benefit_milli,
        r@.len() > 0 <==> city_rankings@.len() > 0,
        forall|i: int|
            0 <= i < r@.len() ==> (#[trigger] r@[i]).beneficial_count == spec_count_nature(
                r@[i].cities@,
                LineNature::Beneficial,
                r@[i].cities@.len() as int,
            ) && r@[i].challenging_count == spec_count_nature(
                r@[i].cities@,
                LineNature::Challenging,
                r@[i].cities@.len() as int,
            ),
        forall|i: int, j: int|
            0 <= i < r@.len() && 0 <= j < r@[i].cities@.len()
                ==> #[trigger] vstd::utf8::encode_utf8(r@[i].cities@[j].country@)
                == vstd::utf8::encode_utf8(r@[i].country@),
{
    let ghost had_any = city_rankings@.len() > 0;
    let mut groups: Vec<RankedCountry> = Vec::new();
    let mut v = city_rankings;
    while v.len() > 0
        invariant
            had_any == (city_rankings@.len() > 0),
            !had_any ==> groups@.len() == 0,
            groups@.len() == 0 ==> v@.len() == city_rankings@.len(),
            v@.len() == 0 && had_any ==> groups@.len() > 0,
            forall|i: int| 0 <= i < v@.len() ==> (#[trigger] v@[i]).wf(),
            forall|i: int|
                0 <= i < groups@.len() ==> (#[trigger] groups@[i]).cities@.len() > 0,
            forall|i: int, j: int|
                0 <= i < groups@.len() && 0 <= j < (#[trigger] groups@[i]).cities@.len() ==> (
                #[trigger] groups@[i].cities@[j]).wf(),
            forall|i: int, j: int|
                0 <= i < groups@.len() && 0 <= j < groups@[i].cities@.len()
                    ==> #[trigger] vstd::utf8::encode_utf8(groups@[i].cities@[j].country@)
                    == vstd::utf8::encode_utf8(groups@[i].country@),
        decreases v@.len(),
    {
        let city = v.swap_remove(0);
        proof {
            assert(city.wf());
        }
        let mut found: Option<usize> = None;
        let mut g: usize = 0;
        while g < groups.len()
            invariant
                g <= groups@.len(),
                match found {
                    Some(f) => f < groups@.len() && vstd::utf8::encode_utf8(
                        groups@[f as int].country@,
                    ) == vstd::utf8::encode_utf8(city.country@),
                    None => true,
                },
            decreases groups@.len() - g,
        {
            if crate::scoring::str_eq(groups[g].country.as_str(), city.country.as_str()) {
                found = Some(g);
            }
            g = g + 1;
        }
        match found {
            Some(f) => {
                let ghost pre_groups = groups@;
                let mut grp = groups.swap_remove(f);
                proof {
                    assert(forall|j: int|
                        0 <= j < grp.cities@.len() ==> (#[trigger] grp.cities@[j]).wf());
                    assert(forall|j: int|
                        0 <= j < grp.cities@.len() ==> vstd::utf8::encode_utf8(
                            (#[trigger] grp.cities@[j]).country@,
                        ) == vstd::utf8::encode_utf8(grp.country@));
                    assert forall|i: int, j: int|
                        0 <= i < groups@.len() && 0 <= j < groups@[i].cities@.len()
                            implies #[trigger] vstd::utf8::encode_utf8(
                        groups@[i].cities@[j].country@,
                    ) == vstd::utf8::encode_utf8(groups@[i].country@) by {
                        if i == f as int {
                            assert(groups@[i] == pre_groups.last());
                        } else {
                            assert(groups@[i] == pre_groups[i]);
                        }
                    }
                }
                grp.cities.push(city);
                groups.push(grp);
            },
            None => {
                let country = clone_string(&city.country);
                let mut cities: Vec<CityRanking> = Vec::new();
                cities.push(city);
                groups.push(RankedCountry { country, cities, beneficial_count: 0, challenging_count: 0 });
            },
        }
    }

    // Sort each group's cities by benefit and count the natures.
    let ghost group_count = groups@.len();
    let mut finished: Vec<RankedCountry> = Vec::new();
    while groups.len() > 0
        invariant
            finished@.len() + groups@.len() == group_count,
            forall|i: int|
                0 <= i < groups@.len() ==> (#[trigger] groups@[i]).cities@.len() > 0,
            forall|i: int, j: int|
                0 <= i < groups@.len() && 0 <= j < (#[trigger] groups@[i]).cities@.len() ==> (
                #[trigger] groups@[i].cities@[j]).wf(),
            forall|i: int, j: int|
                0 <= i < groups@.len() && 0 <= j < groups@[i].cities@.len()
                    ==> #[trigger] vstd::utf8::encode_utf8(groups@[i].cities@[j].country@)
                    == vstd::utf8::encode_utf8(groups@[i].country@),
            forall|i: int| 0 <= i < finished@.len() ==> (#[trigger] finished@[i]).wf(),
            forall|i: int|
                0 <= i < finished@.len() ==> (#[trigger] finished@[i]).beneficial_count
                    == spec_count_nature(
                    finished@[i].cities@,
                    LineNature::Beneficial,
                    finished@[i].cities@.len() as int,
                ) && finished@[i].challenging_count == spec_count_nature(
                    finished@[i].cities@,
                    LineNature::Challenging,
                    finished@[i].cities@.len() as int,
                ),
            forall|i: int, j: int|
                0 <= i < finished@.len() && 0 <= j < finished@[i].cities@.len()
                    ==> #[trigger] vstd::utf8::encode_utf8(finished@[i].cities@[j].country@)
                    == vstd::utf8::encode_utf8(finished@[i].country@),
        decreases groups@.len(),
    {
        let ghost pre_groups = groups@;
        let grp = groups.swap_remove(0);
        proof {
            broadcast use vstd::seq_lib::group_to_multiset_ensures;

            assert(forall|j: int| 0 <= j < grp.cities@.len() ==> (#[trigger] grp.cities@[j]).wf());
            assert(forall|j: int|
                0 <= j < grp.cities@.len() ==> vstd::utf8::encode_utf8(
                    (#[trigger] grp.cities@[j]).country@,
                ) == vstd::utf8::encode_utf8(grp.country@));
            assert forall|i: int, j: int|
                0 <= i < groups@.len() && 0 <= j < groups@[i].cities@.len() implies (#[trigger]
            groups@[i].cities@[j]).wf() && vstd::utf8::encode_utf8(groups@[i].cities@[j].country@)
                == vstd::utf8::encode_utf8(groups@[i].country@) && groups@[i].cities@.len() > 0 by {
                if i == 0 {
                    assert(groups@[i] == pre_groups.last());
                } else {
                    assert(groups@[i] == pre_groups[i]);
                }
            }
        }
        let ghost grp_cities = grp.cities@;
        let ghost grp_country = grp.country@;
        let n_cities = grp.cities.len();
        let sorted = sort_rankings(grp.cities, SortMode::BenefitFirst, 0);
        proof {
            broadcast use vstd::seq_lib::group_to_multiset_ensures;
            broadcast use vstd::multiset::group_multiset_axioms;

            assert forall|j: int| 0 <= j < sorted@.len() implies vstd::utf8::encode_utf8(
                (#[trigger] sorted@[j]).country@,
            ) == vstd::utf8::encode_utf8(grp_country) by {
                assert(sorted@.to_multiset().count(sorted@[j]) > 0);
                assert(grp_cities.contains(sorted@[j]));
                let w = choose|w: int| 0 <= w < grp_cities.len() && grp_cities[w] == sorted@[j];
            }
        }
        let mut beneficial: usize = 0;
        let mut challenging: usize = 0;
        let mut c: usize = 0;
        while c < sorted.len()
            invariant
                c <= sorted@.len(),
                beneficial <= c,
                challenging <= c,
                beneficial == spec_count_nature(sorted@, LineNature::Beneficial, c as int),
                challenging == spec_count_nature(sorted@, LineNature::Challenging, c as int),
            decreases sorted@.len() - c,
        {
            match sorted[c].nature {
                LineNature::Beneficial => {
                    beneficial = beneficial + 1;
                },
                LineNature::Challenging => {
                    challenging = challenging + 1;
                },
                LineNature::Mixed => {},
            }
            c = c + 1;
        }
        proof {
            assert(sorted@.len() == n_cities);
        }
        finished.push(RankedCountry {
            country: grp.country,
            cities: sorted,
            beneficial_count: beneficial,
            challenging_count: challenging,
        });
    }

    let out = sort_countries_by_top(finished);
    proof {
        broadcast use vstd::seq_lib::group_to_multiset_ensures;
        broadcast use vstd::multiset::group_multiset_axioms;

        let fin = out@;
        assert forall|i: int| 0 <= i < fin.len() implies (#[trigger] fin[i]).beneficial_count
            == spec_count_nature(
            fin[i].cities@,
            LineNature::Beneficial,
            fin[i].cities@.len() as int,
        ) && fin[i].challenging_count == spec_count_nature(
            fin[i].cities@,
            LineNature::Challenging,
            fin[i].cities@.len() as int,
        ) && (forall|j: int|
            0 <= j < fin[i].cities@.len() ==> vstd::utf8::encode_utf8(
                (#[trigger] fin[i].cities@[j]).country@,
            ) == vstd::utf8::encode_utf8(fin[i].country@)) by {
            assert(fin.to_multiset().count(fin[i]) > 0);
            assert(finished@.contains(fin[i]));
            let w = choose|w: int| 0 <= w < finished@.len() && finished@[w] == fin[i];
        }
    }
    out
}

/// Sort country groups by the benefit of their leading city, best first.
fn sort_countries_by_top(input: Vec<RankedCountry>) -> (r: Vec<RankedCountry>)
    requires
        forall|i: int| 0 <= i < input@.len() ==> (#[trigger] input@[i]).wf(),
    ensures
        forall|i: int| 0 <= i < r@.len() ==> (#[trigger] r@[i]).wf(),
        forall|i: int, j: int|
            0 <= i <= j < r@.len() ==> (#[trigger] r@[i]).cities@[0].benefit_milli
                >= (#[trigger] r@[j]).cities@[0].benefit_milli,
        r@.len() == input@.len(),
        r@.to_multiset() == input@.to_multiset(),
{
    let ghost orig = input@;
    let mut v = input;
    let mut out: Vec<RankedCountry> = Vec::new();
    proof {
        broadcast use vstd::seq_lib::group_to_multiset_ensures;
        broadcast use vstd::multiset::group_multiset_axioms;

        assert(out@.to_multiset().add(v@.to_multiset()) =~= orig.to_multiset());
    }
    while v.len() > 0
        invariant
            out@.to_multiset().add(v@.to_multiset()) =~= orig.to_multiset(),
            out@.len() + v@.len() == input@.len(),
            forall|i: int| 0 <= i < v@.len() ==> (#[trigger] v@[i]).wf(),
            forall|i: int| 0 <= i < out@.len() ==> (#[trigger] out@[i]).wf(),
            forall|i: int, j: int|
                0 <= i <= j < out@.len() ==> (#[trigger] out@[i]).cities@[0].benefit_milli
                    >= (#[trigger] out@[j]).cities@[0].benefit_milli,
            forall|i: int, j: int|
                0 <= i < out@.len() && 0 <= j < v@.len() ==> (#[trigger] out@[i]).cities@[0].benefit_milli
                    >= (#[trigger] v@[j]).cities@[0].benefit_milli,
        decreases v@.len(),
    {
        let mut m: usize = 0;
        let mut j: usize = 1;
        while j < v.len()
            invariant
                m < v@.len(),
                1 <= j <= v@.len(),
                forall|i: int| 0 <= i < v@.len() ==> (#[trigger] v@[i]).wf(),
                forall|jj: int|
                    0 <= jj < j ==> v@[m as int].cities@[0].benefit_milli >= (#[trigger] v@[jj]).cities@[0].benefit_milli,
            decreases v@.len() - j,
        {
            if v[j].cities[0].benefit_milli > v[m].cities[0].benefit_milli {
                m = j;
            }
            j = j + 1;
        }
        let ghost pre = v@;
        let x = v.swap_remove(m);
        proof {
            broadcast use vstd::seq_lib::group_to_multiset_ensures;
            broadcast use vstd::multiset::group_multiset_axioms;

            lemma_swap_remove_multiset(pre, m as int);
            assert(out@.push(x).to_multiset() =~= out@.to_multiset().insert(x));
            assert(out@.to_multiset().insert(x).add(v@.to_multiset()) =~= orig.to_multiset());
            assert forall|jj: int| 0 <= jj < v@.len() implies x.cities@[0].benefit_milli
                >= (#[trigger] v@[jj]).cities@[0].benefit_milli && v@[jj].wf() by {
                if jj == m {
                    assert(v@[jj] == pre.last());
                } else {
                    assert(v@[jj] == pre[jj]);
                }
            }
        }
        out.push(x);
    }
    proof {
        broadcast use vstd::seq_lib::group_to_multiset_ensures;
        broadcast use vstd::multiset::group_multiset_axioms;

        assert(v@.to_multiset() =~= vstd::multiset::Multiset::empty());
        assert(out@.to_multiset() =~= orig.to_multiset());
    }
    out
}

} // verus!
