//! Location scoring: distance-decay kernels, rating and aspect handling,
//! and the bounded diminishing-returns aggregation of influences into city
//! scores.
//!
//! Scales: decay kernels are parts per million (`KQ`); a single influence
//! contribution is `rating offset (+-2) x aspect multiplier (centi) x
//! kernel`, so one full-strength beneficial influence is `2 * 100 * 10^6 =
//! 2 * 10^8`; scores are milli-points in `[0, 100_000]`, that is `0.0` to
//! `100.0` points.  The score bounds are proved from the weight sums, not
//! clamped in.

use vstd::prelude::*;
use vstd::string::StringSliceAdditionalSpecFns;
use crate::ephemeris::Planet;
use crate::fixmath::{divc, mulb};
use crate::lines::LineType;
use crate::trig;

verus! {

/// Kernel unit: a decay factor of one is a million.
pub const KQ: i64 = 1_000_000;

/// Distance (metres) treated as unreachable; stands in where a city
/// collects no influence at all.
pub const FAR_AWAY_M: i64 = 1_000_000_000;

/// Life categories a location can be scouted for.
#[derive(Clone, Copy, Debug, PartialEq, Eq, Structural)]
pub enum LifeCategory {
    Career,
    Love,
    Health,
    Home,
    Wellbeing,
    Wealth,
}

/// Aspect types carried by influences.
#[derive(Clone, Copy, Debug, PartialEq, Eq, Structural)]
pub enum AspectType {
    Conjunction,
    Trine,
    Sextile,
    Square,
    Quincunx,
    Opposition,
    Sesquisquare,
}

/// Distance decay kernel choice.
#[derive(Clone, Copy, Debug, PartialEq, Eq, Structural)]
pub enum KernelType {
    Linear,
    Gaussian,
    Exponential,
}

/// City ranking order.
#[derive(Clone, Copy, Debug, PartialEq, Eq, Structural)]
pub enum SortMode {
    BenefitFirst,
    IntensityFirst,
    BalancedBenefit,
}

/// Scoring configuration: kernel choice and parameter, the influence
/// cut-off distance, and the volatility penalty (milli-units) used by the
/// balanced sort.
#[derive(Clone, Copy, Debug)]
pub struct ScoringConfig {
    pub kernel_type: KernelType,
    pub kernel_parameter_m: i64,
    pub max_distance_km: i64,
    pub volatility_penalty_milli: i64,
}

impl ScoringConfig {
    /// A usable configuration: positive kernel parameter, sane cut-off and
    /// penalty.
    pub open spec fn wf(self) -> bool {
        &&& 1 <= self.kernel_parameter_m <= 100_000_000
        &&& 0 <= self.max_distance_km <= 100_000
        &&& 0 <= self.volatility_penalty_milli <= 1000
    }

    /// Balanced accuracy against computation (the recommended default):
    /// a Gaussian kernel with a 180 km sigma.
    pub fn balanced() -> (r: ScoringConfig)
        ensures
            r.wf(),
            r.kernel_type == KernelType::Gaussian,
            r.kernel_parameter_m == 180_000,
            r.max_distance_km == 500,
            r.volatility_penalty_milli == 300,
    {
        ScoringConfig {
            kernel_type: KernelType::Gaussian,
            kernel_parameter_m: 180_000,
            max_distance_km: 500,
            volatility_penalty_milli: 300,
        }
    }

    /// Maximum sensitivity to nearby lines.
    pub fn high_precision() -> (r: ScoringConfig)
        ensures
            r.wf(),
            r.kernel_type == KernelType::Gaussian,
            r.kernel_parameter_m == 120_000,
            r.max_distance_km == 600,
            r.volatility_penalty_milli == 400,
    {
        ScoringConfig {
            kernel_type: KernelType::Gaussian,
            kernel_parameter_m: 120_000,
            max_distance_km: 600,
            volatility_penalty_milli: 400,
        }
    }

    /// Broad influence with relaxed boundaries.
    pub fn relaxed() -> (r: ScoringConfig)
        ensures
            r.wf(),
            r.kernel_type == KernelType::Linear,
            r.kernel_parameter_m == 500_000,
            r.max_distance_km == 500,
            r.volatility_penalty_milli == 200,
    {
        ScoringConfig {
            kernel_type: KernelType::Linear,
            kernel_parameter_m: 500_000,
            max_distance_km: 500,
            volatility_penalty_milli: 200,
        }
    }

    /// The balanced configuration under the conventional constructor name.
    pub fn new() -> (r: ScoringConfig)
        ensures
            r.wf(),
            r.kernel_type == KernelType::Gaussian,
            r.kernel_parameter_m == 180_000,
    {
        ScoringConfig::balanced()
    }
}

impl Default for ScoringConfig {
    /// The balanced configuration.
    fn default() -> (r: ScoringConfig)
        ensures
            r.wf(),
    {
        ScoringConfig::balanced()
    }
}

/// Linear decay: one at distance zero, zero from the bandwidth on.
pub open spec fn spec_linear_kernel(distance_m: int, bandwidth_m: int) -> int {
    if distance_m >= bandwidth_m {
        0
    } else {
        1_000_000 - (distance_m * 1_000_000) / bandwidth_m
    }
}

/// Linear distance decay kernel, parts per million.
pub fn linear_kernel(distance_m: i64, bandwidth_m: i64) -> (r: i64)
    requires
        0 <= distance_m,
        1 <= bandwidth_m <= 100_000_000,
    ensures
        r == spec_linear_kernel(distance_m as int, bandwidth_m as int),
        0 <= r <= KQ,
        distance_m == 0 ==> r == KQ,
{
    if distance_m >= bandwidth_m {
        0
    } else {
        let scaled = mulb(distance_m as i128, 100_000_000, 1_000_000, 1_000_000);
        let frac = divc(scaled, bandwidth_m as i128);
        proof {
            assert((distance_m as int) * 1_000_000 / (bandwidth_m as int) < 1_000_000) by (nonlinear_arith)
                requires
                    0 <= distance_m < bandwidth_m,
                    bandwidth_m >= 1;
        }
        1_000_000 - (frac as i64)
    }
}


/// Repeated halving, the exact model of the power-of-two scale-down.
pub open spec fn spec_halve(v: int, k: nat) -> int
    decreases k,
{
    if k == 0 {
        v
    } else {
        spec_halve(v / 2, (k - 1) as nat)
    }
}

/// Exact model of `exp_neg_micro`: range reduction by ln 2, the positive
/// Horner chain, and the halvings.
pub open spec fn spec_exp_neg_micro(x: int) -> int {
    let n = x / 693_147;
    let f = x % 693_147;
    if n >= 40 {
        0
    } else {
        let g6 = 1_000_000 - f / 6;
        let g5 = 1_000_000 - ((f * g6) / 1_000_000) / 5;
        let g4 = 1_000_000 - ((f * g5) / 1_000_000) / 4;
        let g3 = 1_000_000 - ((f * g4) / 1_000_000) / 3;
        let g2 = 1_000_000 - ((f * g3) / 1_000_000) / 2;
        let g1 = 1_000_000 - (f * g2) / 1_000_000;
        spec_halve(g1, n as nat)
    }
}

/// Exact model of the Gaussian kernel.
pub open spec fn spec_gaussian_kernel(distance_m: int, sigma_m: int) -> int {
    let num = if distance_m <= 10_000_000_000 {
        distance_m * distance_m * 1_000_000
    } else {
        100_000_000_000_000_000_000_000_000
    };
    let x = num / (2 * (sigma_m * sigma_m));
    let x_cap = if x > 30_000_000 {
        30_000_000
    } else {
        x
    };
    spec_exp_neg_micro(x_cap)
}

/// Exact model of the exponential kernel.
pub open spec fn spec_exponential_kernel(distance_m: int, lambda_m: int) -> int {
    let x = (distance_m * 1_000_000) / lambda_m;
    let x_cap = if x > 30_000_000 {
        30_000_000
    } else {
        x
    };
    spec_exp_neg_micro(x_cap)
}

/// Exact model of the kernel dispatch.
pub open spec fn spec_apply_kernel(distance_m: int, config: ScoringConfig) -> int {
    match config.kernel_type {
        KernelType::Linear => spec_linear_kernel(distance_m, config.kernel_parameter_m as int),
        KernelType::Gaussian => spec_gaussian_kernel(distance_m, config.kernel_parameter_m as int),
        KernelType::Exponential => spec_exponential_kernel(
            distance_m,
            config.kernel_parameter_m as int,
        ),
    }
}

/// `exp(-x)` for `x` in micro-units, parts per million; exact one at zero,
/// never above one and never negative.
pub fn exp_neg_micro(x: i64) -> (r: i64)
    requires
        0 <= x,
    ensures
        r == spec_exp_neg_micro(x as int),
        0 <= r <= KQ,
        x == 0 ==> r == KQ,
{
    // Range reduction: x = n ln2 + f with ln2 = 0.693147.
    let xu = x as u64;
    let n: u64 = xu / 693_147;
    let f: u64 = xu % 693_147;
    if n >= 40 {
        return 0;
    }
    proof {
        if x == 0 {
            assert(n == 0 && f == 0);
        }
    }
    // Alternating series of exp(-f) in a positive Horner chain.
    let fu = f as u128;
    proof {
        assert(fu < 693_147);
    }
    let g6: u128 = 1_000_000 - fu / 6;
    proof {
        assert(fu * g6 <= 693_147 * 1_000_000) by (nonlinear_arith)
            requires fu <= 693_147, g6 <= 1_000_000;
    }
    let g5: u128 = 1_000_000 - fu * g6 / 1_000_000 / 5;
    proof {
        assert(fu * g5 <= 693_147 * 1_000_000) by (nonlinear_arith)
            requires fu <= 693_147, g5 <= 1_000_000;
    }
    let g4: u128 = 1_000_000 - fu * g5 / 1_000_000 / 4;
    proof {
        assert(fu * g4 <= 693_147 * 1_000_000) by (nonlinear_arith)
            requires fu <= 693_147, g4 <= 1_000_000;
    }
    let g3: u128 = 1_000_000 - fu * g4 / 1_000_000 / 3;
    proof {
        assert(fu * g3 <= 693_147 * 1_000_000) by (nonlinear_arith)
            requires fu <= 693_147, g3 <= 1_000_000;
    }
    let g2: u128 = 1_000_000 - fu * g3 / 1_000_000 / 2;
    proof {
        assert(fu * g2 <= 693_147 * 1_000_000) by (nonlinear_arith)
            requires fu <= 693_147, g2 <= 1_000_000;
    }
    let g1: u128 = 1_000_000 - fu * g2 / 1_000_000;
    let mut e: u64 = g1 as u64;
    let mut i: u64 = 0;
    while i < n
        invariant
            i <= 40,
            e <= 1_000_000,
            i <= n,
            n < 40,
            spec_halve(e as int, (n - i) as nat) == spec_halve(g1 as int, n as nat),
            x == 0 ==> e == 1_000_000 && n == 0,
        decreases n - i,
    {
        e = e / 2;
        i = i + 1;
    }
    e as i64
}

/// Gaussian decay: `exp(-(d/sigma)^2 / 2)`, parts per million.
pub fn gaussian_kernel(distance_m: i64, sigma_m: i64) -> (r: i64)
    requires
        0 <= distance_m,
        1 <= sigma_m <= 100_000_000,
    ensures
        r == spec_gaussian_kernel(distance_m as int, sigma_m as int),
        0 <= r <= KQ,
        distance_m == 0 ==> r == KQ,
{
    let d = distance_m as u128;
    let s = sigma_m as u128;
    proof {
        if d <= 10_000_000_000 {
            assert(d * d <= 10_000_000_000 * 10_000_000_000) by (nonlinear_arith)
                requires d <= 10_000_000_000;
        }
        assert(s * s <= 100_000_000 * 100_000_000 && s * s >= 1) by (nonlinear_arith)
            requires 1 <= s <= 100_000_000;
    }
    let num: u128 = if d <= 10_000_000_000 {
        d * d * 1_000_000
    } else {
        // Far beyond any geodesic distance: saturate.
        100_000_000_000_000_000_000_000_000
    };
    let den: u128 = 2 * (s * s);
    let x: u128 = num / den;
    let x_cap: i64 = if x > 30_000_000 {
        30_000_000
    } else {
        x as i64
    };
    proof {
        if distance_m == 0 {
            assert(num == 0) by (nonlinear_arith)
                requires
                    d == 0,
                    num == d * d * 1_000_000;
        }
    }
    exp_neg_micro(x_cap)
}

/// Exponential decay: `exp(-d/lambda)`, parts per million.
pub fn exponential_kernel(distance_m: i64, lambda_m: i64) -> (r: i64)
    requires
        0 <= distance_m,
        1 <= lambda_m <= 100_000_000,
    ensures
        r == spec_exponential_kernel(distance_m as int, lambda_m as int),
        0 <= r <= KQ,
        distance_m == 0 ==> r == KQ,
{
    let num: u128 = (distance_m as u128) * 1_000_000;
    let x: u128 = num / (lambda_m as u128);
    let x_cap: i64 = if x > 30_000_000 {
        30_000_000
    } else {
        x as i64
    };
    exp_neg_micro(x_cap)
}

/// Decay factor of an influence at a distance, by the configured kernel.
pub fn apply_kernel(distance_m: i64, config: &ScoringConfig) -> (r: i64)
    requires
        0 <= distance_m,
        config.wf(),
    ensures
        r == spec_apply_kernel(distance_m as int, *config),
        0 <= r <= KQ,
        distance_m == 0 ==> r == KQ,
        config.kernel_type == KernelType::Linear ==> r == spec_linear_kernel(
            distance_m as int,
            config.kernel_parameter_m as int,
        ),
{
    match config.kernel_type {
        KernelType::Linear => linear_kernel(distance_m, config.kernel_parameter_m),
        KernelType::Gaussian => gaussian_kernel(distance_m, config.kernel_parameter_m),
        KernelType::Exponential => exponential_kernel(distance_m, config.kernel_parameter_m),
    }
}

/// Signed benefit of a rating: five maps to plus two, one to minus two.
pub fn rating_to_benefit(rating: u8) -> (r: i64)
    requires
        1 <= rating <= 5,
    ensures
        r == rating as int - 3,
        -2 <= r <= 2,
{
    (rating as i64) - 3
}

/// Intensity of a rating: the absolute distance from the neutral three.
pub fn rating_to_intensity(rating: u8) -> (r: i64)
    requires
        1 <= rating <= 5,
    ensures
        r == (if rating >= 3 { rating as int - 3 } else { 3 - rating as int }),
        0 <= r <= 2,
{
    if rating >= 3 {
        (rating as i64) - 3
    } else {
        3 - (rating as i64)
    }
}

/// Benefit multiplier of an aspect, in hundredths.
pub open spec fn spec_benefit_mult_c(aspect: Option<AspectType>) -> int {
    match aspect {
        None => 100,
        Some(AspectType::Conjunction) => 100,
        Some(AspectType::Trine) => 70,
        Some(AspectType::Sextile) => 70,
        Some(AspectType::Square) => -60,
        Some(AspectType::Quincunx) => 30,
        Some(AspectType::Opposition) => -50,
        Some(AspectType::Sesquisquare) => -40,
    }
}

/// Intensity multiplier of an aspect, in hundredths.
pub open spec fn spec_intensity_mult_c(aspect: Option<AspectType>) -> int {
    match aspect {
        None => 100,
        Some(AspectType::Conjunction) => 100,
        Some(AspectType::Trine) => 60,
        Some(AspectType::Sextile) => 60,
        Some(AspectType::Square) => 85,
        Some(AspectType::Quincunx) => 40,
        Some(AspectType::Opposition) => 80,
        Some(AspectType::Sesquisquare) => 70,
    }
}

/// Benefit multiplier of an aspect, in hundredths: supportive aspects are
/// positive, challenging ones negative.
pub fn aspect_benefit_multiplier(aspect: AspectType) -> (r: i64)
    ensures
        r == spec_benefit_mult_c(Some(aspect)),
        -100 <= r <= 100,
{
    match aspect {
        AspectType::Conjunction => 100,
        AspectType::Trine => 70,
        AspectType::Sextile => 70,
        AspectType::Square => -60,
        AspectType::Quincunx => 30,
        AspectType::Opposition => -50,
        AspectType::Sesquisquare => -40,
    }
}

/// Intensity multiplier of an aspect, in hundredths.
pub fn aspect_intensity_multiplier(aspect: AspectType) -> (r: i64)
    ensures
        r == spec_intensity_mult_c(Some(aspect)),
        0 <= r <= 100,
{
    match aspect {
        AspectType::Conjunction => 100,
        AspectType::Trine => 60,
        AspectType::Sextile => 60,
        AspectType::Square => 85,
        AspectType::Quincunx => 40,
        AspectType::Opposition => 80,
        AspectType::Sesquisquare => 70,
    }
}

/// One planetary line's influence on a location.
pub struct Influence {
    pub planet: String,
    pub angle: String,
    pub rating: u8,
    pub aspect: Option<AspectType>,
    pub distance_m: i64,
}

impl Influence {
    /// A rating on the one-to-five scale and a non-negative distance.
    pub open spec fn wf(self) -> bool {
        &&& 1 <= self.rating <= 5
        &&& 0 <= self.distance_m
    }
}

/// The contribution of one influence: benefit (signed), intensity and
/// volatility, each in `2 * 10^8`-per-full-influence units.
#[derive(Clone, Copy, Debug)]
pub struct InfluenceContribution {
    pub benefit_c: i64,
    pub intensity_c: i64,
    pub volatility_c: i64,
}

impl InfluenceContribution {
    /// Contribution magnitudes bounded by one full influence.
    pub open spec fn wf(self) -> bool {
        &&& -200_000_000 <= self.benefit_c <= 200_000_000
        &&& 0 <= self.intensity_c <= 200_000_000
        &&& 0 <= self.volatility_c <= 200_000_000
    }
}

/// The contribution for a rating, aspect and decay factor: benefit is the
/// signed rating offset times the aspect multiplier times the kernel;
/// intensity the unsigned analogue; volatility records the kernel-weighted
/// base magnitude exactly when a negative aspect multiplier flips a
/// non-neutral rating.
pub open spec fn spec_contribution(rating: int, aspect: Option<AspectType>, kernel: int) -> InfluenceContribution {
    let base_b = rating - 3;
    let base_i = if rating >= 3 {
        rating - 3
    } else {
        3 - rating
    };
    let mb = spec_benefit_mult_c(aspect);
    let mi = spec_intensity_mult_c(aspect);
    InfluenceContribution {
        benefit_c: (base_b * mb * kernel) as i64,
        intensity_c: (base_i * mi * kernel) as i64,
        volatility_c: (if mb < 0 && base_b != 0 {
            (if base_b > 0 {
                base_b
            } else {
                -base_b
            }) * 100 * kernel
        } else {
            0
        }) as i64,
    }
}

/// Contribution of a rating and aspect at a known decay factor.
pub fn contribution_from_kernel(rating: u8, aspect: Option<AspectType>, kernel: i64) -> (r: InfluenceContribution)
    requires
        1 <= rating <= 5,
        0 <= kernel <= KQ,
    ensures
        r == spec_contribution(rating as int, aspect, kernel as int),
        r.wf(),
{
    let base_b = rating_to_benefit(rating);
    let base_i = rating_to_intensity(rating);
    let mb = match aspect {
        Some(a) => aspect_benefit_multiplier(a),
        None => 100,
    };
    let mi = match aspect {
        Some(a) => aspect_intensity_multiplier(a),
        None => 100,
    };
    proof {
        assert(-200 <= base_b * mb <= 200) by (nonlinear_arith)
            requires -2 <= base_b <= 2, -100 <= mb <= 100;
        assert(-200_000_000 <= (base_b * mb) * kernel <= 200_000_000) by (nonlinear_arith)
            requires -200 <= base_b * mb <= 200, 0 <= kernel <= 1_000_000;
        assert(0 <= base_i * mi <= 200) by (nonlinear_arith)
            requires 0 <= base_i <= 2, 0 <= mi <= 100;
        assert(0 <= (base_i * mi) * kernel <= 200_000_000) by (nonlinear_arith)
            requires 0 <= base_i * mi <= 200, 0 <= kernel <= 1_000_000;
    }
    let benefit_c: i64 = base_b * mb * kernel;
    let intensity_c: i64 = base_i * mi * kernel;
    let volatility_c: i64 = if mb < 0 && base_b != 0 {
        let mag = if base_b > 0 {
            base_b
        } else {
            -base_b
        };
        proof {
            assert(0 <= (mag * 100) * kernel <= 200_000_000) by (nonlinear_arith)
                requires 0 <= mag <= 2, 0 <= kernel <= 1_000_000;
        }
        mag * 100 * kernel
    } else {
        0
    };
    InfluenceContribution { benefit_c, intensity_c, volatility_c }
}

/// Contribution of an influence under a configuration: its distance decay
/// factor applied to its rating and aspect.  The decay factor is some value
/// in `[0, 1]` that is exactly one at distance zero (and exactly the linear
/// ramp under the linear kernel).
pub fn calculate_influence_contribution(influence: &Influence, config: &ScoringConfig) -> (r: InfluenceContribution)
    requires
        influence.wf(),
        config.wf(),
    ensures
        r.wf(),
        r == spec_contribution(
            influence.rating as int,
            influence.aspect,
            spec_apply_kernel(influence.distance_m as int, *config),
        ),
{
    let kernel = apply_kernel(influence.distance_m, config);
    contribution_from_kernel(influence.rating, influence.aspect, kernel)
}

/// Diminishing-returns weight of the influence at a rank, in hundredths:
/// the first and strongest influence counts in full, later ones less, and
/// everything past the seventh not at all.
pub open spec fn spec_weight(i: int) -> int {
    if i == 0 {
        100
    } else if i == 1 {
        60
    } else if i == 2 {
        35
    } else if i == 3 {
        20
    } else if i == 4 {
        10
    } else if i == 5 {
        8
    } else if i == 6 {
        5
    } else {
        0
    }
}

/// Sum of the first `k` weights, in hundredths (238 in total).
pub open spec fn spec_weight_prefix(k: int) -> int
    decreases k,
{
    if k <= 0 {
        0
    } else {
        spec_weight_prefix(k - 1) + spec_weight(k - 1)
    }
}

/// Executable weight table.
fn dim_weight(i: usize) -> (r: i64)
    ensures
        r == spec_weight(i as int),
        0 <= r <= 100,
{
    if i == 0 {
        100
    } else if i == 1 {
        60
    } else if i == 2 {
        35
    } else if i == 3 {
        20
    } else if i == 4 {
        10
    } else if i == 5 {
        8
    } else if i == 6 {
        5
    } else {
        0
    }
}

/// Weighted benefit sum of the first `k` contributions.
pub open spec fn spec_wsum_benefit(s: Seq<InfluenceContribution>, k: int) -> int
    decreases k,
{
    if k <= 0 {
        0
    } else {
        spec_wsum_benefit(s, k - 1) + spec_weight(k - 1) * s[k - 1].benefit_c
    }
}

/// Weighted intensity sum of the first `k` contributions.
pub open spec fn spec_wsum_intensity(s: Seq<InfluenceContribution>, k: int) -> int
    decreases k,
{
    if k <= 0 {
        0
    } else {
        spec_wsum_intensity(s, k - 1) + spec_weight(k - 1) * s[k - 1].intensity_c
    }
}

/// Weighted sum of the positive benefit parts of the first `k`
/// contributions.
pub open spec fn spec_wsum_pos(s: Seq<InfluenceContribution>, k: int) -> int
    decreases k,
{
    if k <= 0 {
        0
    } else {
        spec_wsum_pos(s, k - 1) + spec_weight(k - 1) * (if s[k - 1].benefit_c > 0 {
            s[k - 1].benefit_c as int
        } else {
            0
        })
    }
}

/// Weighted sum of the negative benefit parts (as magnitudes) of the first
/// `k` contributions.
pub open spec fn spec_wsum_neg(s: Seq<InfluenceContribution>, k: int) -> int
    decreases k,
{
    if k <= 0 {
        0
    } else {
        spec_wsum_neg(s, k - 1) + spec_weight(k - 1) * (if s[k - 1].benefit_c < 0 {
            -(s[k - 1].benefit_c as int)
        } else {
            0
        })
    }
}

/// The aggregated milli-point scores of one location.
pub struct ScoreValues {
    pub benefit_milli: i64,
    pub intensity_milli: i64,
    pub volatility_milli: i64,
    pub mixed: bool,
}

/// Aggregate the leading contributions (strongest first) into the three
/// scores with the fixed diminishing weights.
///
/// The exact statements: the benefit score is `50 + 10.5 b` points where
/// `b` is the weighted benefit sum; intensity is `21 i` points; the mixed
/// flag holds exactly when the weighted positive and negative partial sums
/// both exceed one half; and all three scores lie within `[0, 100]` points
/// for every input, by the weight bound alone.
#[verifier::rlimit(100)]
pub fn aggregate_scores(contribs: &Vec<InfluenceContribution>) -> (r: ScoreValues)
    requires
        forall|i: int| 0 <= i < contribs@.len() ==> (#[trigger] contribs@[i]).wf(),
    ensures
        ({
            let k = if contribs@.len() >= 7 {
                7int
            } else {
                contribs@.len() as int
            };
            &&& r.benefit_milli == 50_000 + (21 * spec_wsum_benefit(contribs@, k)) / 20_000_000
            &&& r.intensity_milli == (21 * spec_wsum_intensity(contribs@, k)) / 10_000_000
            &&& r.mixed == (spec_wsum_pos(contribs@, k) > 5_000_000_000 && spec_wsum_neg(
                contribs@,
                k,
            ) > 5_000_000_000)
            &&& r.volatility_milli == (trig::spec_isqrt(
                spec_wsum_pos(contribs@, k) * spec_wsum_neg(contribs@, k),
            ) * 42_000) / 10_000_000_000
        }),
        0 <= r.benefit_milli <= 100_000,
        0 <= r.intensity_milli <= 100_000,
        0 <= r.volatility_milli <= 100_000,
{
    let len = contribs.len();
    let k: usize = if len >= 7 {
        7
    } else {
        len
    };
    let mut bacc: i128 = 0;
    let mut iacc: i128 = 0;
    let mut pacc: i128 = 0;
    let mut nacc: i128 = 0;
    let mut i: usize = 0;
    while i < k
        invariant
            0 <= i <= k,
            k <= contribs@.len(),
            k <= 7,
            forall|j: int| 0 <= j < contribs@.len() ==> (#[trigger] contribs@[j]).wf(),
            bacc == spec_wsum_benefit(contribs@, i as int),
            iacc == spec_wsum_intensity(contribs@, i as int),
            pacc == spec_wsum_pos(contribs@, i as int),
            nacc == spec_wsum_neg(contribs@, i as int),
            -spec_weight_prefix(i as int) * 200_000_000 <= bacc,
            bacc <= spec_weight_prefix(i as int) * 200_000_000,
            0 <= iacc <= spec_weight_prefix(i as int) * 200_000_000,
            0 <= pacc,
            0 <= nacc,
            pacc + nacc <= spec_weight_prefix(i as int) * 200_000_000,
        decreases k - i,
    {
        proof {
            lemma_weight_prefix_bound(i as int);
            lemma_weight_prefix_bound(i as int + 1);
        }
        let w = dim_weight(i);
        let c = &contribs[i];
        let wb = mulb(w as i128, 100, c.benefit_c as i128, 200_000_000);
        let wi = mulb(w as i128, 100, c.intensity_c as i128, 200_000_000);
        bacc = bacc + wb;
        iacc = iacc + wi;
        if c.benefit_c > 0 {
            pacc = pacc + wb;
        } else if c.benefit_c < 0 {
            nacc = nacc - wb;
        }
        proof {
            assert(spec_weight_prefix(i as int + 1) == spec_weight_prefix(i as int) + spec_weight(
                i as int,
            ));
            assert(wb == spec_weight(i as int) * contribs@[i as int].benefit_c);
            if contribs@[i as int].benefit_c > 0 {
                assert(wb >= 0) by (nonlinear_arith)
                    requires
                        wb == spec_weight(i as int) * contribs@[i as int].benefit_c,
                        spec_weight(i as int) >= 0,
                        contribs@[i as int].benefit_c > 0;
            }
            if contribs@[i as int].benefit_c < 0 {
                assert(wb <= 0) by (nonlinear_arith)
                    requires
                        wb == spec_weight(i as int) * contribs@[i as int].benefit_c,
                        spec_weight(i as int) >= 0,
                        contribs@[i as int].benefit_c < 0;
            }
        }
        i = i + 1;
    }
    proof {
        lemma_weight_prefix_bound(k as int);
        vstd::arithmetic::div_mod::lemma_div_pos_is_pos(21 * iacc, 10_000_000);
    }
    let benefit_milli: i64 = (50_000 + crate::fixmath::divb(
        21 * bacc,
        1_000_000_000_000,
        20_000_000,
    )) as i64;
    let intensity_milli: i64 = crate::fixmath::divb(21 * iacc, 1_000_000_000_000, 10_000_000)
        as i64;
    let pn = mulb(pacc, 47_600_000_000, nacc, 47_600_000_000);
    proof {
        assert(pacc * nacc <= 23_800_000_000 * 23_800_000_000) by (nonlinear_arith)
            requires
                0 <= pacc,
                0 <= nacc,
                pacc + nacc <= 47_600_000_000;
        assert(pacc * nacc >= 0) by (nonlinear_arith)
            requires
                0 <= pacc,
                0 <= nacc;
    }
    let v = trig::isqrt_i128(pn);
    proof {
        assert(v <= 23_800_000_000) by (nonlinear_arith)
            requires
                v * v <= 23_800_000_000 * 23_800_000_000,
                v >= 0;
        vstd::arithmetic::div_mod::lemma_div_pos_is_pos(v * 42_000, 10_000_000_000);
    }
    let volatility_milli: i64 = crate::fixmath::divb(
        v * 42_000,
        1_000_000_000_000_000,
        10_000_000_000,
    ) as i64;
    let mixed = pacc > 5_000_000_000 && nacc > 5_000_000_000;
    ScoreValues { benefit_milli, intensity_milli, volatility_milli, mixed }
}

/// The weight prefix sums are bounded by the full sum, 238 hundredths.
pub proof fn lemma_weight_prefix_bound(k: int)
    requires
        0 <= k <= 7,
    ensures
        0 <= spec_weight_prefix(k) <= 238,
{
    assert(spec_weight_prefix(0) == 0);
    assert(spec_weight_prefix(1) == 100);
    assert(spec_weight_prefix(2) == 160);
    assert(spec_weight_prefix(3) == 195);
    assert(spec_weight_prefix(4) == 215);
    assert(spec_weight_prefix(5) == 225);
    assert(spec_weight_prefix(6) == 233);
    assert(spec_weight_prefix(7) == 238);
}


/// Byte-for-byte equality of two byte slices.
fn bytes_eq(a: &[u8], b: &[u8]) -> (r: bool)
    ensures
        r == (a@ == b@),
{
    if a.len() != b.len() {
        proof {
            assert(a@.len() != b@.len());
        }
        return false;
    }
    let mut i: usize = 0;
    while i < a.len()
        invariant
            i <= a@.len(),
            a@.len() == b@.len(),
            forall|j: int| 0 <= j < i ==> a@[j] == b@[j],
        decreases a@.len() - i,
    {
        if a[i] != b[i] {
            return false;
        }
        i = i + 1;
    }
    proof {
        assert(a@ =~= b@);
    }
    true
}

/// Equality of two strings, by their bytes.
pub fn str_eq(a: &str, b: &str) -> (r: bool)
    ensures
        r == (a.spec_bytes() == b.spec_bytes()),
{
    bytes_eq(a.as_bytes(), b.as_bytes())
}

/// The planet named by a string, if any.
pub open spec fn spec_parse_planet(s: Seq<u8>) -> Option<Planet> {
    if s == "Sun".spec_bytes() {
        Some(Planet::Sun)
    } else if s == "Moon".spec_bytes() {
        Some(Planet::Moon)
    } else if s == "Mercury".spec_bytes() {
        Some(Planet::Mercury)
    } else if s == "Venus".spec_bytes() {
        Some(Planet::Venus)
    } else if s == "Mars".spec_bytes() {
        Some(Planet::Mars)
    } else if s == "Jupiter".spec_bytes() {
        Some(Planet::Jupiter)
    } else if s == "Saturn".spec_bytes() {
        Some(Planet::Saturn)
    } else if s == "Uranus".spec_bytes() {
        Some(Planet::Uranus)
    } else if s == "Neptune".spec_bytes() {
        Some(Planet::Neptune)
    } else if s == "Pluto".spec_bytes() {
        Some(Planet::Pluto)
    } else if s == "Chiron".spec_bytes() {
        Some(Planet::Chiron)
    } else if s == "NorthNode".spec_bytes() {
        Some(Planet::NorthNode)
    } else {
        None
    }
}

/// Parse a planet name.
pub fn parse_planet_name(s: &str) -> (r: Option<Planet>)
    ensures
        r == spec_parse_planet(s.spec_bytes()),
{
    if str_eq(s, "Sun") {
        Some(Planet::Sun)
    } else if str_eq(s, "Moon") {
        Some(Planet::Moon)
    } else if str_eq(s, "Mercury") {
        Some(Planet::Mercury)
    } else if str_eq(s, "Venus") {
        Some(Planet::Venus)
    } else if str_eq(s, "Mars") {
        Some(Planet::Mars)
    } else if str_eq(s, "Jupiter") {
        Some(Planet::Jupiter)
    } else if str_eq(s, "Saturn") {
        Some(Planet::Saturn)
    } else if str_eq(s, "Uranus") {
        Some(Planet::Uranus)
    } else if str_eq(s, "Neptune") {
        Some(Planet::Neptune)
    } else if str_eq(s, "Pluto") {
        Some(Planet::Pluto)
    } else if str_eq(s, "Chiron") {
        Some(Planet::Chiron)
    } else if str_eq(s, "NorthNode") {
        Some(Planet::NorthNode)
    } else {
        None
    }
}

/// The angle named by a string, if any.
pub open spec fn spec_parse_angle(s: Seq<u8>) -> Option<LineType> {
    if s == "MC".spec_bytes() {
        Some(LineType::MC)
    } else if s == "IC".spec_bytes() {
        Some(LineType::IC)
    } else if s == "ASC".spec_bytes() {
        Some(LineType::ASC)
    } else if s == "DSC".spec_bytes() {
        Some(LineType::DSC)
    } else {
        None
    }
}

/// Parse an angle name.
pub fn parse_angle_name(s: &str) -> (r: Option<LineType>)
    ensures
        r == spec_parse_angle(s.spec_bytes()),
{
    if str_eq(s, "MC") {
        Some(LineType::MC)
    } else if str_eq(s, "IC") {
        Some(LineType::IC)
    } else if str_eq(s, "ASC") {
        Some(LineType::ASC)
    } else if str_eq(s, "DSC") {
        Some(LineType::DSC)
    } else {
        None
    }
}

/// Whether a planet on an angle supports a life category.
pub open spec fn spec_beneficial_pair(
    p: Planet,
    a: LineType,
    category: LifeCategory,
) -> bool {
    match category {
        LifeCategory::Career => {
            ||| (p == Planet::Sun && a == LineType::MC)
            ||| (p == Planet::Jupiter && a == LineType::MC)
            ||| (p == Planet::Mercury && a == LineType::MC)
            ||| (p == Planet::Venus && a == LineType::MC)
            ||| (p == Planet::Mars && a == LineType::MC)
            ||| (p == Planet::Saturn && a == LineType::MC)
            ||| (p == Planet::Pluto && a == LineType::MC)
            ||| (p == Planet::Sun && a == LineType::ASC)
            ||| (p == Planet::Mars && a == LineType::ASC)
            ||| (p == Planet::Jupiter && a == LineType::ASC)
            ||| (p == Planet::Mercury && a == LineType::ASC)
        },
        LifeCategory::Love => {
            ||| (p == Planet::Venus && a == LineType::DSC)
            ||| (p == Planet::Sun && a == LineType::DSC)
            ||| (p == Planet::Jupiter && a == LineType::DSC)
            ||| (p == Planet::Moon && a == LineType::DSC)
            ||| (p == Planet::Venus && a == LineType::ASC)
            ||| (p == Planet::Sun && a == LineType::ASC)
            ||| (p == Planet::Mars && a == LineType::ASC)
            ||| (p == Planet::Jupiter && a == LineType::ASC)
        },
        LifeCategory::Health => {
            ||| (p == Planet::Sun && a == LineType::ASC)
            ||| (p == Planet::Jupiter && a == LineType::ASC)
            ||| (p == Planet::Moon && a == LineType::ASC)
            ||| (p == Planet::Mars && a == LineType::ASC)
            ||| (p == Planet::Venus && a == LineType::IC)
            ||| (p == Planet::Jupiter && a == LineType::MC)
            ||| (p == Planet::Venus && a == LineType::MC)
            ||| (p == Planet::Sun && a == LineType::IC)
            ||| (p == Planet::Moon && a == LineType::IC)
        },
        LifeCategory::Home => {
            ||| (p == Planet::Venus && a == LineType::IC)
            ||| (p == Planet::Moon && a == LineType::IC)
            ||| (p == Planet::Jupiter && a == LineType::IC)
            ||| (p == Planet::Sun && a == LineType::IC)
            ||| (p == Planet::Saturn && a == LineType::IC)
            ||| (p == Planet::Venus && a == LineType::ASC)
            ||| (p == Planet::Moon && a == LineType::ASC)
            ||| (p == Planet::Jupiter && a == LineType::ASC)
            ||| (p == Planet::Mercury && a == LineType::IC)
        },
        LifeCategory::Wellbeing => {
            ||| (p == Planet::Venus && a == LineType::ASC)
            ||| (p == Planet::Venus && a == LineType::IC)
            ||| (p == Planet::Venus && a == LineType::DSC)
            ||| (p == Planet::Jupiter && a == LineType::ASC)
            ||| (p == Planet::Jupiter && a == LineType::MC)
            ||| (p == Planet::Jupiter && a == LineType::IC)
            ||| (p == Planet::Jupiter && a == LineType::DSC)
            ||| (p == Planet::Moon && a == LineType::IC)
            ||| (p == Planet::Moon && a == LineType::ASC)
            ||| (p == Planet::Sun && a == LineType::ASC)
            ||| (p == Planet::Sun && a == LineType::IC)
            ||| (p == Planet::Neptune && a == LineType::ASC)
        },
        LifeCategory::Wealth => {
            ||| (p == Planet::Jupiter && a == LineType::MC)
            ||| (p == Planet::Jupiter && a == LineType::IC)
            ||| (p == Planet::Jupiter && a == LineType::ASC)
            ||| (p == Planet::Jupiter && a == LineType::DSC)
            ||| (p == Planet::Venus && a == LineType::MC)
            ||| (p == Planet::Venus && a == LineType::ASC)
            ||| (p == Planet::Sun && a == LineType::MC)
            ||| (p == Planet::Sun && a == LineType::ASC)
            ||| (p == Planet::Mercury && a == LineType::MC)
            ||| (p == Planet::Mercury && a == LineType::ASC)
            ||| (p == Planet::Pluto && a == LineType::MC)
        },
    }
}

/// Whether a planet on an angle challenges a life category.
pub open spec fn spec_challenging_pair(
    p: Planet,
    a: LineType,
    category: LifeCategory,
) -> bool {
    match category {
        LifeCategory::Career => {
            ||| (p == Planet::Neptune && a == LineType::MC)
            ||| (p == Planet::Uranus && a == LineType::MC)
            ||| (p == Planet::Moon && a == LineType::MC)
        },
        LifeCategory::Love => {
            ||| (p == Planet::Saturn && a == LineType::DSC)
            ||| (p == Planet::Pluto && a == LineType::DSC)
            ||| (p == Planet::Mars && a == LineType::DSC)
            ||| (p == Planet::Uranus && a == LineType::DSC)
            ||| (p == Planet::Neptune && a == LineType::DSC)
        },
        LifeCategory::Health => {
            ||| (p == Planet::Saturn && a == LineType::ASC)
            ||| (p == Planet::Saturn && a == LineType::MC)
            ||| (p == Planet::Neptune && a == LineType::ASC)
            ||| (p == Planet::Pluto && a == LineType::ASC)
            ||| (p == Planet::Uranus && a == LineType::ASC)
        },
        LifeCategory::Home => {
            ||| (p == Planet::Uranus && a == LineType::IC)
            ||| (p == Planet::Neptune && a == LineType::IC)
            ||| (p == Planet::Pluto && a == LineType::IC)
            ||| (p == Planet::Saturn && a == LineType::IC)
            ||| (p == Planet::Mars && a == LineType::IC)
        },
        LifeCategory::Wellbeing => {
            ||| (p == Planet::Saturn && a == LineType::ASC)
            ||| (p == Planet::Saturn && a == LineType::MC)
            ||| (p == Planet::Neptune && a == LineType::MC)
            ||| (p == Planet::Pluto && a == LineType::ASC)
            ||| (p == Planet::Pluto && a == LineType::MC)
            ||| (p == Planet::Mars && a == LineType::ASC)
        },
        LifeCategory::Wealth => {
            ||| (p == Planet::Neptune && a == LineType::MC)
            ||| (p == Planet::Neptune && a == LineType::IC)
            ||| (p == Planet::Uranus && a == LineType::MC)
            ||| (p == Planet::Uranus && a == LineType::IC)
            ||| (p == Planet::Saturn && a == LineType::ASC)
        },
    }
}

/// Beneficial test over the string names: parse both names and consult the
/// category table; unknown names support nothing.
pub open spec fn spec_is_beneficial(planet: Seq<u8>, angle: Seq<u8>, category: LifeCategory) -> bool {
    match (spec_parse_planet(planet), spec_parse_angle(angle)) {
        (Some(p), Some(a)) => spec_beneficial_pair(p, a, category),
        _ => false,
    }
}

/// Challenging test over the string names.
pub open spec fn spec_is_challenging(planet: Seq<u8>, angle: Seq<u8>, category: LifeCategory) -> bool {
    match (spec_parse_planet(planet), spec_parse_angle(angle)) {
        (Some(p), Some(a)) => spec_challenging_pair(p, a, category),
        _ => false,
    }
}

/// Beneficial category table over the parsed pair.
fn beneficial_pair(p: Planet, a: LineType, category: LifeCategory) -> (r: bool)
    ensures
        r == spec_beneficial_pair(p, a, category),
{
    match category {
        LifeCategory::Career => match (p, a) {
            (Planet::Sun, LineType::MC) | (Planet::Jupiter, LineType::MC) | (Planet::Mercury, LineType::MC) | (Planet::Venus, LineType::MC)
            | (Planet::Mars, LineType::MC) | (Planet::Saturn, LineType::MC) | (Planet::Pluto, LineType::MC) | (Planet::Sun, LineType::ASC)
            | (Planet::Mars, LineType::ASC) | (Planet::Jupiter, LineType::ASC) | (Planet::Mercury, LineType::ASC) => true,
            _ => false,
        },
        LifeCategory::Love => match (p, a) {
            (Planet::Venus, LineType::DSC) | (Planet::Sun, LineType::DSC) | (Planet::Jupiter, LineType::DSC) | (Planet::Moon, LineType::DSC)
            | (Planet::Venus, LineType::ASC) | (Planet::Sun, LineType::ASC) | (Planet::Mars, LineType::ASC) | (Planet::Jupiter, LineType::ASC) => true,
            _ => false,
        },
        LifeCategory::Health => match (p, a) {
            (Planet::Sun, LineType::ASC) | (Planet::Jupiter, LineType::ASC) | (Planet::Moon, LineType::ASC) | (Planet::Mars, LineType::ASC)
            | (Planet::Venus, LineType::IC) | (Planet::Jupiter, LineType::MC) | (Planet::Venus, LineType::MC) | (Planet::Sun, LineType::IC)
            | (Planet::Moon, LineType::IC) => true,
            _ => false,
        },
        LifeCategory::Home => match (p, a) {
            (Planet::Venus, LineType::IC) | (Planet::Moon, LineType::IC) | (Planet::Jupiter, LineType::IC) | (Planet::Sun, LineType::IC)
            | (Planet::Saturn, LineType::IC) | (Planet::Venus, LineType::ASC) | (Planet::Moon, LineType::ASC) | (Planet::Jupiter, LineType::ASC)
            | (Planet::Mercury, LineType::IC) => true,
            _ => false,
        },
        LifeCategory::Wellbeing => match (p, a) {
            (Planet::Venus, LineType::ASC) | (Planet::Venus, LineType::IC) | (Planet::Venus, LineType::DSC) | (Planet::Jupiter, LineType::ASC)
            | (Planet::Jupiter, LineType::MC) | (Planet::Jupiter, LineType::IC) | (Planet::Jupiter, LineType::DSC) | (Planet::Moon, LineType::IC)
            | (Planet::Moon, LineType::ASC) | (Planet::Sun, LineType::ASC) | (Planet::Sun, LineType::IC) | (Planet::Neptune, LineType::ASC) => true,
            _ => false,
        },
        LifeCategory::Wealth => match (p, a) {
            (Planet::Jupiter, LineType::MC) | (Planet::Jupiter, LineType::IC) | (Planet::Jupiter, LineType::ASC) | (Planet::Jupiter, LineType::DSC)
            | (Planet::Venus, LineType::MC) | (Planet::Venus, LineType::ASC) | (Planet::Sun, LineType::MC) | (Planet::Sun, LineType::ASC)
            | (Planet::Mercury, LineType::MC) | (Planet::Mercury, LineType::ASC) | (Planet::Pluto, LineType::MC) => true,
            _ => false,
        },
    }
}

/// Challenging category table over the parsed pair.
fn challenging_pair(p: Planet, a: LineType, category: LifeCategory) -> (r: bool)
    ensures
        r == spec_challenging_pair(p, a, category),
{
    match category {
        LifeCategory::Career => match (p, a) {
            (Planet::Neptune, LineType::MC) | (Planet::Uranus, LineType::MC) | (Planet::Moon, LineType::MC) => true,
            _ => false,
        },
        LifeCategory::Love => match (p, a) {
            (Planet::Saturn, LineType::DSC) | (Planet::Pluto, LineType::DSC) | (Planet::Mars, LineType::DSC) | (Planet::Uranus, LineType::DSC)
            | (Planet::Neptune, LineType::DSC) => true,
            _ => false,
        },
        LifeCategory::Health => match (p, a) {
            (Planet::Saturn, LineType::ASC) | (Planet::Saturn, LineType::MC) | (Planet::Neptune, LineType::ASC) | (Planet::Pluto, LineType::ASC)
            | (Planet::Uranus, LineType::ASC) => true,
            _ => false,
        },
        LifeCategory::Home => match (p, a) {
            (Planet::Uranus, LineType::IC) | (Planet::Neptune, LineType::IC) | (Planet::Pluto, LineType::IC) | (Planet::Saturn, LineType::IC)
            | (Planet::Mars, LineType::IC) => true,
            _ => false,
        },
        LifeCategory::Wellbeing => match (p, a) {
            (Planet::Saturn, LineType::ASC) | (Planet::Saturn, LineType::MC) | (Planet::Neptune, LineType::MC) | (Planet::Pluto, LineType::ASC)
            | (Planet::Pluto, LineType::MC) | (Planet::Mars, LineType::ASC) => true,
            _ => false,
        },
        LifeCategory::Wealth => match (p, a) {
            (Planet::Neptune, LineType::MC) | (Planet::Neptune, LineType::IC) | (Planet::Uranus, LineType::MC) | (Planet::Uranus, LineType::IC)
            | (Planet::Saturn, LineType::ASC) => true,
            _ => false,
        },
    }
}

/// Whether a named line supports the category.
pub fn is_beneficial_for_category(planet: &str, angle: &str, category: LifeCategory) -> (r: bool)
    ensures
        r == spec_is_beneficial(planet.spec_bytes(), angle.spec_bytes(), category),
{
    match (parse_planet_name(planet), parse_angle_name(angle)) {
        (Some(p), Some(a)) => beneficial_pair(p, a, category),
        _ => false,
    }
}

/// Whether a named line challenges the category.
pub fn is_challenging_for_category(planet: &str, angle: &str, category: LifeCategory) -> (r: bool)
    ensures
        r == spec_is_challenging(planet.spec_bytes(), angle.spec_bytes(), category),
{
    match (parse_planet_name(planet), parse_angle_name(angle)) {
        (Some(p), Some(a)) => challenging_pair(p, a, category),
        _ => false,
    }
}

/// The nature of a named line for a category.
#[derive(Clone, Copy, Debug, PartialEq, Eq, Structural)]
pub enum LineNature {
    Beneficial,
    Challenging,
    Mixed,
}

/// The nature of a line for a category, `None` when the pair plays no role
/// there.
pub fn get_line_nature(planet: &str, angle: &str, category: LifeCategory) -> (r: Option<LineNature>)
    ensures
        spec_is_beneficial(planet.spec_bytes(), angle.spec_bytes(), category) ==> r == Some(
            LineNature::Beneficial,
        ),
        (!spec_is_beneficial(planet.spec_bytes(), angle.spec_bytes(), category)
            && spec_is_challenging(planet.spec_bytes(), angle.spec_bytes(), category)) ==> r
            == Some(LineNature::Challenging),
        (!spec_is_beneficial(planet.spec_bytes(), angle.spec_bytes(), category)
            && !spec_is_challenging(planet.spec_bytes(), angle.spec_bytes(), category)) ==> r
            is None,
{
    if is_beneficial_for_category(planet, angle, category) {
        Some(LineNature::Beneficial)
    } else if is_challenging_for_category(planet, angle, category) {
        Some(LineNature::Challenging)
    } else {
        None
    }
}

} // verus!
