//! Series-level stages of the engine: derivation of growth-rate features
//! over a monthly sequence (including the rolling rate volatility), the
//! trailing-window smoother, and the composed end-to-end calculation.

use vstd::prelude::*;
use crate::fixed::{Fx, SCALE, tdiv, fx_sub_v, clamp_i128};
use crate::transcendental::{isqrt_u128, sat_add_u128};
use crate::niv::{EconomicData, ExtendedEconomicData, NIVComponents, NIVResult, NIVEngine,
    AlertLevel, alert_level_v, pct_change_v, components_match, niv_score_v, probability_v,
    spec_single, SMOOTH_WINDOW};

verus! {

/// Sum of `n` entries of `s` starting at `lo`.
pub open spec fn sum_range(s: Seq<int>, lo: int, n: nat) -> int
    decreases n,
{
    if n == 0 {
        0
    } else {
        sum_range(s, lo, (n - 1) as nat) + s[lo + n - 1]
    }
}

/// Clamp a sum of squares at the top of the unsigned wide range.
pub open spec fn sat_u128(x: int) -> int {
    if x > u128::MAX {
        u128::MAX as int
    } else {
        x
    }
}

/// Saturating sum of squared deviations from `mean` over `n` entries of `s`
/// starting at `lo`.
pub open spec fn sumsq_range(s: Seq<int>, lo: int, n: nat, mean: int) -> int
    decreases n,
{
    if n == 0 {
        0
    } else {
        sat_u128(
            sumsq_range(s, lo, (n - 1) as nat, mean) + (s[lo + n - 1] - mean) * (s[lo + n - 1]
                - mean),
        )
    }
}

/// The policy rates of a raw series.
pub open spec fn rates_of(s: Seq<EconomicData>) -> Seq<int> {
    Seq::new(s.len(), |i: int| s[i].fed_funds_rate.m())
}

/// Population variance of the twelve policy rates ending at index `i`,
/// about their truncated mean.
pub open spec fn variance_v(s: Seq<EconomicData>, i: int) -> int {
    let rates = rates_of(s);
    let mean = tdiv(sum_range(rates, i - 11, 12), 12);
    sumsq_range(rates, i - 11, 12, mean) / 12
}

/// `g` is the rolling volatility at index `i`: the integer square root of
/// the window variance (unique by bracketing).
pub open spec fn sigma_matches(s: Seq<EconomicData>, i: int, g: int) -> bool {
    &&& 0 <= g
    &&& g * g <= variance_v(s, i)
    &&& variance_v(s, i) < (g + 1) * (g + 1)
}

/// The rolling volatility at index `i`, as a value (unique by bracketing).
pub open spec fn sigma_v(s: Seq<EconomicData>, i: int) -> int {
    choose|g: int| sigma_matches(s, i, g)
}

/// Any value satisfying the bracketing is the rolling volatility.
pub proof fn lemma_sigma_unique(s: Seq<EconomicData>, i: int, g: int)
    requires
        sigma_matches(s, i, g),
    ensures
        g == sigma_v(s, i),
{
    let g2 = choose|g2: int| sigma_matches(s, i, g2);
    assert(sigma_matches(s, i, g2));
    let var = variance_v(s, i);
    assert(g == g2) by (nonlinear_arith)
        requires
            0 <= g,
            0 <= g2,
            g * g <= var,
            var < (g + 1) * (g + 1),
            g2 * g2 <= var,
            var < (g2 + 1) * (g2 + 1),
    ;
}

/// The extended record a raw series determines at index `i`, as a spec-level
/// constructor.
pub open spec fn spec_extended(s: Seq<EconomicData>, i: int) -> ExtendedEconomicData {
    ExtendedEconomicData {
        base: s[i],
        dg: Fx { v: pct_change_v(s[i].investment.m(), s[i - 1].investment.m()) as i64 },
        da: Fx { v: pct_change_v(s[i].m2_supply.m(), s[i - 12].m2_supply.m()) as i64 },
        dr: Fx { v: fx_sub_v(s[i].fed_funds_rate.m(), s[i - 1].fed_funds_rate.m()) as i64 },
        sigma_r: Fx { v: sigma_v(s, i) as i64 },
    }
}

/// The extended record a raw series determines at index `i`.
pub open spec fn extended_match(e: ExtendedEconomicData, s: Seq<EconomicData>, i: int) -> bool {
    &&& e.base == s[i]
    &&& e.dg.m() == pct_change_v(s[i].investment.m(), s[i - 1].investment.m())
    &&& e.da.m() == pct_change_v(s[i].m2_supply.m(), s[i - 12].m2_supply.m())
    &&& e.dr.m() == fx_sub_v(s[i].fed_funds_rate.m(), s[i - 1].fed_funds_rate.m())
    &&& sigma_matches(s, i, e.sigma_r.m())
}

/// The raw (pre-smoothing) result a given extended record determines.
pub open spec fn single_match(r: NIVResult, e: ExtendedEconomicData, eta: int, eps: int) -> bool {
    &&& r.date == e.base.date
    &&& components_match(r.components, e)
    &&& r.niv_score.m() == niv_score_v(r.components, eta, eps)
    &&& -100 * SCALE <= r.niv_score.m() <= 100 * SCALE
    &&& r.recession_probability.m() == probability_v(r.niv_score.m())
    &&& 0 <= r.recession_probability.m() <= SCALE
    &&& r.alert_level == alert_level_v(r.recession_probability.m())
}

/// The raw (pre-smoothing) result sequence a raw series determines: one
/// result per eligible month, each through the extended record of its index.
pub open spec fn raw_results(s: Seq<EconomicData>, eta: int, eps: int) -> Seq<NIVResult> {
    Seq::new(
        if s.len() >= 12 {
            (s.len() - 12) as nat
        } else {
            0nat
        },
        |j: int| spec_single(spec_extended(s, j + 12), eta, eps),
    )
}

/// Percent change between two levels; zero when the base is not positive.
pub fn pct_change(cur: Fx, prev: Fx) -> (r: Fx)
    ensures
        r.m() == pct_change_v(cur.m(), prev.m()),
{
    if prev.v > 0 {
        let num: i128 = ((cur.v as i128) - (prev.v as i128)) * 100_000_000i128;
        Fx { v: clamp_i128(num / (prev.v as i128)) }
    } else {
        Fx { v: 0 }
    }
}

/// Rolling volatility: population standard deviation of the twelve policy
/// rates ending at index `i`, rounded down to a whole number of millionths.
fn rolling_sigma(data: &Vec<EconomicData>, i: usize) -> (r: Fx)
    requires
        11 <= i < data@.len(),
    ensures
        sigma_matches(data@, i as int, r.m()),
        r.m() >= 0,
{
    let n: usize = data.len();
    let lo: usize = i - 11;
    let mut sum: i128 = 0;
    let mut j: usize = lo;
    while j <= i
        invariant
            lo == i - 11,
            11 <= i < n,
            n == data@.len(),
            lo <= j <= i + 1,
            sum == sum_range(rates_of(data@), lo as int, (j - lo) as nat),
            -(((j - lo) as i128) * 0x8000_0000_0000_0000i128) <= sum <= ((j - lo) as i128)
                * 0x7FFF_FFFF_FFFF_FFFFi128,
        decreases i + 1 - j,
    {
        sum = sum + (data[j].fed_funds_rate.v as i128);
        j = j + 1;
    }
    proof {
        assert(-(12int * 0x8000_0000_0000_0000) <= tdiv(sum as int, 12) <= 12int
            * 0x7FFF_FFFF_FFFF_FFFF) by (nonlinear_arith)
            requires
                -(12int * 0x8000_0000_0000_0000) <= (sum as int) <= 12int * 0x7FFF_FFFF_FFFF_FFFF,
        ;
        assert(-0x8000_0000_0000_0000 <= tdiv(sum as int, 12) <= 0x7FFF_FFFF_FFFF_FFFF)
            by (nonlinear_arith)
            requires
                -(12int * 0x8000_0000_0000_0000) <= (sum as int) <= 12int * 0x7FFF_FFFF_FFFF_FFFF,
        ;
    }
    let mean: i64 = (sum / 12i128) as i64;
    let ghost rates = rates_of(data@);
    proof {
        assert(mean == tdiv(sum_range(rates, lo as int, 12), 12));
    }
    let mut ssq: u128 = 0;
    let mut j2: usize = lo;
    while j2 <= i
        invariant
            lo == i - 11,
            11 <= i < n,
            n == data@.len(),
            lo <= j2 <= i + 1,
            ssq == sumsq_range(rates_of(data@), lo as int, (j2 - lo) as nat, mean as int),
        decreases i + 1 - j2,
    {
        let d: i128 = (data[j2].fed_funds_rate.v as i128) - (mean as i128);
        let du: u128 = if d < 0 {
            (-d) as u128
        } else {
            d as u128
        };
        proof {
            assert((du as int) * (du as int) == (d as int) * (d as int)
                && (du as int) * (du as int) <= u128::MAX) by (nonlinear_arith)
                requires
                    du as int == if (d as int) < 0 { -(d as int) } else { d as int },
                    -0xFFFF_FFFF_FFFF_FFFF <= (d as int) <= 0xFFFF_FFFF_FFFF_FFFF,
            ;
        }
        let sq: u128 = du * du;
        ssq = sat_add_u128(ssq, sq);
        j2 = j2 + 1;
    }
    let var: u128 = ssq / 12u128;
    let g = isqrt_u128(var);
    proof {
        assert(g as int <= i64::MAX as int) by (nonlinear_arith)
            requires
                (g as int) * (g as int) <= (var as int),
                (var as int) <= 0x1555_5555_5555_5555_5555_5555_5555_5555int,
                g as int >= 0,
        ;
    }
    Fx { v: g as i64 }
}

impl NIVEngine {
    /// Derive the growth-rate features: one extended record for every index
    /// from twelve on, so the output is twelve records shorter than the
    /// input (and empty when the input has no eligible month).
    pub fn compute_extended_data(&self, data: &Vec<EconomicData>) -> (r: Vec<
        ExtendedEconomicData,
    >)
        ensures
            r@.len() == if data@.len() >= 12 { data@.len() - 12 } else { 0int },
            forall|j: int| 0 <= j < r@.len() ==> extended_match(#[trigger] r@[j], data@, j + 12),
            forall|j: int| 0 <= j < r@.len() ==> #[trigger] r@[j] == spec_extended(data@, j + 12),
    {
        let mut extended: Vec<ExtendedEconomicData> = Vec::new();
        if data.len() < 13 {
            if data.len() == 12 {
                return extended;
            }
            if data.len() < 12 {
                return extended;
            }
        }
        let n = data.len();
        let mut i: usize = 12;
        while i < n
            invariant
                12 <= i <= n,
                n == data@.len(),
                n >= 12,
                extended@.len() == i - 12,
                forall|j: int|
                    0 <= j < extended@.len() ==> extended_match(
                        #[trigger] extended@[j],
                        data@,
                        j + 12,
                    ),
                forall|j: int|
                    0 <= j < extended@.len() ==> #[trigger] extended@[j] == spec_extended(
                        data@,
                        j + 12,
                    ),
            decreases n - i,
    {
            let current = data[i];
            let prev_month = data[i - 1];
            let year_ago = data[i - 12];
            let dg = pct_change(current.investment, prev_month.investment);
            let da = pct_change(current.m2_supply, year_ago.m2_supply);
            let dr = current.fed_funds_rate.sub(prev_month.fed_funds_rate);
            let sigma_r = rolling_sigma(data, i);
            let e = ExtendedEconomicData { base: current, dg, da, dr, sigma_r };
            proof {
                lemma_sigma_unique(data@, i as int, sigma_r.m());
                assert(e == spec_extended(data@, i as int));
            }
            extended.push(e);
            i = i + 1;
        }
        extended
    }
}


/// The scores of a result sequence.
pub open spec fn scores_of(rs: Seq<NIVResult>) -> Seq<int> {
    Seq::new(rs.len(), |i: int| rs[i].niv_score.m())
}

/// The probabilities of a result sequence.
pub open spec fn probs_of(rs: Seq<NIVResult>) -> Seq<int> {
    Seq::new(rs.len(), |i: int| rs[i].recession_probability.m())
}

/// The thrust components of a result sequence.
pub open spec fn thrusts_of(rs: Seq<NIVResult>) -> Seq<int> {
    Seq::new(rs.len(), |i: int| rs[i].components.thrust.m())
}

/// The efficiency components of a result sequence.
pub open spec fn efficiencies_of(rs: Seq<NIVResult>) -> Seq<int> {
    Seq::new(rs.len(), |i: int| rs[i].components.efficiency.m())
}

/// The squared-efficiency components of a result sequence.
pub open spec fn efficiency_squares_of(rs: Seq<NIVResult>) -> Seq<int> {
    Seq::new(rs.len(), |i: int| rs[i].components.efficiency_squared.m())
}

/// The slack components of a result sequence.
pub open spec fn slacks_of(rs: Seq<NIVResult>) -> Seq<int> {
    Seq::new(rs.len(), |i: int| rs[i].components.slack.m())
}

/// The combined-drag components of a result sequence.
pub open spec fn drags_of(rs: Seq<NIVResult>) -> Seq<int> {
    Seq::new(rs.len(), |i: int| rs[i].components.drag.m())
}

/// The spread-drag components of a result sequence.
pub open spec fn drag_spreads_of(rs: Seq<NIVResult>) -> Seq<int> {
    Seq::new(rs.len(), |i: int| rs[i].components.drag_spread.m())
}

/// The real-rate-drag components of a result sequence.
pub open spec fn drag_real_rates_of(rs: Seq<NIVResult>) -> Seq<int> {
    Seq::new(rs.len(), |i: int| rs[i].components.drag_real_rate.m())
}

/// The volatility-drag components of a result sequence.
pub open spec fn drag_volatilities_of(rs: Seq<NIVResult>) -> Seq<int> {
    Seq::new(rs.len(), |i: int| rs[i].components.drag_volatility.m())
}

/// Truncated mean of the `w` entries of `xs` ending at index `i`.
pub open spec fn window_avg(xs: Seq<int>, w: int, i: int) -> int {
    tdiv(sum_range(xs, i + 1 - w, w as nat), w)
}

/// The smoothed result at index `i`: every numeric field replaced by its
/// trailing-window mean, the date kept, and the alert tier recomputed from
/// the smoothed probability.
pub open spec fn smoothed_at(rs: Seq<NIVResult>, w: int, i: int) -> NIVResult {
    let p = window_avg(probs_of(rs), w, i);
    NIVResult {
        date: rs[i].date,
        niv_score: Fx { v: window_avg(scores_of(rs), w, i) as i64 },
        recession_probability: Fx { v: p as i64 },
        components: NIVComponents {
            thrust: Fx { v: window_avg(thrusts_of(rs), w, i) as i64 },
            efficiency: Fx { v: window_avg(efficiencies_of(rs), w, i) as i64 },
            efficiency_squared: Fx { v: window_avg(efficiency_squares_of(rs), w, i) as i64 },
            slack: Fx { v: window_avg(slacks_of(rs), w, i) as i64 },
            drag: Fx { v: window_avg(drags_of(rs), w, i) as i64 },
            drag_spread: Fx { v: window_avg(drag_spreads_of(rs), w, i) as i64 },
            drag_real_rate: Fx { v: window_avg(drag_real_rates_of(rs), w, i) as i64 },
            drag_volatility: Fx { v: window_avg(drag_volatilities_of(rs), w, i) as i64 },
        },
        alert_level: alert_level_v(p),
    }
}

/// The smoother's output for a given input: the same length, entries before
/// the first full window unchanged, every later entry the trailing-window
/// average, and an input shorter than the window returned unchanged.
pub open spec fn smoothing_match(out: Seq<NIVResult>, rs: Seq<NIVResult>, w: int) -> bool {
    &&& out.len() == rs.len()
    &&& rs.len() < w ==> out =~= rs
    &&& rs.len() >= w ==> forall|i: int|
        0 <= i < out.len() ==> #[trigger] out[i] == if i < w - 1 {
            rs[i]
        } else {
            smoothed_at(rs, w, i)
        }
}

/// Range facts every result of the pipeline obeys: the score within the
/// symmetric clamp range, the probability within the unit interval, and the
/// alert tier determined by the probability.
pub open spec fn result_bounds(r: NIVResult) -> bool {
    &&& -100 * SCALE <= r.niv_score.m() <= 100 * SCALE
    &&& 0 <= r.recession_probability.m() <= SCALE
    &&& r.alert_level == alert_level_v(r.recession_probability.m())
}

proof fn lemma_sum_range_bounds(s: Seq<int>, lo: int, n: nat, a: int, b: int)
    requires
        forall|j: int| lo <= j < lo + n ==> a <= #[trigger] s[j] <= b,
    ensures
        n * a <= sum_range(s, lo, n) <= n * b,
    decreases n,
{
    if n == 0 {
    } else {
        lemma_sum_range_bounds(s, lo, (n - 1) as nat, a, b);
        assert(n * a == (n - 1) * a + a && n * b == (n - 1) * b + b) by (nonlinear_arith);
    }
}

proof fn lemma_avg_bounds(s: Seq<int>, lo: int, w: int, a: int, b: int)
    requires
        w >= 1,
        a <= 0 <= b,
        forall|j: int| lo <= j < lo + w ==> a <= #[trigger] s[j] <= b,
    ensures
        a <= tdiv(sum_range(s, lo, w as nat), w) <= b,
{
    lemma_sum_range_bounds(s, lo, w as nat, a, b);
    assert(a <= tdiv(sum_range(s, lo, w as nat), w) <= b) by (nonlinear_arith)
        requires
            w >= 1,
            a <= 0 <= b,
            w * a <= sum_range(s, lo, w as nat) <= w * b,
    ;
}

/// Averaging preserves the range facts, and the recomputed alert tier again
/// follows the (averaged) probability.
proof fn lemma_smoothed_bounds(rs: Seq<NIVResult>, w: int, i: int)
    requires
        w >= 1,
        w - 1 <= i < rs.len(),
        forall|j: int| 0 <= j < rs.len() ==> result_bounds(#[trigger] rs[j]),
    ensures
        result_bounds(smoothed_at(rs, w, i)),
{
    let lo = i + 1 - w;
    assert forall|j: int| lo <= j < lo + w implies -100 * SCALE <= #[trigger] scores_of(
        rs,
    )[j] <= 100 * SCALE by {
        assert(result_bounds(rs[j]));
    }
    assert forall|j: int| lo <= j < lo + w implies 0 <= #[trigger] probs_of(rs)[j] <= SCALE by {
        assert(result_bounds(rs[j]));
    }
    lemma_avg_bounds(scores_of(rs), lo, w, -100 * SCALE, 100 * SCALE);
    lemma_avg_bounds(probs_of(rs), lo, w, 0, SCALE as int);
}

/// Truncated mean of a window sum.
fn div_avg(sum: i128, w: usize) -> (r: i64)
    requires
        1 <= w,
        -((w as int) * 0x8000_0000_0000_0000) <= sum as int <= (w as int) * 0x7FFF_FFFF_FFFF_FFFF,
    ensures
        r as int == tdiv(sum as int, w as int),
{
    proof {
        assert(-0x8000_0000_0000_0000 <= tdiv(sum as int, w as int) <= 0x7FFF_FFFF_FFFF_FFFF)
            by (nonlinear_arith)
            requires
                1 <= (w as int),
                -((w as int) * 0x8000_0000_0000_0000) <= (sum as int) <= (w as int)
                    * 0x7FFF_FFFF_FFFF_FFFF,
        ;
    }
    (sum / (w as i128)) as i64
}

impl NIVEngine {
    /// Smooth a result sequence with the default trailing window.
    pub fn apply_smoothing(&self, results: &Vec<NIVResult>) -> (r: Vec<NIVResult>)
        ensures
            smoothing_match(r@, results@, SMOOTH_WINDOW as int),
    {
        let n = results.len();
        let mut out: Vec<NIVResult> = Vec::new();
        if n < SMOOTH_WINDOW {
            let mut i: usize = 0;
            while i < n
                invariant
                    i <= n,
                    n == results@.len(),
                    out@.len() == i,
                    forall|j: int| 0 <= j < i ==> #[trigger] out@[j] == results@[j],
                decreases n - i,
            {
                out.push(results[i]);
                i = i + 1;
            }
            return out;
        }
        let mut i: usize = 0;
        while i < n
            invariant
                i <= n,
                n == results@.len(),
                SMOOTH_WINDOW <= n,
                out@.len() == i,
                forall|j: int|
                    0 <= j < i ==> #[trigger] out@[j] == if j < SMOOTH_WINDOW - 1 {
                        results@[j]
                    } else {
                        smoothed_at(results@, SMOOTH_WINDOW as int, j)
                    },
            decreases n - i,
        {
            if i < SMOOTH_WINDOW - 1 {
                out.push(results[i]);
            } else {
                let lo: usize = i + 1 - SMOOTH_WINDOW;
                let mut s_score: i128 = 0;
                let mut s_prob: i128 = 0;
                let mut s_thrust: i128 = 0;
                let mut s_eff: i128 = 0;
                let mut s_effsq: i128 = 0;
                let mut s_slack: i128 = 0;
                let mut s_drag: i128 = 0;
                let mut s_dspread: i128 = 0;
                let mut s_dreal: i128 = 0;
                let mut s_dvol: i128 = 0;
                let mut j: usize = lo;
                while j <= i
                    invariant
                        lo == i + 1 - SMOOTH_WINDOW,
                        SMOOTH_WINDOW - 1 <= i < n,
                        n == results@.len(),
                        lo <= j <= i + 1,
                        s_score == sum_range(scores_of(results@), lo as int, (j - lo) as nat),
                        s_prob == sum_range(probs_of(results@), lo as int, (j - lo) as nat),
                        s_thrust == sum_range(thrusts_of(results@), lo as int, (j - lo) as nat),
                        s_eff == sum_range(efficiencies_of(results@), lo as int, (j - lo) as nat),
                        s_effsq == sum_range(
                            efficiency_squares_of(results@),
                            lo as int,
                            (j - lo) as nat,
                        ),
                        s_slack == sum_range(slacks_of(results@), lo as int, (j - lo) as nat),
                        s_drag == sum_range(drags_of(results@), lo as int, (j - lo) as nat),
                        s_dspread == sum_range(
                            drag_spreads_of(results@),
                            lo as int,
                            (j - lo) as nat,
                        ),
                        s_dreal == sum_range(
                            drag_real_rates_of(results@),
                            lo as int,
                            (j - lo) as nat,
                        ),
                        s_dvol == sum_range(
                            drag_volatilities_of(results@),
                            lo as int,
                            (j - lo) as nat,
                        ),
                        -(((j - lo) as i128) * 0x8000_0000_0000_0000i128) <= s_score <= ((j
                            - lo) as i128) * 0x7FFF_FFFF_FFFF_FFFFi128,
                        -(((j - lo) as i128) * 0x8000_0000_0000_0000i128) <= s_prob <= ((j
                            - lo) as i128) * 0x7FFF_FFFF_FFFF_FFFFi128,
                        -(((j - lo) as i128) * 0x8000_0000_0000_0000i128) <= s_thrust <= ((j
                            - lo) as i128) * 0x7FFF_FFFF_FFFF_FFFFi128,
                        -(((j - lo) as i128) * 0x8000_0000_0000_0000i128) <= s_eff <= ((j
                            - lo) as i128) * 0x7FFF_FFFF_FFFF_FFFFi128,
                        -(((j - lo) as i128) * 0x8000_0000_0000_0000i128) <= s_effsq <= ((j
                            - lo) as i128) * 0x7FFF_FFFF_FFFF_FFFFi128,
                        -(((j - lo) as i128) * 0x8000_0000_0000_0000i128) <= s_slack <= ((j
                            - lo) as i128) * 0x7FFF_FFFF_FFFF_FFFFi128,
                        -(((j - lo) as i128) * 0x8000_0000_0000_0000i128) <= s_drag <= ((j
                            - lo) as i128) * 0x7FFF_FFFF_FFFF_FFFFi128,
                        -(((j - lo) as i128) * 0x8000_0000_0000_0000i128) <= s_dspread <= ((j
                            - lo) as i128) * 0x7FFF_FFFF_FFFF_FFFFi128,
                        -(((j - lo) as i128) * 0x8000_0000_0000_0000i128) <= s_dreal <= ((j
                            - lo) as i128) * 0x7FFF_FFFF_FFFF_FFFFi128,
                        -(((j - lo) as i128) * 0x8000_0000_0000_0000i128) <= s_dvol <= ((j
                            - lo) as i128) * 0x7FFF_FFFF_FFFF_FFFFi128,
                    decreases i + 1 - j,
                {
                    let rj = results[j];
                    s_score = s_score + (rj.niv_score.v as i128);
                    s_prob = s_prob + (rj.recession_probability.v as i128);
                    s_thrust = s_thrust + (rj.components.thrust.v as i128);
                    s_eff = s_eff + (rj.components.efficiency.v as i128);
                    s_effsq = s_effsq + (rj.components.efficiency_squared.v as i128);
                    s_slack = s_slack + (rj.components.slack.v as i128);
                    s_drag = s_drag + (rj.components.drag.v as i128);
                    s_dspread = s_dspread + (rj.components.drag_spread.v as i128);
                    s_dreal = s_dreal + (rj.components.drag_real_rate.v as i128);
                    s_dvol = s_dvol + (rj.components.drag_volatility.v as i128);
                    j = j + 1;
                }
                let avg_prob = Fx { v: div_avg(s_prob, SMOOTH_WINDOW) };
                let res = NIVResult {
                    date: results[i].date,
                    niv_score: Fx { v: div_avg(s_score, SMOOTH_WINDOW) },
                    recession_probability: avg_prob,
                    components: NIVComponents {
                        thrust: Fx { v: div_avg(s_thrust, SMOOTH_WINDOW) },
                        efficiency: Fx { v: div_avg(s_eff, SMOOTH_WINDOW) },
                        efficiency_squared: Fx { v: div_avg(s_effsq, SMOOTH_WINDOW) },
                        slack: Fx { v: div_avg(s_slack, SMOOTH_WINDOW) },
                        drag: Fx { v: div_avg(s_drag, SMOOTH_WINDOW) },
                        drag_spread: Fx { v: div_avg(s_dspread, SMOOTH_WINDOW) },
                        drag_real_rate: Fx { v: div_avg(s_dreal, SMOOTH_WINDOW) },
                        drag_volatility: Fx { v: div_avg(s_dvol, SMOOTH_WINDOW) },
                    },
                    alert_level: AlertLevel::from_probability(avg_prob),
                };
                proof {
                    assert(res == smoothed_at(results@, SMOOTH_WINDOW as int, i as int));
                }
                out.push(res);
            }
            i = i + 1;
        }
        out
    }

    /// Run the full pipeline: derive features, compute one raw result per
    /// eligible month, then smooth.  Fewer than thirteen input months yield
    /// an empty output; otherwise the output is twelve months shorter than
    /// the input, every score lies in the symmetric clamp range, every
    /// probability in the unit interval, and every alert tier follows its
    /// probability.
    pub fn calculate_series(&self, data: &Vec<EconomicData>) -> (r: Vec<NIVResult>)
        ensures
            data@.len() < 13 ==> r@.len() == 0,
            data@.len() >= 13 ==> r@.len() == data@.len() - 12,
            data@.len() >= 13 ==> smoothing_match(
                r@,
                raw_results(data@, self.eta_m(), self.epsilon_m()),
                SMOOTH_WINDOW as int,
            ),
            forall|i: int| 0 <= i < r@.len() ==> result_bounds(#[trigger] r@[i]),
    {
        if data.len() < 13 {
            let empty: Vec<NIVResult> = Vec::new();
            return empty;
        }
        let extended = self.compute_extended_data(data);
        let mut raw: Vec<NIVResult> = Vec::new();
        let mut i: usize = 0;
        let m = extended.len();
        while i < m
            invariant
                i <= m,
                m == extended@.len(),
                raw@.len() == i,
                forall|j: int|
                    0 <= j < i ==> #[trigger] raw@[j] == spec_single(
                        extended@[j],
                        self.eta_m(),
                        self.epsilon_m(),
                    ),
                forall|j: int|
                    0 <= j < i ==> single_match(
                        #[trigger] raw@[j],
                        extended@[j],
                        self.eta_m(),
                        self.epsilon_m(),
                    ),
            decreases m - i,
        {
            let res = self.calculate_single(&extended[i]);
            raw.push(res);
            i = i + 1;
        }
        let out = self.apply_smoothing(&raw);
        proof {
            let eta = self.eta_m();
            let eps = self.epsilon_m();
            let spec_raw = raw_results(data@, eta, eps);
            assert forall|j: int| 0 <= j < raw@.len() implies #[trigger] raw@[j]
                == spec_raw[j] by {
                assert(extended@[j] == spec_extended(data@, j + 12));
                assert(raw@[j] == spec_single(extended@[j], eta, eps));
            }
            assert(raw@ =~= spec_raw);
            assert forall|j: int| 0 <= j < raw@.len() implies result_bounds(
                #[trigger] raw@[j],
            ) by {
                assert(single_match(raw@[j], extended@[j], eta, eps));
            }
            assert forall|k: int| 0 <= k < out@.len() implies result_bounds(
                #[trigger] out@[k],
            ) by {
                if raw@.len() >= SMOOTH_WINDOW && k >= SMOOTH_WINDOW - 1 {
                    lemma_smoothed_bounds(raw@, SMOOTH_WINDOW as int, k);
                } else {
                    assert(out@[k] == raw@[k]);
                }
            }
        }
        out
    }
}

} // verus!
