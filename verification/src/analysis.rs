//! Scenario analysis over computed series: summary statistics with hit
//! counts against the recession table, re-weighted what-if evaluation of
//! the master formula, parameter sensitivity sweeps, and the statistics
//! behind resampling draws.

use vstd::prelude::*;
use crate::fixed::{Fx, SCALE, tdiv, sat64, fx_mul_v, clamp_i128};
use crate::niv::{NIVResult, NIVComponents, NIVEngine, AlertLevel, alert_level_v, niv_score_v,
    probability_v};
use crate::series::{sum_range, sumsq_range, probs_of};
use crate::service::{is_recession_v, RecessionPeriods, custom_smoothing_match,
    apply_custom_smoothing};
use crate::transcendental::{isqrt_u128, sat_add_u128};

verus! {

/// Headline statistics of a simulated series.
#[derive(Clone, Copy, PartialEq, Eq, Structural, Debug)]
pub struct SimulationSummary {
    pub total_points: usize,
    pub avg_probability: Fx,
    pub max_probability: Fx,
    pub min_probability: Fx,
    pub recessions_detected: usize,
    pub false_positives: usize,
    pub true_positives: usize,
}

/// Largest probability among the first `n` results, from zero.
pub open spec fn maxp_v(rs: Seq<NIVResult>, n: nat) -> int
    decreases n,
{
    if n == 0 {
        0
    } else {
        let p = maxp_v(rs, (n - 1) as nat);
        if rs[n - 1].recession_probability.m() > p {
            rs[n - 1].recession_probability.m()
        } else {
            p
        }
    }
}

/// Smallest probability among the first `n` results, from one.
pub open spec fn minp_v(rs: Seq<NIVResult>, n: nat) -> int
    decreases n,
{
    if n == 0 {
        SCALE as int
    } else {
        let p = minp_v(rs, (n - 1) as nat);
        if rs[n - 1].recession_probability.m() < p {
            rs[n - 1].recession_probability.m()
        } else {
            p
        }
    }
}

/// Number of the first `n` results whose probability signals contraction.
pub open spec fn signals_v(rs: Seq<NIVResult>, n: nat) -> int
    decreases n,
{
    if n == 0 {
        0
    } else {
        signals_v(rs, (n - 1) as nat) + if rs[n - 1].recession_probability.m() > 500_000 {
            1int
        } else {
            0int
        }
    }
}

/// Number of contraction signals among the first `n` that fall in a
/// recognized episode.
pub open spec fn true_positives_v(rs: Seq<NIVResult>, n: nat) -> int
    decreases n,
{
    if n == 0 {
        0
    } else {
        true_positives_v(rs, (n - 1) as nat) + if rs[n - 1].recession_probability.m() > 500_000
            && is_recession_v(rs[n - 1].date) {
            1int
        } else {
            0int
        }
    }
}

/// Number of contraction signals among the first `n` outside any
/// recognized episode.
pub open spec fn false_positives_v(rs: Seq<NIVResult>, n: nat) -> int
    decreases n,
{
    if n == 0 {
        0
    } else {
        false_positives_v(rs, (n - 1) as nat) + if rs[n - 1].recession_probability.m() > 500_000
            && !is_recession_v(rs[n - 1].date) {
            1int
        } else {
            0int
        }
    }
}

/// Summarize a simulated series: probability statistics, contraction
/// signals, and their split against the recognized episode table.
pub fn calculate_simulation_summary(results: &Vec<NIVResult>) -> (r: SimulationSummary)
    ensures
        r.total_points == results@.len(),
        results@.len() == 0 ==> r.avg_probability.m() == 0 && r.max_probability.m() == 0
            && r.min_probability.m() == 0,
        results@.len() > 0 ==> r.avg_probability.m() == tdiv(
            sum_range(probs_of(results@), 0, results@.len()),
            results@.len() as int,
        ),
        results@.len() > 0 ==> r.max_probability.m() == maxp_v(results@, results@.len()),
        results@.len() > 0 ==> r.min_probability.m() == minp_v(results@, results@.len()),
        r.recessions_detected == signals_v(results@, results@.len()),
        r.true_positives == true_positives_v(results@, results@.len()),
        r.false_positives == false_positives_v(results@, results@.len()),
{
    let n = results.len();
    if n == 0 {
        return SimulationSummary {
            total_points: 0,
            avg_probability: Fx { v: 0 },
            max_probability: Fx { v: 0 },
            min_probability: Fx { v: 0 },
            recessions_detected: 0,
            false_positives: 0,
            true_positives: 0,
        };
    }
    let mut sum: i128 = 0;
    let mut maxp: i64 = 0;
    let mut minp: i64 = SCALE;
    let mut signals: usize = 0;
    let mut tp: usize = 0;
    let mut fp: usize = 0;
    let mut i: usize = 0;
    while i < n
        invariant
            i <= n,
            n == results@.len(),
            sum == sum_range(probs_of(results@), 0, i as nat),
            -((i as i128) * 0x8000_0000_0000_0000i128) <= sum <= (i as i128)
                * 0x7FFF_FFFF_FFFF_FFFFi128,
            maxp == maxp_v(results@, i as nat),
            minp == minp_v(results@, i as nat),
            signals == signals_v(results@, i as nat),
            tp == true_positives_v(results@, i as nat),
            fp == false_positives_v(results@, i as nat),
            signals <= i,
            tp <= i,
            fp <= i,
        decreases n - i,
    {
        let rc = results[i];
        let p = rc.recession_probability.v;
        sum = sum + (p as i128);
        if p > maxp {
            maxp = p;
        }
        if p < minp {
            minp = p;
        }
        if p > 500_000 {
            signals = signals + 1;
            if RecessionPeriods::is_recession(rc.date) {
                tp = tp + 1;
            } else {
                fp = fp + 1;
            }
        }
        i = i + 1;
    }
    proof {
        assert(-0x8000_0000_0000_0000 <= tdiv(sum as int, n as int) <= 0x7FFF_FFFF_FFFF_FFFF)
            by (nonlinear_arith)
            requires
                1 <= (n as int),
                -((n as int) * 0x8000_0000_0000_0000) <= (sum as int) <= (n as int)
                    * 0x7FFF_FFFF_FFFF_FFFF,
        ;
    }
    let avg: i64 = (sum / (n as i128)) as i64;
    SimulationSummary {
        total_points: n,
        avg_probability: Fx { v: avg },
        max_probability: Fx { v: maxp },
        min_probability: Fx { v: minp },
        recessions_detected: signals,
        false_positives: fp,
        true_positives: tp,
    }
}

/// Multipliers applied to the sub-indices in a what-if evaluation.
#[derive(Clone, Copy, PartialEq, Eq, Structural, Debug)]
pub struct ComponentWeights {
    pub thrust: Fx,
    pub efficiency: Fx,
    pub slack: Fx,
    pub drag: Fx,
}

impl ComponentWeights {
    /// Unit weights: the what-if evaluation reproduces the master formula's
    /// own components.
    pub fn identity() -> (r: ComponentWeights)
        ensures
            r.thrust.m() == SCALE,
            r.efficiency.m() == SCALE,
            r.slack.m() == SCALE,
            r.drag.m() == SCALE,
    {
        ComponentWeights {
            thrust: Fx { v: SCALE },
            efficiency: Fx { v: SCALE },
            slack: Fx { v: SCALE },
            drag: Fx { v: SCALE },
        }
    }
}

/// Components with the four sub-indices scaled by their weights; the
/// squared efficiency is recomputed from the scaled efficiency, and the
/// drag sub-parts keep their original readings.
pub open spec fn scaled_components_v(c: NIVComponents, w: ComponentWeights) -> NIVComponents {
    let eff = fx_mul_v(c.efficiency.m(), w.efficiency.m());
    NIVComponents {
        thrust: Fx { v: fx_mul_v(c.thrust.m(), w.thrust.m()) as i64 },
        efficiency: Fx { v: eff as i64 },
        efficiency_squared: Fx { v: fx_mul_v(eff, eff) as i64 },
        slack: Fx { v: fx_mul_v(c.slack.m(), w.slack.m()) as i64 },
        drag: Fx { v: fx_mul_v(c.drag.m(), w.drag.m()) as i64 },
        drag_spread: c.drag_spread,
        drag_real_rate: c.drag_real_rate,
        drag_volatility: c.drag_volatility,
    }
}

fn scale_components(c: &NIVComponents, w: ComponentWeights) -> (r: NIVComponents)
    ensures
        r == scaled_components_v(*c, w),
{
    let eff = c.efficiency.mul(w.efficiency);
    NIVComponents {
        thrust: c.thrust.mul(w.thrust),
        efficiency: eff,
        efficiency_squared: eff.mul(eff),
        slack: c.slack.mul(w.slack),
        drag: c.drag.mul(w.drag),
        drag_spread: c.drag_spread,
        drag_real_rate: c.drag_real_rate,
        drag_volatility: c.drag_volatility,
    }
}

impl NIVEngine {
    /// Re-evaluate one month under scaled sub-indices: scale the
    /// components, run the master formula and the probability mapping
    /// again, and recompute the alert tier.
    pub fn reweight_result(&self, r: &NIVResult, w: ComponentWeights) -> (out: NIVResult)
        ensures
            out == reweighted_v(*r, w, self.eta_m(), self.epsilon_m()),
            out.date == r.date,
    {
        let components = scale_components(&r.components, w);
        let niv_score = self.compute_niv(&components);
        let recession_probability = self.compute_recession_probability(niv_score);
        let alert_level = AlertLevel::from_probability(recession_probability);
        NIVResult {
            date: r.date,
            niv_score,
            recession_probability,
            components,
            alert_level,
        }
    }

    /// Run a what-if evaluation over a whole series and smooth it with a
    /// caller-chosen window.
    pub fn simulate_series(
        &self,
        results: &Vec<NIVResult>,
        w: ComponentWeights,
        window: usize,
    ) -> (out: Vec<NIVResult>)
        requires
            window >= 1,
        ensures
            custom_smoothing_match(
                out@,
                Seq::new(
                    results@.len(),
                    |i: int| reweighted_v(results@[i], w, self.eta_m(), self.epsilon_m()),
                ),
                window as int,
            ),
    {
        let ghost mapped = Seq::new(
            results@.len(),
            |i: int| reweighted_v(results@[i], w, self.eta_m(), self.epsilon_m()),
        );
        let n = results.len();
        let mut raw: Vec<NIVResult> = Vec::new();
        let mut i: usize = 0;
        while i < n
            invariant
                i <= n,
                n == results@.len(),
                raw@.len() == i,
                mapped == Seq::new(
                    results@.len(),
                    |k: int| reweighted_v(results@[k], w, self.eta_m(), self.epsilon_m()),
                ),
                forall|j: int| 0 <= j < i ==> #[trigger] raw@[j] == mapped[j],
            decreases n - i,
        {
            let res = self.reweight_result(&results[i], w);
            raw.push(res);
            i = i + 1;
        }
        proof {
            assert(raw@ =~= mapped);
        }
        apply_custom_smoothing(&raw, window)
    }
}

/// The re-weighted result one month determines, as a spec-level
/// constructor.
pub open spec fn reweighted_v(r: NIVResult, w: ComponentWeights, eta: int, eps: int) -> NIVResult {
    let c = scaled_components_v(r.components, w);
    let score = niv_score_v(c, eta, eps);
    let p = probability_v(score);
    NIVResult {
        date: r.date,
        niv_score: Fx { v: score as i64 },
        recession_probability: Fx { v: p as i64 },
        components: c,
        alert_level: alert_level_v(p),
    }
}

/// The probability mean of a contiguous window of results.
pub fn window_average_probability(results: &Vec<NIVResult>, start: usize, window: usize) -> (r: Fx)
    requires
        window >= 1,
        start + window <= results@.len(),
    ensures
        r.m() == tdiv(sum_range(probs_of(results@), start as int, window as nat), window as int),
{
    let n = results.len();
    let mut sum: i128 = 0;
    let mut j: usize = start;
    let hi: usize = start + window;
    while j < hi
        invariant
            start <= j <= hi,
            hi == start + window,
            hi <= n,
            n == results@.len(),
            sum == sum_range(probs_of(results@), start as int, (j - start) as nat),
            -(((j - start) as i128) * 0x8000_0000_0000_0000i128) <= sum <= ((j - start) as i128)
                * 0x7FFF_FFFF_FFFF_FFFFi128,
        decreases hi - j,
    {
        sum = sum + (results[j].recession_probability.v as i128);
        j = j + 1;
    }
    proof {
        assert(-0x8000_0000_0000_0000 <= tdiv(sum as int, window as int) <= 0x7FFF_FFFF_FFFF_FFFF)
            by (nonlinear_arith)
            requires
                1 <= (window as int),
                -((window as int) * 0x8000_0000_0000_0000) <= (sum as int) <= (window as int)
                    * 0x7FFF_FFFF_FFFF_FFFF,
        ;
    }
    Fx { v: (sum / (window as i128)) as i64 }
}

/// The values of a sequence of fixed-point draws.
pub open spec fn values_of(s: Seq<Fx>) -> Seq<int> {
    Seq::new(s.len(), |i: int| s[i].m())
}

/// Mean of a set of draws, truncated toward zero.
pub fn draws_mean(draws: &Vec<Fx>) -> (r: Fx)
    requires
        draws@.len() >= 1,
    ensures
        r.m() == tdiv(sum_range(values_of(draws@), 0, draws@.len()), draws@.len() as int),
{
    let n = draws.len();
    let mut sum: i128 = 0;
    let mut i: usize = 0;
    while i < n
        invariant
            i <= n,
            n == draws@.len(),
            sum == sum_range(values_of(draws@), 0, i as nat),
            -((i as i128) * 0x8000_0000_0000_0000i128) <= sum <= (i as i128)
                * 0x7FFF_FFFF_FFFF_FFFFi128,
        decreases n - i,
    {
        sum = sum + (draws[i].v as i128);
        i = i + 1;
    }
    proof {
        assert(-0x8000_0000_0000_0000 <= tdiv(sum as int, n as int) <= 0x7FFF_FFFF_FFFF_FFFF)
            by (nonlinear_arith)
            requires
                1 <= (n as int),
                -((n as int) * 0x8000_0000_0000_0000) <= (sum as int) <= (n as int)
                    * 0x7FFF_FFFF_FFFF_FFFF,
        ;
    }
    Fx { v: (sum / (n as i128)) as i64 }
}

/// Population standard deviation of a set of draws about their truncated
/// mean: the integer square root of the variance (unique by bracketing).
pub fn draws_std_dev(draws: &Vec<Fx>) -> (r: Fx)
    requires
        draws@.len() >= 1,
    ensures
        ({
            let s = values_of(draws@);
            let n = draws@.len() as int;
            let mean = tdiv(sum_range(s, 0, draws@.len()), n);
            let var = sumsq_range(s, 0, draws@.len(), mean) / n;
            r.m() >= 0 && r.m() * r.m() <= var && (r.m() < i64::MAX ==> var < (r.m() + 1) * (
            r.m() + 1))
        }),
{
    let n = draws.len();
    let mean = draws_mean(draws);
    let mut ssq: u128 = 0;
    let mut i: usize = 0;
    while i < n
        invariant
            i <= n,
            n == draws@.len(),
            ssq == sumsq_range(values_of(draws@), 0, i as nat, mean.m()),
        decreases n - i,
    {
        let d: i128 = (draws[i].v as i128) - (mean.v as i128);
        let du: u128 = if d < 0 {
            (-d) as u128
        } else {
            d as u128
        };
        proof {
            assert((du as int) * (du as int) == (d as int) * (d as int)
                && (du as int) * (du as int) <= u128::MAX) by (nonlinear_arith)
                requires
                    du as int == if (d as int) < 0 { -(d as int) } else { d as int },
                    -0xFFFF_FFFF_FFFF_FFFF <= (d as int) <= 0xFFFF_FFFF_FFFF_FFFF,
            ;
        }
        let sq: u128 = du * du;
        ssq = sat_add_u128(ssq, sq);
        i = i + 1;
    }
    let var: u128 = ssq / (n as u128);
    let g = isqrt_u128(var);
    if g > 0x7FFF_FFFF_FFFF_FFFFu64 {
        proof {
            assert((0x7FFF_FFFF_FFFF_FFFFint) * 0x7FFF_FFFF_FFFF_FFFF <= (g as int) * (
            g as int)) by (nonlinear_arith)
                requires
                    0x7FFF_FFFF_FFFF_FFFF <= (g as int),
            ;
        }
        Fx { v: i64::MAX }
    } else {
        Fx { v: g as i64 }
    }
}

/// The parameter a sensitivity sweep varies.
#[derive(Clone, Copy, PartialEq, Eq, Structural, Debug)]
pub enum SensitivityComponent {
    Eta,
    Thrust,
    Efficiency,
    Slack,
    Drag,
}

/// The weight set a sweep value induces: the chosen sub-index scaled by the
/// value, the others (and the exponent case) left at one.
pub open spec fn sensitivity_weights_v(kind: SensitivityComponent, value: int) -> ComponentWeights {
    match kind {
        SensitivityComponent::Eta => ComponentWeights {
            thrust: Fx { v: SCALE },
            efficiency: Fx { v: SCALE },
            slack: Fx { v: SCALE },
            drag: Fx { v: SCALE },
        },
        SensitivityComponent::Thrust => ComponentWeights {
            thrust: Fx { v: value as i64 },
            efficiency: Fx { v: SCALE },
            slack: Fx { v: SCALE },
            drag: Fx { v: SCALE },
        },
        SensitivityComponent::Efficiency => ComponentWeights {
            thrust: Fx { v: SCALE },
            efficiency: Fx { v: value as i64 },
            slack: Fx { v: SCALE },
            drag: Fx { v: SCALE },
        },
        SensitivityComponent::Slack => ComponentWeights {
            thrust: Fx { v: SCALE },
            efficiency: Fx { v: SCALE },
            slack: Fx { v: value as i64 },
            drag: Fx { v: SCALE },
        },
        SensitivityComponent::Drag => ComponentWeights {
            thrust: Fx { v: SCALE },
            efficiency: Fx { v: SCALE },
            slack: Fx { v: SCALE },
            drag: Fx { v: value as i64 },
        },
    }
}

/// The exponent a sweep value induces: the value itself when the exponent
/// is swept, the engine's own otherwise.
pub open spec fn sensitivity_eta_v(kind: SensitivityComponent, value: int, eta: int) -> int {
    match kind {
        SensitivityComponent::Eta => value,
        _ => eta,
    }
}

/// The probability the master formula yields at one sweep point.
pub open spec fn sensitivity_probability_v(
    c: NIVComponents,
    kind: SensitivityComponent,
    value: int,
    eta: int,
    eps: int,
) -> int {
    probability_v(
        niv_score_v(
            scaled_components_v(c, sensitivity_weights_v(kind, value)),
            sensitivity_eta_v(kind, value, eta),
            eps,
        ),
    )
}

/// One sweep point's abscissa: the lower bound plus `i` truncated steps.
pub open spec fn sweep_value_v(min: int, max: int, steps: int, i: int) -> int {
    sat64(min + i * tdiv(max - min, steps))
}

impl NIVEngine {
    /// The probability the master formula yields when one parameter is
    /// moved to `value` and everything else is kept.
    pub fn sensitivity_probability(
        &self,
        c: &NIVComponents,
        kind: SensitivityComponent,
        value: Fx,
    ) -> (r: Fx)
        requires
            self.wf(),
        ensures
            r.m() == sensitivity_probability_v(
                *c,
                kind,
                value.m(),
                self.eta_m(),
                self.epsilon_m(),
            ),
            0 <= r.m() <= SCALE,
    {
        let one = Fx { v: SCALE };
        let w = match kind {
            SensitivityComponent::Eta => ComponentWeights {
                thrust: one,
                efficiency: one,
                slack: one,
                drag: one,
            },
            SensitivityComponent::Thrust => ComponentWeights {
                thrust: value,
                efficiency: one,
                slack: one,
                drag: one,
            },
            SensitivityComponent::Efficiency => ComponentWeights {
                thrust: one,
                efficiency: value,
                slack: one,
                drag: one,
            },
            SensitivityComponent::Slack => ComponentWeights {
                thrust: one,
                efficiency: one,
                slack: value,
                drag: one,
            },
            SensitivityComponent::Drag => ComponentWeights {
                thrust: one,
                efficiency: one,
                slack: one,
                drag: value,
            },
        };
        let scaled = scale_components(c, w);
        let engine = match kind {
            SensitivityComponent::Eta => NIVEngine::with_params(value, self.epsilon()),
            _ => NIVEngine::with_params(self.eta(), self.epsilon()),
        };
        let score = engine.compute_niv(&scaled);
        engine.compute_recession_probability(score)
    }

    /// Sweep one parameter from `min_value` to `max_value` in `steps`
    /// truncated increments, returning each abscissa with its probability.
    pub fn sensitivity_sweep(
        &self,
        c: &NIVComponents,
        kind: SensitivityComponent,
        min_value: Fx,
        max_value: Fx,
        steps: usize,
    ) -> (r: Vec<(Fx, Fx)>)
        requires
            self.wf(),
            1 <= steps <= 1000,
        ensures
            r@.len() == steps + 1,
            forall|i: int|
                0 <= i <= steps ==> {
                    let value = sweep_value_v(min_value.m(), max_value.m(), steps as int, i);
                    (#[trigger] r@[i]).0.m() == value && r@[i].1.m() == sensitivity_probability_v(
                        *c,
                        kind,
                        value,
                        self.eta_m(),
                        self.epsilon_m(),
                    )
                },
    {
        let diff: i128 = (max_value.v as i128) - (min_value.v as i128);
        let step: i128 = diff / (steps as i128);
        let mut out: Vec<(Fx, Fx)> = Vec::new();
        let mut i: usize = 0;
        while i <= steps
            invariant
                self.wf(),
                i <= steps + 1,
                1 <= steps <= 1000,
                step == tdiv(max_value.m() - min_value.m(), steps as int),
                -0x1_0000_0000_0000_0000 <= step <= 0x1_0000_0000_0000_0000,
                out@.len() == i,
                forall|j: int|
                    0 <= j < i ==> {
                        let value = sweep_value_v(min_value.m(), max_value.m(), steps as int, j);
                        (#[trigger] out@[j]).0.m() == value && out@[j].1.m()
                            == sensitivity_probability_v(
                            *c,
                            kind,
                            value,
                            self.eta_m(),
                            self.epsilon_m(),
                        )
                    },
            decreases steps + 1 - i,
        {
            proof {
                assert(-0x800_0000_0000_0000_0000 <= (i as int) * (step as int)
                    <= 0x800_0000_0000_0000_0000) by (nonlinear_arith)
                    requires
                        0 <= (i as int) <= 1001,
                        -0x1_0000_0000_0000_0000 <= (step as int) <= 0x1_0000_0000_0000_0000,
                ;
            }
            let raw: i128 = (min_value.v as i128) + (i as i128) * step;
            let value = Fx { v: clamp_i128(raw) };
            let p = self.sensitivity_probability(c, kind, value);
            out.push((value, p));
            i = i + 1;
        }
        out
    }
}

/// A sequence of draws is sorted when no later draw is smaller.
pub open spec fn sorted_v(s: Seq<Fx>) -> bool {
    forall|i: int, j: int| 0 <= i <= j < s.len() ==> (#[trigger] s[i]).m() <= (#[trigger] s[j]).m()
}

/// Sort draws ascending; the output is a reordering of the input.
pub fn sort_draws(draws: &Vec<Fx>) -> (r: Vec<Fx>)
    ensures
        r@.len() == draws@.len(),
        sorted_v(r@),
        r@.to_multiset() == draws@.to_multiset(),
{
    let n = draws.len();
    let mut work: Vec<Fx> = Vec::new();
    let mut i: usize = 0;
    while i < n
        invariant
            i <= n,
            n == draws@.len(),
            work@ == draws@.take(i as int),
        decreases n - i,
    {
        work.push(draws[i]);
        proof {
            assert(work@ =~= draws@.take(i + 1));
        }
        i = i + 1;
    }
    proof {
        assert(draws@.take(n as int) =~= draws@);
    }
    let mut out: Vec<Fx> = Vec::new();
    proof {
        broadcast use vstd::seq_lib::group_to_multiset_ensures;
        broadcast use vstd::multiset::group_multiset_axioms;
        assert forall|x: Fx| out@.to_multiset().count(x) == 0 by {
            assert(!out@.contains(x));
        }
        assert(out@.to_multiset().add(work@.to_multiset()) =~= draws@.to_multiset());
    }
    while work.len() > 0
        invariant
            sorted_v(out@),
            out@.to_multiset().add(work@.to_multiset()) =~= draws@.to_multiset(),
            out@.len() + work@.len() == draws@.len(),
            forall|a: int, b: int|
                0 <= a < out@.len() && 0 <= b < work@.len() ==> (#[trigger] out@[a]).m() <= (
                #[trigger] work@[b]).m(),
        decreases work.len(),
    {
        let m = work.len();
        proof {
            broadcast use vstd::seq_lib::group_to_multiset_ensures;
            broadcast use vstd::multiset::group_multiset_axioms;
        }
        let mut mi: usize = 0;
        let mut j: usize = 1;
        while j < m
            invariant
                m == work@.len(),
                mi < m,
                1 <= j <= m,
                forall|k: int| 0 <= k < j ==> work@[mi as int].m() <= (#[trigger] work@[k]).m(),
            decreases m - j,
        {
            if work[j].v < work[mi].v {
                mi = j;
            }
            j = j + 1;
        }
        let ghost old_work = work@;
        let ghost old_out = out@;
        let x = work.remove(mi);
        out.push(x);
        proof {
            broadcast use vstd::seq_lib::group_to_multiset_ensures;
            assert(old_work.remove(mi as int).to_multiset() =~= old_work.to_multiset().remove(x));
            assert(old_out.push(x).to_multiset() =~= old_out.to_multiset().insert(x));
            assert(old_work.to_multiset().count(x) > 0) by {
                assert(old_work[mi as int] == x);
                assert(old_work.contains(x));
            }
            assert(out@.to_multiset().add(work@.to_multiset()) =~= draws@.to_multiset());
            assert forall|b: int| 0 <= b < work@.len() implies x.m() <= (
            #[trigger] work@[b]).m() by {
                if b < mi {
                    assert(work@[b] == old_work[b]);
                } else {
                    assert(work@[b] == old_work[b + 1]);
                }
            }
        }
    }
    proof {
        broadcast use vstd::seq_lib::group_to_multiset_ensures;
        broadcast use vstd::multiset::group_multiset_axioms;
        assert forall|x: Fx| work@.to_multiset().count(x) == 0 by {
            assert(!work@.contains(x));
        }
        assert(out@.to_multiset() =~= draws@.to_multiset());
    }
    out
}

/// The draw at a given quantile of a sorted set: index is the quantile
/// times the count, truncated, capped at the last draw.
pub open spec fn percentile_index_v(len: int, p: int) -> int {
    let idx = tdiv(len * p, SCALE as int);
    if idx < 0 {
        0
    } else if idx >= len {
        len - 1
    } else {
        idx
    }
}

/// Read the draw at quantile `p` (in millionths) from sorted draws.
pub fn percentile_of_sorted(draws: &Vec<Fx>, p: Fx) -> (r: Fx)
    requires
        draws@.len() >= 1,
        0 <= p.m() <= SCALE,
    ensures
        r == draws@[percentile_index_v(draws@.len() as int, p.m())],
{
    let n = draws.len();
    proof {
        assert(0 <= (n as int) * (p.m()) <= 0x1_0000_0000_0000_0000 * 1_000_000)
            by (nonlinear_arith)
            requires
                0 <= (n as int) <= 0x1_0000_0000_0000_0000,
                0 <= p.m() <= 1_000_000,
        ;
    }
    let raw: i128 = (n as i128) * (p.v as i128);
    let idx: i128 = raw / 1_000_000i128;
    if idx < 0 {
        draws[0]
    } else if idx >= n as i128 {
        draws[n - 1]
    } else {
        draws[idx as usize]
    }
}


} // verus!
