//! NIV core calculation engine.
//!
//! Master formula: `NIV = (u * P^2) / (X + F + eps)^eta`, where `u` (thrust)
//! is a hyperbolic-tangent impulse of growth rates, `P` (efficiency) an
//! investment-to-output ratio squared in the master formula, `X` (slack) the
//! unused capacity share, and `F` (drag) a weighted mix of yield-curve
//! inversion, positive real rates and rate volatility.  The score maps to a
//! recession probability through an inverted sigmoid and then to one of four
//! alert levels.

use vstd::prelude::*;
use crate::fixed::{Fx, SCALE, tdiv, sat64, fx_add_v, fx_sub_v, fx_mul_v, fx_div_v, clamp_v};
use crate::transcendental::{exp_v, exp_fx, tanh_v, tanh_fx, pow_v, pow_fx};

verus! {

/// Friction exponent of the master formula, in millionths.
pub const ETA: i64 = 1_500_000;

/// Safety floor added to the master-formula denominator, in millionths.
pub const EPSILON: i64 = 1_000;

/// Trailing window used by the smoother, in months.
pub const SMOOTH_WINDOW: usize = 12;

/// Multiplier applied to investment in the efficiency ratio, in millionths.
pub const R_D_MULTIPLIER: i64 = 1_150_000;

/// Weight of investment growth in the thrust input, in millionths.
pub const THRUST_DG_WEIGHT: i64 = 1_000_000;

/// Weight of money-stock growth in the thrust input, in millionths.
pub const THRUST_DA_WEIGHT: i64 = 1_000_000;

/// Weight of the policy-rate change in the thrust input, in millionths.
pub const THRUST_DR_WEIGHT: i64 = 700_000;

/// Weight of the inversion penalty in combined drag, in millionths.
pub const DRAG_SPREAD_WEIGHT: i64 = 400_000;

/// Weight of the positive real rate in combined drag, in millionths.
pub const DRAG_REAL_RATE_WEIGHT: i64 = 400_000;

/// Weight of rate volatility in combined drag, in millionths.
pub const DRAG_VOLATILITY_WEIGHT: i64 = 200_000;

/// A calendar month.
#[derive(Clone, Copy, PartialEq, Eq, Structural, Debug)]
pub struct MonthDate {
    pub year: i32,
    pub month: u8,
}

impl MonthDate {
    /// A month number between one and twelve.
    pub open spec fn wf(self) -> bool {
        1 <= self.month <= 12
    }

    pub fn new(year: i32, month: u8) -> (r: MonthDate)
        requires
            1 <= month <= 12,
        ensures
            r == (MonthDate { year, month }),
            r.wf(),
    {
        MonthDate { year, month }
    }

    /// Whether `self` is no later than `o`, by year then month.
    pub open spec fn le_v(self, o: MonthDate) -> bool {
        self.year < o.year || (self.year == o.year && self.month <= o.month)
    }

    pub fn le(self, o: MonthDate) -> (r: bool)
        ensures
            r == self.le_v(o),
    {
        self.year < o.year || (self.year == o.year && self.month <= o.month)
    }
}

/// One month's raw observation of the seven input series.
#[derive(Clone, Copy, PartialEq, Eq, Structural, Debug)]
pub struct EconomicData {
    pub date: MonthDate,
    pub investment: Fx,
    pub m2_supply: Fx,
    pub fed_funds_rate: Fx,
    pub gdp: Fx,
    pub capacity_util: Fx,
    pub yield_spread: Fx,
    pub cpi_inflation: Fx,
}

/// A raw observation together with its derived growth-rate features.
#[derive(Clone, Copy, PartialEq, Eq, Structural, Debug)]
pub struct ExtendedEconomicData {
    pub base: EconomicData,
    /// Month-over-month percent change of investment.
    pub dg: Fx,
    /// Year-over-year percent change of the money stock.
    pub da: Fx,
    /// Month-over-month change of the policy rate.
    pub dr: Fx,
    /// Trailing twelve-month standard deviation of the policy rate.
    pub sigma_r: Fx,
}

/// The four sub-indices and the three drag sub-parts for one month.
#[derive(Clone, Copy, PartialEq, Eq, Structural, Debug)]
pub struct NIVComponents {
    pub thrust: Fx,
    pub efficiency: Fx,
    pub efficiency_squared: Fx,
    pub slack: Fx,
    pub drag: Fx,
    pub drag_spread: Fx,
    pub drag_real_rate: Fx,
    pub drag_volatility: Fx,
}

/// Alert tiers over the recession probability.
#[derive(Clone, Copy, PartialEq, Eq, Structural, Debug)]
pub enum AlertLevel {
    Normal,
    Elevated,
    Warning,
    Critical,
}

/// One month's final output.
#[derive(Clone, Copy, PartialEq, Eq, Structural, Debug)]
pub struct NIVResult {
    pub date: MonthDate,
    pub niv_score: Fx,
    pub recession_probability: Fx,
    pub components: NIVComponents,
    pub alert_level: AlertLevel,
}

/// Alert tier assigned to a probability (in millionths): below 0.30 normal,
/// below 0.50 elevated, below 0.70 warning, critical otherwise.
pub open spec fn alert_level_v(p: int) -> AlertLevel {
    if p < 300_000 {
        AlertLevel::Normal
    } else if p < 500_000 {
        AlertLevel::Elevated
    } else if p < 700_000 {
        AlertLevel::Warning
    } else {
        AlertLevel::Critical
    }
}

/// Position of an alert tier in the severity order.
pub open spec fn alert_rank(l: AlertLevel) -> int {
    match l {
        AlertLevel::Normal => 0,
        AlertLevel::Elevated => 1,
        AlertLevel::Warning => 2,
        AlertLevel::Critical => 3,
    }
}

impl AlertLevel {
    pub fn from_probability(prob: Fx) -> (r: AlertLevel)
        ensures
            r == alert_level_v(prob.m()),
    {
        if prob.v < 300_000 {
            AlertLevel::Normal
        } else if prob.v < 500_000 {
            AlertLevel::Elevated
        } else if prob.v < 700_000 {
            AlertLevel::Warning
        } else {
            AlertLevel::Critical
        }
    }

    pub fn color(&self) -> (r: &'static str)
        ensures
            self is Normal ==> r@ == "#22c55e"@,
            self is Elevated ==> r@ == "#eab308"@,
            self is Warning ==> r@ == "#f97316"@,
            self is Critical ==> r@ == "#ef4444"@,
    {
        match self {
            AlertLevel::Normal => "#22c55e",
            AlertLevel::Elevated => "#eab308",
            AlertLevel::Warning => "#f97316",
            AlertLevel::Critical => "#ef4444",
        }
    }

    pub fn label(&self) -> (r: &'static str)
        ensures
            self is Normal ==> r@ == "Normal"@,
            self is Elevated ==> r@ == "Elevated"@,
            self is Warning ==> r@ == "Warning"@,
            self is Critical ==> r@ == "CRITICAL"@,
    {
        match self {
            AlertLevel::Normal => "Normal",
            AlertLevel::Elevated => "Elevated",
            AlertLevel::Warning => "Warning",
            AlertLevel::Critical => "CRITICAL",
        }
    }
}

/// The alert tier never decreases as the probability grows.
pub proof fn lemma_alert_level_monotone(p1: int, p2: int)
    requires
        p1 <= p2,
    ensures
        alert_rank(alert_level_v(p1)) <= alert_rank(alert_level_v(p2)),
{
}

/// Percent change from `prev` to `cur`, or zero when `prev` is not positive.
pub open spec fn pct_change_v(cur: int, prev: int) -> int {
    if prev > 0 {
        sat64(tdiv((cur - prev) * 100 * SCALE, prev))
    } else {
        0
    }
}

/// Weighted thrust input: investment growth plus money growth minus the
/// weighted rate change.
pub open spec fn thrust_input_v(dg: int, da: int, dr: int) -> int {
    fx_sub_v(
        fx_add_v(fx_mul_v(THRUST_DG_WEIGHT as int, dg), fx_mul_v(THRUST_DA_WEIGHT as int, da)),
        fx_mul_v(THRUST_DR_WEIGHT as int, dr),
    )
}

/// Thrust: hyperbolic tangent of the thrust input compressed by ten.
pub open spec fn thrust_v(dg: int, da: int, dr: int) -> int {
    tanh_v(tdiv(thrust_input_v(dg, da, dr), 10))
}

/// Efficiency: investment times the externality multiplier over output, or
/// zero when output is not positive.
pub open spec fn efficiency_v(investment: int, gdp: int) -> int {
    if gdp > 0 {
        fx_div_v(fx_mul_v(investment, R_D_MULTIPLIER as int), gdp)
    } else {
        0
    }
}

/// Slack: one minus the capacity-utilization share.
pub open spec fn slack_v(capacity_util: int) -> int {
    fx_sub_v(SCALE as int, tdiv(capacity_util, 100))
}

/// Spread drag: the inverted-curve magnitude over one hundred, or zero for a
/// non-negative spread.
pub open spec fn drag_spread_v(spread: int) -> int {
    if spread < 0 {
        tdiv(sat64(-spread), 100)
    } else {
        0
    }
}

/// Real-rate drag: the positive part of the policy rate minus inflation,
/// over one hundred.
pub open spec fn drag_real_rate_v(rate: int, inflation: int) -> int {
    let rr = fx_sub_v(rate, inflation);
    if rr > 0 {
        tdiv(rr, 100)
    } else {
        0
    }
}

/// Volatility drag: the rolling standard deviation over one hundred.
pub open spec fn drag_volatility_v(sigma: int) -> int {
    tdiv(sigma, 100)
}

/// Combined drag: the weighted sum of the three drag sub-parts.
pub open spec fn drag_v(ds: int, drr: int, dvl: int) -> int {
    fx_add_v(
        fx_add_v(
            fx_mul_v(DRAG_SPREAD_WEIGHT as int, ds),
            fx_mul_v(DRAG_REAL_RATE_WEIGHT as int, drr),
        ),
        fx_mul_v(DRAG_VOLATILITY_WEIGHT as int, dvl),
    )
}

/// The components a given extended record determines.
pub open spec fn components_match(c: NIVComponents, d: ExtendedEconomicData) -> bool {
    &&& c.thrust.m() == thrust_v(d.dg.m(), d.da.m(), d.dr.m())
    &&& c.efficiency.m() == efficiency_v(d.base.investment.m(), d.base.gdp.m())
    &&& c.efficiency_squared.m() == fx_mul_v(c.efficiency.m(), c.efficiency.m())
    &&& c.slack.m() == slack_v(d.base.capacity_util.m())
    &&& c.drag_spread.m() == drag_spread_v(d.base.yield_spread.m())
    &&& c.drag_real_rate.m() == drag_real_rate_v(
        d.base.fed_funds_rate.m(),
        d.base.cpi_inflation.m(),
    )
    &&& c.drag_volatility.m() == drag_volatility_v(d.sigma_r.m())
    &&& c.drag.m() == drag_v(c.drag_spread.m(), c.drag_real_rate.m(), c.drag_volatility.m())
}

/// The components record built from the formula values, as a spec-level
/// constructor.
pub open spec fn spec_components(d: ExtendedEconomicData) -> NIVComponents {
    let eff = efficiency_v(d.base.investment.m(), d.base.gdp.m());
    let ds = drag_spread_v(d.base.yield_spread.m());
    let drr = drag_real_rate_v(d.base.fed_funds_rate.m(), d.base.cpi_inflation.m());
    let dvl = drag_volatility_v(d.sigma_r.m());
    NIVComponents {
        thrust: Fx { v: thrust_v(d.dg.m(), d.da.m(), d.dr.m()) as i64 },
        efficiency: Fx { v: eff as i64 },
        efficiency_squared: Fx { v: fx_mul_v(eff, eff) as i64 },
        slack: Fx { v: slack_v(d.base.capacity_util.m()) as i64 },
        drag: Fx { v: drag_v(ds, drr, dvl) as i64 },
        drag_spread: Fx { v: ds as i64 },
        drag_real_rate: Fx { v: drr as i64 },
        drag_volatility: Fx { v: dvl as i64 },
    }
}

/// Score of the master formula for the given components, exponent and floor:
/// thrust times squared efficiency, over the floored denominator raised to
/// the exponent, rescaled by one thousand and clamped to a symmetric range.
pub open spec fn niv_score_v(c: NIVComponents, eta: int, eps: int) -> int {
    let num = fx_mul_v(c.thrust.m(), c.efficiency_squared.m());
    let base = fx_add_v(fx_add_v(c.slack.m(), c.drag.m()), eps);
    let den = pow_v(base, eta);
    if den == 0 {
        0
    } else {
        clamp_v(fx_div_v(num, den) * 1000, -100 * SCALE, 100 * SCALE)
    }
}

/// Recession probability of a score: one minus the sigmoid of the score
/// compressed by ten, so negative scores push the probability toward one.
pub open spec fn probability_v(score: int) -> int {
    let e = exp_v(-tdiv(score, 10));
    (SCALE as int) - tdiv(1_000_000_000_000, SCALE + e)
}

/// The result record one extended record determines, as a spec-level
/// constructor.
pub open spec fn spec_single(d: ExtendedEconomicData, eta: int, eps: int) -> NIVResult {
    let c = spec_components(d);
    let score = niv_score_v(c, eta, eps);
    let p = probability_v(score);
    NIVResult {
        date: d.base.date,
        niv_score: Fx { v: score as i64 },
        recession_probability: Fx { v: p as i64 },
        components: c,
        alert_level: alert_level_v(p),
    }
}

/// The master-formula score lies in the symmetric clamp range for every
/// components record, exponent and floor.
pub proof fn lemma_niv_score_v_bounds(c: NIVComponents, eta: int, eps: int)
    ensures
        -100 * SCALE <= niv_score_v(c, eta, eps) <= 100 * SCALE,
{
}

/// With a positive safety floor, a month with no slack and no drag still
/// yields a score inside the symmetric range: the floor keeps the master
/// formula total, with no division failure.
pub proof fn lemma_epsilon_floor_safe(c: NIVComponents, eta: int, eps: int)
    requires
        c.slack.m() == 0,
        c.drag.m() == 0,
        eps > 0,
    ensures
        -100 * SCALE <= niv_score_v(c, eta, eps) <= 100 * SCALE,
{
    lemma_niv_score_v_bounds(c, eta, eps);
}


/// The engine: immutable configuration for the master formula.
pub struct NIVEngine {
    eta: Fx,
    epsilon: Fx,
}

impl NIVEngine {
    /// The configured friction exponent, in millionths.
    pub closed spec fn eta_m(self) -> int {
        self.eta.m()
    }

    /// The configured safety floor, in millionths.
    pub closed spec fn epsilon_m(self) -> int {
        self.epsilon.m()
    }

    /// A positive safety floor keeps the master-formula denominator positive.
    pub open spec fn wf(self) -> bool {
        self.epsilon_m() > 0
    }

    pub fn new() -> (r: NIVEngine)
        ensures
            r.eta_m() == ETA,
            r.epsilon_m() == EPSILON,
            r.wf(),
    {
        NIVEngine { eta: Fx { v: ETA }, epsilon: Fx { v: EPSILON } }
    }

    pub fn with_params(eta: Fx, epsilon: Fx) -> (r: NIVEngine)
        requires
            epsilon.m() > 0,
        ensures
            r.eta_m() == eta.m(),
            r.epsilon_m() == epsilon.m(),
            r.wf(),
    {
        NIVEngine { eta, epsilon }
    }

    pub fn with_eta(eta: Fx) -> (r: NIVEngine)
        ensures
            r.eta_m() == eta.m(),
            r.epsilon_m() == EPSILON,
            r.wf(),
    {
        NIVEngine { eta, epsilon: Fx { v: EPSILON } }
    }

    /// The configured friction exponent.
    pub fn eta(&self) -> (r: Fx)
        ensures
            r.m() == self.eta_m(),
    {
        self.eta
    }

    /// The configured safety floor.
    pub fn epsilon(&self) -> (r: Fx)
        ensures
            r.m() == self.epsilon_m(),
    {
        self.epsilon
    }

    /// Compute the four sub-indices and drag sub-parts for one month.
    pub fn compute_components(&self, data: &ExtendedEconomicData) -> (c: NIVComponents)
        ensures
            components_match(c, *data),
            c == spec_components(*data),
    {
        let w_dg = Fx { v: THRUST_DG_WEIGHT };
        let w_da = Fx { v: THRUST_DA_WEIGHT };
        let w_dr = Fx { v: THRUST_DR_WEIGHT };
        let thrust_input = w_dg.mul(data.dg).add(w_da.mul(data.da)).sub(w_dr.mul(data.dr));
        let thrust = tanh_fx(Fx { v: thrust_input.v / 10 });

        let efficiency = if data.base.gdp.v > 0 {
            data.base.investment.mul(Fx { v: R_D_MULTIPLIER }).div(data.base.gdp)
        } else {
            Fx { v: 0 }
        };
        let efficiency_squared = efficiency.mul(efficiency);

        let slack = Fx { v: SCALE }.sub(Fx { v: data.base.capacity_util.v / 100 });

        let drag_spread = if data.base.yield_spread.v < 0 {
            Fx { v: data.base.yield_spread.abs().v / 100 }
        } else {
            Fx { v: 0 }
        };
        let real_rate = data.base.fed_funds_rate.sub(data.base.cpi_inflation);
        let drag_real_rate = if real_rate.v > 0 {
            Fx { v: real_rate.v / 100 }
        } else {
            Fx { v: 0 }
        };
        let drag_volatility = Fx { v: data.sigma_r.v / 100 };
        let drag = Fx { v: DRAG_SPREAD_WEIGHT }.mul(drag_spread).add(
            Fx { v: DRAG_REAL_RATE_WEIGHT }.mul(drag_real_rate),
        ).add(Fx { v: DRAG_VOLATILITY_WEIGHT }.mul(drag_volatility));

        NIVComponents {
            thrust,
            efficiency,
            efficiency_squared,
            slack,
            drag,
            drag_spread,
            drag_real_rate,
            drag_volatility,
        }
    }

    /// Evaluate the master formula; the result always lies in the symmetric
    /// score range.
    pub fn compute_niv(&self, components: &NIVComponents) -> (r: Fx)
        ensures
            r.m() == niv_score_v(*components, self.eta_m(), self.epsilon_m()),
            -100 * SCALE <= r.m() <= 100 * SCALE,
    {
        let numerator = components.thrust.mul(components.efficiency_squared);
        let base = components.slack.add(components.drag).add(self.epsilon);
        let denominator = pow_fx(base, self.eta);
        if denominator.v == 0 {
            Fx { v: 0 }
        } else {
            let raw = numerator.div(denominator);
            let scaled: i128 = (raw.v as i128) * 1000i128;
            let clamped: i64 = if scaled < -100_000_000i128 {
                -100_000_000
            } else if scaled > 100_000_000i128 {
                100_000_000
            } else {
                scaled as i64
            };
            Fx { v: clamped }
        }
    }

    /// Map a score to a recession probability; the probability always lies in
    /// the unit interval, is exactly one half at score zero, and sits on the
    /// contraction side exactly when the score is not positive.
    pub fn compute_recession_probability(&self, niv_score: Fx) -> (r: Fx)
        ensures
            r.m() == probability_v(niv_score.m()),
            0 <= r.m() <= SCALE,
            niv_score.m() == 0 ==> r.m() == 500_000,
            niv_score.m() >= 0 ==> r.m() <= 500_000,
            niv_score.m() <= 0 ==> r.m() >= 500_000,
    {
        let t: i64 = -(niv_score.v / 10);
        let e = exp_fx(Fx { v: t });
        let den: i128 = (e.v as i128) + 1_000_000i128;
        let p: i128 = 1_000_000_000_000i128 / den;
        proof {
            assert(0 <= tdiv(1_000_000_000_000, SCALE + e.m()) <= SCALE && (e.m() >= SCALE
                ==> tdiv(1_000_000_000_000, SCALE + e.m()) <= 500_000) && (e.m() <= SCALE
                ==> tdiv(1_000_000_000_000, SCALE + e.m()) >= 500_000)) by (nonlinear_arith)
                requires
                    e.m() >= 0,
            ;
        }
        Fx { v: 1_000_000 - (p as i64) }
    }

    /// Compute one month's result from its extended record.
    pub fn calculate_single(&self, data: &ExtendedEconomicData) -> (r: NIVResult)
        ensures
            r == spec_single(*data, self.eta_m(), self.epsilon_m()),
            r.date == data.base.date,
            components_match(r.components, *data),
            r.niv_score.m() == niv_score_v(r.components, self.eta_m(), self.epsilon_m()),
            -100 * SCALE <= r.niv_score.m() <= 100 * SCALE,
            r.recession_probability.m() == probability_v(r.niv_score.m()),
            0 <= r.recession_probability.m() <= SCALE,
            r.alert_level == alert_level_v(r.recession_probability.m()),
    {
        let components = self.compute_components(data);
        let niv_score = self.compute_niv(&components);
        let recession_probability = self.compute_recession_probability(niv_score);
        let alert_level = AlertLevel::from_probability(recession_probability);
        NIVResult {
            date: data.base.date,
            niv_score,
            recession_probability,
            components,
            alert_level,
        }
    }
}

impl Default for NIVEngine {
    fn default() -> (r: NIVEngine)
        ensures
            r.eta_m() == ETA,
            r.epsilon_m() == EPSILON,
            r.wf(),
    {
        NIVEngine::new()
    }
}

} // verus!
