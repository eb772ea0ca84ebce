use niv_engine::fixed::Fx;
use niv_engine::niv::{
    AlertLevel, EconomicData, ExtendedEconomicData, MonthDate, NIVEngine,
};

fn fx(micros: i64) -> Fx {
    Fx { v: micros }
}

fn as_f64(x: Fx) -> f64 {
    x.micros() as f64 / 1_000_000.0
}

fn sample_extended_data() -> ExtendedEconomicData {
    ExtendedEconomicData {
        base: EconomicData {
            date: MonthDate::new(2024, 1),
            investment: fx(4_000_000_000),
            m2_supply: fx(21_000_000_000),
            fed_funds_rate: fx(5_250_000),
            gdp: fx(28_000_000_000),
            capacity_util: fx(78_500_000),
            yield_spread: fx(-500_000),
            cpi_inflation: fx(3_200_000),
        },
        dg: fx(500_000),
        da: fx(4_000_000),
        dr: fx(0),
        sigma_r: fx(1_200_000),
    }
}

#[test]
fn test_thrust_calculation() {
    let engine = NIVEngine::new();
    let data = sample_extended_data();
    let components = engine.compute_components(&data);

    // thrust input = 1.0*0.5 + 1.0*4.0 - 0.7*0.0 = 4.5; tanh(0.45) ~ 0.422
    assert!((as_f64(components.thrust) - 0.422).abs() < 0.01);
}

#[test]
fn test_efficiency_calculation() {
    let engine = NIVEngine::new();
    let data = sample_extended_data();
    let components = engine.compute_components(&data);

    // efficiency = (4000 * 1.15) / 28000 ~ 0.164
    assert!((as_f64(components.efficiency) - 0.164).abs() < 0.01);

    // efficiency squared ~ 0.027
    assert!((as_f64(components.efficiency_squared) - 0.027).abs() < 0.005);
}

#[test]
fn test_slack_calculation() {
    let engine = NIVEngine::new();
    let data = sample_extended_data();
    let components = engine.compute_components(&data);

    // slack = 1 - (78.5/100) = 0.215
    assert!((as_f64(components.slack) - 0.215).abs() < 0.001);
}

#[test]
fn test_drag_calculation() {
    let engine = NIVEngine::new();
    let data = sample_extended_data();
    let components = engine.compute_components(&data);

    // spread drag = abs(-0.5)/100 = 0.005 (inverted curve)
    assert!((as_f64(components.drag_spread) - 0.005).abs() < 0.001);

    // real rate = 5.25 - 3.2 = 2.05, positive, so 0.0205
    assert!((as_f64(components.drag_real_rate) - 0.0205).abs() < 0.001);

    // volatility drag = 1.2/100 = 0.012
    assert!((as_f64(components.drag_volatility) - 0.012).abs() < 0.001);

    // drag = 0.4*0.005 + 0.4*0.0205 + 0.2*0.012 = 0.0126
    assert!((as_f64(components.drag) - 0.0126).abs() < 0.001);
}

#[test]
fn test_niv_formula() {
    let engine = NIVEngine::new();
    let data = sample_extended_data();
    let components = engine.compute_components(&data);
    let niv = engine.compute_niv(&components);

    assert!(niv.micros() >= -100_000_000 && niv.micros() <= 100_000_000, "NIV was {}", as_f64(niv));
}

#[test]
fn test_recession_probability() {
    let engine = NIVEngine::new();

    // positive score: low recession probability
    let prob_pos = engine.compute_recession_probability(fx(20_000_000));
    assert!(as_f64(prob_pos) < 0.3);

    // negative score: high recession probability
    let prob_neg = engine.compute_recession_probability(fx(-20_000_000));
    assert!(as_f64(prob_neg) > 0.7);

    // zero score: around one half
    let prob_zero = engine.compute_recession_probability(fx(0));
    assert!((as_f64(prob_zero) - 0.5).abs() < 0.1);
}

#[test]
fn test_alert_levels() {
    assert_eq!(AlertLevel::from_probability(fx(200_000)), AlertLevel::Normal);
    assert_eq!(AlertLevel::from_probability(fx(400_000)), AlertLevel::Elevated);
    assert_eq!(AlertLevel::from_probability(fx(600_000)), AlertLevel::Warning);
    assert_eq!(AlertLevel::from_probability(fx(800_000)), AlertLevel::Critical);
}

#[test]
fn niv_test_alert_levels() {
    assert_eq!(AlertLevel::from_probability(fx(200_000)), AlertLevel::Normal);
    assert_eq!(AlertLevel::from_probability(fx(400_000)), AlertLevel::Elevated);
    assert_eq!(AlertLevel::from_probability(fx(600_000)), AlertLevel::Warning);
    assert_eq!(AlertLevel::from_probability(fx(800_000)), AlertLevel::Critical);
}

#[test]
fn test_epsilon_prevents_division_by_zero() {
    let engine = NIVEngine::new();

    // zero slack (full capacity) and zero drag in every sub-part
    let data = ExtendedEconomicData {
        base: EconomicData {
            date: MonthDate::new(2024, 1),
            investment: fx(4_000_000_000),
            m2_supply: fx(21_000_000_000),
            fed_funds_rate: fx(0),
            gdp: fx(28_000_000_000),
            capacity_util: fx(100_000_000),
            yield_spread: fx(2_000_000),
            cpi_inflation: fx(5_000_000),
        },
        dg: fx(0),
        da: fx(0),
        dr: fx(0),
        sigma_r: fx(0),
    };

    let components = engine.compute_components(&data);
    assert_eq!(components.slack.micros(), 0);
    assert_eq!(components.drag.micros(), 0);
    let niv = engine.compute_niv(&components);

    // total and bounded: no division failure
    assert!(niv.micros() >= -100_000_000 && niv.micros() <= 100_000_000);
}

#[test]
fn probability_is_exactly_half_at_zero_score() {
    let engine = NIVEngine::new();
    let prob = engine.compute_recession_probability(fx(0));
    assert_eq!(prob.micros(), 500_000);
}

#[test]
fn probability_sides_of_half_follow_score_sign() {
    let engine = NIVEngine::new();
    for score in [-90_000_000i64, -1_000_000, -10, 10, 1_000_000, 90_000_000] {
        let p = engine.compute_recession_probability(fx(score)).micros();
        assert!((0..=1_000_000).contains(&p));
        if score <= 0 {
            assert!(p >= 500_000);
        } else {
            assert!(p <= 500_000);
        }
    }
}

fn rank(l: AlertLevel) -> u8 {
    match l {
        AlertLevel::Normal => 0,
        AlertLevel::Elevated => 1,
        AlertLevel::Warning => 2,
        AlertLevel::Critical => 3,
    }
}

#[test]
fn alert_level_is_monotone_in_probability() {
    let mut prev: Option<u8> = None;
    let mut p: i64 = 0;
    while p <= 1_000_000 {
        let r = rank(AlertLevel::from_probability(fx(p)));
        if let Some(q) = prev {
            assert!(q <= r);
        }
        prev = Some(r);
        p += 10_000;
    }
    assert_eq!(rank(AlertLevel::from_probability(fx(299_999))), 0);
    assert_eq!(rank(AlertLevel::from_probability(fx(300_000))), 1);
    assert_eq!(rank(AlertLevel::from_probability(fx(499_999))), 1);
    assert_eq!(rank(AlertLevel::from_probability(fx(500_000))), 2);
    assert_eq!(rank(AlertLevel::from_probability(fx(699_999))), 2);
    assert_eq!(rank(AlertLevel::from_probability(fx(700_000))), 3);
}

#[test]
fn engine_constructors_accept_overrides() {
    let sample = sample_extended_data();
    let base = NIVEngine::new();
    let sharper = NIVEngine::with_params(fx(2_500_000), fx(1_000));
    let c = base.compute_components(&sample);
    let soft = base.compute_niv(&c);
    let hard = sharper.compute_niv(&c);
    // a larger exponent inflates a below-one denominator's reciprocal
    assert!(hard.micros() >= soft.micros());
    let eta_only = NIVEngine::with_eta(fx(1_500_000));
    assert_eq!(eta_only.compute_niv(&c).micros(), soft.micros());
}
