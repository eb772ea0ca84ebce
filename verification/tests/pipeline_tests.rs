use niv_engine::fixed::Fx;
use niv_engine::niv::{
    AlertLevel, EconomicData, MonthDate, NIVComponents, NIVEngine, NIVResult,
};

fn fx(micros: i64) -> Fx {
    Fx { v: micros }
}

fn month_at(i: usize) -> MonthDate {
    let year = 2000 + (i / 12) as i32;
    let month = (i % 12 + 1) as u8;
    MonthDate::new(year, month)
}

fn record_at(i: usize) -> EconomicData {
    EconomicData {
        date: month_at(i),
        investment: fx(3_500_000_000 + (i as i64) * 10_000_000),
        m2_supply: fx(15_000_000_000 + (i as i64) * 50_000_000),
        fed_funds_rate: fx(2_000_000 + (i as i64 % 5) * 250_000),
        gdp: fx(21_500_000_000 + (i as i64) * 40_000_000),
        capacity_util: fx(77_000_000 + (i as i64 % 7) * 500_000),
        yield_spread: fx(1_000_000 - (i as i64 % 3) * 900_000),
        cpi_inflation: fx(2_500_000 + (i as i64 % 4) * 300_000),
    }
}

fn raw_series(n: usize) -> Vec<EconomicData> {
    (0..n).map(record_at).collect()
}

fn result_with_score(i: usize, score: i64, prob: i64) -> NIVResult {
    NIVResult {
        date: month_at(i),
        niv_score: fx(score),
        recession_probability: fx(prob),
        components: NIVComponents {
            thrust: fx(100_000),
            efficiency: fx(160_000),
            efficiency_squared: fx(25_600),
            slack: fx(200_000),
            drag: fx(10_000),
            drag_spread: fx(1_000),
            drag_real_rate: fx(2_000),
            drag_volatility: fx(3_000),
        },
        alert_level: AlertLevel::from_probability(fx(prob)),
    }
}

#[test]
fn deriver_needs_a_full_lookback() {
    let engine = NIVEngine::new();
    assert_eq!(engine.compute_extended_data(&raw_series(13)).len(), 1);
    assert_eq!(engine.compute_extended_data(&raw_series(12)).len(), 0);
    assert_eq!(engine.compute_extended_data(&raw_series(5)).len(), 0);
    assert_eq!(engine.compute_extended_data(&raw_series(0)).len(), 0);
    assert_eq!(engine.compute_extended_data(&raw_series(40)).len(), 28);
}

#[test]
fn series_length_is_input_minus_lookback() {
    let engine = NIVEngine::new();
    assert_eq!(engine.calculate_series(&raw_series(13)).len(), 1);
    assert_eq!(engine.calculate_series(&raw_series(12)).len(), 0);
    assert_eq!(engine.calculate_series(&raw_series(36)).len(), 24);
}

#[test]
fn deriver_growth_rates_match_hand_values() {
    let engine = NIVEngine::new();
    let mut data = raw_series(13);
    data[0].m2_supply = fx(20_000_000_000);
    data[11].investment = fx(4_000_000_000);
    data[12].investment = fx(4_040_000_000);
    data[12].m2_supply = fx(21_000_000_000);
    data[11].fed_funds_rate = fx(5_000_000);
    data[12].fed_funds_rate = fx(5_250_000);
    let ext = engine.compute_extended_data(&data);
    assert_eq!(ext.len(), 1);
    // (4040 - 4000) / 4000 * 100 = 1%
    assert_eq!(ext[0].dg.micros(), 1_000_000);
    // (21000 - 20000) / 20000 * 100 = 5%
    assert_eq!(ext[0].da.micros(), 5_000_000);
    // 5.25 - 5.00 = 0.25
    assert_eq!(ext[0].dr.micros(), 250_000);
    assert!(ext[0].sigma_r.micros() >= 0);
}

#[test]
fn deriver_volatility_of_constant_rates_is_zero() {
    let engine = NIVEngine::new();
    let mut data = raw_series(13);
    for r in data.iter_mut() {
        r.fed_funds_rate = fx(3_000_000);
    }
    let ext = engine.compute_extended_data(&data);
    assert_eq!(ext[0].sigma_r.micros(), 0);
}

#[test]
fn deriver_guards_non_positive_bases() {
    let engine = NIVEngine::new();
    let mut data = raw_series(13);
    data[11].investment = fx(0);
    data[0].m2_supply = fx(-5);
    let ext = engine.compute_extended_data(&data);
    assert_eq!(ext[0].dg.micros(), 0);
    assert_eq!(ext[0].da.micros(), 0);
}

#[test]
fn smoother_keeps_early_entries_and_averages_the_rest() {
    let engine = NIVEngine::new();
    let raw: Vec<NIVResult> =
        (0..24).map(|i| result_with_score(i, (i as i64) * 1_000_000, 0)).collect();
    let smoothed = engine.apply_smoothing(&raw);
    assert_eq!(smoothed.len(), 24);
    for i in 0..11 {
        assert_eq!(smoothed[i], raw[i]);
    }
    // index 11: mean of scores 0..=11 is 5.5
    assert_eq!(smoothed[11].niv_score.micros(), 5_500_000);
    // index 23: mean of scores 12..=23 is 17.5
    assert_eq!(smoothed[23].niv_score.micros(), 17_500_000);
    for i in 11..24 {
        assert_eq!(smoothed[i].date, raw[i].date);
    }
}

#[test]
fn smoother_returns_short_input_unchanged() {
    let engine = NIVEngine::new();
    let raw: Vec<NIVResult> =
        (0..11).map(|i| result_with_score(i, (i as i64) * 1_000_000, 0)).collect();
    let smoothed = engine.apply_smoothing(&raw);
    assert_eq!(smoothed, raw);
}

#[test]
fn smoother_recomputes_alert_from_smoothed_probability() {
    let engine = NIVEngine::new();
    // eleven calm months then one spike: the smoothed probability at the
    // spike is the window mean, and the tag follows it
    let mut raw: Vec<NIVResult> = (0..12).map(|i| result_with_score(i, 0, 100_000)).collect();
    raw[11] = result_with_score(11, 0, 800_000);
    let smoothed = engine.apply_smoothing(&raw);
    // mean = (11*0.1 + 0.8)/12 = 0.158333
    assert_eq!(smoothed[11].recession_probability.micros(), 158_333);
    assert_eq!(smoothed[11].alert_level, AlertLevel::Normal);
}

#[test]
fn full_series_stays_in_bounds() {
    let engine = NIVEngine::new();
    let out = engine.calculate_series(&raw_series(60));
    assert_eq!(out.len(), 48);
    for r in &out {
        assert!(r.niv_score.micros() >= -100_000_000 && r.niv_score.micros() <= 100_000_000);
        let p = r.recession_probability.micros();
        assert!((0..=1_000_000).contains(&p));
        assert_eq!(r.alert_level, AlertLevel::from_probability(r.recession_probability));
    }
}

#[test]
fn validator_omits_checks_without_data() {
    let engine = NIVEngine::new();
    // a series with no month in any check's window: no check runs, so the
    // battery passes vacuously
    let results = vec![result_with_score(0, 0, 100_000)];
    let v = engine.validate_against_benchmarks(&results);
    assert!(v.passed);
    assert_eq!(v.checks.len(), 0);
}

#[test]
fn validator_detects_downturn_window() {
    let engine = NIVEngine::new();
    let mut r = result_with_score(0, -30_000_000, 600_000);
    r.date = MonthDate::new(2008, 9);
    let v = engine.validate_against_benchmarks(&vec![r]);
    assert!(v.passed);
    assert_eq!(v.checks.len(), 1);
    assert_eq!(v.checks[0].name, "2008 GFC Detection");
    assert!(v.checks[0].passed);
}

#[test]
fn validator_fails_on_uncalm_stable_years() {
    let engine = NIVEngine::new();
    let mut r = result_with_score(0, -10_000_000, 400_000);
    r.date = MonthDate::new(2017, 3);
    let v = engine.validate_against_benchmarks(&vec![r]);
    assert!(!v.passed);
    assert_eq!(v.checks.len(), 1);
    assert_eq!(v.checks[0].name, "2017-2018 Stability");
    assert!(!v.checks[0].passed);
    assert_eq!(v.checks[0].expected, "Average recession probability < 30%");
    assert_eq!(v.checks[0].actual, "Average probability = 40.0%");
}

#[test]
fn validator_requires_strong_stimulus_response() {
    let engine = NIVEngine::new();
    let mut low = result_with_score(0, 5_000_000, 300_000);
    low.date = MonthDate::new(2020, 4);
    let v = engine.validate_against_benchmarks(&vec![low]);
    assert!(!v.passed);
    assert_eq!(v.checks.len(), 1);
    assert_eq!(v.checks[0].name, "2020 COVID Response");
    assert!(!v.checks[0].passed);

    let mut high = result_with_score(0, 45_000_000, 200_000);
    high.date = MonthDate::new(2020, 4);
    let v2 = engine.validate_against_benchmarks(&vec![high]);
    assert!(v2.passed);
    assert!(v2.checks[0].passed);
    assert_eq!(v2.checks[0].actual, "Max NIV = 45.00");
}
