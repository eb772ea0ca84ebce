use niv_engine::analysis::{
    calculate_simulation_summary, draws_mean, draws_std_dev, percentile_of_sorted, sort_draws,
    ComponentWeights, SensitivityComponent,
};
use niv_engine::fixed::Fx;
use niv_engine::fred::{
    calculate_yoy_change, find_nearest, is_recession_period, merge_series, FredError, FredSeries,
    Observation,
};
use niv_engine::niv::{
    AlertLevel, EconomicData, MonthDate, NIVComponents, NIVEngine, NIVResult,
};
use niv_engine::service::{
    apply_custom_smoothing, default_limit, fed_comparison_probability, history_slice,
    interpret_drag, interpret_efficiency, interpret_slack, interpret_thrust, recession_name,
    RecessionPeriods,
};
use niv_engine::text::{fx_to_percent_string1, fx_to_string2, i64_to_string, u64_to_string};

fn fx(micros: i64) -> Fx {
    Fx { v: micros }
}

fn result_at(date: MonthDate, score: i64, prob: i64) -> NIVResult {
    NIVResult {
        date,
        niv_score: fx(score),
        recession_probability: fx(prob),
        components: NIVComponents {
            thrust: fx(400_000),
            efficiency: fx(160_000),
            efficiency_squared: fx(25_600),
            slack: fx(215_000),
            drag: fx(12_600),
            drag_spread: fx(5_000),
            drag_real_rate: fx(20_500),
            drag_volatility: fx(12_000),
        },
        alert_level: AlertLevel::from_probability(fx(prob)),
    }
}

#[test]
fn default_history_limit_is_one_thousand() {
    assert_eq!(default_limit(), 1000);
}

#[test]
fn custom_smoothing_averages_score_and_probability_only() {
    let dates: Vec<MonthDate> = (1..=4).map(|m| MonthDate::new(2021, m as u8)).collect();
    let raw: Vec<NIVResult> = vec![
        result_at(dates[0], 3_000_000, 100_000),
        result_at(dates[1], 6_000_000, 200_000),
        result_at(dates[2], 9_000_000, 600_000),
        result_at(dates[3], 0, 400_000),
    ];
    let out = apply_custom_smoothing(&raw, 3);
    assert_eq!(out.len(), 4);
    assert_eq!(out[0], raw[0]);
    assert_eq!(out[1], raw[1]);
    // index 2: mean score (3+6+9)/3 = 6, mean probability 0.3
    assert_eq!(out[2].niv_score.micros(), 6_000_000);
    assert_eq!(out[2].recession_probability.micros(), 300_000);
    assert_eq!(out[2].components, raw[2].components);
    assert_eq!(out[2].alert_level, AlertLevel::Elevated);
    // index 3: mean score (6+9+0)/3 = 5, mean probability 0.4
    assert_eq!(out[3].niv_score.micros(), 5_000_000);
    assert_eq!(out[3].recession_probability.micros(), 400_000);
}

#[test]
fn custom_smoothing_leaves_short_series() {
    let raw = vec![result_at(MonthDate::new(2021, 1), 1_000_000, 100_000)];
    assert_eq!(apply_custom_smoothing(&raw, 5), raw);
}

#[test]
fn recession_table_and_lookup() {
    let table = RecessionPeriods::known_recessions();
    assert_eq!(table.len(), 8);
    assert_eq!(table[0].0, MonthDate::new(2020, 2));
    assert_eq!(table[1].1, MonthDate::new(2009, 6));
    assert!(RecessionPeriods::is_recession(MonthDate::new(2008, 5)));
    assert!(RecessionPeriods::is_recession(MonthDate::new(2020, 3)));
    assert!(!RecessionPeriods::is_recession(MonthDate::new(2015, 1)));
    assert!(!RecessionPeriods::is_recession(MonthDate::new(2020, 5)));
}

#[test]
fn recession_period_table_by_year_month() {
    assert!(is_recession_period(2020, 3));
    assert!(!is_recession_period(2020, 5));
    assert!(is_recession_period(2008, 12));
    assert!(is_recession_period(2009, 6));
    assert!(!is_recession_period(2009, 7));
    assert!(is_recession_period(1969, 12));
    assert!(!is_recession_period(1969, 11));
    assert!(!is_recession_period(2024, 1));
}

#[test]
fn recession_names_cover_known_and_unknown_years() {
    assert_eq!(recession_name(MonthDate::new(2020, 2)), "COVID-19 Recession");
    assert_eq!(recession_name(MonthDate::new(2007, 12)), "Great Recession");
    assert_eq!(recession_name(MonthDate::new(1981, 7)), "1981-82 Recession (Volcker)");
    assert_eq!(recession_name(MonthDate::new(1937, 5)), "1937 Recession");
}

#[test]
fn history_slice_filters_and_limits() {
    let rs: Vec<NIVResult> = (1..=3)
        .map(|m| result_at(MonthDate::new(2020, m as u8), 0, 100_000))
        .collect();
    let from_feb = history_slice(&rs, Some(MonthDate::new(2020, 2)), None, 1000);
    assert_eq!(from_feb.len(), 2);
    assert_eq!(from_feb[0].date, MonthDate::new(2020, 2));
    let capped = history_slice(&rs, None, None, 1);
    assert_eq!(capped.len(), 1);
    assert_eq!(capped[0].date, MonthDate::new(2020, 1));
    let to_feb = history_slice(&rs, None, Some(MonthDate::new(2020, 2)), 1000);
    assert_eq!(to_feb.len(), 2);
}

#[test]
fn summary_counts_signals_and_hits() {
    let rs = vec![
        result_at(MonthDate::new(2008, 9), -30_000_000, 600_000),
        result_at(MonthDate::new(2015, 1), 10_000_000, 200_000),
    ];
    let s = calculate_simulation_summary(&rs);
    assert_eq!(s.total_points, 2);
    assert_eq!(s.avg_probability.micros(), 400_000);
    assert_eq!(s.max_probability.micros(), 600_000);
    assert_eq!(s.min_probability.micros(), 200_000);
    assert_eq!(s.recessions_detected, 1);
    assert_eq!(s.true_positives, 1);
    assert_eq!(s.false_positives, 0);
}

#[test]
fn summary_of_empty_series_is_zero() {
    let s = calculate_simulation_summary(&Vec::new());
    assert_eq!(s.total_points, 0);
    assert_eq!(s.avg_probability.micros(), 0);
    assert_eq!(s.recessions_detected, 0);
}

#[test]
fn identity_weights_reproduce_the_score() {
    let engine = NIVEngine::new();
    let r = result_at(MonthDate::new(2021, 1), 0, 0);
    let base_score = engine.compute_niv(&r.components);
    let rw = engine.reweight_result(&r, ComponentWeights::identity());
    assert_eq!(rw.niv_score.micros(), base_score.micros());
    assert_eq!(rw.date, r.date);
}

#[test]
fn doubling_drag_weight_depresses_the_score() {
    let engine = NIVEngine::new();
    let r = result_at(MonthDate::new(2021, 1), 0, 0);
    let neutral = engine.reweight_result(&r, ComponentWeights::identity());
    let mut w = ComponentWeights::identity();
    w.drag = fx(2_000_000);
    let heavier = engine.reweight_result(&r, w);
    // a positive numerator over a larger denominator shrinks
    assert!(heavier.niv_score.micros() <= neutral.niv_score.micros());
}

#[test]
fn sensitivity_sweep_spans_the_requested_range() {
    let engine = NIVEngine::new();
    let c = result_at(MonthDate::new(2021, 1), 0, 0).components;
    let sweep = engine.sensitivity_sweep(&c, SensitivityComponent::Eta, fx(500_000), fx(3_000_000), 10);
    assert_eq!(sweep.len(), 11);
    assert_eq!(sweep[0].0.micros(), 500_000);
    assert_eq!(sweep[10].0.micros(), 3_000_000);
    for (_, p) in &sweep {
        assert!((0..=1_000_000).contains(&p.micros()));
    }
    let direct = engine.sensitivity_probability(&c, SensitivityComponent::Eta, fx(500_000));
    assert_eq!(sweep[0].1.micros(), direct.micros());
}

#[test]
fn draws_sort_mean_stddev_percentile() {
    let draws = vec![fx(3_000_000), fx(1_000_000), fx(2_000_000)];
    let sorted = sort_draws(&draws);
    assert_eq!(
        sorted.iter().map(|d| d.micros()).collect::<Vec<i64>>(),
        vec![1_000_000, 2_000_000, 3_000_000]
    );
    assert_eq!(percentile_of_sorted(&sorted, fx(500_000)).micros(), 2_000_000);
    assert_eq!(percentile_of_sorted(&sorted, fx(0)).micros(), 1_000_000);
    assert_eq!(percentile_of_sorted(&sorted, fx(1_000_000)).micros(), 3_000_000);

    let pair = vec![fx(1_000_000), fx(3_000_000)];
    assert_eq!(draws_mean(&pair).micros(), 2_000_000);
    assert_eq!(draws_std_dev(&pair).micros(), 1_000_000);
}

#[test]
fn fed_benchmark_probability_tracks_inversion() {
    let mut c = result_at(MonthDate::new(2021, 1), 0, 0).components;
    // inverted curve: 0.6 + 0.005 * 50 = 0.85
    assert_eq!(fed_comparison_probability(&c).micros(), 850_000);
    c.drag_spread = fx(0);
    // normal curve: 0.2 + 0.0126 * 2 = 0.2252
    assert_eq!(fed_comparison_probability(&c).micros(), 225_200);
}

#[test]
fn interpretations_name_each_band() {
    assert_eq!(interpret_thrust(fx(800_000)), "Strong expansion impulse (M2 + Investment surging)");
    assert_eq!(interpret_thrust(fx(0)), "Neutral monetary/fiscal stance");
    assert_eq!(interpret_efficiency(fx(160_000)), "Healthy investment levels");
    assert_eq!(
        interpret_efficiency(fx(100_000)),
        "Weak investment - hollow growth risk (GFC signal)"
    );
    assert_eq!(interpret_slack(fx(215_000)), "Normal capacity utilization");
    assert_eq!(interpret_slack(fx(350_000)), "High unused capacity (30%+) - recession signal");
    assert_eq!(interpret_drag(fx(12_600)), "Moderate friction levels");
    assert_eq!(interpret_drag(fx(35_000)), "CRITICAL: High friction - liquidity stress");
}

#[test]
fn series_identifiers_match_the_provider() {
    assert_eq!(FredSeries::Investment.series_id(), "GPDIC1");
    assert_eq!(FredSeries::M2Supply.series_id(), "M2SL");
    assert_eq!(FredSeries::CPI.series_id(), "CPIAUCSL");
    assert_eq!(FredSeries::all().len(), 7);
}

#[test]
fn alert_colors_and_labels() {
    assert_eq!(AlertLevel::Normal.color(), "#22c55e");
    assert_eq!(AlertLevel::Critical.color(), "#ef4444");
    assert_eq!(AlertLevel::Normal.label(), "Normal");
    assert_eq!(AlertLevel::Critical.label(), "CRITICAL");
}

#[test]
fn error_descriptions_name_the_failure() {
    assert_eq!(
        FredError::MissingApiKey.describe(),
        "FRED_API_KEY environment variable not set"
    );
    assert_eq!(
        FredError::NetworkError("timed out".to_string()).describe(),
        "Network error: timed out"
    );
    assert_eq!(FredError::ApiError("500".to_string()).describe(), "FRED API error: 500");
    assert_eq!(FredError::ParseError("bad".to_string()).describe(), "Parse error: bad");
}

fn obs(day: i64, year: i32, month: u8, value: i64) -> Observation {
    Observation { day, date: MonthDate::new(year, month), value: fx(value) }
}

#[test]
fn nearest_prefers_smaller_distance_and_earlier_ties() {
    let s = vec![obs(100, 2020, 1, 1_000_000), obs(150, 2020, 2, 2_000_000)];
    assert_eq!(find_nearest(&s, 130).unwrap().micros(), 2_000_000);
    assert_eq!(find_nearest(&s, 110).unwrap().micros(), 1_000_000);
    assert!(find_nearest(&s, 300).is_none());
    let tie = vec![obs(100, 2020, 1, 1_000_000), obs(140, 2020, 2, 2_000_000)];
    assert_eq!(find_nearest(&tie, 120).unwrap().micros(), 1_000_000);
}

#[test]
fn year_over_year_change_uses_the_prior_year() {
    let s = vec![obs(365, 2019, 1, 100_000_000), obs(730, 2020, 1, 105_000_000)];
    assert_eq!(calculate_yoy_change(&s, 730).unwrap().micros(), 5_000_000);
    assert!(calculate_yoy_change(&s, 364).is_none());
    let tiny = vec![obs(365, 2019, 1, 5_000), obs(730, 2020, 1, 105_000_000)];
    assert!(calculate_yoy_change(&tiny, 730).is_none());
}

#[test]
fn merge_builds_records_from_the_capacity_spine() {
    let day = 738_000i64;
    let investment = vec![obs(day, 2021, 1, 4_000_000_000)];
    let m2 = vec![obs(day, 2021, 1, 21_000_000_000)];
    let fed = vec![obs(day, 2021, 1, 5_250_000)];
    let gdp = vec![obs(day, 2021, 1, 28_000_000_000)];
    let spread = vec![obs(day, 2021, 1, -500_000)];
    let cpi = vec![obs(day - 365, 2020, 1, 100_000_000), obs(day, 2021, 1, 103_000_000)];
    let spine = vec![obs(day, 2021, 1, 78_500_000)];
    let merged = merge_series(&investment, &m2, &fed, &gdp, &spread, &cpi, &spine);
    assert_eq!(merged.len(), 1);
    let r = &merged[0];
    assert_eq!(r.date, MonthDate::new(2021, 1));
    assert_eq!(r.investment.micros(), 4_000_000_000);
    assert_eq!(r.m2_supply.micros(), 21_000_000_000);
    assert_eq!(r.fed_funds_rate.micros(), 5_250_000);
    assert_eq!(r.gdp.micros(), 28_000_000_000);
    assert_eq!(r.capacity_util.micros(), 78_500_000);
    assert_eq!(r.yield_spread.micros(), -500_000);
    // (103 - 100) / 100 * 100 = 3%
    assert_eq!(r.cpi_inflation.micros(), 3_000_000);
}

#[test]
fn merge_drops_months_below_the_output_floor() {
    let day = 738_000i64;
    let small_gdp = vec![obs(day, 2021, 1, 50_000_000)];
    let others = vec![obs(day, 2021, 1, 1_000_000)];
    let spine = vec![obs(day, 2021, 1, 78_500_000)];
    let merged = merge_series(&others, &others, &others, &small_gdp, &others, &others, &spine);
    assert_eq!(merged.len(), 0);
}

#[test]
fn merge_defaults_inflation_without_price_history() {
    let day = 738_000i64;
    let series = vec![obs(day, 2021, 1, 28_000_000_000)];
    let cpi = vec![obs(day, 2021, 1, 103_000_000)];
    let spine = vec![obs(day, 2021, 1, 78_500_000)];
    let merged = merge_series(&series, &series, &series, &series, &series, &cpi, &spine);
    assert_eq!(merged.len(), 1);
    assert_eq!(merged[0].cpi_inflation.micros(), 2_500_000);
}

#[test]
fn decimal_rendering_is_exact() {
    assert_eq!(u64_to_string(0), "0");
    assert_eq!(u64_to_string(1234), "1234");
    assert_eq!(i64_to_string(-42), "-42");
    assert_eq!(fx_to_string2(fx(12_345_678)), "12.34");
    assert_eq!(fx_to_string2(fx(-500_000)), "-0.50");
    assert_eq!(fx_to_string2(fx(45_000_000)), "45.00");
    assert_eq!(fx_to_percent_string1(fx(879_000)), "87.9");
    assert_eq!(fx_to_percent_string1(fx(400_000)), "40.0");
}
