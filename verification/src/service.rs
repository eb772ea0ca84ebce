//! Computations the serving layer needs beyond the engine itself: history
//! slicing, a configurable smoothing window, summary statistics over a
//! computed series, the reference table of contraction periods, and the
//! textual interpretation of component readings.

use vstd::prelude::*;
use vstd::string::StringExecFns;
use crate::fixed::{Fx, SCALE, tdiv, fx_add_v, fx_mul_v, clamp_v};
use crate::niv::{MonthDate, NIVResult, NIVComponents, AlertLevel, alert_level_v};
use crate::series::{sum_range, scores_of, probs_of};
use crate::text::{i64_to_string};

verus! {

/// Default number of entries a history request returns.
pub fn default_limit() -> (r: usize)
    ensures
        r == 1000,
{
    1000
}

/// The custom-window smoothed result at index `i`: score and probability
/// replaced by their trailing-window means, components kept, and the alert
/// tier recomputed from the smoothed probability.
pub open spec fn custom_smoothed_at(rs: Seq<NIVResult>, w: int, i: int) -> NIVResult {
    let p = tdiv(sum_range(probs_of(rs), i + 1 - w, w as nat), w);
    NIVResult {
        date: rs[i].date,
        niv_score: Fx { v: tdiv(sum_range(scores_of(rs), i + 1 - w, w as nat), w) as i64 },
        recession_probability: Fx { v: p as i64 },
        components: rs[i].components,
        alert_level: alert_level_v(p),
    }
}

/// The custom smoother's output for a given input and window.
pub open spec fn custom_smoothing_match(out: Seq<NIVResult>, rs: Seq<NIVResult>, w: int) -> bool {
    &&& out.len() == rs.len()
    &&& rs.len() < w ==> out =~= rs
    &&& rs.len() >= w ==> forall|i: int|
        0 <= i < out.len() ==> #[trigger] out[i] == if i < w - 1 {
            rs[i]
        } else {
            custom_smoothed_at(rs, w, i)
        }
}

/// Truncated mean of a window sum over an arbitrary window length.
fn div_avg_w(sum: i128, w: usize) -> (r: i64)
    requires
        1 <= w,
        -((w as int) * 0x8000_0000_0000_0000) <= sum as int <= (w as int) * 0x7FFF_FFFF_FFFF_FFFF,
    ensures
        r as int == tdiv(sum as int, w as int),
{
    proof {
        assert(-0x8000_0000_0000_0000 <= tdiv(sum as int, w as int) <= 0x7FFF_FFFF_FFFF_FFFF)
            by (nonlinear_arith)
            requires
                1 <= (w as int),
                -((w as int) * 0x8000_0000_0000_0000) <= (sum as int) <= (w as int)
                    * 0x7FFF_FFFF_FFFF_FFFF,
        ;
    }
    (sum / (w as i128)) as i64
}

/// Smooth only score and probability over a caller-chosen trailing window,
/// keeping each month's components and recomputing its alert tier.
pub fn apply_custom_smoothing(results: &Vec<NIVResult>, window: usize) -> (r: Vec<NIVResult>)
    requires
        window >= 1,
    ensures
        custom_smoothing_match(r@, results@, window as int),
{
    let n = results.len();
    let mut out: Vec<NIVResult> = Vec::new();
    if n < window {
        let mut i: usize = 0;
        while i < n
            invariant
                i <= n,
                n == results@.len(),
                out@.len() == i,
                forall|j: int| 0 <= j < i ==> #[trigger] out@[j] == results@[j],
            decreases n - i,
        {
            out.push(results[i]);
            i = i + 1;
        }
        return out;
    }
    let mut i: usize = 0;
    while i < n
        invariant
            i <= n,
            1 <= window <= n,
            n == results@.len(),
            out@.len() == i,
            forall|j: int|
                0 <= j < i ==> #[trigger] out@[j] == if j < window - 1 {
                    results@[j]
                } else {
                    custom_smoothed_at(results@, window as int, j)
                },
        decreases n - i,
    {
        if i < window - 1 {
            out.push(results[i]);
        } else {
            let lo: usize = i + 1 - window;
            let mut s_score: i128 = 0;
            let mut s_prob: i128 = 0;
            let mut j: usize = lo;
            while j <= i
                invariant
                    lo == i + 1 - window,
                    1 <= window,
                    window - 1 <= i < n,
                    n == results@.len(),
                    lo <= j <= i + 1,
                    s_score == sum_range(scores_of(results@), lo as int, (j - lo) as nat),
                    s_prob == sum_range(probs_of(results@), lo as int, (j - lo) as nat),
                    -(((j - lo) as i128) * 0x8000_0000_0000_0000i128) <= s_score <= ((j
                        - lo) as i128) * 0x7FFF_FFFF_FFFF_FFFFi128,
                    -(((j - lo) as i128) * 0x8000_0000_0000_0000i128) <= s_prob <= ((j
                        - lo) as i128) * 0x7FFF_FFFF_FFFF_FFFFi128,
                decreases i + 1 - j,
            {
                let rj = results[j];
                s_score = s_score + (rj.niv_score.v as i128);
                s_prob = s_prob + (rj.recession_probability.v as i128);
                j = j + 1;
            }
            let avg_prob = Fx { v: div_avg_w(s_prob, window) };
            let res = NIVResult {
                date: results[i].date,
                niv_score: Fx { v: div_avg_w(s_score, window) },
                recession_probability: avg_prob,
                components: results[i].components,
                alert_level: AlertLevel::from_probability(avg_prob),
            };
            proof {
                assert(res == custom_smoothed_at(results@, window as int, i as int));
            }
            out.push(res);
        }
        i = i + 1;
    }
    out
}

/// Historically recognized contraction episodes.
pub struct RecessionPeriods;

/// The table of recognized contraction episodes, newest first.
pub open spec fn known_recessions_v() -> Seq<(MonthDate, MonthDate)> {
    seq![
        (MonthDate { year: 2020, month: 2 }, MonthDate { year: 2020, month: 4 }),
        (MonthDate { year: 2007, month: 12 }, MonthDate { year: 2009, month: 6 }),
        (MonthDate { year: 2001, month: 3 }, MonthDate { year: 2001, month: 11 }),
        (MonthDate { year: 1990, month: 7 }, MonthDate { year: 1991, month: 3 }),
        (MonthDate { year: 1981, month: 7 }, MonthDate { year: 1982, month: 11 }),
        (MonthDate { year: 1980, month: 1 }, MonthDate { year: 1980, month: 7 }),
        (MonthDate { year: 1973, month: 11 }, MonthDate { year: 1975, month: 3 }),
        (MonthDate { year: 1969, month: 12 }, MonthDate { year: 1970, month: 11 }),
    ]
}

/// A month lies within an episode's closed range.
pub open spec fn in_period(d: MonthDate, p: (MonthDate, MonthDate)) -> bool {
    p.0.le_v(d) && d.le_v(p.1)
}

/// Whether one of the first `k` episodes contains the month.
pub open spec fn hit_v(d: MonthDate, k: nat) -> bool
    decreases k,
{
    if k == 0 {
        false
    } else {
        hit_v(d, (k - 1) as nat) || in_period(d, known_recessions_v()[k - 1])
    }
}

/// A month lies in some recognized contraction episode.
pub open spec fn is_recession_v(d: MonthDate) -> bool {
    hit_v(d, known_recessions_v().len())
}

impl RecessionPeriods {
    /// The recognized contraction episodes as (start, end) month pairs.
    pub fn known_recessions() -> (r: Vec<(MonthDate, MonthDate)>)
        ensures
            r@ == known_recessions_v(),
    {
        let mut v: Vec<(MonthDate, MonthDate)> = Vec::new();
        v.push((MonthDate { year: 2020, month: 2 }, MonthDate { year: 2020, month: 4 }));
        v.push((MonthDate { year: 2007, month: 12 }, MonthDate { year: 2009, month: 6 }));
        v.push((MonthDate { year: 2001, month: 3 }, MonthDate { year: 2001, month: 11 }));
        v.push((MonthDate { year: 1990, month: 7 }, MonthDate { year: 1991, month: 3 }));
        v.push((MonthDate { year: 1981, month: 7 }, MonthDate { year: 1982, month: 11 }));
        v.push((MonthDate { year: 1980, month: 1 }, MonthDate { year: 1980, month: 7 }));
        v.push((MonthDate { year: 1973, month: 11 }, MonthDate { year: 1975, month: 3 }));
        v.push((MonthDate { year: 1969, month: 12 }, MonthDate { year: 1970, month: 11 }));
        proof {
            assert(v@ =~= known_recessions_v());
        }
        v
    }

    /// Whether a month falls within a recognized contraction episode.
    pub fn is_recession(date: MonthDate) -> (r: bool)
        ensures
            r == is_recession_v(date),
    {
        let periods = Self::known_recessions();
        let k = periods.len();
        let mut found: bool = false;
        let mut i: usize = 0;
        while i < k
            invariant
                i <= k,
                k == known_recessions_v().len(),
                periods@ == known_recessions_v(),
                found == hit_v(date, i as nat),
            decreases k - i,
        {
            let (start, end) = periods[i];
            if start.le(date) && date.le(end) {
                found = true;
            }
            i = i + 1;
        }
        found
    }
}

/// The display name of the episode starting in a given month.
pub fn recession_name(start: MonthDate) -> (r: String)
    ensures
        start.year == 2020 ==> r@ == "COVID-19 Recession"@,
        start.year == 2007 || start.year == 2008 ==> r@ == "Great Recession"@,
        start.year == 2001 ==> r@ == "Dot-com Recession"@,
        start.year == 1990 ==> r@ == "Early 1990s Recession"@,
        start.year == 1981 || start.year == 1982 ==> r@ == "1981-82 Recession (Volcker)"@,
        start.year == 1980 ==> r@ == "1980 Recession"@,
        start.year == 1973 || start.year == 1974 || start.year == 1975 ==> r@
            == "1973-75 Oil Crisis Recession"@,
        start.year == 1969 || start.year == 1970 ==> r@ == "1969-70 Recession"@,
    {
    if start.year == 2020 {
        String::from_str("COVID-19 Recession")
    } else if start.year == 2007 || start.year == 2008 {
        String::from_str("Great Recession")
    } else if start.year == 2001 {
        String::from_str("Dot-com Recession")
    } else if start.year == 1990 {
        String::from_str("Early 1990s Recession")
    } else if start.year == 1981 || start.year == 1982 {
        String::from_str("1981-82 Recession (Volcker)")
    } else if start.year == 1980 {
        String::from_str("1980 Recession")
    } else if start.year == 1973 || start.year == 1974 || start.year == 1975 {
        String::from_str("1973-75 Oil Crisis Recession")
    } else if start.year == 1969 || start.year == 1970 {
        String::from_str("1969-70 Recession")
    } else {
        let mut s = i64_to_string(start.year as i64);
        s.append(" Recession");
        s
    }
}

/// A month lies within an optional closed date range.
pub open spec fn in_date_range(
    r: NIVResult,
    start: Option<MonthDate>,
    end: Option<MonthDate>,
) -> bool {
    &&& match start {
        Some(s) => s.le_v(r.date),
        None => true,
    }
    &&& match end {
        Some(e) => r.date.le_v(e),
        None => true,
    }
}

/// The first `limit` results among the first `n` that lie in the range.
pub open spec fn history_v(
    rs: Seq<NIVResult>,
    n: nat,
    start: Option<MonthDate>,
    end: Option<MonthDate>,
    limit: int,
) -> Seq<NIVResult>
    decreases n,
{
    if n == 0 {
        Seq::empty()
    } else {
        let p = history_v(rs, (n - 1) as nat, start, end, limit);
        if p.len() < limit && in_date_range(rs[n - 1], start, end) {
            p.push(rs[n - 1])
        } else {
            p
        }
    }
}

/// Slice a result series by an optional date range, up to a limit.
pub fn history_slice(
    results: &Vec<NIVResult>,
    start: Option<MonthDate>,
    end: Option<MonthDate>,
    limit: usize,
) -> (r: Vec<NIVResult>)
    ensures
        r@ == history_v(results@, results@.len(), start, end, limit as int),
{
    let n = results.len();
    let mut out: Vec<NIVResult> = Vec::new();
    let mut i: usize = 0;
    while i < n
        invariant
            i <= n,
            n == results@.len(),
            out@ == history_v(results@, i as nat, start, end, limit as int),
            out@.len() <= limit,
        decreases n - i,
    {
        let rc = results[i];
        let ok_start = match start {
            Some(s) => s.le(rc.date),
            None => true,
        };
        let ok_end = match end {
            Some(e) => rc.date.le(e),
            None => true,
        };
        if out.len() < limit && ok_start && ok_end {
            out.push(rc);
        }
        i = i + 1;
    }
    out
}

/// The recession probability a plain yield-curve reading would give: an
/// inverted curve maps the inversion depth onto a high base rate, a normal
/// curve maps combined drag onto a low one; both clamped to the unit
/// interval.
pub open spec fn fed_probability_v(c: NIVComponents) -> int {
    if c.drag_spread.m() > 0 {
        clamp_v(fx_add_v(600_000, fx_mul_v(c.drag_spread.m(), 50 * SCALE)), 0, SCALE as int)
    } else {
        clamp_v(fx_add_v(200_000, fx_mul_v(c.drag.m(), 2 * SCALE)), 0, SCALE as int)
    }
}

/// Compute the yield-curve benchmark probability for one month.
pub fn fed_comparison_probability(c: &NIVComponents) -> (r: Fx)
    ensures
        r.m() == fed_probability_v(*c),
        0 <= r.m() <= SCALE,
{
    let base = if c.drag_spread.v > 0 {
        Fx { v: 600_000 }.add(c.drag_spread.mul(Fx { v: 50_000_000 }))
    } else {
        Fx { v: 200_000 }.add(c.drag.mul(Fx { v: 2_000_000 }))
    };
    base.clamp(Fx { v: 0 }, Fx { v: SCALE })
}

/// Describe a thrust reading.
pub fn interpret_thrust(v: Fx) -> (r: String)
    ensures
        v.m() > 700_000 ==> r@ == "Strong expansion impulse (M2 + Investment surging)"@,
        300_000 < v.m() <= 700_000 ==> r@ == "Moderate growth impulse"@,
        -300_000 < v.m() <= 300_000 ==> r@ == "Neutral monetary/fiscal stance"@,
        -700_000 < v.m() <= -300_000 ==> r@ == "Moderate contraction pressure"@,
        v.m() <= -700_000 ==> r@ == "Strong contraction pressure (tightening cycle)"@,
{
    if v.v > 700_000 {
        String::from_str("Strong expansion impulse (M2 + Investment surging)")
    } else if v.v > 300_000 {
        String::from_str("Moderate growth impulse")
    } else if v.v > -300_000 {
        String::from_str("Neutral monetary/fiscal stance")
    } else if v.v > -700_000 {
        String::from_str("Moderate contraction pressure")
    } else {
        String::from_str("Strong contraction pressure (tightening cycle)")
    }
}

/// Describe an efficiency reading.
pub fn interpret_efficiency(v: Fx) -> (r: String)
    ensures
        v.m() > 180_000 ==> r@ == "High productive investment (18%+ of GDP)"@,
        150_000 < v.m() <= 180_000 ==> r@ == "Healthy investment levels"@,
        120_000 < v.m() <= 150_000 ==> r@ == "Below-average investment"@,
        v.m() <= 120_000 ==> r@ == "Weak investment - hollow growth risk (GFC signal)"@,
{
    if v.v > 180_000 {
        String::from_str("High productive investment (18%+ of GDP)")
    } else if v.v > 150_000 {
        String::from_str("Healthy investment levels")
    } else if v.v > 120_000 {
        String::from_str("Below-average investment")
    } else {
        String::from_str("Weak investment - hollow growth risk (GFC signal)")
    }
}

/// Describe a slack reading.
pub fn interpret_slack(v: Fx) -> (r: String)
    ensures
        v.m() > 300_000 ==> r@ == "High unused capacity (30%+) - recession signal"@,
        220_000 < v.m() <= 300_000 ==> r@ == "Elevated slack - room to grow"@,
        150_000 < v.m() <= 220_000 ==> r@ == "Normal capacity utilization"@,
        v.m() <= 150_000 ==> r@ == "Economy running hot - overheating risk"@,
{
    if v.v > 300_000 {
        String::from_str("High unused capacity (30%+) - recession signal")
    } else if v.v > 220_000 {
        String::from_str("Elevated slack - room to grow")
    } else if v.v > 150_000 {
        String::from_str("Normal capacity utilization")
    } else {
        String::from_str("Economy running hot - overheating risk")
    }
}

/// Describe a drag reading.
pub fn interpret_drag(v: Fx) -> (r: String)
    ensures
        v.m() > 30_000 ==> r@ == "CRITICAL: High friction - liquidity stress"@,
        20_000 < v.m() <= 30_000 ==> r@ == "Elevated drag - watch closely"@,
        10_000 < v.m() <= 20_000 ==> r@ == "Moderate friction levels"@,
        v.m() <= 10_000 ==> r@ == "Low friction - smooth capital flow"@,
{
    if v.v > 30_000 {
        String::from_str("CRITICAL: High friction - liquidity stress")
    } else if v.v > 20_000 {
        String::from_str("Elevated drag - watch closely")
    } else if v.v > 10_000 {
        String::from_str("Moderate friction levels")
    } else {
        String::from_str("Low friction - smooth capital flow")
    }
}


} // verus!
