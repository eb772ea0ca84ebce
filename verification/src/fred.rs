//! The data-provider side of the engine that is pure computation: series
//! metadata, client error classification, nearest-date alignment, and the
//! merge of seven observation series into unified monthly records.  Network
//! fetching itself lives outside the library; callers hand in plain
//! observations (a day number, a calendar month, a value).

use vstd::prelude::*;
use vstd::string::StringExecFns;
use crate::fixed::{Fx, SCALE, tdiv, sat64, clamp_i128};
use crate::niv::{MonthDate, EconomicData};

verus! {

/// Identifiers of the seven input series.
#[derive(Debug, Clone, Copy, PartialEq, Eq, Structural)]
pub enum FredSeries {
    Investment,
    M2Supply,
    FedFundsRate,
    RealGDP,
    CapacityUtil,
    YieldSpread,
    CPI,
}

impl FredSeries {
    /// The provider's identifier for this series.
    pub fn series_id(&self) -> (r: &'static str)
        ensures
            self is Investment ==> r@ == "GPDIC1"@,
            self is M2Supply ==> r@ == "M2SL"@,
            self is FedFundsRate ==> r@ == "FEDFUNDS"@,
            self is RealGDP ==> r@ == "GDPC1"@,
            self is CapacityUtil ==> r@ == "TCU"@,
            self is YieldSpread ==> r@ == "T10Y3M"@,
            self is CPI ==> r@ == "CPIAUCSL"@,
    {
        match self {
            FredSeries::Investment => "GPDIC1",
            FredSeries::M2Supply => "M2SL",
            FredSeries::FedFundsRate => "FEDFUNDS",
            FredSeries::RealGDP => "GDPC1",
            FredSeries::CapacityUtil => "TCU",
            FredSeries::YieldSpread => "T10Y3M",
            FredSeries::CPI => "CPIAUCSL",
        }
    }

    /// All seven series, in the order the merge expects.
    pub fn all() -> (r: Vec<FredSeries>)
        ensures
            r@ =~= seq![
                FredSeries::Investment,
                FredSeries::M2Supply,
                FredSeries::FedFundsRate,
                FredSeries::RealGDP,
                FredSeries::CapacityUtil,
                FredSeries::YieldSpread,
                FredSeries::CPI,
            ],
    {
        let mut v: Vec<FredSeries> = Vec::new();
        v.push(FredSeries::Investment);
        v.push(FredSeries::M2Supply);
        v.push(FredSeries::FedFundsRate);
        v.push(FredSeries::RealGDP);
        v.push(FredSeries::CapacityUtil);
        v.push(FredSeries::YieldSpread);
        v.push(FredSeries::CPI);
        v
    }
}

/// Failures of the data-provider client.
#[derive(Debug, Clone)]
pub enum FredError {
    MissingApiKey,
    NetworkError(String),
    ApiError(String),
    ParseError(String),
}

impl FredError {
    /// A human-readable description of the failure.
    pub fn describe(&self) -> (r: String)
        ensures
            self is MissingApiKey ==> r@ == "FRED_API_KEY environment variable not set"@,
            (self matches FredError::NetworkError(m) ==> r@ == "Network error: "@ + m@),
            (self matches FredError::ApiError(m) ==> r@ == "FRED API error: "@ + m@),
            (self matches FredError::ParseError(m) ==> r@ == "Parse error: "@ + m@),
    {
        match self {
            FredError::MissingApiKey => String::from_str(
                "FRED_API_KEY environment variable not set",
            ),
            FredError::NetworkError(e) => {
                let mut s = String::from_str("Network error: ");
                s.append(e.as_str());
                s
            },
            FredError::ApiError(e) => {
                let mut s = String::from_str("FRED API error: ");
                s.append(e.as_str());
                s
            },
            FredError::ParseError(e) => {
                let mut s = String::from_str("Parse error: ");
                s.append(e.as_str());
                s
            },
        }
    }
}

/// One observation of one series: an absolute day number, its calendar
/// month, and the observed value.
#[derive(Debug, Clone, Copy, PartialEq, Eq, Structural)]
pub struct Observation {
    pub day: i64,
    pub date: MonthDate,
    pub value: Fx,
}

/// Magnitude of an integer.
pub open spec fn abs_i(x: int) -> int {
    if x < 0 {
        -x
    } else {
        x
    }
}

/// Best (distance, value) pair among the first `n` observations within
/// ninety days of `target`; an earlier observation wins ties.
pub open spec fn nearest_acc_v(s: Seq<Observation>, n: nat, target: int) -> Option<(int, int)>
    decreases n,
{
    if n == 0 {
        None
    } else {
        let prev = nearest_acc_v(s, (n - 1) as nat, target);
        let d = abs_i(s[n - 1].day - target);
        match prev {
            None => if d <= 90 {
                Some((d, s[n - 1].value.m()))
            } else {
                None
            },
            Some(p) => if d <= 90 && d < p.0 {
                Some((d, s[n - 1].value.m()))
            } else {
                Some(p)
            },
        }
    }
}

/// The value of the observation nearest to `target` within ninety days.
pub open spec fn find_nearest_v(s: Seq<Observation>, target: int) -> Option<int> {
    match nearest_acc_v(s, s.len(), target) {
        None => None,
        Some(p) => Some(p.1),
    }
}

/// The value of the first observation on exactly day `day`, searching from
/// index `i` on.
pub open spec fn lookup_from_v(s: Seq<Observation>, i: nat, day: int) -> Option<int>
    decreases s.len() - i,
{
    if i >= s.len() {
        None
    } else if s[i as int].day == day {
        Some(s[i as int].value.m())
    } else {
        lookup_from_v(s, i + 1, day)
    }
}

/// The value observed on exactly day `day`, if any.
pub open spec fn lookup_v(s: Seq<Observation>, day: int) -> Option<int> {
    lookup_from_v(s, 0, day)
}

/// The value used for a series on a given day: the exact observation,
/// else the nearest within ninety days, else the fallback.
pub open spec fn pick_v(s: Seq<Observation>, day: int, fallback: int) -> int {
    match lookup_v(s, day) {
        Some(v) => v,
        None => match find_nearest_v(s, day) {
            Some(v) => v,
            None => fallback,
        },
    }
}

/// Signed percent change from `prev` to `cur`; zero on a zero base.
pub open spec fn pct_signed_v(cur: int, prev: int) -> int {
    if prev == 0 {
        0
    } else if prev > 0 {
        sat64(tdiv((cur - prev) * 100 * SCALE, prev))
    } else {
        sat64(tdiv(-((cur - prev) * 100 * SCALE), -prev))
    }
}

/// Year-over-year change at `day`: the exact value there against the value
/// nearest to one year earlier, as a percent; absent when either value is
/// missing or the earlier one is negligibly small.
pub open spec fn yoy_v(s: Seq<Observation>, day: int) -> Option<int> {
    match lookup_v(s, day) {
        None => None,
        Some(cur) => match find_nearest_v(s, day - 365) {
            None => None,
            Some(ya) => if abs_i(ya) < 10_000 {
                None
            } else {
                Some(pct_signed_v(cur, ya))
            },
        },
    }
}

/// Find the value of the observation nearest to `target` within ninety
/// days, an earlier observation winning ties.
pub fn find_nearest(s: &Vec<Observation>, target: i128) -> (r: Option<Fx>)
    requires
        -0x8000_0000_0000_0200 <= target <= 0x8000_0000_0000_0200,
    ensures
        match r {
            Some(v) => find_nearest_v(s@, target as int) == Some(v.m()),
            None => find_nearest_v(s@, target as int) is None,
        },
{
    let n = s.len();
    let mut best_diff: i128 = 0;
    let mut best_val: i64 = 0;
    let mut found: bool = false;
    let mut i: usize = 0;
    while i < n
        invariant
            i <= n,
            n == s@.len(),
            -0x8000_0000_0000_0200 <= target <= 0x8000_0000_0000_0200,
            found ==> nearest_acc_v(s@, i as nat, target as int) == Some(
                (best_diff as int, best_val as int),
            ),
            !found ==> nearest_acc_v(s@, i as nat, target as int) is None,
        decreases n - i,
    {
        let ob = s[i];
        let d: i128 = ob.day as i128 - target;
        let du: i128 = if d < 0 {
            -d
        } else {
            d
        };
        if du <= 90 && (!found || du < best_diff) {
            best_diff = du;
            best_val = ob.value.v;
            found = true;
        }
        i = i + 1;
    }
    if found {
        Some(Fx { v: best_val })
    } else {
        None
    }
}

/// Find the value observed on exactly day `day`, if any.
pub fn lookup_exact(s: &Vec<Observation>, day: i64) -> (r: Option<Fx>)
    ensures
        match r {
            Some(v) => lookup_v(s@, day as int) == Some(v.m()),
            None => lookup_v(s@, day as int) is None,
        },
{
    let n = s.len();
    let mut i: usize = 0;
    while i < n
        invariant
            i <= n,
            n == s@.len(),
            lookup_from_v(s@, 0, day as int) == lookup_from_v(s@, i as nat, day as int),
        decreases n - i,
    {
        if s[i].day == day {
            return Some(s[i].value);
        }
        i = i + 1;
    }
    None
}

/// The value used for a series on a given day, with a fallback.
fn pick(s: &Vec<Observation>, day: i64, fallback: Fx) -> (r: Fx)
    ensures
        r.m() == pick_v(s@, day as int, fallback.m()),
{
    match lookup_exact(s, day) {
        Some(v) => v,
        None => match find_nearest(s, day as i128) {
            Some(v) => v,
            None => fallback,
        },
    }
}

/// Signed percent change from `prev` to `cur`; zero on a zero base.
fn pct_signed(cur: Fx, prev: Fx) -> (r: Fx)
    ensures
        r.m() == pct_signed_v(cur.m(), prev.m()),
{
    if prev.v == 0 {
        Fx { v: 0 }
    } else {
        let num: i128 = ((cur.v as i128) - (prev.v as i128)) * 100_000_000i128;
        if prev.v > 0 {
            Fx { v: clamp_i128(num / (prev.v as i128)) }
        } else {
            Fx { v: clamp_i128((-num) / (-(prev.v as i128))) }
        }
    }
}

/// Year-over-year percent change of a series at a given day.
pub fn calculate_yoy_change(s: &Vec<Observation>, day: i64) -> (r: Option<Fx>)
    ensures
        match r {
            Some(v) => yoy_v(s@, day as int) == Some(v.m()),
            None => yoy_v(s@, day as int) is None,
        },
{
    let cur = match lookup_exact(s, day) {
        Some(v) => v,
        None => {
            return None;
        },
    };
    let ya = match find_nearest(s, (day as i128) - 365) {
        Some(v) => v,
        None => {
            return None;
        },
    };
    let mag: i64 = if ya.v < 0 {
        clamp_i128(-(ya.v as i128))
    } else {
        ya.v
    };
    if mag < 10_000 {
        None
    } else {
        Some(pct_signed(cur, ya))
    }
}

/// The last values seen for each series, used when a date has no usable
/// observation.
#[derive(Debug, Clone, Copy, PartialEq, Eq, Structural)]
pub struct LastValues {
    pub investment: Fx,
    pub m2: Fx,
    pub fed_funds: Fx,
    pub gdp: Fx,
    pub capacity: Fx,
    pub spread: Fx,
    pub cpi: Fx,
}

/// All-zero initial carry values.
pub open spec fn last_values_zero() -> LastValues {
    LastValues {
        investment: Fx { v: 0 },
        m2: Fx { v: 0 },
        fed_funds: Fx { v: 0 },
        gdp: Fx { v: 0 },
        capacity: Fx { v: 0 },
        spread: Fx { v: 0 },
        cpi: Fx { v: 0 },
    }
}

/// Merged records and carry values after consuming the first `n` entries of
/// the capacity spine.  Each spine month takes, for every series, the exact
/// observation of its day, else the nearest within ninety days, else the
/// carried value; inflation is the year-over-year change of the price
/// series (defaulting to two and a half percent); months whose output level
/// is below one hundred or whose capacity reading is below one are dropped,
/// though they still update the carry.
pub open spec fn merge_state(
    investment: Seq<Observation>,
    m2: Seq<Observation>,
    fed_funds: Seq<Observation>,
    gdp: Seq<Observation>,
    spread: Seq<Observation>,
    cpi: Seq<Observation>,
    spine: Seq<Observation>,
    n: nat,
) -> (Seq<EconomicData>, LastValues)
    decreases n,
{
    if n == 0 {
        (Seq::empty(), last_values_zero())
    } else {
        let (acc, last) = merge_state(investment, m2, fed_funds, gdp, spread, cpi, spine, (n - 1) as nat);
        let ob = spine[n - 1];
        let day = ob.day as int;
        let inv = pick_v(investment, day, last.investment.m());
        let m2v = pick_v(m2, day, last.m2.m());
        let ff = pick_v(fed_funds, day, last.fed_funds.m());
        let g = pick_v(gdp, day, last.gdp.m());
        let cap = ob.value.m();
        let spr = pick_v(spread, day, last.spread.m());
        let c = pick_v(cpi, day, last.cpi.m());
        let inflation = match yoy_v(cpi, day) {
            Some(x) => x,
            None => 2_500_000int,
        };
        let newlast = LastValues {
            investment: Fx { v: inv as i64 },
            m2: Fx { v: m2v as i64 },
            fed_funds: Fx { v: ff as i64 },
            gdp: Fx { v: g as i64 },
            capacity: Fx { v: cap as i64 },
            spread: Fx { v: spr as i64 },
            cpi: Fx { v: c as i64 },
        };
        if g < 100 * SCALE || cap < SCALE {
            (acc, newlast)
        } else {
            (
                acc.push(
                    EconomicData {
                        date: ob.date,
                        investment: Fx { v: inv as i64 },
                        m2_supply: Fx { v: m2v as i64 },
                        fed_funds_rate: Fx { v: ff as i64 },
                        gdp: Fx { v: g as i64 },
                        capacity_util: Fx { v: cap as i64 },
                        yield_spread: Fx { v: spr as i64 },
                        cpi_inflation: Fx { v: inflation as i64 },
                    },
                ),
                newlast,
            )
        }
    }
}

/// Merge seven observation series into unified monthly records, using the
/// capacity series as the date spine.
pub fn merge_series(
    investment: &Vec<Observation>,
    m2: &Vec<Observation>,
    fed_funds: &Vec<Observation>,
    gdp: &Vec<Observation>,
    spread: &Vec<Observation>,
    cpi: &Vec<Observation>,
    spine: &Vec<Observation>,
) -> (r: Vec<EconomicData>)
    ensures
        r@ == merge_state(
            investment@,
            m2@,
            fed_funds@,
            gdp@,
            spread@,
            cpi@,
            spine@,
            spine@.len(),
        ).0,
{
    let n = spine.len();
    let mut out: Vec<EconomicData> = Vec::new();
    let mut last = LastValues {
        investment: Fx { v: 0 },
        m2: Fx { v: 0 },
        fed_funds: Fx { v: 0 },
        gdp: Fx { v: 0 },
        capacity: Fx { v: 0 },
        spread: Fx { v: 0 },
        cpi: Fx { v: 0 },
    };
    let mut i: usize = 0;
    while i < n
        invariant
            i <= n,
            n == spine@.len(),
            (out@, last) == merge_state(
                investment@,
                m2@,
                fed_funds@,
                gdp@,
                spread@,
                cpi@,
                spine@,
                i as nat,
            ),
        decreases n - i,
    {
        let ob = spine[i];
        let day = ob.day;
        let inv = pick(investment, day, last.investment);
        let m2v = pick(m2, day, last.m2);
        let ff = pick(fed_funds, day, last.fed_funds);
        let g = pick(gdp, day, last.gdp);
        let cap = ob.value;
        let spr = pick(spread, day, last.spread);
        let c = pick(cpi, day, last.cpi);
        let inflation = match calculate_yoy_change(cpi, day) {
            Some(x) => x,
            None => Fx { v: 2_500_000 },
        };
        last = LastValues {
            investment: inv,
            m2: m2v,
            fed_funds: ff,
            gdp: g,
            capacity: cap,
            spread: spr,
            cpi: c,
        };
        if !(g.v < 100_000_000 || cap.v < 1_000_000) {
            out.push(
                EconomicData {
                    date: ob.date,
                    investment: inv,
                    m2_supply: m2v,
                    fed_funds_rate: ff,
                    gdp: g,
                    capacity_util: cap,
                    yield_spread: spr,
                    cpi_inflation: inflation,
                },
            );
        }
        i = i + 1;
    }
    out
}


/// Whether a (year, month) pair falls in a recognized contraction period,
/// by the fixed table the synthetic-data generator uses.
pub open spec fn is_recession_period_v(year: int, month: int) -> bool {
    ||| (year == 2008 && 1 <= month <= 12)
    ||| (year == 2009 && 1 <= month <= 6)
    ||| (year == 2020 && 2 <= month <= 4)
    ||| (year == 2001 && 3 <= month <= 11)
    ||| (year == 1990 && 7 <= month <= 12)
    ||| (year == 1991 && 1 <= month <= 3)
    ||| (year == 1980 && 1 <= month <= 7)
    ||| (year == 1981 && 7 <= month <= 12)
    ||| (year == 1982 && 1 <= month <= 11)
    ||| (year == 1973 && 11 <= month <= 12)
    ||| (year == 1974 && 1 <= month <= 12)
    ||| (year == 1975 && 1 <= month <= 3)
    ||| (year == 1969 && month == 12)
    ||| (year == 1970 && 1 <= month <= 11)
}

/// Whether a (year, month) pair falls in a recognized contraction period.
pub fn is_recession_period(year: i32, month: u32) -> (r: bool)
    ensures
        r == is_recession_period_v(year as int, month as int),
{
    (year == 2008 && 1 <= month && month <= 12) || (year == 2009 && 1 <= month && month <= 6) || (
    year == 2020 && 2 <= month && month <= 4) || (year == 2001 && 3 <= month && month <= 11) || (
    year == 1990 && 7 <= month && month <= 12) || (year == 1991 && 1 <= month && month <= 3) || (
    year == 1980 && 1 <= month && month <= 7) || (year == 1981 && 7 <= month && month <= 12) || (
    year == 1982 && 1 <= month && month <= 11) || (year == 1973 && 11 <= month && month <= 12) || (
    year == 1974 && 1 <= month && month <= 12) || (year == 1975 && 1 <= month && month <= 3) || (
    year == 1969 && month == 12) || (year == 1970 && 1 <= month && month <= 11)
}


} // verus!
