//! Benchmark validation of a computed result series against known
//! historical episodes, and the table of recognized contraction periods.
//! Each check applies only where its window has data; a check with no
//! applicable data is omitted rather than failed.

use vstd::prelude::*;
use vstd::string::StringExecFns;
use crate::fixed::{Fx, SCALE, tdiv};
use crate::niv::{NIVResult, NIVEngine};
use crate::text::{fx_to_string2, fx_to_percent_string1, spec_fx2_digits, spec_percent1_digits};

verus! {

/// One named pass/fail check of the validation battery.
#[derive(Clone, Debug)]
pub struct ValidationCheck {
    pub name: String,
    pub expected: String,
    pub actual: String,
    pub passed: bool,
}

/// The validation outcome: overall pass and the applicable checks.
#[derive(Clone, Debug)]
pub struct ValidationResult {
    pub passed: bool,
    pub checks: Vec<ValidationCheck>,
}

/// Months of the stimulus-response window: spring of the pandemic year.
pub open spec fn in_covid_window(r: NIVResult) -> bool {
    r.date.year == 2020 && 3 <= r.date.month <= 6
}

/// Months of the downturn-detection window: the financial-crisis year.
pub open spec fn in_gfc_window(r: NIVResult) -> bool {
    r.date.year == 2008
}

/// Months of the stability window: the two calm years before the pandemic.
pub open spec fn in_stable_window(r: NIVResult) -> bool {
    r.date.year == 2017 || r.date.year == 2018
}

/// Sentinel below every representable score or probability.
pub open spec fn fold_min() -> int {
    i64::MIN - 1
}

/// Largest score among the first `n` results that lie in the
/// stimulus-response window, starting from the sentinel.
pub open spec fn covid_max_v(rs: Seq<NIVResult>, n: nat) -> int
    decreases n,
{
    if n == 0 {
        fold_min()
    } else {
        let p = covid_max_v(rs, (n - 1) as nat);
        if in_covid_window(rs[n - 1]) && rs[n - 1].niv_score.m() > p {
            rs[n - 1].niv_score.m()
        } else {
            p
        }
    }
}

/// Largest probability among the first `n` results that lie in the
/// downturn-detection window, starting from the sentinel.
pub open spec fn gfc_max_v(rs: Seq<NIVResult>, n: nat) -> int
    decreases n,
{
    if n == 0 {
        fold_min()
    } else {
        let p = gfc_max_v(rs, (n - 1) as nat);
        if in_gfc_window(rs[n - 1]) && rs[n - 1].recession_probability.m() > p {
            rs[n - 1].recession_probability.m()
        } else {
            p
        }
    }
}

/// Number of the first `n` results that lie in the stability window.
pub open spec fn stable_count_v(rs: Seq<NIVResult>, n: nat) -> int
    decreases n,
{
    if n == 0 {
        0
    } else {
        stable_count_v(rs, (n - 1) as nat) + if in_stable_window(rs[n - 1]) {
            1int
        } else {
            0int
        }
    }
}

/// Probability total over the first `n` results in the stability window.
pub open spec fn stable_sum_v(rs: Seq<NIVResult>, n: nat) -> int
    decreases n,
{
    if n == 0 {
        0
    } else {
        stable_sum_v(rs, (n - 1) as nat) + if in_stable_window(rs[n - 1]) {
            rs[n - 1].recession_probability.m()
        } else {
            0int
        }
    }
}

/// The stimulus-response check applies: some month lies in its window.
pub open spec fn has_covid(rs: Seq<NIVResult>) -> bool {
    exists|j: int| 0 <= j < rs.len() && in_covid_window(#[trigger] rs[j])
}

/// The downturn-detection check applies: some month lies in its window.
pub open spec fn has_gfc(rs: Seq<NIVResult>) -> bool {
    exists|j: int| 0 <= j < rs.len() && in_gfc_window(#[trigger] rs[j])
}

/// The stimulus-response fold leaves its sentinel exactly when some month
/// of the first `n` lies in the window.
pub proof fn lemma_covid_presence(rs: Seq<NIVResult>, n: nat)
    requires
        n <= rs.len(),
    ensures
        (covid_max_v(rs, n) != fold_min()) == (exists|j: int|
            0 <= j < n && in_covid_window(#[trigger] rs[j])),
    decreases n,
{
    if n == 0 {
    } else {
        lemma_covid_presence(rs, (n - 1) as nat);
        let p = covid_max_v(rs, (n - 1) as nat);
        if in_covid_window(rs[n - 1]) {
            assert(rs[n - 1].niv_score.m() > fold_min());
            assert(covid_max_v(rs, n) != fold_min());
        } else {
            assert(covid_max_v(rs, n) == p);
            if exists|j: int| 0 <= j < n && in_covid_window(#[trigger] rs[j]) {
                let j = choose|j: int| 0 <= j < n && in_covid_window(#[trigger] rs[j]);
                assert(j < n - 1 || j == n - 1);
                assert(in_covid_window(rs[j]));
                assert(0 <= j < n - 1);
            }
        }
    }
}

/// The downturn-detection fold leaves its sentinel exactly when some month
/// of the first `n` lies in the window.
pub proof fn lemma_gfc_presence(rs: Seq<NIVResult>, n: nat)
    requires
        n <= rs.len(),
    ensures
        (gfc_max_v(rs, n) != fold_min()) == (exists|j: int|
            0 <= j < n && in_gfc_window(#[trigger] rs[j])),
    decreases n,
{
    if n == 0 {
    } else {
        lemma_gfc_presence(rs, (n - 1) as nat);
        let p = gfc_max_v(rs, (n - 1) as nat);
        if in_gfc_window(rs[n - 1]) {
            assert(rs[n - 1].recession_probability.m() > fold_min());
            assert(gfc_max_v(rs, n) != fold_min());
        } else {
            assert(gfc_max_v(rs, n) == p);
            if exists|j: int| 0 <= j < n && in_gfc_window(#[trigger] rs[j]) {
                let j = choose|j: int| 0 <= j < n && in_gfc_window(#[trigger] rs[j]);
                assert(j < n - 1 || j == n - 1);
                assert(in_gfc_window(rs[j]));
                assert(0 <= j < n - 1);
            }
        }
    }
}

/// The stability check applies: some month lies in its window.
pub open spec fn has_stable(rs: Seq<NIVResult>) -> bool {
    stable_count_v(rs, rs.len()) > 0
}

/// The stimulus-response criterion: the window's largest score exceeds
/// twenty.
pub open spec fn covid_ok(rs: Seq<NIVResult>) -> bool {
    covid_max_v(rs, rs.len()) > 20 * SCALE
}

/// The downturn-detection criterion: the window's largest probability
/// exceeds one half.
pub open spec fn gfc_ok(rs: Seq<NIVResult>) -> bool {
    gfc_max_v(rs, rs.len()) > 500_000
}

/// The stability criterion: the window's mean probability stays below
/// thirty percent.
pub open spec fn stable_ok(rs: Seq<NIVResult>) -> bool {
    tdiv(stable_sum_v(rs, rs.len()), stable_count_v(rs, rs.len())) < 300_000
}

/// Overall outcome: every applicable check meets its criterion.
pub open spec fn validation_passed(rs: Seq<NIVResult>) -> bool {
    &&& has_covid(rs) ==> covid_ok(rs)
    &&& has_gfc(rs) ==> gfc_ok(rs)
    &&& has_stable(rs) ==> stable_ok(rs)
}

/// Number of applicable checks.
pub open spec fn checks_len(rs: Seq<NIVResult>) -> int {
    (if has_covid(rs) {
        1int
    } else {
        0int
    }) + (if has_gfc(rs) {
        1int
    } else {
        0int
    }) + (if has_stable(rs) {
        1int
    } else {
        0int
    })
}

impl NIVEngine {
    /// Run the fixed battery of historical checks over a computed series.
    /// A check whose window has no data is omitted, not failed; the overall
    /// outcome is the conjunction of the applicable checks.
    pub fn validate_against_benchmarks(&self, results: &Vec<NIVResult>) -> (r: ValidationResult)
        ensures
            r.passed == validation_passed(results@),
            r.checks@.len() == checks_len(results@),
            has_covid(results@) ==> {
                &&& r.checks@[0].passed == covid_ok(results@)
                &&& r.checks@[0].name@ == "2020 COVID Response"@
                &&& r.checks@[0].expected@ == "NIV > 20 (M2 explosion)"@
                &&& r.checks@[0].actual@ == "Max NIV = "@ + spec_fx2_digits(
                    covid_max_v(results@, results@.len()),
                )
            },
            has_gfc(results@) ==> {
                let i0 = if has_covid(results@) {
                    1int
                } else {
                    0int
                };
                &&& r.checks@[i0].passed == gfc_ok(results@)
                &&& r.checks@[i0].name@ == "2008 GFC Detection"@
                &&& r.checks@[i0].expected@ == "Recession probability > 50%"@
                &&& r.checks@[i0].actual@ == "Max probability = "@ + spec_percent1_digits(
                    gfc_max_v(results@, results@.len()),
                ) + "%"@
            },
            has_stable(results@) ==> {
                let i1 = (if has_covid(results@) {
                    1int
                } else {
                    0int
                }) + (if has_gfc(results@) {
                    1int
                } else {
                    0int
                });
                &&& r.checks@[i1].passed == stable_ok(results@)
                &&& r.checks@[i1].name@ == "2017-2018 Stability"@
                &&& r.checks@[i1].expected@ == "Average recession probability < 30%"@
                &&& r.checks@[i1].actual@ == "Average probability = "@ + spec_percent1_digits(
                    tdiv(stable_sum_v(results@, results@.len()), stable_count_v(results@, results@.len())),
                ) + "%"@
            },
    {
        let n = results.len();
        let mut covid_found: bool = false;
        let mut covid_max: i64 = 0;
        let mut gfc_found: bool = false;
        let mut gfc_max: i64 = 0;
        let mut st_count: usize = 0;
        let mut st_sum: i128 = 0;
        let mut i: usize = 0;
        while i < n
            invariant
                i <= n,
                n == results@.len(),
                covid_max_v(results@, i as nat) == if covid_found {
                    covid_max as int
                } else {
                    fold_min()
                },
                gfc_max_v(results@, i as nat) == if gfc_found {
                    gfc_max as int
                } else {
                    fold_min()
                },
                st_count == stable_count_v(results@, i as nat),
                st_count <= i,
                st_sum == stable_sum_v(results@, i as nat),
                -((st_count as i128) * 0x8000_0000_0000_0000i128) <= st_sum <= (st_count as i128)
                    * 0x7FFF_FFFF_FFFF_FFFFi128,
            decreases n - i,
        {
            let rcur = results[i];
            let in_covid = rcur.date.year == 2020 && 3 <= rcur.date.month && rcur.date.month <= 6;
            let in_gfc = rcur.date.year == 2008;
            let in_stable = rcur.date.year == 2017 || rcur.date.year == 2018;
            if in_covid {
                if !covid_found || rcur.niv_score.v > covid_max {
                    covid_max = rcur.niv_score.v;
                }
                covid_found = true;
            }
            if in_gfc {
                if !gfc_found || rcur.recession_probability.v > gfc_max {
                    gfc_max = rcur.recession_probability.v;
                }
                gfc_found = true;
            }
            if in_stable {
                st_count = st_count + 1;
                st_sum = st_sum + (rcur.recession_probability.v as i128);
            }
            i = i + 1;
        }
        proof {
            lemma_covid_presence(results@, n as nat);
            lemma_gfc_presence(results@, n as nat);
        }
        let mut passed: bool = true;
        let mut checks: Vec<ValidationCheck> = Vec::new();
        if covid_found {
            let ok = covid_max > 20_000_000;
            let mut actual = String::from_str("Max NIV = ");
            let num = fx_to_string2(Fx { v: covid_max });
            actual.append(num.as_str());
            let check = ValidationCheck {
                name: String::from_str("2020 COVID Response"),
                expected: String::from_str("NIV > 20 (M2 explosion)"),
                actual,
                passed: ok,
            };
            if !check.passed {
                passed = false;
            }
            checks.push(check);
        }
        if gfc_found {
            let ok = gfc_max > 500_000;
            let mut actual = String::from_str("Max probability = ");
            let num = fx_to_percent_string1(Fx { v: gfc_max });
            actual.append(num.as_str());
            actual.append("%");
            let check = ValidationCheck {
                name: String::from_str("2008 GFC Detection"),
                expected: String::from_str("Recession probability > 50%"),
                actual,
                passed: ok,
            };
            if !check.passed {
                passed = false;
            }
            checks.push(check);
        }
        if st_count > 0 {
            proof {
                assert(-0x8000_0000_0000_0000 <= tdiv(st_sum as int, st_count as int)
                    <= 0x7FFF_FFFF_FFFF_FFFF) by (nonlinear_arith)
                    requires
                        1 <= (st_count as int),
                        -((st_count as int) * 0x8000_0000_0000_0000) <= (st_sum as int) <= (
                        st_count as int) * 0x7FFF_FFFF_FFFF_FFFF,
                ;
            }
            let avg: i64 = ((st_sum / (st_count as i128))) as i64;
            let ok = avg < 300_000;
            let mut actual = String::from_str("Average probability = ");
            let num = fx_to_percent_string1(Fx { v: avg });
            actual.append(num.as_str());
            actual.append("%");
            let check = ValidationCheck {
                name: String::from_str("2017-2018 Stability"),
                expected: String::from_str("Average recession probability < 30%"),
                actual,
                passed: ok,
            };
            if !check.passed {
                passed = false;
            }
            checks.push(check);
        }
        ValidationResult { passed, checks }
    }
}

} // verus!
