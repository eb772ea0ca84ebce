//! Verified decimal rendering of integers and fixed-point values, used for
//! the human-readable parts of validation reports.

use vstd::prelude::*;
use vstd::string::StringExecFns;
use crate::fixed::{Fx, SCALE};

verus! {

/// The character of one decimal digit.
pub open spec fn digit_char(d: int) -> char {
    if d == 0 {
        '0'
    } else if d == 1 {
        '1'
    } else if d == 2 {
        '2'
    } else if d == 3 {
        '3'
    } else if d == 4 {
        '4'
    } else if d == 5 {
        '5'
    } else if d == 6 {
        '6'
    } else if d == 7 {
        '7'
    } else if d == 8 {
        '8'
    } else {
        '9'
    }
}

/// Decimal digits of a nonnegative number, most significant first.
pub open spec fn spec_digits(n: nat) -> Seq<char>
    decreases n,
{
    if n < 10 {
        seq![digit_char(n as int)]
    } else {
        spec_digits(n / 10).push(digit_char((n % 10) as int))
    }
}

fn digit_str(d: u64) -> (r: &'static str)
    requires
        d < 10,
    ensures
        r@ =~= seq![digit_char(d as int)],
{
    proof {
        reveal_strlit("0");
        reveal_strlit("1");
        reveal_strlit("2");
        reveal_strlit("3");
        reveal_strlit("4");
        reveal_strlit("5");
        reveal_strlit("6");
        reveal_strlit("7");
        reveal_strlit("8");
        reveal_strlit("9");
    }
    if d == 0 {
        "0"
    } else if d == 1 {
        "1"
    } else if d == 2 {
        "2"
    } else if d == 3 {
        "3"
    } else if d == 4 {
        "4"
    } else if d == 5 {
        "5"
    } else if d == 6 {
        "6"
    } else if d == 7 {
        "7"
    } else if d == 8 {
        "8"
    } else {
        "9"
    }
}

/// Render a nonnegative number in decimal.
pub fn u64_to_string(n: u64) -> (s: String)
    ensures
        s@ == spec_digits(n as nat),
    decreases n,
{
    if n < 10 {
        String::from_str(digit_str(n))
    } else {
        let mut s = u64_to_string(n / 10);
        s.append(digit_str(n % 10));
        proof {
            assert(s@ =~= spec_digits((n / 10) as nat).push(digit_char((n % 10) as int)));
        }
        s
    }
}

/// Decimal rendering of a signed number: a minus sign for negatives, then
/// the digits of the magnitude.
pub open spec fn spec_i64_digits(n: int) -> Seq<char> {
    if n < 0 {
        seq!['-'] + spec_digits((-n) as nat)
    } else {
        spec_digits(n as nat)
    }
}

/// Render a signed number in decimal.
pub fn i64_to_string(n: i64) -> (s: String)
    ensures
        s@ == spec_i64_digits(n as int),
{
    if n < 0 {
        proof {
            reveal_strlit("-");
        }
        let mut s = String::from_str("-");
        let mag: u64 = (-(n as i128)) as u64;
        let t = u64_to_string(mag);
        s.append(t.as_str());
        proof {
            assert(s@ =~= seq!['-'] + spec_digits((-(n as int)) as nat));
        }
        s
    } else {
        u64_to_string(n as u64)
    }
}

/// Fixed-point value rendered with two decimal places, truncated toward
/// zero: sign, whole part, a point, then hundredths.
pub open spec fn spec_fx2_digits(v: int) -> Seq<char> {
    let mag = if v < 0 {
        -v
    } else {
        v
    };
    let sign: Seq<char> = if v < 0 {
        seq!['-']
    } else {
        Seq::empty()
    };
    sign + spec_digits((mag / (SCALE as int)) as nat) + seq!['.'] + seq![
        digit_char(mag % (SCALE as int) / 100_000),
        digit_char(mag % 100_000 / 10_000),
    ]
}

/// Render a fixed-point value with two decimal places.
pub fn fx_to_string2(x: Fx) -> (s: String)
    ensures
        s@ == spec_fx2_digits(x.m()),
{
    proof {
        reveal_strlit("-");
        reveal_strlit(".");
    }
    let mag: u64 = if x.v < 0 {
        (-(x.v as i128)) as u64
    } else {
        x.v as u64
    };
    let mut s = if x.v < 0 {
        String::from_str("-")
    } else {
        String::new()
    };
    let whole = u64_to_string(mag / 1_000_000);
    s.append(whole.as_str());
    s.append(".");
    s.append(digit_str(mag % 1_000_000 / 100_000));
    s.append(digit_str(mag % 100_000 / 10_000));
    proof {
        assert(s@ =~= spec_fx2_digits(x.m()));
    }
    s
}

/// A probability rendered as a percentage with one decimal place, truncated:
/// the per-ten-thousand digitry of the fixed-point value.
pub open spec fn spec_percent1_digits(v: int) -> Seq<char> {
    let mag = if v < 0 {
        -v
    } else {
        v
    };
    let sign: Seq<char> = if v < 0 {
        seq!['-']
    } else {
        Seq::empty()
    };
    sign + spec_digits((mag / 10_000) as nat) + seq!['.'] + seq![digit_char(mag % 10_000 / 1_000)]
}

/// Render a probability (in millionths) as a percentage with one decimal.
pub fn fx_to_percent_string1(x: Fx) -> (s: String)
    ensures
        s@ == spec_percent1_digits(x.m()),
{
    proof {
        reveal_strlit("-");
        reveal_strlit(".");
    }
    let mag: u64 = if x.v < 0 {
        (-(x.v as i128)) as u64
    } else {
        x.v as u64
    };
    let mut s = if x.v < 0 {
        String::from_str("-")
    } else {
        String::new()
    };
    let whole = u64_to_string(mag / 10_000);
    s.append(whole.as_str());
    s.append(".");
    s.append(digit_str(mag % 10_000 / 1_000));
    proof {
        assert(s@ =~= spec_percent1_digits(x.m()));
    }
    s
}

} // verus!
