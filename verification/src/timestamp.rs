//! Calendar date and time-of-day of a log event, and its rendering as
//! `YYYY/M/D HH:MM:SS`: month and day without a leading zero, the
//! time-of-day fields zero-padded to two digits.

use vstd::prelude::*;
use vstd::string::StringExecFns;

verus! {

/// A wall-clock instant broken into plain calendar fields.
#[derive(Clone, Copy, PartialEq, Eq, Structural)]
pub struct DateParts {
    pub year: i32,
    pub month: u32,
    pub day: u32,
    pub hour: u32,
    pub minute: u32,
    pub second: u32,
}

impl DateParts {
    /// The fields describe a plausible calendar instant.
    pub open spec fn wf(self) -> bool {
        &&& 1 <= self.month <= 12
        &&& 1 <= self.day <= 31
        &&& self.hour <= 23
        &&& self.minute <= 59
        &&& self.second <= 59
    }
}

/// The character of a single decimal digit.
pub open spec fn digit_char(d: nat) -> char {
    if d == 0 {
        '0'
    } else if d == 1 {
        '1'
    } else if d == 2 {
        '2'
    } else if d == 3 {
        '3'
    } else if d == 4 {
        '4'
    } else if d == 5 {
        '5'
    } else if d == 6 {
        '6'
    } else if d == 7 {
        '7'
    } else if d == 8 {
        '8'
    } else {
        '9'
    }
}

/// The decimal digits of `n`, most significant first, with no leading zero.
pub open spec fn spec_decimal(n: nat) -> Seq<char>
    decreases n,
{
    if n < 10 {
        seq![digit_char(n)]
    } else {
        spec_decimal(n / 10) + seq![digit_char(n % 10)]
    }
}

/// The decimal digits of `n`, zero-padded on the left to two places.
pub open spec fn spec_padded2(n: nat) -> Seq<char> {
    if n < 10 {
        seq!['0'] + spec_decimal(n)
    } else {
        spec_decimal(n)
    }
}

/// The decimal digits of `n`, zero-padded on the left to four places.
pub open spec fn spec_padded4(n: nat) -> Seq<char> {
    if n < 10 {
        seq!['0', '0', '0'] + spec_decimal(n)
    } else if n < 100 {
        seq!['0', '0'] + spec_decimal(n)
    } else if n < 1000 {
        seq!['0'] + spec_decimal(n)
    } else {
        spec_decimal(n)
    }
}

/// A year, four digits with a sign prefix when negative.
pub open spec fn spec_year(y: int) -> Seq<char> {
    if y < 0 {
        seq!['-'] + spec_padded4((-y) as nat)
    } else {
        spec_padded4(y as nat)
    }
}

/// The full `YYYY/M/D HH:MM:SS` rendering of an instant.
pub open spec fn spec_timestamp(p: DateParts) -> Seq<char> {
    spec_year(p.year as int) + "/"@ + spec_decimal(p.month as nat) + "/"@ + spec_decimal(
        p.day as nat,
    ) + " "@ + spec_padded2(p.hour as nat) + ":"@ + spec_padded2(p.minute as nat) + ":"@
        + spec_padded2(p.second as nat)
}

/// A one-character string slice for the digit `d`.
fn digit_str(d: u64) -> (r: &'static str)
    requires
        d < 10,
    ensures
        r@ == seq![digit_char(d as nat)],
{
    let r: &'static str = if d == 0 {
        "0"
    } else if d == 1 {
        "1"
    } else if d == 2 {
        "2"
    } else if d == 3 {
        "3"
    } else if d == 4 {
        "4"
    } else if d == 5 {
        "5"
    } else if d == 6 {
        "6"
    } else if d == 7 {
        "7"
    } else if d == 8 {
        "8"
    } else {
        "9"
    };
    proof {
        reveal_strlit("0");
        reveal_strlit("1");
        reveal_strlit("2");
        reveal_strlit("3");
        reveal_strlit("4");
        reveal_strlit("5");
        reveal_strlit("6");
        reveal_strlit("7");
        reveal_strlit("8");
        reveal_strlit("9");
    }
    assert(r@ =~= seq![digit_char(d as nat)]);
    r
}

/// The decimal rendering of `n`, with no leading zero.
fn decimal_string(n: u64) -> (r: String)
    ensures
        r@ == spec_decimal(n as nat),
    decreases n,
{
    if n < 10 {
        String::from_str(digit_str(n))
    } else {
        let mut r = decimal_string(n / 10);
        r.append(digit_str(n % 10));
        r
    }
}

/// The decimal rendering of `n`, zero-padded to two places.
fn padded2_string(n: u64) -> (r: String)
    ensures
        r@ == spec_padded2(n as nat),
{
    if n < 10 {
        let mut r = String::from_str("0");
        proof {
            reveal_strlit("0");
        }
        r.append(digit_str(n));
        assert(r@ =~= spec_padded2(n as nat));
        r
    } else {
        decimal_string(n)
    }
}

/// The decimal rendering of `n`, zero-padded to four places.
fn padded4_string(n: u64) -> (r: String)
    ensures
        r@ == spec_padded4(n as nat),
{
    let prefix: &'static str = if n < 10 {
        "000"
    } else if n < 100 {
        "00"
    } else if n < 1000 {
        "0"
    } else {
        ""
    };
    proof {
        reveal_strlit("000");
        reveal_strlit("00");
        reveal_strlit("0");
        reveal_strlit("");
    }
    let mut r = String::from_str(prefix);
    r.append(decimal_string(n).as_str());
    assert(r@ =~= spec_padded4(n as nat));
    r
}

/// The year rendering: four digits, a `-` prefix when negative.
fn year_string(y: i32) -> (r: String)
    ensures
        r@ == spec_year(y as int),
{
    if y >= 0 {
        let r = padded4_string(y as u64);
        assert(r@ =~= spec_year(y as int));
        r
    } else {
        let magnitude: u64 = (-(y as i64)) as u64;
        assert(magnitude == -(y as int));
        let mut r = String::from_str("-");
        proof {
            reveal_strlit("-");
        }
        r.append(padded4_string(magnitude).as_str());
        assert(r@ =~= spec_year(y as int));
        r
    }
}

impl DateParts {
    /// Renders this instant as `YYYY/M/D HH:MM:SS`.
    pub fn render(&self) -> (r: String)
        ensures
            r@ == spec_timestamp(*self),
    {
        let mut r = year_string(self.year);
        r.append("/");
        r.append(decimal_string(self.month as u64).as_str());
        r.append("/");
        r.append(decimal_string(self.day as u64).as_str());
        r.append(" ");
        r.append(padded2_string(self.hour as u64).as_str());
        r.append(":");
        r.append(padded2_string(self.minute as u64).as_str());
        r.append(":");
        r.append(padded2_string(self.second as u64).as_str());
        assert(r@ =~= spec_timestamp(*self));
        r
    }
}

} // verus!
