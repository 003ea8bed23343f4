//! Calendar dates for the date-of-birth field.
//!
//! A [`Date`] is a day of the proleptic Gregorian calendar with a four-digit
//! year (0001 through 9999), the range the `YYYY-MM-DD` form of a birth date
//! can express. Dates are compared through their day index: the number of
//! days since the calendar's first day, 0001-01-01.

use vstd::prelude::*;
use vstd::string::StrSliceExecFns;
use vstd::string::StringExecFns;
use chrono::Datelike;

verus! {

/// A day of the proleptic Gregorian calendar, year 0001 through 9999.
///
/// The fields are plain values; [`Date::valid`] says when they name an actual
/// calendar day, and every function taking a `Date` requires it. [`Date::new`]
/// and [`parse_iso_date`] only ever hand out valid dates.
#[derive(Clone, Copy, Debug, PartialEq, Eq, Structural)]
pub struct Date {
    pub year: u32,
    pub month: u32,
    pub day: u32,
}

/// A leap year has 366 days: divisible by 4, except centuries not divisible
/// by 400.
pub open spec fn is_leap_year(y: int) -> bool {
    y % 4 == 0 && (y % 100 != 0 || y % 400 == 0)
}

/// Number of days in month `m` (1-based) of year `y`.
pub open spec fn days_in_month(y: int, m: int) -> int {
    if m == 2 {
        if is_leap_year(y) {
            29
        } else {
            28
        }
    } else if m == 4 || m == 6 || m == 9 || m == 11 {
        30
    } else {
        31
    }
}

/// The triple `(y, m, d)` names an actual calendar day with a four-digit year.
pub open spec fn valid_ymd(y: int, m: int, d: int) -> bool {
    &&& 1 <= y <= 9999
    &&& 1 <= m <= 12
    &&& 1 <= d <= days_in_month(y, m)
}

impl Date {
    /// The stored fields name an actual calendar day.
    pub open spec fn valid(self) -> bool {
        valid_ymd(self.year as int, self.month as int, self.day as int)
    }

    /// Builds a date after checking that the fields name an actual calendar
    /// day; rejects anything else.
    pub fn new(year: u32, month: u32, day: u32) -> (r: Option<Date>)
        ensures
            r is Some <==> valid_ymd(year as int, month as int, day as int),
            r is Some ==> r->0 == (Date { year, month, day }),
    {
        if 1 <= year && year <= 9999 && 1 <= month && month <= 12 && 1 <= day
            && day <= days_in_month_exec(year, month) {
            Some(Date { year, month, day })
        } else {
            None
        }
    }

}

/// Days from 0001-01-01 up to (not including) January 1st of year `y`:
/// 365 per elapsed year, plus one per elapsed leap year.
pub open spec fn days_before_year(y: int) -> int {
    365 * (y - 1) + (y - 1) / 4 - (y - 1) / 100 + (y - 1) / 400
}

/// Days from January 1st of year `y` up to the first day of month `m`.
pub open spec fn days_before_month(y: int, m: int) -> int
    decreases m,
{
    if m <= 1 {
        0
    } else {
        days_before_month(y, m - 1) + days_in_month(y, m - 1)
    }
}

/// The day index of `(y, m, d)`: days since 0001-01-01.
pub open spec fn day_index_of(y: int, m: int, d: int) -> int {
    days_before_year(y) + days_before_month(y, m) + (d - 1)
}

impl Date {
    /// Days since 0001-01-01.
    pub open spec fn day_index_spec(self) -> int {
        day_index_of(self.year as int, self.month as int, self.day as int)
    }

    /// Computes the day index. Stays below 3 653 000 for every valid date.
    pub fn day_index(&self) -> (r: u64)
        requires
            self.valid(),
        ensures
            r == self.day_index_spec(),
            r < 3653000,
    {
        let y = self.year as u64;
        let before_year = 365 * (y - 1) + (y - 1) / 4 - (y - 1) / 100 + (y - 1) / 400;
        let mut before_month: u64 = 0;
        let mut m: u32 = 1;
        while m < self.month
            invariant
                1 <= m <= self.month,
                self.valid(),
                before_month == days_before_month(self.year as int, m as int),
                before_month <= 31 * (m as u64 - 1),
            decreases self.month - m,
        {
            before_month = before_month + days_in_month_exec(self.year, m) as u64;
            m = m + 1;
        }
        proof {
            lemma_days_before_month_bounds(self.year as int, self.month as int);
            lemma_days_before_year_bounds(self.year as int);
        }
        before_year + before_month + (self.day as u64 - 1)
    }
}

proof fn lemma_days_before_month_bounds(y: int, m: int)
    requires
        1 <= m <= 12,
    ensures
        0 <= days_before_month(y, m) <= 31 * (m - 1),
    decreases m,
{
    if m > 1 {
        lemma_days_before_month_bounds(y, m - 1);
    }
}

proof fn lemma_days_before_year_bounds(y: int)
    requires
        1 <= y <= 9999,
    ensures
        0 <= days_before_year(y) <= 3651695,
{
}

/// Executable twin of [`days_in_month`].
pub fn days_in_month_exec(y: u32, m: u32) -> (r: u32)
    ensures
        r == days_in_month(y as int, m as int),
{
    if m == 2 {
        if (y % 4 == 0 && y % 100 != 0) || y % 400 == 0 {
            29
        } else {
            28
        }
    } else if m == 4 || m == 6 || m == 9 || m == 11 {
        30
    } else {
        31
    }
}

/// A decimal digit `'0'` through `'9'`.
pub open spec fn iso_digit(c: char) -> bool {
    48 <= c as u32 <= 57
}

/// Numeric value of a decimal digit.
pub open spec fn digit_val(c: char) -> int {
    c as u32 - 48
}

/// The string has exactly the shape `YYYY-MM-DD`: four digits, a dash, two
/// digits, a dash, two digits.
pub open spec fn iso_shape(s: Seq<char>) -> bool {
    &&& s.len() == 10
    &&& iso_digit(s[0]) && iso_digit(s[1]) && iso_digit(s[2]) && iso_digit(s[3])
    &&& s[4] == '-'
    &&& iso_digit(s[5]) && iso_digit(s[6])
    &&& s[7] == '-'
    &&& iso_digit(s[8]) && iso_digit(s[9])
}

pub open spec fn iso_year(s: Seq<char>) -> int {
    1000 * digit_val(s[0]) + 100 * digit_val(s[1]) + 10 * digit_val(s[2]) + digit_val(s[3])
}

pub open spec fn iso_month(s: Seq<char>) -> int {
    10 * digit_val(s[5]) + digit_val(s[6])
}

pub open spec fn iso_day(s: Seq<char>) -> int {
    10 * digit_val(s[8]) + digit_val(s[9])
}

/// What parsing a birth-date string yields: a date exactly when the string
/// has the `YYYY-MM-DD` shape and its three numbers name an actual calendar
/// day (so `2001-02-31` and year `0000` are rejected).
pub open spec fn parse_iso_spec(s: Seq<char>) -> Option<Date> {
    if iso_shape(s) && valid_ymd(iso_year(s), iso_month(s), iso_day(s)) {
        Some(
            Date {
                year: iso_year(s) as u32,
                month: iso_month(s) as u32,
                day: iso_day(s) as u32,
            },
        )
    } else {
        None
    }
}

/// Reads the digit at position `i`, or `None` if another character stands
/// there.
fn digit_at(s: &str, i: usize) -> (r: Option<u32>)
    requires
        i < s@.len(),
    ensures
        r is Some <==> iso_digit(s@[i as int]),
        r is Some ==> r->0 == digit_val(s@[i as int]) && r->0 <= 9,
{
    let c = s.get_char(i) as u32;
    if 48 <= c && c <= 57 {
        Some(c - 48)
    } else {
        None
    }
}

/// Parses a `YYYY-MM-DD` string into a calendar date; see [`parse_iso_spec`].
pub fn parse_iso_date(s: &str) -> (r: Option<Date>)
    ensures
        r == parse_iso_spec(s@),
        r is Some ==> r->0.valid(),
{
    if s.unicode_len() != 10 {
        return None;
    }
    if s.get_char(4) != '-' || s.get_char(7) != '-' {
        return None;
    }
    let d0 = digit_at(s, 0);
    let d1 = digit_at(s, 1);
    let d2 = digit_at(s, 2);
    let d3 = digit_at(s, 3);
    let d5 = digit_at(s, 5);
    let d6 = digit_at(s, 6);
    let d8 = digit_at(s, 8);
    let d9 = digit_at(s, 9);
    match (d0, d1, d2, d3, d5, d6, d8, d9) {
        (
            Some(y0),
            Some(y1),
            Some(y2),
            Some(y3),
            Some(m0),
            Some(m1),
            Some(a0),
            Some(a1),
        ) => {
            let year = 1000 * y0 + 100 * y1 + 10 * y2 + y3;
            let month = 10 * m0 + m1;
            let day = 10 * a0 + a1;
            Date::new(year, month, day)
        },
        _ => None,
    }
}

/// The character of a single decimal digit.
pub open spec fn digit_char(d: int) -> char {
    if d == 0 {
        '0'
    } else if d == 1 {
        '1'
    } else if d == 2 {
        '2'
    } else if d == 3 {
        '3'
    } else if d == 4 {
        '4'
    } else if d == 5 {
        '5'
    } else if d == 6 {
        '6'
    } else if d == 7 {
        '7'
    } else if d == 8 {
        '8'
    } else {
        '9'
    }
}

/// Appends the character of one decimal digit (anything above nine prints
/// as a nine).
fn append_digit(out: &mut String, d: u32)
    ensures
        final(out)@ == old(out)@ + seq![digit_char(d as int)],
{
    proof {
        reveal_strlit("0");
        reveal_strlit("1");
        reveal_strlit("2");
        reveal_strlit("3");
        reveal_strlit("4");
        reveal_strlit("5");
        reveal_strlit("6");
        reveal_strlit("7");
        reveal_strlit("8");
        reveal_strlit("9");
    }
    match d {
        0 => out.append("0"),
        1 => out.append("1"),
        2 => out.append("2"),
        3 => out.append("3"),
        4 => out.append("4"),
        5 => out.append("5"),
        6 => out.append("6"),
        7 => out.append("7"),
        8 => out.append("8"),
        _ => out.append("9"),
    }
}

impl Date {
    /// The `YYYY-MM-DD` spelling of the date.
    pub open spec fn iso_seq(self) -> Seq<char> {
        seq![
            digit_char(self.year as int / 1000),
            digit_char(self.year as int / 100 % 10),
            digit_char(self.year as int / 10 % 10),
            digit_char(self.year as int % 10),
            '-',
            digit_char(self.month as int / 10),
            digit_char(self.month as int % 10),
            '-',
            digit_char(self.day as int / 10),
            digit_char(self.day as int % 10),
        ]
    }

    /// Renders the date as `YYYY-MM-DD`.
    pub fn iso_string(&self) -> (r: String)
        ensures
            r@ == self.iso_seq(),
    {
        let mut out = String::new();
        append_digit(&mut out, self.year / 1000);
        append_digit(&mut out, self.year / 100 % 10);
        append_digit(&mut out, self.year / 10 % 10);
        append_digit(&mut out, self.year % 10);
        proof {
            reveal_strlit("-");
        }
        out.append("-");
        append_digit(&mut out, self.month / 10);
        append_digit(&mut out, self.month % 10);
        out.append("-");
        append_digit(&mut out, self.day / 10);
        append_digit(&mut out, self.day % 10);
        proof {
            assert(out@ =~= self.iso_seq());
        }
        out
    }
}

/// Today's date, read from the system clock.
///
/// Relies on chrono: `Utc::now().date_naive()` is the current UTC day, and
/// the `Datelike` accessors document that `month()` is in `1..=12` and
/// `day()` is in `1..=31`. The value depends on the clock, so nothing more is
/// promised of it.
#[verifier::external_body]
fn clock_today_fields() -> (r: (i64, u32, u32))
    ensures
        1 <= r.1 <= 12,
        1 <= r.2 <= 31,
{
    let d = chrono::Utc::now().date_naive();
    (d.year() as i64, d.month(), d.day())
}

/// Today's date according to the system clock, if it falls within the
/// four-digit-year range this module models.
pub fn today() -> (r: Option<Date>)
    ensures
        r is Some ==> r->0.valid(),
{
    let (y, m, d) = clock_today_fields();
    if 1 <= y && y <= 9999 {
        Date::new(y as u32, m, d)
    } else {
        None
    }
}

} // verus!
