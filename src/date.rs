//! Calendar dates of the proleptic Gregorian calendar, and the day count that
//! stay lengths are measured with.
use chrono::Datelike;
use vstd::prelude::*;

verus! {

/// Earliest year that a parsed date can carry.
pub const MIN_YEAR: i32 = -262143;

/// Latest year that a parsed date can carry.
pub const MAX_YEAR: i32 = 262142;

/// A calendar date held as plain values.
#[derive(Clone, Copy, Debug, PartialEq, Eq)]
pub struct Date {
    pub year: i32,
    pub month: u32,
    pub day: u32,
}

/// A point in time to the second, as the store records a booking's creation.
#[derive(Clone, Copy, Debug, PartialEq, Eq)]
pub struct Timestamp {
    pub date: Date,
    pub hour: u32,
    pub minute: u32,
    pub second: u32,
}

pub open spec fn is_leap_year(y: int) -> bool {
    (y % 4 == 0 && y % 100 != 0) || y % 400 == 0
}

pub open spec fn days_in_month(y: int, m: int) -> int {
    if m == 2 {
        if is_leap_year(y) {
            29
        } else {
            28
        }
    } else if m == 4 || m == 6 || m == 9 || m == 11 {
        30
    } else {
        31
    }
}

/// Days in the months of year `y` that come before month `m`.
pub open spec fn days_before_month(y: int, m: int) -> int
    decreases m,
{
    if m <= 1 {
        0
    } else {
        days_before_month(y, m - 1) + days_in_month(y, m - 1)
    }
}

/// Days in the years before year `y` back to year 1 (negative for years
/// before 1).
pub open spec fn days_before_year(y: int) -> int {
    365 * (y - 1) + (y - 1) / 4 - (y - 1) / 100 + (y - 1) / 400
}

/// The day count of a date: 1 for 0001-01-01, one more for each day after.
pub open spec fn day_number(y: int, m: int, d: int) -> int {
    days_before_year(y) + days_before_month(y, m) + d
}

pub open spec fn is_valid_date(y: int, m: int, d: int) -> bool {
    &&& MIN_YEAR <= y <= MAX_YEAR
    &&& 1 <= m <= 12
    &&& 1 <= d <= days_in_month(y, m)
}

/// What chrono's `NaiveDate::parse_from_str` with the format `%Y-%m-%d` makes
/// of a text, as year, month and day.
pub uninterp spec fn parsed_ymd(s: Seq<char>) -> Option<(i32, u32, u32)>;

/// Relies on chrono's `NaiveDate::parse_from_str` with the format `%Y-%m-%d`:
/// the outcome depends on the text alone, and a parsed `NaiveDate` is a valid
/// date of chrono's year range.
#[verifier::external_body]
fn chrono_parse_ymd(s: &str) -> (r: Option<(i32, u32, u32)>)
    ensures
        r == parsed_ymd(s@),
        r matches Some(t) ==> is_valid_date(t.0 as int, t.1 as int, t.2 as int),
{
    match chrono::NaiveDate::parse_from_str(s, "%Y-%m-%d") {
        Ok(d) => Some((d.year(), d.month(), d.day())),
        Err(_) => None,
    }
}

impl Date {
    pub open spec fn wf(&self) -> bool {
        is_valid_date(self.year as int, self.month as int, self.day as int)
    }

    pub open spec fn spec_day_number(&self) -> int {
        day_number(self.year as int, self.month as int, self.day as int)
    }

    /// Reads a date written `YYYY-MM-DD`.
    pub fn parse(s: &str) -> (r: Option<Date>)
        ensures
            match parsed_ymd(s@) {
                Some(t) => r == Some(Date { year: t.0, month: t.1, day: t.2 }),
                None => r is None,
            },
            r matches Some(d) ==> d.wf(),
    {
        match chrono_parse_ymd(s) {
            Some(t) => Some(Date { year: t.0, month: t.1, day: t.2 }),
            None => None,
        }
    }

    /// The date's day count (see `day_number`).
    pub fn day_number(&self) -> (r: i64)
        requires
            self.wf(),
        ensures
            r == self.spec_day_number(),
    {
        let y: i64 = self.year as i64;
        // shift by whole 400-year cycles so that every quotient is of a
        // non-negative number
        let shifted: i64 = y - 1 + 400000;
        let q4: i64 = shifted / 4;
        let q100: i64 = shifted / 100;
        let q400: i64 = shifted / 400;
        assert(q4 == (y - 1) / 4 + 100000);
        assert(q100 == (y - 1) / 100 + 4000);
        assert(q400 == (y - 1) / 400 + 1000);
        let before_year: i64 = 365 * (y - 1) + (q4 - 100000) - (q100 - 4000) + (q400 - 1000);
        let leap: bool = (y % 4 == 0 && y % 100 != 0) || y % 400 == 0;
        let mut before_month: i64 = 0;
        let mut m: u32 = 1;
        while m < self.month
            invariant
                1 <= m <= self.month <= 12,
                leap == is_leap_year(y as int),
                y == self.year,
                before_month == days_before_month(y as int, m as int),
                0 <= before_month <= 31 * (m - 1),
            decreases self.month - m,
        {
            let len: i64 = if m == 2 {
                if leap {
                    29
                } else {
                    28
                }
            } else if m == 4 || m == 6 || m == 9 || m == 11 {
                30
            } else {
                31
            };
            before_month = before_month + len;
            m = m + 1;
        }
        before_year + before_month + self.day as i64
    }
}

/// Whole days from `from` to `to`; negative where `to` comes first.
pub fn days_between(from: &Date, to: &Date) -> (r: i64)
    requires
        from.wf(),
        to.wf(),
    ensures
        r == to.spec_day_number() - from.spec_day_number(),
{
    let a: i64 = from.day_number();
    let b: i64 = to.day_number();
    proof {
        lemma_day_number_bounds(from);
        lemma_day_number_bounds(to);
    }
    b - a
}

proof fn lemma_days_before_month_bounds(y: int, m: int)
    requires
        1 <= m <= 12,
    ensures
        0 <= days_before_month(y, m) <= 31 * (m - 1),
    decreases m,
{
    if m > 1 {
        lemma_days_before_month_bounds(y, m - 1);
    }
}

proof fn lemma_day_number_bounds(d: &Date)
    requires
        d.wf(),
    ensures
        -100_000_000 <= d.spec_day_number() <= 100_000_000,
{
    lemma_days_before_month_bounds(d.year as int, d.month as int);
}

} // verus!
