//! Calendar dates and accounting periods (a year and a month).

use vstd::prelude::*;
use chrono::NaiveDate;
use crate::text::{push_signed_padded, signed_padded};

verus! {

/// The earliest year `chrono::NaiveDate` represents.
pub const MIN_DATE_YEAR: i32 = -262143;

/// The latest year `chrono::NaiveDate` represents.
pub const MAX_DATE_YEAR: i32 = 262142;

/// Gregorian leap year rule.
pub open spec fn leap_year(year: int) -> bool {
    year % 4 == 0 && (year % 100 != 0 || year % 400 == 0)
}

/// Number of days of a month (1 to 12) of a year.
pub open spec fn days_in_month(year: int, month: int) -> int {
    if month == 1 || month == 3 || month == 5 || month == 7 || month == 8 || month == 10 || month == 12 {
        31
    } else if month == 4 || month == 6 || month == 9 || month == 11 {
        30
    } else if leap_year(year) {
        29
    } else {
        28
    }
}

/// A calendar date that `chrono::NaiveDate` can represent.
pub open spec fn valid_ymd(year: int, month: int, day: int) -> bool {
    &&& MIN_DATE_YEAR <= year <= MAX_DATE_YEAR
    &&& 1 <= month <= 12
    &&& 1 <= day <= days_in_month(year, month)
}

/// A calendar date.
#[derive(Clone, Copy, Debug, PartialEq, Eq)]
pub struct Date {
    pub year: i32,
    pub month: u32,
    pub day: u32,
}

impl Date {
    pub open spec fn valid(self) -> bool {
        valid_ymd(self.year as int, self.month as int, self.day as int)
    }

    /// The date of a year, month and day, if it exists (`NaiveDate::from_ymd_opt`).
    pub fn from_ymd_opt(year: i32, month: u32, day: u32) -> (d: Option<Date>)
        ensures
            d is Some <==> valid_ymd(year as int, month as int, day as int),
            d matches Some(x) ==> x.year == year && x.month == month && x.day == day,
    {
        if naive_date_exists(year, month, day) {
            Some(Date { year, month, day })
        } else {
            None
        }
    }
}

/// Calls `chrono::NaiveDate::from_ymd_opt` and tells whether it found a date.
/// Claimed, as chrono documents and its source shows (`from_mdf`, `Mdf::new`):
/// a date exists exactly for a year in -262143..=262142, a month in 1..=12
/// and a day within the Gregorian length of that month.
#[verifier::external_body]
fn naive_date_exists(year: i32, month: u32, day: u32) -> (b: bool)
    ensures
        b == valid_ymd(year as int, month as int, day as int),
{
    NaiveDate::from_ymd_opt(year, month, day).is_some()
}

/// An accounting period: a year and a month.
#[derive(Clone, Copy, Debug, PartialEq, Eq)]
pub struct Period(pub i32, pub i32);

/// The period after `(year, month)`.
pub open spec fn next_of(p: Period) -> Period {
    if p.1 == 12 { Period((p.0 + 1) as i32, 1) } else { Period(p.0, (p.1 + 1) as i32) }
}

/// The period before `(year, month)`.
pub open spec fn prev_of(p: Period) -> Period {
    if p.1 == 1 { Period((p.0 - 1) as i32, 12) } else { Period(p.0, (p.1 - 1) as i32) }
}

/// A period as text: `{year}.{month:02}`.
pub open spec fn period_text(p: Period) -> Seq<char> {
    signed_padded(p.0 as int, 0) + seq!['.'] + signed_padded(p.1 as int, 2)
}

/// The `yyyymm` key of a period.
pub open spec fn year_period_of(p: Period) -> int {
    p.0 * 100 + p.1
}

impl Period {
    /// The month lies in 1 to 12.
    pub open spec fn valid_month(self) -> bool {
        1 <= self.1 <= 12
    }

    /// A year whose every day `chrono` represents.
    pub open spec fn date_year(self) -> bool {
        MIN_DATE_YEAR <= self.0 <= MAX_DATE_YEAR
    }

    /// The `yyyymm` key is an `i32`.
    pub open spec fn key_fits(self) -> bool {
        &&& i32::MIN <= self.0 * 100 <= i32::MAX
        &&& i32::MIN <= year_period_of(self) <= i32::MAX
    }

    pub fn new(y: i32, m: i32) -> (p: Period)
        ensures
            p == Period(y, m),
    {
        Period(y, m)
    }

    /// The `yyyymm` key: `year * 100 + month`.
    pub fn year_period(&self) -> (r: i32)
        requires
            self.key_fits(),
        ensures
            r == year_period_of(*self),
    {
        self.0 * 100 + self.1
    }

    /// The following period: January of the next year after December.
    pub fn next_period(&self) -> (p: Period)
        requires
            self.1 == 12 ==> self.0 < i32::MAX,
            self.1 != 12 ==> self.1 < i32::MAX,
        ensures
            p == next_of(*self),
    {
        if self.1 == 12 {
            Period::new(self.0 + 1, 1)
        } else {
            Period::new(self.0, self.1 + 1)
        }
    }

    /// The preceding period: December of the previous year before January.
    pub fn prev_period(&self) -> (p: Period)
        requires
            self.1 == 1 ==> self.0 > i32::MIN,
            self.1 != 1 ==> self.1 > i32::MIN,
        ensures
            p == prev_of(*self),
    {
        if self.1 == 1 {
            Period::new(self.0 - 1, 12)
        } else {
            Period::new(self.0, self.1 - 1)
        }
    }

    /// Whether the period's year is a leap year.
    pub fn is_leap_year(&self) -> (b: bool)
        ensures
            b == leap_year(self.0 as int),
    {
        let year = self.0;
        year % 4 == 0 && (year % 100 != 0 || year % 400 == 0)
    }

    /// The number of days of the period's month.
    pub fn last_day(&self) -> (d: u32)
        requires
            self.valid_month(),
        ensures
            d == days_in_month(self.0 as int, self.1 as int),
            28 <= d <= 31,
    {
        let month = self.1;
        if month == 1 || month == 3 || month == 5 || month == 7 || month == 8 || month == 10 || month == 12 {
            31
        } else if month == 4 || month == 6 || month == 9 || month == 11 {
            30
        } else if self.is_leap_year() {
            29
        } else {
            28
        }
    }

    /// The first day of the period.
    pub fn first_date(&self) -> (d: Date)
        requires
            self.valid_month(),
            self.date_year(),
        ensures
            d == (Date { year: self.0, month: self.1 as u32, day: 1 }),
            d.valid(),
    {
        self.date(1)
    }

    /// The last day of the period.
    pub fn last_date(&self) -> (d: Date)
        requires
            self.valid_month(),
            self.date_year(),
        ensures
            d == (Date { year: self.0, month: self.1 as u32, day: days_in_month(self.0 as int, self.1 as int) as u32 }),
            d.valid(),
    {
        let last = self.last_day();
        self.date(last)
    }

    /// The given day of the period, clamped into the days of its month.
    pub fn date(&self, day: u32) -> (d: Date)
        requires
            self.valid_month(),
            self.date_year(),
        ensures
            d.valid(),
            d.year == self.0,
            d.month == self.1,
            d.day == (if day < 1 { 1 } else if day > days_in_month(self.0 as int, self.1 as int) {
                days_in_month(self.0 as int, self.1 as int)
            } else {
                day as int
            }),
    {
        let last = self.last_day();
        let day = if day < 1 {
            1
        } else if day > last {
            last
        } else {
            day
        };
        let d = Date::from_ymd_opt(self.0, self.1 as u32, day);
        match d {
            Some(x) => x,
            None => {
                proof { assert(false); }
                Date { year: self.0, month: self.1 as u32, day }
            },
        }
    }

    /// January of the period's year.
    pub fn first_period(&self) -> (p: Period)
        ensures
            p == Period(self.0, 1),
    {
        Period::new(self.0, 1)
    }

    /// December of the period's year.
    pub fn last_period(&self) -> (p: Period)
        ensures
            p == Period(self.0, 12),
    {
        Period::new(self.0, 12)
    }

    /// The year as an unsigned number (`as u32`).
    pub fn year(&self) -> (y: u32)
        ensures
            y == self.0 as u32,
    {
        self.0 as u32
    }

    /// The month as an unsigned number (`as u32`).
    pub fn month(&self) -> (m: u32)
        ensures
            m == self.1 as u32,
    {
        self.1 as u32
    }

    /// The period a date falls in.
    pub fn from(date: Date) -> (p: Period)
        requires
            date.valid(),
        ensures
            p == Period(date.year, date.month as i32),
            p.valid_month(),
            p.date_year(),
    {
        Period(date.year, date.month as i32)
    }

    /// The period as `{year}.{month:02}`.
    pub fn fmt(&self) -> (s: String)
        ensures
            s@ == period_text(*self),
    {
        let mut s = String::new();
        push_signed_padded(&mut s, self.0 as i64, 0);
        proof { reveal_strlit("."); }
        s.append(".");
        push_signed_padded(&mut s, self.1 as i64, 2);
        s
    }
}

/// The period after a period's predecessor, and the period before its
/// successor, is the period itself.
pub proof fn lemma_next_prev_inverse(p: Period)
    requires
        p.valid_month(),
        i32::MIN < p.0 < i32::MAX,
    ensures
        prev_of(next_of(p)) == p,
        next_of(prev_of(p)) == p,
{
}

/// `yyyymm` keys follow the order of periods: the next period has a larger
/// key, and periods with valid months have equal keys only when they are
/// the same period.
pub proof fn lemma_year_period_order(p: Period, q: Period)
    requires
        p.valid_month(),
        p.0 < i32::MAX,
        q.valid_month(),
    ensures
        year_period_of(p) < year_period_of(next_of(p)),
        year_period_of(p) == year_period_of(q) ==> p == q,
        p.0 < q.0 ==> year_period_of(p) < year_period_of(q),
        p.0 == q.0 && p.1 < q.1 ==> year_period_of(p) < year_period_of(q),
{
}

} // verus!
