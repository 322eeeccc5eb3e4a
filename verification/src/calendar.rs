//! Calendar dates: a year, a month and a day that exist in the proleptic
//! Gregorian calendar.

use crate::text::decimal_text;
use chrono::Datelike;
use vstd::prelude::*;

verus! {

/// The first year that a calendar date can have.
pub const MIN_YEAR: i32 = -262143;

/// The last year that a calendar date can have.
pub const MAX_YEAR: i32 = 262142;

/// A year, a month and a day as numbers: the model of a calendar date, and of
/// what may fail to be one.
pub struct Ymd {
    pub year: int,
    pub month: int,
    pub day: int,
}

/// Whether `year` has a 29th of February.
pub open spec fn leap_year(year: int) -> bool {
    year % 4 == 0 && (year % 100 != 0 || year % 400 == 0)
}

/// The number of days of a month; 31 where `month` is no month.
pub open spec fn days_in_month(year: int, month: int) -> int {
    if month == 2 {
        if leap_year(year) {
            29
        } else {
            28
        }
    } else if month == 4 || month == 6 || month == 9 || month == 11 {
        30
    } else {
        31
    }
}

impl Ymd {
    /// Whether the three numbers are a day of the calendar.
    pub open spec fn is_date(self) -> bool {
        &&& MIN_YEAR <= self.year <= MAX_YEAR
        &&& 1 <= self.month <= 12
        &&& 1 <= self.day <= days_in_month(self.year, self.month)
    }

    /// Whether `self` is the same day as `other` or an earlier one.
    pub open spec fn not_after(self, other: Ymd) -> bool {
        self.year < other.year || (self.year == other.year && (self.month < other.month || (
        self.month == other.month && self.day <= other.day)))
    }

    /// The year before this one.
    pub open spec fn prev_year(self) -> int {
        self.year - 1
    }

    /// The month before this one, December before January.
    pub open spec fn prev_month(self) -> int {
        if self.month > 1 {
            self.month - 1
        } else {
            12
        }
    }

    /// The number of the day before this one: the last day of the month
    /// before, where this is the first of a month.
    pub open spec fn prev_day(self) -> int {
        if self.day > 1 {
            self.day - 1
        } else {
            days_in_month(
                if self.month > 1 {
                    self.year
                } else {
                    self.year - 1
                },
                self.prev_month(),
            )
        }
    }
}

/// A day of the calendar. Every value of this type is one: `new` makes no
/// other.
#[derive(Clone, Copy, Debug)]
pub struct CalendarDate {
    year: i32,
    month: u32,
    day: u32,
}

impl View for CalendarDate {
    type V = Ymd;

    closed spec fn view(&self) -> Ymd {
        Ymd { year: self.year as int, month: self.month as int, day: self.day as int }
    }
}

/// chrono's `NaiveDate::from_ymd_opt`, asked whether it makes a date. It does
/// for a year from `MIN_YEAR` to `MAX_YEAR`, a month from 1 to 12 and a day
/// that this month has in this year, and for nothing else.
#[verifier::external_body]
fn exists_in_calendar(year: i32, month: u32, day: u32) -> (ok: bool)
    ensures
        ok == (Ymd { year: year as int, month: month as int, day: day as int }).is_date(),
{
    chrono::NaiveDate::from_ymd_opt(year, month, day).is_some()
}

/// chrono's `Local::now`, of which the local date is taken: its year, month
/// and day. They are a day of the calendar, whatever the clock says. chrono
/// panics where the system clock stands before 1970 or the local time is
/// beyond the years it can hold.
#[verifier::external_body]
fn local_today() -> (t: (i32, u32, u32))
    ensures
        (Ymd { year: t.0 as int, month: t.1 as int, day: t.2 as int }).is_date(),
{
    let date = chrono::Local::now().naive_local().date();
    (date.year(), date.month(), date.day())
}

/// The date that chrono reads from a text written as year, month and day
/// with `-` between them, or nothing where it reads none.
pub uninterp spec fn date_read(s: Seq<char>) -> Option<Ymd>;

/// `n` in base ten with zeros before it up to `width` digits.
pub open spec fn padded(n: nat, width: nat) -> Seq<char>
    decreases width,
{
    if decimal_text(n).len() >= width {
        decimal_text(n)
    } else {
        seq!['0'] + padded(n, (width - 1) as nat)
    }
}

/// A year as it is written: four digits from 0 to 9999, else the sign and
/// four digits or more.
pub open spec fn year_text(year: int) -> Seq<char> {
    if 0 <= year <= 9999 {
        padded(year as nat, 4)
    } else if year < 0 {
        seq!['-'] + padded((-year) as nat, 4)
    } else {
        seq!['+'] + padded(year as nat, 4)
    }
}

/// A date as it is written: the year, the month and the day in two digits
/// each, with `-` between them.
pub open spec fn iso_text(date: Ymd) -> Seq<char> {
    year_text(date.year) + seq!['-'] + padded(date.month as nat, 2) + seq!['-'] + padded(
        date.day as nat,
        2,
    )
}

/// chrono's `NaiveDate::from_str`: the date that it reads from `s`, as year,
/// month and day, or nothing where it reads none. What it reads is a day of
/// the calendar.
#[verifier::external_body]
fn read_date(s: &str) -> (r: Option<(i32, u32, u32)>)
    ensures
        r is Some <==> date_read(s@) is Some,
        r matches Some(t) ==> date_read(s@) == Some(
            Ymd { year: t.0 as int, month: t.1 as int, day: t.2 as int },
        ) && (Ymd { year: t.0 as int, month: t.1 as int, day: t.2 as int }).is_date(),
{
    match s.parse::<chrono::NaiveDate>() {
        Ok(date) => Some((date.year(), date.month(), date.day())),
        Err(_) => None,
    }
}

/// chrono's `Display` for `NaiveDate`: the date as it is written, the year
/// in four digits from 0 to 9999 and with its sign otherwise, the month and
/// the day in two digits each.
#[verifier::external_body]
fn write_date(year: i32, month: u32, day: u32) -> (r: String)
    requires
        (Ymd { year: year as int, month: month as int, day: day as int }).is_date(),
    ensures
        r@ == iso_text(Ymd { year: year as int, month: month as int, day: day as int }),
{
    match chrono::NaiveDate::from_ymd_opt(year, month, day) {
        Some(date) => date.to_string(),
        None => String::new(),
    }
}

/// Whether `year` is a leap year that a calendar date can have.
pub fn is_leap_year(year: i32) -> (r: bool)
    ensures
        r == (MIN_YEAR <= year <= MAX_YEAR && leap_year(year as int)),
{
    exists_in_calendar(year, 2, 29)
}

impl CalendarDate {
    #[verifier::type_invariant]
    spec fn well_formed(self) -> bool {
        self@.is_date()
    }

    /// The date with this year, month and day, where there is one.
    pub fn new(year: i32, month: u32, day: u32) -> (r: Option<CalendarDate>)
        ensures
            r is Some <==> (Ymd { year: year as int, month: month as int, day: day as int }).is_date(),
            r matches Some(d) ==> d@ == (Ymd {
                year: year as int,
                month: month as int,
                day: day as int,
            }),
    {
        if exists_in_calendar(year, month, day) {
            Some(CalendarDate { year, month, day })
        } else {
            None
        }
    }

    /// The date that `s` writes, as chrono reads it.
    pub fn parse(s: &str) -> (r: Option<CalendarDate>)
        ensures
            match date_read(s@) {
                Some(date) => r matches Some(d) && d@ == date,
                None => r is None,
            },
    {
        match read_date(s) {
            Some(t) => Some(CalendarDate { year: t.0, month: t.1, day: t.2 }),
            None => None,
        }
    }

    /// The date as it is written.
    pub fn text(&self) -> (r: String)
        ensures
            r@ == iso_text(self@),
    {
        proof {
            use_type_invariant(self);
        }
        write_date(self.year, self.month, self.day)
    }

    /// The local date of the moment of the call.
    pub fn today() -> (r: CalendarDate)
        ensures
            r@.is_date(),
    {
        let t: (i32, u32, u32) = local_today();
        CalendarDate { year: t.0, month: t.1, day: t.2 }
    }

    /// The year.
    pub fn year(&self) -> (r: i32)
        ensures
            r == self@.year,
            self@.is_date(),
    {
        proof {
            use_type_invariant(self);
        }
        self.year
    }

    /// The month, from 1 to 12.
    pub fn month(&self) -> (r: u32)
        ensures
            r == self@.month,
            self@.is_date(),
    {
        proof {
            use_type_invariant(self);
        }
        self.month
    }

    /// The day of the month, from 1.
    pub fn day(&self) -> (r: u32)
        ensures
            r == self@.day,
            self@.is_date(),
    {
        proof {
            use_type_invariant(self);
        }
        self.day
    }

    /// Whether this is the same day as `other` or an earlier one.
    pub fn not_after(&self, other: &CalendarDate) -> (r: bool)
        ensures
            r == self@.not_after(other@),
    {
        self.year < other.year || (self.year == other.year && (self.month < other.month || (
        self.month == other.month && self.day <= other.day)))
    }

    /// The year before this date's.
    pub fn prev_year(&self) -> (r: i32)
        ensures
            r == self@.prev_year(),
    {
        proof {
            use_type_invariant(self);
        }
        self.year - 1
    }

    /// The month before this date's, December before January.
    pub fn prev_month(&self) -> (r: u32)
        ensures
            r == self@.prev_month(),
            1 <= r <= 12,
    {
        proof {
            use_type_invariant(self);
        }
        if self.month > 1 {
            self.month - 1
        } else {
            12
        }
    }

    /// The number of the day before this one: the last day of the month
    /// before, where this is the first of a month.
    pub fn prev_day(&self) -> (r: u32)
        ensures
            r == self@.prev_day(),
            1 <= r <= 31,
    {
        proof {
            use_type_invariant(self);
        }
        if self.day > 1 {
            self.day - 1
        } else {
            let month: u32 = self.prev_month();
            let year: i32 = if self.month > 1 {
                self.year
            } else {
                self.year - 1
            };
            if month == 2 {
                if is_leap_year(year) {
                    29
                } else {
                    28
                }
            } else if month == 4 || month == 6 || month == 9 || month == 11 {
                30
            } else {
                31
            }
        }
    }
}

} // verus!
