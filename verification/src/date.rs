//! Date expressions: a year, a month and a day, each given or left open.

use crate::calendar::{CalendarDate, Ymd};
use crate::error::{ParseError, ParseErrorView, Part, Slot};
use crate::text::{i32_of, parse_i32, parse_u32, same_text, split, split_text, u32_of};
use vstd::prelude::*;
use vstd::string::*;

verus! {

/// A date of which any part may be missing. A missing part stands for that
/// part of the current date.
#[derive(Clone, Copy, Debug, PartialEq, Eq)]
pub struct Date {
    pub year: Option<i32>,
    pub month: Option<u32>,
    pub day: Option<u32>,
}

/// The year that `val` names on the day `today`: the year before for `prev`,
/// the year itself for `now`, else the number that `val` writes.
pub open spec fn year_named(val: Seq<char>, today: Ymd) -> Option<i32> {
    if val == "prev"@ {
        Some(today.prev_year() as i32)
    } else if val == "now"@ {
        Some(today.year as i32)
    } else {
        i32_of(val)
    }
}

/// The month that `val` names on the day `today`: the month before for
/// `prev`, the month itself for `now`, else the number that `val` writes.
pub open spec fn month_named(val: Seq<char>, today: Ymd) -> Option<u32> {
    if val == "prev"@ {
        Some(today.prev_month() as u32)
    } else if val == "now"@ {
        Some(today.month as u32)
    } else {
        u32_of(val)
    }
}

/// The day that `val` names on the day `today`: the day before for `prev`,
/// the day itself for `now`, else the number that `val` writes.
pub open spec fn day_named(val: Seq<char>, today: Ymd) -> Option<u32> {
    if val == "prev"@ {
        Some(today.prev_day() as u32)
    } else if val == "now"@ {
        Some(today.day as u32)
    } else {
        u32_of(val)
    }
}

impl Date {
    /// Whether any part is given.
    pub open spec fn some(self) -> bool {
        self.year is Some || self.month is Some || self.day is Some
    }

    /// The date with each missing part taken from `today`.
    pub open spec fn resolved(self, today: Ymd) -> Ymd {
        Ymd {
            year: match self.year {
                Some(y) => y as int,
                None => today.year,
            },
            month: match self.month {
                Some(m) => m as int,
                None => today.month,
            },
            day: match self.day {
                Some(d) => d as int,
                None => today.day,
            },
        }
    }

    /// Whether the resolved date is a day of the calendar and not after `today`.
    pub open spec fn valid_on(self, today: Ymd) -> bool {
        self.resolved(today).is_date() && self.resolved(today).not_after(today)
    }

    /// The date after its year was given as `val`: refused where the year is
    /// already there, or `val` names none.
    pub open spec fn with_year(self, val: Seq<char>, today: Ymd) -> Result<Date, ParseErrorView> {
        if self.year is Some {
            Err(ParseErrorView::Multiple(Slot::Year))
        } else {
            match year_named(val, today) {
                Some(y) => Ok(Date { year: Some(y), ..self }),
                None => Err(ParseErrorView::WrongPart { part: Part::Year, given: val }),
            }
        }
    }

    /// The date after its month was given as `val`.
    pub open spec fn with_month(self, val: Seq<char>, today: Ymd) -> Result<Date, ParseErrorView> {
        if self.month is Some {
            Err(ParseErrorView::Multiple(Slot::Month))
        } else {
            match month_named(val, today) {
                Some(m) => Ok(Date { month: Some(m), ..self }),
                None => Err(ParseErrorView::WrongPart { part: Part::Month, given: val }),
            }
        }
    }

    /// The date after its day was given as `val`.
    pub open spec fn with_day(self, val: Seq<char>, today: Ymd) -> Result<Date, ParseErrorView> {
        if self.day is Some {
            Err(ParseErrorView::Multiple(Slot::Day))
        } else {
            match day_named(val, today) {
                Some(d) => Ok(Date { day: Some(d), ..self }),
                None => Err(ParseErrorView::WrongPart { part: Part::Day, given: val }),
            }
        }
    }

    /// The date after `part` was given, where `part` is not empty.
    pub open spec fn with_part(self, part: Part, val: Seq<char>, today: Ymd) -> Result<
        Date,
        ParseErrorView,
    > {
        if val.len() == 0 {
            Ok(self)
        } else {
            match part {
                Part::Year => self.with_year(val, today),
                Part::Month => self.with_month(val, today),
                Part::Day => self.with_day(val, today),
            }
        }
    }

    /// The date after `val`, written `Y-M-D`, was given: each part that is
    /// not empty is written, the year first, and the first refusal stands.
    pub open spec fn with_date(self, val: Seq<char>, today: Ymd) -> Result<Date, ParseErrorView> {
        let parts = split(val, "-"@);
        if parts.len() != 3 {
            Err(ParseErrorView::BadDate)
        } else {
            match self.with_part(Part::Year, parts[0], today) {
                Err(e) => Err(e),
                Ok(a) => match a.with_part(Part::Month, parts[1], today) {
                    Err(e) => Err(e),
                    Ok(b) => b.with_part(Part::Day, parts[2], today),
                },
            }
        }
    }

    /// The day from which a query counts: the date with today for every part
    /// that is missing, where any part is given.
    pub open spec fn start(self, today: Ymd) -> Option<Ymd> {
        if self.some() {
            Some(self.resolved(today))
        } else {
            None
        }
    }

    /// The day that a bound stands for: the resolved date where the day is
    /// given, the first of the month where the month is, the first of January
    /// where only the year is.
    pub open spec fn first_day(self, today: Ymd) -> Option<Ymd> {
        if self.day is Some {
            Some(self.resolved(today))
        } else if self.month is Some {
            Some(Ymd { day: 1, ..self.resolved(today) })
        } else if self.year is Some {
            Some(Ymd { year: self.year->0 as int, month: 1, day: 1 })
        } else {
            None
        }
    }

    /// The date with no part given.
    pub fn new() -> (r: Date)
        ensures
            r == (Date { year: None, month: None, day: None }),
    {
        Date { year: None, month: None, day: None }
    }

    /// Whether any part is given.
    pub fn is_some(&self) -> (r: bool)
        ensures
            r == self.some(),
    {
        self.year.is_some() || self.month.is_some() || self.day.is_some()
    }

    /// Whether no part is given.
    pub fn is_none(&self) -> (r: bool)
        ensures
            r == !self.some(),
    {
        self.year.is_none() && self.month.is_none() && self.day.is_none()
    }

    /// The year, or that of `today` where it is missing.
    pub fn year_or_now(&self, today: &CalendarDate) -> (r: i32)
        ensures
            r == self.resolved(today@).year,
    {
        match self.year {
            Some(y) => y,
            None => today.year(),
        }
    }

    /// The month, or that of `today` where it is missing.
    pub fn month_or_now(&self, today: &CalendarDate) -> (r: u32)
        ensures
            r == self.resolved(today@).month,
    {
        match self.month {
            Some(m) => m,
            None => today.month(),
        }
    }

    /// The day, or that of `today` where it is missing.
    pub fn day_or_now(&self, today: &CalendarDate) -> (r: u32)
        ensures
            r == self.resolved(today@).day,
    {
        match self.day {
            Some(d) => d,
            None => today.day(),
        }
    }

    /// The resolved date, where it is a day of the calendar.
    pub fn to_naive(&self, today: &CalendarDate) -> (r: Option<CalendarDate>)
        ensures
            r is Some <==> self.resolved(today@).is_date(),
            r matches Some(d) ==> d@ == self.resolved(today@),
    {
        CalendarDate::new(self.year_or_now(today), self.month_or_now(today), self.day_or_now(today))
    }

    /// Whether the resolved date is a day of the calendar and not after `today`.
    pub fn is_valid_date(&self, today: &CalendarDate) -> (r: bool)
        ensures
            r == self.valid_on(today@),
    {
        match self.to_naive(today) {
            Some(date) => date.not_after(today),
            None => false,
        }
    }

    /// Writes the year that `val` names. Where it is refused the date stays
    /// as it was.
    pub fn year_from_str(&mut self, val: &str, today: &CalendarDate) -> (r: Result<(), ParseError>)
        ensures
            match old(self).with_year(val@, today@) {
                Ok(d) => r is Ok && *final(self) == d,
                Err(e) => r matches Err(x) && x@ == e && *final(self) == *old(self),
            },
    {
        if self.year.is_some() {
            return Err(ParseError::Multiple(Slot::Year));
        }
        let named: Option<i32> = if same_text(val, "prev") {
            Some(today.prev_year())
        } else if same_text(val, "now") {
            Some(today.year())
        } else {
            parse_i32(val)
        };
        match named {
            Some(y) => {
                self.year = Some(y);
                Ok(())
            },
            None => Err(ParseError::WrongPart { part: Part::Year, given: String::from_str(val) }),
        }
    }

    /// Writes the month that `val` names. Where it is refused the date stays
    /// as it was.
    pub fn month_from_str(&mut self, val: &str, today: &CalendarDate) -> (r: Result<
        (),
        ParseError,
    >)
        ensures
            match old(self).with_month(val@, today@) {
                Ok(d) => r is Ok && *final(self) == d,
                Err(e) => r matches Err(x) && x@ == e && *final(self) == *old(self),
            },
    {
        if self.month.is_some() {
            return Err(ParseError::Multiple(Slot::Month));
        }
        let named: Option<u32> = if same_text(val, "prev") {
            Some(today.prev_month())
        } else if same_text(val, "now") {
            Some(today.month())
        } else {
            parse_u32(val)
        };
        match named {
            Some(m) => {
                self.month = Some(m);
                Ok(())
            },
            None => Err(ParseError::WrongPart { part: Part::Month, given: String::from_str(val) }),
        }
    }

    /// Writes the day that `val` names. Where it is refused the date stays as
    /// it was.
    pub fn day_from_str(&mut self, val: &str, today: &CalendarDate) -> (r: Result<(), ParseError>)
        ensures
            match old(self).with_day(val@, today@) {
                Ok(d) => r is Ok && *final(self) == d,
                Err(e) => r matches Err(x) && x@ == e && *final(self) == *old(self),
            },
    {
        if self.day.is_some() {
            return Err(ParseError::Multiple(Slot::Day));
        }
        let named: Option<u32> = if same_text(val, "prev") {
            Some(today.prev_day())
        } else if same_text(val, "now") {
            Some(today.day())
        } else {
            parse_u32(val)
        };
        match named {
            Some(d) => {
                self.day = Some(d);
                Ok(())
            },
            None => Err(ParseError::WrongPart { part: Part::Day, given: String::from_str(val) }),
        }
    }

    /// Writes the parts of `val`, written `Y-M-D`, that are not empty. Where
    /// one is refused the date stays as it was.
    pub fn from_str(&mut self, val: &str, today: &CalendarDate) -> (r: Result<(), ParseError>)
        ensures
            match old(self).with_date(val@, today@) {
                Ok(d) => r is Ok && *final(self) == d,
                Err(e) => r matches Err(x) && x@ == e && *final(self) == *old(self),
            },
    {
        proof {
            reveal_strlit("-");
        }
        let parts: Vec<String> = split_text(val, "-");
        if parts.len() != 3 {
            return Err(ParseError::BadDate);
        }
        let ghost texts = parts.deep_view();
        assert(texts[0] == parts@[0]@ && texts[1] == parts@[1]@ && texts[2] == parts@[2]@);
        let mut date: Date = *self;
        let year: &str = parts[0].as_str();
        if year.unicode_len() > 0 {
            date.year_from_str(year, today)?;
        }
        let month: &str = parts[1].as_str();
        if month.unicode_len() > 0 {
            date.month_from_str(month, today)?;
        }
        let day: &str = parts[2].as_str();
        if day.unicode_len() > 0 {
            date.day_from_str(day, today)?;
        }
        *self = date;
        Ok(())
    }
}

/// The day from which a query counts for the date `date`: the date with
/// today for every part that is missing, and `None` where no part of it is
/// given. It is refused where that day is no day of the calendar.
pub fn get_date(date: &Date, today: &CalendarDate) -> (r: Result<Option<CalendarDate>, ParseError>)
    ensures
        match date.start(today@) {
            None => r == Ok::<Option<CalendarDate>, ParseError>(None),
            Some(day) => if day.is_date() {
                r matches Ok(Some(d)) && d@ == day
            } else {
                r == Err::<Option<CalendarDate>, ParseError>(ParseError::InvalidDate)
            },
        },
{
    if date.is_none() {
        return Ok(None);
    }
    match date.to_naive(today) {
        Some(d) => Ok(Some(d)),
        None => Err(ParseError::InvalidDate),
    }
}

/// The day that the bound `date` stands for: the first day of the month or
/// of the year where the day or the month is missing, and `None` where no
/// part of it is given. It is refused where that day is no day of the
/// calendar.
pub fn bound_date(date: &Date, today: &CalendarDate) -> (r: Result<
    Option<CalendarDate>,
    ParseError,
>)
    ensures
        match date.first_day(today@) {
            None => r == Ok::<Option<CalendarDate>, ParseError>(None),
            Some(day) => if day.is_date() {
                r matches Ok(Some(d)) && d@ == day
            } else {
                r == Err::<Option<CalendarDate>, ParseError>(ParseError::InvalidDate)
            },
        },
{
    let made: Option<CalendarDate> = if date.day.is_some() {
        date.to_naive(today)
    } else if date.month.is_some() {
        CalendarDate::new(date.year_or_now(today), date.month_or_now(today), 1)
    } else if date.year.is_some() {
        CalendarDate::new(date.year_or_now(today), 1, 1)
    } else {
        return Ok(None);
    };
    match made {
        Some(d) => Ok(Some(d)),
        None => Err(ParseError::InvalidDate),
    }
}

} // verus!
