//! Calendar values: months, dates and naive date-times, and how they are
//! read and written as text.

use crate::text::padded;
use chrono::{Datelike, Timelike};
use std::str::FromStr;
use vstd::prelude::*;

verus! {

/// The first year that a date can have.
pub const MIN_YEAR: i32 = -262143;

/// The last year that a date can have.
pub const MAX_YEAR: i32 = 262142;

/// The pattern of every date in a statement document: the calendar date,
/// a time of day of zero, and the marker of Brazil's time zone.
pub const OFX_DATE_PATTERN: &'static str = "%Y%m%d000000[-3:BRT]";

/// The pattern of a date in a query: year, month and day with hyphens.
pub const ISO_DATE_PATTERN: &'static str = "%F";

/// The pattern of a date-time in a query, to the millisecond.
pub const ISO_MILLIS_PATTERN: &'static str = "%Y-%m-%dT%H:%M:%S.%3fZ";

/// The pattern in which the providers write a date-time.
pub const PROVIDER_TIMESTAMP_PATTERN: &'static str = "%Y-%m-%dT%H:%M:%S.%fZ";

/// A month of the year.
#[derive(Clone, Copy, Debug, PartialEq, Eq, Structural)]
pub enum Month {
    January,
    February,
    March,
    April,
    May,
    June,
    July,
    August,
    September,
    October,
    November,
    December,
}

impl Month {
    /// The month's number, from 1 for January to 12 for December.
    pub open spec fn number(self) -> int {
        match self {
            Month::January => 1,
            Month::February => 2,
            Month::March => 3,
            Month::April => 4,
            Month::May => 5,
            Month::June => 6,
            Month::July => 7,
            Month::August => 8,
            Month::September => 9,
            Month::October => 10,
            Month::November => 11,
            Month::December => 12,
        }
    }

    /// The month with the given number, if it is one of 1 to 12.
    pub open spec fn numbered(n: int) -> Option<Month> {
        if n == 1 {
            Some(Month::January)
        } else if n == 2 {
            Some(Month::February)
        } else if n == 3 {
            Some(Month::March)
        } else if n == 4 {
            Some(Month::April)
        } else if n == 5 {
            Some(Month::May)
        } else if n == 6 {
            Some(Month::June)
        } else if n == 7 {
            Some(Month::July)
        } else if n == 8 {
            Some(Month::August)
        } else if n == 9 {
            Some(Month::September)
        } else if n == 10 {
            Some(Month::October)
        } else if n == 11 {
            Some(Month::November)
        } else if n == 12 {
            Some(Month::December)
        } else {
            None
        }
    }

    /// The month's English name in lower case.
    pub open spec fn long_name(self) -> Seq<char> {
        match self {
            Month::January => "january"@,
            Month::February => "february"@,
            Month::March => "march"@,
            Month::April => "april"@,
            Month::May => "may"@,
            Month::June => "june"@,
            Month::July => "july"@,
            Month::August => "august"@,
            Month::September => "september"@,
            Month::October => "october"@,
            Month::November => "november"@,
            Month::December => "december"@,
        }
    }

    /// The first three letters of the month's English name, in lower case.
    pub open spec fn short_name(self) -> Seq<char> {
        self.long_name().take(3)
    }

    /// Whether `text` is the month's long or short name, in any mix of upper
    /// and lower case.
    pub open spec fn is_named(self, text: Seq<char>) -> bool {
        same_letters(text, self.long_name()) || same_letters(text, self.short_name())
    }

    /// The month's number, from 1 for January to 12 for December.
    pub fn number_from_month(&self) -> (n: u32)
        ensures
            n == self.number(),
            1 <= n <= 12,
    {
        match self {
            Month::January => 1,
            Month::February => 2,
            Month::March => 3,
            Month::April => 4,
            Month::May => 5,
            Month::June => 6,
            Month::July => 7,
            Month::August => 8,
            Month::September => 9,
            Month::October => 10,
            Month::November => 11,
            Month::December => 12,
        }
    }

    /// The month with the given number.
    pub fn from_number(n: u32) -> (month: Option<Month>)
        ensures
            month == Month::numbered(n as int),
            month is Some <==> 1 <= n <= 12,
            month matches Some(m) ==> m.number() == n,
    {
        match n {
            1 => Some(Month::January),
            2 => Some(Month::February),
            3 => Some(Month::March),
            4 => Some(Month::April),
            5 => Some(Month::May),
            6 => Some(Month::June),
            7 => Some(Month::July),
            8 => Some(Month::August),
            9 => Some(Month::September),
            10 => Some(Month::October),
            11 => Some(Month::November),
            12 => Some(Month::December),
            _ => None,
        }
    }
}

/// Whether `c` is the lower-case letter `lower` or its upper-case form.
pub open spec fn same_letter(c: char, lower: char) -> bool {
    c == lower || ('A' <= c <= 'Z' && c as int + 32 == lower as int)
}

/// Whether `text` spells the lower-case word `lower`, in any mix of upper
/// and lower case.
pub open spec fn same_letters(text: Seq<char>, lower: Seq<char>) -> bool {
    &&& text.len() == lower.len()
    &&& forall|i: int| 0 <= i < text.len() ==> same_letter(#[trigger] text[i], lower[i])
}

/// The number of the month that `text` names, by its long or its short
/// English name in any mix of upper and lower case.
pub open spec fn month_number_named(text: Seq<char>) -> Option<u32> {
    if Month::January.is_named(text) {
        Some(1u32)
    } else if Month::February.is_named(text) {
        Some(2u32)
    } else if Month::March.is_named(text) {
        Some(3u32)
    } else if Month::April.is_named(text) {
        Some(4u32)
    } else if Month::May.is_named(text) {
        Some(5u32)
    } else if Month::June.is_named(text) {
        Some(6u32)
    } else if Month::July.is_named(text) {
        Some(7u32)
    } else if Month::August.is_named(text) {
        Some(8u32)
    } else if Month::September.is_named(text) {
        Some(9u32)
    } else if Month::October.is_named(text) {
        Some(10u32)
    } else if Month::November.is_named(text) {
        Some(11u32)
    } else if Month::December.is_named(text) {
        Some(12u32)
    } else {
        None
    }
}

/// Calls `chrono::Month::from_str` and gives the month's number. chrono
/// takes the three-letter and the full English names, in any mix of upper and
/// lower case, and nothing else.
#[verifier::external_body]
fn chrono_month_number(text: &str) -> (number: Option<u32>)
    ensures
        number == month_number_named(text@),
{
    chrono::Month::from_str(text).ok().map(|m| m.number_from_month())
}

/// Whether the year has 366 days in the proleptic Gregorian calendar.
pub open spec fn is_leap_year(year: int) -> bool {
    year % 4 == 0 && (year % 100 != 0 || year % 400 == 0)
}

/// The number of days of a month.
pub open spec fn days_in_month(year: int, month: int) -> int {
    if month == 2 {
        if is_leap_year(year) {
            29
        } else {
            28
        }
    } else if month == 4 || month == 6 || month == 9 || month == 11 {
        30
    } else {
        31
    }
}

/// A calendar date as three numbers.
pub struct Ymd {
    pub year: int,
    pub month: int,
    pub day: int,
}

impl Ymd {
    /// Whether the three numbers are a day of the calendar, in a year that a
    /// date can have.
    pub open spec fn is_date(self) -> bool {
        &&& MIN_YEAR <= self.year <= MAX_YEAR
        &&& 1 <= self.month <= 12
        &&& 1 <= self.day <= days_in_month(self.year, self.month)
    }

    /// The same day one month later, or the last day of that month where it
    /// is shorter.
    pub open spec fn next_month(self) -> Ymd {
        let year = if self.month == 12 {
            self.year + 1
        } else {
            self.year
        };
        let month = if self.month == 12 {
            1
        } else {
            self.month + 1
        };
        let last = days_in_month(year, month);
        Ymd { year, month, day: if self.day > last { last } else { self.day } }
    }

    /// The day before.
    pub open spec fn previous_day(self) -> Ymd {
        if self.day > 1 {
            Ymd { year: self.year, month: self.month, day: self.day - 1 }
        } else if self.month > 1 {
            Ymd {
                year: self.year,
                month: self.month - 1,
                day: days_in_month(self.year, self.month - 1),
            }
        } else {
            Ymd { year: self.year - 1, month: 12, day: 31 }
        }
    }
}

/// A day of the proleptic Gregorian calendar.
#[derive(Clone, Copy, Debug, PartialEq, Eq, Structural)]
pub struct Date {
    year: i32,
    month: u32,
    day: u32,
}

impl View for Date {
    type V = Ymd;

    closed spec fn view(&self) -> Ymd {
        Ymd { year: self.year as int, month: self.month as int, day: self.day as int }
    }
}

/// Calls `chrono::NaiveDate::from_ymd_opt`, which gives a date where the
/// day exists in the calendar and the year is one that a date can have.
#[verifier::external_body]
fn chrono_date(year: i32, month: u32, day: u32) -> (date: Option<Date>)
    ensures
        date is Some <==> (Ymd { year: year as int, month: month as int, day: day as int }).is_date(),
        date matches Some(d) ==> d@ == (Ymd {
            year: year as int,
            month: month as int,
            day: day as int,
        }),
{
    let found = chrono::NaiveDate::from_ymd_opt(year, month, day)?;
    Some(Date { year: found.year(), month: found.month(), day: found.day() })
}

/// Calls `chrono::NaiveDate::checked_add_months` with one month: the same
/// day of the next month, or that month's last day where it is shorter, and
/// nothing where that falls behind the last year.
#[verifier::external_body]
fn chrono_next_month(date: &Date) -> (next: Option<Date>)
    ensures
        next is Some <==> date@.next_month().is_date(),
        next matches Some(d) ==> d@ == date@.next_month(),
{
    let from = chrono::NaiveDate::from_ymd_opt(date.year, date.month, date.day)?;
    let found = from.checked_add_months(chrono::Months::new(1))?;
    Some(Date { year: found.year(), month: found.month(), day: found.day() })
}

/// Calls `chrono::NaiveDate::pred_opt`: the day before, and nothing before
/// the first day of the first year.
#[verifier::external_body]
fn chrono_previous_day(date: &Date) -> (previous: Option<Date>)
    ensures
        previous is Some <==> date@.previous_day().is_date(),
        previous matches Some(d) ==> d@ == date@.previous_day(),
{
    let from = chrono::NaiveDate::from_ymd_opt(date.year, date.month, date.day)?;
    let found = from.pred_opt()?;
    Some(Date { year: found.year(), month: found.month(), day: found.day() })
}

impl Date {
    #[verifier::type_invariant]
    spec fn well_formed(self) -> bool {
        self@.is_date()
    }

    /// The date with the given year, month and day, if there is such a day.
    pub fn from_ymd(year: i32, month: u32, day: u32) -> (date: Option<Date>)
        ensures
            date is Some <==> (Ymd {
                year: year as int,
                month: month as int,
                day: day as int,
            }).is_date(),
            date matches Some(d) ==> d@ == (Ymd {
                year: year as int,
                month: month as int,
                day: day as int,
            }),
    {
        chrono_date(year, month, day)
    }

    pub fn year(&self) -> (year: i32)
        ensures
            year == self@.year,
            self@.is_date(),
    {
        proof {
            use_type_invariant(self);
        }
        self.year
    }

    pub fn month(&self) -> (month: u32)
        ensures
            month == self@.month,
            self@.is_date(),
    {
        proof {
            use_type_invariant(self);
        }
        self.month
    }

    pub fn day(&self) -> (day: u32)
        ensures
            day == self@.day,
            self@.is_date(),
    {
        proof {
            use_type_invariant(self);
        }
        self.day
    }
}

/// A date and a time of day as numbers.
pub struct Moment {
    pub date: Ymd,
    pub hour: int,
    pub minute: int,
    pub second: int,
    pub nanosecond: int,
}

impl Moment {
    /// Whether the numbers are a day of the calendar and a time of that day.
    /// A nanosecond of a billion or more stands for a leap second, and only
    /// the last second of a minute can have one.
    pub open spec fn is_moment(self) -> bool {
        &&& self.date.is_date()
        &&& 0 <= self.hour < 24
        &&& 0 <= self.minute < 60
        &&& 0 <= self.second < 60
        &&& 0 <= self.nanosecond < 2_000_000_000
        &&& self.nanosecond >= 1_000_000_000 ==> self.second == 59
    }
}

/// A date and a time of day, without a time zone.
#[derive(Clone, Copy, Debug, PartialEq, Eq, Structural)]
pub struct Timestamp {
    date: Date,
    hour: u32,
    minute: u32,
    second: u32,
    nanosecond: u32,
}

impl View for Timestamp {
    type V = Moment;

    closed spec fn view(&self) -> Moment {
        Moment {
            date: self.date@,
            hour: self.hour as int,
            minute: self.minute as int,
            second: self.second as int,
            nanosecond: self.nanosecond as int,
        }
    }
}

/// The year as chrono writes it for `%Y`: four digits or more, and a sign
/// in front of a year below zero or above 9999.
pub open spec fn year_text(year: int) -> Seq<char> {
    if year < 0 {
        seq!['-'] + padded((-year) as nat, 4)
    } else if year > 9999 {
        seq!['+'] + padded(year as nat, 4)
    } else {
        padded(year as nat, 4)
    }
}

/// A date as it stands in a statement document: year, month and day in
/// digits, a time of day of zero, and the marker of Brazil's time zone.
pub open spec fn ofx_date_text(date: Ymd) -> Seq<char> {
    year_text(date.year) + padded(date.month as nat, 2) + padded(date.day as nat, 2)
        + "000000[-3:BRT]"@
}

/// A date as year, month and day with hyphens between them.
pub open spec fn iso_date_text(date: Ymd) -> Seq<char> {
    year_text(date.year) + seq!['-'] + padded(date.month as nat, 2) + seq!['-'] + padded(
        date.day as nat,
        2,
    )
}

/// A date-time to the millisecond, with `T` between date and time and `Z`
/// at the end. A leap second is written as second 60.
pub open spec fn iso_millis_text(at: Moment) -> Seq<char> {
    iso_date_text(at.date) + seq!['T'] + padded(at.hour as nat, 2) + seq![':'] + padded(
        at.minute as nat,
        2,
    ) + seq![':'] + padded((at.second + at.nanosecond / 1_000_000_000) as nat, 2) + seq!['.']
        + padded((at.nanosecond / 1_000_000 % 1000) as nat, 3) + seq!['Z']
}

/// What `chrono::NaiveDateTime::parse_from_str` reads from `text` under
/// `pattern`.
pub uninterp spec fn parsed_moment(text: Seq<char>, pattern: Seq<char>) -> Option<Moment>;

/// Calls `chrono::NaiveDateTime::format` with one of the three patterns
/// that this library writes. chrono writes `%Y` as `year_text` says, month,
/// day, hour, minute and second with two digits, `%3f` as the milliseconds
/// with three, `%F` as `%Y-%m-%d`, and every other character as it stands.
#[verifier::external_body]
fn chrono_format(at: &Timestamp, pattern: &str) -> (text: String)
    requires
        pattern@ == OFX_DATE_PATTERN@ || pattern@ == ISO_DATE_PATTERN@ || pattern@
            == ISO_MILLIS_PATTERN@,
    ensures
        pattern@ == OFX_DATE_PATTERN@ ==> text@ == ofx_date_text(at@.date),
        pattern@ == ISO_DATE_PATTERN@ ==> text@ == iso_date_text(at@.date),
        pattern@ == ISO_MILLIS_PATTERN@ ==> text@ == iso_millis_text(at@),
{
    let date = chrono::NaiveDate::from_ymd_opt(at.date.year, at.date.month, at.date.day);
    let time = chrono::NaiveTime::from_hms_nano_opt(at.hour, at.minute, at.second, at.nanosecond);
    let moment = chrono::NaiveDateTime::new(date.unwrap_or_default(), time.unwrap_or_default());
    moment.format(pattern).to_string()
}

/// Calls `chrono::NaiveDateTime::parse_from_str`. What comes back is a day
/// of the calendar and a time of that day.
#[verifier::external_body]
fn chrono_parse(text: &str, pattern: &str) -> (at: Option<Timestamp>)
    ensures
        at is Some <==> parsed_moment(text@, pattern@) is Some,
        at matches Some(t) ==> parsed_moment(text@, pattern@) == Some(t@),
{
    let found = chrono::NaiveDateTime::parse_from_str(text, pattern).ok()?;
    let date = Date { year: found.year(), month: found.month(), day: found.day() };
    Some(
        Timestamp {
            date,
            hour: found.hour(),
            minute: found.minute(),
            second: found.second(),
            nanosecond: found.nanosecond(),
        },
    )
}

impl Timestamp {
    #[verifier::type_invariant]
    spec fn well_formed(self) -> bool {
        self@.is_moment()
    }

    /// The given time of the given day, if there is such a time.
    pub fn new(date: Date, hour: u32, minute: u32, second: u32, nanosecond: u32) -> (at: Option<
        Timestamp,
    >)
        ensures
            at is Some <==> (Moment {
                date: date@,
                hour: hour as int,
                minute: minute as int,
                second: second as int,
                nanosecond: nanosecond as int,
            }).is_moment(),
            at matches Some(t) ==> t@ == (Moment {
                date: date@,
                hour: hour as int,
                minute: minute as int,
                second: second as int,
                nanosecond: nanosecond as int,
            }),
    {
        proof {
            use_type_invariant(&date);
        }
        if hour >= 24 || minute >= 60 || second >= 60 || nanosecond >= 2_000_000_000 || (nanosecond
            >= 1_000_000_000 && second != 59) {
            None
        } else {
            Some(Timestamp { date, hour, minute, second, nanosecond })
        }
    }

    /// Reads a date-time as the providers write it. What is read is chrono's
    /// to say; it is a function of the text alone.
    pub fn parse(text: &str) -> (at: Option<Timestamp>)
        ensures
            at is Some <==> parsed_moment(text@, PROVIDER_TIMESTAMP_PATTERN@) is Some,
            at matches Some(t) ==> parsed_moment(text@, PROVIDER_TIMESTAMP_PATTERN@) == Some(t@),
    {
        chrono_parse(text, PROVIDER_TIMESTAMP_PATTERN)
    }

    pub fn date(&self) -> (date: Date)
        ensures
            date@ == self@.date,
            self@.is_moment(),
    {
        proof {
            use_type_invariant(self);
        }
        self.date
    }

    pub fn hour(&self) -> (hour: u32)
        ensures
            hour == self@.hour,
    {
        self.hour
    }

    pub fn minute(&self) -> (minute: u32)
        ensures
            minute == self@.minute,
    {
        self.minute
    }

    pub fn second(&self) -> (second: u32)
        ensures
            second == self@.second,
    {
        self.second
    }

    pub fn nanosecond(&self) -> (nanosecond: u32)
        ensures
            nanosecond == self@.nanosecond,
    {
        self.nanosecond
    }

    /// The date as it stands in a statement document. The time of day is
    /// left out: the document always says midnight.
    pub fn ofx_date(&self) -> (text: String)
        ensures
            text@ == ofx_date_text(self@.date),
    {
        chrono_format(self, OFX_DATE_PATTERN)
    }

    /// The date-time to the millisecond, as a query carries it.
    pub fn iso_millis(&self) -> (text: String)
        ensures
            text@ == iso_millis_text(self@),
    {
        chrono_format(self, ISO_MILLIS_PATTERN)
    }
}

impl Date {
    /// The given time of this day.
    pub fn and_time(&self, hour: u32, minute: u32, second: u32) -> (at: Timestamp)
        requires
            hour < 24,
            minute < 60,
            second < 60,
        ensures
            at@ == (Moment {
                date: self@,
                hour: hour as int,
                minute: minute as int,
                second: second as int,
                nanosecond: 0,
            }),
    {
        proof {
            use_type_invariant(self);
        }
        Timestamp { date: *self, hour, minute, second, nanosecond: 0 }
    }

    /// The date as year, month and day with hyphens, as a query carries it.
    pub fn iso(&self) -> (text: String)
        ensures
            text@ == iso_date_text(self@),
    {
        let midnight = self.and_time(0, 0, 0);
        chrono_format(&midnight, ISO_DATE_PATTERN)
    }
}

/// Why a month has no first and last day.
#[derive(Clone, Copy, Debug, PartialEq, Eq, Structural)]
pub enum DateError {
    /// The year is not one that a date can have.
    YearOutOfRange,
    /// The month after this one lies behind the last year.
    NoNextMonth,
}

/// The first and the last day of a month, or why it has none.
pub open spec fn month_bounds(year: int, month: Month) -> Result<(Ymd, Ymd), DateError> {
    if !(MIN_YEAR <= year <= MAX_YEAR) {
        Err(DateError::YearOutOfRange)
    } else if year == MAX_YEAR && month == Month::December {
        Err(DateError::NoNextMonth)
    } else {
        Ok(
            (
                Ymd { year, month: month.number(), day: 1 },
                Ymd { year, month: month.number(), day: days_in_month(year, month.number()) },
            ),
        )
    }
}

/// The first and the last day of the given month. The last day is found as
/// the day before the first day of the next month, so the last month of the
/// last year has none.
pub fn month_days(year: i32, month: Month) -> (days: Result<(Date, Date), DateError>)
    ensures
        days is Ok <==> month_bounds(year as int, month) is Ok,
        days matches Ok(d) ==> month_bounds(year as int, month) == Ok::<(Ymd, Ymd), DateError>(
            (d.0@, d.1@),
        ),
        days matches Err(e) ==> month_bounds(year as int, month) == Err::<(Ymd, Ymd), DateError>(
            e,
        ),
{
    let first = match chrono_date(year, month.number_from_month(), 1) {
        Some(first) => first,
        None => { return Err(DateError::YearOutOfRange); },
    };
    let next = match chrono_next_month(&first) {
        Some(next) => next,
        None => { return Err(DateError::NoNextMonth); },
    };
    match chrono_previous_day(&next) {
        Some(last) => Ok((first, last)),
        None => Err(DateError::NoNextMonth),
    }
}

/// Why a text names no month.
#[derive(Clone, Copy, Debug, PartialEq, Eq, Structural)]
pub enum MonthError {
    /// The text is neither a month's name nor a number below 256.
    NotAMonth,
    /// The text is a number, but not one of 1 to 12.
    OutOfRange,
}

/// The month that `text` names: by its English name, long or short, in any
/// mix of upper and lower case; or else by its number, 1 to 12.
pub open spec fn month_of_text(text: Seq<char>) -> Result<Month, MonthError> {
    match month_number_named(text) {
        Some(n) => Ok(Month::numbered(n as int)->0),
        None => match crate::text::parsed_u8(text) {
            Some(n) => match Month::numbered(n as int) {
                Some(month) => Ok(month),
                None => Err(MonthError::OutOfRange),
            },
            None => Err(MonthError::NotAMonth),
        },
    }
}

/// Reads a month from its English name or from its number.
pub fn try_into_month(input: &str) -> (month: Result<Month, MonthError>)
    ensures
        month == month_of_text(input@),
{
    match chrono_month_number(input) {
        Some(n) => match Month::from_number(n) {
            Some(month) => Ok(month),
            None => Err(MonthError::NotAMonth),
        },
        None => match crate::text::parse_u8(input) {
            Some(n) => match Month::from_number(n as u32) {
                Some(month) => Ok(month),
                None => Err(MonthError::OutOfRange),
            },
            None => Err(MonthError::NotAMonth),
        },
    }
}

} // verus!
