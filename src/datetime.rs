//! Packed `YYYYMMDD` dates and `HHMMSS` times, as the vendor's accessors return them.
use chrono::{NaiveDate, NaiveTime};
use vstd::prelude::*;

verus! {

/// A day of the proleptic Gregorian calendar.
#[derive(Debug, Clone, Copy, PartialEq, Eq, Structural)]
pub struct CalendarDate {
    pub year: i32,
    pub month: u32,
    pub day: u32,
}

/// A time of day. `second` is 60 only for a leap second.
#[derive(Debug, Clone, Copy, PartialEq, Eq, Structural)]
pub struct TimeOfDay {
    pub hour: u32,
    pub minute: u32,
    pub second: u32,
}

/// The date that stands in for one that could not be read: 1970-01-01.
pub open spec fn default_date() -> CalendarDate {
    CalendarDate { year: 1970, month: 1, day: 1 }
}

/// The time that stands in for one that could not be read: 00:00:00.
pub open spec fn default_time() -> TimeOfDay {
    TimeOfDay { hour: 0, minute: 0, second: 0 }
}

impl Default for CalendarDate {
    fn default() -> (r: CalendarDate)
        ensures
            r == default_date(),
    {
        CalendarDate { year: 1970, month: 1, day: 1 }
    }
}

impl Default for TimeOfDay {
    fn default() -> (r: TimeOfDay)
        ensures
            r == default_time(),
    {
        TimeOfDay { hour: 0, minute: 0, second: 0 }
    }
}

/// Why a packed date or time could not be read.
#[derive(Debug, Clone, Copy, PartialEq, Eq, Structural)]
pub enum DateTimeError {
    /// The packed date is zero or negative.
    InvalidDate,
    /// The packed time is zero or negative.
    InvalidTime,
    /// The digits do not make a date (or a time).
    ParseError,
}

pub open spec fn is_leap_year(y: int) -> bool {
    (y % 4 == 0 && y % 100 != 0) || y % 400 == 0
}

pub open spec fn days_in_month(y: int, m: int) -> int {
    if m == 2 {
        if is_leap_year(y) {
            29
        } else {
            28
        }
    } else if m == 4 || m == 6 || m == 9 || m == 11 {
        30
    } else {
        31
    }
}

/// The day `y-m-d` exists in the proleptic Gregorian calendar.
pub open spec fn is_calendar_date(y: int, m: int, d: int) -> bool {
    1 <= m <= 12 && 1 <= d <= days_in_month(y, m)
}

/// Relies on chrono's `NaiveDate::from_ymd_opt`: `Some` exactly for a day that
/// exists in the proleptic Gregorian calendar and lies in chrono's range of
/// years, which holds every year from 0 to 9999.
#[verifier::external_body]
fn calendar_date_exists(year: i32, month: u32, day: u32) -> (r: bool)
    requires
        0 <= year <= 9999,
    ensures
        r == is_calendar_date(year as int, month as int, day as int),
{
    NaiveDate::from_ymd_opt(year, month, day).is_some()
}

/// Relies on chrono's `NaiveTime::from_hms_nano_opt`: `Some` exactly when hour,
/// minute and second are in range and the fraction is under one second, or
/// under two seconds at second 59, which is how chrono holds a leap second.
#[verifier::external_body]
fn time_of_day_exists(hour: u32, minute: u32, second: u32, nano: u32) -> (r: bool)
    ensures
        r == (hour < 24 && minute < 60 && second < 60 && (nano < 1_000_000_000 || (second == 59
            && nano < 2_000_000_000))),
{
    NaiveTime::from_hms_nano_opt(hour, minute, second, nano).is_some()
}

/// The date that a packed `YYYYMMDD` value stands for: at most eight digits
/// once padded with zeros, and a day that exists.
pub open spec fn packed_date(v: int) -> Option<CalendarDate> {
    let (y, m, d) = (v / 10000, v / 100 % 100, v % 100);
    if 0 < v <= 99_999_999 && is_calendar_date(y, m, d) {
        Some(CalendarDate { year: y as i32, month: m as u32, day: d as u32 })
    } else {
        None
    }
}

/// The time that a packed `HHMMSS` value stands for: at most six digits once
/// padded with zeros, an hour under 24, a minute under 60, and a second up
/// to 60 (a leap second).
pub open spec fn packed_time(v: int) -> Option<TimeOfDay> {
    let (h, m, s) = (v / 10000, v / 100 % 100, v % 100);
    if 0 < v <= 999_999 && h < 24 && m < 60 && s <= 60 {
        Some(TimeOfDay { hour: h as u32, minute: m as u32, second: s as u32 })
    } else {
        None
    }
}

/// Reads a packed `YYYYMMDD` date. Zero and negative values are
/// `InvalidDate`; other values that do not make a date are `ParseError`.
pub fn format_date(date: i32) -> (r: Result<CalendarDate, DateTimeError>)
    ensures
        date <= 0 ==> r == Err::<CalendarDate, DateTimeError>(DateTimeError::InvalidDate),
        date > 0 && packed_date(date as int) is Some ==> r == Ok::<CalendarDate, DateTimeError>(
            packed_date(date as int)->Some_0,
        ),
        date > 0 && packed_date(date as int) is None ==> r == Err::<CalendarDate, DateTimeError>(
            DateTimeError::ParseError,
        ),
{
    if date <= 0 {
        return Err(DateTimeError::InvalidDate);
    }
    if date > 99_999_999 {
        return Err(DateTimeError::ParseError);
    }
    let year = date / 10000;
    let month = (date / 100 % 100) as u32;
    let day = (date % 100) as u32;
    if calendar_date_exists(year, month, day) {
        Ok(CalendarDate { year, month, day })
    } else {
        Err(DateTimeError::ParseError)
    }
}

/// Reads a packed `HHMMSS` time. Zero and negative values are
/// `InvalidTime`; other values that do not make a time are `ParseError`.
pub fn format_time(time: i32) -> (r: Result<TimeOfDay, DateTimeError>)
    ensures
        time <= 0 ==> r == Err::<TimeOfDay, DateTimeError>(DateTimeError::InvalidTime),
        time > 0 && packed_time(time as int) is Some ==> r == Ok::<TimeOfDay, DateTimeError>(
            packed_time(time as int)->Some_0,
        ),
        time > 0 && packed_time(time as int) is None ==> r == Err::<TimeOfDay, DateTimeError>(
            DateTimeError::ParseError,
        ),
{
    if time <= 0 {
        return Err(DateTimeError::InvalidTime);
    }
    if time > 999_999 {
        return Err(DateTimeError::ParseError);
    }
    let hour = (time / 10000) as u32;
    let minute = (time / 100 % 100) as u32;
    let second = (time % 100) as u32;
    let exists = if second == 60 {
        time_of_day_exists(hour, minute, 59, 1_000_000_000)
    } else {
        time_of_day_exists(hour, minute, second, 0)
    };
    if exists {
        Ok(TimeOfDay { hour, minute, second })
    } else {
        Err(DateTimeError::ParseError)
    }
}

/// The packed date, or the default date when it cannot be read.
pub open spec fn date_or_default(v: int) -> CalendarDate {
    match packed_date(v) {
        Some(d) => d,
        None => default_date(),
    }
}

/// The packed time, or the default time when it cannot be read.
pub open spec fn time_or_default(v: int) -> TimeOfDay {
    match packed_time(v) {
        Some(t) => t,
        None => default_time(),
    }
}

} // verus!
