//! Dates and times as the user types and reads them (`dd.mm.yyyy`, `hh:mm`),
//! and the shifts that the date and time inputs offer.

use vstd::prelude::*;
use crate::text::{
    all_digits, digits_value, i32_from_text, lemma_split_nonempty, parse_i32, parse_u8, replace_char,
    replace_chars, split_chars, split_seq, str_chars, u8_from_text,
};

verus! {

/// A calendar date of the proleptic Gregorian calendar.
#[derive(Clone, Copy, Debug, PartialEq, Eq, Structural)]
pub struct Date {
    pub year: i32,
    /// 1 = January .. 12 = December.
    pub month: u8,
    pub day: u8,
}

/// A time of day, to the second.
#[derive(Clone, Copy, Debug, PartialEq, Eq, Structural)]
pub struct Time {
    pub hour: u8,
    pub minute: u8,
    pub second: u8,
}

/// A date and a time of day without an offset from UTC.
#[derive(Clone, Copy, Debug, PartialEq, Eq, Structural)]
pub struct DateTime {
    pub date: Date,
    pub time: Time,
}

/// A date and a time of day, local to an offset from UTC.
#[derive(Clone, Copy, Debug, PartialEq, Eq, Structural)]
pub struct OffsetDateTime {
    pub date: Date,
    pub time: Time,
    /// Seconds east of UTC.
    pub offset: i32,
}

/// Why a text is not a date or a time.
#[derive(Clone, Copy, Debug, PartialEq, Eq, Structural)]
pub enum DateTimeError {
    /// The date is not three numbers separated by `.` or `/`.
    DateFormat,
    /// The day is not a number from 0 to 255.
    DayNotNumber,
    /// The month is not a number from 0 to 255.
    MonthNotNumber,
    /// The year is not a 32-bit number.
    YearNotNumber,
    /// The numbers do not name a day of the calendar.
    DateOutOfRange,
    /// The time is not two numbers separated by `:`.
    TimeFormat,
    /// The hour is not a number from 0 to 255.
    HourNotNumber,
    /// The minute is not a number from 0 to 255.
    MinuteNotNumber,
    /// The numbers do not name a time of day.
    TimeOutOfRange,
    /// The text is not a date and a time separated by one space.
    DateTimeFormat,
}

/// The first and the last year that dates may have.
pub open spec fn min_year() -> int { -9999 }

pub open spec fn max_year() -> int { 9999 }

/// Leap years of the Gregorian calendar.
pub open spec fn is_leap_year(year: int) -> bool {
    (year % 4 == 0 && year % 100 != 0) || year % 400 == 0
}

/// The number of days of a month (1..=12) in a year.
pub open spec fn days_in_month(month: int, year: int) -> int {
    if month == 2 {
        if is_leap_year(year) { 29 } else { 28 }
    } else if month == 4 || month == 6 || month == 9 || month == 11 {
        30
    } else {
        31
    }
}

/// True when the numbers name a day of the calendar in the supported range.
pub open spec fn valid_date(year: int, month: int, day: int) -> bool {
    &&& min_year() <= year <= max_year()
    &&& 1 <= month <= 12
    &&& 1 <= day <= days_in_month(month, year)
}

/// The days of a year before the first day of `month`.
pub open spec fn days_before_month(month: int, year: int) -> int {
    let common: int = if month <= 1 { 0 } else if month == 2 { 31 } else if month == 3 { 59 } else if month == 4 { 90 }
        else if month == 5 { 120 } else if month == 6 { 151 } else if month == 7 { 181 } else if month == 8 { 212 }
        else if month == 9 { 243 } else if month == 10 { 273 } else if month == 11 { 304 } else { 334 };
    if month > 2 && is_leap_year(year) { common + 1 } else { common }
}

/// The number of a day of the Gregorian calendar: 1 for 1 January of year
/// 1, one more for each day after (and less for each day before).
pub open spec fn day_number(d: Date) -> int {
    let y = d.year - 1;
    365 * y + y / 4 - y / 100 + y / 400 + days_before_month(d.month as int, d.year as int) + d.day
}

/// The seconds of a date and time on its local clock, counted from the
/// start of day 0 of [`day_number`].
pub open spec fn local_seconds(v: OffsetDateTime) -> int {
    day_number(v.date) * 86400 + v.time.seconds_of_day()
}

/// The instant of a date and time, in seconds from a fixed instant: its
/// local seconds less its offset.
pub open spec fn instant_seconds(v: OffsetDateTime) -> int {
    local_seconds(v) - v.offset
}

/// The whole days of a duration of `seconds` seconds, rounded toward zero.
pub open spec fn whole_days(seconds: int) -> int {
    if seconds >= 0 { seconds / 86400 } else { -((-seconds) / 86400) }
}

/// The day after a valid date has the next day number: within a month, at
/// the end of a month and at the end of a year.
pub proof fn lemma_day_number_steps_by_one(d: Date)
    requires
        d.wf(),
    ensures
        d.day < days_in_month(d.month as int, d.year as int) ==>
            day_number(Date { day: (d.day + 1) as u8, ..d }) == day_number(d) + 1,
        d.day == days_in_month(d.month as int, d.year as int) && d.month < 12 ==>
            day_number(Date { month: (d.month + 1) as u8, day: 1, ..d }) == day_number(d) + 1,
        d.day == 31 && d.month == 12 && d.year < max_year() ==>
            day_number(Date { year: (d.year + 1) as i32, month: 1, day: 1 }) == day_number(d) + 1,
{
    let y = d.year - 1;
    let z = d.year as int;
    assert(z / 4 - y / 4 == (if z % 4 == 0 { 1int } else { 0 })) by (nonlinear_arith)
        requires y == z - 1;
    assert(z / 100 - y / 100 == (if z % 100 == 0 { 1int } else { 0 })) by (nonlinear_arith)
        requires y == z - 1;
    assert(z / 400 - y / 400 == (if z % 400 == 0 { 1int } else { 0 })) by (nonlinear_arith)
        requires y == z - 1;
}

/// True when the numbers name a time of day.
pub open spec fn valid_time(hour: int, minute: int, second: int) -> bool {
    hour < 24 && minute < 60 && second < 60
}

/// True for the offsets from UTC that are supported: less than 26 hours
/// either way.
pub open spec fn valid_offset(offset: int) -> bool {
    -93599 <= offset <= 93599
}

impl Date {
    pub open spec fn wf(self) -> bool {
        valid_date(self.year as int, self.month as int, self.day as int)
    }
}

impl Time {
    pub open spec fn wf(self) -> bool {
        valid_time(self.hour as int, self.minute as int, self.second as int)
    }

    /// Seconds since midnight.
    pub open spec fn seconds_of_day(self) -> int {
        self.hour as int * 3600 + self.minute as int * 60 + self.second as int
    }
}

impl DateTime {
    pub open spec fn wf(self) -> bool {
        self.date.wf() && self.time.wf()
    }
}

impl OffsetDateTime {
    pub open spec fn wf(self) -> bool {
        self.date.wf() && self.time.wf() && valid_offset(self.offset as int)
    }
}

/// The character of a decimal digit.
pub open spec fn digit_char(n: int) -> char {
    if n <= 0 { '0' } else if n == 1 { '1' } else if n == 2 { '2' } else if n == 3 { '3' }
    else if n == 4 { '4' } else if n == 5 { '5' } else if n == 6 { '6' } else if n == 7 { '7' }
    else if n == 8 { '8' } else { '9' }
}

/// The digit characters stand for their numbers.
pub proof fn lemma_digit_char(n: int)
    requires
        0 <= n <= 9,
    ensures
        crate::text::is_digit(digit_char(n)),
        crate::text::digit_value(digit_char(n)) == n,
        digit_char(n) != '.' && digit_char(n) != '/' && digit_char(n) != ':' && digit_char(n) != ' ',
        digit_char(n) != '+' && digit_char(n) != '-',
{
}

/// `n` (0..=99) as two digits.
pub open spec fn two_digits(n: int) -> Seq<char> {
    seq![digit_char(n / 10), digit_char(n % 10)]
}

/// `n` (0..=9999) as four digits.
pub open spec fn four_digits(n: int) -> Seq<char> {
    seq![digit_char(n / 1000), digit_char((n / 100) % 10), digit_char((n / 10) % 10), digit_char(n % 10)]
}

/// A year as four digits, after a `-` when it is negative.
pub open spec fn year_text(year: int) -> Seq<char> {
    if year < 0 { seq!['-'] + four_digits(-year) } else { four_digits(year) }
}

/// A date as `dd.mm.yyyy`.
pub open spec fn date_text(d: Date) -> Seq<char> {
    two_digits(d.day as int) + seq!['.'] + two_digits(d.month as int) + seq!['.'] + year_text(d.year as int)
}

/// A time as `hh:mm`.
pub open spec fn time_text(t: Time) -> Seq<char> {
    two_digits(t.hour as int) + seq![':'] + two_digits(t.minute as int)
}

/// A date and time as `dd.mm.yyyy hh:mm`.
pub open spec fn date_time_text(dt: DateTime) -> Seq<char> {
    date_text(dt.date) + seq![' '] + time_text(dt.time)
}

/// The description of the date format, in the format-description language
/// of the `time` crate.
pub const DATE_FORMAT: &'static str = "[day].[month].[year]";

/// The description of the time format.
pub const TIME_FORMAT: &'static str = "[hour]:[minute]";

/// The description of the date-and-time format.
pub const DATE_TIME_FORMAT: &'static str = "[day].[month].[year] [hour]:[minute]";

// ---------------------------------------------------------------------------
// Calls into the `time` crate
// ---------------------------------------------------------------------------

/// What `time::Date::checked_add` gives for `date` and a duration of
/// `seconds` seconds.
pub uninterp spec fn date_plus(date: Date, seconds: i64) -> Option<Date>;

/// What `time::Date::checked_sub` gives for `date` and a duration of
/// `seconds` seconds.
pub uninterp spec fn date_minus(date: Date, seconds: i64) -> Option<Date>;

/// What `time::OffsetDateTime::checked_add` gives for `value` and a duration
/// of `seconds` seconds.
pub uninterp spec fn offset_date_time_plus(value: OffsetDateTime, seconds: i64) -> Option<OffsetDateTime>;

/// What `time::OffsetDateTime::checked_sub` gives for `value` and a duration
/// of `seconds` seconds.
pub uninterp spec fn offset_date_time_minus(value: OffsetDateTime, seconds: i64) -> Option<OffsetDateTime>;

/// `time::Date::from_calendar_date` (with `time::Month::try_from` for the
/// month number). The contract claims that it accepts exactly the valid
/// dates of years -9999..=9999 (the crate is built without `large-dates`)
/// and then holds the numbers it was given.
#[verifier::external_body]
pub(crate) fn calendar_date(year: i32, month: u8, day: u8) -> (r: Option<Date>)
    ensures
        r == (if valid_date(year as int, month as int, day as int) {
            Some(Date { year, month, day })
        } else {
            None
        }),
{
    let m = time::Month::try_from(month).ok()?;
    let d = time::Date::from_calendar_date(year, m, day).ok()?;
    Some(Date { year: d.year(), month: d.month().into(), day: d.day() })
}

/// `time::Time::from_hms`. The contract claims that it accepts exactly hours
/// below 24, minutes and seconds below 60.
#[verifier::external_body]
pub(crate) fn time_of_day(hour: u8, minute: u8, second: u8) -> (r: Option<Time>)
    ensures
        r == (if valid_time(hour as int, minute as int, second as int) {
            Some(Time { hour, minute, second })
        } else {
            None
        }),
{
    let t = time::Time::from_hms(hour, minute, second).ok()?;
    Some(Time { hour: t.hour(), minute: t.minute(), second: t.second() })
}

/// `time::util::days_in_month`. The contract claims the length of the month
/// in the Gregorian calendar.
#[verifier::external_body]
pub(crate) fn month_length(month: u8, year: i32) -> (r: u8)
    requires
        1 <= month <= 12,
        min_year() <= year <= max_year(),
    ensures
        r as int == days_in_month(month as int, year as int),
{
    time::util::days_in_month(time::Month::try_from(month).unwrap(), year)
}

/// `time::Date::checked_add` with a duration of `seconds` seconds. The
/// contract names the result and claims that a date it gives is valid and
/// lies the whole days of the duration (rounded toward zero) after `date`.
#[verifier::external_body]
pub(crate) fn date_checked_add(date: Date, seconds: i64) -> (r: Option<Date>)
    requires
        date.wf(),
    ensures
        r == date_plus(date, seconds),
        r matches Some(d) ==> d.wf(),
        r matches Some(d) ==> day_number(d) == day_number(date) + whole_days(seconds as int),
{
    let from = time::Date::from_calendar_date(date.year, time::Month::try_from(date.month).ok()?, date.day).ok()?;
    let d = from.checked_add(time::Duration::seconds(seconds))?;
    Some(Date { year: d.year(), month: d.month().into(), day: d.day() })
}

/// `time::Date::checked_sub` with a duration of `seconds` seconds. The
/// contract names the result and claims that a date it gives is valid and
/// lies the whole days of the duration (rounded toward zero) before `date`.
#[verifier::external_body]
pub(crate) fn date_checked_sub(date: Date, seconds: i64) -> (r: Option<Date>)
    requires
        date.wf(),
    ensures
        r == date_minus(date, seconds),
        r matches Some(d) ==> d.wf(),
        r matches Some(d) ==> day_number(d) == day_number(date) - whole_days(seconds as int),
{
    let from = time::Date::from_calendar_date(date.year, time::Month::try_from(date.month).ok()?, date.day).ok()?;
    let d = from.checked_sub(time::Duration::seconds(seconds))?;
    Some(Date { year: d.year(), month: d.month().into(), day: d.day() })
}

/// `time::OffsetDateTime::checked_add` with a duration of `seconds`
/// seconds. The contract names the result and claims that a value it gives
/// is well formed, keeps the offset and is the instant `seconds` seconds
/// after `value` (the crate adds the duration to the local date and time).
#[verifier::external_body]
pub(crate) fn offset_date_time_checked_add(value: OffsetDateTime, seconds: i64) -> (r: Option<OffsetDateTime>)
    requires
        value.wf(),
    ensures
        r == offset_date_time_plus(value, seconds),
        r matches Some(v) ==> v.wf() && v.offset == value.offset,
        r matches Some(v) ==> instant_seconds(v) == instant_seconds(value) + seconds,
{
    let date = time::Date::from_calendar_date(value.date.year, value.date.month.try_into().ok()?, value.date.day).ok()?;
    let t = time::Time::from_hms(value.time.hour, value.time.minute, value.time.second).ok()?;
    let offset = time::UtcOffset::from_whole_seconds(value.offset).ok()?;
    let v = time::OffsetDateTime::new_in_offset(date, t, offset).checked_add(time::Duration::seconds(seconds))?;
    let (year, month, day) = v.to_calendar_date();
    let (hour, minute, second) = v.to_hms();
    Some(OffsetDateTime {
        date: Date { year, month: month.into(), day },
        time: Time { hour, minute, second },
        offset: v.offset().whole_seconds(),
    })
}

/// `time::OffsetDateTime::checked_sub` with a duration of `seconds`
/// seconds. The contract names the result and claims that a value it gives
/// is well formed, keeps the offset and is the instant `seconds` seconds
/// before `value` (the crate subtracts the duration from the local date and
/// time).
#[verifier::external_body]
pub(crate) fn offset_date_time_checked_sub(value: OffsetDateTime, seconds: i64) -> (r: Option<OffsetDateTime>)
    requires
        value.wf(),
    ensures
        r == offset_date_time_minus(value, seconds),
        r matches Some(v) ==> v.wf() && v.offset == value.offset,
        r matches Some(v) ==> instant_seconds(v) == instant_seconds(value) - seconds,
{
    let date = time::Date::from_calendar_date(value.date.year, value.date.month.try_into().ok()?, value.date.day).ok()?;
    let t = time::Time::from_hms(value.time.hour, value.time.minute, value.time.second).ok()?;
    let offset = time::UtcOffset::from_whole_seconds(value.offset).ok()?;
    let v = time::OffsetDateTime::new_in_offset(date, t, offset).checked_sub(time::Duration::seconds(seconds))?;
    let (year, month, day) = v.to_calendar_date();
    let (hour, minute, second) = v.to_hms();
    Some(OffsetDateTime {
        date: Date { year, month: month.into(), day },
        time: Time { hour, minute, second },
        offset: v.offset().whole_seconds(),
    })
}

/// `time::Time + time::Duration` with a duration of `seconds` seconds, which
/// the crate documents as adding the sub-day part and wrapping around
/// midnight. The contract claims the time of day `seconds` later, modulo a
/// day.
#[verifier::external_body]
pub(crate) fn time_wrapping_add(t: Time, seconds: i64) -> (r: Time)
    requires
        t.wf(),
    ensures
        r.wf(),
        r.seconds_of_day() == (t.seconds_of_day() + seconds) % 86400,
{
    let from = time::Time::from_hms(t.hour, t.minute, t.second).unwrap();
    let v = from + time::Duration::seconds(seconds);
    Time { hour: v.hour(), minute: v.minute(), second: v.second() }
}

/// `time::Date::format` with the format description `description` (parsed by
/// `time::format_description::parse`). The contract claims, for the
/// description `DATE_FORMAT`, two-digit day and month and a four-digit year
/// (after `-` when negative), as the crate's formatter writes them with its
/// default zero padding; of other descriptions it claims nothing.
#[verifier::external_body]
pub(crate) fn format_date(d: Date, description: &str) -> (r: Option<String>)
    requires
        d.wf(),
    ensures
        description@ == DATE_FORMAT@ ==> r is Some && r.unwrap()@ == date_text(d),
{
    let from = time::Date::from_calendar_date(d.year, time::Month::try_from(d.month).ok()?, d.day).ok()?;
    let items = time::format_description::parse(description).ok()?;
    from.format(&items).ok()
}

/// `time::Time::format` with the format description `description`. The
/// contract claims, for `TIME_FORMAT`, two-digit hour and minute.
#[verifier::external_body]
pub(crate) fn format_time(t: Time, description: &str) -> (r: Option<String>)
    requires
        t.wf(),
    ensures
        description@ == TIME_FORMAT@ ==> r is Some && r.unwrap()@ == time_text(t),
{
    let from = time::Time::from_hms(t.hour, t.minute, t.second).ok()?;
    let items = time::format_description::parse(description).ok()?;
    from.format(&items).ok()
}

/// `time::PrimitiveDateTime::format` with the format description
/// `description`. The contract claims, for `DATE_TIME_FORMAT`, the date as
/// `format_date` writes it, a space and the time as `format_time` writes it.
#[verifier::external_body]
pub(crate) fn format_date_time(dt: DateTime, description: &str) -> (r: Option<String>)
    requires
        dt.wf(),
    ensures
        description@ == DATE_TIME_FORMAT@ ==> r is Some && r.unwrap()@ == date_time_text(dt),
{
    let date = time::Date::from_calendar_date(dt.date.year, time::Month::try_from(dt.date.month).ok()?, dt.date.day).ok()?;
    let t = time::Time::from_hms(dt.time.hour, dt.time.minute, dt.time.second).ok()?;
    let items = time::format_description::parse(description).ok()?;
    time::PrimitiveDateTime::new(date, t).format(&items).ok()
}

// ---------------------------------------------------------------------------
// Reading dates and times
// ---------------------------------------------------------------------------

/// The year, month and day numbers of a date text `dd.mm.yyyy`: three
/// numbers separated by `.` or `/`, the day first in the text.
pub open spec fn date_numbers(s: Seq<char>) -> Result<(i32, u8, u8), DateTimeError> {
    let parts = split_seq(replace_char(s, '/', '.'), '.');
    if parts.len() != 3 {
        Err(DateTimeError::DateFormat)
    } else {
        match u8_from_text(parts[0]) {
            None => Err(DateTimeError::DayNotNumber),
            Some(day) => match u8_from_text(parts[1]) {
                None => Err(DateTimeError::MonthNotNumber),
                Some(month) => match i32_from_text(parts[2]) {
                    None => Err(DateTimeError::YearNotNumber),
                    Some(year) => Ok((year, month, day)),
                },
            },
        }
    }
}

/// The date that a text names.
pub open spec fn date_from_text(s: Seq<char>) -> Result<Date, DateTimeError> {
    match date_numbers(s) {
        Err(e) => Err(e),
        Ok((year, month, day)) => if valid_date(year as int, month as int, day as int) {
            Ok(Date { year, month, day })
        } else {
            Err(DateTimeError::DateOutOfRange)
        },
    }
}

/// The time that a text `hh:mm` names; its seconds are 0.
pub open spec fn time_from_text(s: Seq<char>) -> Result<Time, DateTimeError> {
    let parts = split_seq(s, ':');
    if parts.len() != 2 {
        Err(DateTimeError::TimeFormat)
    } else {
        match u8_from_text(parts[0]) {
            None => Err(DateTimeError::HourNotNumber),
            Some(hour) => match u8_from_text(parts[1]) {
                None => Err(DateTimeError::MinuteNotNumber),
                Some(minute) => if valid_time(hour as int, minute as int, 0) {
                    Ok(Time { hour, minute, second: 0 })
                } else {
                    Err(DateTimeError::TimeOutOfRange)
                },
            },
        }
    }
}

/// The date and time that a text `dd.mm.yyyy hh:mm` names, at the given
/// offset from UTC. The date is checked before the time.
pub open spec fn date_time_from_text(s: Seq<char>, offset: i32) -> Result<OffsetDateTime, DateTimeError> {
    let parts = split_seq(s, ' ');
    if parts.len() != 2 {
        Err(DateTimeError::DateTimeFormat)
    } else {
        match date_from_text(parts[0]) {
            Err(e) => Err(e),
            Ok(date) => match time_from_text(parts[1]) {
                Err(e) => Err(e),
                Ok(time) => Ok(OffsetDateTime { date, time, offset }),
            },
        }
    }
}

/// Reads the year, month and day numbers of a date text.
fn parse_date_numbers(s: &Vec<char>) -> (r: Result<(i32, u8, u8), DateTimeError>)
    ensures
        r == date_numbers(s@),
{
    let replaced = replace_chars(s, '/', '.');
    let parts = split_chars(&replaced, '.');
    if parts.len() != 3 {
        return Err(DateTimeError::DateFormat);
    }
    let day = match parse_u8(&parts[0]) {
        Some(v) => v,
        None => return Err(DateTimeError::DayNotNumber),
    };
    let month = match parse_u8(&parts[1]) {
        Some(v) => v,
        None => return Err(DateTimeError::MonthNotNumber),
    };
    let year = match parse_i32(&parts[2]) {
        Some(v) => v,
        None => return Err(DateTimeError::YearNotNumber),
    };
    Ok((year, month, day))
}

/// Reads a date text (`dd.mm.yyyy`, where `/` may stand for `.`) and returns
/// its year, month and day.
pub fn parse_date_str_numbers(date_str: &str) -> (r: Result<(i32, u8, u8), DateTimeError>)
    ensures
        r == date_numbers(date_str@),
{
    parse_date_numbers(&str_chars(date_str))
}

/// Reads a date from its characters.
fn parse_date_chars(s: &Vec<char>) -> (r: Result<Date, DateTimeError>)
    ensures
        r == date_from_text(s@),
{
    let (year, month, day) = match parse_date_numbers(s) {
        Ok(n) => n,
        Err(e) => return Err(e),
    };
    match calendar_date(year, month, day) {
        Some(d) => Ok(d),
        None => Err(DateTimeError::DateOutOfRange),
    }
}

/// Reads a time from its characters.
fn parse_time_chars(s: &Vec<char>) -> (r: Result<Time, DateTimeError>)
    ensures
        r == time_from_text(s@),
{
    let parts = split_chars(s, ':');
    if parts.len() != 2 {
        return Err(DateTimeError::TimeFormat);
    }
    let hour = match parse_u8(&parts[0]) {
        Some(v) => v,
        None => return Err(DateTimeError::HourNotNumber),
    };
    let minute = match parse_u8(&parts[1]) {
        Some(v) => v,
        None => return Err(DateTimeError::MinuteNotNumber),
    };
    match time_of_day(hour, minute, 0) {
        Some(t) => Ok(t),
        None => Err(DateTimeError::TimeOutOfRange),
    }
}

/// Reads a time of day `hh:mm`.
pub fn parse_time_str(time_str: &str) -> (r: Result<Time, DateTimeError>)
    ensures
        r == time_from_text(time_str@),
        r matches Ok(t) ==> t.wf(),
{
    parse_time_chars(&str_chars(time_str))
}

/// Reads a date `dd.mm.yyyy`.
pub fn parse_date_str(date: &str) -> (r: Result<Date, DateTimeError>)
    ensures
        r == date_from_text(date@),
        r matches Ok(d) ==> d.wf(),
{
    parse_date_chars(&str_chars(date))
}

/// Reads a date `dd.mm.yyyy` and `dd.mm.yyyy hh:mm` at the offset
/// `utc_offset` (seconds east of UTC).
pub fn parse_date_time_str(date_time_str: &str, utc_offset: i32) -> (r: Result<OffsetDateTime, DateTimeError>)
    ensures
        r == date_time_from_text(date_time_str@, utc_offset),
        r matches Ok(v) ==> v.date.wf() && v.time.wf(),
{
    let chars = str_chars(date_time_str);
    let parts = split_chars(&chars, ' ');
    if parts.len() != 2 {
        return Err(DateTimeError::DateTimeFormat);
    }
    let date = match parse_date_chars(&parts[0]) {
        Ok(d) => d,
        Err(e) => return Err(e),
    };
    let time = match parse_time_chars(&parts[1]) {
        Ok(t) => t,
        Err(e) => return Err(e),
    };
    Ok(OffsetDateTime { date, time, offset: utc_offset })
}

/// Reads a date `dd.mm.yyyy` and gives it the time `hour:minute:second` at
/// the offset `utc_offset`.
pub fn parse_date_str_at(date: &str, hour: u8, minute: u8, second: u8, utc_offset: i32) -> (r: Result<OffsetDateTime, DateTimeError>)
    ensures
        r == (match date_from_text(date@) {
            Err(e) => Err(e),
            Ok(d) => if valid_time(hour as int, minute as int, second as int) {
                Ok(OffsetDateTime { date: d, time: Time { hour, minute, second }, offset: utc_offset })
            } else {
                Err(DateTimeError::TimeOutOfRange)
            },
        }),
{
    let d = match parse_date_str(date) {
        Ok(d) => d,
        Err(e) => return Err(e),
    };
    match time_of_day(hour, minute, second) {
        Some(t) => Ok(OffsetDateTime { date: d, time: t, offset: utc_offset }),
        None => Err(DateTimeError::TimeOutOfRange),
    }
}

// ---------------------------------------------------------------------------
// Writing dates and times
// ---------------------------------------------------------------------------

/// A date as `dd.mm.yyyy`.
pub fn to_date_string(date: Date) -> (r: String)
    requires
        date.wf(),
    ensures
        r@ == date_text(date),
{
    match format_date(date, DATE_FORMAT) {
        Some(s) => s,
        None => String::new(),
    }
}

/// A time as `hh:mm`.
pub fn to_time_string(t: Time) -> (r: String)
    requires
        t.wf(),
    ensures
        r@ == time_text(t),
{
    match format_time(t, TIME_FORMAT) {
        Some(s) => s,
        None => String::new(),
    }
}

/// A date and time as `dd.mm.yyyy hh:mm`.
pub fn to_date_time_string(date_time: DateTime) -> (r: String)
    requires
        date_time.wf(),
    ensures
        r@ == date_time_text(date_time),
{
    match format_date_time(date_time, DATE_TIME_FORMAT) {
        Some(s) => s,
        None => String::new(),
    }
}

/// The date and time of an offset date and time, without the offset.
pub fn offset_to_primitive(value: OffsetDateTime) -> (r: DateTime)
    ensures
        r == (DateTime { date: value.date, time: value.time }),
{
    DateTime { date: value.date, time: value.time }
}

/// A date and time placed at the offset `offset` (seconds east of UTC).
pub fn primitive_to_offset(value: DateTime, offset: i32) -> (r: OffsetDateTime)
    ensures
        r == (OffsetDateTime { date: value.date, time: value.time, offset }),
{
    OffsetDateTime { date: value.date, time: value.time, offset }
}

/// A span of dates; either end may be open.
#[derive(Clone, Copy, Debug, PartialEq, Eq, Structural)]
pub struct DateSpan {
    pub start: Option<Date>,
    pub end: Option<Date>,
}

/// A span of instants; either end may be open.
#[derive(Clone, Copy, Debug, PartialEq, Eq, Structural)]
pub struct Timespan {
    pub start: Option<OffsetDateTime>,
    pub end: Option<OffsetDateTime>,
}

impl DateSpan {
    /// True when the dates of the span are valid.
    pub open spec fn wf(self) -> bool {
        (self.start matches Some(d) ==> d.wf()) && (self.end matches Some(d) ==> d.wf())
    }
}

/// The dates of the ends of a span of instants.
pub fn time_span_to_date_span(value: Timespan) -> (r: DateSpan)
    ensures
        r.start == (match value.start { Some(v) => Some(v.date), None => None }),
        r.end == (match value.end { Some(v) => Some(v.date), None => None }),
{
    DateSpan {
        start: match value.start { Some(v) => Some(v.date), None => None },
        end: match value.end { Some(v) => Some(v.date), None => None },
    }
}

/// The span of instants that a span of dates covers at `utc_offset`: from
/// 00:00:00 of the first day to 23:59:59 of the last.
pub fn date_span_to_time_span(value: DateSpan, utc_offset: i32) -> (r: Timespan)
    ensures
        r.start == (match value.start {
            Some(d) => Some(OffsetDateTime { date: d, time: Time { hour: 0, minute: 0, second: 0 }, offset: utc_offset }),
            None => None,
        }),
        r.end == (match value.end {
            Some(d) => Some(OffsetDateTime { date: d, time: Time { hour: 23, minute: 59, second: 59 }, offset: utc_offset }),
            None => None,
        }),
{
    let start = match value.start {
        Some(d) => match time_of_day(0, 0, 0) {
            Some(t) => Some(OffsetDateTime { date: d, time: t, offset: utc_offset }),
            None => None,
        },
        None => None,
    };
    let end = match value.end {
        Some(d) => match time_of_day(23, 59, 59) {
            Some(t) => Some(OffsetDateTime { date: d, time: t, offset: utc_offset }),
            None => None,
        },
        None => None,
    };
    Timespan { start, end }
}

// ---------------------------------------------------------------------------
// Shifts
// ---------------------------------------------------------------------------

/// A step by which a date or time input moves its value.
#[derive(Clone, Copy, Debug, PartialEq, Eq, Structural)]
pub enum Shift {
    /// A fixed duration, in seconds.
    Duration(i64),
    /// One calendar month.
    Month,
    /// One calendar year.
    Year,
}

/// The month after (or before) the month of `d`, with the year it falls in.
pub open spec fn next_month(d: Date, positive: bool) -> (int, int) {
    if positive {
        if d.month == 12 { (d.year + 1, 1) } else { (d.year as int, d.month + 1) }
    } else {
        if d.month == 1 { (d.year - 1, 12) } else { (d.year as int, d.month - 1) }
    }
}

/// Where a date shift leads; `None` where the date would leave the
/// supported range (or, for a year shift, where February 29 would fall in a
/// common year).
pub open spec fn date_shifted(d: Date, shift: Shift, positive: bool) -> Option<Date> {
    match shift {
        Shift::Duration(seconds) => if positive { date_plus(d, seconds) } else { date_minus(d, seconds) },
        Shift::Month => {
            let (year, month) = next_month(d, positive);
            if min_year() <= year <= max_year() {
                let dim = days_in_month(month, year);
                let day = if d.day as int <= dim { d.day as int } else { dim };
                Some(Date { year: year as i32, month: month as u8, day: day as u8 })
            } else {
                None
            }
        },
        Shift::Year => {
            let year = if positive { d.year + 1 } else { d.year - 1 };
            if valid_date(year, d.month as int, d.day as int) {
                Some(Date { year: year as i32, month: d.month, day: d.day })
            } else {
                None
            }
        },
    }
}

/// A month shift goes to the next calendar month (or the one before) and
/// keeps the day of the month when that month has it, else takes its last
/// day: for a valid date `d`, the shifted date is in the month after
/// (before) the month of `d`, with day `min(d.day, days of that month)`. It
/// is there exactly when that month lies in the supported years.
pub proof fn lemma_month_shift_keeps_day(d: Date, positive: bool)
    requires
        d.wf(),
    ensures
        ({
            let target_year: int = if positive && d.month == 12 { d.year + 1 } else if !positive && d.month == 1 { d.year - 1 } else { d.year as int };
            let target_month: int = if positive { if d.month == 12 { 1 } else { d.month + 1 } } else { if d.month == 1 { 12 } else { d.month - 1 } };
            &&& (date_shifted(d, Shift::Month, positive) is Some) == (min_year() <= target_year <= max_year())
            &&& date_shifted(d, Shift::Month, positive) matches Some(e) ==> {
                &&& e.wf()
                &&& e.year == target_year
                &&& e.month == target_month
                &&& d.day <= days_in_month(target_month, target_year) ==> e.day == d.day
                &&& d.day > days_in_month(target_month, target_year) ==> e.day == days_in_month(target_month, target_year)
            }
        }),
{
}

/// A year shift keeps the month and the day: for a valid date `d`, the
/// shifted date is the same day and month one year later (earlier), and it
/// is there exactly when that day exists in that year.
pub proof fn lemma_year_shift_keeps_day(d: Date, positive: bool)
    requires
        d.wf(),
    ensures
        ({
            let target_year: int = if positive { d.year + 1 } else { d.year - 1 };
            &&& (date_shifted(d, Shift::Year, positive) is Some)
                == (min_year() <= target_year <= max_year() && d.day <= days_in_month(d.month as int, target_year))
            &&& date_shifted(d, Shift::Year, positive) matches Some(e) ==>
                e.year == target_year && e.month == d.month && e.day == d.day
        }),
{
}

/// The date moved by `shift`, forward when `positive`; `None` where the
/// shift is not defined (see `date_shifted`).
pub fn try_apply_date_shift(date: Date, shift: Shift, positive: bool) -> (r: Option<Date>)
    requires
        date.wf(),
    ensures
        r == date_shifted(date, shift, positive),
        r matches Some(d) ==> d.wf(),
        shift matches Shift::Duration(s) ==> (r matches Some(d) ==>
            day_number(d) == day_number(date) + (if positive { whole_days(s as int) } else { -whole_days(s as int) })),
{
    match shift {
        Shift::Duration(seconds) => if positive {
            date_checked_add(date, seconds)
        } else {
            date_checked_sub(date, seconds)
        },
        Shift::Month => {
            let mut month = date.month;
            let mut year = date.year;
            if positive {
                if month == 12 {
                    if year == 9999 {
                        return None;
                    }
                    month = 1;
                    year = year + 1;
                } else {
                    month = month + 1;
                }
            } else if month == 1 {
                if year == -9999 {
                    return None;
                }
                month = 12;
                year = year - 1;
            } else {
                month = month - 1;
            }
            let dim = month_length(month, year);
            let day = if date.day <= dim { date.day } else { dim };
            let with_year = match replace_year(date, year) {
                Some(d) => d,
                None => return None,
            };
            let with_day = match replace_day(with_year, day) {
                Some(d) => d,
                None => return None,
            };
            replace_month(with_day, month)
        },
        Shift::Year => {
            let year = if positive { date.year + 1 } else { date.year - 1 };
            replace_year(date, year)
        },
    }
}

/// The date moved by `shift`, forward when `positive`.
pub fn apply_date_shift(date: Date, shift: Shift, positive: bool) -> (r: Date)
    requires
        date.wf(),
        date_shifted(date, shift, positive) is Some,
    ensures
        r == date_shifted(date, shift, positive).unwrap(),
        r.wf(),
        shift matches Shift::Duration(s) ==>
            day_number(r) == day_number(date) + (if positive { whole_days(s as int) } else { -whole_days(s as int) }),
{
    match try_apply_date_shift(date, shift, positive) {
        Some(d) => d,
        None => date,
    }
}

/// `date` in the year `year`, when that is a valid date (as
/// `time::Date::replace_year`).
pub fn replace_year(date: Date, year: i32) -> (r: Option<Date>)
    ensures
        r == (if valid_date(year as int, date.month as int, date.day as int) {
            Some(Date { year, ..date })
        } else {
            None
        }),
{
    calendar_date(year, date.month, date.day)
}

/// `date` in the month `month`, when that is a valid date (as
/// `time::Date::replace_month`).
pub fn replace_month(date: Date, month: u8) -> (r: Option<Date>)
    ensures
        r == (if valid_date(date.year as int, month as int, date.day as int) {
            Some(Date { month, ..date })
        } else {
            None
        }),
{
    calendar_date(date.year, month, date.day)
}

/// `date` on the day `day`, when that is a valid date (as
/// `time::Date::replace_day`).
pub fn replace_day(date: Date, day: u8) -> (r: Option<Date>)
    ensures
        r == (if valid_date(date.year as int, date.month as int, day as int) {
            Some(Date { day, ..date })
        } else {
            None
        }),
{
    calendar_date(date.year, date.month, day)
}

/// The number of the month `months` after the month of `value`, counted
/// from year 0: `year * 12 + (month - 1) + months`.
pub open spec fn month_index(value: OffsetDateTime, months: int) -> int {
    value.date.year * 12 + (value.date.month - 1) + months
}

/// True when `add_months` is defined: the day exists both in the old month
/// of the target year and in the target month.
pub open spec fn add_months_defined(value: OffsetDateTime, months: int) -> bool {
    let idx = month_index(value, months);
    &&& value.date.month + months <= i32::MAX
    &&& valid_date(idx / 12, value.date.month as int, value.date.day as int)
    &&& valid_date(idx / 12, idx % 12 + 1, value.date.day as int)
}

/// `value` moved by `months` calendar months; the day of the month stays.
pub fn add_months(date_time: OffsetDateTime, months: i32) -> (r: OffsetDateTime)
    requires
        date_time.date.wf(),
        add_months_defined(date_time, months as int),
    ensures
        ({
            let idx = month_index(date_time, months as int);
            r == (OffsetDateTime {
                date: Date { year: (idx / 12) as i32, month: (idx % 12 + 1) as u8, day: date_time.date.day },
                ..date_time
            })
        }),
{
    let ghost idx = month_index(date_time, months as int);
    let mut months: i32 = date_time.date.month as i32 + months;
    let mut year: i32 = date_time.date.year;
    while months > 12
        invariant
            year as int * 12 + months - 1 == idx,
            -9999 <= year <= 9999,
            valid_date(idx / 12, date_time.date.month as int, date_time.date.day as int),
        decreases months,
    {
        year = year + 1;
        months = months - 12;
    }
    while months <= 0
        invariant
            year as int * 12 + months - 1 == idx,
            months <= 12,
            -9999 <= year <= 9999,
            valid_date(idx / 12, date_time.date.month as int, date_time.date.day as int),
        decreases 12 - months,
    {
        year = year - 1;
        months = months + 12;
    }
    assert(year == idx / 12 && months - 1 == idx % 12);
    let with_year = match replace_year(date_time.date, year) {
        Some(d) => d,
        None => date_time.date,
    };
    let date = match replace_month(with_year, months as u8) {
        Some(d) => d,
        None => with_year,
    };
    OffsetDateTime { date, ..date_time }
}

/// Where a shift of a date and time leads; `None` where it is undefined (a
/// result out of range, or February 29 in a year without one).
pub open spec fn shifted(value: OffsetDateTime, shift: Shift, positive: bool) -> Option<OffsetDateTime> {
    match shift {
        Shift::Duration(seconds) => if positive {
            offset_date_time_plus(value, seconds)
        } else {
            offset_date_time_minus(value, seconds)
        },
        Shift::Month => {
            let months: int = if positive { 1 } else { -1 };
            if add_months_defined(value, months) {
                let idx = month_index(value, months);
                Some(OffsetDateTime {
                    date: Date { year: (idx / 12) as i32, month: (idx % 12 + 1) as u8, day: value.date.day },
                    ..value
                })
            } else {
                None
            }
        },
        Shift::Year => {
            let year = if positive { value.date.year + 1 } else { value.date.year - 1 };
            if valid_date(year, value.date.month as int, value.date.day as int) {
                Some(OffsetDateTime { date: Date { year: year as i32, ..value.date }, ..value })
            } else {
                None
            }
        },
    }
}

/// The date and time moved by `shift`, forward when `positive`; `None` where
/// the shift is not defined (see `shifted`).
pub fn try_apply_shift(date_time: OffsetDateTime, shift: Shift, positive: bool) -> (r: Option<OffsetDateTime>)
    requires
        date_time.wf(),
    ensures
        r == shifted(date_time, shift, positive),
        shift matches Shift::Duration(s) ==> (r matches Some(v) ==> v.offset == date_time.offset
            && instant_seconds(v) == instant_seconds(date_time) + (if positive { s as int } else { -s })),
{
    match shift {
        Shift::Duration(seconds) => if positive {
            offset_date_time_checked_add(date_time, seconds)
        } else {
            offset_date_time_checked_sub(date_time, seconds)
        },
        Shift::Month => {
            let months: i32 = if positive { 1 } else { -1 };
            let (year, month) = if positive {
                if date_time.date.month == 12 {
                    (date_time.date.year + 1, 1u8)
                } else {
                    (date_time.date.year, date_time.date.month + 1)
                }
            } else if date_time.date.month == 1 {
                (date_time.date.year - 1, 12u8)
            } else {
                (date_time.date.year, date_time.date.month - 1)
            };
            let ghost idx = month_index(date_time, months as int);
            assert(idx / 12 == year && idx % 12 + 1 == month);
            if calendar_date(year, date_time.date.month, date_time.date.day).is_none() {
                return None;
            }
            if calendar_date(year, month, date_time.date.day).is_none() {
                return None;
            }
            Some(add_months(date_time, months))
        },
        Shift::Year => {
            let year = if positive { date_time.date.year + 1 } else { date_time.date.year - 1 };
            match replace_year(date_time.date, year) {
                Some(d) => Some(OffsetDateTime { date: d, ..date_time }),
                None => None,
            }
        },
    }
}

/// The date and time moved by `shift`, forward when `positive`.
pub fn apply_shift(date_time: OffsetDateTime, shift: Shift, positive: bool) -> (r: OffsetDateTime)
    requires
        date_time.wf(),
        shifted(date_time, shift, positive) is Some,
    ensures
        r == shifted(date_time, shift, positive).unwrap(),
        shift matches Shift::Duration(s) ==> r.offset == date_time.offset
            && instant_seconds(r) == instant_seconds(date_time) + (if positive { s as int } else { -s }),
{
    match try_apply_shift(date_time, shift, positive) {
        Some(v) => v,
        None => date_time,
    }
}

/// A time of day moved by `shift`: a duration moves it around the clock;
/// month and year shifts leave the time of day as it is.
pub open spec fn time_shifted(t: Time, shift: Shift, positive: bool) -> int {
    match shift {
        Shift::Duration(seconds) => if positive {
            (t.seconds_of_day() + seconds) % 86400
        } else {
            (t.seconds_of_day() - seconds) % 86400
        },
        _ => t.seconds_of_day(),
    }
}

/// The time of day `s` seconds (0..86400) after midnight.
pub open spec fn time_at(s: int) -> Time {
    Time { hour: (s / 3600) as u8, minute: ((s % 3600) / 60) as u8, second: (s % 60) as u8 }
}

/// A well-formed time is the time at its own seconds of the day.
proof fn lemma_time_at(t: Time)
    requires
        t.wf(),
    ensures
        time_at(t.seconds_of_day()) == t,
{
}

/// The time of day moved by `shift`, forward when `positive`.
pub fn apply_time_shift(t: Time, shift: Shift, positive: bool) -> (r: Time)
    requires
        t.wf(),
        shift matches Shift::Duration(s) ==> s > i64::MIN,
    ensures
        r.wf(),
        r.seconds_of_day() == time_shifted(t, shift, positive),
        r == time_at(time_shifted(t, shift, positive)),
{
    let r = match shift {
        Shift::Duration(seconds) => if positive {
            time_wrapping_add(t, seconds)
        } else {
            time_wrapping_add(t, -seconds)
        },
        _ => t,
    };
    proof { lemma_time_at(r); }
    r
}

// ---------------------------------------------------------------------------
// Reading back what was written
// ---------------------------------------------------------------------------

/// True when `s` does not hold `sep`.
pub open spec fn free_of(s: Seq<char>, sep: char) -> bool {
    forall|i: int| 0 <= i < s.len() ==> s[i] != sep
}

/// Text without separators is one piece.
proof fn lemma_split_single(s: Seq<char>, sep: char)
    requires
        free_of(s, sep),
    ensures
        split_seq(s, sep) == seq![s],
    decreases s.len(),
{
    if s.len() > 0 {
        assert forall|i: int| 0 <= i < s.drop_last().len() implies s.drop_last()[i] != sep by {
            assert(s.drop_last()[i] == s[i]);
        }
        assert(s[s.len() - 1] != sep);
        lemma_split_single(s.drop_last(), sep);
        assert(s.drop_last().push(s.last()) =~= s);
        assert(seq![s.drop_last()].update(0, s.drop_last().push(s.last())) =~= seq![s]);
    } else {
        assert(s =~= Seq::<char>::empty());
    }
}

/// Splitting at a separator splits the two sides apart.
proof fn lemma_split_concat(a: Seq<char>, b: Seq<char>, sep: char)
    ensures
        split_seq(a + seq![sep] + b, sep) == split_seq(a, sep) + split_seq(b, sep),
    decreases b.len(),
{
    let whole = a + seq![sep] + b;
    if b.len() == 0 {
        assert(whole.drop_last() =~= a);
        assert(split_seq(a, sep).push(Seq::<char>::empty()) =~= split_seq(a, sep) + seq![Seq::<char>::empty()]);
    } else {
        let b2 = b.drop_last();
        assert(whole.drop_last() =~= a + seq![sep] + b2);
        lemma_split_concat(a, b2, sep);
        lemma_split_nonempty(b2, sep);
        crate::text::lemma_split_nonempty(a, sep);
        let left = split_seq(a, sep);
        let right = split_seq(b2, sep);
        assert(whole.last() == b.last());
        if b.last() == sep {
            assert((left + right).push(Seq::<char>::empty()) =~= left + right.push(Seq::<char>::empty()));
        } else {
            let joined = left + right;
            assert(joined.last() == right.last());
            assert(joined.update(joined.len() - 1, joined.last().push(b.last())) =~= left + right.update(
                right.len() - 1,
                right.last().push(b.last()),
            ));
        }
    }
}


/// Two digits read back as their number.
proof fn lemma_two_digits(n: int)
    requires
        0 <= n <= 99,
    ensures
        all_digits(two_digits(n)),
        digits_value(two_digits(n)) == n,
        u8_from_text(two_digits(n)) == Some(n as u8),
{
    let s = two_digits(n);
    reveal_with_fuel(digits_value, 3);
    lemma_digit_char(n / 10);
    lemma_digit_char(n % 10);
    assert(s.drop_last() =~= seq![digit_char(n / 10)]);
    assert(s.drop_last().drop_last() =~= Seq::<char>::empty());
}

/// Four digits read back as their number.
proof fn lemma_four_digits(n: int)
    requires
        0 <= n <= 9999,
    ensures
        all_digits(four_digits(n)),
        digits_value(four_digits(n)) == n,
        four_digits(n)[0] != '+' && four_digits(n)[0] != '-',
{
    let s = four_digits(n);
    reveal_with_fuel(digits_value, 5);
    lemma_digit_char(n / 1000);
    lemma_digit_char((n / 100) % 10);
    lemma_digit_char((n / 10) % 10);
    lemma_digit_char(n % 10);
    let s3 = s.drop_last();
    let s2 = s3.drop_last();
    let s1 = s2.drop_last();
    assert(s3 =~= seq![digit_char(n / 1000), digit_char((n / 100) % 10), digit_char((n / 10) % 10)]);
    assert(s2 =~= seq![digit_char(n / 1000), digit_char((n / 100) % 10)]);
    assert(s1 =~= seq![digit_char(n / 1000)]);
    assert(s1.drop_last() =~= Seq::<char>::empty());
}

/// A written year reads back as itself.
proof fn lemma_year_text(y: int)
    requires
        -9999 <= y <= 9999,
    ensures
        i32_from_text(year_text(y)) == Some(y as i32),
        free_of(year_text(y), '.'),
        free_of(year_text(y), '/'),
{
    if y < 0 {
        lemma_four_digits(-y);
        assert(year_text(y).drop_first() =~= four_digits(-y));
    } else {
        lemma_four_digits(y);
    }
}

/// Reading a written date gives the date back.
pub proof fn lemma_date_text_roundtrip(d: Date)
    requires
        d.wf(),
    ensures
        date_from_text(date_text(d)) == Ok::<Date, DateTimeError>(d),
{
    let a = two_digits(d.day as int);
    let b = two_digits(d.month as int);
    let c = year_text(d.year as int);
    lemma_two_digits(d.day as int);
    lemma_two_digits(d.month as int);
    lemma_year_text(d.year as int);
    let t = date_text(d);
    assert(replace_char(t, '/', '.') =~= t);
    assert(t =~= (a + seq!['.'] + b) + seq!['.'] + c);
    lemma_split_concat(a + seq!['.'] + b, c, '.');
    lemma_split_concat(a, b, '.');
    lemma_split_single(a, '.');
    lemma_split_single(b, '.');
    lemma_split_single(c, '.');
    assert(split_seq(t, '.') =~= seq![a, b, c]);
}

/// Reading a written time gives its hour and minute back.
pub proof fn lemma_time_text_roundtrip(t: Time)
    requires
        t.wf(),
    ensures
        time_from_text(time_text(t)) == Ok::<Time, DateTimeError>(Time { second: 0, ..t }),
{
    let a = two_digits(t.hour as int);
    let b = two_digits(t.minute as int);
    lemma_two_digits(t.hour as int);
    lemma_two_digits(t.minute as int);
    lemma_split_concat(a, b, ':');
    lemma_split_single(a, ':');
    lemma_split_single(b, ':');
    assert(split_seq(time_text(t), ':') =~= seq![a, b]);
}

/// Reading a written date and time gives them back, to the minute, at the
/// offset that the reader is given.
pub proof fn lemma_date_time_text_roundtrip(dt: DateTime, offset: i32)
    requires
        dt.wf(),
    ensures
        date_time_from_text(date_time_text(dt), offset) == Ok::<OffsetDateTime, DateTimeError>(
            OffsetDateTime { date: dt.date, time: Time { second: 0, ..dt.time }, offset },
        ),
{
    let a = date_text(dt.date);
    let b = time_text(dt.time);
    lemma_date_text_roundtrip(dt.date);
    lemma_time_text_roundtrip(dt.time);
    lemma_two_digits(dt.date.day as int);
    lemma_two_digits(dt.date.month as int);
    lemma_two_digits(dt.time.hour as int);
    lemma_two_digits(dt.time.minute as int);
    lemma_year_text(dt.date.year as int);
    if dt.date.year < 0 {
        lemma_four_digits(-dt.date.year);
    } else {
        lemma_four_digits(dt.date.year as int);
    }
    assert(free_of(a, ' '));
    assert(free_of(b, ' '));
    lemma_split_concat(a, b, ' ');
    lemma_split_single(a, ' ');
    lemma_split_single(b, ' ');
    assert(split_seq(date_time_text(dt), ' ') =~= seq![a, b]);
}

} // verus!
