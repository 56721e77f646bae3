use finance_manager::date_time::{
    add_months, apply_date_shift, apply_shift, apply_time_shift, date_span_to_time_span, offset_to_primitive,
    parse_date_str, parse_date_str_at, parse_date_str_numbers, parse_date_time_str, parse_time_str,
    primitive_to_offset, replace_day, replace_month, replace_year, time_span_to_date_span, to_date_string,
    to_date_time_string, to_time_string, try_apply_date_shift, try_apply_shift, Date, DateSpan, DateTime,
    DateTimeError, OffsetDateTime, Shift, Time, Timespan,
};

fn date(day: u8, month: u8, year: i32) -> Date {
    Date { year, month, day }
}

fn time(hour: u8, minute: u8, second: u8) -> Time {
    Time { hour, minute, second }
}

#[test]
fn date_numbers_with_dots_and_slashes() {
    assert_eq!(parse_date_str_numbers("24.12.2023"), Ok((2023, 12, 24)));
    assert_eq!(parse_date_str_numbers("24/12/2023"), Ok((2023, 12, 24)));
    assert_eq!(parse_date_str_numbers("1.2/-44"), Ok((-44, 2, 1)));
    assert_eq!(parse_date_str_numbers("+3.4.2020"), Ok((2020, 4, 3)));
}

#[test]
fn date_numbers_errors() {
    assert_eq!(parse_date_str_numbers("24.12"), Err(DateTimeError::DateFormat));
    assert_eq!(parse_date_str_numbers("1.2.3.4"), Err(DateTimeError::DateFormat));
    assert_eq!(parse_date_str_numbers("x.12.2023"), Err(DateTimeError::DayNotNumber));
    assert_eq!(parse_date_str_numbers("300.12.2023"), Err(DateTimeError::DayNotNumber));
    assert_eq!(parse_date_str_numbers("24.y.2023"), Err(DateTimeError::MonthNotNumber));
    assert_eq!(parse_date_str_numbers("24.12."), Err(DateTimeError::YearNotNumber));
    assert_eq!(parse_date_str_numbers("24.12.99999999999"), Err(DateTimeError::YearNotNumber));
}

#[test]
fn dates_are_checked_against_the_calendar() {
    assert_eq!(parse_date_str("29.02.2024"), Ok(date(29, 2, 2024)));
    assert_eq!(parse_date_str("29.02.2023"), Err(DateTimeError::DateOutOfRange));
    assert_eq!(parse_date_str("31.04.2023"), Err(DateTimeError::DateOutOfRange));
    assert_eq!(parse_date_str("1.13.2023"), Err(DateTimeError::DateOutOfRange));
    assert_eq!(parse_date_str("0.1.2023"), Err(DateTimeError::DateOutOfRange));
    assert_eq!(parse_date_str("1.1.10000"), Err(DateTimeError::DateOutOfRange));
    assert_eq!(parse_date_str("1.1.-9999"), Ok(date(1, 1, -9999)));
}

#[test]
fn times_of_day() {
    assert_eq!(parse_time_str("12:30"), Ok(time(12, 30, 0)));
    assert_eq!(parse_time_str("0:0"), Ok(time(0, 0, 0)));
    assert_eq!(parse_time_str("12"), Err(DateTimeError::TimeFormat));
    assert_eq!(parse_time_str("1:2:3"), Err(DateTimeError::TimeFormat));
    assert_eq!(parse_time_str("ab:30"), Err(DateTimeError::HourNotNumber));
    assert_eq!(parse_time_str("12:xx"), Err(DateTimeError::MinuteNotNumber));
    assert_eq!(parse_time_str("24:00"), Err(DateTimeError::TimeOutOfRange));
    assert_eq!(parse_time_str("23:60"), Err(DateTimeError::TimeOutOfRange));
}

#[test]
fn date_and_time_at_an_offset() {
    let parsed = parse_date_time_str("24.12.2023 18:05", 3600);
    assert_eq!(parsed, Ok(OffsetDateTime { date: date(24, 12, 2023), time: time(18, 5, 0), offset: 3600 }));
    assert_eq!(parse_date_time_str("24.12.2023", 0), Err(DateTimeError::DateTimeFormat));
    assert_eq!(parse_date_time_str("24.12.2023  18:05", 0), Err(DateTimeError::DateTimeFormat));
    assert_eq!(parse_date_time_str("24.13.2023 18:05", 0), Err(DateTimeError::DateOutOfRange));
    assert_eq!(
        parse_date_str_at("01.05.2022", 23, 59, 59, -7200),
        Ok(OffsetDateTime { date: date(1, 5, 2022), time: time(23, 59, 59), offset: -7200 })
    );
}

#[test]
fn writing_dates_and_times() {
    assert_eq!(to_date_string(date(24, 12, 2023)), "24.12.2023");
    assert_eq!(to_date_string(date(1, 2, 33)), "01.02.0033");
    assert_eq!(to_date_string(date(1, 2, -44)), "01.02.-0044");
    assert_eq!(to_time_string(time(9, 5, 59)), "09:05");
    assert_eq!(to_date_time_string(DateTime { date: date(3, 4, 2021), time: time(7, 8, 9) }), "03.04.2021 07:08");
}

#[test]
fn written_dates_read_back() {
    for d in [date(24, 12, 2023), date(29, 2, 2024), date(1, 1, -9999), date(31, 12, 9999), date(5, 6, 7)] {
        assert_eq!(parse_date_str(&to_date_string(d)), Ok(d));
    }
    for t in [time(0, 0, 0), time(23, 59, 0), time(9, 5, 0)] {
        assert_eq!(parse_time_str(&to_time_string(t)), Ok(t));
    }
    assert_eq!(parse_time_str(&to_time_string(time(9, 5, 30))), Ok(time(9, 5, 0)));
}

#[test]
fn date_shifts() {
    assert_eq!(apply_date_shift(date(31, 1, 2024), Shift::Month, true), date(29, 2, 2024));
    assert_eq!(apply_date_shift(date(15, 12, 2023), Shift::Month, true), date(15, 1, 2024));
    assert_eq!(apply_date_shift(date(15, 1, 2024), Shift::Month, false), date(15, 12, 2023));
    assert_eq!(apply_date_shift(date(31, 3, 2023), Shift::Month, false), date(28, 2, 2023));
    assert_eq!(apply_date_shift(date(15, 6, 2023), Shift::Year, true), date(15, 6, 2024));
    assert_eq!(apply_date_shift(date(15, 6, 2023), Shift::Year, false), date(15, 6, 2022));
    assert_eq!(apply_date_shift(date(31, 12, 2023), Shift::Duration(86400), true), date(1, 1, 2024));
    assert_eq!(apply_date_shift(date(1, 3, 2024), Shift::Duration(86400), false), date(29, 2, 2024));
    assert_eq!(try_apply_date_shift(date(29, 2, 2024), Shift::Year, true), None);
    assert_eq!(try_apply_date_shift(date(31, 12, 9999), Shift::Duration(86400), true), None);
}

#[test]
fn replacing_parts_of_dates() {
    assert_eq!(replace_year(date(29, 2, 2024), 2028), Some(date(29, 2, 2028)));
    assert_eq!(replace_year(date(29, 2, 2024), 2023), None);
    assert_eq!(replace_month(date(31, 1, 2024), 3), Some(date(31, 3, 2024)));
    assert_eq!(replace_month(date(31, 1, 2024), 4), None);
    assert_eq!(replace_day(date(1, 2, 2023), 28), Some(date(28, 2, 2023)));
    assert_eq!(replace_day(date(1, 2, 2023), 29), None);
}

#[test]
fn shifts_of_instants() {
    let t = OffsetDateTime { date: date(15, 11, 2023), time: time(10, 0, 0), offset: 0 };
    assert_eq!(add_months(t, 2), OffsetDateTime { date: date(15, 1, 2024), ..t });
    assert_eq!(add_months(t, -11), OffsetDateTime { date: date(15, 12, 2022), ..t });
    assert_eq!(add_months(t, 14), OffsetDateTime { date: date(15, 1, 2025), ..t });
    assert_eq!(apply_shift(t, Shift::Month, true), OffsetDateTime { date: date(15, 12, 2023), ..t });
    assert_eq!(apply_shift(t, Shift::Year, false), OffsetDateTime { date: date(15, 11, 2022), ..t });
    assert_eq!(
        apply_shift(t, Shift::Duration(15 * 3600), true),
        OffsetDateTime { date: date(16, 11, 2023), time: time(1, 0, 0), offset: 0 }
    );
    assert_eq!(
        apply_shift(t, Shift::Duration(90), false),
        OffsetDateTime { date: date(15, 11, 2023), time: time(9, 58, 30), offset: 0 }
    );
    let leap = OffsetDateTime { date: date(29, 2, 2024), time: time(0, 0, 0), offset: 3600 };
    assert_eq!(try_apply_shift(leap, Shift::Year, true), None);
}

#[test]
fn time_shifts_wrap_around_midnight() {
    assert_eq!(apply_time_shift(time(23, 30, 0), Shift::Duration(3600), true), time(0, 30, 0));
    assert_eq!(apply_time_shift(time(0, 15, 0), Shift::Duration(1800), false), time(23, 45, 0));
    assert_eq!(apply_time_shift(time(12, 0, 0), Shift::Month, true), time(12, 0, 0));
}

#[test]
fn offsets_come_and_go() {
    let local = DateTime { date: date(1, 1, 2020), time: time(12, 0, 0) };
    let placed = primitive_to_offset(local, 7200);
    assert_eq!(placed.offset, 7200);
    assert_eq!(offset_to_primitive(placed), local);
}

#[test]
fn spans_of_dates_and_instants() {
    let span = DateSpan { start: Some(date(1, 1, 2024)), end: Some(date(31, 1, 2024)) };
    let instants = date_span_to_time_span(span, 3600);
    assert_eq!(
        instants,
        Timespan {
            start: Some(OffsetDateTime { date: date(1, 1, 2024), time: time(0, 0, 0), offset: 3600 }),
            end: Some(OffsetDateTime { date: date(31, 1, 2024), time: time(23, 59, 59), offset: 3600 }),
        }
    );
    assert_eq!(time_span_to_date_span(instants), span);
    let open = DateSpan { start: None, end: None };
    assert_eq!(time_span_to_date_span(date_span_to_time_span(open, 0)), open);
}
