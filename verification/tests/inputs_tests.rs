use finance_manager::date_time::{Date, DateSpan, DateTime, OffsetDateTime, Shift, Time};
use finance_manager::inputs::date_input::{self, Action as DateAction};
use finance_manager::inputs::date_span_input::{self, Action as SpanAction};
use finance_manager::inputs::date_time_input::{self, Action as DateTimeAction};
use finance_manager::inputs::time_input::{self, Message as TimeMessage};

fn date(day: u8, month: u8, year: i32) -> Date {
    Date { year, month, day }
}

#[test]
fn date_input_reads_its_text() {
    let mut input = date_input::State::default();
    assert_eq!(input.day(), None);
    assert!(!input.anything_entered());
    input.perform(DateAction::InputChanged("24.12.2023".to_string()));
    assert_eq!(input.day(), Some(date(24, 12, 2023)));
    assert!(input.anything_entered());
    input.perform(DateAction::InputChanged("24.13.2023".to_string()));
    assert_eq!(input.day(), None);
    let noon_2000 = OffsetDateTime { date: date(1, 1, 2000), time: Time { hour: 9, minute: 30, second: 0 }, offset: 3600 };
    input.default_value(Some(noon_2000));
    assert_eq!(input.day(), Some(date(1, 1, 2000)));
    assert_eq!(input.date(0), Some(noon_2000));
}

#[test]
fn date_input_gives_noon_at_the_offset() {
    let mut input = date_input::State::default();
    assert_eq!(input.date(7200), None);
    input.perform(DateAction::InputChanged("24.12.2023".to_string()));
    assert_eq!(
        input.date(7200),
        Some(OffsetDateTime { date: date(24, 12, 2023), time: Time { hour: 12, minute: 0, second: 0 }, offset: 7200 })
    );
}

#[test]
fn date_input_shifts_its_date() {
    let mut input = date_input::State::new(Some(date(31, 1, 2024)));
    assert_eq!(input.raw_input(), "31.01.2024");
    input.perform(DateAction::ToggleDropdown);
    assert!(input.drop_down_open());
    input.perform(DateAction::DateShift { shift: Shift::Month, positive: true });
    assert_eq!(input.day(), Some(date(29, 2, 2024)));
    assert_eq!(input.raw_input(), "29.02.2024");
    input.perform(DateAction::DateShift { shift: Shift::Duration(86400), positive: true });
    assert_eq!(input.raw_input(), "01.03.2024");
    let mut empty = date_input::State::default();
    empty.perform(DateAction::DateShift { shift: Shift::Year, positive: true });
    assert_eq!(empty.raw_input(), "");
}

#[test]
fn time_input_reads_and_shifts() {
    let mut input = time_input::State::new(Some(Time { hour: 23, minute: 30, second: 0 }));
    assert_eq!(input.raw_input(), "23:30");
    input.perform(TimeMessage::TimeShift { shift: Shift::Duration(3600), positive: true });
    assert_eq!(input.time(), Some(Time { hour: 0, minute: 30, second: 0 }));
    input.perform(TimeMessage::OnInput("7:5".to_string()));
    assert_eq!(input.time(), Some(Time { hour: 7, minute: 5, second: 0 }));
    input.perform(TimeMessage::OnInput("7".to_string()));
    assert_eq!(input.time(), None);
    input.perform(TimeMessage::ToggleDropdown);
    assert!(input.drop_down_open());
}

#[test]
fn date_time_input_needs_both_parts() {
    let mut input = date_time_input::State::default();
    assert_eq!(input.datetime(), None);
    input.perform(DateTimeAction::DateInput(DateAction::InputChanged("2.3.2022".to_string())));
    assert_eq!(input.datetime(), None);
    input.perform(DateTimeAction::TimeInput(TimeMessage::OnInput("10:45".to_string())));
    assert_eq!(
        input.datetime(),
        Some(DateTime { date: date(2, 3, 2022), time: Time { hour: 10, minute: 45, second: 0 } })
    );
    let filled = date_time_input::State::new(Some(DateTime { date: date(9, 9, 1999), time: Time { hour: 8, minute: 7, second: 6 } }));
    assert_eq!(filled.datetime(), Some(DateTime { date: date(9, 9, 1999), time: Time { hour: 8, minute: 7, second: 0 } }));
}

#[test]
fn date_span_input_shifts_both_ends() {
    let mut span = date_span_input::State::new(Some(DateSpan { start: Some(date(1, 1, 2024)), end: Some(date(31, 1, 2024)) }));
    assert_eq!(span.timespan(), DateSpan { start: Some(date(1, 1, 2024)), end: Some(date(31, 1, 2024)) });
    span.perform(SpanAction::Shift { shift: Shift::Month, positive: true });
    assert_eq!(span.timespan(), DateSpan { start: Some(date(1, 2, 2024)), end: Some(date(29, 2, 2024)) });
    span.perform(SpanAction::ChangeEnd(DateAction::InputChanged(String::new())));
    assert_eq!(span.timespan(), DateSpan { start: Some(date(1, 2, 2024)), end: None });
    span.perform(SpanAction::Shift { shift: Shift::Year, positive: false });
    assert_eq!(span.timespan(), DateSpan { start: Some(date(1, 2, 2023)), end: None });
    assert_eq!(span.start().raw_input(), "01.02.2023");
    assert_eq!(span.end().raw_input(), "");
    assert_eq!(date_span_input::State::default().timespan(), DateSpan { start: None, end: None });
}
