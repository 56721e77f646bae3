//! How a budget recurs, as the user enters it, and when a budget can be
//! submitted.

use vstd::prelude::*;
use crate::date_time::{DateTime, OffsetDateTime, Time, offset_to_primitive, primitive_to_offset, date_time_text, to_date_time_string};
use crate::inputs::date_time_input::{self, DateTimeInputView, input_date_time};
use crate::number::float_text_ok;
use vstd::string::StringExecFns;
use crate::text::{str_chars, unsigned_text_value, decimal, decimal_text, lemma_decimal_value};

verus! {

/// How a budget recurs.
#[derive(Clone, Copy, Debug, PartialEq, Eq, Structural)]
pub enum Recurring {
    /// Every `days` days, starting at `start`.
    Days { start: OffsetDateTime, days: usize },
    /// Every month on this day.
    DayInMonth(u8),
    /// Every year on this month and day.
    Yearly(u8, u8),
}

/// Why the recurrence that the user entered is not one.
#[derive(Clone, Copy, Debug, PartialEq, Eq, Structural)]
pub enum RecurringError {
    /// The number of days is not a number of at most 500.
    InvalidDays,
    /// The start is not a date and time.
    MissingStart,
    /// The day is not a number of at most 31.
    InvalidDay,
    /// The month is not a number of at most 12.
    InvalidMonth,
}

/// What the user can do with the recurrence input.
pub enum Action {
    /// An action on the start input.
    DateInput(date_time_input::Action),
    /// Text typed into the first field (day, or month when yearly).
    FirstTextInput(String),
    /// Text typed into the second field (days, or day when yearly).
    SecondTextInput(String),
}

/// The recurrence input: one of three forms.
pub enum State {
    /// Start date and time, and the number of days.
    Days(date_time_input::State, String),
    /// The day of the month.
    DayInMonth(String),
    /// The month and the day.
    Yearly(String, String),
}

/// The abstract state of the recurrence input.
pub enum RecurringView {
    Days(DateTimeInputView, Seq<char>),
    DayInMonth(Seq<char>),
    Yearly(Seq<char>, Seq<char>),
}

impl View for State {
    type V = RecurringView;

    open spec fn view(&self) -> RecurringView {
        match self {
            State::Days(start, days) => RecurringView::Days(start@, days@),
            State::DayInMonth(day) => RecurringView::DayInMonth(day@),
            State::Yearly(month, day) => RecurringView::Yearly(month@, day@),
        }
    }
}

/// The number in a field, when the field is a numeral of at most `max`.
pub open spec fn bounded_number(s: Seq<char>, max: nat) -> Option<nat> {
    match unsigned_text_value(s) {
        Some(v) => if v <= max { Some(v) } else { None },
        None => None,
    }
}

/// The recurrence that the input names at the offset `utc_offset`.
pub open spec fn recurring_from(v: RecurringView, utc_offset: i32) -> Result<Recurring, RecurringError> {
    match v {
        RecurringView::Days(start, days) => match bounded_number(days, 500) {
            None => Err(RecurringError::InvalidDays),
            Some(n) => match input_date_time(start) {
                None => Err(RecurringError::MissingStart),
                Some(dt) => Ok(Recurring::Days {
                    start: OffsetDateTime { date: dt.date, time: dt.time, offset: utc_offset },
                    days: n as usize,
                }),
            },
        },
        RecurringView::DayInMonth(day) => match bounded_number(day, 31) {
            None => Err(RecurringError::InvalidDay),
            Some(d) => Ok(Recurring::DayInMonth(d as u8)),
        },
        RecurringView::Yearly(month, day) => match bounded_number(month, 12) {
            None => Err(RecurringError::InvalidMonth),
            Some(m) => match bounded_number(day, 31) {
                None => Err(RecurringError::InvalidDay),
                Some(d) => Ok(Recurring::Yearly(m as u8, d as u8)),
            },
        },
    }
}

/// The number in a field, when it is a numeral of at most `max` (`max` is at
/// most 500).
fn parse_bounded(s: &String, max: u64) -> (r: Option<u64>)
    requires
        max <= 500,
    ensures
        match r {
            Some(v) => bounded_number(s@, max as nat) == Some(v as nat),
            None => bounded_number(s@, max as nat) is None,
        },
{
    let chars = str_chars(s.as_str());
    let start: usize = if chars.len() > 0 && chars[0] == '+' { 1 } else { 0 };
    proof {
        let body = if chars@.len() > 0 && chars@[0] == '+' { chars@.drop_first() } else { chars@ };
        assert(body =~= chars@.subrange(start as int, chars@.len() as int));
    }
    match crate::text::saturating_digits(&chars, start) {
        Some(v) => if v <= max { Some(v) } else { None },
        None => None,
    }
}

/// True when the input can take `action`: an action on the start must be
/// defined there.
pub open spec fn action_defined(v: RecurringView, action: Action) -> bool {
    match (v, action) {
        (RecurringView::Days(start, _), Action::DateInput(a)) => date_time_input::action_defined(start, a),
        _ => true,
    }
}

/// The input after `action`: typed text goes to the fields that the current
/// form has; other actions are ignored.
pub open spec fn after_action(v: RecurringView, action: Action) -> RecurringView {
    match (v, action) {
        (RecurringView::DayInMonth(_), Action::FirstTextInput(t)) => RecurringView::DayInMonth(t@),
        (RecurringView::Yearly(_, d), Action::FirstTextInput(t)) => RecurringView::Yearly(t@, d),
        (RecurringView::Yearly(m, _), Action::SecondTextInput(t)) => RecurringView::Yearly(m, t@),
        (RecurringView::Days(s, _), Action::SecondTextInput(t)) => RecurringView::Days(s, t@),
        (RecurringView::Days(s, d), Action::DateInput(a)) => RecurringView::Days(
            match a {
                date_time_input::Action::DateInput(x) => DateTimeInputView {
                    date_input: crate::inputs::date_input::after_action(s.date_input, x),
                    ..s
                },
                date_time_input::Action::TimeInput(x) => DateTimeInputView {
                    time_input: crate::inputs::time_input::after_message(s.time_input, x),
                    ..s
                },
            },
            d,
        ),
        _ => v,
    }
}

impl State {
    /// Applies what the user typed to the fields that the current form has;
    /// other actions are ignored.
    pub fn perform(&mut self, action: Action)
        requires
            action_defined(old(self)@, action),
        ensures
            final(self)@ == after_action(old(self)@, action),
    {
        match self {
            State::DayInMonth(day) => {
                if let Action::FirstTextInput(new_day) = action {
                    *day = new_day;
                }
            },
            State::Yearly(month, day) => {
                match action {
                    Action::FirstTextInput(new_month) => *month = new_month,
                    Action::SecondTextInput(new_day) => *day = new_day,
                    _ => {},
                }
            },
            State::Days(start, days) => {
                match action {
                    Action::DateInput(a) => start.perform(a),
                    Action::SecondTextInput(new_days) => *days = new_days,
                    _ => {},
                }
            },
        }
    }
}

/// True for the recurrences that the input accepts: at most 500 days, a
/// day of at most 31, a month of at most 12, and a valid start.
pub open spec fn recurring_wf(r: Recurring) -> bool {
    match r {
        Recurring::Days { start, days } => days <= 500 && (DateTime { date: start.date, time: start.time }).wf(),
        Recurring::DayInMonth(day) => day <= 31,
        Recurring::Yearly(month, day) => month <= 12 && day <= 31,
    }
}

/// What the input reads back from a recurrence that it was filled with:
/// the same, but a start loses its seconds and is placed at `utc_offset`.
pub open spec fn read_back(r: Recurring, utc_offset: i32) -> Recurring {
    match r {
        Recurring::Days { start, days } => Recurring::Days {
            start: OffsetDateTime { date: start.date, time: Time { second: 0, ..start.time }, offset: utc_offset },
            days,
        },
        _ => r,
    }
}

impl State {
    /// The input filled with a recurrence: its numbers written out, and its
    /// start (without the offset) in the date and time input. Reading the
    /// input back gives the recurrence again, as [`read_back`] says.
    pub fn from_recurring(value: Recurring) -> (r: State)
        requires
            value matches Recurring::Days { start, .. } ==> (DateTime { date: start.date, time: start.time }).wf(),
        ensures
            match value {
                Recurring::DayInMonth(day) => r@ == RecurringView::DayInMonth(decimal(day as nat)),
                Recurring::Yearly(month, day) => r@ == RecurringView::Yearly(decimal(month as nat), decimal(day as nat)),
                Recurring::Days { start, days } => r@ matches RecurringView::Days(s, t) && {
                    &&& t == decimal(days as nat)
                    &&& s.date_input.value == crate::date_time::date_text(start.date)
                    &&& s.time_input.value == crate::date_time::time_text(start.time)
                    &&& s.date_input.default_value is None
                    &&& !s.date_input.drop_down && !s.time_input.drop_down
                    &&& input_date_time(s) == Some(DateTime { date: start.date, time: Time { second: 0, ..start.time } })
                },
            },
            forall|utc_offset: i32| recurring_wf(value) ==> #[trigger] recurring_from(r@, utc_offset) == Ok::<Recurring, RecurringError>(read_back(value, utc_offset)),
    {
        match value {
            Recurring::DayInMonth(day) => {
                proof { lemma_decimal_value(day as nat); }
                State::DayInMonth(decimal_text(day as u64))
            },
            Recurring::Days { start, days } => {
                proof { lemma_decimal_value(days as nat); }
                State::Days(date_time_input::State::new(Some(offset_to_primitive(start))), decimal_text(days as u64))
            },
            Recurring::Yearly(month, day) => {
                proof {
                    lemma_decimal_value(month as nat);
                    lemma_decimal_value(day as nat);
                }
                State::Yearly(decimal_text(month as u64), decimal_text(day as u64))
            },
        }
    }
}

/// How the input describes its recurrence to the user.
pub open spec fn description(v: RecurringView) -> Seq<char> {
    match v {
        RecurringView::Days(start, days) => "Every "@ + days + " days starting from "@ + match input_date_time(start) {
            Some(dt) => date_time_text(dt),
            None => "ERROR"@,
        },
        RecurringView::DayInMonth(day) => "Every month on the "@ + day + "th"@,
        RecurringView::Yearly(month, day) => "Every year on the "@ + day + "th of "@ + month,
    }
}

impl State {
    /// How the input describes its recurrence to the user, such as
    /// `Every month on the 3th`.
    pub fn describe(&self) -> (r: String)
        ensures
            r@ == description(self@),
    {
        match self {
            State::Days(start, days) => {
                let mut text = String::from_str("Every ");
                text.append(days.as_str());
                text.append(" days starting from ");
                match start.datetime() {
                    Some(dt) => text.append(to_date_time_string(dt).as_str()),
                    None => text.append("ERROR"),
                }
                text
            },
            State::DayInMonth(day) => {
                let mut text = String::from_str("Every month on the ");
                text.append(day.as_str());
                text.append("th");
                text
            },
            State::Yearly(month, day) => {
                let mut text = String::from_str("Every year on the ");
                text.append(day.as_str());
                text.append("th of ");
                text.append(month.as_str());
                text
            },
        }
    }
}

/// The recurrence that the input names, at the offset `utc_offset`.
pub fn try_recurring_from_state(state: &State, utc_offset: i32) -> (r: Result<Recurring, RecurringError>)
    ensures
        r == recurring_from(state@, utc_offset),
{
    match state {
        State::Days(start, days) => {
            let n = match parse_bounded(days, 500) {
                Some(n) => n,
                None => return Err(RecurringError::InvalidDays),
            };
            match start.datetime() {
                Some(dt) => Ok(Recurring::Days { start: primitive_to_offset(dt, utc_offset), days: n as usize }),
                None => Err(RecurringError::MissingStart),
            }
        },
        State::DayInMonth(day) => {
            match parse_bounded(day, 31) {
                Some(d) => Ok(Recurring::DayInMonth(d as u8)),
                None => Err(RecurringError::InvalidDay),
            }
        },
        State::Yearly(month, day) => {
            let m = match parse_bounded(month, 12) {
                Some(m) => m,
                None => return Err(RecurringError::InvalidMonth),
            };
            match parse_bounded(day, 31) {
                Some(d) => Ok(Recurring::Yearly(m as u8, d as u8)),
                None => Err(RecurringError::InvalidDay),
            }
        },
    }
}

/// True when a budget can be submitted: it has a name, its value is a
/// decimal literal (read as it is, without normalisation), and its
/// recurrence is valid (checked at UTC; the offset does not matter for it).
pub open spec fn budget_submittable_spec(name: Seq<char>, value: Seq<char>, recurring: RecurringView) -> bool {
    &&& name.len() > 0
    &&& float_text_ok(value)
    &&& recurring_from(recurring, 0) is Ok
}

/// Whether the create-budget form can be submitted.
pub fn budget_submittable(name: &String, value: &String, recurring: &State) -> (r: bool)
    ensures
        r == budget_submittable_spec(name@, value@, recurring@),
{
    if name.as_str().is_empty() {
        return false;
    }
    let value_chars = str_chars(value.as_str());
    if !crate::number::float_text(&value_chars) {
        return false;
    }
    if try_recurring_from_state(recurring, 0).is_err() {
        return false;
    }
    true
}

} // verus!
