//! An input for a date and a time of day.

use vstd::prelude::*;
use crate::date_time::{DateTime, Shift, Time};
use crate::inputs::date_input::{self, DateInputView, input_date};
use crate::inputs::time_input::{self, TimeInputView, input_time};

verus! {

/// What the user can do with a date-and-time input.
pub enum Action {
    /// An action on the date input.
    DateInput(date_input::Action),
    /// An action on the time input.
    TimeInput(time_input::Message),
}

/// The abstract state of a date-and-time input.
pub struct DateTimeInputView {
    pub date_input: DateInputView,
    pub time_input: TimeInputView,
}

/// The date and time that an input gives: both parts must be given.
pub open spec fn input_date_time(v: DateTimeInputView) -> Option<DateTime> {
    match (input_date(v.date_input), input_time(v.time_input)) {
        (Some(date), Some(time)) => Some(DateTime { date, time }),
        _ => None,
    }
}

/// True when an action may be performed.
pub open spec fn action_defined(v: DateTimeInputView, action: Action) -> bool {
    match action {
        Action::DateInput(a) => date_input::action_defined(v.date_input, a),
        Action::TimeInput(m) => m matches time_input::Message::TimeShift { shift, .. } ==> (shift matches Shift::Duration(s) ==> s > i64::MIN),
    }
}

/// The state of a date-and-time input.
pub struct State {
    date_input: date_input::State,
    time_input: time_input::State,
}

impl View for State {
    type V = DateTimeInputView;

    closed spec fn view(&self) -> DateTimeInputView {
        DateTimeInputView { date_input: self.date_input@, time_input: self.time_input@ }
    }
}

impl State {
    /// An input showing `default` (or nothing).
    pub fn new(default: Option<DateTime>) -> (r: Self)
        requires
            default matches Some(d) ==> d.wf(),
        ensures
            r@.date_input.value == (match default { Some(d) => crate::date_time::date_text(d.date), None => Seq::<char>::empty() }),
            r@.time_input.value == (match default { Some(d) => crate::date_time::time_text(d.time), None => Seq::<char>::empty() }),
            r@.date_input.default_value is None,
            !r@.date_input.drop_down && !r@.time_input.drop_down,
            default matches Some(d) ==> input_date_time(r@) == Some(DateTime { date: d.date, time: Time { second: 0, ..d.time } }),
    {
        proof {
            if let Some(d) = default {
                crate::date_time::lemma_date_text_roundtrip(d.date);
                crate::date_time::lemma_time_text_roundtrip(d.time);
            }
        }
        State {
            date_input: date_input::State::new(match default { Some(d) => Some(d.date), None => None }),
            time_input: time_input::State::new(match default { Some(d) => Some(d.time), None => None }),
        }
    }

    /// An empty input.
    pub fn default() -> (r: Self)
        ensures
            r@.date_input.value == Seq::<char>::empty() && r@.time_input.value == Seq::<char>::empty(),
    {
        Self::new(None)
    }

    /// Applies what the user did to the part it concerns.
    pub fn perform(&mut self, message: Action)
        requires
            action_defined(old(self)@, message),
        ensures
            match message {
                Action::DateInput(a) => final(self)@ == (DateTimeInputView {
                    date_input: date_input::after_action(old(self)@.date_input, a),
                    ..old(self)@
                }),
                Action::TimeInput(m) => final(self)@ == (DateTimeInputView {
                    time_input: time_input::after_message(old(self)@.time_input, m),
                    ..old(self)@
                }),
            },
    {
        match message {
            Action::DateInput(input) => self.date_input.perform(input),
            Action::TimeInput(input) => self.time_input.perform(input),
        }
    }

    /// The date and time, when both parts name one.
    pub fn datetime(&self) -> (r: Option<DateTime>)
        ensures
            r == input_date_time(self@),
            r matches Some(d) ==> d.wf(),
    {
        match (self.date_input.day(), self.time_input.time()) {
            (Some(date), Some(time)) => Some(DateTime { date, time }),
            _ => None,
        }
    }

    /// The date part.
    pub fn date_input(&self) -> (r: &date_input::State)
        ensures
            r@ == self@.date_input,
    {
        &self.date_input
    }

    /// The time part.
    pub fn time_input(&self) -> (r: &time_input::State)
        ensures
            r@ == self@.time_input,
    {
        &self.time_input
    }
}

} // verus!
