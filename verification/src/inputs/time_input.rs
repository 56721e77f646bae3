//! A text input for a time of day, with shift buttons.

use vstd::prelude::*;
use crate::date_time::{Shift, Time, apply_time_shift, time_at, parse_time_str, time_from_text, time_shifted, time_text, to_time_string};

verus! {

/// What the user can do with a time input.
pub enum Message {
    /// The user typed this text.
    OnInput(String),
    /// The user opened or closed the shift menu.
    ToggleDropdown,
    /// The user moved the time by `shift`, forward when `positive`.
    TimeShift { shift: Shift, positive: bool },
}

/// The abstract state of a time input.
pub struct TimeInputView {
    pub value: Seq<char>,
    pub drop_down: bool,
}

/// The time that an input gives: the time its text names.
pub open spec fn input_time(v: TimeInputView) -> Option<Time> {
    match time_from_text(v.value) {
        Ok(t) => Some(t),
        Err(_) => None,
    }
}

/// The state of a time input after `message`.
pub open spec fn after_message(v: TimeInputView, message: Message) -> TimeInputView {
    match message {
        Message::OnInput(t) => TimeInputView { value: t@, ..v },
        Message::ToggleDropdown => TimeInputView { drop_down: !v.drop_down, ..v },
        Message::TimeShift { shift, positive } => match input_time(v) {
            Some(t) => TimeInputView { value: time_text(time_at(time_shifted(t, shift, positive))), ..v },
            None => v,
        },
    }
}

/// The state of a time input.
pub struct State {
    value: String,
    drop_down: bool,
}

impl View for State {
    type V = TimeInputView;

    closed spec fn view(&self) -> TimeInputView {
        TimeInputView { value: self.value@, drop_down: self.drop_down }
    }
}

impl State {
    /// An input showing `default` (or nothing).
    pub fn new(default: Option<Time>) -> (r: Self)
        requires
            default matches Some(t) ==> t.wf(),
        ensures
            r@.value == (match default { Some(t) => time_text(t), None => Seq::<char>::empty() }),
            !r@.drop_down,
    {
        State {
            value: match default {
                Some(t) => to_time_string(t),
                None => String::new(),
            },
            drop_down: false,
        }
    }

    /// An empty input.
    pub fn default() -> (r: Self)
        ensures
            r@.value == Seq::<char>::empty(),
            !r@.drop_down,
    {
        Self::new(None)
    }

    /// The time (hour and minute) that the text names.
    pub fn time(&self) -> (r: Option<Time>)
        ensures
            r == input_time(self@),
            r matches Some(t) ==> t.wf() && t.second == 0,
    {
        match parse_time_str(self.value.as_str()) {
            Ok(t) => Some(t),
            Err(_) => None,
        }
    }

    /// The text as typed.
    pub fn raw_input(&self) -> (r: &str)
        ensures
            r@ == self@.value,
    {
        self.value.as_str()
    }

    /// True when any text was entered.
    pub fn anything_entered(&self) -> (r: bool)
        ensures
            r == (self@.value.len() > 0),
    {
        !self.value.as_str().is_empty()
    }

    /// True when the shift menu is open.
    pub fn drop_down_open(&self) -> (r: bool)
        ensures
            r == self@.drop_down,
    {
        self.drop_down
    }

    /// Applies what the user did. A shift moves the time around the clock
    /// when the text names a time, and does nothing otherwise.
    pub fn perform(&mut self, message: Message)
        requires
            message matches Message::TimeShift { shift, .. } ==> (shift matches Shift::Duration(s) ==> s > i64::MIN),
        ensures
            final(self)@ == after_message(old(self)@, message),
    {
        match message {
            Message::OnInput(input) => {
                self.value = input;
            },
            Message::ToggleDropdown => {
                self.drop_down = !self.drop_down;
            },
            Message::TimeShift { shift, positive } => {
                if let Some(before) = self.time() {
                    let n = apply_time_shift(before, shift, positive);
                    self.value = to_time_string(n);
                }
            },
        }
    }
}

} // verus!
