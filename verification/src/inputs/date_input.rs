//! A text input for a date, with an optional default and shift buttons.

use vstd::prelude::*;
use crate::date_time::{
    Date, OffsetDateTime, Shift, Time, apply_date_shift, date_from_text, date_shifted, date_text,
    parse_date_str, parse_date_str_at, to_date_string,
};

verus! {

/// What the user can do with a date input.
pub enum Action {
    /// The user typed this text.
    InputChanged(String),
    /// The user opened or closed the shift menu.
    ToggleDropdown,
    /// The user moved the date by `shift`, forward when `positive`.
    DateShift { shift: Shift, positive: bool },
}

/// The abstract state of a date input.
pub struct DateInputView {
    pub value: Seq<char>,
    /// What the input gives when its text names no date.
    pub default_value: Option<OffsetDateTime>,
    pub drop_down: bool,
}

/// The day that an input gives: the date its text names, else the day of
/// its default.
pub open spec fn input_date(v: DateInputView) -> Option<Date> {
    match date_from_text(v.value) {
        Ok(d) => Some(d),
        Err(_) => match v.default_value {
            Some(dt) => Some(dt.date),
            None => None,
        },
    }
}

/// What an input gives at the offset `utc_offset`: the day its text names at
/// 12:00, else its default.
pub open spec fn input_noon(v: DateInputView, utc_offset: i32) -> Option<OffsetDateTime> {
    match date_from_text(v.value) {
        Ok(d) => Some(OffsetDateTime { date: d, time: Time { hour: 12, minute: 0, second: 0 }, offset: utc_offset }),
        Err(_) => v.default_value,
    }
}

/// True when an action may be performed: a shift must stay in the supported
/// range of dates.
pub open spec fn action_defined(v: DateInputView, action: Action) -> bool {
    match action {
        Action::DateShift { shift, positive } => match input_date(v) {
            Some(d) => date_shifted(d, shift, positive) is Some,
            None => true,
        },
        _ => true,
    }
}

/// The state of a date input after `action`.
pub open spec fn after_action(v: DateInputView, action: Action) -> DateInputView {
    match action {
        Action::InputChanged(t) => DateInputView { value: t@, drop_down: false, ..v },
        Action::ToggleDropdown => DateInputView { drop_down: !v.drop_down, ..v },
        Action::DateShift { shift, positive } => match input_date(v) {
            Some(d) => DateInputView { value: date_text(date_shifted(d, shift, positive).unwrap()), ..v },
            None => v,
        },
    }
}

/// The state of a date input.
pub struct State {
    value: String,
    default_value: Option<OffsetDateTime>,
    drop_down: bool,
}

impl View for State {
    type V = DateInputView;

    closed spec fn view(&self) -> DateInputView {
        DateInputView { value: self.value@, default_value: self.default_value, drop_down: self.drop_down }
    }
}

impl State {
    #[verifier::type_invariant]
    spec fn default_is_valid(&self) -> bool {
        self.default_value matches Some(d) ==> d.date.wf()
    }

    /// An input showing `value` (or nothing), without default.
    pub fn new(value: Option<Date>) -> (r: Self)
        requires
            value matches Some(d) ==> d.wf(),
        ensures
            r@.value == (match value { Some(d) => date_text(d), None => Seq::<char>::empty() }),
            r@.default_value is None,
            !r@.drop_down,
    {
        State {
            value: match value {
                Some(date) => to_date_string(date),
                None => String::new(),
            },
            default_value: None,
            drop_down: false,
        }
    }

    /// An empty input without default.
    pub fn default() -> (r: Self)
        ensures
            r@.value == Seq::<char>::empty(),
            r@.default_value is None,
            !r@.drop_down,
    {
        Self::new(None)
    }

    /// An input holding the text `value` as typed.
    pub fn new_with_raw(value: String) -> (r: Self)
        ensures
            r@.value == value@,
            r@.default_value is None,
            !r@.drop_down,
    {
        State { value, default_value: None, drop_down: false }
    }

    /// Sets what is given when the text names no date.
    pub fn default_value(&mut self, value: Option<OffsetDateTime>)
        requires
            value matches Some(d) ==> d.date.wf(),
        ensures
            final(self)@ == (DateInputView { default_value: value, ..old(self)@ }),
    {
        self.default_value = value;
    }

    /// The day that the text names at 12:00 at the offset `utc_offset`, else
    /// the default.
    pub fn date(&self, utc_offset: i32) -> (r: Option<OffsetDateTime>)
        ensures
            r == input_noon(self@, utc_offset),
    {
        match parse_date_str_at(self.value.as_str(), 12, 0, 0, utc_offset) {
            Ok(d) => Some(d),
            Err(_) => self.default_value,
        }
    }

    /// The day that the text names, else the day of the default.
    pub fn day(&self) -> (r: Option<Date>)
        ensures
            r == input_date(self@),
            r matches Some(d) ==> d.wf(),
    {
        proof { use_type_invariant(self); }
        match parse_date_str(self.value.as_str()) {
            Ok(d) => Some(d),
            Err(_) => match self.default_value {
                Some(dt) => Some(dt.date),
                None => None,
            },
        }
    }

    /// The text as typed.
    pub fn raw_input(&self) -> (r: &str)
        ensures
            r@ == self@.value,
    {
        self.value.as_str()
    }

    /// True when any text was entered.
    pub fn anything_entered(&self) -> (r: bool)
        ensures
            r == (self@.value.len() > 0),
    {
        !self.value.as_str().is_empty()
    }

    /// True when the shift menu is open.
    pub fn drop_down_open(&self) -> (r: bool)
        ensures
            r == self@.drop_down,
    {
        self.drop_down
    }

    /// Applies what the user did. Typing replaces the text and closes the
    /// menu; a shift replaces the text by the shifted date when there is a
    /// date, and does nothing otherwise.
    pub fn perform(&mut self, action: Action)
        requires
            action_defined(old(self)@, action),
        ensures
            final(self)@ == after_action(old(self)@, action),
    {
        proof { use_type_invariant(&*self); }
        match action {
            Action::InputChanged(new_value) => {
                self.value = new_value;
                self.drop_down = false;
            },
            Action::ToggleDropdown => {
                self.drop_down = !self.drop_down;
            },
            Action::DateShift { shift, positive } => {
                if let Some(before) = self.day() {
                    self.value = to_date_string(apply_date_shift(before, shift, positive));
                }
            },
        }
    }
}

} // verus!
