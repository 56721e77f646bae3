//! An input for a span of dates: a start and an end input, shifted together.

use vstd::prelude::*;
use crate::date_time::{DateSpan, Shift, apply_date_shift, date_shifted, date_text};
use crate::inputs::date_input::{self, DateInputView, input_date};

verus! {

/// What the user can do with a date span input.
pub enum Action {
    /// An action on the start input.
    ChangeStart(date_input::Action),
    /// An action on the end input.
    ChangeEnd(date_input::Action),
    /// The user moved both dates by `shift`, forward when `positive`.
    Shift { shift: Shift, positive: bool },
    /// The user opened or closed the shift menu.
    ToggleDropdown,
}

/// The abstract state of a date span input.
pub struct DateSpanView {
    pub start: DateInputView,
    pub end: DateInputView,
    pub drop_down: bool,
}

/// True when a shift of a date input's date stays in range.
pub open spec fn shift_defined(v: DateInputView, shift: Shift, positive: bool) -> bool {
    input_date(v) matches Some(d) ==> date_shifted(d, shift, positive) is Some
}

/// True when an action may be performed.
pub open spec fn action_defined(v: DateSpanView, action: Action) -> bool {
    match action {
        Action::ChangeStart(a) => date_input::action_defined(v.start, a),
        Action::ChangeEnd(a) => date_input::action_defined(v.end, a),
        Action::Shift { shift, positive } => shift_defined(v.start, shift, positive) && shift_defined(v.end, shift, positive),
        Action::ToggleDropdown => true,
    }
}

/// What a date input becomes after a span shift: a fresh input showing the
/// shifted date, or the same input when it names no date.
pub open spec fn shifted_input(v: DateInputView, shift: Shift, positive: bool) -> DateInputView {
    match input_date(v) {
        Some(d) => DateInputView {
            value: date_text(date_shifted(d, shift, positive).unwrap()),
            default_value: None,
            drop_down: false,
        },
        None => v,
    }
}

/// The state of a date span input after `action`.
pub open spec fn after_action(v: DateSpanView, action: Action) -> DateSpanView {
    match action {
        Action::ChangeStart(a) => DateSpanView { start: date_input::after_action(v.start, a), ..v },
        Action::ChangeEnd(a) => DateSpanView { end: date_input::after_action(v.end, a), ..v },
        Action::Shift { shift, positive } => DateSpanView {
            start: shifted_input(v.start, shift, positive),
            end: shifted_input(v.end, shift, positive),
            drop_down: v.drop_down,
        },
        Action::ToggleDropdown => DateSpanView { drop_down: !v.drop_down, ..v },
    }
}

/// The state of a date span input.
pub struct State {
    start: date_input::State,
    end: date_input::State,
    drop_down: bool,
}

impl View for State {
    type V = DateSpanView;

    closed spec fn view(&self) -> DateSpanView {
        DateSpanView { start: self.start@, end: self.end@, drop_down: self.drop_down }
    }
}

impl State {
    /// An input showing the span `timespan` (open ends shown empty).
    pub fn new(timespan: Option<DateSpan>) -> (r: Self)
        requires
            timespan matches Some(t) ==> t.wf(),
        ensures
            r@.start.value == (match timespan { Some(DateSpan { start: Some(d), .. }) => date_text(d), _ => Seq::<char>::empty() }),
            r@.end.value == (match timespan { Some(DateSpan { end: Some(d), .. }) => date_text(d), _ => Seq::<char>::empty() }),
            r@.start.default_value is None && r@.end.default_value is None,
            !r@.start.drop_down && !r@.end.drop_down && !r@.drop_down,
    {
        State {
            start: date_input::State::new(match timespan { Some(t) => t.start, None => None }),
            end: date_input::State::new(match timespan { Some(t) => t.end, None => None }),
            drop_down: false,
        }
    }

    /// An empty input.
    pub fn default() -> (r: Self)
        ensures
            r@.start.value == Seq::<char>::empty() && r@.end.value == Seq::<char>::empty(),
            r@.start.default_value is None && r@.end.default_value is None,
            !r@.start.drop_down && !r@.end.drop_down && !r@.drop_down,
    {
        Self::new(None)
    }

    /// The span that the two inputs give.
    pub fn timespan(&self) -> (r: DateSpan)
        ensures
            r == (DateSpan { start: input_date(self@.start), end: input_date(self@.end) }),
            r.wf(),
    {
        DateSpan { start: self.start.day(), end: self.end.day() }
    }

    /// The start input.
    pub fn start(&self) -> (r: &date_input::State)
        ensures
            r@ == self@.start,
    {
        &self.start
    }

    /// The end input.
    pub fn end(&self) -> (r: &date_input::State)
        ensures
            r@ == self@.end,
    {
        &self.end
    }

    /// Applies what the user did.
    pub fn perform(&mut self, action: Action)
        requires
            action_defined(old(self)@, action),
        ensures
            final(self)@ == after_action(old(self)@, action),
    {
        match action {
            Action::ChangeStart(start) => {
                self.start.perform(start);
            },
            Action::ChangeEnd(end) => {
                self.end.perform(end);
            },
            Action::Shift { shift, positive } => {
                if let Some(before) = self.start.day() {
                    self.start = date_input::State::new(Some(apply_date_shift(before, shift, positive)));
                }
                if let Some(before) = self.end.day() {
                    self.end = date_input::State::new(Some(apply_date_shift(before, shift, positive)));
                }
            },
            Action::ToggleDropdown => {
                self.drop_down = !self.drop_down;
            },
        }
    }
}

} // verus!
