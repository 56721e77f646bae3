//! The form that creates a budget or edits an existing one.
use vstd::prelude::*;
use crate::budget::{self, Recurring, RecurringError, RecurringView, budget_submittable, budget_submittable_spec, recurring_from};
use crate::date_time::DateTime;
use crate::inputs::date_time_input;
use vstd::string::StringExecFns;

verus! {

/// An existing budget as the form reads it.
pub struct BudgetData {
    pub id: u64,
    pub name: String,
    pub description: Option<String>,
    /// The total value as the currency type writes it.
    pub total_value: String,
    pub timespan: Recurring,
}

/// What the user, or a finished fetch, tells the form.
pub enum Message {
    NameInput(String),
    /// The description now reads this text (the text of its multi-line
    /// editor after the user's edit).
    DescriptionInput(String),
    ValueInput(String),
    /// The user picked a form of recurrence by its label.
    RecurringPickList(String),
    RecurringInput(budget::Action),
    Submit,
    BudgetCreated(u64),
    Initialize(Option<BudgetData>),
    Cancel,
}

/// The budget that a submitted form describes.
pub struct BudgetDraft {
    /// The id of the budget being edited; none for a new one.
    pub id: Option<u64>,
    pub name: String,
    /// None when the description is empty.
    pub description: Option<String>,
    /// The value as typed; it is to be read as a decimal number.
    pub value: String,
    /// The recurrence, or why the input names none.
    pub recurring: Result<Recurring, RecurringError>,
}

/// What the owner of the form has to do.
pub enum Action {
    Nothing,
    /// Show the budget with this id.
    BudgetCreated(u64),
    /// Read the value, create (or, with an id, update) the budget, and hand
    /// its id back as [`Message::BudgetCreated`]; report a value that is not
    /// a number or a recurrence that is not one as an error.
    Submit(BudgetDraft),
    Cancel,
    CancelWithId(u64),
}

/// The labels of the forms of recurrence.
pub open spec fn days_label() -> Seq<char> { "Days"@ }
pub open spec fn day_in_month_label() -> Seq<char> { "Day in month"@ }
pub open spec fn yearly_label() -> Seq<char> { "Yearly"@ }

/// The label of the form of a recurrence.
pub open spec fn label_of(r: Recurring) -> Seq<char> {
    match r {
        Recurring::Days { .. } => days_label(),
        Recurring::DayInMonth(_) => day_in_month_label(),
        Recurring::Yearly(_, _) => yearly_label(),
    }
}

/// The label of the form that a recurrence input has.
pub open spec fn form_label(v: RecurringView) -> Seq<char> {
    match v {
        RecurringView::Days(_, _) => days_label(),
        RecurringView::DayInMonth(_) => day_in_month_label(),
        RecurringView::Yearly(_, _) => yearly_label(),
    }
}

/// A recurrence read back from an input is of the input's form: every few
/// days from a `Days` input, a day in the month from a day-in-month input, a
/// day of the year from a yearly input.
pub proof fn lemma_read_back_has_form(v: RecurringView, utc_offset: i32)
    ensures
        recurring_from(v, utc_offset) matches Ok(rec) ==> label_of(rec) == form_label(v),
{
}

/// Typing into a recurrence input keeps its form.
pub proof fn lemma_typing_keeps_form(v: RecurringView, a: budget::Action)
    ensures
        form_label(budget::after_action(v, a)) == form_label(v),
{
}

/// The abstract state of the form.
pub struct CreateBudgetView {
    /// The id of the budget being edited.
    pub id: Option<u64>,
    pub name: Seq<char>,
    pub description: Seq<char>,
    pub value: Seq<char>,
    pub recurring: RecurringView,
    /// The label of the form of recurrence that was picked.
    pub recurring_choice: Option<Seq<char>>,
    pub submitted: bool,
}

/// True when the form can take `message`: an action on the start of a
/// recurrence is defined there, and an existing budget's start is a valid
/// date and time.
pub open spec fn update_defined(v: CreateBudgetView, message: Message) -> bool {
    match message {
        Message::RecurringInput(a) => budget::action_defined(v.recurring, a),
        Message::Initialize(Some(b)) => b.timespan matches Recurring::Days { start, .. } ==> (DateTime { date: start.date, time: start.time }).wf(),
        _ => true,
    }
}

/// The state of the budget form.
pub struct CreateBudget {
    id: Option<u64>,
    name_input: String,
    description_input: String,
    value_input: String,
    recurring_input: budget::State,
    recurring_state: Option<String>,
    submitted: bool,
}

impl View for CreateBudget {
    type V = CreateBudgetView;

    closed spec fn view(&self) -> CreateBudgetView {
        CreateBudgetView {
            id: self.id,
            name: self.name_input@,
            description: self.description_input@,
            value: self.value_input@,
            recurring: self.recurring_input@,
            recurring_choice: match self.recurring_state {
                Some(s) => Some(s@),
                None => None,
            },
            submitted: self.submitted,
        }
    }
}

/// True when the text `s` reads `label`.
fn is_label(s: &String, label: &str) -> (r: bool)
    ensures
        r == (s@ == label@),
{
    s.eq(&String::from_str(label))
}

/// What [`CreateBudget::update`] does: `old` becomes `new` and `r` is returned.
pub open spec fn update_post(old: CreateBudget, message: Message, utc_offset: i32, new: CreateBudget, r: Action) -> bool {
    &&& match message {
            Message::Cancel => new@ == old@ && match old@.id {
                Some(id) => r == Action::CancelWithId(id),
                None => r is Cancel,
            },
            Message::BudgetCreated(id) => new@ == old@ && r == Action::BudgetCreated(id),
            Message::Initialize(None) => new@ == old@ && r is Nothing,
            Message::Initialize(Some(b)) => {
                &&& r is Nothing
                &&& new@.id == Some(b.id)
                &&& new@.name == b.name@
                &&& new@.description == (match b.description { Some(d) => d@, None => Seq::<char>::empty() })
                &&& new@.value == b.total_value@
                &&& new@.recurring_choice == Some(label_of(b.timespan))
                &&& !new@.submitted
                &&& forall|off: i32| budget::recurring_wf(b.timespan) ==>
                    #[trigger] recurring_from(new@.recurring, off) == Ok::<Recurring, RecurringError>(budget::read_back(b.timespan, off))
            },
            Message::NameInput(name) => r is Nothing && new@ == (CreateBudgetView { name: name@, ..old@ }),
            Message::DescriptionInput(text) => r is Nothing && new@ == (CreateBudgetView { description: text@, ..old@ }),
            Message::ValueInput(value) => r is Nothing && new@ == (CreateBudgetView { value: value@, ..old@ }),
            Message::Submit => {
                &&& new@ == (CreateBudgetView { submitted: true, ..old@ })
                &&& r matches Action::Submit(d) && {
                    &&& d.id == old@.id
                    &&& d.name@ == old@.name
                    &&& (if old@.description.len() == 0 { d.description is None } else { d.description matches Some(t) && t@ == old@.description })
                    &&& d.value@ == old@.value
                    &&& d.recurring == recurring_from(old@.recurring, utc_offset)
                }
            },
            Message::RecurringPickList(label) => {
                &&& r is Nothing
                &&& new@ == (CreateBudgetView { recurring: new@.recurring, recurring_choice: Some(label@), ..old@ })
                &&& label@ == days_label() ==> (new@.recurring matches RecurringView::Days(start, days) && days.len() == 0
                    && start.date_input.value.len() == 0 && start.time_input.value.len() == 0)
                &&& label@ == day_in_month_label() ==> new@.recurring == RecurringView::DayInMonth(Seq::empty())
                &&& label@ == yearly_label() ==> new@.recurring == RecurringView::Yearly(Seq::empty(), Seq::empty())
                &&& label@ != days_label() && label@ != day_in_month_label() && label@ != yearly_label()
                    ==> new@.recurring == old@.recurring
            },
            Message::RecurringInput(a) => r is Nothing && new@ == (CreateBudgetView {
                recurring: budget::after_action(old@.recurring, a),
                ..old@
            }),
        }
}

/// The picked label decides the form of the recurrence: picking one of the
/// three labels gives an empty input of that form (and remembers the label);
/// any other text changes nothing of the recurrence.
pub proof fn lemma_picked_label_decides_form(old: CreateBudget, label: String, utc_offset: i32, new: CreateBudget, r: Action)
    requires
        update_post(old, Message::RecurringPickList(label), utc_offset, new, r),
    ensures
        r is Nothing,
        new@.recurring_choice == Some(label@),
        label@ == yearly_label() ==> new@.recurring == RecurringView::Yearly(Seq::empty(), Seq::empty()),
        label@ == day_in_month_label() ==> new@.recurring == RecurringView::DayInMonth(Seq::empty()),
        label@ == days_label() ==> (new@.recurring matches RecurringView::Days(start, days) && days.len() == 0
            && start.date_input.value.len() == 0 && start.time_input.value.len() == 0),
        label@ == days_label() || label@ == day_in_month_label() || label@ == yearly_label() ==> form_label(new@.recurring) == label@,
        label@ != days_label() && label@ != day_in_month_label() && label@ != yearly_label() ==> new@.recurring == old@.recurring,
{
}

/// A submitted budget draft describes the form: its id, name, value and
/// description as typed (none when empty), and the recurrence read from the
/// recurrence input at the offset in force; the form stays, marked as
/// submitted.
pub proof fn lemma_submitted_budget_draft(old: CreateBudget, utc_offset: i32, new: CreateBudget, r: Action)
    requires
        update_post(old, Message::Submit, utc_offset, new, r),
    ensures
        new@ == (CreateBudgetView { submitted: true, ..old@ }),
        r matches Action::Submit(d) && {
            &&& d.id == old@.id
            &&& d.name@ == old@.name
            &&& d.value@ == old@.value
            &&& old@.description.len() == 0 ==> d.description is None
            &&& old@.description.len() > 0 ==> (d.description matches Some(t) && t@ == old@.description)
            &&& d.recurring == recurring_from(old@.recurring, utc_offset)
        },
{
}

/// Picking a form, typing into it and submitting gives a recurrence of the
/// picked form (when the input names one): the label of the submitted
/// recurrence is the label that was picked.
pub proof fn lemma_submitted_recurrence_has_picked_form(
    v0: CreateBudget,
    label: String,
    v1: CreateBudget,
    r1: Action,
    a: budget::Action,
    v2: CreateBudget,
    r2: Action,
    v3: CreateBudget,
    r3: Action,
    utc_offset: i32,
)
    requires
        update_post(v0, Message::RecurringPickList(label), utc_offset, v1, r1),
        update_post(v1, Message::RecurringInput(a), utc_offset, v2, r2),
        update_post(v2, Message::Submit, utc_offset, v3, r3),
        label@ == days_label() || label@ == day_in_month_label() || label@ == yearly_label(),
    ensures
        r3 matches Action::Submit(d) && (d.recurring matches Ok(rec) ==> label_of(rec) == label@),
{
    lemma_picked_label_decides_form(v0, label, utc_offset, v1, r1);
    lemma_typing_keeps_form(v1@.recurring, a);
    lemma_read_back_has_form(v2@.recurring, utc_offset);
}

impl CreateBudget {
    /// An empty form for a new budget, recurring every few days from an
    /// empty start.
    pub fn new() -> (r: Self)
        ensures
            r@.id is None,
            r@.name.len() == 0 && r@.description.len() == 0 && r@.value.len() == 0,
            r@.recurring matches RecurringView::Days(start, days) && days.len() == 0
                && start.date_input.value.len() == 0 && start.time_input.value.len() == 0,
            r@.recurring_choice is None,
            !r@.submitted,
    {
        CreateBudget {
            id: None,
            name_input: String::new(),
            description_input: String::new(),
            value_input: String::new(),
            recurring_input: budget::State::Days(date_time_input::State::default(), String::new()),
            recurring_state: None,
            submitted: false,
        }
    }

    /// The form filled with an existing budget.
    pub fn from_budget(budget: BudgetData) -> (r: Self)
        requires
            budget.timespan matches Recurring::Days { start, .. } ==> (DateTime { date: start.date, time: start.time }).wf(),
        ensures
            r@.id == Some(budget.id),
            r@.name == budget.name@,
            r@.description == (match budget.description { Some(d) => d@, None => Seq::<char>::empty() }),
            r@.value == budget.total_value@,
            r@.recurring_choice == Some(label_of(budget.timespan)),
            !r@.submitted,
            forall|utc_offset: i32| budget::recurring_wf(budget.timespan) ==>
                #[trigger] recurring_from(r@.recurring, utc_offset) == Ok::<Recurring, RecurringError>(budget::read_back(budget.timespan, utc_offset)),
    {
        let BudgetData { id, name, description, total_value, timespan } = budget;
        let label = match timespan {
            Recurring::Days { .. } => String::from_str("Days"),
            Recurring::DayInMonth(_) => String::from_str("Day in month"),
            Recurring::Yearly(_, _) => String::from_str("Yearly"),
        };
        CreateBudget {
            id: Some(id),
            name_input: name,
            description_input: match description {
                Some(d) => d,
                None => String::new(),
            },
            value_input: total_value,
            recurring_input: budget::State::from_recurring(timespan),
            recurring_state: Some(label),
            submitted: false,
        }
    }

    /// Whether the form can be submitted.
    pub fn submittable(&self) -> (r: bool)
        ensures
            r == budget_submittable_spec(self@.name, self@.value, self@.recurring),
    {
        budget_submittable(&self.name_input, &self.value_input, &self.recurring_input)
    }

    /// Applies a message and says what the owner has to do; a submitted
    /// recurrence is dated at `utc_offset` (seconds east of UTC).
    pub fn update(&mut self, message: Message, utc_offset: i32) -> (r: Action)
        requires
            update_defined(old(self)@, message),
        ensures
            update_post(*old(self), message, utc_offset, *final(self), r),

    {
        match message {
            Message::Cancel => match self.id {
                Some(id) => Action::CancelWithId(id),
                None => Action::Cancel,
            },
            Message::BudgetCreated(id) => Action::BudgetCreated(id),
            Message::Initialize(budget) => {
                if let Some(budget) = budget {
                    *self = Self::from_budget(budget);
                }
                Action::Nothing
            },
            Message::NameInput(name) => {
                self.name_input = name;
                Action::Nothing
            },
            Message::DescriptionInput(text) => {
                self.description_input = text;
                Action::Nothing
            },
            Message::ValueInput(value) => {
                self.value_input = value;
                Action::Nothing
            },
            Message::Submit => {
                self.submitted = true;
                let description = if self.description_input.as_str().is_empty() {
                    None
                } else {
                    Some(self.description_input.clone())
                };
                Action::Submit(BudgetDraft {
                    id: self.id,
                    name: self.name_input.clone(),
                    description,
                    value: self.value_input.clone(),
                    recurring: budget::try_recurring_from_state(&self.recurring_input, utc_offset),
                })
            },
            Message::RecurringPickList(recurring) => {
                proof {
                    reveal_strlit("Days");
                    reveal_strlit("Day in month");
                    reveal_strlit("Yearly");
                    assert("Days"@.len() == 4);
                    assert("Day in month"@.len() == 12);
                    assert("Yearly"@.len() == 6);
                }
                if is_label(&recurring, "Days") {
                    self.recurring_input = budget::State::Days(date_time_input::State::default(), String::new());
                } else if is_label(&recurring, "Day in month") {
                    self.recurring_input = budget::State::DayInMonth(String::new());
                } else if is_label(&recurring, "Yearly") {
                    self.recurring_input = budget::State::Yearly(String::new(), String::new());
                }
                self.recurring_state = Some(recurring);
                Action::Nothing
            },
            Message::RecurringInput(action) => {
                self.recurring_input.perform(action);
                Action::Nothing
            },
        }
    }
}

} // verus!
