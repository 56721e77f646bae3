//! The form that creates a transaction or edits an existing one.
use vstd::prelude::*;
use crate::currency_input::{self, CurrencyInput};
use crate::date_time::{OffsetDateTime, DateTime, Time, offset_to_primitive, primitive_to_offset};
use crate::forms::{Sign, SelectedAccount, SelectedAccountView, choice_view, transaction_submittable, transaction_submittable_spec};
use crate::inputs::date_time_input::{self, DateTimeInputView, input_date_time};
use crate::key_value_editor::{self, KeyValueEditor, pair_views};
use crate::named::{NamedId, ordered_by_name, sort_by_name};
use crate::number::normalized_number_text;
use crate::text::{is_blank, text_is_blank};
use crate::validation_text_input::{InputView, ValidationTextInput, Validation, input_error};

verus! {

/// An existing transaction as the form reads it.
pub struct TransactionData {
    pub id: u64,
    /// The amount as the currency type writes it.
    pub amount: String,
    pub title: String,
    pub description: Option<String>,
    /// The budget (by id) and whether the amount counts negated there.
    pub budget: Option<(u64, Sign)>,
    pub date: OffsetDateTime,
    pub metadata: Vec<(String, String)>,
    pub categories: Vec<(u64, Sign)>,
}

/// What the form of an existing transaction is started with.
pub struct InitExisting {
    pub transaction: TransactionData,
    /// The source account's id.
    pub source: u64,
    /// The destination account's id.
    pub destination: u64,
    /// The transaction's budget (its id), when it has one.
    pub budget: Option<u64>,
    pub budgets: Vec<NamedId>,
    pub accounts: Vec<NamedId>,
    pub available_categories: Vec<NamedId>,
}

/// What the user, or a finished fetch, tells the form.
pub enum Message {
    AmountInput(currency_input::Action),
    TitleInput(String),
    /// The description now reads this text (the text of its multi-line
    /// editor after the user's edit).
    DescriptionInput(String),
    DateInput(date_time_input::Action),
    /// The user typed the name of a new source account.
    SourceInput(String),
    SourceSelected(SelectedAccount),
    /// The user typed the name of a new destination account.
    DestinationInput(String),
    DestinationSelected(SelectedAccount),
    /// The user picked the budget with this id.
    BudgetSelected(u64),
    /// Whether the amount counts negated in the budget.
    BudgetSignChange(bool),
    ClearBudget,
    Submit,
    /// The user clicked the category with this id.
    SelectCategory(u64),
    ChangeSelectedCategorySign(u64, Sign),
    Initialize { budgets: Vec<NamedId>, accounts: Vec<NamedId>, categories: Vec<NamedId> },
    InitializeFromExisting(InitExisting),
    TransactionCreated(u64),
    Cancel,
    ToggleMetadataEditor,
    MetadataEditor(key_value_editor::Message),
}

/// The transaction that a submitted form describes.
pub struct TransactionDraft {
    /// The id of the transaction being edited; none for a new one.
    pub id: Option<u64>,
    /// The amount, as the normalised number text.
    pub amount: String,
    pub title: String,
    /// None when the description is blank.
    pub description: Option<String>,
    pub source: SelectedAccount,
    pub destination: SelectedAccount,
    pub budget: Option<(u64, Sign)>,
    pub date: OffsetDateTime,
    pub metadata: Vec<(String, String)>,
    pub categories: Vec<(u64, Sign)>,
}

/// What the owner of the form has to do.
pub enum Action {
    Nothing,
    /// Show the transaction with this id.
    TransactionCreated(u64),
    /// Create the accounts chosen as new (book-checking accounts of that
    /// name), then create (or, with an id, update) the transaction, and hand
    /// its id back as [`Message::TransactionCreated`].
    Submit(TransactionDraft),
    Cancel,
    CancelWithId(u64),
}

/// The abstract state of the form.
pub struct CreateTransactionView {
    /// The id of the transaction being edited.
    pub id: Option<u64>,
    pub amount: InputView,
    pub title: InputView,
    pub description: Seq<char>,
    pub source: Option<SelectedAccountView>,
    pub destination: Option<SelectedAccountView>,
    /// The accounts offered as source and destination, by name.
    pub accounts: Seq<NamedId>,
    /// The budgets offered, by name.
    pub budgets: Seq<NamedId>,
    pub budget: Option<(u64, Sign)>,
    pub date: DateTimeInputView,
    pub metadata: Seq<(Seq<char>, Seq<char>)>,
    /// The categories offered, by name.
    pub categories: Seq<NamedId>,
    pub selected_categories: Seq<(u64, Sign)>,
    pub submitted: bool,
    pub metadata_editor_open: bool,
}

/// True when the form can be submitted.
pub open spec fn submittable(v: CreateTransactionView) -> bool {
    transaction_submittable_spec(
        input_error(v.title.validation, v.title.required, v.title.content) is None,
        v.amount.content,
        input_date_time(v.date) is Some,
        v.source,
        v.destination,
    )
}

/// The ids of the selected categories.
pub open spec fn category_ids(selected: Seq<(u64, Sign)>) -> Seq<u64> {
    selected.map_values(|c: (u64, Sign)| c.0)
}

/// True for the selected categories other than `id`.
pub open spec fn other_than(id: u64) -> spec_fn((u64, Sign)) -> bool {
    |c: (u64, Sign)| c.0 != id
}

/// A click on a category: a selected one is deselected, another one is
/// added, counting positively.
pub open spec fn toggled(selected: Seq<(u64, Sign)>, id: u64) -> Seq<(u64, Sign)> {
    if category_ids(selected).contains(id) {
        selected.filter(other_than(id))
    } else {
        selected.push((id, Sign::Positive))
    }
}

/// A filter that every element passes keeps the list as it is.
proof fn lemma_filter_all<A>(s: Seq<A>, p: spec_fn(A) -> bool)
    requires
        forall|i: int| 0 <= i < s.len() ==> p(#[trigger] s[i]),
    ensures
        s.filter(p) == s,
    decreases s.len(),
{
    reveal(Seq::filter);
    if s.len() > 0 {
        lemma_filter_all(s.drop_last(), p);
        assert(s.drop_last().push(s.last()) =~= s);
    }
}

/// Clicking a category that is not selected twice leaves the selection as
/// it was.
pub proof fn lemma_toggle_twice(selected: Seq<(u64, Sign)>, id: u64)
    requires
        !category_ids(selected).contains(id),
    ensures
        toggled(toggled(selected, id), id) == selected,
{
    let once = selected.push((id, Sign::Positive));
    assert(toggled(selected, id) == once);
    assert(category_ids(once)[selected.len() as int] == id);
    assert(category_ids(once).contains(id));
    reveal(Seq::filter);
    assert(once.drop_last() =~= selected);
    assert forall|i: int| 0 <= i < selected.len() implies other_than(id)(#[trigger] selected[i]) by {
        assert(category_ids(selected)[i] == selected[i].0);
    }
    lemma_filter_all(selected, other_than(id));
}

/// Clicking any category twice leaves the set of selected categories as it
/// was: one that was selected is deselected and then selected again
/// (counting positively), one that was not is added and removed again.
pub proof fn lemma_toggle_twice_ids(selected: Seq<(u64, Sign)>, id: u64)
    ensures
        category_ids(toggled(toggled(selected, id), id)).to_set() == category_ids(selected).to_set(),
{
    if !category_ids(selected).contains(id) {
        lemma_toggle_twice(selected, id);
    } else {
        let p = other_than(id);
        let once = selected.filter(p);
        let twice = once.push((id, Sign::Positive));
        assert(!category_ids(once).contains(id)) by {
            if category_ids(once).contains(id) {
                let k = choose|k: int| 0 <= k < category_ids(once).len() && category_ids(once)[k] == id;
                selected.lemma_filter_pred(p, k);
            }
        }
        assert(toggled(selected, id) == once);
        assert(toggled(once, id) == twice);
        assert forall|x: u64| #[trigger] category_ids(selected).to_set().contains(x)
            implies category_ids(twice).to_set().contains(x) by {
            if x == id {
                assert(category_ids(twice)[once.len() as int] == id);
            } else {
                let i = choose|i: int| 0 <= i < category_ids(selected).len() && category_ids(selected)[i] == x;
                selected.lemma_filter_contains(p, i);
                let j = choose|j: int| 0 <= j < once.len() && once[j] == selected[i];
                assert(category_ids(twice)[j] == x);
            }
        }
        assert forall|x: u64| #[trigger] category_ids(twice).to_set().contains(x)
            implies category_ids(selected).to_set().contains(x) by {
            let k = choose|k: int| 0 <= k < category_ids(twice).len() && category_ids(twice)[k] == x;
            if k == once.len() {
                assert(x == id);
            } else {
                assert(once.contains(once[k]));
                selected.lemma_filter_contains_rev(p, once[k]);
                let i = choose|i: int| 0 <= i < selected.len() && selected[i] == once[k];
                assert(category_ids(selected)[i] == x);
            }
        }
        assert(category_ids(twice).to_set() =~= category_ids(selected).to_set());
    }
}

/// True when `k` is the first position of the category `id`.
pub open spec fn first_position(selected: Seq<(u64, Sign)>, id: u64, k: int) -> bool {
    &&& 0 <= k < selected.len()
    &&& selected[k].0 == id
    &&& forall|j: int| 0 <= j < k ==> selected[j].0 != id
}

/// The selection with the sign of the category `id` (its first entry)
/// changed.
pub open spec fn with_sign(selected: Seq<(u64, Sign)>, id: u64, sign: Sign) -> Seq<(u64, Sign)> {
    if exists|k: int| first_position(selected, id, k) {
        let k = choose|k: int| first_position(selected, id, k);
        selected.update(k, (id, sign))
    } else {
        selected
    }
}

/// True when the form can take `message`: what it passes on is defined
/// there, a submitted form names both accounts, and an existing
/// transaction's budget and date are consistent.
pub open spec fn update_defined(v: CreateTransactionView, message: Message) -> bool {
    match message {
        Message::DateInput(a) => date_time_input::action_defined(v.date, a),
        Message::MetadataEditor(m) => key_value_editor::message_defined(v.metadata, m),
        Message::Submit => submittable(v) && v.source is Some && v.destination is Some,
        Message::InitializeFromExisting(init) => {
            &&& init.budget is Some ==> init.transaction.budget is Some
            &&& (DateTime { date: init.transaction.date.date, time: init.transaction.date.time }).wf()
        },
        _ => true,
    }
}

/// True when `d` describes the transaction of the form `v`, dated at the
/// offset `utc_offset`.
pub open spec fn draft_of(d: TransactionDraft, v: CreateTransactionView, utc_offset: i32) -> bool {
    let date = input_date_time(v.date).unwrap();
    &&& d.id == v.id
    &&& d.amount@ == normalized_number_text(v.amount.content)
    &&& d.title@ == v.title.content
    &&& d.description == (if is_blank(v.description) { None::<String> } else { d.description })
    &&& (d.description matches Some(text) ==> text@ == v.description)
    &&& (!is_blank(v.description) ==> d.description is Some)
    &&& d.source@ == v.source.unwrap()
    &&& d.destination@ == v.destination.unwrap()
    &&& d.budget == v.budget
    &&& d.date == (OffsetDateTime { date: date.date, time: date.time, offset: utc_offset })
    &&& pair_views(d.metadata@) == v.metadata
    &&& d.categories@ == v.selected_categories
}

/// What [`CreateTransaction::update`] does: `old` becomes `new` and `r` is returned.
pub open spec fn update_post(old: CreateTransactionView, message: Message, utc_offset: i32, new: CreateTransactionView, r: Action) -> bool {
    match message {
        Message::TransactionCreated(id) => r == Action::TransactionCreated(id) && new == old,
        Message::Submit => {
            &&& r matches Action::Submit(d) && draft_of(d, old, utc_offset)
            &&& new == (CreateTransactionView { submitted: true, ..old })
        },
        Message::Cancel => new == old && match old.id {
            Some(id) => r == Action::CancelWithId(id),
            None => r is Cancel,
        },
        _ => r is Nothing && match message {
            Message::AmountInput(currency_input::Action::Input(text)) => new == (CreateTransactionView {
                amount: InputView {
                    content: text@,
                    error: input_error(old.amount.validation, old.amount.required, text@),
                    input_changed: true,
                    ..old.amount
                },
                ..old
            }),
            Message::TitleInput(text) => new == (CreateTransactionView {
                title: InputView {
                    content: text@,
                    error: input_error(old.title.validation, old.title.required, text@),
                    input_changed: true,
                    ..old.title
                },
                ..old
            }),
            Message::DescriptionInput(text) => new == (CreateTransactionView { description: text@, ..old }),
            Message::DateInput(a) => new == (CreateTransactionView {
                date: match a {
                    date_time_input::Action::DateInput(d) => DateTimeInputView {
                        date_input: crate::inputs::date_input::after_action(old.date.date_input, d),
                        ..old.date
                    },
                    date_time_input::Action::TimeInput(t) => DateTimeInputView {
                        time_input: crate::inputs::time_input::after_message(old.date.time_input, t),
                        ..old.date
                    },
                },
                ..old
            }),
            Message::SourceInput(name) => new == (CreateTransactionView { source: Some(SelectedAccountView::New(name@)), ..old }),
            Message::SourceSelected(a) => new == (CreateTransactionView { source: Some(a@), ..old }),
            Message::DestinationInput(name) => new == (CreateTransactionView { destination: Some(SelectedAccountView::New(name@)), ..old }),
            Message::DestinationSelected(a) => new == (CreateTransactionView { destination: Some(a@), ..old }),
            Message::BudgetSelected(id) => new == (CreateTransactionView {
                budget: Some((id, match old.budget { Some((_, sign)) => sign, None => Sign::Positive })),
                ..old
            }),
            Message::BudgetSignChange(negative) => new == (CreateTransactionView {
                budget: match old.budget {
                    Some((id, _)) => Some((id, if negative { Sign::Negative } else { Sign::Positive })),
                    None => None,
                },
                ..old
            }),
            Message::ClearBudget => new == (CreateTransactionView { budget: None, ..old }),
            Message::SelectCategory(id) => new == (CreateTransactionView {
                selected_categories: toggled(old.selected_categories, id),
                ..old
            }),
            Message::ChangeSelectedCategorySign(id, sign) => new == (CreateTransactionView {
                selected_categories: with_sign(old.selected_categories, id, sign),
                ..old
            }),
            Message::Initialize { budgets, accounts, categories } => {
                &&& new == (CreateTransactionView {
                    budgets: new.budgets,
                    accounts: new.accounts,
                    categories: new.categories,
                    ..old
                })
                &&& ordered_by_name(new.budgets, budgets@)
                &&& ordered_by_name(new.accounts, accounts@)
                &&& ordered_by_name(new.categories, categories@)
            },
            Message::InitializeFromExisting(init) => {
                let t = init.transaction;
                &&& new.id == Some(t.id)
                &&& new.amount == (InputView {
                    content: t.amount@,
                    error: input_error(old.amount.validation, old.amount.required, t.amount@),
                    input_changed: false,
                    ..old.amount
                })
                &&& new.title == (InputView {
                    content: t.title@,
                    error: input_error(old.title.validation, old.title.required, t.title@),
                    input_changed: false,
                    ..old.title
                })
                &&& new.description == (match t.description { Some(d) => d@, None => Seq::<char>::empty() })
                &&& new.source == Some(SelectedAccountView::Account(init.source))
                &&& new.destination == Some(SelectedAccountView::Account(init.destination))
                &&& ordered_by_name(new.accounts, init.accounts@)
                &&& ordered_by_name(new.budgets, init.budgets@)
                &&& new.budget == (match init.budget {
                    Some(b) => Some((b, t.budget.unwrap().1)),
                    None => None,
                })
                &&& input_date_time(new.date) == Some(DateTime { date: t.date.date, time: Time { second: 0, ..t.date.time } })
                &&& new.metadata == pair_views(t.metadata@)
                &&& ordered_by_name(new.categories, init.available_categories@)
                &&& new.selected_categories == t.categories@
                &&& new.submitted == old.submitted
                &&& new.metadata_editor_open == old.metadata_editor_open
            },
            Message::ToggleMetadataEditor => new == (CreateTransactionView { metadata_editor_open: !old.metadata_editor_open, ..old }),
            Message::MetadataEditor(m) => new == (CreateTransactionView {
                metadata: key_value_editor::after_message(old.metadata, m),
                ..old
            }),
            _ => false,
        },
    }
}

/// The state of the transaction form.
pub struct CreateTransaction {
    id: Option<u64>,
    amount_input: CurrencyInput,
    title_input: ValidationTextInput,
    description_input: String,
    source_input: Option<SelectedAccount>,
    destination_input: Option<SelectedAccount>,
    accounts: Vec<NamedId>,
    budgets: Vec<NamedId>,
    budget_input: Option<(u64, Sign)>,
    date_input: date_time_input::State,
    metadata_editor: KeyValueEditor,
    available_categories: Vec<NamedId>,
    selected_categories: Vec<(u64, Sign)>,
    submitted: bool,
    metadata_editor_open: bool,
}

impl View for CreateTransaction {
    type V = CreateTransactionView;

    closed spec fn view(&self) -> CreateTransactionView {
        CreateTransactionView {
            id: self.id,
            amount: self.amount_input@,
            title: self.title_input@,
            description: self.description_input@,
            source: choice_view(self.source_input),
            destination: choice_view(self.destination_input),
            accounts: self.accounts@,
            budgets: self.budgets@,
            budget: self.budget_input,
            date: self.date_input@,
            metadata: self.metadata_editor@,
            categories: self.available_categories@,
            selected_categories: self.selected_categories@,
            submitted: self.submitted,
            metadata_editor_open: self.metadata_editor_open,
        }
    }
}

/// True when the selection holds the category `id`.
fn selects(selected: &Vec<(u64, Sign)>, id: u64) -> (r: bool)
    ensures
        r == category_ids(selected@).contains(id),
{
    let mut i: usize = 0;
    while i < selected.len()
        invariant
            i <= selected.len(),
            forall|j: int| 0 <= j < i ==> selected@[j].0 != id,
        decreases selected.len() - i,
    {
        if selected[i].0 == id {
            assert(category_ids(selected@)[i as int] == id);
            return true;
        }
        i = i + 1;
    }
    assert forall|j: int| 0 <= j < category_ids(selected@).len() implies category_ids(selected@)[j] != id by {
        assert(category_ids(selected@)[j] == selected@[j].0);
    }
    false
}

/// The selection without the category `id`.
fn deselect(selected: &Vec<(u64, Sign)>, id: u64) -> (r: Vec<(u64, Sign)>)
    ensures
        r@ == selected@.filter(other_than(id)),
{
    let mut r: Vec<(u64, Sign)> = Vec::new();
    let mut i: usize = 0;
    while i < selected.len()
        invariant
            i <= selected.len(),
            r@ == selected@.take(i as int).filter(other_than(id)),
        decreases selected.len() - i,
    {
        proof {
            assert(selected@.take(i as int + 1).drop_last() =~= selected@.take(i as int));
            reveal(Seq::filter);
        }
        if selected[i].0 != id {
            r.push(selected[i]);
        }
        i = i + 1;
    }
    assert(selected@.take(selected.len() as int) =~= selected@);
    r
}

/// Sets the sign of the first entry of the category `id`, if there is one.
fn set_sign(selected: &mut Vec<(u64, Sign)>, id: u64, sign: Sign)
    ensures
        final(selected)@ == with_sign(old(selected)@, id, sign),
{
    let mut i: usize = 0;
    while i < selected.len()
        invariant
            i <= selected.len(),
            *selected == *old(selected),
            forall|j: int| 0 <= j < i ==> selected@[j].0 != id,
        decreases selected.len() - i,
    {
        if selected[i].0 == id {
            proof {
                assert(first_position(selected@, id, i as int));
                let k = choose|k: int| first_position(selected@, id, k);
                assert(k == i) by {
                    if k < i {
                        assert(selected@[k].0 != id);
                    } else if k > i {
                        assert(selected@[i as int].0 != id);
                    }
                }
            }
            selected.set(i, (id, sign));
            return;
        }
        i = i + 1;
    }
    assert(!exists|k: int| first_position(old(selected)@, id, k));
}

impl CreateTransaction {
    /// An empty form for a new transaction: a required amount and title, no
    /// accounts, budget, categories or metadata; the data to choose from
    /// arrives as [`Message::Initialize`].
    pub fn new() -> (r: Self)
        ensures
            r@.id is None,
            r@.amount.content.len() == 0 && r@.amount.validation == Validation::Number && r@.amount.required,
            r@.title.content.len() == 0 && r@.title.validation == Validation::Anything && r@.title.required,
            r@.description.len() == 0,
            r@.source is None && r@.destination is None && r@.budget is None,
            r@.accounts.len() == 0 && r@.budgets.len() == 0 && r@.categories.len() == 0,
            r@.date.date_input.value.len() == 0 && r@.date.time_input.value.len() == 0,
            r@.metadata.len() == 0,
            r@.selected_categories.len() == 0,
            !r@.submitted && !r@.metadata_editor_open,
    {
        CreateTransaction {
            id: None,
            amount_input: CurrencyInput::default(),
            title_input: ValidationTextInput::new(String::new()).required(true),
            description_input: String::new(),
            source_input: None,
            destination_input: None,
            accounts: Vec::new(),
            budgets: Vec::new(),
            budget_input: None,
            date_input: date_time_input::State::default(),
            metadata_editor: KeyValueEditor::default(),
            available_categories: Vec::new(),
            selected_categories: Vec::new(),
            submitted: false,
            metadata_editor_open: false,
        }
    }

    /// Whether the form can be submitted.
    pub fn submittable(&self) -> (r: bool)
        ensures
            r == submittable(self@),
    {
        transaction_submittable(
            &self.title_input,
            &self.amount_input,
            &self.date_input,
            &self.source_input,
            &self.destination_input,
        )
    }

    /// Whether the form was submitted.
    pub fn submitted(&self) -> (r: bool)
        ensures
            r == self@.submitted,
    {
        self.submitted
    }

    /// The transaction that the form describes, dated at `utc_offset`.
    fn draft(&self, utc_offset: i32) -> (d: TransactionDraft)
        requires
            submittable(self@),
            self@.source is Some,
            self@.destination is Some,
        ensures
            draft_of(d, self@, utc_offset),
    {
        let amount = self.amount_input.currency().unwrap();
        let title = self.title_input.value().clone();
        let description = if text_is_blank(self.description_input.as_str()) {
            None
        } else {
            Some(self.description_input.clone())
        };
        let source = match &self.source_input {
            Some(s) => s.copy(),
            None => SelectedAccount::Account(0),
        };
        let destination = match &self.destination_input {
            Some(s) => s.copy(),
            None => SelectedAccount::Account(0),
        };
        let date = self.date_input.datetime().unwrap();
        let mut categories: Vec<(u64, Sign)> = Vec::new();
        let mut i: usize = 0;
        while i < self.selected_categories.len()
            invariant
                i <= self.selected_categories.len(),
                categories@ == self.selected_categories@.take(i as int),
            decreases self.selected_categories.len() - i,
        {
            categories.push(self.selected_categories[i]);
            i = i + 1;
            assert(categories@ =~= self.selected_categories@.take(i as int));
        }
        assert(self.selected_categories@.take(i as int) =~= self.selected_categories@);
        TransactionDraft {
            id: self.id,
            amount,
            title,
            description,
            source,
            destination,
            budget: self.budget_input,
            date: primitive_to_offset(date, utc_offset),
            metadata: self.metadata_editor.pairs(),
            categories,
        }
    }

    /// Applies a message and says what the owner has to do; a submitted
    /// transaction is dated at `utc_offset` (seconds east of UTC).
    #[verifier::rlimit(60)]
    pub fn update(&mut self, message: Message, utc_offset: i32) -> (r: Action)
        requires
            update_defined(old(self)@, message),
        ensures
            update_post(old(self)@, message, utc_offset, final(self)@, r),
    {
        match message {
            Message::TransactionCreated(id) => return Action::TransactionCreated(id),
            Message::Submit => {
                self.submitted = true;
                return Action::Submit(self.draft(utc_offset));
            },
            Message::AmountInput(action) => self.amount_input.perform(action),
            Message::TitleInput(content) => self.title_input.edit_content(content),
            Message::DescriptionInput(text) => self.description_input = text,
            Message::DateInput(action) => self.date_input.perform(action),
            Message::SourceInput(content) => self.source_input = Some(SelectedAccount::New(content)),
            Message::BudgetSelected(id) => {
                let sign = match self.budget_input {
                    Some((_, sign)) => sign,
                    None => Sign::Positive,
                };
                self.budget_input = Some((id, sign));
            },
            Message::SourceSelected(content) => self.source_input = Some(content),
            Message::DestinationInput(content) => self.destination_input = Some(SelectedAccount::New(content)),
            Message::DestinationSelected(content) => self.destination_input = Some(content),
            Message::ClearBudget => self.budget_input = None,
            Message::SelectCategory(id) => {
                if selects(&self.selected_categories, id) {
                    self.selected_categories = deselect(&self.selected_categories, id);
                } else {
                    self.selected_categories.push((id, Sign::Positive));
                }
            },
            Message::ChangeSelectedCategorySign(id, sign) => set_sign(&mut self.selected_categories, id, sign),
            Message::BudgetSignChange(negative) => {
                if let Some((id, _)) = self.budget_input {
                    self.budget_input = Some((id, if negative { Sign::Negative } else { Sign::Positive }));
                }
            },
            Message::Initialize { budgets, accounts, categories } => {
                self.budgets = sort_by_name(budgets);
                self.available_categories = sort_by_name(categories);
                self.accounts = sort_by_name(accounts);
            },
            Message::InitializeFromExisting(init) => {
                let InitExisting { transaction, source, destination, budget, budgets, accounts, available_categories } = init;
                let TransactionData { id, amount, title, description, budget: transaction_budget, date, metadata, categories } = transaction;
                self.id = Some(id);
                self.amount_input.set_value(amount);
                self.title_input.set_content(title);
                self.description_input = match description {
                    Some(d) => d,
                    None => String::new(),
                };
                self.source_input = Some(SelectedAccount::Account(source));
                self.accounts = sort_by_name(accounts);
                self.destination_input = Some(SelectedAccount::Account(destination));
                self.budget_input = match budget {
                    Some(b) => match transaction_budget {
                        Some((_, sign)) => Some((b, sign)),
                        None => None,
                    },
                    None => None,
                };
                self.budgets = sort_by_name(budgets);
                self.date_input = date_time_input::State::new(Some(offset_to_primitive(date)));
                self.metadata_editor = KeyValueEditor::new(metadata);
                self.available_categories = sort_by_name(available_categories);
                self.selected_categories = categories;
            },
            Message::Cancel => {
                return match self.id {
                    Some(id) => Action::CancelWithId(id),
                    None => Action::Cancel,
                };
            },
            Message::ToggleMetadataEditor => self.metadata_editor_open = !self.metadata_editor_open,
            Message::MetadataEditor(m) => self.metadata_editor.update(m),
        }
        Action::Nothing
    }
}

} // verus!
