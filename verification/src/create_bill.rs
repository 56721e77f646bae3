//! The form that creates a bill or edits an existing one: a name, a value,
//! a due date and the transactions that pay it, picked from a filtered list.
use vstd::prelude::*;
use crate::add_transaction::{self, AddTransaction, AddTransactionView, Identified, rows_wf, with_rows};
use crate::currency_input::{self, CurrencyInput};
use crate::date_time::DateTime;
use crate::forms::{Sign, bill_submittable};
use crate::inputs::date_time_input::{self, DateTimeInputView, input_date_time};
use crate::named::NamedId;
use crate::number::{is_number_text, normalized_number_text};
use crate::table::{self, State, TableView, table_wf, is_permutation, identity, identity_order};
use crate::text::{is_blank, text_is_blank};
use crate::validation_text_input::{InputView, Validation, input_error};

verus! {

/// An existing bill as the form reads it.
pub struct BillData {
    pub id: u64,
    pub name: String,
    pub description: Option<String>,
    /// The value as the currency type writes it.
    pub value: String,
    pub due_date: Option<DateTime>,
}

/// What the user, or a finished fetch, tells the form.
pub enum Message<T> {
    DueDateChanged(date_time_input::Action),
    NameInputChanged(String),
    ValueChanged(currency_input::Action),
    /// The description now reads this text (the text of its multi-line
    /// editor after the user's edit).
    DescriptionInputChanged(String),
    AddTransactionToggle,
    ChangeTransactionSign(u64, Sign),
    RemoveTransaction(u64),
    AddTransaction(add_transaction::Message<T>),
    Submit,
    /// The bill to edit (none for a new one), its transactions with their
    /// signs, and the accounts.
    Initialize(Option<BillData>, Vec<(Identified<T>, Sign)>, Vec<NamedId>),
    BillCreated(u64),
    TransactionTable(table::InnerMessage<Message<T>>),
    Cancel,
}

/// The bill that a submitted form describes.
pub struct BillDraft {
    /// The id of the bill being edited; none for a new one.
    pub id: Option<u64>,
    pub name: String,
    /// None when the description is blank.
    pub description: Option<String>,
    /// The value, as the normalised number text.
    pub value: String,
    /// The transactions (by id) with their signs, in the form's order; a
    /// later entry for the same id replaces an earlier one.
    pub transactions: Vec<(u64, Sign)>,
    pub due_date: Option<DateTime>,
}

/// What the owner of the form has to do.
pub enum Action<T> {
    Nothing,
    /// Show the bill with this id.
    BillCreated(u64),
    Cancel,
    CancelWithId(u64),
    /// Create (or, with an id, update) the bill, and hand its id back as
    /// [`Message::BillCreated`].
    Submit(BillDraft),
    /// Fetch the accounts, categories, bills and budgets and hand them to
    /// the transaction picker as its `Init`, with these transaction ids to
    /// ignore.
    FetchPickerData(Vec<u64>),
    /// Do what the transaction picker asks; answers go back as
    /// [`Message::AddTransaction`], and an order for its table to
    /// [`CreateBill::sort_picker_table`].
    Picker(add_transaction::Action<T>),
    /// Scroll the table of the bill's transactions to the top.
    ScrollToTop,
    /// Order the rows of the bill's table by `column` (backwards when
    /// `reverse`), pass the order to [`CreateBill::sort_table`], then scroll
    /// to the top.
    SortTable { column: usize, reverse: bool },
}

/// A due-date action reaches the part of the due date it names, and only
/// the due date changes: an action on the time input leaves the date input
/// as it was and does to the time input what that input does (typing a
/// text shows that text); an action on the date input leaves the time input
/// as it was and does to the date input what that input does (typing a text
/// shows that text).
pub proof fn lemma_due_date_action_reaches_its_part<T>(
    old: CreateBillView<T>,
    a: date_time_input::Action,
    new: CreateBillView<T>,
    r: Action<T>,
)
    requires
        update_post(old, Message::DueDateChanged(a), new, r),
    ensures
        r is Nothing,
        new == (CreateBillView { due_date: new.due_date, ..old }),
        a matches date_time_input::Action::TimeInput(m) ==> {
            &&& new.due_date.date_input == old.due_date.date_input
            &&& new.due_date.time_input == crate::inputs::time_input::after_message(old.due_date.time_input, m)
            &&& m matches crate::inputs::time_input::Message::OnInput(text) ==> new.due_date.time_input.value == text@
        },
        a matches date_time_input::Action::DateInput(d) ==> {
            &&& new.due_date.time_input == old.due_date.time_input
            &&& new.due_date.date_input == crate::inputs::date_input::after_action(old.due_date.date_input, d)
            &&& d matches crate::inputs::date_input::Action::InputChanged(text) ==> new.due_date.date_input.value == text@
        },
{
}

/// A submitted draft has the due date that was typed: when the date input
/// names a day and the time input a time of day, the due date is that day
/// at that time; when the time input names none, there is no due date.
pub proof fn lemma_submitted_due_date<T>(
    v: CreateBillView<T>,
    new: CreateBillView<T>,
    r: Action<T>,
    day: crate::date_time::Date,
    time: crate::date_time::Time,
)
    requires
        update_post(v, Message::Submit, new, r),
    ensures
        r is Submit,
        r matches Action::Submit(draft) ==> {
            &&& (crate::date_time::date_from_text(v.due_date.date_input.value) == Ok::<crate::date_time::Date, crate::date_time::DateTimeError>(day)
                && crate::date_time::time_from_text(v.due_date.time_input.value) == Ok::<crate::date_time::Time, crate::date_time::DateTimeError>(time))
                ==> draft.due_date == Some(DateTime { date: day, time })
            &&& crate::date_time::time_from_text(v.due_date.time_input.value) is Err ==> draft.due_date is None
        },
{
}

/// A submitted draft describes the form as it is: its id, the name typed,
/// the value as a normalised number, the description unless blank, and the
/// ids of its transactions with their signs in the form's order; the form
/// stays as it was, marked as submitted.
pub proof fn lemma_submitted_draft<T>(v: CreateBillView<T>, new: CreateBillView<T>, r: Action<T>)
    requires
        update_post(v, Message::Submit, new, r),
    ensures
        new == (CreateBillView { submitted: true, ..v }),
        r matches Action::Submit(draft) && {
            &&& draft.id == v.id
            &&& draft.name@ == v.name
            &&& draft.value@ == normalized_number_text(v.value.content)
            &&& !is_blank(v.description) ==> (draft.description matches Some(text) && text@ == v.description)
            &&& is_blank(v.description) ==> draft.description is None
            &&& draft.transactions@.len() == v.transactions.len()
            &&& forall|i: int| 0 <= i < v.transactions.len() ==>
                #[trigger] draft.transactions@[i] == (v.transactions[i].0.id, v.transactions[i].1)
        },
{
}

/// The abstract state of the form.
pub struct CreateBillView<T> {
    /// The id of the bill being edited.
    pub id: Option<u64>,
    pub name: Seq<char>,
    pub description: Seq<char>,
    pub value: InputView,
    pub due_date: DateTimeInputView,
    /// The bill's transactions with their signs, in the order they came.
    pub transactions: Seq<(Identified<T>, Sign)>,
    /// The table of the bill's transactions: its rows are positions in
    /// `transactions`.
    pub table: TableView<usize, Vec<NamedId>>,
    /// The transaction picker, while it is open.
    pub picker: Option<AddTransactionView<T>>,
    pub submitted: bool,
}

/// True for the states the form keeps.
pub open spec fn bill_wf<T>(v: CreateBillView<T>) -> bool {
    &&& table_wf(v.table)
    &&& is_permutation(v.table.items, v.transactions.len())
    &&& v.picker matches Some(p) ==> rows_wf(p)
}

/// True when the form can be submitted: it has a name and its value is a
/// number.
pub open spec fn submittable<T>(v: CreateBillView<T>) -> bool {
    v.name.len() > 0 && is_number_text(v.value.content)
}

/// The ids of the bill's transactions.
pub open spec fn transaction_ids<T>(ts: Seq<(Identified<T>, Sign)>) -> Seq<u64> {
    ts.map_values(|x: (Identified<T>, Sign)| x.0.id)
}

/// The ids of the bill's transactions with their signs.
pub open spec fn signed_ids<T>(ts: Seq<(Identified<T>, Sign)>) -> Seq<(u64, Sign)> {
    ts.map_values(|x: (Identified<T>, Sign)| (x.0.id, x.1))
}

/// True for the entries of transactions other than `id`.
pub open spec fn not_transaction<T>(id: u64) -> spec_fn((Identified<T>, Sign)) -> bool {
    |x: (Identified<T>, Sign)| x.0.id != id
}

/// True when `k` is the first position of the transaction `id`.
pub open spec fn first_entry<T>(ts: Seq<(Identified<T>, Sign)>, id: u64, k: int) -> bool {
    &&& 0 <= k < ts.len()
    &&& ts[k].0.id == id
    &&& forall|j: int| 0 <= j < k ==> ts[j].0.id != id
}

/// The entries with the sign of the transaction `id` (its first entry)
/// changed.
pub open spec fn with_sign<T>(ts: Seq<(Identified<T>, Sign)>, id: u64, sign: Sign) -> Seq<(Identified<T>, Sign)> {
    let k = choose|k: int| first_entry(ts, id, k);
    ts.update(k, (ts[k].0, sign))
}

/// Transactions added from the picker: they count negated.
pub open spec fn added_entries<T>(added: Seq<Identified<T>>) -> Seq<(Identified<T>, Sign)> {
    added.map_values(|t: Identified<T>| (t, Sign::Negative))
}

/// True when the form can take `message`: what it passes on is defined
/// there, a submitted form is submittable, a sign is changed for a
/// transaction of the bill, and a bill's due date is a valid date.
pub open spec fn update_defined<T>(v: CreateBillView<T>, message: Message<T>) -> bool
    decreases message,
{
    match message {
        Message::DueDateChanged(a) => date_time_input::action_defined(v.due_date, a),
        Message::Submit => submittable(v),
        Message::ChangeTransactionSign(id, _) => transaction_ids(v.transactions).contains(id),
        Message::AddTransaction(m) => v.picker matches Some(p) ==> add_transaction::update_defined(p, m),
        Message::Initialize(bill, _, _) => bill matches Some(b) ==> (b.due_date matches Some(d) ==> d.wf()),
        Message::TransactionTable(inner) => {
            &&& table::perform_defined(v.table, inner)
            &&& inner matches table::InnerMessage::OuterMessage(m) ==> update_defined(v, *m)
        },
        _ => true,
    }
}

/// True when `d` describes the bill of the form `v`.
pub open spec fn draft_of<T>(d: BillDraft, v: CreateBillView<T>) -> bool {
    &&& d.id == v.id
    &&& d.name@ == v.name
    &&& (if is_blank(v.description) { d.description is None } else { d.description matches Some(text) && text@ == v.description })
    &&& d.value@ == normalized_number_text(v.value.content)
    &&& d.transactions@ == signed_ids(v.transactions)
    &&& d.due_date == input_date_time(v.due_date)
}

/// What the form does with an answer `ra` of the picker, which is now `p`.
pub open spec fn after_picker<T>(old: CreateBillView<T>, p: AddTransactionView<T>, ra: add_transaction::Action<T>, new: CreateBillView<T>, r: Action<T>) -> bool {
    match ra {
        add_transaction::Action::Escape => r is Nothing && new == (CreateBillView { picker: None, ..old }),
        add_transaction::Action::AddTransactions(added) => {
            let ts = old.transactions + added_entries(added@);
            &&& r is Nothing
            &&& new == (CreateBillView { picker: Some(p), transactions: ts, table: with_rows(old.table, ts.len()), ..old })
        },
        add_transaction::Action::Nothing => r is Nothing && new == (CreateBillView { picker: Some(p), ..old }),
        _ => r == Action::Picker(ra) && new == (CreateBillView { picker: Some(p), ..old }),
    }
}

/// What [`CreateBill::update`] does: `old` becomes `new` and `r` is
/// returned.
pub open spec fn update_post<T>(old: CreateBillView<T>, message: Message<T>, new: CreateBillView<T>, r: Action<T>) -> bool
    decreases message,
{
    match message {
        Message::Cancel => new == old && match old.id {
            Some(id) => r == Action::<T>::CancelWithId(id),
            None => r is Cancel,
        },
        Message::BillCreated(id) => new == old && r == Action::<T>::BillCreated(id),
        Message::Initialize(bill, transactions, accounts) => {
            &&& r is Nothing
            &&& new.transactions == transactions@
            &&& new.table == (TableView { items: identity(transactions@.len()), context: accounts, page: 0, sort_column: None, sort_reverse: false, ..old.table })
            &&& new.picker is None
            &&& new.submitted == old.submitted
            &&& match bill {
                Some(b) => {
                    &&& new.id == Some(b.id)
                    &&& new.name == b.name@
                    &&& new.description == (match b.description { Some(d) => d@, None => Seq::<char>::empty() })
                    &&& new.value == (InputView {
                        content: b.value@,
                        validation: Validation::Number,
                        required: true,
                        error: input_error(Validation::Number, true, b.value@),
                        input_changed: false,
                    })
                    &&& new.due_date.date_input.value == (match b.due_date { Some(d) => crate::date_time::date_text(d.date), None => Seq::<char>::empty() })
                    &&& new.due_date.time_input.value == (match b.due_date { Some(d) => crate::date_time::time_text(d.time), None => Seq::<char>::empty() })
                    &&& new.due_date.date_input.default_value is None
                    &&& !new.due_date.date_input.drop_down && !new.due_date.time_input.drop_down
                },
                None => new.id == old.id && new.name == old.name && new.description == old.description
                    && new.value == old.value && new.due_date == old.due_date,
            }
        },
        Message::DueDateChanged(a) => r is Nothing && new == (CreateBillView {
            due_date: match a {
                date_time_input::Action::DateInput(d) => DateTimeInputView {
                    date_input: crate::inputs::date_input::after_action(old.due_date.date_input, d),
                    ..old.due_date
                },
                date_time_input::Action::TimeInput(t) => DateTimeInputView {
                    time_input: crate::inputs::time_input::after_message(old.due_date.time_input, t),
                    ..old.due_date
                },
            },
            ..old
        }),
        Message::NameInputChanged(name) => r is Nothing && new == (CreateBillView { name: name@, ..old }),
        Message::ValueChanged(currency_input::Action::Input(text)) => r is Nothing && new == (CreateBillView {
            value: InputView {
                content: text@,
                error: input_error(old.value.validation, old.value.required, text@),
                input_changed: true,
                ..old.value
            },
            ..old
        }),
        Message::DescriptionInputChanged(text) => r is Nothing && new == (CreateBillView { description: text@, ..old }),
        Message::Submit => {
            &&& r matches Action::Submit(d) && draft_of(d, old)
            &&& new == (CreateBillView { submitted: true, ..old })
        },
        Message::AddTransactionToggle => match old.picker {
            Some(_) => r is Nothing && new == (CreateBillView { picker: None, ..old }),
            None => {
                &&& r matches Action::FetchPickerData(ids) && ids@ == transaction_ids(old.transactions)
                &&& new.picker matches Some(p) && p.filter is None && p.transactions.len() == 0 && p.ignored.len() == 0
                    && p.table.items.len() == 0 && p.table.context@.len() == 0 && p.table.page_size == 50 && p.table.page == 0
                    && p.table.sort_column is None && !p.table.sort_reverse
                    && p.table.sortable == seq![1usize, 2, 3, 4, 5] && p.table.sorting
                &&& new == (CreateBillView { picker: new.picker, ..old })
            },
        },
        Message::ChangeTransactionSign(id, sign) => {
            let ts = with_sign(old.transactions, id, sign);
            r is Nothing && new == (CreateBillView { transactions: ts, table: with_rows(old.table, ts.len()), ..old })
        },
        Message::RemoveTransaction(id) => {
            let ts = old.transactions.filter(not_transaction(id));
            r is Nothing && new == (CreateBillView { transactions: ts, table: with_rows(old.table, ts.len()), ..old })
        },
        Message::AddTransaction(m) => match old.picker {
            None => r is Nothing && new == old,
            Some(p) => exists|p2: AddTransactionView<T>, ra: add_transaction::Action<T>|
                #[trigger] add_transaction::update_post(p, m, p2, ra) && after_picker(old, p2, ra, new, r),
        },
        Message::TransactionTable(inner) => match inner {
            table::InnerMessage::OuterMessage(m) => update_post(old, *m, new, r),
            _ => {
                &&& new == (CreateBillView { table: new.table, ..old })
                &&& match r {
                    Action::ScrollToTop => table::perform_post(old.table, inner, new.table, table::Action::ScrollToTop),
                    Action::SortTable { column, reverse } =>
                        table::perform_post(old.table, inner, new.table, table::Action::Sort { column, reverse }),
                    Action::Nothing => table::perform_post(old.table, inner, new.table, table::Action::Nothing),
                    _ => false,
                }
            },
        },
    }
}

/// The state of the bill form.
pub struct CreateBill<T> {
    id: Option<u64>,
    name_input: String,
    description_input: String,
    value: CurrencyInput,
    due_date_input: date_time_input::State,
    transactions: Vec<(Identified<T>, Sign)>,
    transaction_table: State<usize, Vec<NamedId>>,
    add_transaction: Option<AddTransaction<T>>,
    submitted: bool,
}

impl<T> View for CreateBill<T> {
    type V = CreateBillView<T>;

    closed spec fn view(&self) -> CreateBillView<T> {
        CreateBillView {
            id: self.id,
            name: self.name_input@,
            description: self.description_input@,
            value: self.value@,
            due_date: self.due_date_input@,
            transactions: self.transactions@,
            table: self.transaction_table@,
            picker: match self.add_transaction {
                Some(p) => Some(p@),
                None => None,
            },
            submitted: self.submitted,
        }
    }
}

/// The ids of the bill's transactions.
fn ids_of_entries<T>(ts: &Vec<(Identified<T>, Sign)>) -> (ids: Vec<u64>)
    ensures
        ids@ == transaction_ids(ts@),
{
    let mut ids: Vec<u64> = Vec::new();
    let mut i: usize = 0;
    while i < ts.len()
        invariant
            i <= ts.len(),
            ids@ == transaction_ids(ts@.take(i as int)),
        decreases ts.len() - i,
    {
        ids.push(ts[i].0.id);
        assert(transaction_ids(ts@.take(i as int + 1)) =~= transaction_ids(ts@.take(i as int)).push(ts@[i as int].0.id));
        i = i + 1;
    }
    assert(ts@.take(ts.len() as int) =~= ts@);
    ids
}

/// The ids of the bill's transactions with their signs.
fn signed_ids_of<T>(ts: &Vec<(Identified<T>, Sign)>) -> (r: Vec<(u64, Sign)>)
    ensures
        r@ == signed_ids(ts@),
{
    let mut r: Vec<(u64, Sign)> = Vec::new();
    let mut i: usize = 0;
    while i < ts.len()
        invariant
            i <= ts.len(),
            r@ == signed_ids(ts@.take(i as int)),
        decreases ts.len() - i,
    {
        r.push((ts[i].0.id, ts[i].1));
        assert(signed_ids(ts@.take(i as int + 1)) =~= signed_ids(ts@.take(i as int)).push((ts@[i as int].0.id, ts@[i as int].1)));
        i = i + 1;
    }
    assert(ts@.take(ts.len() as int) =~= ts@);
    r
}

/// The entries of transactions other than `id`, in their order.
fn without_transaction<T>(ts: Vec<(Identified<T>, Sign)>, id: u64) -> (kept: Vec<(Identified<T>, Sign)>)
    ensures
        kept@ == ts@.filter(not_transaction(id)),
{
    let ghost all = ts@;
    let mut kept: Vec<(Identified<T>, Sign)> = Vec::new();
    let mut rest = ts;
    let ghost mut done: int = 0;
    while rest.len() > 0
        invariant
            0 <= done <= all.len(),
            rest@ == all.skip(done),
            kept@ == all.take(done).filter(not_transaction(id)),
        decreases rest.len(),
    {
        let x = rest.remove(0);
        proof {
            assert(all.take(done + 1).drop_last() =~= all.take(done));
            assert(all.take(done + 1).last() == x);
            reveal(Seq::filter);
        }
        if x.0.id != id {
            kept.push(x);
        }
        proof {
            assert(rest@ =~= all.skip(done + 1));
            done = done + 1;
        }
    }
    assert(all.take(done) =~= all);
    kept
}

/// Appends the picked transactions, each counting negated.
fn append_added<T>(ts: &mut Vec<(Identified<T>, Sign)>, added: Vec<Identified<T>>)
    ensures
        final(ts)@ == old(ts)@ + added_entries(added@),
{
    let ghost start = ts@;
    let ghost all = added@;
    let mut rest = added;
    let ghost mut done: int = 0;
    while rest.len() > 0
        invariant
            0 <= done <= all.len(),
            rest@ == all.skip(done),
            ts@ == start + added_entries(all.take(done)),
        decreases rest.len(),
    {
        let t = rest.remove(0);
        ts.push((t, Sign::Negative));
        proof {
            assert(added_entries(all.take(done + 1)) =~= added_entries(all.take(done)).push((t, Sign::Negative)));
            assert(rest@ =~= all.skip(done + 1));
            done = done + 1;
        }
    }
    assert(all.take(done) =~= all);
}

impl<T> CreateBill<T> {
    /// An empty form for a new bill: no name, description or transactions,
    /// an empty required value and due date; its table is sortable by the
    /// columns 0 and 2 to 6 (sign, title, amount, date, source, destination).
    pub fn new() -> (r: Self)
        ensures
            bill_wf(r@),
            r@.id is None,
            r@.name.len() == 0 && r@.description.len() == 0,
            r@.value.content.len() == 0 && r@.value.validation == Validation::Number && r@.value.required,
            r@.due_date.date_input.value.len() == 0 && r@.due_date.time_input.value.len() == 0,
            r@.transactions.len() == 0,
            r@.table.items.len() == 0 && r@.table.context@.len() == 0,
            r@.table.sortable == seq![0usize, 2, 3, 4, 5, 6] && r@.table.sorting,
            r@.picker is None,
            !r@.submitted,
    {
        let columns: Vec<usize> = vec![0, 2, 3, 4, 5, 6];
        let rows: Vec<usize> = Vec::new();
        let r = CreateBill {
            id: None,
            name_input: String::new(),
            description_input: String::new(),
            value: CurrencyInput::default(),
            due_date_input: date_time_input::State::default(),
            transactions: Vec::new(),
            transaction_table: State::new(rows, Vec::new()).sort_by().sortable_columns(columns),
            add_transaction: None,
            submitted: false,
        };
        assert(r@.table.items =~= Seq::<usize>::empty());
        r
    }

    /// Whether the form can be submitted.
    pub fn submittable(&self) -> (r: bool)
        ensures
            r == submittable(self@),
    {
        bill_submittable(&self.name_input, &self.value)
    }

    /// The bill's transactions with their signs, in the order they came.
    pub fn transactions(&self) -> (r: &Vec<(Identified<T>, Sign)>)
        ensures
            r@ == self@.transactions,
    {
        &self.transactions
    }

    /// The table of the bill's transactions; its rows are positions in
    /// [`CreateBill::transactions`].
    pub fn table(&self) -> (r: &State<usize, Vec<NamedId>>)
        ensures
            r@ == self@.table,
    {
        &self.transaction_table
    }

    /// The transaction picker, while it is open.
    pub fn picker(&self) -> (r: &Option<AddTransaction<T>>)
        ensures
            self@.picker == (match *r {
                Some(p) => Some(p@),
                None => None,
            }),
    {
        &self.add_transaction
    }

    /// Sorts the table of the bill's transactions in the order that the
    /// owner computed for [`Action::SortTable`].
    pub fn sort_table(&mut self, column: usize, reverse: bool, order: Vec<usize>)
        requires
            bill_wf(old(self)@),
            is_permutation(order@, old(self)@.table.items.len()),
        ensures
            bill_wf(final(self)@),
            old(self)@.table.sorting ==> final(self)@ == (CreateBillView {
                table: TableView {
                    items: Seq::new(old(self)@.table.items.len(), |i: int| old(self)@.table.items[order@[i] as int]),
                    sort_column: Some(column),
                    sort_reverse: reverse,
                    ..old(self)@.table
                },
                ..old(self)@
            }),
            !old(self)@.table.sorting ==> final(self)@ == old(self)@,
    {
        proof {
            table::lemma_permuted_permutation(self@.table.items, order@, self@.transactions.len());
        }
        self.transaction_table.sort(column, reverse, order);
    }

    /// Sorts the picker's table in the order that the owner computed for
    /// its `SortTable`.
    pub fn sort_picker_table(&mut self, column: usize, reverse: bool, order: Vec<usize>)
        requires
            bill_wf(old(self)@),
            old(self)@.picker matches Some(p) ==> is_permutation(order@, p.table.items.len()),
        ensures
            bill_wf(final(self)@),
            final(self)@ == (CreateBillView { picker: final(self)@.picker, ..old(self)@ }),
            match old(self)@.picker {
                Some(p) => final(self)@.picker matches Some(q) && {
                    &&& q == (AddTransactionView { table: q.table, ..p })
                    &&& p.table.sorting ==> q.table == (TableView {
                        items: Seq::new(p.table.items.len(), |i: int| p.table.items[order@[i] as int]),
                        sort_column: Some(column),
                        sort_reverse: reverse,
                        ..p.table
                    })
                    &&& !p.table.sorting ==> q.table == p.table
                },
                None => final(self)@.picker is None,
            },
    {
        match &mut self.add_transaction {
            Some(p) => p.sort_table(column, reverse, order),
            None => {},
        }
    }

    /// Shows the bill's transactions in their order again.
    fn reset_rows(&mut self)
        requires
            old(self)@.table.page_size > 0,
        ensures
            final(self)@ == (CreateBillView { table: with_rows(old(self)@.table, old(self)@.transactions.len()), ..old(self)@ }),
            is_permutation(final(self)@.table.items, final(self)@.transactions.len()),
            table_wf(final(self)@.table),
    {
        let rows = identity_order(self.transactions.len());
        proof { table::lemma_identity_permutation(self@.transactions.len()); }
        self.transaction_table.set_items(rows);
    }

    /// The bill that the form describes.
    fn draft(&self) -> (d: BillDraft)
        requires
            submittable(self@),
        ensures
            draft_of(d, self@),
    {
        let description = if text_is_blank(self.description_input.as_str()) {
            None
        } else {
            Some(self.description_input.clone())
        };
        BillDraft {
            id: self.id,
            name: self.name_input.clone(),
            description,
            value: self.value.currency().unwrap(),
            transactions: signed_ids_of(&self.transactions),
            due_date: self.due_date_input.datetime(),
        }
    }

    /// Starts the form with the fetched data.
    fn initialize(&mut self, bill: Option<BillData>, transactions: Vec<(Identified<T>, Sign)>, accounts: Vec<NamedId>) -> (r: Action<T>)
        requires
            bill_wf(old(self)@),
            bill matches Some(b) ==> (b.due_date matches Some(d) ==> d.wf()),
        ensures
            bill_wf(final(self)@),
            update_post(old(self)@, Message::Initialize(bill, transactions, accounts), final(self)@, r),
    {
        let ghost b0 = bill;
        let ghost a0 = accounts;
        if let Some(bill) = bill {
            let BillData { id, name, description, value, due_date } = bill;
            self.id = Some(id);
            self.name_input = name;
            self.description_input = match description {
                Some(d) => d,
                None => String::new(),
            };
            self.value = CurrencyInput::new(value, true);
            self.due_date_input = date_time_input::State::new(due_date);
        }
        self.transactions = transactions;
        self.reset_rows();
        self.transaction_table.set_context(accounts);
        self.add_transaction = None;
        Action::Nothing
    }

    /// Changes the sign of the first entry of the transaction `id`.
    fn change_sign(&mut self, id: u64, sign: Sign) -> (r: Action<T>)
        requires
            bill_wf(old(self)@),
            transaction_ids(old(self)@.transactions).contains(id),
        ensures
            bill_wf(final(self)@),
            update_post(old(self)@, Message::ChangeTransactionSign(id, sign), final(self)@, r),
    {
        let ghost ts = self@.transactions;
        let mut k: usize = 0;
        while k < self.transactions.len() && self.transactions[k].0.id != id
            invariant
                ts == self@.transactions,
                k <= self.transactions.len(),
                forall|j: int| 0 <= j < k ==> ts[j].0.id != id,
                transaction_ids(ts).contains(id),
            decreases self.transactions.len() - k,
        {
            k = k + 1;
        }
        proof {
            if k == ts.len() {
                let j = choose|j: int| 0 <= j < transaction_ids(ts).len() && transaction_ids(ts)[j] == id;
                assert(transaction_ids(ts)[j] == ts[j].0.id);
            }
            assert(first_entry(ts, id, k as int));
            let c = choose|c: int| first_entry(ts, id, c);
            assert(c == k) by {
                if c < k {
                    assert(ts[c].0.id != id);
                } else if c > k {
                    assert(ts[k as int].0.id != id);
                }
            }
        }
        let (t, _) = self.transactions.remove(k);
        self.transactions.insert(k, (t, sign));
        assert(self@.transactions =~= with_sign(ts, id, sign));
        self.reset_rows();
        Action::Nothing
    }

    /// Passes a message on to the transaction picker.
    fn picker_update(&mut self, m: add_transaction::Message<T>) -> (r: Action<T>)
        requires
            bill_wf(old(self)@),
            old(self)@.picker matches Some(p) ==> add_transaction::update_defined(p, m),
        ensures
            bill_wf(final(self)@),
            update_post(old(self)@, Message::AddTransaction(m), final(self)@, r),
    {
        let ghost old_view = self@;
        let mut picker: Option<AddTransaction<T>> = None;
        std::mem::swap(&mut picker, &mut self.add_transaction);
        match picker {
            None => Action::Nothing,
            Some(mut p) => {
                let ghost pv = p@;
                let ra = p.update(m);
                let ghost ra_g = ra;
                let ghost p2 = p@;
                let r = match ra {
                    add_transaction::Action::Escape => Action::Nothing,
                    add_transaction::Action::AddTransactions(added) => {
                        self.add_transaction = Some(p);
                        append_added(&mut self.transactions, added);
                        self.reset_rows();
                        Action::Nothing
                    },
                    add_transaction::Action::Nothing => {
                        self.add_transaction = Some(p);
                        Action::Nothing
                    },
                    other => {
                        self.add_transaction = Some(p);
                        Action::Picker(other)
                    },
                };
                assert(add_transaction::update_post(pv, m, p2, ra_g) && after_picker(old_view, p2, ra_g, self@, r));
                r
            },
        }
    }

    /// Applies a message and says what the owner has to do.
    pub fn update(&mut self, message: Message<T>) -> (r: Action<T>)
        requires
            bill_wf(old(self)@),
            update_defined(old(self)@, message),
        ensures
            bill_wf(final(self)@),
            update_post(old(self)@, message, final(self)@, r),
        decreases message,
    {
        match message {
            Message::Cancel => match self.id {
                Some(id) => Action::CancelWithId(id),
                None => Action::Cancel,
            },
            Message::BillCreated(id) => Action::BillCreated(id),
            Message::Initialize(bill, transactions, accounts) => self.initialize(bill, transactions, accounts),
            Message::DueDateChanged(action) => {
                self.due_date_input.perform(action);
                Action::Nothing
            },
            Message::NameInputChanged(name) => {
                self.name_input = name;
                Action::Nothing
            },
            Message::ValueChanged(action) => {
                self.value.perform(action);
                Action::Nothing
            },
            Message::DescriptionInputChanged(text) => {
                self.description_input = text;
                Action::Nothing
            },
            Message::Submit => {
                self.submitted = true;
                Action::Submit(self.draft())
            },
            Message::AddTransactionToggle => {
                if self.add_transaction.is_some() {
                    self.add_transaction = None;
                    return Action::Nothing;
                }
                let ignored = ids_of_entries(&self.transactions);
                let picker = AddTransaction::new(None, Vec::new(), Vec::new(), Vec::new());
                self.add_transaction = Some(picker);
                Action::FetchPickerData(ignored)
            },
            Message::ChangeTransactionSign(id, sign) => self.change_sign(id, sign),
            Message::RemoveTransaction(id) => {
                let mut all: Vec<(Identified<T>, Sign)> = Vec::new();
                std::mem::swap(&mut all, &mut self.transactions);
                self.transactions = without_transaction(all, id);
                self.reset_rows();
                Action::Nothing
            },
            Message::AddTransaction(m) => self.picker_update(m),
            Message::TransactionTable(inner) => {
                let ghost before = self@;
                match self.transaction_table.perform(inner) {
                    table::Action::OuterMessage(m) => {
                        assert(self@ == before);
                        self.update(m)
                    },
                    table::Action::ScrollToTop => Action::ScrollToTop,
                    table::Action::Sort { column, reverse } => Action::SortTable { column, reverse },
                    table::Action::Nothing => Action::Nothing,
                }
            },
        }
    }
}

} // verus!
