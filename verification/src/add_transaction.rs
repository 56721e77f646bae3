//! Picking transactions to add to a bill: the user filters transactions,
//! then adds them one by one or all at once; an added transaction is not
//! offered again.
use vstd::prelude::*;
use crate::filter::{self, FilterComponent, FilterComponentView, TransactionFilter};
use crate::named::NamedId;
use crate::table::{self, State, TableView, table_wf, is_permutation, identity, identity_order};

verus! {

/// A transaction, known to this view by its id.
pub struct Identified<T> {
    pub id: u64,
    pub item: T,
}

/// What the view is started with once the data has been fetched.
pub struct Init<T> {
    pub accounts: Vec<NamedId>,
    pub budgets: Vec<NamedId>,
    pub bills: Vec<NamedId>,
    pub categories: Vec<NamedId>,
    pub transactions: Vec<Identified<T>>,
    pub ignored_transactions: Vec<u64>,
}

/// What the user or a finished fetch tells the view.
pub enum Message<T> {
    Back,
    FilterComponent(filter::InnerMessage),
    AddTransaction(Identified<T>),
    FetchedTransactions(Vec<Identified<T>>),
    Table(table::InnerMessage<Message<T>>),
    Init(Init<T>),
    AddAllTransactions,
}

/// What the owner of the view has to do.
pub enum Action<T> {
    /// Leave the view.
    Escape,
    /// Add these transactions to the bill.
    AddTransactions(Vec<Identified<T>>),
    /// Fetch the transactions that pass this filter and hand them back as
    /// [`Message::FetchedTransactions`].
    FetchFiltered(TransactionFilter),
    /// Scroll the table to the top.
    ScrollToTop,
    /// Order the rows by `column` (backwards when `reverse`), pass the order
    /// to [`AddTransaction::sort_table`], then scroll to the top.
    SortTable { column: usize, reverse: bool },
    /// Nothing.
    Nothing,
}

/// The abstract state of the view.
pub struct AddTransactionView<T> {
    /// The filter editor, while no filter has been submitted.
    pub filter: Option<FilterComponentView>,
    /// The offered transactions, in the order they came.
    pub transactions: Seq<Identified<T>>,
    /// The ids of transactions not to offer again.
    pub ignored: Seq<u64>,
    /// The table of the offered transactions: its rows are positions in
    /// `transactions`.
    pub table: TableView<usize, Vec<NamedId>>,
}

/// True for the states the view keeps: a valid table whose rows name each
/// offered transaction once.
pub open spec fn rows_wf<T>(v: AddTransactionView<T>) -> bool {
    &&& table_wf(v.table)
    &&& is_permutation(v.table.items, v.transactions.len())
}

/// The transactions in the order the table shows them.
pub open spec fn shown<T>(v: AddTransactionView<T>) -> Seq<Identified<T>> {
    v.table.items.map_values(|i: usize| v.transactions[i as int])
}

/// True for the transactions whose id is not in `ids`.
pub open spec fn not_in<T>(ids: Seq<u64>) -> spec_fn(Identified<T>) -> bool {
    |x: Identified<T>| !ids.contains(x.id)
}

/// The ids of a list of transactions.
pub open spec fn ids_of<T>(items: Seq<Identified<T>>) -> Seq<u64> {
    items.map_values(|x: Identified<T>| x.id)
}

/// The table showing `n` transactions in their order: back on the first page
/// and unsorted.
pub open spec fn with_rows(t: TableView<usize, Vec<NamedId>>, n: nat) -> TableView<usize, Vec<NamedId>> {
    TableView { items: identity(n), page: 0, sort_column: None, sort_reverse: false, ..t }
}

/// True when the view can take `message`: what it passes on to the filter
/// editor or the table is defined there.
pub open spec fn update_defined<T>(v: AddTransactionView<T>, message: Message<T>) -> bool
    decreases message,
{
    match message {
        Message::FilterComponent(m) => v.filter matches Some(f) ==> filter::update_defined(f, m),
        Message::Table(inner) => {
            &&& table::perform_defined(v.table, inner)
            &&& inner matches table::InnerMessage::OuterMessage(m) ==> update_defined(v, *m)
        },
        _ => true,
    }
}

/// What [`AddTransaction::update`] does: `old` becomes `new` and `r` is
/// returned.
pub open spec fn update_post<T>(old: AddTransactionView<T>, message: Message<T>, new: AddTransactionView<T>, r: Action<T>) -> bool
    decreases message,
{
    match message {
        Message::Back => r is Escape && new == old,
        Message::FilterComponent(m) => match old.filter {
            None => r is Nothing && new == old,
            Some(f) => match r {
                Action::FetchFiltered(submitted) => {
                    &&& new == (AddTransactionView { filter: None, ..old })
                    &&& filter::update_post(f, m, f, filter::Action::Submit(submitted))
                },
                Action::Nothing => {
                    &&& new.filter matches Some(g) && filter::update_post(f, m, g, filter::Action::Nothing)
                    &&& new == (AddTransactionView { filter: new.filter, ..old })
                },
                _ => false,
            },
        },
        Message::AddTransaction(t) => {
            let kept = old.transactions.filter(not_in(seq![t.id]));
            &&& r matches Action::AddTransactions(added) && added@ == seq![t]
            &&& new == (AddTransactionView {
                transactions: kept,
                ignored: old.ignored.push(t.id),
                table: with_rows(old.table, kept.len()),
                ..old
            })
        },
        Message::AddAllTransactions => {
            &&& r matches Action::AddTransactions(added) && added@ == old.transactions
            &&& new == (AddTransactionView {
                transactions: Seq::empty(),
                ignored: old.ignored + ids_of(old.transactions),
                table: with_rows(old.table, 0),
                ..old
            })
        },
        Message::FetchedTransactions(fetched) => {
            let kept = fetched@.filter(not_in(old.ignored));
            &&& r is Nothing
            &&& new == (AddTransactionView {
                transactions: kept,
                table: with_rows(old.table, kept.len()),
                ..old
            })
        },
        Message::Table(inner) => match inner {
            table::InnerMessage::OuterMessage(m) => update_post(old, *m, new, r),
            _ => {
                &&& new == (AddTransactionView { table: new.table, ..old })
                &&& match r {
                    Action::ScrollToTop => table::perform_post(old.table, inner, new.table, table::Action::ScrollToTop),
                    Action::SortTable { column, reverse } =>
                        table::perform_post(old.table, inner, new.table, table::Action::Sort { column, reverse }),
                    Action::Nothing => table::perform_post(old.table, inner, new.table, table::Action::Nothing),
                    _ => false,
                }
            },
        },
        Message::Init(init) => {
            &&& r is Nothing
            &&& new.filter matches Some(f) && {
                &&& crate::named::ordered_by_name(f.accounts, init.accounts@)
                &&& crate::named::ordered_by_name(f.categories, init.categories@)
                &&& crate::named::ordered_by_name(f.bills, init.bills@)
                &&& crate::named::ordered_by_name(f.budgets, init.budgets@)
                &&& f.account_entries.len() == 0 && f.category_entries.len() == 0
                &&& f.bill_entries.len() == 0 && f.budget_entries.len() == 0
                &&& f.default_input.start.value.len() == 0 && f.default_input.end.value.len() == 0
            }
            &&& new.ignored == init.ignored_transactions@
            &&& new.transactions == init.transactions@
            &&& new.table == (TableView {
                items: identity(init.transactions@.len()),
                context: new.table.context,
                page: 0,
                sort_column: None,
                sort_reverse: false,
                ..old.table
            })
            &&& new.table.context@.len() == init.accounts@.len()
            &&& forall|i: int| 0 <= i < init.accounts@.len() ==>
                #[trigger] new.table.context@[i].id == init.accounts@[i].id
                && new.table.context@[i].name@ == init.accounts@[i].name@
        },
    }
}

/// True for messages that start the view over: an `Init`, also when it
/// comes as the message of a table cell.
pub open spec fn starts_over<T>(message: Message<T>) -> bool
    decreases message,
{
    match message {
        Message::Init(_) => true,
        Message::Table(table::InnerMessage::OuterMessage(m)) => starts_over(*m),
        _ => false,
    }
}

/// True when no offered transaction has an ignored id.
pub open spec fn offers_no_ignored<T>(v: AddTransactionView<T>) -> bool {
    forall|i: int| 0 <= i < v.transactions.len() ==> !v.ignored.contains(#[trigger] v.transactions[i].id)
}

/// What a filter keeps was in the list.
proof fn lemma_filter_within<A>(s: Seq<A>, p: spec_fn(A) -> bool)
    ensures
        forall|i: int| 0 <= i < s.filter(p).len() ==> s.contains(#[trigger] s.filter(p)[i]),
    decreases s.len(),
{
    reveal(Seq::filter);
    if s.len() > 0 {
        lemma_filter_within(s.drop_last(), p);
        let out = s.filter(p);
        let sub = s.drop_last().filter(p);
        assert forall|i: int| 0 <= i < out.len() implies s.contains(#[trigger] out[i]) by {
            if i < sub.len() {
                assert(out[i] == sub[i]);
                assert(s.drop_last().contains(sub[i]));
                let j = choose|j: int| 0 <= j < s.drop_last().len() && s.drop_last()[j] == sub[i];
                assert(s[j] == sub[i]);
            } else {
                assert(out[i] == s.last());
                assert(s[s.len() - 1] == s.last());
            }
        }
    }
}

/// An ignored transaction is never offered again. Every message but one that
/// starts the view over keeps each ignored id ignored and keeps the offer
/// free of ignored ids (a fetch makes it so whatever came before), and an
/// added transaction's id is ignored from then on.
pub proof fn lemma_ignored_never_offered<T>(
    old: AddTransactionView<T>,
    message: Message<T>,
    new: AddTransactionView<T>,
    r: Action<T>,
)
    requires
        update_post(old, message, new, r),
        !starts_over(message),
        offers_no_ignored(old) || message is FetchedTransactions,
    ensures
        offers_no_ignored(new),
        forall|i: int| 0 <= i < old.ignored.len() ==> new.ignored.contains(#[trigger] old.ignored[i]),
        message matches Message::AddTransaction(t) ==> new.ignored.contains(t.id),
    decreases message,
{
    match message {
        Message::Table(inner) => match inner {
            table::InnerMessage::OuterMessage(m) => lemma_ignored_never_offered(old, *m, new, r),
            _ => {},
        },
        Message::AddTransaction(t) => {
            let p = not_in::<T>(seq![t.id]);
            lemma_filter_within(old.transactions, p);
            old.transactions.filter_lemma(p);
            assert(new.ignored[old.ignored.len() as int] == t.id);
            assert forall|i: int| 0 <= i < old.ignored.len() implies new.ignored.contains(#[trigger] old.ignored[i]) by {
                assert(new.ignored[i] == old.ignored[i]);
            }
            assert forall|i: int| 0 <= i < new.transactions.len() implies !new.ignored.contains(#[trigger] new.transactions[i].id) by {
                let x = new.transactions[i];
                assert(p(x));
                assert(x.id != t.id) by {
                    assert(seq![t.id][0] == t.id);
                }
                let k = choose|k: int| 0 <= k < old.transactions.len() && old.transactions[k] == x;
                assert(!old.ignored.contains(old.transactions[k].id));
                if new.ignored.contains(x.id) {
                    let j = choose|j: int| 0 <= j < new.ignored.len() && new.ignored[j] == x.id;
                    if j < old.ignored.len() {
                        assert(old.ignored[j] == x.id);
                    }
                }
            }
        },
        Message::AddAllTransactions => {
            assert forall|i: int| 0 <= i < old.ignored.len() implies new.ignored.contains(#[trigger] old.ignored[i]) by {
                assert(new.ignored[i] == old.ignored[i]);
            }
        },
        Message::FetchedTransactions(fetched) => {
            let p = not_in::<T>(old.ignored);
            fetched@.filter_lemma(p);
            assert forall|i: int| 0 <= i < new.transactions.len() implies !new.ignored.contains(#[trigger] new.transactions[i].id) by {
                assert(p(new.transactions[i]));
            }
            assert forall|i: int| 0 <= i < old.ignored.len() implies new.ignored.contains(#[trigger] old.ignored[i]) by {
                assert(new.ignored[i] == old.ignored[i]);
            }
        },
        _ => {
            assert forall|i: int| 0 <= i < old.ignored.len() implies new.ignored.contains(#[trigger] old.ignored[i]) by {
                assert(new.ignored[i] == old.ignored[i]);
            }
        },
    }
}

/// The view that offers transactions to add to a bill.
pub struct AddTransaction<T> {
    filter: Option<FilterComponent>,
    transactions: Vec<Identified<T>>,
    ignored_transactions: Vec<u64>,
    table: State<usize, Vec<NamedId>>,
}

impl<T> View for AddTransaction<T> {
    type V = AddTransactionView<T>;

    closed spec fn view(&self) -> AddTransactionView<T> {
        AddTransactionView {
            filter: match self.filter {
                Some(f) => Some(f@),
                None => None,
            },
            transactions: self.transactions@,
            ignored: self.ignored_transactions@,
            table: self.table@,
        }
    }
}

/// True when `ids` holds `id`.
fn holds_id(ids: &Vec<u64>, id: u64) -> (r: bool)
    ensures
        r == ids@.contains(id),
{
    let mut i: usize = 0;
    while i < ids.len()
        invariant
            i <= ids.len(),
            forall|j: int| 0 <= j < i ==> ids@[j] != id,
        decreases ids.len() - i,
    {
        if ids[i] == id {
            assert(ids@[i as int] == id);
            return true;
        }
        i = i + 1;
    }
    false
}

/// The transactions whose id is not in `ids`, in their order.
fn without_ids<T>(items: Vec<Identified<T>>, ids: &Vec<u64>) -> (kept: Vec<Identified<T>>)
    ensures
        kept@ == items@.filter(not_in(ids@)),
{
    let ghost all = items@;
    let ghost keep = not_in::<T>(ids@);
    let mut kept: Vec<Identified<T>> = Vec::new();
    let mut rest = items;
    let ghost mut done: int = 0;
    while rest.len() > 0
        invariant
            0 <= done <= all.len(),
            rest@ == all.skip(done),
            kept@ == all.take(done).filter(keep),
            keep == not_in::<T>(ids@),
        decreases rest.len(),
    {
        let x = rest.remove(0);
        proof {
            assert(all.take(done + 1).drop_last() =~= all.take(done));
            assert(all.take(done + 1).last() == x);
            reveal(Seq::filter);
        }
        if !holds_id(ids, x.id) {
            kept.push(x);
        }
        proof {
            assert(rest@ =~= all.skip(done + 1));
            done = done + 1;
        }
    }
    assert(all.take(done) =~= all);
    kept
}

/// The ids of a list of transactions.
fn item_ids<T>(items: &Vec<Identified<T>>) -> (ids: Vec<u64>)
    ensures
        ids@ == ids_of(items@),
{
    let mut ids: Vec<u64> = Vec::new();
    let mut i: usize = 0;
    while i < items.len()
        invariant
            i <= items.len(),
            ids@ == ids_of(items@.take(i as int)),
        decreases items.len() - i,
    {
        ids.push(items[i].id);
        assert(ids_of(items@.take(i as int + 1)) =~= ids_of(items@.take(i as int)).push(items@[i as int].id));
        i = i + 1;
    }
    assert(items@.take(items.len() as int) =~= items@);
    ids
}

/// A copy of a list of named things.
pub(crate) fn copy_named(v: &Vec<NamedId>) -> (r: Vec<NamedId>)
    ensures
        r@.len() == v@.len(),
        forall|i: int| 0 <= i < v@.len() ==> #[trigger] r@[i].id == v@[i].id && r@[i].name@ == v@[i].name@,
{
    let mut r: Vec<NamedId> = Vec::new();
    let mut i: usize = 0;
    while i < v.len()
        invariant
            i <= v.len(),
            r@.len() == i,
            forall|j: int| 0 <= j < i ==> #[trigger] r@[j].id == v@[j].id && r@[j].name@ == v@[j].name@,
        decreases v.len() - i,
    {
        r.push(NamedId { id: v[i].id, name: v[i].name.clone() });
        i = i + 1;
    }
    r
}

impl<T> AddTransaction<T> {
    /// A view offering `transactions` in a table drawn with `accounts`,
    /// sortable by the columns 1 to 5 (title, amount, date, source,
    /// destination), with the filter editor if one is given.
    pub fn new(
        filter: Option<FilterComponent>,
        transactions: Vec<Identified<T>>,
        accounts: Vec<NamedId>,
        ignored_transactions: Vec<u64>,
    ) -> (r: Self)
        ensures
            r@.filter == (match filter {
                Some(f) => Some(f@),
                None => None,
            }),
            r@.transactions == transactions@,
            r@.ignored == ignored_transactions@,
            r@.table == (TableView {
                items: identity(transactions@.len()),
                context: accounts,
                page_size: 50,
                page: 0,
                sort_column: None,
                sort_reverse: false,
                sortable: seq![1usize, 2, 3, 4, 5],
                sorting: true,
            }),
            rows_wf(r@),
    {
        let columns: Vec<usize> = vec![1, 2, 3, 4, 5];
        let rows = identity_order(transactions.len());
        proof { table::lemma_identity_permutation(transactions@.len()); }
        AddTransaction {
            filter,
            transactions,
            ignored_transactions,
            table: State::new(rows, accounts).sort_by().sortable_columns(columns),
        }
    }

    /// The filter editor, while no filter has been submitted.
    pub fn filter(&self) -> (r: &Option<FilterComponent>)
        ensures
            self@.filter == (match *r {
                Some(f) => Some(f@),
                None => None,
            }),
    {
        &self.filter
    }

    /// The offered transactions, in the order they came.
    pub fn transactions(&self) -> (r: &Vec<Identified<T>>)
        ensures
            r@ == self@.transactions,
    {
        &self.transactions
    }

    /// The table of offered transactions; its rows are positions in
    /// [`AddTransaction::transactions`].
    pub fn table(&self) -> (r: &State<usize, Vec<NamedId>>)
        ensures
            r@ == self@.table,
    {
        &self.table
    }

    /// Sorts the table in the order that the owner computed for
    /// [`Action::SortTable`].
    pub fn sort_table(&mut self, column: usize, reverse: bool, order: Vec<usize>)
        requires
            rows_wf(old(self)@),
            is_permutation(order@, old(self)@.table.items.len()),
        ensures
            rows_wf(final(self)@),
            final(self)@.filter == old(self)@.filter,
            final(self)@.transactions == old(self)@.transactions,
            final(self)@.ignored == old(self)@.ignored,
            old(self)@.table.sorting ==> final(self)@.table == (TableView {
                items: Seq::new(old(self)@.table.items.len(), |i: int| old(self)@.table.items[order@[i] as int]),
                sort_column: Some(column),
                sort_reverse: reverse,
                ..old(self)@.table
            }),
            !old(self)@.table.sorting ==> final(self)@.table == old(self)@.table,
    {
        proof {
            table::lemma_permuted_permutation(self@.table.items, order@, self@.transactions.len());
        }
        self.table.sort(column, reverse, order);
    }

    /// Shows the transactions in their order again.
    fn reset_rows(&mut self)
        requires
            old(self)@.table.page_size > 0,
        ensures
            final(self)@ == (AddTransactionView { table: with_rows(old(self)@.table, old(self)@.transactions.len()), ..old(self)@ }),
            rows_wf(final(self)@),
    {
        let rows = identity_order(self.transactions.len());
        proof { table::lemma_identity_permutation(self@.transactions.len()); }
        self.table.set_items(rows);
    }

    /// Takes one transaction out of the offer, not to be offered again.
    fn add_one(&mut self, transaction: Identified<T>) -> (r: Action<T>)
        requires
            rows_wf(old(self)@),
        ensures
            rows_wf(final(self)@),
            update_post(old(self)@, Message::AddTransaction(transaction), final(self)@, r),
    {
        self.ignored_transactions.push(transaction.id);
        let single: Vec<u64> = vec![transaction.id];
        assert(single@ =~= seq![transaction.id]);
        let mut all: Vec<Identified<T>> = Vec::new();
        std::mem::swap(&mut all, &mut self.transactions);
        self.transactions = without_ids(all, &single);
        self.reset_rows();
        let ghost t = transaction;
        let added = vec![transaction];
        assert(added@ =~= seq![t]);
        Action::AddTransactions(added)
    }

    /// Takes all transactions out of the offer, not to be offered again.
    fn add_all(&mut self) -> (r: Action<T>)
        requires
            rows_wf(old(self)@),
        ensures
            rows_wf(final(self)@),
            update_post(old(self)@, Message::AddAllTransactions, final(self)@, r),
    {
        let mut all: Vec<Identified<T>> = Vec::new();
        std::mem::swap(&mut all, &mut self.transactions);
        let mut ids = item_ids(&all);
        self.ignored_transactions.append(&mut ids);
        self.reset_rows();
        Action::AddTransactions(all)
    }

    /// Offers the fetched transactions that are not ignored.
    fn fetched(&mut self, transactions: Vec<Identified<T>>) -> (r: Action<T>)
        requires
            rows_wf(old(self)@),
        ensures
            rows_wf(final(self)@),
            update_post(old(self)@, Message::FetchedTransactions(transactions), final(self)@, r),
    {
        self.transactions = without_ids(transactions, &self.ignored_transactions);
        self.reset_rows();
        Action::Nothing
    }

    /// Starts the view with the fetched data.
    fn init(&mut self, init: Init<T>) -> (r: Action<T>)
        requires
            rows_wf(old(self)@),
        ensures
            rows_wf(final(self)@),
            update_post(old(self)@, Message::Init(init), final(self)@, r),
    {
        let ghost i = init;
        let Init { accounts, budgets, bills, categories, transactions, ignored_transactions } = init;
        self.transactions = transactions;
        self.reset_rows();
        self.table.set_context(copy_named(&accounts));
        self.ignored_transactions = ignored_transactions;
        self.filter = Some(FilterComponent::new(accounts, categories, bills, budgets));
        Action::Nothing
    }

    /// Applies a message and says what the owner has to do.
    pub fn update(&mut self, message: Message<T>) -> (r: Action<T>)
        requires
            rows_wf(old(self)@),
            update_defined(old(self)@, message),
        ensures
            rows_wf(final(self)@),
            update_post(old(self)@, message, final(self)@, r),
        decreases message,
    {
        match message {
            Message::Back => Action::Escape,
            Message::FilterComponent(m) => {
                let submitted = match &mut self.filter {
                    Some(f) => match f.update(m) {
                        filter::Action::Submit(submitted) => Some(submitted),
                        filter::Action::Nothing => None,
                    },
                    None => return Action::Nothing,
                };
                match submitted {
                    Some(submitted) => {
                        self.filter = None;
                        Action::FetchFiltered(submitted)
                    },
                    None => Action::Nothing,
                }
            },
            Message::AddTransaction(transaction) => self.add_one(transaction),
            Message::AddAllTransactions => self.add_all(),
            Message::FetchedTransactions(transactions) => self.fetched(transactions),
            Message::Table(inner) => {
                let ghost before = self@;
                match self.table.perform(inner) {
                    table::Action::OuterMessage(m) => {
                        assert(self@ == before);
                        self.update(m)
                    },
                    table::Action::ScrollToTop => Action::ScrollToTop,
                    table::Action::Sort { column, reverse } => Action::SortTable { column, reverse },
                    table::Action::Nothing => Action::Nothing,
                }
            },
            Message::Init(init) => self.init(init),
        }
    }
}

} // verus!
