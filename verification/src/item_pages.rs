//! The pages that show one budget, one category or one bill, and the page
//! that lists the transactions a filter selects. Each shows the item with the
//! table of its transactions; the owner of the page keeps the table's rows
//! (`X`) and performs the fetches and deletions that the page asks for.
use vstd::prelude::*;
use vstd::string::StringExecFns;
use crate::date_time::DateSpan;
use crate::inputs::date_span_input::{self, DateSpanView};
use crate::overview::{self, Overview};
use crate::table::{TableView, table_wf};
use crate::add_transaction::copy_named;
use crate::filter::{
    self, FilterComponent, FilterComponentView, TransactionFilter, copy_transaction_filter, entries_for_filters,
    entries_wf, ids_of, same_filter, span_input_for, transaction_filter_wf,
};
use crate::named::{NamedId, ordered_by_name};

verus! {

/// The same ids, in the same order.
fn copy_ids(ids: &Vec<u64>) -> (r: Vec<u64>)
    ensures
        r@ == ids@,
{
    let mut r: Vec<u64> = Vec::new();
    let mut i: usize = 0;
    while i < ids.len()
        invariant
            i <= ids.len(),
            r@ == ids@.take(i as int),
        decreases ids.len() - i,
    {
        r.push(ids[i]);
        i = i + 1;
        assert(r@ =~= ids@.take(i as int));
    }
    assert(ids@.take(ids.len() as int) =~= ids@);
    r
}

/// The description under the category distribution of the budget `name`.
pub open spec fn budget_distribution_description(name: Seq<char>) -> Seq<char> {
    "Category Distribution for budget "@ + name
}

/// A budget as its page shows it: the period `offset` periods away from the
/// current one, the transactions in that period and what the owner shows of
/// them (`details`).
pub struct BudgetInit<X> {
    pub id: u64,
    pub name: String,
    pub offset: i32,
    pub transaction_ids: Vec<u64>,
    pub details: X,
}

/// What the user, the table of transactions, or a finished task tells the
/// budget page.
pub enum BudgetMessage<X> {
    Edit,
    /// Show the next period.
    IncreaseOffset,
    /// Show the previous period.
    DecreaseOffset,
    Initialize(BudgetInit<X>),
    ViewTransaction(u64),
    ViewAccount(u64),
    /// The user asks to delete the budget.
    Delete,
    /// The user answered whether to delete it.
    DeleteConfirmed(bool),
    /// The budget was deleted.
    Deleted,
    CategoryDistribution,
}

/// What the owner of the budget page has to do.
pub enum BudgetAction {
    Nothing,
    ViewTransaction(u64),
    ViewAccount(u64),
    Edit(u64),
    /// Ask the user whether to delete the budget of this name; hand the
    /// answer back as [`BudgetMessage::DeleteConfirmed`].
    ConfirmDelete(String),
    /// Delete the budget with this id, then hand back [`BudgetMessage::Deleted`].
    Delete(u64),
    /// Fetch the budget with this id for the period at this offset, and hand
    /// it back as [`BudgetMessage::Initialize`].
    Fetch { id: u64, offset: i32 },
    /// The budget is gone: leave the page.
    DeletedBudget,
    /// Show how the amounts of these transactions spread over the categories,
    /// titled "Category Distribution", with this description.
    ShowCategoryDistribution { transaction_ids: Vec<u64>, description: String },
}

/// The budget page: nothing yet, or the budget shown.
pub enum BudgetPage<X> {
    NotLoaded,
    Loaded(BudgetInit<X>),
}

/// True when the budget page can take `message`: a move of the period stays
/// within the range of offsets.
pub open spec fn budget_message_defined<X>(page: BudgetPage<X>, message: BudgetMessage<X>) -> bool {
    match page {
        BudgetPage::Loaded(b) => match message {
            BudgetMessage::IncreaseOffset => b.offset < i32::MAX,
            BudgetMessage::DecreaseOffset => b.offset > i32::MIN,
            _ => true,
        },
        BudgetPage::NotLoaded => true,
    }
}

/// What [`BudgetPage::update`] does: `old` becomes `new` and `r` is returned.
pub open spec fn budget_post<X>(old: BudgetPage<X>, message: BudgetMessage<X>, new: BudgetPage<X>, r: BudgetAction) -> bool {
    &&& match message {
            BudgetMessage::Initialize(b) => r is Nothing && new == BudgetPage::Loaded(b),
            BudgetMessage::Deleted => r is DeletedBudget && new is NotLoaded,
            BudgetMessage::ViewTransaction(id) => r == BudgetAction::ViewTransaction(id) && new == old,
            BudgetMessage::ViewAccount(id) => r == BudgetAction::ViewAccount(id) && new == old,
            _ => new == old && match old {
                BudgetPage::NotLoaded => r is Nothing,
                BudgetPage::Loaded(b) => match message {
                    BudgetMessage::Edit => r == BudgetAction::Edit(b.id),
                    BudgetMessage::IncreaseOffset => r == BudgetAction::Fetch { id: b.id, offset: (b.offset + 1) as i32 },
                    BudgetMessage::DecreaseOffset => r == BudgetAction::Fetch { id: b.id, offset: (b.offset - 1) as i32 },
                    BudgetMessage::Delete => r matches BudgetAction::ConfirmDelete(n) && n@ == b.name@,
                    BudgetMessage::DeleteConfirmed(yes) => if yes { r == BudgetAction::Delete(b.id) } else { r is Nothing },
                    BudgetMessage::CategoryDistribution => r matches BudgetAction::ShowCategoryDistribution { transaction_ids, description }
                        && transaction_ids@ == b.transaction_ids@ && description@ == budget_distribution_description(b.name@),
                    _ => false,
                },
            },
        }
}

impl<X> BudgetPage<X> {
    /// The page before the budget has arrived.
    pub fn fetch() -> (r: Self)
        ensures
            r is NotLoaded,
    {
        BudgetPage::NotLoaded
    }

    /// Applies a message and says what the owner has to do. What acts on the
    /// budget does nothing before it is shown.
    pub fn update(&mut self, message: BudgetMessage<X>) -> (r: BudgetAction)
        requires
            budget_message_defined(*old(self), message),
        ensures
            budget_post(*old(self), message, *final(self), r),

    {
        match message {
            BudgetMessage::Initialize(b) => {
                *self = BudgetPage::Loaded(b);
                BudgetAction::Nothing
            },
            BudgetMessage::Deleted => {
                *self = BudgetPage::NotLoaded;
                BudgetAction::DeletedBudget
            },
            BudgetMessage::ViewTransaction(id) => BudgetAction::ViewTransaction(id),
            BudgetMessage::ViewAccount(id) => BudgetAction::ViewAccount(id),
            BudgetMessage::Edit => match self {
                BudgetPage::Loaded(b) => BudgetAction::Edit(b.id),
                BudgetPage::NotLoaded => BudgetAction::Nothing,
            },
            BudgetMessage::IncreaseOffset => match self {
                BudgetPage::Loaded(b) => BudgetAction::Fetch { id: b.id, offset: b.offset + 1 },
                BudgetPage::NotLoaded => BudgetAction::Nothing,
            },
            BudgetMessage::DecreaseOffset => match self {
                BudgetPage::Loaded(b) => BudgetAction::Fetch { id: b.id, offset: b.offset - 1 },
                BudgetPage::NotLoaded => BudgetAction::Nothing,
            },
            BudgetMessage::Delete => match self {
                BudgetPage::Loaded(b) => BudgetAction::ConfirmDelete(b.name.clone()),
                BudgetPage::NotLoaded => BudgetAction::Nothing,
            },
            BudgetMessage::DeleteConfirmed(yes) => match self {
                BudgetPage::Loaded(b) => if yes { BudgetAction::Delete(b.id) } else { BudgetAction::Nothing },
                BudgetPage::NotLoaded => BudgetAction::Nothing,
            },
            BudgetMessage::CategoryDistribution => match self {
                BudgetPage::Loaded(b) => BudgetAction::ShowCategoryDistribution {
                    transaction_ids: copy_ids(&b.transaction_ids),
                    description: String::from_str("Category Distribution for budget ").concat(b.name.as_str()),
                },
                BudgetPage::NotLoaded => BudgetAction::Nothing,
            },
        }
    }
}

/// A category as its page shows it, with what the owner shows of its
/// transactions and sums (`details`).
pub struct CategoryInit<X> {
    pub id: u64,
    pub name: String,
    pub details: X,
}

/// What the user, the table of transactions, or a finished task tells the
/// category page.
pub enum CategoryMessage<X> {
    /// The user asks to delete the category.
    Delete,
    /// The user answered whether to delete it.
    DeleteConfirmed(bool),
    Edit,
    /// The user changed the span of dates shown.
    ChangedTimespan(date_span_input::Action),
    /// The category for the span arrived.
    SetCategory(CategoryInit<X>),
    /// The data changed: the category as it is now, or none when it is gone.
    Reload(Option<CategoryInit<X>>),
    ViewTransaction(u64),
    ViewAccount(u64),
}

/// What the owner of the category page has to do.
pub enum CategoryAction {
    Nothing,
    Edit(u64),
    /// Ask the user whether to delete the category of this name; hand the
    /// answer back as [`CategoryMessage::DeleteConfirmed`].
    ConfirmDelete(String),
    /// Delete the category with this id, then show the list of categories.
    Delete(u64),
    /// Fetch the category with this id over this span, and hand it back as
    /// [`CategoryMessage::SetCategory`].
    Fetch { id: u64, timespan: DateSpan },
    ViewTransaction(u64),
    ViewAccount(u64),
}

/// The category page: nothing yet, or the category with the input of the
/// span of dates shown.
pub enum CategoryPage<X> {
    NotLoaded,
    Loaded { category: CategoryInit<X>, timespan_input: date_span_input::State },
}

/// True when the category page can take `message`: a change of the span is
/// one the span input can take.
pub open spec fn category_message_defined<X>(page: CategoryPage<X>, message: CategoryMessage<X>) -> bool {
    match (page, message) {
        (CategoryPage::Loaded { timespan_input, .. }, CategoryMessage::ChangedTimespan(a)) =>
            date_span_input::action_defined(timespan_input@, a),
        _ => true,
    }
}

/// True when `page` shows `category` with a span input whose state is `span`.
pub open spec fn category_shown<X>(page: CategoryPage<X>, category: CategoryInit<X>, span: DateSpanView) -> bool {
    page matches CategoryPage::Loaded { category: c, timespan_input } && c == category && timespan_input@ == span
}

/// The state of a span input that shows no dates, without defaults and with
/// its menus closed.
pub open spec fn empty_span() -> DateSpanView {
    crate::filter::empty_span_input()
}

/// What [`CategoryPage::update`] does: `old` becomes `new` and `r` is returned.
pub open spec fn category_post<X>(old: CategoryPage<X>, message: CategoryMessage<X>, new: CategoryPage<X>, r: CategoryAction) -> bool {
    &&& match message {
            CategoryMessage::SetCategory(c) => r is Nothing && match old {
                CategoryPage::Loaded { timespan_input, .. } => category_shown(new, c, timespan_input@),
                CategoryPage::NotLoaded => category_shown(new, c, empty_span()),
            },
            CategoryMessage::Reload(None) => r is Nothing && new is NotLoaded,
            CategoryMessage::Reload(Some(c)) => r is Nothing && match old {
                CategoryPage::Loaded { timespan_input, .. } => category_shown(new, c, timespan_input@),
                CategoryPage::NotLoaded => new is NotLoaded,
            },
            CategoryMessage::ViewTransaction(id) => r == CategoryAction::ViewTransaction(id) && new == old,
            CategoryMessage::ViewAccount(id) => r == CategoryAction::ViewAccount(id) && new == old,
            CategoryMessage::ChangedTimespan(a) => match old {
                CategoryPage::NotLoaded => r is Nothing && new is NotLoaded,
                CategoryPage::Loaded { category, timespan_input } => {
                    let span = date_span_input::after_action(timespan_input@, a);
                    &&& category_shown(new, category, span)
                    &&& r == CategoryAction::Fetch {
                        id: category.id,
                        timespan: DateSpan {
                            start: crate::inputs::date_input::input_date(span.start),
                            end: crate::inputs::date_input::input_date(span.end),
                        },
                    }
                },
            },
            _ => new == old && match old {
                CategoryPage::NotLoaded => r is Nothing,
                CategoryPage::Loaded { category, .. } => match message {
                    CategoryMessage::Edit => r == CategoryAction::Edit(category.id),
                    CategoryMessage::Delete => r matches CategoryAction::ConfirmDelete(n) && n@ == category.name@,
                    CategoryMessage::DeleteConfirmed(yes) => if yes { r == CategoryAction::Delete(category.id) } else { r is Nothing },
                    _ => false,
                },
            },
        }
}

impl<X> CategoryPage<X> {
    /// The page before the category has arrived.
    pub fn fetch() -> (r: Self)
        ensures
            r is NotLoaded,
    {
        CategoryPage::NotLoaded
    }

    /// Applies a message and says what the owner has to do. What acts on the
    /// category does nothing before it is shown.
    pub fn update(&mut self, message: CategoryMessage<X>) -> (r: CategoryAction)
        requires
            category_message_defined(*old(self), message),
        ensures
            category_post(*old(self), message, *final(self), r),

    {
        match message {
            CategoryMessage::SetCategory(c) => {
                let mut current = CategoryPage::NotLoaded;
                std::mem::swap(&mut current, self);
                let timespan_input = match current {
                    CategoryPage::Loaded { timespan_input, .. } => timespan_input,
                    CategoryPage::NotLoaded => date_span_input::State::default(),
                };
                *self = CategoryPage::Loaded { category: c, timespan_input };
                CategoryAction::Nothing
            },
            CategoryMessage::Reload(None) => {
                *self = CategoryPage::NotLoaded;
                CategoryAction::Nothing
            },
            CategoryMessage::Reload(Some(c)) => {
                let mut current = CategoryPage::NotLoaded;
                std::mem::swap(&mut current, self);
                match current {
                    CategoryPage::Loaded { timespan_input, .. } => {
                        *self = CategoryPage::Loaded { category: c, timespan_input };
                    },
                    CategoryPage::NotLoaded => {},
                }
                CategoryAction::Nothing
            },
            CategoryMessage::ViewTransaction(id) => CategoryAction::ViewTransaction(id),
            CategoryMessage::ViewAccount(id) => CategoryAction::ViewAccount(id),
            CategoryMessage::ChangedTimespan(a) => {
                let mut current = CategoryPage::NotLoaded;
                std::mem::swap(&mut current, self);
                match current {
                    CategoryPage::Loaded { category, mut timespan_input } => {
                        timespan_input.perform(a);
                        let timespan = timespan_input.timespan();
                        let id = category.id;
                        *self = CategoryPage::Loaded { category, timespan_input };
                        CategoryAction::Fetch { id, timespan }
                    },
                    CategoryPage::NotLoaded => CategoryAction::Nothing,
                }
            },
            CategoryMessage::Edit => match self {
                CategoryPage::Loaded { category, .. } => CategoryAction::Edit(category.id),
                CategoryPage::NotLoaded => CategoryAction::Nothing,
            },
            CategoryMessage::Delete => match self {
                CategoryPage::Loaded { category, .. } => CategoryAction::ConfirmDelete(category.name.clone()),
                CategoryPage::NotLoaded => CategoryAction::Nothing,
            },
            CategoryMessage::DeleteConfirmed(yes) => match self {
                CategoryPage::Loaded { category, .. } => if yes { CategoryAction::Delete(category.id) } else { CategoryAction::Nothing },
                CategoryPage::NotLoaded => CategoryAction::Nothing,
            },
        }
    }
}

/// The description under the category distribution of the bill `name`.
pub open spec fn bill_distribution_description(name: Seq<char>) -> Seq<char> {
    "Category distribution for Category \""@ + name + "\""@
}

/// A bill as its page shows it: its transactions (by id) and what the owner
/// shows of it (`details`, its sum among them).
pub struct BillInit<X> {
    pub id: u64,
    pub name: String,
    pub transaction_ids: Vec<u64>,
    pub details: X,
}

/// What the user, the table of transactions, or a finished task tells the
/// bill page; `T` is a row of the table.
pub enum BillMessage<T, X> {
    ViewTransaction(u64),
    Edit,
    /// The bill arrived with the rows of its table.
    Initialize(BillInit<X>, Vec<T>),
    /// The user asks to delete the bill.
    Delete,
    /// The user answered whether to delete it.
    DeleteConfirmed(bool),
    /// The bill was deleted.
    Deleted,
    /// The table of transactions; a row's link names a transaction.
    TransactionTable(overview::Message<T, u64>),
    CategoryDistribution,
}

/// What the owner of the bill page has to do.
pub enum BillPageAction {
    Nothing,
    ViewTransaction(u64),
    Edit(u64),
    /// Ask the user whether to delete the bill; hand the answer back as
    /// [`BillMessage::DeleteConfirmed`].
    ConfirmDelete,
    /// Delete the bill with this id, then hand back [`BillMessage::Deleted`].
    Delete(u64),
    /// The bill is gone: leave the page.
    Deleted,
    /// Scroll the table to the top.
    ScrollToTop,
    /// Order the rows by `column` (backwards when `reverse`), pass the order
    /// to [`BillPage::sort_table`], then scroll to the top.
    SortTable { column: usize, reverse: bool },
    /// Show how the amounts of these transactions spread over the categories,
    /// titled "Category Distribution", with this description.
    ShowCategoryDistribution { transaction_ids: Vec<u64>, description: String },
}

/// The bill page: nothing yet, or the bill with the table of its
/// transactions.
pub enum BillPage<T, X> {
    NotLoaded,
    Loaded { bill: BillInit<X>, table: Overview<T> },
}

/// True when the table of a shown bill is well formed.
pub open spec fn bill_page_wf<T, X>(page: BillPage<T, X>) -> bool {
    page matches BillPage::Loaded { table, .. } ==> table_wf(table@)
}

/// True when the bill page can take `message`: what it passes on to its
/// table is defined there.
pub open spec fn bill_message_defined<T, X>(page: BillPage<T, X>, message: BillMessage<T, X>) -> bool {
    match (page, message) {
        (BillPage::Loaded { table, .. }, BillMessage::TransactionTable(m)) => overview::update_defined(table@, m),
        _ => true,
    }
}

/// True when `page` shows `bill` with a table whose state is `table`.
pub open spec fn bill_shown<T, X>(page: BillPage<T, X>, bill: BillInit<X>, table: TableView<T, ()>) -> bool {
    page matches BillPage::Loaded { bill: b, table: t } && b == bill && t@ == table
}

/// The table of a new bill page: its rows, sortable by the columns 0 to 6,
/// on its first page, unsorted.
pub open spec fn bill_table<T>(rows: Seq<T>) -> TableView<T, ()> {
    TableView {
        items: rows,
        context: (),
        page_size: 50,
        page: 0,
        sort_column: None,
        sort_reverse: false,
        sortable: seq![0usize, 1, 2, 3, 4, 5, 6],
        sorting: true,
    }
}

/// What [`BillPage::update`] does: `old` becomes `new` and `r` is returned.
pub open spec fn bill_page_post<T, X>(old: BillPage<T, X>, message: BillMessage<T, X>, new: BillPage<T, X>, r: BillPageAction) -> bool {
    &&& bill_page_wf(new)
    &&& match message {
            BillMessage::Initialize(b, rows) => r is Nothing && bill_shown(new, b, bill_table(rows@)),
            BillMessage::Deleted => r is Deleted && new == old,
            BillMessage::ViewTransaction(id) => r == BillPageAction::ViewTransaction(id) && new == old,
            BillMessage::TransactionTable(m) => match old {
                BillPage::NotLoaded => r is Nothing && new is NotLoaded,
                BillPage::Loaded { bill, table } => exists|a: overview::Action<u64>, t: TableView<T, ()>|
                    #[trigger] overview::update_post(table@, m, t, a) && bill_shown(new, bill, t) && match a {
                        overview::Action::Nothing => r is Nothing,
                        overview::Action::Navigate(id) => r == BillPageAction::ViewTransaction(id),
                        overview::Action::ScrollToTop => r is ScrollToTop,
                        overview::Action::SortTable { column, reverse } => r == BillPageAction::SortTable { column, reverse },
                    },
            },
            _ => new == old && match old {
                BillPage::NotLoaded => r is Nothing,
                BillPage::Loaded { bill, .. } => match message {
                    BillMessage::Edit => r == BillPageAction::Edit(bill.id),
                    BillMessage::Delete => r is ConfirmDelete,
                    BillMessage::DeleteConfirmed(yes) => if yes { r == BillPageAction::Delete(bill.id) } else { r is Nothing },
                    BillMessage::CategoryDistribution => r matches BillPageAction::ShowCategoryDistribution { transaction_ids, description }
                        && transaction_ids@ == bill.transaction_ids@ && description@ == bill_distribution_description(bill.name@),
                    _ => false,
                },
            },
        }
}

impl<T, X> BillPage<T, X> {
    /// The page before the bill has arrived.
    pub fn fetch() -> (r: Self)
        ensures
            r is NotLoaded,
    {
        BillPage::NotLoaded
    }

    /// Sorts the table of a shown bill in the order that the owner computed
    /// for [`BillPageAction::SortTable`]; a page with no bill stays.
    pub fn sort_table(&mut self, column: usize, reverse: bool, order: Vec<usize>)
        requires
            *old(self) matches BillPage::Loaded { table, .. } ==> crate::table::is_permutation(order@, table@.items.len()),
        ensures
            match *old(self) {
                BillPage::Loaded { bill, table } => {
                    &&& table@.sorting ==> bill_shown(*final(self), bill, TableView {
                        items: Seq::new(table@.items.len(), |i: int| table@.items[order@[i] as int]),
                        sort_column: Some(column),
                        sort_reverse: reverse,
                        ..table@
                    })
                    &&& !table@.sorting ==> bill_shown(*final(self), bill, table@)
                    &&& table_wf(table@) ==> bill_page_wf(*final(self))
                },
                BillPage::NotLoaded => *final(self) is NotLoaded,
            },
    {
        match self {
            BillPage::Loaded { table, .. } => table.sort_table(column, reverse, order),
            BillPage::NotLoaded => {},
        }
    }

    /// Applies a message and says what the owner has to do. What acts on the
    /// bill does nothing before it is shown.
    pub fn update(&mut self, message: BillMessage<T, X>) -> (r: BillPageAction)
        requires
            bill_page_wf(*old(self)),
            bill_message_defined(*old(self), message),
        ensures
            bill_page_post(*old(self), message, *final(self), r),

    {
        match message {
            BillMessage::Initialize(b, rows) => {
                let columns: Vec<usize> = vec![0, 1, 2, 3, 4, 5, 6];
                let table = Overview::new(rows, columns);
                *self = BillPage::Loaded { bill: b, table };
                BillPageAction::Nothing
            },
            BillMessage::Deleted => BillPageAction::Deleted,
            BillMessage::ViewTransaction(id) => BillPageAction::ViewTransaction(id),
            BillMessage::TransactionTable(m) => match self {
                BillPage::Loaded { table, .. } => match table.update(m) {
                    overview::Action::Nothing => BillPageAction::Nothing,
                    overview::Action::Navigate(id) => BillPageAction::ViewTransaction(id),
                    overview::Action::ScrollToTop => BillPageAction::ScrollToTop,
                    overview::Action::SortTable { column, reverse } => BillPageAction::SortTable { column, reverse },
                },
                BillPage::NotLoaded => BillPageAction::Nothing,
            },
            BillMessage::Edit => match self {
                BillPage::Loaded { bill, .. } => BillPageAction::Edit(bill.id),
                BillPage::NotLoaded => BillPageAction::Nothing,
            },
            BillMessage::Delete => match self {
                BillPage::Loaded { .. } => BillPageAction::ConfirmDelete,
                BillPage::NotLoaded => BillPageAction::Nothing,
            },
            BillMessage::DeleteConfirmed(yes) => match self {
                BillPage::Loaded { bill, .. } => if yes { BillPageAction::Delete(bill.id) } else { BillPageAction::Nothing },
                BillPage::NotLoaded => BillPageAction::Nothing,
            },
            BillMessage::CategoryDistribution => match self {
                BillPage::Loaded { bill, .. } => BillPageAction::ShowCategoryDistribution {
                    transaction_ids: copy_ids(&bill.transaction_ids),
                    description: String::from_str("Category distribution for Category \"").concat(bill.name.as_str()).concat("\""),
                },
                BillPage::NotLoaded => BillPageAction::Nothing,
            },
        }
    }
}

/// True when `c` holds the same things as `orig`: the same ids and names, in
/// the same order.
pub open spec fn same_names(c: Seq<NamedId>, orig: Seq<NamedId>) -> bool {
    &&& c.len() == orig.len()
    &&& forall|i: int| 0 <= i < c.len() ==> #[trigger] c[i].id == orig[i].id && c[i].name@ == orig[i].name@
}

/// True when `s` holds copies of the things of `orig`, ordered by name.
pub open spec fn sorted_copy(s: Seq<NamedId>, orig: Seq<NamedId>) -> bool {
    exists|c: Seq<NamedId>| same_names(c, orig) && #[trigger] ordered_by_name(s, c)
}

/// What the user, the table of transactions, or a finished fetch tells the
/// page of filtered transactions.
pub enum FilterTransactionsMessage {
    /// The filter editor.
    FilterComponent(filter::InnerMessage),
    /// Open the filter editor, or close it.
    ToggleEditFilter,
    /// The things that filters can be about arrived; the owner empties its
    /// table of transactions.
    Initialize { accounts: Vec<NamedId>, categories: Vec<NamedId>, bills: Vec<NamedId>, budgets: Vec<NamedId> },
    ViewTransaction(u64),
    ViewAccount(u64),
}

/// What the owner of the page of filtered transactions has to do.
pub enum FilterTransactionsAction {
    Nothing,
    /// Fetch the transactions that this filter selects, with their accounts,
    /// and show them in the table.
    FetchFiltered(TransactionFilter),
    ViewTransaction(u64),
    ViewAccount(u64),
}

/// The abstract state of the page of filtered transactions.
pub struct FilterTransactionsView {
    pub accounts: Seq<NamedId>,
    pub categories: Seq<NamedId>,
    pub bills: Seq<NamedId>,
    pub budgets: Seq<NamedId>,
    /// The filter editor, when it is open.
    pub editor: Option<FilterComponentView>,
    /// The filter applied.
    pub filter: TransactionFilter,
}

/// True when the filter applied, and the filters being edited, have valid
/// dates.
pub open spec fn filter_transactions_wf(v: FilterTransactionsView) -> bool {
    &&& transaction_filter_wf(v.filter)
    &&& v.editor matches Some(e) ==> entries_wf(e)
}

/// The page that lists the transactions that a filter selects, with the
/// filter editor when it is open.
pub struct FilterTransactions {
    accounts: Vec<NamedId>,
    categories: Vec<NamedId>,
    bills: Vec<NamedId>,
    budgets: Vec<NamedId>,
    change_filter: Option<FilterComponent>,
    filter: TransactionFilter,
}

/// What [`FilterTransactions::update`] does: `old` becomes `new` and `r` is returned.
pub open spec fn filter_transactions_post(old: FilterTransactions, message: FilterTransactionsMessage, new: FilterTransactions, r: FilterTransactionsAction) -> bool {
    &&& filter_transactions_wf(new@)
    &&& match message {
            FilterTransactionsMessage::Initialize { accounts, categories, bills, budgets } => r is Nothing
                && new@ == (FilterTransactionsView {
                    accounts: accounts@,
                    categories: categories@,
                    bills: bills@,
                    budgets: budgets@,
                    ..old@
                }),
            FilterTransactionsMessage::ViewTransaction(id) => r == FilterTransactionsAction::ViewTransaction(id)
                && new@ == old@,
            FilterTransactionsMessage::ViewAccount(id) => r == FilterTransactionsAction::ViewAccount(id)
                && new@ == old@,
            FilterTransactionsMessage::ToggleEditFilter => r is Nothing && match old@.editor {
                Some(_) => new@ == (FilterTransactionsView { editor: None, ..old@ }),
                None => new@ == (FilterTransactionsView { editor: new@.editor, ..old@ })
                    && toggled_open(new@.editor, old@),
            },
            FilterTransactionsMessage::FilterComponent(m) => match old@.editor {
                None => r is Nothing && new@ == old@,
                Some(e) => exists|e2: FilterComponentView, a: filter::Action|
                    #[trigger] filter::update_post(e, m, e2, a) && match a {
                        filter::Action::Submit(f) => new@ == (FilterTransactionsView {
                            editor: None,
                            filter: f,
                            ..old@
                        }) && (r matches FilterTransactionsAction::FetchFiltered(g) && same_filter(g, f)),
                        filter::Action::Nothing => r is Nothing
                            && new@ == (FilterTransactionsView { editor: Some(e2), ..old@ }),
                    },
            },
        }
}

impl View for FilterTransactions {
    type V = FilterTransactionsView;

    closed spec fn view(&self) -> FilterTransactionsView {
        FilterTransactionsView {
            accounts: self.accounts@,
            categories: self.categories@,
            bills: self.bills@,
            budgets: self.budgets@,
            editor: match self.change_filter {
                Some(e) => Some(e@),
                None => None,
            },
            filter: self.filter,
        }
    }
}

impl FilterTransactions {
    /// The page before its data has arrived: nothing to filter by, the editor
    /// closed, and the filter that selects everything.
    pub fn new() -> (r: Self)
        ensures
            r@.accounts.len() == 0 && r@.categories.len() == 0,
            r@.bills.len() == 0 && r@.budgets.len() == 0,
            r@.editor is None,
            r@.filter.default_timespan == (DateSpan { start: None, end: None }),
            r@.filter.accounts@.len() == 0 && r@.filter.categories@.len() == 0,
            r@.filter.bills@.len() == 0 && r@.filter.budgets@.len() == 0,
            filter_transactions_wf(r@),
    {
        FilterTransactions {
            accounts: Vec::new(),
            categories: Vec::new(),
            bills: Vec::new(),
            budgets: Vec::new(),
            change_filter: None,
            filter: TransactionFilter {
                default_timespan: DateSpan { start: None, end: None },
                accounts: Vec::new(),
                categories: Vec::new(),
                bills: Vec::new(),
                budgets: Vec::new(),
            },
        }
    }

    /// The filter editor, when it is open.
    pub fn filter_editor(&self) -> (r: &Option<FilterComponent>)
        ensures
            match *r {
                Some(e) => self@.editor == Some(e@),
                None => self@.editor is None,
            },
    {
        &self.change_filter
    }

    /// Applies a message and says what the owner has to do.
    pub fn update(&mut self, message: FilterTransactionsMessage) -> (r: FilterTransactionsAction)
        requires
            filter_transactions_wf(old(self)@),
            message matches FilterTransactionsMessage::FilterComponent(m) ==>
                (old(self)@.editor matches Some(e) ==> filter::update_defined(e, m)),
        ensures
            filter_transactions_post(*old(self), message, *final(self), r),

    {
        match message {
            FilterTransactionsMessage::Initialize { accounts, categories, bills, budgets } => {
                self.accounts = accounts;
                self.categories = categories;
                self.bills = bills;
                self.budgets = budgets;
                FilterTransactionsAction::Nothing
            },
            FilterTransactionsMessage::ViewTransaction(id) => FilterTransactionsAction::ViewTransaction(id),
            FilterTransactionsMessage::ViewAccount(id) => FilterTransactionsAction::ViewAccount(id),
            FilterTransactionsMessage::ToggleEditFilter => {
                if self.change_filter.is_some() {
                    self.change_filter = None;
                } else {
                    let editor = FilterComponent::new(
                        copy_named(&self.accounts),
                        copy_named(&self.categories),
                        copy_named(&self.bills),
                        copy_named(&self.budgets),
                    );
                    let f = copy_transaction_filter(&self.filter);
                    assert(transaction_filter_wf(f)) by {
                        assert(f.accounts@ == self.filter.accounts@);
                        assert(f.categories@ == self.filter.categories@);
                        assert(f.bills@ == self.filter.bills@);
                        assert(f.budgets@ == self.filter.budgets@);
                    }
                    let ghost before = editor@;
                    let editor = editor.with_filter(f);
                    proof {
                        filter::lemma_set_filter_entries_wf(before, f, editor@);
                    }
                    self.change_filter = Some(editor);
                }
                FilterTransactionsAction::Nothing
            },
            FilterTransactionsMessage::FilterComponent(m) => {
                let mut current: Option<FilterComponent> = None;
                std::mem::swap(&mut current, &mut self.change_filter);
                match current {
                    Some(mut editor) => {
                        let ghost e = editor@;
                        let a = editor.update(m);
                        proof {
                            filter::lemma_update_keeps_entries_wf(e, m, editor@, a);
                        }
                        match a {
                            filter::Action::Submit(f) => {
                                let g = copy_transaction_filter(&f);
                                self.filter = f;
                                FilterTransactionsAction::FetchFiltered(g)
                            },
                            filter::Action::Nothing => {
                                self.change_filter = Some(editor);
                                FilterTransactionsAction::Nothing
                            },
                        }
                    },
                    None => FilterTransactionsAction::Nothing,
                }
            },
        }
    }
}

/// True when `editor` is the filter editor that opening it on the page `old`
/// gives: copies of the page's things ordered by name, editing the page's
/// filter.
pub open spec fn toggled_open(editor: Option<FilterComponentView>, old: FilterTransactionsView) -> bool {
    editor matches Some(e) && {
        &&& sorted_copy(e.accounts, old.accounts)
        &&& sorted_copy(e.categories, old.categories)
        &&& sorted_copy(e.bills, old.bills)
        &&& sorted_copy(e.budgets, old.budgets)
        &&& e.default_input == span_input_for(Some(old.filter.default_timespan))
        &&& e.account_entries == entries_for_filters(old.filter.accounts@, ids_of(e.accounts))
        &&& e.category_entries == entries_for_filters(old.filter.categories@, ids_of(e.categories))
        &&& e.bill_entries == entries_for_filters(old.filter.bills@, ids_of(e.bills))
        &&& e.budget_entries == entries_for_filters(old.filter.budgets@, ids_of(e.budgets))
    }
}

} // verus!
