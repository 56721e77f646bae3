//! The overview pages (asset accounts, book-checking accounts, budgets,
//! categories, bills): a sortable table of items, filled when the data
//! arrives and refreshed when it changes, whose links lead to other pages.
use vstd::prelude::*;
use crate::table::{self, State, TableView, table_wf};

verus! {

/// What the user, or a finished fetch, tells an overview; `N` is where its
/// links and buttons lead.
pub enum Message<T, N> {
    /// A link or button of the page.
    Navigate(N),
    /// The items arrived: the table starts over on its first page, unsorted.
    Initialize(Vec<T>),
    /// The items changed: the table keeps its page where it still exists.
    Reload(Vec<T>),
    Table(table::InnerMessage<Message<T, N>>),
}

/// What the owner of an overview has to do.
pub enum Action<N> {
    Nothing,
    /// Go where a link or button leads.
    Navigate(N),
    /// Scroll the table to the top.
    ScrollToTop,
    /// Order the rows by `column` (backwards when `reverse`), pass the order
    /// to [`Overview::sort_table`], then scroll to the top.
    SortTable { column: usize, reverse: bool },
}

/// True when an overview can take `message`: what it passes on to its table
/// is defined there.
pub open spec fn update_defined<T, N>(v: TableView<T, ()>, message: Message<T, N>) -> bool
    decreases message,
{
    match message {
        Message::Table(inner) => {
            &&& table::perform_defined(v, inner)
            &&& inner matches table::InnerMessage::OuterMessage(m) ==> update_defined(v, *m)
        },
        _ => true,
    }
}

/// What [`Overview::update`] does: the table `old` becomes `new` and `r` is
/// returned.
pub open spec fn update_post<T, N>(old: TableView<T, ()>, message: Message<T, N>, new: TableView<T, ()>, r: Action<N>) -> bool
    decreases message,
{
    match message {
        Message::Navigate(n) => r == Action::Navigate(n) && new == old,
        Message::Initialize(items) => r is Nothing && new == (TableView {
            items: items@,
            page: 0,
            sort_column: None,
            sort_reverse: false,
            ..old
        }),
        Message::Reload(items) => {
            let v = TableView { items: items@, sort_column: None, sort_reverse: false, ..old };
            r is Nothing && new == (TableView {
                page: if old.page > table::max_page(v) { table::max_page(v) } else { old.page },
                ..v
            })
        },
        Message::Table(inner) => match inner {
            table::InnerMessage::OuterMessage(m) => update_post(old, *m, new, r),
            _ => match r {
                Action::ScrollToTop => table::perform_post(old, inner, new, table::Action::ScrollToTop),
                Action::SortTable { column, reverse } =>
                    table::perform_post(old, inner, new, table::Action::Sort { column, reverse }),
                Action::Nothing => table::perform_post(old, inner, new, table::Action::Nothing),
                _ => false,
            },
        },
    }
}

/// An overview page: the table of its items.
pub struct Overview<T> {
    table: State<T, ()>,
}

impl<T> View for Overview<T> {
    type V = TableView<T, ()>;

    closed spec fn view(&self) -> TableView<T, ()> {
        self.table@
    }
}

impl<T> Overview<T> {
    /// An overview of `items` whose table can be sorted by the columns
    /// `sortable`, on pages of 50.
    pub fn new(items: Vec<T>, sortable: Vec<usize>) -> (r: Self)
        ensures
            r@ == (TableView {
                items: items@,
                context: (),
                page_size: 50,
                page: 0,
                sort_column: None,
                sort_reverse: false,
                sortable: sortable@,
                sorting: true,
            }),
            table_wf(r@),
    {
        Overview { table: State::new(items, ()).sort_by().sortable_columns(sortable) }
    }

    /// The table of the items.
    pub fn table(&self) -> (r: &State<T, ()>)
        ensures
            r@ == self@,
    {
        &self.table
    }

    /// Sorts the table in the order that the owner computed for
    /// [`Action::SortTable`].
    pub fn sort_table(&mut self, column: usize, reverse: bool, order: Vec<usize>)
        requires
            table::is_permutation(order@, old(self)@.items.len()),
        ensures
            old(self)@.sorting ==> final(self)@ == (TableView {
                items: Seq::new(old(self)@.items.len(), |i: int| old(self)@.items[order@[i] as int]),
                sort_column: Some(column),
                sort_reverse: reverse,
                ..old(self)@
            }),
            !old(self)@.sorting ==> final(self)@ == old(self)@,
            table_wf(old(self)@) ==> table_wf(final(self)@),
    {
        self.table.sort(column, reverse, order);
    }

    /// Applies a message and says what the owner has to do.
    pub fn update<N>(&mut self, message: Message<T, N>) -> (r: Action<N>)
        requires
            table_wf(old(self)@),
            update_defined(old(self)@, message),
        ensures
            table_wf(final(self)@),
            update_post(old(self)@, message, final(self)@, r),
        decreases message,
    {
        match message {
            Message::Navigate(n) => Action::Navigate(n),
            Message::Initialize(items) => {
                self.table.set_items(items);
                Action::Nothing
            },
            Message::Reload(items) => {
                self.table.edit_items(items);
                Action::Nothing
            },
            Message::Table(inner) => {
                let ghost before = self@;
                match self.table.perform(inner) {
                    table::Action::OuterMessage(m) => {
                        assert(self@ == before);
                        self.update(m)
                    },
                    table::Action::ScrollToTop => Action::ScrollToTop,
                    table::Action::Sort { column, reverse } => Action::SortTable { column, reverse },
                    table::Action::Nothing => Action::Nothing,
                }
            },
        }
    }
}

/// Where the bill overview leads, besides its own list.
#[derive(Debug, Clone, Copy, PartialEq, Eq, Structural)]
pub enum BillLink {
    ViewBill(u64),
    NewBill,
}

/// What the bill overview's owner has to do.
#[derive(Debug, Clone, Copy, PartialEq, Eq, Structural)]
pub enum BillAction {
    Nothing,
    ViewBill(u64),
    NewBill,
    /// Fetch the bills (the closed ones when `closed`) with their current
    /// values, and hand them back as [`BillMessage::Initialize`].
    Fetch { closed: bool },
    ScrollToTop,
    SortTable { column: usize, reverse: bool },
}

/// What the user, or a finished fetch, tells the bill overview.
pub enum BillMessage<T> {
    Link(BillLink),
    /// Show the closed bills instead.
    ViewClosed,
    /// Show the open bills again.
    BackToUnclosed,
    /// The bills arrived, open or closed.
    Initialize(Vec<T>, bool),
    /// The bills changed, open or closed.
    Reload(Vec<T>, bool),
    Table(table::InnerMessage<Message<T, BillLink>>),
}

/// The bill overview: the table of bills and whether they are the closed
/// ones.
pub struct BillOverview<T> {
    bills: Overview<T>,
    closed: bool,
}

/// The abstract state of the bill overview.
pub struct BillOverviewView<T> {
    pub bills: TableView<T, ()>,
    pub closed: bool,
}

impl<T> View for BillOverview<T> {
    type V = BillOverviewView<T>;

    closed spec fn view(&self) -> BillOverviewView<T> {
        BillOverviewView { bills: self.bills@, closed: self.closed }
    }
}

/// What [`BillOverview::update`] does: `old` becomes `new` and `r` is returned.
pub open spec fn bill_overview_post<T>(old: BillOverview<T>, message: BillMessage<T>, new: BillOverview<T>, r: BillAction) -> bool {
    &&& table_wf(new@.bills)
    &&& match message {
            BillMessage::Link(BillLink::ViewBill(id)) => r == BillAction::ViewBill(id) && new@.bills == old@.bills && new@.closed == old@.closed,
            BillMessage::Link(BillLink::NewBill) => r is NewBill && new@.bills == old@.bills && new@.closed == old@.closed,
            BillMessage::ViewClosed => r == BillAction::Fetch { closed: true } && new@.bills == old@.bills && new@.closed == old@.closed,
            BillMessage::BackToUnclosed => r == BillAction::Fetch { closed: false } && new@.bills == old@.bills && new@.closed == old@.closed,
            BillMessage::Initialize(bills, closed) => r is Nothing && new@.closed == closed
                && update_post(old@.bills, Message::<T, BillLink>::Initialize(bills), new@.bills, Action::Nothing),
            BillMessage::Reload(bills, closed) => r is Nothing && new@.closed == closed
                && update_post(old@.bills, Message::<T, BillLink>::Reload(bills), new@.bills, Action::Nothing),
            BillMessage::Table(inner) => new@.closed == old@.closed && exists|a: Action<BillLink>|
                #[trigger] update_post(old@.bills, Message::Table(inner), new@.bills, a) && match a {
                    Action::Nothing => r is Nothing,
                    Action::Navigate(BillLink::ViewBill(id)) => r == BillAction::ViewBill(id),
                    Action::Navigate(BillLink::NewBill) => r is NewBill,
                    Action::ScrollToTop => r is ScrollToTop,
                    Action::SortTable { column, reverse } => r == BillAction::SortTable { column, reverse },
                },
        }
}

impl<T> BillOverview<T> {
    /// An overview of `bills` (closed ones when `closed`), sortable by the
    /// columns 0 to 4 (name, value, current value, due date, number of
    /// transactions).
    pub fn new(bills: Vec<T>, closed: bool) -> (r: Self)
        ensures
            r@.bills.items == bills@ && r@.bills.page == 0 && r@.bills.sort_column is None,
            r@.bills.sortable == seq![0usize, 1, 2, 3, 4] && r@.bills.sorting,
            table_wf(r@.bills),
            r@.closed == closed,
    {
        let columns: Vec<usize> = vec![0, 1, 2, 3, 4];
        BillOverview { bills: Overview::new(bills, columns), closed }
    }

    /// The table of bills.
    pub fn table(&self) -> (r: &State<T, ()>)
        ensures
            r@ == self@.bills,
    {
        self.bills.table()
    }

    /// Whether the closed bills are shown.
    pub fn closed(&self) -> (r: bool)
        ensures
            r == self@.closed,
    {
        self.closed
    }

    /// Sorts the table in the order that the owner computed.
    pub fn sort_table(&mut self, column: usize, reverse: bool, order: Vec<usize>)
        requires
            table_wf(old(self)@.bills),
            table::is_permutation(order@, old(self)@.bills.items.len()),
        ensures
            table_wf(final(self)@.bills),
            final(self)@.closed == old(self)@.closed,
            old(self)@.bills.sorting ==> final(self)@.bills == (TableView {
                items: Seq::new(old(self)@.bills.items.len(), |i: int| old(self)@.bills.items[order@[i] as int]),
                sort_column: Some(column),
                sort_reverse: reverse,
                ..old(self)@.bills
            }),
            !old(self)@.bills.sorting ==> final(self)@.bills == old(self)@.bills,
    {
        self.bills.sort_table(column, reverse, order);
    }

    /// Applies a message and says what the owner has to do.
    pub fn update(&mut self, message: BillMessage<T>) -> (r: BillAction)
        requires
            table_wf(old(self)@.bills),
            message matches BillMessage::Table(inner) ==> update_defined(old(self)@.bills, Message::Table(inner)),
        ensures
            bill_overview_post(*old(self), message, *final(self), r),

    {
        match message {
            BillMessage::Link(BillLink::ViewBill(id)) => BillAction::ViewBill(id),
            BillMessage::Link(BillLink::NewBill) => BillAction::NewBill,
            BillMessage::ViewClosed => BillAction::Fetch { closed: true },
            BillMessage::BackToUnclosed => BillAction::Fetch { closed: false },
            BillMessage::Initialize(bills, closed) => {
                self.closed = closed;
                self.bills.update::<BillLink>(Message::Initialize(bills));
                BillAction::Nothing
            },
            BillMessage::Reload(bills, closed) => {
                self.closed = closed;
                self.bills.update::<BillLink>(Message::Reload(bills));
                BillAction::Nothing
            },
            BillMessage::Table(inner) => {
                let a = self.bills.update(Message::Table(inner));
                let ghost ag = a;
                let r = match a {
                    Action::Nothing => BillAction::Nothing,
                    Action::Navigate(BillLink::ViewBill(id)) => BillAction::ViewBill(id),
                    Action::Navigate(BillLink::NewBill) => BillAction::NewBill,
                    Action::ScrollToTop => BillAction::ScrollToTop,
                    Action::SortTable { column, reverse } => BillAction::SortTable { column, reverse },
                };
                assert(update_post(old(self)@.bills, Message::Table(inner), self@.bills, ag));
                r
            },
        }
    }
}

} // verus!
