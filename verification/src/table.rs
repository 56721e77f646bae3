//! The state of a paged, sortable table: which page is shown, by which
//! column it is sorted, and how the user's actions change that.

use vstd::prelude::*;

verus! {

/// What the user can do with a table.
pub enum InnerMessage<Message> {
    /// A message of a cell, passed on to the owner of the table.
    OuterMessage(Box<Message>),
    /// The user clicked the sort button of a column.
    SortByColumn(usize),
    /// The user moved by this many pages.
    ChangePageBy(isize),
    /// The user asked to scroll to the top.
    ScrollToTop,
}

/// What the owner of a table has to do after an action.
pub enum Action<Message> {
    /// Handle this message of a cell.
    OuterMessage(Message),
    /// Scroll the table to the top.
    ScrollToTop,
    /// Order the items by `column` (backwards when `reverse`) with the
    /// table's comparator ([`State::sort_with`] does it, or pass an order to
    /// [`State::sort`]), then scroll to the top.
    Sort { column: usize, reverse: bool },
    /// Nothing.
    Nothing,
}

/// The abstract state of a table.
pub struct TableView<T, C> {
    pub items: Seq<T>,
    pub context: C,
    pub page_size: nat,
    pub page: nat,
    pub sort_column: Option<usize>,
    pub sort_reverse: bool,
    pub sortable: Seq<usize>,
    /// True when the table has a comparator.
    pub sorting: bool,
}

/// The last page: the number of full pages.
pub open spec fn max_page<T, C>(v: TableView<T, C>) -> nat {
    v.items.len() / v.page_size
}

/// True for the states that the table's functions keep.
pub open spec fn table_wf<T, C>(v: TableView<T, C>) -> bool {
    &&& v.page_size > 0
    &&& v.page <= max_page(v)
}

/// The items in the order `order`: position `i` gets the item at `order[i]`.
pub open spec fn arranged<T>(items: Seq<T>, order: Seq<usize>) -> Seq<T> {
    Seq::new(items.len(), |i: int| items[order[i] as int])
}

/// The item that `order` puts at position `k`.
pub open spec fn arranged_at<T>(items: Seq<T>, order: Seq<usize>, k: int) -> T {
    items[order[k] as int]
}

/// The item at position `i`.
pub open spec fn item_at<T>(items: Seq<T>, i: usize) -> T {
    items[i as int]
}

/// The count `n` as a natural number.
pub open spec fn count_of(n: usize) -> nat {
    n as nat
}

/// True when `order` lists each index below `n` once.
pub open spec fn is_permutation(order: Seq<usize>, n: nat) -> bool {
    &&& order.len() == n
    &&& forall|i: int| 0 <= i < order.len() ==> order[i] < n
    &&& forall|i: int, j: int| 0 <= i < j < order.len() ==> order[i] != order[j]
}

/// The positions `0..n` in order.
pub open spec fn identity(n: nat) -> Seq<usize> {
    Seq::new(n, |i: int| i as usize)
}

/// The positions `0..n` form a permutation of themselves.
pub proof fn lemma_identity_permutation(n: nat)
    requires
        n <= usize::MAX,
    ensures
        is_permutation(identity(n), n),
{
}

/// Reordering a permutation by a permutation gives a permutation.
pub proof fn lemma_permuted_permutation(items: Seq<usize>, order: Seq<usize>, n: nat)
    requires
        is_permutation(items, n),
        is_permutation(order, n),
    ensures
        is_permutation(Seq::new(n, |i: int| items[order[i] as int]), n),
{
    let r = Seq::new(n, |i: int| items[order[i] as int]);
    assert forall|i: int, j: int| 0 <= i < j < r.len() implies r[i] != r[j] by {
        assert(order[i] != order[j]);
        if order[i] < order[j] {
            assert(items[order[i] as int] != items[order[j] as int]);
        } else {
            assert(items[order[j] as int] != items[order[i] as int]);
        }
    }
}

/// The page after a move by `value` pages, both taken as `i32` (the 32 low
/// bits, as a cast does): never below the first page.
pub open spec fn moved_page(page: nat, value: isize) -> nat {
    let sum = (page as i32) + (value as i32);
    if sum < 0 { 0 } else { sum as nat }
}

/// True when the table can take `message`: a move by pages must not overflow
/// an `i32`.
pub open spec fn perform_defined<T, C, Message>(v: TableView<T, C>, message: InnerMessage<Message>) -> bool {
    message matches InnerMessage::ChangePageBy(value) ==> i32::MIN <= (v.page as i32) + (value as i32) <= i32::MAX
}

/// What [`State::perform`] does: `old` becomes `new` and `r` is returned.
pub open spec fn perform_post<T, C, Message>(
    old: TableView<T, C>,
    message: InnerMessage<Message>,
    new: TableView<T, C>,
    r: Action<Message>,
) -> bool {
    match message {
        InnerMessage::ChangePageBy(value) => {
            let p = moved_page(old.page, value);
            if p <= max_page(old) {
                r is ScrollToTop && new == (TableView { page: p, ..old })
            } else {
                r is Nothing && new == old
            }
        },
        InnerMessage::OuterMessage(m) => r == Action::OuterMessage(*m) && new == old,
        InnerMessage::SortByColumn(column) => {
            let reverse = if old.sort_column == Some(column) { !old.sort_reverse } else { false };
            &&& new == (TableView { page: 0, ..old })
            &&& old.sorting ==> r == Action::<Message>::Sort { column, reverse }
            &&& !old.sorting ==> r is ScrollToTop
        },
        InnerMessage::ScrollToTop => r is ScrollToTop && new == old,
    }
}

/// The state of a table with items of type `T` and a context of type `C`
/// that the rows are drawn with.
pub struct State<T, C> {
    items: Vec<T>,
    context: C,
    page_size: usize,
    page: usize,
    sort_column: Option<usize>,
    sort_reverse: bool,
    sortable: Vec<usize>,
    sorting: bool,
}

impl<T, C> View for State<T, C> {
    type V = TableView<T, C>;

    closed spec fn view(&self) -> TableView<T, C> {
        TableView {
            items: self.items@,
            context: self.context,
            page_size: self.page_size as nat,
            page: self.page as nat,
            sort_column: self.sort_column,
            sort_reverse: self.sort_reverse,
            sortable: self.sortable@,
            sorting: self.sorting,
        }
    }
}

impl<T, C> State<T, C> {
    /// A table of `items` on pages of 50, on the first page, unsorted, with
    /// no sortable column and no comparator.
    pub fn new(items: Vec<T>, context: C) -> (r: Self)
        ensures
            r@.items == items@,
            r@.context == context,
            r@.page_size == 50,
            r@.page == 0,
            r@.sort_column is None,
            !r@.sort_reverse,
            r@.sortable == Seq::<usize>::empty(),
            !r@.sorting,
            table_wf(r@),
    {
        State {
            items,
            context,
            page_size: 50,
            page: 0,
            sort_column: None,
            sort_reverse: false,
            sortable: Vec::new(),
            sorting: false,
        }
    }

    /// The same table whose sortable columns are `sortable`.
    pub fn sortable_columns(self, sortable: Vec<usize>) -> (r: Self)
        ensures
            r@ == (TableView { sortable: sortable@, ..self@ }),
    {
        State { sortable, ..self }
    }

    /// The same table, with `column` sortable when `sortable` is true.
    pub fn column_sortable(self, column: usize, sortable: bool) -> (r: Self)
        ensures
            r@ == (if sortable && !self@.sortable.contains(column) {
                TableView { sortable: self@.sortable.push(column), ..self@ }
            } else {
                self@
            }),
    {
        let mut s = self;
        if sortable && !contains(&s.sortable, column) {
            s.sortable.push(column);
        }
        s
    }

    /// The same table, which now has a comparator: sort requests are passed
    /// to the owner, who holds the comparator.
    pub fn sort_by(self) -> (r: Self)
        ensures
            r@ == (TableView { sorting: true, ..self@ }),
    {
        State { sorting: true, ..self }
    }

    /// True when `column` is sortable.
    pub fn is_sortable(&self, column: usize) -> (r: bool)
        ensures
            r == self@.sortable.contains(column),
    {
        contains(&self.sortable, column)
    }

    /// Reorders the items as `order` says (the item at position `i` is the
    /// one that was at `order[i]`) and records the sort, when the table has a
    /// comparator; otherwise nothing changes.
    pub fn sort(&mut self, column: usize, reverse: bool, order: Vec<usize>)
        requires
            is_permutation(order@, old(self)@.items.len()),
        ensures
            old(self)@.sorting ==> final(self)@ == (TableView {
                items: Seq::new(old(self)@.items.len(), |i: int| old(self)@.items[order@[i] as int]),
                sort_column: Some(column),
                sort_reverse: reverse,
                ..old(self)@
            }),
            !old(self)@.sorting ==> final(self)@ == old(self)@,
    {
        if self.sorting {
            let mut items: Vec<T> = Vec::new();
            std::mem::swap(&mut items, &mut self.items);
            let sorted = permute(items, &order);
            self.items = sorted;
            self.sort_column = Some(column);
            self.sort_reverse = reverse;
        }
    }

    /// The same table with pages of `page_size` items, on the first page.
    pub fn page_size(self, page_size: usize) -> (r: Self)
        requires
            page_size > 0,
        ensures
            r@ == (TableView { page_size: page_size as nat, page: 0, ..self@ }),
            table_wf(r@),
    {
        State { page_size, page: 0, ..self }
    }

    /// Takes the table and moves it to `page` (at most the last page); the
    /// table is consumed.
    pub fn page(self, page: usize)
        requires
            table_wf(self@),
    {
        let mut s = self;
        if page > s.max_page() {
            s.page = s.max_page();
            return;
        }
        s.page = page;
    }

    /// The last page.
    pub fn max_page(&self) -> (r: usize)
        requires
            self@.page_size > 0,
        ensures
            r == max_page(self@),
    {
        self.items.len() / self.page_size
    }

    /// The page shown.
    pub fn current_page(&self) -> (r: usize)
        ensures
            r == self@.page,
    {
        self.page
    }

    /// The indices of the items on the page shown: `start..end`.
    pub fn page_range(&self) -> (r: (usize, usize))
        requires
            table_wf(self@),
        ensures
            r.0 == self@.page * self@.page_size,
            r.1 == if r.0 + self@.page_size <= self@.items.len() { r.0 + self@.page_size } else { self@.items.len() as int },
            r.0 <= r.1 <= self@.items.len(),
    {
        proof {
            let len = self@.items.len();
            let ps = self@.page_size;
            let p = self@.page;
            assert(p * ps <= (len / ps) * ps) by (nonlinear_arith)
                requires p <= len / ps, ps > 0;
            assert((len / ps) * ps <= len) by (nonlinear_arith)
                requires ps > 0;
        }
        assert(self.page * self.page_size <= self.items.len());
        let start = self.page * self.page_size;
        let end = if self.items.len() - start >= self.page_size { start + self.page_size } else { self.items.len() };
        (start, end)
    }

    /// True when there is a page before the one shown.
    pub fn has_previous_page(&self) -> (r: bool)
        ensures
            r == (self@.page != 0),
    {
        self.page != 0
    }

    /// True when there is a page after the one shown.
    pub fn has_next_page(&self) -> (r: bool)
        requires
            self@.page_size > 0,
        ensures
            r == (self@.page != max_page(self@)),
    {
        self.page != self.max_page()
    }

    /// Applies what the user did, and says what the owner has to do.
    pub fn perform<Message>(&mut self, message: InnerMessage<Message>) -> (r: Action<Message>)
        requires
            table_wf(old(self)@),
            perform_defined(old(self)@, message),
        ensures
            table_wf(final(self)@),
            perform_post(old(self)@, message, final(self)@, r),
    {
        match message {
            InnerMessage::ChangePageBy(value) => {
                let sum: i32 = (self.page as i32) + (value as i32);
                let new_page: usize = if sum < 0 { 0 } else { sum as usize };
                if new_page <= self.max_page() {
                    self.page = new_page;
                    Action::ScrollToTop
                } else {
                    Action::Nothing
                }
            },
            InnerMessage::OuterMessage(outer) => Action::OuterMessage(*outer),
            InnerMessage::SortByColumn(column) => {
                let reverse = if self.sort_column == Some(column) { !self.sort_reverse } else { false };
                self.page = 0;
                if self.sorting {
                    Action::Sort { column, reverse }
                } else {
                    Action::ScrollToTop
                }
            },
            InnerMessage::ScrollToTop => Action::ScrollToTop,
        }
    }

    /// The items.
    pub fn items(&self) -> (r: &Vec<T>)
        ensures
            r@ == self@.items,
    {
        &self.items
    }

    /// The context that the rows are drawn with.
    pub fn context(&self) -> (r: &C)
        ensures
            *r == self@.context,
    {
        &self.context
    }

    /// Replaces the items: back on the first page and unsorted.
    pub fn set_items(&mut self, items: Vec<T>)
        requires
            old(self)@.page_size > 0,
        ensures
            final(self)@ == (TableView {
                items: items@,
                page: 0,
                sort_column: None,
                sort_reverse: false,
                ..old(self)@
            }),
            table_wf(final(self)@),
    {
        self.items = items;
        self.page = 0;
        self.sort_column = None;
        self.sort_reverse = false;
    }

    /// Replaces the items by an edited list: unsorted, and the page kept
    /// unless it no longer exists, then the last page.
    pub fn edit_items(&mut self, items: Vec<T>)
        requires
            old(self)@.page_size > 0,
        ensures
            ({
                let v = TableView { items: items@, sort_column: None, sort_reverse: false, ..old(self)@ };
                final(self)@ == (TableView {
                    page: if old(self)@.page > max_page(v) { max_page(v) } else { old(self)@.page },
                    ..v
                })
            }),
            table_wf(final(self)@),
    {
        self.items = items;
        self.sort_column = None;
        self.sort_reverse = false;
        if self.page > self.max_page() {
            self.page = self.max_page();
        }
    }

    /// Hands the items out, leaving the table empty, on the first page and
    /// unsorted.
    pub fn take_items(&mut self) -> (r: Vec<T>)
        requires
            old(self)@.page_size > 0,
        ensures
            r@ == old(self)@.items,
            final(self)@ == (TableView {
                items: Seq::<T>::empty(),
                page: 0,
                sort_column: None,
                sort_reverse: false,
                ..old(self)@
            }),
            table_wf(final(self)@),
    {
        let mut items: Vec<T> = Vec::new();
        std::mem::swap(&mut items, &mut self.items);
        self.page = 0;
        self.sort_column = None;
        self.sort_reverse = false;
        items
    }

    /// Replaces the context.
    pub fn set_context(&mut self, context: C)
        ensures
            final(self)@ == (TableView { context, ..old(self)@ }),
    {
        self.context = context;
    }

    /// The column the table is sorted by, and whether backwards.
    pub fn sort_state(&self) -> (r: (Option<usize>, bool))
        ensures
            r == (self@.sort_column, self@.sort_reverse),
    {
        (self.sort_column, self.sort_reverse)
    }
}

/// True when `v` holds `x`.
fn contains(v: &Vec<usize>, x: usize) -> (r: bool)
    ensures
        r == v@.contains(x),
{
    let mut i: usize = 0;
    while i < v.len()
        invariant
            i <= v.len(),
            forall|j: int| 0 <= j < i ==> v@[j] != x,
        decreases v.len() - i,
    {
        if v[i] == x {
            assert(v@[i as int] == x);
            return true;
        }
        i = i + 1;
    }
    false
}

/// True when one of the first `i` entries of `order` is `m`.
pub open spec fn is_taken(order: Seq<usize>, i: int, m: int) -> bool {
    exists|j: int| 0 <= j < i && order[j] == m
}

/// The items in the order `order`: position `i` gets the item at `order[i]`.
fn permute<T>(items: Vec<T>, order: &Vec<usize>) -> (r: Vec<T>)
    requires
        is_permutation(order@, items@.len()),
    ensures
        r@ == Seq::new(items@.len(), |i: int| items@[order@[i] as int]),
{
    let ghost orig = items@;
    let n = items.len();
    let mut items = items;
    // slots[k] holds the item that was at k until it is taken
    let mut slots: Vec<Option<T>> = Vec::new();
    let mut k: usize = 0;
    while k < n
        invariant
            k <= n,
            n == orig.len(),
            items@ == orig.take(n - k),
            slots@.len() == k,
            forall|j: int| 0 <= j < k ==> slots@[j] == Some(orig[n - 1 - j]),
        decreases n - k,
    {
        let x = items.pop();
        match x {
            Some(v) => {
                slots.push(Some(v));
            },
            None => {},
        }
        k = k + 1;
        assert(items@ =~= orig.take(n - k));
    }
    // slots holds the items backwards: slot n - 1 - k holds item k
    let mut r: Vec<T> = Vec::new();
    let mut i: usize = 0;
    while i < n
        invariant
            i <= n,
            n == orig.len(),
            is_permutation(order@, n as nat),
            slots@.len() == n,
            r@.len() == i,
            forall|j: int| 0 <= j < i ==> r@[j] == orig[order@[j] as int],
            forall|q: int| 0 <= q < n ==> (slots@[n - 1 - q] == if is_taken(order@, i as int, q) {
                None
            } else {
                Some(orig[q])
            }),
        decreases n - i,
    {
        let m = order[i];
        let pos = n - 1 - m;
        let ghost before = slots@;
        proof {
            if is_taken(order@, i as int, m as int) {
                let j = choose|j: int| 0 <= j < i && order@[j] == m as int;
                assert(order@[j] != order@[i as int]);
            }
            assert(before[pos as int] == Some(orig[m as int]));
        }
        slots.push(None);
        let taken = slots.swap_remove(pos);
        assert(taken == Some(orig[m as int]));
        assert(slots@ =~= before.update(pos as int, None));
        let v = match taken {
            Some(v) => v,
            None => { proof { assert(false); } return r; },
        };
        r.push(v);
        let ghost i1: int = i + 1;
        proof {
            assert forall|q: int| 0 <= q < n implies (slots@[n - 1 - q] == if is_taken(order@, i1, q) {
                None
            } else {
                Some(orig[q])
            }) by {
                if q == m as int {
                    assert(order@[i as int] == q);
                    assert(is_taken(order@, i1, q));
                } else {
                    assert(n - 1 - q != pos);
                    if is_taken(order@, i1, q) {
                        let j = choose|j: int| 0 <= j < i1 && order@[j] == q;
                        assert(j != i);
                        assert(is_taken(order@, i as int, q));
                    }
                    if is_taken(order@, i as int, q) {
                        let j = choose|j: int| 0 <= j < i && order@[j] == q;
                        assert(is_taken(order@, i1, q));
                    }
                }
            }
        }
        i = i + 1;
        assert(i1 == i as int);
    }
    assert(r@ =~= Seq::new(orig.len(), |i: int| orig[order@[i] as int]));
    r
}

/// Takes the first `count` items off the front of `vector` and returns them.
pub fn pop_front_slice<T>(vector: &mut Vec<T>, count: usize) -> (r: Vec<T>)
    requires
        count <= old(vector)@.len(),
    ensures
        r@ == old(vector)@.take(count as int),
        final(vector)@ == old(vector)@.skip(count as int),
{
    let ghost orig = vector@;
    let mut result: Vec<T> = Vec::new();
    let mut i: usize = 0;
    while i < count
        invariant
            i <= count <= orig.len(),
            result@ == orig.take(i as int),
            vector@ == orig.skip(i as int),
        decreases count - i,
    {
        let x = vector.remove(0);
        result.push(x);
        i = i + 1;
        assert(result@ =~= orig.take(i as int));
        assert(vector@ =~= orig.skip(i as int));
    }
    result
}

/// The positions `0..n` in order.
pub fn identity_order(n: usize) -> (r: Vec<usize>)
    ensures
        r@ == identity(n as nat),
{
    let mut r: Vec<usize> = Vec::new();
    let mut i: usize = 0;
    while i < n
        invariant
            i <= n,
            r@ == identity(i as nat),
        decreases n - i,
    {
        r.push(i);
        i = i + 1;
        assert(r@ =~= identity(i as nat));
    }
    r
}

} // verus!
