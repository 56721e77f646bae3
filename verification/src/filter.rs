//! The transaction filter editor: filters by account, category, bill and
//! budget, each negatable, excludable, specific or general, with an optional
//! timespan of its own.

use vstd::prelude::*;
use crate::date_time::DateSpan;
use crate::inputs::date_span_input::{self, DateSpanView};
use crate::inputs::date_input::{DateInputView, input_date};
use crate::named::{NamedId, ordered_by_name, sort_by_name, sorted_by_name, text_lt, lemma_text_lt_irreflexive};

verus! {

/// One filter: which thing it is about (`id`, or all of that kind when
/// `None`), whether it is negated, whether matching transactions are
/// included or excluded, and an optional timespan of its own.
#[derive(Clone, Copy, Debug)]
pub struct Filter {
    pub negated: bool,
    pub id: Option<u64>,
    pub included: bool,
    pub timespan: Option<DateSpan>,
}

/// A filter of transactions: a default timespan and the filters of each kind.
#[derive(Clone, Debug)]
pub struct TransactionFilter {
    pub default_timespan: DateSpan,
    pub accounts: Vec<Filter>,
    pub categories: Vec<Filter>,
    pub bills: Vec<Filter>,
    pub budgets: Vec<Filter>,
}

/// True when the dates of a filter are valid.
pub open spec fn filter_wf(f: Filter) -> bool {
    f.timespan matches Some(t) ==> t.wf()
}

/// What the user can do with one filter entry.
pub enum EntryMessage {
    /// Remove the entry.
    Delete,
    /// Set whether the filter is negated.
    Negate(bool),
    /// Set whether matching transactions are excluded.
    Exclude(bool),
    /// Make the filter about one thing (the first option) or about all.
    Specific(bool),
    /// Give the filter a timespan of its own, or remove it.
    CustomTimespan(bool),
    /// An action on the timespan input.
    TimespanInput(date_span_input::Action),
    /// Make the filter about the option with this id.
    SpecificSelected(u64),
}

/// What the owner of an entry has to do after an action.
#[derive(Clone, Copy, Debug, PartialEq, Eq, Structural)]
pub enum EntryAction {
    /// Remove the entry.
    Delete,
    /// Nothing.
    Nothing,
}

/// The abstract state of a filter entry.
pub struct FilterEntryView {
    pub filter: Filter,
    pub options: Seq<u64>,
    pub timespan_input: DateSpanView,
    pub selected: Option<u64>,
}

/// The option that a filter is about, when it is one of the options.
pub open spec fn selected_option(options: Seq<u64>, id: Option<u64>) -> Option<u64> {
    match id {
        Some(i) => if options.contains(i) { Some(i) } else { None },
        None => None,
    }
}

/// True when an action on an entry may be performed.
pub open spec fn entry_message_defined(v: FilterEntryView, m: EntryMessage) -> bool {
    m matches EntryMessage::TimespanInput(a) ==> date_span_input::action_defined(v.timespan_input, a)
}

/// The state of an entry after an action (a deletion leaves it as it is).
pub open spec fn entry_after(v: FilterEntryView, m: EntryMessage) -> FilterEntryView {
    match m {
        EntryMessage::Delete => v,
        EntryMessage::Negate(b) => FilterEntryView { filter: Filter { negated: b, ..v.filter }, ..v },
        EntryMessage::Exclude(b) => FilterEntryView { filter: Filter { included: !b, ..v.filter }, ..v },
        EntryMessage::Specific(b) => if !b || v.options.len() == 0 {
            FilterEntryView { filter: Filter { id: None, ..v.filter }, ..v }
        } else {
            FilterEntryView { filter: Filter { id: Some(v.options[0]), ..v.filter }, selected: Some(v.options[0]), ..v }
        },
        EntryMessage::CustomTimespan(b) => FilterEntryView {
            filter: Filter { timespan: if b { Some(DateSpan { start: None, end: None }) } else { None }, ..v.filter },
            ..v
        },
        EntryMessage::TimespanInput(a) => FilterEntryView {
            timespan_input: date_span_input::after_action(v.timespan_input, a),
            ..v
        },
        EntryMessage::SpecificSelected(id) => FilterEntryView { filter: Filter { id: Some(id), ..v.filter }, selected: Some(id), ..v },
    }
}

/// A date span input with both ends empty and its menus closed.
pub open spec fn empty_span_input() -> DateSpanView {
    DateSpanView {
        start: DateInputView { value: Seq::empty(), default_value: None, drop_down: false },
        end: DateInputView { value: Seq::empty(), default_value: None, drop_down: false },
        drop_down: false,
    }
}

/// One filter being edited.
pub struct FilterEntry {
    filter: Filter,
    options: Vec<u64>,
    timespan_input: date_span_input::State,
    selected: Option<u64>,
}

impl View for FilterEntry {
    type V = FilterEntryView;

    closed spec fn view(&self) -> FilterEntryView {
        FilterEntryView {
            filter: self.filter,
            options: self.options@,
            timespan_input: self.timespan_input@,
            selected: self.selected,
        }
    }
}

/// True when `v` holds `x`.
fn holds(v: &Vec<u64>, x: u64) -> (r: bool)
    ensures
        r == v@.contains(x),
{
    let mut i: usize = 0;
    while i < v.len()
        invariant
            i <= v.len(),
            forall|j: int| 0 <= j < i ==> v@[j] != x,
        decreases v.len() - i,
    {
        if v[i] == x {
            assert(v@[i as int] == x);
            return true;
        }
        i = i + 1;
    }
    false
}

impl FilterEntry {
    /// An entry editing `filter`, whose specific thing is picked among
    /// `options` (ids).
    pub fn new(filter: Filter, options: Vec<u64>) -> (r: Self)
        requires
            filter_wf(filter),
        ensures
            r@.filter == filter,
            r@.options == options@,
            r@.selected == selected_option(options@, filter.id),
            r@.timespan_input.start.value == (match filter.timespan {
                Some(DateSpan { start: Some(d), .. }) => crate::date_time::date_text(d),
                _ => Seq::<char>::empty(),
            }),
            r@.timespan_input.end.value == (match filter.timespan {
                Some(DateSpan { end: Some(d), .. }) => crate::date_time::date_text(d),
                _ => Seq::<char>::empty(),
            }),
            r@.timespan_input.start.default_value is None && r@.timespan_input.end.default_value is None,
            !r@.timespan_input.start.drop_down && !r@.timespan_input.end.drop_down && !r@.timespan_input.drop_down,
            r@ == entry_for(filter, options@),
    {
        let selected = match filter.id {
            Some(id) => if holds(&options, id) { Some(id) } else { None },
            None => None,
        };
        FilterEntry {
            timespan_input: date_span_input::State::new(filter.timespan),
            selected,
            options,
            filter,
        }
    }

    /// The filter being edited.
    pub fn get_filter(&self) -> (r: &Filter)
        ensures
            *r == self@.filter,
    {
        &self.filter
    }

    /// Applies what the user did.
    pub fn update(&mut self, message: EntryMessage) -> (r: EntryAction)
        requires
            entry_message_defined(old(self)@, message),
        ensures
            r == (if message is Delete { EntryAction::Delete } else { EntryAction::Nothing }),
            final(self)@ == entry_after(old(self)@, message),
    {
        match message {
            EntryMessage::Delete => return EntryAction::Delete,
            EntryMessage::Negate(new_value) => self.filter.negated = new_value,
            EntryMessage::Exclude(new_value) => self.filter.included = !new_value,
            EntryMessage::Specific(specific) => {
                if !specific || self.options.len() == 0 {
                    self.filter.id = None;
                } else {
                    self.filter.id = Some(self.options[0]);
                    self.selected = Some(self.options[0]);
                }
            },
            EntryMessage::CustomTimespan(new_value) => {
                self.filter.timespan = if new_value { Some(DateSpan { start: None, end: None }) } else { None };
            },
            EntryMessage::TimespanInput(action) => self.timespan_input.perform(action),
            EntryMessage::SpecificSelected(id) => {
                self.filter.id = Some(id);
                self.selected = Some(id);
            },
        }
        EntryAction::Nothing
    }
}

/// What the user can do with the filter editor.
pub enum InnerMessage {
    /// Submit the filter.
    Submit,
    /// An action on the default timespan input.
    ChangeDefaultTimespan(date_span_input::Action),
    /// Add an account filter (about the first account).
    NewAccountFilter,
    /// Add a bill filter (about the first bill).
    NewBillFilter,
    /// Add a category filter (about the first category).
    NewCategoryFilter,
    /// Add a budget filter (about the first budget).
    NewBudgetFilter,
    /// An action on the account filter at this index.
    AccountEntryMessage(usize, EntryMessage),
    /// An action on the bill filter at this index.
    BillEntryMessage(usize, EntryMessage),
    /// An action on the category filter at this index.
    CategoryEntryMessage(usize, EntryMessage),
    /// An action on the budget filter at this index.
    BudgetEntryMessage(usize, EntryMessage),
}

/// What the owner of the editor has to do after an action.
pub enum Action {
    /// Apply this filter.
    Submit(TransactionFilter),
    /// Nothing.
    Nothing,
}

/// The abstract state of the filter editor.
pub struct FilterComponentView {
    pub accounts: Seq<NamedId>,
    pub categories: Seq<NamedId>,
    pub bills: Seq<NamedId>,
    pub budgets: Seq<NamedId>,
    pub default_input: DateSpanView,
    pub account_entries: Seq<FilterEntryView>,
    pub category_entries: Seq<FilterEntryView>,
    pub bill_entries: Seq<FilterEntryView>,
    pub budget_entries: Seq<FilterEntryView>,
}

/// The views of a list of entries.
pub open spec fn entry_views(v: Seq<FilterEntry>) -> Seq<FilterEntryView> {
    Seq::new(v.len(), |i: int| v[i]@)
}

/// The ids of a list of named things.
pub open spec fn ids_of(v: Seq<NamedId>) -> Seq<u64> {
    Seq::new(v.len(), |i: int| v[i].id)
}

/// The filters of a list of entries.
pub open spec fn filters_of(v: Seq<FilterEntryView>) -> Seq<Filter> {
    Seq::new(v.len(), |i: int| v[i].filter)
}

/// The entries after an action on the one at `index`: it is updated, or
/// removed when the action deletes it.
pub open spec fn entries_after(v: Seq<FilterEntryView>, index: int, m: EntryMessage) -> Seq<FilterEntryView> {
    if m is Delete { v.remove(index) } else { v.update(index, entry_after(v[index], m)) }
}

/// The editor: the things that filters can be about, the default timespan
/// and the filters of each kind.
pub struct FilterComponent {
    accounts: Vec<NamedId>,
    categories: Vec<NamedId>,
    bills: Vec<NamedId>,
    budgets: Vec<NamedId>,
    default_transaction_input: date_span_input::State,
    account_filter_entries: Vec<FilterEntry>,
    category_filter_entries: Vec<FilterEntry>,
    bill_filter_entries: Vec<FilterEntry>,
    budget_filter_entries: Vec<FilterEntry>,
}

impl View for FilterComponent {
    type V = FilterComponentView;

    closed spec fn view(&self) -> FilterComponentView {
        FilterComponentView {
            accounts: self.accounts@,
            categories: self.categories@,
            bills: self.bills@,
            budgets: self.budgets@,
            default_input: self.default_transaction_input@,
            account_entries: entry_views(self.account_filter_entries@),
            category_entries: entry_views(self.category_filter_entries@),
            bill_entries: entry_views(self.bill_filter_entries@),
            budget_entries: entry_views(self.budget_filter_entries@),
        }
    }
}

/// The ids of named things, in order.
fn ids(v: &Vec<NamedId>) -> (r: Vec<u64>)
    ensures
        r@ == ids_of(v@),
{
    let mut r: Vec<u64> = Vec::new();
    let mut i: usize = 0;
    while i < v.len()
        invariant
            i <= v.len(),
            r@ == ids_of(v@.take(i as int)),
        decreases v.len() - i,
    {
        r.push(v[i].id);
        i = i + 1;
        assert(r@ =~= ids_of(v@.take(i as int)));
    }
    assert(v@.take(v.len() as int) =~= v@);
    r
}

/// Entries editing `filters`, each picking among `options`.
fn entries_for(filters: &Vec<Filter>, options: &Vec<u64>) -> (r: Vec<FilterEntry>)
    requires
        forall|i: int| 0 <= i < filters@.len() ==> filter_wf(#[trigger] filters@[i]),
    ensures
        r@.len() == filters@.len(),
        entry_views(r@) == entries_for_filters(filters@, options@),
{
    let mut r: Vec<FilterEntry> = Vec::new();
    let mut i: usize = 0;
    while i < filters.len()
        invariant
            i <= filters.len(),
            forall|j: int| 0 <= j < filters@.len() ==> filter_wf(#[trigger] filters@[j]),
            r@.len() == i,
            forall|j: int| 0 <= j < i ==> (#[trigger] r@[j])@ == entry_for(filters@[j], options@),
        decreases filters.len() - i,
    {
        let f = filters[i];
        r.push(FilterEntry::new(f, options.clone()));
        i = i + 1;
    }
    assert(entry_views(r@) =~= entries_for_filters(filters@, options@));
    r
}

/// The filters of entries, in order.
fn filters(v: &Vec<FilterEntry>) -> (r: Vec<Filter>)
    ensures
        r@ == filters_of(entry_views(v@)),
{
    let mut r: Vec<Filter> = Vec::new();
    let mut i: usize = 0;
    while i < v.len()
        invariant
            i <= v.len(),
            r@.len() == i,
            forall|j: int| 0 <= j < i ==> r@[j] == v@[j]@.filter,
        decreases v.len() - i,
    {
        r.push(*v[i].get_filter());
        i = i + 1;
    }
    assert(r@ =~= filters_of(entry_views(v@)));
    r
}

/// Applies an action to the entry at `index`.
fn update_entry(entries: &mut Vec<FilterEntry>, index: usize, m: EntryMessage)
    requires
        index < old(entries)@.len(),
        entry_message_defined(old(entries)@[index as int]@, m),
    ensures
        entry_views(final(entries)@) == entries_after(entry_views(old(entries)@), index as int, m),
{
    let ghost before = entries@;
    let mut entry = entries.remove(index);
    let deleted = entry.update(m);
    match deleted {
        EntryAction::Delete => {
            assert(entry_views(entries@) =~= entry_views(before).remove(index as int));
        },
        EntryAction::Nothing => {
            entries.insert(index, entry);
            assert(entry_views(entries@) =~= entry_views(before).update(index as int, entry_after(before[index as int]@, m)));
        },
    }
}

/// A new entry about the first of `options`, when there is one.
fn push_first(entries: &mut Vec<FilterEntry>, options: &Vec<NamedId>)
    ensures
        options@.len() == 0 ==> entry_views(final(entries)@) == entry_views(old(entries)@),
        options@.len() > 0 ==> entry_views(final(entries)@) == entry_views(old(entries)@).push(FilterEntryView {
            filter: Filter { negated: false, id: Some(options@[0].id), included: true, timespan: None },
            options: ids_of(options@),
            timespan_input: empty_span_input(),
            selected: Some(options@[0].id),
        }),
{
    if options.len() > 0 {
        let option_ids = ids(options);
        let filter = Filter { negated: false, id: Some(options[0].id), included: true, timespan: None };
        let ghost before = entry_views(entries@);
        let entry = FilterEntry::new(filter, option_ids);
        proof {
            assert(ids_of(options@)[0] == options@[0].id);
        }
        entries.push(entry);
        assert(entry_views(entries@) =~= before.push(entry@));
    } else {
        assert(entry_views(entries@) =~= entry_views(old(entries)@));
    }
}

/// True when the dates of every filter are valid.
pub open spec fn transaction_filter_wf(f: TransactionFilter) -> bool {
    &&& f.default_timespan.wf()
    &&& forall|i: int| 0 <= i < f.accounts@.len() ==> filter_wf(#[trigger] f.accounts@[i])
    &&& forall|i: int| 0 <= i < f.categories@.len() ==> filter_wf(#[trigger] f.categories@[i])
    &&& forall|i: int| 0 <= i < f.bills@.len() ==> filter_wf(#[trigger] f.bills@[i])
    &&& forall|i: int| 0 <= i < f.budgets@.len() ==> filter_wf(#[trigger] f.budgets@[i])
}

/// A date span input showing the span `t` (open ends empty), without
/// defaults and with its menus closed.
pub open spec fn span_input_for(t: Option<DateSpan>) -> DateSpanView {
    DateSpanView {
        start: DateInputView {
            value: match t {
                Some(DateSpan { start: Some(d), .. }) => crate::date_time::date_text(d),
                _ => Seq::<char>::empty(),
            },
            default_value: None,
            drop_down: false,
        },
        end: DateInputView {
            value: match t {
                Some(DateSpan { end: Some(d), .. }) => crate::date_time::date_text(d),
                _ => Seq::<char>::empty(),
            },
            default_value: None,
            drop_down: false,
        },
        drop_down: false,
    }
}

/// The entry that edits `f`, picking among `options`.
pub open spec fn entry_for(f: Filter, options: Seq<u64>) -> FilterEntryView {
    FilterEntryView {
        filter: f,
        options,
        timespan_input: span_input_for(f.timespan),
        selected: selected_option(options, f.id),
    }
}

/// One entry per filter of `fs`, in order, each picking among `options`.
pub open spec fn entries_for_filters(fs: Seq<Filter>, options: Seq<u64>) -> Seq<FilterEntryView> {
    Seq::new(fs.len(), |i: int| entry_for(fs[i], options))
}

/// The editor `old` once it edits `f`: the things to choose from stay, the
/// default timespan and the entries are made anew from `f`.
pub open spec fn filter_applied(old: FilterComponentView, f: TransactionFilter) -> FilterComponentView {
    FilterComponentView {
        default_input: span_input_for(Some(f.default_timespan)),
        account_entries: entries_for_filters(f.accounts@, ids_of(old.accounts)),
        category_entries: entries_for_filters(f.categories@, ids_of(old.categories)),
        bill_entries: entries_for_filters(f.bills@, ids_of(old.bills)),
        budget_entries: entries_for_filters(f.budgets@, ids_of(old.budgets)),
        ..old
    }
}

/// What [`FilterComponent::set_filter`] and [`FilterComponent::with_filter`]
/// do: `old` becomes `new`, editing `f`.
pub open spec fn filter_set(old: FilterComponentView, f: TransactionFilter, new: FilterComponentView) -> bool {
    new == filter_applied(old, f)
}

/// `with_filter` and `set_filter` give the same editor: an editor made by
/// `FilterComponent::new(..)` (or any editor, `v`) and then given the filter
/// `f` by [`FilterComponent::with_filter`] is, as every later update and read
/// sees it, the editor that `new(..)` followed by
/// [`FilterComponent::set_filter`] with `f` gives, since both contracts fix
/// the whole abstract state.
pub proof fn lemma_with_filter_is_set_filter(
    v: FilterComponentView,
    f: TransactionFilter,
    via_with: FilterComponentView,
    via_set: FilterComponentView,
)
    requires
        filter_set(v, f, via_with),
        filter_set(v, f, via_set),
    ensures
        via_with == via_set,
{
}

/// A filter that was set is the filter submitted: setting a filter and then
/// submitting gives it back, and submitting changes nothing.
pub proof fn lemma_set_then_submit(
    v0: FilterComponentView,
    f: TransactionFilter,
    v1: FilterComponentView,
    v2: FilterComponentView,
    r: Action,
)
    requires
        transaction_filter_wf(f),
        filter_set(v0, f, v1),
        update_post(v1, InnerMessage::Submit, v2, r),
    ensures
        v2 == v1,
        r matches Action::Submit(g) && {
            &&& g.default_timespan == f.default_timespan
            &&& g.accounts@ == f.accounts@
            &&& g.categories@ == f.categories@
            &&& g.bills@ == f.bills@
            &&& g.budgets@ == f.budgets@
        },
{
    if let Some(d) = f.default_timespan.start {
        crate::date_time::lemma_date_text_roundtrip(d);
    }
    if let Some(d) = f.default_timespan.end {
        crate::date_time::lemma_date_text_roundtrip(d);
    }
    assert(filters_of(v1.account_entries) =~= f.accounts@);
    assert(filters_of(v1.category_entries) =~= f.categories@);
    assert(filters_of(v1.bill_entries) =~= f.bills@);
    assert(filters_of(v1.budget_entries) =~= f.budgets@);
}

/// True when the editor can take `message`: an entry message names an
/// existing entry, and what it asks of that entry is defined.
pub open spec fn update_defined(v: FilterComponentView, message: InnerMessage) -> bool {
    match message {
        InnerMessage::ChangeDefaultTimespan(a) => date_span_input::action_defined(v.default_input, a),
        InnerMessage::AccountEntryMessage(i, m) => i < v.account_entries.len()
            && entry_message_defined(v.account_entries[i as int], m),
        InnerMessage::BillEntryMessage(i, m) => i < v.bill_entries.len()
            && entry_message_defined(v.bill_entries[i as int], m),
        InnerMessage::CategoryEntryMessage(i, m) => i < v.category_entries.len()
            && entry_message_defined(v.category_entries[i as int], m),
        InnerMessage::BudgetEntryMessage(i, m) => i < v.budget_entries.len()
            && entry_message_defined(v.budget_entries[i as int], m),
        _ => true,
    }
}

/// What [`FilterComponent::update`] does: `old` becomes `new` and `r` is
/// returned.
pub open spec fn update_post(old: FilterComponentView, message: InnerMessage, new: FilterComponentView, r: Action) -> bool {
    match message {
        InnerMessage::Submit => new == old && (r matches Action::Submit(f) && {
            &&& f.default_timespan == (DateSpan { start: input_date(old.default_input.start), end: input_date(old.default_input.end) })
            &&& f.accounts@ == filters_of(old.account_entries)
            &&& f.categories@ == filters_of(old.category_entries)
            &&& f.bills@ == filters_of(old.bill_entries)
            &&& f.budgets@ == filters_of(old.budget_entries)
        }),
        InnerMessage::ChangeDefaultTimespan(a) => r is Nothing && new == (FilterComponentView {
            default_input: date_span_input::after_action(old.default_input, a),
            ..old
        }),
        InnerMessage::NewAccountFilter => r is Nothing && new == (FilterComponentView {
            account_entries: new.account_entries,
            ..old
        }) && (old.accounts.len() == 0 ==> new.account_entries == old.account_entries)
           && (old.accounts.len() > 0 ==> new.account_entries == old.account_entries.push(FilterEntryView {
                filter: Filter { negated: false, id: Some(old.accounts[0].id), included: true, timespan: None },
                options: ids_of(old.accounts),
                timespan_input: empty_span_input(),
                selected: Some(old.accounts[0].id),
            })),
        InnerMessage::NewBillFilter => r is Nothing && new == (FilterComponentView {
            bill_entries: new.bill_entries,
            ..old
        }) && (old.bills.len() == 0 ==> new.bill_entries == old.bill_entries)
           && (old.bills.len() > 0 ==> new.bill_entries == old.bill_entries.push(FilterEntryView {
                filter: Filter { negated: false, id: Some(old.bills[0].id), included: true, timespan: None },
                options: ids_of(old.bills),
                timespan_input: empty_span_input(),
                selected: Some(old.bills[0].id),
            })),
        InnerMessage::NewCategoryFilter => r is Nothing && new == (FilterComponentView {
            category_entries: new.category_entries,
            ..old
        }) && (old.categories.len() == 0 ==> new.category_entries == old.category_entries)
           && (old.categories.len() > 0 ==> new.category_entries == old.category_entries.push(FilterEntryView {
                filter: Filter { negated: false, id: Some(old.categories[0].id), included: true, timespan: None },
                options: ids_of(old.categories),
                timespan_input: empty_span_input(),
                selected: Some(old.categories[0].id),
            })),
        InnerMessage::NewBudgetFilter => r is Nothing && new == (FilterComponentView {
            budget_entries: new.budget_entries,
            ..old
        }) && (old.budgets.len() == 0 ==> new.budget_entries == old.budget_entries)
           && (old.budgets.len() > 0 ==> new.budget_entries == old.budget_entries.push(FilterEntryView {
                filter: Filter { negated: false, id: Some(old.budgets[0].id), included: true, timespan: None },
                options: ids_of(old.budgets),
                timespan_input: empty_span_input(),
                selected: Some(old.budgets[0].id),
            })),
        InnerMessage::AccountEntryMessage(i, m) => r is Nothing && new == (FilterComponentView {
            account_entries: entries_after(old.account_entries, i as int, m),
            ..old
        }),
        InnerMessage::BillEntryMessage(i, m) => r is Nothing && new == (FilterComponentView {
            bill_entries: entries_after(old.bill_entries, i as int, m),
            ..old
        }),
        InnerMessage::CategoryEntryMessage(i, m) => r is Nothing && new == (FilterComponentView {
            category_entries: entries_after(old.category_entries, i as int, m),
            ..old
        }),
        InnerMessage::BudgetEntryMessage(i, m) => r is Nothing && new == (FilterComponentView {
            budget_entries: entries_after(old.budget_entries, i as int, m),
            ..old
        }),
    }
}

/// True when two filters are alike: the same default timespan and the same
/// filters of each kind.
pub open spec fn same_filter(a: TransactionFilter, b: TransactionFilter) -> bool {
    &&& a.default_timespan == b.default_timespan
    &&& a.accounts@ == b.accounts@
    &&& a.categories@ == b.categories@
    &&& a.bills@ == b.bills@
    &&& a.budgets@ == b.budgets@
}

/// The same filters, in the same order.
fn copy_filters(v: &Vec<Filter>) -> (r: Vec<Filter>)
    ensures
        r@ == v@,
{
    let mut r: Vec<Filter> = Vec::new();
    let mut i: usize = 0;
    while i < v.len()
        invariant
            i <= v.len(),
            r@ == v@.take(i as int),
        decreases v.len() - i,
    {
        r.push(v[i]);
        i = i + 1;
        assert(r@ =~= v@.take(i as int));
    }
    assert(v@.take(v.len() as int) =~= v@);
    r
}

/// A copy of a filter.
pub(crate) fn copy_transaction_filter(f: &TransactionFilter) -> (r: TransactionFilter)
    ensures
        same_filter(r, *f),
{
    TransactionFilter {
        default_timespan: f.default_timespan,
        accounts: copy_filters(&f.accounts),
        categories: copy_filters(&f.categories),
        bills: copy_filters(&f.bills),
        budgets: copy_filters(&f.budgets),
    }
}

/// True when the things the editor offers are each ordered by name, so that
/// a new entry is about the first of them by name.
pub open spec fn options_sorted(v: FilterComponentView) -> bool {
    &&& sorted_by_name(v.accounts)
    &&& sorted_by_name(v.categories)
    &&& sorted_by_name(v.bills)
    &&& sorted_by_name(v.budgets)
}

/// The editor keeps the things it offers ordered by name: no change of the
/// editor and no filter set on it touches them.
#[verifier::rlimit(60)]
pub proof fn lemma_options_stay_sorted(v: FilterComponentView, message: InnerMessage, w: FilterComponentView, r: Action, f: TransactionFilter, x: FilterComponentView)
    requires
        options_sorted(v),
    ensures
        update_post(v, message, w, r) ==> options_sorted(w),
        filter_set(v, f, x) ==> options_sorted(x),
{
    if update_post(v, message, w, r) {
        assert(w.accounts == v.accounts && w.categories == v.categories && w.bills == v.bills && w.budgets == v.budgets) by {
            match message {
                InnerMessage::Submit => {},
                InnerMessage::ChangeDefaultTimespan(_) => {},
                InnerMessage::NewAccountFilter => {},
                InnerMessage::NewBillFilter => {},
                InnerMessage::NewCategoryFilter => {},
                InnerMessage::NewBudgetFilter => {},
                InnerMessage::AccountEntryMessage(_, _) => {},
                InnerMessage::BillEntryMessage(_, _) => {},
                InnerMessage::CategoryEntryMessage(_, _) => {},
                InnerMessage::BudgetEntryMessage(_, _) => {},
            }
        }
    }
}

/// The entries of one kind: 0 accounts, 1 categories, 2 bills, 3 budgets.
pub open spec fn entries_of_kind(v: FilterComponentView, kind: int) -> Seq<FilterEntryView> {
    if kind == 0 { v.account_entries } else if kind == 1 { v.category_entries }
    else if kind == 2 { v.bill_entries } else { v.budget_entries }
}

/// The things of one kind that filters can be about (same numbering).
pub open spec fn options_of_kind(v: FilterComponentView, kind: int) -> Seq<NamedId> {
    if kind == 0 { v.accounts } else if kind == 1 { v.categories } else if kind == 2 { v.bills } else { v.budgets }
}

/// The kind of entry that a "new filter" message asks for.
pub open spec fn new_filter_kind(message: InnerMessage) -> Option<int> {
    match message {
        InnerMessage::NewAccountFilter => Some(0),
        InnerMessage::NewCategoryFilter => Some(1),
        InnerMessage::NewBillFilter => Some(2),
        InnerMessage::NewBudgetFilter => Some(3),
        _ => None,
    }
}

/// True when `new` is `old` with one more entry at its end: an included,
/// not negated filter without a timespan of its own, about the first of
/// `options` and picking among them.
pub open spec fn one_entry_added(old: Seq<FilterEntryView>, new: Seq<FilterEntryView>, options: Seq<NamedId>) -> bool {
    &&& new.len() == old.len() + 1
    &&& forall|i: int| 0 <= i < old.len() ==> new[i] == old[i]
    &&& new[old.len() as int].filter == (Filter { negated: false, id: Some(options[0].id), included: true, timespan: None })
    &&& new[old.len() as int].selected == Some(options[0].id)
    &&& new[old.len() as int].options == ids_of(options)
}

/// A new filter of a kind lands among the entries of that kind: the
/// entries of that kind grow by one entry about the first thing of that kind
/// (the first by name, since the editor keeps them ordered by name), or stay
/// when there is nothing of that kind; the entries of the other kinds, the
/// things offered and the default timespan stay as they were.
/// The first of things ordered by name has the least name.
proof fn lemma_first_is_least(s: Seq<NamedId>)
    requires
        sorted_by_name(s),
    ensures
        forall|j: int| 0 <= j < s.len() ==> !text_lt(#[trigger] s[j].name@, s[0].name@),
{
    assert forall|j: int| 0 <= j < s.len() implies !text_lt(#[trigger] s[j].name@, s[0].name@) by {
        if j == 0 {
            lemma_text_lt_irreflexive(s[0].name@);
        }
    }
}

#[verifier::rlimit(60)]
pub proof fn lemma_new_filter_lands_in_its_kind(
    old: FilterComponentView,
    message: InnerMessage,
    new: FilterComponentView,
    r: Action,
    kind: int,
)
    requires
        update_post(old, message, new, r),
        new_filter_kind(message) == Some(kind),
    ensures
        r is Nothing,
        new.default_input == old.default_input,
        forall|k: int| 0 <= k < 4 ==> options_of_kind(new, k) == options_of_kind(old, k),
        forall|k: int| 0 <= k < 4 && k != kind ==> entries_of_kind(new, k) == entries_of_kind(old, k),
        options_of_kind(old, kind).len() == 0 ==> entries_of_kind(new, kind) == entries_of_kind(old, kind),
        options_of_kind(old, kind).len() > 0 ==>
            one_entry_added(entries_of_kind(old, kind), entries_of_kind(new, kind), options_of_kind(old, kind)),
        options_sorted(old) ==> forall|j: int| 0 <= j < options_of_kind(old, kind).len() ==>
            !text_lt(#[trigger] options_of_kind(old, kind)[j].name@, options_of_kind(old, kind)[0].name@),
{
    if options_sorted(old) {
        lemma_first_is_least(options_of_kind(old, kind));
    }
    assert forall|k: int| 0 <= k < 4 implies options_of_kind(new, k) == options_of_kind(old, k) by {}
    assert forall|k: int| 0 <= k < 4 && k != kind implies entries_of_kind(new, k) == entries_of_kind(old, k) by {}
}

/// What each action on a filter entry does to its filter: negating sets
/// `negated`, excluding clears `included` (and not excluding sets it), a
/// custom timespan is an open span or none, picking an option makes the
/// filter about it, and "specific" makes it about the first option (or about
/// all when off or when there are no options). Typing into the timespan
/// input leaves the filter as it was; deleting leaves the entry as it was.
pub proof fn lemma_entry_actions(v: FilterEntryView, m: EntryMessage)
    ensures
        ({
            let w = entry_after(v, m);
            &&& w.options == v.options
            &&& m matches EntryMessage::Negate(b) ==> w.filter == (Filter { negated: b, ..v.filter })
            &&& m matches EntryMessage::Exclude(b) ==> w.filter == (Filter { included: !b, ..v.filter })
            &&& m matches EntryMessage::CustomTimespan(b) ==>
                w.filter == (Filter { timespan: if b { Some(DateSpan { start: None, end: None }) } else { None }, ..v.filter })
            &&& m matches EntryMessage::SpecificSelected(id) ==> w.filter.id == Some(id) && w.selected == Some(id)
            &&& m matches EntryMessage::Specific(b) ==>
                w.filter.id == (if b && v.options.len() > 0 { Some(v.options[0]) } else { None })
            &&& m matches EntryMessage::TimespanInput(_) ==> w.filter == v.filter
            &&& m is Delete ==> w == v
        }),
{
}

/// True when the filters of all entries have valid dates.
pub open spec fn entries_wf(v: FilterComponentView) -> bool {
    &&& forall|i: int| 0 <= i < v.account_entries.len() ==> filter_wf(#[trigger] v.account_entries[i].filter)
    &&& forall|i: int| 0 <= i < v.category_entries.len() ==> filter_wf(#[trigger] v.category_entries[i].filter)
    &&& forall|i: int| 0 <= i < v.bill_entries.len() ==> filter_wf(#[trigger] v.bill_entries[i].filter)
    &&& forall|i: int| 0 <= i < v.budget_entries.len() ==> filter_wf(#[trigger] v.budget_entries[i].filter)
}

/// An action on an entry keeps the dates of the entries valid.
proof fn lemma_entries_after_wf(v: Seq<FilterEntryView>, index: int, m: EntryMessage)
    requires
        0 <= index < v.len(),
        forall|i: int| 0 <= i < v.len() ==> filter_wf(#[trigger] v[i].filter),
    ensures
        forall|i: int| 0 <= i < entries_after(v, index, m).len() ==> filter_wf(#[trigger] entries_after(v, index, m)[i].filter),
{
    let w = entries_after(v, index, m);
    assert forall|i: int| 0 <= i < w.len() implies filter_wf(#[trigger] w[i].filter) by {
        if !(m is Delete) && i == index {
            assert(filter_wf(v[index].filter));
        } else if m is Delete && i >= index {
            assert(w[i] == v[i + 1]);
        }
    }
}

/// Every change of the editor keeps the dates of its entries valid, and a
/// filter it submits has valid dates when its entries do.
#[verifier::rlimit(60)]
pub proof fn lemma_update_keeps_entries_wf(old: FilterComponentView, message: InnerMessage, new: FilterComponentView, r: Action)
    requires
        entries_wf(old),
        update_defined(old, message),
        update_post(old, message, new, r),
    ensures
        entries_wf(new),
        r matches Action::Submit(f) ==> {
            &&& forall|i: int| 0 <= i < f.accounts@.len() ==> filter_wf(#[trigger] f.accounts@[i])
            &&& forall|i: int| 0 <= i < f.categories@.len() ==> filter_wf(#[trigger] f.categories@[i])
            &&& forall|i: int| 0 <= i < f.bills@.len() ==> filter_wf(#[trigger] f.bills@[i])
            &&& forall|i: int| 0 <= i < f.budgets@.len() ==> filter_wf(#[trigger] f.budgets@[i])
        },
{
    match message {
        InnerMessage::AccountEntryMessage(i, m) => lemma_entries_after_wf(old.account_entries, i as int, m),
        InnerMessage::BillEntryMessage(i, m) => lemma_entries_after_wf(old.bill_entries, i as int, m),
        InnerMessage::CategoryEntryMessage(i, m) => lemma_entries_after_wf(old.category_entries, i as int, m),
        InnerMessage::BudgetEntryMessage(i, m) => lemma_entries_after_wf(old.budget_entries, i as int, m),
        InnerMessage::Submit => {
            if let Action::Submit(f) = r {
                assert forall|i: int| 0 <= i < f.accounts@.len() implies filter_wf(#[trigger] f.accounts@[i]) by {
                    assert(f.accounts@[i] == old.account_entries[i].filter);
                }
                assert forall|i: int| 0 <= i < f.categories@.len() implies filter_wf(#[trigger] f.categories@[i]) by {
                    assert(f.categories@[i] == old.category_entries[i].filter);
                }
                assert forall|i: int| 0 <= i < f.bills@.len() implies filter_wf(#[trigger] f.bills@[i]) by {
                    assert(f.bills@[i] == old.bill_entries[i].filter);
                }
                assert forall|i: int| 0 <= i < f.budgets@.len() implies filter_wf(#[trigger] f.budgets@[i]) by {
                    assert(f.budgets@[i] == old.budget_entries[i].filter);
                }
            }
        },
        _ => {
            assert forall|i: int| 0 <= i < new.account_entries.len() implies filter_wf(#[trigger] new.account_entries[i].filter) by {
                if i < old.account_entries.len() { assert(new.account_entries[i] == old.account_entries[i]); }
            }
            assert forall|i: int| 0 <= i < new.category_entries.len() implies filter_wf(#[trigger] new.category_entries[i].filter) by {
                if i < old.category_entries.len() { assert(new.category_entries[i] == old.category_entries[i]); }
            }
            assert forall|i: int| 0 <= i < new.bill_entries.len() implies filter_wf(#[trigger] new.bill_entries[i].filter) by {
                if i < old.bill_entries.len() { assert(new.bill_entries[i] == old.bill_entries[i]); }
            }
            assert forall|i: int| 0 <= i < new.budget_entries.len() implies filter_wf(#[trigger] new.budget_entries[i].filter) by {
                if i < old.budget_entries.len() { assert(new.budget_entries[i] == old.budget_entries[i]); }
            }
        },
    }
}

/// Setting a filter with valid dates gives entries with valid dates.
pub proof fn lemma_set_filter_entries_wf(old: FilterComponentView, f: TransactionFilter, new: FilterComponentView)
    requires
        transaction_filter_wf(f),
        filter_set(old, f, new),
    ensures
        entries_wf(new),
{
    assert forall|i: int| 0 <= i < new.account_entries.len() implies filter_wf(#[trigger] new.account_entries[i].filter) by {
        assert(new.account_entries[i].filter == f.accounts@[i]);
    }
    assert forall|i: int| 0 <= i < new.category_entries.len() implies filter_wf(#[trigger] new.category_entries[i].filter) by {
        assert(new.category_entries[i].filter == f.categories@[i]);
    }
    assert forall|i: int| 0 <= i < new.bill_entries.len() implies filter_wf(#[trigger] new.bill_entries[i].filter) by {
        assert(new.bill_entries[i].filter == f.bills@[i]);
    }
    assert forall|i: int| 0 <= i < new.budget_entries.len() implies filter_wf(#[trigger] new.budget_entries[i].filter) by {
        assert(new.budget_entries[i].filter == f.budgets@[i]);
    }
}

impl FilterComponent {
    /// An editor offering these things, each kind ordered by name, with no
    /// filters and an empty default timespan.
    pub fn new(accounts: Vec<NamedId>, categories: Vec<NamedId>, bills: Vec<NamedId>, budgets: Vec<NamedId>) -> (r: Self)
        ensures
            ordered_by_name(r@.accounts, accounts@),
            ordered_by_name(r@.categories, categories@),
            ordered_by_name(r@.bills, bills@),
            ordered_by_name(r@.budgets, budgets@),
            r@.default_input == empty_span_input(),
            options_sorted(r@),
            r@.account_entries.len() == 0 && r@.category_entries.len() == 0,
            r@.bill_entries.len() == 0 && r@.budget_entries.len() == 0,
    {
        let r = FilterComponent {
            accounts: sort_by_name(accounts),
            categories: sort_by_name(categories),
            bills: sort_by_name(bills),
            budgets: sort_by_name(budgets),
            default_transaction_input: date_span_input::State::default(),
            account_filter_entries: Vec::new(),
            category_filter_entries: Vec::new(),
            bill_filter_entries: Vec::new(),
            budget_filter_entries: Vec::new(),
        };
        assert(entry_views(r.account_filter_entries@) =~= Seq::<FilterEntryView>::empty());
        assert(r@.default_input == empty_span_input());
        r
    }

    /// Edits `new_filter`: its default timespan and one entry per filter.
    pub fn set_filter(&mut self, new_filter: TransactionFilter)
        requires
            transaction_filter_wf(new_filter),
        ensures
            filter_set(old(self)@, new_filter, final(self)@),
    {
        self.default_transaction_input = date_span_input::State::new(Some(new_filter.default_timespan));
        let account_ids = ids(&self.accounts);
        self.account_filter_entries = entries_for(&new_filter.accounts, &account_ids);
        let category_ids = ids(&self.categories);
        self.category_filter_entries = entries_for(&new_filter.categories, &category_ids);
        let bill_ids = ids(&self.bills);
        self.bill_filter_entries = entries_for(&new_filter.bills, &bill_ids);
        let budget_ids = ids(&self.budgets);
        self.budget_filter_entries = entries_for(&new_filter.budgets, &budget_ids);
        assert(self@.default_input == span_input_for(Some(new_filter.default_timespan)));
    }

    /// The same editor, editing `new_filter`.
    pub fn with_filter(self, new_filter: TransactionFilter) -> (r: Self)
        requires
            transaction_filter_wf(new_filter),
        ensures
            filter_set(self@, new_filter, r@),
    {
        let mut s = self;
        s.set_filter(new_filter);
        s
    }

    /// The filter that the editor holds now.
    pub fn current_filter(&self) -> (r: TransactionFilter)
        ensures
            r.default_timespan == (DateSpan { start: input_date(self@.default_input.start), end: input_date(self@.default_input.end) }),
            r.accounts@ == filters_of(self@.account_entries),
            r.categories@ == filters_of(self@.category_entries),
            r.bills@ == filters_of(self@.bill_entries),
            r.budgets@ == filters_of(self@.budget_entries),
            r.default_timespan.wf(),
    {
        TransactionFilter {
            default_timespan: self.default_transaction_input.timespan(),
            bills: filters(&self.bill_filter_entries),
            accounts: filters(&self.account_filter_entries),
            categories: filters(&self.category_filter_entries),
            budgets: filters(&self.budget_filter_entries),
        }
    }

    /// Applies what the user did, and says what the owner has to do.
    pub fn update(&mut self, message: InnerMessage) -> (r: Action)
        requires
            update_defined(old(self)@, message),
        ensures
            update_post(old(self)@, message, final(self)@, r),
            r matches Action::Submit(f) ==> f.default_timespan.wf(),
            options_sorted(old(self)@) ==> options_sorted(final(self)@),
    {
        match message {
            InnerMessage::Submit => {
                return Action::Submit(self.current_filter());
            },
            InnerMessage::ChangeDefaultTimespan(action) => {
                self.default_transaction_input.perform(action);
            },
            InnerMessage::NewAccountFilter => {
                push_first(&mut self.account_filter_entries, &self.accounts);
            },
            InnerMessage::NewBillFilter => {
                push_first(&mut self.bill_filter_entries, &self.bills);
            },
            InnerMessage::NewCategoryFilter => {
                push_first(&mut self.category_filter_entries, &self.categories);
            },
            InnerMessage::NewBudgetFilter => {
                push_first(&mut self.budget_filter_entries, &self.budgets);
            },
            InnerMessage::AccountEntryMessage(index, m) => {
                update_entry(&mut self.account_filter_entries, index, m);
            },
            InnerMessage::BillEntryMessage(index, m) => {
                update_entry(&mut self.bill_filter_entries, index, m);
            },
            InnerMessage::BudgetEntryMessage(index, m) => {
                update_entry(&mut self.budget_filter_entries, index, m);
            },
            InnerMessage::CategoryEntryMessage(index, m) => {
                update_entry(&mut self.category_filter_entries, index, m);
            },
        }
        Action::Nothing
    }

    /// The account filter entries.
    pub fn account_entries(&self) -> (r: &Vec<FilterEntry>)
        ensures
            entry_views(r@) == self@.account_entries,
    {
        &self.account_filter_entries
    }
}

} // verus!
