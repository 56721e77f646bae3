use finance_manager::date_time::{Date, DateSpan};
use finance_manager::filter::{
    Action, EntryAction, EntryMessage, Filter, FilterComponent, FilterEntry, InnerMessage, TransactionFilter,
};
use finance_manager::inputs::date_input::Action as DateAction;
use finance_manager::inputs::date_span_input::Action as SpanAction;
use finance_manager::named::{sort_by_name, str_lt, NamedId};

fn named(id: u64, name: &str) -> NamedId {
    NamedId { id, name: name.to_string() }
}

fn submit(component: &mut FilterComponent) -> TransactionFilter {
    match component.update(InnerMessage::Submit) {
        Action::Submit(f) => f,
        Action::Nothing => panic!("a submit gives the filter"),
    }
}

#[test]
fn names_are_ordered_like_strings() {
    assert!(str_lt("Apple", "apple"));
    assert!(str_lt("ab", "abc"));
    assert!(!str_lt("abc", "abc"));
    assert!(!str_lt("b", "a"));
    let sorted = sort_by_name(vec![named(1, "Rent"), named(2, "Food"), named(3, "Car"), named(4, "Food")]);
    let ids: Vec<u64> = sorted.iter().map(|n| n.id).collect();
    assert_eq!(ids, vec![3, 2, 4, 1]);
}

#[test]
fn a_new_editor_submits_an_empty_filter() {
    let mut component = FilterComponent::new(vec![named(1, "b"), named(2, "a")], vec![], vec![], vec![]);
    let f = submit(&mut component);
    assert_eq!(f.default_timespan, DateSpan { start: None, end: None });
    assert!(f.accounts.is_empty() && f.categories.is_empty() && f.bills.is_empty() && f.budgets.is_empty());
}

#[test]
fn new_filters_are_about_the_first_thing_by_name() {
    let mut component = FilterComponent::new(vec![named(1, "b"), named(2, "a")], vec![], vec![named(9, "x")], vec![]);
    assert!(matches!(component.update(InnerMessage::NewAccountFilter), Action::Nothing));
    assert!(matches!(component.update(InnerMessage::NewCategoryFilter), Action::Nothing));
    assert!(matches!(component.update(InnerMessage::NewBillFilter), Action::Nothing));
    let f = submit(&mut component);
    assert_eq!(f.accounts.len(), 1);
    assert_eq!(f.accounts[0].id, Some(2));
    assert!(!f.accounts[0].negated && f.accounts[0].included && f.accounts[0].timespan.is_none());
    assert!(f.categories.is_empty());
    assert_eq!(f.bills[0].id, Some(9));
}

#[test]
fn editing_and_deleting_entries() {
    let mut component = FilterComponent::new(vec![named(1, "a"), named(2, "b")], vec![], vec![], vec![]);
    component.update(InnerMessage::NewAccountFilter);
    component.update(InnerMessage::NewAccountFilter);
    component.update(InnerMessage::AccountEntryMessage(0, EntryMessage::Negate(true)));
    component.update(InnerMessage::AccountEntryMessage(1, EntryMessage::SpecificSelected(2)));
    component.update(InnerMessage::AccountEntryMessage(1, EntryMessage::Exclude(true)));
    let f = submit(&mut component);
    assert!(f.accounts[0].negated);
    assert_eq!(f.accounts[1].id, Some(2));
    assert!(!f.accounts[1].included);
    component.update(InnerMessage::AccountEntryMessage(0, EntryMessage::Delete));
    let f = submit(&mut component);
    assert_eq!(f.accounts.len(), 1);
    assert_eq!(f.accounts[0].id, Some(2));
    assert_eq!(component.account_entries().len(), 1);
}

#[test]
fn default_timespan_is_edited() {
    let mut component = FilterComponent::new(vec![], vec![], vec![], vec![]);
    component.update(InnerMessage::ChangeDefaultTimespan(SpanAction::ChangeStart(DateAction::InputChanged(
        "01.01.2024".to_string(),
    ))));
    let f = submit(&mut component);
    assert_eq!(f.default_timespan, DateSpan { start: Some(Date { year: 2024, month: 1, day: 1 }), end: None });
}

#[test]
fn a_set_filter_is_submitted_again() {
    let start = Date { year: 2023, month: 5, day: 1 };
    let given = TransactionFilter {
        default_timespan: DateSpan { start: Some(start), end: None },
        accounts: vec![Filter { negated: true, id: Some(7), included: false, timespan: None }],
        categories: vec![Filter { negated: false, id: None, included: true, timespan: Some(DateSpan { start: None, end: Some(start) }) }],
        bills: vec![],
        budgets: vec![Filter { negated: false, id: Some(3), included: true, timespan: None }],
    };
    let mut component = FilterComponent::new(vec![named(7, "a")], vec![], vec![], vec![]).with_filter(given.clone());
    let f = submit(&mut component);
    assert_eq!(f.default_timespan, given.default_timespan);
    assert_eq!(f.accounts[0].id, Some(7));
    assert!(f.accounts[0].negated && !f.accounts[0].included);
    assert_eq!(f.categories[0].timespan, Some(DateSpan { start: None, end: Some(start) }));
    assert_eq!(f.budgets[0].id, Some(3));
    let current = component.current_filter();
    assert_eq!(current.accounts.len(), 1);
    component.set_filter(TransactionFilter { default_timespan: DateSpan { start: None, end: None }, accounts: vec![], categories: vec![], bills: vec![], budgets: vec![] });
    assert!(submit(&mut component).accounts.is_empty());
}

#[test]
fn filter_entries() {
    let mut entry = FilterEntry::new(Filter { negated: false, id: Some(5), included: true, timespan: None }, vec![4, 5]);
    assert_eq!(entry.update(EntryMessage::Specific(false)), EntryAction::Nothing);
    assert_eq!(entry.get_filter().id, None);
    entry.update(EntryMessage::Specific(true));
    assert_eq!(entry.get_filter().id, Some(4));
    entry.update(EntryMessage::CustomTimespan(true));
    assert_eq!(entry.get_filter().timespan, Some(DateSpan { start: None, end: None }));
    entry.update(EntryMessage::CustomTimespan(false));
    assert_eq!(entry.get_filter().timespan, None);
    assert_eq!(entry.update(EntryMessage::Delete), EntryAction::Delete);
    let mut no_options = FilterEntry::new(Filter { negated: false, id: None, included: true, timespan: None }, vec![]);
    no_options.update(EntryMessage::Specific(true));
    assert_eq!(no_options.get_filter().id, None);
}
