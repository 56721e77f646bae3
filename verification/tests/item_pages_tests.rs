use std::cmp::Ordering;

use finance_manager::filter::{Action as FilterAction, FilterComponent, InnerMessage};
use finance_manager::item_pages::{
    BillInit, BillMessage, BillPage, BillPageAction, BudgetAction, BudgetInit, BudgetMessage, BudgetPage,
    CategoryAction, CategoryInit, CategoryMessage, CategoryPage, FilterTransactions, FilterTransactionsAction,
    FilterTransactionsMessage,
};
use finance_manager::named::NamedId;
use finance_manager::navigation::{after_bill_page, after_budget_page, after_category_page, Route};
use finance_manager::ordered::sort_order;
use finance_manager::overview::Message as OverviewMessage;
use finance_manager::page_dispatch::{view_update, Page, PageAction, PageMessage};
use finance_manager::table::State;
use finance_manager::navigation::OverviewLink;
use finance_manager::overview::{Action as OverviewAction, Overview};
use finance_manager::panes::Panes;
use finance_manager::settings::{apply_settings, ApplyAction, SelectedFinanceManager, Settings};

use finance_manager::validation_text_input::ValidationTextInput;

fn named(id: u64, name: &str) -> NamedId {
    NamedId { id, name: name.to_string() }
}

#[test]
fn new_filter_editor_submits_an_open_timespan() {
    let mut component = FilterComponent::new(vec![], vec![], vec![], vec![]);
    assert!(matches!(component.update(InnerMessage::NewAccountFilter), FilterAction::Nothing));
    assert!(component.account_entries().is_empty());
    match component.update(InnerMessage::Submit) {
        FilterAction::Submit(f) => {
            assert_eq!(f.default_timespan.start, None);
            assert_eq!(f.default_timespan.end, None);
            assert!(f.accounts.is_empty() && f.categories.is_empty() && f.bills.is_empty() && f.budgets.is_empty());
        }
        FilterAction::Nothing => panic!("a submit gives the filter"),
    }
}

#[test]
fn own_validation_rule_is_kept() {
    let v = ValidationTextInput::new("abc".to_string());
    let mut r = v.validation_with(|c: &String| if c.len() > 2 { Some("too long".to_string()) } else { None });
    assert_eq!(r.value(), "abc");
    assert_eq!(r.error_message(), Some(&"too long".to_string()));
    assert!(!r.is_valid());
    r.edit_content("ab".to_string());
    assert!(r.is_valid());
    assert!(r.was_edited());
    let mut r = r.required(true);
    r.set_content(String::new());
    assert_eq!(r.error_message(), Some(&"required input is empty".to_string()));
}

fn by_number(a: &(u32, &str), b: &(u32, &str), column: usize) -> Ordering {
    if column == 0 {
        if a.0 < b.0 {
            Ordering::Less
        } else if a.0 > b.0 {
            Ordering::Greater
        } else {
            Ordering::Equal
        }
    } else {
        Ordering::Equal
    }
}

#[test]
fn comparator_sort_is_stable() {
    let items = vec![(3, "a"), (1, "b"), (3, "c"), (2, "d"), (1, "e")];
    assert_eq!(sort_order(&items, 0, false, &by_number), vec![1, 4, 3, 0, 2]);
    assert_eq!(sort_order(&items, 0, true, &by_number), vec![0, 2, 3, 1, 4]);
    // a column the comparator finds all equal keeps the order
    assert_eq!(sort_order(&items, 1, false, &by_number), vec![0, 1, 2, 3, 4]);
    let mut table = State::new(items, ()).sort_by();
    table.sort_with(0, false, &by_number);
    let names: Vec<&str> = table.items().iter().map(|x| x.1).collect();
    assert_eq!(names, vec!["b", "e", "d", "a", "c"]);
    assert_eq!(table.sort_state(), (Some(0), false));
}

#[test]
fn budget_page_moves_periods_and_deletes() {
    let mut page: BudgetPage<()> = BudgetPage::fetch();
    assert!(matches!(page.update(BudgetMessage::Edit), BudgetAction::Nothing));
    assert!(matches!(page.update(BudgetMessage::IncreaseOffset), BudgetAction::Nothing));
    page.update(BudgetMessage::Initialize(BudgetInit {
        id: 7,
        name: "Food".to_string(),
        offset: -2,
        transaction_ids: vec![4, 5],
        details: (),
    }));
    assert!(matches!(page.update(BudgetMessage::Edit), BudgetAction::Edit(7)));
    assert!(matches!(page.update(BudgetMessage::IncreaseOffset), BudgetAction::Fetch { id: 7, offset: -1 }));
    assert!(matches!(page.update(BudgetMessage::DecreaseOffset), BudgetAction::Fetch { id: 7, offset: -3 }));
    match page.update(BudgetMessage::Delete) {
        BudgetAction::ConfirmDelete(name) => assert_eq!(name, "Food"),
        _ => panic!("no question was asked"),
    }
    assert!(matches!(page.update(BudgetMessage::DeleteConfirmed(false)), BudgetAction::Nothing));
    assert!(matches!(page.update(BudgetMessage::DeleteConfirmed(true)), BudgetAction::Delete(7)));
    match page.update(BudgetMessage::CategoryDistribution) {
        BudgetAction::ShowCategoryDistribution { transaction_ids, description } => {
            assert_eq!(transaction_ids, vec![4, 5]);
            assert_eq!(description, "Category Distribution for budget Food");
        }
        _ => panic!("no distribution"),
    }
    assert!(matches!(page.update(BudgetMessage::Deleted), BudgetAction::DeletedBudget));
    assert!(matches!(page, BudgetPage::NotLoaded));
}

#[test]
fn category_page_keeps_its_span() {
    let mut page: CategoryPage<u8> = CategoryPage::fetch();
    page.update(CategoryMessage::Reload(Some(CategoryInit { id: 1, name: "Car".to_string(), details: 0 })));
    assert!(matches!(page, CategoryPage::NotLoaded));
    page.update(CategoryMessage::SetCategory(CategoryInit { id: 2, name: "Rent".to_string(), details: 1 }));
    assert!(matches!(page.update(CategoryMessage::Edit), CategoryAction::Edit(2)));
    match page.update(CategoryMessage::ChangedTimespan(
        finance_manager::inputs::date_span_input::Action::ToggleDropdown,
    )) {
        CategoryAction::Fetch { id, timespan } => {
            assert_eq!(id, 2);
            assert_eq!(timespan.start, None);
            assert_eq!(timespan.end, None);
        }
        _ => panic!("no fetch"),
    }
    page.update(CategoryMessage::SetCategory(CategoryInit { id: 2, name: "Rent".to_string(), details: 2 }));
    match &page {
        CategoryPage::Loaded { timespan_input, category } => {
            assert_eq!(category.details, 2);
            assert!(timespan_input.start().raw_input().is_empty());
        }
        CategoryPage::NotLoaded => panic!("not shown"),
    }
    page.update(CategoryMessage::Reload(None));
    assert!(matches!(page, CategoryPage::NotLoaded));
}

#[test]
fn bill_page_links_rows_and_deletes() {
    let mut page: BillPage<u32, ()> = BillPage::fetch();
    page.update(BillMessage::Initialize(
        BillInit { id: 3, name: "Phone".to_string(), transaction_ids: vec![9], details: () },
        vec![10, 20],
    ));
    assert!(matches!(
        page.update(BillMessage::TransactionTable(OverviewMessage::Navigate(9))),
        BillPageAction::ViewTransaction(9)
    ));
    assert!(matches!(page.update(BillMessage::Delete), BillPageAction::ConfirmDelete));
    assert!(matches!(page.update(BillMessage::DeleteConfirmed(true)), BillPageAction::Delete(3)));
    match page.update(BillMessage::CategoryDistribution) {
        BillPageAction::ShowCategoryDistribution { transaction_ids, description } => {
            assert_eq!(transaction_ids, vec![9]);
            assert_eq!(description, "Category distribution for Category \"Phone\"");
        }
        _ => panic!("no distribution"),
    }
    assert!(matches!(page.update(BillMessage::Deleted), BillPageAction::Deleted));
}

#[test]
fn filter_transactions_page_applies_the_edited_filter() {
    let mut page = FilterTransactions::new();
    page.update(FilterTransactionsMessage::Initialize {
        accounts: vec![named(2, "Bank"), named(1, "Cash")],
        categories: vec![],
        bills: vec![],
        budgets: vec![],
    });
    assert!(matches!(page.update(FilterTransactionsMessage::ToggleEditFilter), FilterTransactionsAction::Nothing));
    assert!(page.filter_editor().is_some());
    page.update(FilterTransactionsMessage::FilterComponent(InnerMessage::NewAccountFilter));
    match page.update(FilterTransactionsMessage::FilterComponent(InnerMessage::Submit)) {
        FilterTransactionsAction::FetchFiltered(f) => {
            assert_eq!(f.accounts.len(), 1);
            assert_eq!(f.accounts[0].id, Some(2));
        }
        _ => panic!("no fetch"),
    }
    assert!(page.filter_editor().is_none());
    // the editor opens again on the filter applied
    page.update(FilterTransactionsMessage::ToggleEditFilter);
    let editor = page.filter_editor().as_ref().unwrap();
    assert_eq!(editor.account_entries().len(), 1);
}

#[test]
fn message_for_another_page_is_dropped() {
    let mut view: Page<u8, u8, (), (), u8, u8, u8> = Page::Budget(BudgetPage::fetch());
    let r = view_update(&mut view, PageMessage::Category(CategoryMessage::Edit), 0);
    assert!(matches!(r, PageAction::NotHandled));
    assert!(matches!(view, Page::Budget(BudgetPage::NotLoaded)));
    let r = view_update(
        &mut view,
        PageMessage::Budget(BudgetMessage::Initialize(BudgetInit {
            id: 1,
            name: "x".to_string(),
            offset: 0,
            transaction_ids: vec![],
            details: (),
        })),
        0,
    );
    assert!(matches!(r, PageAction::Budget(BudgetAction::Nothing)));
    assert!(matches!(
        view_update(&mut view, PageMessage::Budget(BudgetMessage::Edit), 0),
        PageAction::Budget(BudgetAction::Edit(1))
    ));
}

#[test]
fn routes_after_item_pages() {
    assert!(matches!(after_budget_page::<()>(&BudgetAction::Edit(4)), Some(Route::EditBudget(4))));
    assert!(matches!(after_budget_page::<()>(&BudgetAction::DeletedBudget), Some(Route::BudgetOverview)));
    assert!(matches!(after_category_page::<()>(&CategoryAction::Delete(2)), Some(Route::CategoryOverview)));
    assert!(matches!(after_bill_page::<()>(&BillPageAction::Edit(5)), Some(Route::CreateBill(Some(5)))));
    assert!(after_bill_page::<()>(&BillPageAction::ConfirmDelete).is_none());
}

#[test]
fn overview_message_reaches_the_overview_shown() {
    let mut view: Page<u8, u8, (), (), u32, u8, u8> = Page::CategoryOverview(Overview::new(vec![1, 2], vec![0]));
    let r = view_update(&mut view, PageMessage::CategoryOverview(OverviewMessage::Navigate(OverviewLink::View(2))), 0);
    assert!(matches!(r, PageAction::CategoryOverview(OverviewAction::Navigate(OverviewLink::View(2)))));
    let r = view_update(&mut view, PageMessage::AssetAccounts(OverviewMessage::Navigate(OverviewLink::New)), 0);
    assert!(matches!(r, PageAction::NotHandled));
}

#[test]
fn panes_keep_one_and_the_focus() {
    let mut panes = Panes::new(1);
    assert!(!panes.close(1));
    panes.split(2);
    panes.split(3);
    panes.click(3);
    assert!(panes.close(3));
    assert_eq!(panes.focused(), 1);
    assert_eq!(panes.panes(), &vec![1, 2]);
    panes.click(2);
    assert!(panes.close(1));
    assert_eq!(panes.focused(), 2);
    assert!(!panes.close(2));
    assert!(!panes.close(9));
    panes.split(4);
    panes.click(4);
    panes.dragged();
    assert_eq!(panes.focused(), 2);
}

#[test]
fn failed_sqlite_keeps_the_settings() {
    let current = Settings::default_with_offset(Some(3600));
    let mut new = Settings::default_with_offset(Some(0));
    new.finance_manager.selected_finance_manager = SelectedFinanceManager::SQLite;
    new.finance_manager.sqlite_path = "/nowhere/db".to_string();
    let (kept, action) = apply_settings(current.clone(), new.clone(), false);
    assert!(matches!(action, ApplyAction::RejectSqlitePath));
    assert_eq!(kept.utc_seconds_offset, 3600);
    let (applied, action) = apply_settings(current, new, true);
    assert!(matches!(action, ApplyAction::Store));
    assert_eq!(applied.finance_manager.sqlite_path, "/nowhere/db");
}
