//! Where the application goes when a page is done: a form that saved or was
//! cancelled, a link that was followed, an item that was deleted. The owner
//! of the pages first does what the page asked (saving, deleting), then opens
//! the page that these functions name.
use vstd::prelude::*;
use crate::add_transaction::Identified;
use crate::create_asset_account;
use crate::create_bill;
use crate::create_book_checking_account;
use crate::create_budget;
use crate::create_category;
use crate::create_transaction;
use crate::overview::BillAction;
use crate::sidebar;
use crate::item_pages::{BudgetAction, CategoryAction, BillPageAction, FilterTransactionsAction};
use crate::transaction_view;

verus! {

/// A page to open; `T` is a transaction.
pub enum Route<T> {
    Account(u64),
    AssetAccountOverview,
    BookCheckingAccountOverview,
    /// An empty form for a new asset account.
    NewAssetAccount,
    /// An empty form for a new book-checking account.
    NewBookCheckingAccount,
    Budget(u64),
    BudgetOverview,
    /// An empty form for a new budget.
    NewBudget,
    /// The budget form, filled with the budget with this id.
    EditBudget(u64),
    Category(u64),
    CategoryOverview,
    /// An empty form for a new category.
    NewCategory,
    /// The category form, filled with the category with this id.
    EditCategory(u64),
    Transaction(u64),
    /// The list of transactions with its filter.
    TransactionFilter,
    /// The transaction form, filled with the transaction with this id.
    EditTransaction(u64),
    Bill(u64),
    BillOverview,
    /// The bill form, for the bill with this id or a new one.
    CreateBill(Option<u64>),
    /// The bill form for a new bill with this transaction in it.
    NewBillWithTransaction(Identified<T>),
    /// An empty form for a new transaction.
    NewTransaction,
    /// The settings page, filled with the settings in force.
    Settings,
    License,
}

/// The overview pages that list items and offer a form for a new one.
#[derive(Debug, Clone, Copy, PartialEq, Eq, Structural)]
pub enum OverviewKind {
    AssetAccounts,
    BookCheckingAccounts,
    Budgets,
    Categories,
}

/// Where a link or button of such an overview leads.
#[derive(Debug, Clone, Copy, PartialEq, Eq, Structural)]
pub enum OverviewLink {
    /// The item with this id.
    View(u64),
    /// The form for a new item.
    New,
}

/// The page after a link of an overview of kind `kind`.
pub open spec fn overview_route<T>(kind: OverviewKind, link: OverviewLink) -> Route<T> {
    match (kind, link) {
        (OverviewKind::AssetAccounts, OverviewLink::View(id)) => Route::Account(id),
        (OverviewKind::AssetAccounts, OverviewLink::New) => Route::NewAssetAccount,
        (OverviewKind::BookCheckingAccounts, OverviewLink::View(id)) => Route::Account(id),
        (OverviewKind::BookCheckingAccounts, OverviewLink::New) => Route::NewBookCheckingAccount,
        (OverviewKind::Budgets, OverviewLink::View(id)) => Route::Budget(id),
        (OverviewKind::Budgets, OverviewLink::New) => Route::NewBudget,
        (OverviewKind::Categories, OverviewLink::View(id)) => Route::Category(id),
        (OverviewKind::Categories, OverviewLink::New) => Route::NewCategory,
    }
}

/// The page after a link of an overview: the item it names, or the form for
/// a new one.
pub fn after_overview<T>(kind: OverviewKind, link: OverviewLink) -> (r: Route<T>)
    ensures
        r == overview_route::<T>(kind, link),
{
    match (kind, link) {
        (OverviewKind::AssetAccounts, OverviewLink::View(id)) => Route::Account(id),
        (OverviewKind::AssetAccounts, OverviewLink::New) => Route::NewAssetAccount,
        (OverviewKind::BookCheckingAccounts, OverviewLink::View(id)) => Route::Account(id),
        (OverviewKind::BookCheckingAccounts, OverviewLink::New) => Route::NewBookCheckingAccount,
        (OverviewKind::Budgets, OverviewLink::View(id)) => Route::Budget(id),
        (OverviewKind::Budgets, OverviewLink::New) => Route::NewBudget,
        (OverviewKind::Categories, OverviewLink::View(id)) => Route::Category(id),
        (OverviewKind::Categories, OverviewLink::New) => Route::NewCategory,
    }
}

/// The page after the asset account form: the account saved or whose edit
/// was cancelled, or the overview when a new one was cancelled. None while
/// the form stays.
pub fn after_asset_account_form<T>(action: &create_asset_account::Action) -> (r: Option<Route<T>>)
    ensures
        r == match *action {
            create_asset_account::Action::AssetAccountCreated(id) => Some(Route::<T>::Account(id)),
            create_asset_account::Action::CancelWithId(id) => Some(Route::<T>::Account(id)),
            create_asset_account::Action::Cancel => Some(Route::<T>::AssetAccountOverview),
            _ => None,
        },
{
    match action {
        create_asset_account::Action::AssetAccountCreated(id) => Some(Route::Account(*id)),
        create_asset_account::Action::CancelWithId(id) => Some(Route::Account(*id)),
        create_asset_account::Action::Cancel => Some(Route::AssetAccountOverview),
        _ => None,
    }
}

/// The page after the book-checking account form: the account saved or whose
/// edit was cancelled, or the overview when a new one was cancelled. None
/// while the form stays.
pub fn after_book_checking_account_form<T>(action: &create_book_checking_account::Action) -> (r: Option<Route<T>>)
    ensures
        r == match *action {
            create_book_checking_account::Action::AccountCreated(id) => Some(Route::<T>::Account(id)),
            create_book_checking_account::Action::CancelWithId(id) => Some(Route::<T>::Account(id)),
            create_book_checking_account::Action::Cancel => Some(Route::<T>::BookCheckingAccountOverview),
            _ => None,
        },
{
    match action {
        create_book_checking_account::Action::AccountCreated(id) => Some(Route::Account(*id)),
        create_book_checking_account::Action::CancelWithId(id) => Some(Route::Account(*id)),
        create_book_checking_account::Action::Cancel => Some(Route::BookCheckingAccountOverview),
        _ => None,
    }
}

/// The page after the budget form: the budget saved or whose edit was
/// cancelled, or the overview when a new one was cancelled. None while the
/// form stays.
pub fn after_budget_form<T>(action: &create_budget::Action) -> (r: Option<Route<T>>)
    ensures
        r == match *action {
            create_budget::Action::BudgetCreated(id) => Some(Route::<T>::Budget(id)),
            create_budget::Action::CancelWithId(id) => Some(Route::<T>::Budget(id)),
            create_budget::Action::Cancel => Some(Route::<T>::BudgetOverview),
            _ => None,
        },
{
    match action {
        create_budget::Action::BudgetCreated(id) => Some(Route::Budget(*id)),
        create_budget::Action::CancelWithId(id) => Some(Route::Budget(*id)),
        create_budget::Action::Cancel => Some(Route::BudgetOverview),
        _ => None,
    }
}

/// The page after the category form: the category saved or whose edit was
/// cancelled, or the overview when a new one was cancelled. None while the
/// form stays.
pub fn after_category_form<T>(action: &create_category::Action) -> (r: Option<Route<T>>)
    ensures
        r == match *action {
            create_category::Action::CategoryCreated(id) => Some(Route::<T>::Category(id)),
            create_category::Action::CancelWithId(id) => Some(Route::<T>::Category(id)),
            create_category::Action::Cancel => Some(Route::<T>::CategoryOverview),
            _ => None,
        },
{
    match action {
        create_category::Action::CategoryCreated(id) => Some(Route::Category(*id)),
        create_category::Action::CancelWithId(id) => Some(Route::Category(*id)),
        create_category::Action::Cancel => Some(Route::CategoryOverview),
        _ => None,
    }
}

/// The page after the transaction form: the transaction saved or whose edit
/// was cancelled, or the list of transactions when a new one was cancelled.
/// None while the form stays.
pub fn after_transaction_form<T>(action: &create_transaction::Action) -> (r: Option<Route<T>>)
    ensures
        r == match *action {
            create_transaction::Action::TransactionCreated(id) => Some(Route::<T>::Transaction(id)),
            create_transaction::Action::CancelWithId(id) => Some(Route::<T>::Transaction(id)),
            create_transaction::Action::Cancel => Some(Route::<T>::TransactionFilter),
            _ => None,
        },
{
    match action {
        create_transaction::Action::TransactionCreated(id) => Some(Route::Transaction(*id)),
        create_transaction::Action::CancelWithId(id) => Some(Route::Transaction(*id)),
        create_transaction::Action::Cancel => Some(Route::TransactionFilter),
        _ => None,
    }
}

/// The page after the bill form: the bill saved or whose edit was cancelled,
/// or the overview when a new one was cancelled. None while the form stays.
pub fn after_bill_form<T, U>(action: &create_bill::Action<U>) -> (r: Option<Route<T>>)
    ensures
        r == match *action {
            create_bill::Action::BillCreated(id) => Some(Route::<T>::Bill(id)),
            create_bill::Action::CancelWithId(id) => Some(Route::<T>::Bill(id)),
            create_bill::Action::Cancel => Some(Route::<T>::BillOverview),
            _ => None,
        },
{
    match action {
        create_bill::Action::BillCreated(id) => Some(Route::Bill(*id)),
        create_bill::Action::CancelWithId(id) => Some(Route::Bill(*id)),
        create_bill::Action::Cancel => Some(Route::BillOverview),
        _ => None,
    }
}

/// The page after the bill overview: the bill picked, or the form for a new
/// one. None while the overview stays.
pub fn after_bill_overview<T>(action: BillAction) -> (r: Option<Route<T>>)
    ensures
        r == match action {
            BillAction::ViewBill(id) => Some(Route::<T>::Bill(id)),
            BillAction::NewBill => Some(Route::<T>::CreateBill(None)),
            _ => None,
        },
{
    match action {
        BillAction::ViewBill(id) => Some(Route::Bill(id)),
        BillAction::NewBill => Some(Route::CreateBill(None)),
        _ => None,
    }
}

/// The page after the transaction page: the form that edits it, the page of
/// an account, budget or category it links to, the bill form with it, or,
/// once it is deleted, the list of transactions. None while the page stays.
pub fn after_transaction_page<T>(action: transaction_view::Action<T>) -> (r: Option<Route<T>>)
    ensures
        r == match action {
            transaction_view::Action::Edit(id) => Some(Route::<T>::EditTransaction(id)),
            transaction_view::Action::Delete(_) => Some(Route::<T>::TransactionFilter),
            transaction_view::Action::ViewAccount(id) => Some(Route::<T>::Account(id)),
            transaction_view::Action::ViewBudget(id) => Some(Route::<T>::Budget(id)),
            transaction_view::Action::ViewCategory(id) => Some(Route::<T>::Category(id)),
            transaction_view::Action::NewBillWithTransaction(t) => Some(Route::NewBillWithTransaction(t)),
            _ => None,
        },
{
    match action {
        transaction_view::Action::Edit(id) => Some(Route::EditTransaction(id)),
        transaction_view::Action::Delete(_) => Some(Route::TransactionFilter),
        transaction_view::Action::ViewAccount(id) => Some(Route::Account(id)),
        transaction_view::Action::ViewBudget(id) => Some(Route::Budget(id)),
        transaction_view::Action::ViewCategory(id) => Some(Route::Category(id)),
        transaction_view::Action::NewBillWithTransaction(t) => Some(Route::NewBillWithTransaction(t)),
        _ => None,
    }
}

/// The page that a button of the sidebar opens in the focused pane; none for
/// the sidebar's own setting.
pub fn after_sidebar<T>(action: sidebar::Action) -> (r: Option<Route<T>>)
    ensures
        r == match action {
            sidebar::Action::SwitchToAssetAccountView => Some(Route::<T>::AssetAccountOverview),
            sidebar::Action::SwitchToBookCheckingAccountOverview => Some(Route::<T>::BookCheckingAccountOverview),
            sidebar::Action::SwitchToBudgetOverview => Some(Route::<T>::BudgetOverview),
            sidebar::Action::SwitchToCategoryOverview => Some(Route::<T>::CategoryOverview),
            sidebar::Action::SwitchToFilterTransactionView => Some(Route::<T>::TransactionFilter),
            sidebar::Action::SwitchToSettingsView => Some(Route::<T>::Settings),
            sidebar::Action::SwitchToLicense => Some(Route::<T>::License),
            sidebar::Action::SwitchToBillOverview => Some(Route::<T>::BillOverview),
            sidebar::Action::CreateTransaction => Some(Route::<T>::NewTransaction),
            sidebar::Action::SaveCollapsed(_) => None,
        },
{
    match action {
        sidebar::Action::SwitchToAssetAccountView => Some(Route::AssetAccountOverview),
        sidebar::Action::SwitchToBookCheckingAccountOverview => Some(Route::BookCheckingAccountOverview),
        sidebar::Action::SwitchToBudgetOverview => Some(Route::BudgetOverview),
        sidebar::Action::SwitchToCategoryOverview => Some(Route::CategoryOverview),
        sidebar::Action::SwitchToFilterTransactionView => Some(Route::TransactionFilter),
        sidebar::Action::SwitchToSettingsView => Some(Route::Settings),
        sidebar::Action::SwitchToLicense => Some(Route::License),
        sidebar::Action::SwitchToBillOverview => Some(Route::BillOverview),
        sidebar::Action::CreateTransaction => Some(Route::NewTransaction),
        sidebar::Action::SaveCollapsed(_) => None,
    }
}

/// The page after the budget page: the transaction or account it links to,
/// the form that edits the budget, or the list of budgets once it is
/// deleted. None while the page stays.
pub fn after_budget_page<T>(action: &BudgetAction) -> (r: Option<Route<T>>)
    ensures
        r == match *action {
            BudgetAction::ViewTransaction(id) => Some(Route::<T>::Transaction(id)),
            BudgetAction::ViewAccount(id) => Some(Route::<T>::Account(id)),
            BudgetAction::Edit(id) => Some(Route::<T>::EditBudget(id)),
            BudgetAction::DeletedBudget => Some(Route::<T>::BudgetOverview),
            _ => None,
        },
{
    match action {
        BudgetAction::ViewTransaction(id) => Some(Route::Transaction(*id)),
        BudgetAction::ViewAccount(id) => Some(Route::Account(*id)),
        BudgetAction::Edit(id) => Some(Route::EditBudget(*id)),
        BudgetAction::DeletedBudget => Some(Route::BudgetOverview),
        _ => None,
    }
}

/// The page after the category page: the transaction or account it links
/// to, the form that edits the category, or, once it is deleted, the list of
/// categories. None while the page stays.
pub fn after_category_page<T>(action: &CategoryAction) -> (r: Option<Route<T>>)
    ensures
        r == match *action {
            CategoryAction::ViewTransaction(id) => Some(Route::<T>::Transaction(id)),
            CategoryAction::ViewAccount(id) => Some(Route::<T>::Account(id)),
            CategoryAction::Edit(id) => Some(Route::<T>::EditCategory(id)),
            CategoryAction::Delete(_) => Some(Route::<T>::CategoryOverview),
            _ => None,
        },
{
    match action {
        CategoryAction::ViewTransaction(id) => Some(Route::Transaction(*id)),
        CategoryAction::ViewAccount(id) => Some(Route::Account(*id)),
        CategoryAction::Edit(id) => Some(Route::EditCategory(*id)),
        CategoryAction::Delete(_) => Some(Route::CategoryOverview),
        _ => None,
    }
}

/// The page after the bill page: the transaction it links to, the form that
/// edits the bill, or the list of bills once it is deleted. None while the
/// page stays.
pub fn after_bill_page<T>(action: &BillPageAction) -> (r: Option<Route<T>>)
    ensures
        r == match *action {
            BillPageAction::ViewTransaction(id) => Some(Route::<T>::Transaction(id)),
            BillPageAction::Edit(id) => Some(Route::<T>::CreateBill(Some(id))),
            BillPageAction::Deleted => Some(Route::<T>::BillOverview),
            _ => None,
        },
{
    match action {
        BillPageAction::ViewTransaction(id) => Some(Route::Transaction(*id)),
        BillPageAction::Edit(id) => Some(Route::CreateBill(Some(*id))),
        BillPageAction::Deleted => Some(Route::BillOverview),
        _ => None,
    }
}

/// The page after the page of filtered transactions: the transaction or
/// account it links to. None while the page stays.
pub fn after_filter_transactions_page<T>(action: &FilterTransactionsAction) -> (r: Option<Route<T>>)
    ensures
        r == match *action {
            FilterTransactionsAction::ViewTransaction(id) => Some(Route::<T>::Transaction(id)),
            FilterTransactionsAction::ViewAccount(id) => Some(Route::<T>::Account(id)),
            _ => None,
        },
{
    match action {
        FilterTransactionsAction::ViewTransaction(id) => Some(Route::Transaction(*id)),
        FilterTransactionsAction::ViewAccount(id) => Some(Route::Account(*id)),
        _ => None,
    }
}

} // verus!
