//! A pane shows one page at a time; a message is meant for one kind of page
//! and reaches the page only when the pane shows a page of that kind, which
//! then does what its own `update` does. A message that arrives for a page
//! that is no longer shown is dropped.
use vstd::prelude::*;
use crate::create_asset_account::{self, CreateAssetAccount};
use crate::create_bill::{self, CreateBill, bill_wf};
use crate::create_book_checking_account::{self, CreateBookCheckingAccount};
use crate::create_budget::{self, CreateBudget};
use crate::create_category::{self, CreateCategory};
use crate::create_transaction::{self, CreateTransaction};
use crate::importer::{self, Importer, ImporterAction, ImporterMessage};
use crate::item_pages::{
    self, BillMessage as BillPageMessage, BillPage, BillPageAction, BudgetAction, BudgetMessage, BudgetPage,
    CategoryAction, CategoryMessage, CategoryPage, FilterTransactions, FilterTransactionsAction,
    FilterTransactionsMessage, bill_message_defined, bill_page_wf, budget_message_defined, category_message_defined,
    filter_transactions_wf,
};
use crate::navigation::OverviewLink;
use crate::overview::{self, BillAction, BillMessage, BillOverview, Overview};
use crate::settings::{self, SettingsView};
use crate::table::table_wf;
use crate::transaction_view::{self, TransactionView};

verus! {

/// The page a pane shows. `T` is a transaction, `R` a row of a bill's
/// table, `D` what the transaction page shows beside the transaction, `X`
/// what the owner shows of the transactions of a budget, category or bill,
/// `O` an item of an overview, `B` a bill of the bill overview, `A` a
/// question of the importer.
pub enum Page<T, R, D, X, O, B, A> {
    Budget(BudgetPage<X>),
    Category(CategoryPage<X>),
    Bill(BillPage<R, X>),
    Transaction(TransactionView<T, D>),
    FilterTransactions(FilterTransactions),
    CreateCategory(CreateCategory),
    CreateBookCheckingAccount(CreateBookCheckingAccount),
    CreateAssetAccount(CreateAssetAccount),
    CreateTransaction(CreateTransaction),
    Settings(SettingsView),
    BudgetOverview(Overview<O>),
    AssetAccounts(Overview<O>),
    CategoryOverview(Overview<O>),
    BookCheckingAccountOverview(Overview<O>),
    CreateBudget(CreateBudget),
    CreateBill(CreateBill<T>),
    BillOverview(BillOverview<B>),
    Importer(Importer<A>),
}

/// A message for a page of one kind.
pub enum PageMessage<T, R, D, X, O, B, A> {
    Budget(BudgetMessage<X>),
    Category(CategoryMessage<X>),
    Bill(BillPageMessage<R, X>),
    Transaction(transaction_view::Message<T, D>),
    FilterTransactions(FilterTransactionsMessage),
    CreateCategory(create_category::Message),
    CreateBookCheckingAccount(create_book_checking_account::Message),
    CreateAssetAccount(create_asset_account::Message),
    CreateTransaction(create_transaction::Message),
    Settings(settings::Message),
    BudgetOverview(overview::Message<O, OverviewLink>),
    AssetAccounts(overview::Message<O, OverviewLink>),
    CategoryOverview(overview::Message<O, OverviewLink>),
    BookCheckingAccountOverview(overview::Message<O, OverviewLink>),
    CreateBudget(create_budget::Message),
    CreateBill(create_bill::Message<T>),
    BillOverview(BillMessage<B>),
    Importer(ImporterMessage<A>),
}

/// What the page asks of the owner of the pane, or that the message was
/// dropped.
pub enum PageAction<T, A> {
    /// The pane does not show a page of the kind the message is for.
    NotHandled,
    Budget(BudgetAction),
    Category(CategoryAction),
    Bill(BillPageAction),
    Transaction(transaction_view::Action<T>),
    FilterTransactions(FilterTransactionsAction),
    CreateCategory(create_category::Action),
    CreateBookCheckingAccount(create_book_checking_account::Action),
    CreateAssetAccount(create_asset_account::Action),
    CreateTransaction(create_transaction::Action),
    Settings(settings::Action),
    BudgetOverview(overview::Action<OverviewLink>),
    AssetAccounts(overview::Action<OverviewLink>),
    CategoryOverview(overview::Action<OverviewLink>),
    BookCheckingAccountOverview(overview::Action<OverviewLink>),
    CreateBudget(create_budget::Action),
    CreateBill(create_bill::Action<T>),
    BillOverview(BillAction),
    Importer(ImporterAction<A>),
}

/// True when `message` is meant for a page of the kind that `page` is.
pub open spec fn meant_for<T, R, D, X, O, B, A>(page: Page<T, R, D, X, O, B, A>, message: PageMessage<T, R, D, X, O, B, A>) -> bool {
    match (page, message) {
        (Page::Budget(_), PageMessage::Budget(_)) => true,
        (Page::Category(_), PageMessage::Category(_)) => true,
        (Page::Bill(_), PageMessage::Bill(_)) => true,
        (Page::Transaction(_), PageMessage::Transaction(_)) => true,
        (Page::FilterTransactions(_), PageMessage::FilterTransactions(_)) => true,
        (Page::CreateCategory(_), PageMessage::CreateCategory(_)) => true,
        (Page::CreateBookCheckingAccount(_), PageMessage::CreateBookCheckingAccount(_)) => true,
        (Page::CreateAssetAccount(_), PageMessage::CreateAssetAccount(_)) => true,
        (Page::CreateTransaction(_), PageMessage::CreateTransaction(_)) => true,
        (Page::Settings(_), PageMessage::Settings(_)) => true,
        (Page::BudgetOverview(_), PageMessage::BudgetOverview(_)) => true,
        (Page::AssetAccounts(_), PageMessage::AssetAccounts(_)) => true,
        (Page::CategoryOverview(_), PageMessage::CategoryOverview(_)) => true,
        (Page::BookCheckingAccountOverview(_), PageMessage::BookCheckingAccountOverview(_)) => true,
        (Page::CreateBudget(_), PageMessage::CreateBudget(_)) => true,
        (Page::CreateBill(_), PageMessage::CreateBill(_)) => true,
        (Page::BillOverview(_), PageMessage::BillOverview(_)) => true,
        (Page::Importer(_), PageMessage::Importer(_)) => true,
        _ => false,
    }
}

/// True when the page can take the message meant for it (what that page's
/// own `update` requires).
pub open spec fn page_message_defined<T, R, D, X, O, B, A>(page: Page<T, R, D, X, O, B, A>, message: PageMessage<T, R, D, X, O, B, A>) -> bool {
    match (page, message) {
        (Page::Budget(p), PageMessage::Budget(m)) => budget_message_defined(p, m),
        (Page::Category(p), PageMessage::Category(m)) => category_message_defined(p, m),
        (Page::Bill(p), PageMessage::Bill(m)) => bill_page_wf(p) && bill_message_defined(p, m),
        (Page::FilterTransactions(p), PageMessage::FilterTransactions(m)) => filter_transactions_wf(p@)
            && (m matches FilterTransactionsMessage::FilterComponent(fm) ==> (p@.editor matches Some(e) ==> crate::filter::update_defined(e, fm))),
        (Page::CreateAssetAccount(p), PageMessage::CreateAssetAccount(m)) =>
            m is Submit ==> crate::number::is_number_text(p@.offset.content),
        (Page::CreateTransaction(p), PageMessage::CreateTransaction(m)) => create_transaction::update_defined(p@, m),
        (Page::BudgetOverview(p), PageMessage::BudgetOverview(m)) => table_wf(p@) && overview::update_defined(p@, m),
        (Page::AssetAccounts(p), PageMessage::AssetAccounts(m)) => table_wf(p@) && overview::update_defined(p@, m),
        (Page::CategoryOverview(p), PageMessage::CategoryOverview(m)) => table_wf(p@) && overview::update_defined(p@, m),
        (Page::BookCheckingAccountOverview(p), PageMessage::BookCheckingAccountOverview(m)) =>
            table_wf(p@) && overview::update_defined(p@, m),
        (Page::CreateBudget(p), PageMessage::CreateBudget(m)) => create_budget::update_defined(p@, m),
        (Page::CreateBill(p), PageMessage::CreateBill(m)) => bill_wf(p@) && create_bill::update_defined(p@, m),
        (Page::BillOverview(p), PageMessage::BillOverview(m)) => table_wf(p@.bills)
            && (m matches BillMessage::Table(inner) ==> overview::update_defined(p@.bills, overview::Message::Table(inner))),
        _ => true,
    }
}

/// What [`view_update`] does with a message meant for the page shown: the
/// page becomes `new` and `r` is returned exactly as the page's own `update`
/// gives them.
pub open spec fn page_update_post<T: Clone, R, D, X, O, B, A>(
    old: Page<T, R, D, X, O, B, A>,
    message: PageMessage<T, R, D, X, O, B, A>,
    utc_offset: i32,
    new: Page<T, R, D, X, O, B, A>,
    r: PageAction<T, A>,
) -> bool {
    match (old, message) {
        (Page::Budget(p), PageMessage::Budget(m)) => new matches Page::Budget(q)
            && (r matches PageAction::Budget(a) && item_pages::budget_post(p, m, q, a)),
        (Page::Category(p), PageMessage::Category(m)) => new matches Page::Category(q)
            && (r matches PageAction::Category(a) && item_pages::category_post(p, m, q, a)),
        (Page::Bill(p), PageMessage::Bill(m)) => new matches Page::Bill(q)
            && (r matches PageAction::Bill(a) && item_pages::bill_page_post(p, m, q, a)),
        (Page::Transaction(p), PageMessage::Transaction(m)) => new matches Page::Transaction(q)
            && (r matches PageAction::Transaction(a) && transaction_view::update_post(p, m, q, a)),
        (Page::FilterTransactions(p), PageMessage::FilterTransactions(m)) => new matches Page::FilterTransactions(q)
            && (r matches PageAction::FilterTransactions(a) && item_pages::filter_transactions_post(p, m, q, a)),
        (Page::CreateCategory(p), PageMessage::CreateCategory(m)) => new matches Page::CreateCategory(q)
            && (r matches PageAction::CreateCategory(a) && create_category::update_post(p, m, q, a)),
        (Page::CreateBookCheckingAccount(p), PageMessage::CreateBookCheckingAccount(m)) => new matches Page::CreateBookCheckingAccount(q)
            && (r matches PageAction::CreateBookCheckingAccount(a) && create_book_checking_account::update_post(p, m, q, a)),
        (Page::CreateAssetAccount(p), PageMessage::CreateAssetAccount(m)) => new matches Page::CreateAssetAccount(q)
            && (r matches PageAction::CreateAssetAccount(a) && create_asset_account::update_post(p, m, q, a)),
        (Page::CreateTransaction(p), PageMessage::CreateTransaction(m)) => new matches Page::CreateTransaction(q)
            && (r matches PageAction::CreateTransaction(a) && create_transaction::update_post(p@, m, utc_offset, q@, a)),
        (Page::Settings(p), PageMessage::Settings(m)) => new matches Page::Settings(q)
            && (r matches PageAction::Settings(a) && settings::update_post(p, m, q, a)),
        (Page::BudgetOverview(p), PageMessage::BudgetOverview(m)) => new matches Page::BudgetOverview(q)
            && (r matches PageAction::BudgetOverview(a) && table_wf(q@) && overview::update_post(p@, m, q@, a)),
        (Page::AssetAccounts(p), PageMessage::AssetAccounts(m)) => new matches Page::AssetAccounts(q)
            && (r matches PageAction::AssetAccounts(a) && table_wf(q@) && overview::update_post(p@, m, q@, a)),
        (Page::CategoryOverview(p), PageMessage::CategoryOverview(m)) => new matches Page::CategoryOverview(q)
            && (r matches PageAction::CategoryOverview(a) && table_wf(q@) && overview::update_post(p@, m, q@, a)),
        (Page::BookCheckingAccountOverview(p), PageMessage::BookCheckingAccountOverview(m)) => new matches Page::BookCheckingAccountOverview(q)
            && (r matches PageAction::BookCheckingAccountOverview(a) && table_wf(q@) && overview::update_post(p@, m, q@, a)),
        (Page::CreateBudget(p), PageMessage::CreateBudget(m)) => new matches Page::CreateBudget(q)
            && (r matches PageAction::CreateBudget(a) && create_budget::update_post(p, m, utc_offset, q, a)),
        (Page::CreateBill(p), PageMessage::CreateBill(m)) => new matches Page::CreateBill(q)
            && (r matches PageAction::CreateBill(a) && bill_wf(q@) && create_bill::update_post(p@, m, q@, a)),
        (Page::BillOverview(p), PageMessage::BillOverview(m)) => new matches Page::BillOverview(q)
            && (r matches PageAction::BillOverview(a) && overview::bill_overview_post(p, m, q, a)),
        (Page::Importer(p), PageMessage::Importer(m)) => new matches Page::Importer(q)
            && (r matches PageAction::Importer(a) && importer::importer_post(p, m, q, a)),
        _ => false,
    }
}

/// Hands a message to the page of the pane when it is of the kind the
/// message is for, and gives back what that page asks; a message for
/// another kind of page is dropped and changes nothing.
pub fn view_update<T: Clone, R, D, X, O, B, A>(
    view: &mut Page<T, R, D, X, O, B, A>,
    message: PageMessage<T, R, D, X, O, B, A>,
    utc_offset: i32,
) -> (r: PageAction<T, A>)
    requires
        page_message_defined(*old(view), message),
    ensures
        !meant_for(*old(view), message) ==> r is NotHandled && *final(view) == *old(view),
        meant_for(*old(view), message) ==> page_update_post(*old(view), message, utc_offset, *final(view), r),
{
    match (view, message) {
        (Page::Budget(p), PageMessage::Budget(m)) => PageAction::Budget(p.update(m)),
        (Page::Category(p), PageMessage::Category(m)) => PageAction::Category(p.update(m)),
        (Page::Bill(p), PageMessage::Bill(m)) => PageAction::Bill(p.update(m)),
        (Page::Transaction(p), PageMessage::Transaction(m)) => PageAction::Transaction(p.update(m)),
        (Page::FilterTransactions(p), PageMessage::FilterTransactions(m)) => PageAction::FilterTransactions(p.update(m)),
        (Page::CreateCategory(p), PageMessage::CreateCategory(m)) => PageAction::CreateCategory(p.update(m)),
        (Page::CreateBookCheckingAccount(p), PageMessage::CreateBookCheckingAccount(m)) =>
            PageAction::CreateBookCheckingAccount(p.update(m)),
        (Page::CreateAssetAccount(p), PageMessage::CreateAssetAccount(m)) => PageAction::CreateAssetAccount(p.update(m)),
        (Page::CreateTransaction(p), PageMessage::CreateTransaction(m)) => PageAction::CreateTransaction(p.update(m, utc_offset)),
        (Page::Settings(p), PageMessage::Settings(m)) => PageAction::Settings(p.update(m)),
        (Page::BudgetOverview(p), PageMessage::BudgetOverview(m)) => PageAction::BudgetOverview(p.update(m)),
        (Page::AssetAccounts(p), PageMessage::AssetAccounts(m)) => PageAction::AssetAccounts(p.update(m)),
        (Page::CategoryOverview(p), PageMessage::CategoryOverview(m)) => PageAction::CategoryOverview(p.update(m)),
        (Page::BookCheckingAccountOverview(p), PageMessage::BookCheckingAccountOverview(m)) =>
            PageAction::BookCheckingAccountOverview(p.update(m)),
        (Page::CreateBudget(p), PageMessage::CreateBudget(m)) => PageAction::CreateBudget(p.update(m, utc_offset)),
        (Page::CreateBill(p), PageMessage::CreateBill(m)) => PageAction::CreateBill(p.update(m)),
        (Page::BillOverview(p), PageMessage::BillOverview(m)) => PageAction::BillOverview(p.update(m)),
        (Page::Importer(p), PageMessage::Importer(m)) => PageAction::Importer(p.update(m)),
        _ => PageAction::NotHandled,
    }
}

} // verus!
