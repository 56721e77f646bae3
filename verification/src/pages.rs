//! The kinds of page that a pane of the application shows, and the title that
//! each kind puts above its pane.
use vstd::prelude::*;

verus! {

/// The kind of page a pane shows; a text page carries its own title.
pub enum PageKind {
    Markdown(String),
    License,
    BudgetOverview,
    CreateAssetAccount,
    CreateBudget,
    CreateTransaction,
    AssetAccounts,
    Account,
    Transaction,
    Budget,
    CreateCategory,
    CategoryOverview,
    Category,
    BookCheckingAccountOverview,
    CreateBookCheckingAccount,
    Settings,
    FilterTransaction,
    CreateBill,
    BillOverview,
    Bill,
    Importer,
}

/// The title of a page of kind `kind`.
pub open spec fn page_title(kind: PageKind) -> Seq<char> {
    match kind {
        PageKind::Markdown(title) => title@,
        PageKind::License => "License"@,
        PageKind::BudgetOverview => "Budget Overview"@,
        PageKind::CreateAssetAccount => "Create Asset Account"@,
        PageKind::CreateBudget => "Create Budget"@,
        PageKind::CreateTransaction => "Create Transaction"@,
        PageKind::AssetAccounts => "Asset Account Overview"@,
        PageKind::Account => "Account"@,
        PageKind::Transaction => "Transaction"@,
        PageKind::Budget => "Budget"@,
        PageKind::CreateCategory => "Create Category"@,
        PageKind::CategoryOverview => "Category Overview"@,
        PageKind::Category => "Category"@,
        PageKind::BookCheckingAccountOverview => "Book Checking Account Overview"@,
        PageKind::CreateBookCheckingAccount => "Create Book Checking Account"@,
        PageKind::Settings => "Settings"@,
        PageKind::FilterTransaction => "Filter Transactions"@,
        PageKind::CreateBill => "Create Bill"@,
        PageKind::BillOverview => "Bill Overview"@,
        PageKind::Bill => "Bill"@,
        PageKind::Importer => "Importer"@,
    }
}

impl PageKind {
    /// The title shown above a pane with a page of this kind.
    pub fn title(&self) -> (r: &str)
        ensures
            r@ == page_title(*self),
    {
        match self {
            PageKind::Markdown(title) => title.as_str(),
            PageKind::License => "License",
            PageKind::BudgetOverview => "Budget Overview",
            PageKind::CreateAssetAccount => "Create Asset Account",
            PageKind::CreateBudget => "Create Budget",
            PageKind::CreateTransaction => "Create Transaction",
            PageKind::AssetAccounts => "Asset Account Overview",
            PageKind::Account => "Account",
            PageKind::Transaction => "Transaction",
            PageKind::Budget => "Budget",
            PageKind::CreateCategory => "Create Category",
            PageKind::CategoryOverview => "Category Overview",
            PageKind::Category => "Category",
            PageKind::BookCheckingAccountOverview => "Book Checking Account Overview",
            PageKind::CreateBookCheckingAccount => "Create Book Checking Account",
            PageKind::Settings => "Settings",
            PageKind::FilterTransaction => "Filter Transactions",
            PageKind::CreateBill => "Create Bill",
            PageKind::BillOverview => "Bill Overview",
            PageKind::Bill => "Bill",
            PageKind::Importer => "Importer",
        }
    }
}

} // verus!
