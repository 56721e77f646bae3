use finance_manager::add_transaction::Identified;
use finance_manager::client::Client;
use finance_manager::create_asset_account::Action as AssetFormAction;
use finance_manager::create_transaction::Action as TransactionFormAction;
use finance_manager::finance_managers::{FinanceManagers, InvalidFlags};
use finance_manager::importer::{
    ImportAction, ImportMessage, Importer, ImporterAction, ImporterMessage, Message as StartMessage,
};
use finance_manager::navigation::{
    after_asset_account_form, after_bill_overview, after_overview, after_sidebar, after_transaction_form,
    after_transaction_page, OverviewKind, OverviewLink, Route,
};
use finance_manager::overview::BillAction;
use finance_manager::pages::PageKind;
use finance_manager::sidebar::Action as SidebarAction;
use finance_manager::transaction_view::{Action as PageAction, Message as PageMessage, TransactionView};

fn screen_selected(importer: &Importer<u32>) -> Option<Option<String>> {
    match importer {
        Importer::StartScreen(s) => Some(s.selected_file().clone()),
        _ => None,
    }
}

#[test]
fn importer_walks_through_questions() {
    let mut importer: Importer<u32> = Importer::default();
    assert_eq!(screen_selected(&importer), Some(None));
    // a message for the import step is ignored on the first page
    assert!(matches!(importer.update(ImporterMessage::Import(ImportMessage::Next)), ImporterAction::Nothing));
    assert!(matches!(importer.update(ImporterMessage::Start(StartMessage::StartImport)), ImporterAction::Nothing));
    assert!(matches!(importer.update(ImporterMessage::Start(StartMessage::PickFile)), ImporterAction::PickFile));
    assert!(matches!(
        importer.update(ImporterMessage::Start(StartMessage::FilePicked("/tmp/a.csv".to_string()))),
        ImporterAction::Nothing
    ));
    assert_eq!(screen_selected(&importer), Some(Some("/tmp/a.csv".to_string())));
    match importer.update(ImporterMessage::Start(StartMessage::StartImport)) {
        ImporterAction::CreateImporter(p) => assert_eq!(p, "/tmp/a.csv"),
        _ => panic!("the import did not start"),
    }
    assert!(matches!(importer, Importer::CreatingImporter));
    let next = importer.update(ImporterMessage::Created);
    assert!(matches!(next, ImporterAction::Send(ImporterMessage::Import(ImportMessage::Next))));
    // the first Next fetches a question
    assert!(matches!(
        importer.update(ImporterMessage::Import(ImportMessage::Next)),
        ImporterAction::Import(ImportAction::FetchNext)
    ));
    assert!(matches!(
        importer.update(ImporterMessage::Import(ImportMessage::Ask(7))),
        ImporterAction::Import(ImportAction::Nothing)
    ));
    importer.update(ImporterMessage::Import(ImportMessage::SelectOption(Some(2))));
    match importer.update(ImporterMessage::Import(ImportMessage::Next)) {
        ImporterAction::Import(ImportAction::Answer(q, picked)) => {
            assert_eq!(q, 7);
            assert_eq!(picked, Some(2));
        }
        _ => panic!("the answer was not passed on"),
    }
    // no question is shown after the answer
    match &importer {
        Importer::ImportScreen(i) => assert!(!i.can_go_next()),
        _ => panic!("left the import step"),
    }
    assert!(matches!(
        importer.update(ImporterMessage::Import(ImportMessage::Finished)),
        ImporterAction::ShowFinished
    ));
    assert_eq!(screen_selected(&importer), Some(None));
}

#[test]
fn import_step_selection_needs_a_question() {
    let mut importer: Importer<u32> = Importer::default();
    importer.update(ImporterMessage::Created);
    importer.update(ImporterMessage::Import(ImportMessage::SelectOption(Some(1))));
    importer.update(ImporterMessage::Import(ImportMessage::Ask(3)));
    match importer.update(ImporterMessage::Import(ImportMessage::Next)) {
        ImporterAction::Import(ImportAction::Answer(q, picked)) => {
            assert_eq!(q, 3);
            assert_eq!(picked, None);
        }
        _ => panic!("the answer was not passed on"),
    }
}

#[test]
fn transaction_page_acts_on_the_loaded_transaction() {
    let mut page: TransactionView<String, ()> = TransactionView::fetch();
    assert!(matches!(page.update(PageMessage::Edit), PageAction::Nothing));
    assert!(matches!(page.update(PageMessage::NewBill), PageAction::Nothing));
    assert!(matches!(page.update(PageMessage::DeleteConfirmed(true)), PageAction::Nothing));
    page.update(PageMessage::Initialize(Identified { id: 12, item: "rent".to_string() }, ()));
    assert!(matches!(page.update(PageMessage::Edit), PageAction::Edit(12)));
    assert!(matches!(page.update(PageMessage::Delete), PageAction::ConfirmDelete));
    assert!(matches!(page.update(PageMessage::DeleteConfirmed(false)), PageAction::Nothing));
    assert!(matches!(page.update(PageMessage::DeleteConfirmed(true)), PageAction::Delete(12)));
    match page.update(PageMessage::NewBill) {
        PageAction::NewBillWithTransaction(t) => {
            assert_eq!(t.id, 12);
            assert_eq!(t.item, "rent");
        }
        _ => panic!("no bill was started"),
    }
    assert!(matches!(page.update(PageMessage::ViewAccount(4)), PageAction::ViewAccount(4)));
    assert!(matches!(page.update(PageMessage::ViewBudget(5)), PageAction::ViewBudget(5)));
    assert!(matches!(page.update(PageMessage::ViewCategory(6)), PageAction::ViewCategory(6)));
}

#[test]
fn finance_manager_flags_pick_exactly_one() {
    let client = Client::new(("http://localhost:3000".to_string(), "SECRET-REDACTED".to_string()));
    let server: Result<FinanceManagers<u8, u16>, InvalidFlags> = FinanceManagers::new((Some(client.clone()), None, None));
    let server = server.unwrap();
    assert_eq!(server.kind_name(), "Server");
    assert_eq!(server.description("ignored"), "Server http://localhost:3000");
    let ram: FinanceManagers<u8, u16> = FinanceManagers::new((None, Some(3), None)).unwrap();
    assert_eq!(ram.kind_name(), "Ram");
    assert_eq!(ram.description("x"), "Ram");
    let sqlite: FinanceManagers<u8, u16> = FinanceManagers::new((None, None, Some(1))).unwrap();
    assert_eq!(sqlite.kind_name(), "Sqlite");
    assert_eq!(sqlite.description("/data/fm.db"), "Sqlite /data/fm.db");
    let none: Result<FinanceManagers<u8, u16>, InvalidFlags> = FinanceManagers::new((None, None, None));
    assert_eq!(none.err(), Some(InvalidFlags));
    let two: Result<FinanceManagers<u8, u16>, InvalidFlags> = FinanceManagers::new((Some(client), Some(3), None));
    assert_eq!(two.err(), Some(InvalidFlags));
}

#[test]
fn page_titles() {
    assert_eq!(PageKind::Markdown("Finance Manager".to_string()).title(), "Finance Manager");
    assert_eq!(PageKind::AssetAccounts.title(), "Asset Account Overview");
    assert_eq!(PageKind::BookCheckingAccountOverview.title(), "Book Checking Account Overview");
    assert_eq!(PageKind::FilterTransaction.title(), "Filter Transactions");
    assert_eq!(PageKind::License.title(), "License");
    assert_eq!(PageKind::Importer.title(), "Importer");
}

#[test]
fn routes_after_pages() {
    assert!(matches!(after_overview::<()>(OverviewKind::Budgets, OverviewLink::View(3)), Route::Budget(3)));
    assert!(matches!(after_overview::<()>(OverviewKind::Categories, OverviewLink::New), Route::NewCategory));
    assert!(matches!(after_overview::<()>(OverviewKind::BookCheckingAccounts, OverviewLink::View(9)), Route::Account(9)));
    assert!(matches!(after_asset_account_form::<()>(&AssetFormAction::AssetAccountCreated(4)), Some(Route::Account(4))));
    assert!(matches!(after_asset_account_form::<()>(&AssetFormAction::Cancel), Some(Route::AssetAccountOverview)));
    assert!(after_asset_account_form::<()>(&AssetFormAction::Nothing).is_none());
    assert!(matches!(after_transaction_form::<()>(&TransactionFormAction::Cancel), Some(Route::TransactionFilter)));
    assert!(matches!(after_transaction_form::<()>(&TransactionFormAction::CancelWithId(8)), Some(Route::Transaction(8))));
    assert!(matches!(after_bill_overview::<()>(BillAction::NewBill), Some(Route::CreateBill(None))));
    assert!(matches!(after_bill_overview::<()>(BillAction::ViewBill(2)), Some(Route::Bill(2))));
    assert!(after_bill_overview::<()>(BillAction::ScrollToTop).is_none());
    assert!(matches!(after_transaction_page::<u8>(PageAction::Delete(5)), Some(Route::TransactionFilter)));
    assert!(matches!(after_transaction_page::<u8>(PageAction::Edit(5)), Some(Route::EditTransaction(5))));
    assert!(after_transaction_page::<u8>(PageAction::ConfirmDelete).is_none());
    assert!(matches!(after_sidebar::<()>(SidebarAction::CreateTransaction), Some(Route::NewTransaction)));
    assert!(matches!(after_sidebar::<()>(SidebarAction::SwitchToLicense), Some(Route::License)));
    assert!(after_sidebar::<()>(SidebarAction::SaveCollapsed(true)).is_none());
}
