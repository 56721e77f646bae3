use finance_manager::add_transaction::{self, AddTransaction, Identified, Init};
use finance_manager::create_asset_account::{self, AssetAccountData, CreateAssetAccount};
use finance_manager::create_bill::{Action, BillData, CreateBill, Message};
use finance_manager::create_book_checking_account::{self, CreateBookCheckingAccount};
use finance_manager::create_category::{self, CreateCategory};
use finance_manager::currency_input::Action as CurrencyAction;
use finance_manager::date_time::{Date, DateTime, Time};
use finance_manager::filter::{self, Action as FilterAction};
use finance_manager::forms::Sign;
use finance_manager::named::NamedId;
use finance_manager::table::InnerMessage;

fn t(id: u64) -> Identified<&'static str> {
    Identified { id, item: "transaction" }
}

fn ids(items: &[Identified<&'static str>]) -> Vec<u64> {
    items.iter().map(|x| x.id).collect()
}

fn init(transactions: Vec<Identified<&'static str>>, ignored: Vec<u64>) -> Init<&'static str> {
    Init {
        accounts: vec![NamedId { id: 1, name: "acc".to_string() }],
        budgets: vec![],
        bills: vec![],
        categories: vec![],
        transactions,
        ignored_transactions: ignored,
    }
}

#[test]
fn picking_transactions_one_by_one() {
    let mut picker: AddTransaction<&'static str> = AddTransaction::new(None, vec![], vec![], vec![]);
    picker.update(add_transaction::Message::Init(init(vec![t(1), t(2)], vec![9])));
    assert!(picker.filter().is_some());
    match picker.update(add_transaction::Message::AddTransaction(t(1))) {
        add_transaction::Action::AddTransactions(added) => assert_eq!(ids(&added), vec![1]),
        _ => panic!("the transaction is added"),
    }
    assert_eq!(ids(picker.transactions()), vec![2]);
    picker.update(add_transaction::Message::FetchedTransactions(vec![t(1), t(3), t(9), t(2)]));
    assert_eq!(ids(picker.transactions()), vec![3, 2]);
    assert_eq!(picker.table().items(), &vec![0, 1]);
    match picker.update(add_transaction::Message::AddAllTransactions) {
        add_transaction::Action::AddTransactions(added) => assert_eq!(ids(&added), vec![3, 2]),
        _ => panic!("all transactions are added"),
    }
    assert!(picker.transactions().is_empty());
    picker.update(add_transaction::Message::FetchedTransactions(vec![t(1), t(2), t(3), t(4)]));
    assert_eq!(ids(picker.transactions()), vec![4]);
}

#[test]
fn submitting_the_picker_filter() {
    let mut picker: AddTransaction<&'static str> = AddTransaction::new(None, vec![], vec![], vec![]);
    picker.update(add_transaction::Message::Init(init(vec![], vec![])));
    match picker.update(add_transaction::Message::FilterComponent(filter::InnerMessage::Submit)) {
        add_transaction::Action::FetchFiltered(f) => assert!(f.accounts.is_empty()),
        _ => panic!("a submitted filter is fetched"),
    }
    assert!(picker.filter().is_none());
    assert!(matches!(
        picker.update(add_transaction::Message::FilterComponent(filter::InnerMessage::Submit)),
        add_transaction::Action::Nothing
    ));
    assert!(matches!(picker.update(add_transaction::Message::Back), add_transaction::Action::Escape));
}

#[test]
fn the_picker_table_sorts_rows_not_the_list() {
    let mut picker: AddTransaction<&'static str> = AddTransaction::new(None, vec![t(5), t(6), t(7)], vec![], vec![]);
    match picker.update(add_transaction::Message::Table(InnerMessage::SortByColumn(1))) {
        add_transaction::Action::SortTable { column, reverse } => {
            assert_eq!((column, reverse), (1, false));
            picker.sort_table(column, reverse, vec![2, 1, 0]);
        }
        _ => panic!("the table asks for an order"),
    }
    assert_eq!(picker.table().items(), &vec![2, 1, 0]);
    assert_eq!(ids(picker.transactions()), vec![5, 6, 7]);
    picker.update(add_transaction::Message::AddTransaction(t(6)));
    assert_eq!(ids(picker.transactions()), vec![5, 7]);
    assert_eq!(picker.table().items(), &vec![0, 1]);
    match picker.update(add_transaction::Message::Table(InnerMessage::OuterMessage(Box::new(add_transaction::Message::AddTransaction(t(5)))))) {
        add_transaction::Action::AddTransactions(added) => assert_eq!(ids(&added), vec![5]),
        _ => panic!("a cell's message is handled"),
    }
    assert_eq!(ids(picker.transactions()), vec![7]);
}

#[test]
fn a_bill_with_picked_transactions() {
    let mut bill: CreateBill<&'static str> = CreateBill::new();
    assert!(!bill.submittable());
    bill.update(Message::Initialize(None, vec![(t(1), Sign::Positive)], vec![]));
    bill.update(Message::NameInputChanged("Invoice".to_string()));
    bill.update(Message::ValueChanged(CurrencyAction::Input("99,90".to_string())));
    assert!(bill.submittable());
    match bill.update(Message::AddTransactionToggle) {
        Action::FetchPickerData(ignored) => assert_eq!(ignored, vec![1]),
        _ => panic!("opening the picker fetches its data"),
    }
    bill.update(Message::AddTransaction(add_transaction::Message::Init(init(vec![t(1), t(2), t(3)], vec![1]))));
    bill.update(Message::AddTransaction(add_transaction::Message::FetchedTransactions(vec![t(1), t(2), t(3)])));
    bill.update(Message::AddTransaction(add_transaction::Message::AddTransaction(t(3))));
    assert_eq!(ids(&bill.transactions().iter().map(|x| Identified { id: x.0.id, item: x.0.item }).collect::<Vec<_>>()), vec![1, 3]);
    assert_eq!(bill.transactions()[1].1, Sign::Negative);
    bill.update(Message::AddTransaction(add_transaction::Message::Back));
    assert!(bill.picker().is_none());
    bill.update(Message::ChangeTransactionSign(3, Sign::Positive));
    bill.update(Message::RemoveTransaction(1));
    match bill.update(Message::Submit) {
        Action::Submit(d) => {
            assert_eq!(d.id, None);
            assert_eq!(d.name, "Invoice");
            assert_eq!(d.value, "99.90");
            assert_eq!(d.transactions, vec![(3, Sign::Positive)]);
            assert_eq!(d.due_date, None);
            assert_eq!(d.description, None);
        }
        _ => panic!("a submit describes the bill"),
    }
}

#[test]
fn editing_an_existing_bill() {
    let mut bill: CreateBill<&'static str> = CreateBill::new();
    let due = DateTime { date: Date { year: 2024, month: 3, day: 1 }, time: Time { hour: 12, minute: 0, second: 0 } };
    bill.update(Message::Initialize(
        Some(BillData { id: 4, name: "Rent".to_string(), description: Some("March".to_string()), value: "800".to_string(), due_date: Some(due) }),
        vec![],
        vec![],
    ));
    match bill.update(Message::Submit) {
        Action::Submit(d) => {
            assert_eq!(d.id, Some(4));
            assert_eq!(d.description, Some("March".to_string()));
            assert_eq!(d.due_date, Some(due));
            assert_eq!(d.value, "800");
        }
        _ => panic!("a submit describes the bill"),
    }
    assert!(matches!(bill.update(Message::Cancel), Action::CancelWithId(4)));
    assert!(matches!(bill.update(Message::BillCreated(4)), Action::BillCreated(4)));
    match bill.update(Message::TransactionTable(InnerMessage::SortByColumn(0))) {
        Action::SortTable { column, reverse } => {
            assert_eq!((column, reverse), (0, false));
            bill.sort_table(column, reverse, vec![]);
        }
        _ => panic!("the table asks for an order"),
    }
}

#[test]
fn asset_account_form() {
    let mut form = CreateAssetAccount::new("0".to_string());
    assert!(!form.can_submit());
    form.update(create_asset_account::Message::NameInput("Bank".to_string()));
    assert!(form.can_submit());
    form.update(create_asset_account::Message::OffsetInput(CurrencyAction::Input("1_000,5".to_string())));
    form.update(create_asset_account::Message::IbanInput("DE00".to_string()));
    form.update(create_asset_account::Message::NoteInput("main\n".to_string()));
    match form.update(create_asset_account::Message::Submit) {
        create_asset_account::Action::Submit(d) => {
            assert_eq!(d.id, None);
            assert_eq!(d.name, "Bank");
            assert_eq!(d.note, Some("main\n".to_string()));
            assert_eq!(d.iban, Some("DE00".to_string()));
            assert_eq!(d.bic, None);
            assert_eq!(d.offset, "1000.5");
        }
        _ => panic!("a submit describes the account"),
    }
    form.update(create_asset_account::Message::Initialize(AssetAccountData {
        id: 6,
        name: "Old".to_string(),
        note: None,
        iban: None,
        bic: Some("BIC".to_string()),
        offset: "12".to_string(),
    }));
    assert!(matches!(form.update(create_asset_account::Message::Cancel), create_asset_account::Action::CancelWithId(6)));
    match form.update(create_asset_account::Message::Submit) {
        create_asset_account::Action::Submit(d) => {
            assert_eq!(d.id, Some(6));
            assert_eq!(d.bic, Some("BIC".to_string()));
            assert_eq!(d.offset, "12");
        }
        _ => panic!("a submit describes the account"),
    }
}

#[test]
fn book_checking_account_form() {
    let mut form = CreateBookCheckingAccount::new();
    assert!(!form.can_submit());
    form.update(create_book_checking_account::Message::NameInput("Shop".to_string()));
    form.update(create_book_checking_account::Message::BicInput("B".to_string()));
    match form.update(create_book_checking_account::Message::Submit) {
        create_book_checking_account::Action::Submit(d) => {
            assert_eq!(d.name, "Shop");
            assert_eq!(d.note, None);
            assert_eq!(d.iban, None);
            assert_eq!(d.bic, Some("B".to_string()));
        }
        _ => panic!("a submit describes the account"),
    }
    assert!(matches!(form.update(create_book_checking_account::Message::Cancel), create_book_checking_account::Action::Cancel));
}

#[test]
fn category_form() {
    let mut form = CreateCategory::default();
    assert!(!form.is_submittable());
    form.update(create_category::Message::Initialize(5, "Food".to_string()));
    assert!(form.is_submittable());
    assert_eq!(form.id(), Some(5));
    form.update(create_category::Message::Reload { exists: true });
    assert_eq!(form.id(), Some(5));
    form.update(create_category::Message::Reload { exists: false });
    assert_eq!(form.id(), None);
    form.update(create_category::Message::NameInput("Groceries".to_string()));
    match form.update(create_category::Message::Submit) {
        create_category::Action::Submit { id, name } => assert_eq!((id, name.as_str()), (None, "Groceries")),
        _ => panic!("a submit names the category"),
    }
    let mut named = CreateCategory::new(Some(2), String::new());
    assert!(!named.is_submittable());
    assert!(matches!(named.update(create_category::Message::Cancel), create_category::Action::CancelWithId(2)));
    let _ = FilterAction::Nothing;
}
