use finance_manager::create_transaction::{
    Action, CreateTransaction, InitExisting, Message, TransactionData,
};
use finance_manager::currency_input::Action as CurrencyAction;
use finance_manager::date_time::{Date, OffsetDateTime, Time};
use finance_manager::forms::{SelectedAccount, Sign};
use finance_manager::inputs::date_input::Action as DateAction;
use finance_manager::inputs::date_time_input::Action as DateTimeAction;
use finance_manager::inputs::time_input::Message as TimeMessage;
use finance_manager::key_value_editor::Message as KvMessage;
use finance_manager::named::NamedId;

fn named(id: u64, name: &str) -> NamedId {
    NamedId { id, name: name.to_string() }
}

fn filled_form() -> CreateTransaction {
    let mut form = CreateTransaction::new();
    form.update(
        Message::Initialize { budgets: vec![named(1, "b")], accounts: vec![named(2, "z"), named(3, "a")], categories: vec![] },
        0,
    );
    form.update(Message::TitleInput("Groceries".to_string()), 0);
    form.update(Message::AmountInput(CurrencyAction::Input("12,50".to_string())), 0);
    form.update(Message::DateInput(DateTimeAction::DateInput(DateAction::InputChanged("02.01.2024".to_string()))), 0);
    form.update(Message::DateInput(DateTimeAction::TimeInput(TimeMessage::OnInput("18:00".to_string()))), 0);
    form.update(Message::SourceSelected(SelectedAccount::Account(2)), 0);
    form.update(Message::DestinationInput("Market".to_string()), 0);
    form
}

#[test]
fn a_transaction_needs_title_amount_date_and_accounts() {
    let mut form = CreateTransaction::new();
    assert!(!form.submittable());
    form.update(Message::TitleInput("T".to_string()), 0);
    form.update(Message::AmountInput(CurrencyAction::Input("5".to_string())), 0);
    assert!(!form.submittable());
    form.update(Message::DateInput(DateTimeAction::DateInput(DateAction::InputChanged("1.1.2024".to_string()))), 0);
    form.update(Message::DateInput(DateTimeAction::TimeInput(TimeMessage::OnInput("1:00".to_string()))), 0);
    assert!(!form.submittable());
    form.update(Message::SourceInput("New A".to_string()), 0);
    assert!(form.submittable());
    form.update(Message::DestinationInput("New B".to_string()), 0);
    assert!(!form.submittable());
    form.update(Message::DestinationSelected(SelectedAccount::Account(1)), 0);
    assert!(form.submittable());
    form.update(Message::SourceSelected(SelectedAccount::Account(1)), 0);
    assert!(!form.submittable());
}

#[test]
fn submitting_a_new_transaction() {
    let mut form = filled_form();
    form.update(Message::SelectCategory(7), 0);
    form.update(Message::SelectCategory(8), 0);
    form.update(Message::ChangeSelectedCategorySign(8, Sign::Negative), 0);
    form.update(Message::BudgetSelected(1), 0);
    form.update(Message::BudgetSignChange(true), 0);
    form.update(Message::DescriptionInput("  \n".to_string()), 0);
    form.update(Message::MetadataEditor(KvMessage::AddPair), 0);
    form.update(Message::MetadataEditor(KvMessage::KeyInput(0, "shop".to_string())), 0);
    assert!(form.submittable());
    match form.update(Message::Submit, 3600) {
        Action::Submit(d) => {
            assert_eq!(d.id, None);
            assert_eq!(d.amount, "12.50");
            assert_eq!(d.title, "Groceries");
            assert_eq!(d.description, None);
            assert!(d.source.same_as(&SelectedAccount::Account(2)));
            assert!(d.destination.same_as(&SelectedAccount::New("Market".to_string())));
            assert_eq!(d.budget, Some((1, Sign::Negative)));
            assert_eq!(
                d.date,
                OffsetDateTime { date: Date { year: 2024, month: 1, day: 2 }, time: Time { hour: 18, minute: 0, second: 0 }, offset: 3600 }
            );
            assert_eq!(d.metadata, vec![("shop".to_string(), String::new())]);
            assert_eq!(d.categories, vec![(7, Sign::Positive), (8, Sign::Negative)]);
        }
        _ => panic!("a submit describes the transaction"),
    }
    assert!(form.submitted());
    assert!(matches!(form.update(Message::Cancel, 0), Action::Cancel));
    assert!(matches!(form.update(Message::TransactionCreated(9), 0), Action::TransactionCreated(9)));
}

#[test]
fn categories_toggle() {
    let mut form = filled_form();
    form.update(Message::SelectCategory(7), 0);
    form.update(Message::SelectCategory(7), 0);
    form.update(Message::SelectCategory(9), 0);
    form.update(Message::ChangeSelectedCategorySign(5, Sign::Negative), 0);
    match form.update(Message::Submit, 0) {
        Action::Submit(d) => assert_eq!(d.categories, vec![(9, Sign::Positive)]),
        _ => panic!("a submit describes the transaction"),
    }
}

#[test]
fn budget_sign_needs_a_budget() {
    let mut form = filled_form();
    form.update(Message::BudgetSignChange(true), 0);
    form.update(Message::BudgetSelected(4), 0);
    match form.update(Message::Submit, 0) {
        Action::Submit(d) => assert_eq!(d.budget, Some((4, Sign::Positive))),
        _ => panic!("a submit describes the transaction"),
    }
    form.update(Message::ClearBudget, 0);
    match form.update(Message::Submit, 0) {
        Action::Submit(d) => assert_eq!(d.budget, None),
        _ => panic!("a submit describes the transaction"),
    }
}

#[test]
fn editing_an_existing_transaction() {
    let mut form = CreateTransaction::new();
    form.update(
        Message::InitializeFromExisting(InitExisting {
            transaction: TransactionData {
                id: 42,
                amount: "-7.5".to_string(),
                title: "Fuel".to_string(),
                description: Some("car".to_string()),
                budget: Some((5, Sign::Negative)),
                date: OffsetDateTime { date: Date { year: 2023, month: 8, day: 9 }, time: Time { hour: 10, minute: 11, second: 12 }, offset: 0 },
                metadata: vec![("k".to_string(), "v".to_string())],
                categories: vec![(3, Sign::Positive)],
            },
            source: 1,
            destination: 2,
            budget: Some(5),
            budgets: vec![named(5, "b")],
            accounts: vec![named(1, "x"), named(2, "y")],
            available_categories: vec![named(3, "c")],
        }),
        0,
    );
    assert!(form.submittable());
    match form.update(Message::Submit, 0) {
        Action::Submit(d) => {
            assert_eq!(d.id, Some(42));
            assert_eq!(d.amount, "-7.5");
            assert_eq!(d.title, "Fuel");
            assert_eq!(d.description, Some("car".to_string()));
            assert!(d.source.same_as(&SelectedAccount::Account(1)));
            assert!(d.destination.same_as(&SelectedAccount::Account(2)));
            assert_eq!(d.budget, Some((5, Sign::Negative)));
            assert_eq!(d.date.time, Time { hour: 10, minute: 11, second: 0 });
            assert_eq!(d.metadata, vec![("k".to_string(), "v".to_string())]);
            assert_eq!(d.categories, vec![(3, Sign::Positive)]);
        }
        _ => panic!("a submit describes the transaction"),
    }
    assert!(matches!(form.update(Message::Cancel, 0), Action::CancelWithId(42)));
    assert!(matches!(form.update(Message::ToggleMetadataEditor, 0), Action::Nothing));
}

#[test]
fn selected_category_toggled_twice_is_selected_again() {
    let mut form = filled_form();
    form.update(Message::SelectCategory(7), 0);
    form.update(Message::ChangeSelectedCategorySign(7, Sign::Negative), 0);
    form.update(Message::SelectCategory(3), 0);
    form.update(Message::SelectCategory(7), 0);
    form.update(Message::SelectCategory(7), 0);
    match form.update(Message::Submit, 0) {
        Action::Submit(d) => assert_eq!(d.categories, vec![(3, Sign::Positive), (7, Sign::Positive)]),
        _ => panic!("a submit describes the transaction"),
    }
}
