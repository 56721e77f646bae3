use finance_manager::budget::{self, try_recurring_from_state, Recurring, RecurringError};
use finance_manager::create_budget::{Action as BudgetFormAction, BudgetData, CreateBudget, Message as BudgetFormMessage};
use finance_manager::date_time::{Date, DateTime, OffsetDateTime, Time};
use finance_manager::forms::{book_checking_account_submittable, valid_sqlite_path, SelectedAccount};
use finance_manager::inputs::date_input::Action as DateAction;
use finance_manager::inputs::date_time_input::{self, Action as DateTimeAction};
use finance_manager::inputs::time_input::Message as TimeMessage;
use finance_manager::settings::{
    manager_change, Action as SettingsAction, ManagerChange, Message as SettingsMessage, SelectedFinanceManager,
    Settings, SettingsView,
};

#[test]
fn chosen_accounts() {
    let new = SelectedAccount::New("Shop".to_string());
    let existing = SelectedAccount::Account(3);
    assert!(new.is_new());
    assert!(!existing.is_new());
    assert!(new.same_as(&new.copy()));
    assert!(!new.same_as(&existing));
    assert!(existing.same_as(&SelectedAccount::Account(3)));
    assert!(!existing.same_as(&SelectedAccount::Account(4)));
}

#[test]
fn sqlite_paths() {
    assert!(!valid_sqlite_path(true, false, Some(true)));
    assert!(valid_sqlite_path(false, true, None));
    assert!(valid_sqlite_path(false, false, Some(true)));
    assert!(!valid_sqlite_path(false, false, Some(false)));
    assert!(!valid_sqlite_path(false, false, None));
    assert!(book_checking_account_submittable(&"x".to_string()));
    assert!(!book_checking_account_submittable(&String::new()));
}

#[test]
fn settings_page() {
    let settings = Settings::default_with_offset(Some(3600));
    assert_eq!(settings.utc_seconds_offset, 3600);
    assert_eq!(Settings::default_with_offset(None).utc_seconds_offset, 0);
    let mut page = SettingsView::new(settings);
    assert_eq!(page.offset_input().value(), "3600");
    assert_eq!(page.api_url_input().value(), "");
    assert!(page.savable());
    assert!(!page.save_enabled());
    assert!(matches!(page.update(SettingsMessage::FmChoice(SelectedFinanceManager::Server)), SettingsAction::Nothing));
    page.update(SettingsMessage::ChangeAPIUrl("http://host".to_string()));
    page.update(SettingsMessage::ChangeAPIToken("tok".to_string()));
    assert!(page.save_enabled());
    page.update(SettingsMessage::TimeZoneInput { text: "x".to_string(), parsed: None });
    assert!(!page.savable());
    assert_eq!(page.offset_input().error_message().map(|s| s.as_str()), Some("invalid number"));
    page.update(SettingsMessage::TimeZoneInput { text: "-7200".to_string(), parsed: Some(-7200) });
    match page.update(SettingsMessage::Save) {
        SettingsAction::ApplySettings(s) => {
            assert_eq!(s.utc_seconds_offset, -7200);
            assert_eq!(s.finance_manager.selected_finance_manager, SelectedFinanceManager::Server);
            assert_eq!(s.finance_manager.server_url, "http://host");
            assert_eq!(s.finance_manager.server_token, "tok");
        }
        SettingsAction::Nothing => panic!("saving applies the settings"),
    }
    assert!(!page.save_enabled());
    page.set_unsaved();
    assert!(page.save_enabled());
    assert_eq!(page.settings().utc_seconds_offset, -7200);
    let reopened = SettingsView::new(page.settings().clone());
    assert_eq!(reopened.offset_input().value(), "-7200");
    assert_eq!(reopened.api_url_input().value(), "http://host");
    assert_eq!(reopened.api_token_input().value(), "tok");
}

#[test]
fn changing_the_store() {
    let mut settings = Settings::default_with_offset(None);
    assert!(matches!(manager_change(true, &settings), ManagerChange::Keep));
    assert!(matches!(manager_change(false, &settings), ManagerChange::UseRam));
    settings.finance_manager.selected_finance_manager = SelectedFinanceManager::SQLite;
    settings.finance_manager.sqlite_path = "/tmp/db.sqlite".to_string();
    match manager_change(true, &settings) {
        ManagerChange::OpenSqlite(p) => assert_eq!(p, "/tmp/db.sqlite"),
        _ => panic!("an SQLite store is opened"),
    }
    settings.finance_manager.selected_finance_manager = SelectedFinanceManager::Server;
    settings.finance_manager.server_url = "u".to_string();
    settings.finance_manager.server_token = "t".to_string();
    match manager_change(false, &settings) {
        ManagerChange::ConnectServer { url, token } => assert_eq!((url.as_str(), token.as_str()), ("u", "t")),
        _ => panic!("a server is connected"),
    }
}

#[test]
fn recurrences_from_the_input() {
    assert_eq!(try_recurring_from_state(&budget::State::DayInMonth("15".to_string()), 0), Ok(Recurring::DayInMonth(15)));
    assert_eq!(try_recurring_from_state(&budget::State::DayInMonth("32".to_string()), 0), Err(RecurringError::InvalidDay));
    assert_eq!(try_recurring_from_state(&budget::State::DayInMonth("x".to_string()), 0), Err(RecurringError::InvalidDay));
    assert_eq!(
        try_recurring_from_state(&budget::State::Yearly("12".to_string(), "24".to_string()), 0),
        Ok(Recurring::Yearly(12, 24))
    );
    assert_eq!(
        try_recurring_from_state(&budget::State::Yearly("13".to_string(), "24".to_string()), 0),
        Err(RecurringError::InvalidMonth)
    );
    assert_eq!(
        try_recurring_from_state(&budget::State::Yearly("1".to_string(), "".to_string()), 0),
        Err(RecurringError::InvalidDay)
    );
    let empty_start = date_time_input::State::default();
    assert_eq!(
        try_recurring_from_state(&budget::State::Days(empty_start, "501".to_string()), 0),
        Err(RecurringError::InvalidDays)
    );
    let empty_start = date_time_input::State::default();
    assert_eq!(
        try_recurring_from_state(&budget::State::Days(empty_start, "7".to_string()), 0),
        Err(RecurringError::MissingStart)
    );
    let mut start = date_time_input::State::default();
    start.perform(DateTimeAction::DateInput(DateAction::InputChanged("01.01.2024".to_string())));
    start.perform(DateTimeAction::TimeInput(TimeMessage::OnInput("08:00".to_string())));
    assert_eq!(
        try_recurring_from_state(&budget::State::Days(start, "+14".to_string()), 3600),
        Ok(Recurring::Days {
            start: OffsetDateTime { date: Date { year: 2024, month: 1, day: 1 }, time: Time { hour: 8, minute: 0, second: 0 }, offset: 3600 },
            days: 14,
        })
    );
}

#[test]
fn recurrence_descriptions() {
    assert_eq!(budget::State::DayInMonth("3".to_string()).describe(), "Every month on the 3th");
    assert_eq!(budget::State::Yearly("5".to_string(), "1".to_string()).describe(), "Every year on the 1th of 5");
    assert_eq!(
        budget::State::Days(date_time_input::State::default(), "7".to_string()).describe(),
        "Every 7 days starting from ERROR"
    );
    let start = date_time_input::State::new(Some(DateTime { date: Date { year: 2024, month: 2, day: 3 }, time: Time { hour: 4, minute: 5, second: 0 } }));
    assert_eq!(budget::State::Days(start, "2".to_string()).describe(), "Every 2 days starting from 03.02.2024 04:05");
}

#[test]
fn a_filled_recurrence_reads_back() {
    for r in [Recurring::DayInMonth(0), Recurring::DayInMonth(31), Recurring::Yearly(12, 31), Recurring::Yearly(2, 29)] {
        assert_eq!(try_recurring_from_state(&budget::State::from_recurring(r), 0), Ok(r));
    }
    let start = OffsetDateTime { date: Date { year: 2020, month: 6, day: 30 }, time: Time { hour: 1, minute: 2, second: 3 }, offset: 7200 };
    let r = Recurring::Days { start, days: 500 };
    assert_eq!(
        try_recurring_from_state(&budget::State::from_recurring(r), -3600),
        Ok(Recurring::Days { start: OffsetDateTime { time: Time { second: 0, ..start.time }, offset: -3600, ..start }, days: 500 })
    );
}

#[test]
fn budget_form() {
    let mut form = CreateBudget::new();
    assert!(!form.submittable());
    form.update(BudgetFormMessage::NameInput("Food".to_string()), 0);
    form.update(BudgetFormMessage::ValueInput("300".to_string()), 0);
    form.update(BudgetFormMessage::RecurringPickList("Day in month".to_string()), 0);
    assert!(!form.submittable());
    form.update(BudgetFormMessage::RecurringInput(budget::Action::FirstTextInput("1".to_string())), 0);
    assert!(form.submittable());
    match form.update(BudgetFormMessage::Submit, 0) {
        BudgetFormAction::Submit(d) => {
            assert_eq!(d.id, None);
            assert_eq!(d.name, "Food");
            assert_eq!(d.description, None);
            assert_eq!(d.value, "300");
            assert_eq!(d.recurring, Ok(Recurring::DayInMonth(1)));
        }
        _ => panic!("a submit describes the budget"),
    }
    assert!(matches!(form.update(BudgetFormMessage::Cancel, 0), BudgetFormAction::Cancel));
}

#[test]
fn editing_an_existing_budget() {
    let mut form = CreateBudget::new();
    form.update(
        BudgetFormMessage::Initialize(Some(BudgetData {
            id: 8,
            name: "Rent".to_string(),
            description: Some("flat".to_string()),
            total_value: "900".to_string(),
            timespan: Recurring::Yearly(3, 4),
        })),
        0,
    );
    assert!(form.submittable());
    form.update(BudgetFormMessage::RecurringPickList("Weekly".to_string()), 0);
    form.update(BudgetFormMessage::DescriptionInput(String::new()), 0);
    match form.update(BudgetFormMessage::Submit, 0) {
        BudgetFormAction::Submit(d) => {
            assert_eq!(d.id, Some(8));
            assert_eq!(d.name, "Rent");
            assert_eq!(d.description, None);
            assert_eq!(d.recurring, Ok(Recurring::Yearly(3, 4)));
        }
        _ => panic!("a submit describes the budget"),
    }
    assert!(matches!(form.update(BudgetFormMessage::Cancel, 0), BudgetFormAction::CancelWithId(8)));
    assert!(matches!(form.update(BudgetFormMessage::BudgetCreated(8), 0), BudgetFormAction::BudgetCreated(8)));
}
