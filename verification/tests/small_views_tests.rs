use finance_manager::client::Client;
use finance_manager::config::{get_config_file, CONFIG_DIR_NAME};
use finance_manager::error::{error_chain_string, error_chain_text};
use finance_manager::heading::HeadingLevel;
use finance_manager::importer::{Action as StartAction, Message as StartMessage, Start};
use finance_manager::key_value_editor::{KeyValueEditor, Message as KvMessage};
use finance_manager::scrollable::{Direction, Placement};
use finance_manager::sidebar::{Action as SidebarAction, Message as SidebarMessage, Sidebar};

#[test]
fn scroll_directions() {
    assert!(Direction::Vertical.vertical() && !Direction::Vertical.horizontal());
    assert!(!Direction::Horizontal.vertical() && Direction::Horizontal.horizontal());
    assert!(Direction::Both.vertical() && Direction::Both.horizontal());
    assert_eq!(Direction::default(), Direction::Vertical);
    assert_eq!(Placement::default(), Placement::End);
}

#[test]
fn heading_sizes() {
    let increases: Vec<u8> = [HeadingLevel::H1, HeadingLevel::H2, HeadingLevel::H3, HeadingLevel::H4, HeadingLevel::H5, HeadingLevel::H6]
        .iter()
        .map(|h| h.text_size_increase())
        .collect();
    assert_eq!(increases, vec![20, 15, 10, 5, 3, 1]);
}

#[test]
fn config_files() {
    assert_eq!(get_config_file("sidebar"), vec!["finance_manager".to_string(), "sidebar.json".to_string()]);
    assert_eq!(CONFIG_DIR_NAME, "finance_manager");
}

#[test]
fn sidebar_collapses_and_switches() {
    let mut sidebar = Sidebar::new();
    assert!(!sidebar.collapsed());
    assert_eq!(sidebar.update(SidebarMessage::Collapse(true)), SidebarAction::SaveCollapsed(true));
    assert!(sidebar.collapsed());
    assert_eq!(sidebar.update(SidebarMessage::BudgetOverview), SidebarAction::SwitchToBudgetOverview);
    assert_eq!(sidebar.update(SidebarMessage::License), SidebarAction::SwitchToLicense);
    assert_eq!(sidebar.update(SidebarMessage::CreateTransaction), SidebarAction::CreateTransaction);
    assert!(sidebar.collapsed());
}

#[test]
fn importer_start_needs_a_file() {
    let mut start = Start::default();
    assert!(!start.can_start());
    assert!(matches!(start.update(StartMessage::StartImport), StartAction::Nothing));
    assert!(matches!(start.update(StartMessage::PickFile), StartAction::PickFile));
    assert!(matches!(start.update(StartMessage::FilePicked("/tmp/a.csv".to_string())), StartAction::Nothing));
    assert!(start.can_start());
    assert_eq!(start.selected_file().as_deref(), Some("/tmp/a.csv"));
    match start.update(StartMessage::StartImport) {
        StartAction::StartImport(path) => assert_eq!(path, "/tmp/a.csv"),
        _ => panic!("a picked file is imported"),
    }
}

#[test]
fn key_value_pairs() {
    let mut editor = KeyValueEditor::new(vec![("a".to_string(), "1".to_string())]);
    editor.update(KvMessage::AddPair);
    editor.update(KvMessage::KeyInput(1, "b".to_string()));
    editor.update(KvMessage::ValueInput(1, "2\n3".to_string()));
    editor.update(KvMessage::KeyInput(5, "ignored".to_string()));
    editor.update(KvMessage::DeletePair(0));
    assert_eq!(
        editor.pairs(),
        vec![("a".to_string(), "1".to_string()), ("b".to_string(), "2\n3".to_string())]
    );
    assert!(KeyValueEditor::default().pairs().is_empty());
}

#[test]
fn error_reports() {
    assert_eq!(error_chain_text(&vec!["disk full".to_string()]), "Error: disk full\n");
    assert_eq!(
        error_chain_text(&vec!["save failed".to_string(), "disk full".to_string(), "io".to_string()]),
        "Error: save failed\n\nCaused by:\n\tdisk full\nCaused by:\n\tio"
    );
    let error = anyhow::Error::msg("disk full").context("could not save");
    assert_eq!(error_chain_string(error), "Error: could not save\n\nCaused by:\n\tdisk full");
    assert_eq!(error_chain_string(anyhow::Error::msg("plain")), "Error: plain\n");
}

#[test]
fn client_endpoints() {
    let client = Client::new(("http://localhost:8080".to_string(), "1234".to_string()));
    assert_eq!(client.url(), "http://localhost:8080");
    assert_eq!(client.token(), "1234");
    assert_eq!(client.endpoint("get_accounts"), "http://localhost:8080/get_accounts");
}
