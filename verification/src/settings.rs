//! The settings of the program and the settings page that edits them.

use vstd::prelude::*;
use crate::validation_text_input::{InputView, Validation, ValidationTextInput, input_error};
use crate::text::{signed_decimal, signed_decimal_text};

verus! {

/// Which store of finances the program uses.
#[derive(Clone, Copy, Debug, PartialEq, Eq, Structural)]
pub enum SelectedFinanceManager {
    /// Kept in memory only (the default).
    Ram,
    /// An SQLite database file.
    SQLite,
    /// A server of this program.
    Server,
}

/// The settings of the store of finances.
#[derive(Clone, Debug)]
pub struct FinanceManager {
    pub sqlite_path: String,
    pub server_url: String,
    pub server_token: String,
    pub selected_finance_manager: SelectedFinanceManager,
}

/// All settings.
#[derive(Clone, Debug)]
pub struct Settings {
    pub finance_manager: FinanceManager,
    /// The offset from UTC in seconds that dates are entered and shown in.
    pub utc_seconds_offset: i32,
}

impl FinanceManager {
    /// Empty paths, url and token; the store in memory.
    pub fn default() -> (r: Self)
        ensures
            r.sqlite_path@.len() == 0 && r.server_url@.len() == 0 && r.server_token@.len() == 0,
            r.selected_finance_manager == SelectedFinanceManager::Ram,
    {
        FinanceManager {
            sqlite_path: String::new(),
            server_url: String::new(),
            server_token: String::new(),
            selected_finance_manager: SelectedFinanceManager::Ram,
        }
    }
}

impl Settings {
    /// The default settings at the local offset from UTC
    /// (`local_offset`, `None` when it cannot be found: then 0).
    pub fn default_with_offset(local_offset: Option<i32>) -> (r: Self)
        ensures
            r.finance_manager.sqlite_path@.len() == 0,
            r.finance_manager.server_url@.len() == 0,
            r.finance_manager.server_token@.len() == 0,
            r.finance_manager.selected_finance_manager == SelectedFinanceManager::Ram,
            r.utc_seconds_offset == (match local_offset { Some(o) => o, None => 0 }),
    {
        Settings {
            finance_manager: FinanceManager::default(),
            utc_seconds_offset: match local_offset {
                Some(o) => o,
                None => 0,
            },
        }
    }
}

/// How the program's store of finances changes when settings are applied.
pub enum ManagerChange {
    /// Keep the current store (it is already the one in memory).
    Keep,
    /// Start a new store in memory.
    UseRam,
    /// Open the SQLite database at this path; when that fails, the settings
    /// are not applied.
    OpenSqlite(String),
    /// Connect to the server at this url with this token.
    ConnectServer { url: String, token: String },
}

/// Which store applying `settings` leads to, when the current store is
/// `current_is_ram` in memory or not: a store in memory is kept, any other
/// choice is opened anew.
pub fn manager_change(current_is_ram: bool, settings: &Settings) -> (r: ManagerChange)
    ensures
        match settings.finance_manager.selected_finance_manager {
            SelectedFinanceManager::Ram => if current_is_ram { r is Keep } else { r is UseRam },
            SelectedFinanceManager::SQLite => r matches ManagerChange::OpenSqlite(p) && p@ == settings.finance_manager.sqlite_path@,
            SelectedFinanceManager::Server => r matches ManagerChange::ConnectServer { url, token }
                && url@ == settings.finance_manager.server_url@ && token@ == settings.finance_manager.server_token@,
        },
{
    match settings.finance_manager.selected_finance_manager {
        SelectedFinanceManager::Ram => if current_is_ram { ManagerChange::Keep } else { ManagerChange::UseRam },
        SelectedFinanceManager::SQLite => ManagerChange::OpenSqlite(settings.finance_manager.sqlite_path.clone()),
        SelectedFinanceManager::Server => ManagerChange::ConnectServer {
            url: settings.finance_manager.server_url.clone(),
            token: settings.finance_manager.server_token.clone(),
        },
    }
}

/// What the program does once it tried to apply new settings.
pub enum ApplyAction {
    /// The settings are in force: store them.
    Store,
    /// The SQLite database could not be opened: the settings in force stay,
    /// the settings page is marked as having unsaved changes, and the user is
    /// told that the path is invalid.
    RejectSqlitePath,
}

/// The settings in force after applying `new` over `current`, where
/// `sqlite_opened` says whether the database of `new` could be opened (it
/// matters only when `new` chooses SQLite): a database that failed to open
/// keeps `current`, anything else puts `new` in force.
pub fn apply_settings(current: Settings, new: Settings, sqlite_opened: bool) -> (r: (Settings, ApplyAction))
    ensures
        new.finance_manager.selected_finance_manager == SelectedFinanceManager::SQLite && !sqlite_opened
            ==> r.0 == current && r.1 is RejectSqlitePath,
        !(new.finance_manager.selected_finance_manager == SelectedFinanceManager::SQLite && !sqlite_opened)
            ==> r.0 == new && r.1 is Store,
{
    let failed = match new.finance_manager.selected_finance_manager {
        SelectedFinanceManager::SQLite => !sqlite_opened,
        _ => false,
    };
    if failed {
        (current, ApplyAction::RejectSqlitePath)
    } else {
        (new, ApplyAction::Store)
    }
}

/// What the user can do on the settings page.
pub enum Message {
    ChangeAPIUrl(String),
    ChangeAPIToken(String),
    ChangeSqlitePath(String),
    FmChoice(SelectedFinanceManager),
    /// The user typed this offset; `parsed` is its value as a whole number
    /// of seconds when it is a number.
    TimeZoneInput { text: String, parsed: Option<i32> },
    Save,
}

/// What the owner of the settings page has to do after an action.
pub enum Action {
    Nothing,
    /// Apply and store these settings.
    ApplySettings(Settings),
}

/// The abstract state of the settings page.
pub struct SettingsPageView {
    pub settings: Settings,
    /// The url input, as the page was opened.
    pub api_url: InputView,
    /// The token input, as the page was opened.
    pub api_token: InputView,
    pub time_zone: InputView,
    pub unsaved: bool,
}

/// The settings page: the settings being edited, the offset input and
/// whether there are unsaved changes.
pub struct SettingsView {
    settings: Settings,
    api_url: ValidationTextInput,
    api_token: ValidationTextInput,
    time_zone_input: ValidationTextInput,
    unsaved: bool,
}

impl View for SettingsView {
    type V = SettingsPageView;

    closed spec fn view(&self) -> SettingsPageView {
        SettingsPageView {
            settings: self.settings,
            api_url: self.api_url@,
            api_token: self.api_token@,
            time_zone: self.time_zone_input@,
            unsaved: self.unsaved,
        }
    }
}

/// What [`SettingsView::update`] does: `old` becomes `new` and `r` is returned.
pub open spec fn update_post(old: SettingsView, message: Message, new: SettingsView, r: Action) -> bool {
    &&& match message {
            Message::ChangeAPIUrl(url) => r is Nothing && new@ == (SettingsPageView {
                settings: Settings {
                    finance_manager: FinanceManager { server_url: url, ..old@.settings.finance_manager },
                    ..old@.settings
                },
                unsaved: true,
                ..old@
            }),
            Message::ChangeAPIToken(token) => r is Nothing && new@ == (SettingsPageView {
                settings: Settings {
                    finance_manager: FinanceManager { server_token: token, ..old@.settings.finance_manager },
                    ..old@.settings
                },
                unsaved: true,
                ..old@
            }),
            Message::ChangeSqlitePath(path) => r is Nothing && new@ == (SettingsPageView {
                settings: Settings {
                    finance_manager: FinanceManager { sqlite_path: path, ..old@.settings.finance_manager },
                    ..old@.settings
                },
                unsaved: true,
                ..old@
            }),
            Message::FmChoice(choice) => r is Nothing && new@ == (SettingsPageView {
                settings: Settings {
                    finance_manager: FinanceManager { selected_finance_manager: choice, ..old@.settings.finance_manager },
                    ..old@.settings
                },
                unsaved: true,
                ..old@
            }),
            Message::Save => new@ == (SettingsPageView { unsaved: false, ..old@ })
                && (r matches Action::ApplySettings(s) && s.utc_seconds_offset == old@.settings.utc_seconds_offset
                && s.finance_manager.selected_finance_manager == old@.settings.finance_manager.selected_finance_manager
                && s.finance_manager.server_url@ == old@.settings.finance_manager.server_url@
                && s.finance_manager.server_token@ == old@.settings.finance_manager.server_token@
                && s.finance_manager.sqlite_path@ == old@.settings.finance_manager.sqlite_path@),
            Message::TimeZoneInput { text, parsed } => r is Nothing && new@.time_zone == (InputView {
                content: text@,
                error: input_error(old@.time_zone.validation, old@.time_zone.required, text@),
                input_changed: true,
                ..old@.time_zone
            }) && match parsed {
                Some(n) => new@.unsaved && new@.settings == Settings { utc_seconds_offset: n, ..old@.settings },
                None => new@.unsaved == old@.unsaved && new@.settings == old@.settings,
            },
        }
}

impl SettingsView {
    /// A page editing `settings`: its offset input shows the offset as a
    /// number and must hold one; the url and token inputs show the stored
    /// url and token.
    pub fn new(settings: Settings) -> (r: Self)
        ensures
            r@.settings == settings,
            r@.time_zone.content == signed_decimal(settings.utc_seconds_offset as int),
            r@.time_zone.validation == Validation::NonEmptyNumber,
            !r@.time_zone.required && !r@.time_zone.input_changed,
            r@.time_zone.error == input_error(Validation::NonEmptyNumber, false, signed_decimal(settings.utc_seconds_offset as int)),
            r@.api_url == (InputView {
                content: settings.finance_manager.server_url@,
                validation: Validation::Anything,
                error: None,
                input_changed: false,
                required: false,
            }),
            r@.api_token == (InputView {
                content: settings.finance_manager.server_token@,
                validation: Validation::Anything,
                error: None,
                input_changed: false,
                required: false,
            }),
            !r@.unsaved,
    {
        let offset_text = signed_decimal_text(settings.utc_seconds_offset);
        SettingsView {
            time_zone_input: ValidationTextInput::new(offset_text).validation(Validation::NonEmptyNumber),
            api_url: ValidationTextInput::new(settings.finance_manager.server_url.clone()),
            api_token: ValidationTextInput::new(settings.finance_manager.server_token.clone()),
            settings,
            unsaved: false,
        }
    }

    /// The url input, showing the url the page was opened with.
    pub fn api_url_input(&self) -> (r: &ValidationTextInput)
        ensures
            r@ == self@.api_url,
    {
        &self.api_url
    }

    /// The token input, showing the token the page was opened with.
    pub fn api_token_input(&self) -> (r: &ValidationTextInput)
        ensures
            r@ == self@.api_token,
    {
        &self.api_token
    }

    /// Marks the page as having unsaved changes.
    pub fn set_unsaved(&mut self)
        ensures
            final(self)@ == (SettingsPageView { unsaved: true, ..old(self)@ }),
    {
        self.unsaved = true;
    }

    /// True when the settings can be saved: the offset input is valid.
    pub fn savable(&self) -> (r: bool)
        ensures
            r == (input_error(self@.time_zone.validation, self@.time_zone.required, self@.time_zone.content) is None),
    {
        self.time_zone_input.is_valid()
    }

    /// True when the save button is enabled: there are unsaved changes and
    /// the settings can be saved.
    pub fn save_enabled(&self) -> (r: bool)
        ensures
            r == (self@.unsaved && input_error(self@.time_zone.validation, self@.time_zone.required, self@.time_zone.content) is None),
    {
        self.unsaved && self.savable()
    }

    /// The settings being edited.
    pub fn settings(&self) -> (r: &Settings)
        ensures
            *r == self@.settings,
    {
        &self.settings
    }

    /// Applies what the user did.
    pub fn update(&mut self, message: Message) -> (r: Action)
        ensures
            update_post(*old(self), message, *final(self), r),

    {
        match message {
            Message::ChangeAPIUrl(url) => {
                self.settings.finance_manager.server_url = url;
                self.unsaved = true;
            },
            Message::ChangeAPIToken(token) => {
                self.settings.finance_manager.server_token = token;
                self.unsaved = true;
            },
            Message::ChangeSqlitePath(path) => {
                self.settings.finance_manager.sqlite_path = path;
                self.unsaved = true;
            },
            Message::FmChoice(new_selected) => {
                self.settings.finance_manager.selected_finance_manager = new_selected;
                self.unsaved = true;
            },
            Message::Save => {
                self.unsaved = false;
                let s = Settings {
                    finance_manager: FinanceManager {
                        sqlite_path: self.settings.finance_manager.sqlite_path.clone(),
                        server_url: self.settings.finance_manager.server_url.clone(),
                        server_token: self.settings.finance_manager.server_token.clone(),
                        selected_finance_manager: self.settings.finance_manager.selected_finance_manager,
                    },
                    utc_seconds_offset: self.settings.utc_seconds_offset,
                };
                return Action::ApplySettings(s);
            },
            Message::TimeZoneInput { text, parsed } => {
                self.time_zone_input.edit_content(text);
                if let Some(number) = parsed {
                    self.settings.utc_seconds_offset = number;
                    self.unsaved = true;
                }
            },
        }
        Action::Nothing
    }

    /// The offset input.
    pub fn offset_input(&self) -> (r: &ValidationTextInput)
        ensures
            r@ == self@.time_zone,
    {
        &self.time_zone_input
    }
}

} // verus!
