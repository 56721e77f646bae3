//! The sidebar: a column of buttons that switch views, which can be
//! collapsed to icons.
use vstd::prelude::*;

verus! {

/// What the owner of the sidebar has to do.
#[derive(Debug, Clone, Copy, PartialEq, Eq, Structural)]
pub enum Action {
    SwitchToAssetAccountView,
    SwitchToBookCheckingAccountOverview,
    SwitchToBudgetOverview,
    SwitchToCategoryOverview,
    SwitchToFilterTransactionView,
    SwitchToSettingsView,
    SwitchToLicense,
    SwitchToBillOverview,
    CreateTransaction,
    /// Store in the sidebar's configuration whether it is collapsed.
    SaveCollapsed(bool),
}

/// What the user, or the stored configuration, tells the sidebar.
#[derive(Debug, Clone, Copy, PartialEq, Eq, Structural)]
pub enum Message {
    Collapse(bool),
    AssetAccountView,
    BookCheckingAccountOverview,
    BudgetOverview,
    CategoryOverview,
    FilterTransactionView,
    SettingsView,
    License,
    CreateTransaction,
    BillOverview,
}

/// The action that a message of the sidebar asks for.
pub open spec fn action_of(message: Message) -> Action {
    match message {
        Message::Collapse(c) => Action::SaveCollapsed(c),
        Message::AssetAccountView => Action::SwitchToAssetAccountView,
        Message::BookCheckingAccountOverview => Action::SwitchToBookCheckingAccountOverview,
        Message::BudgetOverview => Action::SwitchToBudgetOverview,
        Message::CategoryOverview => Action::SwitchToCategoryOverview,
        Message::FilterTransactionView => Action::SwitchToFilterTransactionView,
        Message::License => Action::SwitchToLicense,
        Message::SettingsView => Action::SwitchToSettingsView,
        Message::BillOverview => Action::SwitchToBillOverview,
        Message::CreateTransaction => Action::CreateTransaction,
    }
}

/// The sidebar's state: whether it shows icons only.
pub struct Sidebar {
    collapsed: bool,
}

impl Sidebar {
    /// An expanded sidebar; the stored setting arrives later as
    /// [`Message::Collapse`].
    pub fn new() -> (r: Self)
        ensures
            !r.is_collapsed(),
    {
        Sidebar { collapsed: false }
    }

    /// Whether the sidebar shows icons only.
    pub closed spec fn is_collapsed(&self) -> bool {
        self.collapsed
    }

    /// Whether the sidebar shows icons only.
    pub fn collapsed(&self) -> (r: bool)
        ensures
            r == self.is_collapsed(),
    {
        self.collapsed
    }

    /// Applies a message: a collapse sets the state and is to be stored;
    /// the others ask to switch views.
    pub fn update(&mut self, message: Message) -> (r: Action)
        ensures
            r == action_of(message),
            final(self).is_collapsed() == (match message {
                Message::Collapse(c) => c,
                _ => old(self).is_collapsed(),
            }),
    {
        match message {
            Message::Collapse(collapse) => {
                self.collapsed = collapse;
                Action::SaveCollapsed(self.collapsed)
            },
            Message::AssetAccountView => Action::SwitchToAssetAccountView,
            Message::BookCheckingAccountOverview => Action::SwitchToBookCheckingAccountOverview,
            Message::BudgetOverview => Action::SwitchToBudgetOverview,
            Message::CategoryOverview => Action::SwitchToCategoryOverview,
            Message::FilterTransactionView => Action::SwitchToFilterTransactionView,
            Message::License => Action::SwitchToLicense,
            Message::SettingsView => Action::SwitchToSettingsView,
            Message::BillOverview => Action::SwitchToBillOverview,
            Message::CreateTransaction => Action::CreateTransaction,
        }
    }
}

} // verus!
