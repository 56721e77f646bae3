//! The page that shows one transaction: its value, title, accounts, budget
//! and categories, with buttons to edit or delete it or to start a bill with
//! it, and links to its accounts, budget and categories.
use vstd::prelude::*;
use crate::add_transaction::Identified;

verus! {

/// What the user, or a finished fetch, tells the page. `T` is a transaction,
/// `D` what the page shows beside it (its accounts, budget and categories).
pub enum Message<T, D> {
    Edit,
    /// The user asks to delete the transaction.
    Delete,
    /// The user answered the question whether to delete it.
    DeleteConfirmed(bool),
    ViewAccount(u64),
    ViewBudget(u64),
    ViewCategory(u64),
    /// The transaction and what is shown beside it arrived.
    Initialize(Identified<T>, D),
    NewBill,
}

/// What the owner of the page has to do.
pub enum Action<T> {
    Nothing,
    /// Open the form that edits the transaction with this id.
    Edit(u64),
    /// Ask the user whether to delete the transaction, and hand the answer
    /// back as [`Message::DeleteConfirmed`].
    ConfirmDelete,
    /// Delete the transaction with this id.
    Delete(u64),
    ViewAccount(u64),
    ViewBudget(u64),
    ViewCategory(u64),
    /// Open the bill form with this transaction in it.
    NewBillWithTransaction(Identified<T>),
}

/// The page: nothing yet, or the transaction with what is shown beside it.
pub enum TransactionView<T, D> {
    NotLoaded,
    Loaded { transaction: Identified<T>, details: D },
}

/// What [`TransactionView::update`] does: `old` becomes `new` and `r` is returned.
pub open spec fn update_post<T: Clone, D>(old: TransactionView<T, D>, message: Message<T, D>, new: TransactionView<T, D>, r: Action<T>) -> bool {
    &&& match message {
            Message::Initialize(t, d) => r is Nothing
                && new == (TransactionView::Loaded { transaction: t, details: d }),
            Message::Edit => new == old && match old.shown_id() {
                Some(id) => r == Action::<T>::Edit(id),
                None => r is Nothing,
            },
            Message::Delete => new == old && r is ConfirmDelete,
            Message::DeleteConfirmed(yes) => new == old && match old.shown_id() {
                Some(id) => if yes { r == Action::<T>::Delete(id) } else { r is Nothing },
                None => r is Nothing,
            },
            Message::NewBill => new == old && match old {
                TransactionView::Loaded { transaction, .. } => (r matches Action::NewBillWithTransaction(n)
                    && n.id == transaction.id && cloned(transaction.item, n.item)),
                TransactionView::NotLoaded => r is Nothing,
            },
            Message::ViewAccount(id) => new == old && r == Action::<T>::ViewAccount(id),
            Message::ViewBudget(id) => new == old && r == Action::<T>::ViewBudget(id),
            Message::ViewCategory(id) => new == old && r == Action::<T>::ViewCategory(id),
        }
}

impl<T: Clone, D> TransactionView<T, D> {
    /// The id of the transaction shown, if one is.
    pub open spec fn shown_id(self) -> Option<u64> {
        match self {
            TransactionView::Loaded { transaction, .. } => Some(transaction.id),
            TransactionView::NotLoaded => None,
        }
    }

    /// The page before the data has arrived.
    pub fn fetch() -> (r: Self)
        ensures
            r is NotLoaded,
    {
        TransactionView::NotLoaded
    }

    /// Applies a message and says what the owner has to do. Edit, delete and
    /// a new bill act on the transaction shown, and do nothing before one is.
    pub fn update(&mut self, message: Message<T, D>) -> (r: Action<T>)
        ensures
            update_post(*old(self), message, *final(self), r),

    {
        match message {
            Message::Initialize(t, d) => {
                *self = TransactionView::Loaded { transaction: t, details: d };
                Action::Nothing
            },
            Message::Edit => match self {
                TransactionView::Loaded { transaction, .. } => Action::Edit(transaction.id),
                TransactionView::NotLoaded => Action::Nothing,
            },
            Message::Delete => Action::ConfirmDelete,
            Message::DeleteConfirmed(yes) => {
                if !yes {
                    return Action::Nothing;
                }
                match self {
                    TransactionView::Loaded { transaction, .. } => Action::Delete(transaction.id),
                    TransactionView::NotLoaded => Action::Nothing,
                }
            },
            Message::NewBill => match self {
                TransactionView::Loaded { transaction, .. } => Action::NewBillWithTransaction(
                    Identified { id: transaction.id, item: transaction.item.clone() },
                ),
                TransactionView::NotLoaded => Action::Nothing,
            },
            Message::ViewAccount(id) => Action::ViewAccount(id),
            Message::ViewBudget(id) => Action::ViewBudget(id),
            Message::ViewCategory(id) => Action::ViewCategory(id),
        }
    }
}

} // verus!
