//! When the forms for transactions, bills, accounts and categories can be
//! submitted.

use vstd::prelude::*;
use crate::currency_input::CurrencyInput;
use crate::inputs::date_time_input::{self, input_date_time};
use crate::number::is_number_text;
use crate::validation_text_input::{ValidationTextInput, input_error};

verus! {

/// Whether an amount counts as it is or negated (for a budget, a category
/// or a bill).
#[derive(Clone, Copy, Debug, PartialEq, Eq, Structural)]
pub enum Sign {
    Positive,
    Negative,
}

/// The account chosen as source or destination of a transaction: an
/// existing account (by id) or a new one to be created with this name.
#[derive(Clone, Debug)]
pub enum SelectedAccount {
    Account(u64),
    New(String),
}

/// The abstract value of a chosen account.
pub enum SelectedAccountView {
    Account(u64),
    New(Seq<char>),
}

impl View for SelectedAccount {
    type V = SelectedAccountView;

    open spec fn view(&self) -> SelectedAccountView {
        match self {
            SelectedAccount::Account(id) => SelectedAccountView::Account(*id),
            SelectedAccount::New(name) => SelectedAccountView::New(name@),
        }
    }
}

impl SelectedAccount {
    /// True for an account that is still to be created.
    pub fn is_new(&self) -> (r: bool)
        ensures
            r == (self@ is New),
    {
        match self {
            SelectedAccount::New(_) => true,
            SelectedAccount::Account(_) => false,
        }
    }

    /// A copy of this choice.
    pub fn copy(&self) -> (r: SelectedAccount)
        ensures
            r@ == self@,
    {
        match self {
            SelectedAccount::Account(id) => SelectedAccount::Account(*id),
            SelectedAccount::New(name) => SelectedAccount::New(name.clone()),
        }
    }

    /// True when both choices are the same account.
    pub fn same_as(&self, other: &SelectedAccount) -> (r: bool)
        ensures
            r == (self@ == other@),
    {
        match (self, other) {
            (SelectedAccount::Account(a), SelectedAccount::Account(b)) => *a == *b,
            (SelectedAccount::New(a), SelectedAccount::New(b)) => a.eq(b),
            _ => false,
        }
    }
}

/// The abstract value of an optional chosen account.
pub open spec fn choice_view(c: Option<SelectedAccount>) -> Option<SelectedAccountView> {
    match c {
        Some(a) => Some(a@),
        None => None,
    }
}

/// True when a transaction can be submitted: its title is valid, its amount
/// is a number, its date and time are given, at least one of source and
/// destination is chosen, and when both are, they are not both new and not
/// the same.
pub open spec fn transaction_submittable_spec(
    title_ok: bool,
    amount: Seq<char>,
    date_given: bool,
    source: Option<SelectedAccountView>,
    destination: Option<SelectedAccountView>,
) -> bool {
    &&& title_ok
    &&& is_number_text(amount)
    &&& date_given
    &&& !(source is None && destination is None)
    &&& match (source, destination) {
        (Some(s), Some(d)) => !(s is New && d is New) && s != d,
        _ => true,
    }
}

/// Whether the create-transaction form can be submitted.
pub fn transaction_submittable(
    title_input: &ValidationTextInput,
    amount_input: &CurrencyInput,
    date_input: &date_time_input::State,
    source_input: &Option<SelectedAccount>,
    destination_input: &Option<SelectedAccount>,
) -> (r: bool)
    ensures
        r == transaction_submittable_spec(
            input_error(title_input@.validation, title_input@.required, title_input@.content) is None,
            amount_input@.content,
            input_date_time(date_input@) is Some,
            choice_view(*source_input),
            choice_view(*destination_input),
        ),
{
    // check if title is given
    if !title_input.is_valid() {
        return false;
    }
    // check if amount is a valid currency
    if amount_input.currency().is_none() {
        return false;
    }
    // check if date is empty
    if date_input.datetime().is_none() {
        return false;
    }
    // check if source and destination are empty
    if source_input.is_none() && destination_input.is_none() {
        return false;
    }
    // check if source and destination are valid
    match (source_input, destination_input) {
        (Some(source), Some(destination)) => {
            if source.is_new() && destination.is_new() {
                return false;
            }
            if source.same_as(destination) {
                return false;
            }
        },
        _ => {},
    }
    true
}

/// Whether the create-bill form can be submitted: it has a name and its
/// value is a number.
pub fn bill_submittable(name_input: &String, value: &CurrencyInput) -> (r: bool)
    ensures
        r == (name_input@.len() > 0 && is_number_text(value@.content)),
{
    !name_input.as_str().is_empty() && value.currency().is_some()
}

/// Whether the create-asset-account form can be submitted: it has a name
/// and its offset is a number.
pub fn asset_account_submittable(name_input: &String, offset_input: &CurrencyInput) -> (r: bool)
    ensures
        r == (name_input@.len() > 0 && is_number_text(offset_input@.content)),
{
    if name_input.as_str().is_empty() {
        return false;
    }
    if offset_input.currency().is_none() {
        return false;
    }
    true
}

/// Whether the create-book-checking-account form can be submitted: it has a
/// name.
pub fn book_checking_account_submittable(name_input: &String) -> (r: bool)
    ensures
        r == (name_input@.len() > 0),
{
    !name_input.as_str().is_empty()
}

/// Whether a path is fit for an SQLite database, from what the file system
/// says of it: not a directory; an existing file; or else a new file in an
/// existing directory (`parent_is_dir` is `None` when the path has no
/// parent).
pub fn valid_sqlite_path(is_dir: bool, is_file: bool, parent_is_dir: Option<bool>) -> (r: bool)
    ensures
        r == (!is_dir && (is_file || parent_is_dir == Some(true))),
{
    if is_dir {
        return false;
    }
    if is_file {
        return true;
    }
    if let Some(parent) = parent_is_dir {
        return parent;
    }
    false
}

} // verus!
