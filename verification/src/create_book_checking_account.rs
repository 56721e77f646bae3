//! The form that creates a book-checking account (an account outside the
//! user's control) or edits an existing one.
use vstd::prelude::*;
use crate::create_asset_account::{text_or_empty, unless_empty};
use crate::forms::book_checking_account_submittable;
use crate::text::{is_blank, text_is_blank};

verus! {

/// An existing book-checking account as the form reads it.
pub struct BookCheckingAccountData {
    pub id: u64,
    pub name: String,
    pub note: Option<String>,
    /// The IBAN as it is written.
    pub iban: Option<String>,
    pub bic: Option<String>,
}

/// What the user, or a finished fetch, tells the form.
pub enum Message {
    NameInput(String),
    /// The note now reads this text (the text of its multi-line editor after
    /// the user's edit).
    NoteInput(String),
    IbanInput(String),
    BicInput(String),
    Submit,
    Initialize(BookCheckingAccountData),
    AccountCreated(u64),
    Cancel,
}

/// The account that a submitted form describes.
pub struct BookCheckingAccountDraft {
    /// The id of the account being edited; none for a new one.
    pub id: Option<u64>,
    pub name: String,
    /// None when the note is blank.
    pub note: Option<String>,
    /// The IBAN as typed (to be read as an IBAN); none when empty.
    pub iban: Option<String>,
    /// None when empty.
    pub bic: Option<String>,
}

/// What the owner of the form has to do.
pub enum Action {
    Nothing,
    /// Show the account with this id.
    AccountCreated(u64),
    /// Create (or, with an id, update) the account, and hand its id back as
    /// [`Message::AccountCreated`].
    Submit(BookCheckingAccountDraft),
    Cancel,
    CancelWithId(u64),
}

/// The abstract state of the form.
pub struct BookCheckingAccountView {
    pub id: Option<u64>,
    pub name: Seq<char>,
    pub note: Seq<char>,
    pub iban: Seq<char>,
    pub bic: Seq<char>,
    pub submitted: bool,
}

/// The form's state.
pub struct CreateBookCheckingAccount {
    id: Option<u64>,
    name_input: String,
    note_input: String,
    iban_input: String,
    bic_input: String,
    submitted: bool,
}

impl View for CreateBookCheckingAccount {
    type V = BookCheckingAccountView;

    closed spec fn view(&self) -> BookCheckingAccountView {
        BookCheckingAccountView {
            id: self.id,
            name: self.name_input@,
            note: self.note_input@,
            iban: self.iban_input@,
            bic: self.bic_input@,
            submitted: self.submitted,
        }
    }
}

/// A copy of a field that may be left empty: none when it is.
fn optional_text(s: &String) -> (r: Option<String>)
    ensures
        unless_empty(s@, r),
{
    if s.as_str().is_empty() {
        None
    } else {
        Some(s.clone())
    }
}

/// What [`CreateBookCheckingAccount::update`] does: `old` becomes `new` and `r` is returned.
pub open spec fn update_post(old: CreateBookCheckingAccount, message: Message, new: CreateBookCheckingAccount, r: Action) -> bool {
    &&& match message {
            Message::Cancel => new@ == old@ && match old@.id {
                Some(id) => r == Action::CancelWithId(id),
                None => r is Cancel,
            },
            Message::AccountCreated(id) => new@ == old@ && r == Action::AccountCreated(id),
            Message::Initialize(a) => r is Nothing && new@ == (BookCheckingAccountView {
                id: Some(a.id),
                name: a.name@,
                note: text_or_empty(a.note),
                iban: text_or_empty(a.iban),
                bic: text_or_empty(a.bic),
                ..old@
            }),
            Message::NameInput(t) => r is Nothing && new@ == (BookCheckingAccountView { name: t@, ..old@ }),
            Message::NoteInput(t) => r is Nothing && new@ == (BookCheckingAccountView { note: t@, ..old@ }),
            Message::IbanInput(t) => r is Nothing && new@ == (BookCheckingAccountView { iban: t@, ..old@ }),
            Message::BicInput(t) => r is Nothing && new@ == (BookCheckingAccountView { bic: t@, ..old@ }),
            Message::Submit => {
                &&& new@ == (BookCheckingAccountView { submitted: true, ..old@ })
                &&& r matches Action::Submit(d) && {
                    &&& d.id == old@.id
                    &&& d.name@ == old@.name
                    &&& (if is_blank(old@.note) { d.note is None } else { d.note matches Some(t) && t@ == old@.note })
                    &&& unless_empty(old@.iban, d.iban)
                    &&& unless_empty(old@.bic, d.bic)
                }
            },
        }
}

impl CreateBookCheckingAccount {
    /// An empty form for a new account.
    pub fn new() -> (r: Self)
        ensures
            r@ == (BookCheckingAccountView {
                id: None,
                name: Seq::empty(),
                note: Seq::empty(),
                iban: Seq::empty(),
                bic: Seq::empty(),
                submitted: false,
            }),
    {
        CreateBookCheckingAccount {
            id: None,
            name_input: String::new(),
            note_input: String::new(),
            iban_input: String::new(),
            bic_input: String::new(),
            submitted: false,
        }
    }

    /// Whether the form can be submitted: it has a name.
    pub fn can_submit(&self) -> (r: bool)
        ensures
            r == (self@.name.len() > 0),
    {
        book_checking_account_submittable(&self.name_input)
    }

    /// Applies a message and says what the owner has to do.
    pub fn update(&mut self, message: Message) -> (r: Action)
        ensures
            update_post(*old(self), message, *final(self), r),

    {
        match message {
            Message::AccountCreated(id) => Action::AccountCreated(id),
            Message::Initialize(account) => {
                let BookCheckingAccountData { id, name, note, iban, bic } = account;
                self.id = Some(id);
                self.name_input = name;
                self.note_input = match note {
                    Some(n) => n,
                    None => String::new(),
                };
                self.iban_input = match iban {
                    Some(i) => i,
                    None => String::new(),
                };
                self.bic_input = match bic {
                    Some(b) => b,
                    None => String::new(),
                };
                Action::Nothing
            },
            Message::NameInput(input) => {
                self.name_input = input;
                Action::Nothing
            },
            Message::NoteInput(input) => {
                self.note_input = input;
                Action::Nothing
            },
            Message::IbanInput(input) => {
                self.iban_input = input;
                Action::Nothing
            },
            Message::BicInput(input) => {
                self.bic_input = input;
                Action::Nothing
            },
            Message::Submit => {
                self.submitted = true;
                let note = if text_is_blank(self.note_input.as_str()) {
                    None
                } else {
                    Some(self.note_input.clone())
                };
                Action::Submit(BookCheckingAccountDraft {
                    id: self.id,
                    name: self.name_input.clone(),
                    note,
                    iban: optional_text(&self.iban_input),
                    bic: optional_text(&self.bic_input),
                })
            },
            Message::Cancel => match self.id {
                Some(id) => Action::CancelWithId(id),
                None => Action::Cancel,
            },
        }
    }
}

} // verus!
