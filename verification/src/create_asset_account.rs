//! The form that creates an asset account or edits an existing one.
use vstd::prelude::*;
use crate::currency_input::{self, CurrencyInput};
use crate::forms::asset_account_submittable;
use crate::number::{is_number_text, normalized_number_text};
use crate::text::{is_blank, text_is_blank};
use crate::validation_text_input::{InputView, Validation, input_error};

verus! {

/// An existing asset account as the form reads it.
pub struct AssetAccountData {
    pub id: u64,
    pub name: String,
    pub note: Option<String>,
    /// The IBAN as it is written.
    pub iban: Option<String>,
    pub bic: Option<String>,
    /// The offset as the currency type writes it.
    pub offset: String,
}

/// What the user, or a finished fetch, tells the form.
pub enum Message {
    NameInput(String),
    /// The note now reads this text (the text of its multi-line editor after
    /// the user's edit).
    NoteInput(String),
    IbanInput(String),
    BicInput(String),
    OffsetInput(currency_input::Action),
    Submit,
    AssetAccountCreated(u64),
    Initialize(AssetAccountData),
    Cancel,
}

/// The asset account that a submitted form describes.
pub struct AssetAccountDraft {
    /// The id of the account being edited; none for a new one.
    pub id: Option<u64>,
    pub name: String,
    /// None when the note is blank.
    pub note: Option<String>,
    /// The IBAN as typed (to be read as an IBAN); none when empty.
    pub iban: Option<String>,
    /// None when empty.
    pub bic: Option<String>,
    /// The offset, as the normalised number text.
    pub offset: String,
}

/// What the owner of the form has to do.
pub enum Action {
    Nothing,
    /// Show the account with this id.
    AssetAccountCreated(u64),
    /// Create (or, with an id, update) the account, and hand its id back as
    /// [`Message::AssetAccountCreated`].
    Submit(AssetAccountDraft),
    CancelWithId(u64),
    Cancel,
}

/// The abstract state of the form.
pub struct AssetAccountView {
    pub id: Option<u64>,
    pub name: Seq<char>,
    pub note: Seq<char>,
    pub iban: Seq<char>,
    pub bic: Seq<char>,
    pub offset: InputView,
    pub submitted: bool,
}

/// The text of an optional field; empty when there is none.
pub open spec fn text_or_empty(s: Option<String>) -> Seq<char> {
    match s {
        Some(t) => t@,
        None => Seq::empty(),
    }
}

/// The value of a text field that may be left empty.
pub open spec fn unless_empty(s: Seq<char>, d: Option<String>) -> bool {
    if s.len() == 0 { d is None } else { d matches Some(t) && t@ == s }
}

/// The form's state.
pub struct CreateAssetAccount {
    id: Option<u64>,
    name_input: String,
    note_input: String,
    iban_input: String,
    bic_input: String,
    offset_input: CurrencyInput,
    submitted: bool,
}

impl View for CreateAssetAccount {
    type V = AssetAccountView;

    closed spec fn view(&self) -> AssetAccountView {
        AssetAccountView {
            id: self.id,
            name: self.name_input@,
            note: self.note_input@,
            iban: self.iban_input@,
            bic: self.bic_input@,
            offset: self.offset_input@,
            submitted: self.submitted,
        }
    }
}

/// A copy of a field that may be left empty: none when it is.
fn optional_text(s: &String) -> (r: Option<String>)
    ensures
        unless_empty(s@, r),
{
    if s.as_str().is_empty() {
        None
    } else {
        Some(s.clone())
    }
}

/// What [`CreateAssetAccount::update`] does: `old` becomes `new` and `r` is returned.
pub open spec fn update_post(old: CreateAssetAccount, message: Message, new: CreateAssetAccount, r: Action) -> bool {
    &&& match message {
            Message::Cancel => new@ == old@ && match old@.id {
                Some(id) => r == Action::CancelWithId(id),
                None => r is Cancel,
            },
            Message::AssetAccountCreated(id) => new@ == old@ && r == Action::AssetAccountCreated(id),
            Message::Initialize(a) => r is Nothing && new@ == (AssetAccountView {
                id: Some(a.id),
                name: a.name@,
                note: text_or_empty(a.note),
                iban: text_or_empty(a.iban),
                bic: text_or_empty(a.bic),
                offset: InputView {
                    content: a.offset@,
                    validation: Validation::Number,
                    required: true,
                    error: input_error(Validation::Number, true, a.offset@),
                    input_changed: false,
                },
                ..old@
            }),
            Message::NameInput(t) => r is Nothing && new@ == (AssetAccountView { name: t@, ..old@ }),
            Message::NoteInput(t) => r is Nothing && new@ == (AssetAccountView { note: t@, ..old@ }),
            Message::IbanInput(t) => r is Nothing && new@ == (AssetAccountView { iban: t@, ..old@ }),
            Message::BicInput(t) => r is Nothing && new@ == (AssetAccountView { bic: t@, ..old@ }),
            Message::OffsetInput(currency_input::Action::Input(t)) => r is Nothing && new@ == (AssetAccountView {
                offset: InputView {
                    content: t@,
                    error: input_error(old@.offset.validation, old@.offset.required, t@),
                    input_changed: true,
                    ..old@.offset
                },
                ..old@
            }),
            Message::Submit => {
                &&& new@ == (AssetAccountView { submitted: true, ..old@ })
                &&& r matches Action::Submit(d) && {
                    &&& d.id == old@.id
                    &&& d.name@ == old@.name
                    &&& (if is_blank(old@.note) { d.note is None } else { d.note matches Some(t) && t@ == old@.note })
                    &&& unless_empty(old@.iban, d.iban)
                    &&& unless_empty(old@.bic, d.bic)
                    &&& d.offset@ == normalized_number_text(old@.offset.content)
                }
            },
        }
}

impl CreateAssetAccount {
    /// An empty form for a new account whose offset shows `zero_text` (zero
    /// as the currency type writes it).
    pub fn new(zero_text: String) -> (r: Self)
        ensures
            r@.id is None,
            r@.name.len() == 0 && r@.note.len() == 0 && r@.iban.len() == 0 && r@.bic.len() == 0,
            r@.offset.content == zero_text@ && r@.offset.validation == Validation::Number && r@.offset.required,
            !r@.offset.input_changed,
            !r@.submitted,
    {
        CreateAssetAccount {
            id: None,
            name_input: String::new(),
            note_input: String::new(),
            iban_input: String::new(),
            bic_input: String::new(),
            offset_input: CurrencyInput::new(zero_text, true),
            submitted: false,
        }
    }

    /// Whether the form can be submitted: it has a name and its offset is a
    /// number.
    pub fn can_submit(&self) -> (r: bool)
        ensures
            r == (self@.name.len() > 0 && is_number_text(self@.offset.content)),
    {
        asset_account_submittable(&self.name_input, &self.offset_input)
    }

    /// Applies a message and says what the owner has to do.
    pub fn update(&mut self, message: Message) -> (r: Action)
        requires
            message is Submit ==> is_number_text(old(self)@.offset.content),
        ensures
            update_post(*old(self), message, *final(self), r),

    {
        match message {
            Message::Cancel => match self.id {
                Some(id) => Action::CancelWithId(id),
                None => Action::Cancel,
            },
            Message::Initialize(account) => {
                let AssetAccountData { id, name, note, iban, bic, offset } = account;
                self.id = Some(id);
                self.name_input = name;
                self.note_input = match note {
                    Some(n) => n,
                    None => String::new(),
                };
                self.iban_input = match iban {
                    Some(i) => i,
                    None => String::new(),
                };
                self.bic_input = match bic {
                    Some(b) => b,
                    None => String::new(),
                };
                self.offset_input = CurrencyInput::new(offset, true);
                Action::Nothing
            },
            Message::AssetAccountCreated(id) => Action::AssetAccountCreated(id),
            Message::NameInput(input) => {
                self.name_input = input;
                Action::Nothing
            },
            Message::NoteInput(input) => {
                self.note_input = input;
                Action::Nothing
            },
            Message::IbanInput(input) => {
                self.iban_input = input;
                Action::Nothing
            },
            Message::BicInput(input) => {
                self.bic_input = input;
                Action::Nothing
            },
            Message::OffsetInput(action) => {
                self.offset_input.perform(action);
                Action::Nothing
            },
            Message::Submit => {
                self.submitted = true;
                let note = if text_is_blank(self.note_input.as_str()) {
                    None
                } else {
                    Some(self.note_input.clone())
                };
                Action::Submit(AssetAccountDraft {
                    id: self.id,
                    name: self.name_input.clone(),
                    note,
                    iban: optional_text(&self.iban_input),
                    bic: optional_text(&self.bic_input),
                    offset: self.offset_input.currency().unwrap(),
                })
            },
        }
    }
}

} // verus!
