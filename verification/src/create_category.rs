//! The form that creates a category or renames an existing one.
use vstd::prelude::*;
use crate::validation_text_input::{InputView, Validation, ValidationTextInput, input_error};

verus! {

/// What the user, or a finished fetch, tells the form.
pub enum Message {
    Submit,
    NameInput(String),
    CategoryCreated(u64),
    /// The category to edit: its id and name.
    Initialize(u64, String),
    Cancel,
    /// Whether the category being edited still exists.
    Reload { exists: bool },
}

/// What the owner of the form has to do.
pub enum Action {
    Nothing,
    /// Show the category with this id.
    CategoryCreated(u64),
    /// Create the category with this name (or, with an id, rename it), and
    /// hand its id back as [`Message::CategoryCreated`].
    Submit { id: Option<u64>, name: String },
    Cancel,
    CancelWithId(u64),
}

/// The abstract state of the form.
pub struct CategoryView {
    /// The id of the category being edited.
    pub id: Option<u64>,
    pub name: InputView,
    pub submitted: bool,
}

/// The form's state.
pub struct CreateCategory {
    id: Option<u64>,
    name: ValidationTextInput,
    submitted: bool,
}

impl View for CreateCategory {
    type V = CategoryView;

    closed spec fn view(&self) -> CategoryView {
        CategoryView { id: self.id, name: self.name@, submitted: self.submitted }
    }
}

/// What [`CreateCategory::update`] does: the form `old` becomes `new` and
/// `r` is returned.
pub open spec fn update_post(old: CreateCategory, message: Message, new: CreateCategory, r: Action) -> bool {
    &&& match message {
            Message::Reload { exists } => r is Nothing && new@ == (CategoryView {
                id: if exists { old@.id } else { None },
                ..old@
            }),
            Message::Cancel => new@ == old@ && match old@.id {
                Some(id) => r == Action::CancelWithId(id),
                None => r is Cancel,
            },
            Message::CategoryCreated(id) => new@ == old@ && r == Action::CategoryCreated(id),
            Message::Initialize(id, name) => r is Nothing && new@ == (CategoryView {
                id: Some(id),
                name: InputView {
                    content: name@,
                    error: input_error(old@.name.validation, old@.name.required, name@),
                    input_changed: false,
                    ..old@.name
                },
                ..old@
            }),
            Message::NameInput(name) => r is Nothing && new@ == (CategoryView {
                name: InputView {
                    content: name@,
                    error: input_error(old@.name.validation, old@.name.required, name@),
                    input_changed: true,
                    ..old@.name
                },
                ..old@
            }),
            Message::Submit => {
                &&& new@ == (CategoryView { submitted: true, ..old@ })
                &&& r matches Action::Submit { id, name } && id == old@.id && name@ == old@.name.content
            },
        }
}

impl CreateCategory {
    /// A form for the category `id` (none for a new one) showing `name`,
    /// which is required.
    pub fn new(id: Option<u64>, name: String) -> (r: Self)
        ensures
            r@.id == id,
            r@.name == (InputView {
                content: name@,
                validation: Validation::Anything,
                required: true,
                error: input_error(Validation::Anything, true, name@),
                input_changed: false,
            }),
            !r@.submitted,
    {
        CreateCategory { id, name: ValidationTextInput::new(name).required(true), submitted: false }
    }

    /// An empty form for a new category.
    pub fn default() -> (r: Self)
        ensures
            r@.id is None,
            r@.name.content.len() == 0 && r@.name.validation == Validation::Anything && r@.name.required,
            !r@.name.input_changed,
            !r@.submitted,
    {
        CreateCategory { id: None, name: ValidationTextInput::default().required(true), submitted: false }
    }

    /// The id of the category being edited, whose existence the owner
    /// checks on a reload.
    pub fn id(&self) -> (r: Option<u64>)
        ensures
            r == self@.id,
    {
        self.id
    }

    /// Whether the form can be submitted: its name is valid.
    pub fn is_submittable(&self) -> (r: bool)
        ensures
            r == (input_error(self@.name.validation, self@.name.required, self@.name.content) is None),
    {
        self.name.is_valid()
    }

    /// Applies a message and says what the owner has to do.
    pub fn update(&mut self, message: Message) -> (r: Action)
        ensures
            update_post(*old(self), message, *final(self), r),

    {
        match message {
            Message::Reload { exists } => {
                if !exists {
                    self.id = None;
                }
                Action::Nothing
            },
            Message::Cancel => match self.id {
                Some(id) => Action::CancelWithId(id),
                None => Action::Cancel,
            },
            Message::CategoryCreated(id) => Action::CategoryCreated(id),
            Message::Initialize(id, name) => {
                self.id = Some(id);
                self.name.set_content(name);
                Action::Nothing
            },
            Message::NameInput(content) => {
                self.name.edit_content(content);
                Action::Nothing
            },
            Message::Submit => {
                self.submitted = true;
                Action::Submit { id: self.id, name: self.name.value().clone() }
            },
        }
    }
}

} // verus!
