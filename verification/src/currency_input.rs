//! An input for amounts of money.

use vstd::prelude::*;
use crate::number::{is_number_text, normalize_number_text, normalized_number_text, float_text};
use crate::validation_text_input::{InputView, Validation, ValidationTextInput, input_error};

verus! {

/// What the user can do with a [`CurrencyInput`].
#[derive(Clone, Debug)]
pub enum Action {
    /// The user typed this text.
    Input(String),
}

/// An input for an amount of money; its content must be a number.
pub struct CurrencyInput {
    value: ValidationTextInput,
}

impl View for CurrencyInput {
    type V = InputView;

    closed spec fn view(&self) -> InputView {
        self.value@
    }
}

impl CurrencyInput {
    /// The content is always held to the number rule.
    #[verifier::type_invariant]
    spec fn number_rule(&self) -> bool {
        self.value@.validation == Validation::Number
    }

    /// Takes the text input out, leaving an empty one in its place.
    fn take(&mut self) -> (r: ValidationTextInput)
        ensures
            r@ == old(self)@,
            r@.validation == Validation::Number,
    {
        let mut taken = CurrencyInput { value: ValidationTextInput::new(String::new()).validation(Validation::Number) };
        std::mem::swap(self, &mut taken);
        proof { use_type_invariant(&taken); }
        let CurrencyInput { value } = taken;
        value
    }

    /// The input is held to the number rule.
    pub fn rule(&self) -> (r: Validation)
        ensures
            r == self@.validation,
            r == Validation::Number,
    {
        proof { use_type_invariant(self); }
        Validation::Number
    }

    /// An input that shows `value_text` (the amount as the currency type
    /// writes it) and that is `required` or not.
    pub fn new(value_text: String, required: bool) -> (r: Self)
        ensures
            r@.content == value_text@,
            r@.validation == Validation::Number,
            r@.required == required,
            r@.error == input_error(Validation::Number, required, value_text@),
            !r@.input_changed,
    {
        CurrencyInput {
            value: ValidationTextInput::new(value_text).validation(Validation::Number).required(required),
        }
    }

    /// An empty, required input.
    pub fn default() -> (r: Self)
        ensures
            r@.content == Seq::<char>::empty(),
            r@.validation == Validation::Number,
            r@.required,
            r@.error == Some("required input is empty"@),
            !r@.input_changed,
    {
        let mut new = Self::new(String::new(), true);
        new.clear();
        new
    }

    /// Empties the input (as the program, not as an edit of the user).
    pub fn clear(&mut self)
        ensures
            final(self)@ == (InputView {
                content: Seq::<char>::empty(),
                error: input_error(old(self)@.validation, old(self)@.required, Seq::<char>::empty()),
                input_changed: false,
                ..old(self)@
            }),
            final(self)@.validation == Validation::Number,
    {
        let mut value = self.take();
        value.set_content(String::new());
        *self = CurrencyInput { value };
    }

    /// Applies what the user did.
    pub fn perform(&mut self, action: Action)
        ensures
            match action {
                Action::Input(input) => final(self)@ == (InputView {
                    content: input@,
                    error: input_error(old(self)@.validation, old(self)@.required, input@),
                    input_changed: true,
                    ..old(self)@
                }),
            },
            final(self)@.validation == Validation::Number,
    {
        match action {
            Action::Input(input) => {
                let mut value = self.take();
                value.edit_content(input);
                *self = CurrencyInput { value };
            },
        }
    }

    /// The amount, when the content is a number: the normalised text (decimal
    /// comma turned into a point, `_` dropped) that the currency type is read
    /// from.
    pub fn currency(&self) -> (r: Option<String>)
        ensures
            match r {
                Some(t) => is_number_text(self@.content) && t@ == normalized_number_text(self@.content),
                None => !is_number_text(self@.content),
            },
    {
        let chars = crate::text::str_chars(self.value.value().as_str());
        let normalized = normalize_number_text(&chars);
        if float_text(&normalized) {
            Some(crate::text::string_from_chars(&normalized))
        } else {
            None
        }
    }

    /// Shows `value_text` (the amount as the currency type writes it), as
    /// the program and not as an edit of the user.
    pub fn set_value(&mut self, value_text: String)
        ensures
            final(self)@ == (InputView {
                content: value_text@,
                error: input_error(old(self)@.validation, old(self)@.required, value_text@),
                input_changed: false,
                ..old(self)@
            }),
            final(self)@.validation == Validation::Number,
    {
        let mut value = self.take();
        value.set_content(value_text);
        *self = CurrencyInput { value };
    }

    /// The underlying text input.
    pub fn input(&self) -> (r: &ValidationTextInput)
        ensures
            r@ == self@,
            r@.validation == Validation::Number,
    {
        proof { use_type_invariant(self); }
        &self.value
    }
}

} // verus!
