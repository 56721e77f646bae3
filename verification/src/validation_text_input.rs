//! A text input that checks its content against a rule and remembers whether
//! the user has typed into it.

use vstd::prelude::*;
use crate::number::{is_number, is_number_text};

verus! {

/// The rule that the content of a [`ValidationTextInput`] is held to.
#[derive(Clone, Copy, Debug, PartialEq, Eq, Structural)]
pub enum Validation {
    /// Any content is accepted.
    Anything,
    /// The content must be a number (`is_number_text`).
    Number,
    /// The content must be non-empty and a number.
    NonEmptyNumber,
}

/// What a rule says of a content: `None` when it is accepted, else the
/// message shown to the user.
pub open spec fn validation_error(validation: Validation, content: Seq<char>) -> Option<Seq<char>> {
    match validation {
        Validation::Anything => None,
        Validation::Number => if is_number_text(content) {
            None
        } else {
            Some("invalid number"@)
        },
        Validation::NonEmptyNumber => if content.len() == 0 {
            Some("empty input"@)
        } else if !is_number_text(content) {
            Some("invalid number"@)
        } else {
            None
        },
    }
}

/// The error of an input: a required input that is empty is refused first,
/// otherwise the rule decides.
pub open spec fn input_error(validation: Validation, required: bool, content: Seq<char>) -> Option<Seq<char>> {
    if required && content.len() == 0 {
        Some("required input is empty"@)
    } else {
        validation_error(validation, content)
    }
}

/// The abstract state of a [`ValidationTextInput`].
pub struct InputView {
    pub content: Seq<char>,
    pub validation: Validation,
    pub error: Option<Seq<char>>,
    pub input_changed: bool,
    pub required: bool,
}

/// A change of an input that does not set its content: a new rule, whether
/// it is required, whether it counts as edited.
pub enum InputStep {
    Validation(Validation),
    Required(bool),
    InputChanged(bool),
}

/// The input `v` after `step` ([`ValidationTextInput::validation`],
/// [`ValidationTextInput::required`], [`ValidationTextInput::input_changed`]).
pub open spec fn apply_step(v: InputView, step: InputStep) -> InputView {
    match step {
        InputStep::Validation(validation) => InputView { validation, error: input_error(validation, v.required, v.content), ..v },
        InputStep::Required(required) => InputView { required, error: input_error(v.validation, required, v.content), ..v },
        InputStep::InputChanged(input_changed) => InputView { input_changed, ..v },
    }
}

/// The input `v` after the steps, in order.
pub open spec fn apply_steps(v: InputView, steps: Seq<InputStep>) -> InputView
    decreases steps.len(),
{
    if steps.len() == 0 {
        v
    } else {
        apply_step(apply_steps(v, steps.drop_last()), steps.last())
    }
}

/// The content of an input is the one last set: changes of its rule, of
/// whether it is required and of whether it counts as edited keep it, and
/// keep its error the one its rule gives.
pub proof fn lemma_steps_keep_content(v: InputView, steps: Seq<InputStep>)
    ensures
        apply_steps(v, steps).content == v.content,
        v.error == input_error(v.validation, v.required, v.content) ==> {
            let w = apply_steps(v, steps);
            w.error == input_error(w.validation, w.required, w.content)
        },
    decreases steps.len(),
{
    if steps.len() > 0 {
        lemma_steps_keep_content(v, steps.drop_last());
    }
}

/// A text input whose content is validated on every change.
pub struct ValidationTextInput {
    content: String,
    validation: Validation,
    /// `Some` exactly when the current content is invalid.
    error_message: Option<String>,
    input_changed: bool,
    required: bool,
}

impl View for ValidationTextInput {
    type V = InputView;

    closed spec fn view(&self) -> InputView {
        InputView {
            content: self.content@,
            validation: self.validation,
            error: match self.error_message {
                Some(m) => Some(m@),
                None => None,
            },
            input_changed: self.input_changed,
            required: self.required,
        }
    }
}

/// Computes `validation_error`.
fn check(validation: Validation, content: &str) -> (r: Option<String>)
    ensures
        match r {
            Some(m) => validation_error(validation, content@) == Some(m@),
            None => validation_error(validation, content@) is None,
        },
{
    match validation {
        Validation::Anything => None,
        Validation::Number => if is_number(content) {
            None
        } else {
            Some(String::from_str("invalid number"))
        },
        Validation::NonEmptyNumber => if content.is_empty() {
            Some(String::from_str("empty input"))
        } else if !is_number(content) {
            Some(String::from_str("invalid number"))
        } else {
            None
        },
    }
}

/// Computes `input_error`.
fn compute_error(validation: Validation, required: bool, content: &str) -> (r: Option<String>)
    ensures
        match r {
            Some(m) => input_error(validation, required, content@) == Some(m@),
            None => input_error(validation, required, content@) is None,
        },
{
    if required && content.is_empty() {
        Some(String::from_str("required input is empty"))
    } else {
        check(validation, content)
    }
}

impl ValidationTextInput {
    /// The error of the content is always the one that the rule gives.
    #[verifier::type_invariant]
    spec fn consistent(&self) -> bool {
        self@.error == input_error(self.validation, self.required, self.content@)
    }

    /// An input holding `content`, accepting anything, not required and not
    /// yet edited.
    pub fn new(content: String) -> (r: Self)
        ensures
            r@.content == content@,
            r@.validation == Validation::Anything,
            r@.error is None,
            !r@.input_changed,
            !r@.required,
    {
        ValidationTextInput {
            error_message: None,
            content,
            validation: Validation::Anything,
            input_changed: false,
            required: false,
        }
    }

    /// An empty input (as `new` with an empty string).
    pub fn default() -> (r: Self)
        ensures
            r@.content == Seq::<char>::empty(),
            r@.validation == Validation::Anything,
            r@.error is None,
            !r@.input_changed,
            !r@.required,
    {
        Self::new(String::new())
    }

    /// The same input held to the rule `validation`, revalidated.
    pub fn validation(self, validation: Validation) -> (r: Self)
        ensures
            r@ == apply_step(self@, InputStep::Validation(validation)),
            r@ == (InputView {
                validation,
                error: input_error(validation, self@.required, self@.content),
                ..self@
            }),
    {
        let error_message = compute_error(validation, self.required, self.content.as_str());
        ValidationTextInput {
            content: self.content,
            validation,
            error_message,
            input_changed: self.input_changed,
            required: self.required,
        }
    }

    /// The same input, required or not, revalidated.
    pub fn required(self, required: bool) -> (r: Self)
        ensures
            r@ == apply_step(self@, InputStep::Required(required)),
            r@ == (InputView {
                required,
                error: input_error(self@.validation, required, self@.content),
                ..self@
            }),
    {
        let error_message = compute_error(self.validation, required, self.content.as_str());
        ValidationTextInput {
            content: self.content,
            validation: self.validation,
            error_message,
            input_changed: self.input_changed,
            required,
        }
    }

    /// True when the content is accepted.
    pub fn is_valid(&self) -> (r: bool)
        ensures
            r == (self@.error is None),
            r == (input_error(self@.validation, self@.required, self@.content) is None),
    {
        proof { use_type_invariant(self); }
        self.error_message.is_none()
    }

    /// The message that explains why the content is refused, if it is.
    pub fn error_message(&self) -> (r: Option<&String>)
        ensures
            match r {
                Some(m) => self@.error == Some(m@),
                None => self@.error is None,
            },
            self@.error == input_error(self@.validation, self@.required, self@.content),
    {
        proof { use_type_invariant(self); }
        self.error_message.as_ref()
    }

    /// The user typed `content`: it is stored, validated, and the input is
    /// marked as edited.
    pub fn edit_content(&mut self, content: String)
        ensures
            final(self)@ == (InputView {
                content: content@,
                error: input_error(old(self)@.validation, old(self)@.required, content@),
                input_changed: true,
                ..old(self)@
            }),
    {
        let error_message = compute_error(self.validation, self.required, content.as_str());
        *self = ValidationTextInput {
            content,
            validation: self.validation,
            error_message,
            input_changed: true,
            required: self.required,
        };
    }

    /// The program sets `content`: it is stored, validated, and the input
    /// counts as not edited.
    pub fn set_content(&mut self, content: String)
        ensures
            final(self)@ == (InputView {
                content: content@,
                error: input_error(old(self)@.validation, old(self)@.required, content@),
                input_changed: false,
                ..old(self)@
            }),
    {
        let error_message = compute_error(self.validation, self.required, content.as_str());
        *self = ValidationTextInput {
            content,
            validation: self.validation,
            error_message,
            input_changed: false,
            required: self.required,
        };
    }

    /// Sets whether an input was already entered.
    pub fn input_changed(&mut self, input_changed: bool)
        ensures
            final(self)@ == apply_step(old(self)@, InputStep::InputChanged(input_changed)),
            final(self)@ == (InputView { input_changed, ..old(self)@ }),
    {
        proof { use_type_invariant(&*self); }
        self.input_changed = input_changed;
    }

    /// The current content.
    pub fn value(&self) -> (r: &String)
        ensures
            r@ == self@.content,
    {
        &self.content
    }

    /// True when the input was edited by the user since the program last set it.
    pub fn was_edited(&self) -> (r: bool)
        ensures
            r == self@.input_changed,
    {
        self.input_changed
    }

    /// True when an empty content is refused.
    pub fn is_required(&self) -> (r: bool)
        ensures
            r == self@.required,
    {
        self.required
    }
}

/// True when `rule` can judge any content.
pub open spec fn rule_total<F: Fn(&String) -> Option<String>>(rule: F) -> bool {
    forall|s: String| #[trigger] call_requires(rule, (&s,))
}

/// True when `error` is what an input held to `rule` shows for `content`: a
/// required input that is empty is refused first, otherwise the message is
/// an answer of the rule for the content.
pub open spec fn rule_error<F: Fn(&String) -> Option<String>>(
    rule: F,
    required: bool,
    content: String,
    error: Option<String>,
) -> bool {
    if required && content@.len() == 0 {
        error matches Some(m) && m@ == "required input is empty"@
    } else {
        call_ensures(rule, (&content,), error)
    }
}

/// A text input held to a rule of the caller's own: a function from the
/// content to the message that refuses it, if any. The rule is kept and asked
/// again on every change.
pub struct RuledTextInput<F: Fn(&String) -> Option<String>> {
    judged: Judged,
    rule: F,
    input_changed: bool,
    required: bool,
}

/// A content with the message that the rule gave for it.
struct Judged {
    content: String,
    error_message: Option<String>,
}

impl<F: Fn(&String) -> Option<String>> RuledTextInput<F> {
    /// The content.
    pub closed spec fn content(&self) -> String {
        self.judged.content
    }

    /// The rule.
    pub closed spec fn rule(&self) -> F {
        self.rule
    }

    /// The message shown, if the content is refused.
    pub closed spec fn error(&self) -> Option<String> {
        self.judged.error_message
    }

    /// Whether the user has typed into the input.
    pub closed spec fn changed(&self) -> bool {
        self.input_changed
    }

    /// Whether an empty content is refused.
    pub closed spec fn is_required_spec(&self) -> bool {
        self.required
    }

    /// The error shown is the one the rule gives for the content.
    #[verifier::type_invariant]
    spec fn judged(&self) -> bool {
        &&& rule_total(self.rule)
        &&& rule_error(self.rule, self.required, self.judged.content, self.judged.error_message)
    }

    /// Asks the rule about `content`, unless a required input is empty.
    fn judge(rule: &F, required: bool, content: &String) -> (r: Option<String>)
        requires
            rule_total(*rule),
        ensures
            rule_error(*rule, required, *content, r),
    {
        if required && content.as_str().is_empty() {
            Some(String::from_str("required input is empty"))
        } else {
            rule(content)
        }
    }

    /// The content, unchanged by the rule.
    pub fn value(&self) -> (r: &String)
        ensures
            *r == self.content(),
    {
        &self.judged.content
    }

    /// The message that explains why the content is refused, if it is.
    pub fn error_message(&self) -> (r: Option<&String>)
        ensures
            match r {
                Some(m) => self.error() == Some(*m),
                None => self.error() is None,
            },
            rule_error(self.rule(), self.is_required_spec(), self.content(), self.error()),
    {
        proof { use_type_invariant(self); }
        self.judged.error_message.as_ref()
    }

    /// True when the content is accepted.
    pub fn is_valid(&self) -> (r: bool)
        ensures
            r == (self.error() is None),
            rule_error(self.rule(), self.is_required_spec(), self.content(), self.error()),
    {
        proof { use_type_invariant(self); }
        self.judged.error_message.is_none()
    }

    /// Whether the user has typed into the input.
    pub fn was_edited(&self) -> (r: bool)
        ensures
            r == self.changed(),
    {
        self.input_changed
    }

    /// The same input, required or not, judged again.
    pub fn required(self, required: bool) -> (r: Self)
        ensures
            r.content() == self.content(),
            r.rule() == self.rule(),
            r.changed() == self.changed(),
            r.is_required_spec() == required,
            rule_error(r.rule(), required, r.content(), r.error()),
    {
        proof { use_type_invariant(&self); }
        let error_message = Self::judge(&self.rule, required, &self.judged.content);
        RuledTextInput {
            judged: Judged { content: self.judged.content, error_message },
            rule: self.rule,
            input_changed: self.input_changed,
            required,
        }
    }

    /// The user typed `content`: it is kept, judged by the rule, and the
    /// input is marked as edited.
    pub fn edit_content(&mut self, content: String)
        ensures
            final(self).content() == content,
            final(self).rule() == old(self).rule(),
            final(self).changed(),
            final(self).is_required_spec() == old(self).is_required_spec(),
            rule_error(final(self).rule(), final(self).is_required_spec(), content, final(self).error()),
    {
        proof { use_type_invariant(&*self); }
        let error_message = Self::judge(&self.rule, self.required, &content);
        self.judged = Judged { content, error_message };
        self.input_changed = true;
    }

    /// The program sets `content`: it is kept, judged by the rule, and the
    /// input counts as not edited.
    pub fn set_content(&mut self, content: String)
        ensures
            final(self).content() == content,
            final(self).rule() == old(self).rule(),
            !final(self).changed(),
            final(self).is_required_spec() == old(self).is_required_spec(),
            rule_error(final(self).rule(), final(self).is_required_spec(), content, final(self).error()),
    {
        proof { use_type_invariant(&*self); }
        let error_message = Self::judge(&self.rule, self.required, &content);
        self.judged = Judged { content, error_message };
        self.input_changed = false;
    }

    /// Sets whether an input was already entered.
    pub fn input_changed(&mut self, input_changed: bool)
        ensures
            final(self).content() == old(self).content(),
            final(self).rule() == old(self).rule(),
            final(self).error() == old(self).error(),
            final(self).is_required_spec() == old(self).is_required_spec(),
            final(self).changed() == input_changed,
    {
        proof { use_type_invariant(&*self); }
        self.input_changed = input_changed;
    }
}

impl ValidationTextInput {
    /// The same input held to the caller's own `rule` instead of a built-in
    /// one, judged at once; the rule is kept for later changes.
    pub fn validation_with<F: Fn(&String) -> Option<String>>(self, rule: F) -> (r: RuledTextInput<F>)
        requires
            rule_total(rule),
        ensures
            r.content()@ == self@.content,
            r.rule() == rule,
            r.changed() == self@.input_changed,
            r.is_required_spec() == self@.required,
            rule_error(rule, self@.required, r.content(), r.error()),
    {
        let error_message = RuledTextInput::judge(&rule, self.required, &self.content);
        RuledTextInput {
            judged: Judged { content: self.content, error_message },
            rule,
            input_changed: self.input_changed,
            required: self.required,
        }
    }
}

} // verus!
