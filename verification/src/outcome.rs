//! Validation outcomes and their presentation as per-field error state.

use vstd::prelude::*;
use vstd::string::StringExecFns;

verus! {

/// What a validator decided about one field's text: success, or one of the
/// two failure kinds. `EmptyField` means the text was empty; `InvalidFormat`
/// carries the user-facing reason the non-empty text was rejected.
#[derive(Debug, Clone, PartialEq, Eq)]
pub enum ValidationOutcome {
    Success,
    EmptyField,
    InvalidFormat(String),
}

/// The message shown for an empty field, shared by all validators.
pub open spec fn empty_field_message() -> Seq<char> {
    "Field can't be empty"@
}

impl ValidationOutcome {
    /// The user-facing message: empty on success, the failure reason otherwise.
    pub fn message(&self) -> (r: String)
        ensures
            *self is Success ==> r@ == Seq::<char>::empty(),
            *self is EmptyField ==> r@ == empty_field_message(),
            *self matches ValidationOutcome::InvalidFormat(m) ==> r@ == m@,
    {
        match self {
            ValidationOutcome::Success => String::new(),
            ValidationOutcome::EmptyField => String::from_str("Field can't be empty"),
            ValidationOutcome::InvalidFormat(m) => m.clone(),
        }
    }
}

/// What the host UI should draw next to a field: nothing, or a message.
#[derive(Debug, Clone, PartialEq, Eq)]
pub enum DisplayState {
    Hidden,
    Visible(String),
}

/// How an outcome maps to display state: hidden on success, the empty-field
/// message or the carried reason otherwise.
pub open spec fn presents(outcome: ValidationOutcome, d: DisplayState) -> bool {
    match outcome {
        ValidationOutcome::Success => d is Hidden,
        ValidationOutcome::EmptyField => (d matches DisplayState::Visible(shown) && shown@
            == empty_field_message()),
        ValidationOutcome::InvalidFormat(m) => (d matches DisplayState::Visible(shown) && shown@
            == m@),
    }
}

/// Maps an outcome to the display state the host UI should show.
pub fn present(outcome: &ValidationOutcome) -> (d: DisplayState)
    ensures
        presents(*outcome, d),
{
    match outcome {
        ValidationOutcome::Success => DisplayState::Hidden,
        ValidationOutcome::EmptyField => DisplayState::Visible(
            String::from_str("Field can't be empty"),
        ),
        ValidationOutcome::InvalidFormat(m) => DisplayState::Visible(m.clone()),
    }
}

} // verus!
