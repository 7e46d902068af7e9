//! The two concrete validation policies: names and telephone numbers.

use vstd::prelude::*;
use vstd::string::StringExecFns;
use crate::outcome::ValidationOutcome;
use crate::text::{contains_digit, has_digit, normalize, upper_of};
use crate::validators::{matches_telephone, telephone_shape, Validator};

verus! {

/// The message shown when a name holds a decimal digit.
pub open spec fn name_rejection_message() -> Seq<char> {
    "A name can not contain numbers"@
}

/// The message shown when a telephone number is not well-formed.
pub open spec fn telephone_rejection_message() -> Seq<char> {
    "Telephone number not valid"@
}

/// The name policy: non-empty text without decimal digits is accepted,
/// and the stored text is normalized to uppercase.
#[derive(Debug, Clone, Copy)]
pub struct NameFormatter;

/// The telephone policy: non-empty text shaped like a telephone number
/// (optional leading plus, digit groups separated by single spaces) is
/// accepted; the stored text is kept as typed.
#[derive(Debug, Clone, Copy)]
pub struct TelephoneFormatter;

impl Validator for NameFormatter {
    open spec fn accepts(&self, text: Seq<char>) -> bool {
        !contains_digit(text)
    }

    open spec fn rejection_message(&self) -> Seq<char> {
        name_rejection_message()
    }

    open spec fn normalized(&self, text: Seq<char>) -> Seq<char> {
        upper_of(text)
    }

    fn validate(&self, text: &str) -> (r: ValidationOutcome) {
        if text.is_empty() {
            ValidationOutcome::EmptyField
        } else if has_digit(text) {
            ValidationOutcome::InvalidFormat(String::from_str("A name can not contain numbers"))
        } else {
            ValidationOutcome::Success
        }
    }

    fn apply_normalization(&self, text: &str) -> (r: String) {
        normalize(text)
    }
}

impl Validator for TelephoneFormatter {
    open spec fn accepts(&self, text: Seq<char>) -> bool {
        telephone_shape(text)
    }

    open spec fn rejection_message(&self) -> Seq<char> {
        telephone_rejection_message()
    }

    open spec fn normalized(&self, text: Seq<char>) -> Seq<char> {
        text
    }

    fn validate(&self, text: &str) -> (r: ValidationOutcome) {
        if text.is_empty() {
            ValidationOutcome::EmptyField
        } else if !matches_telephone(text) {
            ValidationOutcome::InvalidFormat(String::from_str("Telephone number not valid"))
        } else {
            ValidationOutcome::Success
        }
    }

    fn apply_normalization(&self, text: &str) -> (r: String) {
        String::from_str(text)
    }
}

impl NameFormatter {
    /// Renders the stored value for display, unchanged.
    pub fn format(&self, value: &String) -> (r: String)
        ensures
            r@ == value@,
    {
        value.clone()
    }

    /// Parses the edited text into the stored value; never fails.
    pub fn value(&self, input: &str) -> (r: Result<String, ValidationOutcome>)
        ensures
            r matches Ok(v) && v@ == input@,
    {
        Ok(String::from_str(input))
    }
}

impl TelephoneFormatter {
    /// Renders the stored value for display, unchanged.
    pub fn format(&self, value: &String) -> (r: String)
        ensures
            r@ == value@,
    {
        value.clone()
    }

    /// Parses the edited text into the stored value; never fails.
    pub fn value(&self, input: &str) -> (r: Result<String, ValidationOutcome>)
        ensures
            r matches Ok(v) && v@ == input@,
    {
        Ok(String::from_str(input))
    }
}

} // verus!
