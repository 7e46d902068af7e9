//! The validators: the name and telephone acceptance rules, the telephone
//! grammar, and the `Validator` interface the field controller dispatches
//! through.

use vstd::prelude::*;
use crate::form::FormField;
use crate::outcome::ValidationOutcome;
use crate::text::{contains_digit, has_digit, is_digit_char, normalize, upper_of};

verus! {

/// The whitespace characters a telephone number may use between digit
/// groups: the ASCII whitespace controls and space, and the Unicode
/// whitespace code points (next line, no-break spaces, ogham space mark,
/// the en-quad through hair-space range, line and paragraph separators,
/// medium mathematical space, and ideographic space).
pub open spec fn is_phone_space(c: char) -> bool {
    ||| ('\u{0009}' <= c && c <= '\u{000D}')
    ||| c == ' '
    ||| c == '\u{0085}'
    ||| c == '\u{00A0}'
    ||| c == '\u{1680}'
    ||| ('\u{2000}' <= c && c <= '\u{200A}')
    ||| c == '\u{2028}'
    ||| c == '\u{2029}'
    ||| c == '\u{202F}'
    ||| c == '\u{205F}'
    ||| c == '\u{3000}'
}

/// The part of a telephone number after the optional leading plus sign,
/// starting at `start`: it is non-empty, begins with a digit, holds only
/// digits and whitespace, and every whitespace character directly follows
/// a digit (so groups of digits are separated by single spaces, and no
/// two spaces are adjacent).
pub open spec fn telephone_body(s: Seq<char>, start: int) -> bool {
    &&& start < s.len()
    &&& is_digit_char(s[start])
    &&& (forall|i: int|
        start <= i < s.len() ==> is_digit_char(#[trigger] s[i]) || is_phone_space(s[i]))
    &&& (forall|i: int|
        start < i < s.len() && is_phone_space(#[trigger] s[i]) ==> is_digit_char(s[i - 1]))
}

/// A well-formed telephone number: an optional leading `'+'`, then one or
/// more groups of digits, each group followed by at most one whitespace
/// character.
pub open spec fn telephone_shape(s: Seq<char>) -> bool {
    if s.len() > 0 && s[0] == '+' {
        telephone_body(s, 1)
    } else {
        telephone_body(s, 0)
    }
}

fn is_phone_space_exec(c: char) -> (r: bool)
    ensures
        r == is_phone_space(c),
{
    ('\u{0009}' <= c && c <= '\u{000D}') || c == ' ' || c == '\u{0085}' || c == '\u{00A0}' || c
        == '\u{1680}' || ('\u{2000}' <= c && c <= '\u{200A}') || c == '\u{2028}' || c == '\u{2029}'
        || c == '\u{202F}' || c == '\u{205F}' || c == '\u{3000}'
}

/// Whether `text` is a well-formed telephone number.
pub fn matches_telephone(text: &str) -> (r: bool)
    ensures
        r == telephone_shape(text@),
{
    let n = text.unicode_len();
    if n == 0 {
        return false;
    }
    let start: usize = if text.get_char(0) == '+' {
        1
    } else {
        0
    };
    if start == n {
        return false;
    }
    let c0 = text.get_char(start);
    if !('0' <= c0 && c0 <= '9') {
        return false;
    }
    let mut i: usize = start;
    while i < n
        invariant
            n == text@.len(),
            start < n,
            start <= i <= n,
            start == 1 <==> (text@.len() > 0 && text@[0] == '+'),
            start == 0 || start == 1,
            is_digit_char(text@[start as int]),
            forall|j: int|
                start <= j < i ==> is_digit_char(#[trigger] text@[j]) || is_phone_space(text@[j]),
            forall|j: int|
                start < j < i && is_phone_space(#[trigger] text@[j]) ==> is_digit_char(
                    text@[j - 1],
                ),
        decreases n - i,
    {
        let c = text.get_char(i);
        let digit = '0' <= c && c <= '9';
        if !digit && !is_phone_space_exec(c) {
            return false;
        }
        if !digit && i > start {
            let p = text.get_char(i - 1);
            if !('0' <= p && p <= '9') {
                return false;
            }
        }
        i = i + 1;
    }
    true
}

/// Validates a name field in place: empty text is invalid, text holding a
/// decimal digit is invalid, anything else is valid. Non-empty text is
/// uppercased in place, whether or not it was accepted.
pub fn letters(data: &mut FormField)
    ensures
        old(data).field@.len() == 0 ==> !final(data).valid && final(data).field@ == old(
            data,
        ).field@,
        old(data).field@.len() > 0 ==> final(data).valid == !contains_digit(old(data).field@)
            && final(data).field@ == upper_of(old(data).field@),
{
    if data.field.as_str().is_empty() {
        data.valid = false;
        return ;
    }
    data.valid = !has_digit(data.field.as_str());
    data.field = normalize(data.field.as_str());
}

/// Validates a telephone field in place: the text is valid exactly when it
/// is a well-formed telephone number — an optional leading plus sign, then
/// one or more digit groups separated by single spaces. Empty text is
/// invalid. The text itself is left unchanged.
pub fn numbers(data: &mut FormField)
    ensures
        final(data).valid == telephone_shape(old(data).field@),
        final(data).field == old(data).field,
{
    data.valid = matches_telephone(data.field.as_str());
}

/// A validation policy: a pure rule saying which non-empty text is
/// accepted, the message shown when non-empty text is rejected, and the
/// normalization applied to the stored text.
///
/// `validate` is the contract of every validator in the family: empty text
/// is rejected as `EmptyField`; non-empty text is accepted exactly when
/// the policy's rule holds, and otherwise rejected as `InvalidFormat` with
/// the policy's message.
pub trait Validator: Sized {
    /// Which non-empty text this policy accepts.
    spec fn accepts(&self, text: Seq<char>) -> bool;

    /// The user-facing reason shown when non-empty text is rejected.
    spec fn rejection_message(&self) -> Seq<char>;

    /// How the stored text is normalized after an edit.
    spec fn normalized(&self, text: Seq<char>) -> Seq<char>;

    /// Maps the field's raw text to a validation outcome.
    fn validate(&self, text: &str) -> (r: ValidationOutcome)
        ensures
            text@.len() == 0 ==> r is EmptyField,
            text@.len() > 0 && self.accepts(text@) ==> r is Success,
            text@.len() > 0 && !self.accepts(text@) ==> (r matches
                ValidationOutcome::InvalidFormat(m) && m@ == self.rejection_message()),
    ;

    /// Applies this policy's normalization to the raw text.
    fn apply_normalization(&self, text: &str) -> (r: String)
        ensures
            r@ == self.normalized(text@),
    ;
}

} // verus!
