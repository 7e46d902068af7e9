//! Character classes and uppercase normalization for field text.

use vstd::prelude::*;
use vstd::string::StrSliceExecFns;

verus! {

/// The decimal digits `'0'` through `'9'`.
pub open spec fn is_digit_char(c: char) -> bool {
    '0' <= c && c <= '9'
}

/// Whether any character of `s` is a decimal digit.
pub open spec fn contains_digit(s: Seq<char>) -> bool {
    exists|i: int| 0 <= i < s.len() && is_digit_char(#[trigger] s[i])
}

/// The Unicode uppercase equivalent of a text, the mapping
/// `str::to_uppercase` computes. It depends on the characters alone.
pub uninterp spec fn upper_of(s: Seq<char>) -> Seq<char>;

/// Relies on `str::to_uppercase`: returns the uppercase equivalent of the
/// text, by the Unicode uppercase mapping; the result is a function of the
/// characters alone, and an empty string stays empty.
#[verifier::external_body]
fn uppercase(text: &str) -> (r: String)
    ensures
        r@ == upper_of(text@),
        text@.len() == 0 ==> r@.len() == 0,
{
    text.to_uppercase()
}

/// Uppercase normalization of a name: the Unicode uppercase equivalent of
/// the raw text, decoupled from validity.
pub fn normalize(text: &str) -> (r: String)
    ensures
        r@ == upper_of(text@),
        text@.len() == 0 ==> r@.len() == 0,
{
    uppercase(text)
}

/// Whether `text` contains a decimal digit.
pub fn has_digit(text: &str) -> (r: bool)
    ensures
        r == contains_digit(text@),
{
    let n = text.unicode_len();
    let mut i: usize = 0;
    while i < n
        invariant
            n == text@.len(),
            0 <= i <= n,
            forall|j: int| 0 <= j < i ==> !is_digit_char(#[trigger] text@[j]),
        decreases n - i,
    {
        let c = text.get_char(i);
        if '0' <= c && c <= '9' {
            return true;
        }
        i = i + 1;
    }
    false
}

} // verus!
