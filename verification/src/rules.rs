//! The rules that single fields are held to.

use vstd::prelude::*;
use vstd::string::*;

verus! {

/// Whether `validator::validate_url` accepts the text, that is whether the
/// `url` crate parses it as a URL.
pub uninterp spec fn url_parses(text: Seq<char>) -> bool;

/// `validator::validate_length` with both bounds given, on a string: it
/// counts the characters of the string and accepts a count from `min` to
/// `max`, both included.
#[verifier::external_body]
pub(crate) fn length_within(value: &str, min: u64, max: u64) -> (ok: bool)
    ensures
        ok == (min <= value@.len() <= max),
{
    validator::validate_length(value, Some(min), Some(max), None)
}

/// `validator::validate_url`: whether the text parses as a URL.
#[verifier::external_body]
pub(crate) fn is_url(value: &str) -> (ok: bool)
    ensures
        ok == url_parses(value@),
{
    validator::validate_url(value)
}

/// A character of an identifier: an ASCII letter or digit, `-` or `_`.
pub open spec fn identifier_char(c: char) -> bool {
    ||| 'a' <= c <= 'z'
    ||| 'A' <= c <= 'Z'
    ||| '0' <= c <= '9'
    ||| c == '-'
    ||| c == '_'
}

/// An identifier: at least one character, and identifier characters only.
pub open spec fn identifier(text: Seq<char>) -> bool {
    text.len() > 0 && forall|i: int| 0 <= i < text.len() ==> identifier_char(#[trigger] text[i])
}

/// Tells whether `text` is an identifier.
pub fn is_identifier(text: &str) -> (ok: bool)
    ensures
        ok == identifier(text@),
{
    if !text.is_ascii() {
        return false;
    }
    let n = text.unicode_len();
    if n == 0 {
        return false;
    }
    let mut i: usize = 0;
    while i < n
        invariant
            i <= n,
            n == text@.len(),
            text.is_ascii(),
            forall|k: int| 0 <= k < i ==> identifier_char(#[trigger] text@[k]),
        decreases n - i,
    {
        let b = text.get_ascii(i);
        // `a` to `z`, `A` to `Z`, `0` to `9`, `-` and `_`, by their ASCII codes.
        let ok = (b >= 97 && b <= 122) || (b >= 65 && b <= 90) || (b >= 48 && b <= 57) || b == 45
            || b == 95;
        if !ok {
            assert(!identifier_char(text@[i as int]));
            return false;
        }
        assert(identifier_char(text@[i as int]));
        i += 1;
    }
    true
}

} // verus!
