//! Lines of text, measured and cut by characters rather than bytes.
//!
//! A string is seen as the sequence of its characters: every position and
//! length in this module counts characters, so one that takes several bytes
//! still takes one column.

use vstd::prelude::*;
use vstd::string::*;

verus! {

/// Appends one character to the end of `text`.
///
/// Trusted: the body is a call of `String::push` from the standard library,
/// which is documented to append the given character to the end of the
/// string. Nothing else is assumed of it.
#[verifier::external_body]
pub(crate) fn push_char(text: &mut String, c: char)
    ensures
        final(text)@ == old(text)@.push(c),
{
    text.push(c);
}

/// The number of characters in `text`.
pub(crate) fn char_count(text: &String) -> (count: usize)
    ensures
        count == text@.len(),
{
    text.as_str().unicode_len()
}

/// The characters of `text` from position `from` up to, not including, `to`.
pub(crate) fn slice(text: &String, from: usize, to: usize) -> (part: String)
    requires
        from <= to <= text@.len(),
    ensures
        part@ == text@.subrange(from as int, to as int),
{
    String::from_str(text.as_str().substring_char(from, to))
}

/// `text` with `c` put in front of the character at position `at`, or at the
/// end when `at` is the length of `text`.
pub(crate) fn with_char_inserted(text: &String, at: usize, c: char) -> (longer: String)
    requires
        at <= text@.len(),
    ensures
        longer@ == text@.insert(at as int, c),
{
    let len = char_count(text);
    let mut longer = slice(text, 0, at);
    push_char(&mut longer, c);
    longer.append(text.as_str().substring_char(at, len));
    longer
}

/// `text` without the character at position `at`.
pub(crate) fn with_char_removed(text: &String, at: usize) -> (shorter: String)
    requires
        at < text@.len(),
    ensures
        shorter@ == text@.remove(at as int),
{
    let len = char_count(text);
    let mut shorter = slice(text, 0, at);
    shorter.append(text.as_str().substring_char(at + 1, len));
    shorter
}

/// `first` followed by `second`.
pub(crate) fn joined(first: &String, second: &String) -> (both: String)
    ensures
        both@ == first@ + second@,
{
    let mut both = first.clone();
    both.append(second.as_str());
    both
}

} // verus!
