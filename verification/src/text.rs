//! Text as sequences of characters: building strings and comparing them.

use vstd::prelude::*;
use vstd::string::{StrSliceExecFns, StringExecFns};

verus! {

/// `String::push` of std: the character is appended to the string.
pub assume_specification[ String::push ](text: &mut String, c: char)
    ensures
        final(text)@ == old(text)@.push(c),
;

/// Appends the characters to the string, in order.
pub fn append_chars(text: &mut String, chars: &Vec<char>)
    ensures
        final(text)@ == old(text)@ + chars@,
{
    let mut i: usize = 0;
    while i < chars.len()
        invariant
            i <= chars.len(),
            text@ == old(text)@ + chars@.take(i as int),
        decreases chars.len() - i,
    {
        text.push(chars[i]);
        i += 1;
    }
}

/// The string made of `prefix` followed by the characters of `rest`.
pub fn text_with(prefix: &str, rest: &Vec<char>) -> (text: String)
    ensures
        text@ == prefix@ + rest@,
{
    let mut text = prefix.to_owned();
    append_chars(&mut text, rest);
    text
}

/// The string made of `prefix` followed by `rest`.
pub fn text_joined(prefix: &str, rest: &str) -> (text: String)
    ensures
        text@ == prefix@ + rest@,
{
    prefix.to_owned().concat(rest)
}

/// Whether the characters spell exactly `literal`.
pub fn text_is(text: &Vec<char>, literal: &str) -> (same: bool)
    ensures
        same == (text@ == literal@),
{
    let n = literal.unicode_len();
    if text.len() != n {
        return false;
    }
    let mut i: usize = 0;
    while i < n
        invariant
            i <= n,
            n == text.len(),
            n == literal@.len(),
            text@.take(i as int) == literal@.take(i as int),
        decreases n - i,
    {
        if text[i] != literal.get_char(i) {
            return false;
        }
        i += 1;
    }
    proof {
        assert(text@.take(n as int) == text@);
        assert(literal@.take(n as int) == literal@);
    }
    true
}

} // verus!
