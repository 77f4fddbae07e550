//! Reading request headers as text.

use axum::http::{HeaderMap, HeaderValue};
use vstd::prelude::*;

verus! {

/// `http::HeaderMap`, the headers of a request. Nothing of its inside is
/// known here; what it holds is read through `first_value`.
#[verifier::external_type_specification]
#[verifier::external_body]
#[verifier::reject_recursive_types(T)]
pub struct ExHeaderMap<T>(HeaderMap<T>);

/// `http::HeaderValue`, the value of one header field. It is named only as
/// what a `HeaderMap` holds.
#[verifier::external_type_specification]
#[verifier::external_body]
pub struct ExHeaderValue(HeaderValue);

/// The headers as a lookup table: every name that `HeaderMap::get` finds an
/// entry for, with the bytes of the first value stored under it.
pub uninterp spec fn first_values(headers: HeaderMap<HeaderValue>) -> Map<Seq<char>, Seq<u8>>;

/// `HeaderMap::get` with a string key, then `HeaderValue::as_bytes` on what it
/// found. `get` answers with the first value stored under the name, or with
/// nothing where the map holds no such name; the bytes are copied out as they
/// are stored.
#[verifier::external_body]
fn first_value(headers: &HeaderMap<HeaderValue>, name: &str) -> (value: Option<Vec<u8>>)
    ensures
        value is Some <==> first_values(*headers).contains_key(name@),
        value matches Some(bytes) ==> bytes@ == first_values(*headers)[name@],
{
    match headers.get(name) {
        Some(value) => Some(value.as_bytes().to_vec()),
        None => None,
    }
}

/// Bytes that a header value may show as text: printable ASCII and the tab.
pub open spec fn is_visible_ascii(b: u8) -> bool {
    32 <= b < 127 || b == 9
}

/// The bytes read as ASCII characters, one for one.
pub open spec fn ascii_chars(bytes: Seq<u8>) -> Seq<char> {
    Seq::new(bytes.len(), |i: int| bytes[i] as char)
}

/// A header value as text: its characters where every byte is visible ASCII,
/// and the empty text otherwise.
pub open spec fn spec_header_text(bytes: Seq<u8>) -> Seq<char> {
    if forall|i: int| 0 <= i < bytes.len() ==> is_visible_ascii(#[trigger] bytes[i]) {
        ascii_chars(bytes)
    } else {
        Seq::empty()
    }
}

/// What a request says under a header name: nothing, or the text of the first
/// value.
pub open spec fn spec_header(headers: HeaderMap<HeaderValue>, name: Seq<char>) -> Option<Seq<char>> {
    if first_values(headers).contains_key(name) {
        Some(spec_header_text(first_values(headers)[name]))
    } else {
        None
    }
}

/// Reads a header value as text. A value with a byte outside visible ASCII
/// reads as the empty text.
pub fn header_text(bytes: &Vec<u8>) -> (text: Vec<char>)
    ensures
        text@ == spec_header_text(bytes@),
{
    let mut text: Vec<char> = Vec::new();
    let mut i: usize = 0;
    while i < bytes.len()
        invariant
            i <= bytes.len(),
            forall|k: int| 0 <= k < i ==> is_visible_ascii(#[trigger] bytes@[k]),
            text@ == ascii_chars(bytes@.take(i as int)),
        decreases bytes.len() - i,
    {
        let b = bytes[i];
        if !(32 <= b && b < 127 || b == 9) {
            return Vec::new();
        }
        text.push(b as char);
        i += 1;
    }
    text
}

/// Looks a header up by name and reads the first value stored under it as
/// text.
pub fn header(headers: &HeaderMap<HeaderValue>, name: &str) -> (text: Option<Vec<char>>)
    ensures
        text is Some <==> spec_header(*headers, name@) is Some,
        text matches Some(chars) ==> Some(chars@) == spec_header(*headers, name@),
{
    match first_value(headers, name) {
        Some(bytes) => Some(header_text(&bytes)),
        None => None,
    }
}

/// Header text holds visible ASCII only.
pub proof fn lemma_header_text_is_visible(bytes: Seq<u8>, i: int)
    requires
        0 <= i < spec_header_text(bytes).len(),
    ensures
        32 <= spec_header_text(bytes)[i] as u32 <= 126 || spec_header_text(bytes)[i] == '\t',
{
}

} // verus!
