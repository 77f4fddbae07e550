//! Media types: the normal form of a `content-type` header and the media
//! types that a response declares.
//!
//! Header text holds visible ASCII only, so the normal form folds ASCII
//! letters and trims spaces and tabs.

use vstd::prelude::*;

verus! {

/// The lower-case form of an ASCII capital; any other character is itself.
pub open spec fn spec_to_lower(c: char) -> char {
    if 'A' <= c <= 'Z' {
        ((c as u8 + 32) as u8) as char
    } else {
        c
    }
}

/// The text with every ASCII capital folded to lower case.
pub open spec fn spec_lowercase(text: Seq<char>) -> Seq<char> {
    Seq::new(text.len(), |i: int| spec_to_lower(text[i]))
}

/// The text before the first `;`: all of it where it holds none.
pub open spec fn spec_before_semicolon(text: Seq<char>) -> Seq<char>
    decreases text.len(),
{
    if text.len() == 0 || text[0] == ';' {
        Seq::empty()
    } else {
        seq![text[0]] + spec_before_semicolon(text.drop_first())
    }
}

/// A space or a tab.
pub open spec fn is_blank(c: char) -> bool {
    c == ' ' || c == '\t'
}

/// The text without the blanks that it starts with.
pub open spec fn spec_trim_start(text: Seq<char>) -> Seq<char>
    decreases text.len(),
{
    if text.len() > 0 && is_blank(text[0]) {
        spec_trim_start(text.drop_first())
    } else {
        text
    }
}

/// The text without the blanks that it ends with.
pub open spec fn spec_trim_end(text: Seq<char>) -> Seq<char>
    decreases text.len(),
{
    if text.len() > 0 && is_blank(text.last()) {
        spec_trim_end(text.drop_last())
    } else {
        text
    }
}

/// The text without the blanks around it.
pub open spec fn spec_trim(text: Seq<char>) -> Seq<char> {
    spec_trim_end(spec_trim_start(text))
}

/// The normal form of a `content-type` value: lower case, cut before the
/// first parameter, blanks around it removed.
pub open spec fn spec_normalize(text: Seq<char>) -> Seq<char> {
    spec_trim(spec_before_semicolon(spec_lowercase(text)))
}

/// Where no `;` stands before `k`, and `k` is the end of the text or the place
/// of a `;`, the text before the first `;` is the first `k` characters.
pub proof fn lemma_before_semicolon_is_prefix(text: Seq<char>, k: int)
    requires
        0 <= k <= text.len(),
        forall|i: int| 0 <= i < k ==> text[i] != ';',
        k == text.len() || text[k] == ';',
    ensures
        spec_before_semicolon(text) == text.take(k),
    decreases text.len(),
{
    if k > 0 {
        lemma_before_semicolon_is_prefix(text.drop_first(), k - 1);
    }
}

/// Where the first `i` characters are blanks, trimming the start of the text
/// trims the start of what follows them.
pub proof fn lemma_trim_start_skips_blanks(text: Seq<char>, i: int)
    requires
        0 <= i <= text.len(),
        forall|k: int| 0 <= k < i ==> is_blank(text[k]),
    ensures
        spec_trim_start(text) == spec_trim_start(text.skip(i)),
    decreases i,
{
    if i == 0 {
        assert(text.skip(0) == text);
    } else {
        let rest = text.drop_first();
        lemma_trim_start_skips_blanks(rest, i - 1);
        assert(rest.skip(i - 1) == text.skip(i));
    }
}

/// Where the characters from `j` on are blanks, trimming the end of the text
/// trims the end of what stands before them.
pub proof fn lemma_trim_end_drops_blanks(text: Seq<char>, j: int)
    requires
        0 <= j <= text.len(),
        forall|k: int| j <= k < text.len() ==> is_blank(text[k]),
    ensures
        spec_trim_end(text) == spec_trim_end(text.take(j)),
    decreases text.len() - j,
{
    if j == text.len() {
        assert(text.take(j) == text);
    } else {
        let rest = text.drop_last();
        lemma_trim_end_drops_blanks(rest, j);
        assert(rest.take(j) == text.take(j));
    }
}

/// Where the text before the first `;` ends: no `;` stands before that
/// place, and the text ends there or has its first `;` there.
pub proof fn lemma_before_semicolon_ends(text: Seq<char>) -> (k: int)
    ensures
        0 <= k <= text.len(),
        spec_before_semicolon(text) == text.take(k),
        forall|i: int| 0 <= i < k ==> text[i] != ';',
        k == text.len() || text[k] == ';',
    decreases text.len(),
{
    if text.len() == 0 || text[0] == ';' {
        0
    } else {
        let rest = text.drop_first();
        let k = lemma_before_semicolon_ends(rest);
        assert forall|i: int| 0 <= i < k + 1 implies text[i] != ';' by {
            if i > 0 {
                assert(rest[i - 1] == text[i]);
            }
        }
        k + 1
    }
}

/// Where the text without its leading blanks begins: blanks stand before that
/// place and none stands at it.
pub proof fn lemma_trim_start_begins(text: Seq<char>) -> (i: int)
    ensures
        0 <= i <= text.len(),
        spec_trim_start(text) == text.skip(i),
        forall|k: int| 0 <= k < i ==> is_blank(text[k]),
        i < text.len() ==> !is_blank(text[i]),
    decreases text.len(),
{
    if text.len() > 0 && is_blank(text[0]) {
        let rest = text.drop_first();
        let i = lemma_trim_start_begins(rest);
        assert forall|k: int| 0 <= k < i + 1 implies is_blank(text[k]) by {
            if k > 0 {
                assert(rest[k - 1] == text[k]);
            }
        }
        i + 1
    } else {
        0
    }
}

/// Where the text without its trailing blanks ends: blanks stand from that
/// place on and none stands before it.
pub proof fn lemma_trim_end_ends(text: Seq<char>) -> (j: int)
    ensures
        0 <= j <= text.len(),
        spec_trim_end(text) == text.take(j),
        forall|k: int| j <= k < text.len() ==> is_blank(text[k]),
        j > 0 ==> !is_blank(text[j - 1]),
    decreases text.len(),
{
    if text.len() > 0 && is_blank(text.last()) {
        let rest = text.drop_last();
        let j = lemma_trim_end_ends(rest);
        assert forall|k: int| j <= k < text.len() implies is_blank(text[k]) by {
            if k < rest.len() {
                assert(rest[k] == text[k]);
            }
        }
        j
    } else {
        text.len() as int
    }
}

/// A normal form holds no ASCII capital and no `;`, and neither starts nor
/// ends with a blank.
pub proof fn lemma_normal_form_is_clean(text: Seq<char>)
    ensures
        forall|i: int|
            0 <= i < spec_normalize(text).len() ==> {
                let c = #[trigger] spec_normalize(text)[i];
                c != ';' && !('A' <= c <= 'Z')
            },
        spec_normalize(text).len() > 0 ==> !is_blank(spec_normalize(text).first()) && !is_blank(
            spec_normalize(text).last(),
        ),
{
    let lowered = spec_lowercase(text);
    let k = lemma_before_semicolon_ends(lowered);
    let head = lowered.take(k);
    let i = lemma_trim_start_begins(head);
    let tail = head.skip(i);
    let j = lemma_trim_end_ends(tail);
    assert(spec_normalize(text) == tail.take(j));
}

/// A normal form is its own normal form.
pub proof fn lemma_normalize_is_idempotent(text: Seq<char>)
    ensures
        spec_normalize(spec_normalize(text)) == spec_normalize(text),
{
    let normal = spec_normalize(text);
    lemma_normal_form_is_clean(text);
    assert(spec_lowercase(normal) == normal);
    assert(spec_before_semicolon(normal) == normal) by {
        lemma_before_semicolon_is_prefix(normal, normal.len() as int);
    }
}

/// Folds one character to lower case.
pub fn to_lower(c: char) -> (lower: char)
    ensures
        lower == spec_to_lower(c),
{
    if 'A' <= c && c <= 'Z' {
        ((c as u8) + 32) as char
    } else {
        c
    }
}

/// Brings a `content-type` value into its normal form.
pub fn normalize(text: &Vec<char>) -> (normal: Vec<char>)
    ensures
        normal@ == spec_normalize(text@),
{
    // The end of the part before the first `;`.
    let mut end: usize = 0;
    while end < text.len() && text[end] != ';'
        invariant
            end <= text.len(),
            forall|i: int| 0 <= i < end ==> text@[i] != ';',
        decreases text.len() - end,
    {
        end += 1;
    }
    let ghost lowered = spec_lowercase(text@);
    let ghost head = lowered.take(end as int);
    proof {
        lemma_before_semicolon_is_prefix(lowered, end as int);
    }
    // The blanks at its start.
    let mut start: usize = 0;
    while start < end && (text[start] == ' ' || text[start] == '\t')
        invariant
            start <= end <= text.len(),
            forall|i: int| 0 <= i < start ==> is_blank(text@[i]),
        decreases end - start,
    {
        start += 1;
    }
    // The blanks at its end.
    let mut stop: usize = end;
    while stop > start && (text[stop - 1] == ' ' || text[stop - 1] == '\t')
        invariant
            start <= stop <= end <= text.len(),
            forall|i: int| stop <= i < end ==> is_blank(text@[i]),
        decreases stop,
    {
        stop -= 1;
    }
    proof {
        lemma_trim_start_skips_blanks(head, start as int);
        lemma_trim_end_drops_blanks(head.skip(start as int), stop - start);
    }
    let mut normal: Vec<char> = Vec::new();
    let mut i: usize = start;
    while i < stop
        invariant
            start <= i <= stop <= end <= text.len(),
            normal@ == lowered.subrange(start as int, i as int),
            lowered == spec_lowercase(text@),
        decreases stop - i,
    {
        normal.push(to_lower(text[i]));
        i += 1;
    }
    normal
}

} // verus!
