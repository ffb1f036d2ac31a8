//! Text helpers whose contracts are stated over sequences of characters.

use vstd::prelude::*;

verus! {

/// `part` occurs in `text` starting at position `offset`.
pub open spec fn occurs_at(text: Seq<char>, offset: int, part: Seq<char>) -> bool {
    &&& 0 <= offset
    &&& offset + part.len() <= text.len()
    &&& text.subrange(offset, offset + part.len()) == part
}

/// `suffix` is the tail of `text`.
pub open spec fn ends_with_text(text: Seq<char>, suffix: Seq<char>) -> bool {
    suffix.len() <= text.len() && occurs_at(text, text.len() - suffix.len(), suffix)
}

/// The texts of a list of strings, in order.
pub open spec fn text_views(texts: Seq<String>) -> Seq<Seq<char>> {
    Seq::new(texts.len(), |i: int| texts[i]@)
}

/// The text of an optional string.
pub open spec fn option_text(text: Option<String>) -> Option<Seq<char>> {
    match text {
        Some(text) => Some(text@),
        None => None,
    }
}

/// The text of an optional string literal.
pub open spec fn option_str_text(text: Option<&'static str>) -> Option<Seq<char>> {
    match text {
        Some(text) => Some(text@),
        None => None,
    }
}

/// Appends one character to `text`.
///
/// Trusted: the body is `String::push`, which std documents as appending the
/// given `char` to the end of the string.
#[verifier::external_body]
pub(crate) fn push_char(text: &mut String, c: char)
    ensures
        final(text)@ == old(text)@.push(c),
{
    text.push(c);
}

/// The characters of `text`, in order.
pub fn chars_of(text: &str) -> (chars: Vec<char>)
    ensures
        chars@ == text@,
{
    let mut chars: Vec<char> = Vec::new();
    for c in it: text.chars()
        invariant
            it.seq() == text@,
            chars@ == it.seq().take(it.index()),
    {
        chars.push(c);
    }
    chars
}

/// Whether `part` occurs in `chars` at `offset`.
pub fn matches_at(chars: &Vec<char>, offset: usize, part: &str) -> (found: bool)
    ensures
        found == occurs_at(chars@, offset as int, part@),
{
    let wanted: usize = part.unicode_len();
    if offset > chars.len() || wanted > chars.len() - offset {
        return false;
    }
    let mut same = true;
    let mut i: usize = 0;
    for c in it: part.chars()
        invariant
            it.seq() == part@,
            i == it.index(),
            i <= wanted,
            wanted == part@.len(),
            offset + wanted <= chars@.len() <= usize::MAX,
            same == (forall|k: int| 0 <= k < i ==> chars@[offset + k] == part@[k]),
    {
        if chars[offset + i] != c {
            same = false;
        }
        i = i + 1;
    }
    proof {
        if same {
            assert(chars@.subrange(offset as int, offset + part@.len()) =~= part@);
        } else {
            let k = choose|k: int| 0 <= k < i && chars@[offset + k] != part@[k];
            assert(chars@.subrange(offset as int, offset + part@.len())[k] == chars@[offset + k]);
        }
    }
    same
}

/// Whether `chars` spells exactly `text`.
pub fn spells(chars: &Vec<char>, text: &str) -> (same: bool)
    ensures
        same == (chars@ == text@),
{
    let found = matches_at(chars, 0, text);
    let wanted: usize = text.unicode_len();
    proof {
        if found && wanted == chars@.len() {
            assert(chars@.subrange(0, chars@.len() as int) =~= chars@);
        }
        if chars@ == text@ {
            assert(chars@.subrange(0, chars@.len() as int) =~= chars@);
        }
    }
    found && wanted == chars.len()
}

/// Whether `chars` ends with `suffix`.
pub fn ends_with(chars: &Vec<char>, suffix: &str) -> (found: bool)
    ensures
        found == ends_with_text(chars@, suffix@),
{
    let wanted: usize = suffix.unicode_len();
    if wanted > chars.len() {
        return false;
    }
    matches_at(chars, chars.len() - wanted, suffix)
}

/// A copy of an optional string.
pub fn clone_option_text(text: &Option<String>) -> (copy: Option<String>)
    ensures
        option_text(copy) == option_text(*text),
{
    match text {
        Some(text) => Some(text.clone()),
        None => None,
    }
}

/// A copy of a list of strings.
pub fn clone_texts(texts: &Vec<String>) -> (copy: Vec<String>)
    ensures
        text_views(copy@) == text_views(texts@),
{
    let mut copy: Vec<String> = Vec::new();
    let mut i: usize = 0;
    while i < texts.len()
        invariant
            i <= texts.len(),
            text_views(copy@) == text_views(texts@).take(i as int),
        decreases texts.len() - i,
    {
        let ghost copied = text_views(copy@);
        let text = texts[i].clone();
        copy.push(text);
        assert(text_views(copy@) =~= copied.push(texts@[i as int]@));
        assert(text_views(copy@) =~= text_views(texts@).take(i + 1));
        i = i + 1;
    }
    assert(text_views(copy@) =~= text_views(texts@));
    copy
}

} // verus!
