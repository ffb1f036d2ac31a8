//! Names that are safe to embed in MQTT topics and discovery identifiers.
//!
//! Identifiers reported by the vendor are free-form. Before one becomes part
//! of a topic it is rewritten over the alphabet `[A-Za-z0-9_]`: letters and
//! digits stand for themselves, every other character becomes `_` followed
//! by the six lowercase hexadecimal digits of its code point. The rewriting
//! loses nothing, so two different identifiers never share a safe form.

use crate::service::device::Device;
use crate::text::push_char;
use vstd::prelude::*;

verus! {

/// The topic on which the bridge reports its own liveness.
pub open spec fn availability_topic_text() -> Seq<char> {
    "gv2mqtt/availability"@
}

/// The single, process-wide availability topic that every entity refers to.
pub fn availability_topic() -> (topic: String)
    ensures
        topic@ == availability_topic_text(),
{
    String::from_str("gv2mqtt/availability")
}

/// Characters that stand for themselves in a safe name.
pub open spec fn is_plain(c: char) -> bool {
    ('a' <= c && c <= 'z') || ('A' <= c && c <= 'Z') || ('0' <= c && c <= '9')
}

/// The lowercase hexadecimal digit for `n`, where `0 <= n < 16`.
pub open spec fn hex_digit(n: int) -> char {
    if n < 10 {
        (n + 48) as char
    } else {
        (n + 87) as char
    }
}

/// The escaped form of a character: `_` and six hexadecimal digits.
pub open spec fn escaped(c: char) -> Seq<char> {
    let code = c as int;
    seq![
        '_',
        hex_digit(code / 0x100000 % 16),
        hex_digit(code / 0x10000 % 16),
        hex_digit(code / 0x1000 % 16),
        hex_digit(code / 0x100 % 16),
        hex_digit(code / 0x10 % 16),
        hex_digit(code % 16),
    ]
}

/// The safe form of one character.
pub open spec fn topic_safe_char(c: char) -> Seq<char> {
    if is_plain(c) {
        seq![c]
    } else {
        escaped(c)
    }
}

/// The safe form of a text: the safe forms of its characters, in order.
pub open spec fn topic_safe_text(text: Seq<char>) -> Seq<char>
    decreases text.len(),
{
    if text.len() == 0 {
        Seq::empty()
    } else {
        topic_safe_char(text[0]) + topic_safe_text(text.drop_first())
    }
}

/// Appending a character to a text appends its safe form to the safe text.
pub proof fn lemma_topic_safe_push(text: Seq<char>, c: char)
    ensures
        topic_safe_text(text.push(c)) == topic_safe_text(text) + topic_safe_char(c),
    decreases text.len(),
{
    if text.len() == 0 {
        let single = text.push(c);
        assert(single.drop_first() =~= Seq::<char>::empty());
        assert(topic_safe_text(single.drop_first()) =~= Seq::<char>::empty());
        assert(single[0] == c);
        assert(topic_safe_text(single) =~= topic_safe_char(c) + Seq::<char>::empty());
        assert(topic_safe_text(text) =~= Seq::<char>::empty());
    } else {
        lemma_topic_safe_push(text.drop_first(), c);
        assert(text.push(c).drop_first() =~= text.drop_first().push(c));
        assert(topic_safe_text(text.push(c)) =~= topic_safe_text(text) + topic_safe_char(c));
    }
}

/// Every character of `text` is a letter, a digit or `_`.
pub open spec fn is_topic_safe(text: Seq<char>) -> bool {
    forall|i: int| 0 <= i < text.len() ==> is_plain(#[trigger] text[i]) || text[i] == '_'
}

proof fn lemma_hex_digit(n: int)
    requires
        0 <= n < 16,
    ensures
        is_plain(hex_digit(n)),
        hex_digit(n) as int == (if n < 10 { n + 48 } else { n + 87 }),
{
}

proof fn lemma_escaped_injective(a: char, b: char)
    requires
        escaped(a) == escaped(b),
    ensures
        a == b,
{
    let x = a as int;
    let y = b as int;
    assert(escaped(a)[1] == escaped(b)[1]);
    assert(escaped(a)[2] == escaped(b)[2]);
    assert(escaped(a)[3] == escaped(b)[3]);
    assert(escaped(a)[4] == escaped(b)[4]);
    assert(escaped(a)[5] == escaped(b)[5]);
    assert(escaped(a)[6] == escaped(b)[6]);
    lemma_hex_digit(x / 0x100000 % 16);
    lemma_hex_digit(y / 0x100000 % 16);
    lemma_hex_digit(x / 0x10000 % 16);
    lemma_hex_digit(y / 0x10000 % 16);
    lemma_hex_digit(x / 0x1000 % 16);
    lemma_hex_digit(y / 0x1000 % 16);
    lemma_hex_digit(x / 0x100 % 16);
    lemma_hex_digit(y / 0x100 % 16);
    lemma_hex_digit(x / 0x10 % 16);
    lemma_hex_digit(y / 0x10 % 16);
    lemma_hex_digit(x % 16);
    lemma_hex_digit(y % 16);
    assert(x / 0x100000 % 16 == y / 0x100000 % 16);
    assert(x / 0x10000 % 16 == y / 0x10000 % 16);
    assert(x / 0x1000 % 16 == y / 0x1000 % 16);
    assert(x / 0x100 % 16 == y / 0x100 % 16);
    assert(x / 0x10 % 16 == y / 0x10 % 16);
    assert(x % 16 == y % 16);
    assert(x == y);
}

/// A safe text holds only letters, digits and `_`: none of the characters
/// that separate or match topic levels, and no `-`.
pub proof fn lemma_topic_safe_alphabet(text: Seq<char>)
    ensures
        is_topic_safe(topic_safe_text(text)),
    decreases text.len(),
{
    if text.len() > 0 {
        let c = text[0];
        let code = c as int;
        lemma_topic_safe_alphabet(text.drop_first());
        lemma_hex_digit(code / 0x100000 % 16);
        lemma_hex_digit(code / 0x10000 % 16);
        lemma_hex_digit(code / 0x1000 % 16);
        lemma_hex_digit(code / 0x100 % 16);
        lemma_hex_digit(code / 0x10 % 16);
        lemma_hex_digit(code % 16);
        assert(is_topic_safe(topic_safe_char(c)));
    }
}

/// Two texts with the same safe form are the same text.
pub proof fn lemma_topic_safe_injective(a: Seq<char>, b: Seq<char>)
    requires
        topic_safe_text(a) == topic_safe_text(b),
    ensures
        a == b,
    decreases a.len(),
{
    if a.len() == 0 || b.len() == 0 {
        if a.len() > 0 {
            assert(topic_safe_char(a[0]).len() > 0);
        }
        if b.len() > 0 {
            assert(topic_safe_char(b[0]).len() > 0);
        }
        assert(a =~= b);
    } else {
        let head_a = topic_safe_char(a[0]);
        let head_b = topic_safe_char(b[0]);
        let rest_a = topic_safe_text(a.drop_first());
        let rest_b = topic_safe_text(b.drop_first());
        let whole = topic_safe_text(a);
        assert(whole == head_a + rest_a);
        assert(whole == head_b + rest_b);
        assert(head_a[0] == whole[0]);
        assert(head_b[0] == whole[0]);
        assert(is_plain(a[0]) == is_plain(b[0]));
        assert(head_a.len() == head_b.len());
        assert(head_a =~= whole.subrange(0, head_a.len() as int));
        assert(head_b =~= whole.subrange(0, head_b.len() as int));
        assert(rest_a =~= whole.subrange(head_a.len() as int, whole.len() as int));
        assert(rest_b =~= whole.subrange(head_b.len() as int, whole.len() as int));
        if is_plain(a[0]) {
            assert(head_a[0] == a[0] && head_b[0] == b[0]);
        } else {
            lemma_escaped_injective(a[0], b[0]);
        }
        lemma_topic_safe_injective(a.drop_first(), b.drop_first());
        assert(a =~= seq![a[0]] + a.drop_first());
        assert(b =~= seq![b[0]] + b.drop_first());
    }
}

fn is_plain_char(c: char) -> (plain: bool)
    ensures
        plain == is_plain(c),
{
    (c >= 'a' && c <= 'z') || (c >= 'A' && c <= 'Z') || (c >= '0' && c <= '9')
}

fn hex_digit_char(n: u8) -> (digit: char)
    requires
        n < 16,
    ensures
        digit == hex_digit(n as int),
{
    if n < 10 {
        (n + 48u8) as char
    } else {
        (n + 87u8) as char
    }
}

fn push_escaped(safe: &mut String, c: char)
    ensures
        final(safe)@ == old(safe)@ + escaped(c),
{
    let code: u32 = c as u32;
    push_char(safe, '_');
    push_char(safe, hex_digit_char((code / 0x100000 % 16) as u8));
    push_char(safe, hex_digit_char((code / 0x10000 % 16) as u8));
    push_char(safe, hex_digit_char((code / 0x1000 % 16) as u8));
    push_char(safe, hex_digit_char((code / 0x100 % 16) as u8));
    push_char(safe, hex_digit_char((code / 0x10 % 16) as u8));
    push_char(safe, hex_digit_char((code % 16) as u8));
    assert(safe@ =~= old(safe)@ + escaped(c));
}

/// Rewrites `text` so that it can stand inside a topic or an identifier.
pub fn topic_safe_string(text: &str) -> (safe: String)
    ensures
        safe@ == topic_safe_text(text@),
{
    let mut safe = String::new();
    for c in it: text.chars()
        invariant
            it.seq() == text@,
            safe@ == topic_safe_text(text@.take(it.index())),
    {
        proof {
            lemma_topic_safe_push(text@.take(it.index()), c);
            assert(text@.take(it.index() + 1) =~= text@.take(it.index()).push(c));
        }
        if is_plain_char(c) {
            push_char(&mut safe, c);
        } else {
            push_escaped(&mut safe, c);
        }
    }
    assert(text@.take(text@.len() as int) =~= text@);
    safe
}

/// The id of `device`, rewritten so that it can stand inside a topic.
pub fn topic_safe_id(device: &Device) -> (safe: String)
    ensures
        safe@ == topic_safe_text(device@.id),
{
    topic_safe_string(device.id())
}

} // verus!
