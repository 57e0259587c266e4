//! Texts as sequences of characters: replacement of one character, counting
//! of one character, and the length of the UTF-8 encoding.
use vstd::prelude::*;
use vstd::string::*;
use vstd::utf8::*;

verus! {

/// `text` with every occurrence of `target` replaced by `replacement`.
pub open spec fn replace_char_text(text: Seq<char>, target: char, replacement: Seq<char>) -> Seq<
    char,
>
    decreases text.len(),
{
    if text.len() == 0 {
        Seq::empty()
    } else {
        replace_char_text(text.drop_last(), target, replacement) + (if text.last() == target {
            replacement
        } else {
            seq![text.last()]
        })
    }
}

/// The number of occurrences of `c` in `text`.
pub open spec fn count_char(text: Seq<char>, c: char) -> nat
    decreases text.len(),
{
    if text.len() == 0 {
        0
    } else {
        count_char(text.drop_last(), c) + if text.last() == c {
            1nat
        } else {
            0nat
        }
    }
}

/// The length in bytes of the UTF-8 encoding of `text`.
pub open spec fn utf8_len(text: Seq<char>) -> nat {
    encode_utf8(text).len()
}

/// Specifies `std::string::String::push`, of which the documentation says
/// that it appends the given character to the end of the string.
pub assume_specification[ String::push ](s: &mut String, ch: char)
    ensures
        final(s)@ == old(s)@.push(ch),
;

/// A copy of `text` in which `replacement` stands for every `target`.
pub fn replace_char(text: &str, target: char, replacement: &str) -> (out: String)
    ensures
        out@ == replace_char_text(text@, target, replacement@),
{
    broadcast use vstd::string::group_string_axioms;

    let mut out = String::new();
    for c in it: text.chars()
        invariant
            it.seq() == text@,
            out@ == replace_char_text(text@.take(it.index()), target, replacement@),
    {
        proof {
            let i: int = it.index();
            assert(text@.take(i + 1).drop_last() == text@.take(i));
            assert(text@.take(i + 1).last() == c);
        }
        if c == target {
            out.append(replacement);
        } else {
            out.push(c);
            assert(out@ == replace_char_text(text@.take(it.index()), target, replacement@) + seq![c]);
        }
    }
    proof {
        assert(text@.take(text@.len() as int) == text@);
    }
    out
}

/// The UTF-8 encoding of a concatenation is the concatenation of the
/// encodings.
pub proof fn lemma_encode_utf8_concat(a: Seq<char>, b: Seq<char>)
    ensures
        encode_utf8(a + b) == encode_utf8(a) + encode_utf8(b),
    decreases a.len(),
{
    if a.len() == 0 {
        assert(a + b == b);
        assert(encode_utf8(a) + encode_utf8(b) == encode_utf8(b));
    } else {
        assert((a + b).drop_first() == a.drop_first() + b);
        lemma_encode_utf8_concat(a.drop_first(), b);
        assert((a + b)[0] == a[0]);
        assert(encode_utf8(a + b) == encode_scalar(a[0] as u32) + (encode_utf8(a.drop_first())
            + encode_utf8(b)));
    }
}

/// The UTF-8 encoding of a text has between one and four bytes for each
/// character.
pub proof fn lemma_utf8_len_bounds(text: Seq<char>)
    ensures
        text.len() <= utf8_len(text) <= 4 * text.len(),
    decreases text.len(),
{
    if text.len() > 0 {
        lemma_utf8_len_bounds(text.drop_first());
    }
}

/// The UTF-8 encoding of a concatenation is as long as the two encodings
/// together.
pub proof fn lemma_utf8_len_concat(a: Seq<char>, b: Seq<char>)
    ensures
        utf8_len(a + b) == utf8_len(a) + utf8_len(b),
{
    lemma_encode_utf8_concat(a, b);
}

/// Counting distributes over concatenation.
pub proof fn lemma_count_char_concat(a: Seq<char>, b: Seq<char>, c: char)
    ensures
        count_char(a + b, c) == count_char(a, c) + count_char(b, c),
    decreases b.len(),
{
    if b.len() == 0 {
        assert(a + b == a);
    } else {
        assert((a + b).drop_last() == a + b.drop_last());
        assert((a + b).last() == b.last());
        lemma_count_char_concat(a, b.drop_last(), c);
    }
}

/// A text without `c` counts none.
pub proof fn lemma_count_char_absent(text: Seq<char>, c: char)
    requires
        forall|i: int| 0 <= i < text.len() ==> text[i] != c,
    ensures
        count_char(text, c) == 0,
    decreases text.len(),
{
    if text.len() > 0 {
        lemma_count_char_absent(text.drop_last(), c);
    }
}

/// Replacing one character by three makes a text at most three times as
/// long.
pub proof fn lemma_replace_char_text_len(text: Seq<char>, target: char, replacement: Seq<char>)
    requires
        replacement.len() == 3,
    ensures
        replace_char_text(text, target, replacement).len() <= 3 * text.len(),
    decreases text.len(),
{
    if text.len() > 0 {
        lemma_replace_char_text_len(text.drop_last(), target, replacement);
    }
}

/// The number of fields that commas part a text into.
pub open spec fn field_count(text: Seq<char>) -> nat {
    count_char(text, ',') + 1
}

/// A text of one character counts it once, and counts no other.
pub proof fn lemma_count_char_one(text: Seq<char>, c: char)
    requires
        text.len() == 1,
    ensures
        count_char(text, c) == if text[0] == c {
            1nat
        } else {
            0nat
        },
{
    assert(text.drop_last().len() == 0);
    assert(count_char(text.drop_last(), c) == 0);
}

} // verus!
