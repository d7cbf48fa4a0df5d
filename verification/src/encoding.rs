//! Facts about the UTF-8 encoding of texts that the crate's byte-level code
//! rests on.

use vstd::prelude::*;
use vstd::utf8::*;

verus! {

/// Two character sequences with the same UTF-8 encoding are the same sequence.
pub proof fn lemma_encoding_is_injective(a: Seq<char>, b: Seq<char>)
    requires
        encode_utf8(a) == encode_utf8(b),
    ensures
        a == b,
{
    encode_utf8_decode_utf8(a);
    encode_utf8_decode_utf8(b);
}

/// The encoding of a concatenation is the concatenation of the encodings.
pub proof fn lemma_encode_concat(a: Seq<char>, b: Seq<char>)
    ensures
        encode_utf8(a + b) == encode_utf8(a) + encode_utf8(b),
    decreases a.len(),
{
    if a.len() == 0 {
        assert(a + b =~= b);
        assert(encode_utf8(a) + encode_utf8(b) =~= encode_utf8(b));
    } else {
        lemma_encode_concat(a.drop_first(), b);
        assert((a + b).drop_first() =~= a.drop_first() + b);
        assert(encode_utf8(a + b) =~= encode_utf8(a) + encode_utf8(b));
    }
}

/// A text has at least as many bytes as characters.
pub proof fn lemma_encoding_is_no_shorter(text: Seq<char>)
    ensures
        encode_utf8(text).len() >= text.len(),
    decreases text.len(),
{
    if text.len() > 0 {
        lemma_encoding_is_no_shorter(text.drop_first());
    }
}

/// Where a text is cut between two characters, the byte offset of the cut is
/// a character boundary of its encoding, and the bytes before and after the
/// cut are the encodings of the two parts.
pub proof fn lemma_cut_between(head: Seq<char>, tail: Seq<char>)
    ensures
        is_char_boundary(encode_utf8(head + tail), encode_utf8(head).len() as int),
        encode_utf8(head + tail).subrange(0, encode_utf8(head).len() as int) == encode_utf8(head),
        encode_utf8(head + tail).subrange(
            encode_utf8(head).len() as int,
            encode_utf8(head + tail).len() as int,
        ) == encode_utf8(tail),
{
    let bytes = encode_utf8(head + tail);
    let n = encode_utf8(head).len() as int;
    lemma_encode_concat(head, tail);
    assert(bytes.subrange(0, n) =~= encode_utf8(head));
    assert(bytes.subrange(n, bytes.len() as int) =~= encode_utf8(tail));
    encode_utf8_valid_utf8(head + tail);
    if n == bytes.len() {
        is_char_boundary_start_end_of_seq(bytes);
    } else {
        encode_utf8_valid_utf8(tail);
        assert(is_char_boundary(encode_utf8(tail), 0));
        is_char_boundary_iff_not_is_continuation_byte(encode_utf8(tail), 0);
        assert(bytes[n] == encode_utf8(tail)[0]);
        is_char_boundary_iff_not_is_continuation_byte(bytes, n);
    }
}

/// Where the first `n` characters of a text are ASCII, byte offset `n` is a
/// character boundary, and what lies before and after it in the encoding is
/// the encoding of the first `n` characters and of the rest.
pub proof fn lemma_ascii_prefix_cut(text: Seq<char>, n: int)
    requires
        0 <= n <= text.len(),
        is_ascii_chars(text.subrange(0, n)),
    ensures
        is_char_boundary(encode_utf8(text), n),
        n <= encode_utf8(text).len(),
        encode_utf8(text).subrange(0, n) == encode_utf8(text.subrange(0, n)),
        encode_utf8(text).subrange(n, encode_utf8(text).len() as int) == encode_utf8(
            text.subrange(n, text.len() as int),
        ),
{
    let head = text.subrange(0, n);
    let tail = text.subrange(n, text.len() as int);
    assert(text =~= head + tail);
    is_ascii_chars_encode_utf8(head);
    lemma_encode_concat(head, tail);
    lemma_cut_between(head, tail);
}

/// The encoding of one character: a single byte below 128 exactly for an
/// ASCII character, whose code that byte then is; and a run of bytes that
/// starts and ends at 128 or above for every other character.
pub proof fn lemma_encode_one(c: char)
    ensures
        encode_utf8(seq![c]).len() >= 1,
        c <= '\u{7f}' ==> encode_utf8(seq![c]).len() == 1 && encode_utf8(seq![c])[0] as u32
            == c as u32,
        encode_utf8(seq![c]).first() < 0x80 <==> c <= '\u{7f}',
        encode_utf8(seq![c]).last() < 0x80 <==> c <= '\u{7f}',
{
    let s = c as u32;
    let one = seq![c];
    assert(one[0] == c);
    assert(one.drop_first() =~= Seq::<char>::empty());
    assert(encode_utf8(one.drop_first()) =~= Seq::<u8>::empty());
    assert(encode_utf8(one) =~= encode_scalar(s));
    char_is_scalar(c);
    if has_width_1_encoding(s) {
        assert(((s & 0x7F) as u8) as u32 == s && ((s & 0x7F) as u8) < 0x80u8) by (bit_vector)
            requires
                s <= 0x7F,
        ;
    } else {
        assert(0xC0u8 | ((s >> 6) & 0x1F) as u8 >= 0x80) by (bit_vector);
        assert(0xE0u8 | ((s >> 12) & 0x0F) as u8 >= 0x80) by (bit_vector);
        assert(0xF0u8 | ((s >> 18) & 0x7) as u8 >= 0x80) by (bit_vector);
        assert(0x80u8 | (s & 0x3F) as u8 >= 0x80) by (bit_vector);
    }
}

/// The first byte of a text is below 128 exactly when its first character is
/// ASCII, and is then the code of that character.
pub proof fn lemma_first_byte(text: Seq<char>)
    requires
        text.len() > 0,
    ensures
        encode_utf8(text).len() > 0,
        encode_utf8(text)[0] < 0x80 <==> text[0] <= '\u{7f}',
        text[0] <= '\u{7f}' ==> encode_utf8(text)[0] as u32 == text[0] as u32,
{
    let one = encode_utf8(seq![text[0]]);
    assert(text =~= seq![text[0]] + text.drop_first());
    lemma_encode_concat(seq![text[0]], text.drop_first());
    lemma_encode_one(text[0]);
    assert(encode_utf8(text)[0] == one.first());
}

/// The last byte of a text is below 128 exactly when its last character is
/// ASCII, and is then the code of that character; the bytes before it are
/// the encoding of the text without its last character.
pub proof fn lemma_last_byte(text: Seq<char>)
    requires
        text.len() > 0,
    ensures
        encode_utf8(text).len() > 0,
        encode_utf8(text).last() < 0x80 <==> text.last() <= '\u{7f}',
        text.last() <= '\u{7f}' ==> encode_utf8(text).last() as u32 == text.last() as u32,
        text.last() <= '\u{7f}' ==> encode_utf8(text).drop_last() == encode_utf8(text.drop_last()),
{
    let one = encode_utf8(seq![text.last()]);
    assert(text =~= text.drop_last() + seq![text.last()]);
    lemma_encode_concat(text.drop_last(), seq![text.last()]);
    lemma_encode_one(text.last());
    assert(encode_utf8(text).last() == one.last());
    if text.last() <= '\u{7f}' {
        assert(encode_utf8(text).drop_last() =~= encode_utf8(text.drop_last()));
    }
}

} // verus!
