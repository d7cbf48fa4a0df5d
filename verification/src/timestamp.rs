//! The fixed-offset split of a timestamp into its date and its time of day.
//!
//! A timestamp such as `2025-01-01T23:34:56.987Z` is cut by byte offsets, not
//! parsed: bytes 0 to 9 are the date, byte 10 is the separator and everything
//! from byte 11 on is the time of day.

use vstd::prelude::*;
use vstd::string::*;
use vstd::utf8::*;
use crate::encoding::lemma_ascii_prefix_cut;

verus! {

/// Byte length of the date at the start of a timestamp.
pub const DATE_WIDTH: usize = 10;

/// Byte offset at which the time of day starts.
pub const TIME_OFFSET: usize = 11;

/// True when a timestamp has a character boundary at byte offsets 10 and 11,
/// so that it is at least 11 bytes long and both cuts fall between characters.
pub open spec fn can_split(timestamp: Seq<char>) -> bool {
    &&& is_char_boundary(encode_utf8(timestamp), DATE_WIDTH as int)
    &&& is_char_boundary(encode_utf8(timestamp), TIME_OFFSET as int)
}

/// The date of a timestamp: the characters held in its first 10 bytes.
pub open spec fn date_part(timestamp: Seq<char>) -> Seq<char> {
    decode_utf8(encode_utf8(timestamp).subrange(0, DATE_WIDTH as int))
}

/// The time of day of a timestamp: the characters from byte offset 11 on.
pub open spec fn time_part(timestamp: Seq<char>) -> Seq<char> {
    decode_utf8(
        encode_utf8(timestamp).subrange(TIME_OFFSET as int, encode_utf8(timestamp).len() as int),
    )
}

/// True for a decimal digit.
pub open spec fn is_digit(c: char) -> bool {
    '0' <= c <= '9'
}

/// True for a timestamp of the form `YYYY-MM-DDThh:mm:ss.sssZ`.
pub open spec fn is_iso_utc_millis(timestamp: Seq<char>) -> bool {
    &&& timestamp.len() == 24
    &&& is_digit(timestamp[0]) && is_digit(timestamp[1]) && is_digit(timestamp[2]) && is_digit(
        timestamp[3],
    )
    &&& timestamp[4] == '-'
    &&& is_digit(timestamp[5]) && is_digit(timestamp[6])
    &&& timestamp[7] == '-'
    &&& is_digit(timestamp[8]) && is_digit(timestamp[9])
    &&& timestamp[10] == 'T'
    &&& is_digit(timestamp[11]) && is_digit(timestamp[12])
    &&& timestamp[13] == ':'
    &&& is_digit(timestamp[14]) && is_digit(timestamp[15])
    &&& timestamp[16] == ':'
    &&& is_digit(timestamp[17]) && is_digit(timestamp[18])
    &&& timestamp[19] == '.'
    &&& is_digit(timestamp[20]) && is_digit(timestamp[21]) && is_digit(timestamp[22])
    &&& timestamp[23] == 'Z'
}

/// A character boundary of well-formed UTF-8 lies within the bytes.
proof fn lemma_boundary_within(bytes: Seq<u8>, index: int)
    requires
        valid_utf8(bytes),
        is_char_boundary(bytes, index),
    ensures
        0 <= index <= bytes.len(),
{
}

/// A timestamp of fewer than 11 bytes cannot be split: it holds no record.
pub proof fn lemma_short_timestamp_cannot_split(timestamp: Seq<char>)
    requires
        encode_utf8(timestamp).len() < 11,
    ensures
        !can_split(timestamp),
{
    encode_utf8_valid_utf8(timestamp);
    if can_split(timestamp) {
        lemma_boundary_within(encode_utf8(timestamp), 11);
    }
}

/// A timestamp whose first 11 characters are ASCII can be split, its date is
/// its first 10 characters and its time of day is what follows the 11th.
pub proof fn lemma_ascii_prefix_splits(timestamp: Seq<char>)
    requires
        timestamp.len() >= 11,
        is_ascii_chars(timestamp.subrange(0, 11)),
    ensures
        can_split(timestamp),
        date_part(timestamp) == timestamp.subrange(0, 10),
        time_part(timestamp) == timestamp.subrange(11, timestamp.len() as int),
{
    assert(is_ascii_chars(timestamp.subrange(0, 10))) by {
        assert forall|i: int| 0 <= i < 10 implies '\0' <= #[trigger] timestamp.subrange(0, 10)[i]
            <= '\u{7f}' by {
            assert(timestamp.subrange(0, 10)[i] == timestamp.subrange(0, 11)[i]);
        }
    }
    lemma_ascii_prefix_cut(timestamp, 10);
    lemma_ascii_prefix_cut(timestamp, 11);
    encode_utf8_decode_utf8(timestamp.subrange(0, 10));
    encode_utf8_decode_utf8(timestamp.subrange(11, timestamp.len() as int));
}

/// For a timestamp of the form `YYYY-MM-DDThh:mm:ss.sssZ`, the time of day is
/// the timestamp without its first 11 characters, and the date is its first 10.
pub proof fn lemma_iso_timestamp_splits(timestamp: Seq<char>)
    requires
        is_iso_utc_millis(timestamp),
    ensures
        can_split(timestamp),
        date_part(timestamp) == timestamp.subrange(0, 10),
        time_part(timestamp) == timestamp.subrange(11, 24),
        time_part(timestamp).len() == 13,
{
    assert(is_ascii_chars(timestamp.subrange(0, 11))) by {
        assert forall|i: int| 0 <= i < 11 implies '\0' <= #[trigger] timestamp.subrange(0, 11)[i]
            <= '\u{7f}' by {
            assert(timestamp.subrange(0, 11)[i] == timestamp[i]);
        }
    }
    lemma_ascii_prefix_splits(timestamp);
}

/// Tells whether a timestamp can be split into its date and its time of day.
pub fn splits(timestamp: &str) -> (ok: bool)
    ensures
        ok == can_split(timestamp@),
{
    timestamp.is_char_boundary(DATE_WIDTH) && timestamp.is_char_boundary(TIME_OFFSET)
}

/// The date at the start of a timestamp.
pub fn date_of<'a>(timestamp: &'a str) -> (date: &'a str)
    requires
        can_split(timestamp@),
    ensures
        date@ == date_part(timestamp@),
{
    let (date, _) = timestamp.split_at(DATE_WIDTH);
    proof {
        encode_utf8_decode_utf8(date@);
    }
    date
}

/// The time of day of a timestamp: what follows its date and the separator.
pub fn time_of<'a>(timestamp: &'a str) -> (time: &'a str)
    requires
        can_split(timestamp@),
    ensures
        time@ == time_part(timestamp@),
{
    let (_, time) = timestamp.split_at(TIME_OFFSET);
    proof {
        encode_utf8_decode_utf8(time@);
    }
    time
}

} // verus!
