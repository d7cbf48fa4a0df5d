//! One decoded log record and the rules by which a line becomes one.

use vstd::prelude::*;
use vstd::string::*;
use vstd::utf8::*;
use crate::encoding::{
    lemma_ascii_prefix_cut, lemma_cut_between, lemma_encode_one, lemma_encoding_is_injective,
    lemma_encoding_is_no_shorter, lemma_first_byte, lemma_last_byte,
};
use crate::json::{check_document, error_report, is_document, member_text, raw_member, text_of};
use crate::timestamp::{
    can_split, date_of, date_part, lemma_ascii_prefix_splits, splits, time_of, time_part,
};

verus! {

/// One of the three fields that a record must hold as a JSON string.
#[derive(Clone, Copy, Debug, PartialEq, Eq, Structural)]
pub enum Field {
    Timestamp,
    Level,
    Message,
}

/// The key of a field in the JSON object of a record.
pub open spec fn field_key(field: Field) -> Seq<char> {
    match field {
        Field::Timestamp => "timestamp"@,
        Field::Level => "level"@,
        Field::Message => "message"@,
    }
}

impl Field {
    /// The key of this field in the JSON object of a record.
    pub fn key(self) -> (key: &'static str)
        ensures
            key@ == field_key(self),
    {
        match self {
            Field::Timestamp => "timestamp",
            Field::Level => "level",
            Field::Message => "message",
        }
    }
}

/// Why a line is no record. A caller that only needs to know that decoding
/// failed need not look inside.
#[derive(Debug, PartialEq, Eq)]
pub enum DecodeError {
    /// The line is not one well-formed JSON document. Holds the report of the
    /// JSON parser.
    Malformed(String),
    /// The document has no member of this name, or the first member of this
    /// name is no JSON string; this is also what a document that is not an
    /// object gives.
    MissingField(Field),
    /// The timestamp has no character boundary at byte offsets 10 and 11, so
    /// it cannot be split into a date and a time of day.
    ShortTimestamp,
}

impl DecodeError {
    /// The text that describes this error to a reader.
    pub open spec fn description(&self) -> Seq<char> {
        match self {
            DecodeError::Malformed(report) => report@,
            DecodeError::MissingField(field) => "missing field `"@ + field_key(*field) + "`"@,
            DecodeError::ShortTimestamp => "timestamp is too short to hold a date and a time"@,
        }
    }

    /// Describes this error to a reader.
    pub fn describe(&self) -> (text: String)
        ensures
            text@ == self.description(),
    {
        match self {
            DecodeError::Malformed(report) => report.clone(),
            DecodeError::MissingField(field) => {
                let mut text = String::new();
                text.append("missing field `");
                text.append(field.key());
                text.append("`");
                assert(text@ =~= self.description());
                text
            },
            DecodeError::ShortTimestamp => {
                let mut text = String::new();
                text.append("timestamp is too short to hold a date and a time");
                assert(text@ =~= self.description());
                text
            },
        }
    }
}

/// What a record is, as plain text: its model in contracts.
pub struct LogLineView {
    pub timestamp: Seq<char>,
    pub level: Seq<char>,
    pub message: Seq<char>,
}

impl LogLineView {
    /// A record is well formed when its timestamp can be split into a date and
    /// a time of day.
    pub open spec fn well_formed(self) -> bool {
        can_split(self.timestamp)
    }

    /// The date of the record's timestamp.
    pub open spec fn date(self) -> Seq<char> {
        date_part(self.timestamp)
    }

    /// The time of day of the record's timestamp.
    pub open spec fn time_of_day(self) -> Seq<char> {
        time_part(self.timestamp)
    }
}

/// The record that three looked-up fields give, or the reason why they give
/// none. The first shortcoming counts: a missing timestamp, then level, then
/// message, then a timestamp that cannot be split.
pub open spec fn record_of(
    timestamp: Option<Seq<char>>,
    level: Option<Seq<char>>,
    message: Option<Seq<char>>,
) -> Result<LogLineView, DecodeError> {
    if timestamp is None {
        Err(DecodeError::MissingField(Field::Timestamp))
    } else if level is None {
        Err(DecodeError::MissingField(Field::Level))
    } else if message is None {
        Err(DecodeError::MissingField(Field::Message))
    } else if !can_split(timestamp->0) {
        Err(DecodeError::ShortTimestamp)
    } else {
        Ok(LogLineView { timestamp: timestamp->0, level: level->0, message: message->0 })
    }
}

/// The content of a JSON string, read off its JSON text: what stands between
/// the two quotation marks, as it stands there. A JSON text that does not
/// begin and end with a quotation mark is no string and has none.
pub open spec fn string_content(raw: Seq<char>) -> Option<Seq<char>> {
    if raw.len() >= 2 && raw.first() == '"' && raw.last() == '"' {
        Some(raw.subrange(1, raw.len() - 1))
    } else {
        None
    }
}

/// The text of a field of a document: the content of the first member of
/// that name, where the document is an object and that member is a string.
pub open spec fn field_text(line: Seq<char>, field: Field) -> Option<Seq<char>> {
    match member_text(line, field_key(field)) {
        Some(raw) => string_content(raw),
        None => None,
    }
}

/// What decoding a line gives, where the line is a JSON document.
pub open spec fn record_of_document(line: Seq<char>) -> Result<LogLineView, DecodeError> {
    record_of(
        field_text(line, Field::Timestamp),
        field_text(line, Field::Level),
        field_text(line, Field::Message),
    )
}

/// The record that a line decodes to, if it decodes: the line is a JSON
/// document, an object whose members `timestamp`, `level` and `message` are
/// strings, and the timestamp can be split.
pub open spec fn decoded(line: Seq<char>) -> Option<LogLineView> {
    if is_document(line) {
        match record_of_document(line) {
            Ok(record) => Some(record),
            Err(_) => None,
        }
    } else {
        None
    }
}

/// True when `error` is the reason why `line` is no record.
pub open spec fn explains(error: DecodeError, line: Seq<char>) -> bool {
    if is_document(line) {
        record_of_document(line) == Err::<LogLineView, DecodeError>(error)
    } else {
        error is Malformed
    }
}

/// The content of a JSON string, given its JSON text; `None` for the JSON
/// text of anything else. The content is borrowed from the text, and escape
/// sequences in it are left as they are.
pub fn unquote<'a>(raw: &'a str) -> (content: Option<&'a str>)
    ensures
        text_of(content) == string_content(raw@),
{
    let bytes = raw.as_bytes();
    let n = bytes.len();
    proof {
        lemma_encoding_is_no_shorter(raw@);
        if raw@.len() > 0 {
            lemma_first_byte(raw@);
            lemma_last_byte(raw@);
        }
    }
    if n < 2 || bytes[0] != 0x22 || bytes[n - 1] != 0x22 {
        return None;
    }
    proof {
        let text = raw@;
        assert(text.len() > 0);
        assert(text.first() as u32 == 0x22 && text.last() as u32 == 0x22);
        char_u32_cast(text.first(), 0x22u32);
        char_u32_cast(text.last(), 0x22u32);
        char_u32_cast('"', 0x22u32);
        assert(text.first() == '"');
        assert(text.last() == '"');
        if text.len() == 1 {
            assert(text =~= seq![text[0]]);
            lemma_encode_one(text[0]);
        }
        assert(is_ascii_chars(text.subrange(0, 1)));
        lemma_ascii_prefix_cut(text, 1);
    }
    let (_, rest) = raw.split_at(1);
    proof {
        let text = raw@;
        let tail = text.subrange(1, text.len() as int);
        assert(rest.spec_bytes() == encode_utf8(tail));
        lemma_encoding_is_injective(rest@, tail);
        assert(tail.last() == '"');
        lemma_last_byte(tail);
        assert(tail =~= tail.drop_last() + seq![tail.last()]);
        lemma_cut_between(tail.drop_last(), seq![tail.last()]);
        lemma_encode_one(tail.last());
        assert(encode_utf8(tail.drop_last()).len() == n - 2);
    }
    let (content, _) = rest.split_at(n - 2);
    proof {
        let text = raw@;
        let tail = text.subrange(1, text.len() as int);
        assert(content.spec_bytes() == encode_utf8(tail.drop_last()));
        lemma_encoding_is_injective(content@, tail.drop_last());
        assert(tail.drop_last() =~= text.subrange(1, text.len() - 1));
    }
    Some(content)
}

/// The text of a field of a document.
fn field_of<'a>(line: &'a str, field: Field) -> (text: Option<&'a str>)
    requires
        is_document(line@),
    ensures
        text_of(text) == field_text(line@, field),
{
    match raw_member(line, field.key()) {
        Some(raw) => unquote(raw),
        None => None,
    }
}

/// One log record: three texts borrowed from the line that holds them.
#[derive(Debug)]
pub struct LogLine<'a> {
    timestamp: &'a str,
    level: &'a str,
    message: &'a str,
}

impl<'a> View for LogLine<'a> {
    type V = LogLineView;

    closed spec fn view(&self) -> LogLineView {
        LogLineView { timestamp: self.timestamp@, level: self.level@, message: self.message@ }
    }
}

impl<'a> LogLine<'a> {
    #[verifier::type_invariant]
    spec fn splittable(&self) -> bool {
        can_split(self.timestamp@)
    }

    /// A record with the given message, a fixed timestamp and the level `info`.
    pub fn from_message(message: &'a str) -> (record: Self)
        ensures
            record@ == (LogLineView {
                timestamp: "2025-01-01T12:00:00.345Z"@,
                level: "info"@,
                message: message@,
            }),
            record@.well_formed(),
    {
        proof {
            reveal_strlit("2025-01-01T12:00:00.345Z");
            lemma_ascii_prefix_splits("2025-01-01T12:00:00.345Z"@);
        }
        LogLine { timestamp: "2025-01-01T12:00:00.345Z", level: "info", message }
    }

    /// The record made of three looked-up fields, each `None` where the
    /// document has no such string member.
    pub fn from_fields(
        timestamp: Option<&'a str>,
        level: Option<&'a str>,
        message: Option<&'a str>,
    ) -> (outcome: Result<Self, DecodeError>)
        ensures
            match record_of(text_of(timestamp), text_of(level), text_of(message)) {
                Ok(record) => outcome matches Ok(made) && made@ == record,
                Err(error) => outcome == Err::<Self, DecodeError>(error),
            },
    {
        match (timestamp, level, message) {
            (None, _, _) => Err(DecodeError::MissingField(Field::Timestamp)),
            (Some(_), None, _) => Err(DecodeError::MissingField(Field::Level)),
            (Some(_), Some(_), None) => Err(DecodeError::MissingField(Field::Message)),
            (Some(timestamp), Some(level), Some(message)) => {
                if splits(timestamp) {
                    Ok(LogLine { timestamp, level, message })
                } else {
                    Err(DecodeError::ShortTimestamp)
                }
            },
        }
    }

    /// Decodes one line of text, without its line terminator, into the
    /// record that it holds. The record borrows its three texts from the
    /// line: nothing is copied.
    pub fn decode(line: &'a str) -> (outcome: Result<Self, DecodeError>)
        ensures
            match decoded(line@) {
                Some(record) => outcome matches Ok(made) && made@ == record,
                None => outcome matches Err(error) && explains(error, line@),
            },
    {
        match check_document(line) {
            Err(err) => Err(DecodeError::Malformed(error_report(&err))),
            Ok(_) => {
                let timestamp = field_of(line, Field::Timestamp);
                let level = field_of(line, Field::Level);
                let message = field_of(line, Field::Message);
                LogLine::from_fields(timestamp, level, message)
            },
        }
    }

    /// The timestamp of the record.
    pub fn timestamp(&self) -> (text: &'a str)
        ensures
            text@ == self@.timestamp,
            self@.well_formed(),
    {
        proof {
            use_type_invariant(self);
        }
        self.timestamp
    }

    /// The level token of the record.
    pub fn level(&self) -> (text: &'a str)
        ensures
            text@ == self@.level,
    {
        self.level
    }

    /// The message of the record.
    pub fn message(&self) -> (text: &'a str)
        ensures
            text@ == self@.message,
    {
        self.message
    }

    /// The date of the record: the first 10 bytes of its timestamp.
    pub fn date(&self) -> (text: &'a str)
        ensures
            text@ == self@.date(),
    {
        proof {
            use_type_invariant(self);
        }
        date_of(self.timestamp)
    }

    /// The time of day of the record: its timestamp from byte offset 11 on.
    pub fn time_of_day(&self) -> (text: &'a str)
        ensures
            text@ == self@.time_of_day(),
    {
        proof {
            use_type_invariant(self);
        }
        time_of(self.timestamp)
    }
}

} // verus!
