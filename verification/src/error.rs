//! The errors that end a run, and the texts that report them.

use vstd::prelude::*;
use vstd::string::*;
use crate::logline::DecodeError;
use crate::text::{decimal, push_decimal};

verus! {

/// Enumerates the kinds of errors that can happen during line processing.
/// Causes that come from the operating system are held as their texts.
#[derive(Debug, PartialEq, Eq)]
pub enum ProcessError {
    /// A line could not be decoded: its 1-based number and the reason.
    ParseError(usize, DecodeError),
    /// Could not open the input: its path and the cause.
    InputNotFound(String, String),
    /// Reading the input failed: the 1-based number of the line that was to
    /// be read, and the cause.
    ReadError(usize, String),
    /// Writing to the output failed: the cause.
    WriteError(String),
}

/// The result type of the line processor.
pub type Result<T> = std::result::Result<T, ProcessError>;

impl ProcessError {
    /// The message that reports this error.
    pub open spec fn description(&self) -> Seq<char> {
        match self {
            ProcessError::ParseError(line_no, cause) => "Parse error on line "@ + decimal(
                *line_no as nat,
            ) + ": "@ + cause.description(),
            ProcessError::InputNotFound(path, cause) => "Could not open input '"@ + path@ + "': "@
                + cause@,
            ProcessError::ReadError(line_no, cause) => "Read error after line "@ + decimal(
                *line_no as nat,
            ) + ": "@ + cause@,
            ProcessError::WriteError(cause) => "Write error: "@ + cause@,
        }
    }

    /// Creates a new process error from a decoding error.
    pub fn from_parse_error(line_no: usize, value: DecodeError) -> (error: ProcessError)
        ensures
            error == ProcessError::ParseError(line_no, value),
    {
        ProcessError::ParseError(line_no, value)
    }

    /// Creates a new process error from the text of a read error.
    pub fn from_read_error(line_no: usize, value: String) -> (error: ProcessError)
        ensures
            error == ProcessError::ReadError(line_no, value),
    {
        ProcessError::ReadError(line_no, value)
    }

    /// Creates a new process error from the text of a write error.
    pub fn from_write_error(value: String) -> (error: ProcessError)
        ensures
            error == ProcessError::WriteError(value),
    {
        ProcessError::WriteError(value)
    }

    /// The message that reports this error.
    pub fn describe(&self) -> (text: String)
        ensures
            text@ == self.description(),
    {
        let mut text = String::new();
        match self {
            ProcessError::ParseError(line_no, cause) => {
                text.append("Parse error on line ");
                push_decimal(&mut text, *line_no);
                text.append(": ");
                let detail = cause.describe();
                text.append(detail.as_str());
            },
            ProcessError::InputNotFound(path, cause) => {
                text.append("Could not open input '");
                text.append(path.as_str());
                text.append("': ");
                text.append(cause.as_str());
            },
            ProcessError::ReadError(line_no, cause) => {
                text.append("Read error after line ");
                push_decimal(&mut text, *line_no);
                text.append(": ");
                text.append(cause.as_str());
            },
            ProcessError::WriteError(cause) => {
                text.append("Write error: ");
                text.append(cause.as_str());
            },
        }
        assert(text@ =~= self.description());
        text
    }
}

/// The notice for a line that was skipped because it is no record.
pub open spec fn skip_notice_text(line_no: nat) -> Seq<char> {
    "--- skipped non-json line @ "@ + decimal(line_no) + " ---"@
}

/// The notice for a line that was skipped because it is no record.
pub fn skip_notice(line_no: usize) -> (text: String)
    ensures
        text@ == skip_notice_text(line_no as nat),
{
    let mut text = String::new();
    text.append("--- skipped non-json line @ ");
    push_decimal(&mut text, line_no);
    text.append(" ---");
    assert(text@ =~= skip_notice_text(line_no as nat));
    text
}

} // verus!
