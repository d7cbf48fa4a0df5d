//! Detection of session boundaries on log records.

use regex::Regex;
use vstd::prelude::*;
use crate::logline::LogLine;
use crate::pattern::matched_texts;
use crate::text::str_eq;

verus! {

/// When and how to detect a new session.
pub enum SessionStartDetector {
    /// No new sessions are detected.
    Never,
    /// If a message is exactly equal to this, it's a new session.
    Equals(&'static str),
    /// If a message matches this regular expression, it's a new session.
    Matches(Regex),
}

impl SessionStartDetector {
    /// True when this detector judges a message to start a new session:
    /// never, on exact equality with the trigger, or on a match of the
    /// pattern anywhere in the message.
    pub open spec fn detects(&self, message: Seq<char>) -> bool {
        match self {
            SessionStartDetector::Never => false,
            SessionStartDetector::Equals(trigger) => message == trigger@,
            SessionStartDetector::Matches(rx) => matched_texts(*rx).contains(message),
        }
    }

    /// Creates a new session detector that never detects a new session.
    pub fn never() -> (detector: Self)
        ensures
            detector is Never,
    {
        SessionStartDetector::Never
    }

    /// Creates a new session detector that detects a new session if the
    /// message is equal to a given string.
    pub fn from_message(s: &'static str) -> (detector: Self)
        ensures
            detector == SessionStartDetector::Equals(s),
    {
        SessionStartDetector::Equals(s)
    }

    /// Creates a new session detector that detects a new session if the
    /// message matches a given regular expression.
    pub fn from_rx(rx: Regex) -> (detector: Self)
        ensures
            detector == SessionStartDetector::Matches(rx),
    {
        SessionStartDetector::Matches(rx)
    }

    /// Checks if the given line indicates a new session.
    pub fn is_new_session(&self, line: &LogLine) -> (boundary: bool)
        ensures
            boundary == self.detects(line@.message),
    {
        match self {
            SessionStartDetector::Never => false,
            SessionStartDetector::Equals(s) => str_eq(line.message(), s),
            SessionStartDetector::Matches(rx) => rx.is_match(line.message()),
        }
    }
}

/// Detection depends on the detector and the message alone: no call leaves
/// anything behind, so records with equal messages get the same verdict
/// whenever and however often they are asked, whatever else they hold.
pub proof fn lemma_detection_is_a_function(
    detector: SessionStartDetector,
    first: Seq<char>,
    second: Seq<char>,
)
    requires
        first == second,
    ensures
        detector.detects(first) == detector.detects(second),
{
}

} // verus!
