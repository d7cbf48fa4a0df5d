//! Detection of session boundaries on message texts.

use regex::Regex;
use vstd::prelude::*;
use crate::pattern::matched_texts;
use crate::text::str_eq;

verus! {

/// When and how to detect a new session.
pub enum SessionDetector {
    /// No new sessions are detected.
    Never,
    /// If a message is exactly equal to this, it's a new session.
    Equals(&'static str),
    /// If a message matches this regular expression, it's a new session.
    Matches(Regex),
}

impl SessionDetector {
    /// True when this detector judges a message to start a new session:
    /// never, on exact equality with the trigger, or on a match of the
    /// pattern anywhere in the message.
    pub open spec fn detects(&self, message: Seq<char>) -> bool {
        match self {
            SessionDetector::Never => false,
            SessionDetector::Equals(trigger) => message == trigger@,
            SessionDetector::Matches(rx) => matched_texts(*rx).contains(message),
        }
    }

    /// Creates a new session detector that never detects a new session.
    pub fn never() -> (detector: Self)
        ensures
            detector is Never,
    {
        SessionDetector::Never
    }

    /// Creates a new session detector that detects a new session if the
    /// message is equal to a given string.
    pub fn from_message(s: &'static str) -> (detector: Self)
        ensures
            detector == SessionDetector::Equals(s),
    {
        SessionDetector::Equals(s)
    }

    /// Creates a new session detector that detects a new session if the
    /// message matches a given regular expression.
    pub fn from_rx(rx: Regex) -> (detector: Self)
        ensures
            detector == SessionDetector::Matches(rx),
    {
        SessionDetector::Matches(rx)
    }

    /// Checks if the given message indicates a new session.
    pub fn is_new_session(&self, line: &str) -> (boundary: bool)
        ensures
            boundary == self.detects(line@),
    {
        match self {
            SessionDetector::Never => false,
            SessionDetector::Equals(s) => str_eq(line, s),
            SessionDetector::Matches(rx) => rx.is_match(line),
        }
    }
}

/// Detection depends on the detector and the message alone: no call leaves
/// anything behind, so equal messages get the same verdict whenever and
/// however often they are asked.
pub proof fn lemma_detection_is_a_function(
    detector: SessionDetector,
    first: Seq<char>,
    second: Seq<char>,
)
    requires
        first == second,
    ensures
        detector.detects(first) == detector.detects(second),
{
}

} // verus!
