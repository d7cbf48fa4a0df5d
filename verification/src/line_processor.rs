//! The line processor: decodes each line, renders the record it holds and
//! applies the policy for lines that hold none.

use vstd::prelude::*;
use vstd::string::*;
use crate::error::ProcessError;
use crate::level::{category_of, table_label, LevelCategory};
use crate::logline::{decoded, explains, DecodeError, LogLine, LogLineView};
use crate::render::{banner_text, lemma_line_holds_message, rendered_line, RenderConfig};
use crate::session::SessionStartDetector;
use crate::text::{bytes_occur_in, occurs_in};
use vstd::utf8::encode_utf8;

verus! {

/// The texts of a list of lines.
pub open spec fn texts(lines: Seq<String>) -> Seq<Seq<char>> {
    Seq::new(lines.len(), |i: int| lines[i]@)
}

/// The number of lines at the start of a run that all hold a record: the
/// index of the first line that holds none, or the length of the run.
pub open spec fn valid_prefix_len(lines: Seq<Seq<char>>) -> nat
    decreases lines.len(),
{
    if lines.len() == 0 {
        0
    } else if decoded(lines.first()) is None {
        0
    } else {
        1 + valid_prefix_len(lines.drop_first())
    }
}

/// The 1-based numbers of the lines of a run that hold no record, in order.
pub open spec fn invalid_line_numbers(lines: Seq<Seq<char>>) -> Seq<usize>
    decreases lines.len(),
{
    if lines.len() == 0 {
        Seq::empty()
    } else if decoded(lines.last()) is None {
        invalid_line_numbers(lines.drop_last()).push(lines.len() as usize)
    } else {
        invalid_line_numbers(lines.drop_last())
    }
}

/// What became of one line.
#[derive(Clone, Copy, Debug, PartialEq, Eq, Structural)]
pub enum LineOutcome {
    /// The line held a record, which was rendered.
    Rendered,
    /// The line held no record and was left out.
    Skipped,
}

/// Processes lines from the log (in jsonl format).
pub struct LineProcessor<'a> {
    detector: SessionStartDetector,
    skip_invalid_lines: bool,
    config: RenderConfig<'a>,
}

impl<'a> LineProcessor<'a> {
    /// Whether this processor colours its output.
    pub closed spec fn uses_color(&self) -> bool {
        self.config.uses_color()
    }

    /// Whether this processor leaves out lines that hold no record, instead
    /// of ending the run at the first of them.
    pub closed spec fn skips_invalid_lines(&self) -> bool {
        self.skip_invalid_lines
    }

    /// The session boundary detector of this processor.
    pub closed spec fn detector(&self) -> SessionStartDetector {
        self.detector
    }

    /// The rendering of a record by this processor: the line that its
    /// settings give for the record, the category of its level and the
    /// verdict of the detector on its message.
    pub open spec fn rendered(&self, record: LogLineView) -> Seq<char> {
        rendered_line(
            self.uses_color(),
            record,
            category_of(record.level),
            self.detector().detects(record.message),
        )
    }

    /// What one line adds to the output: the rendering of its record, or
    /// nothing where it holds none.
    pub open spec fn line_output(&self, line: Seq<char>) -> Seq<char> {
        match decoded(line) {
            Some(record) => self.rendered(record),
            None => Seq::empty(),
        }
    }

    /// What a run of lines adds to the output when every line that holds no
    /// record is left out: the renderings of the others, in their order.
    pub open spec fn output_of(&self, lines: Seq<Seq<char>>) -> Seq<char>
        decreases lines.len(),
    {
        if lines.len() == 0 {
            Seq::empty()
        } else {
            self.output_of(lines.drop_last()) + self.line_output(lines.last())
        }
    }

    /// The renderings of the lines of a run that hold a record, one for each
    /// such line and in their order.
    pub open spec fn renderings(&self, lines: Seq<Seq<char>>) -> Seq<Seq<char>>
        decreases lines.len(),
    {
        if lines.len() == 0 {
            Seq::empty()
        } else if decoded(lines.last()) is None {
            self.renderings(lines.drop_last())
        } else {
            self.renderings(lines.drop_last()).push(self.rendered(decoded(lines.last())->0))
        }
    }

    /// The number of lines that a run gets through: all of them where lines
    /// without a record are skipped, else those before the first such line.
    pub open spec fn lines_done(&self, lines: Seq<Seq<char>>) -> nat {
        if self.skips_invalid_lines() {
            lines.len()
        } else {
            valid_prefix_len(lines)
        }
    }

    /// Creates a new line processor.
    pub fn new(detector: SessionStartDetector, skip_invalid_lines: bool, use_color: bool) -> (made:
        Self)
        ensures
            made.detector() == detector,
            made.skips_invalid_lines() == skip_invalid_lines,
            made.uses_color() == use_color,
    {
        LineProcessor { detector, skip_invalid_lines, config: RenderConfig::new(use_color) }
    }

    /// Get the fixed-size label for a given level string, possibly prefixed
    /// with color codes.
    pub fn get_level_label(&self, level: &str) -> (label: &str)
        ensures
            label@ == table_label(category_of(level@), self.uses_color()),
    {
        self.config.level_label(LevelCategory::classify(level))
    }

    /// Write the parsed log line to the destination.
    pub fn write_log_line(&self, dest: &mut String, log_line: &LogLine)
        ensures
            final(dest)@ == old(dest)@ + self.rendered(log_line@),
    {
        // if we discover a new session has started, we emit that as a line
        // before the first event line
        let boundary = self.detector.is_new_session(log_line);
        let category = LevelCategory::classify(log_line.level());
        self.config.render(dest, log_line, category, boundary);
    }

    /// Applies the policy of this processor to the outcome of decoding line
    /// `line_no`: a record is rendered into the buffer; a failure is skipped
    /// or, where lines are not skipped, returned as the error of that line.
    pub fn emit(
        &self,
        line_no: usize,
        decoding: core::result::Result<LogLine, DecodeError>,
        line_buffer: &mut String,
    ) -> (outcome: crate::error::Result<LineOutcome>)
        ensures
            match decoding {
                Ok(record) => {
                    &&& outcome == Ok::<LineOutcome, ProcessError>(LineOutcome::Rendered)
                    &&& final(line_buffer)@ == old(line_buffer)@ + self.rendered(record@)
                },
                Err(cause) => {
                    &&& final(line_buffer)@ == old(line_buffer)@
                    &&& self.skips_invalid_lines() ==> outcome == Ok::<LineOutcome, ProcessError>(
                        LineOutcome::Skipped,
                    )
                    &&& !self.skips_invalid_lines() ==> outcome == Err::<LineOutcome, ProcessError>(
                        ProcessError::ParseError(line_no, cause),
                    )
                },
            },
    {
        match decoding {
            Err(err) => {
                if !self.skip_invalid_lines {
                    Err(ProcessError::from_parse_error(line_no, err))
                } else {
                    Ok(LineOutcome::Skipped)
                }
            },
            Ok(log_line) => {
                self.write_log_line(line_buffer, &log_line);
                Ok(LineOutcome::Rendered)
            },
        }
    }

    /// Processes a single line of the log: appends the rendering of its
    /// record to the buffer, or handles the line as one that holds none.
    pub fn process_line(&self, line_no: usize, line: &str, line_buffer: &mut String) -> (outcome:
        crate::error::Result<LineOutcome>)
        ensures
            match decoded(line@) {
                Some(record) => {
                    &&& outcome == Ok::<LineOutcome, ProcessError>(LineOutcome::Rendered)
                    &&& final(line_buffer)@ == old(line_buffer)@ + self.rendered(record)
                },
                None => {
                    &&& final(line_buffer)@ == old(line_buffer)@
                    &&& self.skips_invalid_lines() ==> outcome == Ok::<LineOutcome, ProcessError>(
                        LineOutcome::Skipped,
                    )
                    &&& !self.skips_invalid_lines() ==> (outcome matches Err(
                        ProcessError::ParseError(n, cause),
                    ) && n == line_no && explains(cause, line@))
                },
            },
            final(line_buffer)@ == old(line_buffer)@ + self.line_output(line@),
    {
        // parse the JSON line
        let record = LogLine::decode(line);
        self.emit(line_no, record, line_buffer)
    }

    /// Processes the given lines in order and appends each rendered record
    /// to the output.
    ///
    /// If any of the lines holds no record, we either abort and return the
    /// error of that line, or skip it, depending on the setting of
    /// `skip_invalid_lines`. On success the 1-based numbers of the skipped
    /// lines are returned.
    pub fn process_lines(&self, lines: &Vec<String>, w: &mut String) -> (outcome:
        crate::error::Result<Vec<usize>>)
        ensures
            final(w)@ == old(w)@ + self.output_of(
                texts(lines@).take(self.lines_done(texts(lines@)) as int),
            ),
            self.lines_done(texts(lines@)) == lines.len() ==> (outcome matches Ok(skipped)
                && skipped@ == invalid_line_numbers(texts(lines@))),
            self.lines_done(texts(lines@)) < lines.len() ==> (outcome matches Err(
                ProcessError::ParseError(n, cause),
            ) && n == self.lines_done(texts(lines@)) + 1 && explains(
                cause,
                lines[self.lines_done(texts(lines@)) as int]@,
            )),
    {
        let ghost all = texts(lines@);
        let mut skipped: Vec<usize> = Vec::new();
        let mut i: usize = 0;
        while i < lines.len()
            invariant
                i <= lines.len(),
                all == texts(lines@),
                w@ == old(w)@ + self.output_of(all.take(i as int)),
                skipped@ == invalid_line_numbers(all.take(i as int)),
                !self.skips_invalid_lines() ==> valid_prefix_len(all.take(i as int)) == i,
            decreases lines.len() - i,
        {
            // we track the line number of the log for debugging (invalid
            // json lines in the log, for example)
            let line_no = i + 1;
            let step = self.process_line(line_no, lines[i].as_str(), w);
            proof {
                assert(all[i as int] == lines[i as int]@);
                assert(all.take(i + 1).drop_last() =~= all.take(i as int));
                assert(all.take(i + 1).last() == all[i as int]);
                lemma_valid_prefix_extends(all.take(i + 1));
            }
            match step {
                Err(error) => {
                    proof {
                        lemma_valid_prefix_of_take(all, i as int);
                    }
                    return Err(error);
                },
                Ok(LineOutcome::Skipped) => {
                    skipped.push(line_no);
                },
                Ok(LineOutcome::Rendered) => {},
            }
            i += 1;
        }
        proof {
            assert(all.take(lines.len() as int) =~= all);
        }
        Ok(skipped)
    }
}

/// A run that ends in a line gets one line further than the run before that
/// line exactly when that run and the line all hold a record.
pub proof fn lemma_valid_prefix_extends(lines: Seq<Seq<char>>)
    requires
        lines.len() > 0,
    ensures
        valid_prefix_len(lines.drop_last()) <= lines.len() - 1,
        valid_prefix_len(lines) == if valid_prefix_len(lines.drop_last()) == lines.len() - 1
            && decoded(lines.last()) is Some {
            lines.len()
        } else {
            valid_prefix_len(lines.drop_last())
        },
    decreases lines.len(),
{
    let front = lines.drop_last();
    let rest = lines.drop_first();
    if lines.len() == 1 {
        assert(lines.first() == lines.last());
        assert(valid_prefix_len(front) == 0);
        assert(valid_prefix_len(rest) == 0);
    } else {
        assert(front.first() == lines.first());
        if decoded(lines.first()) is Some {
            lemma_valid_prefix_extends(rest);
            assert(rest.drop_last() =~= front.drop_first());
            assert(rest.last() == lines.last());
            assert(valid_prefix_len(front) == 1 + valid_prefix_len(front.drop_first()));
            assert(valid_prefix_len(lines) == 1 + valid_prefix_len(rest));
        }
    }
}

/// Where the first `k` lines of a run all hold a record and line `k` holds
/// none, the run gets through exactly `k` lines.
pub proof fn lemma_valid_prefix_of_take(lines: Seq<Seq<char>>, k: int)
    requires
        0 <= k < lines.len(),
        valid_prefix_len(lines.take(k)) == k,
        decoded(lines[k]) is None,
    ensures
        valid_prefix_len(lines) == k,
    decreases k,
{
    if k == 0 {
    } else {
        assert(lines.take(k).first() == lines.first());
        assert(lines.take(k).drop_first() =~= lines.drop_first().take(k - 1));
        lemma_valid_prefix_of_take(lines.drop_first(), k - 1);
    }
}

/// The number of lines that a run gets through without skipping is the index
/// of its first line that holds no record: every line before it holds one,
/// and it is the length of the run only where every line holds one.
pub proof fn lemma_valid_prefix_is_first_failure(lines: Seq<Seq<char>>)
    ensures
        valid_prefix_len(lines) <= lines.len(),
        forall|j: int| 0 <= j < valid_prefix_len(lines) ==> decoded(#[trigger] lines[j]) is Some,
        valid_prefix_len(lines) < lines.len() ==> decoded(
            lines[valid_prefix_len(lines) as int],
        ) is None,
    decreases lines.len(),
{
    if lines.len() > 0 && decoded(lines.first()) is Some {
        let rest = lines.drop_first();
        lemma_valid_prefix_is_first_failure(rest);
        assert forall|j: int| 0 <= j < valid_prefix_len(lines) implies decoded(
            #[trigger] lines[j],
        ) is Some by {
            if j > 0 {
                assert(lines[j] == rest[j - 1]);
            }
        }
        if valid_prefix_len(lines) < lines.len() {
            assert(lines[valid_prefix_len(lines) as int] == rest[valid_prefix_len(rest) as int]);
        }
    }
}

/// The rendering of a well-formed record by a processor holds the message
/// unchanged: its characters occur in the rendering as they are, and so do
/// its bytes.
pub proof fn lemma_rendering_holds_message(processor: LineProcessor, record: LogLineView)
    requires
        record.well_formed(),
    ensures
        occurs_in(record.message, processor.rendered(record)),
        bytes_occur_in(encode_utf8(record.message), encode_utf8(processor.rendered(record))),
{
    lemma_line_holds_message(
        processor.uses_color(),
        record,
        category_of(record.level),
        processor.detector().detects(record.message),
    );
}

/// The banner comes again each time the trigger does: where two lines in a
/// row hold records whose message starts a session, the output is the
/// rendering of the first and then that of the second, and each of the two
/// begins with the session banner for the date of its own record.
pub proof fn lemma_banner_recurs_with_trigger(
    processor: LineProcessor,
    first: Seq<char>,
    second: Seq<char>,
)
    requires
        decoded(first) is Some,
        decoded(second) is Some,
        processor.detector().detects(decoded(first)->0.message),
        decoded(second)->0.message == decoded(first)->0.message,
    ensures
        processor.output_of(seq![first, second]) == processor.rendered(decoded(first)->0)
            + processor.rendered(decoded(second)->0),
        banner_text(processor.uses_color(), decoded(first)->0.date()).is_prefix_of(
            processor.rendered(decoded(first)->0),
        ),
        banner_text(processor.uses_color(), decoded(second)->0.date()).is_prefix_of(
            processor.rendered(decoded(second)->0),
        ),
{
    let both = seq![first, second];
    assert(both.drop_last() =~= seq![first]);
    assert(seq![first].drop_last() =~= Seq::<Seq<char>>::empty());
    assert(both.last() == second);
    assert(seq![first].last() == first);
    assert(processor.output_of(seq![first]) =~= processor.line_output(first)) by {
        assert(processor.output_of(seq![first].drop_last()) =~= Seq::<char>::empty());
    }
    assert(processor.output_of(both) =~= processor.rendered(decoded(first)->0)
        + processor.rendered(decoded(second)->0));
}

/// Where lines without a record are skipped, each line that holds a record
/// is rendered once and the others add nothing: the output is the renderings
/// of those lines one after the other, and there are as many of them as the
/// run has lines that were not skipped.
pub proof fn lemma_skipping_renders_each_record(processor: LineProcessor, lines: Seq<Seq<char>>)
    ensures
        processor.output_of(lines) == processor.renderings(lines).flatten(),
        processor.renderings(lines).len() + invalid_line_numbers(lines).len() == lines.len(),
    decreases lines.len(),
{
    if lines.len() == 0 {
        assert(processor.renderings(lines).flatten() =~= Seq::<char>::empty());
    } else {
        let front = lines.drop_last();
        lemma_skipping_renders_each_record(processor, front);
        if decoded(lines.last()) is Some {
            processor.renderings(front).lemma_flatten_push(
                processor.rendered(decoded(lines.last())->0),
            );
        } else {
            assert(processor.output_of(lines) =~= processor.output_of(front));
        }
    }
}

/// Where lines without a record are not skipped, the run ends at the first
/// of them: what it gets through is rendered, one rendering for each line,
/// and nothing of that line or of a later one reaches the output.
pub proof fn lemma_aborting_renders_valid_prefix(processor: LineProcessor, lines: Seq<Seq<char>>)
    requires
        !processor.skips_invalid_lines(),
    ensures
        processor.lines_done(lines) <= lines.len(),
        processor.renderings(lines.take(processor.lines_done(lines) as int)).len()
            == processor.lines_done(lines),
        processor.output_of(lines.take(processor.lines_done(lines) as int))
            == processor.renderings(lines.take(processor.lines_done(lines) as int)).flatten(),
        processor.lines_done(lines) < lines.len() ==> decoded(
            lines[processor.lines_done(lines) as int],
        ) is None,
{
    let done = lines.take(processor.lines_done(lines) as int);
    lemma_valid_prefix_is_first_failure(lines);
    lemma_skipping_renders_each_record(processor, done);
    assert forall|j: int| 0 <= j < done.len() implies decoded(#[trigger] done[j]) is Some by {
        assert(done[j] == lines[j]);
    }
    lemma_no_invalid_lines(done);
}

/// A run in which every line holds a record has no invalid line numbers.
pub proof fn lemma_no_invalid_lines(lines: Seq<Seq<char>>)
    requires
        forall|j: int| 0 <= j < lines.len() ==> decoded(#[trigger] lines[j]) is Some,
    ensures
        invalid_line_numbers(lines).len() == 0,
    decreases lines.len(),
{
    if lines.len() > 0 {
        let front = lines.drop_last();
        assert forall|j: int| 0 <= j < front.len() implies decoded(#[trigger] front[j]) is Some by {
            assert(front[j] == lines[j]);
        }
        lemma_no_invalid_lines(front);
        assert(decoded(lines[lines.len() - 1]) is Some);
    }
}

} // verus!
