//! The test-data generator: emits lines until the requested size is reached.

use vstd::prelude::*;
use vstd::string::*;
use crate::params::{DataSize, Params};

verus! {

/// What a run of the generator has produced.
#[derive(Clone, Copy, Debug, PartialEq, Eq, Structural)]
pub struct GeneratorStats {
    pub lines_generated: u64,
    pub bytes_generated: u64,
}

/// The number of bytes that each generated line counts for: the line feed
/// that is written, and one more.
pub const BYTES_PER_LINE: u64 = 2;

/// True when what was produced reaches the requested size.
pub open spec fn reached(size: DataSize, stats: GeneratorStats) -> bool {
    match size {
        DataSize::Lines(line_count) => stats.lines_generated >= line_count,
        DataSize::AtLeast(byte_count) => stats.bytes_generated >= byte_count,
    }
}

/// The number of lines that a run produces for a requested size. A run
/// always produces a line before it looks at the size, so it is never 0.
pub open spec fn lines_needed(size: DataSize) -> nat {
    match size {
        DataSize::Lines(line_count) => if line_count == 0 {
            1
        } else {
            line_count as nat
        },
        DataSize::AtLeast(byte_count) => if byte_count == 0 {
            1
        } else {
            ((byte_count + 1) / 2) as nat
        },
    }
}

/// A text of `count` line feeds.
pub open spec fn line_feeds(count: nat) -> Seq<char> {
    Seq::new(count, |i: int| '\n')
}

/// Generates lines of test data.
pub struct Generator {}

impl Generator {
    /// Produces one more line: appends it to the buffer, counts it, and
    /// tells whether the requested size is now reached.
    pub fn advance(&self, line_buffer: &mut String, stats: &mut GeneratorStats, params: &Params) -> (done:
        bool)
        requires
            old(stats).lines_generated < u64::MAX,
            old(stats).bytes_generated + BYTES_PER_LINE <= u64::MAX,
        ensures
            final(line_buffer)@ == old(line_buffer)@.push('\n'),
            final(stats).lines_generated == old(stats).lines_generated + 1,
            final(stats).bytes_generated == old(stats).bytes_generated + BYTES_PER_LINE,
            done == reached(params.size(), *final(stats)),
    {
        proof {
            reveal_strlit("\n");
        }
        line_buffer.append("\n");
        assert(line_buffer@ =~= old(line_buffer)@.push('\n'));
        stats.lines_generated += 1;
        stats.bytes_generated += BYTES_PER_LINE;

        // now we can check if we're done ...
        match params.data_size() {
            DataSize::Lines(line_count) => stats.lines_generated >= *line_count,
            DataSize::AtLeast(byte_count) => stats.bytes_generated >= *byte_count,
        }
    }

    /// Appends generated lines to `w` until the requested size is reached,
    /// and reports how many lines and bytes were counted.
    pub fn generate(&self, w: &mut String, params: &Params) -> (stats: GeneratorStats)
        requires
            BYTES_PER_LINE * lines_needed(params.size()) <= u64::MAX,
        ensures
            stats.lines_generated == lines_needed(params.size()),
            stats.bytes_generated == BYTES_PER_LINE * lines_needed(params.size()),
            final(w)@ == old(w)@ + line_feeds(lines_needed(params.size())),
    {
        let ghost goal = lines_needed(params.size());
        let mut stats = GeneratorStats { lines_generated: 0, bytes_generated: 0 };
        let mut is_done = false;
        assert(w@ =~= old(w)@ + line_feeds(0));
        while !is_done
            invariant
                goal == lines_needed(params.size()),
                BYTES_PER_LINE * goal <= u64::MAX,
                stats.bytes_generated == BYTES_PER_LINE * stats.lines_generated,
                stats.lines_generated <= goal,
                is_done <==> stats.lines_generated == goal,
                w@ == old(w)@ + line_feeds(stats.lines_generated as nat),
            decreases goal - stats.lines_generated,
        {
            let ghost before = stats.lines_generated as nat;
            is_done = self.advance(w, &mut stats, params);
            assert(w@ =~= old(w)@ + line_feeds(stats.lines_generated as nat)) by {
                assert(line_feeds(before).push('\n') =~= line_feeds(before + 1));
            }
        }
        stats
    }
}

} // verus!
