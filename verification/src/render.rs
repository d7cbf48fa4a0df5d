//! The line renderer: composes a record, the category of its level and the
//! verdict on a session boundary into one output line, in colour or plain.

use vstd::prelude::*;
use vstd::string::*;
use vstd::utf8::encode_utf8;
use crate::level::{table_label, LevelCategory, LEVEL_COUNT};
use crate::logline::{LogLine, LogLineView};
use crate::text::{bytes_occur_in, lemma_middle_occurs, occurs_in};

verus! {

/// Whether the output is to be coloured. By default it is coloured on a
/// terminal and plain elsewhere; on a terminal `no_color` switches colour
/// off, and elsewhere `use_color` switches it on.
pub open spec fn color_wanted(is_terminal: bool, use_color: bool, no_color: bool) -> bool {
    if is_terminal {
        !no_color
    } else {
        use_color
    }
}

/// Decides whether the output is coloured, from whether it goes to a
/// terminal and from the two overriding switches.
pub fn color_choice(is_terminal: bool, use_color: bool, no_color: bool) -> (colored: bool)
    ensures
        colored == color_wanted(is_terminal, use_color, no_color),
{
    (is_terminal && !no_color) || (!is_terminal && use_color)
}

/// What precedes the time of day: the colour of timestamps, or nothing.
pub open spec fn timestamp_prefix_text(use_color: bool) -> Seq<char> {
    if use_color {
        "\x1b[38;5;6m"@
    } else {
        ""@
    }
}

/// What precedes the banner of a new session: its colour, or nothing.
pub open spec fn banner_prefix_text(use_color: bool) -> Seq<char> {
    if use_color {
        "\x1b[38;5;4m"@
    } else {
        ""@
    }
}

/// What ends a rendered record: a line feed, behind a colour reset where
/// colour is in use. A plain line feed is used on every platform.
pub open spec fn end_of_line_text(use_color: bool) -> Seq<char> {
    if use_color {
        "\x1b[0m\n"@
    } else {
        "\n"@
    }
}

/// The banner line that marks the start of a session on the given date.
pub open spec fn banner_text(use_color: bool, date: Seq<char>) -> Seq<char> {
    banner_prefix_text(use_color) + "---- Session started "@ + date + " ----\n"@
}

/// The output for one record: the session banner first where a session
/// starts, then the time of day, the label of the level, the message as it
/// is, and the end of line. Nothing is wrapped, aligned, escaped or cut.
pub open spec fn rendered_line(
    use_color: bool,
    record: LogLineView,
    category: LevelCategory,
    boundary: bool,
) -> Seq<char> {
    let banner = if boundary {
        banner_text(use_color, record.date())
    } else {
        Seq::empty()
    };
    banner + timestamp_prefix_text(use_color) + record.time_of_day() + table_label(
        category,
        use_color,
    ) + record.message + end_of_line_text(use_color)
}

/// The settings of the renderer: whether colour is in use, and the literals
/// that follow from that, chosen once so that rendering a line takes no
/// decision on colour.
pub struct RenderConfig<'a> {
    use_color: bool,
    timestamp_prefix: &'a str,
    level_table: [&'a str; 8],
    new_session_prefix: &'a str,
    eol: &'a str,
}

impl<'a> RenderConfig<'a> {
    /// The literals of a configuration are those that its colour setting
    /// selects.
    #[verifier::type_invariant]
    spec fn tables_follow_setting(&self) -> bool {
        &&& self.timestamp_prefix@ == timestamp_prefix_text(self.use_color)
        &&& self.new_session_prefix@ == banner_prefix_text(self.use_color)
        &&& self.eol@ == end_of_line_text(self.use_color)
        &&& forall|slot: int|
            0 <= slot < LEVEL_COUNT ==> (#[trigger] self.level_table[slot])@ == table_label(
                LevelCategory::of_slot(slot),
                self.use_color,
            )
    }

    /// Whether colour is in use.
    pub closed spec fn uses_color(&self) -> bool {
        self.use_color
    }

    /// The settings for coloured or for plain output.
    pub fn new(use_color: bool) -> (made: Self)
        ensures
            made.uses_color() == use_color,
    {
        if use_color {
            RenderConfig {
                use_color,
                timestamp_prefix: "\x1b[38;5;6m",
                level_table: [
                    LevelCategory::Unknown.colored_label(),
                    LevelCategory::Error.colored_label(),
                    LevelCategory::Warning.colored_label(),
                    LevelCategory::Info.colored_label(),
                    LevelCategory::Http.colored_label(),
                    LevelCategory::Verbose.colored_label(),
                    LevelCategory::Debug.colored_label(),
                    LevelCategory::Silly.colored_label(),
                ],
                new_session_prefix: "\x1b[38;5;4m",
                eol: "\x1b[0m\n",
            }
        } else {
            RenderConfig {
                use_color,
                timestamp_prefix: "",
                level_table: [
                    LevelCategory::Unknown.label(),
                    LevelCategory::Error.label(),
                    LevelCategory::Warning.label(),
                    LevelCategory::Info.label(),
                    LevelCategory::Http.label(),
                    LevelCategory::Verbose.label(),
                    LevelCategory::Debug.label(),
                    LevelCategory::Silly.label(),
                ],
                new_session_prefix: "",
                eol: "\n",
            }
        }
    }

    /// The label of a category as these settings have it: the fixed-width
    /// label, behind the colour of the category where colour is in use.
    pub fn level_label(&self, category: LevelCategory) -> (label: &str)
        ensures
            label@ == table_label(category, self.uses_color()),
    {
        proof {
            use_type_invariant(self);
        }
        self.level_table[category.index()]
    }

    /// Appends the output for one record to `dest`.
    pub fn render(
        &self,
        dest: &mut String,
        record: &LogLine,
        category: LevelCategory,
        boundary: bool,
    )
        ensures
            final(dest)@ == old(dest)@ + rendered_line(
                self.uses_color(),
                record@,
                category,
                boundary,
            ),
    {
        proof {
            use_type_invariant(self);
        }
        if boundary {
            dest.append(self.new_session_prefix);
            dest.append("---- Session started ");
            dest.append(record.date());
            dest.append(" ----\n");
        }
        // timestamp using only the time part, i.e. '2025-01-01T23:34:56.987Z'
        // emits as '23:34:56.987Z'
        dest.append(self.timestamp_prefix);
        dest.append(record.time_of_day());

        // level, as its fixed-size label
        dest.append(self.level_label(category));

        // message (reusing the color state from level)
        dest.append(record.message());

        // reset colors and write new line
        dest.append(self.eol);
        assert(dest@ =~= old(dest)@ + rendered_line(
            self.uses_color(),
            record@,
            category,
            boundary,
        ));
    }
}

/// The output for a well-formed record holds the message unchanged: its
/// characters occur in the line as they are, and so do its bytes.
pub proof fn lemma_line_holds_message(
    use_color: bool,
    record: LogLineView,
    category: LevelCategory,
    boundary: bool,
)
    requires
        record.well_formed(),
    ensures
        occurs_in(record.message, rendered_line(use_color, record, category, boundary)),
        bytes_occur_in(
            encode_utf8(record.message),
            encode_utf8(rendered_line(use_color, record, category, boundary)),
        ),
{
    let banner = if boundary {
        banner_text(use_color, record.date())
    } else {
        Seq::empty()
    };
    let before = banner + timestamp_prefix_text(use_color) + record.time_of_day() + table_label(
        category,
        use_color,
    );
    let after = end_of_line_text(use_color);
    assert(rendered_line(use_color, record, category, boundary) =~= before + record.message
        + after);
    lemma_middle_occurs(before, record.message, after);
}

/// The output for a record ends in the end of line, and where a session
/// starts it begins with the banner for the date of the record.
pub proof fn lemma_line_frame(
    use_color: bool,
    record: LogLineView,
    category: LevelCategory,
    boundary: bool,
)
    ensures
        end_of_line_text(use_color).is_suffix_of(
            rendered_line(use_color, record, category, boundary),
        ),
        boundary ==> banner_text(use_color, record.date()).is_prefix_of(
            rendered_line(use_color, record, category, boundary),
        ),
{
    let line = rendered_line(use_color, record, category, boundary);
    let eol = end_of_line_text(use_color);
    assert(line.subrange(line.len() - eol.len(), line.len() as int) =~= eol);
    if boundary {
        let banner = banner_text(use_color, record.date());
        assert(line.subrange(0, banner.len() as int) =~= banner);
    }
}

} // verus!
