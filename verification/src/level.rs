//! Level classification: from a free-form level token to one of eight
//! categories, each with a fixed-width label and a terminal colour.

use vstd::prelude::*;
use crate::text::str_eq;

verus! {

/// The severity or channel class of a record.
#[derive(Clone, Copy, Debug, PartialEq, Eq, Structural)]
pub enum LevelCategory {
    /// Fallback for every token that is not one of the known ones.
    Unknown,
    Error,
    Warning,
    Info,
    Http,
    Verbose,
    Debug,
    Silly,
}

/// Number of level categories, and of slots in a label table.
pub const LEVEL_COUNT: usize = 8;

/// The category of a level token: an exact, case-sensitive match against the
/// seven known tokens, and `Unknown` for everything else.
pub open spec fn category_of(level: Seq<char>) -> LevelCategory {
    if level == "error"@ {
        LevelCategory::Error
    } else if level == "warn"@ {
        LevelCategory::Warning
    } else if level == "info"@ {
        LevelCategory::Info
    } else if level == "http"@ {
        LevelCategory::Http
    } else if level == "verbose"@ {
        LevelCategory::Verbose
    } else if level == "debug"@ {
        LevelCategory::Debug
    } else if level == "silly"@ {
        LevelCategory::Silly
    } else {
        LevelCategory::Unknown
    }
}

/// True for the seven tokens that name a category other than `Unknown`.
pub open spec fn is_known_level(level: Seq<char>) -> bool {
    ||| level == "error"@
    ||| level == "warn"@
    ||| level == "info"@
    ||| level == "http"@
    ||| level == "verbose"@
    ||| level == "debug"@
    ||| level == "silly"@
}

/// The fixed-width label of a category, without colour.
pub open spec fn label_text(category: LevelCategory) -> Seq<char> {
    match category {
        LevelCategory::Unknown => " [unk] "@,
        LevelCategory::Error => " [err] "@,
        LevelCategory::Warning => " [wrn] "@,
        LevelCategory::Info => " [inf] "@,
        LevelCategory::Http => " [web] "@,
        LevelCategory::Verbose => " [vrb] "@,
        LevelCategory::Debug => " [dbg] "@,
        LevelCategory::Silly => " [sil] "@,
    }
}

/// The colour-prefixed label of a category: an SGR sequence that selects the
/// category's colour from the 256-colour palette, then the plain label.
pub open spec fn colored_label_text(category: LevelCategory) -> Seq<char> {
    match category {
        LevelCategory::Unknown => "\x1b[38;5;5m [unk] "@,
        LevelCategory::Error => "\x1b[38;5;9m [err] "@,
        LevelCategory::Warning => "\x1b[38;5;11m [wrn] "@,
        LevelCategory::Info => "\x1b[38;5;254m [inf] "@,
        LevelCategory::Http => "\x1b[38;5;97m [web] "@,
        LevelCategory::Verbose => "\x1b[38;5;6m [vrb] "@,
        LevelCategory::Debug => "\x1b[38;5;27m [dbg] "@,
        LevelCategory::Silly => "\x1b[38;5;27m [sil] "@,
    }
}

/// The label that a table holds for a category, in colour or plain.
pub open spec fn table_label(category: LevelCategory, use_color: bool) -> Seq<char> {
    if use_color {
        colored_label_text(category)
    } else {
        label_text(category)
    }
}

impl LevelCategory {
    /// The slot of this category in a label table; slot 0 is the fallback.
    pub open spec fn slot(self) -> int {
        match self {
            LevelCategory::Unknown => 0,
            LevelCategory::Error => 1,
            LevelCategory::Warning => 2,
            LevelCategory::Info => 3,
            LevelCategory::Http => 4,
            LevelCategory::Verbose => 5,
            LevelCategory::Debug => 6,
            LevelCategory::Silly => 7,
        }
    }

    /// The category that a table slot stands for.
    pub open spec fn of_slot(slot: int) -> LevelCategory {
        if slot == 1 {
            LevelCategory::Error
        } else if slot == 2 {
            LevelCategory::Warning
        } else if slot == 3 {
            LevelCategory::Info
        } else if slot == 4 {
            LevelCategory::Http
        } else if slot == 5 {
            LevelCategory::Verbose
        } else if slot == 6 {
            LevelCategory::Debug
        } else if slot == 7 {
            LevelCategory::Silly
        } else {
            LevelCategory::Unknown
        }
    }

    /// Classifies a level token.
    pub fn classify(level: &str) -> (category: LevelCategory)
        ensures
            category == category_of(level@),
            !is_known_level(level@) ==> category == LevelCategory::Unknown,
    {
        if str_eq(level, "error") {
            LevelCategory::Error
        } else if str_eq(level, "warn") {
            LevelCategory::Warning
        } else if str_eq(level, "info") {
            LevelCategory::Info
        } else if str_eq(level, "http") {
            LevelCategory::Http
        } else if str_eq(level, "verbose") {
            LevelCategory::Verbose
        } else if str_eq(level, "debug") {
            LevelCategory::Debug
        } else if str_eq(level, "silly") {
            LevelCategory::Silly
        } else {
            LevelCategory::Unknown
        }
    }

    /// The slot of this category in a label table.
    pub fn index(self) -> (slot: usize)
        ensures
            slot == self.slot(),
            slot < LEVEL_COUNT,
            LevelCategory::of_slot(slot as int) == self,
    {
        match self {
            LevelCategory::Unknown => 0,
            LevelCategory::Error => 1,
            LevelCategory::Warning => 2,
            LevelCategory::Info => 3,
            LevelCategory::Http => 4,
            LevelCategory::Verbose => 5,
            LevelCategory::Debug => 6,
            LevelCategory::Silly => 7,
        }
    }

    /// The plain fixed-width label of this category.
    pub fn label(self) -> (text: &'static str)
        ensures
            text@ == label_text(self),
    {
        match self {
            LevelCategory::Unknown => " [unk] ",
            LevelCategory::Error => " [err] ",
            LevelCategory::Warning => " [wrn] ",
            LevelCategory::Info => " [inf] ",
            LevelCategory::Http => " [web] ",
            LevelCategory::Verbose => " [vrb] ",
            LevelCategory::Debug => " [dbg] ",
            LevelCategory::Silly => " [sil] ",
        }
    }

    /// The label of this category behind the escape sequence of its colour.
    pub fn colored_label(self) -> (text: &'static str)
        ensures
            text@ == colored_label_text(self),
    {
        match self {
            LevelCategory::Unknown => "\x1b[38;5;5m [unk] ",
            LevelCategory::Error => "\x1b[38;5;9m [err] ",
            LevelCategory::Warning => "\x1b[38;5;11m [wrn] ",
            LevelCategory::Info => "\x1b[38;5;254m [inf] ",
            LevelCategory::Http => "\x1b[38;5;97m [web] ",
            LevelCategory::Verbose => "\x1b[38;5;6m [vrb] ",
            LevelCategory::Debug => "\x1b[38;5;27m [dbg] ",
            LevelCategory::Silly => "\x1b[38;5;27m [sil] ",
        }
    }
}

/// Every token outside the seven known ones is classified as `Unknown`, and
/// the plain label of `Unknown` is `" [unk] "`.
pub proof fn lemma_unrecognized_level_is_unknown(level: Seq<char>)
    requires
        !is_known_level(level),
    ensures
        category_of(level) == LevelCategory::Unknown,
        label_text(category_of(level)) == " [unk] "@,
{
}

/// Classification depends on the token alone: equal tokens fall in the same
/// category and get the same label, whenever and however often they are asked.
pub proof fn lemma_classification_is_a_function(first: Seq<char>, second: Seq<char>, use_color: bool)
    requires
        first == second,
    ensures
        category_of(first) == category_of(second),
        table_label(category_of(first), use_color) == table_label(category_of(second), use_color),
{
}

/// Every plain label is exactly seven characters wide.
pub proof fn lemma_labels_are_seven_wide(category: LevelCategory)
    ensures
        label_text(category).len() == 7,
{
    reveal_strlit(" [unk] ");
    reveal_strlit(" [err] ");
    reveal_strlit(" [wrn] ");
    reveal_strlit(" [inf] ");
    reveal_strlit(" [web] ");
    reveal_strlit(" [vrb] ");
    reveal_strlit(" [dbg] ");
    reveal_strlit(" [sil] ");
}

/// A coloured label ends in the plain label of the same category.
pub proof fn lemma_colored_label_ends_in_label(category: LevelCategory)
    ensures
        colored_label_text(category).len() >= 7,
        colored_label_text(category).subrange(
            colored_label_text(category).len() - 7,
            colored_label_text(category).len() as int,
        ) == label_text(category),
{
    reveal_strlit(" [unk] ");
    reveal_strlit(" [err] ");
    reveal_strlit(" [wrn] ");
    reveal_strlit(" [inf] ");
    reveal_strlit(" [web] ");
    reveal_strlit(" [vrb] ");
    reveal_strlit(" [dbg] ");
    reveal_strlit(" [sil] ");
    reveal_strlit("\x1b[38;5;5m [unk] ");
    reveal_strlit("\x1b[38;5;9m [err] ");
    reveal_strlit("\x1b[38;5;11m [wrn] ");
    reveal_strlit("\x1b[38;5;254m [inf] ");
    reveal_strlit("\x1b[38;5;97m [web] ");
    reveal_strlit("\x1b[38;5;6m [vrb] ");
    reveal_strlit("\x1b[38;5;27m [dbg] ");
    reveal_strlit("\x1b[38;5;27m [sil] ");
    assert(colored_label_text(category).subrange(
        colored_label_text(category).len() - 7,
        colored_label_text(category).len() as int,
    ) =~= label_text(category));
}

} // verus!
