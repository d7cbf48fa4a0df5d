use jl_pretty::level::{LevelCategory, LEVEL_COUNT};

#[test]
fn known_tokens_classify_to_their_category() {
    assert_eq!(LevelCategory::classify("error"), LevelCategory::Error);
    assert_eq!(LevelCategory::classify("warn"), LevelCategory::Warning);
    assert_eq!(LevelCategory::classify("info"), LevelCategory::Info);
    assert_eq!(LevelCategory::classify("http"), LevelCategory::Http);
    assert_eq!(LevelCategory::classify("verbose"), LevelCategory::Verbose);
    assert_eq!(LevelCategory::classify("debug"), LevelCategory::Debug);
    assert_eq!(LevelCategory::classify("silly"), LevelCategory::Silly);
}

#[test]
fn capitalized_error_is_unknown() {
    assert_eq!(LevelCategory::classify("Error"), LevelCategory::Unknown);
    assert_ne!(LevelCategory::classify("Error"), LevelCategory::Error);
}

#[test]
fn other_tokens_are_unknown() {
    for token in [
        "", " ", "unknown", "ERROR", "Warn", "warning", "err", "information", "info ", " info",
        "inf", "infoo", "trace", "fatal", "d\u{e9}bug", "silly\n", "http/2",
    ] {
        assert_eq!(LevelCategory::classify(token), LevelCategory::Unknown, "{token:?}");
        assert_eq!(LevelCategory::classify(token).label(), " [unk] ", "{token:?}");
    }
}

#[test]
fn classification_is_repeatable() {
    for token in ["info", "Error", "", "debug"] {
        let first = LevelCategory::classify(token);
        let _ = LevelCategory::classify("warn");
        let second = LevelCategory::classify(token);
        assert_eq!(first, second);
        assert_eq!(first.label(), second.label());
        assert_eq!(first.colored_label(), second.colored_label());
    }
}

#[test]
fn labels_are_seven_wide() {
    let all = [
        (LevelCategory::Unknown, " [unk] "),
        (LevelCategory::Error, " [err] "),
        (LevelCategory::Warning, " [wrn] "),
        (LevelCategory::Info, " [inf] "),
        (LevelCategory::Http, " [web] "),
        (LevelCategory::Verbose, " [vrb] "),
        (LevelCategory::Debug, " [dbg] "),
        (LevelCategory::Silly, " [sil] "),
    ];
    assert_eq!(all.len(), LEVEL_COUNT);
    for (category, label) in all {
        assert_eq!(category.label(), label);
        assert_eq!(category.label().len(), 7);
        assert!(category.colored_label().ends_with(label));
    }
}

#[test]
fn colored_labels_select_a_palette_colour() {
    assert_eq!(LevelCategory::Unknown.colored_label(), "\x1b[38;5;5m [unk] ");
    assert_eq!(LevelCategory::Error.colored_label(), "\x1b[38;5;9m [err] ");
    assert_eq!(LevelCategory::Warning.colored_label(), "\x1b[38;5;11m [wrn] ");
    assert_eq!(LevelCategory::Info.colored_label(), "\x1b[38;5;254m [inf] ");
    assert_eq!(LevelCategory::Http.colored_label(), "\x1b[38;5;97m [web] ");
    assert_eq!(LevelCategory::Verbose.colored_label(), "\x1b[38;5;6m [vrb] ");
    assert_eq!(LevelCategory::Debug.colored_label(), "\x1b[38;5;27m [dbg] ");
    assert_eq!(LevelCategory::Silly.colored_label(), "\x1b[38;5;27m [sil] ");
}

#[test]
fn slots_run_from_zero_to_seven() {
    assert_eq!(LevelCategory::Unknown.index(), 0);
    assert_eq!(LevelCategory::Error.index(), 1);
    assert_eq!(LevelCategory::Warning.index(), 2);
    assert_eq!(LevelCategory::Info.index(), 3);
    assert_eq!(LevelCategory::Http.index(), 4);
    assert_eq!(LevelCategory::Verbose.index(), 5);
    assert_eq!(LevelCategory::Debug.index(), 6);
    assert_eq!(LevelCategory::Silly.index(), 7);
}
