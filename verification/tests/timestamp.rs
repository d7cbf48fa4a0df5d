use jl_pretty::text::str_eq;
use jl_pretty::timestamp::{date_of, splits, time_of, DATE_WIDTH, TIME_OFFSET};

#[test]
fn iso_timestamp_loses_its_first_eleven_characters() {
    for timestamp in [
        "2025-01-01T23:34:56.987Z",
        "1970-01-01T00:00:00.000Z",
        "9999-12-31T23:59:59.999Z",
        "2024-02-29T12:00:00.345Z",
    ] {
        assert!(splits(timestamp));
        assert_eq!(time_of(timestamp), &timestamp[11..]);
        assert_eq!(time_of(timestamp).len(), 13);
        assert_eq!(date_of(timestamp), &timestamp[..10]);
    }
    assert_eq!(time_of("2025-01-01T23:34:56.987Z"), "23:34:56.987Z");
    assert_eq!(date_of("2025-01-01T23:34:56.987Z"), "2025-01-01");
}

#[test]
fn other_shapes_are_cut_at_the_same_offsets() {
    assert_eq!(time_of("2023-01-01T12:00:00Z"), "12:00:00Z");
    assert_eq!(time_of("2023-01-01 12:00:00+02:00"), "12:00:00+02:00");
    assert_eq!(date_of("2023-01-01 12:00:00+02:00"), "2023-01-01");
    assert_eq!(time_of("2023-01-01T"), "");
    assert_eq!((DATE_WIDTH, TIME_OFFSET), (10, 11));
}

#[test]
fn short_timestamps_do_not_split() {
    assert!(!splits(""));
    assert!(!splits("2023-01-01"));
    assert!(!splits("2023-01-0"));
    assert!(splits("2023-01-01T"));
    assert!(splits("2023-01-01T1"));
}

#[test]
fn cuts_must_fall_between_characters() {
    assert!(!splits("012345678\u{e9}T12:00"));
    assert!(!splits("0123456789\u{e9}12:00"));
    assert!(!splits("01234567\u{1F980}"));
    assert!(splits("\u{e9}12345678T12:00"));
    assert_eq!(time_of("\u{e9}12345678T12:00"), "12:00");
    assert_eq!(date_of("\u{e9}12345678T12:00"), "\u{e9}12345678");
}

#[test]
fn str_eq_compares_bytes() {
    assert!(str_eq("", ""));
    assert!(str_eq("info", "info"));
    assert!(!str_eq("info", "Info"));
    assert!(!str_eq("info", "inf"));
    assert!(!str_eq("inf", "info"));
    assert!(!str_eq("info", "infO"));
    assert!(str_eq("\u{1F980}", "\u{1F980}"));
    assert!(!str_eq("\u{e9}", "e\u{301}"));
}
