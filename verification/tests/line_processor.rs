use jl_pretty::error::ProcessError;
use jl_pretty::line_processor::LineOutcome;
use jl_pretty::render::color_choice;
use jl_pretty::logline::{DecodeError, Field};
use jl_pretty::{LineProcessor, LogLine, SessionStartDetector};
use regex::Regex;

const VALID_LINE: &str =
    r#"{"timestamp":"2023-01-01T12:00:00Z","level":"info","message":"Test message"}"#;

const INVALID_LINES_SOURCE: &str = r#"{"timestamp":"2025-03-08T20:25:01.133Z","level":"info","message":"First valid line"}
this line is not json at all
{"timestamp":"2025-03-08T20:26:01.133Z","level":"warn","message":"Second valid line"}
{"timestamp":"2025-03-08T20:26:31.133Z","level":"info","message":"cut off in the mid
{"timestamp":"2025-03-08T20:27:01.133Z","level":"info","message":"Third valid line"}
"#;

fn lines_of(input: &str) -> Vec<String> {
    input.lines().map(String::from).collect()
}

#[test]
fn test_process_lines_with_valid_lines() {
    let detector = SessionStartDetector::Never;
    let processor = LineProcessor::new(detector, false, false);

    let input = r#"{"timestamp":"2023-01-01T12:00:00Z","level":"info","message":"Test message"}"#;

    let mut output = String::new();
    processor
        .process_lines(&lines_of(input), &mut output)
        .unwrap();
    assert_eq!(output, "12:00:00Z [inf] Test message\n");
}

#[test]
fn test_process_lines_with_invalid_lines_skip() {
    let detector = SessionStartDetector::Never;
    let processor = LineProcessor::new(detector, true, false);

    let mut output = String::new();

    processor
        .process_lines(&lines_of(INVALID_LINES_SOURCE), &mut output)
        .unwrap();

    let output_lines: Vec<String> = lines_of(&output);

    assert_eq!(output_lines.len(), 3);
    assert_eq!(output_lines[0], "20:25:01.133Z [inf] First valid line");
    assert_eq!(output_lines[1], "20:26:01.133Z [wrn] Second valid line");
    assert_eq!(output_lines[2], "20:27:01.133Z [inf] Third valid line");
}

#[test]
fn test_process_lines_with_invalid_lines_abort() {
    let detector = SessionStartDetector::Never;
    let processor = LineProcessor::new(detector, false, false);

    let mut output = String::new();

    let result = processor.process_lines(&lines_of(INVALID_LINES_SOURCE), &mut output);
    assert!(result.is_err());
}

#[test]
fn test_process_lines_with_new_session() {
    let detector = SessionStartDetector::from_message("Test message");
    let processor = LineProcessor::new(detector, false, false);

    let input = r#"{"timestamp":"2023-01-01T12:00:00Z","level":"info","message":"Test message"}"#;
    let mut output = String::new();

    processor
        .process_lines(&lines_of(input), &mut output)
        .unwrap();

    assert!(output.contains("---- Session started "));
}

#[test]
fn test_get_level_label() {
    let detector = SessionStartDetector::Never;
    let processor = LineProcessor::new(detector, false, false);

    assert_eq!(processor.get_level_label("info"), " [inf] ");
    assert_eq!(processor.get_level_label("error"), " [err] ");
    assert_eq!(processor.get_level_label("unknown"), " [unk] ");
}

#[test]
fn test_get_level_label_color() {
    let detector = SessionStartDetector::Never;
    let processor = LineProcessor::new(detector, false, true);

    assert_eq!(processor.get_level_label("info"), "\x1b[38;5;254m [inf] ");
    assert_eq!(processor.get_level_label("error"), "\x1b[38;5;9m [err] ");
    assert_eq!(processor.get_level_label("unknown"), "\x1b[38;5;5m [unk] ");
}

#[test]
fn plain_record_renders_exactly() {
    let processor = LineProcessor::new(SessionStartDetector::never(), false, false);
    let mut buffer = String::new();
    let outcome = processor.process_line(1, VALID_LINE, &mut buffer);
    assert_eq!(outcome, Ok(LineOutcome::Rendered));
    assert_eq!(buffer, "12:00:00Z [inf] Test message\n");
}

#[test]
fn banner_line_precedes_the_record() {
    let detector = SessionStartDetector::from_message("Test message");
    let processor = LineProcessor::new(detector, false, false);
    let mut output = String::new();
    processor
        .process_lines(&lines_of(VALID_LINE), &mut output)
        .unwrap();
    assert_eq!(
        output,
        "---- Session started 2023-01-01 ----\n12:00:00Z [inf] Test message\n"
    );
    let rows = lines_of(&output);
    assert_eq!(rows.len(), 2);
    assert!(rows[0].contains("Session started 2023-01-01"));
    assert_eq!(rows[1], "12:00:00Z [inf] Test message");
}

#[test]
fn colored_record_renders_exactly() {
    let detector = SessionStartDetector::from_message("Test message");
    let processor = LineProcessor::new(detector, false, true);
    let mut output = String::new();
    processor
        .process_lines(&lines_of(VALID_LINE), &mut output)
        .unwrap();
    assert_eq!(
        output,
        "\x1b[38;5;4m---- Session started 2023-01-01 ----\n\
         \x1b[38;5;6m12:00:00Z\x1b[38;5;254m [inf] Test message\x1b[0m\n"
    );
}

#[test]
fn colored_record_without_boundary() {
    let processor = LineProcessor::new(SessionStartDetector::never(), false, true);
    let mut output = String::new();
    let line = r#"{"timestamp":"2024-02-29T23:59:59.999Z","level":"silly","message":"x"}"#;
    processor.process_lines(&lines_of(line), &mut output).unwrap();
    assert_eq!(output, "\x1b[38;5;6m23:59:59.999Z\x1b[38;5;27m [sil] x\x1b[0m\n");
}

#[test]
fn every_level_has_its_label() {
    let processor = LineProcessor::new(SessionStartDetector::never(), false, false);
    assert_eq!(processor.get_level_label("error"), " [err] ");
    assert_eq!(processor.get_level_label("warn"), " [wrn] ");
    assert_eq!(processor.get_level_label("info"), " [inf] ");
    assert_eq!(processor.get_level_label("http"), " [web] ");
    assert_eq!(processor.get_level_label("verbose"), " [vrb] ");
    assert_eq!(processor.get_level_label("debug"), " [dbg] ");
    assert_eq!(processor.get_level_label("silly"), " [sil] ");
    assert_eq!(processor.get_level_label(""), " [unk] ");
    assert_eq!(processor.get_level_label("Error"), " [unk] ");
    assert_eq!(processor.get_level_label(" info"), " [unk] ");
    assert_eq!(processor.get_level_label("warning"), " [unk] ");
}

#[test]
fn every_level_has_its_colored_label() {
    let processor = LineProcessor::new(SessionStartDetector::never(), false, true);
    assert_eq!(processor.get_level_label("warn"), "\x1b[38;5;11m [wrn] ");
    assert_eq!(processor.get_level_label("http"), "\x1b[38;5;97m [web] ");
    assert_eq!(processor.get_level_label("verbose"), "\x1b[38;5;6m [vrb] ");
    assert_eq!(processor.get_level_label("debug"), "\x1b[38;5;27m [dbg] ");
    assert_eq!(processor.get_level_label("silly"), "\x1b[38;5;27m [sil] ");
}

#[test]
fn message_is_rendered_unchanged() {
    let processor = LineProcessor::new(SessionStartDetector::never(), false, true);
    let message = "  tabs\tand \u{1F980} crabs; [inf] 100% {\"k\":1}  ";
    let record = LogLine::from_message(message);
    let mut output = String::new();
    processor.write_log_line(&mut output, &record);
    assert!(output.contains(message));
    assert_eq!(
        output,
        format!("\x1b[38;5;6m12:00:00.345Z\x1b[38;5;254m [inf] {message}\x1b[0m\n")
    );
}

#[test]
fn long_message_is_not_truncated() {
    let processor = LineProcessor::new(SessionStartDetector::never(), false, false);
    let message = "m".repeat(20_000);
    let record = LogLine::from_message(&message);
    let mut output = String::new();
    processor.write_log_line(&mut output, &record);
    assert_eq!(output.len(), "12:00:00.345Z [inf] ".len() + 20_000 + 1);
    assert!(output.contains(&message));
}

#[test]
fn write_log_line_appends_to_what_is_there() {
    let processor = LineProcessor::new(SessionStartDetector::never(), false, false);
    let mut output = String::from("kept|");
    processor.write_log_line(&mut output, &LogLine::from_message("a"));
    processor.write_log_line(&mut output, &LogLine::from_message("b"));
    assert_eq!(output, "kept|12:00:00.345Z [inf] a\n12:00:00.345Z [inf] b\n");
}

#[test]
fn trigger_twice_in_a_row_gives_two_banners() {
    let detector = SessionStartDetector::from_message("Test message");
    let processor = LineProcessor::new(detector, false, false);
    let lines = vec![VALID_LINE.to_string(), VALID_LINE.to_string()];
    let mut output = String::new();
    processor.process_lines(&lines, &mut output).unwrap();
    let once = "---- Session started 2023-01-01 ----\n12:00:00Z [inf] Test message\n";
    assert_eq!(output, format!("{once}{once}"));
    assert_eq!(output.matches("---- Session started ").count(), 2);
}

#[test]
fn banner_carries_the_date_of_its_own_record() {
    let detector = SessionStartDetector::from_rx(Regex::new("^boot").unwrap());
    let processor = LineProcessor::new(detector, false, false);
    let lines = vec![
        r#"{"timestamp":"2024-05-01T08:00:00.000Z","level":"info","message":"boot one"}"#
            .to_string(),
        r#"{"timestamp":"2024-05-01T08:00:01.000Z","level":"debug","message":"reboot"}"#
            .to_string(),
        r#"{"timestamp":"2024-05-02T09:30:00.000Z","level":"error","message":"boot two"}"#
            .to_string(),
    ];
    let mut output = String::new();
    processor.process_lines(&lines, &mut output).unwrap();
    assert_eq!(
        output,
        "---- Session started 2024-05-01 ----\n08:00:00.000Z [inf] boot one\n\
         08:00:01.000Z [dbg] reboot\n\
         ---- Session started 2024-05-02 ----\n09:30:00.000Z [err] boot two\n"
    );
}

#[test]
fn skip_mode_reports_the_skipped_line_numbers() {
    let processor = LineProcessor::new(SessionStartDetector::never(), true, false);
    let mut output = String::new();
    let skipped = processor
        .process_lines(&lines_of(INVALID_LINES_SOURCE), &mut output)
        .unwrap();
    assert_eq!(skipped, vec![2, 4]);
    assert_eq!(
        output,
        "20:25:01.133Z [inf] First valid line\n\
         20:26:01.133Z [wrn] Second valid line\n\
         20:27:01.133Z [inf] Third valid line\n"
    );
}

#[test]
fn abort_mode_stops_at_the_first_invalid_line() {
    let processor = LineProcessor::new(SessionStartDetector::never(), false, false);
    let mut output = String::new();
    let result = processor.process_lines(&lines_of(INVALID_LINES_SOURCE), &mut output);
    match result {
        Err(ProcessError::ParseError(line_no, DecodeError::Malformed(report))) => {
            assert_eq!(line_no, 2);
            assert!(!report.is_empty());
        }
        other => panic!("expected a parse error on line 2, got {other:?}"),
    }
    assert_eq!(output, "20:25:01.133Z [inf] First valid line\n");
}

#[test]
fn abort_mode_on_the_first_line_writes_nothing() {
    let processor = LineProcessor::new(SessionStartDetector::never(), false, false);
    let lines = vec!["{".to_string(), VALID_LINE.to_string()];
    let mut output = String::new();
    let result = processor.process_lines(&lines, &mut output);
    assert!(matches!(
        result,
        Err(ProcessError::ParseError(1, DecodeError::Malformed(_)))
    ));
    assert_eq!(output, "");
}

#[test]
fn no_lines_give_no_output() {
    let processor = LineProcessor::new(SessionStartDetector::never(), false, false);
    let mut output = String::new();
    let skipped = processor.process_lines(&Vec::new(), &mut output).unwrap();
    assert!(skipped.is_empty());
    assert_eq!(output, "");
}

#[test]
fn all_lines_valid_gives_nothing_skipped() {
    let processor = LineProcessor::new(SessionStartDetector::never(), false, false);
    let lines = vec![VALID_LINE.to_string(); 3];
    let mut output = String::new();
    let skipped = processor.process_lines(&lines, &mut output).unwrap();
    assert!(skipped.is_empty());
    assert_eq!(output, "12:00:00Z [inf] Test message\n".repeat(3));
}

#[test]
fn process_line_skips_what_is_no_record() {
    let processor = LineProcessor::new(SessionStartDetector::never(), true, false);
    let mut buffer = String::from("before");
    assert_eq!(
        processor.process_line(7, "not json", &mut buffer),
        Ok(LineOutcome::Skipped)
    );
    assert_eq!(
        processor.process_line(8, r#"{"timestamp":"2023-01-01T12:00:00Z","level":"info"}"#, &mut buffer),
        Ok(LineOutcome::Skipped)
    );
    assert_eq!(buffer, "before");
}

#[test]
fn process_line_names_the_line_and_the_cause() {
    let processor = LineProcessor::new(SessionStartDetector::never(), false, false);
    let mut buffer = String::new();
    assert_eq!(
        processor.process_line(12, r#"{"level":"info","message":"m"}"#, &mut buffer),
        Err(ProcessError::ParseError(12, DecodeError::MissingField(Field::Timestamp)))
    );
    assert_eq!(
        processor.process_line(13, r#"{"timestamp":"2023-01-01T12:00:00Z","message":"m"}"#, &mut buffer),
        Err(ProcessError::ParseError(13, DecodeError::MissingField(Field::Level)))
    );
    assert_eq!(
        processor.process_line(14, r#"{"timestamp":"2023-01-01T12:00:00Z","level":"info"}"#, &mut buffer),
        Err(ProcessError::ParseError(14, DecodeError::MissingField(Field::Message)))
    );
    assert_eq!(
        processor.process_line(15, r#"{"timestamp":"12:00","level":"info","message":"m"}"#, &mut buffer),
        Err(ProcessError::ParseError(15, DecodeError::ShortTimestamp))
    );
    assert!(matches!(
        processor.process_line(16, r#"{"timestamp":"2023-01-01T12:00:00Z","level":"info","message":"m"} x"#, &mut buffer),
        Err(ProcessError::ParseError(16, DecodeError::Malformed(_)))
    ));
    assert_eq!(buffer, "");
}

#[test]
fn documents_that_are_no_objects_are_no_records() {
    let processor = LineProcessor::new(SessionStartDetector::never(), false, false);
    let mut buffer = String::new();
    for line in [
        r#"["2023-01-01T12:00:00Z","info","Test message"]"#,
        r#""2023-01-01T12:00:00Z""#,
        "42",
        "null",
        "true",
    ] {
        assert_eq!(
            processor.process_line(1, line, &mut buffer),
            Err(ProcessError::ParseError(1, DecodeError::MissingField(Field::Timestamp)))
        );
    }
    assert!(matches!(
        processor.process_line(1, "", &mut buffer),
        Err(ProcessError::ParseError(1, DecodeError::Malformed(_)))
    ));
    assert_eq!(buffer, "");
}

#[test]
fn fields_that_are_no_strings_are_missing() {
    let processor = LineProcessor::new(SessionStartDetector::never(), false, false);
    let mut buffer = String::new();
    assert_eq!(
        processor.process_line(1, r#"{"timestamp":1672574400,"level":"info","message":"m"}"#, &mut buffer),
        Err(ProcessError::ParseError(1, DecodeError::MissingField(Field::Timestamp)))
    );
    assert_eq!(
        processor.process_line(2, r#"{"timestamp":"2023-01-01T12:00:00Z","level":null,"message":"m"}"#, &mut buffer),
        Err(ProcessError::ParseError(2, DecodeError::MissingField(Field::Level)))
    );
    assert_eq!(
        processor.process_line(3, r#"{"timestamp":"2023-01-01T12:00:00Z","level":"info","message":{"text":"m"}}"#, &mut buffer),
        Err(ProcessError::ParseError(3, DecodeError::MissingField(Field::Message)))
    );
}

#[test]
fn additional_fields_are_ignored() {
    let processor = LineProcessor::new(SessionStartDetector::never(), false, false);
    let mut buffer = String::new();
    let line = r#" { "pid": 4711, "message": "late", "tags": ["a", {"b": null}], "level": "http", "timestamp": "2023-06-30T01:02:03.004Z", "host": "h" } "#;
    assert_eq!(processor.process_line(1, line, &mut buffer), Ok(LineOutcome::Rendered));
    assert_eq!(buffer, "01:02:03.004Z [web] late\n");
}

#[test]
fn emit_applies_the_policy_to_a_decoding_outcome() {
    let skipping = LineProcessor::new(SessionStartDetector::never(), true, false);
    let aborting = LineProcessor::new(SessionStartDetector::never(), false, false);
    let mut buffer = String::new();

    assert_eq!(
        skipping.emit(3, Err(DecodeError::ShortTimestamp), &mut buffer),
        Ok(LineOutcome::Skipped)
    );
    assert_eq!(
        aborting.emit(3, Err(DecodeError::ShortTimestamp), &mut buffer),
        Err(ProcessError::ParseError(3, DecodeError::ShortTimestamp))
    );
    assert_eq!(
        aborting.emit(4, Err(DecodeError::Malformed("bad".to_string())), &mut buffer),
        Err(ProcessError::ParseError(4, DecodeError::Malformed("bad".to_string())))
    );
    assert_eq!(buffer, "");

    assert_eq!(
        aborting.emit(5, Ok(LogLine::from_message("fine")), &mut buffer),
        Ok(LineOutcome::Rendered)
    );
    assert_eq!(
        skipping.emit(6, Ok(LogLine::from_message("too")), &mut buffer),
        Ok(LineOutcome::Rendered)
    );
    assert_eq!(buffer, "12:00:00.345Z [inf] fine\n12:00:00.345Z [inf] too\n");
}

#[test]
fn same_line_renders_the_same_every_time() {
    let detector = SessionStartDetector::from_rx(Regex::new("message$").unwrap());
    let processor = LineProcessor::new(detector, false, true);
    let mut first = String::new();
    let mut second = String::new();
    processor.process_line(1, VALID_LINE, &mut first).unwrap();
    processor.process_line(1, "{}", &mut String::new()).unwrap_err();
    processor.process_line(2, VALID_LINE, &mut second).unwrap();
    assert_eq!(first, second);
}

#[test]
fn color_follows_the_terminal_unless_overridden() {
    assert!(color_choice(true, false, false));
    assert!(!color_choice(true, false, true));
    assert!(!color_choice(false, false, false));
    assert!(color_choice(false, true, false));
    assert!(!color_choice(false, false, true));
    assert!(color_choice(true, true, false));
}
