use jl_pretty::error::skip_notice;
use jl_pretty::logline::{DecodeError, Field};
use jl_pretty::{LineProcessor, ProcessError, SessionStartDetector};

#[test]
fn parse_error_names_line_and_cause() {
    let error = ProcessError::from_parse_error(7, DecodeError::MissingField(Field::Level));
    assert_eq!(error, ProcessError::ParseError(7, DecodeError::MissingField(Field::Level)));
    assert_eq!(error.describe(), "Parse error on line 7: missing field `level`");

    let error = ProcessError::ParseError(1234567890, DecodeError::ShortTimestamp);
    assert_eq!(
        error.describe(),
        "Parse error on line 1234567890: timestamp is too short to hold a date and a time"
    );

    let error = ProcessError::ParseError(10, DecodeError::Malformed("EOF while parsing".into()));
    assert_eq!(error.describe(), "Parse error on line 10: EOF while parsing");
}

#[test]
fn input_not_found_names_path_and_cause() {
    let error = ProcessError::InputNotFound(
        "logs/app.jsonl".to_string(),
        "No such file or directory (os error 2)".to_string(),
    );
    assert_eq!(
        error.describe(),
        "Could not open input 'logs/app.jsonl': No such file or directory (os error 2)"
    );
}

#[test]
fn read_error_names_line_and_cause() {
    let error = ProcessError::from_read_error(42, "stream did not contain valid UTF-8".into());
    assert_eq!(
        error,
        ProcessError::ReadError(42, "stream did not contain valid UTF-8".to_string())
    );
    assert_eq!(
        error.describe(),
        "Read error after line 42: stream did not contain valid UTF-8"
    );
}

#[test]
fn write_error_names_cause() {
    let error = ProcessError::from_write_error("Broken pipe (os error 32)".to_string());
    assert_eq!(error, ProcessError::WriteError("Broken pipe (os error 32)".to_string()));
    assert_eq!(error.describe(), "Write error: Broken pipe (os error 32)");
}

#[test]
fn line_numbers_are_written_in_decimal() {
    for (line_no, numeral) in [
        (0usize, "0"),
        (1, "1"),
        (9, "9"),
        (10, "10"),
        (99, "99"),
        (100, "100"),
        (101, "101"),
        (65535, "65535"),
        (4294967295, "4294967295"),
    ] {
        assert_eq!(
            ProcessError::ReadError(line_no, String::new()).describe(),
            format!("Read error after line {numeral}: ")
        );
        assert_eq!(skip_notice(line_no), format!("--- skipped non-json line @ {numeral} ---"));
    }
    assert_eq!(
        skip_notice(usize::MAX),
        format!("--- skipped non-json line @ {} ---", usize::MAX)
    );
}

#[test]
fn parser_report_reaches_the_message() {
    let processor = LineProcessor::new(SessionStartDetector::never(), false, false);
    let line = r#"{"timestamp" "2023-01-01T12:00:00Z"}"#;
    let error = processor.process_line(3, line, &mut String::new()).unwrap_err();
    let expected = sonic_rs::from_str::<sonic_rs::LazyValue>(line).unwrap_err().to_string();
    assert!(!expected.is_empty());
    assert_ne!(expected, line);
    assert_eq!(error, ProcessError::ParseError(3, DecodeError::Malformed(expected.clone())));
    assert_eq!(error.describe(), format!("Parse error on line 3: {expected}"));
}
