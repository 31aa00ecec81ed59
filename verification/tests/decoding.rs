use osquery_subgraph::Columns;
use osquery_subgraph::DecodeError;
use osquery_subgraph::decode_process_record;
use osquery_subgraph::parse_i64;
use osquery_subgraph::parse_u64;

fn make_columns(pairs: &[(&str, &str)]) -> Columns {
    let mut cols = Columns::new();
    for (name, value) in pairs {
        cols.push((*name).to_owned(), (*value).to_owned());
    }
    cols
}

#[test]
fn decodes_numeric_text_fields() {
    let cols = make_columns(&[
        ("pid", "10"),
        ("name", "bash"),
        ("path", "/bin/bash"),
        ("cmdline", "bash -c ls"),
        ("parent", "-1"),
        ("time", "1600000000"),
    ]);
    let record = decode_process_record(&cols).unwrap();
    assert_eq!(record.pid, 10);
    assert_eq!(record.name, "bash");
    assert_eq!(record.path, "/bin/bash");
    assert_eq!(record.cmdline, "bash -c ls");
    assert_eq!(record.parent, -1);
    assert_eq!(record.time, 1600000000);
}

#[test]
fn non_numeric_pid_is_invalid() {
    let cols = make_columns(&[
        ("pid", "abc"),
        ("name", "bash"),
        ("path", "/bin/bash"),
        ("cmdline", "bash"),
        ("parent", "1"),
        ("time", "-1"),
    ]);
    match decode_process_record(&cols) {
        Err(DecodeError::InvalidNumeric { field, raw_value }) => {
            assert_eq!(field, "pid");
            assert_eq!(raw_value, "abc");
        }
        other => panic!("expected an invalid-numeric error, got {:?}", other),
    }
}

#[test]
fn missing_field_is_reported_by_name() {
    let cols = make_columns(&[
        ("pid", "10"),
        ("name", "bash"),
        ("path", "/bin/bash"),
        ("cmdline", "bash"),
        ("parent", "1"),
    ]);
    match decode_process_record(&cols) {
        Err(DecodeError::MissingField { field }) => {
            assert_eq!(field, "time");
        }
        other => panic!("expected a missing-field error, got {:?}", other),
    }
}

#[test]
fn unknown_extra_fields_are_ignored() {
    let cols = make_columns(&[
        ("uid", "0"),
        ("pid", "10"),
        ("name", "bash"),
        ("path", "/bin/bash"),
        ("cmdline", "bash"),
        ("parent", "1"),
        ("time", "7"),
        ("euid", "0"),
    ]);
    let record = decode_process_record(&cols).unwrap();
    assert_eq!(record.pid, 10);
    assert_eq!(record.time, 7);
}

#[test]
fn first_occurrence_of_a_repeated_field_wins() {
    let cols = make_columns(&[
        ("pid", "10"),
        ("pid", "20"),
        ("name", "bash"),
        ("path", "/bin/bash"),
        ("cmdline", "bash"),
        ("parent", "1"),
        ("time", "-1"),
    ]);
    let record = decode_process_record(&cols).unwrap();
    assert_eq!(record.pid, 10);
}

#[test]
fn text_fields_pass_through_verbatim() {
    let cols = make_columns(&[
        ("pid", "1"),
        ("name", "  spaced  "),
        ("path", " /bin/a b "),
        ("cmdline", "x\ty"),
        ("parent", "0"),
        ("time", "0"),
    ]);
    let record = decode_process_record(&cols).unwrap();
    assert_eq!(record.name, "  spaced  ");
    assert_eq!(record.path, " /bin/a b ");
    assert_eq!(record.cmdline, "x\ty");
}

#[test]
fn parse_u64_accepts_plain_and_signed_digits() {
    assert_eq!(parse_u64("10"), Some(10));
    assert_eq!(parse_u64("0"), Some(0));
    assert_eq!(parse_u64("+7"), Some(7));
    assert_eq!(parse_u64("18446744073709551615"), Some(u64::MAX));
}

#[test]
fn parse_u64_rejects_malformed_text() {
    assert_eq!(parse_u64(""), None);
    assert_eq!(parse_u64("+"), None);
    assert_eq!(parse_u64("abc"), None);
    assert_eq!(parse_u64("10abc"), None);
    assert_eq!(parse_u64("-1"), None);
    assert_eq!(parse_u64(" 10"), None);
    assert_eq!(parse_u64("18446744073709551616"), None);
}

#[test]
fn parse_i64_accepts_the_full_signed_range() {
    assert_eq!(parse_i64("10"), Some(10));
    assert_eq!(parse_i64("-1"), Some(-1));
    assert_eq!(parse_i64("-0"), Some(0));
    assert_eq!(parse_i64("+3"), Some(3));
    assert_eq!(parse_i64("9223372036854775807"), Some(i64::MAX));
    assert_eq!(parse_i64("-9223372036854775808"), Some(i64::MIN));
}

#[test]
fn parse_i64_rejects_malformed_text() {
    assert_eq!(parse_i64(""), None);
    assert_eq!(parse_i64("-"), None);
    assert_eq!(parse_i64("+"), None);
    assert_eq!(parse_i64("--1"), None);
    assert_eq!(parse_i64("1.5"), None);
    assert_eq!(parse_i64("9223372036854775808"), None);
    assert_eq!(parse_i64("-9223372036854775809"), None);
}
