use wgputoy::errors::{
    corrected_row, count_newlines, device_error_report, parse_decimal, parse_error_report,
    report_from_captures,
};
use wgputoy::shader::ParseError;

#[test]
fn count_newlines_counts_line_feeds() {
    assert_eq!(count_newlines(""), 0);
    assert_eq!(count_newlines("no line feed"), 0);
    assert_eq!(count_newlines("a\nb\r\nc\n"), 3);
    assert_eq!(count_newlines("\n\n\n"), 3);
    assert_eq!(count_newlines("h\u{e9}\nll\u{1f600}\n"), 2);
}

#[test]
fn corrected_row_takes_prelude_off() {
    assert_eq!(corrected_row(30, 26), 4);
    assert_eq!(corrected_row(26, 26), 0);
}

#[test]
fn corrected_row_never_falls_below_zero() {
    for row in 0..=26 {
        assert_eq!(corrected_row(row, 26), 0);
    }
    assert_eq!(corrected_row(0, usize::MAX), 0);
}

#[test]
fn parse_error_report_moves_row_only() {
    let error = ParseError { summary: "unexpected token".to_string(), row: 29, column: 12, offset: 1500 };
    let report = parse_error_report(error, 26);
    assert_eq!(report.summary, "unexpected token");
    assert_eq!(report.row, 3);
    assert_eq!(report.column, 12);
}

#[test]
fn parse_error_in_prelude_reports_row_zero() {
    let error = ParseError { summary: "in the prelude".to_string(), row: 5, column: 2, offset: 300 };
    let report = parse_error_report(error, 26);
    assert_eq!(report.row, 0);
    assert_eq!(report.column, 2);
}

#[test]
fn parse_decimal_reads_digits() {
    assert_eq!(parse_decimal("0"), Some(0));
    assert_eq!(parse_decimal("42"), Some(42));
    assert_eq!(parse_decimal("007"), Some(7));
    assert_eq!(parse_decimal("+15"), Some(15));
    assert_eq!(parse_decimal(&usize::MAX.to_string()), Some(usize::MAX));
}

#[test]
fn parse_decimal_refuses_what_is_no_number() {
    assert_eq!(parse_decimal(""), None);
    assert_eq!(parse_decimal("+"), None);
    assert_eq!(parse_decimal("-1"), None);
    assert_eq!(parse_decimal("1 "), None);
    assert_eq!(parse_decimal(" 1"), None);
    assert_eq!(parse_decimal("1+"), None);
    assert_eq!(parse_decimal("++1"), None);
    assert_eq!(parse_decimal("12a"), None);
    assert_eq!(parse_decimal("1_000"), None);
    assert_eq!(parse_decimal("\u{663}"), None);
}

#[test]
fn parse_decimal_refuses_overflow() {
    let mut too_large = usize::MAX.to_string();
    too_large.push('0');
    assert_eq!(parse_decimal(&too_large), None);
    assert_eq!(parse_decimal("99999999999999999999999999999999999999999"), None);
}

#[test]
fn parse_decimal_agrees_with_std() {
    for text in ["", "+", "0", "+0", "-0", "10", "0010", "9x", "x9", "18446744073709551615", "18446744073709551616", "4294967295", "4294967296", "+4294967296"] {
        assert_eq!(parse_decimal(text), text.parse::<usize>().ok());
    }
}

#[test]
fn device_error_is_matched() {
    let message = "Validation error\nParser: :30:7 unknown identifier: 'foo'\n      Shader 'main' parsing error";
    let report = device_error_report(message, 26).expect("the message has the shape");
    assert_eq!(report.summary, "unknown identifier: 'foo'");
    assert_eq!(report.row, 4);
    assert_eq!(report.column, 7);
}

#[test]
fn device_error_in_prelude_reports_row_zero() {
    let report = device_error_report("Parser: :3:1 oops Shader", 26).expect("the message has the shape");
    assert_eq!(report.summary, "oops");
    assert_eq!(report.row, 0);
    assert_eq!(report.column, 1);
}

#[test]
fn device_error_summary_is_shortest() {
    let report = device_error_report("Parser: :40:2 a Shader b Shader", 0).expect("the message has the shape");
    assert_eq!(report.summary, "a");
    assert_eq!(report.row, 40);
}

#[test]
fn device_error_with_huge_row_falls_back() {
    let message = "Parser: :99999999999999999999999999:88888888888888888888888888 far away Shader";
    let report = device_error_report(message, 26).expect("the message has the shape");
    assert_eq!(report.row, 0);
    assert_eq!(report.column, 0);
    assert_eq!(report.summary, "far away");
}

#[test]
fn device_error_of_other_shape_is_not_matched() {
    assert!(device_error_report("out of memory", 26).is_none());
    assert!(device_error_report("", 26).is_none());
    assert!(device_error_report("Parser: :x:7 bad Shader", 26).is_none());
    assert!(device_error_report("Parser::30:7 bad Shader", 26).is_none());
    assert!(device_error_report("Parser: :30:7 bad", 26).is_none());
}

#[test]
fn report_from_captures_needs_all_groups() {
    let some = |text: &str| Some(text.to_string());
    assert!(report_from_captures(&None, 3).is_none());
    assert!(report_from_captures(&Some(vec![some("whole"), some("1"), some("2")]), 3).is_none());
    assert!(report_from_captures(&Some(vec![some("whole"), None, some("2"), some("s")]), 3).is_none());
    assert!(report_from_captures(&Some(vec![some("whole"), some("1"), None, some("s")]), 3).is_none());
    assert!(report_from_captures(&Some(vec![some("whole"), some("1"), some("2"), None]), 3).is_none());
    let report = report_from_captures(&Some(vec![some("whole"), some("10"), some("2"), some("s")]), 3)
        .expect("all groups are there");
    assert_eq!((report.summary.as_str(), report.row, report.column), ("s", 7, 2));
}

#[test]
fn report_from_captures_falls_back_on_bad_numbers() {
    let some = |text: &str| Some(text.to_string());
    let report = report_from_captures(&Some(vec![some("whole"), some("x"), some("y"), some("s")]), 3)
        .expect("all groups are there");
    assert_eq!((report.row, report.column), (0, 0));
    let report = report_from_captures(&Some(vec![None, some("x"), some("5"), some("s")]), 0)
        .expect("all groups are there");
    assert_eq!((report.row, report.column), (0, 5));
}
