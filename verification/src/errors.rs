//! Error reports: parse errors and device errors brought to one form, a
//! summary with a row and a column in the user's own text.

use crate::shader::ParseError;
use vstd::prelude::*;
use vstd::string::*;

verus! {

/// The shape of the device's report of a shader error: after `Parser:`, a
/// space and a colon come the row, a colon, the column, a space, the
/// summary, and spaces before `Shader`.
pub const DEVICE_ERROR_PATTERN: &'static str = r"Parser:\s:(\d+):(\d+)\s([\s\S]*?)\s+Shader";

/// An error as it is reported to the host: row and column lie in the
/// user's text.
#[derive(Debug)]
pub struct ErrorReport {
    pub summary: String,
    pub row: usize,
    pub column: usize,
}

/// An error report as a value.
pub struct ErrorReportView {
    pub summary: Seq<char>,
    pub row: usize,
    pub column: usize,
}

impl View for ErrorReport {
    type V = ErrorReportView;

    open spec fn view(&self) -> ErrorReportView {
        ErrorReportView { summary: self.summary@, row: self.row, column: self.column }
    }
}

impl DeepView for ErrorReport {
    type V = ErrorReportView;

    open spec fn deep_view(&self) -> ErrorReportView {
        self@
    }
}

/// The capture groups of the leftmost match of a pattern in a text, the
/// whole match first; a group that took no part in the match is absent.
/// There is none where the pattern is no regular expression or matches
/// nowhere in the text.
pub uninterp spec fn regex_captures(pattern: Seq<char>, text: Seq<char>) -> Option<
    Seq<Option<Seq<char>>>,
>;

/// Occurrences of line feed in a text.
pub open spec fn newline_count(text: Seq<char>) -> nat
    decreases text.len(),
{
    if text.len() == 0 {
        0
    } else {
        newline_count(text.drop_last()) + if text.last() == '\n' {
            1nat
        } else {
            0nat
        }
    }
}

/// The row in the user's text of a row in the whole text: the lines of the
/// prelude are taken off, and a row inside the prelude becomes row zero.
pub open spec fn row_in_shader(row: usize, prelude_len: usize) -> usize {
    if row >= prelude_len {
        (row - prelude_len) as usize
    } else {
        0
    }
}

pub open spec fn is_digit(c: char) -> bool {
    '0' <= c <= '9'
}

pub open spec fn digit_value(c: char) -> nat {
    if is_digit(c) {
        (c as int - '0' as int) as nat
    } else {
        0
    }
}

/// The number that a sequence of decimal digits writes.
pub open spec fn digits_value(digits: Seq<char>) -> nat
    decreases digits.len(),
{
    if digits.len() == 0 {
        0
    } else {
        10 * digits_value(digits.drop_last()) + digit_value(digits.last())
    }
}

pub open spec fn all_digits(digits: Seq<char>) -> bool {
    forall|i: int| 0 <= i < digits.len() ==> is_digit(#[trigger] digits[i])
}

/// A text without its leading plus sign, if it has one.
pub open spec fn unsigned_part(text: Seq<char>) -> Seq<char> {
    if text.len() > 0 && text[0] == '+' {
        text.skip(1)
    } else {
        text
    }
}

/// The number that a text writes in decimal: an optional plus sign, then
/// one digit or more and nothing else. It has none where the number is
/// too large for the machine's word.
pub open spec fn decimal_value(text: Seq<char>) -> Option<usize> {
    let digits = unsigned_part(text);
    if digits.len() > 0 && all_digits(digits) && digits_value(digits) <= usize::MAX {
        Some(digits_value(digits) as usize)
    } else {
        None
    }
}

/// The number that a capture group writes, or a fallback where it writes
/// none.
pub open spec fn group_number(group: Seq<char>, fallback: usize) -> usize {
    match decimal_value(group) {
        Some(value) => value,
        None => fallback,
    }
}

/// The report that the capture groups of a device error give: the third
/// group is the summary, the first the row in the whole text, the second
/// the column. A row that is no number counts as the first row of the
/// user's text, a column that is no number as column zero.
pub open spec fn device_report_spec(
    groups: Option<Seq<Option<Seq<char>>>>,
    prelude_len: usize,
) -> Option<ErrorReportView> {
    match groups {
        Some(groups) => if groups.len() >= 4 && groups[1] is Some && groups[2] is Some
            && groups[3] is Some {
            Some(
                ErrorReportView {
                    summary: groups[3]->0,
                    row: row_in_shader(group_number(groups[1]->0, prelude_len), prelude_len),
                    column: group_number(groups[2]->0, 0),
                },
            )
        } else {
            None
        },
        None => None,
    }
}

/// Matches a text against a pattern with `Regex::new` and
/// `Regex::captures` of the regex crate, and hands out the groups of the
/// match as strings, in order.
#[verifier::external_body]
fn capture_groups(pattern: &str, text: &str) -> (groups: Option<Vec<Option<String>>>)
    ensures
        groups.deep_view() == regex_captures(pattern@, text@),
{
    let regex = lazy_regex::Regex::new(pattern).ok()?;
    let captures = regex.captures(text)?;
    Some(captures.iter().map(|group| group.map(|found| found.as_str().to_string())).collect())
}

proof fn lemma_newline_count_bound(text: Seq<char>)
    ensures
        newline_count(text) <= text.len(),
    decreases text.len(),
{
    if text.len() > 0 {
        lemma_newline_count_bound(text.drop_last());
    }
}

proof fn lemma_chars_within_bytes(text: Seq<char>)
    ensures
        text.len() <= vstd::utf8::encode_utf8(text).len(),
    decreases text.len(),
{
    if text.len() > 0 {
        lemma_chars_within_bytes(text.drop_first());
    }
}

proof fn lemma_prefix_value(digits: Seq<char>, k: int)
    requires
        0 <= k <= digits.len(),
    ensures
        digits_value(digits.take(k)) <= digits_value(digits),
    decreases digits.len(),
{
    if k < digits.len() {
        lemma_prefix_value(digits.drop_last(), k);
        assert(digits.drop_last().take(k) =~= digits.take(k));
    } else {
        assert(digits.take(k) =~= digits);
    }
}

/// Counts the line feeds of a text.
pub fn count_newlines(s: &str) -> (n: usize)
    ensures
        n == newline_count(s@),
{
    let limit: usize = s.as_bytes().len();
    let mut n: usize = 0;
    proof {
        lemma_chars_within_bytes(s@);
    }
    for c in it: s.chars()
        invariant
            it.seq() == s@,
            s@.len() <= limit,
            n == newline_count(s@.take(it.index())),
    {
        proof {
            let k = it.index();
            assert(s@.take(k + 1).drop_last() =~= s@.take(k));
            lemma_newline_count_bound(s@.take(k));
        }
        if c == '\n' {
            n = n + 1;
        }
    }
    assert(s@.take(s@.len() as int) =~= s@);
    n
}

/// Moves a row of the whole text into the user's text.
pub fn corrected_row(row: usize, prelude_len: usize) -> (corrected: usize)
    ensures
        corrected == row_in_shader(row, prelude_len),
{
    if row >= prelude_len {
        row - prelude_len
    } else {
        0
    }
}

/// Reports a parse error: the row is moved into the user's text, summary
/// and column are kept.
pub fn parse_error_report(error: ParseError, prelude_len: usize) -> (report: ErrorReport)
    ensures
        report.summary@ == error.summary@,
        report.row == row_in_shader(error.row, prelude_len),
        report.column == error.column,
{
    ErrorReport {
        summary: error.summary,
        row: corrected_row(error.row, prelude_len),
        column: error.column,
    }
}

/// Reads a number written in decimal, as a machine word is read from a
/// string: an optional plus sign, then digits and nothing else. What is
/// written otherwise, or too large for a word, gives none.
pub fn parse_decimal(text: &str) -> (value: Option<usize>)
    ensures
        value == decimal_value(text@),
{
    let mut value: usize = 0;
    let mut first: bool = true;
    let mut any: bool = false;
    let ghost mut start: int = 0;
    for c in it: text.chars()
        invariant
            it.seq() == text@,
            first == (it.index() == 0),
            first ==> !any && value == 0 && start == 0,
            !first ==> (start == 1 <==> text@[0] == '+') && (start == 0 || start == 1),
            start <= it.index() || first,
            any == (it.index() > start),
            !first ==> all_digits(text@.subrange(start, it.index() as int)),
            !first ==> value == digits_value(text@.subrange(start, it.index() as int)),
    {
        let ghost k = it.index() as int;
        if first && c == '+' {
            proof {
                start = 1;
                assert(text@.subrange(1, 1) =~= Seq::<char>::empty());
            }
        } else {
            proof {
                if first {
                    assert(text@.subrange(0, 0) =~= Seq::<char>::empty());
                }
            }
            let ghost digits = unsigned_part(text@);
            let ghost seen = text@.subrange(start, k + 1);
            proof {
                assert(digits =~= text@.subrange(start, text@.len() as int));
                assert(digits[k - start] == c);
                assert(seen.drop_last() =~= text@.subrange(start, k));
                assert(seen.last() == c);
                assert(digits.take(k + 1 - start) =~= seen);
                lemma_prefix_value(digits, k + 1 - start);
            }
            if !('0' <= c && c <= '9') {
                return None;
            }
            let digit: usize = (c as u32 - '0' as u32) as usize;
            let scaled: usize = match value.checked_mul(10) {
                Some(scaled) => scaled,
                None => {
                    return None;
                },
            };
            value = match scaled.checked_add(digit) {
                Some(sum) => sum,
                None => {
                    return None;
                },
            };
            any = true;
        }
        first = false;
    }
    proof {
        if !first {
            assert(unsigned_part(text@) =~= text@.subrange(start, text@.len() as int));
        }
    }
    if any {
        Some(value)
    } else {
        None
    }
}

fn group_or(group: &str, fallback: usize) -> (number: usize)
    ensures
        number == group_number(group@, fallback),
{
    match parse_decimal(group) {
        Some(value) => value,
        None => fallback,
    }
}

/// Reads a device error out of the capture groups of its message. There
/// is a report exactly where the message matched and the three groups are
/// there.
pub fn report_from_captures(groups: &Option<Vec<Option<String>>>, prelude_len: usize) -> (report:
    Option<ErrorReport>)
    ensures
        report.deep_view() == device_report_spec(groups.deep_view(), prelude_len),
{
    match groups {
        Some(groups) => {
            if groups.len() < 4 {
                return None;
            }
            match (&groups[1], &groups[2], &groups[3]) {
                (Some(row), Some(column), Some(summary)) => Some(
                    ErrorReport {
                        summary: summary.clone(),
                        row: corrected_row(group_or(row.as_str(), prelude_len), prelude_len),
                        column: group_or(column.as_str(), 0),
                    },
                ),
                _ => None,
            }
        },
        None => None,
    }
}

/// Reads a message of the device's error channel. A message of the
/// recognised shape gives a report, with its row moved into the user's
/// text; any other message gives none.
pub fn device_error_report(message: &str, prelude_len: usize) -> (report: Option<ErrorReport>)
    ensures
        report.deep_view() == device_report_spec(
            regex_captures(DEVICE_ERROR_PATTERN@, message@),
            prelude_len,
        ),
{
    let groups = capture_groups(DEVICE_ERROR_PATTERN, message);
    report_from_captures(&groups, prelude_len)
}

/// A row inside the prelude becomes row zero, and a row behind it keeps
/// its distance from the end of the prelude.
pub proof fn lemma_row_in_shader(row: usize, prelude_len: usize)
    ensures
        row <= prelude_len ==> row_in_shader(row, prelude_len) == 0,
        row >= prelude_len ==> row_in_shader(row, prelude_len) + prelude_len == row,
{
}

} // verus!
