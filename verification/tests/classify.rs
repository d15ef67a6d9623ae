use comment_checker::classify::CommentSpan;
use comment_checker::classify::comment_has_valid_code;
use comment_checker::classify::file_report;
use comment_checker::pyparse::PyParser;

fn parser() -> PyParser {
    PyParser::new().expect("the Python grammar should load")
}

fn span(text: &str, row: usize, col: usize) -> CommentSpan {
    CommentSpan { text: text.to_string(), row, col }
}

#[test]
fn allow_list_idempotence() {
    let mut p = parser();
    let benign = ["# 42", "# foo", "# 3.14", "# True", "# x: int"];
    for text in benign.iter() {
        let verdict = comment_has_valid_code(&span(text, 1, 1), &mut p, false);
        assert!(verdict.is_none(), "{} should not be flagged", text);
    }
}

#[test]
fn marker_only_allowed() {
    let mut p = parser();
    assert!(comment_has_valid_code(&span("#", 1, 1), &mut p, false).is_none());
    assert!(comment_has_valid_code(&span("#   ", 1, 1), &mut p, false).is_none());
}

#[test]
fn nested_comment_allowed() {
    let mut p = parser();
    assert!(comment_has_valid_code(&span("## note", 2, 1), &mut p, false).is_none());
}

#[test]
fn text_without_marker_allowed() {
    let mut p = parser();
    assert!(comment_has_valid_code(&span("not a comment", 1, 1), &mut p, false).is_none());
}

#[test]
fn flags_call_expression() {
    let mut p = parser();
    let verdict = comment_has_valid_code(&span("# print(\"debug\")", 7, 3), &mut p, false);
    assert_eq!(verdict, Some("(7, 3):\n  \"print(\"debug\")\"".to_string()));
}

#[test]
fn flags_assignment() {
    let mut p = parser();
    let verdict = comment_has_valid_code(&span("# x = compute(1, 2)", 2, 5), &mut p, false);
    assert_eq!(verdict, Some("(2, 5):\n  \"x = compute(1, 2)\"".to_string()));
}

#[test]
fn syntax_error_not_flagged() {
    let mut p = parser();
    let verdict = comment_has_valid_code(&span("# this is broken code(", 3, 1), &mut p, false);
    assert!(verdict.is_none());
}

#[test]
fn lone_string_literal_is_flagged() {
    let mut p = parser();
    let verdict = comment_has_valid_code(&span("# \"hello\"", 1, 1), &mut p, false);
    assert!(verdict.is_some());
}

#[test]
fn verbose_message_carries_shape() {
    let mut p = parser();
    let verdict = comment_has_valid_code(&span("# old_code()", 1, 1), &mut p, true);
    assert_eq!(
        verdict,
        Some(
            "(1, 1): (module (expression_statement (call function: (identifier) arguments: (argument_list))))\n  \"old_code()\""
                .to_string()
        )
    );
}

#[test]
fn multi_digit_position_rendered_in_decimal() {
    let mut p = parser();
    let verdict = comment_has_valid_code(&span("# f(1)", 120, 45), &mut p, false);
    assert_eq!(verdict, Some("(120, 45):\n  \"f(1)\"".to_string()));
}

#[test]
fn body_is_trimmed_in_message() {
    let mut p = parser();
    let verdict = comment_has_valid_code(&span("#   f(1)   ", 9, 2), &mut p, false);
    assert_eq!(verdict, Some("(9, 2):\n  \"f(1)\"".to_string()));
}

#[test]
fn report_lists_later_comment_first() {
    let mut p = parser();
    let spans = vec![span("# a()", 3, 1), span("# b()", 10, 1)];
    let report = file_report(&spans, &mut p, false).expect("grammar is loaded");
    assert_eq!(
        report,
        vec!["(10, 1):\n  \"b()\"".to_string(), "(3, 1):\n  \"a()\"".to_string()]
    );
}

#[test]
fn report_skips_allowed_comments() {
    let mut p = parser();
    let spans = vec![
        span("# explains what happens here(", 1, 1),
        span("# x = 1", 4, 1),
        span("# just words", 6, 1),
    ];
    let report = file_report(&spans, &mut p, false).expect("grammar is loaded");
    assert_eq!(report, vec!["(4, 1):\n  \"x = 1\"".to_string()]);
}

#[test]
fn empty_span_list_gives_empty_report() {
    let mut p = parser();
    let report = file_report(&Vec::new(), &mut p, false).expect("grammar is loaded");
    assert!(report.is_empty());
}
