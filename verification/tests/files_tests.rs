use acp_engine::files::window_lines;
use acp_engine::sandbox::{validate, Resolution};

#[test]
fn no_window_returns_content_unchanged() {
    assert_eq!(window_lines("hello", None, None), "hello");
    assert_eq!(window_lines("a\nb\nc\n", None, None), "a\nb\nc\n");
    assert_eq!(window_lines("", None, None), "");
}

#[test]
fn write_then_read_round_trip_at_the_engine_level() {
    // Writing validates the missing leaf through its parent; reading the
    // stored text back with no line window hands it over unchanged.
    let target = validate(
        "/proj",
        "notes.txt",
        true,
        &Resolution::Unresolved("no such file".to_string()),
        &Resolution::Resolved("/proj".to_string()),
    )
    .expect("write target under the root must validate");
    assert_eq!(target, "/proj/notes.txt");
    let stored = "hello";
    assert_eq!(window_lines(stored, None, None), "hello");
}

#[test]
fn five_line_file_window_from_line_two() {
    let content = "one\ntwo\nthree\nfour\nfive";
    assert_eq!(window_lines(content, Some(2), Some(2)), "two\nthree");
}

#[test]
fn line_only_takes_the_rest() {
    let content = "one\ntwo\nthree";
    assert_eq!(window_lines(content, Some(2), None), "two\nthree");
}

#[test]
fn limit_only_takes_from_the_start() {
    let content = "one\ntwo\nthree";
    assert_eq!(window_lines(content, None, Some(2)), "one\ntwo");
}

#[test]
fn limit_past_the_end_is_clamped() {
    let content = "one\ntwo";
    assert_eq!(window_lines(content, Some(2), Some(99)), "two");
}

#[test]
fn start_past_the_end_is_empty() {
    let content = "one\ntwo";
    assert_eq!(window_lines(content, Some(10), Some(2)), "");
}

#[test]
fn line_zero_counts_as_line_one() {
    let content = "one\ntwo";
    assert_eq!(window_lines(content, Some(0), Some(1)), "one");
}

#[test]
fn trailing_newline_opens_no_line() {
    assert_eq!(window_lines("a\nb\n", Some(1), Some(9)), "a\nb");
}

#[test]
fn carriage_returns_are_stripped_in_windows() {
    assert_eq!(window_lines("a\r\nb\r\nc", Some(2), Some(2)), "b\nc");
}
