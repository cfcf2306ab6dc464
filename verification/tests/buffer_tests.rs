use acp_engine::buffer::TerminalOutputState;

#[test]
fn append_without_limit_concatenates() {
    let mut buf = TerminalOutputState::new();
    buf.append("hello ", None);
    buf.append("world", None);
    let (text, truncated) = buf.snapshot();
    assert_eq!(text, "hello world");
    assert!(!truncated);
}

#[test]
fn overflow_trims_front_to_limit_and_sets_truncated() {
    let mut buf = TerminalOutputState::new();
    buf.append("hello ", Some(5));
    buf.append("world", Some(5));
    let (text, truncated) = buf.snapshot();
    assert_eq!(text, "world");
    assert!(text.len() <= 5);
    assert!(truncated);
}

#[test]
fn truncation_does_not_cut_multibyte_characters() {
    // Three two-byte characters: six bytes against a limit of three.  The
    // naive cut point lands inside the second character; the kept tail must
    // start at the next boundary.
    let mut buf = TerminalOutputState::new();
    buf.append("\u{3b1}\u{3b1}\u{3b2}", Some(3));
    let (text, truncated) = buf.snapshot();
    assert_eq!(text, "\u{3b2}");
    assert!(text.len() <= 3);
    assert!(truncated);
}

#[test]
fn truncated_flag_is_monotonic() {
    let mut buf = TerminalOutputState::new();
    buf.append("abcdefgh", Some(4));
    let (_, truncated) = buf.snapshot();
    assert!(truncated);
    // Appends that stay below the limit do not clear the flag.
    buf.append("", Some(4));
    let (text, truncated) = buf.snapshot();
    assert!(truncated);
    assert_eq!(text, "efgh");
}

#[test]
fn appends_below_limit_do_not_truncate() {
    let mut buf = TerminalOutputState::new();
    buf.append("abc", Some(10));
    let (text, truncated) = buf.snapshot();
    assert_eq!(text, "abc");
    assert!(!truncated);
}
