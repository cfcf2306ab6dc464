use acp_engine::terminals::{terminal_name, TerminalExitStatus, TerminalRegistry};

fn exited(code: u32) -> TerminalExitStatus {
    TerminalExitStatus { exit_code: Some(code), signal: None }
}

#[test]
fn identifiers_start_at_one_and_grow() {
    let mut reg = TerminalRegistry::new();
    let a = reg.create(None).unwrap();
    let b = reg.create(None).unwrap();
    assert_eq!(a, 1);
    assert_eq!(b, 2);
    assert_eq!(terminal_name(a), "term-1");
    assert_eq!(terminal_name(b), "term-2");
}

#[test]
fn output_before_exit_has_no_status() {
    let mut reg = TerminalRegistry::new();
    let id = reg.create(None).unwrap();
    assert!(reg.append_output(id, "partial"));
    let snap = reg.terminal_output(id, None).unwrap();
    assert_eq!(snap.output, "partial");
    assert!(!snap.truncated);
    assert!(snap.exit_status.is_none());
}

#[test]
fn polled_exit_is_cached_and_reported() {
    let mut reg = TerminalRegistry::new();
    let id = reg.create(None).unwrap();
    let snap = reg.terminal_output(id, Some(exited(0))).unwrap();
    assert_eq!(snap.exit_status.as_ref().and_then(|s| s.exit_code), Some(0));
    // The cache holds: a later request without a poll still reports it.
    let snap = reg.terminal_output(id, None).unwrap();
    assert_eq!(snap.exit_status.as_ref().and_then(|s| s.exit_code), Some(0));
    let cached = reg.cached_exit(id).unwrap();
    assert_eq!(cached.and_then(|s| s.exit_code), Some(0));
}

#[test]
fn wait_records_the_observed_exit() {
    let mut reg = TerminalRegistry::new();
    let id = reg.create(None).unwrap();
    assert!(reg.cached_exit(id).unwrap().is_none());
    reg.record_exit(id, TerminalExitStatus { exit_code: None, signal: Some("SIGKILL".to_string()) })
        .unwrap();
    let cached = reg.cached_exit(id).unwrap().unwrap();
    assert_eq!(cached.exit_code, None);
    assert_eq!(cached.signal.as_deref(), Some("SIGKILL"));
}

#[test]
fn output_respects_the_configured_limit() {
    let mut reg = TerminalRegistry::new();
    let id = reg.create(Some(4)).unwrap();
    assert!(reg.append_output(id, "abcdefgh"));
    let snap = reg.terminal_output(id, None).unwrap();
    assert_eq!(snap.output, "efgh");
    assert!(snap.truncated);
}

#[test]
fn released_terminal_is_not_found() {
    let mut reg = TerminalRegistry::new();
    let id = reg.create(None).unwrap();
    let other = reg.create(None).unwrap();
    assert!(reg.has_terminal(id));
    assert!(reg.release(id).is_ok());
    assert!(!reg.has_terminal(id));
    assert!(reg.terminal_output(id, None).is_err());
    assert!(reg.cached_exit(id).is_err());
    assert!(reg.record_exit(id, exited(1)).is_err());
    assert!(!reg.append_output(id, "late"));
    assert!(reg.release(id).is_err());
    // The other terminal is untouched.
    assert!(reg.has_terminal(other));
}

#[test]
fn releasing_an_unknown_terminal_is_an_invalid_params_error() {
    let mut reg = TerminalRegistry::new();
    let err = reg.release(99).unwrap_err();
    assert_eq!(err.code(), -32602);
    assert_eq!(err.data, "terminal not found");
}

#[test]
fn unknown_terminal_is_an_invalid_params_error() {
    let mut reg = TerminalRegistry::new();
    let err = reg.terminal_output(99, None).unwrap_err();
    assert_eq!(err.code(), -32602);
    assert_eq!(err.data, "terminal not found");
}
