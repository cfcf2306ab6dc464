use acp_engine::sandbox::{
    candidate_path, contains_parent_traversal, file_name_of, parent_path, path_within_root,
    validate, Resolution, SandboxError,
};

fn resolved(s: &str) -> Resolution {
    Resolution::Resolved(s.to_string())
}

fn unresolved() -> Resolution {
    Resolution::Unresolved("No such file or directory (os error 2)".to_string())
}

#[test]
fn traversal_segment_rejected_regardless_of_allow_missing() {
    for allow_missing in [false, true] {
        let r = validate(
            "/proj",
            "../etc",
            allow_missing,
            &unresolved(),
            &unresolved(),
        );
        assert!(matches!(r, Err(SandboxError::ParentTraversal)));
        let r = validate("/proj", "a/../b", allow_missing, &resolved("/proj/b"), &unresolved());
        assert!(matches!(r, Err(SandboxError::ParentTraversal)));
        let r = validate("/proj", "..", allow_missing, &resolved("/"), &unresolved());
        assert!(matches!(r, Err(SandboxError::ParentTraversal)));
    }
}

#[test]
fn dots_inside_a_name_are_not_traversal() {
    assert!(!contains_parent_traversal("foo..bar"));
    assert!(!contains_parent_traversal("a/..b/c"));
    assert!(!contains_parent_traversal("a/b../c"));
    assert!(contains_parent_traversal("a/../c"));
    assert!(contains_parent_traversal("../c"));
    assert!(contains_parent_traversal("a/.."));
    assert!(contains_parent_traversal(".."));
}

#[test]
fn inside_root_succeeds_and_stays_under_root() {
    let r = validate(
        "/proj",
        "sub/file.txt",
        false,
        &resolved("/proj/sub/file.txt"),
        &unresolved(),
    );
    let p = r.expect("path inside the root must validate");
    assert_eq!(p, "/proj/sub/file.txt");
    assert!(p.starts_with("/proj"));
}

#[test]
fn root_itself_is_within_root() {
    let r = validate("/proj", "/proj", false, &resolved("/proj"), &unresolved());
    assert_eq!(r.expect("the root itself must validate"), "/proj");
}

#[test]
fn path_resolving_outside_root_is_rejected() {
    let r = validate(
        "/proj",
        "/etc/passwd",
        false,
        &resolved("/etc/passwd"),
        &unresolved(),
    );
    assert!(matches!(r, Err(SandboxError::OutsideRoot)));
}

#[test]
fn sibling_with_root_as_prefix_is_outside() {
    // "/projx" shares the text prefix but is not under "/proj".
    let r = validate("/proj", "/projx/a", false, &resolved("/projx/a"), &unresolved());
    assert!(matches!(r, Err(SandboxError::OutsideRoot)));
    assert!(!path_within_root("/projx/a", "/proj"));
    assert!(path_within_root("/proj/a", "/proj"));
    assert!(path_within_root("/etc", "/"));
}

#[test]
fn unresolvable_path_without_allow_missing_fails() {
    let r = validate("/proj", "missing.txt", false, &unresolved(), &unresolved());
    match r {
        Err(e @ SandboxError::ResolveFailed { .. }) => {
            // The rejection names the resolver's own cause.
            assert_eq!(
                e.message(),
                "failed to resolve path: No such file or directory (os error 2)"
            );
        }
        _ => panic!("an unresolvable path without allow_missing must fail"),
    }
}

#[test]
fn missing_leaf_resolves_through_its_parent() {
    // Writing a new file: the leaf does not exist, the parent does.
    let r = validate(
        "/proj",
        "sub/new.txt",
        true,
        &unresolved(),
        &resolved("/proj/sub"),
    );
    assert_eq!(r.expect("a missing leaf under a good parent must validate"), "/proj/sub/new.txt");
}

#[test]
fn missing_leaf_with_unresolvable_parent_fails() {
    let r = validate(
        "/proj",
        "sub/new.txt",
        true,
        &unresolved(),
        &unresolved(),
    );
    assert!(matches!(r, Err(SandboxError::InvalidParent)));
}

#[test]
fn missing_leaf_escaping_root_through_parent_fails() {
    // A symlinked parent resolving outside the root is caught after joining.
    let r = validate("/proj", "sub/new.txt", true, &unresolved(), &resolved("/tmp"));
    assert!(matches!(r, Err(SandboxError::OutsideRoot)));
}

#[test]
fn missing_leaf_without_a_usable_file_name_fails() {
    // A trailing slash leaves no file name to join onto the parent.
    let r = validate("/proj", "sub/", true, &unresolved(), &resolved("/proj/sub"));
    assert!(matches!(r, Err(SandboxError::NoFileName)));
    let r = validate("/proj", "sub/.", true, &unresolved(), &resolved("/proj/sub"));
    assert!(matches!(r, Err(SandboxError::NoFileName)));
}

#[test]
fn missing_leaf_at_the_file_system_root_has_no_parent() {
    let r = validate("/", "/", true, &unresolved(), &unresolved());
    assert!(matches!(r, Err(SandboxError::NoParent)));
}

#[test]
fn candidate_joins_relative_paths_onto_root() {
    assert_eq!(candidate_path("/proj", "a/b"), "/proj/a/b");
    assert_eq!(candidate_path("/proj", "/abs/p"), "/abs/p");
}

#[test]
fn parent_and_file_name_split() {
    assert_eq!(parent_path("/proj/a/b"), Some("/proj/a".to_string()));
    assert_eq!(parent_path("/top"), Some("/".to_string()));
    assert_eq!(parent_path("/"), None);
    assert_eq!(parent_path("plain"), None);
    assert_eq!(file_name_of("/proj/a/b"), "b");
    assert_eq!(file_name_of("plain"), "plain");
}
