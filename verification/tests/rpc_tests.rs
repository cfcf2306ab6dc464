use acp_engine::rpc::{
    internal_error, invalid_params, terminal_not_found, unsupported_method, unsupported_request,
    RpcErrorKind,
};
use acp_engine::sandbox::SandboxError;

#[test]
fn error_codes_match_their_categories() {
    assert_eq!(invalid_params("x".to_string()).code(), -32602);
    assert_eq!(internal_error("x".to_string()).code(), -32603);
    assert_eq!(unsupported_request().code(), -32601);
}

#[test]
fn terminal_not_found_is_invalid_params() {
    let err = terminal_not_found();
    assert_eq!(err.kind, RpcErrorKind::InvalidParams);
    assert_eq!(err.data, "terminal not found");
}

#[test]
fn unsupported_method_names_the_method() {
    let err = unsupported_method("weather/forecast");
    assert_eq!(err.kind, RpcErrorKind::MethodNotFound);
    assert_eq!(err.data, "unsupported ext method weather/forecast");
}

#[test]
fn sandbox_rejections_have_descriptive_messages() {
    assert_eq!(SandboxError::ParentTraversal.message(), "parent paths are not allowed");
    assert_eq!(SandboxError::OutsideRoot.message(), "path is outside project root");
    let failed = SandboxError::ResolveFailed { cause: "os error 2".to_string() };
    assert_eq!(failed.message(), "failed to resolve path: os error 2");
    assert_eq!(SandboxError::NoParent.message(), "path has no parent");
    assert_eq!(SandboxError::InvalidParent.message(), "invalid parent path");
    assert_eq!(SandboxError::NoFileName.message(), "path has no file name");
}
