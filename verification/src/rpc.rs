//! Protocol-level errors the capability handler reports back to the agent.

use vstd::prelude::*;

verus! {

/// The category of a protocol error.
#[derive(Clone, Copy, Debug, PartialEq, Eq, Structural)]
pub enum RpcErrorKind {
    InvalidParams,
    InternalError,
    MethodNotFound,
}

/// The wire code of each error category.
pub open spec fn spec_error_code(k: RpcErrorKind) -> i64 {
    match k {
        RpcErrorKind::InvalidParams => -32602i64,
        RpcErrorKind::InternalError => -32603i64,
        RpcErrorKind::MethodNotFound => -32601i64,
    }
}

/// A protocol error: a category plus descriptive detail text.
#[derive(Debug)]
pub struct RpcError {
    pub kind: RpcErrorKind,
    pub data: String,
}

impl RpcError {
    /// The numeric code sent on the wire for this error.
    pub fn code(&self) -> (r: i64)
        ensures
            r == spec_error_code(self.kind),
    {
        match self.kind {
            RpcErrorKind::InvalidParams => -32602,
            RpcErrorKind::InternalError => -32603,
            RpcErrorKind::MethodNotFound => -32601,
        }
    }
}

/// An invalid-parameter error with the given detail.
pub fn invalid_params(data: String) -> (r: RpcError)
    ensures
        r.kind == RpcErrorKind::InvalidParams,
        r.data@ == data@,
{
    RpcError { kind: RpcErrorKind::InvalidParams, data }
}

/// An internal error with the given detail.
pub fn internal_error(data: String) -> (r: RpcError)
    ensures
        r.kind == RpcErrorKind::InternalError,
        r.data@ == data@,
{
    RpcError { kind: RpcErrorKind::InternalError, data }
}

/// The error for a capability request naming a terminal id that is not in
/// the registry.
pub fn terminal_not_found() -> (r: RpcError)
    ensures
        r.kind == RpcErrorKind::InvalidParams,
        r.data@ == "terminal not found"@,
{
    RpcError { kind: RpcErrorKind::InvalidParams, data: "terminal not found".to_owned() }
}

/// The error for an extension method the handler does not implement.
pub fn unsupported_method(method: &str) -> (r: RpcError)
    ensures
        r.kind == RpcErrorKind::MethodNotFound,
        r.data@ == "unsupported ext method "@ + method@,
{
    let mut data = "unsupported ext method ".to_owned();
    data.append(method);
    RpcError { kind: RpcErrorKind::MethodNotFound, data }
}

/// The error for a request variant the handler does not recognize.
pub fn unsupported_request() -> (r: RpcError)
    ensures
        r.kind == RpcErrorKind::MethodNotFound,
        r.data@ == "unsupported request type"@,
{
    RpcError { kind: RpcErrorKind::MethodNotFound, data: "unsupported request type".to_owned() }
}

} // verus!
