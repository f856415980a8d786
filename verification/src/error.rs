//! Errors of the client library.
use crate::json::JsonValue;
use crate::text::{push_signed_decimal, push_str, signed_decimal};
use vstd::prelude::*;

verus! {

/// An I/O error, carried as it came.
#[verifier::external_type_specification]
#[verifier::external_body]
pub struct ExIoError(std::io::Error);

/// A JSON encoding or decoding error, carried as it came.
#[verifier::external_type_specification]
#[verifier::external_body]
pub struct ExSerdeJsonError(serde_json::Error);

/// Errors that can occur in the client library.
#[derive(Debug)]
pub enum CopilotError {
    /// JSON-RPC error reported by the peer.
    JsonRpc { code: i32, message: String, data: Option<JsonValue> },
    /// I/O error.
    Io(std::io::Error),
    /// Serialization or deserialization error.
    Serde(serde_json::Error),
    /// Client not connected.
    NotConnected,
    /// Client already connected.
    AlreadyConnected,
    /// Failed to start the CLI server.
    ServerStartFailed(String),
    /// Failed to connect to the server.
    ConnectionFailed(String),
    /// The server speaks another protocol version.
    ProtocolVersionMismatch { expected: i32, actual: i32 },
    /// The server did not report a protocol version.
    NoProtocolVersion { expected: i32 },
    /// Session not found.
    SessionNotFound(String),
    /// Invalid response from the server.
    InvalidResponse(String),
    /// Tool not found.
    ToolNotFound(String),
    /// Tool handler failed.
    ToolHandlerFailed(String),
    /// Permission handler failed.
    PermissionHandlerFailed(String),
    /// Invalid configuration.
    InvalidConfig(String),
    /// Invalid URL format.
    InvalidUrl(String),
    /// Timeout.
    Timeout,
    /// Client stopped.
    ClientStopped,
    /// Channel closed.
    ChannelClosed,
    /// Any other error.
    Other(String),
}

/// Result type of the library's operations.
pub type Result<T> = std::result::Result<T, CopilotError>;

/// The text of a version-mismatch report.
pub open spec fn mismatch_text(expected: i32, actual: i32) -> Seq<char> {
    "SDK protocol version mismatch: SDK expects version "@ + signed_decimal(expected as int)
        + ", but server reports version "@ + signed_decimal(actual as int)
}

/// The text of a missing-version report.
pub open spec fn no_version_text(expected: i32) -> Seq<char> {
    "SDK protocol version mismatch: SDK expects version "@ + signed_decimal(expected as int)
        + ", but server does not report a protocol version"@
}

/// The human-readable text of an error, for every error that does not wrap
/// an I/O or JSON error (those take the text of the wrapped error).
pub open spec fn error_text(e: CopilotError) -> Seq<char> {
    match e {
        CopilotError::JsonRpc { code, message, .. } => "JSON-RPC error "@ + signed_decimal(
            code as int,
        ) + ": "@ + message@,
        CopilotError::NotConnected => "Client not connected. Call start() first"@,
        CopilotError::AlreadyConnected => "Client already connected"@,
        CopilotError::ServerStartFailed(m) => "Failed to start CLI server: "@ + m@,
        CopilotError::ConnectionFailed(m) => "Failed to connect to server: "@ + m@,
        CopilotError::ProtocolVersionMismatch { expected, actual } => mismatch_text(
            expected,
            actual,
        ),
        CopilotError::NoProtocolVersion { expected } => no_version_text(expected),
        CopilotError::SessionNotFound(m) => "Session not found: "@ + m@,
        CopilotError::InvalidResponse(m) => "Invalid response from server: "@ + m@,
        CopilotError::ToolNotFound(m) => "Tool not found: "@ + m@,
        CopilotError::ToolHandlerFailed(m) => "Tool handler failed: "@ + m@,
        CopilotError::PermissionHandlerFailed(m) => "Permission handler failed: "@ + m@,
        CopilotError::InvalidConfig(m) => "Invalid configuration: "@ + m@,
        CopilotError::InvalidUrl(m) => "Invalid URL format: "@ + m@,
        CopilotError::Timeout => "Operation timed out"@,
        CopilotError::ClientStopped => "Client stopped"@,
        CopilotError::ChannelClosed => "Channel closed"@,
        CopilotError::Other(m) => m@,
        CopilotError::Io(_) => "I/O error: "@,
        CopilotError::Serde(_) => "Serialization error: "@,
    }
}

/// Whether an error wraps an outside error whose text it repeats.
pub open spec fn wraps_outside_error(e: CopilotError) -> bool {
    e is Io || e is Serde
}

/// Whether `m` is the text of `e`: exactly `error_text(e)`, or, for an error
/// that wraps an I/O or JSON error, `error_text(e)` followed by the wrapped
/// error's own text.
pub open spec fn is_message_of(e: CopilotError, m: Seq<char>) -> bool {
    if wraps_outside_error(e) {
        error_text(e).len() <= m.len() && m.take(error_text(e).len() as int) == error_text(e)
    } else {
        m == error_text(e)
    }
}

/// The text `Display` gives an I/O error.
#[verifier::external_body]
pub(crate) fn io_error_text(e: &std::io::Error) -> String {
    format!("{}", e)
}

/// The text `Display` gives a JSON error.
#[verifier::external_body]
pub(crate) fn serde_error_text(e: &serde_json::Error) -> String {
    format!("{}", e)
}

/// Appends `m` after the literal `prefix`.
fn prefixed(prefix: &str, m: &String) -> (r: String)
    ensures
        r@ == prefix@ + m@,
{
    let mut r = String::from_str(prefix);
    push_str(&mut r, m.as_str());
    r
}

impl CopilotError {
    /// A JSON-RPC error without data.
    pub fn jsonrpc(code: i32, message: String) -> (r: Self)
        ensures
            r matches CopilotError::JsonRpc { code: c, message: m, data: None } && c == code && m@
                == message@,
    {
        CopilotError::JsonRpc { code, message, data: None }
    }

    /// A JSON-RPC error with data.
    pub fn jsonrpc_with_data(code: i32, message: String, data: JsonValue) -> (r: Self)
        ensures
            r matches CopilotError::JsonRpc { code: c, message: m, data: Some(d) } && c == code
                && m@ == message@ && d@ == data@,
    {
        CopilotError::JsonRpc { code, message, data: Some(data) }
    }

    /// The human-readable text of this error (what `to_string` gives).
    pub fn message(&self) -> (r: String)
        ensures
            is_message_of(*self, r@),
            !wraps_outside_error(*self) ==> r@ == error_text(*self),
            wraps_outside_error(*self) ==> error_text(*self).len() <= r@.len() && r@.take(
                error_text(*self).len() as int,
            ) == error_text(*self),
    {
        match self {
            CopilotError::JsonRpc { code, message, .. } => {
                let mut r = String::from_str("JSON-RPC error ");
                push_signed_decimal(&mut r, *code as i64);
                push_str(&mut r, ": ");
                push_str(&mut r, message.as_str());
                r
            },
            CopilotError::Io(e) => {
                let t = io_error_text(e);
                let r = prefixed("I/O error: ", &t);
                assert(r@.take("I/O error: "@.len() as int) =~= "I/O error: "@);
                r
            },
            CopilotError::Serde(e) => {
                let t = serde_error_text(e);
                let r = prefixed("Serialization error: ", &t);
                assert(r@.take("Serialization error: "@.len() as int) =~= "Serialization error: "@);
                r
            },
            CopilotError::NotConnected => String::from_str("Client not connected. Call start() first"),
            CopilotError::AlreadyConnected => String::from_str("Client already connected"),
            CopilotError::ServerStartFailed(m) => prefixed("Failed to start CLI server: ", m),
            CopilotError::ConnectionFailed(m) => prefixed("Failed to connect to server: ", m),
            CopilotError::ProtocolVersionMismatch { expected, actual } => {
                let mut r = String::from_str("SDK protocol version mismatch: SDK expects version ");
                push_signed_decimal(&mut r, *expected as i64);
                push_str(&mut r, ", but server reports version ");
                push_signed_decimal(&mut r, *actual as i64);
                r
            },
            CopilotError::NoProtocolVersion { expected } => {
                let mut r = String::from_str("SDK protocol version mismatch: SDK expects version ");
                push_signed_decimal(&mut r, *expected as i64);
                push_str(&mut r, ", but server does not report a protocol version");
                r
            },
            CopilotError::SessionNotFound(m) => prefixed("Session not found: ", m),
            CopilotError::InvalidResponse(m) => prefixed("Invalid response from server: ", m),
            CopilotError::ToolNotFound(m) => prefixed("Tool not found: ", m),
            CopilotError::ToolHandlerFailed(m) => prefixed("Tool handler failed: ", m),
            CopilotError::PermissionHandlerFailed(m) => prefixed("Permission handler failed: ", m),
            CopilotError::InvalidConfig(m) => prefixed("Invalid configuration: ", m),
            CopilotError::InvalidUrl(m) => prefixed("Invalid URL format: ", m),
            CopilotError::Timeout => String::from_str("Operation timed out"),
            CopilotError::ClientStopped => String::from_str("Client stopped"),
            CopilotError::ChannelClosed => String::from_str("Channel closed"),
            CopilotError::Other(m) => m.clone(),
        }
    }
}

} // verus!
