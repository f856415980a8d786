//! Client library for the Copilot CLI server: the JSON-RPC wire protocol,
//! the requests a client and its sessions send, the answers they give to the
//! server's requests, and the client's connection state.
//!
//! The I/O around these decisions (spawning the server, the socket or pipes,
//! the async runtime) is done by the caller; every function here states what
//! it computes in its contract.

pub mod client;
pub mod error;
pub mod json;
pub mod jsonrpc;
pub mod sdk_protocol_version;
pub mod session;
pub mod session_events;
pub mod text;
pub mod tools;
pub mod types;

pub use error::{CopilotError, Result};
pub use json::JsonValue;
pub use sdk_protocol_version::{get_sdk_protocol_version, SDK_PROTOCOL_VERSION};
pub use session_events::SessionEventType;
pub use tools::ToolResultLike;
pub use types::{
    Attachment, AzureProviderOptions, ClientOptions, ConnectionState, CustomAgentConfig,
    McpLocalServerConfig, McpRemoteServerConfig, McpServerConfig, MessageOptions,
    PermissionInvocation, PermissionRequest, PermissionRequestResult, PingResponse, ProviderConfig,
    ResumeSessionConfig, SessionConfig, SessionCreateResponse, SessionSendResponse,
    SystemMessageConfig, Tool, ToolBinaryResult, ToolInvocation, ToolResult,
};
