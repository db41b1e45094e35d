//! Verified core of the Copilot SDK.
//!
//! - [`json`]: the JSON values exchanged with the runtime and their model.
//! - [`keyed`]: name-keyed registries with no name twice.
//! - [`toolset`]: source-qualified tool filters.
//! - [`tools`]: tool definitions, tool results, MCP result conversion and
//!   normalization of handler output.
//! - [`types`]: system-message customization, permissions, capabilities,
//!   elicitation, plan-mode and auto-mode answers, hooks and wire data.
//! - [`session`]: the decisions a session makes on events, tool calls,
//!   hooks, UI dialogs and waits, and the replies it sends.
//! - [`hooks`]: typed hook inputs and outputs.
//! - [`requests`]: parameters and responses of the session's management
//!   requests.
//! - [`session_fs`]: the session filesystem's errors and configuration.
//! - [`trace`]: W3C trace context propagation.
//! - [`rpc`]: request and result types of the runtime's RPC surface.
//! - [`error`]: the SDK's error type.
pub mod error;
pub mod hooks;
pub mod json;
pub mod keyed;
pub mod rpc;
pub mod requests;
pub mod session;
pub mod session_fs;
pub mod toolset;
pub mod tools;
pub mod trace;
pub mod types;
