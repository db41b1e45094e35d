//! Session-scoped MCP server, app and OAuth types of the RPC surface.
use crate::json::{JsonMap, JsonValue};
use vstd::prelude::*;

verus! {

/// Request payload for `session.mcp.apps.callTool`.
#[derive(Debug)]
pub struct McpAppsCallToolRequest {
    /// Target session identifier.
    pub session_id: String,
    /// MCP server hosting the tool.
    pub server_name: String,
    /// MCP tool name.
    pub tool_name: String,
    /// Tool arguments.
    pub arguments: Option<JsonValue>,
    /// Server whose `ui://` view issued the request.
    pub origin_server_name: String,
}

/// Capability-negotiation state used by `session.mcp.apps.diagnose`.
#[derive(Debug, Clone)]
pub struct McpAppsDiagnoseCapability {
    /// Whether the session exposes the `mcp-apps` capability.
    pub session_has_mcp_apps: bool,
    /// Whether the MCP Apps feature flag is enabled.
    pub feature_flag_enabled: bool,
    /// Whether the runtime advertises the MCP Apps extension capability.
    pub advertised: bool,
}

/// Request payload for `session.mcp.apps.diagnose`.
#[derive(Debug, Clone)]
pub struct McpAppsDiagnoseRequest {
    /// Target session identifier.
    pub session_id: String,
    /// MCP server to probe.
    pub server_name: String,
}

/// Request payload for `session.mcp.apps.getHostContext`.
#[derive(Debug, Clone)]
pub struct McpAppsGetHostContextRequest {
    /// Target session identifier.
    pub session_id: String,
}

/// Display mode supported by the host.
#[derive(Debug, Clone, Copy, PartialEq, Eq, Structural)]
pub enum McpAppsHostContextDetailsAvailableDisplayMode {
    /// Render inline within the host conversation surface.
    Inline,
    /// Render as a fullscreen overlay.
    Fullscreen,
    /// Render as a picture-in-picture floating panel.
    Pip,
}

/// UI display mode currently used by the host.
#[derive(Debug, Clone, Copy, PartialEq, Eq, Structural)]
pub enum McpAppsHostContextDetailsDisplayMode {
    /// Render inline within the host conversation surface.
    Inline,
    /// Render as a fullscreen overlay.
    Fullscreen,
    /// Render as a picture-in-picture floating panel.
    Pip,
}

/// Platform type used for responsive MCP App layouts.
#[derive(Debug, Clone, Copy, PartialEq, Eq, Structural)]
pub enum McpAppsHostContextDetailsPlatform {
    /// Host runs in a web browser.
    Web,
    /// Host runs as a desktop application.
    Desktop,
    /// Host runs on a mobile device.
    Mobile,
}

/// Theme preference advertised to MCP App guests.
#[derive(Debug, Clone, Copy, PartialEq, Eq, Structural)]
pub enum McpAppsHostContextDetailsTheme {
    /// Light UI theme.
    Light,
    /// Dark UI theme.
    Dark,
}

/// Request payload for `session.mcp.apps.listTools`.
#[derive(Debug, Clone)]
pub struct McpAppsListToolsRequest {
    /// Target session identifier.
    pub session_id: String,
    /// MCP server hosting the app.
    pub server_name: String,
    /// Server whose `ui://` view issued the request.
    pub origin_server_name: String,
}

/// Result payload for `session.mcp.apps.listTools`.
#[derive(Debug)]
pub struct McpAppsListToolsResult {
    /// App-callable tools returned by the server.
    pub tools: Vec<JsonValue>,
}

/// Request payload for `session.mcp.apps.readResource`.
#[derive(Debug, Clone)]
pub struct McpAppsReadResourceRequest {
    /// Target session identifier.
    pub session_id: String,
    /// Name of the MCP server hosting the resource.
    pub server_name: String,
    /// Resource URI to fetch.
    pub uri: String,
}

/// Result payload for `session.mcp.apps.readResource`.
#[derive(Debug)]
pub struct McpAppsReadResourceResult {
    /// Resource payloads returned by the server.
    pub contents: Vec<McpAppsResourceContent>,
}

/// One content item returned by `session.mcp.apps.readResource`.
#[derive(Debug)]
pub struct McpAppsResourceContent {
    /// Resource URI, typically `ui://...`.
    pub uri: String,
    /// MIME type of the content.
    pub mime_type: Option<String>,
    /// Text content, such as HTML.
    pub text: Option<String>,
    /// Base64-encoded binary content.
    pub blob: Option<String>,
    /// Resource-level metadata such as CSP or permissions.
    pub meta: Option<JsonValue>,
}

/// Supported UI display mode to advertise to guest MCP Apps.
#[derive(Debug, Clone, Copy, PartialEq, Eq, Structural)]
pub enum McpAppsSetHostContextDetailsAvailableDisplayMode {
    /// Render inline within the host conversation surface.
    Inline,
    /// Render as a fullscreen overlay.
    Fullscreen,
    /// Render as a picture-in-picture floating panel.
    Pip,
}

/// UI display mode to advertise to guest MCP Apps.
#[derive(Debug, Clone, Copy, PartialEq, Eq, Structural)]
pub enum McpAppsSetHostContextDetailsDisplayMode {
    /// Render inline within the host conversation surface.
    Inline,
    /// Render as a fullscreen overlay.
    Fullscreen,
    /// Render as a picture-in-picture floating panel.
    Pip,
}

/// Platform type to advertise to guest MCP Apps.
#[derive(Debug, Clone, Copy, PartialEq, Eq, Structural)]
pub enum McpAppsSetHostContextDetailsPlatform {
    /// Host runs in a web browser.
    Web,
    /// Host runs as a desktop application.
    Desktop,
    /// Host runs on a mobile device.
    Mobile,
}

/// Theme preference to advertise to guest MCP Apps.
#[derive(Debug, Clone, Copy, PartialEq, Eq, Structural)]
pub enum McpAppsSetHostContextDetailsTheme {
    /// Light UI theme.
    Light,
    /// Dark UI theme.
    Dark,
}

/// Request payload for `session.mcp.cancelSamplingExecution`.
#[derive(Debug, Clone)]
pub struct McpCancelSamplingExecutionParams {
    /// Target session identifier.
    pub session_id: String,
    /// Sampling request identifier to cancel.
    pub request_id: String,
}

/// Result payload for `session.mcp.cancelSamplingExecution`.
#[derive(Debug, Clone)]
pub struct McpCancelSamplingExecutionResult {
    /// Whether an in-flight sampling execution was found and cancelled.
    pub cancelled: bool,
}

/// Request payload for `session.mcp.disable`.
#[derive(Debug, Clone)]
pub struct McpDisableRequest {
    /// Target session identifier.
    pub session_id: String,
    /// Name of the MCP server to disable.
    pub server_name: String,
}

/// Request payload for `session.mcp.enable`.
#[derive(Debug, Clone)]
pub struct McpEnableRequest {
    /// Target session identifier.
    pub session_id: String,
    /// Name of the MCP server to enable.
    pub server_name: String,
}

/// Request payload for `session.mcp.executeSampling`.
#[derive(Debug)]
pub struct McpExecuteSamplingParams {
    /// Target session identifier.
    pub session_id: String,
    /// Caller-provided unique sampling execution identifier.
    pub request_id: String,
    /// Name of the MCP server that initiated the sampling request.
    pub server_name: String,
    /// Original MCP JSON-RPC request identifier.
    pub mcp_request_id: JsonValue,
    /// Raw MCP `sampling/createMessage` request payload.
    pub request: McpExecuteSamplingRequest,
}

/// Raw MCP `sampling/createMessage` request payload.
pub type McpExecuteSamplingRequest = JsonValue;

/// MCP `sampling/createMessage` result payload.
pub type McpExecuteSamplingResult = JsonValue;

/// Request payload for `session.mcp.list`.
#[derive(Debug, Clone)]
pub struct McpListRequest {
    /// Target session identifier.
    pub session_id: String,
}

/// Request payload for `session.mcp.oauth.login`.
#[derive(Debug, Clone)]
pub struct McpOauthLoginRequest {
    /// Target session identifier.
    pub session_id: String,
    /// Name of the remote MCP server to authenticate.
    pub server_name: String,
    /// Whether to force a brand-new authorization flow.
    pub force_reauth: Option<bool>,
    /// Optional OAuth client display name override.
    pub client_name: Option<String>,
    /// Optional callback success-page message override.
    pub callback_success_message: Option<String>,
}

/// Result payload for `session.mcp.oauth.login`.
#[derive(Debug, Clone)]
pub struct McpOauthLoginResult {
    /// URL to open in a browser to continue OAuth, when interactive auth is needed.
    pub authorization_url: Option<String>,
}

/// Request payload for `session.mcp.reload`.
#[derive(Debug, Clone)]
pub struct McpReloadRequest {
    /// Target session identifier.
    pub session_id: String,
}

/// Request payload for `session.mcp.removeGitHub`.
#[derive(Debug, Clone)]
pub struct McpRemoveGitHubRequest {
    /// Target session identifier.
    pub session_id: String,
}

/// Result payload for `session.mcp.removeGitHub`.
#[derive(Debug, Clone)]
pub struct McpRemoveGitHubResult {
    /// Whether the auto-managed `github` MCP server was removed.
    pub removed: bool,
}

/// Outcome of an MCP sampling execution.
#[derive(Debug, Clone, Copy, PartialEq, Eq, Structural)]
pub enum McpSamplingExecutionAction {
    /// The sampling inference completed successfully.
    Success,
    /// The sampling inference failed or was rejected.
    Failure,
    /// The sampling inference was cancelled.
    Cancelled,
}

/// Result payload for `session.mcp.executeSampling`.
#[derive(Debug)]
pub struct McpSamplingExecutionResult {
    /// Outcome of the sampling execution.
    pub action: McpSamplingExecutionAction,
    /// Successful MCP sampling result payload.
    pub result: Option<McpExecuteSamplingResult>,
    /// Error description when the execution failed.
    pub error: Option<String>,
}

/// Mode controlling how MCP server environment values are resolved.
#[derive(Debug, Clone, Copy, PartialEq, Eq, Structural)]
pub enum McpSetEnvValueModeDetails {
    /// Treat provided values as literal strings.
    Direct,
    /// Treat provided values as host-side references that must be resolved.
    Indirect,
}

/// Request payload for `session.mcp.setEnvValueMode`.
#[derive(Debug, Clone)]
pub struct McpSetEnvValueModeParams {
    /// Target session identifier.
    pub session_id: String,
    /// How environment-variable values should be resolved for MCP servers.
    pub mode: McpSetEnvValueModeDetails,
}

/// Result payload for `session.mcp.setEnvValueMode`.
#[derive(Debug, Clone)]
pub struct McpSetEnvValueModeResult {
    /// Mode recorded on the session after the update.
    pub mode: McpSetEnvValueModeDetails,
}

} // verus!
