//! Client-scoped agent registry, MCP configuration, secrets, skills and user-settings types of the RPC surface.
use crate::json::{JsonMap, JsonValue};
use crate::rpc::skills::SkillSource;
use crate::types::McpServerConfig;
use vstd::prelude::*;

verus! {

/// Live managed-target registry entry returned by `agentRegistry.spawn`.
#[derive(Debug, Clone)]
pub struct AgentRegistryLiveTargetEntry {
    /// Registry entry schema version.
    pub schema_version: u64,
    /// Process kind for the registered target.
    pub kind: AgentRegistryLiveTargetEntryKind,
    /// Operating-system process identifier.
    pub pid: u64,
    /// Bind host for the target JSON-RPC server.
    pub host: String,
    /// TCP port for the target JSON-RPC server.
    pub port: u64,
    /// Optional connection token required by the target.
    pub token: Option<String>,
    /// Optional foreground session identifier.
    pub session_id: Option<String>,
    /// Optional human-friendly session name.
    pub session_name: Option<String>,
    /// Optional working directory for the session.
    pub cwd: Option<String>,
    /// Optional Git branch name for the session.
    pub branch: Option<String>,
    /// Optional selected model identifier for the session.
    pub model: Option<String>,
    /// Optional coarse lifecycle status for the foreground session.
    pub status: Option<AgentRegistryLiveTargetEntryStatus>,
    /// Optional attention subtype when `status` is `attention`.
    pub attention_kind: Option<AgentRegistryLiveTargetEntryAttentionKind>,
    /// Optional monotonic revision number for status updates.
    pub status_revision: Option<u64>,
    /// Optional terminal-event marker for the most recent turn.
    pub last_terminal_event: Option<AgentRegistryLiveTargetEntryLastTerminalEvent>,
    /// ISO 8601 registration timestamp.
    pub started_at: String,
    /// Copilot CLI version that published the entry.
    pub copilot_version: String,
    /// Milliseconds since the watcher last observed the entry.
    pub last_seen_ms: u64,
}

/// Specific reason a live registry entry requires user attention.
#[derive(Debug, Clone, Copy, PartialEq, Eq, Structural)]
pub enum AgentRegistryLiveTargetEntryAttentionKind {
    /// The session is blocked on an error.
    Error,
    /// The session is waiting on a permission decision.
    Permission,
    /// The session is waiting for plan approval.
    ExitPlan,
    /// The session is waiting on an elicitation prompt.
    Elicitation,
    /// The session is waiting on free-form user input.
    UserInput,
}

/// Process kind reported by a live registry entry.
#[derive(Debug, Clone, Copy, PartialEq, Eq, Structural)]
pub enum AgentRegistryLiveTargetEntryKind {
    /// Interactive CLI process exposing a UI server.
    UiServer,
    /// Headless managed child process spawned by a controller.
    ManagedServer,
}

/// How the most recent turn ended for a live registry entry.
#[derive(Debug, Clone, Copy, PartialEq, Eq, Structural)]
pub enum AgentRegistryLiveTargetEntryLastTerminalEvent {
    /// The turn ended cleanly.
    TurnEnd,
    /// The turn was aborted.
    Abort,
}

/// Coarse lifecycle state reported by a live registry entry.
#[derive(Debug, Clone, Copy, PartialEq, Eq, Structural)]
pub enum AgentRegistryLiveTargetEntryStatus {
    /// The session is currently processing a turn.
    Working,
    /// The session is idle and waiting for input.
    Waiting,
    /// The most recent turn completed successfully.
    Done,
    /// The session needs user attention.
    Attention,
}

/// Per-spawn log capture status returned by `agentRegistry.spawn`.
#[derive(Debug, Clone)]
pub struct AgentRegistryLogCapture {
    /// Whether log capture is enabled for this spawn.
    pub enabled: bool,
    /// Optional absolute path to the captured log file.
    pub path: Option<String>,
    /// Optional human-readable log-open failure message.
    pub open_error: Option<String>,
    /// Optional categorized reason for log-open failure.
    pub open_error_reason: Option<AgentRegistryLogCaptureOpenErrorReason>,
}

/// Stable reason code for log-capture initialization failures.
#[derive(Debug, Clone, Copy, PartialEq, Eq, Structural)]
pub enum AgentRegistryLogCaptureOpenErrorReason {
    /// Filesystem permissions prevented opening the log file.
    Permission,
    /// The target filesystem had no remaining capacity.
    DiskFull,
    /// Another uncategorized error occurred.
    Other,
}

/// Failed `agentRegistry.spawn` response caused by child-process startup failure.
#[derive(Debug, Clone)]
pub struct AgentRegistrySpawnError {
    /// Discriminator for the failure result shape.
    pub kind: String,
    /// Human-readable failure message.
    pub message: String,
    /// Optional platform error code such as `ENOENT` or `EACCES`.
    pub code: Option<String>,
}

/// Permission posture for a spawned managed child session.
#[derive(Debug, Clone, Copy, PartialEq, Eq, Structural)]
pub enum AgentRegistrySpawnPermissionMode {
    /// Use the standard permission posture.
    Default,
    /// Use allow-all mode when the controller is permitted to do so.
    Yolo,
}

/// Failed `agentRegistry.spawn` response caused by child registration timeout.
#[derive(Debug, Clone)]
pub struct AgentRegistrySpawnRegistryTimeout {
    /// Discriminator for the timeout result shape.
    pub kind: String,
    /// Process identifier of the spawned child that never registered.
    pub child_pid: u64,
    /// Optional per-spawn log capture outcome.
    pub log_capture: Option<AgentRegistryLogCapture>,
}

/// Request payload for `agentRegistry.spawn`.
#[derive(Debug, Clone)]
pub struct AgentRegistrySpawnRequest {
    /// Working directory for the spawned child.
    pub cwd: String,
    /// Optional built-in or custom agent name to run.
    pub agent_name: Option<String>,
    /// Optional model identifier to select for the child session.
    pub model: Option<String>,
    /// Optional friendly session name.
    pub name: Option<String>,
    /// Permission posture to apply to the child session.
    pub permission_mode: Option<AgentRegistrySpawnPermissionMode>,
    /// Optional first prompt to send after the controller attaches.
    pub initial_prompt: Option<String>,
}

/// Outcome of an `agentRegistry.spawn` request.
#[derive(Debug, Clone)]
pub enum AgentRegistrySpawnResult {
    /// Managed child server spawned and registered successfully.
    ///
    /// Boxed because this variant is substantially larger than the error
    /// variants; boxing keeps the enum compact.
    Spawned(Box<AgentRegistrySpawnSpawned>),
    /// Child process creation failed before registration.
    SpawnError(AgentRegistrySpawnError),
    /// Child process started but never registered in time.
    RegistryTimeout(AgentRegistrySpawnRegistryTimeout),
    /// Synchronous validation rejected the request.
    ValidationError(AgentRegistrySpawnValidationError),
}

/// Successful `agentRegistry.spawn` response.
#[derive(Debug, Clone)]
pub struct AgentRegistrySpawnSpawned {
    /// Discriminator for the successful result shape.
    pub kind: String,
    /// Full registry entry published by the spawned child.
    pub entry: AgentRegistryLiveTargetEntry,
    /// Whether the spawn delegate already sent the initial prompt.
    pub initial_prompt_sent: Option<bool>,
    /// Categorized error message when sending the initial prompt failed.
    pub initial_prompt_error: Option<String>,
    /// Optional per-spawn log capture outcome.
    pub log_capture: Option<AgentRegistryLogCapture>,
}

/// Failed `agentRegistry.spawn` response caused by synchronous input validation.
#[derive(Debug, Clone)]
pub struct AgentRegistrySpawnValidationError {
    /// Discriminator for the validation result shape.
    pub kind: String,
    /// Stable reason code describing why validation failed.
    pub reason: AgentRegistrySpawnValidationErrorReason,
    /// Specific request field that failed validation, when known.
    pub field: Option<AgentRegistrySpawnValidationErrorField>,
    /// Human-readable validation message suitable for UI display.
    pub message: String,
}

/// Request field that failed spawn validation.
#[derive(Debug, Clone, Copy, PartialEq, Eq, Structural)]
pub enum AgentRegistrySpawnValidationErrorField {
    /// The `cwd` parameter was invalid.
    Cwd,
    /// The `name` parameter was invalid.
    Name,
    /// The `agentName` parameter was invalid.
    AgentName,
    /// The `model` parameter was invalid.
    Model,
    /// The `permissionMode` parameter was invalid.
    PermissionMode,
}

/// Stable reason code for spawn-request validation failures.
#[derive(Debug, Clone, Copy, PartialEq, Eq, Structural)]
pub enum AgentRegistrySpawnValidationErrorReason {
    /// The supplied working directory does not exist.
    CwdNotFound,
    /// The supplied working directory exists but is not a directory.
    CwdNotDirectory,
    /// The friendly session name failed validation.
    InvalidName,
    /// The requested agent name is unknown.
    UnknownAgent,
    /// The requested model identifier is unknown.
    UnknownModel,
    /// `yolo` permission mode is not currently allowed.
    YoloNotAllowed,
}

/// Request payload for `connect`.
#[derive(Debug, Clone)]
pub struct ConnectRequest {
    /// Optional connection token presented during the handshake.
    pub token: Option<String>,
}

/// Successful response payload for `connect`.
#[derive(Debug, Clone)]
pub struct ConnectResult {
    /// Success marker for the completed handshake.
    pub ok: bool,
    /// Supported server protocol version.
    pub protocol_version: u64,
    /// Copilot CLI package version.
    pub version: String,
}

/// Content-filtering mode for MCP tool results.
#[derive(Debug, Clone, Copy, PartialEq, Eq, Structural)]
pub enum ContentFilterMode {
    /// Leave MCP tool content unchanged.
    /// Wire name `none`.
    Disabled,
    /// Sanitize HTML while preserving Markdown-friendly output.
    Markdown,
    /// Strip characters that can hide directives.
    HiddenCharacters,
}

/// Content-filtering mapping accepted by MCP server definitions.
#[derive(Debug, Clone)]
pub enum FilterMapping {
    /// Per-tool content-filtering configuration.
    ByTool(Vec<(String, ContentFilterMode)>),
    /// Single content-filtering mode applied to every tool.
    Mode(ContentFilterMode),
}

/// Request payload for `mcp.config.add`.
#[derive(Debug, Clone)]
pub struct McpConfigAddRequest {
    /// Unique configuration key for the MCP server.
    pub name: String,
    /// MCP server configuration to persist.
    pub config: McpServerConfig,
}

/// Request payload for `mcp.config.disable`.
#[derive(Debug, Clone)]
pub struct McpConfigDisableRequest {
    /// MCP server names to add to the disabled list.
    pub names: Vec<String>,
}

/// Request payload for `mcp.config.enable`.
#[derive(Debug, Clone)]
pub struct McpConfigEnableRequest {
    /// MCP server names to remove from the disabled list.
    pub names: Vec<String>,
}

/// Result payload for `mcp.config.list`.
#[derive(Debug, Clone)]
pub struct McpConfigList {
    /// User-configured MCP servers keyed by server name.
    pub servers: Vec<(String, McpServerConfig)>,
}

/// Request payload for `mcp.config.remove`.
#[derive(Debug, Clone)]
pub struct McpConfigRemoveRequest {
    /// MCP server name to delete from user configuration.
    pub name: String,
}

/// Request payload for `mcp.config.update`.
#[derive(Debug, Clone)]
pub struct McpConfigUpdateRequest {
    /// MCP server name to replace in user configuration.
    pub name: String,
    /// Replacement MCP server configuration to persist.
    pub config: McpServerConfig,
}

/// Request payload for `mcp.discover`.
#[derive(Debug, Clone)]
pub struct McpDiscoverRequest {
    /// Optional working directory used to scope discovery.
    pub working_directory: Option<String>,
}

/// OAuth grant type for a remote HTTP MCP server.
#[derive(Debug, Clone, Copy, PartialEq, Eq, Structural)]
pub enum McpServerConfigHttpOauthGrantType {
    /// Interactive browser-based authorization code flow with PKCE.
    AuthorizationCode,
    /// Headless client credentials flow.
    ClientCredentials,
}

/// Remote transport type for an HTTP-configured MCP server.
#[derive(Debug, Clone, Copy, PartialEq, Eq, Structural)]
pub enum McpServerConfigHttpType {
    /// Streamable HTTP transport.
    Http,
    /// Server-Sent Events transport.
    Sse,
}

/// Request payload for `secrets.addFilterValues`.
#[derive(Debug, Clone)]
pub struct SecretsAddFilterValuesRequest {
    /// Raw secret values to register for redaction.
    pub values: Vec<String>,
}

/// Result payload for `secrets.addFilterValues`.
#[derive(Debug, Clone)]
pub struct SecretsAddFilterValuesResult {
    /// Whether the secret values were accepted for redaction.
    pub ok: bool,
}

/// Discovered skill metadata returned by `skills.discover`.
#[derive(Debug, Clone)]
pub struct ServerSkill {
    /// Unique identifier for the skill.
    pub name: String,
    /// Human-readable summary of what the skill does.
    pub description: String,
    /// Source location type for the skill.
    pub source: SkillSource,
    /// Whether the user can invoke the skill directly.
    pub user_invocable: bool,
    /// Whether the skill is currently enabled.
    pub enabled: bool,
    /// Optional absolute path to the skill file.
    pub path: Option<String>,
    /// Optional project path that owns the skill.
    pub project_path: Option<String>,
}

/// Result payload for `skills.discover`.
#[derive(Debug, Clone)]
pub struct ServerSkillList {
    /// All discovered skills across all configured sources.
    pub skills: Vec<ServerSkill>,
}

/// Request payload for `skills.config.setDisabledSkills`.
#[derive(Debug, Clone)]
pub struct SkillsConfigSetDisabledSkillsRequest {
    /// Skill names that should be globally disabled.
    pub disabled_skills: Vec<String>,
}

/// Request payload for `skills.discover`.
#[derive(Debug, Clone)]
pub struct SkillsDiscoverRequest {
    /// Optional project roots to scan for project-scoped skills.
    pub project_paths: Option<Vec<String>>,
    /// Optional extra directories to scan for skills.
    pub skill_directories: Option<Vec<String>>,
}

} // verus!
