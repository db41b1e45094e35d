//! Session history, compaction and event-log types of the RPC surface.
use crate::json::{JsonMap, JsonValue};
use vstd::prelude::*;

verus! {

/// Where an agent definition was loaded from.
#[derive(Debug, Clone)]
pub enum SessionRpcAgentInfoSource {
    /// Agent loaded from the user's personal agent configuration.
    User,
    /// Agent loaded from the current repository or project configuration.
    Project,
    /// Agent inherited from an outer configuration scope.
    Inherited,
    /// Agent obtained from a remote source.
    Remote,
    /// Agent contributed by a plugin.
    Plugin,
    /// Built-in agent bundled with the runtime.
    Builtin,
}

/// Authentication type currently associated with the session.
#[derive(Debug, Clone)]
pub enum SessionRpcAuthInfoType {
    /// GitHub App HMAC credentials.
    Hmac,
    /// Token resolved from an environment variable.
    Env,
    /// Interactive user OAuth credentials.
    User,
    /// Authentication delegated to the GitHub CLI.
    GhCli,
    /// API-key credentials for a non-GitHub provider.
    ApiKey,
    /// SDK-provided GitHub token.
    Token,
    /// Direct Copilot API token authentication.
    CopilotApiToken,
}

/// Organization entry embedded in a Copilot user snapshot.
#[derive(Debug, Clone)]
pub struct SessionRpcCopilotOrganization {
    /// Organization login, when available.
    pub login: Option<String>,
    /// Organization display name, when available.
    pub name: Option<String>,
}

/// Endpoint URLs returned in a Copilot user snapshot.
#[derive(Debug, Clone)]
pub struct SessionRpcCopilotUserResponseEndpoints {
    /// API endpoint URL.
    pub api: Option<String>,
    /// Origin-tracker endpoint URL.
    pub origin_tracker: Option<String>,
    /// Proxy endpoint URL.
    pub proxy: Option<String>,
    /// Telemetry endpoint URL.
    pub telemetry: Option<String>,
}

/// Lightweight metadata for one initialized session tool.
#[derive(Debug)]
pub struct SessionRpcCurrentToolMetadata {
    /// Model-facing tool name.
    pub name: String,
    /// Optional namespaced tool name.
    pub namespaced_name: Option<String>,
    /// MCP server name for MCP-backed tools.
    pub mcp_server_name: Option<String>,
    /// Raw MCP tool name for MCP-backed tools.
    pub mcp_tool_name: Option<String>,
    /// Tool description.
    pub description: String,
    /// JSON Schema describing the tool input.
    pub input_schema: Option<JsonValue>,
    /// Whether the tool is loaded on demand via tool search.
    pub defer_loading: Option<bool>,
}

/// Options for reading batches from the persisted session event log.
#[derive(Debug, Default)]
pub struct SessionRpcEventLogReadOptions {
    /// Opaque cursor returned by a previous read.
    pub cursor: Option<String>,
    /// Maximum number of events to return in this batch.
    pub max: Option<u64>,
    /// Milliseconds to wait for new events when already at the tail.
    pub wait_ms: Option<u64>,
    /// Either `"*"` or a list of event type strings.
    pub types: Option<JsonValue>,
    /// Agent-scope filter to apply while reading.
    pub agent_scope: Option<SessionRpcEventsAgentScope>,
}

/// Result returned after releasing event-log interest.
#[derive(Debug, Clone)]
pub struct SessionRpcEventLogReleaseInterestResult {
    /// Whether the operation succeeded.
    pub success: bool,
}

/// Tail snapshot of the event log.
#[derive(Debug, Clone)]
pub struct SessionRpcEventLogTailResult {
    /// Opaque cursor pointing at the current tail.
    pub cursor: String,
}

/// Agent-scope filter for event-log reads.
#[derive(Debug, Clone)]
pub enum SessionRpcEventsAgentScope {
    /// Return only primary-agent events and typed subagent lifecycle events.
    Primary,
    /// Return events from all agents.
    All,
}

/// Cursor status returned from an event-log read.
#[derive(Debug, Clone)]
pub enum SessionRpcEventsCursorStatus {
    /// The supplied cursor was applied successfully.
    /// Wire name `ok`.
    Valid,
    /// The supplied cursor referred to history that no longer exists.
    Expired,
}

/// Batch of events returned by `session.eventLog.read`.
#[derive(Debug)]
pub struct SessionRpcEventsReadResult {
    /// Event payloads returned by the runtime in read order.
    pub events: Vec<JsonValue>,
    /// Opaque cursor for the next read.
    pub cursor: String,
    /// Whether more events are available immediately.
    pub has_more: bool,
    /// Status of the supplied cursor.
    pub cursor_status: SessionRpcEventsCursorStatus,
}

/// Result returned after attempting to abort manual history compaction.
#[derive(Debug, Clone)]
pub struct SessionRpcHistoryAbortManualCompactionResult {
    /// Whether an in-progress manual compaction was aborted.
    pub aborted: bool,
}

/// Result returned after attempting to cancel background compaction.
#[derive(Debug, Clone)]
pub struct SessionRpcHistoryCancelBackgroundCompactionResult {
    /// Whether an in-progress background compaction was cancelled.
    pub cancelled: bool,
}

/// Markdown summary produced for hand-off scenarios.
#[derive(Debug, Clone)]
pub struct SessionRpcHistorySummarizeForHandoffResult {
    /// Markdown summary of the conversation context.
    pub summary: String,
}

/// Result returned after truncating session history.
#[derive(Debug, Clone)]
pub struct SessionRpcHistoryTruncateResult {
    /// Number of events removed by the truncation.
    pub events_removed: u64,
}

/// Optional inputs for listing models available to the session.
#[derive(Debug, Clone, Default)]
pub struct SessionRpcModelListOptions {
    /// When true, bypass the per-session model-list cache.
    pub skip_cache: Option<bool>,
}

/// Result returned from `session.model.list`.
#[derive(Debug)]
pub struct SessionRpcModelListResult {
    /// Available models ordered with the most preferred default first.
    pub list: Vec<JsonValue>,
    /// Per-quota snapshots returned alongside the model list.
    pub quota_snapshots: Option<JsonValue>,
}

/// Result returned after updating the session's reasoning effort.
#[derive(Debug, Clone)]
pub struct SessionRpcModelSetReasoningEffortResult {
    /// Reasoning effort level recorded on the session after the update.
    pub reasoning_effort: String,
}

/// One pending user-facing queue entry.
#[derive(Debug, Clone)]
pub struct SessionRpcQueuePendingItem {
    /// Whether this entry is a message or command.
    pub kind: SessionRpcQueuePendingItemKind,
    /// Human-readable display text for the queue entry.
    pub display_text: String,
}

/// Kind of user-facing item currently pending in the queue.
#[derive(Debug, Clone)]
pub enum SessionRpcQueuePendingItemKind {
    /// A queued user message.
    Message,
    /// A queued slash command or model-change command.
    Command,
}

/// Snapshot of pending user-facing queue entries.
#[derive(Debug, Clone)]
pub struct SessionRpcQueuePendingItemsResult {
    /// Pending queued items in submission order.
    pub items: Vec<SessionRpcQueuePendingItem>,
    /// Display text for immediate steering messages awaiting delivery.
    pub steering_messages: Vec<String>,
}

/// Result returned after removing the most recently queued item.
#[derive(Debug, Clone)]
pub struct SessionRpcQueueRemoveMostRecentResult {
    /// Whether a removable user-facing pending item was removed.
    pub removed: bool,
}

/// Opaque handle returned from `registerInterest`.
#[derive(Debug, Clone)]
pub struct SessionRpcRegisterEventInterestResult {
    /// Registration handle to pass to `releaseInterest`.
    pub handle: String,
}

/// Optional inputs for `session.remote.enable`.
#[derive(Debug, Clone, Default)]
pub struct SessionRpcRemoteEnableOptions {
    /// Per-session remote mode to apply.
    pub mode: Option<SessionRpcRemoteSessionMode>,
}

/// Result returned after enabling remote export or steering.
#[derive(Debug, Clone)]
pub struct SessionRpcRemoteEnableResult {
    /// GitHub frontend URL for the session, when available.
    pub url: Option<String>,
    /// Whether remote steering is enabled.
    pub remote_steerable: bool,
}

/// Result returned after persisting a remote-steerability change.
#[derive(Debug, Clone, Default)]
pub struct SessionRpcRemoteNotifySteerableChangedResult {}

/// Remote session mode to apply for `session.remote.enable`.
#[derive(Debug, Clone)]
pub enum SessionRpcRemoteSessionMode {
    /// Disable remote session export and steering.
    Off,
    /// Export session events without enabling remote steering.
    Export,
    /// Enable both export and remote steering.
    On,
}

/// One active scheduled prompt.
#[derive(Debug, Clone)]
pub struct SessionRpcScheduleEntry {
    /// Sequential id assigned by the runtime within the session.
    pub id: u64,
    /// Interval between scheduled ticks, in milliseconds.
    pub interval_ms: u64,
    /// Prompt text that is enqueued on every tick.
    pub prompt: String,
    /// Whether the schedule is recurring.
    pub recurring: bool,
    /// Display-only label for the prompt as shown in the UI.
    pub display_prompt: Option<String>,
    /// ISO 8601 timestamp for the next scheduled run.
    pub next_run_at: String,
}

/// Snapshot of active scheduled prompts.
#[derive(Debug, Clone)]
pub struct SessionRpcScheduleList {
    /// Active scheduled prompts ordered by id.
    pub entries: Vec<SessionRpcScheduleEntry>,
}

/// Result returned after removing a scheduled prompt.
#[derive(Debug, Clone)]
pub struct SessionRpcScheduleStopResult {
    /// The removed entry, or `None` when the id was unknown.
    pub entry: Option<SessionRpcScheduleEntry>,
}

/// Authentication status and account metadata for the session.
#[derive(Debug, Clone)]
pub struct SessionRpcSessionAuthStatus {
    /// Whether the session has resolved authentication.
    pub is_authenticated: bool,
    /// Authentication type, when known.
    pub auth_type: Option<SessionRpcAuthInfoType>,
    /// Authentication host URL, when known.
    pub host: Option<String>,
    /// Authenticated login or username, when known.
    pub login: Option<String>,
    /// Human-readable authentication status description.
    pub status_message: Option<String>,
    /// Copilot plan tier, when known.
    pub copilot_plan: Option<String>,
}

/// Result returned after updating the session's credentials.
#[derive(Debug, Clone)]
pub struct SessionRpcSetCredentialsResult {
    /// Whether the operation succeeded.
    pub success: bool,
}

/// Result returned by `session.tools.getCurrentMetadata`.
#[derive(Debug)]
pub struct SessionRpcToolsGetCurrentMetadataResult {
    /// Current tool metadata, or `None` when tools have not been initialized yet.
    pub tools: Option<Vec<SessionRpcCurrentToolMetadata>>,
}

/// Result returned by `session.tools.initializeAndValidate`.
#[derive(Debug, Clone, Default)]
pub struct SessionRpcToolsInitializeAndValidateResult {}

} // verus!
