//! Session metadata, model, name, usage and telemetry types of the RPC surface.
use crate::json::{JsonMap, JsonValue};
use vstd::prelude::*;

verus! {

/// Result for `session.instructions.getSources`.
#[derive(Debug, Clone)]
pub struct InstructionsGetSourcesResult {
    /// Instruction sources loaded for the session.
    pub sources: Vec<InstructionsSource>,
}

/// One loaded instruction source.
#[derive(Debug, Clone)]
pub struct InstructionsSource {
    /// Unique identifier for this source.
    pub id: String,
    /// Human-readable label.
    pub label: String,
    /// File path relative to the repository or absolute for home-level files.
    pub source_path: String,
    /// Raw content of the instruction file.
    pub content: String,
    /// Category of instruction source.
    pub type_: InstructionsSourceType,
    /// Where this source lives.
    pub location: InstructionsSourceLocation,
    /// Glob patterns limiting which files this instruction applies to.
    pub apply_to: Option<Vec<String>>,
    /// Short human-readable description for the source.
    pub description: Option<String>,
    /// Whether this source starts disabled by default.
    pub default_disabled: Option<bool>,
}

/// UI grouping for an instruction source.
#[derive(Debug, Clone)]
pub enum InstructionsSourceLocation {
    /// Instructions live in user-level configuration.
    User,
    /// Instructions live in repository-level configuration.
    Repository,
    /// Instructions live under the current working directory.
    WorkingDirectory,
    /// Instructions live in plugin-provided configuration.
    Plugin,
}

/// Merge category for an instruction source.
#[derive(Debug, Clone)]
pub enum InstructionsSourceType {
    /// Instructions loaded from the user's home configuration.
    Home,
    /// Instructions loaded from repository-scoped files.
    Repo,
    /// Instructions loaded from model-specific files.
    Model,
    /// Instructions loaded from VS Code instruction files.
    VsCode,
    /// Instructions discovered from nested agent files.
    NestedAgents,
    /// Instructions inherited from child instruction files.
    ChildInstructions,
    /// Instructions supplied by an installed plugin.
    Plugin,
}

/// Parameters for `session.metadata.contextInfo`.
#[derive(Debug, Clone)]
pub struct MetadataContextInfoRequest {
    /// Target session identifier.
    pub session_id: String,
    /// Maximum prompt tokens allowed by the target model.
    ///
    /// Pass `0` to use the runtime default.
    pub prompt_token_limit: u64,
    /// Maximum output tokens allowed by the target model.
    ///
    /// Pass `0` if unknown.
    pub output_token_limit: u64,
    /// Model identifier used for tokenization.
    ///
    /// Omit to use the session default.
    pub selected_model: Option<String>,
}

/// Result for `session.metadata.contextInfo`.
#[derive(Debug, Clone)]
pub struct MetadataContextInfoResult {
    /// Token breakdown for the current context window, or `None` when the
    /// session has not yet been initialized.
    pub context_info: Option<SessionContextInfo>,
}

/// Result for `session.metadata.isProcessing`.
#[derive(Debug, Clone)]
pub struct MetadataIsProcessingResult {
    /// Whether the session is currently processing a turn or continuation.
    pub processing: bool,
}

/// Parameters for `session.metadata.recomputeContextTokens`.
#[derive(Debug, Clone)]
pub struct MetadataRecomputeContextTokensRequest {
    /// Target session identifier.
    pub session_id: String,
    /// Model identifier used for tokenization.
    pub model_id: String,
}

/// Result for `session.metadata.recomputeContextTokens`.
#[derive(Debug, Clone)]
pub struct MetadataRecomputeContextTokensResult {
    /// Sum of tokens across chat-context and system-context messages.
    pub total_tokens: u64,
    /// Tokens contributed by user, assistant, and tool messages.
    pub messages_token_count: u64,
    /// Tokens contributed by system and developer prompt snapshots.
    pub system_token_count: u64,
}

/// Parameters for `session.metadata.recordContextChange`.
#[derive(Debug, Clone)]
pub struct MetadataRecordContextChangeRequest {
    /// Target session identifier.
    pub session_id: String,
    /// Updated working-directory and git-context snapshot.
    pub context: SessionWorkingDirectoryContext,
}

/// Result for `session.metadata.recordContextChange`.
#[derive(Debug, Clone)]
pub struct MetadataRecordContextChangeResult {}

/// Parameters for `session.metadata.setWorkingDirectory`.
#[derive(Debug, Clone)]
pub struct MetadataSetWorkingDirectoryRequest {
    /// Target session identifier.
    pub session_id: String,
    /// Absolute path to set as the session's working directory.
    pub working_directory: String,
}

/// Result for `session.metadata.setWorkingDirectory`.
#[derive(Debug, Clone)]
pub struct MetadataSetWorkingDirectoryResult {
    /// Working directory after the update.
    pub working_directory: String,
}

/// Current agent mode for a session snapshot.
#[derive(Debug, Clone)]
pub enum MetadataSnapshotCurrentMode {
    /// The agent is responding interactively.
    Interactive,
    /// The agent is preparing a plan.
    Plan,
    /// The agent is working autonomously.
    Autopilot,
}

/// Remote-session-specific metadata.
#[derive(Debug, Clone)]
pub struct MetadataSnapshotRemoteMetadata {
    /// Original resource identifier preserved across reconstructions.
    pub resource_id: Option<String>,
    /// Repository targeted by the remote session.
    pub repository: MetadataSnapshotRemoteMetadataRepository,
    /// Pull request number associated with the remote session, if any.
    pub pull_request_number: Option<u64>,
    /// Origin of the remote task, if known.
    pub task_type: Option<MetadataSnapshotRemoteMetadataTaskType>,
}

/// Repository descriptor within remote-session metadata.
#[derive(Debug, Clone)]
pub struct MetadataSnapshotRemoteMetadataRepository {
    /// GitHub owner or organization.
    pub owner: String,
    /// Repository name without owner.
    pub name: String,
    /// Branch the remote session is operating on.
    pub branch: String,
}

/// Origin of a remote session task.
#[derive(Debug, Clone)]
pub enum MetadataSnapshotRemoteMetadataTaskType {
    /// Task originated from Copilot Coding Agent.
    Cca,
    /// Task originated from a CLI remote-session invocation.
    Cli,
}

/// Result for `session.name.get`.
#[derive(Debug, Clone)]
pub struct NameGetResult {
    /// The session's friendly name, or `None` when not yet set.
    pub name: Option<String>,
}

/// Parameters for `session.name.setAuto`.
#[derive(Debug, Clone)]
pub struct NameSetAutoRequest {
    /// Target session identifier.
    pub session_id: String,
    /// Auto-generated session summary to persist when permitted.
    pub summary: String,
}

/// Result for `session.name.setAuto`.
#[derive(Debug, Clone)]
pub struct NameSetAutoResult {
    /// Whether the auto-generated summary was applied.
    pub applied: bool,
}

/// Parameters for `session.name.set`.
#[derive(Debug, Clone)]
pub struct NameSetRequest {
    /// Target session identifier.
    pub session_id: String,
    /// New session name.
    pub name: String,
}

/// Token-usage breakdown for the session's current context window.
#[derive(Debug, Clone)]
pub struct SessionContextInfo {
    /// Model identifier used for token counting.
    pub model_name: String,
    /// Tokens consumed by the system prompt.
    pub system_tokens: u64,
    /// Tokens consumed by user, assistant, and tool messages.
    pub conversation_tokens: u64,
    /// Tokens consumed by tool definitions sent to the model.
    pub tool_definitions_tokens: u64,
    /// Tokens consumed by MCP tool definitions.
    pub mcp_tools_tokens: u64,
    /// Sum of system, conversation, and tool-definition tokens.
    pub total_tokens: u64,
    /// Maximum prompt tokens allowed by the model.
    pub prompt_token_limit: u64,
    /// Token count at which background compaction begins.
    pub compaction_threshold: u64,
    /// Total context limit displayed to the user.
    pub limit: u64,
    /// Output reserve plus tokens after the buffer threshold.
    pub buffer_tokens: u64,
}

/// Point-in-time snapshot of slow-changing session identifier and state fields.
#[derive(Debug, Clone)]
pub struct SessionMetadataSnapshot {
    /// Unique identifier of the session.
    pub session_id: String,
    /// ISO 8601 timestamp of when the session started.
    pub start_time: String,
    /// ISO 8601 timestamp of the last persisted modification time.
    pub modified_time: String,
    /// Whether this is a remote session.
    pub is_remote: bool,
    /// Whether another process was already using the session at construction.
    pub already_in_use: bool,
    /// Absolute path to the workspace directory, or `None` when absent.
    pub workspace_path: Option<String>,
    /// User-provided name supplied at session construction, if any.
    pub initial_name: Option<String>,
    /// Runtime client name associated with the session, if any.
    pub client_name: Option<String>,
    /// Remote-session-specific metadata when the session is remote.
    pub remote_metadata: Option<MetadataSnapshotRemoteMetadata>,
    /// Short human-readable session summary, if known.
    pub summary: Option<String>,
    /// Absolute path to the session's current working directory.
    pub working_directory: String,
    /// Current agent mode for the session.
    pub current_mode: MetadataSnapshotCurrentMode,
    /// Currently selected model identifier, if any.
    pub selected_model: Option<String>,
    /// Public-facing workspace metadata, or `None` when the session has none.
    pub workspace: Option<WorkspaceSummary>,
}

/// Updated working-directory and git context for a session.
#[derive(Debug, Clone)]
pub struct SessionWorkingDirectoryContext {
    /// Current working directory path.
    pub cwd: String,
    /// Root directory of the git repository, if known.
    pub git_root: Option<String>,
    /// Repository identifier derived from the git remote URL, if known.
    pub repository: Option<String>,
    /// Hosting platform type of the repository, if known.
    pub host_type: Option<SessionWorkingDirectoryContextHostType>,
    /// Raw host string from the git remote URL, if known.
    pub repository_host: Option<String>,
    /// Current git branch name, if known.
    pub branch: Option<String>,
    /// Current HEAD commit SHA, if known.
    pub head_commit: Option<String>,
    /// Merge-base commit SHA, if known.
    pub base_commit: Option<String>,
}

/// Repository hosting platform for a working-directory context.
#[derive(Debug, Clone)]
pub enum SessionWorkingDirectoryContextHostType {
    /// The repository is hosted on GitHub.
    Github,
    /// The repository is hosted on Azure DevOps.
    Ado,
}

/// Parameters for `session.telemetry.setFeatureOverrides`.
#[derive(Debug, Clone)]
pub struct TelemetrySetFeatureOverridesRequest {
    /// Target session identifier.
    pub session_id: String,
    /// Replacement feature override key/value pairs.
    pub features: Vec<(String, String)>,
}

/// Aggregated code-change metrics.
#[derive(Debug, Clone)]
pub struct UsageMetricsCodeChanges {
    /// Total lines of code added.
    pub lines_added: u64,
    /// Total lines of code removed.
    pub lines_removed: u64,
    /// Number of distinct files modified.
    pub files_modified_count: u64,
    /// Distinct file paths modified during the session.
    pub files_modified: Vec<String>,
}

/// Token-count detail for a model-scoped metric bucket.
#[derive(Debug, Clone)]
pub struct UsageMetricsModelMetricTokenDetail {
    /// Accumulated token count for the token type.
    pub token_count: u64,
}

/// Token-usage metrics for a model.
#[derive(Debug, Clone)]
pub struct UsageMetricsModelMetricUsage {
    /// Total input tokens consumed.
    pub input_tokens: u64,
    /// Total output tokens produced.
    pub output_tokens: u64,
    /// Total tokens read from prompt cache.
    pub cache_read_tokens: u64,
    /// Total tokens written to prompt cache.
    pub cache_write_tokens: u64,
    /// Total reasoning tokens produced, if reported.
    pub reasoning_tokens: Option<u64>,
}

/// Session-wide token-count detail for a token bucket.
#[derive(Debug, Clone)]
pub struct UsageMetricsTokenDetail {
    /// Accumulated token count for the token type.
    pub token_count: u64,
}

/// Public-facing workspace metadata for a session.
#[derive(Debug, Clone)]
pub struct WorkspaceSummary {
    /// Workspace identifier.
    pub id: String,
    /// Current working directory at session start, if known.
    pub cwd: Option<String>,
    /// Resolved git root for the working directory, if any.
    pub git_root: Option<String>,
    /// Repository identifier, if any.
    pub repository: Option<String>,
    /// Repository host type, if known.
    pub host_type: Option<WorkspaceSummaryHostType>,
    /// Branch checked out at session start, if any.
    pub branch: Option<String>,
    /// Display name for the session, if set.
    pub name: Option<String>,
    /// ISO 8601 timestamp when the workspace was created, if known.
    pub created_at: Option<String>,
    /// ISO 8601 timestamp when the workspace was last updated, if known.
    pub updated_at: Option<String>,
}

/// Repository host type for a workspace summary.
#[derive(Debug, Clone)]
pub enum WorkspaceSummaryHostType {
    /// The repository is hosted on GitHub.
    Github,
    /// The repository is hosted on Azure DevOps.
    Ado,
}

} // verus!
