//! Client-scoped session management types of the RPC surface.
use crate::json::{JsonMap, JsonValue};
use vstd::prelude::*;

verus! {

/// Parameters for `sessions.connect`.
#[derive(Debug, Clone)]
pub struct ConnectRemoteSessionParams {
    /// Session ID to connect to.
    pub session_id: String,
}

/// Metadata for a connected remote session.
#[derive(Debug, Clone)]
pub struct ConnectedRemoteSessionMetadata {
    /// SDK session ID for the connected remote session.
    pub session_id: String,
    /// Optional friendly session name.
    pub name: Option<String>,
    /// Optional session summary.
    pub summary: Option<String>,
    /// Session start time as an ISO 8601 string.
    pub start_time: String,
    /// Last session update time as an ISO 8601 string.
    pub modified_time: String,
    /// Repository associated with the connected remote session.
    pub repository: ConnectedRemoteSessionMetadataRepository,
    /// Pull request number associated with the session.
    pub pull_request_number: Option<u64>,
    /// Original remote resource identifier.
    pub resource_id: Option<String>,
    /// Neutral SDK discriminator for the connected remote session kind.
    pub kind: ConnectedRemoteSessionMetadataKind,
    /// Remote session staleness deadline as an ISO 8601 string.
    pub stale_at: Option<String>,
    /// Remote session state returned by the backing service.
    pub state: Option<String>,
}

/// Neutral SDK discriminator for the connected remote session kind.
#[derive(Debug, Clone)]
pub enum ConnectedRemoteSessionMetadataKind {
    /// Remote CLI session.
    RemoteSession,
    /// GitHub Copilot coding agent session.
    CodingAgent,
}

/// Repository associated with the connected remote session.
#[derive(Debug, Clone)]
pub struct ConnectedRemoteSessionMetadataRepository {
    /// Repository owner or organization login.
    pub owner: String,
    /// Repository name.
    pub name: String,
    /// Branch associated with the remote session.
    pub branch: String,
}

/// Plugin metadata for manager-wide additional plugins.
#[derive(Debug)]
pub struct InstalledPlugin {
    /// Plugin name.
    pub name: String,
    /// Marketplace the plugin came from, or an empty string for direct repo installs.
    pub marketplace: String,
    /// Version installed, if available.
    pub version: Option<String>,
    /// Installation timestamp.
    pub installed_at: String,
    /// Whether the plugin is currently enabled.
    pub enabled: bool,
    /// Path where the plugin is cached locally.
    pub cache_path: Option<String>,
    /// Source for direct repo installs when `marketplace` is empty.
    pub source: Option<JsonValue>,
}

/// Result returned by `sessions.connect`.
#[derive(Debug, Clone)]
pub struct RemoteSessionConnectionResult {
    /// SDK session ID for the connected remote session.
    pub session_id: String,
    /// Metadata for the connected remote session.
    pub metadata: ConnectedRemoteSessionMetadata,
}

/// Result returned by `sessions.bulkDelete`.
#[derive(Debug, Clone)]
pub struct SessionBulkDeleteResult {
    /// Map of session ID to bytes freed by removing the session workspace directory.
    pub freed_bytes: Vec<(String, u64)>,
}

/// Session working-directory context metadata.
#[derive(Debug, Clone)]
pub struct SessionContext {
    /// Most recent working directory for this session.
    pub cwd: String,
    /// Git repository root, if the working directory was inside a Git repository.
    pub git_root: Option<String>,
    /// Repository slug in `owner/name` form, when known.
    pub repository: Option<String>,
    /// Repository host type.
    pub host_type: Option<SessionContextHostType>,
    /// Active Git branch.
    pub branch: Option<String>,
}

/// Repository host type for a session context.
#[derive(Debug, Clone)]
pub enum SessionContextHostType {
    /// Session repository is hosted on GitHub.
    Github,
    /// Session repository is hosted on Azure DevOps.
    Ado,
}

/// Result returned by `sessions.enrichMetadata`.
#[derive(Debug, Clone)]
pub struct SessionEnrichMetadataResult {
    /// Enriched session metadata records.
    pub sessions: Vec<SessionMetadata>,
}

/// Result returned by `sessions.list`.
#[derive(Debug, Clone)]
pub struct SessionList {
    /// Sessions ordered most-recently-modified first.
    pub sessions: Vec<SessionMetadata>,
}

/// Optional filter applied by `sessions.list`.
#[derive(Debug, Clone)]
pub struct SessionListFilter {
    /// Match sessions whose `context.cwd` equals this value.
    pub cwd: Option<String>,
    /// Match sessions whose `context.gitRoot` equals this value.
    pub git_root: Option<String>,
    /// Match sessions whose `context.repository` equals this value.
    pub repository: Option<String>,
    /// Match sessions whose `context.branch` equals this value.
    pub branch: Option<String>,
}

/// Result returned by `sessions.loadDeferredRepoHooks`.
#[derive(Debug, Clone)]
pub struct SessionLoadDeferredRepoHooksResult {
    /// Repo-level startup prompts queued from repository hook configs.
    pub startup_prompts: Vec<String>,
    /// Total hook command count loaded for the session by this call.
    pub hook_count: u64,
}

/// Persisted metadata for a session.
#[derive(Debug, Clone)]
pub struct SessionMetadata {
    /// Stable session identifier.
    pub session_id: String,
    /// Session creation time as an ISO 8601 timestamp.
    pub start_time: String,
    /// Last-modified time of the session's persisted state as ISO 8601.
    pub modified_time: String,
    /// Short summary of the session, when one has been derived.
    pub summary: Option<String>,
    /// Optional human-friendly name set via `/rename`.
    pub name: Option<String>,
    /// Runtime client name that created or last resumed this session.
    pub client_name: Option<String>,
    /// Whether the session is remote.
    pub is_remote: bool,
    /// Whether the session is a detached maintenance session.
    pub is_detached: Option<bool>,
    /// Most recent working-directory context for the session.
    pub context: Option<SessionContext>,
    /// GitHub task ID bound to this local session, when present.
    pub mc_task_id: Option<String>,
}

/// Result returned by `sessions.pruneOld`.
#[derive(Debug, Clone)]
pub struct SessionPruneResult {
    /// Session IDs that were deleted.
    pub deleted: Vec<String>,
    /// Session IDs that would be deleted in dry-run mode.
    pub candidates: Vec<String>,
    /// Session IDs that were skipped.
    pub skipped: Vec<String>,
    /// Total bytes freed or projected to be freed.
    pub freed_bytes: u64,
    /// Whether the operation ran in dry-run mode.
    pub dry_run: bool,
}

/// Result returned by `sessions.getSizes`.
#[derive(Debug, Clone)]
pub struct SessionSizes {
    /// Map of session ID to workspace-directory size in bytes.
    pub sizes: Vec<(String, u64)>,
}

/// Parameters for `sessions.bulkDelete`.
#[derive(Debug, Clone)]
pub struct SessionsBulkDeleteRequest {
    /// Session IDs to close, deactivate, and delete from disk.
    pub session_ids: Vec<String>,
}

/// Parameters for `sessions.checkInUse`.
#[derive(Debug, Clone)]
pub struct SessionsCheckInUseRequest {
    /// Session IDs to test for live in-use locks.
    pub session_ids: Vec<String>,
}

/// Result returned by `sessions.checkInUse`.
#[derive(Debug, Clone)]
pub struct SessionsCheckInUseResult {
    /// Session IDs from the input set that are currently held by another process.
    pub in_use: Vec<String>,
}

/// Parameters for `sessions.close`.
#[derive(Debug, Clone)]
pub struct SessionsCloseRequest {
    /// Session ID to close.
    pub session_id: String,
}

/// Parameters for `sessions.enrichMetadata`.
#[derive(Debug, Clone)]
pub struct SessionsEnrichMetadataRequest {
    /// Session metadata records to enrich.
    pub sessions: Vec<SessionMetadata>,
}

/// Parameters for `sessions.findByPrefix`.
#[derive(Debug, Clone)]
pub struct SessionsFindByPrefixRequest {
    /// UUID prefix to resolve to a unique session ID.
    pub prefix: String,
}

/// Result returned by `sessions.findByPrefix`.
#[derive(Debug, Clone)]
pub struct SessionsFindByPrefixResult {
    /// Unique session ID matching the prefix, when one exists.
    pub session_id: Option<String>,
}

/// Parameters for `sessions.findByTaskId`.
#[derive(Debug, Clone)]
pub struct SessionsFindByTaskIdRequest {
    /// GitHub task ID to look up.
    pub task_id: String,
}

/// Result returned by `sessions.findByTaskId`.
#[derive(Debug, Clone)]
pub struct SessionsFindByTaskIdResult {
    /// Local session ID bound to the task, when one exists.
    pub session_id: Option<String>,
}

/// Parameters for `sessions.fork`.
#[derive(Debug, Clone)]
pub struct SessionsForkRequest {
    /// Source session ID to fork from.
    pub session_id: String,
    /// Optional event ID boundary to fork up to, exclusive.
    pub to_event_id: Option<String>,
    /// Optional friendly name for the forked session.
    pub name: Option<String>,
}

/// Result returned by `sessions.fork`.
#[derive(Debug, Clone)]
pub struct SessionsForkResult {
    /// The new forked session ID.
    pub session_id: String,
    /// Friendly name assigned to the forked session, if any.
    pub name: Option<String>,
}

/// Parameters for `sessions.getEventFilePath`.
#[derive(Debug, Clone)]
pub struct SessionsGetEventFilePathRequest {
    /// Session ID whose event-log file path to compute.
    pub session_id: String,
}

/// Result returned by `sessions.getEventFilePath`.
#[derive(Debug, Clone)]
pub struct SessionsGetEventFilePathResult {
    /// Absolute path to the session's `events.jsonl` file.
    pub file_path: String,
}

/// Parameters for `sessions.getLastForContext`.
#[derive(Debug, Clone)]
pub struct SessionsGetLastForContextRequest {
    /// Optional working-directory context used to score session relevance.
    pub context: Option<SessionContext>,
}

/// Result returned by `sessions.getLastForContext`.
#[derive(Debug, Clone)]
pub struct SessionsGetLastForContextResult {
    /// Most-relevant session ID for the supplied context, when one exists.
    pub session_id: Option<String>,
}

/// Parameters for `sessions.getPersistedRemoteSteerable`.
#[derive(Debug, Clone)]
pub struct SessionsGetPersistedRemoteSteerableRequest {
    /// Session ID whose persisted remote-steerable flag to read.
    pub session_id: String,
}

/// Result returned by `sessions.getPersistedRemoteSteerable`.
#[derive(Debug, Clone)]
pub struct SessionsGetPersistedRemoteSteerableResult {
    /// Persisted remote-steerable flag, when one has been recorded.
    pub remote_steerable: Option<bool>,
}

/// Parameters for `sessions.list`.
#[derive(Debug, Clone)]
pub struct SessionsListRequest {
    /// Number of newest sessions that should load full metadata.
    pub metadata_limit: Option<u64>,
    /// Optional filter applied to the returned sessions.
    pub filter: Option<SessionListFilter>,
    /// Whether detached maintenance sessions should be included.
    pub include_detached: Option<bool>,
}

/// Parameters for `sessions.loadDeferredRepoHooks`.
#[derive(Debug, Clone)]
pub struct SessionsLoadDeferredRepoHooksRequest {
    /// Active session ID whose deferred repository hooks should be loaded.
    pub session_id: String,
}

/// Parameters for `sessions.pruneOld`.
#[derive(Debug, Clone)]
pub struct SessionsPruneOldRequest {
    /// Delete sessions whose `modifiedTime` is at least this many days old.
    pub older_than_days: u64,
    /// Whether the prune should be reported without performing deletions.
    pub dry_run: Option<bool>,
    /// Whether named sessions are eligible for pruning.
    pub include_named: Option<bool>,
    /// Session IDs that should never be considered for pruning.
    pub exclude_session_ids: Option<Vec<String>>,
}

/// Parameters for `sessions.releaseLock`.
#[derive(Debug, Clone)]
pub struct SessionsReleaseLockRequest {
    /// Session ID whose in-use lock should be released.
    pub session_id: String,
}

/// Parameters for `sessions.reloadPluginHooks`.
#[derive(Debug, Clone)]
pub struct SessionsReloadPluginHooksRequest {
    /// Active session ID to reload hooks for.
    pub session_id: String,
    /// Whether repository hooks should be deferred until folder trust.
    pub defer_repo_hooks: Option<bool>,
}

/// Parameters for `sessions.save`.
#[derive(Debug, Clone)]
pub struct SessionsSaveRequest {
    /// Session ID whose pending events should be flushed to disk.
    pub session_id: String,
}

/// Parameters for `sessions.setAdditionalPlugins`.
#[derive(Debug)]
pub struct SessionsSetAdditionalPluginsRequest {
    /// Manager-wide additional plugins to register.
    pub plugins: Vec<InstalledPlugin>,
}

} // verus!
