//! Canvas, UI handler and workspace types of the RPC surface.
use crate::json::{JsonMap, JsonValue};
use vstd::prelude::*;

verus! {

/// Result returned from `session.canvas.action.invoke`.
#[derive(Debug)]
pub struct CanvasActionInvokeResult {
    /// Provider-supplied action result, when the action returned one.
    pub result: Option<JsonValue>,
}

/// Result indicating whether a pending UI request was resolved by this call.
#[derive(Debug, Clone)]
pub struct UiHandlePendingResult {
    /// True if the request was still pending and was resolved by this call.
    pub success: bool,
}

/// Result returned when registering a direct auto-mode-switch handler.
#[derive(Debug, Clone)]
pub struct UiRegisterDirectAutoModeSwitchHandlerResult {
    /// Opaque handle representing the registration.
    pub handle: String,
}

/// Result returned when unregistering a direct auto-mode-switch handler.
#[derive(Debug, Clone)]
pub struct UiUnregisterDirectAutoModeSwitchHandlerResult {
    /// Whether the handle was active and successfully decremented.
    pub unregistered: bool,
}

/// User response payload for `session.ui.handlePendingUserInput`.
#[derive(Debug, Clone)]
pub struct UiUserInputResponse {
    /// The user's answer text.
    pub answer: String,
    /// Whether the user typed a freeform response instead of selecting a choice.
    pub was_freeform: bool,
}

/// A single changed file and its unified diff.
#[derive(Debug, Clone)]
pub struct WorkspaceDiffFileChange {
    /// Path to the changed file, relative to the workspace root.
    pub path: String,
    /// Unified diff content for the file.
    pub diff: String,
    /// Type of change represented by this file diff.
    pub change_type: WorkspaceDiffFileChangeType,
    /// Original file path for renamed files.
    pub old_path: Option<String>,
    /// Whether the diff content was omitted because it exceeded the size limit.
    pub is_truncated: Option<bool>,
}

/// Type of change represented by a file diff.
#[derive(Debug, Clone)]
pub enum WorkspaceDiffFileChangeType {
    /// The file was added.
    Added,
    /// The file was modified.
    Modified,
    /// The file was deleted.
    Deleted,
    /// The file was renamed.
    Renamed,
}

/// Diff mode requested by the client.
#[derive(Debug, Clone)]
pub enum WorkspaceDiffMode {
    /// Return staged, unstaged, and untracked working tree changes.
    Unstaged,
    /// Return changes compared with the default branch.
    Branch,
}

/// Workspace diff result for the requested mode.
#[derive(Debug, Clone)]
pub struct WorkspaceDiffResult {
    /// Diff mode requested by the client.
    pub requested_mode: WorkspaceDiffMode,
    /// Effective mode used for the returned changes.
    pub mode: WorkspaceDiffMode,
    /// Changed files and their unified diffs.
    pub changes: Vec<WorkspaceDiffFileChange>,
    /// Default branch used for a branch diff, when branch mode was requested.
    pub base_branch: Option<String>,
    /// Whether a requested branch diff fell back to unstaged changes.
    pub is_fallback: bool,
}

/// A single workspace checkpoint.
#[derive(Debug, Clone)]
pub struct WorkspacesCheckpoint {
    /// Checkpoint number assigned by the workspace manager.
    pub number: u64,
    /// Human-readable checkpoint title.
    pub title: String,
    /// Filename of the checkpoint within the workspace checkpoints directory.
    pub filename: String,
}

/// Current workspace metadata for the session.
#[derive(Debug, Clone)]
pub struct WorkspacesGetWorkspaceResult {
    /// Current workspace metadata, or `None` when no workspace is available.
    pub workspace: Option<WorkspacesWorkspaceDetails>,
    /// Absolute filesystem path to the workspace directory, when available.
    pub path: Option<String>,
}

/// Workspace checkpoints in chronological order.
#[derive(Debug, Clone)]
pub struct WorkspacesListCheckpointsResult {
    /// Workspace checkpoints in chronological order.
    pub checkpoints: Vec<WorkspacesCheckpoint>,
}

/// Content of a workspace checkpoint.
#[derive(Debug, Clone)]
pub struct WorkspacesReadCheckpointResult {
    /// Checkpoint content as a UTF-8 string, or `None` when unavailable.
    pub content: Option<String>,
}

/// Result returned from saving a large paste into the workspace.
#[derive(Debug, Clone)]
pub struct WorkspacesSaveLargePasteResult {
    /// Descriptor for the saved paste file, or `None` when the workspace is unavailable.
    pub saved: Option<WorkspacesSavedLargePasteFile>,
}

/// Descriptor for a saved large-paste file.
#[derive(Debug, Clone)]
pub struct WorkspacesSavedLargePasteFile {
    /// Absolute filesystem path to the saved paste file.
    pub file_path: String,
    /// Filename within the workspace files directory.
    pub filename: String,
    /// Size of the saved file in bytes.
    pub size_bytes: u64,
}

/// Metadata for the current session workspace.
#[derive(Debug, Clone)]
pub struct WorkspacesWorkspaceDetails {
    /// Stable workspace identifier.
    pub id: String,
    /// Current working directory tracked for the workspace.
    pub cwd: Option<String>,
    /// Git repository root, when known.
    pub git_root: Option<String>,
    /// Repository slug in `owner/name` form, when known.
    pub repository: Option<String>,
    /// Repository host type, when known.
    pub host_type: Option<WorkspacesWorkspaceDetailsHostType>,
    /// Active Git branch, when known.
    pub branch: Option<String>,
    /// User-visible workspace name.
    pub name: Option<String>,
    /// Name of the client that created the workspace, when available.
    pub client_name: Option<String>,
    /// Whether the workspace name was explicitly chosen by the user.
    pub user_named: Option<bool>,
    /// Number of workspace summaries recorded for this workspace.
    pub summary_count: Option<u64>,
    /// Workspace creation timestamp.
    pub created_at: Option<String>,
    /// Workspace last-update timestamp.
    pub updated_at: Option<String>,
    /// Whether the workspace is currently remote-steerable.
    pub remote_steerable: Option<bool>,
    /// Associated multi-client task identifier, when present.
    pub mc_task_id: Option<String>,
    /// Associated multi-client session identifier, when present.
    pub mc_session_id: Option<String>,
    /// Last known multi-client event identifier, when present.
    pub mc_last_event_id: Option<String>,
    /// Whether chronicle sync dismissal has been recorded.
    pub chronicle_sync_dismissed: Option<bool>,
}

/// Repository host type for a workspace.
#[derive(Debug, Clone)]
pub enum WorkspacesWorkspaceDetailsHostType {
    /// Workspace repository is hosted on GitHub.
    Github,
    /// Workspace repository is hosted on Azure DevOps.
    Ado,
}

} // verus!
