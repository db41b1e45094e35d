//! Background task and agent types of the RPC surface.
use crate::json::{JsonMap, JsonValue};
use vstd::prelude::*;

verus! {

/// Metadata for a tracked background agent task.
#[derive(Debug, Clone)]
pub struct TaskAgentInfo {
    /// Task discriminator.
    pub kind: String,
    /// Unique task identifier.
    pub id: String,
    /// Tool call ID associated with this agent task.
    pub tool_call_id: String,
    /// Short task description.
    pub description: String,
    /// Current lifecycle status.
    pub status: TaskStatus,
    /// ISO 8601 timestamp when the task started.
    pub started_at: String,
    /// ISO 8601 timestamp when the task completed.
    pub completed_at: Option<String>,
    /// Accumulated active execution time in milliseconds.
    pub active_time_ms: Option<u64>,
    /// ISO 8601 timestamp when the current active period began.
    pub active_started_at: Option<String>,
    /// Error message when the task failed.
    pub error: Option<String>,
    /// Agent type used for the task.
    pub agent_type: String,
    /// Prompt originally sent to the agent.
    pub prompt: String,
    /// Final task result text, when available.
    pub result: Option<String>,
    /// Model ID used for the task, when specified.
    pub model: Option<String>,
    /// Whether the task is sync-waited or backgrounded.
    pub execution_mode: Option<TaskExecutionMode>,
    /// Whether the task can currently be promoted to background mode.
    pub can_promote_to_background: Option<bool>,
    /// Latest response text emitted by the agent.
    pub latest_response: Option<String>,
    /// ISO 8601 timestamp when the agent entered idle state.
    pub idle_since: Option<String>,
}

/// Progress details for a background agent task.
#[derive(Debug, Clone)]
pub struct TaskAgentProgress {
    /// Progress discriminator.
    pub kind: String,
    /// Recent activity lines derived from the agent's tool execution events.
    pub recent_activity: Vec<TaskProgressLine>,
    /// Most recent intent reported by the agent.
    pub latest_intent: Option<String>,
}

/// Execution mode for a tracked task.
#[derive(Debug, Clone, Copy, PartialEq, Eq, Structural)]
pub enum TaskExecutionMode {
    /// The task is synchronously awaited.
    Sync,
    /// The task is managed in the background.
    Background,
}

/// A tracked task, discriminated by task kind.
#[derive(Debug, Clone)]
pub enum TaskInfo {
    /// Background agent task metadata.
    Agent(TaskAgentInfo),
    /// Background shell task metadata.
    Shell(TaskShellInfo),
}

/// Result for `session.tasks.list`.
#[derive(Debug, Clone)]
pub struct TaskList {
    /// Tasks currently tracked by the session.
    pub tasks: Vec<TaskInfo>,
}

/// Progress details for a tracked task.
#[derive(Debug, Clone)]
pub enum TaskProgress {
    /// Agent-task progress details.
    Agent(TaskAgentProgress),
    /// Shell-task progress details.
    Shell(TaskShellProgress),
}

/// Display-friendly activity line emitted while a task is running.
#[derive(Debug, Clone)]
pub struct TaskProgressLine {
    /// Rendered message describing the activity event.
    pub message: String,
    /// ISO 8601 timestamp when the event occurred.
    pub timestamp: String,
}

/// Metadata for a tracked shell task.
#[derive(Debug, Clone)]
pub struct TaskShellInfo {
    /// Task discriminator.
    pub kind: String,
    /// Unique task identifier.
    pub id: String,
    /// Short task description.
    pub description: String,
    /// Current lifecycle status.
    pub status: TaskStatus,
    /// ISO 8601 timestamp when the task started.
    pub started_at: String,
    /// ISO 8601 timestamp when the task completed.
    pub completed_at: Option<String>,
    /// Command being executed.
    pub command: String,
    /// Whether the shell is attached or detached.
    pub attachment_mode: TaskShellInfoAttachmentMode,
    /// Whether the task is sync-waited or backgrounded.
    pub execution_mode: Option<TaskExecutionMode>,
    /// Whether this shell can currently be promoted to background mode.
    pub can_promote_to_background: Option<bool>,
    /// Detached log path, when available.
    pub log_path: Option<String>,
    /// Process ID, when available.
    pub pid: Option<u32>,
}

/// Attachment mode for a shell task.
#[derive(Debug, Clone, Copy, PartialEq, Eq, Structural)]
pub enum TaskShellInfoAttachmentMode {
    /// The shell runs in a managed PTY session.
    Attached,
    /// The shell runs as an independent background process.
    Detached,
}

/// Progress details for a background shell task.
#[derive(Debug, Clone)]
pub struct TaskShellProgress {
    /// Progress discriminator.
    pub kind: String,
    /// Recent stdout or stderr content emitted by the shell.
    pub recent_output: String,
    /// Process ID, when available.
    pub pid: Option<u32>,
}

/// Lifecycle state of a tracked task.
#[derive(Debug, Clone, Copy, PartialEq, Eq, Structural)]
pub enum TaskStatus {
    /// The task is actively executing.
    Running,
    /// The task is waiting for more input.
    Idle,
    /// The task finished successfully.
    Completed,
    /// The task finished with an error.
    Failed,
    /// The task was cancelled before completion.
    Cancelled,
}

/// Request payload for cancelling a tracked task.
#[derive(Debug, Clone)]
pub struct TasksCancelParams {
    /// Identifier of the background task to cancel.
    pub id: String,
}

/// Result for `session.tasks.cancel`.
#[derive(Debug, Clone)]
pub struct TasksCancelResult {
    /// Whether the task was successfully cancelled.
    pub cancelled: bool,
}

/// Result for `session.tasks.getCurrentPromotable`.
#[derive(Debug, Clone)]
pub struct TasksGetCurrentPromotableResult {
    /// The first promotable sync-waiting task, if one exists.
    pub task: Option<TaskInfo>,
}

/// Request payload for fetching task progress.
#[derive(Debug, Clone)]
pub struct TasksGetProgressParams {
    /// Identifier of the background task to inspect.
    pub id: String,
}

/// Result for `session.tasks.getProgress`.
#[derive(Debug, Clone)]
pub struct TasksGetProgressResult {
    /// Progress details for the requested task, or `None` if it is not tracked.
    pub progress: Option<TaskProgress>,
}

/// Result for `session.tasks.promoteCurrentToBackground`.
#[derive(Debug, Clone)]
pub struct TasksPromoteCurrentToBackgroundResult {
    /// The promoted task, if any promotable task was waiting.
    pub task: Option<TaskInfo>,
}

/// Request payload for promoting a task to background mode.
#[derive(Debug, Clone)]
pub struct TasksPromoteToBackgroundParams {
    /// Identifier of the task to promote.
    pub id: String,
}

/// Result for `session.tasks.promoteToBackground`.
#[derive(Debug, Clone)]
pub struct TasksPromoteToBackgroundResult {
    /// Whether the task was successfully promoted.
    pub promoted: bool,
}

/// Empty result payload for `session.tasks.refresh`.
#[derive(Debug, Clone)]
pub struct TasksRefreshResult {}

/// Request payload for removing a tracked task.
#[derive(Debug, Clone)]
pub struct TasksRemoveParams {
    /// Identifier of the completed or cancelled task to remove.
    pub id: String,
}

/// Result for `session.tasks.remove`.
#[derive(Debug, Clone)]
pub struct TasksRemoveResult {
    /// Whether the task was removed from tracking.
    pub removed: bool,
}

/// Request payload for sending a follow-up message to a background agent task.
#[derive(Debug, Clone)]
pub struct TasksSendMessageParams {
    /// Identifier of the target agent task.
    pub id: String,
    /// Message content to deliver to the agent.
    pub message: String,
    /// Optional sender agent ID when relaying on behalf of another agent.
    pub from_agent_id: Option<String>,
}

/// Result for `session.tasks.sendMessage`.
#[derive(Debug, Clone)]
pub struct TasksSendMessageResult {
    /// Whether the message was delivered successfully.
    pub sent: bool,
    /// Delivery failure details, when available.
    pub error: Option<String>,
}

/// Request payload for starting a background agent task.
#[derive(Debug, Clone)]
pub struct TasksStartAgentParams {
    /// Type of agent to start.
    pub agent_type: String,
    /// Task prompt passed to the agent.
    pub prompt: String,
    /// Short name used to generate a human-readable task ID.
    pub name: String,
    /// Optional short description of the task.
    pub description: Option<String>,
    /// Optional model override.
    pub model: Option<String>,
}

/// Result for `session.tasks.startAgent`.
#[derive(Debug, Clone)]
pub struct TasksStartAgentResult {
    /// Generated agent ID assigned to the new task.
    pub agent_id: String,
}

/// Empty result payload for `session.tasks.waitForPending`.
#[derive(Debug, Clone)]
pub struct TasksWaitForPendingResult {}

} // verus!
