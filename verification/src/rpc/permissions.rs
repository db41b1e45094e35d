//! Permission configuration, rule and location types of the RPC surface.
use crate::json::{JsonMap, JsonValue};
use vstd::prelude::*;

verus! {

/// Result for `session.permissions.setAllowAll`.
#[derive(Debug, Clone)]
pub struct AllowAllPermissionSetResult {
    /// Whether the operation succeeded.
    pub success: bool,
    /// The authoritative allow-all state after the mutation.
    pub enabled: bool,
}

/// Result for `session.permissions.getAllowAll`.
#[derive(Debug, Clone)]
pub struct AllowAllPermissionState {
    /// Whether full allow-all permissions are currently active.
    pub enabled: bool,
}

/// Result for `session.permissions.folderTrust.isTrusted`.
#[derive(Debug, Clone)]
pub struct FolderTrustCheckResult {
    /// Whether the folder is trusted.
    pub trusted: bool,
}

/// A pending permission request reconstructed from session history.
#[derive(Debug)]
pub struct PendingPermissionRequest {
    /// Unique identifier for the pending permission request.
    pub request_id: String,
    /// User-facing permission prompt details.
    pub request: JsonValue,
}

/// List of pending permission requests.
#[derive(Debug)]
pub struct PendingPermissionRequestList {
    /// Pending permission prompts reconstructed from event history.
    pub items: Vec<PendingPermissionRequest>,
}

/// Result for `session.permissions.locations.apply`.
#[derive(Debug, Clone)]
pub struct PermissionLocationApplyResult {
    /// Location key used in the location-permissions store.
    pub location_key: String,
    /// Whether the location is a git repository or a directory.
    pub location_type: PermissionLocationType,
    /// Whether a different location was applied since the previous apply call.
    pub changed: bool,
    /// Number of location-scoped rules added to the live permission service.
    pub applied_rule_count: u64,
    /// Number of persisted allowed directories added to the live path manager.
    pub applied_directory_count: u64,
    /// Location-scoped rules applied to the live permission service.
    pub applied_rules: Vec<PermissionRule>,
}

/// Result for `session.permissions.locations.resolve`.
#[derive(Debug, Clone)]
pub struct PermissionLocationResolveResult {
    /// Location key used in the location-permissions store.
    pub location_key: String,
    /// Whether the location is a git repository or a directory.
    pub location_type: PermissionLocationType,
}

/// Whether a location permission entry is rooted at a repository or directory.
#[derive(Debug, Clone)]
pub enum PermissionLocationType {
    /// The permission location is persisted at the git repository root.
    Repo,
    /// The permission location is persisted at the working directory.
    Dir,
}

/// Result for checking whether a path is within allowed directories.
#[derive(Debug, Clone)]
pub struct PermissionPathsAllowedCheckResult {
    /// Whether the path is within the session's allowed directories.
    pub allowed: bool,
}

/// Path-permission policy configuration.
#[derive(Debug, Clone, Default)]
pub struct PermissionPathsConfig {
    /// Whether all filesystem paths should be allowed without prompting.
    pub unrestricted: Option<bool>,
    /// Extra directories to allow in addition to the session working directory.
    pub additional_directories: Option<Vec<String>>,
    /// Whether the system temp directory should be included in the allow-list.
    pub include_temp_directory: Option<bool>,
    /// Workspace root path to expose as the primary working directory.
    pub workspace_path: Option<String>,
}

/// Snapshot of the session's allow-listed directories and primary working directory.
#[derive(Debug, Clone)]
pub struct PermissionPathsList {
    /// All directories currently allowed for tool access.
    pub directories: Vec<String>,
    /// The primary working directory for the session.
    pub primary: String,
}

/// Result for checking whether a path is within the session workspace.
#[derive(Debug, Clone)]
pub struct PermissionPathsWorkspaceCheckResult {
    /// Whether the path is within the session workspace directory.
    pub allowed: bool,
}

/// A single permission rule.
#[derive(Debug, Clone)]
pub struct PermissionRule {
    /// The rule kind, such as `Shell` or `GitHubMCP`.
    pub kind: String,
    /// The argument matched against the request, when the rule kind accepts one.
    pub argument: Option<String>,
}

/// Approved and denied permission rules.
#[derive(Debug, Clone)]
pub struct PermissionRulesSet {
    /// Rules that auto-approve matching requests.
    pub approved: Vec<PermissionRule>,
    /// Rules that auto-deny matching requests.
    pub denied: Vec<PermissionRule>,
}

/// URL-permission policy configuration.
#[derive(Debug, Clone, Default)]
pub struct PermissionUrlsConfig {
    /// Whether all URLs should be allowed without prompting.
    pub unrestricted: Option<bool>,
    /// Initial list of allowed URL or domain patterns.
    pub initial_allowed: Option<Vec<String>>,
}

/// Source metadata for an additional content exclusion rule.
#[derive(Debug, Clone)]
pub struct PermissionsConfigureAdditionalContentExclusionPolicyRuleSource {
    /// Source name.
    pub name: String,
    /// Source type.
    pub type_: String,
}

/// Scope for an additional content exclusion policy.
#[derive(Debug, Clone)]
pub enum PermissionsConfigureAdditionalContentExclusionPolicyScope {
    /// The policy applies only to the current repository.
    Repo,
    /// The policy applies across all repositories.
    All,
}

/// Result for `session.permissions.configure`.
#[derive(Debug, Clone)]
pub struct PermissionsConfigureResult {
    /// Whether the operation succeeded.
    pub success: bool,
}

/// Result for `session.permissions.folderTrust.addTrusted`.
#[derive(Debug, Clone)]
pub struct PermissionsFolderTrustAddTrustedResult {
    /// Whether the operation succeeded.
    pub success: bool,
}

/// Tool approval to persist for a location.
#[derive(Debug, Clone)]
pub enum PermissionsLocationsAddToolApprovalDetails {
    /// Approval scoped to specific command identifiers.
    Commands {
        /// Command identifiers covered by this approval.
        command_identifiers: Vec<String>,
    },
    /// Approval covering read-only filesystem operations.
    Read,
    /// Approval covering filesystem write operations.
    Write,
    /// Approval covering an MCP tool.
    Mcp {
        /// MCP server name.
        server_name: String,
        /// MCP tool name, or `None` to cover every tool on the server.
        tool_name: Option<String>,
    },
    /// Approval covering MCP sampling requests for a server.
    McpSampling {
        /// MCP server name.
        server_name: String,
    },
    /// Approval covering writes to long-term memory.
    Memory,
    /// Approval covering a custom tool.
    CustomTool {
        /// Custom tool name.
        tool_name: String,
    },
    /// Approval covering extension lifecycle operations.
    ExtensionManagement {
        /// Optional operation identifier.
        operation: Option<String>,
    },
    /// Approval covering an extension's permission-gated capability access.
    ExtensionPermissionAccess {
        /// Extension name.
        extension_name: String,
    },
}

/// Parameters for adding a location-scoped tool approval.
#[derive(Debug, Clone)]
pub struct PermissionsLocationsAddToolApprovalParams {
    /// Location key to persist the approval to.
    pub location_key: String,
    /// Tool approval to persist and apply.
    pub approval: PermissionsLocationsAddToolApprovalDetails,
}

/// Result for `session.permissions.locations.addToolApproval`.
#[derive(Debug, Clone)]
pub struct PermissionsLocationsAddToolApprovalResult {
    /// Whether the operation succeeded.
    pub success: bool,
}

/// Parameters for `session.permissions.modifyRules`.
#[derive(Debug, Clone)]
pub struct PermissionsModifyRulesParams {
    /// Whether the change applies to session-scoped or persisted location-scoped rules.
    pub scope: PermissionsModifyRulesScope,
    /// Rules to add before removals are processed.
    pub add: Option<Vec<PermissionRule>>,
    /// Specific rules to remove from the scope.
    pub remove: Option<Vec<PermissionRule>>,
    /// Whether every rule in the scope should be removed.
    pub remove_all: Option<bool>,
}

/// Result for `session.permissions.modifyRules`.
#[derive(Debug, Clone)]
pub struct PermissionsModifyRulesResult {
    /// Whether the operation succeeded.
    pub success: bool,
}

/// Scope for permission rule modifications.
#[derive(Debug, Clone)]
pub enum PermissionsModifyRulesScope {
    /// Apply the rule change only to the active session.
    Session,
    /// Persist the rule change for the current project location.
    Location,
}

/// Result for `session.permissions.notifyPromptShown`.
#[derive(Debug, Clone)]
pub struct PermissionsNotifyPromptShownResult {
    /// Whether the operation succeeded.
    pub success: bool,
}

/// Result for `session.permissions.paths.add`.
#[derive(Debug, Clone)]
pub struct PermissionsPathsAddResult {
    /// Whether the operation succeeded.
    pub success: bool,
}

/// Result for `session.permissions.paths.updatePrimary`.
#[derive(Debug, Clone)]
pub struct PermissionsPathsUpdatePrimaryResult {
    /// Whether the operation succeeded.
    pub success: bool,
}

/// Result for `session.permissions.resetSessionApprovals`.
#[derive(Debug, Clone)]
pub struct PermissionsResetSessionApprovalsResult {
    /// Whether the operation succeeded.
    pub success: bool,
}

/// Source for allow-all telemetry.
#[derive(Debug, Clone)]
pub enum PermissionsSetAllowAllSource {
    /// Allow-all was enabled from a CLI command-line flag.
    CliFlag,
    /// Allow-all was enabled by a slash command.
    SlashCommand,
    /// Allow-all was enabled after the user confirmed autopilot behavior.
    AutopilotConfirmation,
    /// Allow-all was enabled through an RPC caller.
    Rpc,
}

/// Result for `session.permissions.setApproveAll`.
#[derive(Debug, Clone)]
pub struct PermissionsSetApproveAllResult {
    /// Whether the operation succeeded.
    pub success: bool,
}

/// Source for approve-all telemetry.
#[derive(Debug, Clone)]
pub enum PermissionsSetApproveAllSource {
    /// Allow-all was enabled from a CLI command-line flag.
    CliFlag,
    /// Allow-all was enabled by a slash command.
    SlashCommand,
    /// Allow-all was enabled after the user confirmed autopilot behavior.
    AutopilotConfirmation,
    /// Allow-all was enabled through an RPC caller.
    Rpc,
}

/// Result for `session.permissions.setRequired`.
#[derive(Debug, Clone)]
pub struct PermissionsSetRequiredResult {
    /// Whether the operation succeeded.
    pub success: bool,
}

/// Result for `session.permissions.urls.setUnrestrictedMode`.
#[derive(Debug, Clone)]
pub struct PermissionsUrlsSetUnrestrictedModeResult {
    /// Whether the operation succeeded.
    pub success: bool,
}

} // verus!
