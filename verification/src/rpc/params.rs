//! The parameters of the runtime's RPC methods and the wire objects of the
//! request types they carry: what each namespace method sends, with the
//! session's id added where the method is session-scoped.
use crate::json::{empty_object, set_field, JsonValue, JsonView};
use crate::requests::opt_set;
use crate::rpc::canvas::{UiUserInputResponse, WorkspaceDiffMode};
use crate::rpc::client_mcp::{AgentRegistrySpawnPermissionMode, AgentRegistrySpawnRequest, ConnectRequest, McpConfigDisableRequest, McpConfigEnableRequest, McpConfigRemoveRequest, McpDiscoverRequest, SecretsAddFilterValuesRequest, SkillsConfigSetDisabledSkillsRequest, SkillsDiscoverRequest};
use crate::rpc::history::{SessionRpcEventLogReadOptions, SessionRpcEventsAgentScope, SessionRpcModelListOptions, SessionRpcRemoteEnableOptions, SessionRpcRemoteSessionMode};
use crate::rpc::mcp::{McpSetEnvValueModeDetails};
use crate::rpc::metadata::{SessionWorkingDirectoryContext, SessionWorkingDirectoryContextHostType};
use crate::rpc::permissions::{PermissionRule, PermissionsModifyRulesParams, PermissionsModifyRulesScope, PermissionsSetAllowAllSource, PermissionsSetApproveAllSource};
use crate::rpc::sessions::{ConnectRemoteSessionParams, InstalledPlugin, SessionContext, SessionContextHostType, SessionListFilter, SessionMetadata, SessionsBulkDeleteRequest, SessionsCheckInUseRequest, SessionsCloseRequest, SessionsEnrichMetadataRequest, SessionsFindByPrefixRequest, SessionsFindByTaskIdRequest, SessionsForkRequest, SessionsGetEventFilePathRequest, SessionsGetLastForContextRequest, SessionsGetPersistedRemoteSteerableRequest, SessionsListRequest, SessionsLoadDeferredRepoHooksRequest, SessionsPruneOldRequest, SessionsReleaseLockRequest, SessionsReloadPluginHooksRequest, SessionsSaveRequest, SessionsSetAdditionalPluginsRequest};
use crate::rpc::skills::{CommandsListRequest, QueuedCommandResult};
use vstd::prelude::*;

verus! {

/// The model of an optional text argument.
pub open spec fn opt_str_view(o: Option<&str>) -> Option<Seq<char>> {
    match o {
        Some(t) => Some(t@),
        None => None,
    }
}

/// An optional reference read as an optional value.
pub open spec fn opt_deref<T>(o: Option<&T>) -> Option<T> {
    match o {
        Some(x) => Some(*x),
        None => None,
    }
}

// =============================================================================
// Wire objects of request types
// =============================================================================

/// The wire name of a `AgentRegistrySpawnPermissionMode`.
pub open spec fn agent_registry_spawn_permission_mode_name(v: AgentRegistrySpawnPermissionMode) -> Seq<char> {
    match v {
        AgentRegistrySpawnPermissionMode::Default => "default"@,
        AgentRegistrySpawnPermissionMode::Yolo => "yolo"@,
    }
}

fn agent_registry_spawn_permission_mode_str(v: &AgentRegistrySpawnPermissionMode) -> (r: &'static str)
    ensures
        r@ == agent_registry_spawn_permission_mode_name(*v),
{
    match v {
        AgentRegistrySpawnPermissionMode::Default => "default",
        AgentRegistrySpawnPermissionMode::Yolo => "yolo",
    }
}

/// The wire object of a `AgentRegistrySpawnRequest`.
pub open spec fn agent_registry_spawn_request_wire(x: AgentRegistrySpawnRequest) -> JsonView {
    let p = empty_object();
    let p = set_field(p, "cwd"@, JsonView::Str(x.cwd@));
    let p = opt_set(p, "agentName"@, match x.agent_name { Some(v) => Some(JsonView::Str(v@)), None => None });
    let p = opt_set(p, "model"@, match x.model { Some(v) => Some(JsonView::Str(v@)), None => None });
    let p = opt_set(p, "name"@, match x.name { Some(v) => Some(JsonView::Str(v@)), None => None });
    let p = opt_set(p, "permissionMode"@, match x.permission_mode { Some(v) => Some(JsonView::Str(agent_registry_spawn_permission_mode_name(v))), None => None });
    let p = opt_set(p, "initialPrompt"@, match x.initial_prompt { Some(v) => Some(JsonView::Str(v@)), None => None });
    p
}

impl AgentRegistrySpawnRequest {
    /// The wire object of this value.
    pub fn to_json(&self) -> (r: JsonValue)
        ensures
            r@ == agent_registry_spawn_request_wire(*self),
    {
        let mut p = JsonValue::object();
        p.set("cwd", JsonValue::string(self.cwd.as_str()));
        match &self.agent_name {
            Some(v) => p.set("agentName", JsonValue::string(v.as_str())),
            None => {},
        }
        match &self.model {
            Some(v) => p.set("model", JsonValue::string(v.as_str())),
            None => {},
        }
        match &self.name {
            Some(v) => p.set("name", JsonValue::string(v.as_str())),
            None => {},
        }
        match &self.permission_mode {
            Some(v) => p.set("permissionMode", JsonValue::string(agent_registry_spawn_permission_mode_str(v))),
            None => {},
        }
        match &self.initial_prompt {
            Some(v) => p.set("initialPrompt", JsonValue::string(v.as_str())),
            None => {},
        }
        p
    }
}

/// The wire object of a `CommandsListRequest`.
pub open spec fn commands_list_request_wire(x: CommandsListRequest) -> JsonView {
    let p = empty_object();
    let p = opt_set(p, "includeBuiltins"@, match x.include_builtins { Some(v) => Some(JsonView::Bool(v)), None => None });
    let p = opt_set(p, "includeSkills"@, match x.include_skills { Some(v) => Some(JsonView::Bool(v)), None => None });
    let p = opt_set(p, "includeClientCommands"@, match x.include_client_commands { Some(v) => Some(JsonView::Bool(v)), None => None });
    p
}

impl CommandsListRequest {
    /// The wire object of this value.
    pub fn to_json(&self) -> (r: JsonValue)
        ensures
            r@ == commands_list_request_wire(*self),
    {
        let mut p = JsonValue::object();
        match &self.include_builtins {
            Some(v) => p.set("includeBuiltins", JsonValue::Bool(*v)),
            None => {},
        }
        match &self.include_skills {
            Some(v) => p.set("includeSkills", JsonValue::Bool(*v)),
            None => {},
        }
        match &self.include_client_commands {
            Some(v) => p.set("includeClientCommands", JsonValue::Bool(*v)),
            None => {},
        }
        p
    }
}

/// The wire object of a `ConnectRemoteSessionParams`.
pub open spec fn connect_remote_session_params_wire(x: ConnectRemoteSessionParams) -> JsonView {
    let p = empty_object();
    let p = set_field(p, "sessionId"@, JsonView::Str(x.session_id@));
    p
}

impl ConnectRemoteSessionParams {
    /// The wire object of this value.
    pub fn to_json(&self) -> (r: JsonValue)
        ensures
            r@ == connect_remote_session_params_wire(*self),
    {
        let mut p = JsonValue::object();
        p.set("sessionId", JsonValue::string(self.session_id.as_str()));
        p
    }
}

/// The wire object of a `ConnectRequest`.
pub open spec fn connect_request_wire(x: ConnectRequest) -> JsonView {
    let p = empty_object();
    let p = opt_set(p, "token"@, match x.token { Some(v) => Some(JsonView::Str(v@)), None => None });
    p
}

impl ConnectRequest {
    /// The wire object of this value.
    pub fn to_json(&self) -> (r: JsonValue)
        ensures
            r@ == connect_request_wire(*self),
    {
        let mut p = JsonValue::object();
        match &self.token {
            Some(v) => p.set("token", JsonValue::string(v.as_str())),
            None => {},
        }
        p
    }
}

/// The wire object of a `InstalledPlugin`.
pub open spec fn installed_plugin_wire(x: InstalledPlugin) -> JsonView {
    let p = empty_object();
    let p = set_field(p, "name"@, JsonView::Str(x.name@));
    let p = set_field(p, "marketplace"@, JsonView::Str(x.marketplace@));
    let p = opt_set(p, "version"@, match x.version { Some(v) => Some(JsonView::Str(v@)), None => None });
    let p = set_field(p, "installed_at"@, JsonView::Str(x.installed_at@));
    let p = set_field(p, "enabled"@, JsonView::Bool(x.enabled));
    let p = opt_set(p, "cache_path"@, match x.cache_path { Some(v) => Some(JsonView::Str(v@)), None => None });
    let p = opt_set(p, "source"@, match x.source { Some(v) => Some(v@), None => None });
    p
}

impl InstalledPlugin {
    /// The wire object of this value.
    pub fn to_json(&self) -> (r: JsonValue)
        ensures
            r@ == installed_plugin_wire(*self),
    {
        let mut p = JsonValue::object();
        p.set("name", JsonValue::string(self.name.as_str()));
        p.set("marketplace", JsonValue::string(self.marketplace.as_str()));
        match &self.version {
            Some(v) => p.set("version", JsonValue::string(v.as_str())),
            None => {},
        }
        p.set("installed_at", JsonValue::string(self.installed_at.as_str()));
        p.set("enabled", JsonValue::Bool(self.enabled));
        match &self.cache_path {
            Some(v) => p.set("cache_path", JsonValue::string(v.as_str())),
            None => {},
        }
        match &self.source {
            Some(v) => p.set("source", v.deep_clone()),
            None => {},
        }
        p
    }
}

/// The wire object of a `McpConfigDisableRequest`.
pub open spec fn mcp_config_disable_request_wire(x: McpConfigDisableRequest) -> JsonView {
    let p = empty_object();
    let p = set_field(p, "names"@, crate::requests::texts_array(x.names@));
    p
}

impl McpConfigDisableRequest {
    /// The wire object of this value.
    pub fn to_json(&self) -> (r: JsonValue)
        ensures
            r@ == mcp_config_disable_request_wire(*self),
    {
        let mut p = JsonValue::object();
        p.set("names", crate::requests::texts_json(&self.names));
        p
    }
}

/// The wire object of a `McpConfigEnableRequest`.
pub open spec fn mcp_config_enable_request_wire(x: McpConfigEnableRequest) -> JsonView {
    let p = empty_object();
    let p = set_field(p, "names"@, crate::requests::texts_array(x.names@));
    p
}

impl McpConfigEnableRequest {
    /// The wire object of this value.
    pub fn to_json(&self) -> (r: JsonValue)
        ensures
            r@ == mcp_config_enable_request_wire(*self),
    {
        let mut p = JsonValue::object();
        p.set("names", crate::requests::texts_json(&self.names));
        p
    }
}

/// The wire object of a `McpConfigRemoveRequest`.
pub open spec fn mcp_config_remove_request_wire(x: McpConfigRemoveRequest) -> JsonView {
    let p = empty_object();
    let p = set_field(p, "name"@, JsonView::Str(x.name@));
    p
}

impl McpConfigRemoveRequest {
    /// The wire object of this value.
    pub fn to_json(&self) -> (r: JsonValue)
        ensures
            r@ == mcp_config_remove_request_wire(*self),
    {
        let mut p = JsonValue::object();
        p.set("name", JsonValue::string(self.name.as_str()));
        p
    }
}

/// The wire object of a `McpDiscoverRequest`.
pub open spec fn mcp_discover_request_wire(x: McpDiscoverRequest) -> JsonView {
    let p = empty_object();
    let p = opt_set(p, "workingDirectory"@, match x.working_directory { Some(v) => Some(JsonView::Str(v@)), None => None });
    p
}

impl McpDiscoverRequest {
    /// The wire object of this value.
    pub fn to_json(&self) -> (r: JsonValue)
        ensures
            r@ == mcp_discover_request_wire(*self),
    {
        let mut p = JsonValue::object();
        match &self.working_directory {
            Some(v) => p.set("workingDirectory", JsonValue::string(v.as_str())),
            None => {},
        }
        p
    }
}

/// The wire name of a `McpSetEnvValueModeDetails`.
pub open spec fn mcp_set_env_value_mode_details_name(v: McpSetEnvValueModeDetails) -> Seq<char> {
    match v {
        McpSetEnvValueModeDetails::Direct => "direct"@,
        McpSetEnvValueModeDetails::Indirect => "indirect"@,
    }
}

fn mcp_set_env_value_mode_details_str(v: &McpSetEnvValueModeDetails) -> (r: &'static str)
    ensures
        r@ == mcp_set_env_value_mode_details_name(*v),
{
    match v {
        McpSetEnvValueModeDetails::Direct => "direct",
        McpSetEnvValueModeDetails::Indirect => "indirect",
    }
}

/// The wire object of a `PermissionRule`.
pub open spec fn permission_rule_wire(x: PermissionRule) -> JsonView {
    let p = empty_object();
    let p = set_field(p, "kind"@, JsonView::Str(x.kind@));
    let p = set_field(p, "argument"@, match x.argument { Some(v) => JsonView::Str(v@), None => JsonView::Null });
    p
}

impl PermissionRule {
    /// The wire object of this value.
    pub fn to_json(&self) -> (r: JsonValue)
        ensures
            r@ == permission_rule_wire(*self),
    {
        let mut p = JsonValue::object();
        p.set("kind", JsonValue::string(self.kind.as_str()));
        match &self.argument {
            Some(v) => p.set("argument", JsonValue::string(v.as_str())),
            None => p.set("argument", JsonValue::Null),
        }
        p
    }
}

/// The wire object of a `PermissionsModifyRulesParams`.
pub open spec fn permissions_modify_rules_params_wire(x: PermissionsModifyRulesParams) -> JsonView {
    let p = empty_object();
    let p = set_field(p, "scope"@, JsonView::Str(permissions_modify_rules_scope_name(x.scope)));
    let p = opt_set(p, "add"@, match x.add { Some(v) => Some(JsonView::Array(v@.map_values(|x: PermissionRule| permission_rule_wire(x)))), None => None });
    let p = opt_set(p, "remove"@, match x.remove { Some(v) => Some(JsonView::Array(v@.map_values(|x: PermissionRule| permission_rule_wire(x)))), None => None });
    let p = opt_set(p, "removeAll"@, match x.remove_all { Some(v) => Some(JsonView::Bool(v)), None => None });
    p
}

impl PermissionsModifyRulesParams {
    /// The wire object of this value.
    pub fn to_json(&self) -> (r: JsonValue)
        ensures
            r@ == permissions_modify_rules_params_wire(*self),
    {
        let mut p = JsonValue::object();
        p.set("scope", JsonValue::string(permissions_modify_rules_scope_str(&self.scope)));
        match &self.add {
            Some(v) => p.set("add", permission_rule_list_json(v)),
            None => {},
        }
        match &self.remove {
            Some(v) => p.set("remove", permission_rule_list_json(v)),
            None => {},
        }
        match &self.remove_all {
            Some(v) => p.set("removeAll", JsonValue::Bool(*v)),
            None => {},
        }
        p
    }
}

/// The wire name of a `PermissionsModifyRulesScope`.
pub open spec fn permissions_modify_rules_scope_name(v: PermissionsModifyRulesScope) -> Seq<char> {
    match v {
        PermissionsModifyRulesScope::Session => "session"@,
        PermissionsModifyRulesScope::Location => "location"@,
    }
}

fn permissions_modify_rules_scope_str(v: &PermissionsModifyRulesScope) -> (r: &'static str)
    ensures
        r@ == permissions_modify_rules_scope_name(*v),
{
    match v {
        PermissionsModifyRulesScope::Session => "session",
        PermissionsModifyRulesScope::Location => "location",
    }
}

/// The wire name of a `PermissionsSetAllowAllSource`.
pub open spec fn permissions_set_allow_all_source_name(v: PermissionsSetAllowAllSource) -> Seq<char> {
    match v {
        PermissionsSetAllowAllSource::CliFlag => "cli_flag"@,
        PermissionsSetAllowAllSource::SlashCommand => "slash_command"@,
        PermissionsSetAllowAllSource::AutopilotConfirmation => "autopilot_confirmation"@,
        PermissionsSetAllowAllSource::Rpc => "rpc"@,
    }
}

fn permissions_set_allow_all_source_str(v: &PermissionsSetAllowAllSource) -> (r: &'static str)
    ensures
        r@ == permissions_set_allow_all_source_name(*v),
{
    match v {
        PermissionsSetAllowAllSource::CliFlag => "cli_flag",
        PermissionsSetAllowAllSource::SlashCommand => "slash_command",
        PermissionsSetAllowAllSource::AutopilotConfirmation => "autopilot_confirmation",
        PermissionsSetAllowAllSource::Rpc => "rpc",
    }
}

/// The wire name of a `PermissionsSetApproveAllSource`.
pub open spec fn permissions_set_approve_all_source_name(v: PermissionsSetApproveAllSource) -> Seq<char> {
    match v {
        PermissionsSetApproveAllSource::CliFlag => "cli_flag"@,
        PermissionsSetApproveAllSource::SlashCommand => "slash_command"@,
        PermissionsSetApproveAllSource::AutopilotConfirmation => "autopilot_confirmation"@,
        PermissionsSetApproveAllSource::Rpc => "rpc"@,
    }
}

fn permissions_set_approve_all_source_str(v: &PermissionsSetApproveAllSource) -> (r: &'static str)
    ensures
        r@ == permissions_set_approve_all_source_name(*v),
{
    match v {
        PermissionsSetApproveAllSource::CliFlag => "cli_flag",
        PermissionsSetApproveAllSource::SlashCommand => "slash_command",
        PermissionsSetApproveAllSource::AutopilotConfirmation => "autopilot_confirmation",
        PermissionsSetApproveAllSource::Rpc => "rpc",
    }
}

/// The wire object of a `SecretsAddFilterValuesRequest`.
pub open spec fn secrets_add_filter_values_request_wire(x: SecretsAddFilterValuesRequest) -> JsonView {
    let p = empty_object();
    let p = set_field(p, "values"@, crate::requests::texts_array(x.values@));
    p
}

impl SecretsAddFilterValuesRequest {
    /// The wire object of this value.
    pub fn to_json(&self) -> (r: JsonValue)
        ensures
            r@ == secrets_add_filter_values_request_wire(*self),
    {
        let mut p = JsonValue::object();
        p.set("values", crate::requests::texts_json(&self.values));
        p
    }
}

/// The wire object of a `SessionContext`.
pub open spec fn session_context_wire(x: SessionContext) -> JsonView {
    let p = empty_object();
    let p = set_field(p, "cwd"@, JsonView::Str(x.cwd@));
    let p = opt_set(p, "gitRoot"@, match x.git_root { Some(v) => Some(JsonView::Str(v@)), None => None });
    let p = opt_set(p, "repository"@, match x.repository { Some(v) => Some(JsonView::Str(v@)), None => None });
    let p = opt_set(p, "hostType"@, match x.host_type { Some(v) => Some(JsonView::Str(session_context_host_type_name(v))), None => None });
    let p = opt_set(p, "branch"@, match x.branch { Some(v) => Some(JsonView::Str(v@)), None => None });
    p
}

impl SessionContext {
    /// The wire object of this value.
    pub fn to_json(&self) -> (r: JsonValue)
        ensures
            r@ == session_context_wire(*self),
    {
        let mut p = JsonValue::object();
        p.set("cwd", JsonValue::string(self.cwd.as_str()));
        match &self.git_root {
            Some(v) => p.set("gitRoot", JsonValue::string(v.as_str())),
            None => {},
        }
        match &self.repository {
            Some(v) => p.set("repository", JsonValue::string(v.as_str())),
            None => {},
        }
        match &self.host_type {
            Some(v) => p.set("hostType", JsonValue::string(session_context_host_type_str(v))),
            None => {},
        }
        match &self.branch {
            Some(v) => p.set("branch", JsonValue::string(v.as_str())),
            None => {},
        }
        p
    }
}

/// The wire name of a `SessionContextHostType`.
pub open spec fn session_context_host_type_name(v: SessionContextHostType) -> Seq<char> {
    match v {
        SessionContextHostType::Github => "github"@,
        SessionContextHostType::Ado => "ado"@,
    }
}

fn session_context_host_type_str(v: &SessionContextHostType) -> (r: &'static str)
    ensures
        r@ == session_context_host_type_name(*v),
{
    match v {
        SessionContextHostType::Github => "github",
        SessionContextHostType::Ado => "ado",
    }
}

/// The wire object of a `SessionListFilter`.
pub open spec fn session_list_filter_wire(x: SessionListFilter) -> JsonView {
    let p = empty_object();
    let p = opt_set(p, "cwd"@, match x.cwd { Some(v) => Some(JsonView::Str(v@)), None => None });
    let p = opt_set(p, "gitRoot"@, match x.git_root { Some(v) => Some(JsonView::Str(v@)), None => None });
    let p = opt_set(p, "repository"@, match x.repository { Some(v) => Some(JsonView::Str(v@)), None => None });
    let p = opt_set(p, "branch"@, match x.branch { Some(v) => Some(JsonView::Str(v@)), None => None });
    p
}

impl SessionListFilter {
    /// The wire object of this value.
    pub fn to_json(&self) -> (r: JsonValue)
        ensures
            r@ == session_list_filter_wire(*self),
    {
        let mut p = JsonValue::object();
        match &self.cwd {
            Some(v) => p.set("cwd", JsonValue::string(v.as_str())),
            None => {},
        }
        match &self.git_root {
            Some(v) => p.set("gitRoot", JsonValue::string(v.as_str())),
            None => {},
        }
        match &self.repository {
            Some(v) => p.set("repository", JsonValue::string(v.as_str())),
            None => {},
        }
        match &self.branch {
            Some(v) => p.set("branch", JsonValue::string(v.as_str())),
            None => {},
        }
        p
    }
}

/// The wire object of a `SessionMetadata`.
pub open spec fn session_metadata_wire(x: SessionMetadata) -> JsonView {
    let p = empty_object();
    let p = set_field(p, "sessionId"@, JsonView::Str(x.session_id@));
    let p = set_field(p, "startTime"@, JsonView::Str(x.start_time@));
    let p = set_field(p, "modifiedTime"@, JsonView::Str(x.modified_time@));
    let p = opt_set(p, "summary"@, match x.summary { Some(v) => Some(JsonView::Str(v@)), None => None });
    let p = opt_set(p, "name"@, match x.name { Some(v) => Some(JsonView::Str(v@)), None => None });
    let p = opt_set(p, "clientName"@, match x.client_name { Some(v) => Some(JsonView::Str(v@)), None => None });
    let p = set_field(p, "isRemote"@, JsonView::Bool(x.is_remote));
    let p = opt_set(p, "isDetached"@, match x.is_detached { Some(v) => Some(JsonView::Bool(v)), None => None });
    let p = opt_set(p, "context"@, match x.context { Some(v) => Some(session_context_wire(v)), None => None });
    let p = opt_set(p, "mcTaskId"@, match x.mc_task_id { Some(v) => Some(JsonView::Str(v@)), None => None });
    p
}

impl SessionMetadata {
    /// The wire object of this value.
    pub fn to_json(&self) -> (r: JsonValue)
        ensures
            r@ == session_metadata_wire(*self),
    {
        let mut p = JsonValue::object();
        p.set("sessionId", JsonValue::string(self.session_id.as_str()));
        p.set("startTime", JsonValue::string(self.start_time.as_str()));
        p.set("modifiedTime", JsonValue::string(self.modified_time.as_str()));
        match &self.summary {
            Some(v) => p.set("summary", JsonValue::string(v.as_str())),
            None => {},
        }
        match &self.name {
            Some(v) => p.set("name", JsonValue::string(v.as_str())),
            None => {},
        }
        match &self.client_name {
            Some(v) => p.set("clientName", JsonValue::string(v.as_str())),
            None => {},
        }
        p.set("isRemote", JsonValue::Bool(self.is_remote));
        match &self.is_detached {
            Some(v) => p.set("isDetached", JsonValue::Bool(*v)),
            None => {},
        }
        match &self.context {
            Some(v) => p.set("context", v.to_json()),
            None => {},
        }
        match &self.mc_task_id {
            Some(v) => p.set("mcTaskId", JsonValue::string(v.as_str())),
            None => {},
        }
        p
    }
}

/// The wire object of a `SessionRpcEventLogReadOptions`.
pub open spec fn session_rpc_event_log_read_options_wire(x: SessionRpcEventLogReadOptions) -> JsonView {
    let p = empty_object();
    let p = opt_set(p, "cursor"@, match x.cursor { Some(v) => Some(JsonView::Str(v@)), None => None });
    let p = opt_set(p, "max"@, match x.max { Some(v) => Some(JsonView::Number(crate::json::decimal_text(v as nat))), None => None });
    let p = opt_set(p, "waitMs"@, match x.wait_ms { Some(v) => Some(JsonView::Number(crate::json::decimal_text(v as nat))), None => None });
    let p = opt_set(p, "types"@, match x.types { Some(v) => Some(v@), None => None });
    let p = opt_set(p, "agentScope"@, match x.agent_scope { Some(v) => Some(JsonView::Str(session_rpc_events_agent_scope_name(v))), None => None });
    p
}

impl SessionRpcEventLogReadOptions {
    /// The wire object of this value.
    pub fn to_json(&self) -> (r: JsonValue)
        ensures
            r@ == session_rpc_event_log_read_options_wire(*self),
    {
        let mut p = JsonValue::object();
        match &self.cursor {
            Some(v) => p.set("cursor", JsonValue::string(v.as_str())),
            None => {},
        }
        match &self.max {
            Some(v) => p.set("max", JsonValue::from_u64(*v)),
            None => {},
        }
        match &self.wait_ms {
            Some(v) => p.set("waitMs", JsonValue::from_u64(*v)),
            None => {},
        }
        match &self.types {
            Some(v) => p.set("types", v.deep_clone()),
            None => {},
        }
        match &self.agent_scope {
            Some(v) => p.set("agentScope", JsonValue::string(session_rpc_events_agent_scope_str(v))),
            None => {},
        }
        p
    }
}

/// The wire name of a `SessionRpcEventsAgentScope`.
pub open spec fn session_rpc_events_agent_scope_name(v: SessionRpcEventsAgentScope) -> Seq<char> {
    match v {
        SessionRpcEventsAgentScope::Primary => "primary"@,
        SessionRpcEventsAgentScope::All => "all"@,
    }
}

fn session_rpc_events_agent_scope_str(v: &SessionRpcEventsAgentScope) -> (r: &'static str)
    ensures
        r@ == session_rpc_events_agent_scope_name(*v),
{
    match v {
        SessionRpcEventsAgentScope::Primary => "primary",
        SessionRpcEventsAgentScope::All => "all",
    }
}

/// The wire object of a `SessionRpcModelListOptions`.
pub open spec fn session_rpc_model_list_options_wire(x: SessionRpcModelListOptions) -> JsonView {
    let p = empty_object();
    let p = opt_set(p, "skipCache"@, match x.skip_cache { Some(v) => Some(JsonView::Bool(v)), None => None });
    p
}

impl SessionRpcModelListOptions {
    /// The wire object of this value.
    pub fn to_json(&self) -> (r: JsonValue)
        ensures
            r@ == session_rpc_model_list_options_wire(*self),
    {
        let mut p = JsonValue::object();
        match &self.skip_cache {
            Some(v) => p.set("skipCache", JsonValue::Bool(*v)),
            None => {},
        }
        p
    }
}

/// The wire object of a `SessionRpcRemoteEnableOptions`.
pub open spec fn session_rpc_remote_enable_options_wire(x: SessionRpcRemoteEnableOptions) -> JsonView {
    let p = empty_object();
    let p = opt_set(p, "mode"@, match x.mode { Some(v) => Some(JsonView::Str(session_rpc_remote_session_mode_name(v))), None => None });
    p
}

impl SessionRpcRemoteEnableOptions {
    /// The wire object of this value.
    pub fn to_json(&self) -> (r: JsonValue)
        ensures
            r@ == session_rpc_remote_enable_options_wire(*self),
    {
        let mut p = JsonValue::object();
        match &self.mode {
            Some(v) => p.set("mode", JsonValue::string(session_rpc_remote_session_mode_str(v))),
            None => {},
        }
        p
    }
}

/// The wire name of a `SessionRpcRemoteSessionMode`.
pub open spec fn session_rpc_remote_session_mode_name(v: SessionRpcRemoteSessionMode) -> Seq<char> {
    match v {
        SessionRpcRemoteSessionMode::Off => "off"@,
        SessionRpcRemoteSessionMode::Export => "export"@,
        SessionRpcRemoteSessionMode::On => "on"@,
    }
}

fn session_rpc_remote_session_mode_str(v: &SessionRpcRemoteSessionMode) -> (r: &'static str)
    ensures
        r@ == session_rpc_remote_session_mode_name(*v),
{
    match v {
        SessionRpcRemoteSessionMode::Off => "off",
        SessionRpcRemoteSessionMode::Export => "export",
        SessionRpcRemoteSessionMode::On => "on",
    }
}

/// The wire object of a `SessionWorkingDirectoryContext`.
pub open spec fn session_working_directory_context_wire(x: SessionWorkingDirectoryContext) -> JsonView {
    let p = empty_object();
    let p = set_field(p, "cwd"@, JsonView::Str(x.cwd@));
    let p = opt_set(p, "gitRoot"@, match x.git_root { Some(v) => Some(JsonView::Str(v@)), None => None });
    let p = opt_set(p, "repository"@, match x.repository { Some(v) => Some(JsonView::Str(v@)), None => None });
    let p = opt_set(p, "hostType"@, match x.host_type { Some(v) => Some(JsonView::Str(session_working_directory_context_host_type_name(v))), None => None });
    let p = opt_set(p, "repositoryHost"@, match x.repository_host { Some(v) => Some(JsonView::Str(v@)), None => None });
    let p = opt_set(p, "branch"@, match x.branch { Some(v) => Some(JsonView::Str(v@)), None => None });
    let p = opt_set(p, "headCommit"@, match x.head_commit { Some(v) => Some(JsonView::Str(v@)), None => None });
    let p = opt_set(p, "baseCommit"@, match x.base_commit { Some(v) => Some(JsonView::Str(v@)), None => None });
    p
}

impl SessionWorkingDirectoryContext {
    /// The wire object of this value.
    pub fn to_json(&self) -> (r: JsonValue)
        ensures
            r@ == session_working_directory_context_wire(*self),
    {
        let mut p = JsonValue::object();
        p.set("cwd", JsonValue::string(self.cwd.as_str()));
        match &self.git_root {
            Some(v) => p.set("gitRoot", JsonValue::string(v.as_str())),
            None => {},
        }
        match &self.repository {
            Some(v) => p.set("repository", JsonValue::string(v.as_str())),
            None => {},
        }
        match &self.host_type {
            Some(v) => p.set("hostType", JsonValue::string(session_working_directory_context_host_type_str(v))),
            None => {},
        }
        match &self.repository_host {
            Some(v) => p.set("repositoryHost", JsonValue::string(v.as_str())),
            None => {},
        }
        match &self.branch {
            Some(v) => p.set("branch", JsonValue::string(v.as_str())),
            None => {},
        }
        match &self.head_commit {
            Some(v) => p.set("headCommit", JsonValue::string(v.as_str())),
            None => {},
        }
        match &self.base_commit {
            Some(v) => p.set("baseCommit", JsonValue::string(v.as_str())),
            None => {},
        }
        p
    }
}

/// The wire name of a `SessionWorkingDirectoryContextHostType`.
pub open spec fn session_working_directory_context_host_type_name(v: SessionWorkingDirectoryContextHostType) -> Seq<char> {
    match v {
        SessionWorkingDirectoryContextHostType::Github => "github"@,
        SessionWorkingDirectoryContextHostType::Ado => "ado"@,
    }
}

fn session_working_directory_context_host_type_str(v: &SessionWorkingDirectoryContextHostType) -> (r: &'static str)
    ensures
        r@ == session_working_directory_context_host_type_name(*v),
{
    match v {
        SessionWorkingDirectoryContextHostType::Github => "github",
        SessionWorkingDirectoryContextHostType::Ado => "ado",
    }
}

/// The wire object of a `SessionsBulkDeleteRequest`.
pub open spec fn sessions_bulk_delete_request_wire(x: SessionsBulkDeleteRequest) -> JsonView {
    let p = empty_object();
    let p = set_field(p, "sessionIds"@, crate::requests::texts_array(x.session_ids@));
    p
}

impl SessionsBulkDeleteRequest {
    /// The wire object of this value.
    pub fn to_json(&self) -> (r: JsonValue)
        ensures
            r@ == sessions_bulk_delete_request_wire(*self),
    {
        let mut p = JsonValue::object();
        p.set("sessionIds", crate::requests::texts_json(&self.session_ids));
        p
    }
}

/// The wire object of a `SessionsCheckInUseRequest`.
pub open spec fn sessions_check_in_use_request_wire(x: SessionsCheckInUseRequest) -> JsonView {
    let p = empty_object();
    let p = set_field(p, "sessionIds"@, crate::requests::texts_array(x.session_ids@));
    p
}

impl SessionsCheckInUseRequest {
    /// The wire object of this value.
    pub fn to_json(&self) -> (r: JsonValue)
        ensures
            r@ == sessions_check_in_use_request_wire(*self),
    {
        let mut p = JsonValue::object();
        p.set("sessionIds", crate::requests::texts_json(&self.session_ids));
        p
    }
}

/// The wire object of a `SessionsCloseRequest`.
pub open spec fn sessions_close_request_wire(x: SessionsCloseRequest) -> JsonView {
    let p = empty_object();
    let p = set_field(p, "sessionId"@, JsonView::Str(x.session_id@));
    p
}

impl SessionsCloseRequest {
    /// The wire object of this value.
    pub fn to_json(&self) -> (r: JsonValue)
        ensures
            r@ == sessions_close_request_wire(*self),
    {
        let mut p = JsonValue::object();
        p.set("sessionId", JsonValue::string(self.session_id.as_str()));
        p
    }
}

/// The wire object of a `SessionsEnrichMetadataRequest`.
pub open spec fn sessions_enrich_metadata_request_wire(x: SessionsEnrichMetadataRequest) -> JsonView {
    let p = empty_object();
    let p = set_field(p, "sessions"@, JsonView::Array(x.sessions@.map_values(|x: SessionMetadata| session_metadata_wire(x))));
    p
}

impl SessionsEnrichMetadataRequest {
    /// The wire object of this value.
    pub fn to_json(&self) -> (r: JsonValue)
        ensures
            r@ == sessions_enrich_metadata_request_wire(*self),
    {
        let mut p = JsonValue::object();
        p.set("sessions", session_metadata_list_json(&self.sessions));
        p
    }
}

/// The wire object of a `SessionsFindByPrefixRequest`.
pub open spec fn sessions_find_by_prefix_request_wire(x: SessionsFindByPrefixRequest) -> JsonView {
    let p = empty_object();
    let p = set_field(p, "prefix"@, JsonView::Str(x.prefix@));
    p
}

impl SessionsFindByPrefixRequest {
    /// The wire object of this value.
    pub fn to_json(&self) -> (r: JsonValue)
        ensures
            r@ == sessions_find_by_prefix_request_wire(*self),
    {
        let mut p = JsonValue::object();
        p.set("prefix", JsonValue::string(self.prefix.as_str()));
        p
    }
}

/// The wire object of a `SessionsFindByTaskIdRequest`.
pub open spec fn sessions_find_by_task_id_request_wire(x: SessionsFindByTaskIdRequest) -> JsonView {
    let p = empty_object();
    let p = set_field(p, "taskId"@, JsonView::Str(x.task_id@));
    p
}

impl SessionsFindByTaskIdRequest {
    /// The wire object of this value.
    pub fn to_json(&self) -> (r: JsonValue)
        ensures
            r@ == sessions_find_by_task_id_request_wire(*self),
    {
        let mut p = JsonValue::object();
        p.set("taskId", JsonValue::string(self.task_id.as_str()));
        p
    }
}

/// The wire object of a `SessionsForkRequest`.
pub open spec fn sessions_fork_request_wire(x: SessionsForkRequest) -> JsonView {
    let p = empty_object();
    let p = set_field(p, "sessionId"@, JsonView::Str(x.session_id@));
    let p = opt_set(p, "toEventId"@, match x.to_event_id { Some(v) => Some(JsonView::Str(v@)), None => None });
    let p = opt_set(p, "name"@, match x.name { Some(v) => Some(JsonView::Str(v@)), None => None });
    p
}

impl SessionsForkRequest {
    /// The wire object of this value.
    pub fn to_json(&self) -> (r: JsonValue)
        ensures
            r@ == sessions_fork_request_wire(*self),
    {
        let mut p = JsonValue::object();
        p.set("sessionId", JsonValue::string(self.session_id.as_str()));
        match &self.to_event_id {
            Some(v) => p.set("toEventId", JsonValue::string(v.as_str())),
            None => {},
        }
        match &self.name {
            Some(v) => p.set("name", JsonValue::string(v.as_str())),
            None => {},
        }
        p
    }
}

/// The wire object of a `SessionsGetEventFilePathRequest`.
pub open spec fn sessions_get_event_file_path_request_wire(x: SessionsGetEventFilePathRequest) -> JsonView {
    let p = empty_object();
    let p = set_field(p, "sessionId"@, JsonView::Str(x.session_id@));
    p
}

impl SessionsGetEventFilePathRequest {
    /// The wire object of this value.
    pub fn to_json(&self) -> (r: JsonValue)
        ensures
            r@ == sessions_get_event_file_path_request_wire(*self),
    {
        let mut p = JsonValue::object();
        p.set("sessionId", JsonValue::string(self.session_id.as_str()));
        p
    }
}

/// The wire object of a `SessionsGetLastForContextRequest`.
pub open spec fn sessions_get_last_for_context_request_wire(x: SessionsGetLastForContextRequest) -> JsonView {
    let p = empty_object();
    let p = opt_set(p, "context"@, match x.context { Some(v) => Some(session_context_wire(v)), None => None });
    p
}

impl SessionsGetLastForContextRequest {
    /// The wire object of this value.
    pub fn to_json(&self) -> (r: JsonValue)
        ensures
            r@ == sessions_get_last_for_context_request_wire(*self),
    {
        let mut p = JsonValue::object();
        match &self.context {
            Some(v) => p.set("context", v.to_json()),
            None => {},
        }
        p
    }
}

/// The wire object of a `SessionsGetPersistedRemoteSteerableRequest`.
pub open spec fn sessions_get_persisted_remote_steerable_request_wire(x: SessionsGetPersistedRemoteSteerableRequest) -> JsonView {
    let p = empty_object();
    let p = set_field(p, "sessionId"@, JsonView::Str(x.session_id@));
    p
}

impl SessionsGetPersistedRemoteSteerableRequest {
    /// The wire object of this value.
    pub fn to_json(&self) -> (r: JsonValue)
        ensures
            r@ == sessions_get_persisted_remote_steerable_request_wire(*self),
    {
        let mut p = JsonValue::object();
        p.set("sessionId", JsonValue::string(self.session_id.as_str()));
        p
    }
}

/// The wire object of a `SessionsListRequest`.
pub open spec fn sessions_list_request_wire(x: SessionsListRequest) -> JsonView {
    let p = empty_object();
    let p = opt_set(p, "metadataLimit"@, match x.metadata_limit { Some(v) => Some(JsonView::Number(crate::json::decimal_text(v as nat))), None => None });
    let p = opt_set(p, "filter"@, match x.filter { Some(v) => Some(session_list_filter_wire(v)), None => None });
    let p = opt_set(p, "includeDetached"@, match x.include_detached { Some(v) => Some(JsonView::Bool(v)), None => None });
    p
}

impl SessionsListRequest {
    /// The wire object of this value.
    pub fn to_json(&self) -> (r: JsonValue)
        ensures
            r@ == sessions_list_request_wire(*self),
    {
        let mut p = JsonValue::object();
        match &self.metadata_limit {
            Some(v) => p.set("metadataLimit", JsonValue::from_u64(*v)),
            None => {},
        }
        match &self.filter {
            Some(v) => p.set("filter", v.to_json()),
            None => {},
        }
        match &self.include_detached {
            Some(v) => p.set("includeDetached", JsonValue::Bool(*v)),
            None => {},
        }
        p
    }
}

/// The wire object of a `SessionsLoadDeferredRepoHooksRequest`.
pub open spec fn sessions_load_deferred_repo_hooks_request_wire(x: SessionsLoadDeferredRepoHooksRequest) -> JsonView {
    let p = empty_object();
    let p = set_field(p, "sessionId"@, JsonView::Str(x.session_id@));
    p
}

impl SessionsLoadDeferredRepoHooksRequest {
    /// The wire object of this value.
    pub fn to_json(&self) -> (r: JsonValue)
        ensures
            r@ == sessions_load_deferred_repo_hooks_request_wire(*self),
    {
        let mut p = JsonValue::object();
        p.set("sessionId", JsonValue::string(self.session_id.as_str()));
        p
    }
}

/// The wire object of a `SessionsPruneOldRequest`.
pub open spec fn sessions_prune_old_request_wire(x: SessionsPruneOldRequest) -> JsonView {
    let p = empty_object();
    let p = set_field(p, "olderThanDays"@, JsonView::Number(crate::json::decimal_text(x.older_than_days as nat)));
    let p = opt_set(p, "dryRun"@, match x.dry_run { Some(v) => Some(JsonView::Bool(v)), None => None });
    let p = opt_set(p, "includeNamed"@, match x.include_named { Some(v) => Some(JsonView::Bool(v)), None => None });
    let p = opt_set(p, "excludeSessionIds"@, match x.exclude_session_ids { Some(v) => Some(crate::requests::texts_array(v@)), None => None });
    p
}

impl SessionsPruneOldRequest {
    /// The wire object of this value.
    pub fn to_json(&self) -> (r: JsonValue)
        ensures
            r@ == sessions_prune_old_request_wire(*self),
    {
        let mut p = JsonValue::object();
        p.set("olderThanDays", JsonValue::from_u64(self.older_than_days));
        match &self.dry_run {
            Some(v) => p.set("dryRun", JsonValue::Bool(*v)),
            None => {},
        }
        match &self.include_named {
            Some(v) => p.set("includeNamed", JsonValue::Bool(*v)),
            None => {},
        }
        match &self.exclude_session_ids {
            Some(v) => p.set("excludeSessionIds", crate::requests::texts_json(v)),
            None => {},
        }
        p
    }
}

/// The wire object of a `SessionsReleaseLockRequest`.
pub open spec fn sessions_release_lock_request_wire(x: SessionsReleaseLockRequest) -> JsonView {
    let p = empty_object();
    let p = set_field(p, "sessionId"@, JsonView::Str(x.session_id@));
    p
}

impl SessionsReleaseLockRequest {
    /// The wire object of this value.
    pub fn to_json(&self) -> (r: JsonValue)
        ensures
            r@ == sessions_release_lock_request_wire(*self),
    {
        let mut p = JsonValue::object();
        p.set("sessionId", JsonValue::string(self.session_id.as_str()));
        p
    }
}

/// The wire object of a `SessionsReloadPluginHooksRequest`.
pub open spec fn sessions_reload_plugin_hooks_request_wire(x: SessionsReloadPluginHooksRequest) -> JsonView {
    let p = empty_object();
    let p = set_field(p, "sessionId"@, JsonView::Str(x.session_id@));
    let p = opt_set(p, "deferRepoHooks"@, match x.defer_repo_hooks { Some(v) => Some(JsonView::Bool(v)), None => None });
    p
}

impl SessionsReloadPluginHooksRequest {
    /// The wire object of this value.
    pub fn to_json(&self) -> (r: JsonValue)
        ensures
            r@ == sessions_reload_plugin_hooks_request_wire(*self),
    {
        let mut p = JsonValue::object();
        p.set("sessionId", JsonValue::string(self.session_id.as_str()));
        match &self.defer_repo_hooks {
            Some(v) => p.set("deferRepoHooks", JsonValue::Bool(*v)),
            None => {},
        }
        p
    }
}

/// The wire object of a `SessionsSaveRequest`.
pub open spec fn sessions_save_request_wire(x: SessionsSaveRequest) -> JsonView {
    let p = empty_object();
    let p = set_field(p, "sessionId"@, JsonView::Str(x.session_id@));
    p
}

impl SessionsSaveRequest {
    /// The wire object of this value.
    pub fn to_json(&self) -> (r: JsonValue)
        ensures
            r@ == sessions_save_request_wire(*self),
    {
        let mut p = JsonValue::object();
        p.set("sessionId", JsonValue::string(self.session_id.as_str()));
        p
    }
}

/// The wire object of a `SessionsSetAdditionalPluginsRequest`.
pub open spec fn sessions_set_additional_plugins_request_wire(x: SessionsSetAdditionalPluginsRequest) -> JsonView {
    let p = empty_object();
    let p = set_field(p, "plugins"@, JsonView::Array(x.plugins@.map_values(|x: InstalledPlugin| installed_plugin_wire(x))));
    p
}

impl SessionsSetAdditionalPluginsRequest {
    /// The wire object of this value.
    pub fn to_json(&self) -> (r: JsonValue)
        ensures
            r@ == sessions_set_additional_plugins_request_wire(*self),
    {
        let mut p = JsonValue::object();
        p.set("plugins", installed_plugin_list_json(&self.plugins));
        p
    }
}

/// The wire object of a `SkillsConfigSetDisabledSkillsRequest`.
pub open spec fn skills_config_set_disabled_skills_request_wire(x: SkillsConfigSetDisabledSkillsRequest) -> JsonView {
    let p = empty_object();
    let p = set_field(p, "disabledSkills"@, crate::requests::texts_array(x.disabled_skills@));
    p
}

impl SkillsConfigSetDisabledSkillsRequest {
    /// The wire object of this value.
    pub fn to_json(&self) -> (r: JsonValue)
        ensures
            r@ == skills_config_set_disabled_skills_request_wire(*self),
    {
        let mut p = JsonValue::object();
        p.set("disabledSkills", crate::requests::texts_json(&self.disabled_skills));
        p
    }
}

/// The wire object of a `SkillsDiscoverRequest`.
pub open spec fn skills_discover_request_wire(x: SkillsDiscoverRequest) -> JsonView {
    let p = empty_object();
    let p = opt_set(p, "projectPaths"@, match x.project_paths { Some(v) => Some(crate::requests::texts_array(v@)), None => None });
    let p = opt_set(p, "skillDirectories"@, match x.skill_directories { Some(v) => Some(crate::requests::texts_array(v@)), None => None });
    p
}

impl SkillsDiscoverRequest {
    /// The wire object of this value.
    pub fn to_json(&self) -> (r: JsonValue)
        ensures
            r@ == skills_discover_request_wire(*self),
    {
        let mut p = JsonValue::object();
        match &self.project_paths {
            Some(v) => p.set("projectPaths", crate::requests::texts_json(v)),
            None => {},
        }
        match &self.skill_directories {
            Some(v) => p.set("skillDirectories", crate::requests::texts_json(v)),
            None => {},
        }
        p
    }
}

/// The wire object of a `UiUserInputResponse`.
pub open spec fn ui_user_input_response_wire(x: UiUserInputResponse) -> JsonView {
    let p = empty_object();
    let p = set_field(p, "answer"@, JsonView::Str(x.answer@));
    let p = set_field(p, "wasFreeform"@, JsonView::Bool(x.was_freeform));
    p
}

impl UiUserInputResponse {
    /// The wire object of this value.
    pub fn to_json(&self) -> (r: JsonValue)
        ensures
            r@ == ui_user_input_response_wire(*self),
    {
        let mut p = JsonValue::object();
        p.set("answer", JsonValue::string(self.answer.as_str()));
        p.set("wasFreeform", JsonValue::Bool(self.was_freeform));
        p
    }
}

/// The wire name of a `WorkspaceDiffMode`.
pub open spec fn workspace_diff_mode_name(v: WorkspaceDiffMode) -> Seq<char> {
    match v {
        WorkspaceDiffMode::Unstaged => "unstaged"@,
        WorkspaceDiffMode::Branch => "branch"@,
    }
}

fn workspace_diff_mode_str(v: &WorkspaceDiffMode) -> (r: &'static str)
    ensures
        r@ == workspace_diff_mode_name(*v),
{
    match v {
        WorkspaceDiffMode::Unstaged => "unstaged",
        WorkspaceDiffMode::Branch => "branch",
    }
}

fn installed_plugin_list_json(v: &Vec<InstalledPlugin>) -> (r: JsonValue)
    ensures
        r@ == JsonView::Array(v@.map_values(|x: InstalledPlugin| installed_plugin_wire(x))),
{
    let mut out: Vec<JsonValue> = Vec::new();
    let mut i: usize = 0;
    while i < v.len()
        invariant
            0 <= i <= v.len(),
            crate::json::items_view(out@) =~= v@.take(i as int).map_values(|x: InstalledPlugin| installed_plugin_wire(x)),
        decreases v.len() - i,
    {
        let ghost before = out@;
        out.push(v[i].to_json());
        proof {
            assert(out@.drop_last() =~= before);
            assert(v@.take(i + 1).map_values(|x: InstalledPlugin| installed_plugin_wire(x)) =~= v@.take(i as int).map_values(
                |x: InstalledPlugin| installed_plugin_wire(x),
            ).push(installed_plugin_wire(v@[i as int])));
        }
        i = i + 1;
    }
    proof {
        assert(v@.take(v.len() as int) =~= v@);
    }
    JsonValue::Array(out)
}

fn permission_rule_list_json(v: &Vec<PermissionRule>) -> (r: JsonValue)
    ensures
        r@ == JsonView::Array(v@.map_values(|x: PermissionRule| permission_rule_wire(x))),
{
    let mut out: Vec<JsonValue> = Vec::new();
    let mut i: usize = 0;
    while i < v.len()
        invariant
            0 <= i <= v.len(),
            crate::json::items_view(out@) =~= v@.take(i as int).map_values(|x: PermissionRule| permission_rule_wire(x)),
        decreases v.len() - i,
    {
        let ghost before = out@;
        out.push(v[i].to_json());
        proof {
            assert(out@.drop_last() =~= before);
            assert(v@.take(i + 1).map_values(|x: PermissionRule| permission_rule_wire(x)) =~= v@.take(i as int).map_values(
                |x: PermissionRule| permission_rule_wire(x),
            ).push(permission_rule_wire(v@[i as int])));
        }
        i = i + 1;
    }
    proof {
        assert(v@.take(v.len() as int) =~= v@);
    }
    JsonValue::Array(out)
}

fn session_metadata_list_json(v: &Vec<SessionMetadata>) -> (r: JsonValue)
    ensures
        r@ == JsonView::Array(v@.map_values(|x: SessionMetadata| session_metadata_wire(x))),
{
    let mut out: Vec<JsonValue> = Vec::new();
    let mut i: usize = 0;
    while i < v.len()
        invariant
            0 <= i <= v.len(),
            crate::json::items_view(out@) =~= v@.take(i as int).map_values(|x: SessionMetadata| session_metadata_wire(x)),
        decreases v.len() - i,
    {
        let ghost before = out@;
        out.push(v[i].to_json());
        proof {
            assert(out@.drop_last() =~= before);
            assert(v@.take(i + 1).map_values(|x: SessionMetadata| session_metadata_wire(x)) =~= v@.take(i as int).map_values(
                |x: SessionMetadata| session_metadata_wire(x),
            ).push(session_metadata_wire(v@[i as int])));
        }
        i = i + 1;
    }
    proof {
        assert(v@.take(v.len() as int) =~= v@);
    }
    JsonValue::Array(out)
}

// =============================================================================
// Request parameters
// =============================================================================

/// The parameters of `session.ui.handlePendingSampling`.
pub open spec fn ui_handle_pending_sampling_params_spec(session_id: Seq<char>, request_id: Seq<char>, response: Option<JsonView>) -> JsonView {
    let p = empty_object();
    let p = set_field(p, "sessionId"@, JsonView::Str(session_id));
    let p = set_field(p, "requestId"@, JsonView::Str(request_id));
    let p = opt_set(p, "response"@, match response { Some(v) => Some(v), None => None });
    p
}

/// Builds the parameters of `session.ui.handlePendingSampling`: resolve a pending `sampling.requested` event with an optional sampling result payload.
pub fn ui_handle_pending_sampling_params(session_id: &str, request_id: &str, response: Option<&JsonValue>) -> (r: JsonValue)
    ensures
        r@ == ui_handle_pending_sampling_params_spec(session_id@, request_id@, crate::json::opt_json_view(crate::rpc::params::opt_deref(response))),
{
    let mut p = JsonValue::object();
    p.set("sessionId", JsonValue::string(session_id));
    p.set("requestId", JsonValue::string(request_id));
    match response {
        Some(v) => p.set("response", v.deep_clone()),
        None => {},
    }
    p
}

/// The parameters of `session.ui.handlePendingUserInput`.
pub open spec fn ui_handle_pending_user_input_params_spec(session_id: Seq<char>, request_id: Seq<char>, response: UiUserInputResponse) -> JsonView {
    let p = empty_object();
    let p = set_field(p, "sessionId"@, JsonView::Str(session_id));
    let p = set_field(p, "requestId"@, JsonView::Str(request_id));
    let p = set_field(p, "response"@, ui_user_input_response_wire(response));
    p
}

/// Builds the parameters of `session.ui.handlePendingUserInput`: resolve a pending `user_input.requested` event with the user's response.
pub fn ui_handle_pending_user_input_params(session_id: &str, request_id: &str, response: &UiUserInputResponse) -> (r: JsonValue)
    ensures
        r@ == ui_handle_pending_user_input_params_spec(session_id@, request_id@, *response),
{
    let mut p = JsonValue::object();
    p.set("sessionId", JsonValue::string(session_id));
    p.set("requestId", JsonValue::string(request_id));
    p.set("response", response.to_json());
    p
}

/// The parameters of `session.ui.unregisterDirectAutoModeSwitchHandler`.
pub open spec fn ui_unregister_direct_auto_mode_switch_handler_params_spec(session_id: Seq<char>, handle: Seq<char>) -> JsonView {
    let p = empty_object();
    let p = set_field(p, "sessionId"@, JsonView::Str(session_id));
    let p = set_field(p, "handle"@, JsonView::Str(handle));
    p
}

/// Builds the parameters of `session.ui.unregisterDirectAutoModeSwitchHandler`: unregister a previously-registered direct auto-mode-switch handler.
pub fn ui_unregister_direct_auto_mode_switch_handler_params(session_id: &str, handle: &str) -> (r: JsonValue)
    ensures
        r@ == ui_unregister_direct_auto_mode_switch_handler_params_spec(session_id@, handle@),
{
    let mut p = JsonValue::object();
    p.set("sessionId", JsonValue::string(session_id));
    p.set("handle", JsonValue::string(handle));
    p
}

/// The parameters of `session.workspaces.readCheckpoint`.
pub open spec fn workspace_read_checkpoint_params_spec(session_id: Seq<char>, number: u64) -> JsonView {
    let p = empty_object();
    let p = set_field(p, "sessionId"@, JsonView::Str(session_id));
    let p = set_field(p, "number"@, JsonView::Number(crate::json::decimal_text(number as nat)));
    p
}

/// Builds the parameters of `session.workspaces.readCheckpoint`: read the content of a workspace checkpoint by number.
pub fn workspace_read_checkpoint_params(session_id: &str, number: u64) -> (r: JsonValue)
    ensures
        r@ == workspace_read_checkpoint_params_spec(session_id@, number),
{
    let mut p = JsonValue::object();
    p.set("sessionId", JsonValue::string(session_id));
    p.set("number", JsonValue::from_u64(number));
    p
}

/// The parameters of `session.workspaces.saveLargePaste`.
pub open spec fn workspace_save_large_paste_params_spec(session_id: Seq<char>, content: Seq<char>) -> JsonView {
    let p = empty_object();
    let p = set_field(p, "sessionId"@, JsonView::Str(session_id));
    let p = set_field(p, "content"@, JsonView::Str(content));
    p
}

/// Builds the parameters of `session.workspaces.saveLargePaste`: save pasted content as a UTF-8 file in the session workspace.
pub fn workspace_save_large_paste_params(session_id: &str, content: &str) -> (r: JsonValue)
    ensures
        r@ == workspace_save_large_paste_params_spec(session_id@, content@),
{
    let mut p = JsonValue::object();
    p.set("sessionId", JsonValue::string(session_id));
    p.set("content", JsonValue::string(content));
    p
}

/// The parameters of `session.workspaces.diff`.
pub open spec fn workspace_diff_params_spec(session_id: Seq<char>, mode: WorkspaceDiffMode) -> JsonView {
    let p = empty_object();
    let p = set_field(p, "sessionId"@, JsonView::Str(session_id));
    let p = set_field(p, "mode"@, JsonView::Str(workspace_diff_mode_name(mode)));
    p
}

/// Builds the parameters of `session.workspaces.diff`: compute a diff for the session workspace.
pub fn workspace_diff_params(session_id: &str, mode: &WorkspaceDiffMode) -> (r: JsonValue)
    ensures
        r@ == workspace_diff_params_spec(session_id@, *mode),
{
    let mut p = JsonValue::object();
    p.set("sessionId", JsonValue::string(session_id));
    p.set("mode", JsonValue::string(workspace_diff_mode_str(mode)));
    p
}

/// The parameters of `session.canvas.open`.
pub open spec fn canvas_open_params_spec(session_id: Seq<char>, canvas_id: Seq<char>, instance_id: Seq<char>, extension_id: Option<Seq<char>>, input: Option<JsonView>) -> JsonView {
    let p = empty_object();
    let p = set_field(p, "sessionId"@, JsonView::Str(session_id));
    let p = set_field(p, "canvasId"@, JsonView::Str(canvas_id));
    let p = set_field(p, "instanceId"@, JsonView::Str(instance_id));
    let p = opt_set(p, "extensionId"@, match extension_id { Some(v) => Some(JsonView::Str(v)), None => None });
    let p = opt_set(p, "input"@, match input { Some(v) => Some(v), None => None });
    p
}

/// Builds the parameters of `session.canvas.open`: open or focus a canvas instance.
pub fn canvas_open_params(session_id: &str, canvas_id: &str, instance_id: &str, extension_id: Option<&str>, input: Option<&JsonValue>) -> (r: JsonValue)
    ensures
        r@ == canvas_open_params_spec(session_id@, canvas_id@, instance_id@, crate::rpc::params::opt_str_view(extension_id), crate::json::opt_json_view(crate::rpc::params::opt_deref(input))),
{
    let mut p = JsonValue::object();
    p.set("sessionId", JsonValue::string(session_id));
    p.set("canvasId", JsonValue::string(canvas_id));
    p.set("instanceId", JsonValue::string(instance_id));
    match extension_id {
        Some(v) => p.set("extensionId", JsonValue::string(v)),
        None => {},
    }
    match input {
        Some(v) => p.set("input", v.deep_clone()),
        None => {},
    }
    p
}

/// The parameters of `session.canvas.close`.
pub open spec fn canvas_close_params_spec(session_id: Seq<char>, instance_id: Seq<char>) -> JsonView {
    let p = empty_object();
    let p = set_field(p, "sessionId"@, JsonView::Str(session_id));
    let p = set_field(p, "instanceId"@, JsonView::Str(instance_id));
    p
}

/// Builds the parameters of `session.canvas.close`: close an open canvas instance.
pub fn canvas_close_params(session_id: &str, instance_id: &str) -> (r: JsonValue)
    ensures
        r@ == canvas_close_params_spec(session_id@, instance_id@),
{
    let mut p = JsonValue::object();
    p.set("sessionId", JsonValue::string(session_id));
    p.set("instanceId", JsonValue::string(instance_id));
    p
}

/// The parameters of `session.canvas.action.invoke`.
pub open spec fn canvas_action_invoke_params_spec(session_id: Seq<char>, instance_id: Seq<char>, action_name: Seq<char>, input: Option<JsonView>) -> JsonView {
    let p = empty_object();
    let p = set_field(p, "sessionId"@, JsonView::Str(session_id));
    let p = set_field(p, "instanceId"@, JsonView::Str(instance_id));
    let p = set_field(p, "actionName"@, JsonView::Str(action_name));
    let p = opt_set(p, "input"@, match input { Some(v) => Some(v), None => None });
    p
}

/// Builds the parameters of `session.canvas.action.invoke`: invoke an action on an open canvas instance.
pub fn canvas_action_invoke_params(session_id: &str, instance_id: &str, action_name: &str, input: Option<&JsonValue>) -> (r: JsonValue)
    ensures
        r@ == canvas_action_invoke_params_spec(session_id@, instance_id@, action_name@, crate::json::opt_json_view(crate::rpc::params::opt_deref(input))),
{
    let mut p = JsonValue::object();
    p.set("sessionId", JsonValue::string(session_id));
    p.set("instanceId", JsonValue::string(instance_id));
    p.set("actionName", JsonValue::string(action_name));
    match input {
        Some(v) => p.set("input", v.deep_clone()),
        None => {},
    }
    p
}

/// The parameters of `session.auth.setCredentials`.
pub open spec fn auth_set_credentials_params_spec(session_id: Seq<char>, credentials: Option<JsonView>) -> JsonView {
    let p = empty_object();
    let p = set_field(p, "sessionId"@, JsonView::Str(session_id));
    let p = opt_set(p, "credentials"@, match credentials { Some(v) => Some(v), None => None });
    p
}

/// Builds the parameters of `session.auth.setCredentials`: update the session's outbound authentication credentials.
pub fn auth_set_credentials_params(session_id: &str, credentials: Option<&JsonValue>) -> (r: JsonValue)
    ensures
        r@ == auth_set_credentials_params_spec(session_id@, crate::json::opt_json_view(crate::rpc::params::opt_deref(credentials))),
{
    let mut p = JsonValue::object();
    p.set("sessionId", JsonValue::string(session_id));
    match credentials {
        Some(v) => p.set("credentials", v.deep_clone()),
        None => {},
    }
    p
}

/// The parameters of `session.eventLog.read`.
pub open spec fn event_log_read_params_spec(session_id: Seq<char>, options: SessionRpcEventLogReadOptions) -> JsonView {
    let p = empty_object();
    let p = set_field(p, "sessionId"@, JsonView::Str(session_id));
    let p = opt_set(p, "cursor"@, match options.cursor { Some(v) => Some(JsonView::Str(v@)), None => None });
    let p = opt_set(p, "max"@, match options.max { Some(v) => Some(JsonView::Number(crate::json::decimal_text(v as nat))), None => None });
    let p = opt_set(p, "waitMs"@, match options.wait_ms { Some(v) => Some(JsonView::Number(crate::json::decimal_text(v as nat))), None => None });
    let p = opt_set(p, "types"@, match options.types { Some(v) => Some(v@), None => None });
    let p = opt_set(p, "agentScope"@, match options.agent_scope { Some(v) => Some(JsonView::Str(session_rpc_events_agent_scope_name(v))), None => None });
    p
}

/// Builds the parameters of `session.eventLog.read`: read a batch of session events from a cursor, optionally waiting for new events.
pub fn event_log_read_params(session_id: &str, options: &SessionRpcEventLogReadOptions) -> (r: JsonValue)
    ensures
        r@ == event_log_read_params_spec(session_id@, *options),
{
    let mut p = JsonValue::object();
    p.set("sessionId", JsonValue::string(session_id));
    match &options.cursor {
        Some(v) => p.set("cursor", JsonValue::string(v.as_str())),
        None => {},
    }
    match &options.max {
        Some(v) => p.set("max", JsonValue::from_u64(*v)),
        None => {},
    }
    match &options.wait_ms {
        Some(v) => p.set("waitMs", JsonValue::from_u64(*v)),
        None => {},
    }
    match &options.types {
        Some(v) => p.set("types", v.deep_clone()),
        None => {},
    }
    match &options.agent_scope {
        Some(v) => p.set("agentScope", JsonValue::string(session_rpc_events_agent_scope_str(v))),
        None => {},
    }
    p
}

/// The parameters of `session.eventLog.registerInterest`.
pub open spec fn event_log_register_interest_params_spec(session_id: Seq<char>, event_type: Seq<char>) -> JsonView {
    let p = empty_object();
    let p = set_field(p, "sessionId"@, JsonView::Str(session_id));
    let p = set_field(p, "eventType"@, JsonView::Str(event_type));
    p
}

/// Builds the parameters of `session.eventLog.registerInterest`: register consumer interest in an event type for runtime gating purposes.
pub fn event_log_register_interest_params(session_id: &str, event_type: &str) -> (r: JsonValue)
    ensures
        r@ == event_log_register_interest_params_spec(session_id@, event_type@),
{
    let mut p = JsonValue::object();
    p.set("sessionId", JsonValue::string(session_id));
    p.set("eventType", JsonValue::string(event_type));
    p
}

/// The parameters of `session.eventLog.releaseInterest`.
pub open spec fn event_log_release_interest_params_spec(session_id: Seq<char>, handle: Seq<char>) -> JsonView {
    let p = empty_object();
    let p = set_field(p, "sessionId"@, JsonView::Str(session_id));
    let p = set_field(p, "handle"@, JsonView::Str(handle));
    p
}

/// Builds the parameters of `session.eventLog.releaseInterest`: release a previously-registered event-type interest handle.
pub fn event_log_release_interest_params(session_id: &str, handle: &str) -> (r: JsonValue)
    ensures
        r@ == event_log_release_interest_params_spec(session_id@, handle@),
{
    let mut p = JsonValue::object();
    p.set("sessionId", JsonValue::string(session_id));
    p.set("handle", JsonValue::string(handle));
    p
}

/// The parameters of `session.history.truncate`.
pub open spec fn history_truncate_params_spec(session_id: Seq<char>, event_id: Seq<char>) -> JsonView {
    let p = empty_object();
    let p = set_field(p, "sessionId"@, JsonView::Str(session_id));
    let p = set_field(p, "eventId"@, JsonView::Str(event_id));
    p
}

/// Builds the parameters of `session.history.truncate`: truncate persisted session history to the specified event.
pub fn history_truncate_params(session_id: &str, event_id: &str) -> (r: JsonValue)
    ensures
        r@ == history_truncate_params_spec(session_id@, event_id@),
{
    let mut p = JsonValue::object();
    p.set("sessionId", JsonValue::string(session_id));
    p.set("eventId", JsonValue::string(event_id));
    p
}

/// The parameters of `session.model.list`.
pub open spec fn model_list_params_spec(session_id: Seq<char>, options: Option<SessionRpcModelListOptions>) -> JsonView {
    let p = empty_object();
    let p = set_field(p, "sessionId"@, JsonView::Str(session_id));
    let p = match options {
        Some(q) => {
            let p = opt_set(p, "skipCache"@, match q.skip_cache { Some(v) => Some(JsonView::Bool(v)), None => None });
            p
        },
        None => p,
    };
    p
}

/// Builds the parameters of `session.model.list`: list models available to this session in its current auth and integration context.
pub fn model_list_params(session_id: &str, options: Option<&SessionRpcModelListOptions>) -> (r: JsonValue)
    ensures
        r@ == model_list_params_spec(session_id@, crate::rpc::params::opt_deref(options)),
{
    let mut p = JsonValue::object();
    p.set("sessionId", JsonValue::string(session_id));
    match options {
        Some(q) => {
            match &q.skip_cache {
                Some(v) => p.set("skipCache", JsonValue::Bool(*v)),
                None => {},
            }
        },
        None => {},
    }
    p
}

/// The parameters of `session.model.setReasoningEffort`.
pub open spec fn model_set_reasoning_effort_params_spec(session_id: Seq<char>, reasoning_effort: Seq<char>) -> JsonView {
    let p = empty_object();
    let p = set_field(p, "sessionId"@, JsonView::Str(session_id));
    let p = set_field(p, "reasoningEffort"@, JsonView::Str(reasoning_effort));
    p
}

/// Builds the parameters of `session.model.setReasoningEffort`: update the session's reasoning effort without changing the selected model.
pub fn model_set_reasoning_effort_params(session_id: &str, reasoning_effort: &str) -> (r: JsonValue)
    ensures
        r@ == model_set_reasoning_effort_params_spec(session_id@, reasoning_effort@),
{
    let mut p = JsonValue::object();
    p.set("sessionId", JsonValue::string(session_id));
    p.set("reasoningEffort", JsonValue::string(reasoning_effort));
    p
}

/// The parameters of `session.remote.enable`.
pub open spec fn remote_enable_params_spec(session_id: Seq<char>, options: Option<SessionRpcRemoteEnableOptions>) -> JsonView {
    let p = empty_object();
    let p = set_field(p, "sessionId"@, JsonView::Str(session_id));
    let p = match options {
        Some(q) => {
            let p = opt_set(p, "mode"@, match q.mode { Some(v) => Some(JsonView::Str(session_rpc_remote_session_mode_name(v))), None => None });
            p
        },
        None => p,
    };
    p
}

/// Builds the parameters of `session.remote.enable`: enable remote session export or steering.
pub fn remote_enable_params(session_id: &str, options: Option<&SessionRpcRemoteEnableOptions>) -> (r: JsonValue)
    ensures
        r@ == remote_enable_params_spec(session_id@, crate::rpc::params::opt_deref(options)),
{
    let mut p = JsonValue::object();
    p.set("sessionId", JsonValue::string(session_id));
    match options {
        Some(q) => {
            match &q.mode {
                Some(v) => p.set("mode", JsonValue::string(session_rpc_remote_session_mode_str(v))),
                None => {},
            }
        },
        None => {},
    }
    p
}

/// The parameters of `session.remote.notifySteerableChanged`.
pub open spec fn remote_notify_steerable_changed_params_spec(session_id: Seq<char>, remote_steerable: bool) -> JsonView {
    let p = empty_object();
    let p = set_field(p, "sessionId"@, JsonView::Str(session_id));
    let p = set_field(p, "remoteSteerable"@, JsonView::Bool(remote_steerable));
    p
}

/// Builds the parameters of `session.remote.notifySteerableChanged`: persist a remote-steerability change emitted by the host as a session event.
pub fn remote_notify_steerable_changed_params(session_id: &str, remote_steerable: bool) -> (r: JsonValue)
    ensures
        r@ == remote_notify_steerable_changed_params_spec(session_id@, remote_steerable),
{
    let mut p = JsonValue::object();
    p.set("sessionId", JsonValue::string(session_id));
    p.set("remoteSteerable", JsonValue::Bool(remote_steerable));
    p
}

/// The parameters of `session.schedule.stop`.
pub open spec fn schedule_stop_params_spec(session_id: Seq<char>, id: u64) -> JsonView {
    let p = empty_object();
    let p = set_field(p, "sessionId"@, JsonView::Str(session_id));
    let p = set_field(p, "id"@, JsonView::Number(crate::json::decimal_text(id as nat)));
    p
}

/// Builds the parameters of `session.schedule.stop`: remove a scheduled prompt by id.
pub fn schedule_stop_params(session_id: &str, id: u64) -> (r: JsonValue)
    ensures
        r@ == schedule_stop_params_spec(session_id@, id),
{
    let mut p = JsonValue::object();
    p.set("sessionId", JsonValue::string(session_id));
    p.set("id", JsonValue::from_u64(id));
    p
}

/// The parameters of `session.mcp.enable`.
pub open spec fn mcp_enable_params_spec(session_id: Seq<char>, server_name: Seq<char>) -> JsonView {
    let p = empty_object();
    let p = set_field(p, "sessionId"@, JsonView::Str(session_id));
    let p = set_field(p, "serverName"@, JsonView::Str(server_name));
    p
}

/// Builds the parameters of `session.mcp.enable`: enables an MCP server for the current session.
pub fn mcp_enable_params(session_id: &str, server_name: &str) -> (r: JsonValue)
    ensures
        r@ == mcp_enable_params_spec(session_id@, server_name@),
{
    let mut p = JsonValue::object();
    p.set("sessionId", JsonValue::string(session_id));
    p.set("serverName", JsonValue::string(server_name));
    p
}

/// The parameters of `session.mcp.disable`.
pub open spec fn mcp_disable_params_spec(session_id: Seq<char>, server_name: Seq<char>) -> JsonView {
    let p = empty_object();
    let p = set_field(p, "sessionId"@, JsonView::Str(session_id));
    let p = set_field(p, "serverName"@, JsonView::Str(server_name));
    p
}

/// Builds the parameters of `session.mcp.disable`: disables an MCP server for the current session.
pub fn mcp_disable_params(session_id: &str, server_name: &str) -> (r: JsonValue)
    ensures
        r@ == mcp_disable_params_spec(session_id@, server_name@),
{
    let mut p = JsonValue::object();
    p.set("sessionId", JsonValue::string(session_id));
    p.set("serverName", JsonValue::string(server_name));
    p
}

/// The parameters of `session.mcp.setEnvValueMode`.
pub open spec fn mcp_set_env_value_mode_params_spec(session_id: Seq<char>, mode: McpSetEnvValueModeDetails) -> JsonView {
    let p = empty_object();
    let p = set_field(p, "sessionId"@, JsonView::Str(session_id));
    let p = set_field(p, "mode"@, JsonView::Str(mcp_set_env_value_mode_details_name(mode)));
    p
}

/// Builds the parameters of `session.mcp.setEnvValueMode`: sets how environment-variable values supplied to MCP servers are resolved.
pub fn mcp_set_env_value_mode_params(session_id: &str, mode: &McpSetEnvValueModeDetails) -> (r: JsonValue)
    ensures
        r@ == mcp_set_env_value_mode_params_spec(session_id@, *mode),
{
    let mut p = JsonValue::object();
    p.set("sessionId", JsonValue::string(session_id));
    p.set("mode", JsonValue::string(mcp_set_env_value_mode_details_str(mode)));
    p
}

/// The parameters of `session.mcp.executeSampling`.
pub open spec fn mcp_execute_sampling_params_spec(session_id: Seq<char>, request_id: Seq<char>, server_name: Seq<char>, mcp_request_id: JsonView, request: JsonView) -> JsonView {
    let p = empty_object();
    let p = set_field(p, "sessionId"@, JsonView::Str(session_id));
    let p = set_field(p, "requestId"@, JsonView::Str(request_id));
    let p = set_field(p, "serverName"@, JsonView::Str(server_name));
    let p = set_field(p, "mcpRequestId"@, mcp_request_id);
    let p = set_field(p, "request"@, request);
    p
}

/// Builds the parameters of `session.mcp.executeSampling`: runs an MCP sampling inference on behalf of an MCP server.
pub fn mcp_execute_sampling_params(session_id: &str, request_id: &str, server_name: &str, mcp_request_id: &JsonValue, request: &JsonValue) -> (r: JsonValue)
    ensures
        r@ == mcp_execute_sampling_params_spec(session_id@, request_id@, server_name@, mcp_request_id@, request@),
{
    let mut p = JsonValue::object();
    p.set("sessionId", JsonValue::string(session_id));
    p.set("requestId", JsonValue::string(request_id));
    p.set("serverName", JsonValue::string(server_name));
    p.set("mcpRequestId", mcp_request_id.deep_clone());
    p.set("request", request.deep_clone());
    p
}

/// The parameters of `session.mcp.cancelSamplingExecution`.
pub open spec fn mcp_cancel_sampling_execution_params_spec(session_id: Seq<char>, request_id: Seq<char>) -> JsonView {
    let p = empty_object();
    let p = set_field(p, "sessionId"@, JsonView::Str(session_id));
    let p = set_field(p, "requestId"@, JsonView::Str(request_id));
    p
}

/// Builds the parameters of `session.mcp.cancelSamplingExecution`: cancels an in-flight MCP sampling execution by request ID.
pub fn mcp_cancel_sampling_execution_params(session_id: &str, request_id: &str) -> (r: JsonValue)
    ensures
        r@ == mcp_cancel_sampling_execution_params_spec(session_id@, request_id@),
{
    let mut p = JsonValue::object();
    p.set("sessionId", JsonValue::string(session_id));
    p.set("requestId", JsonValue::string(request_id));
    p
}

/// The parameters of `session.mcp.apps.listTools`.
pub open spec fn mcp_apps_list_tools_params_spec(session_id: Seq<char>, server_name: Seq<char>, origin_server_name: Seq<char>) -> JsonView {
    let p = empty_object();
    let p = set_field(p, "sessionId"@, JsonView::Str(session_id));
    let p = set_field(p, "serverName"@, JsonView::Str(server_name));
    let p = set_field(p, "originServerName"@, JsonView::Str(origin_server_name));
    p
}

/// Builds the parameters of `session.mcp.apps.listTools`: lists tools that an MCP App view is allowed to invoke.
pub fn mcp_apps_list_tools_params(session_id: &str, server_name: &str, origin_server_name: &str) -> (r: JsonValue)
    ensures
        r@ == mcp_apps_list_tools_params_spec(session_id@, server_name@, origin_server_name@),
{
    let mut p = JsonValue::object();
    p.set("sessionId", JsonValue::string(session_id));
    p.set("serverName", JsonValue::string(server_name));
    p.set("originServerName", JsonValue::string(origin_server_name));
    p
}

/// The parameters of `session.mcp.apps.callTool`.
pub open spec fn mcp_apps_call_tool_params_spec(session_id: Seq<char>, server_name: Seq<char>, tool_name: Seq<char>, arguments: Option<JsonView>, origin_server_name: Seq<char>) -> JsonView {
    let p = empty_object();
    let p = set_field(p, "sessionId"@, JsonView::Str(session_id));
    let p = set_field(p, "serverName"@, JsonView::Str(server_name));
    let p = set_field(p, "toolName"@, JsonView::Str(tool_name));
    let p = set_field(p, "originServerName"@, JsonView::Str(origin_server_name));
    let p = opt_set(p, "arguments"@, match arguments { Some(v) => Some(v), None => None });
    p
}

/// Builds the parameters of `session.mcp.apps.callTool`: calls an MCP tool from an MCP App view.
pub fn mcp_apps_call_tool_params(session_id: &str, server_name: &str, tool_name: &str, arguments: Option<&JsonValue>, origin_server_name: &str) -> (r: JsonValue)
    ensures
        r@ == mcp_apps_call_tool_params_spec(session_id@, server_name@, tool_name@, crate::json::opt_json_view(crate::rpc::params::opt_deref(arguments)), origin_server_name@),
{
    let mut p = JsonValue::object();
    p.set("sessionId", JsonValue::string(session_id));
    p.set("serverName", JsonValue::string(server_name));
    p.set("toolName", JsonValue::string(tool_name));
    p.set("originServerName", JsonValue::string(origin_server_name));
    match arguments {
        Some(v) => p.set("arguments", v.deep_clone()),
        None => {},
    }
    p
}

/// The parameters of `session.mcp.apps.diagnose`.
pub open spec fn mcp_apps_diagnose_params_spec(session_id: Seq<char>, server_name: Seq<char>) -> JsonView {
    let p = empty_object();
    let p = set_field(p, "sessionId"@, JsonView::Str(session_id));
    let p = set_field(p, "serverName"@, JsonView::Str(server_name));
    p
}

/// Builds the parameters of `session.mcp.apps.diagnose`: diagnoses MCP Apps wiring for a specific MCP server.
pub fn mcp_apps_diagnose_params(session_id: &str, server_name: &str) -> (r: JsonValue)
    ensures
        r@ == mcp_apps_diagnose_params_spec(session_id@, server_name@),
{
    let mut p = JsonValue::object();
    p.set("sessionId", JsonValue::string(session_id));
    p.set("serverName", JsonValue::string(server_name));
    p
}

/// The parameters of `session.mcp.apps.readResource`.
pub open spec fn mcp_apps_read_resource_params_spec(session_id: Seq<char>, server_name: Seq<char>, uri: Seq<char>) -> JsonView {
    let p = empty_object();
    let p = set_field(p, "sessionId"@, JsonView::Str(session_id));
    let p = set_field(p, "serverName"@, JsonView::Str(server_name));
    let p = set_field(p, "uri"@, JsonView::Str(uri));
    p
}

/// Builds the parameters of `session.mcp.apps.readResource`: fetches an MCP resource from a connected server.
pub fn mcp_apps_read_resource_params(session_id: &str, server_name: &str, uri: &str) -> (r: JsonValue)
    ensures
        r@ == mcp_apps_read_resource_params_spec(session_id@, server_name@, uri@),
{
    let mut p = JsonValue::object();
    p.set("sessionId", JsonValue::string(session_id));
    p.set("serverName", JsonValue::string(server_name));
    p.set("uri", JsonValue::string(uri));
    p
}

/// The parameters of `session.mcp.apps.setHostContext`.
pub open spec fn mcp_apps_set_host_context_params_spec(session_id: Seq<char>, context: JsonView) -> JsonView {
    let p = empty_object();
    let p = set_field(p, "sessionId"@, JsonView::Str(session_id));
    let p = set_field(p, "context"@, context);
    p
}

/// Builds the parameters of `session.mcp.apps.setHostContext`: replaces the host context returned to MCP App guests during initialization.
pub fn mcp_apps_set_host_context_params(session_id: &str, context: &JsonValue) -> (r: JsonValue)
    ensures
        r@ == mcp_apps_set_host_context_params_spec(session_id@, context@),
{
    let mut p = JsonValue::object();
    p.set("sessionId", JsonValue::string(session_id));
    p.set("context", context.deep_clone());
    p
}

/// The parameters of `session.mcp.oauth.login`.
pub open spec fn mcp_oauth_login_params_spec(session_id: Seq<char>, server_name: Seq<char>, force_reauth: Option<bool>, client_name: Option<Seq<char>>, callback_success_message: Option<Seq<char>>) -> JsonView {
    let p = empty_object();
    let p = set_field(p, "sessionId"@, JsonView::Str(session_id));
    let p = set_field(p, "serverName"@, JsonView::Str(server_name));
    let p = opt_set(p, "forceReauth"@, match force_reauth { Some(v) => Some(JsonView::Bool(v)), None => None });
    let p = opt_set(p, "clientName"@, match client_name { Some(v) => Some(JsonView::Str(v)), None => None });
    let p = opt_set(p, "callbackSuccessMessage"@, match callback_success_message { Some(v) => Some(JsonView::Str(v)), None => None });
    p
}

/// Builds the parameters of `session.mcp.oauth.login`: starts OAuth authentication for a remote MCP server.
pub fn mcp_oauth_login_params(session_id: &str, server_name: &str, force_reauth: Option<bool>, client_name: Option<&str>, callback_success_message: Option<&str>) -> (r: JsonValue)
    ensures
        r@ == mcp_oauth_login_params_spec(session_id@, server_name@, force_reauth, crate::rpc::params::opt_str_view(client_name), crate::rpc::params::opt_str_view(callback_success_message)),
{
    let mut p = JsonValue::object();
    p.set("sessionId", JsonValue::string(session_id));
    p.set("serverName", JsonValue::string(server_name));
    match force_reauth {
        Some(v) => p.set("forceReauth", JsonValue::Bool(v)),
        None => {},
    }
    match client_name {
        Some(v) => p.set("clientName", JsonValue::string(v)),
        None => {},
    }
    match callback_success_message {
        Some(v) => p.set("callbackSuccessMessage", JsonValue::string(v)),
        None => {},
    }
    p
}

/// The parameters of `session.metadata.contextInfo`.
pub open spec fn metadata_context_info_params_spec(session_id: Seq<char>, prompt_token_limit: u64, output_token_limit: u64, selected_model: Option<Seq<char>>) -> JsonView {
    let p = empty_object();
    let p = set_field(p, "sessionId"@, JsonView::Str(session_id));
    let p = set_field(p, "promptTokenLimit"@, JsonView::Number(crate::json::decimal_text(prompt_token_limit as nat)));
    let p = set_field(p, "outputTokenLimit"@, JsonView::Number(crate::json::decimal_text(output_token_limit as nat)));
    let p = opt_set(p, "selectedModel"@, match selected_model { Some(v) => Some(JsonView::Str(v)), None => None });
    p
}

/// Builds the parameters of `session.metadata.contextInfo`: return the current context-window token breakdown for a target model.
pub fn metadata_context_info_params(session_id: &str, prompt_token_limit: u64, output_token_limit: u64, selected_model: Option<&str>) -> (r: JsonValue)
    ensures
        r@ == metadata_context_info_params_spec(session_id@, prompt_token_limit, output_token_limit, crate::rpc::params::opt_str_view(selected_model)),
{
    let mut p = JsonValue::object();
    p.set("sessionId", JsonValue::string(session_id));
    p.set("promptTokenLimit", JsonValue::from_u64(prompt_token_limit));
    p.set("outputTokenLimit", JsonValue::from_u64(output_token_limit));
    match selected_model {
        Some(v) => p.set("selectedModel", JsonValue::string(v)),
        None => {},
    }
    p
}

/// The parameters of `session.metadata.recomputeContextTokens`.
pub open spec fn metadata_recompute_context_tokens_params_spec(session_id: Seq<char>, model_id: Seq<char>) -> JsonView {
    let p = empty_object();
    let p = set_field(p, "sessionId"@, JsonView::Str(session_id));
    let p = set_field(p, "modelId"@, JsonView::Str(model_id));
    p
}

/// Builds the parameters of `session.metadata.recomputeContextTokens`: re-tokenize the session's existing messages against a model.
pub fn metadata_recompute_context_tokens_params(session_id: &str, model_id: &str) -> (r: JsonValue)
    ensures
        r@ == metadata_recompute_context_tokens_params_spec(session_id@, model_id@),
{
    let mut p = JsonValue::object();
    p.set("sessionId", JsonValue::string(session_id));
    p.set("modelId", JsonValue::string(model_id));
    p
}

/// The parameters of `session.metadata.recordContextChange`.
pub open spec fn metadata_record_context_change_params_spec(session_id: Seq<char>, context: SessionWorkingDirectoryContext) -> JsonView {
    let p = empty_object();
    let p = set_field(p, "sessionId"@, JsonView::Str(session_id));
    let p = set_field(p, "context"@, session_working_directory_context_wire(context));
    p
}

/// Builds the parameters of `session.metadata.recordContextChange`: record an updated working-directory and git context on the session.
pub fn metadata_record_context_change_params(session_id: &str, context: &SessionWorkingDirectoryContext) -> (r: JsonValue)
    ensures
        r@ == metadata_record_context_change_params_spec(session_id@, *context),
{
    let mut p = JsonValue::object();
    p.set("sessionId", JsonValue::string(session_id));
    p.set("context", context.to_json());
    p
}

/// The parameters of `session.metadata.setWorkingDirectory`.
pub open spec fn metadata_set_working_directory_params_spec(session_id: Seq<char>, working_directory: Seq<char>) -> JsonView {
    let p = empty_object();
    let p = set_field(p, "sessionId"@, JsonView::Str(session_id));
    let p = set_field(p, "workingDirectory"@, JsonView::Str(working_directory));
    p
}

/// Builds the parameters of `session.metadata.setWorkingDirectory`: update the session's recorded working directory.
pub fn metadata_set_working_directory_params(session_id: &str, working_directory: &str) -> (r: JsonValue)
    ensures
        r@ == metadata_set_working_directory_params_spec(session_id@, working_directory@),
{
    let mut p = JsonValue::object();
    p.set("sessionId", JsonValue::string(session_id));
    p.set("workingDirectory", JsonValue::string(working_directory));
    p
}

/// The parameters of `session.name.set`.
pub open spec fn name_set_params_spec(session_id: Seq<char>, name: Seq<char>) -> JsonView {
    let p = empty_object();
    let p = set_field(p, "sessionId"@, JsonView::Str(session_id));
    let p = set_field(p, "name"@, JsonView::Str(name));
    p
}

/// Builds the parameters of `session.name.set`: set the session's friendly name.
pub fn name_set_params(session_id: &str, name: &str) -> (r: JsonValue)
    ensures
        r@ == name_set_params_spec(session_id@, name@),
{
    let mut p = JsonValue::object();
    p.set("sessionId", JsonValue::string(session_id));
    p.set("name", JsonValue::string(name));
    p
}

/// The parameters of `session.name.setAuto`.
pub open spec fn name_set_auto_params_spec(session_id: Seq<char>, summary: Seq<char>) -> JsonView {
    let p = empty_object();
    let p = set_field(p, "sessionId"@, JsonView::Str(session_id));
    let p = set_field(p, "summary"@, JsonView::Str(summary));
    p
}

/// Builds the parameters of `session.name.setAuto`: persist an auto-generated summary as the session's name when allowed.
pub fn name_set_auto_params(session_id: &str, summary: &str) -> (r: JsonValue)
    ensures
        r@ == name_set_auto_params_spec(session_id@, summary@),
{
    let mut p = JsonValue::object();
    p.set("sessionId", JsonValue::string(session_id));
    p.set("summary", JsonValue::string(summary));
    p
}

/// The parameters of `session.telemetry.setFeatureOverrides`.
pub open spec fn telemetry_set_feature_overrides_params_spec(session_id: Seq<char>, features: Seq<(String, String)>) -> JsonView {
    let p = empty_object();
    let p = set_field(p, "sessionId"@, JsonView::Str(session_id));
    let p = set_field(p, "features"@, crate::requests::text_pairs_object(features));
    p
}

/// Builds the parameters of `session.telemetry.setFeatureOverrides`: replace feature override key/value pairs attached to session telemetry.
pub fn telemetry_set_feature_overrides_params(session_id: &str, features: &Vec<(String, String)>) -> (r: JsonValue)
    ensures
        r@ == telemetry_set_feature_overrides_params_spec(session_id@, features@),
{
    let mut p = JsonValue::object();
    p.set("sessionId", JsonValue::string(session_id));
    p.set("features", crate::requests::text_pairs_json(features));
    p
}

/// The parameters of `session.permissions.configure`.
pub open spec fn permissions_configure_params_spec(session_id: Seq<char>, configuration: JsonView) -> JsonView {
    let p = configuration;
    let p = set_field(p, "sessionId"@, JsonView::Str(session_id));
    p
}

/// Builds the parameters of `session.permissions.configure`: replace selected permission policy fields on the session.
pub fn permissions_configure_params(session_id: &str, configuration: &JsonValue) -> (r: JsonValue)
    ensures
        r@ == permissions_configure_params_spec(session_id@, configuration@),
{
    let mut p = configuration.deep_clone();
    p.set("sessionId", JsonValue::string(session_id));
    p
}

/// The parameters of `session.permissions.modifyRules`.
pub open spec fn permissions_modify_rules_params_spec(session_id: Seq<char>, changes: PermissionsModifyRulesParams) -> JsonView {
    let p = permissions_modify_rules_params_wire(changes);
    let p = set_field(p, "sessionId"@, JsonView::Str(session_id));
    p
}

/// Builds the parameters of `session.permissions.modifyRules`: add or remove session-scoped or location-scoped permission rules.
pub fn permissions_modify_rules_params(session_id: &str, changes: &PermissionsModifyRulesParams) -> (r: JsonValue)
    ensures
        r@ == permissions_modify_rules_params_spec(session_id@, *changes),
{
    let mut p = changes.to_json();
    p.set("sessionId", JsonValue::string(session_id));
    p
}

/// The parameters of `session.permissions.notifyPromptShown`.
pub open spec fn permissions_notify_prompt_shown_params_spec(session_id: Seq<char>, message: Seq<char>) -> JsonView {
    let p = empty_object();
    let p = set_field(p, "sessionId"@, JsonView::Str(session_id));
    let p = set_field(p, "message"@, JsonView::Str(message));
    p
}

/// Builds the parameters of `session.permissions.notifyPromptShown`: notify the runtime that a permission prompt UI has been shown to the user.
pub fn permissions_notify_prompt_shown_params(session_id: &str, message: &str) -> (r: JsonValue)
    ensures
        r@ == permissions_notify_prompt_shown_params_spec(session_id@, message@),
{
    let mut p = JsonValue::object();
    p.set("sessionId", JsonValue::string(session_id));
    p.set("message", JsonValue::string(message));
    p
}

/// The parameters of `session.permissions.setAllowAll`.
pub open spec fn permissions_set_allow_all_params_spec(session_id: Seq<char>, enabled: bool, source: Option<PermissionsSetAllowAllSource>) -> JsonView {
    let p = empty_object();
    let p = set_field(p, "sessionId"@, JsonView::Str(session_id));
    let p = set_field(p, "enabled"@, JsonView::Bool(enabled));
    let p = opt_set(p, "source"@, match source { Some(v) => Some(JsonView::Str(permissions_set_allow_all_source_name(v))), None => None });
    p
}

/// Builds the parameters of `session.permissions.setAllowAll`: enable or disable full allow-all permissions for the session.
pub fn permissions_set_allow_all_params(session_id: &str, enabled: bool, source: Option<&PermissionsSetAllowAllSource>) -> (r: JsonValue)
    ensures
        r@ == permissions_set_allow_all_params_spec(session_id@, enabled, crate::rpc::params::opt_deref(source)),
{
    let mut p = JsonValue::object();
    p.set("sessionId", JsonValue::string(session_id));
    p.set("enabled", JsonValue::Bool(enabled));
    match source {
        Some(v) => p.set("source", JsonValue::string(permissions_set_allow_all_source_str(v))),
        None => {},
    }
    p
}

/// The parameters of `session.permissions.setApproveAll`.
pub open spec fn permissions_set_approve_all_params_spec(session_id: Seq<char>, enabled: bool, source: Option<PermissionsSetApproveAllSource>) -> JsonView {
    let p = empty_object();
    let p = set_field(p, "sessionId"@, JsonView::Str(session_id));
    let p = set_field(p, "enabled"@, JsonView::Bool(enabled));
    let p = opt_set(p, "source"@, match source { Some(v) => Some(JsonView::Str(permissions_set_approve_all_source_name(v))), None => None });
    p
}

/// Builds the parameters of `session.permissions.setApproveAll`: enable or disable automatic approval of tool permission requests.
pub fn permissions_set_approve_all_params(session_id: &str, enabled: bool, source: Option<&PermissionsSetApproveAllSource>) -> (r: JsonValue)
    ensures
        r@ == permissions_set_approve_all_params_spec(session_id@, enabled, crate::rpc::params::opt_deref(source)),
{
    let mut p = JsonValue::object();
    p.set("sessionId", JsonValue::string(session_id));
    p.set("enabled", JsonValue::Bool(enabled));
    match source {
        Some(v) => p.set("source", JsonValue::string(permissions_set_approve_all_source_str(v))),
        None => {},
    }
    p
}

/// The parameters of `session.permissions.setRequired`.
pub open spec fn permissions_set_required_params_spec(session_id: Seq<char>, required: bool) -> JsonView {
    let p = empty_object();
    let p = set_field(p, "sessionId"@, JsonView::Str(session_id));
    let p = set_field(p, "required"@, JsonView::Bool(required));
    p
}

/// Builds the parameters of `session.permissions.setRequired`: set whether permission prompts should be bridged into session events.
pub fn permissions_set_required_params(session_id: &str, required: bool) -> (r: JsonValue)
    ensures
        r@ == permissions_set_required_params_spec(session_id@, required),
{
    let mut p = JsonValue::object();
    p.set("sessionId", JsonValue::string(session_id));
    p.set("required", JsonValue::Bool(required));
    p
}

/// The parameters of `session.permissions.paths.add`.
pub open spec fn permissions_paths_add_params_spec(session_id: Seq<char>, path: Seq<char>) -> JsonView {
    let p = empty_object();
    let p = set_field(p, "sessionId"@, JsonView::Str(session_id));
    let p = set_field(p, "path"@, JsonView::Str(path));
    p
}

/// Builds the parameters of `session.permissions.paths.add`: add a directory to the session allow-list.
pub fn permissions_paths_add_params(session_id: &str, path: &str) -> (r: JsonValue)
    ensures
        r@ == permissions_paths_add_params_spec(session_id@, path@),
{
    let mut p = JsonValue::object();
    p.set("sessionId", JsonValue::string(session_id));
    p.set("path", JsonValue::string(path));
    p
}

/// The parameters of `session.permissions.paths.isPathWithinAllowedDirectories`.
pub open spec fn permissions_paths_is_path_within_allowed_directories_params_spec(session_id: Seq<char>, path: Seq<char>) -> JsonView {
    let p = empty_object();
    let p = set_field(p, "sessionId"@, JsonView::Str(session_id));
    let p = set_field(p, "path"@, JsonView::Str(path));
    p
}

/// Builds the parameters of `session.permissions.paths.isPathWithinAllowedDirectories`: check whether a path falls within one of the session's allowed directories.
pub fn permissions_paths_is_path_within_allowed_directories_params(session_id: &str, path: &str) -> (r: JsonValue)
    ensures
        r@ == permissions_paths_is_path_within_allowed_directories_params_spec(session_id@, path@),
{
    let mut p = JsonValue::object();
    p.set("sessionId", JsonValue::string(session_id));
    p.set("path", JsonValue::string(path));
    p
}

/// The parameters of `session.permissions.paths.isPathWithinWorkspace`.
pub open spec fn permissions_paths_is_path_within_workspace_params_spec(session_id: Seq<char>, path: Seq<char>) -> JsonView {
    let p = empty_object();
    let p = set_field(p, "sessionId"@, JsonView::Str(session_id));
    let p = set_field(p, "path"@, JsonView::Str(path));
    p
}

/// Builds the parameters of `session.permissions.paths.isPathWithinWorkspace`: check whether a path falls within the session workspace directory.
pub fn permissions_paths_is_path_within_workspace_params(session_id: &str, path: &str) -> (r: JsonValue)
    ensures
        r@ == permissions_paths_is_path_within_workspace_params_spec(session_id@, path@),
{
    let mut p = JsonValue::object();
    p.set("sessionId", JsonValue::string(session_id));
    p.set("path", JsonValue::string(path));
    p
}

/// The parameters of `session.permissions.paths.updatePrimary`.
pub open spec fn permissions_paths_update_primary_params_spec(session_id: Seq<char>, path: Seq<char>) -> JsonView {
    let p = empty_object();
    let p = set_field(p, "sessionId"@, JsonView::Str(session_id));
    let p = set_field(p, "path"@, JsonView::Str(path));
    p
}

/// Builds the parameters of `session.permissions.paths.updatePrimary`: update the session's primary working directory used by the permission policy.
pub fn permissions_paths_update_primary_params(session_id: &str, path: &str) -> (r: JsonValue)
    ensures
        r@ == permissions_paths_update_primary_params_spec(session_id@, path@),
{
    let mut p = JsonValue::object();
    p.set("sessionId", JsonValue::string(session_id));
    p.set("path", JsonValue::string(path));
    p
}

/// The parameters of `session.permissions.locations.addToolApproval`.
pub open spec fn permissions_locations_add_tool_approval_params_spec(session_id: Seq<char>, location_key: Seq<char>, approval: JsonView) -> JsonView {
    let p = empty_object();
    let p = set_field(p, "sessionId"@, JsonView::Str(session_id));
    let p = set_field(p, "locationKey"@, JsonView::Str(location_key));
    let p = set_field(p, "approval"@, approval);
    p
}

/// Builds the parameters of `session.permissions.locations.addToolApproval`: persist a tool approval for a permission location and apply it to the live session.
pub fn permissions_locations_add_tool_approval_params(session_id: &str, location_key: &str, approval: &JsonValue) -> (r: JsonValue)
    ensures
        r@ == permissions_locations_add_tool_approval_params_spec(session_id@, location_key@, approval@),
{
    let mut p = JsonValue::object();
    p.set("sessionId", JsonValue::string(session_id));
    p.set("locationKey", JsonValue::string(location_key));
    p.set("approval", approval.deep_clone());
    p
}

/// The parameters of `session.permissions.locations.apply`.
pub open spec fn permissions_locations_apply_params_spec(session_id: Seq<char>, working_directory: Seq<char>) -> JsonView {
    let p = empty_object();
    let p = set_field(p, "sessionId"@, JsonView::Str(session_id));
    let p = set_field(p, "workingDirectory"@, JsonView::Str(working_directory));
    p
}

/// Builds the parameters of `session.permissions.locations.apply`: apply persisted location-scoped permissions for a working directory to the session.
pub fn permissions_locations_apply_params(session_id: &str, working_directory: &str) -> (r: JsonValue)
    ensures
        r@ == permissions_locations_apply_params_spec(session_id@, working_directory@),
{
    let mut p = JsonValue::object();
    p.set("sessionId", JsonValue::string(session_id));
    p.set("workingDirectory", JsonValue::string(working_directory));
    p
}

/// The parameters of `session.permissions.locations.resolve`.
pub open spec fn permissions_locations_resolve_params_spec(session_id: Seq<char>, working_directory: Seq<char>) -> JsonView {
    let p = empty_object();
    let p = set_field(p, "sessionId"@, JsonView::Str(session_id));
    let p = set_field(p, "workingDirectory"@, JsonView::Str(working_directory));
    p
}

/// Builds the parameters of `session.permissions.locations.resolve`: resolve the location-permissions key and type for a working directory.
pub fn permissions_locations_resolve_params(session_id: &str, working_directory: &str) -> (r: JsonValue)
    ensures
        r@ == permissions_locations_resolve_params_spec(session_id@, working_directory@),
{
    let mut p = JsonValue::object();
    p.set("sessionId", JsonValue::string(session_id));
    p.set("workingDirectory", JsonValue::string(working_directory));
    p
}

/// The parameters of `session.permissions.folderTrust.addTrusted`.
pub open spec fn permissions_folder_trust_add_trusted_params_spec(session_id: Seq<char>, path: Seq<char>) -> JsonView {
    let p = empty_object();
    let p = set_field(p, "sessionId"@, JsonView::Str(session_id));
    let p = set_field(p, "path"@, JsonView::Str(path));
    p
}

/// Builds the parameters of `session.permissions.folderTrust.addTrusted`: add a folder to the user's trusted folders list.
pub fn permissions_folder_trust_add_trusted_params(session_id: &str, path: &str) -> (r: JsonValue)
    ensures
        r@ == permissions_folder_trust_add_trusted_params_spec(session_id@, path@),
{
    let mut p = JsonValue::object();
    p.set("sessionId", JsonValue::string(session_id));
    p.set("path", JsonValue::string(path));
    p
}

/// The parameters of `session.permissions.folderTrust.isTrusted`.
pub open spec fn permissions_folder_trust_is_trusted_params_spec(session_id: Seq<char>, path: Seq<char>) -> JsonView {
    let p = empty_object();
    let p = set_field(p, "sessionId"@, JsonView::Str(session_id));
    let p = set_field(p, "path"@, JsonView::Str(path));
    p
}

/// Builds the parameters of `session.permissions.folderTrust.isTrusted`: report whether a folder is trusted according to the user's folder-trust state.
pub fn permissions_folder_trust_is_trusted_params(session_id: &str, path: &str) -> (r: JsonValue)
    ensures
        r@ == permissions_folder_trust_is_trusted_params_spec(session_id@, path@),
{
    let mut p = JsonValue::object();
    p.set("sessionId", JsonValue::string(session_id));
    p.set("path", JsonValue::string(path));
    p
}

/// The parameters of `session.permissions.urls.setUnrestrictedMode`.
pub open spec fn permissions_urls_set_unrestricted_mode_params_spec(session_id: Seq<char>, enabled: bool) -> JsonView {
    let p = empty_object();
    let p = set_field(p, "sessionId"@, JsonView::Str(session_id));
    let p = set_field(p, "enabled"@, JsonView::Bool(enabled));
    p
}

/// Builds the parameters of `session.permissions.urls.setUnrestrictedMode`: toggle the runtime URL-permission policy between restricted and unrestricted modes.
pub fn permissions_urls_set_unrestricted_mode_params(session_id: &str, enabled: bool) -> (r: JsonValue)
    ensures
        r@ == permissions_urls_set_unrestricted_mode_params_spec(session_id@, enabled),
{
    let mut p = JsonValue::object();
    p.set("sessionId", JsonValue::string(session_id));
    p.set("enabled", JsonValue::Bool(enabled));
    p
}

/// The parameters of `session.skills.enable`.
pub open spec fn skills_enable_params_spec(session_id: Seq<char>, name: Seq<char>) -> JsonView {
    let p = empty_object();
    let p = set_field(p, "sessionId"@, JsonView::Str(session_id));
    let p = set_field(p, "name"@, JsonView::Str(name));
    p
}

/// Builds the parameters of `session.skills.enable`: enable a skill for the session.
pub fn skills_enable_params(session_id: &str, name: &str) -> (r: JsonValue)
    ensures
        r@ == skills_enable_params_spec(session_id@, name@),
{
    let mut p = JsonValue::object();
    p.set("sessionId", JsonValue::string(session_id));
    p.set("name", JsonValue::string(name));
    p
}

/// The parameters of `session.skills.disable`.
pub open spec fn skills_disable_params_spec(session_id: Seq<char>, name: Seq<char>) -> JsonView {
    let p = empty_object();
    let p = set_field(p, "sessionId"@, JsonView::Str(session_id));
    let p = set_field(p, "name"@, JsonView::Str(name));
    p
}

/// Builds the parameters of `session.skills.disable`: disable a skill for the session.
pub fn skills_disable_params(session_id: &str, name: &str) -> (r: JsonValue)
    ensures
        r@ == skills_disable_params_spec(session_id@, name@),
{
    let mut p = JsonValue::object();
    p.set("sessionId", JsonValue::string(session_id));
    p.set("name", JsonValue::string(name));
    p
}

/// The parameters of `session.extensions.enable`.
pub open spec fn extensions_enable_params_spec(session_id: Seq<char>, id: Seq<char>) -> JsonView {
    let p = empty_object();
    let p = set_field(p, "sessionId"@, JsonView::Str(session_id));
    let p = set_field(p, "id"@, JsonView::Str(id));
    p
}

/// Builds the parameters of `session.extensions.enable`: enable an extension for the session.
pub fn extensions_enable_params(session_id: &str, id: &str) -> (r: JsonValue)
    ensures
        r@ == extensions_enable_params_spec(session_id@, id@),
{
    let mut p = JsonValue::object();
    p.set("sessionId", JsonValue::string(session_id));
    p.set("id", JsonValue::string(id));
    p
}

/// The parameters of `session.extensions.disable`.
pub open spec fn extensions_disable_params_spec(session_id: Seq<char>, id: Seq<char>) -> JsonView {
    let p = empty_object();
    let p = set_field(p, "sessionId"@, JsonView::Str(session_id));
    let p = set_field(p, "id"@, JsonView::Str(id));
    p
}

/// Builds the parameters of `session.extensions.disable`: disable an extension for the session.
pub fn extensions_disable_params(session_id: &str, id: &str) -> (r: JsonValue)
    ensures
        r@ == extensions_disable_params_spec(session_id@, id@),
{
    let mut p = JsonValue::object();
    p.set("sessionId", JsonValue::string(session_id));
    p.set("id", JsonValue::string(id));
    p
}

/// The parameters of `session.commands.enqueue`.
pub open spec fn commands_enqueue_params_spec(session_id: Seq<char>, command: Seq<char>) -> JsonView {
    let p = empty_object();
    let p = set_field(p, "sessionId"@, JsonView::Str(session_id));
    let p = set_field(p, "command"@, JsonView::Str(command));
    p
}

/// Builds the parameters of `session.commands.enqueue`: enqueue a slash command for FIFO processing on the local session.
pub fn commands_enqueue_params(session_id: &str, command: &str) -> (r: JsonValue)
    ensures
        r@ == commands_enqueue_params_spec(session_id@, command@),
{
    let mut p = JsonValue::object();
    p.set("sessionId", JsonValue::string(session_id));
    p.set("command", JsonValue::string(command));
    p
}

/// The parameters of `session.commands.execute`.
pub open spec fn commands_execute_params_spec(session_id: Seq<char>, command_name: Seq<char>, args: Seq<char>) -> JsonView {
    let p = empty_object();
    let p = set_field(p, "sessionId"@, JsonView::Str(session_id));
    let p = set_field(p, "commandName"@, JsonView::Str(command_name));
    let p = set_field(p, "args"@, JsonView::Str(args));
    p
}

/// Builds the parameters of `session.commands.execute`: execute a slash command synchronously.
pub fn commands_execute_params(session_id: &str, command_name: &str, args: &str) -> (r: JsonValue)
    ensures
        r@ == commands_execute_params_spec(session_id@, command_name@, args@),
{
    let mut p = JsonValue::object();
    p.set("sessionId", JsonValue::string(session_id));
    p.set("commandName", JsonValue::string(command_name));
    p.set("args", JsonValue::string(args));
    p
}

/// The parameters of `session.commands.invoke`.
pub open spec fn commands_invoke_params_spec(session_id: Seq<char>, name: Seq<char>, input: Option<Seq<char>>) -> JsonView {
    let p = empty_object();
    let p = set_field(p, "sessionId"@, JsonView::Str(session_id));
    let p = set_field(p, "name"@, JsonView::Str(name));
    let p = opt_set(p, "input"@, match input { Some(v) => Some(JsonView::Str(v)), None => None });
    p
}

/// Builds the parameters of `session.commands.invoke`: invoke a slash command in the session.
pub fn commands_invoke_params(session_id: &str, name: &str, input: Option<&str>) -> (r: JsonValue)
    ensures
        r@ == commands_invoke_params_spec(session_id@, name@, crate::rpc::params::opt_str_view(input)),
{
    let mut p = JsonValue::object();
    p.set("sessionId", JsonValue::string(session_id));
    p.set("name", JsonValue::string(name));
    match input {
        Some(v) => p.set("input", JsonValue::string(v)),
        None => {},
    }
    p
}

/// The parameters of `session.commands.list`.
pub open spec fn commands_list_params_spec(session_id: Seq<char>, request: Option<CommandsListRequest>) -> JsonView {
    let p = empty_object();
    let p = set_field(p, "sessionId"@, JsonView::Str(session_id));
    let p = match request {
        Some(q) => {
            let p = opt_set(p, "includeBuiltins"@, match q.include_builtins { Some(v) => Some(JsonView::Bool(v)), None => None });
            let p = opt_set(p, "includeSkills"@, match q.include_skills { Some(v) => Some(JsonView::Bool(v)), None => None });
            let p = opt_set(p, "includeClientCommands"@, match q.include_client_commands { Some(v) => Some(JsonView::Bool(v)), None => None });
            p
        },
        None => p,
    };
    p
}

/// Builds the parameters of `session.commands.list`: list slash commands available in the session.
pub fn commands_list_params(session_id: &str, request: Option<&CommandsListRequest>) -> (r: JsonValue)
    ensures
        r@ == commands_list_params_spec(session_id@, crate::rpc::params::opt_deref(request)),
{
    let mut p = JsonValue::object();
    p.set("sessionId", JsonValue::string(session_id));
    match request {
        Some(q) => {
            match &q.include_builtins {
                Some(v) => p.set("includeBuiltins", JsonValue::Bool(*v)),
                None => {},
            }
            match &q.include_skills {
                Some(v) => p.set("includeSkills", JsonValue::Bool(*v)),
                None => {},
            }
            match &q.include_client_commands {
                Some(v) => p.set("includeClientCommands", JsonValue::Bool(*v)),
                None => {},
            }
        },
        None => {},
    }
    p
}

/// The parameters of `session.commands.respondToQueuedCommand`.
pub open spec fn commands_respond_to_queued_command_params_spec(session_id: Seq<char>, request_id: Seq<char>, result: QueuedCommandResult) -> JsonView {
    let p = empty_object();
    let p = set_field(p, "sessionId"@, JsonView::Str(session_id));
    let p = set_field(p, "requestId"@, JsonView::Str(request_id));
    let p = set_field(p, "result"@, crate::rpc::skills::queued_result_wire(result));
    p
}

/// Builds the parameters of `session.commands.respondToQueuedCommand`: report whether the host executed a queued command and whether processing should continue.
pub fn commands_respond_to_queued_command_params(session_id: &str, request_id: &str, result: &QueuedCommandResult) -> (r: JsonValue)
    ensures
        r@ == commands_respond_to_queued_command_params_spec(session_id@, request_id@, *result),
{
    let mut p = JsonValue::object();
    p.set("sessionId", JsonValue::string(session_id));
    p.set("requestId", JsonValue::string(request_id));
    p.set("result", result.to_json());
    p
}

/// The parameters of `session.tasks.startAgent`.
pub open spec fn tasks_start_agent_params_spec(session_id: Seq<char>, agent_type: Seq<char>, prompt: Seq<char>, name: Seq<char>, description: Option<Seq<char>>, model: Option<Seq<char>>) -> JsonView {
    let p = empty_object();
    let p = set_field(p, "sessionId"@, JsonView::Str(session_id));
    let p = set_field(p, "agentType"@, JsonView::Str(agent_type));
    let p = set_field(p, "prompt"@, JsonView::Str(prompt));
    let p = set_field(p, "name"@, JsonView::Str(name));
    let p = opt_set(p, "description"@, match description { Some(v) => Some(JsonView::Str(v)), None => None });
    let p = opt_set(p, "model"@, match model { Some(v) => Some(JsonView::Str(v)), None => None });
    p
}

/// Builds the parameters of `session.tasks.startAgent`: starts a background agent task in the session.
pub fn tasks_start_agent_params(session_id: &str, agent_type: &str, prompt: &str, name: &str, description: Option<&str>, model: Option<&str>) -> (r: JsonValue)
    ensures
        r@ == tasks_start_agent_params_spec(session_id@, agent_type@, prompt@, name@, crate::rpc::params::opt_str_view(description), crate::rpc::params::opt_str_view(model)),
{
    let mut p = JsonValue::object();
    p.set("sessionId", JsonValue::string(session_id));
    p.set("agentType", JsonValue::string(agent_type));
    p.set("prompt", JsonValue::string(prompt));
    p.set("name", JsonValue::string(name));
    match description {
        Some(v) => p.set("description", JsonValue::string(v)),
        None => {},
    }
    match model {
        Some(v) => p.set("model", JsonValue::string(v)),
        None => {},
    }
    p
}

/// The parameters of `session.tasks.getProgress`.
pub open spec fn tasks_get_progress_params_spec(session_id: Seq<char>, id: Seq<char>) -> JsonView {
    let p = empty_object();
    let p = set_field(p, "sessionId"@, JsonView::Str(session_id));
    let p = set_field(p, "id"@, JsonView::Str(id));
    p
}

/// Builds the parameters of `session.tasks.getProgress`: returns progress information for a tracked background task by ID.
pub fn tasks_get_progress_params(session_id: &str, id: &str) -> (r: JsonValue)
    ensures
        r@ == tasks_get_progress_params_spec(session_id@, id@),
{
    let mut p = JsonValue::object();
    p.set("sessionId", JsonValue::string(session_id));
    p.set("id", JsonValue::string(id));
    p
}

/// The parameters of `session.tasks.promoteToBackground`.
pub open spec fn tasks_promote_to_background_params_spec(session_id: Seq<char>, id: Seq<char>) -> JsonView {
    let p = empty_object();
    let p = set_field(p, "sessionId"@, JsonView::Str(session_id));
    let p = set_field(p, "id"@, JsonView::Str(id));
    p
}

/// Builds the parameters of `session.tasks.promoteToBackground`: promotes an eligible synchronously awaited task into background mode.
pub fn tasks_promote_to_background_params(session_id: &str, id: &str) -> (r: JsonValue)
    ensures
        r@ == tasks_promote_to_background_params_spec(session_id@, id@),
{
    let mut p = JsonValue::object();
    p.set("sessionId", JsonValue::string(session_id));
    p.set("id", JsonValue::string(id));
    p
}

/// The parameters of `session.tasks.cancel`.
pub open spec fn tasks_cancel_params_spec(session_id: Seq<char>, id: Seq<char>) -> JsonView {
    let p = empty_object();
    let p = set_field(p, "sessionId"@, JsonView::Str(session_id));
    let p = set_field(p, "id"@, JsonView::Str(id));
    p
}

/// Builds the parameters of `session.tasks.cancel`: cancels a tracked background task.
pub fn tasks_cancel_params(session_id: &str, id: &str) -> (r: JsonValue)
    ensures
        r@ == tasks_cancel_params_spec(session_id@, id@),
{
    let mut p = JsonValue::object();
    p.set("sessionId", JsonValue::string(session_id));
    p.set("id", JsonValue::string(id));
    p
}

/// The parameters of `session.tasks.remove`.
pub open spec fn tasks_remove_params_spec(session_id: Seq<char>, id: Seq<char>) -> JsonView {
    let p = empty_object();
    let p = set_field(p, "sessionId"@, JsonView::Str(session_id));
    let p = set_field(p, "id"@, JsonView::Str(id));
    p
}

/// Builds the parameters of `session.tasks.remove`: removes a completed or cancelled task from session tracking.
pub fn tasks_remove_params(session_id: &str, id: &str) -> (r: JsonValue)
    ensures
        r@ == tasks_remove_params_spec(session_id@, id@),
{
    let mut p = JsonValue::object();
    p.set("sessionId", JsonValue::string(session_id));
    p.set("id", JsonValue::string(id));
    p
}

/// The parameters of `session.tasks.sendMessage`.
pub open spec fn tasks_send_message_params_spec(session_id: Seq<char>, id: Seq<char>, message: Seq<char>, from_agent_id: Option<Seq<char>>) -> JsonView {
    let p = empty_object();
    let p = set_field(p, "sessionId"@, JsonView::Str(session_id));
    let p = set_field(p, "id"@, JsonView::Str(id));
    let p = set_field(p, "message"@, JsonView::Str(message));
    let p = opt_set(p, "fromAgentId"@, match from_agent_id { Some(v) => Some(JsonView::Str(v)), None => None });
    p
}

/// Builds the parameters of `session.tasks.sendMessage`: sends a message to a background agent task.
pub fn tasks_send_message_params(session_id: &str, id: &str, message: &str, from_agent_id: Option<&str>) -> (r: JsonValue)
    ensures
        r@ == tasks_send_message_params_spec(session_id@, id@, message@, crate::rpc::params::opt_str_view(from_agent_id)),
{
    let mut p = JsonValue::object();
    p.set("sessionId", JsonValue::string(session_id));
    p.set("id", JsonValue::string(id));
    p.set("message", JsonValue::string(message));
    match from_agent_id {
        Some(v) => p.set("fromAgentId", JsonValue::string(v)),
        None => {},
    }
    p
}

} // verus!
