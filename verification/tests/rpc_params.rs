use copilot_sdk::json::JsonValue;
use copilot_sdk::rpc::history::{
    SessionRpcEventLogReadOptions, SessionRpcEventsAgentScope, SessionRpcModelListOptions,
    SessionRpcRemoteEnableOptions, SessionRpcRemoteSessionMode,
};
use copilot_sdk::rpc::params::{
    canvas_open_params, event_log_read_params, mcp_oauth_login_params, metadata_context_info_params,
    model_list_params, permissions_configure_params, permissions_modify_rules_params,
    permissions_set_allow_all_params, remote_enable_params, tasks_start_agent_params,
    telemetry_set_feature_overrides_params,
};
use copilot_sdk::rpc::permissions::{
    PermissionRule, PermissionsModifyRulesParams, PermissionsModifyRulesScope,
    PermissionsSetAllowAllSource,
};
use copilot_sdk::rpc::sessions::{SessionListFilter, SessionsListRequest};
use copilot_sdk::types::{SectionOverride, SectionOverrideAction};

fn s(v: &str) -> JsonValue {
    JsonValue::Str(v.to_string())
}

fn n(v: &str) -> JsonValue {
    JsonValue::Number(v.to_string())
}

fn obj(members: Vec<(&str, JsonValue)>) -> JsonValue {
    JsonValue::Object(members.into_iter().map(|(k, v)| (k.to_string(), v)).collect())
}

#[test]
fn transform_override_wire_action() {
    let over: SectionOverride<fn(String) -> String> = SectionOverride::transform(|c| c);
    assert_eq!(over.to_json().get("action"), Some(&s("transform")));
}

#[test]
fn transform_override_sends_only_its_action() {
    let over: SectionOverride<fn(String) -> String> = SectionOverride::transform(|c| c.to_uppercase());
    assert_eq!(over.action, SectionOverrideAction::Transform);
    assert!(over.content.is_none());
    assert!(over.transform.is_some());
    assert_eq!(over.to_json(), obj(vec![("action", s("transform"))]));
    let app: SectionOverride<fn(String) -> String> = SectionOverride::append("extra");
    assert_eq!(app.to_json(), obj(vec![("action", s("append")), ("content", s("extra"))]));
}

#[test]
fn event_log_read_sends_only_set_options() {
    let all = SessionRpcEventLogReadOptions {
        cursor: Some("c1".into()),
        max: Some(50),
        wait_ms: Some(1000),
        types: Some(s("*")),
        agent_scope: Some(SessionRpcEventsAgentScope::Primary),
    };
    assert_eq!(
        event_log_read_params("s1", &all),
        obj(vec![
            ("sessionId", s("s1")),
            ("cursor", s("c1")),
            ("max", n("50")),
            ("waitMs", n("1000")),
            ("types", s("*")),
            ("agentScope", s("primary")),
        ])
    );
    let none = SessionRpcEventLogReadOptions { cursor: None, max: None, wait_ms: None, types: None, agent_scope: None };
    assert_eq!(event_log_read_params("s1", &none), obj(vec![("sessionId", s("s1"))]));
}

#[test]
fn canvas_open_adds_extension_and_input_when_given() {
    assert_eq!(
        canvas_open_params("s1", "charts", "i1", None, None),
        obj(vec![("sessionId", s("s1")), ("canvasId", s("charts")), ("instanceId", s("i1"))])
    );
    let input = obj(vec![("x", n("1"))]);
    let p = canvas_open_params("s1", "charts", "i1", Some("ext"), Some(&input));
    assert_eq!(p.get("extensionId"), Some(&s("ext")));
    assert_eq!(p.get("input"), Some(&input));
}

#[test]
fn optional_option_structs() {
    assert_eq!(model_list_params("s1", None), obj(vec![("sessionId", s("s1"))]));
    let o = SessionRpcModelListOptions { skip_cache: Some(true) };
    assert_eq!(model_list_params("s1", Some(&o)).get("skipCache"), Some(&JsonValue::Bool(true)));
    let r = SessionRpcRemoteEnableOptions { mode: Some(SessionRpcRemoteSessionMode::Export) };
    assert_eq!(remote_enable_params("s1", Some(&r)).get("mode"), Some(&s("export")));
}

#[test]
fn permission_requests() {
    let changes = PermissionsModifyRulesParams {
        scope: PermissionsModifyRulesScope::Location,
        add: Some(vec![PermissionRule { kind: "Shell".into(), argument: None }]),
        remove: None,
        remove_all: Some(false),
    };
    assert_eq!(
        permissions_modify_rules_params("s1", &changes),
        obj(vec![
            ("scope", s("location")),
            ("add", JsonValue::Array(vec![obj(vec![("kind", s("Shell")), ("argument", JsonValue::Null)])])),
            ("removeAll", JsonValue::Bool(false)),
            ("sessionId", s("s1")),
        ])
    );
    let conf = obj(vec![("approveAll", JsonValue::Bool(true))]);
    assert_eq!(
        permissions_configure_params("s1", &conf),
        obj(vec![("approveAll", JsonValue::Bool(true)), ("sessionId", s("s1"))])
    );
    let p = permissions_set_allow_all_params("s1", true, Some(&PermissionsSetAllowAllSource::SlashCommand));
    assert_eq!(p.get("source"), Some(&s("slash_command")));
    assert_eq!(p.get("enabled"), Some(&JsonValue::Bool(true)));
}

#[test]
fn other_namespaces() {
    let p = mcp_oauth_login_params("s1", "github", Some(true), None, Some("done"));
    assert_eq!(
        p,
        obj(vec![
            ("sessionId", s("s1")),
            ("serverName", s("github")),
            ("forceReauth", JsonValue::Bool(true)),
            ("callbackSuccessMessage", s("done")),
        ])
    );
    let c = metadata_context_info_params("s1", 1000, 200, Some("gpt-5"));
    assert_eq!(c.get("promptTokenLimit"), Some(&n("1000")));
    assert_eq!(c.get("selectedModel"), Some(&s("gpt-5")));
    let t = tasks_start_agent_params("s1", "explore", "look", "scout", None, Some("m"));
    assert!(t.get("description").is_none());
    assert_eq!(t.get("model"), Some(&s("m")));
    let f = telemetry_set_feature_overrides_params("s1", &vec![("a".into(), "on".into())]);
    assert_eq!(f.get("features"), Some(&obj(vec![("a", s("on"))])));
}

#[test]
fn request_wire_objects() {
    let req = SessionsListRequest {
        metadata_limit: Some(5),
        filter: Some(SessionListFilter { cwd: Some("/w".into()), git_root: None, repository: None, branch: None }),
        include_detached: None,
    };
    assert_eq!(
        req.to_json(),
        obj(vec![("metadataLimit", n("5")), ("filter", obj(vec![("cwd", s("/w"))]))])
    );
}
