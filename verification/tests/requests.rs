use copilot_sdk::error::CopilotError;
use copilot_sdk::json::JsonValue;
use copilot_sdk::requests::{
    agents_member, fleet_start_params, has_current_agent, plan_update_params, select_agent_params,
    set_model_params, shell_exec_params, shell_kill_params, shell_result_from_response,
    update_options_params, workspace_create_file_params, workspace_files_member,
    workspace_read_file_params,
};
use copilot_sdk::session::{permission_decision, required_str};
use copilot_sdk::types::{
    FleetStartOptions, ModelCapabilitiesOverride, ModelCapabilitiesOverrideLimits,
    ModelCapabilitiesOverrideLimitsVision, ModelCapabilitiesOverrideSupports,
    PermissionRequestResult, PlanData, ReasoningSummary, SessionInstalledPlugin,
    SessionUpdateOptions, SetModelOptions, ShellExecOptions, ShellSignal,
};

fn s(v: &str) -> JsonValue {
    JsonValue::Str(v.to_string())
}

fn n(v: &str) -> JsonValue {
    JsonValue::Number(v.to_string())
}

fn obj(members: Vec<(&str, JsonValue)>) -> JsonValue {
    JsonValue::Object(members.into_iter().map(|(k, v)| (k.to_string(), v)).collect())
}

fn at<'a>(v: &'a JsonValue, path: &[&str]) -> Option<&'a JsonValue> {
    let mut cur = v;
    for k in path {
        cur = cur.get(k)?;
    }
    Some(cur)
}

fn member_count(v: &JsonValue) -> usize {
    match v {
        JsonValue::Object(m) => m.len(),
        _ => usize::MAX,
    }
}

/// The members set over `sessionId` and `modelId`, in order.
fn merged_members(v: &JsonValue) -> Vec<String> {
    match v {
        JsonValue::Object(m) => m.iter().skip(2).map(|(k, _)| k.clone()).collect(),
        _ => Vec::new(),
    }
}

#[test]
fn test_shell_signal_serialization() {
    let kill = shell_kill_params("s1", "p1", ShellSignal::SIGINT);
    assert_eq!(kill.get("signal"), Some(&s("SIGINT")));
    let kill = shell_kill_params("s1", "p1", ShellSignal::SIGKILL);
    assert_eq!(kill.get("signal"), Some(&s("SIGKILL")));
}

#[test]
fn shell_kill_params_shape() {
    let p = shell_kill_params("s1", "proc-9", ShellSignal::SIGTERM);
    assert_eq!(
        p,
        obj(vec![("sessionId", s("s1")), ("processId", s("proc-9")), ("signal", s("SIGTERM"))])
    );
}

#[test]
fn test_shell_exec_options_serialization() {
    let opts = ShellExecOptions { command: "ls -la".into(), cwd: Some("/tmp".into()), env: None };
    let value = shell_exec_params("s1", &opts);
    assert_eq!(value.get("command"), Some(&s("ls -la")));
    assert_eq!(value.get("cwd"), Some(&s("/tmp")));
}

#[test]
fn shell_exec_params_with_env_and_without_cwd() {
    let opts = ShellExecOptions {
        command: "make".into(),
        cwd: None,
        env: Some(vec![("A".into(), "1".into()), ("B".into(), "2".into())]),
    };
    let p = shell_exec_params("sess", &opts);
    assert_eq!(
        p,
        obj(vec![
            ("command", s("make")),
            ("env", obj(vec![("A", s("1")), ("B", s("2"))])),
            ("sessionId", s("sess")),
        ])
    );
    assert!(p.get("cwd").is_none());
}

#[test]
fn shell_results_need_a_process_id() {
    let ok = shell_result_from_response(&obj(vec![("processId", s("p-1"))])).unwrap();
    assert_eq!(ok.process_id, "p-1");
    match shell_result_from_response(&obj(vec![])) {
        Err(CopilotError::Protocol(m)) => {
            assert_eq!(m, "Failed to parse shell result: missing field `processId`")
        }
        other => panic!("unexpected {:?}", other),
    }
    match shell_result_from_response(&obj(vec![("processId", n("5"))])) {
        Err(CopilotError::Protocol(m)) => assert_eq!(m, "Failed to parse shell result: invalid type"),
        other => panic!("unexpected {:?}", other),
    }
    let listed = shell_result_from_response(&JsonValue::Array(vec![s("p-2")])).unwrap();
    assert_eq!(listed.process_id, "p-2");
    match shell_result_from_response(&JsonValue::Array(vec![])) {
        Err(CopilotError::Protocol(m)) => assert_eq!(m, "Failed to parse shell result: invalid length"),
        other => panic!("unexpected {:?}", other),
    }
}

#[test]
fn test_fleet_start_options_serialization() {
    let opts = FleetStartOptions { prompt: Some("Build and test the project".into()) };
    let value = fleet_start_params("s1", Some(&opts));
    assert_eq!(value.get("prompt"), Some(&s("Build and test the project")));
}

#[test]
fn fleet_prompt_only_when_given() {
    assert_eq!(fleet_start_params("s1", None), obj(vec![("sessionId", s("s1"))]));
    let empty = FleetStartOptions { prompt: None };
    assert_eq!(fleet_start_params("s1", Some(&empty)), obj(vec![("sessionId", s("s1"))]));
}

#[test]
fn agent_listing_and_current_agent() {
    let listed = agents_member(&obj(vec![("agents", JsonValue::Array(vec![obj(vec![("name", s("a"))])]))]));
    assert_eq!(listed, JsonValue::Array(vec![obj(vec![("name", s("a"))])]));
    assert_eq!(agents_member(&obj(vec![])), JsonValue::Array(vec![]));
    assert_eq!(agents_member(&JsonValue::Null), JsonValue::Array(vec![]));
    assert!(has_current_agent(&obj(vec![("name", s("critic"))])));
    assert!(!has_current_agent(&JsonValue::Null));
    assert!(!has_current_agent(&obj(vec![("displayName", s("x"))])));
    assert_eq!(
        select_agent_params("s1", "critic"),
        obj(vec![("sessionId", s("s1")), ("name", s("critic"))])
    );
}

#[test]
fn test_plan_data_serialization() {
    let plan = PlanData { content: Some("Step 1: Do things".into()), title: Some("My Plan".into()) };
    let value = plan_update_params("s1", &plan);
    assert_eq!(value.get("content"), Some(&s("Step 1: Do things")));
    assert_eq!(value.get("title"), Some(&s("My Plan")));
}

#[test]
fn plan_update_skips_unset_members() {
    let plan = PlanData { content: None, title: Some("T".into()) };
    assert_eq!(plan_update_params("s1", &plan), obj(vec![("title", s("T")), ("sessionId", s("s1"))]));
}

#[test]
fn workspace_requests() {
    assert_eq!(
        workspace_files_member(&obj(vec![("files", JsonValue::Array(vec![s("x")]))])),
        JsonValue::Array(vec![s("x")])
    );
    assert_eq!(workspace_files_member(&obj(vec![])), JsonValue::Array(vec![]));
    assert_eq!(
        workspace_read_file_params("s1", "plan.md"),
        obj(vec![("sessionId", s("s1")), ("path", s("plan.md"))])
    );
    assert_eq!(
        workspace_create_file_params("s1", "a.txt", "hi"),
        obj(vec![("sessionId", s("s1")), ("path", s("a.txt")), ("content", s("hi"))])
    );
    assert_eq!(required_str(&obj(vec![("content", s("body"))]), "content").unwrap(), "body");
    match required_str(&obj(vec![]), "content") {
        Err(CopilotError::Protocol(m)) => assert_eq!(m, "Missing content in response"),
        other => panic!("unexpected {:?}", other),
    }
}

#[test]
fn test_set_model_options_serialization() {
    let opts = SetModelOptions { reasoning_effort: Some("high".into()), ..Default::default() };
    let value = set_model_params("s1", "gpt-5", Some(&opts));
    assert_eq!(value.get("reasoningEffort"), Some(&s("high")));
}

#[test]
fn test_reasoning_summary_wire_names() {
    for (v, w) in [
        (ReasoningSummary::Omitted, "none"),
        (ReasoningSummary::Concise, "concise"),
        (ReasoningSummary::Detailed, "detailed"),
    ] {
        let opts = SetModelOptions { reasoning_summary: Some(v), ..Default::default() };
        assert_eq!(set_model_params("s", "m", Some(&opts)).get("reasoningSummary"), Some(&s(w)));
    }
}

#[test]
fn test_model_capabilities_override_limits_use_snake_case() {
    let caps = ModelCapabilitiesOverride {
        limits: Some(ModelCapabilitiesOverrideLimits {
            max_prompt_tokens: Some(1000),
            max_output_tokens: Some(200),
            max_context_window_tokens: Some(1200),
            vision: Some(ModelCapabilitiesOverrideLimitsVision {
                supported_media_types: Some(vec!["image/png".into()]),
                max_prompt_images: Some(3),
                max_prompt_image_size: Some(4096),
            }),
        }),
        supports: Some(ModelCapabilitiesOverrideSupports { vision: Some(true), reasoning_effort: Some(true) }),
    };
    let opts = SetModelOptions { model_capabilities: Some(caps), ..Default::default() };
    let p = set_model_params("s1", "m", Some(&opts));
    let v = p.get("modelCapabilities").unwrap();
    assert_eq!(at(v, &["limits", "max_prompt_tokens"]), Some(&n("1000")));
    assert_eq!(at(v, &["limits", "max_output_tokens"]), Some(&n("200")));
    assert_eq!(at(v, &["limits", "max_context_window_tokens"]), Some(&n("1200")));
    assert_eq!(
        at(v, &["limits", "vision", "supported_media_types"]),
        Some(&JsonValue::Array(vec![s("image/png")]))
    );
    assert_eq!(at(v, &["limits", "vision", "max_prompt_images"]), Some(&n("3")));
    assert_eq!(at(v, &["limits", "vision", "max_prompt_image_size"]), Some(&n("4096")));
    assert_eq!(at(v, &["supports", "reasoningEffort"]), Some(&JsonValue::Bool(true)));
    assert_eq!(at(v, &["supports", "vision"]), Some(&JsonValue::Bool(true)));
}

#[test]
fn test_set_model_options_serializes_overrides() {
    let opts = SetModelOptions {
        reasoning_effort: Some("high".into()),
        reasoning_summary: Some(ReasoningSummary::Detailed),
        model_capabilities: Some(ModelCapabilitiesOverride {
            supports: Some(ModelCapabilitiesOverrideSupports { vision: Some(false), ..Default::default() }),
            ..Default::default()
        }),
    };
    let v = set_model_params("s1", "m", Some(&opts));
    assert_eq!(v.get("reasoningEffort"), Some(&s("high")));
    assert_eq!(v.get("reasoningSummary"), Some(&s("detailed")));
    assert_eq!(at(&v, &["modelCapabilities", "supports", "vision"]), Some(&JsonValue::Bool(false)));
}

#[test]
fn test_set_model_options_default_is_empty_object() {
    let v = set_model_params("s1", "m", Some(&SetModelOptions::default()));
    assert!(merged_members(&v).is_empty());
    assert_eq!(v, obj(vec![("sessionId", s("s1")), ("modelId", s("m"))]));
}

#[test]
fn set_model_without_options_sends_session_and_model() {
    assert_eq!(set_model_params("s1", "gpt-5", None), obj(vec![("sessionId", s("s1")), ("modelId", s("gpt-5"))]));
}

#[test]
fn test_session_update_options_is_empty() {
    assert!(SessionUpdateOptions::default().is_empty());
    let patch = SessionUpdateOptions { coauthor_enabled: Some(false), ..Default::default() };
    assert!(!patch.is_empty());
    let v = update_options_params("s1", &patch).unwrap();
    assert_eq!(member_count(&v) - 1, 1);
    assert_eq!(v.get("coauthorEnabled"), Some(&JsonValue::Bool(false)));
}

#[test]
fn test_session_update_options_wire_names() {
    let patch = SessionUpdateOptions {
        skip_custom_instructions: Some(true),
        custom_agents_local_only: Some(true),
        manage_schedule_enabled: Some(false),
        installed_plugins: Some(Vec::new()),
        enable_skills: Some(false),
        ..Default::default()
    };
    let v = update_options_params("s1", &patch).unwrap();
    assert_eq!(v.get("skipCustomInstructions"), Some(&JsonValue::Bool(true)));
    assert_eq!(v.get("customAgentsLocalOnly"), Some(&JsonValue::Bool(true)));
    assert_eq!(v.get("manageScheduleEnabled"), Some(&JsonValue::Bool(false)));
    assert_eq!(v.get("installedPlugins"), Some(&JsonValue::Array(vec![])));
    assert_eq!(v.get("enableSkills"), Some(&JsonValue::Bool(false)));
}

#[test]
fn empty_patch_sends_nothing() {
    assert!(update_options_params("s1", &SessionUpdateOptions::default()).is_none());
}

#[test]
fn update_options_members_and_plugins() {
    let patch = SessionUpdateOptions {
        model: Some("gpt-5".into()),
        feature_flags: Some(vec![("beta".into(), true)]),
        available_tools: Some(vec!["view".into()]),
        installed_plugins: Some(vec![SessionInstalledPlugin {
            name: "p".into(),
            marketplace: "".into(),
            installed_at: "2026-01-01".into(),
            enabled: true,
            version: Some("1.0".into()),
            cache_path: None,
            source: Some(s("owner/repo")),
        }]),
        ..Default::default()
    };
    let v = update_options_params("s1", &patch).unwrap();
    assert_eq!(
        v,
        obj(vec![
            ("model", s("gpt-5")),
            ("featureFlags", obj(vec![("beta", JsonValue::Bool(true))])),
            ("availableTools", JsonValue::Array(vec![s("view")])),
            (
                "installedPlugins",
                JsonValue::Array(vec![obj(vec![
                    ("name", s("p")),
                    ("marketplace", s("")),
                    ("installed_at", s("2026-01-01")),
                    ("enabled", JsonValue::Bool(true)),
                    ("version", s("1.0")),
                    ("source", s("owner/repo")),
                ])])
            ),
            ("sessionId", s("s1")),
        ])
    );
}

#[test]
fn permission_default_is_denial() {
    let d = permission_decision(None);
    assert_eq!(d.kind, "denied-no-approval-rule-and-could-not-request-from-user");
    assert!(d.rules.is_none());
    let a = permission_decision(Some(PermissionRequestResult::approved()));
    assert_eq!(a.kind, "approved");
}
