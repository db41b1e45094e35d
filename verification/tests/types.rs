use copilot_sdk::json::JsonValue;
use copilot_sdk::keyed::NamedMap;
use copilot_sdk::rpc::skills::QueuedCommandResult;
use copilot_sdk::types::{
    approve_all, default_join_session_permission_handler, system_message_sections,
    AutoModeSwitchResponse, ClientOptions, ConnectionKind, CopilotClientMode, ElicitationMode, ElicitationResult,
    ExitPlanModeResult, HookKind, LogLevel, MessageOptions, PermissionRequest,
    PermissionRequestResult, PreToolUseHookInput, PreToolUseHookOutput, ProviderConfig, SectionOverride,
    SectionOverrideAction, SessionCapabilities, SessionHooks, StopError, SystemMessageConfig,
    SessionMode, SystemMessageMode, SystemMessageSection, TelemetryConfig, UiCapabilities,
};
use copilot_sdk::session::session_mode_wire_name;
use copilot_sdk::trace::{get_trace_context, TraceContext};
use std::sync::Arc;

#[test]
fn test_message_options_from_str() {
    let opts: MessageOptions = "Hello".into();
    assert_eq!(opts.prompt, "Hello");
}

#[test]
fn test_stop_error_display() {
    let err = StopError { message: "timeout".into(), source: Some("rpc".into()) };
    assert_eq!(err.text(), "timeout");
}

#[test]
fn test_telemetry_config_default() {
    let config = TelemetryConfig::default();
    assert!(config.otlp_endpoint.is_none());
    assert!(config.file_path.is_none());
    assert!(config.capture_content.is_none());
}

#[test]
fn test_connection_kind_default_is_child() {
    assert_eq!(ConnectionKind::default(), ConnectionKind::Child);
}

#[test]
fn test_section_override_debug_hides_callback() {
    let over = SectionOverride::transform(|content: String| Box::pin(async move { content }));
    let debug = over.debug_text();
    assert!(debug.contains("Transform"));
}

#[test]
fn test_permission_result() {
    let approved = PermissionRequestResult::approved();
    assert_eq!(approved.kind, "approved");
    assert!(approved.is_approved());
    assert!(!approved.is_denied());

    let denied = PermissionRequestResult::denied();
    assert!(denied.kind.starts_with("denied"));
    assert!(denied.is_denied());
    assert!(!denied.is_approved());
}

#[test]
fn test_session_hooks_has_any() {
    let hooks: SessionHooks<Arc<dyn Fn(PreToolUseHookInput) -> PreToolUseHookOutput>> = SessionHooks::default();
    assert!(!hooks.has_any());

    let hooks: SessionHooks<Arc<dyn Fn(PreToolUseHookInput) -> PreToolUseHookOutput>> = SessionHooks {
        on_pre_tool_use: Some(Arc::new(|_| PreToolUseHookOutput::default())),
        ..Default::default()
    };
    assert!(hooks.has_any());
}

#[test]
fn test_session_hooks_debug() {
    let hooks: SessionHooks<Arc<dyn Fn(PreToolUseHookInput) -> PreToolUseHookOutput>> = SessionHooks {
        on_pre_tool_use: Some(Arc::new(|_| PreToolUseHookOutput::default())),
        ..Default::default()
    };
    let debug = hooks.debug_text();
    assert!(debug.contains("on_pre_tool_use: true"));
    assert!(debug.contains("on_post_tool_use: false"));
}

#[test]
fn hook_kinds_round_trip_through_wire_names() {
    for k in [
        HookKind::PreToolUse,
        HookKind::PostToolUse,
        HookKind::UserPromptSubmitted,
        HookKind::SessionStart,
        HookKind::SessionEnd,
        HookKind::ErrorOccurred,
    ] {
        assert_eq!(HookKind::from_wire_name(k.wire_name()), Some(k));
    }
    assert_eq!(HookKind::from_wire_name("nope"), None);
}

#[test]
fn section_ids_and_descriptions() {
    assert_eq!(SystemMessageSection::ToolEfficiency.id(), "tool_efficiency");
    assert_eq!(SystemMessageSection::Identity.description(), "Agent identity preamble and mode statement");
    let all = system_message_sections();
    assert_eq!(all.len(), SystemMessageSection::ALL.len());
    assert_eq!(all[0].0, SystemMessageSection::Identity);
    assert_eq!(all[10].0, SystemMessageSection::LastInstructions);
    let mut ids: Vec<&str> = SystemMessageSection::ALL.iter().map(|s| s.id()).collect();
    ids.sort();
    ids.dedup();
    assert_eq!(ids.len(), 11);
}

#[test]
fn section_override_constructors() {
    let r: SectionOverride<()> = SectionOverride::replace("x");
    assert_eq!(r.action, SectionOverrideAction::Replace);
    assert_eq!(r.content.as_deref(), Some("x"));
    let rm: SectionOverride<()> = SectionOverride::remove();
    assert!(rm.content.is_none());
    assert!(rm.transform_fn().is_none());
    let t = SectionOverride::transform(7u8);
    assert_eq!(t.transform_fn(), Some(&7u8));
    let mut p: SectionOverride<u8> = SectionOverride::prepend("p");
    assert_eq!(p.action, SectionOverrideAction::Prepend);
    p.transform = Some(1);
    assert!(p.transform_fn().is_none());
    assert_eq!(SectionOverrideAction::Transform.wire_name(), "transform");
    let a: SectionOverride<()> = SectionOverride::append("tail");
    assert_eq!(a.debug_text(), "SectionOverride { action: Append, content: Some(\"tail\"), transform: None }");
}

#[test]
fn system_message_config_builders() {
    let c: SystemMessageConfig<()> = SystemMessageConfig::append("more");
    assert_eq!(c.mode, Some(SystemMessageMode::Append));
    assert_eq!(c.content.as_deref(), Some("more"));
    let c: SystemMessageConfig<()> = SystemMessageConfig::replace("all");
    assert_eq!(c.mode, Some(SystemMessageMode::Replace));
    let c: SystemMessageConfig<()> = SystemMessageConfig::customize(NamedMap::new())
        .with_section(SystemMessageSection::Tone, SectionOverride::remove())
        .with_section(SystemMessageSection::Tone, SectionOverride::replace("calm"));
    assert_eq!(c.mode, Some(SystemMessageMode::Customize));
    let sections = c.sections.unwrap();
    assert_eq!(sections.len(), 1);
    assert_eq!(sections.get("tone").unwrap().content.as_deref(), Some("calm"));
    let kept: SystemMessageConfig<()> =
        SystemMessageConfig::append("x").with_section(SystemMessageSection::Safety, SectionOverride::remove());
    assert_eq!(kept.mode, Some(SystemMessageMode::Append));
    assert!(kept.sections.unwrap().contains_key("safety"));
}

#[test]
fn permission_handlers() {
    let req = PermissionRequest { kind: "shell".into(), tool_call_id: None, extension_data: vec![] };
    assert_eq!(approve_all(&req).kind, "approve-once");
    assert_eq!(default_join_session_permission_handler(&req).kind, "no-result");
    assert_eq!(PermissionRequestResult::reject().kind, "reject");
}

#[test]
fn capabilities_support_checks_and_merge() {
    let mut caps = SessionCapabilities::default();
    assert!(!caps.supports_elicitation());
    assert!(!caps.supports_canvases());
    let ui = UiCapabilities { elicitation: Some(true), mcp_apps: None, canvases: Some(false) };
    caps.merge_changed(Some(ui));
    assert!(caps.supports_elicitation());
    assert!(!caps.supports_canvases());
    caps.merge_changed(None);
    assert_eq!(caps.ui, Some(ui));
}

#[test]
fn elicitation_helpers() {
    let c = ElicitationResult::cancel();
    assert_eq!(c.action, "cancel");
    assert!(!c.is_accept());
    assert_eq!(ElicitationMode::from_wire_name("url"), ElicitationMode::Url);
    assert_eq!(ElicitationMode::from_wire_name("form"), ElicitationMode::Form);
    assert_eq!(ElicitationMode::from_wire_name("other"), ElicitationMode::Form);
}

#[test]
fn defaults_of_answers_and_modes() {
    let d = ExitPlanModeResult::default();
    assert!(d.approved);
    assert!(d.selected_action.is_none());
    assert_eq!(AutoModeSwitchResponse::default(), AutoModeSwitchResponse::No);
    assert_eq!(AutoModeSwitchResponse::YesAlways.wire_name(), "yes_always");
    assert_eq!(CopilotClientMode::default(), CopilotClientMode::CopilotCli);
    assert_eq!(LogLevel::default(), LogLevel::Info);
    assert_eq!(LogLevel::Silent.as_str(), "none");
}

#[test]
fn provider_config_from_env_values() {
    assert!(ProviderConfig::from_env_values(None, None, None).is_none());
    assert!(ProviderConfig::from_env_values(Some(String::new()), None, None).is_none());
    let c = ProviderConfig::from_env_values(Some("k".into()), None, None).unwrap();
    assert_eq!(c.base_url, "https://api.openai.com/v1");
    assert_eq!(c.provider_type.as_deref(), Some("openai"));
    assert_eq!(c.api_key.as_deref(), Some("k"));
    let c = ProviderConfig::from_env_values(Some("k".into()), Some("http://x".into()), Some("azure".into())).unwrap();
    assert_eq!(c.base_url, "http://x");
    assert_eq!(c.provider_type.as_deref(), Some("azure"));
    assert_eq!(ProviderConfig::model_from_env_value(Some(String::new())), None);
    assert_eq!(ProviderConfig::model_from_env_value(Some("gpt".into())).as_deref(), Some("gpt"));
}

#[test]
fn queued_command_result_round_trips() {
    for r in [
        QueuedCommandResult::handled(None),
        QueuedCommandResult::handled(Some(true)),
        QueuedCommandResult::handled(Some(false)),
        QueuedCommandResult::not_handled(),
    ] {
        assert_eq!(QueuedCommandResult::from_json(&r.to_json()).unwrap(), r);
    }
}

#[test]
fn queued_command_result_rejects_stop_flag_without_handled() {
    let v = JsonValue::Object(vec![
        ("handled".to_string(), JsonValue::Bool(false)),
        ("stopProcessingQueue".to_string(), JsonValue::Bool(true)),
    ]);
    let err = QueuedCommandResult::from_json(&v).unwrap_err();
    assert_eq!(err.message(), "JSON error: stopProcessingQueue is only valid when handled is true");
    let unknown = JsonValue::Object(vec![
        ("handled".to_string(), JsonValue::Bool(true)),
        ("extra".to_string(), JsonValue::Null),
    ]);
    assert!(QueuedCommandResult::from_json(&unknown).is_err());
    let wire = QueuedCommandResult::handled(Some(true)).to_json();
    assert_eq!(wire.get("handled"), Some(&JsonValue::Bool(true)));
    assert_eq!(wire.get("stopProcessingQueue"), Some(&JsonValue::Bool(true)));
}

#[test]
fn trace_context_defaults_to_empty() {
    let ctx = get_trace_context(None);
    assert!(ctx.is_empty());
    let ctx = get_trace_context(Some(TraceContext { traceparent: Some("00-trace-span-01".into()), tracestate: None }));
    assert_eq!(ctx.traceparent.as_deref(), Some("00-trace-span-01"));
    assert!(!ctx.is_empty());
}

#[test]
fn empty_context_skips_serialization() {
    let json = TraceContext::default().to_json_text();
    assert_eq!(json, "{}");
}

#[test]
fn test_session_mode_serialization() {
    assert_eq!(session_mode_wire_name(SessionMode::Interactive), "interactive");
    assert_eq!(session_mode_wire_name(SessionMode::Plan), "plan");
    assert_eq!(session_mode_wire_name(SessionMode::Autopilot), "autopilot");
}

#[test]
fn test_section_override_action_transform_wire_name() {
    assert_eq!(SectionOverrideAction::Transform.wire_name(), "transform");
}

#[test]
fn test_client_options_defaults_for_new_fields() {
    let options: ClientOptions<(), ()> = ClientOptions::default();
    assert_eq!(options.mode, CopilotClientMode::CopilotCli);
    assert_eq!(options.connection_kind, ConnectionKind::Child);
    assert!(options.session_fs.is_none());
    assert!(options.on_get_trace_context.is_none());
}

#[test]
fn client_options_default_and_clone() {
    let options: ClientOptions<(), u8> = ClientOptions { on_get_trace_context: Some(3), ..ClientOptions::default() };
    let copy = options.clone();
    assert!(copy.use_stdio);
    assert!(copy.auto_start && copy.auto_restart);
    assert_eq!(copy.log_level, LogLevel::Info);
    assert_eq!(copy.port, 0);
    assert_eq!(copy.on_get_trace_context, Some(3));
}

#[test]
fn client_options_have_a_debug_rendering() {
    let options: ClientOptions<(), ()> = ClientOptions::default();
    let text = format!("{:?}", options);
    assert!(text.starts_with("ClientOptions {"));
    assert!(text.contains("use_stdio: true"));
    assert!(text.contains("on_list_models: None"));
}
