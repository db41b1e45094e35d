use copilot_sdk::error::CopilotError;
use copilot_sdk::json::JsonValue;
use copilot_sdk::keyed::NamedMap;
use copilot_sdk::session::{decode_event, plan_from_response, EventEnvelope};
use copilot_sdk::session::{
    accepted_text, check_elicitation, collect_step, command_reply, confirm_schema, confirmed,
    elicitation_reply, exit_plan_mode_reply, has_plan, input_schema, invalid_hook_input,
    messages_from_response, permission_reply, plan_broadcast, plan_hook, read_permission_request,
    required_str, section_step, select_schema, send_params, sort_texts, str_or_empty,
    tool_call_reply, wait_limit_ms, wait_step, BroadcastPlan, CollectStep, CommandExecuteData,
    ElicitationRequestedData, ExternalToolRequestedData, HandlerPresence, PermissionRequestedData,
    Received, SectionStep, SessionEventData, ToolDispatch, ToolRegistry, WaitStep,
};
use copilot_sdk::tools::{Tool, ToolResultObject};
use copilot_sdk::trace::TraceContext;
use copilot_sdk::types::{
    ElicitationMode, ElicitationResult, ExitPlanModeResult, HookKind, MessageOptions,
    PermissionRequestResult, SessionCapabilities, SessionHooks, UiCapabilities, UiInputOptions,
};

fn s(v: &str) -> JsonValue {
    JsonValue::Str(v.to_string())
}

fn obj(members: Vec<(&str, JsonValue)>) -> JsonValue {
    JsonValue::Object(members.into_iter().map(|(k, v)| (k.to_string(), v)).collect())
}

fn registry() -> ToolRegistry<&'static str, u8> {
    let mut r = ToolRegistry::new();
    r.register_tool_with_handler(Tool::new("plain"), Some("legacy"));
    r.register_tool_with_invocation_handler(Tool::new("modern"), Some(7));
    r.register_tool(Tool::new("bare"));
    r
}

#[test]
fn tool_dispatch_prefers_invocation_handler() {
    let r = registry();
    assert!(matches!(r.dispatch("modern"), Ok(ToolDispatch::Invocation(&7))));
    assert!(matches!(r.dispatch("plain"), Ok(ToolDispatch::Plain(&"legacy"))));
    match r.dispatch("bare") {
        Err(e) => assert_eq!(e, CopilotError::ToolError("No handler for tool: bare".into())),
        Ok(_) => panic!("expected an error"),
    }
    match r.dispatch("missing") {
        Err(e) => assert_eq!(e, CopilotError::ToolNotFound("missing".into())),
        Ok(_) => panic!("expected an error"),
    }
    assert!(r.get_tool("plain").is_some());
    assert!(r.get_tool("missing").is_none());
}

#[test]
fn registering_again_replaces_the_tool() {
    let mut r = registry();
    r.register_tools(vec![Tool::new("plain").description("new"), Tool::new("extra")]);
    assert_eq!(r.get_tool("plain").unwrap().description, "new");
    assert!(r.get_tool("extra").is_some());
    assert_eq!(r.tools.len(), 4);
}

#[test]
fn external_tool_request_invokes_only_known_tools() {
    let r = registry();
    let cmds: NamedMap<()> = NamedMap::new();
    let h = HandlerPresence { elicitation: false, exit_plan_mode: false, auto_mode_switch: false };
    let ev = SessionEventData::ExternalToolRequested(ExternalToolRequestedData {
        request_id: Some("r1".into()),
        tool_name: Some("plain".into()),
        tool_call_id: None,
        arguments: None,
    });
    match plan_broadcast("s1", &r, &cmds, h, &ev) {
        BroadcastPlan::InvokeTool { request_id, tool_name, arguments } => {
            assert_eq!(request_id, "r1");
            assert_eq!(tool_name, "plain");
            assert_eq!(arguments, JsonValue::Object(vec![]));
        }
        other => panic!("unexpected {other:?}"),
    }
    let unknown = SessionEventData::ExternalToolRequested(ExternalToolRequestedData {
        request_id: Some("r1".into()),
        tool_name: Some("other".into()),
        tool_call_id: None,
        arguments: None,
    });
    assert!(matches!(plan_broadcast("s1", &r, &cmds, h, &unknown), BroadcastPlan::Ignore));
    let no_id = SessionEventData::ExternalToolRequested(ExternalToolRequestedData {
        request_id: None,
        tool_name: Some("plain".into()),
        tool_call_id: None,
        arguments: None,
    });
    assert!(matches!(plan_broadcast("s1", &r, &cmds, h, &no_id), BroadcastPlan::Ignore));
}

#[test]
fn permission_request_is_read_from_event_json() {
    let r = registry();
    let cmds: NamedMap<()> = NamedMap::new();
    let h = HandlerPresence { elicitation: false, exit_plan_mode: false, auto_mode_switch: false };
    let ev = SessionEventData::PermissionRequested(PermissionRequestedData {
        request_id: Some("p1".into()),
        permission_request: Some(obj(vec![
            ("kind", s("shell")),
            ("toolCallId", s("tc")),
            ("command", s("ls")),
        ])),
    });
    match plan_broadcast("s1", &r, &cmds, h, &ev) {
        BroadcastPlan::DecidePermission { request_id, request } => {
            assert_eq!(request_id, "p1");
            assert_eq!(request.kind, "shell");
            assert_eq!(request.tool_call_id.as_deref(), Some("tc"));
            assert_eq!(request.extension_data, vec![("command".to_string(), s("ls"))]);
        }
        other => panic!("unexpected {other:?}"),
    }
    let req = read_permission_request(&obj(vec![("kind", JsonValue::Bool(true))]));
    assert_eq!(req.kind, "unknown");
    assert!(req.extension_data.is_empty());
}

#[test]
fn elicitation_and_commands_need_handlers() {
    let r = registry();
    let mut cmds: NamedMap<u8> = NamedMap::new();
    cmds.insert("deploy".into(), 1);
    let none = HandlerPresence { elicitation: false, exit_plan_mode: false, auto_mode_switch: false };
    let all = HandlerPresence { elicitation: true, exit_plan_mode: true, auto_mode_switch: true };
    let ev = SessionEventData::ElicitationRequested(ElicitationRequestedData {
        request_id: Some("e1".into()),
        message: "Pick".into(),
        requested_schema: None,
        mode: Some("url".into()),
        elicitation_source: None,
        url: Some("https://x".into()),
    });
    assert!(matches!(plan_broadcast("s1", &r, &cmds, none, &ev), BroadcastPlan::Ignore));
    match plan_broadcast("s1", &r, &cmds, all, &ev) {
        BroadcastPlan::Elicit { request_id, context } => {
            assert_eq!(request_id, "e1");
            assert_eq!(context.session_id, "s1");
            assert_eq!(context.mode, Some(ElicitationMode::Url));
            assert_eq!(context.url.as_deref(), Some("https://x"));
        }
        other => panic!("unexpected {other:?}"),
    }
    let run = SessionEventData::CommandExecute(CommandExecuteData {
        request_id: Some("c1".into()),
        command: "/deploy prod".into(),
        command_name: "deploy".into(),
        args: "prod".into(),
    });
    match plan_broadcast("s1", &r, &cmds, none, &run) {
        BroadcastPlan::RunCommand { request_id, context } => {
            assert_eq!(request_id, "c1");
            assert_eq!(context.args, "prod");
        }
        other => panic!("unexpected {other:?}"),
    }
    let unknown = SessionEventData::CommandExecute(CommandExecuteData {
        request_id: Some("c2".into()),
        command: "/nope".into(),
        command_name: "nope".into(),
        args: String::new(),
    });
    let plan = plan_broadcast("s1", &r, &cmds, none, &unknown);
    assert_eq!(plan.reply_method(), Some("session.commands.handlePendingCommand"));
    match plan {
        BroadcastPlan::RejectCommand { error, .. } => assert_eq!(error, "Unknown command: nope"),
        other => panic!("unexpected {other:?}"),
    }
}

#[test]
fn tool_call_replies() {
    let ok = tool_call_reply("s", "r", &Ok(ToolResultObject::text("done")));
    let result = ok.get("result").unwrap();
    assert_eq!(result.get("textResultForLlm"), Some(&s("done")));
    assert_eq!(result.get("resultType"), Some(&s("success")));
    assert_eq!(result.get("toolTelemetry"), Some(&JsonValue::Object(vec![])));
    assert_eq!(ok.get("sessionId"), Some(&s("s")));
    assert_eq!(ok.get("requestId"), Some(&s("r")));

    let failed = tool_call_reply("s", "r", &Ok(ToolResultObject::error("bad")));
    assert_eq!(failed.get("error"), Some(&s("bad")));
    assert!(failed.get("result").is_none());

    let err = tool_call_reply("s", "r", &Err(CopilotError::ToolNotFound("x".into())));
    assert_eq!(err.get("error"), Some(&s("Tool not found: x")));
}

#[test]
fn other_replies() {
    let p = permission_reply("s", "r", &PermissionRequestResult::denied());
    assert_eq!(
        p.get("result").unwrap().get("kind"),
        Some(&s("denied-no-approval-rule-and-could-not-request-from-user"))
    );
    assert!(p.get("result").unwrap().get("rules").is_none());
    let e = elicitation_reply("s", "r", &ElicitationResult::cancel());
    assert_eq!(e.get("result").unwrap().get("action"), Some(&s("cancel")));
    let x = exit_plan_mode_reply("s", "r", &ExitPlanModeResult::default());
    assert_eq!(x.get("response").unwrap().get("approved"), Some(&JsonValue::Bool(true)));
    let c = command_reply("s", "r", Some("Unknown command: z"));
    assert_eq!(c.get("error"), Some(&s("Unknown command: z")));
    assert!(command_reply("s", "r", None).get("error").is_none());
}

#[test]
fn waiting_and_collecting() {
    let msg = SessionEventData::AssistantMessage { content: "Hi".into() };
    let delta = SessionEventData::AssistantMessageDelta { delta_content: " there".into() };
    let idle = SessionEventData::SessionIdle;
    let err = SessionEventData::SessionError { message: "oops".into() };
    assert!(matches!(wait_step(Received::Event(&msg)), WaitStep::Record));
    assert!(matches!(wait_step(Received::Event(&delta)), WaitStep::Continue));
    assert!(matches!(wait_step(Received::Lagged), WaitStep::Continue));
    assert!(matches!(wait_step(Received::Event(&idle)), WaitStep::Idle));
    match wait_step(Received::Event(&err)) {
        WaitStep::Fail(e) => assert_eq!(e, CopilotError::Protocol("Session error: oops".into())),
        _ => panic!("expected failure"),
    }
    assert!(matches!(wait_step(Received::Closed), WaitStep::Fail(CopilotError::ConnectionClosed)));

    let mut content = String::new();
    assert!(matches!(collect_step(&mut content, Received::Event(&msg)), CollectStep::Continue));
    assert!(matches!(collect_step(&mut content, Received::Event(&delta)), CollectStep::Continue));
    assert!(matches!(collect_step(&mut content, Received::Event(&idle)), CollectStep::Done));
    assert_eq!(content, "Hi there");
    assert_eq!(wait_limit_ms(None), 60000);
    assert_eq!(wait_limit_ms(Some(5)), 5);
}

#[test]
fn hooks_dispatch() {
    let none: Option<SessionHooks<u8>> = None;
    assert!(plan_hook(&none, "preToolUse").is_none());
    let hooks: Option<SessionHooks<u8>> =
        Some(SessionHooks { on_pre_tool_use: Some(3), ..Default::default() });
    assert_eq!(plan_hook(&hooks, "preToolUse"), Some((HookKind::PreToolUse, &3)));
    assert!(plan_hook(&hooks, "postToolUse").is_none());
    assert!(plan_hook(&hooks, "unknownType").is_none());
    assert_eq!(
        invalid_hook_input(HookKind::SessionEnd, "missing field"),
        CopilotError::Protocol("Invalid sessionEnd input: missing field".into())
    );
}

#[test]
fn ui_schemas_and_answers() {
    let c = confirm_schema();
    assert_eq!(c.get("required"), Some(&JsonValue::Array(vec![s("confirmed")])));
    let sel = select_schema(&["a".to_string(), "b".to_string()]);
    let prop = sel.get("properties").unwrap().get("selection").unwrap();
    assert_eq!(prop.get("enum"), Some(&JsonValue::Array(vec![s("a"), s("b")])));
    let opts = UiInputOptions { title: Some("Name".into()), min_length: Some(2), ..Default::default() };
    let inp = input_schema(Some(&opts));
    let field = inp.get("properties").unwrap().get("value").unwrap();
    assert_eq!(field.get("minLength"), Some(&JsonValue::Number("2".into())));
    assert_eq!(field.get("title"), Some(&s("Name")));
    assert!(field.get("maxLength").is_none());

    let yes = ElicitationResult {
        action: "accept".into(),
        content: Some(vec![("confirmed".to_string(), JsonValue::Bool(true)), ("value".to_string(), s("Ann"))]),
    };
    assert!(confirmed(&yes));
    assert_eq!(accepted_text(&yes, "value").as_deref(), Some("Ann"));
    let no = ElicitationResult {
        action: "decline".into(),
        content: Some(vec![("confirmed".to_string(), JsonValue::Bool(true)), ("value".to_string(), s("Ann"))]),
    };
    assert!(!confirmed(&no));
    assert!(accepted_text(&no, "value").is_none());

    let caps = SessionCapabilities { ui: Some(UiCapabilities { elicitation: Some(true), mcp_apps: None, canvases: None }) };
    assert!(check_elicitation(&caps).is_ok());
    assert!(check_elicitation(&SessionCapabilities::default()).is_err());
}

#[test]
fn reading_responses() {
    let r = obj(vec![("messageId", s("m1"))]);
    assert_eq!(required_str(&r, "messageId").unwrap(), "m1");
    assert_eq!(
        required_str(&r, "modelId").unwrap_err(),
        CopilotError::Protocol("Missing modelId in response".into())
    );
    assert_eq!(str_or_empty(&r, "eventId"), "");
    let m = obj(vec![("messages", JsonValue::Array(vec![s("e")]))]);
    assert_eq!(messages_from_response(&m).unwrap(), vec![s("e")]);
    assert_eq!(
        messages_from_response(&obj(vec![])).unwrap_err(),
        CopilotError::Protocol("Missing events in getMessages response".into())
    );
    assert!(!has_plan(&JsonValue::Null));
    assert!(has_plan(&obj(vec![("content", s("plan"))])));
    let p = send_params(
        "s",
        &MessageOptions::prompt_only("hi"),
        &TraceContext { traceparent: Some("tp".into()), tracestate: None },
    );
    assert_eq!(p.get("prompt"), Some(&s("hi")));
    assert_eq!(p.get("mode"), Some(&JsonValue::Null));
    assert_eq!(p.get("traceparent"), Some(&s("tp")));
    assert!(p.get("tracestate").is_none());
}

#[test]
fn transform_ids_are_sorted_and_sections_routed() {
    let mut cbs: NamedMap<u8> = NamedMap::new();
    cbs.insert("tone".into(), 1);
    cbs.insert("identity".into(), 2);
    cbs.insert("safety".into(), 3);
    assert_eq!(cbs.sorted_keys(), vec!["identity", "safety", "tone"]);
    assert!(matches!(section_step(&cbs, "tone"), SectionStep::Transform(&1)));
    assert!(matches!(section_step(&cbs, "guidelines"), SectionStep::Keep));
    assert_eq!(
        sort_texts(vec!["b".into(), "a".into(), "B".into(), "ab".into()]),
        vec!["B", "a", "ab", "b"]
    );
}

#[test]
fn events_decode_from_wire_data() {
    let d = obj(vec![
        ("requestId", s("r")),
        ("toolName", s("echo")),
        ("arguments", obj(vec![("text", s("hello"))])),
    ]);
    match decode_event("external_tool.requested", &d) {
        SessionEventData::ExternalToolRequested(x) => {
            assert_eq!(x.request_id.as_deref(), Some("r"));
            assert_eq!(x.tool_name.as_deref(), Some("echo"));
            assert!(x.tool_call_id.is_none());
            assert_eq!(x.arguments, Some(obj(vec![("text", s("hello"))])));
        }
        other => panic!("unexpected {other:?}"),
    }
    let a = obj(vec![("requestId", s("a")), ("retryAfterSeconds", JsonValue::Number("-42".into()))]);
    match decode_event("auto_mode_switch.requested", &a) {
        SessionEventData::AutoModeSwitchRequested(x) => assert_eq!(x.retry_after_seconds, Some(-42)),
        other => panic!("unexpected {other:?}"),
    }
    for (text, expected) in [
        ("9223372036854775807", Some(i64::MAX)),
        ("-9223372036854775808", Some(i64::MIN)),
        ("9223372036854775808", None),
        ("007", None),
        ("1.5", None),
        ("-0", None),
        ("0", Some(0)),
    ] {
        let v = obj(vec![("retryAfterSeconds", JsonValue::Number(text.into()))]);
        match decode_event("auto_mode_switch.requested", &v) {
            SessionEventData::AutoModeSwitchRequested(x) => assert_eq!(x.retry_after_seconds, expected, "{text}"),
            other => panic!("unexpected {other:?}"),
        }
    }
    let p = obj(vec![("actions", JsonValue::Array(vec![s("approve"), JsonValue::Null, s("reject")]))]);
    match decode_event("exit_plan_mode.requested", &p) {
        SessionEventData::ExitPlanModeRequested(x) => {
            assert_eq!(x.actions, vec!["approve", "reject"]);
            assert_eq!(x.summary, "");
        }
        other => panic!("unexpected {other:?}"),
    }
    assert!(matches!(decode_event("session.idle", &obj(vec![])), SessionEventData::SessionIdle));
    assert!(matches!(decode_event("something.else", &obj(vec![])), SessionEventData::Other));

    let env = EventEnvelope::from_json(&obj(vec![
        ("id", s("evt-1")),
        ("timestamp", s("2024-01-01T00:00:00Z")),
        ("type", s("session.idle")),
    ]))
    .unwrap();
    assert_eq!(env.id, "evt-1");
    assert_eq!(env.event_type, "session.idle");
    assert!(env.parent_id.is_none());
    assert!(EventEnvelope::from_json(&obj(vec![("id", s("x"))])).is_none());
}

#[test]
fn elicitation_results_and_plans_read_from_responses() {
    let r = ElicitationResult::from_json(&obj(vec![
        ("action", s("accept")),
        ("content", obj(vec![("value", s("x"))])),
    ]))
    .unwrap();
    assert!(r.is_accept());
    assert_eq!(r.content, Some(vec![("value".to_string(), s("x"))]));
    assert!(ElicitationResult::from_json(&obj(vec![("content", JsonValue::Null)])).is_err());
    assert!(ElicitationResult::from_json(&obj(vec![("action", s("cancel")), ("content", s("x"))])).is_err());

    assert!(plan_from_response(&JsonValue::Null).unwrap().is_none());
    assert!(plan_from_response(&obj(vec![("title", s("t"))])).unwrap().is_none());
    let plan = plan_from_response(&obj(vec![("content", s("steps")), ("title", s("T"))])).unwrap().unwrap();
    assert_eq!(plan.content.as_deref(), Some("steps"));
    assert_eq!(plan.title.as_deref(), Some("T"));
    assert!(plan_from_response(&obj(vec![("content", JsonValue::Bool(true))])).is_err());
}
