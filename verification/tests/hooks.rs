use copilot_sdk::error::CopilotError;
use copilot_sdk::hooks::{read_hook_input, HookInput, HookOutput};
use copilot_sdk::json::JsonValue;
use copilot_sdk::types::{
    ErrorOccurredHookInput, ErrorOccurredHookOutput, HookKind, PostToolUseHookInput,
    PreToolUseHookInput, PreToolUseHookOutput, SessionEndHookInput, SessionEndHookOutput,
    SessionStartHookInput, UserPromptSubmittedHookInput,
};

fn s(v: &str) -> JsonValue {
    JsonValue::Str(v.to_string())
}

fn n(v: &str) -> JsonValue {
    JsonValue::Number(v.to_string())
}

fn obj(members: Vec<(&str, JsonValue)>) -> JsonValue {
    JsonValue::Object(members.into_iter().map(|(k, v)| (k.to_string(), v)).collect())
}

#[test]
fn test_pre_tool_use_hook_input_serde() {
    let json = obj(vec![
        ("timestamp", n("1234567890")),
        ("cwd", s("/tmp")),
        ("toolName", s("my_tool")),
        ("toolArgs", obj(vec![("key", s("value"))])),
    ]);
    let input = PreToolUseHookInput::from_json(&json).unwrap();
    assert_eq!(input.timestamp, 1234567890);
    assert_eq!(input.tool_name, "my_tool");
}

#[test]
fn test_pre_tool_use_hook_output_serde() {
    let output = PreToolUseHookOutput {
        permission_decision: Some("allow".into()),
        additional_context: Some("context".into()),
        ..Default::default()
    };
    let json = output.to_json();
    assert_eq!(json.get("permissionDecision"), Some(&s("allow")));
    assert_eq!(json.get("additionalContext"), Some(&s("context")));
    assert!(json.get("suppressOutput").is_none());
}

#[test]
fn test_session_end_hook_input_serde() {
    let json = obj(vec![
        ("timestamp", n("1234567890")),
        ("cwd", s("/tmp")),
        ("reason", s("complete")),
        ("finalMessage", s("Done")),
    ]);
    let input = SessionEndHookInput::from_json(&json).unwrap();
    assert_eq!(input.reason, "complete");
    assert_eq!(input.final_message, Some("Done".into()));
}

#[test]
fn test_error_occurred_hook_input_serde() {
    let json = obj(vec![
        ("timestamp", n("1234567890")),
        ("cwd", s("/tmp")),
        ("error", s("connection failed")),
        ("errorContext", s("model_call")),
        ("recoverable", JsonValue::Bool(true)),
    ]);
    let input = ErrorOccurredHookInput::from_json(&json).unwrap();
    assert_eq!(input.error_context, "model_call");
    assert!(input.recoverable);
}

#[test]
fn hook_inputs_report_the_first_bad_field() {
    let missing = obj(vec![("cwd", s("/tmp")), ("toolName", s("t")), ("toolArgs", JsonValue::Null)]);
    match PreToolUseHookInput::from_json(&missing) {
        Err(d) => assert_eq!(d, "missing field `timestamp`"),
        Ok(_) => panic!("read without a timestamp"),
    }
    let wrong = obj(vec![("timestamp", n("1")), ("cwd", n("2")), ("prompt", s("p"))]);
    match UserPromptSubmittedHookInput::from_json(&wrong) {
        Err(d) => assert_eq!(d, "invalid type: integer `2`, expected a string"),
        Ok(_) => panic!("read a number as cwd"),
    }
    let fraction = obj(vec![("timestamp", n("1.5")), ("cwd", s("/")), ("prompt", s("p"))]);
    match UserPromptSubmittedHookInput::from_json(&fraction) {
        Err(d) => assert_eq!(d, "invalid type: floating point `1.5`, expected i64"),
        Ok(_) => panic!("read a fraction as a timestamp"),
    }
    let negative = obj(vec![("timestamp", n("-7")), ("cwd", s("/")), ("prompt", s("p"))]);
    assert_eq!(UserPromptSubmittedHookInput::from_json(&negative).unwrap().timestamp, -7);
}

#[test]
fn optional_texts_may_be_null_or_absent() {
    let v = obj(vec![
        ("timestamp", n("5")),
        ("cwd", s("/w")),
        ("source", s("new")),
        ("initialPrompt", JsonValue::Null),
    ]);
    assert_eq!(SessionStartHookInput::from_json(&v).unwrap().initial_prompt, None);
    let v = obj(vec![("timestamp", n("5")), ("cwd", s("/w")), ("source", s("new"))]);
    assert_eq!(SessionStartHookInput::from_json(&v).unwrap().initial_prompt, None);
    let bad = obj(vec![
        ("timestamp", n("5")),
        ("cwd", s("/w")),
        ("source", s("new")),
        ("initialPrompt", n("3")),
    ]);
    assert!(SessionStartHookInput::from_json(&bad).is_err());
}

#[test]
fn post_tool_use_keeps_arguments_and_result() {
    let v = obj(vec![
        ("timestamp", n("9")),
        ("cwd", s("/")),
        ("toolName", s("grep")),
        ("toolArgs", obj(vec![("q", s("x"))])),
        ("toolResult", JsonValue::Null),
    ]);
    let x = PostToolUseHookInput::from_json(&v).unwrap();
    assert_eq!(x.tool_args, obj(vec![("q", s("x"))]));
    assert_eq!(x.tool_result, JsonValue::Null);
    let no_result = obj(vec![("timestamp", n("9")), ("cwd", s("/")), ("toolName", s("grep")), ("toolArgs", JsonValue::Null)]);
    assert!(PostToolUseHookInput::from_json(&no_result).is_err());
}

#[test]
fn reading_by_kind_names_the_hook_in_errors() {
    let v = obj(vec![("timestamp", n("1")), ("cwd", s("/")), ("prompt", s("hi"))]);
    match read_hook_input(HookKind::UserPromptSubmitted, &v) {
        Ok(HookInput::UserPromptSubmitted(x)) => assert_eq!(x.prompt, "hi"),
        other => panic!("unexpected {:?}", other),
    }
    match read_hook_input(HookKind::PreToolUse, &v) {
        Err(CopilotError::Protocol(m)) => assert_eq!(m, "Invalid preToolUse input: missing field `toolName`"),
        other => panic!("unexpected {:?}", other),
    }
}

#[test]
fn hook_outputs_become_wire_objects() {
    let out = ErrorOccurredHookOutput {
        suppress_output: Some(true),
        error_handling: Some("retry".into()),
        retry_count: Some(-3),
        user_notification: None,
    };
    assert_eq!(
        HookOutput::ErrorOccurred(out).to_json(),
        obj(vec![
            ("suppressOutput", JsonValue::Bool(true)),
            ("errorHandling", s("retry")),
            ("retryCount", n("-3")),
        ])
    );
    let end = SessionEndHookOutput {
        suppress_output: None,
        cleanup_actions: Some(vec!["rm tmp".into()]),
        session_summary: Some("done".into()),
    };
    assert_eq!(
        end.to_json(),
        obj(vec![("cleanupActions", JsonValue::Array(vec![s("rm tmp")])), ("sessionSummary", s("done"))])
    );
    assert_eq!(PreToolUseHookOutput::default().to_json(), obj(vec![]));
}

#[test]
fn inputs_also_read_from_arrays_of_every_field() {
    let full = JsonValue::Array(vec![n("1"), s("/w"), s("hi")]);
    let x = UserPromptSubmittedHookInput::from_json(&full).unwrap();
    assert_eq!((x.timestamp, x.cwd.as_str(), x.prompt.as_str()), (1, "/w", "hi"));
    let short = JsonValue::Array(vec![n("1"), s("/w")]);
    match UserPromptSubmittedHookInput::from_json(&short) {
        Err(d) => assert_eq!(d, "invalid length 2, expected struct UserPromptSubmittedHookInput with 3 elements"),
        Ok(_) => panic!("read a short array"),
    }
    let long = JsonValue::Array(vec![n("1"), s("/w"), s("hi"), s("extra")]);
    match UserPromptSubmittedHookInput::from_json(&long) {
        Err(d) => assert_eq!(d, "invalid length 4, expected fewer elements in array"),
        Ok(_) => panic!("read a long array"),
    }
    let start = JsonValue::Array(vec![n("2"), s("/"), s("new"), JsonValue::Null]);
    assert_eq!(SessionStartHookInput::from_json(&start).unwrap().initial_prompt, None);
    let start_short = JsonValue::Array(vec![n("2"), s("/"), s("new")]);
    assert!(SessionStartHookInput::from_json(&start_short).is_err());
    assert!(UserPromptSubmittedHookInput::from_json(&s("text")).is_err());
}

#[test]
fn wrong_types_report_what_serde_reports() {
    let v = obj(vec![
        ("timestamp", n("1")),
        ("cwd", s("/")),
        ("error", s("e")),
        ("errorContext", s("c")),
        ("recoverable", s("yes")),
    ]);
    match ErrorOccurredHookInput::from_json(&v) {
        Err(d) => assert_eq!(d, "invalid type: string \"yes\", expected a boolean"),
        Ok(_) => panic!("read a string as a flag"),
    }
    let too_big = obj(vec![("timestamp", n("18446744073709551615")), ("cwd", s("/")), ("prompt", s("p"))]);
    match UserPromptSubmittedHookInput::from_json(&too_big) {
        Err(d) => assert_eq!(d, "invalid value: integer `18446744073709551615`, expected i64"),
        Ok(_) => panic!("read an out-of-range timestamp"),
    }
}

#[test]
fn wrong_types_come_before_missing_fields() {
    let v = obj(vec![("cwd", n("5")), ("toolArgs", JsonValue::Null), ("toolName", s("t"))]);
    match PreToolUseHookInput::from_json(&v) {
        Err(d) => assert_eq!(d, "invalid type: integer `5`, expected a string"),
        Ok(_) => panic!("read without a timestamp"),
    }
}
