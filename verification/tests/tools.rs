use copilot_sdk::json::JsonValue;
use copilot_sdk::tools::{
    convert_mcp_call_tool_result, define_tool, normalize_result, McpCallToolResult,
    McpCallToolResultContent, McpCallToolResultResource, Tool, ToolInvocation, ToolResult,
};

fn s(v: &str) -> JsonValue {
    JsonValue::Str(v.to_string())
}

fn obj(members: Vec<(&str, JsonValue)>) -> JsonValue {
    JsonValue::Object(members.into_iter().map(|(k, v)| (k.to_string(), v)).collect())
}

#[test]
fn test_normalize_null() {
    let result = normalize_result(JsonValue::Null);
    assert_eq!(result.result_type, "success");
    assert_eq!(result.text_result_for_llm, "");
}

#[test]
fn test_normalize_string() {
    let result = normalize_result(s("hello"));
    assert_eq!(result.result_type, "success");
    assert_eq!(result.text_result_for_llm, "hello");
}

#[test]
fn test_normalize_tool_result_passthrough() {
    let val = obj(vec![("resultType", s("success")), ("textResultForLlm", s("tool output"))]);
    let result = normalize_result(val);
    assert_eq!(result.result_type, "success");
    assert_eq!(result.text_result_for_llm, "tool output");
}

#[test]
fn test_normalize_other_value() {
    let val = obj(vec![("key", s("value"))]);
    let result = normalize_result(val);
    assert_eq!(result.result_type, "success");
    assert!(result.text_result_for_llm.contains("key"));
}

#[test]
fn normalize_other_value_is_its_json_text() {
    let result = normalize_result(JsonValue::Array(vec![JsonValue::Bool(true), JsonValue::Number("3".to_string())]));
    assert_eq!(result.text_result_for_llm, "[true,3]");
    assert_eq!(result.result_type, "success");
}

#[test]
fn normalize_unreadable_tool_result_is_failure() {
    let val = obj(vec![("resultType", s("success")), ("textResultForLlm", JsonValue::Bool(false))]);
    let result = normalize_result(val);
    assert_eq!(result.result_type, "failure");
    assert_eq!(result.text_result_for_llm, "Failed to parse tool result");
}

#[test]
fn normalize_reads_all_tool_result_members() {
    let bin = obj(vec![
        ("data", s("AA==")),
        ("mimeType", s("image/png")),
        ("type", s("image")),
    ]);
    let val = obj(vec![
        ("resultType", s("error")),
        ("textResultForLlm", s("t")),
        ("error", s("bad")),
        ("sessionLog", JsonValue::Null),
        ("binaryResultsForLlm", JsonValue::Array(vec![bin])),
        ("toolTelemetry", obj(vec![("ms", JsonValue::Number("5".to_string()))])),
        ("extra", s("ignored")),
    ]);
    let result = normalize_result(val);
    assert_eq!(result.result_type, "error");
    assert_eq!(result.error.as_deref(), Some("bad"));
    assert!(result.session_log.is_none());
    let bins = result.binary_results_for_llm.unwrap();
    assert_eq!(bins.len(), 1);
    assert_eq!(bins[0].mime_type, "image/png");
    assert!(bins[0].description.is_none());
    assert_eq!(result.tool_telemetry.unwrap().len(), 1);
}

#[test]
fn test_define_tool_basic() {
    let tool = define_tool("test_tool", "A test tool", None);
    assert_eq!(tool.name, "test_tool");
    assert_eq!(tool.description, "A test tool");
    assert_eq!(tool.parameters_schema, JsonValue::Object(vec![]));
}

#[test]
fn test_define_tool_with_schema() {
    let schema = || {
        obj(vec![
            ("type", s("object")),
            ("properties", obj(vec![("q", obj(vec![("type", s("string"))]))])),
        ])
    };
    let tool = define_tool("search", "Search tool", Some(schema()));
    assert_eq!(tool.name, "search");
    assert_eq!(tool.parameters_schema, schema());
}

#[test]
fn test_convert_mcp_text_and_error() {
    let result = McpCallToolResult {
        content: vec![
            McpCallToolResultContent::Text { text: "line one".to_string() },
            McpCallToolResultContent::Text { text: "line two".to_string() },
        ],
        is_error: Some(true),
    };
    let converted = convert_mcp_call_tool_result(&result);
    assert_eq!(converted.text_result_for_llm, "line one\nline two");
    assert_eq!(converted.result_type, "failure");
    assert!(converted.binary_results_for_llm.is_none());
}

#[test]
fn test_convert_mcp_image_and_resource() {
    let result = McpCallToolResult {
        content: vec![
            McpCallToolResultContent::Image {
                data: "aGk=".to_string(),
                mime_type: "image/png".to_string(),
            },
            McpCallToolResultContent::Resource {
                resource: McpCallToolResultResource {
                    uri: "file:///a.bin".to_string(),
                    mime_type: None,
                    text: Some("resource text".to_string()),
                    blob: Some("YmxvYg==".to_string()),
                },
            },
        ],
        is_error: None,
    };
    let converted = convert_mcp_call_tool_result(&result);
    assert_eq!(converted.result_type, "success");
    assert_eq!(converted.text_result_for_llm, "resource text");
    let bins = converted.binary_results_for_llm.unwrap();
    assert_eq!(bins.len(), 2);
    assert_eq!(bins[0].result_type, "image");
    assert_eq!(bins[1].result_type, "resource");
    assert_eq!(bins[1].mime_type, "application/octet-stream");
    assert_eq!(bins[1].description.as_deref(), Some("file:///a.bin"));
}

#[test]
fn convert_mcp_skips_empty_parts() {
    let result = McpCallToolResult {
        content: vec![
            McpCallToolResultContent::Image { data: String::new(), mime_type: "image/png".to_string() },
            McpCallToolResultContent::Resource {
                resource: McpCallToolResultResource {
                    uri: "u".to_string(),
                    mime_type: Some(String::new()),
                    text: Some(String::new()),
                    blob: None,
                },
            },
            McpCallToolResultContent::Text { text: "only".to_string() },
        ],
        is_error: Some(false),
    };
    let converted = convert_mcp_call_tool_result(&result);
    assert_eq!(converted.text_result_for_llm, "only");
    assert_eq!(converted.result_type, "success");
    assert!(converted.binary_results_for_llm.is_none());
}

#[test]
fn test_tool_result_text() {
    let result = ToolResult::text("Hello, world!");
    assert_eq!(result.text_result_for_llm, "Hello, world!");
    assert_eq!(result.result_type, "success");
}

#[test]
fn test_tool_result_error() {
    let result = ToolResult::error("Something went wrong");
    assert_eq!(result.result_type, "error");
    assert_eq!(result.error, Some("Something went wrong".to_string()));
}

#[test]
fn test_tool_builder() {
    let tool = Tool::new("my_tool")
        .description("A test tool")
        .schema(obj(vec![("type", s("object"))]));
    assert_eq!(tool.name, "my_tool");
    assert_eq!(tool.description, "A test tool");
}

#[test]
fn parameter_builds_the_schema() {
    let tool = Tool::new("get_weather")
        .description("Get weather")
        .parameter("city", "string", "City name", true);
    let schema = &tool.parameters_schema;
    assert_eq!(schema.get("type"), Some(&s("object")));
    let props = schema.get("properties").unwrap();
    let city = props.get("city").unwrap();
    assert_eq!(city.get("type"), Some(&s("string")));
    assert_eq!(city.get("description"), Some(&s("City name")));
    assert_eq!(schema.get("required"), Some(&JsonValue::Array(vec![s("city")])));
}

#[test]
fn optional_parameter_is_not_required() {
    let tool = Tool::new("t").parameter("q", "string", "query", false);
    assert!(tool.parameters_schema.get("required").is_none());
    assert!(tool.parameters_schema.get("properties").unwrap().get("q").is_some());
}

#[test]
fn test_tool_serializes_parameters_field() {
    let tool = Tool::new("my_tool")
        .description("A test tool")
        .schema(obj(vec![("type", s("object"))]));
    let value = tool.to_wire();
    assert_eq!(value.get("parameters").unwrap().get("type"), Some(&s("object")));
    assert!(value.get("parametersSchema").is_none());
}

#[test]
fn test_tool_overrides_fields() {
    let tool = Tool::new("test").overrides_built_in_tool(true).skip_permission(true);
    let value = tool.to_wire();
    assert_eq!(value.get("overridesBuiltInTool"), Some(&JsonValue::Bool(true)));
    assert_eq!(value.get("skipPermission"), Some(&JsonValue::Bool(true)));
}

#[test]
fn test_tool_overrides_fields_default() {
    let tool = Tool::new("test");
    let value = tool.to_wire();
    assert!(value.get("overridesBuiltInTool").is_none());
    assert!(value.get("skipPermission").is_none());
}

#[test]
fn invocation_arguments_are_read_by_name() {
    let inv = ToolInvocation {
        session_id: "s".to_string(),
        tool_call_id: "c".to_string(),
        tool_name: "t".to_string(),
        arguments: Some(obj(vec![("city", s("Paris"))])),
        traceparent: None,
        tracestate: None,
    };
    assert_eq!(inv.arg("city").unwrap(), s("Paris"));
    let err = inv.arg("zip").unwrap_err();
    assert_eq!(err.message(), "Tool error: Missing argument: zip");
    let none = ToolInvocation { arguments: None, ..inv };
    assert_eq!(none.arg("city").unwrap_err().message(), "Tool error: No arguments provided");
}

#[test]
fn tool_result_json_reads_back() {
    let mut r = ToolResult::error("bad");
    r.session_log = Some("log".to_string());
    let wire = r.to_json();
    assert_eq!(wire.get("resultType"), Some(&s("error")));
    assert!(wire.get("binaryResultsForLlm").is_none());
    let back = normalize_result(wire);
    assert_eq!(back.result_type, "error");
    assert_eq!(back.error.as_deref(), Some("bad"));
    assert_eq!(back.session_log.as_deref(), Some("log"));
    assert_eq!(back.text_result_for_llm, "");
}

#[test]
fn test_convert_mcp_parses_from_json() {
    let value = obj(vec![
        ("content", JsonValue::Array(vec![obj(vec![("type", s("text")), ("text", s("hello"))])])),
        ("isError", JsonValue::Bool(false)),
    ]);
    let result: McpCallToolResult = McpCallToolResult::from_json(&value).unwrap();
    let converted = convert_mcp_call_tool_result(&result);
    assert_eq!(converted.text_result_for_llm, "hello");
    assert_eq!(converted.result_type, "success");
}

#[test]
fn mcp_result_reading_rejects_unknown_blocks() {
    let bad = obj(vec![("content", JsonValue::Array(vec![obj(vec![("type", s("video"))])]))]);
    assert!(McpCallToolResult::from_json(&bad).is_none());
    let empty = McpCallToolResult::from_json(&obj(vec![])).unwrap();
    assert!(empty.content.is_empty());
    assert!(empty.is_error.is_none());
    let res = obj(vec![(
        "content",
        JsonValue::Array(vec![obj(vec![
            ("type", s("resource")),
            ("resource", obj(vec![("blob", s("YmxvYg=="))])),
        ])]),
    )]);
    let parsed = McpCallToolResult::from_json(&res).unwrap();
    match &parsed.content[0] {
        McpCallToolResultContent::Resource { resource } => {
            assert_eq!(resource.uri, "");
            assert_eq!(resource.blob.as_deref(), Some("YmxvYg=="));
        }
        other => panic!("unexpected {other:?}"),
    }
}
