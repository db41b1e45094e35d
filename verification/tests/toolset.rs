use copilot_sdk::toolset::{is_valid_tool_name, BuiltInTools, ToolSet};

#[test]
fn builds_source_qualified_filters() {
    let tools = ToolSet::new()
        .add_built_in("bash")
        .add_mcp("github-list_issues")
        .add_custom("my_tool")
        .into_vec();
    assert_eq!(tools, vec!["builtin:bash", "mcp:github-list_issues", "custom:my_tool"]);
}

#[test]
fn wildcard_is_allowed() {
    let tools = ToolSet::new().add_built_in("*").add_mcp("*").into_vec();
    assert_eq!(tools, vec!["builtin:*", "mcp:*"]);
}

#[test]
fn add_built_in_many_expands_isolated() {
    let tools = ToolSet::new().add_built_in_many(BuiltInTools::ISOLATED).into_vec();
    assert_eq!(tools.len(), BuiltInTools::ISOLATED.len());
    assert!(tools.contains(&"builtin:exit_plan_mode".to_string()));
    assert!(tools.contains(&"builtin:skill".to_string()));
}

#[test]
fn invalid_name_is_skipped_in_infallible_api() {
    let tools = ToolSet::new().add_built_in("bad name!").into_vec();
    assert!(tools.is_empty());
}

#[test]
fn invalid_name_errors_in_fallible_api() {
    let err = ToolSet::new().try_add_mcp("bad name!").unwrap_err();
    assert_eq!(err.kind, "mcp");
    assert_eq!(err.name, "bad name!");
}

#[test]
fn into_vec_via_from() {
    let v: Vec<String> = ToolSet::new().add_custom("x").into();
    assert_eq!(v, vec!["custom:x"]);
}

#[test]
fn valid_tool_names() {
    assert!(is_valid_tool_name("bash"));
    assert!(is_valid_tool_name("github-list_issues"));
    assert!(!is_valid_tool_name("*"));
    assert!(!is_valid_tool_name(""));
    assert!(!is_valid_tool_name("bad name!"));
}

#[test]
fn entries_are_added_once_each_in_order() {
    let set = ToolSet::new().add_custom("a").add_custom("bad name").add_custom("b");
    assert_eq!(set.to_vec(), vec!["custom:a", "custom:b"]);
    let ok = ToolSet::new().try_add_built_in("view").unwrap().try_add_custom("c").unwrap();
    assert_eq!(ok.into_vec(), vec!["builtin:view", "custom:c"]);
}

#[test]
fn invalid_name_message_names_kind_and_name() {
    let err = ToolSet::new().try_add_custom("x y").unwrap_err();
    assert_eq!(err.kind, "custom");
    assert!(err.message().contains("x y"));
}

#[test]
fn to_vec_matches_clone_into_vec() {
    let set = ToolSet::new().add_built_in("view").add_mcp("*");
    let copied = set.to_vec();
    assert_eq!(copied, set.clone().into_vec());
    assert_eq!(set.to_vec(), copied);
    let mut taken = set.to_vec();
    taken.push("custom:extra".into());
    assert_eq!(set.to_vec(), vec!["builtin:view", "mcp:*"]);
    assert!(ToolSet::default().to_vec().is_empty());
}
