use copilot_sdk::error::CopilotError;
use copilot_sdk::json::{decimal_string, JsonValue};
use copilot_sdk::keyed::NamedMap;

#[test]
fn set_then_get_on_objects() {
    let mut o = JsonValue::object();
    o.set("a", JsonValue::Bool(true));
    o.set("b", JsonValue::string("x"));
    o.set("a", JsonValue::Bool(false));
    assert_eq!(o.get("a"), Some(&JsonValue::Bool(false)));
    assert_eq!(o.get_str("b").as_deref(), Some("x"));
    assert_eq!(o.get_bool("a"), Some(false));
    assert!(o.get("c").is_none());
    let mut n = JsonValue::Null;
    n.set("a", JsonValue::Null);
    assert_eq!(n, JsonValue::Null);
}

#[test]
fn numbers_are_decimal_text() {
    assert_eq!(decimal_string(0), "0");
    assert_eq!(decimal_string(1234567890), "1234567890");
    assert_eq!(JsonValue::from_u64(42), JsonValue::Number("42".into()));
}

#[test]
fn deep_clone_is_equal() {
    let v = JsonValue::Array(vec![JsonValue::Object(vec![("k".into(), JsonValue::Number("1".into()))])]);
    assert_eq!(v.deep_clone(), v);
}

#[test]
fn named_map_insert_get_remove() {
    let mut m: NamedMap<u32> = NamedMap::new();
    m.insert("x".into(), 1);
    m.insert("y".into(), 2);
    m.insert("x".into(), 3);
    assert_eq!(m.len(), 2);
    assert_eq!(m.get("x"), Some(&3));
    assert_eq!(m.keys(), vec!["x", "y"]);
    assert_eq!(m.remove("x"), Some(3));
    assert_eq!(m.remove("x"), None);
    assert!(!m.contains_key("x"));
    assert_eq!(m.keys(), vec!["y"]);
}

#[test]
fn error_messages() {
    assert_eq!(CopilotError::Timeout(1500).message(), "Timeout after 1500ms");
    assert_eq!(CopilotError::ConnectionClosed.message(), "Connection closed");
    assert_eq!(CopilotError::Protocol("x".into()).message(), "Protocol error: x");
}
