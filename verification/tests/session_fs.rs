use copilot_sdk::json::JsonValue;
use copilot_sdk::session_fs::{
    appended_content, SessionFsConfig, SessionFsConventions, SessionFsDirEntry, SessionFsEntryType,
    SessionFsError, SessionFsErrorCode, SessionFsFileInfo, SessionFsSqliteQueryType,
};

fn s(v: &str) -> JsonValue {
    JsonValue::Str(v.to_string())
}

fn obj(members: Vec<(&str, JsonValue)>) -> JsonValue {
    JsonValue::Object(members.into_iter().map(|(k, v)| (k.to_string(), v)).collect())
}

#[test]
fn io_error_maps_to_enoent() {
    let io = std::io::Error::new(std::io::ErrorKind::NotFound, "missing");
    let err: SessionFsError = io.into();
    assert!(err.is_not_found());

    let io = std::io::Error::other("boom");
    let err: SessionFsError = io.into();
    assert_eq!(err.code, SessionFsErrorCode::Unknown);
}

#[test]
fn error_code_wire_names() {
    assert_eq!(SessionFsErrorCode::NotFound.wire_name(), "ENOENT");
    assert_eq!(SessionFsErrorCode::Unknown.wire_name(), "UNKNOWN");
}

#[test]
fn error_serializes_without_message() {
    let err = SessionFsError { code: SessionFsErrorCode::Unknown, message: None };
    assert_eq!(err.to_json(), obj(vec![("code", s("UNKNOWN"))]));
}

#[test]
fn dir_entry_wire_shape() {
    assert_eq!(
        SessionFsDirEntry::directory("src").to_json(),
        obj(vec![("name", s("src")), ("type", s("directory"))])
    );
    assert_eq!(
        SessionFsDirEntry::file("main.rs").to_json(),
        obj(vec![("name", s("main.rs")), ("type", s("file"))])
    );
}

#[test]
fn sqlite_query_type_wire_names() {
    assert_eq!(SessionFsSqliteQueryType::Exec.wire_name(), "exec");
    assert_eq!(SessionFsSqliteQueryType::Query.wire_name(), "query");
    assert_eq!(SessionFsSqliteQueryType::Run.wire_name(), "run");
}

#[test]
fn file_info_wire_shape() {
    let info = SessionFsFileInfo {
        is_file: true,
        is_directory: false,
        size: 12,
        mtime: "2026-01-01T00:00:00.000Z".into(),
        birthtime: "2026-01-01T00:00:00.000Z".into(),
    };
    let value = info.to_json();
    assert_eq!(value.get("isFile"), Some(&JsonValue::Bool(true)));
    assert_eq!(value.get("isDirectory"), Some(&JsonValue::Bool(false)));
    assert_eq!(value.get("size"), Some(&JsonValue::Number("12".into())));
}

#[test]
fn config_validation_and_builders() {
    let config = SessionFsConfig::new("/work", "/state")
        .conventions(SessionFsConventions::Posix)
        .with_sqlite(true);
    assert!(config.validate().is_ok());
    assert!(config.declares_sqlite());

    let value = config.to_json();
    assert_eq!(
        value,
        obj(vec![
            ("initialCwd", s("/work")),
            ("sessionStatePath", s("/state")),
            ("conventions", s("posix")),
            ("capabilities", obj(vec![("sqlite", JsonValue::Bool(true))])),
        ])
    );

    let bad = SessionFsConfig::new("", "/state");
    assert!(bad.validate().is_err());
    let bad = SessionFsConfig::new("/work", "  ");
    assert!(bad.validate().is_err());
}

#[test]
fn dir_entry_constructors() {
    let d = SessionFsDirEntry::directory("src");
    assert_eq!(d.name, "src");
    assert_eq!(d.entry_type, SessionFsEntryType::Directory);
    let f = SessionFsDirEntry::file("main.rs");
    assert_eq!(f.name, "main.rs");
    assert_eq!(f.entry_type, SessionFsEntryType::File);
}

#[test]
fn error_constructors_and_display() {
    let e = SessionFsError::not_found("/a");
    assert!(e.is_not_found());
    let u = SessionFsError::unknown("boom");
    assert!(!u.is_not_found());
    assert_eq!(u.display(), "UNKNOWN: boom");
}

#[test]
fn append_reads_then_writes_existing_and_new_content() {
    let out = appended_content(Ok("abc".to_string()), "def").unwrap();
    assert_eq!(out, "abcdef");
    let out = appended_content(Err(SessionFsError::not_found("/x")), "new").unwrap();
    assert_eq!(out, "new");
    let err = appended_content(Err(SessionFsError::unknown("disk")), "new").unwrap_err();
    assert_eq!(err.code, SessionFsErrorCode::Unknown);
}
