//! Client-provided session filesystem (`sessionFs`): errors, value types and
//! configuration.
//!
//! When a client declares a [`SessionFsConfig`], the runtime issues
//! `sessionFs.*` requests back to the client for every file operation; the
//! answers carry the types of this module.
use crate::json::{empty_object, set_field, JsonMap, JsonValue, JsonView};
use vstd::prelude::*;
use vstd::string::*;

verus! {

/// Machine-readable classification of a session filesystem failure.
#[derive(Debug, Clone, Copy, PartialEq, Eq, Hash, Structural)]
pub enum SessionFsErrorCode {
    /// The requested path does not exist (`ENOENT` on the wire).
    NotFound,
    /// The filesystem operation failed for an unspecified reason (`UNKNOWN`).
    Unknown,
}

impl SessionFsErrorCode {
    /// The wire text of the code.
    pub open spec fn spec_wire_name(self) -> Seq<char> {
        match self {
            SessionFsErrorCode::NotFound => "ENOENT"@,
            SessionFsErrorCode::Unknown => "UNKNOWN"@,
        }
    }

    /// The wire text of the code (`ENOENT` or `UNKNOWN`).
    pub fn wire_name(&self) -> (s: &'static str)
        ensures
            s@ == self.spec_wire_name(),
    {
        match self {
            SessionFsErrorCode::NotFound => "ENOENT",
            SessionFsErrorCode::Unknown => "UNKNOWN",
        }
    }
}

/// Error returned by a session filesystem provider operation.
///
/// Serialized on the wire as `{ "code": "ENOENT" | "UNKNOWN", "message": "..." }`.
#[derive(Debug, Clone, PartialEq, Eq)]
pub struct SessionFsError {
    /// Machine-readable error classification.
    pub code: SessionFsErrorCode,
    /// Free-form detail about the error, for logging/diagnostics.
    pub message: Option<String>,
}

/// The message of a not-found error for `path`.
pub open spec fn not_found_message(path: Seq<char>) -> Seq<char> {
    "ENOENT: no such file or directory, '"@ + path + "'"@
}

impl SessionFsError {
    /// Creates an `ENOENT` error for the given path.
    pub fn not_found(path: &str) -> (e: Self)
        ensures
            e.code == SessionFsErrorCode::NotFound,
            e.message matches Some(m) && m@ == not_found_message(path@),
    {
        let mut m = "ENOENT: no such file or directory, '".to_owned();
        m.append(path);
        m.append("'");
        SessionFsError { code: SessionFsErrorCode::NotFound, message: Some(m) }
    }

    /// Creates an `UNKNOWN` error with the given message.
    pub fn unknown(message: &str) -> (e: Self)
        ensures
            e.code == SessionFsErrorCode::Unknown,
            e.message matches Some(m) && m@ == message@,
    {
        SessionFsError { code: SessionFsErrorCode::Unknown, message: Some(message.to_owned()) }
    }

    /// Builds the error that a failed I/O operation maps to: `ENOENT` when
    /// the failure was a missing path, `UNKNOWN` otherwise, carrying the
    /// failure's text.
    pub fn from_io_parts(not_found: bool, message: String) -> (e: Self)
        ensures
            e.code == (if not_found { SessionFsErrorCode::NotFound } else { SessionFsErrorCode::Unknown }),
            e.message == Some(message),
    {
        let code = if not_found {
            SessionFsErrorCode::NotFound
        } else {
            SessionFsErrorCode::Unknown
        };
        SessionFsError { code, message: Some(message) }
    }

    /// Returns `true` when this error represents a missing path.
    pub fn is_not_found(&self) -> (b: bool)
        ensures
            b == (self.code == SessionFsErrorCode::NotFound),
    {
        self.code == SessionFsErrorCode::NotFound
    }

    /// The human-readable text of the error: `CODE: message`, or `CODE`
    /// when there is no message.
    pub fn display(&self) -> (s: String)
        ensures
            s@ == match self.message {
                Some(m) => self.code.spec_wire_name() + ": "@ + m@,
                None => self.code.spec_wire_name(),
            },
    {
        let mut s = self.code.wire_name().to_owned();
        match &self.message {
            Some(m) => {
                s.append(": ");
                s.append(m.as_str());
            },
            None => {},
        }
        s
    }
}

#[verifier::external_type_specification]
#[verifier::external_body]
pub struct ExIoError(std::io::Error);

/// Whether an I/O error is of kind `std::io::ErrorKind::NotFound`.
/// Nothing is stated about the result: the error's kind is not visible to
/// the verifier.
#[verifier::external_body]
fn io_error_is_not_found(err: &std::io::Error) -> bool {
    matches!(err.kind(), std::io::ErrorKind::NotFound)
}

/// The `Display` text of an I/O error (`std::io::Error::to_string`). Nothing
/// is stated about it: for operating-system errors it depends on the machine.
#[verifier::external_body]
fn io_error_text(err: &std::io::Error) -> String {
    err.to_string()
}

impl From<std::io::Error> for SessionFsError {
    /// Maps an I/O error to the wire error: `ENOENT` for a missing path,
    /// `UNKNOWN` otherwise, with the I/O error's text as message.
    fn from(err: std::io::Error) -> (e: Self)
        ensures
            e.message is Some,
    {
        let not_found = io_error_is_not_found(&err);
        let text = io_error_text(&err);
        SessionFsError::from_io_parts(not_found, text)
    }
}

impl vstd::std_specs::convert::FromSpecImpl<std::io::Error> for SessionFsError {
    /// The code and message come from the I/O error's kind and text, which
    /// the verifier cannot see; no closed form is claimed.
    open spec fn obeys_from_spec() -> bool {
        false
    }

    open spec fn from_spec(err: std::io::Error) -> SessionFsError {
        SessionFsError { code: SessionFsErrorCode::Unknown, message: None }
    }
}

/// Result type for session filesystem operations.
pub type SessionFsResult<T> = Result<T, SessionFsError>;

/// Metadata about a file or directory in the session filesystem.
#[derive(Debug, Clone, PartialEq, Eq, Default)]
pub struct SessionFsFileInfo {
    /// Whether the path is a regular file.
    pub is_file: bool,
    /// Whether the path is a directory.
    pub is_directory: bool,
    /// Size of the entry in bytes.
    pub size: u64,
    /// Last modification time as an ISO-8601 timestamp.
    pub mtime: String,
    /// Creation time as an ISO-8601 timestamp.
    pub birthtime: String,
}

/// Kind of entry in a typed directory listing.
#[derive(Debug, Clone, Copy, PartialEq, Eq, Hash, Structural)]
pub enum SessionFsEntryType {
    /// The entry is a file.
    File,
    /// The entry is a directory.
    Directory,
}

/// A directory entry with type information.
#[derive(Debug, Clone, PartialEq, Eq)]
pub struct SessionFsDirEntry {
    /// Entry name (not a full path).
    pub name: String,
    /// Whether the entry is a file or a directory.
    pub entry_type: SessionFsEntryType,
}

impl SessionFsDirEntry {
    /// Creates a file entry.
    pub fn file(name: &str) -> (e: Self)
        ensures
            e.name@ == name@,
            e.entry_type == SessionFsEntryType::File,
    {
        SessionFsDirEntry { name: name.to_owned(), entry_type: SessionFsEntryType::File }
    }

    /// Creates a directory entry.
    pub fn directory(name: &str) -> (e: Self)
        ensures
            e.name@ == name@,
            e.entry_type == SessionFsEntryType::Directory,
    {
        SessionFsDirEntry { name: name.to_owned(), entry_type: SessionFsEntryType::Directory }
    }
}

/// How a SQLite statement should be executed.
#[derive(Debug, Clone, Copy, PartialEq, Eq, Hash, Structural)]
pub enum SessionFsSqliteQueryType {
    /// Execute DDL or multi-statement SQL without returning rows.
    Exec,
    /// Execute a `SELECT`-style query and return rows.
    Query,
    /// Execute `INSERT`, `UPDATE`, or `DELETE` SQL and return affected-row metadata.
    Run,
}

/// Result of a SQLite query against the per-session database.
#[derive(Debug, Default)]
pub struct SessionFsSqliteQueryResult {
    /// Result rows, each a column-name to value map.
    pub rows: Vec<JsonMap>,
    /// Ordered column names for `rows`.
    pub columns: Vec<String>,
    /// Number of rows affected by the statement.
    pub rows_affected: u64,
    /// Rowid of the last inserted row, when applicable.
    pub last_insert_rowid: Option<i64>,
    /// Error describing why the statement failed, when it did.
    pub error: Option<SessionFsError>,
}

/// Path conventions used by a client-provided session filesystem.
#[derive(Debug, Clone, Copy, PartialEq, Eq, Hash, Structural)]
pub enum SessionFsConventions {
    /// Paths use Windows path conventions.
    Windows,
    /// Paths use POSIX path conventions.
    Posix,
}

/// Whether this build targets a platform with Windows path conventions
/// (`std::path::MAIN_SEPARATOR` is `\`). Nothing is stated about the
/// result: it depends on the platform.
#[verifier::external_body]
fn platform_uses_windows_paths() -> bool {
    std::path::MAIN_SEPARATOR == '\\'
}

impl Default for SessionFsConventions {
    /// The host platform's conventions.
    fn default() -> (c: Self)
        ensures
            c == SessionFsConventions::Windows || c == SessionFsConventions::Posix,
    {
        if platform_uses_windows_paths() {
            SessionFsConventions::Windows
        } else {
            SessionFsConventions::Posix
        }
    }
}

/// Optional capabilities advertised by a client-provided session filesystem.
#[derive(Debug, Clone, Copy, Default, PartialEq, Eq, Structural)]
pub struct SessionFsCapabilities {
    /// Whether the provider exposes a per-session SQLite database.
    pub sqlite: Option<bool>,
}

impl SessionFsCapabilities {
    /// Returns `true` when SQLite support is advertised.
    pub fn has_sqlite(&self) -> (b: bool)
        ensures
            b == (self.sqlite == Some(true)),
    {
        match self.sqlite {
            Some(v) => v,
            None => false,
        }
    }
}

/// Client-level configuration enabling the session filesystem.
#[derive(Debug, Clone, PartialEq, Eq)]
pub struct SessionFsConfig {
    /// Initial working directory presented to the runtime.
    pub initial_cwd: String,
    /// Directory where session state is persisted.
    pub session_state_path: String,
    /// Path conventions used by the provider.
    pub conventions: SessionFsConventions,
    /// Optional capabilities advertised to the runtime.
    pub capabilities: Option<SessionFsCapabilities>,
}

/// Unicode `White_Space` characters, the ones `str::trim` removes.
pub open spec fn is_white_space(c: char) -> bool {
    ||| ('\u{9}' <= c && c <= '\u{d}')
    ||| c == ' '
    ||| c == '\u{85}'
    ||| c == '\u{a0}'
    ||| c == '\u{1680}'
    ||| ('\u{2000}' <= c && c <= '\u{200a}')
    ||| c == '\u{2028}'
    ||| c == '\u{2029}'
    ||| c == '\u{202f}'
    ||| c == '\u{205f}'
    ||| c == '\u{3000}'
}

/// The text is empty once surrounding white space is trimmed.
pub open spec fn is_blank(s: Seq<char>) -> bool {
    forall|i: int| 0 <= i < s.len() ==> #[trigger] is_white_space(s[i])
}

fn white_space(c: char) -> (b: bool)
    ensures
        b == is_white_space(c),
{
    ('\u{9}' <= c && c <= '\u{d}') || c == ' ' || c == '\u{85}' || c == '\u{a0}' || c == '\u{1680}'
        || ('\u{2000}' <= c && c <= '\u{200a}') || c == '\u{2028}' || c == '\u{2029}' || c
        == '\u{202f}' || c == '\u{205f}' || c == '\u{3000}'
}

/// Whether `s` is empty after trimming white space.
pub fn blank(s: &str) -> (b: bool)
    ensures
        b == is_blank(s@),
{
    let n = s.unicode_len();
    let mut i: usize = 0;
    while i < n
        invariant
            n == s@.len(),
            i <= n,
            forall|j: int| 0 <= j < i ==> #[trigger] is_white_space(s@[j]),
        decreases n - i,
    {
        if !white_space(s.get_char(i)) {
            return false;
        }
        i = i + 1;
    }
    true
}

impl SessionFsConfig {
    /// Creates a configuration with the required paths and the host's
    /// path conventions.
    pub fn new(initial_cwd: &str, session_state_path: &str) -> (c: Self)
        ensures
            c.initial_cwd@ == initial_cwd@,
            c.session_state_path@ == session_state_path@,
            c.capabilities is None,
    {
        SessionFsConfig {
            initial_cwd: initial_cwd.to_owned(),
            session_state_path: session_state_path.to_owned(),
            conventions: SessionFsConventions::default(),
            capabilities: None,
        }
    }

    /// Overrides the path conventions.
    pub fn conventions(self, conventions: SessionFsConventions) -> (c: Self)
        ensures
            c == (SessionFsConfig { conventions, ..self }),
    {
        let mut c = self;
        c.conventions = conventions;
        c
    }

    /// Advertises (or disclaims) SQLite support.
    pub fn with_sqlite(self, enabled: bool) -> (c: Self)
        ensures
            c == (SessionFsConfig {
                capabilities: Some(SessionFsCapabilities { sqlite: Some(enabled) }),
                ..self
            }),
    {
        let mut c = self;
        c.capabilities = Some(SessionFsCapabilities { sqlite: Some(enabled) });
        c
    }

    /// Returns `true` when SQLite support is advertised.
    pub fn declares_sqlite(&self) -> (b: bool)
        ensures
            b == (self.capabilities matches Some(c) && c.sqlite == Some(true)),
    {
        match self.capabilities {
            Some(c) => c.has_sqlite(),
            None => false,
        }
    }

    /// Validates that the required paths are non-blank.
    pub fn validate(&self) -> (r: Result<(), String>)
        ensures
            r is Ok <==> !is_blank(self.initial_cwd@) && !is_blank(self.session_state_path@),
            r matches Err(m) ==> m@ == if is_blank(self.initial_cwd@) {
                "sessionFs.initialCwd is required when sessionFs is configured"@
            } else {
                "sessionFs.sessionStatePath is required when sessionFs is configured"@
            },
    {
        if blank(self.initial_cwd.as_str()) {
            return Err("sessionFs.initialCwd is required when sessionFs is configured".to_owned());
        }
        if blank(self.session_state_path.as_str()) {
            return Err(
                "sessionFs.sessionStatePath is required when sessionFs is configured".to_owned(),
            );
        }
        Ok(())
    }
}

/// What appending `content` to a file writes, given the outcome of reading
/// the file first: the existing content followed by `content`; a missing
/// file reads as empty; any other read error is the append's error.
pub fn appended_content(existing: Result<String, SessionFsError>, content: &str) -> (r: Result<
    String,
    SessionFsError,
>)
    ensures
        match existing {
            Ok(e) => r matches Ok(s) && s@ == e@ + content@,
            Err(err) => if err.code == SessionFsErrorCode::NotFound {
                r matches Ok(s) && s@ == content@
            } else {
                r == Err::<String, SessionFsError>(err)
            },
        },
{
    match existing {
        Ok(e) => {
            let mut s = e;
            s.append(content);
            Ok(s)
        },
        Err(err) => {
            if err.is_not_found() {
                Ok(content.to_owned())
            } else {
                Err(err)
            }
        },
    }
}

// -----------------------------------------------------------------------------
// Wire shapes
// -----------------------------------------------------------------------------

/// The wire object of an error: `code`, and `message` when present.
pub open spec fn error_wire(e: SessionFsError) -> JsonView {
    let o = set_field(empty_object(), "code"@, JsonView::Str(e.code.spec_wire_name()));
    match e.message {
        Some(m) => set_field(o, "message"@, JsonView::Str(m@)),
        None => o,
    }
}

impl SessionFsError {
    /// The wire object of this error.
    pub fn to_json(&self) -> (r: JsonValue)
        ensures
            r@ == error_wire(*self),
    {
        let mut o = JsonValue::object();
        o.set("code", JsonValue::string(self.code.wire_name()));
        match &self.message {
            Some(m) => o.set("message", JsonValue::string(m.as_str())),
            None => {},
        }
        o
    }
}

/// The wire name of an entry type.
pub open spec fn entry_type_name(t: SessionFsEntryType) -> Seq<char> {
    match t {
        SessionFsEntryType::File => "file"@,
        SessionFsEntryType::Directory => "directory"@,
    }
}

impl SessionFsEntryType {
    /// The wire name (`file` or `directory`).
    pub fn wire_name(self) -> (r: &'static str)
        ensures
            r@ == entry_type_name(self),
    {
        match self {
            SessionFsEntryType::File => "file",
            SessionFsEntryType::Directory => "directory",
        }
    }
}

impl SessionFsDirEntry {
    /// The wire object of this entry: `name` and `type`.
    pub fn to_json(&self) -> (r: JsonValue)
        ensures
            r@ == set_field(
                set_field(empty_object(), "name"@, JsonView::Str(self.name@)),
                "type"@,
                JsonView::Str(entry_type_name(self.entry_type)),
            ),
    {
        let mut o = JsonValue::object();
        o.set("name", JsonValue::string(self.name.as_str()));
        o.set("type", JsonValue::string(self.entry_type.wire_name()));
        o
    }
}

/// The wire name of a SQLite query type.
pub open spec fn query_type_name(t: SessionFsSqliteQueryType) -> Seq<char> {
    match t {
        SessionFsSqliteQueryType::Exec => "exec"@,
        SessionFsSqliteQueryType::Query => "query"@,
        SessionFsSqliteQueryType::Run => "run"@,
    }
}

impl SessionFsSqliteQueryType {
    /// The wire name (`exec`, `query` or `run`).
    pub fn wire_name(self) -> (r: &'static str)
        ensures
            r@ == query_type_name(self),
    {
        match self {
            SessionFsSqliteQueryType::Exec => "exec",
            SessionFsSqliteQueryType::Query => "query",
            SessionFsSqliteQueryType::Run => "run",
        }
    }
}

impl SessionFsFileInfo {
    /// The wire object of this file information.
    pub fn to_json(&self) -> (r: JsonValue)
        ensures
            r@ == set_field(
                set_field(
                    set_field(
                        set_field(
                            set_field(empty_object(), "isFile"@, JsonView::Bool(self.is_file)),
                            "isDirectory"@,
                            JsonView::Bool(self.is_directory),
                        ),
                        "size"@,
                        JsonView::Number(crate::json::decimal_text(self.size as nat)),
                    ),
                    "mtime"@,
                    JsonView::Str(self.mtime@),
                ),
                "birthtime"@,
                JsonView::Str(self.birthtime@),
            ),
    {
        let mut o = JsonValue::object();
        o.set("isFile", JsonValue::Bool(self.is_file));
        o.set("isDirectory", JsonValue::Bool(self.is_directory));
        o.set("size", JsonValue::from_u64(self.size));
        o.set("mtime", JsonValue::string(self.mtime.as_str()));
        o.set("birthtime", JsonValue::string(self.birthtime.as_str()));
        o
    }
}

/// The wire name of path conventions.
pub open spec fn conventions_name(c: SessionFsConventions) -> Seq<char> {
    match c {
        SessionFsConventions::Windows => "windows"@,
        SessionFsConventions::Posix => "posix"@,
    }
}

/// The wire object of a filesystem configuration: `initialCwd`,
/// `sessionStatePath`, `conventions`, and `capabilities` when present (with
/// `sqlite` when set).
pub open spec fn config_wire(c: SessionFsConfig) -> JsonView {
    let o = set_field(empty_object(), "initialCwd"@, JsonView::Str(c.initial_cwd@));
    let o = set_field(o, "sessionStatePath"@, JsonView::Str(c.session_state_path@));
    let o = set_field(o, "conventions"@, JsonView::Str(conventions_name(c.conventions)));
    match c.capabilities {
        Some(caps) => set_field(
            o,
            "capabilities"@,
            match caps.sqlite {
                Some(b) => set_field(empty_object(), "sqlite"@, JsonView::Bool(b)),
                None => empty_object(),
            },
        ),
        None => o,
    }
}

impl SessionFsConfig {
    /// The wire object of this configuration.
    pub fn to_json(&self) -> (r: JsonValue)
        ensures
            r@ == config_wire(*self),
    {
        let mut o = JsonValue::object();
        o.set("initialCwd", JsonValue::string(self.initial_cwd.as_str()));
        o.set("sessionStatePath", JsonValue::string(self.session_state_path.as_str()));
        let conv = match self.conventions {
            SessionFsConventions::Windows => "windows",
            SessionFsConventions::Posix => "posix",
        };
        o.set("conventions", JsonValue::string(conv));
        match self.capabilities {
            Some(caps) => {
                let mut c = JsonValue::object();
                match caps.sqlite {
                    Some(b) => c.set("sqlite", JsonValue::Bool(b)),
                    None => {},
                }
                o.set("capabilities", c);
            },
            None => {},
        }
        o
    }
}

/// Law: each entry type has its own wire name (`file`, `directory`), and two different
/// entry types never share one.
pub proof fn law_entry_type_names(a: SessionFsEntryType, b: SessionFsEntryType)
    ensures
        entry_type_name(SessionFsEntryType::File) == "file"@,
        entry_type_name(SessionFsEntryType::Directory) == "directory"@,
        a != b ==> entry_type_name(a) != entry_type_name(b),
{
    reveal_strlit("file");
    reveal_strlit("directory");
    let n0: Seq<char> = "file"@;
    let n1: Seq<char> = "directory"@;
    assert(n0.len() != n1.len());
}

/// Law: each query type has its own wire name (`exec`, `query`, `run`), and two different
/// query types never share one.
pub proof fn law_query_type_names(a: SessionFsSqliteQueryType, b: SessionFsSqliteQueryType)
    ensures
        query_type_name(SessionFsSqliteQueryType::Exec) == "exec"@,
        query_type_name(SessionFsSqliteQueryType::Query) == "query"@,
        query_type_name(SessionFsSqliteQueryType::Run) == "run"@,
        a != b ==> query_type_name(a) != query_type_name(b),
{
    reveal_strlit("exec");
    reveal_strlit("query");
    reveal_strlit("run");
    let n0: Seq<char> = "exec"@;
    let n1: Seq<char> = "query"@;
    let n2: Seq<char> = "run"@;
    assert(n0.len() != n1.len());
    assert(n0.len() != n2.len());
    assert(n1.len() != n2.len());
}

/// Law: each path convention has its own wire name (`windows`, `posix`), and two different
/// path conventions never share one.
pub proof fn law_path_convention_names(a: SessionFsConventions, b: SessionFsConventions)
    ensures
        conventions_name(SessionFsConventions::Windows) == "windows"@,
        conventions_name(SessionFsConventions::Posix) == "posix"@,
        a != b ==> conventions_name(a) != conventions_name(b),
{
    reveal_strlit("windows");
    reveal_strlit("posix");
    let n0: Seq<char> = "windows"@;
    let n1: Seq<char> = "posix"@;
    assert(n0.len() != n1.len());
}

/// Law: each filesystem error code has its own wire name (`ENOENT`, `UNKNOWN`), and two different
/// filesystem error codes never share one.
pub proof fn law_fs_error_code_names(a: SessionFsErrorCode, b: SessionFsErrorCode)
    ensures
        SessionFsErrorCode::NotFound.spec_wire_name() == "ENOENT"@,
        SessionFsErrorCode::Unknown.spec_wire_name() == "UNKNOWN"@,
        a != b ==> a.spec_wire_name() != b.spec_wire_name(),
{
    reveal_strlit("ENOENT");
    reveal_strlit("UNKNOWN");
    let n0: Seq<char> = "ENOENT"@;
    let n1: Seq<char> = "UNKNOWN"@;
    assert(n0.len() != n1.len());
}

} // verus!
