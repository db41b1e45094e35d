//! The error type of the SDK.
use vstd::prelude::*;
use vstd::string::*;

verus! {

/// Errors reported by the SDK.
#[derive(Debug, Clone, PartialEq, Eq)]
pub enum CopilotError {
    /// The runtime answered in a way the protocol does not allow, or a
    /// request could not be served.
    Protocol(String),
    /// A tool could not be run.
    ToolError(String),
    /// No tool of that name is registered.
    ToolNotFound(String),
    /// The connection to the runtime closed.
    ConnectionClosed,
    /// A wait ran out of time; the limit in milliseconds.
    Timeout(u64),
    /// A value could not be read from or written to JSON.
    Json(String),
}

/// The model of a [`CopilotError`]: its kind and its text.
pub enum ErrorView {
    Protocol(Seq<char>),
    ToolError(Seq<char>),
    ToolNotFound(Seq<char>),
    ConnectionClosed,
    Timeout(nat),
    Json(Seq<char>),
}

impl View for CopilotError {
    type V = ErrorView;

    open spec fn view(&self) -> ErrorView {
        match self {
            CopilotError::Protocol(m) => ErrorView::Protocol(m@),
            CopilotError::ToolError(m) => ErrorView::ToolError(m@),
            CopilotError::ToolNotFound(m) => ErrorView::ToolNotFound(m@),
            CopilotError::ConnectionClosed => ErrorView::ConnectionClosed,
            CopilotError::Timeout(ms) => ErrorView::Timeout(*ms as nat),
            CopilotError::Json(m) => ErrorView::Json(m@),
        }
    }
}

/// The text of an error, as it is reported to the runtime.
pub open spec fn error_text(e: ErrorView) -> Seq<char> {
    match e {
        ErrorView::Protocol(m) => "Protocol error: "@ + m,
        ErrorView::ToolError(m) => "Tool error: "@ + m,
        ErrorView::ToolNotFound(m) => "Tool not found: "@ + m,
        ErrorView::ConnectionClosed => "Connection closed"@,
        ErrorView::Timeout(ms) => "Timeout after "@ + crate::json::decimal_text(ms) + "ms"@,
        ErrorView::Json(m) => "JSON error: "@ + m,
    }
}

impl CopilotError {
    /// The text of this error.
    pub fn message(&self) -> (r: String)
        ensures
            r@ == error_text(self@),
    {
        match self {
            CopilotError::Protocol(m) => {
                let mut s = "Protocol error: ".to_owned();
                s.append(m.as_str());
                s
            },
            CopilotError::ToolError(m) => {
                let mut s = "Tool error: ".to_owned();
                s.append(m.as_str());
                s
            },
            CopilotError::ToolNotFound(m) => {
                let mut s = "Tool not found: ".to_owned();
                s.append(m.as_str());
                s
            },
            CopilotError::ConnectionClosed => "Connection closed".to_owned(),
            CopilotError::Timeout(ms) => {
                let mut s = "Timeout after ".to_owned();
                let digits = crate::json::decimal_string(*ms);
                s.append(digits.as_str());
                s.append("ms");
                s
            },
            CopilotError::Json(m) => {
                let mut s = "JSON error: ".to_owned();
                s.append(m.as_str());
                s
            },
        }
    }
}

/// Result type of the SDK.
pub type Result<T> = core::result::Result<T, CopilotError>;

} // verus!
