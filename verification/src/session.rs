//! The decisions a session makes: which registered tool answers a call,
//! what a broadcast request event asks of this client, what it answers the
//! runtime, how hooks are dispatched, and how a stream of events ends a wait.
//! Running handlers and talking to the runtime is left to the caller: these
//! functions take what came back and say what to send.
use crate::error::{error_text, CopilotError, ErrorView};
use crate::json::{
    empty_object, field, member, set_field, JsonMap, JsonValue, JsonView,
};
use crate::keyed::NamedMap;
use crate::tools::{is_failure_type, Tool, ToolResultObject};
use crate::types::{
    AutoModeSwitchRequest, CommandContext, ElicitationContext, ElicitationMode, ExitPlanModeRequest,
    PermissionRequest, UiCapabilities,
};
use vstd::prelude::*;
use vstd::string::*;

verus! {

// =============================================================================
// Events
// =============================================================================

/// Data of an `external_tool.requested` event.
#[derive(Debug)]
pub struct ExternalToolRequestedData {
    pub request_id: Option<String>,
    pub tool_name: Option<String>,
    pub tool_call_id: Option<String>,
    pub arguments: Option<JsonValue>,
}

/// Data of a `permission.requested` event.
#[derive(Debug)]
pub struct PermissionRequestedData {
    pub request_id: Option<String>,
    pub permission_request: Option<JsonValue>,
}

/// Data of an `elicitation.requested` event.
#[derive(Debug)]
pub struct ElicitationRequestedData {
    pub request_id: Option<String>,
    pub message: String,
    pub requested_schema: Option<JsonValue>,
    pub mode: Option<String>,
    pub elicitation_source: Option<String>,
    pub url: Option<String>,
}

/// Data of an `exit_plan_mode.requested` event.
#[derive(Debug, Clone)]
pub struct ExitPlanModeRequestedData {
    pub request_id: Option<String>,
    pub summary: String,
    pub plan_content: Option<String>,
    pub actions: Vec<String>,
    pub recommended_action: Option<String>,
}

/// Data of an `auto_mode_switch.requested` event.
#[derive(Debug, Clone)]
pub struct AutoModeSwitchRequestedData {
    pub request_id: Option<String>,
    pub error_code: Option<String>,
    pub retry_after_seconds: Option<i64>,
}

/// Data of a `command.execute` event.
#[derive(Debug, Clone)]
pub struct CommandExecuteData {
    pub request_id: Option<String>,
    pub command: String,
    pub command_name: String,
    pub args: String,
}

/// The session events whose handling the SDK decides; every other event
/// is `Other`.
#[derive(Debug)]
pub enum SessionEventData {
    ExternalToolRequested(ExternalToolRequestedData),
    PermissionRequested(PermissionRequestedData),
    ElicitationRequested(ElicitationRequestedData),
    ExitPlanModeRequested(ExitPlanModeRequestedData),
    AutoModeSwitchRequested(AutoModeSwitchRequestedData),
    CommandExecute(CommandExecuteData),
    /// Host capabilities changed; `ui` when the payload carries it.
    CapabilitiesChanged { ui: Option<UiCapabilities> },
    /// A complete assistant message.
    AssistantMessage { content: String },
    /// A streamed piece of an assistant message.
    AssistantMessageDelta { delta_content: String },
    /// The session finished processing.
    SessionIdle,
    /// The session reported an error.
    SessionError { message: String },
    /// Any other event.
    Other,
}

/// The envelope of a session event: what every event carries besides its data.
#[derive(Debug, Clone, PartialEq, Eq)]
pub struct EventEnvelope {
    pub id: String,
    pub timestamp: String,
    pub event_type: String,
    pub parent_id: Option<String>,
    pub ephemeral: Option<bool>,
}

impl EventEnvelope {
    /// Reads the envelope of an event's wire object: a string `id` and
    /// `type` are required; `timestamp` is empty when absent.
    pub fn from_json(v: &JsonValue) -> (r: Option<Self>)
        ensures
            r is Some <==> (crate::json::str_field(v@, "id"@) is Some && crate::json::str_field(
                v@,
                "type"@,
            ) is Some),
            r matches Some(e) ==> Some(e.id@) == crate::json::str_field(v@, "id"@) && Some(
                e.event_type@,
            ) == crate::json::str_field(v@, "type"@) && e.timestamp@ == text_or_empty(
                v@,
                "timestamp"@,
            ) && opt_text(e.parent_id) == crate::json::str_field(v@, "parentId"@) && e.ephemeral
                == crate::json::bool_field(v@, "ephemeral"@),
    {
        let id = match v.get_str("id") {
            Some(i) => i,
            None => return None,
        };
        let event_type = match v.get_str("type") {
            Some(t) => t,
            None => return None,
        };
        Some(
            EventEnvelope {
                id,
                timestamp: text_or_empty_exec(v, "timestamp"),
                event_type,
                parent_id: v.get_str("parentId"),
                ephemeral: v.get_bool("ephemeral"),
            },
        )
    }
}

/// The text under `key`, empty when it is not a string there.
pub open spec fn text_or_empty(v: JsonView, key: Seq<char>) -> Seq<char> {
    match crate::json::str_field(v, key) {
        Some(t) => t,
        None => Seq::empty(),
    }
}

/// The model of an optional text.
pub open spec fn opt_text(v: Option<String>) -> Option<Seq<char>> {
    match v {
        Some(s) => Some(s@),
        None => None,
    }
}

fn text_or_empty_exec(v: &JsonValue, key: &str) -> (r: String)
    ensures
        r@ == text_or_empty(v@, key@),
{
    match v.get_str(key) {
        Some(t) => t,
        None => String::new(),
    }
}

fn opt_member(v: &JsonValue, key: &str) -> (r: Option<JsonValue>)
    ensures
        crate::json::opt_json_view(r) == field(v@, key@),
{
    match v.get(key) {
        Some(x) => Some(x.deep_clone()),
        None => None,
    }
}

/// The strings of the array under `key`, skipping other items; empty when
/// there is no array.
pub open spec fn texts_of(items: Seq<JsonView>) -> Seq<Seq<char>>
    decreases items.len(),
{
    if items.len() == 0 {
        Seq::empty()
    } else {
        let prev = texts_of(items.drop_last());
        match items.last() {
            JsonView::Str(t) => prev.push(t),
            _ => prev,
        }
    }
}

fn texts_exec(v: &JsonValue, key: &str) -> (r: Vec<String>)
    ensures
        r@.map_values(|s: String| s@) == (match field(v@, key@) {
            Some(JsonView::Array(items)) => texts_of(items),
            _ => Seq::empty(),
        }),
{
    let mut out: Vec<String> = Vec::new();
    match v.get(key) {
        Some(JsonValue::Array(items)) => {
            let ghost iv = crate::json::items_view(items@);
            proof {
                crate::json::lemma_items_view(items@);
                assert(iv.take(0) =~= Seq::<JsonView>::empty());
            }
            let mut i: usize = 0;
            while i < items.len()
                invariant
                    i <= items@.len(),
                    iv == crate::json::items_view(items@),
                    iv.len() == items@.len(),
                    forall|j: int| 0 <= j < items@.len() ==> #[trigger] iv[j] == items@[j]@,
                    out@.map_values(|s: String| s@) == texts_of(iv.take(i as int)),
                decreases items.len() - i,
            {
                proof {
                    assert(iv.take(i + 1).drop_last() =~= iv.take(i as int));
                    assert(iv.take(i + 1).last() == iv[i as int]);
                }
                match &items[i] {
                    JsonValue::Str(t) => {
                        let ghost before = out@;
                        out.push(t.clone());
                        proof {
                            assert(out@.map_values(|s: String| s@) =~= before.map_values(
                                |s: String| s@,
                            ).push(t@));
                        }
                    },
                    _ => {},
                }
                i = i + 1;
            }
            proof {
                assert(iv.take(i as int) =~= iv);
            }
        },
        _ => {
            proof {
                assert(out@.map_values(|s: String| s@) =~= Seq::<Seq<char>>::empty());
            }
        },
    }
    out
}

fn opt_bool_member(v: &JsonValue, key: &str) -> (r: Option<bool>)
    ensures
        r == crate::json::bool_field(v@, key@),
{
    v.get_bool(key)
}

/// An integer member read as `i64`: a JSON number whose text is the
/// decimal text of an `i64`.
fn opt_i64_member(v: &JsonValue, key: &str) -> (r: Option<i64>)
    ensures
        match field(v@, key@) {
            Some(JsonView::Number(t)) => r == i64_of_text(t),
            _ => r is None,
        },
{
    match v.get(key) {
        Some(JsonValue::Number(t)) => parse_i64(t.as_str()),
        _ => None,
    }
}

/// The decimal text of an integer, with a leading `-` when negative.
pub open spec fn int_text(n: int) -> Seq<char> {
    if n < 0 {
        seq!['-'] + crate::json::decimal_text((-n) as nat)
    } else {
        crate::json::decimal_text(n as nat)
    }
}

/// The `i64` whose decimal text `t` is, if any.
pub open spec fn i64_of_text(t: Seq<char>) -> Option<i64> {
    if exists|n: i64| t == int_text(n as int) {
        Some(choose|n: i64| t == int_text(n as int))
    } else {
        None
    }
}

/// The value of a string of decimal digits.
pub open spec fn digits_value(s: Seq<char>) -> int
    decreases s.len(),
{
    if s.len() == 0 {
        0
    } else {
        digits_value(s.drop_last()) * 10 + ((s.last() as int) - ('0' as int))
    }
}

/// Every character is a decimal digit.
pub open spec fn all_digits(s: Seq<char>) -> bool {
    forall|i: int| 0 <= i < s.len() ==> '0' <= #[trigger] s[i] && s[i] <= '9'
}

/// `10` to the power `k`.
pub open spec fn pow10(k: nat) -> nat
    decreases k,
{
    if k == 0 {
        1
    } else {
        10 * pow10((k - 1) as nat)
    }
}

proof fn lemma_digit_char(d: nat)
    requires
        d < 10,
    ensures
        (crate::json::digit_char(d) as int) - ('0' as int) == d,
        '0' <= crate::json::digit_char(d) <= '9',
{
}

proof fn lemma_decimal_text(v: nat)
    ensures
        all_digits(crate::json::decimal_text(v)),
        digits_value(crate::json::decimal_text(v)) == v,
        crate::json::decimal_text(v).len() >= 1,
        v < pow10(crate::json::decimal_text(v).len()),
        crate::json::decimal_text(v).len() == 1 || v >= pow10(
            (crate::json::decimal_text(v).len() - 1) as nat,
        ),
    decreases v,
{
    let t = crate::json::decimal_text(v);
    if v < 10 {
        lemma_digit_char(v);
        assert(t.drop_last() =~= Seq::<char>::empty());
        assert(t.last() == crate::json::digit_char(v));
        assert(digits_value(t.drop_last()) == 0);
        assert(pow10(1) == 10) by {
            assert(pow10(0) == 1);
        }
    } else {
        lemma_decimal_text(v / 10);
        lemma_digit_char(v % 10);
        let p = crate::json::decimal_text(v / 10);
        assert(t == p.push(crate::json::digit_char(v % 10)));
        assert(t.drop_last() =~= p);
        assert(t.last() == crate::json::digit_char(v % 10));
        assert(v == (v / 10) * 10 + v % 10);
        assert(digits_value(t) == digits_value(p) * 10 + ((t.last() as int) - ('0' as int)));
        assert(pow10(t.len()) == 10 * pow10(p.len()));
        assert(pow10((t.len() - 1) as nat) == pow10(p.len()));
        if p.len() == 1 {
            assert(pow10(1) == 10) by {
                assert(pow10(0) == 1);
            }
        } else {
            assert(pow10(p.len()) == 10 * pow10((p.len() - 1) as nat));
        }
    }
}

proof fn lemma_digits_bound(s: Seq<char>)
    requires
        all_digits(s),
    ensures
        0 <= digits_value(s) < pow10(s.len()),
    decreases s.len(),
{
    if s.len() > 0 {
        assert(all_digits(s.drop_last())) by {
            assert forall|i: int| 0 <= i < s.drop_last().len() implies '0' <= #[trigger] s.drop_last()[i]
                && s.drop_last()[i] <= '9' by {
                assert(s.drop_last()[i] == s[i]);
            }
        }
        lemma_digits_bound(s.drop_last());
        assert(pow10(s.len()) == 10 * pow10((s.len() - 1) as nat));
    }
}

proof fn lemma_pow10_19()
    ensures
        pow10(19) == 10000000000000000000,
        pow10(18) == 1000000000000000000,
{
    reveal_with_fuel(pow10, 20);
}

proof fn lemma_pow10_mono(a: nat, b: nat)
    requires
        a <= b,
    ensures
        pow10(a) <= pow10(b),
    decreases b,
{
    if a < b {
        lemma_pow10_mono(a, (b - 1) as nat);
    }
}

/// The magnitude of an integer.
pub open spec fn magnitude(m: int) -> nat {
    if m < 0 {
        (-m) as nat
    } else {
        m as nat
    }
}

/// Where the digits of an integer's text start.
pub open spec fn digits_start(m: int) -> int {
    if m < 0 {
        1
    } else {
        0
    }
}

proof fn lemma_i64_text_shape(t: Seq<char>, m: int)
    requires
        t == int_text(m),
        -9223372036854775808 <= m <= 9223372036854775807,
    ensures
        t.len() >= 1,
        (t[0] == '-') == (m < 0),
        digits_start(m) < t.len(),
        t.subrange(digits_start(m), t.len() as int) == crate::json::decimal_text(magnitude(m)),
        all_digits(t.subrange(digits_start(m), t.len() as int)),
        digits_value(t.subrange(digits_start(m), t.len() as int)) == magnitude(m),
        t.len() - digits_start(m) <= 19,
{
    let d = crate::json::decimal_text(magnitude(m));
    lemma_decimal_text(magnitude(m));
    lemma_pow10_19();
    if m < 0 {
        assert(t.subrange(1, t.len() as int) =~= d);
    } else {
        assert(t.subrange(0, t.len() as int) =~= d);
        assert('0' <= d[0]);
    }
    if d.len() > 19 {
        lemma_pow10_mono(19, (d.len() - 1) as nat);
    }
}

proof fn lemma_int_text_injective(a: int, b: int)
    requires
        int_text(a) == int_text(b),
    ensures
        a == b,
{
    lemma_decimal_text(magnitude(a));
    lemma_decimal_text(magnitude(b));
    if a < 0 && b >= 0 {
        assert(int_text(a)[0] == '-');
        assert('0' <= int_text(b)[0]);
    }
    if a >= 0 && b < 0 {
        assert(int_text(b)[0] == '-');
        assert('0' <= int_text(a)[0]);
    }
    if a < 0 && b < 0 {
        assert(crate::json::decimal_text(magnitude(a)) =~= int_text(a).drop_first());
        assert(crate::json::decimal_text(magnitude(b)) =~= int_text(b).drop_first());
    }
}

pub(crate) fn parse_i64(t: &str) -> (r: Option<i64>)
    ensures
        r == i64_of_text(t@),
{
    let len = t.unicode_len();
    if len == 0 {
        proof {
            if exists|m: i64| t@ == int_text(m as int) {
                let m = choose|m: i64| t@ == int_text(m as int);
                lemma_i64_text_shape(t@, m as int);
            }
        }
        return None;
    }
    let neg = t.get_char(0) == '-';
    let start: usize = if neg { 1 } else { 0 };
    if start >= len || len - start > 19 {
        proof {
            if exists|m: i64| t@ == int_text(m as int) {
                let m = choose|m: i64| t@ == int_text(m as int);
                lemma_i64_text_shape(t@, m as int);
            }
        }
        return None;
    }
    let mut value: u64 = 0;
    let mut i: usize = start;
    proof {
        assert(t@.subrange(start as int, start as int) =~= Seq::<char>::empty());
        lemma_pow10_19();
    }
    while i < len
        invariant
            start <= i <= len,
            len == t@.len(),
            len >= 1,
            neg == (t@[0] == '-'),
            start == (if neg { 1usize } else { 0usize }),
            len - start <= 19,
            pow10(19) == 10000000000000000000,
            pow10(18) == 1000000000000000000,
            all_digits(t@.subrange(start as int, i as int)),
            value == digits_value(t@.subrange(start as int, i as int)),
        decreases len - i,
    {
        let c = t.get_char(i);
        if c < '0' || c > '9' {
            proof {
                if exists|m: i64| t@ == int_text(m as int) {
                    let m = choose|m: i64| t@ == int_text(m as int);
                    lemma_i64_text_shape(t@, m as int);
                    assert(start as int == digits_start(m as int));
                    let all = t@.subrange(start as int, len as int);
                    assert(all[i - start] == t@[i as int]);
                    assert('0' <= all[i - start] && all[i - start] <= '9');
                    assert(false);
                }
            }
            return None;
        }
        proof {
            let sub = t@.subrange(start as int, i as int);
            lemma_digits_bound(sub);
            lemma_pow10_mono(sub.len(), 18);
            assert(t@.subrange(start as int, i + 1).drop_last() =~= sub);
            assert(all_digits(t@.subrange(start as int, i + 1))) by {
                assert forall|j: int| 0 <= j < t@.subrange(start as int, i + 1).len() implies '0'
                    <= #[trigger] t@.subrange(start as int, i + 1)[j] && t@.subrange(start as int, i + 1)[j]
                    <= '9' by {
                    if j < sub.len() {
                        assert(t@.subrange(start as int, i + 1)[j] == sub[j]);
                    }
                }
            }
        }
        value = value * 10 + ((c as u32) - ('0' as u32)) as u64;
        i = i + 1;
    }
    let limit: u64 = if neg { 9223372036854775808u64 } else { 9223372036854775807u64 };
    if value > limit {
        proof {
            if exists|m: i64| t@ == int_text(m as int) {
                let m = choose|m: i64| t@ == int_text(m as int);
                lemma_i64_text_shape(t@, m as int);
            }
        }
        return None;
    }
    let n: i64 = if neg {
        if value == 9223372036854775808u64 {
            -9223372036854775807i64 - 1
        } else {
            -(value as i64)
        }
    } else {
        value as i64
    };
    let text = if n < 0 {
        let mut s = "-".to_owned();
        s.append(crate::json::decimal_string(value).as_str());
        s
    } else {
        crate::json::decimal_string(n as u64)
    };
    proof {
        reveal_strlit("-");
        assert(text@ == int_text(n as int));
    }
    if crate::json::str_eq(text.as_str(), t) {
        proof {
            assert(i64_of_text(t@) == Some(n)) by {
                let m = choose|m: i64| t@ == int_text(m as int);
                lemma_int_text_injective(m as int, n as int);
            }
        }
        Some(n)
    } else {
        proof {
            if exists|m: i64| t@ == int_text(m as int) {
                let m = choose|m: i64| t@ == int_text(m as int);
                lemma_i64_text_shape(t@, m as int);
            }
        }
        None
    }
}

/// Reads the data of an event of type `event_type` into the event the SDK
/// decides on; types it does not decide on are `Other`.
pub fn decode_event(event_type: &str, data: &JsonValue) -> (r: SessionEventData)
    ensures
        match r {
            SessionEventData::ExternalToolRequested(x) => event_type@ == "external_tool.requested"@
                && opt_text(x.request_id) == crate::json::str_field(data@, "requestId"@)
                && opt_text(x.tool_name) == crate::json::str_field(data@, "toolName"@)
                && opt_text(x.tool_call_id) == crate::json::str_field(data@, "toolCallId"@)
                && crate::json::opt_json_view(x.arguments) == field(data@, "arguments"@),
            SessionEventData::PermissionRequested(x) => event_type@ == "permission.requested"@
                && opt_text(x.request_id) == crate::json::str_field(data@, "requestId"@)
                && crate::json::opt_json_view(x.permission_request) == field(data@, "permissionRequest"@),
            SessionEventData::ElicitationRequested(x) => event_type@ == "elicitation.requested"@
                && opt_text(x.request_id) == crate::json::str_field(data@, "requestId"@)
                && x.message@ == text_or_empty(data@, "message"@)
                && crate::json::opt_json_view(x.requested_schema) == field(data@, "requestedSchema"@)
                && opt_text(x.mode) == crate::json::str_field(data@, "mode"@)
                && opt_text(x.elicitation_source) == crate::json::str_field(data@, "elicitationSource"@)
                && opt_text(x.url) == crate::json::str_field(data@, "url"@),
            SessionEventData::ExitPlanModeRequested(x) => event_type@ == "exit_plan_mode.requested"@
                && opt_text(x.request_id) == crate::json::str_field(data@, "requestId"@)
                && x.summary@ == text_or_empty(data@, "summary"@)
                && opt_text(x.plan_content) == crate::json::str_field(data@, "planContent"@)
                && x.actions@.map_values(|s: String| s@) == (match field(data@, "actions"@) {
                    Some(JsonView::Array(items)) => texts_of(items),
                    _ => Seq::empty(),
                })
                && opt_text(x.recommended_action) == crate::json::str_field(data@, "recommendedAction"@),
            SessionEventData::AutoModeSwitchRequested(x) => event_type@ == "auto_mode_switch.requested"@
                && opt_text(x.request_id) == crate::json::str_field(data@, "requestId"@)
                && opt_text(x.error_code) == crate::json::str_field(data@, "errorCode"@)
                && x.retry_after_seconds == (match field(data@, "retryAfterSeconds"@) {
                    Some(JsonView::Number(t)) => i64_of_text(t),
                    _ => None,
                }),
            SessionEventData::CommandExecute(x) => event_type@ == "command.execute"@
                && opt_text(x.request_id) == crate::json::str_field(data@, "requestId"@)
                && x.command@ == text_or_empty(data@, "command"@)
                && x.command_name@ == text_or_empty(data@, "commandName"@)
                && x.args@ == text_or_empty(data@, "args"@),
            SessionEventData::CapabilitiesChanged { ui } => event_type@ == "capabilities.changed"@
                && (ui is Some <==> field(data@, "ui"@) is Some)
                && (ui matches Some(u) ==> (u.elicitation == crate::json::bool_field(
                    field(data@, "ui"@)->0,
                    "elicitation"@,
                ) && u.mcp_apps == crate::json::bool_field(field(data@, "ui"@)->0, "mcpApps"@)
                    && u.canvases == crate::json::bool_field(field(data@, "ui"@)->0, "canvases"@))),
            SessionEventData::AssistantMessage { content } => event_type@ == "assistant.message"@
                && content@ == text_or_empty(data@, "content"@),
            SessionEventData::AssistantMessageDelta { delta_content } => event_type@
                == "assistant.message_delta"@ && delta_content@ == text_or_empty(data@, "deltaContent"@),
            SessionEventData::SessionIdle => event_type@ == "session.idle"@,
            SessionEventData::SessionError { message } => event_type@ == "session.error"@
                && message@ == text_or_empty(data@, "message"@),
            SessionEventData::Other => event_type@ != "external_tool.requested"@ && event_type@
                != "permission.requested"@ && event_type@ != "elicitation.requested"@ && event_type@
                != "exit_plan_mode.requested"@ && event_type@ != "auto_mode_switch.requested"@
                && event_type@ != "command.execute"@ && event_type@ != "capabilities.changed"@
                && event_type@ != "assistant.message"@ && event_type@ != "assistant.message_delta"@
                && event_type@ != "session.idle"@ && event_type@ != "session.error"@,
        },
{
    let t = event_type;
    let d = data;
    if crate::json::str_eq(t, "external_tool.requested") {
        SessionEventData::ExternalToolRequested(
            ExternalToolRequestedData {
                request_id: d.get_str("requestId"),
                tool_name: d.get_str("toolName"),
                tool_call_id: d.get_str("toolCallId"),
                arguments: opt_member(d, "arguments"),
            },
        )
    } else if crate::json::str_eq(t, "permission.requested") {
        SessionEventData::PermissionRequested(
            PermissionRequestedData {
                request_id: d.get_str("requestId"),
                permission_request: opt_member(d, "permissionRequest"),
            },
        )
    } else if crate::json::str_eq(t, "elicitation.requested") {
        SessionEventData::ElicitationRequested(
            ElicitationRequestedData {
                request_id: d.get_str("requestId"),
                message: text_or_empty_exec(d, "message"),
                requested_schema: opt_member(d, "requestedSchema"),
                mode: d.get_str("mode"),
                elicitation_source: d.get_str("elicitationSource"),
                url: d.get_str("url"),
            },
        )
    } else if crate::json::str_eq(t, "exit_plan_mode.requested") {
        SessionEventData::ExitPlanModeRequested(
            ExitPlanModeRequestedData {
                request_id: d.get_str("requestId"),
                summary: text_or_empty_exec(d, "summary"),
                plan_content: d.get_str("planContent"),
                actions: texts_exec(d, "actions"),
                recommended_action: d.get_str("recommendedAction"),
            },
        )
    } else if crate::json::str_eq(t, "auto_mode_switch.requested") {
        SessionEventData::AutoModeSwitchRequested(
            AutoModeSwitchRequestedData {
                request_id: d.get_str("requestId"),
                error_code: d.get_str("errorCode"),
                retry_after_seconds: opt_i64_member(d, "retryAfterSeconds"),
            },
        )
    } else if crate::json::str_eq(t, "command.execute") {
        SessionEventData::CommandExecute(
            CommandExecuteData {
                request_id: d.get_str("requestId"),
                command: text_or_empty_exec(d, "command"),
                command_name: text_or_empty_exec(d, "commandName"),
                args: text_or_empty_exec(d, "args"),
            },
        )
    } else if crate::json::str_eq(t, "capabilities.changed") {
        let ui = match d.get("ui") {
            Some(u) => Some(
                UiCapabilities {
                    elicitation: opt_bool_member(u, "elicitation"),
                    mcp_apps: opt_bool_member(u, "mcpApps"),
                    canvases: opt_bool_member(u, "canvases"),
                },
            ),
            None => None,
        };
        SessionEventData::CapabilitiesChanged { ui }
    } else if crate::json::str_eq(t, "assistant.message") {
        SessionEventData::AssistantMessage { content: text_or_empty_exec(d, "content") }
    } else if crate::json::str_eq(t, "assistant.message_delta") {
        SessionEventData::AssistantMessageDelta { delta_content: text_or_empty_exec(d, "deltaContent") }
    } else if crate::json::str_eq(t, "session.idle") {
        SessionEventData::SessionIdle
    } else if crate::json::str_eq(t, "session.error") {
        SessionEventData::SessionError { message: text_or_empty_exec(d, "message") }
    } else {
        SessionEventData::Other
    }
}

// =============================================================================
// Tool registry
// =============================================================================

/// A tool registered with the session, including its handlers. `H` is the
/// type of a plain handler, `I` that of an invocation-aware handler.
pub struct RegisteredTool<H, I> {
    /// Tool definition.
    pub tool: Tool,
    /// Handler for tool invocations.
    pub handler: Option<H>,
    /// Invocation-aware handler, preferred over `handler` when both are set.
    pub invocation_handler: Option<I>,
}

/// The handler a tool call goes to.
pub enum ToolDispatch<'a, H, I> {
    /// The invocation-aware handler.
    Invocation(&'a I),
    /// The plain handler.
    Plain(&'a H),
}

/// The text of the error for a registered tool without a handler.
pub open spec fn no_handler_text(name: Seq<char>) -> Seq<char> {
    "No handler for tool: "@ + name
}

/// The registrations after registering each of `tools` in order without handlers.
pub open spec fn registered_all<H, I>(m: Map<Seq<char>, RegisteredTool<H, I>>, tools: Seq<Tool>) -> Map<
    Seq<char>,
    RegisteredTool<H, I>,
>
    decreases tools.len(),
{
    if tools.len() == 0 {
        m
    } else {
        registered_all(m, tools.drop_last()).insert(
            tools.last().name@,
            RegisteredTool { tool: tools.last(), handler: None, invocation_handler: None },
        )
    }
}

/// The tools registered with a session, by name.
pub struct ToolRegistry<H, I> {
    pub tools: NamedMap<RegisteredTool<H, I>>,
}

impl<H, I> ToolRegistry<H, I> {
    /// A registry with no tools.
    pub fn new() -> (r: Self)
        ensures
            r.tools.view() == Map::<Seq<char>, RegisteredTool<H, I>>::empty(),
    {
        ToolRegistry { tools: NamedMap::new() }
    }

    /// Registers `tool` under its name with a plain handler, replacing any
    /// tool registered under that name.
    pub fn register_tool_with_handler(&mut self, tool: Tool, handler: Option<H>)
        ensures
            final(self).tools.view() == old(self).tools.view().insert(
                tool.name@,
                RegisteredTool { tool, handler, invocation_handler: None },
            ),
    {
        let name = tool.name.clone();
        self.tools.insert(name, RegisteredTool { tool, handler, invocation_handler: None });
    }

    /// Registers `tool` under its name without a handler.
    pub fn register_tool(&mut self, tool: Tool)
        ensures
            final(self).tools.view() == old(self).tools.view().insert(
                tool.name@,
                RegisteredTool { tool, handler: None, invocation_handler: None },
            ),
    {
        self.register_tool_with_handler(tool, None);
    }

    /// Registers `tool` under its name with an invocation-aware handler.
    pub fn register_tool_with_invocation_handler(&mut self, tool: Tool, handler: Option<I>)
        ensures
            final(self).tools.view() == old(self).tools.view().insert(
                tool.name@,
                RegisteredTool { tool, handler: None, invocation_handler: handler },
            ),
    {
        let name = tool.name.clone();
        self.tools.insert(name, RegisteredTool { tool, handler: None, invocation_handler: handler });
    }

    /// Registers each tool, in order, without handlers; a later tool with
    /// the name of an earlier one replaces it.
    pub fn register_tools(&mut self, tools: Vec<Tool>)
        ensures
            final(self).tools.view() == registered_all(old(self).tools.view(), tools@),
    {
        let mut rest = tools;
        let ghost all = rest@;
        let ghost start = self.tools.view();
        let mut done: usize = 0;
        let n = rest.len();
        proof {
            assert(all.take(0) =~= Seq::<Tool>::empty());
        }
        while rest.len() > 0
            invariant
                all.len() == n,
                done + rest@.len() == all.len(),
                rest@ == all.skip(done as int),
                self.tools.view() == registered_all(start, all.take(done as int)),
            decreases rest.len(),
        {
            let t = rest.remove(0);
            proof {
                assert(t == all[done as int]);
                assert(rest@ =~= all.skip(done + 1));
                assert(all.take(done + 1).drop_last() =~= all.take(done as int));
            }
            self.register_tool(t);
            done = done + 1;
        }
        proof {
            assert(all.take(done as int) =~= all);
        }
    }

    /// The definition of the tool registered under `name`.
    pub fn get_tool(&self, name: &str) -> (r: Option<&Tool>)
        ensures
            r is Some <==> self.tools.view().contains_key(name@),
            r matches Some(t) ==> *t == self.tools.view()[name@].tool,
    {
        match self.tools.get(name) {
            Some(rt) => Some(&rt.tool),
            None => None,
        }
    }

    /// Which handler answers a call of tool `name`: the invocation-aware
    /// handler when there is one, else the plain handler. A name without a
    /// registered tool is `ToolNotFound`; a tool without a handler is a tool
    /// error.
    pub fn dispatch(&self, name: &str) -> (r: Result<ToolDispatch<'_, H, I>, CopilotError>)
        ensures
            match r {
                Ok(ToolDispatch::Invocation(i)) => self.tools.view().contains_key(name@)
                    && self.tools.view()[name@].invocation_handler == Some(*i),
                Ok(ToolDispatch::Plain(h)) => self.tools.view().contains_key(name@)
                    && self.tools.view()[name@].invocation_handler is None
                    && self.tools.view()[name@].handler == Some(*h),
                Err(e) => if !self.tools.view().contains_key(name@) {
                    e@ == ErrorView::ToolNotFound(name@)
                } else {
                    self.tools.view()[name@].invocation_handler is None
                        && self.tools.view()[name@].handler is None && e@ == ErrorView::ToolError(
                        no_handler_text(name@),
                    )
                },
            },
    {
        match self.tools.get(name) {
            None => Err(CopilotError::ToolNotFound(name.to_owned())),
            Some(rt) => match &rt.invocation_handler {
                Some(i) => Ok(ToolDispatch::Invocation(i)),
                None => match &rt.handler {
                    Some(h) => Ok(ToolDispatch::Plain(h)),
                    None => {
                        let mut m = "No handler for tool: ".to_owned();
                        m.append(name);
                        Err(CopilotError::ToolError(m))
                    },
                },
            },
        }
    }
}

/// Law: once a tool is registered with a plain handler, its name is
/// registered, has no invocation handler, and its handler is that one; so a
/// call of it goes to that handler (see [`ToolRegistry::dispatch`]).
pub proof fn law_plain_registration_dispatches<H, I>(
    m: Map<Seq<char>, RegisteredTool<H, I>>,
    tool: Tool,
    h: H,
)
    ensures
        ({
            let m2 = m.insert(tool.name@, RegisteredTool { tool, handler: Some(h), invocation_handler: None });
            &&& m2.contains_key(tool.name@)
            &&& m2[tool.name@].invocation_handler is None
            &&& m2[tool.name@].handler == Some(h)
            &&& m2[tool.name@].tool == tool
        }),
{
}

/// Law: once a tool is registered with an invocation-aware handler, a call
/// of it goes to that handler.
pub proof fn law_invocation_registration_dispatches<H, I>(
    m: Map<Seq<char>, RegisteredTool<H, I>>,
    tool: Tool,
    i: I,
)
    ensures
        ({
            let m2 = m.insert(tool.name@, RegisteredTool { tool, handler: None, invocation_handler: Some(i) });
            &&& m2.contains_key(tool.name@)
            &&& m2[tool.name@].invocation_handler == Some(i)
        }),
{
}

// =============================================================================
// Broadcast requests
// =============================================================================

/// Which optional handlers the session has registered.
#[derive(Debug, Clone, Copy, PartialEq, Eq, Structural)]
pub struct HandlerPresence {
    pub elicitation: bool,
    pub exit_plan_mode: bool,
    pub auto_mode_switch: bool,
}

/// What a broadcast request event asks of this client.
#[derive(Debug)]
pub enum BroadcastPlan {
    /// Nothing: the event is not a request, lacks its request id or subject,
    /// or asks for something this client has not registered (another client
    /// may answer it).
    Ignore,
    /// Run the registered tool and answer with [`tool_call_reply`].
    InvokeTool { request_id: String, tool_name: String, arguments: JsonValue },
    /// Ask the permission handler (denying without one) and answer with
    /// [`permission_reply`].
    DecidePermission { request_id: String, request: PermissionRequest },
    /// Run the elicitation handler (cancelling if it fails) and answer with
    /// [`elicitation_reply`].
    Elicit { request_id: String, context: ElicitationContext },
    /// Run the exit-plan-mode handler and answer with [`exit_plan_mode_reply`].
    ExitPlanMode { request_id: String, request: ExitPlanModeRequest },
    /// Run the auto-mode-switch handler and answer with [`auto_mode_switch_reply`].
    AutoModeSwitch { request_id: String, request: AutoModeSwitchRequest },
    /// Run the command handler and answer with [`command_reply`] without an error.
    RunCommand { request_id: String, context: CommandContext },
    /// Answer with [`command_reply`] carrying `error`.
    RejectCommand { request_id: String, error: String },
}

/// The text of the error for a command without a handler.
pub open spec fn unknown_command_text(name: Seq<char>) -> Seq<char> {
    "Unknown command: "@ + name
}

/// The members of a permission request other than `kind` and `toolCallId`.
pub open spec fn extension_members(m: Seq<(Seq<char>, JsonView)>) -> Seq<(Seq<char>, JsonView)>
    decreases m.len(),
{
    if m.len() == 0 {
        Seq::empty()
    } else {
        let prev = extension_members(m.drop_last());
        if m.last().0 == "kind"@ || m.last().0 == "toolCallId"@ {
            prev
        } else {
            prev.push(m.last())
        }
    }
}

/// The permission request read from the event's JSON: `kind` (`unknown`
/// when it is not a string), `toolCallId` when it is a string, and every
/// other member of an object.
pub open spec fn permission_request_of(v: JsonView) -> (Seq<char>, Option<Seq<char>>, Seq<
    (Seq<char>, JsonView),
>) {
    (
        match field(v, "kind"@) {
            Some(JsonView::Str(k)) => k,
            _ => "unknown"@,
        },
        match field(v, "toolCallId"@) {
            Some(JsonView::Str(t)) => Some(t),
            _ => None,
        },
        match v {
            JsonView::Object(m) => extension_members(m),
            _ => Seq::empty(),
        },
    )
}

/// Reads a permission request from the event's JSON.
pub fn read_permission_request(v: &JsonValue) -> (r: PermissionRequest)
    ensures
        (r.kind@, r.tool_call_id.deep_view(), crate::json::members_view(r.extension_data@))
            == permission_request_of(v@),
{
    let kind = match v.get("kind") {
        Some(JsonValue::Str(k)) => k.clone(),
        _ => "unknown".to_owned(),
    };
    let tool_call_id = match v.get("toolCallId") {
        Some(JsonValue::Str(t)) => Some(t.clone()),
        _ => None,
    };
    let mut extension_data: JsonMap = Vec::new();
    match v {
        JsonValue::Object(m) => {
            let ghost mv = crate::json::members_view(m@);
            proof {
                crate::json::lemma_members_view(m@);
                crate::json::lemma_members_view(extension_data@);
                assert(extension_members(mv.take(0)) =~= Seq::empty());
            }
            let mut i: usize = 0;
            while i < m.len()
                invariant
                    i <= m@.len(),
                    mv == crate::json::members_view(m@),
                    mv.len() == m@.len(),
                    forall|j: int| 0 <= j < m@.len() ==> #[trigger] mv[j] == (m@[j].0@, m@[j].1@),
                    crate::json::members_view(extension_data@) == extension_members(mv.take(i as int)),
                decreases m.len() - i,
            {
                proof {
                    assert(mv.take(i + 1).drop_last() =~= mv.take(i as int));
                    assert(mv.take(i + 1).last() == mv[i as int]);
                    reveal_strlit("kind");
                    reveal_strlit("toolCallId");
                }
                let key = &m[i].0;
                if !crate::json::str_eq(key.as_str(), "kind") && !crate::json::str_eq(
                    key.as_str(),
                    "toolCallId",
                ) {
                    let ghost before = extension_data@;
                    extension_data.push((key.clone(), m[i].1.deep_clone()));
                    proof {
                        assert(extension_data@.drop_last() == before);
                    }
                }
                i = i + 1;
            }
            proof {
                assert(mv.take(i as int) =~= mv);
            }
        },
        _ => {
            proof {
                assert(crate::json::members_view(extension_data@) =~= Seq::empty());
            }
        },
    }
    PermissionRequest { kind, tool_call_id, extension_data }
}

/// What a broadcast event asks of a client holding `tool_names`,
/// `command_names` and the `handlers` present: the model of [`BroadcastPlan`]
/// without its payloads, which the function's `ensures` pins separately.
pub enum PlanKind {
    Ignore,
    InvokeTool,
    DecidePermission,
    Elicit,
    ExitPlanMode,
    AutoModeSwitch,
    RunCommand,
    RejectCommand,
}

/// The kind of answer an event calls for.
pub open spec fn plan_kind_of(
    event: SessionEventData,
    has_tool: spec_fn(Seq<char>) -> bool,
    has_command: spec_fn(Seq<char>) -> bool,
    handlers: HandlerPresence,
) -> PlanKind {
    match event {
        SessionEventData::ExternalToolRequested(d) => if d.request_id is Some && d.tool_name is Some
            && has_tool(d.tool_name->0@) {
            PlanKind::InvokeTool
        } else {
            PlanKind::Ignore
        },
        SessionEventData::PermissionRequested(d) => if d.request_id is Some
            && d.permission_request is Some {
            PlanKind::DecidePermission
        } else {
            PlanKind::Ignore
        },
        SessionEventData::ElicitationRequested(d) => if d.request_id is Some
            && handlers.elicitation {
            PlanKind::Elicit
        } else {
            PlanKind::Ignore
        },
        SessionEventData::ExitPlanModeRequested(d) => if d.request_id is Some
            && handlers.exit_plan_mode {
            PlanKind::ExitPlanMode
        } else {
            PlanKind::Ignore
        },
        SessionEventData::AutoModeSwitchRequested(d) => if d.request_id is Some
            && handlers.auto_mode_switch {
            PlanKind::AutoModeSwitch
        } else {
            PlanKind::Ignore
        },
        SessionEventData::CommandExecute(d) => if d.request_id is None {
            PlanKind::Ignore
        } else if has_command(d.command_name@) {
            PlanKind::RunCommand
        } else {
            PlanKind::RejectCommand
        },
        _ => PlanKind::Ignore,
    }
}

/// The kind of a plan.
pub open spec fn kind_of_plan(p: BroadcastPlan) -> PlanKind {
    match p {
        BroadcastPlan::Ignore => PlanKind::Ignore,
        BroadcastPlan::InvokeTool { .. } => PlanKind::InvokeTool,
        BroadcastPlan::DecidePermission { .. } => PlanKind::DecidePermission,
        BroadcastPlan::Elicit { .. } => PlanKind::Elicit,
        BroadcastPlan::ExitPlanMode { .. } => PlanKind::ExitPlanMode,
        BroadcastPlan::AutoModeSwitch { .. } => PlanKind::AutoModeSwitch,
        BroadcastPlan::RunCommand { .. } => PlanKind::RunCommand,
        BroadcastPlan::RejectCommand { .. } => PlanKind::RejectCommand,
    }
}

fn clone_opt(v: &Option<String>) -> (r: Option<String>)
    ensures
        r == *v,
{
    match v {
        Some(s) => Some(s.clone()),
        None => None,
    }
}

fn clone_strings(v: &Vec<String>) -> (r: Vec<String>)
    ensures
        r@ == v@,
{
    let mut out: Vec<String> = Vec::new();
    let mut i: usize = 0;
    while i < v.len()
        invariant
            i <= v@.len(),
            out@ == v@.take(i as int),
        decreases v.len() - i,
    {
        out.push(v[i].clone());
        proof {
            assert(out@ =~= v@.take(i + 1));
        }
        i = i + 1;
    }
    proof {
        assert(v@.take(i as int) =~= v@);
    }
    out
}

/// Decides what a broadcast request event asks of this client: the tool
/// registry and command names say what it can answer, `handlers` which
/// optional handlers it holds.
pub fn plan_broadcast<H, I, C>(
    session_id: &str,
    tools: &ToolRegistry<H, I>,
    commands: &NamedMap<C>,
    handlers: HandlerPresence,
    event: &SessionEventData,
) -> (r: BroadcastPlan)
    ensures
        kind_of_plan(r) == plan_kind_of(
            *event,
            |n: Seq<char>| tools.tools.view().contains_key(n),
            |n: Seq<char>| commands.view().contains_key(n),
            handlers,
        ),
        match (r, *event) {
            (
                BroadcastPlan::InvokeTool { request_id, tool_name, arguments },
                SessionEventData::ExternalToolRequested(d),
            ) => Some(request_id) == d.request_id && Some(tool_name) == d.tool_name
                && arguments@ == (match d.arguments {
                Some(a) => a@,
                None => empty_object(),
            }),
            (
                BroadcastPlan::DecidePermission { request_id, request },
                SessionEventData::PermissionRequested(d),
            ) => Some(request_id) == d.request_id && (
                request.kind@,
                request.tool_call_id.deep_view(),
                crate::json::members_view(request.extension_data@),
            ) == permission_request_of(d.permission_request->0@),
            (
                BroadcastPlan::Elicit { request_id, context },
                SessionEventData::ElicitationRequested(d),
            ) => Some(request_id) == d.request_id && context.session_id@ == session_id@
                && context.message == d.message && crate::json::opt_json_view(context.requested_schema)
                == crate::json::opt_json_view(d.requested_schema) && context.mode == (match d.mode {
                Some(m) => Some(crate::types::mode_of_name(m@)),
                None => None,
            }) && context.elicitation_source == d.elicitation_source && context.url == d.url,
            (
                BroadcastPlan::ExitPlanMode { request_id, request },
                SessionEventData::ExitPlanModeRequested(d),
            ) => Some(request_id) == d.request_id && request.summary == d.summary
                && request.plan_content == d.plan_content && request.actions@ == d.actions@
                && request.recommended_action == d.recommended_action,
            (
                BroadcastPlan::AutoModeSwitch { request_id, request },
                SessionEventData::AutoModeSwitchRequested(d),
            ) => Some(request_id) == d.request_id && request.error_code == d.error_code
                && request.retry_after_seconds == d.retry_after_seconds,
            (
                BroadcastPlan::RunCommand { request_id, context },
                SessionEventData::CommandExecute(d),
            ) => Some(request_id) == d.request_id && context.session_id@ == session_id@
                && context.command == d.command && context.command_name == d.command_name
                && context.args == d.args,
            (
                BroadcastPlan::RejectCommand { request_id, error },
                SessionEventData::CommandExecute(d),
            ) => Some(request_id) == d.request_id && error@ == unknown_command_text(
                d.command_name@,
            ),
            _ => true,
        },
{
    match event {
        SessionEventData::ExternalToolRequested(d) => {
            match (&d.request_id, &d.tool_name) {
                (Some(request_id), Some(tool_name)) => {
                    if tools.get_tool(tool_name.as_str()).is_none() {
                        return BroadcastPlan::Ignore;
                    }
                    let arguments = match &d.arguments {
                        Some(a) => a.deep_clone(),
                        None => JsonValue::object(),
                    };
                    BroadcastPlan::InvokeTool {
                        request_id: request_id.clone(),
                        tool_name: tool_name.clone(),
                        arguments,
                    }
                },
                _ => BroadcastPlan::Ignore,
            }
        },
        SessionEventData::PermissionRequested(d) => {
            match (&d.request_id, &d.permission_request) {
                (Some(request_id), Some(p)) => BroadcastPlan::DecidePermission {
                    request_id: request_id.clone(),
                    request: read_permission_request(p),
                },
                _ => BroadcastPlan::Ignore,
            }
        },
        SessionEventData::ElicitationRequested(d) => {
            match &d.request_id {
                Some(request_id) => {
                    if !handlers.elicitation {
                        return BroadcastPlan::Ignore;
                    }
                    let mode = match &d.mode {
                        Some(m) => Some(ElicitationMode::from_wire_name(m.as_str())),
                        None => None,
                    };
                    let requested_schema = match &d.requested_schema {
                        Some(s) => Some(s.deep_clone()),
                        None => None,
                    };
                    BroadcastPlan::Elicit {
                        request_id: request_id.clone(),
                        context: ElicitationContext {
                            session_id: session_id.to_owned(),
                            message: d.message.clone(),
                            requested_schema,
                            mode,
                            elicitation_source: clone_opt(&d.elicitation_source),
                            url: clone_opt(&d.url),
                        },
                    }
                },
                None => BroadcastPlan::Ignore,
            }
        },
        SessionEventData::ExitPlanModeRequested(d) => {
            match &d.request_id {
                Some(request_id) => {
                    if !handlers.exit_plan_mode {
                        return BroadcastPlan::Ignore;
                    }
                    BroadcastPlan::ExitPlanMode {
                        request_id: request_id.clone(),
                        request: ExitPlanModeRequest {
                            summary: d.summary.clone(),
                            plan_content: clone_opt(&d.plan_content),
                            actions: clone_strings(&d.actions),
                            recommended_action: clone_opt(&d.recommended_action),
                        },
                    }
                },
                None => BroadcastPlan::Ignore,
            }
        },
        SessionEventData::AutoModeSwitchRequested(d) => {
            match &d.request_id {
                Some(request_id) => {
                    if !handlers.auto_mode_switch {
                        return BroadcastPlan::Ignore;
                    }
                    BroadcastPlan::AutoModeSwitch {
                        request_id: request_id.clone(),
                        request: AutoModeSwitchRequest {
                            error_code: clone_opt(&d.error_code),
                            retry_after_seconds: d.retry_after_seconds,
                        },
                    }
                },
                None => BroadcastPlan::Ignore,
            }
        },
        SessionEventData::CommandExecute(d) => {
            match &d.request_id {
                Some(request_id) => {
                    if commands.contains_key(d.command_name.as_str()) {
                        BroadcastPlan::RunCommand {
                            request_id: request_id.clone(),
                            context: CommandContext {
                                session_id: session_id.to_owned(),
                                command: d.command.clone(),
                                command_name: d.command_name.clone(),
                                args: d.args.clone(),
                            },
                        }
                    } else {
                        let mut error = "Unknown command: ".to_owned();
                        error.append(d.command_name.as_str());
                        BroadcastPlan::RejectCommand { request_id: request_id.clone(), error }
                    }
                },
                None => BroadcastPlan::Ignore,
            }
        },
        _ => BroadcastPlan::Ignore,
    }
}

/// Law: the optional request events are answered exactly when the client
/// holds the handler for them, whatever other handlers it holds: an
/// elicitation request with a request id calls for an elicitation when an
/// elicitation handler is present, an exit-plan-mode request for the
/// exit-plan-mode handler, an auto-mode-switch request for the
/// auto-mode-switch handler; without that handler the event is ignored.
pub proof fn law_handler_gated_requests(
    event: SessionEventData,
    has_tool: spec_fn(Seq<char>) -> bool,
    has_command: spec_fn(Seq<char>) -> bool,
    handlers: HandlerPresence,
)
    ensures
        event matches SessionEventData::ElicitationRequested(d) && d.request_id is Some ==> {
            &&& handlers.elicitation ==> plan_kind_of(event, has_tool, has_command, handlers)
                == PlanKind::Elicit
            &&& !handlers.elicitation ==> plan_kind_of(event, has_tool, has_command, handlers)
                == PlanKind::Ignore
        },
        event matches SessionEventData::ExitPlanModeRequested(d) && d.request_id is Some ==> {
            &&& handlers.exit_plan_mode ==> plan_kind_of(event, has_tool, has_command, handlers)
                == PlanKind::ExitPlanMode
            &&& !handlers.exit_plan_mode ==> plan_kind_of(event, has_tool, has_command, handlers)
                == PlanKind::Ignore
        },
        event matches SessionEventData::AutoModeSwitchRequested(d) && d.request_id is Some ==> {
            &&& handlers.auto_mode_switch ==> plan_kind_of(event, has_tool, has_command, handlers)
                == PlanKind::AutoModeSwitch
            &&& !handlers.auto_mode_switch ==> plan_kind_of(event, has_tool, has_command, handlers)
                == PlanKind::Ignore
        },
{
}

/// Law: a tool request is answered exactly when it names a request and a
/// registered tool, a permission request exactly when it names a request and
/// carries the request to decide, and a command request with a request id is
/// run when the command is registered and rejected otherwise; none of these
/// depends on the optional handlers, and the handler-gated requests do not
/// depend on the registered tools or commands.
pub proof fn law_request_answers(
    event: SessionEventData,
    has_tool: spec_fn(Seq<char>) -> bool,
    has_command: spec_fn(Seq<char>) -> bool,
    handlers: HandlerPresence,
    other_tool: spec_fn(Seq<char>) -> bool,
    other_command: spec_fn(Seq<char>) -> bool,
    other_handlers: HandlerPresence,
)
    ensures
        event matches SessionEventData::ExternalToolRequested(d) ==> {
            &&& (plan_kind_of(event, has_tool, has_command, handlers) == PlanKind::InvokeTool) <==> (
            d.request_id is Some && d.tool_name is Some && has_tool(d.tool_name->0@))
            &&& plan_kind_of(event, has_tool, has_command, handlers) != PlanKind::InvokeTool
                ==> plan_kind_of(event, has_tool, has_command, handlers) == PlanKind::Ignore
        },
        event matches SessionEventData::PermissionRequested(d) ==> {
            &&& (plan_kind_of(event, has_tool, has_command, handlers) == PlanKind::DecidePermission)
                <==> (d.request_id is Some && d.permission_request is Some)
            &&& plan_kind_of(event, has_tool, has_command, handlers) != PlanKind::DecidePermission
                ==> plan_kind_of(event, has_tool, has_command, handlers) == PlanKind::Ignore
        },
        event matches SessionEventData::CommandExecute(d) ==> {
            &&& d.request_id is None ==> plan_kind_of(event, has_tool, has_command, handlers)
                == PlanKind::Ignore
            &&& d.request_id is Some && has_command(d.command_name@) ==> plan_kind_of(
                event,
                has_tool,
                has_command,
                handlers,
            ) == PlanKind::RunCommand
            &&& d.request_id is Some && !has_command(d.command_name@) ==> plan_kind_of(
                event,
                has_tool,
                has_command,
                handlers,
            ) == PlanKind::RejectCommand
        },
        (event is ExternalToolRequested || event is PermissionRequested || event is CommandExecute)
            ==> plan_kind_of(event, has_tool, has_command, handlers) == plan_kind_of(
            event,
            has_tool,
            has_command,
            other_handlers,
        ),
        (event is ElicitationRequested || event is ExitPlanModeRequested
            || event is AutoModeSwitchRequested) ==> plan_kind_of(
            event,
            has_tool,
            has_command,
            handlers,
        ) == plan_kind_of(event, other_tool, other_command, handlers),
{
}

// =============================================================================
// Replies to broadcast requests
// =============================================================================

/// The members every reply starts with: `sessionId` and `requestId`.
pub open spec fn reply_base(session_id: Seq<char>, request_id: Seq<char>) -> JsonView {
    set_field(
        set_field(empty_object(), "sessionId"@, JsonView::Str(session_id)),
        "requestId"@,
        JsonView::Str(request_id),
    )
}

fn reply_base_exec(session_id: &str, request_id: &str) -> (r: JsonValue)
    ensures
        r@ == reply_base(session_id@, request_id@),
{
    let mut o = JsonValue::object();
    o.set("sessionId", JsonValue::string(session_id));
    o.set("requestId", JsonValue::string(request_id));
    o
}

/// The answer to a tool call: a failed or erroring result is reported under
/// `error` (its error text, else its text for the model); any other result
/// under `result` with its text, type and telemetry (an empty object when it
/// has none); a call that could not be made is reported under `error` with
/// the error's text.
pub open spec fn tool_call_reply_spec(
    session_id: Seq<char>,
    request_id: Seq<char>,
    outcome: core::result::Result<crate::tools::ToolResultView, ErrorView>,
) -> JsonView {
    let base = reply_base(session_id, request_id);
    match outcome {
        Ok(r) => if is_failure_type(r.result_type) {
            set_field(
                base,
                "error"@,
                JsonView::Str(
                    match r.error {
                        Some(e) => e,
                        None => r.text,
                    },
                ),
            )
        } else {
            set_field(
                base,
                "result"@,
                set_field(
                    set_field(
                        set_field(empty_object(), "textResultForLlm"@, JsonView::Str(r.text)),
                        "resultType"@,
                        JsonView::Str(r.result_type),
                    ),
                    "toolTelemetry"@,
                    match r.telemetry {
                        Some(m) => JsonView::Object(m),
                        None => empty_object(),
                    },
                ),
            )
        },
        Err(e) => set_field(base, "error"@, JsonView::Str(error_text(e))),
    }
}

/// The model of a tool call's outcome.
pub open spec fn outcome_view(outcome: core::result::Result<ToolResultObject, CopilotError>) -> core::result::Result<
    crate::tools::ToolResultView,
    ErrorView,
> {
    match outcome {
        Ok(r) => Ok(r@),
        Err(e) => Err(e@),
    }
}

/// Builds the parameters of `session.tools.handlePendingToolCall`.
pub fn tool_call_reply(
    session_id: &str,
    request_id: &str,
    outcome: &core::result::Result<ToolResultObject, CopilotError>,
) -> (r: JsonValue)
    ensures
        r@ == tool_call_reply_spec(session_id@, request_id@, outcome_view(*outcome)),
{
    let mut o = reply_base_exec(session_id, request_id);
    match outcome {
        Ok(result) => {
            let t = result.result_type.as_str();
            proof {
                reveal_strlit("failure");
                reveal_strlit("error");
            }
            if crate::json::str_eq(t, "failure") || crate::json::str_eq(t, "error") {
                let msg = match &result.error {
                    Some(e) => e.clone(),
                    None => result.text_result_for_llm.clone(),
                };
                o.set("error", JsonValue::Str(msg));
            } else {
                let mut inner = JsonValue::object();
                inner.set("textResultForLlm", JsonValue::string(result.text_result_for_llm.as_str()));
                inner.set("resultType", JsonValue::string(result.result_type.as_str()));
                let tele = match &result.tool_telemetry {
                    Some(m) => JsonValue::Object(clone_members(m)),
                    None => JsonValue::object(),
                };
                inner.set("toolTelemetry", tele);
                o.set("result", inner);
            }
        },
        Err(e) => {
            o.set("error", JsonValue::Str(e.message()));
        },
    }
    o
}

/// Law: a tool call whose result has type `failure` or `error` is answered
/// with that failure's message under `error`: the result's own error text
/// when it carries one, and otherwise its text for the model. The reply
/// names the session and the request and carries no `result`.
pub proof fn law_failed_tool_call_reports_its_text(
    session_id: Seq<char>,
    request_id: Seq<char>,
    r: ToolResultObject,
)
    requires
        r.result_type@ == "failure"@ || r.result_type@ == "error"@,
    ensures
        ({
            let reply = tool_call_reply_spec(session_id, request_id, outcome_view(Ok(r)));
            &&& r.error is None ==> field(reply, "error"@) == Some(
                JsonView::Str(r.text_result_for_llm@),
            )
            &&& r.error is Some ==> field(reply, "error"@) == Some(JsonView::Str(r.error->0@))
            &&& field(reply, "sessionId"@) == Some(JsonView::Str(session_id))
            &&& field(reply, "requestId"@) == Some(JsonView::Str(request_id))
            &&& field(reply, "result"@) is None
        }),
{
    reveal_strlit("error");
    reveal_strlit("sessionId");
    reveal_strlit("requestId");
    reveal_strlit("result");
    let e: Seq<char> = "error"@;
    let s: Seq<char> = "sessionId"@;
    let q: Seq<char> = "requestId"@;
    let res: Seq<char> = "result"@;
    assert(e.len() != s.len() && e.len() != q.len() && e[0] != res[0]);
    assert(res.len() != s.len() && res.len() != q.len());
    assert(s[0] != q[0]);
    let base0 = set_field(empty_object(), s, JsonView::Str(session_id));
    let base = reply_base(session_id, request_id);
    crate::json::law_set_then_get(empty_object(), s, JsonView::Str(session_id), q);
    crate::json::law_set_then_get(empty_object(), s, JsonView::Str(session_id), res);
    crate::json::law_set_then_get(base0, q, JsonView::Str(request_id), s);
    crate::json::law_set_then_get(base0, q, JsonView::Str(request_id), res);
    let msg = match r.error {
        Some(x) => x@,
        None => r.text_result_for_llm@,
    };
    crate::json::law_set_then_get(base, e, JsonView::Str(msg), s);
    crate::json::law_set_then_get(base, e, JsonView::Str(msg), q);
    crate::json::law_set_then_get(base, e, JsonView::Str(msg), res);
}

/// Law: a tool call whose result is neither a failure nor an error is
/// answered under `result` with the result's text for the model, its result
/// type and its telemetry (an empty object when it has none), and carries no
/// `error`; a call that could not be made is answered under `error` with the
/// error's text and carries no `result`.
pub proof fn law_tool_call_reply_shapes(
    session_id: Seq<char>,
    request_id: Seq<char>,
    r: ToolResultObject,
    e: CopilotError,
)
    ensures
        r.result_type@ != "failure"@ && r.result_type@ != "error"@ ==> ({
            let reply = tool_call_reply_spec(session_id, request_id, outcome_view(Ok(r)));
            let inner = field(reply, "result"@)->0;
            &&& field(reply, "result"@) is Some
            &&& field(inner, "textResultForLlm"@) == Some(JsonView::Str(r.text_result_for_llm@))
            &&& field(inner, "resultType"@) == Some(JsonView::Str(r.result_type@))
            &&& field(inner, "toolTelemetry"@) == Some(
                match r.tool_telemetry {
                    Some(m) => JsonView::Object(crate::json::members_view(m@)),
                    None => empty_object(),
                },
            )
            &&& field(reply, "error"@) is None
            &&& field(reply, "sessionId"@) == Some(JsonView::Str(session_id))
            &&& field(reply, "requestId"@) == Some(JsonView::Str(request_id))
        }),
        ({
            let reply = tool_call_reply_spec(session_id, request_id, outcome_view(Err(e)));
            &&& field(reply, "error"@) == Some(JsonView::Str(error_text(e@)))
            &&& field(reply, "result"@) is None
            &&& field(reply, "sessionId"@) == Some(JsonView::Str(session_id))
            &&& field(reply, "requestId"@) == Some(JsonView::Str(request_id))
        }),
{
    reveal_strlit("error");
    reveal_strlit("sessionId");
    reveal_strlit("requestId");
    reveal_strlit("result");
    reveal_strlit("textResultForLlm");
    reveal_strlit("resultType");
    reveal_strlit("toolTelemetry");
    let er: Seq<char> = "error"@;
    let s: Seq<char> = "sessionId"@;
    let q: Seq<char> = "requestId"@;
    let res: Seq<char> = "result"@;
    let t: Seq<char> = "textResultForLlm"@;
    let ty: Seq<char> = "resultType"@;
    let tel: Seq<char> = "toolTelemetry"@;
    assert(er.len() != s.len() && er.len() != q.len() && er[0] != res[0]);
    assert(res.len() != s.len() && res.len() != q.len());
    assert(s[0] != q[0]);
    assert(t.len() != ty.len() && t.len() != tel.len() && ty.len() != tel.len());
    let base0 = set_field(empty_object(), s, JsonView::Str(session_id));
    let base = reply_base(session_id, request_id);
    crate::json::law_set_then_get(empty_object(), s, JsonView::Str(session_id), q);
    crate::json::law_set_then_get(empty_object(), s, JsonView::Str(session_id), res);
    crate::json::law_set_then_get(empty_object(), s, JsonView::Str(session_id), er);
    crate::json::law_set_then_get(base0, q, JsonView::Str(request_id), s);
    crate::json::law_set_then_get(base0, q, JsonView::Str(request_id), res);
    crate::json::law_set_then_get(base0, q, JsonView::Str(request_id), er);
    let rv = r@;
    let tv = match rv.telemetry {
        Some(m) => JsonView::Object(m),
        None => empty_object(),
    };
    let i1 = set_field(empty_object(), t, JsonView::Str(rv.text));
    let i2 = set_field(i1, ty, JsonView::Str(rv.result_type));
    let inner = set_field(i2, tel, tv);
    crate::json::law_set_then_get(empty_object(), t, JsonView::Str(rv.text), ty);
    crate::json::law_set_then_get(i1, ty, JsonView::Str(rv.result_type), t);
    crate::json::law_set_then_get(i2, tel, tv, t);
    crate::json::law_set_then_get(i2, tel, tv, ty);
    crate::json::law_set_then_get(base, res, inner, er);
    crate::json::law_set_then_get(base, res, inner, s);
    crate::json::law_set_then_get(base, res, inner, q);
    let msg = JsonView::Str(error_text(e@));
    crate::json::law_set_then_get(base, er, msg, res);
    crate::json::law_set_then_get(base, er, msg, s);
    crate::json::law_set_then_get(base, er, msg, q);
}

/// The answer to a permission request: the decision's `kind`, with its
/// `rules` when it has any.
pub open spec fn permission_reply_spec(
    session_id: Seq<char>,
    request_id: Seq<char>,
    kind: Seq<char>,
    rules: Option<Seq<JsonView>>,
) -> JsonView {
    let inner = set_field(empty_object(), "kind"@, JsonView::Str(kind));
    let inner = match rules {
        Some(rs) => set_field(inner, "rules"@, JsonView::Array(rs)),
        None => inner,
    };
    set_field(reply_base(session_id, request_id), "result"@, inner)
}

fn clone_values(items: &Vec<JsonValue>) -> (r: Vec<JsonValue>)
    ensures
        crate::json::items_view(r@) == crate::json::items_view(items@),
{
    let mut out: Vec<JsonValue> = Vec::new();
    let mut i: usize = 0;
    while i < items.len()
        invariant
            i <= items@.len(),
            out@.len() == i,
            forall|j: int| 0 <= j < i ==> (#[trigger] out@[j])@ == items@[j]@,
        decreases items.len() - i,
    {
        out.push(items[i].deep_clone());
        i = i + 1;
    }
    proof {
        crate::json::lemma_items_view(out@);
        crate::json::lemma_items_view(items@);
        assert(crate::json::items_view(out@) =~= crate::json::items_view(items@));
    }
    out
}

/// Builds the parameters of `session.permissions.handlePendingPermissionRequest`.
pub fn permission_reply(
    session_id: &str,
    request_id: &str,
    result: &crate::types::PermissionRequestResult,
) -> (r: JsonValue)
    ensures
        r@ == permission_reply_spec(
            session_id@,
            request_id@,
            result.kind@,
            match result.rules {
                Some(rs) => Some(crate::json::items_view(rs@)),
                None => None,
            },
        ),
{
    let mut inner = JsonValue::object();
    inner.set("kind", JsonValue::string(result.kind.as_str()));
    match &result.rules {
        Some(rs) => inner.set("rules", JsonValue::Array(clone_values(rs))),
        None => {},
    }
    let mut o = reply_base_exec(session_id, request_id);
    o.set("result", inner);
    o
}

/// The wire object of an elicitation result: `action`, and `content` when present.
pub open spec fn elicitation_result_wire(
    action: Seq<char>,
    content: Option<Seq<(Seq<char>, JsonView)>>,
) -> JsonView {
    let o = set_field(empty_object(), "action"@, JsonView::Str(action));
    match content {
        Some(m) => set_field(o, "content"@, JsonView::Object(m)),
        None => o,
    }
}

fn clone_members(m: &JsonMap) -> (r: JsonMap)
    ensures
        crate::json::members_view(r@) == crate::json::members_view(m@),
{
    let ghost mv = crate::json::members_view(m@);
    proof {
        crate::json::lemma_members_view(m@);
    }
    let mut members: Vec<(String, JsonValue)> = Vec::new();
    let mut i: usize = 0;
    while i < m.len()
        invariant
            i <= m@.len(),
            mv == crate::json::members_view(m@),
            mv.len() == m@.len(),
            forall|j: int| 0 <= j < m@.len() ==> #[trigger] mv[j] == (m@[j].0@, m@[j].1@),
            crate::json::members_view(members@) == mv.take(i as int),
        decreases m.len() - i,
    {
        let ghost before = members@;
        members.push((m[i].0.clone(), m[i].1.deep_clone()));
        proof {
            assert(members@.drop_last() == before);
            assert(crate::json::members_view(members@) =~= mv.take(i + 1));
        }
        i = i + 1;
    }
    proof {
        assert(mv.take(i as int) =~= mv);
    }
    members
}

/// Builds the parameters of `session.ui.handlePendingElicitation`.
pub fn elicitation_reply(
    session_id: &str,
    request_id: &str,
    result: &crate::types::ElicitationResult,
) -> (r: JsonValue)
    ensures
        r@ == set_field(
            reply_base(session_id@, request_id@),
            "result"@,
            elicitation_result_wire(
                result.action@,
                match result.content {
                    Some(m) => Some(crate::json::members_view(m@)),
                    None => None,
                },
            ),
        ),
{
    let mut inner = JsonValue::object();
    inner.set("action", JsonValue::string(result.action.as_str()));
    match &result.content {
        Some(m) => inner.set("content", JsonValue::Object(clone_members(m))),
        None => {},
    }
    let mut o = reply_base_exec(session_id, request_id);
    o.set("result", inner);
    o
}

/// The wire object of an exit-plan-mode answer: `approved`, and
/// `selectedAction` and `feedback` when present.
pub open spec fn exit_plan_mode_wire(r: crate::types::ExitPlanModeResult) -> JsonView {
    let o = set_field(empty_object(), "approved"@, JsonView::Bool(r.approved));
    let o = match r.selected_action {
        Some(a) => set_field(o, "selectedAction"@, JsonView::Str(a@)),
        None => o,
    };
    match r.feedback {
        Some(f) => set_field(o, "feedback"@, JsonView::Str(f@)),
        None => o,
    }
}

/// Builds the parameters of `session.ui.handlePendingExitPlanMode`.
pub fn exit_plan_mode_reply(
    session_id: &str,
    request_id: &str,
    response: &crate::types::ExitPlanModeResult,
) -> (r: JsonValue)
    ensures
        r@ == set_field(reply_base(session_id@, request_id@), "response"@, exit_plan_mode_wire(*response)),
{
    let mut inner = JsonValue::object();
    inner.set("approved", JsonValue::Bool(response.approved));
    match &response.selected_action {
        Some(a) => inner.set("selectedAction", JsonValue::string(a.as_str())),
        None => {},
    }
    match &response.feedback {
        Some(f) => inner.set("feedback", JsonValue::string(f.as_str())),
        None => {},
    }
    let mut o = reply_base_exec(session_id, request_id);
    o.set("response", inner);
    o
}

/// Builds the parameters of `session.ui.handlePendingAutoModeSwitch`.
pub fn auto_mode_switch_reply(
    session_id: &str,
    request_id: &str,
    response: crate::types::AutoModeSwitchResponse,
) -> (r: JsonValue)
    ensures
        r@ == set_field(
            reply_base(session_id@, request_id@),
            "response"@,
            JsonView::Str(crate::types::auto_mode_wire_name(response)),
        ),
{
    let mut o = reply_base_exec(session_id, request_id);
    o.set("response", JsonValue::string(response.wire_name()));
    o
}

/// Builds the parameters of `session.commands.handlePendingCommand`: the
/// `error` member only when the command was not run.
pub fn command_reply(session_id: &str, request_id: &str, error: Option<&str>) -> (r: JsonValue)
    ensures
        r@ == (match error {
            Some(e) => set_field(reply_base(session_id@, request_id@), "error"@, JsonView::Str(e@)),
            None => reply_base(session_id@, request_id@),
        }),
{
    let mut o = reply_base_exec(session_id, request_id);
    match error {
        Some(e) => o.set("error", JsonValue::string(e)),
        None => {},
    }
    o
}

/// The runtime method a plan's answer goes to.
pub open spec fn reply_method_spec(k: PlanKind) -> Option<Seq<char>> {
    match k {
        PlanKind::Ignore => None,
        PlanKind::InvokeTool => Some("session.tools.handlePendingToolCall"@),
        PlanKind::DecidePermission => Some("session.permissions.handlePendingPermissionRequest"@),
        PlanKind::Elicit => Some("session.ui.handlePendingElicitation"@),
        PlanKind::ExitPlanMode => Some("session.ui.handlePendingExitPlanMode"@),
        PlanKind::AutoModeSwitch => Some("session.ui.handlePendingAutoModeSwitch"@),
        PlanKind::RunCommand => Some("session.commands.handlePendingCommand"@),
        PlanKind::RejectCommand => Some("session.commands.handlePendingCommand"@),
    }
}

impl BroadcastPlan {
    /// The runtime method this plan's answer goes to; none for `Ignore`.
    pub fn reply_method(&self) -> (r: Option<&'static str>)
        ensures
            match r {
                Some(m) => reply_method_spec(kind_of_plan(*self)) == Some(m@),
                None => reply_method_spec(kind_of_plan(*self)) is None,
            },
    {
        match self {
            BroadcastPlan::Ignore => None,
            BroadcastPlan::InvokeTool { .. } => Some("session.tools.handlePendingToolCall"),
            BroadcastPlan::DecidePermission { .. } => Some(
                "session.permissions.handlePendingPermissionRequest",
            ),
            BroadcastPlan::Elicit { .. } => Some("session.ui.handlePendingElicitation"),
            BroadcastPlan::ExitPlanMode { .. } => Some("session.ui.handlePendingExitPlanMode"),
            BroadcastPlan::AutoModeSwitch { .. } => Some("session.ui.handlePendingAutoModeSwitch"),
            BroadcastPlan::RunCommand { .. } => Some("session.commands.handlePendingCommand"),
            BroadcastPlan::RejectCommand { .. } => Some("session.commands.handlePendingCommand"),
        }
    }
}

// =============================================================================
// Waiting on the event stream
// =============================================================================

/// What the event stream handed a waiting session.
pub enum Received<'a> {
    /// An event.
    Event(&'a SessionEventData),
    /// The stream closed.
    Closed,
    /// Events were dropped because the waiter fell behind.
    Lagged,
}

/// The text of the error for a session error event.
pub open spec fn session_error_text(message: Seq<char>) -> Seq<char> {
    "Session error: "@ + message
}

/// What a wait for idleness does with one thing received.
pub enum WaitStep {
    /// Keep waiting.
    Continue,
    /// Keep waiting; this event is now the last assistant message.
    Record,
    /// The session is idle: the wait is over.
    Idle,
    /// The wait fails with this error.
    Fail(CopilotError),
}

/// The step a wait for idleness takes: an assistant message is recorded,
/// idleness ends the wait, a session error or a closed stream fails it,
/// and everything else (deltas, dropped events) is passed over.
pub fn wait_step(received: Received) -> (r: WaitStep)
    ensures
        match received {
            Received::Event(SessionEventData::AssistantMessage { .. }) => r is Record,
            Received::Event(SessionEventData::SessionIdle) => r is Idle,
            Received::Event(SessionEventData::SessionError { message }) => r matches WaitStep::Fail(
                e,
            ) && e@ == ErrorView::Protocol(session_error_text(message@)),
            Received::Closed => r matches WaitStep::Fail(e) && e@ == ErrorView::ConnectionClosed,
            _ => r is Continue,
        },
{
    match received {
        Received::Event(SessionEventData::AssistantMessage { .. }) => WaitStep::Record,
        Received::Event(SessionEventData::SessionIdle) => WaitStep::Idle,
        Received::Event(SessionEventData::SessionError { message }) => {
            let mut m = "Session error: ".to_owned();
            m.append(message.as_str());
            WaitStep::Fail(CopilotError::Protocol(m))
        },
        Received::Closed => WaitStep::Fail(CopilotError::ConnectionClosed),
        _ => WaitStep::Continue,
    }
}

/// What collecting a response does after one thing received.
pub enum CollectStep {
    /// Keep collecting.
    Continue,
    /// The session is idle: the collected text is the response.
    Done,
    /// Collecting fails with this error.
    Fail(CopilotError),
}

/// The text an event adds to a collected response.
pub open spec fn collected_piece(e: SessionEventData) -> Seq<char> {
    match e {
        SessionEventData::AssistantMessage { content } => content@,
        SessionEventData::AssistantMessageDelta { delta_content } => delta_content@,
        _ => Seq::empty(),
    }
}

/// The step of collecting a response: message and delta texts are appended
/// to `content`; idleness ends the collection; a session error or a closed
/// stream fails it.
pub fn collect_step(content: &mut String, received: Received) -> (r: CollectStep)
    ensures
        match received {
            Received::Event(e) => final(content)@ == old(content)@ + collected_piece(*e),
            _ => final(content)@ == old(content)@,
        },
        match received {
            Received::Event(SessionEventData::SessionIdle) => r is Done,
            Received::Event(SessionEventData::SessionError { message }) => r matches CollectStep::Fail(
                e,
            ) && e@ == ErrorView::Protocol(session_error_text(message@)),
            Received::Closed => r matches CollectStep::Fail(e) && e@ == ErrorView::ConnectionClosed,
            _ => r is Continue,
        },
{
    match received {
        Received::Event(SessionEventData::AssistantMessage { content: c }) => {
            content.append(c.as_str());
            CollectStep::Continue
        },
        Received::Event(SessionEventData::AssistantMessageDelta { delta_content }) => {
            content.append(delta_content.as_str());
            CollectStep::Continue
        },
        Received::Event(SessionEventData::SessionIdle) => {
            proof {
                assert(old(content)@ + Seq::<char>::empty() =~= old(content)@);
            }
            CollectStep::Done
        },
        Received::Event(SessionEventData::SessionError { message }) => {
            proof {
                assert(old(content)@ + Seq::<char>::empty() =~= old(content)@);
            }
            let mut m = "Session error: ".to_owned();
            m.append(message.as_str());
            CollectStep::Fail(CopilotError::Protocol(m))
        },
        Received::Closed => CollectStep::Fail(CopilotError::ConnectionClosed),
        Received::Lagged => CollectStep::Continue,
        Received::Event(_) => {
            proof {
                assert(old(content)@ + Seq::<char>::empty() =~= old(content)@);
            }
            CollectStep::Continue
        },
    }
}

/// The default time a wait gives the session, in milliseconds.
pub const DEFAULT_TIMEOUT_MS: u64 = 60000;

/// The time limit of a wait: the one given, else the default.
pub fn wait_limit_ms(timeout_ms: Option<u64>) -> (r: u64)
    ensures
        r == (match timeout_ms {
            Some(t) => t,
            None => DEFAULT_TIMEOUT_MS,
        }),
{
    match timeout_ms {
        Some(t) => t,
        None => DEFAULT_TIMEOUT_MS,
    }
}

// =============================================================================
// Hooks
// =============================================================================

/// Which handler a `hooks.invoke` callback goes to: none (the answer is
/// `null`) when no hooks are registered, the hook type is unknown, or no
/// handler is registered for it.
pub fn plan_hook<'a, H>(hooks: &'a Option<crate::types::SessionHooks<H>>, hook_type: &str) -> (r:
    Option<(crate::types::HookKind, &'a H)>)
    ensures
        match r {
            Some((k, h)) => hooks matches Some(hs) && crate::types::hook_wire_name(k) == hook_type@
                && hs.handler_spec(k) == Some(*h),
            None => match hooks {
                None => true,
                Some(hs) => forall|k: crate::types::HookKind|
                    crate::types::hook_wire_name(k) == hook_type@ ==> (#[trigger] hs.handler_spec(
                        k,
                    )) is None,
            },
        },
{
    match hooks {
        None => None,
        Some(hs) => match crate::types::HookKind::from_wire_name(hook_type) {
            None => None,
            Some(k) => match hs.handler(k) {
                Some(h) => Some((k, h)),
                None => {
                    proof {
                        assert forall|k2: crate::types::HookKind|
                            crate::types::hook_wire_name(k2) == hook_type@ implies (#[trigger] hs.handler_spec(
                            k2,
                        )) is None by {
                            crate::types::law_hook_names_distinct(k, k2);
                        }
                    }
                    None
                },
            },
        },
    }
}

/// The text of the error for hook input that does not read.
pub open spec fn invalid_hook_input_text(k: crate::types::HookKind, detail: Seq<char>) -> Seq<char> {
    "Invalid "@ + crate::types::hook_wire_name(k) + " input: "@ + detail
}

/// The error for hook input that does not read as the hook's input type.
pub fn invalid_hook_input(k: crate::types::HookKind, detail: &str) -> (r: CopilotError)
    ensures
        r@ == ErrorView::Protocol(invalid_hook_input_text(k, detail@)),
{
    let mut m = "Invalid ".to_owned();
    m.append(k.wire_name());
    m.append(" input: ");
    m.append(detail);
    CopilotError::Protocol(m)
}

// =============================================================================
// Host-gated UI
// =============================================================================

/// The text of the error for UI calls on a host without elicitation.
pub open spec fn elicitation_unsupported_text() -> Seq<char> {
    "Elicitation is not supported by the host. Check session.capabilities().supports_elicitation() before calling UI methods."@
}

/// UI calls need a host that supports elicitation.
pub fn check_elicitation(caps: &crate::types::SessionCapabilities) -> (r: core::result::Result<(), CopilotError>)
    ensures
        r is Ok <==> (caps.ui matches Some(ui) && ui.elicitation == Some(true)),
        r matches Err(e) ==> e@ == ErrorView::Protocol(elicitation_unsupported_text()),
{
    if caps.supports_elicitation() {
        Ok(())
    } else {
        Err(
            CopilotError::Protocol(
                "Elicitation is not supported by the host. Check session.capabilities().supports_elicitation() before calling UI methods.".to_owned(),
            ),
        )
    }
}

/// The error for a user input request without a handler.
pub fn no_user_input_handler() -> (r: CopilotError)
    ensures
        r@ == ErrorView::Protocol("No user input handler registered"@),
{
    CopilotError::Protocol("No user input handler registered".to_owned())
}

/// An object schema with one required property `name` described by `prop`.
pub open spec fn single_field_schema(name: Seq<char>, prop: JsonView) -> JsonView {
    set_field(
        set_field(
            set_field(empty_object(), "type"@, JsonView::Str("object"@)),
            "properties"@,
            set_field(empty_object(), name, prop),
        ),
        "required"@,
        JsonView::Array(seq![JsonView::Str(name)]),
    )
}

fn single_field_schema_exec(name: &str, prop: JsonValue) -> (r: JsonValue)
    ensures
        r@ == single_field_schema(name@, prop@),
{
    let mut props = JsonValue::object();
    props.set(name, prop);
    let mut o = JsonValue::object();
    o.set("type", JsonValue::string("object"));
    o.set("properties", props);
    let mut req: Vec<JsonValue> = Vec::new();
    req.push(JsonValue::string(name));
    proof {
        crate::json::lemma_items_view(req@);
        assert(crate::json::items_view(req@) =~= seq![JsonView::Str(name@)]);
    }
    o.set("required", JsonValue::Array(req));
    o
}

/// The schema of a yes/no confirmation: a required boolean `confirmed`
/// defaulting to `true`.
pub open spec fn confirm_schema_spec() -> JsonView {
    single_field_schema(
        "confirmed"@,
        set_field(
            set_field(empty_object(), "type"@, JsonView::Str("boolean"@)),
            "default"@,
            JsonView::Bool(true),
        ),
    )
}

/// Builds the schema of a yes/no confirmation.
pub fn confirm_schema() -> (r: JsonValue)
    ensures
        r@ == confirm_schema_spec(),
{
    let mut prop = JsonValue::object();
    prop.set("type", JsonValue::string("boolean"));
    prop.set("default", JsonValue::Bool(true));
    single_field_schema_exec("confirmed", prop)
}

/// The schema of a selection among `options`: a required string
/// `selection` whose `enum` is the options, in order.
pub open spec fn select_schema_spec(options: Seq<Seq<char>>) -> JsonView {
    single_field_schema(
        "selection"@,
        set_field(
            set_field(empty_object(), "type"@, JsonView::Str("string"@)),
            "enum"@,
            JsonView::Array(options.map_values(|o: Seq<char>| JsonView::Str(o))),
        ),
    )
}

/// Builds the schema of a selection among `options`.
pub fn select_schema(options: &[String]) -> (r: JsonValue)
    ensures
        r@ == select_schema_spec(options@.map_values(|o: String| o@)),
{
    let mut items: Vec<JsonValue> = Vec::new();
    let mut i: usize = 0;
    while i < options.len()
        invariant
            i <= options@.len(),
            items@.len() == i,
            forall|j: int| 0 <= j < i ==> (#[trigger] items@[j])@ == JsonView::Str(options@[j]@),
        decreases options.len() - i,
    {
        items.push(JsonValue::string(options[i].as_str()));
        i = i + 1;
    }
    proof {
        crate::json::lemma_items_view(items@);
        assert(crate::json::items_view(items@) =~= options@.map_values(|o: String| o@).map_values(
            |o: Seq<char>| JsonView::Str(o),
        ));
    }
    let mut prop = JsonValue::object();
    prop.set("type", JsonValue::string("string"));
    prop.set("enum", JsonValue::Array(items));
    single_field_schema_exec("selection", prop)
}

/// The field of a text input: `type: string` plus each option that is set
/// (`title`, `description`, `minLength`, `maxLength`, `format`, `default`).
pub open spec fn input_field_spec(o: Option<crate::types::UiInputOptions>) -> JsonView {
    let f = set_field(empty_object(), "type"@, JsonView::Str("string"@));
    match o {
        None => f,
        Some(opts) => {
            let f = match opts.title {
                Some(t) => set_field(f, "title"@, JsonView::Str(t@)),
                None => f,
            };
            let f = match opts.description {
                Some(d) => set_field(f, "description"@, JsonView::Str(d@)),
                None => f,
            };
            let f = match opts.min_length {
                Some(n) => set_field(f, "minLength"@, JsonView::Number(crate::json::decimal_text(n as nat))),
                None => f,
            };
            let f = match opts.max_length {
                Some(n) => set_field(f, "maxLength"@, JsonView::Number(crate::json::decimal_text(n as nat))),
                None => f,
            };
            let f = match opts.format {
                Some(t) => set_field(f, "format"@, JsonView::Str(t@)),
                None => f,
            };
            match opts.default {
                Some(t) => set_field(f, "default"@, JsonView::Str(t@)),
                None => f,
            }
        },
    }
}

/// Builds the schema of a text input: a required `value` field.
pub fn input_schema(options: Option<&crate::types::UiInputOptions>) -> (r: JsonValue)
    ensures
        r@ == single_field_schema(
            "value"@,
            input_field_spec(
                match options {
                    Some(o) => Some(*o),
                    None => None,
                },
            ),
        ),
{
    let mut f = JsonValue::object();
    f.set("type", JsonValue::string("string"));
    match options {
        None => {},
        Some(opts) => {
            match &opts.title {
                Some(t) => f.set("title", JsonValue::string(t.as_str())),
                None => {},
            }
            match &opts.description {
                Some(d) => f.set("description", JsonValue::string(d.as_str())),
                None => {},
            }
            match opts.min_length {
                Some(n) => f.set("minLength", JsonValue::from_u64(n)),
                None => {},
            }
            match opts.max_length {
                Some(n) => f.set("maxLength", JsonValue::from_u64(n)),
                None => {},
            }
            match &opts.format {
                Some(t) => f.set("format", JsonValue::string(t.as_str())),
                None => {},
            }
            match &opts.default {
                Some(t) => f.set("default", JsonValue::string(t.as_str())),
                None => {},
            }
        },
    }
    single_field_schema_exec("value", f)
}

/// Builds the parameters of `session.ui.elicitation`.
pub fn elicitation_params(session_id: &str, message: &str, requested_schema: JsonValue) -> (r:
    JsonValue)
    ensures
        r@ == set_field(
            set_field(
                set_field(empty_object(), "sessionId"@, JsonView::Str(session_id@)),
                "message"@,
                JsonView::Str(message@),
            ),
            "requestedSchema"@,
            requested_schema@,
        ),
{
    let mut o = JsonValue::object();
    o.set("sessionId", JsonValue::string(session_id));
    o.set("message", JsonValue::string(message));
    o.set("requestedSchema", requested_schema);
    o
}

/// The value submitted under `key`, when the user accepted.
pub open spec fn accepted_member(action: Seq<char>, content: Option<Seq<(Seq<char>, JsonView)>>, key: Seq<char>) -> Option<JsonView> {
    if action == "accept"@ {
        match content {
            Some(m) => member(m, key),
            None => None,
        }
    } else {
        None
    }
}

fn content_member(result: &crate::types::ElicitationResult, key: &str) -> (r: Option<JsonValue>)
    ensures
        opt_json(r) == accepted_member(
            result.action@,
            match result.content {
                Some(m) => Some(crate::json::members_view(m@)),
                None => None,
            },
            key@,
        ),
{
    if !result.is_accept() {
        return None;
    }
    match &result.content {
        None => None,
        Some(m) => {
            let wrapped = JsonValue::Object(clone_members(m));
            match wrapped.get(key) {
                Some(v) => Some(v.deep_clone()),
                None => None,
            }
        },
    }
}

/// The model of an optional value.
pub open spec fn opt_json(v: Option<JsonValue>) -> Option<JsonView> {
    crate::json::opt_json_view(v)
}

/// Whether a confirmation was given: the user accepted and `confirmed` is `true`.
pub fn confirmed(result: &crate::types::ElicitationResult) -> (r: bool)
    ensures
        r == (accepted_member(
            result.action@,
            match result.content {
                Some(m) => Some(crate::json::members_view(m@)),
                None => None,
            },
            "confirmed"@,
        ) == Some(JsonView::Bool(true))),
{
    match content_member(result, "confirmed") {
        Some(JsonValue::Bool(b)) => b,
        _ => false,
    }
}

/// The text submitted under `key` when the user accepted and it is a string.
pub fn accepted_text(result: &crate::types::ElicitationResult, key: &str) -> (r: Option<String>)
    ensures
        match accepted_member(
            result.action@,
            match result.content {
                Some(m) => Some(crate::json::members_view(m@)),
                None => None,
            },
            key@,
        ) {
            Some(JsonView::Str(t)) => r matches Some(s) && s@ == t,
            _ => r is None,
        },
{
    match content_member(result, key) {
        Some(JsonValue::Str(t)) => Some(t),
        _ => None,
    }
}

// =============================================================================
// Reading responses
// =============================================================================

/// The text of the error for a response without a required member.
pub open spec fn missing_member_text(key: Seq<char>) -> Seq<char> {
    "Missing "@ + key + " in response"@
}

/// The string member `key` of a response, which the protocol requires.
pub fn required_str(result: &JsonValue, key: &str) -> (r: core::result::Result<String, CopilotError>)
    ensures
        match crate::json::str_field(result@, key@) {
            Some(t) => r matches Ok(s) && s@ == t,
            None => r matches Err(e) && e@ == ErrorView::Protocol(missing_member_text(key@)),
        },
{
    match result.get_str(key) {
        Some(s) => Ok(s),
        None => {
            let mut m = "Missing ".to_owned();
            m.append(key);
            m.append(" in response");
            Err(CopilotError::Protocol(m))
        },
    }
}

/// The string member `key` of a response, empty when it is not there.
pub fn str_or_empty(result: &JsonValue, key: &str) -> (r: String)
    ensures
        r@ == (match crate::json::str_field(result@, key@) {
            Some(t) => t,
            None => Seq::empty(),
        }),
{
    match result.get_str(key) {
        Some(s) => s,
        None => String::new(),
    }
}

/// The events of a `getMessages` response: its `events` array, else its
/// `messages` array; a response with neither is a protocol error.
pub fn messages_from_response(result: &JsonValue) -> (r: core::result::Result<Vec<JsonValue>, CopilotError>)
    ensures
        match (field(result@, "events"@), field(result@, "messages"@)) {
            (Some(JsonView::Array(items)), _) => r matches Ok(v) && crate::json::items_view(v@) == items,
            (_, Some(JsonView::Array(items))) => r matches Ok(v) && crate::json::items_view(v@) == items,
            _ => r matches Err(e) && e@ == ErrorView::Protocol(
                "Missing events in getMessages response"@,
            ),
        },
{
    match result.get("events") {
        Some(JsonValue::Array(items)) => return Ok(clone_values(items)),
        _ => {},
    }
    match result.get("messages") {
        Some(JsonValue::Array(items)) => Ok(clone_values(items)),
        _ => Err(CopilotError::Protocol("Missing events in getMessages response".to_owned())),
    }
}

/// Whether a `plan.read` response holds a plan: it is not `null` and has `content`.
pub fn has_plan(result: &JsonValue) -> (r: bool)
    ensures
        r == (!(result@ is Null) && field(result@, "content"@) is Some),
{
    match result {
        JsonValue::Null => false,
        _ => result.get("content").is_some(),
    }
}

/// The parameters every session-scoped request starts with: `sessionId`.
pub fn session_params(session_id: &str) -> (r: JsonValue)
    ensures
        r@ == set_field(empty_object(), "sessionId"@, JsonView::Str(session_id@)),
{
    let mut o = JsonValue::object();
    o.set("sessionId", JsonValue::string(session_id));
    o
}

/// The parameters of `session.send`: the session, the prompt, the
/// attachments and mode (`null` when unset), then the set trace headers.
pub open spec fn send_params_spec(session_id: Seq<char>, prompt: Seq<char>, attachments: Option<Seq<JsonView>>, mode: Option<Seq<char>>, trace: crate::trace::TraceContext) -> JsonView {
    let p = set_field(empty_object(), "sessionId"@, JsonView::Str(session_id));
    let p = set_field(p, "prompt"@, JsonView::Str(prompt));
    let p = set_field(
        p,
        "attachments"@,
        match attachments {
            Some(a) => JsonView::Array(a),
            None => JsonView::Null,
        },
    );
    let p = set_field(
        p,
        "mode"@,
        match mode {
            Some(m) => JsonView::Str(m),
            None => JsonView::Null,
        },
    );
    crate::trace::with_trace(p, trace)
}

/// Builds the parameters of `session.send`.
pub fn send_params(session_id: &str, options: &crate::types::MessageOptions, trace: &crate::trace::TraceContext) -> (r: JsonValue)
    ensures
        r@ == send_params_spec(
            session_id@,
            options.prompt@,
            match options.attachments {
                Some(a) => Some(crate::json::items_view(a@)),
                None => None,
            },
            options.mode.deep_view(),
            *trace,
        ),
{
    let mut p = session_params(session_id);
    p.set("prompt", JsonValue::string(options.prompt.as_str()));
    match &options.attachments {
        Some(a) => p.set("attachments", JsonValue::Array(clone_values(a))),
        None => p.set("attachments", JsonValue::Null),
    }
    match &options.mode {
        Some(m) => p.set("mode", JsonValue::string(m.as_str())),
        None => p.set("mode", JsonValue::Null),
    }
    crate::trace::inject_trace(&mut p, trace);
    p
}

// =============================================================================
// Section transforms
// =============================================================================

/// `a` comes no later than `b` in the order of their characters' code points.
pub open spec fn text_le(a: Seq<char>, b: Seq<char>) -> bool
    decreases a.len(),
{
    if a.len() == 0 {
        true
    } else if b.len() == 0 {
        false
    } else if a[0] != b[0] {
        (a[0] as int) < (b[0] as int)
    } else {
        text_le(a.drop_first(), b.drop_first())
    }
}

/// `s` is in order.
pub open spec fn texts_sorted(s: Seq<Seq<char>>) -> bool {
    forall|i: int, j: int| 0 <= i < j < s.len() ==> text_le(#[trigger] s[i], #[trigger] s[j])
}

proof fn lemma_text_le_total(a: Seq<char>, b: Seq<char>)
    ensures
        text_le(a, b) || text_le(b, a),
    decreases a.len(),
{
    if a.len() > 0 && b.len() > 0 && a[0] == b[0] {
        lemma_text_le_total(a.drop_first(), b.drop_first());
    }
}

proof fn lemma_text_le_trans(a: Seq<char>, b: Seq<char>, c: Seq<char>)
    requires
        text_le(a, b),
        text_le(b, c),
    ensures
        text_le(a, c),
    decreases a.len(),
{
    if a.len() > 0 && b.len() > 0 && c.len() > 0 && a[0] == b[0] && b[0] == c[0] {
        lemma_text_le_trans(a.drop_first(), b.drop_first(), c.drop_first());
    }
}

fn text_le_exec(a: &str, b: &str) -> (r: bool)
    ensures
        r == text_le(a@, b@),
{
    let n = a.unicode_len();
    let m = b.unicode_len();
    let mut i: usize = 0;
    proof {
        assert(a@.skip(0) =~= a@);
        assert(b@.skip(0) =~= b@);
    }
    while i < n && i < m
        invariant
            n == a@.len(),
            m == b@.len(),
            i <= n,
            i <= m,
            text_le(a@, b@) == text_le(a@.skip(i as int), b@.skip(i as int)),
        decreases n - i,
    {
        let ca = a.get_char(i);
        let cb = b.get_char(i);
        proof {
            assert(a@.skip(i as int)[0] == ca);
            assert(b@.skip(i as int)[0] == cb);
            assert(a@.skip(i as int).drop_first() =~= a@.skip(i + 1));
            assert(b@.skip(i as int).drop_first() =~= b@.skip(i + 1));
        }
        if ca != cb {
            return (ca as u32) < (cb as u32);
        }
        i = i + 1;
    }
    i == n
}

/// The views of a list of strings.
pub open spec fn texts_view(v: Seq<String>) -> Seq<Seq<char>> {
    v.map_values(|s: String| s@)
}

/// Sorts strings by their characters' code points (the order of `String`
/// comparison), keeping every string.
pub fn sort_texts(v: Vec<String>) -> (r: Vec<String>)
    ensures
        texts_sorted(texts_view(r@)),
        texts_view(r@).to_multiset() == texts_view(v@).to_multiset(),
{
    let mut out: Vec<String> = Vec::new();
    let mut rest = v;
    let ghost all = rest@;
    let mut done: usize = 0;
    let n = rest.len();
    proof {
        assert(texts_view(out@) =~= Seq::<Seq<char>>::empty());
        assert(texts_view(all.take(0)) =~= Seq::<Seq<char>>::empty());
    }
    while rest.len() > 0
        invariant
            all.len() == n,
            done + rest@.len() == n,
            rest@ == all.skip(done as int),
            texts_sorted(texts_view(out@)),
            texts_view(out@).to_multiset() == texts_view(all.take(done as int)).to_multiset(),
        decreases rest.len(),
    {
        let x = rest.remove(0);
        proof {
            assert(x == all[done as int]);
            assert(rest@ =~= all.skip(done + 1));
        }
        let mut pos: usize = 0;
        while pos < out.len() && text_le_exec(out[pos].as_str(), x.as_str())
            invariant
                pos <= out@.len(),
                forall|j: int| 0 <= j < pos ==> text_le(out@[j]@, x@),
            decreases out.len() - pos,
        {
            pos = pos + 1;
        }
        let ghost before = texts_view(out@);
        out.insert(pos, x);
        proof {
            let xv = all[done as int]@;
            assert(texts_view(out@) =~= before.insert(pos as int, xv));
            assert(texts_view(all.take(done + 1)) =~= texts_view(all.take(done as int)).push(xv));
            assert(before.len() == out@.len() - 1);
            vstd::seq_lib::to_multiset_insert(before, pos as int, xv);
            vstd::seq_lib::to_multiset_build(texts_view(all.take(done as int)), xv);
            let t = texts_view(out@);
            assert forall|i: int, j: int| 0 <= i < j < t.len() implies text_le(
                #[trigger] t[i],
                #[trigger] t[j],
            ) by {
                if i < pos && j < pos {
                    assert(t[i] == before[i] && t[j] == before[j]);
                } else if i < pos && j == pos {
                    assert(t[i] == out@[i]@);
                } else if i < pos && j > pos {
                    assert(t[i] == before[i] && t[j] == before[j - 1]);
                } else if i == pos {
                    lemma_text_le_total(before[pos as int], xv);
                    assert(t[j] == before[j - 1]);
                    if j - 1 > pos {
                        lemma_text_le_trans(xv, before[pos as int], before[j - 1]);
                    }
                } else {
                    assert(t[i] == before[i - 1] && t[j] == before[j - 1]);
                }
            }
        }
        done = done + 1;
    }
    proof {
        assert(all.take(done as int) =~= all);
    }
    out
}

impl<F> NamedMap<F> {
    /// The names, sorted by their characters' code points.
    pub fn sorted_keys(&self) -> (r: Vec<String>)
        ensures
            texts_sorted(texts_view(r@)),
            texts_view(r@).to_multiset() == self.names().to_multiset(),
    {
        let keys = self.keys();
        sort_texts(keys)
    }
}

/// What a `systemMessage.transform` request does with one section: its
/// content passes through unchanged when no callback is registered for it.
pub enum SectionStep<'a, F> {
    /// Run this callback over the content.
    Transform(&'a F),
    /// Keep the content.
    Keep,
}

/// The step for section `section_id`: transform it with its registered
/// callback, or keep it.
pub fn section_step<'a, F>(callbacks: &'a NamedMap<F>, section_id: &str) -> (r: SectionStep<'a, F>)
    ensures
        match r {
            SectionStep::Transform(f) => callbacks.view().contains_key(section_id@)
                && callbacks.view()[section_id@] == *f,
            SectionStep::Keep => !callbacks.view().contains_key(section_id@),
        },
{
    match callbacks.get(section_id) {
        Some(f) => SectionStep::Transform(f),
        None => SectionStep::Keep,
    }
}

// =============================================================================
// Modes and log entries
// =============================================================================

/// The wire name of a session mode.
pub open spec fn session_mode_name(m: crate::types::SessionMode) -> Seq<char> {
    match m {
        crate::types::SessionMode::Interactive => "interactive"@,
        crate::types::SessionMode::Plan => "plan"@,
        crate::types::SessionMode::Autopilot => "autopilot"@,
    }
}

/// The wire name of a session mode (`interactive`, `plan`, `autopilot`).
pub fn session_mode_wire_name(m: crate::types::SessionMode) -> (r: &'static str)
    ensures
        r@ == session_mode_name(m),
{
    match m {
        crate::types::SessionMode::Interactive => "interactive",
        crate::types::SessionMode::Plan => "plan",
        crate::types::SessionMode::Autopilot => "autopilot",
    }
}

/// The text of the error for a mode the runtime names that the SDK does not know.
pub open spec fn invalid_mode_text(name: Seq<char>) -> Seq<char> {
    "Invalid mode '"@ + name + "': unknown variant `"@ + name
        + "`, expected one of `interactive`, `plan`, `autopilot`"@
}

/// The session mode of a `mode.get` response: its `mode` string, which must
/// name a known mode.
pub fn session_mode_from_response(result: &JsonValue) -> (r: core::result::Result<crate::types::SessionMode, CopilotError>)
    ensures
        match crate::json::str_field(result@, "mode"@) {
            None => r matches Err(e) && e@ == ErrorView::Protocol(missing_member_text("mode"@)),
            Some(name) => match r {
                Ok(m) => session_mode_name(m) == name,
                Err(e) => (forall|m: crate::types::SessionMode| session_mode_name(m) != name)
                    && e@ == ErrorView::Protocol(invalid_mode_text(name)),
            },
        },
{
    let name = match required_str(result, "mode") {
        Ok(n) => n,
        Err(e) => return Err(e),
    };
    let n = name.as_str();
    if crate::json::str_eq(n, "interactive") {
        Ok(crate::types::SessionMode::Interactive)
    } else if crate::json::str_eq(n, "plan") {
        Ok(crate::types::SessionMode::Plan)
    } else if crate::json::str_eq(n, "autopilot") {
        Ok(crate::types::SessionMode::Autopilot)
    } else {
        proof {
            assert forall|m: crate::types::SessionMode| session_mode_name(m) != name@ by {
                match m {
                    _ => {},
                }
            }
        }
        let mut msg = "Invalid mode '".to_owned();
        msg.append(n);
        msg.append("': unknown variant `");
        msg.append(n);
        msg.append("`, expected one of `interactive`, `plan`, `autopilot`");
        Err(CopilotError::Protocol(msg))
    }
}

/// The wire name of a log level.
pub open spec fn log_level_wire(l: crate::types::SessionLogLevel) -> Seq<char> {
    match l {
        crate::types::SessionLogLevel::Error => "error"@,
        crate::types::SessionLogLevel::Info => "info"@,
        crate::types::SessionLogLevel::Warning => "warning"@,
    }
}

fn log_level_str(l: crate::types::SessionLogLevel) -> (r: &'static str)
    ensures
        r@ == log_level_wire(l),
{
    match l {
        crate::types::SessionLogLevel::Error => "error",
        crate::types::SessionLogLevel::Info => "info",
        crate::types::SessionLogLevel::Warning => "warning",
    }
}

/// The parameters of `session.log`: the session and message, plus `level`
/// and `ephemeral` when the options set them.
pub open spec fn log_params_spec(session_id: Seq<char>, message: Seq<char>, options: Option<crate::types::LogOptions>) -> JsonView {
    let p = set_field(
        set_field(empty_object(), "sessionId"@, JsonView::Str(session_id)),
        "message"@,
        JsonView::Str(message),
    );
    match options {
        None => p,
        Some(o) => {
            let p = match o.level {
                Some(l) => set_field(p, "level"@, JsonView::Str(log_level_wire(l))),
                None => p,
            };
            match o.ephemeral {
                Some(b) => set_field(p, "ephemeral"@, JsonView::Bool(b)),
                None => p,
            }
        },
    }
}

/// Builds the parameters of `session.log`.
pub fn log_params(session_id: &str, message: &str, options: Option<&crate::types::LogOptions>) -> (r: JsonValue)
    ensures
        r@ == log_params_spec(
            session_id@,
            message@,
            match options {
                Some(o) => Some(*o),
                None => None,
            },
        ),
{
    let mut p = session_params(session_id);
    p.set("message", JsonValue::string(message));
    match options {
        None => {},
        Some(o) => {
            match o.level {
                Some(l) => p.set("level", JsonValue::string(log_level_str(l))),
                None => {},
            }
            match o.ephemeral {
                Some(b) => p.set("ephemeral", JsonValue::Bool(b)),
                None => {},
            }
        },
    }
    p
}

/// The text of the error for a plan that does not read.
pub open spec fn plan_parse_error_text() -> Seq<char> {
    "Failed to parse plan: invalid type"@
}

/// The plan of a `plan.read` response: none for `null` or a response
/// without `content`; otherwise its `content` and `title`, each a string or
/// `null`; any other member type is a protocol error.
pub fn plan_from_response(result: &JsonValue) -> (r: core::result::Result<Option<crate::types::PlanData>, CopilotError>)
    ensures
        (result@ is Null || field(result@, "content"@) is None) ==> r matches Ok(None),
        !(result@ is Null || field(result@, "content"@) is None) ==> match (
            crate::tools::read_opt_text(field(result@, "content"@)),
            crate::tools::read_opt_text(field(result@, "title"@)),
        ) {
            (Some(c), Some(t)) => r matches Ok(Some(p)) && p.content.deep_view() == c
                && p.title.deep_view() == t,
            _ => r matches Err(e) && e@ == ErrorView::Protocol(plan_parse_error_text()),
        },
{
    if !has_plan(result) {
        return Ok(None);
    }
    let content: Option<String> = match result.get("content") {
        None => None,
        Some(JsonValue::Null) => None,
        Some(JsonValue::Str(c)) => Some(c.clone()),
        _ => return Err(CopilotError::Protocol("Failed to parse plan: invalid type".to_owned())),
    };
    let title: Option<String> = match result.get("title") {
        None => None,
        Some(JsonValue::Null) => None,
        Some(JsonValue::Str(t)) => Some(t.clone()),
        _ => return Err(CopilotError::Protocol("Failed to parse plan: invalid type".to_owned())),
    };
    Ok(Some(crate::types::PlanData { content, title }))
}

// =============================================================================
// Permission requests
// =============================================================================

/// The answer to a permission request: what the registered handler decided,
/// or the default denial when no handler is registered (`decided` is `None`).
pub fn permission_decision(decided: Option<crate::types::PermissionRequestResult>) -> (r: crate::types::PermissionRequestResult)
    ensures
        match decided {
            Some(d) => r == d,
            None => r.kind@ == crate::types::denied_kind() && r.rules is None,
        },
{
    match decided {
        Some(d) => d,
        None => crate::types::PermissionRequestResult::denied(),
    }
}

// =============================================================================
// Laws of requests
// =============================================================================

/// Law: the parameters of `session.send` carry the session's id and the
/// prompt, and each trace header exactly when the trace context sets it,
/// with its value.
pub proof fn law_send_params(
    session_id: Seq<char>,
    prompt: Seq<char>,
    attachments: Option<Seq<JsonView>>,
    mode: Option<Seq<char>>,
    trace: crate::trace::TraceContext,
)
    ensures
        ({
            let p = send_params_spec(session_id, prompt, attachments, mode, trace);
            &&& field(p, "sessionId"@) == Some(JsonView::Str(session_id))
            &&& field(p, "prompt"@) == Some(JsonView::Str(prompt))
            &&& field(p, "traceparent"@) == (match trace.traceparent {
                Some(t) => Some(JsonView::Str(t@)),
                None => None,
            })
            &&& field(p, "tracestate"@) == (match trace.tracestate {
                Some(t) => Some(JsonView::Str(t@)),
                None => None,
            })
        }),
{
    reveal_strlit("sessionId");
    reveal_strlit("prompt");
    reveal_strlit("attachments");
    reveal_strlit("mode");
    reveal_strlit("traceparent");
    reveal_strlit("tracestate");
    assert("traceparent"@[0] != "attachments"@[0]);
    let keys = seq!["sessionId"@, "prompt"@, "attachments"@, "mode"@, "traceparent"@, "tracestate"@];
    assert(forall|a: int, b: int| 0 <= a < b < 6 ==> keys[a] != keys[b]) by {
        assert(keys[0].len() == 9 && keys[1].len() == 6 && keys[2].len() == 11 && keys[3].len() == 4
            && keys[4].len() == 11 && keys[5].len() == 10);
        assert(keys[2][0] != keys[4][0]);
    }
    let p0 = empty_object();
    let att = match attachments {
        Some(a) => JsonView::Array(a),
        None => JsonView::Null,
    };
    let md = match mode {
        Some(m) => JsonView::Str(m),
        None => JsonView::Null,
    };
    let p1 = set_field(p0, "sessionId"@, JsonView::Str(session_id));
    let p2 = set_field(p1, "prompt"@, JsonView::Str(prompt));
    let p3 = set_field(p2, "attachments"@, att);
    let p4 = set_field(p3, "mode"@, md);
    assert(keys[0] != keys[1] && keys[0] != keys[2] && keys[0] != keys[3] && keys[0] != keys[4] && keys[0] != keys[5]);
    assert(keys[1] != keys[2] && keys[1] != keys[3] && keys[1] != keys[4] && keys[1] != keys[5]);
    assert(keys[2] != keys[4] && keys[2] != keys[5] && keys[3] != keys[4] && keys[3] != keys[5] && keys[4] != keys[5]);
    crate::json::law_set_then_get(p0, "sessionId"@, JsonView::Str(session_id), "sessionId"@);
    crate::json::law_set_then_get(p0, "sessionId"@, JsonView::Str(session_id), "traceparent"@);
    crate::json::law_set_then_get(p0, "sessionId"@, JsonView::Str(session_id), "tracestate"@);
    crate::json::law_set_then_get(p1, "prompt"@, JsonView::Str(prompt), "sessionId"@);
    crate::json::law_set_then_get(p1, "prompt"@, JsonView::Str(prompt), "prompt"@);
    crate::json::law_set_then_get(p1, "prompt"@, JsonView::Str(prompt), "traceparent"@);
    crate::json::law_set_then_get(p1, "prompt"@, JsonView::Str(prompt), "tracestate"@);
    crate::json::law_set_then_get(p2, "attachments"@, att, "sessionId"@);
    crate::json::law_set_then_get(p2, "attachments"@, att, "prompt"@);
    crate::json::law_set_then_get(p2, "attachments"@, att, "traceparent"@);
    crate::json::law_set_then_get(p2, "attachments"@, att, "tracestate"@);
    crate::json::law_set_then_get(p3, "mode"@, md, "sessionId"@);
    crate::json::law_set_then_get(p3, "mode"@, md, "prompt"@);
    crate::json::law_set_then_get(p3, "mode"@, md, "traceparent"@);
    crate::json::law_set_then_get(p3, "mode"@, md, "tracestate"@);
    let p5 = match trace.traceparent {
        Some(tp) => set_field(p4, "traceparent"@, JsonView::Str(tp@)),
        None => p4,
    };
    if let Some(tp) = trace.traceparent {
        crate::json::law_set_then_get(p4, "traceparent"@, JsonView::Str(tp@), "sessionId"@);
        crate::json::law_set_then_get(p4, "traceparent"@, JsonView::Str(tp@), "prompt"@);
        crate::json::law_set_then_get(p4, "traceparent"@, JsonView::Str(tp@), "tracestate"@);
        crate::json::law_set_then_get(p4, "traceparent"@, JsonView::Str(tp@), "traceparent"@);
    }
    if let Some(ts) = trace.tracestate {
        crate::json::law_set_then_get(p5, "tracestate"@, JsonView::Str(ts@), "sessionId"@);
        crate::json::law_set_then_get(p5, "tracestate"@, JsonView::Str(ts@), "prompt"@);
        crate::json::law_set_then_get(p5, "tracestate"@, JsonView::Str(ts@), "traceparent"@);
        crate::json::law_set_then_get(p5, "tracestate"@, JsonView::Str(ts@), "tracestate"@);
    }
}

/// The parameters of `session.ui.elicitation`.
pub open spec fn elicitation_params_spec(session_id: Seq<char>, message: Seq<char>, schema: JsonView) -> JsonView {
    set_field(
        set_field(
            set_field(empty_object(), "sessionId"@, JsonView::Str(session_id)),
            "message"@,
            JsonView::Str(message),
        ),
        "requestedSchema"@,
        schema,
    )
}

/// Law: a text-input dialog asks with the session's id, the message and a
/// schema of type `object` whose one required property `value` is a string
/// field carrying the set options; its answer is the text `x` exactly when
/// the user accepted and submitted `x` as `value`.
pub proof fn law_input_dialog(
    session_id: Seq<char>,
    message: Seq<char>,
    options: Option<crate::types::UiInputOptions>,
    action: Seq<char>,
    content: Option<Seq<(Seq<char>, JsonView)>>,
    x: Seq<char>,
)
    ensures
        ({
            let f = input_field_spec(options);
            let schema = single_field_schema("value"@, f);
            let p = elicitation_params_spec(session_id, message, schema);
            &&& field(p, "sessionId"@) == Some(JsonView::Str(session_id))
            &&& field(p, "message"@) == Some(JsonView::Str(message))
            &&& field(p, "requestedSchema"@) == Some(schema)
            &&& field(schema, "type"@) == Some(JsonView::Str("object"@))
            &&& field(schema, "properties"@) == Some(set_field(empty_object(), "value"@, f))
            &&& field(field(schema, "properties"@)->0, "value"@) == Some(f)
            &&& field(schema, "required"@) == Some(JsonView::Array(seq![JsonView::Str("value"@)]))
            &&& field(f, "type"@) == Some(JsonView::Str("string"@))
            &&& (accepted_member(action, content, "value"@) == Some(JsonView::Str(x)) <==> (action
                == "accept"@ && content is Some && member(content->0, "value"@) == Some(
                JsonView::Str(x),
            )))
        }),
{
    reveal_strlit("sessionId");
    reveal_strlit("message");
    reveal_strlit("requestedSchema");
    reveal_strlit("type");
    reveal_strlit("properties");
    reveal_strlit("required");
    reveal_strlit("title");
    reveal_strlit("description");
    reveal_strlit("minLength");
    reveal_strlit("maxLength");
    reveal_strlit("format");
    reveal_strlit("default");
    assert("sessionId"@.len() == 9 && "message"@.len() == 7 && "requestedSchema"@.len() == 15);
    assert("type"@.len() == 4 && "properties"@.len() == 10 && "required"@.len() == 8);
    let f = input_field_spec(options);
    let p0 = empty_object();
    let p1 = set_field(p0, "sessionId"@, JsonView::Str(session_id));
    let p2 = set_field(p1, "message"@, JsonView::Str(message));
    let schema = single_field_schema("value"@, f);
    crate::json::law_set_then_get(p0, "sessionId"@, JsonView::Str(session_id), "sessionId"@);
    crate::json::law_set_then_get(p1, "message"@, JsonView::Str(message), "sessionId"@);
    crate::json::law_set_then_get(p1, "message"@, JsonView::Str(message), "message"@);
    crate::json::law_set_then_get(p2, "requestedSchema"@, schema, "sessionId"@);
    crate::json::law_set_then_get(p2, "requestedSchema"@, schema, "message"@);
    crate::json::law_set_then_get(p2, "requestedSchema"@, schema, "requestedSchema"@);
    let s0 = set_field(empty_object(), "type"@, JsonView::Str("object"@));
    let props = set_field(empty_object(), "value"@, f);
    let s1 = set_field(s0, "properties"@, props);
    let req = JsonView::Array(seq![JsonView::Str("value"@)]);
    crate::json::law_set_then_get(empty_object(), "type"@, JsonView::Str("object"@), "type"@);
    crate::json::law_set_then_get(s0, "properties"@, props, "type"@);
    crate::json::law_set_then_get(s0, "properties"@, props, "properties"@);
    crate::json::law_set_then_get(s1, "required"@, req, "type"@);
    crate::json::law_set_then_get(s1, "required"@, req, "properties"@);
    crate::json::law_set_then_get(s1, "required"@, req, "required"@);
    crate::json::law_set_then_get(empty_object(), "value"@, f, "value"@);
    lemma_input_field_type(options);
}

proof fn lemma_input_field_type(options: Option<crate::types::UiInputOptions>)
    ensures
        field(input_field_spec(options), "type"@) == Some(JsonView::Str("string"@)),
{
    reveal_strlit("type");
    reveal_strlit("title");
    reveal_strlit("description");
    reveal_strlit("minLength");
    reveal_strlit("maxLength");
    reveal_strlit("format");
    reveal_strlit("default");
    assert("type"@.len() == 4 && "title"@.len() == 5 && "description"@.len() == 11);
    assert("minLength"@.len() == 9 && "maxLength"@.len() == 9 && "format"@.len() == 6 && "default"@.len() == 7);
    let f0 = set_field(empty_object(), "type"@, JsonView::Str("string"@));
    crate::json::law_set_then_get(empty_object(), "type"@, JsonView::Str("string"@), "type"@);
    if let Some(o) = options {
        let f1 = match o.title {
            Some(t) => set_field(f0, "title"@, JsonView::Str(t@)),
            None => f0,
        };
        if let Some(t) = o.title {
            crate::json::law_set_then_get(f0, "title"@, JsonView::Str(t@), "type"@);
        }
        let f2 = match o.description {
            Some(d) => set_field(f1, "description"@, JsonView::Str(d@)),
            None => f1,
        };
        if let Some(d) = o.description {
            crate::json::law_set_then_get(f1, "description"@, JsonView::Str(d@), "type"@);
        }
        let f3 = match o.min_length {
            Some(n) => set_field(f2, "minLength"@, JsonView::Number(crate::json::decimal_text(n as nat))),
            None => f2,
        };
        if let Some(n) = o.min_length {
            crate::json::law_set_then_get(
                f2,
                "minLength"@,
                JsonView::Number(crate::json::decimal_text(n as nat)),
                "type"@,
            );
        }
        let f4 = match o.max_length {
            Some(n) => set_field(f3, "maxLength"@, JsonView::Number(crate::json::decimal_text(n as nat))),
            None => f3,
        };
        if let Some(n) = o.max_length {
            crate::json::law_set_then_get(
                f3,
                "maxLength"@,
                JsonView::Number(crate::json::decimal_text(n as nat)),
                "type"@,
            );
        }
        let f5 = match o.format {
            Some(t) => set_field(f4, "format"@, JsonView::Str(t@)),
            None => f4,
        };
        if let Some(t) = o.format {
            crate::json::law_set_then_get(f4, "format"@, JsonView::Str(t@), "type"@);
        }
        if let Some(t) = o.default {
            crate::json::law_set_then_get(f5, "default"@, JsonView::Str(t@), "type"@);
        }
    }
}

/// Law: each session mode has its own wire name (`interactive`, `plan`, `autopilot`), and two different
/// session modes never share one.
pub proof fn law_session_mode_names(a: crate::types::SessionMode, b: crate::types::SessionMode)
    ensures
        session_mode_name(crate::types::SessionMode::Interactive) == "interactive"@,
        session_mode_name(crate::types::SessionMode::Plan) == "plan"@,
        session_mode_name(crate::types::SessionMode::Autopilot) == "autopilot"@,
        a != b ==> session_mode_name(a) != session_mode_name(b),
{
    reveal_strlit("interactive");
    reveal_strlit("plan");
    reveal_strlit("autopilot");
    let n0: Seq<char> = "interactive"@;
    let n1: Seq<char> = "plan"@;
    let n2: Seq<char> = "autopilot"@;
    assert(n0.len() != n1.len());
    assert(n0.len() != n2.len());
    assert(n1.len() != n2.len());
}

/// Law: each session log level has its own wire name (`error`, `info`, `warning`), and two different
/// session log levels never share one.
pub proof fn law_session_log_level_names(a: crate::types::SessionLogLevel, b: crate::types::SessionLogLevel)
    ensures
        log_level_wire(crate::types::SessionLogLevel::Error) == "error"@,
        log_level_wire(crate::types::SessionLogLevel::Info) == "info"@,
        log_level_wire(crate::types::SessionLogLevel::Warning) == "warning"@,
        a != b ==> log_level_wire(a) != log_level_wire(b),
{
    reveal_strlit("error");
    reveal_strlit("info");
    reveal_strlit("warning");
    let n0: Seq<char> = "error"@;
    let n1: Seq<char> = "info"@;
    let n2: Seq<char> = "warning"@;
    assert(n0.len() != n1.len());
    assert(n0.len() != n2.len());
    assert(n1.len() != n2.len());
}

} // verus!
