//! Tool definitions and tool results: the results a tool hands back to the
//! runtime, their conversion from MCP `CallToolResult`s and from arbitrary
//! JSON, and the builder for tool definitions with their parameter schema.
use crate::error::{CopilotError, ErrorView};
use crate::json::{
    empty_object, field, json_text, member, members_view, object_of, serialized_json,
    set_field, JsonMap, JsonValue, JsonView,
};
use vstd::prelude::*;
use vstd::string::*;

verus! {

/// Binary result from a tool execution.
#[derive(Debug, Clone)]
pub struct ToolBinaryResult {
    pub data: String,
    pub mime_type: String,
    /// Wire name `type`.
    pub result_type: String,
    pub description: Option<String>,
}

/// The model of a [`ToolBinaryResult`].
pub struct BinaryView {
    pub data: Seq<char>,
    pub mime_type: Seq<char>,
    pub result_type: Seq<char>,
    pub description: Option<Seq<char>>,
}

impl View for ToolBinaryResult {
    type V = BinaryView;

    open spec fn view(&self) -> BinaryView {
        BinaryView {
            data: self.data@,
            mime_type: self.mime_type@,
            result_type: self.result_type@,
            description: self.description.deep_view(),
        }
    }
}

/// Result object returned from tool execution.
#[derive(Debug)]
pub struct ToolResultObject {
    pub text_result_for_llm: String,
    pub binary_results_for_llm: Option<Vec<ToolBinaryResult>>,
    pub result_type: String,
    pub error: Option<String>,
    pub session_log: Option<String>,
    pub tool_telemetry: Option<JsonMap>,
}

/// Convenient alias for tool results.
pub type ToolResult = ToolResultObject;

/// The model of a [`ToolResultObject`].
pub struct ToolResultView {
    pub text: Seq<char>,
    pub binaries: Option<Seq<BinaryView>>,
    pub result_type: Seq<char>,
    pub error: Option<Seq<char>>,
    pub session_log: Option<Seq<char>>,
    pub telemetry: Option<Seq<(Seq<char>, JsonView)>>,
}

impl View for ToolResultObject {
    type V = ToolResultView;

    open spec fn view(&self) -> ToolResultView {
        ToolResultView {
            text: self.text_result_for_llm@,
            binaries: match self.binary_results_for_llm {
                Some(v) => Some(v@.map_values(|b: ToolBinaryResult| b@)),
                None => None,
            },
            result_type: self.result_type@,
            error: self.error.deep_view(),
            session_log: self.session_log.deep_view(),
            telemetry: match self.tool_telemetry {
                Some(m) => Some(members_view(m@)),
                None => None,
            },
        }
    }
}

/// A result with only text and a result type.
pub open spec fn plain_result(text: Seq<char>, result_type: Seq<char>) -> ToolResultView {
    ToolResultView {
        text,
        binaries: None,
        result_type,
        error: None,
        session_log: None,
        telemetry: None,
    }
}

/// Builds a result with only text and a result type.
fn make_plain(text: String, result_type: &str) -> (r: ToolResultObject)
    ensures
        r@ == plain_result(text@, result_type@),
{
    ToolResultObject {
        text_result_for_llm: text,
        binary_results_for_llm: None,
        result_type: result_type.to_owned(),
        error: None,
        session_log: None,
        tool_telemetry: None,
    }
}

impl ToolResultObject {
    /// Create a success result with text.
    pub fn text(result: &str) -> (r: Self)
        ensures
            r@ == plain_result(result@, "success"@),
    {
        make_plain(result.to_owned(), "success")
    }

    /// Create an error result.
    pub fn error(message: &str) -> (r: Self)
        ensures
            r@ == (ToolResultView { error: Some(message@), ..plain_result(Seq::empty(), "error"@) }),
    {
        let mut r = make_plain(String::new(), "error");
        r.error = Some(message.to_owned());
        r
    }
}

/// The value that every result type other than `success` names a failure
/// with: `failure` and `error` results are reported as errors.
pub open spec fn is_failure_type(t: Seq<char>) -> bool {
    t == "failure"@ || t == "error"@
}

// -----------------------------------------------------------------------------
// MCP CallToolResult conversion
// -----------------------------------------------------------------------------

/// The embedded resource inside an MCP `resource` content block.
#[derive(Debug, Clone, Default)]
pub struct McpCallToolResultResource {
    pub uri: String,
    pub mime_type: Option<String>,
    pub text: Option<String>,
    pub blob: Option<String>,
}

/// A single content block within an MCP `CallToolResult`.
#[derive(Debug, Clone)]
pub enum McpCallToolResultContent {
    /// A text content block.
    Text { text: String },
    /// An inline image content block.
    Image { data: String, mime_type: String },
    /// An embedded resource content block.
    Resource { resource: McpCallToolResultResource },
}

/// An MCP-compatible `CallToolResult`.
#[derive(Debug, Clone, Default)]
pub struct McpCallToolResult {
    pub content: Vec<McpCallToolResultContent>,
    pub is_error: Option<bool>,
}

/// The text a content block contributes: a text block's text, or a
/// resource's non-empty inline text.
pub open spec fn block_text(b: McpCallToolResultContent) -> Option<Seq<char>> {
    match b {
        McpCallToolResultContent::Text { text } => Some(text@),
        McpCallToolResultContent::Resource { resource } => match resource.text {
            Some(t) => if t@.len() > 0 {
                Some(t@)
            } else {
                None
            },
            None => None,
        },
        _ => None,
    }
}

/// The binary result a content block contributes: an image with non-empty
/// data and MIME type, or a resource's non-empty blob (MIME type defaulting
/// to `application/octet-stream`, described by the resource URI).
pub open spec fn block_binary(b: McpCallToolResultContent) -> Option<BinaryView> {
    match b {
        McpCallToolResultContent::Image { data, mime_type } => if data@.len() > 0
            && mime_type@.len() > 0 {
            Some(
                BinaryView {
                    data: data@,
                    mime_type: mime_type@,
                    result_type: "image"@,
                    description: None,
                },
            )
        } else {
            None
        },
        McpCallToolResultContent::Resource { resource } => match resource.blob {
            Some(blob) => if blob@.len() > 0 {
                Some(
                    BinaryView {
                        data: blob@,
                        mime_type: match resource.mime_type {
                            Some(m) => if m@.len() > 0 {
                                m@
                            } else {
                                "application/octet-stream"@
                            },
                            None => "application/octet-stream"@,
                        },
                        result_type: "resource"@,
                        description: Some(resource.uri@),
                    },
                )
            } else {
                None
            },
            None => None,
        },
        _ => None,
    }
}

/// The text parts of `blocks`, in order.
pub open spec fn text_parts(blocks: Seq<McpCallToolResultContent>) -> Seq<Seq<char>>
    decreases blocks.len(),
{
    if blocks.len() == 0 {
        Seq::empty()
    } else {
        let prev = text_parts(blocks.drop_last());
        match block_text(blocks.last()) {
            Some(t) => prev.push(t),
            None => prev,
        }
    }
}

/// The binary results of `blocks`, in order.
pub open spec fn binary_parts(blocks: Seq<McpCallToolResultContent>) -> Seq<BinaryView>
    decreases blocks.len(),
{
    if blocks.len() == 0 {
        Seq::empty()
    } else {
        let prev = binary_parts(blocks.drop_last());
        match block_binary(blocks.last()) {
            Some(b) => prev.push(b),
            None => prev,
        }
    }
}

/// `parts` joined with `sep` between consecutive parts.
pub open spec fn join(parts: Seq<Seq<char>>, sep: Seq<char>) -> Seq<char>
    decreases parts.len(),
{
    if parts.len() == 0 {
        Seq::empty()
    } else if parts.len() == 1 {
        parts[0]
    } else {
        join(parts.drop_last(), sep) + sep + parts.last()
    }
}

/// Appending a part to a join adds the separator only after a first part.
pub proof fn lemma_join_push(parts: Seq<Seq<char>>, sep: Seq<char>, t: Seq<char>)
    ensures
        join(parts.push(t), sep) == if parts.len() == 0 {
            t
        } else {
            join(parts, sep) + sep + t
        },
{
    assert(parts.push(t).drop_last() =~= parts);
}

/// Each block contributes at most one text part.
proof fn lemma_text_parts_len(blocks: Seq<McpCallToolResultContent>)
    ensures
        text_parts(blocks).len() <= blocks.len(),
    decreases blocks.len(),
{
    if blocks.len() > 0 {
        lemma_text_parts_len(blocks.drop_last());
    }
}

/// The tool result an MCP `CallToolResult` converts to.
pub open spec fn converted_mcp_result(blocks: Seq<McpCallToolResultContent>, is_error: Option<bool>) -> ToolResultView {
    ToolResultView {
        text: join(text_parts(blocks), "\n"@),
        binaries: if binary_parts(blocks).len() == 0 {
            None
        } else {
            Some(binary_parts(blocks))
        },
        result_type: if is_error == Some(true) {
            "failure"@
        } else {
            "success"@
        },
        error: None,
        session_log: None,
        telemetry: None,
    }
}

/// Law: a resource block with a non-empty blob adds one binary result after
/// those of the blocks before it: the blob as data, result type `resource`,
/// the resource URI as description, and as MIME type the resource's own
/// `mimeType` when that is present and non-empty; `application/octet-stream`
/// stands in only when the `mimeType` is absent or empty.
pub proof fn law_resource_blob_binary(
    blocks: Seq<McpCallToolResultContent>,
    resource: McpCallToolResultResource,
    is_error: Option<bool>,
)
    requires
        resource.blob is Some,
        resource.blob->0@.len() > 0,
    ensures
        ({
            let all = blocks.push(McpCallToolResultContent::Resource { resource });
            let out = binary_parts(all);
            &&& converted_mcp_result(all, is_error).binaries == Some(out)
            &&& out.len() == binary_parts(blocks).len() + 1
            &&& out.drop_last() == binary_parts(blocks)
            &&& out.last().data == resource.blob->0@
            &&& out.last().result_type == "resource"@
            &&& out.last().description == Some(resource.uri@)
            &&& (resource.mime_type is Some && resource.mime_type->0@.len() > 0)
                ==> out.last().mime_type == resource.mime_type->0@
            &&& !(resource.mime_type is Some && resource.mime_type->0@.len() > 0)
                ==> out.last().mime_type == "application/octet-stream"@
        }),
{
    let all = blocks.push(McpCallToolResultContent::Resource { resource });
    assert(all.drop_last() =~= blocks);
    assert(all.last() == McpCallToolResultContent::Resource { resource });
    assert(binary_parts(all) == binary_parts(blocks).push(block_binary(all.last())->0));
    assert(binary_parts(all).drop_last() =~= binary_parts(blocks));
}

/// Law: converting an MCP result reads its blocks in order. A text block
/// appends its text to the text for the model, after a newline when text came
/// before; an image block with non-empty data and MIME type appends an
/// `image` binary result with that data and type, and any other image adds
/// nothing; the result is a failure exactly when `isError` is `true`, and a
/// success otherwise, with no error text of its own.
pub proof fn law_mcp_conversion_steps(
    blocks: Seq<McpCallToolResultContent>,
    block: McpCallToolResultContent,
    is_error: Option<bool>,
)
    ensures
        ({
            let all = blocks.push(block);
            let before = converted_mcp_result(blocks, is_error);
            let after = converted_mcp_result(all, is_error);
            &&& block matches McpCallToolResultContent::Text { text } ==> {
                &&& text_parts(blocks).len() == 0 ==> after.text == text@
                &&& text_parts(blocks).len() > 0 ==> after.text == before.text + "\n"@ + text@
                &&& binary_parts(all) == binary_parts(blocks)
            }
            &&& block matches McpCallToolResultContent::Image { data, mime_type } ==> {
                &&& after.text == before.text
                &&& data@.len() > 0 && mime_type@.len() > 0 ==> binary_parts(all) == binary_parts(
                    blocks,
                ).push(
                    BinaryView {
                        data: data@,
                        mime_type: mime_type@,
                        result_type: "image"@,
                        description: None,
                    },
                )
                &&& !(data@.len() > 0 && mime_type@.len() > 0) ==> binary_parts(all)
                    == binary_parts(blocks)
            }
            &&& block matches McpCallToolResultContent::Resource { resource } ==> {
                &&& (resource.text is Some && resource.text->0@.len() > 0 && text_parts(blocks).len()
                    == 0) ==> after.text == resource.text->0@
                &&& (resource.text is Some && resource.text->0@.len() > 0 && text_parts(blocks).len()
                    > 0) ==> after.text == before.text + "\n"@ + resource.text->0@
                &&& !(resource.text is Some && resource.text->0@.len() > 0) ==> after.text
                    == before.text
            }
            &&& is_error == Some(true) ==> after.result_type == "failure"@
            &&& is_error != Some(true) ==> after.result_type == "success"@
            &&& after.error is None
        }),
{
    let all = blocks.push(block);
    assert(all.drop_last() =~= blocks);
    assert(all.last() == block);
    match block {
        McpCallToolResultContent::Text { text } => {
            assert(text_parts(all) == text_parts(blocks).push(text@));
            lemma_join_push(text_parts(blocks), "\n"@, text@);
        },
        McpCallToolResultContent::Image { .. } => {
            assert(text_parts(all) == text_parts(blocks));
        },
        McpCallToolResultContent::Resource { resource } => {
            match resource.text {
                Some(t) => if t@.len() > 0 {
                    assert(text_parts(all) == text_parts(blocks).push(t@));
                    lemma_join_push(text_parts(blocks), "\n"@, t@);
                } else {
                    assert(text_parts(all) == text_parts(blocks));
                },
                None => {
                    assert(text_parts(all) == text_parts(blocks));
                },
            }
        },
    }
}

fn nonempty(s: &Option<String>) -> (r: Option<&String>)
    ensures
        r is Some <==> (s matches Some(t) && t@.len() > 0),
        r matches Some(t) ==> s == Some(*t),
{
    match s {
        Some(t) => if t.unicode_len() > 0 {
            Some(t)
        } else {
            None
        },
        None => None,
    }
}

/// Converts an MCP `CallToolResult` into the SDK's [`ToolResultObject`].
///
/// Text blocks (and resource text) are joined with `\n`; image blocks and
/// resource blobs become binary results. `is_error: true` maps the result
/// type to `failure`.
pub fn convert_mcp_call_tool_result(call_result: &McpCallToolResult) -> (r: ToolResultObject)
    ensures
        r@ == converted_mcp_result(call_result.content@, call_result.is_error),
{
    let blocks = &call_result.content;
    let mut text = String::new();
    let mut count: usize = 0;
    let mut binaries: Vec<ToolBinaryResult> = Vec::new();
    let mut i: usize = 0;
    while i < blocks.len()
        invariant
            i <= blocks@.len(),
            count == text_parts(blocks@.take(i as int)).len(),
            text@ == join(text_parts(blocks@.take(i as int)), "\n"@),
            binaries@.map_values(|b: ToolBinaryResult| b@) == binary_parts(blocks@.take(i as int)),
        decreases blocks.len() - i,
    {
        let ghost prefix = blocks@.take(i as int);
        let ghost next = blocks@.take(i + 1);
        proof {
            assert(next.drop_last() =~= prefix);
            assert(next.last() == blocks@[i as int]);
        }
        let ghost old_bins = binaries@;
        let mut piece: Option<&String> = None;
        match &blocks[i] {
            McpCallToolResultContent::Text { text: t } => {
                piece = Some(t);
            },
            McpCallToolResultContent::Image { data, mime_type } => {
                if data.unicode_len() > 0 && mime_type.unicode_len() > 0 {
                    binaries.push(
                        ToolBinaryResult {
                            data: data.clone(),
                            mime_type: mime_type.clone(),
                            result_type: "image".to_owned(),
                            description: None,
                        },
                    );
                }
            },
            McpCallToolResultContent::Resource { resource } => {
                piece = nonempty(&resource.text);
                match nonempty(&resource.blob) {
                    Some(blob) => {
                        let mime = match nonempty(&resource.mime_type) {
                            Some(m) => m.clone(),
                            None => "application/octet-stream".to_owned(),
                        };
                        binaries.push(
                            ToolBinaryResult {
                                data: blob.clone(),
                                mime_type: mime,
                                result_type: "resource".to_owned(),
                                description: Some(resource.uri.clone()),
                            },
                        );
                    },
                    None => {},
                }
            },
        }
        proof {
            if block_binary(blocks@[i as int]) is Some {
                assert(binaries@.map_values(|b: ToolBinaryResult| b@) =~= old_bins.map_values(
                    |b: ToolBinaryResult| b@,
                ).push(block_binary(blocks@[i as int])->0));
            } else {
                assert(binaries@ == old_bins);
            }
        }
        proof {
            lemma_text_parts_len(prefix);
        }
        match piece {
            Some(t) => {
                proof {
                    lemma_join_push(text_parts(prefix), "\n"@, t@);
                    assert(text_parts(next) == text_parts(prefix).push(t@));
                }
                if count > 0 {
                    text.append("\n");
                }
                text.append(t.as_str());
                proof {
                    reveal_strlit("\n");
                }
                count = count + 1;
            },
            None => {
                proof {
                    assert(text_parts(next) == text_parts(prefix));
                }
            },
        }
        i = i + 1;
    }
    proof {
        assert(blocks@.take(blocks@.len() as int) =~= blocks@);
    }
    let is_failure = match call_result.is_error {
        Some(b) => b,
        None => false,
    };
    let bins = if binaries.len() == 0 {
        None
    } else {
        Some(binaries)
    };
    ToolResultObject {
        text_result_for_llm: text,
        binary_results_for_llm: bins,
        result_type: if is_failure {
            "failure".to_owned()
        } else {
            "success".to_owned()
        },
        error: None,
        session_log: None,
        tool_telemetry: None,
    }
}

// -----------------------------------------------------------------------------
// Reading a tool result back from JSON
// -----------------------------------------------------------------------------

/// An optional text member: absent or `null` reads as `None`, a string as
/// `Some`, anything else does not read (`None` outside).
pub open spec fn read_opt_text(v: Option<JsonView>) -> Option<Option<Seq<char>>> {
    match v {
        None => Some(None),
        Some(JsonView::Null) => Some(None),
        Some(JsonView::Str(s)) => Some(Some(s)),
        _ => None,
    }
}

/// A required text member.
pub open spec fn read_text(v: Option<JsonView>) -> Option<Seq<char>> {
    match v {
        Some(JsonView::Str(s)) => Some(s),
        _ => None,
    }
}

/// A binary result read from its wire object (`data`, `mimeType`, `type`,
/// optional `description`).
pub open spec fn read_binary(v: JsonView) -> Option<BinaryView> {
    match v {
        JsonView::Object(m) => {
            let data = read_text(member(m, "data"@));
            let mime = read_text(member(m, "mimeType"@));
            let kind = read_text(member(m, "type"@));
            let desc = read_opt_text(member(m, "description"@));
            if data is Some && mime is Some && kind is Some && desc is Some {
                Some(
                    BinaryView {
                        data: data->0,
                        mime_type: mime->0,
                        result_type: kind->0,
                        description: desc->0,
                    },
                )
            } else {
                None
            }
        },
        _ => None,
    }
}

/// Every item of `items` read as a binary result, or `None` if one does not read.
pub open spec fn read_binaries(items: Seq<JsonView>) -> Option<Seq<BinaryView>>
    decreases items.len(),
{
    if items.len() == 0 {
        Some(Seq::empty())
    } else {
        match (read_binaries(items.drop_last()), read_binary(items.last())) {
            (Some(prev), Some(b)) => Some(prev.push(b)),
            _ => None,
        }
    }
}

/// The optional `binaryResultsForLlm` member.
pub open spec fn read_opt_binaries(v: Option<JsonView>) -> Option<Option<Seq<BinaryView>>> {
    match v {
        None => Some(None),
        Some(JsonView::Null) => Some(None),
        Some(JsonView::Array(items)) => match read_binaries(items) {
            Some(bs) => Some(Some(bs)),
            None => None,
        },
        _ => None,
    }
}

/// The optional `toolTelemetry` member: an object's members.
pub open spec fn read_opt_members(v: Option<JsonView>) -> Option<Option<Seq<(Seq<char>, JsonView)>>> {
    match v {
        None => Some(None),
        Some(JsonView::Null) => Some(None),
        Some(JsonView::Object(m)) => Some(Some(m)),
        _ => None,
    }
}

/// The `resultType` member, `success` when absent.
pub open spec fn read_result_type(v: Option<JsonView>) -> Option<Seq<char>> {
    match v {
        None => Some("success"@),
        Some(JsonView::Str(s)) => Some(s),
        _ => None,
    }
}

/// A tool result read from its wire object (camel-case member names;
/// members that are not part of a tool result are ignored).
pub open spec fn read_tool_result(v: JsonView) -> Option<ToolResultView> {
    match v {
        JsonView::Object(m) => {
            let text = read_text(member(m, "textResultForLlm"@));
            let bins = read_opt_binaries(member(m, "binaryResultsForLlm"@));
            let kind = read_result_type(member(m, "resultType"@));
            let error = read_opt_text(member(m, "error"@));
            let log = read_opt_text(member(m, "sessionLog"@));
            let tele = read_opt_members(member(m, "toolTelemetry"@));
            if text is Some && bins is Some && kind is Some && error is Some && log is Some
                && tele is Some {
                Some(
                    ToolResultView {
                        text: text->0,
                        binaries: bins->0,
                        result_type: kind->0,
                        error: error->0,
                        session_log: log->0,
                        telemetry: tele->0,
                    },
                )
            } else {
                None
            }
        },
        _ => None,
    }
}

/// The model of a value that may be absent.
pub open spec fn opt_view(v: Option<&JsonValue>) -> Option<JsonView> {
    match v {
        Some(x) => Some(x@),
        None => None,
    }
}

fn read_opt_text_exec(v: Option<&JsonValue>) -> (r: Option<Option<String>>)
    ensures
        r is Some <==> read_opt_text(opt_view(v)) is Some,
        r matches Some(t) ==> t.deep_view() == read_opt_text(opt_view(v))->0,
{
    match v {
        None => Some(None),
        Some(JsonValue::Null) => Some(None),
        Some(JsonValue::Str(s)) => Some(Some(s.clone())),
        _ => None,
    }
}

fn read_text_exec(v: Option<&JsonValue>) -> (r: Option<String>)
    ensures
        r is Some <==> read_text(opt_view(v)) is Some,
        r matches Some(t) ==> t@ == read_text(opt_view(v))->0,
{
    match v {
        Some(JsonValue::Str(s)) => Some(s.clone()),
        _ => None,
    }
}

fn read_binary_exec(v: &JsonValue) -> (r: Option<ToolBinaryResult>)
    ensures
        r is Some <==> read_binary(v@) is Some,
        r matches Some(b) ==> b@ == read_binary(v@)->0,
{
    match v {
        JsonValue::Object(_) => {
            let data = read_text_exec(v.get("data"));
            let mime = read_text_exec(v.get("mimeType"));
            let kind = read_text_exec(v.get("type"));
            let desc = read_opt_text_exec(v.get("description"));
            match (data, mime, kind, desc) {
                (Some(data), Some(mime_type), Some(result_type), Some(description)) => Some(
                    ToolBinaryResult { data, mime_type, result_type, description },
                ),
                _ => None,
            }
        },
        _ => None,
    }
}

fn read_binaries_exec(items: &Vec<JsonValue>) -> (r: Option<Vec<ToolBinaryResult>>)
    ensures
        r is Some <==> read_binaries(crate::json::items_view(items@)) is Some,
        r matches Some(bs) ==> bs@.map_values(|b: ToolBinaryResult| b@) == read_binaries(
            crate::json::items_view(items@),
        )->0,
{
    let ghost iv = crate::json::items_view(items@);
    proof {
        crate::json::lemma_items_view(items@);
    }
    let mut out: Vec<ToolBinaryResult> = Vec::new();
    let mut i: usize = 0;
    while i < items.len()
        invariant
            i <= items@.len(),
            iv == crate::json::items_view(items@),
            iv.len() == items@.len(),
            forall|j: int| 0 <= j < items@.len() ==> #[trigger] iv[j] == items@[j]@,
            read_binaries(iv.take(i as int)) is Some,
            out@.map_values(|b: ToolBinaryResult| b@) == read_binaries(iv.take(i as int))->0,
        decreases items.len() - i,
    {
        proof {
            assert(iv.take(i + 1).drop_last() =~= iv.take(i as int));
            assert(iv.take(i + 1).last() == iv[i as int]);
        }
        match read_binary_exec(&items[i]) {
            Some(b) => {
                let ghost before = out@;
                out.push(b);
                proof {
                    assert(out@.map_values(|b: ToolBinaryResult| b@) =~= before.map_values(
                        |b: ToolBinaryResult| b@,
                    ).push(b@));
                }
            },
            None => {
                proof {
                    lemma_read_binaries_prefix(iv, i as int + 1);
                }
                return None;
            },
        }
        i = i + 1;
    }
    proof {
        assert(iv.take(i as int) =~= iv);
    }
    Some(out)
}

/// Once a prefix fails to read, every longer prefix fails too.
proof fn lemma_read_binaries_prefix(items: Seq<JsonView>, k: int)
    requires
        0 <= k <= items.len(),
        read_binaries(items.take(k)) is None,
    ensures
        read_binaries(items) is None,
    decreases items.len() - k,
{
    if k < items.len() {
        assert(items.take(k + 1).drop_last() =~= items.take(k));
        lemma_read_binaries_prefix(items, k + 1);
    } else {
        assert(items.take(k) =~= items);
    }
}

/// Reads a tool result from its wire object. Returns `None` when `v` is not
/// an object or a member has the wrong shape.
pub fn read_tool_result_exec(v: &JsonValue) -> (r: Option<ToolResultObject>)
    ensures
        r is Some <==> read_tool_result(v@) is Some,
        r matches Some(t) ==> t@ == read_tool_result(v@)->0,
{
    match v {
        JsonValue::Object(_) => {
            let text = read_text_exec(v.get("textResultForLlm"));
            let bins: Option<Option<Vec<ToolBinaryResult>>> = match v.get("binaryResultsForLlm") {
                None => Some(None),
                Some(JsonValue::Null) => Some(None),
                Some(JsonValue::Array(items)) => match read_binaries_exec(items) {
                    Some(bs) => Some(Some(bs)),
                    None => None,
                },
                _ => None,
            };
            let kind: Option<String> = match v.get("resultType") {
                None => Some("success".to_owned()),
                Some(JsonValue::Str(s)) => Some(s.clone()),
                _ => None,
            };
            let error = read_opt_text_exec(v.get("error"));
            let log = read_opt_text_exec(v.get("sessionLog"));
            let tele: Option<Option<JsonMap>> = match v.get("toolTelemetry") {
                None => Some(None),
                Some(JsonValue::Null) => Some(None),
                Some(tv @ JsonValue::Object(_)) => {
                    match tv.deep_clone() {
                        JsonValue::Object(mm) => Some(Some(mm)),
                        _ => None,
                    }
                },
                _ => None,
            };
            match (text, bins, kind, error, log, tele) {
                (Some(t), Some(b), Some(k), Some(e), Some(l), Some(tm)) => Some(
                    ToolResultObject {
                        text_result_for_llm: t,
                        binary_results_for_llm: b,
                        result_type: k,
                        error: e,
                        session_log: l,
                        tool_telemetry: tm,
                    },
                ),
                _ => None,
            }
        },
        _ => None,
    }
}

// -----------------------------------------------------------------------------
// Normalizing arbitrary handler output
// -----------------------------------------------------------------------------

/// Whether `v` is an object that names both `resultType` and
/// `textResultForLlm`, i.e. claims to be a tool result.
pub open spec fn looks_like_tool_result(v: JsonView) -> bool {
    match v {
        JsonView::Object(m) => member(m, "resultType"@) is Some && member(m, "textResultForLlm"@)
            is Some,
        _ => false,
    }
}

/// The tool result any JSON value normalizes to: `null` is an empty success,
/// a string is a success with that text, an object claiming to be a tool
/// result is read as one (a failure saying so when it does not read), and
/// anything else is a success carrying its JSON text.
pub open spec fn normalized_result(v: JsonView) -> ToolResultView {
    match v {
        JsonView::Null => plain_result(Seq::empty(), "success"@),
        JsonView::Str(s) => plain_result(s, "success"@),
        _ => if looks_like_tool_result(v) {
            match read_tool_result(v) {
                Some(r) => r,
                None => plain_result("Failed to parse tool result"@, "failure"@),
            }
        } else {
            plain_result(serialized_json(v), "success"@)
        },
    }
}

/// Normalize any result into a [`ToolResultObject`].
///
/// - `null` → empty success
/// - string → success with that text
/// - an object with `resultType` and `textResultForLlm` → read as a tool result
/// - everything else → its JSON text
pub fn normalize_result(result: JsonValue) -> (r: ToolResultObject)
    ensures
        r@ == normalized_result(result@),
{
    match result {
        JsonValue::Null => make_plain(String::new(), "success"),
        JsonValue::Str(s) => make_plain(s, "success"),
        _ => {
            let claims = match &result {
                JsonValue::Object(_) => result.get("resultType").is_some() && result.get(
                    "textResultForLlm",
                ).is_some(),
                _ => false,
            };
            if claims {
                match read_tool_result_exec(&result) {
                    Some(r) => r,
                    None => make_plain("Failed to parse tool result".to_owned(), "failure"),
                }
            } else {
                make_plain(json_text(&result), "success")
            }
        },
    }
}

// -----------------------------------------------------------------------------
// Tool definitions
// -----------------------------------------------------------------------------

/// A tool definition that a session offers to the model.
#[derive(Debug)]
pub struct Tool {
    pub name: String,
    pub description: String,
    pub parameters_schema: JsonValue,
    pub overrides_built_in_tool: bool,
    pub skip_permission: bool,
}

/// The model of a [`Tool`].
pub struct ToolView {
    pub name: Seq<char>,
    pub description: Seq<char>,
    pub parameters_schema: JsonView,
    pub overrides_built_in_tool: bool,
    pub skip_permission: bool,
}

impl View for Tool {
    type V = ToolView;

    open spec fn view(&self) -> ToolView {
        ToolView {
            name: self.name@,
            description: self.description@,
            parameters_schema: self.parameters_schema@,
            overrides_built_in_tool: self.overrides_built_in_tool,
            skip_permission: self.skip_permission,
        }
    }
}

/// A schema that a parameter can be added to: `null` (which becomes an
/// object) or an object whose `properties`, if present, is `null` or an object.
pub open spec fn accepts_parameters(schema: JsonView) -> bool {
    match schema {
        JsonView::Null => true,
        JsonView::Object(m) => match member(m, "properties"@) {
            None => true,
            Some(JsonView::Null) => true,
            Some(JsonView::Object(_)) => true,
            _ => false,
        },
        _ => false,
    }
}

/// `null` read as an empty object; other values unchanged.
pub open spec fn as_object(v: JsonView) -> JsonView {
    if v is Null {
        empty_object()
    } else {
        v
    }
}

/// `v` with `key` set to `value` unless `key` is already present.
pub open spec fn set_default(v: JsonView, key: Seq<char>, value: JsonView) -> JsonView {
    if field(v, key) is Some {
        v
    } else {
        set_field(v, key, value)
    }
}

/// The schema entry of one parameter.
pub open spec fn parameter_entry(param_type: Seq<char>, description: Seq<char>) -> JsonView {
    object_of(
        seq![("type"@, JsonView::Str(param_type)), ("description"@, JsonView::Str(description))],
    )
}

/// The schema after adding parameter `name`: the schema gets `type: object`
/// and `properties` when missing, `properties[name]` is set to the entry,
/// and a required parameter's name is appended to `required` (created empty
/// when missing; left alone when it is not an array).
pub open spec fn schema_with_parameter(
    schema: JsonView,
    name: Seq<char>,
    param_type: Seq<char>,
    description: Seq<char>,
    required: bool,
) -> JsonView {
    let s1 = set_default(as_object(schema), "type"@, JsonView::Str("object"@));
    let s2 = set_default(s1, "properties"@, empty_object());
    let props = as_object(field(s2, "properties"@)->0);
    let s3 = set_field(
        s2,
        "properties"@,
        set_field(props, name, parameter_entry(param_type, description)),
    );
    if required {
        let s4 = set_default(s3, "required"@, JsonView::Array(Seq::empty()));
        match field(s4, "required"@) {
            Some(JsonView::Array(items)) => set_field(
                s4,
                "required"@,
                JsonView::Array(items.push(JsonView::Str(name))),
            ),
            _ => s4,
        }
    } else {
        s3
    }
}

fn object_if_null(v: JsonValue) -> (r: JsonValue)
    ensures
        r@ == as_object(v@),
{
    match v {
        JsonValue::Null => JsonValue::object(),
        other => other,
    }
}

fn set_default_exec(v: &mut JsonValue, key: &str, value: JsonValue)
    ensures
        final(v)@ == set_default(old(v)@, key@, value@),
{
    if v.get(key).is_none() {
        v.set(key, value);
    }
}

impl Tool {
    /// Create a new tool with the given name, an empty description and an
    /// empty parameters schema.
    pub fn new(name: &str) -> (r: Self)
        ensures
            r@ == (ToolView {
                name: name@,
                description: Seq::empty(),
                parameters_schema: empty_object(),
                overrides_built_in_tool: false,
                skip_permission: false,
            }),
    {
        Tool {
            name: name.to_owned(),
            description: String::new(),
            parameters_schema: JsonValue::object(),
            overrides_built_in_tool: false,
            skip_permission: false,
        }
    }

    /// Set the tool description.
    pub fn description(self, desc: &str) -> (r: Self)
        ensures
            r@ == (ToolView { description: desc@, ..self@ }),
    {
        let mut t = self;
        t.description = desc.to_owned();
        t
    }

    /// Set the parameters JSON schema.
    pub fn schema(self, schema: JsonValue) -> (r: Self)
        ensures
            r@ == (ToolView { parameters_schema: schema@, ..self@ }),
    {
        let mut t = self;
        t.parameters_schema = schema;
        t
    }

    /// Add a parameter to the tool's JSON schema.
    pub fn parameter(self, name: &str, param_type: &str, description: &str, required: bool) -> (r:
        Self)
        requires
            accepts_parameters(self.parameters_schema@),
        ensures
            r@ == (ToolView {
                parameters_schema: schema_with_parameter(
                    self.parameters_schema@,
                    name@,
                    param_type@,
                    description@,
                    required,
                ),
                ..self@
            }),
    {
        let mut t = self;
        let ghost s0 = t.parameters_schema@;
        let mut schema = object_if_null(t.parameters_schema);
        set_default_exec(&mut schema, "type", JsonValue::string("object"));
        set_default_exec(&mut schema, "properties", JsonValue::object());
        let ghost s2 = schema@;
        proof {
            assert(s2 == set_default(
                set_default(as_object(s0), "type"@, JsonView::Str("object"@)),
                "properties"@,
                empty_object(),
            ));
            let s1 = set_default(as_object(s0), "type"@, JsonView::Str("object"@));
            assert(as_object(s0) is Object);
            if field(as_object(s0), "type"@) is None {
                crate::json::law_set_then_get(as_object(s0), "type"@, JsonView::Str("object"@), "type"@);
            }
            assert(s1 is Object);
            if field(s1, "properties"@) is None {
                crate::json::law_set_then_get(s1, "properties"@, empty_object(), "properties"@);
            }
            assert(field(s2, "properties"@) is Some);
        }
        let props = match schema.get("properties") {
            Some(p) => p.deep_clone(),
            None => JsonValue::object(),
        };
        let mut props = object_if_null(props);
        proof {
            assert(props@ == as_object(field(s2, "properties"@)->0));
        }
        let mut entry = JsonValue::object();
        entry.set("type", JsonValue::string(param_type));
        entry.set("description", JsonValue::string(description));
        proof {
            let pe = seq![("type"@, JsonView::Str(param_type@)), ("description"@, JsonView::Str(description@))];
            assert(pe.drop_last() =~= seq![("type"@, JsonView::Str(param_type@))]);
            assert(pe.drop_last().drop_last() =~= Seq::<(Seq<char>, JsonView)>::empty());
            reveal_with_fuel(object_of, 3);
            assert(entry@ == parameter_entry(param_type@, description@));
        }
        props.set(name, entry);
        schema.set("properties", props);
        let ghost s3 = schema@;
        proof {
            assert(s3 == set_field(
                s2,
                "properties"@,
                set_field(as_object(field(s2, "properties"@)->0), name@, parameter_entry(param_type@, description@)),
            ));
        }
        if required {
            set_default_exec(&mut schema, "required", JsonValue::Array(Vec::new()));
            proof {
                assert(crate::json::items_view(Seq::<JsonValue>::empty()) =~= Seq::<JsonView>::empty());
            }
            let ghost s4 = schema@;
            let pushed = match schema.get("required") {
                Some(JsonValue::Array(items)) => {
                    let mut v: Vec<JsonValue> = Vec::new();
                    let mut i: usize = 0;
                    while i < items.len()
                        invariant
                            i <= items@.len(),
                            v@.len() == i,
                            forall|j: int| 0 <= j < i ==> (#[trigger] v@[j])@ == items@[j]@,
                        decreases items.len() - i,
                    {
                        v.push(items[i].deep_clone());
                        i = i + 1;
                    }
                    v.push(JsonValue::string(name));
                    proof {
                        crate::json::lemma_items_view(v@);
                        crate::json::lemma_items_view(items@);
                        assert(crate::json::items_view(v@) =~= crate::json::items_view(items@).push(
                            JsonView::Str(name@),
                        ));
                    }
                    Some(JsonValue::Array(v))
                },
                _ => None,
            };
            match pushed {
                Some(arr) => schema.set("required", arr),
                None => {},
            }
        }
        t.parameters_schema = schema;
        t
    }

    /// Mark this tool as overriding a built-in tool.
    pub fn overrides_built_in_tool(self, value: bool) -> (r: Self)
        ensures
            r@ == (ToolView { overrides_built_in_tool: value, ..self@ }),
    {
        let mut t = self;
        t.overrides_built_in_tool = value;
        t
    }

    /// Skip permission checks for this tool.
    pub fn skip_permission(self, value: bool) -> (r: Self)
        ensures
            r@ == (ToolView { skip_permission: value, ..self@ }),
    {
        let mut t = self;
        t.skip_permission = value;
        t
    }
}

/// The properties a schema starts with: its `properties` object, or none
/// when it has no `properties` or they are `null`.
pub open spec fn initial_properties(schema: JsonView) -> JsonView {
    match field(as_object(schema), "properties"@) {
        Some(p) => as_object(p),
        None => empty_object(),
    }
}

/// The required names a schema starts with: its `required` array, or none.
pub open spec fn initial_required(schema: JsonView) -> Seq<JsonView> {
    match field(as_object(schema), "required"@) {
        Some(JsonView::Array(items)) => items,
        _ => Seq::empty(),
    }
}

/// Law: adding parameter `name` to a schema whose `properties` are absent,
/// `null` or an object sets `properties[name]` to the parameter's entry and
/// keeps every other property; `type` stays as it was, `"object"` when it
/// was missing; a required parameter's name is appended to `required`
/// (created when missing; a `required` that is not an array is left as it
/// is), an optional one leaves `required` unchanged; and every other member
/// of the schema is kept.
pub proof fn law_parameter_schema(
    schema: JsonView,
    name: Seq<char>,
    param_type: Seq<char>,
    description: Seq<char>,
    required: bool,
    other_property: Seq<char>,
    other_key: Seq<char>,
)
    requires
        accepts_parameters(schema),
    ensures
        ({
            let s = schema_with_parameter(schema, name, param_type, description, required);
            let props = field(s, "properties"@)->0;
            &&& field(s, "properties"@) is Some
            &&& field(props, name) == Some(parameter_entry(param_type, description))
            &&& other_property != name ==> field(props, other_property) == field(
                initial_properties(schema),
                other_property,
            )
            &&& field(s, "type"@) == (match field(as_object(schema), "type"@) {
                Some(t) => Some(t),
                None => Some(JsonView::Str("object"@)),
            })
            &&& field(s, "required"@) == (if !required {
                field(as_object(schema), "required"@)
            } else {
                match field(as_object(schema), "required"@) {
                    None => Some(JsonView::Array(initial_required(schema).push(JsonView::Str(name)))),
                    Some(JsonView::Array(items)) => Some(JsonView::Array(items.push(JsonView::Str(name)))),
                    Some(r) => Some(r),
                }
            })
            &&& (other_key != "type"@ && other_key != "properties"@ && other_key != "required"@)
                ==> field(s, other_key) == field(as_object(schema), other_key)
        }),
{
    reveal_strlit("type");
    reveal_strlit("properties");
    reveal_strlit("required");
    assert("type"@ != "properties"@ && "type"@ != "required"@ && "properties"@ != "required"@) by {
        assert("type"@.len() != "properties"@.len());
        assert("type"@.len() != "required"@.len());
        assert("properties"@[0] != "required"@[0]);
    }
    let s0 = as_object(schema);
    assert(s0 is Object);
    let s1 = set_default(s0, "type"@, JsonView::Str("object"@));
    crate::json::law_set_then_get(s0, "type"@, JsonView::Str("object"@), "properties"@);
    crate::json::law_set_then_get(s0, "type"@, JsonView::Str("object"@), "required"@);
    crate::json::law_set_then_get(s0, "type"@, JsonView::Str("object"@), other_key);
    crate::json::law_set_then_get(s0, "type"@, JsonView::Str("object"@), "type"@);
    assert(s1 is Object);
    let s2 = set_default(s1, "properties"@, empty_object());
    crate::json::law_set_then_get(s1, "properties"@, empty_object(), "type"@);
    crate::json::law_set_then_get(s1, "properties"@, empty_object(), "required"@);
    crate::json::law_set_then_get(s1, "properties"@, empty_object(), other_key);
    crate::json::law_set_then_get(s1, "properties"@, empty_object(), "properties"@);
    assert(s2 is Object);
    let props = as_object(field(s2, "properties"@)->0);
    assert(props == initial_properties(schema));
    assert(props is Object);
    let entry = parameter_entry(param_type, description);
    let newp = set_field(props, name, entry);
    crate::json::law_set_then_get(props, name, entry, other_property);
    let s3 = set_field(s2, "properties"@, newp);
    crate::json::law_set_then_get(s2, "properties"@, newp, "type"@);
    crate::json::law_set_then_get(s2, "properties"@, newp, "required"@);
    crate::json::law_set_then_get(s2, "properties"@, newp, other_key);
    assert(s3 is Object);
    if required {
        let s4 = set_default(s3, "required"@, JsonView::Array(Seq::empty()));
        crate::json::law_set_then_get(s3, "required"@, JsonView::Array(Seq::empty()), "type"@);
        crate::json::law_set_then_get(s3, "required"@, JsonView::Array(Seq::empty()), "properties"@);
        crate::json::law_set_then_get(s3, "required"@, JsonView::Array(Seq::empty()), other_key);
        crate::json::law_set_then_get(s3, "required"@, JsonView::Array(Seq::empty()), "required"@);
        assert(s4 is Object);
        match field(s4, "required"@) {
            Some(JsonView::Array(items)) => {
                let v = JsonView::Array(items.push(JsonView::Str(name)));
                crate::json::law_set_then_get(s4, "required"@, v, "type"@);
                crate::json::law_set_then_get(s4, "required"@, v, "properties"@);
                crate::json::law_set_then_get(s4, "required"@, v, other_key);
                crate::json::law_set_then_get(s4, "required"@, v, "required"@);
            },
            _ => {},
        }
    }
}

/// Define a tool with metadata for registration on a session. A missing
/// schema is an empty object.
pub fn define_tool(name: &str, description: &str, parameters_schema: Option<JsonValue>) -> (r:
    Tool)
    ensures
        r@ == (ToolView {
            name: name@,
            description: description@,
            parameters_schema: match parameters_schema {
                Some(s) => s@,
                None => empty_object(),
            },
            overrides_built_in_tool: false,
            skip_permission: false,
        }),
{
    Tool {
        name: name.to_owned(),
        description: description.to_owned(),
        parameters_schema: match parameters_schema {
            Some(s) => s,
            None => JsonValue::object(),
        },
        overrides_built_in_tool: false,
        skip_permission: false,
    }
}

/// The wire object of a tool definition: `name`, `description` and
/// `parameters`, plus `overridesBuiltInTool` and `skipPermission` only when set.
pub open spec fn tool_wire(t: ToolView) -> JsonView {
    let base = object_of(
        seq![
            ("name"@, JsonView::Str(t.name)),
            ("description"@, JsonView::Str(t.description)),
            ("parameters"@, t.parameters_schema),
        ],
    );
    let with_override = if t.overrides_built_in_tool {
        set_field(base, "overridesBuiltInTool"@, JsonView::Bool(true))
    } else {
        base
    };
    if t.skip_permission {
        set_field(with_override, "skipPermission"@, JsonView::Bool(true))
    } else {
        with_override
    }
}

impl Tool {
    /// The wire object sent to the runtime for this tool definition.
    pub fn to_wire(&self) -> (r: JsonValue)
        ensures
            r@ == tool_wire(self@),
    {
        let mut o = JsonValue::object();
        o.set("name", JsonValue::string(self.name.as_str()));
        o.set("description", JsonValue::string(self.description.as_str()));
        o.set("parameters", self.parameters_schema.deep_clone());
        proof {
            let m = seq![
                ("name"@, JsonView::Str(self.name@)),
                ("description"@, JsonView::Str(self.description@)),
                ("parameters"@, self.parameters_schema@),
            ];
            assert(m.drop_last().drop_last().drop_last() =~= Seq::<(Seq<char>, JsonView)>::empty());
            assert(m.drop_last().drop_last() =~= seq![("name"@, JsonView::Str(self.name@))]);
            assert(m.drop_last() =~= seq![
                ("name"@, JsonView::Str(self.name@)),
                ("description"@, JsonView::Str(self.description@)),
            ]);
            reveal_with_fuel(object_of, 4);
        }
        if self.overrides_built_in_tool {
            o.set("overridesBuiltInTool", JsonValue::Bool(true));
        }
        if self.skip_permission {
            o.set("skipPermission", JsonValue::Bool(true));
        }
        o
    }
}

// -----------------------------------------------------------------------------
// Tool invocations
// -----------------------------------------------------------------------------

/// Information about a tool invocation from the server.
#[derive(Debug)]
pub struct ToolInvocation {
    pub session_id: String,
    pub tool_call_id: String,
    pub tool_name: String,
    pub arguments: Option<JsonValue>,
    /// W3C `traceparent` propagated with the call, if any.
    pub traceparent: Option<String>,
    /// W3C `tracestate` propagated with the call, if any.
    pub tracestate: Option<String>,
}

/// The text of the error for an argument that is not there.
pub open spec fn missing_argument_text(name: Seq<char>) -> Seq<char> {
    "Missing argument: "@ + name
}

impl ToolInvocation {
    /// The JSON value of argument `name`. Fails with a tool error when the
    /// invocation has no arguments, or when they hold no member `name`
    /// (arguments that are not an object hold no members).
    pub fn arg(&self, name: &str) -> (r: Result<JsonValue, CopilotError>)
        ensures
            match self.arguments {
                None => r is Err && r->Err_0@ == ErrorView::ToolError("No arguments provided"@),
                Some(args) => match field(args@, name@) {
                    None => r is Err && r->Err_0@ == ErrorView::ToolError(
                        missing_argument_text(name@),
                    ),
                    Some(v) => r is Ok && r->Ok_0@ == v,
                },
            },
    {
        match &self.arguments {
            None => Err(CopilotError::ToolError("No arguments provided".to_owned())),
            Some(args) => match args.get(name) {
                None => {
                    let mut m = "Missing argument: ".to_owned();
                    m.append(name);
                    Err(CopilotError::ToolError(m))
                },
                Some(v) => Ok(v.deep_clone()),
            },
        }
    }
}

// -----------------------------------------------------------------------------
// Writing a tool result as JSON
// -----------------------------------------------------------------------------

/// The wire object of a binary result: `data`, `mimeType`, `type`, and
/// `description` when present.
pub open spec fn binary_wire(b: BinaryView) -> JsonView {
    let o = set_field(empty_object(), "data"@, JsonView::Str(b.data));
    let o = set_field(o, "mimeType"@, JsonView::Str(b.mime_type));
    let o = set_field(o, "type"@, JsonView::Str(b.result_type));
    match b.description {
        Some(d) => set_field(o, "description"@, JsonView::Str(d)),
        None => o,
    }
}

/// The wire object of a tool result: `textResultForLlm` and `resultType`,
/// and each optional member when present.
pub open spec fn tool_result_wire(r: ToolResultView) -> JsonView {
    let o = set_field(empty_object(), "textResultForLlm"@, JsonView::Str(r.text));
    let o = match r.binaries {
        Some(bs) => set_field(
            o,
            "binaryResultsForLlm"@,
            JsonView::Array(bs.map_values(|b: BinaryView| binary_wire(b))),
        ),
        None => o,
    };
    let o = set_field(o, "resultType"@, JsonView::Str(r.result_type));
    let o = match r.error {
        Some(e) => set_field(o, "error"@, JsonView::Str(e)),
        None => o,
    };
    let o = match r.session_log {
        Some(l) => set_field(o, "sessionLog"@, JsonView::Str(l)),
        None => o,
    };
    match r.telemetry {
        Some(m) => set_field(o, "toolTelemetry"@, JsonView::Object(m)),
        None => o,
    }
}

impl ToolBinaryResult {
    /// The wire object of this binary result.
    pub fn to_json(&self) -> (r: JsonValue)
        ensures
            r@ == binary_wire(self@),
    {
        let mut o = JsonValue::object();
        o.set("data", JsonValue::string(self.data.as_str()));
        o.set("mimeType", JsonValue::string(self.mime_type.as_str()));
        o.set("type", JsonValue::string(self.result_type.as_str()));
        match &self.description {
            Some(d) => o.set("description", JsonValue::string(d.as_str())),
            None => {},
        }
        o
    }
}

impl ToolResultObject {
    /// The wire object of this tool result.
    pub fn to_json(&self) -> (r: JsonValue)
        ensures
            r@ == tool_result_wire(self@),
    {
        let mut o = JsonValue::object();
        o.set("textResultForLlm", JsonValue::string(self.text_result_for_llm.as_str()));
        match &self.binary_results_for_llm {
            Some(bs) => {
                let mut items: Vec<JsonValue> = Vec::new();
                let mut i: usize = 0;
                while i < bs.len()
                    invariant
                        i <= bs@.len(),
                        items@.len() == i,
                        forall|j: int| 0 <= j < i ==> (#[trigger] items@[j])@ == binary_wire(bs@[j]@),
                    decreases bs.len() - i,
                {
                    items.push(bs[i].to_json());
                    i = i + 1;
                }
                proof {
                    crate::json::lemma_items_view(items@);
                    assert(crate::json::items_view(items@) =~= bs@.map_values(
                        |b: ToolBinaryResult| b@,
                    ).map_values(|b: BinaryView| binary_wire(b)));
                }
                o.set("binaryResultsForLlm", JsonValue::Array(items));
            },
            None => {},
        }
        o.set("resultType", JsonValue::string(self.result_type.as_str()));
        match &self.error {
            Some(e) => o.set("error", JsonValue::string(e.as_str())),
            None => {},
        }
        match &self.session_log {
            Some(l) => o.set("sessionLog", JsonValue::string(l.as_str())),
            None => {},
        }
        match &self.tool_telemetry {
            Some(m) => {
                let mut members: JsonMap = Vec::new();
                let ghost mv = members_view(m@);
                proof {
                    crate::json::lemma_members_view(m@);
                }
                let mut i: usize = 0;
                while i < m.len()
                    invariant
                        i <= m@.len(),
                        mv == members_view(m@),
                        mv.len() == m@.len(),
                        forall|j: int| 0 <= j < m@.len() ==> #[trigger] mv[j] == (m@[j].0@, m@[j].1@),
                        members_view(members@) == mv.take(i as int),
                    decreases m.len() - i,
                {
                    let ghost before = members@;
                    members.push((m[i].0.clone(), m[i].1.deep_clone()));
                    proof {
                        assert(members@.drop_last() == before);
                        assert(members_view(members@) =~= mv.take(i + 1));
                    }
                    i = i + 1;
                }
                proof {
                    assert(mv.take(i as int) =~= mv);
                }
                o.set("toolTelemetry", JsonValue::Object(members));
            },
            None => {},
        }
        o
    }
}

proof fn lemma_get_after_sets(v: JsonView, k: Seq<char>, x: JsonView, other: Seq<char>)
    requires
        v is Object,
    ensures
        set_field(v, k, x) is Object,
        field(set_field(v, k, x), k) == Some(x),
        other != k ==> field(set_field(v, k, x), other) == field(v, other),
{
    crate::json::law_set_then_get(v, k, x, other);
}

proof fn lemma_binary_roundtrip(b: BinaryView)
    ensures
        read_binary(binary_wire(b)) == Some(b),
{
    reveal_strlit("data");
    reveal_strlit("mimeType");
    reveal_strlit("type");
    reveal_strlit("description");
    let k1 = "data"@;
    let k2 = "mimeType"@;
    let k3 = "type"@;
    let k4 = "description"@;
    assert(k1 != k2 && k1 != k3 && k1 != k4 && k2 != k3 && k2 != k4 && k3 != k4) by {
        assert(k1[0] != k3[0]);
        assert(k1.len() != k2.len() && k1.len() != k4.len() && k2.len() != k4.len());
        assert(k3.len() != k2.len() && k3.len() != k4.len());
    }
    let e = empty_object();
    assert(field(e, k4) is None);
    assert(field(e, k3) is None);
    assert(field(e, k2) is None);
    let o1 = set_field(e, k1, JsonView::Str(b.data));
    lemma_get_after_sets(e, k1, JsonView::Str(b.data), k2);
    lemma_get_after_sets(e, k1, JsonView::Str(b.data), k3);
    lemma_get_after_sets(e, k1, JsonView::Str(b.data), k4);
    let o2 = set_field(o1, k2, JsonView::Str(b.mime_type));
    lemma_get_after_sets(o1, k2, JsonView::Str(b.mime_type), k1);
    lemma_get_after_sets(o1, k2, JsonView::Str(b.mime_type), k3);
    lemma_get_after_sets(o1, k2, JsonView::Str(b.mime_type), k4);
    let o3 = set_field(o2, k3, JsonView::Str(b.result_type));
    lemma_get_after_sets(o2, k3, JsonView::Str(b.result_type), k1);
    lemma_get_after_sets(o2, k3, JsonView::Str(b.result_type), k2);
    lemma_get_after_sets(o2, k3, JsonView::Str(b.result_type), k4);
    match b.description {
        Some(d) => {
            lemma_get_after_sets(o3, k4, JsonView::Str(d), k1);
            lemma_get_after_sets(o3, k4, JsonView::Str(d), k2);
            lemma_get_after_sets(o3, k4, JsonView::Str(d), k3);
        },
        None => {},
    }
}

proof fn lemma_binaries_roundtrip(bs: Seq<BinaryView>)
    ensures
        read_binaries(bs.map_values(|b: BinaryView| binary_wire(b))) == Some(bs),
    decreases bs.len(),
{
    let items = bs.map_values(|b: BinaryView| binary_wire(b));
    if bs.len() > 0 {
        lemma_binaries_roundtrip(bs.drop_last());
        assert(items.drop_last() =~= bs.drop_last().map_values(|b: BinaryView| binary_wire(b)));
        lemma_binary_roundtrip(bs.last());
        assert(bs.drop_last().push(bs.last()) =~= bs);
    } else {
        assert(items.len() == 0);
    }
}

/// Law: reading back the wire object of a tool result gives the same result.
#[verifier::rlimit(40)]
pub proof fn law_tool_result_roundtrip(r: ToolResultView)
    ensures
        read_tool_result(tool_result_wire(r)) == Some(r),
        field(tool_result_wire(r), "textResultForLlm"@) == Some(JsonView::Str(r.text)),
        field(tool_result_wire(r), "resultType"@) == Some(JsonView::Str(r.result_type)),
{
    reveal_strlit("textResultForLlm");
    reveal_strlit("binaryResultsForLlm");
    reveal_strlit("resultType");
    reveal_strlit("error");
    reveal_strlit("sessionLog");
    reveal_strlit("toolTelemetry");
    let ks = seq![
        "textResultForLlm"@,
        "binaryResultsForLlm"@,
        "resultType"@,
        "error"@,
        "sessionLog"@,
        "toolTelemetry"@,
    ];
    assert forall|i: int, j: int| 0 <= i < j < 6 implies ks[i] != ks[j] by {
        assert(ks[0].len() == 16 && ks[1].len() == 19 && ks[2].len() == 10 && ks[3].len() == 5
            && ks[4].len() == 10 && ks[5].len() == 13);
        assert(ks[2][0] != ks[4][0]);
    }
    let e = empty_object();
    assert forall|k: Seq<char>| field(e, k) is None by {}
    // text
    let o1 = set_field(e, ks[0], JsonView::Str(r.text));
    assert forall|k: Seq<char>| k != ks[0] implies field(o1, k) == field(e, k) by {
        lemma_get_after_sets(e, ks[0], JsonView::Str(r.text), k);
    }
    lemma_get_after_sets(e, ks[0], JsonView::Str(r.text), ks[0]);
    // binaries
    let o2 = match r.binaries {
        Some(bs) => set_field(
            o1,
            ks[1],
            JsonView::Array(bs.map_values(|b: BinaryView| binary_wire(b))),
        ),
        None => o1,
    };
    match r.binaries {
        Some(bs) => {
            let x = JsonView::Array(bs.map_values(|b: BinaryView| binary_wire(b)));
            assert forall|k: Seq<char>| k != ks[1] implies field(o2, k) == field(o1, k) by {
                lemma_get_after_sets(o1, ks[1], x, k);
            }
            lemma_get_after_sets(o1, ks[1], x, ks[1]);
            lemma_binaries_roundtrip(bs);
        },
        None => {},
    }
    assert(o2 is Object);
    let o3 = set_field(o2, ks[2], JsonView::Str(r.result_type));
    assert forall|k: Seq<char>| k != ks[2] implies field(o3, k) == field(o2, k) by {
        lemma_get_after_sets(o2, ks[2], JsonView::Str(r.result_type), k);
    }
    lemma_get_after_sets(o2, ks[2], JsonView::Str(r.result_type), ks[2]);
    let o4 = match r.error {
        Some(x) => set_field(o3, ks[3], JsonView::Str(x)),
        None => o3,
    };
    match r.error {
        Some(x) => {
            assert forall|k: Seq<char>| k != ks[3] implies field(o4, k) == field(o3, k) by {
                lemma_get_after_sets(o3, ks[3], JsonView::Str(x), k);
            }
            lemma_get_after_sets(o3, ks[3], JsonView::Str(x), ks[3]);
        },
        None => {},
    }
    assert(o4 is Object);
    let o5 = match r.session_log {
        Some(x) => set_field(o4, ks[4], JsonView::Str(x)),
        None => o4,
    };
    match r.session_log {
        Some(x) => {
            assert forall|k: Seq<char>| k != ks[4] implies field(o5, k) == field(o4, k) by {
                lemma_get_after_sets(o4, ks[4], JsonView::Str(x), k);
            }
            lemma_get_after_sets(o4, ks[4], JsonView::Str(x), ks[4]);
        },
        None => {},
    }
    assert(o5 is Object);
    let o6 = match r.telemetry {
        Some(m) => set_field(o5, ks[5], JsonView::Object(m)),
        None => o5,
    };
    match r.telemetry {
        Some(m) => {
            assert forall|k: Seq<char>| k != ks[5] implies field(o6, k) == field(o5, k) by {
                lemma_get_after_sets(o5, ks[5], JsonView::Object(m), k);
            }
            lemma_get_after_sets(o5, ks[5], JsonView::Object(m), ks[5]);
        },
        None => {},
    }
    assert(o6 == tool_result_wire(r));
    assert(field(o6, ks[0]) == Some(JsonView::Str(r.text)));
    assert(field(o6, ks[2]) == Some(JsonView::Str(r.result_type)));
    assert(read_text(field(o6, ks[0])) == Some(r.text));
    assert(read_result_type(field(o6, ks[2])) == Some(r.result_type));
    assert(read_opt_binaries(field(o6, ks[1])) == Some(r.binaries));
    assert(read_opt_text(field(o6, ks[3])) == Some(r.error));
    assert(read_opt_text(field(o6, ks[4])) == Some(r.session_log));
    assert(read_opt_members(field(o6, ks[5])) == Some(r.telemetry));
    let m = o6->Object_0;
    assert(field(o6, ks[0]) == member(m, "textResultForLlm"@));
}

// -----------------------------------------------------------------------------
// Reading an MCP CallToolResult from JSON
// -----------------------------------------------------------------------------

/// The model of an embedded resource.
pub struct ResourceView {
    pub uri: Seq<char>,
    pub mime_type: Option<Seq<char>>,
    pub text: Option<Seq<char>>,
    pub blob: Option<Seq<char>>,
}

/// The model of a content block.
pub enum ContentView {
    Text { text: Seq<char> },
    Image { data: Seq<char>, mime_type: Seq<char> },
    Resource { resource: ResourceView },
}

/// The model of a content block value.
pub open spec fn content_view(c: McpCallToolResultContent) -> ContentView {
    match c {
        McpCallToolResultContent::Text { text } => ContentView::Text { text: text@ },
        McpCallToolResultContent::Image { data, mime_type } => ContentView::Image {
            data: data@,
            mime_type: mime_type@,
        },
        McpCallToolResultContent::Resource { resource } => ContentView::Resource {
            resource: ResourceView {
                uri: resource.uri@,
                mime_type: resource.mime_type.deep_view(),
                text: resource.text.deep_view(),
                blob: resource.blob.deep_view(),
            },
        },
    }
}

/// An embedded resource read from its wire object.
pub open spec fn read_resource_view(v: JsonView) -> Option<ResourceView> {
    match v {
        JsonView::Object(m) => {
            let uri: Option<Seq<char>> = match member(m, "uri"@) {
                None => Some(Seq::empty()),
                Some(JsonView::Str(u)) => Some(u),
                _ => None,
            };
            let mime = read_opt_text(member(m, "mimeType"@));
            let text = read_opt_text(member(m, "text"@));
            let blob = read_opt_text(member(m, "blob"@));
            if uri is Some && mime is Some && text is Some && blob is Some {
                Some(ResourceView { uri: uri->0, mime_type: mime->0, text: text->0, blob: blob->0 })
            } else {
                None
            }
        },
        _ => None,
    }
}

/// A content block read from its wire object, tagged by `type`
/// (`text`, `image` or `resource`).
pub open spec fn read_content_view(v: JsonView) -> Option<ContentView> {
    match v {
        JsonView::Object(m) => {
            let tag = read_text(member(m, "type"@));
            if tag == Some("text"@) {
                match read_text(member(m, "text"@)) {
                    Some(t) => Some(ContentView::Text { text: t }),
                    None => None,
                }
            } else if tag == Some("image"@) {
                match (read_text(member(m, "data"@)), read_text(member(m, "mimeType"@))) {
                    (Some(d), Some(mt)) => Some(ContentView::Image { data: d, mime_type: mt }),
                    _ => None,
                }
            } else if tag == Some("resource"@) {
                match member(m, "resource"@) {
                    Some(r) => match read_resource_view(r) {
                        Some(rv) => Some(ContentView::Resource { resource: rv }),
                        None => None,
                    },
                    None => None,
                }
            } else {
                None
            }
        },
        _ => None,
    }
}

/// Every item read as a content block, or `None` if one does not read.
pub open spec fn read_contents(items: Seq<JsonView>) -> Option<Seq<ContentView>>
    decreases items.len(),
{
    if items.len() == 0 {
        Some(Seq::empty())
    } else {
        match (read_contents(items.drop_last()), read_content_view(items.last())) {
            (Some(prev), Some(c)) => Some(prev.push(c)),
            _ => None,
        }
    }
}

fn read_resource_exec(v: &JsonValue) -> (r: Option<McpCallToolResultResource>)
    ensures
        match r {
            Some(res) => read_resource_view(v@) == Some(
                ResourceView {
                    uri: res.uri@,
                    mime_type: res.mime_type.deep_view(),
                    text: res.text.deep_view(),
                    blob: res.blob.deep_view(),
                },
            ),
            None => read_resource_view(v@) is None,
        },
{
    match v {
        JsonValue::Object(_) => {
            let uri: Option<String> = match v.get("uri") {
                None => Some(String::new()),
                Some(JsonValue::Str(u)) => Some(u.clone()),
                _ => None,
            };
            let mime = read_opt_text_exec(v.get("mimeType"));
            let text = read_opt_text_exec(v.get("text"));
            let blob = read_opt_text_exec(v.get("blob"));
            match (uri, mime, text, blob) {
                (Some(uri), Some(mime_type), Some(text), Some(blob)) => Some(
                    McpCallToolResultResource { uri, mime_type, text, blob },
                ),
                _ => None,
            }
        },
        _ => None,
    }
}

fn read_content_exec(v: &JsonValue) -> (r: Option<McpCallToolResultContent>)
    ensures
        match r {
            Some(c) => read_content_view(v@) == Some(content_view(c)),
            None => read_content_view(v@) is None,
        },
{
    match v {
        JsonValue::Object(_) => {
            let tag = match read_text_exec(v.get("type")) {
                Some(t) => t,
                None => return None,
            };
            proof {
                reveal_strlit("text");
                reveal_strlit("image");
                reveal_strlit("resource");
            }
            if crate::json::str_eq(tag.as_str(), "text") {
                match read_text_exec(v.get("text")) {
                    Some(t) => Some(McpCallToolResultContent::Text { text: t }),
                    None => None,
                }
            } else if crate::json::str_eq(tag.as_str(), "image") {
                match (read_text_exec(v.get("data")), read_text_exec(v.get("mimeType"))) {
                    (Some(data), Some(mime_type)) => Some(McpCallToolResultContent::Image { data, mime_type }),
                    _ => None,
                }
            } else if crate::json::str_eq(tag.as_str(), "resource") {
                match v.get("resource") {
                    Some(rv) => match read_resource_exec(rv) {
                        Some(resource) => Some(McpCallToolResultContent::Resource { resource }),
                        None => None,
                    },
                    None => None,
                }
            } else {
                None
            }
        },
        _ => None,
    }
}

impl McpCallToolResult {
    /// Reads a `CallToolResult` from its wire object: `content` (empty when
    /// absent) is an array of tagged content blocks, `isError` an optional
    /// boolean. `None` when the value does not read.
    pub fn from_json(v: &JsonValue) -> (r: Option<Self>)
        ensures
            match v@ {
                JsonView::Object(m) => {
                    let contents: Option<Seq<ContentView>> = match member(m, "content"@) {
                        None => Some(Seq::empty()),
                        Some(JsonView::Array(items)) => read_contents(items),
                        _ => None,
                    };
                    let is_error: Option<Option<bool>> = match member(m, "isError"@) {
                        None => Some(None),
                        Some(JsonView::Null) => Some(None),
                        Some(JsonView::Bool(b)) => Some(Some(b)),
                        _ => None,
                    };
                    match (contents, is_error) {
                        (Some(cs), Some(e)) => r matches Some(res) && res.content@.map_values(
                            |c: McpCallToolResultContent| content_view(c),
                        ) == cs && res.is_error == e,
                        _ => r is None,
                    }
                },
                _ => r is None,
            },
    {
        match v {
            JsonValue::Object(_) => {},
            _ => return None,
        }
        let content: Vec<McpCallToolResultContent> = match v.get("content") {
            None => Vec::new(),
            Some(JsonValue::Array(items)) => {
                let ghost iv = crate::json::items_view(items@);
                proof {
                    crate::json::lemma_items_view(items@);
                    assert(iv.take(0) =~= Seq::<JsonView>::empty());
                    assert(Seq::<McpCallToolResultContent>::empty().map_values(
                        |c: McpCallToolResultContent| content_view(c),
                    ) =~= Seq::<ContentView>::empty());
                }
                let mut out: Vec<McpCallToolResultContent> = Vec::new();
                let mut i: usize = 0;
                while i < items.len()
                    invariant
                        i <= items@.len(),
                        iv == crate::json::items_view(items@),
                        iv.len() == items@.len(),
                        forall|j: int| 0 <= j < items@.len() ==> #[trigger] iv[j] == items@[j]@,
                        read_contents(iv.take(i as int)) == Some(
                            out@.map_values(|c: McpCallToolResultContent| content_view(c)),
                        ),
                        out@.len() == i,
                        field(v@, "content"@) == Some(JsonView::Array(iv)),
                        v@ is Object,
                    decreases items.len() - i,
                {
                    proof {
                        assert(iv.take(i + 1).drop_last() =~= iv.take(i as int));
                        assert(iv.take(i + 1).last() == iv[i as int]);
                    }
                    match read_content_exec(&items[i]) {
                        Some(c) => {
                            let ghost before = out@;
                            out.push(c);
                            proof {
                                assert(out@.map_values(|c: McpCallToolResultContent| content_view(c))
                                    =~= before.map_values(|c: McpCallToolResultContent| content_view(c)).push(
                                    content_view(out@[i as int]),
                                ));
                            }
                        },
                        None => {
                            proof {
                                lemma_read_contents_prefix(iv, i as int + 1);
                            }
                            return None;
                        },
                    }
                    i = i + 1;
                }
                proof {
                    assert(iv.take(i as int) =~= iv);
                }
                out
            },
            _ => return None,
        };
        proof {
            assert(content@.map_values(|c: McpCallToolResultContent| content_view(c)).len() == content@.len());
        }
        let is_error: Option<bool> = match v.get("isError") {
            None => None,
            Some(JsonValue::Null) => None,
            Some(JsonValue::Bool(b)) => Some(*b),
            _ => return None,
        };
        Some(McpCallToolResult { content, is_error })
    }
}

/// Once a prefix fails to read, every longer prefix fails too.
proof fn lemma_read_contents_prefix(items: Seq<JsonView>, k: int)
    requires
        0 <= k <= items.len(),
        read_contents(items.take(k)) is None,
    ensures
        read_contents(items) is None,
    decreases items.len() - k,
{
    if k < items.len() {
        assert(items.take(k + 1).drop_last() =~= items.take(k));
        lemma_read_contents_prefix(items, k + 1);
    } else {
        assert(items.take(k) =~= items);
    }
}

/// Law: normalizing the wire object of a tool result gives back that result.
pub proof fn law_normalize_tool_result_wire(r: ToolResultView)
    ensures
        normalized_result(tool_result_wire(r)) == r,
{
    law_tool_result_roundtrip(r);
    let w = tool_result_wire(r);
    assert(w is Object);
    assert(looks_like_tool_result(w));
}

} // verus!
