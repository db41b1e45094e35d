//! Core SDK types that carry rules: system-message customization,
//! permission results, host capabilities, elicitation results, plan-mode
//! and auto-mode answers, message options and session hooks.
use crate::json::{JsonMap, JsonValue};
use crate::keyed::NamedMap;
use vstd::prelude::*;
use vstd::string::*;

verus! {

// =============================================================================
// System message sections
// =============================================================================

/// Known system message section identifiers for the "customize" mode. Each
/// corresponds to a distinct part of the system prompt.
#[derive(Debug, Clone, Copy, PartialEq, Eq, Hash, Structural)]
pub enum SystemMessageSection {
    /// Agent identity preamble and mode statement.
    Identity,
    /// Response style, conciseness rules, output formatting preferences.
    Tone,
    /// Tool usage patterns, parallel calling, batching guidelines.
    ToolEfficiency,
    /// CWD, OS, git root, directory listing, available tools.
    EnvironmentContext,
    /// Coding rules, linting/testing, ecosystem tools, style.
    CodeChangeRules,
    /// Tips, behavioral best practices, behavioral guidelines.
    Guidelines,
    /// Environment limitations, prohibited actions, security policies.
    Safety,
    /// Per-tool usage instructions.
    ToolInstructions,
    /// Repository and organization custom instructions.
    CustomInstructions,
    /// Runtime-provided context and instructions.
    RuntimeInstructions,
    /// End-of-prompt instructions: parallel tool calling, persistence, task completion.
    LastInstructions,
}

/// The wire id of a section.
pub open spec fn section_id(s: SystemMessageSection) -> Seq<char> {
    match s {
        SystemMessageSection::Identity => "identity"@,
        SystemMessageSection::Tone => "tone"@,
        SystemMessageSection::ToolEfficiency => "tool_efficiency"@,
        SystemMessageSection::EnvironmentContext => "environment_context"@,
        SystemMessageSection::CodeChangeRules => "code_change_rules"@,
        SystemMessageSection::Guidelines => "guidelines"@,
        SystemMessageSection::Safety => "safety"@,
        SystemMessageSection::ToolInstructions => "tool_instructions"@,
        SystemMessageSection::CustomInstructions => "custom_instructions"@,
        SystemMessageSection::RuntimeInstructions => "runtime_instructions"@,
        SystemMessageSection::LastInstructions => "last_instructions"@,
    }
}

/// The human-readable description of a section.
pub open spec fn section_description(s: SystemMessageSection) -> Seq<char> {
    match s {
        SystemMessageSection::Identity => "Agent identity preamble and mode statement"@,
        SystemMessageSection::Tone => "Response style, conciseness rules, output formatting preferences"@,
        SystemMessageSection::ToolEfficiency => "Tool usage patterns, parallel calling, batching guidelines"@,
        SystemMessageSection::EnvironmentContext => "CWD, OS, git root, directory listing, available tools"@,
        SystemMessageSection::CodeChangeRules => "Coding rules, linting/testing, ecosystem tools, style"@,
        SystemMessageSection::Guidelines => "Tips, behavioral best practices, behavioral guidelines"@,
        SystemMessageSection::Safety => "Environment limitations, prohibited actions, security policies"@,
        SystemMessageSection::ToolInstructions => "Per-tool usage instructions"@,
        SystemMessageSection::CustomInstructions => "Repository and organization custom instructions"@,
        SystemMessageSection::RuntimeInstructions => "Runtime-provided context and instructions (e.g. system notifications, memories, workspace context, mode-specific instructions, content-exclusion policy)"@,
        SystemMessageSection::LastInstructions => "End-of-prompt instructions: parallel tool calling, persistence, task completion"@,
    }
}

/// All sections, in system-prompt order.
pub open spec fn all_sections() -> Seq<SystemMessageSection> {
    seq![
        SystemMessageSection::Identity,
        SystemMessageSection::Tone,
        SystemMessageSection::ToolEfficiency,
        SystemMessageSection::EnvironmentContext,
        SystemMessageSection::CodeChangeRules,
        SystemMessageSection::Guidelines,
        SystemMessageSection::Safety,
        SystemMessageSection::ToolInstructions,
        SystemMessageSection::CustomInstructions,
        SystemMessageSection::RuntimeInstructions,
        SystemMessageSection::LastInstructions,
    ]
}

impl SystemMessageSection {
    /// All known sections, in system-prompt order.
    pub const ALL: &'static [SystemMessageSection; 11] = &[
        SystemMessageSection::Identity,
        SystemMessageSection::Tone,
        SystemMessageSection::ToolEfficiency,
        SystemMessageSection::EnvironmentContext,
        SystemMessageSection::CodeChangeRules,
        SystemMessageSection::Guidelines,
        SystemMessageSection::Safety,
        SystemMessageSection::ToolInstructions,
        SystemMessageSection::CustomInstructions,
        SystemMessageSection::RuntimeInstructions,
        SystemMessageSection::LastInstructions,
    ];

    /// The wire section id (e.g. `tool_efficiency`).
    pub fn id(self) -> (r: &'static str)
        ensures
            r@ == section_id(self),
    {
        match self {
            SystemMessageSection::Identity => "identity",
            SystemMessageSection::Tone => "tone",
            SystemMessageSection::ToolEfficiency => "tool_efficiency",
            SystemMessageSection::EnvironmentContext => "environment_context",
            SystemMessageSection::CodeChangeRules => "code_change_rules",
            SystemMessageSection::Guidelines => "guidelines",
            SystemMessageSection::Safety => "safety",
            SystemMessageSection::ToolInstructions => "tool_instructions",
            SystemMessageSection::CustomInstructions => "custom_instructions",
            SystemMessageSection::RuntimeInstructions => "runtime_instructions",
            SystemMessageSection::LastInstructions => "last_instructions",
        }
    }

    /// Human-readable description of the section, for documentation and tooling.
    pub fn description(self) -> (r: &'static str)
        ensures
            r@ == section_description(self),
    {
        match self {
            SystemMessageSection::Identity => "Agent identity preamble and mode statement",
            SystemMessageSection::Tone => "Response style, conciseness rules, output formatting preferences",
            SystemMessageSection::ToolEfficiency => "Tool usage patterns, parallel calling, batching guidelines",
            SystemMessageSection::EnvironmentContext => "CWD, OS, git root, directory listing, available tools",
            SystemMessageSection::CodeChangeRules => "Coding rules, linting/testing, ecosystem tools, style",
            SystemMessageSection::Guidelines => "Tips, behavioral best practices, behavioral guidelines",
            SystemMessageSection::Safety => "Environment limitations, prohibited actions, security policies",
            SystemMessageSection::ToolInstructions => "Per-tool usage instructions",
            SystemMessageSection::CustomInstructions => "Repository and organization custom instructions",
            SystemMessageSection::RuntimeInstructions => "Runtime-provided context and instructions (e.g. system notifications, memories, workspace context, mode-specific instructions, content-exclusion policy)",
            SystemMessageSection::LastInstructions => "End-of-prompt instructions: parallel tool calling, persistence, task completion",
        }
    }
}

/// Returns section metadata (section + description) for all system message
/// sections, in system-prompt order.
pub fn system_message_sections() -> (r: Vec<(SystemMessageSection, &'static str)>)
    ensures
        r@.len() == all_sections().len(),
        forall|i: int|
            0 <= i < r@.len() ==> (#[trigger] r@[i]).0 == all_sections()[i] && r@[i].1@
                == section_description(all_sections()[i]),
{
    let all = SystemMessageSection::ALL;
    let mut out: Vec<(SystemMessageSection, &'static str)> = Vec::new();
    let mut i: usize = 0;
    proof {
        assert(all@ == all_sections());
    }
    while i < 11
        invariant
            i <= 11,
            all@ == all_sections(),
            out@.len() == i,
            forall|j: int|
                0 <= j < i ==> (#[trigger] out@[j]).0 == all_sections()[j] && out@[j].1@
                    == section_description(all_sections()[j]),
        decreases 11 - i,
    {
        let s = all[i];
        out.push((s, s.description()));
        i = i + 1;
    }
    out
}

/// Law: every section has its own wire id.
pub proof fn law_section_ids_distinct(a: SystemMessageSection, b: SystemMessageSection)
    ensures
        section_id(a) == section_id(b) ==> a == b,
{
    reveal_strlit("identity");
    reveal_strlit("tone");
    reveal_strlit("tool_efficiency");
    reveal_strlit("environment_context");
    reveal_strlit("code_change_rules");
    reveal_strlit("guidelines");
    reveal_strlit("safety");
    reveal_strlit("tool_instructions");
    reveal_strlit("custom_instructions");
    reveal_strlit("runtime_instructions");
    reveal_strlit("last_instructions");
    if section_id(a) == section_id(b) && a != b {
        assert(section_id(a).len() == section_id(b).len());
        assert(section_id(a)[0] == section_id(b)[0]);
        assert(section_id(a)[1] == section_id(b)[1]);
        assert(section_id(a)[5] == section_id(b)[5]);
    }
}

// =============================================================================
// Section overrides
// =============================================================================

/// The operation applied to a single system message section in "customize" mode.
#[derive(Debug, Clone, Copy, PartialEq, Eq, Structural)]
pub enum SectionOverrideAction {
    /// Replace section content entirely.
    Replace,
    /// Remove the section.
    Remove,
    /// Append to existing section content.
    Append,
    /// Prepend to existing section content.
    Prepend,
    /// Run a client-side callback over the section's rendered content.
    Transform,
}

/// The wire name of an override action.
pub open spec fn action_wire_name(a: SectionOverrideAction) -> Seq<char> {
    match a {
        SectionOverrideAction::Replace => "replace"@,
        SectionOverrideAction::Remove => "remove"@,
        SectionOverrideAction::Append => "append"@,
        SectionOverrideAction::Prepend => "prepend"@,
        SectionOverrideAction::Transform => "transform"@,
    }
}

/// The wire object of a section override: `action`, then `content` when set.
pub open spec fn section_override_wire(action: SectionOverrideAction, content: Option<Seq<char>>) -> crate::json::JsonView {
    let o = crate::json::set_field(
        crate::json::empty_object(),
        "action"@,
        crate::json::JsonView::Str(action_wire_name(action)),
    );
    match content {
        Some(c) => crate::json::set_field(o, "content"@, crate::json::JsonView::Str(c)),
        None => o,
    }
}

impl SectionOverrideAction {
    /// The wire name (`replace`, `remove`, `append`, `prepend`, `transform`).
    pub fn wire_name(self) -> (r: &'static str)
        ensures
            r@ == action_wire_name(self),
    {
        match self {
            SectionOverrideAction::Replace => "replace",
            SectionOverrideAction::Remove => "remove",
            SectionOverrideAction::Append => "append",
            SectionOverrideAction::Prepend => "prepend",
            SectionOverrideAction::Transform => "transform",
        }
    }
}

/// Law: each section override action goes on the wire under its lowercase
/// name (`replace`, `remove`, `append`, `prepend`, `transform`), two
/// different actions never share a name, and the wire object of an override
/// holds that name under `action` and its content, when set, under `content`.
pub proof fn law_section_override_wire_names(
    a: SectionOverrideAction,
    b: SectionOverrideAction,
    content: Option<Seq<char>>,
)
    ensures
        action_wire_name(SectionOverrideAction::Replace) == "replace"@,
        action_wire_name(SectionOverrideAction::Remove) == "remove"@,
        action_wire_name(SectionOverrideAction::Append) == "append"@,
        action_wire_name(SectionOverrideAction::Prepend) == "prepend"@,
        action_wire_name(SectionOverrideAction::Transform) == "transform"@,
        a != b ==> action_wire_name(a) != action_wire_name(b),
        crate::json::field(section_override_wire(a, content), "action"@) == Some(
            crate::json::JsonView::Str(action_wire_name(a)),
        ),
        crate::json::field(section_override_wire(a, content), "content"@) == match content {
            Some(c) => Some(crate::json::JsonView::Str(c)),
            None => None,
        },
{
    reveal_strlit("replace");
    reveal_strlit("remove");
    reveal_strlit("append");
    reveal_strlit("prepend");
    reveal_strlit("transform");
    reveal_strlit("action");
    reveal_strlit("content");
    let names: Seq<Seq<char>> = seq!["replace"@, "remove"@, "append"@, "prepend"@, "transform"@];
    assert(names[0][0] == 'r' && names[0][2] == 'p');
    assert(names[1][0] == 'r' && names[1][2] == 'm');
    assert(names[2][0] == 'a');
    assert(names[3][0] == 'p');
    assert(names[4][0] == 't');
    assert(names[0].len() != names[1].len());
    let act: Seq<char> = "action"@;
    let con: Seq<char> = "content"@;
    assert(act[0] != con[0]);
    let o = crate::json::set_field(
        crate::json::empty_object(),
        act,
        crate::json::JsonView::Str(action_wire_name(a)),
    );
    crate::json::law_set_then_get(
        crate::json::empty_object(),
        act,
        crate::json::JsonView::Str(action_wire_name(a)),
        con,
    );
    match content {
        Some(c) => {
            crate::json::law_set_then_get(o, con, crate::json::JsonView::Str(c), act);
        },
        None => {},
    }
}

/// Override operation for a single system message section. `F` is the type
/// of the transform callback, which only the transform action carries.
pub struct SectionOverride<F> {
    /// The operation to perform on this section.
    pub action: SectionOverrideAction,
    /// Content for the override. Optional for all actions; ignored for `remove`.
    pub content: Option<String>,
    /// Callback invoked when `action` is [`SectionOverrideAction::Transform`].
    pub transform: Option<F>,
}

impl<F> SectionOverride<F> {
    /// Replace the section content with `content`.
    pub fn replace(content: &str) -> (r: Self)
        ensures
            r.action == SectionOverrideAction::Replace,
            r.content.deep_view() == Some(content@),
            r.transform is None,
    {
        SectionOverride {
            action: SectionOverrideAction::Replace,
            content: Some(content.to_owned()),
            transform: None,
        }
    }

    /// Remove the section.
    pub fn remove() -> (r: Self)
        ensures
            r.action == SectionOverrideAction::Remove,
            r.content is None,
            r.transform is None,
    {
        SectionOverride { action: SectionOverrideAction::Remove, content: None, transform: None }
    }

    /// Append `content` to the section.
    pub fn append(content: &str) -> (r: Self)
        ensures
            r.action == SectionOverrideAction::Append,
            r.content.deep_view() == Some(content@),
            r.transform is None,
    {
        SectionOverride {
            action: SectionOverrideAction::Append,
            content: Some(content.to_owned()),
            transform: None,
        }
    }

    /// Prepend `content` to the section.
    pub fn prepend(content: &str) -> (r: Self)
        ensures
            r.action == SectionOverrideAction::Prepend,
            r.content.deep_view() == Some(content@),
            r.transform is None,
    {
        SectionOverride {
            action: SectionOverrideAction::Prepend,
            content: Some(content.to_owned()),
            transform: None,
        }
    }

    /// Transform the rendered section content with a client-side callback.
    pub fn transform(callback: F) -> (r: Self)
        ensures
            r.action == SectionOverrideAction::Transform,
            r.content is None,
            r.transform == Some(callback),
    {
        SectionOverride {
            action: SectionOverrideAction::Transform,
            content: None,
            transform: Some(callback),
        }
    }

    /// Returns the transform callback when this override uses
    /// [`SectionOverrideAction::Transform`].
    pub fn transform_fn(&self) -> (r: Option<&F>)
        ensures
            r == (if self.action == SectionOverrideAction::Transform {
                match &self.transform {
                    Some(f) => Some(f),
                    None => None,
                }
            } else {
                None::<&F>
            }),
    {
        if self.action == SectionOverrideAction::Transform {
            match &self.transform {
                Some(f) => Some(f),
                None => None,
            }
        } else {
            None
        }
    }

    /// The override's wire object: its `action` under its wire name and its
    /// `content` when set. The transform callback never crosses the wire.
    pub fn to_json(&self) -> (r: JsonValue)
        ensures
            r@ == section_override_wire(self.action, self.content.deep_view()),
    {
        let mut o = JsonValue::object();
        o.set("action", JsonValue::string(self.action.wire_name()));
        match &self.content {
            Some(c) => o.set("content", JsonValue::string(c.as_str())),
            None => {},
        }
        o
    }

    /// A debug rendering that shows the action and content and only whether
    /// a callback is present, never the callback itself.
    pub fn debug_text(&self) -> (r: String)
        ensures
            r@ == "SectionOverride { action: "@ + action_debug_name(self.action) + ", content: "@
                + opt_debug_text(self.content.deep_view()) + ", transform: "@ + (if self.transform
                is Some {
                "Some(\"Fn(...)\")"@
            } else {
                "None"@
            }) + " }"@,
    {
        let mut s = "SectionOverride { action: ".to_owned();
        s.append(action_debug_str(self.action));
        s.append(", content: ");
        let c = opt_debug_string(&self.content);
        s.append(c.as_str());
        s.append(", transform: ");
        if self.transform.is_some() {
            s.append("Some(\"Fn(...)\")");
        } else {
            s.append("None");
        }
        s.append(" }");
        s
    }
}

/// The variant name of an override action, as `Debug` writes it.
pub open spec fn action_debug_name(a: SectionOverrideAction) -> Seq<char> {
    match a {
        SectionOverrideAction::Replace => "Replace"@,
        SectionOverrideAction::Remove => "Remove"@,
        SectionOverrideAction::Append => "Append"@,
        SectionOverrideAction::Prepend => "Prepend"@,
        SectionOverrideAction::Transform => "Transform"@,
    }
}

fn action_debug_str(a: SectionOverrideAction) -> (r: &'static str)
    ensures
        r@ == action_debug_name(a),
{
    match a {
        SectionOverrideAction::Replace => "Replace",
        SectionOverrideAction::Remove => "Remove",
        SectionOverrideAction::Append => "Append",
        SectionOverrideAction::Prepend => "Prepend",
        SectionOverrideAction::Transform => "Transform",
    }
}

/// An optional text as `Debug` writes it when the text needs no escaping:
/// `None` or `Some("...")`.
pub open spec fn opt_debug_text(v: Option<Seq<char>>) -> Seq<char> {
    match v {
        None => "None"@,
        Some(t) => "Some(\""@ + t + "\")"@,
    }
}

fn opt_debug_string(v: &Option<String>) -> (r: String)
    ensures
        r@ == opt_debug_text(v.deep_view()),
{
    match v {
        None => "None".to_owned(),
        Some(t) => {
            let mut s = "Some(\"".to_owned();
            s.append(t.as_str());
            s.append("\")");
            s
        },
    }
}

// =============================================================================
// System message configuration
// =============================================================================

/// How the system message is customized.
#[derive(Debug, Clone, Copy, PartialEq, Eq, Structural)]
pub enum SystemMessageMode {
    /// Append to the default system message.
    Append,
    /// Replace the default system message.
    Replace,
    /// Apply per-section overrides.
    Customize,
}

/// System message configuration.
pub struct SystemMessageConfig<F> {
    pub mode: Option<SystemMessageMode>,
    pub content: Option<String>,
    /// Section-level overrides, used with [`SystemMessageMode::Customize`],
    /// keyed by the section id (e.g. `tool_efficiency`).
    pub sections: Option<NamedMap<SectionOverride<F>>>,
}

impl<F> SystemMessageConfig<F> {
    /// Append-mode config with additional instructions.
    pub fn append(content: &str) -> (r: Self)
        ensures
            r.mode == Some(SystemMessageMode::Append),
            r.content.deep_view() == Some(content@),
            r.sections is None,
    {
        SystemMessageConfig {
            mode: Some(SystemMessageMode::Append),
            content: Some(content.to_owned()),
            sections: None,
        }
    }

    /// Replace-mode config with a complete system message.
    pub fn replace(content: &str) -> (r: Self)
        ensures
            r.mode == Some(SystemMessageMode::Replace),
            r.content.deep_view() == Some(content@),
            r.sections is None,
    {
        SystemMessageConfig {
            mode: Some(SystemMessageMode::Replace),
            content: Some(content.to_owned()),
            sections: None,
        }
    }

    /// Customize-mode config with per-section overrides.
    pub fn customize(sections: NamedMap<SectionOverride<F>>) -> (r: Self)
        ensures
            r.mode == Some(SystemMessageMode::Customize),
            r.content is None,
            r.sections == Some(sections),
    {
        SystemMessageConfig {
            mode: Some(SystemMessageMode::Customize),
            content: None,
            sections: Some(sections),
        }
    }

    /// Add or replace a section override, returning `self` for chaining.
    /// A config without a mode becomes a customize config; one with a mode
    /// keeps it.
    pub fn with_section(self, section: SystemMessageSection, override_: SectionOverride<F>) -> (r:
        Self)
        ensures
            r.mode == (match self.mode {
                Some(m) => Some(m),
                None => Some(SystemMessageMode::Customize),
            }),
            r.content == self.content,
            r.sections is Some,
            r.sections->0.view() == (match self.sections {
                Some(m) => m.view(),
                None => Map::<Seq<char>, SectionOverride<F>>::empty(),
            }).insert(section_id(section), override_),
    {
        let mut c = self;
        if c.mode.is_none() {
            c.mode = Some(SystemMessageMode::Customize);
        }
        let mut sections = match c.sections {
            Some(m) => m,
            None => NamedMap::new(),
        };
        sections.insert(section.id().to_owned(), override_);
        SystemMessageConfig { mode: c.mode, content: c.content, sections: Some(sections) }
    }
}

// =============================================================================
// Permissions
// =============================================================================

/// Permission request from the server.
#[derive(Debug)]
pub struct PermissionRequest {
    pub kind: String,
    pub tool_call_id: Option<String>,
    /// Every other member of the request, by name.
    pub extension_data: JsonMap,
}

/// Result of a permission request (response to CLI).
#[derive(Debug)]
pub struct PermissionRequestResult {
    pub kind: String,
    pub rules: Option<Vec<JsonValue>>,
}

/// The wire kind of a default denial.
pub open spec fn denied_kind() -> Seq<char> {
    "denied-no-approval-rule-and-could-not-request-from-user"@
}

impl PermissionRequestResult {
    /// Create an approved permission result.
    pub fn approved() -> (r: Self)
        ensures
            r.kind@ == "approved"@,
            r.rules is None,
    {
        PermissionRequestResult { kind: "approved".to_owned(), rules: None }
    }

    /// Create a denied permission result.
    pub fn denied() -> (r: Self)
        ensures
            r.kind@ == denied_kind(),
            r.rules is None,
    {
        PermissionRequestResult {
            kind: "denied-no-approval-rule-and-could-not-request-from-user".to_owned(),
            rules: None,
        }
    }

    /// Returns true if the permission was approved.
    pub fn is_approved(&self) -> (r: bool)
        ensures
            r == (self.kind@ == "approved"@),
    {
        crate::json::str_eq(self.kind.as_str(), "approved")
    }

    /// Returns true if the permission was denied: its kind starts with `denied`.
    pub fn is_denied(&self) -> (r: bool)
        ensures
            r == (self.kind@.len() >= 6 && self.kind@.take(6) == "denied"@),
    {
        proof {
            reveal_strlit("denied");
        }
        let k = self.kind.as_str();
        if k.unicode_len() < 6 {
            return false;
        }
        let prefix = k.substring_char(0, 6);
        crate::json::str_eq(prefix, "denied")
    }

    /// Approve this single request without creating a persistent rule.
    /// Wire kind: `approve-once`.
    pub fn approve_once() -> (r: Self)
        ensures
            r.kind@ == "approve-once"@,
            r.rules is None,
    {
        PermissionRequestResult { kind: "approve-once".to_owned(), rules: None }
    }

    /// Reject this request. Wire kind: `reject`.
    pub fn reject() -> (r: Self)
        ensures
            r.kind@ == "reject"@,
            r.rules is None,
    {
        PermissionRequestResult { kind: "reject".to_owned(), rules: None }
    }

    /// Decline to decide, deferring to the host's default handling.
    /// Wire kind: `no-result`.
    pub fn no_result() -> (r: Self)
        ensures
            r.kind@ == "no-result"@,
            r.rules is None,
    {
        PermissionRequestResult { kind: "no-result".to_owned(), rules: None }
    }
}

/// Permission handler that approves every request once (never persisting a rule).
pub fn approve_all(_request: &PermissionRequest) -> (r: PermissionRequestResult)
    ensures
        r.kind@ == "approve-once"@,
        r.rules is None,
{
    PermissionRequestResult::approve_once()
}

/// Default permission handler when joining a session: returns `no-result`,
/// deferring the decision to the host session that owns the permission prompt.
pub fn default_join_session_permission_handler(_request: &PermissionRequest) -> (r:
    PermissionRequestResult)
    ensures
        r.kind@ == "no-result"@,
        r.rules is None,
{
    PermissionRequestResult::no_result()
}

// =============================================================================
// Host capabilities
// =============================================================================

/// UI capabilities reported by the CLI host for a session.
#[derive(Debug, Clone, Copy, PartialEq, Eq, Default, Structural)]
pub struct UiCapabilities {
    /// Whether the host supports interactive elicitation dialogs.
    pub elicitation: Option<bool>,
    /// Whether the runtime accepted the session's MCP Apps opt-in.
    pub mcp_apps: Option<bool>,
    /// Whether the host supports canvas rendering.
    pub canvases: Option<bool>,
}

/// Capabilities reported by the CLI host for a session.
#[derive(Debug, Clone, Copy, PartialEq, Eq, Default, Structural)]
pub struct SessionCapabilities {
    /// UI capabilities, when reported by the host.
    pub ui: Option<UiCapabilities>,
}

impl SessionCapabilities {
    /// Returns `true` if the host reported support for interactive elicitation.
    pub fn supports_elicitation(&self) -> (r: bool)
        ensures
            r == (self.ui matches Some(ui) && ui.elicitation == Some(true)),
    {
        match self.ui {
            Some(ui) => match ui.elicitation {
                Some(b) => b,
                None => false,
            },
            None => false,
        }
    }

    /// Returns `true` if the host reported support for canvas rendering.
    pub fn supports_canvases(&self) -> (r: bool)
        ensures
            r == (self.ui matches Some(ui) && ui.canvases == Some(true)),
    {
        match self.ui {
            Some(ui) => match ui.canvases {
                Some(b) => b,
                None => false,
            },
            None => false,
        }
    }

    /// Folds a `capabilities.changed` payload into these capabilities: a
    /// payload that carries `ui` replaces the cached `ui` wholesale; one that
    /// omits it leaves the cached value untouched.
    pub fn merge_changed(&mut self, changed_ui: Option<UiCapabilities>)
        ensures
            final(self).ui == (match changed_ui {
                Some(ui) => Some(ui),
                None => old(self).ui,
            }),
    {
        match changed_ui {
            Some(ui) => {
                self.ui = Some(ui);
            },
            None => {},
        }
    }
}

// =============================================================================
// Elicitation
// =============================================================================

/// Elicitation mode: structured form input or browser redirect.
#[derive(Debug, Clone, Copy, PartialEq, Eq, Structural)]
pub enum ElicitationMode {
    /// Structured form input.
    Form,
    /// Browser redirect (URL mode).
    Url,
}

/// The mode a wire mode name stands for: `url` is URL mode, any other name form mode.
pub open spec fn mode_of_name(name: Seq<char>) -> ElicitationMode {
    if name == "url"@ {
        ElicitationMode::Url
    } else {
        ElicitationMode::Form
    }
}

impl ElicitationMode {
    /// The mode named on the wire; names other than `url` are form mode.
    pub fn from_wire_name(name: &str) -> (r: Self)
        ensures
            r == mode_of_name(name@),
    {
        if crate::json::str_eq(name, "url") {
            ElicitationMode::Url
        } else {
            ElicitationMode::Form
        }
    }
}

/// Result returned from an elicitation request.
#[derive(Debug)]
pub struct ElicitationResult {
    /// User action: `accept` (submitted), `decline` (rejected), or `cancel` (dismissed).
    pub action: String,
    /// Form values submitted by the user (present when action is `accept`).
    pub content: Option<JsonMap>,
}

impl ElicitationResult {
    /// Construct a `cancel` result (used as a fallback when a handler fails).
    pub fn cancel() -> (r: Self)
        ensures
            r.action@ == "cancel"@,
            r.content is None,
    {
        ElicitationResult { action: "cancel".to_owned(), content: None }
    }

    /// Returns `true` if the user accepted (submitted) the form.
    pub fn is_accept(&self) -> (r: bool)
        ensures
            r == (self.action@ == "accept"@),
    {
        crate::json::str_eq(self.action.as_str(), "accept")
    }

    /// Reads a result from its wire object: a string `action` and an
    /// optional (`null` or absent) object `content`.
    pub fn from_json(v: &JsonValue) -> (r: Result<Self, crate::error::CopilotError>)
        ensures
            match (crate::json::str_field(v@, "action"@), crate::json::field(v@, "content"@)) {
                (Some(a), None) => r matches Ok(e) && e.action@ == a && e.content is None,
                (Some(a), Some(crate::json::JsonView::Null)) => r matches Ok(e) && e.action@ == a
                    && e.content is None,
                (Some(a), Some(crate::json::JsonView::Object(m))) => r matches Ok(e) && e.action@ == a
                    && (e.content matches Some(c) && crate::json::members_view(c@) == m),
                _ => r matches Err(e) && e@ is Json,
            },
    {
        let action = match v.get_str("action") {
            Some(a) => a,
            None => return Err(crate::error::CopilotError::Json("missing field `action`".to_owned())),
        };
        match v.get("content") {
            None => Ok(ElicitationResult { action, content: None }),
            Some(JsonValue::Null) => Ok(ElicitationResult { action, content: None }),
            Some(c @ JsonValue::Object(_)) => match c.deep_clone() {
                JsonValue::Object(m) => Ok(ElicitationResult { action, content: Some(m) }),
                _ => Err(crate::error::CopilotError::Json("invalid type for `content`".to_owned())),
            },
            Some(_) => Err(crate::error::CopilotError::Json("invalid type for `content`".to_owned())),
        }
    }
}

/// Context for an elicitation handler invocation.
#[derive(Debug)]
pub struct ElicitationContext {
    /// Identifier of the session that triggered the elicitation request.
    pub session_id: String,
    /// Message describing what information is needed from the user.
    pub message: String,
    /// JSON Schema describing the form fields to present (form mode only).
    pub requested_schema: Option<JsonValue>,
    /// Elicitation mode.
    pub mode: Option<ElicitationMode>,
    /// The source that initiated the request (e.g. an MCP server name).
    pub elicitation_source: Option<String>,
    /// URL to open in the user's browser (url mode only).
    pub url: Option<String>,
}

/// Parameters for a raw elicitation request.
#[derive(Debug)]
pub struct ElicitationParams {
    /// Message describing what information is needed from the user.
    pub message: String,
    /// JSON Schema describing the form fields to present.
    pub requested_schema: JsonValue,
}

/// Options for the text input dialog.
#[derive(Debug, Clone, Default, PartialEq, Eq)]
pub struct UiInputOptions {
    /// Title label for the input field.
    pub title: Option<String>,
    /// Descriptive text shown below the field.
    pub description: Option<String>,
    /// Minimum character length.
    pub min_length: Option<u64>,
    /// Maximum character length.
    pub max_length: Option<u64>,
    /// Semantic format hint (`email`, `uri`, `date`, `date-time`).
    pub format: Option<String>,
    /// Default value pre-populated in the field.
    pub default: Option<String>,
}

// =============================================================================
// Exit plan mode and auto mode
// =============================================================================

/// Request to exit plan mode, awaiting the user's approval decision.
#[derive(Debug, Clone, PartialEq, Eq)]
pub struct ExitPlanModeRequest {
    /// Summary of the plan or proposed next step.
    pub summary: String,
    /// Full plan content, when available.
    pub plan_content: Option<String>,
    /// Available actions the user can select.
    pub actions: Vec<String>,
    /// The action recommended by the runtime.
    pub recommended_action: Option<String>,
}

/// Response to an exit-plan-mode request.
#[derive(Debug, Clone, PartialEq, Eq)]
pub struct ExitPlanModeResult {
    /// Whether the user approved exiting plan mode.
    pub approved: bool,
    /// Selected action, if the user chose one.
    pub selected_action: Option<String>,
    /// Optional feedback provided by the user.
    pub feedback: Option<String>,
}

impl Default for ExitPlanModeResult {
    /// Approves, with no action selected and no feedback.
    fn default() -> (r: Self)
        ensures
            r.approved,
            r.selected_action is None,
            r.feedback is None,
    {
        ExitPlanModeResult { approved: true, selected_action: None, feedback: None }
    }
}

/// Request to switch to auto mode after an eligible rate limit.
#[derive(Debug, Clone, Default, PartialEq, Eq)]
pub struct AutoModeSwitchRequest {
    /// The rate-limit error code that triggered the request.
    pub error_code: Option<String>,
    /// Seconds until the rate limit resets, when known.
    pub retry_after_seconds: Option<i64>,
}

/// Response to an auto-mode-switch request.
#[derive(Debug, Clone, Copy, PartialEq, Eq, Structural)]
pub enum AutoModeSwitchResponse {
    /// Allow the switch for this turn only.
    Yes,
    /// Allow the switch and persist it as a setting.
    YesAlways,
    /// Decline the switch.
    No,
}

impl Default for AutoModeSwitchResponse {
    /// Declines.
    fn default() -> (r: Self)
        ensures
            r == AutoModeSwitchResponse::No,
    {
        AutoModeSwitchResponse::No
    }
}

/// The wire name of an auto-mode-switch response.
pub open spec fn auto_mode_wire_name(r: AutoModeSwitchResponse) -> Seq<char> {
    match r {
        AutoModeSwitchResponse::Yes => "yes"@,
        AutoModeSwitchResponse::YesAlways => "yes_always"@,
        AutoModeSwitchResponse::No => "no"@,
    }
}

impl AutoModeSwitchResponse {
    /// The wire name (`yes`, `yes_always`, `no`).
    pub fn wire_name(self) -> (r: &'static str)
        ensures
            r@ == auto_mode_wire_name(self),
    {
        match self {
            AutoModeSwitchResponse::Yes => "yes",
            AutoModeSwitchResponse::YesAlways => "yes_always",
            AutoModeSwitchResponse::No => "no",
        }
    }
}

/// Context passed to a registered command handler when the user invokes it.
#[derive(Debug, Clone, PartialEq, Eq)]
pub struct CommandContext {
    /// Session ID where the command was invoked.
    pub session_id: String,
    /// The full command text (e.g. `/deploy production`).
    pub command: String,
    /// Command name without the leading `/`.
    pub command_name: String,
    /// Raw argument string after the command name.
    pub args: String,
}

// =============================================================================
// Messages
// =============================================================================

/// Options for sending a message.
#[derive(Debug, Default)]
pub struct MessageOptions {
    pub prompt: String,
    /// Attachments, as their wire objects.
    pub attachments: Option<Vec<JsonValue>>,
    pub mode: Option<String>,
}

impl From<&str> for MessageOptions {
    /// Options that send `prompt` alone.
    fn from(prompt: &str) -> (r: Self)
        ensures
            r.prompt@ == prompt@,
            r.attachments is None,
            r.mode is None,
    {
        MessageOptions { prompt: prompt.to_owned(), attachments: None, mode: None }
    }
}

impl vstd::std_specs::convert::FromSpecImpl<&str> for MessageOptions {
    open spec fn obeys_from_spec() -> bool {
        false
    }

    open spec fn from_spec(v: &str) -> Self {
        arbitrary()
    }
}

impl From<String> for MessageOptions {
    /// Options that send `prompt` alone.
    fn from(prompt: String) -> (r: Self)
        ensures
            r.prompt == prompt,
            r.attachments is None,
            r.mode is None,
    {
        MessageOptions { prompt, attachments: None, mode: None }
    }
}

impl vstd::std_specs::convert::FromSpecImpl<String> for MessageOptions {
    open spec fn obeys_from_spec() -> bool {
        false
    }

    open spec fn from_spec(v: String) -> Self {
        arbitrary()
    }
}

impl MessageOptions {
    /// Options that send `prompt` alone.
    pub fn prompt_only(prompt: &str) -> (r: Self)
        ensures
            r.prompt@ == prompt@,
            r.attachments is None,
            r.mode is None,
    {
        MessageOptions { prompt: prompt.to_owned(), attachments: None, mode: None }
    }
}

// =============================================================================
// Client-side settings
// =============================================================================

/// Log level for the CLI.
#[derive(Debug, Clone, Copy, PartialEq, Eq, Structural)]
pub enum LogLevel {
    /// No logging (passed to the CLI as `none`).
    Silent,
    Debug,
    Info,
    Warn,
    Error,
    All,
}

impl Default for LogLevel {
    /// `info`.
    fn default() -> (r: Self)
        ensures
            r == LogLevel::Info,
    {
        LogLevel::Info
    }
}

/// The name a log level is passed to the CLI with.
pub open spec fn log_level_name(l: LogLevel) -> Seq<char> {
    match l {
        LogLevel::Silent => "none"@,
        LogLevel::Debug => "debug"@,
        LogLevel::Info => "info"@,
        LogLevel::Warn => "warn"@,
        LogLevel::Error => "error"@,
        LogLevel::All => "all"@,
    }
}

impl LogLevel {
    /// The name passed to the CLI (`none`, `debug`, `info`, `warn`, `error`, `all`).
    pub fn as_str(self) -> (r: &'static str)
        ensures
            r@ == log_level_name(self),
    {
        match self {
            LogLevel::Silent => "none",
            LogLevel::Debug => "debug",
            LogLevel::Info => "info",
            LogLevel::Warn => "warn",
            LogLevel::Error => "error",
            LogLevel::All => "all",
        }
    }
}

/// Operating mode for a client.
#[derive(Debug, Clone, Copy, PartialEq, Eq, Hash, Structural)]
pub enum CopilotClientMode {
    /// Standard mode: the CLI owns the workspace and the local filesystem.
    CopilotCli,
    /// Empty mode: the CLI starts with no implicit workspace.
    Empty,
}

impl Default for CopilotClientMode {
    /// The standard mode.
    fn default() -> (r: Self)
        ensures
            r == CopilotClientMode::CopilotCli,
    {
        CopilotClientMode::CopilotCli
    }
}

/// How a client connects to the Copilot runtime.
#[derive(Debug, Clone, Copy, PartialEq, Eq, Hash, Structural)]
pub enum ConnectionKind {
    /// Spawn (or attach to) a Copilot CLI server and talk to it as a child.
    Child,
    /// Talk to the Copilot CLI over this process's own stdin/stdout.
    ParentProcess,
}

impl Default for ConnectionKind {
    /// A child connection.
    fn default() -> (r: Self)
        ensures
            r == ConnectionKind::Child,
    {
        ConnectionKind::Child
    }
}

/// Options for creating a client. `M` is the type of the model-listing
/// callback and `T` that of the trace-context provider.
#[derive(Debug, Clone)]
pub struct ClientOptions<M, T> {
    pub cli_path: Option<String>,
    pub cli_args: Option<Vec<String>>,
    pub cwd: Option<String>,
    pub port: u16,
    pub use_stdio: bool,
    pub cli_url: Option<String>,
    pub log_level: LogLevel,
    pub auto_start: bool,
    pub auto_restart: bool,
    /// Environment variables for the CLI process, by name.
    pub environment: Option<Vec<(String, String)>>,
    /// GitHub personal access token for authentication.
    pub github_token: Option<String>,
    /// Whether to use the logged-in user for authentication.
    pub use_logged_in_user: Option<bool>,
    /// Tool specifications to deny (`--deny-tool`).
    pub deny_tools: Option<Vec<String>>,
    /// Tool specifications to allow (`--allow-tool`).
    pub allow_tools: Option<Vec<String>>,
    /// Allow every tool (`--allow-all-tools`).
    pub allow_all_tools: bool,
    pub telemetry: Option<TelemetryConfig>,
    /// Callback that lists the models in place of the runtime.
    pub on_list_models: Option<M>,
    pub mode: CopilotClientMode,
    pub session_fs: Option<crate::session_fs::SessionFsConfig>,
    /// Provider of the current W3C trace context.
    pub on_get_trace_context: Option<T>,
    pub connection_kind: ConnectionKind,
    pub session_idle_timeout_seconds: u64,
    pub enable_remote_sessions: bool,
}

impl<M, T> Default for ClientOptions<M, T> {
    /// Standard-mode child connection over stdio, started and restarted
    /// automatically, logging at `info`, with nothing else set.
    fn default() -> (r: Self)
        ensures
            r.cli_path is None,
            r.cli_args is None,
            r.cwd is None,
            r.port == 0,
            r.use_stdio,
            r.cli_url is None,
            r.log_level == LogLevel::Info,
            r.auto_start,
            r.auto_restart,
            r.environment is None,
            r.github_token is None,
            r.use_logged_in_user is None,
            r.deny_tools is None,
            r.allow_tools is None,
            !r.allow_all_tools,
            r.telemetry is None,
            r.on_list_models is None,
            r.mode == CopilotClientMode::CopilotCli,
            r.session_fs is None,
            r.on_get_trace_context is None,
            r.connection_kind == ConnectionKind::Child,
            r.session_idle_timeout_seconds == 0,
            !r.enable_remote_sessions,
    {
        ClientOptions {
            cli_path: None,
            cli_args: None,
            cwd: None,
            port: 0,
            use_stdio: true,
            cli_url: None,
            log_level: LogLevel::Info,
            auto_start: true,
            auto_restart: true,
            environment: None,
            github_token: None,
            use_logged_in_user: None,
            deny_tools: None,
            allow_tools: None,
            allow_all_tools: false,
            telemetry: None,
            on_list_models: None,
            mode: CopilotClientMode::CopilotCli,
            session_fs: None,
            on_get_trace_context: None,
            connection_kind: ConnectionKind::Child,
            session_idle_timeout_seconds: 0,
            enable_remote_sessions: false,
        }
    }
}

/// OpenTelemetry settings passed to the CLI.
#[derive(Debug, Clone, PartialEq, Eq)]
pub struct TelemetryConfig {
    pub otlp_endpoint: Option<String>,
    pub file_path: Option<String>,
    pub exporter_type: Option<String>,
    pub source_name: Option<String>,
    pub capture_content: Option<bool>,
}

impl Default for TelemetryConfig {
    /// Nothing set.
    fn default() -> (r: Self)
        ensures
            r.otlp_endpoint is None,
            r.file_path is None,
            r.exporter_type is None,
            r.source_name is None,
            r.capture_content is None,
    {
        TelemetryConfig {
            otlp_endpoint: None,
            file_path: None,
            exporter_type: None,
            source_name: None,
            capture_content: None,
        }
    }
}

/// Error collected during client stop.
#[derive(Debug, Clone)]
pub struct StopError {
    pub message: String,
    pub source: Option<String>,
}

impl StopError {
    /// The text of the error: its message.
    pub fn text(&self) -> (r: String)
        ensures
            r@ == self.message@,
    {
        self.message.clone()
    }
}

// =============================================================================
// Session hooks
// =============================================================================

/// The hook points of a session.
#[derive(Debug, Clone, Copy, PartialEq, Eq, Structural)]
pub enum HookKind {
    PreToolUse,
    PostToolUse,
    UserPromptSubmitted,
    SessionStart,
    SessionEnd,
    ErrorOccurred,
}

/// The wire name of a hook point.
pub open spec fn hook_wire_name(k: HookKind) -> Seq<char> {
    match k {
        HookKind::PreToolUse => "preToolUse"@,
        HookKind::PostToolUse => "postToolUse"@,
        HookKind::UserPromptSubmitted => "userPromptSubmitted"@,
        HookKind::SessionStart => "sessionStart"@,
        HookKind::SessionEnd => "sessionEnd"@,
        HookKind::ErrorOccurred => "errorOccurred"@,
    }
}

impl HookKind {
    /// The wire name (`preToolUse`, `postToolUse`, ...).
    pub fn wire_name(self) -> (r: &'static str)
        ensures
            r@ == hook_wire_name(self),
    {
        match self {
            HookKind::PreToolUse => "preToolUse",
            HookKind::PostToolUse => "postToolUse",
            HookKind::UserPromptSubmitted => "userPromptSubmitted",
            HookKind::SessionStart => "sessionStart",
            HookKind::SessionEnd => "sessionEnd",
            HookKind::ErrorOccurred => "errorOccurred",
        }
    }

    /// The hook point a wire name stands for, if any.
    pub fn from_wire_name(name: &str) -> (r: Option<Self>)
        ensures
            match r {
                Some(k) => hook_wire_name(k) == name@,
                None => forall|k: HookKind| hook_wire_name(k) != name@,
            },
    {
        let kinds = [
            HookKind::PreToolUse,
            HookKind::PostToolUse,
            HookKind::UserPromptSubmitted,
            HookKind::SessionStart,
            HookKind::SessionEnd,
            HookKind::ErrorOccurred,
        ];
        let mut i: usize = 0;
        while i < 6
            invariant
                i <= 6,
                kinds@ == seq![
                    HookKind::PreToolUse,
                    HookKind::PostToolUse,
                    HookKind::UserPromptSubmitted,
                    HookKind::SessionStart,
                    HookKind::SessionEnd,
                    HookKind::ErrorOccurred,
                ],
                forall|j: int| 0 <= j < i ==> hook_wire_name(#[trigger] kinds@[j]) != name@,
            decreases 6 - i,
        {
            if crate::json::str_eq(kinds[i].wire_name(), name) {
                return Some(kinds[i]);
            }
            i = i + 1;
        }
        proof {
            assert forall|k: HookKind| hook_wire_name(k) != name@ by {
                match k {
                    HookKind::PreToolUse => assert(kinds@[0] == k),
                    HookKind::PostToolUse => assert(kinds@[1] == k),
                    HookKind::UserPromptSubmitted => assert(kinds@[2] == k),
                    HookKind::SessionStart => assert(kinds@[3] == k),
                    HookKind::SessionEnd => assert(kinds@[4] == k),
                    HookKind::ErrorOccurred => assert(kinds@[5] == k),
                }
            }
        }
        None
    }
}

/// Configuration for session hooks. `H` is the type of the handlers; a
/// hook point without a handler is `None`.
pub struct SessionHooks<H> {
    pub on_pre_tool_use: Option<H>,
    pub on_post_tool_use: Option<H>,
    pub on_user_prompt_submitted: Option<H>,
    pub on_session_start: Option<H>,
    pub on_session_end: Option<H>,
    pub on_error_occurred: Option<H>,
}

impl<H> Default for SessionHooks<H> {
    /// No hooks.
    fn default() -> (r: Self)
        ensures
            r.on_pre_tool_use is None,
            r.on_post_tool_use is None,
            r.on_user_prompt_submitted is None,
            r.on_session_start is None,
            r.on_session_end is None,
            r.on_error_occurred is None,
    {
        SessionHooks {
            on_pre_tool_use: None,
            on_post_tool_use: None,
            on_user_prompt_submitted: None,
            on_session_start: None,
            on_session_end: None,
            on_error_occurred: None,
        }
    }
}

impl<H> SessionHooks<H> {
    /// The handler registered for a hook point.
    pub open spec fn handler_spec(&self, k: HookKind) -> Option<H> {
        match k {
            HookKind::PreToolUse => self.on_pre_tool_use,
            HookKind::PostToolUse => self.on_post_tool_use,
            HookKind::UserPromptSubmitted => self.on_user_prompt_submitted,
            HookKind::SessionStart => self.on_session_start,
            HookKind::SessionEnd => self.on_session_end,
            HookKind::ErrorOccurred => self.on_error_occurred,
        }
    }

    /// The handler registered for a hook point.
    pub fn handler(&self, k: HookKind) -> (r: Option<&H>)
        ensures
            match r {
                Some(h) => self.handler_spec(k) == Some(*h),
                None => self.handler_spec(k) is None,
            },
    {
        let slot = match k {
            HookKind::PreToolUse => &self.on_pre_tool_use,
            HookKind::PostToolUse => &self.on_post_tool_use,
            HookKind::UserPromptSubmitted => &self.on_user_prompt_submitted,
            HookKind::SessionStart => &self.on_session_start,
            HookKind::SessionEnd => &self.on_session_end,
            HookKind::ErrorOccurred => &self.on_error_occurred,
        };
        match slot {
            Some(h) => Some(h),
            None => None,
        }
    }

    /// Returns true if any hook handler is registered.
    pub fn has_any(&self) -> (r: bool)
        ensures
            r == exists|k: HookKind| #[trigger] self.handler_spec(k) is Some,
    {
        let r = self.on_pre_tool_use.is_some() || self.on_post_tool_use.is_some()
            || self.on_user_prompt_submitted.is_some() || self.on_session_start.is_some()
            || self.on_session_end.is_some() || self.on_error_occurred.is_some();
        proof {
            if r {
                if self.on_pre_tool_use.is_some() {
                    assert(self.handler_spec(HookKind::PreToolUse) is Some);
                } else if self.on_post_tool_use.is_some() {
                    assert(self.handler_spec(HookKind::PostToolUse) is Some);
                } else if self.on_user_prompt_submitted.is_some() {
                    assert(self.handler_spec(HookKind::UserPromptSubmitted) is Some);
                } else if self.on_session_start.is_some() {
                    assert(self.handler_spec(HookKind::SessionStart) is Some);
                } else if self.on_session_end.is_some() {
                    assert(self.handler_spec(HookKind::SessionEnd) is Some);
                } else {
                    assert(self.handler_spec(HookKind::ErrorOccurred) is Some);
                }
            } else {
                assert forall|k: HookKind| !(#[trigger] self.handler_spec(k) is Some) by {
                    match k {
                        _ => {},
                    }
                }
            }
        }
        r
    }

    /// A debug rendering that shows, for each hook point, whether a handler
    /// is registered.
    pub fn debug_text(&self) -> (r: String)
        ensures
            r@ == "SessionHooks { on_pre_tool_use: "@ + bool_text(self.on_pre_tool_use is Some)
                + ", on_post_tool_use: "@ + bool_text(self.on_post_tool_use is Some)
                + ", on_user_prompt_submitted: "@ + bool_text(self.on_user_prompt_submitted is Some)
                + ", on_session_start: "@ + bool_text(self.on_session_start is Some)
                + ", on_session_end: "@ + bool_text(self.on_session_end is Some)
                + ", on_error_occurred: "@ + bool_text(self.on_error_occurred is Some) + " }"@,
    {
        let mut s = "SessionHooks { on_pre_tool_use: ".to_owned();
        s.append(bool_str(self.on_pre_tool_use.is_some()));
        s.append(", on_post_tool_use: ");
        s.append(bool_str(self.on_post_tool_use.is_some()));
        s.append(", on_user_prompt_submitted: ");
        s.append(bool_str(self.on_user_prompt_submitted.is_some()));
        s.append(", on_session_start: ");
        s.append(bool_str(self.on_session_start.is_some()));
        s.append(", on_session_end: ");
        s.append(bool_str(self.on_session_end.is_some()));
        s.append(", on_error_occurred: ");
        s.append(bool_str(self.on_error_occurred.is_some()));
        s.append(" }");
        s
    }
}

/// `true` or `false`.
pub open spec fn bool_text(b: bool) -> Seq<char> {
    if b {
        "true"@
    } else {
        "false"@
    }
}

fn bool_str(b: bool) -> (r: &'static str)
    ensures
        r@ == bool_text(b),
{
    if b {
        "true"
    } else {
        "false"
    }
}

/// Law: every hook point has its own wire name.
pub proof fn law_hook_names_distinct(a: HookKind, b: HookKind)
    ensures
        hook_wire_name(a) == hook_wire_name(b) ==> a == b,
{
    reveal_strlit("preToolUse");
    reveal_strlit("postToolUse");
    reveal_strlit("userPromptSubmitted");
    reveal_strlit("sessionStart");
    reveal_strlit("sessionEnd");
    reveal_strlit("errorOccurred");
    if hook_wire_name(a) == hook_wire_name(b) && a != b {
        assert(hook_wire_name(a).len() == hook_wire_name(b).len());
        assert(hook_wire_name(a)[0] == hook_wire_name(b)[0]);
        assert(hook_wire_name(a)[1] == hook_wire_name(b)[1]);
        assert(hook_wire_name(a)[7] == hook_wire_name(b)[7]);
    }
}

// =============================================================================
// Wire data
// =============================================================================

/// Information about an available agent.
///
/// Mirrors the `AgentInfo` schema definition returned by `session.agent.list`
/// and `session.agent.getCurrent`.
#[derive(Debug)]
pub struct AgentInfo {
    /// Unique identifier of the custom agent.
    pub name: String,
    pub display_name: Option<String>,
    pub description: Option<String>,
    /// Stable identifier used for selection.
    ///
    /// For most agents this equals `name`; for plugin and builtin agents it may
    /// differ. The runtime always populates it, so a missing key only occurs
    /// against older CLIs and yields an empty string.
    pub id: String,
    /// Absolute local path of the agent definition.
    ///
    /// Only set for file-based agents loaded from disk; remote agents have none.
    pub path: Option<String>,
    /// Where the agent definition was loaded from.
    pub source: Option<AgentInfoSource>,
    /// Whether the agent can be selected directly by the user.
    ///
    /// Agents marked `false` are subagent-only.
    pub user_invocable: Option<bool>,
    /// Allowed tool names for this agent.
    ///
    /// An empty vector means none; `None` means inherit the defaults.
    pub tools: Option<Vec<String>>,
    /// Preferred model id, inheriting the outer agent's model when `None`.
    pub model: Option<String>,
    /// MCP server configurations attached to this agent, keyed by server name.
    ///
    /// Values mirror the MCP `mcpServers` schema and are carried verbatim.
    pub mcp_servers: Option<Vec<(String, JsonValue)>>,
    /// Skill names preloaded into this agent's context.
    pub skills: Option<Vec<String>>,
}

/// Where an agent definition was loaded from.
#[derive(Debug, Clone, Copy, PartialEq, Eq, Structural)]
pub enum AgentInfoSource {
    /// Loaded from the user's personal agent configuration.
    User,
    /// Loaded from the current project's repository configuration.
    Project,
    /// Inherited from a parent project or workspace.
    Inherited,
    /// Provided by a remote runtime or service.
    Remote,
    /// Contributed by an installed plugin.
    Plugin,
    /// Built into the Copilot runtime.
    Builtin,
}

/// Attachment type for user messages.
#[derive(Debug, Clone, Copy, PartialEq, Eq, Structural)]
pub enum AttachmentType {
    File,
    Directory,
    Selection,
    Blob,
    GithubReference,
}

/// Azure-specific provider options.
#[derive(Debug, Clone, Default)]
pub struct AzureOptions {
    pub api_version: Option<String>,
}

/// Options for creating a remote session in the cloud.
#[derive(Debug, Clone, Default)]
pub struct CloudSessionOptions {
    /// Repository the cloud session operates on.
    pub repository: Option<CloudSessionRepository>,
}

/// Repository a cloud session is bound to.
#[derive(Debug, Clone, Default)]
pub struct CloudSessionRepository {
    /// Repository owner (user or organization).
    pub owner: String,
    /// Repository name.
    pub name: String,
    /// Branch to work against. Defaults to the repository default branch.
    pub branch: Option<String>,
}

/// A slash-command declaration serialized to the CLI at session create/resume.
///
/// The handler is registered separately via
/// [`Session::register_command`](crate::Session::register_command).
#[derive(Debug, Clone, PartialEq, Eq, Default)]
pub struct CommandDeclaration {
    /// Command name (without leading `/`).
    pub name: String,
    /// Human-readable description shown in command completion UI.
    pub description: Option<String>,
}

/// Connection state of the client.
#[derive(Debug, Clone, Copy, PartialEq, Eq, Default, Structural)]
pub enum ConnectionState {
    #[default]
    Disconnected,
    Connecting,
    Connected,
    Error,
}

/// Organization entry embedded in a Copilot user snapshot.
#[derive(Debug, Clone, PartialEq, Eq)]
pub struct CopilotOrganization {
    /// Organization login, when available.
    pub login: Option<String>,
    /// Organization display name, when available.
    pub name: Option<String>,
}

/// Endpoint URLs returned in a Copilot user snapshot.
#[derive(Debug, Clone, PartialEq, Eq)]
pub struct CopilotUserResponseEndpoints {
    /// API endpoint URL.
    pub api: Option<String>,
    /// Origin-tracker endpoint URL.
    pub origin_tracker: Option<String>,
    /// Proxy endpoint URL.
    pub proxy: Option<String>,
    /// Telemetry endpoint URL.
    pub telemetry: Option<String>,
}

/// Configuration for a custom agent.
#[derive(Debug, Default)]
pub struct CustomAgentConfig {
    pub name: String,
    pub prompt: String,
    pub display_name: Option<String>,
    pub description: Option<String>,
    pub tools: Option<Vec<String>>,
    pub mcp_servers: Option<Vec<(String, JsonValue)>>,
    pub infer: Option<bool>,
}

/// Configuration applied to the session's default agent.
#[derive(Debug, Clone, Default)]
pub struct DefaultAgentConfig {
    /// Tool names to exclude from the default agent.
    ///
    /// Excluded tools remain available to custom sub-agents that list them in
    /// their `tools` array, which keeps the default agent's context clean.
    pub excluded_tools: Option<Vec<String>>,
}

/// Embedded binary resource contents.
#[derive(Debug, Clone, PartialEq, Eq)]
pub struct EmbeddedBlobResourceContents {
    /// URI identifying the resource.
    pub uri: String,
    /// MIME type of the blob content.
    pub mime_type: Option<String>,
    /// Base64-encoded binary content of the resource.
    pub blob: String,
}

/// Embedded text resource contents.
#[derive(Debug, Clone, PartialEq, Eq)]
pub struct EmbeddedTextResourceContents {
    /// URI identifying the resource.
    pub uri: String,
    /// MIME type of the text content.
    pub mime_type: Option<String>,
    /// Text content of the resource.
    pub text: String,
}

/// Input for the error-occurred hook.
#[derive(Debug, Clone)]
pub struct ErrorOccurredHookInput {
    pub timestamp: i64,
    pub cwd: String,
    pub error: String,
    pub error_context: String,
    pub recoverable: bool,
}

/// Output for the error-occurred hook.
#[derive(Debug, Clone, Default)]
pub struct ErrorOccurredHookOutput {
    pub suppress_output: Option<bool>,
    pub error_handling: Option<String>,
    pub retry_count: Option<i32>,
    pub user_notification: Option<String>,
}

/// Stable extension identity for session participants that provide canvases.
#[derive(Debug, Clone, PartialEq, Eq)]
pub struct ExtensionInfo {
    /// Extension namespace/source, e.g. `github-app`.
    pub source: String,
    /// Stable provider name within the source namespace.
    pub name: String,
}

/// A tool-result content block for LLM-visible output.
#[derive(Debug, Clone, PartialEq, Eq)]
pub enum ExternalToolTextResultForLlmContent {
    /// Plain text content block.
    Text {
        /// The text content.
        text: String,
    },
    /// Terminal or shell output content block.
    Terminal {
        /// Terminal or shell output text.
        text: String,
        /// Process exit code, if the command has completed.
        exit_code: Option<i64>,
        /// Working directory where the command was executed.
        cwd: Option<String>,
    },
    /// Base64-encoded image content block.
    Image {
        /// Base64-encoded image data.
        data: String,
        /// MIME type of the image.
        mime_type: String,
    },
    /// Base64-encoded audio content block.
    Audio {
        /// Base64-encoded audio data.
        data: String,
        /// MIME type of the audio.
        mime_type: String,
    },
    /// External resource-link content block.
    ResourceLink {
        /// Icons associated with this resource.
        icons: Option<Vec<ExternalToolTextResultForLlmContentResourceLinkIcon>>,
        /// Resource name identifier.
        name: String,
        /// Human-readable display title for the resource.
        title: Option<String>,
        /// URI identifying the resource.
        uri: String,
        /// Human-readable description of the resource.
        description: Option<String>,
        /// MIME type of the resource content.
        mime_type: Option<String>,
        /// Size of the resource in bytes.
        size: Option<u64>,
    },
    /// Embedded resource content block.
    Resource {
        /// The embedded resource contents.
        resource: ExternalToolTextResultForLlmContentResourceDetails,
    },
}

/// Embedded resource contents, either inline text or inline binary data.
#[derive(Debug, Clone, PartialEq, Eq)]
pub enum ExternalToolTextResultForLlmContentResourceDetails {
    /// Embedded text resource contents.
    Text(EmbeddedTextResourceContents),
    /// Embedded binary resource contents.
    Blob(EmbeddedBlobResourceContents),
}

/// Icon image metadata for an external resource link.
#[derive(Debug, Clone, PartialEq, Eq)]
pub struct ExternalToolTextResultForLlmContentResourceLinkIcon {
    /// URL or path to the icon image.
    pub src: String,
    /// MIME type of the icon image.
    pub mime_type: Option<String>,
    /// Available icon sizes (for example `16x16` or `32x32`).
    pub sizes: Option<Vec<String>>,
    /// Theme variant this icon is intended for.
    pub theme: Option<ExternalToolTextResultForLlmContentResourceLinkIconTheme>,
}

/// Icon theme variant for an external resource link.
#[derive(Debug, Clone, Copy, PartialEq, Eq, Structural)]
pub enum ExternalToolTextResultForLlmContentResourceLinkIconTheme {
    /// Icon intended for light themes.
    Light,
    /// Icon intended for dark themes.
    Dark,
}

/// Options for starting a fleet of parallel agents.
#[derive(Debug, Clone, Default)]
pub struct FleetStartOptions {
    pub prompt: Option<String>,
}

/// Response from auth.getStatus request.
#[derive(Debug, Clone)]
pub struct GetAuthStatusResponse {
    pub is_authenticated: bool,
    pub auth_type: Option<String>,
    pub host: Option<String>,
    pub login: Option<String>,
    pub status_message: Option<String>,
}

/// Response from session.getForeground.
#[derive(Debug, Clone, Default)]
pub struct GetForegroundSessionResponse {
    pub session_id: Option<String>,
    pub workspace_path: Option<String>,
}

/// Response from status.get request.
#[derive(Debug, Clone)]
pub struct GetStatusResponse {
    pub version: String,
    pub protocol_version: u32,
}

/// Configuration for large tool-output handling.
#[derive(Debug, Clone, Default)]
pub struct LargeToolOutputConfig {
    /// Whether large output handling is enabled (default `true`).
    pub enabled: Option<bool>,
    /// Maximum size in bytes before output is written to a temp file (default `51200`).
    pub max_size_bytes: Option<u64>,
    /// Directory to write temp files to. Defaults to the OS temp directory.
    ///
    /// Serialized as `outputDir` to match the runtime wire contract.
    pub output_directory: Option<String>,
}

/// Options for adding a log entry to a session.
#[derive(Debug, Clone, Default)]
pub struct LogOptions {
    pub level: Option<SessionLogLevel>,
    pub ephemeral: Option<bool>,
}

/// Result from adding a session log entry.
#[derive(Debug, Clone)]
pub struct LogResult {
    pub event_id: String,
}

/// Options for `session.lsp.initialize` — (re)loading the merged LSP configuration
/// set for the session's working directory.
///
/// This drives the CLI-side LSP configuration loader (the `session.lsp.initialize`
/// RPC). It is distinct from the crate's in-process [`crate::lsp::LspServer`], which is
/// a standalone Rust-native LSP 3.17 server.
#[derive(Debug, Clone, Default)]
pub struct LspInitializeOptions {
    /// Force re-initialization even when LSP configs were already loaded for the
    /// working directory.
    pub force: Option<bool>,
    /// Git root used as the boundary when traversing for project-level LSP configs
    /// (supports monorepos).
    pub git_root: Option<String>,
    /// Working directory used to load project-level LSP configs. Defaults to the
    /// session working directory when omitted.
    pub working_directory: Option<String>,
}

/// Configuration for a local/stdio MCP server.
#[derive(Debug, Clone)]
pub struct McpLocalServerConfig {
    pub tools: Vec<String>,
    pub command: String,
    pub args: Vec<String>,
    pub server_type: Option<String>,
    pub timeout: Option<i32>,
    pub env: Option<Vec<(String, String)>>,
    pub cwd: Option<String>,
}

/// Configuration for a remote MCP server (HTTP or SSE).
#[derive(Debug, Clone)]
pub struct McpRemoteServerConfig {
    pub tools: Vec<String>,
    pub url: String,
    pub server_type: String,
    pub timeout: Option<i32>,
    pub headers: Option<Vec<(String, String)>>,
}

/// MCP server configuration (either local or remote).
#[derive(Debug, Clone)]
pub enum McpServerConfig {
    Local(McpLocalServerConfig),
    Remote(McpRemoteServerConfig),
}

/// Model capabilities - what the model supports.
#[derive(Debug, Clone, Default)]
pub struct ModelCapabilities {
    pub supports: ModelSupports,
    pub limits: ModelLimits,
}

/// Partial override of a model's advertised capabilities.
///
/// Useful for BYOK providers whose capabilities the runtime cannot discover.
#[derive(Debug, Clone, Default)]
pub struct ModelCapabilitiesOverride {
    /// Feature flags indicating what the model supports.
    pub supports: Option<ModelCapabilitiesOverrideSupports>,
    /// Token limits for prompts, outputs, and context window.
    pub limits: Option<ModelCapabilitiesOverrideLimits>,
}

/// Token-limit overrides for prompts, outputs, and the context window.
#[derive(Debug, Clone, Default)]
pub struct ModelCapabilitiesOverrideLimits {
    /// Maximum number of prompt/input tokens.
    pub max_prompt_tokens: Option<u64>,
    /// Maximum number of output/completion tokens.
    pub max_output_tokens: Option<u64>,
    /// Maximum total context window size in tokens.
    pub max_context_window_tokens: Option<u64>,
    /// Vision-specific limits.
    pub vision: Option<ModelCapabilitiesOverrideLimitsVision>,
}

/// Vision-specific limit overrides.
#[derive(Debug, Clone, Default)]
pub struct ModelCapabilitiesOverrideLimitsVision {
    /// MIME types the model accepts.
    pub supported_media_types: Option<Vec<String>>,
    /// Maximum number of images per prompt.
    pub max_prompt_images: Option<u64>,
    /// Maximum image size in bytes.
    pub max_prompt_image_size: Option<u64>,
}

/// Feature flags indicating what the model supports.
#[derive(Debug, Clone, Default)]
pub struct ModelCapabilitiesOverrideSupports {
    /// Whether this model supports vision/image input.
    pub vision: Option<bool>,
    /// Whether this model supports reasoning effort configuration.
    pub reasoning_effort: Option<bool>,
}

/// Model limits.
#[derive(Debug, Clone, Default)]
pub struct ModelLimits {
    pub max_prompt_tokens: Option<u32>,
    pub max_context_window_tokens: u32,
    pub vision: Option<ModelVisionLimits>,
}

/// Model policy state.
#[derive(Debug, Clone)]
pub struct ModelPolicy {
    pub state: String,
    pub terms: String,
}

/// What features a model supports.
#[derive(Debug, Clone, Default)]
pub struct ModelSupports {
    pub vision: bool,
    pub reasoning_effort: bool,
}

/// Vision limits for a model.
#[derive(Debug, Clone, Default)]
pub struct ModelVisionLimits {
    pub supported_media_types: Vec<String>,
    pub max_prompt_images: u32,
    pub max_prompt_image_size: u64,
}

/// Response from a ping request.
#[derive(Debug, Clone)]
pub struct PingResponse {
    pub message: String,
    pub timestamp: i64,
    pub protocol_version: Option<u32>,
}

/// Plan content data.
#[derive(Debug, Clone)]
pub struct PlanData {
    pub content: Option<String>,
    pub title: Option<String>,
}

/// Input for the post-tool-use hook.
#[derive(Debug)]
pub struct PostToolUseHookInput {
    pub timestamp: i64,
    pub cwd: String,
    pub tool_name: String,
    pub tool_args: JsonValue,
    pub tool_result: JsonValue,
}

/// Output for the post-tool-use hook.
#[derive(Debug, Default)]
pub struct PostToolUseHookOutput {
    pub modified_result: Option<JsonValue>,
    pub additional_context: Option<String>,
    pub suppress_output: Option<bool>,
}

/// Input for the pre-tool-use hook.
#[derive(Debug)]
pub struct PreToolUseHookInput {
    pub timestamp: i64,
    pub cwd: String,
    pub tool_name: String,
    pub tool_args: JsonValue,
}

/// Output for the pre-tool-use hook.
#[derive(Debug, Default)]
pub struct PreToolUseHookOutput {
    pub permission_decision: Option<String>,
    pub permission_decision_reason: Option<String>,
    pub modified_args: Option<JsonValue>,
    pub additional_context: Option<String>,
    pub suppress_output: Option<bool>,
}

/// Provider configuration for BYOK (Bring Your Own Key).
#[derive(Debug, Clone)]
pub struct ProviderConfig {
    pub base_url: String,
    pub provider_type: Option<String>,
    pub wire_api: Option<String>,
    pub api_key: Option<String>,
    pub bearer_token: Option<String>,
    pub azure: Option<AzureOptions>,
}

impl ProviderConfig {
    /// Environment variable for the API key.
    pub const ENV_API_KEY: &'static str = "COPILOT_SDK_BYOK_API_KEY";
    /// Environment variable for the base URL.
    pub const ENV_BASE_URL: &'static str = "COPILOT_SDK_BYOK_BASE_URL";
    /// Environment variable for the provider type.
    pub const ENV_PROVIDER_TYPE: &'static str = "COPILOT_SDK_BYOK_PROVIDER_TYPE";
    /// Environment variable for the model.
    pub const ENV_MODEL: &'static str = "COPILOT_SDK_BYOK_MODEL";

    /// Whether an API key value configures a provider: it is set and not empty.
    pub fn is_configured_by(api_key: &Option<String>) -> (r: bool)
        ensures
            r == (api_key matches Some(k) && k@.len() > 0),
    {
        match api_key {
            Some(k) => k.unicode_len() > 0,
            None => false,
        }
    }

    /// The provider configured by the values of the `COPILOT_SDK_BYOK_*`
    /// variables (`None` for an unset variable): none without a non-empty
    /// API key; otherwise the given base URL (OpenAI's by default) and
    /// provider type (`openai` by default).
    pub fn from_env_values(
        api_key: Option<String>,
        base_url: Option<String>,
        provider_type: Option<String>,
    ) -> (r: Option<Self>)
        ensures
            r is Some <==> (api_key matches Some(k) && k@.len() > 0),
            r matches Some(c) ==> c.api_key == api_key && c.base_url@ == (match base_url {
                Some(u) => u@,
                None => "https://api.openai.com/v1"@,
            }) && c.provider_type.deep_view() == Some(
                match provider_type {
                    Some(t) => t@,
                    None => "openai"@,
                },
            ) && c.wire_api is None && c.bearer_token is None && c.azure is None,
    {
        if !Self::is_configured_by(&api_key) {
            return None;
        }
        let base_url = match base_url {
            Some(u) => u,
            None => "https://api.openai.com/v1".to_owned(),
        };
        let provider_type = match provider_type {
            Some(t) => t,
            None => "openai".to_owned(),
        };
        Some(
            ProviderConfig {
                base_url,
                provider_type: Some(provider_type),
                wire_api: None,
                api_key,
                bearer_token: None,
                azure: None,
            },
        )
    }

    /// The model named by the `COPILOT_SDK_BYOK_MODEL` value, when it is set
    /// and not empty.
    pub fn model_from_env_value(value: Option<String>) -> (r: Option<String>)
        ensures
            r == (match value {
                Some(v) => if v@.len() > 0 {
                    Some(v)
                } else {
                    None
                },
                None => None,
            }),
    {
        match value {
            Some(v) => if v.unicode_len() > 0 {
                Some(v)
            } else {
                None
            },
            None => None,
        }
    }
}

/// Result from getting account quota.
#[derive(Debug, Clone)]
pub struct QuotaResult {
    pub quotas: Vec<QuotaSnapshot>,
}

/// A snapshot of quota usage.
#[derive(Debug, Clone)]
pub struct QuotaSnapshot {
    pub quota_type: String,
    pub limit: Option<u64>,
    pub used: Option<u64>,
    pub remaining: Option<u64>,
    pub resets_at: Option<String>,
}

/// Reasoning summary mode for models with configurable reasoning summaries.
#[derive(Debug, Clone, Copy, PartialEq, Eq, Hash, Structural)]
pub enum ReasoningSummary {
    /// Do not request reasoning summaries from the model.
    /// Wire name `none`.
    Omitted,
    /// Request a concise summary of the model's reasoning.
    Concise,
    /// Request a detailed summary of the model's reasoning.
    Detailed,
}

/// Remote session export and steering mode.
#[derive(Debug, Clone, Copy, PartialEq, Eq, Hash, Default, Structural)]
pub enum RemoteSessionMode {
    /// Disable remote session export and steering.
    #[default]
    Off,
    /// Export session events to GitHub without enabling remote steering.
    Export,
    /// Enable both remote session export and remote steering.
    On,
}

/// A user message attachment payload sent to the runtime.
#[derive(Debug, Clone, PartialEq, Eq)]
pub enum SendAttachment {
    /// File attachment.
    File {
        /// Absolute file path.
        path: String,
        /// User-facing display name for the attachment.
        display_name: String,
        /// Optional line range limiting the attached region.
        line_range: Option<SendAttachmentFileLineRange>,
    },
    /// Directory attachment.
    Directory {
        /// Absolute directory path.
        path: String,
        /// User-facing display name for the attachment.
        display_name: String,
    },
    /// Code-selection attachment from an editor.
    Selection {
        /// Absolute path to the file containing the selection.
        file_path: String,
        /// User-facing display name for the selection.
        display_name: String,
        /// The selected text content.
        text: String,
        /// Position range of the selection within the file.
        selection: SendAttachmentSelectionDetails,
    },
    /// GitHub issue, pull request, or discussion reference.
    GithubReference {
        /// Issue, pull request, or discussion number.
        number: u64,
        /// Title of the referenced item.
        title: String,
        /// Type of GitHub reference.
        reference_type: SendAttachmentGithubReferenceType,
        /// Current state of the referenced item.
        state: String,
        /// URL to the referenced item on GitHub.
        url: String,
    },
    /// Inline blob attachment with base64-encoded contents.
    Blob {
        /// Base64-encoded content.
        data: String,
        /// MIME type of the inline data.
        mime_type: String,
        /// User-facing display name for the attachment.
        display_name: Option<String>,
    },
}

/// Optional line range to scope a file attachment to a specific section.
#[derive(Debug, Clone, PartialEq, Eq)]
pub struct SendAttachmentFileLineRange {
    /// Start line number (1-based).
    pub start: u64,
    /// End line number (1-based, inclusive).
    pub end: u64,
}

/// Type of GitHub reference attachment.
#[derive(Debug, Clone, Copy, PartialEq, Eq, Structural)]
pub enum SendAttachmentGithubReferenceType {
    /// GitHub issue reference.
    Issue,
    /// GitHub pull-request reference.
    Pr,
    /// GitHub discussion reference.
    Discussion,
}

/// Position range for an editor selection attachment.
#[derive(Debug, Clone, PartialEq, Eq)]
pub struct SendAttachmentSelectionDetails {
    /// Start position of the selection.
    pub start: SendAttachmentSelectionPosition,
    /// End position of the selection.
    pub end: SendAttachmentSelectionPosition,
}

/// Position within an editor selection attachment.
#[derive(Debug, Clone, PartialEq, Eq)]
pub struct SendAttachmentSelectionPosition {
    /// Line number (0-based).
    pub line: u64,
    /// Character offset within the line (0-based).
    pub character: u64,
}

/// Working-directory and repository context recorded for a session.
#[derive(Debug, Clone)]
pub struct SessionContext {
    /// Most recent working directory for this session.
    pub cwd: String,
    /// Git repository root, if the cwd was inside a git repo.
    pub git_root: Option<String>,
    /// Repository slug in `owner/name` form, when known.
    pub repository: Option<String>,
    /// Repository host type.
    pub host_type: Option<String>,
    /// Active git branch.
    pub branch: Option<String>,
}

/// Input for the session-end hook.
#[derive(Debug, Clone)]
pub struct SessionEndHookInput {
    pub timestamp: i64,
    pub cwd: String,
    pub reason: String,
    pub final_message: Option<String>,
    pub error: Option<String>,
}

/// Output for the session-end hook.
#[derive(Debug, Clone, Default)]
pub struct SessionEndHookOutput {
    pub suppress_output: Option<bool>,
    pub cleanup_actions: Option<Vec<String>>,
    pub session_summary: Option<String>,
}

/// A plugin installed into a session.
///
/// Mirrors the `SessionInstalledPlugin` schema definition, which declares
/// `additionalProperties: false`. The schema spells `installed_at` and
/// `cache_path` in snake_case, so this struct deliberately does **not** use
/// `rename_all = "camelCase"` -- the Rust field names are already the exact
/// wire names.
#[derive(Debug, PartialEq, Default)]
pub struct SessionInstalledPlugin {
    /// Plugin name.
    pub name: String,
    /// Marketplace the plugin came from (empty string for direct repo installs).
    pub marketplace: String,
    /// Installation timestamp (ISO-8601).
    pub installed_at: String,
    /// Whether the plugin is currently enabled.
    pub enabled: bool,
    /// Installed version, if known.
    pub version: Option<String>,
    /// Path where the plugin is cached locally.
    pub cache_path: Option<String>,
    /// Source descriptor for direct repo installs (when `marketplace` is empty).
    ///
    /// The schema marks this `x-opaque-json`: it is a union of an
    /// `owner/repo` string and three object forms, so it is carried verbatim.
    pub source: Option<JsonValue>,
}

/// Session lifecycle event notification.
#[derive(Debug, Clone)]
pub struct SessionLifecycleEvent {
    pub event_type: String,
    pub session_id: String,
    pub metadata: Option<SessionLifecycleEventMetadata>,
}

/// Metadata for session lifecycle events.
#[derive(Debug, Clone)]
pub struct SessionLifecycleEventMetadata {
    pub start_time: Option<String>,
    pub modified_time: Option<String>,
    pub summary: Option<String>,
}

/// Log level for session log entries.
#[derive(Debug, Clone, Copy, PartialEq, Eq, Structural)]
pub enum SessionLogLevel {
    Error,
    Info,
    Warning,
}

/// Metadata about a session.
#[derive(Debug, Clone)]
pub struct SessionMetadata {
    pub session_id: String,
    pub start_time: Option<String>,
    pub modified_time: Option<String>,
    pub summary: Option<String>,
    pub is_remote: bool,
    /// Human-friendly name set via `/rename`.
    pub name: Option<String>,
    /// Runtime client name that created or last resumed this session.
    pub client_name: Option<String>,
    /// True for detached maintenance sessions hidden from normal resume lists.
    pub is_detached: bool,
    /// Working-directory and repository context recorded for the session.
    pub context: Option<SessionContext>,
    /// GitHub task ID, when this local session is bound to one.
    ///
    /// Only present for local sessions exported to remote control.
    pub mc_task_id: Option<String>,
}

/// Session operation mode.
#[derive(Debug, Clone, Copy, PartialEq, Eq, Structural)]
pub enum SessionMode {
    Interactive,
    Plan,
    Autopilot,
}

/// Input for the session-start hook.
#[derive(Debug, Clone)]
pub struct SessionStartHookInput {
    pub timestamp: i64,
    pub cwd: String,
    pub source: String,
    pub initial_prompt: Option<String>,
}

/// Output for the session-start hook.
#[derive(Debug, Default)]
pub struct SessionStartHookOutput {
    pub additional_context: Option<String>,
    pub modified_config: Option<JsonValue>,
}

/// Patch applied to a live session via `session.options.update`.
///
/// Every field is optional: only the fields you set are sent, and the runtime
/// leaves everything else untouched.
///
/// # Example
///
/// ```no_run
/// use copilot_sdk::SessionUpdateOptions;
///
/// # async fn run(session: &copilot_sdk::Session) -> copilot_sdk::Result<()> {
/// session
///     .update_options(SessionUpdateOptions {
///         coauthor_enabled: Some(false),
///         skip_custom_instructions: Some(true),
///         ..Default::default()
///     })
///     .await?;
/// # Ok(())
/// # }
/// ```
#[derive(Debug, Default)]
pub struct SessionUpdateOptions {
    /// Model ID to use for assistant turns.
    pub model: Option<String>,
    /// Reasoning effort for the selected model.
    pub reasoning_effort: Option<String>,
    /// Identifier of the client driving the session.
    pub client_name: Option<String>,
    /// Identifier sent to LSP-style integrations.
    pub lsp_client_name: Option<String>,
    /// Stable integration identifier for analytics and rate-limit attribution.
    pub integration_id: Option<String>,
    /// Feature-flag IDs mapped to their enabled state.
    pub feature_flags: Option<Vec<(String, bool)>>,
    /// Whether experimental capabilities are enabled.
    pub is_experimental_mode: Option<bool>,
    /// Custom model-provider configuration (BYOK).
    pub provider: Option<JsonValue>,
    /// Absolute working-directory path for shell tools.
    pub working_directory: Option<String>,
    /// Allowlist of tool names available to this session.
    pub available_tools: Option<Vec<String>>,
    /// Denylist of tool names for this session.
    pub excluded_tools: Option<Vec<String>>,
    /// Which filter wins when a tool appears in both lists.
    pub tool_filter_precedence: Option<String>,
    /// Whether shell-script safety heuristics are enabled.
    pub enable_script_safety: Option<bool>,
    /// Shell init profile (`None` or `NonInteractive`).
    pub shell_init_profile: Option<String>,
    /// Per-shell process flags.
    pub shell_process_flags: Option<Vec<String>>,
    /// Sandbox configuration; opaque to SDK consumers.
    pub sandbox_config: Option<JsonValue>,
    /// Whether interactive shell sessions are logged.
    pub log_interactive_shells: Option<bool>,
    /// How environment values are transmitted.
    pub env_value_mode: Option<String>,
    /// Additional directories to search for skills.
    pub skill_directories: Option<Vec<String>>,
    /// Skill IDs excluded from this session.
    pub disabled_skills: Option<Vec<String>>,
    /// Discover custom instructions on demand after successful file views.
    pub enable_on_demand_instruction_discovery: Option<bool>,
    /// Full set of installed plugins; replaces the existing list.
    pub installed_plugins: Option<Vec<SessionInstalledPlugin>>,
    /// Default custom agents to local-only execution.
    pub custom_agents_local_only: Option<bool>,
    /// Skip loading custom instruction sources.
    pub skip_custom_instructions: Option<bool>,
    /// Instruction source IDs excluded from the system prompt.
    pub disabled_instruction_sources: Option<Vec<String>>,
    /// Include the `Co-authored-by` trailer in commit messages.
    pub coauthor_enabled: Option<bool>,
    /// Path for trajectory output.
    pub trajectory_file: Option<String>,
    /// Stream model responses.
    pub enable_streaming: Option<bool>,
    /// Override URL for the Copilot API endpoint.
    pub copilot_url: Option<String>,
    /// Disable the `ask_user` tool to encourage autonomous behavior.
    pub ask_user_disabled: Option<bool>,
    /// Allow auto-mode continuation across turns.
    pub continue_on_auto_mode: Option<bool>,
    /// Whether the session is running in an interactive UI.
    pub running_in_interactive_mode: Option<bool>,
    /// Surface reasoning-summary events from the model.
    pub enable_reasoning_summaries: Option<bool>,
    /// Runtime context discriminator (e.g. `cli`, `actions`).
    pub agent_context: Option<String>,
    /// Override directory for the session-events log.
    pub events_log_directory: Option<String>,
    /// Additional content-exclusion policies merged into the session policy set.
    pub additional_content_exclusion_policies: Option<Vec<JsonValue>>,
    /// Expose the `manage_schedule` tool to the agent.
    pub manage_schedule_enabled: Option<bool>,
    /// Skip embedding-retrieval pipeline initialization and execution.
    pub skip_embedding_retrieval: Option<bool>,
    /// Organization-level custom instructions injected into the system prompt.
    pub organization_custom_instructions: Option<String>,
    /// Enable loading of `.github/hooks/` filesystem hooks.
    pub enable_file_hooks: Option<bool>,
    /// Enable host git operations.
    pub enable_host_git_operations: Option<bool>,
    /// Enable cross-session store reads and writes.
    pub enable_session_store: Option<bool>,
    /// Enable skill directory scanning and loading.
    pub enable_skills: Option<bool>,
}

/// Response from session.setForeground.
#[derive(Debug, Clone, Default)]
pub struct SetForegroundSessionResponse {
    pub success: bool,
    pub error: Option<String>,
}

/// Options for switching models mid-session.
#[derive(Debug, Clone, Default)]
pub struct SetModelOptions {
    pub reasoning_effort: Option<String>,
    /// Reasoning summary mode for models that support configurable summaries.
    pub reasoning_summary: Option<ReasoningSummary>,
    /// Override the runtime's view of the model's capabilities.
    pub model_capabilities: Option<ModelCapabilitiesOverride>,
}

/// Options for executing a shell command.
#[derive(Debug, Clone, Default)]
pub struct ShellExecOptions {
    pub command: String,
    pub cwd: Option<String>,
    pub env: Option<Vec<(String, String)>>,
}

/// Result from executing a shell command.
#[derive(Debug, Clone)]
pub struct ShellExecResult {
    pub process_id: String,
}

/// Signal to send to a shell process.
#[derive(Debug, Clone, Copy, PartialEq, Eq, Structural)]
pub enum ShellSignal {
    SIGINT,
    SIGKILL,
    SIGTERM,
}

/// Where the runtime persists a given class of credentials or caches.
#[derive(Debug, Clone, Copy, PartialEq, Eq, Hash, Default, Structural)]
pub enum StorageMode {
    /// Persist to disk across sessions.
    #[default]
    Persistent,
    /// Keep in memory only; discarded when the session ends.
    InMemory,
}

/// A tool definition as returned by the server.
#[derive(Debug)]
pub struct ToolInfo {
    pub name: String,
    pub description: Option<String>,
    pub parameters: Option<JsonValue>,
}

/// Result from listing available tools.
#[derive(Debug)]
pub struct ToolsListResult {
    pub tools: Vec<ToolInfo>,
}

/// Multi-select string field with labeled options.
#[derive(Debug, Clone, PartialEq, Eq)]
pub struct UIElicitationArrayAnyOfField {
    /// Type discriminator. Always `array`.
    pub field_type: String,
    /// Human-readable label for the field.
    pub title: Option<String>,
    /// Help text describing the field.
    pub description: Option<String>,
    /// Minimum number of items the user must select.
    pub min_items: Option<u64>,
    /// Maximum number of items the user may select.
    pub max_items: Option<u64>,
    /// Schema applied to each item in the array.
    pub items: UIElicitationArrayAnyOfFieldItems,
    /// Default values selected when the form is first shown.
    pub default: Option<Vec<String>>,
}

/// Item schema for a labeled multi-select array field.
#[derive(Debug, Clone, PartialEq, Eq)]
pub struct UIElicitationArrayAnyOfFieldItems {
    /// Selectable options, each with a value and a display label.
    pub any_of: Vec<UIElicitationArrayAnyOfFieldOption>,
}

/// Selectable option for a labeled multi-select string field.
#[derive(Debug, Clone, PartialEq, Eq)]
pub struct UIElicitationArrayAnyOfFieldOption {
    /// Value submitted when this option is selected.
    pub const_value: String,
    /// Display label for this option.
    pub title: String,
}

/// Multi-select string field whose allowed values are defined inline.
#[derive(Debug, Clone, PartialEq, Eq)]
pub struct UIElicitationArrayEnumField {
    /// Type discriminator. Always `array`.
    pub field_type: String,
    /// Human-readable label for the field.
    pub title: Option<String>,
    /// Help text describing the field.
    pub description: Option<String>,
    /// Minimum number of items the user must select.
    pub min_items: Option<u64>,
    /// Maximum number of items the user may select.
    pub max_items: Option<u64>,
    /// Schema applied to each item in the array.
    pub items: UIElicitationArrayEnumFieldItems,
    /// Default values selected when the form is first shown.
    pub default: Option<Vec<String>>,
}

/// Item schema for an inline string-enum array field.
#[derive(Debug, Clone, PartialEq, Eq)]
pub struct UIElicitationArrayEnumFieldItems {
    /// Type discriminator. Always `string`.
    pub item_type: String,
    /// Allowed string values for each selected item.
    pub enum_: Vec<String>,
}

/// Boolean elicitation field.
#[derive(Debug, Clone, PartialEq, Eq)]
pub struct UIElicitationSchemaPropertyBoolean {
    /// Type discriminator. Always `boolean`.
    pub field_type: String,
    /// Human-readable label for the field.
    pub title: Option<String>,
    /// Help text describing the field.
    pub description: Option<String>,
    /// Default value selected when the form is first shown.
    pub default: Option<bool>,
}

/// Numeric JSON type accepted by an elicitation field.
#[derive(Debug, Clone, Copy, PartialEq, Eq, Structural)]
pub enum UIElicitationSchemaPropertyNumberType {
    /// Any JSON number.
    Number,
    /// Integer JSON numbers only.
    Integer,
}

/// Free-text string elicitation field.
#[derive(Debug, Clone, PartialEq, Eq)]
pub struct UIElicitationSchemaPropertyString {
    /// Type discriminator. Always `string`.
    pub field_type: String,
    /// Human-readable label for the field.
    pub title: Option<String>,
    /// Help text describing the field.
    pub description: Option<String>,
    /// Minimum number of characters required.
    pub min_length: Option<u64>,
    /// Maximum number of characters allowed.
    pub max_length: Option<u64>,
    /// Optional string-format hint.
    pub format: Option<UIElicitationSchemaPropertyStringFormat>,
    /// Default value populated in the input when the form is first shown.
    pub default: Option<String>,
}

/// Accepted string-format hints for free-text elicitation fields.
#[derive(Debug, Clone, Copy, PartialEq, Eq, Structural)]
pub enum UIElicitationSchemaPropertyStringFormat {
    /// Email address string format.
    Email,
    /// URI string format.
    Uri,
    /// Calendar-date string format.
    Date,
    /// Date-time string format.
    DateTime,
}

/// Single-select string field whose allowed values are defined inline.
#[derive(Debug, Clone, PartialEq, Eq)]
pub struct UIElicitationStringEnumField {
    /// Type discriminator. Always `string`.
    pub field_type: String,
    /// Human-readable label for the field.
    pub title: Option<String>,
    /// Help text describing the field.
    pub description: Option<String>,
    /// Allowed string values.
    pub enum_: Vec<String>,
    /// Optional display labels for each enum value, in the same order as `enum`.
    pub enum_names: Option<Vec<String>>,
    /// Default value selected when the form is first shown.
    pub default: Option<String>,
}

/// Single-select string field with labeled options.
#[derive(Debug, Clone, PartialEq, Eq)]
pub struct UIElicitationStringOneOfField {
    /// Type discriminator. Always `string`.
    pub field_type: String,
    /// Human-readable label for the field.
    pub title: Option<String>,
    /// Help text describing the field.
    pub description: Option<String>,
    /// Selectable options, each with a value and a display label.
    pub one_of: Vec<UIElicitationStringOneOfFieldOption>,
    /// Default value selected when the form is first shown.
    pub default: Option<String>,
}

/// Selectable option for a labeled single-select string field.
#[derive(Debug, Clone, PartialEq, Eq)]
pub struct UIElicitationStringOneOfFieldOption {
    /// Value submitted when this option is selected.
    pub const_value: String,
    /// Display label for this option.
    pub title: String,
}

/// Context for a user input invocation.
#[derive(Debug, Clone)]
pub struct UserInputInvocation {
    pub session_id: String,
}

/// Request for user input from the server.
#[derive(Debug, Clone)]
pub struct UserInputRequest {
    pub question: String,
    pub choices: Option<Vec<String>>,
    pub allow_freeform: Option<bool>,
}

/// Response to a user input request.
#[derive(Debug, Clone, Default)]
pub struct UserInputResponse {
    pub answer: String,
    pub was_freeform: Option<bool>,
}

/// Attachment item for user messages.
#[derive(Debug, Clone)]
pub struct UserMessageAttachment {
    pub attachment_type: AttachmentType,
    pub path: String,
    pub display_name: String,
}

/// Input for the user-prompt-submitted hook.
#[derive(Debug, Clone)]
pub struct UserPromptSubmittedHookInput {
    pub timestamp: i64,
    pub cwd: String,
    pub prompt: String,
}

/// Output for the user-prompt-submitted hook.
#[derive(Debug, Clone, Default)]
pub struct UserPromptSubmittedHookOutput {
    pub modified_prompt: Option<String>,
    pub additional_context: Option<String>,
    pub suppress_output: Option<bool>,
}

/// Metadata about a workspace file.
#[derive(Debug, Clone)]
pub struct WorkspaceFile {
    pub path: String,
    pub size: Option<u64>,
    pub modified_at: Option<String>,
}

/// Law: each auto-mode-switch answer has its own wire name (`yes`, `yes_always`, `no`), and two different
/// auto-mode-switch answers never share one.
pub proof fn law_auto_mode_response_names(a: AutoModeSwitchResponse, b: AutoModeSwitchResponse)
    ensures
        auto_mode_wire_name(AutoModeSwitchResponse::Yes) == "yes"@,
        auto_mode_wire_name(AutoModeSwitchResponse::YesAlways) == "yes_always"@,
        auto_mode_wire_name(AutoModeSwitchResponse::No) == "no"@,
        a != b ==> auto_mode_wire_name(a) != auto_mode_wire_name(b),
{
    reveal_strlit("yes");
    reveal_strlit("yes_always");
    reveal_strlit("no");
    let n0: Seq<char> = "yes"@;
    let n1: Seq<char> = "yes_always"@;
    let n2: Seq<char> = "no"@;
    assert(n0.len() != n1.len());
    assert(n0.len() != n2.len());
    assert(n1.len() != n2.len());
}

/// Law: each log level has its own wire name (`none`, `debug`, `info`, `warn`, `error`, `all`), and two different
/// log levels never share one.
pub proof fn law_log_level_names(a: LogLevel, b: LogLevel)
    ensures
        log_level_name(LogLevel::Silent) == "none"@,
        log_level_name(LogLevel::Debug) == "debug"@,
        log_level_name(LogLevel::Info) == "info"@,
        log_level_name(LogLevel::Warn) == "warn"@,
        log_level_name(LogLevel::Error) == "error"@,
        log_level_name(LogLevel::All) == "all"@,
        a != b ==> log_level_name(a) != log_level_name(b),
{
    reveal_strlit("none");
    reveal_strlit("debug");
    reveal_strlit("info");
    reveal_strlit("warn");
    reveal_strlit("error");
    reveal_strlit("all");
    let n0: Seq<char> = "none"@;
    let n1: Seq<char> = "debug"@;
    let n2: Seq<char> = "info"@;
    let n3: Seq<char> = "warn"@;
    let n4: Seq<char> = "error"@;
    let n5: Seq<char> = "all"@;
    assert(n0.len() != n1.len());
    assert(n0[0] != n2[0]);
    assert(n0[0] != n3[0]);
    assert(n0.len() != n4.len());
    assert(n0.len() != n5.len());
    assert(n1.len() != n2.len());
    assert(n1.len() != n3.len());
    assert(n1[0] != n4[0]);
    assert(n1.len() != n5.len());
    assert(n2[0] != n3[0]);
    assert(n2.len() != n4.len());
    assert(n2.len() != n5.len());
    assert(n3.len() != n4.len());
    assert(n3.len() != n5.len());
    assert(n4.len() != n5.len());
}

} // verus!
