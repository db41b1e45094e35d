//! Skills, extensions, plugins and slash-command types of the RPC surface.
use crate::error::{CopilotError, ErrorView};
use crate::json::{empty_object, member, set_field, JsonValue, JsonView};
use crate::types::SessionMode;
use crate::json::JsonMap;
use vstd::prelude::*;

verus! {

/// Result of queued-command execution reported back to the runtime.
#[derive(Debug, Clone, Copy, PartialEq, Eq, Structural)]
pub enum QueuedCommandResult {
    /// The host executed the queued command.
    Handled {
        /// When true, the runtime stops processing subsequent queued commands.
        stop_processing_queue: Option<bool>,
    },
    /// The host did not execute the queued command.
    NotHandled,
}

impl QueuedCommandResult {
    /// Construct a handled queued-command result.
    pub fn handled(stop_processing_queue: Option<bool>) -> (r: Self)
        ensures
            r == (QueuedCommandResult::Handled { stop_processing_queue }),
    {
        QueuedCommandResult::Handled { stop_processing_queue }
    }

    /// Construct a not-handled queued-command result.
    pub fn not_handled() -> (r: Self)
        ensures
            r == QueuedCommandResult::NotHandled,
    {
        QueuedCommandResult::NotHandled
    }
}

/// The wire object of a queued-command result: `handled`, and
/// `stopProcessingQueue` only for a handled result that sets it.
pub open spec fn queued_result_wire(r: QueuedCommandResult) -> JsonView {
    match r {
        QueuedCommandResult::Handled { stop_processing_queue } => {
            let o = set_field(empty_object(), "handled"@, JsonView::Bool(true));
            match stop_processing_queue {
                Some(b) => set_field(o, "stopProcessingQueue"@, JsonView::Bool(b)),
                None => o,
            }
        },
        QueuedCommandResult::NotHandled => set_field(
            empty_object(),
            "handled"@,
            JsonView::Bool(false),
        ),
    }
}

/// Whether `key` is a member name of the queued-command result's wire object.
pub open spec fn is_queued_result_key(key: Seq<char>) -> bool {
    key == "handled"@ || key == "stopProcessingQueue"@
}

/// The members hold only known names, each once.
pub open spec fn queued_members_ok(m: Seq<(Seq<char>, JsonView)>) -> bool {
    &&& forall|i: int| 0 <= i < m.len() ==> is_queued_result_key(#[trigger] m[i].0)
    &&& forall|i: int, j: int| 0 <= i < j < m.len() ==> #[trigger] m[i].0 != #[trigger] m[j].0
}

/// The text of the error for a stop flag on an unhandled result.
pub open spec fn stop_without_handled_text() -> Seq<char> {
    "stopProcessingQueue is only valid when handled is true"@
}

/// A well-formed wire object that sets the stop flag on an unhandled result.
pub open spec fn stop_flag_on_unhandled(v: JsonView) -> bool {
    match v {
        JsonView::Object(m) => queued_members_ok(m) && member(m, "handled"@) == Some(
            JsonView::Bool(false),
        ) && match member(m, "stopProcessingQueue"@) {
            Some(JsonView::Bool(_)) => true,
            _ => false,
        },
        _ => false,
    }
}

/// The queued-command result a wire value reads as: an object with only
/// the known members, each once, a boolean `handled` and an optional
/// boolean (or `null`) `stopProcessingQueue`, which an unhandled result may
/// not carry. `None` when the value does not read.
pub open spec fn read_queued_result(v: JsonView) -> Option<QueuedCommandResult> {
    match v {
        JsonView::Object(m) => if !queued_members_ok(m) {
            None
        } else {
            let stop: Option<Option<bool>> = match member(m, "stopProcessingQueue"@) {
                None => Some(None),
                Some(JsonView::Null) => Some(None),
                Some(JsonView::Bool(b)) => Some(Some(b)),
                _ => None,
            };
            match (member(m, "handled"@), stop) {
                (Some(JsonView::Bool(true)), Some(s)) => Some(
                    QueuedCommandResult::Handled { stop_processing_queue: s },
                ),
                (Some(JsonView::Bool(false)), Some(None)) => Some(QueuedCommandResult::NotHandled),
                _ => None,
            }
        },
        _ => None,
    }
}

impl QueuedCommandResult {
    /// The wire object of this result.
    pub fn to_json(&self) -> (r: JsonValue)
        ensures
            r@ == queued_result_wire(*self),
    {
        let mut o = JsonValue::object();
        match self {
            QueuedCommandResult::Handled { stop_processing_queue } => {
                o.set("handled", JsonValue::Bool(true));
                match stop_processing_queue {
                    Some(b) => o.set("stopProcessingQueue", JsonValue::Bool(*b)),
                    None => {},
                }
            },
            QueuedCommandResult::NotHandled => {
                o.set("handled", JsonValue::Bool(false));
            },
        }
        o
    }

    /// Reads a result from its wire object. A stop flag on an unhandled
    /// result is refused with its own message; any other shape is refused
    /// as an invalid result.
    pub fn from_json(v: &JsonValue) -> (r: Result<Self, CopilotError>)
        ensures
            match read_queued_result(v@) {
                Some(q) => r == Ok::<QueuedCommandResult, CopilotError>(q),
                None => r is Err,
            },
            r matches Err(e) ==> e@ is Json,
            stop_flag_on_unhandled(v@) ==> (r matches Err(e) && e@ == ErrorView::Json(
                stop_without_handled_text(),
            )),
    {
        let m = match v {
            JsonValue::Object(m) => m,
            _ => return Err(CopilotError::Json("invalid queued command result".to_owned())),
        };
        let ghost mv = crate::json::members_view(m@);
        proof {
            assert(*v == JsonValue::Object(*m));
            assert(v@ == JsonView::Object(mv));
            crate::json::lemma_members_view(m@);
            reveal_strlit("handled");
            reveal_strlit("stopProcessingQueue");
        }
        let mut i: usize = 0;
        while i < m.len()
            invariant
                i <= m@.len(),
                mv == crate::json::members_view(m@),
                mv.len() == m@.len(),
                forall|j: int| 0 <= j < m@.len() ==> #[trigger] mv[j] == (m@[j].0@, m@[j].1@),
                forall|j: int| 0 <= j < i ==> is_queued_result_key(#[trigger] mv[j].0),
                forall|j: int, k: int| 0 <= j < k < i ==> #[trigger] mv[j].0 != #[trigger] mv[k].0,
                v@ == JsonView::Object(mv),
            decreases m.len() - i,
        {
            let key = m[i].0.as_str();
            if !crate::json::str_eq(key, "handled") && !crate::json::str_eq(key, "stopProcessingQueue") {
                proof {
                    assert(!is_queued_result_key(mv[i as int].0));
                    assert(!queued_members_ok(mv));
                }
                return Err(CopilotError::Json("unknown field in queued command result".to_owned()));
            }
            let mut j: usize = 0;
            while j < i
                invariant
                    j <= i,
                    i < m@.len(),
                    mv == crate::json::members_view(m@),
                    mv.len() == m@.len(),
                    forall|x: int| 0 <= x < m@.len() ==> #[trigger] mv[x] == (m@[x].0@, m@[x].1@),
                    forall|x: int| 0 <= x < j ==> #[trigger] mv[x].0 != mv[i as int].0,
                    key@ == mv[i as int].0,
                    v@ == JsonView::Object(mv),
                decreases i - j,
            {
                if crate::json::str_eq(m[j].0.as_str(), key) {
                    proof {
                        assert(mv[j as int].0 == mv[i as int].0);
                        assert(!queued_members_ok(mv));
                    }
                    return Err(CopilotError::Json("duplicate field in queued command result".to_owned()));
                }
                j = j + 1;
            }
            i = i + 1;
        }
        proof {
            assert(queued_members_ok(mv));
        }
        let stop: Option<bool> = match v.get("stopProcessingQueue") {
            None => None,
            Some(JsonValue::Null) => None,
            Some(JsonValue::Bool(b)) => Some(*b),
            _ => return Err(CopilotError::Json("invalid stopProcessingQueue in queued command result".to_owned())),
        };
        match v.get("handled") {
            Some(JsonValue::Bool(true)) => Ok(QueuedCommandResult::Handled { stop_processing_queue: stop }),
            Some(JsonValue::Bool(false)) => {
                if stop.is_some() {
                    Err(CopilotError::Json("stopProcessingQueue is only valid when handled is true".to_owned()))
                } else {
                    Ok(QueuedCommandResult::NotHandled)
                }
            },
            _ => Err(CopilotError::Json("invalid handled in queued command result".to_owned())),
        }
    }
}

/// Law: reading back the wire object of a queued-command result gives the
/// same result.
pub proof fn law_queued_result_roundtrip(r: QueuedCommandResult)
    ensures
        read_queued_result(queued_result_wire(r)) == Some(r),
{
    reveal_strlit("handled");
    reveal_strlit("stopProcessingQueue");
    assert("handled"@ != "stopProcessingQueue"@) by {
        assert("handled"@.len() != "stopProcessingQueue"@.len());
    }
    let e: Seq<(Seq<char>, JsonView)> = Seq::empty();
    match r {
        QueuedCommandResult::Handled { stop_processing_queue } => {
            let m1 = crate::json::set_member(e, "handled"@, JsonView::Bool(true));
            assert(m1 =~= seq![("handled"@, JsonView::Bool(true))]);
            match stop_processing_queue {
                Some(b) => {
                    let m2 = crate::json::set_member(m1, "stopProcessingQueue"@, JsonView::Bool(b));
                    assert(m1.drop_first() =~= e);
                    assert(crate::json::set_member(e, "stopProcessingQueue"@, JsonView::Bool(b))
                        =~= seq![("stopProcessingQueue"@, JsonView::Bool(b))]);
                    assert(m2 =~= seq![
                        ("handled"@, JsonView::Bool(true)),
                        ("stopProcessingQueue"@, JsonView::Bool(b)),
                    ]);
                    assert(m2.drop_first() =~= seq![("stopProcessingQueue"@, JsonView::Bool(b))]);
                    assert(m2.drop_first().drop_first() =~= e);
                    assert(member(m2, "handled"@) == Some(JsonView::Bool(true)));
                    assert(m2[0].0 == "handled"@);
                    assert(m2.drop_first()[0].0 == "stopProcessingQueue"@);
                    assert(member(m2.drop_first(), "stopProcessingQueue"@) == Some(JsonView::Bool(b)));
                    assert(member(m2, "stopProcessingQueue"@) == Some(JsonView::Bool(b)));
                    assert(queued_members_ok(m2));
                },
                None => {
                    assert(m1.drop_first() =~= e);
                    assert(m1[0].0 == "handled"@);
                    assert(member(m1.drop_first(), "stopProcessingQueue"@) is None);
                    assert(member(m1, "stopProcessingQueue"@) is None);
                    assert(queued_members_ok(m1));
                },
            }
        },
        QueuedCommandResult::NotHandled => {
            let m1 = crate::json::set_member(e, "handled"@, JsonView::Bool(false));
            assert(m1 =~= seq![("handled"@, JsonView::Bool(false))]);
            assert(m1.drop_first() =~= e);
            assert(m1[0].0 == "handled"@);
            assert(member(m1.drop_first(), "stopProcessingQueue"@) is None);
            assert(member(m1, "stopProcessingQueue"@) is None);
            assert(queued_members_ok(m1));
        },
    }
}

// -----------------------------------------------------------------------------
// Wire data
// -----------------------------------------------------------------------------

/// Result for `session.commands.list`.
#[derive(Debug, Clone)]
pub struct CommandList {
    /// Commands available in this session.
    pub commands: Vec<SlashCommandInfo>,
}

/// Optional filters for `session.commands.list`.
#[derive(Debug, Clone, Default)]
pub struct CommandsListRequest {
    /// Include runtime built-in commands in the listing.
    pub include_builtins: Option<bool>,
    /// Include enabled user-invocable skills and commands in the listing.
    pub include_skills: Option<bool>,
    /// Include commands registered by SDK clients and extensions.
    pub include_client_commands: Option<bool>,
}

/// Result for `session.commands.respondToQueuedCommand`.
#[derive(Debug, Clone)]
pub struct CommandsRespondToQueuedCommandResult {
    /// Whether the queued-command response matched and resolved a pending request.
    pub success: bool,
}

/// Result for `session.commands.enqueue`.
#[derive(Debug, Clone)]
pub struct EnqueueCommandResult {
    /// Whether the command was accepted into the local execution queue.
    pub queued: bool,
}

/// Result for `session.commands.execute`.
#[derive(Debug, Clone)]
pub struct ExecuteCommandResult {
    /// Error message produced while executing the command, if any.
    pub error: Option<String>,
}

/// An extension discovered for the active session.
#[derive(Debug, Clone)]
pub struct Extension {
    /// Source-qualified extension identifier.
    pub id: String,
    /// Extension name.
    pub name: String,
    /// Discovery source for the extension.
    pub source: ExtensionSource,
    /// Current runtime status.
    pub status: ExtensionStatus,
    /// Process ID if the extension is running.
    pub pid: Option<u32>,
}

/// Result for `session.extensions.list`.
#[derive(Debug, Clone)]
pub struct ExtensionList {
    /// Discovered extensions and their current status.
    pub extensions: Vec<Extension>,
}

/// Where an extension was discovered from.
#[derive(Debug, Clone, Copy, PartialEq, Eq, Structural)]
pub enum ExtensionSource {
    /// Extension discovered from the current project's `.github/extensions` directory.
    Project,
    /// Extension discovered from the user's `~/.copilot/extensions` directory.
    User,
}

/// Runtime status of an extension.
#[derive(Debug, Clone, Copy, PartialEq, Eq, Structural)]
pub enum ExtensionStatus {
    /// The extension process is running.
    Running,
    /// The extension is installed but disabled.
    Disabled,
    /// The extension failed to start or crashed.
    Failed,
    /// The extension process is starting.
    Starting,
}

/// A plugin installed for the active session.
#[derive(Debug, Clone)]
pub struct Plugin {
    /// Plugin name.
    pub name: String,
    /// Marketplace the plugin came from.
    pub marketplace: String,
    /// Installed version, when reported.
    pub version: Option<String>,
    /// Whether the plugin is currently enabled.
    pub enabled: bool,
}

/// Result for `session.plugins.list`.
#[derive(Debug, Clone)]
pub struct PluginList {
    /// Installed plugins.
    pub plugins: Vec<Plugin>,
}

/// A skill discovered for the active session.
#[derive(Debug, Clone)]
pub struct Skill {
    /// Unique identifier for the skill.
    pub name: String,
    /// Description of what the skill does.
    pub description: String,
    /// Source location type for the skill.
    pub source: SkillSource,
    /// Whether the skill can be invoked by the user as a slash command.
    pub user_invocable: bool,
    /// Whether the skill is currently enabled.
    pub enabled: bool,
    /// Absolute path to the skill file.
    pub path: Option<String>,
    /// Name of the plugin that provides the skill, when applicable.
    pub plugin_name: Option<String>,
}

/// Result for `session.skills.list`.
#[derive(Debug, Clone)]
pub struct SkillList {
    /// Skills available to the session.
    pub skills: Vec<Skill>,
}

/// Where a skill was loaded from.
#[derive(Debug, Clone, Copy, PartialEq, Eq, Structural)]
pub enum SkillSource {
    /// Skill defined in the current project's skill directories.
    Project,
    /// Skill inherited from a parent directory in the workspace tree.
    Inherited,
    /// Skill defined in the user's Copilot skill directory.
    PersonalCopilot,
    /// Skill defined in the user's personal agents skill directory.
    PersonalAgents,
    /// Skill provided by an installed plugin.
    Plugin,
    /// Skill loaded from a configured custom skill directory.
    Custom,
    /// Skill bundled with the runtime.
    Builtin,
}

/// Result for `session.skills.getInvoked`.
#[derive(Debug, Clone)]
pub struct SkillsGetInvokedResult {
    /// Skills invoked during this session, ordered by invocation time.
    pub skills: Vec<SkillsInvokedSkill>,
}

/// A skill that has been invoked during the active session.
#[derive(Debug, Clone)]
pub struct SkillsInvokedSkill {
    /// Unique identifier for the skill.
    pub name: String,
    /// Path to the `SKILL.md` file.
    pub path: String,
    /// Full content of the skill file.
    pub content: String,
    /// Tools auto-approved while the skill was active, if any.
    pub allowed_tools: Option<Vec<String>>,
    /// Turn number when the skill was invoked.
    pub invoked_at_turn: u64,
}

/// Diagnostics returned by `session.skills.reload`.
#[derive(Debug, Clone)]
pub struct SkillsLoadDiagnostics {
    /// Warnings emitted while loading skills.
    pub warnings: Vec<String>,
    /// Errors emitted while loading skills.
    pub errors: Vec<String>,
}

/// Slash-command metadata returned by `session.commands.list`.
#[derive(Debug, Clone)]
pub struct SlashCommandInfo {
    /// Canonical command name without a leading slash.
    pub name: String,
    /// Canonical aliases without leading slashes.
    pub aliases: Option<Vec<String>>,
    /// Human-readable command description.
    pub description: String,
    /// Coarse command category for grouping and behavior.
    pub kind: SlashCommandKind,
    /// Optional unstructured input hint.
    pub input: Option<SlashCommandInput>,
    /// Whether the command may run while an agent turn is active.
    pub allow_during_agent_execution: bool,
    /// Whether the command is experimental.
    pub experimental: Option<bool>,
}

/// Optional unstructured input hint for a slash command.
#[derive(Debug, Clone)]
pub struct SlashCommandInput {
    /// Hint to display when command input has not been provided.
    pub hint: String,
    /// Whether the command requires non-empty input.
    pub required: Option<bool>,
    /// Optional completion hint for the input.
    pub completion: Option<SlashCommandInputCompletion>,
    /// Whether clients should preserve multiline input as a single argument.
    pub preserve_multiline_input: Option<bool>,
}

/// Completion hint for a slash-command input field.
#[derive(Debug, Clone, Copy, PartialEq, Eq, Structural)]
pub enum SlashCommandInputCompletion {
    /// Input should complete filesystem directories.
    Directory,
}

/// Result of invoking a slash command.
#[derive(Debug, Clone)]
pub enum SlashCommandInvocationResult {
    /// Text output for the client to render.
    Text {
        /// Text output for the client to render.
        text: String,
        /// Whether the text contains Markdown.
        markdown: Option<bool>,
        /// Whether ANSI sequences should be preserved.
        preserve_ansi: Option<bool>,
        /// Whether the invocation changed runtime settings.
        runtime_settings_changed: Option<bool>,
    },
    /// Prompt that should be sent to the agent.
    AgentPrompt {
        /// Prompt to submit to the agent.
        prompt: String,
        /// Prompt text to display to the user.
        display_prompt: String,
        /// Optional target session mode for the agent prompt.
        mode: Option<SessionMode>,
        /// Whether the invocation changed runtime settings.
        runtime_settings_changed: Option<bool>,
    },
    /// Command completion result with an optional user-facing message.
    Completed {
        /// Optional message describing the completed command.
        message: Option<String>,
        /// Whether the invocation changed runtime settings.
        runtime_settings_changed: Option<bool>,
    },
    /// Request for the client to present subcommand choices.
    SelectSubcommand {
        /// Parent command name that requires subcommand selection.
        command: String,
        /// Human-readable title for the selection UI.
        title: String,
        /// Available subcommand options for the client to present.
        options: Vec<SlashCommandSelectSubcommandOption>,
        /// Whether the invocation changed runtime settings.
        runtime_settings_changed: Option<bool>,
    },
}

/// Coarse slash-command category.
#[derive(Debug, Clone, Copy, PartialEq, Eq, Structural)]
pub enum SlashCommandKind {
    /// Command implemented by the runtime.
    Builtin,
    /// Command backed by a skill.
    Skill,
    /// Command registered by an SDK client or extension.
    Client,
}

/// A subcommand option returned by `select-subcommand` slash-command results.
#[derive(Debug, Clone)]
pub struct SlashCommandSelectSubcommandOption {
    /// Subcommand name to invoke.
    pub name: String,
    /// Human-readable description of the subcommand.
    pub description: String,
    /// Optional group label for organizing options.
    pub group: Option<String>,
}

} // verus!
