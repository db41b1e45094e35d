//! The parameters of the session's management requests (models, options,
//! plans, agents, compaction, fleets, shell processes and workspace files)
//! and what their responses are read as.
use crate::error::{CopilotError, ErrorView};
use crate::json::{empty_object, field, set_field, JsonValue, JsonView};
use crate::session::session_params;
use crate::types::{
    FleetStartOptions, ModelCapabilitiesOverride, ModelCapabilitiesOverrideLimits,
    ModelCapabilitiesOverrideLimitsVision, ModelCapabilitiesOverrideSupports, PlanData,
    ReasoningSummary, SessionInstalledPlugin, SessionUpdateOptions, SetModelOptions,
    ShellExecOptions, ShellExecResult, ShellSignal,
};
use vstd::prelude::*;
use vstd::string::*;

verus! {

// =============================================================================
// Building objects
// =============================================================================

/// The object holding each `(name, text)` pair, set in order.
pub open spec fn text_pairs_object(pairs: Seq<(String, String)>) -> JsonView
    decreases pairs.len(),
{
    if pairs.len() == 0 {
        empty_object()
    } else {
        set_field(
            text_pairs_object(pairs.drop_last()),
            pairs.last().0@,
            JsonView::Str(pairs.last().1@),
        )
    }
}

pub(crate) fn text_pairs_json(pairs: &Vec<(String, String)>) -> (r: JsonValue)
    ensures
        r@ == text_pairs_object(pairs@),
{
    let mut o = JsonValue::object();
    let mut i: usize = 0;
    while i < pairs.len()
        invariant
            0 <= i <= pairs.len(),
            o@ == text_pairs_object(pairs@.take(i as int)),
        decreases pairs.len() - i,
    {
        proof {
            assert(pairs@.take(i + 1).drop_last() =~= pairs@.take(i as int));
        }
        o.set(pairs[i].0.as_str(), JsonValue::string(pairs[i].1.as_str()));
        i = i + 1;
    }
    proof {
        assert(pairs@.take(pairs.len() as int) =~= pairs@);
    }
    o
}

/// The JSON array of the given texts.
pub open spec fn texts_array(items: Seq<String>) -> JsonView {
    JsonView::Array(items.map_values(|s: String| JsonView::Str(s@)))
}

pub(crate) fn texts_json(items: &Vec<String>) -> (r: JsonValue)
    ensures
        r@ == texts_array(items@),
{
    let mut out: Vec<JsonValue> = Vec::new();
    let mut i: usize = 0;
    while i < items.len()
        invariant
            0 <= i <= items.len(),
            crate::json::items_view(out@) =~= items@.take(i as int).map_values(
                |s: String| JsonView::Str(s@),
            ),
        decreases items.len() - i,
    {
        let ghost before = out@;
        out.push(JsonValue::string(items[i].as_str()));
        proof {
            assert(out@.drop_last() =~= before);
            assert(items@.take(i + 1).map_values(|s: String| JsonView::Str(s@)) =~= items@.take(
                i as int,
            ).map_values(|s: String| JsonView::Str(s@)).push(JsonView::Str(items@[i as int]@)));
        }
        i = i + 1;
    }
    proof {
        assert(items@.take(items.len() as int) =~= items@);
    }
    JsonValue::Array(out)
}

/// `p` with `key` set to `value` when there is one.
pub open spec fn opt_set(p: JsonView, key: Seq<char>, value: Option<JsonView>) -> JsonView {
    match value {
        Some(v) => set_field(p, key, v),
        None => p,
    }
}

/// The model of an optional text.
pub open spec fn opt_text_json(v: Option<String>) -> Option<JsonView> {
    match v {
        Some(t) => Some(JsonView::Str(t@)),
        None => None,
    }
}

/// The model of an optional flag.
pub open spec fn opt_bool_json(v: Option<bool>) -> Option<JsonView> {
    match v {
        Some(b) => Some(JsonView::Bool(b)),
        None => None,
    }
}

/// The model of an optional count.
pub open spec fn opt_u64_json(v: Option<u64>) -> Option<JsonView> {
    match v {
        Some(n) => Some(JsonView::Number(crate::json::decimal_text(n as nat))),
        None => None,
    }
}

/// The model of an optional list of texts.
pub open spec fn opt_texts_json(v: Option<Vec<String>>) -> Option<JsonView> {
    match v {
        Some(t) => Some(texts_array(t@)),
        None => None,
    }
}

pub(crate) fn set_opt_text(p: &mut JsonValue, key: &str, v: &Option<String>)
    ensures
        final(p)@ == opt_set(old(p)@, key@, opt_text_json(*v)),
{
    match v {
        Some(t) => p.set(key, JsonValue::string(t.as_str())),
        None => {},
    }
}

pub(crate) fn set_opt_bool(p: &mut JsonValue, key: &str, v: Option<bool>)
    ensures
        final(p)@ == opt_set(old(p)@, key@, opt_bool_json(v)),
{
    match v {
        Some(b) => p.set(key, JsonValue::Bool(b)),
        None => {},
    }
}

pub(crate) fn set_opt_u64(p: &mut JsonValue, key: &str, v: Option<u64>)
    ensures
        final(p)@ == opt_set(old(p)@, key@, opt_u64_json(v)),
{
    match v {
        Some(n) => p.set(key, JsonValue::from_u64(n)),
        None => {},
    }
}

pub(crate) fn set_opt_texts(p: &mut JsonValue, key: &str, v: &Option<Vec<String>>)
    ensures
        final(p)@ == opt_set(old(p)@, key@, opt_texts_json(*v)),
{
    match v {
        Some(t) => p.set(key, texts_json(t)),
        None => {},
    }
}

pub(crate) fn set_opt_json(p: &mut JsonValue, key: &str, v: &Option<JsonValue>)
    ensures
        final(p)@ == opt_set(old(p)@, key@, crate::json::opt_json_view(*v)),
{
    match v {
        Some(x) => p.set(key, x.deep_clone()),
        None => {},
    }
}

/// `p` with each of `members` set in turn, from the first.
pub open spec fn merge_members(p: JsonView, members: Seq<(Seq<char>, JsonView)>) -> JsonView
    decreases members.len(),
{
    if members.len() == 0 {
        p
    } else {
        merge_members(set_field(p, members[0].0, members[0].1), members.drop_first())
    }
}

/// `p` with the members of `extra` set over it, when `extra` is an object.
pub open spec fn merge_object(p: JsonView, extra: JsonView) -> JsonView {
    match extra {
        JsonView::Object(m) => merge_members(p, m),
        _ => p,
    }
}

// =============================================================================
// Switching models
// =============================================================================

/// The wire name of a reasoning summary mode.
pub open spec fn reasoning_summary_name(r: ReasoningSummary) -> Seq<char> {
    match r {
        ReasoningSummary::Omitted => "none"@,
        ReasoningSummary::Concise => "concise"@,
        ReasoningSummary::Detailed => "detailed"@,
    }
}

fn reasoning_summary_str(r: ReasoningSummary) -> (s: &'static str)
    ensures
        s@ == reasoning_summary_name(r),
{
    match r {
        ReasoningSummary::Omitted => "none",
        ReasoningSummary::Concise => "concise",
        ReasoningSummary::Detailed => "detailed",
    }
}

/// The wire object of capability flags (`vision`, `reasoningEffort`), each when set.
pub open spec fn supports_wire(s: ModelCapabilitiesOverrideSupports) -> JsonView {
    opt_set(
        opt_set(empty_object(), "vision"@, opt_bool_json(s.vision)),
        "reasoningEffort"@,
        opt_bool_json(s.reasoning_effort),
    )
}

/// The wire object of vision limits, whose keys are the field names as they are.
pub open spec fn vision_limits_wire(v: ModelCapabilitiesOverrideLimitsVision) -> JsonView {
    let p = opt_set(empty_object(), "supported_media_types"@, opt_texts_json(v.supported_media_types));
    let p = opt_set(p, "max_prompt_images"@, opt_u64_json(v.max_prompt_images));
    opt_set(p, "max_prompt_image_size"@, opt_u64_json(v.max_prompt_image_size))
}

/// The wire object of token limits, whose keys are the field names as they are.
pub open spec fn limits_wire(l: ModelCapabilitiesOverrideLimits) -> JsonView {
    let p = opt_set(empty_object(), "max_prompt_tokens"@, opt_u64_json(l.max_prompt_tokens));
    let p = opt_set(p, "max_output_tokens"@, opt_u64_json(l.max_output_tokens));
    let p = opt_set(p, "max_context_window_tokens"@, opt_u64_json(l.max_context_window_tokens));
    opt_set(
        p,
        "vision"@,
        match l.vision {
            Some(v) => Some(vision_limits_wire(v)),
            None => None,
        },
    )
}

/// The wire object of a capability override: `supports` and `limits`, each when set.
pub open spec fn capabilities_wire(c: ModelCapabilitiesOverride) -> JsonView {
    let p = opt_set(
        empty_object(),
        "supports"@,
        match c.supports {
            Some(s) => Some(supports_wire(s)),
            None => None,
        },
    );
    opt_set(
        p,
        "limits"@,
        match c.limits {
            Some(l) => Some(limits_wire(l)),
            None => None,
        },
    )
}

/// The wire object of model-switch options: `reasoningEffort`,
/// `reasoningSummary` and `modelCapabilities`, each when set.
pub open spec fn set_model_options_wire(o: SetModelOptions) -> JsonView {
    let p = opt_set(empty_object(), "reasoningEffort"@, opt_text_json(o.reasoning_effort));
    let p = opt_set(
        p,
        "reasoningSummary"@,
        match o.reasoning_summary {
            Some(r) => Some(JsonView::Str(reasoning_summary_name(r))),
            None => None,
        },
    );
    opt_set(
        p,
        "modelCapabilities"@,
        match o.model_capabilities {
            Some(c) => Some(capabilities_wire(c)),
            None => None,
        },
    )
}

fn supports_json(s: &ModelCapabilitiesOverrideSupports) -> (r: JsonValue)
    ensures
        r@ == supports_wire(*s),
{
    let mut p = JsonValue::object();
    set_opt_bool(&mut p, "vision", s.vision);
    set_opt_bool(&mut p, "reasoningEffort", s.reasoning_effort);
    p
}

fn vision_limits_json(v: &ModelCapabilitiesOverrideLimitsVision) -> (r: JsonValue)
    ensures
        r@ == vision_limits_wire(*v),
{
    let mut p = JsonValue::object();
    set_opt_texts(&mut p, "supported_media_types", &v.supported_media_types);
    set_opt_u64(&mut p, "max_prompt_images", v.max_prompt_images);
    set_opt_u64(&mut p, "max_prompt_image_size", v.max_prompt_image_size);
    p
}

fn limits_json(l: &ModelCapabilitiesOverrideLimits) -> (r: JsonValue)
    ensures
        r@ == limits_wire(*l),
{
    let mut p = JsonValue::object();
    set_opt_u64(&mut p, "max_prompt_tokens", l.max_prompt_tokens);
    set_opt_u64(&mut p, "max_output_tokens", l.max_output_tokens);
    set_opt_u64(&mut p, "max_context_window_tokens", l.max_context_window_tokens);
    match &l.vision {
        Some(v) => p.set("vision", vision_limits_json(v)),
        None => {},
    }
    p
}

fn capabilities_json(c: &ModelCapabilitiesOverride) -> (r: JsonValue)
    ensures
        r@ == capabilities_wire(*c),
{
    let mut p = JsonValue::object();
    match &c.supports {
        Some(s) => p.set("supports", supports_json(s)),
        None => {},
    }
    match &c.limits {
        Some(l) => p.set("limits", limits_json(l)),
        None => {},
    }
    p
}

fn set_model_options_json(o: &SetModelOptions) -> (r: JsonValue)
    ensures
        r@ == set_model_options_wire(*o),
{
    let mut p = JsonValue::object();
    set_opt_text(&mut p, "reasoningEffort", &o.reasoning_effort);
    match o.reasoning_summary {
        Some(r) => p.set("reasoningSummary", JsonValue::string(reasoning_summary_str(r))),
        None => {},
    }
    match &o.model_capabilities {
        Some(c) => p.set("modelCapabilities", capabilities_json(c)),
        None => {},
    }
    p
}

/// The parameters of `session.model.switchTo`: `sessionId` and `modelId`,
/// with the options' wire members merged over them.
pub fn set_model_params(session_id: &str, model: &str, options: Option<&SetModelOptions>) -> (r: JsonValue)
    ensures
        r@ == (match options {
            Some(o) => merge_object(
                set_field(
                    set_field(empty_object(), "sessionId"@, JsonView::Str(session_id@)),
                    "modelId"@,
                    JsonView::Str(model@),
                ),
                set_model_options_wire(*o),
            ),
            None => set_field(
                set_field(empty_object(), "sessionId"@, JsonView::Str(session_id@)),
                "modelId"@,
                JsonView::Str(model@),
            ),
        }),
{
    let mut p = session_params(session_id);
    p.set("modelId", JsonValue::string(model));
    let ghost base = p@;
    match options {
        None => {},
        Some(o) => {
            let w = set_model_options_json(o);
            if let JsonValue::Object(m) = &w {
                let ghost mv = crate::json::members_view(m@);
                proof {
                    crate::json::lemma_members_view(m@);
                    assert(mv.skip(0) =~= mv);
                }
                let mut i: usize = 0;
                while i < m.len()
                    invariant
                        0 <= i <= m.len(),
                        mv == crate::json::members_view(m@),
                        mv.len() == m@.len(),
                        forall|j: int| 0 <= j < m@.len() ==> #[trigger] mv[j] == (m@[j].0@, m@[j].1@),
                        merge_members(p@, mv.skip(i as int)) == merge_members(base, mv),
                    decreases m.len() - i,
                {
                    proof {
                        assert(mv.skip(i as int).drop_first() =~= mv.skip(i + 1));
                        assert(mv.skip(i as int)[0] == mv[i as int]);
                    }
                    p.set(m[i].0.as_str(), m[i].1.deep_clone());
                    i = i + 1;
                }
                proof {
                    assert(mv.skip(m.len() as int) =~= Seq::<(Seq<char>, JsonView)>::empty());
                }
            }
        },
    }
    p
}

// =============================================================================
// Patching session options
// =============================================================================

/// The object holding each `(name, flag)` pair, set in order.
pub open spec fn flag_pairs_object(pairs: Seq<(String, bool)>) -> JsonView
    decreases pairs.len(),
{
    if pairs.len() == 0 {
        empty_object()
    } else {
        set_field(flag_pairs_object(pairs.drop_last()), pairs.last().0@, JsonView::Bool(pairs.last().1))
    }
}

fn flag_pairs_json(pairs: &Vec<(String, bool)>) -> (r: JsonValue)
    ensures
        r@ == flag_pairs_object(pairs@),
{
    let mut o = JsonValue::object();
    let mut i: usize = 0;
    while i < pairs.len()
        invariant
            0 <= i <= pairs.len(),
            o@ == flag_pairs_object(pairs@.take(i as int)),
        decreases pairs.len() - i,
    {
        proof {
            assert(pairs@.take(i + 1).drop_last() =~= pairs@.take(i as int));
        }
        o.set(pairs[i].0.as_str(), JsonValue::Bool(pairs[i].1));
        i = i + 1;
    }
    proof {
        assert(pairs@.take(pairs.len() as int) =~= pairs@);
    }
    o
}

/// The wire object of an installed plugin, whose keys are the field names as
/// they are: `name`, `marketplace`, `installed_at`, `enabled`, then
/// `version`, `cache_path` and `source` when set.
pub open spec fn plugin_wire(p: SessionInstalledPlugin) -> JsonView {
    let o = set_field(empty_object(), "name"@, JsonView::Str(p.name@));
    let o = set_field(o, "marketplace"@, JsonView::Str(p.marketplace@));
    let o = set_field(o, "installed_at"@, JsonView::Str(p.installed_at@));
    let o = set_field(o, "enabled"@, JsonView::Bool(p.enabled));
    let o = opt_set(o, "version"@, opt_text_json(p.version));
    let o = opt_set(o, "cache_path"@, opt_text_json(p.cache_path));
    opt_set(o, "source"@, crate::json::opt_json_view(p.source))
}

/// The JSON array of the plugins' wire objects.
pub open spec fn plugins_array(v: Seq<SessionInstalledPlugin>) -> JsonView {
    JsonView::Array(v.map_values(|p: SessionInstalledPlugin| plugin_wire(p)))
}

fn plugin_json(p: &SessionInstalledPlugin) -> (r: JsonValue)
    ensures
        r@ == plugin_wire(*p),
{
    let mut o = JsonValue::object();
    o.set("name", JsonValue::string(p.name.as_str()));
    o.set("marketplace", JsonValue::string(p.marketplace.as_str()));
    o.set("installed_at", JsonValue::string(p.installed_at.as_str()));
    o.set("enabled", JsonValue::Bool(p.enabled));
    set_opt_text(&mut o, "version", &p.version);
    set_opt_text(&mut o, "cache_path", &p.cache_path);
    set_opt_json(&mut o, "source", &p.source);
    o
}

fn plugins_json(v: &Vec<SessionInstalledPlugin>) -> (r: JsonValue)
    ensures
        r@ == plugins_array(v@),
{
    let mut out: Vec<JsonValue> = Vec::new();
    let mut i: usize = 0;
    while i < v.len()
        invariant
            0 <= i <= v.len(),
            crate::json::items_view(out@) =~= v@.take(i as int).map_values(
                |p: SessionInstalledPlugin| plugin_wire(p),
            ),
        decreases v.len() - i,
    {
        let ghost before = out@;
        out.push(plugin_json(&v[i]));
        proof {
            assert(out@.drop_last() =~= before);
            assert(v@.take(i + 1).map_values(|p: SessionInstalledPlugin| plugin_wire(p)) =~= v@.take(
                i as int,
            ).map_values(|p: SessionInstalledPlugin| plugin_wire(p)).push(plugin_wire(v@[i as int])));
        }
        i = i + 1;
    }
    proof {
        assert(v@.take(v.len() as int) =~= v@);
    }
    JsonValue::Array(out)
}

fn values_json(v: &Vec<JsonValue>) -> (r: JsonValue)
    ensures
        r@ == JsonView::Array(crate::json::items_view(v@)),
{
    let mut out: Vec<JsonValue> = Vec::new();
    let mut i: usize = 0;
    while i < v.len()
        invariant
            0 <= i <= v.len(),
            crate::json::items_view(out@) == crate::json::items_view(v@.take(i as int)),
        decreases v.len() - i,
    {
        let ghost before = out@;
        out.push(v[i].deep_clone());
        proof {
            assert(out@.drop_last() =~= before);
            assert(v@.take(i + 1).drop_last() =~= v@.take(i as int));
        }
        i = i + 1;
    }
    proof {
        assert(v@.take(v.len() as int) =~= v@);
    }
    JsonValue::Array(out)
}

/// The wire object of an options patch: each set field under its camelCase
/// name, in declaration order.
pub open spec fn update_options_wire(o: SessionUpdateOptions) -> JsonView {
    let p = opt_set(empty_object(), "model"@, opt_text_json(o.model));
    let p = opt_set(p, "reasoningEffort"@, opt_text_json(o.reasoning_effort));
    let p = opt_set(p, "clientName"@, opt_text_json(o.client_name));
    let p = opt_set(p, "lspClientName"@, opt_text_json(o.lsp_client_name));
    let p = opt_set(p, "integrationId"@, opt_text_json(o.integration_id));
    let p = opt_set(
        p,
        "featureFlags"@,
        match o.feature_flags {
            Some(v) => Some(flag_pairs_object(v@)),
            None => None,
        },
    );
    let p = opt_set(p, "isExperimentalMode"@, opt_bool_json(o.is_experimental_mode));
    let p = opt_set(p, "provider"@, crate::json::opt_json_view(o.provider));
    let p = opt_set(p, "workingDirectory"@, opt_text_json(o.working_directory));
    let p = opt_set(p, "availableTools"@, opt_texts_json(o.available_tools));
    let p = opt_set(p, "excludedTools"@, opt_texts_json(o.excluded_tools));
    let p = opt_set(p, "toolFilterPrecedence"@, opt_text_json(o.tool_filter_precedence));
    let p = opt_set(p, "enableScriptSafety"@, opt_bool_json(o.enable_script_safety));
    let p = opt_set(p, "shellInitProfile"@, opt_text_json(o.shell_init_profile));
    let p = opt_set(p, "shellProcessFlags"@, opt_texts_json(o.shell_process_flags));
    let p = opt_set(p, "sandboxConfig"@, crate::json::opt_json_view(o.sandbox_config));
    let p = opt_set(p, "logInteractiveShells"@, opt_bool_json(o.log_interactive_shells));
    let p = opt_set(p, "envValueMode"@, opt_text_json(o.env_value_mode));
    let p = opt_set(p, "skillDirectories"@, opt_texts_json(o.skill_directories));
    let p = opt_set(p, "disabledSkills"@, opt_texts_json(o.disabled_skills));
    let p = opt_set(
        p,
        "enableOnDemandInstructionDiscovery"@,
        opt_bool_json(o.enable_on_demand_instruction_discovery),
    );
    let p = opt_set(
        p,
        "installedPlugins"@,
        match o.installed_plugins {
            Some(v) => Some(plugins_array(v@)),
            None => None,
        },
    );
    let p = opt_set(p, "customAgentsLocalOnly"@, opt_bool_json(o.custom_agents_local_only));
    let p = opt_set(p, "skipCustomInstructions"@, opt_bool_json(o.skip_custom_instructions));
    let p = opt_set(p, "disabledInstructionSources"@, opt_texts_json(o.disabled_instruction_sources));
    let p = opt_set(p, "coauthorEnabled"@, opt_bool_json(o.coauthor_enabled));
    let p = opt_set(p, "trajectoryFile"@, opt_text_json(o.trajectory_file));
    let p = opt_set(p, "enableStreaming"@, opt_bool_json(o.enable_streaming));
    let p = opt_set(p, "copilotUrl"@, opt_text_json(o.copilot_url));
    let p = opt_set(p, "askUserDisabled"@, opt_bool_json(o.ask_user_disabled));
    let p = opt_set(p, "continueOnAutoMode"@, opt_bool_json(o.continue_on_auto_mode));
    let p = opt_set(p, "runningInInteractiveMode"@, opt_bool_json(o.running_in_interactive_mode));
    let p = opt_set(p, "enableReasoningSummaries"@, opt_bool_json(o.enable_reasoning_summaries));
    let p = opt_set(p, "agentContext"@, opt_text_json(o.agent_context));
    let p = opt_set(p, "eventsLogDirectory"@, opt_text_json(o.events_log_directory));
    let p = opt_set(
        p,
        "additionalContentExclusionPolicies"@,
        match o.additional_content_exclusion_policies {
            Some(v) => Some(JsonView::Array(crate::json::items_view(v@))),
            None => None,
        },
    );
    let p = opt_set(p, "manageScheduleEnabled"@, opt_bool_json(o.manage_schedule_enabled));
    let p = opt_set(p, "skipEmbeddingRetrieval"@, opt_bool_json(o.skip_embedding_retrieval));
    let p = opt_set(p, "organizationCustomInstructions"@, opt_text_json(o.organization_custom_instructions));
    let p = opt_set(p, "enableFileHooks"@, opt_bool_json(o.enable_file_hooks));
    let p = opt_set(p, "enableHostGitOperations"@, opt_bool_json(o.enable_host_git_operations));
    let p = opt_set(p, "enableSessionStore"@, opt_bool_json(o.enable_session_store));
    opt_set(p, "enableSkills"@, opt_bool_json(o.enable_skills))
}

/// No field of the patch is set.
pub open spec fn update_options_empty(o: SessionUpdateOptions) -> bool {
    o.model is None
    && o.reasoning_effort is None
    && o.client_name is None
    && o.lsp_client_name is None
    && o.integration_id is None
    && o.feature_flags is None
    && o.is_experimental_mode is None
    && o.provider is None
    && o.working_directory is None
    && o.available_tools is None
    && o.excluded_tools is None
    && o.tool_filter_precedence is None
    && o.enable_script_safety is None
    && o.shell_init_profile is None
    && o.shell_process_flags is None
    && o.sandbox_config is None
    && o.log_interactive_shells is None
    && o.env_value_mode is None
    && o.skill_directories is None
    && o.disabled_skills is None
    && o.enable_on_demand_instruction_discovery is None
    && o.installed_plugins is None
    && o.custom_agents_local_only is None
    && o.skip_custom_instructions is None
    && o.disabled_instruction_sources is None
    && o.coauthor_enabled is None
    && o.trajectory_file is None
    && o.enable_streaming is None
    && o.copilot_url is None
    && o.ask_user_disabled is None
    && o.continue_on_auto_mode is None
    && o.running_in_interactive_mode is None
    && o.enable_reasoning_summaries is None
    && o.agent_context is None
    && o.events_log_directory is None
    && o.additional_content_exclusion_policies is None
    && o.manage_schedule_enabled is None
    && o.skip_embedding_retrieval is None
    && o.organization_custom_instructions is None
    && o.enable_file_hooks is None
    && o.enable_host_git_operations is None
    && o.enable_session_store is None
    && o.enable_skills is None
}

fn update_options_json(o: &SessionUpdateOptions) -> (r: JsonValue)
    ensures
        r@ == update_options_wire(*o),
{
    let mut p = JsonValue::object();
    set_opt_text(&mut p, "model", &o.model);
    set_opt_text(&mut p, "reasoningEffort", &o.reasoning_effort);
    set_opt_text(&mut p, "clientName", &o.client_name);
    set_opt_text(&mut p, "lspClientName", &o.lsp_client_name);
    set_opt_text(&mut p, "integrationId", &o.integration_id);
    match &o.feature_flags {
        Some(f) => p.set("featureFlags", flag_pairs_json(f)),
        None => {},
    }
    set_opt_bool(&mut p, "isExperimentalMode", o.is_experimental_mode);
    set_opt_json(&mut p, "provider", &o.provider);
    set_opt_text(&mut p, "workingDirectory", &o.working_directory);
    set_opt_texts(&mut p, "availableTools", &o.available_tools);
    set_opt_texts(&mut p, "excludedTools", &o.excluded_tools);
    set_opt_text(&mut p, "toolFilterPrecedence", &o.tool_filter_precedence);
    set_opt_bool(&mut p, "enableScriptSafety", o.enable_script_safety);
    set_opt_text(&mut p, "shellInitProfile", &o.shell_init_profile);
    set_opt_texts(&mut p, "shellProcessFlags", &o.shell_process_flags);
    set_opt_json(&mut p, "sandboxConfig", &o.sandbox_config);
    set_opt_bool(&mut p, "logInteractiveShells", o.log_interactive_shells);
    set_opt_text(&mut p, "envValueMode", &o.env_value_mode);
    set_opt_texts(&mut p, "skillDirectories", &o.skill_directories);
    set_opt_texts(&mut p, "disabledSkills", &o.disabled_skills);
    set_opt_bool(&mut p, "enableOnDemandInstructionDiscovery", o.enable_on_demand_instruction_discovery);
    match &o.installed_plugins {
        Some(v) => p.set("installedPlugins", plugins_json(v)),
        None => {},
    }
    set_opt_bool(&mut p, "customAgentsLocalOnly", o.custom_agents_local_only);
    set_opt_bool(&mut p, "skipCustomInstructions", o.skip_custom_instructions);
    set_opt_texts(&mut p, "disabledInstructionSources", &o.disabled_instruction_sources);
    set_opt_bool(&mut p, "coauthorEnabled", o.coauthor_enabled);
    set_opt_text(&mut p, "trajectoryFile", &o.trajectory_file);
    set_opt_bool(&mut p, "enableStreaming", o.enable_streaming);
    set_opt_text(&mut p, "copilotUrl", &o.copilot_url);
    set_opt_bool(&mut p, "askUserDisabled", o.ask_user_disabled);
    set_opt_bool(&mut p, "continueOnAutoMode", o.continue_on_auto_mode);
    set_opt_bool(&mut p, "runningInInteractiveMode", o.running_in_interactive_mode);
    set_opt_bool(&mut p, "enableReasoningSummaries", o.enable_reasoning_summaries);
    set_opt_text(&mut p, "agentContext", &o.agent_context);
    set_opt_text(&mut p, "eventsLogDirectory", &o.events_log_directory);
    match &o.additional_content_exclusion_policies {
        Some(v) => p.set("additionalContentExclusionPolicies", values_json(v)),
        None => {},
    }
    set_opt_bool(&mut p, "manageScheduleEnabled", o.manage_schedule_enabled);
    set_opt_bool(&mut p, "skipEmbeddingRetrieval", o.skip_embedding_retrieval);
    set_opt_text(&mut p, "organizationCustomInstructions", &o.organization_custom_instructions);
    set_opt_bool(&mut p, "enableFileHooks", o.enable_file_hooks);
    set_opt_bool(&mut p, "enableHostGitOperations", o.enable_host_git_operations);
    set_opt_bool(&mut p, "enableSessionStore", o.enable_session_store);
    set_opt_bool(&mut p, "enableSkills", o.enable_skills);
    p
}

impl SessionUpdateOptions {
    /// Whether the patch is empty: no field is set, so its wire object has
    /// no members.
    pub fn is_empty(&self) -> (r: bool)
        ensures
            r == update_options_empty(*self),
            r == (update_options_wire(*self) == empty_object()),
    {
        proof {
            law_empty_patch_has_no_members(*self);
        }
        self.model.is_none()
            && self.reasoning_effort.is_none()
            && self.client_name.is_none()
            && self.lsp_client_name.is_none()
            && self.integration_id.is_none()
            && self.feature_flags.is_none()
            && self.is_experimental_mode.is_none()
            && self.provider.is_none()
            && self.working_directory.is_none()
            && self.available_tools.is_none()
            && self.excluded_tools.is_none()
            && self.tool_filter_precedence.is_none()
            && self.enable_script_safety.is_none()
            && self.shell_init_profile.is_none()
            && self.shell_process_flags.is_none()
            && self.sandbox_config.is_none()
            && self.log_interactive_shells.is_none()
            && self.env_value_mode.is_none()
            && self.skill_directories.is_none()
            && self.disabled_skills.is_none()
            && self.enable_on_demand_instruction_discovery.is_none()
            && self.installed_plugins.is_none()
            && self.custom_agents_local_only.is_none()
            && self.skip_custom_instructions.is_none()
            && self.disabled_instruction_sources.is_none()
            && self.coauthor_enabled.is_none()
            && self.trajectory_file.is_none()
            && self.enable_streaming.is_none()
            && self.copilot_url.is_none()
            && self.ask_user_disabled.is_none()
            && self.continue_on_auto_mode.is_none()
            && self.running_in_interactive_mode.is_none()
            && self.enable_reasoning_summaries.is_none()
            && self.agent_context.is_none()
            && self.events_log_directory.is_none()
            && self.additional_content_exclusion_policies.is_none()
            && self.manage_schedule_enabled.is_none()
            && self.skip_embedding_retrieval.is_none()
            && self.organization_custom_instructions.is_none()
            && self.enable_file_hooks.is_none()
            && self.enable_host_git_operations.is_none()
            && self.enable_session_store.is_none()
            && self.enable_skills.is_none()
    }
}

proof fn lemma_set_member_len(m: Seq<(Seq<char>, JsonView)>, key: Seq<char>, value: JsonView)
    ensures
        crate::json::set_member(m, key, value).len() >= m.len(),
        crate::json::set_member(m, key, value).len() >= 1,
    decreases m.len(),
{
    if m.len() > 0 && m[0].0 != key {
        lemma_set_member_len(m.drop_first(), key, value);
    }
}

/// An object with at least one member.
pub open spec fn has_members(v: JsonView) -> bool {
    match v {
        JsonView::Object(m) => m.len() > 0,
        _ => false,
    }
}

broadcast proof fn lemma_opt_set_members(p: JsonView, key: Seq<char>, value: Option<JsonView>)
    requires
        p is Object,
    ensures
        #[trigger] opt_set(p, key, value) is Object,
        has_members(p) ==> has_members(opt_set(p, key, value)),
        value is Some ==> has_members(opt_set(p, key, value)),
{
    if let JsonView::Object(m) = p {
        if let Some(v) = value {
            lemma_set_member_len(m, key, v);
        }
    }
}

/// Law: a patch has no field set exactly when its wire object has no
/// members, so an empty patch is one that would send nothing.
pub proof fn law_empty_patch_has_no_members(o: SessionUpdateOptions)
    ensures
        update_options_empty(o) <==> update_options_wire(o) == empty_object(),
{
    broadcast use lemma_opt_set_members;
    if !update_options_empty(o) {
        assert(has_members(update_options_wire(o)));
    }
}

/// The parameters of `session.options.update`: none for an empty patch,
/// which sends no request; otherwise the patch's wire members with
/// `sessionId` set.
pub fn update_options_params(session_id: &str, options: &SessionUpdateOptions) -> (r: Option<JsonValue>)
    ensures
        r is None <==> update_options_empty(*options),
        r matches Some(p) ==> p@ == set_field(
            update_options_wire(*options),
            "sessionId"@,
            JsonView::Str(session_id@),
        ),
{
    if options.is_empty() {
        return None;
    }
    let mut p = update_options_json(options);
    p.set("sessionId", JsonValue::string(session_id));
    Some(p)
}

// =============================================================================
// Shell processes
// =============================================================================

/// The wire object of shell options: `command`, then `cwd` and `env` when set.
pub open spec fn shell_exec_options_wire(o: ShellExecOptions) -> JsonView {
    let p = set_field(empty_object(), "command"@, JsonView::Str(o.command@));
    let p = match o.cwd {
        Some(c) => set_field(p, "cwd"@, JsonView::Str(c@)),
        None => p,
    };
    match o.env {
        Some(e) => set_field(p, "env"@, text_pairs_object(e@)),
        None => p,
    }
}

/// The parameters of `session.shell.exec`: the options' wire members with
/// `sessionId` set.
pub fn shell_exec_params(session_id: &str, options: &ShellExecOptions) -> (r: JsonValue)
    ensures
        r@ == set_field(shell_exec_options_wire(*options), "sessionId"@, JsonView::Str(session_id@)),
{
    let mut p = JsonValue::object();
    p.set("command", JsonValue::string(options.command.as_str()));
    match &options.cwd {
        Some(c) => p.set("cwd", JsonValue::string(c.as_str())),
        None => {},
    }
    match &options.env {
        Some(e) => p.set("env", text_pairs_json(e)),
        None => {},
    }
    p.set("sessionId", JsonValue::string(session_id));
    p
}

/// The wire name of a signal: its own name.
pub open spec fn shell_signal_name(s: ShellSignal) -> Seq<char> {
    match s {
        ShellSignal::SIGINT => "SIGINT"@,
        ShellSignal::SIGKILL => "SIGKILL"@,
        ShellSignal::SIGTERM => "SIGTERM"@,
    }
}

fn shell_signal_str(s: ShellSignal) -> (r: &'static str)
    ensures
        r@ == shell_signal_name(s),
{
    match s {
        ShellSignal::SIGINT => "SIGINT",
        ShellSignal::SIGKILL => "SIGKILL",
        ShellSignal::SIGTERM => "SIGTERM",
    }
}

/// The parameters of `session.shell.kill`: the session, the process and
/// the signal's name.
pub fn shell_kill_params(session_id: &str, process_id: &str, signal: ShellSignal) -> (r: JsonValue)
    ensures
        r@ == set_field(
            set_field(
                set_field(empty_object(), "sessionId"@, JsonView::Str(session_id@)),
                "processId"@,
                JsonView::Str(process_id@),
            ),
            "signal"@,
            JsonView::Str(shell_signal_name(signal)),
        ),
{
    let mut p = session_params(session_id);
    p.set("processId", JsonValue::string(process_id));
    p.set("signal", JsonValue::string(shell_signal_str(signal)));
    p
}

/// The process id of a `shell.exec` response: its `processId` member, or
/// the one element of an array, when that is a string.
pub open spec fn shell_process_id(result: JsonView) -> Option<Seq<char>> {
    match result {
        JsonView::Array(items) => if items.len() == 1 {
            match items[0] {
                JsonView::Str(t) => Some(t),
                _ => None,
            }
        } else {
            None
        },
        _ => crate::json::str_field(result, "processId"@),
    }
}

/// The text of the error for a `shell.exec` response without a process id.
pub open spec fn shell_result_error_text(result: JsonView) -> Seq<char> {
    match result {
        JsonView::Array(items) => if items.len() != 1 {
            "Failed to parse shell result: invalid length"@
        } else {
            "Failed to parse shell result: invalid type"@
        },
        _ => match field(result, "processId"@) {
            None => "Failed to parse shell result: missing field `processId`"@,
            Some(_) => "Failed to parse shell result: invalid type"@,
        },
    }
}

fn shell_error(detail: &str) -> (r: CopilotError)
    ensures
        r@ == ErrorView::Protocol("Failed to parse shell result: "@ + detail@),
{
    let mut m = "Failed to parse shell result: ".to_owned();
    m.append(detail);
    CopilotError::Protocol(m)
}

/// The result of `session.shell.exec`: its process id, which must be a string.
pub fn shell_result_from_response(result: &JsonValue) -> (r: Result<ShellExecResult, CopilotError>)
    ensures
        match shell_process_id(result@) {
            Some(t) => r matches Ok(x) && x.process_id@ == t,
            None => r matches Err(e) && e@ == ErrorView::Protocol(shell_result_error_text(result@)),
        },
{
    proof {
        reveal_strlit("Failed to parse shell result: ");
        reveal_strlit("invalid length");
        reveal_strlit("invalid type");
        reveal_strlit("missing field `processId`");
        reveal_strlit("Failed to parse shell result: invalid length");
        reveal_strlit("Failed to parse shell result: invalid type");
        reveal_strlit("Failed to parse shell result: missing field `processId`");
        assert("Failed to parse shell result: "@ + "invalid type"@
            =~= "Failed to parse shell result: invalid type"@);
        assert("Failed to parse shell result: "@ + "missing field `processId`"@
            =~= "Failed to parse shell result: missing field `processId`"@);
    }
    match result {
        JsonValue::Array(items) => {
            proof {
                crate::json::lemma_items_view(items@);
                assert(result@ == JsonView::Array(crate::json::items_view(items@)));
                assert("Failed to parse shell result: "@ + "invalid length"@
                    =~= "Failed to parse shell result: invalid length"@);
            }
            if items.len() != 1 {
                return Err(shell_error("invalid length"));
            }
            match &items[0] {
                JsonValue::Str(s) => Ok(ShellExecResult { process_id: s.clone() }),
                _ => Err(shell_error("invalid type")),
            }
        },
        _ => match result.get("processId") {
            Some(JsonValue::Str(s)) => Ok(ShellExecResult { process_id: s.clone() }),
            None => Err(shell_error("missing field `processId`")),
            Some(_) => Err(shell_error("invalid type")),
        },
    }
}

// =============================================================================
// Fleets, agents, plans and workspace files
// =============================================================================

/// The parameters of `session.fleet.start`: the session, and the prompt
/// exactly when the options carry one.
pub fn fleet_start_params(session_id: &str, options: Option<&FleetStartOptions>) -> (r: JsonValue)
    ensures
        r@ == (match options {
            Some(o) => match o.prompt {
                Some(t) => set_field(
                    set_field(empty_object(), "sessionId"@, JsonView::Str(session_id@)),
                    "prompt"@,
                    JsonView::Str(t@),
                ),
                None => set_field(empty_object(), "sessionId"@, JsonView::Str(session_id@)),
            },
            None => set_field(empty_object(), "sessionId"@, JsonView::Str(session_id@)),
        }),
{
    let mut p = session_params(session_id);
    match options {
        Some(o) => match &o.prompt {
            Some(t) => p.set("prompt", JsonValue::string(t.as_str())),
            None => {},
        },
        None => {},
    }
    p
}

/// The member `key` of a listing response, an empty array when it is not there.
pub open spec fn listed_member(result: JsonView, key: Seq<char>) -> JsonView {
    match field(result, key) {
        Some(a) => a,
        None => JsonView::Array(Seq::empty()),
    }
}

fn listed_member_exec(result: &JsonValue, key: &str) -> (r: JsonValue)
    ensures
        r@ == listed_member(result@, key@),
{
    match result.get(key) {
        Some(v) => v.deep_clone(),
        None => JsonValue::Array(Vec::new()),
    }
}

/// The agents of a `session.agent.list` response: its `agents` member, else
/// an empty list.
pub fn agents_member(result: &JsonValue) -> (r: JsonValue)
    ensures
        r@ == listed_member(result@, "agents"@),
{
    listed_member_exec(result, "agents")
}

/// Whether a `session.agent.getCurrent` response names an agent: it is not
/// `null` and has a `name`.
pub fn has_current_agent(result: &JsonValue) -> (r: bool)
    ensures
        r <==> !(result@ is Null || field(result@, "name"@) is None),
{
    match result {
        JsonValue::Null => false,
        _ => result.get("name").is_some(),
    }
}

/// The parameters of `session.agent.select`: the session and the agent's name.
pub fn select_agent_params(session_id: &str, name: &str) -> (r: JsonValue)
    ensures
        r@ == set_field(
            set_field(empty_object(), "sessionId"@, JsonView::Str(session_id@)),
            "name"@,
            JsonView::Str(name@),
        ),
{
    let mut p = session_params(session_id);
    p.set("name", JsonValue::string(name));
    p
}

/// The wire object of a plan: `content` and `title`, each when set.
pub open spec fn plan_wire(plan: PlanData) -> JsonView {
    let p = match plan.content {
        Some(c) => set_field(empty_object(), "content"@, JsonView::Str(c@)),
        None => empty_object(),
    };
    match plan.title {
        Some(t) => set_field(p, "title"@, JsonView::Str(t@)),
        None => p,
    }
}

/// The parameters of `session.plan.update`: the plan's wire members with
/// `sessionId` set.
pub fn plan_update_params(session_id: &str, plan: &PlanData) -> (r: JsonValue)
    ensures
        r@ == set_field(plan_wire(*plan), "sessionId"@, JsonView::Str(session_id@)),
{
    let mut p = JsonValue::object();
    match &plan.content {
        Some(c) => p.set("content", JsonValue::string(c.as_str())),
        None => {},
    }
    match &plan.title {
        Some(t) => p.set("title", JsonValue::string(t.as_str())),
        None => {},
    }
    p.set("sessionId", JsonValue::string(session_id));
    p
}

/// The files of a `session.workspaces.listFiles` response: its `files`
/// member, else an empty list.
pub fn workspace_files_member(result: &JsonValue) -> (r: JsonValue)
    ensures
        r@ == listed_member(result@, "files"@),
{
    listed_member_exec(result, "files")
}

/// The parameters of `session.workspaces.readFile`: the session and the path.
pub fn workspace_read_file_params(session_id: &str, path: &str) -> (r: JsonValue)
    ensures
        r@ == set_field(
            set_field(empty_object(), "sessionId"@, JsonView::Str(session_id@)),
            "path"@,
            JsonView::Str(path@),
        ),
{
    let mut p = session_params(session_id);
    p.set("path", JsonValue::string(path));
    p
}

/// The parameters of `session.workspaces.createFile`: the session, the path
/// and the content.
pub fn workspace_create_file_params(session_id: &str, path: &str, content: &str) -> (r: JsonValue)
    ensures
        r@ == set_field(
            set_field(
                set_field(empty_object(), "sessionId"@, JsonView::Str(session_id@)),
                "path"@,
                JsonView::Str(path@),
            ),
            "content"@,
            JsonView::Str(content@),
        ),
{
    let mut p = session_params(session_id);
    p.set("path", JsonValue::string(path));
    p.set("content", JsonValue::string(content));
    p
}

/// Law: each reasoning summary has its own wire name (`none`, `concise`, `detailed`), and two different
/// reasoning summarys never share one.
pub proof fn law_reasoning_summary_names(a: ReasoningSummary, b: ReasoningSummary)
    ensures
        reasoning_summary_name(ReasoningSummary::Omitted) == "none"@,
        reasoning_summary_name(ReasoningSummary::Concise) == "concise"@,
        reasoning_summary_name(ReasoningSummary::Detailed) == "detailed"@,
        a != b ==> reasoning_summary_name(a) != reasoning_summary_name(b),
{
    reveal_strlit("none");
    reveal_strlit("concise");
    reveal_strlit("detailed");
    let n0: Seq<char> = "none"@;
    let n1: Seq<char> = "concise"@;
    let n2: Seq<char> = "detailed"@;
    assert(n0.len() != n1.len());
    assert(n0.len() != n2.len());
    assert(n1.len() != n2.len());
}

/// Law: each shell signal has its own wire name (`SIGINT`, `SIGKILL`, `SIGTERM`), and two different
/// shell signals never share one.
pub proof fn law_shell_signal_names(a: ShellSignal, b: ShellSignal)
    ensures
        shell_signal_name(ShellSignal::SIGINT) == "SIGINT"@,
        shell_signal_name(ShellSignal::SIGKILL) == "SIGKILL"@,
        shell_signal_name(ShellSignal::SIGTERM) == "SIGTERM"@,
        a != b ==> shell_signal_name(a) != shell_signal_name(b),
{
    reveal_strlit("SIGINT");
    reveal_strlit("SIGKILL");
    reveal_strlit("SIGTERM");
    let n0: Seq<char> = "SIGINT"@;
    let n1: Seq<char> = "SIGKILL"@;
    let n2: Seq<char> = "SIGTERM"@;
    assert(n0.len() != n1.len());
    assert(n0.len() != n2.len());
    assert(n1[3] != n2[3]);
}

} // verus!
