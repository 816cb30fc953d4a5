//! Which sections make up a step's world state, in which order, and the
//! decisions that shape them.

use vstd::prelude::*;
use crate::network_policy::is_whitespace;

verus! {

/// A section of a step's world state.
#[derive(Clone, Copy, Debug, PartialEq, Eq, Structural)]
pub enum PlannedSection {
    ModelInstructions,
    Personality,
    ContextWindowGuidance,
    Realtime,
    AgentsMd,
    Permissions,
    CompactPermissions,
    CollaborationMode,
    Environments,
    /// Whether environment instructions are shown.
    EnvironmentsInstructions(bool),
    /// Whether app instructions are shown.
    AppsInstructions(bool),
    /// Whether plugin usage instructions are shown.
    PluginsInstructions(bool),
    Tools,
    /// The sections that extensions contribute, in their order.
    Extensions,
    MultiAgentMode,
}

/// A connector as the apps section reads it.
#[derive(Clone, Copy, Debug, PartialEq, Eq, Structural)]
pub struct ConnectorState {
    pub is_accessible: bool,
    pub is_enabled: bool,
}

/// The flags of a step that decide its world state.
#[derive(Debug)]
pub struct StepFlags {
    pub personality_feature: bool,
    /// A non-blank guidance message is configured, the token-budget feature
    /// is on, and the model has a context window.
    pub context_window_guidance: bool,
    pub include_permissions_instructions: bool,
    pub include_collaboration_mode_instructions: bool,
    pub include_environment_context: bool,
    pub deferred_executor_feature: bool,
    pub include_apps_instructions: bool,
    pub apps_enabled: bool,
    pub connectors: Vec<ConnectorState>,
    pub plugins_available: bool,
    pub include_plugin_usage_instructions: bool,
    pub deferred_tool_world_state_feature: bool,
}

/// App instructions are shown when they are included, apps are enabled and
/// some connector is both accessible and enabled.
pub open spec fn apps_available(flags: StepFlags) -> bool {
    flags.include_apps_instructions && flags.apps_enabled
        && exists|i: int| 0 <= i < flags.connectors@.len()
            && #[trigger] flags.connectors@[i].is_accessible && flags.connectors@[i].is_enabled
}

/// `s` when `cond` holds, else nothing.
pub open spec fn when(cond: bool, s: PlannedSection) -> Seq<PlannedSection> {
    if cond { seq![s] } else { Seq::empty() }
}

/// The leading sections: identity, personality, guidance, realtime, agents
/// and permissions.
pub open spec fn leading_sections(flags: StepFlags) -> Seq<PlannedSection> {
    seq![PlannedSection::ModelInstructions]
        + when(flags.personality_feature, PlannedSection::Personality)
        + when(flags.context_window_guidance, PlannedSection::ContextWindowGuidance)
        + seq![PlannedSection::Realtime, PlannedSection::AgentsMd]
        + seq![if flags.include_permissions_instructions { PlannedSection::Permissions } else { PlannedSection::CompactPermissions }]
}

/// The trailing sections: collaboration mode, environments, instructions,
/// tools, extensions and the multi-agent mode.
pub open spec fn trailing_sections(flags: StepFlags, apps: bool) -> Seq<PlannedSection> {
    when(flags.include_collaboration_mode_instructions, PlannedSection::CollaborationMode)
        + when(flags.include_environment_context, PlannedSection::Environments)
        + seq![
            PlannedSection::EnvironmentsInstructions(flags.include_environment_context && flags.deferred_executor_feature),
            PlannedSection::AppsInstructions(apps),
            PlannedSection::PluginsInstructions(flags.plugins_available && flags.include_plugin_usage_instructions),
        ]
        + when(flags.deferred_tool_world_state_feature, PlannedSection::Tools)
        + seq![PlannedSection::Extensions, PlannedSection::MultiAgentMode]
}

/// The sections of a step's world state, in order.
pub open spec fn planned_sections(flags: StepFlags) -> Seq<PlannedSection> {
    leading_sections(flags) + trailing_sections(flags, apps_available(flags))
}

fn push_when(v: &mut Vec<PlannedSection>, cond: bool, s: PlannedSection)
    ensures
        final(v)@ == old(v)@ + when(cond, s),
{
    let ghost before = v@;
    if cond {
        v.push(s);
        assert(v@ =~= before + when(cond, s));
    } else {
        assert(v@ =~= before + when(cond, s));
    }
}

fn push_leading(r: &mut Vec<PlannedSection>, flags: &StepFlags)
    requires
        old(r)@.len() == 0,
    ensures
        final(r)@ == leading_sections(*flags),
{
    r.push(PlannedSection::ModelInstructions);
    let ghost s1 = r@;
    push_when(r, flags.personality_feature, PlannedSection::Personality);
    push_when(r, flags.context_window_guidance, PlannedSection::ContextWindowGuidance);
    let ghost s3 = r@;
    r.push(PlannedSection::Realtime);
    r.push(PlannedSection::AgentsMd);
    let ghost s4 = r@;
    if flags.include_permissions_instructions {
        r.push(PlannedSection::Permissions);
    } else {
        r.push(PlannedSection::CompactPermissions);
    }
    assert(s1 =~= seq![PlannedSection::ModelInstructions]);
    assert(s4 =~= s3 + seq![PlannedSection::Realtime, PlannedSection::AgentsMd]);
    assert(r@ =~= s4 + seq![if flags.include_permissions_instructions { PlannedSection::Permissions } else { PlannedSection::CompactPermissions }]);
}

fn push_trailing(r: &mut Vec<PlannedSection>, flags: &StepFlags, apps: bool)
    ensures
        final(r)@ == old(r)@ + trailing_sections(*flags, apps),
{
    let ghost s0 = r@;
    push_when(r, flags.include_collaboration_mode_instructions, PlannedSection::CollaborationMode);
    push_when(r, flags.include_environment_context, PlannedSection::Environments);
    let ghost s2 = r@;
    r.push(PlannedSection::EnvironmentsInstructions(flags.include_environment_context && flags.deferred_executor_feature));
    r.push(PlannedSection::AppsInstructions(apps));
    r.push(PlannedSection::PluginsInstructions(flags.plugins_available && flags.include_plugin_usage_instructions));
    let ghost s3 = r@;
    push_when(r, flags.deferred_tool_world_state_feature, PlannedSection::Tools);
    let ghost s4 = r@;
    r.push(PlannedSection::Extensions);
    r.push(PlannedSection::MultiAgentMode);
    assert(s3 =~= s2 + seq![
        PlannedSection::EnvironmentsInstructions(flags.include_environment_context && flags.deferred_executor_feature),
        PlannedSection::AppsInstructions(apps),
        PlannedSection::PluginsInstructions(flags.plugins_available && flags.include_plugin_usage_instructions),
    ]);
    assert(r@ =~= s4 + seq![PlannedSection::Extensions, PlannedSection::MultiAgentMode]);
    assert(r@ =~= s0 + trailing_sections(*flags, apps));
}

/// The sections of a step's world state, in order.
pub fn world_state_sections(flags: &StepFlags) -> (r: Vec<PlannedSection>)
    ensures
        r@ == planned_sections(*flags),
{
    let mut apps = false;
    if flags.include_apps_instructions && flags.apps_enabled {
        let mut i: usize = 0;
        while i < flags.connectors.len()
            invariant
                i <= flags.connectors@.len(),
                apps == exists|j: int| 0 <= j < i && #[trigger] flags.connectors@[j].is_accessible && flags.connectors@[j].is_enabled,
            decreases flags.connectors@.len() - i,
        {
            if flags.connectors[i].is_accessible && flags.connectors[i].is_enabled {
                apps = true;
            }
            i = i + 1;
        }
    }
    assert(apps == apps_available(*flags));
    let mut r: Vec<PlannedSection> = Vec::new();
    push_leading(&mut r, flags);
    push_trailing(&mut r, flags, apps);
    r
}

/// The personality is baked into the base instructions: the model supports
/// personalities and the session's base instructions are the model's own.
pub fn personality_is_baked(supports_personality: bool, base_instructions: &str, model_instructions: &str) -> (r: bool)
    ensures
        r == (supports_personality && base_instructions@ == model_instructions@),
{
    supports_personality && crate::text::str_equal(base_instructions, model_instructions)
}

/// `s` is made of whitespace only.
pub open spec fn is_blank(s: Seq<char>) -> bool {
    forall|i: int| 0 <= i < s.len() ==> #[trigger] is_whitespace(s[i])
}

/// The guidance shown for the context window: the configured message, when
/// the token-budget feature is on, the model has a context window and the
/// message is not blank.
pub open spec fn guidance_for_step(
    token_budget_feature: bool,
    has_context_window: bool,
    guidance_message: Option<Seq<char>>,
) -> Option<Seq<char>> {
    match guidance_message {
        Some(m) if token_budget_feature && has_context_window && !is_blank(m) => Some(m),
        _ => None,
    }
}

/// Picks the context-window guidance of a step.
#[verifier::loop_isolation(false)]
pub fn context_window_guidance<'a>(
    token_budget_feature: bool,
    has_context_window: bool,
    guidance_message: Option<&'a str>,
) -> (r: Option<&'a str>)
    ensures
        match r { Some(m) => Some(m@), None => None::<Seq<char>> }
            == guidance_for_step(token_budget_feature, has_context_window, match guidance_message { Some(m) => Some(m@), None => None }),
{
    if !token_budget_feature || !has_context_window {
        return None;
    }
    match guidance_message {
        None => None,
        Some(m) => {
            let v = crate::text::chars_of(m);
            let mut i: usize = 0;
            while i < v.len()
                invariant
                    v@ == m@,
                    i <= v@.len(),
                    forall|j: int| 0 <= j < i ==> #[trigger] is_whitespace(v@[j]),
                decreases v@.len() - i,
            {
                if !crate::network_policy::char_is_whitespace(v[i]) {
                    assert(!is_whitespace(m@[i as int]));
                    return Some(m);
                }
                i = i + 1;
            }
            None
        },
    }
}

/// The personality instructions a step shows: the model's message for the
/// selected personality, when there is one and it is not empty.
pub fn personality_instructions(message: Option<String>) -> (r: Option<String>)
    ensures
        crate::text::opt_view(r) == match crate::text::opt_view(message) {
            Some(m) => if m.len() > 0 { Some(m) } else { None },
            None => None,
        },
{
    match message {
        Some(m) => if m.as_str().is_empty() { None } else { Some(m) },
        None => None,
    }
}

/// The instructions a realtime session starts with: the conversation mode's
/// own, else the configured experimental ones.
pub fn realtime_start_instructions<'a>(mode_start: Option<&'a str>, configured_start: Option<&'a str>) -> (r: Option<&'a str>)
    ensures
        r == (match mode_start { Some(s) => Some(s), None => configured_start }),
{
    match mode_start {
        Some(s) => Some(s),
        None => configured_start,
    }
}


/// The environments section, the only one that reads the current time, is
/// planned exactly when the environment context is included; so the time is
/// read, and its failure can fail the step, only then.
pub proof fn lemma_time_is_read_only_for_environment_context(flags: StepFlags)
    ensures
        planned_sections(flags).contains(PlannedSection::Environments) <==> flags.include_environment_context,
{
    let lead = leading_sections(flags);
    let trail = trailing_sections(flags, apps_available(flags));
    let all = planned_sections(flags);
    assert(all == lead + trail);
    assert(!lead.contains(PlannedSection::Environments)) by {
        if lead.contains(PlannedSection::Environments) {
            let k = choose|k: int| 0 <= k < lead.len() && lead[k] == PlannedSection::Environments;
            assert(false);
        }
    }
    let collab = when(flags.include_collaboration_mode_instructions, PlannedSection::CollaborationMode);
    let env = when(flags.include_environment_context, PlannedSection::Environments);
    let rest = seq![
        PlannedSection::EnvironmentsInstructions(flags.include_environment_context && flags.deferred_executor_feature),
        PlannedSection::AppsInstructions(apps_available(flags)),
        PlannedSection::PluginsInstructions(flags.plugins_available && flags.include_plugin_usage_instructions),
    ] + when(flags.deferred_tool_world_state_feature, PlannedSection::Tools)
        + seq![PlannedSection::Extensions, PlannedSection::MultiAgentMode];
    assert(trail =~= collab + env + rest);
    if flags.include_environment_context {
        let k: int = (lead.len() + collab.len()) as int;
        assert(all[k] == PlannedSection::Environments);
    } else {
        assert(env =~= Seq::<PlannedSection>::empty());
        if all.contains(PlannedSection::Environments) {
            let k = choose|k: int| 0 <= k < all.len() && all[k] == PlannedSection::Environments;
            if k < lead.len() {
                assert(lead[k] == PlannedSection::Environments);
            } else if k < lead.len() + collab.len() {
                assert(collab[k - lead.len()] == PlannedSection::Environments);
            } else {
                assert(rest[k - lead.len() - collab.len()] == PlannedSection::Environments);
            }
            assert(false);
        }
    }
}

/// The error that fails a step whose current time cannot be read.
pub open spec fn current_time_error_text(error: Seq<char>) -> Seq<char> {
    "failed to read current time: "@ + error
}

/// The error that fails a step whose current time cannot be read; `error` is
/// the time provider's error, rendered.
pub fn current_time_error_message(error: &str) -> (m: String)
    ensures
        m@ == current_time_error_text(error@),
{
    let mut m = crate::text::string_of("failed to read current time: ");
    crate::text::append_str(&mut m, error);
    m
}

} // verus!
