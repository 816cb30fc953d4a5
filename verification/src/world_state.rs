//! World-state sections: what the model currently sees of the collaboration
//! mode, the context-window guidance, the model identity and the personality,
//! and the fragment that each section renders when it differs from what the
//! model last saw.

use vstd::prelude::*;
use crate::text::{opt_view, string_of};

verus! {

/// What is known of a section's last rendered snapshot.
#[derive(Debug)]
pub enum PreviousSectionState<S> {
    /// The snapshot recorded when the section was last rendered.
    Known(S),
    /// History exists but holds no snapshot for the section.
    Unknown,
    /// The section was never rendered.
    Absent,
}

impl<S: View> PreviousSectionState<S> {
    /// The same state over the snapshot's view.
    pub open spec fn view_state(&self) -> PreviousSectionState<S::V> {
        match self {
            PreviousSectionState::Known(s) => PreviousSectionState::Known(s@),
            PreviousSectionState::Unknown => PreviousSectionState::Unknown,
            PreviousSectionState::Absent => PreviousSectionState::Absent,
        }
    }
}

/// A fragment of context that a section renders for the model.
#[derive(Debug)]
pub enum ContextFragment {
    CollaborationModeInstructions(CollaborationModeInstructions),
    ContextWindowGuidance { message: String },
    ModelSwitchInstructions { instructions: String },
    PersonalitySpecInstructions { instructions: String },
}

/// Which fragment, and the text it carries.
pub enum FragmentView {
    CollaborationModeInstructions(Seq<char>),
    ContextWindowGuidance(Seq<char>),
    ModelSwitchInstructions(Seq<char>),
    PersonalitySpecInstructions(Seq<char>),
}

impl View for ContextFragment {
    type V = FragmentView;

    open spec fn view(&self) -> FragmentView {
        match self {
            ContextFragment::CollaborationModeInstructions(c) => FragmentView::CollaborationModeInstructions(c.instructions@),
            ContextFragment::ContextWindowGuidance { message } => FragmentView::ContextWindowGuidance(message@),
            ContextFragment::ModelSwitchInstructions { instructions } => FragmentView::ModelSwitchInstructions(instructions@),
            ContextFragment::PersonalitySpecInstructions { instructions } => FragmentView::PersonalitySpecInstructions(instructions@),
        }
    }
}

/// The view of an optional fragment.
pub open spec fn fragment_view(f: Option<ContextFragment>) -> Option<FragmentView> {
    match f {
        Some(f) => Some(f@),
        None => None,
    }
}

fn clone_opt_string(o: &Option<String>) -> (r: Option<String>)
    ensures
        opt_view(r) == opt_view(*o),
{
    match o {
        Some(s) => Some(s.clone()),
        None => None,
    }
}

// ----------------------------------------------------------------------------
// Collaboration mode
// ----------------------------------------------------------------------------

/// The kind of collaboration the user selected.
#[derive(Clone, Copy, Debug, PartialEq, Eq, Structural)]
pub enum ModeKind {
    Default,
    Plan,
    PairProgramming,
    Execute,
}

/// The settings of a collaboration mode that its section reads.
#[derive(Debug)]
pub struct CollaborationModeSettings {
    pub model: String,
    pub developer_instructions: Option<String>,
}

/// A selected collaboration mode.
#[derive(Debug)]
pub struct CollaborationMode {
    pub mode: ModeKind,
    pub settings: CollaborationModeSettings,
}

/// Instructions that a model catalog provides per collaboration mode.
#[derive(Debug)]
pub struct CollaborationModeMessages {
    pub default: Option<String>,
    pub plan: Option<String>,
}

/// Collaboration-mode instructions currently visible to the model.
#[derive(Debug)]
pub struct CollaborationModeState {
    mode: ModeKind,
    model: String,
    instructions: Option<String>,
}

/// The content of a [`CollaborationModeState`].
pub struct CollaborationModeView {
    pub mode: ModeKind,
    pub model: Seq<char>,
    pub instructions: Option<Seq<char>>,
}

impl View for CollaborationModeState {
    type V = CollaborationModeView;

    closed spec fn view(&self) -> CollaborationModeView {
        CollaborationModeView { mode: self.mode, model: self.model@, instructions: opt_view(self.instructions) }
    }
}

/// The recorded snapshot of a collaboration-mode section.
#[derive(Debug)]
pub enum CollaborationModeSnapshot {
    Current { mode: ModeKind, model: String },
    Legacy(ModeKind),
}

/// The content of a [`CollaborationModeSnapshot`].
pub enum CollaborationModeSnapshotView {
    Current { mode: ModeKind, model: Seq<char> },
    Legacy(ModeKind),
}

impl View for CollaborationModeSnapshot {
    type V = CollaborationModeSnapshotView;

    open spec fn view(&self) -> CollaborationModeSnapshotView {
        match self {
            CollaborationModeSnapshot::Current { mode, model } => CollaborationModeSnapshotView::Current { mode: *mode, model: model@ },
            CollaborationModeSnapshot::Legacy(m) => CollaborationModeSnapshotView::Legacy(*m),
        }
    }
}

/// The catalog's instructions for `mode`: only the default and plan modes have any.
pub open spec fn catalog_instructions(mode: ModeKind, messages: Option<(Option<Seq<char>>, Option<Seq<char>>)>) -> Option<Seq<char>> {
    match messages {
        None => None,
        Some((default, plan)) => match mode {
            ModeKind::Default => default,
            ModeKind::Plan => plan,
            ModeKind::PairProgramming | ModeKind::Execute => None,
        },
    }
}

/// The instructions a collaboration-mode section shows: the catalog's, else
/// the mode's own developer instructions when they are not empty.
pub open spec fn collaboration_instructions(
    mode: ModeKind,
    developer_instructions: Option<Seq<char>>,
    messages: Option<(Option<Seq<char>>, Option<Seq<char>>)>,
) -> Option<Seq<char>> {
    match catalog_instructions(mode, messages) {
        Some(i) => Some(i),
        None => match developer_instructions {
            Some(d) => if d.len() > 0 { Some(d) } else { None },
            None => None,
        },
    }
}

/// The view of optional catalog messages.
pub open spec fn messages_view(m: Option<&CollaborationModeMessages>) -> Option<(Option<Seq<char>>, Option<Seq<char>>)> {
    match m {
        Some(m) => Some((opt_view(m.default), opt_view(m.plan))),
        None => None,
    }
}

/// What a collaboration-mode section renders against `previous`: nothing when
/// the model saw the same mode and model, when history holds no snapshot, or
/// when it never saw the section and there are no instructions; otherwise its
/// instructions (empty when it has none).
pub open spec fn collaboration_render(
    state: CollaborationModeView,
    previous: PreviousSectionState<CollaborationModeSnapshotView>,
) -> Option<FragmentView> {
    let unchanged = match previous {
        PreviousSectionState::Known(CollaborationModeSnapshotView::Current { mode, model }) => mode == state.mode && model == state.model,
        PreviousSectionState::Unknown => true,
        PreviousSectionState::Absent => state.instructions is None,
        _ => false,
    };
    if unchanged {
        None
    } else {
        Some(FragmentView::CollaborationModeInstructions(match state.instructions {
            Some(i) => i,
            None => Seq::empty(),
        }))
    }
}

/// Instructions of a collaboration mode, as a developer fragment.
#[derive(Debug)]
pub struct CollaborationModeInstructions {
    pub instructions: String,
}

impl CollaborationModeInstructions {
    /// The role the fragment is sent with.
    pub fn role(&self) -> (r: &'static str)
        ensures
            r@ == "developer"@,
    {
        "developer"
    }

    /// The tags that open and close the fragment.
    pub fn type_markers() -> (r: (&'static str, &'static str))
        ensures
            r.0@ == "<collaboration_mode>"@,
            r.1@ == "</collaboration_mode>"@,
    {
        ("<collaboration_mode>", "</collaboration_mode>")
    }

    /// The tags of this fragment.
    pub fn markers(&self) -> (r: (&'static str, &'static str))
        ensures
            r.0@ == "<collaboration_mode>"@,
            r.1@ == "</collaboration_mode>"@,
    {
        Self::type_markers()
    }

    /// The text between the tags.
    pub fn body(&self) -> (r: String)
        ensures
            r@ == self.instructions@,
    {
        self.instructions.clone()
    }
}

impl CollaborationModeState {
    /// The section for a selected mode and the catalog's messages.
    pub fn from_collaboration_mode(
        collaboration_mode: &CollaborationMode,
        catalog_messages: Option<&CollaborationModeMessages>,
    ) -> (r: CollaborationModeState)
        ensures
            r@ == (CollaborationModeView {
                mode: collaboration_mode.mode,
                model: collaboration_mode.settings.model@,
                instructions: collaboration_instructions(
                    collaboration_mode.mode,
                    opt_view(collaboration_mode.settings.developer_instructions),
                    messages_view(catalog_messages),
                ),
            }),
    {
        let catalog: Option<String> = match catalog_messages {
            None => None,
            Some(messages) => match collaboration_mode.mode {
                ModeKind::Default => clone_opt_string(&messages.default),
                ModeKind::Plan => clone_opt_string(&messages.plan),
                ModeKind::PairProgramming | ModeKind::Execute => None,
            },
        };
        let instructions = match catalog {
            Some(i) => Some(i),
            None => match &collaboration_mode.settings.developer_instructions {
                Some(d) => if d.as_str().is_empty() { None } else { Some(d.clone()) },
                None => None,
            },
        };
        CollaborationModeState {
            mode: collaboration_mode.mode,
            model: collaboration_mode.settings.model.clone(),
            instructions,
        }
    }

    /// The snapshot recorded for this section.
    pub fn snapshot(&self) -> (r: CollaborationModeSnapshot)
        ensures
            r@ == (CollaborationModeSnapshotView::Current { mode: self@.mode, model: self@.model }),
    {
        CollaborationModeSnapshot::Current { mode: self.mode, model: self.model.clone() }
    }

    /// The section is recorded only when it has instructions.
    pub fn should_persist(&self) -> (r: bool)
        ensures
            r == (self@.instructions is Some),
    {
        self.instructions.is_some()
    }

    /// Whether earlier fragments of this section are recognised when retained.
    pub fn has_retained_fragment_matcher() -> (r: bool)
        ensures
            r,
    {
        true
    }

    /// The fragment to show when the section differs from `previous`.
    pub fn render_diff(&self, previous: &PreviousSectionState<CollaborationModeSnapshot>) -> (r: Option<ContextFragment>)
        ensures
            fragment_view(r) == collaboration_render(self@, previous.view_state()),
    {
        let unchanged = match previous {
            PreviousSectionState::Known(CollaborationModeSnapshot::Current { mode, model }) => *mode == self.mode && *model == self.model,
            PreviousSectionState::Known(CollaborationModeSnapshot::Legacy(_)) => false,
            PreviousSectionState::Unknown => true,
            PreviousSectionState::Absent => self.instructions.is_none(),
        };
        if unchanged {
            return None;
        }
        let instructions = match &self.instructions {
            Some(i) => i.clone(),
            None => String::new(),
        };
        Some(ContextFragment::CollaborationModeInstructions(CollaborationModeInstructions { instructions }))
    }
}

// ----------------------------------------------------------------------------
// Context-window guidance
// ----------------------------------------------------------------------------

/// Model-visible guidance for managing the current context window.
#[derive(Debug)]
pub struct ContextWindowGuidanceState {
    message: String,
}

impl View for ContextWindowGuidanceState {
    type V = Seq<char>;

    closed spec fn view(&self) -> Seq<char> {
        self.message@
    }
}

/// The guidance is rendered unless the model already saw the same message.
pub open spec fn guidance_render(message: Seq<char>, previous: PreviousSectionState<Seq<char>>) -> Option<FragmentView> {
    match previous {
        PreviousSectionState::Known(m) if m == message => None,
        _ => Some(FragmentView::ContextWindowGuidance(message)),
    }
}

impl ContextWindowGuidanceState {
    /// The section for `message`.
    pub fn new(message: &str) -> (r: ContextWindowGuidanceState)
        ensures
            r@ == message@,
    {
        ContextWindowGuidanceState { message: string_of(message) }
    }

    /// The snapshot recorded for this section: its message.
    pub fn snapshot(&self) -> (r: String)
        ensures
            r@ == self@,
    {
        self.message.clone()
    }

    /// Whether earlier fragments of this section are recognised when retained.
    pub fn has_retained_fragment_matcher() -> (r: bool)
        ensures
            r,
    {
        true
    }

    /// The fragment to show when the section differs from `previous`.
    pub fn render_diff(&self, previous: &PreviousSectionState<String>) -> (r: Option<ContextFragment>)
        ensures
            fragment_view(r) == guidance_render(self@, previous.view_state()),
    {
        if let PreviousSectionState::Known(message) = previous {
            if *message == self.message {
                return None;
            }
        }
        Some(ContextFragment::ContextWindowGuidance { message: self.message.clone() })
    }
}

// ----------------------------------------------------------------------------
// Model identity
// ----------------------------------------------------------------------------

/// Model identity and the instructions needed when that identity changes.
#[derive(Debug)]
pub struct ModelInstructionsState {
    model: String,
    previous_model: Option<String>,
    instructions: String,
}

/// The content of a [`ModelInstructionsState`].
pub struct ModelInstructionsView {
    pub model: Seq<char>,
    pub previous_model: Option<Seq<char>>,
    pub instructions: Seq<char>,
}

impl View for ModelInstructionsState {
    type V = ModelInstructionsView;

    closed spec fn view(&self) -> ModelInstructionsView {
        ModelInstructionsView { model: self.model@, previous_model: opt_view(self.previous_model), instructions: self.instructions@ }
    }
}

/// The model changed: against the recorded model when there is one, else
/// against the previous turn's model when that is known.
pub open spec fn model_changed(state: ModelInstructionsView, previous: PreviousSectionState<Seq<char>>) -> bool {
    match previous {
        PreviousSectionState::Known(p) => p != state.model,
        _ => match state.previous_model {
            Some(p) => p != state.model,
            None => false,
        },
    }
}

/// Switch instructions are rendered when the model changed and there are any.
pub open spec fn model_render(state: ModelInstructionsView, previous: PreviousSectionState<Seq<char>>) -> Option<FragmentView> {
    if model_changed(state, previous) && state.instructions.len() > 0 {
        Some(FragmentView::ModelSwitchInstructions(state.instructions))
    } else {
        None
    }
}

impl ModelInstructionsState {
    /// The section for the current model, the previous turn's model and the switch instructions.
    pub fn new(model: &str, previous_model: Option<&str>, instructions: String) -> (r: ModelInstructionsState)
        ensures
            r@ == (ModelInstructionsView {
                model: model@,
                previous_model: match previous_model { Some(p) => Some(p@), None => None },
                instructions: instructions@,
            }),
    {
        let previous_model = match previous_model {
            Some(p) => Some(string_of(p)),
            None => None,
        };
        ModelInstructionsState { model: string_of(model), previous_model, instructions }
    }

    /// The snapshot recorded for this section: the model.
    pub fn snapshot(&self) -> (r: String)
        ensures
            r@ == self@.model,
    {
        self.model.clone()
    }

    /// Whether earlier fragments of this section are recognised when retained.
    pub fn has_retained_fragment_matcher() -> (r: bool)
        ensures
            r,
    {
        true
    }

    /// The fragment to show when the section differs from `previous`.
    pub fn render_diff(&self, previous: &PreviousSectionState<String>) -> (r: Option<ContextFragment>)
        ensures
            fragment_view(r) == model_render(self@, previous.view_state()),
    {
        let changed = match previous {
            PreviousSectionState::Known(p) => !(*p == self.model),
            PreviousSectionState::Unknown | PreviousSectionState::Absent => match &self.previous_model {
                Some(p) => !(*p == self.model),
                None => false,
            },
        };
        if changed && !self.instructions.as_str().is_empty() {
            Some(ContextFragment::ModelSwitchInstructions { instructions: self.instructions.clone() })
        } else {
            None
        }
    }
}

// ----------------------------------------------------------------------------
// Personality
// ----------------------------------------------------------------------------

/// A personality the model can be given.
#[derive(Clone, Copy, Debug, PartialEq, Eq, Structural)]
pub enum Personality {
    Friendly,
    Pragmatic,
}

/// The recorded snapshot of a personality section.
#[derive(Debug)]
pub struct PersonalitySnapshot {
    pub model: String,
    pub personality: Option<Personality>,
}

/// The content of a [`PersonalitySnapshot`].
pub struct PersonalitySnapshotView {
    pub model: Seq<char>,
    pub personality: Option<Personality>,
}

impl View for PersonalitySnapshot {
    type V = PersonalitySnapshotView;

    open spec fn view(&self) -> PersonalitySnapshotView {
        PersonalitySnapshotView { model: self.model@, personality: self.personality }
    }
}

/// Personality instructions currently visible to the model.
#[derive(Debug)]
pub struct PersonalityState {
    snapshot: PersonalitySnapshot,
    previous: Option<PersonalitySnapshot>,
    instructions: Option<String>,
    personality_is_baked: bool,
}

/// The content of a [`PersonalityState`].
pub struct PersonalityView {
    pub snapshot: PersonalitySnapshotView,
    pub previous: Option<PersonalitySnapshotView>,
    pub instructions: Option<Seq<char>>,
    pub personality_is_baked: bool,
}

impl View for PersonalityState {
    type V = PersonalityView;

    closed spec fn view(&self) -> PersonalityView {
        PersonalityView {
            snapshot: self.snapshot@,
            previous: match self.previous { Some(p) => Some(p@), None => None },
            instructions: opt_view(self.instructions),
            personality_is_baked: self.personality_is_baked,
        }
    }
}

/// The instructions as a personality fragment, when there are any and `cond` holds.
pub open spec fn personality_fragment(cond: bool, instructions: Option<Seq<char>>) -> Option<FragmentView> {
    if cond {
        match instructions {
            Some(i) => Some(FragmentView::PersonalitySpecInstructions(i)),
            None => None,
        }
    } else {
        None
    }
}

/// Against an earlier snapshot: the instructions when the model is the same
/// and the personality changed.
pub open spec fn personality_change(state: PersonalityView, previous: PersonalitySnapshotView) -> Option<FragmentView> {
    personality_fragment(
        previous.model == state.snapshot.model && previous.personality != state.snapshot.personality,
        state.instructions,
    )
}

/// What a personality section renders against `previous`: the change against
/// the recorded snapshot, else against the previous turn's settings; when the
/// section was never rendered, its instructions unless the personality is baked
/// into the base instructions or the model changed since the previous turn.
pub open spec fn personality_render(state: PersonalityView, previous: PreviousSectionState<PersonalitySnapshotView>) -> Option<FragmentView> {
    match previous {
        PreviousSectionState::Known(p) => personality_change(state, p),
        PreviousSectionState::Unknown => match state.previous {
            Some(p) => personality_change(state, p),
            None => None,
        },
        PreviousSectionState::Absent => personality_fragment(
            !state.personality_is_baked && match state.previous {
                Some(p) => p.model == state.snapshot.model,
                None => true,
            },
            state.instructions,
        ),
    }
}

fn same_personality(a: Option<Personality>, b: Option<Personality>) -> (r: bool)
    ensures
        r == (a == b),
{
    match (a, b) {
        (Some(x), Some(y)) => x == y,
        (None, None) => true,
        _ => false,
    }
}

impl PersonalityState {
    /// The section for the current model and personality, the previous turn's
    /// settings, the personality's instructions and whether the base
    /// instructions already carry the personality.
    pub fn new(
        model: &str,
        personality: Option<Personality>,
        previous_model: Option<&str>,
        previous_personality: Option<Personality>,
        instructions: Option<String>,
        personality_is_baked: bool,
    ) -> (r: PersonalityState)
        ensures
            r@ == (PersonalityView {
                snapshot: PersonalitySnapshotView { model: model@, personality },
                previous: match previous_model {
                    Some(m) => Some(PersonalitySnapshotView { model: m@, personality: previous_personality }),
                    None => None,
                },
                instructions: opt_view(instructions),
                personality_is_baked,
            }),
    {
        let previous = match previous_model {
            Some(m) => Some(PersonalitySnapshot { model: string_of(m), personality: previous_personality }),
            None => None,
        };
        PersonalityState {
            snapshot: PersonalitySnapshot { model: string_of(model), personality },
            previous,
            instructions,
            personality_is_baked,
        }
    }

    fn render_change(&self, previous: &PersonalitySnapshot) -> (r: Option<ContextFragment>)
        ensures
            fragment_view(r) == personality_change(self@, previous@),
    {
        if previous.model == self.snapshot.model && !same_personality(previous.personality, self.snapshot.personality) {
            match &self.instructions {
                Some(i) => Some(ContextFragment::PersonalitySpecInstructions { instructions: i.clone() }),
                None => None,
            }
        } else {
            None
        }
    }

    /// The snapshot recorded for this section.
    pub fn snapshot(&self) -> (r: PersonalitySnapshot)
        ensures
            r@ == self@.snapshot,
    {
        PersonalitySnapshot { model: self.snapshot.model.clone(), personality: self.snapshot.personality }
    }

    /// The fragment to show when the section differs from `previous`.
    pub fn render_diff(&self, previous: &PreviousSectionState<PersonalitySnapshot>) -> (r: Option<ContextFragment>)
        ensures
            fragment_view(r) == personality_render(self@, previous.view_state()),
    {
        match previous {
            PreviousSectionState::Known(p) => self.render_change(p),
            PreviousSectionState::Unknown => match &self.previous {
                Some(p) => self.render_change(p),
                None => None,
            },
            PreviousSectionState::Absent => {
                let model_kept = match &self.previous {
                    Some(p) => p.model == self.snapshot.model,
                    None => true,
                };
                if !self.personality_is_baked && model_kept {
                    match &self.instructions {
                        Some(i) => Some(ContextFragment::PersonalitySpecInstructions { instructions: i.clone() }),
                        None => None,
                    }
                } else {
                    None
                }
            },
        }
    }
}

// ----------------------------------------------------------------------------
// Laws
// ----------------------------------------------------------------------------

/// A collaboration-mode section renders nothing against its own snapshot.
pub proof fn lemma_collaboration_mode_own_snapshot_renders_nothing(state: CollaborationModeView)
    ensures
        collaboration_render(state, PreviousSectionState::Known(
            CollaborationModeSnapshotView::Current { mode: state.mode, model: state.model },
        )) is None,
{
}

/// A guidance section renders nothing against its own snapshot.
pub proof fn lemma_guidance_own_snapshot_renders_nothing(message: Seq<char>)
    ensures
        guidance_render(message, PreviousSectionState::Known(message)) is None,
{
}

/// A model section renders nothing against its own snapshot.
pub proof fn lemma_model_own_snapshot_renders_nothing(state: ModelInstructionsView)
    ensures
        model_render(state, PreviousSectionState::Known(state.model)) is None,
{
}

/// A personality section renders nothing against its own snapshot.
pub proof fn lemma_personality_own_snapshot_renders_nothing(state: PersonalityView)
    ensures
        personality_render(state, PreviousSectionState::Known(state.snapshot)) is None,
{
}

/// A collaboration-mode section that is not persisted renders nothing where
/// the section was never shown.
pub proof fn lemma_unpersisted_collaboration_mode_renders_nothing_when_absent(state: CollaborationModeView)
    requires
        state.instructions is None,
    ensures
        collaboration_render(state, PreviousSectionState::Absent) is None,
{
}


/// A personality change under the same model is shown to the model: against
/// a recorded snapshot of the same model with another personality, the
/// section renders its instructions (when it has any), and a recorded
/// snapshot is judged exactly as the previous turn's settings would be.
pub proof fn lemma_personality_change_is_rendered(state: PersonalityView, p: PersonalitySnapshotView)
    ensures
        p.model == state.snapshot.model && p.personality != state.snapshot.personality && state.instructions is Some
            ==> personality_render(state, PreviousSectionState::Known(p))
                == Some(FragmentView::PersonalitySpecInstructions(state.instructions->Some_0)),
        p.model != state.snapshot.model || p.personality == state.snapshot.personality
            ==> personality_render(state, PreviousSectionState::Known(p)) is None,
        state.previous == Some(p) ==> personality_render(state, PreviousSectionState::Known(p))
            == personality_render(state, PreviousSectionState::Unknown),
{
}

} // verus!
