use codex_logic::world_state::{
    CollaborationMode, CollaborationModeInstructions, CollaborationModeMessages, CollaborationModeSettings,
    CollaborationModeSnapshot, CollaborationModeState, ContextFragment, ContextWindowGuidanceState, ModeKind,
    ModelInstructionsState, Personality, PersonalitySnapshot, PersonalityState, PreviousSectionState,
};

fn mode(kind: ModeKind, model: &str, dev: Option<&str>) -> CollaborationMode {
    CollaborationMode {
        mode: kind,
        settings: CollaborationModeSettings { model: model.to_string(), developer_instructions: dev.map(str::to_string) },
    }
}

fn body(f: Option<ContextFragment>) -> Option<String> {
    match f {
        None => None,
        Some(ContextFragment::CollaborationModeInstructions(c)) => Some(format!("collab:{}", c.body())),
        Some(ContextFragment::ContextWindowGuidance { message }) => Some(format!("guidance:{message}")),
        Some(ContextFragment::ModelSwitchInstructions { instructions }) => Some(format!("model:{instructions}")),
        Some(ContextFragment::PersonalitySpecInstructions { instructions }) => Some(format!("personality:{instructions}")),
    }
}

#[test]
fn collaboration_prefers_catalog_instructions() {
    let messages = CollaborationModeMessages { default: None, plan: Some("plan text".to_string()) };
    let s = CollaborationModeState::from_collaboration_mode(&mode(ModeKind::Plan, "m", Some("dev")), Some(&messages));
    assert!(s.should_persist());
    assert_eq!(body(s.render_diff(&PreviousSectionState::Absent)), Some("collab:plan text".to_string()));
    let s = CollaborationModeState::from_collaboration_mode(&mode(ModeKind::Default, "m", Some("dev")), Some(&messages));
    assert_eq!(body(s.render_diff(&PreviousSectionState::Absent)), Some("collab:dev".to_string()));
    let s = CollaborationModeState::from_collaboration_mode(&mode(ModeKind::Execute, "m", Some("")), Some(&messages));
    assert!(!s.should_persist());
    assert_eq!(body(s.render_diff(&PreviousSectionState::Absent)), None);
}

#[test]
fn collaboration_diff_against_snapshots() {
    let s = CollaborationModeState::from_collaboration_mode(&mode(ModeKind::Default, "m1", None), None);
    let same = s.snapshot();
    assert_eq!(body(s.render_diff(&PreviousSectionState::Known(same))), None);
    assert_eq!(body(s.render_diff(&PreviousSectionState::Unknown)), None);
    let other = CollaborationModeSnapshot::Current { mode: ModeKind::Plan, model: "m1".to_string() };
    assert_eq!(body(s.render_diff(&PreviousSectionState::Known(other))), Some("collab:".to_string()));
    let legacy = CollaborationModeSnapshot::Legacy(ModeKind::Default);
    assert_eq!(body(s.render_diff(&PreviousSectionState::Known(legacy))), Some("collab:".to_string()));
}

#[test]
fn collaboration_markers() {
    let c = CollaborationModeInstructions { instructions: "x".to_string() };
    assert_eq!(c.role(), "developer");
    assert_eq!(c.markers(), ("<collaboration_mode>", "</collaboration_mode>"));
    assert!(CollaborationModeState::has_retained_fragment_matcher());
}

#[test]
fn guidance_renders_when_message_changes() {
    let s = ContextWindowGuidanceState::new("keep it short");
    assert_eq!(s.snapshot(), "keep it short");
    assert_eq!(body(s.render_diff(&PreviousSectionState::Known("keep it short".to_string()))), None);
    assert_eq!(body(s.render_diff(&PreviousSectionState::Known("other".to_string()))), Some("guidance:keep it short".to_string()));
    assert_eq!(body(s.render_diff(&PreviousSectionState::Unknown)), Some("guidance:keep it short".to_string()));
}

#[test]
fn model_switch_instructions() {
    let s = ModelInstructionsState::new("gpt-b", Some("gpt-a"), "switched".to_string());
    assert_eq!(s.snapshot(), "gpt-b");
    assert_eq!(body(s.render_diff(&PreviousSectionState::Absent)), Some("model:switched".to_string()));
    assert_eq!(body(s.render_diff(&PreviousSectionState::Known("gpt-b".to_string()))), None);
    assert_eq!(body(s.render_diff(&PreviousSectionState::Known("gpt-c".to_string()))), Some("model:switched".to_string()));
    let same = ModelInstructionsState::new("gpt-b", Some("gpt-b"), "switched".to_string());
    assert_eq!(body(same.render_diff(&PreviousSectionState::Unknown)), None);
    let empty = ModelInstructionsState::new("gpt-b", Some("gpt-a"), String::new());
    assert_eq!(body(empty.render_diff(&PreviousSectionState::Absent)), None);
}

#[test]
fn personality_changes() {
    let s = PersonalityState::new("m", Some(Personality::Friendly), Some("m"), Some(Personality::Pragmatic), Some("be nice".to_string()), false);
    assert_eq!(body(s.render_diff(&PreviousSectionState::Unknown)), Some("personality:be nice".to_string()));
    assert_eq!(body(s.render_diff(&PreviousSectionState::Known(s.snapshot()))), None);
    let other_model = PersonalitySnapshot { model: "n".to_string(), personality: None };
    assert_eq!(body(s.render_diff(&PreviousSectionState::Known(other_model))), None);
    assert_eq!(body(s.render_diff(&PreviousSectionState::Absent)), Some("personality:be nice".to_string()));
    let baked = PersonalityState::new("m", Some(Personality::Friendly), None, None, Some("be nice".to_string()), true);
    assert_eq!(body(baked.render_diff(&PreviousSectionState::Absent)), None);
    let switched = PersonalityState::new("m", Some(Personality::Friendly), Some("n"), None, Some("be nice".to_string()), false);
    assert_eq!(body(switched.render_diff(&PreviousSectionState::Absent)), None);
}
