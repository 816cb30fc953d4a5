use codex_logic::world_state_plan::{
    context_window_guidance, personality_instructions, personality_is_baked, realtime_start_instructions,
    world_state_sections, ConnectorState, PlannedSection, StepFlags,
};

fn flags() -> StepFlags {
    StepFlags {
        personality_feature: false,
        context_window_guidance: false,
        include_permissions_instructions: false,
        include_collaboration_mode_instructions: false,
        include_environment_context: false,
        deferred_executor_feature: false,
        include_apps_instructions: false,
        apps_enabled: false,
        connectors: Vec::new(),
        plugins_available: false,
        include_plugin_usage_instructions: false,
        deferred_tool_world_state_feature: false,
    }
}

#[test]
fn minimal_plan() {
    assert_eq!(
        world_state_sections(&flags()),
        vec![
            PlannedSection::ModelInstructions,
            PlannedSection::Realtime,
            PlannedSection::AgentsMd,
            PlannedSection::CompactPermissions,
            PlannedSection::EnvironmentsInstructions(false),
            PlannedSection::AppsInstructions(false),
            PlannedSection::PluginsInstructions(false),
            PlannedSection::Extensions,
            PlannedSection::MultiAgentMode,
        ]
    );
}

#[test]
fn full_plan() {
    let mut f = flags();
    f.personality_feature = true;
    f.context_window_guidance = true;
    f.include_permissions_instructions = true;
    f.include_collaboration_mode_instructions = true;
    f.include_environment_context = true;
    f.deferred_executor_feature = true;
    f.include_apps_instructions = true;
    f.apps_enabled = true;
    f.connectors = vec![
        ConnectorState { is_accessible: true, is_enabled: false },
        ConnectorState { is_accessible: true, is_enabled: true },
    ];
    f.plugins_available = true;
    f.include_plugin_usage_instructions = true;
    f.deferred_tool_world_state_feature = true;
    assert_eq!(
        world_state_sections(&f),
        vec![
            PlannedSection::ModelInstructions,
            PlannedSection::Personality,
            PlannedSection::ContextWindowGuidance,
            PlannedSection::Realtime,
            PlannedSection::AgentsMd,
            PlannedSection::Permissions,
            PlannedSection::CollaborationMode,
            PlannedSection::Environments,
            PlannedSection::EnvironmentsInstructions(true),
            PlannedSection::AppsInstructions(true),
            PlannedSection::PluginsInstructions(true),
            PlannedSection::Tools,
            PlannedSection::Extensions,
            PlannedSection::MultiAgentMode,
        ]
    );
}

#[test]
fn apps_need_an_accessible_enabled_connector() {
    let mut f = flags();
    f.include_apps_instructions = true;
    f.apps_enabled = true;
    f.connectors = vec![ConnectorState { is_accessible: false, is_enabled: true }];
    assert!(world_state_sections(&f).contains(&PlannedSection::AppsInstructions(false)));
}

#[test]
fn small_decisions() {
    assert!(personality_is_baked(true, "base", "base"));
    assert!(!personality_is_baked(false, "base", "base"));
    assert!(!personality_is_baked(true, "base", "other"));
    assert_eq!(context_window_guidance(true, true, Some("  trim me ")), Some("  trim me "));
    assert_eq!(context_window_guidance(true, true, Some(" \t\n")), None);
    assert_eq!(context_window_guidance(false, true, Some("x")), None);
    assert_eq!(context_window_guidance(true, false, Some("x")), None);
    assert_eq!(personality_instructions(Some(String::new())), None);
    assert_eq!(personality_instructions(Some("warm".to_string())).as_deref(), Some("warm"));
    assert_eq!(realtime_start_instructions(Some("mode"), Some("cfg")), Some("mode"));
    assert_eq!(realtime_start_instructions(None, Some("cfg")), Some("cfg"));
}
