use codex_logic::session_archive::{
    chatgpt_base_url, launch_overrides, should_probe_default_daemon, delete_confirmed, delete_prompt, id_target_needs_read, lookup_modes, lookup_sort_key, no_session_message,
    rollout_subdir, session_name_after_action, session_search_plan, success_message, DeleteConfirmation,
    SessionArchiveAction, SessionNameLookupMode, ThreadSortKey,
};

const ID: &str = "019a1b2c-3d4e-7f00-8123-456789abcdef";

#[test]
fn success_messages() {
    assert_eq!(success_message(SessionArchiveAction::Archive, ID, Some("demo")), format!("Archived session demo ({ID})."));
    assert_eq!(success_message(SessionArchiveAction::Delete(DeleteConfirmation::Skip), ID, None), format!("Deleted session {ID}."));
    assert_eq!(success_message(SessionArchiveAction::Unarchive, ID, None), format!("Unarchived session {ID}."));
}

#[test]
fn search_plans() {
    let (scope, archived) = session_search_plan(SessionArchiveAction::Archive);
    assert_eq!((scope, archived), ("active", vec![false]));
    let (scope, archived) = session_search_plan(SessionArchiveAction::Delete(DeleteConfirmation::Prompt));
    assert_eq!((scope, archived), ("active or archived", vec![false, true]));
    let (scope, archived) = session_search_plan(SessionArchiveAction::Unarchive);
    assert_eq!((scope, archived), ("archived", vec![true]));
    assert_eq!(
        no_session_message(SessionArchiveAction::Unarchive, "my chat"),
        "No archived session found matching 'my chat'."
    );
}

#[test]
fn lookup_decisions() {
    assert!(id_target_needs_read(SessionArchiveAction::Delete(DeleteConfirmation::Prompt)));
    assert!(!id_target_needs_read(SessionArchiveAction::Delete(DeleteConfirmation::Skip)));
    assert!(!id_target_needs_read(SessionArchiveAction::Archive));
    assert_eq!(lookup_modes(true), vec![SessionNameLookupMode::ScanAndRepair]);
    assert_eq!(lookup_modes(false), vec![SessionNameLookupMode::StateDbOnly, SessionNameLookupMode::ScanAndRepair]);
    assert_eq!(lookup_sort_key(SessionNameLookupMode::StateDbOnly, true), ThreadSortKey::RecencyAt);
    assert_eq!(lookup_sort_key(SessionNameLookupMode::StateDbOnly, false), ThreadSortKey::UpdatedAt);
    assert_eq!(lookup_sort_key(SessionNameLookupMode::ScanAndRepair, true), ThreadSortKey::UpdatedAt);
    assert_eq!(rollout_subdir(true), "archived_sessions");
    assert_eq!(rollout_subdir(false), "sessions");
}

#[test]
fn reported_names() {
    let unarchive = SessionArchiveAction::Unarchive;
    assert_eq!(session_name_after_action(unarchive, Some("old".to_string()), Some("new".to_string())).as_deref(), Some("new"));
    assert_eq!(session_name_after_action(unarchive, Some("old".to_string()), None).as_deref(), Some("old"));
    assert_eq!(session_name_after_action(SessionArchiveAction::Archive, Some("old".to_string()), Some("new".to_string())).as_deref(), Some("old"));
}

#[test]
fn delete_confirmation() {
    assert_eq!(delete_prompt(ID, Some("demo")), format!("Permanently delete session 'demo' ({ID})?"));
    assert_eq!(delete_prompt(ID, None), format!("Permanently delete session {ID}?"));
    assert!(delete_confirmed("y\n"));
    assert!(delete_confirmed("  YES \r\n"));
    assert!(delete_confirmed("Yes"));
    assert!(!delete_confirmed("\n"));
    assert!(!delete_confirmed("no"));
    assert!(!delete_confirmed("yess"));
    assert!(!delete_confirmed("y e s"));
}

#[test]
fn launch_decisions() {
    assert_eq!(chatgpt_base_url(None), "https://chatgpt.com/backend-api/");
    assert_eq!(chatgpt_base_url(Some("https://proxy/".to_string())), "https://proxy/");
    assert!(should_probe_default_daemon(false, true));
    assert!(!should_probe_default_daemon(true, true));
    assert!(!should_probe_default_daemon(false, false));
    let o = launch_overrides(None, true, Some("gpt-oss:20b".to_string()), Some("/w".to_string()), false, true);
    assert_eq!(o.model.as_deref(), Some("gpt-oss:20b"));
    assert_eq!(o.cwd.as_deref(), Some("/w"));
    assert!(o.remote_cwd_override.is_none());
    assert_eq!(o.show_raw_agent_reasoning, Some(true));
    assert_eq!(o.bypass_hook_trust, Some(true));
    let o = launch_overrides(Some("m".to_string()), false, Some("x".to_string()), Some("/w".to_string()), true, false);
    assert_eq!(o.model.as_deref(), Some("m"));
    assert!(o.cwd.is_none());
    assert_eq!(o.remote_cwd_override.as_deref(), Some("/w"));
    assert_eq!(o.show_raw_agent_reasoning, None);
    assert_eq!(o.bypass_hook_trust, None);
    let o = launch_overrides(None, false, Some("x".to_string()), None, false, false);
    assert!(o.model.is_none());
}
