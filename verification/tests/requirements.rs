use codex_logic::requirements::{
    apply_exact_requirement, apply_feedback_requirement, apply_to_config, push_sqlite_home_env_override_warning,
    push_structured_requirement_override_warning, replace_required_leaf, AbsolutePath, ConfigRequirements,
    ConfigToml, FeedbackConfigToml, Sourced, WindowsToml,
};

fn path(p: &str) -> AbsolutePath {
    AbsolutePath { path: p.to_string() }
}

fn empty_config() -> ConfigToml {
    ConfigToml {
        sqlite_home: None,
        log_dir: None,
        model_catalog_json: None,
        check_for_update_on_startup: None,
        allow_login_shell: None,
        feedback: None,
        windows: None,
    }
}

fn no_requirements() -> ConfigRequirements {
    ConfigRequirements {
        sqlite_home: None,
        log_dir: None,
        model_catalog_json: None,
        check_for_update_on_startup: None,
        allow_login_shell: None,
        feedback: None,
        windows_sandbox_private_desktop: None,
    }
}

#[test]
fn exact_requirement_overrides_and_warns() {
    let mut configured = Some(true);
    let mut warnings = Vec::new();
    let req = Sourced { value: false, source: "MDM managed config".to_string() };
    apply_exact_requirement("allow_login_shell", &mut configured, Some(&req), &mut warnings);
    assert_eq!(configured, Some(false));
    assert_eq!(
        warnings,
        vec!["Configured value for `allow_login_shell` is overridden by the required value false from MDM managed config.".to_string()]
    );
}

#[test]
fn exact_requirement_without_conflict_is_silent() {
    let mut configured: Option<bool> = None;
    let mut warnings = Vec::new();
    let req = Sourced { value: true, source: "cloud".to_string() };
    apply_exact_requirement("x", &mut configured, Some(&req), &mut warnings);
    assert_eq!(configured, Some(true));
    assert!(warnings.is_empty());
    apply_exact_requirement("x", &mut configured, None, &mut warnings);
    assert_eq!(configured, Some(true));
    assert!(warnings.is_empty());
}

#[test]
fn path_values_are_rendered_with_debug_quotes() {
    let mut configured = Some(path("/old"));
    let mut warnings = Vec::new();
    let req = Sourced { value: path("/new \"dir\""), source: "system".to_string() };
    apply_exact_requirement("log_dir", &mut configured, Some(&req), &mut warnings);
    assert_eq!(configured.unwrap().path, "/new \"dir\"");
    assert_eq!(
        warnings,
        vec!["Configured value for `log_dir` is overridden by the required value AbsolutePathBuf(\"/new \\\"dir\\\"\") from system.".to_string()]
    );
}

#[test]
fn paths_compare_as_paths() {
    let mut configured = Some(path("/a/b/"));
    let mut warnings = Vec::new();
    let req = Sourced { value: path("/a/b"), source: "system".to_string() };
    apply_exact_requirement("sqlite_home", &mut configured, Some(&req), &mut warnings);
    assert!(warnings.is_empty());
}

#[test]
fn replace_leaf_reports_conflicts() {
    let mut c = Some(true);
    assert!(replace_required_leaf(&mut c, &Some(false)));
    assert_eq!(c, Some(false));
    assert!(!replace_required_leaf(&mut c, &Some(false)));
    assert!(!replace_required_leaf(&mut c, &None));
    assert_eq!(c, Some(false));
    let mut none: Option<bool> = None;
    assert!(!replace_required_leaf(&mut none, &Some(true)));
    assert_eq!(none, Some(true));
}

#[test]
fn feedback_requirement_warns_once_under_the_table() {
    let mut configured = Some(FeedbackConfigToml { enabled: Some(true) });
    let mut warnings = Vec::new();
    let req = Sourced { value: FeedbackConfigToml { enabled: Some(false) }, source: "admin".to_string() };
    apply_feedback_requirement(&mut configured, Some(&req), &mut warnings);
    assert_eq!(configured.unwrap().enabled, Some(false));
    assert_eq!(warnings, vec!["Configured values under `feedback` are overridden by requirements from admin.".to_string()]);
    let mut absent: Option<FeedbackConfigToml> = None;
    let req = Sourced { value: FeedbackConfigToml { enabled: None }, source: "admin".to_string() };
    let mut warnings = Vec::new();
    apply_feedback_requirement(&mut absent, Some(&req), &mut warnings);
    assert_eq!(absent.unwrap().enabled, None);
    assert!(warnings.is_empty());
}

#[test]
fn structured_warning_only_on_conflict() {
    let mut warnings = Vec::new();
    push_structured_requirement_override_warning("feedback", false, "x", &mut warnings);
    assert!(warnings.is_empty());
    push_structured_requirement_override_warning("feedback", true, "x", &mut warnings);
    assert_eq!(warnings.len(), 1);
}

#[test]
fn sqlite_env_warning() {
    let req = Sourced { value: path("/req"), source: "cloud".to_string() };
    let mut warnings = Vec::new();
    push_sqlite_home_env_override_warning(None, Some("/env"), Some(&req), &mut warnings);
    assert_eq!(
        warnings,
        vec!["Environment value for `$CODEX_SQLITE_HOME` is overridden by the required `sqlite_home` value AbsolutePathBuf(\"/req\") from cloud.".to_string()]
    );
    let mut warnings = Vec::new();
    push_sqlite_home_env_override_warning(None, Some("/req"), Some(&req), &mut warnings);
    push_sqlite_home_env_override_warning(Some(&path("/c")), Some("/env"), Some(&req), &mut warnings);
    push_sqlite_home_env_override_warning(None, None, Some(&req), &mut warnings);
    push_sqlite_home_env_override_warning(None, Some("/env"), None, &mut warnings);
    assert!(warnings.is_empty());
}

#[test]
fn apply_to_config_in_field_order() {
    let mut config = empty_config();
    config.check_for_update_on_startup = Some(true);
    config.log_dir = Some(path("/logs"));
    let mut reqs = no_requirements();
    reqs.check_for_update_on_startup = Some(Sourced { value: false, source: "s1".to_string() });
    reqs.log_dir = Some(Sourced { value: path("/managed"), source: "s2".to_string() });
    reqs.windows_sandbox_private_desktop = Some(Sourced { value: true, source: "s3".to_string() });
    let mut warnings = Vec::new();
    apply_to_config(&mut config, &reqs, &mut warnings);
    assert_eq!(config.check_for_update_on_startup, Some(false));
    assert_eq!(config.log_dir.as_ref().unwrap().path, "/managed");
    assert!(matches!(config.windows, Some(WindowsToml { sandbox_private_desktop: Some(true) })));
    assert_eq!(warnings.len(), 2);
    assert!(warnings[0].starts_with("Configured value for `log_dir`"));
    assert!(warnings[1].starts_with("Configured value for `check_for_update_on_startup`"));
}

#[test]
fn requirements_settle_after_one_application() {
    let mut config = empty_config();
    config.sqlite_home = Some(path("/configured/sqlite"));
    config.allow_login_shell = Some(true);
    config.feedback = Some(FeedbackConfigToml { enabled: Some(true) });
    config.windows = Some(WindowsToml { sandbox_private_desktop: Some(false) });
    let mut requirements = no_requirements();
    requirements.sqlite_home = Some(Sourced { value: path("/managed/sqlite"), source: "MDM".to_string() });
    requirements.allow_login_shell = Some(Sourced { value: false, source: "MDM".to_string() });
    requirements.feedback = Some(Sourced { value: FeedbackConfigToml { enabled: Some(false) }, source: "cloud".to_string() });
    requirements.windows_sandbox_private_desktop = Some(Sourced { value: true, source: "cloud".to_string() });
    let mut warnings = Vec::new();
    apply_to_config(&mut config, &requirements, &mut warnings);
    assert_eq!(warnings.len(), 4);
    let mut again = Vec::new();
    apply_to_config(&mut config, &requirements, &mut again);
    assert!(again.is_empty());
    assert_eq!(config.sqlite_home.as_ref().map(|p| p.path.as_str()), Some("/managed/sqlite"));
    assert_eq!(config.allow_login_shell, Some(false));
    assert_eq!(config.feedback.as_ref().and_then(|f| f.enabled), Some(false));
    assert_eq!(config.windows.as_ref().and_then(|w| w.sandbox_private_desktop), Some(true));
}
