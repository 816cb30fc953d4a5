use codex_logic::environment::{EnvironmentDefault, EnvironmentProviderSnapshot, PreparedEnvironmentManager, PreparedEnvironmentSource};
use codex_logic::login::{login_callback_result_from_state, LoginCallbackResult, LoginOnboardingEntrypoint};
use codex_logic::mcp_config::{ensure_no_inline_bearer_tokens, global_mcp_server_entries, McpServerEntry};
use codex_logic::mcp_runtime::{mcp_environment_cwds, McpDesiredState};

#[test]
fn login_state_matches() {
    assert_eq!(login_callback_result_from_state("abc", "abc"), Some(LoginCallbackResult::default()));
    assert_eq!(
        login_callback_result_from_state("abc.onboarding_entrypoint=life_sciences", "abc"),
        Some(LoginCallbackResult { onboarding_entrypoint: Some(LoginOnboardingEntrypoint::LifeSciences) })
    );
    assert_eq!(login_callback_result_from_state("abd", "abc"), None);
    assert_eq!(login_callback_result_from_state(".onboarding_entrypoint=life_sciences", "x"), None);
    assert_eq!(login_callback_result_from_state("x", "x.onboarding_entrypoint=life_sciences"), None);
}

fn snapshot(default: EnvironmentDefault, ids: &[&str]) -> PreparedEnvironmentManager {
    PreparedEnvironmentManager {
        source: PreparedEnvironmentSource::Snapshot(EnvironmentProviderSnapshot {
            default,
            environment_ids: ids.iter().map(|s| s.to_string()).collect(),
        }),
    }
}

#[test]
fn default_environment_remoteness() {
    assert!(PreparedEnvironmentManager { source: PreparedEnvironmentSource::Noise }.default_environment_is_remote());
    assert!(!snapshot(EnvironmentDefault::Disabled, &["a"]).default_environment_is_remote());
    assert!(snapshot(EnvironmentDefault::EnvironmentId("b".to_string()), &["a", "b"]).default_environment_is_remote());
    assert!(!snapshot(EnvironmentDefault::EnvironmentId("c".to_string()), &["a", "b"]).default_environment_is_remote());
}

#[test]
fn fallback_cwd() {
    let s = McpDesiredState { primary_environment_cwd: Some(Some("/env".to_string())), config_cwd: "/cfg".to_string() };
    assert_eq!(s.local_stdio_fallback_cwd(), "/env");
    let s = McpDesiredState { primary_environment_cwd: Some(None), config_cwd: "/cfg".to_string() };
    assert_eq!(s.local_stdio_fallback_cwd(), "/cfg");
    let s = McpDesiredState { primary_environment_cwd: None, config_cwd: "/cfg".to_string() };
    assert_eq!(s.local_stdio_fallback_cwd(), "/cfg");
}

#[test]
fn environment_cwds_add_the_default_only_when_missing() {
    let envs = vec![("local".to_string(), "file:///a".to_string()), ("remote".to_string(), "file:///b".to_string()), ("local".to_string(), "file:///c".to_string())];
    let m = mcp_environment_cwds(&envs, "local", "file:///cfg");
    assert_eq!(m.get(&"local".to_string()).map(String::as_str), Some("file:///c"));
    assert_eq!(m.get(&"remote".to_string()).map(String::as_str), Some("file:///b"));
    let m = mcp_environment_cwds(&envs, "default", "file:///cfg");
    assert_eq!(m.get(&"default".to_string()).map(String::as_str), Some("file:///cfg"));
}

#[test]
fn inline_bearer_tokens_are_refused() {
    let entries = vec![
        McpServerEntry { name: "ok".to_string(), table_keys: Some(vec!["command".to_string()]) },
        McpServerEntry { name: "plain".to_string(), table_keys: None },
        McpServerEntry { name: "bad".to_string(), table_keys: Some(vec!["url".to_string(), "bearer_token".to_string()]) },
        McpServerEntry { name: "worse".to_string(), table_keys: Some(vec!["bearer_token".to_string()]) },
    ];
    assert_eq!(
        ensure_no_inline_bearer_tokens(Some(&entries)).unwrap_err(),
        "mcp_servers.bad uses unsupported `bearer_token`; set `bearer_token_env_var`."
    );
    assert!(ensure_no_inline_bearer_tokens(Some(&entries[..2].iter().map(|e| McpServerEntry { name: e.name.clone(), table_keys: e.table_keys.clone() }).collect())).is_ok());
    assert!(ensure_no_inline_bearer_tokens(None).is_ok());
}

#[test]
fn default_callback_result_has_no_entrypoint() {
    assert_eq!(LoginCallbackResult::default().onboarding_entrypoint, None);
}

#[test]
fn global_configuration_servers_are_parsed_and_checked() {
    assert!(global_mcp_server_entries("model = \"x\"\n").unwrap().is_none());
    assert!(global_mcp_server_entries("model = \n").is_err());
    let ok = global_mcp_server_entries("[mcp_servers.docs]\ncommand = \"docs\"\nargs = []\n").unwrap().unwrap();
    assert_eq!(ok.len(), 1);
    assert_eq!(ok[0].name, "docs");
    let mut keys = ok[0].table_keys.clone().unwrap();
    keys.sort();
    assert_eq!(keys, vec!["args".to_string(), "command".to_string()]);
    assert_eq!(
        global_mcp_server_entries("[mcp_servers.web]\nurl = \"https://x\"\nbearer_token = \"t\"\n").unwrap_err(),
        "mcp_servers.web uses unsupported `bearer_token`; set `bearer_token_env_var`."
    );
    let plain = global_mcp_server_entries("mcp_servers = 3\n").unwrap().unwrap();
    assert!(plain.is_empty());
}
