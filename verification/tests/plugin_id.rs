use codex_logic::plugin_id::{validate_plugin_segment, PluginId, PluginIdError};

fn message(r: Result<PluginId, PluginIdError>) -> String {
    match r {
        Ok(_) => panic!("expected an error"),
        Err(PluginIdError::Invalid(m)) => m,
    }
}

#[test]
fn new_accepts_valid_segments() {
    let id = PluginId::new("sample.plugin".to_string(), "openai-curated".to_string()).unwrap();
    assert_eq!(id.plugin_name, "sample.plugin");
    assert_eq!(id.marketplace_name, "openai-curated");
    assert_eq!(id.as_key(), "sample.plugin@openai-curated");
}

#[test]
fn parse_splits_at_last_at_sign() {
    let id = PluginId::parse("plugin_1@market").unwrap();
    assert_eq!(id.plugin_name, "plugin_1");
    assert_eq!(id.marketplace_name, "market");
}

#[test]
fn parse_round_trips_with_as_key() {
    let id = PluginId::new("a.b-c_d".to_string(), "M-1_x".to_string()).unwrap();
    let again = PluginId::parse(&id.as_key()).unwrap();
    assert_eq!(again, id);
}

#[test]
fn parse_rejects_missing_separator() {
    assert_eq!(
        message(PluginId::parse("plugin")),
        "invalid plugin key `plugin`; expected <plugin>@<marketplace>"
    );
}

#[test]
fn parse_rejects_empty_halves() {
    assert_eq!(
        message(PluginId::parse("@market")),
        "invalid plugin key `@market`; expected <plugin>@<marketplace>"
    );
    assert_eq!(
        message(PluginId::parse("plugin@")),
        "invalid plugin key `plugin@`; expected <plugin>@<marketplace>"
    );
}

#[test]
fn parse_uses_last_at_and_reports_segment_errors_with_key() {
    assert_eq!(
        message(PluginId::parse("a@b@market")),
        "invalid plugin name: only ASCII letters, digits, `.`, `_`, and `-` are allowed in `a@b@market`"
    );
}

#[test]
fn marketplace_names_may_not_hold_dots() {
    assert_eq!(
        message(PluginId::parse("plugin@market.place")),
        "invalid marketplace name: only ASCII letters, digits, `_`, and `-` are allowed in `plugin@market.place`"
    );
}

#[test]
fn segment_errors() {
    assert_eq!(validate_plugin_segment("", "plugin name").unwrap_err(), "invalid plugin name: must not be empty");
    assert_eq!(validate_plugin_segment("..", "plugin name").unwrap_err(), "invalid plugin name: path traversal is not allowed");
    assert_eq!(validate_plugin_segment(".", "plugin name").unwrap_err(), "invalid plugin name: path traversal is not allowed");
    assert_eq!(
        validate_plugin_segment(".hidden", "plugin name").unwrap_err(),
        "invalid plugin name: dots must separate non-empty name segments"
    );
    assert_eq!(
        validate_plugin_segment("a..b", "plugin name").unwrap_err(),
        "invalid plugin name: dots must separate non-empty name segments"
    );
    assert_eq!(
        validate_plugin_segment("trailing.", "plugin name").unwrap_err(),
        "invalid plugin name: dots must separate non-empty name segments"
    );
    assert_eq!(
        validate_plugin_segment("..", "marketplace name").unwrap_err(),
        "invalid marketplace name: only ASCII letters, digits, `_`, and `-` are allowed"
    );
    assert_eq!(
        validate_plugin_segment("caf\u{e9}", "plugin name").unwrap_err(),
        "invalid plugin name: only ASCII letters, digits, `.`, `_`, and `-` are allowed"
    );
    assert!(validate_plugin_segment("Az09-_", "marketplace name").is_ok());
}

#[test]
fn new_reports_the_first_invalid_segment() {
    let err = PluginId::new("bad name".to_string(), "".to_string());
    assert_eq!(message(err), "invalid plugin name: only ASCII letters, digits, `.`, `_`, and `-` are allowed");
    let err = PluginId::new("good".to_string(), "".to_string());
    assert_eq!(message(err), "invalid marketplace name: must not be empty");
}
