use codex_logic::mcp_tool_exposure::{
    exposed_tool_order, filter_codex_apps_mcp_tools, filter_non_codex_apps_mcp_tools_only, tool_exposure, McpToolInfo,
    ToolExposure,
};

fn tool(server: &str, connector: Option<&str>, visible: bool, enabled: bool) -> McpToolInfo {
    McpToolInfo {
        server_name: server.to_string(),
        tool_name: "t".to_string(),
        connector_id: connector.map(str::to_string),
        model_visible: visible,
        app_policy_enabled: enabled,
    }
}

#[test]
fn exposure_follows_tool_search() {
    assert_eq!(tool_exposure(true), ToolExposure::Deferred);
    assert_eq!(tool_exposure(false), ToolExposure::Direct);
}

#[test]
fn filters_and_order() {
    let tools = vec![
        tool("codex_apps", Some("gmail"), true, true),
        tool("github", None, true, true),
        tool("codex_apps", Some("drive"), true, true),
        tool("hidden", None, false, true),
        tool("codex_apps", Some("gmail"), true, false),
        tool("codex_apps", None, true, true),
        tool("linear", None, true, false),
    ];
    let connectors = vec!["gmail".to_string()];
    assert_eq!(filter_non_codex_apps_mcp_tools_only(&tools), vec![1, 6]);
    assert_eq!(filter_codex_apps_mcp_tools(&tools, &connectors), vec![0]);
    assert_eq!(exposed_tool_order(&tools, Some(&connectors)), vec![1, 6, 0]);
    assert_eq!(exposed_tool_order(&tools, None), vec![1, 6]);
}
