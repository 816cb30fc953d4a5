use codex_logic::mcp_tool_exposure::{registered_tools, ToolRegistration};
use codex_logic::network_policy::{request_timeout, TimeSpan};
use codex_logic::session_archive::unreadable_id_message;
use codex_logic::world_state_plan::current_time_error_message;

#[test]
fn transport_timeout_adds_the_margin_and_saturates() {
    assert_eq!(request_timeout(TimeSpan { secs: 30, nanos: 250 }), TimeSpan { secs: 35, nanos: 250 });
    assert_eq!(request_timeout(TimeSpan { secs: u64::MAX - 5, nanos: 7 }), TimeSpan { secs: u64::MAX, nanos: 7 });
    assert_eq!(request_timeout(TimeSpan { secs: u64::MAX - 4, nanos: 7 }), TimeSpan { secs: u64::MAX, nanos: 999_999_999 });
}

#[test]
fn only_built_and_accepted_tools_are_registered() {
    let outcomes = vec![
        ToolRegistration { tool: 0, handler_built: true, accepted: true },
        ToolRegistration { tool: 2, handler_built: false, accepted: false },
        ToolRegistration { tool: 3, handler_built: true, accepted: false },
        ToolRegistration { tool: 5, handler_built: true, accepted: true },
    ];
    assert_eq!(registered_tools(&outcomes), vec![0, 5]);
    assert!(registered_tools(&Vec::new()).is_empty());
}

#[test]
fn failure_messages() {
    assert_eq!(current_time_error_message("clock unavailable"), "failed to read current time: clock unavailable");
    assert_eq!(
        unreadable_id_message("019a1b2c-3d4e-7f00-8123-456789abcdef"),
        "No active or archived session found matching '019a1b2c-3d4e-7f00-8123-456789abcdef'."
    );
}
