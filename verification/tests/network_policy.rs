use codex_logic::network_policy::{
    finish_policy_request, host_is_acceptable, start_policy_request, ExecServerNetworkPolicyDecision,
    ExecServerNetworkProtocol, NetworkDecision, NetworkPolicyRequest, NetworkProtocol, PolicyAction, PolicyOutcome,
};

fn request(host: &str) -> NetworkPolicyRequest {
    NetworkPolicyRequest { protocol: NetworkProtocol::HttpsConnect, host: host.to_string(), port: 443 }
}

fn is_not_allowed(d: &NetworkDecision) -> bool {
    matches!(d, NetworkDecision::Deny { reason } if reason == "not_allowed")
}

#[test]
fn hosts() {
    assert!(host_is_acceptable("example.com", 253));
    assert!(!host_is_acceptable("", 253));
    assert!(!host_is_acceptable("exa mple.com", 253));
    assert!(!host_is_acceptable("bad\u{7}host", 253));
    assert!(!host_is_acceptable("nbsp\u{a0}host", 253));
    assert!(!host_is_acceptable(&"a".repeat(254), 253));
    assert!(host_is_acceptable(&"a".repeat(253), 253));
}

#[test]
fn start_forwards_good_requests() {
    match start_policy_request("proc-1".to_string(), request("example.com"), true, 253) {
        PolicyAction::Send(p) => {
            assert_eq!(p.process_id, "proc-1");
            assert_eq!(p.protocol, ExecServerNetworkProtocol::HttpsConnect);
            assert_eq!(p.host, "example.com");
            assert_eq!(p.port, 443);
        }
        other => panic!("unexpected {other:?}"),
    }
    assert!(matches!(start_policy_request("p".to_string(), request("example.com"), false, 253), PolicyAction::Decide(ref d) if is_not_allowed(d)));
    assert!(matches!(start_policy_request("p".to_string(), request("a b"), true, 253), PolicyAction::Decide(ref d) if is_not_allowed(d)));
}

#[test]
fn replies() {
    assert!(is_not_allowed(&finish_policy_request(PolicyOutcome::Shutdown, 100)));
    assert!(is_not_allowed(&finish_policy_request(PolicyOutcome::Reply(None), 100)));
    assert!(matches!(finish_policy_request(PolicyOutcome::Reply(Some(ExecServerNetworkPolicyDecision::Allow)), 100), NetworkDecision::Allow));
    let deny = ExecServerNetworkPolicyDecision::Deny { reason: "blocked by policy".to_string() };
    assert!(matches!(finish_policy_request(PolicyOutcome::Reply(Some(deny)), 100), NetworkDecision::Deny { reason } if reason == "blocked by policy"));
    let ask = ExecServerNetworkPolicyDecision::Ask { reason: "confirm?".to_string() };
    assert!(matches!(finish_policy_request(PolicyOutcome::Reply(Some(ask)), 100), NetworkDecision::Ask { reason } if reason == "confirm?"));
    let long = ExecServerNetworkPolicyDecision::Ask { reason: "x".repeat(101) };
    assert!(is_not_allowed(&finish_policy_request(PolicyOutcome::Reply(Some(long)), 100)));
    let control = ExecServerNetworkPolicyDecision::Deny { reason: "line\nbreak".to_string() };
    assert!(is_not_allowed(&finish_policy_request(PolicyOutcome::Reply(Some(control)), 100)));
}
