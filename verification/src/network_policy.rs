//! Network-policy decisions for sandboxed processes: a request's host is
//! checked before it is forwarded to the controller, and the controller's
//! reply is checked before it is obeyed.

use vstd::prelude::*;
use crate::text::{chars_of, string_of};
use crate::realtime::utf8_len;

verus! {

/// `c` is a control character (general category Cc).
pub open spec fn is_control(c: char) -> bool {
    (c as u32) <= 0x1F || (0x7F <= (c as u32) && (c as u32) <= 0x9F)
}

/// `c` has the Unicode White_Space property.
pub open spec fn is_whitespace(c: char) -> bool {
    let u = c as u32;
    (0x09 <= u && u <= 0x0D) || u == 0x20 || u == 0x85 || u == 0xA0 || u == 0x1680
        || (0x2000 <= u && u <= 0x200A) || u == 0x2028 || u == 0x2029 || u == 0x202F
        || u == 0x205F || u == 0x3000
}

fn char_is_control(c: char) -> (r: bool)
    ensures
        r == is_control(c),
{
    let u = c as u32;
    u <= 0x1F || (0x7F <= u && u <= 0x9F)
}

pub fn char_is_whitespace(c: char) -> (r: bool)
    ensures
        r == is_whitespace(c),
{
    let u = c as u32;
    (0x09 <= u && u <= 0x0D) || u == 0x20 || u == 0x85 || u == 0xA0 || u == 0x1680
        || (0x2000 <= u && u <= 0x200A) || u == 0x2028 || u == 0x2029 || u == 0x202F
        || u == 0x205F || u == 0x3000
}

/// `s` holds a character that satisfies `is_control`.
pub open spec fn has_control(s: Seq<char>) -> bool {
    exists|i: int| 0 <= i < s.len() && #[trigger] is_control(s[i])
}

/// `s` holds a character that satisfies `is_whitespace`.
pub open spec fn has_whitespace(s: Seq<char>) -> bool {
    exists|i: int| 0 <= i < s.len() && #[trigger] is_whitespace(s[i])
}

fn scan_controls(s: &str) -> (r: (bool, bool))
    ensures
        r.0 == has_control(s@),
        r.1 == has_whitespace(s@),
{
    let v = chars_of(s);
    let mut control = false;
    let mut white = false;
    let mut i: usize = 0;
    while i < v.len()
        invariant
            v@ == s@,
            i <= v@.len(),
            control == exists|j: int| 0 <= j < i && #[trigger] is_control(v@[j]),
            white == exists|j: int| 0 <= j < i && #[trigger] is_whitespace(v@[j]),
        decreases v@.len() - i,
    {
        if char_is_control(v[i]) {
            control = true;
        }
        if char_is_whitespace(v[i]) {
            white = true;
        }
        i = i + 1;
    }
    (control, white)
}

/// The transport protocol of a network request.
#[derive(Clone, Copy, Debug, PartialEq, Eq, Structural)]
pub enum NetworkProtocol {
    Http,
    HttpsConnect,
    Socks5Tcp,
    Socks5Udp,
}

/// The protocol as the executor protocol names it.
#[derive(Clone, Copy, Debug, PartialEq, Eq, Structural)]
pub enum ExecServerNetworkProtocol {
    Http,
    HttpsConnect,
    Socks5Tcp,
    Socks5Udp,
}

/// The executor protocol's name for `p`.
pub open spec fn protocol_on_wire(p: NetworkProtocol) -> ExecServerNetworkProtocol {
    match p {
        NetworkProtocol::Http => ExecServerNetworkProtocol::Http,
        NetworkProtocol::HttpsConnect => ExecServerNetworkProtocol::HttpsConnect,
        NetworkProtocol::Socks5Tcp => ExecServerNetworkProtocol::Socks5Tcp,
        NetworkProtocol::Socks5Udp => ExecServerNetworkProtocol::Socks5Udp,
    }
}

/// Maps a protocol to the executor protocol's name for it.
pub fn exec_server_protocol(p: NetworkProtocol) -> (r: ExecServerNetworkProtocol)
    ensures
        r == protocol_on_wire(p),
{
    match p {
        NetworkProtocol::Http => ExecServerNetworkProtocol::Http,
        NetworkProtocol::HttpsConnect => ExecServerNetworkProtocol::HttpsConnect,
        NetworkProtocol::Socks5Tcp => ExecServerNetworkProtocol::Socks5Tcp,
        NetworkProtocol::Socks5Udp => ExecServerNetworkProtocol::Socks5Udp,
    }
}

/// A process's request to reach a host.
#[derive(Debug)]
pub struct NetworkPolicyRequest {
    pub protocol: NetworkProtocol,
    pub host: String,
    pub port: u16,
}

/// The request as it is forwarded to the controller.
#[derive(Debug)]
pub struct NetworkPolicyRequestParams {
    pub process_id: String,
    pub protocol: ExecServerNetworkProtocol,
    pub host: String,
    pub port: u16,
}

/// The controller's answer.
#[derive(Debug)]
pub enum ExecServerNetworkPolicyDecision {
    Allow,
    Deny { reason: String },
    Ask { reason: String },
}

/// The decision handed back to the network proxy.
#[derive(Debug)]
pub enum NetworkDecision {
    Allow,
    Deny { reason: String },
    Ask { reason: String },
}

/// The content of a [`NetworkDecision`].
pub enum DecisionView {
    Allow,
    Deny(Seq<char>),
    Ask(Seq<char>),
}

impl View for NetworkDecision {
    type V = DecisionView;

    open spec fn view(&self) -> DecisionView {
        match self {
            NetworkDecision::Allow => DecisionView::Allow,
            NetworkDecision::Deny { reason } => DecisionView::Deny(reason@),
            NetworkDecision::Ask { reason } => DecisionView::Ask(reason@),
        }
    }
}

/// The refusal given whenever a request cannot be decided safely.
pub open spec fn not_allowed() -> DecisionView {
    DecisionView::Deny("not_allowed"@)
}

fn deny_not_allowed() -> (r: NetworkDecision)
    ensures
        r@ == not_allowed(),
{
    NetworkDecision::Deny { reason: string_of("not_allowed") }
}

/// A host may be forwarded: non-empty, at most `max_host_bytes` bytes, and
/// free of control and whitespace characters.
pub open spec fn host_acceptable(host: Seq<char>, max_host_bytes: usize) -> bool {
    host.len() > 0 && utf8_len(host) <= max_host_bytes && !has_control(host) && !has_whitespace(host)
}

/// Whether the host may be forwarded to the controller.
pub fn host_is_acceptable(host: &str, max_host_bytes: usize) -> (r: bool)
    requires
        utf8_len(host@) <= usize::MAX,
    ensures
        r == host_acceptable(host@, max_host_bytes),
{
    if host.is_empty() || host.len() > max_host_bytes {
        return false;
    }
    let (control, white) = scan_controls(host);
    !control && !white
}

/// What happens to a request first: it is refused at once, or forwarded.
#[derive(Debug)]
pub enum PolicyAction {
    Decide(NetworkDecision),
    Send(NetworkPolicyRequestParams),
}

/// Checks a request and, when it may be forwarded and a controller is
/// connected, builds the parameters to send; otherwise refuses it.
pub fn start_policy_request(
    process_id: String,
    request: NetworkPolicyRequest,
    controller_connected: bool,
    max_host_bytes: usize,
) -> (r: PolicyAction)
    requires
        utf8_len(request.host@) <= usize::MAX,
    ensures
        if host_acceptable(request.host@, max_host_bytes) && controller_connected {
            r matches PolicyAction::Send(p) && p.process_id@ == process_id@
                && p.protocol == protocol_on_wire(request.protocol) && p.host@ == request.host@
                && p.port == request.port
        } else {
            r matches PolicyAction::Decide(d) && d@ == not_allowed()
        },
{
    if !host_is_acceptable(request.host.as_str(), max_host_bytes) || !controller_connected {
        return PolicyAction::Decide(deny_not_allowed());
    }
    PolicyAction::Send(NetworkPolicyRequestParams {
        process_id,
        protocol: exec_server_protocol(request.protocol),
        host: request.host,
        port: request.port,
    })
}

/// A reason may be passed on: at most `max_reason_bytes` bytes, without control characters.
pub open spec fn reason_acceptable(reason: Seq<char>, max_reason_bytes: usize) -> bool {
    utf8_len(reason) <= max_reason_bytes && !has_control(reason)
}

/// How a forwarded request ended.
#[derive(Debug)]
pub enum PolicyOutcome {
    /// The process shut down first.
    Shutdown,
    /// The controller's reply, or `None` when the call failed or timed out.
    Reply(Option<ExecServerNetworkPolicyDecision>),
}

/// The decision for a forwarded request: a shutdown, a failed call, or a
/// reason that may not be passed on refuses it; otherwise the controller's
/// decision is obeyed.
pub open spec fn outcome_decision(outcome: PolicyOutcome, max_reason_bytes: usize) -> DecisionView {
    match outcome {
        PolicyOutcome::Shutdown => not_allowed(),
        PolicyOutcome::Reply(None) => not_allowed(),
        PolicyOutcome::Reply(Some(ExecServerNetworkPolicyDecision::Allow)) => DecisionView::Allow,
        PolicyOutcome::Reply(Some(ExecServerNetworkPolicyDecision::Deny { reason })) =>
            if reason_acceptable(reason@, max_reason_bytes) { DecisionView::Deny(reason@) } else { not_allowed() },
        PolicyOutcome::Reply(Some(ExecServerNetworkPolicyDecision::Ask { reason })) =>
            if reason_acceptable(reason@, max_reason_bytes) { DecisionView::Ask(reason@) } else { not_allowed() },
    }
}

fn reason_is_acceptable(reason: &str, max_reason_bytes: usize) -> (r: bool)
    requires
        utf8_len(reason@) <= usize::MAX,
    ensures
        r == reason_acceptable(reason@, max_reason_bytes),
{
    if reason.len() > max_reason_bytes {
        return false;
    }
    let (control, _) = scan_controls(reason);
    !control
}

/// The bytes of a reason in a reply fit in memory.
pub open spec fn outcome_fits(outcome: &PolicyOutcome) -> bool {
    match outcome {
        PolicyOutcome::Reply(Some(ExecServerNetworkPolicyDecision::Deny { reason })) => utf8_len(reason@) <= usize::MAX,
        PolicyOutcome::Reply(Some(ExecServerNetworkPolicyDecision::Ask { reason })) => utf8_len(reason@) <= usize::MAX,
        _ => true,
    }
}

/// The decision for a forwarded request, from how it ended.
pub fn finish_policy_request(outcome: PolicyOutcome, max_reason_bytes: usize) -> (r: NetworkDecision)
    requires
        outcome_fits(&outcome),
    ensures
        r@ == outcome_decision(outcome, max_reason_bytes),
{
    match outcome {
        PolicyOutcome::Shutdown => deny_not_allowed(),
        PolicyOutcome::Reply(None) => deny_not_allowed(),
        PolicyOutcome::Reply(Some(ExecServerNetworkPolicyDecision::Allow)) => NetworkDecision::Allow,
        PolicyOutcome::Reply(Some(ExecServerNetworkPolicyDecision::Deny { reason })) => {
            if reason_is_acceptable(reason.as_str(), max_reason_bytes) {
                NetworkDecision::Deny { reason }
            } else {
                deny_not_allowed()
            }
        },
        PolicyOutcome::Reply(Some(ExecServerNetworkPolicyDecision::Ask { reason })) => {
            if reason_is_acceptable(reason.as_str(), max_reason_bytes) {
                NetworkDecision::Ask { reason }
            } else {
                deny_not_allowed()
            }
        },
    }
}

/// A refusal or question handed to the proxy carries either the fixed
/// `not_allowed` reason or a reason within the byte limit and free of control
/// characters.
pub proof fn lemma_forwarded_reasons_are_safe(outcome: PolicyOutcome, max_reason_bytes: usize)
    ensures
        match outcome_decision(outcome, max_reason_bytes) {
            DecisionView::Deny(r) => r == "not_allowed"@ || reason_acceptable(r, max_reason_bytes),
            DecisionView::Ask(r) => reason_acceptable(r, max_reason_bytes),
            DecisionView::Allow => outcome matches PolicyOutcome::Reply(Some(ExecServerNetworkPolicyDecision::Allow)),
        },
{
}

/// A host that cannot be forwarded is refused without asking the controller.
pub proof fn lemma_bad_hosts_never_reach_the_controller(host: Seq<char>, max_host_bytes: usize)
    requires
        host.len() == 0 || has_control(host) || has_whitespace(host) || utf8_len(host) > max_host_bytes,
    ensures
        !host_acceptable(host, max_host_bytes),
{
}


/// A span of time as `std::time::Duration` holds it: whole seconds and the
/// nanoseconds beyond them (fewer than a billion).
#[derive(Clone, Copy, Debug, PartialEq, Eq, Structural)]
pub struct TimeSpan {
    pub secs: u64,
    pub nanos: u32,
}

/// Seconds allowed for the transport on top of the controller's own timeout.
pub const NETWORK_POLICY_TRANSPORT_TIMEOUT_MARGIN_SECS: u64 = 5;

/// The timeout of a forwarded request: the controller's timeout plus the
/// transport margin, saturating at the longest span (`Duration::MAX`).
pub open spec fn request_timeout_for(controller_timeout: TimeSpan) -> TimeSpan {
    if controller_timeout.secs + NETWORK_POLICY_TRANSPORT_TIMEOUT_MARGIN_SECS <= u64::MAX {
        TimeSpan {
            secs: (controller_timeout.secs + NETWORK_POLICY_TRANSPORT_TIMEOUT_MARGIN_SECS) as u64,
            nanos: controller_timeout.nanos,
        }
    } else {
        TimeSpan { secs: u64::MAX, nanos: 999_999_999 }
    }
}

/// The timeout of a forwarded request.
pub fn request_timeout(controller_timeout: TimeSpan) -> (r: TimeSpan)
    requires
        controller_timeout.nanos < 1_000_000_000,
    ensures
        r == request_timeout_for(controller_timeout),
{
    match controller_timeout.secs.checked_add(NETWORK_POLICY_TRANSPORT_TIMEOUT_MARGIN_SECS) {
        Some(secs) => TimeSpan { secs, nanos: controller_timeout.nanos },
        None => TimeSpan { secs: u64::MAX, nanos: 999_999_999 },
    }
}

} // verus!
