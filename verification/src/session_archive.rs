//! The decisions of `codex archive`, `codex delete` and `codex unarchive`:
//! where a session is looked up, how a delete is confirmed, and what is
//! reported.

use vstd::prelude::*;
use crate::text::{append_str, chars_of, string_of};
use crate::network_policy::is_whitespace;
use crate::image_preparation::{chars_eq_ignore_ascii_case, eq_ignore_ascii_case};

verus! {

/// Whether a delete asks for confirmation first.
#[derive(Clone, Copy, Debug, PartialEq, Eq, Structural)]
pub enum DeleteConfirmation {
    Prompt,
    Skip,
}

/// What is done to the session.
#[derive(Clone, Copy, Debug, PartialEq, Eq, Structural)]
pub enum SessionArchiveAction {
    Archive,
    Delete(DeleteConfirmation),
    Unarchive,
}

/// The verb that reports an action.
pub open spec fn action_verb(action: SessionArchiveAction) -> Seq<char> {
    match action {
        SessionArchiveAction::Archive => "Archived"@,
        SessionArchiveAction::Delete(_) => "Deleted"@,
        SessionArchiveAction::Unarchive => "Unarchived"@,
    }
}

/// The report of a completed action: `<Verb> session <name> (<id>).`, or
/// `<Verb> session <id>.` for a session without a name.
pub open spec fn success_text(action: SessionArchiveAction, session_id: Seq<char>, session_name: Option<Seq<char>>) -> Seq<char> {
    match session_name {
        Some(name) => action_verb(action) + " session "@ + name + " ("@ + session_id + ")."@,
        None => action_verb(action) + " session "@ + session_id + "."@,
    }
}

/// The report of a completed action on the session `session_id` (its UUID text).
pub fn success_message(action: SessionArchiveAction, session_id: &str, session_name: Option<&str>) -> (r: String)
    ensures
        r@ == success_text(action, session_id@, match session_name { Some(n) => Some(n@), None => None }),
{
    let mut m = match action {
        SessionArchiveAction::Archive => string_of("Archived"),
        SessionArchiveAction::Delete(_) => string_of("Deleted"),
        SessionArchiveAction::Unarchive => string_of("Unarchived"),
    };
    append_str(&mut m, " session ");
    match session_name {
        Some(name) => {
            append_str(&mut m, name);
            append_str(&mut m, " (");
            append_str(&mut m, session_id);
            append_str(&mut m, ").");
        },
        None => {
            append_str(&mut m, session_id);
            append_str(&mut m, ".");
        },
    }
    m
}

/// Where a session named by the user is searched for: the words that name
/// the search in a miss, and which collections (archived or not) in order.
pub open spec fn search_plan(action: SessionArchiveAction) -> (Seq<char>, Seq<bool>) {
    match action {
        SessionArchiveAction::Archive => ("active"@, seq![false]),
        SessionArchiveAction::Delete(_) => ("active or archived"@, seq![false, true]),
        SessionArchiveAction::Unarchive => ("archived"@, seq![true]),
    }
}

/// Where to search for a session named by the user.
pub fn session_search_plan(action: SessionArchiveAction) -> (r: (&'static str, Vec<bool>))
    ensures
        r.0@ == search_plan(action).0,
        r.1@ == search_plan(action).1,
{
    let mut archived: Vec<bool> = Vec::new();
    match action {
        SessionArchiveAction::Archive => {
            archived.push(false);
            assert(archived@ =~= seq![false]);
            ("active", archived)
        },
        SessionArchiveAction::Delete(_) => {
            archived.push(false);
            archived.push(true);
            assert(archived@ =~= seq![false, true]);
            ("active or archived", archived)
        },
        SessionArchiveAction::Unarchive => {
            archived.push(true);
            assert(archived@ =~= seq![true]);
            ("archived", archived)
        },
    }
}

/// The error when no session matches `target`.
pub open spec fn no_session_text(scope: Seq<char>, target: Seq<char>) -> Seq<char> {
    "No "@ + scope + " session found matching '"@ + target + "'."@
}

/// The error when no session matches `target` in the searched collections.
pub fn no_session_message(action: SessionArchiveAction, target: &str) -> (r: String)
    ensures
        r@ == no_session_text(search_plan(action).0, target@),
{
    let (scope, _) = session_search_plan(action);
    let mut m = string_of("No ");
    append_str(&mut m, scope);
    append_str(&mut m, " session found matching '");
    append_str(&mut m, target);
    append_str(&mut m, "'.");
    m
}

/// A target given as a session id is read first only for a delete that
/// asks for confirmation, so the prompt can show the session's name.
pub fn id_target_needs_read(action: SessionArchiveAction) -> (r: bool)
    ensures
        r == (action == SessionArchiveAction::Delete(DeleteConfirmation::Prompt)),
{
    match action {
        SessionArchiveAction::Delete(DeleteConfirmation::Prompt) => true,
        _ => false,
    }
}

/// The error when a target given as a session id cannot be read.
pub open spec fn unreadable_id_text(target: Seq<char>) -> Seq<char> {
    "No active or archived session found matching '"@ + target + "'."@
}

/// The error when a target given as a session id cannot be read (only a
/// delete that asks for confirmation reads it, see [`id_target_needs_read`]).
pub fn unreadable_id_message(target: &str) -> (r: String)
    ensures
        r@ == unreadable_id_text(target@),
{
    let mut m = string_of("No active or archived session found matching '");
    append_str(&mut m, target);
    append_str(&mut m, "'.");
    m
}

/// How sessions are listed while resolving a name.
#[derive(Clone, Copy, Debug, PartialEq, Eq, Structural)]
pub enum SessionNameLookupMode {
    StateDbOnly,
    ScanAndRepair,
}

/// The order in which listed sessions come.
#[derive(Clone, Copy, Debug, PartialEq, Eq, Structural)]
pub enum ThreadSortKey {
    RecencyAt,
    UpdatedAt,
}

/// Remote workspaces are scanned on the server; local ones trust the state
/// database first and scan and repair only after a miss.
pub fn lookup_modes(uses_remote_workspace: bool) -> (r: Vec<SessionNameLookupMode>)
    ensures
        r@ == (if uses_remote_workspace {
            seq![SessionNameLookupMode::ScanAndRepair]
        } else {
            seq![SessionNameLookupMode::StateDbOnly, SessionNameLookupMode::ScanAndRepair]
        }),
{
    let mut r: Vec<SessionNameLookupMode> = Vec::new();
    if !uses_remote_workspace {
        r.push(SessionNameLookupMode::StateDbOnly);
    }
    r.push(SessionNameLookupMode::ScanAndRepair);
    proof {
        if uses_remote_workspace {
            assert(r@ =~= seq![SessionNameLookupMode::ScanAndRepair]);
        } else {
            assert(r@ =~= seq![SessionNameLookupMode::StateDbOnly, SessionNameLookupMode::ScanAndRepair]);
        }
    }
    r
}

/// Only the embedded server reading the state database sorts by recency;
/// everything else pages in update order.
pub fn lookup_sort_key(mode: SessionNameLookupMode, uses_embedded_app_server: bool) -> (r: ThreadSortKey)
    ensures
        r == (if mode == SessionNameLookupMode::StateDbOnly && uses_embedded_app_server {
            ThreadSortKey::RecencyAt
        } else {
            ThreadSortKey::UpdatedAt
        }),
{
    match mode {
        SessionNameLookupMode::StateDbOnly if uses_embedded_app_server => ThreadSortKey::RecencyAt,
        _ => ThreadSortKey::UpdatedAt,
    }
}

/// The directory under the Codex home that holds a collection's rollouts.
pub fn rollout_subdir(archived: bool) -> (r: &'static str)
    ensures
        r@ == (if archived { "archived_sessions"@ } else { "sessions"@ }),
{
    if archived { "archived_sessions" } else { "sessions" }
}

/// The name reported after the action: an unarchived thread's own name when
/// it has one, else the name the target resolved to.
pub open spec fn reported_name(action: SessionArchiveAction, resolved: Option<Seq<char>>, unarchived: Option<Seq<char>>) -> Option<Seq<char>> {
    match action {
        SessionArchiveAction::Unarchive => match unarchived {
            Some(n) => Some(n),
            None => resolved,
        },
        _ => resolved,
    }
}

/// The name to report after the action.
pub fn session_name_after_action(action: SessionArchiveAction, resolved: Option<String>, unarchived: Option<String>) -> (r: Option<String>)
    ensures
        crate::text::opt_view(r) == reported_name(action, crate::text::opt_view(resolved), crate::text::opt_view(unarchived)),
{
    match action {
        SessionArchiveAction::Unarchive => match unarchived {
            Some(n) => Some(n),
            None => resolved,
        },
        _ => resolved,
    }
}

/// The question asked before a delete.
pub open spec fn delete_question(session_id: Seq<char>, session_name: Option<Seq<char>>) -> Seq<char> {
    match session_name {
        Some(name) => "Permanently delete session '"@ + name + "' ("@ + session_id + ")?"@,
        None => "Permanently delete session "@ + session_id + "?"@,
    }
}

/// The question asked before deleting the session.
pub fn delete_prompt(session_id: &str, session_name: Option<&str>) -> (r: String)
    ensures
        r@ == delete_question(session_id@, match session_name { Some(n) => Some(n@), None => None }),
{
    match session_name {
        Some(name) => {
            let mut m = string_of("Permanently delete session '");
            append_str(&mut m, name);
            append_str(&mut m, "' (");
            append_str(&mut m, session_id);
            append_str(&mut m, ")?");
            m
        },
        None => {
            let mut m = string_of("Permanently delete session ");
            append_str(&mut m, session_id);
            append_str(&mut m, "?");
            m
        },
    }
}

/// `a` is where `s` starts once its leading whitespace is dropped.
pub open spec fn is_trim_start(s: Seq<char>, a: int) -> bool {
    &&& 0 <= a <= s.len()
    &&& forall|i: int| 0 <= i < a ==> #[trigger] is_whitespace(s[i])
    &&& (a == s.len() || !is_whitespace(s[a]))
}

/// `b` is where `s` ends once its trailing whitespace (after `a`) is dropped.
pub open spec fn is_trim_end(s: Seq<char>, a: int, b: int) -> bool {
    &&& a <= b <= s.len()
    &&& forall|i: int| b <= i < s.len() ==> #[trigger] is_whitespace(s[i])
    &&& (b == a || !is_whitespace(s[b - 1]))
}

/// `s` without its leading and trailing whitespace.
pub open spec fn trimmed(s: Seq<char>) -> Seq<char> {
    let start = choose|a: int| is_trim_start(s, a);
    let end = choose|b: int| is_trim_end(s, start, b);
    s.subrange(start, end)
}

/// The answer confirms: `y` or `yes` in any case, around whitespace.
pub open spec fn confirms_delete(answer: Seq<char>) -> bool {
    eq_ignore_ascii_case(trimmed(answer), "y"@) || eq_ignore_ascii_case(trimmed(answer), "yes"@)
}

fn trim_bounds(v: &Vec<char>) -> (r: (usize, usize))
    ensures
        0 <= r.0 <= r.1 <= v@.len(),
        forall|i: int| 0 <= i < r.0 ==> #[trigger] is_whitespace(v@[i]),
        r.0 == v@.len() || !is_whitespace(v@[r.0 as int]),
        forall|i: int| r.1 <= i < v@.len() ==> #[trigger] is_whitespace(v@[i]),
        r.1 == r.0 || !is_whitespace(v@[r.1 - 1]),
{
    let mut a: usize = 0;
    while a < v.len() && crate::network_policy::char_is_whitespace(v[a])
        invariant
            a <= v@.len(),
            forall|i: int| 0 <= i < a ==> #[trigger] is_whitespace(v@[i]),
        decreases v@.len() - a,
    {
        a = a + 1;
    }
    let mut b: usize = v.len();
    while b > a && crate::network_policy::char_is_whitespace(v[b - 1])
        invariant
            a <= b <= v@.len(),
            forall|i: int| b <= i < v@.len() ==> #[trigger] is_whitespace(v@[i]),
        decreases b,
    {
        b = b - 1;
    }
    (a, b)
}

proof fn lemma_trimmed(s: Seq<char>, a: int, b: int)
    requires
        0 <= a <= b <= s.len(),
        forall|i: int| 0 <= i < a ==> #[trigger] is_whitespace(s[i]),
        a == s.len() || !is_whitespace(s[a]),
        forall|i: int| b <= i < s.len() ==> #[trigger] is_whitespace(s[i]),
        b == a || !is_whitespace(s[b - 1]),
    ensures
        trimmed(s) == s.subrange(a, b),
{
    assert(is_trim_start(s, a));
    let start = choose|x: int| is_trim_start(s, x);
    assert(start == a) by {
        if start < a {
            assert(is_whitespace(s[start]));
        } else if start > a {
            assert(is_whitespace(s[a]));
        }
    }
    assert(is_trim_end(s, a, b));
    let end = choose|y: int| is_trim_end(s, start, y);
    assert(end == b) by {
        if end < b {
            assert(is_whitespace(s[b - 1]));
        } else if end > b {
            assert(is_whitespace(s[end - 1]));
        }
    }
}

/// Whether the typed answer confirms the delete.
pub fn delete_confirmed(answer: &str) -> (r: bool)
    ensures
        r == confirms_delete(answer@),
{
    let v = chars_of(answer);
    let (a, b) = trim_bounds(&v);
    proof {
        lemma_trimmed(answer@, a as int, b as int);
    }
    chars_eq_ignore_ascii_case(&v, a, b, "y") || chars_eq_ignore_ascii_case(&v, a, b, "yes")
}

/// The ChatGPT backend used when none is configured.
pub open spec fn default_chatgpt_base_url() -> Seq<char> {
    "https://chatgpt.com/backend-api/"@
}

/// The configured ChatGPT backend, or the default one.
pub fn chatgpt_base_url(configured: Option<String>) -> (r: String)
    ensures
        r@ == match crate::text::opt_view(configured) {
            Some(u) => u,
            None => default_chatgpt_base_url(),
        },
{
    match configured {
        Some(u) => u,
        None => string_of("https://chatgpt.com/backend-api/"),
    }
}

/// The default daemon is probed only when no remote endpoint was given and
/// an implicit local daemon may be reused.
pub fn should_probe_default_daemon(explicit_remote_endpoint: bool, reuse_implicit_local_daemon: bool) -> (r: bool)
    ensures
        r == (!explicit_remote_endpoint && reuse_implicit_local_daemon),
{
    !explicit_remote_endpoint && reuse_implicit_local_daemon
}

/// What the command line sets for the app server it starts.
#[derive(Debug)]
pub struct LaunchOverrides {
    /// The model: the one given on the command line, else, for a local
    /// open-source provider, that provider's default model.
    pub model: Option<String>,
    /// The working directory of a local workspace.
    pub cwd: Option<String>,
    /// The working directory sent to a remote workspace.
    pub remote_cwd_override: Option<String>,
    pub show_raw_agent_reasoning: Option<bool>,
    pub bypass_hook_trust: Option<bool>,
}

/// The overrides for the started app server. `oss_default_model` is the
/// default model of the selected open-source provider, when there is one.
pub fn launch_overrides(
    cli_model: Option<String>,
    oss: bool,
    oss_default_model: Option<String>,
    cli_cwd: Option<String>,
    uses_remote_workspace: bool,
    bypass_hook_trust: bool,
) -> (r: LaunchOverrides)
    ensures
        crate::text::opt_view(r.model) == match crate::text::opt_view(cli_model) {
            Some(m) => Some(m),
            None => if oss { crate::text::opt_view(oss_default_model) } else { None },
        },
        crate::text::opt_view(r.cwd) == if uses_remote_workspace { None } else { crate::text::opt_view(cli_cwd) },
        crate::text::opt_view(r.remote_cwd_override) == if uses_remote_workspace { crate::text::opt_view(cli_cwd) } else { None },
        r.show_raw_agent_reasoning == if oss { Some(true) } else { None::<bool> },
        r.bypass_hook_trust == if bypass_hook_trust { Some(true) } else { None::<bool> },
{
    let model = match cli_model {
        Some(m) => Some(m),
        None => if oss { oss_default_model } else { None },
    };
    let (cwd, remote_cwd_override) = if uses_remote_workspace { (None, cli_cwd) } else { (cli_cwd, None) };
    LaunchOverrides {
        model,
        cwd,
        remote_cwd_override,
        show_raw_agent_reasoning: if oss { Some(true) } else { None },
        bypass_hook_trust: if bypass_hook_trust { Some(true) } else { None },
    }
}

} // verus!
