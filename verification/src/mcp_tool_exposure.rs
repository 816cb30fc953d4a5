//! Which MCP tools are exposed to the model: regular servers' visible tools
//! first, then the Codex Apps tools of accessible connectors that their app
//! policy enables.

use vstd::prelude::*;
use crate::text::str_equal;

verus! {

/// The name of the server that hosts Codex Apps tools.
pub open spec fn codex_apps_server_name() -> Seq<char> {
    "codex_apps"@
}

/// What the exposure rules read of an MCP tool. `model_visible` and
/// `app_policy_enabled` are what the MCP catalog's visibility rule and the
/// configured app-tool policy give for it.
#[derive(Debug)]
pub struct McpToolInfo {
    pub server_name: String,
    pub tool_name: String,
    pub connector_id: Option<String>,
    pub model_visible: bool,
    pub app_policy_enabled: bool,
}

/// How tools are exposed to the model.
#[derive(Clone, Copy, Debug, PartialEq, Eq, Structural)]
pub enum ToolExposure {
    Direct,
    Deferred,
}

/// With tool search, tools are deferred; otherwise exposed directly.
pub fn tool_exposure(search_tool_enabled: bool) -> (r: ToolExposure)
    ensures
        r == (if search_tool_enabled { ToolExposure::Deferred } else { ToolExposure::Direct }),
{
    if search_tool_enabled { ToolExposure::Deferred } else { ToolExposure::Direct }
}

/// A regular server's tool that the model may see.
pub open spec fn is_regular_visible(t: McpToolInfo) -> bool {
    t.server_name@ != codex_apps_server_name() && t.model_visible
}

/// `connector_ids` holds `id`.
pub open spec fn holds_id(connector_ids: Seq<String>, id: Seq<char>) -> bool {
    exists|i: int| 0 <= i < connector_ids.len() && #[trigger] connector_ids[i]@ == id
}

/// A Codex Apps tool the model may see, of an accessible connector, enabled by its app policy.
pub open spec fn is_exposed_app_tool(t: McpToolInfo, connector_ids: Seq<String>) -> bool {
    &&& t.server_name@ == codex_apps_server_name()
    &&& t.model_visible
    &&& t.connector_id matches Some(id) && holds_id(connector_ids, id@)
    &&& t.app_policy_enabled
}

/// `r` lists, in increasing order, exactly the indices of `n` items that satisfy `p`.
pub open spec fn lists_indices_where(r: Seq<usize>, n: int, p: spec_fn(int) -> bool) -> bool {
    &&& forall|k: int| 0 <= k < r.len() ==> 0 <= #[trigger] r[k] < n && p(r[k] as int)
    &&& forall|a: int, b: int| 0 <= a < b < r.len() ==> r[a] < r[b]
    &&& forall|i: int| 0 <= i < n && #[trigger] p(i) ==> exists|k: int| 0 <= k < r.len() && #[trigger] r[k] == i
}

fn is_codex_apps(server_name: &String) -> (r: bool)
    ensures
        r == (server_name@ == codex_apps_server_name()),
{
    str_equal(server_name.as_str(), "codex_apps")
}

/// The indices of regular servers' visible tools, in order.
pub fn filter_non_codex_apps_mcp_tools_only(tools: &Vec<McpToolInfo>) -> (r: Vec<usize>)
    ensures
        lists_indices_where(r@, tools@.len() as int, |i: int| is_regular_visible(tools@[i])),
{
    let mut r: Vec<usize> = Vec::new();
    let mut i: usize = 0;
    while i < tools.len()
        invariant
            i <= tools@.len(),
            forall|k: int| 0 <= k < r@.len() ==> 0 <= #[trigger] r@[k] < i && is_regular_visible(tools@[r@[k] as int]),
            forall|a: int, b: int| 0 <= a < b < r@.len() ==> r@[a] < r@[b],
            forall|j: int| 0 <= j < i && is_regular_visible(tools@[j]) ==> exists|k: int| 0 <= k < r@.len() && #[trigger] r@[k] == j,
        decreases tools@.len() - i,
    {
        let t = &tools[i];
        if !is_codex_apps(&t.server_name) && t.model_visible {
            let ghost before = r@;
            r.push(i);
            proof {
                assert forall|j: int| 0 <= j < i + 1 && is_regular_visible(tools@[j]) implies exists|k: int| 0 <= k < r@.len() && #[trigger] r@[k] == j by {
                    if j == i {
                        assert(r@[before.len() as int] == j);
                    } else {
                        let k = choose|k: int| 0 <= k < before.len() && #[trigger] before[k] == j;
                        assert(r@[k] == j);
                    }
                }
            }
        } else {
            proof {
                assert forall|j: int| 0 <= j < i + 1 && is_regular_visible(tools@[j]) implies exists|k: int| 0 <= k < r@.len() && #[trigger] r@[k] == j by {
                    if j == i {
                        assert(!is_regular_visible(tools@[j]));
                    }
                }
            }
        }
        i = i + 1;
    }
    r
}

fn has_connector(connector_ids: &Vec<String>, id: &String) -> (r: bool)
    ensures
        r == holds_id(connector_ids@, id@),
{
    let mut i: usize = 0;
    while i < connector_ids.len()
        invariant
            i <= connector_ids@.len(),
            forall|j: int| 0 <= j < i ==> #[trigger] connector_ids@[j]@ != id@,
        decreases connector_ids@.len() - i,
    {
        if str_equal(connector_ids[i].as_str(), id.as_str()) {
            assert(connector_ids@[i as int]@ == id@);
            return true;
        }
        i = i + 1;
    }
    false
}

fn exposed_app_tool(t: &McpToolInfo, connector_ids: &Vec<String>) -> (r: bool)
    ensures
        r == is_exposed_app_tool(*t, connector_ids@),
{
    if !is_codex_apps(&t.server_name) || !t.model_visible {
        return false;
    }
    match &t.connector_id {
        None => false,
        Some(id) => has_connector(connector_ids, id) && t.app_policy_enabled,
    }
}

/// The indices of the Codex Apps tools exposed for the accessible connectors
/// `connector_ids`, in order.
pub fn filter_codex_apps_mcp_tools(tools: &Vec<McpToolInfo>, connector_ids: &Vec<String>) -> (r: Vec<usize>)
    ensures
        lists_indices_where(r@, tools@.len() as int, |i: int| is_exposed_app_tool(tools@[i], connector_ids@)),
{
    let mut r: Vec<usize> = Vec::new();
    let mut i: usize = 0;
    while i < tools.len()
        invariant
            i <= tools@.len(),
            forall|k: int| 0 <= k < r@.len() ==> 0 <= #[trigger] r@[k] < i && is_exposed_app_tool(tools@[r@[k] as int], connector_ids@),
            forall|a: int, b: int| 0 <= a < b < r@.len() ==> r@[a] < r@[b],
            forall|j: int| 0 <= j < i && is_exposed_app_tool(tools@[j], connector_ids@) ==> exists|k: int| 0 <= k < r@.len() && #[trigger] r@[k] == j,
        decreases tools@.len() - i,
    {
        if exposed_app_tool(&tools[i], connector_ids) {
            let ghost before = r@;
            r.push(i);
            proof {
                assert forall|j: int| 0 <= j < i + 1 && is_exposed_app_tool(tools@[j], connector_ids@) implies exists|k: int| 0 <= k < r@.len() && #[trigger] r@[k] == j by {
                    if j == i {
                        assert(r@[before.len() as int] == j);
                    } else {
                        let k = choose|k: int| 0 <= k < before.len() && #[trigger] before[k] == j;
                        assert(r@[k] == j);
                    }
                }
            }
        }
        i = i + 1;
    }
    r
}

/// The order in which tools are offered for registration: the regular tools,
/// then, when connectors are known, the exposed Codex Apps tools.
pub fn exposed_tool_order(tools: &Vec<McpToolInfo>, connector_ids: Option<&Vec<String>>) -> (r: Vec<usize>)
    ensures
        exists|split: int| #![trigger r@.take(split)] 0 <= split <= r@.len()
            && lists_indices_where(r@.take(split), tools@.len() as int, |i: int| is_regular_visible(tools@[i]))
            && match connector_ids {
                None => split == r@.len(),
                Some(ids) => lists_indices_where(r@.skip(split), tools@.len() as int, |i: int| is_exposed_app_tool(tools@[i], ids@)),
            },
{
    let mut r = filter_non_codex_apps_mcp_tools_only(tools);
    let ghost regular = r@;
    let ghost split = regular.len() as int;
    match connector_ids {
        None => {
            assert(r@.take(split) =~= regular);
        },
        Some(ids) => {
            let mut apps = filter_codex_apps_mcp_tools(tools, ids);
            let ghost apps_view = apps@;
            r.append(&mut apps);
            assert(r@.take(split) =~= regular);
            assert(r@.skip(split) =~= apps_view);
        },
    }
    r
}


/// How registering one exposed tool went: the tool (by its index), whether
/// its handler could be built, and, when it was, whether the registry took it.
#[derive(Clone, Copy, Debug, PartialEq, Eq, Structural)]
pub struct ToolRegistration {
    pub tool: usize,
    pub handler_built: bool,
    pub accepted: bool,
}

/// The tools that were registered, in the order they were offered: those
/// whose handler was built and which the registry accepted.
pub open spec fn registered(outcomes: Seq<ToolRegistration>) -> Seq<usize>
    decreases outcomes.len(),
{
    if outcomes.len() == 0 {
        Seq::empty()
    } else {
        registered(outcomes.drop_last()) + if outcomes.last().handler_built && outcomes.last().accepted {
            seq![outcomes.last().tool]
        } else {
            Seq::empty()
        }
    }
}

/// The tools whose registration succeeded; a tool whose handler could not be
/// built is skipped.
pub fn registered_tools(outcomes: &Vec<ToolRegistration>) -> (r: Vec<usize>)
    ensures
        r@ == registered(outcomes@),
{
    let mut r: Vec<usize> = Vec::new();
    let mut i: usize = 0;
    while i < outcomes.len()
        invariant
            i <= outcomes@.len(),
            r@ == registered(outcomes@.take(i as int)),
        decreases outcomes@.len() - i,
    {
        let o = outcomes[i];
        assert(outcomes@.take(i + 1).drop_last() =~= outcomes@.take(i as int));
        if o.handler_built && o.accepted {
            r.push(o.tool);
        }
        assert(r@ =~= registered(outcomes@.take(i + 1)));
        i = i + 1;
    }
    assert(outcomes@.take(outcomes@.len() as int) =~= outcomes@);
    r
}

} // verus!
