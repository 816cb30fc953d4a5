//! The desired MCP runtime state of a session.

use vstd::prelude::*;
use crate::assoc::AssocList;

verus! {

/// What the MCP runtime is built from, as far as its working directory goes.
#[derive(Debug)]
pub struct McpDesiredState {
    /// The primary environment's working directory: `None` when there is no
    /// primary environment, `Some(None)` when its directory is not a local
    /// absolute path.
    pub primary_environment_cwd: Option<Option<String>>,
    /// The configuration's working directory.
    pub config_cwd: String,
}

/// The directory local stdio MCP servers start in: the primary environment's,
/// else the configuration's.
pub open spec fn fallback_cwd(state: McpDesiredState) -> Seq<char> {
    match state.primary_environment_cwd {
        Some(Some(cwd)) => cwd@,
        _ => state.config_cwd@,
    }
}

impl McpDesiredState {
    /// The directory local stdio MCP servers start in.
    pub fn local_stdio_fallback_cwd(&self) -> (r: String)
        ensures
            r@ == fallback_cwd(*self),
    {
        match &self.primary_environment_cwd {
            Some(Some(cwd)) => cwd.clone(),
            _ => self.config_cwd.clone(),
        }
    }
}

/// The working directories of the turn's environments, by environment id;
/// a later entry for the same id replaces an earlier one.
pub open spec fn collected_cwds(environments: Seq<(String, String)>) -> Map<Seq<char>, Seq<char>>
    decreases environments.len(),
{
    if environments.len() == 0 {
        Map::empty()
    } else {
        collected_cwds(environments.drop_last()).insert(environments.last().0@, environments.last().1@)
    }
}

/// The MCP servers' working directories: those of the turn's environments,
/// with the configuration's directory for the default environment id when no
/// environment has that id.
pub open spec fn environment_cwds_map(
    environments: Seq<(String, String)>,
    default_environment_id: Seq<char>,
    default_cwd: Seq<char>,
) -> Map<Seq<char>, Seq<char>> {
    let m = collected_cwds(environments);
    if m.contains_key(default_environment_id) { m } else { m.insert(default_environment_id, default_cwd) }
}

/// The working directory of each environment an MCP server may run in.
/// `turn_environments` pairs each environment id with its directory;
/// `default_cwd` is the configuration's directory.
pub fn mcp_environment_cwds(
    turn_environments: &Vec<(String, String)>,
    default_environment_id: &str,
    default_cwd: &str,
) -> (r: AssocList<String, String>)
    ensures
        r.well_formed(),
        r.map() == environment_cwds_map(turn_environments@, default_environment_id@, default_cwd@),
{
    let mut m: AssocList<String, String> = AssocList::new();
    let mut i: usize = 0;
    while i < turn_environments.len()
        invariant
            i <= turn_environments@.len(),
            m.well_formed(),
            m.map() == collected_cwds(turn_environments@.take(i as int)),
        decreases turn_environments@.len() - i,
    {
        let (id, cwd) = &turn_environments[i];
        let _ = m.insert(id.clone(), cwd.clone());
        proof {
            let t = turn_environments@.take(i + 1);
            assert(t.drop_last() =~= turn_environments@.take(i as int));
            assert(t.last() == turn_environments@[i as int]);
        }
        i = i + 1;
    }
    assert(turn_environments@.take(turn_environments@.len() as int) =~= turn_environments@);
    let key = crate::text::string_of(default_environment_id);
    if m.get(&key).is_none() {
        let _ = m.insert(key, crate::text::string_of(default_cwd));
    }
    m
}

} // verus!
