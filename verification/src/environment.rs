//! Execution environments discovered before their HTTP policy is resolved.

use vstd::prelude::*;
use crate::text::str_equal;

verus! {

/// Which environment a snapshot names as the default.
#[derive(Debug)]
pub enum EnvironmentDefault {
    Disabled,
    EnvironmentId(String),
}

/// A snapshot of the configured environments: the default and the ids of
/// the environments it lists.
#[derive(Debug)]
pub struct EnvironmentProviderSnapshot {
    pub default: EnvironmentDefault,
    pub environment_ids: Vec<String>,
}

/// Where the prepared environments come from.
#[derive(Debug)]
pub enum PreparedEnvironmentSource {
    /// A rendezvous configuration for a remote environment.
    Noise,
    /// A snapshot of configured environments.
    Snapshot(EnvironmentProviderSnapshot),
}

/// Holds discovered execution environments before their HTTP policy is
/// resolved. Preparing starts no remote connection.
#[derive(Debug)]
pub struct PreparedEnvironmentManager {
    pub source: PreparedEnvironmentSource,
}

/// The default environment is remote: always for a rendezvous, and for a
/// snapshot when its default names one of the environments it lists.
pub open spec fn default_is_remote(source: PreparedEnvironmentSource) -> bool {
    match source {
        PreparedEnvironmentSource::Noise => true,
        PreparedEnvironmentSource::Snapshot(snapshot) => match snapshot.default {
            EnvironmentDefault::Disabled => false,
            EnvironmentDefault::EnvironmentId(id) =>
                exists|i: int| 0 <= i < snapshot.environment_ids@.len() && #[trigger] snapshot.environment_ids@[i]@ == id@,
        },
    }
}

impl PreparedEnvironmentManager {
    /// Whether the discovered default environment is remote.
    #[verifier::loop_isolation(false)]
    pub fn default_environment_is_remote(&self) -> (r: bool)
        ensures
            r == default_is_remote(self.source),
    {
        match &self.source {
            PreparedEnvironmentSource::Noise => true,
            PreparedEnvironmentSource::Snapshot(snapshot) => match &snapshot.default {
                EnvironmentDefault::Disabled => false,
                EnvironmentDefault::EnvironmentId(default_id) => {
                    let ids = &snapshot.environment_ids;
                    let mut i: usize = 0;
                    while i < ids.len()
                        invariant
                            i <= ids@.len(),
                            forall|j: int| 0 <= j < i ==> #[trigger] ids@[j]@ != default_id@,
                        decreases ids@.len() - i,
                    {
                        if str_equal(ids[i].as_str(), default_id.as_str()) {
                            assert(ids@[i as int]@ == default_id@);
                            return true;
                        }
                        i = i + 1;
                    }
                    false
                },
            },
        }
    }
}

} // verus!
