//! The OAuth callback's `state` parameter, which may carry an onboarding entrypoint.

use vstd::prelude::*;
use crate::text::{chars_of, chars_equal, str_equal, string_from_chars};

verus! {

/// Where a login started from, when it started from a dedicated onboarding flow.
#[derive(Clone, Copy, Debug, PartialEq, Eq, Structural)]
pub enum LoginOnboardingEntrypoint {
    LifeSciences,
}

/// What a matching login callback tells.
#[derive(Clone, Copy, Debug, PartialEq, Eq, Structural)]
pub struct LoginCallbackResult {
    pub onboarding_entrypoint: Option<LoginOnboardingEntrypoint>,
}

impl Default for LoginCallbackResult {
    /// A result without an onboarding entrypoint.
    fn default() -> (r: LoginCallbackResult)
        ensures
            r.onboarding_entrypoint is None,
    {
        LoginCallbackResult { onboarding_entrypoint: None }
    }
}

/// The suffix that marks a state issued for the life-sciences onboarding.
pub open spec fn life_sciences_state_suffix() -> Seq<char> {
    ".onboarding_entrypoint=life_sciences"@
}

/// The callback's state matches the expected one exactly, or with the
/// life-sciences suffix appended (which names the entrypoint); anything else
/// does not match.
pub open spec fn callback_result(callback_state: Seq<char>, expected_state: Seq<char>) -> Option<LoginCallbackResult> {
    if callback_state == expected_state {
        Some(LoginCallbackResult { onboarding_entrypoint: None })
    } else if callback_state == expected_state + life_sciences_state_suffix() {
        Some(LoginCallbackResult { onboarding_entrypoint: Some(LoginOnboardingEntrypoint::LifeSciences) })
    } else {
        None
    }
}

/// Checks the callback's state against the expected one.
pub fn login_callback_result_from_state(callback_state: &str, expected_state: &str) -> (r: Option<LoginCallbackResult>)
    ensures
        r == callback_result(callback_state@, expected_state@),
{
    if str_equal(callback_state, expected_state) {
        return Some(LoginCallbackResult::default());
    }
    let c = chars_of(callback_state);
    let s = chars_of(".onboarding_entrypoint=life_sciences");
    let e = chars_of(expected_state);
    if c.len() < s.len() {
        proof {
            if callback_state@ == expected_state@ + life_sciences_state_suffix() {
                assert(callback_state@.len() == expected_state@.len() + s@.len());
            }
        }
        return None;
    }
    let cut = c.len() - s.len();
    let head: Vec<char> = chars_of(string_from_chars(&c, 0, cut).as_str());
    let tail: Vec<char> = chars_of(string_from_chars(&c, cut, c.len()).as_str());
    let matches = chars_equal(&tail, &s) && chars_equal(&head, &e);
    proof {
        assert(c@ =~= head@ + tail@);
        if callback_state@ == expected_state@ + life_sciences_state_suffix() {
            assert(head@ =~= expected_state@);
            assert(tail@ =~= life_sciences_state_suffix());
        }
    }
    if matches {
        Some(LoginCallbackResult { onboarding_entrypoint: Some(LoginOnboardingEntrypoint::LifeSciences) })
    } else {
        None
    }
}

} // verus!
