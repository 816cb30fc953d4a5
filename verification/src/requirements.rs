//! Managed requirements applied to the regular configuration: required values
//! replace configured ones, and each conflict yields a startup warning that
//! names where the requirement came from.

use vstd::prelude::*;
use crate::text::{append_str, string_of};

verus! {

/// How `std::path::Path` compares two paths (component by component), for the
/// paths spelled `a` and `b`.
pub uninterp spec fn same_path(a: Seq<char>, b: Seq<char>) -> bool;

/// `{:?}` of the path spelled `s`: the path quoted, with escapes.
pub uninterp spec fn debug_path(s: Seq<char>) -> Seq<char>;

/// Compares two paths as `std::path::Path` does (`Path::eq`). Identical
/// spellings name the same path; what else compares equal is left to std.
#[verifier::external_body]
fn paths_equal(a: &str, b: &str) -> (r: bool)
    ensures
        r == same_path(a@, b@),
        a@ == b@ ==> r,
{
    std::path::Path::new(a) == std::path::Path::new(b)
}

/// The `{:?}` rendering of the path spelled `s` (`<Path as Debug>::fmt`).
#[verifier::external_body]
fn path_debug(s: &str) -> (r: String)
    ensures
        r@ == debug_path(s@),
{
    format!("{:?}", std::path::Path::new(s))
}

/// A value that a requirement can fix: compared as the configuration compares
/// it, and rendered in warnings as `{:?}` renders it.
pub trait RequirementValue: View + Sized {
    spec fn same_value(&self, other: &Self) -> bool;

    spec fn debug_view(&self) -> Seq<char>;

    fn same(&self, other: &Self) -> (r: bool)
        ensures
            r == self.same_value(other);

    fn duplicate(&self) -> (r: Self)
        ensures
            r@ == self@,
            r.debug_view() == self.debug_view();

    fn debug_text(&self) -> (r: String)
        ensures
            r@ == self.debug_view();
}

impl RequirementValue for bool {
    open spec fn same_value(&self, other: &Self) -> bool {
        *self == *other
    }

    open spec fn debug_view(&self) -> Seq<char> {
        if *self { "true"@ } else { "false"@ }
    }

    fn same(&self, other: &Self) -> (r: bool) {
        *self == *other
    }

    fn duplicate(&self) -> (r: Self) {
        *self
    }

    fn debug_text(&self) -> (r: String) {
        if *self { string_of("true") } else { string_of("false") }
    }
}

/// An absolute filesystem path, by its spelling.
#[derive(Debug)]
pub struct AbsolutePath {
    pub path: String,
}

impl View for AbsolutePath {
    type V = Seq<char>;

    open spec fn view(&self) -> Seq<char> {
        self.path@
    }
}

impl RequirementValue for AbsolutePath {
    open spec fn same_value(&self, other: &Self) -> bool {
        self.path@ == other.path@ || same_path(self.path@, other.path@)
    }

    open spec fn debug_view(&self) -> Seq<char> {
        "AbsolutePathBuf("@ + debug_path(self.path@) + ")"@
    }

    fn same(&self, other: &Self) -> (r: bool) {
        paths_equal(self.path.as_str(), other.path.as_str())
    }

    fn duplicate(&self) -> (r: Self) {
        AbsolutePath { path: self.path.clone() }
    }

    fn debug_text(&self) -> (r: String) {
        let mut r = string_of("AbsolutePathBuf(");
        let d = path_debug(self.path.as_str());
        append_str(&mut r, d.as_str());
        append_str(&mut r, ")");
        r
    }
}

/// A required value together with the display text of where it came from.
#[derive(Debug)]
pub struct Sourced<T> {
    pub value: T,
    pub source: String,
}

/// The `[feedback]` table.
#[derive(Debug)]
pub struct FeedbackConfigToml {
    pub enabled: Option<bool>,
}

/// The `[windows]` table.
#[derive(Debug)]
pub struct WindowsToml {
    pub sandbox_private_desktop: Option<bool>,
}

/// The configured values that requirements can fix.
#[derive(Debug)]
pub struct ConfigToml {
    pub sqlite_home: Option<AbsolutePath>,
    pub log_dir: Option<AbsolutePath>,
    pub model_catalog_json: Option<AbsolutePath>,
    pub check_for_update_on_startup: Option<bool>,
    pub allow_login_shell: Option<bool>,
    pub feedback: Option<FeedbackConfigToml>,
    pub windows: Option<WindowsToml>,
}

/// The managed requirements.
#[derive(Debug)]
pub struct ConfigRequirements {
    pub sqlite_home: Option<Sourced<AbsolutePath>>,
    pub log_dir: Option<Sourced<AbsolutePath>>,
    pub model_catalog_json: Option<Sourced<AbsolutePath>>,
    pub check_for_update_on_startup: Option<Sourced<bool>>,
    pub allow_login_shell: Option<Sourced<bool>>,
    pub feedback: Option<Sourced<FeedbackConfigToml>>,
    pub windows_sandbox_private_desktop: Option<Sourced<bool>>,
}

/// The warning for a configured value that an exact requirement overrides.
pub open spec fn exact_override_message(field_name: Seq<char>, value_debug: Seq<char>, source: Seq<char>) -> Seq<char> {
    "Configured value for `"@ + field_name + "` is overridden by the required value "@ + value_debug
        + " from "@ + source + "."@
}

/// The warnings an exact requirement adds: one when a configured value differs from it.
pub open spec fn exact_warnings<T: RequirementValue>(field_name: Seq<char>, configured: Option<T>, requirement: Option<Sourced<T>>) -> Seq<Seq<char>> {
    match requirement {
        None => Seq::empty(),
        Some(req) => match configured {
            Some(c) if !c.same_value(&req.value) => seq![exact_override_message(field_name, req.value.debug_view(), req.source@)],
            _ => Seq::empty(),
        },
    }
}

/// The views of the strings of a list.
pub open spec fn warnings_view(v: Seq<String>) -> Seq<Seq<char>> {
    Seq::new(v.len(), |i: int| v[i]@)
}

fn push_warning(warnings: &mut Vec<String>, w: String)
    ensures
        warnings_view(final(warnings)@) == warnings_view(old(warnings)@).push(w@),
{
    let ghost before = warnings@;
    warnings.push(w);
    assert(warnings_view(warnings@) =~= warnings_view(before).push(w@));
}

/// Replaces the configured value with the required one, warning when they differ.
pub fn apply_exact_requirement<T: RequirementValue>(
    field_name: &str,
    configured_value: &mut Option<T>,
    requirement: Option<&Sourced<T>>,
    startup_warnings: &mut Vec<String>,
)
    ensures
        match requirement {
            None => *final(configured_value) == *old(configured_value),
            Some(req) => *final(configured_value) matches Some(v) && v@ == req.value@
                && v.debug_view() == req.value.debug_view(),
        },
        warnings_view(final(startup_warnings)@) == warnings_view(old(startup_warnings)@) + exact_warnings(
            field_name@,
            *old(configured_value),
            match requirement { Some(r) => Some(*r), None => None },
        ),
{
    let ghost before = startup_warnings@;
    match requirement {
        None => {
            assert(warnings_view(startup_warnings@) =~= warnings_view(before) + Seq::<Seq<char>>::empty());
        },
        Some(req) => {
            let conflict = match configured_value {
                Some(c) => !c.same(&req.value),
                None => false,
            };
            if conflict {
                let mut m = string_of("Configured value for `");
                append_str(&mut m, field_name);
                append_str(&mut m, "` is overridden by the required value ");
                let d = req.value.debug_text();
                append_str(&mut m, d.as_str());
                append_str(&mut m, " from ");
                append_str(&mut m, req.source.as_str());
                append_str(&mut m, ".");
                push_warning(startup_warnings, m);
            } else {
                assert(warnings_view(startup_warnings@) =~= warnings_view(before) + Seq::<Seq<char>>::empty());
            }
            *configured_value = Some(req.value.duplicate());
        },
    }
}

/// Replaces a configured leaf with the required one when there is one;
/// returns whether a configured leaf differed from it.
pub fn replace_required_leaf<T: RequirementValue>(configured: &mut Option<T>, required: &Option<T>) -> (conflict: bool)
    ensures
        match required {
            None => !conflict && *final(configured) == *old(configured),
            Some(r) => *final(configured) matches Some(v) && v@ == r@
                && conflict == (*old(configured) matches Some(c) && !c.same_value(r)),
        },
{
    match required {
        None => false,
        Some(r) => {
            let conflict = match configured {
                Some(c) => !c.same(r),
                None => false,
            };
            *configured = Some(r.duplicate());
            conflict
        },
    }
}

/// The warning for configured values under `field_name` that requirements override.
pub open spec fn structured_override_message(field_name: Seq<char>, source: Seq<char>) -> Seq<char> {
    "Configured values under `"@ + field_name + "` are overridden by requirements from "@ + source + "."@
}

/// Adds the structured-override warning when there was a conflict.
pub fn push_structured_requirement_override_warning(
    field_name: &str,
    conflict: bool,
    source: &str,
    startup_warnings: &mut Vec<String>,
)
    ensures
        warnings_view(final(startup_warnings)@) == warnings_view(old(startup_warnings)@) + if conflict {
            seq![structured_override_message(field_name@, source@)]
        } else {
            Seq::empty()
        },
{
    let ghost before = startup_warnings@;
    if !conflict {
        assert(warnings_view(startup_warnings@) =~= warnings_view(before) + Seq::<Seq<char>>::empty());
        return;
    }
    let mut m = string_of("Configured values under `");
    append_str(&mut m, field_name);
    append_str(&mut m, "` are overridden by requirements from ");
    append_str(&mut m, source);
    append_str(&mut m, ".");
    push_warning(startup_warnings, m);
}

/// The `enabled` leaf of a feedback table that may be absent.
pub open spec fn feedback_enabled(f: Option<FeedbackConfigToml>) -> Option<bool> {
    match f {
        Some(t) => t.enabled,
        None => None,
    }
}

/// The feedback table after a requirement: present, with the required leaf when it has one.
pub open spec fn feedback_after(configured: Option<FeedbackConfigToml>, requirement: Option<Sourced<FeedbackConfigToml>>) -> Option<FeedbackConfigToml> {
    match requirement {
        None => configured,
        Some(req) => Some(FeedbackConfigToml {
            enabled: match req.value.enabled {
                Some(e) => Some(e),
                None => feedback_enabled(configured),
            },
        }),
    }
}

/// The warnings a feedback requirement adds.
pub open spec fn feedback_warnings(configured: Option<FeedbackConfigToml>, requirement: Option<Sourced<FeedbackConfigToml>>) -> Seq<Seq<char>> {
    match requirement {
        None => Seq::empty(),
        Some(req) => match (feedback_enabled(configured), req.value.enabled) {
            (Some(c), Some(r)) if c != r => seq![structured_override_message("feedback"@, req.source@)],
            _ => Seq::empty(),
        },
    }
}

/// Applies a feedback requirement leaf by leaf, with one warning for all conflicts.
pub fn apply_feedback_requirement(
    configured: &mut Option<FeedbackConfigToml>,
    requirement: Option<&Sourced<FeedbackConfigToml>>,
    startup_warnings: &mut Vec<String>,
)
    ensures
        *final(configured) == feedback_after(*old(configured), match requirement { Some(r) => Some(*r), None => None }),
        warnings_view(final(startup_warnings)@) == warnings_view(old(startup_warnings)@)
            + feedback_warnings(*old(configured), match requirement { Some(r) => Some(*r), None => None }),
{
    let ghost before = startup_warnings@;
    let req = match requirement {
        None => {
            assert(warnings_view(startup_warnings@) =~= warnings_view(before) + Seq::<Seq<char>>::empty());
            return;
        },
        Some(req) => req,
    };
    if configured.is_none() {
        *configured = Some(FeedbackConfigToml { enabled: None });
    }
    let conflict = match configured {
        Some(table) => replace_required_leaf(&mut table.enabled, &req.value.enabled),
        None => false,
    };
    push_structured_requirement_override_warning("feedback", conflict, req.source.as_str(), startup_warnings);
}

/// The warning for a `CODEX_SQLITE_HOME` that the `sqlite_home` requirement overrides.
pub open spec fn sqlite_env_override_message(value_debug: Seq<char>, source: Seq<char>) -> Seq<char> {
    "Environment value for `$CODEX_SQLITE_HOME` is overridden by the required `sqlite_home` value "@
        + value_debug + " from "@ + source + "."@
}

/// The warnings about `CODEX_SQLITE_HOME`: one when no `sqlite_home` is
/// configured, the variable is set, and a requirement names another path.
pub open spec fn sqlite_env_warnings(
    configured_sqlite_home: Option<Seq<char>>,
    sqlite_home_env: Option<Seq<char>>,
    requirement: Option<(Seq<char>, Seq<char>)>,
) -> Seq<Seq<char>> {
    match (configured_sqlite_home, sqlite_home_env, requirement) {
        (None, Some(env), Some((value, source))) if env != value && !same_path(env, value) =>
            seq![sqlite_env_override_message("AbsolutePathBuf("@ + debug_path(value) + ")"@, source)],
        _ => Seq::empty(),
    }
}

/// Warns when the `sqlite_home` requirement overrides `CODEX_SQLITE_HOME`.
pub fn push_sqlite_home_env_override_warning(
    configured_sqlite_home: Option<&AbsolutePath>,
    sqlite_home_env: Option<&str>,
    requirement: Option<&Sourced<AbsolutePath>>,
    startup_warnings: &mut Vec<String>,
)
    ensures
        warnings_view(final(startup_warnings)@) == warnings_view(old(startup_warnings)@) + sqlite_env_warnings(
            match configured_sqlite_home { Some(p) => Some(p.path@), None => None },
            match sqlite_home_env { Some(e) => Some(e@), None => None },
            match requirement { Some(r) => Some((r.value.path@, r.source@)), None => None },
        ),
{
    let ghost before = startup_warnings@;
    let ghost none_added = warnings_view(before) + Seq::<Seq<char>>::empty();
    assert(none_added =~= warnings_view(before));
    if configured_sqlite_home.is_some() {
        return;
    }
    let env = match sqlite_home_env {
        None => return,
        Some(env) => env,
    };
    let req = match requirement {
        None => return,
        Some(req) => req,
    };
    if paths_equal(env, req.value.path.as_str()) {
        return;
    }
    let mut m = string_of("Environment value for `$CODEX_SQLITE_HOME` is overridden by the required `sqlite_home` value ");
    let d = req.value.debug_text();
    append_str(&mut m, d.as_str());
    append_str(&mut m, " from ");
    append_str(&mut m, req.source.as_str());
    append_str(&mut m, ".");
    push_warning(startup_warnings, m);
}

/// The view of an optional value.
pub open spec fn opt_value_view<T: View>(o: Option<T>) -> Option<T::V> {
    match o {
        Some(v) => Some(v@),
        None => None,
    }
}

/// A reference to an optional value, as the value.
pub open spec fn opt_deref<T>(o: Option<&T>) -> Option<T> {
    match o {
        Some(r) => Some(*r),
        None => None,
    }
}

/// The view of a configured value after an exact requirement: the required value when there is one.
pub open spec fn exact_after<T: View>(configured: Option<T>, requirement: Option<Sourced<T>>) -> Option<T::V> {
    match requirement {
        Some(req) => Some(req.value@),
        None => opt_value_view(configured),
    }
}

/// The `sandbox_private_desktop` leaf of a windows table that may be absent.
pub open spec fn windows_desktop(w: Option<WindowsToml>) -> Option<bool> {
    match w {
        Some(t) => t.sandbox_private_desktop,
        None => None,
    }
}

/// All the warnings that applying `requirements` to `config` adds, in order.
pub open spec fn config_warnings(config: ConfigToml, requirements: ConfigRequirements) -> Seq<Seq<char>> {
    exact_warnings("sqlite_home"@, config.sqlite_home, requirements.sqlite_home)
        + exact_warnings("log_dir"@, config.log_dir, requirements.log_dir)
        + exact_warnings("model_catalog_json"@, config.model_catalog_json, requirements.model_catalog_json)
        + exact_warnings("check_for_update_on_startup"@, config.check_for_update_on_startup, requirements.check_for_update_on_startup)
        + exact_warnings("allow_login_shell"@, config.allow_login_shell, requirements.allow_login_shell)
        + feedback_warnings(config.feedback, requirements.feedback)
        + exact_warnings("windows.sandbox_private_desktop"@, windows_desktop(config.windows), requirements.windows_sandbox_private_desktop)
}

/// `after` is `before` with `requirements` applied: each required value
/// stands in place of the configured one, and the rest is kept.
pub open spec fn requirements_applied(before: ConfigToml, after: ConfigToml, requirements: ConfigRequirements) -> bool {
    &&& opt_value_view(after.sqlite_home) == exact_after(before.sqlite_home, requirements.sqlite_home)
    &&& opt_value_view(after.log_dir) == exact_after(before.log_dir, requirements.log_dir)
    &&& opt_value_view(after.model_catalog_json) == exact_after(before.model_catalog_json, requirements.model_catalog_json)
    &&& after.check_for_update_on_startup == exact_after(before.check_for_update_on_startup, requirements.check_for_update_on_startup)
    &&& after.allow_login_shell == exact_after(before.allow_login_shell, requirements.allow_login_shell)
    &&& after.feedback == feedback_after(before.feedback, requirements.feedback)
    &&& match requirements.windows_sandbox_private_desktop {
        Some(req) => after.windows is Some && windows_desktop(after.windows) == Some(req.value),
        None => after.windows == before.windows,
    }
}

/// Two configurations hold the same values, compared by their views.
pub open spec fn same_config_values(a: ConfigToml, b: ConfigToml) -> bool {
    &&& opt_value_view(a.sqlite_home) == opt_value_view(b.sqlite_home)
    &&& opt_value_view(a.log_dir) == opt_value_view(b.log_dir)
    &&& opt_value_view(a.model_catalog_json) == opt_value_view(b.model_catalog_json)
    &&& a.check_for_update_on_startup == b.check_for_update_on_startup
    &&& a.allow_login_shell == b.allow_login_shell
    &&& a.feedback == b.feedback
    &&& windows_desktop(a.windows) == windows_desktop(b.windows)
}

/// Requirements settle in one application: applied again to the
/// configuration they produced, they add no warning and change no value.
pub proof fn lemma_requirements_settle(
    before: ConfigToml,
    after: ConfigToml,
    again: ConfigToml,
    requirements: ConfigRequirements,
)
    requires
        requirements_applied(before, after, requirements),
        requirements_applied(after, again, requirements),
    ensures
        config_warnings(after, requirements) == Seq::<Seq<char>>::empty(),
        same_config_values(after, again),
{
    assert(config_warnings(after, requirements) =~= Seq::<Seq<char>>::empty());
}

proof fn lemma_append_seven(
    w: Seq<Seq<char>>,
    e1: Seq<Seq<char>>,
    e2: Seq<Seq<char>>,
    e3: Seq<Seq<char>>,
    e4: Seq<Seq<char>>,
    e5: Seq<Seq<char>>,
    e6: Seq<Seq<char>>,
    e7: Seq<Seq<char>>,
)
    ensures
        w + e1 + e2 + e3 + e4 + e5 + e6 + e7 == w + (e1 + e2 + e3 + e4 + e5 + e6 + e7),
{
    assert(w + e1 + e2 + e3 + e4 + e5 + e6 + e7 =~= w + (e1 + e2 + e3 + e4 + e5 + e6 + e7));
}

/// Applies managed requirements to the configuration before it is built:
/// required values replace configured ones, and each conflict adds a warning
/// naming the requirement's source.
#[verifier::rlimit(50)]
pub fn apply_to_config(
    config: &mut ConfigToml,
    requirements: &ConfigRequirements,
    startup_warnings: &mut Vec<String>,
)
    ensures
        requirements_applied(*old(config), *final(config), *requirements),
        warnings_view(final(startup_warnings)@) == warnings_view(old(startup_warnings)@) + config_warnings(*old(config), *requirements),
{
    let ghost w0 = warnings_view(startup_warnings@);
    let ghost c0 = *config;
    let ghost r = *requirements;
    apply_exact_requirement("sqlite_home", &mut config.sqlite_home, requirements.sqlite_home.as_ref(), startup_warnings);
    let ghost w1 = warnings_view(startup_warnings@);
    apply_exact_requirement("log_dir", &mut config.log_dir, requirements.log_dir.as_ref(), startup_warnings);
    let ghost w2 = warnings_view(startup_warnings@);
    apply_exact_requirement("model_catalog_json", &mut config.model_catalog_json, requirements.model_catalog_json.as_ref(), startup_warnings);
    let ghost w3 = warnings_view(startup_warnings@);
    apply_exact_requirement("check_for_update_on_startup", &mut config.check_for_update_on_startup, requirements.check_for_update_on_startup.as_ref(), startup_warnings);
    let ghost w4 = warnings_view(startup_warnings@);
    apply_exact_requirement("allow_login_shell", &mut config.allow_login_shell, requirements.allow_login_shell.as_ref(), startup_warnings);
    let ghost w5 = warnings_view(startup_warnings@);
    apply_feedback_requirement(&mut config.feedback, requirements.feedback.as_ref(), startup_warnings);
    let ghost w6 = warnings_view(startup_warnings@);
    apply_windows_requirement(&mut config.windows, requirements.windows_sandbox_private_desktop.as_ref(), startup_warnings);
    proof {
        let e1 = exact_warnings("sqlite_home"@, c0.sqlite_home, r.sqlite_home);
        let e2 = exact_warnings("log_dir"@, c0.log_dir, r.log_dir);
        let e3 = exact_warnings("model_catalog_json"@, c0.model_catalog_json, r.model_catalog_json);
        let e4 = exact_warnings("check_for_update_on_startup"@, c0.check_for_update_on_startup, r.check_for_update_on_startup);
        let e5 = exact_warnings("allow_login_shell"@, c0.allow_login_shell, r.allow_login_shell);
        let e6 = feedback_warnings(c0.feedback, r.feedback);
        let e7 = exact_warnings("windows.sandbox_private_desktop"@, windows_desktop(c0.windows), r.windows_sandbox_private_desktop);
        lemma_append_seven(w0, e1, e2, e3, e4, e5, e6, e7);
    }
}

fn apply_windows_requirement(
    windows: &mut Option<WindowsToml>,
    requirement: Option<&Sourced<bool>>,
    startup_warnings: &mut Vec<String>,
)
    ensures
        match requirement {
            Some(req) => *final(windows) is Some && windows_desktop(*final(windows)) == Some(req.value),
            None => *final(windows) == *old(windows),
        },
        warnings_view(final(startup_warnings)@) == warnings_view(old(startup_warnings)@) + exact_warnings(
            "windows.sandbox_private_desktop"@,
            windows_desktop(*old(windows)),
            opt_deref(requirement),
        ),
{
    let ghost w0 = warnings_view(startup_warnings@);
    match requirement {
        Some(requirement) => {
            let mut leaf = match windows {
                Some(table) => table.sandbox_private_desktop,
                None => None,
            };
            apply_exact_requirement("windows.sandbox_private_desktop", &mut leaf, Some(requirement), startup_warnings);
            *windows = Some(WindowsToml { sandbox_private_desktop: leaf });
        },
        None => {
            assert(w0 + Seq::<Seq<char>>::empty() =~= w0);
        },
    }
}

} // verus!
