use codex_logic::session_archive::{DeleteConfirmation, SessionArchiveAction, ThreadSortKey};
use codex_logic::session_lookup::{invalid_session_id_message, LookupStep, NameLookup, LIST_PAGE_LIMIT};

fn names(v: &[Option<&str>]) -> Vec<Option<String>> {
    v.iter().map(|n| n.map(|s| s.to_string())).collect()
}

fn list(step: LookupStep) -> (Option<String>, ThreadSortKey, bool, bool, Option<String>) {
    match step {
        LookupStep::List(r) => {
            assert_eq!(r.limit, LIST_PAGE_LIMIT);
            (r.cursor, r.sort_key, r.archived, r.use_state_db_only, r.search_term)
        }
        other => panic!("expected a list request, got {other:?}"),
    }
}

#[test]
fn remote_lookup_takes_the_first_named_session() {
    let (mut lookup, first) = NameLookup::start(SessionArchiveAction::Archive, "demo", true, false);
    assert_eq!(list(first), (None, ThreadSortKey::UpdatedAt, false, false, Some("demo".to_string())));
    let step = lookup.on_page(names(&[Some("other"), None, Some("demo"), Some("demo")]), Some("c1".to_string()));
    assert!(matches!(step, LookupStep::Found { index: 2 }));
}

#[test]
fn remote_lookup_pages_then_lists_everything() {
    let (mut lookup, _) = NameLookup::start(SessionArchiveAction::Unarchive, "demo", true, true);
    let step = lookup.on_page(names(&[Some("x")]), Some("c1".to_string()));
    assert_eq!(list(step), (Some("c1".to_string()), ThreadSortKey::UpdatedAt, true, false, Some("demo".to_string())));
    let step = lookup.on_page(names(&[]), None);
    assert_eq!(list(step), (None, ThreadSortKey::UpdatedAt, true, false, None));
    let step = lookup.on_page(names(&[Some("demo ")]), None);
    assert!(matches!(step, LookupStep::NotFound));
}

#[test]
fn local_lookup_checks_rollouts_before_taking_a_session() {
    let (mut lookup, first) = NameLookup::start(SessionArchiveAction::Archive, "demo", false, true);
    assert_eq!(list(first), (None, ThreadSortKey::RecencyAt, false, true, Some("demo".to_string())));
    let step = lookup.on_page(names(&[Some("demo"), Some("x"), Some("demo")]), Some("next".to_string()));
    assert!(matches!(step, LookupStep::CheckRollout { index: 0, archived: false }));
    let step = lookup.on_rollout_checked(false);
    assert!(matches!(step, LookupStep::CheckRollout { index: 2, archived: false }));
    let step = lookup.on_rollout_checked(false);
    assert_eq!(list(step), (Some("next".to_string()), ThreadSortKey::RecencyAt, false, true, Some("demo".to_string())));
    let step = lookup.on_page(names(&[Some("demo")]), None);
    assert!(matches!(step, LookupStep::CheckRollout { index: 0, archived: false }));
    let step = lookup.on_rollout_checked(true);
    assert!(matches!(step, LookupStep::Found { index: 0 }));
}

#[test]
fn local_delete_searches_every_pass_in_order() {
    let (mut lookup, first) =
        NameLookup::start(SessionArchiveAction::Delete(DeleteConfirmation::Prompt), "demo", false, false);
    let mut seen = vec![list(first)];
    loop {
        match lookup.on_page(names(&[Some("nope")]), None) {
            LookupStep::NotFound => break,
            step => seen.push(list(step)),
        }
    }
    let name = Some("demo".to_string());
    assert_eq!(
        seen,
        vec![
            (None, ThreadSortKey::UpdatedAt, false, true, name.clone()),
            (None, ThreadSortKey::UpdatedAt, false, true, None),
            (None, ThreadSortKey::UpdatedAt, false, false, name.clone()),
            (None, ThreadSortKey::UpdatedAt, false, false, None),
            (None, ThreadSortKey::UpdatedAt, true, true, name.clone()),
            (None, ThreadSortKey::UpdatedAt, true, true, None),
            (None, ThreadSortKey::UpdatedAt, true, false, name),
            (None, ThreadSortKey::UpdatedAt, true, false, None),
        ]
    );
}

#[test]
fn invalid_session_ids_are_reported() {
    assert_eq!(invalid_session_id_message("not-a-uuid"), "app server returned invalid session id `not-a-uuid`");
}
