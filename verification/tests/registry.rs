use codex_logic::active_turn_registry::{ActiveTurnRegistry, RequestId, ThreadId};

#[test]
fn register_then_lookup_both_ways() {
    let mut reg = ActiveTurnRegistry::new();
    let t = ThreadId { uuid: 7 };
    reg.register(RequestId::Number(1), t, "turn-a".to_string());
    assert_eq!(reg.thread_id(&RequestId::Number(1)), Some(t));
    let mut seen = None;
    assert!(reg.with_request_id(t, "turn-a", |id| seen = Some(format!("{id:?}"))));
    assert_eq!(seen.as_deref(), Some("Number(1)"));
    assert!(!reg.with_request_id(t, "turn-b", |_| panic!("no request")));
}

#[test]
fn re_registering_moves_the_turn_entry() {
    let mut reg = ActiveTurnRegistry::new();
    let t = ThreadId { uuid: 1 };
    reg.register(RequestId::String("r".to_string()), t, "a".to_string());
    reg.register(RequestId::String("r".to_string()), t, "b".to_string());
    assert!(reg.request_id_for(t, "a").is_none());
    assert!(reg.request_id_for(t, "b").is_some());
}

#[test]
fn unregister_and_finish_drop_both_entries() {
    let mut reg = ActiveTurnRegistry::new();
    let t = ThreadId { uuid: 2 };
    reg.register(RequestId::Number(5), t, "x".to_string());
    reg.unregister(&RequestId::Number(5));
    assert_eq!(reg.thread_id(&RequestId::Number(5)), None);
    assert!(reg.request_id_for(t, "x").is_none());
    reg.register(RequestId::Number(6), t, "y".to_string());
    let mut finished = false;
    reg.finish(&RequestId::Number(6), || finished = true);
    assert!(finished);
    assert!(reg.request_id_for(t, "y").is_none());
}

#[test]
fn a_later_request_for_the_same_turn_takes_the_turn_entry() {
    let mut reg = ActiveTurnRegistry::new();
    let t = ThreadId { uuid: 3 };
    reg.register(RequestId::Number(1), t, "x".to_string());
    reg.register(RequestId::Number(2), t, "x".to_string());
    assert!(matches!(reg.request_id_for(t, "x"), Some(RequestId::Number(2))));
    // Dropping the first request drops the turn entry too, whichever request it names.
    reg.unregister(&RequestId::Number(1));
    assert!(reg.request_id_for(t, "x").is_none());
    assert_eq!(reg.thread_id(&RequestId::Number(2)), Some(t));
}
