use codex_logic::json::JsonValue;
use codex_logic::realtime::{
    context_append_chunks, delegation_context_append_message, session_context_append_message, session_json,
    session_update_message, ConversationTextParams, ConversationTextRole, FramelessContentType,
    RealtimeContextAppendChannel, RealtimeOutboundMessage, RealtimeVoice, CONTEXT_APPEND_MAX_BYTES,
};

fn member<'a>(v: &'a JsonValue, key: &str) -> Option<&'a JsonValue> {
    match v {
        JsonValue::Object(members) => members.iter().find(|(k, _)| k == key).map(|(_, v)| v),
        _ => None,
    }
}

fn string<'a>(v: Option<&'a JsonValue>) -> &'a str {
    match v {
        Some(JsonValue::Str(s)) => s,
        other => panic!("expected a string, got {other:?}"),
    }
}

#[test]
fn short_text_is_one_chunk() {
    assert_eq!(context_append_chunks("hello"), vec!["hello".to_string()]);
    assert_eq!(context_append_chunks(""), vec![String::new()]);
    let exact = "x".repeat(CONTEXT_APPEND_MAX_BYTES);
    assert_eq!(context_append_chunks(&exact), vec![exact.clone()]);
}

#[test]
fn long_ascii_text_is_cut_every_500_bytes() {
    let text = "a".repeat(1201);
    let chunks = context_append_chunks(&text);
    assert_eq!(chunks.len(), 3);
    assert_eq!(chunks[0].len(), 500);
    assert_eq!(chunks[1].len(), 500);
    assert_eq!(chunks[2].len(), 201);
    assert_eq!(chunks.concat(), text);
}

#[test]
fn chunks_never_split_a_character() {
    // 499 ASCII bytes then a 3-byte character: the character moves to the next chunk.
    let text = format!("{}{}{}", "b".repeat(499), "\u{20ac}", "c".repeat(10));
    let chunks = context_append_chunks(&text);
    assert_eq!(chunks.len(), 2);
    assert_eq!(chunks[0], "b".repeat(499));
    assert_eq!(chunks[1], format!("\u{20ac}{}", "c".repeat(10)));
    let emoji = "\u{1F600}".repeat(300);
    let chunks = context_append_chunks(&emoji);
    for chunk in &chunks {
        assert!(chunk.len() <= 500 && !chunk.is_empty());
    }
    assert_eq!(chunks[0].len(), 500);
    assert_eq!(chunks.concat(), emoji);
}

#[test]
fn context_append_messages_carry_one_text_item() {
    let channel = Some(RealtimeContextAppendChannel { name: "commentary".to_string() });
    match delegation_context_append_message("item-1".to_string(), "hi".to_string(), channel.clone()) {
        RealtimeOutboundMessage::DelegationContextAppend { delegation_item_id, channel: ch, content } => {
            assert_eq!(delegation_item_id, "item-1");
            assert_eq!(ch, channel);
            assert_eq!(content.len(), 1);
            assert_eq!(content[0].content_type, FramelessContentType::InputText);
            assert_eq!(content[0].text, "hi");
        }
        other => panic!("unexpected {other:?}"),
    }
    match session_context_append_message("ctx".to_string(), None) {
        RealtimeOutboundMessage::SessionContextAppend { channel, content } => {
            assert!(channel.is_none());
            assert_eq!(content[0].text, "ctx");
        }
        other => panic!("unexpected {other:?}"),
    }
}

#[test]
fn session_json_has_the_documented_shape() {
    let items = vec![
        ConversationTextParams { role: ConversationTextRole::User, text: "question".to_string() },
        ConversationTextParams { role: ConversationTextRole::Assistant, text: "answer".to_string() },
    ];
    let session = session_json(
        Some("gpt-realtime".to_string()),
        "be brief".to_string(),
        items,
        RealtimeVoice { name: "marin".to_string() },
        Some(true),
    );
    assert_eq!(string(member(&session, "instructions")), "be brief");
    assert_eq!(string(member(&session, "model")), "gpt-realtime");
    let voice = member(member(member(&session, "audio").unwrap(), "output").unwrap(), "voice");
    assert_eq!(string(voice), "marin");
    let delegation = member(&session, "delegation").unwrap();
    assert_eq!(string(member(delegation, "type")), "client");
    assert!(matches!(member(delegation, "ack_filler"), Some(JsonValue::Bool(true))));
    match member(&session, "initial_items") {
        Some(JsonValue::Array(items)) => {
            assert_eq!(items.len(), 2);
            assert_eq!(string(member(&items[0], "type")), "message");
            assert_eq!(string(member(&items[0], "role")), "user");
            assert_eq!(string(member(&items[1], "role")), "assistant");
            match member(&items[1], "content") {
                Some(JsonValue::Array(content)) => {
                    assert_eq!(string(member(&content[0], "type")), "output_text");
                    assert_eq!(string(member(&content[0], "text")), "answer");
                }
                other => panic!("unexpected {other:?}"),
            }
            match member(&items[0], "content") {
                Some(JsonValue::Array(content)) => assert_eq!(string(member(&content[0], "type")), "input_text"),
                other => panic!("unexpected {other:?}"),
            }
        }
        other => panic!("unexpected {other:?}"),
    }
}

#[test]
fn session_update_omits_model_and_empty_items() {
    match session_update_message("inst".to_string(), Vec::new(), RealtimeVoice { name: "alloy".to_string() }, None) {
        RealtimeOutboundMessage::FramelessSessionUpdate { session } => {
            assert!(member(&session, "model").is_none());
            assert!(member(&session, "initial_items").is_none());
            assert!(member(member(&session, "delegation").unwrap(), "ack_filler").is_none());
            match &session {
                JsonValue::Object(members) => assert_eq!(members.len(), 3),
                other => panic!("unexpected {other:?}"),
            }
        }
        other => panic!("unexpected {other:?}"),
    }
}
