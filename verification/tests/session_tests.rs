//! Tests for the session history and its framing codec.

use kaja_engine::session::{decode_history, encode_history, RedisChatHistory, RedisChatMessage};

fn msg(role: &str, content: &str) -> RedisChatMessage {
    RedisChatMessage { role: role.to_string(), content: content.to_string() }
}

#[test]
fn encode_one_message_exactly() {
    let h = vec![msg("user", "hi")];
    assert_eq!(encode_history(&h), "1;4:user2:hi");
}

#[test]
fn encode_empty_history_exactly() {
    let h: Vec<RedisChatMessage> = Vec::new();
    assert_eq!(encode_history(&h), "0;");
}

#[test]
fn round_trip_preserves_messages_and_order() {
    let h = vec![
        msg("user", "what about ATo9ZGSUxFuaPmo51L9NErJLeVAxe86n9dEhADTW9Emo?"),
        msg("assistant", "let me check: 5:ab:cd ; tricky content"),
        msg("tool", ""),
        msg("assistant", "12:34;56"),
    ];
    let blob = encode_history(&h);
    let back = decode_history(&blob).expect("decoding an encoded history");
    assert_eq!(back.len(), h.len());
    for (a, b) in h.iter().zip(back.iter()) {
        assert_eq!(a.role, b.role);
        assert_eq!(a.content, b.content);
    }
}

#[test]
fn decode_rejects_garbage() {
    assert!(decode_history("garbage").is_none());
    assert!(decode_history("2;4:user2:hi").is_none());
    assert!(decode_history("1;4:user2:hi trailing").is_none());
    assert!(decode_history("").is_none());
}

#[test]
fn history_appends_in_order() {
    let mut h = RedisChatHistory::new_redis_chat("session-1".to_string());
    h.add_message("user", "first");
    h.add_message("assistant", "second");
    h.add_message("user", "third");
    let msgs = h.base_messages();
    assert_eq!(msgs.len(), 3);
    assert_eq!(msgs[0].content, "first");
    assert_eq!(msgs[1].content, "second");
    assert_eq!(msgs[2].content, "third");
}

#[test]
fn appended_turns_survive_store_round_trip() {
    // turns appended in one call are present, in order, when the blob is
    // loaded at the start of the next call
    let mut h = RedisChatHistory::new_redis_chat("session-2".to_string());
    h.add_message("user", "buy this");
    h.add_message("assistant", "let me check");
    let blob = h.to_blob();
    let loaded = RedisChatHistory::from_blob("session-2".to_string(), &Some(blob))
        .expect("a stored blob decodes");
    let msgs = loaded.base_messages();
    assert_eq!(msgs.len(), 2);
    assert_eq!(msgs[0].role, "user");
    assert_eq!(msgs[0].content, "buy this");
    assert_eq!(msgs[1].role, "assistant");
    assert_eq!(msgs[1].content, "let me check");
}

#[test]
fn absent_blob_is_empty_history() {
    let loaded = RedisChatHistory::from_blob("session-3".to_string(), &None)
        .expect("an absent blob is an empty history");
    assert!(loaded.base_messages().is_empty());
}
