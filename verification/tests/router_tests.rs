use chat_relay::router::{MessageEvent, RouteOutcome, clear_confirmations, find_token, record_reply, route};
use chat_relay::store::HistoryStore;
use chat_relay::transcript::Role;

fn event(author_is_bot: bool, is_private: bool, mentions_bot: bool, id: u64, text: &str) -> MessageEvent {
    MessageEvent {
        author_is_bot,
        is_private,
        mentions_bot,
        channel_id: id,
        content: text.to_string(),
    }
}

#[test]
fn bot_author_produces_no_side_effect() {
    let mut store = HistoryStore::new("p".to_string());
    let o = route(&mut store, &event(true, true, true, 1, "!clear or anything"));
    assert!(matches!(o, RouteOutcome::Ignored));
    assert!(!store.has_transcript(1));
}

#[test]
fn unaddressed_message_produces_no_side_effect() {
    let mut store = HistoryStore::new("p".to_string());
    let o = route(&mut store, &event(false, false, false, 1, "hello there !clear"));
    assert!(matches!(o, RouteOutcome::Ignored));
    assert!(!store.has_transcript(1));
}

#[test]
fn private_hello_records_user_turn_then_reply() {
    let mut store = HistoryStore::new("preamble".to_string());
    let o = route(&mut store, &event(false, true, false, 42, "Hello"));
    let transcript = match o {
        RouteOutcome::AwaitReply { transcript } => transcript,
        _ => panic!("expected a completion request"),
    };
    assert_eq!(transcript.len(), 2);
    assert_eq!(transcript[0].role, Role::System);
    assert_eq!(transcript[0].content, "preamble");
    assert_eq!(transcript[1].role, Role::User);
    assert_eq!(transcript[1].content, "Hello");

    record_reply(&mut store, 42, "Hi! How can I help?".to_string());
    let after = store.get_or_init(42);
    assert_eq!(after.len(), 3);
    assert_eq!(after[2].role, Role::Assistant);
    assert_eq!(after[2].content, "Hi! How can I help?");
}

#[test]
fn mention_with_clear_token_resets_and_confirms() {
    let mut store = HistoryStore::new("preamble".to_string());
    route(&mut store, &event(false, false, true, 8, "hi"));
    let o = route(&mut store, &event(false, false, true, 8, "please !clear now"));
    assert!(matches!(o, RouteOutcome::Cleared));
    assert!(!store.has_transcript(8));
    let msgs = clear_confirmations();
    assert_eq!(msgs.len(), 3);
    assert_eq!(msgs[0], "Clearing my memory...");
    assert_eq!(msgs[1], "Reverting back to stock ChatGPT...");
    assert_eq!(msgs[2], "I don't want to go...");
}

#[test]
fn mention_addresses_the_bot() {
    let mut store = HistoryStore::new("p".to_string());
    let o = route(&mut store, &event(false, false, true, 2, "what time is it"));
    assert!(matches!(o, RouteOutcome::AwaitReply { .. }));
    assert!(store.has_transcript(2));
}

#[test]
fn clear_only_touches_its_own_conversation() {
    let mut store = HistoryStore::new("p".to_string());
    route(&mut store, &event(false, true, false, 1, "kept"));
    let o = route(&mut store, &event(false, true, false, 2, "!clear"));
    assert!(matches!(o, RouteOutcome::Cleared));
    assert!(store.has_transcript(1));
    assert!(!store.has_transcript(2));
}

#[test]
fn find_token_sees_token_anywhere() {
    assert!(find_token("!clear", "!clear"));
    assert!(find_token("please !clear now", "!clear"));
    assert!(find_token("x!clear", "!clear"));
    assert!(!find_token("clear", "!clear"));
    assert!(!find_token("", "!clear"));
    assert!(!find_token("!clea r", "!clear"));
    assert!(find_token("anything", ""));
}
