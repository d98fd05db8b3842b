use chat_box::models::{Conversation, Message, Sender};
use chat_box::store::{ConversationStore, StoreError, NEW_CONVERSATION_NOTE};

fn conv(id: u64, title: &str) -> Conversation {
    Conversation { id, title: title.to_string(), last_message: String::new(), timestamp: 0 }
}

fn msg(id: u64, cid: u64, sender: Sender, content: &str) -> Message {
    Message { id, content: content.to_string(), sender, timestamp: id, conversation_id: cid }
}

fn sample() -> ConversationStore {
    ConversationStore::new(
        vec![conv(1, "one"), conv(4, "four")],
        vec![
            msg(10, 1, Sender::User, "hi"),
            msg(11, 1, Sender::Bot, "hello"),
            msg(12, 4, Sender::User, "other"),
            msg(13, 1, Sender::User, "again"),
        ],
    )
}

#[test]
fn create_conversation_takes_the_next_id() {
    let mut store = sample();
    let c = store.create_conversation("new".to_string(), 99).unwrap();
    assert_eq!(c.id, 5);
    assert_eq!(c.title, "new");
    assert_eq!(c.last_message, NEW_CONVERSATION_NOTE);
    assert_eq!(c.last_message, "开始新的对话");
    assert_eq!(c.timestamp, 99);
    assert_eq!(store.get_conversations().len(), 3);
}

#[test]
fn create_conversation_in_empty_store_gets_id_one() {
    let mut store = ConversationStore::new(Vec::new(), Vec::new());
    assert_eq!(store.create_conversation("a".to_string(), 1).unwrap().id, 1);
    assert_eq!(store.create_conversation("b".to_string(), 2).unwrap().id, 2);
}

#[test]
fn create_conversation_fails_when_ids_are_exhausted() {
    let mut store = ConversationStore::new(vec![conv(u64::MAX, "last")], Vec::new());
    assert_eq!(store.create_conversation("x".to_string(), 1).unwrap_err(), StoreError::IdSpaceExhausted);
    assert_eq!(store.get_conversations().len(), 1);
}

#[test]
fn delete_conversation_cascades_to_messages() {
    let mut store = sample();
    store.delete_conversation(1).unwrap();
    let convs = store.get_conversations();
    assert_eq!(convs.len(), 1);
    assert_eq!(convs[0].id, 4);
    assert!(store.get_conversation_history(1).is_empty());
    assert_eq!(store.get_conversation_history(4).len(), 1);
}

#[test]
fn delete_missing_conversation_is_an_error() {
    let mut store = sample();
    assert_eq!(store.delete_conversation(2).unwrap_err(), StoreError::ConversationNotFound);
    assert_eq!(store.get_conversations().len(), 2);
    assert_eq!(store.get_conversation_history(1).len(), 3);
}

#[test]
fn history_keeps_store_order() {
    let store = sample();
    let h = store.get_conversation_history(1);
    let ids: Vec<u64> = h.iter().map(|m| m.id).collect();
    assert_eq!(ids, vec![10, 11, 13]);
}

#[test]
fn user_prompt_joins_user_messages_with_blank_lines() {
    let store = sample();
    assert_eq!(store.user_prompt(1), "hi\n\nagain");
    assert_eq!(store.user_prompt(4), "other");
    assert_eq!(store.user_prompt(8), "");
}

#[test]
fn send_user_message_updates_the_conversation() {
    let mut store = sample();
    let m = store.send_user_message("question".to_string(), 4, 500);
    assert_eq!(m.id, 500);
    assert_eq!(m.sender, Sender::User);
    assert_eq!(m.conversation_id, 4);
    let c = store.find_conversation(4).unwrap();
    assert_eq!(c.last_message, "question");
    assert_eq!(c.timestamp, 500);
    assert_eq!(store.get_conversation_history(4).len(), 2);
}

#[test]
fn send_user_message_to_unknown_conversation_still_records_it() {
    let mut store = sample();
    store.send_user_message("lost".to_string(), 77, 3);
    assert_eq!(store.get_conversation_history(77).len(), 1);
    assert!(store.find_conversation(77).is_none());
}

#[test]
fn bot_placeholder_is_filled_at_the_end() {
    let mut store = sample();
    let p = store.start_bot_message(1, 900);
    assert_eq!(p.content, "");
    assert_eq!(p.sender, Sender::Bot);
    store.set_message_content(900, &"partial".to_string());
    assert_eq!(store.get_conversation_history(1).last().unwrap().content, "partial");
    store.finish_generation(1, 900, &"full answer".to_string(), 901);
    assert_eq!(store.get_conversation_history(1).last().unwrap().content, "full answer");
    let c = store.find_conversation(1).unwrap();
    assert_eq!(c.last_message, "full answer");
    assert_eq!(c.timestamp, 901);
}

#[test]
fn duplicate_ids_are_detected() {
    assert!(ConversationStore::ids_are_distinct(&vec![conv(1, "a"), conv(2, "b")]));
    assert!(!ConversationStore::ids_are_distinct(&vec![conv(1, "a"), conv(2, "b"), conv(1, "c")]));
    assert!(ConversationStore::ids_are_distinct(&Vec::new()));
}

#[test]
fn sender_names() {
    assert_eq!(Sender::User.as_name(), "user");
    assert_eq!(Sender::Bot.as_name(), "bot");
}
