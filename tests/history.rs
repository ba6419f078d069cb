use wallpaper_core::chat::{ChatConfig, ChatEvent, ChatMessage, EnhancedChatMessage, MessageFilter};
use wallpaper_core::history::ChatManager;
use wallpaper_core::stats::{sender_kind, ChatTally, SenderKind};

fn msg(text: &str, sender: &str, stamp: &str) -> EnhancedChatMessage {
    EnhancedChatMessage::from(ChatMessage {
        message: text.to_string(),
        sender: sender.to_string(),
        timestamp: stamp.to_string(),
    })
}

fn config(max: usize) -> ChatConfig {
    ChatConfig { max_messages: max, auto_save: false, storage_path: "h.json".to_string() }
}

fn texts(list: &[EnhancedChatMessage]) -> Vec<String> {
    list.iter().map(|m| m.base.message.clone()).collect()
}

#[test]
fn history_keeps_only_the_newest_messages() {
    let mut chat = ChatManager::new(config(2));
    assert!(!chat.add_message(msg("one", "User", "t1")));
    chat.add_message(msg("two", "Lucy", "t2"));
    chat.add_message(msg("three", "User", "t3"));
    assert_eq!(chat.message_count(), 2);
    assert_eq!(texts(&chat.get_messages(None)), vec!["two", "three"]);
    let events = chat.take_events();
    assert_eq!(events.len(), 3);
    assert!(matches!(&events[2], ChatEvent::MessageAdded(m) if m.message == "three"));
    assert!(chat.take_events().is_empty());
}

#[test]
fn history_with_zero_capacity_stays_empty() {
    let mut chat = ChatManager::new(config(0));
    chat.add_message(msg("one", "User", "t1"));
    assert!(chat.is_empty());
}

#[test]
fn editing_and_deleting_by_time_stamp() {
    let mut chat = ChatManager::new(ChatConfig::default());
    chat.add_message(msg("hello", "User", "t1"));
    chat.add_message(msg("there", "Lucy", "t2"));
    assert!(chat.edit_message("t2", "changed").is_ok());
    assert!(chat.edit_message("t9", "x").is_err());
    let all = chat.get_messages(None);
    assert_eq!(texts(&all), vec!["hello", "changed"]);
    assert!(all[1].edited);
    assert!(!all[0].edited);
    assert!(chat.delete_message("t1").is_ok());
    assert!(chat.delete_message("t1").is_err());
    assert_eq!(texts(&chat.get_messages(None)), vec!["changed"]);
    chat.clear_history();
    assert!(chat.is_empty());
    let events = chat.take_events();
    assert!(matches!(events.last(), Some(ChatEvent::HistoryCleared)));
}

#[test]
fn filtered_and_recent_messages() {
    let mut chat = ChatManager::new(ChatConfig::default());
    chat.add_message(msg("Hello world", "User", "t1"));
    chat.add_message(msg("Hi", "Lucy", "t2"));
    chat.add_message(msg("world peace", "USER", "t3"));
    let by_user = chat.get_messages(Some(MessageFilter::new().with_sender("user".to_string())));
    assert_eq!(texts(&by_user), vec!["Hello world", "world peace"]);
    let found = chat.get_messages(Some(MessageFilter::new().with_keyword("WORLD".to_string())));
    assert_eq!(found.len(), 2);
    assert_eq!(texts(&chat.get_recent_messages(2)), vec!["Hi", "world peace"]);
    assert_eq!(chat.get_recent_messages(10).len(), 3);
    assert!(chat.get_recent_messages(0).is_empty());
    chat.update_config(config(5));
    assert_eq!(chat.get_config().max_messages, 5);
    chat.load_history(vec![msg("a", "User", "x")]);
    assert_eq!(chat.message_count(), 1);
}

#[test]
fn tally_counts_senders_lengths_and_times() {
    let messages = vec![
        msg("Hi", "User", "2024-01-02"),
        msg("Hello", "Lucy", "2024-01-01"),
        msg("How are you?", "User", "2024-01-03"),
        msg("Привет", "Система", "2024-01-02"),
    ];
    let tally = ChatTally::from_messages(&messages);
    assert_eq!(tally.total_messages, 4);
    assert_eq!(tally.user_messages, 2);
    assert_eq!(tally.lucy_messages, 1);
    assert_eq!(tally.system_messages, 1);
    assert_eq!(tally.total_length, 2 + 5 + 12 + 12);
    assert_eq!(tally.first_message_time.as_deref(), Some("2024-01-01"));
    assert_eq!(tally.last_message_time.as_deref(), Some("2024-01-03"));
    assert_eq!(sender_kind("ВЫ"), SenderKind::User);
    assert_eq!(sender_kind("AI"), SenderKind::Assistant);
    let empty = ChatTally::from_messages(&Vec::new());
    assert_eq!(empty.total_messages, 0);
    assert!(empty.first_message_time.is_none());
    let mut chat = ChatManager::new(ChatConfig::default());
    chat.add_message(msg("Hi", "user", "t"));
    assert_eq!(chat.get_stats().user_messages, 1);
}
