use wallpaper_core::chat::{
    get_timestamp, same_folded_sender, unix_timestamp_parts, ChatMessage, EnhancedChatMessage,
    MessageFilter, MessagePriority,
};

#[test]
fn test_enhanced_message() {
    let message = EnhancedChatMessage::new("Hello".to_string(), "User".to_string())
        .with_priority(MessagePriority::High);

    assert_eq!(message.base.message, "Hello");
    assert_eq!(message.base.sender, "User");
    assert_eq!(message.priority, MessagePriority::High);
    assert!(!message.edited);
}

#[test]
fn test_message_filter() {
    let filter = MessageFilter::new()
        .with_sender("User".to_string())
        .with_keyword("hello".to_string());

    let message = EnhancedChatMessage::new("Hello world".to_string(), "User".to_string());

    assert!(filter.matches(&message));

    let wrong_sender = EnhancedChatMessage::new("Hello world".to_string(), "Lucy".to_string());

    assert!(!filter.matches(&wrong_sender));

    let wrong_keyword = EnhancedChatMessage::new("Goodbye world".to_string(), "User".to_string());

    assert!(!filter.matches(&wrong_keyword));
}

fn stamped(text: &str, sender: &str, timestamp: &str) -> EnhancedChatMessage {
    EnhancedChatMessage::from(ChatMessage {
        message: text.to_string(),
        sender: sender.to_string(),
        timestamp: timestamp.to_string(),
    })
}

#[test]
fn filter_date_range_includes_both_ends() {
    let filter = MessageFilter::new().with_date_range(
        "2024-01-01T00:00:00Z".to_string(),
        "2024-01-31T23:59:59Z".to_string(),
    );
    assert!(filter.matches(&stamped("a", "User", "2024-01-01T00:00:00Z")));
    assert!(filter.matches(&stamped("a", "User", "2024-01-15T12:00:00Z")));
    assert!(filter.matches(&stamped("a", "User", "2024-01-31T23:59:59Z")));
    assert!(!filter.matches(&stamped("a", "User", "2023-12-31T23:59:59Z")));
    assert!(!filter.matches(&stamped("a", "User", "2024-02-01T00:00:00Z")));
}

#[test]
fn filter_by_priority_and_sender_case() {
    let filter = MessageFilter::new()
        .with_sender("LUCY".to_string())
        .with_priority(MessagePriority::System);
    let plain = stamped("hi", "lucy", "t");
    assert!(!filter.matches(&plain));
    let system = stamped("hi", "Lucy", "t").with_priority(MessagePriority::System);
    assert!(filter.matches(&system));
    assert!(MessageFilter::new().matches(&plain));
}

#[test]
fn filter_keyword_ignores_case_and_empty_keyword_matches() {
    let message = stamped("Привет, МИР", "User", "t");
    assert!(MessageFilter::new().with_keyword("мир".to_string()).matches(&message));
    assert!(MessageFilter::new().with_keyword(String::new()).matches(&message));
    assert!(!MessageFilter::new().with_keyword("миры".to_string()).matches(&message));
}

#[test]
fn metadata_key_is_replaced_in_place() {
    let message = EnhancedChatMessage::new("Hello".to_string(), "User".to_string())
        .with_metadata("lang".to_string(), "en".to_string())
        .with_metadata("mood".to_string(), "calm".to_string())
        .with_metadata("lang".to_string(), "ru".to_string());
    assert_eq!(
        message.metadata,
        vec![
            ("lang".to_string(), "ru".to_string()),
            ("mood".to_string(), "calm".to_string()),
        ]
    );
}

#[test]
fn editing_marks_the_message() {
    let mut message = EnhancedChatMessage::new("Hello".to_string(), "User".to_string());
    message.edit_message("Hi".to_string());
    assert_eq!(message.base.message, "Hi");
    assert!(message.edited);
    assert!(message.edit_timestamp.is_some());
    assert_eq!(message.priority, MessagePriority::Normal);
}

#[test]
fn message_from_plain_chat_message() {
    let message = stamped("Hello", "User", "2024-05-01T10:00:00Z");
    assert_eq!(message.base.timestamp, "2024-05-01T10:00:00Z");
    assert_eq!(message.priority, MessagePriority::Normal);
    assert!(message.metadata.is_empty());
    assert!(MessagePriority::Low < MessagePriority::System);
    assert_eq!(MessagePriority::default(), MessagePriority::Normal);
}

#[test]
fn folded_senders_and_timestamps() {
    assert!(same_folded_sender("user", "user"));
    assert!(!same_folded_sender("user", "User"));
    assert_eq!(unix_timestamp_parts(true, 5, 7), Some((5, 7)));
    assert_eq!(unix_timestamp_parts(false, 5, 0), Some((-5, 0)));
    assert_eq!(unix_timestamp_parts(false, 5, 250_000_000), Some((-6, 750_000_000)));
    assert_eq!(unix_timestamp_parts(true, u64::MAX, 0), None);
    let now = get_timestamp();
    assert!(now.contains('T'));
}
