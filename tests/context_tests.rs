use graph_flow::context::{
    ChatHistory, Context, MessageRole, SerializableMessage, Timestamp, DEFAULT_MAX_MESSAGES,
};
use graph_flow::json::JsonValue;

fn text(s: &str) -> JsonValue {
    JsonValue::Text(s.to_string())
}

fn at(seconds: i64) -> Timestamp {
    Timestamp { seconds, nanos: 0 }
}

#[test]
fn test_basic_context_operations() {
    let mut context = Context::new();

    context.set("key", text("value"));
    let value = context.get("key");
    assert_eq!(value, Some(text("value")));
}

#[test]
fn test_chat_history_operations() {
    let mut context = Context::new();

    assert!(context.is_chat_history_empty());
    assert_eq!(context.chat_history_len(), 0);

    context.add_user_message("Hello".to_string());
    context.add_assistant_message("Hi there!".to_string());

    assert!(!context.is_chat_history_empty());
    assert_eq!(context.chat_history_len(), 2);

    let history = context.get_chat_history();
    assert_eq!(history.len(), 2);
    assert_eq!(history.messages()[0].content, "Hello");
    assert_eq!(history.messages()[0].role, MessageRole::User);
    assert_eq!(history.messages()[1].content, "Hi there!");
    assert_eq!(history.messages()[1].role, MessageRole::Assistant);
}

#[test]
fn test_chat_history_max_messages() {
    let mut context = Context::with_max_chat_messages(2);

    context.add_user_message("Message 1".to_string());
    context.add_assistant_message("Response 1".to_string());
    context.add_user_message("Message 2".to_string());

    let history = context.get_chat_history();
    assert_eq!(history.len(), 2);
    assert_eq!(history.messages()[0].content, "Response 1");
    assert_eq!(history.messages()[1].content, "Message 2");
}

#[test]
fn test_last_messages() {
    let mut context = Context::new();

    context.add_user_message("Message 1".to_string());
    context.add_assistant_message("Response 1".to_string());
    context.add_user_message("Message 2".to_string());
    context.add_assistant_message("Response 2".to_string());

    let last_two = context.get_last_messages(2);
    assert_eq!(last_two.len(), 2);
    assert_eq!(last_two[0].content, "Message 2");
    assert_eq!(last_two[1].content, "Response 2");
}

#[test]
fn test_context_serialization() {
    let mut context = Context::new();
    context.set("key", text("value"));
    context.add_user_message("test message".to_string());

    let data = context.to_data();
    let deserialized = Context::from_data(data);

    assert_eq!(deserialized.get("key"), Some(text("value")));
    assert_eq!(deserialized.chat_history_len(), 1);
    let history = deserialized.get_chat_history();
    assert_eq!(history.messages()[0].content, "test message");
    assert_eq!(history.messages()[0].role, MessageRole::User);
}

#[test]
fn round_trip_keeps_values_history_and_bound() {
    let mut context = Context::with_max_chat_messages(5);
    context.set("a", JsonValue::Number("1".to_string()));
    context.set("b", JsonValue::Bool(false));
    context.set("c", JsonValue::Array("[1,2]".to_string()));
    context.add_message_at(MessageRole::System, "s".to_string(), at(10));
    context.add_message_at(MessageRole::User, "u".to_string(), at(20));

    let restored = Context::from_data(context.to_data());
    assert_eq!(restored.get("a"), Some(JsonValue::Number("1".to_string())));
    assert_eq!(restored.get("b"), Some(JsonValue::Bool(false)));
    assert_eq!(restored.get("c"), Some(JsonValue::Array("[1,2]".to_string())));
    assert_eq!(restored.get("d"), None);
    let all = restored.get_all_messages();
    assert_eq!(all.len(), 2);
    assert_eq!(all[0].timestamp, at(10));
    assert_eq!(all[1].timestamp, at(20));
    assert_eq!(restored.get_chat_history().max_messages(), Some(5));
}

#[test]
fn set_then_get_returns_value_and_last_write_wins() {
    let mut context = Context::new();
    context.set("k", JsonValue::Bool(true));
    assert_eq!(context.get_sync("k"), Some(JsonValue::Bool(true)));
    context.set_sync("k", text("second"));
    assert_eq!(context.get("k"), Some(text("second")));
}

#[test]
fn remove_and_clear_leave_history_alone() {
    let mut context = Context::new();
    context.set("x", JsonValue::Null);
    context.set("y", text("z"));
    context.add_user_message("hi".to_string());
    assert_eq!(context.remove("x"), Some(JsonValue::Null));
    assert_eq!(context.remove("x"), None);
    assert_eq!(context.get("y"), Some(text("z")));
    context.clear();
    assert_eq!(context.get("y"), None);
    assert_eq!(context.chat_history_len(), 1);
    context.clear_chat_history();
    assert_eq!(context.chat_history_len(), 0);
}

#[test]
fn history_bound_keeps_latest_three_of_five() {
    let mut context = Context::with_max_chat_messages(3);
    for m in ["m1", "m2", "m3", "m4", "m5"] {
        context.add_user_message(m.to_string());
        assert!(context.chat_history_len() <= 3);
    }
    let contents: Vec<String> = context.get_all_messages().into_iter().map(|m| m.content).collect();
    assert_eq!(contents, vec!["m3", "m4", "m5"]);
}

#[test]
fn adding_to_full_history_evicts_only_oldest() {
    let mut history = ChatHistory::with_max_messages(2);
    history.add_message_at(MessageRole::User, "a".to_string(), at(1));
    history.add_message_at(MessageRole::User, "b".to_string(), at(2));
    history.add_message_at(MessageRole::Assistant, "c".to_string(), at(3));
    let contents: Vec<&str> = history.messages().iter().map(|m| m.content.as_str()).collect();
    assert_eq!(contents, vec!["b", "c"]);
}

#[test]
fn zero_bound_keeps_no_message() {
    let mut history = ChatHistory::with_max_messages(0);
    history.add_user_message("gone".to_string());
    assert!(history.is_empty());
}

#[test]
fn default_bound_is_one_thousand() {
    assert_eq!(ChatHistory::new().max_messages(), Some(DEFAULT_MAX_MESSAGES));
    assert_eq!(DEFAULT_MAX_MESSAGES, 1000);
    let context = Context::new();
    assert_eq!(context.get_chat_history().max_messages(), Some(1000));
}

#[test]
fn timestamps_never_go_backwards() {
    let mut history = ChatHistory::new();
    history.add_message_at(MessageRole::User, "late".to_string(), Timestamp { seconds: 100, nanos: 5 });
    history.add_message_at(MessageRole::User, "early clock".to_string(), at(50));
    history.add_message_at(MessageRole::User, "later".to_string(), at(200));
    let stamps: Vec<Timestamp> = history.messages().iter().map(|m| m.timestamp).collect();
    assert_eq!(stamps, vec![Timestamp { seconds: 100, nanos: 5 }, Timestamp { seconds: 100, nanos: 5 }, at(200)]);
}

#[test]
fn last_messages_with_more_than_held() {
    let mut history = ChatHistory::new();
    history.add_system_message("only".to_string());
    assert_eq!(history.last_messages(5).len(), 1);
    assert_eq!(history.last_messages(0).len(), 0);
    assert_eq!(history.messages()[0].role, MessageRole::System);
}

#[test]
fn from_parts_drops_oldest_beyond_bound() {
    let messages = vec![
        SerializableMessage::at(MessageRole::User, "1".to_string(), at(1)),
        SerializableMessage::at(MessageRole::User, "2".to_string(), at(2)),
        SerializableMessage::at(MessageRole::User, "3".to_string(), at(3)),
    ];
    let history = ChatHistory::from_parts(messages, Some(2));
    assert_eq!(history.len(), 2);
    assert_eq!(history.messages()[0].content, "2");
}

#[test]
fn message_constructors_set_role_and_content() {
    let msg = SerializableMessage::user("test content".to_string());
    assert_eq!(msg.role, MessageRole::User);
    assert_eq!(msg.content, "test content");
    assert!(msg.timestamp.nanos < 1_000_000_000);
    assert!(msg.timestamp.seconds > 1_600_000_000);
    assert_eq!(SerializableMessage::assistant("a".to_string()).role, MessageRole::Assistant);
    assert_eq!(SerializableMessage::system("s".to_string()).role, MessageRole::System);
}

#[test]
fn duplicate_is_independent() {
    let mut context = Context::new();
    context.set("k", text("v"));
    let mut copy = context.duplicate();
    copy.set("k", text("changed"));
    assert_eq!(context.get("k"), Some(text("v")));
    assert_eq!(copy.get("k"), Some(text("changed")));
}

#[test]
fn later_of_picks_the_later_time() {
    assert_eq!(at(1).later_of(at(2)), at(2));
    assert_eq!(at(3).later_of(at(2)), at(3));
    let a = Timestamp { seconds: 5, nanos: 9 };
    assert_eq!(a.later_of(Timestamp { seconds: 5, nanos: 1 }), a);
}

#[test]
fn json_value_predicates() {
    assert!(JsonValue::Bool(true).is_true());
    assert!(!JsonValue::Bool(false).is_true());
    assert!(!text("true").is_true());
    assert!(text("car").is_text(&"car".to_string()));
    assert!(!text("car").is_text(&"apartment".to_string()));
    assert!(!JsonValue::Null.is_text(&"".to_string()));
    assert_eq!(JsonValue::Object("{}".to_string()).clone(), JsonValue::Object("{}".to_string()));
}

#[test]
fn test_serializable_message() {
    let msg = SerializableMessage::user("test content".to_string());
    assert_eq!(msg.role, MessageRole::User);
    assert_eq!(msg.content, "test content");

    let restored = SerializableMessage::at(msg.role, msg.content.clone(), msg.timestamp);
    assert_eq!(msg.role, restored.role);
    assert_eq!(msg.content, restored.content);
    assert_eq!(msg.timestamp, restored.timestamp);
}

#[test]
fn test_chat_history_serialization() {
    let mut history = ChatHistory::new();
    history.add_user_message("Hello".to_string());
    history.add_assistant_message("Hi!".to_string());

    let laid_out = history.messages().to_vec();
    let restored = ChatHistory::from_parts(laid_out, history.max_messages());

    assert_eq!(restored.len(), 2);
    assert_eq!(restored.messages()[0].content, "Hello");
    assert_eq!(restored.messages()[1].content, "Hi!");
}
