use emotion_chat::context::build_context_prompt;
use emotion_chat::message::{Message, MessageRole};

fn message(role: MessageRole, content: &str, timestamp: i64) -> Message {
    Message {
        role,
        content: content.to_string(),
        timestamp,
        emotion: None,
    }
}

#[test]
fn test_build_context_prompt_empty() {
    let context = build_context_prompt(&Vec::new());
    assert!(context.contains("new conversation"));
}

#[test]
fn test_build_context_prompt_with_messages() {
    let messages = vec![
        message(MessageRole::User, "Hello", 1),
        message(MessageRole::Assistant, "Hi there!", 2),
    ];

    let context = build_context_prompt(&messages);
    assert!(context.contains("User: Hello"));
    assert!(context.contains("Assistant: Hi there!"));
}

#[test]
fn test_build_context_prompt_empty_exact() {
    let context = build_context_prompt(&Vec::new());
    assert_eq!(context, "This is a new conversation.");
}

#[test]
fn test_build_context_prompt_seven_messages() {
    let mut messages = Vec::new();
    for k in 1..=7i64 {
        let role = if k % 2 == 1 { MessageRole::User } else { MessageRole::Assistant };
        messages.push(message(role, &format!("turn {}", k), k));
    }

    let context = build_context_prompt(&messages);
    let expected = "Recent conversation:\n\
                    User: turn 3\n\
                    Assistant: turn 4\n\
                    User: turn 5\n\
                    Assistant: turn 6\n\
                    User: turn 7\n";
    assert_eq!(context, expected);
    assert!(!context.contains("turn 1"));
    assert!(!context.contains("turn 2"));
}

#[test]
fn test_build_context_prompt_exactly_five() {
    let messages = vec![
        message(MessageRole::User, "a", 1),
        message(MessageRole::Assistant, "b", 2),
        message(MessageRole::User, "c", 3),
        message(MessageRole::Assistant, "d", 4),
        message(MessageRole::User, "e", 5),
    ];

    let context = build_context_prompt(&messages);
    assert_eq!(
        context,
        "Recent conversation:\nUser: a\nAssistant: b\nUser: c\nAssistant: d\nUser: e\n"
    );
}
