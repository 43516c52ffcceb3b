use operit::commands::chat::{print_chat_message, print_chat_send_result};
use operit::model::{
    displayModeName, parseDisplayMode, ChatMessage, ChatMessageDisplayMode, MessageEntity,
};
use operit::output::CoreCommandOutput;

fn stored_message(display_mode: &str) -> MessageEntity {
    MessageEntity {
        messageId: 42,
        chatId: "chat-1".to_string(),
        sender: "ai".to_string(),
        timestamp: 1_700_000_000_000,
        orderIndex: 3,
        roleName: "Helper".to_string(),
        selectedVariantIndex: 0,
        provider: "openai".to_string(),
        modelName: "gpt".to_string(),
        inputTokens: 10,
        outputTokens: 20,
        cachedInputTokens: 5,
        sentAt: 1_700_000_000_100,
        outputDurationMs: 900,
        waitDurationMs: 100,
        completedAt: 1_700_000_001_000,
        completedExecutionGeneration: 2,
        displayMode: display_mode.to_string(),
        isFavorite: true,
    }
}

#[test]
fn display_mode_names_round_trip() {
    for mode in [ChatMessageDisplayMode::NORMAL, ChatMessageDisplayMode::HIDDEN_PLACEHOLDER] {
        assert_eq!(parseDisplayMode(&displayModeName(mode)), Some(mode));
        assert_eq!(displayModeName(mode), format!("{:?}", mode));
    }
    assert_eq!(parseDisplayMode("normal"), None);
}

#[test]
fn stored_message_round_trips_through_runtime_form() {
    let entity = stored_message("HIDDEN_PLACEHOLDER");
    let message: ChatMessage<String, ()> = entity.toChatMessage(vec!["part-0".to_string()]);
    assert_eq!(message.parts, vec!["part-0".to_string()]);
    assert_eq!(message.variantCount, 1);
    assert_eq!(message.displayMode, ChatMessageDisplayMode::HIDDEN_PLACEHOLDER);
    assert!(!message.isVariantPreview);
    assert!(message.contentStream.is_none());
    let back = MessageEntity::fromChatMessage(entity.chatId.clone(), message, entity.orderIndex, entity.messageId);
    assert_eq!(back, entity);
}

#[test]
fn chat_message_lines_name_every_field() {
    let message: ChatMessage<String, ()> = stored_message("NORMAL").toChatMessage(vec![]);
    let mut output = CoreCommandOutput::new();
    print_chat_message(&message, "Hello there", &mut output);
    let lines: Vec<&str> = output.stdout.lines().collect();
    assert_eq!(lines.len(), 18);
    assert_eq!(lines[0], "--- message ---");
    assert_eq!(lines[1], "sender=ai");
    assert_eq!(lines[2], "timestamp=1700000000000");
    assert_eq!(lines[5], "variantCount=1");
    assert_eq!(lines[15], "displayMode=NORMAL");
    assert_eq!(lines[16], "isFavorite=true");
    assert_eq!(lines[17], "content=Hello there");
    assert!(output.stderr.is_empty());
}

#[test]
fn chat_send_result_reports_usage_on_stderr() {
    let message: ChatMessage<String, ()> = stored_message("NORMAL").toChatMessage(vec![]);
    let mut output = CoreCommandOutput::new();
    print_chat_send_result("chat-1", &message, "Hi!", &mut output);
    assert_eq!(output.stdout, "Hi!\n");
    assert_eq!(
        output.stderr,
        "chat=chat-1 provider=openai modelName=gpt inputTokens=10 cachedInputTokens=5 outputTokens=20\n"
    );
}
