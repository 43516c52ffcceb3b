use operit::commands::chat::{
    guess_mime_type, nonBlankString, parse_bool_arg, parse_branch_args,
    parse_chat_bool_update_args, parse_chat_new_args, parse_chat_send_args,
    print_chat_history_header,
};
use operit::commands::local_models::optional_timestamp;
use operit::model::{functionTypeName, functionTypes, parseFunctionType, ChatEntity, ChatHistory, FunctionType};
use operit::output::CoreCommandOutput;

fn args(items: &[&str]) -> Vec<String> {
    items.iter().map(|s| s.to_string()).collect()
}

#[test]
fn function_type_names_round_trip() {
    let all = functionTypes();
    assert_eq!(all.len(), 11);
    for f in &all {
        assert_eq!(&parseFunctionType(functionTypeName(f)).unwrap(), f);
    }
    assert_eq!(all[0], FunctionType::CHAT);
    assert_eq!(parseFunctionType("chat").unwrap_err(), "invalid FunctionType: chat");
}

#[test]
fn new_chat_entity_orders_newest_first() {
    let entity = ChatEntity::new("c1".to_string(), "Title".to_string(), 1_700_000_000_000);
    assert_eq!(entity.createdAt, 1_700_000_000_000);
    assert_eq!(entity.updatedAt, 1_700_000_000_000);
    assert_eq!(entity.displayOrder, -1_700_000_000_000);
    assert_eq!(entity.inputTokens, 0);
    assert!(!entity.locked && !entity.pinned);
    assert!(entity.group.is_none());
}

#[test]
fn chat_entity_round_trips_through_history() {
    let mut entity = ChatEntity::new("c1".to_string(), "Title".to_string(), 42);
    entity.group = Some("work".to_string());
    entity.updatedAt = -7;
    entity.pinned = true;
    let history: ChatHistory<u8> = entity.toChatHistory(vec![1, 2]);
    assert_eq!(history.createdAt, "42");
    assert_eq!(history.updatedAt, "-7");
    assert_eq!(history.messages, vec![1, 2]);
    let back = ChatEntity::fromChatHistory(&history);
    assert_eq!(back, entity);
}

#[test]
fn history_header_lists_fields() {
    let entity = ChatEntity::new("c1".to_string(), "Hello".to_string(), 5);
    let history: ChatHistory<u8> = entity.toChatHistory(vec![]);
    let mut out = CoreCommandOutput::new();
    print_chat_history_header(&history, &mut out);
    assert!(out.stdout.starts_with("id=c1\ntitle=Hello\ncreatedAt=5\nupdatedAt=5\n"));
    assert!(out.stdout.contains("displayOrder=-5\n"));
    assert!(out.stdout.contains("group=\n"));
}

#[test]
fn chat_new_reads_optional_flags() {
    let (card, group_card, group) =
        parse_chat_new_args(&args(&["--character", "Alice", "--group", "  "])).unwrap();
    assert_eq!(card.as_deref(), Some("Alice"));
    assert!(group_card.is_none());
    assert!(group.is_none());
    assert_eq!(
        parse_chat_new_args(&args(&["--bogus"])).unwrap_err(),
        "usage: operit2 chat new [--character <character-card-name>] [--group-card <character-group-id>] [--group <group-name>]"
    );
}

#[test]
fn chat_branch_reads_timestamp() {
    assert_eq!(parse_branch_args(&args(&[])).unwrap(), None);
    assert_eq!(parse_branch_args(&args(&["--up-to", "123"])).unwrap(), Some(123));
    assert_eq!(
        parse_branch_args(&args(&["--up-to"])).unwrap_err(),
        "usage: operit2 chat branch [--up-to <message-timestamp>]"
    );
    assert_eq!(
        parse_branch_args(&args(&["--up-to", "x"])).unwrap_err(),
        "invalid digit found in string"
    );
}

#[test]
fn chat_send_joins_message_words() {
    let parsed = parse_chat_send_args(&args(&[
        "hello", "--chat", "c1", "--attach", "a.png", "world", "--reply-to", "9",
    ]))
    .unwrap();
    assert_eq!(parsed.chatId.as_deref(), Some("c1"));
    assert_eq!(parsed.message, "hello world");
    assert_eq!(parsed.attachmentPaths, vec!["a.png".to_string()]);
    assert_eq!(parsed.replyToTimestamp, Some(9));
    assert_eq!(
        parse_chat_send_args(&args(&["--reply-to", "soon", "hi"])).unwrap_err(),
        "reply-to must be a message timestamp"
    );
    assert!(parse_chat_send_args(&args(&["--chat", "c1"])).is_err());
    assert!(parse_chat_send_args(&args(&[])).is_err());
}

#[test]
fn chat_bool_words() {
    assert_eq!(parse_bool_arg(" Pinned "), Some(true));
    assert_eq!(parse_bool_arg("unlock"), Some(false));
    assert_eq!(parse_bool_arg("maybe"), None);
    assert_eq!(
        parse_chat_bool_update_args(&args(&["c1", "yes"]), "lock").unwrap(),
        ("c1".to_string(), true)
    );
    assert_eq!(
        parse_chat_bool_update_args(&args(&["c1", "maybe"]), "pin").unwrap_err(),
        "usage: operit2 chat pin <chat-id> <true|false>"
    );
}

#[test]
fn mime_types_follow_extension() {
    assert_eq!(guess_mime_type("notes/README.MD"), "text/plain");
    assert_eq!(guess_mime_type("photo.JPEG"), "image/jpeg");
    assert_eq!(guess_mime_type("clip.mp4"), "video/mp4");
    assert_eq!(guess_mime_type("archive"), "application/octet-stream");
    assert_eq!(guess_mime_type(".bashrc"), "application/octet-stream");
}

#[test]
fn blank_strings_become_none() {
    assert_eq!(nonBlankString("  x ".to_string()).as_deref(), Some("x"));
    assert_eq!(nonBlankString(" \t".to_string()), None);
}

#[test]
fn optional_timestamps_mark_unverified_models() {
    assert_eq!(optional_timestamp(Some(12)), "12");
    assert_eq!(optional_timestamp(None), "not-verified");
}

#[test]
fn chat_rows_list_fields_with_tabs() {
    let mut entity = ChatEntity::new("c1".to_string(), "Title".to_string(), 3);
    entity.characterCardName = Some("Alice".to_string());
    entity.pinned = true;
    let history: ChatHistory<u8> = entity.toChatHistory(vec![]);
    let mut out = CoreCommandOutput::new();
    operit::commands::chat::print_chat_list_row(&history, &mut out);
    operit::commands::chat::print_chat_branch_row(&history, &mut out);
    assert_eq!(
        out.stdout,
        "c1\tTitle\t3\t3\t\t0\t0\tAlice\t\tfalse\ttrue\nc1\tTitle\t3\t3\tfalse\ttrue\n"
    );
}
