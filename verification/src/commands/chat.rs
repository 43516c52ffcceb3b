//! The `chat` command: argument grammars and the text it prints.
use vstd::prelude::*;
use crate::model::opt_view;
use crate::num::{int_error_message, int_error_text, parse_i64, parse_int};
use crate::output::{line, CoreCommandOutput};
use crate::path::{extension, path_extension};
use crate::model::{display_mode_name, displayModeName, ChatHistory, ChatMessage};
use crate::num::{decimal, i64_to_string};
use crate::text::{
    ascii_lower_seq, join, join_strings, non_blank, str_eq, to_ascii_lowercase, trim, trim_string,
    views,
};

verus! {

/// The argument at position `j`, if present.
pub open spec fn arg_at(a: Seq<Seq<char>>, j: int) -> Option<Seq<char>> {
    if 0 <= j < a.len() {
        Some(a[j])
    } else {
        None
    }
}

/// The non-blank trimmed argument at position `j`, if present.
pub open spec fn non_blank_at(a: Seq<Seq<char>>, j: int) -> Option<Seq<char>> {
    match arg_at(a, j) {
        Some(s) => non_blank(s),
        None => None,
    }
}

/// Returns the trimmed text of a value unless it is blank.
pub fn nonBlankString(value: String) -> (r: Option<String>)
    ensures
        opt_view(r) == non_blank(value@),
{
    let trimmed = trim_string(value.as_str());
    if trimmed.as_str().is_empty() {
        None
    } else {
        Some(trimmed)
    }
}

/// `args.get(j).cloned().and_then(nonBlankString)`.
fn non_blank_arg(args: &[String], j: usize) -> (r: Option<String>)
    ensures
        opt_view(r) == non_blank_at(views(args@), j as int),
{
    if j < args.len() {
        nonBlankString(args[j].clone())
    } else {
        None
    }
}

/// The flag words the `lock` and `pin` commands accept, case-insensitively.
pub open spec fn chat_bool_word(s: Seq<char>) -> Option<bool> {
    let w = ascii_lower_seq(trim(s));
    if w == "true"@ || w == "1"@ || w == "yes"@ || w == "on"@ || w == "lock"@ || w == "locked"@
        || w == "pin"@ || w == "pinned"@ {
        Some(true)
    } else if w == "false"@ || w == "0"@ || w == "no"@ || w == "off"@ || w == "unlock"@
        || w == "unlocked"@ || w == "unpin"@ || w == "unpinned"@ {
        Some(false)
    } else {
        None
    }
}

/// Reads a boolean flag word.
pub fn parse_bool_arg(value: &str) -> (r: Option<bool>)
    ensures
        r == chat_bool_word(value@),
{
    let t = trim_string(value);
    let w = to_ascii_lowercase(t.as_str());
    let w = w.as_str();
    if str_eq(w, "true") || str_eq(w, "1") || str_eq(w, "yes") || str_eq(w, "on") || str_eq(w, "lock")
        || str_eq(w, "locked") || str_eq(w, "pin") || str_eq(w, "pinned") {
        Some(true)
    } else if str_eq(w, "false") || str_eq(w, "0") || str_eq(w, "no") || str_eq(w, "off")
        || str_eq(w, "unlock") || str_eq(w, "unlocked") || str_eq(w, "unpin") || str_eq(w, "unpinned") {
        Some(false)
    } else {
        None
    }
}

/// Usage text of `chat new`.
pub open spec fn chat_new_usage() -> Seq<char> {
    "usage: operit2 chat new [--character <character-card-name>] [--group-card <character-group-id>] [--group <group-name>]"@
}

/// The options of `chat new` read from position `i` on: each option word
/// takes the next argument as its (non-blank) value; any other word is refused.
pub open spec fn chat_new_from(
    a: Seq<Seq<char>>,
    i: int,
    card: Option<Seq<char>>,
    group_card: Option<Seq<char>>,
    group: Option<Seq<char>>,
) -> Result<(Option<Seq<char>>, Option<Seq<char>>, Option<Seq<char>>), ()>
    decreases a.len() + 2 - i,
{
    if i < 0 || i >= a.len() {
        Ok((card, group_card, group))
    } else if a[i] == "--character"@ {
        chat_new_from(a, i + 2, non_blank_at(a, i + 1), group_card, group)
    } else if a[i] == "--group-card"@ {
        chat_new_from(a, i + 2, card, non_blank_at(a, i + 1), group)
    } else if a[i] == "--group"@ {
        chat_new_from(a, i + 2, card, group_card, non_blank_at(a, i + 1))
    } else {
        Err(())
    }
}

/// Parses the options of `chat new`: character card, group card and group.
pub fn parse_chat_new_args(args: &[String]) -> (r: Result<(Option<String>, Option<String>, Option<String>), String>)
    ensures
        match r {
            Ok((c, gc, g)) => chat_new_from(views(args@), 0, None, None, None)
                == Ok::<_, ()>((opt_view(c), opt_view(gc), opt_view(g))),
            Err(e) => chat_new_from(views(args@), 0, None, None, None) is Err && e@ == chat_new_usage(),
        },
{
    let ghost a = views(args@);
    let mut card: Option<String> = None;
    let mut group_card: Option<String> = None;
    let mut group: Option<String> = None;
    let mut index: usize = 0;
    while index < args.len()
        invariant
            a == views(args@),
            index <= args.len() + 1,
            chat_new_from(a, 0, None, None, None)
                == chat_new_from(a, index as int, opt_view(card), opt_view(group_card), opt_view(group)),
        decreases args.len() + 1 - index,
    {
        let word = args[index].as_str();
        assert(a[index as int] == word@);
        if str_eq(word, "--character") {
            card = non_blank_arg(args, index + 1);
        } else if str_eq(word, "--group-card") {
            group_card = non_blank_arg(args, index + 1);
        } else if str_eq(word, "--group") {
            group = non_blank_arg(args, index + 1);
        } else {
            return Err(String::from_str("usage: operit2 chat new [--character <character-card-name>] [--group-card <character-group-id>] [--group <group-name>]"));
        }
        if index + 1 < args.len() {
            index = index + 2;
        } else {
            assert(chat_new_from(a, index + 2, opt_view(card), opt_view(group_card), opt_view(group))
                == Ok::<_, ()>((opt_view(card), opt_view(group_card), opt_view(group))));
            index = args.len();
        }
    }
    Ok((card, group_card, group))
}

/// Usage text of `chat branch`.
pub open spec fn chat_branch_usage() -> Seq<char> {
    "usage: operit2 chat branch [--up-to <message-timestamp>]"@
}

/// The `--up-to` timestamp of `chat branch` read from position `i` on.
pub open spec fn branch_from(a: Seq<Seq<char>>, i: int, up_to: Option<int>) -> Result<Option<int>, Seq<char>>
    decreases a.len() + 2 - i,
{
    if i < 0 || i >= a.len() {
        Ok(up_to)
    } else if a[i] == "--up-to"@ {
        if i + 1 >= a.len() {
            Err(chat_branch_usage())
        } else {
            match parse_int(a[i + 1], i64::MIN as int, i64::MAX as int, true) {
                Ok(v) => branch_from(a, i + 2, Some(v)),
                Err(k) => Err(int_error_message(k)),
            }
        }
    } else {
        Err(chat_branch_usage())
    }
}

/// The integer value of an optional `i64`.
pub open spec fn opt_int(o: Option<i64>) -> Option<int> {
    match o {
        Some(v) => Some(v as int),
        None => None,
    }
}

/// Parses the optional `--up-to <message-timestamp>` of `chat branch`.
pub fn parse_branch_args(args: &[String]) -> (r: Result<Option<i64>, String>)
    ensures
        match r {
            Ok(v) => branch_from(views(args@), 0, None) == Ok::<_, Seq<char>>(opt_int(v)),
            Err(e) => branch_from(views(args@), 0, None) == Err::<Option<int>, _>(e@),
        },
{
    let ghost a = views(args@);
    let mut up_to: Option<i64> = None;
    let mut index: usize = 0;
    while index < args.len()
        invariant
            a == views(args@),
            index <= args.len() + 1,
            branch_from(a, 0, None) == branch_from(a, index as int, opt_int(up_to)),
        decreases args.len() + 1 - index,
    {
        assert(a[index as int] == args@[index as int]@);
        if str_eq(args[index].as_str(), "--up-to") {
            if index + 1 >= args.len() {
                return Err(String::from_str("usage: operit2 chat branch [--up-to <message-timestamp>]"));
            }
            assert(a[index + 1] == args@[index + 1]@);
            match parse_i64(args[index + 1].as_str()) {
                Ok(v) => {
                    up_to = Some(v);
                },
                Err(k) => {
                    return Err(int_error_text(k));
                },
            }
        } else {
            return Err(String::from_str("usage: operit2 chat branch [--up-to <message-timestamp>]"));
        }
        index = index + 2;
    }
    Ok(up_to)
}

/// Usage text of `chat lock` and `chat pin`.
pub open spec fn chat_bool_usage(command: Seq<char>) -> Seq<char> {
    "usage: operit2 chat "@ + command + " <chat-id> <true|false>"@
}

/// Parses `<chat-id> <true|false>` for `chat lock` and `chat pin`.
pub fn parse_chat_bool_update_args(args: &[String], command: &str) -> (r: Result<(String, bool), String>)
    ensures
        match r {
            Ok((id, b)) => args.len() >= 2 && id@ == args@[0]@ && chat_bool_word(args@[1]@) == Some(b),
            Err(e) => e@ == chat_bool_usage(command@) && (args.len() < 2 || chat_bool_word(args@[1]@) is None),
        },
{
    let mut usage = String::from_str("usage: operit2 chat ");
    usage.append(command);
    usage.append(" <chat-id> <true|false>");
    if args.len() < 2 {
        return Err(usage);
    }
    let chatId = args[0].clone();
    match parse_bool_arg(args[1].as_str()) {
        Some(b) => Ok((chatId, b)),
        None => Err(usage),
    }
}


/// Usage text of `chat send`.
pub open spec fn chat_send_usage() -> Seq<char> {
    "usage: operit2 chat send [--chat <chat-id>] [--attachment <path>] [--reply-to <timestamp>] <message>"@
}

/// What `chat send` reads: target chat, attachments, reply target and the
/// words of the message.
pub struct SendState {
    pub chat: Option<Seq<char>>,
    pub attachments: Seq<Seq<char>>,
    pub reply: Option<int>,
    pub words: Seq<Seq<char>>,
}

/// The options and words of `chat send` read from position `i` on.
pub open spec fn send_from(a: Seq<Seq<char>>, i: int, st: SendState) -> Result<SendState, Seq<char>>
    decreases a.len() + 2 - i,
{
    if i < 0 || i >= a.len() {
        Ok(st)
    } else if a[i] == "--chat"@ {
        if i + 1 >= a.len() {
            Err(chat_send_usage())
        } else {
            send_from(a, i + 2, SendState { chat: Some(a[i + 1]), ..st })
        }
    } else if a[i] == "--attachment"@ || a[i] == "--attach"@ {
        if i + 1 >= a.len() {
            Err(chat_send_usage())
        } else {
            send_from(a, i + 2, SendState { attachments: st.attachments.push(a[i + 1]), ..st })
        }
    } else if a[i] == "--reply-to"@ {
        if i + 1 >= a.len() {
            Err(chat_send_usage())
        } else {
            match parse_int(a[i + 1], i64::MIN as int, i64::MAX as int, true) {
                Ok(v) => send_from(a, i + 2, SendState { reply: Some(v), ..st }),
                Err(_) => Err("reply-to must be a message timestamp"@),
            }
        }
    } else {
        send_from(a, i + 1, SendState { words: st.words.push(a[i]), ..st })
    }
}

/// The start state of `chat send`.
pub open spec fn send_start() -> SendState {
    SendState { chat: None, attachments: Seq::empty(), reply: None, words: Seq::empty() }
}

/// The complete reading of `chat send`: at least one word must remain for
/// the message.
pub open spec fn chat_send_spec(a: Seq<Seq<char>>) -> Result<SendState, Seq<char>> {
    if a.len() == 0 {
        Err(chat_send_usage())
    } else {
        match send_from(a, 0, send_start()) {
            Err(e) => Err(e),
            Ok(st) => if st.words.len() == 0 { Err(chat_send_usage()) } else { Ok(st) },
        }
    }
}

/// The parsed arguments of `chat send`.
#[derive(Clone, Debug)]
pub struct ChatSendArgs {
    pub chatId: Option<String>,
    pub message: String,
    pub attachmentPaths: Vec<String>,
    pub replyToTimestamp: Option<i64>,
}

/// Parses `chat send [--chat <id>] [--attachment <path>] [--reply-to <ts>] <message>`;
/// the message is every other word, joined by single spaces.
pub fn parse_chat_send_args(args: &[String]) -> (r: Result<ChatSendArgs, String>)
    ensures
        match r {
            Ok(sa) => chat_send_spec(views(args@)) matches Ok(st)
                && opt_view(sa.chatId) == st.chat
                && views(sa.attachmentPaths@) == st.attachments
                && opt_int(sa.replyToTimestamp) == st.reply
                && sa.message@ == join(st.words, seq![' ']),
            Err(e) => chat_send_spec(views(args@)) == Err::<SendState, _>(e@),
        },
{
    if args.len() == 0 {
        return Err(String::from_str("usage: operit2 chat send [--chat <chat-id>] [--attachment <path>] [--reply-to <timestamp>] <message>"));
    }
    let ghost a = views(args@);
    let mut chat: Option<String> = None;
    let mut attachments: Vec<String> = Vec::new();
    let mut reply: Option<i64> = None;
    let mut words: Vec<String> = Vec::new();
    let mut index: usize = 0;
    assert(views(attachments@) =~= Seq::<Seq<char>>::empty());
    assert(views(words@) =~= Seq::<Seq<char>>::empty());
    while index < args.len()
        invariant
            a == views(args@),
            a.len() == args.len(),
            index <= args.len(),
            send_from(a, 0, send_start()) == send_from(a, index as int, SendState {
                chat: opt_view(chat),
                attachments: views(attachments@),
                reply: opt_int(reply),
                words: views(words@),
            }),
        decreases args.len() - index,
    {
        proof {
            reveal_strlit("--chat");
            reveal_strlit("--attachment");
            reveal_strlit("--attach");
            reveal_strlit("--reply-to");
            assert("--chat"@.len() == 6);
            assert("--attachment"@.len() == 12);
            assert("--attach"@.len() == 8);
            assert("--reply-to"@.len() == 10);
        }
        let word = args[index].as_str();
        assert(a[index as int] == word@);
        let ghost st = SendState {
            chat: opt_view(chat),
            attachments: views(attachments@),
            reply: opt_int(reply),
            words: views(words@),
        };
        if str_eq(word, "--chat") || str_eq(word, "--attachment") || str_eq(word, "--attach") || str_eq(word, "--reply-to") {
            if index + 1 >= args.len() {
                return Err(String::from_str("usage: operit2 chat send [--chat <chat-id>] [--attachment <path>] [--reply-to <timestamp>] <message>"));
            }
            let value = &args[index + 1];
            assert(a[index + 1] == value@);
            if str_eq(word, "--chat") {
                chat = Some(value.clone());
                assert(send_from(a, index as int, st) == send_from(a, index + 2, SendState { chat: Some(value@), ..st }));
            } else if str_eq(word, "--reply-to") {
                match parse_i64(value.as_str()) {
                    Ok(v) => {
                        reply = Some(v);
                    },
                    Err(_) => {
                        assert(send_from(a, index as int, st) == Err::<SendState, Seq<char>>("reply-to must be a message timestamp"@));
                        return Err(String::from_str("reply-to must be a message timestamp"));
                    },
                }
            } else {
                let ghost before = attachments@;
                attachments.push(value.clone());
                assert(views(attachments@) =~= views(before).push(value@));
            }
            index = index + 2;
        } else {
            let ghost before = words@;
            words.push(args[index].clone());
            assert(views(words@) =~= views(before).push(word@));
            index = index + 1;
        }
    }
    let ghost fin = SendState {
        chat: opt_view(chat),
        attachments: views(attachments@),
        reply: opt_int(reply),
        words: views(words@),
    };
    assert(send_from(a, index as int, fin) == Ok::<SendState, Seq<char>>(fin));
    if words.len() == 0 {
        return Err(String::from_str("usage: operit2 chat send [--chat <chat-id>] [--attachment <path>] [--reply-to <timestamp>] <message>"));
    }
    let message = join_strings(&words, " ");
    proof {
        reveal_strlit(" ");
        assert(" "@ =~= seq![' ']);
        assert(chat_send_spec(a) == Ok::<SendState, Seq<char>>(fin));
    }
    Ok(ChatSendArgs { chatId: chat, message, attachmentPaths: attachments, replyToTimestamp: reply })
}


/// The lines `chat` prints when it is used without a known subcommand.
pub open spec fn chat_usage_text() -> Seq<char> {
    line("operit2 chat new [--character <character-card-name>] [--group-card <character-group-id>] [--group <group-name>]"@)
        + line("operit2 chat list"@)
        + line("operit2 chat show <chat-id> [--runtime]"@)
        + line("operit2 chat current"@)
        + line("operit2 chat switch <chat-id>"@)
        + line("operit2 chat delete <chat-id>"@)
        + line("operit2 chat delete-message <index>"@)
        + line("operit2 chat clear"@)
        + line("operit2 chat rollback <message-index>"@)
        + line("operit2 chat branch [--up-to <message-timestamp>]"@)
        + line("operit2 chat branches [parent-chat-id]"@)
        + line("operit2 chat lock <chat-id> <true|false>"@)
        + line("operit2 chat pin <chat-id> <true|false>"@)
        + line("operit2 chat stats"@)
        + line("operit2 chat bind-character <chat-id> <character-card-name>"@)
        + line("operit2 chat bind-group <chat-id> <character-group-id>"@)
        + line("operit2 chat set-group <chat-id> <group-name>"@)
        + line("operit2 chat send [--chat <chat-id>] <message>"@)
}

/// Prints chat command usage.
pub fn print_chat_usage(output: &mut CoreCommandOutput)
    ensures
        final(output).stdout@ == old(output).stdout@ + chat_usage_text(),
        final(output).stderr@ == old(output).stderr@,
{
    output.push_stdout_line("operit2 chat new [--character <character-card-name>] [--group-card <character-group-id>] [--group <group-name>]");
    output.push_stdout_line("operit2 chat list");
    output.push_stdout_line("operit2 chat show <chat-id> [--runtime]");
    output.push_stdout_line("operit2 chat current");
    output.push_stdout_line("operit2 chat switch <chat-id>");
    output.push_stdout_line("operit2 chat delete <chat-id>");
    output.push_stdout_line("operit2 chat delete-message <index>");
    output.push_stdout_line("operit2 chat clear");
    output.push_stdout_line("operit2 chat rollback <message-index>");
    output.push_stdout_line("operit2 chat branch [--up-to <message-timestamp>]");
    output.push_stdout_line("operit2 chat branches [parent-chat-id]");
    output.push_stdout_line("operit2 chat lock <chat-id> <true|false>");
    output.push_stdout_line("operit2 chat pin <chat-id> <true|false>");
    output.push_stdout_line("operit2 chat stats");
    output.push_stdout_line("operit2 chat bind-character <chat-id> <character-card-name>");
    output.push_stdout_line("operit2 chat bind-group <chat-id> <character-group-id>");
    output.push_stdout_line("operit2 chat set-group <chat-id> <group-name>");
    output.push_stdout_line("operit2 chat send [--chat <chat-id>] <message>");
    assert(output.stdout@ =~= old(output).stdout@ + chat_usage_text());
}

/// The MIME type a lower-cased file extension maps to.
pub open spec fn mime_for(ext: Option<Seq<char>>) -> Seq<char> {
    match ext {
        None => "application/octet-stream"@,
        Some(e) => if e == "txt"@ || e == "md"@ || e == "rs"@ || e == "kt"@ || e == "json"@ || e == "toml"@ {
            "text/plain"@
        } else if e == "png"@ {
            "image/png"@
        } else if e == "jpg"@ || e == "jpeg"@ {
            "image/jpeg"@
        } else if e == "webp"@ {
            "image/webp"@
        } else if e == "gif"@ {
            "image/gif"@
        } else if e == "bmp"@ {
            "image/bmp"@
        } else if e == "mp3"@ {
            "audio/mpeg"@
        } else if e == "wav"@ {
            "audio/wav"@
        } else if e == "mp4"@ {
            "video/mp4"@
        } else {
            "application/octet-stream"@
        },
    }
}

/// Each image extension (compared lower-cased) gives its own image type:
/// `png`, `webp`, `gif` and `bmp` give `image/<ext>`, `jpg` and `jpeg` give
/// `image/jpeg`; a path without an extension gives
/// `application/octet-stream`.
pub proof fn law_image_extensions_give_image_types(p: Seq<char>)
    ensures
        lower_extension(p) == Some("png"@) ==> mime_for(lower_extension(p)) == "image/"@ + "png"@,
        lower_extension(p) == Some("webp"@) ==> mime_for(lower_extension(p)) == "image/"@ + "webp"@,
        lower_extension(p) == Some("gif"@) ==> mime_for(lower_extension(p)) == "image/"@ + "gif"@,
        lower_extension(p) == Some("bmp"@) ==> mime_for(lower_extension(p)) == "image/"@ + "bmp"@,
        lower_extension(p) == Some("jpg"@) || lower_extension(p) == Some("jpeg"@) ==> mime_for(lower_extension(p)) == "image/jpeg"@,
        lower_extension(p) is None ==> mime_for(lower_extension(p)) == "application/octet-stream"@,
{
    reveal_strlit("txt");
    reveal_strlit("md");
    reveal_strlit("rs");
    reveal_strlit("kt");
    reveal_strlit("json");
    reveal_strlit("toml");
    reveal_strlit("png");
    reveal_strlit("jpg");
    reveal_strlit("jpeg");
    reveal_strlit("webp");
    reveal_strlit("gif");
    reveal_strlit("bmp");
    reveal_strlit("mp3");
    reveal_strlit("wav");
    reveal_strlit("mp4");
    assert("txt"@.len() == 3 && "txt"@[0] == 't' && "txt"@[1] == 'x' && "txt"@[2] == 't');
    assert("md"@.len() == 2 && "md"@[0] == 'm' && "md"@[1] == 'd');
    assert("rs"@.len() == 2 && "rs"@[0] == 'r' && "rs"@[1] == 's');
    assert("kt"@.len() == 2 && "kt"@[0] == 'k' && "kt"@[1] == 't');
    assert("json"@.len() == 4 && "json"@[0] == 'j' && "json"@[1] == 's' && "json"@[2] == 'o' && "json"@[3] == 'n');
    assert("toml"@.len() == 4 && "toml"@[0] == 't' && "toml"@[1] == 'o' && "toml"@[2] == 'm' && "toml"@[3] == 'l');
    assert("png"@.len() == 3 && "png"@[0] == 'p' && "png"@[1] == 'n' && "png"@[2] == 'g');
    assert("jpg"@.len() == 3 && "jpg"@[0] == 'j' && "jpg"@[1] == 'p' && "jpg"@[2] == 'g');
    assert("jpeg"@.len() == 4 && "jpeg"@[0] == 'j' && "jpeg"@[1] == 'p' && "jpeg"@[2] == 'e' && "jpeg"@[3] == 'g');
    assert("webp"@.len() == 4 && "webp"@[0] == 'w' && "webp"@[1] == 'e' && "webp"@[2] == 'b' && "webp"@[3] == 'p');
    assert("gif"@.len() == 3 && "gif"@[0] == 'g' && "gif"@[1] == 'i' && "gif"@[2] == 'f');
    assert("bmp"@.len() == 3 && "bmp"@[0] == 'b' && "bmp"@[1] == 'm' && "bmp"@[2] == 'p');
    assert("mp3"@.len() == 3 && "mp3"@[0] == 'm' && "mp3"@[1] == 'p' && "mp3"@[2] == '3');
    assert("wav"@.len() == 3 && "wav"@[0] == 'w' && "wav"@[1] == 'a' && "wav"@[2] == 'v');
    assert("mp4"@.len() == 3 && "mp4"@[0] == 'm' && "mp4"@[1] == 'p' && "mp4"@[2] == '4');
    reveal_strlit("image/png");
    reveal_strlit("image/jpeg");
    reveal_strlit("image/webp");
    reveal_strlit("image/gif");
    reveal_strlit("image/bmp");
    reveal_strlit("image/");
    assert("image/png"@ =~= "image/"@ + "png"@);
    assert("image/webp"@ =~= "image/"@ + "webp"@);
    assert("image/gif"@ =~= "image/"@ + "gif"@);
    assert("image/bmp"@ =~= "image/"@ + "bmp"@);
}

/// Text files (`txt`, `md`, `rs`, `kt`, `json`, `toml`) are `text/plain`;
/// `mp3` is `audio/mpeg`, `wav` is `audio/wav`, `mp4` is `video/mp4`; any
/// other extension is `application/octet-stream`.
pub proof fn law_other_extensions_give_their_types(p: Seq<char>)
    ensures
        (lower_extension(p) == Some("txt"@) || lower_extension(p) == Some("md"@) || lower_extension(p) == Some("rs"@)
            || lower_extension(p) == Some("kt"@) || lower_extension(p) == Some("json"@) || lower_extension(p) == Some("toml"@))
            ==> mime_for(lower_extension(p)) == "text/plain"@,
        lower_extension(p) == Some("mp3"@) ==> mime_for(lower_extension(p)) == "audio/mpeg"@,
        lower_extension(p) == Some("wav"@) ==> mime_for(lower_extension(p)) == "audio/wav"@,
        lower_extension(p) == Some("mp4"@) ==> mime_for(lower_extension(p)) == "video/mp4"@,
        (lower_extension(p) matches Some(e) && e != "txt"@ && e != "md"@ && e != "rs"@ && e != "kt"@ && e != "json"@ && e != "toml"@
            && e != "png"@ && e != "jpg"@ && e != "jpeg"@ && e != "webp"@ && e != "gif"@ && e != "bmp"@
            && e != "mp3"@ && e != "wav"@ && e != "mp4"@) ==> mime_for(lower_extension(p)) == "application/octet-stream"@,
{
    reveal_strlit("txt");
    reveal_strlit("md");
    reveal_strlit("rs");
    reveal_strlit("kt");
    reveal_strlit("json");
    reveal_strlit("toml");
    reveal_strlit("png");
    reveal_strlit("jpg");
    reveal_strlit("jpeg");
    reveal_strlit("webp");
    reveal_strlit("gif");
    reveal_strlit("bmp");
    reveal_strlit("mp3");
    reveal_strlit("wav");
    reveal_strlit("mp4");
    assert("txt"@.len() == 3 && "txt"@[0] == 't' && "txt"@[1] == 'x' && "txt"@[2] == 't');
    assert("md"@.len() == 2 && "md"@[0] == 'm' && "md"@[1] == 'd');
    assert("rs"@.len() == 2 && "rs"@[0] == 'r' && "rs"@[1] == 's');
    assert("kt"@.len() == 2 && "kt"@[0] == 'k' && "kt"@[1] == 't');
    assert("json"@.len() == 4 && "json"@[0] == 'j' && "json"@[1] == 's' && "json"@[2] == 'o' && "json"@[3] == 'n');
    assert("toml"@.len() == 4 && "toml"@[0] == 't' && "toml"@[1] == 'o' && "toml"@[2] == 'm' && "toml"@[3] == 'l');
    assert("png"@.len() == 3 && "png"@[0] == 'p' && "png"@[1] == 'n' && "png"@[2] == 'g');
    assert("jpg"@.len() == 3 && "jpg"@[0] == 'j' && "jpg"@[1] == 'p' && "jpg"@[2] == 'g');
    assert("jpeg"@.len() == 4 && "jpeg"@[0] == 'j' && "jpeg"@[1] == 'p' && "jpeg"@[2] == 'e' && "jpeg"@[3] == 'g');
    assert("webp"@.len() == 4 && "webp"@[0] == 'w' && "webp"@[1] == 'e' && "webp"@[2] == 'b' && "webp"@[3] == 'p');
    assert("gif"@.len() == 3 && "gif"@[0] == 'g' && "gif"@[1] == 'i' && "gif"@[2] == 'f');
    assert("bmp"@.len() == 3 && "bmp"@[0] == 'b' && "bmp"@[1] == 'm' && "bmp"@[2] == 'p');
    assert("mp3"@.len() == 3 && "mp3"@[0] == 'm' && "mp3"@[1] == 'p' && "mp3"@[2] == '3');
    assert("wav"@.len() == 3 && "wav"@[0] == 'w' && "wav"@[1] == 'a' && "wav"@[2] == 'v');
    assert("mp4"@.len() == 3 && "mp4"@[0] == 'm' && "mp4"@[1] == 'p' && "mp4"@[2] == '4');
}

/// The lower-cased extension of a path, if it has one.
pub open spec fn lower_extension(p: Seq<char>) -> Option<Seq<char>> {
    match path_extension(p) {
        None => None,
        Some(e) => Some(ascii_lower_seq(e)),
    }
}

/// Guesses an attachment MIME type from its (case-insensitive) extension.
pub fn guess_mime_type(path: &str) -> (r: &'static str)
    ensures
        r@ == mime_for(lower_extension(path@)),
{
    match extension(path) {
        None => "application/octet-stream",
        Some(e) => {
            let l = to_ascii_lowercase(e.as_str());
            let e = l.as_str();
            if str_eq(e, "txt") || str_eq(e, "md") || str_eq(e, "rs") || str_eq(e, "kt") || str_eq(e, "json") || str_eq(e, "toml") {
                "text/plain"
            } else if str_eq(e, "png") {
                "image/png"
            } else if str_eq(e, "jpg") || str_eq(e, "jpeg") {
                "image/jpeg"
            } else if str_eq(e, "webp") {
                "image/webp"
            } else if str_eq(e, "gif") {
                "image/gif"
            } else if str_eq(e, "bmp") {
                "image/bmp"
            } else if str_eq(e, "mp3") {
                "audio/mpeg"
            } else if str_eq(e, "wav") {
                "audio/wav"
            } else if str_eq(e, "mp4") {
                "video/mp4"
            } else {
                "application/octet-stream"
            }
        },
    }
}

/// `Display` of a boolean.
pub open spec fn bool_text(b: bool) -> Seq<char> {
    if b { "true"@ } else { "false"@ }
}

/// `Display` of a boolean.
pub fn bool_str(b: bool) -> (r: &'static str)
    ensures
        r@ == bool_text(b),
{
    if b { "true" } else { "false" }
}

/// The value of an optional string, or empty text (`unwrap_or_default`).
pub open spec fn or_empty(o: Option<String>) -> Seq<char> {
    match o {
        Some(s) => s@,
        None => Seq::empty(),
    }
}

/// `key` followed by `value` on one line.
fn push_field(output: &mut CoreCommandOutput, key: &str, value: &str)
    ensures
        final(output).stdout@ == old(output).stdout@ + line(key@ + value@),
        final(output).stderr@ == old(output).stderr@,
{
    let mut l = String::from_str(key);
    l.append(value);
    output.push_stdout_line(l.as_str());
}

/// The header lines `chat show` prints for one chat.
pub open spec fn chat_header_text<M>(c: ChatHistory<M>) -> Seq<char> {
    line("id="@ + c.id@) + line("title="@ + c.title@) + line("createdAt="@ + c.createdAt@)
        + line("updatedAt="@ + c.updatedAt@) + line("inputTokens="@ + decimal(c.inputTokens as int))
        + line("outputTokens="@ + decimal(c.outputTokens as int))
        + line("currentWindowSize="@ + decimal(c.currentWindowSize as int))
        + line("group="@ + or_empty(c.group)) + line("displayOrder="@ + decimal(c.displayOrder as int))
        + line("workspace="@ + or_empty(c.workspace)) + line("parentChatId="@ + or_empty(c.parentChatId))
        + line("characterCardName="@ + or_empty(c.characterCardName))
        + line("characterGroupId="@ + or_empty(c.characterGroupId)) + line("locked="@ + bool_text(c.locked))
        + line("pinned="@ + bool_text(c.pinned))
}

/// `unwrap_or_default` of an optional string.
fn or_empty_string(o: &Option<String>) -> (r: String)
    ensures
        r@ == or_empty(*o),
{
    match o {
        Some(s) => s.clone(),
        None => String::new(),
    }
}

/// Prints the header of one chat.
pub fn print_chat_history_header<M>(chat: &ChatHistory<M>, output: &mut CoreCommandOutput)
    ensures
        final(output).stdout@ == old(output).stdout@ + chat_header_text(*chat),
        final(output).stderr@ == old(output).stderr@,
{
    push_field(output, "id=", chat.id.as_str());
    push_field(output, "title=", chat.title.as_str());
    push_field(output, "createdAt=", chat.createdAt.as_str());
    push_field(output, "updatedAt=", chat.updatedAt.as_str());
    push_field(output, "inputTokens=", i64_to_string(chat.inputTokens).as_str());
    push_field(output, "outputTokens=", i64_to_string(chat.outputTokens).as_str());
    push_field(output, "currentWindowSize=", i64_to_string(chat.currentWindowSize).as_str());
    push_field(output, "group=", or_empty_string(&chat.group).as_str());
    push_field(output, "displayOrder=", i64_to_string(chat.displayOrder).as_str());
    push_field(output, "workspace=", or_empty_string(&chat.workspace).as_str());
    push_field(output, "parentChatId=", or_empty_string(&chat.parentChatId).as_str());
    push_field(output, "characterCardName=", or_empty_string(&chat.characterCardName).as_str());
    push_field(output, "characterGroupId=", or_empty_string(&chat.characterGroupId).as_str());
    push_field(output, "locked=", bool_str(chat.locked));
    push_field(output, "pinned=", bool_str(chat.pinned));
    assert(output.stdout@ =~= old(output).stdout@ + chat_header_text(*chat));
}

/// The listing row of one chat: its fields separated by tabs.
pub open spec fn chat_list_row<M>(c: ChatHistory<M>) -> Seq<char> {
    c.id@ + "\t"@ + c.title@ + "\t"@ + c.createdAt@ + "\t"@ + c.updatedAt@ + "\t"@ + "\t"@
        + decimal(c.inputTokens as int) + "\t"@ + decimal(c.outputTokens as int) + "\t"@
        + or_empty(c.characterCardName) + "\t"@ + or_empty(c.characterGroupId) + "\t"@
        + bool_text(c.locked) + "\t"@ + bool_text(c.pinned)
}

/// Prints the listing row of one chat.
pub fn print_chat_list_row<M>(chat: &ChatHistory<M>, output: &mut CoreCommandOutput)
    ensures
        final(output).stdout@ == old(output).stdout@ + line(chat_list_row(*chat)),
        final(output).stderr@ == old(output).stderr@,
{
    let mut r = chat.id.clone();
    r.append("\t");
    r.append(chat.title.as_str());
    r.append("\t");
    r.append(chat.createdAt.as_str());
    r.append("\t");
    r.append(chat.updatedAt.as_str());
    r.append("\t");
    r.append("\t");
    let i = i64_to_string(chat.inputTokens);
    r.append(i.as_str());
    r.append("\t");
    let o = i64_to_string(chat.outputTokens);
    r.append(o.as_str());
    r.append("\t");
    let c = or_empty_string(&chat.characterCardName);
    r.append(c.as_str());
    r.append("\t");
    let g = or_empty_string(&chat.characterGroupId);
    r.append(g.as_str());
    r.append("\t");
    r.append(bool_str(chat.locked));
    r.append("\t");
    r.append(bool_str(chat.pinned));
    output.push_stdout_line(r.as_str());
}

/// The listing row of one branch chat.
pub open spec fn chat_branch_row<M>(c: ChatHistory<M>) -> Seq<char> {
    c.id@ + "\t"@ + c.title@ + "\t"@ + c.createdAt@ + "\t"@ + c.updatedAt@ + "\t"@
        + bool_text(c.locked) + "\t"@ + bool_text(c.pinned)
}

/// Prints the listing row of one branch chat.
pub fn print_chat_branch_row<M>(chat: &ChatHistory<M>, output: &mut CoreCommandOutput)
    ensures
        final(output).stdout@ == old(output).stdout@ + line(chat_branch_row(*chat)),
        final(output).stderr@ == old(output).stderr@,
{
    let mut r = chat.id.clone();
    r.append("\t");
    r.append(chat.title.as_str());
    r.append("\t");
    r.append(chat.createdAt.as_str());
    r.append("\t");
    r.append(chat.updatedAt.as_str());
    r.append("\t");
    r.append(bool_str(chat.locked));
    r.append("\t");
    r.append(bool_str(chat.pinned));
    output.push_stdout_line(r.as_str());
}

/// The lines `chat show` prints first for one message: who sent it, when,
/// and which model answered.
pub open spec fn chat_message_head<P, E>(m: ChatMessage<P, E>) -> Seq<char> {
    line("--- message ---"@) + line("sender="@ + m.sender@) + line("timestamp="@ + decimal(m.timestamp as int))
        + line("roleName="@ + m.roleName@)
        + line("selectedVariantIndex="@ + decimal(m.selectedVariantIndex as int))
        + line("variantCount="@ + decimal(m.variantCount as int)) + line("provider="@ + m.provider@)
        + line("modelName="@ + m.modelName@)
}

/// The lines `chat show` prints next for one message: its usage, timing,
/// display flags and the visible text of its parts.
pub open spec fn chat_message_tail<P, E>(m: ChatMessage<P, E>, content: Seq<char>) -> Seq<char> {
    line("inputTokens="@ + decimal(m.inputTokens as int))
        + line("cachedInputTokens="@ + decimal(m.cachedInputTokens as int))
        + line("outputTokens="@ + decimal(m.outputTokens as int)) + line("sentAt="@ + decimal(m.sentAt as int))
        + line("waitDurationMs="@ + decimal(m.waitDurationMs as int))
        + line("outputDurationMs="@ + decimal(m.outputDurationMs as int))
        + line("completedAt="@ + decimal(m.completedAt as int))
        + line("displayMode="@ + display_mode_name(m.displayMode)) + line("isFavorite="@ + bool_text(m.isFavorite))
        + line("content="@ + content)
}

/// The lines `chat show` prints for one message, given the visible text of
/// its parts.
pub open spec fn chat_message_text<P, E>(m: ChatMessage<P, E>, content: Seq<char>) -> Seq<char> {
    chat_message_head(m) + chat_message_tail(m, content)
}

/// Prints the first lines of one message.
fn print_chat_message_head<P, E>(message: &ChatMessage<P, E>, output: &mut CoreCommandOutput)
    ensures
        final(output).stdout@ == old(output).stdout@ + chat_message_head(*message),
        final(output).stderr@ == old(output).stderr@,
{
    output.push_stdout_line("--- message ---");
    push_field(output, "sender=", message.sender.as_str());
    push_field(output, "timestamp=", i64_to_string(message.timestamp).as_str());
    push_field(output, "roleName=", message.roleName.as_str());
    push_field(output, "selectedVariantIndex=", i64_to_string(message.selectedVariantIndex as i64).as_str());
    push_field(output, "variantCount=", i64_to_string(message.variantCount as i64).as_str());
    push_field(output, "provider=", message.provider.as_str());
    push_field(output, "modelName=", message.modelName.as_str());
    assert(output.stdout@ =~= old(output).stdout@ + chat_message_head(*message));
}

/// Prints the remaining lines of one message.
fn print_chat_message_tail<P, E>(message: &ChatMessage<P, E>, content: &str, output: &mut CoreCommandOutput)
    ensures
        final(output).stdout@ == old(output).stdout@ + chat_message_tail(*message, content@),
        final(output).stderr@ == old(output).stderr@,
{
    push_field(output, "inputTokens=", i64_to_string(message.inputTokens).as_str());
    push_field(output, "cachedInputTokens=", i64_to_string(message.cachedInputTokens).as_str());
    push_field(output, "outputTokens=", i64_to_string(message.outputTokens).as_str());
    push_field(output, "sentAt=", i64_to_string(message.sentAt).as_str());
    push_field(output, "waitDurationMs=", i64_to_string(message.waitDurationMs).as_str());
    push_field(output, "outputDurationMs=", i64_to_string(message.outputDurationMs).as_str());
    push_field(output, "completedAt=", i64_to_string(message.completedAt).as_str());
    push_field(output, "displayMode=", displayModeName(message.displayMode).as_str());
    push_field(output, "isFavorite=", bool_str(message.isFavorite));
    push_field(output, "content=", content);
    assert(output.stdout@ =~= old(output).stdout@ + chat_message_tail(*message, content@));
}

/// Prints one message of a chat; `content` is the visible text of its parts.
pub fn print_chat_message<P, E>(message: &ChatMessage<P, E>, content: &str, output: &mut CoreCommandOutput)
    ensures
        final(output).stdout@ == old(output).stdout@ + chat_message_text(*message, content@),
        final(output).stderr@ == old(output).stderr@,
{
    print_chat_message_head(message, output);
    print_chat_message_tail(message, content, output);
    assert(output.stdout@ =~= old(output).stdout@ + chat_message_text(*message, content@));
}

/// The report line `chat send` writes to stderr after the reply.
pub open spec fn chat_send_report<P, E>(chat_id: Seq<char>, m: ChatMessage<P, E>) -> Seq<char> {
    "chat="@ + chat_id + " provider="@ + m.provider@ + " modelName="@ + m.modelName@ + " inputTokens="@
        + decimal(m.inputTokens as int) + " cachedInputTokens="@ + decimal(m.cachedInputTokens as int)
        + " outputTokens="@ + decimal(m.outputTokens as int)
}

/// Prints the reply to a sent message (its visible text, `reply`) on
/// stdout and the report of the exchange on stderr.
pub fn print_chat_send_result<P, E>(chat_id: &str, ai_message: &ChatMessage<P, E>, reply: &str, output: &mut CoreCommandOutput)
    ensures
        final(output).stdout@ == old(output).stdout@ + reply@ + line(Seq::empty()),
        final(output).stderr@ == old(output).stderr@ + line(chat_send_report(chat_id@, *ai_message)),
{
    output.push_stdout(reply);
    output.push_stdout_line("");
    proof {
        reveal_strlit("");
    }
    let mut r = String::from_str("chat=");
    r.append(chat_id);
    r.append(" provider=");
    r.append(ai_message.provider.as_str());
    r.append(" modelName=");
    r.append(ai_message.modelName.as_str());
    r.append(" inputTokens=");
    r.append(i64_to_string(ai_message.inputTokens).as_str());
    r.append(" cachedInputTokens=");
    r.append(i64_to_string(ai_message.cachedInputTokens).as_str());
    r.append(" outputTokens=");
    r.append(i64_to_string(ai_message.outputTokens).as_str());
    output.push_stderr_line(r.as_str());
    assert(output.stdout@ =~= old(output).stdout@ + reply@ + line(Seq::empty()));
}

} // verus!
