//! Persisted chat and message records and the functional model roles.
use vstd::prelude::*;
use crate::core_stream::CoreStream;
use crate::num::{decimal, i64_to_string, lemma_parse_decimal, parse_i64, parse_int};
use crate::text::{concat, str_eq};

verus! {

/// Functional model roles that a model binding can serve.
#[derive(Clone, Debug, PartialEq, Eq, Hash, Structural)]
pub enum FunctionType {
    CHAT,
    SUMMARY,
    TITLE_GENERATION,
    MEMORY,
    UI_CONTROLLER,
    TRANSLATION,
    GREP,
    ROLE_RESPONSE_PLANNER,
    IMAGE_RECOGNITION,
    AUDIO_RECOGNITION,
    VIDEO_RECOGNITION,
}

/// The command spelling of a functional model role.
pub open spec fn function_type_name(f: FunctionType) -> Seq<char> {
    match f {
        FunctionType::CHAT => "CHAT"@,
        FunctionType::SUMMARY => "SUMMARY"@,
        FunctionType::TITLE_GENERATION => "TITLE_GENERATION"@,
        FunctionType::MEMORY => "MEMORY"@,
        FunctionType::UI_CONTROLLER => "UI_CONTROLLER"@,
        FunctionType::TRANSLATION => "TRANSLATION"@,
        FunctionType::GREP => "GREP"@,
        FunctionType::ROLE_RESPONSE_PLANNER => "ROLE_RESPONSE_PLANNER"@,
        FunctionType::IMAGE_RECOGNITION => "IMAGE_RECOGNITION"@,
        FunctionType::AUDIO_RECOGNITION => "AUDIO_RECOGNITION"@,
        FunctionType::VIDEO_RECOGNITION => "VIDEO_RECOGNITION"@,
    }
}

/// The role a command spelling names, if any.
pub open spec fn function_type_named(s: Seq<char>) -> Option<FunctionType> {
    if s == "CHAT"@ { Some(FunctionType::CHAT) }
    else if s == "SUMMARY"@ { Some(FunctionType::SUMMARY) }
    else if s == "TITLE_GENERATION"@ { Some(FunctionType::TITLE_GENERATION) }
    else if s == "MEMORY"@ { Some(FunctionType::MEMORY) }
    else if s == "UI_CONTROLLER"@ { Some(FunctionType::UI_CONTROLLER) }
    else if s == "TRANSLATION"@ { Some(FunctionType::TRANSLATION) }
    else if s == "GREP"@ { Some(FunctionType::GREP) }
    else if s == "ROLE_RESPONSE_PLANNER"@ { Some(FunctionType::ROLE_RESPONSE_PLANNER) }
    else if s == "IMAGE_RECOGNITION"@ { Some(FunctionType::IMAGE_RECOGNITION) }
    else if s == "AUDIO_RECOGNITION"@ { Some(FunctionType::AUDIO_RECOGNITION) }
    else if s == "VIDEO_RECOGNITION"@ { Some(FunctionType::VIDEO_RECOGNITION) }
    else { None }
}

/// Formats a functional model role for command output.
pub fn functionTypeName(functionType: &FunctionType) -> (r: &'static str)
    ensures
        r@ == function_type_name(*functionType),
{
    match functionType {
        FunctionType::CHAT => "CHAT",
        FunctionType::SUMMARY => "SUMMARY",
        FunctionType::TITLE_GENERATION => "TITLE_GENERATION",
        FunctionType::MEMORY => "MEMORY",
        FunctionType::UI_CONTROLLER => "UI_CONTROLLER",
        FunctionType::TRANSLATION => "TRANSLATION",
        FunctionType::GREP => "GREP",
        FunctionType::ROLE_RESPONSE_PLANNER => "ROLE_RESPONSE_PLANNER",
        FunctionType::IMAGE_RECOGNITION => "IMAGE_RECOGNITION",
        FunctionType::AUDIO_RECOGNITION => "AUDIO_RECOGNITION",
        FunctionType::VIDEO_RECOGNITION => "VIDEO_RECOGNITION",
    }
}

/// Parses a functional model role accepted by the model command.
pub fn parseFunctionType(value: &str) -> (r: Result<FunctionType, String>)
    ensures
        match r {
            Ok(f) => function_type_named(value@) == Some(f),
            Err(e) => function_type_named(value@) is None && e@ == "invalid FunctionType: "@ + value@,
        },
{
    if str_eq(value, "CHAT") { Ok(FunctionType::CHAT) }
    else if str_eq(value, "SUMMARY") { Ok(FunctionType::SUMMARY) }
    else if str_eq(value, "TITLE_GENERATION") { Ok(FunctionType::TITLE_GENERATION) }
    else if str_eq(value, "MEMORY") { Ok(FunctionType::MEMORY) }
    else if str_eq(value, "UI_CONTROLLER") { Ok(FunctionType::UI_CONTROLLER) }
    else if str_eq(value, "TRANSLATION") { Ok(FunctionType::TRANSLATION) }
    else if str_eq(value, "GREP") { Ok(FunctionType::GREP) }
    else if str_eq(value, "ROLE_RESPONSE_PLANNER") { Ok(FunctionType::ROLE_RESPONSE_PLANNER) }
    else if str_eq(value, "IMAGE_RECOGNITION") { Ok(FunctionType::IMAGE_RECOGNITION) }
    else if str_eq(value, "AUDIO_RECOGNITION") { Ok(FunctionType::AUDIO_RECOGNITION) }
    else if str_eq(value, "VIDEO_RECOGNITION") { Ok(FunctionType::VIDEO_RECOGNITION) }
    else { Err(concat("invalid FunctionType: ", value)) }
}

/// Every functional model role, in declaration order.
pub open spec fn all_function_types() -> Seq<FunctionType> {
    seq![
        FunctionType::CHAT,
        FunctionType::SUMMARY,
        FunctionType::TITLE_GENERATION,
        FunctionType::MEMORY,
        FunctionType::UI_CONTROLLER,
        FunctionType::TRANSLATION,
        FunctionType::GREP,
        FunctionType::ROLE_RESPONSE_PLANNER,
        FunctionType::IMAGE_RECOGNITION,
        FunctionType::AUDIO_RECOGNITION,
        FunctionType::VIDEO_RECOGNITION,
    ]
}

/// Lists functional model roles supported by the model command.
pub fn functionTypes() -> (r: Vec<FunctionType>)
    ensures
        r@ == all_function_types(),
{
    let r = vec![
        FunctionType::CHAT,
        FunctionType::SUMMARY,
        FunctionType::TITLE_GENERATION,
        FunctionType::MEMORY,
        FunctionType::UI_CONTROLLER,
        FunctionType::TRANSLATION,
        FunctionType::GREP,
        FunctionType::ROLE_RESPONSE_PLANNER,
        FunctionType::IMAGE_RECOGNITION,
        FunctionType::AUDIO_RECOGNITION,
        FunctionType::VIDEO_RECOGNITION,
    ];
    assert(r@ =~= all_function_types());
    r
}

/// Reading back the command spelling of a role gives that role: the
/// spellings are distinct and each names its own role.
pub proof fn law_function_type_name_round_trip(f: FunctionType)
    ensures
        function_type_named(function_type_name(f)) == Some(f),
{
    reveal_strlit("CHAT");
    reveal_strlit("SUMMARY");
    reveal_strlit("TITLE_GENERATION");
    reveal_strlit("MEMORY");
    reveal_strlit("UI_CONTROLLER");
    reveal_strlit("TRANSLATION");
    reveal_strlit("GREP");
    reveal_strlit("ROLE_RESPONSE_PLANNER");
    reveal_strlit("IMAGE_RECOGNITION");
    reveal_strlit("AUDIO_RECOGNITION");
    reveal_strlit("VIDEO_RECOGNITION");
    assert("CHAT"@.len() == 4);
    assert("SUMMARY"@.len() == 7);
    assert("TITLE_GENERATION"@.len() == 16);
    assert("MEMORY"@.len() == 6);
    assert("UI_CONTROLLER"@.len() == 13);
    assert("TRANSLATION"@.len() == 11);
    assert("GREP"@.len() == 4);
    assert("ROLE_RESPONSE_PLANNER"@.len() == 21);
    assert("IMAGE_RECOGNITION"@.len() == 17);
    assert("AUDIO_RECOGNITION"@.len() == 17);
    assert("VIDEO_RECOGNITION"@.len() == 17);
    assert("GREP"@[0] != "CHAT"@[0]);
    assert("AUDIO_RECOGNITION"@[0] != "IMAGE_RECOGNITION"@[0]);
    assert("VIDEO_RECOGNITION"@[0] != "IMAGE_RECOGNITION"@[0]);
    assert("VIDEO_RECOGNITION"@[0] != "AUDIO_RECOGNITION"@[0]);
}

/// The role list names every role exactly once.
pub proof fn law_function_types_complete(f: FunctionType)
    ensures
        all_function_types().contains(f),
        forall|i: int, j: int| 0 <= i < j < all_function_types().len() ==> all_function_types()[i] != all_function_types()[j],
{
    match f {
        FunctionType::CHAT => assert(all_function_types()[0] == f),
        FunctionType::SUMMARY => assert(all_function_types()[1] == f),
        FunctionType::TITLE_GENERATION => assert(all_function_types()[2] == f),
        FunctionType::MEMORY => assert(all_function_types()[3] == f),
        FunctionType::UI_CONTROLLER => assert(all_function_types()[4] == f),
        FunctionType::TRANSLATION => assert(all_function_types()[5] == f),
        FunctionType::GREP => assert(all_function_types()[6] == f),
        FunctionType::ROLE_RESPONSE_PLANNER => assert(all_function_types()[7] == f),
        FunctionType::IMAGE_RECOGNITION => assert(all_function_types()[8] == f),
        FunctionType::AUDIO_RECOGNITION => assert(all_function_types()[9] == f),
        FunctionType::VIDEO_RECOGNITION => assert(all_function_types()[10] == f),
    }
}


/// A copy of an optional string.
pub fn clone_opt(o: &Option<String>) -> (r: Option<String>)
    ensures
        r == *o,
{
    match o {
        Some(s) => Some(s.clone()),
        None => None,
    }
}

/// The views of an optional string.
pub open spec fn opt_view(o: Option<String>) -> Option<Seq<char>> {
    match o {
        Some(s) => Some(s@),
        None => None,
    }
}

/// The runtime chat model: metadata together with its messages.
#[derive(Clone, Debug)]
pub struct ChatHistory<M> {
    pub id: String,
    pub title: String,
    pub messages: Vec<M>,
    pub createdAt: String,
    pub updatedAt: String,
    pub inputTokens: i64,
    pub outputTokens: i64,
    pub currentWindowSize: i64,
    pub group: Option<String>,
    pub displayOrder: i64,
    pub workspace: Option<String>,
    pub parentChatId: Option<String>,
    pub characterCardName: Option<String>,
    pub characterGroupId: Option<String>,
    pub locked: bool,
    pub pinned: bool,
}

/// One persisted chat metadata record.
#[derive(Clone, Debug, PartialEq, Eq)]
pub struct ChatEntity {
    pub id: String,
    pub title: String,
    pub createdAt: i64,
    pub updatedAt: i64,
    pub inputTokens: i64,
    pub outputTokens: i64,
    pub currentWindowSize: i64,
    pub group: Option<String>,
    pub displayOrder: i64,
    pub workspace: Option<String>,
    pub parentChatId: Option<String>,
    pub characterCardName: Option<String>,
    pub characterGroupId: Option<String>,
    pub locked: bool,
    pub pinned: bool,
}

/// Two chat records hold the same values.
pub open spec fn same_entity(a: ChatEntity, b: ChatEntity) -> bool {
    &&& a.id@ == b.id@
    &&& a.title@ == b.title@
    &&& a.createdAt == b.createdAt
    &&& a.updatedAt == b.updatedAt
    &&& a.inputTokens == b.inputTokens
    &&& a.outputTokens == b.outputTokens
    &&& a.currentWindowSize == b.currentWindowSize
    &&& opt_view(a.group) == opt_view(b.group)
    &&& a.displayOrder == b.displayOrder
    &&& opt_view(a.workspace) == opt_view(b.workspace)
    &&& opt_view(a.parentChatId) == opt_view(b.parentChatId)
    &&& opt_view(a.characterCardName) == opt_view(b.characterCardName)
    &&& opt_view(a.characterGroupId) == opt_view(b.characterGroupId)
    &&& a.locked == b.locked
    &&& a.pinned == b.pinned
}

/// A history carries a chat record's metadata, timestamps written in decimal.
pub open spec fn history_of_entity<M>(e: ChatEntity, h: ChatHistory<M>) -> bool {
    &&& h.id@ == e.id@
    &&& h.title@ == e.title@
    &&& h.createdAt@ == decimal(e.createdAt as int)
    &&& h.updatedAt@ == decimal(e.updatedAt as int)
    &&& h.inputTokens == e.inputTokens
    &&& h.outputTokens == e.outputTokens
    &&& h.currentWindowSize == e.currentWindowSize
    &&& opt_view(h.group) == opt_view(e.group)
    &&& h.displayOrder == e.displayOrder
    &&& opt_view(h.workspace) == opt_view(e.workspace)
    &&& opt_view(h.parentChatId) == opt_view(e.parentChatId)
    &&& opt_view(h.characterCardName) == opt_view(e.characterCardName)
    &&& opt_view(h.characterGroupId) == opt_view(e.characterGroupId)
    &&& h.locked == e.locked
    &&& h.pinned == e.pinned
}

/// Whether a history's timestamps are epoch-millisecond decimal strings.
pub open spec fn history_timestamps_valid<M>(h: ChatHistory<M>) -> bool {
    &&& parse_int(h.createdAt@, i64::MIN as int, i64::MAX as int, true) is Ok
    &&& parse_int(h.updatedAt@, i64::MIN as int, i64::MAX as int, true) is Ok
}

impl ChatEntity {
    /// Creates one persisted chat metadata record.
    pub fn new(id: String, title: String, timestamp: i64) -> (r: Self)
        requires
            timestamp > i64::MIN,
        ensures
            r.id == id,
            r.title == title,
            r.createdAt == timestamp,
            r.updatedAt == timestamp,
            r.inputTokens == 0,
            r.outputTokens == 0,
            r.currentWindowSize == 0,
            r.group is None,
            r.displayOrder == -timestamp,
            r.workspace is None,
            r.parentChatId is None,
            r.characterCardName is None,
            r.characterGroupId is None,
            !r.locked,
            !r.pinned,
    {
        ChatEntity {
            id,
            title,
            createdAt: timestamp,
            updatedAt: timestamp,
            inputTokens: 0,
            outputTokens: 0,
            currentWindowSize: 0,
            group: None,
            displayOrder: -timestamp,
            workspace: None,
            parentChatId: None,
            characterCardName: None,
            characterGroupId: None,
            locked: false,
            pinned: false,
        }
    }

    /// Projects persisted chat metadata and messages into the runtime model.
    pub fn toChatHistory<M>(&self, messages: Vec<M>) -> (h: ChatHistory<M>)
        ensures
            history_of_entity(*self, h),
            h.messages == messages,
    {
        ChatHistory {
            id: self.id.clone(),
            title: self.title.clone(),
            messages,
            createdAt: i64_to_string(self.createdAt),
            updatedAt: i64_to_string(self.updatedAt),
            inputTokens: self.inputTokens,
            outputTokens: self.outputTokens,
            currentWindowSize: self.currentWindowSize,
            group: clone_opt(&self.group),
            displayOrder: self.displayOrder,
            workspace: clone_opt(&self.workspace),
            parentChatId: clone_opt(&self.parentChatId),
            characterCardName: clone_opt(&self.characterCardName),
            characterGroupId: clone_opt(&self.characterGroupId),
            locked: self.locked,
            pinned: self.pinned,
        }
    }

    /// Converts the runtime chat model into persisted metadata; both
    /// timestamps must be epoch-millisecond decimal strings.
    pub fn fromChatHistory<M>(chatHistory: &ChatHistory<M>) -> (r: Self)
        requires
            history_timestamps_valid(*chatHistory),
        ensures
            r.id@ == chatHistory.id@,
            r.title@ == chatHistory.title@,
            parse_int(chatHistory.createdAt@, i64::MIN as int, i64::MAX as int, true) == Ok::<int, crate::num::IntErrorKind>(r.createdAt as int),
            parse_int(chatHistory.updatedAt@, i64::MIN as int, i64::MAX as int, true) == Ok::<int, crate::num::IntErrorKind>(r.updatedAt as int),
            r.inputTokens == chatHistory.inputTokens,
            r.outputTokens == chatHistory.outputTokens,
            r.currentWindowSize == chatHistory.currentWindowSize,
            r.group == chatHistory.group,
            r.displayOrder == chatHistory.displayOrder,
            r.workspace == chatHistory.workspace,
            r.parentChatId == chatHistory.parentChatId,
            r.characterCardName == chatHistory.characterCardName,
            r.characterGroupId == chatHistory.characterGroupId,
            r.locked == chatHistory.locked,
            r.pinned == chatHistory.pinned,
    {
        let createdAt = match parse_i64(chatHistory.createdAt.as_str()) {
            Ok(v) => v,
            Err(_) => {
                assert(false);
                0
            },
        };
        let updatedAt = match parse_i64(chatHistory.updatedAt.as_str()) {
            Ok(v) => v,
            Err(_) => {
                assert(false);
                0
            },
        };
        ChatEntity {
            id: chatHistory.id.clone(),
            title: chatHistory.title.clone(),
            createdAt,
            updatedAt,
            inputTokens: chatHistory.inputTokens,
            outputTokens: chatHistory.outputTokens,
            currentWindowSize: chatHistory.currentWindowSize,
            group: clone_opt(&chatHistory.group),
            displayOrder: chatHistory.displayOrder,
            workspace: clone_opt(&chatHistory.workspace),
            parentChatId: clone_opt(&chatHistory.parentChatId),
            characterCardName: clone_opt(&chatHistory.characterCardName),
            characterGroupId: clone_opt(&chatHistory.characterGroupId),
            locked: chatHistory.locked,
            pinned: chatHistory.pinned,
        }
    }
}

/// Projecting a chat record into the runtime model always yields valid
/// timestamps, and converting that projection back gives the same record.
pub proof fn law_chat_entity_history_round_trip<M>(e: ChatEntity, h: ChatHistory<M>, back: ChatEntity)
    requires
        history_of_entity(e, h),
        back.id@ == h.id@,
        back.title@ == h.title@,
        parse_int(h.createdAt@, i64::MIN as int, i64::MAX as int, true) == Ok::<int, crate::num::IntErrorKind>(back.createdAt as int),
        parse_int(h.updatedAt@, i64::MIN as int, i64::MAX as int, true) == Ok::<int, crate::num::IntErrorKind>(back.updatedAt as int),
        back.inputTokens == h.inputTokens,
        back.outputTokens == h.outputTokens,
        back.currentWindowSize == h.currentWindowSize,
        back.group == h.group,
        back.displayOrder == h.displayOrder,
        back.workspace == h.workspace,
        back.parentChatId == h.parentChatId,
        back.characterCardName == h.characterCardName,
        back.characterGroupId == h.characterGroupId,
        back.locked == h.locked,
        back.pinned == h.pinned,
    ensures
        history_timestamps_valid(h),
        same_entity(back, e),
{
    lemma_parse_decimal(e.createdAt as int, i64::MIN as int, i64::MAX as int);
    lemma_parse_decimal(e.updatedAt as int, i64::MIN as int, i64::MAX as int);
}

/// Every projection of a chat record satisfies the precondition of
/// `fromChatHistory`.
pub proof fn law_projection_timestamps_valid<M>(e: ChatEntity, h: ChatHistory<M>)
    requires
        history_of_entity(e, h),
    ensures
        history_timestamps_valid(h),
{
    lemma_parse_decimal(e.createdAt as int, i64::MIN as int, i64::MAX as int);
    lemma_parse_decimal(e.updatedAt as int, i64::MIN as int, i64::MAX as int);
}

/// Persisted metadata of one chat message.
#[derive(Clone, Debug, PartialEq, Eq)]
pub struct MessageEntity {
    pub messageId: i64,
    pub chatId: String,
    pub sender: String,
    pub timestamp: i64,
    pub orderIndex: i32,
    pub roleName: String,
    pub selectedVariantIndex: i32,
    pub provider: String,
    pub modelName: String,
    pub inputTokens: i64,
    pub outputTokens: i64,
    pub cachedInputTokens: i64,
    pub sentAt: i64,
    pub outputDurationMs: i64,
    pub waitDurationMs: i64,
    pub completedAt: i64,
    pub completedExecutionGeneration: i64,
    pub displayMode: String,
    pub isFavorite: bool,
}


/// How a message is shown in the transcript.
#[allow(non_camel_case_types)]
#[derive(Clone, Copy, Debug, PartialEq, Eq, Structural)]
pub enum ChatMessageDisplayMode {
    NORMAL,
    HIDDEN_PLACEHOLDER,
}

/// The stored name of a display mode: its variant name.
pub open spec fn display_mode_name(m: ChatMessageDisplayMode) -> Seq<char> {
    match m {
        ChatMessageDisplayMode::NORMAL => "NORMAL"@,
        ChatMessageDisplayMode::HIDDEN_PLACEHOLDER => "HIDDEN_PLACEHOLDER"@,
    }
}

/// The display mode that a stored name denotes, if any.
pub open spec fn display_mode_of(name: Seq<char>) -> Option<ChatMessageDisplayMode> {
    if name == "NORMAL"@ {
        Some(ChatMessageDisplayMode::NORMAL)
    } else if name == "HIDDEN_PLACEHOLDER"@ {
        Some(ChatMessageDisplayMode::HIDDEN_PLACEHOLDER)
    } else {
        None
    }
}

/// The stored name of a display mode, as `format!("{:?}", mode)` writes it.
pub fn displayModeName(mode: ChatMessageDisplayMode) -> (r: String)
    ensures
        r@ == display_mode_name(mode),
{
    match mode {
        ChatMessageDisplayMode::NORMAL => String::from_str("NORMAL"),
        ChatMessageDisplayMode::HIDDEN_PLACEHOLDER => String::from_str("HIDDEN_PLACEHOLDER"),
    }
}

/// Reads a stored display-mode name.
pub fn parseDisplayMode(name: &str) -> (r: Option<ChatMessageDisplayMode>)
    ensures
        r == display_mode_of(name@),
{
    if str_eq(name, "NORMAL") {
        Some(ChatMessageDisplayMode::NORMAL)
    } else if str_eq(name, "HIDDEN_PLACEHOLDER") {
        Some(ChatMessageDisplayMode::HIDDEN_PLACEHOLDER)
    } else {
        None
    }
}

/// One chat message: its structured parts (of type `P`), its metadata, and
/// the live stream of its content (with events of type `E`) while it is
/// being written.
#[derive(Debug)]
pub struct ChatMessage<P, E> {
    pub sender: String,
    pub parts: Vec<P>,
    pub timestamp: i64,
    pub roleName: String,
    pub selectedVariantIndex: i32,
    pub variantCount: i32,
    pub provider: String,
    pub modelName: String,
    pub inputTokens: i64,
    pub outputTokens: i64,
    pub cachedInputTokens: i64,
    pub sentAt: i64,
    pub outputDurationMs: i64,
    pub waitDurationMs: i64,
    pub completedAt: i64,
    pub completedExecutionGeneration: i64,
    pub displayMode: ChatMessageDisplayMode,
    pub isFavorite: bool,
    pub isVariantPreview: bool,
    pub contentStream: Option<CoreStream<E>>,
}

/// A message is the runtime form of a stored record with the given parts:
/// the record's metadata, one variant, no preview and no live stream.
pub open spec fn message_of_entity<P, E>(e: MessageEntity, parts: Seq<P>, m: ChatMessage<P, E>) -> bool {
    &&& m.sender@ == e.sender@
    &&& m.parts@ == parts
    &&& m.timestamp == e.timestamp
    &&& m.roleName@ == e.roleName@
    &&& m.selectedVariantIndex == e.selectedVariantIndex
    &&& m.variantCount == 1
    &&& m.provider@ == e.provider@
    &&& m.modelName@ == e.modelName@
    &&& m.inputTokens == e.inputTokens
    &&& m.outputTokens == e.outputTokens
    &&& m.cachedInputTokens == e.cachedInputTokens
    &&& m.sentAt == e.sentAt
    &&& m.outputDurationMs == e.outputDurationMs
    &&& m.waitDurationMs == e.waitDurationMs
    &&& m.completedAt == e.completedAt
    &&& m.completedExecutionGeneration == e.completedExecutionGeneration
    &&& display_mode_of(e.displayMode@) == Some(m.displayMode)
    &&& m.isFavorite == e.isFavorite
    &&& !m.isVariantPreview
    &&& m.contentStream is None
}

/// A record stores a message's metadata under the given chat, position and id.
pub open spec fn entity_of_message<P, E>(r: MessageEntity, chatId: Seq<char>, m: ChatMessage<P, E>, orderIndex: i32, messageId: i64) -> bool {
    &&& r.messageId == messageId
    &&& r.chatId@ == chatId
    &&& r.sender@ == m.sender@
    &&& r.timestamp == m.timestamp
    &&& r.orderIndex == orderIndex
    &&& r.roleName@ == m.roleName@
    &&& r.selectedVariantIndex == m.selectedVariantIndex
    &&& r.provider@ == m.provider@
    &&& r.modelName@ == m.modelName@
    &&& r.inputTokens == m.inputTokens
    &&& r.outputTokens == m.outputTokens
    &&& r.cachedInputTokens == m.cachedInputTokens
    &&& r.sentAt == m.sentAt
    &&& r.outputDurationMs == m.outputDurationMs
    &&& r.waitDurationMs == m.waitDurationMs
    &&& r.completedAt == m.completedAt
    &&& r.completedExecutionGeneration == m.completedExecutionGeneration
    &&& r.displayMode@ == display_mode_name(m.displayMode)
    &&& r.isFavorite == m.isFavorite
}

/// Two message records hold the same values.
pub open spec fn same_message_entity(a: MessageEntity, b: MessageEntity) -> bool {
    &&& a.messageId == b.messageId
    &&& a.chatId@ == b.chatId@
    &&& a.sender@ == b.sender@
    &&& a.timestamp == b.timestamp
    &&& a.orderIndex == b.orderIndex
    &&& a.roleName@ == b.roleName@
    &&& a.selectedVariantIndex == b.selectedVariantIndex
    &&& a.provider@ == b.provider@
    &&& a.modelName@ == b.modelName@
    &&& a.inputTokens == b.inputTokens
    &&& a.outputTokens == b.outputTokens
    &&& a.cachedInputTokens == b.cachedInputTokens
    &&& a.sentAt == b.sentAt
    &&& a.outputDurationMs == b.outputDurationMs
    &&& a.waitDurationMs == b.waitDurationMs
    &&& a.completedAt == b.completedAt
    &&& a.completedExecutionGeneration == b.completedExecutionGeneration
    &&& a.displayMode@ == b.displayMode@
    &&& a.isFavorite == b.isFavorite
}

impl MessageEntity {
    /// Builds a chat message from stored metadata and ordered parts. The
    /// stored display mode must name a mode.
    pub fn toChatMessage<P, E>(&self, parts: Vec<P>) -> (r: ChatMessage<P, E>)
        requires
            display_mode_of(self.displayMode@) is Some,
        ensures
            message_of_entity(*self, parts@, r),
    {
        let displayMode = match parseDisplayMode(self.displayMode.as_str()) {
            Some(m) => m,
            None => ChatMessageDisplayMode::NORMAL,
        };
        ChatMessage {
            sender: self.sender.clone(),
            parts,
            timestamp: self.timestamp,
            roleName: self.roleName.clone(),
            selectedVariantIndex: self.selectedVariantIndex,
            variantCount: 1,
            provider: self.provider.clone(),
            modelName: self.modelName.clone(),
            inputTokens: self.inputTokens,
            outputTokens: self.outputTokens,
            cachedInputTokens: self.cachedInputTokens,
            sentAt: self.sentAt,
            outputDurationMs: self.outputDurationMs,
            waitDurationMs: self.waitDurationMs,
            completedAt: self.completedAt,
            completedExecutionGeneration: self.completedExecutionGeneration,
            displayMode,
            isFavorite: self.isFavorite,
            isVariantPreview: false,
            contentStream: None,
        }
    }

    /// Stores a message's metadata under a chat, a position and an id.
    pub fn fromChatMessage<P, E>(chatId: String, message: ChatMessage<P, E>, orderIndex: i32, messageId: i64) -> (r: Self)
        ensures
            entity_of_message(r, chatId@, message, orderIndex, messageId),
    {
        let displayMode = displayModeName(message.displayMode);
        MessageEntity {
            messageId,
            chatId,
            sender: message.sender,
            timestamp: message.timestamp,
            orderIndex,
            roleName: message.roleName,
            selectedVariantIndex: message.selectedVariantIndex,
            provider: message.provider,
            modelName: message.modelName,
            inputTokens: message.inputTokens,
            outputTokens: message.outputTokens,
            cachedInputTokens: message.cachedInputTokens,
            sentAt: message.sentAt,
            outputDurationMs: message.outputDurationMs,
            waitDurationMs: message.waitDurationMs,
            completedAt: message.completedAt,
            completedExecutionGeneration: message.completedExecutionGeneration,
            displayMode,
            isFavorite: message.isFavorite,
        }
    }
}

/// A stored display-mode name, read and written back, is unchanged.
pub proof fn law_display_mode_round_trip(name: Seq<char>)
    requires
        display_mode_of(name) is Some,
    ensures
        display_mode_name(display_mode_of(name).unwrap()) == name,
{
}

/// Every display mode's stored name reads back as that mode.
pub proof fn law_display_mode_name_parses(m: ChatMessageDisplayMode)
    ensures
        display_mode_of(display_mode_name(m)) == Some(m),
{
    reveal_strlit("NORMAL");
    reveal_strlit("HIDDEN_PLACEHOLDER");
    assert("HIDDEN_PLACEHOLDER"@.len() != "NORMAL"@.len());
}

/// Two messages hold the same values, parts included.
pub open spec fn same_message<P, E>(a: ChatMessage<P, E>, b: ChatMessage<P, E>) -> bool {
    &&& a.sender@ == b.sender@
    &&& a.parts@ == b.parts@
    &&& a.timestamp == b.timestamp
    &&& a.roleName@ == b.roleName@
    &&& a.selectedVariantIndex == b.selectedVariantIndex
    &&& a.variantCount == b.variantCount
    &&& a.provider@ == b.provider@
    &&& a.modelName@ == b.modelName@
    &&& a.inputTokens == b.inputTokens
    &&& a.outputTokens == b.outputTokens
    &&& a.cachedInputTokens == b.cachedInputTokens
    &&& a.sentAt == b.sentAt
    &&& a.outputDurationMs == b.outputDurationMs
    &&& a.waitDurationMs == b.waitDurationMs
    &&& a.completedAt == b.completedAt
    &&& a.completedExecutionGeneration == b.completedExecutionGeneration
    &&& a.displayMode == b.displayMode
    &&& a.isFavorite == b.isFavorite
    &&& a.isVariantPreview == b.isVariantPreview
    &&& a.contentStream == b.contentStream
}

/// Storing a message with one variant, no preview and no live stream, then
/// rebuilding it from the stored record and the message's own parts, gives
/// back the same message, whatever the type of its parts.
pub proof fn law_message_round_trip<P, E>(
    m: ChatMessage<P, E>,
    chatId: Seq<char>,
    orderIndex: i32,
    messageId: i64,
    stored: MessageEntity,
    back: ChatMessage<P, E>,
)
    requires
        m.variantCount == 1,
        !m.isVariantPreview,
        m.contentStream is None,
        entity_of_message(stored, chatId, m, orderIndex, messageId),
        message_of_entity(stored, m.parts@, back),
    ensures
        same_message(back, m),
{
    law_display_mode_name_parses(m.displayMode);
}

/// Storing the runtime form of a stored message record under its own chat,
/// position and id gives back the same record.
pub proof fn law_message_entity_round_trip<P, E>(e: MessageEntity, parts: Seq<P>, m: ChatMessage<P, E>, back: MessageEntity)
    requires
        message_of_entity(e, parts, m),
        entity_of_message(back, e.chatId@, m, e.orderIndex, e.messageId),
    ensures
        same_message_entity(back, e),
{
}

/// The number of messages stored for one chat.
#[derive(Clone, Debug, PartialEq, Eq)]
pub struct ChatMessageCount {
    pub chatId: String,
    pub count: i32,
}

} // verus!
