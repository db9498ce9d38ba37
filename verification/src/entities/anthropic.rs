//! The Anthropic messages schema and its translation to and from the
//! canonical schema.
//!
//! The native schema is poorer than the canonical one in three ways, and the
//! translation is lossy there by design:
//!
//! - it has one system prompt, a field of the request: only a leading system
//!   message is carried over, and system messages elsewhere are dropped;
//! - a message is a list of blocks, and only text survives a translation:
//!   the text blocks or parts are joined with newlines, and everything else
//!   is dropped;
//! - a tool choice names no tool: a named choice comes back with an empty
//!   name.

use crate::entities::{
    Choice, ChoiceView, CompletionNamedToolChoice, CompletionNamedToolChoiceView,
    CompletionRequestAssistantMessage, CompletionRequestAssistantMessageView,
    CompletionRequestMessage, CompletionRequestMessageContentPart,
    CompletionRequestMessageContentPartView, CompletionRequestMessageView,
    CompletionRequestSystemMessage, CompletionRequestSystemMessageView,
    CompletionRequestUserMessage, CompletionRequestUserMessageContent,
    CompletionRequestUserMessageContentView, CompletionRequestUserMessageView,
    CompletionResponseMessage, CompletionResponseMessageView, CompletionTool,
    CompletionToolChoiceOption, CompletionToolChoiceOptionView, CompletionToolType,
    CompletionToolView, CompletionUsage, CompletionUsageView, CreateCompletionRequest,
    CreateCompletionRequestView, CreateCompletionResponse, CreateCompletionResponseView,
    result_view, usage_from_counts, FunctionName, FunctionNameView, FunctionObject,
    FunctionObjectView, Scalar, Stop, StopView,
};
use crate::llm_delegate::{ProviderError, ProviderErrorView};
use crate::text::{join_lines, push_line};
use vstd::prelude::*;

verus! {

/// The token limit sent to the backend when the request names none.
pub const DEFAULT_MAX_TOKENS: u32 = 4096;

/// Why a request could not be translated.
#[derive(Clone, Copy, Debug, PartialEq, Eq, Structural)]
pub enum TranslationError {
    /// The request names no model.
    MissingModel,
}

impl TranslationError {
    /// The message of this error.
    pub fn to_string(&self) -> (message: String)
        ensures
            message@ == "model is required"@,
    {
        "model is required".to_string()
    }
}

impl DeepView for TranslationError {
    type V = TranslationError;

    open spec fn deep_view(&self) -> TranslationError {
        *self
    }
}

/// The author of a native message. The schema has no system role: the
/// system prompt is a field of the request.
#[derive(Clone, Copy, Debug, PartialEq, Eq, Structural)]
pub enum Role {
    User,
    Assistant,
}

impl DeepView for Role {
    type V = Role;

    open spec fn deep_view(&self) -> Role {
        *self
    }
}

/// How the model may use the tools of a native request.
#[derive(Clone, Copy, Debug, PartialEq, Eq, Structural)]
pub enum ToolChoiceKind {
    /// The model decides whether to call a tool.
    Auto,
    /// The model must call some tool.
    Any,
    /// The model must call one particular tool.
    Tool,
}

impl DeepView for ToolChoiceKind {
    type V = ToolChoiceKind;

    open spec fn deep_view(&self) -> ToolChoiceKind {
        *self
    }
}

/// The tool choice of a native request. It carries no tool name.
#[derive(Clone, Copy, Debug, PartialEq, Eq, Structural)]
pub struct ToolChoice {
    pub kind: ToolChoiceKind,
}

impl DeepView for ToolChoice {
    type V = ToolChoice;

    open spec fn deep_view(&self) -> ToolChoice {
        *self
    }
}

/// Token counts as the backend reports them: the input count may be missing.
#[derive(Clone, Copy, Debug, PartialEq, Eq, Structural)]
pub struct Usage {
    pub input_tokens: Option<u32>,
    pub output_tokens: u32,
}

impl DeepView for Usage {
    type V = Usage;

    open spec fn deep_view(&self) -> Usage {
        *self
    }
}

/// One block of the content of a native message.
#[derive(Clone, Debug, PartialEq, Eq)]
pub enum Content {
    /// A run of text.
    Text { text: String },
    /// An image, base64 encoded.
    Image { media_type: String, data: String },
    /// A tool call made by the model; `input` is JSON text.
    ToolUse { id: String, name: String, input: String },
    /// The result of an earlier tool call.
    ToolResult { tool_use_id: String, content: String },
}

/// The mathematical value of a [`Content`].
pub enum ContentView {
    Text { text: Seq<char> },
    Image { media_type: Seq<char>, data: Seq<char> },
    ToolUse { id: Seq<char>, name: Seq<char>, input: Seq<char> },
    ToolResult { tool_use_id: Seq<char>, content: Seq<char> },
}

impl DeepView for Content {
    type V = ContentView;

    open spec fn deep_view(&self) -> ContentView {
        match self {
            Content::Text { text } => ContentView::Text { text: text.deep_view() },
            Content::Image { media_type, data } => ContentView::Image {
                media_type: media_type.deep_view(),
                data: data.deep_view(),
            },
            Content::ToolUse { id, name, input } => ContentView::ToolUse {
                id: id.deep_view(),
                name: name.deep_view(),
                input: input.deep_view(),
            },
            Content::ToolResult { tool_use_id, content } => ContentView::ToolResult {
                tool_use_id: tool_use_id.deep_view(),
                content: content.deep_view(),
            },
        }
    }
}

/// One message of a native request.
#[derive(Clone, Debug, PartialEq, Eq)]
pub struct Message {
    pub role: Role,
    pub content: Vec<Content>,
}

/// The mathematical value of a [`Message`].
pub struct MessageView {
    pub role: Role,
    pub content: Seq<ContentView>,
}

impl DeepView for Message {
    type V = MessageView;

    open spec fn deep_view(&self) -> MessageView {
        MessageView {
            role: self.role.deep_view(),
            content: self.content.deep_view(),
        }
    }
}

/// Metadata of a native request.
#[derive(Clone, Debug, PartialEq, Eq)]
pub struct Metadata {
    pub user_id: Option<String>,
}

/// The mathematical value of a [`Metadata`].
pub struct MetadataView {
    pub user_id: Option<Seq<char>>,
}

impl DeepView for Metadata {
    type V = MetadataView;

    open spec fn deep_view(&self) -> MetadataView {
        MetadataView {
            user_id: self.user_id.deep_view(),
        }
    }
}

/// The input schema of a native tool.
#[derive(Clone, Debug, PartialEq, Eq)]
pub struct ToolInputSchema {
    pub type_: String,
    /// The schema of the properties, as JSON text.
    pub properties: Option<String>,
}

/// The mathematical value of a [`ToolInputSchema`].
pub struct ToolInputSchemaView {
    pub type_: Seq<char>,
    pub properties: Option<Seq<char>>,
}

impl DeepView for ToolInputSchema {
    type V = ToolInputSchemaView;

    open spec fn deep_view(&self) -> ToolInputSchemaView {
        ToolInputSchemaView {
            type_: self.type_.deep_view(),
            properties: self.properties.deep_view(),
        }
    }
}

/// A tool offered to the model, in the native schema.
#[derive(Clone, Debug, PartialEq, Eq)]
pub struct Tool {
    pub name: String,
    pub description: Option<String>,
    pub input_schema: ToolInputSchema,
}

/// The mathematical value of a [`Tool`].
pub struct ToolView {
    pub name: Seq<char>,
    pub description: Option<Seq<char>>,
    pub input_schema: ToolInputSchemaView,
}

impl DeepView for Tool {
    type V = ToolView;

    open spec fn deep_view(&self) -> ToolView {
        ToolView {
            name: self.name.deep_view(),
            description: self.description.deep_view(),
            input_schema: self.input_schema.deep_view(),
        }
    }
}

/// A request in the native schema.
#[derive(Clone, Debug, PartialEq, Eq)]
pub struct CreateMessageRequest {
    pub model: String,
    pub messages: Vec<Message>,
    pub max_tokens: u32,
    pub metadata: Option<Metadata>,
    pub stop_sequences: Option<Vec<String>>,
    pub system: Option<String>,
    pub temperature: Option<Scalar>,
    pub tool_choice: Option<ToolChoice>,
    pub tools: Option<Vec<Tool>>,
    pub top_p: Option<Scalar>,
    pub top_k: Option<u32>,
}

/// The mathematical value of a [`CreateMessageRequest`].
pub struct CreateMessageRequestView {
    pub model: Seq<char>,
    pub messages: Seq<MessageView>,
    pub max_tokens: u32,
    pub metadata: Option<MetadataView>,
    pub stop_sequences: Option<Seq<Seq<char>>>,
    pub system: Option<Seq<char>>,
    pub temperature: Option<Scalar>,
    pub tool_choice: Option<ToolChoice>,
    pub tools: Option<Seq<ToolView>>,
    pub top_p: Option<Scalar>,
    pub top_k: Option<u32>,
}

impl DeepView for CreateMessageRequest {
    type V = CreateMessageRequestView;

    open spec fn deep_view(&self) -> CreateMessageRequestView {
        CreateMessageRequestView {
            model: self.model.deep_view(),
            messages: self.messages.deep_view(),
            max_tokens: self.max_tokens.deep_view(),
            metadata: self.metadata.deep_view(),
            stop_sequences: self.stop_sequences.deep_view(),
            system: self.system.deep_view(),
            temperature: self.temperature.deep_view(),
            tool_choice: self.tool_choice.deep_view(),
            tools: self.tools.deep_view(),
            top_p: self.top_p.deep_view(),
            top_k: self.top_k.deep_view(),
        }
    }
}

/// A successful native response.
#[derive(Clone, Debug, PartialEq, Eq)]
pub struct MessageResponse {
    pub id: String,
    pub content: Vec<Content>,
    pub model: String,
    pub usage: Usage,
}

/// The mathematical value of a [`MessageResponse`].
pub struct MessageResponseView {
    pub id: Seq<char>,
    pub content: Seq<ContentView>,
    pub model: Seq<char>,
    pub usage: Usage,
}

impl DeepView for MessageResponse {
    type V = MessageResponseView;

    open spec fn deep_view(&self) -> MessageResponseView {
        MessageResponseView {
            id: self.id.deep_view(),
            content: self.content.deep_view(),
            model: self.model.deep_view(),
            usage: self.usage.deep_view(),
        }
    }
}

/// The error a backend reports in place of a message.
#[derive(Clone, Debug, PartialEq, Eq)]
pub struct ApiError {
    pub kind: String,
    pub message: String,
}

/// The mathematical value of a [`ApiError`].
pub struct ApiErrorView {
    pub kind: Seq<char>,
    pub message: Seq<char>,
}

impl DeepView for ApiError {
    type V = ApiErrorView;

    open spec fn deep_view(&self) -> ApiErrorView {
        ApiErrorView {
            kind: self.kind.deep_view(),
            message: self.message.deep_view(),
        }
    }
}

/// What a backend answers to a native request.
#[derive(Clone, Debug, PartialEq, Eq)]
pub enum CreateMessageResponse {
    Message(MessageResponse),
    Error { error: ApiError },
}

/// The mathematical value of a [`CreateMessageResponse`].
pub enum CreateMessageResponseView {
    Message(MessageResponseView),
    Error { error: ApiErrorView },
}

impl DeepView for CreateMessageResponse {
    type V = CreateMessageResponseView;

    open spec fn deep_view(&self) -> CreateMessageResponseView {
        match self {
            CreateMessageResponse::Message(inner) => CreateMessageResponseView::Message(
                inner.deep_view(),
            ),
            CreateMessageResponse::Error { error } => CreateMessageResponseView::Error {
                error: error.deep_view(),
            },
        }
    }
}
// ---------------------------------------------------------------------------
// Canonical to native
// ---------------------------------------------------------------------------

/// The texts of the text parts of a structured message, in order.
pub open spec fn part_texts(parts: Seq<CompletionRequestMessageContentPartView>) -> Seq<Seq<char>>
    decreases parts.len(),
{
    if parts.len() == 0 {
        Seq::empty()
    } else {
        let rest = part_texts(parts.drop_last());
        match parts.last() {
            CompletionRequestMessageContentPartView::Text { text } => rest.push(text),
            CompletionRequestMessageContentPartView::ImageUrl { .. } => rest,
        }
    }
}

/// The text a user message is flattened to.
pub open spec fn user_text(content: CompletionRequestUserMessageContentView) -> Seq<char> {
    match content {
        CompletionRequestUserMessageContentView::Text(text) => text,
        CompletionRequestUserMessageContentView::Array(parts) => join_lines(part_texts(parts)),
    }
}

/// A native message that holds `text` as its one block.
pub open spec fn text_message(role: Role, text: Seq<char>) -> MessageView {
    MessageView { role, content: seq![ContentView::Text { text }] }
}

/// The native message a canonical message becomes, if any.
pub open spec fn native_message(message: CompletionRequestMessageView) -> Option<MessageView> {
    match message {
        CompletionRequestMessageView::System(_) => None,
        CompletionRequestMessageView::User(user) => Some(
            text_message(Role::User, user_text(user.content)),
        ),
        CompletionRequestMessageView::Assistant(assistant) => Some(
            text_message(
                Role::Assistant,
                match assistant.content {
                    Some(text) => text,
                    None => Seq::empty(),
                },
            ),
        ),
    }
}

/// The native messages of a conversation: one for each user and assistant
/// message, in order.
pub open spec fn native_messages(messages: Seq<CompletionRequestMessageView>) -> Seq<MessageView>
    decreases messages.len(),
{
    if messages.len() == 0 {
        Seq::empty()
    } else {
        let rest = native_messages(messages.drop_last());
        match native_message(messages.last()) {
            Some(message) => rest.push(message),
            None => rest,
        }
    }
}

/// The content of the system message that opens a conversation, if one does.
pub open spec fn leading_system(messages: Seq<CompletionRequestMessageView>) -> Option<Seq<char>> {
    if messages.len() > 0 {
        match messages[0] {
            CompletionRequestMessageView::System(system) => Some(system.content),
            _ => None,
        }
    } else {
        None
    }
}

/// The native stop sequences of a canonical stop setting.
pub open spec fn native_stop(stop: Option<StopView>) -> Option<Seq<Seq<char>>> {
    match stop {
        Some(StopView::StringArray(sequences)) => Some(sequences),
        Some(StopView::String(sequence)) => Some(seq![sequence]),
        None => None,
    }
}

/// The native tool choice of a canonical one. The name of a named choice is
/// lost, and a disabled choice becomes an automatic one.
pub open spec fn native_tool_choice(choice: CompletionToolChoiceOptionView) -> ToolChoice {
    match choice {
        CompletionToolChoiceOptionView::Auto => ToolChoice { kind: ToolChoiceKind::Auto },
        CompletionToolChoiceOptionView::Required => ToolChoice { kind: ToolChoiceKind::Any },
        CompletionToolChoiceOptionView::Named(_) => ToolChoice { kind: ToolChoiceKind::Tool },
        CompletionToolChoiceOptionView::Disabled => ToolChoice { kind: ToolChoiceKind::Auto },
    }
}

/// The native form of a canonical tool.
pub open spec fn native_tool(tool: CompletionToolView) -> ToolView {
    ToolView {
        name: tool.function.name,
        description: tool.function.description,
        input_schema: ToolInputSchemaView {
            type_: "object"@,
            properties: tool.function.parameters,
        },
    }
}

/// The native form of each tool of a list.
pub open spec fn native_tools(tools: Seq<CompletionToolView>) -> Seq<ToolView> {
    Seq::new(tools.len(), |i: int| native_tool(tools[i]))
}

/// The native request a canonical request is translated to, or the reason
/// why it cannot be.
pub open spec fn native_request(request: CreateCompletionRequestView) -> Result<
    CreateMessageRequestView,
    TranslationError,
> {
    if request.model.len() == 0 {
        Err(TranslationError::MissingModel)
    } else {
        Ok(
            CreateMessageRequestView {
                model: request.model,
                messages: native_messages(request.messages),
                max_tokens: match request.max_tokens {
                    Some(limit) => limit,
                    None => DEFAULT_MAX_TOKENS,
                },
                metadata: match request.user {
                    Some(user) => Some(MetadataView { user_id: Some(user) }),
                    None => None,
                },
                stop_sequences: native_stop(request.stop),
                system: leading_system(request.messages),
                temperature: request.temperature,
                tool_choice: match request.tool_choice {
                    Some(choice) => Some(native_tool_choice(choice)),
                    None => None,
                },
                tools: match request.tools {
                    Some(tools) => Some(native_tools(tools)),
                    None => None,
                },
                top_p: request.top_p,
                top_k: None,
            },
        )
    }
}

// ---------------------------------------------------------------------------
// Native to canonical
// ---------------------------------------------------------------------------

/// The texts of the text blocks of a native message, in order.
pub open spec fn block_texts(blocks: Seq<ContentView>) -> Seq<Seq<char>>
    decreases blocks.len(),
{
    if blocks.len() == 0 {
        Seq::empty()
    } else {
        let rest = block_texts(blocks.drop_last());
        match blocks.last() {
            ContentView::Text { text } => rest.push(text),
            _ => rest,
        }
    }
}

/// The canonical message a native message becomes.
pub open spec fn canonical_message(message: MessageView) -> CompletionRequestMessageView {
    let text = join_lines(block_texts(message.content));
    match message.role {
        Role::User => CompletionRequestMessageView::User(
            CompletionRequestUserMessageView {
                content: CompletionRequestUserMessageContentView::Text(text),
                name: None,
            },
        ),
        Role::Assistant => CompletionRequestMessageView::Assistant(
            CompletionRequestAssistantMessageView {
                content: Some(text),
                name: None,
                tool_calls: None,
            },
        ),
    }
}

/// The system message that carries a native system prompt.
pub open spec fn system_message(content: Seq<char>) -> CompletionRequestMessageView {
    CompletionRequestMessageView::System(
        CompletionRequestSystemMessageView { content, name: None },
    )
}

/// The canonical conversation of a native request: its system prompt first,
/// if it has one, then its messages in order.
pub open spec fn canonical_messages(
    system: Option<Seq<char>>,
    messages: Seq<MessageView>,
) -> Seq<CompletionRequestMessageView> {
    let translated = Seq::new(messages.len(), |i: int| canonical_message(messages[i]));
    match system {
        Some(content) => seq![system_message(content)] + translated,
        None => translated,
    }
}

/// The canonical tool choice of a native one. A choice of one particular
/// tool comes back with an empty name: the native choice holds none.
pub open spec fn canonical_tool_choice(choice: ToolChoice) -> CompletionToolChoiceOptionView {
    match choice.kind {
        ToolChoiceKind::Auto => CompletionToolChoiceOptionView::Auto,
        ToolChoiceKind::Any => CompletionToolChoiceOptionView::Required,
        ToolChoiceKind::Tool => CompletionToolChoiceOptionView::Named(
            CompletionNamedToolChoiceView {
                kind: CompletionToolType::Function,
                function: FunctionNameView { name: Seq::empty() },
            },
        ),
    }
}

/// The canonical form of a native tool. A tool without a properties schema
/// gets the JSON value `null` as its parameters.
pub open spec fn canonical_tool(tool: ToolView) -> CompletionToolView {
    CompletionToolView {
        kind: CompletionToolType::Function,
        function: FunctionObjectView {
            name: tool.name,
            description: tool.description,
            parameters: Some(
                match tool.input_schema.properties {
                    Some(properties) => properties,
                    None => "null"@,
                },
            ),
        },
    }
}

/// The canonical form of each tool of a list.
pub open spec fn canonical_tools(tools: Seq<ToolView>) -> Seq<CompletionToolView> {
    Seq::new(tools.len(), |i: int| canonical_tool(tools[i]))
}

/// The canonical request a native request is translated to, or the reason
/// why it cannot be.
pub open spec fn canonical_request(request: CreateMessageRequestView) -> Result<
    CreateCompletionRequestView,
    TranslationError,
> {
    if request.model.len() == 0 {
        Err(TranslationError::MissingModel)
    } else {
        Ok(
            CreateCompletionRequestView {
                messages: canonical_messages(request.system, request.messages),
                model: request.model,
                frequency_penalty: None,
                logprobs: None,
                top_logprobs: None,
                max_tokens: Some(request.max_tokens),
                n: None,
                presence_penalty: None,
                seed: None,
                stop: match request.stop_sequences {
                    Some(sequences) => Some(StopView::StringArray(sequences)),
                    None => None,
                },
                stream: None,
                temperature: request.temperature,
                top_p: request.top_p,
                tools: match request.tools {
                    Some(tools) => Some(canonical_tools(tools)),
                    None => None,
                },
                tool_choice: match request.tool_choice {
                    Some(choice) => Some(canonical_tool_choice(choice)),
                    None => None,
                },
                parallel_tool_calls: None,
                user: match request.metadata {
                    Some(metadata) => metadata.user_id,
                    None => None,
                },
            },
        )
    }
}

// ---------------------------------------------------------------------------
// The translations
// ---------------------------------------------------------------------------

/// Joins the text parts of a structured message with newlines.
fn flatten_parts(parts: &Vec<CompletionRequestMessageContentPart>) -> (text: String)
    ensures
        text@ == join_lines(part_texts(parts.deep_view())),
{
    let mut out = String::new();
    let mut any = false;
    let ghost mut lines: Seq<Seq<char>> = Seq::empty();
    let mut i: usize = 0;
    while i < parts.len()
        invariant
            i <= parts.len(),
            lines == part_texts(parts.deep_view().take(i as int)),
            out@ == join_lines(lines),
            any == (lines.len() > 0),
        decreases parts.len() - i,
    {
        proof {
            assert(parts.deep_view().take(i + 1).drop_last() =~= parts.deep_view().take(i as int));
        }
        match &parts[i] {
            CompletionRequestMessageContentPart::Text { text } => {
                push_line(&mut out, any, Ghost(lines), text.as_str());
                proof {
                    lines = lines.push(text@);
                }
                any = true;
            },
            CompletionRequestMessageContentPart::ImageUrl { .. } => {},
        }
        i += 1;
    }
    proof {
        assert(parts.deep_view().take(parts.len() as int) =~= parts.deep_view());
    }
    out
}

/// Joins the text blocks of a native message with newlines.
fn flatten_blocks(blocks: &Vec<Content>) -> (text: String)
    ensures
        text@ == join_lines(block_texts(blocks.deep_view())),
{
    let mut out = String::new();
    let mut any = false;
    let ghost mut lines: Seq<Seq<char>> = Seq::empty();
    let mut i: usize = 0;
    while i < blocks.len()
        invariant
            i <= blocks.len(),
            lines == block_texts(blocks.deep_view().take(i as int)),
            out@ == join_lines(lines),
            any == (lines.len() > 0),
        decreases blocks.len() - i,
    {
        proof {
            assert(blocks.deep_view().take(i + 1).drop_last() =~= blocks.deep_view().take(
                i as int,
            ));
        }
        match &blocks[i] {
            Content::Text { text } => {
                push_line(&mut out, any, Ghost(lines), text.as_str());
                proof {
                    lines = lines.push(text@);
                }
                any = true;
            },
            _ => {},
        }
        i += 1;
    }
    proof {
        assert(blocks.deep_view().take(blocks.len() as int) =~= blocks.deep_view());
    }
    out
}

/// A native message that holds `text` as its one block.
fn text_message_of(role: Role, text: String) -> (message: Message)
    ensures
        message.deep_view() == text_message(role, text@),
{
    let mut content: Vec<Content> = Vec::new();
    content.push(Content::Text { text });
    let message = Message { role, content };
    assert(message.deep_view().content =~= seq![ContentView::Text { text: text@ }]);
    message
}

/// Translates one canonical message; a system message has no translation.
fn into_native_message(message: CompletionRequestMessage) -> (r: Option<Message>)
    ensures
        r.deep_view() == native_message(message.deep_view()),
{
    match message {
        CompletionRequestMessage::System(_) => None,
        CompletionRequestMessage::User(user) => {
            let text = match user.content {
                CompletionRequestUserMessageContent::Text(text) => text,
                CompletionRequestUserMessageContent::Array(parts) => flatten_parts(&parts),
            };
            Some(text_message_of(Role::User, text))
        },
        CompletionRequestMessage::Assistant(assistant) => {
            let text = match assistant.content {
                Some(text) => text,
                None => String::new(),
            };
            Some(text_message_of(Role::Assistant, text))
        },
    }
}

/// Translates a conversation, dropping its system messages.
fn into_native_messages(messages: Vec<CompletionRequestMessage>) -> (r: Vec<Message>)
    ensures
        r.deep_view() == native_messages(messages.deep_view()),
{
    let ghost all = messages.deep_view();
    let mut out: Vec<Message> = Vec::new();
    for message in it: messages
        invariant
            all.len() == it.seq().len(),
            forall|i: int| 0 <= i < all.len() ==> all[i] == (#[trigger] it.seq()[i]).deep_view(),
            out.deep_view() == native_messages(all.take(it.index() as int)),
    {
        proof {
            assert(all.take(it.index() + 1).drop_last() =~= all.take(it.index() as int));
        }
        match into_native_message(message) {
            Some(native) => {
                out.push(native);
            },
            None => {},
        }
    }
    proof {
        assert(all.take(all.len() as int) =~= all);
    }
    out
}

/// The content of the system message that opens a conversation, if one does.
fn leading_system_of(messages: &Vec<CompletionRequestMessage>) -> (r: Option<String>)
    ensures
        r.deep_view() == leading_system(messages.deep_view()),
{
    if messages.len() > 0 {
        match &messages[0] {
            CompletionRequestMessage::System(system) => Some(system.content.clone()),
            _ => None,
        }
    } else {
        None
    }
}

/// Translates a stop setting.
fn into_native_stop(stop: Option<Stop>) -> (r: Option<Vec<String>>)
    ensures
        r.deep_view() == native_stop(stop.deep_view()),
{
    match stop {
        Some(Stop::StringArray(sequences)) => Some(sequences),
        Some(Stop::String(sequence)) => {
            let mut sequences: Vec<String> = Vec::new();
            sequences.push(sequence);
            Some(sequences)
        },
        None => None,
    }
}

/// Translates a tool choice.
fn into_native_tool_choice(choice: CompletionToolChoiceOption) -> (r: ToolChoice)
    ensures
        r == native_tool_choice(choice.deep_view()),
{
    match choice {
        CompletionToolChoiceOption::Auto => ToolChoice { kind: ToolChoiceKind::Auto },
        CompletionToolChoiceOption::Required => ToolChoice { kind: ToolChoiceKind::Any },
        CompletionToolChoiceOption::Named(_) => ToolChoice { kind: ToolChoiceKind::Tool },
        CompletionToolChoiceOption::Disabled => ToolChoice { kind: ToolChoiceKind::Auto },
    }
}

/// Translates one tool.
fn into_native_tool(tool: CompletionTool) -> (r: Tool)
    ensures
        r.deep_view() == native_tool(tool.deep_view()),
{
    Tool {
        name: tool.function.name,
        description: tool.function.description,
        input_schema: ToolInputSchema {
            type_: "object".to_string(),
            properties: tool.function.parameters,
        },
    }
}

/// Translates a list of tools.
fn into_native_tools(tools: Vec<CompletionTool>) -> (r: Vec<Tool>)
    ensures
        r.deep_view() == native_tools(tools.deep_view()),
{
    let ghost all = tools.deep_view();
    let mut out: Vec<Tool> = Vec::new();
    for tool in it: tools
        invariant
            all.len() == it.seq().len(),
            forall|i: int| 0 <= i < all.len() ==> all[i] == (#[trigger] it.seq()[i]).deep_view(),
            out.deep_view() == native_tools(all.take(it.index() as int)),
    {
        let ghost before = out.deep_view();
        let native = into_native_tool(tool);
        out.push(native);
        assert(out.deep_view() =~= before.push(native.deep_view()));
    }
    out
}

impl CreateCompletionRequest {
    /// Translates the request to the native schema.
    ///
    /// Fails only when the request names no model. Everything the native
    /// schema cannot hold is dropped: see the notes at the top of this module.
    pub fn into_message_request(self) -> (r: Result<CreateMessageRequest, TranslationError>)
        ensures
            result_view(r) == native_request(self.deep_view()),
    {
        if self.model.as_str().is_empty() {
            return Err(TranslationError::MissingModel);
        }
        let system = leading_system_of(&self.messages);
        Ok(
            CreateMessageRequest {
                model: self.model,
                messages: into_native_messages(self.messages),
                max_tokens: match self.max_tokens {
                    Some(limit) => limit,
                    None => DEFAULT_MAX_TOKENS,
                },
                metadata: match self.user {
                    Some(user) => Some(Metadata { user_id: Some(user) }),
                    None => None,
                },
                stop_sequences: into_native_stop(self.stop),
                system,
                temperature: self.temperature,
                tool_choice: match self.tool_choice {
                    Some(choice) => Some(into_native_tool_choice(choice)),
                    None => None,
                },
                tools: match self.tools {
                    Some(tools) => Some(into_native_tools(tools)),
                    None => None,
                },
                top_p: self.top_p,
                top_k: None,
            },
        )
    }

    /// Translates a native request to the canonical schema.
    ///
    /// Fails only when the request names no model.
    pub fn from_message_request(request: CreateMessageRequest) -> (r: Result<
        CreateCompletionRequest,
        TranslationError,
    >)
        ensures
            result_view(r) == canonical_request(request.deep_view()),
    {
        if request.model.as_str().is_empty() {
            return Err(TranslationError::MissingModel);
        }
        Ok(
            CreateCompletionRequest {
                messages: from_native_messages(request.system, request.messages),
                model: request.model,
                frequency_penalty: None,
                logprobs: None,
                top_logprobs: None,
                max_tokens: Some(request.max_tokens),
                n: None,
                presence_penalty: None,
                seed: None,
                stop: match request.stop_sequences {
                    Some(sequences) => Some(Stop::StringArray(sequences)),
                    None => None,
                },
                stream: None,
                temperature: request.temperature,
                top_p: request.top_p,
                tools: match request.tools {
                    Some(tools) => Some(from_native_tools(tools)),
                    None => None,
                },
                tool_choice: match request.tool_choice {
                    Some(choice) => Some(from_native_tool_choice(choice)),
                    None => None,
                },
                parallel_tool_calls: None,
                user: match request.metadata {
                    Some(metadata) => metadata.user_id,
                    None => None,
                },
            },
        )
    }
}

/// Translates one native message.
fn from_native_message(message: Message) -> (r: CompletionRequestMessage)
    ensures
        r.deep_view() == canonical_message(message.deep_view()),
{
    let text = flatten_blocks(&message.content);
    match message.role {
        Role::User => CompletionRequestMessage::User(
            CompletionRequestUserMessage {
                content: CompletionRequestUserMessageContent::Text(text),
                name: None,
            },
        ),
        Role::Assistant => CompletionRequestMessage::Assistant(
            CompletionRequestAssistantMessage { content: Some(text), name: None, tool_calls: None },
        ),
    }
}

/// Translates a native conversation, its system prompt first.
fn from_native_messages(system: Option<String>, messages: Vec<Message>) -> (r: Vec<
    CompletionRequestMessage,
>)
    ensures
        r.deep_view() == canonical_messages(system.deep_view(), messages.deep_view()),
{
    let ghost all = messages.deep_view();
    let ghost prompt = system.deep_view();
    let mut out: Vec<CompletionRequestMessage> = Vec::new();
    match system {
        Some(content) => {
            out.push(
                CompletionRequestMessage::System(
                    CompletionRequestSystemMessage { content, name: None },
                ),
            );
        },
        None => {},
    }
    for message in it: messages
        invariant
            all.len() == it.seq().len(),
            forall|i: int| 0 <= i < all.len() ==> all[i] == (#[trigger] it.seq()[i]).deep_view(),
            out.deep_view() == canonical_messages(prompt, all.take(it.index() as int)),
    {
        let ghost before = out.deep_view();
        let canonical = from_native_message(message);
        out.push(canonical);
        assert(out.deep_view() =~= before.push(canonical.deep_view()));
    }
    out
}

/// Translates a native tool choice.
fn from_native_tool_choice(choice: ToolChoice) -> (r: CompletionToolChoiceOption)
    ensures
        r.deep_view() == canonical_tool_choice(choice),
{
    match choice.kind {
        ToolChoiceKind::Auto => CompletionToolChoiceOption::Auto,
        ToolChoiceKind::Any => CompletionToolChoiceOption::Required,
        ToolChoiceKind::Tool => CompletionToolChoiceOption::Named(
            CompletionNamedToolChoice {
                kind: CompletionToolType::Function,
                function: FunctionName { name: String::new() },
            },
        ),
    }
}

/// Translates one native tool.
fn from_native_tool(tool: Tool) -> (r: CompletionTool)
    ensures
        r.deep_view() == canonical_tool(tool.deep_view()),
{
    CompletionTool {
        kind: CompletionToolType::Function,
        function: FunctionObject {
            name: tool.name,
            description: tool.description,
            parameters: Some(
                match tool.input_schema.properties {
                    Some(properties) => properties,
                    None => "null".to_string(),
                },
            ),
        },
    }
}

/// Translates a list of native tools.
fn from_native_tools(tools: Vec<Tool>) -> (r: Vec<CompletionTool>)
    ensures
        r.deep_view() == canonical_tools(tools.deep_view()),
{
    let ghost all = tools.deep_view();
    let mut out: Vec<CompletionTool> = Vec::new();
    for tool in it: tools
        invariant
            all.len() == it.seq().len(),
            forall|i: int| 0 <= i < all.len() ==> all[i] == (#[trigger] it.seq()[i]).deep_view(),
            out.deep_view() == canonical_tools(all.take(it.index() as int)),
    {
        let ghost before = out.deep_view();
        let canonical = from_native_tool(tool);
        out.push(canonical);
        assert(out.deep_view() =~= before.push(canonical.deep_view()));
    }
    out
}

// ---------------------------------------------------------------------------
// Responses
// ---------------------------------------------------------------------------

/// The text of the first block of a response, where that block is text.
pub open spec fn first_text(content: Seq<ContentView>) -> Option<Seq<char>> {
    if content.len() > 0 {
        match content[0] {
            ContentView::Text { text } => Some(text),
            _ => None,
        }
    } else {
        None
    }
}

/// The canonical token counts of a native response: a missing input count
/// is zero, and the total is the sum of the two counts.
pub open spec fn canonical_usage(usage: Usage) -> CompletionUsageView {
    usage_from_counts(usage.input_tokens, Some(usage.output_tokens))
}

/// The creation time of a response made at `now` seconds since the epoch:
/// the low 32 bits of `now`.
pub open spec fn created_at(now: u64) -> u32 {
    (now % 0x1_0000_0000) as u32
}

/// The canonical response of a native response received at `now` seconds
/// since the epoch, or the upstream failure that the backend reported.
pub open spec fn canonical_response(response: CreateMessageResponseView, now: u64) -> Result<
    CreateCompletionResponseView,
    ProviderErrorView,
> {
    match response {
        CreateMessageResponseView::Message(message) => Ok(
            CreateCompletionResponseView {
                id: message.id,
                choices: seq![
                    ChoiceView {
                        index: 0,
                        message: CompletionResponseMessageView {
                            content: first_text(message.content),
                            tool_calls: None,
                            role: crate::entities::Role::Assistant,
                        },
                        finish_reason: None,
                        logprobs: None,
                    },
                ],
                created: created_at(now),
                model: message.model,
                system_fingerprint: None,
                object: "chat.completion"@,
                usage: Some(canonical_usage(message.usage)),
            },
        ),
        CreateMessageResponseView::Error { error } => Err(
            ProviderErrorView::Upstream(error.message),
        ),
    }
}

/// The text of the first block of a response, where that block is text.
fn first_text_of(content: &Vec<Content>) -> (r: Option<String>)
    ensures
        r.deep_view() == first_text(content.deep_view()),
{
    if content.len() > 0 {
        match &content[0] {
            Content::Text { text } => Some(text.clone()),
            _ => None,
        }
    } else {
        None
    }
}

impl CreateCompletionResponse {
    /// Translates what a backend answered at `now` seconds since the epoch.
    ///
    /// A message becomes a response with one choice, which holds the text of
    /// the first block if that block is text, and no content otherwise. An
    /// error becomes an upstream failure that carries the backend's message.
    pub fn from_message_response(response: CreateMessageResponse, now: u64) -> (r: Result<
        CreateCompletionResponse,
        ProviderError,
    >)
        ensures
            result_view(r) == canonical_response(response.deep_view(), now),
    {
        match response {
            CreateMessageResponse::Message(message) => {
                let usage = CompletionUsage::from_counts(
                    message.usage.input_tokens,
                    Some(message.usage.output_tokens),
                );
                let mut choices: Vec<Choice> = Vec::new();
                choices.push(
                    Choice {
                        index: 0,
                        message: CompletionResponseMessage {
                            content: first_text_of(&message.content),
                            tool_calls: None,
                            role: crate::entities::Role::Assistant,
                        },
                        finish_reason: None,
                        logprobs: None,
                    },
                );
                let created = #[verifier::truncate]
                (now as u32);
                assert(created == created_at(now)) by (bit_vector)
                    requires
                        created == now as u32,
                ;
                let canonical = CreateCompletionResponse {
                    id: message.id,
                    choices,
                    created,
                    model: message.model,
                    system_fingerprint: None,
                    object: "chat.completion".to_string(),
                    usage: Some(usage),
                };
                assert(canonical.deep_view().choices =~= canonical_response(
                    response.deep_view(),
                    now,
                )->Ok_0.choices);
                Ok(canonical)
            },
            CreateMessageResponse::Error { error } => Err(ProviderError::Upstream(error.message)),
        }
    }
}

// ---------------------------------------------------------------------------
// Laws
// ---------------------------------------------------------------------------

/// A request that names a model and opens with a system message keeps the
/// content of that message, as its first message, through a translation to
/// the native schema and back.
pub proof fn lemma_round_trip_keeps_leading_system(request: CreateCompletionRequestView)
    requires
        request.model.len() > 0,
        request.messages.len() > 0,
        request.messages[0] is System,
    ensures
        native_request(request) is Ok,
        canonical_request(native_request(request)->Ok_0) is Ok,
        canonical_request(native_request(request)->Ok_0)->Ok_0.messages.len() > 0,
        canonical_request(native_request(request)->Ok_0)->Ok_0.messages[0] == system_message(
            request.messages[0]->System_0.content,
        ),
{
}

/// A translation to the native schema and back keeps the model, the token
/// limit that was sent, the sampling parameters and the caller.
pub proof fn lemma_round_trip_keeps_parameters(request: CreateCompletionRequestView)
    requires
        request.model.len() > 0,
    ensures
        native_request(request) is Ok,
        canonical_request(native_request(request)->Ok_0) matches Ok(back) && {
            &&& back.model == request.model
            &&& back.max_tokens == Some(
                match request.max_tokens {
                    Some(limit) => limit,
                    None => DEFAULT_MAX_TOKENS,
                },
            )
            &&& back.temperature == request.temperature
            &&& back.top_p == request.top_p
            &&& back.user == request.user
        },
{
}

/// Whether a message survives a translation whole: a user message of plain
/// text or an assistant message with text, either without a name and
/// without tool calls.
pub open spec fn is_plain(message: CompletionRequestMessageView) -> bool {
    match message {
        CompletionRequestMessageView::System(_) => false,
        CompletionRequestMessageView::User(user) => {
            &&& user.name is None
            &&& user.content is Text
        },
        CompletionRequestMessageView::Assistant(assistant) => {
            &&& assistant.name is None
            &&& assistant.content is Some
            &&& assistant.tool_calls is None
        },
    }
}

/// The canonical messages of native messages, without a system prompt.
pub open spec fn canonical_dialogue(messages: Seq<MessageView>) -> Seq<
    CompletionRequestMessageView,
> {
    canonical_messages(None, messages)
}

/// The native messages of a conversation distribute over a concatenation.
pub proof fn lemma_native_messages_concat(
    first: Seq<CompletionRequestMessageView>,
    second: Seq<CompletionRequestMessageView>,
)
    ensures
        native_messages(first + second) == native_messages(first) + native_messages(second),
    decreases second.len(),
{
    if second.len() > 0 {
        lemma_native_messages_concat(first, second.drop_last());
        assert((first + second).drop_last() =~= first + second.drop_last());
    }
}

/// Plain messages survive a translation to the native schema and back.
pub proof fn lemma_plain_messages_round_trip(messages: Seq<CompletionRequestMessageView>)
    requires
        forall|i: int| 0 <= i < messages.len() ==> is_plain(#[trigger] messages[i]),
    ensures
        canonical_dialogue(native_messages(messages)) == messages,
    decreases messages.len(),
{
    if messages.len() > 0 {
        let rest = messages.drop_last();
        let last = messages.last();
        lemma_plain_messages_round_trip(rest);
        let native = native_message(last)->Some_0;
        assert(block_texts(native.content.drop_last()) =~= Seq::<Seq<char>>::empty());
        assert(canonical_dialogue(native_messages(rest).push(native)) =~= canonical_dialogue(
            native_messages(rest),
        ).push(canonical_message(native)));
    }
}

/// A conversation of plain messages, with or without a nameless system
/// message in front, comes back unchanged from a translation to the native
/// schema and back: the translation loses nothing of it.
pub proof fn lemma_round_trip_keeps_plain_conversation(request: CreateCompletionRequestView)
    requires
        request.model.len() > 0,
        forall|i: int| 0 < i < request.messages.len() ==> is_plain(#[trigger] request.messages[i]),
        request.messages.len() > 0 ==> is_plain(request.messages[0]) || request.messages[0]
            == system_message(request.messages[0]->System_0.content),
    ensures
        native_request(request) is Ok,
        canonical_request(native_request(request)->Ok_0) matches Ok(back) && back.messages
            == request.messages,
{
    let messages = request.messages;
    if messages.len() > 0 && is_plain(messages[0]) {
        lemma_plain_messages_round_trip(messages);
    } else if messages.len() > 0 {
        let rest = messages.skip(1);
        assert(messages =~= seq![messages[0]] + rest);
        lemma_native_messages_concat(seq![messages[0]], rest);
        assert(native_messages(seq![messages[0]].drop_last()) =~= Seq::<MessageView>::empty());
        lemma_plain_messages_round_trip(rest);
    }
}

/// A native request comes back with its system prompt from a translation to
/// the canonical schema and back.
pub proof fn lemma_native_round_trip_keeps_system_prompt(request: CreateMessageRequestView)
    requires
        request.model.len() > 0,
    ensures
        canonical_request(request) is Ok,
        native_request(canonical_request(request)->Ok_0) matches Ok(back) && back.system
            == request.system,
{
}

} // verus!
