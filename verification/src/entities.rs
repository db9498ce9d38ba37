//! The canonical chat-completion schema: the request, response and model
//! descriptors that every backend translator converts to and from.
//!
//! Each type has a mathematical value, reached with `deep_view()`, in which
//! strings are sequences of characters and vectors are sequences. Contracts
//! are stated over those values.

pub mod anthropic;

use vstd::prelude::*;

verus! {

/// A sampling parameter such as a temperature or a penalty, kept as the bit
/// pattern of its IEEE 754 single-precision encoding. Translators carry it
/// from one schema to the other and never compute on it.
#[derive(Clone, Copy, Debug, PartialEq, Eq, Structural)]
pub struct Scalar {
    pub bits: u32,
}

impl DeepView for Scalar {
    type V = Scalar;

    open spec fn deep_view(&self) -> Scalar {
        *self
    }
}

/// The value of a `Result` whose two sides both have a mathematical value.
pub open spec fn result_view<T: DeepView, E: DeepView>(r: Result<T, E>) -> Result<T::V, E::V> {
    match r {
        Ok(v) => Ok(v.deep_view()),
        Err(e) => Err(e.deep_view()),
    }
}

/// The kind of a tool; only functions exist.
#[derive(Clone, Copy, Debug, PartialEq, Eq, Structural)]
pub enum CompletionToolType {
    Function,
}

impl DeepView for CompletionToolType {
    type V = CompletionToolType;

    open spec fn deep_view(&self) -> CompletionToolType {
        *self
    }
}

/// The author of a message in a response.
#[derive(Clone, Copy, Debug, PartialEq, Eq, Structural)]
pub enum Role {
    System,
    User,
    Assistant,
    Tool,
    Function,
}

impl DeepView for Role {
    type V = Role;

    open spec fn deep_view(&self) -> Role {
        *self
    }
}

/// Why a backend stopped generating.
#[derive(Clone, Copy, Debug, PartialEq, Eq, Structural)]
pub enum FinishReason {
    Stop,
    Length,
    ToolCalls,
    ContentFilter,
    FunctionCall,
}

impl DeepView for FinishReason {
    type V = FinishReason;

    open spec fn deep_view(&self) -> FinishReason {
        *self
    }
}

/// The name of the function a named tool choice points at.
#[derive(Clone, Debug, PartialEq, Eq)]
pub struct FunctionName {
    pub name: String,
}

/// The mathematical value of a [`FunctionName`].
pub struct FunctionNameView {
    pub name: Seq<char>,
}

impl DeepView for FunctionName {
    type V = FunctionNameView;

    open spec fn deep_view(&self) -> FunctionNameView {
        FunctionNameView {
            name: self.name.deep_view(),
        }
    }
}

/// A tool choice that forces one particular function.
#[derive(Clone, Debug, PartialEq, Eq)]
pub struct CompletionNamedToolChoice {
    pub kind: CompletionToolType,
    pub function: FunctionName,
}

/// The mathematical value of a [`CompletionNamedToolChoice`].
pub struct CompletionNamedToolChoiceView {
    pub kind: CompletionToolType,
    pub function: FunctionNameView,
}

impl DeepView for CompletionNamedToolChoice {
    type V = CompletionNamedToolChoiceView;

    open spec fn deep_view(&self) -> CompletionNamedToolChoiceView {
        CompletionNamedToolChoiceView {
            kind: self.kind.deep_view(),
            function: self.function.deep_view(),
        }
    }
}

/// The policy by which the model may call tools.
#[derive(Clone, Debug, PartialEq, Eq)]
pub enum CompletionToolChoiceOption {
    /// The model must not call a tool.
    Disabled,
    /// The model decides whether to call a tool.
    Auto,
    /// The model must call some tool.
    Required,
    /// The model must call the named tool.
    Named(CompletionNamedToolChoice),
}

/// The mathematical value of a [`CompletionToolChoiceOption`].
pub enum CompletionToolChoiceOptionView {
    Disabled,
    Auto,
    Required,
    Named(CompletionNamedToolChoiceView),
}

impl DeepView for CompletionToolChoiceOption {
    type V = CompletionToolChoiceOptionView;

    open spec fn deep_view(&self) -> CompletionToolChoiceOptionView {
        match self {
            CompletionToolChoiceOption::Disabled => CompletionToolChoiceOptionView::Disabled,
            CompletionToolChoiceOption::Auto => CompletionToolChoiceOptionView::Auto,
            CompletionToolChoiceOption::Required => CompletionToolChoiceOptionView::Required,
            CompletionToolChoiceOption::Named(inner) => CompletionToolChoiceOptionView::Named(
                inner.deep_view(),
            ),
        }
    }
}

/// The definition of a callable function.
#[derive(Clone, Debug, PartialEq, Eq)]
pub struct FunctionObject {
    pub name: String,
    pub description: Option<String>,
    /// The JSON schema of the parameters, as JSON text.
    pub parameters: Option<String>,
}

/// The mathematical value of a [`FunctionObject`].
pub struct FunctionObjectView {
    pub name: Seq<char>,
    pub description: Option<Seq<char>>,
    pub parameters: Option<Seq<char>>,
}

impl DeepView for FunctionObject {
    type V = FunctionObjectView;

    open spec fn deep_view(&self) -> FunctionObjectView {
        FunctionObjectView {
            name: self.name.deep_view(),
            description: self.description.deep_view(),
            parameters: self.parameters.deep_view(),
        }
    }
}

/// A tool offered to the model.
#[derive(Clone, Debug, PartialEq, Eq)]
pub struct CompletionTool {
    pub kind: CompletionToolType,
    pub function: FunctionObject,
}

/// The mathematical value of a [`CompletionTool`].
pub struct CompletionToolView {
    pub kind: CompletionToolType,
    pub function: FunctionObjectView,
}

impl DeepView for CompletionTool {
    type V = CompletionToolView;

    open spec fn deep_view(&self) -> CompletionToolView {
        CompletionToolView {
            kind: self.kind.deep_view(),
            function: self.function.deep_view(),
        }
    }
}

/// A function call made by the model.
#[derive(Clone, Debug, PartialEq, Eq)]
pub struct FunctionCall {
    pub name: String,
    /// The arguments, as JSON text.
    pub arguments: String,
}

/// The mathematical value of a [`FunctionCall`].
pub struct FunctionCallView {
    pub name: Seq<char>,
    pub arguments: Seq<char>,
}

impl DeepView for FunctionCall {
    type V = FunctionCallView;

    open spec fn deep_view(&self) -> FunctionCallView {
        FunctionCallView {
            name: self.name.deep_view(),
            arguments: self.arguments.deep_view(),
        }
    }
}

/// A tool call attached to an assistant message.
#[derive(Clone, Debug, PartialEq, Eq)]
pub struct CompletionMessageToolCall {
    pub id: String,
    pub kind: CompletionToolType,
    pub function: FunctionCall,
}

/// The mathematical value of a [`CompletionMessageToolCall`].
pub struct CompletionMessageToolCallView {
    pub id: Seq<char>,
    pub kind: CompletionToolType,
    pub function: FunctionCallView,
}

impl DeepView for CompletionMessageToolCall {
    type V = CompletionMessageToolCallView;

    open spec fn deep_view(&self) -> CompletionMessageToolCallView {
        CompletionMessageToolCallView {
            id: self.id.deep_view(),
            kind: self.kind.deep_view(),
            function: self.function.deep_view(),
        }
    }
}

/// The stop sequences of a request: one, or several.
#[derive(Clone, Debug, PartialEq, Eq)]
pub enum Stop {
    String(String),
    StringArray(Vec<String>),
}

/// The mathematical value of a [`Stop`].
pub enum StopView {
    String(Seq<char>),
    StringArray(Seq<Seq<char>>),
}

impl DeepView for Stop {
    type V = StopView;

    open spec fn deep_view(&self) -> StopView {
        match self {
            Stop::String(inner) => StopView::String(inner.deep_view()),
            Stop::StringArray(inner) => StopView::StringArray(inner.deep_view()),
        }
    }
}

/// One part of a structured user message.
#[derive(Clone, Debug, PartialEq, Eq)]
pub enum CompletionRequestMessageContentPart {
    /// A run of text.
    Text { text: String },
    /// A reference to an image.
    ImageUrl { url: String, detail: Option<String> },
}

/// The mathematical value of a [`CompletionRequestMessageContentPart`].
pub enum CompletionRequestMessageContentPartView {
    Text { text: Seq<char> },
    ImageUrl { url: Seq<char>, detail: Option<Seq<char>> },
}

impl DeepView for CompletionRequestMessageContentPart {
    type V = CompletionRequestMessageContentPartView;

    open spec fn deep_view(&self) -> CompletionRequestMessageContentPartView {
        match self {
            CompletionRequestMessageContentPart::Text {
                text,
            } => CompletionRequestMessageContentPartView::Text {
                text: text.deep_view(),
            },
            CompletionRequestMessageContentPart::ImageUrl {
                url,
                detail,
            } => CompletionRequestMessageContentPartView::ImageUrl {
                url: url.deep_view(),
                detail: detail.deep_view(),
            },
        }
    }
}

/// The content of a user message: plain text, or structured parts.
#[derive(Clone, Debug, PartialEq, Eq)]
pub enum CompletionRequestUserMessageContent {
    Text(String),
    Array(Vec<CompletionRequestMessageContentPart>),
}

/// The mathematical value of a [`CompletionRequestUserMessageContent`].
pub enum CompletionRequestUserMessageContentView {
    Text(Seq<char>),
    Array(Seq<CompletionRequestMessageContentPartView>),
}

impl DeepView for CompletionRequestUserMessageContent {
    type V = CompletionRequestUserMessageContentView;

    open spec fn deep_view(&self) -> CompletionRequestUserMessageContentView {
        match self {
            CompletionRequestUserMessageContent::Text(inner) => CompletionRequestUserMessageContentView::Text(
                inner.deep_view(),
            ),
            CompletionRequestUserMessageContent::Array(inner) => CompletionRequestUserMessageContentView::Array(
                inner.deep_view(),
            ),
        }
    }
}

/// A system message.
#[derive(Clone, Debug, PartialEq, Eq)]
pub struct CompletionRequestSystemMessage {
    pub content: String,
    pub name: Option<String>,
}

/// The mathematical value of a [`CompletionRequestSystemMessage`].
pub struct CompletionRequestSystemMessageView {
    pub content: Seq<char>,
    pub name: Option<Seq<char>>,
}

impl DeepView for CompletionRequestSystemMessage {
    type V = CompletionRequestSystemMessageView;

    open spec fn deep_view(&self) -> CompletionRequestSystemMessageView {
        CompletionRequestSystemMessageView {
            content: self.content.deep_view(),
            name: self.name.deep_view(),
        }
    }
}

/// A user message.
#[derive(Clone, Debug, PartialEq, Eq)]
pub struct CompletionRequestUserMessage {
    pub content: CompletionRequestUserMessageContent,
    pub name: Option<String>,
}

/// The mathematical value of a [`CompletionRequestUserMessage`].
pub struct CompletionRequestUserMessageView {
    pub content: CompletionRequestUserMessageContentView,
    pub name: Option<Seq<char>>,
}

impl DeepView for CompletionRequestUserMessage {
    type V = CompletionRequestUserMessageView;

    open spec fn deep_view(&self) -> CompletionRequestUserMessageView {
        CompletionRequestUserMessageView {
            content: self.content.deep_view(),
            name: self.name.deep_view(),
        }
    }
}

/// An assistant message, with the tool calls it made.
#[derive(Clone, Debug, PartialEq, Eq)]
pub struct CompletionRequestAssistantMessage {
    pub content: Option<String>,
    pub name: Option<String>,
    pub tool_calls: Option<Vec<CompletionMessageToolCall>>,
}

/// The mathematical value of a [`CompletionRequestAssistantMessage`].
pub struct CompletionRequestAssistantMessageView {
    pub content: Option<Seq<char>>,
    pub name: Option<Seq<char>>,
    pub tool_calls: Option<Seq<CompletionMessageToolCallView>>,
}

impl DeepView for CompletionRequestAssistantMessage {
    type V = CompletionRequestAssistantMessageView;

    open spec fn deep_view(&self) -> CompletionRequestAssistantMessageView {
        CompletionRequestAssistantMessageView {
            content: self.content.deep_view(),
            name: self.name.deep_view(),
            tool_calls: self.tool_calls.deep_view(),
        }
    }
}

/// One message of a request, tagged by its author.
#[derive(Clone, Debug, PartialEq, Eq)]
pub enum CompletionRequestMessage {
    System(CompletionRequestSystemMessage),
    User(CompletionRequestUserMessage),
    Assistant(CompletionRequestAssistantMessage),
}

/// The mathematical value of a [`CompletionRequestMessage`].
pub enum CompletionRequestMessageView {
    System(CompletionRequestSystemMessageView),
    User(CompletionRequestUserMessageView),
    Assistant(CompletionRequestAssistantMessageView),
}

impl DeepView for CompletionRequestMessage {
    type V = CompletionRequestMessageView;

    open spec fn deep_view(&self) -> CompletionRequestMessageView {
        match self {
            CompletionRequestMessage::System(inner) => CompletionRequestMessageView::System(
                inner.deep_view(),
            ),
            CompletionRequestMessage::User(inner) => CompletionRequestMessageView::User(
                inner.deep_view(),
            ),
            CompletionRequestMessage::Assistant(inner) => CompletionRequestMessageView::Assistant(
                inner.deep_view(),
            ),
        }
    }
}

/// A canonical chat-completion request. The order of `messages` is the order
/// of the conversation.
#[derive(Clone, Debug, PartialEq, Eq)]
pub struct CreateCompletionRequest {
    pub messages: Vec<CompletionRequestMessage>,
    pub model: String,
    pub frequency_penalty: Option<Scalar>,
    pub logprobs: Option<bool>,
    pub top_logprobs: Option<u8>,
    pub max_tokens: Option<u32>,
    pub n: Option<u8>,
    pub presence_penalty: Option<Scalar>,
    pub seed: Option<i64>,
    pub stop: Option<Stop>,
    pub stream: Option<bool>,
    pub temperature: Option<Scalar>,
    pub top_p: Option<Scalar>,
    pub tools: Option<Vec<CompletionTool>>,
    pub tool_choice: Option<CompletionToolChoiceOption>,
    pub parallel_tool_calls: Option<bool>,
    pub user: Option<String>,
}

/// The mathematical value of a [`CreateCompletionRequest`].
pub struct CreateCompletionRequestView {
    pub messages: Seq<CompletionRequestMessageView>,
    pub model: Seq<char>,
    pub frequency_penalty: Option<Scalar>,
    pub logprobs: Option<bool>,
    pub top_logprobs: Option<u8>,
    pub max_tokens: Option<u32>,
    pub n: Option<u8>,
    pub presence_penalty: Option<Scalar>,
    pub seed: Option<i64>,
    pub stop: Option<StopView>,
    pub stream: Option<bool>,
    pub temperature: Option<Scalar>,
    pub top_p: Option<Scalar>,
    pub tools: Option<Seq<CompletionToolView>>,
    pub tool_choice: Option<CompletionToolChoiceOptionView>,
    pub parallel_tool_calls: Option<bool>,
    pub user: Option<Seq<char>>,
}

impl DeepView for CreateCompletionRequest {
    type V = CreateCompletionRequestView;

    open spec fn deep_view(&self) -> CreateCompletionRequestView {
        CreateCompletionRequestView {
            messages: self.messages.deep_view(),
            model: self.model.deep_view(),
            frequency_penalty: self.frequency_penalty.deep_view(),
            logprobs: self.logprobs.deep_view(),
            top_logprobs: self.top_logprobs.deep_view(),
            max_tokens: self.max_tokens.deep_view(),
            n: self.n.deep_view(),
            presence_penalty: self.presence_penalty.deep_view(),
            seed: self.seed.deep_view(),
            stop: self.stop.deep_view(),
            stream: self.stream.deep_view(),
            temperature: self.temperature.deep_view(),
            top_p: self.top_p.deep_view(),
            tools: self.tools.deep_view(),
            tool_choice: self.tool_choice.deep_view(),
            parallel_tool_calls: self.parallel_tool_calls.deep_view(),
            user: self.user.deep_view(),
        }
    }
}

/// Token counts of one completion. The total is kept wide enough to hold
/// the sum of any two counts.
#[derive(Clone, Copy, Debug, PartialEq, Eq)]
pub struct CompletionUsage {
    pub prompt_tokens: u32,
    pub completion_tokens: u32,
    pub total_tokens: u64,
}

/// The mathematical value of a [`CompletionUsage`].
pub struct CompletionUsageView {
    pub prompt_tokens: u32,
    pub completion_tokens: u32,
    pub total_tokens: u64,
}

impl DeepView for CompletionUsage {
    type V = CompletionUsageView;

    open spec fn deep_view(&self) -> CompletionUsageView {
        CompletionUsageView {
            prompt_tokens: self.prompt_tokens.deep_view(),
            completion_tokens: self.completion_tokens.deep_view(),
            total_tokens: self.total_tokens.deep_view(),
        }
    }
}

/// The token counts of a completion for which a backend reported `prompt`
/// and `completion`: a missing count is zero, and the total is their sum.
pub open spec fn usage_from_counts(
    prompt: Option<u32>,
    completion: Option<u32>,
) -> CompletionUsageView {
    let prompt_tokens = match prompt {
        Some(count) => count,
        None => 0u32,
    };
    let completion_tokens = match completion {
        Some(count) => count,
        None => 0u32,
    };
    CompletionUsageView {
        prompt_tokens,
        completion_tokens,
        total_tokens: (prompt_tokens + completion_tokens) as u64,
    }
}

impl CompletionUsage {
    /// Sums the counts that a backend reported separately. A missing count
    /// is zero; the total cannot overflow.
    pub fn from_counts(prompt: Option<u32>, completion: Option<u32>) -> (usage: CompletionUsage)
        ensures
            usage.deep_view() == usage_from_counts(prompt, completion),
    {
        let prompt_tokens: u32 = match prompt {
            Some(count) => count,
            None => 0,
        };
        let completion_tokens: u32 = match completion {
            Some(count) => count,
            None => 0,
        };
        CompletionUsage {
            prompt_tokens,
            completion_tokens,
            total_tokens: prompt_tokens as u64 + completion_tokens as u64,
        }
    }
}

/// The message of one choice of a response.
#[derive(Clone, Debug, PartialEq, Eq)]
pub struct CompletionResponseMessage {
    pub content: Option<String>,
    pub tool_calls: Option<Vec<CompletionMessageToolCall>>,
    pub role: Role,
}

/// The mathematical value of a [`CompletionResponseMessage`].
pub struct CompletionResponseMessageView {
    pub content: Option<Seq<char>>,
    pub tool_calls: Option<Seq<CompletionMessageToolCallView>>,
    pub role: Role,
}

impl DeepView for CompletionResponseMessage {
    type V = CompletionResponseMessageView;

    open spec fn deep_view(&self) -> CompletionResponseMessageView {
        CompletionResponseMessageView {
            content: self.content.deep_view(),
            tool_calls: self.tool_calls.deep_view(),
            role: self.role.deep_view(),
        }
    }
}

/// One alternative completion of a response.
#[derive(Clone, Debug, PartialEq, Eq)]
pub struct Choice {
    pub index: u32,
    pub message: CompletionResponseMessage,
    pub finish_reason: Option<FinishReason>,
    /// Log probabilities, as JSON text.
    pub logprobs: Option<String>,
}

/// The mathematical value of a [`Choice`].
pub struct ChoiceView {
    pub index: u32,
    pub message: CompletionResponseMessageView,
    pub finish_reason: Option<FinishReason>,
    pub logprobs: Option<Seq<char>>,
}

impl DeepView for Choice {
    type V = ChoiceView;

    open spec fn deep_view(&self) -> ChoiceView {
        ChoiceView {
            index: self.index.deep_view(),
            message: self.message.deep_view(),
            finish_reason: self.finish_reason.deep_view(),
            logprobs: self.logprobs.deep_view(),
        }
    }
}

/// A canonical chat-completion response.
#[derive(Clone, Debug, PartialEq, Eq)]
pub struct CreateCompletionResponse {
    pub id: String,
    pub choices: Vec<Choice>,
    /// Creation time, in seconds since the epoch.
    pub created: u32,
    pub model: String,
    pub system_fingerprint: Option<String>,
    pub object: String,
    pub usage: Option<CompletionUsage>,
}

/// The mathematical value of a [`CreateCompletionResponse`].
pub struct CreateCompletionResponseView {
    pub id: Seq<char>,
    pub choices: Seq<ChoiceView>,
    pub created: u32,
    pub model: Seq<char>,
    pub system_fingerprint: Option<Seq<char>>,
    pub object: Seq<char>,
    pub usage: Option<CompletionUsageView>,
}

impl DeepView for CreateCompletionResponse {
    type V = CreateCompletionResponseView;

    open spec fn deep_view(&self) -> CreateCompletionResponseView {
        CreateCompletionResponseView {
            id: self.id.deep_view(),
            choices: self.choices.deep_view(),
            created: self.created.deep_view(),
            model: self.model.deep_view(),
            system_fingerprint: self.system_fingerprint.deep_view(),
            object: self.object.deep_view(),
            usage: self.usage.deep_view(),
        }
    }
}

/// The descriptor of one model a backend offers.
#[derive(Clone, Debug, PartialEq, Eq)]
pub struct Model {
    pub id: String,
    pub object: String,
    pub created: u32,
    pub owned_by: String,
}

/// The mathematical value of a [`Model`].
pub struct ModelView {
    pub id: Seq<char>,
    pub object: Seq<char>,
    pub created: u32,
    pub owned_by: Seq<char>,
}

impl DeepView for Model {
    type V = ModelView;

    open spec fn deep_view(&self) -> ModelView {
        ModelView {
            id: self.id.deep_view(),
            object: self.object.deep_view(),
            created: self.created.deep_view(),
            owned_by: self.owned_by.deep_view(),
        }
    }
}

/// The merged list of the models of all backends.
#[derive(Clone, Debug, PartialEq, Eq)]
pub struct ListModelResponse {
    pub object: String,
    pub data: Vec<Model>,
}

/// The mathematical value of a [`ListModelResponse`].
pub struct ListModelResponseView {
    pub object: Seq<char>,
    pub data: Seq<ModelView>,
}

impl DeepView for ListModelResponse {
    type V = ListModelResponseView;

    open spec fn deep_view(&self) -> ListModelResponseView {
        ListModelResponseView {
            object: self.object.deep_view(),
            data: self.data.deep_view(),
        }
    }
}

} // verus!
