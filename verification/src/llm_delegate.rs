//! Dispatch of a canonical request to one of the backends: which path a
//! request takes, and how the model lists of the backends are merged.
//!
//! The functions here decide; they perform no call. The caller obtains the
//! backend from the [`llm_provider::LlmProviderMap`], makes the call, and
//! hands the outcome back.

pub mod completion_stream;
pub mod llm_provider;

use crate::entities::{CreateCompletionRequest, ListModelResponse, Model, ModelView};
use crate::supported_llm::SupportedLlm;
use vstd::prelude::*;

verus! {

/// Why a backend could not serve a request.
#[derive(Clone, Debug, PartialEq, Eq)]
pub enum ProviderError {
    /// The backend identifier is not one the gateway knows.
    UnsupportedBackend,
    /// A secret the backend needs could not be resolved; holds its name.
    MissingSecret(String),
    /// The backend itself failed; holds its message.
    Upstream(String),
    /// A streaming request was sent down the synchronous path.
    StreamingUnsupported,
}

/// The mathematical value of a [`ProviderError`].
pub enum ProviderErrorView {
    UnsupportedBackend,
    MissingSecret(Seq<char>),
    Upstream(Seq<char>),
    StreamingUnsupported,
}

impl DeepView for ProviderError {
    type V = ProviderErrorView;

    open spec fn deep_view(&self) -> ProviderErrorView {
        match self {
            ProviderError::UnsupportedBackend => ProviderErrorView::UnsupportedBackend,
            ProviderError::MissingSecret(name) => ProviderErrorView::MissingSecret(name@),
            ProviderError::Upstream(message) => ProviderErrorView::Upstream(message@),
            ProviderError::StreamingUnsupported => ProviderErrorView::StreamingUnsupported,
        }
    }
}

/// The message of an error.
pub open spec fn message_of(error: ProviderErrorView) -> Seq<char> {
    match error {
        ProviderErrorView::UnsupportedBackend => "Unsupported LLM provider"@,
        ProviderErrorView::MissingSecret(name) => "Secret not found: "@ + name,
        ProviderErrorView::Upstream(message) => message,
        ProviderErrorView::StreamingUnsupported => "streaming completions are not supported"@,
    }
}

impl ProviderError {
    /// The message of this error.
    pub fn to_string(&self) -> (message: String)
        ensures
            message@ == message_of(self.deep_view()),
    {
        match self {
            ProviderError::UnsupportedBackend => "Unsupported LLM provider".to_string(),
            ProviderError::MissingSecret(name) => "Secret not found: ".to_string().concat(
                name.as_str(),
            ),
            ProviderError::Upstream(message) => message.clone(),
            ProviderError::StreamingUnsupported => {
                "streaming completions are not supported".to_string()
            },
        }
    }
}

/// The path a request takes through the gateway.
#[derive(Clone, Copy, Debug, PartialEq, Eq, Structural)]
pub enum CompletionPath {
    /// One response, returned whole.
    Synchronous,
    /// A sequence of chunks, returned as they arrive.
    Streaming,
}

/// Whether a request asks for a stream: its flag is present and set.
pub open spec fn wants_stream(stream: Option<bool>) -> bool {
    stream == Some(true)
}

/// The path that a request asks for.
pub fn completion_path(request: &CreateCompletionRequest) -> (path: CompletionPath)
    ensures
        path == if wants_stream(request.stream) {
            CompletionPath::Streaming
        } else {
            CompletionPath::Synchronous
        },
{
    match request.stream {
        Some(true) => CompletionPath::Streaming,
        _ => CompletionPath::Synchronous,
    }
}

/// Checks a request for the synchronous path: one that asks for a stream is
/// rejected there, and every other request passes.
pub fn check_completion(request: &CreateCompletionRequest) -> (r: Result<(), ProviderError>)
    ensures
        wants_stream(request.stream) ==> r == Err::<(), ProviderError>(
            ProviderError::StreamingUnsupported,
        ),
        !wants_stream(request.stream) ==> r is Ok,
{
    match completion_path(request) {
        CompletionPath::Streaming => Err(ProviderError::StreamingUnsupported),
        CompletionPath::Synchronous => Ok(()),
    }
}

/// What the backends answered to a request for their models: one entry for
/// each answer, in the order of arrival. `None` stands for a backend whose
/// call failed.
pub type ModelAnswers = Seq<(SupportedLlm, Option<Seq<ModelView>>)>;

/// The models that one backend answered with, in the order of arrival.
pub open spec fn models_of(answers: ModelAnswers, llm: SupportedLlm) -> Seq<ModelView>
    decreases answers.len(),
{
    if answers.len() == 0 {
        Seq::empty()
    } else {
        models_of(answers.drop_last(), llm) + match answers.last() {
            (backend, Some(models)) if backend == llm => models,
            _ => Seq::empty(),
        }
    }
}

/// The merged list of models: the models of each backend that answered, the
/// backends in the order of their declaration.
pub open spec fn merged_models(answers: ModelAnswers) -> Seq<ModelView> {
    models_of(answers, SupportedLlm::OpenAi) + models_of(answers, SupportedLlm::Anthropic)
        + models_of(answers, SupportedLlm::AnthropicVertexAi) + models_of(
        answers,
        SupportedLlm::PerplexityAi,
    )
}

/// Merges the model lists of the backends into one response.
///
/// `answers` holds what each backend answered, in whatever order the
/// answers arrived; `None` stands for a backend whose call failed. The
/// merged list follows the order in which the backends are declared, not the
/// order of arrival. A backend that failed is left out, and the merge itself
/// cannot fail.
pub fn merge_models(answers: Vec<(SupportedLlm, Option<Vec<Model>>)>) -> (response:
    ListModelResponse)
    ensures
        response.object@ == "list"@,
        response.data.deep_view() == merged_models(answers.deep_view()),
{
    let ghost all = answers.deep_view();
    let mut open_ai: Vec<Model> = Vec::new();
    let mut anthropic: Vec<Model> = Vec::new();
    let mut anthropic_vertex_ai: Vec<Model> = Vec::new();
    let mut perplexity_ai: Vec<Model> = Vec::new();
    for answer in it: answers
        invariant
            all.len() == it.seq().len(),
            forall|i: int| 0 <= i < all.len() ==> all[i] == (#[trigger] it.seq()[i]).deep_view(),
            open_ai.deep_view() == models_of(all.take(it.index() as int), SupportedLlm::OpenAi),
            anthropic.deep_view() == models_of(
                all.take(it.index() as int),
                SupportedLlm::Anthropic,
            ),
            anthropic_vertex_ai.deep_view() == models_of(
                all.take(it.index() as int),
                SupportedLlm::AnthropicVertexAi,
            ),
            perplexity_ai.deep_view() == models_of(
                all.take(it.index() as int),
                SupportedLlm::PerplexityAi,
            ),
    {
        proof {
            assert(all.take(it.index() + 1).drop_last() =~= all.take(it.index() as int));
        }
        let (llm, result) = answer;
        match result {
            Some(mut models) => {
                match llm {
                    SupportedLlm::OpenAi => {
                        open_ai.append(&mut models);
                    },
                    SupportedLlm::Anthropic => {
                        anthropic.append(&mut models);
                    },
                    SupportedLlm::AnthropicVertexAi => {
                        anthropic_vertex_ai.append(&mut models);
                    },
                    SupportedLlm::PerplexityAi => {
                        perplexity_ai.append(&mut models);
                    },
                }
            },
            None => {},
        }
    }
    proof {
        assert(all.take(all.len() as int) =~= all);
    }
    let mut data = open_ai;
    data.append(&mut anthropic);
    data.append(&mut anthropic_vertex_ai);
    data.append(&mut perplexity_ai);
    ListModelResponse { object: "list".to_string(), data }
}

/// The models of a backend distribute over a concatenation of answers.
pub proof fn lemma_models_of_concat(first: ModelAnswers, second: ModelAnswers, llm: SupportedLlm)
    ensures
        models_of(first + second, llm) == models_of(first, llm) + models_of(second, llm),
    decreases second.len(),
{
    if second.len() > 0 {
        lemma_models_of_concat(first, second.drop_last(), llm);
        assert((first + second).drop_last() =~= first + second.drop_last());
    }
}

/// The models of a backend in a single answer: the models of the answer if
/// it is an answer of that backend, and none otherwise.
pub proof fn lemma_models_of_one(
    answer: (SupportedLlm, Option<Seq<ModelView>>),
    llm: SupportedLlm,
)
    ensures
        models_of(seq![answer], llm) == match answer {
            (backend, Some(models)) if backend == llm => models,
            _ => Seq::<ModelView>::empty(),
        },
{
    assert(models_of(seq![answer].drop_last(), llm) =~= Seq::<ModelView>::empty());
}

/// Whether `models` stands in `list` from `offset` on, whole and in order.
pub open spec fn stands_at(list: Seq<ModelView>, models: Seq<ModelView>, offset: int) -> bool {
    &&& 0 <= offset
    &&& offset + models.len() <= list.len()
    &&& list.subrange(offset, offset + models.len()) == models
}

/// A backend that fails hides no other backend: the models of each answer
/// stand in the merged list, whole and in their own order, whatever became
/// of the other backends.
pub proof fn lemma_merge_keeps_each_answer(answers: ModelAnswers, position: int)
    requires
        0 <= position < answers.len(),
        answers[position].1 is Some,
    ensures
        exists|offset: int|
            stands_at(merged_models(answers), answers[position].1->Some_0, offset),
{
    let llm = answers[position].0;
    let models = answers[position].1->Some_0;
    let before = answers.take(position);
    let one = seq![answers[position]];
    let after = answers.skip(position + 1);
    assert(answers =~= before + one + after);
    lemma_models_of_concat(before + one, after, llm);
    lemma_models_of_concat(before, one, llm);
    lemma_models_of_one(answers[position], llm);
    let inner = models_of(before, llm).len() as int;
    let a = models_of(answers, SupportedLlm::OpenAi);
    let b = models_of(answers, SupportedLlm::Anthropic);
    let c = models_of(answers, SupportedLlm::AnthropicVertexAi);
    let merged = merged_models(answers);
    let outer: int = match llm {
        SupportedLlm::OpenAi => 0,
        SupportedLlm::Anthropic => a.len() as int,
        SupportedLlm::AnthropicVertexAi => (a.len() + b.len()) as int,
        SupportedLlm::PerplexityAi => (a.len() + b.len() + c.len()) as int,
    };
    let offset = outer + inner;
    assert(merged.subrange(offset, offset + models.len()) =~= models);
    assert(stands_at(merged, models, offset));
}

/// The merged list does not depend on the order of arrival: two answers of
/// different backends that arrive one after the other may arrive the other
/// way round.
pub proof fn lemma_merge_ignores_arrival_order(answers: ModelAnswers, position: int)
    requires
        0 <= position,
        position + 1 < answers.len(),
        answers[position].0 != answers[position + 1].0,
    ensures
        merged_models(
            answers.update(position, answers[position + 1]).update(position + 1, answers[position]),
        ) == merged_models(answers),
{
    let swapped = answers.update(position, answers[position + 1]).update(
        position + 1,
        answers[position],
    );
    assert forall|llm: SupportedLlm| models_of(swapped, llm) == models_of(answers, llm) by {
        let before = answers.take(position);
        let after = answers.skip(position + 2);
        let first = seq![answers[position]];
        let second = seq![answers[position + 1]];
        assert(answers =~= before + first + second + after);
        assert(swapped =~= before + second + first + after);
        lemma_models_of_concat(before + first + second, after, llm);
        lemma_models_of_concat(before + first, second, llm);
        lemma_models_of_concat(before, first, llm);
        lemma_models_of_concat(before + second + first, after, llm);
        lemma_models_of_concat(before + second, first, llm);
        lemma_models_of_concat(before, second, llm);
        lemma_models_of_one(answers[position], llm);
        lemma_models_of_one(answers[position + 1], llm);
    }
}

} // verus!
