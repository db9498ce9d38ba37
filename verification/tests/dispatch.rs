use llm_gateway::entities::{
    Choice, CompletionRequestMessage, CompletionRequestUserMessage,
    CompletionRequestUserMessageContent, CompletionResponseMessage, CompletionUsage,
    CreateCompletionRequest, CreateCompletionResponse, Model, Role,
};
use llm_gateway::llm_delegate::llm_provider::perplexityai;
use llm_gateway::llm_delegate::llm_provider::{
    describe_models, required_secrets, resolve_credentials, Credentials, LlmProviderMap,
    PERPLEXITYAI_API_BASE,
};
use llm_gateway::llm_delegate::{
    check_completion, completion_path, merge_models, CompletionPath, ProviderError,
};
use llm_gateway::supported_llm::SupportedLlm;

fn text(s: &str) -> String {
    s.to_owned()
}

fn request(stream: Option<bool>) -> CreateCompletionRequest {
    CreateCompletionRequest {
        messages: vec![CompletionRequestMessage::User(CompletionRequestUserMessage {
            content: CompletionRequestUserMessageContent::Text(text("hi")),
            name: None,
        })],
        model: text("x"),
        frequency_penalty: None,
        logprobs: None,
        top_logprobs: None,
        max_tokens: None,
        n: None,
        presence_penalty: None,
        seed: None,
        stop: None,
        stream,
        temperature: None,
        top_p: None,
        tools: None,
        tool_choice: None,
        parallel_tool_calls: None,
        user: None,
    }
}

fn model(id: &str, owner: &str) -> Model {
    Model { id: text(id), object: text("model"), created: 0, owned_by: text(owner) }
}

#[test]
fn stream_flag_selects_the_path() {
    assert_eq!(completion_path(&request(Some(true))), CompletionPath::Streaming);
    assert_eq!(completion_path(&request(Some(false))), CompletionPath::Synchronous);
    assert_eq!(completion_path(&request(None)), CompletionPath::Synchronous);
}

#[test]
fn synchronous_path_rejects_streaming_requests() {
    assert_eq!(check_completion(&request(Some(true))), Err(ProviderError::StreamingUnsupported));
    assert_eq!(check_completion(&request(Some(false))), Ok(()));
    assert_eq!(check_completion(&request(None)), Ok(()));
    assert_eq!(
        ProviderError::StreamingUnsupported.to_string(),
        "streaming completions are not supported"
    );
}

#[test]
fn merge_follows_backend_order() {
    let merged = merge_models(vec![
        (SupportedLlm::OpenAi, Some(vec![model("a1", "openai"), model("a2", "openai")])),
        (SupportedLlm::Anthropic, Some(vec![model("b1", "anthropic")])),
        (SupportedLlm::AnthropicVertexAi, Some(vec![])),
        (SupportedLlm::PerplexityAi, Some(vec![model("d1", "perplexityai")])),
    ]);
    assert_eq!(merged.object, "list");
    assert_eq!(
        merged.data,
        vec![
            model("a1", "openai"),
            model("a2", "openai"),
            model("b1", "anthropic"),
            model("d1", "perplexityai"),
        ]
    );
}

#[test]
fn merge_does_not_follow_arrival_order() {
    let merged = merge_models(vec![
        (SupportedLlm::PerplexityAi, Some(vec![model("d1", "perplexityai")])),
        (SupportedLlm::AnthropicVertexAi, Some(vec![model("c1", "vertexai.anthropic")])),
        (SupportedLlm::OpenAi, Some(vec![model("a1", "openai"), model("a2", "openai")])),
        (SupportedLlm::Anthropic, Some(vec![model("b1", "anthropic")])),
    ]);
    assert_eq!(
        merged.data,
        vec![
            model("a1", "openai"),
            model("a2", "openai"),
            model("b1", "anthropic"),
            model("c1", "vertexai.anthropic"),
            model("d1", "perplexityai"),
        ]
    );
}

#[test]
fn merge_leaves_out_failed_backends() {
    let merged = merge_models(vec![
        (SupportedLlm::OpenAi, Some(vec![model("a1", "openai")])),
        (SupportedLlm::Anthropic, None),
        (SupportedLlm::AnthropicVertexAi, Some(vec![model("c1", "vertexai.anthropic")])),
        (SupportedLlm::PerplexityAi, None),
    ]);
    assert_eq!(merged.data, vec![model("a1", "openai"), model("c1", "vertexai.anthropic")]);
}

#[test]
fn merge_of_failures_is_empty_and_does_not_fail() {
    let failures = SupportedLlm::all().into_iter().map(|llm| (llm, None)).collect();
    assert_eq!(merge_models(failures).data, vec![]);
    assert_eq!(merge_models(vec![]).data, vec![]);
    assert_eq!(merge_models(vec![]).object, "list");
}

#[test]
fn merge_keeps_every_answer_of_a_backend() {
    let merged = merge_models(vec![
        (SupportedLlm::Anthropic, Some(vec![model("b1", "anthropic")])),
        (SupportedLlm::OpenAi, Some(vec![model("a1", "openai")])),
        (SupportedLlm::Anthropic, Some(vec![model("b2", "anthropic")])),
    ]);
    assert_eq!(
        merged.data,
        vec![model("a1", "openai"), model("b1", "anthropic"), model("b2", "anthropic")]
    );
}

#[test]
fn perplexity_models_are_fixed() {
    assert_eq!(
        perplexityai::models(),
        vec![
            model("llama-3.1-sonar-small-128k-online", "perplexityai"),
            model("llama-3.1-sonar-large-128k-online", "perplexityai"),
            model("llama-3.1-sonar-huge-128k-online", "perplexityai"),
            model("llama-3.1-sonar-small-128k-chat", "perplexityai"),
            model("llama-3.1-sonar-large-128k-chat", "perplexityai"),
        ]
    );
}

#[test]
fn models_are_described_by_their_backend() {
    assert_eq!(
        describe_models(SupportedLlm::AnthropicVertexAi, vec![text("m1"), text("m2")]),
        vec![model("m1", "vertexai.anthropic"), model("m2", "vertexai.anthropic")]
    );
    assert_eq!(describe_models(SupportedLlm::OpenAi, vec![]), vec![]);
}

#[test]
fn registry_starts_empty() {
    let registry: LlmProviderMap<u32> = LlmProviderMap::new();
    for llm in SupportedLlm::all() {
        assert!(!registry.contains_key(llm));
        assert_eq!(registry.get(llm), None);
    }
    let registry: LlmProviderMap<u32> = LlmProviderMap::default();
    assert!(!registry.contains_key(SupportedLlm::OpenAi));
}

fn get_or_build(
    registry: &mut LlmProviderMap<String>,
    llm: SupportedLlm,
    constructions: &mut u32,
    outcome: Result<String, ProviderError>,
) -> Result<String, ProviderError> {
    if let Some(adapter) = registry.get(llm) {
        return Ok(adapter.clone());
    }
    *constructions += 1;
    registry.install(llm, outcome).cloned()
}

#[test]
fn adapter_is_constructed_once() {
    let mut registry: LlmProviderMap<String> = LlmProviderMap::new();
    let mut constructions = 0;
    let first =
        get_or_build(&mut registry, SupportedLlm::OpenAi, &mut constructions, Ok(text("first")));
    let second =
        get_or_build(&mut registry, SupportedLlm::OpenAi, &mut constructions, Ok(text("second")));
    assert_eq!(first, Ok(text("first")));
    assert_eq!(second, Ok(text("first")));
    assert_eq!(constructions, 1);
}

#[test]
fn install_keeps_the_adapter_that_came_first() {
    let mut registry: LlmProviderMap<u32> = LlmProviderMap::new();
    assert_eq!(registry.install(SupportedLlm::Anthropic, Ok(1)), Ok(&1));
    assert_eq!(registry.install(SupportedLlm::Anthropic, Ok(2)), Ok(&1));
    assert_eq!(registry.get(SupportedLlm::Anthropic), Some(&1));
    assert_eq!(
        registry.install(SupportedLlm::Anthropic, Err(ProviderError::UnsupportedBackend)),
        Ok(&1)
    );
    assert_eq!(registry.get(SupportedLlm::Anthropic), Some(&1));
}

#[test]
fn failed_construction_is_not_cached() {
    let mut registry: LlmProviderMap<String> = LlmProviderMap::new();
    let mut constructions = 0;
    let failed = get_or_build(
        &mut registry,
        SupportedLlm::Anthropic,
        &mut constructions,
        Err(ProviderError::MissingSecret(text("ANTHROPIC_API_KEY"))),
    );
    assert_eq!(failed, Err(ProviderError::MissingSecret(text("ANTHROPIC_API_KEY"))));
    assert!(!registry.contains_key(SupportedLlm::Anthropic));
    let retried =
        get_or_build(&mut registry, SupportedLlm::Anthropic, &mut constructions, Ok(text("ok")));
    assert_eq!(retried, Ok(text("ok")));
    assert_eq!(constructions, 2);
}

#[test]
fn backends_have_separate_slots() {
    let mut registry: LlmProviderMap<u32> = LlmProviderMap::new();
    let all = SupportedLlm::all();
    for (i, llm) in all.iter().enumerate() {
        assert_eq!(registry.install(*llm, Ok(i as u32)), Ok(&(i as u32)));
    }
    for (i, llm) in all.iter().enumerate() {
        assert_eq!(registry.get(*llm), Some(&(i as u32)));
    }
}

#[test]
fn secrets_are_named_per_backend() {
    assert_eq!(required_secrets(SupportedLlm::OpenAi), vec!["OPENAI_API_KEY"]);
    assert_eq!(required_secrets(SupportedLlm::Anthropic), vec!["ANTHROPIC_API_KEY"]);
    assert_eq!(
        required_secrets(SupportedLlm::AnthropicVertexAi),
        vec!["GCLOUD_API_KEY", "GCLOUD_PROJECT_ID", "GCLOUD_REGION"]
    );
    assert_eq!(required_secrets(SupportedLlm::PerplexityAi), vec!["PERPLEXITYAI_API_KEY"]);
}

#[test]
fn credentials_are_built_from_secrets() {
    assert_eq!(
        resolve_credentials(SupportedLlm::OpenAi, &vec![Some(text("sk-1"))]),
        Ok(Credentials::OpenAi { api_key: text("sk-1") })
    );
    assert_eq!(
        resolve_credentials(SupportedLlm::Anthropic, &vec![Some(text("sk-2"))]),
        Ok(Credentials::Anthropic { api_key: text("sk-2") })
    );
    assert_eq!(
        resolve_credentials(
            SupportedLlm::AnthropicVertexAi,
            &vec![Some(text("key")), Some(text("project-1")), Some(text("europe-west1"))]
        ),
        Ok(Credentials::AnthropicVertexAi {
            api_key: text("key"),
            project: text("project-1"),
            region: text("europe-west1"),
        })
    );
    assert_eq!(PERPLEXITYAI_API_BASE, "https://api.perplexity.ai");
    assert_eq!(
        resolve_credentials(SupportedLlm::PerplexityAi, &vec![Some(text("pk"))]),
        Ok(Credentials::PerplexityAi {
            api_key: text("pk"),
            api_base: text("https://api.perplexity.ai"),
        })
    );
}

#[test]
fn missing_secret_is_named() {
    assert_eq!(
        resolve_credentials(SupportedLlm::OpenAi, &vec![None]),
        Err(ProviderError::MissingSecret(text("OPENAI_API_KEY")))
    );
    assert_eq!(
        resolve_credentials(SupportedLlm::PerplexityAi, &vec![]),
        Err(ProviderError::MissingSecret(text("PERPLEXITYAI_API_KEY")))
    );
    assert_eq!(
        ProviderError::MissingSecret(text("OPENAI_API_KEY")).to_string(),
        "Secret not found: OPENAI_API_KEY"
    );
}

#[test]
fn last_missing_secret_is_reported_first() {
    let llm = SupportedLlm::AnthropicVertexAi;
    assert_eq!(
        resolve_credentials(llm, &vec![None, None, None]),
        Err(ProviderError::MissingSecret(text("GCLOUD_REGION")))
    );
    assert_eq!(
        resolve_credentials(llm, &vec![None, None, Some(text("r"))]),
        Err(ProviderError::MissingSecret(text("GCLOUD_PROJECT_ID")))
    );
    assert_eq!(
        resolve_credentials(llm, &vec![None, Some(text("p")), Some(text("r"))]),
        Err(ProviderError::MissingSecret(text("GCLOUD_API_KEY")))
    );
    assert_eq!(
        resolve_credentials(llm, &vec![Some(text("k")), Some(text("p"))]),
        Err(ProviderError::MissingSecret(text("GCLOUD_REGION")))
    );
}

struct StubBackend {
    text: String,
    prompt_tokens: u32,
    completion_tokens: u32,
}

impl StubBackend {
    fn completion(&self, request: &CreateCompletionRequest) -> CreateCompletionResponse {
        CreateCompletionResponse {
            id: text("cmpl-1"),
            choices: vec![Choice {
                index: 0,
                message: CompletionResponseMessage {
                    content: Some(self.text.clone()),
                    tool_calls: None,
                    role: Role::Assistant,
                },
                finish_reason: None,
                logprobs: None,
            }],
            created: 0,
            model: request.model.clone(),
            system_fingerprint: None,
            object: text("chat.completion"),
            usage: Some(CompletionUsage::from_counts(
                Some(self.prompt_tokens),
                Some(self.completion_tokens),
            )),
        }
    }
}

#[test]
fn end_to_end_completion_against_a_stub() {
    let llm = SupportedLlm::decode(Some("openai")).unwrap();
    assert_eq!(llm, SupportedLlm::OpenAi);
    let request = request(Some(false));
    assert_eq!(completion_path(&request), CompletionPath::Synchronous);
    assert_eq!(check_completion(&request), Ok(()));

    let mut registry: LlmProviderMap<StubBackend> = LlmProviderMap::new();
    assert!(!registry.contains_key(llm));
    let credentials = resolve_credentials(llm, &vec![Some(text("sk-1"))]);
    let built = credentials.map(|_| StubBackend {
        text: text("hello there"),
        prompt_tokens: 9,
        completion_tokens: 12,
    });
    let adapter = registry.install(llm, built).ok().unwrap();

    let response = adapter.completion(&request);
    assert_eq!(response.choices[0].message.content, Some(text("hello there")));
    assert_eq!(response.usage.unwrap().total_tokens, 21);
    assert_eq!(response.model, "x");
}
