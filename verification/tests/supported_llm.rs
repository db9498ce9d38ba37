use llm_gateway::llm_delegate::ProviderError;
use llm_gateway::supported_llm::{SupportedLlm, HEADER_NAME};

#[test]
fn encodings_are_the_wire_values() {
    assert_eq!(SupportedLlm::OpenAi.as_str(), "openai");
    assert_eq!(SupportedLlm::Anthropic.as_str(), "anthropic");
    assert_eq!(SupportedLlm::AnthropicVertexAi.as_str(), "vertexai.anthropic");
    assert_eq!(SupportedLlm::PerplexityAi.as_str(), "perplexityai");
}

#[test]
fn to_string_is_the_encoding() {
    for llm in SupportedLlm::all() {
        assert_eq!(llm.to_string(), llm.as_str().to_owned());
    }
}

#[test]
fn every_encoding_decodes_to_its_backend() {
    for llm in SupportedLlm::all() {
        assert_eq!(SupportedLlm::try_from(llm.as_str()), Ok(llm));
    }
}

#[test]
fn decoding_is_exact() {
    assert_eq!(SupportedLlm::try_from("OpenAI"), Err(ProviderError::UnsupportedBackend));
    assert_eq!(SupportedLlm::try_from("openai "), Err(ProviderError::UnsupportedBackend));
    assert_eq!(SupportedLlm::try_from(" openai"), Err(ProviderError::UnsupportedBackend));
    assert_eq!(SupportedLlm::try_from(""), Err(ProviderError::UnsupportedBackend));
    assert_eq!(SupportedLlm::try_from("vertexai"), Err(ProviderError::UnsupportedBackend));
    assert_eq!(SupportedLlm::try_from("anthropic.vertexai"), Err(ProviderError::UnsupportedBackend));
}

#[test]
fn header_value_decodes() {
    assert_eq!(SupportedLlm::decode(Some("perplexityai")), Ok(SupportedLlm::PerplexityAi));
    assert_eq!(SupportedLlm::decode(Some("vertexai.anthropic")), Ok(SupportedLlm::AnthropicVertexAi));
}

#[test]
fn missing_or_unknown_header_is_unsupported() {
    assert_eq!(SupportedLlm::decode(None), Err(ProviderError::UnsupportedBackend));
    assert_eq!(SupportedLlm::decode(Some("gemini")), Err(ProviderError::UnsupportedBackend));
}

#[test]
fn backends_come_in_declaration_order() {
    assert_eq!(
        SupportedLlm::all(),
        vec![
            SupportedLlm::OpenAi,
            SupportedLlm::Anthropic,
            SupportedLlm::AnthropicVertexAi,
            SupportedLlm::PerplexityAi,
        ]
    );
}

#[test]
fn header_name_is_fixed() {
    assert_eq!(SupportedLlm::name(), "x-llm-provider");
    assert_eq!(HEADER_NAME, "x-llm-provider");
}

#[test]
fn unsupported_backend_message() {
    assert_eq!(ProviderError::UnsupportedBackend.to_string(), "Unsupported LLM provider");
}
