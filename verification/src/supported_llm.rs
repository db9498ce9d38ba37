//! The closed set of backends the gateway can dispatch to.

use crate::llm_delegate::ProviderError;
use crate::text::same_text;
use vstd::prelude::*;
use vstd::std_specs::convert::TryFromSpecImpl;

verus! {

/// A backend the gateway knows how to reach. Two identifiers are equal
/// exactly if their string encodings are.
#[derive(Clone, Copy, Debug, PartialEq, Eq, Hash, Structural)]
pub enum SupportedLlm {
    OpenAi,
    Anthropic,
    AnthropicVertexAi,
    PerplexityAi,
}

impl DeepView for SupportedLlm {
    type V = SupportedLlm;

    open spec fn deep_view(&self) -> SupportedLlm {
        *self
    }
}

/// The name of the request header that selects the backend.
pub const HEADER_NAME: &'static str = "x-llm-provider";

/// The backend that a string encodes, if it encodes one. The match is exact:
/// case matters, and nothing is trimmed.
pub open spec fn decoded(value: Seq<char>) -> Option<SupportedLlm> {
    if value == SupportedLlm::OpenAi.encoding() {
        Some(SupportedLlm::OpenAi)
    } else if value == SupportedLlm::Anthropic.encoding() {
        Some(SupportedLlm::Anthropic)
    } else if value == SupportedLlm::AnthropicVertexAi.encoding() {
        Some(SupportedLlm::AnthropicVertexAi)
    } else if value == SupportedLlm::PerplexityAi.encoding() {
        Some(SupportedLlm::PerplexityAi)
    } else {
        None
    }
}

/// The backends in the order of their declaration.
pub open spec fn declared_backends() -> Seq<SupportedLlm> {
    seq![
        SupportedLlm::OpenAi,
        SupportedLlm::Anthropic,
        SupportedLlm::AnthropicVertexAi,
        SupportedLlm::PerplexityAi,
    ]
}

impl SupportedLlm {
    /// The string encoding of a backend, as a sequence of characters.
    pub open spec fn encoding(self) -> Seq<char> {
        match self {
            SupportedLlm::OpenAi => "openai"@,
            SupportedLlm::Anthropic => "anthropic"@,
            SupportedLlm::AnthropicVertexAi => "vertexai.anthropic"@,
            SupportedLlm::PerplexityAi => "perplexityai"@,
        }
    }

    /// The stable string encoding, used as header value and as cache key.
    pub fn as_str(&self) -> (s: &'static str)
        ensures
            s@ == self.encoding(),
    {
        match self {
            SupportedLlm::OpenAi => "openai",
            SupportedLlm::Anthropic => "anthropic",
            SupportedLlm::AnthropicVertexAi => "vertexai.anthropic",
            SupportedLlm::PerplexityAi => "perplexityai",
        }
    }

    /// The stable string encoding, as an owned string.
    pub fn to_string(&self) -> (s: String)
        ensures
            s@ == self.encoding(),
    {
        self.as_str().to_string()
    }

    /// The name of the request header that selects the backend.
    pub fn name() -> (name: &'static str)
        ensures
            name@ == HEADER_NAME@,
    {
        HEADER_NAME
    }

    /// Every backend, in the order of declaration. Merged results follow
    /// this order.
    pub fn all() -> (backends: Vec<SupportedLlm>)
        ensures
            backends@ == declared_backends(),
    {
        let mut backends: Vec<SupportedLlm> = Vec::new();
        backends.push(SupportedLlm::OpenAi);
        backends.push(SupportedLlm::Anthropic);
        backends.push(SupportedLlm::AnthropicVertexAi);
        backends.push(SupportedLlm::PerplexityAi);
        backends
    }

    /// Decodes the value of the backend header. `None` stands for a request
    /// that carries no such header.
    pub fn decode(value: Option<&str>) -> (r: Result<SupportedLlm, ProviderError>)
        ensures
            r == match value {
                Some(text) => match decoded(text@) {
                    Some(llm) => Ok(llm),
                    None => Err(ProviderError::UnsupportedBackend),
                },
                None => Err(ProviderError::UnsupportedBackend),
            },
    {
        match value {
            Some(text) => SupportedLlm::try_from(text),
            None => Err(ProviderError::UnsupportedBackend),
        }
    }
}

impl<'a> TryFrom<&'a str> for SupportedLlm {
    type Error = ProviderError;

    /// Decodes a string encoding. Fails on every string that is not the
    /// exact encoding of a backend.
    fn try_from(value: &'a str) -> (r: Result<SupportedLlm, ProviderError>) {
        if same_text(value, "openai") {
            Ok(SupportedLlm::OpenAi)
        } else if same_text(value, "anthropic") {
            Ok(SupportedLlm::Anthropic)
        } else if same_text(value, "vertexai.anthropic") {
            Ok(SupportedLlm::AnthropicVertexAi)
        } else if same_text(value, "perplexityai") {
            Ok(SupportedLlm::PerplexityAi)
        } else {
            Err(ProviderError::UnsupportedBackend)
        }
    }
}

impl<'a> TryFromSpecImpl<&'a str> for SupportedLlm {
    open spec fn obeys_try_from_spec() -> bool {
        true
    }

    open spec fn try_from_spec(value: &'a str) -> Result<SupportedLlm, ProviderError> {
        match decoded(value@) {
            Some(llm) => Ok(llm),
            None => Err(ProviderError::UnsupportedBackend),
        }
    }
}

/// Each backend is what its own encoding decodes to, so that no two
/// backends share an encoding.
pub proof fn lemma_encoding_round_trip(llm: SupportedLlm)
    ensures
        decoded(llm.encoding()) == Some(llm),
{
    reveal_strlit("openai");
    reveal_strlit("anthropic");
    reveal_strlit("vertexai.anthropic");
    reveal_strlit("perplexityai");
    assert("openai"@.len() == 6);
    assert("anthropic"@.len() == 9);
    assert("vertexai.anthropic"@.len() == 18);
    assert("perplexityai"@.len() == 12);
}

/// A string decodes to a backend only if it is that backend's encoding.
pub proof fn lemma_decoded_is_exact(value: Seq<char>, llm: SupportedLlm)
    ensures
        decoded(value) == Some(llm) <==> value == llm.encoding(),
{
    lemma_encoding_round_trip(llm);
}

} // verus!
