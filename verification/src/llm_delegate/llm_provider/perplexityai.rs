//! The PerplexityAI backend: an OpenAI-compatible service with a fixed list
//! of models.

use crate::entities::Model;
use crate::llm_delegate::llm_provider::{describe_models, models_owned_by};
use crate::supported_llm::SupportedLlm;
use vstd::prelude::*;

verus! {

/// The identifiers of the models that the service offers.
pub open spec fn model_ids() -> Seq<Seq<char>> {
    seq![
        "llama-3.1-sonar-small-128k-online"@,
        "llama-3.1-sonar-large-128k-online"@,
        "llama-3.1-sonar-huge-128k-online"@,
        "llama-3.1-sonar-small-128k-chat"@,
        "llama-3.1-sonar-large-128k-chat"@,
    ]
}

/// The descriptors of the models that the service offers.
pub fn models() -> (models: Vec<Model>)
    ensures
        models.deep_view() == models_owned_by(model_ids(), SupportedLlm::PerplexityAi.encoding()),
{
    let mut ids: Vec<String> = Vec::new();
    ids.push("llama-3.1-sonar-small-128k-online".to_string());
    ids.push("llama-3.1-sonar-large-128k-online".to_string());
    ids.push("llama-3.1-sonar-huge-128k-online".to_string());
    ids.push("llama-3.1-sonar-small-128k-chat".to_string());
    ids.push("llama-3.1-sonar-large-128k-chat".to_string());
    describe_models(SupportedLlm::PerplexityAi, ids)
}

} // verus!
