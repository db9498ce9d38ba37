//! The registry of backend adapters, and what each backend needs to be built.
//!
//! An adapter is built once, on the first request for its backend, from
//! secrets that the caller resolves. The registry holds the adapters; it is
//! generic in their type and never looks inside one. The caller keeps the
//! registry behind one lock and holds that lock from the lookup to the
//! installation, so that the steps below happen as one.

pub mod perplexityai;

use crate::entities::{Model, ModelView};
use crate::llm_delegate::{ProviderError, ProviderErrorView};
use crate::supported_llm::SupportedLlm;
use vstd::prelude::*;

verus! {

// ---------------------------------------------------------------------------
// The registry
// ---------------------------------------------------------------------------

/// The adapters built so far, one slot for each backend.
pub struct LlmProviderMap<P> {
    open_ai: Option<P>,
    anthropic: Option<P>,
    anthropic_vertex_ai: Option<P>,
    perplexity_ai: Option<P>,
}

/// Whether a request for `llm` has to build its adapter first.
pub open spec fn needs_construction<P>(registry: Map<SupportedLlm, P>, llm: SupportedLlm) -> bool {
    !registry.contains_key(llm)
}

/// The registry after a request for `llm` whose construction, if one was
/// needed, ended in `built`. An adapter is installed only in an empty slot,
/// and a failure installs nothing.
pub open spec fn after_construction<P>(
    registry: Map<SupportedLlm, P>,
    llm: SupportedLlm,
    built: Result<P, ProviderError>,
) -> Map<SupportedLlm, P> {
    match built {
        Ok(provider) if needs_construction(registry, llm) => registry.insert(llm, provider),
        _ => registry,
    }
}

impl<P> LlmProviderMap<P> {
    /// The content of the slot of `llm`.
    pub closed spec fn slot(&self, llm: SupportedLlm) -> Option<P> {
        match llm {
            SupportedLlm::OpenAi => self.open_ai,
            SupportedLlm::Anthropic => self.anthropic,
            SupportedLlm::AnthropicVertexAi => self.anthropic_vertex_ai,
            SupportedLlm::PerplexityAi => self.perplexity_ai,
        }
    }

    /// An empty registry.
    pub fn new() -> (registry: Self)
        ensures
            registry@ == Map::<SupportedLlm, P>::empty(),
    {
        LlmProviderMap {
            open_ai: None,
            anthropic: None,
            anthropic_vertex_ai: None,
            perplexity_ai: None,
        }
    }

    /// Whether the adapter of `llm` has been built.
    pub fn contains_key(&self, llm: SupportedLlm) -> (r: bool)
        ensures
            r == self@.contains_key(llm),
            r == !needs_construction(self@, llm),
    {
        self.get(llm).is_some()
    }

    /// The adapter of `llm`, if it has been built.
    pub fn get(&self, llm: SupportedLlm) -> (r: Option<&P>)
        ensures
            match r {
                Some(provider) => self@.contains_key(llm) && self@[llm] == *provider,
                None => !self@.contains_key(llm),
            },
    {
        match llm {
            SupportedLlm::OpenAi => self.open_ai.as_ref(),
            SupportedLlm::Anthropic => self.anthropic.as_ref(),
            SupportedLlm::AnthropicVertexAi => self.anthropic_vertex_ai.as_ref(),
            SupportedLlm::PerplexityAi => self.perplexity_ai.as_ref(),
        }
    }

    /// Ends a request for `llm` whose construction ended in `built`, and
    /// hands out the adapter that serves the request.
    ///
    /// An adapter is installed if the slot is empty, and dropped if the slot
    /// is taken: the adapter that was there first stays, and serves. A
    /// failure leaves the registry as it was, so that a later request builds
    /// again. The request succeeds exactly if the slot holds an adapter
    /// afterwards; otherwise it fails with the error of the construction.
    pub fn install(&mut self, llm: SupportedLlm, built: Result<P, ProviderError>) -> (r: Result<
        &P,
        ProviderError,
    >)
        ensures
            final(self)@ == after_construction(old(self)@, llm, built),
            match r {
                Ok(provider) => final(self)@.contains_key(llm) && final(self)@[llm] == *provider,
                Err(error) => !final(self)@.contains_key(llm) && built == Err::<P, ProviderError>(
                    error,
                ),
            },
    {
        if !self.contains_key(llm) {
            match built {
                Ok(provider) => {
                    match llm {
                        SupportedLlm::OpenAi => {
                            self.open_ai = Some(provider);
                        },
                        SupportedLlm::Anthropic => {
                            self.anthropic = Some(provider);
                        },
                        SupportedLlm::AnthropicVertexAi => {
                            self.anthropic_vertex_ai = Some(provider);
                        },
                        SupportedLlm::PerplexityAi => {
                            self.perplexity_ai = Some(provider);
                        },
                    }
                    assert(self@ =~= old(self)@.insert(llm, provider));
                },
                Err(error) => {
                    return Err(error);
                },
            }
        }
        Ok(self.get(llm).unwrap())
    }
}

impl<P> View for LlmProviderMap<P> {
    type V = Map<SupportedLlm, P>;

    /// The registry as a map from each backend whose adapter has been built
    /// to that adapter.
    closed spec fn view(&self) -> Map<SupportedLlm, P> {
        Map::new(
            |llm: SupportedLlm| self.slot(llm) is Some,
            |llm: SupportedLlm| self.slot(llm)->Some_0,
        )
    }
}

impl<P> Default for LlmProviderMap<P> {
    fn default() -> (registry: Self)
        ensures
            registry@ == Map::<SupportedLlm, P>::empty(),
    {
        LlmProviderMap::new()
    }
}

/// Once an adapter has been installed, no later request for the same backend
/// builds another, and what a later construction would have built is never
/// installed.
pub proof fn lemma_installed_adapter_stays<P>(
    registry: Map<SupportedLlm, P>,
    llm: SupportedLlm,
    first: P,
    later: Result<P, ProviderError>,
)
    requires
        needs_construction(registry, llm),
    ensures
        ({
            let installed = after_construction(registry, llm, Ok(first));
            &&& !needs_construction(installed, llm)
            &&& installed[llm] == first
            &&& after_construction(installed, llm, later) == installed
        }),
{
}

/// The number of adapters that a run of requests builds. The requests are
/// served one after the other, as the lock lets them through; each comes
/// with the adapter that its construction would build, and builds it only if
/// it finds the slot of its backend empty.
pub open spec fn constructions<P>(
    registry: Map<SupportedLlm, P>,
    requests: Seq<(SupportedLlm, P)>,
) -> nat
    decreases requests.len(),
{
    if requests.len() == 0 {
        0
    } else {
        let (llm, built) = requests[0];
        let served = after_construction(registry, llm, Ok(built));
        let built_now: nat = if needs_construction(registry, llm) {
            1
        } else {
            0
        };
        built_now + constructions(served, requests.skip(1))
    }
}

/// Requests for a backend whose adapter is built already build nothing.
pub proof fn lemma_built_backend_constructs_nothing<P>(
    registry: Map<SupportedLlm, P>,
    llm: SupportedLlm,
    requests: Seq<(SupportedLlm, P)>,
)
    requires
        !needs_construction(registry, llm),
        forall|i: int| 0 <= i < requests.len() ==> (#[trigger] requests[i]).0 == llm,
    ensures
        constructions(registry, requests) == 0,
    decreases requests.len(),
{
    if requests.len() > 0 {
        lemma_built_backend_constructs_nothing(registry, llm, requests.skip(1));
    }
}

/// Any number of first requests for one backend, in whatever order the lock
/// lets them through, build exactly one adapter.
pub proof fn lemma_one_construction_per_backend<P>(
    registry: Map<SupportedLlm, P>,
    llm: SupportedLlm,
    requests: Seq<(SupportedLlm, P)>,
)
    requires
        needs_construction(registry, llm),
        requests.len() > 0,
        forall|i: int| 0 <= i < requests.len() ==> (#[trigger] requests[i]).0 == llm,
    ensures
        constructions(registry, requests) == 1,
{
    let served = after_construction(registry, llm, Ok(requests[0].1));
    lemma_built_backend_constructs_nothing(served, llm, requests.skip(1));
}

/// A construction that fails is not remembered: the registry is unchanged,
/// and the next request for the backend builds again.
pub proof fn lemma_failed_construction_is_retried<P>(
    registry: Map<SupportedLlm, P>,
    llm: SupportedLlm,
    error: ProviderError,
)
    requires
        needs_construction(registry, llm),
    ensures
        after_construction(registry, llm, Err(error)) == registry,
        needs_construction(after_construction(registry, llm, Err(error)), llm),
{
}

/// A request for one backend leaves the adapters of the others alone.
pub proof fn lemma_construction_is_local<P>(
    registry: Map<SupportedLlm, P>,
    llm: SupportedLlm,
    built: Result<P, ProviderError>,
    other: SupportedLlm,
)
    requires
        other != llm,
    ensures
        after_construction(registry, llm, built).contains_key(other) == registry.contains_key(
            other,
        ),
        registry.contains_key(other) ==> after_construction(registry, llm, built)[other]
            == registry[other],
{
}

// ---------------------------------------------------------------------------
// Credentials
// ---------------------------------------------------------------------------

/// The base address of the PerplexityAI service.
pub const PERPLEXITYAI_API_BASE: &'static str = "https://api.perplexity.ai";

/// The resolved credentials of one backend: all that is needed to build its
/// client.
#[derive(Clone, Debug, PartialEq, Eq)]
pub enum Credentials {
    OpenAi { api_key: String },
    Anthropic { api_key: String },
    AnthropicVertexAi { api_key: String, project: String, region: String },
    PerplexityAi { api_key: String, api_base: String },
}

/// The mathematical value of a [`Credentials`].
pub enum CredentialsView {
    OpenAi { api_key: Seq<char> },
    Anthropic { api_key: Seq<char> },
    AnthropicVertexAi { api_key: Seq<char>, project: Seq<char>, region: Seq<char> },
    PerplexityAi { api_key: Seq<char>, api_base: Seq<char> },
}

impl DeepView for Credentials {
    type V = CredentialsView;

    open spec fn deep_view(&self) -> CredentialsView {
        match self {
            Credentials::OpenAi { api_key } => CredentialsView::OpenAi {
                api_key: api_key.deep_view(),
            },
            Credentials::Anthropic { api_key } => CredentialsView::Anthropic {
                api_key: api_key.deep_view(),
            },
            Credentials::AnthropicVertexAi {
                api_key,
                project,
                region,
            } => CredentialsView::AnthropicVertexAi {
                api_key: api_key.deep_view(),
                project: project.deep_view(),
                region: region.deep_view(),
            },
            Credentials::PerplexityAi { api_key, api_base } => CredentialsView::PerplexityAi {
                api_key: api_key.deep_view(),
                api_base: api_base.deep_view(),
            },
        }
    }
}

/// The names of the secrets that the adapter of a backend is built from, in
/// the order in which the caller hands their values back.
pub open spec fn secret_names(llm: SupportedLlm) -> Seq<Seq<char>> {
    match llm {
        SupportedLlm::OpenAi => seq!["OPENAI_API_KEY"@],
        SupportedLlm::Anthropic => seq!["ANTHROPIC_API_KEY"@],
        SupportedLlm::AnthropicVertexAi => seq![
            "GCLOUD_API_KEY"@,
            "GCLOUD_PROJECT_ID"@,
            "GCLOUD_REGION"@,
        ],
        SupportedLlm::PerplexityAi => seq!["PERPLEXITYAI_API_KEY"@],
    }
}

/// The secret at one position of what the caller resolved. A position that
/// the caller left out counts as a secret that was not found.
pub open spec fn secret_at(secrets: Seq<Option<Seq<char>>>, position: int) -> Option<Seq<char>> {
    if 0 <= position < secrets.len() {
        secrets[position]
    } else {
        None
    }
}

/// The failure to resolve the secret at `position` of the secrets of `llm`.
pub open spec fn missing_secret(llm: SupportedLlm, position: int) -> ProviderErrorView {
    ProviderErrorView::MissingSecret(secret_names(llm)[position])
}

/// The credentials of a backend, given the values of its secrets, or the
/// first secret that is missing. Where a backend needs several secrets, the
/// last one is looked at first.
pub open spec fn credentials_of(llm: SupportedLlm, secrets: Seq<Option<Seq<char>>>) -> Result<
    CredentialsView,
    ProviderErrorView,
> {
    match llm {
        SupportedLlm::OpenAi => match secret_at(secrets, 0) {
            Some(api_key) => Ok(CredentialsView::OpenAi { api_key }),
            None => Err(missing_secret(llm, 0)),
        },
        SupportedLlm::Anthropic => match secret_at(secrets, 0) {
            Some(api_key) => Ok(CredentialsView::Anthropic { api_key }),
            None => Err(missing_secret(llm, 0)),
        },
        SupportedLlm::AnthropicVertexAi => match secret_at(secrets, 2) {
            Some(region) => match secret_at(secrets, 1) {
                Some(project) => match secret_at(secrets, 0) {
                    Some(api_key) => Ok(
                        CredentialsView::AnthropicVertexAi { api_key, project, region },
                    ),
                    None => Err(missing_secret(llm, 0)),
                },
                None => Err(missing_secret(llm, 1)),
            },
            None => Err(missing_secret(llm, 2)),
        },
        SupportedLlm::PerplexityAi => match secret_at(secrets, 0) {
            Some(api_key) => Ok(
                CredentialsView::PerplexityAi { api_key, api_base: PERPLEXITYAI_API_BASE@ },
            ),
            None => Err(missing_secret(llm, 0)),
        },
    }
}

/// The names of the secrets that the adapter of `llm` is built from. The
/// caller resolves each, all at once if it likes, and hands the values to
/// [`resolve_credentials`] in this order.
pub fn required_secrets(llm: SupportedLlm) -> (names: Vec<&'static str>)
    ensures
        names.deep_view() == secret_names(llm),
{
    let mut names: Vec<&'static str> = Vec::new();
    match llm {
        SupportedLlm::OpenAi => {
            names.push("OPENAI_API_KEY");
        },
        SupportedLlm::Anthropic => {
            names.push("ANTHROPIC_API_KEY");
        },
        SupportedLlm::AnthropicVertexAi => {
            names.push("GCLOUD_API_KEY");
            names.push("GCLOUD_PROJECT_ID");
            names.push("GCLOUD_REGION");
        },
        SupportedLlm::PerplexityAi => {
            names.push("PERPLEXITYAI_API_KEY");
        },
    }
    names
}

/// The secret at one position, or the failure that names it.
fn secret_or_missing(llm: SupportedLlm, secrets: &Vec<Option<String>>, position: usize) -> (r:
    Result<String, ProviderError>)
    requires
        position < secret_names(llm).len(),
    ensures
        match secret_at(secrets.deep_view(), position as int) {
            Some(value) => r matches Ok(secret) && secret@ == value,
            None => r matches Err(error) && error.deep_view() == missing_secret(
                llm,
                position as int,
            ),
        },
{
    if position < secrets.len() {
        match &secrets[position] {
            Some(value) => {
                return Ok(value.clone());
            },
            None => {},
        }
    }
    let names = required_secrets(llm);
    Err(ProviderError::MissingSecret(names[position].to_string()))
}

/// Builds the credentials of `llm` from the values of its secrets, in the
/// order of [`required_secrets`]; `None` stands for a secret that was not
/// found. Fails with the name of a missing secret, and otherwise succeeds.
pub fn resolve_credentials(llm: SupportedLlm, secrets: &Vec<Option<String>>) -> (r: Result<
    Credentials,
    ProviderError,
>)
    ensures
        crate::entities::result_view(r) == credentials_of(llm, secrets.deep_view()),
{
    match llm {
        SupportedLlm::OpenAi => {
            let api_key = secret_or_missing(llm, secrets, 0)?;
            Ok(Credentials::OpenAi { api_key })
        },
        SupportedLlm::Anthropic => {
            let api_key = secret_or_missing(llm, secrets, 0)?;
            Ok(Credentials::Anthropic { api_key })
        },
        SupportedLlm::AnthropicVertexAi => {
            let region = secret_or_missing(llm, secrets, 2)?;
            let project = secret_or_missing(llm, secrets, 1)?;
            let api_key = secret_or_missing(llm, secrets, 0)?;
            Ok(Credentials::AnthropicVertexAi { api_key, project, region })
        },
        SupportedLlm::PerplexityAi => {
            let api_key = secret_or_missing(llm, secrets, 0)?;
            Ok(Credentials::PerplexityAi { api_key, api_base: PERPLEXITYAI_API_BASE.to_string() })
        },
    }
}

// ---------------------------------------------------------------------------
// Model descriptors
// ---------------------------------------------------------------------------

/// The descriptor of the model `id` of the backend whose encoding is `owner`.
pub open spec fn model_owned_by(id: Seq<char>, owner: Seq<char>) -> ModelView {
    ModelView { id, object: "model"@, created: 0, owned_by: owner }
}

/// The descriptors of the models `ids` of one backend.
pub open spec fn models_owned_by(ids: Seq<Seq<char>>, owner: Seq<char>) -> Seq<ModelView> {
    Seq::new(ids.len(), |i: int| model_owned_by(ids[i], owner))
}

/// Describes the models of `llm` whose identifiers are `ids`, in their order.
pub fn describe_models(llm: SupportedLlm, ids: Vec<String>) -> (models: Vec<Model>)
    ensures
        models.deep_view() == models_owned_by(ids.deep_view(), llm.encoding()),
{
    let ghost all = ids.deep_view();
    let mut out: Vec<Model> = Vec::new();
    for id in it: ids
        invariant
            all.len() == it.seq().len(),
            forall|i: int| 0 <= i < all.len() ==> all[i] == (#[trigger] it.seq()[i]).deep_view(),
            out.deep_view() == models_owned_by(all.take(it.index() as int), llm.encoding()),
    {
        let ghost before = out.deep_view();
        let model = Model {
            id,
            object: "model".to_string(),
            created: 0,
            owned_by: llm.to_string(),
        };
        out.push(model);
        assert(out.deep_view() =~= before.push(model.deep_view()));
    }
    out
}

} // verus!
