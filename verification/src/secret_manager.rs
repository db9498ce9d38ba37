//! The providers of secrets that the gateway knows, and what a lookup can
//! fail with. The lookup itself reads the environment or the network, and
//! is the caller's.

use crate::config::{BuildError, RequiredField};
use std::sync::Arc;
use vstd::prelude::*;

verus! {

/// Why a secret could not be resolved.
#[derive(Clone, Copy, Debug, PartialEq, Eq, Structural)]
pub enum SecretManagerError {
    /// No secret is stored under the name.
    NotFound,
}

impl SecretManagerError {
    /// The message of this error.
    pub fn to_string(&self) -> (message: String)
        ensures
            message@ == "Secret not found"@,
    {
        "Secret not found".to_string()
    }
}

/// The provider that resolves secrets from the environment of the process.
#[derive(Clone, Copy, Debug, PartialEq, Eq, Structural)]
pub struct EnvSecretManagerProvider;

impl EnvSecretManagerProvider {
    /// The provider, ready to be shared.
    pub fn new() -> Arc<Self> {
        Arc::new(EnvSecretManagerProvider)
    }
}

/// The provider that resolves secrets from the secret manager of one AWS
/// region.
pub struct AwsSecretManagerProvider {
    region: String,
}

/// Collects the settings of an [`AwsSecretManagerProvider`].
pub struct AwsSecretManagerProviderBuilder {
    region: Option<String>,
}

impl AwsSecretManagerProvider {
    /// The region of the provider.
    pub closed spec fn region(&self) -> Seq<char> {
        self.region@
    }

    /// A builder with no field set.
    pub fn builder() -> (builder: AwsSecretManagerProviderBuilder)
        ensures
            builder.region_set() is None,
    {
        AwsSecretManagerProviderBuilder { region: None }
    }

    /// The region of the provider.
    pub fn region_name(&self) -> (region: &str)
        ensures
            region@ == self.region(),
    {
        self.region.as_str()
    }
}

impl AwsSecretManagerProviderBuilder {
    /// The region that was set.
    pub closed spec fn region_set(&self) -> Option<Seq<char>> {
        self.region.deep_view()
    }

    /// Sets the region.
    pub fn region(self, region: String) -> (builder: Self)
        ensures
            builder.region_set() == Some(region@),
    {
        AwsSecretManagerProviderBuilder { region: Some(region) }
    }

    /// Builds the provider, ready to be shared. Fails exactly if the region
    /// is not set.
    pub fn build(self) -> (r: Result<Arc<AwsSecretManagerProvider>, BuildError>)
        ensures
            match r {
                Ok(provider) => Some(provider.region()) == self.region_set(),
                Err(error) => self.region_set() is None && error.missing@ == seq![
                    RequiredField::Region,
                ],
            },
    {
        match self.region {
            Some(region) => Ok(Arc::new(AwsSecretManagerProvider { region })),
            None => {
                let mut missing: Vec<RequiredField> = Vec::new();
                missing.push(RequiredField::Region);
                Err(BuildError { missing })
            },
        }
    }
}

} // verus!
