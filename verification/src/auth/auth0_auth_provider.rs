//! A provider for Auth0: the key set is fetched once and kept, and a token
//! must name the audience of the service.

use crate::auth::{jwks_endpoint, jwks_url, AuthError, Validation, ValidationView};
use crate::config::{
    lemma_missing_fields_empty, missing_fields, note_missing, BuildError, RequiredField,
};
use vstd::prelude::*;

verus! {

/// A provider for one Auth0 tenant.
pub struct Auth0AuthProvider {
    issuer: String,
    audience: String,
    cached_keys: Option<jsonwebtoken::jwk::JwkSet>,
}

/// Collects the settings of an [`Auth0AuthProvider`].
pub struct Auth0AuthProviderBuilder {
    issuer: Option<String>,
    audience: Option<String>,
}

impl Auth0AuthProviderBuilder {
    /// The issuer that was set.
    pub closed spec fn issuer_set(&self) -> Option<Seq<char>> {
        self.issuer.deep_view()
    }

    /// The audience that was set.
    pub closed spec fn audience_set(&self) -> Option<Seq<char>> {
        self.audience.deep_view()
    }

    /// The fields that a build would report as missing.
    pub open spec fn missing(&self) -> Seq<RequiredField> {
        missing_fields(
            seq![
                (RequiredField::Issuer, self.issuer_set() is Some),
                (RequiredField::Audience, self.audience_set() is Some),
            ],
        )
    }

    /// Sets the address of the issuer.
    pub fn issuer(self, issuer: String) -> (builder: Self)
        ensures
            builder.issuer_set() == Some(issuer@),
            builder.audience_set() == self.audience_set(),
    {
        Auth0AuthProviderBuilder { issuer: Some(issuer), audience: self.audience }
    }

    /// Sets the audience that tokens must name.
    pub fn audience(self, audience: String) -> (builder: Self)
        ensures
            builder.issuer_set() == self.issuer_set(),
            builder.audience_set() == Some(audience@),
    {
        Auth0AuthProviderBuilder { issuer: self.issuer, audience: Some(audience) }
    }

    /// Builds the provider, with no key set yet. Fails exactly if a field is
    /// not set, and then names every field that is not.
    pub fn build(self) -> (r: Result<Auth0AuthProvider, BuildError>)
        ensures
            match r {
                Ok(provider) => {
                    &&& Some(provider.issuer()) == self.issuer_set()
                    &&& Some(provider.audience()) == self.audience_set()
                    &&& provider.cache() is None
                },
                Err(error) => error.missing@ == self.missing() && self.missing().len() > 0,
            },
            r is Ok <==> self.issuer_set() is Some && self.audience_set() is Some,
    {
        let ghost mut checked: Seq<(RequiredField, bool)> = Seq::empty();
        let mut missing: Vec<RequiredField> = Vec::new();
        note_missing(&mut missing, Ghost(checked), RequiredField::Issuer, self.issuer.is_some());
        proof {
            checked = checked.push((RequiredField::Issuer, self.issuer_set() is Some));
        }
        note_missing(
            &mut missing,
            Ghost(checked),
            RequiredField::Audience,
            self.audience.is_some(),
        );
        proof {
            checked = checked.push((RequiredField::Audience, self.audience_set() is Some));
            assert(checked =~= seq![
                (RequiredField::Issuer, self.issuer_set() is Some),
                (RequiredField::Audience, self.audience_set() is Some),
            ]);
            lemma_missing_fields_empty(checked);
        }
        match (self.issuer, self.audience) {
            (Some(issuer), Some(audience)) => Ok(
                Auth0AuthProvider { issuer, audience, cached_keys: None },
            ),
            _ => Err(BuildError { missing }),
        }
    }
}

impl Auth0AuthProvider {
    /// The address of the issuer.
    pub closed spec fn issuer(&self) -> Seq<char> {
        self.issuer@
    }

    /// The audience that tokens must name.
    pub closed spec fn audience(&self) -> Seq<char> {
        self.audience@
    }

    /// The key set that was fetched, if one was.
    pub closed spec fn cache(&self) -> Option<jsonwebtoken::jwk::JwkSet> {
        self.cached_keys
    }

    /// A builder with no field set.
    pub fn builder() -> (builder: Auth0AuthProviderBuilder)
        ensures
            builder.issuer_set() is None,
            builder.audience_set() is None,
    {
        Auth0AuthProviderBuilder { issuer: None, audience: None }
    }

    /// The address at which the issuer publishes its key set.
    pub fn jwks_url(&self) -> (url: String)
        ensures
            url@ == jwks_endpoint(self.issuer()),
    {
        jwks_url(self.issuer.as_str())
    }

    /// Whether the key set has to be fetched first: none is kept yet.
    pub fn needs_refresh(&self) -> (r: bool)
        ensures
            r == (self.cache() is None),
    {
        self.cached_keys.is_none()
    }

    /// Ends a refresh whose fetch ended in `fetched`, and hands out the key
    /// set that serves the read: a key set that was fetched is kept from
    /// now on, and serves; a fetch that failed keeps nothing and reports
    /// that the credentials are missing.
    pub fn refresh(&mut self, fetched: Result<jsonwebtoken::jwk::JwkSet, String>) -> (r: Result<
        &jsonwebtoken::jwk::JwkSet,
        AuthError,
    >)
        ensures
            final(self).issuer() == old(self).issuer(),
            final(self).audience() == old(self).audience(),
            match r {
                Ok(keys) => fetched == Ok::<jsonwebtoken::jwk::JwkSet, String>(*keys)
                    && final(self).cache() == Some(*keys),
                Err(error) => fetched is Err && error == AuthError::MissingCredentials(
                    fetched->Err_0,
                ) && final(self).cache() == old(self).cache(),
            },
    {
        match fetched {
            Ok(keys) => {
                self.cached_keys = Some(keys);
                Ok(self.cached_keys.as_ref().unwrap())
            },
            Err(reason) => Err(AuthError::MissingCredentials(reason)),
        }
    }

    /// The key set that is kept, if one is.
    pub fn jwk_set(&self) -> (keys: Option<&jsonwebtoken::jwk::JwkSet>)
        ensures
            match keys {
                Some(keys) => self.cache() == Some(*keys),
                None => self.cache() is None,
            },
    {
        self.cached_keys.as_ref()
    }

    /// Shapes a validation: the token must name the audience of the
    /// provider and must not be expired. The algorithm stays.
    pub fn decode_validation(&self, validation: Validation) -> (shaped: Validation)
        ensures
            shaped.deep_view() == (ValidationView {
                algorithm: validation.algorithm,
                validate_exp: true,
                audience: Some(seq![self.audience()]),
            }),
    {
        let mut audience: Vec<String> = Vec::new();
        audience.push(self.audience.clone());
        assert(audience.deep_view() =~= seq![self.audience()]);
        Validation { algorithm: validation.algorithm, validate_exp: true, audience: Some(audience) }
    }
}

} // verus!
