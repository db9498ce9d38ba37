//! A provider for Amazon Cognito: the issuer follows from the region and
//! the user pool, and the key set is fetched once and kept.

use crate::auth::{jwks_endpoint, jwks_url, AuthError, Validation, ValidationView};
use crate::config::{
    lemma_missing_fields_empty, missing_fields, note_missing, BuildError, RequiredField,
};
use vstd::prelude::*;

verus! {

/// A provider for one Cognito user pool.
pub struct CognitoAuthProvider {
    user_pool_id: String,
    region: String,
    cached_keys: Option<jsonwebtoken::jwk::JwkSet>,
}

/// Collects the settings of a [`CognitoAuthProvider`].
pub struct CognitoAuthProviderBuilder {
    user_pool_id: Option<String>,
    region: Option<String>,
}

/// The address of the issuer of a user pool in a region.
pub open spec fn cognito_issuer(region: Seq<char>, user_pool_id: Seq<char>) -> Seq<char> {
    "https://cognito-idp."@ + region + ".amazonaws.com/"@ + user_pool_id
}

impl CognitoAuthProviderBuilder {
    /// The user pool that was set.
    pub closed spec fn user_pool_id_set(&self) -> Option<Seq<char>> {
        self.user_pool_id.deep_view()
    }

    /// The region that was set.
    pub closed spec fn region_set(&self) -> Option<Seq<char>> {
        self.region.deep_view()
    }

    /// The fields that a build would report as missing.
    pub open spec fn missing(&self) -> Seq<RequiredField> {
        missing_fields(
            seq![
                (RequiredField::UserPoolId, self.user_pool_id_set() is Some),
                (RequiredField::Region, self.region_set() is Some),
            ],
        )
    }

    /// Sets the user pool.
    pub fn user_pool_id(self, user_pool_id: String) -> (builder: Self)
        ensures
            builder.user_pool_id_set() == Some(user_pool_id@),
            builder.region_set() == self.region_set(),
    {
        CognitoAuthProviderBuilder { user_pool_id: Some(user_pool_id), region: self.region }
    }

    /// Sets the region.
    pub fn region(self, region: String) -> (builder: Self)
        ensures
            builder.user_pool_id_set() == self.user_pool_id_set(),
            builder.region_set() == Some(region@),
    {
        CognitoAuthProviderBuilder { user_pool_id: self.user_pool_id, region: Some(region) }
    }

    /// Builds the provider, with no key set yet. Fails exactly if a field is
    /// not set, and then names every field that is not.
    pub fn build(self) -> (r: Result<CognitoAuthProvider, BuildError>)
        ensures
            match r {
                Ok(provider) => {
                    &&& Some(provider.user_pool_id()) == self.user_pool_id_set()
                    &&& Some(provider.region()) == self.region_set()
                    &&& provider.cache() is None
                },
                Err(error) => error.missing@ == self.missing() && self.missing().len() > 0,
            },
            r is Ok <==> self.user_pool_id_set() is Some && self.region_set() is Some,
    {
        let ghost mut checked: Seq<(RequiredField, bool)> = Seq::empty();
        let mut missing: Vec<RequiredField> = Vec::new();
        note_missing(
            &mut missing,
            Ghost(checked),
            RequiredField::UserPoolId,
            self.user_pool_id.is_some(),
        );
        proof {
            checked = checked.push((RequiredField::UserPoolId, self.user_pool_id_set() is Some));
        }
        note_missing(&mut missing, Ghost(checked), RequiredField::Region, self.region.is_some());
        proof {
            checked = checked.push((RequiredField::Region, self.region_set() is Some));
            assert(checked =~= seq![
                (RequiredField::UserPoolId, self.user_pool_id_set() is Some),
                (RequiredField::Region, self.region_set() is Some),
            ]);
            lemma_missing_fields_empty(checked);
        }
        match (self.user_pool_id, self.region) {
            (Some(user_pool_id), Some(region)) => Ok(
                CognitoAuthProvider { user_pool_id, region, cached_keys: None },
            ),
            _ => Err(BuildError { missing }),
        }
    }
}

impl CognitoAuthProvider {
    /// The user pool.
    pub closed spec fn user_pool_id(&self) -> Seq<char> {
        self.user_pool_id@
    }

    /// The region.
    pub closed spec fn region(&self) -> Seq<char> {
        self.region@
    }

    /// The key set that was fetched, if one was.
    pub closed spec fn cache(&self) -> Option<jsonwebtoken::jwk::JwkSet> {
        self.cached_keys
    }

    /// A builder with no field set.
    pub fn builder() -> (builder: CognitoAuthProviderBuilder)
        ensures
            builder.user_pool_id_set() is None,
            builder.region_set() is None,
    {
        CognitoAuthProviderBuilder { user_pool_id: None, region: None }
    }

    /// The address of the issuer.
    pub fn issuer(&self) -> (issuer: String)
        ensures
            issuer@ == cognito_issuer(self.region(), self.user_pool_id()),
    {
        "https://cognito-idp.".to_string().concat(self.region.as_str()).concat(
            ".amazonaws.com/",
        ).concat(self.user_pool_id.as_str())
    }

    /// The address at which the issuer publishes its key set.
    pub fn jwks_url(&self) -> (url: String)
        ensures
            url@ == jwks_endpoint(cognito_issuer(self.region(), self.user_pool_id())),
    {
        let issuer = self.issuer();
        jwks_url(issuer.as_str())
    }

    /// Whether the key set has to be fetched first: none is kept yet.
    pub fn needs_refresh(&self) -> (r: bool)
        ensures
            r == (self.cache() is None),
    {
        self.cached_keys.is_none()
    }

    /// Ends a refresh whose fetch ended in `fetched`, and hands out the key
    /// set that serves the read: a key set that was fetched is kept from
    /// now on, and serves; a fetch that failed keeps nothing and reports
    /// that the credentials are missing.
    pub fn refresh(&mut self, fetched: Result<jsonwebtoken::jwk::JwkSet, String>) -> (r: Result<
        &jsonwebtoken::jwk::JwkSet,
        AuthError,
    >)
        ensures
            final(self).user_pool_id() == old(self).user_pool_id(),
            final(self).region() == old(self).region(),
            match r {
                Ok(keys) => fetched == Ok::<jsonwebtoken::jwk::JwkSet, String>(*keys)
                    && final(self).cache() == Some(*keys),
                Err(error) => fetched is Err && error == AuthError::MissingCredentials(
                    fetched->Err_0,
                ) && final(self).cache() == old(self).cache(),
            },
    {
        match fetched {
            Ok(keys) => {
                self.cached_keys = Some(keys);
                Ok(self.cached_keys.as_ref().unwrap())
            },
            Err(reason) => Err(AuthError::MissingCredentials(reason)),
        }
    }

    /// The key set that is kept, if one is.
    pub fn jwk_set(&self) -> (keys: Option<&jsonwebtoken::jwk::JwkSet>)
        ensures
            match keys {
                Some(keys) => self.cache() == Some(*keys),
                None => self.cache() is None,
            },
    {
        self.cached_keys.as_ref()
    }

    /// Shapes a validation: the token must not be expired. The rest stays.
    pub fn decode_validation(&self, validation: Validation) -> (shaped: Validation)
        ensures
            shaped.deep_view() == (ValidationView { validate_exp: true, ..validation.deep_view() }),
    {
        Validation {
            algorithm: validation.algorithm,
            validate_exp: true,
            audience: validation.audience,
        }
    }
}

} // verus!
