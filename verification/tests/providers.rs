use jsonwebtoken::jwk::{
    AlgorithmParameters, CommonParameters, Jwk, JwkSet, OctetKeyParameters, OctetKeyType,
};
use jsonwebtoken::Algorithm;
use llm_gateway::auth::auth0_auth_provider::Auth0AuthProvider;
use llm_gateway::auth::cached_jwk_set::{CachedJwkSet, SingleCache};
use llm_gateway::auth::cognito_auth_provider::CognitoAuthProvider;
use llm_gateway::auth::{AuthError, Validation};
use llm_gateway::config::{BuildError, RequiredField};
use llm_gateway::secret_manager::{
    AwsSecretManagerProvider, EnvSecretManagerProvider, SecretManagerError,
};

fn text(s: &str) -> String {
    s.to_owned()
}

fn keys(kid: &str) -> JwkSet {
    JwkSet {
        keys: vec![Jwk {
            common: CommonParameters { key_id: Some(text(kid)), ..Default::default() },
            algorithm: AlgorithmParameters::OctetKey(OctetKeyParameters {
                key_type: OctetKeyType::Octet,
                value: text("c2VjcmV0"),
            }),
        }],
    }
}

fn keep(validation: Validation) -> Validation {
    validation
}

fn cached(lifetime: u64) -> CachedJwkSet<fn(Validation) -> Validation> {
    CachedJwkSet::builder()
        .issuer(text("https://issuer.example.com"))
        .duration(lifetime)
        .validator(keep as fn(Validation) -> Validation)
        .build()
        .unwrap()
}

#[test]
fn empty_cache_must_fetch() {
    let cache: SingleCache<u32> = SingleCache::default();
    assert!(cache.is_none());
    assert!(cache.needs_fetch(0));
    assert!(cache.needs_fetch(u64::MAX));
    assert_eq!(cache.get(), None);
}

#[test]
fn cached_value_is_served_until_expiry() {
    let cache = SingleCache::from((60, text("keys")), 1000);
    assert!(!cache.is_none());
    assert_eq!(cache.inner(), "keys");
    for now in [1000, 1001, 1059] {
        assert!(!cache.is_expired(now));
        assert!(!cache.needs_fetch(now));
    }
    for now in [1060, 1061, 5000, u64::MAX] {
        assert!(cache.is_expired(now));
        assert!(cache.needs_fetch(now));
    }
    assert_eq!(cache.get(), Some(&text("keys")));
}

#[test]
fn read_before_the_store_is_served() {
    let cache = SingleCache::from((60, 1u8), 1000);
    assert!(!cache.needs_fetch(0));
    assert!(!cache.needs_fetch(999));
}

#[test]
fn lifetime_that_passes_the_end_of_time_never_expires() {
    let cache = SingleCache::from((u64::MAX, 1u8), 10);
    assert!(!cache.needs_fetch(u64::MAX));
    let cache = SingleCache::from((u64::MAX, 1u8), 0);
    assert!(!cache.needs_fetch(u64::MAX - 1));
    assert!(cache.needs_fetch(u64::MAX));
}

#[test]
fn zero_lifetime_expires_at_once() {
    let cache = SingleCache::from((0, 1u8), 1000);
    assert!(cache.needs_fetch(1000));
    assert!(!cache.needs_fetch(999));
}

#[test]
fn cached_provider_fetches_once_per_lifetime() {
    let mut provider = cached(60);
    let mut fetches = 0;
    let mut served = Vec::new();
    for now in [1000u64, 1001, 1030, 1059, 1060, 1061, 1119, 1120] {
        let current = match provider.jwk_set(now) {
            Some(current) => current.clone(),
            None => {
                fetches += 1;
                let fetched = Ok(keys(&format!("fetch-{}", fetches)));
                provider.refresh(fetched, now).cloned().unwrap()
            }
        };
        served.push(current.keys[0].common.key_id.clone().unwrap());
    }
    assert_eq!(fetches, 3);
    assert_eq!(
        served,
        vec![
            "fetch-1", "fetch-1", "fetch-1", "fetch-1", "fetch-2", "fetch-2", "fetch-2", "fetch-3"
        ]
    );
}

#[test]
fn failed_fetch_leaves_the_cache_unchanged() {
    let mut provider = cached(60);
    assert!(provider.needs_refresh(0));
    assert_eq!(
        provider.refresh(Err(text("connection refused")), 0),
        Err(AuthError::MissingCredentials(text("connection refused")))
    );
    assert!(provider.jwk_set(0).is_none());
    assert!(provider.needs_refresh(0));

    assert_eq!(provider.refresh(Ok(keys("old")), 0), Ok(&keys("old")));
    assert!(provider.needs_refresh(60));
    assert_eq!(
        provider.refresh(Err(text("timeout")), 60),
        Err(AuthError::MissingCredentials(text("timeout")))
    );
    assert_eq!(provider.jwk_set(59), Some(&keys("old")));
    assert_eq!(provider.jwk_set(60), None);
    assert!(provider.needs_refresh(61));
}

#[test]
fn refresh_replaces_the_key_set_whole() {
    let mut provider = cached(10);
    assert_eq!(provider.refresh(Ok(keys("old")), 0), Ok(&keys("old")));
    assert_eq!(provider.refresh(Ok(keys("new")), 10), Ok(&keys("new")));
    assert_eq!(provider.jwk_set(19), Some(&keys("new")));
    assert!(!provider.needs_refresh(19));
    assert!(provider.needs_refresh(20));
    assert_eq!(provider.jwk_set(20), None);
}

#[test]
fn cached_provider_builds_only_when_complete() {
    let built = CachedJwkSet::builder()
        .issuer(text("https://issuer.example.com"))
        .duration(86400)
        .validator(keep as fn(Validation) -> Validation)
        .build();
    let provider = built.ok().unwrap();
    assert_eq!(provider.jwks_url(), "https://issuer.example.com/.well-known/jwks.json");
    assert!(provider.jwk_set(0).is_none());
    assert!(provider.needs_refresh(0));
}

fn missing(
    issuer: bool,
    duration: bool,
    validator: bool,
) -> Vec<RequiredField> {
    let mut builder = CachedJwkSet::<fn(Validation) -> Validation>::builder();
    if issuer {
        builder = builder.issuer(text("i"));
    }
    if duration {
        builder = builder.duration(1);
    }
    if validator {
        builder = builder.validator(keep as fn(Validation) -> Validation);
    }
    match builder.build() {
        Ok(_) => vec![],
        Err(error) => error.missing,
    }
}

#[test]
fn cached_provider_names_every_missing_field() {
    let issuer = RequiredField::Issuer;
    let duration = RequiredField::Duration;
    let validation = RequiredField::Validation;
    assert_eq!(missing(false, false, false), vec![issuer, duration, validation]);
    assert_eq!(missing(true, false, false), vec![duration, validation]);
    assert_eq!(missing(false, true, false), vec![issuer, validation]);
    assert_eq!(missing(false, false, true), vec![issuer, duration]);
    assert_eq!(missing(true, true, false), vec![validation]);
    assert_eq!(missing(true, false, true), vec![duration]);
    assert_eq!(missing(false, true, true), vec![issuer]);
    assert_eq!(missing(true, true, true), vec![]);
}

#[test]
fn build_error_message_lists_the_fields() {
    let error = BuildError { missing: vec![RequiredField::Issuer, RequiredField::Duration] };
    assert_eq!(error.to_string(), "Issuer is required; Duration is required");
    let error = BuildError { missing: vec![RequiredField::Validation] };
    assert_eq!(error.to_string(), "Validation is required");
    assert_eq!(RequiredField::Audience.message(), "Audience is required");
    assert_eq!(RequiredField::UserPoolId.message(), "User pool id is required");
    assert_eq!(RequiredField::Region.message(), "Region is required");
}

#[test]
fn cached_provider_applies_its_validator() {
    let provider = CachedJwkSet::builder()
        .issuer(text("https://issuer.example.com"))
        .duration(60)
        .validator(|mut validation: Validation| {
            validation.audience = Some(vec![text("gateway")]);
            validation
        })
        .build()
        .ok()
        .unwrap();
    let shaped = provider.decode_validation(Validation::new(Algorithm::RS256));
    assert_eq!(shaped.audience, Some(vec![text("gateway")]));
    assert!(shaped.validate_exp);
    assert_eq!(shaped.algorithm, Algorithm::RS256);
}

#[test]
fn auth0_builds_only_when_complete() {
    let provider = Auth0AuthProvider::builder()
        .issuer(text("https://tenant.auth0.com"))
        .audience(text("gateway"))
        .build()
        .ok()
        .unwrap();
    assert_eq!(provider.jwks_url(), "https://tenant.auth0.com/.well-known/jwks.json");
    assert!(provider.needs_refresh());
    assert!(provider.jwk_set().is_none());

    let error = Auth0AuthProvider::builder().build().err().unwrap();
    assert_eq!(error.missing, vec![RequiredField::Issuer, RequiredField::Audience]);
    let error = Auth0AuthProvider::builder().issuer(text("i")).build().err().unwrap();
    assert_eq!(error.missing, vec![RequiredField::Audience]);
    let error = Auth0AuthProvider::builder().audience(text("a")).build().err().unwrap();
    assert_eq!(error.missing, vec![RequiredField::Issuer]);
}

#[test]
fn auth0_requires_its_audience_and_an_expiry() {
    let provider = Auth0AuthProvider::builder()
        .issuer(text("https://tenant.auth0.com"))
        .audience(text("gateway"))
        .build()
        .ok()
        .unwrap();
    let mut lax = Validation::new(Algorithm::RS384);
    lax.validate_exp = false;
    lax.audience = Some(vec![text("someone"), text("else")]);
    let shaped = provider.decode_validation(lax);
    assert_eq!(shaped.algorithm, Algorithm::RS384);
    assert!(shaped.validate_exp);
    assert_eq!(shaped.audience, Some(vec![text("gateway")]));
}

#[test]
fn auth0_keeps_the_key_set_it_fetched() {
    let mut provider = Auth0AuthProvider::builder()
        .issuer(text("https://tenant.auth0.com"))
        .audience(text("gateway"))
        .build()
        .ok()
        .unwrap();
    assert_eq!(
        provider.refresh(Err(text("dns"))),
        Err(AuthError::MissingCredentials(text("dns")))
    );
    assert!(provider.needs_refresh());
    assert_eq!(provider.refresh(Ok(keys("k1"))), Ok(&keys("k1")));
    assert!(!provider.needs_refresh());
    assert_eq!(provider.jwk_set(), Some(&keys("k1")));
    assert_eq!(
        provider.refresh(Err(text("dns"))),
        Err(AuthError::MissingCredentials(text("dns")))
    );
    assert_eq!(provider.jwk_set(), Some(&keys("k1")));
}

#[test]
fn cognito_issuer_follows_from_region_and_pool() {
    let provider = CognitoAuthProvider::builder()
        .user_pool_id(text("eu-west-1_AbCdEf"))
        .region(text("eu-west-1"))
        .build()
        .ok()
        .unwrap();
    assert_eq!(provider.issuer(), "https://cognito-idp.eu-west-1.amazonaws.com/eu-west-1_AbCdEf");
    assert_eq!(
        provider.jwks_url(),
        "https://cognito-idp.eu-west-1.amazonaws.com/eu-west-1_AbCdEf/.well-known/jwks.json"
    );
}

#[test]
fn cognito_builds_only_when_complete() {
    let error = CognitoAuthProvider::builder().build().err().unwrap();
    assert_eq!(error.missing, vec![RequiredField::UserPoolId, RequiredField::Region]);
    let error = CognitoAuthProvider::builder().region(text("r")).build().err().unwrap();
    assert_eq!(error.missing, vec![RequiredField::UserPoolId]);
    let error = CognitoAuthProvider::builder().user_pool_id(text("p")).build().err().unwrap();
    assert_eq!(error.missing, vec![RequiredField::Region]);
}

#[test]
fn cognito_requires_an_expiry_and_keeps_the_rest() {
    let provider = CognitoAuthProvider::builder()
        .user_pool_id(text("pool"))
        .region(text("region"))
        .build()
        .ok()
        .unwrap();
    let mut lax = Validation::new(Algorithm::ES256);
    lax.validate_exp = false;
    lax.audience = Some(vec![text("someone")]);
    let shaped = provider.decode_validation(lax);
    assert_eq!(shaped.algorithm, Algorithm::ES256);
    assert!(shaped.validate_exp);
    assert_eq!(shaped.audience, Some(vec![text("someone")]));
}

#[test]
fn cognito_keeps_the_key_set_it_fetched() {
    let mut provider = CognitoAuthProvider::builder()
        .user_pool_id(text("pool"))
        .region(text("region"))
        .build()
        .ok()
        .unwrap();
    assert!(provider.needs_refresh());
    assert_eq!(provider.refresh(Ok(keys("k1"))), Ok(&keys("k1")));
    assert!(!provider.needs_refresh());
    assert_eq!(provider.jwk_set(), Some(&keys("k1")));
}

#[test]
fn aws_provider_needs_a_region() {
    let provider = AwsSecretManagerProvider::builder().region(text("eu-west-1")).build().ok().unwrap();
    assert_eq!(provider.region_name(), "eu-west-1");
    let error = AwsSecretManagerProvider::builder().build().err().unwrap();
    assert_eq!(error.missing, vec![RequiredField::Region]);
    assert_eq!(error.to_string(), "Region is required");
}

#[test]
fn env_provider_is_shared() {
    let provider = EnvSecretManagerProvider::new();
    let other = provider.clone();
    assert_eq!(*provider, *other);
}

#[test]
fn secret_error_message() {
    assert_eq!(SecretManagerError::NotFound.to_string(), "Secret not found");
}
