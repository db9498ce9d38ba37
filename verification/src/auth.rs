//! Verification of bearer tokens against the signing keys of an issuer.
//!
//! A token goes through these steps, and fails at the first that rejects it:
//!
//! 1. its header is decoded ([`decode_token_header`]);
//! 2. the caller obtains the current key set from its provider;
//! 3. the key that the header names is located in the set and turned into a
//!    decoding key ([`select_key`]);
//! 4. the caller checks signature and claims with that key and with the
//!    validation that the header asks for ([`validation_of`]), shaped by the
//!    provider, and the outcome is concluded ([`conclude`]).
//!
//! The steps that fetch and that check are the caller's: they need the
//! network and the clock.

pub mod auth0_auth_provider;
pub mod cached_jwk_set;
pub mod cognito_auth_provider;
pub mod jwt;

use crate::auth::jwt::{
    decode_header, decoded_header, ec_components_accepted, ec_decoding_key, find_key, found_key,
    jwk_set_keys, rsa_components_accepted, rsa_decoding_key, Header, KeyParameters,
    KeyParametersView,
};
use vstd::prelude::*;

verus! {

/// Why a bearer token was not accepted.
#[derive(Clone, Debug, PartialEq, Eq)]
pub enum AuthError {
    /// The token is malformed, unverifiable, expired or meant for another
    /// audience. A fault of the client.
    InvalidToken(String),
    /// The key set could not be fetched. A fault of the service.
    MissingCredentials(String),
    /// The key that the token names is of a family that is not supported. A
    /// fault of the service.
    UnsupportedAlgorithm,
}

/// The mathematical value of an [`AuthError`].
pub enum AuthErrorView {
    InvalidToken(Seq<char>),
    MissingCredentials(Seq<char>),
    UnsupportedAlgorithm,
}

impl DeepView for AuthError {
    type V = AuthErrorView;

    open spec fn deep_view(&self) -> AuthErrorView {
        match self {
            AuthError::InvalidToken(reason) => AuthErrorView::InvalidToken(reason@),
            AuthError::MissingCredentials(reason) => AuthErrorView::MissingCredentials(reason@),
            AuthError::UnsupportedAlgorithm => AuthErrorView::UnsupportedAlgorithm,
        }
    }
}

/// The error that a result holds, if it holds one.
pub open spec fn failure<T>(r: Result<T, AuthError>) -> Option<AuthErrorView> {
    match r {
        Ok(_) => None,
        Err(error) => Some(error.deep_view()),
    }
}

/// The status of the response that reports an error: 401 for a fault of the
/// client, 500 for a fault of the service.
pub open spec fn status_of(error: AuthErrorView) -> u16 {
    match error {
        AuthErrorView::InvalidToken(_) => 401,
        AuthErrorView::MissingCredentials(_) => 500,
        AuthErrorView::UnsupportedAlgorithm => 500,
    }
}

/// The message of an error.
pub open spec fn message_of(error: AuthErrorView) -> Seq<char> {
    match error {
        AuthErrorView::InvalidToken(reason) => "Invalid token: "@ + reason,
        AuthErrorView::MissingCredentials(reason) => "Missing credentials: "@ + reason,
        AuthErrorView::UnsupportedAlgorithm => "Unsupported algorithm"@,
    }
}

impl AuthError {
    /// The status of the response that reports this error.
    pub fn status(&self) -> (code: u16)
        ensures
            code == status_of(self.deep_view()),
    {
        match self {
            AuthError::InvalidToken(_) => 401,
            AuthError::MissingCredentials(_) | AuthError::UnsupportedAlgorithm => 500,
        }
    }

    /// The message of this error, as the response body carries it.
    pub fn to_string(&self) -> (message: String)
        ensures
            message@ == message_of(self.deep_view()),
    {
        match self {
            AuthError::InvalidToken(reason) => "Invalid token: ".to_string().concat(
                reason.as_str(),
            ),
            AuthError::MissingCredentials(reason) => "Missing credentials: ".to_string().concat(
                reason.as_str(),
            ),
            AuthError::UnsupportedAlgorithm => "Unsupported algorithm".to_string(),
        }
    }
}

/// The claims of a token that this library looks at.
#[derive(Clone, Debug, PartialEq, Eq)]
pub struct Claims {
    /// The subject of the token.
    pub sub: String,
    /// The expiry of the token, in seconds since the epoch.
    pub exp: usize,
}

/// The mathematical value of a [`Claims`].
pub struct ClaimsView {
    pub sub: Seq<char>,
    pub exp: usize,
}

impl DeepView for Claims {
    type V = ClaimsView;

    open spec fn deep_view(&self) -> ClaimsView {
        ClaimsView { sub: self.sub@, exp: self.exp }
    }
}

/// How the claims of a token are checked.
pub struct Validation {
    /// The algorithm that the signature must be made with.
    pub algorithm: jsonwebtoken::Algorithm,
    /// Whether a token past its expiry is rejected.
    pub validate_exp: bool,
    /// The audiences of which a token that names an audience must name
    /// one. With `None`, a token that names an audience is rejected.
    pub audience: Option<Vec<String>>,
}

/// The mathematical value of a [`Validation`].
pub struct ValidationView {
    pub algorithm: jsonwebtoken::Algorithm,
    pub validate_exp: bool,
    pub audience: Option<Seq<Seq<char>>>,
}

impl DeepView for Validation {
    type V = ValidationView;

    open spec fn deep_view(&self) -> ValidationView {
        ValidationView {
            algorithm: self.algorithm,
            validate_exp: self.validate_exp,
            audience: self.audience.deep_view(),
        }
    }
}

impl Validation {
    /// The validation every provider starts from: the declared algorithm,
    /// a mandatory expiry, and no audience.
    pub fn new(algorithm: jsonwebtoken::Algorithm) -> (validation: Validation)
        ensures
            validation.deep_view() == (ValidationView {
                algorithm,
                validate_exp: true,
                audience: None,
            }),
    {
        Validation { algorithm, validate_exp: true, audience: None }
    }
}

/// The validation that the check of a token starts from: the algorithm is
/// the one that the header of the token declares, and the expiry is
/// mandatory. The provider shapes it further.
pub fn validation_of(header: &Header) -> (validation: Validation)
    ensures
        validation.deep_view() == (ValidationView {
            algorithm: header.alg,
            validate_exp: true,
            audience: None,
        }),
{
    Validation::new(header.alg)
}

/// The character that separates the sections of a token.
pub const SECTION_SEPARATOR: char = '.';

/// Whether a token has at least two sections, that is, holds a separator.
pub open spec fn has_two_sections(token: Seq<char>) -> bool {
    token.contains(SECTION_SEPARATOR)
}

/// Whether a token has at least two sections.
fn two_sections(token: &str) -> (r: bool)
    ensures
        r == has_two_sections(token@),
{
    let mut found = false;
    for c in it: token.chars()
        invariant
            it.seq() == token@,
            found == token@.take(it.index() as int).contains(SECTION_SEPARATOR),
    {
        proof {
            let upto = token@.take(it.index() + 1);
            assert(upto.drop_last() =~= token@.take(it.index() as int));
            assert(upto.last() == c);
        }
        if c == SECTION_SEPARATOR {
            found = true;
        }
    }
    proof {
        assert(token@.take(token@.len() as int) =~= token@);
    }
    found
}

/// Whether the header of a token is accepted: the token has at least two
/// sections, and its header decodes. A token without a separator is rejected
/// before its header is looked at.
pub open spec fn header_accepted(token: Seq<char>) -> bool {
    has_two_sections(token) && decoded_header(token) is Some
}

/// Decodes the header of a token, without any check of its signature.
///
/// Succeeds exactly on a token that has at least two sections and a header
/// that decodes; every other token is invalid.
pub fn decode_token_header(token: &str) -> (r: Result<Header, AuthError>)
    ensures
        r is Ok <==> header_accepted(token@),
        r matches Ok(header) ==> decoded_header(token@) == Some(header.deep_view()),
        r matches Err(error) ==> error is InvalidToken,
        !has_two_sections(token@) ==> failure(r) == Some(
            AuthErrorView::InvalidToken("invalid format"@),
        ),
{
    if !two_sections(token) {
        return Err(AuthError::InvalidToken("invalid format".to_string()));
    }
    match decode_header(token) {
        Ok(header) => Ok(header),
        Err(error) => Err(AuthError::InvalidToken(error.to_string())),
    }
}

/// The kind of outcome of locating the key of a token in a key set.
#[derive(Clone, Copy, Debug, PartialEq, Eq, Structural)]
pub enum KeySelection {
    /// The key was found and a decoding key was built from it.
    Selected,
    /// The token names no key, names one that the set does not hold, or
    /// names one whose components do not decode.
    InvalidToken,
    /// The key is of a family other than RSA and elliptic curve.
    UnsupportedAlgorithm,
}

/// The outcome that the parameters of a located key lead to.
pub open spec fn selection_of_parameters(parameters: KeyParametersView) -> KeySelection {
    match parameters {
        KeyParametersView::Rsa { n, e } => if rsa_components_accepted(n, e) {
            KeySelection::Selected
        } else {
            KeySelection::InvalidToken
        },
        KeyParametersView::EllipticCurve { x, y } => if ec_components_accepted(x, y) {
            KeySelection::Selected
        } else {
            KeySelection::InvalidToken
        },
        KeyParametersView::OctetKey => KeySelection::UnsupportedAlgorithm,
        KeyParametersView::OctetKeyPair => KeySelection::UnsupportedAlgorithm,
    }
}

/// The outcome of locating the key that a header names among `keys`.
pub open spec fn selection(kid: Option<Seq<char>>, keys: Seq<jwt::JwkView>) -> KeySelection {
    match kid {
        None => KeySelection::InvalidToken,
        Some(kid) => match found_key(keys, kid) {
            None => KeySelection::InvalidToken,
            Some(parameters) => selection_of_parameters(parameters),
        },
    }
}

/// The kind of an error, as a key selection.
pub open spec fn selection_of_error(error: AuthErrorView) -> KeySelection {
    match error {
        AuthErrorView::UnsupportedAlgorithm => KeySelection::UnsupportedAlgorithm,
        _ => KeySelection::InvalidToken,
    }
}

/// Builds the decoding key of a located key.
///
/// Succeeds on an RSA or elliptic-curve key whose components decode. A key
/// of another family is an unsupported algorithm, and components that do
/// not decode make the token invalid.
pub fn decoding_key(parameters: &KeyParameters) -> (r: Result<
    jsonwebtoken::DecodingKey,
    AuthError,
>)
    ensures
        match r {
            Ok(_) => selection_of_parameters(parameters.deep_view()) == KeySelection::Selected,
            Err(error) => {
                &&& selection_of_parameters(parameters.deep_view()) != KeySelection::Selected
                &&& selection_of_parameters(parameters.deep_view()) == selection_of_error(
                    error.deep_view(),
                )
                &&& !(error is MissingCredentials)
            },
        },
{
    match parameters {
        KeyParameters::Rsa { n, e } => match rsa_decoding_key(n.as_str(), e.as_str()) {
            Ok(key) => Ok(key),
            Err(error) => Err(AuthError::InvalidToken(error.to_string())),
        },
        KeyParameters::EllipticCurve { x, y } => match ec_decoding_key(x.as_str(), y.as_str()) {
            Ok(key) => Ok(key),
            Err(error) => Err(AuthError::InvalidToken(error.to_string())),
        },
        KeyParameters::OctetKey => Err(AuthError::UnsupportedAlgorithm),
        KeyParameters::OctetKeyPair => Err(AuthError::UnsupportedAlgorithm),
    }
}

/// Locates the key that a header names in a key set, and builds the
/// decoding key from it.
///
/// The token is invalid where the header names no key, where no key of the
/// set has the identifier that it names, and where the components of the key
/// do not decode. A key that is neither RSA nor elliptic curve is an
/// unsupported algorithm. Every other key is selected.
pub fn select_key(header: &Header, jwk_set: &jsonwebtoken::jwk::JwkSet) -> (r: Result<
    jsonwebtoken::DecodingKey,
    AuthError,
>)
    ensures
        match r {
            Ok(_) => selection(header.deep_view().kid, jwk_set_keys(*jwk_set))
                == KeySelection::Selected,
            Err(error) => {
                &&& selection(header.deep_view().kid, jwk_set_keys(*jwk_set))
                    != KeySelection::Selected
                &&& selection(header.deep_view().kid, jwk_set_keys(*jwk_set))
                    == selection_of_error(error.deep_view())
                &&& !(error is MissingCredentials)
            },
        },
        header.kid is None ==> failure(r) == Some(
            AuthErrorView::InvalidToken("missing `kid` header field"@),
        ),
        header.kid is Some && found_key(jwk_set_keys(*jwk_set), header.kid->Some_0@) is None
            ==> failure(r) == Some(
            AuthErrorView::InvalidToken("no matching JWK found for the given kid"@),
        ),
{
    let kid = match &header.kid {
        Some(kid) => kid,
        None => {
            return Err(AuthError::InvalidToken("missing `kid` header field".to_string()));
        },
    };
    let parameters = match find_key(jwk_set, kid.as_str()) {
        Some(parameters) => parameters,
        None => {
            return Err(
                AuthError::InvalidToken("no matching JWK found for the given kid".to_string()),
            );
        },
    };
    decoding_key(&parameters)
}

/// Concludes a verification from the outcome of the check of signature and
/// claims: the claims of a token that passed, or an invalid token with the
/// reason of the check that it failed.
pub fn conclude(checked: Result<Claims, String>) -> (r: Result<Claims, AuthError>)
    ensures
        match checked {
            Ok(claims) => r == Ok::<Claims, AuthError>(claims),
            Err(reason) => r == Err::<Claims, AuthError>(AuthError::InvalidToken(reason)),
        },
{
    match checked {
        Ok(claims) => Ok(claims),
        Err(reason) => Err(AuthError::InvalidToken(reason)),
    }
}

/// The path of the key set below the address of an issuer.
pub const JWKS_PATH: &'static str = "/.well-known/jwks.json";

/// The address at which an issuer publishes its key set.
pub open spec fn jwks_endpoint(issuer: Seq<char>) -> Seq<char> {
    issuer + JWKS_PATH@
}

/// The address at which the issuer `issuer` publishes its key set.
pub fn jwks_url(issuer: &str) -> (url: String)
    ensures
        url@ == jwks_endpoint(issuer@),
{
    issuer.to_string().concat(JWKS_PATH)
}

/// A token that names a key which no key of the set carries is invalid.
pub proof fn lemma_unknown_kid_is_invalid(kid: Seq<char>, keys: Seq<jwt::JwkView>)
    requires
        forall|i: int| 0 <= i < keys.len() ==> (#[trigger] keys[i]).kid != Some(kid),
    ensures
        found_key(keys, kid) is None,
        selection(Some(kid), keys) == KeySelection::InvalidToken,
    decreases keys.len(),
{
    if keys.len() > 0 {
        lemma_unknown_kid_is_invalid(kid, keys.skip(1));
    }
}

/// The key of a token is the first key of the set that carries the
/// identifier which the token names.
pub proof fn lemma_first_match_is_found(kid: Seq<char>, keys: Seq<jwt::JwkView>, position: int)
    requires
        0 <= position < keys.len(),
        keys[position].kid == Some(kid),
        forall|i: int| 0 <= i < position ==> (#[trigger] keys[i]).kid != Some(kid),
    ensures
        found_key(keys, kid) == Some(keys[position].parameters),
    decreases keys.len(),
{
    if position > 0 {
        lemma_first_match_is_found(kid, keys.skip(1), position - 1);
    }
}

/// A token whose key is of a family other than RSA and elliptic curve fails
/// with an unsupported algorithm, which is a fault of the service; every
/// other failure to select a key makes the token invalid, which is a fault
/// of the client.
pub proof fn lemma_other_family_is_unsupported(kid: Seq<char>, keys: Seq<jwt::JwkView>)
    ensures
        selection(Some(kid), keys) == KeySelection::UnsupportedAlgorithm <==> (found_key(keys, kid)
            == Some(KeyParametersView::OctetKey) || found_key(keys, kid) == Some(
            KeyParametersView::OctetKeyPair,
        )),
        status_of(AuthErrorView::UnsupportedAlgorithm) == 500,
        forall|reason: Seq<char>| status_of(AuthErrorView::InvalidToken(reason)) == 401,
{
}

} // verus!
