//! The boundary to the `jsonwebtoken` crate.
//!
//! Everything in this file that has no verified body is believed, not
//! proved: the declarations of the crate's types, the names given to what its
//! functions compute, and the wrappers that call them. The rest of the
//! library is proved from what is stated here.

use jsonwebtoken::jwk::AlgorithmParameters;
use vstd::prelude::*;

verus! {

/// `jsonwebtoken::Algorithm`: the signing algorithm that a token declares.
/// The library carries it and never looks inside.
#[verifier::external_type_specification]
#[verifier::external_body]
pub struct ExAlgorithm(jsonwebtoken::Algorithm);

/// `jsonwebtoken::DecodingKey`: a key that signatures are checked against.
#[verifier::external_type_specification]
#[verifier::external_body]
pub struct ExDecodingKey(jsonwebtoken::DecodingKey);

/// `jsonwebtoken::errors::Error`: why the crate rejected an input.
#[verifier::external_type_specification]
#[verifier::external_body]
pub struct ExError(jsonwebtoken::errors::Error);

/// `jsonwebtoken::jwk::JwkSet`: a set of signing keys, as an issuer
/// publishes it.
#[verifier::external_type_specification]
#[verifier::external_body]
pub struct ExJwkSet(jsonwebtoken::jwk::JwkSet);

/// The header of a token, read without any check of the signature: the
/// algorithm that the token declares and the identifier of its key.
pub struct Header {
    pub alg: jsonwebtoken::Algorithm,
    pub kid: Option<String>,
}

/// The mathematical value of a [`Header`].
pub struct HeaderView {
    pub alg: jsonwebtoken::Algorithm,
    pub kid: Option<Seq<char>>,
}

impl DeepView for Header {
    type V = HeaderView;

    open spec fn deep_view(&self) -> HeaderView {
        HeaderView { alg: self.alg, kid: self.kid.deep_view() }
    }
}

/// The parameters of a signing key, by family. The components are base64
/// text, as the issuer publishes them.
#[derive(Clone, Debug, PartialEq, Eq)]
pub enum KeyParameters {
    /// An RSA key: modulus and exponent.
    Rsa { n: String, e: String },
    /// An elliptic-curve key: the coordinates of its point.
    EllipticCurve { x: String, y: String },
    /// A symmetric key.
    OctetKey,
    /// An octet key pair.
    OctetKeyPair,
}

/// The mathematical value of a [`KeyParameters`].
pub enum KeyParametersView {
    Rsa { n: Seq<char>, e: Seq<char> },
    EllipticCurve { x: Seq<char>, y: Seq<char> },
    OctetKey,
    OctetKeyPair,
}

impl DeepView for KeyParameters {
    type V = KeyParametersView;

    open spec fn deep_view(&self) -> KeyParametersView {
        match self {
            KeyParameters::Rsa { n, e } => KeyParametersView::Rsa { n: n@, e: e@ },
            KeyParameters::EllipticCurve { x, y } => KeyParametersView::EllipticCurve {
                x: x@,
                y: y@,
            },
            KeyParameters::OctetKey => KeyParametersView::OctetKey,
            KeyParameters::OctetKeyPair => KeyParametersView::OctetKeyPair,
        }
    }
}

/// One key of a key set: its identifier, if it has one, and its parameters.
pub struct JwkView {
    pub kid: Option<Seq<char>>,
    pub parameters: KeyParametersView,
}

/// What `jsonwebtoken::decode_header` reads from a token: the header, or
/// `None` where it rejects the token.
pub uninterp spec fn decoded_header(token: Seq<char>) -> Option<HeaderView>;

/// The keys that a `jsonwebtoken::jwk::JwkSet` holds, in its order.
pub uninterp spec fn jwk_set_keys(set: jsonwebtoken::jwk::JwkSet) -> Seq<JwkView>;

/// Whether `jsonwebtoken::DecodingKey::from_rsa_components` accepts a
/// modulus and an exponent.
pub uninterp spec fn rsa_components_accepted(n: Seq<char>, e: Seq<char>) -> bool;

/// Whether `jsonwebtoken::DecodingKey::from_ec_components` accepts the
/// coordinates of a point.
pub uninterp spec fn ec_components_accepted(x: Seq<char>, y: Seq<char>) -> bool;

/// The parameters of the first key of `keys` whose identifier is `kid`.
pub open spec fn found_key(keys: Seq<JwkView>, kid: Seq<char>) -> Option<KeyParametersView>
    decreases keys.len(),
{
    if keys.len() == 0 {
        None
    } else if keys[0].kid == Some(kid) {
        Some(keys[0].parameters)
    } else {
        found_key(keys.skip(1), kid)
    }
}

/// Calls `jsonwebtoken::decode_header`, which reads the header of a token
/// and checks nothing else. The contract claims that the outcome is the
/// one named [`decoded_header`]: the same token always gives the same
/// header, or is always rejected.
#[verifier::external_body]
pub(crate) fn decode_header(token: &str) -> (r: Result<Header, jsonwebtoken::errors::Error>)
    ensures
        match r {
            Ok(header) => decoded_header(token@) == Some(header.deep_view()),
            Err(_) => decoded_header(token@) is None,
        },
{
    jsonwebtoken::decode_header(token).map(|header| Header { alg: header.alg, kid: header.kid })
}

/// Calls `jsonwebtoken::jwk::JwkSet::find`, which returns the first key of
/// the set whose identifier is present and equal to `kid`, and hands out the
/// parameters of that key. The contract claims exactly that, over the keys
/// named [`jwk_set_keys`].
#[verifier::external_body]
pub(crate) fn find_key(set: &jsonwebtoken::jwk::JwkSet, kid: &str) -> (r: Option<KeyParameters>)
    ensures
        r.deep_view() == found_key(jwk_set_keys(*set), kid@),
{
    let jwk = set.find(kid)?;
    Some(
        match &jwk.algorithm {
            AlgorithmParameters::RSA(key) => KeyParameters::Rsa {
                n: key.n.clone(),
                e: key.e.clone(),
            },
            AlgorithmParameters::EllipticCurve(key) => KeyParameters::EllipticCurve {
                x: key.x.clone(),
                y: key.y.clone(),
            },
            AlgorithmParameters::OctetKey(_) => KeyParameters::OctetKey,
            AlgorithmParameters::OctetKeyPair(_) => KeyParameters::OctetKeyPair,
        },
    )
}

/// Calls `jsonwebtoken::DecodingKey::from_rsa_components`, which decodes the
/// two components from base64 and fails where one is not base64. The
/// contract claims that success depends on the two components alone.
#[verifier::external_body]
pub(crate) fn rsa_decoding_key(n: &str, e: &str) -> (r: Result<
    jsonwebtoken::DecodingKey,
    jsonwebtoken::errors::Error,
>)
    ensures
        r is Ok <==> rsa_components_accepted(n@, e@),
{
    jsonwebtoken::DecodingKey::from_rsa_components(n, e)
}

/// Calls `jsonwebtoken::DecodingKey::from_ec_components`, which decodes the
/// two coordinates from base64 and fails where one is not base64. The
/// contract claims that success depends on the two coordinates alone.
#[verifier::external_body]
pub(crate) fn ec_decoding_key(x: &str, y: &str) -> (r: Result<
    jsonwebtoken::DecodingKey,
    jsonwebtoken::errors::Error,
>)
    ensures
        r is Ok <==> ec_components_accepted(x@, y@),
{
    jsonwebtoken::DecodingKey::from_ec_components(x, y)
}

} // verus!
