//! What is taken on trust from `jsonwebtoken` and `serde_json`: reading
//! a token's header, building a key, checking a signed token, and
//! reading the claims.

use vstd::prelude::*;

verus! {

/// The way in which a token is signed.
#[derive(Clone, Copy, Debug, PartialEq, Eq, Structural)]
pub enum SigningAlgorithm {
    /// An RSA signature over a SHA-256 digest.
    Rs256,
}

#[verifier::external_type_specification]
#[verifier::external_body]
pub struct ExClaims(serde_json::Value);

#[verifier::external_type_specification]
#[verifier::external_body]
pub struct ExDecodingKey(jsonwebtoken::DecodingKey);

#[verifier::external_type_specification]
#[verifier::external_body]
pub struct ExTokenError(jsonwebtoken::errors::Error);

/// What the header of a token says of its key: `None` where the header
/// cannot be read, `Some(None)` where it can and names no key, and else
/// the identifier of the key.
pub uninterp spec fn declared_key_id(token: Seq<char>) -> Option<Option<Seq<char>>>;

/// Whether a modulus and an exponent, as written in a key set, can be
/// read as the two numbers of an RSA public key.
pub uninterp spec fn rsa_components_readable(modulus: Seq<char>, exponent: Seq<char>) -> bool;

/// Whether the signature of a token is that of the RSA key of the two
/// numbers given: what `jsonwebtoken::crypto::verify` finds for the
/// last part of the token over the parts before it, with the key that
/// is built of the two numbers and with the algorithm. It is false
/// where the token has not its three parts, where its header names
/// another algorithm, and where the numbers cannot be read.
pub uninterp spec fn signature_verifies(
    token: Seq<char>,
    modulus: Seq<char>,
    exponent: Seq<char>,
    algorithm: SigningAlgorithm,
) -> bool;

/// The members of a claim set whose values are text, by name.
pub uninterp spec fn text_claims(claims: serde_json::Value) -> Map<Seq<char>, Seq<char>>;

/// The members of a claim set whose values are lists, by name: for
/// each item of the list its text, where the item is text.
pub uninterp spec fn listed_claims(claims: serde_json::Value) -> Map<
    Seq<char>,
    Seq<Option<Seq<char>>>,
>;

/// `Value::clone`: the copy is the same value.
pub assume_specification[ <serde_json::Value as Clone>::clone ](v: &serde_json::Value) -> (r:
    serde_json::Value)
    ensures
        r == *v,
;

/// `jsonwebtoken::decode_header`, keeping the `kid` field of the header
/// it returns. The header is read from the token's text alone, without
/// any check of the signature; the result is called `declared_key_id`.
#[verifier::external_body]
pub(crate) fn header_key_id(token: &str) -> (r: Option<Option<String>>)
    ensures
        r.deep_view() == declared_key_id(token@),
{
    jsonwebtoken::decode_header(token).ok().map(|h| h.kid)
}

/// `DecodingKey::from_rsa_components`. It succeeds or fails on the two
/// texts alone; `rsa_components_readable` says which.
#[verifier::external_body]
pub(crate) fn rsa_key(modulus: &str, exponent: &str) -> (r: Result<
    jsonwebtoken::DecodingKey,
    jsonwebtoken::errors::Error,
>)
    ensures
        (r is Ok) == rsa_components_readable(modulus@, exponent@),
{
    jsonwebtoken::DecodingKey::from_rsa_components(modulus, exponent)
}

/// All that the check of a signed token is made with: the token, the
/// key by its two numbers, the algorithm, and the issuer and the
/// audience that are accepted.
pub struct TokenCheck {
    token: String,
    modulus: String,
    exponent: String,
    key: jsonwebtoken::DecodingKey,
    algorithm: SigningAlgorithm,
    issuer: String,
    audience: String,
}

/// A check of a signed token, with its texts as characters.
pub struct TokenCheckModel {
    pub token: Seq<char>,
    pub modulus: Seq<char>,
    pub exponent: Seq<char>,
    pub algorithm: SigningAlgorithm,
    pub issuer: Seq<char>,
    pub audience: Seq<char>,
}

impl View for TokenCheck {
    type V = TokenCheckModel;

    closed spec fn view(&self) -> TokenCheckModel {
        TokenCheckModel {
            token: self.token@,
            modulus: self.modulus@,
            exponent: self.exponent@,
            algorithm: self.algorithm,
            issuer: self.issuer@,
            audience: self.audience@,
        }
    }
}

impl TokenCheck {
    /// The check of `token` with the key of the two numbers given, if
    /// they can be read. The key is built here, from these two texts
    /// and from nothing else.
    pub fn new(
        token: &str,
        modulus: &str,
        exponent: &str,
        algorithm: SigningAlgorithm,
        issuer: &str,
        audience: &str,
    ) -> (r: Option<TokenCheck>)
        ensures
            (r is Some) == rsa_components_readable(modulus@, exponent@),
            r matches Some(check) ==> check@ == (TokenCheckModel {
                token: token@,
                modulus: modulus@,
                exponent: exponent@,
                algorithm,
                issuer: issuer@,
                audience: audience@,
            }),
    {
        match rsa_key(modulus, exponent) {
            Ok(key) => Some(
                TokenCheck {
                    token: token.to_owned(),
                    modulus: modulus.to_owned(),
                    exponent: exponent.to_owned(),
                    key,
                    algorithm,
                    issuer: issuer.to_owned(),
                    audience: audience.to_owned(),
                },
            ),
            Err(_) => None,
        }
    }

    /// The issuer that the check accepts.
    pub fn issuer(&self) -> (r: &str)
        ensures
            r@ == self@.issuer,
    {
        self.issuer.as_str()
    }

    /// The audience that the check accepts.
    pub fn audience(&self) -> (r: &str)
        ensures
            r@ == self@.audience,
    {
        self.audience.as_str()
    }
}

/// `jsonwebtoken::decode` of the token of the check with its key and
/// with a `Validation` for its algorithm that accepts its issuer and
/// its audience, returning the claims of the `TokenData`. The outcome
/// depends on the clock as well, so only this is claimed of it: it
/// gives claims only where the signature has been found to be the
/// key's, which `decode` checks before anything else.
#[verifier::external_body]
pub(crate) fn decode_signed(check: &TokenCheck) -> (r: Result<
    serde_json::Value,
    jsonwebtoken::errors::Error,
>)
    ensures
        r is Ok ==> signature_verifies(
            check@.token,
            check@.modulus,
            check@.exponent,
            check@.algorithm,
        ),
{
    let mut validation = jsonwebtoken::Validation::new(match check.algorithm {
        SigningAlgorithm::Rs256 => jsonwebtoken::Algorithm::RS256,
    });
    validation.set_issuer(&[check.issuer.as_str()]);
    validation.set_audience(&[check.audience.as_str()]);
    jsonwebtoken::decode::<serde_json::Value>(check.token.as_str(), &check.key, &validation)
        .map(|data| data.claims)
}

/// `Value::get` with a name, then `Value::as_str`: the member of that
/// name where the claim set is an object that has it and its value is
/// text.
#[verifier::external_body]
pub(crate) fn text_claim(claims: &serde_json::Value, name: &str) -> (r: Option<String>)
    ensures
        (r is Some) == text_claims(*claims).contains_key(name@),
        r matches Some(t) ==> text_claims(*claims)[name@] == t@,
{
    claims.get(name).and_then(|v| v.as_str()).map(|t| t.to_string())
}

/// `Value::get` with a name, then `Value::as_array`: the items of the
/// member of that name where the claim set is an object that has it
/// and its value is a list, each item as `Value::as_str` gives it.
#[verifier::external_body]
pub(crate) fn listed_claim(claims: &serde_json::Value, name: &str) -> (r: Option<
    Vec<Option<String>>,
>)
    ensures
        (r is Some) == listed_claims(*claims).contains_key(name@),
        r matches Some(items) ==> listed_claims(*claims)[name@] == items.deep_view(),
{
    let items = claims.get(name).and_then(|v| v.as_array())?;
    Some(items.iter().map(|item| item.as_str().map(|t| t.to_string())).collect())
}

} // verus!
