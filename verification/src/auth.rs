//! Verification of bearer tokens against a cached set of signing keys.

use crate::jwt::{
    declared_key_id, decode_signed, header_key_id, listed_claim, listed_claims,
    rsa_components_readable, signature_verifies, text_claim, text_claims, SigningAlgorithm,
    TokenCheck, TokenCheckModel,
};
use crate::keyed::{distinct_keys, first_of_each, has_key, index_of, lemma_first_of_each, table};
use crate::text::{
    chars_of, fold_char, folded, join, starts_with_ignoring_case, strip_trailing, trim,
    trim_end_slashes, trim_range,
};
use vstd::prelude::*;
use vstd::string::StrSliceExecFns;

verus! {

/// How long a fetched key set may answer lookups: twelve hours, in seconds.
pub const MAX_KEY_AGE: u64 = 43_200;

/// A public signing key of the issuer. Its algorithm is always RS256.
#[derive(Debug, PartialEq, Eq)]
pub struct Jwk {
    /// The identifier by which tokens name the key.
    pub kid: String,
    /// The modulus, base64url-encoded.
    pub n: String,
    /// The exponent, base64url-encoded.
    pub e: String,
}

/// A signing key, with its texts as characters.
pub struct JwkModel {
    pub kid: Seq<char>,
    pub n: Seq<char>,
    pub e: Seq<char>,
}

impl View for Jwk {
    type V = JwkModel;

    open spec fn view(&self) -> JwkModel {
        JwkModel { kid: self.kid@, n: self.n@, e: self.e@ }
    }
}

impl DeepView for Jwk {
    type V = JwkModel;

    open spec fn deep_view(&self) -> JwkModel {
        self@
    }
}

impl Clone for Jwk {
    fn clone(&self) -> (r: Self)
        ensures
            r@ == self@,
    {
        Jwk { kid: self.kid.clone(), n: self.n.clone(), e: self.e.clone() }
    }
}

/// The key of a signing key in a key set: its identifier.
pub open spec fn by_kid() -> spec_fn(JwkModel) -> Seq<char> {
    |k: JwkModel| k.kid
}

/// A key set and the time it was fetched at, in seconds on a clock that
/// never runs backwards.
pub struct KeySet {
    pub keys: Seq<JwkModel>,
    pub fetched_at: Option<u64>,
}

impl KeySet {
    /// No identifier occurs twice, and a time of fetching is recorded
    /// exactly where there are keys.
    pub open spec fn wf(self) -> bool {
        &&& distinct_keys(self.keys, by_kid())
        &&& (self.fetched_at is None <==> self.keys.len() == 0)
    }

    /// The cache before any fetch.
    pub open spec fn empty() -> KeySet {
        KeySet { keys: Seq::empty(), fetched_at: None }
    }

    /// The cache after a fetch at `now` that brought `keys`: the first
    /// key of each identifier, and the time only if there is a key.
    pub open spec fn fetched(keys: Seq<JwkModel>, now: u64) -> KeySet {
        KeySet {
            keys: first_of_each(keys, by_kid()),
            fetched_at: if keys.len() > 0 {
                Some(now)
            } else {
                None
            },
        }
    }

    /// The key with the identifier `kid`, if the set holds one.
    pub open spec fn key(self, kid: Seq<char>) -> Option<JwkModel> {
        if has_key(self.keys, by_kid(), kid) {
            Some(table(self.keys, by_kid())[kid])
        } else {
            None
        }
    }

    /// Whether the set was fetched less than twelve hours before `now`.
    /// A clock that reads less than at the fetch counts as no time gone.
    pub open spec fn fresh_at(self, now: u64) -> bool {
        match self.fetched_at {
            Some(at) => now < at || now - at < MAX_KEY_AGE,
            None => false,
        }
    }

    /// The key that may answer a lookup of `kid` at `now` without a
    /// fetch: the set must be fresh and hold the key.
    pub open spec fn usable(self, kid: Seq<char>, now: u64) -> Option<JwkModel> {
        if self.fresh_at(now) {
            self.key(kid)
        } else {
            None
        }
    }
}

/// The cached key set of the issuer.
pub struct CachedJwks {
    keys: Vec<Jwk>,
    fetched_at: Option<u64>,
}

impl View for CachedJwks {
    type V = KeySet;

    closed spec fn view(&self) -> KeySet {
        KeySet { keys: self.keys.deep_view(), fetched_at: self.fetched_at }
    }
}

impl CachedJwks {
    #[verifier::type_invariant]
    spec fn valid(self) -> bool {
        self@.wf()
    }

    /// A cache that holds nothing yet.
    pub fn new() -> (r: Self)
        ensures
            r@ == KeySet::empty(),
            r@.wf(),
    {
        let r = CachedJwks { keys: Vec::new(), fetched_at: None };
        assert(r@.keys =~= Seq::empty());
        r
    }

    fn position(keys: &Vec<Jwk>, kid: &String) -> (r: Option<usize>)
        ensures
            r matches Some(i) ==> i < keys.len() && keys[i as int].kid@ == kid@,
            r is None ==> !has_key(keys.deep_view(), by_kid(), kid@),
    {
        let mut i: usize = 0;
        while i < keys.len()
            invariant
                i <= keys.len(),
                forall|j: int| 0 <= j < i ==> keys[j].kid@ != kid@,
            decreases keys.len() - i,
        {
            if keys[i].kid == *kid {
                return Some(i);
            }
            i += 1;
        }
        proof {
            let s = keys.deep_view();
            if has_key(s, by_kid(), kid@) {
                let j = index_of(s, by_kid(), kid@);
                assert(by_kid()(s[j]) == kid@);
                assert(keys[j].kid@ == kid@);
            }
        }
        None
    }

    /// Replaces the whole cache by what a fetch at `now` brought.
    pub fn replace(&mut self, keys: Vec<Jwk>, now: u64)
        ensures
            final(self)@ == KeySet::fetched(keys.deep_view(), now),
            final(self)@.wf(),
    {
        let mut kept: Vec<Jwk> = Vec::new();
        let mut i: usize = 0;
        assert(keys.deep_view().take(0) =~= Seq::empty());
        while i < keys.len()
            invariant
                i <= keys.len(),
                kept.deep_view() == first_of_each(keys.deep_view().take(i as int), by_kid()),
            decreases keys.len() - i,
        {
            let found = Self::position(&kept, &keys[i].kid);
            proof {
                let s = keys.deep_view();
                assert(s.take(i + 1).drop_last() =~= s.take(i as int));
                assert(s.take(i + 1).last() == keys[i as int]@);
                if found is Some {
                    let j = found->0 as int;
                    assert(by_kid()(kept.deep_view()[j]) == keys[i as int].kid@);
                }
            }
            if found.is_none() {
                kept.push(keys[i].clone());
                assert(kept.deep_view() =~= first_of_each(keys.deep_view().take(i + 1), by_kid()));
            }
            i += 1;
        }
        let fetched_at = if keys.len() > 0 {
            Some(now)
        } else {
            None
        };
        proof {
            assert(keys.deep_view().take(keys.len() as int) =~= keys.deep_view());
            lemma_first_of_each(keys.deep_view(), by_kid());
        }
        *self = CachedJwks { keys: kept, fetched_at };
    }

    /// The key with this identifier, fresh or not.
    pub fn find(&self, kid: &str) -> (r: Option<Jwk>)
        ensures
            r.deep_view() == self@.key(kid@),
    {
        proof {
            use_type_invariant(self);
        }
        let wanted = kid.to_owned();
        match Self::position(&self.keys, &wanted) {
            Some(i) => {
                proof {
                    crate::keyed::lemma_table_at(self.keys.deep_view(), by_kid(), i as int);
                    assert(by_kid()(self.keys.deep_view()[i as int]) == kid@);
                }
                Some(self.keys[i].clone())
            },
            None => None,
        }
    }

    /// Whether the cache was fetched less than twelve hours before `now`.
    pub fn is_fresh(&self, now: u64) -> (r: bool)
        ensures
            r == self@.fresh_at(now),
    {
        match self.fetched_at {
            Some(at) => now < at || now - at < MAX_KEY_AGE,
            None => false,
        }
    }

    /// The key that may answer a lookup at `now` without a fetch.
    pub fn lookup(&self, kid: &str, now: u64) -> (r: Option<Jwk>)
        ensures
            r.deep_view() == self@.usable(kid@, now),
    {
        if self.is_fresh(now) {
            self.find(kid)
        } else {
            None
        }
    }
}

/// The value of the `Authorization` header of a request.
#[derive(Clone, Copy, Debug)]
pub enum Authorization<'a> {
    /// The request has no such header.
    Absent,
    /// The header is there, and its value is no text.
    Unreadable,
    /// The text of the header.
    Value(&'a str),
}

/// What is wrong where a request brings no credential.
#[derive(Clone, Copy, Debug, PartialEq, Eq, Structural)]
pub enum CredentialFault {
    /// There is no `Authorization` header, or it holds no bearer token.
    Absent,
    /// The value of the `Authorization` header is no text.
    Unreadable,
}

/// What is wrong with a token that cannot be traced to a key.
#[derive(Clone, Copy, Debug, PartialEq, Eq, Structural)]
pub enum TokenFault {
    /// The header of the token cannot be read.
    Header,
    /// The header of the token names no key.
    KeyId,
}

/// Why a request was turned away.
#[derive(Clone, Copy, Debug, PartialEq, Eq, Structural)]
pub enum AuthError {
    /// No usable `Authorization: Bearer` header.
    MissingCredential(CredentialFault),
    /// The token's header cannot be read, or names no key.
    MalformedToken(TokenFault),
    /// The issuer has no key of the name the token gives.
    UnknownSigningKey,
    /// The issuer's key cannot be read as an RSA public key.
    InvalidKeyMaterial,
    /// The signature, the issuer, the audience or the validity period is wrong.
    InvalidOrExpiredToken,
    /// The token names no subject.
    InvalidSubject,
}

impl AuthError {
    /// The fixed sentence that the caller is told.
    pub open spec fn reason_text(self) -> Seq<char> {
        match self {
            AuthError::MissingCredential(CredentialFault::Absent) => "Authentication required"@,
            AuthError::MissingCredential(CredentialFault::Unreadable) => "Invalid Authorization header"@,
            AuthError::MalformedToken(TokenFault::Header) => "Invalid token header"@,
            AuthError::MalformedToken(TokenFault::KeyId) => "Invalid token kid"@,
            AuthError::UnknownSigningKey => "Unable to fetch signing key"@,
            AuthError::InvalidKeyMaterial => "Invalid signing key"@,
            AuthError::InvalidOrExpiredToken => "Invalid or expired token"@,
            AuthError::InvalidSubject => "Invalid token subject"@,
        }
    }

    /// The fixed sentence that the caller is told.
    pub fn reason(&self) -> (r: &'static str)
        ensures
            r@ == self.reason_text(),
    {
        match self {
            AuthError::MissingCredential(CredentialFault::Absent) => "Authentication required",
            AuthError::MissingCredential(CredentialFault::Unreadable) => {
                "Invalid Authorization header"
            },
            AuthError::MalformedToken(TokenFault::Header) => "Invalid token header",
            AuthError::MalformedToken(TokenFault::KeyId) => "Invalid token kid",
            AuthError::UnknownSigningKey => "Unable to fetch signing key",
            AuthError::InvalidKeyMaterial => "Invalid signing key",
            AuthError::InvalidOrExpiredToken => "Invalid or expired token",
            AuthError::InvalidSubject => "Invalid token subject",
        }
    }
}

/// The word that opens a bearer credential, with the space after it.
pub open spec fn bearer_prefix() -> Seq<char> {
    seq!['b', 'e', 'a', 'r', 'e', 'r', ' ']
}

/// The token that an `Authorization` header carries: what follows the
/// word `Bearer`, written in any case, and a space, without the white
/// space around it. There is none where the header does not begin so or
/// nothing is left.
pub open spec fn bearer_token_of(header: Seq<char>) -> Option<Seq<char>> {
    if starts_with_ignoring_case(header, bearer_prefix()) && trim(header.skip(7)).len() > 0 {
        Some(trim(header.skip(7)))
    } else {
        None
    }
}

/// Reads the token out of the value of an `Authorization` header.
pub fn bearer_token(header: &str) -> (r: Option<&str>)
    ensures
        r.deep_view() == bearer_token_of(header@),
{
    let v = chars_of(header);
    if v.len() < 7 {
        return None;
    }
    let opens = fold_char(v[0]) == 0x62 && fold_char(v[1]) == 0x65 && fold_char(v[2]) == 0x61
        && fold_char(v[3]) == 0x72 && fold_char(v[4]) == 0x65 && fold_char(v[5]) == 0x72
        && fold_char(v[6]) == 0x20;
    proof {
        let p = bearer_prefix();
        assert(folded(p[0]) == 0x62 && folded(p[1]) == 0x65 && folded(p[2]) == 0x61 && folded(p[3])
            == 0x72 && folded(p[4]) == 0x65 && folded(p[5]) == 0x72 && folded(p[6]) == 0x20);
        if opens {
            assert forall|i: int| 0 <= i < p.len() implies folded(#[trigger] header@[i]) == folded(
                p[i],
            ) by {
                if i == 0 {
                } else if i == 1 {
                } else if i == 2 {
                } else if i == 3 {
                } else if i == 4 {
                } else if i == 5 {
                } else {
                }
            }
        } else {
            if starts_with_ignoring_case(header@, p) {
                assert(folded(header@[0]) == folded(p[0]));
                assert(folded(header@[1]) == folded(p[1]));
                assert(folded(header@[2]) == folded(p[2]));
                assert(folded(header@[3]) == folded(p[3]));
                assert(folded(header@[4]) == folded(p[4]));
                assert(folded(header@[5]) == folded(p[5]));
                assert(folded(header@[6]) == folded(p[6]));
            }
        }
    }
    if !opens {
        return None;
    }
    let (a, b) = trim_range(&v, 7);
    if a == b {
        None
    } else {
        Some(header.substring_char(a, b))
    }
}

/// The identity that a verified token gives to its request.
#[derive(Debug)]
pub struct AuthUser {
    /// The principal that the token speaks for; never empty.
    pub sub: String,
    pub email: Option<String>,
    /// The whole claim set, as it was signed.
    pub raw_claims: serde_json::Value,
}

/// An identity, with its texts as characters.
pub struct AuthUserModel {
    pub sub: Seq<char>,
    pub email: Option<Seq<char>>,
    /// The claims whose values are text.
    pub claims: Map<Seq<char>, Seq<char>>,
}

impl View for AuthUser {
    type V = AuthUserModel;

    open spec fn view(&self) -> AuthUserModel {
        AuthUserModel {
            sub: self.sub@,
            email: self.email.deep_view(),
            claims: text_claims(self.raw_claims),
        }
    }
}

impl Clone for AuthUser {
    fn clone(&self) -> (r: Self)
        ensures
            r@ == self@,
            r.raw_claims == self.raw_claims,
    {
        let email = match &self.email {
            Some(e) => Some(e.clone()),
            None => None,
        };
        AuthUser { sub: self.sub.clone(), email, raw_claims: self.raw_claims.clone() }
    }
}

/// The subject that a claim set names: its `sub`, where that is text
/// and not empty.
pub open spec fn subject_of(claims: Map<Seq<char>, Seq<char>>) -> Option<Seq<char>> {
    if claims.contains_key("sub"@) && claims["sub"@].len() > 0 {
        Some(claims["sub"@])
    } else {
        None
    }
}

/// The address that a claim set gives: its `email`, where that is text.
pub open spec fn email_of(claims: Map<Seq<char>, Seq<char>>) -> Option<Seq<char>> {
    if claims.contains_key("email"@) {
        Some(claims["email"@])
    } else {
        None
    }
}

/// The identity that a claim set stands for, if it names a subject.
pub open spec fn identity_of(claims: Map<Seq<char>, Seq<char>>) -> Result<AuthUserModel, AuthError> {
    match subject_of(claims) {
        Some(sub) => Ok(AuthUserModel { sub, email: email_of(claims), claims }),
        None => Err(AuthError::InvalidSubject),
    }
}

/// Whether `r` is the exec form of the spec result `m`.
pub open spec fn same_verdict(
    r: Result<AuthUser, AuthError>,
    m: Result<AuthUserModel, AuthError>,
) -> bool {
    match (r, m) {
        (Ok(u), Ok(v)) => u@ == v,
        (Err(e), Err(f)) => e == f,
        _ => false,
    }
}

/// Takes the identity out of the claims of a token that has been checked.
pub fn identity_from_claims(claims: serde_json::Value) -> (r: Result<AuthUser, AuthError>)
    ensures
        same_verdict(r, identity_of(text_claims(claims))),
        r matches Ok(u) ==> u.raw_claims == claims,
{
    let sub = match text_claim(&claims, "sub") {
        Some(s) => s,
        None => {
            return Err(AuthError::InvalidSubject);
        },
    };
    if sub.as_str().is_empty() {
        return Err(AuthError::InvalidSubject);
    }
    let email = text_claim(&claims, "email");
    Ok(AuthUser { sub, email, raw_claims: claims })
}

/// Whether a claim set names `audience` among those it is meant for:
/// as the one text of its `aud`, or as one of the texts that its `aud`
/// lists.
pub open spec fn meant_for(claims: serde_json::Value, audience: Seq<char>) -> bool {
    ||| text_claims(claims).contains_key("aud"@) && text_claims(claims)["aud"@] == audience
    ||| listed_claims(claims).contains_key("aud"@) && listed_claims(claims)["aud"@].contains(
        Some(audience),
    )
}

/// Whether a claim set is made out for a verifier: it names `issuer`
/// as the one who signed, and `audience` among those it is meant for.
pub open spec fn addressed_by(claims: serde_json::Value, issuer: Seq<char>, audience: Seq<char>) -> bool {
    &&& text_claims(claims).contains_key("iss"@)
    &&& text_claims(claims)["iss"@] == issuer
    &&& meant_for(claims, audience)
}

/// What is made of a claim set whose token has passed the check of its
/// signature: the identity in it, where it is made out for this
/// verifier.
pub open spec fn verdict_of(claims: serde_json::Value, issuer: Seq<char>, audience: Seq<char>) -> Result<
    AuthUserModel,
    AuthError,
> {
    if addressed_by(claims, issuer, audience) {
        identity_of(text_claims(claims))
    } else {
        Err(AuthError::InvalidOrExpiredToken)
    }
}

/// Whether `text` is among the items.
fn holds_text(items: &Vec<Option<String>>, text: &str) -> (r: bool)
    ensures
        r == items.deep_view().contains(Some(text@)),
{
    let wanted = text.to_owned();
    let mut i: usize = 0;
    while i < items.len()
        invariant
            i <= items.len(),
            wanted@ == text@,
            forall|j: int| 0 <= j < i ==> items.deep_view()[j] != Some(text@),
        decreases items.len() - i,
    {
        let found = match &items[i] {
            Some(item) => *item == wanted,
            None => false,
        };
        assert(found == (items.deep_view()[i as int] == Some(text@)));
        if found {
            return true;
        }
        i += 1;
    }
    false
}

/// Whether the claims name `audience` among those they are meant for.
fn names_audience(claims: &serde_json::Value, audience: &str) -> (r: bool)
    ensures
        r == meant_for(*claims, audience@),
{
    let single = match text_claim(claims, "aud") {
        Some(aud) => aud == audience.to_owned(),
        None => false,
    };
    if single {
        return true;
    }
    match listed_claim(claims, "aud") {
        Some(items) => holds_text(&items, audience),
        None => false,
    }
}

/// What is made of the outcome of the signature check: the identity in
/// the claims, or the rejection of the token. The claims are read once
/// more here: a token that does not name the issuer, or does not name
/// the audience among those it is meant for, is rejected even where the
/// check of the signature lets it pass.
pub fn judge_claims(
    decoded: Result<serde_json::Value, jsonwebtoken::errors::Error>,
    issuer: &str,
    audience: &str,
) -> (r: Result<AuthUser, AuthError>)
    ensures
        match decoded {
            Ok(claims) => same_verdict(r, verdict_of(claims, issuer@, audience@)) && (r matches Ok(
                u,
            ) ==> u.raw_claims == claims),
            Err(_) => r matches Err(e) && e == AuthError::InvalidOrExpiredToken,
        },
{
    match decoded {
        Ok(claims) => {
            let named = match text_claim(&claims, "iss") {
                Some(iss) => iss == issuer.to_owned(),
                None => false,
            };
            if named && names_audience(&claims, audience) {
                identity_from_claims(claims)
            } else {
                Err(AuthError::InvalidOrExpiredToken)
            }
        },
        Err(_) => Err(AuthError::InvalidOrExpiredToken),
    }
}

/// What the check of a signed token may give: the check of the
/// signature may reject the token, and the claims of a token that has
/// passed decide the rest. An identity is only ever taken from a token
/// whose signature is that of the key of the check, and from claims
/// that name the issuer of the check and its audience.
pub open spec fn checked_with(r: Result<AuthUser, AuthError>, check: TokenCheckModel) -> bool {
    match r {
        Ok(u) => {
            &&& signature_verifies(check.token, check.modulus, check.exponent, check.algorithm)
            &&& same_verdict(r, verdict_of(u.raw_claims, check.issuer, check.audience))
        },
        Err(e) => e == AuthError::InvalidOrExpiredToken || e == AuthError::InvalidSubject,
    }
}

/// Runs a check: the signature, the issuer, the audience and the
/// validity period are checked on the values that the check holds, and
/// the claims of a token that passes are judged for the same issuer
/// and audience.
pub fn run_check(check: &TokenCheck) -> (r: Result<AuthUser, AuthError>)
    ensures
        checked_with(r, check@),
{
    let decoded = decode_signed(check);
    judge_claims(decoded, check.issuer(), check.audience())
}

/// The address under which an issuer publishes its key set.
pub open spec fn jwks_url_of(domain: Seq<char>) -> Seq<char> {
    "https://"@ + strip_trailing(domain, '/') + "/.well-known/jwks.json"@
}

/// The name by which an issuer signs: its address, with one slash at the end.
pub open spec fn issuer_of(domain: Seq<char>) -> Seq<char> {
    "https://"@ + strip_trailing(domain, '/') + "/"@
}

/// A token whose key has to be fetched before it can be judged.
#[derive(Debug, PartialEq, Eq)]
pub struct PendingAuth {
    pub token: String,
    pub kid: String,
}

/// A token that waits for its key, with its texts as characters.
pub struct PendingAuthModel {
    pub token: Seq<char>,
    pub kid: Seq<char>,
}

impl View for PendingAuth {
    type V = PendingAuthModel;

    open spec fn view(&self) -> PendingAuthModel {
        PendingAuthModel { token: self.token@, kid: self.kid@ }
    }
}

/// Where the lookup of a signing key stands.
#[derive(Debug)]
pub enum KeyLookup {
    /// The cache holds the key and is fresh.
    Found(Jwk),
    /// The key set has to be fetched once; the lookup is then repeated
    /// in what was fetched.
    Refresh,
}

/// Where the verification of a request stands.
#[derive(Debug)]
pub enum AuthStep {
    /// The request is turned away.
    Rejected(AuthError),
    /// The key set has to be fetched once, and the verification resumed
    /// with what came.
    Refresh(PendingAuth),
    /// The request carries a valid token of this identity.
    Accepted(AuthUser),
}

/// What the check of `token` against `key` may give, for a verifier
/// of this domain and audience: a key that cannot be read ends it; a
/// key that can be read is checked with, for the token, the two numbers
/// of the key, RS256, the issuer of the domain and the audience.
pub open spec fn judged_with(
    r: Result<AuthUser, AuthError>,
    state: AuthStateModel,
    token: Seq<char>,
    key: JwkModel,
) -> bool {
    if !rsa_components_readable(key.n, key.e) {
        r matches Err(e) && e == AuthError::InvalidKeyMaterial
    } else {
        checked_with(r, state.check_of(token, key))
    }
}

impl AuthStep {
    /// The verdict that a step carries, if it ends the verification.
    pub open spec fn verdict(self) -> Option<Result<AuthUser, AuthError>> {
        match self {
            AuthStep::Rejected(e) => Some(Err(e)),
            AuthStep::Refresh(_) => None,
            AuthStep::Accepted(u) => Some(Ok(u)),
        }
    }
}

/// The verifier: whose tokens it accepts, for whom, and the keys it
/// has cached.
pub struct AuthState {
    domain: String,
    audience: String,
    jwks: CachedJwks,
}

/// The verifier, with its texts as characters and its cache as a key set.
pub struct AuthStateModel {
    pub domain: Seq<char>,
    pub audience: Seq<char>,
    pub jwks: KeySet,
}

impl AuthStateModel {
    /// All that the check of `token` against `key` is made with.
    pub open spec fn check_of(self, token: Seq<char>, key: JwkModel) -> TokenCheckModel {
        TokenCheckModel {
            token,
            modulus: key.n,
            exponent: key.e,
            algorithm: SigningAlgorithm::Rs256,
            issuer: issuer_of(self.domain),
            audience: self.audience,
        }
    }

    /// The verifier after one attempt to fetch the key set at `now`:
    /// what came replaces the cache as a whole, and a failed attempt
    /// leaves it as it was.
    pub open spec fn refreshed(self, fetched: Option<Seq<JwkModel>>, now: u64) -> AuthStateModel {
        match fetched {
            Some(keys) => AuthStateModel { jwks: KeySet::fetched(keys, now), ..self },
            None => self,
        }
    }

    /// The key for `kid` once that attempt has been made.
    pub open spec fn key_after_refresh(
        self,
        kid: Seq<char>,
        fetched: Option<Seq<JwkModel>>,
        now: u64,
    ) -> Option<JwkModel> {
        match fetched {
            Some(keys) => KeySet::fetched(keys, now).key(kid),
            None => None,
        }
    }
}

impl View for AuthState {
    type V = AuthStateModel;

    closed spec fn view(&self) -> AuthStateModel {
        AuthStateModel { domain: self.domain@, audience: self.audience@, jwks: self.jwks@ }
    }
}

impl AuthState {
    /// A verifier for the issuer at `domain` and the audience
    /// `audience`, with nothing cached.
    pub fn new(domain: String, audience: String) -> (r: Self)
        ensures
            r@ == (AuthStateModel { domain: domain@, audience: audience@, jwks: KeySet::empty() }),
    {
        AuthState { domain, audience, jwks: CachedJwks::new() }
    }

    /// Where the issuer's key set is fetched from.
    pub fn jwks_url(&self) -> (r: String)
        ensures
            r@ == jwks_url_of(self@.domain),
    {
        let host = trim_end_slashes(self.domain.as_str());
        let head = join("https://", host);
        join(head.as_str(), "/.well-known/jwks.json")
    }

    /// The issuer that tokens must name.
    pub fn issuer(&self) -> (r: String)
        ensures
            r@ == issuer_of(self@.domain),
    {
        let host = trim_end_slashes(self.domain.as_str());
        let head = join("https://", host);
        join(head.as_str(), "/")
    }

    /// Looks the key up in the cache. A key that is missing, and any
    /// key of a cache that is twelve hours old or older, asks for a fetch.
    pub fn get_key(&self, kid: &str, now: u64) -> (r: KeyLookup)
        ensures
            match self@.jwks.usable(kid@, now) {
                Some(k) => r matches KeyLookup::Found(j) && j@ == k,
                None => r is Refresh,
            },
    {
        match self.jwks.lookup(kid, now) {
            Some(k) => KeyLookup::Found(k),
            None => KeyLookup::Refresh,
        }
    }

    /// Takes in the outcome of one attempt to fetch the key set.
    pub fn refresh_jwks(&mut self, fetched: Option<Vec<Jwk>>, now: u64) -> (ok: bool)
        ensures
            ok == fetched is Some,
            final(self)@ == old(self)@.refreshed(fetched.deep_view(), now),
    {
        match fetched {
            Some(keys) => {
                self.jwks.replace(keys, now);
                true
            },
            None => false,
        }
    }

    /// Takes in the outcome of the fetch that `get_key` asked for and
    /// repeats the lookup. No second fetch is asked for: a key that is
    /// still missing is unknown.
    pub fn get_key_refreshed(&mut self, kid: &str, fetched: Option<Vec<Jwk>>, now: u64) -> (r:
        Option<Jwk>)
        ensures
            final(self)@ == old(self)@.refreshed(fetched.deep_view(), now),
            r.deep_view() == old(self)@.key_after_refresh(kid@, fetched.deep_view(), now),
    {
        if self.refresh_jwks(fetched, now) {
            self.jwks.find(kid)
        } else {
            None
        }
    }

    /// Puts together all that the check of `token` against `key` is
    /// made with; there is no check where the key cannot be read.
    pub fn token_check(&self, token: &str, key: &Jwk) -> (r: Option<TokenCheck>)
        ensures
            (r is Some) == rsa_components_readable(key@.n, key@.e),
            r matches Some(check) ==> check@ == self@.check_of(token@, key@),
    {
        let issuer = self.issuer();
        TokenCheck::new(
            token,
            key.n.as_str(),
            key.e.as_str(),
            SigningAlgorithm::Rs256,
            issuer.as_str(),
            self.audience.as_str(),
        )
    }

    /// Checks `token` against `key`: the key must be readable, the
    /// signature must be the key's, the issuer and the audience must be
    /// this verifier's, the token must be in its validity period, and
    /// the claims must name a subject.
    pub fn check_token(&self, token: &str, key: &Jwk) -> (r: Result<AuthUser, AuthError>)
        ensures
            judged_with(r, self@, token@, key@),
    {
        match self.token_check(token, key) {
            Some(check) => run_check(&check),
            None => Err(AuthError::InvalidKeyMaterial),
        }
    }
}

/// How the key of a token is come by.
pub enum Resolution {
    /// The cache answered.
    Cached(JwkModel),
    /// The key set was fetched, and held the key.
    Fetched(JwkModel),
    /// The key set was fetched, or could not be, and the key is not known.
    Unknown,
}

impl AuthStateModel {
    /// How many fetches the lookup of `kid` at `now` asks for.
    pub open spec fn fetches(self, kid: Seq<char>, now: u64) -> nat {
        if self.jwks.usable(kid, now) is Some {
            0
        } else {
            1
        }
    }

    /// How the lookup of `kid` at `now` ends, where `fetched` is what
    /// the one fetch brings if it is asked for.
    pub open spec fn resolve(self, kid: Seq<char>, now: u64, fetched: Option<Seq<JwkModel>>) -> Resolution {
        match self.jwks.usable(kid, now) {
            Some(key) => Resolution::Cached(key),
            None => match self.key_after_refresh(kid, fetched, now) {
                Some(key) => Resolution::Fetched(key),
                None => Resolution::Unknown,
            },
        }
    }
}

/// A key that the cache does not hold is looked up with exactly one
/// fetch, and is unknown exactly where the fetch fails or brings no key
/// of that identifier.
pub proof fn lemma_missing_key_fetches_once(
    state: AuthStateModel,
    kid: Seq<char>,
    now: u64,
    fetched: Option<Seq<JwkModel>>,
)
    requires
        state.jwks.key(kid) is None,
    ensures
        state.fetches(kid, now) == 1,
        state.resolve(kid, now, fetched) is Unknown <==> (fetched matches Some(keys) ==> !has_key(
            keys,
            by_kid(),
            kid,
        )),
        !(state.resolve(kid, now, fetched) is Cached),
{
    if let Some(keys) = fetched {
        lemma_first_of_each(keys, by_kid());
    }
}

/// A key set that is twelve hours old or older answers no lookup: the
/// key set is fetched again first, even where it holds the key.
pub proof fn lemma_stale_cache_fetches(
    state: AuthStateModel,
    kid: Seq<char>,
    now: u64,
    fetched: Option<Seq<JwkModel>>,
)
    requires
        state.jwks.fetched_at matches Some(at) ==> now >= at && now - at >= MAX_KEY_AGE,
    ensures
        state.fetches(kid, now) == 1,
        !(state.resolve(kid, now, fetched) is Cached),
        state.resolve(kid, now, fetched) matches Resolution::Fetched(key) ==> KeySet::fetched(
            fetched->0,
            now,
        ).key(kid) == Some(key),
{
}

/// What a fetch brings answers the lookups that follow it, for twelve
/// hours: the cache is then fresh, and holds a key for every identifier
/// that occurs in what was brought.
pub proof fn lemma_fetched_keys_are_usable(keys: Seq<JwkModel>, at: u64, kid: Seq<char>, now: u64)
    requires
        has_key(keys, by_kid(), kid),
        at <= now,
        now - at < MAX_KEY_AGE,
    ensures
        KeySet::fetched(keys, at).wf(),
        KeySet::fetched(keys, at).usable(kid, now) is Some,
        KeySet::fetched(keys, at).usable(kid, now)->0.kid == kid,
{
    lemma_first_of_each(keys, by_kid());
    let kept = first_of_each(keys, by_kid());
    let i = index_of(keys, by_kid(), kid);
    assert(0 <= i < keys.len());
    assert(has_key(kept, by_kid(), kid));
    let j = index_of(kept, by_kid(), kid);
    assert(by_kid()(kept[j]) == kid);
}

/// Verifies the bearer token of a request as far as the cache
/// allows, given the value of its `Authorization` header.
pub fn require_auth(state: &AuthState, header: Authorization<'_>, now: u64) -> (r: AuthStep)
    ensures
        match header {
            Authorization::Absent => r matches AuthStep::Rejected(e) && e
                == AuthError::MissingCredential(CredentialFault::Absent),
            Authorization::Unreadable => r matches AuthStep::Rejected(e) && e
                == AuthError::MissingCredential(CredentialFault::Unreadable),
            Authorization::Value(h) => match bearer_token_of(h@) {
                None => r matches AuthStep::Rejected(e) && e == AuthError::MissingCredential(
                    CredentialFault::Absent,
                ),
                Some(token) => match declared_key_id(token) {
                    None => r matches AuthStep::Rejected(e) && e == AuthError::MalformedToken(
                        TokenFault::Header,
                    ),
                    Some(None) => r matches AuthStep::Rejected(e) && e
                        == AuthError::MalformedToken(TokenFault::KeyId),
                    Some(Some(kid)) => match state@.jwks.usable(kid, now) {
                        None => r matches AuthStep::Refresh(p) && p@ == (PendingAuthModel {
                            token,
                            kid,
                        }),
                        Some(key) => r.verdict() matches Some(v) && judged_with(
                            v,
                            state@,
                            token,
                            key,
                        ),
                    },
                },
            },
        },
{
    let h = match header {
        Authorization::Value(h) => h,
        Authorization::Unreadable => {
            return AuthStep::Rejected(AuthError::MissingCredential(CredentialFault::Unreadable));
        },
        Authorization::Absent => {
            return AuthStep::Rejected(AuthError::MissingCredential(CredentialFault::Absent));
        },
    };
    let token = match bearer_token(h) {
        Some(t) => t,
        None => {
            return AuthStep::Rejected(AuthError::MissingCredential(CredentialFault::Absent));
        },
    };
    let kid = match header_key_id(token) {
        Some(Some(k)) => k,
        Some(None) => {
            return AuthStep::Rejected(AuthError::MalformedToken(TokenFault::KeyId));
        },
        None => {
            return AuthStep::Rejected(AuthError::MalformedToken(TokenFault::Header));
        },
    };
    match state.get_key(kid.as_str(), now) {
        KeyLookup::Found(key) => match state.check_token(token, &key) {
            Ok(u) => AuthStep::Accepted(u),
            Err(e) => AuthStep::Rejected(e),
        },
        KeyLookup::Refresh => AuthStep::Refresh(PendingAuth { token: token.to_owned(), kid }),
    }
}

/// Resumes a verification with the outcome of the fetch it asked
/// for. The key is looked up in what was fetched, and nowhere else.
pub fn resume_auth(
    state: &mut AuthState,
    pending: PendingAuth,
    fetched: Option<Vec<Jwk>>,
    now: u64,
) -> (r: Result<AuthUser, AuthError>)
    ensures
        final(state)@ == old(state)@.refreshed(fetched.deep_view(), now),
        match old(state)@.key_after_refresh(pending.kid@, fetched.deep_view(), now) {
            None => r matches Err(e) && e == AuthError::UnknownSigningKey,
            Some(key) => judged_with(r, final(state)@, pending.token@, key),
        },
{
    match state.get_key_refreshed(pending.kid.as_str(), fetched, now) {
        Some(key) => state.check_token(pending.token.as_str(), &key),
        None => Err(AuthError::UnknownSigningKey),
    }
}

} // verus!
