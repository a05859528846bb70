//! Verification of signed bearer tokens.
//!
//! A token is three base64url segments joined by dots: header, payload and
//! signature. `jsonwebtoken` checks the signature against an RSA public key
//! and the audience against the expected one, and hands back the payload.
//! What follows is decided here: the payload must hold well-formed claims,
//! their audience is compared once more, and the expiry is held against a
//! clock reading in whole seconds.

use vstd::prelude::*;
use crate::claims::{claims_of, decode_claims, Claims, ClaimsView};
use crate::text::str_eq;

verus! {

/// Why a token was turned down.
#[derive(Debug, Clone, Copy, PartialEq, Eq, Structural)]
pub enum DecodeError {
    /// The token is sound but its expiry lies in the past.
    TokenExpired,
    /// The signature, the structure, the audience or a claim is wrong.
    TokenInvalid,
}

impl DecodeError {
    /// The word by which a response names this failure.
    pub open spec fn reason_text(self) -> Seq<char> {
        match self {
            DecodeError::TokenExpired => "TokenExpired"@,
            DecodeError::TokenInvalid => "TokenInvalid"@,
        }
    }

    /// The word by which a response names this failure.
    pub fn reason(&self) -> (r: &'static str)
        ensures
            r@ == self.reason_text(),
    {
        match self {
            DecodeError::TokenExpired => "TokenExpired",
            DecodeError::TokenInvalid => "TokenInvalid",
        }
    }
}

/// The one signature scheme in use: RSASSA-PKCS1-v1_5 with SHA-256.
pub const SIGNATURE_ALGORITHM: &'static str = "RS256";

#[verifier::external_type_specification]
#[verifier::external_body]
pub struct ExJwtError(jsonwebtoken::errors::Error);

/// Whether `DecodingKey::from_rsa_pem` of `jsonwebtoken` reads an RSA key
/// from the PEM text `key_pem`.
pub uninterp spec fn is_rsa_pem(key_pem: Seq<u8>) -> bool;

/// The claims object, as compact JSON text, that `jsonwebtoken::decode`
/// hands back for `token` when it checks the signature with the RSA public
/// key in `key_pem` under the algorithm named `algorithm`, accepts only the
/// audience `audience`, and leaves the expiry alone. `None` when it refuses
/// the token, the key or the algorithm's name.
pub uninterp spec fn jwt_claims(
    token: Seq<char>,
    key_pem: Seq<u8>,
    algorithm: Seq<char>,
    audience: Seq<char>,
) -> Option<Seq<char>>;

/// Asks `DecodingKey::from_rsa_pem` whether it reads a key from `key_pem`.
/// The answer is `is_rsa_pem` of the bytes: the call depends on nothing
/// else.
#[verifier::external_body]
fn rsa_pem_accepted(key_pem: &[u8]) -> (r: bool)
    ensures
        r == is_rsa_pem(key_pem@),
{
    jsonwebtoken::DecodingKey::from_rsa_pem(key_pem).is_ok()
}

/// Calls `jsonwebtoken::decode` on `token`, with the key that
/// `DecodingKey::from_rsa_pem` reads from `key_pem` and a `Validation` for
/// the algorithm that `algorithm` names and the one audience `audience`,
/// and prints the claims it hands back as JSON text.
///
/// While `check_expiry` is off the call depends on its arguments alone, and
/// the result is `jwt_claims` of them. With it on `jsonwebtoken` compares
/// `exp` with the clock, and nothing is stated.
#[verifier::external_body]
fn decode_signed(
    token: &str,
    key_pem: &[u8],
    algorithm: &str,
    audience: &str,
    check_expiry: bool,
) -> (r: Result<String, jsonwebtoken::errors::Error>)
    ensures
        !check_expiry ==> (r is Ok <==> jwt_claims(token@, key_pem@, algorithm@, audience@) is Some),
        !check_expiry ==> (r matches Ok(payload) ==> jwt_claims(
            token@,
            key_pem@,
            algorithm@,
            audience@,
        ) == Some(payload@)),
{
    let key = jsonwebtoken::DecodingKey::from_rsa_pem(key_pem)?;
    let algorithm: jsonwebtoken::Algorithm = std::str::FromStr::from_str(algorithm)?;
    let mut validation = jsonwebtoken::Validation::new(algorithm);
    validation.validate_exp = check_expiry;
    validation.set_audience(&[audience]);
    let data = jsonwebtoken::decode::<serde_json::Value>(token, &key, &validation)?;
    Ok(data.claims.to_string())
}

/// The current time in whole seconds since the Unix epoch, from
/// `chrono::Utc::now`. Nothing is stated of it.
#[verifier::external_body]
fn current_timestamp() -> i64 {
    chrono::Utc::now().timestamp()
}

/// What becomes of claims that were read from a verified payload: they are
/// turned down as invalid unless their audience is `audience` letter for
/// letter, as expired when `expires_at` lies before `now`, and accepted
/// otherwise. A token that expires in the very second `now` is still good.
pub open spec fn judge(claims: ClaimsView, audience: Seq<char>, now: int) -> Result<
    ClaimsView,
    DecodeError,
> {
    if claims.audience != audience {
        Err(DecodeError::TokenInvalid)
    } else if claims.expires_at < now {
        Err(DecodeError::TokenExpired)
    } else {
        Ok(claims)
    }
}

/// What becomes of a token whose signature check handed back `payload`
/// (`None`: the check refused it).
pub open spec fn verdict(payload: Option<Seq<char>>, audience: Seq<char>, now: int) -> Result<
    ClaimsView,
    DecodeError,
> {
    match payload {
        Some(text) => match claims_of(text) {
            Some(claims) => judge(claims, audience, now),
            None => Err(DecodeError::TokenInvalid),
        },
        None => Err(DecodeError::TokenInvalid),
    }
}

/// The view of a verification result.
pub open spec fn result_view(r: Result<Claims, DecodeError>) -> Result<ClaimsView, DecodeError> {
    match r {
        Ok(claims) => Ok(claims@),
        Err(e) => Err(e),
    }
}

/// Holds claims against the expected audience and the time `now`, in whole
/// seconds since the Unix epoch.
pub fn check_claims(claims: Claims, audience: &str, now: i64) -> (r: Result<Claims, DecodeError>)
    ensures
        result_view(r) == judge(claims@, audience@, now as int),
{
    if !str_eq(claims.audience.as_str(), audience) {
        Err(DecodeError::TokenInvalid)
    } else if claims.expires_at < now {
        Err(DecodeError::TokenExpired)
    } else {
        Ok(claims)
    }
}

/// Decides on a token from what its signature check handed back: `payload`
/// is the claims object as JSON text, or `None` where the check refused the
/// token.
pub fn judge_payload(payload: Option<&str>, audience: &str, now: i64) -> (r: Result<
    Claims,
    DecodeError,
>)
    ensures
        result_view(r) == verdict(
            match payload {
                Some(text) => Some(text@),
                None => None,
            },
            audience@,
            now as int,
        ),
{
    match payload {
        Some(text) => match decode_claims(text) {
            Some(claims) => check_claims(claims, audience, now),
            None => Err(DecodeError::TokenInvalid),
        },
        None => Err(DecodeError::TokenInvalid),
    }
}

/// The configuration of token verification: the public signing key and the
/// audience that tokens must be issued for. It is made once and only read
/// afterwards, so one value serves any number of concurrent callers.
#[derive(Debug, Clone)]
pub struct TokenVerifier {
    public_key_pem: Vec<u8>,
    audience: String,
}

impl TokenVerifier {
    /// The PEM text of the public key.
    pub closed spec fn public_key(&self) -> Seq<u8> {
        self.public_key_pem@
    }

    /// The expected audience.
    pub closed spec fn audience(&self) -> Seq<char> {
        self.audience@
    }

    /// What `verify` answers for `token` at the time `now`. The empty token
    /// is invalid; any other is decided by the signature check and then by
    /// `verdict`.
    pub open spec fn outcome(&self, token: Seq<char>, now: int) -> Result<ClaimsView, DecodeError> {
        if token.len() == 0 {
            Err(DecodeError::TokenInvalid)
        } else {
            verdict(
                jwt_claims(token, self.public_key(), SIGNATURE_ALGORITHM@, self.audience()),
                self.audience(),
                now,
            )
        }
    }

    /// A verifier for the RSA public key in `public_key_pem` and the
    /// audience `audience`; `None` where no RSA key can be read from the
    /// PEM text.
    pub fn new(public_key_pem: Vec<u8>, audience: String) -> (r: Option<TokenVerifier>)
        ensures
            r is Some <==> is_rsa_pem(public_key_pem@),
            r matches Some(verifier) ==> verifier.public_key() == public_key_pem@
                && verifier.audience() == audience@,
    {
        if rsa_pem_accepted(public_key_pem.as_slice()) {
            Some(TokenVerifier { public_key_pem, audience })
        } else {
            None
        }
    }

    /// The expected audience.
    pub fn expected_audience(&self) -> (r: &str)
        ensures
            r@ == self.audience(),
    {
        self.audience.as_str()
    }

    /// Verifies `token` as of the time `now`, in whole seconds since the
    /// Unix epoch.
    pub fn verify_at(&self, token: &str, now: i64) -> (r: Result<Claims, DecodeError>)
        ensures
            result_view(r) == self.outcome(token@, now as int),
    {
        if token.is_empty() {
            return Err(DecodeError::TokenInvalid);
        }
        let decoded = decode_signed(
            token,
            self.public_key_pem.as_slice(),
            SIGNATURE_ALGORITHM,
            self.audience.as_str(),
            false,
        );
        match decoded {
            Ok(payload) => judge_payload(Some(payload.as_str()), self.audience.as_str(), now),
            Err(_) => judge_payload(None, self.audience.as_str(), now),
        }
    }

    /// Verifies `token` as of now. The clock is read once, in whole
    /// seconds; the answer is that of `verify_at` for the reading.
    pub fn verify(&self, token: &str) -> (r: Result<Claims, DecodeError>)
        ensures
            exists|now: i64| result_view(r) == #[trigger] self.outcome(token@, now as int),
    {
        let now = current_timestamp();
        let r = self.verify_at(token, now);
        assert(result_view(r) == self.outcome(token@, now as int));
        r
    }
}

/// A token that the signature check refuses is invalid, whatever the time.
/// The check refuses every token that was not signed with the private key
/// that belongs to the verifier's public key.
pub proof fn lemma_refused_token_is_invalid(verifier: TokenVerifier, token: Seq<char>, now: int)
    requires
        jwt_claims(token, verifier.public_key(), SIGNATURE_ALGORITHM@, verifier.audience()) is None,
    ensures
        verifier.outcome(token, now) == Err::<ClaimsView, DecodeError>(DecodeError::TokenInvalid),
{
}

/// Claims for another audience are invalid, whatever the time, and whatever
/// the signature check made of them.
pub proof fn lemma_wrong_audience_is_invalid(payload: Seq<char>, audience: Seq<char>, now: int)
    requires
        claims_of(payload) matches Some(claims) && claims.audience != audience,
    ensures
        verdict(Some(payload), audience, now) == Err::<ClaimsView, DecodeError>(
            DecodeError::TokenInvalid,
        ),
{
}

/// Whatever `verify` accepts is issued for the verifier's audience.
pub proof fn lemma_accepted_claims_have_the_audience(
    verifier: TokenVerifier,
    token: Seq<char>,
    now: int,
)
    ensures
        verifier.outcome(token, now) matches Ok(claims) ==> claims.audience == verifier.audience(),
{
}

/// Claims for the right audience whose expiry lies before `now` are
/// expired.
pub proof fn lemma_past_expiry_is_expired(payload: Seq<char>, audience: Seq<char>, now: int)
    requires
        claims_of(payload) matches Some(claims) && claims.audience == audience && claims.expires_at
            < now,
    ensures
        verdict(Some(payload), audience, now) == Err::<ClaimsView, DecodeError>(
            DecodeError::TokenExpired,
        ),
{
}

/// Claims for the right audience whose expiry is `now` or later are
/// accepted, and come back as the payload holds them.
pub proof fn lemma_unexpired_claims_are_accepted(payload: Seq<char>, audience: Seq<char>, now: int)
    requires
        claims_of(payload) matches Some(claims) && claims.audience == audience && claims.expires_at
            >= now,
    ensures
        verdict(Some(payload), audience, now) == Ok::<ClaimsView, DecodeError>(
            claims_of(payload).unwrap(),
        ),
{
}

/// A token that expires in the very second `now` is not expired: only an
/// expiry before `now` is.
pub proof fn lemma_expiry_boundary(claims: ClaimsView, now: int)
    ensures
        claims.expires_at == now ==> judge(claims, claims.audience, now) == Ok::<
            ClaimsView,
            DecodeError,
        >(claims),
        judge(claims, claims.audience, now) == Err::<ClaimsView, DecodeError>(
            DecodeError::TokenExpired,
        ) <==> claims.expires_at < now,
{
}

/// Verifying a token uses nothing up: while the token is accepted, at any
/// two times, the claims are the same; and a token accepted at one time was
/// accepted, with the same claims, at every earlier time.
pub proof fn lemma_verify_is_repeatable(
    verifier: TokenVerifier,
    token: Seq<char>,
    first: int,
    second: int,
)
    ensures
        verifier.outcome(token, first) is Ok && verifier.outcome(token, second) is Ok
            ==> verifier.outcome(token, first) == verifier.outcome(token, second),
        first <= second && verifier.outcome(token, second) is Ok ==> verifier.outcome(token, first)
            == verifier.outcome(token, second),
{
}

/// Whether a token is invalid does not depend on the time.
pub proof fn lemma_invalid_at_all_times(
    verifier: TokenVerifier,
    token: Seq<char>,
    first: int,
    second: int,
)
    ensures
        verifier.outcome(token, first) == Err::<ClaimsView, DecodeError>(DecodeError::TokenInvalid)
            <==> verifier.outcome(token, second) == Err::<ClaimsView, DecodeError>(
            DecodeError::TokenInvalid,
        ),
{
}

/// The two failures go by different words.
pub proof fn lemma_decode_reasons_differ()
    ensures
        DecodeError::TokenExpired.reason_text() != DecodeError::TokenInvalid.reason_text(),
{
    reveal_strlit("TokenExpired");
    reveal_strlit("TokenInvalid");
    assert("TokenExpired"@[5] == 'E');
    assert("TokenInvalid"@[5] == 'I');
}

} // verus!
