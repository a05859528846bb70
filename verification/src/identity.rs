//! The identity of the caller of a request.
//!
//! The bearer token travels in the `access_token` cookie. A request without
//! it is anonymous or refused, as the endpoint's policy has it; a request
//! with it is identified by the token's subject, which must be a decimal
//! user number.

use vstd::prelude::*;
use crate::claims::{Claims, ClaimsView};
use crate::decimal::{decimal_i32, parse_i32};
use crate::request::Request;
use crate::token::{result_view, DecodeError, TokenVerifier};

verus! {

/// The cookie that carries the bearer token.
pub const ACCESS_TOKEN_COOKIE: &'static str = "access_token";

/// The cookie that carries the refresh token.
pub const REFRESH_TOKEN_COOKIE: &'static str = "refresh_token";

/// Why a request was not identified. Each kind ends the request with a 401
/// response that names it.
#[derive(Debug, Clone, Copy, PartialEq, Eq, Structural)]
pub enum AuthError {
    /// The cookie that is required is not there.
    TokenMissing,
    /// The token is sound but its expiry lies in the past.
    TokenExpired,
    /// The signature, the structure, the audience or a claim is wrong.
    TokenInvalid,
}

impl AuthError {
    /// The failure of identification that a failure of verification
    /// amounts to.
    pub open spec fn of(e: DecodeError) -> AuthError {
        match e {
            DecodeError::TokenExpired => AuthError::TokenExpired,
            DecodeError::TokenInvalid => AuthError::TokenInvalid,
        }
    }

    /// The word by which a response names this failure.
    pub open spec fn reason_text(self) -> Seq<char> {
        match self {
            AuthError::TokenMissing => "TokenMissing"@,
            AuthError::TokenExpired => "TokenExpired"@,
            AuthError::TokenInvalid => "TokenInvalid"@,
        }
    }

    /// The word by which a response names this failure.
    pub fn reason(&self) -> (r: &'static str)
        ensures
            r@ == self.reason_text(),
    {
        match self {
            AuthError::TokenMissing => "TokenMissing",
            AuthError::TokenExpired => "TokenExpired",
            AuthError::TokenInvalid => "TokenInvalid",
        }
    }

    /// Passes a failure of verification on, kind for kind.
    pub fn from_decode(e: DecodeError) -> (r: AuthError)
        ensures
            r == AuthError::of(e),
    {
        match e {
            DecodeError::TokenExpired => AuthError::TokenExpired,
            DecodeError::TokenInvalid => AuthError::TokenInvalid,
        }
    }
}

/// Whether a request must carry a token.
#[derive(Debug, Clone, Copy, PartialEq, Eq, Structural)]
pub enum IdentityPolicy {
    /// A request without a token is refused.
    Mandatory,
    /// A request without a token is anonymous.
    Optional,
}

/// The caller of a request: a user number together with the token that
/// proved it, or nobody.
#[derive(Debug, Clone, PartialEq, Eq)]
pub struct UserInfo {
    /// The user's number; `None` for an anonymous caller.
    pub id: Option<i32>,
    /// The bearer token as it was presented, for calls to the identity
    /// provider on the caller's behalf.
    pub token: Option<String>,
}

/// What a `UserInfo` value holds, as mathematical values.
pub struct UserInfoView {
    pub id: Option<i32>,
    pub token: Option<Seq<char>>,
}

impl View for UserInfo {
    type V = UserInfoView;

    open spec fn view(&self) -> UserInfoView {
        UserInfoView {
            id: self.id,
            token: match self.token {
                Some(token) => Some(token@),
                None => None,
            },
        }
    }
}

impl UserInfoView {
    /// Nobody: no user number and no token.
    pub open spec fn anonymous() -> UserInfoView {
        UserInfoView { id: None, token: None }
    }

    /// An identified caller always holds the token that identified it.
    pub open spec fn well_formed(self) -> bool {
        self.id is Some ==> self.token is Some
    }
}

/// The view of an extraction result.
pub open spec fn identity_view(r: Result<UserInfo, AuthError>) -> Result<UserInfoView, AuthError> {
    match r {
        Ok(user) => Ok(user@),
        Err(e) => Err(e),
    }
}

/// The identity that the verification result `verified` of `token` gives:
/// accepted claims identify the user whose number their subject writes, and
/// are invalid where it writes none; a failure is passed on.
pub open spec fn identify(token: Seq<char>, verified: Result<ClaimsView, DecodeError>) -> Result<
    UserInfoView,
    AuthError,
> {
    match verified {
        Ok(claims) => match decimal_i32(claims.subject) {
            Some(id) => Ok(UserInfoView { id: Some(id), token: Some(token) }),
            None => Err(AuthError::TokenInvalid),
        },
        Err(e) => Err(AuthError::of(e)),
    }
}

/// The identity of a request whose `access_token` cookie is `cookie`, under
/// `policy`, when verification answers `verified` for the cookie's value.
pub open spec fn extraction(
    cookie: Option<Seq<char>>,
    policy: IdentityPolicy,
    verified: Result<ClaimsView, DecodeError>,
) -> Result<UserInfoView, AuthError> {
    match cookie {
        Some(token) => identify(token, verified),
        None => match policy {
            IdentityPolicy::Mandatory => Err(AuthError::TokenMissing),
            IdentityPolicy::Optional => Ok(UserInfoView::anonymous()),
        },
    }
}

impl UserInfo {
    /// The anonymous caller.
    pub fn anonymous() -> (r: UserInfo)
        ensures
            r@ == UserInfoView::anonymous(),
    {
        UserInfo { id: None, token: None }
    }

    /// The identity that follows from the verification result `verified`
    /// of the token `token`.
    pub fn from_verified(token: &str, verified: Result<Claims, DecodeError>) -> (r: Result<
        UserInfo,
        AuthError,
    >)
        ensures
            identity_view(r) == identify(token@, result_view(verified)),
            r matches Ok(user) ==> user@.well_formed(),
    {
        match verified {
            Ok(claims) => match parse_i32(claims.subject.as_str()) {
                Some(id) => Ok(UserInfo { id: Some(id), token: Some(token.to_owned()) }),
                None => Err(AuthError::TokenInvalid),
            },
            Err(e) => Err(AuthError::from_decode(e)),
        }
    }

    /// Identifies the caller of `request` as of the time `now`, in whole
    /// seconds since the Unix epoch.
    pub fn from_request_at(
        request: &Request,
        verifier: &TokenVerifier,
        policy: IdentityPolicy,
        now: i64,
    ) -> (r: Result<UserInfo, AuthError>)
        ensures
            identity_view(r) == match request.cookie_value(ACCESS_TOKEN_COOKIE@) {
                Some(token) => extraction(Some(token), policy, verifier.outcome(token, now as int)),
                None => extraction(None, policy, Err(DecodeError::TokenInvalid)),
            },
            r matches Ok(user) ==> user@.well_formed(),
    {
        match request.cookie(ACCESS_TOKEN_COOKIE) {
            Some(token) => UserInfo::from_verified(token, verifier.verify_at(token, now)),
            None => match policy {
                IdentityPolicy::Mandatory => Err(AuthError::TokenMissing),
                IdentityPolicy::Optional => Ok(UserInfo::anonymous()),
            },
        }
    }

    /// Identifies the caller of `request` as of now. The clock is read at
    /// most once, in whole seconds; the answer is that of `from_request_at`
    /// for the reading.
    pub fn from_request(request: &Request, verifier: &TokenVerifier, policy: IdentityPolicy) -> (r:
        Result<UserInfo, AuthError>)
        ensures
            match request.cookie_value(ACCESS_TOKEN_COOKIE@) {
                Some(token) => exists|now: i64|
                    identity_view(r) == extraction(
                        Some(token),
                        policy,
                        #[trigger] verifier.outcome(token, now as int),
                    ),
                None => identity_view(r) == extraction(None, policy, Err(DecodeError::TokenInvalid)),
            },
            r matches Ok(user) ==> user@.well_formed(),
    {
        match request.cookie(ACCESS_TOKEN_COOKIE) {
            Some(token) => {
                let verified = verifier.verify(token);
                let ghost answer = result_view(verified);
                let r = UserInfo::from_verified(token, verified);
                proof {
                    let now = choose|now: i64| answer == verifier.outcome(token@, now as int);
                    assert(identity_view(r) == extraction(
                        Some(token@),
                        policy,
                        verifier.outcome(token@, now as int),
                    ));
                }
                r
            },
            None => match policy {
                IdentityPolicy::Mandatory => Err(AuthError::TokenMissing),
                IdentityPolicy::Optional => Ok(UserInfo::anonymous()),
            },
        }
    }
}

/// The refresh token of a request: an opaque string that is handed on to the
/// identity provider as it came.
#[derive(Debug, Clone, PartialEq, Eq)]
pub struct RefreshToken {
    pub refresh_token: String,
}

impl RefreshToken {
    /// Reads the `refresh_token` cookie of `request`. Its value is taken as
    /// it is; a request without the cookie is refused.
    pub fn from_request(request: &Request) -> (r: Result<RefreshToken, AuthError>)
        ensures
            match request.cookie_value(REFRESH_TOKEN_COOKIE@) {
                Some(value) => r matches Ok(token) && token.refresh_token@ == value,
                None => r == Err::<RefreshToken, AuthError>(AuthError::TokenMissing),
            },
    {
        match request.cookie(REFRESH_TOKEN_COOKIE) {
            Some(value) => Ok(RefreshToken { refresh_token: value.to_owned() }),
            None => Err(AuthError::TokenMissing),
        }
    }
}

/// Different failures go by different words, and a failure of verification
/// keeps its word when it is passed on.
pub proof fn lemma_reasons_differ(a: AuthError, b: AuthError)
    ensures
        a.reason_text() == b.reason_text() ==> a == b,
        forall|e: DecodeError| #[trigger] AuthError::of(e).reason_text() == e.reason_text(),
{
    reveal_strlit("TokenMissing");
    reveal_strlit("TokenExpired");
    reveal_strlit("TokenInvalid");
    assert("TokenMissing"@[5] == 'M');
    assert("TokenExpired"@[5] == 'E');
    assert("TokenInvalid"@[5] == 'I');
}

/// Every identity that extraction yields is well formed: a caller with a
/// user number holds the token that proved it.
pub proof fn lemma_extraction_is_well_formed(
    cookie: Option<Seq<char>>,
    policy: IdentityPolicy,
    verified: Result<ClaimsView, DecodeError>,
)
    ensures
        extraction(cookie, policy, verified) matches Ok(user) ==> user.well_formed(),
{
}

/// The policy only matters for a request without a token: with one, both
/// policies give the same answer.
pub proof fn lemma_policy_only_matters_without_token(
    token: Seq<char>,
    verified: Result<ClaimsView, DecodeError>,
)
    ensures
        extraction(Some(token), IdentityPolicy::Mandatory, verified) == extraction(
            Some(token),
            IdentityPolicy::Optional,
            verified,
        ),
{
}

/// A request without a token is refused as missing where a token is
/// mandatory, and anonymous where it is optional.
pub proof fn lemma_request_without_token(verified: Result<ClaimsView, DecodeError>)
    ensures
        extraction(None, IdentityPolicy::Mandatory, verified) == Err::<UserInfoView, AuthError>(
            AuthError::TokenMissing,
        ),
        extraction(None, IdentityPolicy::Optional, verified) == Ok::<UserInfoView, AuthError>(
            UserInfoView::anonymous(),
        ),
{
}

/// Accepted claims whose subject writes no user number are invalid: the
/// subject is never dropped.
pub proof fn lemma_subject_must_be_a_number(token: Seq<char>, claims: ClaimsView)
    requires
        decimal_i32(claims.subject) is None,
    ensures
        identify(token, Ok(claims)) == Err::<UserInfoView, AuthError>(AuthError::TokenInvalid),
{
}

} // verus!
