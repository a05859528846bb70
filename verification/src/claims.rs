//! The claims that a bearer token carries, and how they are read from the
//! token's payload.

use vstd::prelude::*;
use crate::decimal::{parse_whole_seconds, whole_seconds};
use crate::json::{
    json_number_member, json_string_list_member, json_string_member, number_member,
    string_list_member, string_member,
};

verus! {

/// The decoded payload of a bearer token. Timestamps are whole seconds since
/// the Unix epoch.
#[derive(Debug, Clone, PartialEq, Eq)]
pub struct Claims {
    /// The client that the token was issued for.
    pub audience: String,
    pub issued_at: i64,
    pub not_before: i64,
    pub expires_at: i64,
    /// The identifier of the authenticated principal.
    pub subject: String,
    /// The permissions granted, in the order given. Carried, not enforced.
    pub scopes: Vec<String>,
}

/// What a `Claims` value holds, as mathematical values.
pub struct ClaimsView {
    pub audience: Seq<char>,
    pub issued_at: int,
    pub not_before: int,
    pub expires_at: int,
    pub subject: Seq<char>,
    pub scopes: Seq<Seq<char>>,
}

impl View for Claims {
    type V = ClaimsView;

    open spec fn view(&self) -> ClaimsView {
        ClaimsView {
            audience: self.audience@,
            issued_at: self.issued_at as int,
            not_before: self.not_before as int,
            expires_at: self.expires_at as int,
            subject: self.subject@,
            scopes: self.scopes.deep_view(),
        }
    }
}

/// The whole seconds of the timestamp that member `key` of the JSON object
/// `payload` holds: the member is a number, and its fraction is dropped.
/// `None` where there is no such number or its whole part does not fit in 64
/// bits.
pub open spec fn timestamp_member(payload: Seq<char>, key: Seq<char>) -> Option<i64> {
    match json_number_member(payload, key) {
        Some(text) => whole_seconds(text),
        None => None,
    }
}

/// The claims that the JSON object `payload` holds: `aud` and `sub` are
/// strings, `iat`, `nbf` and `exp` numbers, `scopes` an array of strings.
/// `None` where one of them is missing or of another kind.
pub open spec fn claims_of(payload: Seq<char>) -> Option<ClaimsView> {
    match (
        json_string_member(payload, "aud"@),
        timestamp_member(payload, "iat"@),
        timestamp_member(payload, "nbf"@),
        timestamp_member(payload, "exp"@),
        json_string_member(payload, "sub"@),
        json_string_list_member(payload, "scopes"@),
    ) {
        (Some(audience), Some(issued_at), Some(not_before), Some(expires_at), Some(subject), Some(scopes)) => Some(
            ClaimsView {
                audience,
                issued_at: issued_at as int,
                not_before: not_before as int,
                expires_at: expires_at as int,
                subject,
                scopes,
            },
        ),
        _ => None,
    }
}

/// The view of the claims in `r`, if there are any.
pub open spec fn claims_view(r: Option<Claims>) -> Option<ClaimsView> {
    match r {
        Some(claims) => Some(claims@),
        None => None,
    }
}

/// Reads the timestamp in member `key` of the JSON object `payload`, cut
/// down to whole seconds.
pub fn read_timestamp(payload: &str, key: &str) -> (r: Option<i64>)
    ensures
        r == timestamp_member(payload@, key@),
{
    match number_member(payload, key) {
        Some(text) => parse_whole_seconds(text.as_str()),
        None => None,
    }
}

/// Reads the claims from a token's payload, a JSON object given as text.
/// Every one of the six members must be there and of its kind; members
/// beyond them are passed over.
pub fn decode_claims(payload: &str) -> (r: Option<Claims>)
    ensures
        claims_view(r) == claims_of(payload@),
{
    let audience = match string_member(payload, "aud") {
        Some(audience) => audience,
        None => {
            return None;
        },
    };
    let issued_at = match read_timestamp(payload, "iat") {
        Some(seconds) => seconds,
        None => {
            return None;
        },
    };
    let not_before = match read_timestamp(payload, "nbf") {
        Some(seconds) => seconds,
        None => {
            return None;
        },
    };
    let expires_at = match read_timestamp(payload, "exp") {
        Some(seconds) => seconds,
        None => {
            return None;
        },
    };
    let subject = match string_member(payload, "sub") {
        Some(subject) => subject,
        None => {
            return None;
        },
    };
    let scopes = match string_list_member(payload, "scopes") {
        Some(scopes) => scopes,
        None => {
            return None;
        },
    };
    Some(Claims { audience, issued_at, not_before, expires_at, subject, scopes })
}

} // verus!
