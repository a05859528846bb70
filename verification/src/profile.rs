//! The profile that the identity provider keeps of a user.
//!
//! The provider answers a request that bears a verified token with a JSON
//! object. Fetching it is the caller's business; reading it, and deciding
//! from it who may moderate, is done here.

use vstd::prelude::*;
use vstd::string::StringExecFns;
use crate::decimal::{decimal_i32, parse_i32};
use crate::json::{
    bool_member, json_bool_member, json_number_member, json_string_list_member,
    json_string_member, number_member, string_list_member, string_member,
};
use crate::text::str_eq;

verus! {

/// The group whose members may moderate the boards.
pub const ADMIN_GROUP: &'static str = "boardmanager";

/// What the boards need to know of a user.
#[derive(Debug, Clone, PartialEq, Eq)]
pub struct Profile {
    pub id: i32,
    pub username: String,
    pub confirmed_email: bool,
    pub blocked: bool,
    pub groups: Vec<String>,
    pub rights: Vec<String>,
    pub email: String,
}

/// What a `Profile` value holds, as mathematical values.
pub struct ProfileView {
    pub id: i32,
    pub username: Seq<char>,
    pub confirmed_email: bool,
    pub blocked: bool,
    pub groups: Seq<Seq<char>>,
    pub rights: Seq<Seq<char>>,
    pub email: Seq<char>,
}

impl View for Profile {
    type V = ProfileView;

    open spec fn view(&self) -> ProfileView {
        ProfileView {
            id: self.id,
            username: self.username@,
            confirmed_email: self.confirmed_email,
            blocked: self.blocked,
            groups: self.groups.deep_view(),
            rights: self.rights.deep_view(),
            email: self.email@,
        }
    }
}

impl ProfileView {
    /// Whether the user may moderate: one of the groups is `ADMIN_GROUP`.
    pub open spec fn is_admin(self) -> bool {
        self.groups.contains(ADMIN_GROUP@)
    }
}

/// The whole number of 32 bits that member `key` of the JSON object `body`
/// holds; `None` where the member is no number, has a fraction or an
/// exponent, or does not fit.
pub open spec fn i32_member(body: Seq<char>, key: Seq<char>) -> Option<i32> {
    match json_number_member(body, key) {
        Some(text) => decimal_i32(text),
        None => None,
    }
}

/// The profile that the provider's answer `body` holds. The answer is a
/// JSON object; all of its eleven members must be there and of their kind,
/// also those that the profile does not keep (`editcount`, `registered`,
/// `grants`, `realname`).
pub open spec fn profile_of(body: Seq<char>) -> Option<ProfileView> {
    if i32_member(body, "editcount"@) is None || json_string_member(body, "registered"@) is None
        || json_string_list_member(body, "grants"@) is None || json_string_member(
        body,
        "realname"@,
    ) is None {
        None
    } else {
        match (
            i32_member(body, "sub"@),
            json_string_member(body, "username"@),
            json_bool_member(body, "confirmed_email"@),
            json_bool_member(body, "blocked"@),
            json_string_list_member(body, "groups"@),
            json_string_list_member(body, "rights"@),
            json_string_member(body, "email"@),
        ) {
            (Some(id), Some(username), Some(confirmed_email), Some(blocked), Some(groups), Some(rights), Some(email)) => Some(
                ProfileView { id, username, confirmed_email, blocked, groups, rights, email },
            ),
            _ => None,
        }
    }
}

/// The view of the profile in `r`, if there is one.
pub open spec fn profile_view(r: Option<Profile>) -> Option<ProfileView> {
    match r {
        Some(profile) => Some(profile@),
        None => None,
    }
}

/// Reads the whole number in member `key` of the JSON object `body`.
pub fn read_i32(body: &str, key: &str) -> (r: Option<i32>)
    ensures
        r == i32_member(body@, key@),
{
    match number_member(body, key) {
        Some(text) => parse_i32(text.as_str()),
        None => None,
    }
}

/// The value of the `Authorization` header that presents `token` to the
/// identity provider.
pub fn bearer(token: &str) -> (r: String)
    ensures
        r@ == "Bearer "@ + token@,
{
    String::from_str("Bearer ").concat(token)
}

impl Profile {
    /// Whether the user may moderate the boards.
    pub fn is_admin(&self) -> (r: bool)
        ensures
            r == self@.is_admin(),
    {
        let mut i: usize = 0;
        while i < self.groups.len()
            invariant
                i <= self.groups.len(),
                forall|j: int| 0 <= j < i ==> self.groups.deep_view()[j] != ADMIN_GROUP@,
            decreases self.groups.len() - i,
        {
            assert(self.groups.deep_view()[i as int] == self.groups@[i as int]@);
            if str_eq(self.groups[i].as_str(), ADMIN_GROUP) {
                return true;
            }
            i += 1;
        }
        false
    }

    /// Reads the profile from the provider's answer, a JSON object given as
    /// text.
    pub fn from_response(body: &str) -> (r: Option<Profile>)
        ensures
            profile_view(r) == profile_of(body@),
    {
        if read_i32(body, "editcount").is_none() || string_member(body, "registered").is_none()
            || string_list_member(body, "grants").is_none() || string_member(
            body,
            "realname",
        ).is_none() {
            return None;
        }
        let id = match read_i32(body, "sub") {
            Some(id) => id,
            None => {
                return None;
            },
        };
        let username = match string_member(body, "username") {
            Some(username) => username,
            None => {
                return None;
            },
        };
        let confirmed_email = match bool_member(body, "confirmed_email") {
            Some(confirmed_email) => confirmed_email,
            None => {
                return None;
            },
        };
        let blocked = match bool_member(body, "blocked") {
            Some(blocked) => blocked,
            None => {
                return None;
            },
        };
        let groups = match string_list_member(body, "groups") {
            Some(groups) => groups,
            None => {
                return None;
            },
        };
        let rights = match string_list_member(body, "rights") {
            Some(rights) => rights,
            None => {
                return None;
            },
        };
        let email = match string_member(body, "email") {
            Some(email) => email,
            None => {
                return None;
            },
        };
        Some(Profile { id, username, confirmed_email, blocked, groups, rights, email })
    }
}

} // verus!
