//! Reading the members of a JSON object, through `serde_json`.
//!
//! A JSON document is held as its text. Each reader below parses the text
//! with `serde_json` and hands back one member as plain values; what the
//! parser accepts is not restated here, it is named.

use vstd::prelude::*;

verus! {

/// The text of member `key` of the JSON object `document` when that member
/// is a JSON string: what `serde_json` parses it to. `None` when `document`
/// is no JSON object, has no such member, or the member is no string.
pub uninterp spec fn json_string_member(document: Seq<char>, key: Seq<char>) -> Option<Seq<char>>;

/// The decimal text that `serde_json` prints for member `key` of the JSON
/// object `document` when that member is a JSON number. `None` when
/// `document` is no JSON object, has no such member, or the member is no
/// number.
pub uninterp spec fn json_number_member(document: Seq<char>, key: Seq<char>) -> Option<Seq<char>>;

/// The items of member `key` of the JSON object `document` when that member
/// is an array of JSON strings. `None` when `document` is no JSON object,
/// has no such member, or the member is anything else.
pub uninterp spec fn json_string_list_member(document: Seq<char>, key: Seq<char>) -> Option<
    Seq<Seq<char>>,
>;

/// The value of member `key` of the JSON object `document` when that member
/// is `true` or `false`. `None` when `document` is no JSON object, has no
/// such member, or the member is anything else.
pub uninterp spec fn json_bool_member(document: Seq<char>, key: Seq<char>) -> Option<bool>;

/// Reads a string member with `serde_json::from_str`, `Map::get` and
/// `Value::as_str`. The result is `json_string_member` of the arguments:
/// the calls depend on nothing else.
#[verifier::external_body]
pub(crate) fn string_member(document: &str, key: &str) -> (r: Option<String>)
    ensures
        r is Some <==> json_string_member(document@, key@) is Some,
        r matches Some(s) ==> json_string_member(document@, key@) == Some(s@),
{
    let object: serde_json::Map<String, serde_json::Value> = serde_json::from_str(document).ok()?;
    object.get(key)?.as_str().map(str::to_owned)
}

/// Reads a number member with `serde_json::from_str` and `Map::get`, and
/// prints it with `Number`'s `Display`. The result is `json_number_member`
/// of the arguments: the calls depend on nothing else.
#[verifier::external_body]
pub(crate) fn number_member(document: &str, key: &str) -> (r: Option<String>)
    ensures
        r is Some <==> json_number_member(document@, key@) is Some,
        r matches Some(s) ==> json_number_member(document@, key@) == Some(s@),
{
    let object: serde_json::Map<String, serde_json::Value> = serde_json::from_str(document).ok()?;
    match object.get(key)? {
        serde_json::Value::Number(n) => Some(n.to_string()),
        _ => None,
    }
}

/// Reads a member that is an array of strings with `serde_json::from_str`,
/// `Map::get` and `serde_json::from_value`. The result is
/// `json_string_list_member` of the arguments: the calls depend on nothing
/// else.
#[verifier::external_body]
pub(crate) fn string_list_member(document: &str, key: &str) -> (r: Option<Vec<String>>)
    ensures
        r is Some <==> json_string_list_member(document@, key@) is Some,
        r matches Some(v) ==> json_string_list_member(document@, key@) == Some(v.deep_view()),
{
    let object: serde_json::Map<String, serde_json::Value> = serde_json::from_str(document).ok()?;
    serde_json::from_value(object.get(key)?.clone()).ok()
}

/// Reads a member that is `true` or `false` with `serde_json::from_str`,
/// `Map::get` and `Value::as_bool`. The result is `json_bool_member` of the
/// arguments: the calls depend on nothing else.
#[verifier::external_body]
pub(crate) fn bool_member(document: &str, key: &str) -> (r: Option<bool>)
    ensures
        r == json_bool_member(document@, key@),
{
    let object: serde_json::Map<String, serde_json::Value> = serde_json::from_str(document).ok()?;
    object.get(key)?.as_bool()
}

} // verus!
