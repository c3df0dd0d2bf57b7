//! Reading the fields of a JSON response by name and type.

use rustc_serialize::json::Json;
use vstd::prelude::*;
use vstd::string::StringExecFns;

verus! {

/// Why a response could not be read.
#[derive(Debug, PartialEq, Eq, Clone, Copy)]
pub enum ParseError {
    /// The named field is missing or is not of the named type.
    ExpectedFieldType(&'static str, &'static str),
    /// The named field holds a value outside what the second string describes.
    ExpectedFieldValue(&'static str, &'static str),
}

impl ParseError {
    /// What the error says, as a sentence.
    pub open spec fn message(self) -> Seq<char> {
        match self {
            ParseError::ExpectedFieldType(field, kind) => "Expected field "@ + field@
                + " of type "@ + kind@,
            ParseError::ExpectedFieldValue(field, value) => "Expected field "@ + field@
                + " to equal "@ + value@,
        }
    }

    /// What the error says, as a sentence.
    pub fn to_string(&self) -> (text: String)
        ensures
            text@ == self.message(),
    {
        let mut text = String::from_str("Expected field ");
        match self {
            ParseError::ExpectedFieldType(field, kind) => {
                text.append(field);
                text.append(" of type ");
                text.append(kind);
            },
            ParseError::ExpectedFieldValue(field, value) => {
                text.append(field);
                text.append(" to equal ");
                text.append(value);
            },
        }
        text
    }
}

/// A parsed JSON value of `rustc_serialize`. Verus sees nothing inside it.
#[verifier::external_type_specification]
#[verifier::external_body]
pub struct ExJson(Json);

/// The member that `Json::find` gives for a key.
pub uninterp spec fn json_member(json: Json, key: Seq<char>) -> Option<Json>;

/// The string that `Json::as_string` gives for a value.
pub uninterp spec fn json_string(json: Json) -> Option<Seq<char>>;

/// The unsigned integer that `Json::as_u64` gives for a value.
pub uninterp spec fn json_u64(json: Json) -> Option<u64>;

/// The signed integer that `Json::as_i64` gives for a value.
pub uninterp spec fn json_i64(json: Json) -> Option<i64>;

/// `Json::find` looks a key up in a JSON object: it gives the member stored
/// under the key, and `None` where there is none or the value is no object.
/// The contract claims only that the answer depends on the value and the key
/// alone.
pub assume_specification<'a>[ Json::find ](json: &'a Json, key: &str) -> (member: Option<&'a Json>)
    ensures
        match member {
            Some(found) => json_member(*json, key@) == Some(*found),
            None => json_member(*json, key@) is None,
        },
;

/// `Json::as_string` gives the text of a JSON string and `None` for any other
/// value. The contract claims only that the answer depends on the value alone.
pub assume_specification<'a>[ Json::as_string ](json: &'a Json) -> (text: Option<&'a str>)
    ensures
        match text {
            Some(s) => json_string(*json) == Some(s@),
            None => json_string(*json) is None,
        },
;

/// `Json::as_u64` gives a JSON number as an unsigned integer where it is a
/// non-negative integer, and `None` otherwise. The contract claims only that
/// the answer depends on the value alone.
pub assume_specification[ Json::as_u64 ](json: &Json) -> (number: Option<u64>)
    ensures
        number == json_u64(*json),
;

/// `Json::as_i64` gives a JSON number as a signed integer where it is an
/// integer below `i64::MAX`, and `None` otherwise. The contract claims only
/// that the answer depends on the value alone.
pub assume_specification[ Json::as_i64 ](json: &Json) -> (number: Option<i64>)
    ensures
        number == json_i64(*json),
;

/// The string stored under `key`, if the response has one there.
pub open spec fn string_field(json: Json, key: Seq<char>) -> Option<Seq<char>> {
    match json_member(json, key) {
        Some(member) => json_string(member),
        None => None,
    }
}

/// The unsigned integer stored under `key`, if the response has one there.
pub open spec fn u64_field(json: Json, key: Seq<char>) -> Option<u64> {
    match json_member(json, key) {
        Some(member) => json_u64(member),
        None => None,
    }
}

/// The signed integer stored under `key`, if the response has one there.
pub open spec fn i64_field(json: Json, key: Seq<char>) -> Option<i64> {
    match json_member(json, key) {
        Some(member) => json_i64(member),
        None => None,
    }
}

/// Looks up the string stored under `key`.
pub fn find_string(json: &Json, key: &str) -> (text: Option<String>)
    ensures
        text is Some <==> string_field(*json, key@) is Some,
        text matches Some(s) ==> string_field(*json, key@) == Some(s@),
{
    match json.find(key) {
        Some(member) => match member.as_string() {
            Some(s) => Some(s.to_owned()),
            None => None,
        },
        None => None,
    }
}

/// Looks up the unsigned integer stored under `key`.
pub fn find_u64(json: &Json, key: &str) -> (number: Option<u64>)
    ensures
        number == u64_field(*json, key@),
{
    match json.find(key) {
        Some(member) => member.as_u64(),
        None => None,
    }
}

/// Looks up the signed integer stored under `key`.
pub fn find_i64(json: &Json, key: &str) -> (number: Option<i64>)
    ensures
        number == i64_field(*json, key@),
{
    match json.find(key) {
        Some(member) => member.as_i64(),
        None => None,
    }
}

} // verus!
