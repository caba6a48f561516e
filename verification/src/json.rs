//! JSON documents as plain values, and the names of printers in them.

use vstd::prelude::*;
use crate::text::{chars_of, matches_at};

verus! {

/// A JSON value. A number is kept as the text that stands for it, an object
/// as its members in the order in which the parser hands them out.
#[derive(Debug)]
pub enum Json {
    Null,
    Bool(bool),
    Number(String),
    Text(String),
    List(Vec<Json>),
    Object(Vec<(String, Json)>),
}

#[verifier::external_type_specification]
#[verifier::external_body]
pub struct ExJsonValue(serde_json::Value);

#[verifier::external_type_specification]
#[verifier::external_body]
pub struct ExJsonError(serde_json::Error);

/// The JSON value that `text` is; `None` where it is none.
pub uninterp spec fn parsed_json(text: Seq<char>) -> Option<Json>;

/// Turns a value of `serde_json` into a [`Json`], variant by variant; a
/// number by `Number::to_string`.
#[verifier::external_body]
pub(crate) fn plain_json(value: serde_json::Value) -> Json {
    match value {
        serde_json::Value::Null => Json::Null,
        serde_json::Value::Bool(b) => Json::Bool(b),
        serde_json::Value::Number(n) => Json::Number(n.to_string()),
        serde_json::Value::String(s) => Json::Text(s),
        serde_json::Value::Array(items) => Json::List(items.into_iter().map(plain_json).collect()),
        serde_json::Value::Object(members) => Json::Object(
            members.into_iter().map(|(key, member)| (key, plain_json(member))).collect(),
        ),
    }
}

/// `serde_json::from_str` for a `Value`. The result depends on `text` alone:
/// it is the value that `text` is, or the error that says where `text` is no
/// JSON.
#[verifier::external_body]
pub(crate) fn parse_json(text: &str) -> (r: Result<Json, serde_json::Error>)
    ensures
        match r {
            Ok(json) => parsed_json(text@) == Some(json),
            Err(_) => parsed_json(text@) is None,
        },
{
    serde_json::from_str::<serde_json::Value>(text).map(plain_json)
}

/// The member of `members` with the key `key`: the first one, if there are
/// several.
pub open spec fn member_of(members: Seq<(String, Json)>, key: Seq<char>) -> Option<Json>
    decreases members.len(),
{
    if members.len() == 0 {
        None
    } else if members[0].0@ == key {
        Some(members[0].1)
    } else {
        member_of(members.skip(1), key)
    }
}

/// The text that is the member `key` of the object `json`; `None` where
/// `json` is no object, has no such member, or has one that is no text.
pub open spec fn text_member(json: Json, key: Seq<char>) -> Option<Seq<char>> {
    match json {
        Json::Object(members) => match member_of(members@, key) {
            Some(Json::Text(text)) => Some(text@),
            _ => None,
        },
        _ => None,
    }
}

/// Whether two texts have the same characters.
fn same_chars(a: &[char], b: &[char]) -> (r: bool)
    ensures
        r == (a@ == b@),
{
    if a.len() != b.len() {
        return false;
    }
    let same = matches_at(a, b, 0);
    assert(a@.subrange(0, a@.len() as int) == a@);
    same
}

/// The text that is the member `key` of `json`, see [`text_member`].
pub fn text_member_of<'a>(json: &'a Json, key: &[char]) -> (r: Option<&'a String>)
    ensures
        match r {
            Some(text) => text_member(*json, key@) == Some(text@),
            None => text_member(*json, key@) is None,
        },
{
    match json {
        Json::Object(members) => {
            let count = members.len();
            let mut i: usize = 0;
            assert(members@.skip(0) == members@);
            while i < count
                invariant
                    i <= count == members@.len(),
                    *json == Json::Object(*members),
                    member_of(members@, key@) == member_of(members@.skip(i as int), key@),
                decreases count - i,
            {
                let entry = &members[i];
                let name = chars_of(entry.0.as_str());
                proof {
                    let rest = members@.skip(i as int);
                    assert(rest[0] == members@[i as int]);
                    assert(rest.skip(1) == members@.skip(i + 1));
                }
                if same_chars(name.as_slice(), key) {
                    return match &entry.1 {
                        Json::Text(text) => Some(text),
                        _ => None,
                    };
                }
                i += 1;
            }
            None
        },
        _ => None,
    }
}

} // verus!
