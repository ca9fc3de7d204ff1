//! JSON documents as trees of plain values.
//!
//! Parsing is the work of `serde_json`; what the library reads of a parsed
//! document it reads from a tree of its own.

use vstd::prelude::*;

verus! {

/// A JSON value.
#[derive(Debug, PartialEq, Eq)]
pub enum Json {
    Null,
    Bool(bool),
    /// A number, with its value where it is a whole number from 0 to
    /// `u64::MAX`.
    Number(Option<u64>),
    Text(String),
    Array(Vec<Json>),
    /// The members of an object, each with its key.
    Object(Vec<(String, Json)>),
}

/// `serde_json::Value`, the document as the parser hands it out. The library
/// carries it from the parser to the copy below and never looks into it.
#[verifier::external_type_specification]
#[verifier::external_body]
pub struct ExJsonValue(serde_json::Value);

/// What a `serde_json::Value` holds, as a tree of plain values.
pub uninterp spec fn json_content(value: serde_json::Value) -> Json;

/// What `serde_json` makes of a text: the document that it holds, or
/// nothing where the text is not one JSON value.
pub uninterp spec fn decoded(body: Seq<u8>) -> Option<Json>;

/// Parses with `serde_json::from_slice`, which gives a value or an error.
/// Whether the bytes parse, and to what, depends on the bytes alone. Neither
/// is stated here or proved: the contract only gives the outcome its name.
#[verifier::external_body]
fn decode_value(body: &[u8]) -> (r: Option<serde_json::Value>)
    ensures
        match r {
            Some(value) => decoded(body@) == Some(json_content(value)),
            None => decoded(body@) is None,
        },
{
    serde_json::from_slice::<serde_json::Value>(body).ok()
}

/// Copies a `serde_json::Value` into a tree of plain values, variant by
/// variant: a number by `Number::as_u64`, a string and the items of an array
/// as they are, the members of an object in the order in which its map hands
/// them out. The contract says that the copy is what the value holds; nothing
/// of it is proved.
#[verifier::external_body]
fn json_of(value: &serde_json::Value) -> (r: Json)
    ensures
        r == json_content(*value),
{
    match value {
        serde_json::Value::Null => Json::Null,
        serde_json::Value::Bool(b) => Json::Bool(*b),
        serde_json::Value::Number(n) => Json::Number(n.as_u64()),
        serde_json::Value::String(s) => Json::Text(s.clone()),
        serde_json::Value::Array(items) => Json::Array(items.iter().map(json_of).collect()),
        serde_json::Value::Object(members) => Json::Object(
            members.iter().map(|(k, v)| (k.clone(), json_of(v))).collect(),
        ),
    }
}

/// Parses a JSON text.
pub fn parse_json(body: &[u8]) -> (r: Option<Json>)
    ensures
        r == decoded(body@),
{
    match decode_value(body) {
        Some(value) => Some(json_of(&value)),
        None => None,
    }
}

/// The value of the first member of `members` whose key is `key`.
pub open spec fn member_of(members: Seq<(String, Json)>, key: Seq<char>) -> Option<Json>
    decreases members.len(),
{
    if members.len() == 0 {
        None
    } else if members[0].0@ == key {
        Some(members[0].1)
    } else {
        member_of(members.drop_first(), key)
    }
}

impl Json {
    /// The member `key` of an object; nothing for a value that is no object
    /// or has no such member.
    pub open spec fn member(self, key: Seq<char>) -> Option<Json> {
        match self {
            Json::Object(members) => member_of(members@, key),
            _ => None,
        }
    }

    /// The items of an array; nothing for a value that is no array.
    pub open spec fn items(self) -> Option<Seq<Json>> {
        match self {
            Json::Array(items) => Some(items@),
            _ => None,
        }
    }

    /// The value of a whole number from 0 to `u64::MAX`; nothing for any
    /// other value.
    pub open spec fn number(self) -> Option<u64> {
        match self {
            Json::Number(n) => n,
            _ => None,
        }
    }

    /// Looks up a member of an object by its key.
    pub fn get(&self, key: &str) -> (r: Option<&Json>)
        ensures
            match r {
                Some(value) => self.member(key@) == Some(*value),
                None => self.member(key@) is None,
            },
    {
        match self {
            Json::Object(members) => {
                let wanted: String = key.to_owned();
                let mut i: usize = 0;
                assert(members@.skip(0) =~= members@);
                while i < members.len()
                    invariant
                        i <= members@.len(),
                        wanted@ == key@,
                        self.member(key@) == member_of(members@.skip(i as int), key@),
                    decreases members@.len() - i,
                {
                    assert(members@.skip(i as int).drop_first() =~= members@.skip(i as int + 1));
                    if members[i].0 == wanted {
                        return Some(&members[i].1);
                    }
                    i = i + 1;
                }
                None
            },
            _ => None,
        }
    }

    /// The items of an array.
    pub fn as_array(&self) -> (r: Option<&Vec<Json>>)
        ensures
            match r {
                Some(items) => self.items() == Some(items@),
                None => self.items() is None,
            },
    {
        match self {
            Json::Array(items) => Some(items),
            _ => None,
        }
    }

    /// The value of a number that is whole and fits `u64`.
    pub fn as_u64(&self) -> (r: Option<u64>)
        ensures
            r == self.number(),
    {
        match self {
            Json::Number(n) => *n,
            _ => None,
        }
    }
}

} // verus!
