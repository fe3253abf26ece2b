use vstd::prelude::*;
use crate::error::RembedError;
use crate::text::str_eq;

verus! {

#[verifier::external_type_specification]
#[verifier::external_body]
pub struct ExNumber(serde_json::Number);

#[verifier::external_type_specification]
#[verifier::external_body]
pub struct ExJsonValue(serde_json::Value);

/// A copy of a JSON number is the same number (`Number` derives `Clone`).
pub assume_specification[ <serde_json::Number as Clone>::clone ](n: &serde_json::Number) -> (r: serde_json::Number)
    ensures
        r == *n,
;

/// A JSON document as plain values. Numbers stay as serde_json numbers, whose
/// conversion to floating point happens outside the library. An object holds
/// one member per key, in the order serde_json's map yields them (sorted by
/// key).
#[derive(Debug)]
pub enum Json {
    Null,
    Bool(bool),
    Number(serde_json::Number),
    Str(String),
    Array(Vec<Json>),
    Object(Vec<(String, Json)>),
}

/// The document that serde_json reads from `text`, or `None` where `text`
/// is not one JSON document.
pub uninterp spec fn json_text(text: Seq<char>) -> Option<Json>;

/// The value of the first member under `key`.
pub open spec fn member_of(members: Seq<(String, Json)>, key: Seq<char>) -> Option<Json>
    decreases members.len(),
{
    if members.len() == 0 {
        None
    } else if members[0].0@ == key {
        Some(members[0].1)
    } else {
        member_of(members.drop_first(), key)
    }
}

impl Json {
    /// The member under `key`, where this is an object that has one.
    pub open spec fn member(self, key: Seq<char>) -> Option<Json> {
        match self {
            Json::Object(ms) => member_of(ms@, key),
            _ => None,
        }
    }

    /// The element at `i`, where this is an array that long.
    pub open spec fn element(self, i: int) -> Option<Json> {
        match self {
            Json::Array(xs) => if 0 <= i < xs@.len() {
                Some(xs@[i])
            } else {
                None
            },
            _ => None,
        }
    }

    /// The text of a JSON string.
    pub open spec fn text(self) -> Option<Seq<char>> {
        match self {
            Json::Str(s) => Some(s@),
            _ => None,
        }
    }

    /// Reads `text` as one JSON document.
    pub fn parse(text: &str) -> (r: Result<Json, RembedError>)
        ensures
            match json_text(text@) {
                Some(j) => r == Ok::<Json, RembedError>(j),
                None => r is Err && r->Err_0 is MalformedInput,
            },
    {
        match parse_json_text(text) {
            Some(j) => Ok(j),
            None => Err(RembedError::MalformedInput(String::from_str("Invalid JSON"))),
        }
    }

    /// The member under `key`, where this is an object that has one.
    pub fn get_member(&self, key: &str) -> (r: Option<&Json>)
        ensures
            match r {
                Some(j) => self.member(key@) == Some(*j),
                None => self.member(key@) is None,
            },
    {
        match self {
            Json::Object(ms) => {
                let mut i: usize = 0;
                assert(ms@.skip(0) == ms@);
                while i < ms.len()
                    invariant
                        i <= ms@.len(),
                        self.member(key@) == member_of(ms@, key@),
                        member_of(ms@, key@) == member_of(ms@.skip(i as int), key@),
                    decreases ms@.len() - i,
                {
                    assert(ms@.skip(i as int).drop_first() == ms@.skip(i + 1));
                    assert(ms@.skip(i as int)[0] == ms@[i as int]);
                    if str_eq(ms[i].0.as_str(), key) {
                        assert(member_of(ms@.skip(i as int), key@) == Some(ms@[i as int].1));
                        return Some(&ms[i].1);
                    }
                    i = i + 1;
                }
                None
            },
            _ => None,
        }
    }

    /// The element at `i`, where this is an array that long.
    pub fn get_element(&self, i: usize) -> (r: Option<&Json>)
        ensures
            match r {
                Some(j) => self.element(i as int) == Some(*j),
                None => self.element(i as int) is None,
            },
    {
        match self {
            Json::Array(xs) => if i < xs.len() {
                Some(&xs[i])
            } else {
                None
            },
            _ => None,
        }
    }

    /// The text of a JSON string.
    pub fn as_str(&self) -> (r: Option<&str>)
        ensures
            match r {
                Some(s) => self.text() == Some(s@),
                None => self.text() is None,
            },
    {
        match self {
            Json::Str(s) => Some(s.as_str()),
            _ => None,
        }
    }
}

/// Relies on serde_json::from_str for `serde_json::Value`: the document read
/// from `text` depends on `text` alone.
#[verifier::external_body]
fn parse_json_text(text: &str) -> (r: Option<Json>)
    ensures
        r == json_text(text@),
{
    serde_json::from_str::<serde_json::Value>(text).ok().map(json_of_value)
}

/// Moves a serde_json value into `Json`, one variant for each of its variants.
#[verifier::external_body]
fn json_of_value(v: serde_json::Value) -> Json {
    match v {
        serde_json::Value::Null => Json::Null,
        serde_json::Value::Bool(b) => Json::Bool(b),
        serde_json::Value::Number(n) => Json::Number(n),
        serde_json::Value::String(s) => Json::Str(s),
        serde_json::Value::Array(a) => Json::Array(a.into_iter().map(json_of_value).collect()),
        serde_json::Value::Object(m) => Json::Object(
            m.into_iter().map(|(k, x)| (k, json_of_value(x))).collect(),
        ),
    }
}

} // verus!
