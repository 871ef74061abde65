//! JSON documents as plain values, read from text through serde_json.
use vstd::prelude::*;

verus! {

/// serde_json's document type, carried through opaquely until it is
/// converted.
#[verifier::external_type_specification]
#[verifier::external_body]
pub struct ExJsonValue(serde_json::Value);

/// serde_json's error type, only told apart from success.
#[verifier::external_type_specification]
#[verifier::external_body]
pub struct ExJsonError(serde_json::Error);

/// A JSON document. Numbers keep the text that serde_json writes for them;
/// an object keeps its members in the order serde_json hands them out.
#[derive(Debug)]
pub enum Json {
    Null,
    Bool(bool),
    Number(String),
    Text(String),
    Array(Vec<Json>),
    Object(Vec<(String, Json)>),
}

/// Whether serde_json reads `text` as one JSON document.
pub uninterp spec fn is_json_text(text: Seq<char>) -> bool;

/// Relies on `serde_json::from_str` into `serde_json::Value`: it succeeds
/// exactly on the texts that hold one JSON document, an answer that depends
/// on the text alone.
#[verifier::external_body]
fn read_value(text: &str) -> (r: Result<serde_json::Value, serde_json::Error>)
    ensures
        r is Ok <==> is_json_text(text@),
{
    serde_json::from_str::<serde_json::Value>(text)
}

/// Relies on the variants of `serde_json::Value`: each is carried over to the
/// variant of the same name, a number as the text that its `Display` writes.
#[verifier::external_body]
fn json_of_value(v: &serde_json::Value) -> Json {
    match v {
        serde_json::Value::Null => Json::Null,
        serde_json::Value::Bool(b) => Json::Bool(*b),
        serde_json::Value::Number(n) => Json::Number(n.to_string()),
        serde_json::Value::String(s) => Json::Text(s.clone()),
        serde_json::Value::Array(a) => Json::Array(a.iter().map(json_of_value).collect()),
        serde_json::Value::Object(o) => Json::Object(
            o.iter().map(|(k, x)| (k.clone(), json_of_value(x))).collect(),
        ),
    }
}

/// Reads `text` as a JSON document; `None` when it holds none.
pub fn parse_json(text: &str) -> (r: Option<Json>)
    ensures
        r is Some <==> is_json_text(text@),
{
    match read_value(text) {
        Ok(v) => Some(json_of_value(&v)),
        Err(_) => None,
    }
}

/// The value of the last member named `key` among `entries`.
pub open spec fn member_of(entries: Seq<(String, Json)>, key: Seq<char>) -> Option<Json>
    decreases entries.len(),
{
    if entries.len() == 0 {
        None
    } else if entries.last().0@ == key {
        Some(entries.last().1)
    } else {
        member_of(entries.drop_last(), key)
    }
}

/// The member `key` of `j`, where `j` is an object that has one.
pub open spec fn member(j: Option<Json>, key: Seq<char>) -> Option<Json> {
    match j {
        Some(Json::Object(entries)) => member_of(entries@, key),
        _ => None,
    }
}

/// The element at `i` of `j`, where `j` is an array that long.
pub open spec fn element(j: Option<Json>, i: int) -> Option<Json> {
    match j {
        Some(Json::Array(items)) => if 0 <= i < items@.len() {
            Some(items@[i])
        } else {
            None
        },
        _ => None,
    }
}

/// The characters of `j` where it is a string, else nothing.
pub open spec fn text_or_empty(j: Option<Json>) -> Seq<char> {
    match j {
        Some(Json::Text(s)) => s@,
        _ => Seq::empty(),
    }
}

/// The value behind a borrowed document, if any.
pub open spec fn owned(j: Option<&Json>) -> Option<Json> {
    match j {
        Some(x) => Some(*x),
        None => None,
    }
}

/// The member `key` of `j`; see `member`.
pub fn get_member<'a>(j: Option<&'a Json>, key: &str) -> (r: Option<&'a Json>)
    ensures
        owned(r) == member(owned(j), key@),
{
    match j {
        Some(Json::Object(entries)) => {
            let wanted = key.to_owned();
            let mut i: usize = entries.len();
            assert(entries@.take(i as int) =~= entries@);
            while i > 0
                invariant
                    i <= entries@.len(),
                    wanted@ == key@,
                    member(owned(j), key@) == member_of(entries@, key@),
                    member_of(entries@, key@) == member_of(entries@.take(i as int), key@),
                decreases i,
            {
                let ghost prefix = entries@.take(i as int);
                assert(prefix.drop_last() =~= entries@.take(i - 1));
                if entries[i - 1].0 == wanted {
                    assert(prefix.last() == entries@[i - 1]);
                    return Some(&entries[i - 1].1);
                }
                i = i - 1;
            }
            None
        },
        _ => None,
    }
}

/// The element at `i` of `j`; see `element`.
pub fn get_element<'a>(j: Option<&'a Json>, i: usize) -> (r: Option<&'a Json>)
    ensures
        owned(r) == element(owned(j), i as int),
{
    match j {
        Some(Json::Array(items)) => {
            if i < items.len() {
                Some(&items[i])
            } else {
                None
            }
        },
        _ => None,
    }
}

/// A copy of the characters of `j` where it is a string, else the empty string.
pub fn text_of(j: Option<&Json>) -> (r: String)
    ensures
        r@ == text_or_empty(owned(j)),
{
    match j {
        Some(Json::Text(s)) => s.clone(),
        _ => String::new(),
    }
}

} // verus!
