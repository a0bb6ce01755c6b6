//! JSON documents, read and held by `serde_json`.
//!
//! A [`Value`] is opaque to the verifier. What the library needs to know of
//! one is said through the names below; each stands for what one function of
//! `serde_json` returns, and nothing here is proved about that crate.

use serde_json::Value;
use vstd::prelude::*;

verus! {

/// `serde_json::Value`, a JSON document. It is carried as it is; nothing is
/// known of what is inside one.
#[verifier::external_type_specification]
#[verifier::external_body]
pub struct ExValue(serde_json::Value);

/// `serde_json::Error`, which tells why a text is no JSON document. Nothing
/// is known of what is inside one.
#[verifier::external_type_specification]
#[verifier::external_body]
pub struct ExJsonError(serde_json::Error);

/// The document that `serde_json::from_str` reads from `text`, and `None`
/// where it reports an error instead.
pub uninterp spec fn json_parse(text: Seq<char>) -> Option<Value>;

/// What `Value::get` finds in `doc` under the string index `key`: the member
/// of that name where `doc` is an object that has one, `None` otherwise.
pub uninterp spec fn json_member(doc: Value, key: Seq<char>) -> Option<Value>;

/// What `Value::as_bool` returns for `doc`: the boolean that `doc` is, and
/// `None` where `doc` is anything else.
pub uninterp spec fn json_bool(doc: Value) -> Option<bool>;

/// The JSON string that `Value::from` makes of `text`.
pub uninterp spec fn json_string(text: Seq<char>) -> Value;

/// Calls `serde_json::from_str` to read one JSON document from `text`.
/// Trusted: the outcome is the one that [`json_parse`] names.
#[verifier::external_body]
pub(crate) fn parse(text: &str) -> (r: Result<Value, serde_json::Error>)
    ensures
        r matches Ok(doc) ==> json_parse(text@) == Some(doc),
        r is Err ==> json_parse(text@) is None,
{
    serde_json::from_str::<Value>(text)
}

/// Calls `Value::get` with a string index. Trusted: the outcome is the one
/// that [`json_member`] names.
#[verifier::external_body]
pub(crate) fn member<'a>(doc: &'a Value, key: &str) -> (r: Option<&'a Value>)
    ensures
        r matches Some(found) ==> json_member(*doc, key@) == Some(*found),
        r is None ==> json_member(*doc, key@) is None,
{
    doc.get(key)
}

/// `Value::as_bool` returns what [`json_bool`] names. Trusted.
pub assume_specification[ serde_json::Value::as_bool ](doc: &Value) -> (r: Option<bool>)
    ensures
        r == json_bool(*doc),
;

/// `Value::clone` returns a document equal to the one it was given. Trusted.
pub assume_specification[ <serde_json::Value as Clone>::clone ](doc: &Value) -> (r: Value)
    ensures
        r == *doc,
;

/// Calls `Value::from` on a string slice. Trusted: the outcome is the JSON
/// string that [`json_string`] names.
#[verifier::external_body]
pub(crate) fn string(text: &str) -> (r: Value)
    ensures
        r == json_string(text@),
{
    Value::from(text)
}

/// The `success` flag of a document: the boolean member of that name.
pub open spec fn success_flag(doc: Value) -> Option<bool> {
    match json_member(doc, "success"@) {
        Some(flag) => json_bool(flag),
        None => None,
    }
}

/// Reads the `success` flag of a document.
pub fn read_success(doc: &Value) -> (r: Option<bool>)
    ensures
        r == success_flag(*doc),
{
    match member(doc, "success") {
        Some(flag) => flag.as_bool(),
        None => None,
    }
}

} // verus!
