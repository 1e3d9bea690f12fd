//! JSON documents.
//!
//! Documents are `serde_json::Value`s. The library builds them, looks members
//! up and prints them only through `serde_json`; what it knows of a document
//! is what the three functions below name.

use vstd::prelude::*;

verus! {

/// `serde_json::Value`, taken as it is: nothing inside it is visible here.
#[verifier::external_type_specification]
#[verifier::external_body]
pub struct ExValue(serde_json::Value);

/// `serde_json::Error`, taken as it is.
#[verifier::external_type_specification]
#[verifier::external_body]
pub struct ExJsonError(serde_json::Error);

/// The member that `doc` holds under `key`: `None` where `doc` is no object or
/// has no such member.
pub uninterp spec fn json_member(doc: serde_json::Value, key: Seq<char>) -> Option<
    serde_json::Value,
>;

/// The text of `value` where it is a JSON string, else `None`.
pub uninterp spec fn json_text(value: serde_json::Value) -> Option<Seq<char>>;

/// The pretty-printed form of `value` as bytes, or the message of the error
/// with which `serde_json` fails to serialize it.
pub uninterp spec fn pretty_json(value: serde_json::Value) -> Result<Seq<u8>, Seq<char>>;

/// The message of a serialization error, as its `Display` writes it.
pub uninterp spec fn error_text(error: serde_json::Error) -> Seq<char>;

/// The text held under `key`, where `doc` holds a JSON string there.
pub open spec fn member_text(doc: serde_json::Value, key: Seq<char>) -> Option<Seq<char>> {
    match json_member(doc, key) {
        Some(value) => json_text(value),
        None => None,
    }
}

/// Makes a JSON string (`Value::from(&str)`): it holds the given text.
#[verifier::external_body]
pub(crate) fn string_value(text: &str) -> (value: serde_json::Value)
    ensures
        json_text(value) == Some(text@),
{
    serde_json::Value::from(text)
}

/// Makes a JSON object from pairs of key and member (`Value::from_iter`),
/// where no key occurs twice: the object holds each member under its key and
/// nothing under any other key.
#[verifier::external_body]
pub(crate) fn object_value(entries: Vec<(String, serde_json::Value)>) -> (doc: serde_json::Value)
    requires
        forall|i: int, j: int|
            0 <= i < j < entries.len() ==> (#[trigger] entries[i]).0@ != (#[trigger] entries[j]).0@,
    ensures
        forall|i: int|
            0 <= i < entries.len() ==> json_member(doc, (#[trigger] entries[i]).0@) == Some(
                entries[i].1,
            ),
        forall|key: Seq<char>|
            (forall|i: int| 0 <= i < entries.len() ==> (#[trigger] entries[i]).0@ != key)
                ==> #[trigger] json_member(doc, key) is None,
{
    serde_json::Value::from_iter(entries)
}

/// Looks a member up by key (`Value::get`).
#[verifier::external_body]
pub(crate) fn member<'a>(doc: &'a serde_json::Value, key: &str) -> (found: Option<
    &'a serde_json::Value,
>)
    ensures
        match found {
            Some(value) => json_member(*doc, key@) == Some(*value),
            None => json_member(*doc, key@) is None,
        },
{
    doc.get(key)
}

/// Reads a JSON string (`Value::as_str`).
#[verifier::external_body]
pub(crate) fn text_of<'a>(value: &'a serde_json::Value) -> (text: Option<&'a str>)
    ensures
        text.deep_view() == json_text(*value),
{
    value.as_str()
}

/// Pretty-prints a document (`serde_json::to_vec_pretty`).
#[verifier::external_body]
pub(crate) fn to_pretty_bytes(value: &serde_json::Value) -> (printed: Result<
    Vec<u8>,
    serde_json::Error,
>)
    ensures
        match printed {
            Ok(bytes) => pretty_json(*value) == Ok::<Seq<u8>, Seq<char>>(bytes@),
            Err(error) => pretty_json(*value) == Err::<Seq<u8>, Seq<char>>(error_text(error)),
        },
{
    serde_json::to_vec_pretty(value)
}

/// Takes the message of a serialization error (`Error` as `Display`, through
/// `to_string`). The contract only names the text.
#[verifier::external_body]
pub(crate) fn error_message(error: &serde_json::Error) -> (message: String)
    ensures
        message@ == error_text(*error),
{
    error.to_string()
}

} // verus!
