//! Reading the endpoint's answers as JSON.
//!
//! The parsing is `serde_json`'s. Of a parsed document this library reads
//! one thing only: the members of its top-level object whose values are
//! strings. The items in this file that carry `external_body` state what
//! `serde_json` does and are taken on trust; the rest is proved from them.

use vstd::prelude::*;
use vstd::string::*;

verus! {

/// `serde_json::Value`: a parsed JSON document, or a value within one.
/// Nothing inside it is visible here.
#[verifier::external_type_specification]
#[verifier::external_body]
pub struct ExValue(serde_json::Value);

/// `serde_json::Error`: why a text did not parse. Nothing inside it is
/// visible here.
#[verifier::external_type_specification]
#[verifier::external_body]
pub struct ExError(serde_json::Error);

/// The string members of a document: for each key of its top-level object
/// whose value is a string, that string. A document that is no object has
/// none.
pub uninterp spec fn string_members(doc: serde_json::Value) -> Map<Seq<char>, Seq<char>>;

/// The text of a value that is a string; `None` for any other value.
pub uninterp spec fn string_value(value: serde_json::Value) -> Option<Seq<char>>;

/// The string members of the document that a text is parsed into, or `None`
/// where the text is not one JSON document.
pub uninterp spec fn parsed_members(text: Seq<char>) -> Option<Map<Seq<char>, Seq<char>>>;

/// `serde_json::from_str` at the type `Value`. Whether a text parses, and
/// into which document, depends on the text alone; `parsed_members` names
/// the string members of that document.
#[verifier::external_body]
pub(crate) fn parse(text: &str) -> (res: Result<serde_json::Value, serde_json::Error>)
    ensures
        match res {
            Ok(doc) => parsed_members(text@) == Some(string_members(doc)),
            Err(_) => parsed_members(text@) is None,
        },
{
    serde_json::from_str::<serde_json::Value>(text)
}

/// `Value::get` with a string key. It returns the value of the member
/// `key` where the document is an object that has such a member, and
/// `None` otherwise. So `key` is a string member exactly when a value comes
/// back and that value is a string, and then it is that string.
#[verifier::external_body]
pub(crate) fn member<'a>(doc: &'a serde_json::Value, key: &str) -> (res: Option<
    &'a serde_json::Value,
>)
    ensures
        match res {
            Some(value) => match string_value(*value) {
                Some(text) => string_members(*doc).contains_key(key@) && string_members(
                    *doc,
                )[key@] == text,
                None => !string_members(*doc).contains_key(key@),
            },
            None => !string_members(*doc).contains_key(key@),
        },
{
    doc.get(key)
}

/// `Value::as_str`: the text of a value that is a string, `None` otherwise.
#[verifier::external_body]
pub(crate) fn text_of<'a>(value: &'a serde_json::Value) -> (res: Option<&'a str>)
    ensures
        match res {
            Some(text) => string_value(*value) == Some(text@),
            None => string_value(*value) is None,
        },
{
    value.as_str()
}

/// The message of a `serde_json::Error`, as its `Display` writes it.
/// Nothing is claimed of the text.
#[verifier::external_body]
pub(crate) fn diagnostic(error: &serde_json::Error) -> String {
    error.to_string()
}

/// The string member `key` of a document, if it has one.
pub fn string_member(doc: &serde_json::Value, key: &str) -> (res: Option<String>)
    ensures
        res.deep_view() == if string_members(*doc).contains_key(key@) {
            Some(string_members(*doc)[key@])
        } else {
            None
        },
{
    match member(doc, key) {
        Some(value) => match text_of(value) {
            Some(text) => Some(text.to_owned()),
            None => None,
        },
        None => None,
    }
}

} // verus!
