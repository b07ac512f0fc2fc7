//! The JSON documents that travel through the library, and the few
//! operations on them that the library leaves to `serde_json`.
//!
//! A document is carried as an opaque `serde_json::Value`. What the contracts
//! need to say about one is said through [`json_is_object`] and
//! [`json_members`].

use vstd::prelude::*;

verus! {

#[verifier::external_type_specification]
#[verifier::external_body]
pub struct ExJsonValue(serde_json::Value);

#[verifier::external_type_specification]
#[verifier::external_body]
pub struct ExJsonError(serde_json::Error);

/// The members of a JSON object: each key with its value written as JSON
/// text. A document that is not an object has no members.
pub uninterp spec fn json_members(document: serde_json::Value) -> Map<Seq<char>, Seq<char>>;

/// Whether a document is a JSON object.
pub uninterp spec fn json_is_object(document: serde_json::Value) -> bool;

/// The JSON string literal that `serde_json` writes for `text`: the text in
/// double quotes, with the escapes that JSON asks for.
pub uninterp spec fn json_quoted(text: Seq<char>) -> Seq<char>;

/// What `serde_json` reads from `text` when a single JSON string is
/// expected: the string's contents, or `None` where `text` is anything else.
pub uninterp spec fn json_string_value(text: Seq<char>) -> Option<Seq<char>>;

/// `Clone` of `serde_json::Value` copies the whole document.
pub assume_specification[ <serde_json::Value as Clone>::clone ](
    document: &serde_json::Value,
) -> (copy: serde_json::Value)
    ensures
        copy == *document,
;

/// `Value::is_object`: tells whether the document is a JSON object.
#[verifier::external_body]
pub(crate) fn is_object(document: &serde_json::Value) -> (object: bool)
    ensures
        object == json_is_object(*document),
{
    document.is_object()
}

/// `Map::remove` on the object behind `Value::as_object_mut`: the member
/// named `key` leaves and the others stay; an object stays an object. A
/// document without such a member, an object or not, is left as it was.
#[verifier::external_body]
pub(crate) fn remove_member(document: &mut serde_json::Value, key: &str)
    ensures
        json_is_object(*final(document)) == json_is_object(*old(document)),
        json_members(*final(document)) == json_members(*old(document)).remove(key@),
        !json_members(*old(document)).dom().contains(key@) ==> *final(document) == *old(
            document,
        ),
{
    if let Some(members) = document.as_object_mut() {
        members.remove(key);
    }
}

/// `Display` of `Value::String`: the JSON string literal of `text`.
#[verifier::external_body]
pub(crate) fn quote(text: &str) -> (literal: String)
    ensures
        literal@ == json_quoted(text@),
{
    serde_json::Value::String(text.to_owned()).to_string()
}

/// `serde_json::from_str` at type `String`: accepts exactly one JSON string,
/// with white space around it, and hands back its contents.
#[verifier::external_body]
pub(crate) fn read_string(text: &str) -> (outcome: Result<String, serde_json::Error>)
    ensures
        match json_string_value(text@) {
            Some(contents) => outcome matches Ok(value) && value@ == contents,
            None => outcome is Err,
        },
{
    serde_json::from_str::<String>(text)
}

} // verus!
