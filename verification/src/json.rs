//! The JSON documents the service answers with.
//!
//! Documents are `serde_json::Value`s.  Nothing in a value is visible to the
//! verifier; contracts speak of a value through [`json_text`], its compact
//! JSON text, and of what `serde_json` computes from it through the names
//! declared here.  Every function in this module is trusted: it makes one
//! call into `serde_json`, and its contract records what that call does.

use vstd::prelude::*;

verus! {

/// `serde_json::Value`, a JSON document.  Opaque to the verifier.
#[verifier::external_type_specification]
#[verifier::external_body]
pub struct ExJsonValue(serde_json::Value);

/// `serde_json::Error`, what parsing fails with.  Opaque to the verifier.
#[verifier::external_type_specification]
#[verifier::external_body]
pub struct ExJsonError(serde_json::Error);

/// What a value holds: its compact JSON text, as `Display` prints it.
pub uninterp spec fn json_text(value: serde_json::Value) -> Seq<char>;

/// The value that `serde_json::from_str` reads from `text`, by its compact
/// text; `None` where it reports an error.
pub uninterp spec fn json_parse(text: Seq<char>) -> Option<Seq<char>>;

/// The member that `Value::get` finds under `key` in the document with text
/// `doc`, by its compact text; `None` where the document is no object or
/// has no such member.
pub uninterp spec fn json_member(doc: Seq<char>, key: Seq<char>) -> Option<Seq<char>>;

/// The string that `Value::as_str` finds in the document with text `doc`;
/// `None` where the document is no JSON string.
pub uninterp spec fn json_string(doc: Seq<char>) -> Option<Seq<char>>;

/// The boolean a document stands for, if it is one of the two JSON booleans.
pub open spec fn json_bool(doc: Seq<char>) -> Option<bool> {
    if doc == "true"@ {
        Some(true)
    } else if doc == "false"@ {
        Some(false)
    } else {
        None
    }
}

/// Whether a document is the JSON `null`.
pub open spec fn json_is_null(doc: Seq<char>) -> bool {
    doc == "null"@
}

/// Whether a document is a JSON object: its compact text opens with a brace.
pub open spec fn json_is_object(doc: Seq<char>) -> bool {
    doc.len() > 0 && doc[0] == '{'
}

/// Calls `serde_json::from_str` at type `Value`.  The contract says that the
/// outcome is a function of the text alone: the value read, or a failure.
#[verifier::external_body]
pub(crate) fn parse_value(text: &str) -> (r: Result<serde_json::Value, serde_json::Error>)
    ensures
        match r {
            Ok(value) => json_parse(text@) == Some(json_text(value)),
            Err(_) => json_parse(text@) is None,
        },
{
    serde_json::from_str::<serde_json::Value>(text)
}

/// Calls `to_string` on a `serde_json::Error`, which prints its message.
/// Nothing is claimed of the message.
#[verifier::external_body]
pub(crate) fn error_message(error: &serde_json::Error) -> (message: String) {
    error.to_string()
}

/// Calls `Value::get` with a string key.  The contract says that the member
/// found, or its absence, is a function of the document and the key.
#[verifier::external_body]
pub(crate) fn member<'a>(value: &'a serde_json::Value, key: &str) -> (r: Option<
    &'a serde_json::Value,
>)
    ensures
        match r {
            Some(found) => json_member(json_text(*value), key@) == Some(json_text(*found)),
            None => json_member(json_text(*value), key@) is None,
        },
{
    value.get(key)
}

/// Calls `Value::as_bool`, which yields the boolean of a JSON boolean and
/// `None` for every other value.  Only the two booleans print as `true` and
/// `false`.
#[verifier::external_body]
pub(crate) fn as_bool(value: &serde_json::Value) -> (r: Option<bool>)
    ensures
        r == json_bool(json_text(*value)),
{
    value.as_bool()
}

/// Calls `Value::as_str`, which yields the text of a JSON string and `None`
/// for every other value.
#[verifier::external_body]
pub(crate) fn as_str<'a>(value: &'a serde_json::Value) -> (r: Option<&'a str>)
    ensures
        match r {
            Some(s) => json_string(json_text(*value)) == Some(s@),
            None => json_string(json_text(*value)) is None,
        },
{
    value.as_str()
}

/// Calls `Value::is_null`.  Only the null value prints as `null`.
#[verifier::external_body]
pub(crate) fn is_null(value: &serde_json::Value) -> (r: bool)
    ensures
        r == json_is_null(json_text(*value)),
{
    value.is_null()
}

/// Calls `Value::is_object`.  Only an object's text opens with a brace.
#[verifier::external_body]
pub(crate) fn is_object(value: &serde_json::Value) -> (r: bool)
    ensures
        r == json_is_object(json_text(*value)),
{
    value.is_object()
}

/// `Clone::clone` on a value: the copy has the same text.
pub assume_specification[ <serde_json::Value as Clone>::clone ](
    value: &serde_json::Value,
) -> (copy: serde_json::Value)
    ensures
        json_text(copy) == json_text(*value),
;

} // verus!
