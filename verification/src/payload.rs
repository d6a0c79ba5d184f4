//! Decoding the chat payload that a text frame carries.
//!
//! The payload is JSON, and reading JSON is left to serde_json. What this module decides is
//! which member of the document is the chat message, and that a payload without one is
//! dropped in silence.

use vstd::prelude::*;

verus! {

/// A document as serde_json holds it once read. Nothing inside it is visible to the verifier.
#[verifier::external_type_specification]
#[verifier::external_body]
pub struct ExJsonValue(serde_json::Value);

/// The error with which serde_json rejects a text.
#[verifier::external_type_specification]
#[verifier::external_body]
pub struct ExJsonError(serde_json::Error);

/// What a document holds, as far as a session reads it: its string-valued members, from
/// member name to member value. A member whose value is no string is not among them, and a
/// document that is no object has none.
pub uninterp spec fn text_members(document: serde_json::Value) -> Map<Seq<char>, Seq<char>>;

/// The string-valued members of the document that serde_json reads from `text`, or `None`
/// where it reads none: the text is not one JSON document, or not one that serde_json
/// accepts.
pub uninterp spec fn decoded_text_members(text: Seq<char>) -> Option<Map<Seq<char>, Seq<char>>>;

/// Calls `serde_json::from_str` for a `serde_json::Value`. Trusted, not proved: what the call
/// returns depends on the text alone. It fails exactly where [`decoded_text_members`] is
/// `None`, and the document it returns otherwise holds the members that the name gives.
#[verifier::external_body]
fn parse_document(text: &str) -> (parsed: Result<serde_json::Value, serde_json::Error>)
    ensures
        match parsed {
            Ok(document) => decoded_text_members(text@) == Some(text_members(document)),
            Err(_) => decoded_text_members(text@) is None,
        },
{
    serde_json::from_str::<serde_json::Value>(text)
}

/// Calls `serde_json::Value::get` with a member name and hands out a copy of what it found
/// where that is a string. Trusted, not proved: the result is the member's value where the
/// document is an object with a member of that name whose value is a string, and `None` in
/// every other case.
#[verifier::external_body]
fn text_member(document: &serde_json::Value, name: &str) -> (member: Option<String>)
    ensures
        match member {
            Some(value) => text_members(*document).contains_key(name@) && text_members(
                *document,
            )[name@] == value@,
            None => !text_members(*document).contains_key(name@),
        },
{
    match document.get(name) {
        Some(serde_json::Value::String(value)) => Some(value.clone()),
        _ => None,
    }
}

/// The name of the one member that a chat payload is read from.
pub const CHAT_FIELD: &'static str = "chat_message";

/// The chat message that a text-frame payload carries, if it carries one: the payload must
/// read as a JSON document, an object, with a string under [`CHAT_FIELD`].
pub open spec fn chat_message_of(payload: Seq<char>) -> Option<Seq<char>> {
    match decoded_text_members(payload) {
        Some(members) => if members.contains_key(CHAT_FIELD@) {
            Some(members[CHAT_FIELD@])
        } else {
            None
        },
        None => None,
    }
}

/// The logical content of a text frame. Every member other than the chat message is dropped.
#[derive(Clone, Debug, PartialEq, Eq)]
pub struct ChatPayload {
    pub chat_message: String,
}

impl ChatPayload {
    /// Decodes a text-frame payload. A payload that does not read as JSON, or that has no
    /// string under [`CHAT_FIELD`], yields `None`: such a payload is dropped, never reported.
    pub fn decode(payload: &str) -> (decoded: Option<ChatPayload>)
        ensures
            match decoded {
                Some(found) => chat_message_of(payload@) == Some(found.chat_message@),
                None => chat_message_of(payload@) is None,
            },
    {
        match parse_document(payload) {
            Ok(document) => match text_member(&document, CHAT_FIELD) {
                Some(chat_message) => Some(ChatPayload { chat_message }),
                None => None,
            },
            Err(_) => None,
        }
    }
}

} // verus!
