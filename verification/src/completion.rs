//! Extraction of the reply text from the completion endpoint's JSON
//! response: the `choices[0].message.content` string, with an
//! explicit failure kind for every way the shape can be wrong.
//!
//! The response arrives as dynamic JSON, an opaque outside value.
//! Each outside lookup's result depends on its arguments alone, so
//! it is given a name, and `reply_walk` states the whole walk over
//! those names; the executable functions are proved to return
//! exactly that walk's outcome.

use vstd::prelude::*;

verus! {

/// Declares serde_json::Value, the opaque parsed JSON document.
#[verifier::external_type_specification]
#[verifier::external_body]
pub struct ExValue(serde_json::Value);

/// Declares serde_json::Error, the outside parser's failure report.
#[verifier::external_type_specification]
#[verifier::external_body]
pub struct ExError(serde_json::Error);

/// The document serde_json::from_str::<Value> reads out of `s`, or
/// None when `s` is no JSON document; determined by the text alone.
pub uninterp spec fn doc_of(s: Seq<char>) -> Option<serde_json::Value>;

/// The member serde_json::Value::get finds in `v` under `key`, or
/// None when `v` is no object or has no such member.
pub uninterp spec fn member_of(v: serde_json::Value, key: Seq<char>) -> Option<serde_json::Value>;

/// The element serde_json::Value::get finds in `v` at index `i`, or
/// None when `v` is no array or `i` is out of bounds.
pub uninterp spec fn element_of(v: serde_json::Value, i: int) -> Option<serde_json::Value>;

/// The text serde_json::Value::as_str reads out of `v`, or None
/// when `v` is not a JSON string.
pub uninterp spec fn text_of(v: serde_json::Value) -> Option<Seq<char>>;

/// Relies on serde_json::from_str::<Value>: parses a JSON document,
/// or reports why the text is not one; deterministic in the text.
#[verifier::external_body]
fn parse_json(body: &str) -> (r: Result<serde_json::Value, serde_json::Error>)
    ensures
        r matches Ok(v) ==> doc_of(body@) == Some(v),
        r is Err ==> doc_of(body@) is None,
{
    serde_json::from_str(body)
}

/// Relies on serde_json::Value::get with a string key: the member of
/// an object under that key, or None when the value is no object or
/// has no such member.
#[verifier::external_body]
fn json_member<'a>(v: &'a serde_json::Value, key: &str) -> (r: Option<&'a serde_json::Value>)
    ensures
        r matches Some(m) ==> member_of(*v, key@) == Some(*m),
        r is None ==> member_of(*v, key@) is None,
{
    v.get(key)
}

/// Relies on serde_json::Value::get with an index: the element of an
/// array at that index, or None when the value is no array or the
/// index is out of bounds.
#[verifier::external_body]
fn json_element<'a>(v: &'a serde_json::Value, i: usize) -> (r: Option<&'a serde_json::Value>)
    ensures
        r matches Some(e) ==> element_of(*v, i as int) == Some(*e),
        r is None ==> element_of(*v, i as int) is None,
{
    v.get(i)
}

/// Relies on serde_json::Value::as_str: the text of a JSON string
/// value, or None when the value is not a string.
#[verifier::external_body]
fn json_text(v: &serde_json::Value) -> (r: Option<String>)
    ensures
        r matches Some(s) ==> text_of(*v) == Some(s@),
        r is None ==> text_of(*v) is None,
{
    v.as_str().map(String::from)
}

/// Every way the completion response can fail to hold a reply.
#[derive(Clone, Copy, PartialEq, Eq, Structural, Debug)]
pub enum ReplyError {
    /// The response body is not a JSON document.
    NotJson,
    /// The document has no `choices` member.
    MissingChoices,
    /// `choices` is empty or no array.
    MissingFirstChoice,
    /// The first choice has no `message` member.
    MissingMessage,
    /// The message has no `content` member.
    MissingContent,
    /// `content` is not a string.
    NotText,
}

/// The outcome of walking `choices[0].message.content` through a
/// response document: the reply text, or the first step that fails.
pub open spec fn reply_walk(v: serde_json::Value) -> Result<Seq<char>, ReplyError> {
    match member_of(v, "choices"@) {
        None => Err(ReplyError::MissingChoices),
        Some(choices) => match element_of(choices, 0) {
            None => Err(ReplyError::MissingFirstChoice),
            Some(first) => match member_of(first, "message"@) {
                None => Err(ReplyError::MissingMessage),
                Some(message) => match member_of(message, "content"@) {
                    None => Err(ReplyError::MissingContent),
                    Some(content) => match text_of(content) {
                        None => Err(ReplyError::NotText),
                        Some(text) => Ok(text),
                    },
                },
            },
        },
    }
}

/// Walks `choices[0].message.content` of a parsed response and hands
/// back the reply string, or says exactly which step failed.
pub fn extract_reply(v: &serde_json::Value) -> (r: Result<String, ReplyError>)
    ensures
        r matches Ok(s) ==> reply_walk(*v) == Ok::<Seq<char>, ReplyError>(s@),
        r matches Err(e) ==> reply_walk(*v) == Err::<Seq<char>, ReplyError>(e),
{
    let choices = match json_member(v, "choices") {
        Some(c) => c,
        None => {
            return Err(ReplyError::MissingChoices);
        },
    };
    let first = match json_element(choices, 0) {
        Some(f) => f,
        None => {
            return Err(ReplyError::MissingFirstChoice);
        },
    };
    let message = match json_member(first, "message") {
        Some(m) => m,
        None => {
            return Err(ReplyError::MissingMessage);
        },
    };
    let content = match json_member(message, "content") {
        Some(c) => c,
        None => {
            return Err(ReplyError::MissingContent);
        },
    };
    match json_text(content) {
        Some(text) => Ok(text),
        None => Err(ReplyError::NotText),
    }
}

/// Parses a raw response body and extracts the reply text from it:
/// `NotJson` exactly when the body is no JSON document, else the
/// walk's outcome for the parsed document.
pub fn parse_reply(body: &str) -> (r: Result<String, ReplyError>)
    ensures
        doc_of(body@) is None ==> r == Err::<String, ReplyError>(ReplyError::NotJson),
        doc_of(body@) matches Some(v) ==> match r {
            Ok(s) => reply_walk(v) == Ok::<Seq<char>, ReplyError>(s@),
            Err(e) => reply_walk(v) == Err::<Seq<char>, ReplyError>(e),
        },
{
    let v = match parse_json(body) {
        Ok(v) => v,
        Err(_) => {
            return Err(ReplyError::NotJson);
        },
    };
    extract_reply(&v)
}

} // verus!
