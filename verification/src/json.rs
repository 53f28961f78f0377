//! JSON texts, read and written by `serde_json`. The library looks into a
//! document only far enough to find the message it wraps.

use vstd::prelude::*;
use vstd::utf8::{decode_utf8, valid_utf8};
use crate::error::ProtocolError;

verus! {

/// `serde_json::Value`, a JSON value. The library carries such values and
/// never looks inside one but through the functions below.
#[verifier::external_type_specification]
#[verifier::external_body]
pub struct ExJsonValue(serde_json::Value);

/// `serde_json::Error`, what `serde_json` reports when it cannot read or
/// write a text. The library tells only that there was one.
#[verifier::external_type_specification]
#[verifier::external_body]
pub struct ExJsonError(serde_json::Error);

/// The text that `String::from_utf8_lossy` makes of a run of bytes.
pub uninterp spec fn lossy_text(bytes: Seq<u8>) -> Seq<char>;

/// The document that `serde_json::from_str` reads from a text, if it reads
/// one.
pub uninterp spec fn json_document(text: Seq<char>) -> Option<serde_json::Value>;

/// The member that `serde_json::Value::get` finds in a value under a key, if
/// it finds one.
pub uninterp spec fn json_member(value: serde_json::Value, key: Seq<char>) -> Option<
    serde_json::Value,
>;

/// The object that `serde_json::Value::from_iter` makes of one key and the
/// value under it.
pub uninterp spec fn json_keyed(key: Seq<char>, body: serde_json::Value) -> serde_json::Value;

/// The text that `serde_json::to_string` writes for a value, if it writes
/// one.
pub uninterp spec fn json_rendered(value: serde_json::Value) -> Option<Seq<char>>;

/// `String::from_utf8_lossy`: turns bytes into text. Bytes that are valid
/// UTF-8 become the text they encode; what becomes of other bytes is left to
/// `lossy_text`.
#[verifier::external_body]
fn text_of_bytes(bytes: &[u8]) -> (text: String)
    ensures
        text@ == lossy_text(bytes@),
        valid_utf8(bytes@) ==> text@ == decode_utf8(bytes@),
{
    String::from_utf8_lossy(bytes).into_owned()
}

/// `serde_json::from_str`, read as a `serde_json::Value`: the document that
/// the text spells, or an error where it spells none.
#[verifier::external_body]
fn parse_json(text: &str) -> (r: Result<serde_json::Value, serde_json::Error>)
    ensures
        r.is_ok() == json_document(text@).is_some(),
        r.is_ok() ==> json_document(text@) == Some(r.unwrap()),
{
    serde_json::from_str::<serde_json::Value>(text)
}

/// `serde_json::Value::get` with a string key, the member copied out: the
/// member under that key where the value is an object that has it.
#[verifier::external_body]
fn member(value: &serde_json::Value, key: &str) -> (r: Option<serde_json::Value>)
    ensures
        r == json_member(*value, key@),
{
    value.get(key).cloned()
}

/// `serde_json::Value::from_iter` on one pair: an object whose only member
/// is `body`, under `key`.
#[verifier::external_body]
fn keyed(key: &str, body: serde_json::Value) -> (r: serde_json::Value)
    ensures
        r == json_keyed(key@, body),
        json_member(r, key@) == Some(body),
        forall|other: Seq<char>| other != key@ ==> (#[trigger] json_member(r, other)).is_none(),
{
    serde_json::Value::from_iter([(key, body)])
}

/// `serde_json::to_string` on a `serde_json::Value`: the JSON text of the
/// value, or an error where none is written.
#[verifier::external_body]
fn render(value: &serde_json::Value) -> (r: Result<String, serde_json::Error>)
    ensures
        r.is_ok() == json_rendered(*value).is_some(),
        r.is_ok() ==> json_rendered(*value) == Some(r.unwrap()@),
{
    serde_json::to_string(value)
}

/// The three messages of the protocol.
#[derive(Debug, Clone, Copy, PartialEq, Eq, Structural)]
pub enum MessageKind {
    /// A worker's request for work.
    Request,
    /// A unit of work.
    Task,
    /// A computed fragment.
    Result,
}

/// The key under which a message of a kind is wrapped.
pub open spec fn key_of(kind: MessageKind) -> Seq<char> {
    match kind {
        MessageKind::Request => "FragmentRequest"@,
        MessageKind::Task => "FragmentTask"@,
        MessageKind::Result => "FragmentResult"@,
    }
}

impl MessageKind {
    /// The key under which a message of this kind is wrapped.
    pub fn key(&self) -> (k: &'static str)
        ensures
            k@ == key_of(*self),
    {
        match self {
            MessageKind::Request => "FragmentRequest",
            MessageKind::Task => "FragmentTask",
            MessageKind::Result => "FragmentResult",
        }
    }
}

/// What `task_of_document` returns: the member under `FragmentTask`, or the
/// missing-task error where the document has none.
pub open spec fn task_in(document: serde_json::Value) -> Result<serde_json::Value, ProtocolError> {
    match json_member(document, "FragmentTask"@) {
        Some(task) => Ok(task),
        None => Err(ProtocolError::MissingTask),
    }
}

/// What `task_of_parsed` returns: a text that is no JSON is malformed; a
/// document is searched for its task.
pub open spec fn task_in_parsed(parsed: Option<serde_json::Value>) -> Result<
    serde_json::Value,
    ProtocolError,
> {
    match parsed {
        None => Err(ProtocolError::MalformedJson),
        Some(document) => task_in(document),
    }
}

/// Finds the task that a document wraps.
pub fn task_of_document(document: &serde_json::Value) -> (r: Result<
    serde_json::Value,
    ProtocolError,
>)
    ensures
        r == task_in(*document),
{
    match member(document, "FragmentTask") {
        Some(task) => Ok(task),
        None => Err(ProtocolError::MissingTask),
    }
}

/// Reads the outcome of parsing a text: a failure is a malformed message, a
/// document is searched for its task.
pub fn task_of_parsed(parsed: Result<serde_json::Value, serde_json::Error>) -> (r: Result<
    serde_json::Value,
    ProtocolError,
>)
    ensures
        r == task_in_parsed(
            match parsed {
                Ok(document) => Some(document),
                Err(_) => None,
            },
        ),
{
    match parsed {
        Err(_) => Err(ProtocolError::MalformedJson),
        Ok(document) => task_of_document(&document),
    }
}

/// Finds the task in the JSON text of a task frame. The bytes are read as
/// text, the text as a JSON document, and the document must hold a member
/// `FragmentTask`, which is returned.
pub fn locate_task(json: &[u8]) -> (r: Result<serde_json::Value, ProtocolError>)
    ensures
        r == task_in_parsed(json_document(lossy_text(json@))),
        valid_utf8(json@) ==> r == task_in_parsed(json_document(decode_utf8(json@))),
{
    let text = text_of_bytes(json);
    task_of_parsed(parse_json(text.as_str()))
}

/// Wraps the body of a message under the key of its kind. The document that
/// comes out has that one member; read back, it yields the body of a task
/// where a task went in, and no task otherwise.
pub fn wrap_message(kind: MessageKind, body: serde_json::Value) -> (document: serde_json::Value)
    ensures
        document == json_keyed(key_of(kind), body),
        json_member(document, key_of(kind)) == Some(body),
        task_in(document) == (if kind == MessageKind::Task {
            Ok::<serde_json::Value, ProtocolError>(body)
        } else {
            Err::<serde_json::Value, ProtocolError>(ProtocolError::MissingTask)
        }),
{
    proof {
        reveal_strlit("FragmentRequest");
        reveal_strlit("FragmentTask");
        reveal_strlit("FragmentResult");
        assert("FragmentRequest"@ != "FragmentTask"@) by {
            assert("FragmentRequest"@.len() != "FragmentTask"@.len());
        }
        assert("FragmentResult"@ != "FragmentTask"@) by {
            assert("FragmentResult"@.len() != "FragmentTask"@.len());
        }
    }
    keyed(kind.key(), body)
}

/// What `text_of_rendered` makes of a writer's outcome.
pub open spec fn text_in(rendered: Option<Seq<char>>, r: Result<String, ProtocolError>) -> bool {
    match rendered {
        Some(text) => r.is_ok() && r.unwrap()@ == text,
        None => r == Err::<String, ProtocolError>(ProtocolError::EncodeFailed),
    }
}

/// Reads the outcome of writing a document: the text, or the encoding
/// failure.
pub fn text_of_rendered(rendered: Result<String, serde_json::Error>) -> (r: Result<
    String,
    ProtocolError,
>)
    ensures
        text_in(
            match rendered {
                Ok(text) => Some(text@),
                Err(_) => None,
            },
            r,
        ),
{
    match rendered {
        Ok(text) => Ok(text),
        Err(_) => Err(ProtocolError::EncodeFailed),
    }
}

/// Writes the JSON text of a message: the body wrapped under the key of its
/// kind.
pub fn message_text(kind: MessageKind, body: serde_json::Value) -> (r: Result<
    String,
    ProtocolError,
>)
    ensures
        text_in(json_rendered(json_keyed(key_of(kind), body)), r),
{
    let document = wrap_message(kind, body);
    text_of_rendered(render(&document))
}

} // verus!
