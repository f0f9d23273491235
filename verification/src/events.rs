//! Inbound event envelopes: the event-type tag, the one recognized event
//! kind (message receive), and the reading of its payload out of the
//! envelope's opaque JSON value.

use vstd::prelude::*;

verus! {

/// serde_json's JSON value, carried opaquely through the envelope: the
/// payload's shape is promised only by the event-type tag, so the value
/// itself stays uninterpreted until the tag is matched.
#[verifier::external_type_specification]
#[verifier::external_body]
pub struct ExValue(serde_json::Value);

/// What serde_json::Value::get returns for a string key: a function of
/// the value and the key alone.
pub uninterp spec fn json_get(v: serde_json::Value, key: Seq<char>) -> Option<serde_json::Value>;

/// What serde_json::Value::as_str returns: the characters of a JSON
/// string value, `None` for every other kind. A function of the value
/// alone.
pub uninterp spec fn json_str(v: serde_json::Value) -> Option<Seq<char>>;

/// Relies on serde_json::Value::get: looks a key up in a JSON object and
/// returns `None` when the value is no object or the key is absent. The
/// lookup reads nothing but the value and the key, so its result is
/// `json_get` of them.
#[verifier::external_body]
fn value_get<'a>(v: &'a serde_json::Value, key: &str) -> (r: Option<&'a serde_json::Value>)
    ensures
        r matches Some(inner) ==> json_get(*v, key@) == Some(*inner),
        r is None ==> json_get(*v, key@) is None,
{
    v.get(key)
}

/// Relies on serde_json::Value::as_str: the content of a JSON string
/// value, `None` for every other kind of value. The read depends on the
/// value alone, so its result is `json_str` of it; the wrapper only turns
/// the borrowed `str` into an owned `String`.
#[verifier::external_body]
fn value_as_string(v: &serde_json::Value) -> (r: Option<String>)
    ensures
        r matches Some(s) ==> json_str(*v) == Some(s@),
        r is None ==> json_str(*v) is None,
{
    match v.as_str() {
        Some(s) => Some(s.to_owned()),
        None => None,
    }
}

/// The tag of the one envelope kind this bot implements.
pub open spec fn message_receive_tag() -> Seq<char> {
    "im.message.receive"@
}

/// The known event types. An envelope's payload shape is determined
/// solely by its tag; unrecognized tags promise nothing of the payload.
pub enum EventType {
    IMMessageReceive,
}

impl EventType {
    /// Recognize an event-type tag; `None` for any tag the bot does not
    /// implement, which is not an error.
    pub fn from_tag(tag: &String) -> (r: Option<EventType>)
        ensures
            r == Some(EventType::IMMessageReceive) <==> tag@ == message_receive_tag(),
            r is None <==> tag@ != message_receive_tag(),
    {
        let known: String = "im.message.receive".to_owned();
        if *tag == known {
            Some(EventType::IMMessageReceive)
        } else {
            None
        }
    }
}

/// The payload of a message-receive event: the message's id and its text.
pub struct IMMessage {
    pub message_id: String,
    pub content: String,
}

/// A message-receive event, consumed exactly once by the reply pipeline.
pub struct IMMessageReceiveEvent {
    pub message: IMMessage,
}

/// The header of an inbound webhook envelope: the event-type tag.
pub struct BotEventHeader {
    pub event_type: String,
}

/// An inbound webhook envelope: a tagged header and an opaque payload.
pub struct BotEvent {
    pub header: BotEventHeader,
    pub event: serde_json::Value,
}

/// The message id a payload carries: the string under
/// `message.message_id`, when the payload holds one.
pub open spec fn message_id_of(event: serde_json::Value) -> Option<Seq<char>> {
    match json_get(event, "message"@) {
        Some(message) => match json_get(message, "message_id"@) {
            Some(id) => json_str(id),
            None => None,
        },
        None => None,
    }
}

/// The message text a payload carries: the string under
/// `message.content`, when the payload holds one.
pub open spec fn content_of(event: serde_json::Value) -> Option<Seq<char>> {
    match json_get(event, "message"@) {
        Some(message) => match json_get(message, "content"@) {
            Some(content) => json_str(content),
            None => None,
        },
        None => None,
    }
}

/// A payload honors the message-receive shape: it holds both
/// `message.message_id` and `message.content` as JSON strings.
pub open spec fn well_formed_message(event: serde_json::Value) -> bool {
    message_id_of(event) is Some && content_of(event) is Some
}

/// Read a message-receive payload out of the opaque envelope value. It
/// succeeds exactly on payloads that honor the message-receive shape, and
/// the event it returns carries exactly the payload's id and content.
pub(crate) fn parse_im_message_receive(event: &serde_json::Value) -> (r: Option<
    IMMessageReceiveEvent,
>)
    ensures
        r is Some <==> well_formed_message(*event),
        r matches Some(e) ==> Some(e.message.message_id@) == message_id_of(*event) && Some(
            e.message.content@,
        ) == content_of(*event),
{
    let message = match value_get(event, "message") {
        Some(m) => m,
        None => return None,
    };
    let id_value = match value_get(message, "message_id") {
        Some(v) => v,
        None => return None,
    };
    let content_value = match value_get(message, "content") {
        Some(v) => v,
        None => return None,
    };
    let message_id = match value_as_string(id_value) {
        Some(s) => s,
        None => return None,
    };
    let content = match value_as_string(content_value) {
        Some(s) => s,
        None => return None,
    };
    Some(IMMessageReceiveEvent { message: IMMessage { message_id, content } })
}

} // verus!
