//! The event dispatcher: a state machine over the envelope's type tag.
//! A recognized tag has its payload read and handed to a detached reply
//! task; an unrecognized tag is not an error and still answers success; a
//! recognized tag over a malformed payload is a request-level failure.

use vstd::prelude::*;

use crate::credential::BotState;
use crate::events::{
    BotEvent, EventType, IMMessageReceiveEvent, content_of, message_id_of, message_receive_tag,
    parse_im_message_receive, well_formed_message,
};
use crate::pipeline::ReplyTask;

verus! {

/// What dispatch decided for one envelope. Dispatch itself never blocks
/// the response: a spawned task runs detached, and its outcome is not
/// awaited by the request path.
pub enum DispatchOutcome {
    /// Recognized tag, well-formed payload: exactly this reply task is
    /// spawned.
    Spawn(ReplyTask),
    /// Unrecognized tag: logged as a warning, no handler runs, and the
    /// request still succeeds.
    Ignored,
    /// Recognized tag whose payload did not honor the shape the tag
    /// promised: a request-level failure.
    Malformed,
}

/// The HTTP status the front door answers with: success for a spawned
/// task and for an ignored unknown tag, a server error only for a
/// malformed recognized-type payload.
pub fn response_status(outcome: &DispatchOutcome) -> (r: u16)
    ensures
        (r == 200) <==> !(outcome is Malformed),
        outcome is Malformed ==> r == 500,
{
    match outcome {
        DispatchOutcome::Malformed => 500,
        _ => 200,
    }
}

/// The reply task for a well-formed message-receive event: it carries
/// exactly the message's id and content, and the credential snapshot
/// taken at dispatch time.
pub fn reply_task_for(event: IMMessageReceiveEvent, snapshot: BotState) -> (r: ReplyTask)
    ensures
        r.message_id == event.message.message_id,
        r.content == event.message.content,
        r.snapshot == snapshot,
{
    ReplyTask {
        message_id: event.message.message_id,
        content: event.message.content,
        snapshot,
    }
}

/// Route one envelope. An unrecognized tag is ignored, and only then; a
/// recognized tag leads to exactly one spawned task — carrying the
/// payload's message id and content and the given snapshot — when the
/// payload honors the shape its tag promised, and to a malformed-payload
/// failure when and only when it does not. The payload is read only after
/// the tag matched: an unrecognized envelope promises no payload shape
/// and is never parsed as one.
pub fn dispatch(event: &BotEvent, snapshot: BotState) -> (r: DispatchOutcome)
    ensures
        (r is Ignored) <==> event.header.event_type@ != message_receive_tag(),
        event.header.event_type@ == message_receive_tag() ==> ((r is Spawn)
            <==> well_formed_message(event.event)),
        (r is Malformed) <==> (event.header.event_type@ == message_receive_tag()
            && !well_formed_message(event.event)),
        r matches DispatchOutcome::Spawn(task) ==> task.snapshot == snapshot && Some(
            task.message_id@,
        ) == message_id_of(event.event) && Some(task.content@) == content_of(event.event),
{
    match EventType::from_tag(&event.header.event_type) {
        Some(EventType::IMMessageReceive) => {
            match parse_im_message_receive(&event.event) {
                Some(message_event) => DispatchOutcome::Spawn(
                    reply_task_for(message_event, snapshot),
                ),
                None => DispatchOutcome::Malformed,
            }
        },
        None => DispatchOutcome::Ignored,
    }
}

} // verus!
