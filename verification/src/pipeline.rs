//! The reply pipeline: one detached task per dispatched message. Its two
//! outside calls — request a completion, then post the reply — are pure
//! I/O, so the pipeline is a transition function from state and event to
//! the next state and the action to perform; an outer loop performs each
//! action and hands the outcome back.

use vstd::prelude::*;

use crate::credential::BotState;

verus! {

/// One unit of reply work: the message's id and text, and the credential
/// snapshot taken at dispatch time. Tasks share no mutable state, so
/// pipelines for different messages never order or block one another.
pub struct ReplyTask {
    pub message_id: String,
    pub content: String,
    pub snapshot: BotState,
}

/// Where one pipeline stands.
pub enum PipelineState {
    /// Nothing performed yet.
    Start,
    /// The completion request was issued; its outcome is awaited.
    AwaitingCompletion,
    /// The reply post was issued; its outcome is awaited.
    AwaitingSend,
    /// The pipeline is over, with or without a reply having been sent.
    Finished,
}

/// What the outer loop reports back to the pipeline.
pub enum PipelineEvent {
    /// The task was just spawned.
    Begin,
    /// The completion provider answered with the generated reply text.
    CompletionSucceeded(String),
    /// The completion call failed (logged by the loop; no retry).
    CompletionFailed,
    /// The reply post succeeded.
    SendSucceeded,
    /// The reply post failed (logged by the loop; no retry).
    SendFailed,
}

/// What the outer loop must perform next.
pub enum PipelineAction {
    /// Ask the completion provider for a reply to `content`, under the
    /// process's static API key.
    RequestCompletion { content: String, api_key: String },
    /// Post `text` into the conversation of `message_id`, under the
    /// access token of the dispatch-time snapshot.
    SendReply { message_id: String, text: String, access_token: String },
    /// Nothing is left to do.
    Stop,
}

/// Which events the protocol can deliver in which state: `Begin` only at
/// the start, a completion outcome only while one is awaited, a send
/// outcome only while one is awaited; nothing after the end.
pub open spec fn event_fits(state: PipelineState, event: PipelineEvent) -> bool {
    match state {
        PipelineState::Start => event is Begin,
        PipelineState::AwaitingCompletion => event is CompletionSucceeded || event is CompletionFailed,
        PipelineState::AwaitingSend => event is SendSucceeded || event is SendFailed,
        PipelineState::Finished => false,
    }
}

/// The transition function as a mathematical map. It reads nothing but
/// the task's own fields, so the steps of one pipeline are fixed by that
/// task and its events alone, however other pipelines are interleaved.
pub open spec fn step_spec(
    task: ReplyTask,
    state: PipelineState,
    event: PipelineEvent,
) -> (PipelineState, PipelineAction) {
    match event {
        PipelineEvent::Begin => (
            PipelineState::AwaitingCompletion,
            PipelineAction::RequestCompletion {
                content: task.content,
                api_key: task.snapshot.openai_key,
            },
        ),
        PipelineEvent::CompletionSucceeded(text) => (
            PipelineState::AwaitingSend,
            PipelineAction::SendReply {
                message_id: task.message_id,
                text,
                access_token: task.snapshot.access_token,
            },
        ),
        PipelineEvent::CompletionFailed => (PipelineState::Finished, PipelineAction::Stop),
        PipelineEvent::SendSucceeded => (PipelineState::Finished, PipelineAction::Stop),
        PipelineEvent::SendFailed => (PipelineState::Finished, PipelineAction::Stop),
    }
}

/// One pipeline step: from the current state and the loop's event to the
/// next state and the action to perform. The completion is requested with
/// the task's content and the snapshot's API key; the reply is sent with
/// the task's message id, the completion's text and the snapshot's access
/// token; either failure ends the pipeline without a reply and without a
/// retry.
pub fn pipeline_step(task: &ReplyTask, state: PipelineState, event: PipelineEvent) -> (r: (
    PipelineState,
    PipelineAction,
))
    requires
        event_fits(state, event),
    ensures
        r == step_spec(*task, state, event),
{
    match event {
        PipelineEvent::Begin => (
            PipelineState::AwaitingCompletion,
            PipelineAction::RequestCompletion {
                content: task.content.clone(),
                api_key: task.snapshot.openai_key.clone(),
            },
        ),
        PipelineEvent::CompletionSucceeded(text) => (
            PipelineState::AwaitingSend,
            PipelineAction::SendReply {
                message_id: task.message_id.clone(),
                text,
                access_token: task.snapshot.access_token.clone(),
            },
        ),
        PipelineEvent::CompletionFailed => (PipelineState::Finished, PipelineAction::Stop),
        PipelineEvent::SendSucceeded => (PipelineState::Finished, PipelineAction::Stop),
        PipelineEvent::SendFailed => (PipelineState::Finished, PipelineAction::Stop),
    }
}

/// The reply post never precedes the completion: the only step that emits
/// a send action is the one fed by a successful completion outcome, and
/// the text it sends is exactly that completion's text.
pub proof fn lemma_send_follows_completion(
    task: ReplyTask,
    state: PipelineState,
    event: PipelineEvent,
)
    requires
        event_fits(state, event),
        step_spec(task, state, event).1 is SendReply,
    ensures
        state is AwaitingCompletion,
        event matches PipelineEvent::CompletionSucceeded(text)
            && step_spec(task, state, event).1 == (PipelineAction::SendReply {
            message_id: task.message_id,
            text,
            access_token: task.snapshot.access_token,
        }),
{
}

/// Pipelines are independent: a step is a function of its own task's
/// fields, state and event alone, so two tasks carrying the same message
/// and snapshot step identically, whatever else runs beside them.
pub proof fn lemma_step_determined_by_own_task(
    t1: ReplyTask,
    t2: ReplyTask,
    state: PipelineState,
    event: PipelineEvent,
)
    requires
        t1.message_id == t2.message_id,
        t1.content == t2.content,
        t1.snapshot == t2.snapshot,
    ensures
        step_spec(t1, state, event) == step_spec(t2, state, event),
{
}

} // verus!
