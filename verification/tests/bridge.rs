use bot_bridge::credential::{BotState, CredentialStore};
use bot_bridge::dispatch::{dispatch, response_status, DispatchOutcome};
use bot_bridge::events::{BotEvent, BotEventHeader, EventType};
use bot_bridge::pipeline::{
    pipeline_step, PipelineAction, PipelineEvent, PipelineState, ReplyTask,
};
use bot_bridge::refresher::{
    apply_refresh, refresh_delay, refresh_step, TokenResponse, FAILED_REFRESH_RETRY_SECS,
};

fn message_envelope(event_type: &str, payload: &str) -> BotEvent {
    let event: serde_json::Value = serde_json::from_str(payload).unwrap();
    BotEvent {
        header: BotEventHeader {
            event_type: event_type.to_string(),
        },
        event,
    }
}

#[test]
fn recognizes_message_receive_tag() {
    let tag = "im.message.receive".to_string();
    assert!(matches!(
        EventType::from_tag(&tag),
        Some(EventType::IMMessageReceive)
    ));
    let other = "some.unknown.event".to_string();
    assert!(EventType::from_tag(&other).is_none());
}

#[test]
fn unknown_event_type_is_ignored_with_success() {
    let envelope = message_envelope(
        "some.unknown.event",
        r#"{"message":{"message_id":"om_1","content":"hello"}}"#,
    );
    let snapshot = BotState::initial("sk-test".to_string());
    let outcome = dispatch(&envelope, snapshot);
    assert!(matches!(outcome, DispatchOutcome::Ignored));
    assert_eq!(response_status(&outcome), 200);
}

#[test]
fn malformed_recognized_payload_is_a_failure() {
    let envelope = message_envelope("im.message.receive", r#"{"message":"not an object"}"#);
    let snapshot = BotState::initial("sk-test".to_string());
    let outcome = dispatch(&envelope, snapshot);
    assert!(matches!(outcome, DispatchOutcome::Malformed));
    assert_eq!(response_status(&outcome), 500);
}

#[test]
fn missing_content_is_a_failure() {
    let envelope = message_envelope("im.message.receive", r#"{"message":{"message_id":"om_1"}}"#);
    let snapshot = BotState::initial("sk-test".to_string());
    let outcome = dispatch(&envelope, snapshot);
    assert!(matches!(outcome, DispatchOutcome::Malformed));
    assert_eq!(response_status(&outcome), 500);
}

#[test]
fn well_formed_message_spawns_one_task() {
    let envelope = message_envelope(
        "im.message.receive",
        r#"{"message":{"message_id":"om_1","content":"hello"}}"#,
    );
    let snapshot = BotState::initial("sk-test".to_string());
    let outcome = dispatch(&envelope, snapshot);
    assert_eq!(response_status(&outcome), 200);
    match outcome {
        DispatchOutcome::Spawn(task) => {
            assert_eq!(task.message_id, "om_1");
            assert_eq!(task.content, "hello");
            assert_eq!(task.snapshot.openai_key, "sk-test");
        }
        _ => panic!("expected a spawned reply task"),
    }
}

#[test]
fn end_to_end_message_receive() {
    let store = CredentialStore::new("sk-test".to_string());
    apply_refresh(
        &store,
        Some(TokenResponse {
            access_token: "t-123".to_string(),
            expires_in: 7200,
        }),
    );

    let envelope = message_envelope(
        "im.message.receive",
        r#"{"message":{"message_id":"om_1","content":"hello"}}"#,
    );
    let outcome = dispatch(&envelope, store.read());
    let task = match outcome {
        DispatchOutcome::Spawn(task) => task,
        _ => panic!("expected a spawned reply task"),
    };
    assert_eq!(task.message_id, "om_1");
    assert_eq!(task.content, "hello");

    let (state, action) = pipeline_step(&task, PipelineState::Start, PipelineEvent::Begin);
    assert!(matches!(state, PipelineState::AwaitingCompletion));
    match action {
        PipelineAction::RequestCompletion { content, api_key } => {
            assert_eq!(content, "hello");
            assert_eq!(api_key, "sk-test");
        }
        _ => panic!("expected a completion request first"),
    }

    let (state, action) = pipeline_step(
        &task,
        state,
        PipelineEvent::CompletionSucceeded("generated reply".to_string()),
    );
    assert!(matches!(state, PipelineState::AwaitingSend));
    match action {
        PipelineAction::SendReply {
            message_id,
            text,
            access_token,
        } => {
            assert_eq!(message_id, "om_1");
            assert_eq!(text, "generated reply");
            assert_eq!(access_token, "t-123");
        }
        _ => panic!("expected the reply send after the completion"),
    }

    let (state, action) = pipeline_step(&task, state, PipelineEvent::SendSucceeded);
    assert!(matches!(state, PipelineState::Finished));
    assert!(matches!(action, PipelineAction::Stop));
}

#[test]
fn completion_failure_ends_pipeline_without_reply() {
    let task = ReplyTask {
        message_id: "om_9".to_string(),
        content: "hi".to_string(),
        snapshot: BotState::initial("sk-test".to_string()),
    };
    let (state, _) = pipeline_step(&task, PipelineState::Start, PipelineEvent::Begin);
    let (state, action) = pipeline_step(&task, state, PipelineEvent::CompletionFailed);
    assert!(matches!(state, PipelineState::Finished));
    assert!(matches!(action, PipelineAction::Stop));
}

#[test]
fn concurrent_pipelines_do_not_order_each_other() {
    let snapshot_a = BotState::initial("sk-test".to_string());
    let snapshot_b = BotState::initial("sk-test".to_string());
    let task_a = ReplyTask {
        message_id: "om_a".to_string(),
        content: "first".to_string(),
        snapshot: snapshot_a,
    };
    let task_b = ReplyTask {
        message_id: "om_b".to_string(),
        content: "second".to_string(),
        snapshot: snapshot_b,
    };

    // Interleave the two pipelines both ways round: each step depends on
    // its own task alone, so each pipeline sees the same actions.
    let (state_a, action_a1) = pipeline_step(&task_a, PipelineState::Start, PipelineEvent::Begin);
    let (state_b, action_b1) = pipeline_step(&task_b, PipelineState::Start, PipelineEvent::Begin);
    let (_, action_b2) = pipeline_step(
        &task_b,
        state_b,
        PipelineEvent::CompletionSucceeded("reply b".to_string()),
    );
    let (_, action_a2) = pipeline_step(
        &task_a,
        state_a,
        PipelineEvent::CompletionSucceeded("reply a".to_string()),
    );

    match action_a1 {
        PipelineAction::RequestCompletion { content, .. } => assert_eq!(content, "first"),
        _ => panic!("expected a completion request"),
    }
    match action_b1 {
        PipelineAction::RequestCompletion { content, .. } => assert_eq!(content, "second"),
        _ => panic!("expected a completion request"),
    }
    match action_a2 {
        PipelineAction::SendReply {
            message_id, text, ..
        } => {
            assert_eq!(message_id, "om_a");
            assert_eq!(text, "reply a");
        }
        _ => panic!("expected a reply send"),
    }
    match action_b2 {
        PipelineAction::SendReply {
            message_id, text, ..
        } => {
            assert_eq!(message_id, "om_b");
            assert_eq!(text, "reply b");
        }
        _ => panic!("expected a reply send"),
    }
}

#[test]
fn store_starts_unauthenticated() {
    let store = CredentialStore::new("sk-test".to_string());
    let snapshot = store.read();
    assert_eq!(snapshot.openai_key, "sk-test");
    assert_eq!(snapshot.access_token, "");
}

#[test]
fn reads_after_refresh_return_the_new_token() {
    let store = CredentialStore::new("sk-test".to_string());
    let directive = apply_refresh(
        &store,
        Some(TokenResponse {
            access_token: "t-1".to_string(),
            expires_in: 7200,
        }),
    );
    assert!(directive.keep_running);
    assert_eq!(directive.next_delay_secs, 3600);
    assert_eq!(store.read().access_token, "t-1");
    assert_eq!(store.read().access_token, "t-1");

    apply_refresh(
        &store,
        Some(TokenResponse {
            access_token: "t-2".to_string(),
            expires_in: 100,
        }),
    );
    assert_eq!(store.read().access_token, "t-2");
}

#[test]
fn failed_refresh_keeps_token_and_loop() {
    let store = CredentialStore::new("sk-test".to_string());
    apply_refresh(
        &store,
        Some(TokenResponse {
            access_token: "t-1".to_string(),
            expires_in: 7200,
        }),
    );
    let directive = apply_refresh(&store, None);
    assert!(directive.keep_running);
    assert_eq!(directive.next_delay_secs, FAILED_REFRESH_RETRY_SECS);
    assert_eq!(store.read().access_token, "t-1");
    assert_eq!(store.read().openai_key, "sk-test");
}

#[test]
fn refresh_step_installs_or_keeps() {
    let mut state = BotState::initial("sk-test".to_string());
    let directive = refresh_step(
        &mut state,
        Some(TokenResponse {
            access_token: "t-1".to_string(),
            expires_in: 7200,
        }),
    );
    assert!(directive.keep_running);
    assert_eq!(directive.next_delay_secs, 3600);
    assert_eq!(state.access_token, "t-1");
    assert_eq!(state.openai_key, "sk-test");

    let directive = refresh_step(&mut state, None);
    assert!(directive.keep_running);
    assert_eq!(directive.next_delay_secs, FAILED_REFRESH_RETRY_SECS);
    assert_eq!(state.access_token, "t-1");
    assert_eq!(state.openai_key, "sk-test");
}

#[test]
fn refresh_delay_is_half_the_validity_window() {
    assert_eq!(refresh_delay(7200), 3600);
    assert_eq!(refresh_delay(1), 0);
    assert_eq!(refresh_delay(0), 0);
}

#[test]
fn overlapping_reads_see_one_value() {
    let store = CredentialStore::new("sk-test".to_string());
    apply_refresh(
        &store,
        Some(TokenResponse {
            access_token: "t-1".to_string(),
            expires_in: 7200,
        }),
    );
    let (a, b) = store.overlapping_reads_agree();
    assert_eq!(a.access_token, b.access_token);
    assert_eq!(a.openai_key, b.openai_key);
    assert_eq!(a.access_token, "t-1");
}
