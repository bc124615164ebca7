use claude_mem_worker::json::parse_json;
use claude_mem_worker::model::PendingMessageRow;
use claude_mem_worker::queue::{
    after_claim, after_wait, before_claim, to_pending_message_with_id, ClaimOutcome, QueueAction,
    QueueError,
};

fn message(id: i64) -> PendingMessageRow {
    PendingMessageRow {
        id,
        session_db_id: 123,
        content_session_id: "content-session".to_owned(),
        message_type: "observation".to_owned(),
        tool_name: Some("Read".to_owned()),
        tool_input: Some(parse_json(r#"{ "file": "test.ts" }"#).unwrap()),
        tool_response: Some(parse_json(r#"{ "content": "file contents" }"#).unwrap()),
        cwd: Some("/test".to_owned()),
        last_user_message: None,
        last_assistant_message: Some("assistant".to_owned()),
        prompt_number: Some(5),
        status: "pending".to_owned(),
        retry_count: 0,
        created_at_epoch: 1_704_067_200_000,
        started_processing_at_epoch: None,
        completed_at_epoch: None,
        failed_at_epoch: None,
        agent_type: None,
        agent_id: None,
    }
}

#[test]
fn claimed_message_keeps_persistent_metadata() {
    let m = to_pending_message_with_id(message(42));
    assert_eq!(m.persistent_id, 42);
    assert_eq!(m.original_timestamp, 1_704_067_200_000);
    assert_eq!(m.tool_name.as_deref(), Some("Read"));
    assert_eq!(m.prompt_number, Some(5));
    assert_eq!(m.cwd.as_deref(), Some("/test"));
}

#[test]
fn loop_decisions_follow_claims_and_waits() {
    assert_eq!(before_claim(true), QueueAction::Stop);
    assert_eq!(before_claim(false), QueueAction::Claim);
    assert_eq!(after_claim(ClaimOutcome::Message, false), QueueAction::Deliver);
    assert_eq!(after_claim(ClaimOutcome::Empty, false), QueueAction::WaitForMessage);
    assert_eq!(after_claim(ClaimOutcome::Failed, true), QueueAction::Stop);
    assert_eq!(after_claim(ClaimOutcome::Failed, false), QueueAction::Backoff);
    assert_eq!(after_wait(true, false, true), QueueAction::Claim);
    assert_eq!(after_wait(false, true, true), QueueAction::Claim);
    assert_eq!(after_wait(false, false, true), QueueAction::IdleTimeout);
    assert_eq!(after_wait(false, false, false), QueueAction::ResetActivity);
}

#[test]
fn queue_error_keeps_its_message() {
    assert_eq!(QueueError::from_message("db locked".to_owned()).message(), "db locked");
    assert_eq!(QueueError::new("x").message(), "x");
}
