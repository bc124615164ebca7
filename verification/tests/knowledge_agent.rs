use claude_mem_worker::knowledge::agent::{
    after_answer, apply_stream_frame, looks_like_session_resume_error, query_outcome,
    start_query, ClaudeInvocation, KnowledgeAgentError, QueryStep,
};
use claude_mem_worker::model::{CorpusFile, CorpusQueryResult};

#[test]
fn stream_json_frame_parser_extracts_session_and_text() {
    let mut inv = ClaudeInvocation::default();
    apply_stream_frame(
        &mut inv,
        r#"{"type":"system","session_id":"abc","subtype":"start"}"#,
    )
    .unwrap();
    apply_stream_frame(
        &mut inv,
        r#"{"type":"assistant","session_id":"abc","message":{"content":[{"type":"text","text":"hello "},{"type":"text","text":"world"}]}}"#,
    )
    .unwrap();
    apply_stream_frame(
        &mut inv,
        r#"{"type":"result","session_id":"abc","subtype":"final"}"#,
    )
    .unwrap();
    assert_eq!(inv.session_id.as_deref(), Some("abc"));
    assert_eq!(inv.assistant_text, "hello world");
}

#[test]
fn stream_json_frame_parser_ignores_unknown_blocks() {
    let mut inv = ClaudeInvocation::default();
    apply_stream_frame(
        &mut inv,
        r#"{"type":"assistant","session_id":"abc","message":{"content":[{"type":"tool_use","id":"x"}]}}"#,
    )
    .unwrap();
    assert!(inv.assistant_text.is_empty());
}

#[test]
fn session_resume_error_detection() {
    assert!(looks_like_session_resume_error("session expired"));
    assert!(looks_like_session_resume_error("Invalid session token"));
    assert!(looks_like_session_resume_error("could not resume"));
    assert!(looks_like_session_resume_error("session not found"));
    assert!(!looks_like_session_resume_error("network unavailable"));
    assert!(!looks_like_session_resume_error("rate limited"));
}

#[test]
fn non_json_stream_line_is_a_json_error() {
    let mut inv = ClaudeInvocation::default();
    let err = apply_stream_frame(&mut inv, "not json").unwrap_err();
    assert!(matches!(err, KnowledgeAgentError::Json(_)));
    assert_eq!(inv, ClaudeInvocation::default());
}

#[test]
fn error_messages_match_their_display_text() {
    assert_eq!(
        KnowledgeAgentError::NotPrimed("hooks".into()).message(),
        "corpus \"hooks\" has no session \u{2014} call prime first"
    );
    assert_eq!(
        KnowledgeAgentError::NonZeroExit { status: 1, stderr: "boom".into() }.message(),
        "agent CLI exited with status 1: boom"
    );
    assert!(KnowledgeAgentError::NonZeroExit { status: 1, stderr: "session expired".into() }
        .is_session_resume_error());
    assert!(!KnowledgeAgentError::Io("network down".into()).is_session_resume_error());
    assert!(KnowledgeAgentError::NotPrimed("x".into()).is_session_resume_error());
}

#[test]
fn failed_run_without_answer_is_an_error() {
    let inv = ClaudeInvocation {
        session_id: None,
        assistant_text: String::new(),
        stderr: "  Session expired  \n".into(),
        exit_code: 1,
    };
    match query_outcome(inv, "sess-1") {
        Err(KnowledgeAgentError::NonZeroExit { status, stderr }) => {
            assert_eq!(status, 1);
            assert_eq!(stderr, "session resume failed: Session expired");
        }
        other => panic!("unexpected {other:?}"),
    }
    let inv = ClaudeInvocation {
        session_id: None,
        assistant_text: "answer".into(),
        stderr: String::new(),
        exit_code: 2,
    };
    let ok = query_outcome(inv, "sess-1").unwrap();
    assert_eq!(ok.answer, "answer");
    assert_eq!(ok.session_id, "sess-1");
}

#[test]
fn query_steps_reprime_once_on_a_lost_session() {
    let corpus = CorpusFile::default();
    assert!(matches!(
        start_query(&corpus),
        QueryStep::Finish(Err(KnowledgeAgentError::NotPrimed(_)), None)
    ));
    let lost = KnowledgeAgentError::NonZeroExit { status: 1, stderr: "session expired".into() };
    assert_eq!(after_answer(true, "s", Err(lost.clone())), QueryStep::Reprime);
    assert_eq!(after_answer(false, "s", Err(lost.clone())), QueryStep::Finish(Err(lost), None));
    let answer = CorpusQueryResult { answer: "a".into(), session_id: "s2".into() };
    assert_eq!(
        after_answer(true, "s", Ok(answer.clone())),
        QueryStep::Finish(Ok(answer), Some("s2".into()))
    );
}
