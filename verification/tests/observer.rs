use claude_mem_worker::agents::observer::{
    active_session_from_row, claude_command_args, fake_output, gemini_reply_text,
    init_prompt_number, openrouter_reply_text, prompt_request, PromptRequest,
    is_first_prompt, local_file_xml, may_process_more, parse_provider_text_and_session,
    record_processed_message, session_run_stats, shell_words, timeout_secs, xml_escape,
};
use claude_mem_worker::model::{PendingMessageRow, SdkSessionRow};
use claude_mem_worker::agents::response_processor::{parse_observations, parse_summary};
use claude_mem_worker::agents::observer::local_output;
use claude_mem_worker::json::parse_json;

#[test]
fn parses_claude_json_and_stream_variants() {
    let (text, session) = parse_provider_text_and_session(
        r#"{"type":"result","session_id":"abc","result":"<observation/>"}"#,
    )
    .unwrap();
    assert_eq!(text, "<observation/>");
    assert_eq!(session.as_deref(), Some("abc"));

    let (text, session) = parse_provider_text_and_session(
        r#"{"session_id":"gemini-session","response":"<observation/>"}"#,
    )
    .unwrap();
    assert_eq!(text, "<observation/>");
    assert_eq!(session.as_deref(), Some("gemini-session"));

    let (text, session) = parse_provider_text_and_session(
        "Warning: Basic terminal detected.\n{\n  \"session_id\": \"gemini-session\",\n  \"response\": \"<observation/>\"\n}",
    )
    .unwrap();
    assert_eq!(text, "<observation/>");
    assert_eq!(session.as_deref(), Some("gemini-session"));

    let (text, session) = parse_provider_text_and_session(
        r#"{"type":"system","session_id":"stream-1"}
{"type":"assistant","message":{"content":"<summary/>"}}"#,
    )
    .unwrap();
    assert_eq!(text, "<summary/>");
    assert!(session.is_none());
}

#[test]
fn parses_quoted_claude_args() {
    assert_eq!(
        shell_words(r#"-p --output-format json --tools "" --permission-mode dontAsk"#),
        vec![
            "-p",
            "--output-format",
            "json",
            "--tools",
            "",
            "--permission-mode",
            "dontAsk"
        ]
    );
}

#[test]
fn blank_provider_output_gives_nothing_and_plain_text_is_kept() {
    assert!(parse_provider_text_and_session("   \n").is_none());
    let (text, session) = parse_provider_text_and_session("just words").unwrap();
    assert_eq!(text, "just words");
    assert!(session.is_none());
}

#[test]
fn openai_style_choices_carry_the_reply() {
    let (text, session) = parse_provider_text_and_session(
        r#"{"choices":[{"message":{"content":"<observation/>"}}],"sessionId":"s-9"}"#,
    )
    .unwrap();
    assert_eq!(text, "<observation/>");
    assert_eq!(session.as_deref(), Some("s-9"));
}

#[test]
fn xml_escape_replaces_markup_characters() {
    assert_eq!(xml_escape("a<b>&c"), "a&lt;b&gt;&amp;c");
    assert_eq!(xml_escape("plain"), "plain");
}

#[test]
fn local_file_lists_depend_on_the_tool() {
    let input = parse_json(r#"{"file_path":"src/a<b>.rs"}"#).unwrap();
    let (read, modified) = local_file_xml("Read", Some(&input));
    assert_eq!(read, "<files_read><file>src/a&lt;b&gt;.rs</file></files_read>");
    assert_eq!(modified, "");
    let (read, modified) = local_file_xml("Edit", Some(&input));
    assert_eq!(read, "");
    assert_eq!(modified, "<files_modified><file>src/a&lt;b&gt;.rs</file></files_modified>");
    assert_eq!(local_file_xml("Read", None), (String::new(), String::new()));
}

fn session_row() -> SdkSessionRow {
    SdkSessionRow {
        id: 7,
        content_session_id: "content-1".to_owned(),
        memory_session_id: Some("memory-1".to_owned()),
        project: "demo".to_owned(),
        user_prompt: Some("fix the bug".to_owned()),
        started_at: "2024-01-01T00:00:00Z".to_owned(),
        started_at_epoch: 1_704_067_200_000,
        completed_at: None,
        completed_at_epoch: None,
        status: "active".to_owned(),
        worker_port: None,
        prompt_counter: 1,
        custom_title: None,
        platform_source: "assistant".to_owned(),
    }
}

#[test]
fn claude_arguments_add_format_resume_and_model() {
    let args = claude_command_args("-p --tools \"\"", Some("sess-1"), Some("haiku"), "PROMPT");
    assert_eq!(
        args,
        vec![
            "-p", "--tools", "", "--output-format", "json", "--resume", "sess-1", "--model",
            "haiku", "PROMPT"
        ]
    );
}

#[test]
fn claude_arguments_keep_a_chosen_format_and_resume() {
    let args = claude_command_args(
        "-p --output-format=stream-json -r old",
        Some("sess-1"),
        None,
        "PROMPT",
    );
    assert_eq!(args, vec!["-p", "--output-format=stream-json", "-r", "old", "PROMPT"]);
}

#[test]
fn run_statistics_count_messages_observations_and_summaries() {
    let mut stats = session_run_stats(42);
    assert_eq!(stats.sessions_started, 1);
    assert_eq!(stats.started_session_ids, vec![42]);
    record_processed_message(&mut stats, 2, true, vec![10, 11]);
    record_processed_message(&mut stats, 0, false, vec![]);
    assert_eq!(stats.messages_processed, 2);
    assert_eq!(stats.observations_inserted, 2);
    assert_eq!(stats.summaries_inserted, 1);
    assert_eq!(stats.observation_ids, vec![10, 11]);
    assert!(may_process_more(1, 2));
    assert!(!may_process_more(2, 2));
}

#[test]
fn prompt_numbers_start_at_one() {
    assert_eq!(init_prompt_number(None), 1);
    assert_eq!(init_prompt_number(Some(4)), 4);
    assert!(is_first_prompt(1));
    assert!(!is_first_prompt(2));
}

#[test]
fn fake_and_session_outputs_carry_the_session() {
    let row = session_row();
    let out = fake_output(&row, Some("m".to_owned()), None);
    assert_eq!(out.provider, "Fake");
    assert_eq!(out.memory_session_id.as_deref(), Some("fake-memory:content-1"));
    let configured = fake_output(&row, None, Some("<observation/>".to_owned()));
    assert_eq!(configured.text, "<observation/>");
    let active = active_session_from_row(&row);
    assert_eq!(active.session_db_id, 7);
    assert_eq!(active.memory_session_id.as_deref(), Some("memory-1"));
    assert!(active.conversation_history.is_empty());
}

#[test]
fn provider_timeouts_take_positive_numbers_only() {
    assert_eq!(timeout_secs(Some("30"), 120), 30);
    assert_eq!(timeout_secs(Some("0"), 120), 120);
    assert_eq!(timeout_secs(Some("soon"), 120), 120);
    assert_eq!(timeout_secs(None, 120), 120);
}

#[test]
fn gemini_and_chat_completion_replies() {
    let gemini = parse_json(
        r#"{"candidates":[{"content":{"parts":[{"text":"a"},{"inline":1},{"text":"b"}]}}]}"#,
    )
    .unwrap();
    assert_eq!(gemini_reply_text(&gemini), "a\nb");
    assert_eq!(gemini_reply_text(&parse_json(r#"{"candidates":[]}"#).unwrap()), "");
    let chat = parse_json(r#"{"choices":[{"message":{"content":"hello"}}]}"#).unwrap();
    assert_eq!(openrouter_reply_text(&chat), "hello");
    assert_eq!(openrouter_reply_text(&parse_json("{}").unwrap()), "");
}

fn pending(message_type: &str, tool_name: Option<&str>) -> PendingMessageRow {
    PendingMessageRow {
        id: 1,
        session_db_id: 7,
        content_session_id: "content-1".to_owned(),
        message_type: message_type.to_owned(),
        tool_name: tool_name.map(str::to_owned),
        tool_input: None,
        tool_response: None,
        cwd: Some("/work".to_owned()),
        last_user_message: None,
        last_assistant_message: None,
        prompt_number: None,
        status: "pending".to_owned(),
        retry_count: 0,
        created_at_epoch: 99,
        started_processing_at_epoch: None,
        completed_at_epoch: None,
        failed_at_epoch: None,
        agent_type: None,
        agent_id: None,
    }
}

#[test]
fn queued_messages_ask_for_a_summary_or_an_observation() {
    let row = session_row();
    match prompt_request(&row, &pending("summarize", None)) {
        PromptRequest::Summary {
            session_db_id,
            project,
            user_prompt,
            last_assistant_message,
            ..
        } => {
            assert_eq!(session_db_id, 7);
            assert_eq!(project, "demo");
            assert_eq!(user_prompt, "fix the bug");
            assert_eq!(last_assistant_message, "");
        }
        other => panic!("unexpected {other:?}"),
    }
    assert_eq!(
        prompt_request(&row, &pending("observation", None)),
        PromptRequest::Observation {
            tool_name: "Tool".to_owned(),
            created_at_epoch: 99,
            cwd: Some("/work".to_owned()),
        }
    );
}

#[test]
fn fake_observer_reply_parses_into_one_observation() {
    let out = fake_output(&session_row(), None, None);
    let parsed = parse_observations(&out.text);
    assert_eq!(parsed.len(), 1);
    assert_eq!(parsed[0].observation_type, "discovery");
    assert_eq!(parsed[0].title.as_deref(), Some("Fake observer response"));
    assert_eq!(parsed[0].facts, vec!["fake runner produced memory"]);
    assert_eq!(parsed[0].concepts, vec!["fake"]);
}

#[test]
fn local_observer_replies_parse_back() {
    let row = session_row();
    let mut message = pending("observation", Some("Edit"));
    message.tool_input = Some(parse_json(r#"{"file_path":"src/a<b>.rs"}"#).unwrap());
    let out = local_output(&row, Some(&message), None, r#"{"file_path":"src/a<b>.rs"}"#, "{}");
    let parsed = parse_observations(&out.text);
    assert_eq!(parsed.len(), 1);
    assert_eq!(parsed[0].title.as_deref(), Some("Edit tool use"));
    assert_eq!(parsed[0].subtitle.as_deref(), Some("Assistant PostToolUse"));
    assert_eq!(parsed[0].concepts, vec!["assistant-code", "tool-use"]);
    assert!(parsed[0].files_read.is_empty());
    assert_eq!(parsed[0].files_modified.len(), 1);

    let mut summary = pending("summarize", None);
    summary.last_assistant_message = Some("done & dusted".to_owned());
    let out = local_output(&row, Some(&summary), None, "{}", "{}");
    let parsed = parse_summary(&out.text).unwrap();
    assert_eq!(parsed.request.as_deref(), Some("fix the bug"));
    assert_eq!(parsed.completed.as_deref(), Some("Stored by the local observer."));
    assert!(local_output(&row, None, None, "{}", "{}").text.is_empty());
}
