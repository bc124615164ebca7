use std::collections::HashMap;

use claude_mem_worker::agents::response_processor::ParsedSummary;
use claude_mem_worker::http::routes::{
    check_timeline_anchor, context_projects, generated_memory_session_id, has_summary_markup,
    join_context_sections, manual_observation, memory_save_plan, memory_saved_message,
    needs_generated_summary, new_session_project, observation_decision,
    require_content_session_id, search_query_text, search_strategy_label, select_sessions,
    session_init_defaults, session_init_response, summarize_source, summary_input_from_parsed,
    timeline_anchor, timeline_anchor_from_search, timeline_ids, vector_search_outcome,
    legacy_prompt, legacy_prompt_number, queue_status_counts, reindex_limit, semantic_query,
    wants_text_format, ObservationDecision,
};
use claude_mem_worker::json::parse_json;
use claude_mem_worker::model::SessionSummaryRow;
use claude_mem_worker::search::strategies::{DateRange, StrategySearchOptions};

fn args(pairs: &[(&str, &str)]) -> HashMap<String, String> {
    pairs.iter().map(|(k, v)| (k.to_string(), v.to_string())).collect()
}

#[test]
fn session_requests_need_a_content_session_id() {
    let err = require_content_session_id("   ").unwrap_err();
    assert_eq!(err.status, 400);
    assert_eq!(err.message, "contentSessionId is required");
    assert!(require_content_session_id("abc").is_ok());
}

#[test]
fn session_start_defaults_and_private_prompts() {
    let (project, prompt) = session_init_defaults(None, None);
    assert_eq!(project, "unknown");
    assert_eq!(prompt, "[media prompt]");
    let (project, prompt) = session_init_defaults(Some("p".into()), Some("hi".into()));
    assert_eq!((project.as_str(), prompt.as_str()), ("p", "hi"));

    let private = session_init_response(5, 2, "", true);
    assert_eq!(private.prompt_number, 3);
    assert!(private.skipped);
    assert_eq!(private.reason, Some("private"));
    assert!(!private.context_injected);

    let public = session_init_response(5, 0, "hello", true);
    assert_eq!(public.session_db_id, 5);
    assert_eq!(public.prompt_number, 1);
    assert!(!public.skipped);
    assert_eq!(public.reason, None);
    assert!(public.context_injected);
    assert!(!session_init_response(5, 0, "hello", false).context_injected);
}

#[test]
fn tool_uses_are_rejected_skipped_or_accepted() {
    assert!(matches!(
        observation_decision("", Some("Read")),
        ObservationDecision::Reject(e) if e.status == 400
    ));
    assert_eq!(observation_decision("s", None), ObservationDecision::Skip);
    assert_eq!(observation_decision("s", Some("  ")), ObservationDecision::Skip);
    assert_eq!(
        observation_decision("s", Some("Read")),
        ObservationDecision::Accept("Read".to_owned())
    );
    assert_eq!(new_session_project(None), "unknown");
    assert_eq!(new_session_project(Some("/home/me/work/demo")), "demo");
    assert_eq!(new_session_project(Some("demo")), "demo");
    assert_eq!(new_session_project(Some("/")), "unknown");
}

#[test]
fn summaries_come_from_markup_or_are_generated() {
    assert_eq!(
        summarize_source(Some("a".into()), Some("b".into())),
        Some("a".to_owned())
    );
    assert_eq!(summarize_source(None, Some("b".into())), Some("b".to_owned()));
    assert!(has_summary_markup(Some("x <summary>y</summary>")));
    assert!(has_summary_markup(Some("<skip_summary reason=\"none\"/>")));
    assert!(!has_summary_markup(Some("plain text")));
    assert!(!has_summary_markup(None));
    assert!(needs_generated_summary(Some("m"), 0));
    assert!(!needs_generated_summary(Some("m"), 1));
    assert!(!needs_generated_summary(None, 0));
    assert_eq!(generated_memory_session_id("abc"), "rust-local-memory:abc");

    let parsed = ParsedSummary {
        request: None,
        investigated: Some("i".into()),
        learned: Some("l".into()),
        completed: None,
        next_steps: None,
        notes: Some("n".into()),
    };
    let input = summary_input_from_parsed(
        parsed,
        "mem".into(),
        "proj".into(),
        Some("latest prompt".into()),
        Some(3),
        "2024-01-01T00:00:00Z".into(),
        1_704_067_200_000,
    );
    assert_eq!(input.request.as_deref(), Some("latest prompt"));
    assert_eq!(input.investigated.as_deref(), Some("i"));
    assert_eq!(input.discovery_tokens, Some(0));
    assert_eq!(input.prompt_number, Some(3));
}

#[test]
fn manual_memories_are_trimmed_titled_and_scoped() {
    let err = memory_save_plan("  \n ", None, None).unwrap_err();
    assert_eq!(err.status, 400);
    assert_eq!(err.message, "text is required and must be non-empty");

    let long = "x".repeat(70);
    let plan = memory_save_plan(&format!("  {long}  "), None, None).unwrap();
    assert_eq!(plan.text, long);
    assert_eq!(plan.title, "x".repeat(60));
    assert_eq!(plan.project, "manual");
    assert_eq!(plan.content_session_id, "manual:manual");
    assert_eq!(plan.memory_session_id, "manual-memory:manual");

    let plan = memory_save_plan("remember this", Some("T".into()), Some("demo".into())).unwrap();
    assert_eq!(plan.title, "T");
    assert_eq!(plan.content_session_id, "manual:demo");
    let obs = manual_observation(&plan, "now".into(), 9);
    assert_eq!(obs.observation_type, "discovery");
    assert_eq!(obs.subtitle.as_deref(), Some("Manual memory"));
    assert_eq!(obs.narrative.as_deref(), Some("remember this"));
    assert_eq!(obs.generated_by_model.as_deref(), Some("manual"));
    assert_eq!(memory_saved_message(12), "Memory saved as observation #12");
    assert_eq!(memory_saved_message(-3), "Memory saved as observation #-3");
}

#[test]
fn search_arguments_and_outcomes() {
    assert_eq!(search_query_text(&args(&[("q", "b")])), "b");
    assert_eq!(search_query_text(&args(&[("query", "a"), ("q", "b")])), "a");
    assert_eq!(search_query_text(&args(&[])), "");
    assert!(wants_text_format(&args(&[("format", "text")])));
    assert!(!wants_text_format(&args(&[("format", "json")])));
    assert_eq!(search_strategy_label(true), "qdrant");
    assert_eq!(search_strategy_label(false), "sqlite");
    assert_eq!(vector_search_outcome(false, true, true), (false, false));
    assert_eq!(vector_search_outcome(true, true, true), (true, false));
    assert_eq!(vector_search_outcome(true, false, false), (false, true));
    assert_eq!(vector_search_outcome(true, true, false), (false, true));
}

#[test]
fn vector_sessions_are_filtered_and_capped() {
    let row = |id: i64, project: &str, epoch: i64| SessionSummaryRow {
        id,
        project: project.to_owned(),
        created_at_epoch: epoch,
        ..SessionSummaryRow::default()
    };
    let rows = vec![row(1, "a", 10), row(2, "b", 20), row(3, "a", 30), row(4, "a", 40)];
    let options = StrategySearchOptions {
        project: Some("a".to_owned()),
        date_range: Some(DateRange {
            start_epoch: Some(15),
            end_epoch: None,
        }),
        ..StrategySearchOptions::default()
    };
    let picked = select_sessions(rows.clone(), &options, 5);
    assert_eq!(picked.iter().map(|r| r.id).collect::<Vec<_>>(), vec![3, 4]);
    let capped = select_sessions(rows, &options, 1);
    assert_eq!(capped.iter().map(|r| r.id).collect::<Vec<_>>(), vec![3]);
}

#[test]
fn context_and_timeline_requests() {
    let err = context_projects(&args(&[])).unwrap_err();
    assert_eq!(err.message, "Project(s) parameter is required");
    assert_eq!(
        context_projects(&args(&[("projects", "a, b,,c")])).unwrap(),
        vec!["a", "b", "c"]
    );
    assert_eq!(
        join_context_sections(&vec!["one".to_owned(), "two".to_owned()]),
        "one\n\ntwo"
    );
    assert_eq!(timeline_anchor(&args(&[("anchor", "42")])), Some(42));
    assert_eq!(timeline_anchor(&args(&[("anchor", "x")])), None);
    assert_eq!(
        timeline_anchor_from_search(false, None).unwrap_err().message,
        "anchor or query is required"
    );
    assert_eq!(timeline_anchor_from_search(true, Some(8)).unwrap(), 8);
    assert_eq!(
        timeline_anchor_from_search(true, None).unwrap_err().message,
        "query did not match an anchor observation"
    );
    assert!(check_timeline_anchor(Some("a"), Some("a")).is_ok());
    assert!(check_timeline_anchor(Some("a"), None).is_ok());
    assert_eq!(
        check_timeline_anchor(Some("a"), Some("b")).unwrap_err().message,
        "anchor observation does not belong to requested project"
    );
    assert_eq!(
        check_timeline_anchor(None, None).unwrap_err().message,
        "anchor observation was not found"
    );
    assert_eq!(timeline_ids(vec![9, 8, 7], 10, vec![11, 12]), vec![7, 8, 9, 10, 11, 12]);
}

#[test]
fn queue_listing_counts_each_status() {
    let rows: Vec<_> = [
        r#"{"id":1,"status":"pending"}"#,
        r#"{"id":2,"status":"failed"}"#,
        r#"{"id":3,"status":"pending"}"#,
        r#"{"id":4,"status":"processing"}"#,
        r#"{"id":5,"status":"done"}"#,
        r#"{"id":6}"#,
    ]
    .iter()
    .map(|t| parse_json(t).unwrap())
    .collect();
    assert_eq!(queue_status_counts(&rows), (2, 1, 1));
    assert_eq!(queue_status_counts(&Vec::new()), (0, 0, 0));
}

#[test]
fn legacy_session_start_prefers_the_body() {
    let body = parse_json(r#"{"user_prompt":"from body","promptNumber":7}"#).unwrap();
    assert_eq!(legacy_prompt(&body, Some("stored".into())), "from body");
    assert_eq!(legacy_prompt_number(&body, 2), 7);
    let empty = parse_json("{}").unwrap();
    assert_eq!(legacy_prompt(&empty, Some("stored".into())), "stored");
    assert_eq!(legacy_prompt(&empty, None), "[media prompt]");
    assert_eq!(legacy_prompt_number(&empty, 2), 3);
    let odd = parse_json(r#"{"userPrompt":5,"prompt_number":"x"}"#).unwrap();
    assert_eq!(legacy_prompt(&odd, None), "[media prompt]");
    assert_eq!(legacy_prompt_number(&odd, 0), 1);
}

#[test]
fn semantic_queries_and_reindex_limits() {
    assert_eq!(semantic_query(Some("short".into())), None);
    assert_eq!(
        semantic_query(Some("a query that is long enough".into())),
        Some("a query that is long enough".to_owned())
    );
    assert_eq!(semantic_query(None), None);
    assert_eq!(reindex_limit(None), 100);
    assert_eq!(reindex_limit(Some(0)), 1);
    assert_eq!(reindex_limit(Some(50_000)), 10_000);
    assert_eq!(reindex_limit(Some(250)), 250);
}
