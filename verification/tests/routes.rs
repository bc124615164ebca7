use claude_mem_worker::http::routes::{
    coerce_positive_int, coerce_string_array, corpus_build_plan, corpus_not_found,
    corpus_question, corpus_store_error, env_truthy_value, fallback_summary_input, import_columns,
    knowledge_agent_error, parse_limit, project_from_file_name, should_use_qdrant,
    trim_for_summary, CorpusBuildRequest, CorpusQueryRequest,
};
use claude_mem_worker::json::parse_json;
use claude_mem_worker::knowledge::agent::KnowledgeAgentError;
use claude_mem_worker::knowledge::store::CorpusStoreError;
use claude_mem_worker::model::ObservationRow;
use claude_mem_worker::search::strategies::{SearchStrategyHint, SearchType, StrategySearchOptions};

fn request(name: Option<&str>) -> CorpusBuildRequest {
    CorpusBuildRequest {
        name: name.map(str::to_owned),
        description: None,
        project: None,
        types: None,
        concepts: None,
        files: None,
        query: None,
        date_start: None,
        date_end: None,
        limit: None,
    }
}

#[test]
fn string_lists_accept_arrays_json_text_and_csv() {
    let arr = parse_json(r#"[" a ", "", "b"]"#).unwrap();
    assert_eq!(coerce_string_array(Some(&arr), "types").unwrap(), Some(vec!["a".to_owned(), "b".to_owned()]));
    let text = parse_json(r#""[\"x\",\"y\"]""#).unwrap();
    assert_eq!(coerce_string_array(Some(&text), "types").unwrap(), Some(vec!["x".to_owned(), "y".to_owned()]));
    let csv = parse_json(r#"" one, two ,,""#).unwrap();
    assert_eq!(coerce_string_array(Some(&csv), "types").unwrap(), Some(vec!["one".to_owned(), "two".to_owned()]));
    let blank = parse_json(r#""   ""#).unwrap();
    assert_eq!(coerce_string_array(Some(&blank), "types").unwrap(), None);
    assert_eq!(coerce_string_array(None, "types").unwrap(), None);
    let bad = parse_json("[1]").unwrap();
    let err = coerce_string_array(Some(&bad), "files").unwrap_err();
    assert_eq!(err.status, 400);
    assert_eq!(err.message, "files must be an array of strings");
}

#[test]
fn positive_ints_accept_numbers_and_text() {
    assert_eq!(coerce_positive_int(Some(&parse_json("5").unwrap()), "limit").unwrap(), Some(5));
    assert_eq!(coerce_positive_int(Some(&parse_json(r#"" 7 ""#).unwrap()), "limit").unwrap(), Some(7));
    assert_eq!(coerce_positive_int(Some(&parse_json("null").unwrap()), "limit").unwrap(), None);
    let err = coerce_positive_int(Some(&parse_json("0").unwrap()), "limit").unwrap_err();
    assert_eq!(err.message, "limit must be a positive integer");
    assert!(coerce_positive_int(Some(&parse_json("1.5").unwrap()), "limit").is_err());
}

#[test]
fn corpus_build_requires_a_name_and_known_types() {
    let err = corpus_build_plan(request(Some("   "))).unwrap_err();
    assert_eq!(err.status, 400);
    assert!(err.message.starts_with("Missing required field: name."));
    let mut req = request(Some("hooks"));
    req.types = Some(parse_json(r#"["decision","nonsense"]"#).unwrap());
    let err = corpus_build_plan(req).unwrap_err();
    assert_eq!(err.message, "types must contain valid observation types");
    let mut req = request(Some(" hooks "));
    req.types = Some(parse_json(r#"["decision"]"#).unwrap());
    req.concepts = Some(parse_json("[]").unwrap());
    req.query = Some(String::new());
    req.limit = Some(parse_json("100").unwrap());
    let plan = corpus_build_plan(req).unwrap();
    assert_eq!(plan.name, "hooks");
    assert_eq!(plan.description, "");
    assert_eq!(plan.filter.types, Some(vec!["decision".to_owned()]));
    assert_eq!(plan.filter.concepts, None);
    assert_eq!(plan.filter.query, None);
    assert_eq!(plan.filter.limit, Some(100));
}

#[test]
fn errors_become_answers_with_their_status() {
    assert_eq!(corpus_store_error(CorpusStoreError::InvalidName).status, 400);
    assert_eq!(
        corpus_store_error(CorpusStoreError::Io { path: "p".into(), message: "m".into() }).message,
        "io error at p: m"
    );
    assert_eq!(knowledge_agent_error(KnowledgeAgentError::ExecutableNotFound).status, 503);
    assert_eq!(knowledge_agent_error(KnowledgeAgentError::NotPrimed("c".into())).status, 400);
    assert_eq!(knowledge_agent_error(KnowledgeAgentError::Io("x".into())).status, 500);
    let nf = corpus_not_found("gone", &vec![]);
    assert_eq!(nf.status, 404);
    assert_eq!(nf.message, "Corpus \"gone\" not found. Available: (none)");
    let nf = corpus_not_found("gone", &vec!["a".into(), "b".into()]);
    assert_eq!(nf.message, "Corpus \"gone\" not found. Available: a, b");
}

#[test]
fn query_question_is_trimmed_and_required() {
    assert_eq!(corpus_question(&CorpusQueryRequest { question: Some(" why? ".into()) }).unwrap(), "why?");
    assert_eq!(corpus_question(&CorpusQueryRequest { question: Some("  ".into()) }).unwrap_err().status, 400);
    assert!(corpus_question(&CorpusQueryRequest { question: None }).is_err());
}

#[test]
fn small_request_helpers() {
    assert_eq!(parse_limit(Some(&"7".to_owned()), 20), 7);
    assert_eq!(parse_limit(Some(&"-7".to_owned()), 20), 20);
    assert_eq!(parse_limit(Some(&"700".to_owned()), 20), 100);
    assert_eq!(parse_limit(None, 250), 100);
    assert!(env_truthy_value(Some("TRUE")));
    assert!(!env_truthy_value(Some("True")));
    assert!(!env_truthy_value(None));
    assert_eq!(project_from_file_name(Some("proj".into())), "proj");
    assert_eq!(project_from_file_name(Some(String::new())), "unknown");
    assert_eq!(import_columns("user_prompts").unwrap().len(), 6);
    assert_eq!(import_columns("observations").unwrap()[4], "type");
    assert!(import_columns("secrets").is_none());
}

#[test]
fn vector_store_is_used_for_text_queries_over_observations() {
    let options = StrategySearchOptions {
        strategy_hint: Some(SearchStrategyHint::Hybrid),
        ..Default::default()
    };
    assert!(should_use_qdrant(&options, "cooler"));
    assert!(!should_use_qdrant(&options, "   "));
    let prompts = StrategySearchOptions {
        strategy_hint: Some(SearchStrategyHint::Auto),
        search_type: SearchType::Prompts,
        ..Default::default()
    };
    assert!(!should_use_qdrant(&prompts, "cooler"));
    assert!(!should_use_qdrant(&StrategySearchOptions::default(), "cooler"));
}

#[test]
fn fallback_summary_lists_titles_counts_and_files() {
    let rows: Vec<ObservationRow> = (0..10)
        .map(|i| ObservationRow {
            id: i,
            title: if i == 1 { None } else { Some(format!("T{i}")) },
            narrative: Some(format!("N{i}")),
            files_read: if i == 0 { Some(vec!["a.rs".into()]) } else { None },
            ..Default::default()
        })
        .collect();
    let s = fallback_summary_input(
        "mem".into(),
        "proj".into(),
        None,
        Some(3),
        rows,
        Some("  learned text  "),
        "2026-01-01T00:00:00Z".into(),
        5,
    );
    assert_eq!(s.request.as_deref(), Some("Session summary"));
    assert_eq!(s.investigated.as_deref(), Some("T0; N1; T2; T3; T4; T5; T6; T7"));
    assert_eq!(s.learned.as_deref(), Some("learned text"));
    assert_eq!(s.completed.as_deref(), Some("Captured 10 observation(s) for searchable recall."));
    assert_eq!(s.files_read.as_deref(), Some("[\"a.rs\"]"));
    assert_eq!(s.files_edited, None);
    assert_eq!(s.discovery_tokens, Some(0));
    assert_eq!(trim_for_summary(&"x".repeat(1300)).len(), 1200);
}
