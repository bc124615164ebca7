use claude_mem_worker::search::orchestrator::SearchOrchestrator;
use claude_mem_worker::search::result_formatter::SearchResults;
use claude_mem_worker::search::strategies::{OrderBy, SearchType};
use std::collections::HashMap;

#[test]
fn normalizes_url_style_params() {
    let orchestrator = SearchOrchestrator::new();
    let args = map([
        ("query", "thermal limits"),
        ("type", "observations"),
        ("obs_type", "decision, discovery"),
        ("concepts", "thermal, power"),
        ("files", "a.rs, b.rs"),
        ("dateStart", "2025-01-01T00:00:00Z"),
        ("dateEnd", "1735776000000"),
        ("orderBy", "date_asc"),
        ("limit", "10"),
        ("offset", "2"),
        ("strategy", "sqlite"),
    ]);

    let options = orchestrator.search_options(&args);

    assert_eq!(options.query.as_deref(), Some("thermal limits"));
    assert_eq!(options.search_type, SearchType::Observations);
    assert_eq!(options.obs_type, vec!["decision", "discovery"]);
    assert_eq!(options.concepts, vec!["thermal", "power"]);
    assert_eq!(options.files, vec!["a.rs", "b.rs"]);
    assert_eq!(
        options.date_range.unwrap().end_epoch,
        Some(1_735_776_000_000)
    );
    assert_eq!(options.order_by, OrderBy::DateAsc);
    assert_eq!(options.limit, Some(10));
    assert_eq!(options.offset, Some(2));
}

#[test]
fn exposes_formatter_and_chroma_availability() {
    let without_chroma = SearchOrchestrator::new();
    assert!(!without_chroma.is_chroma_available());

    let with_chroma = SearchOrchestrator::with_chroma_available(true);
    assert!(with_chroma.is_chroma_available());

    let formatted = with_chroma.format_search_results(&SearchResults::default(), "nothing", true);
    assert!(formatted.contains("Vector search failed"));
}

#[test]
fn date_start_text_is_read_as_rfc3339_milliseconds() {
    let orchestrator = SearchOrchestrator::new();
    let options = orchestrator.search_options(&map([("start", "2025-01-01T00:00:00Z")]));
    let range = options.date_range.unwrap();
    assert_eq!(range.start_epoch, Some(1_735_689_600_000));
    assert_eq!(range.end_epoch, None);
}

#[test]
fn limit_is_capped_and_blank_query_dropped() {
    let orchestrator = SearchOrchestrator::new();
    let options = orchestrator.search_options(&map([("q", "   "), ("limit", "500")]));
    assert_eq!(options.query, None);
    assert_eq!(options.limit, Some(100));
    let options = orchestrator.search_options(&map([("limit", "-3"), ("offset", "-1")]));
    assert_eq!(options.limit, None);
    assert_eq!(options.offset, None);
}

fn map<const N: usize>(items: [(&str, &str); N]) -> HashMap<String, String> {
    items
        .into_iter()
        .map(|(key, value)| (key.to_owned(), value.to_owned()))
        .collect()
}
