use claude_mem_worker::search::strategies::{
    fts_query, limit, order_clause, prompt_order_clause, OrderBy, SearchStrategyHint,
    SqliteSearchStrategy, StrategySearchOptions,
};

#[test]
fn can_handle_filter_only_or_forced_sqlite_queries() {
    let strategy = SqliteSearchStrategy::new();
    assert!(strategy.can_handle(&StrategySearchOptions {
        project: Some("cloudy".into()),
        ..Default::default()
    }));
    assert!(strategy.can_handle(&StrategySearchOptions {
        query: Some(String::new()),
        ..Default::default()
    }));
    assert!(!strategy.can_handle(&StrategySearchOptions {
        query: Some("semantic search query".into()),
        ..Default::default()
    }));
    assert!(strategy.can_handle(&StrategySearchOptions {
        query: Some("semantic search query".into()),
        strategy_hint: Some(SearchStrategyHint::Sqlite),
        ..Default::default()
    }));
}

#[test]
fn fts_query_keeps_eight_terms_of_three_or_more_characters() {
    assert_eq!(fts_query("a bc def ghij"), Some("def OR ghij".to_owned()));
    assert_eq!(fts_query("x y"), None);
    assert_eq!(
        fts_query("one two three four five six seven eight nine ten"),
        Some("one OR two OR three OR four OR five OR six OR seven OR eight".to_owned())
    );
    assert_eq!(fts_query("thermal-limits/power"), Some("thermal OR limits OR power".to_owned()));
}

#[test]
fn limit_defaults_to_twenty_and_stays_within_bounds() {
    assert_eq!(limit(&StrategySearchOptions::default()), 20);
    assert_eq!(
        limit(&StrategySearchOptions { limit: Some(0), ..Default::default() }),
        1
    );
    assert_eq!(
        limit(&StrategySearchOptions { limit: Some(1000), ..Default::default() }),
        100
    );
}

#[test]
fn order_clauses_follow_the_requested_order() {
    assert!(order_clause("o", &OrderBy::DateAsc, false, "f").contains("ASC"));
    assert!(order_clause("o", &OrderBy::DateDesc, false, "f").contains("DESC"));
    assert_eq!(
        prompt_order_clause(&OrderBy::DateAsc),
        "ORDER BY up.created_at_epoch ASC, up.id ASC"
    );
    assert_eq!(
        prompt_order_clause(&OrderBy::Relevance),
        "ORDER BY up.created_at_epoch DESC, up.id DESC"
    );
}
