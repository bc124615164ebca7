use claude_mem_worker::search::sql::{
    add_project_date_filters, filtered_ids_query, fts_ids_query, import_insert, list_ids_query,
    observation_filters,
    prompt_filtered_ids_query, prompt_fts_ids_query, sessions_by_file_query, FilterKind,
    SqlParam,
};
use claude_mem_worker::json::parse_json;
use claude_mem_worker::search::strategies::{DateRange, OrderBy, StrategySearchOptions};

fn text(s: &str) -> SqlParam {
    SqlParam::Text(s.to_owned())
}

#[test]
fn unfiltered_search_pages_through_everything() {
    let q = filtered_ids_query(
        "observations",
        "o",
        &StrategySearchOptions::default(),
        FilterKind::Observations,
    );
    assert_eq!(
        q.sql,
        "SELECT o.id FROM observations o WHERE 1 = 1 ORDER BY o.created_at_epoch DESC, o.id DESC LIMIT ? OFFSET ?"
    );
    assert_eq!(q.params, vec![SqlParam::Integer(20), SqlParam::Integer(0)]);
}

#[test]
fn project_and_dates_become_tests_in_order() {
    let options = StrategySearchOptions {
        project: Some("demo".into()),
        date_range: Some(DateRange {
            start_epoch: Some(10),
            end_epoch: Some(20),
        }),
        limit: Some(500),
        offset: Some(-4),
        order_by: OrderBy::DateAsc,
        ..StrategySearchOptions::default()
    };
    let q = filtered_ids_query("session_summaries", "s", &options, FilterKind::Sessions);
    assert_eq!(
        q.sql,
        "SELECT s.id FROM session_summaries s WHERE s.project = ? AND s.created_at_epoch >= ? AND s.created_at_epoch <= ? ORDER BY s.created_at_epoch ASC, s.id ASC LIMIT ? OFFSET ?"
    );
    assert_eq!(
        q.params,
        vec![
            text("demo"),
            SqlParam::Integer(10),
            SqlParam::Integer(20),
            SqlParam::Integer(100),
            SqlParam::Integer(0)
        ]
    );

    let mut filters = vec!["x".to_owned()];
    let mut params = vec![text("x")];
    add_project_date_filters("s", "up", &options, &mut filters, &mut params);
    assert_eq!(
        filters,
        vec!["x", "s.project = ?", "up.created_at_epoch >= ?", "up.created_at_epoch <= ?"]
    );
    assert_eq!(params.len(), 4);
}

#[test]
fn observation_tests_cover_types_concepts_and_files() {
    let options = StrategySearchOptions {
        obs_type: vec!["bugfix".into(), "decision".into()],
        concepts: vec!["auth".into()],
        files: vec!["src/a.rs".into()],
        ..StrategySearchOptions::default()
    };
    let mut filters = Vec::new();
    let mut params = Vec::new();
    observation_filters("o", &options, &mut filters, &mut params);
    assert_eq!(filters.len(), 3);
    assert_eq!(filters[0], "o.type IN (?,?)");
    assert_eq!(
        filters[1],
        "(EXISTS (SELECT 1 FROM json_each(CASE WHEN json_valid(o.concepts) THEN o.concepts ELSE '[]' END) WHERE value = ?))"
    );
    assert_eq!(
        filters[2],
        "((EXISTS (SELECT 1 FROM json_each(CASE WHEN json_valid(o.files_read) THEN o.files_read ELSE '[]' END) WHERE value LIKE ?) OR EXISTS (SELECT 1 FROM json_each(CASE WHEN json_valid(o.files_modified) THEN o.files_modified ELSE '[]' END) WHERE value LIKE ?)))"
    );
    assert_eq!(
        params,
        vec![
            text("bugfix"),
            text("decision"),
            text("auth"),
            text("%src/a.rs%"),
            text("%src/a.rs%")
        ]
    );
}

#[test]
fn full_text_queries_need_a_usable_term() {
    let options = StrategySearchOptions {
        order_by: OrderBy::Relevance,
        ..StrategySearchOptions::default()
    };
    assert!(fts_ids_query("observations_fts", "observations", "o", "a b", &options, FilterKind::Observations).is_none());
    let q = fts_ids_query(
        "observations_fts",
        "observations",
        "o",
        "auth token",
        &options,
        FilterKind::Observations,
    )
    .unwrap();
    assert_eq!(
        q.sql,
        "SELECT o.id FROM observations_fts f JOIN observations o ON o.id = f.rowid WHERE observations_fts MATCH ? ORDER BY f.rank ASC LIMIT ? OFFSET ?"
    );
    assert_eq!(
        q.params,
        vec![text("auth OR token"), SqlParam::Integer(20), SqlParam::Integer(0)]
    );
}

#[test]
fn prompt_queries_join_their_session() {
    let q = prompt_filtered_ids_query(&StrategySearchOptions::default());
    assert_eq!(
        q.sql,
        "SELECT up.id FROM user_prompts up JOIN sdk_sessions s ON s.content_session_id = up.content_session_id WHERE 1 = 1 ORDER BY up.created_at_epoch DESC, up.id DESC LIMIT ? OFFSET ?"
    );
    let q = prompt_fts_ids_query("deploy", &StrategySearchOptions::default()).unwrap();
    assert!(q.sql.starts_with(
        "SELECT up.id FROM user_prompts_fts f JOIN user_prompts up ON up.id = f.rowid JOIN sdk_sessions s"
    ));
    assert!(q.sql.contains("WHERE user_prompts_fts MATCH ? ORDER BY"));
    assert_eq!(q.params[0], text("deploy"));
    assert!(prompt_fts_ids_query("?!", &StrategySearchOptions::default()).is_none());
}

#[test]
fn sessions_by_file_match_read_or_edited_lists() {
    let q = sessions_by_file_query("main.rs", &StrategySearchOptions::default());
    assert!(q.sql.starts_with("SELECT s.id FROM session_summaries s WHERE (EXISTS"));
    assert!(q.sql.contains("s.files_edited"));
    assert_eq!(
        q.params,
        vec![text("%main.rs%"), text("%main.rs%"), SqlParam::Integer(20), SqlParam::Integer(0)]
    );
}

#[test]
fn listings_are_newest_first_and_scoped_where_tables_have_projects() {
    let q = list_ids_query("observations", Some("demo"), 10);
    assert_eq!(
        q.sql,
        "SELECT id FROM observations WHERE project = ?1 ORDER BY created_at_epoch DESC, id DESC LIMIT ?2"
    );
    assert_eq!(q.params, vec![text("demo"), SqlParam::Integer(10)]);
    let q = list_ids_query("user_prompts", Some("demo"), 5);
    assert_eq!(
        q.sql,
        "SELECT id FROM user_prompts ORDER BY created_at_epoch DESC, id DESC LIMIT ?1"
    );
    assert_eq!(q.params, vec![SqlParam::Integer(5)]);
}

#[test]
fn imported_rows_insert_only_known_columns_they_have() {
    let row = parse_json(r#"{"title":"t","bogus":1,"id":7}"#).unwrap();
    let (sql, columns) = import_insert("observations", &["id", "project", "title"], &row).unwrap();
    assert_eq!(columns, vec!["id", "title"]);
    assert_eq!(sql, "INSERT OR IGNORE INTO observations (id,title) VALUES (?1,?2)");
    let empty = parse_json(r#"{"bogus":1}"#).unwrap();
    assert!(import_insert("observations", &["id"], &empty).is_none());
    assert!(import_insert("observations", &["id"], &parse_json("[1]").unwrap()).is_none());
}
