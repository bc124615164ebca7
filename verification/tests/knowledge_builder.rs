use claude_mem_worker::knowledge::builder::{
    calculate_stats, epoch_ms_to_iso, filter_to_search_args, CorpusBuilder,
};
use claude_mem_worker::model::{CorpusFilter, CorpusObservation, ObservationRow};

fn arg<'a>(args: &'a [(String, String)], key: &str) -> Option<&'a String> {
    args.iter().find(|(k, _)| k == key).map(|(_, v)| v)
}

#[test]
fn filter_to_search_args_translates_known_fields() {
    let args = filter_to_search_args(&CorpusFilter {
        project: Some("p".into()),
        types: Some(vec!["decision".into(), "bugfix".into()]),
        concepts: Some(vec!["hooks".into()]),
        files: Some(vec!["src/x.rs".into()]),
        query: Some("hooks".into()),
        date_start: Some("2026-01-01".into()),
        date_end: Some("2026-06-01".into()),
        limit: Some(42),
    });
    assert_eq!(arg(&args, "project"), Some(&"p".to_owned()));
    assert_eq!(arg(&args, "obs_type"), Some(&"decision,bugfix".to_owned()));
    assert_eq!(arg(&args, "concepts"), Some(&"hooks".to_owned()));
    assert_eq!(arg(&args, "files"), Some(&"src/x.rs".to_owned()));
    assert_eq!(arg(&args, "query"), Some(&"hooks".to_owned()));
    assert_eq!(arg(&args, "dateStart"), Some(&"2026-01-01".to_owned()));
    assert_eq!(arg(&args, "dateEnd"), Some(&"2026-06-01".to_owned()));
    assert_eq!(arg(&args, "limit"), Some(&"42".to_owned()));
}

#[test]
fn filter_to_search_args_skips_empty_collections() {
    let args = filter_to_search_args(&CorpusFilter {
        types: Some(vec![]),
        concepts: Some(vec![]),
        files: Some(vec![]),
        query: Some(String::new()),
        ..Default::default()
    });
    assert!(arg(&args, "obs_type").is_none());
    assert!(arg(&args, "concepts").is_none());
    assert!(arg(&args, "files").is_none());
    assert!(arg(&args, "query").is_none());
}

fn obs(id: i64, kind: &str, epoch: i64) -> CorpusObservation {
    CorpusObservation {
        id,
        observation_type: kind.into(),
        title: "t".into(),
        subtitle: None,
        narrative: None,
        facts: vec![],
        concepts: vec![],
        files_read: vec![],
        files_modified: vec![],
        project: "p".into(),
        created_at: "2026-01-01T00:00:00Z".into(),
        created_at_epoch: epoch,
    }
}

#[test]
fn calculate_stats_counts_breakdown_and_range() {
    let observations = vec![
        obs(1, "decision", 1_700_000_000_000),
        obs(2, "bugfix", 1_710_000_000_000),
        obs(3, "decision", 1_720_000_000_000),
    ];
    let stats = calculate_stats(&observations, "2026-05-24T00:00:00Z");
    let count = |k: &str| stats.type_breakdown.iter().find(|(t, _)| t == k).map(|(_, c)| *c);
    assert_eq!(stats.observation_count, 3);
    assert_eq!(count("decision"), Some(2));
    assert_eq!(count("bugfix"), Some(1));
    assert_eq!(stats.date_range.earliest, epoch_ms_to_iso(1_700_000_000_000));
    assert_eq!(stats.date_range.latest, epoch_ms_to_iso(1_720_000_000_000));
}

#[test]
fn empty_stats_use_now_for_both_ends() {
    let stats = calculate_stats(&vec![], "2026-05-24T00:00:00Z");
    assert_eq!(stats.observation_count, 0);
    assert_eq!(stats.date_range.earliest, "2026-05-24T00:00:00Z");
    assert_eq!(stats.date_range.earliest, stats.date_range.latest);
    assert!(stats.type_breakdown.is_empty());
}

#[test]
fn iso_timestamps_fall_back_to_the_epoch() {
    assert_eq!(epoch_ms_to_iso(1_700_000_000_000), "2023-11-14T22:13:20Z");
    assert_eq!(epoch_ms_to_iso(-1), "1969-12-31T23:59:59Z");
    assert_eq!(epoch_ms_to_iso(i64::MIN), "1970-01-01T00:00:00Z");
}

fn row(id: i64, epoch: i64) -> ObservationRow {
    ObservationRow {
        id,
        project: "alpha".into(),
        observation_type: if id % 2 == 0 { "decision".into() } else { "bugfix".into() },
        title: Some(format!("Title {id}")),
        narrative: Some(format!("Body {id}")),
        facts: Some(vec![format!("fact-{id}")]),
        concepts: Some(vec!["hooks".into()]),
        files_modified: Some(vec![format!("src/file-{id}.rs")]),
        created_at: "2026-05-24T00:00:00Z".into(),
        created_at_epoch: epoch,
        ..Default::default()
    }
}

#[test]
fn assembled_corpus_is_ordered_capped_and_estimated() {
    let builder = CorpusBuilder::new();
    let rows = vec![row(3, 30), row(1, 10), row(2, 10), row(4, 5)];
    let corpus = builder.assemble(
        "alpha-all",
        "all of alpha",
        CorpusFilter { project: Some("alpha".into()), limit: Some(3), ..Default::default() },
        rows,
        "2026-05-24T00:00:00Z",
    );
    let ids: Vec<i64> = corpus.observations.iter().map(|o| o.id).collect();
    assert_eq!(ids, vec![4, 1, 2]);
    assert_eq!(corpus.stats.observation_count, 3);
    assert!(corpus.stats.token_estimate > 0);
    assert!(corpus.system_prompt.contains("access to 3 observations from the \"alpha-all\" corpus."));
    assert_eq!(corpus.created_at, "2026-05-24T00:00:00Z");
    assert_eq!(corpus.observations[0].title, "Title 4");
    assert!(corpus.observations[0].files_read.is_empty());
}

#[test]
fn assembled_empty_corpus_uses_now_for_date_range() {
    let builder = CorpusBuilder::new();
    let corpus = builder.assemble(
        "empty",
        "no rows",
        CorpusFilter { project: Some("ghost".into()), ..Default::default() },
        vec![],
        "2026-05-24T00:00:00Z",
    );
    assert_eq!(corpus.stats.observation_count, 0);
    assert_eq!(corpus.stats.date_range.earliest, "2026-05-24T00:00:00Z");
    assert_eq!(corpus.stats.date_range.earliest, corpus.stats.date_range.latest);
}
