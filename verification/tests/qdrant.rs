use claude_mem_worker::json::parse_json;
use claude_mem_worker::model::{ObservationRow, SessionSummaryRow};
use claude_mem_worker::search::qdrant::{
    observation_point_id, observation_text, prompt_point_id, request_order, search_limit,
    summary_point_id,
    summary_text, MemoryPointRef, MemoryPointRefs, QdrantConfig,
    QdrantPoint, QdrantStatus,
};

#[test]
fn memory_refs_are_grouped_without_repeats() {
    let refs = MemoryPointRefs::from_refs(vec![
        MemoryPointRef::Observation(5),
        MemoryPointRef::Summary(2),
        MemoryPointRef::Observation(3),
        MemoryPointRef::Observation(5),
        MemoryPointRef::Prompt(9),
        MemoryPointRef::Summary(2),
    ]);
    assert_eq!(refs.observations, vec![5, 3]);
    assert_eq!(refs.summaries, vec![2]);
    assert_eq!(refs.prompts, vec![9]);
}

#[test]
fn config_needs_a_switch_or_a_url() {
    assert!(QdrantConfig::from_settings(None, None, None, None, None).is_none());
    assert!(QdrantConfig::from_settings(None, Some("TRUE".into()), None, None, None).is_none());
    let c = QdrantConfig::from_settings(None, Some("yes".into()), None, None, Some("0".into()))
        .unwrap();
    assert_eq!(c.url, "http://127.0.0.1:6333");
    assert_eq!(c.collection, "claude_mem_observations");
    assert_eq!(c.vector_size, 64);
    let c = QdrantConfig::from_settings(
        Some("http://q:6333//".into()),
        None,
        Some("mem".into()),
        Some("k".into()),
        Some("+128".into()),
    )
    .unwrap();
    assert_eq!(c.vector_size, 128);
    assert_eq!(c.collection_url(), "http://q:6333/collections/mem");
    let status = QdrantStatus::from_config(&c);
    assert!(status.enabled);
    assert_eq!(status.url, "http://q:6333//");
}

#[test]
fn hits_map_back_to_memories() {
    let hit = |id: &str, payload: Option<&str>| QdrantPoint {
        id: parse_json(id).unwrap(),
        payload: payload.map(|p| parse_json(p).unwrap()),
    };
    assert_eq!(
        hit("7", Some(r#"{"kind":"observation","observation_id":42}"#)).memory_ref(),
        Some(MemoryPointRef::Observation(42))
    );
    assert_eq!(
        hit("7", Some(r#"{"kind":"observation"}"#)).memory_ref(),
        Some(MemoryPointRef::Observation(7))
    );
    assert_eq!(
        hit("1000000000003", Some(r#"{"kind":"summary","summary_id":3}"#)).memory_ref(),
        Some(MemoryPointRef::Summary(3))
    );
    assert_eq!(
        hit("2000000000004", Some("{}")).memory_ref(),
        Some(MemoryPointRef::Prompt(4))
    );
    assert_eq!(
        hit("1000000000005", Some("{}")).memory_ref(),
        Some(MemoryPointRef::Summary(5))
    );
    assert_eq!(hit("12", Some("{}")).memory_ref(), Some(MemoryPointRef::Observation(12)));
    assert_eq!(hit("12", None).memory_ref(), None);
    assert_eq!(hit("12", None).observation_id(), Some(12));
}

#[test]
fn embedded_texts_join_present_fields() {
    let row = ObservationRow {
        title: Some("T".into()),
        narrative: Some("N".into()),
        text: Some("X".into()),
        ..Default::default()
    };
    assert_eq!(observation_text(&row), "T\nN\nX");
    let summary = SessionSummaryRow {
        request: Some("R".into()),
        notes: Some("Z".into()),
        ..Default::default()
    };
    assert_eq!(summary_text(&summary), "R\nZ");
}

#[test]
fn search_limit_is_clamped() {
    assert_eq!(search_limit(0), 1);
    assert_eq!(search_limit(50), 50);
    assert_eq!(search_limit(5000), 100);
}

#[test]
fn point_ids_keep_kinds_apart() {
    assert_eq!(observation_point_id(42), 42);
    assert_eq!(summary_point_id(42), 1_000_000_000_042);
    assert_eq!(prompt_point_id(42), 2_000_000_000_042);
    assert_eq!(observation_point_id(-1), u64::MAX);
}

#[test]
fn found_rows_follow_the_requested_order() {
    assert_eq!(request_order(&vec![5, 9, 7, 5], &vec![7, 5, 9]), vec![2, 0, 3, 1]);
    assert_eq!(request_order(&vec![4, 7, 8], &vec![7]), vec![1, 0, 2]);
    assert!(request_order(&vec![], &vec![1, 2]).is_empty());
}
