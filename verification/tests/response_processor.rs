use claude_mem_worker::agents::response_processor::{parse_observations, parse_summary};

#[test]
fn parses_single_and_multiple_observations() {
    let observations = parse_observations(
        r#"
        <observation>
          <type>discovery</type>
          <title>Found important pattern</title>
          <subtitle>In auth module</subtitle>
          <narrative>Discovered reusable authentication pattern.</narrative>
          <facts><fact>Uses JWT</fact></facts>
          <concepts><concept>authentication</concept><concept>discovery</concept></concepts>
          <files_read><file>src/auth.ts</file></files_read>
          <files_modified></files_modified>
        </observation>
        <observation>
          <type>bugfix</type>
          <title>Fixed null pointer</title>
          <facts></facts>
          <concepts></concepts>
          <files_read></files_read>
          <files_modified></files_modified>
        </observation>
        "#,
    );

    assert_eq!(observations.len(), 2);
    assert_eq!(observations[0].observation_type, "discovery");
    assert_eq!(
        observations[0].title.as_deref(),
        Some("Found important pattern")
    );
    assert_eq!(observations[0].concepts, vec!["authentication"]);
    assert_eq!(observations[1].observation_type, "bugfix");
}

#[test]
fn parses_summary_and_skip_summary() {
    let summary = parse_summary(
        r#"
        <summary>
          <request>Build login form</request>
          <investigated>Reviewed existing forms</investigated>
          <learned>React Hook Form works well</learned>
          <completed>Form skeleton created</completed>
          <next_steps>Add validation</next_steps>
          <notes>Some notes</notes>
        </summary>
        "#,
    )
    .unwrap();

    assert_eq!(summary.request.as_deref(), Some("Build login form"));
    assert_eq!(summary.notes.as_deref(), Some("Some notes"));
    assert!(parse_summary(r#"<skip_summary reason="no changes" />"#).is_none());
    assert!(parse_summary("<summary>plain text only</summary>").is_none());
}

#[test]
fn observation_fields_are_trimmed_and_empty_ones_absent() {
    let observations = parse_observations(
        "<observation><type>  refactor  </type><title>   </title><facts><fact> a </fact><fact></fact></facts></observation><observation><type>change</type></observation>",
    );
    assert_eq!(observations.len(), 2);
    assert_eq!(observations[0].observation_type, "refactor");
    assert_eq!(observations[1].observation_type, "discovery");
    assert_eq!(observations[0].title, None);
    assert_eq!(observations[0].facts, vec!["a"]);
}

#[test]
fn text_without_observation_blocks_gives_none() {
    assert!(parse_observations("no xml here").is_empty());
    assert!(parse_summary("").is_none());
}
