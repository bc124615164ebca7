use claude_mem_worker::search::vector::{embedding_slots, fnv1a, tokens};

#[test]
fn tokens_are_lowercased_runs_of_two_or_more() {
    assert_eq!(tokens("Dynatron cooler, a B2 power-cap"), vec!["dynatron", "cooler", "b2", "power", "cap"]);
    assert!(tokens("").is_empty());
}

#[test]
fn fnv1a_matches_reference_values() {
    assert_eq!(fnv1a(b""), 0xcbf29ce484222325);
    assert_eq!(fnv1a(b"a"), 0xaf63dc4c8601ec8c);
    assert_eq!(fnv1a(b"foobar"), 0x85944171f73967e8);
}

#[test]
fn slots_are_deterministic_and_within_the_width() {
    let a = embedding_slots("Dynatron cooler power cap", 64);
    let b = embedding_slots("Dynatron cooler power cap", 64);
    assert_eq!(a, b);
    assert_eq!(a.len(), 4);
    assert!(a.iter().all(|(i, _)| *i < 64));
    assert!(embedding_slots("", 4).is_empty());
    assert!(embedding_slots("hello world", 0).iter().all(|(i, _)| *i == 0));
}
