use claude_mem_worker::knowledge::store::{
    corpus_file_name, is_corpus_file_name, is_valid_corpus_name, sort_entries_by_name,
    CorpusStore, CorpusStoreError,
};
use claude_mem_worker::model::CorpusListEntry;
use std::path::PathBuf;

#[test]
fn rejects_invalid_names() {
    let store = CorpusStore::new(PathBuf::from("/tmp/corpora"));
    for bad in [
        "../escape",
        "foo/bar",
        "a\\b",
        "  ",
        "",
        "with space",
        "weird$",
        "a%b",
        "name\0null",
    ] {
        let err = store.path_for(bad).unwrap_err();
        assert!(
            matches!(err, CorpusStoreError::InvalidName),
            "expected InvalidName for {bad:?}, got {err:?}"
        );
    }
}

#[test]
fn accepts_dotted_and_underscored_names() {
    let store = CorpusStore::new(PathBuf::from("/tmp/corpora"));
    for good in ["alpha", "alpha.v2", "alpha_beta", "alpha-1", "1.2.3", "A_B"] {
        let path = store.path_for(good).unwrap();
        assert_eq!(path, PathBuf::from("/tmp/corpora").join(format!("{good}.corpus.json")));
    }
}

#[test]
fn names_are_trimmed_before_validation() {
    assert_eq!(corpus_file_name("  alpha \n").unwrap(), "alpha.corpus.json");
    assert!(is_valid_corpus_name("a.b-c_D9"));
    assert!(!is_valid_corpus_name("caf\u{e9}"));
    assert!(!is_valid_corpus_name(""));
    assert_eq!(
        CorpusStoreError::InvalidName.message(),
        "invalid corpus name: only alphanumeric characters, dots, hyphens, and underscores are allowed"
    );
}

#[test]
fn only_corpus_json_files_are_listed() {
    assert!(is_corpus_file_name("alpha.corpus.json"));
    assert!(is_corpus_file_name(".corpus.json"));
    assert!(!is_corpus_file_name("README.md"));
    assert!(!is_corpus_file_name("alpha.corpus.json.bak"));
}

fn entry(name: &str, description: &str) -> CorpusListEntry {
    CorpusListEntry { name: name.into(), description: description.into(), ..Default::default() }
}

#[test]
fn listing_is_sorted_by_name_and_stable() {
    let sorted = sort_entries_by_name(vec![
        entry("beta", "1"),
        entry("alpha", "2"),
        entry("Zed", "3"),
        entry("alpha", "4"),
    ]);
    let names: Vec<(&str, &str)> =
        sorted.iter().map(|e| (e.name.as_str(), e.description.as_str())).collect();
    assert_eq!(names, vec![("Zed", "3"), ("alpha", "2"), ("alpha", "4"), ("beta", "1")]);
}

#[test]
fn corpus_files_are_named_after_the_trimmed_name() {
    let a = corpus_file_name("  hooks ").unwrap();
    let b = corpus_file_name("hooks").unwrap();
    assert_eq!(a, "hooks.corpus.json");
    assert_eq!(a, b);
    assert!(is_corpus_file_name(&a));
    assert_ne!(corpus_file_name("hooks2").unwrap(), a);
}
