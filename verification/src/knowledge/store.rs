//! Corpus files: which names are accepted, where a corpus lives, and how a listing is ordered.
//!
//! Reading and writing the files is done by the caller; this module decides names and paths.
use std::path::PathBuf;

use vstd::prelude::*;

use crate::model::{CorpusFile, CorpusListEntry};
use crate::text::{chars_of, is_ascii_alnum, is_ascii_alnum_exec, push_str, string_from_chars, trim, trim_chars};

verus! {

broadcast use vstd::string::group_string_axioms;

#[verifier::external_type_specification]
#[verifier::external_body]
pub struct ExPathBuf(PathBuf);

/// Trusted: `PathBuf::clone` copies a path; nothing is stated of the copy.
pub assume_specification[ <PathBuf as Clone>::clone ](p: &PathBuf) -> PathBuf;

/// Why a corpus could not be stored or loaded.
#[derive(Debug, Clone, PartialEq, Eq)]
pub enum CorpusStoreError {
    /// The name has a character outside `[a-zA-Z0-9._-]`, is blank, or would leave the
    /// corpora directory.
    InvalidName,
    /// A filesystem error at `path`.
    Io { path: String, message: String },
    /// A corpus file that is not valid JSON for a corpus.
    Json { path: String, message: String },
}

impl CorpusStoreError {
    /// The error's message.
    pub fn message(&self) -> (r: String)
        ensures
            r@ == store_error_text(*self),
    {
        match self {
            CorpusStoreError::InvalidName => {
                "invalid corpus name: only alphanumeric characters, dots, hyphens, and underscores are allowed".to_owned()
            },
            CorpusStoreError::Io { path, message } => {
                let mut v = chars_of("io error at ");
                push_str(&mut v, path.as_str());
                push_str(&mut v, ": ");
                push_str(&mut v, message.as_str());
                string_from_chars(v.as_slice())
            },
            CorpusStoreError::Json { path, message } => {
                let mut v = chars_of("corpus json error at ");
                push_str(&mut v, path.as_str());
                push_str(&mut v, ": ");
                push_str(&mut v, message.as_str());
                string_from_chars(v.as_slice())
            },
        }
    }
}

/// The text of a store error.
pub open spec fn store_error_text(e: CorpusStoreError) -> Seq<char> {
    match e {
        CorpusStoreError::InvalidName => invalid_name_message(),
        CorpusStoreError::Io { path, message } => "io error at "@ + path@ + ": "@ + message@,
        CorpusStoreError::Json { path, message } => "corpus json error at "@ + path@ + ": "@
            + message@,
    }
}

pub open spec fn invalid_name_message() -> Seq<char> {
    "invalid corpus name: only alphanumeric characters, dots, hyphens, and underscores are allowed"@
}

/// A character allowed in a corpus name.
pub open spec fn is_name_char(c: char) -> bool {
    is_ascii_alnum(c) || c == '.' || c == '_' || c == '-'
}

/// `^[a-zA-Z0-9._-]+$`.
pub open spec fn valid_corpus_name(name: Seq<char>) -> bool {
    name.len() > 0 && forall|i: int| 0 <= i < name.len() ==> is_name_char(#[trigger] name[i])
}

/// A valid corpus name holds no path separator, so its file stays in the corpora
/// directory.
pub proof fn lemma_valid_name_has_no_separator(name: Seq<char>)
    requires
        valid_corpus_name(name),
    ensures
        !name.contains('/'),
        !name.contains('\\'),
{
    if name.contains('/') {
        let i = choose|i: int| 0 <= i < name.len() && name[i] == '/';
        assert(is_name_char(name[i]));
    }
    if name.contains('\\') {
        let i = choose|i: int| 0 <= i < name.len() && name[i] == '\\';
        assert(is_name_char(name[i]));
    }
}

/// Whether `name` matches `^[a-zA-Z0-9._-]+$`.
pub fn is_valid_corpus_name(name: &str) -> (r: bool)
    ensures
        r == valid_corpus_name(name@),
{
    let c = chars_of(name);
    if c.len() == 0 {
        return false;
    }
    let mut i: usize = 0;
    while i < c.len()
        invariant
            c@ == name@,
            i <= c@.len(),
            forall|j: int| 0 <= j < i ==> is_name_char(#[trigger] c@[j]),
        decreases c.len() - i,
    {
        let ch = c[i];
        if !(is_ascii_alnum_exec(ch) || ch == '.' || ch == '_' || ch == '-') {
            return false;
        }
        i = i + 1;
    }
    true
}

/// The file name that holds the corpus `name`: the trimmed name and `.corpus.json`.
pub open spec fn corpus_file_name_of(name: Seq<char>) -> Seq<char> {
    trim(name) + ".corpus.json"@
}

/// Different corpora never share a file: two names have the same file name only when they
/// are the same once trimmed, and a corpus file name always ends in `.corpus.json`.
pub proof fn lemma_corpus_file_names_distinct(a: Seq<char>, b: Seq<char>)
    ensures
        corpus_file_name_of(a) == corpus_file_name_of(b) ==> trim(a) == trim(b),
        is_corpus_file_spec(corpus_file_name_of(a)),
{
    let s = ".corpus.json"@;
    reveal_strlit(".corpus.json");
    let fa = corpus_file_name_of(a);
    assert(fa.subrange(fa.len() - 12, fa.len() as int) =~= s);
    if corpus_file_name_of(a) == corpus_file_name_of(b) {
        assert(trim(a).len() == trim(b).len());
        assert(trim(a) =~= corpus_file_name_of(a).take(trim(a).len() as int));
        assert(trim(b) =~= corpus_file_name_of(b).take(trim(b).len() as int));
    }
}

/// The file name for the corpus `name`, or `InvalidName` when its trimmed form is not a
/// valid corpus name.
pub fn corpus_file_name(name: &str) -> (r: Result<String, CorpusStoreError>)
    ensures
        match r {
            Ok(f) => valid_corpus_name(trim(name@)) && f@ == corpus_file_name_of(name@),
            Err(e) => !valid_corpus_name(trim(name@)) && e is InvalidName,
        },
{
    let c = chars_of(name);
    let mut t = trim_chars(c.as_slice());
    let ts = string_from_chars(t.as_slice());
    if t.len() == 0 || !is_valid_corpus_name(ts.as_str()) {
        return Err(CorpusStoreError::InvalidName);
    }
    push_str(&mut t, ".corpus.json");
    Ok(string_from_chars(t.as_slice()))
}

/// `dir` joined with `file`.
///
/// Trusted: calls `Path::join`. The separator depends on the platform, so nothing is
/// stated of the result.
#[verifier::external_body]
fn join_path(dir: &PathBuf, file: &str) -> (r: PathBuf) {
    dir.join(file)
}

/// Whether `dir` is the parent of `path`.
///
/// Trusted: compares `Path::parent` of `path` with `dir`, component by component; how a
/// path splits into components depends on the platform, so nothing is stated of the result.
#[verifier::external_body]
fn parent_is(path: &PathBuf, dir: &PathBuf) -> (r: bool) {
    path.parent() == Some(dir.as_path())
}

/// The path of a corpus file, kept only when it lies directly in the corpora directory.
pub fn checked_corpus_path(candidate: PathBuf, in_dir: bool) -> (r: Result<PathBuf, CorpusStoreError>)
    ensures
        in_dir ==> r == Ok::<PathBuf, CorpusStoreError>(candidate),
        !in_dir ==> r == Err::<PathBuf, CorpusStoreError>(CorpusStoreError::InvalidName),
{
    if in_dir {
        Ok(candidate)
    } else {
        Err(CorpusStoreError::InvalidName)
    }
}

/// File-backed corpus storage rooted at one directory.
#[derive(Debug, Clone)]
pub struct CorpusStore {
    corpora_dir: PathBuf,
}

impl CorpusStore {
    pub closed spec fn root(&self) -> PathBuf {
        self.corpora_dir
    }

    /// A store rooted at `dir`; the directory is created on the first write.
    pub fn new(dir: PathBuf) -> (r: Self)
        ensures
            r.root() == dir,
    {
        CorpusStore { corpora_dir: dir }
    }

    /// The corpora directory of this store.
    pub fn dir(&self) -> (r: &PathBuf)
        ensures
            *r == self.root(),
    {
        &self.corpora_dir
    }

    /// The path of the corpus `name`: refused with `InvalidName` when the trimmed name is not
    /// a valid corpus name, or when the joined path does not lie directly in the directory.
    pub fn path_for(&self, name: &str) -> (r: Result<PathBuf, CorpusStoreError>)
        ensures
            !valid_corpus_name(trim(name@)) ==> r == Err::<PathBuf, CorpusStoreError>(
                CorpusStoreError::InvalidName,
            ),
            r is Ok ==> valid_corpus_name(trim(name@)),
            r is Err ==> r->Err_0 is InvalidName,
    {
        let file = match corpus_file_name(name) {
            Ok(f) => f,
            Err(e) => return Err(e),
        };
        let candidate = join_path(&self.corpora_dir, file.as_str());
        let in_dir = parent_is(&candidate, &self.corpora_dir);
        checked_corpus_path(candidate, in_dir)
    }
}

/// Whether a directory entry named `name` is a corpus file.
pub open spec fn is_corpus_file_spec(name: Seq<char>) -> bool {
    name.len() >= 12 && name.subrange(name.len() - 12, name.len() as int) == ".corpus.json"@
}

pub fn is_corpus_file_name(name: &str) -> (r: bool)
    ensures
        r == is_corpus_file_spec(name@),
{
    let c = chars_of(name);
    let suffix = chars_of(".corpus.json");
    proof {
        reveal_strlit(".corpus.json");
    }
    if c.len() < suffix.len() {
        return false;
    }
    let start = c.len() - suffix.len();
    let mut i: usize = 0;
    while i < suffix.len()
        invariant
            c@ == name@,
            suffix@ == ".corpus.json"@,
            suffix@.len() == 12,
            start + 12 == c@.len(),
            c.len() == c@.len(),
            i <= 12,
            forall|j: int| 0 <= j < i ==> c@[start + j] == suffix@[j],
        decreases suffix.len() - i,
    {
        if c[start + i] != suffix[i] {
            assert(name@.subrange(name@.len() - 12, name@.len() as int)[i as int] != ".corpus.json"@[i as int]);
            return false;
        }
        i = i + 1;
    }
    assert(name@.subrange(name@.len() - 12, name@.len() as int) =~= ".corpus.json"@);
    true
}

/// The listing entry of a corpus: its name, description, stats and session.
pub open spec fn list_entry_of(corpus: CorpusFile) -> CorpusListEntry {
    CorpusListEntry {
        name: corpus.name,
        description: corpus.description,
        stats: corpus.stats,
        session_id: corpus.session_id,
    }
}

pub fn list_entry(corpus: CorpusFile) -> (r: CorpusListEntry)
    ensures
        r == list_entry_of(corpus),
{
    CorpusListEntry {
        name: corpus.name,
        description: corpus.description,
        stats: corpus.stats,
        session_id: corpus.session_id,
    }
}

/// `a` comes no later than `b` in the order of `String`'s `Ord`: lexicographic by code point.
pub open spec fn text_le(a: Seq<char>, b: Seq<char>) -> bool
    decreases a.len(),
{
    if a.len() == 0 {
        true
    } else if b.len() == 0 {
        false
    } else if a[0] != b[0] {
        (a[0] as int) < (b[0] as int)
    } else {
        text_le(a.drop_first(), b.drop_first())
    }
}

pub proof fn lemma_text_le_total(a: Seq<char>, b: Seq<char>)
    ensures
        text_le(a, b) || text_le(b, a),
    decreases a.len(),
{
    if a.len() > 0 && b.len() > 0 && a[0] == b[0] {
        lemma_text_le_total(a.drop_first(), b.drop_first());
    }
}

pub proof fn lemma_text_le_transitive(a: Seq<char>, b: Seq<char>, c: Seq<char>)
    requires
        text_le(a, b),
        text_le(b, c),
    ensures
        text_le(a, c),
    decreases a.len(),
{
    if a.len() > 0 && b.len() > 0 && c.len() > 0 && a[0] == b[0] && b[0] == c[0] {
        lemma_text_le_transitive(a.drop_first(), b.drop_first(), c.drop_first());
    }
}

/// Whether `a` comes no later than `b`.
pub fn text_le_exec(a: &[char], b: &[char]) -> (r: bool)
    ensures
        r == text_le(a@, b@),
{
    let mut i: usize = 0;
    assert(a@.skip(0) =~= a@);
    assert(b@.skip(0) =~= b@);
    while i < a.len() && i < b.len()
        invariant
            i <= a@.len(),
            i <= b@.len(),
            text_le(a@, b@) == text_le(a@.skip(i as int), b@.skip(i as int)),
        decreases a.len() - i,
    {
        assert(a@.skip(i as int).drop_first() =~= a@.skip(i + 1));
        assert(b@.skip(i as int).drop_first() =~= b@.skip(i + 1));
        if a[i] != b[i] {
            return a[i] < b[i];
        }
        i = i + 1;
    }
    i == a.len()
}

/// `x` placed into `sorted` after every entry whose name comes no later than its own.
pub open spec fn insert_by_name(sorted: Seq<CorpusListEntry>, x: CorpusListEntry) -> Seq<CorpusListEntry>
    decreases sorted.len(),
{
    if sorted.len() == 0 {
        seq![x]
    } else if text_le(sorted.last().name@, x.name@) {
        sorted.push(x)
    } else {
        insert_by_name(sorted.drop_last(), x).push(sorted.last())
    }
}

/// The entries ordered by name, entries with equal names kept in their given order: what a
/// stable sort by name gives.
pub open spec fn sort_by_name(s: Seq<CorpusListEntry>) -> Seq<CorpusListEntry>
    decreases s.len(),
{
    if s.len() == 0 {
        seq![]
    } else {
        insert_by_name(sort_by_name(s.drop_last()), s.last())
    }
}

pub open spec fn sorted_by_name(s: Seq<CorpusListEntry>) -> bool {
    forall|i: int, j: int| 0 <= i < j < s.len() ==> text_le(#[trigger] s[i].name@, #[trigger] s[j].name@)
}

proof fn lemma_insert_by_name_at(sorted: Seq<CorpusListEntry>, x: CorpusListEntry, j: int)
    requires
        0 <= j <= sorted.len(),
        forall|k: int| j <= k < sorted.len() ==> !text_le(#[trigger] sorted[k].name@, x.name@),
        j > 0 ==> text_le(sorted[j - 1].name@, x.name@),
    ensures
        insert_by_name(sorted, x) == sorted.insert(j, x),
    decreases sorted.len(),
{
    if sorted.len() == j {
        assert(sorted.insert(j, x) =~= sorted.push(x));
    } else {
        let p = sorted.drop_last();
        assert(!text_le(sorted[sorted.len() - 1].name@, x.name@));
        lemma_insert_by_name_at(p, x, j);
        assert(sorted.insert(j, x) =~= p.insert(j, x).push(sorted.last()));
    }
}

proof fn lemma_insert_by_name_sorted(sorted: Seq<CorpusListEntry>, x: CorpusListEntry)
    requires
        sorted_by_name(sorted),
    ensures
        sorted_by_name(insert_by_name(sorted, x)),
        insert_by_name(sorted, x).to_multiset() == sorted.to_multiset().insert(x),
    decreases sorted.len(),
{
    broadcast use vstd::seq_lib::group_to_multiset_ensures;
    if sorted.len() == 0 {
        assert(seq![x] =~= Seq::<CorpusListEntry>::empty().push(x));
    } else if text_le(sorted.last().name@, x.name@) {
        let r = sorted.push(x);
        assert forall|i: int, j: int| 0 <= i < j < r.len() implies text_le(
            #[trigger] r[i].name@,
            #[trigger] r[j].name@,
        ) by {
            if j == r.len() - 1 && i < sorted.len() - 1 {
                lemma_text_le_transitive(r[i].name@, sorted.last().name@, x.name@);
            }
        }
    } else {
        let p = sorted.drop_last();
        let l = sorted.last();
        assert(sorted_by_name(p));
        lemma_insert_by_name_sorted(p, x);
        let q = insert_by_name(p, x);
        let r = q.push(l);
        lemma_text_le_total(l.name@, x.name@);
        assert forall|k: int| 0 <= k < q.len() implies text_le(#[trigger] q[k].name@, l.name@) by {
            assert(q.to_multiset().count(q[k]) > 0);
            assert(q.to_multiset() == p.to_multiset().insert(x));
            if q[k] != x {
                assert(p.to_multiset().count(q[k]) > 0);
                assert(p.contains(q[k]));
                let m = choose|m: int| 0 <= m < p.len() && p[m] == q[k];
                assert(sorted[m] == p[m]);
                assert(text_le(sorted[m].name@, sorted[sorted.len() - 1].name@));
            }
        }
        assert forall|i: int, j: int| 0 <= i < j < r.len() implies text_le(
            #[trigger] r[i].name@,
            #[trigger] r[j].name@,
        ) by {
            if j == r.len() - 1 {
                assert(r[i] == q[i]);
            } else {
                assert(r[i] == q[i] && r[j] == q[j]);
            }
        }
        assert(sorted =~= p.push(l));
        assert(r.to_multiset() == q.to_multiset().insert(l));
        assert(sorted.to_multiset() == p.to_multiset().insert(l));
        assert(r.to_multiset() =~= sorted.to_multiset().insert(x));
    }
}

/// A sort by name is ordered and holds the same entries.
pub proof fn lemma_sort_by_name(s: Seq<CorpusListEntry>)
    ensures
        sorted_by_name(sort_by_name(s)),
        sort_by_name(s).to_multiset() == s.to_multiset(),
    decreases s.len(),
{
    broadcast use vstd::seq_lib::group_to_multiset_ensures;
    if s.len() > 0 {
        lemma_sort_by_name(s.drop_last());
        lemma_insert_by_name_sorted(sort_by_name(s.drop_last()), s.last());
        assert(s =~= s.drop_last().push(s.last()));
    }
}

/// The entries ordered by name, as a stable sort orders them.
pub fn sort_entries_by_name(entries: Vec<CorpusListEntry>) -> (r: Vec<CorpusListEntry>)
    ensures
        r@ == sort_by_name(entries@),
        sorted_by_name(r@),
        r@.to_multiset() == entries@.to_multiset(),
{
    let ghost orig = entries@;
    let mut rest = entries;
    let mut out: Vec<CorpusListEntry> = Vec::new();
    let ghost mut k: int = 0;
    while rest.len() > 0
        invariant
            0 <= k <= orig.len(),
            rest@ == orig.skip(k),
            out@ == sort_by_name(orig.take(k)),
        decreases rest.len(),
    {
        let x = rest.remove(0);
        proof {
            assert(orig.take(k + 1).drop_last() =~= orig.take(k));
            assert(orig.take(k + 1).last() == x);
            lemma_sort_by_name(orig.take(k));
        }
        let xn = chars_of(x.name.as_str());
        let mut j = out.len();
        loop
            invariant
                j <= out@.len(),
                xn@ == x.name@,
                forall|m: int| j <= m < out@.len() ==> !text_le(#[trigger] out@[m].name@, x.name@),
            ensures
                j <= out@.len(),
                forall|m: int| j <= m < out@.len() ==> !text_le(#[trigger] out@[m].name@, x.name@),
                j > 0 ==> text_le(out@[j - 1].name@, x.name@),
            decreases j,
        {
            if j == 0 {
                break;
            }
            let prev = chars_of(out[j - 1].name.as_str());
            if text_le_exec(prev.as_slice(), xn.as_slice()) {
                break;
            }
            j = j - 1;
        }
        proof {
            lemma_insert_by_name_at(out@, x, j as int);
        }
        out.insert(j, x);
        proof {
            k = k + 1;
            assert(rest@ =~= orig.skip(k));
        }
    }
    proof {
        assert(orig.take(k) =~= orig);
        lemma_sort_by_name(orig);
    }
    out
}

} // verus!
