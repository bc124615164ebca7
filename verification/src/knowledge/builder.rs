//! Assembling a corpus from the observation rows a filter selected: ordering, capping,
//! statistics, and the two rendering passes that fill in the prompt and the token estimate.
use vstd::prelude::*;

use crate::datetime::{max_timestamp, rfc3339_from_unix_timestamp, rfc3339_text, year_zero_timestamp};
use crate::knowledge::store::{store_error_text, CorpusStoreError};
use crate::knowledge::renderer::{
    corpus_text, system_prompt_parts, token_estimate_of, CorpusRenderer,
};
use crate::model::{
    CorpusDateRange, CorpusFile, CorpusFilter, CorpusObservation, CorpusStats, CorpusVersion,
    ObservationRow,
};
use crate::search::orchestrator::SearchOrchestrator;
use crate::search::result_formatter::{epoch_ms_to_seconds, epoch_seconds};
use crate::text::{
    chars_eq, chars_of, i64_text, int_text, join, join_strings, strs_view, string_from_chars,
};

verus! {

broadcast use vstd::string::group_string_axioms;

/// Why a corpus could not be built.
#[derive(Debug, Clone, PartialEq, Eq)]
pub enum CorpusBuilderError {
    /// The corpus store failed.
    Store(CorpusStoreError),
    /// The database failed, by its message.
    Sqlite(String),
}

pub open spec fn builder_error_text(e: CorpusBuilderError) -> Seq<char> {
    match e {
        CorpusBuilderError::Store(s) => store_error_text(s),
        CorpusBuilderError::Sqlite(m) => "sqlite error: "@ + m@,
    }
}

impl CorpusBuilderError {
    /// The error's message.
    pub fn message(&self) -> (r: String)
        ensures
            r@ == builder_error_text(*self),
    {
        match self {
            CorpusBuilderError::Store(s) => s.message(),
            CorpusBuilderError::Sqlite(m) => {
                let mut v = chars_of("sqlite error: ");
                crate::text::push_str(&mut v, m.as_str());
                string_from_chars(v.as_slice())
            },
        }
    }
}

/// Builds corpora from observation rows.
#[derive(Debug, Clone, Default)]
pub struct CorpusBuilder {
    orchestrator: SearchOrchestrator,
    renderer: CorpusRenderer,
}

/// A non-empty list joined with commas, if there is one.
pub open spec fn list_arg(key: Seq<char>, items: Option<Vec<String>>) -> Seq<(Seq<char>, Seq<char>)> {
    match items {
        Some(v) if v@.len() > 0 => seq![(key, join(strs_view(v@), ","@))],
        _ => seq![],
    }
}

pub open spec fn opt_arg(key: Seq<char>, v: Option<String>) -> Seq<(Seq<char>, Seq<char>)> {
    match v {
        Some(s) => seq![(key, s@)],
        None => seq![],
    }
}

/// The search arguments that select a filter's observations, in the order they are set.
pub open spec fn search_args_of(f: CorpusFilter) -> Seq<(Seq<char>, Seq<char>)> {
    opt_arg("project"@, f.project) + list_arg("obs_type"@, f.types) + list_arg(
        "concepts"@,
        f.concepts,
    ) + list_arg("files"@, f.files) + (match f.query {
        Some(q) if q@.len() > 0 => seq![("query"@, q@)],
        _ => seq![],
    }) + opt_arg("dateStart"@, f.date_start) + opt_arg("dateEnd"@, f.date_end) + (match f.limit {
        Some(l) => seq![("limit"@, int_text(l as int))],
        None => seq![],
    })
}

pub open spec fn pairs_view(v: Seq<(String, String)>) -> Seq<(Seq<char>, Seq<char>)> {
    v.map_values(|p: (String, String)| (p.0@, p.1@))
}

fn push_pair(args: &mut Vec<(String, String)>, key: &str, value: String)
    ensures
        pairs_view(final(args)@) == pairs_view(old(args)@).push((key@, value@)),
{
    let ghost a0 = args@;
    args.push((key.to_owned(), value));
    assert(pairs_view(args@) =~= pairs_view(a0).push((key@, value@)));
}

fn push_list_arg(args: &mut Vec<(String, String)>, key: &str, items: &Option<Vec<String>>)
    ensures
        pairs_view(final(args)@) == pairs_view(old(args)@) + list_arg(key@, *items),
{
    let ghost a0 = pairs_view(args@);
    if let Some(v) = items {
        if v.len() > 0 {
            push_pair(args, key, join_strings(v, ","));
            assert(pairs_view(args@) =~= a0 + list_arg(key@, *items));
            return ;
        }
    }
    assert(pairs_view(args@) =~= a0 + list_arg(key@, *items));
}

fn push_opt_arg(args: &mut Vec<(String, String)>, key: &str, v: &Option<String>)
    ensures
        pairs_view(final(args)@) == pairs_view(old(args)@) + opt_arg(key@, *v),
{
    let ghost a0 = pairs_view(args@);
    if let Some(s) = v {
        push_pair(args, key, s.clone());
    }
    assert(pairs_view(args@) =~= a0 + opt_arg(key@, *v));
}

/// The search arguments, as key and value pairs, that select the observations of `filter`.
pub fn filter_to_search_args(filter: &CorpusFilter) -> (r: Vec<(String, String)>)
    ensures
        pairs_view(r@) == search_args_of(*filter),
{
    let mut args: Vec<(String, String)> = Vec::new();
    assert(pairs_view(args@) =~= Seq::<(Seq<char>, Seq<char>)>::empty());
    push_opt_arg(&mut args, "project", &filter.project);
    push_list_arg(&mut args, "obs_type", &filter.types);
    push_list_arg(&mut args, "concepts", &filter.concepts);
    push_list_arg(&mut args, "files", &filter.files);
    let ghost a4 = pairs_view(args@);
    if let Some(q) = &filter.query {
        if !q.as_str().is_empty() {
            push_pair(&mut args, "query", q.clone());
        }
    }
    assert(pairs_view(args@) =~= a4 + (match filter.query {
        Some(q) if q@.len() > 0 => seq![("query"@, q@)],
        _ => Seq::<(Seq<char>, Seq<char>)>::empty(),
    }));
    push_opt_arg(&mut args, "dateStart", &filter.date_start);
    push_opt_arg(&mut args, "dateEnd", &filter.date_end);
    let ghost a7 = pairs_view(args@);
    if let Some(limit) = filter.limit {
        push_pair(&mut args, "limit", i64_text(limit));
    }
    assert(pairs_view(args@) =~= a7 + (match filter.limit {
        Some(l) => seq![("limit"@, int_text(l as int))],
        None => Seq::<(Seq<char>, Seq<char>)>::empty(),
    }));
    args
}

pub open spec fn list_or_empty(v: Option<Vec<String>>) -> Seq<Seq<char>> {
    match v {
        Some(items) => strs_view(items@),
        None => seq![],
    }
}

/// The corpus form of a stored observation: missing lists become empty, a missing title
/// becomes empty text.
pub open spec fn corpus_observation_matches(o: CorpusObservation, row: ObservationRow) -> bool {
    &&& o.id == row.id
    &&& o.observation_type@ == row.observation_type@
    &&& o.title@ == (match row.title {
        Some(t) => t@,
        None => Seq::<char>::empty(),
    })
    &&& crate::text::opt_view(o.subtitle) == crate::text::opt_view(row.subtitle)
    &&& crate::text::opt_view(o.narrative) == crate::text::opt_view(row.narrative)
    &&& strs_view(o.facts@) == list_or_empty(row.facts)
    &&& strs_view(o.concepts@) == list_or_empty(row.concepts)
    &&& strs_view(o.files_read@) == list_or_empty(row.files_read)
    &&& strs_view(o.files_modified@) == list_or_empty(row.files_modified)
    &&& o.project@ == row.project@
    &&& o.created_at@ == row.created_at@
    &&& o.created_at_epoch == row.created_at_epoch
}

fn list_or_new(v: Option<Vec<String>>) -> (r: Vec<String>)
    ensures
        strs_view(r@) == list_or_empty(v),
{
    match v {
        Some(items) => items,
        None => {
            let r: Vec<String> = Vec::new();
            assert(strs_view(r@) =~= Seq::<Seq<char>>::empty());
            r
        },
    }
}

/// The corpus form of a stored observation.
pub fn map_row(row: ObservationRow) -> (r: CorpusObservation)
    ensures
        corpus_observation_matches(r, row),
{
    let title = match row.title {
        Some(t) => t,
        None => String::new(),
    };
    CorpusObservation {
        id: row.id,
        observation_type: row.observation_type,
        title,
        subtitle: row.subtitle,
        narrative: row.narrative,
        facts: list_or_new(row.facts),
        concepts: list_or_new(row.concepts),
        files_read: list_or_new(row.files_read),
        files_modified: list_or_new(row.files_modified),
        project: row.project,
        created_at: row.created_at,
        created_at_epoch: row.created_at_epoch,
    }
}

/// `a` comes no later than `b`: earlier creation time first, then lower id.
pub open spec fn time_le(a: CorpusObservation, b: CorpusObservation) -> bool {
    a.created_at_epoch < b.created_at_epoch || (a.created_at_epoch == b.created_at_epoch && a.id
        <= b.id)
}

pub open spec fn insert_by_time(sorted: Seq<CorpusObservation>, x: CorpusObservation) -> Seq<
    CorpusObservation,
>
    decreases sorted.len(),
{
    if sorted.len() == 0 {
        seq![x]
    } else if time_le(sorted.last(), x) {
        sorted.push(x)
    } else {
        insert_by_time(sorted.drop_last(), x).push(sorted.last())
    }
}

/// The observations ordered by creation time, then id, equal ones kept in their given
/// order: what a stable sort on that key gives.
pub open spec fn sort_by_time(s: Seq<CorpusObservation>) -> Seq<CorpusObservation>
    decreases s.len(),
{
    if s.len() == 0 {
        seq![]
    } else {
        insert_by_time(sort_by_time(s.drop_last()), s.last())
    }
}

pub open spec fn sorted_by_time(s: Seq<CorpusObservation>) -> bool {
    forall|i: int, j: int| 0 <= i < j < s.len() ==> time_le(#[trigger] s[i], #[trigger] s[j])
}

proof fn lemma_insert_by_time_at(sorted: Seq<CorpusObservation>, x: CorpusObservation, j: int)
    requires
        0 <= j <= sorted.len(),
        forall|k: int| j <= k < sorted.len() ==> !time_le(#[trigger] sorted[k], x),
        j > 0 ==> time_le(sorted[j - 1], x),
    ensures
        insert_by_time(sorted, x) == sorted.insert(j, x),
    decreases sorted.len(),
{
    if sorted.len() == j {
        assert(sorted.insert(j, x) =~= sorted.push(x));
    } else {
        let p = sorted.drop_last();
        assert(!time_le(sorted[sorted.len() - 1], x));
        lemma_insert_by_time_at(p, x, j);
        assert(sorted.insert(j, x) =~= p.insert(j, x).push(sorted.last()));
    }
}

proof fn lemma_insert_by_time_sorted(sorted: Seq<CorpusObservation>, x: CorpusObservation)
    requires
        sorted_by_time(sorted),
    ensures
        sorted_by_time(insert_by_time(sorted, x)),
        insert_by_time(sorted, x).to_multiset() == sorted.to_multiset().insert(x),
    decreases sorted.len(),
{
    broadcast use vstd::seq_lib::group_to_multiset_ensures;

    if sorted.len() == 0 {
        assert(seq![x] =~= Seq::<CorpusObservation>::empty().push(x));
    } else if time_le(sorted.last(), x) {
        let r = sorted.push(x);
        assert forall|i: int, j: int| 0 <= i < j < r.len() implies time_le(
            #[trigger] r[i],
            #[trigger] r[j],
        ) by {
            if j == r.len() - 1 && i < sorted.len() - 1 {
                assert(time_le(r[i], sorted.last()));
            }
        }
    } else {
        let p = sorted.drop_last();
        let l = sorted.last();
        assert(sorted_by_time(p));
        lemma_insert_by_time_sorted(p, x);
        let q = insert_by_time(p, x);
        let r = q.push(l);
        assert forall|k: int| 0 <= k < q.len() implies time_le(#[trigger] q[k], l) by {
            assert(q.to_multiset().count(q[k]) > 0);
            if q[k] != x {
                assert(p.to_multiset().count(q[k]) > 0);
                assert(p.contains(q[k]));
                let m = choose|m: int| 0 <= m < p.len() && p[m] == q[k];
                assert(sorted[m] == p[m]);
                assert(time_le(sorted[m], sorted[sorted.len() - 1]));
            }
        }
        assert forall|i: int, j: int| 0 <= i < j < r.len() implies time_le(
            #[trigger] r[i],
            #[trigger] r[j],
        ) by {
            if j == r.len() - 1 {
                assert(r[i] == q[i]);
            } else {
                assert(r[i] == q[i] && r[j] == q[j]);
            }
        }
        assert(sorted =~= p.push(l));
        assert(r.to_multiset() =~= sorted.to_multiset().insert(x));
    }
}

/// A sort by time is ordered and holds the same observations.
pub proof fn lemma_sort_by_time(s: Seq<CorpusObservation>)
    ensures
        sorted_by_time(sort_by_time(s)),
        sort_by_time(s).to_multiset() == s.to_multiset(),
        sort_by_time(s).len() == s.len(),
    decreases s.len(),
{
    broadcast use vstd::seq_lib::group_to_multiset_ensures;

    if s.len() > 0 {
        lemma_sort_by_time(s.drop_last());
        lemma_insert_by_time_sorted(sort_by_time(s.drop_last()), s.last());
        assert(s =~= s.drop_last().push(s.last()));
        assert(sort_by_time(s).to_multiset().len() == s.to_multiset().len());
    }
}

fn time_le_exec(a: &CorpusObservation, b: &CorpusObservation) -> (r: bool)
    ensures
        r == time_le(*a, *b),
{
    a.created_at_epoch < b.created_at_epoch || (a.created_at_epoch == b.created_at_epoch && a.id
        <= b.id)
}

/// Stored rows in their corpus form, ordered by creation time and then id.
pub fn sorted_corpus_observations(rows: Vec<ObservationRow>) -> (r: Vec<CorpusObservation>)
    ensures
        exists|mapped: Seq<CorpusObservation>|
            {
                &&& mapped.len() == rows@.len()
                &&& (forall|i: int|
                    0 <= i < rows@.len() ==> corpus_observation_matches(
                        #[trigger] mapped[i],
                        rows@[i],
                    ))
                &&& r@ == sort_by_time(mapped)
            },
        sorted_by_time(r@),
        r@.len() == rows@.len(),
{
    let ghost orig = rows@;
    let mut rest = rows;
    let mut out: Vec<CorpusObservation> = Vec::new();
    let ghost mut mapped: Seq<CorpusObservation> = Seq::empty();
    let ghost mut k: int = 0;
    while rest.len() > 0
        invariant
            0 <= k <= orig.len(),
            rest@ == orig.skip(k),
            mapped.len() == k,
            forall|i: int| 0 <= i < k ==> corpus_observation_matches(#[trigger] mapped[i], orig[i]),
            out@ == sort_by_time(mapped),
        decreases rest.len(),
    {
        let row = rest.remove(0);
        assert(row == orig[k]);
        let x = map_row(row);
        proof {
            lemma_sort_by_time(mapped);
        }
        let mut j = out.len();
        loop
            invariant
                j <= out@.len(),
                forall|m: int| j <= m < out@.len() ==> !time_le(#[trigger] out@[m], x),
            ensures
                j <= out@.len(),
                forall|m: int| j <= m < out@.len() ==> !time_le(#[trigger] out@[m], x),
                j > 0 ==> time_le(out@[j - 1], x),
            decreases j,
        {
            if j == 0 {
                break;
            }
            if time_le_exec(&out[j - 1], &x) {
                break;
            }
            j = j - 1;
        }
        proof {
            lemma_insert_by_time_at(out@, x, j as int);
        }
        out.insert(j, x);
        proof {
            let m2 = mapped.push(x);
            assert(m2.drop_last() =~= mapped);
            mapped = m2;
            k = k + 1;
            assert(rest@ =~= orig.skip(k));
        }
    }
    proof {
        lemma_sort_by_time(mapped);
        assert(out@.to_multiset().len() == mapped.to_multiset().len());
    }
    out
}

/// How many observations of `obs` have the type `t`.
pub open spec fn type_count(obs: Seq<CorpusObservation>, t: Seq<char>) -> int
    decreases obs.len(),
{
    if obs.len() == 0 {
        0
    } else {
        type_count(obs.drop_last(), t) + (if obs.last().observation_type@ == t {
            1int
        } else {
            0int
        })
    }
}

/// `b` counts the observations of each type: one entry per type present, no entry twice.
pub open spec fn breakdown_is(b: Seq<(String, i64)>, obs: Seq<CorpusObservation>) -> bool {
    &&& forall|i: int, j: int| 0 <= i < j < b.len() ==> (#[trigger] b[i]).0@ != (#[trigger] b[j]).0@
    &&& forall|i: int|
        0 <= i < b.len() ==> (#[trigger] b[i]).1 == type_count(obs, b[i].0@) && type_count(
            obs,
            b[i].0@,
        ) > 0
    &&& forall|k: int|
        0 <= k < obs.len() ==> exists|i: int|
            0 <= i < b.len() && (#[trigger] b[i]).0@ == (#[trigger] obs[k]).observation_type@
}

proof fn lemma_type_count_absent(obs: Seq<CorpusObservation>, t: Seq<char>)
    requires
        forall|k: int| 0 <= k < obs.len() ==> (#[trigger] obs[k]).observation_type@ != t,
    ensures
        type_count(obs, t) == 0,
    decreases obs.len(),
{
    if obs.len() > 0 {
        lemma_type_count_absent(obs.drop_last(), t);
    }
}

proof fn lemma_type_count_bound(obs: Seq<CorpusObservation>, t: Seq<char>)
    ensures
        0 <= type_count(obs, t) <= obs.len(),
    decreases obs.len(),
{
    if obs.len() > 0 {
        lemma_type_count_bound(obs.drop_last(), t);
    }
}

/// The index of the entry of `b` whose type is `t`, if any.
fn find_type(b: &Vec<(String, i64)>, t: &Vec<char>) -> (r: Option<usize>)
    ensures
        match r {
            Some(i) => i < b@.len() && b@[i as int].0@ == t@,
            None => forall|i: int| 0 <= i < b@.len() ==> (#[trigger] b@[i]).0@ != t@,
        },
{
    let mut i: usize = 0;
    while i < b.len()
        invariant
            i <= b@.len(),
            forall|j: int| 0 <= j < i ==> (#[trigger] b@[j]).0@ != t@,
        decreases b.len() - i,
    {
        let k = chars_of(b[i].0.as_str());
        if chars_eq(k.as_slice(), t.as_slice()) {
            return Some(i);
        }
        i = i + 1;
    }
    None
}

/// The total of the counts of a breakdown.
pub open spec fn sum_counts(b: Seq<(String, i64)>) -> int
    decreases b.len(),
{
    if b.len() == 0 {
        0
    } else {
        sum_counts(b.drop_last()) + b.last().1
    }
}

proof fn lemma_sum_counts_update(b: Seq<(String, i64)>, k: int, e: (String, i64))
    requires
        0 <= k < b.len(),
    ensures
        sum_counts(b.update(k, e)) == sum_counts(b) - b[k].1 + e.1,
    decreases b.len(),
{
    if k < b.len() - 1 {
        lemma_sum_counts_update(b.drop_last(), k, e);
        assert(b.update(k, e).drop_last() =~= b.drop_last().update(k, e));
    } else {
        assert(b.update(k, e).drop_last() =~= b.drop_last());
    }
}

/// The number of observations of each type.
pub fn type_breakdown(observations: &Vec<CorpusObservation>) -> (r: Vec<(String, i64)>)
    requires
        observations@.len() <= i64::MAX,
    ensures
        breakdown_is(r@, observations@),
        sum_counts(r@) == observations@.len(),
{
    let mut b: Vec<(String, i64)> = Vec::new();
    let mut i: usize = 0;
    while i < observations.len()
        invariant
            i <= observations@.len() <= i64::MAX,
            breakdown_is(b@, observations@.take(i as int)),
            sum_counts(b@) == i,
        decreases observations.len() - i,
    {
        let ghost pre = observations@.take(i as int);
        let ghost post = observations@.take(i + 1);
        let ghost x = observations@[i as int];
        assert(post.drop_last() =~= pre);
        assert(post.last() == x);
        let t = chars_of(observations[i].observation_type.as_str());
        let ghost b0 = b@;
        assert forall|u: Seq<char>| #[trigger] type_count(post, u) == type_count(pre, u) + (if x.observation_type@ == u { 1int } else { 0int }) by {}
        match find_type(&b, &t) {
            Some(idx) => {
                let c = b[idx].1;
                proof {
                    lemma_type_count_bound(pre, t@);
                }
                let key = b[idx].0.clone();
                proof {
                    lemma_sum_counts_update(b@, idx as int, (key, (c + 1) as i64));
                }
                b.set(idx, (key, c + 1));
                assert forall|k: int| 0 <= k < post.len() implies exists|j: int|
                    0 <= j < b@.len() && (#[trigger] b@[j]).0@ == (#[trigger] post[k]).observation_type@ by {
                    if k < pre.len() {
                        assert(pre[k] == post[k]);
                        let j = choose|j: int| 0 <= j < b0.len() && (#[trigger] b0[j]).0@ == (#[trigger] pre[k]).observation_type@;
                        assert(b@[j].0@ == b0[j].0@);
                    } else {
                        assert(b@[idx as int].0@ == post[k].observation_type@);
                    }
                }
                assert forall|p: int, q: int| 0 <= p < q < b@.len() implies (#[trigger] b@[p]).0@ != (#[trigger] b@[q]).0@ by {
                    assert(b@[p].0@ == b0[p].0@ && b@[q].0@ == b0[q].0@);
                }
                assert forall|p: int| 0 <= p < b@.len() implies (#[trigger] b@[p]).1 == type_count(post, b@[p].0@) && type_count(post, b@[p].0@) > 0 by {
                    assert(b@[p].0@ == b0[p].0@);
                }
            },
            None => {
                let key = observations[i].observation_type.clone();
                proof {
                    assert forall|k: int| 0 <= k < pre.len() implies (#[trigger] pre[k]).observation_type@ != t@ by {
                        let j = choose|j: int| 0 <= j < b0.len() && (#[trigger] b0[j]).0@ == (#[trigger] pre[k]).observation_type@;
                    }
                    lemma_type_count_absent(pre, t@);
                }
                b.push((key, 1));
                assert(b@.drop_last() =~= b0);
                assert forall|k: int| 0 <= k < post.len() implies exists|j: int|
                    0 <= j < b@.len() && (#[trigger] b@[j]).0@ == (#[trigger] post[k]).observation_type@ by {
                    if k < pre.len() {
                        assert(pre[k] == post[k]);
                        let j = choose|j: int| 0 <= j < b0.len() && (#[trigger] b0[j]).0@ == (#[trigger] pre[k]).observation_type@;
                        assert(b@[j] == b0[j]);
                    } else {
                        assert(b@[b0.len() as int].0@ == post[k].observation_type@);
                    }
                }
                assert forall|p: int, q: int| 0 <= p < q < b@.len() implies (#[trigger] b@[p]).0@ != (#[trigger] b@[q]).0@ by {
                    if q < b0.len() {
                        assert(b@[p] == b0[p] && b@[q] == b0[q]);
                    } else {
                        assert(b@[p] == b0[p]);
                    }
                }
                assert forall|p: int| 0 <= p < b@.len() implies (#[trigger] b@[p]).1 == type_count(post, b@[p].0@) && type_count(post, b@[p].0@) > 0 by {
                    if p < b0.len() {
                        assert(b@[p] == b0[p]);
                    }
                }
            },
        }
        i = i + 1;
    }
    assert(observations@.take(observations@.len() as int) =~= observations@);
    b
}

/// The earliest creation time among `obs`, or `i64::MAX` for none.
pub open spec fn min_epoch(obs: Seq<CorpusObservation>) -> i64
    decreases obs.len(),
{
    if obs.len() == 0 {
        i64::MAX
    } else {
        let m = min_epoch(obs.drop_last());
        if obs.last().created_at_epoch < m {
            obs.last().created_at_epoch
        } else {
            m
        }
    }
}

/// The latest creation time among `obs`, or `i64::MIN` for none.
pub open spec fn max_epoch(obs: Seq<CorpusObservation>) -> i64
    decreases obs.len(),
{
    if obs.len() == 0 {
        i64::MIN
    } else {
        let m = max_epoch(obs.drop_last());
        if obs.last().created_at_epoch > m {
            obs.last().created_at_epoch
        } else {
            m
        }
    }
}

/// A millisecond timestamp as an RFC 3339 UTC date-time; the Unix epoch when RFC 3339 cannot
/// write it.
pub open spec fn iso_text(epoch_ms: int) -> Seq<char> {
    let ts = epoch_seconds(epoch_ms);
    if year_zero_timestamp() <= ts <= max_timestamp() {
        rfc3339_text(ts)
    } else {
        "1970-01-01T00:00:00Z"@
    }
}

pub fn epoch_ms_to_iso(epoch_ms: i64) -> (r: String)
    ensures
        r@ == iso_text(epoch_ms as int),
{
    let secs = epoch_ms_to_seconds(epoch_ms);
    match rfc3339_from_unix_timestamp(secs) {
        Some(text) => text,
        None => "1970-01-01T00:00:00Z".to_owned(),
    }
}

/// The statistics of a corpus's observations; an empty corpus has `now` for both ends of
/// its date range. The token estimate is left at zero.
pub open spec fn stats_match(s: CorpusStats, obs: Seq<CorpusObservation>, now: Seq<char>) -> bool {
    &&& s.observation_count == obs.len()
    &&& s.token_estimate == 0
    &&& breakdown_is(s.type_breakdown@, obs)
    &&& sum_counts(s.type_breakdown@) == obs.len()
    &&& s.date_range.earliest@ == (if obs.len() == 0 {
        now
    } else {
        iso_text(min_epoch(obs) as int)
    })
    &&& s.date_range.latest@ == (if obs.len() == 0 {
        now
    } else {
        iso_text(max_epoch(obs) as int)
    })
}

/// Statistics over `observations`, with `now` as the date range of an empty corpus.
pub fn calculate_stats(observations: &Vec<CorpusObservation>, now: &str) -> (r: CorpusStats)
    requires
        observations@.len() <= i64::MAX,
    ensures
        stats_match(r, observations@, now@),
{
    let mut earliest = i64::MAX;
    let mut latest = i64::MIN;
    let mut i: usize = 0;
    while i < observations.len()
        invariant
            i <= observations@.len(),
            earliest == min_epoch(observations@.take(i as int)),
            latest == max_epoch(observations@.take(i as int)),
        decreases observations.len() - i,
    {
        assert(observations@.take(i + 1).drop_last() =~= observations@.take(i as int));
        let e = observations[i].created_at_epoch;
        if e < earliest {
            earliest = e;
        }
        if e > latest {
            latest = e;
        }
        i = i + 1;
    }
    assert(observations@.take(observations@.len() as int) =~= observations@);
    let (first, last) = if observations.len() == 0 {
        (now.to_owned(), now.to_owned())
    } else {
        (epoch_ms_to_iso(earliest), epoch_ms_to_iso(latest))
    };
    CorpusStats {
        observation_count: observations.len() as i64,
        token_estimate: 0,
        date_range: CorpusDateRange { earliest: first, latest: last },
        type_breakdown: type_breakdown(observations),
    }
}

/// The first `limit` observations when a non-negative cap is set; a negative cap keeps none.
/// A capped list never has more entries than a non-negative limit, and keeps its order.
pub proof fn lemma_capped(obs: Seq<CorpusObservation>, limit: Option<i64>)
    ensures
        capped(obs, limit).len() <= obs.len(),
        limit is Some && limit->0 >= 0 ==> capped(obs, limit).len() <= limit->0,
        capped(obs, limit) == obs.take(capped(obs, limit).len() as int),
{
    assert(obs.take(obs.len() as int) =~= obs);
}

pub open spec fn capped(obs: Seq<CorpusObservation>, limit: Option<i64>) -> Seq<CorpusObservation> {
    match limit {
        Some(l) => {
            let cap: int = if l < 0 {
                0
            } else {
                l as int
            };
            if obs.len() > cap {
                obs.take(cap)
            } else {
                obs
            }
        },
        None => obs,
    }
}

/// The corpus before its rendering passes: no prompt and no token estimate yet.
pub open spec fn draft_corpus_is(
    c: CorpusFile,
    name: Seq<char>,
    description: Seq<char>,
    filter: CorpusFilter,
    obs: Seq<CorpusObservation>,
    now: Seq<char>,
) -> bool {
    &&& c.name@ == name
    &&& c.description@ == description
    &&& c.created_at@ == now
    &&& c.updated_at@ == now
    &&& c.filter == filter
    &&& stats_match(c.stats, obs, now)
    &&& c.system_prompt@.len() == 0
    &&& c.session_id is None
    &&& c.observations@ == obs
}

/// The first `limit` observations, as `capped` says.
pub fn cap_observations(observations: Vec<CorpusObservation>, limit: Option<i64>) -> (r: Vec<
    CorpusObservation,
>)
    ensures
        r@ == capped(observations@, limit),
{
    let mut observations = observations;
    if let Some(l) = limit {
        let cap: usize = if l < 0 {
            0
        } else if l as u64 > usize::MAX as u64 {
            usize::MAX
        } else {
            l as usize
        };
        if observations.len() > cap {
            observations.truncate(cap);
        }
    }
    observations
}

/// A corpus with the given observations, its statistics, and no prompt yet.
fn draft_corpus(
    name: &str,
    description: &str,
    filter: CorpusFilter,
    observations: Vec<CorpusObservation>,
    now: &str,
) -> (r: CorpusFile)
    requires
        observations@.len() <= i64::MAX,
    ensures
        draft_corpus_is(r, name@, description@, filter, observations@, now@),
{
    let stats = calculate_stats(&observations, now);
    CorpusFile {
        version: CorpusVersion,
        name: name.to_owned(),
        description: description.to_owned(),
        created_at: now.to_owned(),
        updated_at: now.to_owned(),
        filter,
        stats,
        system_prompt: String::new(),
        session_id: None,
        observations,
    }
}

/// `r` is `draft` with its system prompt and the token estimate of its rendering filled in.
pub open spec fn finished_from(r: CorpusFile, draft: CorpusFile) -> bool {
    &&& r.version == draft.version
    &&& r.name == draft.name
    &&& r.description == draft.description
    &&& r.created_at == draft.created_at
    &&& r.updated_at == draft.updated_at
    &&& r.filter == draft.filter
    &&& r.session_id == draft.session_id
    &&& r.observations == draft.observations
    &&& r.stats.observation_count == draft.stats.observation_count
    &&& r.stats.date_range == draft.stats.date_range
    &&& r.stats.type_breakdown == draft.stats.type_breakdown
    &&& r.system_prompt@ == join(system_prompt_parts(draft), "\n"@)
    &&& r.stats.token_estimate == token_estimate_of(
        corpus_text((CorpusFile { system_prompt: r.system_prompt, ..draft })),
    )
}

impl CorpusBuilder {
    /// Whether the builder's searches may use the vector store.
    pub closed spec fn searches_vector_store(&self) -> bool {
        self.orchestrator.chroma_available
    }

    /// A builder whose searches use SQLite only.
    pub fn new() -> (r: Self)
        ensures
            !r.searches_vector_store(),
    {
        CorpusBuilder { orchestrator: SearchOrchestrator::new(), renderer: CorpusRenderer }
    }

    /// The two rendering passes: the system prompt of the draft, then the token estimate of
    /// the draft rendered with that prompt.
    fn finish(&self, draft: CorpusFile) -> (r: CorpusFile)
        requires
            draft.stats.token_estimate == 0,
        ensures
            finished_from(r, draft),
    {
        let mut corpus = draft;
        corpus.system_prompt = self.renderer.generate_system_prompt(&corpus);
        let rendered = self.renderer.render_corpus(&corpus);
        corpus.stats.token_estimate = self.renderer.estimate_tokens(rendered.as_str());
        corpus
    }

    /// The corpus `name` made of the observation rows that its filter selected, at the time
    /// `now`: rows in their corpus form, ordered by creation time then id, cut to the
    /// filter's limit, with statistics, the system prompt, and the token estimate of the
    /// rendered corpus.
    pub fn assemble(
        &self,
        name: &str,
        description: &str,
        filter: CorpusFilter,
        rows: Vec<ObservationRow>,
        now: &str,
    ) -> (r: CorpusFile)
        requires
            rows@.len() <= i64::MAX,
        ensures
            exists|mapped: Seq<CorpusObservation>, draft: CorpusFile|
                {
                    &&& mapped.len() == rows@.len()
                    &&& (forall|i: int|
                        0 <= i < rows@.len() ==> corpus_observation_matches(
                            #[trigger] mapped[i],
                            rows@[i],
                        ))
                    &&& draft_corpus_is(
                        draft,
                        name@,
                        description@,
                        filter,
                        capped(sort_by_time(mapped), filter.limit),
                        now@,
                    )
                    &&& finished_from(r, draft)
                },
            sorted_by_time(r.observations@),
    {
        let limit = filter.limit;
        let sorted = sorted_corpus_observations(rows);
        let ghost mapped = choose|mapped: Seq<CorpusObservation>|
            {
                &&& mapped.len() == rows@.len()
                &&& (forall|i: int|
                    0 <= i < rows@.len() ==> corpus_observation_matches(
                        #[trigger] mapped[i],
                        rows@[i],
                    ))
                &&& sorted@ == sort_by_time(mapped)
            };
        let ghost s = sorted@;
        let observations = cap_observations(sorted, limit);
        assert forall|i: int, j: int| 0 <= i < j < observations@.len() implies time_le(
            #[trigger] observations@[i],
            #[trigger] observations@[j],
        ) by {
            assert(observations@[i] == s[i] && observations@[j] == s[j]);
        }
        let draft = draft_corpus(name, description, filter, observations, now);
        let ghost d = draft;
        let r = self.finish(draft);
        assert(draft_corpus_is(d, name@, description@, filter, capped(sort_by_time(mapped), filter.limit), now@));
        r
    }
}

} // verus!
