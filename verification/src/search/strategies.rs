//! Search options and the SQLite strategy's decisions: which queries it takes, how many
//! rows, in what order, the full-text query, and which rows a filter keeps.
use vstd::prelude::*;

use crate::model::ObservationRow;
use crate::text::{
    chars_of, chars_vecs_view, join, join_chars, non_alnum_sep, split_by, split_chars,
    string_from_chars, strs_view,
};

verus! {

broadcast use vstd::string::group_string_axioms;

pub const DEFAULT_LIMIT: i64 = 20;

#[derive(Debug, Clone, Default, PartialEq, Eq)]
pub struct DateRange {
    pub start_epoch: Option<i64>,
    pub end_epoch: Option<i64>,
}

#[derive(Debug, Clone, Copy, PartialEq, Eq, Structural)]
pub enum SearchType {
    All,
    Observations,
    Sessions,
    Prompts,
}

impl Default for SearchType {
    fn default() -> (r: Self)
        ensures
            r == SearchType::All,
    {
        SearchType::All
    }
}

#[derive(Debug, Clone, Copy, PartialEq, Eq, Structural)]
pub enum OrderBy {
    DateDesc,
    DateAsc,
    Relevance,
}

impl Default for OrderBy {
    fn default() -> (r: Self)
        ensures
            r == OrderBy::DateDesc,
    {
        OrderBy::DateDesc
    }
}

#[derive(Debug, Clone, Copy, PartialEq, Eq, Structural)]
pub enum SearchStrategyHint {
    Sqlite,
    Chroma,
    Qdrant,
    Hybrid,
    Auto,
}

#[derive(Debug, Clone, Default, PartialEq, Eq)]
pub struct StrategySearchOptions {
    pub query: Option<String>,
    pub strategy_hint: Option<SearchStrategyHint>,
    pub search_type: SearchType,
    pub obs_type: Vec<String>,
    pub concepts: Vec<String>,
    pub files: Vec<String>,
    pub project: Option<String>,
    pub date_range: Option<DateRange>,
    pub limit: Option<i64>,
    pub offset: Option<i64>,
    pub order_by: OrderBy,
}

/// The number of rows a search returns: the requested limit, 20 by default, kept within
/// 1 to 100.
pub open spec fn limit_spec(options: StrategySearchOptions) -> i64 {
    let l = match options.limit {
        Some(l) => l,
        None => 20,
    };
    if l < 1 {
        1
    } else if l > 100 {
        100
    } else {
        l
    }
}

pub fn limit(options: &StrategySearchOptions) -> (r: i64)
    ensures
        r == limit_spec(*options),
        1 <= r <= 100,
{
    let l = match options.limit {
        Some(l) => l,
        None => DEFAULT_LIMIT,
    };
    if l < 1 {
        1
    } else if l > 100 {
        100
    } else {
        l
    }
}

#[derive(Debug, Clone, Copy, Default)]
pub struct SqliteSearchStrategy;

impl SqliteSearchStrategy {
    pub const NAME: &'static str = "sqlite";

    pub fn new() -> (r: Self) {
        Self
    }

    /// The SQLite strategy takes filter-only searches (no query text), and any search that
    /// asks for it by name.
    pub fn can_handle(&self, options: &StrategySearchOptions) -> (r: bool)
        ensures
            r == (match options.query {
                None => true,
                Some(q) => q@.len() == 0,
            } || options.strategy_hint == Some(SearchStrategyHint::Sqlite)),
    {
        let no_query = match &options.query {
            None => true,
            Some(q) => q.as_str().is_empty(),
        };
        no_query || match options.strategy_hint {
            Some(SearchStrategyHint::Sqlite) => true,
            _ => false,
        }
    }
}

/// The `ORDER BY` clause for a search over the table aliased `alias`: by full-text rank for
/// relevance when there is a full-text match, else by creation time then id, ascending or
/// descending.
pub open spec fn order_clause_spec(
    alias: Seq<char>,
    order_by: OrderBy,
    has_fts: bool,
    fts_alias: Seq<char>,
) -> Seq<char> {
    if order_by == OrderBy::Relevance && has_fts {
        "ORDER BY "@ + fts_alias + ".rank ASC"@
    } else if order_by == OrderBy::DateAsc {
        "ORDER BY "@ + alias + ".created_at_epoch ASC, "@ + alias + ".id ASC"@
    } else {
        "ORDER BY "@ + alias + ".created_at_epoch DESC, "@ + alias + ".id DESC"@
    }
}

pub fn order_clause(alias: &str, order_by: &OrderBy, has_fts: bool, fts_alias: &str) -> (r: String)
    ensures
        r@ == order_clause_spec(alias@, *order_by, has_fts, fts_alias@),
{
    let mut v: Vec<char> = Vec::new();
    match (order_by, has_fts) {
        (OrderBy::Relevance, true) => {
            crate::text::push_str(&mut v, "ORDER BY ");
            crate::text::push_str(&mut v, fts_alias);
            crate::text::push_str(&mut v, ".rank ASC");
        },
        (OrderBy::DateAsc, _) => {
            crate::text::push_str(&mut v, "ORDER BY ");
            crate::text::push_str(&mut v, alias);
            crate::text::push_str(&mut v, ".created_at_epoch ASC, ");
            crate::text::push_str(&mut v, alias);
            crate::text::push_str(&mut v, ".id ASC");
        },
        _ => {
            crate::text::push_str(&mut v, "ORDER BY ");
            crate::text::push_str(&mut v, alias);
            crate::text::push_str(&mut v, ".created_at_epoch DESC, ");
            crate::text::push_str(&mut v, alias);
            crate::text::push_str(&mut v, ".id DESC");
        },
    }
    string_from_chars(v.as_slice())
}

/// How a search is ordered: a descending date order sorts newest first and an ascending one
/// oldest first, with or without a full-text match; full-text rank decides the order only
/// when relevance is asked for and there is a full-text match, and relevance without one
/// sorts newest first. The full-text table's alias matters only for relevance ordering.
pub proof fn law_order_clause(alias: Seq<char>, has_fts: bool, fts_alias: Seq<char>, other_fts_alias: Seq<char>)
    ensures
        order_clause_spec(alias, OrderBy::DateDesc, has_fts, fts_alias) == "ORDER BY "@ + alias
            + ".created_at_epoch DESC, "@ + alias + ".id DESC"@,
        order_clause_spec(alias, OrderBy::DateAsc, has_fts, fts_alias) == "ORDER BY "@ + alias
            + ".created_at_epoch ASC, "@ + alias + ".id ASC"@,
        order_clause_spec(alias, OrderBy::Relevance, true, fts_alias) == "ORDER BY "@ + fts_alias
            + ".rank ASC"@,
        order_clause_spec(alias, OrderBy::Relevance, false, fts_alias) == "ORDER BY "@ + alias
            + ".created_at_epoch DESC, "@ + alias + ".id DESC"@,
        forall|o: OrderBy|
            o != OrderBy::Relevance ==> order_clause_spec(alias, o, true, fts_alias) == order_clause_spec(
                alias,
                o,
                false,
                other_fts_alias,
            ),
{
}

/// The `ORDER BY` clause for a prompt search.
pub fn prompt_order_clause(order_by: &OrderBy) -> (r: &'static str)
    ensures
        r@ == (if *order_by == OrderBy::DateAsc {
            "ORDER BY up.created_at_epoch ASC, up.id ASC"@
        } else {
            "ORDER BY up.created_at_epoch DESC, up.id DESC"@
        }),
{
    match order_by {
        OrderBy::DateAsc => "ORDER BY up.created_at_epoch ASC, up.id ASC",
        _ => "ORDER BY up.created_at_epoch DESC, up.id DESC",
    }
}

/// The entries of `parts` at least `n` characters long, in order.
pub open spec fn at_least(parts: Seq<Seq<char>>, n: int) -> Seq<Seq<char>>
    decreases parts.len(),
{
    if parts.len() == 0 {
        seq![]
    } else {
        let rest = at_least(parts.drop_last(), n);
        if parts.last().len() >= n {
            rest.push(parts.last())
        } else {
            rest
        }
    }
}

pub open spec fn first_n(parts: Seq<Seq<char>>, n: int) -> Seq<Seq<char>> {
    if parts.len() <= n {
        parts
    } else {
        parts.subrange(0, n)
    }
}

/// The full-text query for free text: its first eight runs of at least three ASCII letters
/// and digits, joined with ` OR `.
pub open spec fn fts_terms_query(input: Seq<char>) -> Seq<char> {
    join(first_n(at_least(split_by(input, non_alnum_sep()), 3), 8), " OR "@)
}

proof fn lemma_at_least(parts: Seq<Seq<char>>, n: int)
    ensures
        at_least(parts, n).len() <= parts.len(),
        forall|i: int| 0 <= i < at_least(parts, n).len() ==> (#[trigger] at_least(parts, n)[i]).len() >= n,
        forall|i: int| #![trigger at_least(parts, n)[i]] 0 <= i < at_least(parts, n).len() ==> exists|k: int|
            0 <= k < parts.len() && at_least(parts, n)[i] == #[trigger] parts[k],
    decreases parts.len(),
{
    if parts.len() > 0 {
        let p = parts.drop_last();
        lemma_at_least(p, n);
        let r = at_least(parts, n);
        let rp = at_least(p, n);
        assert forall|i: int| #![trigger r[i]] 0 <= i < r.len() implies exists|k: int|
            0 <= k < parts.len() && r[i] == #[trigger] parts[k] by {
            if i < rp.len() {
                assert(r[i] == rp[i]);
                let k = choose|k: int| 0 <= k < p.len() && rp[i] == #[trigger] p[k];
                assert(parts[k] == p[k]);
            } else {
                assert(r[i] == parts[parts.len() - 1]);
            }
        }
        assert forall|i: int| 0 <= i < r.len() implies (#[trigger] r[i]).len() >= n by {
            if i < rp.len() {
                assert(r[i] == rp[i]);
            }
        }
    }
}

/// The full-text query joins at most eight terms, each at least three characters long and
/// made of ASCII letters and digits only.
pub proof fn lemma_fts_terms(input: Seq<char>)
    ensures
        ({
            let terms = first_n(at_least(split_by(input, non_alnum_sep()), 3), 8);
            &&& terms.len() <= 8
            &&& fts_terms_query(input) == join(terms, " OR "@)
            &&& forall|i: int| 0 <= i < terms.len() ==> (#[trigger] terms[i]).len() >= 3
            &&& forall|i: int, j: int| 0 <= i < terms.len() && 0 <= j < terms[i].len() ==> crate::text::is_ascii_alnum(
                #[trigger] terms[i][j],
            )
        }),
{
    let pieces = split_by(input, non_alnum_sep());
    let long = at_least(pieces, 3);
    lemma_at_least(pieces, 3);
    crate::text::lemma_split_by_pieces(input, non_alnum_sep());
    let terms = first_n(long, 8);
    assert forall|i: int| 0 <= i < terms.len() implies (#[trigger] terms[i]).len() >= 3 by {
        assert(terms[i] == long[i]);
    }
    assert forall|i: int, j: int| 0 <= i < terms.len() && 0 <= j < terms[i].len() implies crate::text::is_ascii_alnum(
        #[trigger] terms[i][j],
    ) by {
        assert(terms[i] == long[i]);
        let k = choose|k: int| 0 <= k < pieces.len() && long[i] == #[trigger] pieces[k];
        assert(!(non_alnum_sep())(pieces[k][j]));
    }
}

/// The entries of `parts` at least `n` characters long, at most `max` of them.
pub fn first_long_parts(parts: &Vec<Vec<char>>, n: usize, max: usize) -> (r: Vec<Vec<char>>)
    ensures
        chars_vecs_view(r@) == first_n(at_least(chars_vecs_view(parts@), n as int), max as int),
{
    let mut out: Vec<Vec<char>> = Vec::new();
    let mut i: usize = 0;
    while i < parts.len()
        invariant
            i <= parts@.len(),
            chars_vecs_view(out@) == at_least(chars_vecs_view(parts@.subrange(0, i as int)), n as int),
        decreases parts.len() - i,
    {
        let ghost prev = chars_vecs_view(parts@.subrange(0, i as int));
        let ghost next = chars_vecs_view(parts@.subrange(0, i + 1));
        assert(next.drop_last() =~= prev);
        assert(next.last() == parts@[i as int]@);
        if parts[i].len() >= n {
            let ghost o0 = out@;
            out.push(parts[i].clone());
            assert(chars_vecs_view(out@) =~= chars_vecs_view(o0).push(parts@[i as int]@));
        }
        i = i + 1;
    }
    assert(parts@.subrange(0, parts@.len() as int) =~= parts@);
    if out.len() > max {
        let ghost all = out@;
        out.truncate(max);
        assert(chars_vecs_view(out@) =~= chars_vecs_view(all).subrange(0, max as int));
    }
    out
}

/// The full-text query for `input`, when it has any term of at least three characters.
pub fn fts_query(input: &str) -> (r: Option<String>)
    ensures
        match r {
            Some(q) => q@ == fts_terms_query(input@) && q@.len() > 0,
            None => fts_terms_query(input@).len() == 0,
        },
{
    let c = chars_of(input);
    let pieces = split_chars(c.as_slice(), crate::text::Separator::NonAlnum);
    let terms = first_long_parts(&pieces, 3, 8);
    let sep = chars_of(" OR ");
    let q = join_chars(&terms, sep.as_slice());
    if q.len() == 0 {
        None
    } else {
        Some(string_from_chars(q.as_slice()))
    }
}

/// `items` has an entry whose text is `x`.
pub open spec fn has_text(items: Seq<String>, x: Seq<char>) -> bool {
    exists|i: int| 0 <= i < items.len() && (#[trigger] items[i])@ == x
}

/// A time `epoch` lies in the optional range.
pub open spec fn in_date_range(range: Option<DateRange>, epoch: i64) -> bool {
    match range {
        None => true,
        Some(r) => (match r.start_epoch {
            None => true,
            Some(s) => epoch >= s,
        }) && (match r.end_epoch {
            None => true,
            Some(e) => epoch <= e,
        }),
    }
}

/// The row passes the search's project, date, kind and concept filters.
pub open spec fn observation_matches(row: ObservationRow, options: StrategySearchOptions) -> bool {
    &&& match options.project {
        None => true,
        Some(p) => row.project@ == p@,
    }
    &&& in_date_range(options.date_range, row.created_at_epoch)
    &&& (options.obs_type@.len() == 0 || has_text(options.obs_type@, row.observation_type@))
    &&& (options.concepts@.len() == 0 || match row.concepts {
        None => false,
        Some(cs) => exists|i: int|
            0 <= i < options.concepts@.len() && has_text(cs@, (#[trigger] options.concepts@[i])@),
    })
}

pub fn in_date_range_exec(range: &Option<DateRange>, epoch: i64) -> (r: bool)
    ensures
        r == in_date_range(*range, epoch),
{
    match range {
        None => true,
        Some(r) => (match r.start_epoch {
            None => true,
            Some(s) => epoch >= s,
        }) && (match r.end_epoch {
            None => true,
            Some(e) => epoch <= e,
        }),
    }
}

pub fn has_text_exec(items: &Vec<String>, x: &String) -> (r: bool)
    ensures
        r == has_text(items@, x@),
{
    let mut i: usize = 0;
    while i < items.len()
        invariant
            i <= items@.len(),
            forall|j: int| 0 <= j < i ==> (#[trigger] items@[j])@ != x@,
        decreases items.len() - i,
    {
        if items[i] == *x {
            assert(items@[i as int]@ == x@);
            return true;
        }
        i = i + 1;
    }
    false
}

/// Whether `row` passes the search's project, date, kind and concept filters.
#[verifier::loop_isolation(false)]
pub fn observation_matches_exec(row: &ObservationRow, options: &StrategySearchOptions) -> (r: bool)
    ensures
        r == observation_matches(*row, *options),
{
    let project_ok = match &options.project {
        None => true,
        Some(p) => row.project == *p,
    };
    if !project_ok || !in_date_range_exec(&options.date_range, row.created_at_epoch) {
        return false;
    }
    if options.obs_type.len() > 0 && !has_text_exec(&options.obs_type, &row.observation_type) {
        return false;
    }
    if options.concepts.len() == 0 {
        return true;
    }
    match &row.concepts {
        None => false,
        Some(cs) => {
            let mut i: usize = 0;
            while i < options.concepts.len()
                invariant
                    i <= options.concepts@.len(),
                    forall|j: int|
                        0 <= j < i ==> !has_text(cs@, (#[trigger] options.concepts@[j])@),
                decreases options.concepts.len() - i,
            {
                if has_text_exec(cs, &options.concepts[i]) {
                    assert(has_text(cs@, options.concepts@[i as int]@));
                    return true;
                }
                i = i + 1;
            }
            false
        },
    }
}

/// The rows of `rows` that pass the filters, in order.
pub open spec fn filter_rows(rows: Seq<ObservationRow>, options: StrategySearchOptions) -> Seq<
    ObservationRow,
>
    decreases rows.len(),
{
    if rows.len() == 0 {
        seq![]
    } else {
        let rest = filter_rows(rows.drop_last(), options);
        if observation_matches(rows.last(), options) {
            rest.push(rows.last())
        } else {
            rest
        }
    }
}

/// The rows that pass the search's project, date, kind and concept filters, in order.
pub fn filter_observations(rows: Vec<ObservationRow>, options: &StrategySearchOptions) -> (r: Vec<
    ObservationRow,
>)
    ensures
        r@ == filter_rows(rows@, *options),
{
    let mut out: Vec<ObservationRow> = Vec::new();
    let mut rows = rows;
    let ghost all = rows@;
    while rows.len() > 0
        invariant
            rows@.len() <= all.len(),
            rows@ == all.subrange(all.len() - rows@.len(), all.len() as int),
            out@ == filter_rows(all.subrange(0, all.len() - rows@.len()), *options),
        decreases rows@.len(),
    {
        let ghost k = all.len() - rows@.len();
        let row = rows.remove(0);
        assert(row == all[k]);
        assert(all.subrange(0, k + 1).drop_last() =~= all.subrange(0, k));
        assert(rows@ =~= all.subrange(k + 1, all.len() as int));
        if observation_matches_exec(&row, options) {
            out.push(row);
        }
    }
    assert(all.subrange(0, all.len() as int) =~= all);
    out
}

} // verus!
