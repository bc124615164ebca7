//! The SQL text and arguments of the id queries behind a search: filters on project, date,
//! type, concept and file, full-text matches, ordering and paging.
use vstd::prelude::*;

use crate::search::strategies::{
    fts_query, fts_terms_query, limit, limit_spec, order_clause, order_clause_spec,
    prompt_order_clause, OrderBy, StrategySearchOptions,
};
use crate::json::{json_get, JsonValue};
use crate::text::{
    chars_eq_str, chars_of, join, join_strings, nat_text, push_str, push_u64_text,
    string_from_chars, strs_view,
};

verus! {

broadcast use vstd::string::group_string_axioms;

/// One bound argument of a query.
#[derive(Debug, Clone, PartialEq, Eq)]
pub enum SqlParam {
    Text(String),
    Integer(i64),
}

/// A bound argument as a value.
pub enum ParamView {
    Text(Seq<char>),
    Integer(i64),
}

pub open spec fn param_view(p: SqlParam) -> ParamView {
    match p {
        SqlParam::Text(s) => ParamView::Text(s@),
        SqlParam::Integer(i) => ParamView::Integer(i),
    }
}

pub open spec fn params_view(ps: Seq<SqlParam>) -> Seq<ParamView> {
    ps.map_values(|p: SqlParam| param_view(p))
}

/// A query's text and its arguments, in the order of their placeholders.
#[derive(Debug, Clone, PartialEq, Eq)]
pub struct SqlQuery {
    pub sql: String,
    pub params: Vec<SqlParam>,
}

/// The texts of `items`, each as a text argument.
pub open spec fn texts_args(items: Seq<String>) -> Seq<ParamView> {
    items.map_values(|s: String| ParamView::Text(s@))
}

/// `%file%`: a `LIKE` pattern matching any text that contains `file`.
pub open spec fn like_arg(file: Seq<char>) -> Seq<char> {
    "%"@ + file + "%"@
}

/// Two `LIKE` arguments for each file, in order.
pub open spec fn file_args(files: Seq<String>) -> Seq<ParamView>
    decreases files.len(),
{
    if files.len() == 0 {
        seq![]
    } else {
        file_args(files.drop_last()) + seq![
            ParamView::Text(like_arg(files.last()@)),
            ParamView::Text(like_arg(files.last()@)),
        ]
    }
}

/// A test that the JSON array in column `column` of `alias` has an element that is `op` a
/// bound value; a column that is not valid JSON counts as an empty array.
pub open spec fn json_each_clause(alias: Seq<char>, column: Seq<char>, op: Seq<char>) -> Seq<char> {
    "EXISTS (SELECT 1 FROM json_each(CASE WHEN json_valid("@ + alias + "."@ + column + ") THEN "@
        + alias + "."@ + column + " ELSE '[]' END) WHERE value "@ + op + " ?)"@
}

/// A test that either of two file-list columns mentions a file.
pub open spec fn file_clause(alias: Seq<char>, first: Seq<char>, second: Seq<char>) -> Seq<char> {
    "("@ + json_each_clause(alias, first, "LIKE"@) + " OR "@ + json_each_clause(
        alias,
        second,
        "LIKE"@,
    ) + ")"@
}

/// `n` copies of `x`.
pub open spec fn copies(x: Seq<char>, n: nat) -> Seq<Seq<char>> {
    Seq::new(n, |i: int| x)
}

/// The project and date tests of a search: the project on the table aliased
/// `project_alias`, the creation time on the one aliased `date_alias`.
pub open spec fn project_date_clauses(
    project_alias: Seq<char>,
    date_alias: Seq<char>,
    o: StrategySearchOptions,
) -> Seq<Seq<char>> {
    (match o.project {
        Some(_) => seq![project_alias + ".project = ?"@],
        None => seq![],
    }) + match o.date_range {
        Some(r) => (match r.start_epoch {
            Some(_) => seq![date_alias + ".created_at_epoch >= ?"@],
            None => seq![],
        }) + (match r.end_epoch {
            Some(_) => seq![date_alias + ".created_at_epoch <= ?"@],
            None => seq![],
        }),
        None => seq![],
    }
}

pub open spec fn project_date_args(o: StrategySearchOptions) -> Seq<ParamView> {
    (match o.project {
        Some(p) => seq![ParamView::Text(p@)],
        None => seq![],
    }) + match o.date_range {
        Some(r) => (match r.start_epoch {
            Some(s) => seq![ParamView::Integer(s)],
            None => seq![],
        }) + (match r.end_epoch {
            Some(e) => seq![ParamView::Integer(e)],
            None => seq![],
        }),
        None => seq![],
    }
}

/// The tests of an observation search: project and date, then type, concept and file.
pub open spec fn observation_clauses(alias: Seq<char>, o: StrategySearchOptions) -> Seq<Seq<char>> {
    project_date_clauses(alias, alias, o) + type_clauses(alias, o) + concept_clauses(alias, o)
        + file_clauses(alias, o)
}

pub open spec fn observation_args(o: StrategySearchOptions) -> Seq<ParamView> {
    project_date_args(o) + texts_args(o.obs_type@) + texts_args(o.concepts@) + file_args(o.files@)
}

/// The offset a search pages from: the requested one, at least 0.
pub open spec fn offset_spec(o: StrategySearchOptions) -> i64 {
    match o.offset {
        Some(x) => if x < 0 {
            0
        } else {
            x
        },
        None => 0,
    }
}

pub open spec fn page_args(o: StrategySearchOptions) -> Seq<ParamView> {
    seq![ParamView::Integer(limit_spec(o)), ParamView::Integer(offset_spec(o))]
}

pub open spec fn where_text(clauses: Seq<Seq<char>>) -> Seq<char> {
    if clauses.len() == 0 {
        "1 = 1"@
    } else {
        join(clauses, " AND "@)
    }
}

/// Which table a search reads, and so which tests it applies.
#[derive(Debug, Clone, Copy, PartialEq, Eq)]
pub enum FilterKind {
    /// Observations: project, date, type, concept and file.
    Observations,
    /// Session summaries: project and date.
    Sessions,
}

pub open spec fn kind_clauses(kind: FilterKind, alias: Seq<char>, o: StrategySearchOptions) -> Seq<
    Seq<char>,
> {
    match kind {
        FilterKind::Observations => observation_clauses(alias, o),
        FilterKind::Sessions => project_date_clauses(alias, alias, o),
    }
}

pub open spec fn kind_args(kind: FilterKind, o: StrategySearchOptions) -> Seq<ParamView> {
    match kind {
        FilterKind::Observations => observation_args(o),
        FilterKind::Sessions => project_date_args(o),
    }
}

/// The id query of a search without full text.
pub open spec fn filtered_sql(
    table: Seq<char>,
    alias: Seq<char>,
    clauses: Seq<Seq<char>>,
    o: StrategySearchOptions,
) -> Seq<char> {
    "SELECT "@ + alias + ".id FROM "@ + table + " "@ + alias + " WHERE "@ + where_text(clauses)
        + " "@ + order_clause_spec(alias, o.order_by, false, ""@) + " LIMIT ? OFFSET ?"@
}

/// The id query of a full-text search.
pub open spec fn fts_sql(
    fts_table: Seq<char>,
    table: Seq<char>,
    alias: Seq<char>,
    clauses: Seq<Seq<char>>,
    o: StrategySearchOptions,
) -> Seq<char> {
    "SELECT "@ + alias + ".id FROM "@ + fts_table + " f JOIN "@ + table + " "@ + alias + " ON "@
        + alias + ".id = f.rowid WHERE "@ + join(clauses, " AND "@) + " "@ + order_clause_spec(
        alias,
        o.order_by,
        true,
        "f"@,
    ) + " LIMIT ? OFFSET ?"@
}

/// A full-text id query sorts by full-text rank only when relevance is asked for; with the
/// default descending date order it keeps the newest matches, oldest first with the ascending
/// one.
pub proof fn law_fts_sql_order(
    fts_table: Seq<char>,
    table: Seq<char>,
    alias: Seq<char>,
    clauses: Seq<Seq<char>>,
    o: StrategySearchOptions,
)
    ensures
        ({
            let head = "SELECT "@ + alias + ".id FROM "@ + fts_table + " f JOIN "@ + table + " "@ + alias
                + " ON "@ + alias + ".id = f.rowid WHERE "@ + join(clauses, " AND "@) + " "@;
            &&& o.order_by == OrderBy::DateDesc ==> fts_sql(fts_table, table, alias, clauses, o) == head
                + "ORDER BY "@ + alias + ".created_at_epoch DESC, "@ + alias + ".id DESC"@ + " LIMIT ? OFFSET ?"@
            &&& o.order_by == OrderBy::DateAsc ==> fts_sql(fts_table, table, alias, clauses, o) == head
                + "ORDER BY "@ + alias + ".created_at_epoch ASC, "@ + alias + ".id ASC"@ + " LIMIT ? OFFSET ?"@
            &&& o.order_by == OrderBy::Relevance ==> fts_sql(fts_table, table, alias, clauses, o) == head
                + "ORDER BY "@ + "f"@ + ".rank ASC"@ + " LIMIT ? OFFSET ?"@
        }),
{
    let head = "SELECT "@ + alias + ".id FROM "@ + fts_table + " f JOIN "@ + table + " "@ + alias
        + " ON "@ + alias + ".id = f.rowid WHERE "@ + join(clauses, " AND "@) + " "@;
    if o.order_by == OrderBy::DateDesc {
        assert(fts_sql(fts_table, table, alias, clauses, o) =~= head + "ORDER BY "@ + alias
            + ".created_at_epoch DESC, "@ + alias + ".id DESC"@ + " LIMIT ? OFFSET ?"@);
    } else if o.order_by == OrderBy::DateAsc {
        assert(fts_sql(fts_table, table, alias, clauses, o) =~= head + "ORDER BY "@ + alias
            + ".created_at_epoch ASC, "@ + alias + ".id ASC"@ + " LIMIT ? OFFSET ?"@);
    } else {
        assert(fts_sql(fts_table, table, alias, clauses, o) =~= head + "ORDER BY "@ + "f"@ + ".rank ASC"@ + " LIMIT ? OFFSET ?"@);
    }
}

pub open spec fn prompt_order_spec(order_by: OrderBy) -> Seq<char> {
    if order_by == OrderBy::DateAsc {
        "ORDER BY up.created_at_epoch ASC, up.id ASC"@
    } else {
        "ORDER BY up.created_at_epoch DESC, up.id DESC"@
    }
}

/// The id query of a prompt search; prompts take their project from their session.
pub open spec fn prompt_sql(from: Seq<char>, clauses: Seq<Seq<char>>, o: StrategySearchOptions) -> Seq<
    char,
> {
    "SELECT up.id FROM "@ + from
        + " JOIN sdk_sessions s ON s.content_session_id = up.content_session_id WHERE "@
        + where_text(clauses) + " "@ + prompt_order_spec(o.order_by) + " LIMIT ? OFFSET ?"@
}

proof fn lemma_params_push(ps: Seq<SqlParam>, p: SqlParam)
    ensures
        params_view(ps.push(p)) == params_view(ps).push(param_view(p)),
{
    assert(params_view(ps.push(p)) =~= params_view(ps).push(param_view(p)));
}

proof fn lemma_strs_push(ss: Seq<String>, x: String)
    ensures
        strs_view(ss.push(x)) == strs_view(ss).push(x@),
{
    assert(strs_view(ss.push(x)) =~= strs_view(ss).push(x@));
}

proof fn lemma_texts_take(items: Seq<String>, i: int)
    requires
        0 <= i < items.len(),
    ensures
        texts_args(items.take(i + 1)) == texts_args(items.take(i)).push(ParamView::Text(items[i]@)),
{
    assert(items.take(i + 1) =~= items.take(i).push(items[i]));
    assert(texts_args(items.take(i + 1)) =~= texts_args(items.take(i)).push(
        ParamView::Text(items[i]@),
    ));
}

fn two(a: &str, b: &str) -> (r: String)
    ensures
        r@ == a@ + b@,
{
    let mut v = chars_of(a);
    push_str(&mut v, b);
    string_from_chars(v.as_slice())
}

fn json_each_text(alias: &str, column: &str, op: &str) -> (r: String)
    ensures
        r@ == json_each_clause(alias@, column@, op@),
{
    let mut v = chars_of("EXISTS (SELECT 1 FROM json_each(CASE WHEN json_valid(");
    push_str(&mut v, alias);
    push_str(&mut v, ".");
    push_str(&mut v, column);
    push_str(&mut v, ") THEN ");
    push_str(&mut v, alias);
    push_str(&mut v, ".");
    push_str(&mut v, column);
    push_str(&mut v, " ELSE '[]' END) WHERE value ");
    push_str(&mut v, op);
    push_str(&mut v, " ?)");
    string_from_chars(v.as_slice())
}

fn file_text(alias: &str, first: &str, second: &str) -> (r: String)
    ensures
        r@ == file_clause(alias@, first@, second@),
{
    let a = json_each_text(alias, first, "LIKE");
    let b = json_each_text(alias, second, "LIKE");
    let mut v = chars_of("(");
    push_str(&mut v, a.as_str());
    push_str(&mut v, " OR ");
    push_str(&mut v, b.as_str());
    push_str(&mut v, ")");
    string_from_chars(v.as_slice())
}

/// `(` + `n` copies of `x` joined with `sep` + `)`.
fn grouped_copies(x: &str, n: usize, sep: &str) -> (r: String)
    ensures
        r@ == "("@ + join(copies(x@, n as nat), sep@) + ")"@,
{
    let mut parts: Vec<String> = Vec::new();
    let mut i: usize = 0;
    while i < n
        invariant
            i <= n,
            strs_view(parts@) =~= copies(x@, i as nat),
        decreases n - i,
    {
        let ghost before = parts@;
        parts.push(x.to_owned());
        proof {
            lemma_strs_push(before, parts@.last());
        }
        i = i + 1;
    }
    let joined = join_strings(&parts, sep);
    let mut v = chars_of("(");
    push_str(&mut v, joined.as_str());
    push_str(&mut v, ")");
    string_from_chars(v.as_slice())
}

fn like_text(file: &str) -> (r: String)
    ensures
        r@ == like_arg(file@),
{
    let mut v = chars_of("%");
    push_str(&mut v, file);
    push_str(&mut v, "%");
    string_from_chars(v.as_slice())
}

/// Adds the project and date tests of a search, and their arguments.
pub fn add_project_date_filters(
    project_alias: &str,
    date_alias: &str,
    options: &StrategySearchOptions,
    filters: &mut Vec<String>,
    params: &mut Vec<SqlParam>,
)
    ensures
        strs_view(final(filters)@) == strs_view(old(filters)@) + project_date_clauses(
            project_alias@,
            date_alias@,
            *options,
        ),
        params_view(final(params)@) == params_view(old(params)@) + project_date_args(*options),
{
    let ghost f0 = strs_view(filters@);
    let ghost p0 = params_view(params@);
    if let Some(project) = &options.project {
        filters.push(two(project_alias, ".project = ?"));
        params.push(SqlParam::Text(project.clone()));
    }
    let ghost f1 = strs_view(filters@);
    let ghost p1 = params_view(params@);
    assert(f1 =~= f0 + match options.project {
        Some(_) => seq![project_alias@ + ".project = ?"@],
        None => seq![],
    });
    assert(p1 =~= p0 + match options.project {
        Some(p) => seq![ParamView::Text(p@)],
        None => seq![],
    });
    if let Some(range) = &options.date_range {
        if let Some(start) = range.start_epoch {
            filters.push(two(date_alias, ".created_at_epoch >= ?"));
            params.push(SqlParam::Integer(start));
        }
        let ghost f2 = strs_view(filters@);
        let ghost p2 = params_view(params@);
        assert(f2 =~= f1 + match range.start_epoch {
            Some(_) => seq![date_alias@ + ".created_at_epoch >= ?"@],
            None => seq![],
        });
        assert(p2 =~= p1 + match range.start_epoch {
            Some(s) => seq![ParamView::Integer(s)],
            None => seq![],
        });
        if let Some(end) = range.end_epoch {
            filters.push(two(date_alias, ".created_at_epoch <= ?"));
            params.push(SqlParam::Integer(end));
        }
        assert(strs_view(filters@) =~= f2 + match range.end_epoch {
            Some(_) => seq![date_alias@ + ".created_at_epoch <= ?"@],
            None => seq![],
        });
        assert(params_view(params@) =~= p2 + match range.end_epoch {
            Some(e) => seq![ParamView::Integer(e)],
            None => seq![],
        });
    }
    assert(strs_view(filters@) =~= f0 + project_date_clauses(project_alias@, date_alias@, *options));
    assert(params_view(params@) =~= p0 + project_date_args(*options));
}

fn push_texts(params: &mut Vec<SqlParam>, items: &Vec<String>)
    ensures
        params_view(final(params)@) == params_view(old(params)@) + texts_args(items@),
{
    let ghost p0 = params_view(params@);
    let mut i: usize = 0;
    while i < items.len()
        invariant
            i <= items@.len(),
            params_view(params@) =~= p0 + texts_args(items@.take(i as int)),
        decreases items.len() - i,
    {
        let ghost before = params@;
        params.push(SqlParam::Text(items[i].clone()));
        proof {
            lemma_params_push(before, SqlParam::Text(items@[i as int]));
            lemma_texts_take(items@, i as int);
        }
        i = i + 1;
    }
    assert(items@.take(items@.len() as int) =~= items@);
}

fn push_file_args(params: &mut Vec<SqlParam>, files: &Vec<String>)
    ensures
        params_view(final(params)@) == params_view(old(params)@) + file_args(files@),
{
    let ghost p0 = params_view(params@);
    let mut i: usize = 0;
    while i < files.len()
        invariant
            i <= files@.len(),
            params_view(params@) =~= p0 + file_args(files@.take(i as int)),
        decreases files.len() - i,
    {
        let pattern = like_text(files[i].as_str());
        let ghost b0 = params@;
        params.push(SqlParam::Text(pattern.clone()));
        let ghost b1 = params@;
        params.push(SqlParam::Text(pattern));
        proof {
            lemma_params_push(b0, SqlParam::Text(pattern));
            lemma_params_push(b1, SqlParam::Text(pattern));
            let t = files@.take(i + 1);
            assert(t.drop_last() =~= files@.take(i as int));
            assert(t.last() == files@[i as int]);
        }
        i = i + 1;
    }
    assert(files@.take(files@.len() as int) =~= files@);
}

pub open spec fn type_clauses(alias: Seq<char>, o: StrategySearchOptions) -> Seq<Seq<char>> {
    if o.obs_type@.len() > 0 {
        seq![alias + ".type IN "@ + ("("@ + join(copies("?"@, o.obs_type@.len()), ","@) + ")"@)]
    } else {
        seq![]
    }
}

pub open spec fn concept_clauses(alias: Seq<char>, o: StrategySearchOptions) -> Seq<Seq<char>> {
    if o.concepts@.len() > 0 {
        seq![
            "("@ + join(
                copies(json_each_clause(alias, "concepts"@, "="@), o.concepts@.len()),
                " OR "@,
            ) + ")"@,
        ]
    } else {
        seq![]
    }
}

pub open spec fn file_clauses(alias: Seq<char>, o: StrategySearchOptions) -> Seq<Seq<char>> {
    if o.files@.len() > 0 {
        seq![
            "("@ + join(
                copies(file_clause(alias, "files_read"@, "files_modified"@), o.files@.len()),
                " OR "@,
            ) + ")"@,
        ]
    } else {
        seq![]
    }
}

fn type_filter(alias: &str, options: &StrategySearchOptions, filters: &mut Vec<String>, params: &mut Vec<SqlParam>)
    ensures
        strs_view(final(filters)@) == strs_view(old(filters)@) + type_clauses(alias@, *options),
        params_view(final(params)@) == params_view(old(params)@) + texts_args(options.obs_type@),
{
    let ghost f0 = filters@;
    if options.obs_type.len() > 0 {
        let placeholders = grouped_copies("?", options.obs_type.len(), ",");
        let mut v = chars_of(alias);
        push_str(&mut v, ".type IN ");
        push_str(&mut v, placeholders.as_str());
        let clause = string_from_chars(v.as_slice());
        filters.push(clause);
        proof {
            lemma_strs_push(f0, clause);
        }
    }
    assert(strs_view(filters@) =~= strs_view(f0) + type_clauses(alias@, *options));
    push_texts(params, &options.obs_type);
}

fn concept_filter(alias: &str, options: &StrategySearchOptions, filters: &mut Vec<String>, params: &mut Vec<SqlParam>)
    ensures
        strs_view(final(filters)@) == strs_view(old(filters)@) + concept_clauses(alias@, *options),
        params_view(final(params)@) == params_view(old(params)@) + texts_args(options.concepts@),
{
    let ghost f0 = filters@;
    if options.concepts.len() > 0 {
        let clause = json_each_text(alias, "concepts", "=");
        let group = grouped_copies(clause.as_str(), options.concepts.len(), " OR ");
        filters.push(group);
        proof {
            lemma_strs_push(f0, group);
        }
    }
    assert(strs_view(filters@) =~= strs_view(f0) + concept_clauses(alias@, *options));
    push_texts(params, &options.concepts);
}

fn file_filter(alias: &str, options: &StrategySearchOptions, filters: &mut Vec<String>, params: &mut Vec<SqlParam>)
    ensures
        strs_view(final(filters)@) == strs_view(old(filters)@) + file_clauses(alias@, *options),
        params_view(final(params)@) == params_view(old(params)@) + file_args(options.files@),
{
    let ghost f0 = filters@;
    if options.files.len() > 0 {
        let clause = file_text(alias, "files_read", "files_modified");
        let group = grouped_copies(clause.as_str(), options.files.len(), " OR ");
        filters.push(group);
        proof {
            lemma_strs_push(f0, group);
        }
    }
    assert(strs_view(filters@) =~= strs_view(f0) + file_clauses(alias@, *options));
    push_file_args(params, &options.files);
}

/// Adds the tests of an observation search and their arguments: project and date, the
/// types, the concepts (any of them), the files (any of them, read or modified).
pub fn observation_filters(
    alias: &str,
    options: &StrategySearchOptions,
    filters: &mut Vec<String>,
    params: &mut Vec<SqlParam>,
)
    ensures
        strs_view(final(filters)@) == strs_view(old(filters)@) + observation_clauses(alias@, *options),
        params_view(final(params)@) == params_view(old(params)@) + observation_args(*options),
{
    let ghost f0 = strs_view(filters@);
    let ghost p0 = params_view(params@);
    add_project_date_filters(alias, alias, options, filters, params);
    type_filter(alias, options, filters, params);
    concept_filter(alias, options, filters, params);
    file_filter(alias, options, filters, params);
    assert(strs_view(filters@) =~= f0 + observation_clauses(alias@, *options));
    assert(params_view(params@) =~= p0 + observation_args(*options));
}

fn kind_filters(
    kind: FilterKind,
    alias: &str,
    options: &StrategySearchOptions,
    filters: &mut Vec<String>,
    params: &mut Vec<SqlParam>,
)
    ensures
        strs_view(final(filters)@) == strs_view(old(filters)@) + kind_clauses(kind, alias@, *options),
        params_view(final(params)@) == params_view(old(params)@) + kind_args(kind, *options),
{
    match kind {
        FilterKind::Observations => observation_filters(alias, options, filters, params),
        FilterKind::Sessions => add_project_date_filters(alias, alias, options, filters, params),
    }
}

fn offset(options: &StrategySearchOptions) -> (r: i64)
    ensures
        r == offset_spec(*options),
{
    match options.offset {
        Some(x) => if x < 0 {
            0
        } else {
            x
        },
        None => 0,
    }
}

fn push_page(params: &mut Vec<SqlParam>, options: &StrategySearchOptions)
    ensures
        params_view(final(params)@) == params_view(old(params)@) + page_args(*options),
{
    let ghost p0 = params_view(params@);
    params.push(SqlParam::Integer(limit(options)));
    params.push(SqlParam::Integer(offset(options)));
    assert(params_view(params@) =~= p0 + page_args(*options));
}

fn where_string(filters: &Vec<String>) -> (r: String)
    ensures
        r@ == where_text(strs_view(filters@)),
{
    if filters.len() == 0 {
        "1 = 1".to_owned()
    } else {
        join_strings(filters, " AND ")
    }
}

/// The id query of a search over `table` (aliased `alias`) without full text: its tests,
/// its order, and a page of at most the search's limit from its offset.
pub fn filtered_ids_query(table: &str, alias: &str, options: &StrategySearchOptions, kind: FilterKind) -> (r:
    SqlQuery)
    ensures
        r.sql@ == filtered_sql(table@, alias@, kind_clauses(kind, alias@, *options), *options),
        params_view(r.params@) == kind_args(kind, *options) + page_args(*options),
{
    let mut filters: Vec<String> = Vec::new();
    let mut params: Vec<SqlParam> = Vec::new();
    kind_filters(kind, alias, options, &mut filters, &mut params);
    assert(strs_view(filters@) =~= kind_clauses(kind, alias@, *options));
    let w = where_string(&filters);
    let order = order_clause(alias, &options.order_by, false, "");
    let mut v: Vec<char> = Vec::new();
    push_str(&mut v, "SELECT ");
    push_str(&mut v, alias);
    push_str(&mut v, ".id FROM ");
    push_str(&mut v, table);
    push_str(&mut v, " ");
    push_str(&mut v, alias);
    push_str(&mut v, " WHERE ");
    push_str(&mut v, w.as_str());
    push_str(&mut v, " ");
    push_str(&mut v, order.as_str());
    push_str(&mut v, " LIMIT ? OFFSET ?");
    let sql = string_from_chars(v.as_slice());
    push_page(&mut params, options);
    assert(params_view(params@) =~= kind_args(kind, *options) + page_args(*options));
    SqlQuery { sql, params }
}

/// The id query of a full-text search over `table` through `fts_table`: the match on the
/// search's terms and its tests, ordered by rank for relevance; nothing when the query has
/// no term of three characters or more.
pub fn fts_ids_query(
    fts_table: &str,
    table: &str,
    alias: &str,
    query: &str,
    options: &StrategySearchOptions,
    kind: FilterKind,
) -> (r: Option<SqlQuery>)
    ensures
        fts_terms_query(query@).len() == 0 ==> r is None,
        fts_terms_query(query@).len() > 0 ==> (r matches Some(q) && {
            &&& q.sql@ == fts_sql(
                fts_table@,
                table@,
                alias@,
                seq![fts_table@ + " MATCH ?"@] + kind_clauses(kind, alias@, *options),
                *options,
            )
            &&& params_view(q.params@) == seq![ParamView::Text(fts_terms_query(query@))]
                + kind_args(kind, *options) + page_args(*options)
        }),
{
    let terms = match fts_query(query) {
        Some(t) => t,
        None => return None,
    };
    let mut filters: Vec<String> = vec![two(fts_table, " MATCH ?")];
    let mut params: Vec<SqlParam> = vec![SqlParam::Text(terms)];
    assert(strs_view(filters@) =~= seq![fts_table@ + " MATCH ?"@]);
    assert(params_view(params@) =~= seq![ParamView::Text(fts_terms_query(query@))]);
    kind_filters(kind, alias, options, &mut filters, &mut params);
    let w = join_strings(&filters, " AND ");
    let order = order_clause(alias, &options.order_by, true, "f");
    let mut v: Vec<char> = Vec::new();
    push_str(&mut v, "SELECT ");
    push_str(&mut v, alias);
    push_str(&mut v, ".id FROM ");
    push_str(&mut v, fts_table);
    push_str(&mut v, " f JOIN ");
    push_str(&mut v, table);
    push_str(&mut v, " ");
    push_str(&mut v, alias);
    push_str(&mut v, " ON ");
    push_str(&mut v, alias);
    push_str(&mut v, ".id = f.rowid WHERE ");
    push_str(&mut v, w.as_str());
    push_str(&mut v, " ");
    push_str(&mut v, order.as_str());
    push_str(&mut v, " LIMIT ? OFFSET ?");
    let sql = string_from_chars(v.as_slice());
    push_page(&mut params, options);
    Some(SqlQuery { sql, params })
}

/// The id query of a prompt search without full text.
pub fn prompt_filtered_ids_query(options: &StrategySearchOptions) -> (r: SqlQuery)
    ensures
        r.sql@ == prompt_sql("user_prompts up"@, project_date_clauses("s"@, "up"@, *options), *options),
        params_view(r.params@) == project_date_args(*options) + page_args(*options),
{
    let mut filters: Vec<String> = Vec::new();
    let mut params: Vec<SqlParam> = Vec::new();
    add_project_date_filters("s", "up", options, &mut filters, &mut params);
    assert(strs_view(filters@) =~= project_date_clauses("s"@, "up"@, *options));
    let w = where_string(&filters);
    let mut v: Vec<char> = Vec::new();
    push_str(&mut v, "SELECT up.id FROM ");
    push_str(&mut v, "user_prompts up");
    push_str(&mut v, " JOIN sdk_sessions s ON s.content_session_id = up.content_session_id WHERE ");
    push_str(&mut v, w.as_str());
    push_str(&mut v, " ");
    push_str(&mut v, prompt_order_clause(&options.order_by));
    push_str(&mut v, " LIMIT ? OFFSET ?");
    let sql = string_from_chars(v.as_slice());
    push_page(&mut params, options);
    assert(params_view(params@) =~= project_date_args(*options) + page_args(*options));
    SqlQuery { sql, params }
}

/// The id query of a full-text prompt search; nothing when the query has no usable term.
pub fn prompt_fts_ids_query(query: &str, options: &StrategySearchOptions) -> (r: Option<SqlQuery>)
    ensures
        fts_terms_query(query@).len() == 0 ==> r is None,
        fts_terms_query(query@).len() > 0 ==> (r matches Some(q) && {
            &&& q.sql@ == prompt_sql(
                "user_prompts_fts f JOIN user_prompts up ON up.id = f.rowid"@,
                seq!["user_prompts_fts MATCH ?"@] + project_date_clauses("s"@, "up"@, *options),
                *options,
            )
            &&& params_view(q.params@) == seq![ParamView::Text(fts_terms_query(query@))]
                + project_date_args(*options) + page_args(*options)
        }),
{
    let terms = match fts_query(query) {
        Some(t) => t,
        None => return None,
    };
    let mut filters: Vec<String> = vec!["user_prompts_fts MATCH ?".to_owned()];
    let mut params: Vec<SqlParam> = vec![SqlParam::Text(terms)];
    assert(strs_view(filters@) =~= seq!["user_prompts_fts MATCH ?"@]);
    assert(params_view(params@) =~= seq![ParamView::Text(fts_terms_query(query@))]);
    add_project_date_filters("s", "up", options, &mut filters, &mut params);
    let w = where_string(&filters);
    let mut v: Vec<char> = Vec::new();
    push_str(&mut v, "SELECT up.id FROM ");
    push_str(&mut v, "user_prompts_fts f JOIN user_prompts up ON up.id = f.rowid");
    push_str(&mut v, " JOIN sdk_sessions s ON s.content_session_id = up.content_session_id WHERE ");
    push_str(&mut v, w.as_str());
    push_str(&mut v, " ");
    push_str(&mut v, prompt_order_clause(&options.order_by));
    push_str(&mut v, " LIMIT ? OFFSET ?");
    let sql = string_from_chars(v.as_slice());
    push_page(&mut params, options);
    Some(SqlQuery { sql, params })
}

/// The id query of the session summaries that read or edited a file.
pub fn sessions_by_file_query(file_path: &str, options: &StrategySearchOptions) -> (r: SqlQuery)
    ensures
        r.sql@ == "SELECT s.id FROM session_summaries s WHERE "@ + join(
            project_date_clauses("s"@, "s"@, *options).push(
                file_clause("s"@, "files_read"@, "files_edited"@),
            ),
            " AND "@,
        ) + " "@ + order_clause_spec("s"@, options.order_by, false, ""@) + " LIMIT ? OFFSET ?"@,
        params_view(r.params@) == project_date_args(*options) + seq![
            ParamView::Text(like_arg(file_path@)),
            ParamView::Text(like_arg(file_path@)),
        ] + page_args(*options),
{
    let mut filters: Vec<String> = Vec::new();
    let mut params: Vec<SqlParam> = Vec::new();
    add_project_date_filters("s", "s", options, &mut filters, &mut params);
    filters.push(file_text("s", "files_read", "files_edited"));
    let pattern = like_text(file_path);
    params.push(SqlParam::Text(pattern.clone()));
    params.push(SqlParam::Text(pattern));
    assert(strs_view(filters@) =~= project_date_clauses("s"@, "s"@, *options).push(
        file_clause("s"@, "files_read"@, "files_edited"@),
    ));
    let w = join_strings(&filters, " AND ");
    let order = order_clause("s", &options.order_by, false, "");
    let mut v: Vec<char> = Vec::new();
    push_str(&mut v, "SELECT s.id FROM session_summaries s WHERE ");
    push_str(&mut v, w.as_str());
    push_str(&mut v, " ");
    push_str(&mut v, order.as_str());
    push_str(&mut v, " LIMIT ? OFFSET ?");
    let sql = string_from_chars(v.as_slice());
    push_page(&mut params, options);
    assert(params_view(params@) =~= project_date_args(*options) + seq![
        ParamView::Text(like_arg(file_path@)),
        ParamView::Text(like_arg(file_path@)),
    ] + page_args(*options));
    SqlQuery { sql, params }
}


/// Whether a listing of `table` can be narrowed to one project.
pub open spec fn has_project_column(table: Seq<char>) -> bool {
    table == "observations"@ || table == "session_summaries"@
}

/// Of the listed tables, only `observations` and `session_summaries` carry a project;
/// `sdk_sessions` and `user_prompts` do not.
pub proof fn law_project_tables(table: Seq<char>)
    ensures
        has_project_column(table) == (table == "observations"@ || table == "session_summaries"@),
        !has_project_column("sdk_sessions"@) && !has_project_column("user_prompts"@),
{
    reveal_strlit("observations");
    reveal_strlit("session_summaries");
    reveal_strlit("sdk_sessions");
    reveal_strlit("user_prompts");
    assert("sdk_sessions"@[0] != "observations"@[0] && "sdk_sessions"@[1] != "session_summaries"@[1]);
    assert("user_prompts"@[0] != "observations"@[0] && "user_prompts"@[0] != "session_summaries"@[0]);
}

/// The newest ids of `table`, at most `limit`, of one project when the table has projects and
/// one is given.
pub fn list_ids_query(table: &str, project: Option<&str>, limit: i64) -> (r: SqlQuery)
    ensures
        (has_project_column(table@) && project is Some) ==> r.sql@ == "SELECT id FROM "@ + table@
            + " WHERE project = ?1 ORDER BY created_at_epoch DESC, id DESC LIMIT ?2"@
            && params_view(r.params@) == seq![
            ParamView::Text(project->0@),
            ParamView::Integer(limit),
        ],
        !(has_project_column(table@) && project is Some) ==> r.sql@ == "SELECT id FROM "@ + table@
            + " ORDER BY created_at_epoch DESC, id DESC LIMIT ?1"@ && params_view(r.params@)
            == seq![ParamView::Integer(limit)],
{
    proof {
        reveal_strlit("observations");
        reveal_strlit("session_summaries");
    }
    let t = chars_of(table);
    let projected = chars_eq_str(t.as_slice(), "observations") || chars_eq_str(
        t.as_slice(),
        "session_summaries",
    );
    let mut v = chars_of("SELECT id FROM ");
    push_str(&mut v, table);
    match project {
        Some(p) if projected => {
            push_str(&mut v, " WHERE project = ?1 ORDER BY created_at_epoch DESC, id DESC LIMIT ?2");
            let params = vec![SqlParam::Text(p.to_owned()), SqlParam::Integer(limit)];
            assert(params_view(params@) =~= seq![ParamView::Text(p@), ParamView::Integer(limit)]);
            SqlQuery { sql: string_from_chars(v.as_slice()), params }
        },
        _ => {
            push_str(&mut v, " ORDER BY created_at_epoch DESC, id DESC LIMIT ?1");
            let params = vec![SqlParam::Integer(limit)];
            assert(params_view(params@) =~= seq![ParamView::Integer(limit)]);
            SqlQuery { sql: string_from_chars(v.as_slice()), params }
        },
    }
}

/// The columns of `allowed` that `row` has as members, in the order of `allowed`.
pub open spec fn present_columns(allowed: Seq<&str>, row: JsonValue) -> Seq<Seq<char>>
    decreases allowed.len(),
{
    if allowed.len() == 0 {
        seq![]
    } else {
        present_columns(allowed.drop_last(), row) + if json_get(row, allowed.last()@) is Some {
            seq![allowed.last()@]
        } else {
            seq![]
        }
    }
}

/// `?1,?2,...,?n`.
pub open spec fn numbered_placeholders(n: nat) -> Seq<char> {
    join(Seq::new(n, |i: int| "?"@ + nat_text((i + 1) as nat)), ","@)
}

/// An insert into `table` of `columns` that skips rows already there.
pub open spec fn insert_sql(table: Seq<char>, columns: Seq<Seq<char>>) -> Seq<char> {
    "INSERT OR IGNORE INTO "@ + table + " ("@ + join(columns, ","@) + ") VALUES ("@
        + numbered_placeholders(columns.len()) + ")"@
}

/// The insert of one imported row: the allowed columns the row has, and the statement that
/// binds their values in that order; nothing when the row has none of them.
pub fn import_insert(table: &str, allowed: &[&str], row: &JsonValue) -> (r: Option<(String, Vec<String>)>)
    ensures
        present_columns(allowed@, *row).len() == 0 ==> r is None,
        present_columns(allowed@, *row).len() > 0 ==> (r matches Some(x) && strs_view(x.1@)
            == present_columns(allowed@, *row) && x.0@ == insert_sql(
            table@,
            present_columns(allowed@, *row),
        )),
{
    let mut columns: Vec<String> = Vec::new();
    let mut i: usize = 0;
    while i < allowed.len()
        invariant
            i <= allowed@.len(),
            strs_view(columns@) == present_columns(allowed@.take(i as int), *row),
        decreases allowed.len() - i,
    {
        proof {
            assert(allowed@.take(i + 1).drop_last() =~= allowed@.take(i as int));
            assert(allowed@.take(i + 1).last() == allowed@[i as int]);
        }
        if row.get(allowed[i]).is_some() {
            let ghost before = columns@;
            columns.push(allowed[i].to_owned());
            proof {
                lemma_strs_push(before, columns@.last());
            }
        }
        i = i + 1;
    }
    assert(allowed@.take(allowed@.len() as int) =~= allowed@);
    if columns.len() == 0 {
        return None;
    }
    let mut marks: Vec<String> = Vec::new();
    let mut k: usize = 0;
    while k < columns.len()
        invariant
            k <= columns@.len(),
            strs_view(marks@) =~= Seq::new(k as nat, |j: int| "?"@ + nat_text((j + 1) as nat)),
        decreases columns.len() - k,
    {
        let mut m = chars_of("?");
        push_u64_text(&mut m, (k + 1) as u64);
        let mark = string_from_chars(m.as_slice());
        let ghost before = marks@;
        marks.push(mark);
        proof {
            lemma_strs_push(before, mark);
        }
        k = k + 1;
    }
    let names = join_strings(&columns, ",");
    let places = join_strings(&marks, ",");
    let mut v = chars_of("INSERT OR IGNORE INTO ");
    push_str(&mut v, table);
    push_str(&mut v, " (");
    push_str(&mut v, names.as_str());
    push_str(&mut v, ") VALUES (");
    push_str(&mut v, places.as_str());
    push_str(&mut v, ")");
    Some((string_from_chars(v.as_slice()), columns))
}

} // verus!
