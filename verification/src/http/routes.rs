//! The worker's HTTP request and response bodies, and the decisions its handlers make on
//! plain values: argument parsing, request validation, and how failures become responses.
use std::collections::HashMap;

use vstd::prelude::*;

use crate::json::{get_str, json_get, json_i64, json_parse, parse_json, str_member, JsonValue};
use crate::knowledge::agent::{agent_error_text, KnowledgeAgentError};
use crate::knowledge::builder::{builder_error_text, CorpusBuilderError};
use crate::knowledge::store::{store_error_text, CorpusStoreError};
use crate::agents::observer::QueueProcessStats;
use crate::agents::response_processor::ParsedSummary;
use crate::model::{CorpusFilter, ObservationInput, ObservationRow, SessionSummaryRow, SummaryInput};
use crate::search::orchestrator::{
    arg_either, arg_value, csv_items, filter_options_are, get_arg, get_arg_either, opt_i64_view,
    options_from_args, split_csv,
};
use crate::search::strategies::{
    in_date_range, in_date_range_exec, SearchStrategyHint, SearchType, StrategySearchOptions,
};
use crate::text::{
    chars_eq_str, chars_of, comma_sep, i64_text, int_text, join, join_strings, nonblank_trimmed,
    nonblank_trimmed_chars, opt_view, parse_i64, parse_signed, push_str, split_by, split_chars,
    string_from_chars, strings_from_char_vecs, strs_view, trim, trim_chars, Separator,
};

verus! {

broadcast use vstd::string::group_string_axioms;

/// The body of `GET /health`.
#[derive(Debug, Clone, PartialEq, Eq)]
pub struct HealthResponse {
    pub status: &'static str,
    pub initialized: bool,
    pub mcp_ready: bool,
    pub platform: &'static str,
    pub pid: u32,
}

/// The body of `POST /api/sessions/init`.
#[derive(Debug, Clone, PartialEq, Eq)]
pub struct SessionInitRequest {
    pub content_session_id: String,
    pub project: Option<String>,
    pub prompt: Option<String>,
    pub platform_source: Option<String>,
}

/// The answer to `POST /api/sessions/init`.
#[derive(Debug, Clone, PartialEq, Eq)]
pub struct SessionInitResponse {
    pub session_db_id: i64,
    pub prompt_number: i64,
    pub skipped: bool,
    pub reason: Option<&'static str>,
    pub context_injected: bool,
}

/// The body of `POST /api/sessions/complete`.
#[derive(Debug, Clone, PartialEq, Eq)]
pub struct SessionCompleteRequest {
    pub content_session_id: String,
    pub platform_source: Option<String>,
}

/// The body of `POST /api/sessions/summarize`.
#[derive(Debug, Clone, PartialEq, Eq)]
pub struct SessionSummarizeRequest {
    pub content_session_id: String,
    pub summary: Option<String>,
    pub last_assistant_message: Option<String>,
}

/// The body of `POST /api/memory/save`.
#[derive(Debug, Clone, PartialEq, Eq)]
pub struct MemorySaveRequest {
    pub text: String,
    pub title: Option<String>,
    pub project: Option<String>,
}

/// The body of `POST /api/context/semantic`.
#[derive(Debug, Clone, PartialEq, Eq)]
pub struct SemanticRequest {
    pub q: Option<String>,
    pub project: Option<String>,
    pub limit: Option<i64>,
}

/// The body of `POST /api/qdrant/reindex`.
#[derive(Debug, Clone, PartialEq, Eq)]
pub struct QdrantReindexRequest {
    pub project: Option<String>,
    pub limit: Option<i64>,
}

/// The body of `POST /api/observations/batch`.
#[derive(Debug, Clone, PartialEq, Eq)]
pub struct ObservationsBatchRequest {
    pub ids: Vec<i64>,
}

/// The body of `POST /api/sdk-sessions/batch`.
#[derive(Debug, Clone, PartialEq, Eq)]
pub struct SdkSessionsBatchRequest {
    pub memory_session_ids: Option<Vec<String>>,
}

/// The body of `POST /api/branch/switch`.
#[derive(Debug, Clone, PartialEq, Eq)]
pub struct BranchSwitchRequest {
    pub branch: String,
}

/// The body of `POST /api/corpus/:name/query`.
#[derive(Debug, Clone, PartialEq, Eq)]
pub struct CorpusQueryRequest {
    pub question: Option<String>,
}

/// The body of `POST /api/corpus`: a name, and the fields of the corpus filter as the
/// client sent them.
#[derive(Debug)]
pub struct CorpusBuildRequest {
    pub name: Option<String>,
    pub description: Option<String>,
    pub project: Option<String>,
    pub types: Option<JsonValue>,
    pub concepts: Option<JsonValue>,
    pub files: Option<JsonValue>,
    pub query: Option<String>,
    pub date_start: Option<String>,
    pub date_end: Option<String>,
    pub limit: Option<JsonValue>,
}

/// An error answer: an HTTP status and a message.
#[derive(Debug, Clone, PartialEq, Eq)]
pub struct ApiError {
    pub status: u16,
    pub message: String,
}

impl ApiError {
    pub fn bad_request(message: String) -> (r: Self)
        ensures
            r.status == 400,
            r.message == message,
    {
        ApiError { status: 400, message }
    }

    pub fn forbidden(message: String) -> (r: Self)
        ensures
            r.status == 403,
            r.message == message,
    {
        ApiError { status: 403, message }
    }

    pub fn internal(message: String) -> (r: Self)
        ensures
            r.status == 500,
            r.message == message,
    {
        ApiError { status: 500, message }
    }
}

/// A setting that switches a feature on.
pub open spec fn is_truthy(v: Seq<char>) -> bool {
    v == "1"@ || v == "true"@ || v == "TRUE"@ || v == "yes"@ || v == "on"@
}

/// The settings that switch a feature on are exactly `1`, `true`, `TRUE`, `yes` and `on`;
/// `false`, `0`, `no`, `off` and the empty text leave it off.
pub proof fn law_truthy_words(v: Seq<char>)
    ensures
        is_truthy(v) == (v == "1"@ || v == "true"@ || v == "TRUE"@ || v == "yes"@ || v == "on"@),
        !is_truthy("false"@) && !is_truthy("0"@) && !is_truthy("no"@) && !is_truthy("off"@) && !is_truthy(""@),
{
    reveal_strlit("1");
    reveal_strlit("true");
    reveal_strlit("TRUE");
    reveal_strlit("yes");
    reveal_strlit("on");
    reveal_strlit("false");
    reveal_strlit("0");
    reveal_strlit("no");
    reveal_strlit("off");
    reveal_strlit("");
    assert("false"@[0] != "true"@[0] && "false"@[0] != "TRUE"@[0]);
    assert("0"@[0] != "1"@[0]);
    assert("no"@[1] != "on"@[1] && "no"@[0] != "1"@[0]);
    assert("off"@[1] != "on"@[1] && "off"@[0] != "yes"@[0]);
    assert(!is_truthy("false"@));
    assert(!is_truthy("0"@));
    assert(!is_truthy("no"@));
    assert(!is_truthy("off"@));
    assert(""@.len() == 0 && "1"@.len() > 0 && "true"@.len() > 0 && "TRUE"@.len() > 0 && "yes"@.len() > 0 && "on"@.len() > 0);
    assert(!is_truthy(""@));
}

/// Whether an optional setting switches a feature on.
pub fn env_truthy_value(value: Option<&str>) -> (r: bool)
    ensures
        r == (match value {
            Some(v) => is_truthy(v@),
            None => false,
        }),
{
    match value {
        Some(v) => {
            let c = chars_of(v);
            chars_eq_str(c.as_slice(), "1") || chars_eq_str(c.as_slice(), "true") || chars_eq_str(
                c.as_slice(),
                "TRUE",
            ) || chars_eq_str(c.as_slice(), "yes") || chars_eq_str(c.as_slice(), "on")
        },
        None => false,
    }
}

/// The project named by a working directory's last component: the component, or `unknown`
/// when there is none or it is empty.
pub open spec fn project_name_of(file_name: Option<Seq<char>>) -> Seq<char> {
    match file_name {
        Some(n) => if n.len() > 0 {
            n
        } else {
            "unknown"@
        },
        None => "unknown"@,
    }
}

pub fn project_from_file_name(file_name: Option<String>) -> (r: String)
    ensures
        r@ == project_name_of(opt_view(file_name)),
{
    match file_name {
        Some(n) => {
            if n.as_str().is_empty() {
                "unknown".to_owned()
            } else {
                n
            }
        },
        None => "unknown".to_owned(),
    }
}

/// A path that is one plain component on every platform: not empty, not `.` or `..`, and
/// without `/`, `\\` or `:`.
pub open spec fn plain_component(path: Seq<char>) -> bool {
    &&& path.len() > 0
    &&& path != "."@
    &&& path != ".."@
    &&& forall|i: int| 0 <= i < path.len() ==> #[trigger] path[i] != '/' && path[i] != '\\' && path[i] != ':'
}

/// The last component of `path`.
///
/// Trusted: calls `Path::file_name`, which returns the final component of a path. How a
/// longer path splits into components depends on the platform, so only a path that is one
/// plain component is stated: it is its own final component.
#[verifier::external_body]
fn path_file_name(path: &str) -> (r: Option<String>)
    ensures
        plain_component(path@) ==> opt_view(r) == Some(path@),
{
    std::path::Path::new(path).file_name().and_then(|n| n.to_str()).map(|n| n.to_owned())
}

/// The project a working directory belongs to: its last path component, or `unknown`.
pub fn project_from_path(path: &str) -> (r: String)
    ensures
        r@.len() > 0,
        plain_component(path@) ==> r@ == path@,
{
    proof {
        reveal_strlit("unknown");
    }
    project_from_file_name(path_file_name(path))
}

/// The result limit of a request: a positive `limit` argument, else `default`, capped at
/// 100.
pub open spec fn parse_limit_spec(value: Option<Seq<char>>, default: i64) -> i64 {
    let v = match value {
        Some(s) => match parse_signed(s, i64::MIN as int, i64::MAX as int) {
            Some(n) => if n > 0 {
                n as i64
            } else {
                default
            },
            None => default,
        },
        None => default,
    };
    if v < 100 {
        v
    } else {
        100
    }
}

pub fn parse_limit(value: Option<&String>, default: i64) -> (r: i64)
    ensures
        r == parse_limit_spec(
            match value {
                Some(s) => Some(s@),
                None => None,
            },
            default,
        ),
{
    let v = match value {
        Some(s) => match parse_i64(s.as_str()) {
            Some(n) => if n > 0 {
                n
            } else {
                default
            },
            None => default,
        },
        None => default,
    };
    if v < 100 {
        v
    } else {
        100
    }
}

/// The search options of a search request: the filters of its arguments, the query `q`
/// unless blank, and the request's limit (20 by default).
pub fn search_options_from_query(query: &HashMap<String, String>, q: &str) -> (r: StrategySearchOptions)
    ensures
        filter_options_are(r, query@),
        opt_view(r.query) == (if trim(q@).len() > 0 {
            Some(q@)
        } else {
            None
        }),
        r.limit == Some(parse_limit_spec(arg_value(query@, "limit"@), 20)),
{
    let c = chars_of(q);
    let t = trim_chars(c.as_slice());
    let query_text = if t.len() > 0 {
        Some(q.to_owned())
    } else {
        None
    };
    let limit = parse_limit(get_arg(query, "limit"), 20);
    options_from_args(query, query_text, Some(limit))
}

/// Whether a search goes to the vector store: it has query text, asks for the vector store,
/// a hybrid search or automatic choice, and covers observations.
pub open spec fn uses_vector_store(options: StrategySearchOptions, query: Seq<char>) -> bool {
    &&& trim(query).len() > 0
    &&& (options.strategy_hint == Some(SearchStrategyHint::Qdrant) || options.strategy_hint == Some(
        SearchStrategyHint::Hybrid,
    ) || options.strategy_hint == Some(SearchStrategyHint::Auto))
    &&& (options.search_type == SearchType::All || options.search_type == SearchType::Observations)
}

pub fn should_use_qdrant(options: &StrategySearchOptions, query: &str) -> (r: bool)
    ensures
        r == uses_vector_store(*options, query@),
{
    let c = chars_of(query);
    let t = trim_chars(c.as_slice());
    let hint = match options.strategy_hint {
        Some(SearchStrategyHint::Qdrant) | Some(SearchStrategyHint::Hybrid) | Some(
            SearchStrategyHint::Auto,
        ) => true,
        _ => false,
    };
    let kind = match options.search_type {
        SearchType::All | SearchType::Observations => true,
        _ => false,
    };
    t.len() > 0 && hint && kind
}

/// Whether a session summary passes a search's project and date filters.
pub open spec fn summary_matches(row: SessionSummaryRow, options: StrategySearchOptions) -> bool {
    &&& match options.project {
        None => true,
        Some(p) => row.project@ == p@,
    }
    &&& in_date_range(options.date_range, row.created_at_epoch)
}

pub fn summary_matches_options(row: &SessionSummaryRow, options: &StrategySearchOptions) -> (r: bool)
    ensures
        r == summary_matches(*row, *options),
{
    let project_ok = match &options.project {
        None => true,
        Some(p) => {
            let a = chars_of(row.project.as_str());
            let b = chars_of(p.as_str());
            crate::text::chars_eq(a.as_slice(), b.as_slice())
        },
    };
    project_ok && in_date_range_exec(&options.date_range, row.created_at_epoch)
}

/// The observation types a corpus may be built from.
pub const ALLOWED_CORPUS_TYPES: [&'static str; 6] = [
    "decision",
    "bugfix",
    "feature",
    "refactor",
    "discovery",
    "change",
];

pub open spec fn is_allowed_corpus_type(t: Seq<char>) -> bool {
    exists|i: int| 0 <= i < 6 && t == #[trigger] ALLOWED_CORPUS_TYPES@[i]@
}

pub fn allowed_corpus_type(t: &str) -> (r: bool)
    ensures
        r == is_allowed_corpus_type(t@),
{
    let c = chars_of(t);
    let mut i: usize = 0;
    while i < 6
        invariant
            i <= 6,
            c@ == t@,
            forall|j: int| 0 <= j < i ==> t@ != #[trigger] ALLOWED_CORPUS_TYPES@[j]@,
        decreases 6 - i,
    {
        if chars_eq_str(c.as_slice(), ALLOWED_CORPUS_TYPES[i]) {
            return true;
        }
        i = i + 1;
    }
    false
}

/// The texts of `items`, when every item is a string.
pub open spec fn item_texts(items: Seq<JsonValue>) -> Option<Seq<Seq<char>>>
    decreases items.len(),
{
    if items.len() == 0 {
        Some(seq![])
    } else {
        match (item_texts(items.drop_last()), items.last()) {
            (Some(p), JsonValue::String(s)) => Some(p.push(s@)),
            _ => None,
        }
    }
}

/// A list of strings as a client may send it: absent, `null`, an array of strings, JSON
/// text of one of those, or comma-separated text. Items are trimmed and blank ones dropped;
/// blank text is absent. `Err` marks a value of any other shape. `fuel` bounds how often
/// text is read again as JSON.
pub open spec fn coerce_strings(v: JsonValue, fuel: nat) -> Result<Option<Seq<Seq<char>>>, ()>
    decreases fuel,
{
    match v {
        JsonValue::Null => Ok(None),
        JsonValue::Array(items) => match item_texts(items@) {
            Some(t) => Ok(Some(nonblank_trimmed(t))),
            None => Err(()),
        },
        JsonValue::String(s) => {
            let t = trim(s@);
            if t.len() == 0 {
                Ok(None)
            } else {
                match json_parse(t) {
                    Some(p) => if fuel == 0 {
                        Err(())
                    } else {
                        coerce_strings(p, (fuel - 1) as nat)
                    },
                    None => Ok(Some(nonblank_trimmed(split_by(t, comma_sep())))),
                }
            }
        },
        _ => Err(()),
    }
}

/// The lists read from a request field hold only non-empty items with no whitespace at
/// either end.
pub proof fn lemma_coerce_strings_items(v: JsonValue, fuel: nat)
    ensures
        coerce_strings(v, fuel) matches Ok(Some(items)) ==> forall|i: int|
            0 <= i < items.len() ==> (#[trigger] items[i]).len() > 0 && !crate::text::is_ws(
                items[i][0],
            ) && !crate::text::is_ws(items[i].last()),
    decreases fuel,
{
    match v {
        JsonValue::Array(items) => {
            if let Some(t) = item_texts(items@) {
                crate::text::lemma_nonblank_trimmed(t);
            }
        },
        JsonValue::String(s) => {
            let t = trim(s@);
            if t.len() > 0 {
                match json_parse(t) {
                    Some(p) => {
                        if fuel > 0 {
                            lemma_coerce_strings_items(p, (fuel - 1) as nat);
                        }
                    },
                    None => {
                        crate::text::lemma_nonblank_trimmed(split_by(t, comma_sep()));
                    },
                }
            }
        },
        _ => {},
    }
}

/// The fuel `coerce_strings` is given for `v`: the length of its text. Each reading as
/// JSON removes at least the two quotes of a string literal, so this is always enough.
pub open spec fn coerce_fuel(v: JsonValue) -> nat {
    match v {
        JsonValue::String(s) => s@.len(),
        _ => 0,
    }
}

pub open spec fn opt_strs(o: Option<Vec<String>>) -> Option<Seq<Seq<char>>> {
    match o {
        Some(v) => Some(strs_view(v@)),
        None => None,
    }
}

/// `field must be an array of strings`.
pub open spec fn not_strings_message(field: Seq<char>) -> Seq<char> {
    field + " must be an array of strings"@
}

fn bad_strings(field: &str) -> (r: ApiError)
    ensures
        r.status == 400,
        r.message@ == not_strings_message(field@),
{
    let mut v = chars_of(field);
    push_str(&mut v, " must be an array of strings");
    ApiError::bad_request(string_from_chars(v.as_slice()))
}

fn array_texts(items: &Vec<JsonValue>) -> (r: Option<Vec<String>>)
    ensures
        match r {
            Some(v) => item_texts(items@) == Some(strs_view(v@)),
            None => item_texts(items@) is None,
        },
{
    let mut out: Vec<String> = Vec::new();
    let mut i: usize = 0;
    while i < items.len()
        invariant
            i <= items@.len(),
            item_texts(items@.take(i as int)) == Some(strs_view(out@)),
        decreases items.len() - i,
    {
        assert(items@.take(i + 1).drop_last() =~= items@.take(i as int));
        match &items[i] {
            JsonValue::String(s) => {
                let ghost o0 = out@;
                out.push(s.clone());
                assert(strs_view(out@) =~= strs_view(o0).push(s@));
            },
            _ => {
                proof {
                    lemma_item_texts_none(items@, i as int);
                }
                return None;
            },
        }
        i = i + 1;
    }
    assert(items@.take(items@.len() as int) =~= items@);
    Some(out)
}

proof fn lemma_item_texts_none(items: Seq<JsonValue>, k: int)
    requires
        0 <= k < items.len(),
        !(items[k] is String),
    ensures
        item_texts(items) is None,
    decreases items.len(),
{
    if k < items.len() - 1 {
        lemma_item_texts_none(items.drop_last(), k);
    }
}

fn trimmed_items(texts: &Vec<String>) -> (r: Vec<String>)
    ensures
        strs_view(r@) == nonblank_trimmed(strs_view(texts@)),
{
    let mut cs: Vec<Vec<char>> = Vec::new();
    let mut i: usize = 0;
    while i < texts.len()
        invariant
            i <= texts@.len(),
            crate::text::chars_vecs_view(cs@) == strs_view(texts@.take(i as int)),
        decreases texts.len() - i,
    {
        let ghost c0 = cs@;
        cs.push(chars_of(texts[i].as_str()));
        assert(crate::text::chars_vecs_view(cs@) =~= crate::text::chars_vecs_view(c0).push(
            texts@[i as int]@,
        ));
        assert(strs_view(texts@.take(i + 1)) =~= strs_view(texts@.take(i as int)).push(
            texts@[i as int]@,
        ));
        i = i + 1;
    }
    assert(texts@.take(texts@.len() as int) =~= texts@);
    let kept = nonblank_trimmed_chars(&cs);
    strings_from_char_vecs(&kept)
}

fn coerce_with_fuel(raw: &JsonValue, field: &str, fuel: usize) -> (r: Result<
    Option<Vec<String>>,
    ApiError,
>)
    ensures
        match coerce_strings(*raw, fuel as nat) {
            Ok(x) => r matches Ok(o) && opt_strs(o) == x,
            Err(_) => r matches Err(e) && e.status == 400 && e.message@ == not_strings_message(
                field@,
            ),
        },
    decreases fuel,
{
    match raw {
        JsonValue::Null => Ok(None),
        JsonValue::Array(items) => match array_texts(items) {
            Some(texts) => Ok(Some(trimmed_items(&texts))),
            None => Err(bad_strings(field)),
        },
        JsonValue::String(s) => {
            let c = chars_of(s.as_str());
            let t = trim_chars(c.as_slice());
            if t.len() == 0 {
                return Ok(None);
            }
            let ts = string_from_chars(t.as_slice());
            match parse_json(ts.as_str()) {
                Ok(parsed) => {
                    if fuel == 0 {
                        Err(bad_strings(field))
                    } else {
                        coerce_with_fuel(&parsed, field, fuel - 1)
                    }
                },
                Err(_) => {
                    let pieces = split_chars(t.as_slice(), Separator::Comma);
                    let kept = nonblank_trimmed_chars(&pieces);
                    Ok(Some(strings_from_char_vecs(&kept)))
                },
            }
        },
        _ => Err(bad_strings(field)),
    }
}

/// A list of strings from a request field, as `coerce_strings` reads it; a value of another
/// shape is a bad request naming `field`.
pub fn coerce_string_array(value: Option<&JsonValue>, field: &str) -> (r: Result<
    Option<Vec<String>>,
    ApiError,
>)
    ensures
        match value {
            None => r == Ok::<Option<Vec<String>>, ApiError>(None),
            Some(v) => match coerce_strings(*v, coerce_fuel(*v)) {
                Ok(x) => r matches Ok(o) && opt_strs(o) == x,
                Err(_) => r matches Err(e) && e.status == 400 && e.message@ == not_strings_message(
                    field@,
                ),
            },
        },
{
    let Some(raw) = value else {
        return Ok(None);
    };
    let fuel: usize = match raw {
        JsonValue::String(s) => chars_of(s.as_str()).len(),
        _ => 0,
    };
    coerce_with_fuel(raw, field, fuel)
}

/// A positive integer as a client may send it: absent, `null`, a number, or its text;
/// blank text is absent. `Err` marks anything else, zero and negative numbers included.
pub open spec fn coerce_positive(v: Option<JsonValue>) -> Result<Option<i64>, ()> {
    match v {
        None => Ok(None),
        Some(JsonValue::Null) => Ok(None),
        Some(JsonValue::Number(n)) => match n.as_i64 {
            Some(i) => if i > 0 {
                Ok(Some(i))
            } else {
                Err(())
            },
            None => Err(()),
        },
        Some(JsonValue::String(s)) => {
            let t = trim(s@);
            if t.len() == 0 {
                Ok(None)
            } else {
                match parse_signed(t, i64::MIN as int, i64::MAX as int) {
                    Some(i) => if i > 0 {
                        Ok(Some(i as i64))
                    } else {
                        Err(())
                    },
                    None => Err(()),
                }
            }
        },
        _ => Err(()),
    }
}

/// `field must be a positive integer`.
pub open spec fn not_positive_message(field: Seq<char>) -> Seq<char> {
    field + " must be a positive integer"@
}

fn bad_positive(field: &str) -> (r: ApiError)
    ensures
        r.status == 400,
        r.message@ == not_positive_message(field@),
{
    let mut v = chars_of(field);
    push_str(&mut v, " must be a positive integer");
    ApiError::bad_request(string_from_chars(v.as_slice()))
}

pub open spec fn deref_value(v: Option<&JsonValue>) -> Option<JsonValue> {
    match v {
        Some(x) => Some(*x),
        None => None,
    }
}

/// A positive integer from a request field; anything else is a bad request naming `field`.
pub fn coerce_positive_int(value: Option<&JsonValue>, field: &str) -> (r: Result<Option<i64>, ApiError>)
    ensures
        match coerce_positive(deref_value(value)) {
            Ok(x) => r == Ok::<Option<i64>, ApiError>(x),
            Err(_) => r matches Err(e) && e.status == 400 && e.message@ == not_positive_message(
                field@,
            ),
        },
{
    let Some(raw) = value else {
        return Ok(None);
    };
    match raw {
        JsonValue::Null => Ok(None),
        JsonValue::Number(n) => match n.as_i64 {
            Some(i) => if i > 0 {
                Ok(Some(i))
            } else {
                Err(bad_positive(field))
            },
            None => Err(bad_positive(field)),
        },
        JsonValue::String(s) => {
            let c = chars_of(s.as_str());
            let t = trim_chars(c.as_slice());
            if t.len() == 0 {
                return Ok(None);
            }
            let ts = string_from_chars(t.as_slice());
            match parse_i64(ts.as_str()) {
                Some(i) => if i > 0 {
                    Ok(Some(i))
                } else {
                    Err(bad_positive(field))
                },
                None => Err(bad_positive(field)),
            }
        },
        _ => Err(bad_positive(field)),
    }
}

/// What a valid corpus build request asks for.
#[derive(Debug, Clone, PartialEq, Eq)]
pub struct CorpusBuildPlan {
    pub name: String,
    pub description: String,
    pub filter: CorpusFilter,
}

pub open spec fn missing_name_message() -> Seq<char> {
    "Missing required field: name. Example body: {\"name\":\"my-corpus\",\"query\":\"hooks\",\"limit\":100}"@
}

pub open spec fn invalid_types_message() -> Seq<char> {
    "types must contain valid observation types"@
}

/// A list kept only when it has items.
pub open spec fn non_empty_list(o: Option<Seq<Seq<char>>>) -> Option<Seq<Seq<char>>> {
    match o {
        Some(v) => if v.len() > 0 {
            Some(v)
        } else {
            None
        },
        None => None,
    }
}

pub open spec fn coerced(v: Option<JsonValue>) -> Result<Option<Seq<Seq<char>>>, ()> {
    match v {
        None => Ok(None),
        Some(x) => coerce_strings(x, coerce_fuel(x)),
    }
}

pub open spec fn all_allowed_seq(t: Seq<Seq<char>>) -> bool {
    forall|i: int| 0 <= i < t.len() ==> is_allowed_corpus_type(#[trigger] t[i])
}

pub open spec fn all_allowed(types: Option<Seq<Seq<char>>>) -> bool {
    match types {
        Some(t) => all_allowed_seq(t),
        None => true,
    }
}

/// The answer to a corpus build request: a bad request when the trimmed name is blank, a
/// list field is not a list of strings, a type is not an allowed one, or the limit is not a
/// positive integer, checked in that order; otherwise the trimmed name, the description
/// (empty when absent) and the filter, whose empty lists and empty query are dropped.
pub open spec fn build_plan_is(r: Result<CorpusBuildPlan, ApiError>, req: CorpusBuildRequest) -> bool {
    let name = match req.name {
        Some(n) => trim(n@),
        None => seq![],
    };
    if name.len() == 0 {
        r matches Err(e) && e.status == 400 && e.message@ == missing_name_message()
    } else if coerced(req.types) is Err {
        r matches Err(e) && e.status == 400 && e.message@ == not_strings_message("types"@)
    } else if !all_allowed(coerced(req.types)->Ok_0) {
        r matches Err(e) && e.status == 400 && e.message@ == invalid_types_message()
    } else if coerced(req.concepts) is Err {
        r matches Err(e) && e.status == 400 && e.message@ == not_strings_message("concepts"@)
    } else if coerced(req.files) is Err {
        r matches Err(e) && e.status == 400 && e.message@ == not_strings_message("files"@)
    } else if coerce_positive(req.limit) is Err {
        r matches Err(e) && e.status == 400 && e.message@ == not_positive_message("limit"@)
    } else {
        &&& r matches Ok(p)
        &&& p.name@ == name
        &&& p.description@ == (match req.description {
            Some(d) => d@,
            None => seq![],
        })
        &&& p.filter.project == req.project
        &&& opt_strs(p.filter.types) == non_empty_list(coerced(req.types)->Ok_0)
        &&& opt_strs(p.filter.concepts) == non_empty_list(coerced(req.concepts)->Ok_0)
        &&& opt_strs(p.filter.files) == non_empty_list(coerced(req.files)->Ok_0)
        &&& opt_view(p.filter.query) == (match req.query {
            Some(q) => if q@.len() > 0 {
                Some(q@)
            } else {
                None
            },
            None => None,
        })
        &&& p.filter.date_start == req.date_start
        &&& p.filter.date_end == req.date_end
        &&& p.filter.limit == coerce_positive(req.limit)->Ok_0
    }
}

fn keep_non_empty(o: Option<Vec<String>>) -> (r: Option<Vec<String>>)
    ensures
        opt_strs(r) == non_empty_list(opt_strs(o)),
{
    match o {
        Some(v) => if v.len() > 0 {
            Some(v)
        } else {
            None
        },
        None => None,
    }
}

fn all_types_allowed(types: &Option<Vec<String>>) -> (r: bool)
    ensures
        r == all_allowed(opt_strs(*types)),
{
    match types {
        Some(v) => {
            let mut i: usize = 0;
            while i < v.len()
                invariant
                    i <= v@.len(),
                    opt_strs(*types) == Some(strs_view(v@)),
                    forall|j: int| 0 <= j < i ==> is_allowed_corpus_type(#[trigger] strs_view(v@)[j]),
                decreases v.len() - i,
            {
                if !allowed_corpus_type(v[i].as_str()) {
                    assert(strs_view(v@)[i as int] == v@[i as int]@);
                    assert(!is_allowed_corpus_type(strs_view(v@)[i as int]));
                    assert(i < strs_view(v@).len());
                    assert(!all_allowed_seq(strs_view(v@)));
                    return false;
                }
                i = i + 1;
            }
            true
        },
        None => true,
    }
}

/// Checks a corpus build request and says what to build.
pub fn corpus_build_plan(req: CorpusBuildRequest) -> (r: Result<CorpusBuildPlan, ApiError>)
    ensures
        build_plan_is(r, req),
{
    let name = match &req.name {
        Some(n) => {
            let c = chars_of(n.as_str());
            trim_chars(c.as_slice())
        },
        None => Vec::new(),
    };
    if name.len() == 0 {
        return Err(
            ApiError::bad_request(
                "Missing required field: name. Example body: {\"name\":\"my-corpus\",\"query\":\"hooks\",\"limit\":100}".to_owned(),
            ),
        );
    }
    let types = match coerce_string_array(req.types.as_ref(), "types") {
        Ok(t) => t,
        Err(e) => return Err(e),
    };
    if !all_types_allowed(&types) {
        return Err(ApiError::bad_request("types must contain valid observation types".to_owned()));
    }
    let concepts = match coerce_string_array(req.concepts.as_ref(), "concepts") {
        Ok(t) => t,
        Err(e) => return Err(e),
    };
    let files = match coerce_string_array(req.files.as_ref(), "files") {
        Ok(t) => t,
        Err(e) => return Err(e),
    };
    let limit = match coerce_positive_int(req.limit.as_ref(), "limit") {
        Ok(l) => l,
        Err(e) => return Err(e),
    };
    let query = match req.query {
        Some(q) => if q.as_str().is_empty() {
            None
        } else {
            Some(q)
        },
        None => None,
    };
    let description = match req.description {
        Some(d) => d,
        None => String::new(),
    };
    let filter = CorpusFilter {
        project: req.project,
        types: keep_non_empty(types),
        concepts: keep_non_empty(concepts),
        files: keep_non_empty(files),
        query,
        date_start: req.date_start,
        date_end: req.date_end,
        limit,
    };
    Ok(CorpusBuildPlan { name: string_from_chars(name.as_slice()), description, filter })
}

/// A store failure as an answer: a bad name is the client's fault, anything else the
/// server's; the message is the error's.
pub fn corpus_store_error(error: CorpusStoreError) -> (r: ApiError)
    ensures
        r.status == (if error is InvalidName {
            400u16
        } else {
            500u16
        }),
        r.message@ == store_error_text(error),
{
    let message = error.message();
    match error {
        CorpusStoreError::InvalidName => ApiError::bad_request(message),
        _ => ApiError::internal(message),
    }
}

/// A build failure as an answer: a store failure as `corpus_store_error` answers it, a
/// database failure as a server error.
pub fn corpus_builder_error(error: CorpusBuilderError) -> (r: ApiError)
    ensures
        r.status == (if error matches CorpusBuilderError::Store(CorpusStoreError::InvalidName) {
            400u16
        } else {
            500u16
        }),
        r.message@ == builder_error_text(error),
{
    match error {
        CorpusBuilderError::Store(e) => corpus_store_error(e),
        other => ApiError::internal(other.message()),
    }
}

/// A knowledge-agent failure as an answer: an unprimed corpus is a bad request, a missing
/// agent CLI executable makes the service unavailable, anything else is a server error.
pub fn knowledge_agent_error(error: KnowledgeAgentError) -> (r: ApiError)
    ensures
        r.status == (match error {
            KnowledgeAgentError::NotPrimed(_) => 400u16,
            KnowledgeAgentError::ExecutableNotFound => 503u16,
            _ => 500u16,
        }),
        r.message@ == agent_error_text(error),
{
    let message = error.message();
    match error {
        KnowledgeAgentError::NotPrimed(_) => ApiError::bad_request(message),
        KnowledgeAgentError::ExecutableNotFound => ApiError { status: 503, message },
        _ => ApiError::internal(message),
    }
}

pub open spec fn agent_disabled_message() -> Seq<char> {
    "Knowledge agent endpoints are not available in this build. Rebuild the worker with --features knowledge-agent to enable prime/query/reprime."@
}

/// The answer of the knowledge-agent endpoints in a build without the agent.
pub fn knowledge_agent_disabled() -> (r: ApiError)
    ensures
        r.status == 501,
        r.message@ == agent_disabled_message(),
{
    ApiError {
        status: 501,
        message: "Knowledge agent endpoints are not available in this build. Rebuild the worker with --features knowledge-agent to enable prime/query/reprime.".to_owned(),
    }
}

/// The message for an unknown corpus, listing the corpora there are.
pub open spec fn not_found_message(name: Seq<char>, available: Seq<Seq<char>>) -> Seq<char> {
    "Corpus \""@ + name + "\" not found. Available: "@ + (if available.len() == 0 {
        "(none)"@
    } else {
        join(available, ", "@)
    })
}

/// The answer for an unknown corpus: not found, with the names of the corpora there are.
pub fn corpus_not_found(name: &str, available: &Vec<String>) -> (r: ApiError)
    ensures
        r.status == 404,
        r.message@ == not_found_message(name@, strs_view(available@)),
{
    let mut v = chars_of("Corpus \"");
    push_str(&mut v, name);
    push_str(&mut v, "\" not found. Available: ");
    if available.len() == 0 {
        push_str(&mut v, "(none)");
    } else {
        let j = join_strings(available, ", ");
        push_str(&mut v, j.as_str());
    }
    ApiError { status: 404, message: string_from_chars(v.as_slice()) }
}

pub open spec fn missing_question_message() -> Seq<char> {
    "Missing required field: question. Example: {\"question\":\"What changed?\"}"@
}

/// The question of a corpus query, trimmed; a missing or blank one is a bad request.
pub fn corpus_question(req: &CorpusQueryRequest) -> (r: Result<String, ApiError>)
    ensures
        match req.question {
            Some(q) if trim(q@).len() > 0 => r matches Ok(t) && t@ == trim(q@),
            _ => r matches Err(e) && e.status == 400 && e.message@ == missing_question_message(),
        },
{
    if let Some(q) = &req.question {
        let c = chars_of(q.as_str());
        let t = trim_chars(c.as_slice());
        if t.len() > 0 {
            return Ok(string_from_chars(t.as_slice()));
        }
    }
    Err(
        ApiError::bad_request(
            "Missing required field: question. Example: {\"question\":\"What changed?\"}".to_owned(),
        ),
    )
}

pub const SDK_SESSION_COLUMNS: [&'static str; 14] = [
    "id",
    "content_session_id",
    "memory_session_id",
    "project",
    "user_prompt",
    "started_at",
    "started_at_epoch",
    "completed_at",
    "completed_at_epoch",
    "status",
    "worker_port",
    "prompt_counter",
    "custom_title",
    "platform_source",
];

pub const OBSERVATION_COLUMNS: [&'static str; 22] = [
    "id",
    "memory_session_id",
    "project",
    "text",
    "type",
    "title",
    "subtitle",
    "narrative",
    "facts",
    "concepts",
    "files_read",
    "files_modified",
    "prompt_number",
    "discovery_tokens",
    "created_at",
    "created_at_epoch",
    "generated_by_model",
    "relevance_count",
    "merged_into_project",
    "agent_type",
    "agent_id",
    "content_hash",
];

pub const SUMMARY_COLUMNS: [&'static str; 16] = [
    "id",
    "memory_session_id",
    "project",
    "request",
    "investigated",
    "learned",
    "completed",
    "next_steps",
    "files_read",
    "files_edited",
    "notes",
    "prompt_number",
    "discovery_tokens",
    "created_at",
    "created_at_epoch",
    "merged_into_project",
];

pub const PROMPT_COLUMNS: [&'static str; 6] = [
    "id",
    "content_session_id",
    "prompt_number",
    "prompt_text",
    "created_at",
    "created_at_epoch",
];

/// The columns an import may fill in each table it accepts.
pub open spec fn table_columns(table: Seq<char>) -> Option<Seq<&'static str>> {
    if table == "sdk_sessions"@ {
        Some(SDK_SESSION_COLUMNS@)
    } else if table == "observations"@ {
        Some(OBSERVATION_COLUMNS@)
    } else if table == "session_summaries"@ {
        Some(SUMMARY_COLUMNS@)
    } else if table == "user_prompts"@ {
        Some(PROMPT_COLUMNS@)
    } else {
        None
    }
}

pub fn import_columns(table: &str) -> (r: Option<&'static [&'static str]>)
    ensures
        match r {
            Some(c) => table_columns(table@) == Some(c@),
            None => table_columns(table@) is None,
        },
{
    let t = chars_of(table);
    if chars_eq_str(t.as_slice(), "sdk_sessions") {
        Some(SDK_SESSION_COLUMNS.as_slice())
    } else if chars_eq_str(t.as_slice(), "observations") {
        Some(OBSERVATION_COLUMNS.as_slice())
    } else if chars_eq_str(t.as_slice(), "session_summaries") {
        Some(SUMMARY_COLUMNS.as_slice())
    } else if chars_eq_str(t.as_slice(), "user_prompts") {
        Some(PROMPT_COLUMNS.as_slice())
    } else {
        None
    }
}

/// What `serde_json::to_string` gives for a list of strings.
pub uninterp spec fn json_array_text(items: Seq<Seq<char>>) -> Seq<char>;

/// `items` as a JSON array of strings.
///
/// Trusted: calls `serde_json::to_string`, which cannot fail on a list of strings; its
/// result is named `json_array_text`.
#[verifier::external_body]
fn json_string_array(items: &Vec<String>) -> (r: String)
    ensures
        r@ == json_array_text(strs_view(items@)),
{
    serde_json::to_string(items).unwrap_or_else(|_| "[]".to_owned())
}

/// Summary text taken from the session, trimmed and cut to its first 1200 characters.
pub open spec fn trimmed_summary(cleaned: Seq<char>) -> Seq<char> {
    let t = trim(cleaned);
    if t.len() > 1200 {
        t.take(1200)
    } else {
        t
    }
}

/// `cleaned` (text with its private parts already removed) trimmed and cut to 1200
/// characters.
pub fn trim_for_summary(cleaned: &str) -> (r: String)
    ensures
        r@ == trimmed_summary(cleaned@),
{
    let c = chars_of(cleaned);
    let t = trim_chars(c.as_slice());
    if t.len() > 1200 {
        let head = crate::text::copy_range(t.as_slice(), 0, 1200);
        assert(head@ =~= t@.take(1200));
        string_from_chars(head.as_slice())
    } else {
        string_from_chars(t.as_slice())
    }
}

/// The titles of the first eight observations, or their narratives where they have no
/// title.
pub open spec fn summary_titles(obs: Seq<ObservationRow>) -> Seq<Seq<char>>
    decreases obs.len(),
{
    if obs.len() == 0 {
        seq![]
    } else {
        let p = summary_titles(obs.drop_last());
        if obs.len() > 8 {
            p
        } else {
            match obs.last().title {
                Some(t) => p.push(t@),
                None => match obs.last().narrative {
                    Some(n) => p.push(n@),
                    None => p,
                },
            }
        }
    }
}

/// Every file of the observations' lists, in order.
pub open spec fn all_files(obs: Seq<ObservationRow>, read: bool) -> Seq<Seq<char>>
    decreases obs.len(),
{
    if obs.len() == 0 {
        seq![]
    } else {
        let l = if read {
            obs.last().files_read
        } else {
            obs.last().files_modified
        };
        all_files(obs.drop_last(), read) + match l {
            Some(v) => strs_view(v@),
            None => seq![],
        }
    }
}

fn collect_titles(observations: &Vec<ObservationRow>) -> (r: Vec<String>)
    ensures
        strs_view(r@) == summary_titles(observations@),
{
    let mut out: Vec<String> = Vec::new();
    let mut i: usize = 0;
    while i < observations.len()
        invariant
            i <= observations@.len(),
            strs_view(out@) == summary_titles(observations@.take(i as int)),
        decreases observations.len() - i,
    {
        let ghost pre = observations@.take(i as int);
        let ghost post = observations@.take(i + 1);
        assert(post.drop_last() =~= pre);
        let ghost o0 = out@;
        if i < 8 {
            match &observations[i].title {
                Some(t) => {
                    out.push(t.clone());
                    assert(strs_view(out@) =~= strs_view(o0).push(t@));
                },
                None => match &observations[i].narrative {
                    Some(n) => {
                        out.push(n.clone());
                        assert(strs_view(out@) =~= strs_view(o0).push(n@));
                    },
                    None => {},
                },
            }
        }
        i = i + 1;
    }
    assert(observations@.take(observations@.len() as int) =~= observations@);
    out
}

fn collect_files(observations: &Vec<ObservationRow>, read: bool) -> (r: Vec<String>)
    ensures
        strs_view(r@) == all_files(observations@, read),
{
    let mut out: Vec<String> = Vec::new();
    let mut i: usize = 0;
    while i < observations.len()
        invariant
            i <= observations@.len(),
            strs_view(out@) == all_files(observations@.take(i as int), read),
        decreases observations.len() - i,
    {
        let ghost pre = observations@.take(i as int);
        let ghost post = observations@.take(i + 1);
        assert(post.drop_last() =~= pre);
        let list = if read {
            &observations[i].files_read
        } else {
            &observations[i].files_modified
        };
        if let Some(v) = list {
            let mut j: usize = 0;
            let ghost o0 = strs_view(out@);
            while j < v.len()
                invariant
                    j <= v@.len(),
                    strs_view(out@) == o0 + strs_view(v@).take(j as int),
                decreases v.len() - j,
            {
                let ghost o1 = out@;
                out.push(v[j].clone());
                assert(strs_view(out@) =~= strs_view(o1).push(v@[j as int]@));
                assert(strs_view(v@).take(j + 1) =~= strs_view(v@).take(j as int).push(v@[j as int]@));
                j = j + 1;
            }
            assert(strs_view(v@).take(v@.len() as int) =~= strs_view(v@));
        } else {
            assert(strs_view(out@) =~= all_files(post, read));
        }
        i = i + 1;
    }
    assert(observations@.take(observations@.len() as int) =~= observations@);
    out
}

/// The summary stored for a session whose observer gave none: the prompt as the request, the
/// first titles as what was investigated, the session's closing text as what was learned, a
/// count of the observations, and the files they read and edited.
pub open spec fn fallback_summary_is(
    r: SummaryInput,
    memory_session_id: Seq<char>,
    project: Seq<char>,
    prompt: Option<String>,
    prompt_number: Option<i64>,
    observations: Seq<ObservationRow>,
    cleaned_source: Option<Seq<char>>,
    created_at: Seq<char>,
    created_at_epoch: i64,
) -> bool {
    let titles = summary_titles(observations);
    let read = all_files(observations, true);
    let edited = all_files(observations, false);
    &&& r.memory_session_id@ == memory_session_id
    &&& r.project@ == project
    &&& opt_view(r.request) == Some(
        match prompt {
            Some(p) => p@,
            None => "Session summary"@,
        },
    )
    &&& opt_view(r.investigated) == (if titles.len() > 0 {
        Some(join(titles, "; "@))
    } else {
        None
    })
    &&& opt_view(r.learned) == (match cleaned_source {
        Some(s) => Some(trimmed_summary(s)),
        None => None,
    })
    &&& opt_view(r.completed) == Some(
        "Captured "@ + int_text(observations.len() as int) + " observation(s) for searchable recall."@,
    )
    &&& r.next_steps is None
    &&& opt_view(r.files_read) == (if read.len() > 0 {
        Some(json_array_text(read))
    } else {
        None
    })
    &&& opt_view(r.files_edited) == (if edited.len() > 0 {
        Some(json_array_text(edited))
    } else {
        None
    })
    &&& opt_view(r.notes) == Some("Generated by the session summary fallback."@)
    &&& r.prompt_number == prompt_number
    &&& r.discovery_tokens == Some(0i64)
    &&& r.created_at@ == created_at
    &&& r.created_at_epoch == created_at_epoch
    &&& r.merged_into_project is None
}

/// The summary stored for a session whose observer gave none. `cleaned_source` is the
/// session's closing text with its private parts already removed.
pub fn fallback_summary_input(
    memory_session_id: String,
    project: String,
    prompt: Option<String>,
    prompt_number: Option<i64>,
    observations: Vec<ObservationRow>,
    cleaned_source: Option<&str>,
    created_at: String,
    created_at_epoch: i64,
) -> (r: SummaryInput)
    ensures
        fallback_summary_is(
            r,
            memory_session_id@,
            project@,
            prompt,
            prompt_number,
            observations@,
            match cleaned_source {
                Some(s) => Some(s@),
                None => None,
            },
            created_at@,
            created_at_epoch,
        ),
{
    let titles = collect_titles(&observations);
    let read = collect_files(&observations, true);
    let edited = collect_files(&observations, false);
    let investigated = if titles.len() > 0 {
        Some(join_strings(&titles, "; "))
    } else {
        None
    };
    let learned = match cleaned_source {
        Some(s) => Some(trim_for_summary(s)),
        None => None,
    };
    let mut completed = chars_of("Captured ");
    crate::text::push_u64_text(&mut completed, observations.len() as u64);
    push_str(&mut completed, " observation(s) for searchable recall.");
    let files_read = if read.len() > 0 {
        Some(json_string_array(&read))
    } else {
        None
    };
    let files_edited = if edited.len() > 0 {
        Some(json_string_array(&edited))
    } else {
        None
    };
    let request = match prompt {
        Some(p) => p,
        None => "Session summary".to_owned(),
    };
    proof {
        assert(int_text(observations@.len() as int) == crate::text::nat_text(observations@.len() as nat));
    }
    SummaryInput {
        memory_session_id,
        project,
        request: Some(request),
        investigated,
        learned,
        completed: Some(string_from_chars(completed.as_slice())),
        next_steps: None,
        files_read,
        files_edited,
        notes: Some("Generated by the session summary fallback.".to_owned()),
        prompt_number,
        discovery_tokens: Some(0),
        created_at,
        created_at_epoch,
        merged_into_project: None,
    }
}

/// How many rows of a queue listing have `status` as their `status` member.
pub open spec fn status_count(rows: Seq<JsonValue>, status: Seq<char>) -> nat
    decreases rows.len(),
{
    if rows.len() == 0 {
        0
    } else {
        status_count(rows.drop_last(), status) + (if str_member(rows.last(), "status"@) == Some(
            status,
        ) {
            1nat
        } else {
            0nat
        })
    }
}

proof fn lemma_status_count_bound(rows: Seq<JsonValue>, status: Seq<char>)
    ensures
        status_count(rows, status) <= rows.len(),
    decreases rows.len(),
{
    if rows.len() > 0 {
        lemma_status_count_bound(rows.drop_last(), status);
    }
}

/// Rows of three different statuses are never more than the rows of the listing.
pub proof fn lemma_status_counts_bounded(rows: Seq<JsonValue>, a: Seq<char>, b: Seq<char>, c: Seq<char>)
    requires
        a != b,
        b != c,
        a != c,
    ensures
        status_count(rows, a) + status_count(rows, b) + status_count(rows, c) <= rows.len(),
    decreases rows.len(),
{
    if rows.len() > 0 {
        lemma_status_counts_bounded(rows.drop_last(), a, b, c);
    }
}

/// The numbers of pending, processing and failed messages in a queue listing.
pub fn queue_status_counts(rows: &Vec<JsonValue>) -> (r: (usize, usize, usize))
    ensures
        r.0 == status_count(rows@, "pending"@),
        r.1 == status_count(rows@, "processing"@),
        r.2 == status_count(rows@, "failed"@),
        r.0 + r.1 + r.2 <= rows@.len(),
{
    let mut pending: usize = 0;
    let mut processing: usize = 0;
    let mut failed: usize = 0;
    let mut i: usize = 0;
    while i < rows.len()
        invariant
            i <= rows@.len(),
            pending == status_count(rows@.take(i as int), "pending"@),
            processing == status_count(rows@.take(i as int), "processing"@),
            failed == status_count(rows@.take(i as int), "failed"@),
        decreases rows.len() - i,
    {
        let ghost before = rows@.take(i as int);
        let ghost after = rows@.take(i + 1);
        proof {
            assert(after.drop_last() =~= before);
            assert(after.last() == rows@[i as int]);
            lemma_status_count_bound(before, "pending"@);
            lemma_status_count_bound(before, "processing"@);
            lemma_status_count_bound(before, "failed"@);
        }
        match get_str(&rows[i], "status") {
            Some(st) => {
                let c = chars_of(st.as_str());
                proof {
                    reveal_strlit("pending");
                    reveal_strlit("processing");
                    reveal_strlit("failed");
                    assert("pending"@.len() == 7 && "processing"@.len() == 10 && "failed"@.len()
                        == 6);
                }
                if chars_eq_str(c.as_slice(), "pending") {
                    pending = pending + 1;
                } else if chars_eq_str(c.as_slice(), "processing") {
                    processing = processing + 1;
                } else if chars_eq_str(c.as_slice(), "failed") {
                    failed = failed + 1;
                }
            },
            None => {},
        }
        i = i + 1;
    }
    assert(rows@.take(rows@.len() as int) =~= rows@);
    proof {
        reveal_strlit("pending");
        reveal_strlit("processing");
        reveal_strlit("failed");
        assert("pending"@.len() == 7 && "processing"@.len() == 10 && "failed"@.len() == 6);
        lemma_status_counts_bounded(rows@, "pending"@, "processing"@, "failed"@);
    }
    (pending, processing, failed)
}

pub open spec fn missing_session_message() -> Seq<char> {
    "contentSessionId is required"@
}

/// A session request needs a non-blank content session id.
pub fn require_content_session_id(content_session_id: &str) -> (r: Result<(), ApiError>)
    ensures
        r is Ok <==> trim(content_session_id@).len() > 0,
        r matches Err(e) ==> e.status == 400 && e.message@ == missing_session_message(),
{
    let c = chars_of(content_session_id);
    let t = trim_chars(c.as_slice());
    if t.len() == 0 {
        Err(ApiError::bad_request("contentSessionId is required".to_owned()))
    } else {
        Ok(())
    }
}

/// The project and prompt a session starts with: `unknown` and `[media prompt]` when the
/// request has none.
pub fn session_init_defaults(project: Option<String>, prompt: Option<String>) -> (r: (String, String))
    ensures
        r.0@ == (match project {
            Some(p) => p@,
            None => "unknown"@,
        }),
        r.1@ == (match prompt {
            Some(p) => p@,
            None => "[media prompt]"@,
        }),
{
    let p = match project {
        Some(p) => p,
        None => "unknown".to_owned(),
    };
    let q = match prompt {
        Some(q) => q,
        None => "[media prompt]".to_owned(),
    };
    (p, q)
}

/// The answer to a session start: the prompt is the one after those stored; a prompt that is
/// blank once its private parts are removed is skipped as private, and nothing is injected;
/// otherwise context is injected when the session already has a memory session.
pub fn session_init_response(
    session_db_id: i64,
    stored_prompts: i64,
    cleaned_prompt: &str,
    has_memory_session: bool,
) -> (r: SessionInitResponse)
    requires
        stored_prompts < i64::MAX,
    ensures
        r.session_db_id == session_db_id,
        r.prompt_number == stored_prompts + 1,
        r.skipped == (cleaned_prompt@.len() == 0),
        r.skipped ==> (r.reason matches Some(s) && s@ == "private"@),
        !r.skipped ==> r.reason is None,
        r.context_injected == (!r.skipped && has_memory_session),
{
    if cleaned_prompt.is_empty() {
        SessionInitResponse {
            session_db_id,
            prompt_number: stored_prompts + 1,
            skipped: true,
            reason: Some("private"),
            context_injected: false,
        }
    } else {
        SessionInitResponse {
            session_db_id,
            prompt_number: stored_prompts + 1,
            skipped: false,
            reason: None,
            context_injected: has_memory_session,
        }
    }
}

/// What to do with a reported tool use.
#[derive(Debug, Clone, PartialEq, Eq)]
pub enum ObservationDecision {
    /// The request is refused.
    Reject(ApiError),
    /// Nothing to record: the tool is not named.
    Skip,
    /// Queue the tool use under this tool name.
    Accept(String),
}

/// A tool use is refused without a content session id, skipped without a tool name, and
/// otherwise queued.
pub fn observation_decision(content_session_id: &str, tool_name: Option<&str>) -> (r: ObservationDecision)
    ensures
        trim(content_session_id@).len() == 0 ==> (r matches ObservationDecision::Reject(e) && e.status
            == 400 && e.message@ == missing_session_message()),
        trim(content_session_id@).len() > 0 ==> match tool_name {
            Some(t) if trim(t@).len() > 0 => r matches ObservationDecision::Accept(n) && n@ == t@,
            _ => r == ObservationDecision::Skip,
        },
{
    match require_content_session_id(content_session_id) {
        Err(e) => ObservationDecision::Reject(e),
        Ok(()) => match tool_name {
            Some(t) => {
                let c = chars_of(t);
                let tt = trim_chars(c.as_slice());
                if tt.len() > 0 {
                    ObservationDecision::Accept(t.to_owned())
                } else {
                    ObservationDecision::Skip
                }
            },
            None => ObservationDecision::Skip,
        },
    }
}

/// The project of a session first seen through a tool use: the working directory's project,
/// or `unknown` without one.
pub fn new_session_project(cwd: Option<&str>) -> (r: String)
    ensures
        r@.len() > 0,
        cwd is None ==> r@ == "unknown"@,
        cwd matches Some(p) ==> (plain_component(p@) ==> r@ == p@),
{
    proof {
        reveal_strlit("unknown");
    }
    match cwd {
        Some(path) => project_from_path(path),
        None => "unknown".to_owned(),
    }
}

/// The statistics reported when processing a queued message failed: one failed message.
pub fn failed_processing_stats() -> (r: QueueProcessStats)
    ensures
        r.messages_failed == 1,
        r.total_pending_sessions == 0,
        r.sessions_started == 0,
        r.sessions_skipped == 0,
        r.messages_processed == 0,
        r.observations_inserted == 0,
        r.summaries_inserted == 0,
        r.started_session_ids@.len() == 0,
        r.observation_ids@.len() == 0,
{
    QueueProcessStats {
        total_pending_sessions: 0,
        sessions_started: 0,
        sessions_skipped: 0,
        started_session_ids: Vec::new(),
        messages_processed: 0,
        messages_failed: 1,
        observations_inserted: 0,
        summaries_inserted: 0,
        observation_ids: Vec::new(),
    }
}

/// The text a summary request carries: its summary, else the last assistant message.
pub fn summarize_source(summary: Option<String>, last_assistant_message: Option<String>) -> (r: Option<String>)
    ensures
        r == (if summary is Some {
            summary
        } else {
            last_assistant_message
        }),
{
    match summary {
        Some(s) => Some(s),
        None => last_assistant_message,
    }
}

/// Whether summary text is already written as summary markup, to be stored at once.
pub fn has_summary_markup(source: Option<&str>) -> (r: bool)
    ensures
        r == (match source {
            Some(s) => crate::text::contains(s@, "<summary>"@) || crate::text::contains(
                s@,
                "<skip_summary"@,
            ),
            None => false,
        }),
{
    match source {
        Some(s) => {
            let c = chars_of(s);
            crate::text::contains_exec(c.as_slice(), chars_of("<summary>").as_slice())
                || crate::text::contains_exec(c.as_slice(), chars_of("<skip_summary").as_slice())
        },
        None => false,
    }
}

/// Whether completing a session stores a generated summary: only for a session with a
/// memory session and no summary yet.
pub fn needs_generated_summary(memory_session_id: Option<&str>, existing_summaries: usize) -> (r: bool)
    ensures
        r == (memory_session_id is Some && existing_summaries == 0),
{
    memory_session_id.is_some() && existing_summaries == 0
}

/// The memory session id given to a session that has none when its summary is generated.
pub fn generated_memory_session_id(content_session_id: &str) -> (r: String)
    ensures
        r@ == "rust-local-memory:"@ + content_session_id@,
{
    let mut v = chars_of("rust-local-memory:");
    push_str(&mut v, content_session_id);
    string_from_chars(v.as_slice())
}

/// The summary stored from summary markup: its fields, the latest prompt as the request when
/// the markup has none, and no discovery cost.
pub fn summary_input_from_parsed(
    parsed: ParsedSummary,
    memory_session_id: String,
    project: String,
    latest_prompt: Option<String>,
    prompt_number: Option<i64>,
    created_at: String,
    created_at_epoch: i64,
) -> (r: SummaryInput)
    ensures
        r.memory_session_id == memory_session_id,
        r.project == project,
        r.request == (if parsed.request is Some {
            parsed.request
        } else {
            latest_prompt
        }),
        r.investigated == parsed.investigated,
        r.learned == parsed.learned,
        r.completed == parsed.completed,
        r.next_steps == parsed.next_steps,
        r.notes == parsed.notes,
        r.files_read is None,
        r.files_edited is None,
        r.prompt_number == prompt_number,
        r.discovery_tokens == Some(0i64),
        r.created_at == created_at,
        r.created_at_epoch == created_at_epoch,
        r.merged_into_project is None,
{
    let request = match parsed.request {
        Some(r) => Some(r),
        None => latest_prompt,
    };
    SummaryInput {
        memory_session_id,
        project,
        request,
        investigated: parsed.investigated,
        learned: parsed.learned,
        completed: parsed.completed,
        next_steps: parsed.next_steps,
        files_read: None,
        files_edited: None,
        notes: parsed.notes,
        prompt_number,
        discovery_tokens: Some(0),
        created_at,
        created_at_epoch,
        merged_into_project: None,
    }
}

/// A manual memory to save.
#[derive(Debug, Clone, PartialEq, Eq)]
pub struct MemorySavePlan {
    pub text: String,
    pub title: String,
    pub project: String,
    pub content_session_id: String,
    pub memory_session_id: String,
}

/// The number of records a vector reindex covers: the requested number, 100 by default,
/// kept within 1 to 10 000.
pub fn reindex_limit(limit: Option<i64>) -> (r: i64)
    ensures
        r == (match limit {
            Some(l) => if l < 1 {
                1
            } else if l > 10_000 {
                10_000
            } else {
                l
            },
            None => 100,
        }),
{
    match limit {
        Some(l) => if l < 1 {
            1
        } else if l > 10_000 {
            10_000
        } else {
            l
        },
        None => 100,
    }
}

/// The query of a semantic context request, when it is long enough to search with: at
/// least 20 bytes of UTF-8.
pub fn semantic_query(q: Option<String>) -> (r: Option<String>)
    ensures
        match q {
            Some(t) => if vstd::utf8::encode_utf8(t@).len() >= 20 {
                r == Some(t)
            } else {
                r is None
            },
            None => r is None,
        },
{
    match q {
        Some(t) => {
            if t.as_str().as_bytes().len() >= 20 {
                Some(t)
            } else {
                None
            }
        },
        None => None,
    }
}

/// The first of two members that is present.
pub open spec fn member_either(body: JsonValue, k1: Seq<char>, k2: Seq<char>) -> Option<JsonValue> {
    match json_get(body, k1) {
        Some(v) => Some(v),
        None => json_get(body, k2),
    }
}

fn get_either_member<'a>(body: &'a JsonValue, k1: &str, k2: &str) -> (r: Option<&'a JsonValue>)
    ensures
        match r {
            Some(v) => member_either(*body, k1@, k2@) == Some(*v),
            None => member_either(*body, k1@, k2@) is None,
        },
{
    match body.get(k1) {
        Some(v) => Some(v),
        None => body.get(k2),
    }
}

/// The prompt a legacy session start records: the body's `userPrompt` (or `user_prompt`)
/// when it is a string, else the session's prompt, else `[media prompt]`.
pub fn legacy_prompt(body: &JsonValue, session_prompt: Option<String>) -> (r: String)
    ensures
        r@ == (match member_either(*body, "userPrompt"@, "user_prompt"@) {
            Some(JsonValue::String(p)) => p@,
            _ => match session_prompt {
                Some(p) => p@,
                None => "[media prompt]"@,
            },
        }),
{
    match get_either_member(body, "userPrompt", "user_prompt") {
        Some(JsonValue::String(p)) => p.clone(),
        _ => match session_prompt {
            Some(p) => p,
            None => "[media prompt]".to_owned(),
        },
    }
}

/// The prompt number a legacy session start records: the body's `promptNumber` (or
/// `prompt_number`) when it is an integer, else the one after those stored.
pub fn legacy_prompt_number(body: &JsonValue, stored_prompts: i64) -> (r: i64)
    requires
        stored_prompts < i64::MAX,
    ensures
        r == (match member_either(*body, "promptNumber"@, "prompt_number"@) {
            Some(v) => match json_i64(v) {
                Some(n) => n as int,
                None => stored_prompts + 1,
            },
            None => stored_prompts + 1,
        }),
{
    match get_either_member(body, "promptNumber", "prompt_number") {
        Some(v) => match v.as_i64() {
            Some(n) => n,
            None => stored_prompts + 1,
        },
        None => stored_prompts + 1,
    }
}

pub open spec fn missing_text_message() -> Seq<char> {
    "text is required and must be non-empty"@
}

/// A manual memory: refused when its text is blank once private parts are removed; otherwise
/// the trimmed text, the given title or the text's first 60 characters, the project
/// (`manual` by default), and the manual session ids of that project.
pub fn memory_save_plan(cleaned_text: &str, title: Option<String>, project: Option<String>) -> (r: Result<
    MemorySavePlan,
    ApiError,
>)
    ensures
        trim(cleaned_text@).len() == 0 ==> (r matches Err(e) && e.status == 400 && e.message@
            == missing_text_message()),
        trim(cleaned_text@).len() > 0 ==> (r matches Ok(p) && {
            let text = trim(cleaned_text@);
            let proj = match project {
                Some(pr) => pr@,
                None => "manual"@,
            };
            &&& p.text@ == text
            &&& p.title@ == (match title {
                Some(t) => t@,
                None => if text.len() > 60 {
                    text.take(60)
                } else {
                    text
                },
            })
            &&& p.project@ == proj
            &&& p.content_session_id@ == "manual:"@ + proj
            &&& p.memory_session_id@ == "manual-memory:"@ + proj
        }),
{
    let c = chars_of(cleaned_text);
    let t = trim_chars(c.as_slice());
    if t.len() == 0 {
        return Err(ApiError::bad_request("text is required and must be non-empty".to_owned()));
    }
    let project = match project {
        Some(p) => p,
        None => "manual".to_owned(),
    };
    let title = match title {
        Some(t) => t,
        None => {
            if t.len() > 60 {
                let head = crate::text::copy_range(t.as_slice(), 0, 60);
                assert(head@ =~= t@.take(60));
                string_from_chars(head.as_slice())
            } else {
                string_from_chars(t.as_slice())
            }
        },
    };
    let mut content = chars_of("manual:");
    push_str(&mut content, project.as_str());
    let mut memory = chars_of("manual-memory:");
    push_str(&mut memory, project.as_str());
    Ok(
        MemorySavePlan {
            text: string_from_chars(t.as_slice()),
            title,
            project,
            content_session_id: string_from_chars(content.as_slice()),
            memory_session_id: string_from_chars(memory.as_slice()),
        },
    )
}

/// The observation a manual memory is stored as: a discovery with the memory's title and
/// text, marked as manual.
pub fn manual_observation(plan: &MemorySavePlan, created_at: String, created_at_epoch: i64) -> (r:
    ObservationInput)
    ensures
        r.observation_type@ == "discovery"@,
        r.title matches Some(t) && t@ == plan.title@,
        r.subtitle matches Some(s) && s@ == "Manual memory"@,
        r.narrative matches Some(n) && n@ == plan.text@,
        r.generated_by_model matches Some(m) && m@ == "manual"@,
        r.memory_session_id@.len() == 0,
        r.project@.len() == 0,
        r.facts is None,
        r.concepts is None,
        r.files_read is None,
        r.files_modified is None,
        r.created_at == created_at,
        r.created_at_epoch == created_at_epoch,
{
    ObservationInput {
        memory_session_id: String::new(),
        project: String::new(),
        observation_type: "discovery".to_owned(),
        title: Some(plan.title.clone()),
        subtitle: Some("Manual memory".to_owned()),
        facts: None,
        narrative: Some(plan.text.clone()),
        concepts: None,
        files_read: None,
        files_modified: None,
        created_at,
        created_at_epoch,
        generated_by_model: Some("manual".to_owned()),
    }
}

/// `Memory saved as observation #id`.
pub fn memory_saved_message(id: i64) -> (r: String)
    ensures
        r@ == "Memory saved as observation #"@ + int_text(id as int),
{
    let mut v = chars_of("Memory saved as observation #");
    crate::text::push_i64_text(&mut v, id);
    string_from_chars(v.as_slice())
}

/// The query text of a search request: its `query` argument, else `q`, else nothing.
pub fn search_query_text(query: &HashMap<String, String>) -> (r: String)
    ensures
        r@ == (match arg_either(query@, "query"@, "q"@) {
            Some(v) => v,
            None => Seq::<char>::empty(),
        }),
{
    match get_arg_either(query, "query", "q") {
        Some(v) => v.clone(),
        None => String::new(),
    }
}

/// Whether a search asks for its results as text.
pub fn wants_text_format(query: &HashMap<String, String>) -> (r: bool)
    ensures
        r == (arg_value(query@, "format"@) == Some("text"@)),
{
    match get_arg(query, "format") {
        Some(f) => {
            let c = chars_of(f.as_str());
            chars_eq_str(c.as_slice(), "text")
        },
        None => false,
    }
}

/// The strategy a search reports.
pub fn search_strategy_label(used_qdrant: bool) -> (r: &'static str)
    ensures
        r@ == (if used_qdrant {
            "qdrant"@
        } else {
            "sqlite"@
        }),
{
    if used_qdrant {
        "qdrant"
    } else {
        "sqlite"
    }
}

/// Whether a search used the vector store and whether it fell back from it: it is used when
/// it should be, is configured, and answers; it falls back when it should be used but is
/// missing or fails.
pub fn vector_search_outcome(should_use: bool, configured: bool, answered: bool) -> (r: (bool, bool))
    ensures
        r.0 == (should_use && configured && answered),
        r.1 == (should_use && !(configured && answered)),
{
    if !should_use {
        (false, false)
    } else if configured && answered {
        (true, false)
    } else {
        (false, true)
    }
}

/// The session summaries among `rows` that pass a search's filters, in order.
pub open spec fn matching_sessions(rows: Seq<SessionSummaryRow>, o: StrategySearchOptions) -> Seq<
    SessionSummaryRow,
>
    decreases rows.len(),
{
    if rows.len() == 0 {
        seq![]
    } else {
        let rest = matching_sessions(rows.drop_last(), o);
        if summary_matches(rows.last(), o) {
            rest.push(rows.last())
        } else {
            rest
        }
    }
}

/// The session summaries of a vector search that pass its filters, the first `limit` of
/// them.
pub fn select_sessions(rows: Vec<SessionSummaryRow>, options: &StrategySearchOptions, limit: usize) -> (r: Vec<
    SessionSummaryRow,
>)
    ensures
        r@ == (if matching_sessions(rows@, *options).len() > limit {
            matching_sessions(rows@, *options).take(limit as int)
        } else {
            matching_sessions(rows@, *options)
        }),
{
    let ghost orig = rows@;
    let mut rest = rows;
    let mut out: Vec<SessionSummaryRow> = Vec::new();
    let ghost mut k: int = 0;
    while rest.len() > 0
        invariant
            0 <= k <= orig.len(),
            rest@ == orig.skip(k),
            out@ == matching_sessions(orig.take(k), *options),
        decreases rest.len(),
    {
        let row = rest.remove(0);
        assert(row == orig[k]);
        proof {
            assert(orig.take(k + 1).drop_last() =~= orig.take(k));
            assert(orig.take(k + 1).last() == orig[k]);
        }
        if summary_matches_options(&row, options) {
            out.push(row);
        }
        proof {
            k = k + 1;
            assert(rest@ =~= orig.skip(k));
        }
    }
    assert(orig.take(k) =~= orig);
    if out.len() > limit {
        out.truncate(limit);
    }
    out
}

pub open spec fn missing_projects_message() -> Seq<char> {
    "Project(s) parameter is required"@
}

/// The projects a context request names in `projects` (or `project`), comma separated; a
/// request naming none is refused.
pub fn context_projects(query: &HashMap<String, String>) -> (r: Result<Vec<String>, ApiError>)
    ensures
        match arg_either(query@, "projects"@, "project"@) {
            Some(v) => r matches Ok(ps) && strs_view(ps@) == csv_items(Some(v)),
            None => r matches Err(e) && e.status == 400 && e.message@ == missing_projects_message(),
        },
{
    match get_arg_either(query, "projects", "project") {
        Some(v) => Ok(split_csv(Some(v))),
        None => Err(ApiError::bad_request("Project(s) parameter is required".to_owned())),
    }
}

/// The sections of a context answer, one per project, separated by blank lines.
pub fn join_context_sections(sections: &Vec<String>) -> (r: String)
    ensures
        r@ == join(strs_view(sections@), "\n\n"@),
{
    join_strings(sections, "\n\n")
}

/// The anchor a timeline request names: its `anchor` argument, when it is an integer.
pub fn timeline_anchor(query: &HashMap<String, String>) -> (r: Option<i64>)
    ensures
        opt_i64_view(r) == (match arg_value(query@, "anchor"@) {
            Some(v) => parse_signed(v, i64::MIN as int, i64::MAX as int),
            None => None,
        }),
{
    match get_arg(query, "anchor") {
        Some(v) => parse_i64(v.as_str()),
        None => None,
    }
}

/// A timeline anchor found by a query: the first matching observation; a request with
/// neither an anchor nor a query, or a query that matches nothing, is refused.
pub fn timeline_anchor_from_search(query_given: bool, first_match: Option<i64>) -> (r: Result<i64, ApiError>)
    ensures
        !query_given ==> (r matches Err(e) && e.status == 400 && e.message@ == "anchor or query is required"@),
        query_given ==> match first_match {
            Some(id) => r == Ok::<i64, ApiError>(id),
            None => r matches Err(e) && e.status == 400 && e.message@
                == "query did not match an anchor observation"@,
        },
{
    if !query_given {
        return Err(ApiError::bad_request("anchor or query is required".to_owned()));
    }
    match first_match {
        Some(id) => Ok(id),
        None => Err(ApiError::bad_request("query did not match an anchor observation".to_owned())),
    }
}

/// A timeline anchor must exist and, when the request names a project, belong to it.
pub fn check_timeline_anchor(anchor_project: Option<&str>, requested_project: Option<&str>) -> (r: Result<
    (),
    ApiError,
>)
    ensures
        anchor_project is None ==> (r matches Err(e) && e.status == 400 && e.message@
            == "anchor observation was not found"@),
        anchor_project is Some ==> match requested_project {
            Some(p) => if anchor_project->0@ == p@ {
                r is Ok
            } else {
                r matches Err(e) && e.status == 400 && e.message@
                    == "anchor observation does not belong to requested project"@
            },
            None => r is Ok,
        },
{
    match anchor_project {
        None => Err(ApiError::bad_request("anchor observation was not found".to_owned())),
        Some(a) => match requested_project {
            Some(p) => {
                let x = chars_of(a);
                let y = chars_of(p);
                if crate::text::chars_eq(x.as_slice(), y.as_slice()) {
                    Ok(())
                } else {
                    Err(
                        ApiError::bad_request(
                            "anchor observation does not belong to requested project".to_owned(),
                        ),
                    )
                }
            },
            None => Ok(()),
        },
    }
}

/// The ids of a timeline: the observations before the anchor (found newest first) in time
/// order, the anchor, then the observations after it.
pub fn timeline_ids(before_newest_first: Vec<i64>, anchor: i64, after: Vec<i64>) -> (r: Vec<i64>)
    ensures
        r@ == before_newest_first@.reverse().push(anchor) + after@,
{
    let mut ids: Vec<i64> = Vec::new();
    let mut i = before_newest_first.len();
    while i > 0
        invariant
            i <= before_newest_first@.len(),
            ids@ == before_newest_first@.skip(i as int).reverse(),
        decreases i,
    {
        i = i - 1;
        ids.push(before_newest_first[i]);
        assert(ids@ =~= before_newest_first@.skip(i as int).reverse());
    }
    assert(before_newest_first@.skip(0) =~= before_newest_first@);
    ids.push(anchor);
    let mut j: usize = 0;
    let ghost head = ids@;
    while j < after.len()
        invariant
            j <= after@.len(),
            ids@ == head + after@.take(j as int),
        decreases after.len() - j,
    {
        ids.push(after[j]);
        j = j + 1;
        assert(ids@ =~= head + after@.take(j as int));
    }
    assert(after@.take(after@.len() as int) =~= after@);
    ids
}

} // verus!
