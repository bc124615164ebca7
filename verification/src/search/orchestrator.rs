//! Search orchestration: turning URL-style arguments into search options.
use std::collections::HashMap;

use vstd::prelude::*;

use crate::datetime::{parse_rfc3339_timestamp, rfc3339_timestamp};
use crate::search::result_formatter::{
    read_sizes_bounded, search_results_text, total_results, ResultFormatter, SearchResults,
};
use crate::search::strategies::{
    DateRange, OrderBy, SearchStrategyHint, SearchType, SqliteSearchStrategy,
    StrategySearchOptions,
};
use crate::text::{
    chars_eq_str, chars_of, comma_sep, nonblank_trimmed, nonblank_trimmed_chars, parse_i64,
    parse_signed, split_by, split_chars, strings_from_char_vecs, strs_view, trim, trim_bounds,
};

verus! {

broadcast use vstd::string::group_string_axioms;

/// The value stored under the key whose text is `key`, if any.
pub open spec fn arg_value(m: Map<String, String>, key: Seq<char>) -> Option<Seq<char>> {
    if exists|k: String| m.contains_key(k) && k@ == key {
        Some(m[choose|k: String| m.contains_key(k) && k@ == key]@)
    } else {
        None
    }
}

/// The value under `k1`, else the one under `k2`.
pub open spec fn arg_either(m: Map<String, String>, k1: Seq<char>, k2: Seq<char>) -> Option<
    Seq<char>,
> {
    match arg_value(m, k1) {
        Some(v) => Some(v),
        None => arg_value(m, k2),
    }
}

/// The value of `args` under `key`.
///
/// Trusted: calls `HashMap::get`. A map's keys are distinct strings, so at most one key has
/// the text `key`, and `get` finds it, as `String`'s `Borrow<str>` guarantees.
#[verifier::external_body]
pub(crate) fn get_arg<'a>(args: &'a HashMap<String, String>, key: &str) -> (r: Option<&'a String>)
    ensures
        match r {
            Some(v) => arg_value(args@, key@) == Some(v@),
            None => arg_value(args@, key@) is None,
        },
{
    args.get(key)
}

pub fn get_arg_either<'a>(args: &'a HashMap<String, String>, k1: &str, k2: &str) -> (r: Option<
    &'a String,
>)
    ensures
        match r {
            Some(v) => arg_either(args@, k1@, k2@) == Some(v@),
            None => arg_either(args@, k1@, k2@) is None,
        },
{
    match get_arg(args, k1) {
        Some(v) => Some(v),
        None => get_arg(args, k2),
    }
}

/// The trimmed, non-blank comma-separated items of an optional value.
pub open spec fn csv_items(v: Option<Seq<char>>) -> Seq<Seq<char>> {
    match v {
        None => seq![],
        Some(s) => nonblank_trimmed(split_by(s, comma_sep())),
    }
}

/// The items of a comma-separated argument are non-empty, have no whitespace at either end,
/// and hold no comma.
pub proof fn lemma_csv_items(v: Option<Seq<char>>)
    ensures
        forall|i: int| 0 <= i < csv_items(v).len() ==> {
            &&& (#[trigger] csv_items(v)[i]).len() > 0
            &&& !crate::text::is_ws(csv_items(v)[i][0])
            &&& !crate::text::is_ws(csv_items(v)[i].last())
            &&& !csv_items(v)[i].contains(',')
        },
{
    if let Some(s) = v {
        let pieces = split_by(s, comma_sep());
        crate::text::lemma_nonblank_trimmed(pieces);
        crate::text::lemma_split_by_pieces(s, comma_sep());
        let items = csv_items(v);
        assert forall|i: int| 0 <= i < items.len() implies !items[i].contains(',') by {
            let k = choose|k: int| 0 <= k < pieces.len() && items[i] == trim(pieces[k]);
            crate::text::lemma_trim_within(pieces[k]);
            if pieces[k].contains(',') {
                let j = choose|j: int| 0 <= j < pieces[k].len() && pieces[k][j] == ',';
                assert(!(comma_sep())(pieces[k][j]));
            }
        }
    }
}

/// The trimmed, non-blank comma-separated items of `value`.
pub fn split_csv(value: Option<&String>) -> (r: Vec<String>)
    ensures
        strs_view(r@) == csv_items(
            match value {
                Some(v) => Some(v@),
                None => None,
            },
        ),
{
    match value {
        None => {
            let r: Vec<String> = Vec::new();
            assert(strs_view(r@) =~= Seq::<Seq<char>>::empty());
            r
        },
        Some(v) => {
            let c = chars_of(v.as_str());
            let pieces = split_chars(c.as_slice(), crate::text::Separator::Comma);
            let items = nonblank_trimmed_chars(&pieces);
            strings_from_char_vecs(&items)
        },
    }
}

/// A time argument in milliseconds: an integer as given, or an RFC 3339 date-time.
pub open spec fn epoch_of(v: Seq<char>) -> Option<int> {
    match parse_signed(v, i64::MIN as int, i64::MAX as int) {
        Some(n) => Some(n),
        None => match rfc3339_timestamp(v) {
            Some(t) => Some(t * 1000),
            None => None,
        },
    }
}

pub fn parse_epoch(value: &str) -> (r: Option<i64>)
    ensures
        match r {
            Some(v) => epoch_of(value@) == Some(v as int),
            None => epoch_of(value@) is None,
        },
{
    match parse_i64(value) {
        Some(n) => Some(n),
        None => match parse_rfc3339_timestamp(value) {
            Some(t) => Some(t * 1000),
            None => None,
        },
    }
}

pub open spec fn opt_epoch(v: Option<Seq<char>>) -> Option<int> {
    match v {
        Some(s) => epoch_of(s),
        None => None,
    }
}

pub open spec fn opt_i64_view(o: Option<i64>) -> Option<int> {
    match o {
        Some(x) => Some(x as int),
        None => None,
    }
}

/// The date range of the arguments `dateStart` (or `start`) and `dateEnd` (or `end`):
/// present when either bound parses.
pub open spec fn date_range_is(r: Option<DateRange>, m: Map<String, String>) -> bool {
    let start = opt_epoch(arg_either(m, "dateStart"@, "start"@));
    let end = opt_epoch(arg_either(m, "dateEnd"@, "end"@));
    match r {
        None => start is None && end is None,
        Some(d) => (start is Some || end is Some) && opt_i64_view(d.start_epoch) == start
            && opt_i64_view(d.end_epoch) == end,
    }
}

fn opt_parse_epoch(v: Option<&String>) -> (r: Option<i64>)
    ensures
        opt_i64_view(r) == opt_epoch(
            match v {
                Some(s) => Some(s@),
                None => None,
            },
        ),
{
    match v {
        Some(s) => parse_epoch(s.as_str()),
        None => None,
    }
}

pub fn parse_date_range(args: &HashMap<String, String>) -> (r: Option<DateRange>)
    ensures
        date_range_is(r, args@),
{
    let start = opt_parse_epoch(get_arg_either(args, "dateStart", "start"));
    let end = opt_parse_epoch(get_arg_either(args, "dateEnd", "end"));
    if start.is_some() || end.is_some() {
        Some(DateRange { start_epoch: start, end_epoch: end })
    } else {
        None
    }
}

/// The result kinds the `type` (or `searchType`) argument selects.
pub open spec fn search_type_of(v: Option<Seq<char>>) -> SearchType {
    match v {
        None => SearchType::All,
        Some(s) => if s == "observations"@ || s == "observation"@ {
            SearchType::Observations
        } else if s == "sessions"@ || s == "session"@ {
            SearchType::Sessions
        } else if s == "prompts"@ || s == "prompt"@ {
            SearchType::Prompts
        } else {
            SearchType::All
        },
    }
}

/// The `type` argument's words: `observations` or `observation` selects observations only,
/// `sessions` or `session` session summaries only, `prompts` or `prompt` user prompts only;
/// any other value, or none, searches everything.
pub proof fn law_search_type_words(s: Seq<char>)
    ensures
        search_type_of(Some("observations"@)) == SearchType::Observations,
        search_type_of(Some("observation"@)) == SearchType::Observations,
        search_type_of(Some("sessions"@)) == SearchType::Sessions,
        search_type_of(Some("session"@)) == SearchType::Sessions,
        search_type_of(Some("prompts"@)) == SearchType::Prompts,
        search_type_of(Some("prompt"@)) == SearchType::Prompts,
        search_type_of(None) == SearchType::All,
        (search_type_of(Some(s)) == SearchType::Observations) == (s == "observations"@ || s == "observation"@),
        (search_type_of(Some(s)) == SearchType::Sessions) == (s == "sessions"@ || s == "session"@),
        (search_type_of(Some(s)) == SearchType::Prompts) == (s == "prompts"@ || s == "prompt"@),
        (search_type_of(Some(s)) == SearchType::All) == !(s == "observations"@ || s == "observation"@
            || s == "sessions"@ || s == "session"@ || s == "prompts"@ || s == "prompt"@),
{
    reveal_strlit("observations");
    reveal_strlit("observation");
    reveal_strlit("sessions");
    reveal_strlit("session");
    reveal_strlit("prompts");
    reveal_strlit("prompt");
    assert("observations"@[0] == 'o' && "observation"@[0] == 'o');
    assert("sessions"@[0] == 's' && "session"@[0] == 's');
    assert("prompts"@[0] == 'p' && "prompt"@[0] == 'p');
}

/// The search options take their result kinds from the `type` argument, or `searchType`
/// where `type` is absent: `type=sessions` searches session summaries only.
pub proof fn law_search_options_type(o: StrategySearchOptions, m: Map<String, String>, s: Seq<char>)
    requires
        filter_options_are(o, m),
        arg_either(m, "type"@, "searchType"@) == Some(s),
    ensures
        (o.search_type == SearchType::Sessions) == (s == "sessions"@ || s == "session"@),
        (o.search_type == SearchType::Observations) == (s == "observations"@ || s == "observation"@),
        (o.search_type == SearchType::Prompts) == (s == "prompts"@ || s == "prompt"@),
{
    law_search_type_words(s);
}

pub fn search_type_from(v: Option<&String>) -> (r: SearchType)
    ensures
        r == search_type_of(
            match v {
                Some(s) => Some(s@),
                None => None,
            },
        ),
{
    match v {
        None => SearchType::All,
        Some(s) => {
            let c = chars_of(s.as_str());
            let c = c.as_slice();
            if chars_eq_str(c, "observations") || chars_eq_str(c, "observation") {
                SearchType::Observations
            } else if chars_eq_str(c, "sessions") || chars_eq_str(c, "session") {
                SearchType::Sessions
            } else if chars_eq_str(c, "prompts") || chars_eq_str(c, "prompt") {
                SearchType::Prompts
            } else {
                SearchType::All
            }
        },
    }
}

pub open spec fn order_by_of(v: Option<Seq<char>>) -> OrderBy {
    match v {
        Some(s) if s == "date_asc"@ => OrderBy::DateAsc,
        Some(s) if s == "relevance"@ => OrderBy::Relevance,
        _ => OrderBy::DateDesc,
    }
}

pub fn order_by_from(v: Option<&String>) -> (r: OrderBy)
    ensures
        r == order_by_of(
            match v {
                Some(s) => Some(s@),
                None => None,
            },
        ),
{
    match v {
        Some(s) => {
            let c = chars_of(s.as_str());
            if chars_eq_str(c.as_slice(), "date_asc") {
                OrderBy::DateAsc
            } else if chars_eq_str(c.as_slice(), "relevance") {
                OrderBy::Relevance
            } else {
                OrderBy::DateDesc
            }
        },
        None => OrderBy::DateDesc,
    }
}

pub open spec fn strategy_hint_of(v: Option<Seq<char>>) -> Option<SearchStrategyHint> {
    match v {
        Some(s) if s == "sqlite"@ => Some(SearchStrategyHint::Sqlite),
        Some(s) if s == "chroma"@ => Some(SearchStrategyHint::Chroma),
        Some(s) if s == "qdrant"@ => Some(SearchStrategyHint::Qdrant),
        Some(s) if s == "hybrid"@ => Some(SearchStrategyHint::Hybrid),
        Some(s) if s == "auto"@ => Some(SearchStrategyHint::Auto),
        _ => None,
    }
}

pub fn strategy_hint_from(v: Option<&String>) -> (r: Option<SearchStrategyHint>)
    ensures
        r == strategy_hint_of(
            match v {
                Some(s) => Some(s@),
                None => None,
            },
        ),
{
    match v {
        Some(s) => {
            let c = chars_of(s.as_str());
            let c = c.as_slice();
            if chars_eq_str(c, "sqlite") {
                Some(SearchStrategyHint::Sqlite)
            } else if chars_eq_str(c, "chroma") {
                Some(SearchStrategyHint::Chroma)
            } else if chars_eq_str(c, "qdrant") {
                Some(SearchStrategyHint::Qdrant)
            } else if chars_eq_str(c, "hybrid") {
                Some(SearchStrategyHint::Hybrid)
            } else if chars_eq_str(c, "auto") {
                Some(SearchStrategyHint::Auto)
            } else {
                None
            }
        },
        None => None,
    }
}

/// The `orderBy` argument's words: `date_asc` sorts oldest first, `relevance` by relevance,
/// and any other value, or none, newest first.
pub proof fn law_order_by_words(s: Seq<char>)
    ensures
        (order_by_of(Some(s)) == OrderBy::DateAsc) == (s == "date_asc"@),
        (order_by_of(Some(s)) == OrderBy::Relevance) == (s == "relevance"@),
        (order_by_of(Some(s)) == OrderBy::DateDesc) == !(s == "date_asc"@ || s == "relevance"@),
        order_by_of(None) == OrderBy::DateDesc,
{
    reveal_strlit("date_asc");
    reveal_strlit("relevance");
    assert("date_asc"@[0] != "relevance"@[0]);
}

/// The `strategy` argument's words: `sqlite`, `chroma`, `qdrant`, `hybrid` and `auto` each
/// name their strategy; any other value, or none, names none.
pub proof fn law_strategy_hint_words(s: Seq<char>)
    ensures
        (strategy_hint_of(Some(s)) == Some(SearchStrategyHint::Sqlite)) == (s == "sqlite"@),
        (strategy_hint_of(Some(s)) == Some(SearchStrategyHint::Chroma)) == (s == "chroma"@),
        (strategy_hint_of(Some(s)) == Some(SearchStrategyHint::Qdrant)) == (s == "qdrant"@),
        (strategy_hint_of(Some(s)) == Some(SearchStrategyHint::Hybrid)) == (s == "hybrid"@),
        (strategy_hint_of(Some(s)) == Some(SearchStrategyHint::Auto)) == (s == "auto"@),
        (strategy_hint_of(Some(s)) is None) == !(s == "sqlite"@ || s == "chroma"@ || s == "qdrant"@ || s
            == "hybrid"@ || s == "auto"@),
        strategy_hint_of(None) is None,
{
    reveal_strlit("sqlite");
    reveal_strlit("chroma");
    reveal_strlit("qdrant");
    reveal_strlit("hybrid");
    reveal_strlit("auto");
    assert("sqlite"@[0] == 's' && "chroma"@[0] == 'c' && "qdrant"@[0] == 'q' && "hybrid"@[0] == 'h'
        && "auto"@[0] == 'a');
}

/// A positive limit argument, capped at 100.
pub open spec fn limit_arg(v: Option<Seq<char>>) -> Option<int> {
    match v {
        Some(s) => match parse_signed(s, i64::MIN as int, i64::MAX as int) {
            Some(n) if n > 0 => Some(if n < 100 { n } else { 100 }),
            _ => None,
        },
        None => None,
    }
}

/// A non-negative offset argument.
pub open spec fn offset_arg(v: Option<Seq<char>>) -> Option<int> {
    match v {
        Some(s) => match parse_signed(s, i64::MIN as int, i64::MAX as int) {
            Some(n) if n >= 0 => Some(n),
            _ => None,
        },
        None => None,
    }
}

pub fn offset_from(v: Option<&String>) -> (r: Option<i64>)
    ensures
        opt_i64_view(r) == offset_arg(
            match v {
                Some(s) => Some(s@),
                None => None,
            },
        ),
{
    match v {
        Some(s) => match parse_i64(s.as_str()) {
            Some(n) => if n >= 0 {
                Some(n)
            } else {
                None
            },
            None => None,
        },
        None => None,
    }
}

/// The options that the arguments `m` describe, but for the query text and the limit.
pub open spec fn filter_options_are(o: StrategySearchOptions, m: Map<String, String>) -> bool {
    &&& o.search_type == search_type_of(arg_either(m, "type"@, "searchType"@))
    &&& strs_view(o.obs_type@) == csv_items(arg_either(m, "obs_type"@, "obsType"@))
    &&& strs_view(o.concepts@) == csv_items(arg_value(m, "concepts"@))
    &&& strs_view(o.files@) == csv_items(arg_value(m, "files"@))
    &&& crate::text::opt_view(o.project) == arg_value(m, "project"@)
    &&& date_range_is(o.date_range, m)
    &&& opt_i64_view(o.offset) == offset_arg(arg_value(m, "offset"@))
    &&& o.order_by == order_by_of(arg_value(m, "orderBy"@))
    &&& o.strategy_hint == strategy_hint_of(arg_value(m, "strategy"@))
}

/// The query text argument (`query`, or `q`), unless blank.
pub open spec fn query_arg(m: Map<String, String>) -> Option<Seq<char>> {
    match arg_either(m, "query"@, "q"@) {
        Some(v) if trim(v).len() > 0 => Some(v),
        _ => None,
    }
}

/// The options that URL-style search arguments describe.
pub open spec fn normalized_options_are(o: StrategySearchOptions, m: Map<String, String>) -> bool {
    &&& filter_options_are(o, m)
    &&& crate::text::opt_view(o.query) == query_arg(m)
    &&& opt_i64_view(o.limit) == limit_arg(arg_value(m, "limit"@))
}

/// The options built from the arguments `args`, taking `query` and `limit` as given.
pub fn options_from_args(
    args: &HashMap<String, String>,
    query: Option<String>,
    limit: Option<i64>,
) -> (r: StrategySearchOptions)
    ensures
        filter_options_are(r, args@),
        r.query == query,
        r.limit == limit,
{
    let project = match get_arg(args, "project") {
        Some(p) => Some(p.clone()),
        None => None,
    };
    StrategySearchOptions {
        query,
        search_type: search_type_from(get_arg_either(args, "type", "searchType")),
        obs_type: split_csv(get_arg_either(args, "obs_type", "obsType")),
        concepts: split_csv(get_arg(args, "concepts")),
        files: split_csv(get_arg(args, "files")),
        project,
        date_range: parse_date_range(args),
        limit,
        offset: offset_from(get_arg(args, "offset")),
        order_by: order_by_from(get_arg(args, "orderBy")),
        strategy_hint: strategy_hint_from(get_arg(args, "strategy")),
    }
}

#[derive(Debug, Clone, Default)]
pub struct SearchOrchestrator {
    pub sqlite_strategy: SqliteSearchStrategy,
    pub result_formatter: ResultFormatter,
    pub chroma_available: bool,
}

impl SearchOrchestrator {
    pub fn new() -> (r: Self)
        ensures
            !r.chroma_available,
    {
        Self {
            sqlite_strategy: SqliteSearchStrategy::new(),
            result_formatter: ResultFormatter::new(),
            chroma_available: false,
        }
    }

    pub fn with_chroma_available(chroma_available: bool) -> (r: Self)
        ensures
            r.chroma_available == chroma_available,
    {
        Self {
            sqlite_strategy: SqliteSearchStrategy::new(),
            result_formatter: ResultFormatter::new(),
            chroma_available,
        }
    }

    /// The search options that URL-style arguments describe.
    pub fn search_options(&self, args: &HashMap<String, String>) -> (r: StrategySearchOptions)
        ensures
            normalized_options_are(r, args@),
    {
        self.normalize_params(args)
    }

    /// The markdown listing of search results, as the result formatter writes it.
    pub fn format_search_results(&self, results: &SearchResults, query: &str, chroma_failed: bool) -> (r:
        String)
        requires
            total_results(*results) <= usize::MAX,
            read_sizes_bounded(*results),
        ensures
            r@ == search_results_text(*results, query@, chroma_failed),
    {
        self.result_formatter.format_search_results(results, query, chroma_failed)
    }

    pub fn get_formatter(&self) -> (r: ResultFormatter) {
        self.result_formatter
    }

    pub fn is_chroma_available(&self) -> (r: bool)
        ensures
            r == self.chroma_available,
    {
        self.chroma_available
    }

    /// The search options that URL-style arguments describe: the query (`query` or `q`,
    /// unless blank), the result kinds, the kind, concept and file filters, the project,
    /// the date range, a positive limit capped at 100, a non-negative offset, the order
    /// and the strategy hint.
    pub fn normalize_params(&self, args: &HashMap<String, String>) -> (r: StrategySearchOptions)
        ensures
            normalized_options_are(r, args@),
    {
        let query = match get_arg_either(args, "query", "q") {
            Some(v) => {
                let c = chars_of(v.as_str());
                let (a, b) = trim_bounds(c.as_slice(), 0, c.len());
                assert(c@.subrange(0, c@.len() as int) =~= c@);
                if a < b {
                    Some(v.clone())
                } else {
                    None
                }
            },
            None => None,
        };
        let limit = match get_arg(args, "limit") {
            Some(l) => match parse_i64(l.as_str()) {
                Some(n) => if n > 0 {
                    Some(if n < 100 {
                        n
                    } else {
                        100
                    })
                } else {
                    None
                },
                None => None,
            },
            None => None,
        };
        options_from_args(args, query, limit)
    }
}

} // verus!
