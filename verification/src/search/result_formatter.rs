//! Markdown rendering of search results.
use vstd::prelude::*;

use crate::datetime::{civil_date, two_digits, utc_from_unix_timestamp, UtcDateTime};
use crate::model::{ObservationRow, SessionSummaryRow, UserPromptRow};
use crate::text::{
    clone_opt_string, chars_of, copy_range, digit_char, int_text, nat_text, push_chars, push_i64_text, push_str,
    push_u64_text, string_from_chars,
};

verus! {

broadcast use vstd::string::group_string_axioms;

#[derive(Debug, Clone, Copy, Default)]
pub struct ResultFormatter;

#[derive(Debug, Clone, PartialEq, Eq)]
pub struct FormattedRow {
    pub row: String,
    pub time: String,
}

/// Milliseconds since the epoch, as whole seconds rounded down.
pub open spec fn epoch_seconds(epoch_ms: int) -> int {
    epoch_ms / 1000
}

pub fn epoch_ms_to_seconds(epoch_ms: i64) -> (r: i64)
    ensures
        r == epoch_seconds(epoch_ms as int),
{
    if epoch_ms >= 0 {
        epoch_ms / 1000
    } else {
        let m = -(epoch_ms + 1);
        assert(epoch_ms as int / 1000 == -(m as int / 1000) - 1) by (nonlinear_arith)
            requires
                m == -(epoch_ms + 1),
                m >= 0,
        ;
        -(m / 1000) - 1
    }
}

/// The UTC hour and minute of a time, or midnight outside the supported years.
pub open spec fn hour_minute(epoch_ms: int) -> (int, int) {
    let ts = epoch_seconds(epoch_ms);
    if crate::datetime::min_timestamp() <= ts <= crate::datetime::max_timestamp() {
        let secs = ts % 86400;
        (secs / 3600, (secs % 3600) / 60)
    } else {
        (0, 0)
    }
}

/// `h:mm AM` / `h:mm PM` on a 12-hour clock.
pub open spec fn clock_text(hour: int, minute: int) -> Seq<char> {
    let h12 = if hour % 12 == 0 {
        12
    } else {
        hour % 12
    };
    nat_text(h12 as nat) + seq![':'] + two_digits(minute) + (if hour >= 12 {
        " PM"@
    } else {
        " AM"@
    })
}

/// The UTC time of day of a millisecond timestamp, as `h:mm AM`.
pub open spec fn time_text(epoch_ms: int) -> Seq<char> {
    clock_text(hour_minute(epoch_ms).0, hour_minute(epoch_ms).1)
}

pub open spec fn month_abbrev(m: int) -> Seq<char> {
    if m == 1 {
        "Jan"@
    } else if m == 2 {
        "Feb"@
    } else if m == 3 {
        "Mar"@
    } else if m == 4 {
        "Apr"@
    } else if m == 5 {
        "May"@
    } else if m == 6 {
        "Jun"@
    } else if m == 7 {
        "Jul"@
    } else if m == 8 {
        "Aug"@
    } else if m == 9 {
        "Sep"@
    } else if m == 10 {
        "Oct"@
    } else if m == 11 {
        "Nov"@
    } else {
        "Dec"@
    }
}

/// The UTC calendar date of a millisecond timestamp, as `Jan 2, 2025`; 1970-01-01 outside
/// the supported years.
pub open spec fn date_text(epoch_ms: int) -> Seq<char> {
    let ts = epoch_seconds(epoch_ms);
    let (y, m, d) = if crate::datetime::min_timestamp() <= ts <= crate::datetime::max_timestamp() {
        civil_date(ts / 86400)
    } else {
        (1970, 1, 1)
    };
    month_abbrev(m) + seq![' '] + nat_text(d as nat) + ", "@ + int_text(y)
}

fn utc_or_epoch(epoch_ms: i64) -> (r: UtcDateTime)
    ensures
        ({
            let ts = epoch_seconds(epoch_ms as int);
            if crate::datetime::min_timestamp() <= ts <= crate::datetime::max_timestamp() {
                crate::datetime::utc_date_time_is(r, ts)
            } else {
                r == UtcDateTime { year: 1970, month: 1, day: 1, hour: 0, minute: 0, second: 0 }
            }
        }),
{
    match utc_from_unix_timestamp(epoch_ms_to_seconds(epoch_ms)) {
        Some(d) => d,
        None => UtcDateTime { year: 1970, month: 1, day: 1, hour: 0, minute: 0, second: 0 },
    }
}

pub fn push_two_digits(out: &mut Vec<char>, n: u8)
    requires
        n < 100,
    ensures
        final(out)@ == old(out)@ + two_digits(n as int),
{
    out.push(crate::text::digit((n / 10) as u64));
    out.push(crate::text::digit((n % 10) as u64));
}

/// The time of day on a 12-hour clock: the hour and minute are those of the UTC day, the
/// text ends in ` PM` exactly when the time falls in the second half of its UTC day (from
/// noon on) and in ` AM` before noon; outside the supported years it reads `12:00 AM`.
pub proof fn law_time_text_half_day(epoch_ms: int)
    ensures
        0 <= hour_minute(epoch_ms).0 < 24,
        0 <= hour_minute(epoch_ms).1 < 60,
        ({
            let t = time_text(epoch_ms);
            let ts = epoch_seconds(epoch_ms);
            &&& t.len() >= 3
            &&& crate::datetime::min_timestamp() <= ts <= crate::datetime::max_timestamp() ==> t.subrange(
                t.len() - 3,
                t.len() as int,
            ) == (if ts % 86400 >= 43200 {
                " PM"@
            } else {
                " AM"@
            })
        }),
        !(crate::datetime::min_timestamp() <= epoch_seconds(epoch_ms) <= crate::datetime::max_timestamp())
            ==> time_text(epoch_ms) == "12:00 AM"@,
{
    reveal_strlit(" PM");
    reveal_strlit(" AM");
    reveal_strlit("12:00 AM");
    let (h, m) = hour_minute(epoch_ms);
    let h12 = if h % 12 == 0 {
        12
    } else {
        h % 12
    };
    let suffix = if h >= 12 {
        " PM"@
    } else {
        " AM"@
    };
    let head = nat_text(h12 as nat) + seq![':'] + two_digits(m);
    let t = time_text(epoch_ms);
    assert(t == head + suffix);
    assert(t.subrange(t.len() - 3, t.len() as int) =~= suffix);
    let ts = epoch_seconds(epoch_ms);
    if crate::datetime::min_timestamp() <= ts <= crate::datetime::max_timestamp() {
        let secs = ts % 86400;
        assert(0 <= secs < 86400);
        assert((secs / 3600 >= 12) == (secs >= 43200));
    } else {
        assert(nat_text(12) =~= seq!['1', '2']) by {
            assert(nat_text(1) =~= seq!['1']);
        }
        assert(t =~= "12:00 AM"@);
    }
}

/// A timestamp at noon UTC reads `12:00 PM`.
pub proof fn law_time_text_noon()
    ensures
        time_text(1735732800000) == "12:00 PM"@,
{
    reveal_strlit(" PM");
    reveal_strlit("12:00 PM");
    assert(hour_minute(1735732800000) == (12int, 0int));
    assert(nat_text(12) =~= seq!['1', '2']) by {
        assert(nat_text(1) =~= seq!['1']);
    }
    assert(time_text(1735732800000) =~= "12:00 PM"@);
}

/// The UTC time of day of a millisecond timestamp, as `h:mm AM`.
pub fn format_time(epoch_ms: i64) -> (r: String)
    ensures
        r@ == time_text(epoch_ms as int),
{
    let d = utc_or_epoch(epoch_ms);
    let hour = d.hour;
    let h12: u8 = if hour % 12 == 0 {
        12
    } else {
        hour % 12
    };
    let mut v: Vec<char> = Vec::new();
    push_u64_text(&mut v, h12 as u64);
    v.push(':');
    push_two_digits(&mut v, d.minute);
    if hour >= 12 {
        push_str(&mut v, " PM");
    } else {
        push_str(&mut v, " AM");
    }
    assert(v@ =~= time_text(epoch_ms as int));
    string_from_chars(v.as_slice())
}

fn month_abbrev_str(m: u8) -> (r: &'static str)
    ensures
        r@ == month_abbrev(m as int),
{
    match m {
        1 => "Jan",
        2 => "Feb",
        3 => "Mar",
        4 => "Apr",
        5 => "May",
        6 => "Jun",
        7 => "Jul",
        8 => "Aug",
        9 => "Sep",
        10 => "Oct",
        11 => "Nov",
        _ => "Dec",
    }
}

/// The UTC calendar date of a millisecond timestamp, as `Jan 2, 2025`.
pub fn format_date(epoch_ms: i64) -> (r: String)
    ensures
        r@ == date_text(epoch_ms as int),
{
    let d = utc_or_epoch(epoch_ms);
    let mut v: Vec<char> = Vec::new();
    push_str(&mut v, month_abbrev_str(d.month));
    v.push(' ');
    push_u64_text(&mut v, d.day as u64);
    push_str(&mut v, ", ");
    push_i64_text(&mut v, d.year as i64);
    assert(v@ =~= date_text(epoch_ms as int));
    string_from_chars(v.as_slice())
}

/// The one-letter column for an observation kind.
pub open spec fn type_icon_spec(kind: Seq<char>) -> Seq<char> {
    if kind == "decision"@ {
        "D"@
    } else if kind == "bugfix"@ {
        "B"@
    } else if kind == "feature"@ {
        "F"@
    } else if kind == "refactor"@ {
        "R"@
    } else if kind == "discovery"@ {
        "I"@
    } else if kind == "change"@ {
        "C"@
    } else {
        "?"@
    }
}

/// The kind column: `decision` shows `D`, `bugfix` `B`, `feature` `F`, `refactor` `R`,
/// `discovery` `I` and `change` `C`, each letter for that kind alone; any other kind shows `?`.
pub proof fn law_type_icon_letters(kind: Seq<char>)
    ensures
        (type_icon_spec(kind) == "D"@) == (kind == "decision"@),
        (type_icon_spec(kind) == "B"@) == (kind == "bugfix"@),
        (type_icon_spec(kind) == "F"@) == (kind == "feature"@),
        (type_icon_spec(kind) == "R"@) == (kind == "refactor"@),
        (type_icon_spec(kind) == "I"@) == (kind == "discovery"@),
        (type_icon_spec(kind) == "C"@) == (kind == "change"@),
        (type_icon_spec(kind) == "?"@) == !(kind == "decision"@ || kind == "bugfix"@ || kind == "feature"@
            || kind == "refactor"@ || kind == "discovery"@ || kind == "change"@),
{
    reveal_strlit("D");
    reveal_strlit("B");
    reveal_strlit("F");
    reveal_strlit("R");
    reveal_strlit("I");
    reveal_strlit("C");
    reveal_strlit("?");
    reveal_strlit("decision");
    reveal_strlit("bugfix");
    reveal_strlit("feature");
    reveal_strlit("refactor");
    reveal_strlit("discovery");
    reveal_strlit("change");
    assert("decision"@[0] == 'd' && "bugfix"@[0] == 'b' && "feature"@[0] == 'f' && "refactor"@[0] == 'r'
        && "discovery"@[0] == 'd' && "change"@[0] == 'c');
    assert("decision"@.len() != "discovery"@.len());
    assert("D"@[0] == 'D' && "B"@[0] == 'B' && "F"@[0] == 'F' && "R"@[0] == 'R' && "I"@[0] == 'I' && "C"@[0]
        == 'C' && "?"@[0] == '?');
}

pub fn type_icon(kind: &str) -> (r: &'static str)
    ensures
        r@ == type_icon_spec(kind@),
{
    let k = chars_of(kind);
    let k = k.as_slice();
    if crate::text::chars_eq_str(k, "decision") {
        "D"
    } else if crate::text::chars_eq_str(k, "bugfix") {
        "B"
    } else if crate::text::chars_eq_str(k, "feature") {
        "F"
    } else if crate::text::chars_eq_str(k, "refactor") {
        "R"
    } else if crate::text::chars_eq_str(k, "discovery") {
        "I"
    } else if crate::text::chars_eq_str(k, "change") {
        "C"
    } else {
        "?"
    }
}

/// `text` cut to at most `max_chars` characters, ending in `...` when it was cut.
pub open spec fn truncate_spec(text: Seq<char>, max_chars: int) -> Seq<char> {
    if text.len() <= max_chars {
        text
    } else {
        let keep = if max_chars >= 3 {
            max_chars - 3
        } else {
            0
        };
        text.subrange(0, keep) + "..."@
    }
}

/// Truncated text is never longer than the limit, or three characters when the limit is
/// smaller, and text within the limit is kept whole.
pub proof fn lemma_truncate_len(text: Seq<char>, max_chars: int)
    requires
        max_chars >= 0,
    ensures
        truncate_spec(text, max_chars).len() <= (if max_chars >= 3 {
            max_chars
        } else {
            3
        }),
        text.len() <= max_chars ==> truncate_spec(text, max_chars) == text,
{
    reveal_strlit("...");
}

pub fn truncate(text: &str, max_chars: usize) -> (r: String)
    ensures
        r@ == truncate_spec(text@, max_chars as int),
{
    let c = chars_of(text);
    if c.len() <= max_chars {
        return text.to_owned();
    }
    let keep = if max_chars >= 3 {
        max_chars - 3
    } else {
        0
    };
    let mut v = copy_range(c.as_slice(), 0, keep);
    push_str(&mut v, "...");
    string_from_chars(v.as_slice())
}

/// The table-cell form of one character: `|` is escaped and a newline becomes a space.
pub open spec fn table_char(c: char) -> Seq<char> {
    if c == '|' {
        seq!['\\', '|']
    } else if c == '\n' {
        seq![' ']
    } else {
        seq![c]
    }
}

/// `text` made safe for a markdown table cell.
pub open spec fn table_text_spec(text: Seq<char>) -> Seq<char>
    decreases text.len(),
{
    if text.len() == 0 {
        seq![]
    } else {
        table_text_spec(text.drop_last()) + table_char(text.last())
    }
}

/// Table text holds no line break, and every `|` in it is escaped.
pub proof fn lemma_table_text(text: Seq<char>)
    ensures
        !table_text_spec(text).contains('\n'),
        forall|i: int| 0 <= i < table_text_spec(text).len() && #[trigger] table_text_spec(text)[i] == '|' ==> i > 0
            && table_text_spec(text)[i - 1] == '\\',
    decreases text.len(),
{
    if text.len() > 0 {
        let p = table_text_spec(text.drop_last());
        lemma_table_text(text.drop_last());
        let t = table_char(text.last());
        let r = p + t;
        assert(r == table_text_spec(text));
        if r.contains('\n') {
            let i = choose|i: int| 0 <= i < r.len() && r[i] == '\n';
            if i < p.len() {
                assert(p[i] == '\n');
                assert(p.contains('\n'));
            } else {
                assert(t[i - p.len()] == '\n');
            }
        }
        assert forall|i: int| 0 <= i < r.len() && #[trigger] r[i] == '|' implies i > 0 && r[i - 1] == '\\' by {
            if i < p.len() {
                assert(p[i] == '|');
            } else {
                assert(t[i - p.len()] == '|');
                assert(text.last() == '|');
                assert(i == p.len() + 1);
                assert(r[i - 1] == t[0]);
            }
        }
    }
}

pub fn push_table_text(out: &mut Vec<char>, text: &str)
    ensures
        final(out)@ == old(out)@ + table_text_spec(text@),
{
    let c = chars_of(text);
    let mut i: usize = 0;
    while i < c.len()
        invariant
            i <= c@.len(),
            c@ == text@,
            out@ == old(out)@ + table_text_spec(c@.subrange(0, i as int)),
        decreases c.len() - i,
    {
        assert(c@.subrange(0, i + 1).drop_last() =~= c@.subrange(0, i as int));
        let ch = c[i];
        let ghost o0 = out@;
        if ch == '|' {
            out.push('\\');
            out.push('|');
        } else if ch == '\n' {
            out.push(' ');
        } else {
            out.push(ch);
        }
        assert(out@ =~= o0 + table_char(ch));
        i = i + 1;
    }
    assert(c@.subrange(0, c@.len() as int) =~= c@);
}

/// `text` with `|` escaped and newlines turned into spaces.
pub fn table_text(text: &str) -> (r: String)
    ensures
        r@ == table_text_spec(text@),
{
    let mut v: Vec<char> = Vec::new();
    push_table_text(&mut v, text);
    assert(v@ =~= table_text_spec(text@));
    string_from_chars(v.as_slice())
}

impl ResultFormatter {
    pub fn new() -> (r: Self) {
        Self
    }

    pub fn format_search_table_header(&self) -> (r: String)
        ensures
            r@ == "| ID | Time | T | Title | Read |\n|----|------|---|-------|------|"@,
    {
        "| ID | Time | T | Title | Read |\n|----|------|---|-------|------|".to_owned()
    }

    pub fn format_table_header(&self) -> (r: String)
        ensures
            r@
                == "| ID | Time | T | Title | Read | Work |\n|-----|------|---|-------|------|------|"@,
    {
        "| ID | Time | T | Title | Read | Work |\n|-----|------|---|-------|------|------|".to_owned()
    }

    pub fn format_search_tips(&self) -> (r: String)
        ensures
            r@ == "---
Search Strategy:
1. Search with index to see titles, dates, IDs
2. Use timeline to get context around interesting results
3. Batch fetch full details: get_observations(ids=[...])

Tips:
- Filter by type: obs_type=\"bugfix,feature\"
- Filter by date: dateStart=\"2025-01-01\"
- Sort: orderBy=\"date_desc\" or \"date_asc\""@,
    {
        "---
Search Strategy:
1. Search with index to see titles, dates, IDs
2. Use timeline to get context around interesting results
3. Batch fetch full details: get_observations(ids=[...])

Tips:
- Filter by type: obs_type=\"bugfix,feature\"
- Filter by date: dateStart=\"2025-01-01\"
- Sort: orderBy=\"date_desc\" or \"date_asc\"".to_owned()
    }

    pub fn format_chroma_failure_message(&self) -> (r: String)
        ensures
            r@ == "Vector search failed - semantic search unavailable.\n\nYou can still use filter-only searches without a query term."@,
    {
        "Vector search failed - semantic search unavailable.\n\nYou can still use filter-only searches without a query term.".to_owned()
    }
}


/// The UTF-8 length of `s` in bytes, as `String::len` counts it.
pub open spec fn byte_len(s: String) -> int {
    (vstd::utf8::encode_utf8(s@).len() as usize) as int
}

pub open spec fn opt_byte_len(o: Option<String>) -> int {
    match o {
        Some(s) => byte_len(s),
        None => 0,
    }
}

pub open spec fn total_byte_len(v: Seq<String>) -> int
    decreases v.len(),
{
    if v.len() == 0 {
        0
    } else {
        total_byte_len(v.drop_last()) + byte_len(v.last())
    }
}

/// The bytes of text an observation shows a reader: title, subtitle, narrative and facts.
pub open spec fn read_size(obs: ObservationRow) -> int {
    opt_byte_len(obs.title) + opt_byte_len(obs.subtitle) + opt_byte_len(obs.narrative) + match obs.facts {
        Some(f) => total_byte_len(f@),
        None => 0,
    }
}

/// The largest read size whose token estimate is exact in a double.
pub open spec fn max_read_size() -> int {
    9007199254740992
}

/// Reading cost in tokens: a quarter of the read size, rounded up.
pub open spec fn read_tokens(obs: ObservationRow) -> int {
    (read_size(obs) + 3) / 4
}

proof fn lemma_total_byte_len_nonneg(v: Seq<String>)
    ensures
        total_byte_len(v) >= 0,
    decreases v.len(),
{
    if v.len() > 0 {
        lemma_total_byte_len_nonneg(v.drop_last());
    }
}

fn str_byte_len(s: &String) -> (r: usize)
    ensures
        r == byte_len(*s),
{
    s.as_str().len()
}

fn opt_str_byte_len(o: &Option<String>) -> (r: usize)
    ensures
        r == opt_byte_len(*o),
{
    match o {
        Some(s) => str_byte_len(s),
        None => 0,
    }
}

impl ResultFormatter {
    /// Reading cost of an observation in tokens.
    pub fn estimate_read_tokens(&self, obs: &ObservationRow) -> (r: usize)
        requires
            read_size(*obs) <= max_read_size(),
            read_size(*obs) <= usize::MAX,
        ensures
            r == read_tokens(*obs),
    {
        let mut size: u64 = 0;
        let a = opt_str_byte_len(&obs.title) as u64;
        let b = opt_str_byte_len(&obs.subtitle) as u64;
        let c = opt_str_byte_len(&obs.narrative) as u64;
        proof {
            if let Some(f) = &obs.facts {
                lemma_total_byte_len_nonneg(f@);
            }
        }
        size = a + b + c;
        if let Some(facts) = &obs.facts {
            let mut i: usize = 0;
            while i < facts.len()
                invariant
                    i <= facts@.len(),
                    obs.facts == Some(*facts),
                    read_size(*obs) <= max_read_size(),
                    size == a + b + c + total_byte_len(facts@.subrange(0, i as int)),
                    a + b + c + total_byte_len(facts@) == read_size(*obs),
                decreases facts.len() - i,
            {
                assert(facts@.subrange(0, i + 1).drop_last() =~= facts@.subrange(0, i as int));
                proof {
                    lemma_total_byte_len_prefix(facts@, i + 1);
                }
                size = size + str_byte_len(&facts[i]) as u64;
                i = i + 1;
            }
            assert(facts@.subrange(0, facts@.len() as int) =~= facts@);
        }
        ((size + 3) / 4) as usize
    }
}

proof fn lemma_total_byte_len_prefix(v: Seq<String>, k: int)
    requires
        0 <= k <= v.len(),
    ensures
        total_byte_len(v.subrange(0, k)) <= total_byte_len(v),
    decreases v.len() - k,
{
    if k < v.len() {
        lemma_total_byte_len_prefix(v, k + 1);
        assert(v.subrange(0, k + 1).drop_last() =~= v.subrange(0, k));
    } else {
        assert(v.subrange(0, k) =~= v);
    }
}

/// The time cell of a row: a ditto mark when the time repeats the previous row's.
pub open spec fn time_display(time: Seq<char>, last_time: Seq<char>) -> Seq<char> {
    if time == last_time {
        seq!['"']
    } else {
        time
    }
}

pub open spec fn title_or_untitled(title: Option<String>) -> Seq<char> {
    match title {
        Some(t) => t@,
        None => "Untitled"@,
    }
}

/// The search-table row of an observation.
pub open spec fn observation_search_row_text(obs: ObservationRow, last_time: Seq<char>) -> Seq<char> {
    "| #"@ + int_text(obs.id as int) + " | "@ + time_display(
        time_text(obs.created_at_epoch as int),
        last_time,
    ) + " | "@ + type_icon_spec(obs.observation_type@) + " | "@ + table_text_spec(
        title_or_untitled(obs.title),
    ) + " | ~"@ + nat_text(read_tokens(obs) as nat) + " |"@
}

/// A session's title: its request, else `Session` and the first eight characters of its
/// memory session id.
pub open spec fn session_title(session: SessionSummaryRow) -> Seq<char> {
    match session.request {
        Some(r) => r@,
        None => "Session "@ + (if session.memory_session_id@.len() <= 8 {
            session.memory_session_id@
        } else {
            session.memory_session_id@.subrange(0, 8)
        }),
    }
}

pub open spec fn session_search_row_text(session: SessionSummaryRow, last_time: Seq<char>) -> Seq<char> {
    "| #S"@ + int_text(session.id as int) + " | "@ + time_display(
        time_text(session.created_at_epoch as int),
        last_time,
    ) + " | S | "@ + table_text_spec(session_title(session)) + " | - |"@
}

pub open spec fn prompt_search_row_text(prompt: UserPromptRow, last_time: Seq<char>) -> Seq<char> {
    "| #P"@ + int_text(prompt.id as int) + " | "@ + time_display(
        time_text(prompt.created_at_epoch as int),
        last_time,
    ) + " | P | "@ + table_text_spec(truncate_spec(prompt.prompt_text@, 60)) + " | - |"@
}

fn push_time_display(out: &mut Vec<char>, time: &String, last_time: &str)
    ensures
        final(out)@ == old(out)@ + time_display(time@, last_time@),
{
    let t = chars_of(time.as_str());
    let l = chars_of(last_time);
    if crate::text::chars_eq(t.as_slice(), l.as_slice()) {
        out.push('"');
        assert(final(out)@ =~= old(out)@ + seq!['"']);
    } else {
        push_str(out, time.as_str());
    }
}

fn session_title_exec(session: &SessionSummaryRow) -> (r: String)
    ensures
        r@ == session_title(*session),
{
    match &session.request {
        Some(r) => r.clone(),
        None => {
            let mut v: Vec<char> = Vec::new();
            push_str(&mut v, "Session ");
            let m = chars_of(session.memory_session_id.as_str());
            let n = if m.len() <= 8 {
                m.len()
            } else {
                8
            };
            let head = copy_range(m.as_slice(), 0, n);
            push_chars(&mut v, head.as_slice());
            assert(m@.subrange(0, m@.len() as int) =~= m@);
            string_from_chars(v.as_slice())
        },
    }
}

impl ResultFormatter {
    /// The search-table row of an observation and its time cell.
    pub fn format_observation_search_row(&self, obs: &ObservationRow, last_time: &str) -> (r:
        FormattedRow)
        requires
            read_size(*obs) <= max_read_size(),
            read_size(*obs) <= usize::MAX,
        ensures
            r.row@ == observation_search_row_text(*obs, last_time@),
            r.time@ == time_text(obs.created_at_epoch as int),
    {
        let time = format_time(obs.created_at_epoch);
        let tokens = self.estimate_read_tokens(obs);
        let mut v: Vec<char> = Vec::new();
        push_str(&mut v, "| #");
        push_i64_text(&mut v, obs.id);
        push_str(&mut v, " | ");
        push_time_display(&mut v, &time, last_time);
        push_str(&mut v, " | ");
        push_str(&mut v, type_icon(obs.observation_type.as_str()));
        push_str(&mut v, " | ");
        match &obs.title {
            Some(t) => push_table_text(&mut v, t.as_str()),
            None => push_table_text(&mut v, "Untitled"),
        }
        push_str(&mut v, " | ~");
        push_u64_text(&mut v, tokens as u64);
        push_str(&mut v, " |");
        assert(v@ =~= observation_search_row_text(*obs, last_time@));
        FormattedRow { row: string_from_chars(v.as_slice()), time }
    }

    /// The search-table row of a session summary and its time cell.
    pub fn format_session_search_row(&self, session: &SessionSummaryRow, last_time: &str) -> (r:
        FormattedRow)
        ensures
            r.row@ == session_search_row_text(*session, last_time@),
            r.time@ == time_text(session.created_at_epoch as int),
    {
        let time = format_time(session.created_at_epoch);
        let title = session_title_exec(session);
        let mut v: Vec<char> = Vec::new();
        push_str(&mut v, "| #S");
        push_i64_text(&mut v, session.id);
        push_str(&mut v, " | ");
        push_time_display(&mut v, &time, last_time);
        push_str(&mut v, " | S | ");
        push_table_text(&mut v, title.as_str());
        push_str(&mut v, " | - |");
        assert(v@ =~= session_search_row_text(*session, last_time@));
        FormattedRow { row: string_from_chars(v.as_slice()), time }
    }

    /// The search-table row of a user prompt and its time cell.
    pub fn format_prompt_search_row(&self, prompt: &UserPromptRow, last_time: &str) -> (r:
        FormattedRow)
        ensures
            r.row@ == prompt_search_row_text(*prompt, last_time@),
            r.time@ == time_text(prompt.created_at_epoch as int),
    {
        let time = format_time(prompt.created_at_epoch);
        let title = truncate(prompt.prompt_text.as_str(), 60);
        let mut v: Vec<char> = Vec::new();
        push_str(&mut v, "| #P");
        push_i64_text(&mut v, prompt.id);
        push_str(&mut v, " | ");
        push_time_display(&mut v, &time, last_time);
        push_str(&mut v, " | P | ");
        push_table_text(&mut v, title.as_str());
        push_str(&mut v, " | - |");
        assert(v@ =~= prompt_search_row_text(*prompt, last_time@));
        FormattedRow { row: string_from_chars(v.as_slice()), time }
    }

    /// The index-table row of an observation, with its discovery cost when known.
    pub fn format_observation_index(&self, obs: &ObservationRow, index: usize) -> (r: String)
        requires
            read_size(*obs) <= max_read_size(),
            read_size(*obs) <= usize::MAX,
        ensures
            r@ == "| #"@ + int_text(obs.id as int) + " | "@ + time_text(obs.created_at_epoch as int)
                + " | "@ + type_icon_spec(obs.observation_type@) + " | "@ + table_text_spec(
                title_or_untitled(obs.title),
            ) + " | ~"@ + nat_text(read_tokens(*obs) as nat) + " | "@ + (if obs.discovery_tokens
                > 0 {
                "W "@ + int_text(obs.discovery_tokens as int)
            } else {
                "-"@
            }) + " |"@,
    {
        let time = format_time(obs.created_at_epoch);
        let tokens = self.estimate_read_tokens(obs);
        let mut v: Vec<char> = Vec::new();
        push_str(&mut v, "| #");
        push_i64_text(&mut v, obs.id);
        push_str(&mut v, " | ");
        push_str(&mut v, time.as_str());
        push_str(&mut v, " | ");
        push_str(&mut v, type_icon(obs.observation_type.as_str()));
        push_str(&mut v, " | ");
        match &obs.title {
            Some(t) => push_table_text(&mut v, t.as_str()),
            None => push_table_text(&mut v, "Untitled"),
        }
        push_str(&mut v, " | ~");
        push_u64_text(&mut v, tokens as u64);
        push_str(&mut v, " | ");
        if obs.discovery_tokens > 0 {
            push_str(&mut v, "W ");
            push_i64_text(&mut v, obs.discovery_tokens);
        } else {
            push_str(&mut v, "-");
        }
        push_str(&mut v, " |");
        string_from_chars(v.as_slice())
    }

    /// The index-table row of a session summary.
    pub fn format_session_index(&self, session: &SessionSummaryRow, index: usize) -> (r: String)
        ensures
            r@ == "| #S"@ + int_text(session.id as int) + " | "@ + time_text(
                session.created_at_epoch as int,
            ) + " | S | "@ + table_text_spec(session_title(*session)) + " | - | - |"@,
    {
        let time = format_time(session.created_at_epoch);
        let title = session_title_exec(session);
        let mut v: Vec<char> = Vec::new();
        push_str(&mut v, "| #S");
        push_i64_text(&mut v, session.id);
        push_str(&mut v, " | ");
        push_str(&mut v, time.as_str());
        push_str(&mut v, " | S | ");
        push_table_text(&mut v, title.as_str());
        push_str(&mut v, " | - | - |");
        string_from_chars(v.as_slice())
    }

    /// The index-table row of a user prompt.
    pub fn format_prompt_index(&self, prompt: &UserPromptRow, index: usize) -> (r: String)
        ensures
            r@ == "| #P"@ + int_text(prompt.id as int) + " | "@ + time_text(
                prompt.created_at_epoch as int,
            ) + " | P | "@ + table_text_spec(truncate_spec(prompt.prompt_text@, 60))
                + " | - | - |"@,
    {
        let time = format_time(prompt.created_at_epoch);
        let title = truncate(prompt.prompt_text.as_str(), 60);
        let mut v: Vec<char> = Vec::new();
        push_str(&mut v, "| #P");
        push_i64_text(&mut v, prompt.id);
        push_str(&mut v, " | ");
        push_str(&mut v, time.as_str());
        push_str(&mut v, " | P | ");
        push_table_text(&mut v, title.as_str());
        push_str(&mut v, " | - | - |");
        string_from_chars(v.as_slice())
    }
}

/// The file an observation is grouped under: its first modified file, else its first read
/// file, else `General`.
pub open spec fn first_file(obs: ObservationRow) -> Seq<char> {
    match obs.files_modified {
        Some(f) if f@.len() > 0 => f@[0]@,
        _ => match obs.files_read {
            Some(f) if f@.len() > 0 => f@[0]@,
            _ => "General"@,
        },
    }
}

pub fn extract_first_file(obs: &ObservationRow) -> (r: String)
    ensures
        r@ == first_file(*obs),
{
    match &obs.files_modified {
        Some(f) if f.len() > 0 => f[0].clone(),
        _ => match &obs.files_read {
            Some(f) if f.len() > 0 => f[0].clone(),
            _ => "General".to_owned(),
        },
    }
}


#[derive(Debug, Clone, Default, PartialEq, Eq)]
pub struct SearchResults {
    pub observations: Vec<ObservationRow>,
    pub sessions: Vec<SessionSummaryRow>,
    pub prompts: Vec<UserPromptRow>,
}

#[derive(Debug, Clone, PartialEq, Eq)]
pub enum CombinedData {
    Observation(ObservationRow),
    Session(SessionSummaryRow),
    Prompt(UserPromptRow),
}

#[derive(Debug, Clone, PartialEq, Eq)]
pub struct CombinedResult {
    pub result_type: &'static str,
    pub data: CombinedData,
    pub epoch: i64,
    pub created_at: String,
}

pub open spec fn opt_strings_view(o: Option<Vec<String>>) -> Option<Seq<String>> {
    match o {
        Some(v) => Some(v@),
        None => None,
    }
}

/// `a` is a copy of the observation `b`.
pub open spec fn same_observation(a: ObservationRow, b: ObservationRow) -> bool {
    &&& a.id == b.id
    &&& a.memory_session_id == b.memory_session_id
    &&& a.project == b.project
    &&& a.text == b.text
    &&& a.observation_type == b.observation_type
    &&& a.title == b.title
    &&& a.subtitle == b.subtitle
    &&& a.narrative == b.narrative
    &&& opt_strings_view(a.facts) == opt_strings_view(b.facts)
    &&& opt_strings_view(a.concepts) == opt_strings_view(b.concepts)
    &&& opt_strings_view(a.files_read) == opt_strings_view(b.files_read)
    &&& opt_strings_view(a.files_modified) == opt_strings_view(b.files_modified)
    &&& a.prompt_number == b.prompt_number
    &&& a.discovery_tokens == b.discovery_tokens
    &&& a.created_at == b.created_at
    &&& a.created_at_epoch == b.created_at_epoch
    &&& a.generated_by_model == b.generated_by_model
    &&& a.relevance_count == b.relevance_count
    &&& a.merged_into_project == b.merged_into_project
    &&& a.agent_type == b.agent_type
    &&& a.agent_id == b.agent_id
    &&& a.content_hash == b.content_hash
}

fn clone_opt_strings(o: &Option<Vec<String>>) -> (r: Option<Vec<String>>)
    ensures
        opt_strings_view(r) == opt_strings_view(*o),
{
    match o {
        Some(v) => Some(crate::text::clone_strings(v)),
        None => None,
    }
}

/// A copy of an observation row.
pub fn clone_observation(o: &ObservationRow) -> (r: ObservationRow)
    ensures
        same_observation(r, *o),
{
    ObservationRow {
        id: o.id,
        memory_session_id: o.memory_session_id.clone(),
        project: o.project.clone(),
        text: clone_opt_string(&o.text),
        observation_type: o.observation_type.clone(),
        title: clone_opt_string(&o.title),
        subtitle: clone_opt_string(&o.subtitle),
        narrative: clone_opt_string(&o.narrative),
        facts: clone_opt_strings(&o.facts),
        concepts: clone_opt_strings(&o.concepts),
        files_read: clone_opt_strings(&o.files_read),
        files_modified: clone_opt_strings(&o.files_modified),
        prompt_number: o.prompt_number,
        discovery_tokens: o.discovery_tokens,
        created_at: o.created_at.clone(),
        created_at_epoch: o.created_at_epoch,
        generated_by_model: clone_opt_string(&o.generated_by_model),
        relevance_count: o.relevance_count,
        merged_into_project: clone_opt_string(&o.merged_into_project),
        agent_type: clone_opt_string(&o.agent_type),
        agent_id: clone_opt_string(&o.agent_id),
        content_hash: clone_opt_string(&o.content_hash),
    }
}

/// A copy of a session summary row.
pub fn clone_session(o: &SessionSummaryRow) -> (r: SessionSummaryRow)
    ensures
        r == *o,
{
    SessionSummaryRow {
        id: o.id,
        memory_session_id: o.memory_session_id.clone(),
        project: o.project.clone(),
        request: clone_opt_string(&o.request),
        investigated: clone_opt_string(&o.investigated),
        learned: clone_opt_string(&o.learned),
        completed: clone_opt_string(&o.completed),
        next_steps: clone_opt_string(&o.next_steps),
        files_read: clone_opt_string(&o.files_read),
        files_edited: clone_opt_string(&o.files_edited),
        notes: clone_opt_string(&o.notes),
        prompt_number: o.prompt_number,
        discovery_tokens: o.discovery_tokens,
        created_at: o.created_at.clone(),
        created_at_epoch: o.created_at_epoch,
        merged_into_project: clone_opt_string(&o.merged_into_project),
    }
}

/// A copy of a user prompt row.
pub fn clone_prompt(o: &UserPromptRow) -> (r: UserPromptRow)
    ensures
        r == *o,
{
    UserPromptRow {
        id: o.id,
        content_session_id: o.content_session_id.clone(),
        prompt_number: o.prompt_number,
        prompt_text: o.prompt_text.clone(),
        created_at: o.created_at.clone(),
        created_at_epoch: o.created_at_epoch,
    }
}

/// `c` is the combined entry of the `i`-th result of `results`, taking observations, then
/// sessions, then prompts.
pub open spec fn combined_entry_is(c: CombinedResult, results: SearchResults, i: int) -> bool {
    let no = results.observations@.len() as int;
    let ns = results.sessions@.len() as int;
    if i < no {
        let o = results.observations@[i];
        &&& c.result_type@ == "observation"@
        &&& c.data matches CombinedData::Observation(d) && same_observation(d, o)
        &&& c.epoch == o.created_at_epoch
        &&& c.created_at == o.created_at
    } else if i < no + ns {
        let s = results.sessions@[i - no];
        &&& c.result_type@ == "session"@
        &&& c.data == CombinedData::Session(s)
        &&& c.epoch == s.created_at_epoch
        &&& c.created_at == s.created_at
    } else {
        let p = results.prompts@[i - no - ns];
        &&& c.result_type@ == "prompt"@
        &&& c.data == CombinedData::Prompt(p)
        &&& c.epoch == p.created_at_epoch
        &&& c.created_at == p.created_at
    }
}

pub open spec fn total_results(results: SearchResults) -> int {
    (results.observations@.len() + results.sessions@.len() + results.prompts@.len()) as int
}

impl ResultFormatter {
    /// Every result as one list: the observations, then the sessions, then the prompts,
    /// each with its kind, time and creation date.
    pub fn combine_results(&self, results: &SearchResults) -> (r: Vec<CombinedResult>)
        requires
            total_results(*results) <= usize::MAX,
        ensures
            r@.len() == total_results(*results),
            forall|i: int| 0 <= i < r@.len() ==> combined_entry_is(#[trigger] r@[i], *results, i),
    {
        let mut out: Vec<CombinedResult> = Vec::new();
        let mut i: usize = 0;
        while i < results.observations.len()
            invariant
                i <= results.observations@.len(),
                out@.len() == i,
                forall|j: int| 0 <= j < i ==> combined_entry_is(#[trigger] out@[j], *results, j),
            decreases results.observations.len() - i,
        {
            let o = &results.observations[i];
            out.push(
                CombinedResult {
                    result_type: "observation",
                    epoch: o.created_at_epoch,
                    created_at: o.created_at.clone(),
                    data: CombinedData::Observation(clone_observation(o)),
                },
            );
            i = i + 1;
        }
        let no = results.observations.len();
        let mut i: usize = 0;
        while i < results.sessions.len()
            invariant
                no == results.observations@.len(),
                total_results(*results) <= usize::MAX,
                i <= results.sessions@.len(),
                out@.len() == no + i,
                forall|j: int| 0 <= j < no + i ==> combined_entry_is(#[trigger] out@[j], *results, j),
            decreases results.sessions.len() - i,
        {
            let o = &results.sessions[i];
            out.push(
                CombinedResult {
                    result_type: "session",
                    epoch: o.created_at_epoch,
                    created_at: o.created_at.clone(),
                    data: CombinedData::Session(clone_session(o)),
                },
            );
            i = i + 1;
        }
        let ns = results.sessions.len();
        let mut i: usize = 0;
        while i < results.prompts.len()
            invariant
                no == results.observations@.len(),
                ns == results.sessions@.len(),
                total_results(*results) <= usize::MAX,
                i <= results.prompts@.len(),
                out@.len() == no + ns + i,
                forall|j: int|
                    0 <= j < no + ns + i ==> combined_entry_is(#[trigger] out@[j], *results, j),
            decreases results.prompts.len() - i,
        {
            let o = &results.prompts[i];
            out.push(
                CombinedResult {
                    result_type: "prompt",
                    epoch: o.created_at_epoch,
                    created_at: o.created_at.clone(),
                    data: CombinedData::Prompt(clone_prompt(o)),
                },
            );
            i = i + 1;
        }
        out
    }
}


/// A result's place in the combined list: its kind (0 observation, 1 session, 2 prompt), its
/// index among the results of that kind, and its time.
#[derive(Debug, Clone, Copy, PartialEq, Eq)]
pub struct ResultKey {
    pub kind: u8,
    pub index: usize,
    pub epoch: i64,
}

/// The keys of the results in combined order: observations, sessions, prompts.
pub open spec fn keys_of(results: SearchResults) -> Seq<ResultKey> {
    let no = results.observations@.len() as int;
    let ns = results.sessions@.len() as int;
    Seq::new(
        total_results(results) as nat,
        |i: int|
            if i < no {
                ResultKey { kind: 0, index: i as usize, epoch: results.observations@[i].created_at_epoch }
            } else if i < no + ns {
                ResultKey {
                    kind: 1,
                    index: (i - no) as usize,
                    epoch: results.sessions@[i - no].created_at_epoch,
                }
            } else {
                ResultKey {
                    kind: 2,
                    index: (i - no - ns) as usize,
                    epoch: results.prompts@[i - no - ns].created_at_epoch,
                }
            },
    )
}

/// `k` names a result of `results` and carries its time.
pub open spec fn valid_key(results: SearchResults, k: ResultKey) -> bool {
    if k.kind == 0 {
        k.index < results.observations@.len() && k.epoch
            == results.observations@[k.index as int].created_at_epoch
    } else if k.kind == 1 {
        k.index < results.sessions@.len() && k.epoch
            == results.sessions@[k.index as int].created_at_epoch
    } else {
        k.kind == 2 && k.index < results.prompts@.len() && k.epoch
            == results.prompts@[k.index as int].created_at_epoch
    }
}

/// `x` inserted into the newest-first list `sorted` after every entry at least as new.
pub open spec fn insert_desc(sorted: Seq<ResultKey>, x: ResultKey) -> Seq<ResultKey>
    decreases sorted.len(),
{
    if sorted.len() == 0 {
        seq![x]
    } else if sorted[0].epoch < x.epoch {
        seq![x] + sorted
    } else {
        seq![sorted[0]] + insert_desc(sorted.drop_first(), x)
    }
}

/// `s` sorted newest first; entries with equal times keep their order.
pub open spec fn sort_desc(s: Seq<ResultKey>) -> Seq<ResultKey>
    decreases s.len(),
{
    if s.len() == 0 {
        seq![]
    } else {
        insert_desc(sort_desc(s.drop_last()), s.last())
    }
}

pub open spec fn newest_first(s: Seq<ResultKey>) -> bool {
    forall|i: int, j: int| 0 <= i < j < s.len() ==> (#[trigger] s[i]).epoch >= (#[trigger] s[j]).epoch
}

proof fn lemma_insert_desc_sorted(sorted: Seq<ResultKey>, x: ResultKey)
    requires
        newest_first(sorted),
    ensures
        newest_first(insert_desc(sorted, x)),
        insert_desc(sorted, x).to_multiset() == sorted.to_multiset().insert(x),
    decreases sorted.len(),
{
    broadcast use vstd::seq_lib::group_to_multiset_ensures;

    if sorted.len() == 0 {
        assert(seq![x] =~= Seq::<ResultKey>::empty().push(x));
        assert(seq![x].to_multiset() =~= Seq::<ResultKey>::empty().push(x).to_multiset());
    } else if sorted[0].epoch < x.epoch {
        let r = seq![x] + sorted;
        assert(r =~= sorted.insert(0, x));
        vstd::seq_lib::lemma_seq_union_to_multiset_commutative(seq![x], sorted);
        assert(seq![x] =~= Seq::<ResultKey>::empty().push(x));
        vstd::seq_lib::lemma_multiset_commutative(seq![x], sorted);
        assert forall|i: int, j: int| 0 <= i < j < r.len() implies (#[trigger] r[i]).epoch >= (#[trigger] r[j]).epoch by {
            if i == 0 {
                assert(r[j] == sorted[j - 1]);
                assert(sorted[0].epoch >= sorted[j - 1].epoch || j - 1 == 0);
            } else {
                assert(r[i] == sorted[i - 1] && r[j] == sorted[j - 1]);
            }
        }
    } else {
        let rest = sorted.drop_first();
        assert(newest_first(rest)) by {
            assert forall|i: int, j: int| 0 <= i < j < rest.len() implies (#[trigger] rest[i]).epoch >= (#[trigger] rest[j]).epoch by {
                assert(rest[i] == sorted[i + 1] && rest[j] == sorted[j + 1]);
            }
        }
        lemma_insert_desc_sorted(rest, x);
        let q = insert_desc(rest, x);
        let r = seq![sorted[0]] + q;
        vstd::seq_lib::lemma_multiset_commutative(seq![sorted[0]], q);
        vstd::seq_lib::lemma_multiset_commutative(seq![sorted[0]], rest);
        assert(sorted =~= seq![sorted[0]] + rest);
        assert forall|k: int| 0 <= k < q.len() implies sorted[0].epoch >= (#[trigger] q[k]).epoch by {
            assert(q.to_multiset().count(q[k]) > 0);
            if q[k] != x {
                assert(rest.to_multiset().count(q[k]) > 0);
                assert(rest.contains(q[k]));
                let m = choose|m: int| 0 <= m < rest.len() && rest[m] == q[k];
                assert(sorted[m + 1] == rest[m]);
            }
        }
        assert forall|i: int, j: int| 0 <= i < j < r.len() implies (#[trigger] r[i]).epoch >= (#[trigger] r[j]).epoch by {
            if i == 0 {
                assert(r[j] == q[j - 1]);
            } else {
                assert(r[i] == q[i - 1] && r[j] == q[j - 1]);
            }
        }
    }
}

/// Results ordered newest first hold the same entries, ordered by time from newest to
/// oldest.
pub proof fn lemma_sort_desc(s: Seq<ResultKey>)
    ensures
        newest_first(sort_desc(s)),
        sort_desc(s).to_multiset() == s.to_multiset(),
    decreases s.len(),
{
    broadcast use vstd::seq_lib::group_to_multiset_ensures;

    if s.len() > 0 {
        lemma_sort_desc(s.drop_last());
        lemma_insert_desc_sorted(sort_desc(s.drop_last()), s.last());
        assert(s =~= s.drop_last().push(s.last()));
    }
}

proof fn lemma_insert_desc_at(sorted: Seq<ResultKey>, x: ResultKey, j: int)
    requires
        0 <= j <= sorted.len(),
        forall|i: int| 0 <= i < j ==> sorted[i].epoch >= x.epoch,
        j < sorted.len() ==> sorted[j].epoch < x.epoch,
    ensures
        insert_desc(sorted, x) == sorted.insert(j, x),
    decreases sorted.len(),
{
    if sorted.len() == 0 {
        assert(sorted.insert(j, x) =~= seq![x]);
    } else if j == 0 {
        assert(sorted.insert(0, x) =~= seq![x] + sorted);
    } else {
        let rest = sorted.drop_first();
        assert forall|i: int| 0 <= i < j - 1 implies rest[i].epoch >= x.epoch by {
            assert(rest[i] == sorted[i + 1]);
        }
        lemma_insert_desc_at(rest, x, j - 1);
        assert(sorted.insert(j, x) =~= seq![sorted[0]] + rest.insert(j - 1, x));
    }
}

proof fn lemma_insert_desc_contents(sorted: Seq<ResultKey>, x: ResultKey)
    ensures
        forall|i: int|
            0 <= i < insert_desc(sorted, x).len() ==> #[trigger] insert_desc(sorted, x)[i] == x
                || sorted.contains(insert_desc(sorted, x)[i]),
        insert_desc(sorted, x).len() == sorted.len() + 1,
    decreases sorted.len(),
{
    if sorted.len() > 0 && !(sorted[0].epoch < x.epoch) {
        let rest = sorted.drop_first();
        lemma_insert_desc_contents(rest, x);
        let r = insert_desc(sorted, x);
        assert forall|i: int| 0 <= i < r.len() implies #[trigger] r[i] == x || sorted.contains(
            r[i],
        ) by {
            if i == 0 {
                assert(sorted[0] == r[0]);
            } else {
                assert(r[i] == insert_desc(rest, x)[i - 1]);
                if insert_desc(rest, x)[i - 1] != x {
                    let k = choose|k: int| 0 <= k < rest.len() && rest[k] == r[i];
                    assert(sorted[k + 1] == r[i]);
                }
            }
        }
    } else if sorted.len() > 0 {
        let r = insert_desc(sorted, x);
        assert forall|i: int| 0 <= i < r.len() implies #[trigger] r[i] == x || sorted.contains(
            r[i],
        ) by {
            if i > 0 {
                assert(r[i] == sorted[i - 1]);
            }
        }
    }
}

proof fn lemma_sort_desc_valid(results: SearchResults, s: Seq<ResultKey>)
    requires
        forall|i: int| 0 <= i < s.len() ==> valid_key(results, #[trigger] s[i]),
    ensures
        sort_desc(s).len() == s.len(),
        forall|i: int| 0 <= i < sort_desc(s).len() ==> valid_key(results, #[trigger] sort_desc(s)[i]),
    decreases s.len(),
{
    if s.len() > 0 {
        let p = s.drop_last();
        assert forall|i: int| 0 <= i < p.len() implies valid_key(results, #[trigger] p[i]) by {
            assert(p[i] == s[i]);
        }
        lemma_sort_desc_valid(results, p);
        let sp = sort_desc(p);
        lemma_insert_desc_contents(sp, s.last());
        assert(valid_key(results, s[s.len() - 1]));
        assert forall|i: int| 0 <= i < sort_desc(s).len() implies valid_key(
            results,
            #[trigger] sort_desc(s)[i],
        ) by {
            let r = insert_desc(sp, s.last());
            if r[i] != s.last() {
                assert(sp.contains(r[i]));
                let k = choose|k: int| 0 <= k < sp.len() && sp[k] == r[i];
                assert(valid_key(results, sp[k]));
            }
        }
    }
}

proof fn lemma_keys_of_valid(results: SearchResults)
    requires
        total_results(results) <= usize::MAX,
    ensures
        forall|i: int| 0 <= i < keys_of(results).len() ==> valid_key(results, #[trigger] keys_of(results)[i]),
{
}

/// The keys of all results, newest first, equal times in combined order.
pub fn sorted_result_keys(results: &SearchResults) -> (r: Vec<ResultKey>)
    requires
        total_results(*results) <= usize::MAX,
    ensures
        r@ == sort_desc(keys_of(*results)),
{
    let ghost all = keys_of(*results);
    let mut sorted: Vec<ResultKey> = Vec::new();
    let no = results.observations.len();
    let ns = results.sessions.len();
    let np = results.prompts.len();
    let total = no + ns + np;
    let mut i: usize = 0;
    while i < total
        invariant
            no == results.observations@.len(),
            ns == results.sessions@.len(),
            total == all.len(),
            all == keys_of(*results),
            i <= total,
            sorted@ == sort_desc(all.subrange(0, i as int)),
        decreases total - i,
    {
        let key = if i < no {
            ResultKey { kind: 0, index: i, epoch: results.observations[i].created_at_epoch }
        } else if i < no + ns {
            ResultKey { kind: 1, index: i - no, epoch: results.sessions[i - no].created_at_epoch }
        } else {
            ResultKey {
                kind: 2,
                index: i - no - ns,
                epoch: results.prompts[i - no - ns].created_at_epoch,
            }
        };
        assert(key == all[i as int]);
        assert(all.subrange(0, i + 1).drop_last() =~= all.subrange(0, i as int));
        let mut j: usize = 0;
        while j < sorted.len() && sorted[j].epoch >= key.epoch
            invariant
                j <= sorted@.len(),
                forall|t: int| 0 <= t < j ==> sorted@[t].epoch >= key.epoch,
            decreases sorted.len() - j,
        {
            j = j + 1;
        }
        proof {
            lemma_insert_desc_at(sorted@, key, j as int);
        }
        sorted.insert(j, key);
        i = i + 1;
    }
    assert(all.subrange(0, total as int) =~= all);
    sorted
}

/// Where the line builder stands: the lines so far, the current day and file headings,
/// and the time of the last row.
pub struct LineState {
    pub lines: Seq<Seq<char>>,
    pub day: Seq<char>,
    pub file: Seq<char>,
    pub last_time: Seq<char>,
}

pub open spec fn search_table_header_text() -> Seq<char> {
    "| ID | Time | T | Title | Read |\n|----|------|---|-------|------|"@
}

pub open spec fn key_file(results: SearchResults, k: ResultKey) -> Seq<char> {
    if k.kind == 0 {
        first_file(results.observations@[k.index as int])
    } else {
        "General"@
    }
}

pub open spec fn key_row(results: SearchResults, k: ResultKey, last_time: Seq<char>) -> Seq<char> {
    if k.kind == 0 {
        observation_search_row_text(results.observations@[k.index as int], last_time)
    } else if k.kind == 1 {
        session_search_row_text(results.sessions@[k.index as int], last_time)
    } else {
        prompt_search_row_text(results.prompts@[k.index as int], last_time)
    }
}

/// One result: a day heading when the day changes, a file heading and table header when
/// the file changes, then the result's row.
pub open spec fn line_step(results: SearchResults, st: LineState, k: ResultKey) -> LineState {
    let day = date_text(k.epoch as int);
    let st1 = if day != st.day {
        LineState {
            lines: st.lines.push("### "@ + day).push(seq![]),
            day: day,
            file: seq![],
            last_time: seq![],
        }
    } else {
        st
    };
    let file = key_file(results, k);
    let st2 = if file != st1.file {
        LineState {
            lines: st1.lines.push("**"@ + file + "**"@).push(search_table_header_text()),
            day: st1.day,
            file: file,
            last_time: seq![],
        }
    } else {
        st1
    };
    LineState {
        lines: st2.lines.push(key_row(results, k, st2.last_time)),
        day: st2.day,
        file: st2.file,
        last_time: time_text(k.epoch as int),
    }
}

pub open spec fn lines_fold(results: SearchResults, init: LineState, keys: Seq<ResultKey>) -> LineState
    decreases keys.len(),
{
    if keys.len() == 0 {
        init
    } else {
        line_step(results, lines_fold(results, init, keys.drop_last()), keys.last())
    }
}

/// The first line of a non-empty result listing.
pub open spec fn summary_line(results: SearchResults, query: Seq<char>) -> Seq<char> {
    "Found "@ + nat_text(total_results(results) as nat) + " result(s) matching \""@ + query
        + "\" ("@ + nat_text(results.observations@.len()) + " obs, "@ + nat_text(
        results.sessions@.len(),
    ) + " sessions, "@ + nat_text(results.prompts@.len()) + " prompts)"@
}

/// The markdown listing of search results: newest first, grouped under day and file
/// headings, one table row per result.
pub open spec fn search_results_text(results: SearchResults, query: Seq<char>, chroma_failed: bool) -> Seq<
    char,
> {
    if total_results(results) == 0 {
        if chroma_failed {
            "Vector search failed - semantic search unavailable.\n\nYou can still use filter-only searches without a query term."@
        } else {
            "No results found matching \""@ + query + "\""@
        }
    } else {
        let init = LineState {
            lines: seq![summary_line(results, query), seq![]],
            day: seq![],
            file: seq![],
            last_time: seq![],
        };
        crate::text::join(
            lines_fold(results, init, sort_desc(keys_of(results))).lines,
            seq!['\n'],
        )
    }
}

/// Every observation's read size is small enough to estimate exactly.
pub open spec fn read_sizes_bounded(results: SearchResults) -> bool {
    forall|i: int|
        0 <= i < results.observations@.len() ==> read_size(#[trigger] results.observations@[i])
            <= max_read_size() && read_size(results.observations@[i]) <= usize::MAX
}

impl ResultFormatter {
    /// The markdown listing of search results, or a notice when there are none.
    pub fn format_search_results(&self, results: &SearchResults, query: &str, chroma_failed: bool) -> (r:
        String)
        requires
            total_results(*results) <= usize::MAX,
            read_sizes_bounded(*results),
        ensures
            r@ == search_results_text(*results, query@, chroma_failed),
    {
        let no = results.observations.len();
        let ns = results.sessions.len();
        let np = results.prompts.len();
        let total = no + ns + np;
        if total == 0 {
            if chroma_failed {
                return self.format_chroma_failure_message();
            }
            let mut v: Vec<char> = Vec::new();
            push_str(&mut v, "No results found matching \"");
            push_str(&mut v, query);
            push_str(&mut v, "\"");
            return string_from_chars(v.as_slice());
        }
        let keys = sorted_result_keys(results);
        proof {
            lemma_keys_of_valid(*results);
            lemma_sort_desc_valid(*results, keys_of(*results));
        }
        let mut first: Vec<char> = Vec::new();
        push_str(&mut first, "Found ");
        push_u64_text(&mut first, total as u64);
        push_str(&mut first, " result(s) matching \"");
        push_str(&mut first, query);
        push_str(&mut first, "\" (");
        push_u64_text(&mut first, no as u64);
        push_str(&mut first, " obs, ");
        push_u64_text(&mut first, ns as u64);
        push_str(&mut first, " sessions, ");
        push_u64_text(&mut first, np as u64);
        push_str(&mut first, " prompts)");
        assert(first@ =~= summary_line(*results, query@));
        let mut lines: Vec<Vec<char>> = Vec::new();
        lines.push(first);
        lines.push(Vec::new());
        let ghost init = LineState {
            lines: seq![summary_line(*results, query@), seq![]],
            day: seq![],
            file: seq![],
            last_time: seq![],
        };
        assert(crate::text::chars_vecs_view(lines@) =~= init.lines);
        let mut current_day: Vec<char> = Vec::new();
        let mut current_file: Vec<char> = Vec::new();
        let mut last_time: String = String::new();
        let mut i: usize = 0;
        while i < keys.len()
            invariant
                i <= keys@.len(),
                keys@ == sort_desc(keys_of(*results)),
                forall|t: int| 0 <= t < keys@.len() ==> valid_key(*results, #[trigger] keys@[t]),
                read_sizes_bounded(*results),
                ({
                    let st = lines_fold(*results, init, keys@.subrange(0, i as int));
                    &&& crate::text::chars_vecs_view(lines@) == st.lines
                    &&& current_day@ == st.day
                    &&& current_file@ == st.file
                    &&& last_time@ == st.last_time
                }),
            decreases keys.len() - i,
        {
            let k = keys[i];
            assert(keys@.subrange(0, i + 1).drop_last() =~= keys@.subrange(0, i as int));
            assert(keys@.subrange(0, i + 1).last() == k);
            assert(valid_key(*results, k));
            let day_s = format_date(k.epoch);
            let day = chars_of(day_s.as_str());
            if !crate::text::chars_eq(day.as_slice(), current_day.as_slice()) {
                let mut heading: Vec<char> = Vec::new();
                push_str(&mut heading, "### ");
                push_chars(&mut heading, day.as_slice());
                let ghost l0 = lines@;
                lines.push(heading);
                lines.push(Vec::new());
                assert(crate::text::chars_vecs_view(lines@) =~= crate::text::chars_vecs_view(l0).push(
                    "### "@ + day@,
                ).push(seq![]));
                current_day = day;
                current_file = Vec::new();
                last_time = String::new();
            }
            let file_s = if k.kind == 0 {
                extract_first_file(&results.observations[k.index])
            } else {
                "General".to_owned()
            };
            let file = chars_of(file_s.as_str());
            if !crate::text::chars_eq(file.as_slice(), current_file.as_slice()) {
                let mut heading: Vec<char> = Vec::new();
                push_str(&mut heading, "**");
                push_chars(&mut heading, file.as_slice());
                push_str(&mut heading, "**");
                let header = self.format_search_table_header();
                let ghost l0 = lines@;
                lines.push(heading);
                lines.push(chars_of(header.as_str()));
                assert(crate::text::chars_vecs_view(lines@) =~= crate::text::chars_vecs_view(l0).push(
                    "**"@ + file@ + "**"@,
                ).push(search_table_header_text()));
                current_file = file;
                last_time = String::new();
            }
            let formatted = if k.kind == 0 {
                self.format_observation_search_row(&results.observations[k.index], last_time.as_str())
            } else if k.kind == 1 {
                self.format_session_search_row(&results.sessions[k.index], last_time.as_str())
            } else {
                self.format_prompt_search_row(&results.prompts[k.index], last_time.as_str())
            };
            let ghost l0 = lines@;
            lines.push(chars_of(formatted.row.as_str()));
            assert(crate::text::chars_vecs_view(lines@) =~= crate::text::chars_vecs_view(l0).push(
                formatted.row@,
            ));
            last_time = formatted.time;
            i = i + 1;
        }
        assert(keys@.subrange(0, keys@.len() as int) =~= keys@);
        let nl = vec!['\n'];
        let joined = crate::text::join_chars(&lines, nl.as_slice());
        assert(nl@ =~= seq!['\n']);
        string_from_chars(joined.as_slice())
    }
}

} // verus!
