//! Parsing of the observer agent's XML replies into observations and summaries.
use vstd::prelude::*;

use crate::text::{
    chars_eq_str, chars_of, chars_vecs_view, contains, contains_exec, copy_range, find,
    find_from, find_from_exec, lemma_find_from_bounds, opt_string, opt_view, push_chars,
    strings_from_char_vecs, strs_view, trim, trim_bounds, trim_chars, clone_opt_string,
    nonblank_trimmed, nonblank_trimmed_chars,
    clone_strings,
};
use crate::model::{BatchStoreResult, ObservationInput, SummaryInput};

verus! {

pub open spec fn tag_open(name: Seq<char>) -> Seq<char> {
    seq!['<'] + name + seq!['>']
}

pub open spec fn tag_close(name: Seq<char>) -> Seq<char> {
    seq!['<', '/'] + name + seq!['>']
}

/// The contents of the successive `open ... close` blocks of `s` from index `pos` on.
pub open spec fn blocks_from(s: Seq<char>, open: Seq<char>, close: Seq<char>, pos: int) -> Seq<
    Seq<char>,
>
    decreases s.len() + 1 - pos,
{
    if pos < 0 || pos > s.len() || open.len() == 0 {
        seq![]
    } else {
        match find_from(s, open, pos) {
            None => seq![],
            Some(st) => {
                let cs = st + open.len();
                match find_from(s, close, cs) {
                    None => seq![],
                    Some(ce) => {
                        proof {
                            lemma_find_from_bounds(s, open, pos);
                            lemma_find_from_bounds(s, close, cs);
                        }
                        seq![s.subrange(cs, ce)] + blocks_from(s, open, close, ce + close.len())
                    },
                }
            },
        }
    }
}

/// The contents of every `<tag>...</tag>` block of `s`, in order.
pub open spec fn xml_blocks_spec(s: Seq<char>, tag: Seq<char>) -> Seq<Seq<char>> {
    blocks_from(s, tag_open(tag), tag_close(tag), 0)
}

/// The untrimmed contents of the first `<name>...</name>` block of `s`.
pub open spec fn raw_block(s: Seq<char>, name: Seq<char>) -> Option<Seq<char>> {
    let open = tag_open(name);
    match find(s, open) {
        None => None,
        Some(a) => match find_from(s, tag_close(name), a + open.len()) {
            None => None,
            Some(b) => Some(s.subrange(a + open.len(), b)),
        },
    }
}

/// The trimmed contents of the first `<name>` block, absent when missing or blank.
pub open spec fn field(s: Seq<char>, name: Seq<char>) -> Option<Seq<char>> {
    match raw_block(s, name) {
        None => None,
        Some(v) => if trim(v).len() == 0 {
            None
        } else {
            Some(trim(v))
        },
    }
}

/// The `<element>` entries of the first `<array>` block of `s`.
pub open spec fn array_elements(s: Seq<char>, array: Seq<char>, element: Seq<char>) -> Seq<
    Seq<char>,
> {
    match raw_block(s, array) {
        None => seq![],
        Some(c) => nonblank_trimmed(xml_blocks_spec(c, element)),
    }
}

proof fn lemma_blocks_step(s: Seq<char>, open: Seq<char>, close: Seq<char>, pos: int)
    requires
        0 <= pos <= s.len(),
        open.len() > 0,
    ensures
        match find_from(s, open, pos) {
            None => blocks_from(s, open, close, pos) == Seq::<Seq<char>>::empty(),
            Some(st) => {
                &&& pos <= st
                &&& st + open.len() <= s.len()
                &&& match find_from(s, close, st + open.len()) {
                    None => blocks_from(s, open, close, pos) == Seq::<Seq<char>>::empty(),
                    Some(ce) => {
                        &&& st + open.len() <= ce
                        &&& ce + close.len() <= s.len()
                        &&& blocks_from(s, open, close, pos) == seq![
                            s.subrange(st + open.len(), ce),
                        ] + blocks_from(s, open, close, ce + close.len())
                    },
                }
            },
        },
{
    lemma_find_from_bounds(s, open, pos);
    if let Some(st) = find_from(s, open, pos) {
        lemma_find_from_bounds(s, close, st + open.len());
    }
}

fn tag_open_chars(name: &[char]) -> (v: Vec<char>)
    ensures
        v@ == tag_open(name@),
{
    let mut v: Vec<char> = Vec::new();
    v.push('<');
    push_chars(&mut v, name);
    v.push('>');
    assert(v@ =~= tag_open(name@));
    v
}

fn tag_close_chars(name: &[char]) -> (v: Vec<char>)
    ensures
        v@ == tag_close(name@),
{
    let mut v: Vec<char> = Vec::new();
    v.push('<');
    v.push('/');
    push_chars(&mut v, name);
    v.push('>');
    assert(v@ =~= tag_close(name@));
    v
}

/// The contents of every `<tag>...</tag>` block of `s`.
fn xml_blocks_chars(s: &[char], tag: &[char]) -> (r: Vec<Vec<char>>)
    ensures
        chars_vecs_view(r@) == xml_blocks_spec(s@, tag@),
{
    let open = tag_open_chars(tag);
    let close = tag_close_chars(tag);
    let n = s.len();
    let mut out: Vec<Vec<char>> = Vec::new();
    let mut pos: usize = 0;
    loop
        invariant
            n == s@.len(),
            pos <= s@.len(),
            open@ == tag_open(tag@),
            close@ == tag_close(tag@),
            chars_vecs_view(out@) + blocks_from(s@, open@, close@, pos as int) == xml_blocks_spec(
                s@,
                tag@,
            ),
        decreases s@.len() - pos,
    {
        proof {
            lemma_blocks_step(s@, open@, close@, pos as int);
        }
        match find_from_exec(s, open.as_slice(), pos) {
            None => {
                assert(chars_vecs_view(out@) + Seq::<Seq<char>>::empty() =~= chars_vecs_view(
                    out@,
                ));
                return out;
            },
            Some(st) => {
                let cs = st + open.len();
                match find_from_exec(s, close.as_slice(), cs) {
                    None => {
                        assert(chars_vecs_view(out@) + Seq::<Seq<char>>::empty()
                            =~= chars_vecs_view(out@));
                        return out;
                    },
                    Some(ce) => {
                        let block = copy_range(s, cs, ce);
                        let ghost out0 = out@;
                        out.push(block);
                        assert(chars_vecs_view(out@) =~= chars_vecs_view(out0).push(block@));
                        assert(chars_vecs_view(out@) + blocks_from(
                            s@,
                            open@,
                            close@,
                            ce + close@.len(),
                        ) =~= chars_vecs_view(out0) + (seq![block@] + blocks_from(
                            s@,
                            open@,
                            close@,
                            ce + close@.len(),
                        )));
                        pos = ce + close.len();
                    },
                }
            },
        }
    }
}

/// Absolute bounds of the contents of the first `<name>...</name>` block of `s`.
fn raw_block_bounds(s: &[char], name: &[char]) -> (r: Option<(usize, usize)>)
    ensures
        match r {
            Some((a, b)) => a <= b <= s@.len() && raw_block(s@, name@) == Some(
                s@.subrange(a as int, b as int),
            ),
            None => raw_block(s@, name@) is None,
        },
{
    let open = tag_open_chars(name);
    let close = tag_close_chars(name);
    let n = s.len();
    match find_from_exec(s, open.as_slice(), 0) {
        None => None,
        Some(a) => {
            proof {
                lemma_find_from_bounds(s@, open@, 0);
            }
            let start = a + open.len();
            match find_from_exec(s, close.as_slice(), start) {
                None => None,
                Some(b) => {
                    proof {
                        lemma_find_from_bounds(s@, close@, start as int);
                    }
                    Some((start, b))
                },
            }
        },
    }
}

/// The untrimmed contents of the first `<name>...</name>` block of `s`.
fn extract_raw_block_chars(s: &[char], name: &[char]) -> (r: Option<Vec<char>>)
    ensures
        match r {
            Some(v) => raw_block(s@, name@) == Some(v@),
            None => raw_block(s@, name@) is None,
        },
{
    match raw_block_bounds(s, name) {
        None => None,
        Some((a, b)) => Some(copy_range(s, a, b)),
    }
}

/// The trimmed contents of the first `<name>` block of `s`, absent when blank.
fn extract_field_chars(s: &[char], name: &[char]) -> (r: Option<Vec<char>>)
    ensures
        match r {
            Some(v) => field(s@, name@) == Some(v@),
            None => field(s@, name@) is None,
        },
{
    match raw_block_bounds(s, name) {
        None => None,
        Some((a, b)) => {
            let (ta, tb) = trim_bounds(s, a, b);
            if ta == tb {
                None
            } else {
                Some(copy_range(s, ta, tb))
            }
        },
    }
}

/// The `<element>` entries of the first `<array>` block of `s`.
fn extract_array_elements_chars(s: &[char], array: &[char], element: &[char]) -> (r: Vec<
    Vec<char>,
>)
    ensures
        chars_vecs_view(r@) == array_elements(s@, array@, element@),
{
    match extract_raw_block_chars(s, array) {
        None => {
            let r: Vec<Vec<char>> = Vec::new();
            assert(chars_vecs_view(r@) =~= Seq::<Seq<char>>::empty());
            r
        },
        Some(c) => {
            let blocks = xml_blocks_chars(c.as_slice(), element);
            nonblank_trimmed_chars(&blocks)
        },
    }
}


/// The observation kinds an agent may report; anything else becomes `discovery`.
pub open spec fn is_valid_observation_type(t: Seq<char>) -> bool {
    t == "discovery"@ || t == "bugfix"@ || t == "refactor"@ || t == "decision"@ || t
        == "implementation"@ || t == "constraint"@
}

/// The kind of the observation whose block contents are `content`.
pub open spec fn observation_type_of(content: Seq<char>) -> Seq<char> {
    match field(content, "type"@) {
        Some(t) => if is_valid_observation_type(t) {
            t
        } else {
            "discovery"@
        },
        None => "discovery"@,
    }
}

/// `items` without the entries equal to `x`, in order.
pub open spec fn without(items: Seq<Seq<char>>, x: Seq<char>) -> Seq<Seq<char>>
    decreases items.len(),
{
    if items.len() == 0 {
        seq![]
    } else {
        let rest = without(items.drop_last(), x);
        if items.last() == x {
            rest
        } else {
            rest.push(items.last())
        }
    }
}

proof fn lemma_without_excludes(items: Seq<Seq<char>>, x: Seq<char>)
    ensures
        forall|i: int| 0 <= i < without(items, x).len() ==> #[trigger] without(items, x)[i] != x,
    decreases items.len(),
{
    if items.len() > 0 {
        lemma_without_excludes(items.drop_last(), x);
        let rest = without(items.drop_last(), x);
        if items.last() != x {
            assert forall|i: int| 0 <= i < rest.push(items.last()).len() implies #[trigger] rest.push(
                items.last(),
            )[i] != x by {
                if i < rest.len() {
                    assert(rest.push(items.last())[i] == rest[i]);
                }
            }
        }
    }
}

/// A parsed observation always has one of the known kinds, and its concepts never repeat
/// its kind.
pub proof fn lemma_parsed_observation_kind(o: ParsedObservation, content: Seq<char>)
    requires
        parsed_observation_is(o, content),
    ensures
        is_valid_observation_type(o.observation_type@),
        forall|i: int| 0 <= i < o.concepts@.len() ==> (#[trigger] o.concepts@[i])@ != o.observation_type@,
{
    lemma_without_excludes(array_elements(content, "concepts"@, "concept"@), observation_type_of(content));
    assert forall|i: int| 0 <= i < o.concepts@.len() implies (#[trigger] o.concepts@[i])@ != o.observation_type@ by {
        assert(strs_view(o.concepts@)[i] == o.concepts@[i]@);
    }
}

/// The kind of a parsed observation: the reported `<type>` is kept exactly when it is one of
/// `discovery`, `bugfix`, `refactor`, `decision`, `implementation` or `constraint`; a missing
/// or unknown type becomes `discovery`.
pub proof fn law_observation_kind(o: ParsedObservation, content: Seq<char>)
    requires
        parsed_observation_is(o, content),
    ensures
        o.observation_type@ == "discovery"@ || o.observation_type@ == "bugfix"@ || o.observation_type@
            == "refactor"@ || o.observation_type@ == "decision"@ || o.observation_type@
            == "implementation"@ || o.observation_type@ == "constraint"@,
        forall|t: Seq<char>|
            field(content, "type"@) == Some(t) && (t == "discovery"@ || t == "bugfix"@ || t == "refactor"@
                || t == "decision"@ || t == "implementation"@ || t == "constraint"@)
                ==> o.observation_type@ == t,
        forall|t: Seq<char>|
            field(content, "type"@) == Some(t) && !(t == "discovery"@ || t == "bugfix"@ || t == "refactor"@
                || t == "decision"@ || t == "implementation"@ || t == "constraint"@)
                ==> o.observation_type@ == "discovery"@,
        field(content, "type"@) is None ==> o.observation_type@ == "discovery"@,
{
}

/// `o` is what the observation block with contents `content` parses to.
pub open spec fn parsed_observation_is(o: ParsedObservation, content: Seq<char>) -> bool {
    &&& o.observation_type@ == observation_type_of(content)
    &&& opt_view(o.title) == field(content, "title"@)
    &&& opt_view(o.subtitle) == field(content, "subtitle"@)
    &&& strs_view(o.facts@) == array_elements(content, "facts"@, "fact"@)
    &&& opt_view(o.narrative) == field(content, "narrative"@)
    &&& strs_view(o.concepts@) == without(
        array_elements(content, "concepts"@, "concept"@),
        observation_type_of(content),
    )
    &&& strs_view(o.files_read@) == array_elements(content, "files_read"@, "file"@)
    &&& strs_view(o.files_modified@) == array_elements(content, "files_modified"@, "file"@)
}

/// A summary is reported unless one of its five main fields is present.
pub open spec fn summary_has_content(content: Seq<char>) -> bool {
    field(content, "request"@) is Some || field(content, "investigated"@) is Some || field(
        content,
        "learned"@,
    ) is Some || field(content, "completed"@) is Some || field(content, "next_steps"@) is Some
}

/// `text` carries a summary: no `<skip_summary`, a `<summary>` block, and some content in it.
pub open spec fn has_summary(text: Seq<char>) -> bool {
    &&& !contains(text, "<skip_summary"@)
    &&& xml_blocks_spec(text, "summary"@).len() > 0
    &&& summary_has_content(xml_blocks_spec(text, "summary"@)[0])
}

/// `p` holds the fields of the summary block with contents `content`.
pub open spec fn parsed_summary_is(p: ParsedSummary, content: Seq<char>) -> bool {
    &&& opt_view(p.request) == field(content, "request"@)
    &&& opt_view(p.investigated) == field(content, "investigated"@)
    &&& opt_view(p.learned) == field(content, "learned"@)
    &&& opt_view(p.completed) == field(content, "completed"@)
    &&& opt_view(p.next_steps) == field(content, "next_steps"@)
    &&& opt_view(p.notes) == field(content, "notes"@)
}

#[derive(Debug, Clone, PartialEq, Eq)]
pub struct ConversationMessage {
    pub role: String,
    pub content: String,
}

#[derive(Debug, Clone, Default, PartialEq, Eq)]
pub struct ActiveSession {
    pub session_db_id: i64,
    pub content_session_id: String,
    pub memory_session_id: Option<String>,
    pub project: String,
    pub platform_source: String,
    pub last_prompt_number: Option<i64>,
    pub earliest_pending_timestamp: Option<i64>,
    pub conversation_history: Vec<ConversationMessage>,
    pub processing_message_ids: Vec<i64>,
    pub last_generator_activity_epoch: Option<i64>,
}

#[derive(Debug, Clone, PartialEq, Eq)]
pub struct ParsedObservation {
    pub observation_type: String,
    pub title: Option<String>,
    pub subtitle: Option<String>,
    pub facts: Vec<String>,
    pub narrative: Option<String>,
    pub concepts: Vec<String>,
    pub files_read: Vec<String>,
    pub files_modified: Vec<String>,
}

#[derive(Debug, Clone, PartialEq, Eq)]
pub struct ParsedSummary {
    pub request: Option<String>,
    pub investigated: Option<String>,
    pub learned: Option<String>,
    pub completed: Option<String>,
    pub next_steps: Option<String>,
    pub notes: Option<String>,
}

fn is_valid_observation_type_exec(t: &[char]) -> (r: bool)
    ensures
        r == is_valid_observation_type(t@),
{
    chars_eq_str(t, "discovery") || chars_eq_str(t, "bugfix") || chars_eq_str(t, "refactor")
        || chars_eq_str(t, "decision") || chars_eq_str(t, "implementation") || chars_eq_str(
        t,
        "constraint",
    )
}

fn without_chars(items: Vec<Vec<char>>, x: &[char]) -> (r: Vec<Vec<char>>)
    ensures
        chars_vecs_view(r@) == without(chars_vecs_view(items@), x@),
{
    let mut out: Vec<Vec<char>> = Vec::new();
    let mut i: usize = 0;
    while i < items.len()
        invariant
            i <= items@.len(),
            chars_vecs_view(out@) == without(chars_vecs_view(items@.subrange(0, i as int)), x@),
        decreases items.len() - i,
    {
        let ghost out0 = out@;
        assert(chars_vecs_view(items@.subrange(0, i + 1)).drop_last() =~= chars_vecs_view(
            items@.subrange(0, i as int),
        ));
        assert(chars_vecs_view(items@.subrange(0, i + 1)).last() == items@[i as int]@);
        if !crate::text::chars_eq(items[i].as_slice(), x) {
            let item = items[i].clone();
            out.push(item);
            assert(chars_vecs_view(out@) =~= chars_vecs_view(out0).push(items@[i as int]@));
        }
        i = i + 1;
    }
    assert(items@.subrange(0, items@.len() as int) =~= items@);
    out
}

fn field_string(content: &[char], name: &str) -> (r: Option<String>)
    ensures
        opt_view(r) == field(content@, name@),
{
    let n = chars_of(name);
    let v = extract_field_chars(content, n.as_slice());
    opt_string(v)
}

fn array_strings(content: &[char], array: &str, element: &str) -> (r: Vec<String>)
    ensures
        strs_view(r@) == array_elements(content@, array@, element@),
{
    let a = chars_of(array);
    let e = chars_of(element);
    let v = extract_array_elements_chars(content, a.as_slice(), e.as_slice());
    strings_from_char_vecs(&v)
}

/// Parses the contents of one `<observation>` block.
fn parse_observation_block(content: &[char]) -> (o: ParsedObservation)
    ensures
        parsed_observation_is(o, content@),
{
    let kind_tag = chars_of("type");
    let kind: Vec<char> = match extract_field_chars(content, kind_tag.as_slice()) {
        Some(t) => if is_valid_observation_type_exec(t.as_slice()) {
            t
        } else {
            chars_of("discovery")
        },
        None => chars_of("discovery"),
    };
    let concepts_array = chars_of("concepts");
    let concept_element = chars_of("concept");
    let all_concepts = extract_array_elements_chars(
        content,
        concepts_array.as_slice(),
        concept_element.as_slice(),
    );
    let concepts = without_chars(all_concepts, kind.as_slice());
    ParsedObservation {
        observation_type: crate::text::string_from_chars(kind.as_slice()),
        title: field_string(content, "title"),
        subtitle: field_string(content, "subtitle"),
        facts: array_strings(content, "facts", "fact"),
        narrative: field_string(content, "narrative"),
        concepts: strings_from_char_vecs(&concepts),
        files_read: array_strings(content, "files_read", "file"),
        files_modified: array_strings(content, "files_modified", "file"),
    }
}

/// Every `<observation>` block of an agent reply, parsed in order.
pub fn parse_observations(text: &str) -> (r: Vec<ParsedObservation>)
    ensures
        r@.len() == xml_blocks_spec(text@, "observation"@).len(),
        forall|i: int|
            0 <= i < r@.len() ==> parsed_observation_is(
                #[trigger] r@[i],
                xml_blocks_spec(text@, "observation"@)[i],
            ),
{
    let s = chars_of(text);
    let tag = chars_of("observation");
    let blocks = xml_blocks_chars(s.as_slice(), tag.as_slice());
    let ghost bs = chars_vecs_view(blocks@);
    assert(bs.len() == blocks@.len());
    let mut out: Vec<ParsedObservation> = Vec::new();
    let mut i: usize = 0;
    while i < blocks.len()
        invariant
            i <= blocks@.len(),
            bs == chars_vecs_view(blocks@),
            bs == xml_blocks_spec(text@, "observation"@),
            out@.len() == i,
            forall|j: int| 0 <= j < i ==> parsed_observation_is(#[trigger] out@[j], bs[j]),
        decreases blocks.len() - i,
    {
        assert(bs[i as int] == blocks@[i as int]@);
        let o = parse_observation_block(blocks[i].as_slice());
        out.push(o);
        i = i + 1;
    }
    out
}

/// The `<summary>` block of an agent reply, unless skipped, missing or empty.
pub fn parse_summary(text: &str) -> (r: Option<ParsedSummary>)
    ensures
        r is Some <==> has_summary(text@),
        r matches Some(p) ==> parsed_summary_is(p, xml_blocks_spec(text@, "summary"@)[0]),
{
    let s = chars_of(text);
    let skip = chars_of("<skip_summary");
    if contains_exec(s.as_slice(), skip.as_slice()) {
        return None;
    }
    let tag = chars_of("summary");
    let blocks = xml_blocks_chars(s.as_slice(), tag.as_slice());
    if blocks.len() == 0 {
        return None;
    }
    let content = blocks[0].as_slice();
    assert(content@ == xml_blocks_spec(text@, "summary"@)[0]);
    let summary = ParsedSummary {
        request: field_string(content, "request"),
        investigated: field_string(content, "investigated"),
        learned: field_string(content, "learned"),
        completed: field_string(content, "completed"),
        next_steps: field_string(content, "next_steps"),
        notes: field_string(content, "notes"),
    };
    if summary.request.is_none() && summary.investigated.is_none() && summary.learned.is_none()
        && summary.completed.is_none() && summary.next_steps.is_none() {
        return None;
    }
    Some(summary)
}


#[derive(Debug, Clone, PartialEq, Eq)]
pub struct ObservationBroadcast {
    pub id: i64,
    pub memory_session_id: String,
    pub session_id: String,
    pub platform_source: String,
    pub observation_type: String,
    pub title: Option<String>,
    pub subtitle: Option<String>,
    pub narrative: Option<String>,
    pub facts: Vec<String>,
    pub concepts: Vec<String>,
    pub files_read: Vec<String>,
    pub files_modified: Vec<String>,
    pub project: String,
    pub prompt_number: Option<i64>,
    pub created_at_epoch: i64,
}

#[derive(Debug, Clone, PartialEq, Eq)]
pub struct SummaryBroadcast {
    pub id: i64,
    pub session_id: String,
    pub platform_source: String,
    pub request: Option<String>,
    pub investigated: Option<String>,
    pub learned: Option<String>,
    pub completed: Option<String>,
    pub next_steps: Option<String>,
    pub notes: Option<String>,
    pub project: String,
    pub prompt_number: Option<i64>,
    pub created_at_epoch: i64,
}

/// Receives the live events that processing a reply produces.
pub trait ResponseBroadcaster {
    fn broadcast_observation(&self, observation: ObservationBroadcast);

    fn broadcast_summary(&self, summary: SummaryBroadcast);

    fn broadcast_processing_status(&self);
}

#[derive(Debug, Clone)]
pub struct ProcessAgentResponseOptions {
    pub discovery_tokens: Option<i64>,
    pub original_timestamp: Option<i64>,
    pub agent_name: String,
    pub model_id: Option<String>,
}

impl Default for ProcessAgentResponseOptions {
    fn default() -> (r: Self)
        ensures
            r.discovery_tokens is None,
            r.original_timestamp is None,
            r.agent_name@ == "agent"@,
            r.model_id is None,
    {
        Self {
            discovery_tokens: None,
            original_timestamp: None,
            agent_name: "agent".to_owned(),
            model_id: None,
        }
    }
}

#[derive(Debug, Clone, PartialEq, Eq)]
pub struct ProcessedAgentResponse {
    pub observations: Vec<ParsedObservation>,
    pub summary: Option<ParsedSummary>,
    pub storage: BatchStoreResult,
    pub discarded_non_xml: bool,
}

#[derive(Debug, Clone, PartialEq, Eq)]
pub enum ResponseProcessorError {
    /// Observations cannot be stored before the agent's memory session id is known.
    MissingMemorySessionId,
    /// The storage layer failed; the message is its error text.
    Database(String),
}

/// What a reply parses to, ready for the storage layer.
#[derive(Debug, Clone, PartialEq, Eq)]
pub struct PreparedAgentResponse {
    pub observations: Vec<ParsedObservation>,
    pub summary: Option<ParsedSummary>,
    pub discarded_non_xml: bool,
    pub memory_session_id: String,
    pub observation_inputs: Vec<ObservationInput>,
    pub summary_input: Option<SummaryInput>,
}

/// A non-blank reply that holds no observation, no summary and none of their tags.
pub open spec fn is_discarded_non_xml(text: Seq<char>) -> bool {
    &&& trim(text).len() > 0
    &&& xml_blocks_spec(text, "observation"@).len() == 0
    &&& !has_summary(text)
    &&& !contains(text, "<observation>"@)
    &&& !contains(text, "<summary>"@)
    &&& !contains(text, "<skip_summary"@)
}

/// `input` is the storage form of the parsed observation `o`.
pub open spec fn observation_input_is(input: ObservationInput, o: ParsedObservation) -> bool {
    &&& input.observation_type == o.observation_type
    &&& input.title == o.title
    &&& input.subtitle == o.subtitle
    &&& input.facts matches Some(v) && v@ == o.facts@
    &&& input.narrative == o.narrative
    &&& input.concepts matches Some(v) && v@ == o.concepts@
    &&& input.files_read matches Some(v) && v@ == o.files_read@
    &&& input.files_modified matches Some(v) && v@ == o.files_modified@
    &&& input.memory_session_id@ == Seq::<char>::empty()
    &&& input.project@ == Seq::<char>::empty()
    &&& input.created_at@ == Seq::<char>::empty()
    &&& input.created_at_epoch == 0
    &&& input.generated_by_model is None
}

pub open spec fn or_empty(o: Option<String>) -> Seq<char> {
    match o {
        Some(s) => s@,
        None => Seq::empty(),
    }
}

/// `input` is the storage form of the parsed summary `p` of a session.
pub open spec fn summary_input_is(
    input: SummaryInput,
    p: ParsedSummary,
    memory_session_id: Seq<char>,
    project: Seq<char>,
) -> bool {
    &&& input.memory_session_id@ == memory_session_id
    &&& input.project@ == project
    &&& opt_view(input.request) == Some(or_empty(p.request))
    &&& opt_view(input.investigated) == Some(or_empty(p.investigated))
    &&& opt_view(input.learned) == Some(or_empty(p.learned))
    &&& opt_view(input.completed) == Some(or_empty(p.completed))
    &&& opt_view(input.next_steps) == Some(or_empty(p.next_steps))
    &&& input.notes == p.notes
    &&& input.files_read is None
    &&& input.files_edited is None
    &&& input.prompt_number is None
    &&& input.discovery_tokens is None
    &&& input.created_at@ == Seq::<char>::empty()
    &&& input.created_at_epoch == 0
    &&& input.merged_into_project is None
}

fn string_or_empty(o: &Option<String>) -> (r: String)
    ensures
        r@ == or_empty(*o),
{
    match o {
        Some(s) => s.clone(),
        None => String::new(),
    }
}

fn parsed_observation_to_input(obs: &ParsedObservation) -> (r: ObservationInput)
    ensures
        observation_input_is(r, *obs),
{
    ObservationInput {
        memory_session_id: String::new(),
        project: String::new(),
        observation_type: obs.observation_type.clone(),
        title: clone_opt_string(&obs.title),
        subtitle: clone_opt_string(&obs.subtitle),
        facts: Some(clone_strings(&obs.facts)),
        narrative: clone_opt_string(&obs.narrative),
        concepts: Some(clone_strings(&obs.concepts)),
        files_read: Some(clone_strings(&obs.files_read)),
        files_modified: Some(clone_strings(&obs.files_modified)),
        created_at: String::new(),
        created_at_epoch: 0,
        generated_by_model: None,
    }
}

fn parsed_summary_to_input(summary: &ParsedSummary, memory_session_id: &str, project: &str) -> (r:
    SummaryInput)
    ensures
        summary_input_is(r, *summary, memory_session_id@, project@),
{
    SummaryInput {
        memory_session_id: memory_session_id.to_owned(),
        project: project.to_owned(),
        request: Some(string_or_empty(&summary.request)),
        investigated: Some(string_or_empty(&summary.investigated)),
        learned: Some(string_or_empty(&summary.learned)),
        completed: Some(string_or_empty(&summary.completed)),
        next_steps: Some(string_or_empty(&summary.next_steps)),
        files_read: None,
        files_edited: None,
        notes: clone_opt_string(&summary.notes),
        prompt_number: None,
        discovery_tokens: None,
        created_at: String::new(),
        created_at_epoch: 0,
        merged_into_project: None,
    }
}

/// The current time in milliseconds since the Unix epoch.
///
/// Trusted: reads `std::time::SystemTime::now()`; nothing is promised of the value.
#[verifier::external_body]
fn now_ms() -> i64 {
    std::time::SystemTime::now().duration_since(std::time::UNIX_EPOCH).unwrap_or_default().as_millis() as i64
}

/// The first half of processing an agent reply: records the reply in the session, parses
/// it, and builds what the storage layer stores. Fails, after recording the reply, when the
/// session has no memory session id yet.
pub fn prepare_agent_response(text: &str, session: &mut ActiveSession) -> (r: Result<
    PreparedAgentResponse,
    ResponseProcessorError,
>)
    ensures
        final(session).last_generator_activity_epoch is Some,
        text@.len() > 0 ==> final(session).conversation_history@.len() == old(session).conversation_history@.len() + 1 && final(session).conversation_history@.drop_last()
            == old(session).conversation_history@ && final(session).conversation_history@.last().role@ == "assistant"@ && final(session).conversation_history@.last().content@ == text@,
        text@.len() == 0 ==> final(session).conversation_history == old(session).conversation_history,
        final(session).session_db_id == old(session).session_db_id,
        final(session).content_session_id == old(session).content_session_id,
        final(session).memory_session_id == old(session).memory_session_id,
        final(session).project == old(session).project,
        final(session).platform_source == old(session).platform_source,
        final(session).last_prompt_number == old(session).last_prompt_number,
        final(session).earliest_pending_timestamp == old(session).earliest_pending_timestamp,
        final(session).processing_message_ids == old(session).processing_message_ids,
        r is Err <==> old(session).memory_session_id is None,
        r matches Err(e) ==> e == ResponseProcessorError::MissingMemorySessionId,
        r matches Ok(p) ==> {
            &&& Some(p.memory_session_id) == old(session).memory_session_id
            &&& p.observations@.len() == xml_blocks_spec(text@, "observation"@).len()
            &&& (forall|i: int|
                0 <= i < p.observations@.len() ==> parsed_observation_is(
                    #[trigger] p.observations@[i],
                    xml_blocks_spec(text@, "observation"@)[i],
                ))
            &&& (p.summary is Some <==> has_summary(text@))
            &&& (p.summary matches Some(sm) ==> parsed_summary_is(
                sm,
                xml_blocks_spec(text@, "summary"@)[0],
            ))
            &&& p.discarded_non_xml == is_discarded_non_xml(text@)
            &&& p.observation_inputs@.len() == p.observations@.len()
            &&& (forall|i: int|
                0 <= i < p.observations@.len() ==> observation_input_is(
                    #[trigger] p.observation_inputs@[i],
                    p.observations@[i],
                ))
            &&& (p.summary_input is Some <==> p.summary is Some)
            &&& (p.summary matches Some(sm) ==> summary_input_is(
                p.summary_input->Some_0,
                sm,
                p.memory_session_id@,
                old(session).project@,
            ))
        },
{
    session.last_generator_activity_epoch = Some(now_ms());
    if !text.is_empty() {
        session.conversation_history.push(
            ConversationMessage { role: "assistant".to_owned(), content: text.to_owned() },
        );
        assert(session.conversation_history@.drop_last() =~= old(session).conversation_history@);
    }
    let observations = parse_observations(text);
    let summary = parse_summary(text);
    let chars = chars_of(text);
    let (ta, tb) = trim_bounds(chars.as_slice(), 0, chars.len());
    assert(chars@.subrange(0, chars@.len() as int) =~= chars@);
    let open_observation = chars_of("<observation>");
    let open_summary = chars_of("<summary>");
    let skip_summary = chars_of("<skip_summary");
    let discarded_non_xml = ta < tb && observations.len() == 0 && summary.is_none()
        && !contains_exec(chars.as_slice(), open_observation.as_slice()) && !contains_exec(
        chars.as_slice(),
        open_summary.as_slice(),
    ) && !contains_exec(chars.as_slice(), skip_summary.as_slice());
    let memory_session_id = match &session.memory_session_id {
        Some(id) => id.clone(),
        None => return Err(ResponseProcessorError::MissingMemorySessionId),
    };
    let mut observation_inputs: Vec<ObservationInput> = Vec::new();
    let mut i: usize = 0;
    while i < observations.len()
        invariant
            i <= observations@.len(),
            observation_inputs@.len() == i,
            forall|j: int|
                0 <= j < i ==> observation_input_is(
                    #[trigger] observation_inputs@[j],
                    observations@[j],
                ),
        decreases observations.len() - i,
    {
        observation_inputs.push(parsed_observation_to_input(&observations[i]));
        i = i + 1;
    }
    let summary_input = match &summary {
        Some(sm) => Some(parsed_summary_to_input(sm, memory_session_id.as_str(), session.project.as_str())),
        None => None,
    };
    Ok(PreparedAgentResponse {
        observations,
        summary,
        discarded_non_xml,
        memory_session_id,
        observation_inputs,
        summary_input,
    })
}

/// `b` announces the `i`-th parsed observation under its stored id.
pub open spec fn observation_broadcast_is(
    b: ObservationBroadcast,
    o: ParsedObservation,
    id: i64,
    storage: BatchStoreResult,
    session: ActiveSession,
    memory_session_id: Seq<char>,
) -> bool {
    &&& b.id == id
    &&& b.memory_session_id@ == memory_session_id
    &&& b.session_id == session.content_session_id
    &&& b.platform_source == session.platform_source
    &&& b.observation_type == o.observation_type
    &&& b.title == o.title
    &&& b.subtitle == o.subtitle
    &&& b.narrative == o.narrative
    &&& b.facts@ == o.facts@
    &&& b.concepts@ == o.concepts@
    &&& b.files_read@ == o.files_read@
    &&& b.files_modified@ == o.files_modified@
    &&& b.project == session.project
    &&& b.prompt_number == session.last_prompt_number
    &&& b.created_at_epoch == storage.created_at_epoch
}

pub open spec fn min_len(a: int, b: int) -> int {
    if a <= b {
        a
    } else {
        b
    }
}

/// The live events for the stored observations: one for each parsed observation that the
/// storage layer gave an id, in order.
pub fn observation_broadcasts(
    observations: &Vec<ParsedObservation>,
    storage: &BatchStoreResult,
    session: &ActiveSession,
    memory_session_id: &str,
) -> (r: Vec<ObservationBroadcast>)
    ensures
        r@.len() == min_len(observations@.len() as int, storage.observation_ids@.len() as int),
        forall|i: int|
            0 <= i < r@.len() ==> observation_broadcast_is(
                #[trigger] r@[i],
                observations@[i],
                storage.observation_ids@[i],
                *storage,
                *session,
                memory_session_id@,
            ),
{
    let mut out: Vec<ObservationBroadcast> = Vec::new();
    let mut i: usize = 0;
    while i < observations.len() && i < storage.observation_ids.len()
        invariant
            i <= observations@.len(),
            i <= storage.observation_ids@.len(),
            out@.len() == i,
            forall|j: int|
                0 <= j < i ==> observation_broadcast_is(
                    #[trigger] out@[j],
                    observations@[j],
                    storage.observation_ids@[j],
                    *storage,
                    *session,
                    memory_session_id@,
                ),
        decreases observations.len() - i,
    {
        let o = &observations[i];
        out.push(
            ObservationBroadcast {
                id: storage.observation_ids[i],
                memory_session_id: memory_session_id.to_owned(),
                session_id: session.content_session_id.clone(),
                platform_source: session.platform_source.clone(),
                observation_type: o.observation_type.clone(),
                title: clone_opt_string(&o.title),
                subtitle: clone_opt_string(&o.subtitle),
                narrative: clone_opt_string(&o.narrative),
                facts: clone_strings(&o.facts),
                concepts: clone_strings(&o.concepts),
                files_read: clone_strings(&o.files_read),
                files_modified: clone_strings(&o.files_modified),
                project: session.project.clone(),
                prompt_number: session.last_prompt_number,
                created_at_epoch: storage.created_at_epoch,
            },
        );
        i = i + 1;
    }
    out
}

/// The live event for the stored summary, when there is a summary and it got an id.
pub fn summary_broadcast(
    summary: &Option<ParsedSummary>,
    storage: &BatchStoreResult,
    session: &ActiveSession,
) -> (r: Option<SummaryBroadcast>)
    ensures
        r is Some <==> (summary is Some && storage.summary_id is Some),
        r matches Some(b) ==> {
            let p = summary->Some_0;
            &&& b.id == storage.summary_id->Some_0
            &&& b.session_id == session.content_session_id
            &&& b.platform_source == session.platform_source
            &&& b.request == p.request
            &&& b.investigated == p.investigated
            &&& b.learned == p.learned
            &&& b.completed == p.completed
            &&& b.next_steps == p.next_steps
            &&& b.notes == p.notes
            &&& b.project == session.project
            &&& b.prompt_number == session.last_prompt_number
            &&& b.created_at_epoch == storage.created_at_epoch
        },
{
    match (summary, storage.summary_id) {
        (Some(p), Some(id)) => Some(
            SummaryBroadcast {
                id,
                session_id: session.content_session_id.clone(),
                platform_source: session.platform_source.clone(),
                request: clone_opt_string(&p.request),
                investigated: clone_opt_string(&p.investigated),
                learned: clone_opt_string(&p.learned),
                completed: clone_opt_string(&p.completed),
                next_steps: clone_opt_string(&p.next_steps),
                notes: clone_opt_string(&p.notes),
                project: session.project.clone(),
                prompt_number: session.last_prompt_number,
                created_at_epoch: storage.created_at_epoch,
            },
        ),
        _ => None,
    }
}

/// The second half of processing an agent reply, once the storage layer has stored it and
/// confirmed the session's queued messages: forgets those messages, announces what was
/// stored, and clears the session's pending timestamp.
pub fn finish_agent_response(
    session: &mut ActiveSession,
    prepared: PreparedAgentResponse,
    storage: BatchStoreResult,
    broadcaster: Option<&dyn ResponseBroadcaster>,
) -> (r: ProcessedAgentResponse)
    ensures
        final(session).processing_message_ids@.len() == 0,
        final(session).earliest_pending_timestamp is None,
        final(session).session_db_id == old(session).session_db_id,
        final(session).content_session_id == old(session).content_session_id,
        final(session).memory_session_id == old(session).memory_session_id,
        final(session).project == old(session).project,
        final(session).platform_source == old(session).platform_source,
        final(session).last_prompt_number == old(session).last_prompt_number,
        final(session).conversation_history == old(session).conversation_history,
        final(session).last_generator_activity_epoch == old(session).last_generator_activity_epoch,
        r.observations == prepared.observations,
        r.summary == prepared.summary,
        r.storage == storage,
        r.discarded_non_xml == prepared.discarded_non_xml,
{
    session.processing_message_ids.clear();
    if let Some(broadcaster) = broadcaster {
        let events = observation_broadcasts(
            &prepared.observations,
            &storage,
            session,
            prepared.memory_session_id.as_str(),
        );
        let mut i: usize = 0;
        while i < events.len()
            decreases events.len() - i,
        {
            broadcaster.broadcast_observation(events[i].clone());
            i = i + 1;
        }
        if let Some(event) = summary_broadcast(&prepared.summary, &storage, session) {
            broadcaster.broadcast_summary(event);
        }
        broadcaster.broadcast_processing_status();
    }
    session.earliest_pending_timestamp = None;
    ProcessedAgentResponse {
        observations: prepared.observations,
        summary: prepared.summary,
        storage,
        discarded_non_xml: prepared.discarded_non_xml,
    }
}

} // verus!
