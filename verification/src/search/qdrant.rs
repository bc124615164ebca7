//! Vector-store decisions: configuration from settings, the texts that are embedded, how a
//! search hit maps back to a stored memory, and how hits are grouped and filtered.
use vstd::prelude::*;

use crate::json::{json_get, json_i64, json_str, json_u64, str_member, get_str, JsonValue};
use crate::model::{ObservationRow, SessionSummaryRow};
use crate::search::strategies::{observation_matches, observation_matches_exec, StrategySearchOptions};
use crate::text::{chars_eq_str, chars_of, chars_vecs_view, join, join_chars, parse_u64, parse_unsigned, push_str, string_from_chars, trim_end};

verus! {

broadcast use vstd::string::group_string_axioms;

pub const DEFAULT_QDRANT_URL: &'static str = "http://127.0.0.1:6333";

pub const DEFAULT_COLLECTION: &'static str = "claude_mem_observations";

pub const SCHEMA_VERSION: i64 = 2;

pub const SUMMARY_ID_OFFSET: u64 = 1_000_000_000_000;

pub const PROMPT_ID_OFFSET: u64 = 2_000_000_000_000;

/// The point id of an observation: its row id, as an unsigned number.
pub fn observation_point_id(id: i64) -> (r: u64)
    ensures
        id >= 0 ==> r == id,
        r == id as u64,
{
    id as u64
}

/// The point id of a session summary: its row id past the summary offset.
pub fn summary_point_id(id: i64) -> (r: u64)
    requires
        id >= 0,
    ensures
        r == SUMMARY_ID_OFFSET + id,
{
    SUMMARY_ID_OFFSET + id as u64
}

/// The point id of a prompt: its row id past the prompt offset.
pub fn prompt_point_id(id: i64) -> (r: u64)
    requires
        id >= 0,
    ensures
        r == PROMPT_ID_OFFSET + id,
{
    PROMPT_ID_OFFSET + id as u64
}

/// While row ids stay below the summary offset, no two stored records share a point id:
/// ids are distinct within each kind, and the three kinds never meet.
pub proof fn lemma_point_ids_distinct(a: int, b: int)
    requires
        0 <= a < SUMMARY_ID_OFFSET,
        0 <= b < SUMMARY_ID_OFFSET,
    ensures
        a != SUMMARY_ID_OFFSET + b,
        a != PROMPT_ID_OFFSET + b,
        SUMMARY_ID_OFFSET + a != PROMPT_ID_OFFSET + b,
        SUMMARY_ID_OFFSET + a == SUMMARY_ID_OFFSET + b ==> a == b,
        PROMPT_ID_OFFSET + a == PROMPT_ID_OFFSET + b ==> a == b,
{
}

/// Why a vector-store request failed.
#[derive(Debug, Clone, PartialEq, Eq)]
pub enum QdrantError {
    /// The request could not be made, by its message.
    Http(String),
    /// The store answered with a failure status.
    Status { status: u16, body: String },
}

/// Where the vector store is and how its vectors are shaped.
#[derive(Debug, Clone, PartialEq, Eq)]
pub struct QdrantConfig {
    pub url: String,
    pub collection: String,
    pub api_key: Option<String>,
    pub vector_size: usize,
}

/// A setting that switches the store on.
pub open spec fn is_enabled_value(v: Seq<char>) -> bool {
    v == "1"@ || v == "true"@ || v == "yes"@ || v == "on"@
}

/// The settings that switch the store on are exactly `1`, `true`, `yes` and `on`; `false`,
/// `0`, `no`, `off` and the empty text leave it off.
pub proof fn law_enabled_words(v: Seq<char>)
    ensures
        is_enabled_value(v) == (v == "1"@ || v == "true"@ || v == "yes"@ || v == "on"@),
        !is_enabled_value("false"@) && !is_enabled_value("0"@) && !is_enabled_value("no"@)
            && !is_enabled_value("off"@) && !is_enabled_value(""@),
{
    reveal_strlit("1");
    reveal_strlit("true");
    reveal_strlit("yes");
    reveal_strlit("on");
    reveal_strlit("false");
    reveal_strlit("0");
    reveal_strlit("no");
    reveal_strlit("off");
    reveal_strlit("");
    assert("false"@[0] != "true"@[0]);
    assert("0"@[0] != "1"@[0]);
    assert("no"@[1] != "on"@[1] && "no"@[0] != "1"@[0]);
    assert("off"@[1] != "on"@[1] && "off"@[0] != "yes"@[0]);
    assert(!is_enabled_value("false"@));
    assert(!is_enabled_value("0"@));
    assert(!is_enabled_value("no"@));
    assert(!is_enabled_value("off"@));
    assert(""@.len() == 0 && "1"@.len() > 0 && "true"@.len() > 0 && "yes"@.len() > 0 && "on"@.len() > 0);
    assert(!is_enabled_value(""@));
}

/// The configured vector width: a positive integer, else the default width.
pub open spec fn vector_size_of(v: Option<Seq<char>>) -> int {
    match v {
        Some(s) => match parse_unsigned(s, usize::MAX as int) {
            Some(n) => if n > 0 {
                n
            } else {
                crate::search::vector::DEFAULT_EMBEDDING_DIM as int
            },
            None => crate::search::vector::DEFAULT_EMBEDDING_DIM as int,
        },
        None => crate::search::vector::DEFAULT_EMBEDDING_DIM as int,
    }
}

/// `s` parsed as a `usize`, as `str::parse::<usize>` does.
pub fn parse_usize(s: &str) -> (r: Option<usize>)
    ensures
        match r {
            Some(v) => parse_unsigned(s@, usize::MAX as int) == Some(v as int),
            None => parse_unsigned(s@, usize::MAX as int) is None,
        },
{
    match parse_u64(s) {
        Some(v) => {
            if v as u128 <= usize::MAX as u128 {
                Some(v as usize)
            } else {
                None
            }
        },
        None => None,
    }
}

fn is_enabled_exec(v: &str) -> (r: bool)
    ensures
        r == is_enabled_value(v@),
{
    let c = chars_of(v);
    chars_eq_str(c.as_slice(), "1") || chars_eq_str(c.as_slice(), "true") || chars_eq_str(
        c.as_slice(),
        "yes",
    ) || chars_eq_str(c.as_slice(), "on")
}

impl QdrantConfig {
    /// The store's configuration from its settings, or nothing when it is neither switched on
    /// nor given a URL: the URL or the default one, the collection or the default one, the
    /// API key, and the vector width.
    pub fn from_settings(
        url: Option<String>,
        enabled: Option<String>,
        collection: Option<String>,
        api_key: Option<String>,
        vector_size: Option<String>,
    ) -> (r: Option<QdrantConfig>)
        ensures
            r is Some <==> (url is Some || (enabled matches Some(e) && is_enabled_value(e@))),
            r matches Some(c) ==> {
                &&& c.url@ == (match url {
                    Some(u) => u@,
                    None => DEFAULT_QDRANT_URL@,
                })
                &&& c.collection@ == (match collection {
                    Some(n) => n@,
                    None => DEFAULT_COLLECTION@,
                })
                &&& c.api_key == api_key
                &&& c.vector_size == vector_size_of(crate::text::opt_view(vector_size))
            },
    {
        let on = match &enabled {
            Some(e) => is_enabled_exec(e.as_str()),
            None => false,
        };
        if !on && url.is_none() {
            return None;
        }
        let size = match &vector_size {
            Some(v) => match parse_usize(v.as_str()) {
                Some(n) => if n > 0 {
                    n
                } else {
                    crate::search::vector::DEFAULT_EMBEDDING_DIM
                },
                None => crate::search::vector::DEFAULT_EMBEDDING_DIM,
            },
            None => crate::search::vector::DEFAULT_EMBEDDING_DIM,
        };
        Some(
            QdrantConfig {
                url: match url {
                    Some(u) => u,
                    None => DEFAULT_QDRANT_URL.to_owned(),
                },
                collection: match collection {
                    Some(n) => n,
                    None => DEFAULT_COLLECTION.to_owned(),
                },
                api_key,
                vector_size: size,
            },
        )
    }

    /// The collection's URL: the store URL without trailing slashes, `/collections/`, and
    /// the collection name.
    pub fn collection_url(&self) -> (r: String)
        ensures
            r@ == strip_trailing_slashes(self.url@) + "/collections/"@ + self.collection@,
    {
        let c = chars_of(self.url.as_str());
        let mut n = c.len();
        assert(c@.take(c@.len() as int) =~= c@);
        while n > 0 && c[n - 1] == '/'
            invariant
                n <= c@.len(),
                c@ == self.url@,
                strip_trailing_slashes(self.url@) == strip_trailing_slashes(c@.take(n as int)),
            decreases n,
        {
            assert(c@.take(n as int).drop_last() =~= c@.take(n - 1));
            n = n - 1;
        }
        assert(c@.take(c@.len() as int) =~= c@);
        let mut v = crate::text::copy_range(c.as_slice(), 0, n);
        assert(v@ =~= c@.take(n as int));
        push_str(&mut v, "/collections/");
        push_str(&mut v, self.collection.as_str());
        string_from_chars(v.as_slice())
    }
}

/// `s` without the `/` characters at its end.
pub open spec fn strip_trailing_slashes(s: Seq<char>) -> Seq<char>
    decreases s.len(),
{
    if s.len() > 0 && s.last() == '/' {
        strip_trailing_slashes(s.drop_last())
    } else {
        s
    }
}

/// What the status endpoint reports of an enabled store.
#[derive(Debug, Clone, PartialEq, Eq)]
pub struct QdrantStatus {
    pub enabled: bool,
    pub url: String,
    pub collection: String,
    pub vector_size: usize,
}

impl QdrantStatus {
    pub fn from_config(config: &QdrantConfig) -> (r: Self)
        ensures
            r.enabled,
            r.url@ == config.url@,
            r.collection@ == config.collection@,
            r.vector_size == config.vector_size,
    {
        QdrantStatus {
            enabled: true,
            url: config.url.clone(),
            collection: config.collection.clone(),
            vector_size: config.vector_size,
        }
    }
}

/// A stored memory that a search hit points to.
#[derive(Debug, Clone, Copy, PartialEq, Eq)]
pub enum MemoryPointRef {
    Observation(i64),
    Summary(i64),
    Prompt(i64),
}

/// Search hits grouped by kind, each id once, in the order first found.
#[derive(Debug, Clone, Default, PartialEq, Eq)]
pub struct MemoryPointRefs {
    pub observations: Vec<i64>,
    pub summaries: Vec<i64>,
    pub prompts: Vec<i64>,
}

/// `s` with every repeat of an earlier entry left out.
pub open spec fn dedup(s: Seq<i64>) -> Seq<i64>
    decreases s.len(),
{
    if s.len() == 0 {
        seq![]
    } else {
        let p = dedup(s.drop_last());
        if p.contains(s.last()) {
            p
        } else {
            p.push(s.last())
        }
    }
}

/// The ids of the references of one kind (`0` observations, `1` summaries, `2` prompts), in
/// order.
pub open spec fn ids_of_kind(refs: Seq<MemoryPointRef>, kind: int) -> Seq<i64>
    decreases refs.len(),
{
    if refs.len() == 0 {
        seq![]
    } else {
        let p = ids_of_kind(refs.drop_last(), kind);
        match refs.last() {
            MemoryPointRef::Observation(id) => if kind == 0 {
                p.push(id)
            } else {
                p
            },
            MemoryPointRef::Summary(id) => if kind == 1 {
                p.push(id)
            } else {
                p
            },
            MemoryPointRef::Prompt(id) => if kind == 2 {
                p.push(id)
            } else {
                p
            },
        }
    }
}

/// Appends `id` unless `ids` already holds it.
pub fn push_unique(ids: &mut Vec<i64>, id: i64)
    ensures
        final(ids)@ == (if old(ids)@.contains(id) {
            old(ids)@
        } else {
            old(ids)@.push(id)
        }),
{
    let mut i: usize = 0;
    while i < ids.len()
        invariant
            i <= ids@.len(),
            forall|j: int| 0 <= j < i ==> ids@[j] != id,
        decreases ids.len() - i,
    {
        if ids[i] == id {
            return;
        }
        i = i + 1;
    }
    ids.push(id);
}

impl MemoryPointRefs {
    /// The references grouped by kind, each id once, in the order first found.
    pub fn from_refs(refs: Vec<MemoryPointRef>) -> (r: Self)
        ensures
            r.observations@ == dedup(ids_of_kind(refs@, 0)),
            r.summaries@ == dedup(ids_of_kind(refs@, 1)),
            r.prompts@ == dedup(ids_of_kind(refs@, 2)),
    {
        let mut out = MemoryPointRefs {
            observations: Vec::new(),
            summaries: Vec::new(),
            prompts: Vec::new(),
        };
        let mut i: usize = 0;
        while i < refs.len()
            invariant
                i <= refs@.len(),
                out.observations@ == dedup(ids_of_kind(refs@.take(i as int), 0)),
                out.summaries@ == dedup(ids_of_kind(refs@.take(i as int), 1)),
                out.prompts@ == dedup(ids_of_kind(refs@.take(i as int), 2)),
            decreases refs.len() - i,
        {
            let ghost pre = refs@.take(i as int);
            let ghost post = refs@.take(i + 1);
            assert(post.drop_last() =~= pre);
            assert(post.last() == refs@[i as int]);
            match refs[i] {
                MemoryPointRef::Observation(id) => {
                    assert(ids_of_kind(post, 0) == ids_of_kind(pre, 0).push(id));
                    assert(ids_of_kind(post, 1) == ids_of_kind(pre, 1));
                    assert(ids_of_kind(post, 2) == ids_of_kind(pre, 2));
                    assert(ids_of_kind(pre, 0).push(id).drop_last() =~= ids_of_kind(pre, 0));
                    push_unique(&mut out.observations, id);
                },
                MemoryPointRef::Summary(id) => {
                    assert(ids_of_kind(post, 0) == ids_of_kind(pre, 0));
                    assert(ids_of_kind(post, 1) == ids_of_kind(pre, 1).push(id));
                    assert(ids_of_kind(post, 2) == ids_of_kind(pre, 2));
                    assert(ids_of_kind(pre, 1).push(id).drop_last() =~= ids_of_kind(pre, 1));
                    push_unique(&mut out.summaries, id);
                },
                MemoryPointRef::Prompt(id) => {
                    assert(ids_of_kind(post, 0) == ids_of_kind(pre, 0));
                    assert(ids_of_kind(post, 1) == ids_of_kind(pre, 1));
                    assert(ids_of_kind(post, 2) == ids_of_kind(pre, 2).push(id));
                    assert(ids_of_kind(pre, 2).push(id).drop_last() =~= ids_of_kind(pre, 2));
                    push_unique(&mut out.prompts, id);
                },
            }
            i = i + 1;
        }
        assert(refs@.take(refs@.len() as int) =~= refs@);
        out
    }
}

/// Grouping keeps each id once, and keeps exactly the ids that occur.
pub proof fn lemma_dedup(s: Seq<i64>)
    ensures
        dedup(s).no_duplicates(),
        forall|x: i64| dedup(s).contains(x) <==> s.contains(x),
    decreases s.len(),
{
    if s.len() > 0 {
        let p = s.drop_last();
        let l = s.last();
        lemma_dedup(p);
        let dp = dedup(p);
        assert forall|x: i64| s.contains(x) <==> (p.contains(x) || x == l) by {
            if s.contains(x) {
                let k = choose|k: int| 0 <= k < s.len() && s[k] == x;
                if k < s.len() - 1 {
                    assert(p[k] == x);
                }
            }
            if p.contains(x) {
                let k = choose|k: int| 0 <= k < p.len() && p[k] == x;
                assert(s[k] == x);
            }
            if x == l {
                assert(s[s.len() - 1] == x);
            }
        }
        if !dp.contains(l) {
            let ds = dp.push(l);
            assert(dedup(s) == ds);
            assert forall|x: i64| ds.contains(x) <==> (dp.contains(x) || x == l) by {
                if ds.contains(x) {
                    let m = choose|m: int| 0 <= m < ds.len() && ds[m] == x;
                    if m < dp.len() {
                        assert(dp[m] == x);
                    }
                }
                if dp.contains(x) {
                    let m = choose|m: int| 0 <= m < dp.len() && dp[m] == x;
                    assert(ds[m] == x);
                }
                if x == l {
                    assert(ds[ds.len() - 1] == x);
                }
            }
            assert forall|a: int, b: int| 0 <= a < ds.len() && 0 <= b < ds.len() && a != b implies ds[a] != ds[b] by {
                if a < dp.len() && b < dp.len() {
                    assert(ds[a] == dp[a] && ds[b] == dp[b]);
                } else if a < dp.len() {
                    assert(ds[a] == dp[a]);
                    assert(dp.contains(dp[a]));
                } else {
                    assert(ds[b] == dp[b]);
                    assert(dp.contains(dp[b]));
                }
            }
        }
    }
}

proof fn lemma_ids_of_kind(refs: Seq<MemoryPointRef>, kind: int, id: i64)
    requires
        0 <= kind <= 2,
    ensures
        ids_of_kind(refs, kind).contains(id) <==> exists|k: int|
            0 <= k < refs.len() && #[trigger] refs[k] == (if kind == 0 {
                MemoryPointRef::Observation(id)
            } else if kind == 1 {
                MemoryPointRef::Summary(id)
            } else {
                MemoryPointRef::Prompt(id)
            }),
    decreases refs.len(),
{
    let want = if kind == 0 {
        MemoryPointRef::Observation(id)
    } else if kind == 1 {
        MemoryPointRef::Summary(id)
    } else {
        MemoryPointRef::Prompt(id)
    };
    if refs.len() > 0 {
        let p = refs.drop_last();
        lemma_ids_of_kind(p, kind, id);
        let q = ids_of_kind(p, kind);
        if ids_of_kind(refs, kind).contains(id) {
            if q.contains(id) {
                let k = choose|k: int| 0 <= k < p.len() && p[k] == want;
                assert(refs[k] == want);
            } else {
                assert(ids_of_kind(refs, kind) != q);
                let j = choose|j: int| 0 <= j < ids_of_kind(refs, kind).len() && ids_of_kind(refs, kind)[j] == id;
                assert(j == q.len());
                assert(refs[refs.len() - 1] == want);
            }
        }
        if exists|k: int| 0 <= k < refs.len() && #[trigger] refs[k] == want {
            let k = choose|k: int| 0 <= k < refs.len() && #[trigger] refs[k] == want;
            if k < refs.len() - 1 {
                assert(p[k] == want);
                let j = choose|j: int| 0 <= j < q.len() && q[j] == id;
                assert(ids_of_kind(refs, kind)[j] == id);
            } else {
                let r = ids_of_kind(refs, kind);
                assert(refs.last() == want);
                assert(r == q.push(id));
                assert(r[r.len() - 1] == id);
            }
        }
    }
}

/// Grouping search hits lists each memory once, under its kind, and lists exactly the
/// memories that some hit points to.
pub proof fn lemma_from_refs(refs: Seq<MemoryPointRef>, kind: int, id: i64)
    requires
        0 <= kind <= 2,
    ensures
        dedup(ids_of_kind(refs, kind)).no_duplicates(),
        dedup(ids_of_kind(refs, kind)).contains(id) <==> exists|k: int|
            0 <= k < refs.len() && #[trigger] refs[k] == (if kind == 0 {
                MemoryPointRef::Observation(id)
            } else if kind == 1 {
                MemoryPointRef::Summary(id)
            } else {
                MemoryPointRef::Prompt(id)
            }),
{
    lemma_dedup(ids_of_kind(refs, kind));
    lemma_ids_of_kind(refs, kind, id);
}

/// A hit's observation: the payload's `observation_id`, else the point id.
pub open spec fn hit_observation_id(id: JsonValue, payload: Option<JsonValue>) -> Option<i64> {
    let from_payload = match payload {
        Some(p) => match json_get(p, "observation_id"@) {
            Some(x) => json_i64(x),
            None => None,
        },
        None => None,
    };
    if from_payload is Some {
        from_payload
    } else {
        json_i64(id)
    }
}

pub open spec fn i64_member(p: JsonValue, key: Seq<char>) -> Option<i64> {
    match json_get(p, key) {
        Some(x) => json_i64(x),
        None => None,
    }
}

/// The memory a hit points to: by the payload's `kind` and id, else by the range the point
/// id falls in (prompts from `PROMPT_ID_OFFSET`, summaries from `SUMMARY_ID_OFFSET`); nothing
/// without a payload.
pub open spec fn hit_ref(id: JsonValue, payload: Option<JsonValue>) -> Option<MemoryPointRef> {
    match payload {
        None => None,
        Some(p) => {
            let kind = str_member(p, "kind"@);
            if kind == Some("observation"@) {
                match hit_observation_id(id, payload) {
                    Some(i) => Some(MemoryPointRef::Observation(i)),
                    None => None,
                }
            } else if kind == Some("summary"@) {
                match i64_member(p, "summary_id"@) {
                    Some(i) => Some(MemoryPointRef::Summary(i)),
                    None => None,
                }
            } else if kind == Some("prompt"@) {
                match i64_member(p, "prompt_id"@) {
                    Some(i) => Some(MemoryPointRef::Prompt(i)),
                    None => None,
                }
            } else {
                match json_u64(id) {
                    Some(u) => if u >= PROMPT_ID_OFFSET {
                        Some(MemoryPointRef::Prompt((u - PROMPT_ID_OFFSET) as i64))
                    } else if u >= SUMMARY_ID_OFFSET {
                        Some(MemoryPointRef::Summary((u - SUMMARY_ID_OFFSET) as i64))
                    } else {
                        Some(MemoryPointRef::Observation(u as i64))
                    },
                    None => None,
                }
            }
        },
    }
}

/// One search hit: its point id and payload.
#[derive(Debug)]
pub struct QdrantPoint {
    pub id: JsonValue,
    pub payload: Option<JsonValue>,
}

fn member_i64(p: &JsonValue, key: &str) -> (r: Option<i64>)
    ensures
        r == i64_member(*p, key@),
{
    match p.get(key) {
        Some(x) => x.as_i64(),
        None => None,
    }
}

fn kind_is(kind: Option<&String>, name: &str) -> (r: bool)
    ensures
        r == (match kind {
            Some(k) => k@ == name@,
            None => false,
        }),
{
    match kind {
        Some(k) => {
            let c = chars_of(k.as_str());
            chars_eq_str(c.as_slice(), name)
        },
        None => false,
    }
}

impl QdrantPoint {
    pub fn observation_id(&self) -> (r: Option<i64>)
        ensures
            r == hit_observation_id(self.id, self.payload),
    {
        let from_payload = match &self.payload {
            Some(p) => member_i64(p, "observation_id"),
            None => None,
        };
        match from_payload {
            Some(i) => Some(i),
            None => self.id.as_i64(),
        }
    }

    pub fn memory_ref(&self) -> (r: Option<MemoryPointRef>)
        ensures
            r == hit_ref(self.id, self.payload),
    {
        let p = match &self.payload {
            Some(p) => p,
            None => return None,
        };
        let kind = get_str(p, "kind");
        proof {
            reveal_strlit("observation");
            reveal_strlit("summary");
            reveal_strlit("prompt");
        }
        if kind_is(kind, "observation") {
            match self.observation_id() {
                Some(i) => Some(MemoryPointRef::Observation(i)),
                None => None,
            }
        } else if kind_is(kind, "summary") {
            match member_i64(p, "summary_id") {
                Some(i) => Some(MemoryPointRef::Summary(i)),
                None => None,
            }
        } else if kind_is(kind, "prompt") {
            match member_i64(p, "prompt_id") {
                Some(i) => Some(MemoryPointRef::Prompt(i)),
                None => None,
            }
        } else {
            match self.id.as_u64() {
                Some(u) => {
                    if u >= PROMPT_ID_OFFSET {
                        Some(MemoryPointRef::Prompt((u - PROMPT_ID_OFFSET) as i64))
                    } else if u >= SUMMARY_ID_OFFSET {
                        Some(MemoryPointRef::Summary((u - SUMMARY_ID_OFFSET) as i64))
                    } else {
                        Some(MemoryPointRef::Observation(u as i64))
                    }
                },
                None => None,
            }
        }
    }
}

/// The texts that are present, in order.
pub open spec fn present(parts: Seq<Option<String>>) -> Seq<Seq<char>>
    decreases parts.len(),
{
    if parts.len() == 0 {
        seq![]
    } else {
        let p = present(parts.drop_last());
        match parts.last() {
            Some(t) => p.push(t@),
            None => p,
        }
    }
}

fn join_present(parts: &Vec<Option<String>>) -> (r: String)
    ensures
        r@ == join(present(parts@), "\n"@),
{
    let mut kept: Vec<Vec<char>> = Vec::new();
    let mut i: usize = 0;
    while i < parts.len()
        invariant
            i <= parts@.len(),
            chars_vecs_view(kept@) == present(parts@.take(i as int)),
        decreases parts.len() - i,
    {
        assert(parts@.take(i + 1).drop_last() =~= parts@.take(i as int));
        let ghost k0 = kept@;
        if let Some(t) = &parts[i] {
            kept.push(chars_of(t.as_str()));
            assert(chars_vecs_view(kept@) =~= chars_vecs_view(k0).push(t@));
        }
        i = i + 1;
    }
    assert(parts@.take(parts@.len() as int) =~= parts@);
    let nl = vec!['\n'];
    assert(nl@ =~= "\n"@) by {
        reveal_strlit("\n");
    }
    let j = join_chars(&kept, nl.as_slice());
    string_from_chars(j.as_slice())
}

/// The text embedded for an observation: its title, subtitle, narrative and text, those
/// present, one per line.
pub fn observation_text(row: &ObservationRow) -> (r: String)
    ensures
        r@ == join(present(seq![row.title, row.subtitle, row.narrative, row.text]), "\n"@),
{
    let parts = vec![row.title.clone(), row.subtitle.clone(), row.narrative.clone(), row.text.clone()];
    assert(parts@ =~= seq![row.title, row.subtitle, row.narrative, row.text]);
    join_present(&parts)
}

/// The text embedded for a session summary: its request, investigation, learnings,
/// completed work, next steps and notes, those present, one per line.
pub fn summary_text(row: &SessionSummaryRow) -> (r: String)
    ensures
        r@ == join(
            present(
                seq![row.request, row.investigated, row.learned, row.completed, row.next_steps, row.notes],
            ),
            "\n"@,
        ),
{
    let parts = vec![
        row.request.clone(),
        row.investigated.clone(),
        row.learned.clone(),
        row.completed.clone(),
        row.next_steps.clone(),
        row.notes.clone(),
    ];
    assert(parts@ =~= seq![row.request, row.investigated, row.learned, row.completed, row.next_steps, row.notes]);
    join_present(&parts)
}

/// Whether a row passes the search's project, date, kind and concept filters.
pub fn matches_options(row: &ObservationRow, options: &StrategySearchOptions) -> (r: bool)
    ensures
        r == observation_matches(*row, *options),
{
    observation_matches_exec(row, options)
}

/// The number of results a vector search returns: the requested number, between 1 and 100.
pub open spec fn clamp_limit(limit: i64) -> i64 {
    if limit < 1 {
        1
    } else if limit > 100 {
        100
    } else {
        limit
    }
}

pub fn search_limit(limit: i64) -> (r: usize)
    ensures
        r as int == clamp_limit(limit),
{
    let l = if limit < 1 {
        1
    } else if limit > 100 {
        100
    } else {
        limit
    };
    l as usize
}

/// How many results a search keeps, and how many hits it asks the store for: four times as
/// many, at most 100.
pub fn search_limits(options: &StrategySearchOptions) -> (r: (i64, i64))
    ensures
        r.0 == clamp_limit(
            match options.limit {
                Some(l) => l,
                None => 20,
            },
        ),
        r.1 == if 4 * r.0 < 100 {
            4 * r.0
        } else {
            100
        },
{
    let requested = match options.limit {
        Some(l) => l,
        None => 20,
    };
    let limit = if requested < 1 {
        1
    } else if requested > 100 {
        100
    } else {
        requested
    };
    let hits = if limit * 4 < 100 {
        limit * 4
    } else {
        100
    };
    (limit, hits)
}

/// The rows that pass the search's filters, at most `limit` of them, in order.
pub open spec fn kept_rows(rows: Seq<ObservationRow>, options: StrategySearchOptions, limit: int) -> Seq<
    ObservationRow,
> {
    let f = crate::search::strategies::filter_rows(rows, options);
    if f.len() > limit {
        f.take(limit)
    } else {
        f
    }
}

/// The hydrated rows of a vector search that pass its filters, at most `limit` of them.
pub fn select_observations(rows: Vec<ObservationRow>, options: &StrategySearchOptions, limit: usize) -> (r: Vec<
    ObservationRow,
>)
    ensures
        r@ == kept_rows(rows@, *options, limit as int),
{
    let mut kept = crate::search::strategies::filter_observations(rows, options);
    if kept.len() > limit {
        kept.truncate(limit);
    }
    kept
}


/// `r` lists the index `i`.
pub open spec fn lists(r: Seq<usize>, i: int) -> bool {
    exists|w: int| 0 <= w < r.len() && r[w] as int == i
}

/// The index of the first `id` in `ids` at or after `q`, or the length when there is none.
pub open spec fn rank_from(ids: Seq<i64>, id: i64, q: int) -> int
    decreases ids.len() - q,
{
    if q >= ids.len() || q < 0 {
        ids.len() as int
    } else if ids[q] == id {
        q
    } else {
        rank_from(ids, id, q + 1)
    }
}

/// Where `id` stands in a requested order: its first position, or after every requested id.
pub open spec fn request_rank(ids: Seq<i64>, id: i64) -> int {
    rank_from(ids, id, 0)
}

/// Row `a` comes before row `b` when its id is requested earlier, or, at the same rank,
/// when it was found first.
pub open spec fn comes_before(found: Seq<i64>, ids: Seq<i64>, a: int, b: int) -> bool {
    request_rank(ids, found[a]) < request_rank(ids, found[b]) || (request_rank(ids, found[a])
        == request_rank(ids, found[b]) && a < b)
}

proof fn lemma_rank_bound(ids: Seq<i64>, id: i64, q: int)
    requires
        0 <= q,
    ensures
        0 <= rank_from(ids, id, q) <= ids.len(),
    decreases ids.len() - q,
{
    if q < ids.len() && ids[q] != id {
        lemma_rank_bound(ids, id, q + 1);
    }
}

fn rank_of(ids: &Vec<i64>, id: i64) -> (r: usize)
    ensures
        r as int == request_rank(ids@, id),
{
    let mut q: usize = 0;
    while q < ids.len() && ids[q] != id
        invariant
            q <= ids@.len(),
            rank_from(ids@, id, q as int) == request_rank(ids@, id),
        decreases ids.len() - q,
    {
        q = q + 1;
    }
    q
}

fn append_rank(out: &mut Vec<usize>, ranks: &Vec<usize>, p: usize, Ghost(found): Ghost<Seq<i64>>, Ghost(ids): Ghost<Seq<i64>>)
    requires
        ranks@.len() == found.len(),
        forall|i: int| 0 <= i < ranks@.len() ==> #[trigger] ranks@[i] as int == request_rank(ids, found[i]),
        forall|k: int, l: int| 0 <= k < l < old(out)@.len() ==> comes_before(found, ids, old(out)@[k] as int, old(out)@[l] as int),
        forall|k: int| 0 <= k < old(out)@.len() ==> (#[trigger] old(out)@[k]) < found.len() && request_rank(ids, found[old(out)@[k] as int]) < p,
        forall|i: int| 0 <= i < found.len() && request_rank(ids, found[i]) < p ==> #[trigger] lists(old(out)@, i),
    ensures
        forall|k: int, l: int| 0 <= k < l < final(out)@.len() ==> comes_before(found, ids, final(out)@[k] as int, final(out)@[l] as int),
        forall|k: int| 0 <= k < final(out)@.len() ==> (#[trigger] final(out)@[k]) < found.len() && request_rank(ids, found[final(out)@[k] as int]) <= p,
        forall|i: int| 0 <= i < found.len() && request_rank(ids, found[i]) <= p ==> #[trigger] lists(final(out)@, i),
{
    let mut j: usize = 0;
    while j < ranks.len()
        invariant
            j <= ranks@.len(),
            ranks@.len() == found.len(),
            forall|i: int| 0 <= i < ranks@.len() ==> #[trigger] ranks@[i] as int == request_rank(ids, found[i]),
            forall|k: int, l: int| 0 <= k < l < out@.len() ==> comes_before(found, ids, out@[k] as int, out@[l] as int),
            forall|k: int| 0 <= k < out@.len() ==> (#[trigger] out@[k]) < found.len() && (request_rank(ids, found[out@[k] as int]) < p || (request_rank(ids, found[out@[k] as int]) == p && out@[k] < j)),
            forall|i: int| 0 <= i < found.len() && (request_rank(ids, found[i]) < p || (request_rank(ids, found[i]) == p && i < j)) ==> #[trigger] lists(out@, i),
        decreases ranks.len() - j,
    {
        if ranks[j] == p {
            let ghost before = out@;
            out.push(j);
            proof {
                assert(out@[out@.len() - 1] == j);
                assert forall|i: int| 0 <= i < found.len() && (request_rank(ids, found[i]) < p || (request_rank(ids, found[i]) == p && i < j + 1)) implies lists(out@, i) by {
                    if i == j {
                        assert(out@[out@.len() - 1] as int == i);
                    } else {
                        assert(lists(before, i));
                        let w = choose|w: int| 0 <= w < before.len() && before[w] as int == i;
                        assert(out@[w] as int == i);
                    }
                }
            }
        } else {
            proof {
                assert forall|i: int| 0 <= i < found.len() && (request_rank(ids, found[i]) < p || (request_rank(ids, found[i]) == p && i < j + 1)) implies lists(out@, i) by {
                    if i == j {
                        assert(ranks@[i] as int == request_rank(ids, found[i]));
                    }
                }
            }
        }
        j = j + 1;
    }
}

/// The order in which rows found for requested ids are returned: by the position of their
/// id among the requested ones (ids not requested last), and in the order found among equal
/// positions. The result lists each row's index once.
pub fn request_order(found: &Vec<i64>, requested: &Vec<i64>) -> (r: Vec<usize>)
    ensures
        forall|k: int| 0 <= k < r@.len() ==> (#[trigger] r@[k]) < found@.len(),
        forall|i: int| 0 <= i < found@.len() ==> #[trigger] lists(r@, i),
        forall|k: int, l: int| 0 <= k < l < r@.len() ==> comes_before(found@, requested@, r@[k] as int, r@[l] as int),
{
    let mut ranks: Vec<usize> = Vec::new();
    let mut i: usize = 0;
    while i < found.len()
        invariant
            i <= found@.len(),
            ranks@.len() == i,
            forall|t: int| 0 <= t < i ==> #[trigger] ranks@[t] as int == request_rank(requested@, found@[t]),
        decreases found.len() - i,
    {
        ranks.push(rank_of(requested, found[i]));
        i = i + 1;
    }
    let mut out: Vec<usize> = Vec::new();
    let mut p: usize = 0;
    proof {
        assert forall|t: int| 0 <= t < found@.len() && request_rank(requested@, found@[t]) < p implies #[trigger] lists(out@, t) by {
            lemma_rank_bound(requested@, found@[t], 0);
        }
    }
    while p < requested.len()
        invariant
            p <= requested@.len(),
            ranks@.len() == found@.len(),
            forall|t: int| 0 <= t < ranks@.len() ==> #[trigger] ranks@[t] as int == request_rank(requested@, found@[t]),
            forall|k: int, l: int| 0 <= k < l < out@.len() ==> comes_before(found@, requested@, out@[k] as int, out@[l] as int),
            forall|k: int| 0 <= k < out@.len() ==> (#[trigger] out@[k]) < found@.len() && request_rank(requested@, found@[out@[k] as int]) < p,
            forall|t: int| 0 <= t < found@.len() && request_rank(requested@, found@[t]) < p ==> #[trigger] lists(out@, t),
        decreases requested.len() - p,
    {
        append_rank(&mut out, &ranks, p, Ghost(found@), Ghost(requested@));
        p = p + 1;
    }
    append_rank(&mut out, &ranks, p, Ghost(found@), Ghost(requested@));
    proof {
        assert forall|t: int| 0 <= t < found@.len() implies lists(out@, t) by {
            lemma_rank_bound(requested@, found@[t], 0);
        }
    }
    out
}

} // verus!
