//! The knowledge agent's decisions: the prompt that primes a session, how a CLI run turns
//! into an answer or an error, which failures count as a lost session, and when a query
//! primes again and retries.
use vstd::prelude::*;

use crate::json::{get_str, json_get, json_parse, str_member, parse_json, JsonValue};
use crate::knowledge::renderer::{corpus_text, CorpusRenderer};
use crate::knowledge::store::{store_error_text, CorpusStoreError};
use crate::model::{CorpusFile, CorpusQueryResult};
use crate::text::{
    chars_of, contains, contains_exec, int_text, lowercase, push_i64_text, push_str,
    string_from_chars, to_lowercase, trim, trim_chars,
};

verus! {

broadcast use vstd::string::group_string_axioms;

/// Why a knowledge-agent operation failed.
#[derive(Debug, Clone, PartialEq, Eq)]
pub enum KnowledgeAgentError {
    /// The corpus has never been primed.
    NotPrimed(String),
    /// The agent CLI executable could not be found.
    ExecutableNotFound,
    /// The CLI never reported a session id while priming the corpus.
    NoSessionId(String),
    /// The CLI exited with a failure status and gave no answer.
    NonZeroExit { status: i32, stderr: String },
    /// An I/O or process error, by its message.
    Io(String),
    /// A stream-json line that is not JSON, by the parser's message.
    Json(String),
    /// The corpus store failed.
    Store(CorpusStoreError),
}

/// The text of an agent error.
pub open spec fn agent_error_text(e: KnowledgeAgentError) -> Seq<char> {
    match e {
        KnowledgeAgentError::NotPrimed(name) => "corpus \""@ + name@
            + "\" has no session \u{2014} call prime first"@,
        KnowledgeAgentError::ExecutableNotFound => "agent CLI executable not found; set CLAUDE_CODE_PATH or add the agent CLI to PATH"@,
        KnowledgeAgentError::NoSessionId(name) => "failed to capture session_id while priming corpus \""@
            + name@ + "\""@,
        KnowledgeAgentError::NonZeroExit { status, stderr } => "agent CLI exited with status "@
            + int_text(status as int) + ": "@ + stderr@,
        KnowledgeAgentError::Io(m) => "io error: "@ + m@,
        KnowledgeAgentError::Json(m) => "json parse error on stream-json line: "@ + m@,
        KnowledgeAgentError::Store(e) => store_error_text(e),
    }
}

/// Lowercased error text that names a session, a resume, an expiry, or something not found.
pub open spec fn names_lost_session(lowered: Seq<char>) -> bool {
    contains(lowered, "session"@) || contains(lowered, "resume"@) || contains(lowered, "expired"@)
        || contains(lowered, "not found"@)
}

impl KnowledgeAgentError {
    /// The error's message.
    pub fn message(&self) -> (r: String)
        ensures
            r@ == agent_error_text(*self),
    {
        match self {
            KnowledgeAgentError::NotPrimed(name) => {
                let mut v = chars_of("corpus \"");
                push_str(&mut v, name.as_str());
                push_str(&mut v, "\" has no session \u{2014} call prime first");
                string_from_chars(v.as_slice())
            },
            KnowledgeAgentError::ExecutableNotFound => {
                "agent CLI executable not found; set CLAUDE_CODE_PATH or add the agent CLI to PATH".to_owned()
            },
            KnowledgeAgentError::NoSessionId(name) => {
                let mut v = chars_of("failed to capture session_id while priming corpus \"");
                push_str(&mut v, name.as_str());
                push_str(&mut v, "\"");
                string_from_chars(v.as_slice())
            },
            KnowledgeAgentError::NonZeroExit { status, stderr } => {
                let mut v = chars_of("agent CLI exited with status ");
                push_i64_text(&mut v, *status as i64);
                push_str(&mut v, ": ");
                push_str(&mut v, stderr.as_str());
                string_from_chars(v.as_slice())
            },
            KnowledgeAgentError::Io(m) => {
                let mut v = chars_of("io error: ");
                push_str(&mut v, m.as_str());
                string_from_chars(v.as_slice())
            },
            KnowledgeAgentError::Json(m) => {
                let mut v = chars_of("json parse error on stream-json line: ");
                push_str(&mut v, m.as_str());
                string_from_chars(v.as_slice())
            },
            KnowledgeAgentError::Store(e) => e.message(),
        }
    }

    /// Whether the error looks like a lost agent session, which a query answers by priming
    /// again.
    pub fn is_session_resume_error(&self) -> (r: bool)
        ensures
            r == names_lost_session(lowercase(agent_error_text(*self))),
    {
        let text = self.message();
        let lowered = to_lowercase(text.as_str());
        let l = chars_of(lowered.as_str());
        contains_exec(l.as_slice(), chars_of("session").as_slice()) || contains_exec(
            l.as_slice(),
            chars_of("resume").as_slice(),
        ) || contains_exec(l.as_slice(), chars_of("expired").as_slice()) || contains_exec(
            l.as_slice(),
            chars_of("not found").as_slice(),
        )
    }
}

/// Lowercased CLI error output that reports a session that cannot be resumed.
pub open spec fn reports_lost_session(l: Seq<char>) -> bool {
    contains(l, "expired"@) || contains(l, "invalid session"@) || contains(l, "session not found"@)
        || contains(l, "could not resume"@) || (contains(l, "session"@) && contains(l, "resume"@))
        || (contains(l, "session"@) && contains(l, "invalid"@)) || (contains(l, "session"@)
        && contains(l, "not found"@))
}

/// Whether the error text of an agent CLI run looks like a failure to resume its session.
pub fn looks_like_session_resume_error(text: &str) -> (r: bool)
    ensures
        r == reports_lost_session(lowercase(text@)),
{
    let lowered = to_lowercase(text);
    let l = chars_of(lowered.as_str());
    let session = contains_exec(l.as_slice(), chars_of("session").as_slice());
    contains_exec(l.as_slice(), chars_of("expired").as_slice()) || contains_exec(
        l.as_slice(),
        chars_of("invalid session").as_slice(),
    ) || contains_exec(l.as_slice(), chars_of("session not found").as_slice()) || contains_exec(
        l.as_slice(),
        chars_of("could not resume").as_slice(),
    ) || (session && contains_exec(l.as_slice(), chars_of("resume").as_slice())) || (session
        && contains_exec(l.as_slice(), chars_of("invalid").as_slice())) || (session
        && contains_exec(l.as_slice(), chars_of("not found").as_slice()))
}

/// What one agent CLI run reported.
#[derive(Debug, Clone, Default, PartialEq, Eq)]
pub struct ClaudeInvocation {
    /// The session id of the last frame that carried one.
    pub session_id: Option<String>,
    /// The text of every assistant frame, concatenated.
    pub assistant_text: String,
    /// The run's error output.
    pub stderr: String,
    /// The exit code.
    pub exit_code: i32,
}

/// The prompt that loads a corpus into a new agent session.
pub open spec fn prime_prompt_text(corpus: CorpusFile) -> Seq<char> {
    corpus.system_prompt@ + "\n\nHere is your complete knowledge base:\n\n"@ + corpus_text(corpus)
        + "\n\nAcknowledge what you've received. Summarize the key themes and topics you can answer questions about."@
}

/// The prompt that loads `corpus` into a new agent session: its system prompt, then the
/// rendered corpus, then a request to acknowledge it.
pub fn prime_prompt(corpus: &CorpusFile) -> (r: String)
    requires
        corpus.stats.token_estimate != i64::MIN,
    ensures
        r@ == prime_prompt_text(*corpus),
{
    let rendered = CorpusRenderer.render_corpus(corpus);
    let mut v = chars_of(corpus.system_prompt.as_str());
    push_str(&mut v, "\n\nHere is your complete knowledge base:\n\n");
    push_str(&mut v, rendered.as_str());
    push_str(
        &mut v,
        "\n\nAcknowledge what you've received. Summarize the key themes and topics you can answer questions about.",
    );
    string_from_chars(v.as_slice())
}

/// The session a priming run opened, or `NoSessionId` for the corpus when it reported none.
pub fn primed_session(invocation: ClaudeInvocation, corpus_name: &str) -> (r: Result<
    String,
    KnowledgeAgentError,
>)
    ensures
        match invocation.session_id {
            Some(s) => r == Ok::<String, KnowledgeAgentError>(s),
            None => r matches Err(KnowledgeAgentError::NoSessionId(n)) && n@ == corpus_name@,
        },
{
    match invocation.session_id {
        Some(s) => Ok(s),
        None => Err(KnowledgeAgentError::NoSessionId(corpus_name.to_owned())),
    }
}

/// The answer of a query run in session `session_id`: a failure status with no answer is an
/// error, marked as a failed resume when the error output says so; otherwise the answer,
/// with the session the run reported, or `session_id` when it reported none.
pub open spec fn query_outcome_is(
    r: Result<CorpusQueryResult, KnowledgeAgentError>,
    invocation: ClaudeInvocation,
    session_id: Seq<char>,
) -> bool {
    if invocation.exit_code != 0 && invocation.assistant_text@.len() == 0 {
        &&& r matches Err(KnowledgeAgentError::NonZeroExit { status, stderr })
        &&& status == invocation.exit_code
        &&& stderr@ == (if reports_lost_session(lowercase(invocation.stderr@)) {
            "session resume failed: "@ + trim(invocation.stderr@)
        } else {
            trim(invocation.stderr@)
        })
    } else {
        &&& r matches Ok(q)
        &&& q.answer@ == invocation.assistant_text@
        &&& q.session_id@ == (match invocation.session_id {
            Some(s) => s@,
            None => session_id,
        })
    }
}

pub fn query_outcome(invocation: ClaudeInvocation, session_id: &str) -> (r: Result<
    CorpusQueryResult,
    KnowledgeAgentError,
>)
    ensures
        query_outcome_is(r, invocation, session_id@),
{
    if invocation.exit_code != 0 && invocation.assistant_text.as_str().is_empty() {
        let e = chars_of(invocation.stderr.as_str());
        let trimmed = trim_chars(e.as_slice());
        if looks_like_session_resume_error(invocation.stderr.as_str()) {
            let mut v = chars_of("session resume failed: ");
            crate::text::push_chars(&mut v, trimmed.as_slice());
            return Err(
                KnowledgeAgentError::NonZeroExit {
                    status: invocation.exit_code,
                    stderr: string_from_chars(v.as_slice()),
                },
            );
        }
        return Err(
            KnowledgeAgentError::NonZeroExit {
                status: invocation.exit_code,
                stderr: string_from_chars(trimmed.as_slice()),
            },
        );
    }
    let session = match invocation.session_id {
        Some(s) => s,
        None => session_id.to_owned(),
    };
    Ok(CorpusQueryResult { answer: invocation.assistant_text, session_id: session })
}

/// The next step of a query against a corpus.
#[derive(Debug, PartialEq, Eq)]
pub enum QueryStep {
    /// Ask the question in this session.
    Ask(String),
    /// Prime the corpus again, then ask once more.
    Reprime,
    /// Done: the outcome, and the session to store in the corpus when it changed.
    Finish(Result<CorpusQueryResult, KnowledgeAgentError>, Option<String>),
}

/// The first step of a query: ask in the corpus's session, or fail with `NotPrimed` when it
/// has none.
pub fn start_query(corpus: &CorpusFile) -> (r: QueryStep)
    ensures
        match corpus.session_id {
            Some(s) => r == QueryStep::Ask(s),
            None => r matches QueryStep::Finish(Err(KnowledgeAgentError::NotPrimed(n)), None)
                && n@ == corpus.name@,
        },
{
    match &corpus.session_id {
        Some(s) => QueryStep::Ask(s.clone()),
        None => QueryStep::Finish(Err(KnowledgeAgentError::NotPrimed(corpus.name.clone())), None),
    }
}

/// The step after asking in `session`: an answer finishes the query, storing the session
/// when the run moved to another one; on the first attempt a lost-session error primes
/// again; any other error finishes the query with it.
pub fn after_answer(
    first_attempt: bool,
    session: &str,
    outcome: Result<CorpusQueryResult, KnowledgeAgentError>,
) -> (r: QueryStep)
    ensures
        match outcome {
            Ok(q) => r matches QueryStep::Finish(Ok(a), stored) && a == q && (if q.session_id@
                == session@ {
                stored is None
            } else {
                stored matches Some(s) && s@ == q.session_id@
            }),
            Err(e) => if first_attempt && names_lost_session(lowercase(agent_error_text(e))) {
                r == QueryStep::Reprime
            } else {
                r == QueryStep::Finish(Err(e), None)
            },
        },
{
    match outcome {
        Ok(q) => {
            let a = chars_of(q.session_id.as_str());
            let b = chars_of(session);
            if crate::text::chars_eq(a.as_slice(), b.as_slice()) {
                QueryStep::Finish(Ok(q), None)
            } else {
                let s = q.session_id.clone();
                QueryStep::Finish(Ok(q), Some(s))
            }
        },
        Err(e) => {
            if first_attempt && e.is_session_resume_error() {
                QueryStep::Reprime
            } else {
                QueryStep::Finish(Err(e), None)
            }
        },
    }
}

/// The step after priming again: ask in the new session, or fail with `NoSessionId` when the
/// corpus still has none.
pub fn after_reprime(corpus: &CorpusFile) -> (r: QueryStep)
    ensures
        match corpus.session_id {
            Some(s) => r == QueryStep::Ask(s),
            None => r matches QueryStep::Finish(Err(KnowledgeAgentError::NoSessionId(n)), None)
                && n@ == corpus.name@,
        },
{
    match &corpus.session_id {
        Some(s) => QueryStep::Ask(s.clone()),
        None => QueryStep::Finish(
            Err(KnowledgeAgentError::NoSessionId(corpus.name.clone())),
            None,
        ),
    }
}

/// The text of the `text` blocks among `blocks`, concatenated.
pub open spec fn text_blocks(blocks: Seq<JsonValue>) -> Seq<char>
    decreases blocks.len(),
{
    if blocks.len() == 0 {
        seq![]
    } else {
        text_blocks(blocks.drop_last()) + (if str_member(blocks.last(), "type"@) == Some("text"@) {
            match str_member(blocks.last(), "text"@) {
                Some(t) => t,
                None => seq![],
            }
        } else {
            seq![]
        })
    }
}

/// The text an assistant frame adds: its `message.content` text blocks.
pub open spec fn frame_text(frame: JsonValue) -> Seq<char> {
    if str_member(frame, "type"@) == Some("assistant"@) {
        match json_get(frame, "message"@) {
            Some(m) => match json_get(m, "content"@) {
                Some(JsonValue::Array(blocks)) => text_blocks(blocks@),
                _ => seq![],
            },
            None => seq![],
        }
    } else {
        seq![]
    }
}

/// `inv` after one stream-json frame: the frame's session id, when it has one, replaces the
/// current one, and its assistant text is appended.
pub open spec fn applied_frame(before: ClaudeInvocation, after: ClaudeInvocation, frame: JsonValue) -> bool {
    &&& crate::text::opt_view(after.session_id) == (match str_member(frame, "session_id"@) {
        Some(s) => Some(s),
        None => crate::text::opt_view(before.session_id),
    })
    &&& after.assistant_text@ == before.assistant_text@ + frame_text(frame)
    &&& after.stderr == before.stderr
    &&& after.exit_code == before.exit_code
}

fn push_text_blocks(out: &mut Vec<char>, blocks: &Vec<JsonValue>)
    ensures
        final(out)@ == old(out)@ + text_blocks(blocks@),
{
    let ghost start = out@;
    let mut i: usize = 0;
    while i < blocks.len()
        invariant
            i <= blocks@.len(),
            out@ == start + text_blocks(blocks@.take(i as int)),
        decreases blocks.len() - i,
    {
        assert(blocks@.take(i + 1).drop_last() =~= blocks@.take(i as int));
        assert(blocks@.take(i + 1).last() == blocks@[i as int]);
        let ghost o0 = out@;
        let is_text = match get_str(&blocks[i], "type") {
            Some(t) => {
                let tc = chars_of(t.as_str());
                crate::text::chars_eq_str(tc.as_slice(), "text")
            },
            None => false,
        };
        if is_text {
            if let Some(t) = get_str(&blocks[i], "text") {
                push_str(out, t.as_str());
            }
        }
        assert(out@ =~= start + text_blocks(blocks@.take(i + 1)));
        i = i + 1;
    }
    assert(blocks@.take(blocks@.len() as int) =~= blocks@);
}

/// Applies one parsed stream-json frame to the invocation being read.
pub fn apply_frame(invocation: &mut ClaudeInvocation, frame: &JsonValue)
    ensures
        applied_frame(*old(invocation), *final(invocation), *frame),
{
    if let Some(s) = get_str(frame, "session_id") {
        invocation.session_id = Some(s.clone());
    }
    let is_assistant = match get_str(frame, "type") {
        Some(t) => {
            let tc = chars_of(t.as_str());
            crate::text::chars_eq_str(tc.as_slice(), "assistant")
        },
        None => false,
    };
    if is_assistant {
        if let Some(m) = frame.get("message") {
            if let Some(c) = m.get("content") {
                if let Some(blocks) = c.as_array() {
                    let mut out = chars_of(invocation.assistant_text.as_str());
                    push_text_blocks(&mut out, blocks);
                    invocation.assistant_text = string_from_chars(out.as_slice());
                    return;
                }
            }
        }
    }
    assert(invocation.assistant_text@ =~= old(invocation).assistant_text@ + frame_text(*frame));
}

/// Applies one line of stream-json output; a line that is not JSON is an error.
pub fn apply_stream_frame(invocation: &mut ClaudeInvocation, line: &str) -> (r: Result<
    (),
    KnowledgeAgentError,
>)
    ensures
        match json_parse(line@) {
            Some(frame) => r is Ok && applied_frame(*old(invocation), *final(invocation), frame),
            None => r matches Err(KnowledgeAgentError::Json(_)) && *final(invocation) == *old(invocation),
        },
{
    match parse_json(line) {
        Ok(frame) => {
            apply_frame(invocation, &frame);
            Ok(())
        },
        Err(message) => Err(KnowledgeAgentError::Json(message)),
    }
}

} // verus!
