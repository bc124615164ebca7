//! Observer-agent decisions: provider selection, model tiering, argument parsing, the
//! local deterministic observer's output and queue statistics.
use vstd::prelude::*;

use crate::agents::fallback_error_handler::{is_fallback_message, should_fallback_to_claude_message};
use crate::json::{get_str, json_get, json_parse, json_str, parse_json, str_member, JsonValue};
use crate::agents::response_processor::ActiveSession;
use crate::model::{PendingMessageRow, SdkSessionRow};
use crate::text::{
    chars_eq_str, chars_of, clone_opt_string, is_whitespace, is_ws, lowercase, opt_view,
    parse_unsigned, push_chars, push_str, replace_char, replace_char_exec, string_from_chars,
    strs_view, to_lowercase, trim, trim_bounds,
};

verus! {

broadcast use vstd::string::group_string_axioms;

#[derive(Debug, Clone, PartialEq, Eq)]
pub struct ObserverConfig {
    pub provider: String,
    pub model_id: Option<String>,
    pub tier_routing_enabled: bool,
    pub simple_model: Option<String>,
    pub summary_model: Option<String>,
    pub max_messages: usize,
}

/// A configured value, trimmed; absent when blank.
pub open spec fn setting_value(value: Option<Seq<char>>) -> Option<Seq<char>> {
    match value {
        Some(v) => if trim(v).len() > 0 {
            Some(trim(v))
        } else {
            None
        },
        None => None,
    }
}

/// `value` trimmed, or `None` when it is absent or blank.
pub fn non_empty_setting(value: Option<String>) -> (r: Option<String>)
    ensures
        opt_view(r) == setting_value(opt_view(value)),
{
    match value {
        None => None,
        Some(v) => {
            let c = chars_of(v.as_str());
            let (a, b) = trim_bounds(c.as_slice(), 0, c.len());
            assert(c@.subrange(0, c@.len() as int) =~= c@);
            if a == b {
                None
            } else {
                let t = crate::text::copy_range(c.as_slice(), a, b);
                Some(string_from_chars(t.as_slice()))
            }
        },
    }
}

/// The provider name the configuration selects: the first provider setting that is not
/// blank, else the second one as given, else `local`; in lowercase.
pub open spec fn provider_setting(provider: Option<Seq<char>>, agent_provider: Option<Seq<char>>) -> Seq<
    char,
> {
    match provider {
        Some(p) if trim(p).len() > 0 => lowercase(p),
        _ => match agent_provider {
            Some(a) => lowercase(a),
            None => lowercase("local"@),
        },
    }
}

impl ObserverConfig {
    /// The configuration described by raw settings: the provider settings
    /// (`CLAUDE_MEM_PROVIDER`, `CLAUDE_MEM_AGENT_PROVIDER`), the model, the tier-routing
    /// switch, the per-tier models and the queue limit. Tier routing is on unless the switch
    /// reads `false`; the limit defaults to 50 when it is absent or not a number.
    pub fn from_settings(
        provider: Option<String>,
        agent_provider: Option<String>,
        model: Option<String>,
        tier_routing: Option<String>,
        simple_model: Option<String>,
        summary_model: Option<String>,
        queue_limit: Option<String>,
    ) -> (r: Self)
        ensures
            r.provider@ == provider_setting(opt_view(provider), opt_view(agent_provider)),
            opt_view(r.model_id) == setting_value(opt_view(model)),
            r.tier_routing_enabled == match tier_routing {
                Some(v) => v@ != "false"@,
                None => true,
            },
            opt_view(r.simple_model) == setting_value(opt_view(simple_model)),
            opt_view(r.summary_model) == setting_value(opt_view(summary_model)),
            r.max_messages == match queue_limit {
                Some(v) => match parse_unsigned(v@, usize::MAX as int) {
                    Some(n) => n,
                    None => 50,
                },
                None => 50,
            },
    {
        let use_first = match &provider {
            Some(p) => {
                let c = chars_of(p.as_str());
                let (a, b) = trim_bounds(c.as_slice(), 0, c.len());
                assert(c@.subrange(0, c@.len() as int) =~= c@);
                a < b
            },
            None => false,
        };
        let provider_name = if use_first {
            match &provider {
                Some(p) => to_lowercase(p.as_str()),
                None => to_lowercase("local"),
            }
        } else {
            match &agent_provider {
                Some(a) => to_lowercase(a.as_str()),
                None => to_lowercase("local"),
            }
        };
        let tier_routing_enabled = match &tier_routing {
            Some(v) => {
                let c = chars_of(v.as_str());
                !chars_eq_str(c.as_slice(), "false")
            },
            None => true,
        };
        let max_messages: usize = match &queue_limit {
            Some(v) => match crate::text::parse_u64(v.as_str()) {
                Some(n) => if n <= usize::MAX as u64 {
                    n as usize
                } else {
                    50
                },
                None => {
                    proof {
                        lemma_parse_unsigned_within(v@, usize::MAX as int, u64::MAX as int);
                    }
                    50
                },
            },
            None => 50,
        };
        proof {
            if let Some(v) = queue_limit {
                lemma_parse_unsigned_within(v@, usize::MAX as int, u64::MAX as int);
            }
        }
        ObserverConfig {
            provider: provider_name,
            model_id: non_empty_setting(model),
            tier_routing_enabled,
            simple_model: non_empty_setting(simple_model),
            summary_model: non_empty_setting(summary_model),
            max_messages,
        }
    }
}

proof fn lemma_parse_unsigned_within(s: Seq<char>, small: int, big: int)
    requires
        small <= big,
    ensures
        parse_unsigned(s, small) == (match parse_unsigned(s, big) {
            Some(n) => if n <= small {
                Some(n)
            } else {
                None
            },
            None => None,
        }),
{
}

#[derive(Debug, Clone, Default, PartialEq, Eq)]
pub struct QueueProcessStats {
    pub total_pending_sessions: usize,
    pub sessions_started: usize,
    pub sessions_skipped: usize,
    pub started_session_ids: Vec<i64>,
    pub messages_processed: usize,
    pub messages_failed: usize,
    pub observations_inserted: usize,
    pub summaries_inserted: usize,
    pub observation_ids: Vec<i64>,
}

#[derive(Debug, Clone, PartialEq, Eq)]
pub struct AgentOutput {
    pub text: String,
    pub memory_session_id: Option<String>,
    pub provider: String,
    pub model_id: Option<String>,
}

/// A provider's time limit in seconds: the setting when it is a positive number, else the
/// default.
pub fn timeout_secs(setting: Option<&str>, default_secs: u64) -> (r: u64)
    ensures
        r == match setting {
            Some(v) => match parse_unsigned(v@, u64::MAX as int) {
                Some(n) if n > 0 => n as u64,
                _ => default_secs,
            },
            None => default_secs,
        },
{
    match setting {
        Some(v) => match crate::text::parse_u64(v) {
            Some(n) if n > 0 => n,
            _ => default_secs,
        },
        None => default_secs,
    }
}

/// What the observer is asked about a queued message: a summary of the session for a
/// `summarize` message, the tool call otherwise.
#[derive(Debug, Clone, PartialEq, Eq)]
pub enum PromptRequest {
    Summary {
        session_db_id: i64,
        memory_session_id: Option<String>,
        project: String,
        user_prompt: String,
        last_assistant_message: String,
    },
    Observation { tool_name: String, created_at_epoch: i64, cwd: Option<String> },
}

/// The request for a queued message; absent texts are empty and an unnamed tool is `Tool`.
pub fn prompt_request(session: &SdkSessionRow, message: &PendingMessageRow) -> (r: PromptRequest)
    ensures
        message.message_type@ == "summarize"@ ==> (r matches PromptRequest::Summary {
            session_db_id,
            memory_session_id,
            project,
            user_prompt,
            last_assistant_message,
        } && session_db_id == session.id && memory_session_id == session.memory_session_id
            && project == session.project && user_prompt@ == text_or(session.user_prompt, seq![])
            && last_assistant_message@ == text_or(message.last_assistant_message, seq![])),
        message.message_type@ != "summarize"@ ==> (r matches PromptRequest::Observation {
            tool_name,
            created_at_epoch,
            cwd,
        } && tool_name@ == text_or(message.tool_name, "Tool"@) && created_at_epoch
            == message.created_at_epoch && cwd == message.cwd),
{
    let kind = chars_of(message.message_type.as_str());
    if chars_eq_str(kind.as_slice(), "summarize") {
        PromptRequest::Summary {
            session_db_id: session.id,
            memory_session_id: clone_opt_string(&session.memory_session_id),
            project: session.project.clone(),
            user_prompt: match &session.user_prompt {
                Some(p) => p.clone(),
                None => String::new(),
            },
            last_assistant_message: match &message.last_assistant_message {
                Some(m) => m.clone(),
                None => String::new(),
            },
        }
    } else {
        PromptRequest::Observation {
            tool_name: match &message.tool_name {
                Some(t) => t.clone(),
                None => "Tool".to_owned(),
            },
            created_at_epoch: message.created_at_epoch,
            cwd: clone_opt_string(&message.cwd),
        }
    }
}

/// Adds the statistics of one session's run to the running totals; the total number of
/// pending sessions is left as it was.
pub fn merge_stats(target: &mut QueueProcessStats, source: QueueProcessStats)
    requires
        old(target).sessions_started + source.sessions_started <= usize::MAX,
        old(target).sessions_skipped + source.sessions_skipped <= usize::MAX,
        old(target).messages_processed + source.messages_processed <= usize::MAX,
        old(target).messages_failed + source.messages_failed <= usize::MAX,
        old(target).observations_inserted + source.observations_inserted <= usize::MAX,
        old(target).summaries_inserted + source.summaries_inserted <= usize::MAX,
    ensures
        final(target).total_pending_sessions == old(target).total_pending_sessions,
        final(target).sessions_started == old(target).sessions_started + source.sessions_started,
        final(target).sessions_skipped == old(target).sessions_skipped + source.sessions_skipped,
        final(target).started_session_ids@ == old(target).started_session_ids@
            + source.started_session_ids@,
        final(target).messages_processed == old(target).messages_processed
            + source.messages_processed,
        final(target).messages_failed == old(target).messages_failed + source.messages_failed,
        final(target).observations_inserted == old(target).observations_inserted
            + source.observations_inserted,
        final(target).summaries_inserted == old(target).summaries_inserted
            + source.summaries_inserted,
        final(target).observation_ids@ == old(target).observation_ids@ + source.observation_ids@,
{
    let mut source = source;
    target.sessions_started = target.sessions_started + source.sessions_started;
    target.sessions_skipped = target.sessions_skipped + source.sessions_skipped;
    target.started_session_ids.append(&mut source.started_session_ids);
    target.messages_processed = target.messages_processed + source.messages_processed;
    target.messages_failed = target.messages_failed + source.messages_failed;
    target.observations_inserted = target.observations_inserted + source.observations_inserted;
    target.summaries_inserted = target.summaries_inserted + source.summaries_inserted;
    target.observation_ids.append(&mut source.observation_ids);
}

/// The agent backends the observer can run.
#[derive(Debug, Clone, Copy, PartialEq, Eq)]
pub enum ProviderKind {
    Fake,
    Claude,
    Gemini,
    GeminiCli,
    OpenRouter,
    Codex,
    Local,
}

pub open spec fn is_claude_provider(p: Seq<char>) -> bool {
    p == "assistant"@ || p == "assistant-cli"@ || p == "assistant_code"@ || p == "assistant-code"@
}

/// The backend a provider name selects; unknown names select the local observer.
pub open spec fn provider_kind(p: Seq<char>) -> ProviderKind {
    if p == "fake"@ {
        ProviderKind::Fake
    } else if is_claude_provider(p) {
        ProviderKind::Claude
    } else if p == "gemini"@ {
        ProviderKind::Gemini
    } else if p == "gemini-cli"@ || p == "gemini_cli"@ {
        ProviderKind::GeminiCli
    } else if p == "openrouter"@ {
        ProviderKind::OpenRouter
    } else if p == "codex"@ || p == "codex-cli"@ || p == "codex_cli"@ {
        ProviderKind::Codex
    } else {
        ProviderKind::Local
    }
}

/// The provider names: `fake` selects the fake runner; `assistant`, `assistant-cli`,
/// `assistant_code` and `assistant-code` the agent CLI; `gemini` the Gemini API; `gemini-cli`
/// and `gemini_cli` the Gemini CLI; `openrouter` OpenRouter; `codex`, `codex-cli` and
/// `codex_cli` the Codex CLI; any other name the local observer.
pub proof fn law_provider_names(p: Seq<char>)
    ensures
        (provider_kind(p) == ProviderKind::Fake) == (p == "fake"@),
        (provider_kind(p) == ProviderKind::Claude) == (p == "assistant"@ || p == "assistant-cli"@ || p
            == "assistant_code"@ || p == "assistant-code"@),
        (provider_kind(p) == ProviderKind::Gemini) == (p == "gemini"@),
        (provider_kind(p) == ProviderKind::GeminiCli) == (p == "gemini-cli"@ || p == "gemini_cli"@),
        (provider_kind(p) == ProviderKind::OpenRouter) == (p == "openrouter"@),
        (provider_kind(p) == ProviderKind::Codex) == (p == "codex"@ || p == "codex-cli"@ || p == "codex_cli"@),
{
    reveal_strlit("fake");
    reveal_strlit("assistant");
    reveal_strlit("assistant-cli");
    reveal_strlit("assistant_code");
    reveal_strlit("assistant-code");
    reveal_strlit("gemini");
    reveal_strlit("gemini-cli");
    reveal_strlit("gemini_cli");
    reveal_strlit("openrouter");
    reveal_strlit("codex");
    reveal_strlit("codex-cli");
    reveal_strlit("codex_cli");
    assert("fake"@[0] == 'f' && "assistant"@[0] == 'a' && "assistant-cli"@[0] == 'a' && "assistant_code"@[0]
        == 'a' && "assistant-code"@[0] == 'a');
    assert("gemini"@[0] == 'g' && "gemini-cli"@[0] == 'g' && "gemini_cli"@[0] == 'g' && "openrouter"@[0]
        == 'o');
    assert("codex"@[0] == 'c' && "codex-cli"@[0] == 'c' && "codex_cli"@[0] == 'c');
    assert("gemini"@.len() != "gemini-cli"@.len() && "gemini"@.len() != "gemini_cli"@.len());
}

fn is_claude_provider_exec(p: &[char]) -> (r: bool)
    ensures
        r == is_claude_provider(p@),
{
    chars_eq_str(p, "assistant") || chars_eq_str(p, "assistant-cli") || chars_eq_str(p, "assistant_code")
        || chars_eq_str(p, "assistant-code")
}

#[derive(Debug, Clone)]
pub struct AgentRunner {
    pub provider: String,
}

impl AgentRunner {
    pub fn new(provider: String) -> (r: Self)
        ensures
            r.provider == provider,
    {
        Self { provider }
    }

    /// The backend this runner dispatches to.
    pub fn kind(&self) -> (r: ProviderKind)
        ensures
            r == provider_kind(self.provider@),
    {
        let p = chars_of(self.provider.as_str());
        let p = p.as_slice();
        if chars_eq_str(p, "fake") {
            ProviderKind::Fake
        } else if is_claude_provider_exec(p) {
            ProviderKind::Claude
        } else if chars_eq_str(p, "gemini") {
            ProviderKind::Gemini
        } else if chars_eq_str(p, "gemini-cli") || chars_eq_str(p, "gemini_cli") {
            ProviderKind::GeminiCli
        } else if chars_eq_str(p, "openrouter") {
            ProviderKind::OpenRouter
        } else if chars_eq_str(p, "codex") || chars_eq_str(p, "codex-cli") || chars_eq_str(
            p,
            "codex_cli",
        ) {
            ProviderKind::Codex
        } else {
            ProviderKind::Local
        }
    }
}

/// Whether a failed run of the configured provider should be retried with the agent CLI:
/// the provider is not the agent CLI already and the error looks transient.
pub fn should_try_claude_fallback(config: &ObserverConfig, error_message: &str) -> (r: bool)
    ensures
        r == (!is_claude_provider(config.provider@) && is_fallback_message(error_message@)),
{
    let p = chars_of(config.provider.as_str());
    !is_claude_provider_exec(p.as_slice()) && should_fallback_to_claude_message(error_message)
}

pub open spec fn is_simple_tool(t: Seq<char>) -> bool {
    t == "Read"@ || t == "Glob"@ || t == "Grep"@ || t == "LS"@ || t == "TodoRead"@
}

/// A pending message of kind `observation` for one of the read-only tools.
pub open spec fn is_simple_pending(p: (String, Option<String>)) -> bool {
    p.0@ == "observation"@ && match p.1 {
        Some(t) => is_simple_tool(t@),
        None => false,
    }
}

pub open spec fn or_model(preferred: Option<String>, fallback: Option<String>) -> Option<String> {
    match preferred {
        Some(m) => Some(m),
        None => fallback,
    }
}

/// The model for a session's next run, given the kind and tool of each pending message:
/// the summary model when a summary is pending, the simple model when every pending message
/// is a read-only tool observation, else the default model; each tier model falls back to
/// the default one, and tier routing can be switched off.
pub open spec fn chosen_model(config: ObserverConfig, pending: Seq<(String, Option<String>)>) -> Option<
    String,
> {
    if !config.tier_routing_enabled || pending.len() == 0 {
        config.model_id
    } else if exists|i: int| 0 <= i < pending.len() && (#[trigger] pending[i]).0@ == "summarize"@ {
        or_model(config.summary_model, config.model_id)
    } else if forall|i: int| 0 <= i < pending.len() ==> is_simple_pending(#[trigger] pending[i]) {
        or_model(config.simple_model, config.model_id)
    } else {
        config.model_id
    }
}

/// Tier routing: with routing on, a non-empty queue of observations of the read-only tools
/// `Read`, `Glob`, `Grep`, `LS` and `TodoRead` runs on the simple model when one is set (else
/// the default model); a queue with no summary in it but an observation of any other tool,
/// or a message of another kind, runs on the default model.
pub proof fn law_simple_tier(config: ObserverConfig, pending: Seq<(String, Option<String>)>)
    requires
        config.tier_routing_enabled,
        pending.len() > 0,
    ensures
        (forall|i: int|
            0 <= i < pending.len() ==> (#[trigger] pending[i]).0@ == "observation"@ && pending[i].1 is Some
                && (pending[i].1->Some_0@ == "Read"@ || pending[i].1->Some_0@ == "Glob"@
                || pending[i].1->Some_0@ == "Grep"@ || pending[i].1->Some_0@ == "LS"@
                || pending[i].1->Some_0@ == "TodoRead"@)) ==> chosen_model(config, pending) == match config.simple_model {
            Some(m) => Some(m),
            None => config.model_id,
        },
        (forall|i: int| 0 <= i < pending.len() ==> (#[trigger] pending[i]).0@ != "summarize"@) && (exists|i: int|
            0 <= i < pending.len() && !((#[trigger] pending[i]).0@ == "observation"@ && pending[i].1 is Some
                && (pending[i].1->Some_0@ == "Read"@ || pending[i].1->Some_0@ == "Glob"@
                || pending[i].1->Some_0@ == "Grep"@ || pending[i].1->Some_0@ == "LS"@
                || pending[i].1->Some_0@ == "TodoRead"@))) ==> chosen_model(config, pending)
            == config.model_id,
{
    reveal_strlit("observation");
    reveal_strlit("summarize");
    assert("observation"@[0] != "summarize"@[0]);
    if forall|i: int|
        0 <= i < pending.len() ==> (#[trigger] pending[i]).0@ == "observation"@ && pending[i].1 is Some
            && (pending[i].1->Some_0@ == "Read"@ || pending[i].1->Some_0@ == "Glob"@
                || pending[i].1->Some_0@ == "Grep"@ || pending[i].1->Some_0@ == "LS"@
                || pending[i].1->Some_0@ == "TodoRead"@) {
        assert(pending[0].0@ == "observation"@);
        assert forall|i: int| 0 <= i < pending.len() implies (#[trigger] pending[i]).0@ != "summarize"@ by {
            assert(pending[i].0@ == "observation"@);
        }
        assert forall|i: int| 0 <= i < pending.len() implies is_simple_pending(#[trigger] pending[i]) by {
            assert(pending[i].0@ == "observation"@);
        }
    }
    if (forall|i: int| 0 <= i < pending.len() ==> (#[trigger] pending[i]).0@ != "summarize"@) && (exists|i: int|
        0 <= i < pending.len() && !((#[trigger] pending[i]).0@ == "observation"@ && pending[i].1 is Some
            && (pending[i].1->Some_0@ == "Read"@ || pending[i].1->Some_0@ == "Glob"@
                || pending[i].1->Some_0@ == "Grep"@ || pending[i].1->Some_0@ == "LS"@
                || pending[i].1->Some_0@ == "TodoRead"@))) {
        let i = choose|i: int|
            0 <= i < pending.len() && !((#[trigger] pending[i]).0@ == "observation"@ && pending[i].1 is Some
                && (pending[i].1->Some_0@ == "Read"@ || pending[i].1->Some_0@ == "Glob"@
                || pending[i].1->Some_0@ == "Grep"@ || pending[i].1->Some_0@ == "LS"@
                || pending[i].1->Some_0@ == "TodoRead"@));
        assert(!is_simple_pending(pending[i]));
    }
}

fn is_simple_tool_exec(t: &[char]) -> (r: bool)
    ensures
        r == is_simple_tool(t@),
{
    chars_eq_str(t, "Read") || chars_eq_str(t, "Glob") || chars_eq_str(t, "Grep")
        || chars_eq_str(t, "LS") || chars_eq_str(t, "TodoRead")
}

/// The model for a session's next run, given the kind and tool of each of its pending
/// messages in queue order.
pub fn choose_model_for_pending(config: &ObserverConfig, pending: &Vec<(String, Option<String>)>) -> (r:
    Option<String>)
    ensures
        r == chosen_model(*config, pending@),
{
    if !config.tier_routing_enabled || pending.len() == 0 {
        return clone_opt_string(&config.model_id);
    }
    let mut i: usize = 0;
    let mut all_simple = true;
    while i < pending.len()
        invariant
            i <= pending@.len(),
            config.tier_routing_enabled,
            pending@.len() > 0,
            forall|j: int| 0 <= j < i ==> (#[trigger] pending@[j]).0@ != "summarize"@,
            all_simple == (forall|j: int| 0 <= j < i ==> is_simple_pending(#[trigger] pending@[j])),
        decreases pending.len() - i,
    {
        let kind = chars_of(pending[i].0.as_str());
        if chars_eq_str(kind.as_slice(), "summarize") {
            assert(pending@[i as int].0@ == "summarize"@);
            return match &config.summary_model {
                Some(m) => Some(m.clone()),
                None => clone_opt_string(&config.model_id),
            };
        }
        let simple = chars_eq_str(kind.as_slice(), "observation") && match &pending[i].1 {
            Some(t) => {
                let tc = chars_of(t.as_str());
                is_simple_tool_exec(tc.as_slice())
            },
            None => false,
        };
        all_simple = all_simple && simple;
        i = i + 1;
    }
    if all_simple {
        match &config.simple_model {
            Some(m) => Some(m.clone()),
            None => clone_opt_string(&config.model_id),
        }
    } else {
        clone_opt_string(&config.model_id)
    }
}

/// The memory session id to record for a session that has none: the one the provider
/// reported unless blank, else one derived from the provider name and the content session.
pub open spec fn derived_memory_session_id(
    observed: Option<Seq<char>>,
    provider: Seq<char>,
    content_session_id: Seq<char>,
) -> Seq<char> {
    match observed {
        Some(o) if trim(o).len() > 0 => o,
        _ => replace_char(lowercase(provider), ' ', '-') + "-memory:"@ + content_session_id,
    }
}

pub fn memory_session_id_for(observed: Option<&str>, provider: &str, content_session_id: &str) -> (r:
    String)
    ensures
        r@ == derived_memory_session_id(
            match observed {
                Some(o) => Some(o@),
                None => None,
            },
            provider@,
            content_session_id@,
        ),
{
    if let Some(o) = observed {
        let c = chars_of(o);
        let (a, b) = trim_bounds(c.as_slice(), 0, c.len());
        assert(c@.subrange(0, c@.len() as int) =~= c@);
        if a < b {
            return o.to_owned();
        }
    }
    let lower = to_lowercase(provider);
    let lc = chars_of(lower.as_str());
    let mut out = replace_char_exec(lc.as_slice(), ' ', '-');
    push_str(&mut out, "-memory:");
    push_str(&mut out, content_session_id);
    string_from_chars(out.as_slice())
}

/// Whether an agent CLI run resumes the session's agent conversation: resuming is not switched
/// off, the session has a non-blank memory session id, and a queued message is being run.
pub fn should_resume_claude(resume_switched_off: bool, session: &SdkSessionRow, has_message: bool) -> (r:
    bool)
    ensures
        r == (!resume_switched_off && match session.memory_session_id {
            Some(id) => trim(id@).len() > 0,
            None => false,
        } && has_message),
{
    if resume_switched_off {
        return false;
    }
    let nonblank = match &session.memory_session_id {
        Some(id) => {
            let c = chars_of(id.as_str());
            let (a, b) = trim_bounds(c.as_slice(), 0, c.len());
            assert(c@.subrange(0, c@.len() as int) =~= c@);
            a < b
        },
        None => false,
    };
    nonblank && has_message
}


/// The state of a left-to-right scan that splits a command line into words.
pub struct ShellScan {
    pub words: Seq<Seq<char>>,
    pub current: Seq<char>,
    pub quote: Option<char>,
    pub escaped: bool,
    pub started: bool,
}

pub open spec fn shell_scan_start() -> ShellScan {
    ShellScan { words: seq![], current: seq![], quote: None, escaped: false, started: false }
}

/// One character of the scan: a backslash takes the next character literally; inside
/// quotes everything but the closing quote is literal; outside them, `'` or `"` opens a
/// quoted span, whitespace ends a started word, and anything else extends the word.
pub open spec fn shell_step(st: ShellScan, ch: char) -> ShellScan {
    if st.escaped {
        ShellScan {
            words: st.words,
            current: st.current.push(ch),
            quote: st.quote,
            escaped: false,
            started: true,
        }
    } else if ch == '\\' {
        ShellScan {
            words: st.words,
            current: st.current,
            quote: st.quote,
            escaped: true,
            started: st.started,
        }
    } else if st.quote is Some {
        if Some(ch) == st.quote {
            ShellScan {
                words: st.words,
                current: st.current,
                quote: None,
                escaped: false,
                started: true,
            }
        } else {
            ShellScan {
                words: st.words,
                current: st.current.push(ch),
                quote: st.quote,
                escaped: false,
                started: true,
            }
        }
    } else if ch == '\'' || ch == '"' {
        ShellScan {
            words: st.words,
            current: st.current,
            quote: Some(ch),
            escaped: false,
            started: true,
        }
    } else if is_ws(ch) {
        if st.started {
            ShellScan {
                words: st.words.push(st.current),
                current: seq![],
                quote: None,
                escaped: false,
                started: false,
            }
        } else {
            st
        }
    } else {
        ShellScan {
            words: st.words,
            current: st.current.push(ch),
            quote: st.quote,
            escaped: false,
            started: true,
        }
    }
}

pub open spec fn shell_scan(s: Seq<char>) -> ShellScan
    decreases s.len(),
{
    if s.len() == 0 {
        shell_scan_start()
    } else {
        shell_step(shell_scan(s.drop_last()), s.last())
    }
}

/// The words of a command line, with shell-style quoting and backslash escapes.
pub open spec fn shell_words_spec(s: Seq<char>) -> Seq<Seq<char>> {
    let st = shell_scan(s);
    if st.started {
        st.words.push(st.current)
    } else {
        st.words
    }
}

/// Splits a command line into words, honouring quotes and backslash escapes.
pub fn shell_words(value: &str) -> (r: Vec<String>)
    ensures
        strs_view(r@) == shell_words_spec(value@),
{
    let chars = chars_of(value);
    let mut out: Vec<String> = Vec::new();
    let mut current: Vec<char> = Vec::new();
    let mut quote: Option<char> = None;
    let mut escaped = false;
    let mut token_started = false;
    let mut i: usize = 0;
    while i < chars.len()
        invariant
            i <= chars@.len(),
            chars@ == value@,
            ({
                let st = shell_scan(chars@.subrange(0, i as int));
                &&& strs_view(out@) == st.words
                &&& current@ == st.current
                &&& quote == st.quote
                &&& escaped == st.escaped
                &&& token_started == st.started
            }),
        decreases chars.len() - i,
    {
        let ch = chars[i];
        assert(chars@.subrange(0, i + 1).drop_last() =~= chars@.subrange(0, i as int));
        assert(chars@.subrange(0, i + 1).last() == ch);
        if escaped {
            current.push(ch);
            escaped = false;
            token_started = true;
        } else if ch == '\\' {
            escaped = true;
        } else if quote.is_some() {
            if Some(ch) == quote {
                quote = None;
            } else {
                current.push(ch);
            }
            token_started = true;
        } else if ch == '\'' || ch == '"' {
            quote = Some(ch);
            token_started = true;
        } else if is_whitespace(ch) {
            if token_started {
                let ghost out0 = out@;
                let word = string_from_chars(current.as_slice());
                out.push(word);
                assert(strs_view(out@) =~= strs_view(out0).push(current@));
                current = Vec::new();
                token_started = false;
            }
        } else {
            current.push(ch);
            token_started = true;
        }
        i = i + 1;
    }
    assert(chars@.subrange(0, chars@.len() as int) =~= chars@);
    if token_started {
        let ghost out0 = out@;
        out.push(string_from_chars(current.as_slice()));
        assert(strs_view(out@) =~= strs_view(out0).push(current@));
    }
    out
}

/// The XML escape of one character: `&`, `<` and `>` become entities.
pub open spec fn xml_escape_char(c: char) -> Seq<char> {
    if c == '&' {
        seq!['&', 'a', 'm', 'p', ';']
    } else if c == '<' {
        seq!['&', 'l', 't', ';']
    } else if c == '>' {
        seq!['&', 'g', 't', ';']
    } else {
        seq![c]
    }
}

/// `s` with `&`, `<` and `>` escaped.
pub open spec fn xml_escape_spec(s: Seq<char>) -> Seq<char>
    decreases s.len(),
{
    if s.len() == 0 {
        seq![]
    } else {
        xml_escape_spec(s.drop_last()) + xml_escape_char(s.last())
    }
}

/// Escaped text holds no `<` or `>`, and text without `&`, `<` and `>` is left as it is.
pub proof fn lemma_xml_escape(s: Seq<char>)
    ensures
        forall|i: int| 0 <= i < xml_escape_spec(s).len() ==> #[trigger] xml_escape_spec(s)[i] != '<'
            && xml_escape_spec(s)[i] != '>',
        (forall|i: int| 0 <= i < s.len() ==> #[trigger] s[i] != '&' && s[i] != '<' && s[i] != '>')
            ==> xml_escape_spec(s) == s,
    decreases s.len(),
{
    if s.len() > 0 {
        let p = s.drop_last();
        lemma_xml_escape(p);
        let e = xml_escape_spec(p);
        let t = xml_escape_char(s.last());
        assert forall|i: int| 0 <= i < (e + t).len() implies #[trigger] (e + t)[i] != '<' && (e + t)[i] != '>' by {
            if i >= e.len() {
                assert((e + t)[i] == t[i - e.len()]);
            }
        }
        if forall|i: int| 0 <= i < s.len() ==> #[trigger] s[i] != '&' && s[i] != '<' && s[i] != '>' {
            assert forall|i: int| 0 <= i < p.len() implies #[trigger] p[i] != '&' && p[i] != '<' && p[i] != '>' by {
                assert(p[i] == s[i]);
            }
            assert(s[s.len() - 1] == s.last());
            assert(e + t =~= s);
        }
    }
}

pub fn xml_escape_chars(s: &[char]) -> (r: Vec<char>)
    ensures
        r@ == xml_escape_spec(s@),
{
    let mut out: Vec<char> = Vec::new();
    let mut i: usize = 0;
    while i < s.len()
        invariant
            i <= s@.len(),
            out@ == xml_escape_spec(s@.subrange(0, i as int)),
        decreases s.len() - i,
    {
        let c = s[i];
        assert(s@.subrange(0, i + 1).drop_last() =~= s@.subrange(0, i as int));
        let ghost out0 = out@;
        if c == '&' {
            out.push('&');
            out.push('a');
            out.push('m');
            out.push('p');
            out.push(';');
        } else if c == '<' {
            out.push('&');
            out.push('l');
            out.push('t');
            out.push(';');
        } else if c == '>' {
            out.push('&');
            out.push('g');
            out.push('t');
            out.push(';');
        } else {
            out.push(c);
        }
        assert(out@ =~= out0 + xml_escape_char(c));
        i = i + 1;
    }
    assert(s@.subrange(0, s@.len() as int) =~= s@);
    out
}

/// `value` with `&`, `<` and `>` replaced by `&amp;`, `&lt;` and `&gt;`.
pub fn xml_escape(value: &str) -> (r: String)
    ensures
        r@ == xml_escape_spec(value@),
{
    let c = chars_of(value);
    let e = xml_escape_chars(c.as_slice());
    string_from_chars(e.as_slice())
}


/// `a` when present, else `b`.
pub open spec fn either(a: Option<JsonValue>, b: Option<JsonValue>) -> Option<JsonValue> {
    if a is Some {
        a
    } else {
        b
    }
}

pub open spec fn str_of(o: Option<JsonValue>) -> Option<Seq<char>> {
    match o {
        Some(x) => json_str(x),
        None => None,
    }
}

pub open spec fn deref_json(o: Option<&JsonValue>) -> Option<JsonValue> {
    match o {
        Some(x) => Some(*x),
        None => None,
    }
}

/// The first of `result`, `response`, `text` and `content` that is present, when it is a
/// string.
pub open spec fn direct_text(v: JsonValue) -> Option<Seq<char>> {
    str_of(
        either(
            json_get(v, "result"@),
            either(json_get(v, "response"@), either(json_get(v, "text"@), json_get(v, "content"@))),
        ),
    )
}

/// `message.content`, when it is a string.
pub open spec fn message_text(v: JsonValue) -> Option<Seq<char>> {
    match json_get(v, "message"@) {
        Some(m) => str_member(m, "content"@),
        None => None,
    }
}

/// `choices[0].message.content`, when it is a string.
pub open spec fn choice_text(v: JsonValue) -> Option<Seq<char>> {
    match json_get(v, "choices"@) {
        Some(JsonValue::Array(items)) => if items@.len() > 0 {
            message_text(items@[0])
        } else {
            None
        },
        _ => None,
    }
}

/// The reply text a provider's JSON carries, in the first of the places providers put it.
pub open spec fn provider_text(v: JsonValue) -> Option<Seq<char>> {
    if direct_text(v) is Some {
        direct_text(v)
    } else if message_text(v) is Some {
        message_text(v)
    } else {
        choice_text(v)
    }
}

/// The session id a provider's JSON reports under one of its names.
pub open spec fn session_id_of(v: JsonValue) -> Option<Seq<char>> {
    str_of(
        either(
            json_get(v, "session_id"@),
            either(json_get(v, "memorySessionId"@), json_get(v, "sessionId"@)),
        ),
    )
}

fn get_either<'a>(v: &'a JsonValue, k1: &str, k2: &str) -> (r: Option<&'a JsonValue>)
    ensures
        deref_json(r) == either(json_get(*v, k1@), json_get(*v, k2@)),
{
    match v.get(k1) {
        Some(x) => Some(x),
        None => v.get(k2),
    }
}

fn as_text(o: Option<&JsonValue>) -> (r: Option<String>)
    ensures
        crate::text::opt_view(r) == str_of(deref_json(o)),
{
    match o {
        Some(x) => match x.as_str() {
            Some(s) => Some(s.clone()),
            None => None,
        },
        None => None,
    }
}

fn message_content(v: &JsonValue) -> (r: Option<String>)
    ensures
        crate::text::opt_view(r) == message_text(*v),
{
    match v.get("message") {
        Some(m) => match get_str(m, "content") {
            Some(s) => Some(s.clone()),
            None => None,
        },
        None => None,
    }
}

/// The reply text in a provider's JSON.
pub fn provider_text_from_value(value: &JsonValue) -> (r: Option<String>)
    ensures
        crate::text::opt_view(r) == provider_text(*value),
{
    let first = match value.get("result") {
        Some(x) => Some(x),
        None => match value.get("response") {
            Some(x) => Some(x),
            None => get_either(value, "text", "content"),
        },
    };
    if let Some(t) = as_text(first) {
        return Some(t);
    }
    if let Some(t) = message_content(value) {
        return Some(t);
    }
    match value.get("choices") {
        Some(c) => match c.as_array() {
            Some(items) => {
                if items.len() > 0 {
                    message_content(&items[0])
                } else {
                    None
                }
            },
            None => None,
        },
        None => None,
    }
}

/// The reply of a chat completion: `choices[0].message.content`, or empty without one.
pub fn openrouter_reply_text(value: &JsonValue) -> (r: String)
    ensures
        r@ == match choice_text(*value) {
            Some(t) => t,
            None => Seq::<char>::empty(),
        },
{
    let found = match value.get("choices") {
        Some(c) => match c.as_array() {
            Some(items) => {
                if items.len() > 0 {
                    message_content(&items[0])
                } else {
                    None
                }
            },
            None => None,
        },
        None => None,
    };
    match found {
        Some(t) => t,
        None => String::new(),
    }
}

/// The parts of the first candidate of a Gemini reply, `candidates[0].content.parts`.
pub open spec fn gemini_parts(v: JsonValue) -> Seq<JsonValue> {
    match json_get(v, "candidates"@) {
        Some(JsonValue::Array(c)) => if c@.len() > 0 {
            match json_get(c@[0], "content"@) {
                Some(content) => match json_get(content, "parts"@) {
                    Some(JsonValue::Array(p)) => p@,
                    _ => seq![],
                },
                None => seq![],
            }
        } else {
            seq![]
        },
        _ => seq![],
    }
}

/// The `text` of each part that has one, in order.
pub open spec fn part_texts(parts: Seq<JsonValue>) -> Seq<Seq<char>>
    decreases parts.len(),
{
    if parts.len() == 0 {
        seq![]
    } else {
        part_texts(parts.drop_last()) + match str_member(parts.last(), "text"@) {
            Some(t) => seq![t],
            None => seq![],
        }
    }
}

fn gemini_parts_of(value: &JsonValue) -> (r: Option<&Vec<JsonValue>>)
    ensures
        match r {
            Some(p) => p@ == gemini_parts(*value),
            None => gemini_parts(*value) == Seq::<JsonValue>::empty(),
        },
{
    let c = match value.get("candidates") {
        Some(c) => c,
        None => return None,
    };
    let items = match c.as_array() {
        Some(items) => items,
        None => return None,
    };
    if items.len() == 0 {
        return None;
    }
    let content = match items[0].get("content") {
        Some(x) => x,
        None => return None,
    };
    match content.get("parts") {
        Some(p) => p.as_array(),
        None => None,
    }
}

/// The reply of a Gemini model: the texts of the first candidate's parts, one per line.
pub fn gemini_reply_text(value: &JsonValue) -> (r: String)
    ensures
        r@ == crate::text::join(part_texts(gemini_parts(*value)), "\n"@),
{
    let mut texts: Vec<String> = Vec::new();
    if let Some(parts) = gemini_parts_of(value) {
        let mut i: usize = 0;
        while i < parts.len()
            invariant
                i <= parts@.len(),
                parts@ == gemini_parts(*value),
                strs_view(texts@) == part_texts(parts@.take(i as int)),
            decreases parts.len() - i,
        {
            let ghost before = texts@;
            proof {
                assert(parts@.take(i + 1).drop_last() =~= parts@.take(i as int));
                assert(parts@.take(i + 1).last() == parts@[i as int]);
            }
            match get_str(&parts[i], "text") {
                Some(t) => {
                    texts.push(t.clone());
                    assert(strs_view(texts@) =~= strs_view(before).push(t@));
                },
                None => {},
            }
            i = i + 1;
        }
        assert(parts@.take(parts@.len() as int) =~= parts@);
    } else {
        assert(strs_view(texts@) =~= part_texts(Seq::<JsonValue>::empty()));
    }
    crate::text::join_strings(&texts, "\n")
}

/// The session id in a provider's JSON.
pub fn find_session_id(value: &JsonValue) -> (r: Option<String>)
    ensures
        crate::text::opt_view(r) == session_id_of(*value),
{
    let found = match value.get("session_id") {
        Some(x) => Some(x),
        None => get_either(value, "memorySessionId", "sessionId"),
    };
    as_text(found)
}

/// What one line of streamed output adds: its reply text, else its `delta` or `partial`
/// text; nothing when the line is not JSON.
pub open spec fn stream_piece(line: Seq<char>) -> Option<Seq<char>> {
    match json_parse(line) {
        Some(v) => if provider_text(v) is Some {
            provider_text(v)
        } else {
            str_of(either(json_get(v, "delta"@), json_get(v, "partial"@)))
        },
        None => None,
    }
}

pub open spec fn stream_pieces(lines: Seq<Seq<char>>) -> Seq<Seq<char>>
    decreases lines.len(),
{
    if lines.len() == 0 {
        seq![]
    } else {
        let prev = stream_pieces(lines.drop_last());
        match stream_piece(lines.last()) {
            Some(p) => prev.push(p),
            None => prev,
        }
    }
}

/// The text of streamed JSON output: the pieces of its non-blank lines, one per line.
pub open spec fn stream_text(raw: Seq<char>) -> Option<Seq<char>> {
    let pieces = stream_pieces(crate::text::nonblank_trimmed(crate::text::split_by(raw, crate::text::newline_sep())));
    if pieces.len() == 0 {
        None
    } else {
        Some(crate::text::join(pieces, "\n"@))
    }
}

fn stream_piece_exec(line: &str) -> (r: Option<String>)
    ensures
        crate::text::opt_view(r) == stream_piece(line@),
{
    match parse_json(line) {
        Ok(v) => match provider_text_from_value(&v) {
            Some(p) => Some(p),
            None => as_text(get_either(&v, "delta", "partial")),
        },
        Err(_) => None,
    }
}

/// The text of streamed JSON output, when any line carries some.
pub fn parse_stream_json(raw: &str) -> (r: Option<String>)
    ensures
        crate::text::opt_view(r) == stream_text(raw@),
{
    let c = chars_of(raw);
    let pieces = crate::text::split_chars(c.as_slice(), crate::text::Separator::Newline);
    let lines = crate::text::nonblank_trimmed_chars(&pieces);
    let ghost ls = crate::text::chars_vecs_view(lines@);
    let mut out: Vec<Vec<char>> = Vec::new();
    let mut i: usize = 0;
    while i < lines.len()
        invariant
            i <= lines@.len(),
            ls == crate::text::chars_vecs_view(lines@),
            crate::text::chars_vecs_view(out@) == stream_pieces(ls.take(i as int)),
        decreases lines.len() - i,
    {
        assert(ls.take(i + 1).drop_last() =~= ls.take(i as int));
        assert(ls.take(i + 1).last() == lines@[i as int]@);
        let line = string_from_chars(lines[i].as_slice());
        let ghost o0 = out@;
        if let Some(p) = stream_piece_exec(line.as_str()) {
            out.push(chars_of(p.as_str()));
            assert(crate::text::chars_vecs_view(out@) =~= crate::text::chars_vecs_view(o0).push(p@));
        }
        i = i + 1;
    }
    assert(ls.take(lines@.len() as int) =~= ls);
    if out.len() == 0 {
        None
    } else {
        let nl = vec!['\n'];
        assert(nl@ =~= "\n"@) by {
            reveal_strlit("\n");
        }
        let j = crate::text::join_chars(&out, nl.as_slice());
        Some(string_from_chars(j.as_slice()))
    }
}

/// The JSON value that starts at the last `{` of `raw[..n]` from which the rest of `raw`
/// parses.
pub open spec fn mixed_json_below(raw: Seq<char>, n: int) -> Option<JsonValue>
    decreases n,
{
    if n <= 0 {
        None
    } else if raw[n - 1] == '{' && json_parse(raw.skip(n - 1)) is Some {
        json_parse(raw.skip(n - 1))
    } else {
        mixed_json_below(raw, n - 1)
    }
}

/// The JSON value at the end of output that has other text before it: the parse of the
/// suffix from the last `{` at which the suffix is valid JSON.
pub fn parse_mixed_output_json(raw: &str) -> (r: Option<JsonValue>)
    ensures
        r == mixed_json_below(raw@, raw@.len() as int),
{
    let c = chars_of(raw);
    let mut n = c.len();
    while n > 0
        invariant
            n <= c@.len(),
            c@ == raw@,
            mixed_json_below(raw@, raw@.len() as int) == mixed_json_below(raw@, n as int),
        decreases n,
    {
        if c[n - 1] == '{' {
            let tail = crate::text::copy_range(c.as_slice(), n - 1, c.len());
            assert(tail@ =~= raw@.skip(n - 1));
            let t = string_from_chars(tail.as_slice());
            if let Ok(v) = parse_json(t.as_str()) {
                return Some(v);
            }
        }
        n = n - 1;
    }
    None
}

pub open spec fn or_text(o: Option<Seq<char>>, fallback: Seq<char>) -> Seq<char> {
    match o {
        Some(t) => t,
        None => fallback,
    }
}

/// The reply text and session id of a provider's raw output: nothing for blank output; the
/// fields of its JSON when it is JSON, or of the JSON at its end; else the text of its
/// streamed lines; the raw output itself wherever no text is found.
pub open spec fn provider_reply(raw: Seq<char>) -> Option<(Seq<char>, Option<Seq<char>>)> {
    if trim(raw).len() == 0 {
        None
    } else {
        match json_parse(raw) {
            Some(v) => Some((or_text(provider_text(v), raw), session_id_of(v))),
            None => match mixed_json_below(raw, raw.len() as int) {
                Some(v) => Some((or_text(provider_text(v), raw), session_id_of(v))),
                None => Some((or_text(stream_text(raw), raw), None)),
            },
        }
    }
}

pub open spec fn reply_view(r: Option<(String, Option<String>)>) -> Option<(Seq<char>, Option<Seq<char>>)> {
    match r {
        Some((t, s)) => Some((t@, opt_view(s))),
        None => None,
    }
}

fn reply_from(value: &JsonValue, raw: &str) -> (r: (String, Option<String>))
    ensures
        r.0@ == or_text(provider_text(*value), raw@),
        opt_view(r.1) == session_id_of(*value),
{
    let session = find_session_id(value);
    let text = match provider_text_from_value(value) {
        Some(t) => t,
        None => raw.to_owned(),
    };
    (text, session)
}

/// The reply text and session id in a provider's raw output.
pub fn parse_provider_text_and_session(raw: &str) -> (r: Option<(String, Option<String>)>)
    ensures
        reply_view(r) == provider_reply(raw@),
{
    let c = chars_of(raw);
    let t = crate::text::trim_chars(c.as_slice());
    if t.len() == 0 {
        return None;
    }
    match parse_json(raw) {
        Ok(value) => Some(reply_from(&value, raw)),
        Err(_) => match parse_mixed_output_json(raw) {
            Some(value) => Some(reply_from(&value, raw)),
            None => {
                let text = match parse_stream_json(raw) {
                    Some(s) => s,
                    None => raw.to_owned(),
                };
                Some((text, None))
            },
        },
    }
}

/// The tools whose file argument is read rather than changed.
pub open spec fn is_reading_tool(tool: Seq<char>) -> bool {
    tool == "Read"@ || tool == "Grep"@ || tool == "Glob"@ || tool == "LS"@
}

/// The file a tool call names, under `file_path`, `path` or `notebook_path`.
pub open spec fn tool_file(input: Option<JsonValue>) -> Option<Seq<char>> {
    match input {
        Some(v) => str_of(
            either(
                json_get(v, "file_path"@),
                either(json_get(v, "path"@), json_get(v, "notebook_path"@)),
            ),
        ),
        None => None,
    }
}

/// The file lists of the local observer's output: the tool's file, escaped, under
/// `files_read` for a reading tool and `files_modified` otherwise.
pub open spec fn local_file_lists(tool: Seq<char>, input: Option<JsonValue>) -> (Seq<char>, Seq<char>) {
    match tool_file(input) {
        None => (seq![], seq![]),
        Some(f) => if is_reading_tool(tool) {
            ("<files_read><file>"@ + xml_escape_spec(f) + "</file></files_read>"@, seq![])
        } else {
            (seq![], "<files_modified><file>"@ + xml_escape_spec(f) + "</file></files_modified>"@)
        },
    }
}

/// The local observer files a tool call's file under `files_read` for `Read`, `Grep`, `Glob`
/// and `LS`, and under `files_modified` for every other tool; with no file named, under
/// neither.
pub proof fn law_local_file_lists(tool: Seq<char>, input: Option<JsonValue>)
    ensures
        tool_file(input) is None ==> local_file_lists(tool, input) == (Seq::<char>::empty(), Seq::<char>::empty()),
        tool_file(input) is Some ==> ((local_file_lists(tool, input).0.len() > 0) == (tool == "Read"@ || tool
            == "Grep"@ || tool == "Glob"@ || tool == "LS"@)),
        tool_file(input) is Some ==> ((local_file_lists(tool, input).1.len() > 0) == !(tool == "Read"@ || tool
            == "Grep"@ || tool == "Glob"@ || tool == "LS"@)),
{
    reveal_strlit("<files_read><file>");
    reveal_strlit("<files_modified><file>");
}

pub fn local_file_xml(tool: &str, input: Option<&JsonValue>) -> (r: (String, String))
    ensures
        (r.0@, r.1@) == local_file_lists(tool@, deref_json(input)),
{
    let file = match input {
        Some(v) => {
            let found = match v.get("file_path") {
                Some(x) => Some(x),
                None => get_either(v, "path", "notebook_path"),
            };
            as_text(found)
        },
        None => None,
    };
    let Some(file) = file else {
        return (String::new(), String::new());
    };
    let escaped = xml_escape(file.as_str());
    let t = chars_of(tool);
    let reading = chars_eq_str(t.as_slice(), "Read") || chars_eq_str(t.as_slice(), "Grep")
        || chars_eq_str(t.as_slice(), "Glob") || chars_eq_str(t.as_slice(), "LS");
    if reading {
        let mut v = chars_of("<files_read><file>");
        push_str(&mut v, escaped.as_str());
        push_str(&mut v, "</file></files_read>");
        (string_from_chars(v.as_slice()), String::new())
    } else {
        let mut v = chars_of("<files_modified><file>");
        push_str(&mut v, escaped.as_str());
        push_str(&mut v, "</file></files_modified>");
        (String::new(), string_from_chars(v.as_slice()))
    }
}


pub open spec fn text_or(o: Option<String>, fallback: Seq<char>) -> Seq<char> {
    match o {
        Some(t) => t@,
        None => fallback,
    }
}

/// The local observer's summary of a session.
pub open spec fn local_summary_text(session: SdkSessionRow, message: PendingMessageRow) -> Seq<char> {
    "<summary><request>"@ + xml_escape_spec(text_or(session.user_prompt, seq![]))
        + "</request><investigated>Processed queued session work.</investigated><learned>"@
        + xml_escape_spec(text_or(message.last_assistant_message, seq![]))
        + "</learned><completed>Stored by the local observer.</completed><next_steps></next_steps><notes>Local deterministic observer output.</notes></summary>"@
}

/// The narrative of a tool call: the tool and the JSON text of its input and response.
pub open spec fn tool_narrative(tool: Seq<char>, input_json: Seq<char>, response_json: Seq<char>) -> Seq<char> {
    "Assistant tool `"@ + tool + "` ran with input "@ + input_json + " and response "@ + response_json
}

/// The local observer's observation of a tool call.
pub open spec fn local_observation_text(
    message: PendingMessageRow,
    input_json: Seq<char>,
    response_json: Seq<char>,
) -> Seq<char> {
    let tool = text_or(message.tool_name, "Tool"@);
    let files = local_file_lists(tool, message.tool_input);
    "<observation><type>discovery</type><title>"@ + xml_escape_spec(tool)
        + " tool use</title><subtitle>Assistant PostToolUse</subtitle><facts><fact>Tool: "@
        + xml_escape_spec(tool) + "</fact></facts><narrative>"@ + xml_escape_spec(
        tool_narrative(tool, input_json, response_json),
    ) + "</narrative><concepts><concept>assistant-code</concept><concept>tool-use</concept></concepts>"@
        + files.0 + files.1 + "</observation>"@
}

/// The local observer's reply to a queued message: a summary for a `summarize` message, an
/// observation of the tool call otherwise, nothing without a message.
pub open spec fn local_text(
    session: SdkSessionRow,
    message: Option<PendingMessageRow>,
    input_json: Seq<char>,
    response_json: Seq<char>,
) -> Seq<char> {
    match message {
        None => seq![],
        Some(m) => if m.message_type@ == "summarize"@ {
            local_summary_text(session, m)
        } else {
            local_observation_text(m, input_json, response_json)
        },
    }
}

fn local_summary(session: &SdkSessionRow, message: &PendingMessageRow) -> (r: String)
    ensures
        r@ == local_summary_text(*session, *message),
{
    let mut v = chars_of("<summary><request>");
    let request = match &session.user_prompt {
        Some(p) => xml_escape(p.as_str()),
        None => xml_escape(""),
    };
    proof {
        reveal_strlit("");
    }
    push_str(&mut v, request.as_str());
    push_str(&mut v, "</request><investigated>Processed queued session work.</investigated><learned>");
    let learned = match &message.last_assistant_message {
        Some(m) => xml_escape(m.as_str()),
        None => xml_escape(""),
    };
    push_str(&mut v, learned.as_str());
    push_str(
        &mut v,
        "</learned><completed>Stored by the local observer.</completed><next_steps></next_steps><notes>Local deterministic observer output.</notes></summary>",
    );
    assert(v@ =~= local_summary_text(*session, *message));
    string_from_chars(v.as_slice())
}

fn local_observation(message: &PendingMessageRow, input_json: &str, response_json: &str) -> (r: String)
    ensures
        r@ == local_observation_text(*message, input_json@, response_json@),
{
    let tool = match &message.tool_name {
        Some(t) => t.clone(),
        None => "Tool".to_owned(),
    };
    let mut narrative = chars_of("Assistant tool `");
    push_str(&mut narrative, tool.as_str());
    push_str(&mut narrative, "` ran with input ");
    push_str(&mut narrative, input_json);
    push_str(&mut narrative, " and response ");
    push_str(&mut narrative, response_json);
    let narrative = string_from_chars(narrative.as_slice());
    let (files_read, files_modified) = local_file_xml(tool.as_str(), message.tool_input.as_ref());
    let escaped_tool = xml_escape(tool.as_str());
    let mut v = chars_of("<observation><type>discovery</type><title>");
    push_str(&mut v, escaped_tool.as_str());
    push_str(&mut v, " tool use</title><subtitle>Assistant PostToolUse</subtitle><facts><fact>Tool: ");
    push_str(&mut v, escaped_tool.as_str());
    push_str(&mut v, "</fact></facts><narrative>");
    let escaped_narrative = xml_escape(narrative.as_str());
    push_str(&mut v, escaped_narrative.as_str());
    push_str(
        &mut v,
        "</narrative><concepts><concept>assistant-code</concept><concept>tool-use</concept></concepts>",
    );
    push_str(&mut v, files_read.as_str());
    push_str(&mut v, files_modified.as_str());
    push_str(&mut v, "</observation>");
    assert(v@ =~= local_observation_text(*message, input_json@, response_json@));
    string_from_chars(v.as_slice())
}

pub open spec fn deref_message(m: Option<&PendingMessageRow>) -> Option<PendingMessageRow> {
    match m {
        Some(x) => Some(*x),
        None => None,
    }
}

/// The deterministic local observer's output for a queued message, given the JSON text of
/// the tool call's input and response.
pub fn local_output(
    session: &SdkSessionRow,
    message: Option<&PendingMessageRow>,
    model_id: Option<String>,
    input_json: &str,
    response_json: &str,
) -> (r: AgentOutput)
    ensures
        r.text@ == local_text(*session, deref_message(message), input_json@, response_json@),
        r.memory_session_id matches Some(m) && m@ == "local-memory:"@ + session.content_session_id@,
        r.provider@ == "Local"@,
        r.model_id == model_id,
{
    let text = match message {
        None => String::new(),
        Some(m) => {
            let t = chars_of(m.message_type.as_str());
            if chars_eq_str(t.as_slice(), "summarize") {
                local_summary(session, m)
            } else {
                local_observation(m, input_json, response_json)
            }
        },
    };
    let mut id = chars_of("local-memory:");
    push_str(&mut id, session.content_session_id.as_str());
    AgentOutput {
        text,
        memory_session_id: Some(string_from_chars(id.as_slice())),
        provider: "Local".to_owned(),
        model_id,
    }
}

pub open spec fn default_fake_response() -> Seq<char> {
    "<observation><type>discovery</type><title>Fake observer response</title><facts><fact>fake runner produced memory</fact></facts><narrative>Fake runner response.</narrative><concepts><concept>fake</concept></concepts></observation>"@
}

/// The fake observer's output: the configured response, or a fixed observation.
pub fn fake_output(session: &SdkSessionRow, model_id: Option<String>, configured: Option<String>) -> (r: AgentOutput)
    ensures
        r.text@ == text_or(configured, default_fake_response()),
        r.memory_session_id matches Some(m) && m@ == "fake-memory:"@ + session.content_session_id@,
        r.provider@ == "Fake"@,
        r.model_id == model_id,
{
    let text = match configured {
        Some(t) => t,
        None => "<observation><type>discovery</type><title>Fake observer response</title><facts><fact>fake runner produced memory</fact></facts><narrative>Fake runner response.</narrative><concepts><concept>fake</concept></concepts></observation>".to_owned(),
    };
    let mut id = chars_of("fake-memory:");
    push_str(&mut id, session.content_session_id.as_str());
    AgentOutput {
        text,
        memory_session_id: Some(string_from_chars(id.as_slice())),
        provider: "Fake".to_owned(),
        model_id,
    }
}

pub open spec fn starts_with(s: Seq<char>, p: Seq<char>) -> bool {
    s.len() >= p.len() && s.take(p.len() as int) == p
}

/// The arguments already ask to resume a session.
pub open spec fn has_resume_arg(args: Seq<Seq<char>>) -> bool {
    exists|i: int|
        0 <= i < args.len() && (#[trigger] args[i] == "--resume"@ || args[i] == "-r"@ || starts_with(
            args[i],
            "--resume="@,
        ))
}

/// The arguments already choose an output format.
pub open spec fn has_output_format(args: Seq<Seq<char>>) -> bool {
    exists|i: int|
        0 <= i < args.len() && (#[trigger] args[i] == "--output-format"@ || starts_with(
            args[i],
            "--output-format="@,
        ))
}

/// The command-line arguments of an agent CLI run: the configured arguments, JSON output unless
/// they choose a format, the session to resume unless they already resume one, the model
/// when it is passed on, and the prompt.
pub open spec fn claude_argv(
    args: Seq<Seq<char>>,
    resume: Option<Seq<char>>,
    model: Option<Seq<char>>,
    prompt: Seq<char>,
) -> Seq<Seq<char>> {
    args + (if has_output_format(args) {
        seq![]
    } else {
        seq!["--output-format"@, "json"@]
    }) + (match resume {
        Some(id) => if has_resume_arg(args) {
            seq![]
        } else {
            seq!["--resume"@, id]
        },
        None => seq![],
    }) + (match model {
        Some(m) => seq!["--model"@, m],
        None => seq![],
    }) + seq![prompt]
}

fn starts_with_exec(s: &Vec<char>, p: &str) -> (r: bool)
    ensures
        r == starts_with(s@, p@),
{
    let pc = chars_of(p);
    if s.len() < pc.len() {
        return false;
    }
    let head = crate::text::copy_range(s.as_slice(), 0, pc.len());
    assert(head@ =~= s@.take(pc@.len() as int));
    crate::text::chars_eq(head.as_slice(), pc.as_slice())
}

fn scan_args(args: &Vec<String>) -> (r: (bool, bool))
    ensures
        r.0 == has_output_format(strs_view(args@)),
        r.1 == has_resume_arg(strs_view(args@)),
{
    let ghost v = strs_view(args@);
    let mut format = false;
    let mut resume = false;
    let mut i: usize = 0;
    while i < args.len()
        invariant
            i <= args@.len(),
            v == strs_view(args@),
            format == exists|k: int|
                0 <= k < i && (#[trigger] v[k] == "--output-format"@ || starts_with(
                    v[k],
                    "--output-format="@,
                )),
            resume == exists|k: int|
                0 <= k < i && (#[trigger] v[k] == "--resume"@ || v[k] == "-r"@ || starts_with(
                    v[k],
                    "--resume="@,
                )),
        decreases args.len() - i,
    {
        let a = chars_of(args[i].as_str());
        assert(v[i as int] == a@);
        let f = chars_eq_str(a.as_slice(), "--output-format") || starts_with_exec(&a, "--output-format=");
        let r = chars_eq_str(a.as_slice(), "--resume") || chars_eq_str(a.as_slice(), "-r")
            || starts_with_exec(&a, "--resume=");
        format = format || f;
        resume = resume || r;
        i = i + 1;
    }
    (format, resume)
}

/// The command-line arguments of an agent CLI run, from the configured argument text.
pub fn claude_command_args(args_text: &str, resume: Option<&str>, model: Option<&str>, prompt: &str) -> (r:
    Vec<String>)
    ensures
        strs_view(r@) == claude_argv(
            shell_words_spec(args_text@),
            match resume {
                Some(id) => Some(id@),
                None => None,
            },
            match model {
                Some(m) => Some(m@),
                None => None,
            },
            prompt@,
        ),
{
    let mut args = shell_words(args_text);
    let ghost a0 = strs_view(args@);
    let (has_format, has_resume) = scan_args(&args);
    let ghost a1 = strs_view(args@);
    if !has_format {
        args.push("--output-format".to_owned());
        args.push("json".to_owned());
    }
    let ghost a2 = strs_view(args@);
    assert(a2 =~= a0 + (if has_output_format(a0) {
        Seq::<Seq<char>>::empty()
    } else {
        seq!["--output-format"@, "json"@]
    }));
    if let Some(id) = resume {
        if !has_resume {
            args.push("--resume".to_owned());
            args.push(id.to_owned());
        }
    }
    let ghost a3 = strs_view(args@);
    assert(a3 =~= a2 + (match resume {
        Some(id) => if has_resume_arg(a0) {
            Seq::<Seq<char>>::empty()
        } else {
            seq!["--resume"@, id@]
        },
        None => Seq::<Seq<char>>::empty(),
    }));
    if let Some(m) = model {
        args.push("--model".to_owned());
        args.push(m.to_owned());
    }
    let ghost a4 = strs_view(args@);
    assert(a4 =~= a3 + (match model {
        Some(m) => seq!["--model"@, m@],
        None => Seq::<Seq<char>>::empty(),
    }));
    args.push(prompt.to_owned());
    assert(strs_view(args@) =~= a4 + seq![prompt@]);
    args
}

/// The statistics of one session's run before any message: one session started.
pub fn session_run_stats(session_db_id: i64) -> (r: QueueProcessStats)
    ensures
        r.sessions_started == 1,
        r.started_session_ids@ == seq![session_db_id],
        r.total_pending_sessions == 0,
        r.sessions_skipped == 0,
        r.messages_processed == 0,
        r.messages_failed == 0,
        r.observations_inserted == 0,
        r.summaries_inserted == 0,
        r.observation_ids@.len() == 0,
{
    let ids = vec![session_db_id];
    QueueProcessStats {
        total_pending_sessions: 0,
        sessions_started: 1,
        sessions_skipped: 0,
        started_session_ids: ids,
        messages_processed: 0,
        messages_failed: 0,
        observations_inserted: 0,
        summaries_inserted: 0,
        observation_ids: Vec::new(),
    }
}

/// Counts one processed message: its stored observations, and its summary when it had one.
pub fn record_processed_message(
    stats: &mut QueueProcessStats,
    inserted: usize,
    has_summary: bool,
    observation_ids: Vec<i64>,
)
    requires
        old(stats).messages_processed < usize::MAX,
        old(stats).observations_inserted + inserted <= usize::MAX,
        old(stats).summaries_inserted < usize::MAX,
    ensures
        final(stats).messages_processed == old(stats).messages_processed + 1,
        final(stats).observations_inserted == old(stats).observations_inserted + inserted,
        final(stats).summaries_inserted == old(stats).summaries_inserted + (if has_summary {
            1int
        } else {
            0int
        }),
        final(stats).observation_ids@ == old(stats).observation_ids@ + observation_ids@,
        final(stats).total_pending_sessions == old(stats).total_pending_sessions,
        final(stats).sessions_started == old(stats).sessions_started,
        final(stats).sessions_skipped == old(stats).sessions_skipped,
        final(stats).started_session_ids == old(stats).started_session_ids,
        final(stats).messages_failed == old(stats).messages_failed,
{
    let mut ids = observation_ids;
    stats.messages_processed = stats.messages_processed + 1;
    stats.observations_inserted = stats.observations_inserted + inserted;
    if has_summary {
        stats.summaries_inserted = stats.summaries_inserted + 1;
    }
    stats.observation_ids.append(&mut ids);
}

/// Whether a session's run claims another message: it stops after `max_messages`.
pub fn may_process_more(processed: usize, max_messages: usize) -> (r: bool)
    ensures
        r == (processed < max_messages),
{
    processed < max_messages
}

/// The prompt number a session start is run for: the latest stored one, else the first.
pub fn init_prompt_number(latest: Option<i64>) -> (r: i64)
    ensures
        r == (match latest {
            Some(n) => n,
            None => 1,
        }),
{
    match latest {
        Some(n) => n,
        None => 1,
    }
}

/// Whether a session start runs the first-prompt prompt rather than a continuation.
pub fn is_first_prompt(prompt_number: i64) -> (r: bool)
    ensures
        r == (prompt_number <= 1),
{
    prompt_number <= 1
}

/// The agent session of a stored session row: its ids, project and platform, nothing
/// pending yet.
pub fn active_session_from_row(row: &SdkSessionRow) -> (r: ActiveSession)
    ensures
        r.session_db_id == row.id,
        r.content_session_id == row.content_session_id,
        r.memory_session_id == row.memory_session_id,
        r.project == row.project,
        r.platform_source == row.platform_source,
        r.last_prompt_number is None,
        r.earliest_pending_timestamp is None,
        r.conversation_history@.len() == 0,
        r.processing_message_ids@.len() == 0,
        r.last_generator_activity_epoch is None,
{
    ActiveSession {
        session_db_id: row.id,
        content_session_id: row.content_session_id.clone(),
        memory_session_id: clone_opt_string(&row.memory_session_id),
        project: row.project.clone(),
        platform_source: row.platform_source.clone(),
        last_prompt_number: None,
        earliest_pending_timestamp: None,
        conversation_history: Vec::new(),
        processing_message_ids: Vec::new(),
        last_generator_activity_epoch: None,
    }
}

} // verus!
