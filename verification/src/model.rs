//! Plain-data records exchanged with the storage layer: the rows the database returns and
//! the inputs it stores.
use vstd::prelude::*;

use crate::json::JsonValue;

verus! {

/// A stored observation.
#[derive(Debug, Clone, Default, PartialEq, Eq)]
pub struct ObservationRow {
    pub id: i64,
    pub memory_session_id: String,
    pub project: String,
    pub text: Option<String>,
    pub observation_type: String,
    pub title: Option<String>,
    pub subtitle: Option<String>,
    pub narrative: Option<String>,
    pub facts: Option<Vec<String>>,
    pub concepts: Option<Vec<String>>,
    pub files_read: Option<Vec<String>>,
    pub files_modified: Option<Vec<String>>,
    pub prompt_number: Option<i64>,
    pub discovery_tokens: i64,
    pub created_at: String,
    pub created_at_epoch: i64,
    pub generated_by_model: Option<String>,
    pub relevance_count: i64,
    pub merged_into_project: Option<String>,
    pub agent_type: Option<String>,
    pub agent_id: Option<String>,
    pub content_hash: Option<String>,
}

/// A stored session summary.
#[derive(Debug, Clone, Default, PartialEq, Eq)]
pub struct SessionSummaryRow {
    pub id: i64,
    pub memory_session_id: String,
    pub project: String,
    pub request: Option<String>,
    pub investigated: Option<String>,
    pub learned: Option<String>,
    pub completed: Option<String>,
    pub next_steps: Option<String>,
    pub files_read: Option<String>,
    pub files_edited: Option<String>,
    pub notes: Option<String>,
    pub prompt_number: Option<i64>,
    pub discovery_tokens: i64,
    pub created_at: String,
    pub created_at_epoch: i64,
    pub merged_into_project: Option<String>,
}

/// A stored user prompt.
#[derive(Debug, Clone, Default, PartialEq, Eq)]
pub struct UserPromptRow {
    pub id: i64,
    pub content_session_id: String,
    pub prompt_number: i64,
    pub prompt_text: String,
    pub created_at: String,
    pub created_at_epoch: i64,
}

/// An observation to store.
#[derive(Debug, Clone, Default, PartialEq, Eq)]
pub struct ObservationInput {
    pub memory_session_id: String,
    pub project: String,
    pub observation_type: String,
    pub title: Option<String>,
    pub subtitle: Option<String>,
    pub facts: Option<Vec<String>>,
    pub narrative: Option<String>,
    pub concepts: Option<Vec<String>>,
    pub files_read: Option<Vec<String>>,
    pub files_modified: Option<Vec<String>>,
    pub created_at: String,
    pub created_at_epoch: i64,
    pub generated_by_model: Option<String>,
}

/// A session summary to store.
#[derive(Debug, Clone, Default, PartialEq, Eq)]
pub struct SummaryInput {
    pub memory_session_id: String,
    pub project: String,
    pub request: Option<String>,
    pub investigated: Option<String>,
    pub learned: Option<String>,
    pub completed: Option<String>,
    pub next_steps: Option<String>,
    pub files_read: Option<String>,
    pub files_edited: Option<String>,
    pub notes: Option<String>,
    pub prompt_number: Option<i64>,
    pub discovery_tokens: Option<i64>,
    pub created_at: String,
    pub created_at_epoch: i64,
    pub merged_into_project: Option<String>,
}

/// What one atomic store of observations and a summary produced.
#[derive(Debug, Clone, Default, PartialEq, Eq)]
pub struct BatchStoreResult {
    pub observation_ids: Vec<i64>,
    pub summary_id: Option<i64>,
    pub created_at_epoch: i64,
    pub inserted: i64,
}

} // verus!

verus! {

/// An agent session as the sessions table stores it.
#[derive(Debug, Clone, Default, PartialEq, Eq)]
pub struct SdkSessionRow {
    pub id: i64,
    pub content_session_id: String,
    pub memory_session_id: Option<String>,
    pub project: String,
    pub user_prompt: Option<String>,
    pub started_at: String,
    pub started_at_epoch: i64,
    pub completed_at: Option<String>,
    pub completed_at_epoch: Option<i64>,
    pub status: String,
    pub worker_port: Option<i64>,
    pub prompt_counter: i64,
    pub custom_title: Option<String>,
    pub platform_source: String,
}

} // verus!

verus! {

/// The format version of a corpus file.
#[derive(Debug, Clone, Copy, Default, PartialEq, Eq)]
pub struct CorpusVersion;

/// Which observations a corpus gathers.
#[derive(Debug, Clone, Default, PartialEq, Eq)]
pub struct CorpusFilter {
    pub project: Option<String>,
    pub types: Option<Vec<String>>,
    pub concepts: Option<Vec<String>>,
    pub files: Option<Vec<String>>,
    pub query: Option<String>,
    pub date_start: Option<String>,
    pub date_end: Option<String>,
    pub limit: Option<i64>,
}

#[derive(Debug, Clone, Default, PartialEq, Eq)]
pub struct CorpusDateRange {
    pub earliest: String,
    pub latest: String,
}

/// Counts over a corpus; the breakdown lists each observation kind once, in order of first
/// appearance, with its count.
#[derive(Debug, Clone, Default, PartialEq, Eq)]
pub struct CorpusStats {
    pub observation_count: i64,
    pub token_estimate: i64,
    pub date_range: CorpusDateRange,
    pub type_breakdown: Vec<(String, i64)>,
}

/// An observation as a corpus carries it.
#[derive(Debug, Clone, Default, PartialEq, Eq)]
pub struct CorpusObservation {
    pub id: i64,
    pub observation_type: String,
    pub title: String,
    pub subtitle: Option<String>,
    pub narrative: Option<String>,
    pub facts: Vec<String>,
    pub concepts: Vec<String>,
    pub files_read: Vec<String>,
    pub files_modified: Vec<String>,
    pub project: String,
    pub created_at: String,
    pub created_at_epoch: i64,
}

/// A stored knowledge corpus.
#[derive(Debug, Clone, Default, PartialEq, Eq)]
pub struct CorpusFile {
    pub version: CorpusVersion,
    pub name: String,
    pub description: String,
    pub created_at: String,
    pub updated_at: String,
    pub filter: CorpusFilter,
    pub stats: CorpusStats,
    pub system_prompt: String,
    pub session_id: Option<String>,
    pub observations: Vec<CorpusObservation>,
}

/// A corpus as the listing shows it.
#[derive(Debug, Clone, Default, PartialEq, Eq)]
pub struct CorpusListEntry {
    pub name: String,
    pub description: String,
    pub stats: CorpusStats,
    pub session_id: Option<String>,
}

/// The answer to a question put to a corpus, and the agent session that gave it.
#[derive(Debug, Clone, Default, PartialEq, Eq)]
pub struct CorpusQueryResult {
    pub answer: String,
    pub session_id: String,
}

/// A queued hook event waiting for the observer.
#[derive(Debug)]
pub struct PendingMessageRow {
    pub id: i64,
    pub session_db_id: i64,
    pub content_session_id: String,
    pub message_type: String,
    pub tool_name: Option<String>,
    pub tool_input: Option<JsonValue>,
    pub tool_response: Option<JsonValue>,
    pub cwd: Option<String>,
    pub last_user_message: Option<String>,
    pub last_assistant_message: Option<String>,
    pub prompt_number: Option<i64>,
    pub status: String,
    pub retry_count: i64,
    pub created_at_epoch: i64,
    pub started_processing_at_epoch: Option<i64>,
    pub completed_at_epoch: Option<i64>,
    pub failed_at_epoch: Option<i64>,
    pub agent_type: Option<String>,
    pub agent_id: Option<String>,
}

} // verus!
