//! The per-session pending-message queue: the message form handed to the observer, and
//! the decisions of the claim, wait and back-off loop.
use vstd::prelude::*;

use crate::json::JsonValue;
use crate::model::PendingMessageRow;

verus! {

/// Seconds without a message after which a session's queue loop ends.
pub const IDLE_TIMEOUT_SECS: u64 = 180;

/// Seconds to wait after the store fails before claiming again.
pub const ERROR_BACKOFF_SECS: u64 = 1;

/// A claimed message with the id and time under which it was stored.
#[derive(Debug)]
pub struct PendingMessageWithId {
    pub persistent_id: i64,
    pub original_timestamp: i64,
    pub message_type: String,
    pub tool_name: Option<String>,
    pub tool_input: Option<JsonValue>,
    pub tool_response: Option<JsonValue>,
    pub prompt_number: Option<i64>,
    pub cwd: Option<String>,
    pub last_assistant_message: Option<String>,
}

/// A failure of the queue's store, by its message.
#[derive(Debug, Clone, PartialEq, Eq)]
pub struct QueueError {
    message: String,
}

impl QueueError {
    pub closed spec fn text(&self) -> Seq<char> {
        self.message@
    }

    /// The message, as the `String` the error holds.
    pub closed spec fn message_string(&self) -> String {
        self.message
    }

    /// An error whose message is `message` converted into a `String`.
    pub fn new(message: impl Into<String>) -> (r: Self)
        ensures
            call_ensures(Into::<String>::into, (message,), r.message_string()),
    {
        QueueError { message: message.into() }
    }

    /// An error with the message `message`.
    pub fn from_message(message: String) -> (r: Self)
        ensures
            r.text() == message@,
    {
        QueueError { message }
    }

    /// The error's message.
    pub fn message(&self) -> (r: String)
        ensures
            r@ == self.text(),
    {
        self.message.clone()
    }
}

/// The message as the observer receives it: its id and creation time under their stored
/// names, the rest as claimed.
pub fn to_pending_message_with_id(msg: PendingMessageRow) -> (r: PendingMessageWithId)
    ensures
        r.persistent_id == msg.id,
        r.original_timestamp == msg.created_at_epoch,
        r.message_type == msg.message_type,
        r.tool_name == msg.tool_name,
        r.tool_input == msg.tool_input,
        r.tool_response == msg.tool_response,
        r.prompt_number == msg.prompt_number,
        r.cwd == msg.cwd,
        r.last_assistant_message == msg.last_assistant_message,
{
    PendingMessageWithId {
        persistent_id: msg.id,
        original_timestamp: msg.created_at_epoch,
        message_type: msg.message_type,
        tool_name: msg.tool_name,
        tool_input: msg.tool_input,
        tool_response: msg.tool_response,
        prompt_number: msg.prompt_number,
        cwd: msg.cwd,
        last_assistant_message: msg.last_assistant_message,
    }
}

/// What a claim from the store gave.
#[derive(Debug, Clone, Copy, PartialEq, Eq)]
pub enum ClaimOutcome {
    Message,
    Empty,
    Failed,
}

/// What the queue loop does next.
#[derive(Debug, Clone, Copy, PartialEq, Eq)]
pub enum QueueAction {
    /// End the loop.
    Stop,
    /// Claim the next message.
    Claim,
    /// Hand the claimed message to the observer, note the activity, and claim again.
    Deliver,
    /// Wait for a new-message notice, the abort signal, or the idle timeout.
    WaitForMessage,
    /// Wait for the abort signal or the back-off time, then claim again.
    Backoff,
    /// Note the activity time and claim again.
    ResetActivity,
    /// Report the idle timeout and end the loop.
    IdleTimeout,
}

/// The step before a claim: stop once aborted.
pub fn before_claim(aborted: bool) -> (r: QueueAction)
    ensures
        r == (if aborted {
            QueueAction::Stop
        } else {
            QueueAction::Claim
        }),
{
    if aborted {
        QueueAction::Stop
    } else {
        QueueAction::Claim
    }
}

/// The step after a claim: deliver a message, wait when the queue is empty, and on a store
/// failure stop when aborted or back off.
pub fn after_claim(outcome: ClaimOutcome, aborted: bool) -> (r: QueueAction)
    ensures
        r == match outcome {
            ClaimOutcome::Message => QueueAction::Deliver,
            ClaimOutcome::Empty => QueueAction::WaitForMessage,
            ClaimOutcome::Failed => if aborted {
                QueueAction::Stop
            } else {
                QueueAction::Backoff
            },
        },
{
    match outcome {
        ClaimOutcome::Message => QueueAction::Deliver,
        ClaimOutcome::Empty => QueueAction::WaitForMessage,
        ClaimOutcome::Failed => if aborted {
            QueueAction::Stop
        } else {
            QueueAction::Backoff
        },
    }
}

/// The step after waiting on an empty queue: a notice or an abort goes back to claiming
/// (where an abort stops the loop); a timeout ends the loop once the queue has been idle for
/// the whole idle timeout, and otherwise restarts the idle clock.
pub fn after_wait(received_message: bool, aborted: bool, idle_elapsed: bool) -> (r: QueueAction)
    ensures
        r == (if received_message || aborted {
            QueueAction::Claim
        } else if idle_elapsed {
            QueueAction::IdleTimeout
        } else {
            QueueAction::ResetActivity
        }),
{
    if received_message || aborted {
        QueueAction::Claim
    } else if idle_elapsed {
        QueueAction::IdleTimeout
    } else {
        QueueAction::ResetActivity
    }
}

} // verus!
