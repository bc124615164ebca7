//! Session state cleanup after a reply has been processed.
use vstd::prelude::*;

verus! {

#[derive(Debug, Clone, Default, PartialEq, Eq)]
pub struct ActiveSessionState {
    pub earliest_pending_timestamp: Option<i64>,
}

/// Receives the notice that a session's processing status changed.
pub trait ProcessingStatusBroadcaster {
    fn broadcast_processing_status(&self);
}

/// Clears the session's pending timestamp, then tells `worker`, when there is one.
pub fn cleanup_processed_messages(
    session: &mut ActiveSessionState,
    worker: Option<&dyn ProcessingStatusBroadcaster>,
)
    ensures
        final(session).earliest_pending_timestamp is None,
{
    session.earliest_pending_timestamp = None;
    if let Some(worker) = worker {
        worker.broadcast_processing_status();
    }
}

} // verus!
