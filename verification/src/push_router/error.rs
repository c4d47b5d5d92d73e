//! Why a request is not routed.

use vstd::prelude::*;

use vstd::string::StringExecFns;

use crate::protocols::WorkerWithDpRank;
use crate::text::decimal;

verus! {

/// Why a request is not routed.
#[derive(Clone, Debug)]
pub enum RouteError {
    /// Another request owns the prefill turn of the session.
    TurnInFlight { session_id: String, current_owner: String },
    /// The scheduler booked another rank than the one it was told to book.
    TargetMismatch {
        request_id: String,
        expected: WorkerWithDpRank,
        selected: WorkerWithDpRank,
    },
    /// The binding that a rebind was decided on is no longer current.
    SessionChanged { session_id: String },
    /// Direct routing found no worker in the request.
    WorkerIdRequired,
}

/// A rank as an error message names it.
pub open spec fn rank_text(rank: WorkerWithDpRank) -> Seq<char> {
    "worker "@ + crate::text::decimal_text(rank.worker_id as nat) + " dp_rank "@
        + crate::text::decimal_text(rank.dp_rank as nat)
}

impl RouteError {
    /// The message of the error.
    pub open spec fn text(self) -> Seq<char> {
        match self {
            RouteError::TurnInFlight { session_id, current_owner } => "session "@ + session_id@
                + " already has an in-flight prefill turn owned by request "@ + current_owner@,
            RouteError::TargetMismatch { request_id, expected, selected } =>
                "stateful final-target selection mismatch for request "@ + request_id@
                + ": expected "@ + rank_text(expected) + ", got "@ + rank_text(selected),
            RouteError::SessionChanged { session_id } => "session "@ + session_id@
                + " changed while preparing rebind; refusing stale cold dispatch"@,
            RouteError::WorkerIdRequired =>
                "Worker ID required (--direct-route) but none found in request. Expected decode_worker_id or backend_instance_id to be set by external router (e.g., EPP)."@,
        }
    }

    /// The message of the error.
    pub fn message(&self) -> (message: String)
        ensures
            message@ == self.text(),
    {
        match self {
            RouteError::TurnInFlight { session_id, current_owner } => {
                let mut message = "session ".to_owned();
                message.append(session_id.as_str());
                message.append(" already has an in-flight prefill turn owned by request ");
                message.append(current_owner.as_str());
                message
            },
            RouteError::TargetMismatch { request_id, expected, selected } => {
                let mut message =
                    "stateful final-target selection mismatch for request ".to_owned();
                message.append(request_id.as_str());
                message.append(": expected ");
                message.append(rank_message(*expected).as_str());
                message.append(", got ");
                message.append(rank_message(*selected).as_str());
                message
            },
            RouteError::SessionChanged { session_id } => {
                let mut message = "session ".to_owned();
                message.append(session_id.as_str());
                message.append(" changed while preparing rebind; refusing stale cold dispatch");
                message
            },
            RouteError::WorkerIdRequired =>
                "Worker ID required (--direct-route) but none found in request. Expected decode_worker_id or backend_instance_id to be set by external router (e.g., EPP).".to_owned(),
        }
    }

    /// Whether the client is to blame: it sent a second turn of a session while
    /// the first one was in flight.
    pub fn is_invalid_argument(&self) -> (invalid: bool)
        ensures
            invalid == (self is TurnInFlight),
    {
        matches!(self, RouteError::TurnInFlight { .. })
    }
}

/// A rank as an error message names it.
fn rank_message(rank: WorkerWithDpRank) -> (message: String)
    ensures
        message@ == rank_text(rank),
{
    let mut message = "worker ".to_owned();
    message.append(decimal(rank.worker_id).as_str());
    message.append(" dp_rank ");
    message.append(decimal(rank.dp_rank as u64).as_str());
    message
}

} // verus!
