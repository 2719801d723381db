//! The operations service: how stored tasks are reported, and how polling ends.

use vstd::prelude::*;

use super::state::{State, TaskError, TaskState};
use crate::grpc::status::{
    internal, not_found, status_internal, status_not_found, status_unimplemented, unimplemented,
};
use crate::proto::longrunning::{Operation, RpcStatus};
use crate::text::concat2;

verus! {

/// `redis::RedisError::to_string` (its `Display`). The error has no view here, so the text is
/// left unstated.
#[verifier::external_body]
fn redis_error_text(e: &redis::RedisError) -> (r: String) {
    e.to_string()
}

/// The text that `tokio::task::JoinError`'s `Display` writes: the task's identifier and
/// whether it panicked (with the panic's message when that is text) or was cancelled. It
/// depends on the error alone.
pub uninterp spec fn join_error_display(e: tokio::task::JoinError) -> Seq<char>;

/// `tokio::task::JoinError::to_string` (its `Display`).
#[verifier::external_body]
pub(crate) fn join_error_text(e: &tokio::task::JoinError) -> (r: String)
    ensures
        r@ == join_error_display(*e),
{
    e.to_string()
}

impl TaskError {
    /// The text that describes the error.
    pub fn message(&self) -> (r: String)
        ensures
            self matches TaskError::NotFound ==> r@ == "Not found"@,
            self matches TaskError::InvalidRequest(m) ==> r@ == "Invalid request: "@ + m@,
            self matches TaskError::RedisError(_) ==> exists|t: Seq<char>| r@ == "Redis error: "@ + t,
            self matches TaskError::JoinError(e) ==> r@ == "Join error: "@ + join_error_display(*e),
    {
        match self {
            TaskError::NotFound => String::from_str("Not found"),
            TaskError::InvalidRequest(m) => concat2("Invalid request: ", m.as_str()),
            TaskError::RedisError(e) => {
                let t = redis_error_text(e);
                let r = concat2("Redis error: ", t.as_str());
                assert(r@ == "Redis error: "@ + t@);
                r
            },
            TaskError::JoinError(e) => {
                let t = join_error_text(e);
                let r = concat2("Join error: ", t.as_str());
                assert(r@ == "Join error: "@ + t@);
                r
            },
        }
    }
}

/// The status a failed operation lookup is answered with: `NotFound` for a missing operation,
/// `Internal` with the error's text otherwise.
pub fn lookup_error_status(error: &TaskError) -> (r: tonic::Status)
    ensures
        error matches TaskError::NotFound ==> r == not_found("Invalid Operation"@),
        error matches TaskError::InvalidRequest(m) ==> r == internal("Invalid request: "@ + m@),
        error matches TaskError::RedisError(_) ==> exists|t: Seq<char>|
            r == internal("Redis error: "@ + t),
        error matches TaskError::JoinError(e) ==> r == internal("Join error: "@ + join_error_display(*e)),
{
    match error {
        TaskError::NotFound => status_not_found(String::from_str("Invalid Operation")),
        _ => {
            let m = error.message();
            let r = status_internal(m);
            proof {
                if error is RedisError {
                    let t = choose|t: Seq<char>| m@ == "Redis error: "@ + t;
                    assert(r == internal("Redis error: "@ + t));
                }
            }
            r
        },
    }
}

/// The status a cancellation request is answered with: cancelling is not implemented.
pub fn cancel_status() -> (r: tonic::Status)
    ensures
        r == unimplemented("unimplemented"@),
{
    status_unimplemented(String::from_str("unimplemented"))
}

/// Whether polling an operation ends, given one poll's answer: it ends with the operation once
/// the operation is done, and with the error when the poll failed; otherwise polling goes on.
pub fn poll_outcome(answer: Result<Operation, tonic::Status>) -> (r: Option<Result<Operation, tonic::Status>>)
    ensures
        match answer {
            Ok(op) => if op.done {
                r == Some(Ok::<Operation, tonic::Status>(op))
            } else {
                r is None
            },
            Err(e) => r == Some(Err::<Operation, tonic::Status>(e)),
        },
{
    match answer {
        Ok(operation) => {
            if operation.done {
                Some(Ok(operation))
            } else {
                None
            }
        },
        Err(error) => Some(Err(error)),
    }
}

/// The operation that reports a stored task: it carries the task's identifier, is done once
/// the task terminated, reports a non-zero exit code of a terminated task as its error, and
/// takes its start and end times from the task.
pub fn operation_of<T, R>(task: &TaskState<T, R>) -> (r: Operation)
    ensures
        r.operation_id@ == task.id@,
        r.done == (task.state == State::Terminated),
        r.error is Some == (task.state == State::Terminated && task.exit_code != 0),
        r.error matches Some(e) ==> e.code == task.exit_code && e.message@ == task.message@,
        r.start_ts == task.started_at,
        r.end_ts == task.processed_at,
        r.creation_ts is None,
        r.metadata@.len() == 0,
        r.response@.len() == 0,
{
    let done = task.state == State::Terminated;
    let error = if done && task.exit_code != 0 {
        Some(RpcStatus { code: task.exit_code, message: task.message.clone() })
    } else {
        None
    };
    Operation {
        operation_id: task.id.clone(),
        metadata: Vec::new(),
        done,
        error,
        response: Vec::new(),
        creation_ts: None,
        start_ts: task.started_at,
        end_ts: task.processed_at,
    }
}

} // verus!
