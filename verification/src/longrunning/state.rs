//! The state of a queued task and the transitions between states.

use vstd::prelude::*;

use crate::prost::timestamp::Timestamp;

verus! {

#[verifier::external_type_specification]
#[verifier::external_body]
pub struct ExRedisError(redis::RedisError);

#[verifier::external_type_specification]
#[verifier::external_body]
pub struct ExJoinError(tokio::task::JoinError);

/// The exit code of a task that has not terminated yet.
pub const NOT_TERMINATED_EXIT_CODE: i32 = -1;

/// The exit code recorded for a task that completed.
pub const SUCCESS_EXIT_CODE: i32 = 0;

/// The stage of a task.
#[derive(Clone, Copy, Debug, PartialEq, Eq, Structural)]
pub enum State {
    Waiting,
    Running,
    Terminated,
}

/// Errors of task stores, brokers and workers.
#[derive(Debug)]
pub enum TaskError {
    /// No task is stored under the identifier.
    NotFound,
    /// The request cannot be served in the task's state.
    InvalidRequest(String),
    /// The store failed.
    RedisError(redis::RedisError),
    /// A spawned task failed.
    JoinError(tokio::task::JoinError),
}

/// A task together with its progress.
#[derive(Debug, Clone)]
pub struct TaskState<T, R> {
    pub id: String,
    pub task: T,
    pub state: State,
    pub started_at: Option<Timestamp>,
    pub processed_at: Option<Timestamp>,
    pub result: Option<R>,
    pub exit_code: i32,
    pub message: String,
}

impl<T, R> TaskState<T, R> {
    /// A task that waits in a queue: no times, no result, no message, and the exit code of
    /// a task that has not terminated.
    pub fn new(id: String, task: T) -> (r: Self)
        ensures
            r.id == id,
            r.task == task,
            r.state == State::Waiting,
            r.started_at is None,
            r.processed_at is None,
            r.result is None,
            r.exit_code == NOT_TERMINATED_EXIT_CODE,
            r.message@ == Seq::<char>::empty(),
    {
        TaskState {
            id,
            task,
            state: State::Waiting,
            started_at: None,
            processed_at: None,
            result: None,
            exit_code: NOT_TERMINATED_EXIT_CODE,
            message: String::new(),
        }
    }

    /// The task starts running at `now`; nothing else changes.
    pub fn start(&mut self, now: Timestamp)
        ensures
            final(self).state == State::Running,
            final(self).started_at == Some(now),
            final(self).id == old(self).id,
            final(self).task == old(self).task,
            final(self).processed_at == old(self).processed_at,
            final(self).result == old(self).result,
            final(self).exit_code == old(self).exit_code,
            final(self).message == old(self).message,
    {
        self.state = State::Running;
        self.started_at = Some(now);
    }

    /// The task completed at `now` with `result`: it terminated with exit code zero.
    pub fn complete(&mut self, now: Timestamp, result: R)
        ensures
            final(self).state == State::Terminated,
            final(self).processed_at == Some(now),
            final(self).result == Some(result),
            final(self).exit_code == SUCCESS_EXIT_CODE,
            final(self).id == old(self).id,
            final(self).task == old(self).task,
            final(self).started_at == old(self).started_at,
            final(self).message == old(self).message,
    {
        self.processed_at = Some(now);
        self.result = Some(result);
        self.state = State::Terminated;
        self.exit_code = SUCCESS_EXIT_CODE;
    }

    /// The task failed at `now` with `code` and `msg`: it terminated without a result.
    pub fn fail(&mut self, now: Timestamp, code: i32, msg: String)
        ensures
            final(self).state == State::Terminated,
            final(self).processed_at == Some(now),
            final(self).result is None,
            final(self).exit_code == code,
            final(self).message == msg,
            final(self).id == old(self).id,
            final(self).task == old(self).task,
            final(self).started_at == old(self).started_at,
    {
        self.processed_at = Some(now);
        self.result = None;
        self.exit_code = code;
        self.message = msg;
        self.state = State::Terminated;
    }

    /// A task can be cancelled unless it is running.
    pub fn can_cancel(&self) -> (r: bool)
        ensures
            r == (self.state != State::Running),
    {
        self.state != State::Running
    }
}

/// What a cancellation answers, given what reading the task gave: a task that is not running
/// is handed back to be removed; a running task is refused; a failed read is passed on.
pub fn cancel_outcome<T, R>(found: Result<TaskState<T, R>, TaskError>) -> (r: Result<TaskState<T, R>, TaskError>)
    ensures
        match found {
            Ok(t) => if t.state != State::Running {
                r == Ok::<TaskState<T, R>, TaskError>(t)
            } else {
                r matches Err(TaskError::InvalidRequest(m)) && m@ == "Already running"@
            },
            Err(e) => r == Err::<TaskState<T, R>, TaskError>(e),
        },
{
    match found {
        Ok(t) => {
            if t.can_cancel() {
                Ok(t)
            } else {
                Err(TaskError::InvalidRequest(String::from_str("Already running")))
            }
        },
        Err(e) => Err(e),
    }
}

} // verus!
