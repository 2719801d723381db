//! Workers that take tasks from a queue, and brokers that put them there.

use std::marker::PhantomData;

use vstd::prelude::*;

use super::state::{TaskError, TaskState};
use super::grpc::{join_error_display, join_error_text};
use super::store::RedisTaskStore;
use crate::id::uuid::{hyphenated_uuid_text, is_v4_bits, is_v4_uuid_text, new_uuid_v4_text};
use crate::text::concat2;

verus! {

/// The exit code recorded for a task whose execution could not be joined.
pub const JOIN_FAILURE_EXIT_CODE: i32 = 128;

/// The exit code recorded for a failed task whose result carries no code of its own.
pub const DEFAULT_FAILURE_EXIT_CODE: i32 = 1;

/// What a running task knows: its identifier and the store that records its outcome.
#[derive(Debug, Clone)]
pub struct DefaultContext {
    task_id: String,
    task_store: RedisTaskStore,
}

impl DefaultContext {
    pub fn new(task_id: String, task_store: RedisTaskStore) -> (r: Self)
        ensures
            r.task_id_view() == task_id@,
            r.task_store_view() == task_store,
    {
        Self { task_id, task_store }
    }

    /// The identifier of the task.
    pub closed spec fn task_id_view(&self) -> Seq<char> {
        self.task_id@
    }

    pub fn task_id(&self) -> (r: &str)
        ensures
            r@ == self.task_id_view(),
    {
        self.task_id.as_str()
    }

    /// The store that records the task's outcome.
    pub closed spec fn task_store_view(&self) -> RedisTaskStore {
        self.task_store
    }

    pub fn task_store(&self) -> (r: &RedisTaskStore)
        ensures
            *r == self.task_store_view(),
    {
        &self.task_store
    }
}

/// Makes the context a task runs with.
pub trait ContextProvider<T>: Sized {
    fn get(&self, task_id: String) -> T;
}

/// Provides contexts that record outcomes in one task store.
#[derive(Clone, Debug)]
pub struct DefaultContextProvider(pub RedisTaskStore);

impl ContextProvider<DefaultContext> for DefaultContextProvider {
    fn get(&self, task_id: String) -> (r: DefaultContext)
        ensures
            r.task_id_view() == task_id@,
            r.task_store_view() == self.0,
    {
        DefaultContext::new(task_id, self.0.clone())
    }
}

/// The exit code of a failed task: the code its result carries, when the result is an `i32`,
/// and one otherwise.
pub fn failure_exit_code(code_in_result: Option<i32>) -> (r: i32)
    ensures
        r == match code_in_result {
            Some(c) => c,
            None => DEFAULT_FAILURE_EXIT_CODE,
        },
{
    match code_in_result {
        Some(i) => i,
        None => DEFAULT_FAILURE_EXIT_CODE,
    }
}

/// A fresh worker identifier: `workers/{uuid}` with a random UUID in hyphenated form.
pub fn new_worker_id() -> (r: String)
    ensures
        exists|bits: u128| is_v4_bits(bits) && r@ == "workers/"@ + hyphenated_uuid_text(bits),
        exists|u: Seq<char>| is_v4_uuid_text(u) && r@ == "workers/"@ + u,
{
    let u = new_uuid_v4_text();
    concat2("workers/", u.as_str())
}

/// What a worker does after trying to take a task.
pub enum WorkerStep<T, R> {
    /// Run the task.
    Perform(TaskState<T, R>),
    /// The queue was empty: wait before trying again.
    Idle,
    /// Taking a task failed: wait before trying again.
    Retry(TaskError),
}

/// The step after taking a task: run it, or wait when the queue was empty or the store failed.
pub fn worker_step<T, R>(dequeued: Result<TaskState<T, R>, TaskError>) -> (r: WorkerStep<T, R>)
    ensures
        match dequeued {
            Ok(t) => r == WorkerStep::<T, R>::Perform(t),
            Err(TaskError::NotFound) => r matches WorkerStep::Idle,
            Err(e) => r == WorkerStep::<T, R>::Retry(e),
        },
{
    match dequeued {
        Ok(t) => WorkerStep::Perform(t),
        Err(TaskError::NotFound) => WorkerStep::Idle,
        Err(e) => WorkerStep::Retry(e),
    }
}

/// What is recorded once a performed task has been joined: nothing when it ran to its end
/// (it records its own outcome), and a failure with `JOIN_FAILURE_EXIT_CODE` and the join
/// error's text when it could not be joined (it panicked or was cancelled).
pub fn joined_failure<T>(joined: &Result<T, tokio::task::JoinError>) -> (r: Option<(i32, String)>)
    ensures
        joined is Ok <==> r is None,
        joined matches Err(e) ==> r matches Some((code, message)) && code == JOIN_FAILURE_EXIT_CODE
            && message@ == join_error_display(*e),
{
    match joined {
        Ok(_) => None,
        Err(e) => Some((JOIN_FAILURE_EXIT_CODE, join_error_text(e))),
    }
}

/// A broker that queues tasks of type `T` with results of type `R` in one queue of a task
/// store.
#[derive(Debug)]
pub struct DefaultBroker<T, R> {
    task_store: RedisTaskStore,
    queue: String,
    _phantom1: PhantomData<T>,
    _phantom2: PhantomData<R>,
}

impl<T, R> DefaultBroker<T, R> {
    pub fn new(queue: String, task_store: RedisTaskStore) -> (r: Self)
        ensures
            r.queue_view() == queue@,
            r.task_store_view() == task_store,
    {
        Self { queue, task_store, _phantom1: PhantomData, _phantom2: PhantomData }
    }

    /// The queue the broker fills.
    pub closed spec fn queue_view(&self) -> Seq<char> {
        self.queue@
    }

    pub fn queue(&self) -> (r: &str)
        ensures
            r@ == self.queue_view(),
    {
        self.queue.as_str()
    }

    /// The store that holds the tasks.
    pub closed spec fn task_store_view(&self) -> RedisTaskStore {
        self.task_store
    }

    pub fn task_store(&self) -> (r: &RedisTaskStore)
        ensures
            *r == self.task_store_view(),
    {
        &self.task_store
    }
}

impl<T, R> Clone for DefaultBroker<T, R> {
    fn clone(&self) -> (r: Self)
        ensures
            r.queue_view() == self.queue_view(),
            r.task_store_view() == self.task_store_view(),
    {
        Self {
            task_store: self.task_store.clone(),
            queue: self.queue.clone(),
            _phantom1: PhantomData,
            _phantom2: PhantomData,
        }
    }
}

} // verus!
