//! Task and worker stores kept in Redis: their handles, key layout and read outcomes.

use vstd::prelude::*;

use super::state::{TaskError, TaskState};
use crate::id::uuid::{hyphenated_uuid_text, is_v4_bits, is_v4_uuid_text, new_uuid_v4_text};
use crate::text::{concat2, concat3};

verus! {

#[verifier::external_type_specification]
#[verifier::external_body]
pub struct ExRedisClient(redis::Client);

/// `redis::Client::clone` (derived): a client equal to the original, for the same server.
pub assume_specification[ <redis::Client as Clone>::clone ](c: &redis::Client) -> (r: redis::Client)
    ensures
        r == *c,
;

/// The client that `redis::Client::open` makes for a URL, or `None` when it refuses the URL.
/// The outcome depends on the URL alone.
pub uninterp spec fn redis_open(url: Seq<char>) -> Option<redis::Client>;

/// Whether `redis::Client::open` accepts a URL.
pub open spec fn redis_url_accepted(url: Seq<char>) -> bool {
    redis_open(url) is Some
}

/// `redis::Client::open`: a client for the server at `url`, or an error when the URL does
/// not parse as a Redis URL. It opens no connection.
#[verifier::external_body]
fn open_client(url: &str) -> (r: Result<redis::Client, redis::RedisError>)
    ensures
        match r {
            Ok(c) => redis_open(url@) == Some(c),
            Err(_) => redis_open(url@) is None,
        },
{
    redis::Client::open(url)
}

/// Whether a Redis error is of kind `ErrorKind::TypeError`: the reply had another type than
/// the one asked for, as a missing hash field gives. The kind is a field of the error, so the
/// answer depends on the error alone.
pub uninterp spec fn redis_type_error(e: redis::RedisError) -> bool;

/// `redis::RedisError::kind`, compared with `ErrorKind::TypeError`.
#[verifier::external_body]
fn is_type_error(e: &redis::RedisError) -> (r: bool)
    ensures
        r == redis_type_error(*e),
{
    matches!(e.kind(), redis::ErrorKind::TypeError)
}

/// Where a task store finds its server.
#[derive(Debug, Clone)]
pub struct Config {
    pub url: String,
}

/// Task states kept in Redis.
#[derive(Debug)]
pub struct RedisTaskStore {
    client: redis::Client,
}

impl Clone for RedisTaskStore {
    fn clone(&self) -> (r: Self)
        ensures
            r == *self,
    {
        RedisTaskStore { client: self.client.clone() }
    }
}

impl RedisTaskStore {
    pub fn new(client: redis::Client) -> (r: Self)
        ensures
            r.client() == client,
    {
        Self { client }
    }

    /// The client the store talks through.
    pub closed spec fn client(&self) -> redis::Client {
        self.client
    }

    pub fn redis_client(&self) -> (r: &redis::Client)
        ensures
            *r == self.client(),
    {
        &self.client
    }

    /// A store for the server that the configuration names; the URL must parse.
    pub fn new_from_config(config: Config) -> (r: Self)
        requires
            redis_url_accepted(config.url@),
        ensures
            r.client() == redis_open(config.url@)->0,
    {
        match open_client(config.url.as_str()) {
            Ok(client) => Self::new(client),
            Err(_) => vstd::pervasive::unreached(),
        }
    }

    /// A store for the server that the configuration names, or `None` when the URL does not
    /// parse.
    pub fn try_new_from_config(config: Config) -> (r: Option<Self>)
        ensures
            r is Some == redis_url_accepted(config.url@),
            r matches Some(store) ==> store.client() == redis_open(config.url@)->0,
    {
        let probe = open_client(config.url.as_str());
        if probe.is_ok() {
            Some(Self::new_from_config(config))
        } else {
            None
        }
    }
}

/// Worker registrations kept in Redis.
#[derive(Debug)]
pub struct RedisWorkerStore {
    client: redis::Client,
}

impl Clone for RedisWorkerStore {
    fn clone(&self) -> (r: Self)
        ensures
            r == *self,
    {
        RedisWorkerStore { client: self.client.clone() }
    }
}

impl RedisWorkerStore {
    pub fn new(client: redis::Client) -> (r: Self)
        ensures
            r.client() == client,
    {
        Self { client }
    }

    /// The client the store talks through.
    pub closed spec fn client(&self) -> redis::Client {
        self.client
    }

    pub fn redis_client(&self) -> (r: &redis::Client)
        ensures
            *r == self.client(),
    {
        &self.client
    }
}

/// Operations read from a task store.
#[derive(Debug)]
pub struct RedisStore {
    inner: RedisTaskStore,
}

impl RedisStore {
    pub fn new(client: redis::Client) -> (r: Self)
        ensures
            r.inner().client() == client,
    {
        Self { inner: RedisTaskStore::new(client) }
    }

    /// The task store that holds the operations.
    pub closed spec fn inner(&self) -> RedisTaskStore {
        self.inner
    }

    pub fn task_store(&self) -> (r: &RedisTaskStore)
        ensures
            *r == self.inner(),
    {
        &self.inner
    }
}

/// A fresh task identifier: `tasks/{uuid}` with a random UUID in hyphenated form.
pub fn new_task_id() -> (r: String)
    ensures
        exists|bits: u128| is_v4_bits(bits) && r@ == "tasks/"@ + hyphenated_uuid_text(bits),
        exists|u: Seq<char>| is_v4_uuid_text(u) && r@ == "tasks/"@ + u,
{
    let u = new_uuid_v4_text();
    concat2("tasks/", u.as_str())
}

/// The list of task identifiers waiting in queue `q`: `tasks-{q}-pending`.
pub fn pending_list_key(q: &str) -> (r: String)
    ensures
        r@ == "tasks-"@ + q@ + "-pending"@,
{
    concat3("tasks-", q, "-pending")
}

/// The list of task identifiers being processed from queue `q`: `tasks-{q}-running`.
pub fn running_list_key(q: &str) -> (r: String)
    ensures
        r@ == "tasks-"@ + q@ + "-running"@,
{
    concat3("tasks-", q, "-running")
}

/// The hash that registers a worker: `worker/{worker_id}`.
pub fn worker_key(worker_id: &str) -> (r: String)
    ensures
        r@ == "worker/"@ + worker_id@,
{
    concat2("worker/", worker_id)
}

/// The strings of `list` joined by `sep`.
pub open spec fn seq_join(list: Seq<Seq<char>>, sep: Seq<char>) -> Seq<char>
    decreases list.len(),
{
    if list.len() == 0 {
        Seq::empty()
    } else if list.len() == 1 {
        list[0]
    } else {
        seq_join(list.drop_last(), sep) + sep + list.last()
    }
}

/// The value a worker registers for its queues: their names joined by commas.
pub fn worker_queues_value(queues: &Vec<String>) -> (r: String)
    ensures
        r@ == seq_join(queues@.map_values(|q: String| q@), ","@),
{
    let ghost names = queues@.map_values(|q: String| q@);
    let mut r = String::new();
    let mut i: usize = 0;
    while i < queues.len()
        invariant
            i <= queues.len(),
            names == queues@.map_values(|q: String| q@),
            r@ == seq_join(names.take(i as int), ","@),
        decreases queues.len() - i,
    {
        proof {
            assert(names.take(i + 1).drop_last() =~= names.take(i as int));
        }
        if i != 0 {
            r.append(",");
        }
        r.append(queues[i].as_str());
        proof {
            if i == 0 {
                assert(r@ =~= names.take(1)[0]);
            }
        }
        i = i + 1;
    }
    assert(names.take(queues.len() as int) =~= names);
    r
}

/// What reading a task gives: the task, `NotFound` when the reply had another type (the task
/// hash lacks its field), or the store's error.
pub fn classify_task_read<T, R>(
    resp: Result<TaskState<T, R>, redis::RedisError>,
    type_error: bool,
) -> (r: Result<TaskState<T, R>, TaskError>)
    ensures
        match resp {
            Ok(t) => r == Ok::<TaskState<T, R>, TaskError>(t),
            Err(e) => if type_error {
                r matches Err(TaskError::NotFound)
            } else {
                r == Err::<TaskState<T, R>, TaskError>(TaskError::RedisError(e))
            },
        },
{
    match resp {
        Ok(t) => Ok(t),
        Err(e) => {
            if type_error {
                Err(TaskError::NotFound)
            } else {
                Err(TaskError::RedisError(e))
            }
        },
    }
}

/// What reading a task gives, with the kind of a failure read from the error: the task,
/// `NotFound` for a type error (the task hash lacks its field), or the store's error.
pub fn task_read_outcome<T, R>(resp: Result<TaskState<T, R>, redis::RedisError>) -> (r: Result<
    TaskState<T, R>,
    TaskError,
>)
    ensures
        match resp {
            Ok(t) => r == Ok::<TaskState<T, R>, TaskError>(t),
            Err(e) => if redis_type_error(e) {
                r matches Err(TaskError::NotFound)
            } else {
                r == Err::<TaskState<T, R>, TaskError>(TaskError::RedisError(e))
            },
        },
{
    let type_error = match &resp {
        Ok(_) => false,
        Err(e) => is_type_error(e),
    };
    classify_task_read(resp, type_error)
}

} // verus!
