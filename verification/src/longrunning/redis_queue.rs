//! A task queue kept in Redis: its keys, the fields it records, and the outcomes of taking and
//! acknowledging tasks.

use std::marker::PhantomData;

use vstd::prelude::*;

use super::types::Task;
use crate::codec::json::{JsonCodec, JsonError};
use crate::pairs::{find_value, lookup, pair, pairs_view};
use crate::proto::longrunning::Operation;
use crate::text::{concat2, i64_to_string, int_decimal};

verus! {

#[verifier::external_type_specification]
#[verifier::external_body]
pub struct ExAnyhowError(anyhow::Error);

/// The errors of a Redis queue.
#[derive(Debug)]
pub enum RedisQueueError {
    Redis(redis::RedisError),
    CodecError(JsonError),
    /// The task found in the queue has another type: expected, found.
    InvalidTaskType(String, String),
    Internal(String),
    NotFound(String),
    Unknown(anyhow::Error),
}

/// The errors of a Redis broker.
#[derive(Debug)]
pub enum BrokerError {
    QueueError(RedisQueueError),
}

/// A task taken from the queue: the identifier to acknowledge it with, and its data.
#[derive(Clone, Debug)]
pub struct RedisMessage<T> {
    ack_id: String,
    data: T,
}

impl<T> RedisMessage<T> {
    /// The acknowledgement identifier.
    pub closed spec fn ack_id_view(&self) -> Seq<char> {
        self.ack_id@
    }

    /// The task data.
    pub closed spec fn data_view(&self) -> T {
        self.data
    }
}

impl<T> Task<T> for RedisMessage<T> {
    fn ack_id(&self) -> (r: &str)
        ensures
            r@ == self.ack_id_view(),
    {
        self.ack_id.as_str()
    }

    fn data(&self) -> (r: &T)
        ensures
            *r == self.data_view(),
    {
        &self.data
    }
}

/// `String::from_utf8_lossy`: the text of encoded bytes; valid UTF-8 is decoded as it is.
#[verifier::external_body]
fn text_of_bytes(bytes: &[u8]) -> (r: String)
    ensures
        vstd::utf8::valid_utf8(bytes@) ==> r@ == vstd::utf8::decode_utf8(bytes@),
{
    String::from_utf8_lossy(bytes).into_owned()
}

/// A queue of tasks of type `T` kept in Redis and encoded with the codec `C`.
#[derive(Debug)]
pub struct RedisQueue<T, C> {
    client: redis::Client,
    queue: String,
    codec: C,
    _phantom: PhantomData<T>,
}

impl<T, C> RedisQueue<T, C> {
    pub fn new(client: redis::Client, queue: String, codec: C) -> (r: Self)
        ensures
            r.queue_view() == queue@,
            r.client_view() == client,
            r.codec_view() == codec,
    {
        Self { client, queue, codec, _phantom: PhantomData }
    }

    /// The queue's name.
    pub closed spec fn queue_view(&self) -> Seq<char> {
        self.queue@
    }

    /// The client the queue talks through.
    pub closed spec fn client_view(&self) -> redis::Client {
        self.client
    }

    /// The codec the queue encodes tasks with.
    pub closed spec fn codec_view(&self) -> C {
        self.codec
    }

    pub fn client(&self) -> (r: &redis::Client)
        ensures
            *r == self.client_view(),
    {
        &self.client
    }

    pub fn queue(&self) -> (r: &str)
        ensures
            r@ == self.queue_view(),
    {
        self.queue.as_str()
    }

    pub fn codec(&self) -> (r: &C)
        ensures
            *r == self.codec_view(),
    {
        &self.codec
    }
}

impl<T, C: Clone> Clone for RedisQueue<T, C> {
    fn clone(&self) -> (r: Self)
        ensures
            r.queue_view() == self.queue_view(),
            r.client_view() == self.client_view(),
            cloned::<C>(self.codec_view(), r.codec_view()),
    {
        Self {
            client: self.client.clone(),
            queue: self.queue.clone(),
            codec: self.codec.clone(),
            _phantom: PhantomData,
        }
    }
}

/// A broker that queues tasks of type `T` in Redis.
#[derive(Debug)]
pub struct RedisBroker<T> {
    _client: redis::Client,
    queue: RedisQueue<T, JsonCodec<T, T>>,
    _phantom: PhantomData<T>,
}

impl<T> RedisBroker<T> {
    pub fn new(client: redis::Client, queue_name: String) -> (r: Self)
        ensures
            r.queue_name() == queue_name@,
    {
        Self {
            _client: client.clone(),
            queue: RedisQueue::new(client, queue_name, JsonCodec::new()),
            _phantom: PhantomData,
        }
    }

    /// The name of the queue the broker fills.
    pub closed spec fn queue_name(&self) -> Seq<char> {
        self.queue.queue_view()
    }

    pub fn queue(&self) -> (r: &RedisQueue<T, JsonCodec<T, T>>)
        ensures
            r.queue_view() == self.queue_name(),
    {
        &self.queue
    }

    /// The operation that answers an enqueued task: its identifier is the task's, it is not
    /// done, and it carries no error, metadata, response or times.
    pub fn enqueued_operation(id: String) -> (r: Operation)
        ensures
            r.operation_id == id,
            !r.done,
            r.error is None,
            r.metadata@.len() == 0,
            r.response@.len() == 0,
            r.creation_ts is None,
            r.start_ts is None,
            r.end_ts is None,
    {
        Operation::pending(id)
    }
}

impl<T> Clone for RedisBroker<T> {
    fn clone(&self) -> (r: Self)
        ensures
            r.queue_name() == self.queue_name(),
    {
        Self { _client: self._client.clone(), queue: self.queue.clone(), _phantom: PhantomData }
    }
}

/// The list that holds the identifiers of queued tasks: `queue:{queue}`.
pub fn queue_key(queue: &str) -> (r: String)
    ensures
        r@ == "queue:"@ + queue@,
{
    concat2("queue:", queue)
}

/// The list that holds the identifiers of taken, unacknowledged tasks: `queue:ack:{queue}`.
pub fn ack_queue_key(queue: &str) -> (r: String)
    ensures
        r@ == "queue:ack:"@ + queue@,
{
    concat2("queue:ack:", queue)
}

/// The hash that records an operation: `operation:{id}`.
pub fn operation_key(id: &str) -> (r: String)
    ensures
        r@ == "operation:"@ + id@,
{
    concat2("operation:", id)
}

/// The fields recorded when a task is offered: status `New`, the queue, the publication time,
/// the encoded task, the user, and the task type.
pub open spec fn offered_fields(
    queue: Seq<char>,
    publish_ts: int,
    task: Seq<char>,
    user_id: Seq<char>,
    task_type: Seq<char>,
) -> Seq<(Seq<char>, Seq<char>)> {
    seq![
        ("status"@, "New"@),
        ("queue"@, queue),
        ("publish_ts"@, int_decimal(publish_ts)),
        ("task"@, task),
        ("user_id"@, user_id),
        ("task_type"@, task_type),
    ]
}

/// The fields recorded when a task is offered, given the task's encoded bytes: the bytes are
/// recorded as text, decoded as UTF-8 where they are valid UTF-8.
pub fn offer_fields_of_encoded(
    queue: &str,
    publish_ts: i64,
    encoded: &[u8],
    user_id: &str,
    task_type: &str,
) -> (r: Vec<(String, String)>)
    ensures
        exists|task: Seq<char>|
            pairs_view(r@) == offered_fields(queue@, publish_ts as int, task, user_id@, task_type@)
                && (vstd::utf8::valid_utf8(encoded@) ==> task == vstd::utf8::decode_utf8(encoded@)),
{
    let task = text_of_bytes(encoded);
    let r = offer_fields(queue, publish_ts, task.as_str(), user_id, task_type);
    assert(pairs_view(r@) == offered_fields(queue@, publish_ts as int, task@, user_id@, task_type@));
    r
}

/// The fields recorded when a task is taken from the queue.
pub open spec fn dequeued_fields(system_id: Seq<char>, ts: int, user_id: Seq<char>) -> Seq<
    (Seq<char>, Seq<char>),
> {
    seq![
        ("dequeue_system_id"@, system_id),
        ("dequeue_ts"@, int_decimal(ts)),
        ("dequeue_user_id"@, user_id),
    ]
}

/// Round-trip law: the fields of an offered task, with the fields recorded when it is taken
/// added after them, give back the task's type and its encoded text.
pub proof fn lemma_offered_task_reads_back(
    queue: Seq<char>,
    publish_ts: int,
    task: Seq<char>,
    user_id: Seq<char>,
    task_type: Seq<char>,
    system_id: Seq<char>,
    ts: int,
    taker: Seq<char>,
)
    ensures
        lookup(
            offered_fields(queue, publish_ts, task, user_id, task_type) + dequeued_fields(system_id, ts, taker),
            "task_type"@,
        ) == Some(task_type),
        lookup(
            offered_fields(queue, publish_ts, task, user_id, task_type) + dequeued_fields(system_id, ts, taker),
            "task"@,
        ) == Some(task),
{
    let all = offered_fields(queue, publish_ts, task, user_id, task_type) + dequeued_fields(system_id, ts, taker);
    reveal_strlit("task_type");
    reveal_strlit("task");
    reveal_strlit("user_id");
    reveal_strlit("dequeue_system_id");
    reveal_strlit("dequeue_ts");
    reveal_strlit("dequeue_user_id");
    assert("task"@.len() != "dequeue_user_id"@.len());
    assert("task"@.len() != "dequeue_ts"@.len());
    assert("task"@.len() != "dequeue_system_id"@.len());
    assert("task"@.len() != "task_type"@.len());
    assert("task"@.len() != "user_id"@.len());
    assert("task_type"@.len() != "dequeue_user_id"@.len());
    assert("task_type"@.len() != "dequeue_ts"@.len());
    assert("task_type"@.len() != "dequeue_system_id"@.len());
    let s8 = all.drop_last();
    let s7 = s8.drop_last();
    let s6 = s7.drop_last();
    let s5 = s6.drop_last();
    let s4 = s5.drop_last();
    assert(all.last() == ("dequeue_user_id"@, taker));
    assert(s8.last() == ("dequeue_ts"@, int_decimal(ts)));
    assert(s7.last() == ("dequeue_system_id"@, system_id));
    assert(s6.last() == ("task_type"@, task_type));
    assert(s5.last() == ("user_id"@, user_id));
    assert(s4.last() == ("task"@, task));
    assert(lookup(s6, "task_type"@) == Some(task_type));
    assert(lookup(s7, "task_type"@) == lookup(s6, "task_type"@));
    assert(lookup(s8, "task_type"@) == lookup(s7, "task_type"@));
    assert(lookup(all, "task_type"@) == lookup(s8, "task_type"@));
    assert(lookup(s4, "task"@) == Some(task));
    assert(lookup(s5, "task"@) == lookup(s4, "task"@));
    assert(lookup(s6, "task"@) == lookup(s5, "task"@));
    assert(lookup(s7, "task"@) == lookup(s6, "task"@));
    assert(lookup(s8, "task"@) == lookup(s7, "task"@));
    assert(lookup(all, "task"@) == lookup(s8, "task"@));
}

/// The fields recorded when a task is offered: status `New`, the queue, the publication time,
/// the encoded task, the user, and the task type.
pub fn offer_fields(queue: &str, publish_ts: i64, task: &str, user_id: &str, task_type: &str) -> (r: Vec<
    (String, String),
>)
    ensures
        pairs_view(r@) == offered_fields(queue@, publish_ts as int, task@, user_id@, task_type@),
{
    let ts = i64_to_string(publish_ts);
    let mut r: Vec<(String, String)> = Vec::new();
    r.push(pair("status", "New"));
    r.push(pair("queue", queue));
    r.push(pair("publish_ts", ts.as_str()));
    r.push(pair("task", task));
    r.push(pair("user_id", user_id));
    r.push(pair("task_type", task_type));
    assert(pairs_view(r@) =~= seq![
        ("status"@, "New"@),
        ("queue"@, queue@),
        ("publish_ts"@, int_decimal(publish_ts as int)),
        ("task"@, task@),
        ("user_id"@, user_id@),
        ("task_type"@, task_type@),
    ]);
    r
}

/// The three fields `{prefix}_system_id`, `{prefix}_ts` and `{prefix}_user_id`, recorded when a
/// task is taken (prefix `dequeue`) or acknowledged (prefix `ack`).
fn stamp_fields(
    system_key: &str,
    ts_key: &str,
    user_key: &str,
    system_id: &str,
    ts: i64,
    user_id: &str,
) -> (r: Vec<(String, String)>)
    ensures
        pairs_view(r@) == seq![
            (system_key@, system_id@),
            (ts_key@, int_decimal(ts as int)),
            (user_key@, user_id@),
        ],
{
    let ts_text = i64_to_string(ts);
    let mut r: Vec<(String, String)> = Vec::new();
    r.push(pair(system_key, system_id));
    r.push(pair(ts_key, ts_text.as_str()));
    r.push(pair(user_key, user_id));
    assert(pairs_view(r@) =~= seq![
        (system_key@, system_id@),
        (ts_key@, int_decimal(ts as int)),
        (user_key@, user_id@),
    ]);
    r
}

/// The fields recorded when a task is taken from the queue.
pub fn dequeue_fields(system_id: &str, ts: i64, user_id: &str) -> (r: Vec<(String, String)>)
    ensures
        pairs_view(r@) == dequeued_fields(system_id@, ts as int, user_id@),
{
    stamp_fields("dequeue_system_id", "dequeue_ts", "dequeue_user_id", system_id, ts, user_id)
}

/// The fields recorded when a task is acknowledged.
pub fn ack_fields(system_id: &str, ts: i64, user_id: &str) -> (r: Vec<(String, String)>)
    ensures
        pairs_view(r@) == seq![
            ("ack_system_id"@, system_id@),
            ("ack_ts"@, int_decimal(ts as int)),
            ("ack_user_id"@, user_id@),
        ],
{
    stamp_fields("ack_system_id", "ack_ts", "ack_user_id", system_id, ts, user_id)
}

/// The operation identifier that moving the queue's last element gave, or `NotFound` when the
/// queue was empty.
pub fn pulled_operation_id(moved: Option<String>) -> (r: Result<String, RedisQueueError>)
    ensures
        match moved {
            Some(id) => r == Ok::<String, RedisQueueError>(id),
            None => r matches Err(RedisQueueError::NotFound(m)) && m@ == "Empty Queue"@,
        },
{
    match moved {
        None => Err(RedisQueueError::NotFound(String::from_str("Empty Queue"))),
        Some(id) => Ok(id),
    }
}

/// Checks the recorded fields of a taken operation: when its task type is the expected one,
/// the encoded task is returned; otherwise `InvalidTaskType(expected, found)`, without the task
/// being read. A record always holds its task type, and its task where the type is the expected
/// one.
pub fn check_pulled_fields(fields: &Vec<(String, String)>, expected_type: &str) -> (r: Result<
    String,
    RedisQueueError,
>)
    requires
        lookup(pairs_view(fields@), "task_type"@) is Some,
        lookup(pairs_view(fields@), "task_type"@)->0 == expected_type@ ==> lookup(
            pairs_view(fields@),
            "task"@,
        ) is Some,
    ensures
        ({
            let found = lookup(pairs_view(fields@), "task_type"@)->0;
            if found == expected_type@ {
                r matches Ok(t) && t@ == lookup(pairs_view(fields@), "task"@)->0
            } else {
                r matches Err(RedisQueueError::InvalidTaskType(e, f)) && e@ == expected_type@ && f@
                    == found
            }
        }),
{
    let found = match find_value(fields, "task_type") {
        Some(v) => v.clone(),
        None => String::new(),
    };
    let expected = String::from_str(expected_type);
    if found != expected {
        return Err(RedisQueueError::InvalidTaskType(expected, found));
    }
    match find_value(fields, "task") {
        Some(t) => Ok(t.clone()),
        None => Ok(String::new()),
    }
}

/// The message taken from the queue once its task was decoded, or `Internal` when decoding gave
/// nothing.
pub fn pulled_message<T>(op_id: String, decoded: Option<T>) -> (r: Result<Option<RedisMessage<T>>, RedisQueueError>)
    ensures
        match decoded {
            Some(t) => r matches Ok(Some(m)) && m.ack_id_view() == op_id@ && m.data_view() == t,
            None => r matches Err(RedisQueueError::Internal(msg)) && msg@ == "Failed to decode task"@,
        },
{
    match decoded {
        Some(t) => Ok(Some(RedisMessage { ack_id: op_id, data: t })),
        None => Err(RedisQueueError::Internal(String::from_str("Failed to decode task"))),
    }
}

/// What acknowledging a task writes: the operation hash and its fields, and the list entry to
/// remove (from the list `queue:{queue}`, the last occurrence of the queue's name).
pub struct AckPlan {
    pub operation_key: String,
    pub fields: Vec<(String, String)>,
    pub list_key: String,
    pub removed_value: String,
    pub count: i64,
}

/// The plan for acknowledging `ack_id`, given the queue recorded for it; `NotFound` when no
/// queue is recorded.
pub fn ack_plan(ack_id: &str, recorded_queue: Option<String>, system_id: &str, ts: i64, user_id: &str) -> (r: Result<
    AckPlan,
    RedisQueueError,
>)
    ensures
        match recorded_queue {
            None => r matches Err(RedisQueueError::NotFound(m)) && m@
                == "Missing operation queue info for ack_id = "@ + ack_id@,
            Some(q) => r matches Ok(p) && {
                &&& p.operation_key@ == "operation:"@ + ack_id@
                &&& pairs_view(p.fields@) == seq![
                    ("ack_system_id"@, system_id@),
                    ("ack_ts"@, int_decimal(ts as int)),
                    ("ack_user_id"@, user_id@),
                ]
                &&& p.list_key@ == "queue:"@ + q@
                &&& p.removed_value@ == q@
                &&& p.count == -1
            },
        },
{
    match recorded_queue {
        None => Err(RedisQueueError::NotFound(concat2("Missing operation queue info for ack_id = ", ack_id))),
        Some(q) => {
            let list_key = queue_key(q.as_str());
            Ok(AckPlan {
                operation_key: operation_key(ack_id),
                fields: ack_fields(system_id, ts, user_id),
                list_key,
                removed_value: q,
                count: -1,
            })
        },
    }
}

} // verus!
