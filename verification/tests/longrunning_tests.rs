use rappel::codec::json::{JsonCodec, JsonError, SerdeJsonDecoder, SerdeJsonEncoder};
use rappel::codec::{DecoderRead, EncoderWrite};
use rappel::longrunning::grpc::{cancel_status, lookup_error_status, operation_of, poll_outcome};
use rappel::longrunning::identifier::generate_for_workspace;
use rappel::longrunning::redis_queue::{
  ack_plan, ack_queue_key, check_pulled_fields, dequeue_fields, offer_fields, operation_key,
  pulled_message, pulled_operation_id, queue_key, offer_fields_of_encoded, RedisBroker, RedisQueueError,
};
use rappel::longrunning::state::{cancel_outcome, State, TaskError, TaskState};
use rappel::longrunning::store::{
  classify_task_read, new_task_id, pending_list_key, running_list_key, worker_key,
  worker_queues_value, Config, RedisStore, RedisTaskStore, RedisWorkerStore,
};
use rappel::longrunning::types::{Context, Task};
use rappel::longrunning::worker::{
  failure_exit_code, new_worker_id, worker_step, ContextProvider, DefaultBroker, DefaultContext,
  DefaultContextProvider, WorkerStep,
};
use rappel::prost::timestamp::Timestamp;
use rappel::proto::longrunning::Operation;
use rappel::proto::workspace::Workspace;

fn s(x: &str) -> String {
  x.to_string()
}

fn is_uuid(u: &str) -> bool {
  u.len() == 36 && uuid::Uuid::parse_str(u).is_ok() && u == u.to_lowercase()
}

fn client() -> redis::Client {
  redis::Client::open("redis://127.0.0.1/").unwrap()
}

#[test]
fn enqueued_task_waits_without_result() {
  let t: TaskState<String, i32> = TaskState::new(s("tasks/1"), s("shutdown"));
  assert_eq!(t.result, None);
  assert_eq!(t.state, State::Waiting);
  assert_eq!(t.exit_code, -1);
  assert_eq!(t.task, "shutdown");
}

#[test]
fn completed_task_keeps_result() {
  let mut t: TaskState<String, i32> = TaskState::new(s("tasks/1"), s("shutdown"));
  t.start(Timestamp { seconds: 1, nanos: 0 });
  assert_eq!(t.state, State::Running);
  t.complete(Timestamp { seconds: 2, nanos: 0 }, 99);
  assert_eq!(t.result, Some(99));
  assert_eq!(t.exit_code, 0);
  assert_eq!(t.state, State::Terminated);
  assert_eq!(t.started_at, Some(Timestamp { seconds: 1, nanos: 0 }));
  assert_eq!(t.processed_at, Some(Timestamp { seconds: 2, nanos: 0 }));
  let op = operation_of(&t);
  assert!(op.done);
  assert!(op.error.is_none());
  assert_eq!(op.operation_id, "tasks/1");
}

#[test]
fn failed_task_keeps_code_and_message() {
  let mut t: TaskState<String, i32> = TaskState::new(s("tasks/2"), s("shutdown"));
  t.fail(Timestamp { seconds: 3, nanos: 0 }, 99, s("Failed"));
  assert_eq!(t.result, None);
  assert_eq!(t.exit_code, 99);
  assert_eq!(t.message, "Failed");
  assert_eq!(t.state, State::Terminated);
  let op = operation_of(&t);
  let err = op.error.expect("error");
  assert_eq!(err.code, 99);
  assert_eq!(err.message, "Failed");
}

#[test]
fn running_task_is_not_cancelled() {
  let mut t: TaskState<String, i32> = TaskState::new(s("tasks/3"), s("x"));
  assert!(t.can_cancel());
  let back = cancel_outcome(Ok(t.clone())).expect("cancelled");
  assert_eq!(back.id, "tasks/3");
  t.start(Timestamp { seconds: 1, nanos: 0 });
  assert!(!t.can_cancel());
  match cancel_outcome(Ok(t)) {
    Err(TaskError::InvalidRequest(m)) => assert_eq!(m, "Already running"),
    _ => panic!("expected a refusal"),
  }
  match cancel_outcome::<String, i32>(Err(TaskError::NotFound)) {
    Err(TaskError::NotFound) => {}
    _ => panic!("expected NotFound"),
  }
}

#[test]
fn task_read_outcomes() {
  let type_error = redis::RedisError::from((redis::ErrorKind::TypeError, "Response was of incompatible type"));
  match classify_task_read::<String, i32>(Err(type_error), true) {
    Err(TaskError::NotFound) => {}
    _ => panic!("expected NotFound"),
  }
  let io_error = redis::RedisError::from((redis::ErrorKind::IoError, "broken"));
  match classify_task_read::<String, i32>(Err(io_error), false) {
    Err(TaskError::RedisError(_)) => {}
    _ => panic!("expected the store's error"),
  }
  let t: TaskState<String, i32> = TaskState::new(s("tasks/4"), s("x"));
  assert_eq!(classify_task_read(Ok(t), false).expect("task").id, "tasks/4");
  let missing = redis::RedisError::from((redis::ErrorKind::TypeError, "nil"));
  match rappel::longrunning::store::task_read_outcome::<String, i32>(Err(missing)) {
    Err(TaskError::NotFound) => {}
    _ => panic!("a type error reads as NotFound"),
  }
  let down = redis::RedisError::from((redis::ErrorKind::IoError, "down"));
  match rappel::longrunning::store::task_read_outcome::<String, i32>(Err(down)) {
    Err(TaskError::RedisError(e)) => assert_eq!(e.kind(), redis::ErrorKind::IoError),
    _ => panic!("another error stays the store's error"),
  }
}

#[test]
fn store_keys() {
  assert_eq!(pending_list_key("q1"), "tasks-q1-pending");
  assert_eq!(running_list_key("q1"), "tasks-q1-running");
  assert_eq!(worker_key("workers/7"), "worker/workers/7");
  assert_eq!(worker_queues_value(&vec![s("a"), s("b"), s("c")]), "a,b,c");
  assert_eq!(worker_queues_value(&vec![s("only")]), "only");
  assert_eq!(worker_queues_value(&vec![]), "");
  let id = new_task_id();
  assert!(id.starts_with("tasks/") && is_uuid(&id["tasks/".len()..]));
  let w = new_worker_id();
  assert!(w.starts_with("workers/") && is_uuid(&w["workers/".len()..]));
}

#[test]
fn stores_from_config() {
  let bad = Config { url: s("not a url") };
  assert!(RedisTaskStore::try_new_from_config(bad).is_none());
  let good = Config { url: s("redis://127.0.0.1/") };
  assert!(RedisTaskStore::try_new_from_config(good.clone()).is_some());
  let _ = RedisTaskStore::new_from_config(good);
  let _ = RedisWorkerStore::new(client());
  let _ = RedisStore::new(client());
}

#[test]
fn workspace_operation_identifier() {
  let w = Workspace { workspace_id: s("ws-1") };
  let id = generate_for_workspace(&w);
  let prefix = "workspace/ws-1/operations/";
  assert!(id.starts_with(prefix));
  assert!(is_uuid(&id[prefix.len()..]));
  assert_ne!(id, generate_for_workspace(&w));
}

#[test]
fn queue_keys_and_fields() {
  assert_eq!(queue_key("q"), "queue:q");
  assert_eq!(ack_queue_key("q"), "queue:ack:q");
  assert_eq!(operation_key("abc"), "operation:abc");
  let fields = offer_fields("q", -42, "{\"item\":10}", "1234", "my::Task");
  assert_eq!(
    fields,
    vec![
      (s("status"), s("New")),
      (s("queue"), s("q")),
      (s("publish_ts"), s("-42")),
      (s("task"), s("{\"item\":10}")),
      (s("user_id"), s("1234")),
      (s("task_type"), s("my::Task")),
    ]
  );
  assert_eq!(
    dequeue_fields("sys", 7, "u"),
    vec![(s("dequeue_system_id"), s("sys")), (s("dequeue_ts"), s("7")), (s("dequeue_user_id"), s("u"))]
  );
}

#[test]
fn offered_task_is_read_back_when_pulled() {
  let mut fields = offer_fields("q", 1, "{\"item\":10}", "1234", "my::Task");
  fields.extend(dequeue_fields("sys", 2, "me"));
  assert_eq!(check_pulled_fields(&fields, "my::Task").expect("task"), "{\"item\":10}");
  match check_pulled_fields(&fields, "other::Task") {
    Err(RedisQueueError::InvalidTaskType(expected, found)) => {
      assert_eq!(expected, "other::Task");
      assert_eq!(found, "my::Task");
    }
    _ => panic!("expected a type mismatch"),
  }
}

#[test]
fn mismatched_task_type_is_reported_without_a_task() {
  let fields = vec![(s("task_type"), s("my::Task")), (s("queue"), s("q"))];
  match check_pulled_fields(&fields, "other::Task") {
    Err(RedisQueueError::InvalidTaskType(expected, found)) => {
      assert_eq!(expected, "other::Task");
      assert_eq!(found, "my::Task");
    }
    _ => panic!("expected a type mismatch"),
  }
}

#[test]
fn pull_outcomes() {
  match pulled_operation_id(None) {
    Err(RedisQueueError::NotFound(m)) => assert_eq!(m, "Empty Queue"),
    _ => panic!("expected NotFound"),
  }
  assert_eq!(pulled_operation_id(Some(s("op"))).expect("id"), "op");
  let msg = pulled_message(s("op"), Some(10)).expect("message").expect("some");
  assert_eq!(msg.ack_id(), "op");
  assert_eq!(*msg.data(), 10);
  match pulled_message::<i32>(s("op"), None) {
    Err(RedisQueueError::Internal(m)) => assert_eq!(m, "Failed to decode task"),
    _ => panic!("expected Internal"),
  }
}

#[test]
fn ack_outcomes() {
  match ack_plan("op1", None, "sys", 5, "me") {
    Err(RedisQueueError::NotFound(m)) => assert_eq!(m, "Missing operation queue info for ack_id = op1"),
    _ => panic!("expected NotFound"),
  }
  let plan = ack_plan("op1", Some(s("q")), "sys", 5, "me").expect("plan");
  assert_eq!(plan.operation_key, "operation:op1");
  assert_eq!(plan.list_key, "queue:q");
  assert_eq!(plan.removed_value, "q");
  assert_eq!(plan.count, -1);
  assert_eq!(
    plan.fields,
    vec![(s("ack_system_id"), s("sys")), (s("ack_ts"), s("5")), (s("ack_user_id"), s("me"))]
  );
}

#[test]
fn broker_answers_with_pending_operation() {
  let broker: RedisBroker<i32> = RedisBroker::new(client(), s("q"));
  assert_eq!(broker.queue().queue(), "q");
  let op = RedisBroker::<i32>::enqueued_operation(s("id-1"));
  assert_eq!(op.operation_id, "id-1");
  assert!(!op.done);
  assert!(op.error.is_none());
  assert!(op.metadata.is_empty() && op.response.is_empty());
  assert!(op.creation_ts.is_none() && op.start_ts.is_none() && op.end_ts.is_none());
}

#[test]
fn polling_ends_only_when_done() {
  let pending = Operation::pending(s("x"));
  assert!(poll_outcome(Ok(pending)).is_none());
  let mut done = Operation::pending(s("y"));
  done.done = true;
  let out = poll_outcome(Ok(done)).expect("ends").expect("ok");
  assert_eq!(out.operation_id, "y");
  let err = poll_outcome(Err(tonic::Status::internal("boom"))).expect("ends");
  assert_eq!(err.err().expect("error").message(), "boom");
}

#[test]
fn lookup_errors_become_statuses() {
  let st = lookup_error_status(&TaskError::NotFound);
  assert_eq!(st.code(), tonic::Code::NotFound);
  assert_eq!(st.message(), "Invalid Operation");
  let st = lookup_error_status(&TaskError::InvalidRequest(s("bad")));
  assert_eq!(st.code(), tonic::Code::Internal);
  assert_eq!(st.message(), "Invalid request: bad");
  let redis_failure = TaskError::RedisError(redis::RedisError::from((redis::ErrorKind::IoError, "down")));
  let st = lookup_error_status(&redis_failure);
  assert_eq!(st.code(), tonic::Code::Internal);
  assert!(st.message().starts_with("Redis error: "));
  assert!(st.message().contains("down"));
  let st = cancel_status();
  assert_eq!(st.code(), tonic::Code::Unimplemented);
  assert_eq!(st.message(), "unimplemented");
}

#[test]
fn contexts_and_workers() {
  let ctx = Context::new(s("1234"));
  assert_eq!(ctx.user_id(), "1234");
  let store = RedisTaskStore::new(client());
  let dc = DefaultContext::new(s("tasks/9"), store.clone());
  assert_eq!(dc.task_id(), "tasks/9");
  let provider = DefaultContextProvider(store.clone());
  assert_eq!(provider.get(s("tasks/10")).task_id(), "tasks/10");
  assert_eq!(failure_exit_code(Some(42)), 42);
  assert_eq!(failure_exit_code(None), 1);
  let t: TaskState<String, i32> = TaskState::new(s("tasks/5"), s("x"));
  assert!(matches!(worker_step(Ok(t)), WorkerStep::Perform(_)));
  assert!(matches!(worker_step::<String, i32>(Err(TaskError::NotFound)), WorkerStep::Idle));
  assert!(matches!(
    worker_step::<String, i32>(Err(TaskError::InvalidRequest(s("x")))),
    WorkerStep::Retry(_)
  ));
  let broker: DefaultBroker<String, i32> = DefaultBroker::new(s("jobs"), store);
  assert_eq!(broker.queue(), "jobs");
}

#[test]
fn json_codec_pieces() {
  let codec: JsonCodec<i32, i32> = JsonCodec::new();
  let mut enc: SerdeJsonEncoder<i32> = codec.encoder();
  let mut buf: Vec<u8> = b"x".to_vec();
  let n = enc.encode_serialized(serde_json::to_vec(&10), &mut buf).expect("encoded");
  assert_eq!(n, 2);
  assert_eq!(buf, b"x10".to_vec());
  let failed: Result<Vec<u8>, serde_json::Error> = Err(serde_json::from_str::<i32>("nope").unwrap_err());
  assert!(matches!(enc.encode_serialized(failed, &mut buf), Err(JsonError::Serde(_))));
  assert_eq!(buf, b"x10".to_vec());
  let mut dec: SerdeJsonDecoder<i32> = codec.decoder();
  let bytes: Vec<u8> = b"10".to_vec();
  let parsed = serde_json::from_slice::<i32>(DecoderRead::as_slice(&bytes));
  assert_eq!(dec.decode_parsed(parsed).expect("ok"), Some(10));
  let text: &str = "[1]";
  assert_eq!(DecoderRead::as_slice(&text), b"[1]");
  let mut out: Vec<u8> = Vec::new();
  EncoderWrite::write(&mut out, b"ab");
  assert_eq!(out, b"ab".to_vec());
  assert_eq!(
    offer_fields_of_encoded("q", 1, b"{\"item\":10}", "u", "t"),
    offer_fields("q", 1, "{\"item\":10}", "u", "t")
  );
  let lossy = offer_fields_of_encoded("q", 1, b"a\xffb", "u", "t");
  assert_eq!(lossy[3], (s("task"), s("a\u{fffd}b")));
}

#[test]
fn task_error_messages() {
  assert_eq!(TaskError::NotFound.message(), "Not found");
  assert_eq!(TaskError::InvalidRequest(s("x")).message(), "Invalid request: x");
}

#[test]
fn joined_tasks_record_failures_only_when_not_joined() {
  let rt = tokio::runtime::Runtime::new().unwrap();
  let ok: Result<i32, tokio::task::JoinError> = rt.block_on(rt.spawn(async { 1 }));
  assert_eq!(rappel::longrunning::worker::joined_failure(&ok), None);
  let failed: Result<i32, tokio::task::JoinError> = rt.block_on(rt.spawn(async {
    if true {
      panic!("task blew up");
    }
    1
  }));
  let (code, message) = rappel::longrunning::worker::joined_failure(&failed).expect("failure");
  assert_eq!(code, rappel::longrunning::worker::JOIN_FAILURE_EXIT_CODE);
  assert_eq!(code, 128);
  assert!(message.contains("panicked"));
  assert_eq!(message, failed.as_ref().err().expect("join error").to_string());
  let st = lookup_error_status(&TaskError::JoinError(failed.err().expect("join error")));
  assert_eq!(st.message(), format!("Join error: {}", message));
}
