//! Long-running operations: task states, queues, brokers and workers.

pub mod grpc;
pub mod identifier;
pub mod redis_queue;
pub mod state;
pub mod store;
pub mod types;
pub mod worker;
