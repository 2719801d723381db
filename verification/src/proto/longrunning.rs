//! Long-running operation messages.

use vstd::prelude::*;

use crate::prost::timestamp::Timestamp;

verus! {

/// The error status of a finished operation.
#[derive(Debug, Clone)]
pub struct RpcStatus {
    pub code: i32,
    pub message: String,
}

/// A long-running operation as clients see it.
#[derive(Debug)]
pub struct Operation {
    pub operation_id: String,
    pub metadata: Vec<(String, String)>,
    pub done: bool,
    pub error: Option<RpcStatus>,
    pub response: Vec<(String, String)>,
    pub creation_ts: Option<Timestamp>,
    pub start_ts: Option<Timestamp>,
    pub end_ts: Option<Timestamp>,
}

impl Operation {
    /// A freshly queued operation: not done, without metadata, error, response or times.
    pub fn pending(operation_id: String) -> (r: Operation)
        ensures
            r.operation_id == operation_id,
            r.metadata@.len() == 0,
            !r.done,
            r.error is None,
            r.response@.len() == 0,
            r.creation_ts is None,
            r.start_ts is None,
            r.end_ts is None,
    {
        Operation {
            operation_id,
            metadata: Vec::new(),
            done: false,
            error: None,
            response: Vec::new(),
            creation_ts: None,
            start_ts: None,
            end_ts: None,
        }
    }
}

} // verus!
