//! Shared types of long-running operations.

use vstd::prelude::*;

verus! {

/// A received task: its acknowledgement identifier and its data.
pub trait Task<T> {
    fn ack_id(&self) -> &str;

    fn data(&self) -> &T;
}

/// The caller on whose behalf a task is queued.
#[derive(Debug, Clone, PartialEq, Eq)]
pub struct Context {
    user_id: String,
}

impl Context {
    pub fn new(user_id: String) -> (r: Self)
        ensures
            r.user_id_view() == user_id@,
    {
        Self { user_id }
    }

    /// The user identifier the context was made with.
    pub closed spec fn user_id_view(&self) -> Seq<char> {
        self.user_id@
    }

    pub fn user_id(&self) -> (r: &str)
        ensures
            r@ == self.user_id_view(),
    {
        self.user_id.as_str()
    }
}

/// A loop that processes tasks until it is aborted.
pub trait TaskLoop {
    fn start(&self);

    fn abort(&self);

    fn await_termination(&self);
}

} // verus!
