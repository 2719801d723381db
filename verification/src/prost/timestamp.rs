//! Protobuf timestamps.

use vstd::prelude::*;

verus! {

/// A point in time: seconds since 1970-01-01 UTC and a non-negative fraction in nanoseconds,
/// as in the protobuf well-known type `google.protobuf.Timestamp`.
#[derive(Clone, Copy, Debug, PartialEq, Eq, Structural)]
pub struct Timestamp {
    pub seconds: i64,
    pub nanos: i32,
}

/// A timestamp built from the parts of a date-time.
#[derive(Clone, Copy, Debug)]
pub struct ProstTimestamp(pub Timestamp);

impl ProstTimestamp {
    pub fn into_inner(self) -> (r: Timestamp)
        ensures
            r == self.0,
    {
        self.0
    }

    /// The timestamp of a date-time given by its whole seconds since 1970-01-01 UTC and its
    /// nanoseconds since the last whole second (which exceed 999,999,999 in a leap second);
    /// the nanoseconds are cast to `i32`.
    pub fn from_parts(seconds: i64, subsec_nanos: u32) -> (r: ProstTimestamp)
        ensures
            r.0.seconds == seconds,
            r.0.nanos == subsec_nanos as i32,
    {
        ProstTimestamp(Timestamp { seconds, nanos: subsec_nanos as i32 })
    }
}

impl core::ops::Deref for ProstTimestamp {
    type Target = Timestamp;

    fn deref(&self) -> (r: &Timestamp)
        ensures
            *r == self.0,
    {
        &self.0
    }
}

} // verus!
