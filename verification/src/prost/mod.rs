//! Helpers around protobuf well-known types.

pub mod timestamp;
