//! Message types exchanged by the services.

pub mod cluster;
pub mod longrunning;
pub mod workspace;
