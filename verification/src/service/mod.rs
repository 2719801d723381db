//! Service plumbing: sharded clients, configuration, request contexts and errors. The service
//! locator, which is built on the gRPC clients generated from `.proto` files, is not here.

pub mod client;
pub mod config;
pub mod context;
pub mod error;
pub mod service;

pub use client::ShardedClient;
pub use error::ServiceError;
