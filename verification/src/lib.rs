//! Building blocks shared by the services: identifier generators and related laws.

pub mod codec;

pub mod grpc;

pub mod id;

pub mod prost;

pub mod proto;

pub mod service;

pub mod kube;

pub mod text;

pub mod longrunning;

pub mod pairs;
