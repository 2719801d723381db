//! Reading Kubernetes pods as workspace nodes.

pub mod prelude;
