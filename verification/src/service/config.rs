//! Where the instances of a service run.

use vstd::prelude::*;

verus! {

/// One instance of a service: its address and the key ranges it serves.
#[derive(Clone, Debug)]
pub struct ServiceInstance {
    pub address: String,
    pub shard_ranges: Vec<(String, String)>,
}

/// A service: its name and its instances.
#[derive(Clone, Debug)]
pub struct ServiceConf {
    pub name: String,
    pub instances: Vec<ServiceInstance>,
}

/// The services a process talks to.
#[derive(Clone, Debug)]
pub struct Config {
    pub cluster: ServiceConf,
    pub version: i64,
}

} // verus!
