//! Cluster node messages.

use vstd::prelude::*;

use crate::prost::timestamp::Timestamp;

verus! {

/// The life-cycle phase of a workspace node.
#[derive(Clone, Copy, Debug, PartialEq, Eq, Structural)]
pub enum NodePhase {
    Unknown,
    Pending,
    Running,
    Terminated,
}

/// The observed status of a workspace node.
#[derive(Debug)]
pub struct NodeStatus {
    pub phase: NodePhase,
    pub started_at: Option<Timestamp>,
    pub phase_message: String,
    pub phase_reason: String,
    pub exit_code: i32,
}

/// A workspace node, the cluster's view of a pod that runs a workspace.
#[derive(Debug)]
pub struct WorkspaceNode {
    pub node_id: String,
    pub cluster_id: String,
    pub userspace: String,
    pub namespace: String,
    pub labels: Vec<(String, String)>,
    pub annotations: Vec<(String, String)>,
    pub service_account_name: String,
    pub status: Option<NodeStatus>,
}

impl Default for NodeStatus {
    fn default() -> (r: Self)
        ensures
            r.phase == NodePhase::Unknown,
            r.started_at is None,
            r.phase_message@ == Seq::<char>::empty(),
            r.phase_reason@ == Seq::<char>::empty(),
            r.exit_code == 0,
    {
        NodeStatus {
            phase: NodePhase::Unknown,
            started_at: None,
            phase_message: String::new(),
            phase_reason: String::new(),
            exit_code: 0,
        }
    }
}

impl Default for WorkspaceNode {
    fn default() -> (r: Self)
        ensures
            r.node_id@ == Seq::<char>::empty(),
            r.cluster_id@ == Seq::<char>::empty(),
            r.userspace@ == Seq::<char>::empty(),
            r.namespace@ == Seq::<char>::empty(),
            r.labels@.len() == 0,
            r.annotations@.len() == 0,
            r.service_account_name@ == Seq::<char>::empty(),
            r.status is None,
    {
        WorkspaceNode {
            node_id: String::new(),
            cluster_id: String::new(),
            userspace: String::new(),
            namespace: String::new(),
            labels: Vec::new(),
            annotations: Vec::new(),
            service_account_name: String::new(),
            status: None,
        }
    }
}

} // verus!
