//! Classification of pods and their translation into workspace nodes.

use vstd::prelude::*;

use crate::pairs::{distinct_keys, lookup, opt_view, pairs_view};
use crate::prost::timestamp::Timestamp;
use crate::proto::cluster::{NodePhase, NodeStatus, WorkspaceNode};

verus! {

/// The label that names a node's cluster.
pub open spec fn cluster_label() -> Seq<char> {
    "rappel_cluster_id"@
}

/// The label that names a node's userspace.
pub open spec fn userspace_label() -> Seq<char> {
    "rappel_userspace"@
}

/// The pairs that are neither the cluster label nor the userspace label.
pub open spec fn is_plain_label(p: (Seq<char>, Seq<char>)) -> bool {
    p.0 != cluster_label() && p.0 != userspace_label()
}

/// The plain labels, in their order.
pub open spec fn plain_labels(s: Seq<(Seq<char>, Seq<char>)>) -> Seq<(Seq<char>, Seq<char>)> {
    s.filter(|p: (Seq<char>, Seq<char>)| is_plain_label(p))
}

/// The largest of a non-empty sequence of exit codes.
pub open spec fn max_exit_code(s: Seq<i32>) -> i32
    decreases s.len(),
{
    if s.len() <= 1 {
        s[0]
    } else {
        let m = max_exit_code(s.drop_last());
        if s.last() > m {
            s.last()
        } else {
            m
        }
    }
}

/// The status part of a pod, as far as a workspace node reads it.
#[derive(Debug)]
pub struct PodStatusInfo {
    pub phase: Option<String>,
    pub start_time: Option<Timestamp>,
    pub message: Option<String>,
    pub reason: Option<String>,
    /// For each container status, the exit code of its terminated state, when the status has
    /// a state and that state a terminated part.
    pub container_exit_codes: Option<Vec<Option<i32>>>,
}

/// A pod, as far as a workspace node reads it.
#[derive(Debug)]
pub struct PodInfo {
    pub name: String,
    pub namespace: Option<String>,
    pub labels: Vec<(String, String)>,
    pub annotations: Vec<(String, String)>,
    /// The service account of the pod's spec, when the pod has a spec that names one.
    pub service_account_name: Option<String>,
    pub status: Option<PodStatusInfo>,
}

impl PodInfo {
    /// The pod reports the phase `p`.
    pub open spec fn phase_is(&self, p: Seq<char>) -> bool {
        &&& self.status is Some
        &&& self.status->0.phase is Some
        &&& self.status->0.phase->0@ == p
    }

    /// The pod reports no phase at all.
    pub open spec fn phase_missing(&self) -> bool {
        self.status is None || self.status->0.phase is None
    }

    /// The node phase that a pod's phase maps to.
    pub open spec fn node_phase(&self) -> NodePhase {
        if self.phase_is("Running"@) {
            NodePhase::Running
        } else if self.phase_is("Pending"@) {
            NodePhase::Pending
        } else if self.phase_is("Succeeded"@) || self.phase_is("Failed"@) {
            NodePhase::Terminated
        } else {
            NodePhase::Unknown
        }
    }

    /// The exit codes of the containers are read: the pod has terminated and lists container
    /// statuses.
    pub open spec fn reads_exit_codes(&self) -> bool {
        &&& self.phase_is("Succeeded"@) || self.phase_is("Failed"@)
        &&& self.status->0.container_exit_codes is Some
    }

    /// The pod has what a workspace node needs: a namespace, both node labels, and, when the
    /// exit codes are read, at least one container and a terminated state for each.
    pub open spec fn translatable(&self) -> bool {
        &&& distinct_keys(pairs_view(self.labels@))
        &&& lookup(pairs_view(self.labels@), cluster_label()) is Some
        &&& lookup(pairs_view(self.labels@), userspace_label()) is Some
        &&& self.namespace is Some
        &&& self.reads_exit_codes() ==> {
            let codes = self.status->0.container_exit_codes->0@;
            &&& codes.len() > 0
            &&& forall|i: int| 0 <= i < codes.len() ==> (#[trigger] codes[i]) is Some
        }
    }

    /// The exit code a terminated pod reports: the largest of its containers' exit codes.
    pub open spec fn exit_code(&self) -> i32 {
        if self.reads_exit_codes() {
            max_exit_code(self.status->0.container_exit_codes->0@.map_values(|c: Option<i32>| c->0))
        } else {
            0
        }
    }
}

/// Reading a pod's phase, and translating the pod into a workspace node.
pub trait PodExt {
    /// The pod holds what a workspace node needs.
    spec fn has_node_fields(&self) -> bool;

    fn into_workspace_node(&self) -> WorkspaceNode
        requires
            self.has_node_fields(),
    ;

    fn is_running(&self) -> bool;

    fn is_pending(&self) -> bool;

    fn is_succeeded(&self) -> bool;

    fn is_failed(&self) -> bool;

    fn is_unknown(&self) -> bool;
}

/// Whether the optional phase of an optional status equals `expected`.
fn phase_equals(status: &Option<PodStatusInfo>, expected: &str) -> (r: bool)
    ensures
        r == (status is Some && status->0.phase is Some && status->0.phase->0@ == expected@),
{
    match status {
        Some(st) => match &st.phase {
            Some(phase) => {
                let expected = String::from_str(expected);
                *phase == expected
            },
            None => false,
        },
        None => false,
    }
}

/// Copies a list of string pairs.
fn clone_pairs(v: &Vec<(String, String)>) -> (r: Vec<(String, String)>)
    ensures
        r@ == v@,
{
    let mut r: Vec<(String, String)> = Vec::new();
    let mut i: usize = 0;
    while i < v.len()
        invariant
            i <= v.len(),
            r@ == v@.take(i as int),
        decreases v.len() - i,
    {
        let p = (v[i].0.clone(), v[i].1.clone());
        r.push(p);
        i = i + 1;
        assert(r@ =~= v@.take(i as int));
    }
    assert(v@.take(v.len() as int) =~= v@);
    r
}

/// Splits the labels into the plain labels and the values of the cluster and userspace labels.
fn split_labels(labels: &Vec<(String, String)>) -> (r: (Vec<(String, String)>, Option<String>, Option<String>))
    ensures
        pairs_view(r.0@) == plain_labels(pairs_view(labels@)),
        opt_view(r.1) == lookup(pairs_view(labels@), cluster_label()),
        opt_view(r.2) == lookup(pairs_view(labels@), userspace_label()),
{
    let cluster_key = String::from_str("rappel_cluster_id");
    let userspace_key = String::from_str("rappel_userspace");
    let mut plain: Vec<(String, String)> = Vec::new();
    let mut cluster: Option<String> = None;
    let mut userspace: Option<String> = None;
    let ghost all = pairs_view(labels@);
    proof {
        reveal_strlit("rappel_cluster_id");
        reveal_strlit("rappel_userspace");
        assert(cluster_label().len() != userspace_label().len());
    }
    let mut i: usize = 0;
    while i < labels.len()
        invariant
            i <= labels.len(),
            all == pairs_view(labels@),
            cluster_key@ == cluster_label(),
            userspace_key@ == userspace_label(),
            cluster_label() != userspace_label(),
            pairs_view(plain@) == plain_labels(all.take(i as int)),
            opt_view(cluster) == lookup(all.take(i as int), cluster_label()),
            opt_view(userspace) == lookup(all.take(i as int), userspace_label()),
        decreases labels.len() - i,
    {
        let key = &labels[i].0;
        let value = &labels[i].1;
        proof {
            reveal_with_fuel(Seq::filter, 1);
            assert(all.take(i + 1).drop_last() =~= all.take(i as int));
            assert(all.take(i + 1).last() == (key@, value@));
        }
        if *key == cluster_key {
            cluster = Some(value.clone());
        } else if *key == userspace_key {
            userspace = Some(value.clone());
        } else {
            let ghost before = plain@;
            plain.push((key.clone(), value.clone()));
            proof {
                assert(pairs_view(plain@) =~= pairs_view(before).push((key@, value@)));
            }
        }
        i = i + 1;
    }
    assert(all.take(labels.len() as int) =~= all);
    (plain, cluster, userspace)
}

/// The largest exit code of a non-empty list in which every container terminated.
fn max_of_exit_codes(codes: &Vec<Option<i32>>) -> (r: i32)
    requires
        codes@.len() > 0,
        forall|i: int| 0 <= i < codes@.len() ==> (#[trigger] codes@[i]) is Some,
    ensures
        r == max_exit_code(codes@.map_values(|c: Option<i32>| c->0)),
{
    let ghost all = codes@.map_values(|c: Option<i32>| c->0);
    let mut m: i32 = match codes[0] {
        Some(c) => c,
        None => 0,
    };
    assert(all.take(1).drop_last() =~= Seq::<i32>::empty());
    assert(max_exit_code(all.take(1)) == all[0]);
    let mut i: usize = 1;
    while i < codes.len()
        invariant
            1 <= i <= codes.len(),
            all == codes@.map_values(|c: Option<i32>| c->0),
            forall|k: int| 0 <= k < codes@.len() ==> (#[trigger] codes@[k]) is Some,
            m == max_exit_code(all.take(i as int)),
        decreases codes.len() - i,
    {
        let c = match codes[i] {
            Some(c) => c,
            None => 0,
        };
        proof {
            assert(all.take(i + 1).drop_last() =~= all.take(i as int));
            assert(all.take(i + 1).last() == c);
        }
        if c > m {
            m = c;
        }
        i = i + 1;
    }
    assert(all.take(codes.len() as int) =~= all);
    m
}

impl PodExt for PodInfo {
    open spec fn has_node_fields(&self) -> bool {
        self.translatable()
    }

    /// Translates the pod into a workspace node: the node carries the pod's name, namespace,
    /// cluster and userspace labels, its other labels, its annotations, its service account,
    /// and a status whose phase, start time, message, reason and exit code come from the pod.
    fn into_workspace_node(&self) -> (node: WorkspaceNode)
        ensures
            node.node_id@ == self.name@,
            node.namespace@ == self.namespace->0@,
            Some(node.cluster_id@) == lookup(pairs_view(self.labels@), cluster_label()),
            Some(node.userspace@) == lookup(pairs_view(self.labels@), userspace_label()),
            pairs_view(node.labels@) == plain_labels(pairs_view(self.labels@)),
            node.annotations@ == self.annotations@,
            node.service_account_name@ == match self.service_account_name {
                Some(sa) => sa@,
                None => Seq::<char>::empty(),
            },
            node.status is Some,
            node.status->0.phase == self.node_phase(),
            node.status->0.started_at == match self.status {
                Some(st) => st.start_time,
                None => None,
            },
            node.status->0.phase_message@ == match self.status {
                Some(st) => match st.message {
                    Some(m) => m@,
                    None => Seq::<char>::empty(),
                },
                None => Seq::<char>::empty(),
            },
            node.status->0.phase_reason@ == match self.status {
                Some(st) => match st.reason {
                    Some(m) => m@,
                    None => Seq::<char>::empty(),
                },
                None => Seq::<char>::empty(),
            },
            node.status->0.exit_code == self.exit_code(),
    {
        let (labels, cluster, userspace) = split_labels(&self.labels);
        let mut node = WorkspaceNode::default();
        node.node_id = self.name.clone();
        node.cluster_id = match cluster {
            Some(c) => c,
            None => String::new(),
        };
        node.userspace = match userspace {
            Some(u) => u,
            None => String::new(),
        };
        node.namespace = match &self.namespace {
            Some(ns) => ns.clone(),
            None => String::new(),
        };
        node.labels = labels;
        node.annotations = clone_pairs(&self.annotations);
        if let Some(sa) = &self.service_account_name {
            node.service_account_name = sa.clone();
        }
        let mut node_status = NodeStatus::default();
        node_status.phase = if self.is_running() {
            NodePhase::Running
        } else if self.is_pending() {
            NodePhase::Pending
        } else if self.is_succeeded() || self.is_failed() {
            NodePhase::Terminated
        } else {
            NodePhase::Unknown
        };
        let terminated = self.is_failed() || self.is_succeeded();
        if let Some(status) = &self.status {
            if let Some(ts) = &status.start_time {
                node_status.started_at = Some(*ts);
            }
            if let Some(message) = &status.message {
                node_status.phase_message = message.clone();
            }
            if let Some(reason) = &status.reason {
                node_status.phase_reason = reason.clone();
            }
            if terminated {
                if let Some(s) = &status.container_exit_codes {
                    node_status.exit_code = max_of_exit_codes(s);
                }
            }
        }
        node.status = Some(node_status);
        node
    }

    fn is_running(&self) -> (r: bool)
        ensures
            r == self.phase_is("Running"@),
    {
        phase_equals(&self.status, "Running")
    }

    fn is_pending(&self) -> (r: bool)
        ensures
            r == self.phase_is("Pending"@),
    {
        phase_equals(&self.status, "Pending")
    }

    fn is_succeeded(&self) -> (r: bool)
        ensures
            r == self.phase_is("Succeeded"@),
    {
        phase_equals(&self.status, "Succeeded")
    }

    fn is_failed(&self) -> (r: bool)
        ensures
            r == self.phase_is("Failed"@),
    {
        phase_equals(&self.status, "Failed")
    }

    /// A pod without a reported phase counts as unknown.
    fn is_unknown(&self) -> (r: bool)
        ensures
            r == (self.phase_missing() || self.phase_is("Unknown"@)),
    {
        match &self.status {
            Some(st) => match &st.phase {
                Some(_) => phase_equals(&self.status, "Unknown"),
                None => true,
            },
            None => true,
        }
    }
}

} // verus!
