use rappel::kube::prelude::{PodExt, PodInfo, PodStatusInfo};
use rappel::prost::timestamp::{ProstTimestamp, Timestamp};
use rappel::proto::cluster::NodePhase;

fn s(x: &str) -> String {
  x.to_string()
}

fn pod(phase: Option<&str>, codes: Option<Vec<Option<i32>>>) -> PodInfo {
  PodInfo {
    name: s("pod-1"),
    namespace: Some(s("ns")),
    labels: vec![
      (s("app"), s("ide")),
      (s("rappel_cluster_id"), s("cluster-9")),
      (s("tier"), s("gold")),
      (s("rappel_userspace"), s("user-3")),
    ],
    annotations: vec![(s("note"), s("x"))],
    service_account_name: Some(s("runner")),
    status: Some(PodStatusInfo {
      phase: phase.map(s),
      start_time: Some(Timestamp { seconds: 100, nanos: 5 }),
      message: Some(s("all good")),
      reason: None,
      container_exit_codes: codes,
    }),
  }
}

#[test]
fn running_pod_becomes_running_node() {
  let p = pod(Some("Running"), None);
  assert!(p.is_running());
  assert!(!p.is_pending());
  assert!(!p.is_unknown());
  let node = p.into_workspace_node();
  assert_eq!(node.node_id, "pod-1");
  assert_eq!(node.namespace, "ns");
  assert_eq!(node.cluster_id, "cluster-9");
  assert_eq!(node.userspace, "user-3");
  assert_eq!(node.labels, vec![(s("app"), s("ide")), (s("tier"), s("gold"))]);
  assert_eq!(node.annotations, vec![(s("note"), s("x"))]);
  assert_eq!(node.service_account_name, "runner");
  let status = node.status.expect("status");
  assert_eq!(status.phase, NodePhase::Running);
  assert_eq!(status.started_at, Some(Timestamp { seconds: 100, nanos: 5 }));
  assert_eq!(status.phase_message, "all good");
  assert_eq!(status.phase_reason, "");
  assert_eq!(status.exit_code, 0);
}

#[test]
fn failed_pod_reports_largest_exit_code() {
  let p = pod(Some("Failed"), Some(vec![Some(3), Some(17), Some(-2)]));
  assert!(p.is_failed());
  let status = p.into_workspace_node().status.expect("status");
  assert_eq!(status.phase, NodePhase::Terminated);
  assert_eq!(status.exit_code, 17);
}

#[test]
fn succeeded_pod_is_terminated() {
  let p = pod(Some("Succeeded"), Some(vec![Some(0)]));
  assert!(p.is_succeeded());
  let status = p.into_workspace_node().status.expect("status");
  assert_eq!(status.phase, NodePhase::Terminated);
  assert_eq!(status.exit_code, 0);
}

#[test]
fn pending_pod_ignores_exit_codes() {
  let p = pod(Some("Pending"), Some(vec![Some(9)]));
  let status = p.into_workspace_node().status.expect("status");
  assert_eq!(status.phase, NodePhase::Pending);
  assert_eq!(status.exit_code, 0);
}

#[test]
fn pod_without_phase_is_unknown() {
  let p = pod(None, None);
  assert!(p.is_unknown());
  assert!(!p.is_running());
  let status = p.into_workspace_node().status.expect("status");
  assert_eq!(status.phase, NodePhase::Unknown);
  let mut q = pod(Some("Unknown"), None);
  assert!(q.is_unknown());
  q.status = None;
  assert!(q.is_unknown());
  let status = q.into_workspace_node().status.expect("status");
  assert_eq!(status.phase, NodePhase::Unknown);
  assert_eq!(status.started_at, None);
  assert_eq!(status.phase_message, "");
}

#[test]
fn pod_without_service_account_gets_empty_name() {
  let mut p = pod(Some("Running"), None);
  p.service_account_name = None;
  assert_eq!(p.into_workspace_node().service_account_name, "");
}

#[test]
fn prost_timestamp_from_parts() {
  let t = ProstTimestamp::from_parts(1_700_000_000, 123_456_789).into_inner();
  assert_eq!(t, Timestamp { seconds: 1_700_000_000, nanos: 123_456_789 });
  let leap = ProstTimestamp::from_parts(5, 1_500_000_000).into_inner();
  assert_eq!(leap.nanos, 1_500_000_000);
}
