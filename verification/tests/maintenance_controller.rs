use xedio::maintenance_api::{MaintenanceBlockedReason, MaintenancePhase};
use xedio::maintenance_controller::{
    lookup_label, maintenance_pods, node_lookup_result, pod_to_maintenance_pod, MaintenancePod,
    NodeFetch, NodeRef, PodFacts, ReconcileAction, ReconcileEvent, RequestContext,
    RequestReconciler, ROLE_LABEL, SET_LABEL,
};
use xedio::maintenance_api::{MaintenanceDesiredState, MaintenanceOperation};
use xedio::maintenance_status::{
    AffectedKubericSetStatus, AffectedReplicaStatus, NodeMaintenanceRequestSpec,
    NodeMaintenanceRequestStatus,
};

const NOW: &str = "2026-09-06T20:00:00Z";

fn spec() -> NodeMaintenanceRequestSpec {
    NodeMaintenanceRequestSpec {
        node_name: "worker-04".to_string(),
        operation: MaintenanceOperation::Reboot,
        desired_state: MaintenanceDesiredState::Prepare,
        provider: Some("Manual".to_string()),
        provider_event_id: Some("event-123".to_string()),
        not_before: None,
        deadline: None,
    }
}

fn node() -> NodeRef {
    NodeRef { name: "worker-04".to_string(), uid: "node-uid-a".to_string() }
}

fn pod(name: &str, node_name: Option<&str>, primary: bool) -> MaintenancePod {
    MaintenancePod {
        namespace: "default".to_string(),
        name: name.to_string(),
        uid: format!("uid-{name}"),
        node_name: node_name.map(str::to_string),
        set_name: "kv".to_string(),
        is_primary: primary,
    }
}

/// A status as discovery would report it for one affected set.
fn discovered(hosts_primary: bool) -> NodeMaintenanceRequestStatus {
    let mut status = NodeMaintenanceRequestStatus::default();
    status.phase = MaintenancePhase::Preparing;
    status.node_uid = Some("node-uid-a".to_string());
    status.observed_generation = Some(1);
    status.affected_sets = vec![AffectedKubericSetStatus {
        namespace: "default".to_string(),
        name: "kv".to_string(),
        replicas: vec![AffectedReplicaStatus {
            pod_name: "kv-0".to_string(),
            pod_uid: "uid-kv-0".to_string(),
            is_primary: hosts_primary,
        }],
        hosts_primary,
        primary_moved: false,
        quorum_without_node: true,
    }];
    status
}

/// Drives one reconcile run against scripted cluster answers; discovery is
/// answered by `discover`. Returns the actions in order.
fn drive(
    previous: &NodeMaintenanceRequestStatus,
    node: Result<Option<NodeRef>, String>,
    pods: Result<Vec<MaintenancePod>, String>,
    discover: &dyn Fn(Option<&NodeRef>, &[MaintenancePod]) -> NodeMaintenanceRequestStatus,
    patch: Result<(), String>,
) -> Vec<ReconcileAction> {
    let spec = spec();
    let ctx = RequestContext {
        name: "req-1",
        spec: &spec,
        generation: Some(1),
        previous,
        now: NOW,
        not_before_reached: true,
        deadline_exceeded: false,
    };
    let (mut run, mut action) = RequestReconciler::start(&ctx);
    let mut actions = Vec::new();
    let mut node = Some(node);
    let mut pods = Some(pods);
    let mut patch = Some(patch);
    loop {
        let event = match &action {
            ReconcileAction::FetchNode { node_name } => {
                assert_eq!(node_name, "worker-04");
                ReconcileEvent::NodeFetched { node: node.take().unwrap() }
            }
            ReconcileAction::ListPods => ReconcileEvent::PodsListed { pods: pods.take().unwrap() },
            ReconcileAction::Discover { node, pods } => ReconcileEvent::Discovered {
                status: discover(node.as_ref(), pods),
            },
            ReconcileAction::PatchStatus { name, .. } => {
                assert_eq!(name, "req-1");
                ReconcileEvent::StatusPatched { written: patch.take().unwrap() }
            }
            ReconcileAction::Finish { .. } => {
                actions.push(action);
                return actions;
            }
        };
        actions.push(action);
        let (next_run, next_action) = run.step(event);
        run = next_run;
        action = next_action;
    }
}

fn outcome(actions: &[ReconcileAction]) -> &Result<xedio::maintenance_controller::ReconcileOutcome, String> {
    match actions.last().unwrap() {
        ReconcileAction::Finish { result } => result,
        _ => panic!("run did not finish"),
    }
}

fn patched(actions: &[ReconcileAction]) -> Vec<&NodeMaintenanceRequestStatus> {
    actions
        .iter()
        .filter_map(|a| match a {
            ReconcileAction::PatchStatus { status, .. } => Some(status),
            _ => None,
        })
        .collect()
}

fn listed(actions: &[ReconcileAction]) -> usize {
    actions.iter().filter(|a| matches!(a, ReconcileAction::ListPods)).count()
}

#[test]
fn discovery_is_persisted_through_the_status_subresource() {
    let actions = drive(
        &NodeMaintenanceRequestStatus::default(),
        Ok(Some(node())),
        Ok(vec![pod("kv-0", Some("worker-04"), true)]),
        &|node, pods| {
            assert_eq!(node.unwrap().uid, "node-uid-a");
            assert_eq!(pods.len(), 1);
            discovered(pods[0].is_primary)
        },
        Ok(()),
    );
    let result = outcome(&actions).as_ref().unwrap();
    assert!(result.persisted);
    assert_eq!(result.status.phase, MaintenancePhase::Preparing);
    assert_eq!(result.status.node_uid.as_deref(), Some("node-uid-a"));
    let patches = patched(&actions);
    assert_eq!(patches.len(), 1);
    assert_eq!(patches[0].affected_sets.len(), 1);
    assert!(patches[0].affected_sets[0].hosts_primary);
}

#[test]
fn unchanged_status_is_not_rewritten() {
    let first = drive(
        &NodeMaintenanceRequestStatus::default(),
        Ok(Some(node())),
        Ok(vec![pod("kv-0", Some("worker-04"), false)]),
        &|_, pods| discovered(pods[0].is_primary),
        Ok(()),
    );
    let first_result = outcome(&first).as_ref().unwrap();
    assert!(first_result.persisted);

    let second = drive(
        &first_result.status,
        Ok(Some(node())),
        Ok(vec![pod("kv-0", Some("worker-04"), false)]),
        &|_, pods| discovered(pods[0].is_primary),
        Err("must not be called".to_string()),
    );
    let second_result = outcome(&second).as_ref().unwrap();
    assert!(!second_result.persisted);
    assert!(second_result.status.same_as(&first_result.status));
    assert_eq!(patched(&first).len() + patched(&second).len(), 1);
}

#[test]
fn missing_node_blocks_without_listing_pods() {
    let actions = drive(
        &NodeMaintenanceRequestStatus::default(),
        Ok(None),
        Ok(vec![pod("kv-0", Some("worker-04"), true)]),
        &|node, pods| {
            assert!(node.is_none());
            assert!(pods.is_empty());
            let mut status = NodeMaintenanceRequestStatus::default();
            status.phase = MaintenancePhase::Blocked;
            status.blocked_reason = Some(MaintenanceBlockedReason::NodeNotFound);
            status
        },
        Ok(()),
    );
    let result = outcome(&actions).as_ref().unwrap();
    assert_eq!(result.status.phase, MaintenancePhase::Blocked);
    assert_eq!(result.status.blocked_reason, Some(MaintenanceBlockedReason::NodeNotFound));
    assert_eq!(listed(&actions), 0);
}

#[test]
fn status_patch_failure_is_reported() {
    let actions = drive(
        &NodeMaintenanceRequestStatus::default(),
        Ok(Some(node())),
        Ok(vec![pod("kv-0", Some("worker-04"), false)]),
        &|_, pods| discovered(pods[0].is_primary),
        Err("status patch rejected".to_string()),
    );
    assert_eq!(outcome(&actions).as_ref().err().map(String::as_str), Some("status patch rejected"));
}

#[test]
fn node_lookup_failure_ends_the_run() {
    let actions = drive(
        &NodeMaintenanceRequestStatus::default(),
        Err("connection refused".to_string()),
        Ok(vec![]),
        &|_, _| panic!("no discovery after a failed lookup"),
        Ok(()),
    );
    assert_eq!(actions.len(), 2);
    assert_eq!(outcome(&actions).as_ref().err().map(String::as_str), Some("connection refused"));
}

#[test]
fn pod_listing_failure_ends_the_run() {
    let actions = drive(
        &NodeMaintenanceRequestStatus::default(),
        Ok(Some(node())),
        Err("forbidden".to_string()),
        &|_, _| panic!("no discovery after a failed listing"),
        Ok(()),
    );
    assert_eq!(listed(&actions), 1);
    assert_eq!(outcome(&actions).as_ref().err().map(String::as_str), Some("forbidden"));
}

fn facts(name: &str, labels: Option<Vec<(&str, &str)>>, node_name: Option<&str>) -> PodFacts {
    PodFacts {
        namespace: Some("default".to_string()),
        name: Some(name.to_string()),
        uid: Some(format!("uid-{name}")),
        labels: labels.map(|l| l.into_iter().map(|(k, v)| (k.to_string(), v.to_string())).collect()),
        node_name: node_name.map(str::to_string),
    }
}

#[test]
fn pod_conversion_requires_the_set_label() {
    let pod = facts("kv-0", None, None);
    assert!(pod_to_maintenance_pod(&pod).is_none());

    let pod = facts("kv-0", Some(vec![(SET_LABEL, "kv")]), None);
    let converted = pod_to_maintenance_pod(&pod).expect("converted");
    assert_eq!(converted.set_name, "kv");
    assert!(!converted.is_primary);
    assert_eq!(converted.node_name, None);
}

#[test]
fn pod_conversion_reads_node_and_primary_role() {
    let pod = facts(
        "kv-1",
        Some(vec![(SET_LABEL, "kv"), (ROLE_LABEL, "primary")]),
        Some("worker-04"),
    );
    let converted = pod_to_maintenance_pod(&pod).expect("converted");
    assert_eq!(converted.node_name.as_deref(), Some("worker-04"));
    assert!(converted.is_primary);
    assert_eq!(converted.namespace, "default");
    assert_eq!(converted.uid, "uid-kv-1");
}

#[test]
fn pod_conversion_needs_identity_and_exact_role() {
    let mut pod = facts("kv-2", Some(vec![("other", "x"), (SET_LABEL, "kv")]), None);
    pod.uid = None;
    assert!(pod_to_maintenance_pod(&pod).is_none());

    let pod = facts("kv-3", Some(vec![(SET_LABEL, "kv"), (ROLE_LABEL, "secondary")]), None);
    assert!(!pod_to_maintenance_pod(&pod).unwrap().is_primary);

    let pod = facts("kv-4", Some(vec![(ROLE_LABEL, "primary")]), None);
    assert!(pod_to_maintenance_pod(&pod).is_none());
}

#[test]
fn maintenance_pods_keep_members_in_order() {
    let pods = vec![
        facts("kv-0", Some(vec![(SET_LABEL, "kv")]), Some("worker-01")),
        facts("web-0", Some(vec![("app", "web")]), Some("worker-01")),
        facts("kv-1", Some(vec![(SET_LABEL, "kv"), (ROLE_LABEL, "primary")]), Some("worker-02")),
    ];
    let members = maintenance_pods(&pods);
    assert_eq!(members.len(), 2);
    assert_eq!(members[0].name, "kv-0");
    assert_eq!(members[1].name, "kv-1");
    assert!(members[1].is_primary);
}

#[test]
fn label_lookup_finds_the_value() {
    let labels = vec![
        ("a".to_string(), "1".to_string()),
        ("b".to_string(), "2".to_string()),
    ];
    assert_eq!(lookup_label(&labels, &"b".to_string()).as_deref(), Some("2"));
    assert_eq!(lookup_label(&labels, &"c".to_string()), None);
}

#[test]
fn node_lookup_outcomes() {
    match node_lookup_result("worker-04", NodeFetch::Found { uid: Some("u-1".to_string()) }) {
        Ok(Some(n)) => {
            assert_eq!(n.name, "worker-04");
            assert_eq!(n.uid, "u-1");
        }
        _ => panic!("expected the node"),
    }
    assert_eq!(
        node_lookup_result("worker-04", NodeFetch::Found { uid: None }).err().as_deref(),
        Some("node worker-04 has no uid")
    );
    assert!(matches!(
        node_lookup_result("worker-04", NodeFetch::ApiError { code: 404, message: "not found".to_string() }),
        Ok(None)
    ));
    assert_eq!(
        node_lookup_result("worker-04", NodeFetch::ApiError { code: 500, message: "boom".to_string() })
            .err()
            .as_deref(),
        Some("boom")
    );
    assert_eq!(
        node_lookup_result("worker-04", NodeFetch::Failed { message: "tls".to_string() }).err().as_deref(),
        Some("tls")
    );
}
