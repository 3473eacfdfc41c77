use xedio::maintenance_api::MaintenancePhase;
use xedio::maintenance_requests::{
    deadline_exceeded, deadline_passed, not_before_reached, previous_status, read_instant,
    request_disposition, requeue_seconds, window_opened, RequestDisposition,
};
use xedio::maintenance_status::{AffectedReplicaStatus, NodeMaintenanceRequestStatus, StatusCondition};

const AT_20: i128 = 1_788_724_800_000_000_000;
const AT_21: i128 = 1_788_728_400_000_000_000;

#[test]
fn timestamps_are_read_as_nanoseconds() {
    assert_eq!(read_instant(&Some("2026-09-06T20:00:00Z".to_string())), Some(AT_20));
    assert_eq!(read_instant(&Some("2026-09-06T21:00:00Z".to_string())), Some(AT_21));
    assert_eq!(read_instant(&Some("not a time".to_string())), None);
    assert_eq!(read_instant(&None), None);
}

#[test]
fn not_before_opens_the_window() {
    let at = Some("2026-09-06T20:00:00Z".to_string());
    assert!(!not_before_reached(AT_20 - 1, &at));
    assert!(not_before_reached(AT_20, &at));
    assert!(not_before_reached(AT_20 + 1, &at));
    assert!(not_before_reached(0, &None));
    assert!(not_before_reached(0, &Some("garbage".to_string())));
}

#[test]
fn deadline_passes_strictly_after() {
    let deadline = Some("2026-09-06T21:00:00Z".to_string());
    assert!(!deadline_exceeded(AT_21, &deadline));
    assert!(deadline_exceeded(AT_21 + 1, &deadline));
    assert!(!deadline_exceeded(i128::MAX, &None));
    assert!(!deadline_exceeded(i128::MAX, &Some("garbage".to_string())));
}

#[test]
fn window_rules_on_instants() {
    assert!(window_opened(5, None));
    assert!(window_opened(5, Some(5)));
    assert!(!window_opened(4, Some(5)));
    assert!(!deadline_passed(5, None));
    assert!(!deadline_passed(5, Some(5)));
    assert!(deadline_passed(6, Some(5)));
}

#[test]
fn dispositions() {
    assert!(matches!(request_disposition(true, Some("r".to_string())), RequestDisposition::AwaitChange));
    assert!(matches!(request_disposition(true, None), RequestDisposition::AwaitChange));
    match request_disposition(false, Some("req-1".to_string())) {
        RequestDisposition::Reconcile { name } => assert_eq!(name, "req-1"),
        _ => panic!("expected reconcile"),
    }
    match request_disposition(false, None) {
        RequestDisposition::Reject { message } => assert_eq!(message, "request has no name"),
        _ => panic!("expected rejection"),
    }
}

#[test]
fn previous_status_defaults_to_fresh() {
    let fresh = previous_status(None);
    assert_eq!(fresh.phase, MaintenancePhase::Requested);
    assert!(fresh.affected_sets.is_empty());
    assert!(fresh.conditions.is_empty());
    assert!(fresh.node_uid.is_none());
    let mut recorded = NodeMaintenanceRequestStatus::default();
    recorded.phase = MaintenancePhase::Blocked;
    let kept = previous_status(Some(recorded));
    assert_eq!(kept.phase, MaintenancePhase::Blocked);
}

#[test]
fn requeue_delays() {
    assert_eq!(requeue_seconds(true), 30);
    assert_eq!(requeue_seconds(false), 10);
}

#[test]
fn status_comparison_and_copy() {
    let mut a = NodeMaintenanceRequestStatus::default();
    a.message = Some("m".to_string());
    a.conditions = vec![StatusCondition {
        condition_type: "KubericPrepared".to_string(),
        status: "True".to_string(),
        reason: None,
        message: None,
        last_transition_time: Some("2026-09-06T20:00:00Z".to_string()),
        observed_generation: Some(3),
    }];
    let b = a.clone_status();
    assert!(a.same_as(&b));
    let mut c = a.clone_status();
    c.conditions[0].observed_generation = Some(4);
    assert!(!a.same_as(&c));
    let mut d = a.clone_status();
    d.message = None;
    assert!(!a.same_as(&d));
    let r1 = AffectedReplicaStatus { pod_name: "p".to_string(), pod_uid: "u".to_string(), is_primary: true };
    let r2 = r1.clone_replica();
    assert!(r1.same_as(&r2));
    assert_eq!(xedio::maintenance_api::PREPARED_CONDITION_TYPE, "KubericPrepared");
}
