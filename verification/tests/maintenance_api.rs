use xedio::maintenance_api::{
    MaintenanceDesiredState, MaintenanceOperation, MaintenancePhase,
};
use xedio::maintenance_status::NodeMaintenanceRequestStatus;

fn all_phases() -> [MaintenancePhase; 8] {
    [
        MaintenancePhase::Requested,
        MaintenancePhase::Preparing,
        MaintenancePhase::Prepared,
        MaintenancePhase::Blocked,
        MaintenancePhase::Failed,
        MaintenancePhase::Expired,
        MaintenancePhase::Releasing,
        MaintenancePhase::Released,
    ]
}

#[test]
fn defaults_are_requested_and_prepare() {
    assert_eq!(MaintenancePhase::default(), MaintenancePhase::Requested);
    assert_eq!(
        MaintenanceDesiredState::default(),
        MaintenanceDesiredState::Prepare
    );
    assert_eq!(
        NodeMaintenanceRequestStatus::default().phase,
        MaintenancePhase::Requested
    );
}

#[test]
fn preparation_path_transitions_are_allowed() {
    assert!(MaintenancePhase::Requested.can_transition_to(MaintenancePhase::Preparing));
    assert!(MaintenancePhase::Preparing.can_transition_to(MaintenancePhase::Prepared));
    assert!(MaintenancePhase::Prepared.can_transition_to(MaintenancePhase::Releasing));
    assert!(MaintenancePhase::Releasing.can_transition_to(MaintenancePhase::Released));
}

#[test]
fn preparation_cannot_be_skipped() {
    assert!(!MaintenancePhase::Requested.can_transition_to(MaintenancePhase::Prepared));
    assert!(!MaintenancePhase::Blocked.can_transition_to(MaintenancePhase::Prepared));
}

#[test]
fn release_can_be_requested_from_any_active_phase() {
    for phase in [
        MaintenancePhase::Requested,
        MaintenancePhase::Preparing,
        MaintenancePhase::Prepared,
        MaintenancePhase::Blocked,
    ] {
        assert!(
            phase.can_transition_to(MaintenancePhase::Releasing),
            "{phase:?} must be releasable"
        );
    }
}

#[test]
fn terminal_phases_accept_no_transition() {
    for terminal in [
        MaintenancePhase::Failed,
        MaintenancePhase::Expired,
        MaintenancePhase::Released,
    ] {
        assert!(terminal.is_terminal());
        for next in all_phases() {
            assert!(
                !terminal.can_transition_to(next),
                "{terminal:?} must not transition to {next:?}"
            );
        }
    }
}

#[test]
fn only_prepared_is_safe_to_drain() {
    for phase in all_phases() {
        assert_eq!(
            phase.is_safe_to_drain(),
            phase == MaintenancePhase::Prepared,
            "{phase:?}"
        );
    }
}

#[test]
fn unsafe_phases_require_a_reason() {
    for phase in all_phases() {
        let expected = matches!(
            phase,
            MaintenancePhase::Blocked | MaintenancePhase::Failed | MaintenancePhase::Expired
        );
        assert_eq!(phase.requires_reason(), expected, "{phase:?}");
    }
}

#[test]
fn completion_and_cancellation_release_the_request() {
    assert!(MaintenanceDesiredState::Complete.releases_request());
    assert!(MaintenanceDesiredState::Cancel.releases_request());
    assert!(!MaintenanceDesiredState::Prepare.releases_request());
}

#[test]
fn reimage_and_replace_discard_local_state() {
    assert!(MaintenanceOperation::Reimage.discards_local_state());
    assert!(MaintenanceOperation::Replace.discards_local_state());
    assert!(!MaintenanceOperation::Reboot.discards_local_state());
    assert!(!MaintenanceOperation::OsUpgrade.discards_local_state());
    assert!(!MaintenanceOperation::Shutdown.discards_local_state());
}

#[test]
fn staying_is_allowed_only_in_active_phases() {
    for phase in all_phases() {
        assert_eq!(phase.can_transition_to(phase), !phase.is_terminal(), "{phase:?}");
    }
}

#[test]
fn prepared_is_only_entered_from_preparing_on_a_path() {
    let path = [
        MaintenancePhase::Requested,
        MaintenancePhase::Blocked,
        MaintenancePhase::Preparing,
        MaintenancePhase::Prepared,
        MaintenancePhase::Releasing,
        MaintenancePhase::Released,
    ];
    for pair in path.windows(2) {
        assert!(pair[0].can_transition_to(pair[1]), "{:?} -> {:?}", pair[0], pair[1]);
    }
    for from in all_phases() {
        if from != MaintenancePhase::Prepared && from.can_transition_to(MaintenancePhase::Prepared) {
            assert_eq!(from, MaintenancePhase::Preparing);
        }
        if from.can_transition_to(MaintenancePhase::Released) {
            assert_eq!(from, MaintenancePhase::Releasing);
        }
    }
}

#[test]
fn releasing_only_ends_in_released_or_failed() {
    for next in all_phases() {
        let allowed = MaintenancePhase::Releasing.can_transition_to(next);
        let expected = matches!(
            next,
            MaintenancePhase::Releasing | MaintenancePhase::Released | MaintenancePhase::Failed
        );
        assert_eq!(allowed, expected, "{next:?}");
    }
}

#[test]
fn operation_default_is_reboot() {
    assert_eq!(MaintenanceOperation::default(), MaintenanceOperation::Reboot);
}
