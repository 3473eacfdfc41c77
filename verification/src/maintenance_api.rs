//! The node maintenance request: what is asked (operation, desired state),
//! the phases the operator moves a request through, and the rules that
//! govern which phase may follow which.
use vstd::prelude::*;

verus! {

/// Type of the status condition that marks a request as prepared.
pub const PREPARED_CONDITION_TYPE: &'static str = "KubericPrepared";

/// What the maintenance coordinator is going to do to the node.
#[derive(Debug, Clone, Copy, PartialEq, Eq, Structural)]
pub enum MaintenanceOperation {
    Reboot,
    Reimage,
    OsUpgrade,
    Replace,
    Shutdown,
}

impl MaintenanceOperation {
    /// The operation wipes what is stored on the node.
    pub open spec fn wipes_node(self) -> bool {
        self == MaintenanceOperation::Reimage || self == MaintenanceOperation::Replace
    }

    pub fn discards_local_state(self) -> (r: bool)
        ensures
            r == self.wipes_node(),
    {
        match self {
            MaintenanceOperation::Reimage | MaintenanceOperation::Replace => true,
            _ => false,
        }
    }
}

impl Default for MaintenanceOperation {
    fn default() -> (r: Self)
        ensures
            r == MaintenanceOperation::Reboot,
    {
        MaintenanceOperation::Reboot
    }
}

/// What the coordinator currently wants from the operator.
#[derive(Debug, Clone, Copy, PartialEq, Eq, Structural)]
pub enum MaintenanceDesiredState {
    Prepare,
    Complete,
    Cancel,
}

impl MaintenanceDesiredState {
    /// The coordinator is done with the node (finished or gave up).
    pub open spec fn is_release(self) -> bool {
        self == MaintenanceDesiredState::Complete || self == MaintenanceDesiredState::Cancel
    }

    pub fn releases_request(self) -> (r: bool)
        ensures
            r == self.is_release(),
    {
        match self {
            MaintenanceDesiredState::Complete | MaintenanceDesiredState::Cancel => true,
            MaintenanceDesiredState::Prepare => false,
        }
    }
}

impl Default for MaintenanceDesiredState {
    fn default() -> (r: Self)
        ensures
            r == MaintenanceDesiredState::Prepare,
    {
        MaintenanceDesiredState::Prepare
    }
}

/// Phase of a maintenance request, as owned by the operator.
#[derive(Debug, Clone, Copy, PartialEq, Eq, Structural)]
pub enum MaintenancePhase {
    Requested,
    Preparing,
    Prepared,
    Blocked,
    Failed,
    Expired,
    Releasing,
    Released,
}

impl MaintenancePhase {
    /// No further phase can follow.
    pub open spec fn terminal(self) -> bool {
        self == MaintenancePhase::Failed || self == MaintenancePhase::Expired || self
            == MaintenancePhase::Released
    }

    /// Phases whose status must carry a blocked reason.
    pub open spec fn needs_reason(self) -> bool {
        self == MaintenancePhase::Blocked || self == MaintenancePhase::Failed || self
            == MaintenancePhase::Expired
    }

    /// The transition table of the maintenance phase machine.
    pub open spec fn allows(self, next: MaintenancePhase) -> bool {
        if self == next {
            !self.terminal()
        } else {
            match self {
                MaintenancePhase::Requested => next == MaintenancePhase::Preparing || next
                    == MaintenancePhase::Blocked || next == MaintenancePhase::Failed || next
                    == MaintenancePhase::Expired || next == MaintenancePhase::Releasing,
                MaintenancePhase::Preparing => next == MaintenancePhase::Prepared || next
                    == MaintenancePhase::Blocked || next == MaintenancePhase::Failed || next
                    == MaintenancePhase::Expired || next == MaintenancePhase::Releasing,
                MaintenancePhase::Prepared => next == MaintenancePhase::Preparing || next
                    == MaintenancePhase::Blocked || next == MaintenancePhase::Failed || next
                    == MaintenancePhase::Expired || next == MaintenancePhase::Releasing,
                MaintenancePhase::Blocked => next == MaintenancePhase::Preparing || next
                    == MaintenancePhase::Failed || next == MaintenancePhase::Expired || next
                    == MaintenancePhase::Releasing,
                MaintenancePhase::Releasing => next == MaintenancePhase::Released || next
                    == MaintenancePhase::Failed,
                MaintenancePhase::Failed | MaintenancePhase::Expired
                | MaintenancePhase::Released => false,
            }
        }
    }

    pub fn is_terminal(self) -> (r: bool)
        ensures
            r == self.terminal(),
    {
        match self {
            MaintenancePhase::Failed | MaintenancePhase::Expired | MaintenancePhase::Released => {
                true
            },
            _ => false,
        }
    }

    pub fn is_safe_to_drain(self) -> (r: bool)
        ensures
            r == (self == MaintenancePhase::Prepared),
    {
        match self {
            MaintenancePhase::Prepared => true,
            _ => false,
        }
    }

    pub fn requires_reason(self) -> (r: bool)
        ensures
            r == self.needs_reason(),
    {
        match self {
            MaintenancePhase::Blocked | MaintenancePhase::Failed | MaintenancePhase::Expired => {
                true
            },
            _ => false,
        }
    }

    pub fn can_transition_to(self, next: Self) -> (r: bool)
        ensures
            r == self.allows(next),
            r == transition_table().contains((self, next)),
    {
        if self == next {
            return !self.is_terminal();
        }
        match self {
            MaintenancePhase::Requested => match next {
                MaintenancePhase::Preparing | MaintenancePhase::Blocked | MaintenancePhase::Failed
                | MaintenancePhase::Expired | MaintenancePhase::Releasing => true,
                _ => false,
            },
            MaintenancePhase::Preparing => match next {
                MaintenancePhase::Prepared | MaintenancePhase::Blocked | MaintenancePhase::Failed
                | MaintenancePhase::Expired | MaintenancePhase::Releasing => true,
                _ => false,
            },
            MaintenancePhase::Prepared => match next {
                MaintenancePhase::Preparing | MaintenancePhase::Blocked | MaintenancePhase::Failed
                | MaintenancePhase::Expired | MaintenancePhase::Releasing => true,
                _ => false,
            },
            MaintenancePhase::Blocked => match next {
                MaintenancePhase::Preparing | MaintenancePhase::Failed | MaintenancePhase::Expired
                | MaintenancePhase::Releasing => true,
                _ => false,
            },
            MaintenancePhase::Releasing => match next {
                MaintenancePhase::Released | MaintenancePhase::Failed => true,
                _ => false,
            },
            MaintenancePhase::Failed | MaintenancePhase::Expired | MaintenancePhase::Released => {
                false
            },
        }
    }
}

impl Default for MaintenancePhase {
    fn default() -> (r: Self)
        ensures
            r == MaintenancePhase::Requested,
    {
        MaintenancePhase::Requested
    }
}

/// Why a request is blocked, failed or expired.
#[derive(Debug, Clone, Copy, PartialEq, Eq, Structural)]
pub enum MaintenanceBlockedReason {
    NodeNotFound,
    NodeIncarnationChanged,
    BlockedByQuorum,
    NoEligibleTarget,
    SwitchoverFailed,
    DeadlineExceeded,
    ConflictingOperation,
    ApplicationCloseIncomplete,
}

/// A sequence of phases in which each phase may follow the one before.
pub open spec fn is_phase_path(path: Seq<MaintenancePhase>) -> bool {
    forall|i: int| 0 <= i < path.len() - 1 ==> #[trigger] path[i].allows(path[i + 1])
}

/// A terminal phase (Failed, Expired, Released) admits no successor, not even itself.
pub proof fn lemma_terminal_phase_is_final(phase: MaintenancePhase, next: MaintenancePhase)
    requires
        phase.terminal(),
    ensures
        !phase.allows(next),
{
}

/// Staying in a phase is allowed exactly when the phase is not terminal.
pub proof fn lemma_stay_iff_active(phase: MaintenancePhase)
    ensures
        phase.allows(phase) == !phase.terminal(),
{
}

/// Preparation cannot be skipped: the only other phase that may lead to
/// Prepared is Preparing.
pub proof fn lemma_prepared_only_after_preparing(phase: MaintenancePhase)
    requires
        phase != MaintenancePhase::Prepared,
        phase.allows(MaintenancePhase::Prepared),
    ensures
        phase == MaintenancePhase::Preparing,
{
}

/// Released can only follow Releasing.
pub proof fn lemma_released_only_after_releasing(phase: MaintenancePhase)
    requires
        phase.allows(MaintenancePhase::Released),
    ensures
        phase == MaintenancePhase::Releasing,
{
}

/// Release can be requested from every phase that is not terminal.
pub proof fn lemma_release_from_any_active_phase(phase: MaintenancePhase)
    requires
        !phase.terminal(),
    ensures
        phase.allows(MaintenancePhase::Releasing),
{
}

/// Once releasing, a request either stays releasing, is released, or fails.
pub proof fn lemma_releasing_only_ends(next: MaintenancePhase)
    requires
        MaintenancePhase::Releasing.allows(next),
    ensures
        next == MaintenancePhase::Releasing || next == MaintenancePhase::Released || next
            == MaintenancePhase::Failed,
{
}

/// Only Prepared is safe to drain, and a safe phase never needs a reason.
pub proof fn lemma_safe_phase_needs_no_reason(phase: MaintenancePhase)
    requires
        phase == MaintenancePhase::Prepared,
    ensures
        !phase.needs_reason(),
        !phase.terminal(),
{
}

/// Along any path of allowed transitions that does not start at Prepared,
/// every visit to Prepared is preceded by a visit to Preparing.
pub proof fn lemma_path_prepared_after_preparing(path: Seq<MaintenancePhase>, k: int)
    requires
        is_phase_path(path),
        path.len() > 0,
        path[0] != MaintenancePhase::Prepared,
        0 <= k < path.len(),
        path[k] == MaintenancePhase::Prepared,
    ensures
        exists|j: int| 0 <= j < k && path[j] == MaintenancePhase::Preparing,
    decreases k,
{
    assert(k > 0);
    assert(path[k - 1].allows(path[k - 1 + 1]));
    if path[k - 1] == MaintenancePhase::Prepared {
        lemma_path_prepared_after_preparing(path, k - 1);
        let j = choose|j: int| 0 <= j < k - 1 && path[j] == MaintenancePhase::Preparing;
        assert(0 <= j < k && path[j] == MaintenancePhase::Preparing);
    } else {
        assert(path[k - 1] == MaintenancePhase::Preparing);
    }
}

/// A terminal phase can only be the last element of a path.
pub proof fn lemma_path_ends_at_terminal(path: Seq<MaintenancePhase>, k: int)
    requires
        is_phase_path(path),
        0 <= k < path.len(),
        path[k].terminal(),
    ensures
        k == path.len() - 1,
{
    if k < path.len() - 1 {
        assert(path[k].allows(path[k + 1]));
    }
}

/// The allowed phase changes, written out pair by pair.
pub open spec fn transition_table() -> Set<(MaintenancePhase, MaintenancePhase)> {
    set![
        (MaintenancePhase::Requested, MaintenancePhase::Requested),
        (MaintenancePhase::Requested, MaintenancePhase::Preparing),
        (MaintenancePhase::Requested, MaintenancePhase::Blocked),
        (MaintenancePhase::Requested, MaintenancePhase::Failed),
        (MaintenancePhase::Requested, MaintenancePhase::Expired),
        (MaintenancePhase::Requested, MaintenancePhase::Releasing),
        (MaintenancePhase::Preparing, MaintenancePhase::Preparing),
        (MaintenancePhase::Preparing, MaintenancePhase::Prepared),
        (MaintenancePhase::Preparing, MaintenancePhase::Blocked),
        (MaintenancePhase::Preparing, MaintenancePhase::Failed),
        (MaintenancePhase::Preparing, MaintenancePhase::Expired),
        (MaintenancePhase::Preparing, MaintenancePhase::Releasing),
        (MaintenancePhase::Prepared, MaintenancePhase::Prepared),
        (MaintenancePhase::Prepared, MaintenancePhase::Preparing),
        (MaintenancePhase::Prepared, MaintenancePhase::Blocked),
        (MaintenancePhase::Prepared, MaintenancePhase::Failed),
        (MaintenancePhase::Prepared, MaintenancePhase::Expired),
        (MaintenancePhase::Prepared, MaintenancePhase::Releasing),
        (MaintenancePhase::Blocked, MaintenancePhase::Blocked),
        (MaintenancePhase::Blocked, MaintenancePhase::Preparing),
        (MaintenancePhase::Blocked, MaintenancePhase::Failed),
        (MaintenancePhase::Blocked, MaintenancePhase::Expired),
        (MaintenancePhase::Blocked, MaintenancePhase::Releasing),
        (MaintenancePhase::Releasing, MaintenancePhase::Releasing),
        (MaintenancePhase::Releasing, MaintenancePhase::Released),
        (MaintenancePhase::Releasing, MaintenancePhase::Failed),
    ]
}

/// The transition rule allows exactly the pairs of the written-out table.
pub proof fn lemma_transition_table(phase: MaintenancePhase, next: MaintenancePhase)
    ensures
        phase.allows(next) == transition_table().contains((phase, next)),
{
}

/// A request that is not terminal and not releasing can always become
/// blocked, fail, or expire.
pub proof fn lemma_active_phase_can_block_fail_or_expire(phase: MaintenancePhase)
    requires
        !phase.terminal(),
        phase != MaintenancePhase::Releasing,
    ensures
        phase.allows(MaintenancePhase::Blocked),
        phase.allows(MaintenancePhase::Failed),
        phase.allows(MaintenancePhase::Expired),
{
}

/// Preparation can start (or resume) from every phase before release that is
/// not already preparing: a new, blocked, or prepared request.
pub proof fn lemma_preparation_can_start(phase: MaintenancePhase)
    requires
        phase == MaintenancePhase::Requested || phase == MaintenancePhase::Blocked || phase
            == MaintenancePhase::Prepared,
    ensures
        phase.allows(MaintenancePhase::Preparing),
{
}

} // verus!
