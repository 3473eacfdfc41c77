//! The maintenance request's spec and status records, their mathematical
//! views, and an exact comparison of two statuses.
use crate::maintenance_api::{
    MaintenanceBlockedReason, MaintenanceDesiredState, MaintenanceOperation, MaintenancePhase,
};
use vstd::prelude::*;

verus! {

/// The view of an optional string.
pub open spec fn opt_str(o: Option<String>) -> Option<Seq<char>> {
    match o {
        Some(s) => Some(s@),
        None => None,
    }
}

/// What the coordinator asks of the operator for one node.
pub struct NodeMaintenanceRequestSpec {
    pub node_name: String,
    pub operation: MaintenanceOperation,
    pub desired_state: MaintenanceDesiredState,
    pub provider: Option<String>,
    pub provider_event_id: Option<String>,
    pub not_before: Option<String>,
    pub deadline: Option<String>,
}

/// One replica pod of an affected set that runs on the node.
pub struct AffectedReplicaStatus {
    pub pod_name: String,
    pub pod_uid: String,
    pub is_primary: bool,
}

/// One replica set with replicas on the node under maintenance.
pub struct AffectedKubericSetStatus {
    pub namespace: String,
    pub name: String,
    pub replicas: Vec<AffectedReplicaStatus>,
    pub hosts_primary: bool,
    pub primary_moved: bool,
    pub quorum_without_node: bool,
}

/// A condition reported in the request status.
pub struct StatusCondition {
    pub condition_type: String,
    pub status: String,
    pub reason: Option<String>,
    pub message: Option<String>,
    pub last_transition_time: Option<String>,
    pub observed_generation: Option<i64>,
}

/// The operator-owned status of a maintenance request.
pub struct NodeMaintenanceRequestStatus {
    pub phase: MaintenancePhase,
    pub observed_generation: Option<i64>,
    pub observed_desired_state: Option<MaintenanceDesiredState>,
    pub node_uid: Option<String>,
    pub discovery_completed_at: Option<String>,
    pub affected_sets: Vec<AffectedKubericSetStatus>,
    pub blocked_reason: Option<MaintenanceBlockedReason>,
    pub message: Option<String>,
    pub prepared_at: Option<String>,
    pub conditions: Vec<StatusCondition>,
}

pub struct AffectedReplicaView {
    pub pod_name: Seq<char>,
    pub pod_uid: Seq<char>,
    pub is_primary: bool,
}

pub struct AffectedSetView {
    pub namespace: Seq<char>,
    pub name: Seq<char>,
    pub replicas: Seq<AffectedReplicaView>,
    pub hosts_primary: bool,
    pub primary_moved: bool,
    pub quorum_without_node: bool,
}

pub struct StatusConditionView {
    pub condition_type: Seq<char>,
    pub status: Seq<char>,
    pub reason: Option<Seq<char>>,
    pub message: Option<Seq<char>>,
    pub last_transition_time: Option<Seq<char>>,
    pub observed_generation: Option<i64>,
}

pub struct RequestStatusView {
    pub phase: MaintenancePhase,
    pub observed_generation: Option<i64>,
    pub observed_desired_state: Option<MaintenanceDesiredState>,
    pub node_uid: Option<Seq<char>>,
    pub discovery_completed_at: Option<Seq<char>>,
    pub affected_sets: Seq<AffectedSetView>,
    pub blocked_reason: Option<MaintenanceBlockedReason>,
    pub message: Option<Seq<char>>,
    pub prepared_at: Option<Seq<char>>,
    pub conditions: Seq<StatusConditionView>,
}

impl View for AffectedReplicaStatus {
    type V = AffectedReplicaView;

    open spec fn view(&self) -> AffectedReplicaView {
        AffectedReplicaView {
            pod_name: self.pod_name@,
            pod_uid: self.pod_uid@,
            is_primary: self.is_primary,
        }
    }
}

impl View for AffectedKubericSetStatus {
    type V = AffectedSetView;

    open spec fn view(&self) -> AffectedSetView {
        AffectedSetView {
            namespace: self.namespace@,
            name: self.name@,
            replicas: self.replicas@.map_values(|r: AffectedReplicaStatus| r@),
            hosts_primary: self.hosts_primary,
            primary_moved: self.primary_moved,
            quorum_without_node: self.quorum_without_node,
        }
    }
}

impl View for StatusCondition {
    type V = StatusConditionView;

    open spec fn view(&self) -> StatusConditionView {
        StatusConditionView {
            condition_type: self.condition_type@,
            status: self.status@,
            reason: opt_str(self.reason),
            message: opt_str(self.message),
            last_transition_time: opt_str(self.last_transition_time),
            observed_generation: self.observed_generation,
        }
    }
}

impl View for NodeMaintenanceRequestStatus {
    type V = RequestStatusView;

    open spec fn view(&self) -> RequestStatusView {
        RequestStatusView {
            phase: self.phase,
            observed_generation: self.observed_generation,
            observed_desired_state: self.observed_desired_state,
            node_uid: opt_str(self.node_uid),
            discovery_completed_at: opt_str(self.discovery_completed_at),
            affected_sets: self.affected_sets@.map_values(|s: AffectedKubericSetStatus| s@),
            blocked_reason: self.blocked_reason,
            message: opt_str(self.message),
            prepared_at: opt_str(self.prepared_at),
            conditions: self.conditions@.map_values(|c: StatusCondition| c@),
        }
    }
}

/// The status of a request the operator has not looked at yet.
pub open spec fn fresh_status() -> RequestStatusView {
    RequestStatusView {
        phase: MaintenancePhase::Requested,
        observed_generation: None,
        observed_desired_state: None,
        node_uid: None,
        discovery_completed_at: None,
        affected_sets: Seq::empty(),
        blocked_reason: None,
        message: None,
        prepared_at: None,
        conditions: Seq::empty(),
    }
}

impl Default for NodeMaintenanceRequestStatus {
    fn default() -> (r: Self)
        ensures
            r@ == fresh_status(),
    {
        let r = NodeMaintenanceRequestStatus {
            phase: MaintenancePhase::Requested,
            observed_generation: None,
            observed_desired_state: None,
            node_uid: None,
            discovery_completed_at: None,
            affected_sets: Vec::new(),
            blocked_reason: None,
            message: None,
            prepared_at: None,
            conditions: Vec::new(),
        };
        assert(r@.affected_sets =~= Seq::<AffectedSetView>::empty());
        assert(r@.conditions =~= Seq::<StatusConditionView>::empty());
        r
    }
}

fn same_opt_str(a: &Option<String>, b: &Option<String>) -> (r: bool)
    ensures
        r == (opt_str(*a) == opt_str(*b)),
{
    match a {
        Some(x) => match b {
            Some(y) => *x == *y,
            None => false,
        },
        None => b.is_none(),
    }
}

fn same_opt_i64(a: Option<i64>, b: Option<i64>) -> (r: bool)
    ensures
        r == (a == b),
{
    match (a, b) {
        (Some(x), Some(y)) => x == y,
        (None, None) => true,
        _ => false,
    }
}

fn same_opt_desired(a: Option<MaintenanceDesiredState>, b: Option<MaintenanceDesiredState>) -> (r:
    bool)
    ensures
        r == (a == b),
{
    match (a, b) {
        (Some(x), Some(y)) => x == y,
        (None, None) => true,
        _ => false,
    }
}

fn same_opt_reason(a: Option<MaintenanceBlockedReason>, b: Option<MaintenanceBlockedReason>) -> (r:
    bool)
    ensures
        r == (a == b),
{
    match (a, b) {
        (Some(x), Some(y)) => x == y,
        (None, None) => true,
        _ => false,
    }
}

impl AffectedReplicaStatus {
    /// Field-by-field comparison.
    pub fn same_as(&self, other: &Self) -> (r: bool)
        ensures
            r == (self@ == other@),
    {
        self.pod_name == other.pod_name && self.pod_uid == other.pod_uid && self.is_primary
            == other.is_primary
    }
}

fn same_replicas(a: &Vec<AffectedReplicaStatus>, b: &Vec<AffectedReplicaStatus>) -> (r: bool)
    ensures
        r == (a@.map_values(|x: AffectedReplicaStatus| x@) == b@.map_values(
            |x: AffectedReplicaStatus| x@,
        )),
{
    let ghost va = a@.map_values(|x: AffectedReplicaStatus| x@);
    let ghost vb = b@.map_values(|x: AffectedReplicaStatus| x@);
    if a.len() != b.len() {
        assert(va.len() != vb.len());
        return false;
    }
    let mut i: usize = 0;
    while i < a.len()
        invariant
            a.len() == b.len(),
            i <= a.len(),
            va == a@.map_values(|x: AffectedReplicaStatus| x@),
            vb == b@.map_values(|x: AffectedReplicaStatus| x@),
            forall|j: int| 0 <= j < i ==> va[j] == vb[j],
        decreases a.len() - i,
    {
        if !a[i].same_as(&b[i]) {
            assert(va[i as int] != vb[i as int]);
            return false;
        }
        i = i + 1;
    }
    assert(va =~= vb);
    true
}

impl AffectedKubericSetStatus {
    /// Field-by-field comparison, replicas included.
    pub fn same_as(&self, other: &Self) -> (r: bool)
        ensures
            r == (self@ == other@),
    {
        let names = self.namespace == other.namespace && self.name == other.name;
        let flags = self.hosts_primary == other.hosts_primary && self.primary_moved
            == other.primary_moved && self.quorum_without_node == other.quorum_without_node;
        let replicas = same_replicas(&self.replicas, &other.replicas);
        names && flags && replicas
    }
}

fn same_sets(a: &Vec<AffectedKubericSetStatus>, b: &Vec<AffectedKubericSetStatus>) -> (r: bool)
    ensures
        r == (a@.map_values(|x: AffectedKubericSetStatus| x@) == b@.map_values(
            |x: AffectedKubericSetStatus| x@,
        )),
{
    let ghost va = a@.map_values(|x: AffectedKubericSetStatus| x@);
    let ghost vb = b@.map_values(|x: AffectedKubericSetStatus| x@);
    if a.len() != b.len() {
        assert(va.len() != vb.len());
        return false;
    }
    let mut i: usize = 0;
    while i < a.len()
        invariant
            a.len() == b.len(),
            i <= a.len(),
            va == a@.map_values(|x: AffectedKubericSetStatus| x@),
            vb == b@.map_values(|x: AffectedKubericSetStatus| x@),
            forall|j: int| 0 <= j < i ==> va[j] == vb[j],
        decreases a.len() - i,
    {
        if !a[i].same_as(&b[i]) {
            assert(va[i as int] != vb[i as int]);
            return false;
        }
        i = i + 1;
    }
    assert(va =~= vb);
    true
}

impl StatusCondition {
    /// Field-by-field comparison.
    pub fn same_as(&self, other: &Self) -> (r: bool)
        ensures
            r == (self@ == other@),
    {
        let head = self.condition_type == other.condition_type && self.status == other.status;
        let texts = same_opt_str(&self.reason, &other.reason) && same_opt_str(
            &self.message,
            &other.message,
        ) && same_opt_str(&self.last_transition_time, &other.last_transition_time);
        let generation = same_opt_i64(self.observed_generation, other.observed_generation);
        head && texts && generation
    }
}

fn same_conditions(a: &Vec<StatusCondition>, b: &Vec<StatusCondition>) -> (r: bool)
    ensures
        r == (a@.map_values(|x: StatusCondition| x@) == b@.map_values(|x: StatusCondition| x@)),
{
    let ghost va = a@.map_values(|x: StatusCondition| x@);
    let ghost vb = b@.map_values(|x: StatusCondition| x@);
    if a.len() != b.len() {
        assert(va.len() != vb.len());
        return false;
    }
    let mut i: usize = 0;
    while i < a.len()
        invariant
            a.len() == b.len(),
            i <= a.len(),
            va == a@.map_values(|x: StatusCondition| x@),
            vb == b@.map_values(|x: StatusCondition| x@),
            forall|j: int| 0 <= j < i ==> va[j] == vb[j],
        decreases a.len() - i,
    {
        if !a[i].same_as(&b[i]) {
            assert(va[i as int] != vb[i as int]);
            return false;
        }
        i = i + 1;
    }
    assert(va =~= vb);
    true
}

impl NodeMaintenanceRequestStatus {
    /// Whether two statuses are the same, field by field and element by element.
    pub fn same_as(&self, other: &Self) -> (r: bool)
        ensures
            r == (self@ == other@),
    {
        let phase = self.phase == other.phase;
        let generation = same_opt_i64(self.observed_generation, other.observed_generation);
        let desired = same_opt_desired(self.observed_desired_state, other.observed_desired_state);
        let reason = same_opt_reason(self.blocked_reason, other.blocked_reason);
        let texts = same_opt_str(&self.node_uid, &other.node_uid) && same_opt_str(
            &self.discovery_completed_at,
            &other.discovery_completed_at,
        ) && same_opt_str(&self.message, &other.message) && same_opt_str(
            &self.prepared_at,
            &other.prepared_at,
        );
        let sets = same_sets(&self.affected_sets, &other.affected_sets);
        let conditions = same_conditions(&self.conditions, &other.conditions);
        phase && generation && desired && reason && texts && sets && conditions
    }
}

/// A copy of an optional string.
pub fn copy_opt_str(a: &Option<String>) -> (r: Option<String>)
    ensures
        opt_str(r) == opt_str(*a),
{
    match a {
        Some(x) => Some(x.clone()),
        None => None,
    }
}

impl AffectedReplicaStatus {
    pub fn clone_replica(&self) -> (r: Self)
        ensures
            r@ == self@,
    {
        AffectedReplicaStatus {
            pod_name: self.pod_name.clone(),
            pod_uid: self.pod_uid.clone(),
            is_primary: self.is_primary,
        }
    }
}

impl AffectedKubericSetStatus {
    pub fn clone_set(&self) -> (r: Self)
        ensures
            r@ == self@,
    {
        let mut replicas: Vec<AffectedReplicaStatus> = Vec::new();
        let mut i: usize = 0;
        while i < self.replicas.len()
            invariant
                i <= self.replicas.len(),
                replicas@.len() == i,
                forall|k: int| 0 <= k < i ==> (#[trigger] replicas@[k])@ == self.replicas@[k]@,
            decreases self.replicas.len() - i,
        {
            replicas.push(self.replicas[i].clone_replica());
            i = i + 1;
        }
        assert(replicas@.map_values(|x: AffectedReplicaStatus| x@) =~= self.replicas@.map_values(|x: AffectedReplicaStatus| x@));
        AffectedKubericSetStatus {
            namespace: self.namespace.clone(),
            name: self.name.clone(),
            replicas,
            hosts_primary: self.hosts_primary,
            primary_moved: self.primary_moved,
            quorum_without_node: self.quorum_without_node,
        }
    }
}

impl StatusCondition {
    pub fn clone_condition(&self) -> (r: Self)
        ensures
            r@ == self@,
    {
        StatusCondition {
            condition_type: self.condition_type.clone(),
            status: self.status.clone(),
            reason: copy_opt_str(&self.reason),
            message: copy_opt_str(&self.message),
            last_transition_time: copy_opt_str(&self.last_transition_time),
            observed_generation: self.observed_generation,
        }
    }
}

impl NodeMaintenanceRequestStatus {
    /// A deep copy of the status.
    pub fn clone_status(&self) -> (r: Self)
        ensures
            r@ == self@,
    {
        let mut sets: Vec<AffectedKubericSetStatus> = Vec::new();
        let mut i: usize = 0;
        while i < self.affected_sets.len()
            invariant
                i <= self.affected_sets.len(),
                sets@.len() == i,
                forall|k: int| 0 <= k < i ==> (#[trigger] sets@[k])@ == self.affected_sets@[k]@,
            decreases self.affected_sets.len() - i,
        {
            sets.push(self.affected_sets[i].clone_set());
            i = i + 1;
        }
        assert(sets@.map_values(|x: AffectedKubericSetStatus| x@) =~= self.affected_sets@.map_values(|x: AffectedKubericSetStatus| x@));
        let mut conditions: Vec<StatusCondition> = Vec::new();
        let mut j: usize = 0;
        while j < self.conditions.len()
            invariant
                j <= self.conditions.len(),
                conditions@.len() == j,
                forall|k: int| 0 <= k < j ==> (#[trigger] conditions@[k])@ == self.conditions@[k]@,
            decreases self.conditions.len() - j,
        {
            conditions.push(self.conditions[j].clone_condition());
            j = j + 1;
        }
        assert(conditions@.map_values(|x: StatusCondition| x@) =~= self.conditions@.map_values(|x: StatusCondition| x@));
        NodeMaintenanceRequestStatus {
            phase: self.phase,
            observed_generation: self.observed_generation,
            observed_desired_state: self.observed_desired_state,
            node_uid: copy_opt_str(&self.node_uid),
            discovery_completed_at: copy_opt_str(&self.discovery_completed_at),
            affected_sets: sets,
            blocked_reason: self.blocked_reason,
            message: copy_opt_str(&self.message),
            prepared_at: copy_opt_str(&self.prepared_at),
            conditions,
        }
    }
}

} // verus!
