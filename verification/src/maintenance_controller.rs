//! The maintenance controller's decisions: which pods belong to a replica
//! set, what a node lookup means, and the reconcile run of one request as a
//! state machine whose outside work (Kubernetes calls, discovery) is done by
//! its driver.
use crate::maintenance_status::{
    opt_str, NodeMaintenanceRequestSpec, NodeMaintenanceRequestStatus, RequestStatusView,
};
use vstd::prelude::*;

verus! {

/// Label that ties a pod to its replica set.
pub const SET_LABEL: &'static str = "kuberic.io/set";

/// Label that carries a pod's replica role.
pub const ROLE_LABEL: &'static str = "kuberic.io/role";

/// Value of the role label on the primary replica.
pub const PRIMARY_ROLE: &'static str = "primary";

/// The node named by a request, as found in the cluster.
pub struct NodeRef {
    pub name: String,
    pub uid: String,
}

/// A pod of a replica set, as the maintenance logic sees it.
pub struct MaintenancePod {
    pub namespace: String,
    pub name: String,
    pub uid: String,
    pub node_name: Option<String>,
    pub set_name: String,
    pub is_primary: bool,
}

/// What the controller reads of a cluster pod: its metadata and the node it
/// is scheduled on. Labels are the pod's label map as key/value pairs.
pub struct PodFacts {
    pub namespace: Option<String>,
    pub name: Option<String>,
    pub uid: Option<String>,
    pub labels: Option<Vec<(String, String)>>,
    pub node_name: Option<String>,
}

pub struct NodeRefView {
    pub name: Seq<char>,
    pub uid: Seq<char>,
}

pub struct MaintenancePodView {
    pub namespace: Seq<char>,
    pub name: Seq<char>,
    pub uid: Seq<char>,
    pub node_name: Option<Seq<char>>,
    pub set_name: Seq<char>,
    pub is_primary: bool,
}

impl View for NodeRef {
    type V = NodeRefView;

    open spec fn view(&self) -> NodeRefView {
        NodeRefView { name: self.name@, uid: self.uid@ }
    }
}

impl View for MaintenancePod {
    type V = MaintenancePodView;

    open spec fn view(&self) -> MaintenancePodView {
        MaintenancePodView {
            namespace: self.namespace@,
            name: self.name@,
            uid: self.uid@,
            node_name: opt_str(self.node_name),
            set_name: self.set_name@,
            is_primary: self.is_primary,
        }
    }
}

/// The value stored under `key` in a label list (the first pair with that key).
pub open spec fn label_value(labels: Seq<(String, String)>, key: Seq<char>) -> Option<Seq<char>>
    decreases labels.len(),
{
    if labels.len() == 0 {
        None
    } else if labels[0].0@ == key {
        Some(labels[0].1@)
    } else {
        label_value(labels.drop_first(), key)
    }
}

/// No key occurs twice in a label list, as in the label map it is read from.
pub open spec fn distinct_label_keys(labels: Seq<(String, String)>) -> bool {
    forall|i: int, j: int|
        0 <= i < j < labels.len() ==> (#[trigger] labels[i]).0@ != (#[trigger] labels[j]).0@
}

impl PodFacts {
    /// The pod's labels, if any, form a map: each key occurs once.
    pub open spec fn labels_form_map(self) -> bool {
        match self.labels {
            Some(labels) => distinct_label_keys(labels@),
            None => true,
        }
    }
}

/// In a label list whose keys are distinct, the value under a key is the value
/// of the one entry with that key.
pub proof fn lemma_label_value_is_the_entry(labels: Seq<(String, String)>, i: int)
    requires
        distinct_label_keys(labels),
        0 <= i < labels.len(),
    ensures
        label_value(labels, labels[i].0@) == Some(labels[i].1@),
    decreases labels.len(),
{
    if i > 0 {
        let rest = labels.drop_first();
        assert(labels[0].0@ != labels[i].0@);
        assert(rest[i - 1] == labels[i]);
        assert forall|a: int, b: int| 0 <= a < b < rest.len() implies (#[trigger] rest[a]).0@
            != (#[trigger] rest[b]).0@ by {
            assert(rest[a] == labels[a + 1] && rest[b] == labels[b + 1]);
        }
        lemma_label_value_is_the_entry(rest, i - 1);
    }
}

/// A pod belongs to the maintenance picture when it carries the set label and
/// has a namespace, a name and a uid; it is primary when its role label says so.
pub open spec fn member_pod(p: PodFacts) -> Option<MaintenancePodView> {
    match p.labels {
        None => None,
        Some(labels) => match label_value(labels@, SET_LABEL@) {
            None => None,
            Some(set_name) => {
                if p.namespace is Some && p.name is Some && p.uid is Some {
                    Some(
                        MaintenancePodView {
                            namespace: p.namespace.unwrap()@,
                            name: p.name.unwrap()@,
                            uid: p.uid.unwrap()@,
                            node_name: opt_str(p.node_name),
                            set_name,
                            is_primary: label_value(labels@, ROLE_LABEL@) == Some(PRIMARY_ROLE@),
                        },
                    )
                } else {
                    None
                }
            },
        },
    }
}

/// The member pods of a list of pods, in order.
pub open spec fn member_pods(pods: Seq<PodFacts>) -> Seq<MaintenancePodView>
    decreases pods.len(),
{
    if pods.len() == 0 {
        Seq::empty()
    } else {
        let rest = member_pods(pods.drop_last());
        match member_pod(pods.last()) {
            Some(m) => rest.push(m),
            None => rest,
        }
    }
}

/// Looks a key up in a label list.
pub fn lookup_label(labels: &Vec<(String, String)>, key: &String) -> (r: Option<String>)
    ensures
        opt_str(r) == label_value(labels@, key@),
{
    let mut i: usize = 0;
    assert(labels@.subrange(0, labels.len() as int) =~= labels@);
    while i < labels.len()
        invariant
            i <= labels.len(),
            label_value(labels@, key@) == label_value(
                labels@.subrange(i as int, labels.len() as int),
                key@,
            ),
        decreases labels.len() - i,
    {
        let ghost rest = labels@.subrange(i as int, labels.len() as int);
        assert(rest[0] == labels@[i as int]);
        if labels[i].0 == *key {
            return Some(labels[i].1.clone());
        }
        assert(rest.drop_first() =~= labels@.subrange(i + 1, labels.len() as int));
        i = i + 1;
    }
    None
}

/// Reads the maintenance view of one pod, or `None` when the pod is not a
/// replica-set member or lacks identity metadata.
pub fn pod_to_maintenance_pod(pod: &PodFacts) -> (r: Option<MaintenancePod>)
    requires
        pod.labels_form_map(),
    ensures
        match r {
            Some(m) => member_pod(*pod) == Some(m@),
            None => member_pod(*pod) is None,
        },
{
    let labels = match &pod.labels {
        Some(l) => l,
        None => return None,
    };
    let set_key = String::from_str(SET_LABEL);
    let set_name = match lookup_label(labels, &set_key) {
        Some(s) => s,
        None => return None,
    };
    let namespace = match &pod.namespace {
        Some(n) => n.clone(),
        None => return None,
    };
    let name = match &pod.name {
        Some(n) => n.clone(),
        None => return None,
    };
    let uid = match &pod.uid {
        Some(u) => u.clone(),
        None => return None,
    };
    let role_key = String::from_str(ROLE_LABEL);
    let primary = String::from_str(PRIMARY_ROLE);
    let is_primary = match lookup_label(labels, &role_key) {
        Some(role) => role == primary,
        None => false,
    };
    let node_name = match &pod.node_name {
        Some(n) => Some(n.clone()),
        None => None,
    };
    Some(MaintenancePod { namespace, name, uid, node_name, set_name, is_primary })
}

/// Keeps the replica-set members of a pod list, in order.
pub fn maintenance_pods(pods: &Vec<PodFacts>) -> (r: Vec<MaintenancePod>)
    requires
        forall|i: int| 0 <= i < pods.len() ==> (#[trigger] pods@[i]).labels_form_map(),
    ensures
        r@.map_values(|m: MaintenancePod| m@) == member_pods(pods@),
{
    let mut out: Vec<MaintenancePod> = Vec::new();
    let mut i: usize = 0;
    while i < pods.len()
        invariant
            i <= pods.len(),
            forall|k: int| 0 <= k < pods.len() ==> (#[trigger] pods@[k]).labels_form_map(),
            out@.map_values(|m: MaintenancePod| m@) == member_pods(pods@.subrange(0, i as int)),
        decreases pods.len() - i,
    {
        let ghost before = out@.map_values(|m: MaintenancePod| m@);
        let ghost prefix = pods@.subrange(0, i as int + 1);
        assert(prefix.drop_last() =~= pods@.subrange(0, i as int));
        assert(prefix.last() == pods@[i as int]);
        match pod_to_maintenance_pod(&pods[i]) {
            Some(m) => {
                out.push(m);
                assert(out@.map_values(|m: MaintenancePod| m@) =~= before.push(m@));
            },
            None => {},
        }
        i = i + 1;
    }
    assert(pods@.subrange(0, pods.len() as int) =~= pods@);
    out
}

/// What a node lookup against the cluster came back with.
pub enum NodeFetch {
    /// The node exists; its uid as recorded in its metadata.
    Found { uid: Option<String> },
    /// The API server answered with an error status.
    ApiError { code: u16, message: String },
    /// The call failed before or outside the API server.
    Failed { message: String },
}

/// The message reported for a node without a uid.
pub open spec fn missing_uid_message(name: Seq<char>) -> Seq<char> {
    "node "@ + name + " has no uid"@
}

/// Turns a node lookup into the controller's answer: the node (name and uid),
/// no node on a 404, or the error message.
pub fn node_lookup_result(name: &str, fetched: NodeFetch) -> (r: Result<Option<NodeRef>, String>)
    ensures
        match fetched {
            NodeFetch::Found { uid: Some(uid) } => r matches Ok(Some(n)) && n@ == (NodeRefView {
                name: name@,
                uid: uid@,
            }),
            NodeFetch::Found { uid: None } => r matches Err(e) && e@ == missing_uid_message(name@),
            NodeFetch::ApiError { code, message } => if code == 404 {
                r matches Ok(None)
            } else {
                r matches Err(e) && e@ == message@
            },
            NodeFetch::Failed { message } => r matches Err(e) && e@ == message@,
        },
{
    proof {
        reveal_strlit("node ");
        reveal_strlit(" has no uid");
    }
    match fetched {
        NodeFetch::Found { uid } => match uid {
            Some(uid) => Ok(Some(NodeRef { name: String::from_str(name), uid })),
            None => {
                let mut msg = String::from_str("node ");
                msg.append(name);
                msg.append(" has no uid");
                Err(msg)
            },
        },
        NodeFetch::ApiError { code, message } => {
            if code == 404 {
                Ok(None)
            } else {
                Err(message)
            }
        },
        NodeFetch::Failed { message } => Err(message),
    }
}

/// Result of reconciling one request: the status computed and whether it was
/// written back.
pub struct ReconcileOutcome {
    pub status: NodeMaintenanceRequestStatus,
    pub persisted: bool,
}

/// Everything a reconcile of one request is given.
pub struct RequestContext<'a> {
    pub name: &'a str,
    pub spec: &'a NodeMaintenanceRequestSpec,
    pub generation: Option<i64>,
    pub previous: &'a NodeMaintenanceRequestStatus,
    pub now: &'a str,
    pub not_before_reached: bool,
    pub deadline_exceeded: bool,
}

/// Outside work the reconcile run asks its driver to do.
pub enum ReconcileAction {
    /// Look the node up by name.
    FetchNode { node_name: String },
    /// List the pods of all replica sets.
    ListPods,
    /// Run discovery for the request over the node and pods found.
    Discover { node: Option<NodeRef>, pods: Vec<MaintenancePod> },
    /// Write the status to the request's status subresource.
    PatchStatus { name: String, status: NodeMaintenanceRequestStatus },
    /// The run is over with this result.
    Finish { result: Result<ReconcileOutcome, String> },
}

/// What the driver reports back after doing an action.
pub enum ReconcileEvent {
    NodeFetched { node: Result<Option<NodeRef>, String> },
    PodsListed { pods: Result<Vec<MaintenancePod>, String> },
    Discovered { status: NodeMaintenanceRequestStatus },
    StatusPatched { written: Result<(), String> },
}

/// Where a reconcile run stands.
pub enum ReconcileStage {
    AwaitingNode,
    AwaitingPods { node: NodeRef },
    AwaitingDiscovery,
    AwaitingPatch { status: NodeMaintenanceRequestStatus },
    Done,
}

/// One reconcile run of a maintenance request.
pub struct RequestReconciler {
    pub name: String,
    pub previous: NodeMaintenanceRequestStatus,
    pub stage: ReconcileStage,
}

pub enum ActionView {
    FetchNode { node_name: Seq<char> },
    ListPods,
    Discover { node: Option<NodeRefView>, pods: Seq<MaintenancePodView> },
    PatchStatus { name: Seq<char>, status: RequestStatusView },
    Finish { result: Result<(RequestStatusView, bool), Seq<char>> },
}

pub enum EventView {
    NodeFetched { node: Result<Option<NodeRefView>, Seq<char>> },
    PodsListed { pods: Result<Seq<MaintenancePodView>, Seq<char>> },
    Discovered { status: RequestStatusView },
    StatusPatched { written: Result<(), Seq<char>> },
}

pub enum StageView {
    AwaitingNode,
    AwaitingPods { node: NodeRefView },
    AwaitingDiscovery,
    AwaitingPatch { status: RequestStatusView },
    Done,
}

pub struct ReconcilerView {
    pub name: Seq<char>,
    pub previous: RequestStatusView,
    pub stage: StageView,
}

pub open spec fn pods_view(pods: Vec<MaintenancePod>) -> Seq<MaintenancePodView> {
    pods@.map_values(|m: MaintenancePod| m@)
}

impl View for ReconcileOutcome {
    type V = (RequestStatusView, bool);

    open spec fn view(&self) -> (RequestStatusView, bool) {
        (self.status@, self.persisted)
    }
}

impl View for ReconcileAction {
    type V = ActionView;

    open spec fn view(&self) -> ActionView {
        match self {
            ReconcileAction::FetchNode { node_name } => ActionView::FetchNode {
                node_name: node_name@,
            },
            ReconcileAction::ListPods => ActionView::ListPods,
            ReconcileAction::Discover { node, pods } => ActionView::Discover {
                node: match node {
                    Some(n) => Some(n@),
                    None => None,
                },
                pods: pods_view(*pods),
            },
            ReconcileAction::PatchStatus { name, status } => ActionView::PatchStatus {
                name: name@,
                status: status@,
            },
            ReconcileAction::Finish { result } => ActionView::Finish {
                result: match result {
                    Ok(o) => Ok(o@),
                    Err(e) => Err(e@),
                },
            },
        }
    }
}

impl View for ReconcileEvent {
    type V = EventView;

    open spec fn view(&self) -> EventView {
        match self {
            ReconcileEvent::NodeFetched { node } => EventView::NodeFetched {
                node: match node {
                    Ok(Some(n)) => Ok(Some(n@)),
                    Ok(None) => Ok(None),
                    Err(e) => Err(e@),
                },
            },
            ReconcileEvent::PodsListed { pods } => EventView::PodsListed {
                pods: match pods {
                    Ok(p) => Ok(pods_view(*p)),
                    Err(e) => Err(e@),
                },
            },
            ReconcileEvent::Discovered { status } => EventView::Discovered { status: status@ },
            ReconcileEvent::StatusPatched { written } => EventView::StatusPatched {
                written: match written {
                    Ok(_) => Ok(()),
                    Err(e) => Err(e@),
                },
            },
        }
    }
}

impl View for ReconcileStage {
    type V = StageView;

    open spec fn view(&self) -> StageView {
        match self {
            ReconcileStage::AwaitingNode => StageView::AwaitingNode,
            ReconcileStage::AwaitingPods { node } => StageView::AwaitingPods { node: node@ },
            ReconcileStage::AwaitingDiscovery => StageView::AwaitingDiscovery,
            ReconcileStage::AwaitingPatch { status } => StageView::AwaitingPatch {
                status: status@,
            },
            ReconcileStage::Done => StageView::Done,
        }
    }
}

impl View for RequestReconciler {
    type V = ReconcilerView;

    open spec fn view(&self) -> ReconcilerView {
        ReconcilerView { name: self.name@, previous: self.previous@, stage: self.stage@ }
    }
}

impl ReconcilerView {
    /// The event is the answer to the action this run is waiting on.
    pub open spec fn expects(self, event: EventView) -> bool {
        match self.stage {
            StageView::AwaitingNode => event is NodeFetched,
            StageView::AwaitingPods { .. } => event is PodsListed,
            StageView::AwaitingDiscovery => event is Discovered,
            StageView::AwaitingPatch { .. } => event is StatusPatched,
            StageView::Done => false,
        }
    }

    pub open spec fn finish(self, result: Result<(RequestStatusView, bool), Seq<char>>) -> (
        ReconcilerView,
        ActionView,
    ) {
        (ReconcilerView { stage: StageView::Done, ..self }, ActionView::Finish { result })
    }

    /// The transition function of a reconcile run: the next run state and the
    /// action the driver must perform.
    pub open spec fn next(self, event: EventView) -> (ReconcilerView, ActionView) {
        match self.stage {
            StageView::AwaitingNode => match event {
                EventView::NodeFetched { node: result } => match result {
                    Err(e) => self.finish(Err(e)),
                    Ok(Some(node)) => (
                        ReconcilerView { stage: StageView::AwaitingPods { node }, ..self },
                        ActionView::ListPods,
                    ),
                    Ok(None) => (
                        ReconcilerView { stage: StageView::AwaitingDiscovery, ..self },
                        ActionView::Discover { node: None, pods: Seq::empty() },
                    ),
                },
                _ => (self, ActionView::ListPods),
            },
            StageView::AwaitingPods { node } => match event {
                EventView::PodsListed { pods: result } => match result {
                    Err(e) => self.finish(Err(e)),
                    Ok(pods) => (
                        ReconcilerView { stage: StageView::AwaitingDiscovery, ..self },
                        ActionView::Discover { node: Some(node), pods },
                    ),
                },
                _ => (self, ActionView::ListPods),
            },
            StageView::AwaitingDiscovery => match event {
                EventView::Discovered { status } => if status == self.previous {
                    self.finish(Ok((status, false)))
                } else {
                    (
                        ReconcilerView { stage: StageView::AwaitingPatch { status }, ..self },
                        ActionView::PatchStatus { name: self.name, status },
                    )
                },
                _ => (self, ActionView::ListPods),
            },
            StageView::AwaitingPatch { status } => match event {
                EventView::StatusPatched { written: result } => match result {
                    Err(e) => self.finish(Err(e)),
                    Ok(_) => self.finish(Ok((status, true))),
                },
                _ => (self, ActionView::ListPods),
            },
            StageView::Done => (self, ActionView::ListPods),
        }
    }
}

impl RequestReconciler {
    /// Starts a run for a request: the first action is to look its node up.
    pub fn start(ctx: &RequestContext) -> (r: (RequestReconciler, ReconcileAction))
        ensures
            r.0@ == (ReconcilerView {
                name: ctx.name@,
                previous: ctx.previous@,
                stage: StageView::AwaitingNode,
            }),
            r.1@ == (ActionView::FetchNode { node_name: ctx.spec.node_name@ }),
    {
        let run = RequestReconciler {
            name: String::from_str(ctx.name),
            previous: ctx.previous.clone_status(),
            stage: ReconcileStage::AwaitingNode,
        };
        (run, ReconcileAction::FetchNode { node_name: ctx.spec.node_name.clone() })
    }

    /// Feeds the answer to the pending action into the run.
    pub fn step(self, event: ReconcileEvent) -> (r: (RequestReconciler, ReconcileAction))
        requires
            self@.expects(event@),
        ensures
            (r.0@, r.1@) == self@.next(event@),
    {
        let RequestReconciler { name, previous, stage } = self;
        match stage {
            ReconcileStage::AwaitingNode => match event {
                ReconcileEvent::NodeFetched { node: result } => match result {
                    Err(e) => (
                        RequestReconciler { name, previous, stage: ReconcileStage::Done },
                        ReconcileAction::Finish { result: Err(e) },
                    ),
                    Ok(Some(node)) => (
                        RequestReconciler {
                            name,
                            previous,
                            stage: ReconcileStage::AwaitingPods { node },
                        },
                        ReconcileAction::ListPods,
                    ),
                    Ok(None) => {
                        let pods: Vec<MaintenancePod> = Vec::new();
                        proof {
                            assert(pods_view(pods) =~= Seq::<MaintenancePodView>::empty());
                        }
                        (
                            RequestReconciler {
                                name,
                                previous,
                                stage: ReconcileStage::AwaitingDiscovery,
                            },
                            ReconcileAction::Discover { node: None, pods },
                        )
                    },
                },
                _ => {
                    proof {
                        assert(false);
                    }
                    (
                        RequestReconciler { name, previous, stage: ReconcileStage::Done },
                        ReconcileAction::ListPods,
                    )
                },
            },
            ReconcileStage::AwaitingPods { node } => match event {
                ReconcileEvent::PodsListed { pods: result } => match result {
                    Err(e) => (
                        RequestReconciler { name, previous, stage: ReconcileStage::Done },
                        ReconcileAction::Finish { result: Err(e) },
                    ),
                    Ok(pods) => (
                        RequestReconciler {
                            name,
                            previous,
                            stage: ReconcileStage::AwaitingDiscovery,
                        },
                        ReconcileAction::Discover { node: Some(node), pods },
                    ),
                },
                _ => {
                    proof {
                        assert(false);
                    }
                    (
                        RequestReconciler { name, previous, stage: ReconcileStage::Done },
                        ReconcileAction::ListPods,
                    )
                },
            },
            ReconcileStage::AwaitingDiscovery => match event {
                ReconcileEvent::Discovered { status } => {
                    if status.same_as(&previous) {
                        (
                            RequestReconciler { name, previous, stage: ReconcileStage::Done },
                            ReconcileAction::Finish {
                                result: Ok(ReconcileOutcome { status, persisted: false }),
                            },
                        )
                    } else {
                        let target = name.clone();
                        let pending = status.clone_status();
                        (
                            RequestReconciler {
                                name,
                                previous,
                                stage: ReconcileStage::AwaitingPatch { status: pending },
                            },
                            ReconcileAction::PatchStatus { name: target, status },
                        )
                    }
                },
                _ => {
                    proof {
                        assert(false);
                    }
                    (
                        RequestReconciler { name, previous, stage: ReconcileStage::Done },
                        ReconcileAction::ListPods,
                    )
                },
            },
            ReconcileStage::AwaitingPatch { status } => match event {
                ReconcileEvent::StatusPatched { written: result } => match result {
                    Err(e) => (
                        RequestReconciler { name, previous, stage: ReconcileStage::Done },
                        ReconcileAction::Finish { result: Err(e) },
                    ),
                    Ok(_) => (
                        RequestReconciler { name, previous, stage: ReconcileStage::Done },
                        ReconcileAction::Finish {
                            result: Ok(ReconcileOutcome { status, persisted: true }),
                        },
                    ),
                },
                _ => {
                    proof {
                        assert(false);
                    }
                    (
                        RequestReconciler { name, previous, stage: ReconcileStage::Done },
                        ReconcileAction::ListPods,
                    )
                },
            },
            ReconcileStage::Done => {
                proof {
                    assert(false);
                }
                (
                    RequestReconciler { name, previous, stage: ReconcileStage::Done },
                    ReconcileAction::ListPods,
                )
            },
        }
    }
}

/// How far a run has come; every expected event moves it forward.
pub open spec fn stage_rank(stage: StageView) -> nat {
    match stage {
        StageView::AwaitingNode => 0,
        StageView::AwaitingPods { .. } => 1,
        StageView::AwaitingDiscovery => 2,
        StageView::AwaitingPatch { .. } => 3,
        StageView::Done => 4,
    }
}

/// Pods are listed only once the request's node has been found.
pub proof fn lemma_pods_listed_only_for_found_node(run: ReconcilerView, event: EventView)
    requires
        run.expects(event),
        run.next(event).1 is ListPods,
    ensures
        run.stage is AwaitingNode,
        event matches EventView::NodeFetched { node: Ok(Some(node)) } && run.next(event).0.stage
            == (StageView::AwaitingPods { node }),
{
}

/// A missing node goes straight to discovery with no pods, without listing.
pub proof fn lemma_missing_node_skips_listing(run: ReconcilerView)
    requires
        run.stage is AwaitingNode,
    ensures
        run.next(EventView::NodeFetched { node: Ok(None) }).1 == (ActionView::Discover {
            node: None,
            pods: Seq::empty(),
        }),
{
}

/// A discovered status equal to the previous one is reported back unpersisted
/// and never written.
pub proof fn lemma_unchanged_status_is_not_rewritten(run: ReconcilerView, status: RequestStatusView)
    requires
        run.stage is AwaitingDiscovery,
        status == run.previous,
    ensures
        run.next(EventView::Discovered { status }).1 == (ActionView::Finish {
            result: Ok((status, false)),
        }),
        run.next(EventView::Discovered { status }).0.stage is Done,
{
}

/// A discovered status that differs from the previous one is written to the
/// request, and once the write succeeds the run reports it as persisted.
pub proof fn lemma_changed_status_is_persisted(run: ReconcilerView, status: RequestStatusView)
    requires
        run.stage is AwaitingDiscovery,
        status != run.previous,
    ensures
        run.next(EventView::Discovered { status }).1 == (ActionView::PatchStatus {
            name: run.name,
            status,
        }),
        run.next(EventView::Discovered { status }).0.next(
            EventView::StatusPatched { written: Ok(()) },
        ).1 == (ActionView::Finish { result: Ok((status, true)) }),
{
}

/// Every failure the driver reports ends the run with that very error.
pub proof fn lemma_failures_are_reported(run: ReconcilerView, event: EventView, error: Seq<char>)
    requires
        run.expects(event),
        event == (EventView::NodeFetched { node: Err(error) }) || event == (
        EventView::PodsListed { pods: Err(error) }) || event == (EventView::StatusPatched {
            written: Err(error),
        }),
    ensures
        run.next(event).1 == (ActionView::Finish { result: Err(error) }),
        run.next(event).0.stage is Done,
{
}

/// Every expected event moves the run forward, so a run ends after at most
/// four steps; the name and the previous status never change.
pub proof fn lemma_run_progresses(run: ReconcilerView, event: EventView)
    requires
        run.expects(event),
    ensures
        stage_rank(run.next(event).0.stage) > stage_rank(run.stage),
        run.next(event).0.name == run.name,
        run.next(event).0.previous == run.previous,
        run.next(event).0.stage is Done <==> run.next(event).1 is Finish,
{
}

/// Every pod the cluster listed reaches discovery, unchanged and in the order
/// listed, together with the node found; the run then waits for discovery.
pub proof fn lemma_listed_pods_reach_discovery(
    run: ReconcilerView,
    node: NodeRefView,
    listed: Seq<MaintenancePodView>,
)
    requires
        run.stage == (StageView::AwaitingPods { node }),
    ensures
        run.next(EventView::PodsListed { pods: Ok(listed) }).1 == (ActionView::Discover {
            node: Some(node),
            pods: listed,
        }),
        run.next(EventView::PodsListed { pods: Ok(listed) }).0 == (ReconcilerView {
            name: run.name,
            previous: run.previous,
            stage: StageView::AwaitingDiscovery,
        }),
        forall|i: int|
            0 <= i < listed.len() ==> (#[trigger] run.next(
                EventView::PodsListed { pods: Ok(listed) },
            ).1->Discover_pods[i]) == listed[i],
{
}

/// The member pods of two lists one after the other are the member pods of
/// the first followed by those of the second: whether a pod is kept depends
/// on that pod alone.
pub proof fn lemma_member_pods_concat(a: Seq<PodFacts>, b: Seq<PodFacts>)
    ensures
        member_pods(a + b) == member_pods(a) + member_pods(b),
    decreases b.len(),
{
    if b.len() == 0 {
        assert(a + b =~= a);
        assert(member_pods(b) =~= Seq::<MaintenancePodView>::empty());
        assert(member_pods(a) + member_pods(b) =~= member_pods(a));
    } else {
        let b0 = b.drop_last();
        lemma_member_pods_concat(a, b0);
        assert((a + b).drop_last() =~= a + b0);
        assert((a + b).last() == b.last());
        match member_pod(b.last()) {
            Some(m) => {
                assert(member_pods(a) + member_pods(b0).push(m) =~= (member_pods(a) + member_pods(
                    b0,
                )).push(m));
            },
            None => {},
        }
    }
}

/// A single pod yields its member view when it is a member, and nothing otherwise.
pub proof fn lemma_member_pods_single(p: PodFacts)
    ensures
        member_pods(seq![p]) == match member_pod(p) {
            Some(m) => seq![m],
            None => Seq::<MaintenancePodView>::empty(),
        },
{
    assert(seq![p].drop_last() =~= Seq::<PodFacts>::empty());
    assert(member_pods(Seq::<PodFacts>::empty()) =~= Seq::<MaintenancePodView>::empty());
    assert(member_pods(seq![p].drop_last()) =~= Seq::<MaintenancePodView>::empty());
    assert(seq![p].last() == p);
    match member_pod(p) {
        Some(m) => {
            assert(Seq::<MaintenancePodView>::empty().push(m) =~= seq![m]);
        },
        None => {},
    }
}

/// Every member pod of a list is kept: if pod `i` converts to `m`, then `m`
/// is in the result, at the position given by the members listed before it.
pub proof fn lemma_every_member_is_kept(pods: Seq<PodFacts>, i: int)
    requires
        0 <= i < pods.len(),
        member_pod(pods[i]) is Some,
    ensures
        member_pods(pods)[member_pods(pods.subrange(0, i)).len() as int] == member_pod(
            pods[i],
        )->Some_0,
        member_pods(pods).contains(member_pod(pods[i])->Some_0),
{
    let before = pods.subrange(0, i);
    let here = seq![pods[i]];
    let after = pods.subrange(i + 1, pods.len() as int);
    assert(pods =~= before + here + after);
    lemma_member_pods_concat(before + here, after);
    lemma_member_pods_concat(before, here);
    lemma_member_pods_single(pods[i]);
    let k = member_pods(before).len() as int;
    assert(member_pods(pods)[k] == member_pod(pods[i])->Some_0);
}

/// Only member pods are kept, each from some pod of the list, and no more
/// pods come out than went in.
pub proof fn lemma_only_members_are_kept(pods: Seq<PodFacts>)
    ensures
        member_pods(pods).len() <= pods.len(),
        forall|k: int|
            0 <= k < member_pods(pods).len() ==> exists|i: int|
                0 <= i < pods.len() && member_pod(pods[i]) == Some(
                    #[trigger] member_pods(pods)[k],
                ),
    decreases pods.len(),
{
    if pods.len() > 0 {
        let rest = pods.drop_last();
        lemma_only_members_are_kept(rest);
        assert forall|k: int| 0 <= k < member_pods(pods).len() implies exists|i: int|
            0 <= i < pods.len() && member_pod(pods[i]) == Some(
                #[trigger] member_pods(pods)[k],
            ) by {
            if k < member_pods(rest).len() {
                let i = choose|i: int|
                    0 <= i < rest.len() && member_pod(rest[i]) == Some(
                        #[trigger] member_pods(rest)[k],
                    );
                assert(pods[i] == rest[i]);
            } else {
                assert(member_pod(pods[pods.len() - 1]) == Some(member_pods(pods)[k]));
            }
        }
    }
}

} // verus!
