//! The primary replicator's event loop as a state machine: it receives
//! demotion, build and catch-up requests, asks its driver to read progress
//! and to copy state to new replicas, answers each request, and remembers up
//! to which sequence number every replica was built.
use crate::replication::{Lsn, ReplicaId};
use std::collections::HashMap;
use vstd::prelude::*;

verus! {

/// A request delivered to the primary's loop.
#[derive(Debug, Clone, Copy, PartialEq, Eq, Structural)]
pub enum PrimaryRequest {
    /// Stop acting as primary.
    DemoteToSecondary,
    /// Copy state to the replica with this id.
    BuildReplica { replica: ReplicaId },
    /// Bring the replica set's quorum up to date.
    CatchUpQuorum,
}

/// What the driver reports back to the loop.
pub enum LoopEvent {
    /// A request arrived on the loop's channel.
    Arrived { request: PrimaryRequest },
    /// The channel is closed: no request will come.
    Closed,
    /// The state provider's last committed sequence number, or the error reading it.
    ProgressRead { progress: Result<Lsn, String> },
    /// The copy of state to the replica ended.
    BuildFinished { outcome: Result<(), String> },
}

/// Outside work the loop asks of its driver.
pub enum LoopAction {
    /// Wait for the next request.
    Receive,
    /// Read the last committed sequence number.
    ReadProgress,
    /// Copy the state up to `up_to_lsn` to the replica.
    Build { replica: ReplicaId, up_to_lsn: Lsn },
    /// Answer the request being served, then wait for the next one.
    Reply { answer: Result<(), String> },
    /// Leave the loop: answer the request being served if `last_answer` is
    /// set, and end with `result`.
    Exit { last_answer: Option<Result<(), String>>, result: Result<(), String> },
}

/// Where the loop stands.
#[derive(Debug, Clone, Copy, PartialEq, Eq, Structural)]
pub enum PrimaryStage {
    Idle,
    ProgressForBuild { replica: ReplicaId },
    Building { replica: ReplicaId, up_to_lsn: Lsn },
    ProgressForCatchUp,
    Stopped,
}

/// The primary's loop state.
pub struct PrimaryLoop {
    built_replicas: HashMap<ReplicaId, Lsn>,
    stage: PrimaryStage,
}

pub enum LoopEventView {
    Arrived { request: PrimaryRequest },
    Closed,
    ProgressRead { progress: Result<Lsn, Seq<char>> },
    BuildFinished { outcome: Result<(), Seq<char>> },
}

pub enum LoopActionView {
    Receive,
    ReadProgress,
    Build { replica: ReplicaId, up_to_lsn: Lsn },
    Reply { answer: Result<(), Seq<char>> },
    Exit { last_answer: Option<Result<(), Seq<char>>>, result: Result<(), Seq<char>> },
}

pub struct PrimaryLoopView {
    /// For each replica built, the sequence number it was built up to.
    pub built_replicas: Map<ReplicaId, Lsn>,
    pub stage: PrimaryStage,
}

pub open spec fn unit_result_view(r: Result<(), String>) -> Result<(), Seq<char>> {
    match r {
        Ok(_) => Ok(()),
        Err(e) => Err(e@),
    }
}

impl View for LoopEvent {
    type V = LoopEventView;

    open spec fn view(&self) -> LoopEventView {
        match self {
            LoopEvent::Arrived { request } => LoopEventView::Arrived { request: *request },
            LoopEvent::Closed => LoopEventView::Closed,
            LoopEvent::ProgressRead { progress } => LoopEventView::ProgressRead {
                progress: match progress {
                    Ok(l) => Ok(*l),
                    Err(e) => Err(e@),
                },
            },
            LoopEvent::BuildFinished { outcome } => LoopEventView::BuildFinished {
                outcome: unit_result_view(*outcome),
            },
        }
    }
}

impl View for LoopAction {
    type V = LoopActionView;

    open spec fn view(&self) -> LoopActionView {
        match self {
            LoopAction::Receive => LoopActionView::Receive,
            LoopAction::ReadProgress => LoopActionView::ReadProgress,
            LoopAction::Build { replica, up_to_lsn } => LoopActionView::Build {
                replica: *replica,
                up_to_lsn: *up_to_lsn,
            },
            LoopAction::Reply { answer } => LoopActionView::Reply {
                answer: unit_result_view(*answer),
            },
            LoopAction::Exit { last_answer, result } => LoopActionView::Exit {
                last_answer: match last_answer {
                    Some(a) => Some(unit_result_view(*a)),
                    None => None,
                },
                result: unit_result_view(*result),
            },
        }
    }
}

impl View for PrimaryLoop {
    type V = PrimaryLoopView;

    closed spec fn view(&self) -> PrimaryLoopView {
        PrimaryLoopView { built_replicas: self.built_replicas@, stage: self.stage }
    }
}

impl PrimaryLoopView {
    /// The event answers the work the loop is waiting on.
    pub open spec fn expects(self, event: LoopEventView) -> bool {
        match self.stage {
            PrimaryStage::Idle => event is Arrived || event is Closed,
            PrimaryStage::ProgressForBuild { .. } => event is ProgressRead,
            PrimaryStage::Building { .. } => event is BuildFinished,
            PrimaryStage::ProgressForCatchUp => event is ProgressRead,
            PrimaryStage::Stopped => false,
        }
    }

    pub open spec fn with_stage(self, stage: PrimaryStage) -> PrimaryLoopView {
        PrimaryLoopView { stage, ..self }
    }

    /// The loop's transition function.
    pub open spec fn next(self, event: LoopEventView) -> (PrimaryLoopView, LoopActionView) {
        match self.stage {
            PrimaryStage::Idle => match event {
                LoopEventView::Arrived { request } => match request {
                    PrimaryRequest::DemoteToSecondary => (
                        self.with_stage(PrimaryStage::Stopped),
                        LoopActionView::Exit { last_answer: Some(Ok(())), result: Ok(()) },
                    ),
                    PrimaryRequest::BuildReplica { replica } => (
                        self.with_stage(PrimaryStage::ProgressForBuild { replica }),
                        LoopActionView::ReadProgress,
                    ),
                    PrimaryRequest::CatchUpQuorum => (
                        self.with_stage(PrimaryStage::ProgressForCatchUp),
                        LoopActionView::ReadProgress,
                    ),
                },
                _ => (
                    self.with_stage(PrimaryStage::Stopped),
                    LoopActionView::Exit { last_answer: None, result: Ok(()) },
                ),
            },
            PrimaryStage::ProgressForBuild { replica } => match event {
                LoopEventView::ProgressRead { progress: Ok(lsn) } => (
                    self.with_stage(PrimaryStage::Building { replica, up_to_lsn: lsn }),
                    LoopActionView::Build { replica, up_to_lsn: lsn },
                ),
                LoopEventView::ProgressRead { progress: Err(e) } => (
                    self.with_stage(PrimaryStage::Stopped),
                    LoopActionView::Exit { last_answer: None, result: Err(e) },
                ),
                _ => (self, LoopActionView::Receive),
            },
            PrimaryStage::Building { replica, up_to_lsn } => match event {
                LoopEventView::BuildFinished { outcome: Ok(_) } => (
                    PrimaryLoopView {
                        built_replicas: self.built_replicas.insert(replica, up_to_lsn),
                        stage: PrimaryStage::Idle,
                    },
                    LoopActionView::Reply { answer: Ok(()) },
                ),
                LoopEventView::BuildFinished { outcome: Err(e) } => (
                    self.with_stage(PrimaryStage::Idle),
                    LoopActionView::Reply { answer: Err(e) },
                ),
                _ => (self, LoopActionView::Receive),
            },
            PrimaryStage::ProgressForCatchUp => match event {
                LoopEventView::ProgressRead { progress: Ok(_) } => (
                    self.with_stage(PrimaryStage::Idle),
                    LoopActionView::Reply { answer: Ok(()) },
                ),
                LoopEventView::ProgressRead { progress: Err(e) } => (
                    self.with_stage(PrimaryStage::Stopped),
                    LoopActionView::Exit { last_answer: None, result: Err(e) },
                ),
                _ => (self, LoopActionView::Receive),
            },
            PrimaryStage::Stopped => (self, LoopActionView::Receive),
        }
    }
}

impl PrimaryLoop {
    /// A loop that has built no replica and waits for its first request.
    pub fn new() -> (r: (PrimaryLoop, LoopAction))
        ensures
            r.0@ == (PrimaryLoopView {
                built_replicas: Map::empty(),
                stage: PrimaryStage::Idle,
            }),
            r.1@ == LoopActionView::Receive,
    {
        (PrimaryLoop { built_replicas: HashMap::new(), stage: PrimaryStage::Idle }, LoopAction::Receive)
    }

    /// Makes the loop wait for requests again after it stopped, keeping the
    /// record of built replicas.
    pub fn restart(&mut self)
        ensures
            final(self)@ == (PrimaryLoopView {
                built_replicas: old(self)@.built_replicas,
                stage: PrimaryStage::Idle,
            }),
    {
        self.stage = PrimaryStage::Idle;
    }

    /// The sequence number a replica was built up to, if it was built.
    pub fn built_up_to(&self, replica: ReplicaId) -> (r: Option<Lsn>)
        ensures
            r == (if self@.built_replicas.contains_key(replica) {
                Some(self@.built_replicas[replica])
            } else {
                None
            }),
    {
        match self.built_replicas.get(&replica) {
            Some(l) => Some(*l),
            None => None,
        }
    }

    /// Feeds the answer to the pending work into the loop.
    pub fn step(&mut self, event: LoopEvent) -> (r: LoopAction)
        requires
            old(self)@.expects(event@),
        ensures
            (final(self)@, r@) == old(self)@.next(event@),
    {
        match self.stage {
            PrimaryStage::Idle => match event {
                LoopEvent::Arrived { request } => match request {
                    PrimaryRequest::DemoteToSecondary => {
                        self.stage = PrimaryStage::Stopped;
                        LoopAction::Exit { last_answer: Some(Ok(())), result: Ok(()) }
                    },
                    PrimaryRequest::BuildReplica { replica } => {
                        self.stage = PrimaryStage::ProgressForBuild { replica };
                        LoopAction::ReadProgress
                    },
                    PrimaryRequest::CatchUpQuorum => {
                        self.stage = PrimaryStage::ProgressForCatchUp;
                        LoopAction::ReadProgress
                    },
                },
                _ => {
                    self.stage = PrimaryStage::Stopped;
                    LoopAction::Exit { last_answer: None, result: Ok(()) }
                },
            },
            PrimaryStage::ProgressForBuild { replica } => match event {
                LoopEvent::ProgressRead { progress } => match progress {
                    Ok(lsn) => {
                        self.stage = PrimaryStage::Building { replica, up_to_lsn: lsn };
                        LoopAction::Build { replica, up_to_lsn: lsn }
                    },
                    Err(e) => {
                        self.stage = PrimaryStage::Stopped;
                        LoopAction::Exit { last_answer: None, result: Err(e) }
                    },
                },
                _ => LoopAction::Receive,
            },
            PrimaryStage::Building { replica, up_to_lsn } => match event {
                LoopEvent::BuildFinished { outcome } => match outcome {
                    Ok(_) => {
                        self.built_replicas.insert(replica, up_to_lsn);
                        self.stage = PrimaryStage::Idle;
                        LoopAction::Reply { answer: Ok(()) }
                    },
                    Err(e) => {
                        self.stage = PrimaryStage::Idle;
                        LoopAction::Reply { answer: Err(e) }
                    },
                },
                _ => LoopAction::Receive,
            },
            PrimaryStage::ProgressForCatchUp => match event {
                LoopEvent::ProgressRead { progress } => match progress {
                    Ok(_) => {
                        self.stage = PrimaryStage::Idle;
                        LoopAction::Reply { answer: Ok(()) }
                    },
                    Err(e) => {
                        self.stage = PrimaryStage::Stopped;
                        LoopAction::Exit { last_answer: None, result: Err(e) }
                    },
                },
                _ => LoopAction::Receive,
            },
            PrimaryStage::Stopped => LoopAction::Receive,
        }
    }
}

/// The record of built replicas changes only when a build succeeds, and then
/// it records that replica as built up to the progress read for that build.
pub proof fn lemma_built_replicas_record_successful_builds(
    state: PrimaryLoopView,
    event: LoopEventView,
)
    requires
        state.expects(event),
    ensures
        match (state.stage, event) {
            (
                PrimaryStage::Building { replica, up_to_lsn },
                LoopEventView::BuildFinished { outcome: Ok(_) },
            ) => state.next(event).0.built_replicas == state.built_replicas.insert(
                replica,
                up_to_lsn,
            ),
            _ => state.next(event).0.built_replicas == state.built_replicas,
        },
{
}

/// A build copies state up to exactly the progress read when the build request
/// was served.
pub proof fn lemma_build_uses_current_progress(replica: ReplicaId, lsn: Lsn, state: PrimaryLoopView)
    requires
        state.stage == (PrimaryStage::ProgressForBuild { replica }),
    ensures
        state.next(LoopEventView::ProgressRead { progress: Ok(lsn) }).1 == (
        LoopActionView::Build { replica, up_to_lsn: lsn }),
{
}

/// A failed build is answered with its error and the loop goes on serving.
pub proof fn lemma_failed_build_is_answered(state: PrimaryLoopView, e: Seq<char>)
    requires
        state.stage is Building,
    ensures
        state.next(LoopEventView::BuildFinished { outcome: Err(e) }).1 == (
        LoopActionView::Reply { answer: Err(e) }),
        state.next(LoopEventView::BuildFinished { outcome: Err(e) }).0.stage
            == PrimaryStage::Idle,
{
}

/// Demotion is acknowledged and ends the loop successfully.
pub proof fn lemma_demotion_ends_loop(state: PrimaryLoopView)
    requires
        state.stage == PrimaryStage::Idle,
    ensures
        state.next(LoopEventView::Arrived { request: PrimaryRequest::DemoteToSecondary }) == (
        state.with_stage(PrimaryStage::Stopped),
        LoopActionView::Exit { last_answer: Some(Ok(())), result: Ok(()) },
        ),
{
}

/// Failing to read progress ends the loop with that error, unanswered.
pub proof fn lemma_progress_failure_ends_loop(state: PrimaryLoopView, e: Seq<char>)
    requires
        state.expects(LoopEventView::ProgressRead { progress: Err(e) }),
    ensures
        state.next(LoopEventView::ProgressRead { progress: Err(e) }).1 == (
        LoopActionView::Exit { last_answer: None, result: Err(e) }),
{
}

/// An answer always returns the loop to waiting for the next request, the
/// loop stops exactly when it exits, and it only returns to waiting by
/// answering.
pub proof fn lemma_answers_return_to_idle(state: PrimaryLoopView, event: LoopEventView)
    requires
        state.expects(event),
    ensures
        state.next(event).1 is Reply ==> state.next(event).0.stage == PrimaryStage::Idle,
        state.next(event).1 is Exit <==> state.next(event).0.stage == PrimaryStage::Stopped,
        state.next(event).0.stage == PrimaryStage::Idle ==> state.next(event).1 is Reply,
{
}

/// A build request is always served by reading the current progress first,
/// whatever the record of built replicas holds: a replica built before is
/// built again.
pub proof fn lemma_build_request_reads_progress(state: PrimaryLoopView, replica: ReplicaId)
    requires
        state.stage == PrimaryStage::Idle,
    ensures
        state.next(LoopEventView::Arrived { request: PrimaryRequest::BuildReplica { replica } })
            == (PrimaryLoopView {
            built_replicas: state.built_replicas,
            stage: PrimaryStage::ProgressForBuild { replica },
        }, LoopActionView::ReadProgress),
{
}

/// Serving a build request to the end: after the progress `lsn` is read, the
/// state up to `lsn` is copied to the replica, and once the copy succeeds the
/// request is answered and the replica is recorded as built up to `lsn`,
/// replacing any earlier record; every other replica's record is unchanged.
pub proof fn lemma_build_round_trip(state: PrimaryLoopView, replica: ReplicaId, lsn: Lsn)
    requires
        state.stage == PrimaryStage::Idle,
    ensures
        ({
            let s1 = state.next(
                LoopEventView::Arrived { request: PrimaryRequest::BuildReplica { replica } },
            ).0;
            let r2 = s1.next(LoopEventView::ProgressRead { progress: Ok(lsn) });
            let r3 = r2.0.next(LoopEventView::BuildFinished { outcome: Ok(()) });
            &&& r2.1 == (LoopActionView::Build { replica, up_to_lsn: lsn })
            &&& r3.1 == (LoopActionView::Reply { answer: Ok(()) })
            &&& r3.0.stage == PrimaryStage::Idle
            &&& r3.0.built_replicas.contains_key(replica)
            &&& r3.0.built_replicas[replica] == lsn
            &&& forall|other: ReplicaId|
                other != replica ==> (#[trigger] r3.0.built_replicas.contains_key(other)
                    == state.built_replicas.contains_key(other) && (state.built_replicas.contains_key(
                    other,
                ) ==> r3.0.built_replicas[other] == state.built_replicas[other]))
        }),
{
}

} // verus!
