//! Leader election of the data application: the shared leadership flag, the
//! lease the replicas compete for, and the election loop as a state machine
//! whose lease calls, sleeps and cancellation are done by its driver.
use crate::greeter::{host_or_unknown, pod_name_or_unknown};
use std::sync::atomic::AtomicBool;
use std::sync::atomic::Ordering;
use std::sync::Arc;
use vstd::prelude::*;

verus! {

/// Whether this replica currently holds the lease, shared with the election loop.
#[derive(Clone, Debug)]
pub struct LeaderElection {
    pub is_leader: Arc<AtomicBool>,
}

impl LeaderElection {
    /// A replica starts out not leading.
    pub fn new() -> (r: Self) {
        LeaderElection { is_leader: Arc::new(AtomicBool::new(false)) }
    }

    /// Publishes the leadership decided by the election loop.
    pub fn publish(&self, leading: bool) {
        self.is_leader.store(leading, Ordering::Relaxed);
    }

    /// The leadership last published.
    pub fn leading(&self) -> bool {
        self.is_leader.load(Ordering::Relaxed)
    }
}

impl Default for LeaderElection {
    fn default() -> (r: Self) {
        Self::new()
    }
}

/// Answer to a leadership query.
pub struct IsLeaderReply {
    pub is_leader: bool,
    pub leader_id: String,
}

/// The leadership query service.
#[derive(Clone, Debug)]
pub struct MyLeaderElection {
    leader_state: LeaderElection,
}

impl MyLeaderElection {
    /// The leadership flag this service reports.
    pub closed spec fn flag(&self) -> LeaderElection {
        self.leader_state
    }

    pub fn new(leader_state: LeaderElection) -> (r: Self)
        ensures
            r.flag() == leader_state,
    {
        Self { leader_state }
    }

    /// Answers a leadership query: the published leadership and the pod's
    /// host name (`unknown` when the host name is not set).
    pub fn is_leader(&self, hostname: Option<String>) -> (r: IsLeaderReply)
        ensures
            r.leader_id@ == host_or_unknown(hostname),
    {
        let is_leader = self.leader_state.leading();
        leadership_reply(is_leader, hostname)
    }
}

/// The answer to a leadership query for a flag read as `leading` on the host
/// `hostname`: the leadership is the flag as read, whatever the host name,
/// and the id is the host name (`unknown` when unset).
pub fn leadership_reply(leading: bool, hostname: Option<String>) -> (r: IsLeaderReply)
    ensures
        r.is_leader == leading,
        r.leader_id@ == host_or_unknown(hostname),
{
    let leader_id = pod_name_or_unknown(hostname);
    IsLeaderReply { is_leader: leading, leader_id }
}

/// `str::to_lowercase` of a text: its Unicode lowercase mapping.
pub uninterp spec fn lowercase_of(text: Seq<char>) -> Seq<char>;

/// The ASCII lowercase of a character: `A`..`Z` become `a`..`z`, every other
/// character stays.
pub open spec fn ascii_lower(c: char) -> char {
    if 65 <= (c as u32) && (c as u32) <= 90 {
        ((c as u32) + 32) as char
    } else {
        c
    }
}

/// Every character of the text is ASCII.
pub open spec fn all_ascii(text: Seq<char>) -> bool {
    forall|i: int| 0 <= i < text.len() ==> (#[trigger] text[i] as u32) < 128
}

/// Calls `str::to_lowercase`. The contract claims that the result is a
/// function of the text, named `lowercase_of`, and that on ASCII text it maps
/// `A`..`Z` to `a`..`z` and keeps every other character; of other text it
/// states nothing more.
#[verifier::external_body]
fn to_lowercase(text: &str) -> (r: String)
    ensures
        r@ == lowercase_of(text@),
        all_ascii(text@) ==> r@ == text@.map_values(|c: char| ascii_lower(c)),
{
    text.to_lowercase()
}

/// Namespace of the shared lease.
pub const LEASE_NAMESPACE: &'static str = "xedio";

/// Name of the lease all replicas compete for.
pub const LEASE_NAME: &'static str = "shared-lease-example";

/// How long a lease holds without renewal, in seconds.
pub const LEASE_TTL_SECS: u64 = 15;

/// Pause between two renewal attempts, in seconds.
pub const RENEW_PERIOD_SECS: u64 = 5;

/// The holder id of a replica: a fixed prefix and its random tag in lowercase.
pub open spec fn holder_id_of(tag: Seq<char>) -> Seq<char> {
    "shared-lease-"@ + lowercase_of(tag)
}

/// The lease a replica asks for.
pub struct LeaseRequest {
    pub namespace: String,
    pub holder_id: String,
    pub lease_name: String,
    pub lease_ttl_secs: u64,
}

/// The lease request of a replica whose random tag is `tag`.
pub fn lease_request(tag: &str) -> (r: LeaseRequest)
    ensures
        r.holder_id@ == holder_id_of(tag@),
        all_ascii(tag@) ==> r.holder_id@ == "shared-lease-"@ + tag@.map_values(
            |c: char| ascii_lower(c),
        ),
        r.namespace@ == LEASE_NAMESPACE@,
        r.lease_name@ == LEASE_NAME@,
        r.lease_ttl_secs == LEASE_TTL_SECS,
{
    let mut holder_id = String::from_str("shared-lease-");
    let lower = to_lowercase(tag);
    holder_id.append(lower.as_str());
    proof {
        reveal_strlit("shared-lease-");
    }
    LeaseRequest {
        namespace: String::from_str(LEASE_NAMESPACE),
        holder_id,
        lease_name: String::from_str(LEASE_NAME),
        lease_ttl_secs: LEASE_TTL_SECS,
    }
}

/// Where the election loop stands.
#[derive(Debug, Clone, Copy, PartialEq, Eq, Structural)]
pub enum ElectionPhase {
    /// A renewal attempt is under way.
    Renewing,
    /// Waiting before the next renewal attempt.
    Resting,
    /// Giving the lease up after cancellation.
    SteppingDown,
    /// The loop is over.
    Stopped,
}

/// What the driver reports back.
#[derive(Debug, Clone, Copy, PartialEq, Eq, Structural)]
pub enum ElectionEvent {
    /// The lease call answered; `acquired` tells whether this replica holds it.
    Renewed { acquired: bool },
    /// The lease call failed.
    RenewFailed,
    /// The pause between renewals is over.
    Slept,
    /// Shutdown was requested.
    Cancelled,
    /// The step-down call answered; `ok` tells whether it succeeded.
    SteppedDown { ok: bool },
}

/// Outside work the loop asks for.
#[derive(Debug, Clone, Copy, PartialEq, Eq, Structural)]
pub enum ElectionAction {
    /// Try to acquire or renew the lease, racing cancellation.
    Renew,
    /// Sleep this many seconds, racing cancellation.
    Sleep { secs: u64 },
    /// Give the lease up.
    StepDown,
    /// Leave the loop.
    Stop,
}

/// One decision of the loop: the leadership to publish, if any, and the next
/// outside work.
#[derive(Debug, Clone, Copy, PartialEq, Eq, Structural)]
pub struct ElectionStep {
    pub publish: Option<bool>,
    pub action: ElectionAction,
}

/// The event answers the work the loop is waiting on.
pub open spec fn election_expects(phase: ElectionPhase, event: ElectionEvent) -> bool {
    match phase {
        ElectionPhase::Renewing => event is Renewed || event is RenewFailed || event is Cancelled,
        ElectionPhase::Resting => event is Slept || event is Cancelled,
        ElectionPhase::SteppingDown => event is SteppedDown,
        ElectionPhase::Stopped => false,
    }
}

/// The election loop's transition function.
pub open spec fn election_next(phase: ElectionPhase, event: ElectionEvent) -> (
    ElectionPhase,
    ElectionStep,
) {
    match (phase, event) {
        (ElectionPhase::Renewing, ElectionEvent::Renewed { acquired }) => (
            ElectionPhase::Resting,
            ElectionStep {
                publish: Some(acquired),
                action: ElectionAction::Sleep { secs: RENEW_PERIOD_SECS },
            },
        ),
        (ElectionPhase::Renewing, ElectionEvent::RenewFailed) => (
            ElectionPhase::Resting,
            ElectionStep {
                publish: None,
                action: ElectionAction::Sleep { secs: RENEW_PERIOD_SECS },
            },
        ),
        (ElectionPhase::Resting, ElectionEvent::Slept) => (
            ElectionPhase::Renewing,
            ElectionStep { publish: None, action: ElectionAction::Renew },
        ),
        (ElectionPhase::SteppingDown, ElectionEvent::SteppedDown { ok }) => (
            ElectionPhase::Stopped,
            ElectionStep {
                publish: if ok {
                    Some(false)
                } else {
                    None
                },
                action: ElectionAction::Stop,
            },
        ),
        (_, ElectionEvent::Cancelled) => (
            ElectionPhase::SteppingDown,
            ElectionStep { publish: None, action: ElectionAction::StepDown },
        ),
        _ => (phase, ElectionStep { publish: None, action: ElectionAction::Stop }),
    }
}

/// The loop begins by trying to take the lease.
pub fn election_start() -> (r: (ElectionPhase, ElectionStep))
    ensures
        r == (ElectionPhase::Renewing, ElectionStep { publish: None, action: ElectionAction::Renew }),
{
    (ElectionPhase::Renewing, ElectionStep { publish: None, action: ElectionAction::Renew })
}

/// Decides what follows an event of the election loop.
pub fn election_step(phase: ElectionPhase, event: ElectionEvent) -> (r: (ElectionPhase, ElectionStep))
    requires
        election_expects(phase, event),
    ensures
        r == election_next(phase, event),
{
    match event {
        ElectionEvent::Renewed { acquired } => (
            ElectionPhase::Resting,
            ElectionStep {
                publish: Some(acquired),
                action: ElectionAction::Sleep { secs: RENEW_PERIOD_SECS },
            },
        ),
        ElectionEvent::RenewFailed => (
            ElectionPhase::Resting,
            ElectionStep {
                publish: None,
                action: ElectionAction::Sleep { secs: RENEW_PERIOD_SECS },
            },
        ),
        ElectionEvent::Slept => (
            ElectionPhase::Renewing,
            ElectionStep { publish: None, action: ElectionAction::Renew },
        ),
        ElectionEvent::Cancelled => (
            ElectionPhase::SteppingDown,
            ElectionStep { publish: None, action: ElectionAction::StepDown },
        ),
        ElectionEvent::SteppedDown { ok } => (
            ElectionPhase::Stopped,
            ElectionStep {
                publish: if ok {
                    Some(false)
                } else {
                    None
                },
                action: ElectionAction::Stop,
            },
        ),
    }
}

/// Leadership is only ever published as held right after a lease call that
/// acquired the lease.
pub proof fn lemma_leadership_comes_from_the_lease(phase: ElectionPhase, event: ElectionEvent)
    requires
        election_expects(phase, event),
        election_next(phase, event).1.publish == Some(true),
    ensures
        phase == ElectionPhase::Renewing,
        event == (ElectionEvent::Renewed { acquired: true }),
{
}

/// Cancellation always leads to stepping down, never to another renewal.
pub proof fn lemma_cancellation_steps_down(phase: ElectionPhase)
    requires
        election_expects(phase, ElectionEvent::Cancelled),
    ensures
        election_next(phase, ElectionEvent::Cancelled) == (
            ElectionPhase::SteppingDown,
            ElectionStep { publish: None, action: ElectionAction::StepDown },
        ),
{
}

/// A successful step-down publishes that this replica no longer leads, and
/// the loop stops whether or not the step-down succeeded.
pub proof fn lemma_step_down_clears_leadership(ok: bool)
    ensures
        election_next(ElectionPhase::SteppingDown, ElectionEvent::SteppedDown { ok }).0
            == ElectionPhase::Stopped,
        election_next(ElectionPhase::SteppingDown, ElectionEvent::SteppedDown { ok }).1.action
            == ElectionAction::Stop,
        ok ==> election_next(ElectionPhase::SteppingDown, ElectionEvent::SteppedDown { ok }).1.publish
            == Some(false),
{
}

/// Renewal attempts are separated by a pause of the renew period: every
/// renewal outcome leads to a sleep, and a renewal only follows a sleep.
pub proof fn lemma_renewals_are_paced(phase: ElectionPhase, event: ElectionEvent)
    requires
        election_expects(phase, event),
    ensures
        phase == ElectionPhase::Renewing && event != ElectionEvent::Cancelled ==> election_next(
            phase,
            event,
        ).1.action == (ElectionAction::Sleep { secs: RENEW_PERIOD_SECS }),
        election_next(phase, event).1.action == ElectionAction::Renew ==> phase
            == ElectionPhase::Resting && event == ElectionEvent::Slept,
{
}

/// A failed lease call leaves the published leadership as it was.
pub proof fn lemma_failed_renewal_keeps_leadership(phase: ElectionPhase)
    requires
        phase == ElectionPhase::Renewing,
    ensures
        election_next(phase, ElectionEvent::RenewFailed).1.publish is None,
{
}

/// The phase reached and the leadership last published (if any) after
/// feeding `events`, in order, to a loop that has just started.
pub open spec fn election_run(events: Seq<ElectionEvent>) -> (ElectionPhase, Option<bool>)
    decreases events.len(),
{
    if events.len() == 0 {
        (ElectionPhase::Renewing, None)
    } else {
        let before = election_run(events.drop_last());
        let after = election_next(before.0, events.last());
        (
            after.0,
            match after.1.publish {
                Some(b) => Some(b),
                None => before.1,
            },
        )
    }
}

/// Each event answers the work the loop was waiting on when it came.
pub open spec fn election_accepts(events: Seq<ElectionEvent>) -> bool
    decreases events.len(),
{
    events.len() == 0 || (election_accepts(events.drop_last()) && election_expects(
        election_run(events.drop_last()).0,
        events.last(),
    ))
}

/// Whether the most recent answered lease call acquired the lease, if any
/// lease call has been answered.
pub open spec fn last_lease_outcome(events: Seq<ElectionEvent>) -> Option<bool>
    decreases events.len(),
{
    if events.len() == 0 {
        None
    } else {
        match events.last() {
            ElectionEvent::Renewed { acquired } => Some(acquired),
            _ => last_lease_outcome(events.drop_last()),
        }
    }
}

/// The leadership flag as the loop leaves it, for a flag that starts out false
/// and that nothing else writes.
pub open spec fn published_flag(events: Seq<ElectionEvent>) -> bool {
    match election_run(events).1 {
        Some(b) => b,
        None => false,
    }
}

/// Until the loop steps down, the published leadership is the outcome of the
/// most recent answered lease call (false before any call has succeeded);
/// failed lease calls, pauses and cancellation leave it as it was.
pub proof fn lemma_flag_follows_last_lease(events: Seq<ElectionEvent>)
    requires
        election_accepts(events),
        forall|i: int| 0 <= i < events.len() ==> !(#[trigger] events[i] is SteppedDown),
    ensures
        election_run(events).1 == last_lease_outcome(events),
        published_flag(events) == match last_lease_outcome(events) {
            Some(acquired) => acquired,
            None => false,
        },
    decreases events.len(),
{
    if events.len() > 0 {
        let prefix = events.drop_last();
        assert forall|i: int| 0 <= i < prefix.len() implies !(#[trigger] prefix[i] is SteppedDown) by {
            assert(prefix[i] == events[i]);
        }
        lemma_flag_follows_last_lease(prefix);
        assert(!(events[events.len() - 1] is SteppedDown));
    }
}

/// A successful step-down leaves the flag false and the loop stopped, and no
/// event is accepted after it.
pub proof fn lemma_run_ends_not_leading(events: Seq<ElectionEvent>)
    requires
        election_accepts(events),
        events.len() > 0,
        events.last() == (ElectionEvent::SteppedDown { ok: true }),
    ensures
        !published_flag(events),
        election_run(events).0 == ElectionPhase::Stopped,
        forall|e: ElectionEvent| !election_expects(election_run(events).0, e),
{
}

} // verus!
