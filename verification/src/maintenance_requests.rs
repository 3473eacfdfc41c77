//! How the operator receives a maintenance request before reconciling it:
//! whether to act at all, which status counts as the previous one, whether
//! the request's time window has opened or its deadline has passed, and when
//! to look at the request again.
use crate::maintenance_status::{fresh_status, opt_str, NodeMaintenanceRequestStatus};
use vstd::prelude::*;

verus! {

/// The instant an RFC 3339 timestamp text denotes, in nanoseconds since the
/// Unix epoch, or `None` when the text is not a timestamp.
pub uninterp spec fn instant_of(text: Seq<char>) -> Option<i128>;

/// Parses `text` with `jiff::Timestamp`'s `FromStr` (reached through
/// `k8s_openapi::jiff`) and reads the timestamp with `Timestamp::as_nanosecond`,
/// which is lossless. The contract claims only that the result is a function
/// of the text alone, named `instant_of`.
#[verifier::external_body]
fn parse_instant(text: &str) -> (r: Option<i128>)
    ensures
        r == instant_of(text@),
{
    text.parse::<k8s_openapi::jiff::Timestamp>().ok().map(|t| t.as_nanosecond())
}

/// A window opening at `at` (if any) has opened at `now`.
pub open spec fn opened_by(now: i128, at: Option<i128>) -> bool {
    match at {
        None => true,
        Some(t) => now >= t,
    }
}

/// A deadline `at` (if any) has passed at `now`.
pub open spec fn passed_by(now: i128, at: Option<i128>) -> bool {
    match at {
        None => false,
        Some(t) => now > t,
    }
}

/// The instant a request's optional timestamp field denotes.
pub open spec fn field_instant(text: Option<Seq<char>>) -> Option<i128> {
    match text {
        None => None,
        Some(t) => instant_of(t),
    }
}

/// Whether the window that opens at `at` has opened at `now`; no opening
/// instant means it is open.
pub fn window_opened(now: i128, at: Option<i128>) -> (r: bool)
    ensures
        r == opened_by(now, at),
{
    match at {
        None => true,
        Some(t) => now >= t,
    }
}

/// Whether the deadline `at` has passed at `now`; no deadline never passes.
pub fn deadline_passed(now: i128, at: Option<i128>) -> (r: bool)
    ensures
        r == passed_by(now, at),
{
    match at {
        None => false,
        Some(t) => now > t,
    }
}

/// The instant of an optional timestamp field; absent and unreadable texts
/// both give `None`.
pub fn read_instant(text: &Option<String>) -> (r: Option<i128>)
    ensures
        r == field_instant(opt_str(*text)),
{
    match text {
        Some(t) => parse_instant(t.as_str()),
        None => None,
    }
}

/// Whether the request's not-before instant has been reached at `now`. A
/// missing or unreadable not-before does not hold the request back.
pub fn not_before_reached(now: i128, not_before: &Option<String>) -> (r: bool)
    ensures
        r == opened_by(now, field_instant(opt_str(*not_before))),
{
    window_opened(now, read_instant(not_before))
}

/// Whether the request's deadline has passed at `now`. A missing or
/// unreadable deadline never passes.
pub fn deadline_exceeded(now: i128, deadline: &Option<String>) -> (r: bool)
    ensures
        r == passed_by(now, field_instant(opt_str(*deadline))),
{
    deadline_passed(now, read_instant(deadline))
}

/// What to do with a request the watcher hands over.
pub enum RequestDisposition {
    /// The request is being deleted: wait for the next change.
    AwaitChange,
    /// Reconcile the request of this name.
    Reconcile { name: String },
    /// The request cannot be reconciled; report this error.
    Reject { message: String },
}

/// Message reported for a request without a name.
pub open spec fn nameless_message() -> Seq<char> {
    "request has no name"@
}

/// Requests being deleted are left alone, nameless ones are rejected, the
/// rest are reconciled under their name.
pub fn request_disposition(being_deleted: bool, name: Option<String>) -> (r: RequestDisposition)
    ensures
        being_deleted ==> r is AwaitChange,
        !being_deleted ==> match name {
            Some(n) => r == (RequestDisposition::Reconcile { name: n }),
            None => r matches RequestDisposition::Reject { message } && message@
                == nameless_message(),
        },
{
    proof {
        reveal_strlit("request has no name");
    }
    if being_deleted {
        return RequestDisposition::AwaitChange;
    }
    match name {
        Some(n) => RequestDisposition::Reconcile { name: n },
        None => RequestDisposition::Reject { message: String::from_str("request has no name") },
    }
}

/// The status a reconcile compares against: the recorded one, or a fresh one
/// for a request that has none yet.
pub fn previous_status(recorded: Option<NodeMaintenanceRequestStatus>) -> (r:
    NodeMaintenanceRequestStatus)
    ensures
        r@ == match recorded {
            Some(s) => s@,
            None => fresh_status(),
        },
{
    match recorded {
        Some(s) => s,
        None => NodeMaintenanceRequestStatus::default(),
    }
}

/// Seconds until a request is looked at again: half a minute after a
/// reconcile that went through, ten seconds after one that failed.
pub fn requeue_seconds(succeeded: bool) -> (r: u64)
    ensures
        r == (if succeeded {
            30u64
        } else {
            10u64
        }),
{
    if succeeded {
        30
    } else {
        10
    }
}

} // verus!
