//! The per-job state machine: states, validity, and the transition
//! relation that the job store enforces on every update.
use vstd::prelude::*;

use crate::error::ErrorKind;

verus! {

/// One job's position in the download -> convert -> tag pipeline.
///
/// `Downloading` carries the byte counts seen so far; `total` stays
/// `None` until the stream reports its length. `Error` is terminal and
/// carries the classification plus the preserved collaborator message.
#[derive(Clone, Debug, PartialEq, Eq)]
pub enum JobState {
    Queued,
    Claimed,
    Downloading { received: u64, total: Option<u64> },
    Converting,
    Done,
    Error { kind: ErrorKind, message: String },
}

/// Terminal states are sticky: once reached, a job never changes again.
pub open spec fn is_terminal(s: JobState) -> bool {
    s is Done || s is Error
}

/// A job counts against the concurrency limit from the moment a worker
/// claims it until it reaches a terminal state.
pub open spec fn is_in_flight(s: JobState) -> bool {
    s is Claimed || s is Downloading || s is Converting
}

/// Internal consistency of a single state: once the total is known, the
/// received byte count never exceeds it.
pub open spec fn state_valid(s: JobState) -> bool {
    match s {
        JobState::Downloading { received, total } => match total {
            Some(t) => received <= t,
            None => true,
        },
        _ => true,
    }
}

/// The transitions a pipeline executor may write through the store.
///
/// `Queued -> Claimed` is deliberately absent: claiming is the store's
/// own atomic operation, so an update can never raise the in-flight
/// count. Repeated `Downloading` observations must be monotone in
/// `received`, and a known `total` is sticky.
pub open spec fn update_allowed(from: JobState, to: JobState) -> bool {
    match (from, to) {
        (JobState::Claimed, JobState::Downloading { received, total }) => received == 0
            && state_valid(to),
        (JobState::Claimed, JobState::Error { .. }) => true,
        (
            JobState::Downloading { received: r1, total: t1 },
            JobState::Downloading { received: r2, total: t2 },
        ) => r1 <= r2 && state_valid(to) && (t1 is Some ==> t2 == t1),
        (JobState::Downloading { .. }, JobState::Converting) => true,
        (JobState::Downloading { .. }, JobState::Error { .. }) => true,
        (JobState::Converting, JobState::Done) => true,
        (JobState::Converting, JobState::Error { .. }) => true,
        _ => false,
    }
}

/// Law: terminal states are write-once. No transition at all leaves
/// `Done` or `Error`, so a second update on a finished job is rejected.
pub proof fn lemma_terminal_write_once(from: JobState)
    requires
        is_terminal(from),
    ensures
        forall|to: JobState| !update_allowed(from, to),
{
}

/// Law: between two consecutive `Downloading` observations permitted by
/// the state machine, `received` is non-decreasing, and it stays within
/// the total once the total is known.
pub proof fn lemma_downloading_monotone(from: JobState, to: JobState)
    requires
        update_allowed(from, to),
        from is Downloading,
        to is Downloading,
    ensures
        from->Downloading_received <= to->Downloading_received,
        to->Downloading_total matches Some(t) ==> to->Downloading_received <= t,
        from->Downloading_total matches Some(t) ==> to->Downloading_total == Some(t),
{
}

/// Law: every permitted transition starts from an in-flight state and
/// never raises the number of in-flight jobs: the target is either
/// in-flight itself or terminal, and a `Queued` job cannot be moved by
/// an update at all.
pub proof fn lemma_update_from_in_flight(from: JobState, to: JobState)
    requires
        update_allowed(from, to),
    ensures
        is_in_flight(from),
        is_in_flight(to) || is_terminal(to),
{
}

/// Runtime check mirroring `update_allowed`, used by the store's
/// defensive update path.
pub fn transition_ok(from: &JobState, to: &JobState) -> (r: bool)
    ensures
        r == update_allowed(*from, *to),
{
    match (from, to) {
        (JobState::Claimed, JobState::Downloading { received, total }) => {
            *received == 0 && (match total {
                Some(t) => *received <= *t,
                None => true,
            })
        },
        (JobState::Claimed, JobState::Error { .. }) => true,
        (
            JobState::Downloading { received: r1, total: t1 },
            JobState::Downloading { received: r2, total: t2 },
        ) => {
            *r1 <= *r2 && (match t2 {
                Some(t) => *r2 <= *t,
                None => true,
            }) && (match t1 {
                Some(t) => match t2 {
                    Some(u) => *u == *t,
                    None => false,
                },
                None => true,
            })
        },
        (JobState::Downloading { .. }, JobState::Converting) => true,
        (JobState::Downloading { .. }, JobState::Error { .. }) => true,
        (JobState::Converting, JobState::Done) => true,
        (JobState::Converting, JobState::Error { .. }) => true,
        _ => false,
    }
}

/// Exact copy of a state, with the copy provably equal to its source.
/// (The derived `Clone` says nothing to the verifier, so the snapshot
/// path uses this instead.)
pub fn clone_state(s: &JobState) -> (r: JobState)
    ensures
        r == *s,
{
    match s {
        JobState::Queued => JobState::Queued,
        JobState::Claimed => JobState::Claimed,
        JobState::Downloading { received, total } => JobState::Downloading {
            received: *received,
            total: match total {
                Some(t) => Some(*t),
                None => None,
            },
        },
        JobState::Converting => JobState::Converting,
        JobState::Done => JobState::Done,
        JobState::Error { kind, message } => JobState::Error {
            kind: *kind,
            message: message.clone(),
        },
    }
}

} // verus!
