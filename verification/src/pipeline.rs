//! The pipeline executor's decision core: a pure step function from the
//! job's current state and an observed event to the next state and the
//! next action the surrounding driver must perform.
//!
//! The driver (which owns the actual I/O: the output-path check, the
//! audio stream, the converter) performs one action, reports the outcome
//! as a `PipelineEvent`, and writes the resulting transition through the
//! job store via `advance`.
use vstd::prelude::*;

use crate::error::{ErrorKind, UpdateError};
use crate::state::{is_in_flight, state_valid, update_allowed, JobState};
use crate::store::{Job, JobStore};

verus! {

/// What the driver observed while performing the previous action.
#[derive(Clone, Debug, PartialEq, Eq)]
pub enum PipelineEvent {
    /// Result of the idempotent-skip pre-check on the expected output path.
    OutputChecked { exists: bool },
    /// The audio stream opened; its total length may still be unknown.
    StreamOpened { total: Option<u64> },
    /// Opening or reading the stream failed; the message is preserved.
    StreamFailed { message: String },
    /// One bounded chunk was read and persisted.
    ChunkRead { bytes: u64 },
    /// The stream reported end of data.
    StreamFinished,
    /// The conversion/tag collaborator finished.
    ConversionFinished { ok: bool, message: String },
}

/// The next thing the driver must do for this job.
#[derive(Clone, Copy, Debug, PartialEq, Eq, Structural)]
pub enum NextAction {
    /// Check whether the expected output file already exists.
    CheckOutput,
    /// Open the audio stream for this track.
    OpenStream,
    /// Read the next chunk from the open stream.
    ReadChunk,
    /// Hand the accumulated bytes to the conversion/tag collaborator.
    Convert,
    /// The job is terminal; release the worker slot.
    Stop,
}

/// The step function may only be asked about states a worker owns, and
/// a chunk must not push the byte count past the machine limit.
pub open spec fn step_pre(s: JobState, e: PipelineEvent) -> bool {
    &&& is_in_flight(s)
    &&& state_valid(s)
    &&& match (s, e) {
        (JobState::Downloading { received, .. }, PipelineEvent::ChunkRead { bytes }) => received
            + bytes <= u64::MAX,
        _ => true,
    }
}

/// Exact relation between one observed event and the transition it
/// causes, following the state machine table: the skip pre-check
/// short-circuits to `Error(AlreadyDownloaded)`, stream failures classify
/// as `Protocol`, conversion failures as `Conversion`, chunk progress is
/// monotone and clamped to a known total, and any event that makes no
/// sense in the current state classifies as `Unknown`.
pub open spec fn step_post(s: JobState, e: PipelineEvent, ns: JobState, act: NextAction) -> bool {
    match (s, e) {
        (JobState::Claimed, PipelineEvent::OutputChecked { exists }) => if exists {
            &&& ns matches JobState::Error { kind: ErrorKind::AlreadyDownloaded, message }
            &&& message@ == Seq::<char>::empty()
            &&& act is Stop
        } else {
            ns is Claimed && act is OpenStream
        },
        (JobState::Claimed, PipelineEvent::StreamOpened { total }) => {
            &&& ns == (JobState::Downloading { received: 0u64, total })
            &&& act is ReadChunk
        },
        (JobState::Claimed, PipelineEvent::StreamFailed { message }) => {
            &&& ns == (JobState::Error { kind: ErrorKind::Protocol, message })
            &&& act is Stop
        },
        (
            JobState::Downloading { received, total },
            PipelineEvent::ChunkRead { bytes },
        ) => {
            &&& ns matches JobState::Downloading { received: r2, total: t2 }
            &&& t2 == total
            &&& r2 == (match total {
                Some(t) => if received + bytes <= t {
                    received + bytes
                } else {
                    t as int
                },
                None => received + bytes,
            })
            &&& act is ReadChunk
        },
        (JobState::Downloading { .. }, PipelineEvent::StreamFinished) => ns is Converting
            && act is Convert,
        (JobState::Downloading { .. }, PipelineEvent::StreamFailed { message: m }) => {
            &&& ns == (JobState::Error { kind: ErrorKind::Protocol, message: m })
            &&& act is Stop
        },
        (JobState::Converting, PipelineEvent::ConversionFinished { ok, message }) => if ok {
            ns is Done && act is Stop
        } else {
            &&& ns == (JobState::Error { kind: ErrorKind::Conversion, message })
            &&& act is Stop
        },
        _ => {
            &&& ns matches JobState::Error { kind: ErrorKind::Unknown, message }
            &&& message@ == Seq::<char>::empty()
            &&& act is Stop
        },
    }
}

/// Law (idempotent skip): when the pre-check finds the output already on
/// disk, the pipeline goes straight to the skip-classified terminal state
/// and never asks the driver to open the audio stream.
pub proof fn lemma_idempotent_skip(ns: JobState, act: NextAction)
    requires
        step_post(JobState::Claimed, PipelineEvent::OutputChecked { exists: true }, ns, act),
    ensures
        ns matches JobState::Error { kind, .. } && kind == ErrorKind::AlreadyDownloaded,
        act is Stop,
        !(act is OpenStream),
{
}

/// Law: every state the step function produces is either the unchanged
/// source state (nothing to write) or a transition the job store's
/// defensive check accepts, so a driver that writes through `advance`
/// is never rejected.
pub proof fn lemma_step_writes_allowed(s: JobState, e: PipelineEvent, ns: JobState, act: NextAction)
    requires
        step_pre(s, e),
        step_post(s, e, ns, act),
    ensures
        ns == s || update_allowed(s, ns),
{
}

/// Computes the transition for one observed event.
pub fn pipeline_step(s: &JobState, e: PipelineEvent) -> (r: (JobState, NextAction))
    requires
        step_pre(*s, e),
    ensures
        step_post(*s, e, r.0, r.1),
{
    match (s, e) {
        (JobState::Claimed, PipelineEvent::OutputChecked { exists }) => {
            if exists {
                (
                    JobState::Error {
                        kind: ErrorKind::AlreadyDownloaded,
                        message: String::new(),
                    },
                    NextAction::Stop,
                )
            } else {
                (JobState::Claimed, NextAction::OpenStream)
            }
        },
        (JobState::Claimed, PipelineEvent::StreamOpened { total }) => {
            (JobState::Downloading { received: 0, total }, NextAction::ReadChunk)
        },
        (JobState::Claimed, PipelineEvent::StreamFailed { message }) => {
            (JobState::Error { kind: ErrorKind::Protocol, message }, NextAction::Stop)
        },
        (JobState::Downloading { received, total }, PipelineEvent::ChunkRead { bytes }) => {
            let sum = *received + bytes;
            let r2 = match total {
                Some(t) => if sum <= *t {
                    sum
                } else {
                    *t
                },
                None => sum,
            };
            let t2 = match total {
                Some(t) => Some(*t),
                None => None,
            };
            (JobState::Downloading { received: r2, total: t2 }, NextAction::ReadChunk)
        },
        (JobState::Downloading { .. }, PipelineEvent::StreamFinished) => {
            (JobState::Converting, NextAction::Convert)
        },
        (JobState::Downloading { .. }, PipelineEvent::StreamFailed { message }) => {
            (JobState::Error { kind: ErrorKind::Protocol, message }, NextAction::Stop)
        },
        (JobState::Converting, PipelineEvent::ConversionFinished { ok, message }) => {
            if ok {
                (JobState::Done, NextAction::Stop)
            } else {
                (JobState::Error { kind: ErrorKind::Conversion, message }, NextAction::Stop)
            }
        },
        (_, _) => {
            (
                JobState::Error { kind: ErrorKind::Unknown, message: String::new() },
                NextAction::Stop,
            )
        },
    }
}

/// Applies one observed event to the job at `h`: computes the transition
/// and writes it through the store. The store's defensive transition
/// check provably never rejects a state the step function produced.
pub fn advance(store: &mut JobStore, h: usize, e: PipelineEvent) -> (act: NextAction)
    requires
        old(store).wf(),
        h < old(store)@.len(),
        step_pre(old(store)@[h as int].state, e),
    ensures
        final(store).wf(),
        final(store)@.len() == old(store)@.len(),
        step_post(old(store)@[h as int].state, e, final(store)@[h as int].state, act),
        final(store)@ =~= old(store)@.update(
            h as int,
            Job { state: final(store)@[h as int].state, ..old(store)@[h as int] },
        ),
{
    let ghost ev = e;
    let current = crate::state::clone_state(store.state_of(h));
    let (ns, act) = pipeline_step(&current, e);
    proof {
        lemma_step_writes_allowed(old(store)@[h as int].state, ev, ns, act);
    }
    let unchanged = match (&current, &ns) {
        (JobState::Claimed, JobState::Claimed) => true,
        _ => false,
    };
    if unchanged {
        proof {
            assert(store@ =~= old(store)@.update(
                h as int,
                Job { state: old(store)@[h as int].state, ..old(store)@[h as int] },
            ));
        }
        return act;
    }
    let r = store.update(h, ns);
    proof {
        assert(r is Ok);
    }
    act
}

} // verus!
