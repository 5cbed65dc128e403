//! The job store: the single authoritative collection of jobs for a run.
//!
//! It guarantees one job per distinct track id, serves as the only
//! mutation point for job state, enforces the state machine on every
//! update, and hands out immutable snapshots for the monitor.
use vstd::prelude::*;

use crate::error::{EnqueueError, UpdateError};
use crate::state::{
    clone_state, is_terminal, state_valid, transition_ok, update_allowed, JobState,
};

verus! {

/// A track reference ready for enqueueing: the catalog id plus the
/// display metadata known at resolution time.
#[derive(Clone, Debug, PartialEq, Eq)]
pub struct TrackRef {
    pub track_id: String,
    pub title: String,
    pub author: String,
}

/// One track's unit of work.
#[derive(Clone, Debug, PartialEq, Eq)]
pub struct Job {
    pub track_id: String,
    pub title: String,
    pub author: String,
    pub state: JobState,
}

/// An immutable copy of one job's display-relevant fields, as returned
/// by `snapshot` for the monitor.
#[derive(Clone, Debug, PartialEq, Eq)]
pub struct JobView {
    pub track_id: String,
    pub title: String,
    pub author: String,
    pub state: JobState,
}

/// What a snapshot reports of a given job.
pub open spec fn view_of(j: Job) -> JobView {
    JobView { track_id: j.track_id, title: j.title, author: j.author, state: j.state }
}

pub struct JobStore {
    jobs: Vec<Job>,
}

impl View for JobStore {
    type V = Seq<Job>;

    closed spec fn view(&self) -> Seq<Job> {
        self.jobs@
    }
}

impl JobStore {
    /// Store invariant: track ids are pairwise distinct, and every
    /// job's state is internally consistent.
    pub open spec fn wf(&self) -> bool {
        &&& forall|i: int, j: int|
            0 <= i < j < self@.len() ==> self@[i].track_id@ != self@[j].track_id@
        &&& forall|i: int| 0 <= i < self@.len() ==> state_valid(#[trigger] self@[i].state)
    }

    /// Whether some job (in any state, terminal or not) carries the id.
    pub open spec fn has_track(&self, id: Seq<char>) -> bool {
        exists|i: int| 0 <= i < self@.len() && #[trigger] self@[i].track_id@ == id
    }

    pub fn new() -> (s: JobStore)
        ensures
            s@ =~= Seq::<Job>::empty(),
            s.wf(),
    {
        JobStore { jobs: Vec::new() }
    }

    pub fn len(&self) -> (n: usize)
        ensures
            n == self@.len(),
    {
        self.jobs.len()
    }

    /// Adds a job in state `Queued`, unless the track id is already
    /// tracked: a duplicate is rejected whatever state the existing job
    /// is in, which keeps the one-job-per-id invariant.
    pub fn enqueue(&mut self, t: TrackRef) -> (r: Result<(), EnqueueError>)
        requires
            old(self).wf(),
        ensures
            final(self).wf(),
            r is Err <==> old(self).has_track(t.track_id@),
            r is Err ==> final(self)@ == old(self)@ && r == Result::<(), EnqueueError>::Err(
                EnqueueError::DuplicateJob,
            ),
            r is Ok ==> final(self)@ =~= old(self)@.push(
                Job {
                    track_id: t.track_id,
                    title: t.title,
                    author: t.author,
                    state: JobState::Queued,
                },
            ),
            r is Ok ==> final(self).has_track(t.track_id@),
    {
        let ghost tid = t.track_id@;
        let n = self.jobs.len();
        let mut i: usize = 0;
        while i < n
            invariant
                self@ == old(self)@,
                old(self).wf(),
                tid == t.track_id@,
                n == self.jobs@.len(),
                i <= n,
                forall|k: int| 0 <= k < i ==> self.jobs@[k].track_id@ != tid,
            decreases n - i,
        {
            let same = self.jobs[i].track_id.eq(&t.track_id);
            if same {
                return Err(EnqueueError::DuplicateJob);
            }
            i += 1;
        }
        let job = Job {
            track_id: t.track_id,
            title: t.title,
            author: t.author,
            state: JobState::Queued,
        };
        self.jobs.push(job);
        proof {
            assert(self@[old(self)@.len() as int].track_id@ == tid);
        }
        Ok(())
    }

    /// Entry point for direct single-track submission: enqueues the id
    /// with empty display metadata.
    pub fn enqueue_track(&mut self, track_id: String) -> (r: Result<(), EnqueueError>)
        requires
            old(self).wf(),
        ensures
            final(self).wf(),
            r is Err <==> old(self).has_track(track_id@),
            r is Err ==> final(self)@ == old(self)@ && r == Result::<(), EnqueueError>::Err(
                EnqueueError::DuplicateJob,
            ),
            r is Ok ==> final(self)@.len() == old(self)@.len() + 1 && final(self)@.last().track_id@
                == track_id@ && final(self)@.last().state is Queued && final(self)@.subrange(
                0,
                old(self)@.len() as int,
            ) =~= old(self)@,
            r is Ok ==> final(self).has_track(track_id@),
    {
        let t = TrackRef { track_id, title: String::new(), author: String::new() };
        self.enqueue(t)
    }

    /// Atomically selects the first `Queued` job, moves it to `Claimed`
    /// and returns its handle; returns `None`, leaving the store
    /// untouched, when no `Queued` job exists.
    pub fn claim_next(&mut self) -> (r: Option<usize>)
        requires
            old(self).wf(),
        ensures
            final(self).wf(),
            r is None ==> final(self)@ == old(self)@ && forall|i: int|
                0 <= i < old(self)@.len() ==> !(#[trigger] old(self)@[i].state is Queued),
            r matches Some(h) ==> {
                &&& h < old(self)@.len()
                &&& old(self)@[h as int].state is Queued
                &&& final(self)@ =~= old(self)@.update(
                    h as int,
                    Job { state: JobState::Claimed, ..old(self)@[h as int] },
                )
            },
    {
        let n = self.jobs.len();
        let mut i: usize = 0;
        while i < n
            invariant
                self@ == old(self)@,
                old(self).wf(),
                n == self.jobs@.len(),
                i <= n,
                forall|k: int| 0 <= k < i ==> !(#[trigger] self.jobs@[k].state is Queued),
            decreases n - i,
        {
            let queued = match &self.jobs[i].state {
                JobState::Queued => true,
                _ => false,
            };
            if queued {
                let old_job = self.jobs.remove(i);
                let claimed = Job { state: JobState::Claimed, ..old_job };
                self.jobs.insert(i, claimed);
                proof {
                    assert(self@ =~= old(self)@.update(
                        i as int,
                        Job { state: JobState::Claimed, ..old(self)@[i as int] },
                    ));
                }
                return Some(i);
            }
            i += 1;
        }
        None
    }

    /// Writes a new state for the job at `h`, rejecting any transition
    /// the state machine does not permit (including any write to a job
    /// already in a terminal state).
    pub fn update(&mut self, h: usize, new_state: JobState) -> (r: Result<(), UpdateError>)
        requires
            old(self).wf(),
            h < old(self)@.len(),
        ensures
            final(self).wf(),
            r is Ok <==> update_allowed(old(self)@[h as int].state, new_state),
            r is Ok ==> final(self)@ =~= old(self)@.update(
                h as int,
                Job { state: new_state, ..old(self)@[h as int] },
            ),
            r is Err ==> final(self)@ == old(self)@ && r == Result::<(), UpdateError>::Err(
                UpdateError::InvalidTransition,
            ),
    {
        let ok = transition_ok(&self.jobs[h].state, &new_state);
        if !ok {
            return Err(UpdateError::InvalidTransition);
        }
        let old_job = self.jobs.remove(h);
        let updated = Job { state: new_state, ..old_job };
        self.jobs.insert(h, updated);
        proof {
            assert(self@ =~= old(self)@.update(
                h as int,
                Job { state: new_state, ..old(self)@[h as int] },
            ));
        }
        Ok(())
    }

    /// An immutable copy of every job's display-relevant fields; per-job
    /// snapshot isolation for the monitor.
    pub fn snapshot(&self) -> (v: Vec<JobView>)
        ensures
            v@.len() == self@.len(),
            forall|i: int| 0 <= i < v@.len() ==> v@[i] == view_of(#[trigger] self@[i]),
    {
        let n = self.jobs.len();
        let mut out: Vec<JobView> = Vec::new();
        let mut i: usize = 0;
        while i < n
            invariant
                n == self.jobs@.len(),
                i <= n,
                out@.len() == i,
                forall|k: int| 0 <= k < i ==> out@[k] == view_of(#[trigger] self.jobs@[k]),
            decreases n - i,
        {
            let j = &self.jobs[i];
            let view = JobView {
                track_id: j.track_id.clone(),
                title: j.title.clone(),
                author: j.author.clone(),
                state: clone_state(&j.state),
            };
            out.push(view);
            i += 1;
        }
        out
    }

    /// Read-only access to one job's current state.
    pub fn state_of(&self, h: usize) -> (s: &JobState)
        requires
            h < self@.len(),
        ensures
            *s == self@[h as int].state,
    {
        &self.jobs[h].state
    }

    /// True when no job is actionable any more: the run is complete
    /// exactly when every job has reached `Done` or `Error`.
    pub fn all_terminal(&self) -> (r: bool)
        ensures
            r == forall|i: int| 0 <= i < self@.len() ==> is_terminal(#[trigger] self@[i].state),
    {
        let n = self.jobs.len();
        let mut i: usize = 0;
        while i < n
            invariant
                n == self.jobs@.len(),
                i <= n,
                forall|k: int| 0 <= k < i ==> is_terminal(#[trigger] self.jobs@[k].state),
            decreases n - i,
        {
            let terminal = match &self.jobs[i].state {
                JobState::Done => true,
                JobState::Error { .. } => true,
                _ => false,
            };
            if !terminal {
                return false;
            }
            i += 1;
        }
        true
    }

    /// True when the job at `h` has reached `Done` or `Error`.
    pub fn is_job_terminal(&self, h: usize) -> (r: bool)
        requires
            h < self@.len(),
        ensures
            r == is_terminal(self@[h as int].state),
    {
        match &self.jobs[h].state {
            JobState::Done => true,
            JobState::Error { .. } => true,
            _ => false,
        }
    }
}

/// Law: an update leaves every track id in place, so the set of ids the
/// store reports present is stable under job-state writes; together with
/// `enqueue`'s contract this makes duplicate rejection permanent for the
/// whole run.
pub proof fn lemma_presence_stable_under_update(pre: JobStore, post: JobStore, h: int, ns: JobState)
    requires
        0 <= h < pre@.len(),
        post@ =~= pre@.update(h, Job { state: ns, ..pre@[h] }),
    ensures
        forall|id: Seq<char>| pre.has_track(id) <==> post.has_track(id),
{
    assert forall|id: Seq<char>| pre.has_track(id) implies post.has_track(id) by {
        let i = choose|i: int| 0 <= i < pre@.len() && pre@[i].track_id@ == id;
        assert(post@[i].track_id@ == id);
    }
    assert forall|id: Seq<char>| post.has_track(id) implies pre.has_track(id) by {
        let i = choose|i: int| 0 <= i < post@.len() && post@[i].track_id@ == id;
        assert(pre@[i].track_id@ == id);
    }
}

} // verus!
