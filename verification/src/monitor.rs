//! The read-only monitor: classifies a snapshot of the job store into
//! aggregate buckets, estimates remaining time from integer progress
//! units, and keeps a bounded rolling log of display events.
use vstd::prelude::*;

use crate::error::ErrorKind;
use crate::state::JobState;
use crate::store::JobView;

verus! {

/// Display bucket of one job's state. A skip-classified error counts as
/// `Skipped`, never as `Failed`, even though it occupies the same
/// terminal slot in the state machine.
#[derive(Clone, Copy, Debug, PartialEq, Eq, Structural)]
pub enum Bucket {
    Waiting,
    Downloading,
    Postprocessing,
    Done,
    Skipped,
    Failed,
}

pub open spec fn bucket_of(s: JobState) -> Bucket {
    match s {
        JobState::Queued => Bucket::Waiting,
        JobState::Claimed => Bucket::Waiting,
        JobState::Downloading { .. } => Bucket::Downloading,
        JobState::Converting => Bucket::Postprocessing,
        JobState::Done => Bucket::Done,
        JobState::Error { kind, .. } => if kind is AlreadyDownloaded {
            Bucket::Skipped
        } else {
            Bucket::Failed
        },
    }
}

/// How many jobs of the snapshot fall in bucket `b`.
pub open spec fn count_bucket(s: Seq<JobView>, b: Bucket) -> nat
    decreases s.len(),
{
    if s.len() == 0 {
        0
    } else {
        count_bucket(s.drop_last(), b) + if bucket_of(s.last().state) == b {
            1nat
        } else {
            0nat
        }
    }
}

proof fn lemma_count_bucket_take_step(s: Seq<JobView>, i: int, b: Bucket)
    requires
        0 <= i < s.len(),
    ensures
        count_bucket(s.take(i + 1), b) == count_bucket(s.take(i), b) + if bucket_of(s[i].state)
            == b {
            1nat
        } else {
            0nat
        },
{
    assert(s.take(i + 1).drop_last() =~= s.take(i));
    assert(s.take(i + 1).last() == s[i]);
}

/// Aggregate counts over one snapshot, as shown in the final report:
/// waiting (`Queued` + `Claimed`), downloading, postprocessing, done,
/// skipped (`Error(AlreadyDownloaded)`) and failed (other errors).
#[derive(Clone, Copy, Debug, PartialEq, Eq, Structural)]
pub struct RunSummary {
    pub waiting: usize,
    pub downloading: usize,
    pub postprocessing: usize,
    pub done: usize,
    pub skipped: usize,
    pub failed: usize,
}

pub fn bucket_of_state(s: &JobState) -> (b: Bucket)
    ensures
        b == bucket_of(*s),
{
    match s {
        JobState::Queued => Bucket::Waiting,
        JobState::Claimed => Bucket::Waiting,
        JobState::Downloading { .. } => Bucket::Downloading,
        JobState::Converting => Bucket::Postprocessing,
        JobState::Done => Bucket::Done,
        JobState::Error { kind, .. } => match kind {
            ErrorKind::AlreadyDownloaded => Bucket::Skipped,
            _ => Bucket::Failed,
        },
    }
}

/// Derives the aggregate counts from a snapshot; purely a read, never a
/// mutation of any job.
pub fn summarize(snapshot: &Vec<JobView>) -> (r: RunSummary)
    ensures
        r.waiting == count_bucket(snapshot@, Bucket::Waiting),
        r.downloading == count_bucket(snapshot@, Bucket::Downloading),
        r.postprocessing == count_bucket(snapshot@, Bucket::Postprocessing),
        r.done == count_bucket(snapshot@, Bucket::Done),
        r.skipped == count_bucket(snapshot@, Bucket::Skipped),
        r.failed == count_bucket(snapshot@, Bucket::Failed),
{
    let n = snapshot.len();
    let mut r = RunSummary {
        waiting: 0,
        downloading: 0,
        postprocessing: 0,
        done: 0,
        skipped: 0,
        failed: 0,
    };
    let mut i: usize = 0;
    while i < n
        invariant
            n == snapshot@.len(),
            i <= n,
            r.waiting == count_bucket(snapshot@.take(i as int), Bucket::Waiting),
            r.downloading == count_bucket(snapshot@.take(i as int), Bucket::Downloading),
            r.postprocessing == count_bucket(snapshot@.take(i as int), Bucket::Postprocessing),
            r.done == count_bucket(snapshot@.take(i as int), Bucket::Done),
            r.skipped == count_bucket(snapshot@.take(i as int), Bucket::Skipped),
            r.failed == count_bucket(snapshot@.take(i as int), Bucket::Failed),
            r.waiting <= i && r.downloading <= i && r.postprocessing <= i && r.done <= i
                && r.skipped <= i && r.failed <= i,
        decreases n - i,
    {
        proof {
            lemma_count_bucket_take_step(snapshot@, i as int, Bucket::Waiting);
            lemma_count_bucket_take_step(snapshot@, i as int, Bucket::Downloading);
            lemma_count_bucket_take_step(snapshot@, i as int, Bucket::Postprocessing);
            lemma_count_bucket_take_step(snapshot@, i as int, Bucket::Done);
            lemma_count_bucket_take_step(snapshot@, i as int, Bucket::Skipped);
            lemma_count_bucket_take_step(snapshot@, i as int, Bucket::Failed);
        }
        let b = bucket_of_state(&snapshot[i].state);
        match b {
            Bucket::Waiting => r.waiting += 1,
            Bucket::Downloading => r.downloading += 1,
            Bucket::Postprocessing => r.postprocessing += 1,
            Bucket::Done => r.done += 1,
            Bucket::Skipped => r.skipped += 1,
            Bucket::Failed => r.failed += 1,
        }
        i += 1;
    }
    proof {
        assert(snapshot@.take(n as int) =~= snapshot@);
    }
    r
}

/// One job's progress in milli-units (0..=1000). An unknown total counts
/// as no measurable progress; a zero-byte total counts as complete.
pub open spec fn spec_progress_milli(s: JobState) -> int {
    match s {
        JobState::Downloading { received, total } => match total {
            Some(t) => if t == 0 {
                1000
            } else {
                received * 1000 / (t as int)
            },
            None => 0,
        },
        _ => 0,
    }
}

/// Completed milli-units of one job, as the time estimate weighs them:
/// terminal failures and successes count in full, a skip counts not at
/// all (it consumed no pipeline time), and a downloading job counts its
/// byte fraction.
pub open spec fn spec_completed_milli(s: JobState) -> int {
    match s {
        JobState::Done => 1000,
        JobState::Error { kind, .. } => if kind is AlreadyDownloaded {
            0
        } else {
            1000
        },
        JobState::Downloading { .. } => spec_progress_milli(s),
        _ => 0,
    }
}

/// Remaining milli-units of one job: what waiting and downloading jobs
/// still owe.
pub open spec fn spec_remaining_milli(s: JobState) -> int {
    match s {
        JobState::Queued => 1000,
        JobState::Claimed => 1000,
        JobState::Downloading { .. } => 1000 - spec_progress_milli(s),
        _ => 0,
    }
}

pub open spec fn sum_completed(s: Seq<JobView>) -> int
    decreases s.len(),
{
    if s.len() == 0 {
        0
    } else {
        sum_completed(s.drop_last()) + spec_completed_milli(s.last().state)
    }
}

pub open spec fn sum_remaining(s: Seq<JobView>) -> int
    decreases s.len(),
{
    if s.len() == 0 {
        0
    } else {
        sum_remaining(s.drop_last()) + spec_remaining_milli(s.last().state)
    }
}

proof fn lemma_progress_milli_bounds(s: JobState)
    requires
        crate::state::state_valid(s),
    ensures
        0 <= spec_progress_milli(s) <= 1000,
        0 <= spec_completed_milli(s) <= 1000,
        0 <= spec_remaining_milli(s) <= 1000,
{
    match s {
        JobState::Downloading { received, total } => match total {
            Some(t) => {
                if t != 0 {
                    assert(received * 1000 <= t * 1000) by (nonlinear_arith)
                        requires
                            received <= t,
                    ;
                    assert(received * 1000 / (t as int) <= 1000) by (nonlinear_arith)
                        requires
                            received * 1000 <= t * 1000 && t > 0,
                    ;
                    assert(received * 1000 / (t as int) >= 0) by (nonlinear_arith)
                        requires
                            received >= 0 && t > 0,
                    ;
                }
            },
            None => {},
        },
        _ => {},
    }
}

proof fn lemma_sums_bounded(s: Seq<JobView>)
    requires
        forall|i: int| 0 <= i < s.len() ==> crate::state::state_valid(#[trigger] s[i].state),
    ensures
        0 <= sum_completed(s) <= 1000 * s.len(),
        0 <= sum_remaining(s) <= 1000 * s.len(),
    decreases s.len(),
{
    if s.len() > 0 {
        assert(forall|i: int|
            0 <= i < s.drop_last().len() ==> crate::state::state_valid(
                #[trigger] s.drop_last()[i].state,
            ));
        lemma_sums_bounded(s.drop_last());
        assert(s.last() == s[s.len() - 1]);
        lemma_progress_milli_bounds(s.last().state);
    }
}

proof fn lemma_sum_take_step(s: Seq<JobView>, i: int)
    requires
        0 <= i < s.len(),
    ensures
        sum_completed(s.take(i + 1)) == sum_completed(s.take(i)) + spec_completed_milli(s[i].state),
        sum_remaining(s.take(i + 1)) == sum_remaining(s.take(i)) + spec_remaining_milli(s[i].state),
{
    assert(s.take(i + 1).drop_last() =~= s.take(i));
    assert(s.take(i + 1).last() == s[i]);
}

/// Sums the completed and remaining milli-units of a snapshot; the two
/// operands of the time estimate. Valid states only (`received` within a
/// known `total`), which every store snapshot satisfies.
pub fn aggregate_progress(snapshot: &Vec<JobView>) -> (r: (u64, u64))
    requires
        1000 * snapshot@.len() <= u64::MAX,
        forall|i: int|
            0 <= i < snapshot@.len() ==> crate::state::state_valid(
                #[trigger] snapshot@[i].state,
            ),
    ensures
        r.0 == sum_completed(snapshot@),
        r.1 == sum_remaining(snapshot@),
{
    let n = snapshot.len();
    let mut completed: u64 = 0;
    let mut remaining: u64 = 0;
    let mut i: usize = 0;
    while i < n
        invariant
            n == snapshot@.len(),
            1000 * snapshot@.len() <= u64::MAX,
            forall|k: int|
                0 <= k < snapshot@.len() ==> crate::state::state_valid(
                    #[trigger] snapshot@[k].state,
                ),
            i <= n,
            completed == sum_completed(snapshot@.take(i as int)),
            remaining == sum_remaining(snapshot@.take(i as int)),
            completed <= 1000 * i,
            remaining <= 1000 * i,
        decreases n - i,
    {
        proof {
            lemma_sum_take_step(snapshot@, i as int);
            lemma_progress_milli_bounds(snapshot@[i as int].state);
        }
        let p: u64 = match &snapshot[i].state {
            JobState::Downloading { received, total } => match total {
                Some(t) => if *t == 0 {
                    1000
                } else {
                    ((*received as u128 * 1000) / (*t as u128)) as u64
                },
                None => 0,
            },
            _ => 0,
        };
        let c: u64 = match &snapshot[i].state {
            JobState::Done => 1000,
            JobState::Error { kind, .. } => match kind {
                ErrorKind::AlreadyDownloaded => 0,
                _ => 1000,
            },
            JobState::Downloading { .. } => p,
            _ => 0,
        };
        let w: u64 = match &snapshot[i].state {
            JobState::Queued => 1000,
            JobState::Claimed => 1000,
            JobState::Downloading { .. } => 1000 - p,
            _ => 0,
        };
        completed += c;
        remaining += w;
        i += 1;
    }
    proof {
        assert(snapshot@.take(n as int) =~= snapshot@);
    }
    (completed, remaining)
}

/// Estimated remaining time: elapsed time scaled by the ratio of
/// remaining to completed milli-units, saturating at `cap` (also used
/// when nothing measurable has completed yet).
pub fn estimate_remaining(elapsed: u64, completed: u64, remaining: u64, cap: u64) -> (r: u64)
    ensures
        completed == 0 ==> r == cap,
        completed > 0 ==> r == (if elapsed * remaining / (completed as int) <= cap {
            elapsed * remaining / (completed as int)
        } else {
            cap as int
        }),
{
    if completed == 0 {
        return cap;
    }
    proof {
        assert((elapsed as int) * (remaining as int) <= (u64::MAX as int) * (u64::MAX as int))
            by (nonlinear_arith)
            requires
                elapsed <= u64::MAX && remaining <= u64::MAX,
        ;
    }
    let q = (elapsed as u128 * remaining as u128) / (completed as u128);
    if q <= cap as u128 {
        q as u64
    } else {
        cap
    }
}

/// A bounded rolling log of display events: pushing past the bound
/// discards the oldest entry.
pub struct EventLog {
    bound: usize,
    entries: Vec<String>,
}

impl View for EventLog {
    type V = Seq<String>;

    closed spec fn view(&self) -> Seq<String> {
        self.entries@
    }
}

impl EventLog {
    pub closed spec fn spec_bound(&self) -> nat {
        self.bound as nat
    }

    pub open spec fn wf(&self) -> bool {
        self@.len() <= self.spec_bound()
    }

    pub fn new(bound: usize) -> (log: EventLog)
        requires
            bound >= 1,
        ensures
            log@ =~= Seq::<String>::empty(),
            log.spec_bound() == bound,
            log.wf(),
    {
        EventLog { bound, entries: Vec::new() }
    }

    /// Appends the newest event; when the log is full the oldest entry
    /// is discarded.
    pub fn push(&mut self, msg: String)
        requires
            old(self).wf(),
        ensures
            final(self).wf(),
            final(self).spec_bound() == old(self).spec_bound(),
            old(self)@.len() < old(self).spec_bound() ==> final(self)@ =~= old(self)@.push(msg),
            old(self)@.len() == old(self).spec_bound() ==> final(self)@ =~= old(self)@.push(
                msg,
            ).subrange(1, old(self)@.len() + 1 as int),
    {
        self.entries.push(msg);
        if self.entries.len() > self.bound {
            let _ = self.entries.remove(0);
            proof {
                assert(self.entries@ =~= old(self).entries@.push(msg).subrange(
                    1,
                    old(self).entries@.len() + 1 as int,
                ));
            }
        }
    }

    pub fn entries(&self) -> (v: &Vec<String>)
        ensures
            v@ == self@,
    {
        &self.entries
    }
}

} // verus!
