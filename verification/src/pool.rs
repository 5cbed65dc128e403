//! The worker pool's scheduling core: a bounded-concurrency dispatcher
//! over the job store, with the laws showing that no operation of the
//! engine can push the number of in-flight jobs past the limit.
use vstd::prelude::*;

use crate::state::{is_in_flight, update_allowed, JobState};
use crate::store::{Job, JobStore};

verus! {

/// Number of jobs currently counting against the concurrency limit.
pub open spec fn count_in_flight(s: Seq<Job>) -> nat
    decreases s.len(),
{
    if s.len() == 0 {
        0
    } else {
        count_in_flight(s.drop_last()) + if is_in_flight(s.last().state) {
            1nat
        } else {
            0nat
        }
    }
}

proof fn lemma_count_take_step(s: Seq<Job>, i: int)
    requires
        0 <= i < s.len(),
    ensures
        count_in_flight(s.take(i + 1)) == count_in_flight(s.take(i)) + if is_in_flight(
            s[i].state,
        ) {
            1nat
        } else {
            0nat
        },
{
    assert(s.take(i + 1).drop_last() =~= s.take(i));
    assert(s.take(i + 1).last() == s[i]);
}

/// Law: enqueueing adds a `Queued` job, so it leaves the in-flight count
/// unchanged.
pub proof fn lemma_enqueue_keeps_in_flight(s: Seq<Job>, j: Job)
    requires
        !is_in_flight(j.state),
    ensures
        count_in_flight(s.push(j)) == count_in_flight(s),
{
    assert(s.push(j).drop_last() =~= s);
}

/// Replacing the job at `h` changes the in-flight count exactly by the
/// difference its own state contributes.
pub proof fn lemma_count_update(s: Seq<Job>, h: int, j: Job)
    requires
        0 <= h < s.len(),
    ensures
        count_in_flight(s.update(h, j)) + (if is_in_flight(s[h].state) {
            1nat
        } else {
            0nat
        }) == count_in_flight(s) + (if is_in_flight(j.state) {
            1nat
        } else {
            0nat
        }),
    decreases s.len(),
{
    if h == s.len() - 1 {
        assert(s.update(h, j).drop_last() =~= s.drop_last());
    } else {
        lemma_count_update(s.drop_last(), h, j);
        assert(s.update(h, j).drop_last() =~= s.drop_last().update(h, j));
        assert(s.update(h, j).last() == s.last());
    }
}

/// Law: a state write the state machine permits never raises the
/// in-flight count, so pipeline progress can only keep or lower it.
pub proof fn lemma_update_keeps_bound(s: Seq<Job>, h: int, ns: JobState, n: nat)
    requires
        0 <= h < s.len(),
        update_allowed(s[h].state, ns),
        count_in_flight(s) <= n,
    ensures
        count_in_flight(s.update(h, Job { state: ns, ..s[h] })) <= n,
{
    crate::state::lemma_update_from_in_flight(s[h].state, ns);
    lemma_count_update(s, h, Job { state: ns, ..s[h] });
}

/// The bounded-concurrency scheduler. It owns no jobs itself: it only
/// decides, against the shared store, whether a free worker slot may
/// claim the next `Queued` job.
pub struct WorkerPool {
    pub limit: usize,
}

impl WorkerPool {
    pub fn new(limit: usize) -> (p: WorkerPool)
        requires
            limit >= 1,
        ensures
            p.limit == limit,
    {
        WorkerPool { limit }
    }

    /// Counts the jobs currently in `Claimed`, `Downloading` or
    /// `Converting`.
    pub fn in_flight_count(store: &JobStore) -> (n: usize)
        ensures
            n == count_in_flight(store@),
    {
        let total = store.len();
        let mut n: usize = 0;
        let mut i: usize = 0;
        while i < total
            invariant
                total == store@.len(),
                i <= total,
                n == count_in_flight(store@.take(i as int)),
                n <= i,
            decreases total - i,
        {
            proof {
                lemma_count_take_step(store@, i as int);
            }
            let in_flight = match store.state_of(i) {
                JobState::Claimed => true,
                JobState::Downloading { .. } => true,
                JobState::Converting => true,
                _ => false,
            };
            if in_flight {
                n += 1;
            }
            i += 1;
        }
        proof {
            assert(store@.take(total as int) =~= store@);
        }
        n
    }

    /// Claims the next `Queued` job if a worker slot is free; a `None`
    /// either means the pool is saturated or nothing is waiting. Never
    /// pushes the in-flight count past the limit.
    pub fn try_dispatch(&self, store: &mut JobStore) -> (r: Option<usize>)
        requires
            old(store).wf(),
            count_in_flight(old(store)@) <= self.limit,
        ensures
            final(store).wf(),
            count_in_flight(final(store)@) <= self.limit,
            r matches Some(h) ==> {
                &&& h < old(store)@.len()
                &&& old(store)@[h as int].state is Queued
                &&& final(store)@ =~= old(store)@.update(
                    h as int,
                    Job { state: JobState::Claimed, ..old(store)@[h as int] },
                )
                &&& count_in_flight(final(store)@) == count_in_flight(old(store)@) + 1
            },
            r is None ==> final(store)@ == old(store)@ && (count_in_flight(old(store)@)
                == self.limit || forall|i: int|
                0 <= i < old(store)@.len() ==> !(#[trigger] old(store)@[i].state is Queued)),
    {
        let active = Self::in_flight_count(store);
        if active >= self.limit {
            return None;
        }
        let r = store.claim_next();
        proof {
            match r {
                Some(h) => lemma_count_update(
                    old(store)@,
                    h as int,
                    Job { state: JobState::Claimed, ..old(store)@[h as int] },
                ),
                None => (),
            }
        }
        r
    }
}

} // verus!
