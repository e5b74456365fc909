//! Bounded single-consumer job queue: the slow path of a core that must never
//! block (copies and uploads run behind it).
//!
//! Overflow policy: bounded capacity, `submit` never waits. A full or stopped
//! queue drops the job, counts the loss and keeps going.

use std::collections::VecDeque;

use vstd::prelude::*;

verus! {

/// Bounded queue drained by exactly one worker.
pub struct JobQueue<T> {
    jobs: VecDeque<T>,
    capacity: usize,
    stopped: bool,
    dropped: u64,
    history: Ghost<History<T>>,
}

/// Everything that ever went through a queue.
#[verifier::ext_equal]
pub struct History<T> {
    /// How many jobs were submitted.
    pub submitted: nat,
    /// The jobs that were accepted, in order.
    pub accepted: Seq<T>,
    /// The jobs that the worker took, in order.
    pub taken: Seq<T>,
    /// How many jobs were lost.
    pub lost: nat,
}

/// A count of losses, held at the largest value that the counter can carry.
pub open spec fn reported_losses(lost: nat) -> u64 {
    if lost <= u64::MAX {
        lost as u64
    } else {
        u64::MAX
    }
}

impl<T> JobQueue<T> {
    /// The jobs that wait, in order.
    pub closed spec fn waiting(&self) -> Seq<T> {
        self.jobs@
    }

    /// How many jobs can wait.
    pub closed spec fn limit(&self) -> nat {
        self.capacity as nat
    }

    /// Was the queue stopped?
    pub closed spec fn is_stopped(&self) -> bool {
        self.stopped
    }

    /// Everything that ever went through.
    pub closed spec fn past(&self) -> History<T> {
        self.history@
    }

    /// Nothing vanishes silently: every job that was ever submitted was taken by
    /// the worker, waits, or was counted as lost. Jobs are taken in the order in
    /// which they were accepted, and no more than the limit wait.
    pub closed spec fn wf(&self) -> bool {
        &&& self.jobs@.len() <= self.capacity
        &&& self.stopped ==> self.jobs@.len() == 0
        &&& self.history@.submitted == self.history@.taken.len() + self.jobs@.len()
            + self.history@.lost
        &&& self.history@.taken + self.jobs@ == self.history@.accepted.take(
            (self.history@.taken.len() + self.jobs@.len()) as int,
        )
        &&& self.history@.taken.len() + self.jobs@.len() <= self.history@.accepted.len()
        &&& !self.stopped ==> self.history@.taken.len() + self.jobs@.len()
            == self.history@.accepted.len()
        &&& self.dropped == reported_losses(self.history@.lost)
    }

    /// A queue for at most `capacity` waiting jobs.
    pub fn spawn(capacity: usize) -> (queue: Self)
        requires
            capacity > 0,
        ensures
            queue.wf(),
            queue.waiting() == Seq::<T>::empty(),
            queue.limit() == capacity,
            !queue.is_stopped(),
            queue.past() == (History {
                submitted: 0,
                accepted: Seq::<T>::empty(),
                taken: Seq::empty(),
                lost: 0,
            }),
    {
        let queue = JobQueue {
            jobs: VecDeque::new(),
            capacity,
            stopped: false,
            dropped: 0,
            history: Ghost(
                History { submitted: 0, accepted: Seq::empty(), taken: Seq::empty(), lost: 0 },
            ),
        };
        proof {
            assert(queue.waiting() =~= Seq::<T>::empty());
            assert(queue.history@.taken + queue.jobs@ =~= queue.history@.accepted.take(0));
        }
        queue
    }

    /// Enqueue one job without waiting. `false` = the queue was full or stopped:
    /// the job was dropped and counted.
    pub fn submit(&mut self, job: T) -> (accepted: bool)
        requires
            old(self).wf(),
        ensures
            final(self).wf(),
            final(self).limit() == old(self).limit(),
            final(self).is_stopped() == old(self).is_stopped(),
            accepted == (!old(self).is_stopped() && old(self).waiting().len() < old(self).limit()),
            accepted ==> {
                &&& final(self).waiting() == old(self).waiting().push(job)
                &&& final(self).past() == (History {
                    submitted: old(self).past().submitted + 1,
                    accepted: old(self).past().accepted.push(job),
                    ..old(self).past()
                })
            },
            !accepted ==> {
                &&& final(self).waiting() == old(self).waiting()
                &&& final(self).past() == (History {
                    submitted: old(self).past().submitted + 1,
                    lost: old(self).past().lost + 1,
                    ..old(self).past()
                })
            },
    {
        let ghost past = self.history@;
        let ghost queued = self.jobs@;
        if !self.stopped && self.jobs.len() < self.capacity {
            let ghost added = job;
            self.jobs.push_back(job);
            proof {
                self.history@ = History {
                    submitted: past.submitted + 1,
                    accepted: past.accepted.push(added),
                    ..past
                };
                let grown = past.accepted.push(added);
                assert(past.accepted.take(past.accepted.len() as int) =~= past.accepted);
                assert(self.history@.taken + self.jobs@ =~= (past.taken + queued).push(added));
                assert(grown.take(grown.len() as int) =~= grown);
            }
            true
        } else {
            self.count_losses(1);
            proof {
                self.history@ = History {
                    submitted: past.submitted + 1,
                    lost: past.lost + 1,
                    ..past
                };
            }
            false
        }
    }

    /// The next job for the worker, if one waits.
    pub fn take(&mut self) -> (job: Option<T>)
        requires
            old(self).wf(),
        ensures
            final(self).wf(),
            final(self).limit() == old(self).limit(),
            final(self).is_stopped() == old(self).is_stopped(),
            match job {
                Some(job) => {
                    &&& old(self).waiting().len() > 0
                    &&& job == old(self).waiting()[0]
                    &&& final(self).waiting() == old(self).waiting().skip(1)
                    &&& final(self).past() == (History {
                        taken: old(self).past().taken.push(job),
                        ..old(self).past()
                    })
                },
                None => {
                    &&& old(self).waiting().len() == 0
                    &&& final(self).waiting() == old(self).waiting()
                    &&& final(self).past() == old(self).past()
                },
            },
    {
        let ghost past = self.history@;
        let ghost queued = self.jobs@;
        let job = self.jobs.pop_front();
        proof {
            if job is Some {
                let first = queued[0];
                self.history@ = History { taken: past.taken.push(first), ..past };
                assert(past.taken.push(first) + queued.skip(1) =~= past.taken + queued);
                assert(self.jobs@ =~= queued.skip(1));
            }
        }
        job
    }

    /// Stop the queue (idempotent): waiting jobs are abandoned and counted.
    pub fn stop(&mut self)
        requires
            old(self).wf(),
        ensures
            final(self).wf(),
            final(self).limit() == old(self).limit(),
            final(self).is_stopped(),
            final(self).waiting() == Seq::<T>::empty(),
            final(self).past() == (History {
                lost: old(self).past().lost + old(self).waiting().len(),
                ..old(self).past()
            }),
    {
        let ghost past = self.history@;
        let ghost queued = self.jobs@;
        let abandoned: usize = self.jobs.len();
        self.count_losses(abandoned as u64);
        self.jobs.clear();
        self.stopped = true;
        proof {
            self.history@ = History { lost: past.lost + queued.len(), ..past };
            let kept = past.taken.len() as int;
            assert(self.history@.taken + self.jobs@ =~= past.taken);
            assert(past.accepted.take(kept) =~= past.taken) by {
                let all = past.taken + queued;
                assert(past.accepted.take((past.taken.len() + queued.len()) as int).take(kept)
                    =~= past.accepted.take(kept));
                assert(all.take(kept) =~= past.taken);
            }
        }
    }

    /// Jobs dropped for overflow or shutdown.
    pub fn dropped_count(&self) -> (count: u64)
        requires
            self.wf(),
        ensures
            count == reported_losses(self.past().lost),
    {
        self.dropped
    }

    fn count_losses(&mut self, losses: u64)
        ensures
            final(self).jobs == old(self).jobs,
            final(self).capacity == old(self).capacity,
            final(self).stopped == old(self).stopped,
            final(self).history == old(self).history,
            final(self).dropped == reported_losses((old(self).dropped + losses) as nat),
    {
        self.dropped = if losses > u64::MAX - self.dropped {
            u64::MAX
        } else {
            self.dropped + losses
        };
    }

    /// What well-formedness says of the past: the accounting, and first in,
    /// first out.
    pub proof fn law_every_job_is_accounted_for(&self)
        requires
            self.wf(),
        ensures
            self.past().submitted == self.past().taken.len() + self.waiting().len()
                + self.past().lost,
            self.past().taken.len() <= self.past().accepted.len(),
            self.past().taken == self.past().accepted.take(self.past().taken.len() as int),
            self.waiting().len() <= self.limit(),
    {
        let kept = self.history@.taken.len() as int;
        let all = self.history@.taken + self.jobs@;
        assert(all.take(kept) =~= self.history@.taken);
        assert(self.history@.accepted.take(
            (self.history@.taken.len() + self.jobs@.len()) as int,
        ).take(kept) =~= self.history@.accepted.take(kept));
    }
}

} // verus!
