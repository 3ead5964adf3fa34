//! The coordinator's control decisions: worker health from heartbeats and
//! the job's final status. A worker that misses three heartbeat polls in
//! a row is unhealthy; one unhealthy worker fails the whole job, and the
//! job completes once every sink reported the end of its stream and the
//! final checkpoint is acknowledged.
use vstd::prelude::*;

verus! {

/// How many consecutive missed heartbeats mark a worker unhealthy.
pub const MISSED_HEARTBEAT_LIMIT: u8 = 3;

/// How a finished job ended.
#[derive(Clone, Copy, Debug, PartialEq, Eq, Structural)]
pub enum JobStatus {
    Running,
    Completed,
    JobFailure,
}

/// Consecutive missed heartbeat polls, per worker.
#[derive(Clone, Debug)]
pub struct HeartbeatTracker {
    pub missed: Vec<u8>,
}

impl HeartbeatTracker {
    pub open spec fn unhealthy_spec(self, worker: int) -> bool {
        self.missed@[worker] >= MISSED_HEARTBEAT_LIMIT
    }

    pub open spec fn any_unhealthy_spec(self) -> bool {
        exists|w: int| 0 <= w < self.missed@.len() && self.unhealthy_spec(w)
    }

    pub fn new(num_workers: usize) -> (r: HeartbeatTracker)
        ensures
            r.missed@ == Seq::new(num_workers as nat, |w: int| 0u8),
    {
        let mut missed: Vec<u8> = Vec::new();
        let mut i: usize = 0;
        while i < num_workers
            invariant
                i <= num_workers,
                missed@ =~= Seq::new(i as nat, |w: int| 0u8),
            decreases num_workers - i,
        {
            missed.push(0);
            i += 1;
        }
        proof {
            assert(missed@ =~= Seq::new(num_workers as nat, |w: int| 0u8));
        }
        HeartbeatTracker { missed }
    }

    /// A heartbeat arrived: the worker's miss count starts over.
    pub fn on_heartbeat(&mut self, worker: usize)
        requires
            worker < old(self).missed@.len(),
        ensures
            final(self).missed@ == old(self).missed@.update(worker as int, 0u8),
    {
        self.missed.set(worker, 0);
    }

    /// A poll period passed without this worker's heartbeat.
    pub fn on_missed_poll(&mut self, worker: usize)
        requires
            worker < old(self).missed@.len(),
        ensures
            final(self).missed@ == old(self).missed@.update(
                worker as int,
                (if old(self).missed@[worker as int] < u8::MAX {
                    (old(self).missed@[worker as int] + 1) as u8
                } else {
                    old(self).missed@[worker as int]
                }),
            ),
    {
        let count = self.missed[worker];
        if count < u8::MAX {
            self.missed.set(worker, count + 1);
        } else {
            proof {
                assert(self.missed@ =~= old(self).missed@.update(
                    worker as int,
                    old(self).missed@[worker as int],
                ));
            }
        }
    }

    pub fn is_unhealthy(&self, worker: usize) -> (r: bool)
        requires
            worker < self.missed@.len(),
        ensures
            r == self.unhealthy_spec(worker as int),
    {
        self.missed[worker] >= MISSED_HEARTBEAT_LIMIT
    }

    pub fn any_unhealthy(&self) -> (r: bool)
        ensures
            r == self.any_unhealthy_spec(),
    {
        let mut i: usize = 0;
        while i < self.missed.len()
            invariant
                i <= self.missed@.len(),
                forall|w: int| 0 <= w < i ==> !self.unhealthy_spec(w),
            decreases self.missed@.len() - i,
        {
            if self.missed[i] >= MISSED_HEARTBEAT_LIMIT {
                proof {
                    assert(self.unhealthy_spec(i as int));
                }
                return true;
            }
            i += 1;
        }
        false
    }
}

/// The coordinator's decision: an unhealthy worker fails the job; with all
/// workers healthy the job completes once every sink has reported the end
/// of its stream and the final checkpoint is acknowledged; it runs on
/// otherwise.
pub fn job_status(any_unhealthy: bool, all_sinks_ended: bool, final_checkpoint_acked: bool) -> (r: JobStatus)
    ensures
        r == (if any_unhealthy {
            JobStatus::JobFailure
        } else if all_sinks_ended && final_checkpoint_acked {
            JobStatus::Completed
        } else {
            JobStatus::Running
        }),
{
    if any_unhealthy {
        JobStatus::JobFailure
    } else if all_sinks_ended && final_checkpoint_acked {
        JobStatus::Completed
    } else {
        JobStatus::Running
    }
}

} // verus!
