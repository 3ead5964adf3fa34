//! Identifiers of the physical plan: operators, jobs, parallel task
//! instances, edge replicas and checkpoint epochs.
use vstd::prelude::*;

verus! {

/// A logical operator group in the job graph.
#[derive(Clone, Copy, Debug, PartialEq, Eq, Structural, Hash)]
pub struct JobId(pub u32);

/// A logical operator of the stream graph.
#[derive(Clone, Copy, Debug, PartialEq, Eq, Structural, Hash)]
pub struct OperatorId(pub u32);

/// A checkpoint epoch number, assigned by the coordinator and monotone.
#[derive(Clone, Copy, Debug, PartialEq, Eq, Structural, Hash)]
pub struct CheckpointId(pub u64);

/// One parallel task instance: the `task_number`-th of `num_tasks`
/// instances of the job `job_id`.
#[derive(Clone, Copy, Debug, PartialEq, Eq, Structural, Hash)]
pub struct TaskId {
    pub job_id: JobId,
    pub task_number: u16,
    pub num_tasks: u16,
}

/// One upstream-to-downstream edge replica.
#[derive(Clone, Copy, Debug, PartialEq, Eq, Structural, Hash)]
pub struct ChannelKey {
    pub source_task_id: TaskId,
    pub target_task_id: TaskId,
}

impl TaskId {
    pub open spec fn default_spec() -> TaskId {
        TaskId { job_id: JobId(0), task_number: 0, num_tasks: 0 }
    }
}

impl Default for TaskId {
    fn default() -> (r: TaskId)
        ensures
            r == TaskId::default_spec(),
    {
        TaskId { job_id: JobId(0), task_number: 0, num_tasks: 0 }
    }
}

impl ChannelKey {
    pub open spec fn default_spec() -> ChannelKey {
        ChannelKey {
            source_task_id: TaskId::default_spec(),
            target_task_id: TaskId::default_spec(),
        }
    }
}

impl Default for ChannelKey {
    fn default() -> (r: ChannelKey)
        ensures
            r == ChannelKey::default_spec(),
    {
        ChannelKey {
            source_task_id: TaskId { job_id: JobId(0), task_number: 0, num_tasks: 0 },
            target_task_id: TaskId { job_id: JobId(0), task_number: 0, num_tasks: 0 },
        }
    }
}

} // verus!
