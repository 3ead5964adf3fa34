//! The coordinator's authoritative metadata: the flattened execution plan
//! and the per-task descriptors a worker instantiates its tasks from.
use vstd::prelude::*;
use crate::properties::Properties;
use crate::runtime_ids::{CheckpointId, TaskId};

verus! {

/// One parallel task instance's assignment.
#[derive(Debug)]
pub struct TaskDescriptor {
    pub task_id: TaskId,
    pub checkpoint_id: CheckpointId,
    pub checkpoint_handle: Option<String>,
}

impl Clone for TaskDescriptor {
    fn clone(&self) -> (r: TaskDescriptor)
        ensures
            r == *self,
    {
        TaskDescriptor {
            task_id: self.task_id,
            checkpoint_id: self.checkpoint_id,
            checkpoint_handle: match &self.checkpoint_handle {
                Some(h) => Some(h.clone()),
                None => None,
            },
        }
    }
}

/// What the coordinator itself knows of the job.
#[derive(Debug)]
pub struct CoordinatorManagerDescriptor {
    pub application_id: String,
    pub application_properties: Properties,
}

/// The flattened execution plan the coordinator serves to workers.
#[derive(Debug)]
pub struct ApplicationDescriptor {
    pub coordinator_manager: CoordinatorManagerDescriptor,
    pub task_descriptors: Vec<TaskDescriptor>,
}

impl ApplicationDescriptor {
    /// Same plan: the fields carry the same values.
    pub open spec fn equiv(self, other: ApplicationDescriptor) -> bool {
        self.coordinator_manager.application_id@ == other.coordinator_manager.application_id@
            && self.coordinator_manager.application_properties.entries@
            == other.coordinator_manager.application_properties.entries@
            && self.task_descriptors@ == other.task_descriptors@
    }
}

impl Clone for ApplicationDescriptor {
    fn clone(&self) -> (r: ApplicationDescriptor)
        ensures
            r.equiv(*self),
    {
        let mut tasks: Vec<TaskDescriptor> = Vec::new();
        let mut i: usize = 0;
        while i < self.task_descriptors.len()
            invariant
                i <= self.task_descriptors@.len(),
                tasks@ == self.task_descriptors@.take(i as int),
            decreases self.task_descriptors@.len() - i,
        {
            let task = self.task_descriptors[i].clone();
            tasks.push(task);
            proof {
                assert(tasks@ =~= self.task_descriptors@.take(i + 1));
            }
            i += 1;
        }
        proof {
            assert(tasks@ =~= self.task_descriptors@);
        }
        ApplicationDescriptor {
            coordinator_manager: CoordinatorManagerDescriptor {
                application_id: self.coordinator_manager.application_id.clone(),
                application_properties: self.coordinator_manager.application_properties.clone(),
            },
            task_descriptors: tasks,
        }
    }
}

} // verus!
