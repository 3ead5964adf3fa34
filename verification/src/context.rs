//! What a runnable sees of its surroundings: the graphs, the plan, its own
//! task descriptor and the window timer, with views narrowed to one
//! operator or one checkpoint.
use vstd::prelude::*;
use crate::graph::{channels_from, channels_into, job_children_of, job_parents_of, stream_node_of, DagManager, EdgeKind, JobNode, StreamNode};
use crate::properties::{Properties, PropertyValue};
use crate::runtime::{ApplicationDescriptor, TaskDescriptor};
use crate::runtime_ids::{ChannelKey, CheckpointId, OperatorId, TaskId};

verus! {

/// The worker's shared window trigger clock.
#[derive(Clone, Copy, Debug, PartialEq, Eq, Structural)]
pub struct WindowTimer {
    pub interval_ms: u64,
}

/// What one user function sees when it opens.
#[derive(Debug)]
pub struct FunctionContext {
    pub application_id: String,
    pub application_properties: Properties,
    pub operator_id: OperatorId,
    pub task_id: TaskId,
    pub checkpoint_id: CheckpointId,
    pub checkpoint_handle: Option<String>,
    pub parents: Vec<ChannelKey>,
    pub children: Vec<ChannelKey>,
}

/// Where one snapshot belongs: operator, task and epoch.
#[derive(Clone, Copy, Debug, PartialEq, Eq, Structural)]
pub struct FunctionSnapshotContext {
    pub operator_id: OperatorId,
    pub task_id: TaskId,
    pub checkpoint_id: CheckpointId,
}

impl FunctionSnapshotContext {
    pub fn new(operator_id: OperatorId, task_id: TaskId, checkpoint_id: CheckpointId) -> (r: FunctionSnapshotContext)
        ensures
            r == (FunctionSnapshotContext { operator_id, task_id, checkpoint_id }),
    {
        FunctionSnapshotContext { operator_id, task_id, checkpoint_id }
    }
}

#[derive(Debug)]
pub struct RunnableContext {
    pub dag_manager: DagManager,
    pub application_descriptor: ApplicationDescriptor,
    pub task_descriptor: TaskDescriptor,
    pub window_timer: WindowTimer,
}

impl RunnableContext {
    /// Narrows the context to what one function needs.
    pub fn to_fun_context(&self, operator_id: OperatorId) -> (r: FunctionContext)
        ensures
            r.application_id@ == self.application_descriptor.coordinator_manager.application_id@,
            r.application_properties.entries@
                == self.application_descriptor.coordinator_manager.application_properties.entries@,
            r.operator_id == operator_id,
            r.task_id == self.task_descriptor.task_id,
            r.checkpoint_id == self.task_descriptor.checkpoint_id,
            r.checkpoint_handle == self.task_descriptor.checkpoint_handle,
            r.parents@ == channels_into(
                self.dag_manager.channels@,
                self.task_descriptor.task_id,
            ),
            r.children@ == channels_from(
                self.dag_manager.channels@,
                self.task_descriptor.task_id,
            ),
    {
        let coordinator_manager = &self.application_descriptor.coordinator_manager;
        FunctionContext {
            application_id: coordinator_manager.application_id.clone(),
            application_properties: coordinator_manager.application_properties.clone(),
            operator_id,
            task_id: self.task_descriptor.task_id,
            checkpoint_id: self.task_descriptor.checkpoint_id,
            checkpoint_handle: (match &self.task_descriptor.checkpoint_handle {
                Some(h) => Some(h.clone()),
                None => None,
            }),
            parents: self.dag_manager.get_task_parents(&self.task_descriptor.task_id),
            children: self.dag_manager.get_task_children(&self.task_descriptor.task_id),
        }
    }

    /// Where this operator's snapshot for the given epoch belongs.
    pub fn get_checkpoint_context(&self, operator_id: OperatorId, checkpoint_id: CheckpointId) -> (r: FunctionSnapshotContext)
        ensures
            r == (FunctionSnapshotContext {
                operator_id,
                task_id: self.task_descriptor.task_id,
                checkpoint_id,
            }),
    {
        FunctionSnapshotContext::new(operator_id, self.task_descriptor.task_id, checkpoint_id)
    }

    /// The configured checkpoint period in milliseconds, or the default.
    pub fn get_checkpoint_internal(&self, default_ms: u64) -> (r: u64)
        ensures
            r == (match self.application_descriptor.coordinator_manager.application_properties
                .value_of("checkpoint_interval_ms"@) {
                Some(PropertyValue::Number(n)) => n,
                _ => default_ms,
            }),
    {
        self.application_descriptor.coordinator_manager.application_properties
            .get_checkpoint_internal(default_ms)
    }

    /// The upstream jobs of the running job, with their edge kinds.
    pub fn get_parent_jobs(&self) -> (r: Vec<(JobNode, EdgeKind)>)
        ensures
            r@ == job_parents_of(
                self.dag_manager.job_edges@,
                self.dag_manager.job_nodes@,
                self.task_descriptor.task_id.job_id,
            ),
    {
        self.dag_manager.get_job_parents(self.task_descriptor.task_id.job_id)
    }

    /// The parallelism of each upstream job, in edge order.
    pub fn get_parents_parallelism(&self) -> (r: Vec<u16>)
        ensures
            r@ == job_parents_of(
                self.dag_manager.job_edges@,
                self.dag_manager.job_nodes@,
                self.task_descriptor.task_id.job_id,
            ).map_values(|p: (JobNode, EdgeKind)| p.0.parallelism),
    {
        let parents = self.get_parent_jobs();
        let ghost parents_seq = parents@;
        let mut out: Vec<u16> = Vec::new();
        let mut i: usize = 0;
        while i < parents.len()
            invariant
                i <= parents@.len(),
                parents@ == parents_seq,
                out@ =~= parents_seq.take(i as int).map_values(
                    |p: (JobNode, EdgeKind)| p.0.parallelism,
                ),
            decreases parents@.len() - i,
        {
            out.push(parents[i].0.parallelism);
            proof {
                assert(out@ =~= parents_seq.take(i + 1).map_values(
                    |p: (JobNode, EdgeKind)| p.0.parallelism,
                ));
            }
            i += 1;
        }
        proof {
            assert(parents_seq.take(parents_seq.len() as int) =~= parents_seq);
            assert(out@ =~= parents_seq.map_values(|p: (JobNode, EdgeKind)| p.0.parallelism));
        }
        out
    }

    /// The parallelism of the first upstream job; the task must have one.
    pub fn get_parent_parallelism(&self) -> (r: u16)
        requires
            job_parents_of(
                self.dag_manager.job_edges@,
                self.dag_manager.job_nodes@,
                self.task_descriptor.task_id.job_id,
            ).len() > 0,
        ensures
            r == job_parents_of(
                self.dag_manager.job_edges@,
                self.dag_manager.job_nodes@,
                self.task_descriptor.task_id.job_id,
            )[0].0.parallelism,
    {
        let ps = self.get_parents_parallelism();
        ps[0]
    }

    /// The downstream jobs of the running job, with their edge kinds.
    pub fn get_children_parallelism(&self) -> (r: Vec<u16>)
        ensures
            r@ == job_children_of(
                self.dag_manager.job_edges@,
                self.dag_manager.job_nodes@,
                self.task_descriptor.task_id.job_id,
            ).map_values(|p: (JobNode, EdgeKind)| p.0.parallelism),
    {
        let children = self.dag_manager.get_job_children(self.task_descriptor.task_id.job_id);
        let ghost children_seq = children@;
        let mut out: Vec<u16> = Vec::new();
        let mut i: usize = 0;
        while i < children.len()
            invariant
                i <= children@.len(),
                children@ == children_seq,
                out@ =~= children_seq.take(i as int).map_values(
                    |p: (JobNode, EdgeKind)| p.0.parallelism,
                ),
            decreases children@.len() - i,
        {
            out.push(children[i].0.parallelism);
            proof {
                assert(out@ =~= children_seq.take(i + 1).map_values(
                    |p: (JobNode, EdgeKind)| p.0.parallelism,
                ));
            }
            i += 1;
        }
        proof {
            assert(children_seq.take(children_seq.len() as int) =~= children_seq);
            assert(out@ =~= children_seq.map_values(|p: (JobNode, EdgeKind)| p.0.parallelism));
        }
        out
    }

    /// The parallelism of the first downstream job; the task must have one.
    pub fn get_child_parallelism(&self) -> (r: u16)
        requires
            job_children_of(
                self.dag_manager.job_edges@,
                self.dag_manager.job_nodes@,
                self.task_descriptor.task_id.job_id,
            ).len() > 0,
        ensures
            r == job_children_of(
                self.dag_manager.job_edges@,
                self.dag_manager.job_nodes@,
                self.task_descriptor.task_id.job_id,
            )[0].0.parallelism,
    {
        let ps = self.get_children_parallelism();
        ps[0]
    }

    /// The stream node of this operator; it must be in the graph.
    pub fn get_stream(&self, operator_id: OperatorId) -> (r: StreamNode)
        requires
            stream_node_of(self.dag_manager.stream_nodes@, operator_id) is Some,
        ensures
            Some(r) == stream_node_of(self.dag_manager.stream_nodes@, operator_id),
    {
        match self.dag_manager.get_stream(operator_id) {
            Some(node) => node,
            None => vstd::pervasive::unreached(),
        }
    }
}

} // verus!
