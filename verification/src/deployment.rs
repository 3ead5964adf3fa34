//! Deployment: the cluster modes a job can run under and the resource
//! manager that plans worker allocation. Starting and stopping the worker
//! processes is the resource manager backend's own work; here lives the
//! decision of what to allocate.
use vstd::prelude::*;

verus! {

/// Where the workers run.
#[derive(Clone, Copy, Debug, PartialEq, Eq, Structural, Hash)]
pub enum ClusterMode {
    Local,
    Standalone,
    YARN,
}

/// The process-wide runtime context.
#[derive(Debug)]
pub struct Context {
    pub cluster_mode: ClusterMode,
    pub application_id: String,
    pub coordinator_address: String,
}

impl Clone for Context {
    fn clone(&self) -> (r: Context)
        ensures
            r.cluster_mode == self.cluster_mode,
            r.application_id@ == self.application_id@,
            r.coordinator_address@ == self.coordinator_address@,
    {
        Context {
            cluster_mode: self.cluster_mode,
            application_id: self.application_id.clone(),
            coordinator_address: self.coordinator_address.clone(),
        }
    }
}

/// What one worker is granted.
#[derive(Clone, Copy, Debug, PartialEq, Eq, Structural, Hash)]
pub struct Resource {
    pub memory: u32,
    pub cpu_cores: u32,
}

impl Resource {
    pub fn new(memory: u32, cpu_cores: u32) -> (r: Resource)
        ensures
            r == (Resource { memory, cpu_cores }),
    {
        Resource { memory, cpu_cores }
    }
}

/// One allocated worker.
#[derive(Clone, Copy, Debug, PartialEq, Eq, Structural, Hash)]
pub struct TaskResourceInfo {
    pub task_manager_id: u16,
    pub memory: u32,
    pub cpu_cores: u32,
}

#[derive(Debug)]
pub struct LocalResourceManager {
    pub context: Context,
}

#[derive(Debug)]
pub struct StandaloneResourceManager {
    pub context: Context,
}

#[derive(Debug)]
pub struct YarnResourceManager {
    pub context: Context,
}

/// The resource manager matching the cluster mode.
#[derive(Debug)]
pub enum ResourceManager {
    LocalResourceManager(LocalResourceManager),
    StandaloneResourceManager(StandaloneResourceManager),
    YarnResourceManager(YarnResourceManager),
}

impl ResourceManager {
    /// The held context carries the given mode, application id and
    /// coordinator address, under the variant the cluster mode selects.
    pub fn new(context: &Context) -> (r: ResourceManager)
        ensures
            context.cluster_mode == ClusterMode::Local ==> (r matches
                ResourceManager::LocalResourceManager(m) && m.context.cluster_mode
                == context.cluster_mode && m.context.application_id@ == context.application_id@
                && m.context.coordinator_address@ == context.coordinator_address@),
            context.cluster_mode == ClusterMode::Standalone ==> (r matches
                ResourceManager::StandaloneResourceManager(m) && m.context.cluster_mode
                == context.cluster_mode && m.context.application_id@ == context.application_id@
                && m.context.coordinator_address@ == context.coordinator_address@),
            context.cluster_mode == ClusterMode::YARN ==> (r matches
                ResourceManager::YarnResourceManager(m) && m.context.cluster_mode
                == context.cluster_mode && m.context.application_id@ == context.application_id@
                && m.context.coordinator_address@ == context.coordinator_address@),
    {
        match context.cluster_mode {
            ClusterMode::Local => ResourceManager::LocalResourceManager(
                LocalResourceManager { context: context.clone() },
            ),
            ClusterMode::Standalone => ResourceManager::StandaloneResourceManager(
                StandaloneResourceManager { context: context.clone() },
            ),
            ClusterMode::YARN => ResourceManager::YarnResourceManager(
                YarnResourceManager { context: context.clone() },
            ),
        }
    }

    /// Plans one worker allocation per task instance: worker ids count up
    /// from zero and each worker is granted the same resource. The
    /// backend then starts the processes this plan names.
    pub fn worker_allocate(&self, num_workers: u16, resource: &Resource) -> (r: Vec<
        TaskResourceInfo,
    >)
        ensures
            r@.len() == num_workers,
            forall|i: int|
                0 <= i < num_workers ==> r@[i] == (TaskResourceInfo {
                    task_manager_id: i as u16,
                    memory: resource.memory,
                    cpu_cores: resource.cpu_cores,
                }),
    {
        let mut out: Vec<TaskResourceInfo> = Vec::new();
        let mut i: u16 = 0;
        while i < num_workers
            invariant
                i <= num_workers,
                out@.len() == i as int,
                forall|k: int|
                    0 <= k < i as int ==> out@[k] == (TaskResourceInfo {
                        task_manager_id: k as u16,
                        memory: resource.memory,
                        cpu_cores: resource.cpu_cores,
                    }),
            decreases num_workers - i,
        {
            out.push(
                TaskResourceInfo {
                    task_manager_id: i,
                    memory: resource.memory,
                    cpu_cores: resource.cpu_cores,
                },
            );
            i += 1;
        }
        out
    }
}

} // verus!
