use vstd::prelude::*;

verus! {

/// Workflows a test worker keeps cached unless told otherwise.
pub const TEST_MAX_CACHED_WORKFLOWS: usize = 1000;

/// Default limit on outstanding workflow tasks.
pub const DEFAULT_MAX_OUTSTANDING_WORKFLOW_TASKS: usize = 100;

/// Default limit on outstanding activities.
pub const DEFAULT_MAX_OUTSTANDING_ACTIVITIES: usize = 100;

/// Default limit on outstanding local activities.
pub const DEFAULT_MAX_OUTSTANDING_LOCAL_ACTIVITIES: usize = 100;

/// Default limit on concurrent workflow task polls.
pub const DEFAULT_MAX_CONCURRENT_WFT_POLLS: usize = 5;

/// Default limit on concurrent activity polls.
pub const DEFAULT_MAX_CONCURRENT_AT_POLLS: usize = 5;

/// What a worker is registered with: its task queue and its limits.
#[derive(Debug, PartialEq, Eq)]
pub struct WorkerConfig {
    pub task_queue: String,
    pub max_cached_workflows: usize,
    pub max_outstanding_workflow_tasks: usize,
    pub max_outstanding_activities: usize,
    pub max_outstanding_local_activities: usize,
    pub max_concurrent_wft_polls: usize,
    pub max_concurrent_at_polls: usize,
}

/// The configuration for `task_queue` with every limit at its default and no cache.
pub open spec fn is_default_config(c: WorkerConfig, task_queue: Seq<char>) -> bool {
    &&& c.task_queue@ == task_queue
    &&& c.max_cached_workflows == 0
    &&& c.max_outstanding_workflow_tasks == DEFAULT_MAX_OUTSTANDING_WORKFLOW_TASKS
    &&& c.max_outstanding_activities == DEFAULT_MAX_OUTSTANDING_ACTIVITIES
    &&& c.max_outstanding_local_activities == DEFAULT_MAX_OUTSTANDING_LOCAL_ACTIVITIES
    &&& c.max_concurrent_wft_polls == DEFAULT_MAX_CONCURRENT_WFT_POLLS
    &&& c.max_concurrent_at_polls == DEFAULT_MAX_CONCURRENT_AT_POLLS
}

impl WorkerConfig {
    /// A configuration for `task_queue` with every limit at its default and no cache.
    pub fn for_task_queue(task_queue: &str) -> (r: WorkerConfig)
        ensures
            is_default_config(r, task_queue@),
    {
        WorkerConfig {
            task_queue: task_queue.to_owned(),
            max_cached_workflows: 0,
            max_outstanding_workflow_tasks: DEFAULT_MAX_OUTSTANDING_WORKFLOW_TASKS,
            max_outstanding_activities: DEFAULT_MAX_OUTSTANDING_ACTIVITIES,
            max_outstanding_local_activities: DEFAULT_MAX_OUTSTANDING_LOCAL_ACTIVITIES,
            max_concurrent_wft_polls: DEFAULT_MAX_CONCURRENT_WFT_POLLS,
            max_concurrent_at_polls: DEFAULT_MAX_CONCURRENT_AT_POLLS,
        }
    }

    /// A copy with the same field values.
    pub fn snapshot(&self) -> (r: WorkerConfig)
        ensures
            r == *self,
    {
        WorkerConfig {
            task_queue: self.task_queue.clone(),
            max_cached_workflows: self.max_cached_workflows,
            max_outstanding_workflow_tasks: self.max_outstanding_workflow_tasks,
            max_outstanding_activities: self.max_outstanding_activities,
            max_outstanding_local_activities: self.max_outstanding_local_activities,
            max_concurrent_wft_polls: self.max_concurrent_wft_polls,
            max_concurrent_at_polls: self.max_concurrent_at_polls,
        }
    }
}

/// The configuration of a replay worker for `task_queue`: the defaults, with that queue.
pub fn replay_worker_config(task_queue: &str) -> (r: WorkerConfig)
    ensures
        is_default_config(r, task_queue@),
{
    WorkerConfig::for_task_queue(task_queue)
}

} // verus!
