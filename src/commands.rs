use vstd::prelude::*;
use crate::time::{proto_of, Duration, ProtoDuration};

verus! {

/// The namespace that test commands and test servers use.
pub const NAMESPACE: &'static str = "default";

/// The activity type of every activity scheduled by [`schedule_activity_cmd`].
pub const TEST_ACTIVITY_TYPE: &'static str = "test_activity";

/// What happens to a scheduled activity when the workflow asks to cancel it.
#[derive(Clone, Copy, Debug, PartialEq, Eq, Structural)]
pub enum ActivityCancellationType {
    /// Ask for cancellation and resolve at once.
    TryCancel,
    /// Ask for cancellation and wait until the activity acknowledges it.
    WaitCancellationCompleted,
    /// Resolve at once without asking the activity to stop.
    Abandon,
}

impl ActivityCancellationType {
    /// The wire value of each policy.
    pub open spec fn spec_code(self) -> i32 {
        match self {
            ActivityCancellationType::TryCancel => 0,
            ActivityCancellationType::WaitCancellationCompleted => 1,
            ActivityCancellationType::Abandon => 2,
        }
    }

    pub fn code(self) -> (r: i32)
        ensures
            r == self.spec_code(),
    {
        match self {
            ActivityCancellationType::TryCancel => 0,
            ActivityCancellationType::WaitCancellationCompleted => 1,
            ActivityCancellationType::Abandon => 2,
        }
    }
}

/// A command that asks for an activity to run.
#[derive(Clone, Debug, PartialEq, Eq)]
pub struct ScheduleActivity {
    pub seq: u32,
    pub activity_id: String,
    pub activity_type: String,
    pub namespace: String,
    pub task_queue: String,
    pub schedule_to_close_timeout: Option<ProtoDuration>,
    pub schedule_to_start_timeout: Option<ProtoDuration>,
    pub start_to_close_timeout: Option<ProtoDuration>,
    pub heartbeat_timeout: Option<ProtoDuration>,
    pub cancellation_type: i32,
}

/// A command that starts a timer.
#[derive(Clone, Copy, Debug, PartialEq, Eq)]
pub struct StartTimer {
    pub seq: u32,
    pub start_to_fire_timeout: Option<ProtoDuration>,
}

/// A command that completes the workflow execution, with an optional encoded result.
#[derive(Clone, Debug, PartialEq, Eq)]
pub struct CompleteWorkflowExecution {
    pub result: Option<Vec<u8>>,
}

/// One command that a workflow activation may answer with.
#[derive(Clone, Debug, PartialEq, Eq)]
pub enum WorkflowCommand {
    ScheduleActivity(ScheduleActivity),
    StartTimer(StartTimer),
    CompleteWorkflowExecution(CompleteWorkflowExecution),
}

/// A successful answer to a workflow activation: the run it belongs to and its commands.
#[derive(Clone, Debug, PartialEq, Eq)]
pub struct WorkflowActivationCompletion {
    pub task_queue: String,
    pub run_id: String,
    pub commands: Vec<WorkflowCommand>,
}

impl WorkflowActivationCompletion {
    pub fn from_cmds(task_queue: String, run_id: String, commands: Vec<WorkflowCommand>) -> (r:
        WorkflowActivationCompletion)
        ensures
            r.task_queue == task_queue,
            r.run_id == run_id,
            r.commands == commands,
    {
        WorkflowActivationCompletion { task_queue, run_id, commands }
    }
}

/// Schedules activity `activity_id` of the test activity type on `task_q`, with the
/// schedule-to-start, start-to-close and schedule-to-close timeouts all equal to
/// `activity_timeout`.
pub fn schedule_activity_cmd(
    seq: u32,
    task_q: &str,
    activity_id: &str,
    cancellation_type: ActivityCancellationType,
    activity_timeout: Duration,
    heartbeat_timeout: Duration,
) -> (r: WorkflowCommand)
    requires
        activity_timeout.wf(),
        heartbeat_timeout.wf(),
    ensures
        r matches WorkflowCommand::ScheduleActivity(a) && {
            &&& a.seq == seq
            &&& a.activity_id@ == activity_id@
            &&& a.activity_type@ == TEST_ACTIVITY_TYPE@
            &&& a.namespace@ == NAMESPACE@
            &&& a.task_queue@ == task_q@
            &&& a.schedule_to_start_timeout == Some(proto_of(activity_timeout))
            &&& a.start_to_close_timeout == Some(proto_of(activity_timeout))
            &&& a.schedule_to_close_timeout == Some(proto_of(activity_timeout))
            &&& a.heartbeat_timeout == Some(proto_of(heartbeat_timeout))
            &&& a.cancellation_type == cancellation_type.spec_code()
        },
{
    let timeout = ProtoDuration::from_duration(activity_timeout);
    WorkflowCommand::ScheduleActivity(
        ScheduleActivity {
            seq,
            activity_id: activity_id.to_owned(),
            activity_type: TEST_ACTIVITY_TYPE.to_owned(),
            namespace: NAMESPACE.to_owned(),
            task_queue: task_q.to_owned(),
            schedule_to_close_timeout: Some(timeout),
            schedule_to_start_timeout: Some(timeout),
            start_to_close_timeout: Some(timeout),
            heartbeat_timeout: Some(ProtoDuration::from_duration(heartbeat_timeout)),
            cancellation_type: cancellation_type.code(),
        },
    )
}

/// Starts timer `seq`, firing after `duration`.
pub fn start_timer_cmd(seq: u32, duration: Duration) -> (r: WorkflowCommand)
    requires
        duration.wf(),
    ensures
        r == WorkflowCommand::StartTimer(
            StartTimer { seq, start_to_fire_timeout: Some(proto_of(duration)) },
        ),
{
    WorkflowCommand::StartTimer(
        StartTimer { seq, start_to_fire_timeout: Some(ProtoDuration::from_duration(duration)) },
    )
}

/// The completion that finishes run `run_id` of `task_q` with no result.
pub fn complete_execution_completion(task_q: &str, run_id: &str) -> (r:
    WorkflowActivationCompletion)
    ensures
        r.task_queue@ == task_q@,
        r.run_id@ == run_id@,
        r.commands@ == seq![
            WorkflowCommand::CompleteWorkflowExecution(CompleteWorkflowExecution { result: None }),
        ],
{
    let mut commands: Vec<WorkflowCommand> = Vec::new();
    commands.push(
        WorkflowCommand::CompleteWorkflowExecution(CompleteWorkflowExecution { result: None }),
    );
    WorkflowActivationCompletion::from_cmds(task_q.to_owned(), run_id.to_owned(), commands)
}

/// The completion that answers run `run_id` of `task_q` by starting timer `seq`, firing
/// after `duration`.
pub fn complete_timer_completion(task_q: &str, run_id: &str, seq: u32, duration: Duration) -> (r:
    WorkflowActivationCompletion)
    requires
        duration.wf(),
    ensures
        r.task_queue@ == task_q@,
        r.run_id@ == run_id@,
        r.commands@ == seq![
            WorkflowCommand::StartTimer(
                StartTimer { seq, start_to_fire_timeout: Some(proto_of(duration)) },
            ),
        ],
{
    let mut commands: Vec<WorkflowCommand> = Vec::new();
    commands.push(start_timer_cmd(seq, duration));
    WorkflowActivationCompletion::from_cmds(task_q.to_owned(), run_id.to_owned(), commands)
}

/// Shortcuts for answering activations with canned commands through an engine handle.
///
/// An implementor supplies the submission itself; what is submitted is fixed by
/// [`complete_execution_completion`] and [`complete_timer_completion`], and a failed
/// submission comes back unchanged.
pub trait CoreTestHelpers {
    type Error;

    /// Hands `completion` to the engine.
    fn complete_workflow_activation(&self, completion: WorkflowActivationCompletion) -> Result<
        (),
        Self::Error,
    >;

    /// Finishes run `run_id` of `task_q` with no result.
    fn complete_execution(&self, task_q: &str, run_id: &str) -> Result<(), Self::Error> {
        self.complete_workflow_activation(complete_execution_completion(task_q, run_id))
    }

    /// Answers run `run_id` of `task_q` by starting timer `seq`, firing after `duration`.
    fn complete_timer(&self, task_q: &str, run_id: &str, seq: u32, duration: Duration) -> Result<
        (),
        Self::Error,
    >
        requires
            duration.wf(),
    {
        self.complete_workflow_activation(complete_timer_completion(task_q, run_id, seq, duration))
    }
}

} // verus!
