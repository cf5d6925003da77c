use std::cell::RefCell;
use test_utils::{
    complete_execution_completion, complete_timer_completion, schedule_activity_cmd,
    start_timer_cmd, ActivityCancellationType, CompleteWorkflowExecution, CoreTestHelpers,
    Duration, ProtoDuration, StartTimer, WorkflowActivationCompletion, WorkflowCommand,
    NAMESPACE, TEST_ACTIVITY_TYPE,
};

#[test]
fn schedule_activity_sets_all_timeouts() {
    let cmd = schedule_activity_cmd(
        1,
        "Q",
        "a1",
        ActivityCancellationType::TryCancel,
        Duration::from_secs(5),
        Duration::from_secs(1),
    );
    let five = Some(ProtoDuration { seconds: 5, nanos: 0 });
    match cmd {
        WorkflowCommand::ScheduleActivity(a) => {
            assert_eq!(a.seq, 1);
            assert_eq!(a.task_queue, "Q");
            assert_eq!(a.activity_id, "a1");
            assert_eq!(a.activity_type, TEST_ACTIVITY_TYPE);
            assert_eq!(a.namespace, NAMESPACE);
            assert_eq!(a.schedule_to_start_timeout, five);
            assert_eq!(a.start_to_close_timeout, five);
            assert_eq!(a.schedule_to_close_timeout, five);
            assert_eq!(a.heartbeat_timeout, Some(ProtoDuration { seconds: 1, nanos: 0 }));
            assert_eq!(a.cancellation_type, 0);
        }
        other => panic!("unexpected command {:?}", other),
    }
}

#[test]
fn cancellation_codes() {
    assert_eq!(ActivityCancellationType::TryCancel.code(), 0);
    assert_eq!(ActivityCancellationType::WaitCancellationCompleted.code(), 1);
    assert_eq!(ActivityCancellationType::Abandon.code(), 2);
}

#[test]
fn start_timer_keeps_sub_second_part() {
    let cmd = start_timer_cmd(3, Duration::from_millis(1500));
    assert_eq!(
        cmd,
        WorkflowCommand::StartTimer(StartTimer {
            seq: 3,
            start_to_fire_timeout: Some(ProtoDuration { seconds: 1, nanos: 500_000_000 }),
        })
    );
}

#[test]
fn huge_duration_saturates_on_the_wire() {
    let d = Duration::new(u64::MAX - 2, 2_000_000_001);
    assert_eq!(d, Duration { secs: u64::MAX, nanos: 1 });
    assert_eq!(
        ProtoDuration::from_duration(d),
        ProtoDuration { seconds: i64::MAX, nanos: 1 }
    );
}

#[test]
fn execution_completion_payload() {
    let c = complete_execution_completion("q1", "run1");
    assert_eq!(c.task_queue, "q1");
    assert_eq!(c.run_id, "run1");
    assert_eq!(
        c.commands,
        vec![WorkflowCommand::CompleteWorkflowExecution(CompleteWorkflowExecution {
            result: None
        })]
    );
}

#[test]
fn timer_completion_payload() {
    let c = complete_timer_completion("q1", "run1", 7, Duration::from_secs(2));
    assert_eq!(c.commands, vec![start_timer_cmd(7, Duration::from_secs(2))]);
    assert_eq!(c.run_id, "run1");
}

struct Recorder {
    sent: RefCell<Vec<WorkflowActivationCompletion>>,
    fail: bool,
}

impl CoreTestHelpers for Recorder {
    type Error = String;

    fn complete_workflow_activation(
        &self,
        completion: WorkflowActivationCompletion,
    ) -> Result<(), String> {
        if self.fail {
            return Err("rejected".to_string());
        }
        self.sent.borrow_mut().push(completion);
        Ok(())
    }
}

#[test]
fn helpers_submit_canned_completions() {
    let r = Recorder { sent: RefCell::new(vec![]), fail: false };
    r.complete_execution("q", "r").unwrap();
    r.complete_timer("q", "r", 1, Duration::from_secs(1)).unwrap();
    let sent = r.sent.borrow();
    assert_eq!(sent[0], complete_execution_completion("q", "r"));
    assert_eq!(sent[1], complete_timer_completion("q", "r", 1, Duration::from_secs(1)));
}

#[test]
fn helpers_pass_submission_errors_through() {
    let r = Recorder { sent: RefCell::new(vec![]), fail: true };
    assert_eq!(r.complete_execution("q", "r"), Err("rejected".to_string()));
}
