use test_utils::{
    accept_history, get_integ_server_options, get_integ_telem_options, replay_worker_config,
    CoreInitOptions, CoreState, CoreStep, CoreWfStarter, Duration, EngineId, HarnessError,
    TestWorker, DEFAULT_MAX_OUTSTANDING_ACTIVITIES, TEST_MAX_CACHED_WORKFLOWS,
};

fn options() -> CoreInitOptions {
    CoreInitOptions {
        gateway_opts: get_integ_server_options(None).unwrap(),
        telemetry_opts: get_integ_telem_options(None, None, None).unwrap(),
    }
}

fn initialized(id: u64) -> CoreWfStarter {
    let mut s = CoreWfStarter::new_tq_name("tq", options());
    match s.get_core() {
        CoreStep::Create(cfg) => assert_eq!(cfg.task_queue, "tq"),
        CoreStep::Cached(_) => panic!("no engine yet"),
    }
    assert_eq!(s.core_created(Ok(EngineId { id })), Ok(EngineId { id }));
    s
}

#[test]
fn new_tq_name_defaults() {
    let s = CoreWfStarter::new_tq_name("tq", options());
    assert_eq!(s.get_task_queue(), "tq");
    assert_eq!(s.get_wf_id(), "tq");
    assert_eq!(s.worker_config.max_cached_workflows, TEST_MAX_CACHED_WORKFLOWS);
    assert_eq!(s.worker_config.max_outstanding_activities, DEFAULT_MAX_OUTSTANDING_ACTIVITIES);
    assert_eq!(s.state, CoreState::Uninitialized);
}

#[test]
fn salted_name_uses_base64() {
    let s = CoreWfStarter::new_with_salt("my_test", &[0, 1, 2, 255, 254, 253], options());
    assert_eq!(s.get_task_queue(), "my_test_AAEC//79");
}

#[test]
fn random_names_differ_in_salt_only() {
    let a = CoreWfStarter::new("t", options());
    assert!(a.get_wf_id().starts_with("t_"));
    assert_eq!(a.get_wf_id().len(), "t_".len() + 8);
}

#[test]
fn start_before_get_core_is_usage_error() {
    let s = CoreWfStarter::new_tq_name("tq", options());
    assert_eq!(s.start_wf(), Err(HarnessError::NotInitialized));
    assert_eq!(s.state, CoreState::Uninitialized);
}

#[test]
fn get_core_returns_same_engine() {
    let s = initialized(7);
    for _ in 0..5 {
        assert_eq!(s.get_core(), CoreStep::Cached(EngineId { id: 7 }));
    }
}

#[test]
fn setup_failure_leaves_harness_uninitialized() {
    let mut s = CoreWfStarter::new_tq_name("tq", options());
    assert_eq!(
        s.core_created(Err("unreachable".to_string())),
        Err(HarnessError::Setup("unreachable".to_string()))
    );
    assert_eq!(s.state, CoreState::Uninitialized);
    assert!(matches!(s.get_core(), CoreStep::Create(_)));
}

#[test]
fn limits_after_registration_do_not_change_worker() {
    let mut s = initialized(1);
    let before = s.registered.as_ref().unwrap().max_cached_workflows;
    s.max_cached_workflows(3);
    s.max_wft(4);
    s.max_at(5);
    s.max_local_at(6);
    s.max_at_polls(7);
    assert_eq!(s.registered.as_ref().unwrap().max_cached_workflows, before);
    assert_eq!(s.worker_config.max_cached_workflows, 3);
    assert_eq!(s.worker_config.max_outstanding_workflow_tasks, 4);
    assert_eq!(s.worker_config.max_outstanding_activities, 5);
    assert_eq!(s.worker_config.max_outstanding_local_activities, 6);
    assert_eq!(s.worker_config.max_concurrent_at_polls, 7);
    assert_eq!(s.get_core(), CoreStep::Cached(EngineId { id: 1 }));
}

#[test]
fn limits_before_registration_are_registered() {
    let mut s = CoreWfStarter::new_tq_name("tq", options());
    s.max_at(9);
    assert_eq!(s.core_created(Ok(EngineId { id: 2 })), Ok(EngineId { id: 2 }));
    assert_eq!(s.registered.as_ref().unwrap().max_outstanding_activities, 9);
}

#[test]
fn start_requests_use_queue_and_timeout() {
    let mut s = initialized(3);
    s.wft_timeout(Duration::from_secs(10));
    let r = s.start_wf().unwrap();
    assert_eq!(r.engine, EngineId { id: 3 });
    assert_eq!(r.task_queue, "tq");
    assert_eq!(r.workflow_id, "tq");
    assert_eq!(r.workflow_type, "tq");
    assert_eq!(r.task_timeout, Some(Duration::from_secs(10)));
    let r2 = s.start_wf_with_id("other".to_string()).unwrap();
    assert_eq!(r2.workflow_id, "other");
}

#[test]
fn shutdown_twice_is_distinct_from_setup_failure() {
    let mut s = initialized(4);
    assert_eq!(s.shutdown(), Ok(EngineId { id: 4 }));
    assert_eq!(s.shutdown(), Err(HarnessError::AlreadyShutDown));
    assert_eq!(s.start_wf(), Err(HarnessError::AlreadyShutDown));
}

#[test]
fn shutdown_without_engine_creates_none() {
    let mut s = CoreWfStarter::new_tq_name("tq", options());
    assert_eq!(s.shutdown(), Err(HarnessError::NotInitialized));
    assert_eq!(s.state, CoreState::Uninitialized);
}

#[test]
fn history_answers() {
    assert_eq!(accept_history::<u8>(Ok(Some(5))), Ok(5));
    assert_eq!(accept_history::<u8>(Ok(None)), Err(HarnessError::MissingHistory));
    assert_eq!(
        accept_history::<u8>(Err("down".to_string())),
        Err(HarnessError::HistoryFetch("down".to_string()))
    );
}

#[test]
fn replay_config_uses_worker_queue() {
    let c = replay_worker_config("replay_q");
    assert_eq!(c.task_queue, "replay_q");
    assert_eq!(c.max_cached_workflows, 0);
}

#[test]
fn replay_adds_one_expected_run() {
    let mut w = TestWorker::new(EngineId { id: 1 }, "q".to_string(), None);
    w.incr_expected_run_count(2);
    assert!(!w.record_completed_run());
    assert!(w.record_completed_run());
    let old = w.begin_replay(EngineId { id: 9 });
    assert_eq!(old, EngineId { id: 1 });
    assert_eq!(w.expected_runs, 3);
    assert_eq!(w.completed_runs, 2);
    assert_eq!(w.task_queue(), "q");
    assert!(!w.is_done());
    assert_eq!(w.finish_replay(Ok(())).is_err(), true);
    assert!(w.record_completed_run());
    assert_eq!(w.finish_replay(Ok(())), Ok(()));
    assert_eq!(
        w.finish_replay(Err("nondeterminism".to_string())),
        Err(HarnessError::Replay("nondeterminism".to_string()))
    );
}

#[test]
fn round_trip_through_replay() {
    let s = initialized(10);
    let start = s.start_wf().unwrap();
    let run_id = "run-1".to_string();
    let done = test_utils::complete_execution_completion(&start.task_queue, &run_id);
    assert_eq!(done.task_queue, "tq");
    let req = s.fetch_history(start.workflow_id.clone(), run_id.clone()).unwrap();
    assert_eq!(req.engine, EngineId { id: 10 });
    assert_eq!(req.workflow_id, "tq");
    assert_eq!(req.run_id, "run-1");
    let history = accept_history(Ok(Some(vec![1u8, 2, 3]))).unwrap();
    assert_eq!(history, vec![1, 2, 3]);
    let mut w = s.worker().unwrap();
    let cfg = replay_worker_config(w.task_queue());
    assert_eq!(cfg.task_queue, "tq");
    w.begin_replay(EngineId { id: 11 });
    assert!(w.record_completed_run());
    assert_eq!(w.finish_replay(Ok(())), Ok(()));
    assert_eq!(w.engine, EngineId { id: 11 });
}

#[test]
fn worker_needs_engine() {
    let s = CoreWfStarter::new_tq_name("tq", options());
    assert_eq!(s.worker().err(), Some(HarnessError::NotInitialized));
    assert_eq!(
        s.fetch_history("w".to_string(), "r".to_string()).err(),
        Some(HarnessError::NotInitialized)
    );
}
