//! Scaffolding for integration tests that drive a workflow-execution engine: worker
//! configuration, canned workflow commands, the lifecycle of a lazily created engine
//! handle, the swap of a live worker onto a replay engine, and completion tracking for
//! fanned-out units of work.
//!
//! The engine itself is reached by the caller: the types here decide what to ask of it
//! and what its answers mean.

pub mod commands;
pub mod config;
pub mod fanout;
pub mod harness;
pub mod options;
pub mod time;
pub mod worker;

pub use time::{Duration, ProtoDuration};
pub use commands::{
    complete_execution_completion, complete_timer_completion, schedule_activity_cmd,
    start_timer_cmd, ActivityCancellationType, CompleteWorkflowExecution, CoreTestHelpers,
    ScheduleActivity, StartTimer, WorkflowActivationCompletion, WorkflowCommand, NAMESPACE,
    TEST_ACTIVITY_TYPE,
};
pub use options::{
    get_integ_server_options, get_integ_telem_options, parse_port, BindAddress,
    CoreInitOptions, LogForwardingLevel, OptionsError, ServerGatewayOptions, TelemetryOptions,
    CLIENT_IDENTITY, CLIENT_NAME, CLIENT_VERSION, DEFAULT_SERVER_ADDRESS, DEFAULT_TRACING_FILTER,
    WORKER_BINARY_ID,
};
pub use config::{
    replay_worker_config, WorkerConfig, DEFAULT_MAX_CONCURRENT_AT_POLLS,
    DEFAULT_MAX_CONCURRENT_WFT_POLLS, DEFAULT_MAX_OUTSTANDING_ACTIVITIES,
    DEFAULT_MAX_OUTSTANDING_LOCAL_ACTIVITIES, DEFAULT_MAX_OUTSTANDING_WORKFLOW_TASKS,
    TEST_MAX_CACHED_WORKFLOWS,
};
pub use harness::{
    accept_history, CoreState, CoreStep, CoreWfStarter, EngineId, HarnessError, HistoryRequest,
    StartWorkflowRequest, SALT_LEN,
};
pub use worker::TestWorker;
pub use fanout::FanoutTracker;
