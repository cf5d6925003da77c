use vstd::prelude::*;
use crate::config::{WorkerConfig, TEST_MAX_CACHED_WORKFLOWS};
use crate::options::CoreInitOptions;
use crate::time::Duration;
use crate::worker::TestWorker;

verus! {

/// Identity of one engine instance, as assigned by whoever created it.
#[derive(Clone, Copy, Debug, PartialEq, Eq, Hash, Structural)]
pub struct EngineId {
    pub id: u64,
}

/// Lifecycle of a harness's engine handle.
#[derive(Clone, Copy, Debug, PartialEq, Eq, Structural)]
pub enum CoreState {
    /// No engine has been created yet.
    Uninitialized,
    /// The engine was created and the harness's worker registered with it.
    Initialized(EngineId),
    /// The engine was asked to shut down; nothing more is started on it.
    ShutDown(EngineId),
}

/// Why a harness operation failed.
#[derive(Clone, Debug, PartialEq, Eq)]
pub enum HarnessError {
    /// Creating the engine or registering the worker failed.
    Setup(String),
    /// The operation needs the engine, and none has been created yet.
    NotInitialized,
    /// The engine has already been shut down.
    AlreadyShutDown,
    /// Fetching a history from the server failed.
    HistoryFetch(String),
    /// The server answered without a history.
    MissingHistory,
    /// The replay engine reported an error while the worker ran.
    Replay(String),
}

/// What a request for the engine handle asks of the caller.
#[derive(Debug, PartialEq, Eq)]
pub enum CoreStep {
    /// Use this engine, created earlier.
    Cached(EngineId),
    /// Create an engine from the harness's options and register a worker with this
    /// configuration, then report the outcome through `CoreWfStarter::core_created`.
    Create(WorkerConfig),
}

/// A request to start a workflow execution.
#[derive(Clone, Debug, PartialEq, Eq)]
pub struct StartWorkflowRequest {
    pub engine: EngineId,
    pub task_queue: String,
    pub workflow_id: String,
    pub workflow_type: String,
    pub task_timeout: Option<Duration>,
}

/// A request for the history of one workflow run.
#[derive(Clone, Debug, PartialEq, Eq)]
pub struct HistoryRequest {
    pub engine: EngineId,
    pub workflow_id: String,
    pub run_id: String,
}

/// `name`, an underscore, then `salt`.
pub open spec fn salted_name(name: Seq<char>, salt: Seq<char>) -> Seq<char> {
    name + seq!['_'] + salt
}

/// Base64 text (standard alphabet, padded) of a byte string.
pub uninterp spec fn base64_of(b: Seq<u8>) -> Seq<char>;

/// Relies on `base64::encode`: the standard padded encoding, which depends on the bytes
/// alone.
#[verifier::external_body]
fn base64_encode(b: &[u8]) -> (r: String)
    ensures
        r@ == base64_of(b@),
{
    base64::encode(b)
}

/// Relies on `rand::thread_rng` sampled through `rand::distributions::Standard`: an
/// endless stream of random bytes, of which `n` are taken.
#[verifier::external_body]
fn random_bytes(n: usize) -> (r: Vec<u8>)
    ensures
        r@.len() == n,
{
    rand::Rng::sample_iter(rand::thread_rng(), rand::distributions::Standard).take(n).collect()
}

/// What the server's answer to a history request means: the history, or why there
/// is none to replay.
pub fn accept_history<H>(fetched: Result<Option<H>, String>) -> (r: Result<H, HarnessError>)
    ensures
        match fetched {
            Ok(Some(h)) => r == Ok::<H, HarnessError>(h),
            Ok(None) => r == Err::<H, HarnessError>(HarnessError::MissingHistory),
            Err(m) => r == Err::<H, HarnessError>(HarnessError::HistoryFetch(m)),
        },
{
    match fetched {
        Ok(Some(h)) => Ok(h),
        Ok(None) => Err(HarnessError::MissingHistory),
        Err(m) => Err(HarnessError::HistoryFetch(m)),
    }
}

/// Length of the random salt that makes each harness's task queue unique.
pub const SALT_LEN: usize = 6;

/// Lifecycle of one test's engine instance and worker: the configuration it registers
/// with, the lazily created engine, and the snapshot of the configuration the worker
/// was registered with.
#[derive(Debug)]
pub struct CoreWfStarter {
    /// Used for both the task queue and the default workflow id.
    pub task_queue_name: String,
    pub core_options: CoreInitOptions,
    pub worker_config: WorkerConfig,
    pub wft_timeout: Option<Duration>,
    pub state: CoreState,
    /// The configuration the worker was registered with, once it was.
    pub registered: Option<WorkerConfig>,
}

impl CoreWfStarter {
    /// The worker registers under the harness's own queue name, and a configuration
    /// has been registered exactly when an engine exists.
    pub open spec fn wf(&self) -> bool {
        &&& self.worker_config.task_queue@ == self.task_queue_name@
        &&& (self.state is Uninitialized) == (self.registered is None)
        &&& self.registered matches Some(c) ==> c.task_queue@ == self.task_queue_name@
    }

    /// What a request for the engine handle asks of the caller.
    pub open spec fn core_step(&self) -> CoreStep {
        match self.state {
            CoreState::Uninitialized => CoreStep::Create(self.worker_config),
            CoreState::Initialized(h) => CoreStep::Cached(h),
            CoreState::ShutDown(h) => CoreStep::Cached(h),
        }
    }

    /// The harness once engine `h` was created and the worker registered with it.
    pub open spec fn with_engine(self, h: EngineId) -> CoreWfStarter {
        CoreWfStarter {
            state: CoreState::Initialized(h),
            registered: Some(self.worker_config),
            ..self
        }
    }

    /// The harness after a shutdown request, and what the request answers.
    pub open spec fn after_shutdown(self) -> (CoreWfStarter, Result<EngineId, HarnessError>) {
        match self.state {
            CoreState::Uninitialized => (self, Err(HarnessError::NotInitialized)),
            CoreState::Initialized(h) => (
                CoreWfStarter { state: CoreState::ShutDown(h), ..self },
                Ok(h),
            ),
            CoreState::ShutDown(_) => (self, Err(HarnessError::AlreadyShutDown)),
        }
    }

    /// A harness whose task queue, and default workflow id, is `task_queue`, with
    /// room for a large workflow cache and every other limit at its default.
    pub fn new_tq_name(task_queue: &str, core_options: CoreInitOptions) -> (r: CoreWfStarter)
        ensures
            r.wf(),
            r.task_queue_name@ == task_queue@,
            r.core_options == core_options,
            r.worker_config.max_cached_workflows == TEST_MAX_CACHED_WORKFLOWS,
            crate::config::is_default_config(
                (WorkerConfig { max_cached_workflows: 0, ..r.worker_config }),
                task_queue@,
            ),
            r.wft_timeout is None,
            r.state is Uninitialized,
    {
        let mut worker_config = WorkerConfig::for_task_queue(task_queue);
        worker_config.max_cached_workflows = TEST_MAX_CACHED_WORKFLOWS;
        CoreWfStarter {
            task_queue_name: task_queue.to_owned(),
            core_options,
            worker_config,
            wft_timeout: None,
            state: CoreState::Uninitialized,
            registered: None,
        }
    }

    /// A harness whose task queue is `test_name` salted with the base64 text of `salt`.
    pub fn new_with_salt(test_name: &str, salt: &[u8], core_options: CoreInitOptions) -> (r:
        CoreWfStarter)
        ensures
            r.wf(),
            r.task_queue_name@ == salted_name(test_name@, base64_of(salt@)),
            r.core_options == core_options,
            r.worker_config.max_cached_workflows == TEST_MAX_CACHED_WORKFLOWS,
            r.wft_timeout is None,
            r.state is Uninitialized,
    {
        let encoded = base64_encode(salt);
        let mut name = test_name.to_owned();
        name.append("_");
        name.append(encoded.as_str());
        proof {
            reveal_strlit("_");
        }
        assert(name@ =~= salted_name(test_name@, base64_of(salt@)));
        Self::new_tq_name(name.as_str(), core_options)
    }

    /// A harness whose task queue is `test_name` salted with fresh random bytes, so
    /// that runs of the same test do not share a queue.
    pub fn new(test_name: &str, core_options: CoreInitOptions) -> (r: CoreWfStarter)
        ensures
            r.wf(),
            exists|salt: Seq<u8>|
                salt.len() == SALT_LEN && r.task_queue_name@ == salted_name(
                    test_name@,
                    base64_of(salt),
                ),
            r.core_options == core_options,
            r.worker_config.max_cached_workflows == TEST_MAX_CACHED_WORKFLOWS,
            r.wft_timeout is None,
            r.state is Uninitialized,
    {
        let salt = random_bytes(SALT_LEN);
        let bytes = salt.as_slice();
        assert(bytes@ == salt@);
        Self::new_with_salt(test_name, bytes, core_options)
    }

    /// Asks for the engine handle: the cached engine once one exists, otherwise a
    /// request to create one and register the worker with a snapshot of the current
    /// configuration.
    pub fn get_core(&self) -> (r: CoreStep)
        ensures
            r == self.core_step(),
    {
        match self.state {
            CoreState::Uninitialized => CoreStep::Create(self.worker_config.snapshot()),
            CoreState::Initialized(h) => CoreStep::Cached(h),
            CoreState::ShutDown(h) => CoreStep::Cached(h),
        }
    }

    /// Records the outcome of the creation that `get_core` asked for. A failure is a
    /// setup error and leaves the harness without an engine.
    pub fn core_created(&mut self, created: Result<EngineId, String>) -> (r: Result<
        EngineId,
        HarnessError,
    >)
        requires
            old(self).wf(),
            old(self).state is Uninitialized,
        ensures
            final(self).wf(),
            match created {
                Ok(h) => r == Ok::<EngineId, HarnessError>(h) && *final(self) == old(
                    self,
                ).with_engine(h),
                Err(m) => r == Err::<EngineId, HarnessError>(HarnessError::Setup(m))
                    && *final(self) == *old(self),
            },
    {
        match created {
            Ok(h) => {
                self.registered = Some(self.worker_config.snapshot());
                self.state = CoreState::Initialized(h);
                Ok(h)
            },
            Err(m) => Err(HarnessError::Setup(m)),
        }
    }

    /// Starts the harness's workflow, whose id is the harness's queue name.
    pub fn start_wf(&self) -> (r: Result<StartWorkflowRequest, HarnessError>)
        requires
            self.wf(),
        ensures
            r == self.start_request(self.task_queue_name),
    {
        self.start_wf_with_id(self.task_queue_name.clone())
    }

    /// What starting workflow `workflow_id` asks for: the harness's queue serves as the
    /// target queue and as the workflow type, on the engine created earlier.
    pub open spec fn start_request(&self, workflow_id: String) -> Result<
        StartWorkflowRequest,
        HarnessError,
    > {
        match self.state {
            CoreState::Uninitialized => Err(HarnessError::NotInitialized),
            CoreState::ShutDown(_) => Err(HarnessError::AlreadyShutDown),
            CoreState::Initialized(h) => Ok(
                StartWorkflowRequest {
                    engine: h,
                    task_queue: self.worker_config.task_queue,
                    workflow_id,
                    workflow_type: self.task_queue_name,
                    task_timeout: self.wft_timeout,
                },
            ),
        }
    }

    /// Starts workflow `workflow_id`. The engine must have been created first: without
    /// it this is a usage error, and no engine is created on the way.
    pub fn start_wf_with_id(&self, workflow_id: String) -> (r: Result<
        StartWorkflowRequest,
        HarnessError,
    >)
        ensures
            r == self.start_request(workflow_id),
    {
        match self.state {
            CoreState::Uninitialized => Err(HarnessError::NotInitialized),
            CoreState::ShutDown(_) => Err(HarnessError::AlreadyShutDown),
            CoreState::Initialized(h) => Ok(
                StartWorkflowRequest {
                    engine: h,
                    task_queue: self.worker_config.task_queue.clone(),
                    workflow_id,
                    workflow_type: self.task_queue_name.clone(),
                    task_timeout: self.wft_timeout,
                },
            ),
        }
    }

    /// Asks for the engine to shut down, returning the engine to stop. A harness
    /// without an engine has nothing to stop, and a second request is refused.
    pub fn shutdown(&mut self) -> (r: Result<EngineId, HarnessError>)
        requires
            old(self).wf(),
        ensures
            final(self).wf(),
            (*final(self), r) == old(self).after_shutdown(),
    {
        match self.state {
            CoreState::Uninitialized => Err(HarnessError::NotInitialized),
            CoreState::Initialized(h) => {
                self.state = CoreState::ShutDown(h);
                Ok(h)
            },
            CoreState::ShutDown(_) => Err(HarnessError::AlreadyShutDown),
        }
    }

    /// What fetching the history of run `run_id` of workflow `workflow_id` asks for.
    pub open spec fn history_request(&self, workflow_id: String, run_id: String) -> Result<
        HistoryRequest,
        HarnessError,
    > {
        match self.state {
            CoreState::Uninitialized => Err(HarnessError::NotInitialized),
            CoreState::ShutDown(_) => Err(HarnessError::AlreadyShutDown),
            CoreState::Initialized(h) => Ok(HistoryRequest { engine: h, workflow_id, run_id }),
        }
    }

    /// Asks for the history of run `run_id` of workflow `workflow_id` through the
    /// harness's engine, the first step of replaying it.
    pub fn fetch_history(&self, workflow_id: String, run_id: String) -> (r: Result<
        HistoryRequest,
        HarnessError,
    >)
        ensures
            r == self.history_request(workflow_id, run_id),
    {
        match self.state {
            CoreState::Uninitialized => Err(HarnessError::NotInitialized),
            CoreState::ShutDown(_) => Err(HarnessError::AlreadyShutDown),
            CoreState::Initialized(h) => Ok(HistoryRequest { engine: h, workflow_id, run_id }),
        }
    }

    pub fn get_task_queue(&self) -> (r: &str)
        ensures
            r@ == self.worker_config.task_queue@,
    {
        self.worker_config.task_queue.as_str()
    }

    pub fn get_wf_id(&self) -> (r: &str)
        ensures
            r@ == self.task_queue_name@,
    {
        self.task_queue_name.as_str()
    }

    /// Sets how many workflows the worker keeps cached. Takes effect only for a worker registered afterwards.
    pub fn max_cached_workflows(&mut self, max: usize)
        requires
            old(self).wf(),
        ensures
            final(self).wf(),
            *final(self) == (CoreWfStarter {
                worker_config: (WorkerConfig { max_cached_workflows: max, ..old(self).worker_config }),
                ..*old(self)
            }),
    {
        self.worker_config.max_cached_workflows = max;
    }

    /// Sets the limit on outstanding workflow tasks. Takes effect only for a worker registered afterwards.
    pub fn max_wft(&mut self, max: usize)
        requires
            old(self).wf(),
        ensures
            final(self).wf(),
            *final(self) == (CoreWfStarter {
                worker_config: (WorkerConfig { max_outstanding_workflow_tasks: max, ..old(self).worker_config }),
                ..*old(self)
            }),
    {
        self.worker_config.max_outstanding_workflow_tasks = max;
    }

    /// Sets the limit on outstanding activities. Takes effect only for a worker registered afterwards.
    pub fn max_at(&mut self, max: usize)
        requires
            old(self).wf(),
        ensures
            final(self).wf(),
            *final(self) == (CoreWfStarter {
                worker_config: (WorkerConfig { max_outstanding_activities: max, ..old(self).worker_config }),
                ..*old(self)
            }),
    {
        self.worker_config.max_outstanding_activities = max;
    }

    /// Sets the limit on outstanding local activities. Takes effect only for a worker registered afterwards.
    pub fn max_local_at(&mut self, max: usize)
        requires
            old(self).wf(),
        ensures
            final(self).wf(),
            *final(self) == (CoreWfStarter {
                worker_config: (WorkerConfig { max_outstanding_local_activities: max, ..old(self).worker_config }),
                ..*old(self)
            }),
    {
        self.worker_config.max_outstanding_local_activities = max;
    }

    /// Sets the limit on concurrent activity polls. Takes effect only for a worker registered afterwards.
    pub fn max_at_polls(&mut self, max: usize)
        requires
            old(self).wf(),
        ensures
            final(self).wf(),
            *final(self) == (CoreWfStarter {
                worker_config: (WorkerConfig { max_concurrent_at_polls: max, ..old(self).worker_config }),
                ..*old(self)
            }),
    {
        self.worker_config.max_concurrent_at_polls = max;
    }

    /// Sets the workflow task timeout of the workflows started from now on.
    pub fn wft_timeout(&mut self, timeout: Duration)
        requires
            old(self).wf(),
        ensures
            final(self).wf(),
            *final(self) == (CoreWfStarter { wft_timeout: Some(timeout), ..*old(self) }),
    {
        self.wft_timeout = Some(timeout);
    }

    /// A worker on the harness's engine and queue, with nothing run yet.
    pub fn worker(&self) -> (r: Result<TestWorker, HarnessError>)
        ensures
            match self.state {
                CoreState::Uninitialized => r == Err::<TestWorker, HarnessError>(
                    HarnessError::NotInitialized,
                ),
                CoreState::ShutDown(_) => r == Err::<TestWorker, HarnessError>(
                    HarnessError::AlreadyShutDown,
                ),
                CoreState::Initialized(h) => r matches Ok(w) && w == (TestWorker {
                    engine: h,
                    task_queue: self.worker_config.task_queue,
                    wft_timeout: self.wft_timeout,
                    expected_runs: 0,
                    completed_runs: 0,
                }),
            },
    {
        match self.state {
            CoreState::Uninitialized => Err(HarnessError::NotInitialized),
            CoreState::ShutDown(_) => Err(HarnessError::AlreadyShutDown),
            CoreState::Initialized(h) => Ok(
                TestWorker::new(h, self.worker_config.task_queue.clone(), self.wft_timeout),
            ),
        }
    }
}

/// The engines handed out by `k` successive requests for the engine handle, where a
/// requested creation yields `fresh`, and how many creations were requested.
pub open spec fn get_core_n(s: CoreWfStarter, fresh: EngineId, k: nat) -> (Seq<EngineId>, nat)
    decreases k,
{
    if k == 0 {
        (seq![], 0)
    } else {
        match s.core_step() {
            CoreStep::Cached(h) => {
                let rest = get_core_n(s, fresh, (k - 1) as nat);
                (seq![h] + rest.0, rest.1)
            },
            CoreStep::Create(_) => {
                let rest = get_core_n(s.with_engine(fresh), fresh, (k - 1) as nat);
                (seq![fresh] + rest.0, rest.1 + 1)
            },
        }
    }
}

proof fn lemma_get_core_cached(s: CoreWfStarter, fresh: EngineId, h: EngineId, k: nat)
    requires
        s.core_step() == CoreStep::Cached(h),
    ensures
        get_core_n(s, fresh, k) == (Seq::new(k, |i: int| h), 0nat),
    decreases k,
{
    if k > 0 {
        lemma_get_core_cached(s, fresh, h, (k - 1) as nat);
        assert(seq![h] + Seq::new((k - 1) as nat, |i: int| h) =~= Seq::new(k, |i: int| h));
    }
}

/// Requesting the engine handle `k` times hands out one and the same engine every
/// time, and asks for an engine to be created at most once: exactly once when the
/// harness had none.
pub proof fn lemma_get_core_idempotent(s: CoreWfStarter, fresh: EngineId, k: nat)
    requires
        s.wf(),
        k > 0,
    ensures
        ({
            let h = match s.core_step() {
                CoreStep::Cached(h) => h,
                CoreStep::Create(_) => fresh,
            };
            get_core_n(s, fresh, k).0 == Seq::new(k, |i: int| h)
        }),
        get_core_n(s, fresh, k).1 == if s.state is Uninitialized {
            1nat
        } else {
            0nat
        },
{
    let k1 = (k - 1) as nat;
    match s.core_step() {
        CoreStep::Cached(h) => {
            lemma_get_core_cached(s, fresh, h, k);
        },
        CoreStep::Create(_) => {
            let t = s.with_engine(fresh);
            lemma_get_core_cached(t, fresh, fresh, k1);
            assert(seq![fresh] + Seq::new(k1, |i: int| fresh) =~= Seq::new(k, |i: int| fresh));
        },
    }
}

/// Changing the worker configuration once the worker is registered leaves the
/// registered configuration, and the engine handed out, as they were.
pub proof fn lemma_config_change_not_retroactive(s: CoreWfStarter, c: WorkerConfig)
    requires
        s.wf(),
        !(s.state is Uninitialized),
        c.task_queue == s.worker_config.task_queue,
    ensures
        ({
            let t = CoreWfStarter { worker_config: c, ..s };
            &&& t.wf()
            &&& t.registered == s.registered
            &&& t.core_step() == s.core_step()
        }),
{
}

/// Asking twice for shutdown never fails as a setup failure. Once an engine exists, the
/// first request stops it and the second is refused as already shut down; without an
/// engine, both are refused as usage errors. The second request changes nothing.
pub proof fn lemma_second_shutdown_refused(s: CoreWfStarter)
    requires
        s.wf(),
    ensures
        ({
            let (s1, r1) = s.after_shutdown();
            let (s2, r2) = s1.after_shutdown();
            &&& s2 == s1
            &&& s1.wf()
            &&& r2 == if s.state is Uninitialized {
                Err::<EngineId, HarnessError>(HarnessError::NotInitialized)
            } else {
                Err::<EngineId, HarnessError>(HarnessError::AlreadyShutDown)
            }
            &&& s.state matches CoreState::Initialized(h) ==> r1 == Ok::<EngineId, HarnessError>(h)
            &&& !(r1 matches Err(HarnessError::Setup(_)))
            &&& !(r2 matches Err(HarnessError::Setup(_)))
        }),
{
}

} // verus!
