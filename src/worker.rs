use vstd::prelude::*;
use crate::harness::{EngineId, HarnessError};
use crate::time::Duration;

verus! {

/// A worker bound to one task queue, running on an engine that can be swapped, and
/// counting the workflow runs it expects and has seen complete.
#[derive(Debug, PartialEq, Eq)]
pub struct TestWorker {
    pub engine: EngineId,
    pub task_queue: String,
    pub wft_timeout: Option<Duration>,
    pub expected_runs: u64,
    pub completed_runs: u64,
}

impl TestWorker {
    /// No more runs have completed than were expected.
    pub open spec fn wf(&self) -> bool {
        self.completed_runs <= self.expected_runs
    }

    /// The worker has seen every expected run complete.
    pub open spec fn done(&self) -> bool {
        self.completed_runs >= self.expected_runs
    }

    /// The worker once it runs on `engine` instead, every other field kept.
    pub open spec fn on_engine(self, engine: EngineId) -> TestWorker {
        TestWorker { engine, ..self }
    }

    /// The worker once it expects `n` more runs.
    pub open spec fn expecting(self, n: u64) -> TestWorker {
        TestWorker { expected_runs: (self.expected_runs + n) as u64, ..self }
    }

    /// The worker once one more run has completed.
    pub open spec fn after_run(self) -> TestWorker {
        TestWorker { completed_runs: (self.completed_runs + 1) as u64, ..self }
    }

    /// The worker after it moved onto replay engine `replay` and expects one more run.
    pub open spec fn replaying(self, replay: EngineId) -> TestWorker {
        self.on_engine(replay).expecting(1)
    }

    pub fn new(engine: EngineId, task_queue: String, wft_timeout: Option<Duration>) -> (r:
        TestWorker)
        ensures
            r == (TestWorker {
                engine,
                task_queue,
                wft_timeout,
                expected_runs: 0,
                completed_runs: 0,
            }),
            r.wf(),
    {
        TestWorker { engine, task_queue, wft_timeout, expected_runs: 0, completed_runs: 0 }
    }

    pub fn task_queue(&self) -> (r: &str)
        ensures
            r@ == self.task_queue@,
    {
        self.task_queue.as_str()
    }

    /// Moves the worker onto `engine`, returning the engine it ran on. Its queue and
    /// counters stay as they were.
    pub fn swap_core(&mut self, engine: EngineId) -> (r: EngineId)
        ensures
            r == old(self).engine,
            *final(self) == old(self).on_engine(engine),
    {
        let previous = self.engine;
        self.engine = engine;
        previous
    }

    /// Expects `n` more runs to complete.
    pub fn incr_expected_run_count(&mut self, n: u64)
        requires
            old(self).expected_runs + n <= u64::MAX,
        ensures
            *final(self) == old(self).expecting(n),
    {
        self.expected_runs = self.expected_runs + n;
    }

    /// Whether every expected run has completed.
    pub fn is_done(&self) -> (r: bool)
        ensures
            r == self.done(),
    {
        self.completed_runs >= self.expected_runs
    }

    /// Records one completed run, reporting whether every expected run has now
    /// completed.
    pub fn record_completed_run(&mut self) -> (r: bool)
        requires
            old(self).wf(),
            !old(self).done(),
        ensures
            final(self).wf(),
            *final(self) == old(self).after_run(),
            r == final(self).done(),
    {
        self.completed_runs = self.completed_runs + 1;
        self.completed_runs >= self.expected_runs
    }

    /// Moves the worker onto replay engine `replay` and expects one more run: the run
    /// that the replay is about to perform. Returns the engine the worker ran on.
    pub fn begin_replay(&mut self, replay: EngineId) -> (r: EngineId)
        requires
            old(self).expected_runs < u64::MAX,
        ensures
            r == old(self).engine,
            *final(self) == old(self).replaying(replay),
    {
        let previous = self.swap_core(replay);
        self.incr_expected_run_count(1);
        previous
    }

    /// What driving the replay came to: an error the replay engine reported is a
    /// failed verification, as is stopping before every expected run completed.
    pub fn finish_replay(&self, driven: Result<(), String>) -> (r: Result<(), HarnessError>)
        ensures
            match driven {
                Err(m) => r == Err::<(), HarnessError>(HarnessError::Replay(m)),
                Ok(_) => (r is Ok) == self.done(),
            },
            r matches Err(e) ==> e is Replay,
    {
        match driven {
            Err(m) => Err(HarnessError::Replay(m)),
            Ok(()) => {
                if self.is_done() {
                    Ok(())
                } else {
                    Err(HarnessError::Replay("the worker stopped before its runs completed".to_owned()))
                }
            },
        }
    }
}

/// The worker after `k` more runs completed.
pub open spec fn after_runs(w: TestWorker, k: nat) -> TestWorker
    decreases k,
{
    if k == 0 {
        w
    } else {
        after_runs(w, (k - 1) as nat).after_run()
    }
}

proof fn lemma_after_runs(w: TestWorker, k: nat)
    requires
        w.completed_runs + k <= u64::MAX,
    ensures
        after_runs(w, k) == (TestWorker { completed_runs: (w.completed_runs + k) as u64, ..w }),
    decreases k,
{
    if k > 0 {
        lemma_after_runs(w, (k - 1) as nat);
    }
}

/// Starting a replay adds exactly one expected run and keeps the worker's queue and
/// completed runs; once the runs it is owed complete, the worker is done, with as many
/// completed runs as expected.
pub proof fn lemma_replay_adds_one_run(w: TestWorker, replay: EngineId)
    requires
        w.wf(),
        w.expected_runs < u64::MAX,
    ensures
        ({
            let r = w.replaying(replay);
            let finished = after_runs(r, (r.expected_runs - r.completed_runs) as nat);
            &&& r.expected_runs == w.expected_runs + 1
            &&& r.completed_runs == w.completed_runs
            &&& r.task_queue == w.task_queue
            &&& r.engine == replay
            &&& r.wf() && !r.done()
            &&& finished.done()
            &&& finished.completed_runs == r.expected_runs
            &&& finished.expected_runs == r.expected_runs
        }),
{
    let r = w.replaying(replay);
    lemma_after_runs(r, (r.expected_runs - r.completed_runs) as nat);
}

} // verus!
