//! The pipeline coordinator: one start/stop contract over both subsystems.
//!
//! A start spawns the worker first and begins capture only once the worker
//! is up, so a failed spawn leaves no partial pipeline.  A stop halts
//! capture first — consuming the stop signal, which makes the capture
//! thread drop the stream, release the device and cease forwarding — and
//! only then surfaces the worker for termination, so the worker's input
//! channel is closed by an intentional release, never by a write into a
//! dying pipe.  The caller performs the spawning, killing and reaping the
//! coordinator asks for, and reports the outcomes back; each step's
//! contract pins the state either way.

use vstd::prelude::*;
use crate::capture::CaptureEngine;
use crate::capture::CaptureModel;
use crate::capture::CapturePhase;
use crate::worker::WorkerSupervisor;

verus! {

/// Where the coordinator stands between the steps of a start.  Callers are
/// serialized, so outside a start the coordinator is always `Ready`.
#[derive(Clone, Copy, PartialEq, Eq, Structural)]
pub enum StartStep {
    /// No start in flight.
    Ready,
    /// The caller was asked to spawn the worker.
    AwaitingWorker,
    /// The caller was asked to spawn the capture thread and report setup.
    AwaitingCapture,
}

/// What the first step of a start asks of the caller.
#[derive(Clone, Copy)]
pub enum StartBegin {
    /// A session is already live: the start is a successful no-op.
    AlreadyActive,
    /// Spawn the worker — after terminating and reaping the surfaced prior
    /// worker, if any, so it is never orphaned.
    SpawnWorker { terminate_first: Option<u32> },
}

/// One teardown action of a stop, in the order the caller must see them.
pub enum StopAction {
    /// The capture session was halted: its stop signal consumed, the device
    /// released by the capture thread, forwarding over.
    HaltCapture { session: nat },
    /// The recorded worker is surfaced for termination and reaping.
    TerminateWorker { pid: u32 },
}

/// Mathematical model of the whole pipeline.
pub struct CoordModel {
    pub capture: CaptureModel,
    pub worker: Option<u32>,
    pub step: StartStep,
}

impl CoordModel {
    pub open spec fn wf(self) -> bool {
        &&& self.capture.wf()
        &&& (self.step is AwaitingWorker ==> self.capture.phase is Idle && self.worker is None)
        &&& (self.step is AwaitingCapture ==> self.capture.phase is Starting)
    }

    /// The state the pipeline is injected with at application startup.
    pub open spec fn init() -> CoordModel {
        CoordModel { capture: CaptureModel::init(), worker: None, step: StartStep::Ready }
    }

    /// First step of a start: a no-op while a session is live or a start is
    /// in flight; otherwise the worker slot is emptied — its occupant
    /// surfaced for termination — and a worker spawn is requested.
    pub open spec fn start_begin(self) -> (CoordModel, StartBegin) {
        if self.capture.is_session_live() || !(self.step is Ready) {
            (self, StartBegin::AlreadyActive)
        } else {
            (
                CoordModel { worker: None, step: StartStep::AwaitingWorker, ..self },
                StartBegin::SpawnWorker { terminate_first: self.worker },
            )
        }
    }

    /// The worker failed to spawn: the start is over, no capture was begun,
    /// and no stale handle is left behind.
    pub open spec fn start_worker_failed(self) -> CoordModel {
        CoordModel { step: StartStep::Ready, ..self }
    }

    /// The worker is up: record it and begin capture, minting the session's
    /// stop signal.
    pub open spec fn start_worker_spawned(self, pid: u32) -> CoordModel {
        CoordModel {
            capture: self.capture.begin_start().0,
            worker: Some(pid),
            step: StartStep::AwaitingCapture,
        }
    }

    /// The capture thread reported its setup result; the start is over.  On
    /// failure the worker stays recorded, and a stop alone reaches idle.
    pub open spec fn start_capture_result(self, ok: bool) -> CoordModel {
        CoordModel { capture: self.capture.finish_start(ok), step: StartStep::Ready, ..self }
    }

    /// A stop: capture halts and the worker slot empties, from any state.
    pub open spec fn stop(self) -> CoordModel {
        CoordModel { capture: self.capture.stop(), worker: None, step: StartStep::Ready }
    }

    /// The teardown actions of a stop, in order: halting capture, where a
    /// session was live, strictly precedes terminating the worker.
    pub open spec fn stop_actions(self) -> Seq<StopAction> {
        (match self.capture.phase {
            CapturePhase::Idle => seq![],
            CapturePhase::Starting { session } => seq![StopAction::HaltCapture { session }],
            CapturePhase::Active { session } => seq![StopAction::HaltCapture { session }],
        }) + (match self.worker {
            Some(pid) => seq![StopAction::TerminateWorker { pid }],
            None => seq![],
        })
    }
}

/// Idempotent start: after a completed successful start, a further start
/// leaves the pipeline untouched and asks for nothing — still the one
/// capture session, still the one worker.
pub proof fn lemma_start_twice_second_noop(m: CoordModel, pid: u32)
    requires
        m.wf(),
        m.capture.phase is Idle,
        m.step is Ready,
    ensures
        ({
            let started = m.start_begin().0.start_worker_spawned(pid).start_capture_result(true);
            started.start_begin() == (started, StartBegin::AlreadyActive)
        }),
{
}

/// Idempotent stop: stopping with no session live and no worker recorded
/// changes nothing and asks for no teardown action at all.
pub proof fn lemma_stop_idle_noop(m: CoordModel)
    requires
        m.wf(),
        m.capture.phase is Idle,
        m.worker is None,
        m.step is Ready,
    ensures
        m.stop() == m,
        m.stop_actions() == Seq::<StopAction>::empty(),
{
    assert(m.stop_actions() =~= Seq::<StopAction>::empty());
    assert(m.stop() == m);
}

/// Full cycle: start, stop, start again gives two independent sessions —
/// each a live pipeline with its own worker, and stop signals with distinct
/// session numbers, so the first session's signal names no part of the
/// second.
pub proof fn lemma_full_cycle_independent_sessions(m: CoordModel, pid1: u32, pid2: u32)
    requires
        m.wf(),
        m.capture.phase is Idle,
        m.step is Ready,
    ensures
        ({
            let first = m.start_begin().0.start_worker_spawned(pid1).start_capture_result(true);
            let second = first.stop().start_begin().0.start_worker_spawned(
                pid2,
            ).start_capture_result(true);
            &&& first.wf() && second.wf()
            &&& first.capture.phase matches CapturePhase::Active { session: s1 }
            &&& second.capture.phase matches CapturePhase::Active { session: s2 }
            &&& s1 != s2
            &&& first.worker == Some(pid1) && second.worker == Some(pid2)
        }),
{
}

/// Teardown completeness, as far as the model reaches: a stop leaves no
/// session live and no worker recorded, whatever state it started from.
/// The capture thread then releases the device on its own, its only other
/// exit path long gone, and the surfaced worker is reaped by the caller
/// before the stop is reported done.
pub proof fn lemma_stop_reaches_idle(m: CoordModel)
    requires
        m.wf(),
    ensures
        m.stop().wf(),
        m.stop().capture.phase is Idle,
        m.stop().worker is None,
{
}

/// Stop ordering: in the teardown actions of any stop, halting capture
/// strictly precedes terminating the worker, so forwarding has ceased — the
/// device released by an intentional stop — before the worker is ever asked
/// to go.
pub proof fn lemma_stop_halts_capture_before_worker(m: CoordModel, i: int, j: int)
    requires
        0 <= i < m.stop_actions().len(),
        0 <= j < m.stop_actions().len(),
        m.stop_actions()[i] is HaltCapture,
        m.stop_actions()[j] is TerminateWorker,
    ensures
        i < j,
{
}

/// Owner of both subsystems.  The caller drives each start step to
/// completion and performs the spawning and termination the results ask
/// for; stop works from any state.
pub struct PipelineCoordinator {
    capture: CaptureEngine,
    worker: WorkerSupervisor,
    step: StartStep,
}

impl View for PipelineCoordinator {
    type V = CoordModel;

    closed spec fn view(&self) -> CoordModel {
        CoordModel { capture: self.capture@, worker: self.worker.worker, step: self.step }
    }
}

impl PipelineCoordinator {
    pub closed spec fn wf(&self) -> bool {
        &&& self.capture.wf()
        &&& self@.wf()
    }

    /// An idle pipeline: no session, no worker.
    pub fn new() -> (r: Self)
        ensures
            r.wf(),
            r@ == CoordModel::init(),
    {
        PipelineCoordinator {
            capture: CaptureEngine::new(),
            worker: WorkerSupervisor::new(),
            step: StartStep::Ready,
        }
    }

    /// First step of a start.  `AlreadyActive` means the start is a
    /// successful no-op; `SpawnWorker` asks the caller to terminate and
    /// reap the surfaced prior worker, if any, then spawn the worker and
    /// report with `start_worker_spawned` or `start_worker_failed`.
    pub fn start_begin(&mut self) -> (r: StartBegin)
        requires
            old(self).wf(),
        ensures
            final(self).wf(),
            final(self)@ == old(self)@.start_begin().0,
            r == old(self)@.start_begin().1,
    {
        let live = self.capture.is_session_live();
        match self.step {
            StartStep::Ready => {
                if live {
                    StartBegin::AlreadyActive
                } else {
                    let prior = self.worker.begin_spawn();
                    self.step = StartStep::AwaitingWorker;
                    StartBegin::SpawnWorker { terminate_first: prior }
                }
            },
            _ => StartBegin::AlreadyActive,
        }
    }

    /// The worker failed to spawn: fail fast.  Capture was never begun, the
    /// error is the caller's to surface, and the pipeline is idle again.
    pub fn start_worker_failed(&mut self)
        requires
            old(self).wf(),
            old(self)@.step is AwaitingWorker,
        ensures
            final(self).wf(),
            final(self)@ == old(self)@.start_worker_failed(),
    {
        self.step = StartStep::Ready;
    }

    /// The worker is up: record it, mint the session's stop signal, and
    /// return the receiver for the caller to move into the capture thread
    /// it now spawns.  The thread's setup result comes back through
    /// `start_capture_result`.
    pub fn start_worker_spawned(&mut self, pid: u32) -> (r: tokio::sync::oneshot::Receiver<()>)
        requires
            old(self).wf(),
            old(self)@.step is AwaitingWorker,
        ensures
            final(self).wf(),
            final(self)@ == old(self)@.start_worker_spawned(pid),
    {
        self.worker.record_spawn(pid);
        let rx_opt = self.capture.begin_start();
        self.step = StartStep::AwaitingCapture;
        match rx_opt {
            Some(rx) => rx,
            None => vstd::pervasive::unreached(),
        }
    }

    /// Record the capture thread's setup result.  On failure the worker
    /// stays recorded and a stop alone reaches idle; nothing is rolled back
    /// here.
    pub fn start_capture_result(&mut self, ok: bool)
        requires
            old(self).wf(),
            old(self)@.step is AwaitingCapture,
        ensures
            final(self).wf(),
            final(self)@ == old(self)@.start_capture_result(ok),
    {
        self.capture.finish_start(ok);
        self.step = StartStep::Ready;
    }

    /// Stop the pipeline, unconditionally.  Capture is halted first — the
    /// stop signal is consumed before this returns, so forwarding has
    /// ceased and the capture thread is releasing the device — and only
    /// then is the recorded worker surfaced, for the caller to terminate
    /// and reap.  Idempotent, and total: from any state, this alone reaches
    /// idle.
    pub fn stop(&mut self) -> (r: Option<u32>)
        requires
            old(self).wf(),
        ensures
            final(self).wf(),
            final(self)@ == old(self)@.stop(),
            r == old(self)@.worker,
    {
        self.capture.stop_capture();
        self.step = StartStep::Ready;
        self.worker.stop_sidecar()
    }
}

/// Application-wide state: the one pipeline, injected at startup.
pub struct AppState {
    pub audio: Option<PipelineCoordinator>,
}

impl AppState {
    pub fn new() -> (r: Self)
        ensures
            r.audio is None,
    {
        AppState { audio: None }
    }
}

/// The pipeline the application manages from startup on.
pub fn init_audio_state() -> (r: PipelineCoordinator)
    ensures
        r.wf(),
        r@ == CoordModel::init(),
{
    PipelineCoordinator::new()
}

} // verus!
