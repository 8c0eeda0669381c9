//! The capture engine: one dedicated thread per session, one stop signal.
//!
//! The audio device handle must be created, used and destroyed on a single
//! thread, so the engine never touches it: the caller spawns the capture
//! thread, moves the stop receiver into it, and reports back whether device
//! and stream setup succeeded.  The engine owns every decision: whether a
//! start is a no-op, when a fresh stop signal is minted, and when it is
//! consumed.  Sessions are numbered in mint order by a ghost counter, which
//! is what makes "each session has its own stop signal" a provable fact.

use vstd::prelude::*;
use crate::stop_signal::send_stop;
use crate::stop_signal::stop_channel;

verus! {

/// The phase of the engine.  `Starting` lasts only while the capture thread
/// performs device and stream setup; a setup failure returns to `Idle`.
/// The session number names the stop signal minted for that session.
pub enum CapturePhase {
    Idle,
    Starting { session: nat },
    Active { session: nat },
}

/// Mathematical model of the engine: its phase, and how many stop signals
/// have ever been minted.  A session number is fresh exactly when it equals
/// the mint count at the moment the session begins.
pub struct CaptureModel {
    pub phase: CapturePhase,
    pub minted: nat,
}

impl CaptureModel {
    /// Any live session carries a signal that was really minted.
    pub open spec fn wf(self) -> bool {
        match self.phase {
            CapturePhase::Idle => true,
            CapturePhase::Starting { session } => session < self.minted,
            CapturePhase::Active { session } => session < self.minted,
        }
    }

    /// The state before any session: idle, nothing minted.
    pub open spec fn init() -> CaptureModel {
        CaptureModel { phase: CapturePhase::Idle, minted: 0 }
    }

    /// Whether a session is live in some form: a start must then be a no-op.
    pub open spec fn is_session_live(self) -> bool {
        !(self.phase is Idle)
    }

    /// A start: when idle, mint the next session and enter setup; the second
    /// component says whether anything was launched.  When a session is
    /// live, nothing changes.
    pub open spec fn begin_start(self) -> (CaptureModel, bool) {
        if self.phase is Idle {
            (
                CaptureModel {
                    phase: CapturePhase::Starting { session: self.minted },
                    minted: self.minted + 1,
                },
                true,
            )
        } else {
            (self, false)
        }
    }

    /// The setup outcome reported by the capture thread: success makes the
    /// session active; failure returns to idle, the session over.
    pub open spec fn finish_start(self, ok: bool) -> CaptureModel {
        match self.phase {
            CapturePhase::Starting { session } => if ok {
                CaptureModel { phase: CapturePhase::Active { session }, ..self }
            } else {
                CaptureModel { phase: CapturePhase::Idle, ..self }
            },
            _ => self,
        }
    }

    /// A stop: back to idle from any phase; mint history is kept, so a later
    /// session can never reuse a spent signal's number.
    pub open spec fn stop(self) -> CaptureModel {
        CaptureModel { phase: CapturePhase::Idle, ..self }
    }
}

/// Idempotent start: while any session is live, a further start changes
/// nothing and launches nothing.
pub proof fn lemma_start_idempotent(m: CaptureModel)
    requires
        m.is_session_live(),
    ensures
        m.begin_start() == (m, false),
{
}

/// Stop is idempotent: stopping an idle engine changes nothing.
pub proof fn lemma_stop_idle(m: CaptureModel)
    requires
        m.phase is Idle,
    ensures
        m.stop() == m,
{
}

/// Session independence: a full start-stop-start cycle mints two sessions
/// with distinct numbers, so the first session's stop signal names a session
/// that the second one never is.
pub proof fn lemma_cycle_mints_fresh_session(m: CaptureModel, ok: bool)
    requires
        m.wf(),
        m.phase is Idle,
    ensures
        ({
            let first = m.begin_start().0;
            let second = first.finish_start(ok).stop().begin_start().0;
            &&& first.phase matches CapturePhase::Starting { session: s1 }
            &&& second.phase matches CapturePhase::Starting { session: s2 }
            &&& s1 != s2
        }),
{
}

/// Owner of the session flag and the stop-signal sender.  The receiver half
/// of each minted signal is handed to the caller, who moves it into the
/// capture thread it spawns.
pub struct CaptureEngine {
    recording: bool,
    starting: bool,
    stop_tx: Option<tokio::sync::oneshot::Sender<()>>,
    session: Ghost<nat>,
    minted: Ghost<nat>,
}

impl View for CaptureEngine {
    type V = CaptureModel;

    closed spec fn view(&self) -> CaptureModel {
        CaptureModel {
            phase: if self.recording {
                CapturePhase::Active { session: self.session@ }
            } else if self.starting {
                CapturePhase::Starting { session: self.session@ }
            } else {
                CapturePhase::Idle
            },
            minted: self.minted@,
        }
    }
}

impl CaptureEngine {
    /// The stop-signal sender is held exactly while a session is live, and
    /// its session number was really minted.
    pub closed spec fn wf(&self) -> bool {
        &&& (self.stop_tx is Some <==> (self.recording || self.starting))
        &&& !(self.recording && self.starting)
        &&& ((self.recording || self.starting) ==> self.session@ < self.minted@)
    }

    /// An idle engine with no session ever minted.
    pub fn new() -> (r: Self)
        ensures
            r.wf(),
            r@ == CaptureModel::init(),
    {
        CaptureEngine {
            recording: false,
            starting: false,
            stop_tx: None,
            session: Ghost(0),
            minted: Ghost(0),
        }
    }

    /// Whether a session is live in some form — active, or still in setup.
    pub fn is_session_live(&self) -> (r: bool)
        ensures
            r == self@.is_session_live(),
    {
        self.recording || self.starting
    }

    /// Begin a start.  When a session is already live this is the no-op the
    /// idempotent start contract asks for, and no receiver is returned.
    /// Otherwise a fresh stop signal is minted, its sender is stored, and
    /// its receiver is returned for the caller to move into the capture
    /// thread it now spawns; the engine is in setup until `finish_start`.
    pub fn begin_start(&mut self) -> (r: Option<tokio::sync::oneshot::Receiver<()>>)
        requires
            old(self).wf(),
        ensures
            final(self).wf(),
            final(self)@ == old(self)@.begin_start().0,
            (r is Some) == old(self)@.begin_start().1,
    {
        if self.recording || self.starting {
            None
        } else {
            let (tx, rx) = stop_channel();
            self.stop_tx = Some(tx);
            self.starting = true;
            self.session = Ghost(self.minted@);
            self.minted = Ghost(self.minted@ + 1);
            Some(rx)
        }
    }

    /// Record the setup result the capture thread reported: on success the
    /// session is active; on failure the thread has already returned, so the
    /// spent sender is dropped and the engine is idle again.
    pub fn finish_start(&mut self, ok: bool)
        requires
            old(self).wf(),
            old(self)@.phase is Starting,
        ensures
            final(self).wf(),
            final(self)@ == old(self)@.finish_start(ok),
    {
        if ok {
            self.recording = true;
            self.starting = false;
        } else {
            let _spent = self.stop_tx.take();
            self.starting = false;
        }
    }

    /// Stop the session: consume the stored sender, if any, to unblock the
    /// capture thread — which then drops the stream and releases the device
    /// — and clear the session flag.  Idempotent, and non-blocking: the
    /// thread winds down on its own, its only other exit path long gone.
    pub fn stop_capture(&mut self)
        requires
            old(self).wf(),
        ensures
            final(self).wf(),
            final(self)@ == old(self)@.stop(),
    {
        match self.stop_tx.take() {
            Some(tx) => {
                let _delivered = send_stop(tx);
            },
            None => {},
        }
        self.recording = false;
        self.starting = false;
    }
}

} // verus!
