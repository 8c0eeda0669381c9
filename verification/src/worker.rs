//! Supervision of the external worker subprocess.
//!
//! The supervisor records at most one worker process, identified by its
//! process id.  Spawning, killing and reaping are operating-system calls that
//! the caller performs; the supervisor decides what to spawn, which prior
//! worker must be terminated first, and which worker a stop must reap, so
//! that no handle is ever silently orphaned.

use vstd::prelude::*;
use vstd::string::StringExecFns;

verus! {

/// One step the caller performs while (re)starting the worker, in the order
/// given by `start_sidecar_actions`.
pub enum WorkerAction {
    /// Terminate and reap the previously recorded worker.
    Terminate { pid: u32 },
    /// Spawn the replacement worker.
    Spawn,
}

/// The steps a worker (re)start asks of the caller, given the recorded
/// worker: any required termination strictly precedes the new spawn.
pub open spec fn start_sidecar_actions(recorded: Option<u32>) -> Seq<WorkerAction> {
    match recorded {
        Some(pid) => seq![WorkerAction::Terminate { pid }, WorkerAction::Spawn],
        None => seq![WorkerAction::Spawn],
    }
}

/// Spawn-replacement safety: restarting the worker never spawns before every
/// previously recorded worker has been asked to terminate, so no two worker
/// processes are ever attributable to one supervisor at once.
pub proof fn lemma_spawn_replacement(recorded: Option<u32>)
    ensures
        forall|i: int, j: int|
            0 <= i < start_sidecar_actions(recorded).len() && 0 <= j
                < start_sidecar_actions(recorded).len() && start_sidecar_actions(recorded)[i]
                is Spawn && start_sidecar_actions(recorded)[j] is Terminate ==> j < i,
        recorded matches Some(pid) ==> start_sidecar_actions(recorded)
            == seq![WorkerAction::Terminate { pid }, WorkerAction::Spawn],
{
}

/// How the worker process is to be launched: the resolved interpreter, the
/// fixed entry-point argument, and whether to run in the backend directory
/// (else the current directory).
pub struct SpawnPlan {
    pub program: String,
    pub entry_arg: String,
    pub use_backend_dir: bool,
}

/// Interpreter name resolved through the process environment's search path
/// when no virtual-environment interpreter exists.
pub fn default_interpreter() -> (r: &'static str)
    ensures
        r@ == "python3"@,
{
    "python3"
}

/// Fixed entry-point argument the worker is spawned with.
pub fn worker_entry_point() -> (r: &'static str)
    ensures
        r@ == "main.py"@,
{
    "main.py"
}

/// The backend directory the worker prefers as its working directory,
/// relative to the current directory.
pub fn backend_dir() -> (r: &'static str)
    ensures
        r@ == "../backend"@,
{
    "../backend"
}

/// The virtual-environment interpreter candidate under a directory: the
/// caller passes the parent of the current working directory, unresolved, so
/// symbolic links inside the virtual environment stay intact.
pub fn venv_interpreter_path(parent_dir: &str) -> (r: String)
    ensures
        r@ == parent_dir@ + "/.venv/bin/python3"@,
{
    let mut path = String::from_str(parent_dir);
    path.append("/.venv/bin/python3");
    path
}

/// Resolve how to launch the worker.  The interpreter is the
/// virtual-environment candidate when it exists on the filesystem, else the
/// bare name for the search path; the working directory is the backend
/// directory when it exists, else the current directory; the entry-point
/// argument is fixed.
pub fn plan_spawn(venv_interpreter: String, venv_exists: bool, backend_exists: bool) -> (r:
    SpawnPlan)
    ensures
        venv_exists ==> r.program@ == venv_interpreter@,
        !venv_exists ==> r.program@ == "python3"@,
        r.entry_arg@ == "main.py"@,
        r.use_backend_dir == backend_exists,
{
    let program = if venv_exists {
        venv_interpreter
    } else {
        String::from_str(default_interpreter())
    };
    SpawnPlan { program, entry_arg: String::from_str(worker_entry_point()), use_backend_dir: backend_exists }
}

/// Owner of the worker-process slot.  At most one worker is recorded; its
/// process id stands for the handle the caller holds.
pub struct WorkerSupervisor {
    /// Process id of the recorded worker, if one is running.
    pub worker: Option<u32>,
}

impl WorkerSupervisor {
    /// A supervisor with no worker recorded.
    pub fn new() -> (r: Self)
        ensures
            r.worker is None,
    {
        WorkerSupervisor { worker: None }
    }

    /// First step of (re)starting the worker: empty the slot and surface the
    /// previously recorded worker, which the caller must terminate and reap
    /// before spawning the replacement.
    pub fn begin_spawn(&mut self) -> (r: Option<u32>)
        ensures
            final(self).worker is None,
            r == old(self).worker,
    {
        self.worker.take()
    }

    /// Record the freshly spawned worker.  The slot must be empty, so a
    /// prior worker can never be replaced without first being surfaced for
    /// termination by `begin_spawn` or `stop_sidecar`.
    pub fn record_spawn(&mut self, pid: u32)
        requires
            old(self).worker is None,
        ensures
            final(self).worker == Some(pid),
    {
        self.worker = Some(pid);
    }

    /// Stop the worker: empty the slot and surface the recorded worker for
    /// the caller to terminate and reap.  A no-op when none is recorded.
    pub fn stop_sidecar(&mut self) -> (r: Option<u32>)
        ensures
            final(self).worker is None,
            r == old(self).worker,
    {
        self.worker.take()
    }
}

} // verus!
