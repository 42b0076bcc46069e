//! Error taxonomy, exit reporting, and the session lifecycle states.

use vstd::prelude::*;

verus! {

/// Why creating a process failed. Fatal to session creation; never retried
/// by the library itself.
#[derive(Clone, Copy, Debug, PartialEq, Eq, Structural)]
pub enum SpawnError {
    /// The command did not resolve to an executable.
    NotFound,
    /// The command resolved, but is not executable by this user.
    PermissionDenied,
    /// The host could not create the process.
    ResourceExhausted,
}

/// An error surfaced on the specific `write`/`read` call that met it.
/// It does not tear down the other direction of the stream.
#[derive(Clone, Copy, Debug, PartialEq, Eq, Structural)]
pub enum IoError {
    /// The child's end of the stream is gone.
    BrokenPipe,
    /// The session has already entered `Closing`, `Terminated` or `Failed`.
    Closed,
    /// A time bound elapsed before the operation completed.
    Timeout,
}

/// How a child process ended: its exit code, and on platforms with signal
/// semantics the terminating signal, if any.
#[derive(Clone, Copy, Debug, PartialEq, Eq, Structural)]
pub struct ExitStatus {
    pub code: Option<i32>,
    pub signal: Option<i32>,
}

/// The lifecycle of one session. Transitions are monotonic: no transition
/// returns to an earlier state, and `Terminated` and `Failed` are terminal.
#[derive(Clone, Copy, Debug, PartialEq, Eq, Structural)]
pub enum SessionState {
    /// The spawn request was made; the native process is not live yet.
    Spawning,
    /// The process and both pumps are live.
    Running,
    /// Shutdown was requested, or the child's output reached end-of-data.
    Closing,
    /// The process exited and its status was reaped.
    Terminated(ExitStatus),
    /// The spawn itself failed; no process ever existed.
    Failed(SpawnError),
}

/// What `terminate` resolves to: the status of a natural exit, or the
/// status after a forced kill.
#[derive(Clone, Copy, Debug, PartialEq, Eq, Structural)]
pub enum TerminateOutcome {
    /// The child exited on its own within the time bound.
    Exited(ExitStatus),
    /// The child had to be killed after the time bound elapsed.
    Forced(ExitStatus),
}

impl SessionState {
    /// Position of a state in the lifecycle order; both terminal states
    /// share the final position.
    pub open spec fn rank(self) -> int {
        match self {
            SessionState::Spawning => 0,
            SessionState::Running => 1,
            SessionState::Closing => 2,
            SessionState::Terminated(_) => 3,
            SessionState::Failed(_) => 3,
        }
    }

    /// A terminal state: no transition ever leaves it.
    pub open spec fn is_terminal(self) -> bool {
        self is Terminated || self is Failed
    }

    /// States in which `write` still accepts bytes.
    pub open spec fn accepts_input(self) -> bool {
        self is Spawning || self is Running
    }
}

} // verus!
