//! The process supervisor: ownership of the native process handle and the
//! decisions of its lifecycle — when a kill is actually issued, what a
//! repeated wait returns, when the handle's resources are released, and
//! how a bounded termination request resolves.
//!
//! The native operations themselves (sending the signal, awaiting the
//! exit) happen outside this library; their driver consults these
//! transitions before every move and reports every observation back.

use vstd::prelude::*;

use crate::status::ExitStatus;
use crate::status::SpawnError;
use crate::status::TerminateOutcome;

verus! {

/// What the driver of `terminate` must do next.
#[derive(Clone, Copy, Debug, PartialEq, Eq, Structural)]
pub enum TerminateAction {
    /// Keep waiting: the time bound has not elapsed and the child may
    /// still exit naturally.
    Wait,
    /// The time bound elapsed without an exit: forcibly kill the child.
    Kill,
    /// The status is resolved; termination is complete.
    Done(TerminateOutcome),
}

/// The supervisor's view of one native process handle.
#[derive(Clone, Copy, Debug, PartialEq, Eq, Structural)]
pub struct Supervisor {
    /// The exit status, cached once observed; repeated waits return it
    /// without suspending again.
    pub exit: Option<ExitStatus>,
    /// A forced kill was issued at some point.
    pub kill_requested: bool,
    /// Reaping the exit failed: fatal and unrecoverable. The handle's
    /// resources are deliberately leaked rather than released on a guess.
    pub observation_failed: bool,
    /// The handle's resources were given back. This happens exactly once.
    pub released: bool,
}

/// What `kill` does: the new supervisor and whether a signal is actually
/// issued. A kill on an already-exited or already-killed process is a
/// no-op — a benign race, not an error.
pub open spec fn kill_transition(s: Supervisor) -> (Supervisor, bool) {
    if s.exit is Some || s.kill_requested {
        (s, false)
    } else {
        (Supervisor { kill_requested: true, ..s }, true)
    }
}

/// What observing an exit does: the status is cached once and for all.
pub open spec fn exit_recorded(s: Supervisor, status: ExitStatus) -> Supervisor {
    Supervisor { exit: Some(status), ..s }
}

/// How a `terminate(timeout)` request proceeds, given whether the time
/// bound has elapsed: once the status is cached the request is done — a
/// natural exit unless a kill had to be issued; before that, the driver
/// waits until the bound elapses and then kills.
pub open spec fn terminate_decision(s: Supervisor, deadline_elapsed: bool) -> TerminateAction {
    match s.exit {
        Some(st) => TerminateAction::Done(
            if s.kill_requested {
                TerminateOutcome::Forced(st)
            } else {
                TerminateOutcome::Exited(st)
            },
        ),
        None => if deadline_elapsed {
            TerminateAction::Kill
        } else {
            TerminateAction::Wait
        },
    }
}

impl Supervisor {
    /// Resources may be released only after the process is gone — a clean
    /// exit was observed or a kill was issued — never after a failed exit
    /// observation, and only once.
    pub open spec fn wf(self) -> bool {
        self.released ==> (self.exit is Some || self.kill_requested) && !self.observation_failed
    }

    /// The supervisor for a process that just spawned: nothing observed,
    /// nothing issued, resources still held.
    pub fn attach() -> (s: Supervisor)
        ensures
            s.wf(),
            s.exit is None,
            !s.kill_requested,
            !s.observation_failed,
            !s.released,
    {
        Supervisor { exit: None, kill_requested: false, observation_failed: false, released: false }
    }

    /// Decide a forced termination. Returns whether the driver must
    /// actually signal the process; a repeated kill, or one after the
    /// exit was already observed, issues nothing and changes nothing.
    pub fn kill(&mut self) -> (issued: bool)
        requires
            old(self).wf(),
        ensures
            final(self).wf(),
            (*final(self), issued) == kill_transition(*old(self)),
            issued == (old(self).exit is None && !old(self).kill_requested),
    {
        if self.exit.is_some() || self.kill_requested {
            false
        } else {
            self.kill_requested = true;
            true
        }
    }

    /// Cache the observed exit status. The supervisor observes a process
    /// exit exactly once; every later wait is answered from the cache.
    pub fn record_exit(&mut self, status: ExitStatus)
        requires
            old(self).wf(),
            old(self).exit is None,
        ensures
            final(self).wf(),
            *final(self) == exit_recorded(*old(self), status),
    {
        self.exit = Some(status);
    }

    /// The cached exit status: `wait` resolves immediately to this once
    /// the process has exited.
    pub fn cached_exit(&self) -> (r: Option<ExitStatus>)
        ensures
            r == self.exit,
    {
        self.exit
    }

    /// Reaping the process failed: no exit will ever be observed. Fatal
    /// and unrecoverable; the resources leak rather than hang a waiter.
    pub fn note_observation_failure(&mut self)
        requires
            old(self).wf(),
            old(self).exit is None,
            !old(self).released,
        ensures
            final(self).wf(),
            final(self).observation_failed,
            final(self).exit == old(self).exit,
            final(self).kill_requested == old(self).kill_requested,
            !final(self).released,
    {
        self.observation_failed = true;
    }

    /// Give the handle's resources back. Allowed exactly once, only after
    /// a clean exit observation or a forced termination, and never after
    /// a failed exit observation.
    pub fn release(&mut self)
        requires
            old(self).wf(),
            !old(self).released,
            !old(self).observation_failed,
            old(self).exit is Some || old(self).kill_requested,
        ensures
            final(self).wf(),
            final(self).released,
            final(self).exit == old(self).exit,
            final(self).kill_requested == old(self).kill_requested,
    {
        self.released = true;
    }

    /// Best-effort signalling: a signal may be delivered only while no
    /// exit has been observed. Afterwards the request is a benign race —
    /// reported as a no-op, never an error.
    pub fn may_signal(&self) -> (r: bool)
        ensures
            r == (self.exit is None),
    {
        self.exit.is_none()
    }

    /// One step of a bounded termination request.
    pub fn terminate_step(&self, deadline_elapsed: bool) -> (a: TerminateAction)
        ensures
            a == terminate_decision(*self, deadline_elapsed),
    {
        match self.exit {
            Some(st) => TerminateAction::Done(
                if self.kill_requested {
                    TerminateOutcome::Forced(st)
                } else {
                    TerminateOutcome::Exited(st)
                },
            ),
            None => if deadline_elapsed {
                TerminateAction::Kill
            } else {
                TerminateAction::Wait
            },
        }
    }
}

/// Map the host's report of a failed spawn onto the spawn taxonomy: the
/// command did not resolve, it resolved but is not executable, or the
/// host could not create the process.
pub fn classify_spawn_failure(not_found: bool, permission_denied: bool) -> (e: SpawnError)
    ensures
        e == (if not_found {
            SpawnError::NotFound
        } else if permission_denied {
            SpawnError::PermissionDenied
        } else {
            SpawnError::ResourceExhausted
        }),
{
    if not_found {
        SpawnError::NotFound
    } else if permission_denied {
        SpawnError::PermissionDenied
    } else {
        SpawnError::ResourceExhausted
    }
}

/// `kill` is idempotent and safe after exit: a second kill, or a kill on
/// an already-exited process, issues no signal and changes nothing — no
/// error, and no second release of process resources.
pub proof fn lemma_kill_idempotent(s: Supervisor)
    ensures
        kill_transition(kill_transition(s).0).0 == kill_transition(s).0,
        !kill_transition(kill_transition(s).0).1,
        s.exit is Some ==> kill_transition(s).0 == s && !kill_transition(s).1,
        kill_transition(s).0.released == s.released,
{
}

/// A bounded termination request never stalls once the time bound has
/// elapsed: the decision is then never to wait — either the kill is
/// issued or the status is already resolved.
pub proof fn lemma_terminate_never_stalls(s: Supervisor)
    ensures
        !(terminate_decision(s, true) is Wait),
{
}

/// A child that ignores the shutdown request and never exits on its own
/// is forcibly killed once the time bound elapses, and as soon as the
/// forced exit is observed the request resolves to `Forced` with the
/// status that was reaped.
pub proof fn lemma_terminate_forces_resolution(s: Supervisor, status: ExitStatus)
    requires
        s.exit is None,
    ensures
        terminate_decision(s, true) == TerminateAction::Kill,
        ({
            let killed = kill_transition(s).0;
            terminate_decision(exit_recorded(killed, status), true) == TerminateAction::Done(
                TerminateOutcome::Forced(status),
            )
        }),
{
}

/// A child that exits naturally within the bound resolves to `Exited`
/// with its status, with no kill ever issued.
pub proof fn lemma_terminate_natural_exit(s: Supervisor, status: ExitStatus)
    requires
        s.exit is None,
        !s.kill_requested,
    ensures
        terminate_decision(exit_recorded(s, status), false) == TerminateAction::Done(
            TerminateOutcome::Exited(status),
        ),
{
}

} // verus!
