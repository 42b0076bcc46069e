use terminal_core::ExitStatus;
use terminal_core::SpawnError;
use terminal_core::Supervisor;
use terminal_core::TerminateAction;
use terminal_core::TerminateOutcome;
use terminal_core::classify_spawn_failure;

#[test]
fn kill_twice_is_a_no_op() {
    let mut sup = Supervisor::attach();
    assert!(sup.kill());
    // The second kill issues nothing and changes nothing.
    assert!(!sup.kill());
    assert!(!sup.kill());
}

#[test]
fn kill_after_natural_exit_is_a_no_op() {
    let mut sup = Supervisor::attach();
    sup.record_exit(ExitStatus { code: Some(0), signal: None });
    assert!(!sup.kill());
    assert!(!sup.kill());
    assert_eq!(sup.cached_exit(), Some(ExitStatus { code: Some(0), signal: None }));
}

#[test]
fn wait_is_idempotent_once_cached() {
    let mut sup = Supervisor::attach();
    assert_eq!(sup.cached_exit(), None);
    sup.record_exit(ExitStatus { code: Some(7), signal: None });
    assert_eq!(sup.cached_exit(), Some(ExitStatus { code: Some(7), signal: None }));
    assert_eq!(sup.cached_exit(), Some(ExitStatus { code: Some(7), signal: None }));
}

#[test]
fn terminate_kills_a_child_that_never_exits() {
    // A child that ignores the shutdown request: no exit is observed
    // within the bound, so the decision after the deadline is to kill,
    // and the resolved outcome is Forced.
    let mut sup = Supervisor::attach();
    assert_eq!(sup.terminate_step(false), TerminateAction::Wait);
    assert_eq!(sup.terminate_step(true), TerminateAction::Kill);
    assert!(sup.kill());
    let st = ExitStatus { code: None, signal: Some(9) };
    sup.record_exit(st);
    assert_eq!(sup.terminate_step(true), TerminateAction::Done(TerminateOutcome::Forced(st)));
}

#[test]
fn terminate_resolves_naturally_within_the_bound() {
    let mut sup = Supervisor::attach();
    let st = ExitStatus { code: Some(0), signal: None };
    sup.record_exit(st);
    assert_eq!(sup.terminate_step(false), TerminateAction::Done(TerminateOutcome::Exited(st)));
}

#[test]
fn release_happens_after_kill_or_exit() {
    let mut sup = Supervisor::attach();
    sup.kill();
    sup.release();
    let mut sup2 = Supervisor::attach();
    sup2.record_exit(ExitStatus { code: Some(0), signal: None });
    sup2.release();
}

#[test]
fn failed_observation_never_fabricates_a_status() {
    let mut sup = Supervisor::attach();
    sup.note_observation_failure();
    assert_eq!(sup.cached_exit(), None);
    // No status is ever invented: after the deadline the decision is
    // still to kill, never a fabricated Done.
    assert_eq!(sup.terminate_step(true), TerminateAction::Kill);
}

#[test]
fn signalling_is_best_effort() {
    let mut sup = Supervisor::attach();
    assert!(sup.may_signal());
    sup.record_exit(ExitStatus { code: Some(0), signal: None });
    // After the exit was observed, signalling is a benign no-op.
    assert!(!sup.may_signal());
}

#[test]
fn spawn_failures_classify_by_cause() {
    assert_eq!(classify_spawn_failure(true, false), SpawnError::NotFound);
    assert_eq!(classify_spawn_failure(false, true), SpawnError::PermissionDenied);
    assert_eq!(classify_spawn_failure(false, false), SpawnError::ResourceExhausted);
}
