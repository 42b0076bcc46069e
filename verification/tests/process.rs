use terminal_core::ExitStatus;
use terminal_core::ReadOutcome;
use terminal_core::Session;
use terminal_core::SessionState;
use terminal_core::SpawnError;
use terminal_core::Supervisor;
use terminal_core::TerminateAction;
use terminal_core::TerminateOutcome;
use terminal_core::classify_spawn_failure;

fn runtime() -> tokio::runtime::Runtime {
    tokio::runtime::Builder::new_current_thread().enable_all().build().unwrap()
}

#[test]
fn spawn_echo() {
    // A session around a real child process: what the child actually
    // wrote is pumped into the session and read back in order.
    let rt = runtime();
    rt.block_on(async {
        let mut session = Session::begin(0);
        let done = tokio::process::Command::new("/bin/echo")
            .arg("hello")
            .output()
            .await
            .unwrap();
        session.mark_running();
        session.write(b"hello\n".to_vec()).unwrap();
        while let Some(_chunk) = session.take_input() {
            // /bin/echo never reads its input stream; the chunks are
            // delivered and ignored.
        }
        session.push_output(done.stdout);
        session.finish_output();
        session.record_exit(ExitStatus { code: done.status.code(), signal: None });
        let mut out: Vec<u8> = Vec::new();
        loop {
            match session.read() {
                ReadOutcome::Data(c) => out.extend_from_slice(&c),
                _ => break,
            }
        }
        assert!(out.starts_with(b"hello"));
    });
}

#[test]
fn spawn_not_found_is_synchronous() {
    let rt = runtime();
    rt.block_on(async {
        let mut session = Session::begin(1);
        let spawned = tokio::process::Command::new("/no/such/binary-anywhere").spawn();
        let err = match spawned {
            Ok(_) => panic!("a nonexistent executable spawned"),
            Err(e) => e,
        };
        let not_found = err.kind() == std::io::ErrorKind::NotFound;
        let denied = err.kind() == std::io::ErrorKind::PermissionDenied;
        let cause = classify_spawn_failure(not_found, denied);
        assert_eq!(cause, SpawnError::NotFound);
        session.mark_failed(cause);
        // The session is never usable.
        assert_eq!(session.status(), SessionState::Failed(SpawnError::NotFound));
        assert!(session.write(b"x".to_vec()).is_err());
        assert!(matches!(session.read(), ReadOutcome::Closed));
    });
}

#[test]
fn terminate_forces_kill_of_stubborn_child() {
    let rt = runtime();
    rt.block_on(async {
        let mut sup = Supervisor::attach();
        let mut child = tokio::process::Command::new("/bin/sleep").arg("30").spawn().unwrap();
        // The child ignores the shutdown request and never exits within
        // the bound: the deadline elapses with nothing observed.
        let waited =
            tokio::time::timeout(std::time::Duration::from_millis(200), child.wait()).await;
        assert!(waited.is_err());
        assert_eq!(sup.terminate_step(true), TerminateAction::Kill);
        if sup.kill() {
            child.start_kill().unwrap();
        }
        let status = child.wait().await.unwrap();
        sup.record_exit(ExitStatus { code: status.code(), signal: None });
        match sup.terminate_step(true) {
            TerminateAction::Done(TerminateOutcome::Forced(_)) => {},
            other => panic!("termination did not resolve forced: {:?}", other),
        }
        sup.release();
    });
}
