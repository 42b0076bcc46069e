use terminal_core::ExitStatus;
use terminal_core::IoError;
use terminal_core::ReadOutcome;
use terminal_core::Session;
use terminal_core::SessionState;
use terminal_core::SessionRegistry;
use terminal_core::SpawnError;

fn running_session() -> Session {
    let mut registry = SessionRegistry::init();
    let id = registry.register();
    let mut s = Session::begin(id);
    s.mark_running();
    s
}

fn read_all_data(s: &mut Session) -> Vec<u8> {
    let mut out: Vec<u8> = Vec::new();
    loop {
        match s.read() {
            ReadOutcome::Data(chunk) => out.extend_from_slice(&chunk),
            _ => break,
        }
    }
    out
}

#[test]
fn echo_round_trip_in_order() {
    // An echoing child: every chunk the input pump takes comes back
    // through the output pump; concatenated reads equal concatenated
    // writes, in order.
    let mut s = running_session();
    assert!(s.write(b"hel".to_vec()).is_ok());
    assert!(s.write(b"lo\n".to_vec()).is_ok());
    s.close();
    assert_eq!(s.status(), SessionState::Closing);
    // The pumps drain the queue into the child and its output back.
    while let Some(chunk) = s.take_input() {
        s.push_output(chunk);
    }
    s.finish_output();
    s.record_exit(ExitStatus { code: Some(0), signal: None });
    assert_eq!(s.status(), SessionState::Terminated(ExitStatus { code: Some(0), signal: None }));
    let out = read_all_data(&mut s);
    assert_eq!(out, b"hello\n".to_vec());
    assert!(matches!(s.read(), ReadOutcome::EndOfData));
}

#[test]
fn write_after_close_fails_closed_but_output_drains() {
    let mut s = running_session();
    assert!(s.write(b"abc".to_vec()).is_ok());
    s.push_output(b"left".to_vec());
    s.push_output(b"over".to_vec());
    s.close();
    // A write after close is refused with Closed...
    assert_eq!(s.write(b"more".to_vec()), Err(IoError::Closed));
    // ...while buffered unread output remains readable until exhausted.
    s.finish_output();
    assert!(matches!(s.read(), ReadOutcome::Data(c) if c == b"left".to_vec()));
    assert!(matches!(s.read(), ReadOutcome::Data(c) if c == b"over".to_vec()));
    // After that, read signals end-of-data, not an error.
    assert!(matches!(s.read(), ReadOutcome::EndOfData));
    assert!(matches!(s.read(), ReadOutcome::EndOfData));
}

#[test]
fn large_write_volume_never_blocks_the_caller() {
    // Far more data than any platform pipe buffer holds, while the child
    // reads nothing: every write is still accepted immediately, because
    // acceptance depends on the lifecycle state alone.
    let mut s = running_session();
    let chunk: Vec<u8> = vec![0x41u8; 64 * 1024];
    for _ in 0..160 {
        // 160 * 64 KiB = 10 MiB
        assert!(s.write(chunk.clone()).is_ok());
    }
    assert_eq!(s.pending_input(), 160);
    // The output side is just as independent: the pump may still append
    // even though the input queue is full.
    s.push_output(b"out".to_vec());
    assert!(matches!(s.read(), ReadOutcome::Data(c) if c == b"out".to_vec()));
}

#[test]
fn failed_spawn_is_terminal_and_unusable() {
    let mut s = Session::begin(7);
    s.mark_failed(SpawnError::NotFound);
    assert_eq!(s.status(), SessionState::Failed(SpawnError::NotFound));
    assert_eq!(s.write(b"x".to_vec()), Err(IoError::Closed));
    assert!(matches!(s.read(), ReadOutcome::Closed));
    assert_eq!(s.exit_status(), None);
    // close is a no-op on a terminal state: the session never re-enters
    // a non-terminal state.
    s.close();
    assert_eq!(s.status(), SessionState::Failed(SpawnError::NotFound));
}

#[test]
fn read_before_output_is_pending_not_end() {
    let mut s = running_session();
    assert!(matches!(s.read(), ReadOutcome::Pending));
    s.push_output(b"now".to_vec());
    assert!(matches!(s.read(), ReadOutcome::Data(c) if c == b"now".to_vec()));
    assert!(matches!(s.read(), ReadOutcome::Pending));
}

#[test]
fn exit_before_eof_terminates_only_after_drain() {
    let mut s = running_session();
    s.push_output(b"tail".to_vec());
    s.close();
    s.record_exit(ExitStatus { code: Some(3), signal: None });
    // Exit observed, but the output stream is still open: not terminated.
    assert_eq!(s.status(), SessionState::Closing);
    s.finish_output();
    assert_eq!(s.status(), SessionState::Terminated(ExitStatus { code: Some(3), signal: None }));
    // Buffered output still drains after termination.
    assert!(matches!(s.read(), ReadOutcome::Data(c) if c == b"tail".to_vec()));
    assert!(matches!(s.read(), ReadOutcome::EndOfData));
}

#[test]
fn input_error_is_recorded_once_and_discards_nothing() {
    let mut s = running_session();
    assert!(s.write(b"kept".to_vec()).is_ok());
    s.note_input_error(IoError::BrokenPipe);
    s.note_input_error(IoError::Timeout);
    // The first error is kept.
    assert_eq!(s.input_error(), Some(IoError::BrokenPipe));
    // The queued chunk was not discarded.
    assert_eq!(s.pending_input(), 1);
    assert_eq!(s.take_input(), Some(b"kept".to_vec()));
}

#[test]
fn pump_preserves_fifo_order() {
    let mut s = running_session();
    assert!(s.write(b"one".to_vec()).is_ok());
    assert!(s.write(b"two".to_vec()).is_ok());
    assert!(s.write(b"three".to_vec()).is_ok());
    assert_eq!(s.take_input(), Some(b"one".to_vec()));
    assert_eq!(s.take_input(), Some(b"two".to_vec()));
    assert_eq!(s.take_input(), Some(b"three".to_vec()));
    assert_eq!(s.take_input(), None);
}
