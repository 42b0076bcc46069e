//! The session state machine: one caller-facing handle per spawned
//! interactive process.
//!
//! A session owns two queues of byte chunks. Callers append to the input
//! queue with `write`; the input pump drains it in FIFO order towards the
//! child's input stream. The output pump appends what the child produced
//! to the output buffer; callers drain it in FIFO order with `read`. The
//! pumps themselves perform the actual stream I/O outside this library and
//! report every event back here, so every decision — what to accept, what
//! to hand out, and when the lifecycle advances — is made by the verified
//! transitions below.
//!
//! Ghost byte histories (`written`, `sent`, `produced`, `delivered`) tie
//! the queues to the streams: the well-formedness invariant says that what
//! was handed on plus what is still queued is exactly what came in, on
//! both sides. The FIFO round-trip law for an echoing child follows from
//! those equations alone.

use vstd::prelude::*;

use crate::status::ExitStatus;
use crate::status::IoError;
use crate::status::SessionState;
use crate::status::SpawnError;

verus! {

/// What one `read` call reports.
#[derive(Debug, PartialEq, Eq)]
pub enum ReadOutcome {
    /// The next buffered chunk, in the order the child produced it.
    Data(Vec<u8>),
    /// No further output will ever arrive and everything buffered has been
    /// delivered. End-of-data is a signal, not an error.
    EndOfData,
    /// Nothing is buffered yet; the caller should suspend until the output
    /// pump appends a chunk and try again.
    Pending,
    /// The session failed at spawn; there is no output stream to read.
    Closed,
}

/// All bytes held by a sequence of chunks, in order.
pub open spec fn flat_chunks(q: Seq<Vec<u8>>) -> Seq<u8>
    decreases q.len(),
{
    if q.len() == 0 {
        Seq::<u8>::empty()
    } else {
        q[0]@ + flat_chunks(q.drop_first())
    }
}

/// Concatenation of byte sequences is associative.
pub proof fn lemma_bytes_assoc(a: Seq<u8>, b: Seq<u8>, c: Seq<u8>)
    ensures
        (a + b) + c == a + (b + c),
{
    assert((a + b) + c =~= a + (b + c));
}

/// Appending a chunk appends its bytes to the flattened whole.
pub proof fn lemma_flat_chunks_push(q: Seq<Vec<u8>>, c: Vec<u8>)
    ensures
        flat_chunks(q.push(c)) == flat_chunks(q) + c@,
    decreases q.len(),
{
    if q.len() == 0 {
        assert(q.push(c)[0] == c);
        assert(q.push(c).drop_first() =~= Seq::<Vec<u8>>::empty());
        assert(flat_chunks(q.push(c)) == c@ + flat_chunks(Seq::<Vec<u8>>::empty()));
        assert(c@ + Seq::<u8>::empty() =~= c@);
        assert(flat_chunks(q) + c@ =~= c@);
    } else {
        lemma_flat_chunks_push(q.drop_first(), c);
        assert(q.push(c)[0] == q[0]);
        assert(q.push(c).drop_first() =~= q.drop_first().push(c));
        assert(flat_chunks(q.push(c)) == q[0]@ + (flat_chunks(q.drop_first()) + c@));
        lemma_bytes_assoc(q[0]@, flat_chunks(q.drop_first()), c@);
    }
}

/// One interactive process instance: lifecycle state, the two byte queues,
/// and the ghost history of every byte that crossed each boundary.
pub struct Session {
    /// The opaque handle of this session: unique for the lifetime of the
    /// supervising program, handed out by the session registry.
    pub id: u64,
    /// Where the session stands in its lifecycle.
    pub state: SessionState,
    /// Chunks accepted from the caller, awaiting delivery to the child.
    pub input_queue: Vec<Vec<u8>>,
    /// Chunks produced by the child, awaiting consumption by the caller.
    pub output_buffer: Vec<Vec<u8>>,
    /// The child's output stream reached end-of-data; nothing more will
    /// ever be appended.
    pub output_exhausted: bool,
    /// The first error the input pump met, kept for the caller; chunks
    /// already delivered are not discarded on its account.
    pub input_error: Option<IoError>,
    /// The exit status once the supervisor observed it.
    pub exit: Option<ExitStatus>,
    /// Every byte ever accepted by `write`, in call order.
    pub written: Ghost<Seq<u8>>,
    /// Every byte ever handed to the input pump, in delivery order.
    pub sent: Ghost<Seq<u8>>,
    /// Every byte the output pump ever appended, in production order.
    pub produced: Ghost<Seq<u8>>,
    /// Every byte ever handed out by `read`, in consumption order.
    pub delivered: Ghost<Seq<u8>>,
}

/// The input half of two sessions agrees: queue, error mark and histories.
pub open spec fn same_input_side(a: Session, b: Session) -> bool {
    &&& a.input_queue@ == b.input_queue@
    &&& a.written@ == b.written@
    &&& a.sent@ == b.sent@
    &&& a.input_error == b.input_error
}

/// The output half of two sessions agrees: buffer, end mark and histories.
pub open spec fn same_output_side(a: Session, b: Session) -> bool {
    &&& a.output_buffer@ == b.output_buffer@
    &&& a.produced@ == b.produced@
    &&& a.delivered@ == b.delivered@
    &&& a.output_exhausted == b.output_exhausted
}

/// What `write` returns, as a function of the lifecycle state alone:
/// acceptance never depends on how much either queue holds.
pub open spec fn write_result(s: Session) -> Result<(), IoError> {
    if s.state.accepts_input() {
        Ok(())
    } else {
        Err(IoError::Closed)
    }
}

/// What `read` reports, as a function of the output side alone: the first
/// buffered chunk if any; end-of-data once the output is exhausted and
/// drained; otherwise the caller must wait — except in a failed session,
/// which never had an output stream.
pub open spec fn read_descriptor(s: Session) -> ReadOutcome {
    if s.state is Failed {
        ReadOutcome::Closed
    } else if s.output_buffer@.len() > 0 {
        ReadOutcome::Data(s.output_buffer@[0])
    } else if s.output_exhausted {
        ReadOutcome::EndOfData
    } else {
        ReadOutcome::Pending
    }
}

/// The input pump may take a chunk only while the process side is live.
pub open spec fn input_pump_live(s: Session) -> bool {
    s.state is Running || s.state is Closing
}

/// The output pump may append only while the process side is live and the
/// stream has not ended.
pub open spec fn output_pump_live(s: Session) -> bool {
    (s.state is Running || s.state is Closing) && !s.output_exhausted
}

/// The state a session enters when the child's output stream ends: if the
/// exit status is already reaped the session is terminated, else it closes.
pub open spec fn state_after_eof(s: Session) -> SessionState {
    match s.exit {
        Some(st) => SessionState::Terminated(st),
        None => SessionState::Closing,
    }
}

impl Session {
    /// Well-formedness: the flow equations on both sides, and the
    /// state-dependent facts every transition preserves.
    pub open spec fn wf(self) -> bool {
        &&& self.sent@ + flat_chunks(self.input_queue@) == self.written@
        &&& self.delivered@ + flat_chunks(self.output_buffer@) == self.produced@
        &&& (self.output_exhausted ==> (self.state is Closing || self.state is Terminated))
        &&& match self.state {
                SessionState::Spawning => {
                    &&& self.sent@.len() == 0
                    &&& self.produced@.len() == 0
                    &&& self.output_buffer@.len() == 0
                    &&& self.exit is None
                },
                SessionState::Failed(_) => {
                    &&& self.sent@.len() == 0
                    &&& self.produced@.len() == 0
                    &&& self.output_buffer@.len() == 0
                    &&& self.exit is None
                },
                SessionState::Terminated(st) => self.exit == Some(st) && self.output_exhausted,
                _ => true,
            }
    }

    /// A fresh session for a spawn request that was just made: nothing
    /// queued, nothing observed, no process live yet.
    pub fn begin(id: u64) -> (s: Session)
        ensures
            s.wf(),
            s.id == id,
            s.state is Spawning,
            s.input_queue@.len() == 0,
            s.output_buffer@.len() == 0,
            s.written@.len() == 0,
            s.sent@.len() == 0,
            s.produced@.len() == 0,
            s.delivered@.len() == 0,
            !s.output_exhausted,
            s.input_error is None,
            s.exit is None,
    {
        Session {
            id,
            state: SessionState::Spawning,
            input_queue: Vec::new(),
            output_buffer: Vec::new(),
            output_exhausted: false,
            input_error: None,
            exit: None,
            written: Ghost(Seq::empty()),
            sent: Ghost(Seq::empty()),
            produced: Ghost(Seq::empty()),
            delivered: Ghost(Seq::empty()),
        }
    }

    /// The native process and both pumps came up: the session is running.
    pub fn mark_running(&mut self)
        requires
            old(self).wf(),
            old(self).state is Spawning,
        ensures
            final(self).wf(),
            final(self).id == old(self).id,
            final(self).state is Running,
            same_input_side(*final(self), *old(self)),
            same_output_side(*final(self), *old(self)),
            final(self).exit == old(self).exit,
            old(self).state.rank() <= final(self).state.rank(),
    {
        self.state = SessionState::Running;
    }

    /// The spawn itself failed: no process ever existed. Terminal; the
    /// session is never usable afterwards.
    pub fn mark_failed(&mut self, err: SpawnError)
        requires
            old(self).wf(),
            old(self).state is Spawning,
        ensures
            final(self).wf(),
            final(self).id == old(self).id,
            final(self).state == SessionState::Failed(err),
            same_input_side(*final(self), *old(self)),
            same_output_side(*final(self), *old(self)),
            final(self).exit == old(self).exit,
            old(self).state.rank() <= final(self).state.rank(),
    {
        self.state = SessionState::Failed(err);
    }

    /// Enqueue a chunk for delivery to the child. Accepted purely as a
    /// function of the lifecycle state; once the session has entered
    /// `Closing`, `Terminated` or `Failed` this fails with `Closed`.
    pub fn write(&mut self, chunk: Vec<u8>) -> (r: Result<(), IoError>)
        requires
            old(self).wf(),
        ensures
            final(self).wf(),
            final(self).id == old(self).id,
            r == write_result(*old(self)),
            final(self).state == old(self).state,
            old(self).state.accepts_input() ==> ({
                &&& final(self).input_queue@ == old(self).input_queue@.push(chunk)
                &&& final(self).written@ == old(self).written@ + chunk@
                &&& final(self).sent@ == old(self).sent@
                &&& final(self).input_error == old(self).input_error
                &&& same_output_side(*final(self), *old(self))
                &&& final(self).exit == old(self).exit
            }),
            !old(self).state.accepts_input() ==> *final(self) == *old(self),
            old(self).state.rank() <= final(self).state.rank(),
    {
        match self.state {
            SessionState::Spawning | SessionState::Running => {
                let ghost prior = self.input_queue@;
                let ghost bytes = chunk@;
                self.written = Ghost(self.written@ + bytes);
                self.input_queue.push(chunk);
                proof {
                    lemma_flat_chunks_push(prior, self.input_queue@[prior.len() as int]);
                    lemma_bytes_assoc(self.sent@, flat_chunks(prior), bytes);
                }
                Ok(())
            },
            _ => Err(IoError::Closed),
        }
    }

    /// Hand out the next chunk of child output, in production order; or
    /// report end-of-data, or that the caller must wait for the pump.
    pub fn read(&mut self) -> (r: ReadOutcome)
        requires
            old(self).wf(),
        ensures
            final(self).wf(),
            final(self).id == old(self).id,
            r == read_descriptor(*old(self)),
            final(self).state == old(self).state,
            same_input_side(*final(self), *old(self)),
            final(self).produced@ == old(self).produced@,
            final(self).output_exhausted == old(self).output_exhausted,
            final(self).exit == old(self).exit,
            old(self).output_buffer@.len() > 0 && !(old(self).state is Failed) ==> ({
                &&& final(self).output_buffer@ == old(self).output_buffer@.drop_first()
                &&& final(self).delivered@ == old(self).delivered@ + old(self).output_buffer@[0]@
            }),
            old(self).output_buffer@.len() == 0 ==> *final(self) == *old(self),
    {
        match self.state {
            SessionState::Failed(_) => ReadOutcome::Closed,
            _ => {
                if self.output_buffer.len() > 0 {
                    let ghost prior = self.output_buffer@;
                    let ghost handed = self.delivered@;
                    let chunk = self.output_buffer.remove(0);
                    let ghost bytes = chunk@;
                    self.delivered = Ghost(self.delivered@ + bytes);
                    proof {
                        assert(prior.remove(0) =~= prior.drop_first());
                        lemma_bytes_assoc(handed, prior[0]@, flat_chunks(prior.drop_first()));
                    }
                    ReadOutcome::Data(chunk)
                } else if self.output_exhausted {
                    ReadOutcome::EndOfData
                } else {
                    ReadOutcome::Pending
                }
            },
        }
    }

    /// Request shutdown of the input side. A running session enters
    /// `Closing`; in any other state this is a no-op. The process is not
    /// killed, and buffered output stays readable.
    pub fn close(&mut self)
        requires
            old(self).wf(),
        ensures
            final(self).wf(),
            final(self).id == old(self).id,
            final(self).state == (if old(self).state is Running {
                SessionState::Closing
            } else {
                old(self).state
            }),
            same_input_side(*final(self), *old(self)),
            same_output_side(*final(self), *old(self)),
            final(self).exit == old(self).exit,
            old(self).state.rank() <= final(self).state.rank(),
    {
        match self.state {
            SessionState::Running => {
                self.state = SessionState::Closing;
            },
            _ => {},
        }
    }

    /// The input pump takes the next chunk to deliver, in FIFO order.
    pub fn take_input(&mut self) -> (r: Option<Vec<u8>>)
        requires
            old(self).wf(),
            input_pump_live(*old(self)),
        ensures
            final(self).wf(),
            final(self).id == old(self).id,
            final(self).state == old(self).state,
            same_output_side(*final(self), *old(self)),
            final(self).written@ == old(self).written@,
            final(self).input_error == old(self).input_error,
            final(self).exit == old(self).exit,
            old(self).input_queue@.len() > 0 ==> ({
                &&& r == Some(old(self).input_queue@[0])
                &&& final(self).input_queue@ == old(self).input_queue@.drop_first()
                &&& final(self).sent@ == old(self).sent@ + old(self).input_queue@[0]@
            }),
            old(self).input_queue@.len() == 0 ==> r is None && *final(self) == *old(self),
    {
        if self.input_queue.len() > 0 {
            let ghost prior = self.input_queue@;
            let ghost handed = self.sent@;
            let chunk = self.input_queue.remove(0);
            let ghost bytes = chunk@;
            self.sent = Ghost(self.sent@ + bytes);
            proof {
                assert(prior.remove(0) =~= prior.drop_first());
                lemma_bytes_assoc(handed, prior[0]@, flat_chunks(prior.drop_first()));
            }
            Some(chunk)
        } else {
            None
        }
    }

    /// The input pump met an error on the child's input stream. The first
    /// error is kept; nothing already queued or delivered is discarded.
    pub fn note_input_error(&mut self, err: IoError)
        requires
            old(self).wf(),
        ensures
            final(self).wf(),
            final(self).id == old(self).id,
            final(self).state == old(self).state,
            final(self).input_error == (if old(self).input_error is None {
                Some(err)
            } else {
                old(self).input_error
            }),
            final(self).input_queue@ == old(self).input_queue@,
            final(self).written@ == old(self).written@,
            final(self).sent@ == old(self).sent@,
            same_output_side(*final(self), *old(self)),
            final(self).exit == old(self).exit,
    {
        if self.input_error.is_none() {
            self.input_error = Some(err);
        }
    }

    /// The output pump appends a chunk the child produced.
    pub fn push_output(&mut self, chunk: Vec<u8>)
        requires
            old(self).wf(),
            output_pump_live(*old(self)),
        ensures
            final(self).wf(),
            final(self).id == old(self).id,
            final(self).state == old(self).state,
            same_input_side(*final(self), *old(self)),
            final(self).output_buffer@ == old(self).output_buffer@.push(chunk),
            final(self).produced@ == old(self).produced@ + chunk@,
            final(self).delivered@ == old(self).delivered@,
            final(self).output_exhausted == old(self).output_exhausted,
            final(self).exit == old(self).exit,
    {
        let ghost prior = self.output_buffer@;
        let ghost bytes = chunk@;
        self.produced = Ghost(self.produced@ + bytes);
        self.output_buffer.push(chunk);
        proof {
            lemma_flat_chunks_push(prior, self.output_buffer@[prior.len() as int]);
            lemma_bytes_assoc(self.delivered@, flat_chunks(prior), bytes);
        }
    }

    /// The child's output stream reached end-of-data: the output pump
    /// stops cleanly. A running session enters `Closing`; if the exit
    /// status is already reaped, the session is terminated.
    pub fn finish_output(&mut self)
        requires
            old(self).wf(),
            output_pump_live(*old(self)),
        ensures
            final(self).wf(),
            final(self).id == old(self).id,
            final(self).output_exhausted,
            final(self).state == state_after_eof(*old(self)),
            same_input_side(*final(self), *old(self)),
            final(self).output_buffer@ == old(self).output_buffer@,
            final(self).produced@ == old(self).produced@,
            final(self).delivered@ == old(self).delivered@,
            final(self).exit == old(self).exit,
            old(self).state.rank() <= final(self).state.rank(),
    {
        self.output_exhausted = true;
        match self.exit {
            Some(st) => {
                self.state = SessionState::Terminated(st);
            },
            None => {
                self.state = SessionState::Closing;
            },
        }
    }

    /// The supervisor observed and reaped the process exit. The session
    /// terminates as soon as the output is also exhausted.
    pub fn record_exit(&mut self, status: ExitStatus)
        requires
            old(self).wf(),
            old(self).state is Running || old(self).state is Closing,
            old(self).exit is None,
        ensures
            final(self).wf(),
            final(self).id == old(self).id,
            final(self).exit == Some(status),
            final(self).state == (if old(self).output_exhausted {
                SessionState::Terminated(status)
            } else {
                old(self).state
            }),
            same_input_side(*final(self), *old(self)),
            final(self).output_buffer@ == old(self).output_buffer@,
            final(self).produced@ == old(self).produced@,
            final(self).delivered@ == old(self).delivered@,
            final(self).output_exhausted == old(self).output_exhausted,
            old(self).state.rank() <= final(self).state.rank(),
    {
        self.exit = Some(status);
        if self.output_exhausted {
            self.state = SessionState::Terminated(status);
        }
    }

    /// Non-suspending snapshot of the lifecycle state.
    pub fn status(&self) -> (r: SessionState)
        ensures
            r == self.state,
    {
        self.state
    }

    /// The exit status, once observed.
    pub fn exit_status(&self) -> (r: Option<ExitStatus>)
        ensures
            r == self.exit,
    {
        self.exit
    }

    /// The first error the input pump recorded, if any.
    pub fn input_error(&self) -> (r: Option<IoError>)
        ensures
            r == self.input_error,
    {
        self.input_error
    }

    /// How many chunks still await delivery to the child.
    pub fn pending_input(&self) -> (n: usize)
        ensures
            n == self.input_queue@.len(),
    {
        self.input_queue.len()
    }

    /// How many chunks of child output still await the caller.
    pub fn buffered_output(&self) -> (n: usize)
        ensures
            n == self.output_buffer@.len(),
    {
        self.output_buffer.len()
    }
}

/// FIFO round trip: all bytes written before `close` and fully pumped to a
/// correctly-echoing child (one whose produced bytes equal the bytes it
/// was sent) come back, in order and in full, through `read`. Once both
/// queues are drained, the bytes the caller read are exactly the bytes the
/// caller wrote.
pub proof fn lemma_echo_round_trip(s: Session)
    requires
        s.wf(),
        s.input_queue@.len() == 0,
        s.output_buffer@.len() == 0,
        s.produced@ == s.sent@,
    ensures
        s.delivered@ == s.written@,
{
    assert(flat_chunks(s.input_queue@) =~= Seq::<u8>::empty());
    assert(flat_chunks(s.output_buffer@) =~= Seq::<u8>::empty());
    assert(s.sent@ + Seq::<u8>::empty() =~= s.sent@);
    assert(s.delivered@ + Seq::<u8>::empty() =~= s.delivered@);
}

/// No pipe deadlock: while the session runs, the caller's `write` is
/// accepted no matter how much child output is buffered, and the output
/// pump may append no matter how much input is queued. Neither side ever
/// waits on the other.
pub proof fn lemma_no_pipe_deadlock(s: Session)
    requires
        s.wf(),
        s.state is Running,
    ensures
        write_result(s) == Ok::<(), IoError>(()),
        output_pump_live(s),
        input_pump_live(s),
{
}

/// After `close`: a subsequent `write` fails with `Closed`, while buffered
/// output remains readable in order until exhausted, after which `read`
/// signals end-of-data — not an error.
pub proof fn lemma_closed_session_semantics(s: Session)
    requires
        s.wf(),
        s.state is Closing || s.state is Terminated,
    ensures
        write_result(s) == Err::<(), IoError>(IoError::Closed),
        s.output_buffer@.len() > 0 ==> read_descriptor(s) == ReadOutcome::Data(s.output_buffer@[0]),
        s.output_buffer@.len() == 0 && s.output_exhausted ==> read_descriptor(s)
            == ReadOutcome::EndOfData,
{
}

/// A failed spawn leaves the session terminal and unusable: writes are
/// refused, there is no output stream to read, and no exit status will
/// ever be observed.
pub proof fn lemma_failed_session_unusable(s: Session)
    requires
        s.wf(),
        s.state is Failed,
    ensures
        s.state.is_terminal(),
        write_result(s) == Err::<(), IoError>(IoError::Closed),
        read_descriptor(s) == ReadOutcome::Closed,
        s.exit is None,
{
}

} // verus!
