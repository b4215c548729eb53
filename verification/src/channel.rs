use vstd::prelude::*;
use deadqueue::unlimited::Queue;
use crate::buffer::Buffer;
use crate::message::StdoutMessage;
use crate::mock::MockStdout;
use crate::model::{
    after_close, channel_close, channel_send, channel_send_err, delivered_prefix, fresh_stream,
    has_close, stream_close, stream_close_failed, stream_sentinel_queued, ChannelModel,
    StreamModel,
};
use crate::queue::{queue_new, queue_push, queue_try_pop, queue_view};

verus! {

#[verifier::external_type_specification]
#[verifier::external_body]
pub struct ExStdout(std::io::Stdout);

#[verifier::external_type_specification]
#[verifier::external_body]
pub struct ExStderr(std::io::Stderr);

#[verifier::external_type_specification]
#[verifier::external_body]
pub struct ExIoError(std::io::Error);

/// Relies on `std::io::stdout`: a handle to the process's standard output.
#[verifier::external_body]
fn stdout_handle() -> std::io::Stdout {
    std::io::stdout()
}

/// Relies on `std::io::stderr`: a handle to the process's standard error.
#[verifier::external_body]
fn stderr_handle() -> std::io::Stderr {
    std::io::stderr()
}

/// Relies on `std::io::Write::write_all` on standard output: it attempts
/// to write the whole byte slice, reporting failure through the result;
/// nothing is promised of the outcome.
#[verifier::external_body]
fn write_all_stdout(out: &mut std::io::Stdout, bytes: &Vec<u8>) -> (r: Result<(), std::io::Error>) {
    std::io::Write::write_all(out, bytes.as_slice())
}

/// Relies on `std::io::Write::write_all` on standard error: it attempts
/// to write the whole byte slice, reporting failure through the result;
/// nothing is promised of the outcome.
#[verifier::external_body]
fn write_all_stderr(out: &mut std::io::Stderr, bytes: &Vec<u8>) -> (r: Result<(), std::io::Error>) {
    std::io::Write::write_all(out, bytes.as_slice())
}

/// Why a close failed: the only failure this channel can meet is a
/// write into a real output stream going wrong; the consumer then stops
/// at the failing line and the error surfaces here.
#[derive(Debug)]
pub enum StdoutError {
    Write(std::io::Error),
}

/// The terminal destination of one stream's lines: the process's real
/// standard output or standard error, or an in-memory capture sink.
#[derive(Debug)]
pub enum Sink {
    Stdout,
    Stderr,
    Capture(MockStdout),
}

/// What the sink is known to have received: exact for capture sinks,
/// unknowable for real output streams.
pub open spec fn sink_captured(s: &Sink) -> Option<Seq<Seq<char>>> {
    match s {
        Sink::Stdout => None,
        Sink::Stderr => None,
        Sink::Capture(m) => Some(m@),
    }
}

/// The token held in a task slot while that sink's consumer is still
/// pending; a close takes it, drains the queue, and leaves the slot
/// empty, so each consumer is awaited at most once.
#[derive(Debug)]
pub struct StdoutTask;

/// The channel facade: two unbounded FIFO queues, each bound to one sink
/// and one consumer task slot. Lines enqueued with `send` reach the
/// primary sink in order; lines enqueued with `send_err` reach the
/// secondary sink in order; `close` drains both queues and terminates
/// both consumers.
#[derive(Debug)]
pub struct StdoutChannel {
    stdout_queue: Queue<StdoutMessage>,
    stderr_queue: Queue<StdoutMessage>,
    stdout_sink: Sink,
    stderr_sink: Sink,
    stdout_task: Option<StdoutTask>,
    stderr_task: Option<StdoutTask>,
}

impl View for StdoutChannel {
    type V = ChannelModel;

    closed spec fn view(&self) -> ChannelModel {
        ChannelModel {
            primary: StreamModel {
                queue: queue_view(self.stdout_queue),
                captured: sink_captured(&self.stdout_sink),
                open: self.stdout_task is Some,
            },
            secondary: StreamModel {
                queue: queue_view(self.stderr_queue),
                captured: sink_captured(&self.stderr_sink),
                open: self.stderr_task is Some,
            },
        }
    }
}

impl StdoutChannel {
    /// A channel whose primary sink is the process's standard output and
    /// whose secondary sink is its standard error; both queues start
    /// empty and both consumers are pending.
    pub fn new() -> (r: Self)
        ensures
            r@ == (ChannelModel { primary: fresh_stream(None), secondary: fresh_stream(None) }),
    {
        let r = StdoutChannel {
            stdout_queue: queue_new(),
            stderr_queue: queue_new(),
            stdout_sink: Sink::Stdout,
            stderr_sink: Sink::Stderr,
            stdout_task: Some(StdoutTask),
            stderr_task: Some(StdoutTask),
        };
        proof {
            assert(r@ =~~= (ChannelModel {
                primary: fresh_stream(None),
                secondary: fresh_stream(None),
            }));
        }
        r
    }

    /// A channel that delivers into the two given capture sinks instead
    /// of performing real output; used to verify delivery.
    pub fn with_mock_stdout(mock_stdout: MockStdout, mock_stderr: MockStdout) -> (r: Self)
        ensures
            r@ == (ChannelModel {
                primary: fresh_stream(Some(mock_stdout@)),
                secondary: fresh_stream(Some(mock_stderr@)),
            }),
    {
        let r = StdoutChannel {
            stdout_queue: queue_new(),
            stderr_queue: queue_new(),
            stdout_sink: Sink::Capture(mock_stdout),
            stderr_sink: Sink::Capture(mock_stderr),
            stdout_task: Some(StdoutTask),
            stderr_task: Some(StdoutTask),
        };
        r
    }

    /// Enqueues one line for the primary sink. Never blocks and never
    /// fails; the secondary stream and both sinks are untouched.
    pub fn send(&mut self, item: String)
        ensures
            final(self)@ == channel_send(old(self)@, item@),
    {
        queue_push(&mut self.stdout_queue, StdoutMessage::Mesg(item));
        proof {
            assert(self@ =~~= channel_send(old(self)@, item@));
        }
    }

    /// Enqueues one line for the secondary sink. Never blocks and never
    /// fails; the primary stream and both sinks are untouched.
    pub fn send_err(&mut self, item: String)
        ensures
            final(self)@ == channel_send_err(old(self)@, item@),
    {
        queue_push(&mut self.stderr_queue, StdoutMessage::Mesg(item));
        proof {
            assert(self@ =~~= channel_send_err(old(self)@, item@));
        }
    }

    /// The primary capture sink, if the channel was built with one.
    pub fn mock_stdout(&self) -> (r: Option<&MockStdout>)
        ensures
            self@.primary.captured is Some ==> r is Some && self@.primary.captured == Some(
                (r->0)@,
            ),
            self@.primary.captured is None ==> r is None,
    {
        match &self.stdout_sink {
            Sink::Capture(m) => Some(m),
            _ => None,
        }
    }

    /// The secondary capture sink, if the channel was built with one.
    pub fn mock_stderr(&self) -> (r: Option<&MockStdout>)
        ensures
            self@.secondary.captured is Some ==> r is Some && self@.secondary.captured == Some(
                (r->0)@,
            ),
            self@.secondary.captured is None ==> r is None,
    {
        match &self.stderr_sink {
            Sink::Capture(m) => Some(m),
            _ => None,
        }
    }

    /// Closes the channel: a close sentinel joins each queue behind all
    /// queued lines (primary first), then each sink whose task slot is
    /// still occupied has its queue drained, in order, up to the
    /// sentinel. Close is idempotent: a slot already emptied by an
    /// earlier close is skipped, so closing again — in particular a
    /// channel already fully closed — succeeds and delivers nothing
    /// twice. An error can only arise from a write into a real output
    /// stream that was still open; the failing stream then keeps its
    /// sentinel queued with the lines behind it abandoned, and the
    /// secondary stream, if the primary failed first, is left untouched
    /// past its sentinel, so a later close can still drain it.
    pub fn close(&mut self) -> (r: Result<(), StdoutError>)
        ensures
            r is Ok ==> final(self)@ == channel_close(old(self)@),
            (old(self)@.primary.open ==> old(self)@.primary.captured is Some) && (
            old(self)@.secondary.open ==> old(self)@.secondary.captured is Some) ==> r is Ok,
            old(self)@.primary.captured is Some ==> final(self)@.primary == stream_close(
                old(self)@.primary,
            ),
            r is Err ==> (stream_close_failed(old(self)@.primary, final(self)@.primary)
                && stream_sentinel_queued(old(self)@.secondary, final(self)@.secondary)) || (
            final(self)@.primary == stream_close(old(self)@.primary) && stream_close_failed(
                old(self)@.secondary,
                final(self)@.secondary,
            )),
    {
        queue_push(&mut self.stdout_queue, StdoutMessage::Close);
        queue_push(&mut self.stderr_queue, StdoutMessage::Close);
        proof {
            let q = queue_view(self.stdout_queue);
            assert(q[q.len() - 1] is None);
            assert(has_close(q));
            let q2 = queue_view(self.stderr_queue);
            assert(q2[q2.len() - 1] is None);
            assert(has_close(q2));
        }
        if self.stdout_task.is_some() {
            self.stdout_task = None;
            match &mut self.stdout_sink {
                Sink::Stdout => {
                    match Self::process_stdout(&mut self.stdout_queue) {
                        Ok(()) => {},
                        Err(e) => {
                            proof {
                                assert(stream_close_failed(old(self)@.primary, self@.primary));
                                assert(self@.secondary =~~= (StreamModel {
                                    queue: old(self)@.secondary.queue.push(None),
                                    ..old(self)@.secondary
                                }));
                            }
                            return Err(e);
                        },
                    }
                },
                Sink::Stderr => {
                    match Self::process_stderr(&mut self.stdout_queue) {
                        Ok(()) => {},
                        Err(e) => {
                            proof {
                                assert(stream_close_failed(old(self)@.primary, self@.primary));
                                assert(self@.secondary =~~= (StreamModel {
                                    queue: old(self)@.secondary.queue.push(None),
                                    ..old(self)@.secondary
                                }));
                            }
                            return Err(e);
                        },
                    }
                },
                Sink::Capture(mock) => {
                    match Self::process_mock(&mut self.stdout_queue, mock) {
                        Ok(()) => {},
                        Err(e) => {
                            return Err(e);
                        },
                    }
                },
            }
        }
        proof {
            assert(self@.primary =~~= stream_close(old(self)@.primary));
        }
        if self.stderr_task.is_some() {
            self.stderr_task = None;
            match &mut self.stderr_sink {
                Sink::Stdout => {
                    match Self::process_stdout(&mut self.stderr_queue) {
                        Ok(()) => {},
                        Err(e) => {
                            proof {
                                assert(stream_close_failed(old(self)@.secondary, self@.secondary));
                            }
                            return Err(e);
                        },
                    }
                },
                Sink::Stderr => {
                    match Self::process_stderr(&mut self.stderr_queue) {
                        Ok(()) => {},
                        Err(e) => {
                            proof {
                                assert(stream_close_failed(old(self)@.secondary, self@.secondary));
                            }
                            return Err(e);
                        },
                    }
                },
                Sink::Capture(mock) => {
                    match Self::process_mock(&mut self.stderr_queue, mock) {
                        Ok(()) => {},
                        Err(e) => {
                            return Err(e);
                        },
                    }
                },
            }
        }
        proof {
            assert(self@ =~~= channel_close(old(self)@));
        }
        Ok(())
    }

    /// The consumer bound to the real standard output: renders each line
    /// through the line buffer and writes it out, until the close
    /// sentinel is consumed or a write fails. Where no line precedes the
    /// sentinel nothing is written and the drain succeeds. On a write
    /// failure the error is surfaced, the sentinel stays queued, and the
    /// lines behind it are abandoned — never written, never retried.
    fn process_stdout(queue: &mut Queue<StdoutMessage>) -> (r: Result<(), StdoutError>)
        requires
            has_close(queue_view(*old(queue))),
        ensures
            r is Ok ==> queue_view(*final(queue)) == after_close(queue_view(*old(queue))),
            delivered_prefix(queue_view(*old(queue))).len() == 0 ==> r is Ok,
            r is Err ==> has_close(queue_view(*final(queue))) && after_close(
                queue_view(*final(queue)),
            ) == after_close(queue_view(*old(queue))),
    {
        let mut buf = Buffer::new();
        let mut out = stdout_handle();
        loop
            invariant
                has_close(queue_view(*queue)),
                after_close(queue_view(*queue)) == after_close(queue_view(*old(queue))),
                delivered_prefix(queue_view(*old(queue))).len() == 0 ==> queue_view(*queue)
                    == queue_view(*old(queue)),
            decreases queue_view(*queue).len(),
        {
            let ghost q = queue_view(*queue);
            match queue_try_pop(queue) {
                Some(StdoutMessage::Mesg(line)) => {
                    proof {
                        lemma_pop_data_keeps_close(q);
                        assert(delivered_prefix(q).len() > 0);
                    }
                    let bytes = buf.write_line(line.as_str());
                    match write_all_stdout(&mut out, bytes) {
                        Ok(()) => {},
                        Err(e) => {
                            return Err(StdoutError::Write(e));
                        },
                    }
                },
                Some(StdoutMessage::Close) => {
                    return Ok(());
                },
                None => {
                    proof {
                        lemma_has_close_nonempty(q);
                    }
                },
            }
        }
    }

    /// The consumer bound to the real standard error: the same loop and
    /// the same contract as the standard-output consumer, against the
    /// other stream.
    fn process_stderr(queue: &mut Queue<StdoutMessage>) -> (r: Result<(), StdoutError>)
        requires
            has_close(queue_view(*old(queue))),
        ensures
            r is Ok ==> queue_view(*final(queue)) == after_close(queue_view(*old(queue))),
            delivered_prefix(queue_view(*old(queue))).len() == 0 ==> r is Ok,
            r is Err ==> has_close(queue_view(*final(queue))) && after_close(
                queue_view(*final(queue)),
            ) == after_close(queue_view(*old(queue))),
    {
        let mut buf = Buffer::new();
        let mut out = stderr_handle();
        loop
            invariant
                has_close(queue_view(*queue)),
                after_close(queue_view(*queue)) == after_close(queue_view(*old(queue))),
                delivered_prefix(queue_view(*old(queue))).len() == 0 ==> queue_view(*queue)
                    == queue_view(*old(queue)),
            decreases queue_view(*queue).len(),
        {
            let ghost q = queue_view(*queue);
            match queue_try_pop(queue) {
                Some(StdoutMessage::Mesg(line)) => {
                    proof {
                        lemma_pop_data_keeps_close(q);
                        assert(delivered_prefix(q).len() > 0);
                    }
                    let bytes = buf.write_line(line.as_str());
                    match write_all_stderr(&mut out, bytes) {
                        Ok(()) => {},
                        Err(e) => {
                            return Err(StdoutError::Write(e));
                        },
                    }
                },
                Some(StdoutMessage::Close) => {
                    return Ok(());
                },
                None => {
                    proof {
                        lemma_has_close_nonempty(q);
                    }
                },
            }
        }
    }

    /// The consumer bound to a capture sink: appends each raw value to
    /// the capture record (no rendering), until the close sentinel is
    /// consumed. It cannot fail, and it delivers exactly the lines
    /// queued before the sentinel — every one of them, in queue order,
    /// by value, never as re-rendered text — while the entries behind
    /// the sentinel stay queued, unconsumed.
    pub fn process_mock(queue: &mut Queue<StdoutMessage>, mock_stdout: &mut MockStdout) -> (r: Result<
        (),
        StdoutError,
    >)
        requires
            has_close(queue_view(*old(queue))),
        ensures
            r is Ok,
            (*final(mock_stdout))@ == (*old(mock_stdout))@ + delivered_prefix(
                queue_view(*old(queue)),
            ),
            queue_view(*final(queue)) == after_close(queue_view(*old(queue))),
    {
        let ghost m0 = (*mock_stdout)@;
        loop
            invariant
                has_close(queue_view(*queue)),
                after_close(queue_view(*queue)) == after_close(queue_view(*old(queue))),
                (*mock_stdout)@ + delivered_prefix(queue_view(*queue)) == m0 + delivered_prefix(
                    queue_view(*old(queue)),
                ),
                m0 == (*old(mock_stdout))@,
            decreases queue_view(*queue).len(),
        {
            let ghost q = queue_view(*queue);
            match queue_try_pop(queue) {
                Some(StdoutMessage::Mesg(line)) => {
                    proof {
                        lemma_pop_data_keeps_close(q);
                    }
                    let ghost v = line@;
                    mock_stdout.push(line);
                    proof {
                        assert(delivered_prefix(q) == seq![v] + delivered_prefix(q.drop_first()));
                        assert((*mock_stdout)@ + delivered_prefix(q.drop_first()) =~= m0
                            + delivered_prefix(queue_view(*old(queue))));
                    }
                },
                Some(StdoutMessage::Close) => {
                    proof {
                        assert(delivered_prefix(q) =~= Seq::<Seq<char>>::empty());
                        assert((*mock_stdout)@ + delivered_prefix(q) =~= (*mock_stdout)@);
                        assert((*mock_stdout)@ == m0 + delivered_prefix(queue_view(*old(queue))));
                    }
                    return Ok(());
                },
                None => {
                    proof {
                        lemma_has_close_nonempty(q);
                    }
                },
            }
        }
    }
}

impl Default for StdoutChannel {
    fn default() -> (r: Self)
        ensures
            r@ == (ChannelModel { primary: fresh_stream(None), secondary: fresh_stream(None) }),
    {
        StdoutChannel::new()
    }
}

/// A queue holding a close sentinel is not empty.
proof fn lemma_has_close_nonempty(q: Seq<Option<Seq<char>>>)
    requires
        has_close(q),
    ensures
        q.len() > 0,
{
    let i = choose|i: int| 0 <= i < q.len() && q[i] is None;
    assert(q.len() > i);
}

/// Popping a line off the front leaves the close sentinel in the queue.
proof fn lemma_pop_data_keeps_close(q: Seq<Option<Seq<char>>>)
    requires
        has_close(q),
        q.len() > 0,
        q.first() is Some,
    ensures
        has_close(q.drop_first()),
{
    let i = choose|i: int| 0 <= i < q.len() && q[i] is None;
    assert(q.drop_first()[i - 1] is None);
}

} // verus!
