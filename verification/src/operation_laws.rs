//! What holds of the operations themselves, said of any call of them: of the arguments, of the
//! values before and after, and of what comes back.

use vstd::prelude::*;
use crate::loop_commands::{
    CallbackKind, FdWatch, LoopCommand, LoopRunCommand, RawFd, ReadyCallback, ReadyItem,
};
use crate::loop_core::{LoopCore, LoopCoreError, LoopView, Sent, ThreadReady};
use crate::loop_run::{is_step, LoopRun, RunAction, RunError, RunEvent};
use crate::loop_run_laws::{
    law_failures_end_the_run, law_only_a_request_stops_the_loop,
    law_run_ends_well_only_when_stopped, stops_waiting,
};
use crate::loop_watch_laws::watches_like;
use crate::objects::ObjectId;
use crate::process_request_laws::connects;
use crate::py_loop::PyLoop;
use crate::read_buffer::ReadBuffer;
use crate::reader_answer_laws::least;
use crate::server::{ServerClosing, ServerCore};
use crate::stream_protocol::{ConnectionLost, DrainRun, PyFastStreamProtocol};
use crate::stream_reader::{
    Completion, Fed, Payload, PyFastStreamReader, ReadError, ReadWaitKind, ReaderError, Resolution,
};
use crate::stream_writer::{StreamWriter, WriterAction, WriterCommand, WriterEvent};
use crate::stream_writer_laws::holds_no_data;
use crate::subprocess::{
    apply_stdio, output_stdio, stderr_stdio, ChildStdio, ProcessStdioSpec, StdioPlan,
    SubprocessError,
};
use crate::write_buffer::{OwnedWriteBuffer, StreamWriteBufferState};

verus! {

/// A run begins on a loop that is open and does not run, and then the loop is not stopping, whatever
/// was asked of it before. On any other loop no run begins and nothing changes.
pub proof fn law_run_forever_begins_without_a_stop()
    ensures
        forall|
            core: &mut LoopCore,
            thread: &mut ThreadReady,
            started: Result<LoopRun, LoopCoreError>,
        | #[trigger]
            call_ensures(LoopCore::run_forever, (core, thread), started) ==> {
                let (before, after) = ((*core)@, (*final(core))@);
                &&& !before.state.closed && !before.state.running ==> {
                    &&& after.state.running
                    &&& !after.state.stopping
                    &&& !after.state.closed
                    &&& after.state.signal_handlers == before.state.signal_handlers
                    &&& after.state.reader_keepalive == before.state.reader_keepalive
                    &&& after.state.writer_keepalive == before.state.writer_keepalive
                    &&& started is Ok ==> after.sent == before.sent.push(
                        LoopCommand::Run(LoopRunCommand::EnterRun),
                    )
                    &&& started matches Err(error) ==> error == LoopCoreError::ChannelClosed
                }
                &&& before.state.closed || before.state.running ==> started is Err && after
                    == before && (started->Err_0 == LoopCoreError::Closed <==> before.state.closed)
                &&& (*final(thread))@ == (*thread)@
            },
{
}

/// A step of a run answers that the run is over and went well only if the loop is stopping and
/// nothing is left to do. The loop comes to stop only by a request that the step takes, and by every
/// one. Failures come out as they were.
pub proof fn law_run_steps_stop_only_when_asked()
    ensures
        forall|
            run: &mut LoopRun,
            core: &mut LoopCore,
            thread: &mut ThreadReady,
            event: RunEvent,
            action: RunAction,
        | #[trigger]
            call_ensures(LoopRun::step, (run, core, thread, event), action) && (*run).wf() ==> {
                let before = (*run).on((*core)@, (*thread)@);
                let after = (*final(run)).on((*final(core))@, (*final(thread))@);
                &&& is_step(before, event, after, action)
                &&& action is Finish ==> after.core.state.stopping && after.waiting() == 0
                    && after.signal_error is None
                &&& !(event is SignalRaised) ==> (after.core.state.stopping
                    <==> before.core.state.stopping || stops_waiting(after) < stops_waiting(before))
                &&& event matches RunEvent::CallbackFailed(raised) ==> action
                    == RunAction::FinishWith(RunError::Raised(raised))
                &&& event matches RunEvent::SignalRaised(raised) ==> after.signal_error == Some(
                    raised,
                ) && !(action is Finish)
                &&& event is Disconnected ==> action == RunAction::FinishWith(
                    RunError::RuntimeTerminated,
                )
            },
{
    assert forall|
        run: &mut LoopRun,
        core: &mut LoopCore,
        thread: &mut ThreadReady,
        event: RunEvent,
        action: RunAction,
    | #[trigger]
        call_ensures(LoopRun::step, (run, core, thread, event), action) && (*run).wf() implies {
        let before = (*run).on((*core)@, (*thread)@);
        let after = (*final(run)).on((*final(core))@, (*final(thread))@);
        &&& is_step(before, event, after, action)
        &&& action is Finish ==> after.core.state.stopping && after.waiting() == 0
            && after.signal_error is None
        &&& !(event is SignalRaised) ==> (after.core.state.stopping <==> before.core.state.stopping
            || stops_waiting(after) < stops_waiting(before))
        &&& event matches RunEvent::CallbackFailed(raised) ==> action == RunAction::FinishWith(
            RunError::Raised(raised),
        )
        &&& event matches RunEvent::SignalRaised(raised) ==> after.signal_error == Some(raised)
            && !(action is Finish)
        &&& event is Disconnected ==> action == RunAction::FinishWith(RunError::RuntimeTerminated)
    } by {
        let before = (*run).on((*core)@, (*thread)@);
        let after = (*final(run)).on((*final(core))@, (*final(thread))@);
        law_failures_end_the_run(before, event, after, action);
        if action is Finish {
            law_run_ends_well_only_when_stopped(before, event, after, action);
        }
        if !(event is SignalRaised) {
            law_only_a_request_stops_the_loop(before, event, after, action);
        }
    }
}

/// A read of at most `n` bytes hands out exactly the smaller of `n` and what is there, from the
/// front, whether the stream ended or not, and leaves the rest. It waits only for the first byte of
/// a stream that goes on, and never fails.
pub proof fn law_resolve_read_hands_out_at_most_what_was_asked(n: usize)
    ensures
        forall|reader: &mut PyFastStreamReader, resolution: Resolution| #[trigger]
            call_ensures(
                PyFastStreamReader::resolve_read,
                (reader, &ReadWaitKind::Any(n)),
                resolution,
            ) && (*reader).wf() ==> {
                let (before, after) = ((*reader)@, (*final(reader))@);
                &&& resolution.ready is None <==> before.unread.len() == 0 && !before.eof
                &&& resolution.ready is None ==> after == before
                &&& resolution.ready matches Some(payload) ==> (payload matches Payload::Data(data)
                    && {
                    &&& data@.len() == least(n as nat, before.unread.len())
                    &&& data@ + after.unread == before.unread
                    &&& after.eof == before.eof
                })
            },
{
    assert forall|reader: &mut PyFastStreamReader, resolution: Resolution| #[trigger]
        call_ensures(
            PyFastStreamReader::resolve_read,
            (reader, &ReadWaitKind::Any(n)),
            resolution,
        ) && (*reader).wf() implies {
        let (before, after) = ((*reader)@, (*final(reader))@);
        &&& resolution.ready is None <==> before.unread.len() == 0 && !before.eof
        &&& resolution.ready is None ==> after == before
        &&& resolution.ready matches Some(payload) ==> (payload matches Payload::Data(data) && {
            &&& data@.len() == least(n as nat, before.unread.len())
            &&& data@ + after.unread == before.unread
            &&& after.eof == before.eof
        })
    } by {
        if let Some(Payload::Data(data)) = resolution.ready {
            assert(data@ + (*final(reader))@.unread =~= (*reader)@.unread);
        }
    }
}

/// A read of everything is answered at the end of the stream and not before, with all that is there.
/// A read of exactly `n` bytes is answered once they are there; at an end before that it fails with
/// all that there was.
pub proof fn law_resolve_read_answers_whole_reads(n: usize)
    ensures
        forall|reader: &mut PyFastStreamReader, resolution: Resolution| #[trigger]
            call_ensures(
                PyFastStreamReader::resolve_read,
                (reader, &ReadWaitKind::All),
                resolution,
            ) && (*reader).wf() ==> {
                &&& resolution.ready is Some <==> (*reader)@.eof
                &&& resolution.ready matches Some(payload) ==> (payload matches Payload::Data(data)
                    && data@ == (*reader)@.unread && (*final(reader))@.unread.len() == 0)
                &&& resolution.ready is None ==> (*final(reader))@ == (*reader)@
            },
        forall|reader: &mut PyFastStreamReader, resolution: Resolution| #[trigger]
            call_ensures(
                PyFastStreamReader::resolve_read,
                (reader, &ReadWaitKind::Exact(n)),
                resolution,
            ) && (*reader).wf() ==> {
                let (before, after) = ((*reader)@, (*final(reader))@);
                &&& before.unread.len() >= n ==> (resolution.ready matches Some(Payload::Data(data))
                    && data@ == before.unread.take(n as int) && after.unread == before.unread.skip(
                    n as int,
                ))
                &&& before.unread.len() < n && before.eof ==> (resolution.ready matches Some(
                    Payload::Failed(ReadError::IncompleteRead { partial, expected }),
                ) && partial@ == before.unread && expected == Some(n) && after.unread.len() == 0)
                &&& before.unread.len() < n && !before.eof ==> resolution.ready is None && after
                    == before
            },
{
}

/// Bytes that are fed stand behind those that are there until a read takes them, so none is lost and
/// none comes twice: what a waiting read is handed and what is left are together what there was.
/// After the end nothing is fed.
pub proof fn law_feeding_loses_no_byte(data: &[u8])
    ensures
        forall|reader: &mut PyFastStreamReader, fed: Result<Fed, ReaderError>| #[trigger]
            call_ensures(PyFastStreamReader::feed_data_internal, (reader, data), fed)
                && (*reader).wf() ==> {
                let (before, after) = ((*reader)@, (*final(reader))@);
                &&& fed is Err <==> before.eof
                &&& fed is Err ==> after == before
                &&& fed is Ok && before.waiter is None ==> after.unread == before.unread + data@
                &&& fed is Ok ==> after.eof == before.eof && after.limit == before.limit
                    && after.exception == before.exception
            },
{
}

/// The end of the stream is noted, and so is an exception.
pub proof fn law_ends_are_noted(exception: ObjectId)
    ensures
        forall|reader: &mut PyFastStreamReader, completion: Option<Completion>| #[trigger]
            call_ensures(PyFastStreamReader::feed_eof_internal, (reader,), completion)
                && (*reader).wf() ==> (*final(reader))@.eof && (*final(reader))@.exception
                == (*reader)@.exception && ((*reader)@.waiter is None ==> (*final(reader))@.unread
                == (*reader)@.unread && completion is None),
        forall|reader: &mut PyFastStreamReader, completion: Option<Completion>| #[trigger]
            call_ensures(PyFastStreamReader::set_exception_internal, (reader, exception), completion)
                && (*reader).wf() ==> (*final(reader))@.exception == Some(exception)
                && (*final(reader))@.unread == (*reader)@.unread && (*final(reader))@.eof
                == (*reader)@.eof && ((*reader)@.waiter matches Some((future, _)) ==> (completion
                matches Some(completion) && completion.future == future)),
{
}

/// Data that a writer receives it writes at once, and it writes nothing else: so every buffer is
/// written once and in order. A step never comes to hold data back.
pub proof fn law_writer_steps_write_what_comes(buffer: OwnedWriteBuffer, stop: bool)
    ensures
        forall|writer: &mut StreamWriter, action: WriterAction| #[trigger]
            call_ensures(
                StreamWriter::step,
                (writer, WriterEvent::Received(Some(WriterCommand::Data(buffer))), stop),
                action,
            ) ==> action == WriterAction::Write(buffer) && (*final(writer))@.in_batch
                && (*final(writer))@.held == (*writer)@.held,
        forall|writer: &mut StreamWriter, event: WriterEvent, action: WriterAction| #[trigger]
            call_ensures(StreamWriter::step, (writer, event, stop), action) && holds_no_data(
                (*writer)@,
            ) ==> holds_no_data((*final(writer))@) && (action matches WriterAction::Write(written)
                ==> event == WriterEvent::Received(Some(WriterCommand::Data(written))))
                && (*final(writer))@.kind == (*writer)@.kind,
{
}

/// The errors go where they were asked to go: with the output only where that was asked, and then to
/// whatever the output goes to. Alone they cannot go into the pipe of the output.
pub proof fn law_errors_go_where_they_were_asked_to(
    stderr: ProcessStdioSpec,
    stdout: ProcessStdioSpec,
    stdio: Result<ChildStdio, SubprocessError>,
    output: Result<ChildStdio, SubprocessError>,
)
    requires
        call_ensures(stderr_stdio, (stderr, stdout), stdio),
        call_ensures(output_stdio, (stdout,), output),
    ensures
        !(stderr is Stdout) ==> (stdio matches Ok(stdio) && connects(stderr, stdio)),
        stderr is Stdout && !(stdout is Pipe) && !(stdout is Stdout) ==> stdio == output,
        stderr is Stdout && (stdout is Pipe || stdout is Stdout) ==> stdio == Err::<
            ChildStdio,
            SubprocessError,
        >(SubprocessError::InvalidStderr),
        !(stdout is Stdout) ==> (output matches Ok(output) && connects(stdout, output)),
        stdout is Stdout ==> output is Err,
{
}

/// Every stream of a child is connected to what was asked for it, and the two outputs share a pipe
/// exactly where the errors are to go with an output that is a pipe.
pub proof fn law_applied_streams_are_connected_as_asked(
    stdin: ProcessStdioSpec,
    stdout: ProcessStdioSpec,
    stderr: ProcessStdioSpec,
    plan: Result<StdioPlan, SubprocessError>,
)
    requires
        call_ensures(apply_stdio, (stdin, stdout, stderr), plan),
    ensures
        plan is Ok <==> !(stdin is Stdout) && !(stdout is Stdout),
        plan matches Ok(plan) ==> {
            &&& connects(stdin, plan.stdin)
            &&& !(stderr is Stdout) ==> connects(stdout, plan.stdout) && connects(
                stderr,
                plan.stderr,
            )
            &&& stderr is Stdout && !(stdout is Pipe) ==> connects(stdout, plan.stdout) && connects(
                stdout,
                plan.stderr,
            )
            &&& stderr is Stdout && stdout is Pipe ==> plan.stdout is SharedPipe && plan.stderr
                is SharedPipe
        },
{
}

/// A callback of a descriptor is watched again exactly while the descriptor is watched for that
/// direction, with the callback that it had. Otherwise nothing is sent and nothing changes.
pub proof fn law_rearming_goes_by_what_is_watched()
    ensures
        forall|
            core: &mut LoopCore,
            thread: &mut ThreadReady,
            ready: ReadyCallback,
            done: Option<Result<Sent, LoopCoreError>>,
        | #[trigger]
            call_ensures(LoopCore::rearm_fd_watch_if_needed, (core, thread, ready), done) ==> {
                let (before, after) = ((*core)@, (*final(core))@);
                &&& done is Some <==> match ready.kind {
                    CallbackKind::Reader(fd) => before.state.reader_keepalive.contains_key(fd),
                    CallbackKind::Writer(fd) => before.state.writer_keepalive.contains_key(fd),
                    _ => false,
                }
                &&& done is None ==> after == before && (*final(thread))@ == (*thread)@
                &&& done matches Some(Ok(Sent::Channel)) ==> after.sent.len() == before.sent.len()
                    + 1 && watches_like(after.sent.last(), ready)
                &&& after.state == before.state
            },
{
}

/// A descriptor that was taken off is watched no longer for that direction, and one that was added
/// is. The other direction and all other descriptors stay as they were.
pub proof fn law_watching_is_kept_by_descriptor_and_direction(fd: RawFd, other: RawFd)
    ensures
        forall|
            lp: &mut PyLoop,
            thread: &mut ThreadReady,
            done: (bool, Result<Sent, LoopCoreError>),
        | #[trigger]
            call_ensures(PyLoop::remove_reader, (lp, thread, fd), done) ==> {
                let (before, after) = ((*lp).core@.state, (*final(lp)).core@.state);
                &&& !after.reader_keepalive.contains_key(fd)
                &&& other != fd ==> (after.reader_keepalive.contains_key(other)
                    <==> before.reader_keepalive.contains_key(other))
                &&& after.writer_keepalive == before.writer_keepalive
                &&& done.0 <==> before.reader_keepalive.contains_key(fd)
            },
        forall|
            lp: &mut PyLoop,
            thread: &mut ThreadReady,
            done: (bool, Result<Sent, LoopCoreError>),
        | #[trigger]
            call_ensures(PyLoop::remove_writer, (lp, thread, fd), done) ==> {
                let (before, after) = ((*lp).core@.state, (*final(lp)).core@.state);
                &&& !after.writer_keepalive.contains_key(fd)
                &&& other != fd ==> (after.writer_keepalive.contains_key(other)
                    <==> before.writer_keepalive.contains_key(other))
                &&& after.reader_keepalive == before.reader_keepalive
                &&& done.0 <==> before.writer_keepalive.contains_key(fd)
            },
        forall|
            lp: &mut PyLoop,
            thread: &mut ThreadReady,
            watch: FdWatch,
            keepalive: ObjectId,
            done: Result<Sent, LoopCoreError>,
        | #[trigger]
            call_ensures(PyLoop::add_reader, (lp, thread, watch, keepalive), done) && watch.fd == fd
                ==> {
                let (before, after) = ((*lp).core@.state, (*final(lp)).core@.state);
                &&& after.reader_keepalive.contains_key(fd)
                &&& other != fd ==> (after.reader_keepalive.contains_key(other)
                    <==> before.reader_keepalive.contains_key(other))
                &&& after.writer_keepalive == before.writer_keepalive
            },
        forall|
            lp: &mut PyLoop,
            thread: &mut ThreadReady,
            watch: FdWatch,
            keepalive: ObjectId,
            done: Result<Sent, LoopCoreError>,
        | #[trigger]
            call_ensures(PyLoop::add_writer, (lp, thread, watch, keepalive), done) && watch.fd == fd
                ==> {
                let (before, after) = ((*lp).core@.state, (*final(lp)).core@.state);
                &&& after.writer_keepalive.contains_key(fd)
                &&& other != fd ==> (after.writer_keepalive.contains_key(other)
                    <==> before.writer_keepalive.contains_key(other))
                &&& after.reader_keepalive == before.reader_keepalive
            },
{
}

/// A read buffer gives back what was put in, oldest first. Appending puts bytes behind the others,
/// consuming takes them off the front, and replacing forgets what was there.
pub proof fn law_read_buffer_is_a_queue_of_bytes(data: &[u8], n: usize)
    ensures
        forall|buffer: &mut ReadBuffer| #[trigger]
            call_ensures(ReadBuffer::extend, (buffer, data), ()) && (*buffer).wf()
                ==> (*final(buffer))@ == (*buffer)@ + data@,
        forall|buffer: &mut ReadBuffer| #[trigger]
            call_ensures(ReadBuffer::consume, (buffer, n), ()) && (*buffer).wf() ==> {
                &&& (*final(buffer))@.len() == if n <= (*buffer)@.len() {
                    (*buffer)@.len() - n
                } else {
                    0
                }
                &&& n <= (*buffer)@.len() ==> (*final(buffer))@ == (*buffer)@.skip(n as int)
            },
        forall|buffer: &mut ReadBuffer| #[trigger]
            call_ensures(ReadBuffer::consume_all, (buffer,), ()) && (*buffer).wf()
                ==> (*final(buffer))@.len() == 0,
        forall|buffer: &mut ReadBuffer| #[trigger]
            call_ensures(ReadBuffer::replace, (buffer, data), ()) ==> (*final(buffer))@ == data@,
        forall|capacity: usize, buffer: ReadBuffer| #[trigger]
            call_ensures(ReadBuffer::with_capacity, (capacity,), buffer) ==> buffer@.len() == 0,
{
}

/// What was written of a buffer comes off its front, and nothing else does.
pub proof fn law_written_bytes_come_off_the_front(n: usize)
    ensures
        forall|buffer: &mut OwnedWriteBuffer| #[trigger]
            call_ensures(OwnedWriteBuffer::advance, (buffer, n), ()) && (*buffer).wf() && n
                <= (*buffer)@.len() ==> (*final(buffer))@ == (*buffer)@.skip(n as int),
{
}

/// The size of a write buffer counts what waits. The protocol is told to pause when the size passes
/// the high mark, and to resume when it comes down to the low one, each time once.
pub proof fn law_write_buffer_tells_its_protocol_once(len: usize)
    ensures
        forall|state: &mut StreamWriteBufferState, pause: bool| #[trigger]
            call_ensures(StreamWriteBufferState::record_enqueued, (state, len), pause) ==> {
                let (before, after) = (*state, *final(state));
                &&& before.size + len <= usize::MAX ==> after.size == before.size + len
                &&& pause <==> !before.protocol_paused && len > 0 && after.size
                    > before.high_water
                &&& after.protocol_paused <==> before.protocol_paused || pause
                &&& after.high_water == before.high_water && after.low_water == before.low_water
            },
        forall|state: &mut StreamWriteBufferState, resume: bool| #[trigger]
            call_ensures(StreamWriteBufferState::record_drained, (state, len), resume) ==> {
                let (before, after) = (*state, *final(state));
                &&& len <= before.size ==> after.size == before.size - len
                &&& len > before.size ==> after.size == 0
                &&& resume <==> before.protocol_paused && len > 0 && after.size
                    <= before.low_water
                &&& after.protocol_paused <==> before.protocol_paused && !resume
                &&& after.high_water == before.high_water && after.low_water == before.low_water
            },
{
}

/// Two numbers that a loop hands out after each other differ, and nothing but the number changes.
pub proof fn law_numbers_are_handed_out_once()
    ensures
        forall|core: &mut LoopCore, id: u64| #[trigger]
            call_ensures(LoopCore::next_callback_id, (core,), id) ==> {
                let (before, after) = ((*core)@, (*final(core))@);
                &&& id == before.next_callback_id
                &&& after.next_callback_id != id
                &&& id < u64::MAX ==> after.next_callback_id == id + 1
                &&& after == (LoopView { next_callback_id: after.next_callback_id, ..before })
            },
{
}

/// A callback that is scheduled carries what it was scheduled with, is due soon, and has the next
/// number. It stands last in the thread's own queue, or goes to the runtime thread; where nobody
/// hears of it that is said.
pub proof fn law_call_soon_schedules_what_was_given(
    callback: ObjectId,
    args: ObjectId,
    context: ObjectId,
    context_needs_run: bool,
)
    ensures
        forall|
            lp: &mut PyLoop,
            thread: &mut ThreadReady,
            done: Result<(ReadyCallback, Sent), LoopCoreError>,
        | #[trigger]
            call_ensures(
                PyLoop::call_soon,
                (lp, thread, callback, args, context, context_needs_run),
                done,
            ) ==> {
                &&& done matches Ok((ready, _)) ==> {
                    &&& ready.callback == callback
                    &&& ready.args == args
                    &&& ready.context == context
                    &&& ready.context_needs_run == context_needs_run
                    &&& ready.kind is Soon
                    &&& ready.id == (*lp).core@.next_callback_id
                }
                &&& done matches Ok((ready, Sent::Local)) ==> (*final(thread))@.queue
                    == Some((*thread)@.queue.unwrap().push(ReadyItem::Callback(ready)))
                &&& done matches Ok((ready, Sent::Channel)) ==> (*final(lp)).core@.sent
                    == (*lp).core@.sent.push(LoopCommand::ScheduleReady(ready))
                &&& done is Err ==> (*final(lp)).core@.unheard && (*final(thread))@ == (*thread)@
                &&& (*final(lp)).core@.state == (*lp).core@.state
            },
{
}

/// A server closes once. Closing it ends serving, hands out what it listened at and its path, and
/// forgets them; closing it again does nothing.
pub proof fn law_server_close_works_once()
    ensures
        forall|server: &mut ServerCore, closing: Option<ServerClosing>| #[trigger]
            call_ensures(ServerCore::close, (server,), closing) ==> {
                let (before, after) = ((*server)@, (*final(server))@);
                &&& closing is None <==> before.closed
                &&& before.closed ==> after == before
                &&& after.closed
                &&& !before.closed ==> !after.serving && after.listeners.len() == 0
                    && after.accept_fds.len() == 0
                &&& after.active_connections == before.active_connections
            },
        forall|server: &mut ServerCore| #[trigger]
            call_ensures(ServerCore::connection_opened, (server,), ()) ==> {
                let (before, after) = ((*server)@, (*final(server))@);
                &&& before.active_connections < usize::MAX ==> after.active_connections
                    == before.active_connections + 1
                &&& after.closed == before.closed
            },
        forall|server: &mut ServerCore| #[trigger]
            call_ensures(ServerCore::connection_lost, (server,), ()) ==> {
                let (before, after) = ((*server)@, (*final(server))@);
                &&& before.active_connections > 0 ==> after.active_connections
                    == before.active_connections - 1
                &&& after.closed == before.closed
            },
{
}

/// A protocol that was paused is, until it is resumed. Resuming lets everyone go who waits in
/// `drain`, without an exception; the loss of the connection is noted with its exception.
pub proof fn law_protocol_is_paused_and_resumed(exception: Option<ObjectId>)
    ensures
        forall|protocol: &mut PyFastStreamProtocol| #[trigger]
            call_ensures(PyFastStreamProtocol::pause_writing, (protocol,), ())
                ==> (*final(protocol))@.paused && (*final(protocol))@.drain_waiters
                == (*protocol)@.drain_waiters,
        forall|protocol: &mut PyFastStreamProtocol, run: DrainRun| #[trigger]
            call_ensures(PyFastStreamProtocol::resume_writing, (protocol,), run)
                ==> !(*final(protocol))@.paused && (*final(protocol))@.drain_waiters.len() == 0
                && run@.waiting == (*protocol)@.drain_waiters && run@.exception is None,
        forall|protocol: &mut PyFastStreamProtocol, run: ConnectionLost| #[trigger]
            call_ensures(PyFastStreamProtocol::handle_connection_lost, (protocol, exception), run)
                ==> (*final(protocol))@.connection_lost && run.exception == exception && run.closed
                == (*protocol)@.closed && (*final(protocol))@.closed == (*protocol)@.closed,
{
}

} // verus!
