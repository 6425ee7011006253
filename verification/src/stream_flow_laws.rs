//! What holds of the stream protocol, of the loops that read and accept, and of the write buffer.

use vstd::prelude::*;
use crate::objects::ObjectId;
use crate::read_events::PendingReadEvent;
use crate::sock_ops::{
    fresh_send, send_step, sock_step, SendAction, SendAll, SendEvent, SockAction, SockEvent,
};
use crate::stream_io::{
    acceptor_does, all_ready, is_retry, reader_does, removed_as_well, shut_as_well, AcceptAction,
    AcceptEvent, AcceptFailure, IoError, IoErrorKind, ReaderAction, ReaderEvent, ReaderSituation,
};
use crate::stream_protocol::{
    after_answer, after_client, asked_next, connection_lost, connection_made, drain_run,
    drained, fresh_protocol, lost_step, made_step, settling_call, stream_source, waiter_call,
    with_connection, with_drain_waiter, with_loss, with_task, without_connection,
    without_drain_waiters, writing_paused, writing_resumed, ClientDone, ClientEnd,
    ConnectionLost, DrainRunView, DrainStep, FutureCall, LostAction, LostEvent, MadeAction,
    MadeEvent, ProtocolView,
};
use crate::write_buffer::{
    empty_write_buffer, requested_high, StreamWriteBufferState, DEFAULT_WRITE_BUFFER_HIGH_WATER,
};

verus! {

/// A future is settled with the exception where there is one, and else with `None`; one that is done
/// already is left alone.
pub proof fn law_futures_are_settled_once(
    future: ObjectId,
    exception: ObjectId,
    given: Option<ObjectId>,
)
    ensures
        settling_call(future, Some(exception)) == FutureCall::SetException(future, exception),
        settling_call(future, None) == FutureCall::SetNone(future),
        waiter_call(future, true, given) is None,
        waiter_call(future, false, given) == Some(settling_call(future, given)),
{
}

/// `drain` fails with the stream's exception, or because the connection is gone; else it is done at
/// once unless writing is paused.
pub proof fn law_drain_answers_by_the_stream(v: ProtocolView, exception: ObjectId)
    ensures
        drained(v, Some(exception)) == DrainStep::Failed(exception),
        v.connection_lost ==> drained(v, None) is ConnectionLost,
        !v.connection_lost && !v.paused ==> drained(v, None) == DrainStep::Ready(v.ready_none),
        !v.connection_lost && v.paused ==> drained(v, None) is Wait,
{
}

/// Writing that is paused makes `drain` wait, and writing that goes on lets everyone go who waited,
/// in the order in which they came, and nobody waits after that. A loss does the same with its
/// exception.
pub proof fn law_drain_waiters_are_let_go_together(
    v: ProtocolView,
    future: ObjectId,
    exception: Option<ObjectId>,
)
    ensures
        writing_paused(v).paused,
        writing_paused(v).drain_waiters == v.drain_waiters,
        !writing_resumed(v).paused,
        writing_resumed(v).drain_waiters.len() == 0,
        writing_resumed(writing_paused(v)).connection_lost == v.connection_lost,
        without_drain_waiters(v).drain_waiters.len() == 0,
        without_drain_waiters(v).paused == v.paused,
        drain_run(v, exception).waiting == v.drain_waiters,
        drain_run(v, exception).exception == exception,
        with_drain_waiter(v, future).drain_waiters == v.drain_waiters.push(future),
        with_drain_waiter(v, future).paused == v.paused,
        drain_run(with_drain_waiter(v, future), exception).waiting.last() == future,
{
}

/// Those who wait are asked from the first on, and each is asked once.
pub proof fn law_drain_asks_in_order(run: DrainRunView, done: bool)
    requires
        run.waiting.len() > 0,
    ensures
        asked_next(run) == Some(run.waiting[0]),
        after_answer(run, done).0.waiting == run.waiting.skip(1),
        after_answer(run, done).0.exception == run.exception,
        after_answer(run, done).1 == waiter_call(run.waiting[0], done, run.exception),
{
    assert(run.waiting.drop_first() =~= run.waiting.skip(1));
}

/// A new protocol has no connection, may write, and keeps what it was made from.
pub proof fn law_new_protocol_may_write(
    loop_obj: ObjectId,
    reader: ObjectId,
    callback: Option<ObjectId>,
    closed: ObjectId,
    ready_none: ObjectId,
)
    ensures
        ({
            let v = fresh_protocol(loop_obj, reader, callback, closed, ready_none);
            &&& drained(v, None) == DrainStep::Ready(ready_none)
            &&& v.loop_obj == loop_obj
            &&& v.reader == reader
            &&& v.client_connected_cb == callback
            &&& v.closed == closed
            &&& v.transport is None
            &&& v.task is None
            &&& v.drain_waiters.len() == 0
            &&& !v.connection_lost
        }),
{
}

/// A new connection is handed to the reader first. Without a callback that is all. With one the
/// client is called with that reader; what it returns becomes a task exactly where it is a
/// coroutine, and that task is kept together with the transport. What raises comes out as it was.
pub proof fn law_new_connection_reaches_the_client(
    v: ProtocolView,
    transport: ObjectId,
    result: ObjectId,
    task: ObjectId,
    raised: ObjectId,
)
    ensures
        ({
            let run = connection_made(v, transport);
            &&& made_step(run, MadeEvent::Begin) == (MadeAction::AttachReader {
                reader: v.reader,
                transport,
            })
            &&& v.client_connected_cb matches Some(callback) ==> made_step(
                run,
                MadeEvent::ReaderAttached,
            ) == (MadeAction::CallClient { callback, reader: v.reader })
            &&& v.client_connected_cb is None ==> made_step(run, MadeEvent::ReaderAttached)
                is Finish
            &&& made_step(run, MadeEvent::ClientReturned(result)) == MadeAction::AskCoroutine(
                result,
            )
            &&& made_step(run, MadeEvent::Coroutine(result, true)) == MadeAction::CreateTask(result)
            &&& made_step(run, MadeEvent::Coroutine(result, false)) is Finish
            &&& made_step(run, MadeEvent::TaskCreated(task)) == (MadeAction::KeepTask {
                task,
                transport,
            })
            &&& made_step(run, MadeEvent::TaskKept) is Finish
            &&& made_step(run, MadeEvent::Raised(raised)) == MadeAction::Fail(raised)
            &&& with_connection(v, transport).transport == Some(transport)
            &&& with_connection(v, transport).reader == v.reader
            &&& with_task(v, task).task == Some(task)
            &&& with_task(v, task).transport == v.transport
        }),
{
}

/// A loss is told to the reader, then to whoever waits for the end, then to everyone who waits in
/// `drain`, each with the exception of the loss; only then the connection is let go of. Whoever
/// waits for the end is not told twice. From the loss on `drain` fails.
pub proof fn law_loss_is_told_to_everyone(
    v: ProtocolView,
    exception: Option<ObjectId>,
    raised: ObjectId,
)
    ensures
        ({
            let run = connection_lost(v, exception);
            &&& lost_step(run, LostEvent::Begin) == LostAction::TellReader(exception)
            &&& lost_step(run, LostEvent::ReaderTold) == LostAction::AskClosed(v.closed)
            &&& lost_step(run, LostEvent::Closed(false)) == LostAction::Settle(
                settling_call(v.closed, exception),
            )
            &&& lost_step(run, LostEvent::Closed(true)) == LostAction::ResolveDrainWaiters(
                exception,
            )
            &&& lost_step(run, LostEvent::Settled) == LostAction::ResolveDrainWaiters(exception)
            &&& lost_step(run, LostEvent::DrainWaitersResolved) is Forget
            &&& lost_step(run, LostEvent::Forgotten) is Finish
            &&& lost_step(run, LostEvent::Raised(raised)) == LostAction::Fail(raised)
            &&& drained(with_loss(v), None) is ConnectionLost
            &&& with_loss(v).drain_waiters == v.drain_waiters
            &&& with_loss(v).transport == v.transport
            &&& without_connection(v).transport is None
            &&& without_connection(v).task is None
            &&& without_connection(v).connection_lost == v.connection_lost
            &&& without_connection(v).closed == v.closed
        }),
{
}

/// A client that returned is left alone; one that was cancelled or that raised has its transport
/// closed, and what it raised is reported.
pub proof fn law_failed_clients_are_closed(end: ClientEnd, raised: ObjectId)
    ensures
        after_client(end) is Nothing <==> end is Returned,
        after_client(end) is CloseTransport <==> end is Cancelled,
        after_client(end) == ClientDone::ReportAndClose(raised) <==> end == ClientEnd::Raised(
            raised,
        ),
{
}

/// The library's own streams are used exactly on its own loop and without TLS.
pub proof fn law_native_streams_need_a_native_loop(is_native_loop: bool, ssl_requested: bool)
    ensures
        stream_source(is_native_loop, ssl_requested) is Native <==> is_native_loop
            && !ssl_requested,
{
}

/// A socket that is not connected any more, or a file that is not there, need not be dealt with;
/// every other error comes out as it was, and success stays success.
pub proof fn law_only_absence_is_forgiven(error: IoError)
    ensures
        shut_as_well(Ok(())) is Ok,
        removed_as_well(Ok(())) is Ok,
        shut_as_well(Err(error)) is Ok <==> error.kind is NotConnected || error.kind is BrokenPipe,
        removed_as_well(Err(error)) is Ok <==> error.kind is NotFound,
        shut_as_well(Err(error)) matches Err(out) ==> out == error,
        removed_as_well(Err(error)) matches Err(out) ==> out == error,
        is_retry(error.kind) <==> error.kind is WouldBlock || error.kind is Interrupted,
        is_retry(error.kind) ==> shut_as_well(Err(error)) is Err,
{
}

/// A descriptor has to be ready for each thing that is asked for, and for no other.
pub proof fn law_readiness_covers_what_was_asked(read_ready: bool, write_ready: bool)
    ensures
        all_ready(true, true, read_ready, write_ready) <==> read_ready && write_ready,
        all_ready(true, false, read_ready, write_ready) <==> read_ready,
        all_ready(false, true, read_ready, write_ready) <==> write_ready,
        all_ready(false, false, read_ready, write_ready),
{
}

/// What a reader receives it reports, all of it; that nothing came is the end of the stream. It goes
/// on after data only.
pub proof fn law_reader_reports_what_it_receives(data: Vec<u8>, s: ReaderSituation)
    ensures
        data@.len() > 0 ==> reader_does(ReaderEvent::Received(data), s) == ReaderAction::Report(
            PendingReadEvent::Data(data),
        ),
        data@.len() == 0 ==> reader_does(ReaderEvent::Received(data), s)
            == ReaderAction::ReportAndFinish(PendingReadEvent::Eof),
{
}

/// A reader reads only after it waited for its turn, and where it can be polled only once there is
/// something to read. A closing transport is reported as lost without a reason; an error with its
/// text, unless the call has only to be made again.
pub proof fn law_reader_waits_for_its_turn(
    event: ReaderEvent,
    s: ReaderSituation,
    error: IoError,
    text: String,
)
    ensures
        reader_does(event, s) is Read ==> event == ReaderEvent::Polled(true) || event is Waited
            && !s.pollable && !s.closing,
        reader_does(ReaderEvent::Polled(true), s) is Read,
        reader_does(event, s) is Poll <==> event is Waited && s.pollable && !s.closing,
        event is Waited && !s.closing && !s.pollable ==> reader_does(event, s) is Read,
        event is Again || event == ReaderEvent::Polled(false) ==> {
            &&& s.stop ==> reader_does(event, s) is Finish
            &&& !s.stop && s.closing ==> reader_does(event, s) == ReaderAction::ReportAndFinish(
                PendingReadEvent::ConnectionLost(None),
            )
            &&& !s.stop && !s.closing ==> reader_does(event, s) is Wait
        },
        event is Waited && s.closing ==> reader_does(event, s) == ReaderAction::ReportAndFinish(
            PendingReadEvent::ConnectionLost(None),
        ),
        reader_does(ReaderEvent::PollFailed(text), s) == ReaderAction::ReportAndFinish(
            PendingReadEvent::ConnectionLost(Some(text)),
        ),
        !is_retry(error.kind) ==> reader_does(ReaderEvent::ReadFailed(error), s)
            == ReaderAction::ReportAndFinish(PendingReadEvent::ConnectionLost(Some(error.text))),
        is_retry(error.kind) ==> reader_does(ReaderEvent::ReadFailed(error), s) == reader_does(
            ReaderEvent::Again,
            s,
        ),
{
}

/// Every connection that was accepted is prepared and gets a transport, or is reported and passed
/// over; then the next one is accepted. The loop polls again where none waits, ends where the server
/// is closed or the loop is told to stop, and reports an error only while the server is open.
pub proof fn law_acceptor_goes_on_until_it_is_closed(
    kind: IoErrorKind,
    stop: bool,
    closed: bool,
)
    ensures
        acceptor_does(AcceptEvent::Accepted, stop, closed) is Configure,
        acceptor_does(AcceptEvent::Configured(true), stop, closed) is Spawn,
        acceptor_does(AcceptEvent::Configured(false), stop, closed) == AcceptAction::Report(
            AcceptFailure::Configure,
        ),
        acceptor_does(AcceptEvent::Spawned, stop, closed) is Accept,
        acceptor_does(AcceptEvent::Polled(true), stop, closed) is Accept,
        stop || closed ==> acceptor_does(AcceptEvent::Again, stop, closed) is Finish
            && acceptor_does(AcceptEvent::Polled(false), stop, closed) is Finish,
        !stop && !closed ==> acceptor_does(AcceptEvent::Again, stop, closed) is Poll
            && acceptor_does(AcceptEvent::Polled(false), stop, closed) is Poll && acceptor_does(
            AcceptEvent::AcceptFailed(IoErrorKind::WouldBlock),
            stop,
            closed,
        ) is Poll,
        closed ==> acceptor_does(AcceptEvent::PollFailed, stop, closed) is Finish && acceptor_does(
            AcceptEvent::AcceptFailed(kind),
            stop,
            closed,
        ) is Finish,
        !closed ==> acceptor_does(AcceptEvent::PollFailed, stop, closed)
            == AcceptAction::ReportAndFinish(AcceptFailure::Accept),
        !closed && !(kind is WouldBlock) ==> acceptor_does(
            AcceptEvent::AcceptFailed(kind),
            stop,
            closed,
        ) == AcceptAction::ReportAndFinish(AcceptFailure::Accept),
{
}

/// A call on a socket is made until it gives a result, which comes out as it was, or raises for
/// good; where the socket asks for it the operation waits and calls again.
pub proof fn law_socket_calls_are_repeated_until_they_settle(
    event: SockEvent,
    value: ObjectId,
    retryable: bool,
)
    ensures
        sock_step(SockEvent::Begin) is Call,
        sock_step(SockEvent::Ready) is Call,
        sock_step(SockEvent::Returned(value)) == SockAction::Return(value),
        sock_step(SockEvent::Refused { refusal: value, retryable: true }) is WaitReadable,
        sock_step(SockEvent::Refused { refusal: value, retryable: false }) == SockAction::Fail(
            value,
        ),
        sock_step(SockEvent::Raised(value)) == SockAction::Fail(value),
        sock_step(event) == SockAction::Return(value) ==> event == SockEvent::Returned(value),
{
}

/// Sending sends what is left, waits while something is, and is done exactly when nothing is. What
/// the socket took is counted, and nothing else.
pub proof fn law_sending_sends_what_is_left(
    s: SendAll,
    n: usize,
    refusal: ObjectId,
    retryable: bool,
)
    requires
        s.sent + n <= usize::MAX,
    ensures
        s.sent < s.total ==> send_step(s, SendEvent::Begin) == (
            s,
            SendAction::Send { from: s.sent, to: s.total },
        ),
        s.sent >= s.total ==> send_step(s, SendEvent::Begin) == (s, SendAction::Done),
        send_step(s, SendEvent::Ready) == send_step(s, SendEvent::Begin),
        send_step(s, SendEvent::Sent(n)).0 == (SendAll { total: s.total, sent: (s.sent + n) as usize }),
        send_step(s, SendEvent::Sent(n)).1 is Done <==> s.sent + n >= s.total,
        send_step(s, SendEvent::Sent(n)).1 is WaitWritable <==> s.sent + n < s.total,
        send_step(s, SendEvent::Refused { refusal, retryable }).0 == s,
        send_step(s, SendEvent::Refused { refusal, retryable }).1 is WaitWritable <==> retryable,
        !retryable ==> send_step(s, SendEvent::Refused { refusal, retryable }).1
            == SendAction::Fail(refusal),
        send_step(s, SendEvent::Raised(refusal)) == (s, SendAction::Fail(refusal)),
{
}

/// What is taken and what is written is counted byte for byte, within the numbers that there are.
/// The protocol is held back from the moment on when more than the high mark waits, and goes on from
/// the moment on when no more than the low mark does; the marks themselves stay.
pub proof fn law_buffer_holds_back_between_the_marks(state: StreamWriteBufferState, len: usize)
    requires
        state.low_water <= state.high_water,
        state.size > state.high_water ==> state.protocol_paused,
        state.size <= state.low_water ==> !state.protocol_paused,
    ensures
        ({
            let more = state.enqueued(len);
            let less = state.drained(len);
            &&& state.size + len <= usize::MAX ==> more.size == state.size + len
            &&& state.size + len > usize::MAX ==> more.size == usize::MAX
            &&& more.protocol_paused <==> state.protocol_paused || more.size > state.high_water
            &&& len <= state.size ==> less.size == state.size - len
            &&& len > state.size ==> less.size == 0
            &&& less.protocol_paused <==> state.protocol_paused && less.size > state.low_water
            &&& more.high_water == state.high_water && more.low_water == state.low_water
            &&& less.high_water == state.high_water && less.low_water == state.low_water
            &&& state.cleared().size == 0
            &&& !state.cleared().protocol_paused
            &&& state.cleared().high_water == state.high_water
            &&& state.cleared().low_water == state.low_water
        }),
{
}

/// The marks are what was given. A mark that was not follows from the other one, and neither from
/// the defaults: the high one is four times the low one. A high mark below the low one is refused,
/// and named with it. The protocol is told to hold back or to go on exactly where the new marks ask
/// for it, and what waits stays the same.
pub proof fn law_marks_are_what_was_given(
    state: StreamWriteBufferState,
    high: Option<usize>,
    low: Option<usize>,
)
    requires
        requested_high(high, low) <= usize::MAX,
    ensures
        state.limited(high, low) is Err <==> (high matches Some(h) && low matches Some(l) && h < l),
        state.limited(high, low) matches Err(error) ==> Some(error.high) == high && Some(error.low)
            == low,
        state.limited(high, low) matches Ok((after, flow)) ==> {
            &&& high matches Some(h) ==> after.high_water == h
            &&& low matches Some(l) ==> after.low_water == l
            &&& high is None ==> (low matches Some(l) ==> after.high_water == 4 * l)
            &&& high is None && low is None ==> after.high_water == DEFAULT_WRITE_BUFFER_HIGH_WATER
            &&& low is None ==> after.low_water == after.high_water / 4
            &&& after.size == state.size
            &&& flow is Pause <==> state.size > after.high_water && !state.protocol_paused
            &&& flow is Resume <==> state.size <= after.low_water && state.protocol_paused
            &&& flow is Pause ==> after.protocol_paused
            &&& flow is Resume ==> !after.protocol_paused
            &&& flow is Unchanged ==> after.protocol_paused == state.protocol_paused
        },
{
    reveal(StreamWriteBufferState::limited);
}

/// Sending begins with everything before it.
pub proof fn law_sending_begins_with_everything(total: usize)
    ensures
        fresh_send(total).sent == 0,
        fresh_send(total).total == total,
{
}

/// A new write buffer holds nothing, its protocol may write, and its low mark is a quarter of the
/// high one, as it is where nothing is asked for.
pub proof fn law_new_write_buffer_is_empty()
    ensures
        empty_write_buffer().size == 0,
        !empty_write_buffer().protocol_paused,
        4 * empty_write_buffer().low_water == empty_write_buffer().high_water,
        empty_write_buffer().high_water == requested_high(None, None),
        0 < empty_write_buffer().low_water < empty_write_buffer().high_water,
{
}

/// With nobody left to settle nobody is asked.
pub proof fn law_drain_ends_with_the_last_one(run: DrainRunView)
    ensures
        asked_next(run) is None <==> run.waiting.len() == 0,
{
}

/// Nothing that is added changes nothing, whatever the marks are, and so does nothing that is taken
/// off.
pub proof fn law_nothing_changes_nothing(state: StreamWriteBufferState)
    ensures
        state.enqueued(0) == state,
        state.drained(0) == state,
{
}

} // verus!
