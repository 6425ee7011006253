use rsloop::extra_info::{make_stream_extra, pipe_extra, ExtraInfo};
use rsloop::executor::ExecutorError;
use rsloop::loop_commands::{LoopCommand, LoopIoCommand, LoopTransportCommand};
use rsloop::loop_core::{LoopCore, LoopCoreError, Sent, ThreadReady};
use rsloop::loop_run::RunError;
use rsloop::objects::ExceptionClass;
use rsloop::os_constants::{AF_INET, AF_INET6, AF_UNIX};
use rsloop::process_transport::ProcessError;
use rsloop::py_stream_transport::{
    AbortAction, CloseAction, PyStreamTransport, WriteEofAction, WriteStep, WrittenObject,
};
use rsloop::read_events::{
    data_failure_message, eof_failure_message, DrainAction, DrainEvent, PendingReadEvent,
    ReadDrain, ReadEventQueue, MAX_PENDING_READ_COALESCE_BYTES,
};
use rsloop::reader_fast_path::{
    feed_after_eof_message, stream_reader_fast_path, ClientCallback, EndAction, EndEvent,
    FastLostStep, FastMadeStep, FastPathChoice, FeedAction, FeedEvent, GenericEnd, GenericFeed,
    StreamReaderFastPath,
};
use rsloop::separators::{SeparatorError, SeparatorTypeError};
use rsloop::server::{
    create_server, tcp_server_listener, unix_server_listener, unwatch_listeners, AcceptPlan,
    AcceptRoute, PyServer, ServerCreateParams, ServerListener,
};
use rsloop::stream_io::{
    accept_failure_message, attach_failed_message, is_ready, remove_unix_socket_if_present,
    run_accept_loop, run_stream_reader, shutdown_stream, AcceptAction, AcceptEvent, AcceptFailure,
    IoError, IoErrorKind, ListenerKind, ReaderAction, ReaderEvent, ReaderSituation,
};
use rsloop::stream_protocol::FutureCall;
use rsloop::stream_reader::ReaderError;
use rsloop::stream_transport::{
    start_tls_transport, stream_family, tcp_family, DataTarget, DirectStep, DirectWrite, EofTarget,
    LossRoute, LossStep, Notify, ProtocolCallbacks, StreamFamily, StreamTransportCore, TlsSide,
    TransportError, TransportSpawnContext,
};
use rsloop::stream_writer::{
    tls_timeout_message, write_all_owned, LossReason, StreamWriter, WriteAllAction, WriteAllEvent,
    WriterAction, WriterCommand, WriterEvent, WriterKind,
};
use rsloop::tls_io::{
    close_deadline, close_tls_writer, complete_tls_handshake, continue_tls_handshake_read,
    drain_tls_plaintext, flush_tls_io, handshake_timeout, read_tls_records, records_outcome,
    run_tls_reader, tls_handshake_step, wait_socket_ready_until, FlushAction, HandshakeAction,
    PlaintextAction, RecordsAction, TlsReadOutcome, TlsReaderAction, TlsReaderEvent, TlsStatus,
};
use rsloop::transport_start::{
    raw_fd_for_std, spawn_read_pipe_transport, spawn_tcp_transport, spawn_tls_transport,
    spawn_unix_transport, spawn_write_pipe_transport, start_socket_reader, transport_from_socket,
    transport_from_socket_tls, workers_of, FdOutOfRange, ReaderStart, TransportKind, WriterStart,
};
use rsloop::write_buffer::{Flow, LimitsError, OwnedWriteBuffer, StreamWriteBufferState};

const ID: u64 = 50;

fn context() -> TransportSpawnContext {
    TransportSpawnContext::new(1, 2, 3, 4, true)
}

fn callbacks() -> ProtocolCallbacks {
    ProtocolCallbacks {
        connection_made: 60,
        data_received: Some(61),
        eof_received: Some(62),
        connection_lost: 63,
        pause_writing: 64,
        resume_writing: 65,
        get_buffer: None,
        buffer_updated: None,
        stream_reader_fast_path: None,
    }
}

fn socket() -> StreamTransportCore {
    spawn_tcp_transport(ID, context(), callbacks(), 7, make_stream_extra(70, None, None), Some(80))
}

fn io_error(kind: IoErrorKind) -> IoError {
    IoError { kind, text: "why".to_owned() }
}

fn py_server(tls: Option<u64>) -> PyServer {
    let listeners = vec![tcp_server_listener(3), unix_server_listener(4)];
    create_server(
        90,
        ServerCreateParams::new(context(), vec![30, 40], listeners)
            .with_cleanup_path(Some("/tmp/s".to_owned()))
            .with_tls(tls),
    )
}

#[test]
fn later_facts_win() {
    let mut extra = ExtraInfo::new();
    assert_eq!(extra.get("a"), None);
    extra.insert("a".to_owned(), 1);
    extra.insert("b".to_owned(), 2);
    extra.insert("a".to_owned(), 3);
    assert_eq!((extra.get("a"), extra.get("b")), (Some(3), Some(2)));
    let mut other = ExtraInfo::new();
    other.insert("b".to_owned(), 4);
    other.insert("c".to_owned(), 5);
    extra.merge(other);
    assert_eq!((extra.get("a"), extra.get("b"), extra.get("c")), (Some(3), Some(4), Some(5)));
    let mut entries = ExtraInfo::new();
    entries.insert("text_encoding".to_owned(), 6);
    let pipe = pipe_extra(9, Some(entries));
    assert_eq!((pipe.get("pipe"), pipe.get("file")), (Some(9), Some(9)));
    assert_eq!(pipe.get("text_encoding"), Some(6));
    let stream = make_stream_extra(1, Some(2), None);
    assert_eq!((stream.get("socket"), stream.get("sockname")), (Some(1), Some(2)));
    assert_eq!(stream.get("peername"), None);
}

#[test]
fn write_marks_hold_the_protocol_back() {
    let mut buffer = StreamWriteBufferState::default();
    assert_eq!((buffer.high_water, buffer.low_water), (65_536, 16_384));
    assert_eq!(buffer.set_limits(Some(10), None), Ok(Flow::Unchanged));
    assert_eq!((buffer.high_water, buffer.low_water), (10, 2));
    assert!(!buffer.record_enqueued(10));
    assert!(buffer.record_enqueued(1));
    assert!(!buffer.record_enqueued(5));
    assert!(!buffer.record_drained(13));
    assert!(buffer.record_drained(1));
    assert_eq!(buffer.size, 2);
    assert_eq!(buffer.set_limits(None, Some(3)), Ok(Flow::Unchanged));
    assert_eq!((buffer.high_water, buffer.low_water), (12, 3));
    assert_eq!(
        buffer.set_limits(Some(1), Some(2)),
        Err(LimitsError { high: 1, low: 2 })
    );
    assert_eq!(
        LimitsError { high: 1, low: 2 }.message(),
        "high (1) must be >= low (2) must be >= 0"
    );
    assert_eq!(buffer.set_limits(Some(1), Some(0)), Ok(Flow::Pause));
    assert_eq!(buffer.set_limits(Some(8), Some(4)), Ok(Flow::Resume));
    buffer.set_limits(Some(1), Some(0)).ok();
    assert!(buffer.clear(true));
    assert_eq!(buffer.size, 0);
}

#[test]
fn draining_undoes_taking() {
    let mut buffer = StreamWriteBufferState::default();
    let before = buffer;
    for len in [1, 1000, 70_000] {
        buffer.record_enqueued(len);
    }
    assert!(buffer.protocol_paused);
    for len in [1, 1000, 70_000] {
        buffer.record_drained(len);
    }
    assert_eq!(buffer, before);
}

#[test]
fn data_is_collected_up_to_a_bound() {
    let mut queue = ReadEventQueue::new();
    assert!(queue.push(PendingReadEvent::Data(b"ab".to_vec())));
    assert!(!queue.push(PendingReadEvent::Data(b"cd".to_vec())));
    assert!(!queue.push(PendingReadEvent::PauseWriting));
    assert!(!queue.push(PendingReadEvent::Data(vec![1; MAX_PENDING_READ_COALESCE_BYTES])));
    assert!(!queue.push(PendingReadEvent::Data(vec![2; 3])));
    assert!(!queue.push(PendingReadEvent::Eof));
    assert_eq!(queue.len(), 6);
    let mut drain = ReadDrain::new();
    assert!(matches!(
        drain.step(&mut queue, DrainEvent::Begin, false),
        DrainAction::Deliver(data) if data == b"abcd"
    ));
    assert!(matches!(
        drain.step(&mut queue, DrainEvent::Done, false),
        DrainAction::CallPauseWriting
    ));
    assert!(matches!(
        drain.step(&mut queue, DrainEvent::Done, false),
        DrainAction::Deliver(data) if data == vec![1; MAX_PENDING_READ_COALESCE_BYTES]
    ));
    assert!(matches!(
        drain.step(&mut queue, DrainEvent::Done, false),
        DrainAction::Deliver(data) if data == vec![2; 3]
    ));
    assert!(matches!(
        drain.step(&mut queue, DrainEvent::Done, false),
        DrainAction::CallEofReceived
    ));
    assert!(queue.is_scheduled());
    assert!(matches!(
        drain.step(&mut queue, DrainEvent::Eof(true), false),
        DrainAction::Finish
    ));
    assert!(!queue.is_scheduled());
}

#[test]
fn an_end_that_nobody_keeps_open_closes() {
    let mut queue = ReadEventQueue::new();
    queue.push(PendingReadEvent::Eof);
    let mut drain = ReadDrain::new();
    drain.step(&mut queue, DrainEvent::Begin, false);
    assert!(matches!(
        drain.step(&mut queue, DrainEvent::Eof(false), false),
        DrainAction::CloseAndLose
    ));
    assert!(matches!(
        drain.step(&mut queue, DrainEvent::Done, false),
        DrainAction::Finish
    ));
    queue.push(PendingReadEvent::ConnectionLost(Some("gone".to_owned())));
    let mut drain = ReadDrain::new();
    assert!(matches!(
        drain.step(&mut queue, DrainEvent::Begin, false),
        DrainAction::Lose(Some(text)) if text == "gone"
    ));
}

#[test]
fn failures_of_the_protocol_are_reported() {
    let mut queue = ReadEventQueue::new();
    queue.push(PendingReadEvent::Data(b"x".to_vec()));
    let mut drain = ReadDrain::new();
    drain.step(&mut queue, DrainEvent::Begin, false);
    assert!(matches!(
        drain.step(&mut queue, DrainEvent::Raised(5), false),
        DrainAction::ReportDataFailure(5)
    ));
    let mut queue = ReadEventQueue::new();
    queue.push(PendingReadEvent::Eof);
    let mut drain = ReadDrain::new();
    drain.step(&mut queue, DrainEvent::Begin, false);
    assert!(matches!(
        drain.step(&mut queue, DrainEvent::Raised(5), false),
        DrainAction::ReportEofFailure(5)
    ));
    let mut queue = ReadEventQueue::new();
    queue.push(PendingReadEvent::ResumeWriting);
    let mut drain = ReadDrain::new();
    assert!(matches!(
        drain.step(&mut queue, DrainEvent::Begin, false),
        DrainAction::CallResumeWriting
    ));
    assert!(matches!(
        drain.step(&mut queue, DrainEvent::Raised(5), false),
        DrainAction::Raise(5)
    ));
    assert_ne!(data_failure_message(), eof_failure_message());
    let mut queue = ReadEventQueue::new();
    queue.push(PendingReadEvent::Data(b"x".to_vec()));
    assert!(matches!(
        ReadDrain::new().step(&mut queue, DrainEvent::Begin, true),
        DrainAction::Finish
    ));
}

#[test]
fn data_takes_the_shortest_way() {
    let native = StreamReaderFastPath::Native { protocol: 3, reader: 10 };
    let plain = callbacks();
    assert_eq!(plain.data_target(), DataTarget::Callback(61));
    assert_eq!(plain.eof_target(), EofTarget::Callback(62));
    let fast = ProtocolCallbacks { stream_reader_fast_path: Some(native), ..plain };
    assert_eq!(fast.data_target(), DataTarget::FastPath(native));
    assert_eq!(fast.eof_target(), EofTarget::FastPath(native));
    let buffered = ProtocolCallbacks { get_buffer: Some(1), buffer_updated: Some(2), ..plain };
    assert_eq!(
        buffered.data_target(),
        DataTarget::Buffer { get_buffer: 1, buffer_updated: 2 }
    );
    let deaf = ProtocolCallbacks { data_received: None, eof_received: None, ..plain };
    assert_eq!((deaf.data_target(), deaf.eof_target()), (DataTarget::Nobody, EofTarget::Nobody));
}

#[test]
fn short_cuts_are_found() {
    assert_eq!(stream_reader_fast_path(true, None, false, None), FastPathChoice::Native);
    assert_eq!(
        stream_reader_fast_path(false, Some(1), false, None),
        FastPathChoice::Generic(1)
    );
    assert_eq!(
        stream_reader_fast_path(false, None, true, Some(2)),
        FastPathChoice::Generic(2)
    );
    assert_eq!(
        stream_reader_fast_path(false, None, false, Some(2)),
        FastPathChoice::Absent
    );
    let native = StreamReaderFastPath::Native { protocol: 3, reader: 10 };
    assert_eq!(native.connection_made(ClientCallback::Absent), FastMadeStep::Native(3));
    assert_eq!(native.connection_lost(None), FastLostStep::Native(3));
    assert_eq!(native.feed_eof(), None);
    let generic = StreamReaderFastPath::Generic { owner: Some(3), reader: 10, buffer: 11, limit: 4 };
    assert_eq!(generic.connection_made(ClientCallback::Present), FastMadeStep::CallProtocol);
    assert_eq!(generic.connection_made(ClientCallback::Unreadable), FastMadeStep::CallProtocol);
    assert_eq!(
        generic.connection_made(ClientCallback::Absent),
        FastMadeStep::Attach { reader: 10, protocol: Some(3) }
    );
    let bare = StreamReaderFastPath::Generic { owner: None, reader: 10, buffer: 11, limit: 4 };
    assert_eq!(bare.connection_lost(Some(5)), FastLostStep::Nobody);
}

#[test]
fn a_foreign_reader_is_fed() {
    let mut feed = GenericFeed { limit: 4, data_len: 3, buffered: 0 };
    assert_eq!(feed.step(FeedEvent::Begin), FeedAction::AskEof);
    assert_eq!(feed.step(FeedEvent::Eof(true)), FeedAction::FailAfterEof);
    assert_eq!(feed.step(FeedEvent::Eof(false)), FeedAction::Append);
    assert_eq!(feed.step(FeedEvent::Appended(9)), FeedAction::AskWaiter);
    assert_eq!(feed.step(FeedEvent::Waiter(Some(1))), FeedAction::ClearWaiter(1));
    assert_eq!(feed.step(FeedEvent::WaiterCleared(1)), FeedAction::AskCancelled(1));
    assert_eq!(
        feed.step(FeedEvent::Cancelled(1, false)),
        FeedAction::Settle(FutureCall::SetNone(1))
    );
    assert_eq!(feed.step(FeedEvent::Settled), FeedAction::AskTransport);
    assert_eq!(
        feed.step(FeedEvent::Transport { transport: Some(2), paused: false }),
        FeedAction::PauseReading(2)
    );
    assert_eq!(feed.step(FeedEvent::ReadingPaused), FeedAction::MarkPaused);
    assert_eq!(feed.step(FeedEvent::PauseNotImplemented), FeedAction::DropTransport);
    assert_eq!(feed.step(FeedEvent::Marked), FeedAction::Finish);
    feed.step(FeedEvent::Appended(8));
    assert_eq!(
        feed.step(FeedEvent::Transport { transport: Some(2), paused: false }),
        FeedAction::Finish
    );
    assert_eq!(feed.step(FeedEvent::Raised(6)), FeedAction::Raise(6));
    assert_eq!(
        GenericFeed { limit: 4, data_len: 0, buffered: 0 }.step(FeedEvent::Begin),
        FeedAction::Finish
    );
    assert_eq!(feed_after_eof_message(), "feed_data after feed_eof");
}

#[test]
fn a_foreign_protocol_hears_of_its_end() {
    let end = GenericEnd { reader: 10, protocol: Some(3), exception: Some(5) };
    assert_eq!(end.step(EndEvent::Begin), EndAction::MarkLost(3));
    assert_eq!(
        end.step(EndEvent::LostMarked),
        EndAction::MarkReader { reader: 10, exception: Some(5) }
    );
    assert_eq!(end.step(EndEvent::ReaderMarked), EndAction::AskWaiter);
    assert_eq!(
        end.step(EndEvent::Cancelled(1, false)),
        EndAction::Settle(FutureCall::SetException(1, 5))
    );
    assert_eq!(end.step(EndEvent::Waiter(None)), EndAction::AskClosed(3));
    assert_eq!(
        end.step(EndEvent::Closed { future: 8, done: false }),
        EndAction::Settle(FutureCall::SetException(8, 5))
    );
    assert_eq!(end.step(EndEvent::ClosedSettled), EndAction::AskPaused(3));
    assert_eq!(
        end.step(EndEvent::Paused(true)),
        EndAction::SettleDrainWaiters { protocol: 3, exception: Some(5) }
    );
    assert_eq!(end.step(EndEvent::Paused(false)), EndAction::Forget(3));
    assert_eq!(end.step(EndEvent::Forgotten), EndAction::Finish);
}

#[test]
fn every_kind_of_transport_starts_open() {
    let tcp = socket();
    assert_eq!(tcp.id(), ID);
    assert_eq!(tcp.runtime_socket_fd(), Some(7));
    assert!(tcp.has_direct_writer() && tcp.can_write_eof() && tcp.is_writable());
    assert!(tcp.is_reading() && !tcp.is_closing());
    assert_eq!(tcp.state().server, Some(80));
    let unix = spawn_unix_transport(ID, context(), callbacks(), 8, ExtraInfo::new(), None);
    assert_eq!(unix.runtime_socket_fd(), Some(8));
    let mut tls_extra = ExtraInfo::new();
    tls_extra.insert("sslcontext".to_owned(), 71);
    let extra = make_stream_extra(70, None, None);
    let tls = spawn_tls_transport(ID, context(), callbacks(), 9, extra, tls_extra, None);
    assert!(!tls.can_write_eof() && !tls.has_direct_writer());
    assert_eq!((tls.get_extra("socket"), tls.get_extra("sslcontext")), (Some(70), Some(71)));
    let read = spawn_read_pipe_transport(ID, context(), callbacks(), 6);
    assert!(read.is_reading() && !read.is_writable());
    assert_eq!(read.get_extra("pipe"), Some(6));
    let write = spawn_write_pipe_transport(ID, context(), callbacks(), 6, None);
    assert!(!write.is_reading() && write.is_writable() && write.close_on_write_eof());
    assert_eq!(workers_of(TransportKind::Socket), (ReaderStart::Loop, WriterStart::Lazy));
    assert_eq!(workers_of(TransportKind::Tls), (ReaderStart::Thread, WriterStart::Thread));
    assert_eq!(workers_of(TransportKind::ReadPipe), (ReaderStart::Thread, WriterStart::Sink));
    assert_eq!(workers_of(TransportKind::WritePipe), (ReaderStart::Nobody, WriterStart::Thread));
}

#[test]
fn a_short_cut_needs_no_context() {
    let native = StreamReaderFastPath::Native { protocol: 3, reader: 10 };
    let fast = ProtocolCallbacks { stream_reader_fast_path: Some(native), ..callbacks() };
    let core = spawn_tcp_transport(ID, context(), fast, 7, ExtraInfo::new(), None);
    assert!(!core.state().context_needs_run);
    assert!(socket().state().context_needs_run);
}

#[test]
fn sockets_become_transports_of_their_family() {
    let (mut loop_core, receiver) = LoopCore::new(1);
    let mut thread = ThreadReady::new();
    let made =
        transport_from_socket(ID, context(), callbacks(), libc::AF_UNIX, 7, ExtraInfo::new());
    assert_eq!(made.family, StreamFamily::Unix);
    assert_eq!(
        start_socket_reader(&made.core, &mut loop_core, &mut thread),
        Some(Ok(Sent::Channel))
    );
    assert_eq!(
        receiver.try_recv(),
        Ok(LoopCommand::Io(LoopIoCommand::StartSocketReader { fd: 7, core: ID }))
    );
    let made = transport_from_socket_tls(
        ID,
        context(),
        callbacks(),
        libc::AF_INET,
        7,
        ExtraInfo::new(),
        ExtraInfo::new(),
    );
    assert_eq!(made.family, StreamFamily::Tcp);
    let pipe = spawn_read_pipe_transport(ID, context(), callbacks(), 6);
    assert_eq!(start_socket_reader(&pipe, &mut loop_core, &mut thread), None);
    assert_eq!((stream_family(AF_UNIX), stream_family(AF_INET6)), (
        StreamFamily::Unix,
        StreamFamily::Tcp,
    ));
    assert_eq!((tcp_family(Some(true)), tcp_family(Some(false)), tcp_family(None)), (
        AF_INET6, AF_INET, AF_INET,
    ));
    assert_eq!(libc::AF_INET6, tcp_family(Some(true)));
    assert_eq!(raw_fd_for_std(-1), Ok(-1));
    assert_eq!(raw_fd_for_std(i64::MAX), Err(FdOutOfRange));
    assert_eq!(FdOutOfRange.message(), "fd out of range");
}

#[test]
fn a_loss_is_told_once() {
    let (mut loop_core, receiver) = LoopCore::new(1);
    let mut thread = ThreadReady::new();
    let mut core = socket();
    assert!(matches!(
        core.connection_lost(&mut loop_core, &mut thread, Some("gone".to_owned())),
        LossRoute::Later(Some(Ok(Sent::Channel)))
    ));
    assert_eq!(
        receiver.try_recv(),
        Ok(LoopCommand::Transport(LoopTransportCommand::StreamRead(ID)))
    );
    loop_core.mark_runtime_thread(&mut thread);
    assert!(matches!(
        core.connection_lost(&mut loop_core, &mut thread, None),
        LossRoute::Here(LossStep::Tell {
            callback: 63,
            fast_path: None,
            socket: Some(70),
            server: Some(80),
        })
    ));
    assert_eq!(core.connection_lost_here(), LossStep::Ignore);
    assert!(core.is_closing_or_lost() && core.wait_until_readable());
}

#[test]
fn events_wait_for_a_loop_that_cannot_be_told() {
    let (mut loop_core, receiver) = LoopCore::new(1);
    drop(receiver);
    let mut thread = ThreadReady::new();
    let mut core = socket();
    for _ in 0..2 {
        assert_eq!(
            core.enqueue_pending_read_event(&mut loop_core, &mut thread, PendingReadEvent::Eof),
            Some(Err(LoopCoreError::ChannelClosed))
        );
    }
    assert_eq!(core.events_mut().len(), 2);
}

#[test]
fn a_direct_write_queues_what_is_left() {
    let (mut loop_core, _receiver) = LoopCore::new(1);
    let mut thread = ThreadReady::new();
    let mut core = socket();
    assert!(core.try_write_bytes());
    assert!(matches!(
        core.direct_write_finished(&mut loop_core, &mut thread, b"abc", DirectWrite::Written(3)),
        DirectStep::Done
    ));
    match core.direct_write_finished(&mut loop_core, &mut thread, b"abc", DirectWrite::Written(1)) {
        DirectStep::Queue(rest) => assert_eq!(rest.remaining(), b"bc"),
        _ => panic!("two bytes are left"),
    }
    match core.direct_write_finished(&mut loop_core, &mut thread, b"abc", DirectWrite::NotReady) {
        DirectStep::Queue(rest) => assert_eq!(rest.remaining(), b"abc"),
        _ => panic!("everything is left"),
    }
    let step = core.queue_write(&mut loop_core, &mut thread, 70_000);
    assert!(step.start_writer);
    assert!(matches!(step.notify, Notify::Later(_)));
    assert!(core.write_backpressure_active());
    assert!(!core.try_write_bytes());
    assert_eq!(core.get_write_buffer_size(), 70_000);
    assert!(matches!(
        core.record_write_buffer_drained(&mut loop_core, &mut thread, 70_000),
        Notify::Later(None)
    ));
    assert!(matches!(
        core.direct_write_finished(
            &mut loop_core,
            &mut thread,
            b"abc",
            DirectWrite::Failed("no".to_owned()),
        ),
        DirectStep::Failed { stop_writer: true, .. }
    ));
}

#[test]
fn marks_can_be_set_on_a_transport() {
    let (mut loop_core, _receiver) = LoopCore::new(1);
    let mut thread = ThreadReady::new();
    loop_core.mark_runtime_thread(&mut thread);
    let mut core = socket();
    core.queue_write(&mut loop_core, &mut thread, 100);
    assert!(matches!(
        core.set_write_buffer_limits(&mut loop_core, &mut thread, Some(50), None),
        Ok(Notify::Now)
    ));
    assert_eq!(core.get_write_buffer_limits(), (12, 50));
    assert!(core
        .set_write_buffer_limits(&mut loop_core, &mut thread, Some(1), Some(2))
        .is_err());
    core.pause_reading();
    assert!(!core.is_reading());
    core.resume_reading();
    assert!(core.is_reading());
    assert_eq!(core.wait_readable(), Err(TransportError::NoReadiness));
    assert_eq!(core.wait_writable(), Err(TransportError::NoReadiness));
    core.set_protocol(33, callbacks());
    assert_eq!(core.get_protocol(), 33);
}

#[test]
fn writing_follows_the_state_of_the_transport() {
    let (mut loop_core, receiver) = LoopCore::new(1);
    let mut thread = ThreadReady::new();
    let mut transport = PyStreamTransport { core: socket() };
    assert_eq!(transport.repr(), "<StreamTransport closing=false>");
    assert_eq!(transport.write(WrittenObject::Bytes), WriteStep::AsIs);
    assert_eq!(transport.write(WrittenObject::Other), WriteStep::ToBytes);
    assert_eq!(transport.get_extra_info("socket", None), Some(70));
    assert_eq!(transport.get_extra_info("cipher", Some(5)), Some(5));
    assert_eq!(transport.write_eof(), Ok(WriteEofAction::ShutWrite { lose: false }));
    assert_eq!(
        transport.close(&mut loop_core, &mut thread),
        (CloseAction::ShutDown, Some(Ok(Sent::Channel)))
    );
    assert_eq!(
        receiver.try_recv(),
        Ok(LoopCommand::Io(LoopIoCommand::StopSocketReader(7)))
    );
    assert_eq!(transport.write(WrittenObject::Bytes), WriteStep::Ignore);
    assert_eq!(transport.repr(), "<StreamTransport closing=true>");
    let read = spawn_read_pipe_transport(ID, context(), callbacks(), 6);
    let mut read = PyStreamTransport { core: read };
    assert_eq!(
        read.write(WrittenObject::Bytes),
        WriteStep::Fail(TransportError::NotWritable)
    );
    assert_eq!(read.write_eof(), Err(TransportError::NoWriteEof));
    assert_eq!(read.abort(&mut loop_core, &mut thread), (AbortAction::SendAbort, None));
    let mut entries = ExtraInfo::new();
    entries.insert("text_encoding".to_owned(), 8);
    let text = spawn_write_pipe_transport(ID, context(), callbacks(), 6, Some(entries));
    let text = PyStreamTransport { core: text };
    assert_eq!(
        text.write(WrittenObject::Text),
        WriteStep::Encode { encoding: 8, errors: None }
    );
    assert_eq!(text.write(WrittenObject::Bytes), WriteStep::ToBytes);
}

#[test]
fn an_upgrade_takes_the_socket_away() {
    let (mut loop_core, _receiver) = LoopCore::new(1);
    let mut thread = ThreadReady::new();
    let mut transport = PyStreamTransport { core: socket() };
    let upgraded = transport.upgrade_stream(&mut loop_core, &mut thread, 1, 2);
    match upgraded {
        Ok(upgrade) => {
            assert_eq!(upgrade.socket, 70);
            assert_eq!(upgrade.spawn_context.protocol, 3);
            assert!(upgrade.told.is_some());
        }
        Err(error) => panic!("{}", error.message()),
    }
    assert_eq!(transport.core.connection_lost_here(), LossStep::Ignore);
    let read = spawn_read_pipe_transport(ID, context(), callbacks(), 6);
    let mut read = PyStreamTransport { core: read };
    assert_eq!(
        read.upgrade_stream(&mut loop_core, &mut thread, 1, 2),
        Err(TransportError::NoSocket)
    );
    assert_eq!(start_tls_transport(true, false), Ok(TlsSide::Client));
    assert_eq!(start_tls_transport(false, true), Ok(TlsSide::Server));
    assert_eq!(start_tls_transport(true, true), Err(TransportError::BadTlsUpgrade));
    assert_eq!(TransportError::NotWritable.message(), "transport is not writable");
    assert_eq!(TransportError::NoWriteEof.message(), "transport does not support write_eof");
    assert_eq!(TransportError::NoSocket.message(), "transport does not expose a socket");
    assert_eq!(TransportError::BadTlsUpgrade.message(), "invalid TLS upgrade configuration");
}

#[test]
fn a_closed_server_is_done_with_its_last_connection() {
    let (mut loop_core, receiver) = LoopCore::new(1);
    let mut thread = ThreadReady::new();
    let mut server = py_server(None);
    assert_eq!(server.repr(), "<Server serving=false closed=false>");
    match server.core.spawn_accept_tasks() {
        AcceptPlan::Watch(listeners) => {
            assert_eq!(listeners, vec![ServerListener::Tcp(3), ServerListener::Unix(4)]);
            let told = server.core.watch_listeners(&mut loop_core, &mut thread, &listeners);
            assert_eq!(told, vec![Ok(Sent::Channel), Ok(Sent::Channel)]);
        }
        _ => panic!("the loop accepts"),
    }
    assert!(matches!(server.core.spawn_accept_tasks(), AcceptPlan::Nothing));
    assert!(server.core.is_serving() && !server.serve_forever());
    server.core.connection_opened();
    assert!(matches!(
        server.core.schedule_accepted_transport(&mut loop_core, &mut thread, 5),
        AcceptRoute::Loop(Ok(Sent::Channel))
    ));
    match server.core.close() {
        Some(closing) => {
            assert_eq!(closing.accept_fds, vec![3, 4]);
            let told = unwatch_listeners(&mut loop_core, &mut thread, &closing.accept_fds);
            assert_eq!(told, vec![Ok(Sent::Channel), Ok(Sent::Channel)]);
        }
        None => panic!("the server was open"),
    }
    assert!(server.core.close().is_none());
    assert!(!server.core.wait_closed() && server.serve_forever());
    server.core.connection_lost();
    assert!(server.core.wait_closed());
    assert_eq!(server.repr(), "<Server serving=false closed=true>");
    let sent: Vec<LoopCommand> = receiver.try_iter().collect();
    assert_eq!(
        sent,
        vec![
            LoopCommand::Io(LoopIoCommand::StartServerAccept { fd: 3, server: 90 }),
            LoopCommand::Io(LoopIoCommand::StartServerAccept { fd: 4, server: 90 }),
            LoopCommand::Transport(LoopTransportCommand::ServerAccepted { server: 90, stream: 5 }),
            LoopCommand::Io(LoopIoCommand::StopServerAccept(3)),
            LoopCommand::Io(LoopIoCommand::StopServerAccept(4)),
        ]
    );
}

#[test]
fn a_server_with_tls_accepts_on_its_own_threads() {
    let (mut loop_core, _receiver) = LoopCore::new(1);
    let mut thread = ThreadReady::new();
    let mut server = py_server(Some(9));
    assert!(server.core.has_tls());
    assert!(matches!(server.core.spawn_accept_tasks(), AcceptPlan::Threads(_)));
    assert!(matches!(
        server.core.schedule_accepted_transport(&mut loop_core, &mut thread, 5),
        AcceptRoute::Here
    ));
    assert_eq!(server.core.server_spawn_context(6).protocol, 6);
    assert_eq!(*server.core.sockets(), vec![30, 40]);
    assert_eq!(*server.core.cleanup_path(), Some("/tmp/s".to_owned()));
    assert_eq!(server.core.loop_obj(), 2);
    assert!(!server.core.is_closed());
}

#[test]
fn shutting_a_stream_forgives_a_lost_connection() {
    assert!(shutdown_stream(Ok(())).is_ok());
    assert!(shutdown_stream(Err(io_error(IoErrorKind::NotConnected))).is_ok());
    assert!(shutdown_stream(Err(io_error(IoErrorKind::Other))).is_err());
    assert!(remove_unix_socket_if_present(Err(io_error(IoErrorKind::NotFound))).is_ok());
    assert!(remove_unix_socket_if_present(Err(io_error(IoErrorKind::Other))).is_err());
    assert!(is_ready(true, false, true, false));
    assert!(!is_ready(true, true, true, false));
    assert!(is_ready(false, false, false, false));
}

#[test]
fn a_reader_reports_its_end() {
    let s = ReaderSituation { stop: false, closing: false, pollable: true };
    assert!(matches!(run_stream_reader(ReaderEvent::Again, s), ReaderAction::Wait));
    assert!(matches!(run_stream_reader(ReaderEvent::Waited, s), ReaderAction::Poll));
    assert!(matches!(run_stream_reader(ReaderEvent::Polled(true), s), ReaderAction::Read));
    assert!(matches!(run_stream_reader(ReaderEvent::Polled(false), s), ReaderAction::Wait));
    assert!(matches!(
        run_stream_reader(ReaderEvent::Received(b"x".to_vec()), s),
        ReaderAction::Report(PendingReadEvent::Data(data)) if data == b"x"
    ));
    assert!(matches!(
        run_stream_reader(ReaderEvent::Received(vec![]), s),
        ReaderAction::ReportAndFinish(PendingReadEvent::Eof)
    ));
    assert!(matches!(
        run_stream_reader(ReaderEvent::ReadFailed(io_error(IoErrorKind::Interrupted)), s),
        ReaderAction::Wait
    ));
    assert!(matches!(
        run_stream_reader(ReaderEvent::ReadFailed(io_error(IoErrorKind::Other)), s),
        ReaderAction::ReportAndFinish(PendingReadEvent::ConnectionLost(Some(text))) if text == "why"
    ));
    let stopped = ReaderSituation { stop: true, ..s };
    assert!(matches!(run_stream_reader(ReaderEvent::Again, stopped), ReaderAction::Finish));
    let closing = ReaderSituation { closing: true, ..s };
    assert!(matches!(
        run_stream_reader(ReaderEvent::Waited, closing),
        ReaderAction::ReportAndFinish(PendingReadEvent::ConnectionLost(None))
    ));
    assert_eq!(attach_failed_message(), "failed to attach socket reader");
}

#[test]
fn accepting_goes_on_until_the_server_closes() {
    assert_eq!(run_accept_loop(AcceptEvent::Again, false, false), AcceptAction::Poll);
    assert_eq!(run_accept_loop(AcceptEvent::Again, true, false), AcceptAction::Finish);
    assert_eq!(run_accept_loop(AcceptEvent::Polled(true), false, false), AcceptAction::Accept);
    assert_eq!(run_accept_loop(AcceptEvent::Polled(false), false, false), AcceptAction::Poll);
    assert_eq!(run_accept_loop(AcceptEvent::Accepted, false, false), AcceptAction::Configure);
    assert_eq!(
        run_accept_loop(AcceptEvent::Configured(true), false, false),
        AcceptAction::Spawn
    );
    assert_ne!(
        accept_failure_message(ListenerKind::Tcp, AcceptFailure::Accept),
        accept_failure_message(ListenerKind::Unix, AcceptFailure::Accept)
    );
}

#[test]
fn a_writer_obeys_its_commands() {
    let mut writer = StreamWriter::new(WriterKind::Stream { close_on_write_eof: false });
    assert!(matches!(writer.step(WriterEvent::Again, false), WriterAction::Receive));
    let data = WriterCommand::Data(OwnedWriteBuffer::from_slice(b"abc"));
    assert!(matches!(
        writer.step(WriterEvent::Received(Some(data)), false),
        WriterAction::Write(buffer) if buffer.remaining() == b"abc"
    ));
    assert!(matches!(
        writer.step(WriterEvent::Wrote(3), false),
        WriterAction::NoteAndTryReceive(3)
    ));
    assert!(matches!(
        writer.step(WriterEvent::Received(Some(WriterCommand::Close)), false),
        WriterAction::ShutDown
    ));
    assert!(matches!(
        writer.step(WriterEvent::Shut(Ok(())), false),
        WriterAction::LoseAndFinish { release: false, reason: LossReason::Closed }
    ));
    let mut tls = StreamWriter::new(WriterKind::Tls);
    assert!(matches!(
        tls.step(WriterEvent::Received(Some(WriterCommand::Close)), false),
        WriterAction::CloseTls
    ));
    assert!(matches!(
        tls.step(WriterEvent::Shut(Err(io_error(IoErrorKind::TimedOut))), false),
        WriterAction::LoseAndFinish { reason: LossReason::TlsTimeout, .. }
    ));
    assert!(matches!(tls.step(WriterEvent::Again, true), WriterAction::Finish));
    assert_eq!(tls_timeout_message(), "SSL shutdown timed out");
}

#[test]
fn partial_writes_add_up() {
    let mut buffer = OwnedWriteBuffer::from_slice(b"abcdef");
    let mut written: Vec<u8> = Vec::new();
    let mut action = write_all_owned(&mut buffer, WriteAllEvent::Again, true);
    while let WriteAllAction::Write = action {
        let n = buffer.remaining().len().min(4);
        written.extend_from_slice(&buffer.remaining()[..n]);
        action = write_all_owned(&mut buffer, WriteAllEvent::Wrote(n), true);
    }
    assert!(matches!(action, WriteAllAction::Finish));
    assert_eq!(written, b"abcdef");
    assert!(buffer.is_empty());
    let mut buffer = OwnedWriteBuffer::from_slice(b"x");
    assert!(matches!(
        write_all_owned(&mut buffer, WriteAllEvent::Failed(io_error(IoErrorKind::WouldBlock)), true),
        WriteAllAction::Poll
    ));
    assert!(matches!(
        write_all_owned(&mut buffer, WriteAllEvent::Failed(io_error(IoErrorKind::Other)), true),
        WriteAllAction::Fail(error) if error.text == "why"
    ));
    buffer.advance(1);
    assert!(buffer.is_empty());
}

#[test]
fn a_handshake_ends_with_the_connection() {
    let status = |handshaking, wants_read, wants_write| TlsStatus {
        handshaking,
        wants_read,
        wants_write,
    };
    assert_eq!(tls_handshake_step(status(true, true, true)), HandshakeAction::Flush);
    assert_eq!(tls_handshake_step(status(true, true, false)), HandshakeAction::Read);
    assert_eq!(tls_handshake_step(status(true, false, false)), HandshakeAction::Sleep);
    assert_eq!(tls_handshake_step(status(false, true, true)), HandshakeAction::FlushAndFinish);
    assert_eq!(tls_handshake_step(status(false, true, false)), HandshakeAction::Finish);
    assert_eq!(
        complete_tls_handshake(5, 5, status(true, true, false)),
        HandshakeAction::TimedOut
    );
    assert_eq!(
        complete_tls_handshake(4, 5, status(true, true, false)),
        HandshakeAction::Read
    );
    assert_eq!(handshake_timeout().text, "TLS handshake timed out");
    assert!(continue_tls_handshake_read(0, true).is_err());
    assert!(continue_tls_handshake_read(0, false).is_ok());
    assert!(continue_tls_handshake_read(9, true).is_ok());
}

#[test]
fn tls_records_are_flushed_and_waited_for() {
    assert!(matches!(flush_tls_io(None, true), FlushAction::Write));
    assert!(matches!(flush_tls_io(None, false), FlushAction::Finish));
    assert!(matches!(
        flush_tls_io(Some(Ok(0)), true),
        FlushAction::Fail(error) if error.text == "failed to flush TLS records"
    ));
    assert!(matches!(
        flush_tls_io(Some(Err(io_error(IoErrorKind::WouldBlock))), true),
        FlushAction::WaitWritable
    ));
    assert_eq!(close_deadline(5, 10, true), 15);
    assert_eq!(close_deadline(5, 10, false), 5);
    // Six hundred years do not end at once.
    assert_eq!(close_deadline(1, u128::from(u64::MAX), true), 1 << 64);
    assert_eq!(close_deadline(1, u128::MAX, true), 1);
    assert!(matches!(wait_socket_ready_until(0, 2_500_000), Ok(2)));
    assert!(matches!(wait_socket_ready_until(0, 1), Ok(1)));
    assert!(matches!(wait_socket_ready_until(0, u128::MAX), Ok(i32::MAX)));
    assert!(matches!(
        wait_socket_ready_until(3, 3),
        Err(error) if error.text == "SSL shutdown timed out"
    ));
    assert!(close_tls_writer(Ok(()), Ok(())).is_ok());
    assert!(close_tls_writer(Err(io_error(IoErrorKind::Other)), Ok(())).is_err());
}

#[test]
fn tls_reading_tells_data_from_the_end() {
    assert!(matches!(drain_tls_plaintext(false, None), PlaintextAction::Read));
    assert!(matches!(
        drain_tls_plaintext(true, Some(Ok(vec![]))),
        PlaintextAction::Finish(true)
    ));
    assert!(matches!(
        drain_tls_plaintext(false, Some(Err(io_error(IoErrorKind::WouldBlock)))),
        PlaintextAction::Finish(false)
    ));
    assert!(matches!(
        drain_tls_plaintext(false, Some(Err(io_error(IoErrorKind::Other)))),
        PlaintextAction::Fail(text) if text == "why"
    ));
    assert!(matches!(read_tls_records(Ok(0)), RecordsAction::Process { ended: true }));
    assert!(matches!(
        read_tls_records(Err(io_error(IoErrorKind::Interrupted))),
        RecordsAction::Outcome(TlsReadOutcome::Continue)
    ));
    assert!(matches!(records_outcome(true, Ok(false)), TlsReadOutcome::Eof));
    assert!(matches!(records_outcome(true, Ok(true)), TlsReadOutcome::Continue));
    assert!(matches!(
        run_tls_reader(TlsReaderEvent::Drained(TlsReadOutcome::Eof), false, false),
        TlsReaderAction::WaitSocket
    ));
    assert!(matches!(
        run_tls_reader(TlsReaderEvent::Records(TlsReadOutcome::Eof), false, false),
        TlsReaderAction::ReportAndFinish(PendingReadEvent::Eof)
    ));
    assert!(matches!(
        run_tls_reader(TlsReaderEvent::Again, true, false),
        TlsReaderAction::Finish
    ));
}

#[test]
fn commands_come_back_once_the_runtime_thread_is_gone() {
    let (mut loop_core, receiver) = LoopCore::new(1);
    let mut thread = ThreadReady::new();
    drop(receiver);
    let told = unwatch_listeners(&mut loop_core, &mut thread, &vec![3, 4]);
    assert_eq!(told, vec![Err(LoopCoreError::ChannelClosed), Err(LoopCoreError::ChannelClosed)]);
    let mut transport = PyStreamTransport { core: socket() };
    let (_, told) = transport.close(&mut loop_core, &mut thread);
    assert!(matches!(told, Some(Err(LoopCoreError::ChannelClosed))));
}

#[test]
fn errors_know_their_exception() {
    assert_eq!(TransportError::NotWritable.exception(), ExceptionClass::RuntimeError);
    assert_eq!(TransportError::NoReadiness.exception(), ExceptionClass::OSError);
    assert_eq!(LoopCoreError::Closed.exception(), ExceptionClass::RuntimeError);
    assert_eq!(SeparatorError::NoElement.exception(), ExceptionClass::ValueError);
    assert_eq!(SeparatorTypeError.exception(), ExceptionClass::TypeError);
    assert_eq!(ReaderError::BadLimit.exception(), ExceptionClass::ValueError);
    assert_eq!(LimitsError { high: 1, low: 2 }.exception(), ExceptionClass::ValueError);
    assert_eq!(ExecutorError::ShutdownCalled.exception(), ExceptionClass::RuntimeError);
    assert_eq!(ProcessError::NotRunning.exception(), ExceptionClass::ProcessLookupError);
    assert_eq!(ProcessError::PipeLossFailed.exception(), ExceptionClass::RuntimeError);
    assert_eq!(RunError::FinishTimedOut.exception(), Some(ExceptionClass::RuntimeError));
    assert_eq!(RunError::Raised(3).exception(), None);
    assert_eq!(FdOutOfRange.exception(), ExceptionClass::RuntimeError);
}

#[test]
fn a_read_over_the_bound_is_handed_over_as_it_came() {
    let mut queue = ReadEventQueue::new();
    queue.push(PendingReadEvent::Data(vec![1; 3]));
    queue.push(PendingReadEvent::Data(vec![2; MAX_PENDING_READ_COALESCE_BYTES + 1]));
    let mut drain = ReadDrain::new();
    assert!(matches!(
        drain.step(&mut queue, DrainEvent::Begin, false),
        DrainAction::Deliver(data) if data == vec![1; 3]
    ));
    assert!(matches!(
        drain.step(&mut queue, DrainEvent::Done, false),
        DrainAction::Deliver(data) if data == vec![2; MAX_PENDING_READ_COALESCE_BYTES + 1]
    ));
    assert!(matches!(drain.step(&mut queue, DrainEvent::Done, false), DrainAction::Finish));
}
