//! What holds of stream transports and of TLS connections.

use vstd::prelude::*;
use crate::extra_info::socket_facts;
use crate::loop_commands::{LoopCommand, LoopIoCommand, LoopTransportCommand, RawFd, ReadyItem};
use crate::loop_core::{LoopCoreError, LoopView, Sent, ThreadView};
use crate::objects::ObjectId;
use crate::os_constants::{AF_INET, AF_INET6, AF_UNIX};
use crate::py_stream_transport::{
    abort_action, close_action, closing, extra_or, is_stopped, is_upgrade, is_write_eof,
    stop_reading_command, write_step, Upgrade, WriteEofAction, WriteStep, WrittenObject,
};
use crate::read_events::PendingReadEvent;
use crate::stream_io::IoError;
use crate::stream_transport::{
    are_limits_set, data_target_of, drops_data, eof_target_of, flow_event, fresh_transport,
    is_direct_write, is_drain_recorded, is_loss_route, is_notified, is_readable, is_reported,
    is_write_failed, is_write_queued, lost, pipe_config, reading_paused, reading_resumed,
    registered, runtime_fd, socket_config, tcp_family_of, tls_config, tls_side,
    with_backpressure, with_protocol, with_write_eof, without_socket, writes_directly,
    DataTarget, DirectStep, DirectWrite, EofTarget, LossRoute, LossStep, Notify,
    ProtocolCallbacks, QueueStep, StreamTransportStateConfig, TlsSide, TransportError,
    TransportSpawnContext, TransportView,
};
use crate::tls_io::{
    breaks_the_handshake, end_of_wait, first_error, handshake_needs, is_flush_step, outcome_of,
    plaintext_step, records_step, tls_reader_does, whole_millis, FlushAction, PlaintextAction,
    RecordsAction, TlsReadOutcome, TlsReaderAction, TlsReaderEvent, TlsStatus,
};
use crate::transport_start::{
    family_of, is_reader_started, pipe_facts, pipe_transport, socket_context, socket_transport,
    tls_transport, workers_for, TransportKind,
};
use crate::write_buffer::{Flow, LimitsError};

verus! {

/// A protocol that is read by a short cut gets its data there, else into a buffer of its own where
/// it offers both methods for that, else through its callback. So it is with the end of the stream.
pub proof fn law_data_takes_the_shortest_way(callbacks: ProtocolCallbacks)
    ensures
        callbacks.stream_reader_fast_path matches Some(path) ==> data_target_of(callbacks)
            == DataTarget::FastPath(path) && eof_target_of(callbacks) == EofTarget::FastPath(path),
        callbacks.stream_reader_fast_path is None ==> {
            &&& callbacks.get_buffer is Some && callbacks.buffer_updated is Some
                ==> data_target_of(callbacks) == (DataTarget::Buffer {
                get_buffer: callbacks.get_buffer.unwrap(),
                buffer_updated: callbacks.buffer_updated.unwrap(),
            })
            &&& callbacks.get_buffer is None || callbacks.buffer_updated is None
                ==> data_target_of(callbacks) == match callbacks.data_received {
                Some(callback) => DataTarget::Callback(callback),
                None => DataTarget::Nobody,
            }
            &&& callbacks.eof_received matches Some(callback) ==> eof_target_of(callbacks)
                == EofTarget::Callback(callback)
            &&& callbacks.eof_received is None ==> eof_target_of(callbacks) is Nobody
        },
{
}

/// The end of a pipe is read or written, not both; closing what is written closes the transport. A
/// socket is both, and its writing side can be closed alone, but for TLS. The runtime thread reads
/// from sockets only.
pub proof fn law_kinds_of_transports_differ(fd: RawFd, server: Option<ObjectId>, reading: bool)
    ensures
        pipe_config(reading).reading == reading,
        pipe_config(reading).writable == !reading,
        pipe_config(reading).can_write_eof == !reading,
        pipe_config(reading).close_on_write_eof == !reading,
        pipe_config(reading).io_fd is None,
        !pipe_config(reading).runtime_socket_io,
        pipe_config(reading).server is None,
        socket_config(fd, server).reading && socket_config(fd, server).writable,
        socket_config(fd, server).can_write_eof,
        !socket_config(fd, server).close_on_write_eof,
        socket_config(fd, server).io_fd == Some(fd),
        socket_config(fd, server).server == server,
        socket_config(fd, server).runtime_socket_io,
        tls_config(fd, server).reading && tls_config(fd, server).writable,
        !tls_config(fd, server).can_write_eof,
        !tls_config(fd, server).close_on_write_eof,
        tls_config(fd, server).io_fd == Some(fd),
        tls_config(fd, server).server == server,
        tls_config(fd, server).runtime_socket_io,
{
}

/// A new transport belongs to its protocol and its loop, has the facts that are said of it, and
/// nothing waits in it.
pub proof fn law_new_transport_is_what_it_was_made_from(
    id: ObjectId,
    spawn_context: TransportSpawnContext,
    callbacks: ProtocolCallbacks,
    config: StreamTransportStateConfig,
    extra: Map<Seq<char>, ObjectId>,
    direct: bool,
    lazy: bool,
)
    ensures
        ({
            let v = fresh_transport(id, spawn_context, callbacks, config, extra, direct, lazy);
            &&& v.id == id
            &&& v.loop_obj == spawn_context.loop_obj
            &&& v.state.protocol == spawn_context.protocol
            &&& v.state.callbacks == callbacks
            &&& v.state.context == spawn_context.context
            &&& v.state.context_needs_run == spawn_context.context_needs_run
            &&& v.state.reading == config.reading
            &&& v.state.writable == config.writable
            &&& v.state.server == config.server
            &&& v.state.io_fd == config.io_fd
            &&& v.extra == extra
            &&& v.direct_writer == direct
            &&& v.lazy_writer == lazy
            &&& !v.state.closing && !v.state.lost_called && !v.state.detached
            &&& !v.state.read_paused && !v.state.writer_registered
            &&& v.state.write_buffer.size == 0
            &&& !v.state.write_buffer.protocol_paused
            &&& v.queue.events.len() == 0
            &&& !v.queue.scheduled
        }),
{
}

/// Plain sockets are written to directly and get a writer only when something has to wait; TLS and
/// pipes always have one. A protocol that is read by a short cut needs no context of its own.
pub proof fn law_sockets_are_written_to_directly(
    id: ObjectId,
    spawn_context: TransportSpawnContext,
    callbacks: ProtocolCallbacks,
    fd: RawFd,
    extra: Map<Seq<char>, ObjectId>,
    server: Option<ObjectId>,
    reading: bool,
)
    ensures
        writes_directly(socket_transport(id, spawn_context, callbacks, fd, extra, server)),
        socket_transport(id, spawn_context, callbacks, fd, extra, server).lazy_writer,
        !writes_directly(tls_transport(id, spawn_context, callbacks, fd, extra, server)),
        !tls_transport(id, spawn_context, callbacks, fd, extra, server).lazy_writer,
        !writes_directly(pipe_transport(id, spawn_context, callbacks, reading, extra)),
        socket_transport(id, spawn_context, callbacks, fd, extra, server).state.server == server,
        tls_transport(id, spawn_context, callbacks, fd, extra, server).state.server == server,
        socket_context(spawn_context, callbacks).context_needs_run
            <==> spawn_context.context_needs_run && callbacks.stream_reader_fast_path is None,
        socket_context(spawn_context, callbacks).protocol == spawn_context.protocol,
        socket_context(spawn_context, callbacks).context == spawn_context.context,
        socket_context(spawn_context, callbacks).loop_core == spawn_context.loop_core,
        socket_context(spawn_context, callbacks).loop_obj == spawn_context.loop_obj,
{
}

/// Whoever reads and writes for a transport suits its kind: the loop reads plain sockets, a thread
/// reads TLS and pipes; what is written to the reading end of a pipe goes nowhere, and nobody reads
/// from the writing end.
pub proof fn law_workers_suit_the_kind(kind: TransportKind)
    ensures
        workers_for(kind).0 is Loop <==> kind is Socket,
        workers_for(kind).1 is Lazy <==> kind is Socket,
        workers_for(kind).0 is Nobody <==> kind is WritePipe,
        workers_for(kind).1 is Sink <==> kind is ReadPipe,
        workers_for(kind).0 is Thread <==> kind is Tls || kind is ReadPipe,
        workers_for(kind).1 is Thread <==> kind is Tls || kind is WritePipe,
{
}

/// The loop is told to read from the transport's own socket, for this transport; a transport without
/// one needs no reader.
pub proof fn law_loop_reads_from_the_socket(
    v: TransportView,
    l: LoopView,
    t: ThreadView,
    told: Option<Result<Sent, LoopCoreError>>,
    l_after: LoopView,
    t_after: ThreadView,
)
    requires
        is_reader_started(v, l, t, told, l_after, t_after),
    ensures
        told is Some <==> v.state.io_fd is Some,
        told matches Some(Ok(_)) ==> l_after.sent == l.sent.push(
            LoopCommand::Io(
                LoopIoCommand::StartSocketReader { fd: v.state.io_fd.unwrap(), core: v.id },
            ),
        ),
        told is None ==> l_after == l,
        t_after == t,
{
}

/// A transport whose reading was paused does not read, and one whose reading goes on does; nothing
/// else of it changes. A reader waits only while reading is paused on a transport that stays open.
pub proof fn law_reading_is_paused_and_resumed(v: TransportView)
    ensures
        !reading_paused(v).state.reading && reading_paused(v).state.read_paused,
        reading_resumed(v).state.reading && !reading_resumed(v).state.read_paused,
        is_readable(reading_resumed(v)),
        is_readable(reading_paused(v)) <==> v.state.closing,
        is_readable(closing(v)),
        reading_resumed(reading_paused(v)).state.closing == v.state.closing,
        reading_resumed(reading_paused(v)).state.writable == v.state.writable,
        reading_resumed(reading_paused(v)).state.write_buffer == v.state.write_buffer,
        reading_resumed(reading_paused(v)).queue == v.queue,
        reading_paused(v).state.lost_called == v.state.lost_called,
        reading_paused(v).extra == v.extra,
{
}

/// A new protocol takes the place of the old one, and nothing else changes.
pub proof fn law_protocol_can_be_replaced(
    v: TransportView,
    protocol: ObjectId,
    callbacks: ProtocolCallbacks,
)
    ensures
        with_protocol(v, protocol, callbacks).state.protocol == protocol,
        with_protocol(v, protocol, callbacks).state.callbacks == callbacks,
        with_protocol(v, protocol, callbacks).state.closing == v.state.closing,
        with_protocol(v, protocol, callbacks).state.write_buffer == v.state.write_buffer,
        with_protocol(v, protocol, callbacks).queue == v.queue,
        with_protocol(v, protocol, callbacks).state.context == v.state.context,
        lost(with_protocol(v, protocol, callbacks)).1 matches LossStep::Tell { callback, .. }
            ==> callback == callbacks.connection_lost,
{
}

/// What is written to a transport that closes is dropped, and nothing can be written to one that is
/// not for writing. Text is encoded as the transport says, and bytes are taken as they are; anything
/// else is made bytes of.
pub proof fn law_write_goes_by_the_transport(v: TransportView, object: WrittenObject)
    ensures
        write_step(v, object) is Ignore <==> v.state.closing,
        write_step(v, object) is Fail <==> !v.state.closing && !v.state.writable,
        write_step(v, object) is Fail ==> write_step(v, object) == WriteStep::Fail(
            TransportError::NotWritable,
        ),
        write_step(v, object) is Encode <==> !v.state.closing && v.state.writable
            && v.extra.contains_key("text_encoding"@) && object is Text,
        write_step(v, object) matches WriteStep::Encode { encoding, errors } ==> encoding
            == v.extra["text_encoding"@] && errors == extra_or(v, "text_errors"@, None),
        write_step(v, object) is AsIs <==> !v.state.closing && v.state.writable
            && !v.extra.contains_key("text_encoding"@) && object is Bytes,
{
}

/// A fact is found under its name, and the default where there is none.
pub proof fn law_facts_are_found_by_name(
    v: TransportView,
    name: Seq<char>,
    default: Option<ObjectId>,
)
    ensures
        v.extra.contains_key(name) ==> extra_or(v, name, default) == Some(v.extra[name]),
        !v.extra.contains_key(name) ==> extra_or(v, name, default) == default,
{
}

/// Closing leaves to the writer what waits for it, and shuts the socket at once where nothing does.
/// Aborting shuts a plain socket whatever waits. Either way the transport closes and the runtime
/// thread stops reading from its socket.
pub proof fn law_close_waits_for_what_was_written(v: TransportView)
    ensures
        closing(v).state.closing,
        closing(v).state.write_buffer == v.state.write_buffer,
        closing(v).state.lost_called == v.state.lost_called,
        closing(v).queue == v.queue,
        close_action(v) is ShutDown <==> v.direct_writer && !v.state.writer_registered,
        v.state.writer_registered ==> close_action(v) is SendClose,
        abort_action(v) is ShutDown <==> v.direct_writer,
        writes_directly(v) <==> v.direct_writer && !v.state.writer_registered,
        runtime_fd(v) matches Some(fd) ==> stop_reading_command(v) == Some(
            LoopCommand::Io(LoopIoCommand::StopSocketReader(fd)),
        ),
        runtime_fd(v) is None <==> stop_reading_command(v) is None,
        v.state.runtime_socket_io ==> runtime_fd(v) == v.state.io_fd,
        !v.state.runtime_socket_io ==> runtime_fd(v) is None,
        drops_data(closing(v)),
        drops_data(lost(v).0),
        drops_data(v) <==> v.state.closing || v.state.lost_called,
{
}

/// The runtime thread is asked to stop reading exactly where it reads.
pub proof fn law_stopping_tells_the_runtime(
    v: TransportView,
    l: LoopView,
    t: ThreadView,
    told: Option<Result<Sent, LoopCoreError>>,
    l_after: LoopView,
    t_after: ThreadView,
)
    requires
        is_stopped(v, l, t, told, l_after, t_after),
    ensures
        told is Some <==> v.state.runtime_socket_io && v.state.io_fd is Some,
        told matches Some(Ok(_)) ==> l_after.sent == l.sent.push(
            LoopCommand::Io(LoopIoCommand::StopSocketReader(v.state.io_fd.unwrap())),
        ),
        told is None ==> l_after == l,
        t_after == t,
{
}

/// The writing side is closed where that can be done, by the writer where something waits for it.
/// It loses the connection exactly where nothing would be left of it.
pub proof fn law_write_eof_waits_for_what_was_written(
    v: TransportView,
    done: Result<WriteEofAction, TransportError>,
    v_after: TransportView,
)
    requires
        is_write_eof(v, done, v_after),
    ensures
        done is Ok <==> v.state.can_write_eof,
        done matches Err(error) ==> error == TransportError::NoWriteEof && v_after == v,
        done is Ok ==> v_after.state.write_eof_requested,
        done matches Ok(action) ==> (action is SendWriteEof <==> !v.direct_writer
            || v.state.writer_registered),
        done matches Ok(WriteEofAction::ShutWrite { lose }) ==> lose == v.state.close_on_write_eof,
        v_after.state.closing == v.state.closing,
        v_after.state.write_buffer == v.state.write_buffer,
        with_write_eof(v).state.reading == v.state.reading,
{
}

/// A transport that gives its socket to one with TLS hands over its protocol and its context, and
/// does nothing more itself: it neither reads nor writes, and its protocol is told of no loss. One
/// without a socket stays as it is.
pub proof fn law_upgraded_transport_lets_go(
    v: TransportView,
    l: LoopView,
    t: ThreadView,
    loop_id: ObjectId,
    loop_obj: ObjectId,
    upgrade: Result<Upgrade, TransportError>,
    v_after: TransportView,
    l_after: LoopView,
    t_after: ThreadView,
)
    requires
        is_upgrade(v, l, t, loop_id, loop_obj, upgrade, v_after, l_after, t_after),
    ensures
        upgrade is Ok <==> v.extra.contains_key("socket"@),
        upgrade matches Err(error) ==> error == TransportError::NoSocket && v_after == v && l_after
            == l,
        upgrade matches Ok(upgrade) ==> {
            &&& upgrade.socket == v.extra["socket"@]
            &&& upgrade.spawn_context.protocol == v.state.protocol
            &&& upgrade.spawn_context.context == v.state.context
            &&& upgrade.spawn_context.context_needs_run == v.state.context_needs_run
            &&& upgrade.spawn_context.loop_core == loop_id
            &&& upgrade.spawn_context.loop_obj == loop_obj
            &&& v_after.state.detached && v_after.state.closing
            &&& !v_after.state.reading && !v_after.state.writable
            &&& lost(v_after).1 is Ignore
            &&& v_after.state.lost_called == v.state.lost_called
        },
        without_socket(v).extra == v.extra,
{
}

/// An upgrade to TLS is for one side exactly.
pub proof fn law_tls_has_one_side(client: bool, server: bool)
    ensures
        tls_side(client, server) is Ok <==> client != server,
        client && !server ==> tls_side(client, server) == Result::<TlsSide, TransportError>::Ok(
            TlsSide::Client,
        ),
        server && !client ==> tls_side(client, server) == Result::<TlsSide, TransportError>::Ok(
            TlsSide::Server,
        ),
        tls_side(client, server) matches Err(error) ==> error == TransportError::BadTlsUpgrade,
{
}

/// Families are told apart: Unix sockets from those of the Internet, and its two versions.
pub proof fn law_families_are_told_apart(family: i32, is_ipv6: Option<bool>)
    ensures
        family_of(family) is Unix <==> family == AF_UNIX,
        tcp_family_of(is_ipv6) == AF_INET6 <==> is_ipv6 == Some(true),
        tcp_family_of(is_ipv6) == AF_INET <==> is_ipv6 != Some(true),
        family_of(tcp_family_of(is_ipv6)) is Tcp,
{
}

/// An event waits for the loop behind the others; the loop is told of this transport unless it knows
/// already, and is told again where it could not be.
pub proof fn law_event_reaches_the_loop(
    v: TransportView,
    l: LoopView,
    t: ThreadView,
    event: PendingReadEvent,
    told: Option<Result<Sent, LoopCoreError>>,
    v_after: TransportView,
    l_after: LoopView,
    t_after: ThreadView,
)
    requires
        is_reported(v, l, t, event, told, v_after, l_after, t_after),
    ensures
        v_after.queue.events == v.queue.events.push(event),
        told is None <==> v.queue.scheduled,
        v_after.queue.scheduled <==> !(told matches Some(Err(_))),
        told is None ==> l_after == l && t_after == t,
        told matches Some(Ok(Sent::Local)) ==> t_after.queue.unwrap() == t.queue.unwrap().push(
            ReadyItem::StreamTransportRead(v.id),
        ),
        told matches Some(Ok(Sent::Pending { .. })) ==> l_after.dispatch.unwrap().pending
            == l.dispatch.unwrap().pending.push(ReadyItem::StreamTransportRead(v.id)),
        told matches Some(Ok(Sent::Channel)) ==> l_after.sent == l.sent.push(
            LoopCommand::Transport(LoopTransportCommand::StreamRead(v.id)),
        ),
        v_after.state == v.state,
        v_after.extra == v.extra,
{
}

/// The protocol hears of a change in its buffer at once where this is the loop's thread, and else as
/// an event; where nothing changed it hears nothing. To hold back and to go on are not mixed up.
pub proof fn law_protocol_hears_of_its_buffer(
    v: TransportView,
    l: LoopView,
    t: ThreadView,
    flow: Flow,
    notify: Notify,
    v_after: TransportView,
    l_after: LoopView,
    t_after: ThreadView,
)
    requires
        is_notified(v, l, t, flow_event(flow), notify, v_after, l_after, t_after),
    ensures
        notify is Nothing <==> flow is Unchanged,
        notify is Now <==> !(flow is Unchanged) && t.active_loop == Some(l.id),
        notify is Now || notify is Nothing ==> v_after == v && l_after == l && t_after == t,
        notify is Later && flow is Pause ==> v_after.queue.events == v.queue.events.push(
            PendingReadEvent::PauseWriting,
        ),
        notify is Later && flow is Resume ==> v_after.queue.events == v.queue.events.push(
            PendingReadEvent::ResumeWriting,
        ),
        v_after.state == v.state,
{
}

/// What is queued counts as waiting, starts the writer where it was not started, and holds the
/// protocol back exactly where that takes the buffer above its mark. What is written counts no
/// longer, and lets the protocol go on exactly where that takes it down to the low mark.
pub proof fn law_queued_bytes_count_until_written(
    v: TransportView,
    l: LoopView,
    t: ThreadView,
    len: usize,
    step: QueueStep,
    notify: Notify,
    v_after: TransportView,
    l_after: LoopView,
    t_after: ThreadView,
)
    requires
        v.state.write_buffer.wf(),
    ensures
        is_write_queued(v, l, t, len, step, v_after, l_after, t_after) ==> {
            &&& step.start_writer == v.lazy_writer
            &&& !v_after.lazy_writer
            &&& v.state.write_buffer.size + len <= usize::MAX ==> v_after.state.write_buffer.size
                == v.state.write_buffer.size + len
            &&& step.notify is Nothing <==> v.state.write_buffer.protocol_paused
                || v_after.state.write_buffer.size <= v.state.write_buffer.high_water
            &&& v_after.state.closing == v.state.closing
        },
        is_drain_recorded(v, l, t, len, notify, v_after, l_after, t_after) ==> {
            &&& len <= v.state.write_buffer.size ==> v_after.state.write_buffer.size
                == v.state.write_buffer.size - len
            &&& notify is Nothing <==> !v.state.write_buffer.protocol_paused
                || v_after.state.write_buffer.size > v.state.write_buffer.low_water
            &&& v_after.lazy_writer == v.lazy_writer
            &&& v_after.state.closing == v.state.closing
        },
{
}

/// Marks that do not go together change nothing; others take effect, and the protocol hears of it.
pub proof fn law_limits_take_effect_or_change_nothing(
    v: TransportView,
    l: LoopView,
    t: ThreadView,
    high: Option<usize>,
    low: Option<usize>,
    done: Result<Notify, LimitsError>,
    v_after: TransportView,
    l_after: LoopView,
    t_after: ThreadView,
)
    requires
        are_limits_set(v, l, t, high, low, done, v_after, l_after, t_after),
    ensures
        done is Err <==> v.state.write_buffer.limited(high, low) is Err,
        done is Err ==> v_after == v && l_after == l && t_after == t,
        done is Ok ==> v_after.state.write_buffer == v.state.write_buffer.limited(
            high,
            low,
        )->Ok_0.0,
        done matches Ok(notify) ==> (notify is Nothing <==> v.state.write_buffer.limited(
            high,
            low,
        )->Ok_0.1 is Unchanged),
{
}

/// After a direct write exactly what was not written is queued, and from then on everything goes
/// through the writer, so that nothing overtakes it. A failure closes the transport.
pub proof fn law_direct_write_loses_no_byte(
    v: TransportView,
    l: LoopView,
    t: ThreadView,
    data: Seq<u8>,
    outcome: DirectWrite,
    step: DirectStep,
    v_after: TransportView,
    l_after: LoopView,
    t_after: ThreadView,
)
    requires
        is_direct_write(v, l, t, data, outcome, step, v_after, l_after, t_after),
        outcome matches DirectWrite::Written(n) ==> n <= data.len(),
    ensures
        outcome matches DirectWrite::Written(n) ==> (step is Done <==> n == data.len()),
        outcome matches DirectWrite::Written(n) ==> (step matches DirectStep::Queue(rest)
            ==> data.take(n as int) + rest@ == data),
        outcome is NotReady ==> (step matches DirectStep::Queue(rest) && rest@ == data),
        step is Queue ==> !writes_directly(v_after) && v_after.state.write_buffer
            == v.state.write_buffer,
        step is Done ==> v_after == v,
        outcome is Failed <==> step is Failed,
        outcome is Failed ==> v_after.state.closing,
        registered(v).state.closing == v.state.closing,
{
    if let DirectWrite::Written(n) = outcome {
        if let DirectStep::Queue(rest) = step {
            assert(data.take(n as int) + data.skip(n as int) =~= data);
        }
    }
}

/// A failed write closes an open transport, gives up what waits, stops the writer and tells the loop
/// of the loss with its reason; one that closes already is left alone.
pub proof fn law_failed_write_ends_the_connection(
    v: TransportView,
    l: LoopView,
    t: ThreadView,
    reason: Option<String>,
    failed: (bool, Option<Result<Sent, LoopCoreError>>),
    v_after: TransportView,
    l_after: LoopView,
    t_after: ThreadView,
)
    requires
        is_write_failed(v, l, t, reason, failed, v_after, l_after, t_after),
    ensures
        v_after.state.closing,
        failed.0 <==> !v.state.closing,
        v.state.closing ==> v_after == v && l_after == l && t_after == t && failed.1 is None,
        !v.state.closing ==> v_after.queue.events == v.queue.events.push(
            PendingReadEvent::ConnectionLost(reason),
        ) && v_after.state.write_buffer.size == 0 && !v_after.state.write_buffer.protocol_paused
            && !v_after.state.writer_registered,
        v_after.state.lost_called == v.state.lost_called,
{
}

/// A loss that is noticed on the loop's thread is handled there, and elsewhere it is left to the
/// loop, with its reason.
pub proof fn law_loss_is_handled_on_the_loop(
    v: TransportView,
    l: LoopView,
    t: ThreadView,
    reason: Option<String>,
    route: LossRoute,
    v_after: TransportView,
    l_after: LoopView,
    t_after: ThreadView,
)
    requires
        is_loss_route(v, l, t, reason, route, v_after, l_after, t_after),
    ensures
        route is Here <==> t.active_loop == Some(l.id),
        route matches LossRoute::Here(step) ==> v_after.state.lost_called && (step is Tell <==> !(
        v.state.lost_called || v.state.detached)) && l_after == l && t_after == t,
        route is Later ==> v_after.queue.events == v.queue.events.push(
            PendingReadEvent::ConnectionLost(reason),
        ) && v_after.state == v.state,
{
}

/// Whoever is told of a loss is the transport's own protocol and server, and the socket that is
/// closed is its own.
pub proof fn law_loss_is_told_to_the_right_ones(v: TransportView)
    ensures
        lost(v).1 is Tell <==> !v.state.lost_called && !v.state.detached,
        lost(v).1 matches LossStep::Tell { callback, fast_path, socket, server } ==> callback
            == v.state.callbacks.connection_lost && fast_path
            == v.state.callbacks.stream_reader_fast_path && server == v.state.server && (
        v.extra.contains_key("socket"@) ==> socket == Some(v.extra["socket"@])) && (
        !v.extra.contains_key("socket"@) ==> socket is None),
        lost(v).1 is Tell ==> lost(v).0.state.write_buffer.size == 0
            && !lost(v).0.state.write_buffer.protocol_paused,
        lost(v).0.queue == v.queue,
        lost(v).0.extra == v.extra,
{
}

/// What is said of a pipe and of a socket: the object itself, and the addresses that could be had.
/// What the caller adds to a pipe wins.
pub proof fn law_facts_name_the_object(
    object: ObjectId,
    sockname: Option<ObjectId>,
    peername: Option<ObjectId>,
    entries: Map<Seq<char>, ObjectId>,
    name: Seq<char>,
)
    ensures
        socket_facts(object, sockname, peername).contains_key("socket"@),
        socket_facts(object, sockname, peername)["socket"@] == object,
        socket_facts(object, sockname, peername).contains_key("sockname"@) <==> sockname is Some,
        socket_facts(object, sockname, peername).contains_key("peername"@) <==> peername is Some,
        sockname matches Some(found) ==> socket_facts(object, sockname, peername)["sockname"@]
            == found,
        peername matches Some(found) ==> socket_facts(object, sockname, peername)["peername"@]
            == found,
        entries.contains_key(name) ==> pipe_facts(object, entries).contains_key(name)
            && pipe_facts(object, entries)[name] == entries[name],
        !entries.contains_key("pipe"@) ==> pipe_facts(object, entries)["pipe"@] == object,
        !entries.contains_key("file"@) ==> pipe_facts(object, entries)["file"@] == object,
        pipe_facts(object, entries).contains_key(name) ==> entries.contains_key(name) || name
            == "pipe"@ || name == "file"@,
{
    reveal_strlit("socket");
    reveal_strlit("sockname");
    reveal_strlit("peername");
    reveal_strlit("pipe");
    reveal_strlit("file");
    assert("socket"@.len() == 6);
    assert("sockname"@.len() == 8);
    assert("sockname"@[0] != "peername"@[0]);
    assert("pipe"@[0] != "file"@[0]);
}

/// A handshake sends before it reads, reads only where the connection wants that, and is done with
/// the handshake alone.
pub proof fn law_handshake_sends_before_it_reads(status: TlsStatus)
    ensures
        status.wants_write ==> handshake_needs(status) is Flush || handshake_needs(status)
            is FlushAndFinish,
        handshake_needs(status) is Read <==> status.handshaking && !status.wants_write
            && status.wants_read,
        handshake_needs(status) is Flush <==> status.handshaking && status.wants_write,
        handshake_needs(status) is FlushAndFinish <==> !status.handshaking && status.wants_write,
        handshake_needs(status) is Finish <==> !status.handshaking && !status.wants_write,
        handshake_needs(status) is Sleep <==> status.handshaking && !status.wants_write
            && !status.wants_read,
{
}

/// The end of the stream breaks a handshake that is under way, and nothing else does.
pub proof fn law_end_breaks_the_handshake(received: usize, handshaking: bool)
    ensures
        breaks_the_handshake(received, handshaking) <==> received == 0 && handshaking,
        received > 0 ==> !breaks_the_handshake(received, handshaking),
{
}

/// Records are sent until none is left. A socket that is not ready is waited for, a call that was
/// interrupted is made again, a socket that takes nothing is an error, and so is any other.
pub proof fn law_records_are_sent_to_the_last(
    sent: Option<Result<usize, IoError>>,
    wants_write: bool,
    action: FlushAction,
)
    requires
        is_flush_step(sent, wants_write, action),
    ensures
        action is Finish ==> !wants_write,
        action is Write ==> wants_write,
        action is WaitWritable <==> (sent matches Some(Err(error)) && error.kind is WouldBlock),
        sent matches Some(Err(error)) ==> (action is Fail <==> !(error.kind is WouldBlock) && !(
        error.kind is Interrupted)),
        sent matches Some(Err(error)) ==> action is Fail ==> action == FlushAction::Fail(error),
        sent matches Some(Ok(n)) ==> (action is Fail <==> n == 0),
        sent is None ==> action is Finish || action is Write,
{
}

/// A wait ends when its time is over, and at once where that cannot be told. Until then a poll waits
/// no longer than is left, in whole milliseconds, and at least one.
pub proof fn law_waits_end_in_time(now: u128, timeout: u128, deadline: u128)
    ensures
        now + timeout <= u128::MAX ==> end_of_wait(now, timeout, true) == now + timeout,
        end_of_wait(now, timeout, false) == now,
        now + timeout > u128::MAX ==> end_of_wait(now, timeout, true) == now,
        now < deadline ==> 1 <= whole_millis(now, deadline) <= i32::MAX,
        now < deadline && whole_millis(now, deadline) > 1 ==> whole_millis(now, deadline)
            * 1_000_000 <= deadline - now,
        now < deadline && whole_millis(now, deadline) < i32::MAX ==> deadline - now < (whole_millis(
            now,
            deadline,
        ) + 1) * 1_000_000,
{
}

/// Of two errors at the end of a connection the first comes out.
pub proof fn law_first_error_comes_out(
    flushed: Result<(), IoError>,
    shut: Result<(), IoError>,
)
    ensures
        first_error(flushed, shut) is Ok <==> flushed is Ok && shut is Ok,
        flushed matches Err(error) ==> first_error(flushed, shut) == Result::<(), IoError>::Err(
            error,
        ),
        flushed is Ok ==> first_error(flushed, shut) == shut,
{
}

/// Decrypted data is reported as it is, until nothing is left; that is no end of the stream by
/// itself.
pub proof fn law_plaintext_is_reported(saw_data: bool, data: Vec<u8>, error: IoError)
    ensures
        plaintext_step(saw_data, None) is Read,
        data@.len() > 0 ==> plaintext_step(saw_data, Some(Ok(data))) == PlaintextAction::Report(
            PendingReadEvent::Data(data),
        ),
        data@.len() == 0 ==> plaintext_step(saw_data, Some(Ok(data))) == PlaintextAction::Finish(
            saw_data,
        ),
        error.kind is WouldBlock ==> plaintext_step(saw_data, Some(Err(error)))
            == PlaintextAction::Finish(saw_data),
        !(error.kind is WouldBlock) ==> plaintext_step(saw_data, Some(Err(error)))
            == PlaintextAction::Fail(error.text),
{
}

/// Records that came are processed; that none came is the end, which counts only once no data is
/// left before it. A call that has only to be made again ends nothing; any other error loses the
/// connection, with its text.
pub proof fn law_end_of_records_comes_after_the_data(n: usize, error: IoError, text: String)
    ensures
        records_step(Ok(n)) == (RecordsAction::Process { ended: n == 0 }),
        error.kind is WouldBlock || error.kind is Interrupted ==> records_step(Err(error))
            == RecordsAction::Outcome(TlsReadOutcome::Continue),
        !(error.kind is WouldBlock) && !(error.kind is Interrupted) ==> records_step(Err(error))
            == RecordsAction::Outcome(TlsReadOutcome::ConnectionLost(error.text)),
        outcome_of(true, Ok(false)) is Eof,
        outcome_of(true, Ok(true)) is Continue,
        outcome_of(false, Ok(true)) is Continue,
        outcome_of(false, Ok(false)) is Continue,
        outcome_of(true, Err(text)) == TlsReadOutcome::ConnectionLost(text),
        outcome_of(false, Err(text)) == TlsReadOutcome::ConnectionLost(text),
{
}

/// A TLS reader takes out what was decrypted before it reads again, reports the end of the stream
/// only after the records ended, and a loss with its text. A transport that closes is lost without
/// a reason, and one that was told to stop says nothing.
pub proof fn law_tls_reader_takes_out_before_it_reads(
    stop: bool,
    is_closing: bool,
    text: String,
    event: TlsReaderEvent,
)
    ensures
        tls_reader_does(TlsReaderEvent::Waited, stop, false) is DrainBuffered,
        tls_reader_does(TlsReaderEvent::Drained(TlsReadOutcome::Eof), stop, is_closing)
            is WaitSocket,
        tls_reader_does(TlsReaderEvent::SocketReady, stop, is_closing) is ReadRecords,
        tls_reader_does(event, stop, is_closing) is ReadRecords <==> event is SocketReady,
        tls_reader_does(TlsReaderEvent::Records(TlsReadOutcome::Eof), stop, is_closing)
            == TlsReaderAction::ReportAndFinish(PendingReadEvent::Eof),
        tls_reader_does(event, stop, is_closing) == TlsReaderAction::ReportAndFinish(
            PendingReadEvent::Eof,
        ) ==> event == TlsReaderEvent::Records(TlsReadOutcome::Eof),
        tls_reader_does(
            TlsReaderEvent::Records(TlsReadOutcome::ConnectionLost(text)),
            stop,
            is_closing,
        ) == TlsReaderAction::ReportAndFinish(PendingReadEvent::ConnectionLost(Some(text))),
        tls_reader_does(
            TlsReaderEvent::Drained(TlsReadOutcome::ConnectionLost(text)),
            stop,
            is_closing,
        ) == TlsReaderAction::ReportAndFinish(PendingReadEvent::ConnectionLost(Some(text))),
        tls_reader_does(TlsReaderEvent::SocketFailed(text), stop, is_closing)
            == TlsReaderAction::ReportAndFinish(PendingReadEvent::ConnectionLost(Some(text))),
        tls_reader_does(TlsReaderEvent::Waited, stop, true) == TlsReaderAction::ReportAndFinish(
            PendingReadEvent::ConnectionLost(None),
        ),
        tls_reader_does(TlsReaderEvent::Again, true, is_closing) is Finish,
        tls_reader_does(TlsReaderEvent::Again, false, true) == TlsReaderAction::ReportAndFinish(
            PendingReadEvent::ConnectionLost(None),
        ),
        tls_reader_does(TlsReaderEvent::Again, false, false) is Wait,
        tls_reader_does(TlsReaderEvent::Records(TlsReadOutcome::Continue), stop, is_closing)
            == tls_reader_does(TlsReaderEvent::Again, stop, is_closing),
        tls_reader_does(TlsReaderEvent::Drained(TlsReadOutcome::Continue), stop, is_closing)
            == tls_reader_does(TlsReaderEvent::Again, stop, is_closing),
        tls_reader_does(event, stop, is_closing) is Finish ==> stop,
{
}

/// Whether something is queued for the writer is what was said last, and saying it changes nothing
/// else.
pub proof fn law_backpressure_is_what_was_said(v: TransportView, active: bool, earlier: bool)
    ensures
        with_backpressure(v, active).state.writer_registered == active,
        with_backpressure(with_backpressure(v, earlier), active) == with_backpressure(v, active),
        with_backpressure(v, v.state.writer_registered) == v,
{
}

} // verus!
