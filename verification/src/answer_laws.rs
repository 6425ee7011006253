//! What holds of the questions that the library's values answer.

use vstd::prelude::*;
use crate::connect::{socket_option_fd, ConnectError};
use crate::extra_info::{with_fact, with_facts, ExtraInfo};
use crate::loop_commands::RawFd;
use crate::loop_core::{with_debug, with_queue, LoopCore, ThreadReady};
use crate::objects::ObjectId;
use crate::process_transport::{
    exited, process_closing, reader_thread_name, ProcessTextConfig,
    ProcessTransportParams, PyProcessPipeTransport, PyProcessTransport,
};
use crate::py_loop::{with_exception_handler, with_task_factory, PyLoop};
use crate::py_stream_transport::closing;
use crate::read_buffer::{without_first, ReadBuffer};
use crate::server::{
    server_closed, tcp_server_listener, unix_server_listener, PyServer, ServerCore,
    ServerCreateParams, ServerListener,
};
use crate::stream_protocol::{
    with_connection, with_task, without_connection, PyFastStreamProtocol, PyFastStreamWriter,
};
use crate::stream_reader::{with_unread, PyFastStreamReader};
use crate::stream_transport::{
    reading_paused, reading_resumed, with_backpressure, with_protocol, without_socket,
    ProtocolCallbacks, StreamTransportCore, TransportError, TransportSpawnContext,
};
use crate::transport_start::{raw_fd_for_std, FdOutOfRange};
use crate::write_buffer::{left_after, OwnedWriteBuffer};

verus! {

/// A transport reads after it was told to, and does not after it was told to pause, nor after its
/// socket went to another one.
pub proof fn law_transport_says_whether_it_reads(
    before: StreamTransportCore,
    after: StreamTransportCore,
    answer: bool,
)
    requires
        call_ensures(StreamTransportCore::is_reading, (&after,), answer),
    ensures
        after@ == reading_paused(before@) ==> !answer,
        after@ == reading_resumed(before@) ==> answer,
        after@ == without_socket(before@) ==> !answer,
{
}

/// A transport that was closed says so, and one whose socket went to another is closed and not
/// writable.
pub proof fn law_transport_says_whether_it_closes(
    before: StreamTransportCore,
    after: StreamTransportCore,
    is_closing: bool,
    is_writable: bool,
)
    requires
        call_ensures(StreamTransportCore::is_closing, (&after,), is_closing),
        call_ensures(StreamTransportCore::is_writable, (&after,), is_writable),
    ensures
        after@ == closing(before@) ==> is_closing,
        after@ == without_socket(before@) ==> is_closing && !is_writable,
{
}

/// The low mark comes first, then the high one, and the size is what waits.
pub proof fn law_transport_tells_its_write_buffer(
    transport: StreamTransportCore,
    limits: (usize, usize),
    size: usize,
)
    requires
        call_ensures(StreamTransportCore::get_write_buffer_limits, (&transport,), limits),
        call_ensures(StreamTransportCore::get_write_buffer_size, (&transport,), size),
    ensures
        limits.0 == transport@.state.write_buffer.low_water,
        limits.1 == transport@.state.write_buffer.high_water,
        size == transport@.state.write_buffer.size,
{
}

/// A transport answers with the protocol that it was given last, and with what was said last of its
/// queue.
pub proof fn law_transport_tells_what_it_was_given(
    before: StreamTransportCore,
    after: StreamTransportCore,
    protocol: ObjectId,
    callbacks: ProtocolCallbacks,
    active: bool,
    found: ObjectId,
    is_active: bool,
)
    requires
        call_ensures(StreamTransportCore::get_protocol, (&after,), found),
        call_ensures(StreamTransportCore::write_backpressure_active, (&after,), is_active),
    ensures
        after@ == with_protocol(before@, protocol, callbacks) ==> found == protocol,
        after@ == with_backpressure(before@, active) ==> is_active == active && found
            == before@.state.protocol,
{
}

/// No transport can be waited for as a whole, neither for reading nor for writing.
pub proof fn law_readiness_is_not_offered(
    transport: StreamTransportCore,
    read: Result<(), TransportError>,
    write: Result<(), TransportError>,
)
    requires
        call_ensures(StreamTransportCore::wait_readable, (&transport,), read),
        call_ensures(StreamTransportCore::wait_writable, (&transport,), write),
    ensures
        read matches Err(error) && error is NoReadiness,
        write matches Err(error) && error is NoReadiness,
{
}

/// A fact is found under the name that it was put under last. Other names keep theirs, and of two
/// collections that are put together the second wins.
pub proof fn law_put_facts_are_found(
    facts: ExtraInfo,
    other: ExtraInfo,
    after: ExtraInfo,
    name: &str,
    put: Seq<char>,
    value: ObjectId,
    found: Option<ObjectId>,
    earlier: Option<ObjectId>,
    others: Option<ObjectId>,
)
    requires
        call_ensures(ExtraInfo::get, (&after, name), found),
        call_ensures(ExtraInfo::get, (&facts, name), earlier),
        call_ensures(ExtraInfo::get, (&other, name), others),
    ensures
        after@ == with_fact(facts@, put, value) && name@ == put ==> found == Some(value),
        after@ == with_fact(facts@, put, value) && name@ != put ==> found == earlier,
        after@ == with_facts(facts@, other@) && others is Some ==> found == others,
        after@ == with_facts(facts@, other@) && others is None ==> found == earlier,
{
}

/// New facts are none.
pub proof fn law_new_facts_are_none(facts: ExtraInfo, name: &str, found: Option<ObjectId>)
    requires
        call_ensures(ExtraInfo::new, (), facts),
        call_ensures(ExtraInfo::get, (&facts, name), found),
    ensures
        found is None,
{
}

/// A loop is in debug mode where it was put there, has the task factory and the exception handler
/// that it was given, and answers whether it runs and whether it is closed by its state alone.
pub proof fn law_loop_tells_what_it_was_given(
    before: PyLoop,
    after: PyLoop,
    enabled: bool,
    value: Option<ObjectId>,
    debug: bool,
    factory: Option<ObjectId>,
    has_factory: bool,
    handler: Option<ObjectId>,
    running: bool,
    closed: bool,
)
    requires
        call_ensures(LoopCore::get_debug, (&after.core,), debug),
        call_ensures(LoopCore::has_task_factory, (&after.core,), has_factory),
        call_ensures(LoopCore::is_running, (&after.core,), running),
        call_ensures(LoopCore::is_closed, (&after.core,), closed),
        call_ensures(PyLoop::get_task_factory, (&after,), factory),
        call_ensures(PyLoop::get_exception_handler, (&after,), handler),
    ensures
        after.core@ == with_debug(before.core@, enabled) ==> debug == enabled && running
            == before.core@.state.running && closed == before.core@.state.closed,
        after.core@ == with_task_factory(before.core@, value) ==> factory == value && has_factory
            == value is Some && debug == before.core@.debug_enabled && handler
            == before.core@.state.exception_handler,
        after.core@ == with_exception_handler(before.core@, value) ==> handler == value && factory
            == before.core@.state.task_factory && debug == before.core@.debug_enabled,
        running == after.core@.state.running,
        closed == after.core@.state.closed,
{
}

/// A thread has a queue from when one was put there, and a new thread has none.
pub proof fn law_thread_tells_of_its_queue(
    new: ThreadReady,
    before: ThreadReady,
    after: ThreadReady,
    at_first: bool,
    has: bool,
)
    requires
        call_ensures(ThreadReady::new, (), new),
        call_ensures(ThreadReady::has_queue, (&new,), at_first),
        call_ensures(ThreadReady::has_queue, (&after,), has),
    ensures
        !at_first,
        new@.active_loop is None,
        !new@.drain_active,
        after@ == with_queue(before@) ==> has,
{
}

/// The code of a process is there once it exited, and is that one. A closed process says that it
/// closes, and which process it is stays.
pub proof fn law_process_tells_its_code(
    before: PyProcessTransport,
    after: PyProcessTransport,
    code: i32,
    pid: u32,
    found: Option<i32>,
    is_closing: bool,
)
    requires
        call_ensures(PyProcessTransport::get_pid, (&after,), pid),
        call_ensures(PyProcessTransport::get_returncode, (&after,), found),
        call_ensures(PyProcessTransport::is_closing, (&after,), is_closing),
    ensures
        after.core@ == exited(before.core@, code).0 && before.core@.returncode is None ==> found
            == Some(code),
        after.core@ == process_closing(before.core@) ==> is_closing && found
            == before.core@.returncode && pid == before.core@.pid,
        pid == after.core@.pid,
{
}

/// What a process is made from is replaced as asked, and the rest is left alone.
pub proof fn law_process_parameters_are_replaced(
    params: ProcessTransportParams,
    text_config: Option<ProcessTextConfig>,
    stdout_override: Option<ObjectId>,
    stderr_override: Option<ObjectId>,
    with_text: ProcessTransportParams,
    with_pipes: ProcessTransportParams,
)
    requires
        call_ensures(ProcessTransportParams::with_text_config, (params, text_config), with_text),
        call_ensures(
            ProcessTransportParams::with_stdio_overrides,
            (params, stdout_override, stderr_override),
            with_pipes,
        ),
    ensures
        with_text.text_config == text_config,
        with_text.child == params.child,
        with_text.protocol == params.protocol,
        with_text.stdout_override == params.stdout_override,
        with_text.stderr_override == params.stderr_override,
        with_pipes.stdout_override == stdout_override,
        with_pipes.stderr_override == stderr_override,
        with_pipes.text_config == params.text_config,
        with_pipes.child == params.child,
        with_pipes.protocol == params.protocol,
{
}

/// Of a pipe nothing is known, whatever is asked: the answer is what the caller gave for that.
pub proof fn law_nothing_is_known_of_a_pipe(
    pipe: PyProcessPipeTransport,
    name: &str,
    default: Option<ObjectId>,
    found: Option<ObjectId>,
)
    requires
        call_ensures(PyProcessPipeTransport::get_extra_info, (&pipe, name, default), found),
    ensures
        found == default,
{
}

/// The threads that read the two pipes of a process have names of their own.
pub proof fn law_reader_threads_are_told_apart(out: &'static str, err: &'static str)
    requires
        call_ensures(reader_thread_name, (1i32,), out),
        call_ensures(reader_thread_name, (2i32,), err),
    ensures
        out@ != err@,
        out@ == "rsloop-process-stdout"@,
        err@ == "rsloop-process-stderr"@,
{
    reveal_strlit("rsloop-process-stdout");
    reveal_strlit("rsloop-process-stderr");
    assert("rsloop-process-stdout"@[18] == 'o');
    assert("rsloop-process-stderr"@[18] == 'e');
}

/// A server that was closed says so, and serving forever is over then and not before. It has TLS
/// where it was made with it, and keeps its sockets.
pub proof fn law_server_tells_its_state(
    before: ServerCore,
    server: PyServer,
    closed: bool,
    serving: bool,
    over: bool,
    has_tls: bool,
    sockets: &Vec<ObjectId>,
)
    requires
        call_ensures(ServerCore::is_closed, (&server.core,), closed),
        call_ensures(ServerCore::is_serving, (&server.core,), serving),
        call_ensures(ServerCore::has_tls, (&server.core,), has_tls),
        call_ensures(ServerCore::sockets, (&server.core,), sockets),
        call_ensures(PyServer::serve_forever, (&server,), over),
    ensures
        over == closed,
        closed ==> !serving,
        server.core@ == server_closed(before@) ==> closed && over && !serving,
        has_tls == server.core@.tls is Some,
        sockets@ == server.core@.sockets,
{
}

/// What a server is made from is replaced as asked, and the rest is left alone.
pub proof fn law_server_parameters_are_replaced(
    params: ServerCreateParams,
    cleanup_path: Option<String>,
    tls: Option<ObjectId>,
    with_path: ServerCreateParams,
    with_tls: ServerCreateParams,
)
    requires
        call_ensures(ServerCreateParams::with_cleanup_path, (params, cleanup_path), with_path),
        call_ensures(ServerCreateParams::with_tls, (params, tls), with_tls),
    ensures
        with_path.cleanup_path == cleanup_path,
        with_path.tls == params.tls,
        with_path.sockets == params.sockets,
        with_path.listeners == params.listeners,
        with_path.protocol_factory == params.protocol_factory,
        with_tls.tls == tls,
        with_tls.cleanup_path == params.cleanup_path,
        with_tls.sockets == params.sockets,
        with_tls.listeners == params.listeners,
        with_tls.protocol_factory == params.protocol_factory,
{
}

/// A listener is of the kind that was asked for, and of the descriptor.
pub proof fn law_listeners_are_told_apart(fd: RawFd, tcp: ServerListener, unix: ServerListener)
    requires
        call_ensures(tcp_server_listener, (fd,), tcp),
        call_ensures(unix_server_listener, (fd,), unix),
    ensures
        tcp is Tcp && tcp->Tcp_0 == fd,
        unix is Unix && unix->Unix_0 == fd,
        tcp != unix,
{
}

/// A spawn context holds each object in its own place.
pub proof fn law_spawn_context_holds_what_was_given(
    loop_core: ObjectId,
    loop_obj: ObjectId,
    protocol: ObjectId,
    context: ObjectId,
    context_needs_run: bool,
    made: TransportSpawnContext,
)
    requires
        call_ensures(
            TransportSpawnContext::new,
            (loop_core, loop_obj, protocol, context, context_needs_run),
            made,
        ),
    ensures
        made.loop_core == loop_core,
        made.loop_obj == loop_obj,
        made.protocol == protocol,
        made.context == context,
        made.context_needs_run == context_needs_run,
{
}

/// A stream protocol has the transport from when the connection was made until it is forgotten, and
/// so it has the task of the client. The future of `wait_closed` is one and the same throughout.
pub proof fn law_protocol_tells_what_it_was_given(
    before: PyFastStreamProtocol,
    after: PyFastStreamProtocol,
    writer: PyFastStreamWriter,
    given: ObjectId,
    transport: Option<ObjectId>,
    task: Option<ObjectId>,
    closed: ObjectId,
    waited: ObjectId,
    reader: ObjectId,
)
    requires
        call_ensures(PyFastStreamProtocol::transport, (&after,), transport),
        call_ensures(PyFastStreamProtocol::task, (&after,), task),
        call_ensures(PyFastStreamProtocol::closed_future, (&after,), closed),
        call_ensures(PyFastStreamProtocol::reader_ref, (&after,), reader),
        call_ensures(PyFastStreamWriter::wait_closed, (&writer, &before), waited),
    ensures
        after@ == with_connection(before@, given) ==> transport == Some(given) && closed == waited
            && reader == before@.reader,
        after@ == with_task(before@, given) ==> task == Some(given) && transport
            == before@.transport && closed == waited,
        after@ == without_connection(before@) ==> transport is None && task is None && closed
            == waited,
{
}

/// A reader holds the bytes that were put there, and its other answers stay.
pub proof fn law_reader_tells_what_it_holds(
    before: PyFastStreamReader,
    after: PyFastStreamReader,
    data: Seq<u8>,
    unread: &[u8],
    earlier: (bool, bool),
    later: (bool, bool),
    exceptions: (Option<ObjectId>, Option<ObjectId>),
    waiters: (Option<ObjectId>, Option<ObjectId>),
)
    requires
        before.wf(),
        after.wf(),
        call_ensures(PyFastStreamReader::get_buffer, (&after,), unread),
        call_ensures(PyFastStreamReader::get_eof, (&before,), earlier.0),
        call_ensures(PyFastStreamReader::get_eof, (&after,), later.0),
        call_ensures(PyFastStreamReader::get_paused, (&before,), earlier.1),
        call_ensures(PyFastStreamReader::get_paused, (&after,), later.1),
        call_ensures(PyFastStreamReader::get_exception_obj, (&before,), exceptions.0),
        call_ensures(PyFastStreamReader::get_exception_obj, (&after,), exceptions.1),
        call_ensures(PyFastStreamReader::get_waiter, (&before,), waiters.0),
        call_ensures(PyFastStreamReader::get_waiter, (&after,), waiters.1),
    ensures
        after@ == with_unread(before@, data) ==> unread@ == data && earlier == later
            && exceptions.0 == exceptions.1 && waiters.0 == waiters.1,
        later.0 == after@.eof,
        later.1 == after@.paused,
        exceptions.1 == after@.exception,
        waiters.1 is Some <==> after@.waiter is Some,
{
}

/// Reading takes bytes off the front and nowhere else, and no more than there are; writing takes off
/// what was written.
pub proof fn law_bytes_leave_at_the_front(bytes: Seq<u8>, n: nat, i: int)
    ensures
        without_first(bytes, n).len() == if n <= bytes.len() {
            bytes.len() - n
        } else {
            0
        },
        0 <= i < without_first(bytes, n).len() ==> without_first(bytes, n)[i] == bytes[n + i],
        n <= bytes.len() ==> left_after(bytes, n).len() == bytes.len() - n,
        n <= bytes.len() && 0 <= i < left_after(bytes, n).len() ==> left_after(bytes, n)[i]
            == bytes[n + i],
{
}

/// The length of a buffer is that of what is unread, and it is empty where that is nothing.
pub proof fn law_buffers_tell_what_they_hold(
    buffer: ReadBuffer,
    len: usize,
    empty: bool,
    unread: &[u8],
    data: &[u8],
    owned: OwnedWriteBuffer,
    rest: &[u8],
    written: bool,
)
    requires
        buffer.wf(),
        owned.wf(),
        call_ensures(ReadBuffer::len, (&buffer,), len),
        call_ensures(ReadBuffer::is_empty, (&buffer,), empty),
        call_ensures(ReadBuffer::unread, (&buffer,), unread),
        call_ensures(OwnedWriteBuffer::remaining, (&owned,), rest),
        call_ensures(OwnedWriteBuffer::is_empty, (&owned,), written),
    ensures
        len == unread@.len(),
        empty <==> len == 0,
        written <==> rest@.len() == 0,
        call_ensures(OwnedWriteBuffer::from_slice, (data,), owned) ==> rest@ == data@,
{
}

/// A descriptor that the operating system can hold is itself, and any other is refused.
pub proof fn law_descriptors_fit_or_are_refused(
    fd: RawFd,
    raw: Result<i32, FdOutOfRange>,
    option_fd: Result<i32, ConnectError>,
)
    requires
        call_ensures(raw_fd_for_std, (fd,), raw),
        call_ensures(socket_option_fd, (fd,), option_fd),
    ensures
        i32::MIN <= fd <= i32::MAX <==> raw is Ok,
        raw matches Ok(raw) ==> raw == fd,
        option_fd is Ok <==> raw is Ok,
        option_fd matches Ok(raw) ==> raw == fd,
        option_fd matches Err(error) ==> error is SocketOutOfRange,
{
}

} // verus!
