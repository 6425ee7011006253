//! How transports come into being, each kind in its own way.

use vstd::prelude::*;
use crate::extra_info::{pipe_extra, ExtraInfo};
use crate::loop_commands::{LoopCommand, LoopIoCommand, RawFd};
use crate::loop_core::{is_sent, LoopCore, LoopCoreError, LoopView, Sent, ThreadReady, ThreadView};
use crate::objects::{ExceptionClass, ObjectId};
use crate::os_constants::AF_UNIX;
use crate::stream_transport::{
    fresh_transport, pipe_config, socket_config, socket_spawn_context, stream_family, tls_config,
    PipeTransportMode, ProtocolCallbacks, StreamFamily, StreamTransportCore,
    StreamTransportStateConfig, TransportSpawnContext, TransportView,
};

verus! {

/// A descriptor does not fit the operating system's type.
#[derive(Clone, Copy, PartialEq, Eq, Debug, Structural)]
pub struct FdOutOfRange;

impl FdOutOfRange {
    pub fn message(&self) -> (text: &'static str)
        ensures
            text@ == "fd out of range"@,
    {
        "fd out of range"
    }

    /// The class of the exception that it becomes.
    pub open spec fn class(self) -> ExceptionClass {
        ExceptionClass::RuntimeError
    }

    pub fn exception(&self) -> (class: ExceptionClass)
        ensures
            class == self.class(),
    {
        ExceptionClass::RuntimeError
    }
}

/// A descriptor in the operating system's type.
pub fn raw_fd_for_std(fd: RawFd) -> (raw: Result<i32, FdOutOfRange>)
    ensures
        match raw {
            Ok(raw) => raw == fd,
            Err(_) => !(i32::MIN <= fd <= i32::MAX),
        },
{
    if fd < i32::MIN as i64 || fd > i32::MAX as i64 {
        return Err(FdOutOfRange);
    }
    Ok(fd as i32)
}

/// Who reads for a transport.
#[derive(Clone, Copy, PartialEq, Eq, Debug, Structural)]
pub enum ReaderStart {
    Nobody,
    /// The loop watches the socket.
    Loop,
    /// A thread of its own.
    Thread,
}

/// Who writes for a transport.
#[derive(Clone, Copy, PartialEq, Eq, Debug, Structural)]
pub enum WriterStart {
    /// A thread that is started when something has to wait to be written.
    Lazy,
    Thread,
    /// A thread that throws away what it gets.
    Sink,
}

/// A kind of transport.
#[derive(Clone, Copy, PartialEq, Eq, Debug, Structural)]
pub enum TransportKind {
    Socket,
    Tls,
    ReadPipe,
    WritePipe,
}

/// Who works for a transport.
pub open spec fn workers_for(kind: TransportKind) -> (ReaderStart, WriterStart) {
    match kind {
        TransportKind::Socket => (ReaderStart::Loop, WriterStart::Lazy),
        TransportKind::Tls => (ReaderStart::Thread, WriterStart::Thread),
        TransportKind::ReadPipe => (ReaderStart::Thread, WriterStart::Sink),
        TransportKind::WritePipe => (ReaderStart::Nobody, WriterStart::Thread),
    }
}

/// Who works for a transport once its protocol knows of it.
pub fn workers_of(kind: TransportKind) -> (workers: (ReaderStart, WriterStart))
    ensures
        workers == workers_for(kind),
{
    match kind {
        TransportKind::Socket => (ReaderStart::Loop, WriterStart::Lazy),
        TransportKind::Tls => (ReaderStart::Thread, WriterStart::Thread),
        TransportKind::ReadPipe => (ReaderStart::Thread, WriterStart::Sink),
        TransportKind::WritePipe => (ReaderStart::Nobody, WriterStart::Thread),
    }
}

/// What the context of a socket's protocol is used for.
pub open spec fn socket_context(
    spawn_context: TransportSpawnContext,
    callbacks: ProtocolCallbacks,
) -> TransportSpawnContext {
    TransportSpawnContext {
        context_needs_run: spawn_context.context_needs_run
            && callbacks.stream_reader_fast_path is None,
        ..spawn_context
    }
}

/// A new transport of a plain socket.
pub open spec fn socket_transport(
    id: ObjectId,
    spawn_context: TransportSpawnContext,
    callbacks: ProtocolCallbacks,
    fd: RawFd,
    extra: Map<Seq<char>, ObjectId>,
    server: Option<ObjectId>,
) -> TransportView {
    fresh_transport(
        id,
        socket_context(spawn_context, callbacks),
        callbacks,
        socket_config(fd, server),
        extra,
        true,
        true,
    )
}

/// A new transport of a socket with TLS.
pub open spec fn tls_transport(
    id: ObjectId,
    spawn_context: TransportSpawnContext,
    callbacks: ProtocolCallbacks,
    fd: RawFd,
    extra: Map<Seq<char>, ObjectId>,
    server: Option<ObjectId>,
) -> TransportView {
    fresh_transport(
        id,
        socket_context(spawn_context, callbacks),
        callbacks,
        tls_config(fd, server),
        extra,
        false,
        false,
    )
}

/// A new transport of a pipe.
pub open spec fn pipe_transport(
    id: ObjectId,
    spawn_context: TransportSpawnContext,
    callbacks: ProtocolCallbacks,
    reading: bool,
    extra: Map<Seq<char>, ObjectId>,
) -> TransportView {
    fresh_transport(id, spawn_context, callbacks, pipe_config(reading), extra, false, false)
}

/// The extra info of a pipe: the pipe under two names, unless the caller says otherwise.
pub open spec fn pipe_facts(pipe: ObjectId, entries: Map<Seq<char>, ObjectId>) -> Map<
    Seq<char>,
    ObjectId,
> {
    Map::<Seq<char>, ObjectId>::empty().insert("pipe"@, pipe).insert("file"@, pipe)
        .union_prefer_right(entries)
}

/// The transport of a TCP connection.
pub fn spawn_tcp_transport(
    id: ObjectId,
    spawn_context: TransportSpawnContext,
    callbacks: ProtocolCallbacks,
    fd: RawFd,
    extra: ExtraInfo,
    server: Option<ObjectId>,
) -> (core: StreamTransportCore)
    ensures
        core@ == socket_transport(id, spawn_context, callbacks, fd, extra@, server),
        core@.state.write_buffer.wf(),
{
    StreamTransportCore::new(
        id,
        socket_spawn_context(spawn_context, &callbacks),
        callbacks,
        StreamTransportStateConfig::socket(fd, server),
        extra,
        true,
        true,
    )
}

/// The transport of a connection over a Unix socket.
pub fn spawn_unix_transport(
    id: ObjectId,
    spawn_context: TransportSpawnContext,
    callbacks: ProtocolCallbacks,
    fd: RawFd,
    extra: ExtraInfo,
    server: Option<ObjectId>,
) -> (core: StreamTransportCore)
    ensures
        core@ == socket_transport(id, spawn_context, callbacks, fd, extra@, server),
        core@.state.write_buffer.wf(),
{
    StreamTransportCore::new(
        id,
        socket_spawn_context(spawn_context, &callbacks),
        callbacks,
        StreamTransportStateConfig::socket(fd, server),
        extra,
        true,
        true,
    )
}

/// The transport of a socket whose TLS handshake is done. What TLS says of it comes before what the
/// socket says.
pub fn spawn_tls_transport(
    id: ObjectId,
    spawn_context: TransportSpawnContext,
    callbacks: ProtocolCallbacks,
    fd: RawFd,
    extra: ExtraInfo,
    tls_extra: ExtraInfo,
    server: Option<ObjectId>,
) -> (core: StreamTransportCore)
    ensures
        core@ == tls_transport(
            id,
            spawn_context,
            callbacks,
            fd,
            extra@.union_prefer_right(tls_extra@),
            server,
        ),
        core@.state.write_buffer.wf(),
{
    let mut merged = extra;
    merged.merge(tls_extra);
    StreamTransportCore::new(
        id,
        socket_spawn_context(spawn_context, &callbacks),
        callbacks,
        StreamTransportStateConfig::tls(fd, server),
        merged,
        false,
        false,
    )
}

/// The transport of the reading end of a pipe.
pub fn spawn_read_pipe_transport(
    id: ObjectId,
    spawn_context: TransportSpawnContext,
    callbacks: ProtocolCallbacks,
    pipe: ObjectId,
) -> (core: StreamTransportCore)
    ensures
        core@ == pipe_transport(
            id,
            spawn_context,
            callbacks,
            true,
            pipe_facts(pipe, Map::empty()),
        ),
        core@.state.write_buffer.wf(),
{
    let extra = pipe_extra(pipe, None);
    assert(extra@ =~= pipe_facts(pipe, Map::empty()));
    StreamTransportCore::new(
        id,
        spawn_context,
        callbacks,
        StreamTransportStateConfig::pipe(PipeTransportMode::Read),
        extra,
        false,
        false,
    )
}

/// The transport of the writing end of a pipe.
pub fn spawn_write_pipe_transport(
    id: ObjectId,
    spawn_context: TransportSpawnContext,
    callbacks: ProtocolCallbacks,
    pipe: ObjectId,
    extra_entries: Option<ExtraInfo>,
) -> (core: StreamTransportCore)
    ensures
        core@ == pipe_transport(
            id,
            spawn_context,
            callbacks,
            false,
            pipe_facts(
                pipe,
                match extra_entries {
                    Some(entries) => entries@,
                    None => Map::empty(),
                },
            ),
        ),
        core@.state.write_buffer.wf(),
{
    let ghost entries = match &extra_entries {
        Some(entries) => entries@,
        None => Map::empty(),
    };
    let extra = pipe_extra(pipe, extra_entries);
    assert(extra@ =~= pipe_facts(pipe, entries));
    StreamTransportCore::new(
        id,
        spawn_context,
        callbacks,
        StreamTransportStateConfig::pipe(PipeTransportMode::Write),
        extra,
        false,
        false,
    )
}

/// A transport that was made from a socket, with the family that its stream belongs to.
pub struct SocketTransport {
    pub family: StreamFamily,
    pub core: StreamTransportCore,
}

/// The family that a socket's stream belongs to.
pub open spec fn family_of(family: i32) -> StreamFamily {
    if family == AF_UNIX {
        StreamFamily::Unix
    } else {
        StreamFamily::Tcp
    }
}

/// The transport of a plain socket of any family.
pub fn transport_from_socket(
    id: ObjectId,
    spawn_context: TransportSpawnContext,
    callbacks: ProtocolCallbacks,
    family: i32,
    fd: RawFd,
    extra: ExtraInfo,
) -> (made: SocketTransport)
    ensures
        made.family == family_of(family),
        made.core@ == socket_transport(id, spawn_context, callbacks, fd, extra@, None),
        made.core@.state.write_buffer.wf(),
{
    match stream_family(family) {
        StreamFamily::Unix => SocketTransport {
            family: StreamFamily::Unix,
            core: spawn_unix_transport(id, spawn_context, callbacks, fd, extra, None),
        },
        StreamFamily::Tcp => SocketTransport {
            family: StreamFamily::Tcp,
            core: spawn_tcp_transport(id, spawn_context, callbacks, fd, extra, None),
        },
    }
}

/// The transport of a socket of any family whose TLS handshake is done, on the client's side.
pub fn transport_from_socket_tls(
    id: ObjectId,
    spawn_context: TransportSpawnContext,
    callbacks: ProtocolCallbacks,
    family: i32,
    fd: RawFd,
    extra: ExtraInfo,
    tls_extra: ExtraInfo,
) -> (made: SocketTransport)
    ensures
        made.family == family_of(family),
        made.core@ == tls_transport(
            id,
            spawn_context,
            callbacks,
            fd,
            extra@.union_prefer_right(tls_extra@),
            None,
        ),
        made.core@.state.write_buffer.wf(),
{
    SocketTransport {
        family: stream_family(family),
        core: spawn_tls_transport(id, spawn_context, callbacks, fd, extra, tls_extra, None),
    }
}

/// The same on the server's side.
pub fn transport_from_socket_server_tls(
    id: ObjectId,
    spawn_context: TransportSpawnContext,
    callbacks: ProtocolCallbacks,
    family: i32,
    fd: RawFd,
    extra: ExtraInfo,
    tls_extra: ExtraInfo,
) -> (made: SocketTransport)
    ensures
        made.family == family_of(family),
        made.core@ == tls_transport(
            id,
            spawn_context,
            callbacks,
            fd,
            extra@.union_prefer_right(tls_extra@),
            None,
        ),
        made.core@.state.write_buffer.wf(),
{
    transport_from_socket_tls(id, spawn_context, callbacks, family, fd, extra, tls_extra)
}

/// What having the loop read from a transport's socket comes to.
pub open spec fn is_reader_started(
    v: TransportView,
    l: LoopView,
    t: ThreadView,
    told: Option<Result<Sent, LoopCoreError>>,
    l_after: LoopView,
    t_after: ThreadView,
) -> bool {
    match v.state.io_fd {
        None => told is None && l_after == l && t_after == t,
        Some(fd) => told matches Some(result) && is_sent(
            l,
            t,
            LoopCommand::Io(LoopIoCommand::StartSocketReader { fd, core: v.id }),
            result,
            l_after,
            t_after,
        ),
    }
}

/// Has the loop read from the socket of a plain transport. A pipe has none.
pub fn start_socket_reader(
    core: &StreamTransportCore,
    loop_core: &mut LoopCore,
    thread: &mut ThreadReady,
) -> (told: Option<Result<Sent, LoopCoreError>>)
    ensures
        is_reader_started(
            core@,
            old(loop_core)@,
            old(thread)@,
            told,
            final(loop_core)@,
            final(thread)@,
        ),
{
    match core.state().io_fd {
        None => None,
        Some(fd) => Some(
            loop_core.send_command(
                thread,
                LoopCommand::Io(LoopIoCommand::StartSocketReader { fd, core: core.id() }),
            ),
        ),
    }
}

/// A new transport is open: it reads unless it is the writing end of a pipe, it has written
/// nothing, and its protocol was told of no loss.
pub proof fn law_new_transports_are_open(
    id: ObjectId,
    spawn_context: TransportSpawnContext,
    callbacks: ProtocolCallbacks,
    fd: RawFd,
    extra: Map<Seq<char>, ObjectId>,
    server: Option<ObjectId>,
    reading: bool,
)
    ensures
        is_open(socket_transport(id, spawn_context, callbacks, fd, extra, server)),
        is_open(tls_transport(id, spawn_context, callbacks, fd, extra, server)),
        is_open(pipe_transport(id, spawn_context, callbacks, reading, extra)),
        pipe_transport(id, spawn_context, callbacks, reading, extra).state.reading
            != pipe_transport(id, spawn_context, callbacks, reading, extra).state.writable,
{
}

/// Nothing has ended yet.
pub open spec fn is_open(v: TransportView) -> bool {
    &&& !v.state.closing
    &&& !v.state.lost_called
    &&& !v.state.detached
    &&& !v.state.read_paused
    &&& !v.state.write_eof_requested
    &&& v.state.write_buffer.size == 0
    &&& v.queue.events.len() == 0
}

} // verus!
