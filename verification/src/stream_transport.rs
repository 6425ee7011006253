//! The state of a stream transport and the decisions on it.

use vstd::prelude::*;
use crate::extra_info::ExtraInfo;
use crate::loop_commands::{LoopCommand, LoopTransportCommand, RawFd};
use crate::loop_core::{is_sent, LoopCore, LoopCoreError, LoopView, Sent, ThreadReady, ThreadView};
use crate::objects::{ExceptionClass, ObjectId};
use crate::os_constants::{af_inet, af_inet6, af_unix, AF_INET, AF_INET6};
use crate::read_events::{
    fresh_queue, must_tell, untold, with_event, PendingReadEvent, QueueView, ReadEventQueue,
};
use crate::py_stream_transport::closing;
use crate::reader_fast_path::StreamReaderFastPath;
use crate::transport_start::{family_of, socket_context};
use crate::write_buffer::{
    empty_write_buffer, requested_high, Flow, LimitsError, OwnedWriteBuffer, StreamWriteBufferState,
};

verus! {

/// What a transport is made from.
#[derive(Clone, Copy, PartialEq, Eq, Debug, Structural)]
pub struct TransportSpawnContext {
    pub loop_core: ObjectId,
    pub loop_obj: ObjectId,
    pub protocol: ObjectId,
    pub context: ObjectId,
    pub context_needs_run: bool,
}

impl TransportSpawnContext {
    pub fn new(
        loop_core: ObjectId,
        loop_obj: ObjectId,
        protocol: ObjectId,
        context: ObjectId,
        context_needs_run: bool,
    ) -> (spawn_context: Self)
        ensures
            spawn_context == (TransportSpawnContext {
                loop_core,
                loop_obj,
                protocol,
                context,
                context_needs_run,
            }),
    {
        TransportSpawnContext { loop_core, loop_obj, protocol, context, context_needs_run }
    }
}

/// The methods of a protocol, looked up once.
#[derive(Clone, Copy, PartialEq, Eq, Debug, Structural)]
pub struct ProtocolCallbacks {
    pub connection_made: ObjectId,
    pub data_received: Option<ObjectId>,
    pub eof_received: Option<ObjectId>,
    pub connection_lost: ObjectId,
    pub pause_writing: ObjectId,
    pub resume_writing: ObjectId,
    pub get_buffer: Option<ObjectId>,
    pub buffer_updated: Option<ObjectId>,
    pub stream_reader_fast_path: Option<StreamReaderFastPath>,
}

/// Who gets the data.
#[derive(Clone, Copy, PartialEq, Eq, Debug, Structural)]
pub enum DataTarget {
    FastPath(StreamReaderFastPath),
    /// Ask for a buffer, fill it, say so.
    Buffer { get_buffer: ObjectId, buffer_updated: ObjectId },
    Callback(ObjectId),
    Nobody,
}

/// Who is told of the end of the stream.
#[derive(Clone, Copy, PartialEq, Eq, Debug, Structural)]
pub enum EofTarget {
    FastPath(StreamReaderFastPath),
    Callback(ObjectId),
    /// Nobody, and the transport is closed.
    Nobody,
}

/// Who gets the data.
pub open spec fn data_target_of(callbacks: ProtocolCallbacks) -> DataTarget {
    match callbacks.stream_reader_fast_path {
        Some(fast_path) => DataTarget::FastPath(fast_path),
        None => match (callbacks.get_buffer, callbacks.buffer_updated) {
            (Some(get_buffer), Some(buffer_updated)) => DataTarget::Buffer {
                get_buffer,
                buffer_updated,
            },
            _ => match callbacks.data_received {
                Some(callback) => DataTarget::Callback(callback),
                None => DataTarget::Nobody,
            },
        },
    }
}

/// Who is told of the end of the stream.
pub open spec fn eof_target_of(callbacks: ProtocolCallbacks) -> EofTarget {
    match callbacks.stream_reader_fast_path {
        Some(fast_path) => EofTarget::FastPath(fast_path),
        None => match callbacks.eof_received {
            Some(callback) => EofTarget::Callback(callback),
            None => EofTarget::Nobody,
        },
    }
}

impl ProtocolCallbacks {
    /// A short cut comes first, then a buffer of the protocol's own, then `data_received`.
    pub fn data_target(&self) -> (target: DataTarget)
        ensures
            target == data_target_of(*self),
    {
        if let Some(fast_path) = self.stream_reader_fast_path {
            return DataTarget::FastPath(fast_path);
        }
        if let (Some(get_buffer), Some(buffer_updated)) = (self.get_buffer, self.buffer_updated) {
            return DataTarget::Buffer { get_buffer, buffer_updated };
        }
        match self.data_received {
            Some(callback) => DataTarget::Callback(callback),
            None => DataTarget::Nobody,
        }
    }

    pub fn eof_target(&self) -> (target: EofTarget)
        ensures
            target == eof_target_of(*self),
    {
        if let Some(fast_path) = self.stream_reader_fast_path {
            return EofTarget::FastPath(fast_path);
        }
        match self.eof_received {
            Some(callback) => EofTarget::Callback(callback),
            None => EofTarget::Nobody,
        }
    }
}

/// What tells one kind of transport from another.
#[derive(Clone, Copy, PartialEq, Eq, Debug, Structural)]
pub struct StreamTransportStateConfig {
    pub io_fd: Option<RawFd>,
    pub runtime_socket_io: bool,
    pub reading: bool,
    pub writable: bool,
    pub can_write_eof: bool,
    pub close_on_write_eof: bool,
    pub server: Option<ObjectId>,
}

#[derive(Clone, Copy, PartialEq, Eq, Debug, Structural)]
pub enum PipeTransportMode {
    Read,
    Write,
}

/// What tells the transport of a pipe from others.
pub open spec fn pipe_config(reading: bool) -> StreamTransportStateConfig {
    StreamTransportStateConfig {
        io_fd: None,
        runtime_socket_io: false,
        reading,
        writable: !reading,
        can_write_eof: !reading,
        close_on_write_eof: !reading,
        server: None,
    }
}

/// What tells the transport of a plain socket from others.
pub open spec fn socket_config(fd: RawFd, server: Option<ObjectId>) -> StreamTransportStateConfig {
    StreamTransportStateConfig {
        io_fd: Some(fd),
        runtime_socket_io: true,
        reading: true,
        writable: true,
        can_write_eof: true,
        close_on_write_eof: false,
        server,
    }
}

/// What tells the transport of a socket with TLS from others.
pub open spec fn tls_config(fd: RawFd, server: Option<ObjectId>) -> StreamTransportStateConfig {
    StreamTransportStateConfig {
        io_fd: Some(fd),
        runtime_socket_io: true,
        reading: true,
        writable: true,
        can_write_eof: false,
        close_on_write_eof: false,
        server,
    }
}

impl StreamTransportStateConfig {
    /// A pipe is read or written. Closing the writing side of one closes the transport.
    pub fn pipe(mode: PipeTransportMode) -> (config: Self)
        ensures
            config == pipe_config(mode is Read),
    {
        let reading = match mode {
            PipeTransportMode::Read => true,
            PipeTransportMode::Write => false,
        };
        StreamTransportStateConfig {
            io_fd: None,
            runtime_socket_io: false,
            reading,
            writable: !reading,
            can_write_eof: !reading,
            close_on_write_eof: !reading,
            server: None,
        }
    }

    /// A socket is read and written, and each side can be closed on its own.
    pub fn socket(fd: RawFd, server: Option<ObjectId>) -> (config: Self)
        ensures
            config == socket_config(fd, server),
    {
        StreamTransportStateConfig {
            io_fd: Some(fd),
            runtime_socket_io: true,
            reading: true,
            writable: true,
            can_write_eof: true,
            close_on_write_eof: false,
            server,
        }
    }

    /// With TLS the sides cannot be closed on their own.
    pub fn tls(fd: RawFd, server: Option<ObjectId>) -> (config: Self)
        ensures
            config == tls_config(fd, server),
    {
        StreamTransportStateConfig {
            io_fd: Some(fd),
            runtime_socket_io: true,
            reading: true,
            writable: true,
            can_write_eof: false,
            close_on_write_eof: false,
            server,
        }
    }
}

#[derive(Clone, Copy, PartialEq, Eq, Debug, Structural)]
pub struct StreamTransportState {
    pub io_fd: Option<RawFd>,
    pub runtime_socket_io: bool,
    pub protocol: ObjectId,
    pub callbacks: ProtocolCallbacks,
    pub context: ObjectId,
    pub context_needs_run: bool,
    pub closing: bool,
    pub read_paused: bool,
    pub reading: bool,
    pub writable: bool,
    pub write_eof_requested: bool,
    pub can_write_eof: bool,
    pub close_on_write_eof: bool,
    pub lost_called: bool,
    /// Something was queued for the writer, so nothing may be written past it.
    pub writer_registered: bool,
    pub write_buffer: StreamWriteBufferState,
    pub detached: bool,
    pub server: Option<ObjectId>,
}

/// A new transport's state.
pub open spec fn fresh_transport_state(
    spawn_context: TransportSpawnContext,
    callbacks: ProtocolCallbacks,
    config: StreamTransportStateConfig,
) -> StreamTransportState {
    StreamTransportState {
        io_fd: config.io_fd,
        runtime_socket_io: config.runtime_socket_io,
        protocol: spawn_context.protocol,
        callbacks,
        context: spawn_context.context,
        context_needs_run: spawn_context.context_needs_run,
        closing: false,
        read_paused: false,
        reading: config.reading,
        writable: config.writable,
        write_eof_requested: false,
        can_write_eof: config.can_write_eof,
        close_on_write_eof: config.close_on_write_eof,
        lost_called: false,
        writer_registered: false,
        write_buffer: empty_write_buffer(),
        detached: false,
        server: config.server,
    }
}

/// A protocol that data reaches by a short cut needs no context of its own.
pub fn socket_spawn_context(spawn_context: TransportSpawnContext, callbacks: &ProtocolCallbacks) -> (adjusted:
    TransportSpawnContext)
    ensures
        adjusted == socket_context(spawn_context, *callbacks),
{
    TransportSpawnContext {
        context_needs_run: spawn_context.context_needs_run
            && callbacks.stream_reader_fast_path.is_none(),
        ..spawn_context
    }
}

/// An error of the transport's own making.
#[derive(Clone, Copy, PartialEq, Eq, Debug, Structural)]
pub enum TransportError {
    NotWritable,
    NoWriteEof,
    NoSocket,
    BadTlsUpgrade,
    NoReadiness,
}

impl TransportError {
    pub fn message(&self) -> (text: &'static str)
        ensures
            text@ == match *self {
                TransportError::NotWritable => "transport is not writable"@,
                TransportError::NoWriteEof => "transport does not support write_eof"@,
                TransportError::NoSocket => "transport does not expose a socket"@,
                TransportError::BadTlsUpgrade => "invalid TLS upgrade configuration"@,
                TransportError::NoReadiness =>
                    "transport readiness is not used in std transport mode"@,
            },
    {
        match self {
            TransportError::NotWritable => "transport is not writable",
            TransportError::NoWriteEof => "transport does not support write_eof",
            TransportError::NoSocket => "transport does not expose a socket",
            TransportError::BadTlsUpgrade => "invalid TLS upgrade configuration",
            TransportError::NoReadiness => "transport readiness is not used in std transport mode",
        }
    }

    /// The class of the exception that it becomes.
    pub open spec fn class(self) -> ExceptionClass {
        match self {
            TransportError::NoReadiness => ExceptionClass::OSError,
            _ => ExceptionClass::RuntimeError,
        }
    }

    pub fn exception(&self) -> (class: ExceptionClass)
        ensures
            class == self.class(),
    {
        match self {
            TransportError::NoReadiness => ExceptionClass::OSError,
            _ => ExceptionClass::RuntimeError,
        }
    }
}

/// The model of the transport.
#[verifier::ext_equal]
pub struct TransportView {
    pub id: ObjectId,
    pub loop_obj: ObjectId,
    pub state: StreamTransportState,
    pub extra: Map<Seq<char>, ObjectId>,
    pub queue: QueueView,
    /// The socket can be written to directly.
    pub direct_writer: bool,
    /// The writer thread was not started yet.
    pub lazy_writer: bool,
}

/// A new transport.
pub open spec fn fresh_transport(
    id: ObjectId,
    spawn_context: TransportSpawnContext,
    callbacks: ProtocolCallbacks,
    config: StreamTransportStateConfig,
    extra: Map<Seq<char>, ObjectId>,
    direct_writer: bool,
    lazy_writer: bool,
) -> TransportView {
    TransportView {
        id,
        loop_obj: spawn_context.loop_obj,
        state: fresh_transport_state(spawn_context, callbacks, config),
        extra,
        queue: fresh_queue(),
        direct_writer,
        lazy_writer,
    }
}

/// The transport with another protocol.
pub open spec fn with_protocol(
    v: TransportView,
    protocol: ObjectId,
    callbacks: ProtocolCallbacks,
) -> TransportView {
    TransportView { state: StreamTransportState { protocol, callbacks, ..v.state }, ..v }
}

/// The transport whose socket went to another one.
pub open spec fn without_socket(v: TransportView) -> TransportView {
    TransportView {
        state: StreamTransportState {
            detached: true,
            closing: true,
            reading: false,
            writable: false,
            ..v.state
        },
        ..v
    }
}

/// The transport that does not read for now.
pub open spec fn reading_paused(v: TransportView) -> TransportView {
    TransportView {
        state: StreamTransportState { read_paused: true, reading: false, ..v.state },
        ..v
    }
}

/// The transport that reads again.
pub open spec fn reading_resumed(v: TransportView) -> TransportView {
    TransportView {
        state: StreamTransportState { read_paused: false, reading: true, ..v.state },
        ..v
    }
}

/// The transport whose writing side is to be closed.
pub open spec fn with_write_eof(v: TransportView) -> TransportView {
    TransportView { state: StreamTransportState { write_eof_requested: true, ..v.state }, ..v }
}

/// The transport with something queued for the writer, or with nothing.
pub open spec fn with_backpressure(v: TransportView, active: bool) -> TransportView {
    TransportView { state: StreamTransportState { writer_registered: active, ..v.state }, ..v }
}

/// The descriptor that the runtime thread reads from.
pub open spec fn runtime_fd(v: TransportView) -> Option<RawFd> {
    if v.state.runtime_socket_io {
        v.state.io_fd
    } else {
        None
    }
}

/// A reader has nothing to wait for.
pub open spec fn is_readable(v: TransportView) -> bool {
    !v.state.read_paused || v.state.closing
}

/// Nothing more is handed to the protocol.
pub open spec fn drops_data(v: TransportView) -> bool {
    v.state.closing || v.state.lost_called
}

/// Nothing waits for the writer, and the socket can be written to without it.
pub open spec fn writes_directly(v: TransportView) -> bool {
    v.direct_writer && !v.state.writer_registered
}

/// The transport with another write buffer.
pub open spec fn with_write_buffer(v: TransportView, write_buffer: StreamWriteBufferState) -> TransportView {
    TransportView { state: StreamTransportState { write_buffer, ..v.state }, ..v }
}

/// What reporting an event comes to. The loop is told unless it knows already; where it cannot be
/// told, the next event tells it.
pub open spec fn is_reported(
    v: TransportView,
    l: LoopView,
    t: ThreadView,
    event: PendingReadEvent,
    told: Option<Result<Sent, LoopCoreError>>,
    v_after: TransportView,
    l_after: LoopView,
    t_after: ThreadView,
) -> bool {
    let queue = with_event(v.queue, event);
    match told {
        None => !must_tell(v.queue) && v_after == (TransportView { queue, ..v }) && l_after == l
            && t_after == t,
        Some(result) => must_tell(v.queue) && v_after == (TransportView {
            queue: if result is Ok {
                queue
            } else {
                untold(queue)
            },
            ..v
        }) && is_sent(
            l,
            t,
            LoopCommand::Transport(LoopTransportCommand::StreamRead(v.id)),
            result,
            l_after,
            t_after,
        ),
    }
}

/// What the protocol is told about writing, and how.
pub enum Notify {
    Nothing,
    /// Call the protocol now.
    Now,
    /// The loop will.
    Later(Option<Result<Sent, LoopCoreError>>),
}

/// What telling the protocol about writing comes to: it is called where this is the thread of the
/// loop, and an event is reported where it is not.
pub open spec fn is_notified(
    v: TransportView,
    l: LoopView,
    t: ThreadView,
    event: Option<PendingReadEvent>,
    notify: Notify,
    v_after: TransportView,
    l_after: LoopView,
    t_after: ThreadView,
) -> bool {
    match event {
        None => notify is Nothing && v_after == v && l_after == l && t_after == t,
        Some(event) => if t.active_loop == Some(l.id) {
            notify is Now && v_after == v && l_after == l && t_after == t
        } else {
            notify is Later && is_reported(
                v,
                l,
                t,
                event,
                notify->Later_0,
                v_after,
                l_after,
                t_after,
            )
        },
    }
}

/// The event that tells of a change.
pub open spec fn flow_event(flow: Flow) -> Option<PendingReadEvent> {
    match flow {
        Flow::Unchanged => None,
        Flow::Pause => Some(PendingReadEvent::PauseWriting),
        Flow::Resume => Some(PendingReadEvent::ResumeWriting),
    }
}

/// How the loss of the connection is handled.
#[derive(Clone, Copy, PartialEq, Eq, Debug, Structural)]
pub enum LossStep {
    /// The protocol was told before, or must not be told.
    Ignore,
    /// Tell the protocol. Where that succeeds, close the socket, then tell the server.
    Tell {
        callback: ObjectId,
        fast_path: Option<StreamReaderFastPath>,
        socket: Option<ObjectId>,
        server: Option<ObjectId>,
    },
}

/// The transport after its connection was lost.
pub open spec fn lost(v: TransportView) -> (TransportView, LossStep) {
    let s = v.state;
    if s.detached {
        (
            TransportView { state: StreamTransportState { lost_called: true, ..s }, ..v },
            LossStep::Ignore,
        )
    } else if s.lost_called {
        (v, LossStep::Ignore)
    } else {
        (
            TransportView {
                state: StreamTransportState {
                    lost_called: true,
                    closing: true,
                    write_buffer: s.write_buffer.cleared(),
                    ..s
                },
                ..v
            },
            LossStep::Tell {
                callback: s.callbacks.connection_lost,
                fast_path: s.callbacks.stream_reader_fast_path,
                socket: if v.extra.contains_key("socket"@) {
                    Some(v.extra["socket"@])
                } else {
                    None
                },
                server: s.server,
            },
        )
    }
}

/// How the loss is handled, by the thread on which it was noticed.
pub enum LossRoute {
    /// On the thread of the loop.
    Here(LossStep),
    /// On another one: the loop will handle it.
    Later(Option<Result<Sent, LoopCoreError>>),
}

/// What came of writing to the socket directly.
pub enum DirectWrite {
    Written(usize),
    /// The socket is not ready, or the call was interrupted.
    NotReady,
    Failed(String),
}

/// How a direct write goes on.
pub enum DirectStep {
    Done,
    /// Queue the rest with `queue_write`.
    Queue(OwnedWriteBuffer),
    /// The connection failed. Stop the writer where the transport was open.
    Failed { stop_writer: bool, told: Option<Result<Sent, LoopCoreError>> },
}

/// How a queued write goes on: start the writer thread where it was not, tell the protocol, then
/// send the data to the writer.
pub struct QueueStep {
    pub start_writer: bool,
    pub notify: Notify,
}

pub struct StreamTransportCore {
    id: ObjectId,
    loop_obj: ObjectId,
    state: StreamTransportState,
    extra: ExtraInfo,
    events: ReadEventQueue,
    direct_writer: bool,
    lazy_writer: bool,
}

impl View for StreamTransportCore {
    type V = TransportView;

    closed spec fn view(&self) -> TransportView {
        TransportView {
            id: self.id,
            loop_obj: self.loop_obj,
            state: self.state,
            extra: self.extra@,
            queue: self.events@,
            direct_writer: self.direct_writer,
            lazy_writer: self.lazy_writer,
        }
    }
}

impl StreamTransportCore {
    pub fn new(
        id: ObjectId,
        spawn_context: TransportSpawnContext,
        callbacks: ProtocolCallbacks,
        config: StreamTransportStateConfig,
        extra: ExtraInfo,
        direct_writer: bool,
        lazy_writer: bool,
    ) -> (core: Self)
        ensures
            core@ == fresh_transport(
                id,
                spawn_context,
                callbacks,
                config,
                extra@,
                direct_writer,
                lazy_writer,
            ),
            core@.state.write_buffer.wf(),
    {
        StreamTransportCore {
            id,
            loop_obj: spawn_context.loop_obj,
            state: StreamTransportState {
                io_fd: config.io_fd,
                runtime_socket_io: config.runtime_socket_io,
                protocol: spawn_context.protocol,
                callbacks,
                context: spawn_context.context,
                context_needs_run: spawn_context.context_needs_run,
                closing: false,
                read_paused: false,
                reading: config.reading,
                writable: config.writable,
                write_eof_requested: false,
                can_write_eof: config.can_write_eof,
                close_on_write_eof: config.close_on_write_eof,
                lost_called: false,
                writer_registered: false,
                write_buffer: StreamWriteBufferState::default(),
                detached: false,
                server: config.server,
            },
            extra,
            events: ReadEventQueue::new(),
            direct_writer,
            lazy_writer,
        }
    }

    pub fn id(&self) -> (id: ObjectId)
        ensures
            id == self@.id,
    {
        self.id
    }

    pub fn state(&self) -> (state: &StreamTransportState)
        ensures
            *state == self@.state,
    {
        &self.state
    }

    pub fn events_mut(&mut self) -> (events: &mut ReadEventQueue)
        ensures
            events@ == old(self)@.queue,
            final(self)@ == (TransportView { queue: final(events)@, ..old(self)@ }),
    {
        &mut self.events
    }

    pub fn get_extra(&self, name: &str) -> (found: Option<ObjectId>)
        ensures
            found == if self@.extra.contains_key(name@) {
                Some(self@.extra[name@])
            } else {
                None
            },
    {
        self.extra.get(name)
    }

    /// A new protocol, with its methods.
    pub fn set_protocol(&mut self, protocol: ObjectId, callbacks: ProtocolCallbacks)
        ensures
            final(self)@ == with_protocol(old(self)@, protocol, callbacks),
    {
        self.state.protocol = protocol;
        self.state.callbacks = callbacks;
    }

    pub fn get_protocol(&self) -> (protocol: ObjectId)
        ensures
            protocol == self@.state.protocol,
    {
        self.state.protocol
    }

    pub fn set_closing(&mut self)
        ensures
            final(self)@ == closing(old(self)@),
    {
        self.state.closing = true;
    }

    /// The descriptor that the runtime thread reads from.
    pub fn runtime_socket_fd(&self) -> (fd: Option<RawFd>)
        ensures
            fd == runtime_fd(self@),
    {
        if self.state.runtime_socket_io {
            self.state.io_fd
        } else {
            None
        }
    }

    /// The socket goes to another transport. From here on this one tells its protocol nothing.
    pub fn detach_underlying_stream(&mut self)
        ensures
            final(self)@ == without_socket(old(self)@),
    {
        self.state.detached = true;
        self.state.closing = true;
        self.state.reading = false;
        self.state.writable = false;
    }

    pub fn is_closing_or_lost(&self) -> (is: bool)
        ensures
            is == drops_data(self@),
    {
        self.state.closing || self.state.lost_called
    }

    pub fn is_closing(&self) -> (closing: bool)
        ensures
            closing == self@.state.closing,
    {
        self.state.closing
    }

    pub fn can_write_eof(&self) -> (can: bool)
        ensures
            can == self@.state.can_write_eof,
    {
        self.state.can_write_eof
    }

    pub fn pause_reading(&mut self)
        ensures
            final(self)@ == reading_paused(old(self)@),
    {
        self.state.read_paused = true;
        self.state.reading = false;
    }

    pub fn resume_reading(&mut self)
        ensures
            final(self)@ == reading_resumed(old(self)@),
    {
        self.state.read_paused = false;
        self.state.reading = true;
    }

    pub fn is_reading(&self) -> (reading: bool)
        ensures
            reading == self@.state.reading,
    {
        self.state.reading
    }

    /// A reader need not wait any longer: reading is not paused, or there is nothing to wait for.
    pub fn wait_until_readable(&self) -> (over: bool)
        ensures
            over == is_readable(self@),
    {
        !self.state.read_paused || self.state.closing
    }

    pub fn is_writable(&self) -> (writable: bool)
        ensures
            writable == self@.state.writable,
    {
        self.state.writable
    }

    pub fn get_write_buffer_size(&self) -> (size: usize)
        ensures
            size == self@.state.write_buffer.size,
    {
        self.state.write_buffer.size
    }

    /// The low mark and the high one.
    pub fn get_write_buffer_limits(&self) -> (limits: (usize, usize))
        ensures
            limits == (
                self@.state.write_buffer.low_water,
                self@.state.write_buffer.high_water,
            ),
    {
        (self.state.write_buffer.low_water, self.state.write_buffer.high_water)
    }

    /// Readiness of the transport as a whole is not offered.
    pub fn wait_readable(&self) -> (ready: Result<(), TransportError>)
        ensures
            ready == Result::<(), TransportError>::Err(TransportError::NoReadiness),
    {
        Err(TransportError::NoReadiness)
    }

    /// Readiness of the transport as a whole is not offered.
    pub fn wait_writable(&self) -> (ready: Result<(), TransportError>)
        ensures
            ready == Result::<(), TransportError>::Err(TransportError::NoReadiness),
    {
        Err(TransportError::NoReadiness)
    }

    /// Reports an event to the loop.
    pub fn enqueue_pending_read_event(
        &mut self,
        loop_core: &mut LoopCore,
        thread: &mut ThreadReady,
        event: PendingReadEvent,
    ) -> (told: Option<Result<Sent, LoopCoreError>>)
        ensures
            is_reported(
                old(self)@,
                old(loop_core)@,
                old(thread)@,
                event,
                told,
                final(self)@,
                final(loop_core)@,
                final(thread)@,
            ),
    {
        if !self.events.push(event) {
            return None;
        }
        let command = LoopCommand::Transport(LoopTransportCommand::StreamRead(self.id));
        let result = loop_core.send_command(thread, command);
        if result.is_err() {
            self.events.schedule_failed();
        }
        Some(result)
    }

    /// Handles the loss of the connection where the protocol has to be told here.
    pub fn connection_lost_here(&mut self) -> (step: LossStep)
        ensures
            (final(self)@, step) == lost(old(self)@),
    {
        if self.state.detached {
            self.state.lost_called = true;
            return LossStep::Ignore;
        }
        if self.state.lost_called {
            return LossStep::Ignore;
        }
        self.state.lost_called = true;
        self.state.closing = true;
        self.state.write_buffer.size = 0;
        self.state.write_buffer.protocol_paused = false;
        LossStep::Tell {
            callback: self.state.callbacks.connection_lost,
            fast_path: self.state.callbacks.stream_reader_fast_path,
            socket: self.extra.get("socket"),
            server: self.state.server,
        }
    }

    /// Handles the loss of the connection, on whatever thread it was noticed.
    pub fn connection_lost(
        &mut self,
        loop_core: &mut LoopCore,
        thread: &mut ThreadReady,
        reason: Option<String>,
    ) -> (route: LossRoute)
        ensures
            is_loss_route(
                old(self)@,
                old(loop_core)@,
                old(thread)@,
                reason,
                route,
                final(self)@,
                final(loop_core)@,
                final(thread)@,
            ),
    {
        if !loop_core.on_runtime_thread(thread) {
            return LossRoute::Later(
                self.enqueue_pending_read_event(
                    loop_core,
                    thread,
                    PendingReadEvent::ConnectionLost(reason),
                ),
            );
        }
        LossRoute::Here(self.connection_lost_here())
    }

    /// Tells the protocol about a change of the write buffer.
    fn notify(&mut self, loop_core: &mut LoopCore, thread: &mut ThreadReady, flow: Flow) -> (notify:
        Notify)
        ensures
            is_notified(
                old(self)@,
                old(loop_core)@,
                old(thread)@,
                flow_event(flow),
                notify,
                final(self)@,
                final(loop_core)@,
                final(thread)@,
            ),
    {
        let event = match flow {
            Flow::Unchanged => {
                return Notify::Nothing;
            },
            Flow::Pause => PendingReadEvent::PauseWriting,
            Flow::Resume => PendingReadEvent::ResumeWriting,
        };
        if loop_core.on_runtime_thread(thread) {
            return Notify::Now;
        }
        Notify::Later(self.enqueue_pending_read_event(loop_core, thread, event))
    }

    pub fn set_write_buffer_limits(
        &mut self,
        loop_core: &mut LoopCore,
        thread: &mut ThreadReady,
        high: Option<usize>,
        low: Option<usize>,
    ) -> (done: Result<Notify, LimitsError>)
        requires
            requested_high(high, low) <= usize::MAX,
        ensures
            are_limits_set(
                old(self)@,
                old(loop_core)@,
                old(thread)@,
                high,
                low,
                done,
                final(self)@,
                final(loop_core)@,
                final(thread)@,
            ),
    {
        let mut buffer = self.state.write_buffer;
        match buffer.set_limits(high, low) {
            Ok(flow) => {
                self.state.write_buffer = buffer;
                Ok(self.notify(loop_core, thread, flow))
            },
            Err(error) => Err(error),
        }
    }

    /// So many bytes were written by the writer.
    pub fn record_write_buffer_drained(
        &mut self,
        loop_core: &mut LoopCore,
        thread: &mut ThreadReady,
        len: usize,
    ) -> (notify: Notify)
        ensures
            is_drain_recorded(
                old(self)@,
                old(loop_core)@,
                old(thread)@,
                len,
                notify,
                final(self)@,
                final(loop_core)@,
                final(thread)@,
            ),
    {
        let flow = if self.state.write_buffer.record_drained(len) {
            Flow::Resume
        } else {
            Flow::Unchanged
        };
        self.notify(loop_core, thread, flow)
    }

    pub fn write_backpressure_active(&self) -> (active: bool)
        ensures
            active == self@.state.writer_registered,
    {
        self.state.writer_registered
    }

    pub fn set_write_backpressure_active(&mut self, active: bool)
        ensures
            final(self)@ == with_backpressure(old(self)@, active),
    {
        self.state.writer_registered = active;
    }

    pub fn close_on_write_eof(&self) -> (close: bool)
        ensures
            close == self@.state.close_on_write_eof,
    {
        self.state.close_on_write_eof
    }

    /// Writing failed: the transport closes, what it had taken is given up, and the loop is told
    /// of the loss. A transport that closes already is left alone. The result says that, and that
    /// the writer has to be stopped.
    pub fn fail_write(
        &mut self,
        loop_core: &mut LoopCore,
        thread: &mut ThreadReady,
        reason: Option<String>,
    ) -> (failed: (bool, Option<Result<Sent, LoopCoreError>>))
        ensures
            is_write_failed(
                old(self)@,
                old(loop_core)@,
                old(thread)@,
                reason,
                failed,
                final(self)@,
                final(loop_core)@,
                final(thread)@,
            ),
    {
        if self.state.closing {
            return (false, None);
        }
        self.state.closing = true;
        self.state.writer_registered = false;
        let _ = self.state.write_buffer.clear(false);
        let told = self.enqueue_pending_read_event(
            loop_core,
            thread,
            PendingReadEvent::ConnectionLost(reason),
        );
        (true, told)
    }

    /// Data goes to the writer.
    pub fn queue_write(&mut self, loop_core: &mut LoopCore, thread: &mut ThreadReady, len: usize) -> (step:
        QueueStep)
        ensures
            is_write_queued(
                old(self)@,
                old(loop_core)@,
                old(thread)@,
                len,
                step,
                final(self)@,
                final(loop_core)@,
                final(thread)@,
            ),
    {
        let flow = if self.state.write_buffer.record_enqueued(len) {
            Flow::Pause
        } else {
            Flow::Unchanged
        };
        let start_writer = self.lazy_writer;
        self.lazy_writer = false;
        let notify = self.notify(loop_core, thread, flow);
        QueueStep { start_writer, notify }
    }

    /// The writer is gone: what was queued for it is given up.
    pub fn queue_write_failed(&mut self, loop_core: &mut LoopCore, thread: &mut ThreadReady) -> (failed: (
        bool,
        Option<Result<Sent, LoopCoreError>>,
    ))
        ensures
            is_write_failed(
                with_write_buffer(old(self)@, old(self)@.state.write_buffer.cleared()),
                old(loop_core)@,
                old(thread)@,
                None,
                failed,
                final(self)@,
                final(loop_core)@,
                final(thread)@,
            ),
    {
        let _ = self.state.write_buffer.clear(false);
        self.fail_write(loop_core, thread, None)
    }

    pub fn has_direct_writer(&self) -> (has: bool)
        ensures
            has == self@.direct_writer,
    {
        self.direct_writer
    }

    pub fn mark_write_eof(&mut self)
        ensures
            final(self)@ == with_write_eof(old(self)@),
    {
        self.state.write_eof_requested = true;
    }

    /// Data is written to the socket directly, unless something waits for the writer.
    pub fn try_write_bytes(&self) -> (direct: bool)
        ensures
            direct == writes_directly(self@),
    {
        self.direct_writer && !self.state.writer_registered
    }

    /// What came of the direct write. What was not written is queued, and from then on everything
    /// is until the writer is done.
    pub fn direct_write_finished(
        &mut self,
        loop_core: &mut LoopCore,
        thread: &mut ThreadReady,
        data: &[u8],
        outcome: DirectWrite,
    ) -> (step: DirectStep)
        requires
            outcome matches DirectWrite::Written(n) ==> n <= data@.len(),
        ensures
            is_direct_write(
                old(self)@,
                old(loop_core)@,
                old(thread)@,
                data@,
                outcome,
                step,
                final(self)@,
                final(loop_core)@,
                final(thread)@,
            ),
    {
        match outcome {
            DirectWrite::Written(written) => {
                if written == data.len() {
                    return DirectStep::Done;
                }
                let mut pending = OwnedWriteBuffer::from_slice(data);
                pending.advance(written);
                self.state.writer_registered = true;
                DirectStep::Queue(pending)
            },
            DirectWrite::NotReady => {
                self.state.writer_registered = true;
                DirectStep::Queue(OwnedWriteBuffer::from_slice(data))
            },
            DirectWrite::Failed(reason) => {
                let (stop_writer, told) = self.fail_write(loop_core, thread, Some(reason));
                DirectStep::Failed { stop_writer, told }
            },
        }
    }
}

/// What a noticed loss comes to.
pub open spec fn is_loss_route(
    v: TransportView,
    l: LoopView,
    t: ThreadView,
    reason: Option<String>,
    route: LossRoute,
    v_after: TransportView,
    l_after: LoopView,
    t_after: ThreadView,
) -> bool {
    match route {
        LossRoute::Here(step) => t.active_loop == Some(l.id) && (v_after, step) == lost(v)
            && l_after == l && t_after == t,
        LossRoute::Later(told) => t.active_loop != Some(l.id) && is_reported(
            v,
            l,
            t,
            PendingReadEvent::ConnectionLost(reason),
            told,
            v_after,
            l_after,
            t_after,
        ),
    }
}

/// What setting the marks comes to.
pub open spec fn are_limits_set(
    v: TransportView,
    l: LoopView,
    t: ThreadView,
    high: Option<usize>,
    low: Option<usize>,
    done: Result<Notify, LimitsError>,
    v_after: TransportView,
    l_after: LoopView,
    t_after: ThreadView,
) -> bool {
    match v.state.write_buffer.limited(high, low) {
        Ok(change) => done is Ok && is_notified(
            with_write_buffer(v, change.0),
            l,
            t,
            flow_event(change.1),
            done->Ok_0,
            v_after,
            l_after,
            t_after,
        ),
        Err(error) => done is Err && done->Err_0 == error && v_after == v && l_after == l && t_after
            == t,
    }
}

/// What it comes to that bytes were written.
pub open spec fn is_drain_recorded(
    v: TransportView,
    l: LoopView,
    t: ThreadView,
    len: usize,
    notify: Notify,
    v_after: TransportView,
    l_after: LoopView,
    t_after: ThreadView,
) -> bool {
    let buffer = v.state.write_buffer;
    let resumes = buffer.protocol_paused && !buffer.drained(len).protocol_paused;
    is_notified(
        with_write_buffer(v, buffer.drained(len)),
        l,
        t,
        flow_event(
            if resumes {
                Flow::Resume
            } else {
                Flow::Unchanged
            },
        ),
        notify,
        v_after,
        l_after,
        t_after,
    )
}

/// What it comes to that bytes are queued.
pub open spec fn is_write_queued(
    v: TransportView,
    l: LoopView,
    t: ThreadView,
    len: usize,
    step: QueueStep,
    v_after: TransportView,
    l_after: LoopView,
    t_after: ThreadView,
) -> bool {
    let buffer = v.state.write_buffer;
    let pauses = !buffer.protocol_paused && buffer.enqueued(len).protocol_paused;
    &&& step.start_writer == v.lazy_writer
    &&& is_notified(
        TransportView { lazy_writer: false, ..with_write_buffer(v, buffer.enqueued(len)) },
        l,
        t,
        flow_event(
            if pauses {
                Flow::Pause
            } else {
                Flow::Unchanged
            },
        ),
        step.notify,
        v_after,
        l_after,
        t_after,
    )
}

/// What a direct write comes to.
pub open spec fn is_direct_write(
    v: TransportView,
    l: LoopView,
    t: ThreadView,
    data: Seq<u8>,
    outcome: DirectWrite,
    step: DirectStep,
    v_after: TransportView,
    l_after: LoopView,
    t_after: ThreadView,
) -> bool {
    match (outcome, step) {
        (DirectWrite::Written(n), DirectStep::Done) => n == data.len() && v_after == v && l_after
            == l && t_after == t,
        (DirectWrite::Written(n), DirectStep::Queue(rest)) => n < data.len() && rest.wf() && rest@
            == data.skip(n as int) && v_after == registered(v) && l_after == l && t_after == t,
        (DirectWrite::NotReady, DirectStep::Queue(rest)) => rest.wf() && rest@ == data && v_after
            == registered(v) && l_after == l && t_after == t,
        (
            DirectWrite::Failed(reason),
            DirectStep::Failed { stop_writer, told },
        ) => is_write_failed(v, l, t, Some(reason), (stop_writer, told), v_after, l_after, t_after),
        _ => false,
    }
}

/// Everything goes through the writer from here on.
pub open spec fn registered(v: TransportView) -> TransportView {
    TransportView { state: StreamTransportState { writer_registered: true, ..v.state }, ..v }
}

/// What a failed write comes to.
pub open spec fn is_write_failed(
    v: TransportView,
    l: LoopView,
    t: ThreadView,
    reason: Option<String>,
    failed: (bool, Option<Result<Sent, LoopCoreError>>),
    v_after: TransportView,
    l_after: LoopView,
    t_after: ThreadView,
) -> bool {
    if v.state.closing {
        !failed.0 && failed.1 is None && v_after == v && l_after == l && t_after == t
    } else {
        failed.0 && is_reported(
            TransportView {
                state: StreamTransportState {
                    closing: true,
                    writer_registered: false,
                    write_buffer: v.state.write_buffer.cleared(),
                    ..v.state
                },
                ..v
            },
            l,
            t,
            PendingReadEvent::ConnectionLost(reason),
            failed.1,
            v_after,
            l_after,
            t_after,
        )
    }
}

/// A transport in the family of Unix sockets, or one of the Internet.
#[derive(Clone, Copy, PartialEq, Eq, Debug, Structural)]
pub enum StreamFamily {
    Unix,
    Tcp,
}

/// The address family of a TCP socket.
pub open spec fn tcp_family_of(is_ipv6: Option<bool>) -> i32 {
    if is_ipv6 == Some(true) {
        AF_INET6
    } else {
        AF_INET
    }
}

/// The side of a TLS connection that an upgrade asks for.
pub open spec fn tls_side(client: bool, server: bool) -> Result<TlsSide, TransportError> {
    if client && !server {
        Ok(TlsSide::Client)
    } else if server && !client {
        Ok(TlsSide::Server)
    } else {
        Err(TransportError::BadTlsUpgrade)
    }
}

/// The kind of stream that a socket of this address family is.
pub fn stream_family(family: i32) -> (kind: StreamFamily)
    ensures
        kind == family_of(family),
{
    if family == af_unix() {
        StreamFamily::Unix
    } else {
        StreamFamily::Tcp
    }
}

/// The address family of a TCP socket. Where its address could not be had it counts as version 4.
pub fn tcp_family(is_ipv6: Option<bool>) -> (family: i32)
    ensures
        family == tcp_family_of(is_ipv6),
{
    match is_ipv6 {
        Some(true) => af_inet6(),
        _ => af_inet(),
    }
}

/// Which side of a TLS connection a transport becomes.
#[derive(Clone, Copy, PartialEq, Eq, Debug, Structural)]
pub enum TlsSide {
    Client,
    Server,
}

/// An upgrade to TLS needs the settings of exactly one side.
pub fn start_tls_transport(client: bool, server: bool) -> (side: Result<TlsSide, TransportError>)
    ensures
        side == tls_side(client, server),
{
    match (client, server) {
        (true, false) => Ok(TlsSide::Client),
        (false, true) => Ok(TlsSide::Server),
        _ => Err(TransportError::BadTlsUpgrade),
    }
}

/// A protocol is told of the loss of its connection at most once, and never after its socket went
/// to another transport.
pub proof fn law_loss_is_told_once(v: TransportView)
    ensures
        lost(lost(v).0).1 is Ignore,
        v.state.detached ==> lost(v).1 is Ignore,
        lost(v).1 is Tell ==> !v.state.lost_called && !v.state.detached,
        lost(v).0.state.lost_called,
        lost(v).1 is Tell ==> lost(v).0.state.closing,
        v.state.write_buffer.wf() ==> lost(v).0.state.write_buffer.wf(),
{
}

/// No event is stranded: as long as the loop can be told, it knows of every event that waits.
pub proof fn law_reported_events_are_scheduled(
    v: TransportView,
    l: LoopView,
    t: ThreadView,
    event: PendingReadEvent,
    told: Option<Result<Sent, LoopCoreError>>,
    v_after: TransportView,
    l_after: LoopView,
    t_after: ThreadView,
)
    requires
        is_reported(v, l, t, event, told, v_after, l_after, t_after),
        !(told matches Some(result) && result is Err),
    ensures
        v_after.queue.scheduled,
        v_after.queue.events == v.queue.events.push(event),
{
}

} // verus!
