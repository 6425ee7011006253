//! The transport as its protocol sees it.

use vstd::prelude::*;
use crate::loop_commands::{LoopCommand, LoopIoCommand};
use crate::loop_core::{is_sent, LoopCore, LoopCoreError, LoopView, Sent, ThreadReady, ThreadView};
use crate::objects::ObjectId;
use crate::stream_transport::{
    runtime_fd, with_write_eof, without_socket, writes_directly, StreamTransportCore,
    StreamTransportState, TransportError, TransportSpawnContext, TransportView,
};
use crate::text::{flag_text, push_flag};

verus! {

/// How `write` goes on.
#[derive(Clone, Copy, PartialEq, Eq, Debug, Structural)]
pub enum WriteStep {
    /// The transport is closing: what is written is dropped.
    Ignore,
    Fail(TransportError),
    /// Encode text, with these error handling rules or the strict ones.
    Encode { encoding: ObjectId, errors: Option<ObjectId> },
    /// Take the bytes as they are.
    AsIs,
    /// Make bytes of the object.
    ToBytes,
}

/// What kind of object is written.
#[derive(Clone, Copy, PartialEq, Eq, Debug, Structural)]
pub enum WrittenObject {
    Text,
    Bytes,
    Other,
}

/// How `close` goes on.
#[derive(Clone, Copy, PartialEq, Eq, Debug, Structural)]
pub enum CloseAction {
    /// Let the writer close when it is done.
    SendClose,
    /// Shut the socket, stop the writer, handle the loss of the connection.
    ShutDown,
}

/// How `abort` goes on.
#[derive(Clone, Copy, PartialEq, Eq, Debug, Structural)]
pub enum AbortAction {
    SendAbort,
    /// Shut the socket, send the abort to the writer, handle the loss of the connection.
    ShutDown,
}

/// How `write_eof` goes on.
#[derive(Clone, Copy, PartialEq, Eq, Debug, Structural)]
pub enum WriteEofAction {
    /// Shut the writing side, then handle the loss of the connection where it is asked for.
    ShutWrite { lose: bool },
    /// Let the writer do it.
    SendWriteEof,
}

/// What a transport with TLS takes over.
#[derive(Clone, Copy, PartialEq, Eq, Debug)]
pub struct Upgrade {
    /// The socket object, to be closed: a duplicate of its descriptor was made before.
    pub socket: ObjectId,
    pub spawn_context: TransportSpawnContext,
    /// What came of asking the runtime thread to stop reading.
    pub told: Option<Result<Sent, LoopCoreError>>,
}

/// The command that stops reading from the transport's socket, where the runtime thread does.
pub open spec fn stop_reading_command(v: TransportView) -> Option<LoopCommand> {
    match runtime_fd(v) {
        Some(fd) => Some(LoopCommand::Io(LoopIoCommand::StopSocketReader(fd))),
        None => None,
    }
}

/// What asking the runtime thread to stop reading comes to: `told` is what came of the command,
/// where there is one to send.
pub open spec fn is_stopped(
    v: TransportView,
    l: LoopView,
    t: ThreadView,
    told: Option<Result<Sent, LoopCoreError>>,
    l_after: LoopView,
    t_after: ThreadView,
) -> bool {
    match (stop_reading_command(v), told) {
        (Some(command), Some(sent)) => is_sent(l, t, command, sent, l_after, t_after),
        (None, None) => l_after == l && t_after == t,
        _ => false,
    }
}

/// The transport that closes.
pub open spec fn closing(v: TransportView) -> TransportView {
    TransportView { state: StreamTransportState { closing: true, ..v.state }, ..v }
}

/// How something is written.
pub open spec fn write_step(v: TransportView, object: WrittenObject) -> WriteStep {
    if v.state.closing {
        WriteStep::Ignore
    } else if !v.state.writable {
        WriteStep::Fail(TransportError::NotWritable)
    } else if v.extra.contains_key("text_encoding"@) {
        if object is Text {
            WriteStep::Encode {
                encoding: v.extra["text_encoding"@],
                errors: extra_or(v, "text_errors"@, None),
            }
        } else {
            WriteStep::ToBytes
        }
    } else if object is Bytes {
        WriteStep::AsIs
    } else {
        WriteStep::ToBytes
    }
}

/// The fact of that name, or the default.
pub open spec fn extra_or(
    v: TransportView,
    name: Seq<char>,
    default: Option<ObjectId>,
) -> Option<ObjectId> {
    if v.extra.contains_key(name) {
        Some(v.extra[name])
    } else {
        default
    }
}

/// How a transport is closed.
pub open spec fn close_action(v: TransportView) -> CloseAction {
    if writes_directly(v) {
        CloseAction::ShutDown
    } else {
        CloseAction::SendClose
    }
}

/// How a transport is aborted.
pub open spec fn abort_action(v: TransportView) -> AbortAction {
    if v.direct_writer {
        AbortAction::ShutDown
    } else {
        AbortAction::SendAbort
    }
}

/// What closing the writing side comes to.
pub open spec fn is_write_eof(
    v: TransportView,
    done: Result<WriteEofAction, TransportError>,
    v_after: TransportView,
) -> bool {
    if !v.state.can_write_eof {
        done == Result::<WriteEofAction, TransportError>::Err(TransportError::NoWriteEof) && v_after
            == v
    } else {
        &&& v_after == with_write_eof(v)
        &&& done == Result::<WriteEofAction, TransportError>::Ok(
            if writes_directly(v) {
                WriteEofAction::ShutWrite { lose: v.state.close_on_write_eof }
            } else {
                WriteEofAction::SendWriteEof
            },
        )
    }
}

/// What a transport with TLS is made from, in place of this one.
pub open spec fn upgraded_context(
    v: TransportView,
    loop_id: ObjectId,
    loop_obj: ObjectId,
) -> TransportSpawnContext {
    TransportSpawnContext {
        loop_core: loop_id,
        loop_obj,
        protocol: v.state.protocol,
        context: v.state.context,
        context_needs_run: v.state.context_needs_run,
    }
}

/// What an upgrade to TLS comes to.
pub open spec fn is_upgrade(
    v: TransportView,
    l: LoopView,
    t: ThreadView,
    loop_id: ObjectId,
    loop_obj: ObjectId,
    upgrade: Result<Upgrade, TransportError>,
    v_after: TransportView,
    l_after: LoopView,
    t_after: ThreadView,
) -> bool {
    if !v.extra.contains_key("socket"@) {
        upgrade == Result::<Upgrade, TransportError>::Err(TransportError::NoSocket) && v_after == v
            && l_after == l && t_after == t
    } else {
        &&& upgrade is Ok
        &&& upgrade->Ok_0.socket == v.extra["socket"@]
        &&& upgrade->Ok_0.spawn_context == upgraded_context(v, loop_id, loop_obj)
        &&& v_after == without_socket(v)
        &&& is_stopped(v, l, t, upgrade->Ok_0.told, l_after, t_after)
    }
}

pub struct PyStreamTransport {
    pub core: StreamTransportCore,
}

impl PyStreamTransport {
    /// Decides on what is written. A transport that closes drops it; one for text encodes text.
    pub fn write(&self, object: WrittenObject) -> (step: WriteStep)
        ensures
            step == write_step(self.core@, object),
    {
        if self.core.is_closing() {
            return WriteStep::Ignore;
        }
        if !self.core.is_writable() {
            return WriteStep::Fail(TransportError::NotWritable);
        }
        match (self.core.get_extra("text_encoding"), object) {
            (Some(encoding), WrittenObject::Text) => WriteStep::Encode {
                encoding,
                errors: self.core.get_extra("text_errors"),
            },
            (Some(_), _) => WriteStep::ToBytes,
            (None, WrittenObject::Bytes) => WriteStep::AsIs,
            (None, _) => WriteStep::ToBytes,
        }
    }

    fn stop_reading(&self, loop_core: &mut LoopCore, thread: &mut ThreadReady) -> (told: Option<
        Result<Sent, LoopCoreError>,
    >)
        ensures
            is_stopped(
                self.core@,
                old(loop_core)@,
                old(thread)@,
                told,
                final(loop_core)@,
                final(thread)@,
            ),
    {
        match self.core.runtime_socket_fd() {
            Some(fd) => {
                let command = LoopCommand::Io(LoopIoCommand::StopSocketReader(fd));
                Some(loop_core.send_command(thread, command))
            },
            None => None,
        }
    }

    /// Closes the transport when everything that was queued is written. Beside the action stands
    /// what came of asking the runtime thread to stop reading; that it could not be asked is no
    /// error.
    pub fn close(&mut self, loop_core: &mut LoopCore, thread: &mut ThreadReady) -> (closed: (
        CloseAction,
        Option<Result<Sent, LoopCoreError>>,
    ))
        ensures
            final(self).core@ == closing(old(self).core@),
            is_stopped(
                old(self).core@,
                old(loop_core)@,
                old(thread)@,
                closed.1,
                final(loop_core)@,
                final(thread)@,
            ),
            closed.0 == close_action(old(self).core@),
    {
        self.core.set_closing();
        let told = self.stop_reading(loop_core, thread);
        let action = if self.core.has_direct_writer() && !self.core.write_backpressure_active() {
            CloseAction::ShutDown
        } else {
            CloseAction::SendClose
        };
        (action, told)
    }

    /// Closes the transport at once. The second result is that of `close`.
    pub fn abort(&mut self, loop_core: &mut LoopCore, thread: &mut ThreadReady) -> (aborted: (
        AbortAction,
        Option<Result<Sent, LoopCoreError>>,
    ))
        ensures
            final(self).core@ == closing(old(self).core@),
            is_stopped(
                old(self).core@,
                old(loop_core)@,
                old(thread)@,
                aborted.1,
                final(loop_core)@,
                final(thread)@,
            ),
            aborted.0 == abort_action(old(self).core@),
    {
        self.core.set_closing();
        let told = self.stop_reading(loop_core, thread);
        let action = if self.core.has_direct_writer() {
            AbortAction::ShutDown
        } else {
            AbortAction::SendAbort
        };
        (action, told)
    }

    /// Closes the writing side when everything that was queued is written.
    pub fn write_eof(&mut self) -> (done: Result<WriteEofAction, TransportError>)
        ensures
            is_write_eof(old(self).core@, done, final(self).core@),
    {
        if !self.core.can_write_eof() {
            return Err(TransportError::NoWriteEof);
        }
        self.core.mark_write_eof();
        if self.core.has_direct_writer() && !self.core.write_backpressure_active() {
            Ok(WriteEofAction::ShutWrite { lose: self.core.close_on_write_eof() })
        } else {
            Ok(WriteEofAction::SendWriteEof)
        }
    }

    /// The fact of that name, or the default.
    pub fn get_extra_info(&self, name: &str, default: Option<ObjectId>) -> (found: Option<ObjectId>)
        ensures
            found == extra_or(self.core@, name@, default),
    {
        match self.core.get_extra(name) {
            Some(value) => Some(value),
            None => default,
        }
    }

    pub fn repr(&self) -> (text: String)
        ensures
            text@ == "<StreamTransport closing="@ + flag_text(self.core@.state.closing) + ">"@,
    {
        let mut text = "<StreamTransport closing=".to_owned();
        push_flag(&mut text, self.core.is_closing());
        text.append(">");
        text
    }

    /// The socket goes to a transport with TLS. Its place is taken first; then the old transport
    /// lets go of it, and the runtime thread stops reading from it.
    pub fn upgrade_stream(
        &mut self,
        loop_core: &mut LoopCore,
        thread: &mut ThreadReady,
        loop_id: ObjectId,
        loop_obj: ObjectId,
    ) -> (upgrade: Result<Upgrade, TransportError>)
        ensures
            is_upgrade(
                old(self).core@,
                old(loop_core)@,
                old(thread)@,
                loop_id,
                loop_obj,
                upgrade,
                final(self).core@,
                final(loop_core)@,
                final(thread)@,
            ),
    {
        let socket = match self.core.get_extra("socket") {
            Some(socket) => socket,
            None => {
                return Err(TransportError::NoSocket);
            },
        };
        let state = *self.core.state();
        self.core.detach_underlying_stream();
        let told = self.stop_reading(loop_core, thread);
        let spawn_context = TransportSpawnContext::new(
            loop_id,
            loop_obj,
            state.protocol,
            state.context,
            state.context_needs_run,
        );
        Ok(Upgrade { socket, spawn_context, told })
    }
}

} // verus!
