//! The writer of a transport: it takes commands in order and writes what they bring.

use vstd::prelude::*;
use crate::stream_io::{IoError, IoErrorKind};
use crate::write_buffer::OwnedWriteBuffer;

verus! {

/// What a writer is asked for.
pub enum WriterCommand {
    Data(OwnedWriteBuffer),
    WriteEof,
    Close,
    Abort,
    Stop,
}

/// What a writer writes to.
#[derive(Clone, Copy, PartialEq, Eq, Debug, Structural)]
pub enum WriterKind {
    /// A socket or a pipe. `close_on_write_eof` says that nothing is left once its writing side is
    /// shut.
    Stream { close_on_write_eof: bool },
    Tls,
}

/// Why a connection counts as lost.
pub enum LossReason {
    /// It was closed.
    Closed,
    Failed(String),
    /// The other side did not answer the end of the TLS connection in time.
    TlsTimeout,
}

/// The text of that.
pub fn tls_timeout_message() -> (text: &'static str)
    ensures
        text@ == "SSL shutdown timed out"@,
{
    "SSL shutdown timed out"
}

/// What a writer does next.
pub enum WriterAction {
    /// Wait for a command.
    Receive,
    /// Write all of the buffer.
    Write(OwnedWriteBuffer),
    /// So many bytes were written: note it, and look for the next command without waiting.
    NoteAndTryReceive(usize),
    /// Shut the writing side.
    ShutWrite,
    /// Shut the socket.
    ShutDown,
    /// End the TLS connection, then shut the socket.
    CloseTls,
    /// Let the transport be written to directly again, then go on.
    Release,
    /// Tell of the loss of the connection, then end.
    LoseAndFinish { release: bool, reason: LossReason },
    Finish,
}

/// What came of the action before.
pub enum WriterEvent {
    /// The writer begins, or begins again.
    Again,
    /// A command, or nothing where nobody is left to send one.
    Received(Option<WriterCommand>),
    /// So many bytes were to be written, and they were.
    Wrote(usize),
    WriteFailed(IoError),
    /// No command waits.
    Empty,
    /// No command waits, and nobody is left to send one.
    Disconnected,
    Shut(Result<(), IoError>),
}

/// The call under way on the socket.
#[derive(Clone, Copy, PartialEq, Eq, Debug, Structural)]
pub enum Shutting {
    Nothing,
    WriteSide,
    Socket,
    Tls,
}

/// The model of a writer.
#[verifier::ext_equal]
pub struct WriterView {
    pub kind: WriterKind,
    /// A command that was received while data was being written.
    pub held: Option<WriterCommand>,
    pub shutting: Shutting,
    /// Data is being written, so the next command is looked for without waiting.
    pub in_batch: bool,
}

/// Why the connection is lost, by what came of shutting it.
pub open spec fn shut_reason(shutting: Shutting, result: Result<(), IoError>) -> LossReason {
    match result {
        Ok(()) => LossReason::Closed,
        Err(error) => if shutting is Tls && error.kind is TimedOut {
            LossReason::TlsTimeout
        } else {
            LossReason::Failed(error.text)
        },
    }
}

/// What a command asks for.
pub open spec fn obeyed(w: WriterView, command: WriterCommand, stop: bool) -> (
    WriterView,
    WriterAction,
) {
    match command {
        WriterCommand::Data(buffer) => (
            WriterView { in_batch: true, ..w },
            WriterAction::Write(buffer),
        ),
        WriterCommand::WriteEof => if w.kind is Tls {
            if stop {
                (w, WriterAction::Finish)
            } else {
                (w, WriterAction::Receive)
            }
        } else {
            (WriterView { shutting: Shutting::WriteSide, ..w }, WriterAction::ShutWrite)
        },
        WriterCommand::Close => if w.kind is Tls {
            (WriterView { shutting: Shutting::Tls, ..w }, WriterAction::CloseTls)
        } else {
            (WriterView { shutting: Shutting::Socket, ..w }, WriterAction::ShutDown)
        },
        WriterCommand::Abort => (
            WriterView { shutting: Shutting::Socket, ..w },
            WriterAction::ShutDown,
        ),
        WriterCommand::Stop => (w, WriterAction::Finish),
    }
}

/// Where a writer begins: with the command that it held back, or with the next one.
pub open spec fn writer_begins(w: WriterView, stop: bool) -> (WriterView, WriterAction) {
    if stop {
        (w, WriterAction::Finish)
    } else {
        match w.held {
            Some(command) => obeyed(WriterView { held: None, ..w }, command, stop),
            None => (w, WriterAction::Receive),
        }
    }
}

/// What a writer does. Data that waits is written in one go; the first other command behind it is
/// held back until then.
pub open spec fn writer_does(w: WriterView, event: WriterEvent, stop: bool) -> (
    WriterView,
    WriterAction,
) {
    match event {
        WriterEvent::Again => writer_begins(w, stop),
        WriterEvent::Received(Some(command)) => if w.in_batch && !(command is Data) {
            writer_begins(
                WriterView { held: Some(command), in_batch: false, ..w },
                stop,
            )
        } else {
            obeyed(w, command, stop)
        },
        WriterEvent::Received(None) => (
            w,
            WriterAction::LoseAndFinish { release: false, reason: LossReason::Closed },
        ),
        WriterEvent::Wrote(len) => (w, WriterAction::NoteAndTryReceive(len)),
        WriterEvent::WriteFailed(error) => (
            w,
            WriterAction::LoseAndFinish {
                release: false,
                reason: LossReason::Failed(error.text),
            },
        ),
        WriterEvent::Empty => (WriterView { in_batch: false, ..w }, WriterAction::Release),
        WriterEvent::Disconnected => (
            WriterView { in_batch: false, ..w },
            WriterAction::LoseAndFinish { release: true, reason: LossReason::Closed },
        ),
        WriterEvent::Shut(result) => if w.shutting is WriteSide && result is Ok {
            let w1 = WriterView { shutting: Shutting::Nothing, ..w };
            if w.kind == (WriterKind::Stream { close_on_write_eof: true }) {
                (
                    w1,
                    WriterAction::LoseAndFinish { release: false, reason: LossReason::Closed },
                )
            } else {
                writer_begins(w1, stop)
            }
        } else {
            (
                WriterView { shutting: Shutting::Nothing, ..w },
                WriterAction::LoseAndFinish {
                    release: false,
                    reason: shut_reason(w.shutting, result),
                },
            )
        },
    }
}

/// A writer that has done nothing yet.
pub open spec fn fresh_writer(kind: WriterKind) -> WriterView {
    WriterView { kind, held: None, shutting: Shutting::Nothing, in_batch: false }
}

/// The writer of a transport.
pub struct StreamWriter {
    kind: WriterKind,
    held: Option<WriterCommand>,
    shutting: Shutting,
    in_batch: bool,
}

impl View for StreamWriter {
    type V = WriterView;

    closed spec fn view(&self) -> WriterView {
        WriterView {
            kind: self.kind,
            held: self.held,
            shutting: self.shutting,
            in_batch: self.in_batch,
        }
    }
}

fn reason_of(shutting: Shutting, result: Result<(), IoError>) -> (reason: LossReason)
    ensures
        reason == shut_reason(shutting, result),
{
    match result {
        Ok(()) => LossReason::Closed,
        Err(error) => match (shutting, error.kind) {
            (Shutting::Tls, IoErrorKind::TimedOut) => LossReason::TlsTimeout,
            _ => LossReason::Failed(error.text),
        },
    }
}

impl StreamWriter {
    pub fn new(kind: WriterKind) -> (writer: Self)
        ensures
            writer@ == fresh_writer(kind),
    {
        StreamWriter { kind, held: None, shutting: Shutting::Nothing, in_batch: false }
    }

    fn obey(&mut self, command: WriterCommand, stop: bool) -> (action: WriterAction)
        ensures
            (final(self)@, action) == obeyed(old(self)@, command, stop),
    {
        match command {
            WriterCommand::Data(buffer) => {
                self.in_batch = true;
                WriterAction::Write(buffer)
            },
            WriterCommand::WriteEof => match self.kind {
                WriterKind::Tls => if stop {
                    WriterAction::Finish
                } else {
                    WriterAction::Receive
                },
                _ => {
                    self.shutting = Shutting::WriteSide;
                    WriterAction::ShutWrite
                },
            },
            WriterCommand::Close => match self.kind {
                WriterKind::Tls => {
                    self.shutting = Shutting::Tls;
                    WriterAction::CloseTls
                },
                _ => {
                    self.shutting = Shutting::Socket;
                    WriterAction::ShutDown
                },
            },
            WriterCommand::Abort => {
                self.shutting = Shutting::Socket;
                WriterAction::ShutDown
            },
            WriterCommand::Stop => WriterAction::Finish,
        }
    }

    fn begin(&mut self, stop: bool) -> (action: WriterAction)
        ensures
            (final(self)@, action) == writer_begins(old(self)@, stop),
    {
        if stop {
            return WriterAction::Finish;
        }
        let mut held: Option<WriterCommand> = None;
        core::mem::swap(&mut self.held, &mut held);
        match held {
            Some(command) => self.obey(command, stop),
            None => WriterAction::Receive,
        }
    }

    /// Takes what came of the action before and says what to do next.
    pub fn step(&mut self, event: WriterEvent, stop: bool) -> (action: WriterAction)
        ensures
            (final(self)@, action) == writer_does(old(self)@, event, stop),
    {
        match event {
            WriterEvent::Again => self.begin(stop),
            WriterEvent::Received(received) => match received {
                Some(command) => {
                    let is_data = match &command {
                        WriterCommand::Data(_) => true,
                        _ => false,
                    };
                    if self.in_batch && !is_data {
                        self.held = Some(command);
                        self.in_batch = false;
                        self.begin(stop)
                    } else {
                        self.obey(command, stop)
                    }
                },
                None => WriterAction::LoseAndFinish { release: false, reason: LossReason::Closed },
            },
            WriterEvent::Wrote(len) => WriterAction::NoteAndTryReceive(len),
            WriterEvent::WriteFailed(error) => WriterAction::LoseAndFinish {
                release: false,
                reason: LossReason::Failed(error.text),
            },
            WriterEvent::Empty => {
                self.in_batch = false;
                WriterAction::Release
            },
            WriterEvent::Disconnected => {
                self.in_batch = false;
                WriterAction::LoseAndFinish { release: true, reason: LossReason::Closed }
            },
            WriterEvent::Shut(result) => {
                let shutting = self.shutting;
                self.shutting = Shutting::Nothing;
                if shutting == Shutting::WriteSide && result.is_ok() {
                    match self.kind {
                        WriterKind::Stream { close_on_write_eof: true } => {
                            WriterAction::LoseAndFinish {
                                release: false,
                                reason: LossReason::Closed,
                            }
                        },
                        _ => self.begin(stop),
                    }
                } else {
                    WriterAction::LoseAndFinish {
                        release: false,
                        reason: reason_of(shutting, result),
                    }
                }
            },
        }
    }
}

/// What writing a buffer needs next.
pub enum WriteAllAction {
    /// Write as much of what remains as can be written.
    Write,
    /// Poll the descriptor for writing.
    Poll,
    /// Wait a little.
    Sleep,
    Finish,
    Fail(IoError),
}

/// What came of the action before.
pub enum WriteAllEvent {
    Again,
    Wrote(usize),
    Failed(IoError),
    Polled { read_ready: bool, write_ready: bool },
    PollFailed(IoError),
    Slept,
}

/// The error of a target that takes nothing.
pub open spec fn is_write_zero(error: IoError) -> bool {
    error.kind is WriteZero && error.text@ == "failed to write buffered transport data"@
}

/// What a step of writing a buffer comes to.
pub open spec fn is_write_all_step(
    remaining: Seq<u8>,
    event: WriteAllEvent,
    pollable: bool,
    after: Seq<u8>,
    action: WriteAllAction,
) -> bool {
    &&& after == match event {
        WriteAllEvent::Wrote(n) => remaining.skip(n as int),
        _ => remaining,
    }
    &&& match event {
        WriteAllEvent::Again => action == after_progress(after),
        WriteAllEvent::Wrote(n) => if n == 0 {
            action is Fail && is_write_zero(action->Fail_0)
        } else {
            action == after_progress(after)
        },
        WriteAllEvent::Failed(error) => action == if error.kind is WouldBlock {
            if pollable {
                WriteAllAction::Poll
            } else {
                WriteAllAction::Sleep
            }
        } else if error.kind is Interrupted {
            after_progress(after)
        } else {
            WriteAllAction::Fail(error)
        },
        WriteAllEvent::Polled { read_ready, write_ready } => action == if !read_ready
            && write_ready {
            after_progress(after)
        } else {
            WriteAllAction::Poll
        },
        WriteAllEvent::PollFailed(error) => action == WriteAllAction::Fail(error),
        WriteAllEvent::Slept => action == after_progress(after),
    }
}

/// One step of writing a buffer: until nothing remains, write; where the target is not ready, wait
/// until it is. A target that takes nothing is an error.
pub fn write_all_owned(buffer: &mut OwnedWriteBuffer, event: WriteAllEvent, pollable: bool) -> (action:
    WriteAllAction)
    requires
        old(buffer).wf(),
        event matches WriteAllEvent::Wrote(n) ==> n <= old(buffer)@.len(),
    ensures
        final(buffer).wf(),
        is_write_all_step(old(buffer)@, event, pollable, final(buffer)@, action),
{
    match event {
        WriteAllEvent::Wrote(written) => {
            buffer.advance(written);
            if written == 0 {
                return WriteAllAction::Fail(
                    IoError {
                        kind: IoErrorKind::WriteZero,
                        text: "failed to write buffered transport data".to_owned(),
                    },
                );
            }
        },
        WriteAllEvent::Failed(error) => {
            match error.kind {
                IoErrorKind::WouldBlock => {
                    return if pollable {
                        WriteAllAction::Poll
                    } else {
                        WriteAllAction::Sleep
                    };
                },
                IoErrorKind::Interrupted => {},
                _ => {
                    return WriteAllAction::Fail(error);
                },
            }
        },
        WriteAllEvent::Polled { read_ready, write_ready } => {
            if read_ready || !write_ready {
                return WriteAllAction::Poll;
            }
        },
        WriteAllEvent::PollFailed(error) => {
            return WriteAllAction::Fail(error);
        },
        _ => {},
    }
    if buffer.is_empty() {
        WriteAllAction::Finish
    } else {
        WriteAllAction::Write
    }
}

/// More is written as long as something remains.
pub open spec fn after_progress(remaining: Seq<u8>) -> WriteAllAction {
    if remaining.len() == 0 {
        WriteAllAction::Finish
    } else {
        WriteAllAction::Write
    }
}

/// What remains after a run of partial writes.
pub open spec fn remaining_after(data: Seq<u8>, writes: Seq<nat>) -> Seq<u8>
    decreases writes.len(),
{
    if writes.len() == 0 {
        data
    } else {
        remaining_after(data, writes.drop_last()).skip(writes.last() as int)
    }
}

/// What went out in a run of partial writes: each takes its bytes off the front of what remained.
pub open spec fn written_by(data: Seq<u8>, writes: Seq<nat>) -> Seq<u8>
    decreases writes.len(),
{
    if writes.len() == 0 {
        Seq::empty()
    } else {
        written_by(data, writes.drop_last()) + remaining_after(data, writes.drop_last()).take(
            writes.last() as int,
        )
    }
}

/// No write takes more than remained.
pub open spec fn writes_fit(data: Seq<u8>, writes: Seq<nat>) -> bool
    decreases writes.len(),
{
    writes.len() == 0 || (writes_fit(data, writes.drop_last()) && writes.last() <= remaining_after(
        data,
        writes.drop_last(),
    ).len())
}

/// However a buffer is split up, what goes out is the buffer: every byte once, in order, and when
/// nothing remains everything went out.
pub proof fn law_partial_writes_add_up(data: Seq<u8>, writes: Seq<nat>)
    requires
        writes_fit(data, writes),
    ensures
        written_by(data, writes) + remaining_after(data, writes) == data,
        remaining_after(data, writes).len() == 0 ==> written_by(data, writes) == data,
    decreases writes.len(),
{
    if writes.len() > 0 {
        law_partial_writes_add_up(data, writes.drop_last());
        let rest = remaining_after(data, writes.drop_last());
        let n = writes.last() as int;
        assert(rest.take(n) + rest.skip(n) =~= rest);
        assert(written_by(data, writes) + remaining_after(data, writes) =~= written_by(
            data,
            writes.drop_last(),
        ) + rest);
    } else {
        assert(Seq::<u8>::empty() + data =~= data);
    }
    if remaining_after(data, writes).len() == 0 {
        assert(written_by(data, writes) + remaining_after(data, writes) =~= written_by(data, writes));
    }
}

} // verus!
