//! What the loop is asked to do, and what waits in its ready queues.

use vstd::prelude::*;
use crate::objects::ObjectId;
use crate::text::{decimal, push_decimal, push_signed_decimal, signed_decimal};

verus! {

/// A file descriptor or a socket handle.
pub type RawFd = i64;

pub type CallbackId = u64;

/// Where a callback comes from.
#[derive(Clone, Copy, PartialEq, Eq, Debug, Structural)]
pub enum CallbackKind {
    Soon,
    Threadsafe,
    Timer,
    Reader(RawFd),
    Writer(RawFd),
}

/// A callback with its arguments and the context to run it in.
#[derive(Clone, Copy, PartialEq, Eq, Debug, Structural)]
pub struct ReadyCallback {
    pub id: CallbackId,
    pub kind: CallbackKind,
    pub callback: ObjectId,
    pub args: ObjectId,
    pub context: ObjectId,
    pub context_needs_run: bool,
}

impl CallbackKind {
    pub open spec fn text(self) -> Seq<char> {
        match self {
            CallbackKind::Soon => "Soon"@,
            CallbackKind::Threadsafe => "Threadsafe"@,
            CallbackKind::Timer => "Timer"@,
            CallbackKind::Reader(fd) => "Reader("@ + signed_decimal(fd as int) + ")"@,
            CallbackKind::Writer(fd) => "Writer("@ + signed_decimal(fd as int) + ")"@,
        }
    }
}

impl ReadyCallback {
    /// How the callback is named where an error of it is reported.
    pub fn description(&self) -> (text: String)
        ensures
            text@ == "<"@ + self.kind.text() + " id="@ + decimal(self.id as nat) + ">"@,
    {
        let mut text = "<".to_owned();
        match self.kind {
            CallbackKind::Soon => {
                text.append("Soon");
            },
            CallbackKind::Threadsafe => {
                text.append("Threadsafe");
            },
            CallbackKind::Timer => {
                text.append("Timer");
            },
            CallbackKind::Reader(fd) => {
                text.append("Reader(");
                push_signed_decimal(&mut text, fd);
                text.append(")");
            },
            CallbackKind::Writer(fd) => {
                text.append("Writer(");
                push_signed_decimal(&mut text, fd);
                text.append(")");
            },
        }
        assert(text@ =~= "<"@ + self.kind.text());
        text.append(" id=");
        push_decimal(&mut text, self.id);
        text.append(">");
        text
    }
}

/// An entry of a ready queue.
#[derive(Clone, Copy, PartialEq, Eq, Debug, Structural)]
pub enum ReadyItem {
    Stop,
    Callback(ReadyCallback),
    FutureSetResult { future: ObjectId, value: ObjectId },
    FutureSetException { future: ObjectId, value: ObjectId },
    StreamTransportRead(ObjectId),
    ProcessTransport(ObjectId),
    ServerAccepted { server: ObjectId, stream: ObjectId },
}

#[derive(Clone, Copy, PartialEq, Eq, Debug, Structural)]
pub enum LoopRunCommand {
    EnterRun,
    FinishRun,
}

#[derive(Clone, Copy, PartialEq, Eq, Debug, Structural)]
pub enum LoopFutureCommand {
    SetResult { future: ObjectId, value: ObjectId },
    SetException { future: ObjectId, value: ObjectId },
}

#[derive(Clone, Copy, PartialEq, Eq, Debug, Structural)]
pub enum LoopTransportCommand {
    StreamRead(ObjectId),
    Process(ObjectId),
    ServerAccepted { server: ObjectId, stream: ObjectId },
}

/// What to call when a descriptor is ready.
#[derive(Clone, Copy, PartialEq, Eq, Debug, Structural)]
pub struct FdWatch {
    pub fd: RawFd,
    pub callback: ObjectId,
    pub args: ObjectId,
    pub context: ObjectId,
    pub context_needs_run: bool,
}

#[derive(Clone, Copy, PartialEq, Eq, Debug, Structural)]
pub enum LoopIoCommand {
    StartReader(FdWatch),
    StopReader(RawFd),
    StartWriter(FdWatch),
    StopWriter(RawFd),
    StartSocketReader { fd: RawFd, core: ObjectId },
    StopSocketReader(RawFd),
    StartServerAccept { fd: RawFd, server: ObjectId },
    StopServerAccept(RawFd),
}

#[derive(Clone, Copy, PartialEq, Eq, Debug, Structural)]
pub enum LoopSignalCommand {
    StartWatcher(i32),
    StopWatcher(i32),
}

/// What is sent to the loop. `when` of a timer is the deadline in nanoseconds of the clock that the
/// loop started with.
#[derive(Clone, Copy, PartialEq, Eq, Debug, Structural)]
pub enum LoopCommand {
    ScheduleReady(ReadyCallback),
    ScheduleTimer { callback: ReadyCallback, when: u128 },
    Run(LoopRunCommand),
    Future(LoopFutureCommand),
    Transport(LoopTransportCommand),
    Io(LoopIoCommand),
    Signal(LoopSignalCommand),
    RequestStop,
    Close,
}

/// The queue entry that does what the command asks for, where one does.
pub open spec fn ready_item_of(command: LoopCommand) -> Option<ReadyItem> {
    match command {
        LoopCommand::ScheduleReady(callback) => Some(ReadyItem::Callback(callback)),
        LoopCommand::Future(LoopFutureCommand::SetResult { future, value }) => Some(
            ReadyItem::FutureSetResult { future, value },
        ),
        LoopCommand::Future(LoopFutureCommand::SetException { future, value }) => Some(
            ReadyItem::FutureSetException { future, value },
        ),
        LoopCommand::Transport(LoopTransportCommand::StreamRead(core)) => Some(
            ReadyItem::StreamTransportRead(core),
        ),
        LoopCommand::Transport(LoopTransportCommand::Process(core)) => Some(
            ReadyItem::ProcessTransport(core),
        ),
        LoopCommand::Transport(LoopTransportCommand::ServerAccepted { server, stream }) => Some(
            ReadyItem::ServerAccepted { server, stream },
        ),
        LoopCommand::RequestStop => Some(ReadyItem::Stop),
        _ => None,
    }
}

/// The command that asks for the queue entry.
pub open spec fn command_of(item: ReadyItem) -> LoopCommand {
    match item {
        ReadyItem::Stop => LoopCommand::RequestStop,
        ReadyItem::Callback(callback) => LoopCommand::ScheduleReady(callback),
        ReadyItem::FutureSetResult { future, value } => LoopCommand::Future(
            LoopFutureCommand::SetResult { future, value },
        ),
        ReadyItem::FutureSetException { future, value } => LoopCommand::Future(
            LoopFutureCommand::SetException { future, value },
        ),
        ReadyItem::StreamTransportRead(core) => LoopCommand::Transport(
            LoopTransportCommand::StreamRead(core),
        ),
        ReadyItem::ProcessTransport(core) => LoopCommand::Transport(
            LoopTransportCommand::Process(core),
        ),
        ReadyItem::ServerAccepted { server, stream } => LoopCommand::Transport(
            LoopTransportCommand::ServerAccepted { server, stream },
        ),
    }
}

impl LoopCommand {
    pub fn ready_item(&self) -> (item: Option<ReadyItem>)
        ensures
            item == ready_item_of(*self),
    {
        match *self {
            LoopCommand::ScheduleReady(callback) => Some(ReadyItem::Callback(callback)),
            LoopCommand::Future(LoopFutureCommand::SetResult { future, value }) => Some(
                ReadyItem::FutureSetResult { future, value },
            ),
            LoopCommand::Future(LoopFutureCommand::SetException { future, value }) => Some(
                ReadyItem::FutureSetException { future, value },
            ),
            LoopCommand::Transport(LoopTransportCommand::StreamRead(core)) => Some(
                ReadyItem::StreamTransportRead(core),
            ),
            LoopCommand::Transport(LoopTransportCommand::Process(core)) => Some(
                ReadyItem::ProcessTransport(core),
            ),
            LoopCommand::Transport(LoopTransportCommand::ServerAccepted { server, stream }) => Some(
                ReadyItem::ServerAccepted { server, stream },
            ),
            LoopCommand::RequestStop => Some(ReadyItem::Stop),
            _ => None,
        }
    }
}

impl ReadyItem {
    pub fn into_command(self) -> (command: LoopCommand)
        ensures
            command == command_of(self),
    {
        match self {
            ReadyItem::Stop => LoopCommand::RequestStop,
            ReadyItem::Callback(callback) => LoopCommand::ScheduleReady(callback),
            ReadyItem::FutureSetResult { future, value } => LoopCommand::Future(
                LoopFutureCommand::SetResult { future, value },
            ),
            ReadyItem::FutureSetException { future, value } => LoopCommand::Future(
                LoopFutureCommand::SetException { future, value },
            ),
            ReadyItem::StreamTransportRead(core) => LoopCommand::Transport(
                LoopTransportCommand::StreamRead(core),
            ),
            ReadyItem::ProcessTransport(core) => LoopCommand::Transport(
                LoopTransportCommand::Process(core),
            ),
            ReadyItem::ServerAccepted { server, stream } => LoopCommand::Transport(
                LoopTransportCommand::ServerAccepted { server, stream },
            ),
        }
    }
}

/// Commands and queue entries name each other: a command that could not be queued is handed back
/// as it was.
pub proof fn law_items_and_commands_are_inverse(command: LoopCommand, item: ReadyItem)
    ensures
        ready_item_of(command_of(item)) == Some(item),
        ready_item_of(command) == Some(item) <==> command_of(item) == command,
{
}

} // verus!
