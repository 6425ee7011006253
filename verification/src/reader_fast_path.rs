//! Short cuts from a transport into a stream reader, past the methods of the protocol.

use vstd::prelude::*;
use crate::objects::ObjectId;
use crate::stream_protocol::{settling_call, FutureCall};

verus! {

/// The reader behind a protocol.
#[derive(Clone, Copy, PartialEq, Eq, Debug, Structural)]
pub enum StreamReaderFastPath {
    /// A protocol and a reader of this library.
    Native { protocol: ObjectId, reader: ObjectId },
    /// A reader with the attributes of `asyncio.StreamReader`, the buffer that it had when it was
    /// looked at, and the protocol that owns it.
    Generic { owner: Option<ObjectId>, reader: ObjectId, buffer: ObjectId, limit: usize },
}

/// What kind of reader a protocol turned out to have.
#[derive(Clone, Copy, PartialEq, Eq, Debug, Structural)]
pub enum FastPathChoice {
    Native,
    Generic(ObjectId),
    Absent,
}

/// The short cut into a protocol's reader.
pub open spec fn fast_path_of(
    is_native: bool,
    offered_reader: Option<ObjectId>,
    is_asyncio_protocol: bool,
    asyncio_reader: Option<ObjectId>,
) -> FastPathChoice {
    if is_native {
        FastPathChoice::Native
    } else {
        match offered_reader {
            Some(reader) => FastPathChoice::Generic(reader),
            None => match asyncio_reader {
                Some(reader) if is_asyncio_protocol => FastPathChoice::Generic(reader),
                _ => FastPathChoice::Absent,
            },
        }
    }
}

/// A protocol of this library comes first, then a reader that the protocol offers itself, then the
/// reader of asyncio's own stream protocol. A reader that is `None` is none.
pub fn stream_reader_fast_path(
    is_native: bool,
    offered_reader: Option<ObjectId>,
    is_asyncio_protocol: bool,
    asyncio_reader: Option<ObjectId>,
) -> (choice: FastPathChoice)
    ensures
        choice == fast_path_of(is_native, offered_reader, is_asyncio_protocol, asyncio_reader),
{
    if is_native {
        return FastPathChoice::Native;
    }
    if let Some(reader) = offered_reader {
        return FastPathChoice::Generic(reader);
    }
    if !is_asyncio_protocol {
        return FastPathChoice::Absent;
    }
    match asyncio_reader {
        Some(reader) => FastPathChoice::Generic(reader),
        None => FastPathChoice::Absent,
    }
}

/// What the protocol's `_client_connected_cb` turned out to be.
#[derive(Clone, Copy, PartialEq, Eq, Debug, Structural)]
pub enum ClientCallback {
    /// The attribute could not be read.
    Unreadable,
    Absent,
    Present,
}

/// How a new connection is handled.
#[derive(Clone, Copy, PartialEq, Eq, Debug, Structural)]
pub enum FastMadeStep {
    /// By the native protocol.
    Native(ObjectId),
    /// By the method of the protocol, since there is a callback to be called.
    CallProtocol,
    /// The transport is set on the reader, then on the protocol.
    Attach { reader: ObjectId, protocol: Option<ObjectId> },
}

/// How a new connection is handled.
pub open spec fn fast_made(path: StreamReaderFastPath, callback: ClientCallback) -> FastMadeStep {
    match path {
        StreamReaderFastPath::Native { protocol, .. } => FastMadeStep::Native(protocol),
        StreamReaderFastPath::Generic { owner: protocol, reader, .. } => if protocol is Some && !(
        callback is Absent) {
            FastMadeStep::CallProtocol
        } else {
            FastMadeStep::Attach { reader, protocol }
        },
    }
}

impl StreamReaderFastPath {
    pub fn connection_made(&self, callback: ClientCallback) -> (step: FastMadeStep)
        ensures
            step == fast_made(*self, callback),
    {
        match *self {
            StreamReaderFastPath::Native { protocol, .. } => FastMadeStep::Native(protocol),
            StreamReaderFastPath::Generic { owner: protocol, reader, .. } => {
                let has_callback = match callback {
                    ClientCallback::Absent => false,
                    _ => true,
                };
                if protocol.is_some() && has_callback {
                    return FastMadeStep::CallProtocol;
                }
                FastMadeStep::Attach { reader, protocol }
            },
        }
    }
}

/// What happens next when data is fed to a generic reader.
#[derive(Clone, Copy, PartialEq, Eq, Debug, Structural)]
pub enum FeedAction {
    AskEof,
    /// Append the data to the buffer of the short cut.
    Append,
    AskWaiter,
    /// Set the reader's waiter to `None`.
    ClearWaiter(ObjectId),
    AskCancelled(ObjectId),
    Settle(FutureCall),
    /// Ask for the reader's transport and whether it is paused.
    AskTransport,
    PauseReading(ObjectId),
    MarkPaused,
    /// Set the reader's transport to `None`.
    DropTransport,
    Finish,
    /// Raise: the stream ended before.
    FailAfterEof,
    Raise(ObjectId),
}

/// What came of the action before.
#[derive(Clone, Copy, PartialEq, Eq, Debug, Structural)]
pub enum FeedEvent {
    Begin,
    Eof(bool),
    /// The data was appended; so many bytes are buffered now.
    Appended(usize),
    Waiter(Option<ObjectId>),
    WaiterCleared(ObjectId),
    Cancelled(ObjectId, bool),
    Settled,
    Transport { transport: Option<ObjectId>, paused: bool },
    ReadingPaused,
    PauseNotImplemented,
    Marked,
    Raised(ObjectId),
}

/// Data on its way into a generic reader.
#[derive(Clone, Copy, PartialEq, Eq, Debug, Structural)]
pub struct GenericFeed {
    pub limit: usize,
    pub data_len: usize,
    pub buffered: usize,
}

/// The text of the error.
pub fn feed_after_eof_message() -> (text: &'static str)
    ensures
        text@ == "feed_data after feed_eof"@,
{
    "feed_data after feed_eof"
}

/// One step of feeding data to a generic reader.
pub open spec fn feed_step(feed: GenericFeed, event: FeedEvent) -> (GenericFeed, FeedAction) {
    (
        match event {
            FeedEvent::Appended(buffered) => GenericFeed { buffered, ..feed },
            _ => feed,
        },
        match event {
            FeedEvent::Begin => if feed.data_len == 0 {
                FeedAction::Finish
            } else {
                FeedAction::AskEof
            },
            FeedEvent::Eof(true) => FeedAction::FailAfterEof,
            FeedEvent::Eof(false) => FeedAction::Append,
            FeedEvent::Appended(_) => FeedAction::AskWaiter,
            FeedEvent::Waiter(Some(waiter)) => FeedAction::ClearWaiter(waiter),
            FeedEvent::Waiter(None) => FeedAction::AskTransport,
            FeedEvent::WaiterCleared(waiter) => FeedAction::AskCancelled(waiter),
            FeedEvent::Cancelled(waiter, false) => FeedAction::Settle(FutureCall::SetNone(waiter)),
            FeedEvent::Cancelled(_, true) => FeedAction::AskTransport,
            FeedEvent::Settled => FeedAction::AskTransport,
            FeedEvent::Transport { transport: Some(transport), paused: false } => if feed.buffered
                > 2 * feed.limit {
                FeedAction::PauseReading(transport)
            } else {
                FeedAction::Finish
            },
            FeedEvent::Transport { .. } => FeedAction::Finish,
            FeedEvent::ReadingPaused => FeedAction::MarkPaused,
            FeedEvent::PauseNotImplemented => FeedAction::DropTransport,
            FeedEvent::Marked => FeedAction::Finish,
            FeedEvent::Raised(raised) => FeedAction::Raise(raised),
        },
    )
}

impl GenericFeed {
    /// Empty data changes nothing. Data after the end of the stream is an error. Otherwise it is
    /// appended, a waiter that was not cancelled is woken, and a transport that is not paused is
    /// paused once twice the limit is exceeded. A transport that cannot be paused is let go of.
    pub fn step(&mut self, event: FeedEvent) -> (action: FeedAction)
        ensures
            (*final(self), action) == feed_step(*old(self), event),
    {
        match event {
            FeedEvent::Begin => if self.data_len == 0 {
                FeedAction::Finish
            } else {
                FeedAction::AskEof
            },
            FeedEvent::Eof(ended) => if ended {
                FeedAction::FailAfterEof
            } else {
                FeedAction::Append
            },
            FeedEvent::Appended(buffered) => {
                self.buffered = buffered;
                FeedAction::AskWaiter
            },
            FeedEvent::Waiter(waiter) => match waiter {
                Some(waiter) => FeedAction::ClearWaiter(waiter),
                None => FeedAction::AskTransport,
            },
            FeedEvent::WaiterCleared(waiter) => FeedAction::AskCancelled(waiter),
            FeedEvent::Cancelled(waiter, cancelled) => if cancelled {
                FeedAction::AskTransport
            } else {
                FeedAction::Settle(FutureCall::SetNone(waiter))
            },
            FeedEvent::Settled => FeedAction::AskTransport,
            FeedEvent::Transport { transport, paused } => match transport {
                Some(transport) => if !paused && self.buffered > self.limit && self.buffered
                    - self.limit > self.limit {
                    FeedAction::PauseReading(transport)
                } else {
                    FeedAction::Finish
                },
                None => FeedAction::Finish,
            },
            FeedEvent::ReadingPaused => FeedAction::MarkPaused,
            FeedEvent::PauseNotImplemented => FeedAction::DropTransport,
            FeedEvent::Marked => FeedAction::Finish,
            FeedEvent::Raised(raised) => FeedAction::Raise(raised),
        }
    }
}

/// What happens next when a generic reader is told of the end, or of the loss of the connection.
#[derive(Clone, Copy, PartialEq, Eq, Debug, Structural)]
pub enum EndAction {
    /// Mark the protocol as having lost its connection.
    MarkLost(ObjectId),
    /// Set the reader's exception, or mark the end of its stream where there is none.
    MarkReader { reader: ObjectId, exception: Option<ObjectId> },
    AskWaiter,
    ClearWaiter(ObjectId),
    AskCancelled(ObjectId),
    Settle(FutureCall),
    /// Ask for the protocol's `_closed` future and whether it is done.
    AskClosed(ObjectId),
    /// Ask whether the protocol is paused.
    AskPaused(ObjectId),
    /// Settle everyone who waits in `drain`, each as `settle_drain_waiter` says.
    SettleDrainWaiters { protocol: ObjectId, exception: Option<ObjectId> },
    /// Set the protocol's transport and task to `None`.
    Forget(ObjectId),
    Finish,
    Raise(ObjectId),
}

/// What came of the action before.
#[derive(Clone, Copy, PartialEq, Eq, Debug, Structural)]
pub enum EndEvent {
    Begin,
    LostMarked,
    ReaderMarked,
    Waiter(Option<ObjectId>),
    WaiterCleared(ObjectId),
    Cancelled(ObjectId, bool),
    WaiterSettled,
    Closed { future: ObjectId, done: bool },
    ClosedSettled,
    Paused(bool),
    DrainWaitersSettled,
    Forgotten,
    Raised(ObjectId),
}

/// The end of a stream, or the loss of a connection, on its way to a generic reader. A mere end
/// concerns the reader alone.
#[derive(Clone, Copy, PartialEq, Eq, Debug, Structural)]
pub struct GenericEnd {
    pub reader: ObjectId,
    /// There where the connection was lost, and there is a protocol.
    pub protocol: Option<ObjectId>,
    pub exception: Option<ObjectId>,
}

/// What follows once the reader knows.
pub open spec fn after_reader(end: GenericEnd) -> EndAction {
    match end.protocol {
        Some(protocol) => EndAction::AskClosed(protocol),
        None => EndAction::Finish,
    }
}

/// One step of telling a generic reader.
pub open spec fn end_step(end: GenericEnd, event: EndEvent) -> EndAction {
    match event {
        EndEvent::Begin => match end.protocol {
            Some(protocol) => EndAction::MarkLost(protocol),
            None => EndAction::MarkReader { reader: end.reader, exception: end.exception },
        },
        EndEvent::LostMarked => EndAction::MarkReader {
            reader: end.reader,
            exception: end.exception,
        },
        EndEvent::ReaderMarked => EndAction::AskWaiter,
        EndEvent::Waiter(Some(waiter)) => EndAction::ClearWaiter(waiter),
        EndEvent::Waiter(None) => after_reader(end),
        EndEvent::WaiterCleared(waiter) => EndAction::AskCancelled(waiter),
        EndEvent::Cancelled(waiter, false) => EndAction::Settle(
            settling_call(waiter, end.exception),
        ),
        EndEvent::Cancelled(_, true) => after_reader(end),
        EndEvent::WaiterSettled => after_reader(end),
        EndEvent::Closed { future, done: false } => EndAction::Settle(
            settling_call(future, end.exception),
        ),
        EndEvent::Closed { done: true, .. } => match end.protocol {
            Some(protocol) => EndAction::AskPaused(protocol),
            None => EndAction::Finish,
        },
        EndEvent::ClosedSettled => match end.protocol {
            Some(protocol) => EndAction::AskPaused(protocol),
            None => EndAction::Finish,
        },
        EndEvent::Paused(paused) => match end.protocol {
            Some(protocol) => if paused {
                EndAction::SettleDrainWaiters { protocol, exception: end.exception }
            } else {
                EndAction::Forget(protocol)
            },
            None => EndAction::Finish,
        },
        EndEvent::DrainWaitersSettled => match end.protocol {
            Some(protocol) => EndAction::Forget(protocol),
            None => EndAction::Finish,
        },
        EndEvent::Forgotten => EndAction::Finish,
        EndEvent::Raised(raised) => EndAction::Raise(raised),
    }
}

impl GenericEnd {
    fn after_reader(&self) -> (action: EndAction)
        ensures
            action == after_reader(*self),
    {
        match self.protocol {
            Some(protocol) => EndAction::AskClosed(protocol),
            None => EndAction::Finish,
        }
    }

    fn settle(&self, future: ObjectId) -> (call: FutureCall)
        ensures
            call == settling_call(future, self.exception),
    {
        match self.exception {
            Some(exception) => FutureCall::SetException(future, exception),
            None => FutureCall::SetNone(future),
        }
    }

    /// The protocol is marked first, then the reader. A waiter that was not cancelled is settled,
    /// then the protocol's `_closed` future unless it is done, then, where the protocol is paused,
    /// everyone in `drain`; at last the protocol lets the transport go.
    pub fn step(&self, event: EndEvent) -> (action: EndAction)
        ensures
            action == end_step(*self, event),
    {
        match event {
            EndEvent::Begin => match self.protocol {
                Some(protocol) => EndAction::MarkLost(protocol),
                None => EndAction::MarkReader { reader: self.reader, exception: self.exception },
            },
            EndEvent::LostMarked => EndAction::MarkReader {
                reader: self.reader,
                exception: self.exception,
            },
            EndEvent::ReaderMarked => EndAction::AskWaiter,
            EndEvent::Waiter(waiter) => match waiter {
                Some(waiter) => EndAction::ClearWaiter(waiter),
                None => self.after_reader(),
            },
            EndEvent::WaiterCleared(waiter) => EndAction::AskCancelled(waiter),
            EndEvent::Cancelled(waiter, cancelled) => if cancelled {
                self.after_reader()
            } else {
                EndAction::Settle(self.settle(waiter))
            },
            EndEvent::WaiterSettled => self.after_reader(),
            EndEvent::Closed { future, done } => if !done {
                EndAction::Settle(self.settle(future))
            } else {
                match self.protocol {
                    Some(protocol) => EndAction::AskPaused(protocol),
                    None => EndAction::Finish,
                }
            },
            EndEvent::ClosedSettled => match self.protocol {
                Some(protocol) => EndAction::AskPaused(protocol),
                None => EndAction::Finish,
            },
            EndEvent::Paused(paused) => match self.protocol {
                Some(protocol) => if paused {
                    EndAction::SettleDrainWaiters { protocol, exception: self.exception }
                } else {
                    EndAction::Forget(protocol)
                },
                None => EndAction::Finish,
            },
            EndEvent::DrainWaitersSettled => match self.protocol {
                Some(protocol) => EndAction::Forget(protocol),
                None => EndAction::Finish,
            },
            EndEvent::Forgotten => EndAction::Finish,
            EndEvent::Raised(raised) => EndAction::Raise(raised),
        }
    }
}

/// How a loss is told through a short cut.
#[derive(Clone, Copy, PartialEq, Eq, Debug, Structural)]
pub enum FastLostStep {
    /// To the native protocol.
    Native(ObjectId),
    /// To nobody: there is no protocol.
    Nobody,
    Generic(GenericEnd),
}

/// How a loss is told.
pub open spec fn fast_lost(path: StreamReaderFastPath, exception: Option<ObjectId>) -> FastLostStep {
    match path {
        StreamReaderFastPath::Native { protocol, .. } => FastLostStep::Native(protocol),
        StreamReaderFastPath::Generic { owner: None, .. } => FastLostStep::Nobody,
        StreamReaderFastPath::Generic { owner: protocol, reader, .. } => FastLostStep::Generic(
            GenericEnd { reader, protocol, exception },
        ),
    }
}

/// How the end of the stream is told to a generic reader.
pub open spec fn fast_eof(path: StreamReaderFastPath) -> Option<GenericEnd> {
    match path {
        StreamReaderFastPath::Native { .. } => None,
        StreamReaderFastPath::Generic { reader, .. } => Some(
            GenericEnd { reader, protocol: None, exception: None },
        ),
    }
}

impl StreamReaderFastPath {
    pub fn connection_lost(&self, exception: Option<ObjectId>) -> (step: FastLostStep)
        ensures
            step == fast_lost(*self, exception),
    {
        match *self {
            StreamReaderFastPath::Native { protocol, .. } => FastLostStep::Native(protocol),
            StreamReaderFastPath::Generic { owner: protocol, reader, .. } => {
                if protocol.is_none() {
                    return FastLostStep::Nobody;
                }
                FastLostStep::Generic(GenericEnd { reader, protocol, exception })
            },
        }
    }

    /// The end of the stream as a generic reader is told of it.
    pub fn feed_eof(&self) -> (end: Option<GenericEnd>)
        ensures
            end == fast_eof(*self),
    {
        match *self {
            StreamReaderFastPath::Native { .. } => None,
            StreamReaderFastPath::Generic { reader, .. } => Some(
                GenericEnd { reader, protocol: None, exception: None },
            ),
        }
    }
}

} // verus!
