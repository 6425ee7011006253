//! The loops that read from sockets and accept connections, one step at a time.

use vstd::prelude::*;
use crate::read_events::PendingReadEvent;

verus! {

/// How long a blocking poll waits, in milliseconds.
pub const BLOCKING_POLL_INTERVAL_MS: i32 = 50;

/// So much is read at once.
pub const STREAM_READ_BUFFER_SIZE: usize = 65_536;

/// The kinds of I/O errors that are told apart.
#[derive(Clone, Copy, PartialEq, Eq, Debug, Structural)]
pub enum IoErrorKind {
    WouldBlock,
    Interrupted,
    NotConnected,
    BrokenPipe,
    NotFound,
    TimedOut,
    UnexpectedEof,
    WriteZero,
    InvalidData,
    Other,
}

/// An I/O error: its kind and its text.
pub struct IoError {
    pub kind: IoErrorKind,
    pub text: String,
}

/// A call that did not fail but has to be made again.
pub open spec fn is_retry(kind: IoErrorKind) -> bool {
    kind is WouldBlock || kind is Interrupted
}

/// What shutting a socket comes to.
pub open spec fn shut_as_well(result: Result<(), IoError>) -> Result<(), IoError> {
    match result {
        Err(error) => if error.kind is NotConnected || error.kind is BrokenPipe {
            Ok(())
        } else {
            result
        },
        Ok(()) => Ok(()),
    }
}

/// What removing a socket from the file system comes to.
pub open spec fn removed_as_well(result: Result<(), IoError>) -> Result<(), IoError> {
    match result {
        Err(error) => if error.kind is NotFound {
            Ok(())
        } else {
            result
        },
        Ok(()) => Ok(()),
    }
}

/// A socket that the other side closed before is shut as well as any.
pub fn shutdown_stream(result: Result<(), IoError>) -> (done: Result<(), IoError>)
    ensures
        done == shut_as_well(result),
{
    match result {
        Ok(()) => Ok(()),
        Err(error) => match error.kind {
            IoErrorKind::NotConnected => Ok(()),
            IoErrorKind::BrokenPipe => Ok(()),
            _ => Err(error),
        },
    }
}

/// A socket that is not in the file system need not be removed from it.
pub fn remove_unix_socket_if_present(result: Result<(), IoError>) -> (done: Result<(), IoError>)
    ensures
        done == removed_as_well(result),
{
    match result {
        Ok(()) => Ok(()),
        Err(error) => match error.kind {
            IoErrorKind::NotFound => Ok(()),
            _ => Err(error),
        },
    }
}

/// Whatever is asked for is ready.
pub open spec fn all_ready(read: bool, write: bool, read_ready: bool, write_ready: bool) -> bool {
    (read ==> read_ready) && (write ==> write_ready)
}

/// A descriptor is ready for all that is asked for.
pub fn is_ready(read: bool, write: bool, read_ready: bool, write_ready: bool) -> (ready: bool)
    ensures
        ready == all_ready(read, write, read_ready, write_ready),
{
    (!read || read_ready) && (!write || write_ready)
}

/// What a reader does next.
pub enum ReaderAction {
    /// Wait until reading is not paused, or the transport closes.
    Wait,
    Poll,
    Read,
    /// Report the event, then go on.
    Report(PendingReadEvent),
    /// Report the event, then end.
    ReportAndFinish(PendingReadEvent),
    Finish,
}

/// What came of the action before.
pub enum ReaderEvent {
    /// The reader begins, or begins again.
    Again,
    Waited,
    /// Whether there is something to be read.
    Polled(bool),
    PollFailed(String),
    /// What was read. Nothing means that the stream ended.
    Received(Vec<u8>),
    ReadFailed(IoError),
}

/// What a reader meets at the moment.
#[derive(Clone, Copy, PartialEq, Eq, Debug, Structural)]
pub struct ReaderSituation {
    /// The reader was told to stop.
    pub stop: bool,
    /// The transport closes.
    pub closing: bool,
    /// The target can be polled.
    pub pollable: bool,
}

/// Where a reader begins.
pub open spec fn reader_begins(s: ReaderSituation) -> ReaderAction {
    if s.stop {
        ReaderAction::Finish
    } else if s.closing {
        ReaderAction::ReportAndFinish(PendingReadEvent::ConnectionLost(None))
    } else {
        ReaderAction::Wait
    }
}

/// What a reader does: it reports data, the end of the stream and the loss of the connection, and
/// goes on as long as neither the stream nor the transport ended.
pub open spec fn reader_does(event: ReaderEvent, s: ReaderSituation) -> ReaderAction {
    match event {
        ReaderEvent::Again => reader_begins(s),
        ReaderEvent::Waited => if s.closing {
            ReaderAction::ReportAndFinish(PendingReadEvent::ConnectionLost(None))
        } else if s.pollable {
            ReaderAction::Poll
        } else {
            ReaderAction::Read
        },
        ReaderEvent::Polled(ready) => if ready {
            ReaderAction::Read
        } else {
            reader_begins(s)
        },
        ReaderEvent::PollFailed(text) => ReaderAction::ReportAndFinish(
            PendingReadEvent::ConnectionLost(Some(text)),
        ),
        ReaderEvent::Received(data) => if data@.len() == 0 {
            ReaderAction::ReportAndFinish(PendingReadEvent::Eof)
        } else {
            ReaderAction::Report(PendingReadEvent::Data(data))
        },
        ReaderEvent::ReadFailed(error) => if is_retry(error.kind) {
            reader_begins(s)
        } else {
            ReaderAction::ReportAndFinish(PendingReadEvent::ConnectionLost(Some(error.text)))
        },
    }
}

fn begin_reading(s: ReaderSituation) -> (action: ReaderAction)
    ensures
        action == reader_begins(s),
{
    if s.stop {
        return ReaderAction::Finish;
    }
    if s.closing {
        return ReaderAction::ReportAndFinish(PendingReadEvent::ConnectionLost(None));
    }
    ReaderAction::Wait
}

/// One step of a reader.
pub fn run_stream_reader(event: ReaderEvent, s: ReaderSituation) -> (action: ReaderAction)
    ensures
        action == reader_does(event, s),
{
    match event {
        ReaderEvent::Again => begin_reading(s),
        ReaderEvent::Waited => {
            if s.closing {
                ReaderAction::ReportAndFinish(PendingReadEvent::ConnectionLost(None))
            } else if s.pollable {
                ReaderAction::Poll
            } else {
                ReaderAction::Read
            }
        },
        ReaderEvent::Polled(ready) => {
            if ready {
                ReaderAction::Read
            } else {
                begin_reading(s)
            }
        },
        ReaderEvent::PollFailed(text) => ReaderAction::ReportAndFinish(
            PendingReadEvent::ConnectionLost(Some(text)),
        ),
        ReaderEvent::Received(data) => {
            if data.len() == 0 {
                ReaderAction::ReportAndFinish(PendingReadEvent::Eof)
            } else {
                ReaderAction::Report(PendingReadEvent::Data(data))
            }
        },
        ReaderEvent::ReadFailed(error) => match error.kind {
            IoErrorKind::WouldBlock => begin_reading(s),
            IoErrorKind::Interrupted => begin_reading(s),
            _ => ReaderAction::ReportAndFinish(
                PendingReadEvent::ConnectionLost(Some(error.text)),
            ),
        },
    }
}

/// The reason of the loss where the runtime thread cannot watch the socket.
pub fn attach_failed_message() -> (text: &'static str)
    ensures
        text@ == "failed to attach socket reader"@,
{
    "failed to attach socket reader"
}

/// A reader that ends has reported it, unless it was told to stop.
pub proof fn law_reader_reports_its_end(event: ReaderEvent, s: ReaderSituation)
    requires
        reader_does(event, s) is Finish,
    ensures
        s.stop,
{
}

/// The family of the sockets that a server accepts.
#[derive(Clone, Copy, PartialEq, Eq, Debug, Structural)]
pub enum ListenerKind {
    Tcp,
    Unix,
}

/// What is reported of a server that cannot accept.
#[derive(Clone, Copy, PartialEq, Eq, Debug, Structural)]
pub enum AcceptFailure {
    Accept,
    Configure,
    Spawn,
}

/// The message under which it is reported.
pub fn accept_failure_message(kind: ListenerKind, failure: AcceptFailure) -> (text: &'static str)
    ensures
        text@ == match (kind, failure) {
            (ListenerKind::Tcp, AcceptFailure::Accept) => "TCP server accept failed"@,
            (ListenerKind::Tcp, AcceptFailure::Configure) => "failed to configure TCP connection"@,
            (ListenerKind::Tcp, AcceptFailure::Spawn) => "failed to accept TCP connection"@,
            (ListenerKind::Unix, AcceptFailure::Accept) => "Unix server accept failed"@,
            (ListenerKind::Unix, AcceptFailure::Configure) =>
                "failed to configure Unix connection"@,
            (ListenerKind::Unix, AcceptFailure::Spawn) => "failed to accept Unix connection"@,
        },
{
    match (kind, failure) {
        (ListenerKind::Tcp, AcceptFailure::Accept) => "TCP server accept failed",
        (ListenerKind::Tcp, AcceptFailure::Configure) => "failed to configure TCP connection",
        (ListenerKind::Tcp, AcceptFailure::Spawn) => "failed to accept TCP connection",
        (ListenerKind::Unix, AcceptFailure::Accept) => "Unix server accept failed",
        (ListenerKind::Unix, AcceptFailure::Configure) => "failed to configure Unix connection",
        (ListenerKind::Unix, AcceptFailure::Spawn) => "failed to accept Unix connection",
    }
}

/// What an accept loop does next.
#[derive(Clone, Copy, PartialEq, Eq, Debug, Structural)]
pub enum AcceptAction {
    Poll,
    Accept,
    /// Prepare the new connection.
    Configure,
    /// Make a transport of it.
    Spawn,
    /// Report the failure, then accept the next one.
    Report(AcceptFailure),
    /// Report the failure, then end.
    ReportAndFinish(AcceptFailure),
    Finish,
}

/// What came of the action before.
#[derive(Clone, Copy, PartialEq, Eq, Debug, Structural)]
pub enum AcceptEvent {
    /// The loop begins, or begins again.
    Again,
    /// Whether a connection waits.
    Polled(bool),
    PollFailed,
    Accepted,
    AcceptFailed(IoErrorKind),
    Configured(bool),
    /// A transport was made, or the failure was reported.
    Spawned,
}

/// Where an accept loop begins.
pub open spec fn accept_begins(stop: bool, closed: bool) -> AcceptAction {
    if stop || closed {
        AcceptAction::Finish
    } else {
        AcceptAction::Poll
    }
}

/// An error of a server that is closed is nobody's concern.
pub open spec fn accept_fails(closed: bool) -> AcceptAction {
    if closed {
        AcceptAction::Finish
    } else {
        AcceptAction::ReportAndFinish(AcceptFailure::Accept)
    }
}

/// What an accept loop does: it accepts until no connection waits, then polls again. A connection
/// that cannot be prepared is reported and passed over; an error ends the loop.
pub open spec fn acceptor_does(event: AcceptEvent, stop: bool, closed: bool) -> AcceptAction {
    match event {
        AcceptEvent::Again => accept_begins(stop, closed),
        AcceptEvent::Polled(ready) => if ready {
            AcceptAction::Accept
        } else {
            accept_begins(stop, closed)
        },
        AcceptEvent::PollFailed => accept_fails(closed),
        AcceptEvent::Accepted => AcceptAction::Configure,
        AcceptEvent::AcceptFailed(kind) => if kind is WouldBlock {
            accept_begins(stop, closed)
        } else {
            accept_fails(closed)
        },
        AcceptEvent::Configured(ok) => if ok {
            AcceptAction::Spawn
        } else {
            AcceptAction::Report(AcceptFailure::Configure)
        },
        AcceptEvent::Spawned => AcceptAction::Accept,
    }
}

/// One step of an accept loop.
pub fn run_accept_loop(event: AcceptEvent, stop: bool, closed: bool) -> (action: AcceptAction)
    ensures
        action == acceptor_does(event, stop, closed),
{
    let begin = if stop || closed {
        AcceptAction::Finish
    } else {
        AcceptAction::Poll
    };
    let fail = if closed {
        AcceptAction::Finish
    } else {
        AcceptAction::ReportAndFinish(AcceptFailure::Accept)
    };
    match event {
        AcceptEvent::Again => begin,
        AcceptEvent::Polled(ready) => if ready {
            AcceptAction::Accept
        } else {
            begin
        },
        AcceptEvent::PollFailed => fail,
        AcceptEvent::Accepted => AcceptAction::Configure,
        AcceptEvent::AcceptFailed(kind) => match kind {
            IoErrorKind::WouldBlock => begin,
            _ => fail,
        },
        AcceptEvent::Configured(ok) => if ok {
            AcceptAction::Spawn
        } else {
            AcceptAction::Report(AcceptFailure::Configure)
        },
        AcceptEvent::Spawned => AcceptAction::Accept,
    }
}

} // verus!
