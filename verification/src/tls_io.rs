//! The handshake, the records and the end of a TLS connection, one step at a time.

use vstd::prelude::*;
use crate::read_events::PendingReadEvent;
use crate::stream_io::{is_retry, IoError, IoErrorKind};

verus! {

/// What a TLS connection is about.
#[derive(Clone, Copy, PartialEq, Eq, Debug, Structural)]
pub struct TlsStatus {
    pub handshaking: bool,
    pub wants_read: bool,
    pub wants_write: bool,
}

/// What the handshake needs next.
#[derive(Clone, Copy, PartialEq, Eq, Debug, Structural)]
pub enum HandshakeAction {
    /// Send what is left, then the handshake is done.
    FlushAndFinish,
    Finish,
    Flush,
    /// Wait for the socket, then read from it.
    Read,
    /// Wait a little.
    Sleep,
    TimedOut,
}

/// What the handshake needs next. Sending comes before reading.
pub open spec fn handshake_needs(status: TlsStatus) -> HandshakeAction {
    if !status.handshaking {
        if status.wants_write {
            HandshakeAction::FlushAndFinish
        } else {
            HandshakeAction::Finish
        }
    } else if status.wants_write {
        HandshakeAction::Flush
    } else if status.wants_read {
        HandshakeAction::Read
    } else {
        HandshakeAction::Sleep
    }
}

pub fn tls_handshake_step(status: TlsStatus) -> (action: HandshakeAction)
    ensures
        action == handshake_needs(status),
{
    if !status.handshaking {
        if status.wants_write {
            return HandshakeAction::FlushAndFinish;
        }
        return HandshakeAction::Finish;
    }
    if status.wants_write {
        return HandshakeAction::Flush;
    }
    if status.wants_read {
        return HandshakeAction::Read;
    }
    HandshakeAction::Sleep
}

/// The same under a deadline, which is looked at before each step.
pub open spec fn handshake_goes_on(now: u128, deadline: u128, status: TlsStatus) -> HandshakeAction {
    if now >= deadline {
        HandshakeAction::TimedOut
    } else {
        handshake_needs(status)
    }
}

/// One step of a handshake. Times are in nanoseconds.
pub fn complete_tls_handshake(now: u128, deadline: u128, status: TlsStatus) -> (action:
    HandshakeAction)
    ensures
        action == handshake_goes_on(now, deadline, status),
{
    if now >= deadline {
        return HandshakeAction::TimedOut;
    }
    tls_handshake_step(status)
}

/// The error of a handshake that took too long.
pub fn handshake_timeout() -> (error: IoError)
    ensures
        error.kind is TimedOut,
        error.text@ == "TLS handshake timed out"@,
{
    IoError { kind: IoErrorKind::TimedOut, text: "TLS handshake timed out".to_owned() }
}

/// The stream ended in the middle of the handshake.
pub open spec fn breaks_the_handshake(received: usize, handshaking: bool) -> bool {
    received == 0 && handshaking
}

/// The other side must not end the stream in the middle of the handshake.
pub fn continue_tls_handshake_read(received: usize, handshaking: bool) -> (done: Result<(), IoError>)
    ensures
        match done {
            Ok(()) => !breaks_the_handshake(received, handshaking),
            Err(error) => breaks_the_handshake(received, handshaking) && error.kind is UnexpectedEof
                && error.text@ == "TLS handshake ended before completion"@,
        },
{
    if received == 0 && handshaking {
        return Err(
            IoError {
                kind: IoErrorKind::UnexpectedEof,
                text: "TLS handshake ended before completion".to_owned(),
            },
        );
    }
    Ok(())
}

/// What sending records needs next.
pub enum FlushAction {
    Write,
    /// Wait until the socket can be written to.
    WaitWritable,
    Finish,
    Fail(IoError),
}

/// More is sent as long as there is more.
pub open spec fn flush_needs(wants_write: bool) -> FlushAction {
    if wants_write {
        FlushAction::Write
    } else {
        FlushAction::Finish
    }
}

/// What sending records comes to.
pub open spec fn is_flush_step(
    sent: Option<Result<usize, IoError>>,
    wants_write: bool,
    action: FlushAction,
) -> bool {
    match sent {
        None => action == flush_needs(wants_write),
        Some(Ok(n)) => if n == 0 {
            action is Fail && action->Fail_0.kind is WriteZero && action->Fail_0.text@
                == "failed to flush TLS records"@
        } else {
            action == flush_needs(wants_write)
        },
        Some(Err(error)) => action == if error.kind is WouldBlock {
            FlushAction::WaitWritable
        } else if error.kind is Interrupted {
            flush_needs(wants_write)
        } else {
            FlushAction::Fail(error)
        },
    }
}

/// What came of sending, or nothing at the start and after waiting.
pub fn flush_tls_io(sent: Option<Result<usize, IoError>>, wants_write: bool) -> (action: FlushAction)
    ensures
        is_flush_step(sent, wants_write, action),
{
    match sent {
        None => {},
        Some(Ok(n)) => {
            if n == 0 {
                return FlushAction::Fail(
                    IoError {
                        kind: IoErrorKind::WriteZero,
                        text: "failed to flush TLS records".to_owned(),
                    },
                );
            }
        },
        Some(Err(error)) => {
            match error.kind {
                IoErrorKind::WouldBlock => {
                    return FlushAction::WaitWritable;
                },
                IoErrorKind::Interrupted => {},
                _ => {
                    return FlushAction::Fail(error);
                },
            }
        },
    }
    if wants_write {
        FlushAction::Write
    } else {
        FlushAction::Finish
    }
}

/// The end of a wait that began now.
pub open spec fn end_of_wait(now: u128, timeout: u128, tellable: bool) -> int {
    if tellable && now + timeout <= u128::MAX {
        now + timeout
    } else {
        now as int
    }
}

/// The end of a wait that began now, in nanoseconds. `tellable` says whether the clock can tell that
/// time, which is the clock's to know. A wait whose end cannot be told ends at once.
pub fn close_deadline(now: u128, timeout: u128, tellable: bool) -> (deadline: u128)
    ensures
        deadline == end_of_wait(now, timeout, tellable),
{
    if !tellable {
        return now;
    }
    match now.checked_add(timeout) {
        Some(deadline) => deadline,
        None => now,
    }
}

/// The whole milliseconds between two times in nanoseconds, at least one.
pub open spec fn whole_millis(now: u128, deadline: u128) -> int {
    let millis = (deadline - now) / 1_000_000;
    if millis < 1 {
        1
    } else if millis > i32::MAX {
        i32::MAX as int
    } else {
        millis
    }
}

/// How long a poll may wait, in milliseconds, or the error of a wait that is over.
pub fn wait_socket_ready_until(now: u128, deadline: u128) -> (timeout: Result<i32, IoError>)
    ensures
        match timeout {
            Ok(millis) => now < deadline && millis == whole_millis(now, deadline),
            Err(error) => now >= deadline && error.kind is TimedOut && error.text@
                == "SSL shutdown timed out"@,
        },
{
    if now >= deadline {
        return Err(
            IoError { kind: IoErrorKind::TimedOut, text: "SSL shutdown timed out".to_owned() },
        );
    }
    let millis: u128 = (deadline - now) / 1_000_000;
    if millis < 1 {
        Ok(1)
    } else if millis > 2_147_483_647 {
        Ok(2_147_483_647)
    } else {
        Ok(millis as i32)
    }
}

/// The first of two results, unless it is good.
pub open spec fn first_error(flushed: Result<(), IoError>, shut: Result<(), IoError>) -> Result<
    (),
    IoError,
> {
    match flushed {
        Ok(()) => shut,
        Err(error) => Err(error),
    }
}

/// What ending a connection comes to: the error of sending its end, else that of shutting it.
pub fn close_tls_writer(flushed: Result<(), IoError>, shut: Result<(), IoError>) -> (closed: Result<
    (),
    IoError,
>)
    ensures
        closed == first_error(flushed, shut),
{
    match flushed {
        Ok(()) => shut,
        Err(error) => Err(error),
    }
}

/// What reading came to.
pub enum TlsReadOutcome {
    Continue,
    Eof,
    ConnectionLost(String),
}

/// What taking decrypted data out needs next.
pub enum PlaintextAction {
    Read,
    /// Report the data, then read again.
    Report(PendingReadEvent),
    /// Nothing is left. Whether there was something.
    Finish(bool),
    Fail(String),
}

/// One step of taking decrypted data out.
pub open spec fn plaintext_step(
    saw_data: bool,
    read: Option<Result<Vec<u8>, IoError>>,
) -> PlaintextAction {
    match read {
        None => PlaintextAction::Read,
        Some(Ok(data)) => if data@.len() == 0 {
            PlaintextAction::Finish(saw_data)
        } else {
            PlaintextAction::Report(PendingReadEvent::Data(data))
        },
        Some(Err(error)) => if error.kind is WouldBlock {
            PlaintextAction::Finish(saw_data)
        } else {
            PlaintextAction::Fail(error.text)
        },
    }
}

/// Takes decrypted data out until nothing is left. `saw_data` says whether there was some so far;
/// `read` is nothing at the start and after a report.
pub fn drain_tls_plaintext(saw_data: bool, read: Option<Result<Vec<u8>, IoError>>) -> (action:
    PlaintextAction)
    ensures
        action == plaintext_step(saw_data, read),
{
    match read {
        None => PlaintextAction::Read,
        Some(Ok(data)) => {
            if data.len() == 0 {
                PlaintextAction::Finish(saw_data)
            } else {
                PlaintextAction::Report(PendingReadEvent::Data(data))
            }
        },
        Some(Err(error)) => match error.kind {
            IoErrorKind::WouldBlock => PlaintextAction::Finish(saw_data),
            _ => PlaintextAction::Fail(error.text),
        },
    }
}

/// What follows when records were read from the socket.
pub enum RecordsAction {
    /// Process them and take the data out. The stream ended where `ended` says so; else answer
    /// first.
    Process { ended: bool },
    Outcome(TlsReadOutcome),
}

/// What follows when records were read.
pub open spec fn records_step(read: Result<usize, IoError>) -> RecordsAction {
    match read {
        Ok(n) => RecordsAction::Process { ended: n == 0 },
        Err(error) => if is_retry(error.kind) {
            RecordsAction::Outcome(TlsReadOutcome::Continue)
        } else {
            RecordsAction::Outcome(TlsReadOutcome::ConnectionLost(error.text))
        },
    }
}

/// What reading from the socket came to.
pub fn read_tls_records(read: Result<usize, IoError>) -> (action: RecordsAction)
    ensures
        action == records_step(read),
{
    match read {
        Ok(n) => RecordsAction::Process { ended: n == 0 },
        Err(error) => match error.kind {
            IoErrorKind::WouldBlock => RecordsAction::Outcome(TlsReadOutcome::Continue),
            IoErrorKind::Interrupted => RecordsAction::Outcome(TlsReadOutcome::Continue),
            _ => RecordsAction::Outcome(TlsReadOutcome::ConnectionLost(error.text)),
        },
    }
}

/// What reading came to, by what was taken out.
pub open spec fn outcome_of(ended: bool, drained: Result<bool, String>) -> TlsReadOutcome {
    match drained {
        Ok(saw_data) => if ended && !saw_data {
            TlsReadOutcome::Eof
        } else {
            TlsReadOutcome::Continue
        },
        Err(text) => TlsReadOutcome::ConnectionLost(text),
    }
}

/// What it comes to that the data was taken out: the end of the stream counts only when no data is
/// left before it.
pub fn records_outcome(ended: bool, drained: Result<bool, String>) -> (outcome: TlsReadOutcome)
    ensures
        outcome == outcome_of(ended, drained),
{
    match drained {
        Ok(saw_data) => if ended && !saw_data {
            TlsReadOutcome::Eof
        } else {
            TlsReadOutcome::Continue
        },
        Err(text) => TlsReadOutcome::ConnectionLost(text),
    }
}

/// What a TLS reader does next.
pub enum TlsReaderAction {
    /// Wait until reading is not paused, or the transport closes.
    Wait,
    /// Take out what was decrypted before.
    DrainBuffered,
    WaitSocket,
    ReadRecords,
    ReportAndFinish(PendingReadEvent),
    Finish,
}

/// What came of the action before.
pub enum TlsReaderEvent {
    Again,
    Waited,
    Drained(TlsReadOutcome),
    SocketReady,
    SocketFailed(String),
    Records(TlsReadOutcome),
}

/// Where a TLS reader begins.
pub open spec fn tls_reader_begins(stop: bool, closing: bool) -> TlsReaderAction {
    if stop {
        TlsReaderAction::Finish
    } else if closing {
        TlsReaderAction::ReportAndFinish(PendingReadEvent::ConnectionLost(None))
    } else {
        TlsReaderAction::Wait
    }
}

/// What a TLS reader does: it takes out what was decrypted before it reads from the socket again.
pub open spec fn tls_reader_does(event: TlsReaderEvent, stop: bool, closing: bool) -> TlsReaderAction {
    match event {
        TlsReaderEvent::Again => tls_reader_begins(stop, closing),
        TlsReaderEvent::Waited => if closing {
            TlsReaderAction::ReportAndFinish(PendingReadEvent::ConnectionLost(None))
        } else {
            TlsReaderAction::DrainBuffered
        },
        TlsReaderEvent::Drained(TlsReadOutcome::Continue) => tls_reader_begins(stop, closing),
        TlsReaderEvent::Drained(TlsReadOutcome::Eof) => TlsReaderAction::WaitSocket,
        TlsReaderEvent::Drained(TlsReadOutcome::ConnectionLost(text)) =>
            TlsReaderAction::ReportAndFinish(PendingReadEvent::ConnectionLost(Some(text))),
        TlsReaderEvent::SocketReady => TlsReaderAction::ReadRecords,
        TlsReaderEvent::SocketFailed(text) => TlsReaderAction::ReportAndFinish(
            PendingReadEvent::ConnectionLost(Some(text)),
        ),
        TlsReaderEvent::Records(TlsReadOutcome::Continue) => tls_reader_begins(stop, closing),
        TlsReaderEvent::Records(TlsReadOutcome::Eof) => TlsReaderAction::ReportAndFinish(
            PendingReadEvent::Eof,
        ),
        TlsReaderEvent::Records(TlsReadOutcome::ConnectionLost(text)) =>
            TlsReaderAction::ReportAndFinish(PendingReadEvent::ConnectionLost(Some(text))),
    }
}

/// One step of a TLS reader.
pub fn run_tls_reader(event: TlsReaderEvent, stop: bool, closing: bool) -> (action:
    TlsReaderAction)
    ensures
        action == tls_reader_does(event, stop, closing),
{
    let begin = if stop {
        TlsReaderAction::Finish
    } else if closing {
        TlsReaderAction::ReportAndFinish(PendingReadEvent::ConnectionLost(None))
    } else {
        TlsReaderAction::Wait
    };
    match event {
        TlsReaderEvent::Again => begin,
        TlsReaderEvent::Waited => if closing {
            TlsReaderAction::ReportAndFinish(PendingReadEvent::ConnectionLost(None))
        } else {
            TlsReaderAction::DrainBuffered
        },
        TlsReaderEvent::Drained(outcome) => match outcome {
            TlsReadOutcome::Continue => begin,
            TlsReadOutcome::Eof => TlsReaderAction::WaitSocket,
            TlsReadOutcome::ConnectionLost(text) => TlsReaderAction::ReportAndFinish(
                PendingReadEvent::ConnectionLost(Some(text)),
            ),
        },
        TlsReaderEvent::SocketReady => TlsReaderAction::ReadRecords,
        TlsReaderEvent::SocketFailed(text) => TlsReaderAction::ReportAndFinish(
            PendingReadEvent::ConnectionLost(Some(text)),
        ),
        TlsReaderEvent::Records(outcome) => match outcome {
            TlsReadOutcome::Continue => begin,
            TlsReadOutcome::Eof => TlsReaderAction::ReportAndFinish(PendingReadEvent::Eof),
            TlsReadOutcome::ConnectionLost(text) => TlsReaderAction::ReportAndFinish(
                PendingReadEvent::ConnectionLost(Some(text)),
            ),
        },
    }
}

/// A handshake is given up only at its deadline, and ends well only when the connection says so.
pub proof fn law_handshake_ends_with_the_connection(now: u128, deadline: u128, status: TlsStatus)
    ensures
        handshake_goes_on(now, deadline, status) is TimedOut <==> now >= deadline,
        (handshake_goes_on(now, deadline, status) is Finish || handshake_goes_on(
            now,
            deadline,
            status,
        ) is FlushAndFinish) <==> (now < deadline && !status.handshaking),
        handshake_goes_on(now, deadline, status) is Finish ==> !status.wants_write,
{
}

} // verus!
