//! What holds of the writer of a transport over any run of commands.

use vstd::prelude::*;
use crate::stream_io::IoError;
use crate::stream_writer::{
    fresh_writer, is_write_all_step, is_write_zero, writer_does, LossReason, Shutting,
    WriteAllAction, WriteAllEvent, WriterAction, WriterCommand, WriterEvent, WriterKind,
    WriterView,
};
use crate::write_buffer::OwnedWriteBuffer;

verus! {

/// The writer after a run of events, each with the word whether it has to stop.
pub open spec fn after_events(w: WriterView, events: Seq<(WriterEvent, bool)>) -> WriterView
    decreases events.len(),
{
    if events.len() == 0 {
        w
    } else {
        writer_does(after_events(w, events.drop_last()), events.last().0, events.last().1).0
    }
}

/// The buffer that comes with an event.
pub open spec fn buffer_given(event: WriterEvent) -> Seq<OwnedWriteBuffer> {
    match event {
        WriterEvent::Received(Some(WriterCommand::Data(buffer))) => seq![buffer],
        _ => Seq::empty(),
    }
}

/// The buffer that an action writes.
pub open spec fn buffer_written(action: WriterAction) -> Seq<OwnedWriteBuffer> {
    match action {
        WriterAction::Write(buffer) => seq![buffer],
        _ => Seq::empty(),
    }
}

/// All buffers that a run of events brings, in order.
pub open spec fn buffers_given(events: Seq<(WriterEvent, bool)>) -> Seq<OwnedWriteBuffer>
    decreases events.len(),
{
    if events.len() == 0 {
        Seq::empty()
    } else {
        buffers_given(events.drop_last()) + buffer_given(events.last().0)
    }
}

/// All buffers that the writer writes in a run of events, in order.
pub open spec fn buffers_written(w: WriterView, events: Seq<(WriterEvent, bool)>) -> Seq<
    OwnedWriteBuffer,
>
    decreases events.len(),
{
    if events.len() == 0 {
        Seq::empty()
    } else {
        buffers_written(w, events.drop_last()) + buffer_written(
            writer_does(
                after_events(w, events.drop_last()),
                events.last().0,
                events.last().1,
            ).1,
        )
    }
}

/// No data is held back: that is for other commands.
pub open spec fn holds_no_data(w: WriterView) -> bool {
    w.held matches Some(command) ==> !(command is Data)
}

/// Data that comes in is written next, whatever else is under way, and a step writes nothing but
/// the data that came in with it.
pub proof fn law_data_is_written_when_it_comes(w: WriterView, event: WriterEvent, stop: bool)
    requires
        holds_no_data(w),
    ensures
        event matches WriterEvent::Received(Some(WriterCommand::Data(buffer))) ==> writer_does(
            w,
            event,
            stop,
        ).1 == WriterAction::Write(buffer),
        writer_does(w, event, stop).1 matches WriterAction::Write(buffer) ==> event
            == WriterEvent::Received(Some(WriterCommand::Data(buffer))),
        holds_no_data(writer_does(w, event, stop).0),
        writer_does(w, event, stop).0.kind == w.kind,
{
}

/// The writer writes every buffer that it is given, once, and in the order in which they came.
pub proof fn law_every_buffer_is_written_once_in_order(
    w: WriterView,
    events: Seq<(WriterEvent, bool)>,
)
    requires
        holds_no_data(w),
    ensures
        buffers_written(w, events) == buffers_given(events),
        holds_no_data(after_events(w, events)),
    decreases events.len(),
{
    if events.len() > 0 {
        law_every_buffer_is_written_once_in_order(w, events.drop_last());
        law_data_is_written_when_it_comes(
            after_events(w, events.drop_last()),
            events.last().0,
            events.last().1,
        );
    }
}

/// A command that is not data does what it is called for, whether data went before it or not: the
/// end of writing shuts the writing side of a stream, which a TLS connection has not; closing and
/// aborting shut the socket, closing after the end of the TLS connection; stopping ends the writer.
pub proof fn law_writer_obeys_its_commands(w: WriterView, command: WriterCommand)
    requires
        w.held is None,
        !(command is Data),
    ensures
        ({
            let (after, action) = writer_does(w, WriterEvent::Received(Some(command)), false);
            &&& command is WriteEof && !(w.kind is Tls) ==> action is ShutWrite && after.shutting
                == Shutting::WriteSide
            &&& command is WriteEof && w.kind is Tls ==> action is Receive && after.shutting
                == w.shutting
            &&& command is Close && !(w.kind is Tls) ==> action is ShutDown && after.shutting
                == Shutting::Socket
            &&& command is Close && w.kind is Tls ==> action is CloseTls && after.shutting
                == Shutting::Tls
            &&& command is Abort ==> action is ShutDown && after.shutting == Shutting::Socket
            &&& command is Stop ==> action is Finish
            &&& after.held is None
        }),
{
}

/// A writer that has to stop does so before it takes anything else up, and drops no command on the
/// way: one that it has just received is held back.
pub proof fn law_stopped_writer_ends(w: WriterView, command: WriterCommand)
    ensures
        writer_does(w, WriterEvent::Again, true) == (w, WriterAction::Finish),
        w.in_batch && !(command is Data) ==> writer_does(
            w,
            WriterEvent::Received(Some(command)),
            true,
        ).1 is Finish && writer_does(w, WriterEvent::Received(Some(command)), true).0.held == Some(
            command,
        ),
{
}

/// A writer that begins takes up what it held back, or waits for a command.
pub proof fn law_held_command_is_taken_up_next(w: WriterView)
    ensures
        w.held is None ==> writer_does(w, WriterEvent::Again, false) == (w, WriterAction::Receive),
        w.held matches Some(command) ==> {
            let (after, action) = writer_does(w, WriterEvent::Again, false);
            &&& after.held is None
            &&& action == writer_does(
                WriterView { held: None, in_batch: false, ..w },
                WriterEvent::Received(Some(command)),
                false,
            ).1
        },
{
}

/// What was written is noted, byte for byte, and more commands are looked for; when none waits the
/// transport may be written to directly again.
pub proof fn law_written_bytes_are_noted(w: WriterView, written: usize, stop: bool)
    ensures
        writer_does(w, WriterEvent::Wrote(written), stop) == (
            w,
            WriterAction::NoteAndTryReceive(written),
        ),
        writer_does(w, WriterEvent::Empty, stop).1 is Release,
        !writer_does(w, WriterEvent::Empty, stop).0.in_batch,
        writer_does(w, WriterEvent::Empty, stop).0.held == w.held,
{
}

/// The connection is lost when nobody is left to send commands, when a write fails, and when it was
/// shut: for good where all went well, else for the reason that the system gave. Shutting the
/// writing side alone loses only a connection of which nothing is left then.
pub proof fn law_writer_tells_why_the_connection_is_lost(
    w: WriterView,
    error: IoError,
    stop: bool,
)
    ensures
        writer_does(w, WriterEvent::Received(None), stop).1 == (WriterAction::LoseAndFinish {
            release: false,
            reason: LossReason::Closed,
        }),
        writer_does(w, WriterEvent::Disconnected, stop).1 == (WriterAction::LoseAndFinish {
            release: true,
            reason: LossReason::Closed,
        }),
        writer_does(w, WriterEvent::WriteFailed(error), stop).1 == (WriterAction::LoseAndFinish {
            release: false,
            reason: LossReason::Failed(error.text),
        }),
        !(w.shutting is WriteSide) ==> writer_does(w, WriterEvent::Shut(Ok(())), stop).1 == (
        WriterAction::LoseAndFinish { release: false, reason: LossReason::Closed }),
        w.shutting is WriteSide && w.kind == (WriterKind::Stream { close_on_write_eof: true })
            ==> writer_does(w, WriterEvent::Shut(Ok(())), stop).1 == (WriterAction::LoseAndFinish {
            release: false,
            reason: LossReason::Closed,
        }),
        w.shutting is WriteSide && w.kind == (WriterKind::Stream { close_on_write_eof: false })
            && w.held is None && !stop ==> writer_does(w, WriterEvent::Shut(Ok(())), stop).1
            is Receive,
        writer_does(w, WriterEvent::Shut(Err(error)), stop).1 == (WriterAction::LoseAndFinish {
            release: false,
            reason: if w.shutting is Tls && error.kind is TimedOut {
                LossReason::TlsTimeout
            } else {
                LossReason::Failed(error.text)
            },
        }),
        writer_does(w, WriterEvent::Shut(Err(error)), stop).0.shutting == Shutting::Nothing,
        writer_does(w, WriterEvent::Shut(Ok(())), stop).1 is LoseAndFinish ==> writer_does(
            w,
            WriterEvent::Shut(Ok(())),
            stop,
        ).0.shutting == Shutting::Nothing,
{
}

/// Writing a buffer ends well exactly when nothing of it remains, and goes on while something does.
/// What is written comes off the front, and nothing else does. A target that takes nothing is an
/// error; one that is not ready is waited for; any other error comes out as it was.
pub proof fn law_buffer_is_written_to_its_end(
    remaining: Seq<u8>,
    event: WriteAllEvent,
    pollable: bool,
    after: Seq<u8>,
    action: WriteAllAction,
)
    requires
        is_write_all_step(remaining, event, pollable, after, action),
        event matches WriteAllEvent::Wrote(n) ==> n <= remaining.len(),
    ensures
        action is Finish ==> after.len() == 0,
        action is Write ==> after.len() > 0,
        event matches WriteAllEvent::Wrote(n) ==> after.len() == remaining.len() - n
            && remaining.take(n as int) + after == remaining,
        !(event is Wrote) ==> after == remaining,
        event matches WriteAllEvent::Wrote(n) ==> (n == 0 <==> action is Fail),
        event matches WriteAllEvent::Wrote(n) ==> n == 0 ==> is_write_zero(action->Fail_0),
        event matches WriteAllEvent::Failed(error) ==> (action is Poll <==> error.kind is WouldBlock
            && pollable),
        event matches WriteAllEvent::Failed(error) ==> (action is Sleep <==> error.kind
            is WouldBlock && !pollable),
        event matches WriteAllEvent::Failed(error) ==> (action is Fail <==> !(error.kind
            is WouldBlock) && !(error.kind is Interrupted)),
        event matches WriteAllEvent::Failed(error) ==> action is Fail ==> action
            == WriteAllAction::Fail(error),
        event matches WriteAllEvent::PollFailed(error) ==> action == WriteAllAction::Fail(error),
        event matches WriteAllEvent::Polled { read_ready, write_ready } ==> (action is Poll <==> (
        read_ready || !write_ready)),
        event is Again || event is Slept ==> action is Finish || action is Write,
        action is Poll || action is Sleep || action is Fail || action is Write || action is Finish,
{
    if let WriteAllEvent::Wrote(n) = event {
        assert(remaining.take(n as int) + after =~= remaining);
    }
}

/// A new writer holds nothing back, has nothing to shut and is in no batch, and is of the kind that
/// was asked for.
pub proof fn law_new_writer_owes_nothing(kind: WriterKind)
    ensures
        fresh_writer(kind).kind == kind,
        fresh_writer(kind).held is None,
        fresh_writer(kind).shutting is Nothing,
        !fresh_writer(kind).in_batch,
{
}

/// Data opens a batch, which goes on until nothing waits or another command comes; the command is
/// then obeyed like any other.
pub proof fn law_batches_end_with_another_command(
    w: WriterView,
    buffer: OwnedWriteBuffer,
    command: WriterCommand,
    stop: bool,
)
    requires
        !(command is Data),
        w.held is None,
    ensures
        writer_does(w, WriterEvent::Received(Some(WriterCommand::Data(buffer))), stop).0.in_batch,
        !writer_does(w, WriterEvent::Received(Some(command)), stop).0.in_batch,
        !writer_does(w, WriterEvent::Disconnected, stop).0.in_batch,
        writer_does(w, WriterEvent::Received(Some(command)), false).1 == writer_does(
            WriterView { in_batch: !w.in_batch, ..w },
            WriterEvent::Received(Some(command)),
            false,
        ).1,
{
}

} // verus!
