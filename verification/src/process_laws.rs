//! What holds of the transport of a child process.

use vstd::prelude::*;
use crate::loop_commands::{LoopCommand, LoopTransportCommand, ReadyItem};
use crate::loop_core::{LoopCoreError, LoopView, Sent, ThreadView};
use crate::objects::ObjectId;
use crate::os_constants::SIGTERM;
use crate::process_transport::{
    after_exit, after_pipe_loss, are_text_entries, child_call_for, command_for, command_sent,
    exit_code_of, exited, fresh_process, is_data_route, is_exit_route, is_over,
    is_pipe_loss_route, is_process_event_reported, is_process_loss_route, is_waiter_step,
    pipe_closed, pipe_reader_does, pipe_transport_of, pipes_of, plain_process, process_closing,
    process_drain_step, process_event_asks, process_lost, reader_workers, registered, wait_step,
    with_pipes, with_transports, AfterTelling, ChildCall, DataRoute, PendingProcessEvent,
    PipeReaderAction, PipeReaderEvent, ProcessCall, ProcessCommand, ProcessDrainAction,
    ProcessDrainEvent, ProcessDrainPhase, ProcessDrainView, ProcessError, ProcessPipes,
    ProcessRoute, ProcessTextConfig, ProcessTransportParams, ProcessView, ProcessWaitAction,
    ProcessWaitEvent, ReaderWorker, WaiterAction, WaiterEvent,
};
use crate::stream_transport::TransportSpawnContext;

verus! {

/// A new process runs: it has neither a code nor a loss, its pipes are open, and it belongs to the
/// protocol that it was made for.
pub proof fn law_new_process_runs(
    id: ObjectId,
    spawn_context: TransportSpawnContext,
    child: ObjectId,
    params: ProcessTransportParams,
    pid: u32,
    pipes: ProcessPipes,
)
    ensures
        ({
            let v = fresh_process(id, params, pid, pipes);
            &&& v.id == id
            &&& v.pid == pid
            &&& v.protocol == params.protocol
            &&& v.loop_obj == params.loop_obj
            &&& v.context == params.context
            &&& v.text_config == params.text_config
            &&& v.returncode is None
            &&& !v.exited && !v.closing && !v.connection_lost_called && !v.scheduled
            &&& v.events.len() == 0
            &&& !is_over(v)
            &&& v.open_pipes.contains(0) <==> pipes.stdin is Some
            &&& v.open_pipes.contains(1) <==> pipes.stdout is Some
            &&& v.open_pipes.contains(2) <==> pipes.stderr is Some
            &&& forall|fd: i32| #[trigger] v.open_pipes.contains(fd) ==> 0 <= fd <= 2
        }),
        plain_process(spawn_context, child).protocol == spawn_context.protocol,
        plain_process(spawn_context, child).child == child,
        plain_process(spawn_context, child).text_config is None,
        plain_process(spawn_context, child).stdout_override is None,
        plain_process(spawn_context, child).stderr_override is None,
        plain_process(spawn_context, child).loop_core == spawn_context.loop_core,
        plain_process(spawn_context, child).context == spawn_context.context,
{
}

/// A pipe that the caller brought takes the place of the child's own, for its stream alone. Each
/// output that is a pipe gets a reader, the output before the errors.
pub proof fn law_brought_pipes_take_their_place(
    child: ProcessPipes,
    out: Option<ObjectId>,
    err: Option<ObjectId>,
    brought: ObjectId,
)
    ensures
        pipes_of(child, out, err).stdin == child.stdin,
        pipes_of(child, Some(brought), err).stdout == Some(brought),
        pipes_of(child, None, err).stdout == child.stdout,
        pipes_of(child, out, Some(brought)).stderr == Some(brought),
        pipes_of(child, out, None).stderr == child.stderr,
        reader_workers(child).len() == (if child.stdout is Some {
            1int
        } else {
            0int
        }) + (if child.stderr is Some {
            1int
        } else {
            0int
        }),
        child.stdout matches Some(reader) ==> reader_workers(child)[0] == (ReaderWorker {
            fd: 1,
            reader,
        }),
        child.stderr matches Some(reader) ==> reader_workers(child).last() == (ReaderWorker {
            fd: 2,
            reader,
        }),
{
}

/// A pipe has the transport that was given to it last; one that was given none has none, and none of
/// the others changes.
pub proof fn law_pipes_have_their_transports(
    v: ProcessView,
    stdin: Option<ObjectId>,
    stdout: Option<ObjectId>,
    stderr: Option<ObjectId>,
    known: Seq<(i32, ObjectId)>,
    fd: i32,
    transport: ObjectId,
    other: i32,
)
    ensures
        ({
            let after = with_transports(
                v,
                with_pipes(v.pipe_transports, stdin, stdout, stderr),
            );
            &&& stdin is Some ==> pipe_transport_of(after, 0) == stdin
            &&& stdout is Some ==> pipe_transport_of(after, 1) == stdout
            &&& stderr is Some ==> pipe_transport_of(after, 2) == stderr
            &&& stdin is None ==> pipe_transport_of(after, 0) == pipe_transport_of(v, 0)
            &&& stdout is None ==> pipe_transport_of(after, 1) == pipe_transport_of(v, 1)
            &&& stderr is None ==> pipe_transport_of(after, 2) == pipe_transport_of(v, 2)
            &&& after.open_pipes == v.open_pipes
            &&& after.returncode == v.returncode
        }),
        pipe_transport_of(
            with_transports(v, registered(v.pipe_transports, known.push((fd, transport)))),
            fd,
        ) == Some(transport),
        other != fd ==> pipe_transport_of(
            with_transports(v, registered(v.pipe_transports, known.push((fd, transport)))),
            other,
        ) == pipe_transport_of(with_transports(v, registered(v.pipe_transports, known)), other),
        registered(v.pipe_transports, Seq::empty()) == v.pipe_transports,
{
    assert(known.push((fd, transport)).drop_last() =~= known);
}

/// The process is over exactly when it exited and no pipe is open. An exit keeps its code, and
/// leaves the pipes alone; a closed pipe leaves the other pipes and the code alone.
pub proof fn law_process_is_over_with_its_pipes(v: ProcessView, fd: i32, other: i32, code: i32)
    ensures
        is_over(v) <==> v.exited && forall|pipe: i32| !v.open_pipes.contains(pipe),
        exited(v, code).0.exited,
        exited(v, code).0.returncode == Some(code),
        exited(v, code).0.open_pipes == v.open_pipes,
        exited(v, code).0.closing == v.closing,
        exited(v, code).1 <==> forall|pipe: i32| !v.open_pipes.contains(pipe),
        !pipe_closed(v, fd).0.open_pipes.contains(fd),
        other != fd ==> pipe_closed(v, fd).0.open_pipes.contains(other) == v.open_pipes.contains(
            other,
        ),
        pipe_closed(v, fd).0.returncode == v.returncode,
        pipe_closed(v, fd).0.exited == v.exited,
        pipe_closed(v, fd).1 <==> v.exited && forall|pipe: i32|
            v.open_pipes.contains(pipe) ==> pipe == fd,
{
    let none = forall|pipe: i32| !v.open_pipes.contains(pipe);
    if none {
        assert(v.open_pipes =~= Set::<i32>::empty());
    }
    let only = forall|pipe: i32| v.open_pipes.contains(pipe) ==> pipe == fd;
    let left = v.open_pipes.remove(fd);
    if only {
        assert(left =~= Set::<i32>::empty());
    } else {
        let pipe = choose|pipe: i32| v.open_pipes.contains(pipe) && pipe != fd;
        assert(left.contains(pipe));
    }
    if !none {
        let pipe = choose|pipe: i32| v.open_pipes.contains(pipe);
        assert(v.open_pipes.contains(pipe));
    }
}

/// A closed pipe is told of once: on the loop's thread there, elsewhere by the loop, with its
/// descriptor and reason, and with the loss of the connection behind it where nothing is left to
/// wait for.
pub proof fn law_closed_pipe_is_told_once(
    v: ProcessView,
    l: LoopView,
    t: ThreadView,
    fd: i32,
    reason: Option<String>,
    route: ProcessRoute,
    v_after: ProcessView,
    l_after: LoopView,
    t_after: ThreadView,
)
    requires
        is_pipe_loss_route(v, l, t, fd, reason, route, v_after, l_after, t_after),
    ensures
        route is Ignore <==> !v.open_pipes.contains(fd),
        route is Ignore ==> v_after == v,
        !v_after.open_pipes.contains(fd),
        route is Here ==> t.active_loop == Some(l.id) && v_after.events == v.events,
        route matches ProcessRoute::Here { finish } ==> (finish <==> is_over(v_after)),
        route is Later ==> t.active_loop != Some(l.id) && v_after.events.len() > v.events.len()
            && v_after.events[v.events.len() as int] == (PendingProcessEvent::PipeConnectionLost {
            fd,
            reason,
        }),
        route is Later && is_over(v_after) ==> v_after.events.len() == v.events.len() + 2
            && v_after.events.last() == (PendingProcessEvent::ConnectionLost { reason: None }),
        route is Later && !is_over(v_after) ==> v_after.events.len() == v.events.len() + 1,
        v_after.returncode == v.returncode,
{
}

/// An exit is told of with its code, on the loop's thread there, elsewhere by the loop; and the loss
/// of the connection follows where no pipe is open.
pub proof fn law_exit_is_told_with_its_code(
    v: ProcessView,
    l: LoopView,
    t: ThreadView,
    returncode: i32,
    route: ProcessRoute,
    v_after: ProcessView,
    l_after: LoopView,
    t_after: ThreadView,
)
    requires
        is_exit_route(v, l, t, returncode, route, v_after, l_after, t_after),
    ensures
        v_after.returncode == Some(returncode),
        v_after.exited,
        !(route is Ignore),
        route is Here <==> t.active_loop == Some(l.id),
        route matches ProcessRoute::Here { finish } ==> (finish <==> v.open_pipes.is_empty())
            && v_after.events == v.events,
        route is Later ==> v_after.events.len() > v.events.len()
            && v_after.events[v.events.len() as int] == (PendingProcessEvent::ProcessExited {
            returncode,
        }),
        route is Later && v.open_pipes.is_empty() ==> v_after.events.len() == v.events.len() + 2
            && v_after.events.last() == (PendingProcessEvent::ConnectionLost { reason: None }),
        route is Later && !v.open_pipes.is_empty() ==> v_after.events.len() == v.events.len() + 1,
        v_after.open_pipes == v.open_pipes,
{
}

/// The loss of the connection is handled once, and closes the transport.
pub proof fn law_process_loss_is_handled_once(
    v: ProcessView,
    l: LoopView,
    t: ThreadView,
    reason: Option<String>,
    route: ProcessRoute,
    v_after: ProcessView,
    l_after: LoopView,
    t_after: ThreadView,
)
    requires
        is_process_loss_route(v, l, t, reason, route, v_after, l_after, t_after),
    ensures
        route is Ignore <==> v.connection_lost_called,
        v_after.connection_lost_called,
        !(route is Ignore) ==> v_after.closing,
        route is Ignore ==> v_after == v,
        route is Here ==> t.active_loop == Some(l.id),
        route matches ProcessRoute::Here { finish } ==> !finish,
        route is Later ==> t.active_loop != Some(l.id) && v_after.events == v.events.push(
            PendingProcessEvent::ConnectionLost { reason },
        ),
        process_lost(v).returncode == v.returncode,
{
}

/// Data of a pipe reaches the protocol as it came, at once on the loop's thread, and else behind
/// what was reported before.
pub proof fn law_pipe_data_reaches_the_protocol(
    v: ProcessView,
    l: LoopView,
    t: ThreadView,
    fd: i32,
    data: Vec<u8>,
    route: DataRoute,
    v_after: ProcessView,
    l_after: LoopView,
    t_after: ThreadView,
)
    requires
        is_data_route(v, l, t, fd, data, route, v_after, l_after, t_after),
    ensures
        route is Here <==> t.active_loop == Some(l.id),
        route matches DataRoute::Here(payload) ==> payload@ == data@ && v_after == v && l_after == l
            && t_after == t,
        route is Later ==> v_after.events == v.events.push(
            PendingProcessEvent::PipeDataReceived { fd, data },
        ),
        v_after.open_pipes == v.open_pipes,
        v_after.returncode == v.returncode,
{
}

/// The loop is told of this process, unless it knows that something waits.
pub proof fn law_loop_is_told_of_the_process(
    v: ProcessView,
    l: LoopView,
    t: ThreadView,
    event: PendingProcessEvent,
    told: Option<Result<Sent, LoopCoreError>>,
    v_after: ProcessView,
    l_after: LoopView,
    t_after: ThreadView,
)
    requires
        is_process_event_reported(v, l, t, event, told, v_after, l_after, t_after),
    ensures
        told is None <==> v.scheduled,
        told is None ==> l_after == l && t_after == t,
        told matches Some(Ok(Sent::Local)) ==> t_after.queue.unwrap() == t.queue.unwrap().push(
            ReadyItem::ProcessTransport(v.id),
        ),
        told matches Some(Ok(Sent::Pending { .. })) ==> l_after.dispatch.unwrap().pending
            == l.dispatch.unwrap().pending.push(ReadyItem::ProcessTransport(v.id)),
        told matches Some(Ok(Sent::Channel)) ==> l_after.sent == l.sent.push(
            LoopCommand::Transport(LoopTransportCommand::Process(v.id)),
        ),
        v_after.open_pipes == v.open_pipes,
        v_after.returncode == v.returncode,
        v_after.exited == v.exited,
        v_after.closing == v.closing,
{
}

/// Each event calls the method that it is for, with what it brings; a call that raises is reported
/// for that method and loses the connection; after a loss the drain is over.
pub proof fn law_process_events_call_their_methods(
    d: ProcessDrainView,
    fd: i32,
    data: Vec<u8>,
    reason: Option<String>,
    returncode: i32,
    raised: ObjectId,
)
    ensures
        process_event_asks(PendingProcessEvent::PipeDataReceived { fd, data }).1 == (
        ProcessDrainAction::CallPipeData { fd, data }),
        process_event_asks(PendingProcessEvent::PipeConnectionLost { fd, reason }).1 == (
        ProcessDrainAction::CallPipeLost { fd, reason }),
        process_event_asks(PendingProcessEvent::ProcessExited { returncode }).1 == (
        ProcessDrainAction::CallExited { returncode }),
        process_event_asks(PendingProcessEvent::ConnectionLost { reason }).1
            == ProcessDrainAction::Lose(reason),
        process_event_asks(PendingProcessEvent::PipeDataReceived { fd, data }).0
            == ProcessDrainPhase::Calling(ProcessCall::PipeData),
        process_event_asks(PendingProcessEvent::PipeConnectionLost { fd, reason }).0
            == ProcessDrainPhase::Calling(ProcessCall::PipeLost),
        process_event_asks(PendingProcessEvent::ProcessExited { returncode }).0
            == ProcessDrainPhase::Calling(ProcessCall::Exited),
        process_event_asks(PendingProcessEvent::ConnectionLost { reason }).0 is Concluding,
        d.phase matches ProcessDrainPhase::Calling(call) ==> process_drain_step(
            d,
            ProcessDrainEvent::Raised(raised),
        ).1 == (ProcessDrainAction::ReportAndLose { call, raised }) && process_drain_step(
            d,
            ProcessDrainEvent::Raised(raised),
        ).0.phase is Concluding,
        d.phase is Concluding ==> {
            let (after, action) = process_drain_step(d, ProcessDrainEvent::Done);
            &&& action is Finish
            &&& after.taken.len() == 0
            &&& !after.core.scheduled
            &&& after.core.events == d.core.events
            &&& after.phase is Working
        },
{
}

/// A protocol that was told of a closed pipe or of the exit is told of the loss next where nothing is
/// left to wait for. What it raises is reported for a pipe, and comes out for the exit.
pub proof fn law_telling_leads_to_the_loss(finish: bool, raised: ObjectId)
    ensures
        after_pipe_loss(finish, Ok(())) is Lose <==> finish,
        after_pipe_loss(finish, Ok(())) is Done <==> !finish,
        after_pipe_loss(finish, Err(raised)) == (AfterTelling::ReportAndFail {
            raised,
            error: ProcessError::PipeLossFailed,
        }),
        after_exit(finish, Ok(())) is Lose <==> finish,
        after_exit(finish, Ok(())) is Done <==> !finish,
        after_exit(finish, Err(raised)) == AfterTelling::Fail(raised),
{
}

/// A process takes commands, each as it was given, until its code is known, and none after that.
pub proof fn law_commands_need_a_running_process(
    v: ProcessView,
    command: ProcessCommand,
    code: i32,
)
    ensures
        v.returncode is None ==> command_for(v, command) == Result::<
            ProcessCommand,
            ProcessError,
        >::Ok(command),
        command_for(exited(v, code).0, command) == Result::<ProcessCommand, ProcessError>::Err(
            ProcessError::NotRunning,
        ),
        command_sent(true) is Ok,
        command_sent(false) == Result::<(), ProcessError>::Err(ProcessError::NotRunning),
        process_closing(v).closing,
        process_closing(v).returncode == v.returncode,
        process_closing(v).open_pipes == v.open_pipes,
{
}

/// Closing and killing kill the process, terminating sends the signal for that, and a signal is sent
/// as it was given.
pub proof fn law_commands_do_what_they_say(signal: i32)
    ensures
        child_call_for(ProcessCommand::Close) is Kill,
        child_call_for(ProcessCommand::Kill) is Kill,
        child_call_for(ProcessCommand::Terminate) == (ChildCall::Signal {
            signal: SIGTERM,
            terminate: true,
        }),
        child_call_for(ProcessCommand::SendSignal(signal)) == (ChildCall::Signal {
            signal,
            terminate: false,
        }),
{
}

/// The code of a process is its own where it has one. One that a signal ended has the negative of
/// that, so the two are told apart.
pub proof fn law_exit_codes_tell_signals_apart(
    code: Option<i32>,
    signal: Option<i32>,
    own: i32,
    ended_by: i32,
)
    ensures
        exit_code_of(Some(own), signal) == own,
        exit_code_of(None, Some(ended_by)) == -ended_by,
        exit_code_of(None, None) == -1,
        ended_by > 0 ==> exit_code_of(None, Some(ended_by)) < 0,
{
}

/// What the reader of a pipe reads it hands over; that nothing came is the end of the pipe, and an
/// error is that too, with its text. A handover that fails is reported and ends the pipe.
pub proof fn law_pipe_reader_hands_over_what_it_reads(
    data: Vec<u8>,
    text: String,
    raised: ObjectId,
)
    ensures
        pipe_reader_does(PipeReaderEvent::Again) is Read,
        data@.len() > 0 ==> pipe_reader_does(PipeReaderEvent::Received(data))
            == PipeReaderAction::Deliver(data),
        data@.len() == 0 ==> pipe_reader_does(PipeReaderEvent::Received(data))
            == PipeReaderAction::ClosePipe(None),
        pipe_reader_does(PipeReaderEvent::ReadFailed(text)) == PipeReaderAction::ClosePipe(
            Some(text),
        ),
        pipe_reader_does(PipeReaderEvent::DeliveryFailed(raised))
            == PipeReaderAction::ReportAndClosePipe(raised),
{
}

/// The waiter looks for the exit, takes a command while there is none, and looks again. The exit
/// that it finds is handled with its code, and closes the standard input where that is still open.
pub proof fn law_waiter_handles_the_exit(v: ProcessView, event: WaiterEvent, action: WaiterAction)
    requires
        is_waiter_step(v, event, action),
    ensures
        action is HandleExit <==> event is Exited,
        event matches WaiterEvent::Exited { code, signal } ==> (action
            matches WaiterAction::HandleExit { returncode, close_stdin } && returncode
            == exit_code_of(code, signal) && (close_stdin <==> v.open_pipes.contains(0))),
        action is TryWait <==> event is Again || event is Timeout,
        action is Receive <==> event is Running,
        action is ReportAndLose <==> event is WaitFailed,
        event matches WaiterEvent::Command(command) ==> action == WaiterAction::Call(
            child_call_for(command),
        ),
        action is Finish <==> event is Disconnected,
{
}

/// Whoever waits for the exit gets its code as soon as it is known, and first asks for a notice.
pub proof fn law_waiting_asks_for_a_notice_first(v: ProcessView, event: ProcessWaitEvent)
    ensures
        v.returncode matches Some(code) ==> wait_step(v, event) == ProcessWaitAction::Return(code),
        wait_step(v, event) matches ProcessWaitAction::Return(code) ==> v.returncode == Some(code),
        v.returncode is None && !(event is Listening) ==> wait_step(v, event) is Listen,
        v.returncode is None && event is Listening ==> wait_step(v, event) is Wait,
{
}

/// In text mode the pipes say how they are encoded and how errors are handled, each under its own
/// name and once. Without text mode they say nothing.
pub proof fn law_text_mode_is_told(
    text_config: Option<ProcessTextConfig>,
    entries: Option<Vec<(String, String)>>,
    i: int,
)
    requires
        are_text_entries(text_config, entries),
    ensures
        entries is Some <==> text_config is Some,
        text_config matches Some(config) ==> (entries matches Some(entries) && {
            &&& 0 <= i < entries@.len() && entries@[i].0@ == "text_encoding"@ ==> entries@[i].1@
                == config.encoding@
            &&& 0 <= i < entries@.len() && entries@[i].0@ == "text_errors"@ ==> entries@[i].1@
                == config.errors@
            &&& exists|j: int|
                0 <= j < entries@.len() && (#[trigger] entries@[j]).0@ == "text_encoding"@
            &&& exists|j: int|
                0 <= j < entries@.len() && (#[trigger] entries@[j]).0@ == "text_errors"@
            &&& entries@.len() == 2
        }),
{
    reveal_strlit("text_encoding");
    reveal_strlit("text_errors");
    assert("text_encoding"@.len() == 13);
    assert("text_errors"@.len() == 11);
    if let Some(entries) = entries {
        assert(entries@[0].0@ == "text_encoding"@);
        assert(entries@[1].0@ == "text_errors"@);
    }
}

} // verus!
