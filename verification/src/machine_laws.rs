//! The machines and the decisions of the library take the steps that the laws on those steps speak
//! of: whatever a call returns and leaves behind is a step from what was there before.

use vstd::prelude::*;
use crate::asyncgens::{asyncgen_step, AsyncgenAction, AsyncgenEvent, AsyncgenShutdown};
use crate::connect::{
    attempt_step, check_tls_arguments, connect_socket_to_address, socket_connect_step,
    tls_arguments_fit, AttemptAction, AttemptEvent, ConnectError, ConnectionAttempts,
    SocketConnectAction, SocketConnectEvent, TlsArguments,
};
use crate::connection_flow::{flow_step, ConnectionFlow, FlowAction, FlowEvent};
use crate::executor::{
    executor_route, run_in_executor, shutdown_step, ExecutorError, ExecutorRoute,
    ExecutorShutdown, ShutdownAction, ShutdownEvent,
};
use crate::loop_core::{
    is_close, is_sent, CloseStep, LoopCore, LoopCoreError, Sent, SignalHandlerTemplate, ThreadReady,
};
use crate::loop_commands::LoopCommand;
use crate::objects::ObjectId;
use crate::process_transport::{
    is_data_route, is_exit_route, is_pipe_loss_route, process_drain_step, DataRoute, ProcessDrain,
    ProcessDrainAction, ProcessDrainEvent, ProcessRoute, ProcessTransportCore,
};
use crate::py_loop::{
    complete_step, is_loop_close, is_signal_handler_added, is_signal_handler_removed,
    CompleteAction, CompleteEvent, LoopClosing, PyLoop, RunUntilComplete, SignalError,
};
use crate::read_events::{
    drain_step, DrainAction, DrainEvent, PendingReadEvent, ReadDrain, ReadEventQueue,
};
use crate::reader_fast_path::{feed_step, FeedAction, FeedEvent, GenericFeed};
use crate::server_flow::{server_step, ServerAction, ServerEvent, ServerFlow};
use crate::sock_ops::{
    receive_step, send_step, sock_step, SendAction, SendAll, SendEvent, SockAction, SockEvent,
};
use crate::stream_io::{
    acceptor_does, reader_does, run_accept_loop, run_stream_reader, AcceptAction, AcceptEvent,
    IoError, ReaderAction, ReaderEvent, ReaderSituation,
};
use crate::stream_protocol::{
    after_answer, drained, waiter_call, settle_drain_waiter, DrainRun, DrainStep, FutureCall,
    PyFastStreamProtocol,
};
use crate::stream_reader::{
    started_read, started_readexactly, with_waiter, PyFastStreamReader, ReadStep, ReadWaitKind,
};
use crate::stream_transport::{
    are_limits_set, is_direct_write, is_drain_recorded, is_loss_route, is_reported,
    is_write_failed, is_write_queued, DirectStep, DirectWrite, LossRoute, Notify, QueueStep,
    StreamTransportCore,
};
use crate::stream_writer::{
    is_write_all_step, write_all_owned, writer_does, StreamWriter, WriteAllAction, WriteAllEvent,
    WriterAction, WriterEvent,
};
use crate::subprocess::{
    is_text_mode, parse_process_stdio, stdio_meaning, text_mode, ProcessStdioSpec, StdioArgument,
    SubprocessError,
};
use crate::subprocess_flow::{spawn_step, SpawnAction, SpawnEvent, SubprocessFlow};
use crate::tasks::{
    create_future, create_task, future_route, is_task_step, FutureRoute, TaskKwargSupport,
    TaskOptions, TaskStep,
};
use crate::tls_io::{
    flush_tls_io, is_flush_step, run_tls_reader, tls_reader_does, FlushAction, TlsReaderAction,
    TlsReaderEvent,
};
use crate::write_buffer::{requested_high, LimitsError, OwnedWriteBuffer};

verus! {

/// Connecting, serving, starting a child, completing a future and shutting the helpers down go step
/// by step, and what they were begun with stays.
pub proof fn law_flows_take_their_steps()
    ensures
        forall|flow: &mut ConnectionAttempts, event: AttemptEvent, action: AttemptAction| #[trigger]
            call_ensures(ConnectionAttempts::step, (flow, event), action) && (*flow).wf() ==> (
            (*final(flow))@,
            action,
        ) == attempt_step((*flow)@, event),
        forall|flow: &mut ConnectionFlow, event: FlowEvent, action: FlowAction| #[trigger]
            call_ensures(ConnectionFlow::step, (flow, event), action) && (*flow).wf() ==> (
            (*final(flow))@,
            action,
        ) == flow_step((*flow)@, event),
        forall|flow: &mut ServerFlow, event: ServerEvent, action: ServerAction| #[trigger]
            call_ensures(ServerFlow::step, (flow, event), action) && (*flow).wf() ==> (
            (*final(flow))@,
            action,
        ) == server_step((*flow)@, event),
        forall|flow: &mut SubprocessFlow, event: SpawnEvent, action: SpawnAction| #[trigger]
            call_ensures(SubprocessFlow::step, (flow, event), action) ==> (
            (*final(flow)).spec_phase(),
            action,
        ) == spawn_step((*flow).spec_request(), (*flow).spec_phase(), event) && (
            *final(flow)).spec_request() == (*flow).spec_request(),
        forall|flow: &mut RunUntilComplete, event: CompleteEvent, action: CompleteAction| #[trigger]
            call_ensures(RunUntilComplete::step, (flow, event), action) ==> (
            (*final(flow)).spec_phase(),
            action,
        ) == complete_step((*flow).spec_new_task(), (*flow).spec_phase(), event) && (
            *final(flow)).spec_new_task() == (*flow).spec_new_task(),
        forall|flow: &mut ExecutorShutdown, event: ShutdownEvent, action: ShutdownAction| #[trigger]
            call_ensures(ExecutorShutdown::step, (flow, event), action) ==> (
            (*final(flow)).spec_phase(),
            action,
        ) == shutdown_step(
                (*flow).spec_executor(),
                (*flow).spec_timeout(),
                (*flow).spec_phase(),
                event,
            ) && (*final(flow)).spec_executor() == (*flow).spec_executor() && (
            *final(flow)).spec_timeout() == (*flow).spec_timeout(),
        forall|flow: &mut AsyncgenShutdown, event: AsyncgenEvent, action: AsyncgenAction| #[trigger]
            call_ensures(AsyncgenShutdown::step, (flow, event), action) && (*flow).wf() ==> (
            (*final(flow))@,
            action,
        ) == asyncgen_step((*flow)@, event),
{
}

/// Reading, feeding, draining, sending and writing go step by step.
pub proof fn law_streams_take_their_steps()
    ensures
        forall|
            run: &mut ReadDrain,
            queue: &mut ReadEventQueue,
            event: DrainEvent,
            dropping: bool,
            action: DrainAction,
        | #[trigger]
            call_ensures(ReadDrain::step, (run, queue, event, dropping), action) ==> (
            (*final(run)).on((*final(queue))@),
            action@,
        ) == drain_step((*run).on((*queue)@), event, dropping),
        forall|feed: &mut GenericFeed, event: FeedEvent, action: FeedAction| #[trigger]
            call_ensures(GenericFeed::step, (feed, event), action) ==> (*final(feed), action)
                == feed_step(*feed, event),
        forall|run: &mut DrainRun, done: bool, call: Option<FutureCall>| #[trigger]
            call_ensures(DrainRun::answered, (run, done), call) && (*run)@.waiting.len() > 0 ==> (
            (*final(run))@,
            call,
        ) == after_answer((*run)@, done),
        forall|sending: &mut SendAll, event: SendEvent, action: SendAction| #[trigger]
            call_ensures(SendAll::step, (sending, event), action) && (event matches SendEvent::Sent(
                n,
            ) ==> (*sending).sent + n <= usize::MAX) ==> (*final(sending), action) == send_step(
                *sending,
                event,
            ),
        forall|
            writer: &mut StreamWriter,
            event: WriterEvent,
            stop: bool,
            action: WriterAction,
        | #[trigger]
            call_ensures(StreamWriter::step, (writer, event, stop), action) ==> (
            (*final(writer))@,
            action,
        ) == writer_does((*writer)@, event, stop),
        forall|
            buffer: &mut OwnedWriteBuffer,
            event: WriteAllEvent,
            pollable: bool,
            action: WriteAllAction,
        | #[trigger]
            call_ensures(write_all_owned, (buffer, event, pollable), action) && (*buffer).wf() && (
            event matches WriteAllEvent::Wrote(n) ==> n <= (*buffer)@.len()) ==> is_write_all_step(
                (*buffer)@,
                event,
                pollable,
                (*final(buffer))@,
                action,
            ),
        forall|
            run: &mut ProcessDrain,
            core: &mut ProcessTransportCore,
            event: ProcessDrainEvent,
            action: ProcessDrainAction,
        | #[trigger]
            call_ensures(ProcessDrain::step, (run, core, event), action) ==> (
            (*final(run)).on((*final(core))@),
            action,
        ) == process_drain_step((*run).on((*core)@), event),
        forall|reader: &mut PyFastStreamReader, n: isize, step: ReadStep| #[trigger]
            call_ensures(PyFastStreamReader::build_read_future, (reader, n), step)
                && (*reader).wf() ==> ((*final(reader))@, step@) == started_read(
                (*reader)@,
                n as int,
            ),
        forall|reader: &mut PyFastStreamReader, n: usize, step: ReadStep| #[trigger]
            call_ensures(PyFastStreamReader::build_readexactly_future, (reader, n), step)
                && (*reader).wf() ==> ((*final(reader))@, step@) == started_readexactly(
                (*reader)@,
                n as nat,
            ),
        forall|reader: &mut PyFastStreamReader, future: ObjectId, kind: ReadWaitKind| #[trigger]
            call_ensures(PyFastStreamReader::park, (reader, future, kind), ()) && (*reader).wf()
                && (*reader)@.waiter is None && kind.wf() ==> (*final(reader))@ == with_waiter(
                (*reader)@,
                future,
                kind@,
            ),
{
}

/// The loop sends, closes and handles signals as the laws on it say.
pub proof fn law_loop_takes_its_steps()
    ensures
        forall|
            core: &mut LoopCore,
            thread: &mut ThreadReady,
            command: LoopCommand,
            done: Result<Sent, LoopCoreError>,
        | #[trigger]
            call_ensures(LoopCore::send_command, (core, thread, command), done) ==> is_sent(
                (*core)@,
                (*thread)@,
                command,
                done,
                (*final(core))@,
                (*final(thread))@,
            ),
        forall|
            lp: &mut PyLoop,
            thread: &mut ThreadReady,
            done: Result<Sent, LoopCoreError>,
        | #[trigger]
            call_ensures(PyLoop::stop, (lp, thread), done) ==> is_sent(
                (*lp).core@,
                (*thread)@,
                LoopCommand::RequestStop,
                done,
                (*final(lp)).core@,
                (*final(thread))@,
            ),
        forall|
            core: &mut LoopCore,
            thread: &mut ThreadReady,
            done: Result<CloseStep, LoopCoreError>,
        | #[trigger]
            call_ensures(LoopCore::close, (core, thread), done) ==> is_close(
                (*core)@,
                (*thread)@,
                done,
                (*final(core))@,
                (*final(thread))@,
            ),
        forall|
            lp: &mut PyLoop,
            thread: &mut ThreadReady,
            done: Result<LoopClosing, LoopCoreError>,
        | #[trigger]
            call_ensures(PyLoop::close, (lp, thread), done) ==> is_loop_close(
                (*lp).core@,
                (*thread)@,
                done,
                (*final(lp)).core@,
                (*final(thread))@,
            ),
        forall|
            lp: &mut PyLoop,
            thread: &mut ThreadReady,
            main_thread: bool,
            sig: i32,
            template: SignalHandlerTemplate,
            done: Result<Option<Sent>, SignalError>,
        | #[trigger]
            call_ensures(
                PyLoop::add_signal_handler,
                (lp, thread, main_thread, sig, template),
                done,
            ) ==> is_signal_handler_added(
                (*lp).core@,
                (*thread)@,
                main_thread,
                sig,
                template,
                done,
                (*final(lp)).core@,
                (*final(thread))@,
            ),
        forall|
            lp: &mut PyLoop,
            thread: &mut ThreadReady,
            sig: i32,
            done: Option<Result<Sent, LoopCoreError>>,
        | #[trigger]
            call_ensures(PyLoop::remove_signal_handler, (lp, thread, sig), done)
                ==> is_signal_handler_removed(
                (*lp).core@,
                (*thread)@,
                sig,
                done,
                (*final(lp)).core@,
                (*final(thread))@,
            ),
{
}

/// A stream transport reports, counts, writes and ends as the laws on it say.
pub proof fn law_stream_transport_takes_its_steps()
    ensures
        forall|
            transport: &mut StreamTransportCore,
            core: &mut LoopCore,
            thread: &mut ThreadReady,
            event: PendingReadEvent,
            told: Option<Result<Sent, LoopCoreError>>,
        | #[trigger]
            call_ensures(
                StreamTransportCore::enqueue_pending_read_event,
                (transport, core, thread, event),
                told,
            ) ==> is_reported(
                (*transport)@,
                (*core)@,
                (*thread)@,
                event,
                told,
                (*final(transport))@,
                (*final(core))@,
                (*final(thread))@,
            ),
        forall|
            transport: &mut StreamTransportCore,
            core: &mut LoopCore,
            thread: &mut ThreadReady,
            high: Option<usize>,
            low: Option<usize>,
            done: Result<Notify, LimitsError>,
        | #[trigger]
            call_ensures(
                StreamTransportCore::set_write_buffer_limits,
                (transport, core, thread, high, low),
                done,
            ) && requested_high(high, low) <= usize::MAX ==> are_limits_set(
                (*transport)@,
                (*core)@,
                (*thread)@,
                high,
                low,
                done,
                (*final(transport))@,
                (*final(core))@,
                (*final(thread))@,
            ),
        forall|
            transport: &mut StreamTransportCore,
            core: &mut LoopCore,
            thread: &mut ThreadReady,
            len: usize,
            notify: Notify,
        | #[trigger]
            call_ensures(
                StreamTransportCore::record_write_buffer_drained,
                (transport, core, thread, len),
                notify,
            ) ==> is_drain_recorded(
                (*transport)@,
                (*core)@,
                (*thread)@,
                len,
                notify,
                (*final(transport))@,
                (*final(core))@,
                (*final(thread))@,
            ),
        forall|
            transport: &mut StreamTransportCore,
            core: &mut LoopCore,
            thread: &mut ThreadReady,
            len: usize,
            step: QueueStep,
        | #[trigger]
            call_ensures(StreamTransportCore::queue_write, (transport, core, thread, len), step)
                ==> is_write_queued(
                (*transport)@,
                (*core)@,
                (*thread)@,
                len,
                step,
                (*final(transport))@,
                (*final(core))@,
                (*final(thread))@,
            ),
        forall|
            transport: &mut StreamTransportCore,
            core: &mut LoopCore,
            thread: &mut ThreadReady,
            reason: Option<String>,
            failed: (bool, Option<Result<Sent, LoopCoreError>>),
        | #[trigger]
            call_ensures(StreamTransportCore::fail_write, (transport, core, thread, reason), failed)
                ==> is_write_failed(
                (*transport)@,
                (*core)@,
                (*thread)@,
                reason,
                failed,
                (*final(transport))@,
                (*final(core))@,
                (*final(thread))@,
            ),
        forall|
            transport: &mut StreamTransportCore,
            core: &mut LoopCore,
            thread: &mut ThreadReady,
            data: &[u8],
            outcome: DirectWrite,
            step: DirectStep,
        | #[trigger]
            call_ensures(
                StreamTransportCore::direct_write_finished,
                (transport, core, thread, data, outcome),
                step,
            ) && (outcome matches DirectWrite::Written(n) ==> n <= data@.len()) ==> is_direct_write(
                (*transport)@,
                (*core)@,
                (*thread)@,
                data@,
                outcome,
                step,
                (*final(transport))@,
                (*final(core))@,
                (*final(thread))@,
            ),
        forall|
            transport: &mut StreamTransportCore,
            core: &mut LoopCore,
            thread: &mut ThreadReady,
            reason: Option<String>,
            route: LossRoute,
        | #[trigger]
            call_ensures(
                StreamTransportCore::connection_lost,
                (transport, core, thread, reason),
                route,
            ) ==> is_loss_route(
                (*transport)@,
                (*core)@,
                (*thread)@,
                reason,
                route,
                (*final(transport))@,
                (*final(core))@,
                (*final(thread))@,
            ),
{
}

/// The transport of a process handles data, lost pipes and the exit as the laws on it say.
pub proof fn law_process_transport_takes_its_steps()
    ensures
        forall|
            transport: &mut ProcessTransportCore,
            core: &mut LoopCore,
            thread: &mut ThreadReady,
            returncode: i32,
            route: ProcessRoute,
        | #[trigger]
            call_ensures(
                ProcessTransportCore::process_exited,
                (transport, core, thread, returncode),
                route,
            ) ==> is_exit_route(
                (*transport)@,
                (*core)@,
                (*thread)@,
                returncode,
                route,
                (*final(transport))@,
                (*final(core))@,
                (*final(thread))@,
            ),
        forall|
            transport: &mut ProcessTransportCore,
            core: &mut LoopCore,
            thread: &mut ThreadReady,
            fd: i32,
            reason: Option<String>,
            route: ProcessRoute,
        | #[trigger]
            call_ensures(
                ProcessTransportCore::pipe_connection_lost_message,
                (transport, core, thread, fd, reason),
                route,
            ) ==> is_pipe_loss_route(
                (*transport)@,
                (*core)@,
                (*thread)@,
                fd,
                reason,
                route,
                (*final(transport))@,
                (*final(core))@,
                (*final(thread))@,
            ),
        forall|
            transport: &mut ProcessTransportCore,
            core: &mut LoopCore,
            thread: &mut ThreadReady,
            fd: i32,
            data: Vec<u8>,
            route: DataRoute,
        | #[trigger]
            call_ensures(
                ProcessTransportCore::pipe_data_received,
                (transport, core, thread, fd, data),
                route,
            ) ==> is_data_route(
                (*transport)@,
                (*core)@,
                (*thread)@,
                fd,
                data,
                route,
                (*final(transport))@,
                (*final(core))@,
                (*final(thread))@,
            ),
{
}

/// What is decided from the arguments alone is decided as the laws on it say.
pub proof fn law_decisions_are_those_of_their_laws()
    ensures
        forall|given: TlsArguments, checked: Result<(), ConnectError>| #[trigger]
            call_ensures(check_tls_arguments, (given,), checked) ==> checked == tls_arguments_fit(
                given,
            ),
        forall|event: SocketConnectEvent, action: SocketConnectAction| #[trigger]
            call_ensures(connect_socket_to_address, (event,), action) ==> action
                == socket_connect_step(event),
        forall|
            core: &LoopCore,
            executor: Option<ObjectId>,
            route: Result<ExecutorRoute, ExecutorError>,
        | #[trigger]
            call_ensures(run_in_executor, (core, executor), route) ==> route == executor_route(
                core@,
                executor,
            ),
        forall|event: SockEvent, action: SockAction| #[trigger]
            call_ensures(receive_step, (event,), action) ==> action == sock_step(event),
        forall|event: ReaderEvent, s: ReaderSituation, action: ReaderAction| #[trigger]
            call_ensures(run_stream_reader, (event, s), action) ==> action == reader_does(event, s),
        forall|event: AcceptEvent, stop: bool, closed: bool, action: AcceptAction| #[trigger]
            call_ensures(run_accept_loop, (event, stop, closed), action) ==> action
                == acceptor_does(event, stop, closed),
        forall|
            future: ObjectId,
            done: bool,
            exception: Option<ObjectId>,
            call: Option<FutureCall>,
        | #[trigger]
            call_ensures(settle_drain_waiter, (future, done, exception), call) ==> call
                == waiter_call(future, done, exception),
        forall|
            protocol: &PyFastStreamProtocol,
            exception: Option<ObjectId>,
            step: DrainStep,
        | #[trigger]
            call_ensures(PyFastStreamProtocol::build_drain_future, (protocol, exception), step)
                ==> step == drained(protocol@, exception),
        forall|
            argument: StdioArgument,
            allow: bool,
            spec: Result<ProcessStdioSpec, SubprocessError>,
        | #[trigger]
            call_ensures(parse_process_stdio, (argument, allow), spec) ==> spec == stdio_meaning(
                argument,
                allow,
            ),
        forall|
            newlines: bool,
            encoding: bool,
            errors: bool,
            text: Option<bool>,
            mode: Result<bool, SubprocessError>,
        | #[trigger]
            call_ensures(is_text_mode, (newlines, encoding, errors, text), mode) ==> mode
                == text_mode(newlines, encoding, errors, text),
        forall|
            core: &LoopCore,
            thread: &ThreadReady,
            is_current: bool,
            route: FutureRoute,
        | #[trigger]
            call_ensures(create_future, (core, thread, is_current), route) ==> route
                == future_route(core@, thread@, is_current),
        forall|
            core: &LoopCore,
            thread: &ThreadReady,
            support: &TaskKwargSupport,
            options: &TaskOptions,
            step: TaskStep,
        | #[trigger]
            call_ensures(create_task, (core, thread, support, options), step) ==> is_task_step(
                core@,
                thread@,
                *support,
                *options,
                step,
            ),
        forall|
            sent: Option<Result<usize, IoError>>,
            wants_write: bool,
            action: FlushAction,
        | #[trigger]
            call_ensures(flush_tls_io, (sent, wants_write), action) ==> is_flush_step(
                sent,
                wants_write,
                action,
            ),
        forall|event: TlsReaderEvent, stop: bool, closing: bool, action: TlsReaderAction| #[trigger]
            call_ensures(run_tls_reader, (event, stop, closing), action) ==> action
                == tls_reader_does(event, stop, closing),
{
}

} // verus!
