use rsloop::asyncgens::{
    active_asyncgens_set, asyncgen_close_failed_message, asyncgen_finalizer_hook,
    asyncgen_firstiter_hook, late_asyncgen_message, shutdown_asyncgens, AsyncgenAction,
    AsyncgenEvent,
};
use rsloop::executor::{
    executor_timeout_message, run_in_executor, shutdown_default_executor, ExecutorError,
    ExecutorRoute, ShutdownAction, ShutdownEvent, ShutdownTimeout,
};
use rsloop::loop_commands::{
    CallbackKind, FdWatch, LoopCommand, LoopFutureCommand, LoopIoCommand, LoopRunCommand,
    LoopSignalCommand, LoopTransportCommand, ReadyCallback, ReadyItem,
};
use rsloop::loop_core::{
    finish_send, runtime_joined, CloseStep, HandlerStep, LoopCore, LoopCoreError, Sent,
    SignalHandlerTemplate, ThreadReady,
};
use rsloop::loop_run::{
    run_result, CallbackEnd, FinishWait, LoopRun, RunAction, RunError, RunEvent, READY_DRAIN_SLICE,
};
use rsloop::objects::ExceptionClass;
use rsloop::os_constants::SIGCHLD;
use rsloop::py_loop::{
    call_items, future_done_stop, new_event_loop, signal_bridge, stopped_early_message,
    CompleteAction, CompleteEvent, FutureEnd, LoopClosing, PyLoop, RunUntilComplete, SignalError,
};
use rsloop::tasks::{
    asyncio_task_kwnames_for_options, create_future, create_task,
    detect_asyncio_task_kwarg_support, future_needs_asking, mark_task_kwarg_supported, task_route,
    trim_task_source_traceback, unexpected_keyword_message, FutureRoute, TaskKwarg,
    TaskKwargSupport, TaskOptions, TaskRoute, TaskStep,
};

fn ready(id: u64, kind: CallbackKind) -> ReadyCallback {
    ReadyCallback { id, kind, callback: 10, args: 11, context: 12, context_needs_run: false }
}

fn watch(fd: i64) -> FdWatch {
    FdWatch { fd, callback: 10, args: 11, context: 12, context_needs_run: false }
}

fn running() -> (LoopCore, ThreadReady, LoopRun, crossbeam_channel::Receiver<LoopCommand>) {
    let (mut core, receiver) = LoopCore::new(1);
    let mut thread = ThreadReady::new();
    let run = match core.run_forever(&mut thread) {
        Ok(run) => run,
        Err(error) => panic!("{}", error.message()),
    };
    run.enter(&core, &mut thread);
    assert_eq!(receiver.try_recv(), Ok(LoopCommand::Run(LoopRunCommand::EnterRun)));
    (core, thread, run, receiver)
}

fn callback_id(action: RunAction) -> u64 {
    match action {
        RunAction::Execute(ReadyItem::Callback(callback)) => callback.id,
        _ => panic!("no callback is due"),
    }
}

#[test]
fn queue_items_and_commands_belong_together() {
    let items = [
        ReadyItem::Stop,
        ReadyItem::Callback(ready(1, CallbackKind::Soon)),
        ReadyItem::FutureSetResult { future: 1, value: 2 },
        ReadyItem::FutureSetException { future: 1, value: 2 },
        ReadyItem::StreamTransportRead(3),
        ReadyItem::ProcessTransport(4),
        ReadyItem::ServerAccepted { server: 5, stream: 6 },
    ];
    for item in items {
        assert_eq!(item.into_command().ready_item(), Some(item));
    }
    assert_eq!(LoopCommand::Close.ready_item(), None);
    assert_eq!(LoopCommand::Io(LoopIoCommand::StopReader(1)).ready_item(), None);
}

#[test]
fn an_idle_loop_gets_its_commands_through_the_channel() {
    let (mut core, receiver) = LoopCore::new(1);
    let mut thread = ThreadReady::new();
    let command = LoopCommand::Future(LoopFutureCommand::SetResult { future: 1, value: 2 });
    assert_eq!(core.send_command(&mut thread, command), Ok(Sent::Channel));
    assert_eq!(core.schedule_stop(&mut thread), Ok(Sent::Channel));
    assert_eq!(receiver.try_recv(), Ok(command));
    assert_eq!(receiver.try_recv(), Ok(LoopCommand::RequestStop));
    assert!(receiver.try_recv().is_err());
    drop(receiver);
    assert_eq!(core.schedule_stop(&mut thread), Err(LoopCoreError::ChannelClosed));
}

#[test]
fn a_command_goes_to_the_nearest_queue() {
    let (mut core, mut thread, mut run, receiver) = running();
    let mut other = ThreadReady::new();
    let item = LoopCommand::Transport(LoopTransportCommand::StreamRead(3));
    assert_eq!(core.send_command(&mut other, item), Ok(Sent::Pending { wake: true }));
    assert!(core.is_wake_pending());
    assert_eq!(core.send_command(&mut other, item), Ok(Sent::Pending { wake: false }));
    assert_eq!(core.send_command(&mut thread, item), Ok(Sent::Pending { wake: false }));
    assert!(matches!(
        run.step(&mut core, &mut thread, RunEvent::Begin),
        RunAction::Execute(ReadyItem::StreamTransportRead(3))
    ));
    assert_eq!(core.send_command(&mut thread, item), Ok(Sent::Local));
    let io = LoopCommand::Io(LoopIoCommand::StopReader(7));
    assert_eq!(core.send_command(&mut thread, io), Ok(Sent::Channel));
    assert_eq!(receiver.try_recv(), Ok(io));
}

#[test]
fn errors_of_the_loop_have_messages() {
    assert_eq!(LoopCoreError::Closed.message(), "event loop is closed");
    assert_eq!(LoopCoreError::Running.message(), "event loop is already running");
    assert_eq!(LoopCoreError::NotRunning.message(), "event loop is not running");
    assert_eq!(
        LoopCoreError::ChannelClosed.message(),
        "event loop runtime channel is closed"
    );
    assert_eq!(LoopCoreError::ThreadJoin.message(), "failed to join loop runtime thread");
    assert_eq!(runtime_joined(true), Ok(()));
    assert_eq!(runtime_joined(false), Err(LoopCoreError::ThreadJoin));
    assert_eq!(finish_send(Ok(())), Ok(Sent::Channel));
    assert_eq!(finish_send(Err(LoopCommand::Close)), Err(LoopCoreError::ChannelClosed));
}

#[test]
fn callbacks_are_numbered() {
    let (mut core, receiver) = LoopCore::new(1);
    let mut thread = ThreadReady::new();
    let first = core.schedule_callback(&mut thread, CallbackKind::Soon, 10, 11, 12, false);
    assert_eq!(first, Ok((ready(1, CallbackKind::Soon), Sent::Channel)));
    let second = core.schedule_timer(&mut thread, 500, 10, 11, 12, false);
    assert_eq!(second, Ok((ready(2, CallbackKind::Timer), Sent::Channel)));
    assert_eq!(core.next_callback_id(), 3);
    assert_eq!(
        receiver.try_recv(),
        Ok(LoopCommand::ScheduleReady(ready(1, CallbackKind::Soon)))
    );
    assert_eq!(
        receiver.try_recv(),
        Ok(LoopCommand::ScheduleTimer { callback: ready(2, CallbackKind::Timer), when: 500 })
    );
    assert!(core.execute_ready(false) && !core.execute_ready(true));
}

#[test]
fn a_loop_closes_once_and_not_while_it_runs() {
    let (mut core, receiver) = LoopCore::new(1);
    let mut thread = ThreadReady::new();
    assert!(core.run_forever(&mut thread).is_ok());
    assert_eq!(core.close(&mut thread), Err(LoopCoreError::Running));
    core.run_noted();
    assert_eq!(core.close(&mut thread), Ok(CloseStep::JoinRuntime));
    assert_eq!(receiver.try_recv(), Ok(LoopCommand::Run(LoopRunCommand::EnterRun)));
    assert_eq!(receiver.try_recv(), Ok(LoopCommand::Close));
    assert_eq!(core.close(&mut thread), Ok(CloseStep::AlreadyClosed));
    assert!(core.is_closed());
    assert!(matches!(core.run_forever(&mut thread), Err(LoopCoreError::Closed)));
}

#[test]
fn a_finished_run_leaves_a_loop_that_runs_again_and_closes() {
    let (mut core, mut thread, mut run, _receiver) = running();
    core.schedule_stop(&mut thread).ok();
    assert_eq!(run.step(&mut core, &mut thread, RunEvent::Begin), RunAction::Finish);
    run.leave(&core, &mut thread);
    let (left, told) = run.finish(&mut core, &mut thread);
    assert!(left.is_empty());
    assert_eq!(told, Ok(Sent::Channel));
    assert!(core.is_running());
    core.run_noted();
    assert!(!core.is_running() && !core.is_closed());
    assert!(core.run_forever(&mut thread).is_ok());
    core.run_noted();
    assert_eq!(core.close(&mut thread), Ok(CloseStep::JoinRuntime));
    assert!(core.is_closed() && !core.is_running());
    core.schedule_stop(&mut thread).ok();
    core.run_noted();
    assert!(core.is_closed());
}

#[test]
fn a_thread_runs_one_loop_at_a_time() {
    let (core, thread, _run, _receiver) = running();
    assert_eq!(core.check_thread(&thread), Ok(()));
    let (other, _other_receiver) = LoopCore::new(2);
    assert_eq!(other.check_thread(&thread), Err(RunError::OtherLoopRuns));
    assert_eq!(other.check_thread(&ThreadReady::new()), Ok(()));
    assert_eq!(
        RunError::OtherLoopRuns.message(),
        Some("Cannot run the event loop while another loop is running")
    );
}

#[test]
fn a_loop_runs_once_at_a_time() {
    let (mut core, mut thread, _run, _receiver) = running();
    assert!(core.is_running());
    assert!(thread.has_queue());
    assert!(matches!(core.run_forever(&mut thread), Err(LoopCoreError::Running)));
}

#[test]
fn own_items_are_done_in_order_and_nothing_is_lost() {
    let (mut core, mut thread, mut run, _receiver) = running();
    let mut done = Vec::new();
    core.send_command(&mut thread, LoopCommand::ScheduleReady(ready(1, CallbackKind::Soon))).ok();
    let mut action = run.step(&mut core, &mut thread, RunEvent::Begin);
    let mut next = 2;
    while let RunAction::Execute(ReadyItem::Callback(callback)) = action {
        done.push(callback.id);
        while next <= 200 && next <= callback.id * 2 + 1 {
            let command = LoopCommand::ScheduleReady(ready(next, CallbackKind::Soon));
            assert_eq!(core.send_command(&mut thread, command), Ok(Sent::Local));
            next += 1;
        }
        action = run.step(&mut core, &mut thread, RunEvent::ItemDone);
    }
    assert_eq!(action, RunAction::CheckSignals);
    assert_eq!(done, (1..=200).collect::<Vec<u64>>());
    assert_eq!(
        run.step(&mut core, &mut thread, RunEvent::SignalsChecked),
        RunAction::WaitWake
    );
}

#[test]
fn items_of_other_threads_go_first_within_a_slice() {
    let (mut core, mut thread, mut run, _receiver) = running();
    let mut other = ThreadReady::new();
    for id in 1..=(2 * READY_DRAIN_SLICE as u64) {
        let command = LoopCommand::ScheduleReady(ready(id, CallbackKind::Soon));
        core.send_command(&mut other, command).ok();
    }
    let mut seen = Vec::new();
    seen.push(callback_id(run.step(&mut core, &mut thread, RunEvent::Begin)));
    let late = LoopCommand::ScheduleReady(ready(1000, CallbackKind::Threadsafe));
    assert_eq!(core.send_command(&mut other, late), Ok(Sent::Pending { wake: true }));
    for _ in 0..READY_DRAIN_SLICE {
        seen.push(callback_id(run.step(&mut core, &mut thread, RunEvent::ItemDone)));
    }
    assert_eq!(seen[READY_DRAIN_SLICE - 1], READY_DRAIN_SLICE as u64);
    assert_eq!(seen[READY_DRAIN_SLICE], 1000);
}

#[test]
fn a_stopped_loop_finishes_what_it_has() {
    let (mut core, mut thread, mut run, receiver) = running();
    assert!(matches!(core.schedule_stop(&mut thread), Ok(Sent::Pending { .. })));
    let after = LoopCommand::ScheduleReady(ready(1, CallbackKind::Soon));
    core.send_command(&mut thread, after).ok();
    assert_eq!(callback_id(run.step(&mut core, &mut thread, RunEvent::Begin)), 1);
    assert_eq!(run.step(&mut core, &mut thread, RunEvent::ItemDone), RunAction::Finish);
    assert!(core.state().stopping);
    let left = LoopCommand::ScheduleReady(ready(2, CallbackKind::Soon));
    core.send_command(&mut ThreadReady::new(), left).ok();
    run.leave(&core, &mut thread);
    assert!(!thread.has_queue());
    let (items, told) = run.finish(&mut core, &mut thread);
    assert_eq!(items, vec![ReadyItem::Callback(ready(2, CallbackKind::Soon))]);
    assert_eq!(told, Ok(Sent::Channel));
    assert_eq!(receiver.try_recv(), Ok(LoopCommand::Run(LoopRunCommand::FinishRun)));
}

#[test]
fn a_raised_exception_ends_the_run() {
    let (mut core, mut thread, mut run, _receiver) = running();
    assert_eq!(run.step(&mut core, &mut thread, RunEvent::Begin), RunAction::CheckSignals);
    assert_eq!(
        run.step(&mut core, &mut thread, RunEvent::SignalRaised(9)),
        RunAction::FinishWith(RunError::Raised(9))
    );
    assert_eq!(
        run.step(&mut core, &mut thread, RunEvent::CallbackFailed(8)),
        RunAction::FinishWith(RunError::Raised(8))
    );
    assert_eq!(
        run.step(&mut core, &mut thread, RunEvent::ItemRaised(7)),
        RunAction::Abort(7)
    );
    assert_eq!(
        run.step(&mut core, &mut thread, RunEvent::Disconnected),
        RunAction::FinishWith(RunError::RuntimeTerminated)
    );
}

#[test]
fn the_end_of_a_run_must_be_noted() {
    assert_eq!(run_result(Ok(()), FinishWait::Done), Ok(()));
    assert_eq!(
        run_result(Err(RunError::Raised(4)), FinishWait::Done),
        Err(RunError::Raised(4))
    );
    assert_eq!(run_result(Ok(()), FinishWait::Timeout), Err(RunError::FinishTimedOut));
    assert_eq!(
        run_result(Ok(()), FinishWait::Disconnected),
        Err(RunError::RuntimeTerminated)
    );
    assert_eq!(RunError::Raised(4).message(), None);
    assert_eq!(
        RunError::Core(LoopCoreError::Closed).message(),
        Some("event loop is closed")
    );
    assert!(RunError::RuntimeTerminated.message().is_some());
    assert!(RunError::FinishTimedOut.message().is_some());
}

#[test]
fn a_watch_is_renewed_while_it_is_kept() {
    let (mut py, mut thread, receiver) = py_loop();
    let read = ready(1, CallbackKind::Reader(7));
    assert_eq!(py.core.rearm_fd_watch_if_needed(&mut thread, read), None);
    assert!(py.add_reader(&mut thread, watch(7), 70).is_ok());
    assert!(receiver.try_recv().is_ok());
    let core = &mut py.core;
    assert_eq!(core.rearm_fd_watch_if_needed(&mut thread, read), Some(Ok(Sent::Channel)));
    assert_eq!(
        receiver.try_recv(),
        Ok(LoopCommand::Io(LoopIoCommand::StartReader(watch(7))))
    );
    let soon = ready(1, CallbackKind::Soon);
    assert_eq!(core.rearm_fd_watch_if_needed(&mut thread, soon), None);
}

#[test]
fn watch_is_renewed_however_the_callback_ends() {
    let (mut py, mut thread, receiver) = py_loop();
    assert!(py.add_writer(&mut thread, watch(7), 70).is_ok());
    assert!(receiver.try_recv().is_ok());
    let core = &mut py.core;
    let write = ready(1, CallbackKind::Writer(7));
    let ends = [
        (CallbackEnd::Settled, RunEvent::ItemDone),
        (CallbackEnd::LetThrough(5), RunEvent::CallbackFailed(5)),
        (CallbackEnd::ReportFailed(6), RunEvent::ItemRaised(6)),
    ];
    for (end, event) in ends {
        let done = core.executed_ready(&mut thread, write, end);
        assert_eq!(done, (event, Some(Ok(Sent::Channel))));
        assert_eq!(
            receiver.try_recv(),
            Ok(LoopCommand::Io(LoopIoCommand::StartWriter(watch(7))))
        );
    }
    let done = core.executed_ready(&mut thread, ready(2, CallbackKind::Soon), CallbackEnd::Settled);
    assert_eq!(done, (RunEvent::ItemDone, None));
}

#[test]
fn callbacks_are_described() {
    assert_eq!(ready(3, CallbackKind::Soon).description(), "<Soon id=3>");
    assert_eq!(ready(41, CallbackKind::Reader(12)).description(), "<Reader(12) id=41>");
    assert_eq!(ready(10, CallbackKind::Writer(-1)).description(), "<Writer(-1) id=10>");
    let timer = ready(1, CallbackKind::Timer);
    assert_eq!(timer.description(), format!("<{:?} id={}>", timer.kind, timer.id));
}

#[test]
fn exceptions_go_to_the_handler() {
    let (mut py, _thread, _receiver) = py_loop();
    assert_eq!(py.core.call_exception_handler(Some(5)), HandlerStep::Default);
    py.set_exception_handler(Some(6));
    let core = &py.core;
    assert_eq!(
        core.call_exception_handler(Some(5)),
        HandlerStep::Call { handler: 6, loop_obj: Some(5) }
    );
    assert_eq!(core.default_exception_handler(Some("oops".to_owned())), "oops\n");
    assert_eq!(core.default_exception_handler(None), "Unhandled exception in rsloop\n");
}

fn py_loop() -> (PyLoop, ThreadReady, crossbeam_channel::Receiver<LoopCommand>) {
    let (py, receiver) = new_event_loop(1);
    (py, ThreadReady::new(), receiver)
}

#[test]
fn closing_takes_the_helpers_away() {
    let (mut py, mut thread, receiver) = py_loop();
    py.set_default_executor(Some(30));
    assert_eq!(active_asyncgens_set(&mut py.core, 31), 31);
    assert!(py.core.run_forever(&mut thread).is_ok());
    assert_eq!(receiver.try_recv(), Ok(LoopCommand::Run(LoopRunCommand::EnterRun)));
    assert_eq!(py.close(&mut thread), Err(LoopCoreError::Running));
    assert_eq!(py.core.state().default_executor, Some(30));
    py.core.run_noted();
    assert_eq!(py.close(&mut thread), Ok(LoopClosing::JoinRuntime { executor: Some(30) }));
    assert_eq!(receiver.try_recv(), Ok(LoopCommand::Close));
    assert_eq!(py.core.state().default_executor, None);
    assert_eq!(py.core.state().active_asyncgens, None);
    assert!(py.core.state().executor_shutdown_called);
    assert_eq!(py.close(&mut thread), Ok(LoopClosing::AlreadyClosed));
    assert_eq!(py.repr(), "<rsloop.Loop running=false closed=true debug=false>");
}

#[test]
fn python_schedules_and_stops() {
    let (mut py, mut thread, receiver) = py_loop();
    assert!(py.call_soon(&mut thread, 10, 11, 12, false).is_ok());
    assert!(py.call_soon_threadsafe(&mut thread, 10, 11, 12, false).is_ok());
    assert_eq!(py.stop(&mut thread), Ok(Sent::Channel));
    assert_eq!(
        receiver.try_recv(),
        Ok(LoopCommand::ScheduleReady(ready(1, CallbackKind::Soon)))
    );
    assert_eq!(
        receiver.try_recv(),
        Ok(LoopCommand::ScheduleReady(ready(2, CallbackKind::Threadsafe)))
    );
    assert_eq!(receiver.try_recv(), Ok(LoopCommand::RequestStop));
}

#[test]
fn settings_are_kept() {
    let (mut py, _thread, _receiver) = py_loop();
    assert_eq!(py.get_task_factory(), None);
    py.set_task_factory(Some(40));
    assert_eq!(py.get_task_factory(), Some(40));
    assert!(py.core.has_task_factory());
    py.set_task_factory(None);
    assert!(!py.core.has_task_factory());
    py.set_exception_handler(Some(41));
    assert_eq!(py.get_exception_handler(), Some(41));
    py.core.set_debug(true);
    assert_eq!(py.repr(), "<rsloop.Loop running=false closed=false debug=true>");
    assert_eq!(
        PyLoop::not_implemented("add_signal_handler"),
        "add_signal_handler is not implemented in rust-impl yet"
    );
}

#[test]
fn descriptors_are_watched_until_they_are_removed() {
    let (mut py, mut thread, receiver) = py_loop();
    assert_eq!(py.add_reader(&mut thread, watch(7), 70), Ok(Sent::Channel));
    assert_eq!(py.add_writer(&mut thread, watch(8), 80), Ok(Sent::Channel));
    assert_eq!(py.core.state().reader_keepalive.get(&7), Some(&70));
    assert_eq!(py.remove_reader(&mut thread, 7), (true, Ok(Sent::Channel)));
    assert_eq!(py.remove_reader(&mut thread, 7), (false, Ok(Sent::Channel)));
    assert_eq!(py.remove_writer(&mut thread, 8), (true, Ok(Sent::Channel)));
    assert_eq!(py.remove_writer(&mut thread, 9), (false, Ok(Sent::Channel)));
    let sent: Vec<LoopCommand> = receiver.try_iter().collect();
    assert_eq!(
        sent,
        vec![
            LoopCommand::Io(LoopIoCommand::StartReader(watch(7))),
            LoopCommand::Io(LoopIoCommand::StartWriter(watch(8))),
            LoopCommand::Io(LoopIoCommand::StopReader(7)),
            LoopCommand::Io(LoopIoCommand::StopReader(7)),
            LoopCommand::Io(LoopIoCommand::StopWriter(8)),
            LoopCommand::Io(LoopIoCommand::StopWriter(9)),
        ]
    );
}

#[test]
fn signals_are_watched_while_they_are_handled() {
    let (mut py, mut thread, receiver) = py_loop();
    let template = SignalHandlerTemplate {
        callback: 10,
        args: 11,
        context: 12,
        context_needs_run: false,
    };
    assert_eq!(
        py.add_signal_handler(&mut thread, false, 2, template),
        Err(SignalError::NotMainThread)
    );
    assert_eq!(SIGCHLD, libc::SIGCHLD);
    assert_eq!(
        py.add_signal_handler(&mut thread, true, libc::SIGCHLD, template),
        Err(SignalError::Reserved)
    );
    assert_eq!(
        py.add_signal_handler(&mut thread, true, 2, template),
        Ok(Some(Sent::Channel))
    );
    assert_eq!(py.add_signal_handler(&mut thread, true, 2, template), Ok(None));
    assert_eq!(
        py.remove_signal_handler(&mut thread, 2),
        Some(Ok(Sent::Channel))
    );
    assert_eq!(py.remove_signal_handler(&mut thread, 2), None);
    assert!(py.core.state().signal_handlers.is_empty());
    let sent: Vec<LoopCommand> = receiver.try_iter().collect();
    assert_eq!(
        sent,
        vec![
            LoopCommand::Signal(LoopSignalCommand::StartWatcher(2)),
            LoopCommand::Signal(LoopSignalCommand::StopWatcher(2)),
        ]
    );
    drop(receiver);
    assert_eq!(
        py.add_signal_handler(&mut thread, true, 3, template),
        Err(SignalError::Loop(LoopCoreError::ChannelClosed))
    );
    assert_eq!(
        SignalError::NotMainThread.message(),
        "set_wakeup_fd only works in main thread of the main interpreter"
    );
    assert_eq!(SignalError::NotMainThread.exception(), ExceptionClass::ValueError);
    assert_eq!(
        SignalError::Reserved.message(),
        "SIGCHLD is reserved for subprocess handling"
    );
    assert_eq!(SignalError::Reserved.exception(), ExceptionClass::RuntimeError);
    assert_eq!(
        SignalError::Loop(LoopCoreError::Closed).message(),
        "event loop is closed"
    );
    assert_eq!(signal_bridge(10, &vec![1, 2]), vec![10, 1, 2]);
    assert_eq!(call_items(10, &vec![]), vec![10]);
}

#[test]
fn a_done_future_stops_the_loop() {
    assert!(future_done_stop(FutureEnd::Cancelled));
    assert!(future_done_stop(FutureEnd::Result));
    assert!(future_done_stop(FutureEnd::OtherException));
    assert!(!future_done_stop(FutureEnd::SystemExit));
    assert!(!future_done_stop(FutureEnd::KeyboardInterrupt));
}

#[test]
fn running_until_complete_gives_the_result_back() {
    let mut run = RunUntilComplete::new(true);
    assert_eq!(run.step(CompleteEvent::Begin), CompleteAction::Run);
    assert_eq!(run.step(CompleteEvent::Ran), CompleteAction::RemoveStopper);
    assert_eq!(run.step(CompleteEvent::Over), CompleteAction::AskDone);
    assert_eq!(run.step(CompleteEvent::Answer(true)), CompleteAction::ReturnResult);
    let mut run = RunUntilComplete::new(true);
    run.step(CompleteEvent::Begin);
    run.step(CompleteEvent::Ran);
    run.step(CompleteEvent::Over);
    assert_eq!(run.step(CompleteEvent::Answer(false)), CompleteAction::FailStopped);
    assert_eq!(stopped_early_message(), "Event loop stopped before Future completed.");
}

#[test]
fn a_failed_loop_collects_the_future_and_fails() {
    for new_task in [false, true] {
        let mut run = RunUntilComplete::new(new_task);
        run.step(CompleteEvent::Begin);
        assert_eq!(run.step(CompleteEvent::Failed(6)), CompleteAction::RemoveStopper);
        assert_eq!(run.step(CompleteEvent::Over), CompleteAction::AskDone);
        assert_eq!(run.step(CompleteEvent::Answer(true)), CompleteAction::AskCancelled);
        assert_eq!(run.step(CompleteEvent::Answer(false)), CompleteAction::CollectResult);
        if new_task {
            assert_eq!(run.step(CompleteEvent::Over), CompleteAction::CollectException);
        }
        assert_eq!(run.step(CompleteEvent::Over), CompleteAction::Fail(6));
    }
    let mut run = RunUntilComplete::new(true);
    run.step(CompleteEvent::Begin);
    run.step(CompleteEvent::Failed(6));
    run.step(CompleteEvent::Over);
    assert_eq!(run.step(CompleteEvent::Answer(false)), CompleteAction::Fail(6));
    let mut run = RunUntilComplete::new(true);
    run.step(CompleteEvent::Begin);
    run.step(CompleteEvent::Failed(6));
    run.step(CompleteEvent::Over);
    run.step(CompleteEvent::Answer(true));
    assert_eq!(run.step(CompleteEvent::Answer(true)), CompleteAction::Fail(6));
    let mut run = RunUntilComplete::new(true);
    run.step(CompleteEvent::Begin);
    run.step(CompleteEvent::Failed(6));
    run.step(CompleteEvent::Over);
    assert_eq!(run.step(CompleteEvent::Raised(7)), CompleteAction::Fail(7));
}

#[test]
fn work_goes_to_an_executor_until_the_shutdown() {
    let (mut py, _thread, _receiver) = py_loop();
    assert_eq!(run_in_executor(&py.core, None), Ok(ExecutorRoute::OwnThread));
    py.set_default_executor(Some(30));
    let mut core = py.core;
    assert_eq!(run_in_executor(&core, None), Ok(ExecutorRoute::Submit(30)));
    assert_eq!(run_in_executor(&core, Some(31)), Ok(ExecutorRoute::Submit(31)));
    let mut shutdown = shutdown_default_executor(&mut core, ShutdownTimeout::Forever);
    assert_eq!(shutdown.step(ShutdownEvent::Begin), ShutdownAction::ShutDownAndWait(30));
    assert_eq!(shutdown.step(ShutdownEvent::Done), ShutdownAction::Finish);
    assert_eq!(run_in_executor(&core, None), Err(ExecutorError::ShutdownCalled));
    assert_eq!(run_in_executor(&core, Some(31)), Ok(ExecutorRoute::Submit(31)));
    let mut again = shutdown_default_executor(&mut core, ShutdownTimeout::Forever);
    assert_eq!(again.step(ShutdownEvent::Begin), ShutdownAction::Finish);
    assert_eq!(
        ExecutorError::ShutdownCalled.message(),
        "Executor shutdown has been called"
    );
}

#[test]
fn an_executor_that_takes_too_long_is_hurried() {
    let shutdown = |timeout| {
        let (mut py, _thread, _receiver) = py_loop();
        py.set_default_executor(Some(30));
        shutdown_default_executor(&mut py.core, timeout)
    };
    let mut limited = shutdown(ShutdownTimeout::Limited);
    assert_eq!(limited.step(ShutdownEvent::Begin), ShutdownAction::StartShutDown(30));
    assert_eq!(limited.step(ShutdownEvent::Done), ShutdownAction::WaitUntilTimeout);
    assert_eq!(limited.step(ShutdownEvent::TimedOut), ShutdownAction::Warn);
    assert_eq!(limited.step(ShutdownEvent::Done), ShutdownAction::ShutDownNow(30));
    assert_eq!(limited.step(ShutdownEvent::Done), ShutdownAction::Finish);
    let mut in_time = shutdown(ShutdownTimeout::Limited);
    in_time.step(ShutdownEvent::Begin);
    in_time.step(ShutdownEvent::Done);
    assert_eq!(in_time.step(ShutdownEvent::Done), ShutdownAction::Finish);
    let mut dropped = shutdown(ShutdownTimeout::Limited);
    dropped.step(ShutdownEvent::Begin);
    dropped.step(ShutdownEvent::Done);
    assert_eq!(dropped.step(ShutdownEvent::Dropped), ShutdownAction::FailDropped);
    let mut at_once = shutdown(ShutdownTimeout::Nothing);
    at_once.step(ShutdownEvent::Begin);
    assert_eq!(at_once.step(ShutdownEvent::Done), ShutdownAction::Warn);
    assert_eq!(at_once.step(ShutdownEvent::Raised(2)), ShutdownAction::Fail(2));
    assert_eq!(
        executor_timeout_message("1.5"),
        "The executor did not finishing joining its threads within 1.5 seconds."
    );
    assert_eq!(
        ExecutorError::WorkerDropped.message(),
        "default executor shutdown worker dropped"
    );
}

#[test]
fn generators_are_kept_in_one_set() {
    let (mut core, _receiver) = LoopCore::new(1);
    assert_eq!(active_asyncgens_set(&mut core, 50), 50);
    assert_eq!(active_asyncgens_set(&mut core, 51), 50);
    let first = asyncgen_firstiter_hook(&mut core, 51);
    assert!(!first.warn);
    assert_eq!(first.set, 50);
    let last = asyncgen_finalizer_hook(&mut core, 51);
    assert!(last.schedule_close);
    assert_eq!(last.set, 50);
    shutdown_asyncgens(&mut core, vec![]);
    assert!(asyncgen_firstiter_hook(&mut core, 51).warn);
    assert!(core.close(&mut ThreadReady::new()).is_ok());
    assert!(!asyncgen_finalizer_hook(&mut core, 51).schedule_close);
    assert_eq!(
        late_asyncgen_message("<agen>"),
        "asynchronous generator <agen> was scheduled after loop.shutdown_asyncgens() call"
    );
    assert_eq!(
        asyncgen_close_failed_message("<agen>"),
        "an error occurred during closing of asynchronous generator <agen>"
    );
}

#[test]
fn every_generator_is_closed() {
    let (mut core, _receiver) = LoopCore::new(1);
    let mut shutdown = shutdown_asyncgens(&mut core, vec![1, 2, 3]);
    assert_eq!(shutdown.step(AsyncgenEvent::Begin), AsyncgenAction::Close(1));
    assert_eq!(shutdown.step(AsyncgenEvent::Closed), AsyncgenAction::Close(2));
    assert_eq!(
        shutdown.step(AsyncgenEvent::CloseFailed(9)),
        AsyncgenAction::Report { agen: 2, raised: 9 }
    );
    assert_eq!(shutdown.step(AsyncgenEvent::Reported), AsyncgenAction::Close(3));
    assert_eq!(shutdown.step(AsyncgenEvent::Closed), AsyncgenAction::Finish);
    let mut shutdown = shutdown_asyncgens(&mut core, vec![1]);
    shutdown.step(AsyncgenEvent::Begin);
    assert_eq!(shutdown.step(AsyncgenEvent::Raised(8)), AsyncgenAction::Fail(8));
}

fn options() -> TaskOptions {
    TaskOptions { name: None, context: None, eager_start: None, extra: vec![] }
}

#[test]
fn futures_know_their_loop() {
    let (core, _receiver) = LoopCore::new(1);
    let mut thread = ThreadReady::new();
    assert!(future_needs_asking(&core, &thread));
    assert_eq!(create_future(&core, &thread, false), FutureRoute::ForLoop);
    assert_eq!(create_future(&core, &thread, true), FutureRoute::ForRunningLoop);
    core.mark_runtime_thread(&mut thread);
    assert!(!future_needs_asking(&core, &thread));
    assert_eq!(create_future(&core, &thread, false), FutureRoute::ForRunningLoop);
}

#[test]
fn the_task_class_gets_what_it_takes() {
    let (mut core, _receiver) = LoopCore::new(1);
    let mut thread = ThreadReady::new();
    let all = TaskKwargSupport { name: true, context: true, eager_start: true };
    let old = detect_asyncio_task_kwarg_support(None);
    assert_eq!(old, TaskKwargSupport { name: true, context: false, eager_start: false });
    assert_eq!(detect_asyncio_task_kwarg_support(Some(all)), all);
    let full = TaskOptions {
        name: Some(1),
        context: Some(2),
        eager_start: Some(true),
        extra: vec![],
    };
    core.set_debug(true);
    match create_task(&core, &thread, &all, &full) {
        TaskStep::AskRunningLoop { kwargs: Some(kwargs), trim_traceback: true } => assert_eq!(
            kwargs,
            vec![TaskKwarg::Name(Some(1)), TaskKwarg::Context(2), TaskKwarg::EagerStart(true)]
        ),
        _ => panic!("the keywords are handed on"),
    }
    match create_task(&core, &thread, &old, &full) {
        TaskStep::AskRunningLoop { kwargs: Some(kwargs), .. } => {
            assert_eq!(kwargs, vec![TaskKwarg::Name(Some(1))])
        }
        _ => panic!("the name is handed on"),
    }
    core.mark_runtime_thread(&mut thread);
    assert!(matches!(
        create_task(&core, &thread, &all, &options()),
        TaskStep::ForRunningLoop
    ));
    let with_context = TaskOptions { context: Some(2), ..options() };
    assert!(matches!(
        create_task(&core, &thread, &old, &with_context),
        TaskStep::ForRunningLoop
    ));
    let unknown = TaskOptions { extra: vec![(7, 8)], ..options() };
    assert!(matches!(
        create_task(&core, &thread, &all, &unknown),
        TaskStep::Unexpected { key: 7 }
    ));
    assert_eq!(
        unexpected_keyword_message("'colour'"),
        "create_task() got an unexpected keyword argument 'colour'"
    );
}

#[test]
fn the_task_factory_gets_everything() {
    let (mut py, thread, _receiver) = py_loop();
    py.set_task_factory(Some(40));
    let none = TaskKwargSupport { name: false, context: false, eager_start: false };
    let given = TaskOptions { context: Some(2), extra: vec![(7, 8)], ..options() };
    match create_task(&py.core, &thread, &none, &given) {
        TaskStep::CallFactory { factory: 40, kwargs } => assert_eq!(
            kwargs,
            vec![
                TaskKwarg::Extra { key: 7, value: 8 },
                TaskKwarg::Name(None),
                TaskKwarg::Context(2),
            ]
        ),
        _ => panic!("the factory makes the task"),
    }
}

#[test]
fn tasks_are_made_for_the_loop_that_runs() {
    assert_eq!(task_route(true, false), TaskRoute::ForRunningLoop);
    assert_eq!(task_route(true, true), TaskRoute::ForRunningLoopWithKwargs);
    assert_eq!(task_route(false, false), TaskRoute::ForLoop);
    assert_eq!(task_route(false, true), TaskRoute::ForLoopWithKwargs);
    assert_eq!(asyncio_task_kwnames_for_options(false, false), vec!["loop"]);
    assert_eq!(asyncio_task_kwnames_for_options(true, false), vec!["loop", "name"]);
    assert_eq!(asyncio_task_kwnames_for_options(false, true), vec!["loop", "context"]);
    assert_eq!(
        asyncio_task_kwnames_for_options(true, true),
        vec!["loop", "name", "context"]
    );
    assert_eq!(trim_task_source_traceback(None), None);
    assert_eq!(trim_task_source_traceback(Some(0)), None);
    assert_eq!(trim_task_source_traceback(Some(5)), Some(4));
    let mut support = TaskKwargSupport { name: false, context: false, eager_start: false };
    for name in ["name", "eager_start", "loop"] {
        mark_task_kwarg_supported(&mut support, name);
    }
    assert_eq!(support, TaskKwargSupport { name: true, context: false, eager_start: true });
    mark_task_kwarg_supported(&mut support, "context");
    assert!(support.context);
}
