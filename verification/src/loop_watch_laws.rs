//! What holds of the ways in which work, watched descriptors and signals reach the loop.

use vstd::prelude::*;
use crate::loop_commands::{
    ready_item_of, CallbackKind, FdWatch, LoopCommand, LoopFutureCommand, LoopIoCommand,
    LoopSignalCommand, LoopTransportCommand, RawFd, ReadyCallback, ReadyItem,
};
use crate::loop_core::{
    fresh_state, handler_step, is_close, is_local, is_sent, numbered, rearming, scheduled,
    CloseStep, HandlerStep, LoopCoreError, LoopView, Sent, SignalHandlerTemplate, ThreadView,
};
use crate::objects::ObjectId;
use crate::os_constants::SIGCHLD;
use crate::py_loop::{
    call_list, complete_step, is_loop_close, is_reader_added, is_reader_removed,
    is_signal_handler_added, is_signal_handler_removed, is_writer_added, is_writer_removed,
    stops_the_loop, with_default_executor, with_exception_handler, with_reader, with_task_factory,
    with_writer, without_reader, without_writer, CompleteAction, CompleteEvent, CompletePhase,
    FutureEnd, LoopClosing, SignalError,
};
use crate::text::signed_decimal;

verus! {

/// A callback is watched again for the descriptor and the direction that it was called for, with
/// what it was called with, and for nothing else.
pub open spec fn watches_like(command: LoopCommand, ready: ReadyCallback) -> bool {
    match (command, ready.kind) {
        (
            LoopCommand::Io(LoopIoCommand::StartReader(watch)),
            CallbackKind::Reader(fd),
        ) => watch.fd == fd && calls_like(watch, ready),
        (
            LoopCommand::Io(LoopIoCommand::StartWriter(watch)),
            CallbackKind::Writer(fd),
        ) => watch.fd == fd && calls_like(watch, ready),
        _ => false,
    }
}

/// The watch calls what the callback called.
pub open spec fn calls_like(watch: FdWatch, ready: ReadyCallback) -> bool {
    &&& watch.callback == ready.callback
    &&& watch.args == ready.args
    &&& watch.context == ready.context
    &&& watch.context_needs_run == ready.context_needs_run
}

/// After a descriptor was taken off nothing watches it again for reading until it is added anew, and
/// the same of writing.
pub proof fn law_removed_descriptor_is_not_watched_again(
    v: LoopView,
    fd: RawFd,
    ready: ReadyCallback,
)
    ensures
        ready.kind == CallbackKind::Reader(fd) ==> rearming(without_reader(v, fd), ready) is None,
        ready.kind == CallbackKind::Writer(fd) ==> rearming(without_writer(v, fd), ready) is None,
{
}

/// A descriptor that is added is watched again after each of its callbacks, with the same callback.
pub proof fn law_added_descriptor_is_watched_again(
    v: LoopView,
    fd: RawFd,
    keepalive: ObjectId,
    ready: ReadyCallback,
)
    ensures
        ready.kind == CallbackKind::Reader(fd) ==> (rearming(with_reader(v, fd, keepalive), ready)
            matches Some(command) && watches_like(command, ready)),
        ready.kind == CallbackKind::Writer(fd) ==> (rearming(with_writer(v, fd, keepalive), ready)
            matches Some(command) && watches_like(command, ready)),
{
}

/// A callback is watched again only for what it was called for, and never where it came from no
/// descriptor. Whether that is done depends on its own descriptor and direction alone: adding or
/// taking off another one, or the other direction, changes nothing.
pub proof fn law_watches_are_told_apart(
    v: LoopView,
    fd: RawFd,
    keepalive: ObjectId,
    ready: ReadyCallback,
)
    ensures
        rearming(v, ready) matches Some(command) ==> watches_like(command, ready),
        ready.kind is Soon || ready.kind is Threadsafe || ready.kind is Timer ==> rearming(v, ready)
            is None,
        ready.kind != CallbackKind::Reader(fd) ==> rearming(without_reader(v, fd), ready)
            == rearming(v, ready) && rearming(with_reader(v, fd, keepalive), ready) == rearming(
            v,
            ready,
        ),
        ready.kind != CallbackKind::Writer(fd) ==> rearming(without_writer(v, fd), ready)
            == rearming(v, ready) && rearming(with_writer(v, fd, keepalive), ready) == rearming(
            v,
            ready,
        ),
{
}

/// Taking off a descriptor says whether it was watched, so it says so once: the second time there
/// is nothing to take off.
pub proof fn law_descriptor_is_taken_off_once(
    v: LoopView,
    thread: ThreadView,
    fd: RawFd,
    done: (bool, Result<Sent, LoopCoreError>),
    v_after: LoopView,
    thread_after: ThreadView,
    again: (bool, Result<Sent, LoopCoreError>),
    v_last: LoopView,
    thread_last: ThreadView,
)
    ensures
        is_reader_removed(v, thread, fd, done, v_after, thread_after) && is_reader_removed(
            v_after,
            thread_after,
            fd,
            again,
            v_last,
            thread_last,
        ) ==> !again.0 && (done.0 <==> v.state.reader_keepalive.contains_key(fd)),
        is_writer_removed(v, thread, fd, done, v_after, thread_after) && is_writer_removed(
            v_after,
            thread_after,
            fd,
            again,
            v_last,
            thread_last,
        ) ==> !again.0 && (done.0 <==> v.state.writer_keepalive.contains_key(fd)),
{
}

/// Watching a descriptor tells the runtime thread what to call for which descriptor and direction,
/// and what was kept alive is what was given. Taking it off tells it which one to leave. The other
/// descriptors, and the other direction, stay as they are.
pub proof fn law_watching_tells_the_runtime(
    v: LoopView,
    thread: ThreadView,
    watch: FdWatch,
    keepalive: ObjectId,
    done: Result<Sent, LoopCoreError>,
    v_after: LoopView,
    thread_after: ThreadView,
)
    ensures
        is_reader_added(v, thread, watch, keepalive, done, v_after, thread_after) ==> {
            &&& v_after.state.reader_keepalive == v.state.reader_keepalive.insert(
                watch.fd,
                keepalive,
            )
            &&& v_after.state.writer_keepalive == v.state.writer_keepalive
            &&& thread_after == thread
            &&& done is Ok ==> done == Result::<Sent, LoopCoreError>::Ok(Sent::Channel)
                && v_after.sent == v.sent.push(LoopCommand::Io(LoopIoCommand::StartReader(watch)))
            &&& done is Err ==> v_after.sent == v.sent && v_after.unheard
        },
        is_writer_added(v, thread, watch, keepalive, done, v_after, thread_after) ==> {
            &&& v_after.state.writer_keepalive == v.state.writer_keepalive.insert(
                watch.fd,
                keepalive,
            )
            &&& v_after.state.reader_keepalive == v.state.reader_keepalive
            &&& thread_after == thread
            &&& done is Ok ==> done == Result::<Sent, LoopCoreError>::Ok(Sent::Channel)
                && v_after.sent == v.sent.push(LoopCommand::Io(LoopIoCommand::StartWriter(watch)))
            &&& done is Err ==> v_after.sent == v.sent && v_after.unheard
        },
        forall|removed: bool| #[trigger]
            is_reader_removed(v, thread, watch.fd, (removed, done), v_after, thread_after) ==> {
                &&& v_after.state.reader_keepalive == v.state.reader_keepalive.remove(watch.fd)
                &&& v_after.state.writer_keepalive == v.state.writer_keepalive
                &&& thread_after == thread
                &&& done is Ok ==> v_after.sent == v.sent.push(
                    LoopCommand::Io(LoopIoCommand::StopReader(watch.fd)),
                )
                &&& done is Err ==> v_after.sent == v.sent && v_after.unheard
            },
        forall|removed: bool| #[trigger]
            is_writer_removed(v, thread, watch.fd, (removed, done), v_after, thread_after) ==> {
                &&& v_after.state.writer_keepalive == v.state.writer_keepalive.remove(watch.fd)
                &&& v_after.state.reader_keepalive == v.state.reader_keepalive
                &&& thread_after == thread
                &&& done is Ok ==> v_after.sent == v.sent.push(
                    LoopCommand::Io(LoopIoCommand::StopWriter(watch.fd)),
                )
                &&& done is Err ==> v_after.sent == v.sent && v_after.unheard
            },
{
}

/// A command reaches the loop in one place and there alone, behind what is there already: the queue
/// of the thread that is in the middle of the loop's items, the queue for other threads of a
/// running loop, or the channel. Only what a queue can hold goes into one. A command that comes
/// back leaves nothing behind. Nothing else of the loop changes.
pub proof fn law_command_reaches_one_place(
    v: LoopView,
    thread: ThreadView,
    command: LoopCommand,
    result: Result<Sent, LoopCoreError>,
    v_after: LoopView,
    thread_after: ThreadView,
)
    requires
        is_sent(v, thread, command, result, v_after, thread_after),
    ensures
        result == Result::<Sent, LoopCoreError>::Ok(Sent::Local) <==> ready_item_of(command) is Some
            && thread.active_loop == Some(v.id) && thread.drain_active && thread.queue is Some,
        result == Result::<Sent, LoopCoreError>::Ok(Sent::Local) ==> thread.queue is Some
            && thread_after.queue == Some(
            thread.queue.unwrap().push(ready_item_of(command).unwrap()),
        ) && v_after == v && thread_after.active_loop == thread.active_loop
            && thread_after.drain_active == thread.drain_active,
        (result matches Ok(Sent::Pending { wake }) && v.dispatch is Some) <==> ready_item_of(command)
            is Some && !is_local(v, thread) && v.dispatch is Some,
        result matches Ok(Sent::Pending { wake }) ==> v.dispatch matches Some(before)
            && v_after.dispatch matches Some(after) && after.pending == before.pending.push(
            ready_item_of(command).unwrap(),
        ) && after.wake && wake == !before.wake,
        result == Result::<Sent, LoopCoreError>::Ok(Sent::Channel) ==> v_after.sent
            == v.sent.push(command) && !v.unheard && !v_after.unheard,
        result is Err ==> v_after.unheard && result->Err_0 == LoopCoreError::ChannelClosed,
        result != Result::<Sent, LoopCoreError>::Ok(Sent::Local) ==> thread_after == thread,
        result != Result::<Sent, LoopCoreError>::Ok(Sent::Channel) ==> v_after.sent == v.sent,
        !(result matches Ok(Sent::Pending { wake })) ==> v_after.dispatch == v.dispatch,
        v_after.state == v.state,
        v_after.id == v.id,
        v_after.channel == v.channel,
        v_after.next_callback_id == v.next_callback_id,
        v_after.debug_enabled == v.debug_enabled,
{
}

/// A queue entry carries what its command carried: callbacks, results, exceptions and events are
/// never taken for each other.
pub proof fn law_queue_entries_carry_their_commands(
    callback: ReadyCallback,
    a: ObjectId,
    b: ObjectId,
    io: LoopIoCommand,
    signal: LoopSignalCommand,
    when: u128,
)
    ensures
        ready_item_of(LoopCommand::ScheduleReady(callback)) == Some(ReadyItem::Callback(callback)),
        ready_item_of(LoopCommand::Future(LoopFutureCommand::SetResult { future: a, value: b }))
            == Some(ReadyItem::FutureSetResult { future: a, value: b }),
        ready_item_of(LoopCommand::Future(LoopFutureCommand::SetException { future: a, value: b }))
            == Some(ReadyItem::FutureSetException { future: a, value: b }),
        ready_item_of(LoopCommand::Transport(LoopTransportCommand::StreamRead(a))) == Some(
            ReadyItem::StreamTransportRead(a),
        ),
        ready_item_of(LoopCommand::Transport(LoopTransportCommand::Process(a))) == Some(
            ReadyItem::ProcessTransport(a),
        ),
        ready_item_of(
            LoopCommand::Transport(LoopTransportCommand::ServerAccepted { server: a, stream: b }),
        ) == Some(ReadyItem::ServerAccepted { server: a, stream: b }),
        ready_item_of(LoopCommand::RequestStop) == Some(ReadyItem::Stop),
        ready_item_of(LoopCommand::Io(io)) is None,
        ready_item_of(LoopCommand::Signal(signal)) is None,
        ready_item_of(LoopCommand::ScheduleTimer { callback, when }) is None,
        ready_item_of(LoopCommand::Close) is None,
{
}

/// A callback that is scheduled is the one that the caller gets, with everything that was given; it
/// waits for the loop at once, or goes to the runtime thread with its deadline. Two callbacks in a
/// row get different numbers.
pub proof fn law_scheduled_callback_reaches_the_loop(
    v: LoopView,
    thread: ThreadView,
    ready: ReadyCallback,
    when: Option<u128>,
    done: Result<(ReadyCallback, Sent), LoopCoreError>,
    v_after: LoopView,
    thread_after: ThreadView,
)
    requires
        scheduled(v, thread, ready, when, done, v_after, thread_after),
        ready.id == v.next_callback_id,
    ensures
        done matches Ok((given, sent)) ==> given == ready,
        done matches Ok((given, sent)) ==> when is None ==> match sent {
            Sent::Local => thread_after.queue.unwrap() == thread.queue.unwrap().push(
                ReadyItem::Callback(ready),
            ),
            Sent::Pending { .. } => v_after.dispatch.unwrap().pending
                == v.dispatch.unwrap().pending.push(ReadyItem::Callback(ready)),
            Sent::Channel => v_after.sent == v.sent.push(LoopCommand::ScheduleReady(ready)),
        },
        done matches Ok((given, sent)) ==> when matches Some(deadline) ==> sent == Sent::Channel
            && v_after.sent == v.sent.push(
            LoopCommand::ScheduleTimer { callback: ready, when: deadline },
        ),
        done is Err ==> v_after.unheard && v_after.sent == v.sent && thread_after == thread,
        is_local(v, thread) && when is None ==> (done matches Ok((_, sent)) && sent
            == Sent::Local),
        v_after.next_callback_id != ready.id,
        ready.id < u64::MAX ==> v_after.next_callback_id == ready.id + 1,
        v_after.state == v.state,
{
}

/// Numbers do not come back before all others were given out.
pub proof fn law_numbers_go_round(v: LoopView)
    ensures
        v.next_callback_id < u64::MAX ==> numbered(v).next_callback_id > v.next_callback_id,
        v.next_callback_id == u64::MAX ==> numbered(v).next_callback_id == 0,
        numbered(v).state == v.state,
        numbered(v).sent == v.sent,
        numbered(v).dispatch == v.dispatch,
        numbered(v).id == v.id,
{
}

/// A signal is handled by the handler that was added last. Outside the main thread, and for the
/// signal that belongs to child processes, none is added. A signal is watched from its first
/// handler on, and a later handler asks for no second watcher. Other signals stay as they are.
pub proof fn law_last_handler_handles_the_signal(
    v: LoopView,
    thread: ThreadView,
    main_thread: bool,
    sig: i32,
    other: i32,
    template: SignalHandlerTemplate,
    done: Result<Option<Sent>, SignalError>,
    v_after: LoopView,
    thread_after: ThreadView,
)
    requires
        is_signal_handler_added(
            v,
            thread,
            main_thread,
            sig,
            template,
            done,
            v_after,
            thread_after,
        ),
    ensures
        !main_thread ==> done == Result::<Option<Sent>, SignalError>::Err(
            SignalError::NotMainThread,
        ) && v_after == v,
        main_thread && sig == SIGCHLD ==> done == Result::<Option<Sent>, SignalError>::Err(
            SignalError::Reserved,
        ) && v_after == v,
        main_thread && sig != SIGCHLD ==> v_after.state.signal_handlers.contains_key(sig)
            && v_after.state.signal_handlers[sig] == template,
        main_thread && sig != SIGCHLD && v.state.signal_handlers.contains_key(sig) ==> done
            == Result::<Option<Sent>, SignalError>::Ok(None) && v_after.sent == v.sent,
        main_thread && sig != SIGCHLD && !v.state.signal_handlers.contains_key(sig) && done is Ok
            ==> v_after.sent == v.sent.push(
            LoopCommand::Signal(LoopSignalCommand::StartWatcher(sig)),
        ),
        done matches Err(SignalError::Loop(error)) ==> error == LoopCoreError::ChannelClosed
            && v_after.unheard,
        other != sig ==> v_after.state.signal_handlers.contains_key(other)
            == v.state.signal_handlers.contains_key(other),
        other != sig && v.state.signal_handlers.contains_key(other)
            ==> v_after.state.signal_handlers[other] == v.state.signal_handlers[other],
        thread_after == thread,
        v_after.state.previous_signal_handlers == v.state.previous_signal_handlers,
{
}

/// A handler that is removed handles its signal no longer, and its watcher is told so. Where there
/// is none, nothing happens, and the caller is told that. Other signals stay as they are.
pub proof fn law_removed_handler_is_gone(
    v: LoopView,
    thread: ThreadView,
    sig: i32,
    other: i32,
    done: Option<Result<Sent, LoopCoreError>>,
    v_after: LoopView,
    thread_after: ThreadView,
)
    requires
        is_signal_handler_removed(v, thread, sig, done, v_after, thread_after),
    ensures
        done is Some <==> v.state.signal_handlers.contains_key(sig),
        !v_after.state.signal_handlers.contains_key(sig),
        done is None ==> v_after == v,
        done matches Some(Ok(_)) ==> v_after.sent == v.sent.push(
            LoopCommand::Signal(LoopSignalCommand::StopWatcher(sig)),
        ),
        done is Some ==> !v_after.state.previous_signal_handlers.contains_key(sig),
        other != sig ==> v_after.state.signal_handlers.contains_key(other)
            == v.state.signal_handlers.contains_key(other),
        other != sig && v.state.signal_handlers.contains_key(other)
            ==> v_after.state.signal_handlers[other] == v.state.signal_handlers[other],
        thread_after == thread,
{
}

/// Closing a loop that does not run closes it, tells the runtime thread, and hands out the executor
/// that has to be shut down; from then on the loop has neither executor nor generators, and no new
/// executor is made. A running loop is not closed, and closing a closed one does nothing.
pub proof fn law_closing_gives_up_the_helpers(
    v: LoopView,
    thread: ThreadView,
    done: Result<LoopClosing, LoopCoreError>,
    v_after: LoopView,
    thread_after: ThreadView,
)
    requires
        is_loop_close(v, thread, done, v_after, thread_after),
    ensures
        v.state.running ==> done == Result::<LoopClosing, LoopCoreError>::Err(
            LoopCoreError::Running,
        ) && v_after == v,
        !v.state.running && v.state.closed ==> done == Result::<LoopClosing, LoopCoreError>::Ok(
            LoopClosing::AlreadyClosed,
        ) && v_after == v,
        !v.state.running && !v.state.closed ==> {
            &&& v_after.state.closed
            &&& v_after.state.default_executor is None
            &&& v_after.state.active_asyncgens is None
            &&& v_after.state.executor_shutdown_called
            &&& v_after.state.signal_handlers == v.state.signal_handlers
            &&& !v_after.state.running
            &&& done matches Ok(closing) ==> closing == (LoopClosing::JoinRuntime {
                executor: v.state.default_executor,
            }) && v_after.sent == v.sent.push(LoopCommand::Close)
            &&& done matches Err(error) ==> error == LoopCoreError::ChannelClosed
                && v_after.unheard
        },
        thread_after == thread,
{
}

/// The same of the core alone.
pub proof fn law_core_closes_once(
    v: LoopView,
    thread: ThreadView,
    done: Result<CloseStep, LoopCoreError>,
    v_after: LoopView,
    thread_after: ThreadView,
)
    requires
        is_close(v, thread, done, v_after, thread_after),
    ensures
        v.state.running ==> done == Result::<CloseStep, LoopCoreError>::Err(LoopCoreError::Running)
            && v_after == v,
        !v.state.running ==> v_after.state.closed,
        !v.state.running && v.state.closed ==> done == Result::<CloseStep, LoopCoreError>::Ok(
            CloseStep::AlreadyClosed,
        ) && v_after == v,
        !v.state.running && !v.state.closed && done is Ok ==> v_after.sent == v.sent.push(
            LoopCommand::Close,
        ) && done == Result::<CloseStep, LoopCoreError>::Ok(CloseStep::JoinRuntime),
        !v.state.running && !v.state.closed && done is Err ==> v_after.sent == v.sent
            && v_after.unheard,
        thread_after == thread,
{
}

/// A loop that was never run is open and idle, and has nothing installed.
pub proof fn law_new_loop_is_open_and_bare()
    ensures
        !fresh_state().closed,
        !fresh_state().running,
        !fresh_state().stopping,
        !fresh_state().executor_shutdown_called,
        !fresh_state().asyncgens_shutdown_called,
        fresh_state().active_asyncgens is None,
        fresh_state().task_factory is None,
        fresh_state().exception_handler is None,
        fresh_state().default_executor is None,
        fresh_state().signal_handlers.dom() == Set::<i32>::empty(),
        fresh_state().previous_signal_handlers.dom() == Set::<i32>::empty(),
        fresh_state().reader_keepalive.dom() == Set::<RawFd>::empty(),
        fresh_state().writer_keepalive.dom() == Set::<RawFd>::empty(),
{
}

/// What is set for the loop is what it has from then on: a factory, a handler that then gets every
/// exception context together with the loop, an executor. `None` takes it away again. Each leaves
/// the others alone.
pub proof fn law_loop_has_what_was_set(
    v: LoopView,
    value: Option<ObjectId>,
    loop_obj: Option<ObjectId>,
    handler: ObjectId,
)
    ensures
        with_task_factory(v, value).state.task_factory == value,
        with_task_factory(v, value).task_factory_installed <==> value is Some,
        with_task_factory(v, value).state.exception_handler == v.state.exception_handler,
        with_task_factory(v, value).state.default_executor == v.state.default_executor,
        with_exception_handler(v, value).state.exception_handler == value,
        with_exception_handler(v, value).state.task_factory == v.state.task_factory,
        with_exception_handler(v, value).state.default_executor == v.state.default_executor,
        with_exception_handler(v, value).task_factory_installed == v.task_factory_installed,
        with_default_executor(v, value).state.default_executor == value,
        with_default_executor(v, value).state.task_factory == v.state.task_factory,
        with_default_executor(v, value).state.exception_handler == v.state.exception_handler,
        handler_step(with_exception_handler(v, Some(handler)), loop_obj) == (HandlerStep::Call {
            handler,
            loop_obj,
        }),
        handler_step(with_exception_handler(v, None), loop_obj) is Default,
{
}

/// A handler is called with its arguments in order, and the handler itself comes first.
pub proof fn law_call_list_keeps_the_order(callback: ObjectId, args: Seq<ObjectId>)
    ensures
        call_list(callback, args).len() == args.len() + 1,
        call_list(callback, args)[0] == callback,
        call_list(callback, args).skip(1) == args,
{
}

/// A future that is done stops the loop that ran for it, unless it holds an exception that ends the
/// interpreter.
pub proof fn law_done_future_stops_its_loop(end: FutureEnd)
    ensures
        end is Result || end is Cancelled || end is OtherException ==> stops_the_loop(end),
        end is SystemExit || end is KeyboardInterrupt ==> !stops_the_loop(end),
{
}

/// Running until a future is done asks in order: run, take the stopping callback off, ask whether
/// the future is done, give back its result. One that is not done after a good run was stopped
/// early.
pub proof fn law_good_run_gives_the_result(new_task: bool)
    ensures
        complete_step(new_task, CompletePhase::Ready, CompleteEvent::Begin).1 is Run,
        ({
            let started = complete_step(new_task, CompletePhase::Ready, CompleteEvent::Begin).0;
            let ran = complete_step(new_task, started, CompleteEvent::Ran);
            let removed = complete_step(new_task, ran.0, CompleteEvent::Over);
            &&& ran.1 is RemoveStopper
            &&& removed.1 is AskDone
            &&& complete_step(new_task, removed.0, CompleteEvent::Answer(true)).1 is ReturnResult
            &&& complete_step(new_task, removed.0, CompleteEvent::Answer(false)).1 is FailStopped
        }),
{
}

/// Where the loop failed, its exception comes out in the end, after the stopping callback was taken
/// off. What a future that is done holds is fetched first, so that nobody misses it, unless it was
/// cancelled; its exception only where nobody else looks at it.
pub proof fn law_failed_run_raises_its_failure(new_task: bool, failure: ObjectId)
    ensures
        ({
            let started = complete_step(new_task, CompletePhase::Ready, CompleteEvent::Begin).0;
            let failed = complete_step(new_task, started, CompleteEvent::Failed(failure));
            let removed = complete_step(new_task, failed.0, CompleteEvent::Over);
            let done = complete_step(new_task, removed.0, CompleteEvent::Answer(true));
            let kept = complete_step(new_task, done.0, CompleteEvent::Answer(false));
            let fetched = complete_step(new_task, kept.0, CompleteEvent::Over);
            &&& failed.1 is RemoveStopper
            &&& removed.1 is AskDone
            &&& complete_step(new_task, removed.0, CompleteEvent::Answer(false)).1
                == CompleteAction::Fail(failure)
            &&& done.1 is AskCancelled
            &&& complete_step(new_task, done.0, CompleteEvent::Answer(true)).1
                == CompleteAction::Fail(failure)
            &&& kept.1 is CollectResult
            &&& new_task ==> fetched.1 is CollectException && complete_step(
                new_task,
                fetched.0,
                CompleteEvent::Over,
            ).1 == CompleteAction::Fail(failure)
            &&& !new_task ==> fetched.1 == CompleteAction::Fail(failure)
        }),
{
}

/// What asking the future raises comes out in place of everything else.
pub proof fn law_asking_may_raise(new_task: bool, phase: CompletePhase, raised: ObjectId)
    requires
        phase is AskingDone || phase is AskingCancelled,
    ensures
        complete_step(new_task, phase, CompleteEvent::Raised(raised)) == (
            CompletePhase::Over,
            CompleteAction::Fail(raised),
        ),
{
}

/// Callbacks of different kinds are named differently, and a watched descriptor is named with its
/// direction.
pub proof fn law_callbacks_are_named_by_their_kind(fd: RawFd, other: RawFd)
    ensures
        CallbackKind::Soon.text() != CallbackKind::Threadsafe.text(),
        CallbackKind::Soon.text() != CallbackKind::Timer.text(),
        CallbackKind::Threadsafe.text() != CallbackKind::Timer.text(),
        CallbackKind::Reader(fd).text() != CallbackKind::Writer(other).text(),
        CallbackKind::Reader(fd).text().take(7) == "Reader("@,
        CallbackKind::Writer(fd).text().take(7) == "Writer("@,
        CallbackKind::Reader(fd).text() == "Reader("@ + signed_decimal(fd as int) + ")"@,
        CallbackKind::Writer(fd).text() == "Writer("@ + signed_decimal(fd as int) + ")"@,
        CallbackKind::Soon.text()[0] == 'S',
        CallbackKind::Timer.text().len() == 5,
{
    reveal_strlit("Soon");
    reveal_strlit("Threadsafe");
    reveal_strlit("Timer");
    reveal_strlit("Reader(");
    reveal_strlit("Writer(");
    assert("Soon"@.len() == 4);
    assert("Threadsafe"@.len() == 10);
    assert("Timer"@.len() == 5);
    assert(CallbackKind::Reader(fd).text().take(7) =~= "Reader("@);
    assert(CallbackKind::Writer(fd).text().take(7) =~= "Writer("@);
    assert(CallbackKind::Writer(other).text().take(7) =~= "Writer("@);
    assert("Reader("@[0] == 'R');
    assert("Writer("@[0] == 'W');
    assert(CallbackKind::Reader(fd).text()[0] == 'R');
    assert(CallbackKind::Writer(other).text()[0] == 'W');
}

} // verus!
