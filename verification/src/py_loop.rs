//! The loop as Python sees it.

use crossbeam_channel::Receiver;
use vstd::prelude::*;
use crate::loop_commands::{
    CallbackKind, FdWatch, LoopCommand, LoopIoCommand, LoopSignalCommand, RawFd, ReadyCallback,
};
use crate::loop_core::{
    channel_from, fresh_state, is_heard, is_sent, is_unheard, marked_closed, scheduled,
    CloseStep, LoopCore, LoopCoreError, LoopStateView, LoopView, Sent, SignalHandlerTemplate,
    ThreadReady, ThreadView,
};
use crate::objects::{ExceptionClass, ObjectId};
use crate::os_constants::{sigchld, SIGCHLD};
use crate::text::{flag_text, push_flag};

verus! {

broadcast use vstd::std_specs::hash::group_hash_axioms;

pub struct PyLoop {
    pub core: LoopCore,
}

/// A new loop, and the receiving end for its runtime thread.
pub fn new_event_loop(id: u64) -> (made: (PyLoop, Receiver<LoopCommand>))
    ensures
        made.0.core@ == (LoopView {
            id,
            state: fresh_state(),
            debug_enabled: false,
            task_factory_installed: false,
            next_callback_id: 1,
            channel: channel_from(made.1),
            sent: Seq::empty(),
            unheard: false,
            dispatch: None,
        }),
{
    let (core, receiver) = LoopCore::new(id);
    (PyLoop { core }, receiver)
}

/// What closing a loop asks for.
#[derive(Clone, Copy, PartialEq, Eq, Debug, Structural)]
pub enum LoopClosing {
    /// It was closed before.
    AlreadyClosed,
    /// Join the runtime thread, then have the executor shut down without waiting for it.
    JoinRuntime { executor: Option<ObjectId> },
}

/// A loop that is about to be closed: no executor, no generators.
pub open spec fn without_helpers(state: LoopStateView) -> LoopStateView {
    LoopStateView {
        executor_shutdown_called: true,
        active_asyncgens: None,
        default_executor: None,
        ..state
    }
}

/// What closing a loop with its helpers comes to.
pub open spec fn is_loop_close(
    v: LoopView,
    thread: ThreadView,
    done: Result<LoopClosing, LoopCoreError>,
    v_after: LoopView,
    thread_after: ThreadView,
) -> bool {
    &&& thread_after == thread
    &&& if v.state.running {
        done == Result::<LoopClosing, LoopCoreError>::Err(LoopCoreError::Running) && v_after == v
    } else if v.state.closed {
        done == Result::<LoopClosing, LoopCoreError>::Ok(LoopClosing::AlreadyClosed) && v_after
            == v
    } else {
        let closed = marked_closed(LoopView { state: without_helpers(v.state), ..v });
        match done {
            Ok(closing) => closing == (LoopClosing::JoinRuntime {
                executor: v.state.default_executor,
            }) && is_heard(closed, LoopCommand::Close, v_after),
            Err(error) => error == LoopCoreError::ChannelClosed && is_unheard(closed, v_after),
        }
    }
}

/// Why a signal handler was refused.
#[derive(Clone, Copy, PartialEq, Eq, Debug, Structural)]
pub enum SignalError {
    NotMainThread,
    Reserved,
    Loop(LoopCoreError),
}

impl SignalError {
    pub fn message(&self) -> (text: &'static str)
        ensures
            text@ == match *self {
                SignalError::NotMainThread =>
                    "set_wakeup_fd only works in main thread of the main interpreter"@,
                SignalError::Reserved => "SIGCHLD is reserved for subprocess handling"@,
                SignalError::Loop(error) => error.text(),
            },
    {
        match self {
            SignalError::NotMainThread =>
                "set_wakeup_fd only works in main thread of the main interpreter",
            SignalError::Reserved => "SIGCHLD is reserved for subprocess handling",
            SignalError::Loop(error) => error.message(),
        }
    }

    /// The class of the exception that it becomes.
    pub open spec fn class(self) -> ExceptionClass {
        match self {
            SignalError::NotMainThread => ExceptionClass::ValueError,
            _ => ExceptionClass::RuntimeError,
        }
    }

    pub fn exception(&self) -> (class: ExceptionClass)
        ensures
            class == self.class(),
    {
        match self {
            SignalError::NotMainThread => ExceptionClass::ValueError,
            _ => ExceptionClass::RuntimeError,
        }
    }
}

impl PyLoop {
    /// Schedules a callback for the next round.
    pub fn call_soon(
        &mut self,
        thread: &mut ThreadReady,
        callback: ObjectId,
        args: ObjectId,
        context: ObjectId,
        context_needs_run: bool,
    ) -> (done: Result<(ReadyCallback, Sent), LoopCoreError>)
        ensures
            scheduled(
                old(self).core@,
                old(thread)@,
                ReadyCallback {
                    id: old(self).core@.next_callback_id,
                    kind: CallbackKind::Soon,
                    callback,
                    args,
                    context,
                    context_needs_run,
                },
                None,
                done,
                final(self).core@,
                final(thread)@,
            ),
    {
        self.core.schedule_callback(
            thread,
            CallbackKind::Soon,
            callback,
            args,
            context,
            context_needs_run,
        )
    }

    /// Schedules a callback from any thread.
    pub fn call_soon_threadsafe(
        &mut self,
        thread: &mut ThreadReady,
        callback: ObjectId,
        args: ObjectId,
        context: ObjectId,
        context_needs_run: bool,
    ) -> (done: Result<(ReadyCallback, Sent), LoopCoreError>)
        ensures
            scheduled(
                old(self).core@,
                old(thread)@,
                ReadyCallback {
                    id: old(self).core@.next_callback_id,
                    kind: CallbackKind::Threadsafe,
                    callback,
                    args,
                    context,
                    context_needs_run,
                },
                None,
                done,
                final(self).core@,
                final(thread)@,
            ),
    {
        self.core.schedule_callback(
            thread,
            CallbackKind::Threadsafe,
            callback,
            args,
            context,
            context_needs_run,
        )
    }

    /// Asks the loop to stop.
    pub fn stop(&mut self, thread: &mut ThreadReady) -> (done: Result<Sent, LoopCoreError>)
        ensures
            is_sent(
                old(self).core@,
                old(thread)@,
                LoopCommand::RequestStop,
                done,
                final(self).core@,
                final(thread)@,
            ),
    {
        self.core.schedule_stop(thread)
    }

    /// Closes the loop. One that runs is not closed, and one that was closed stays as it is.
    pub fn close(&mut self, thread: &mut ThreadReady) -> (done: Result<LoopClosing, LoopCoreError>)
        ensures
            is_loop_close(
                old(self).core@,
                old(thread)@,
                done,
                final(self).core@,
                final(thread)@,
            ),
    {
        if self.core.is_running() {
            return Err(LoopCoreError::Running);
        }
        if self.core.is_closed() {
            return Ok(LoopClosing::AlreadyClosed);
        }
        let executor = self.core.state().default_executor;
        let state = self.core.state_mut();
        state.executor_shutdown_called = true;
        state.active_asyncgens = None;
        state.default_executor = None;
        match self.core.close(thread) {
            Ok(CloseStep::AlreadyClosed) => Ok(LoopClosing::AlreadyClosed),
            Ok(CloseStep::JoinRuntime) => Ok(LoopClosing::JoinRuntime { executor }),
            Err(error) => Err(error),
        }
    }

    pub fn set_task_factory(&mut self, factory: Option<ObjectId>)
        ensures
            final(self).core@ == with_task_factory(old(self).core@, factory),
    {
        let installed = factory.is_some();
        let state = self.core.state_mut();
        state.task_factory = factory;
        self.core.set_task_factory_installed(installed);
    }

    pub fn get_task_factory(&self) -> (factory: Option<ObjectId>)
        ensures
            factory == self.core@.state.task_factory,
    {
        self.core.state().task_factory
    }

    pub fn set_exception_handler(&mut self, handler: Option<ObjectId>)
        ensures
            final(self).core@ == with_exception_handler(old(self).core@, handler),
    {
        let state = self.core.state_mut();
        state.exception_handler = handler;
    }

    pub fn get_exception_handler(&self) -> (handler: Option<ObjectId>)
        ensures
            handler == self.core@.state.exception_handler,
    {
        self.core.state().exception_handler
    }

    pub fn set_default_executor(&mut self, executor: Option<ObjectId>)
        ensures
            final(self).core@ == with_default_executor(old(self).core@, executor),
    {
        let state = self.core.state_mut();
        state.default_executor = executor;
    }

    pub fn repr(&self) -> (text: String)
        ensures
            text@ == "<rsloop.Loop running="@ + flag_text(self.core@.state.running) + " closed="@
                + flag_text(self.core@.state.closed) + " debug="@ + flag_text(
                self.core@.debug_enabled,
            ) + ">"@,
    {
        let mut text = "<rsloop.Loop running=".to_owned();
        push_flag(&mut text, self.core.is_running());
        text.append(" closed=");
        push_flag(&mut text, self.core.is_closed());
        text.append(" debug=");
        push_flag(&mut text, self.core.get_debug());
        text.append(">");
        text
    }

    /// Watches a descriptor for reading. `keepalive` is kept until it is removed.
    pub fn add_reader(&mut self, thread: &mut ThreadReady, watch: FdWatch, keepalive: ObjectId) -> (done:
        Result<Sent, LoopCoreError>)
        ensures
            is_reader_added(
                old(self).core@,
                old(thread)@,
                watch,
                keepalive,
                done,
                final(self).core@,
                final(thread)@,
            ),
    {
        let state = self.core.state_mut();
        state.reader_keepalive.insert(watch.fd, keepalive);
        self.core.send_command(thread, LoopCommand::Io(LoopIoCommand::StartReader(watch)))
    }

    /// Watches a descriptor no longer for reading. Whether it was watched.
    pub fn remove_reader(&mut self, thread: &mut ThreadReady, fd: RawFd) -> (done: (
        bool,
        Result<Sent, LoopCoreError>,
    ))
        ensures
            is_reader_removed(
                old(self).core@,
                old(thread)@,
                fd,
                done,
                final(self).core@,
                final(thread)@,
            ),
    {
        let state = self.core.state_mut();
        let removed = state.reader_keepalive.remove(&fd).is_some();
        let told = self.core.send_command(thread, LoopCommand::Io(LoopIoCommand::StopReader(fd)));
        (removed, told)
    }

    /// Watches a descriptor for writing. `keepalive` is kept until it is removed.
    pub fn add_writer(&mut self, thread: &mut ThreadReady, watch: FdWatch, keepalive: ObjectId) -> (done:
        Result<Sent, LoopCoreError>)
        ensures
            is_writer_added(
                old(self).core@,
                old(thread)@,
                watch,
                keepalive,
                done,
                final(self).core@,
                final(thread)@,
            ),
    {
        let state = self.core.state_mut();
        state.writer_keepalive.insert(watch.fd, keepalive);
        self.core.send_command(thread, LoopCommand::Io(LoopIoCommand::StartWriter(watch)))
    }

    /// Watches a descriptor no longer for writing. Whether it was watched.
    pub fn remove_writer(&mut self, thread: &mut ThreadReady, fd: RawFd) -> (done: (
        bool,
        Result<Sent, LoopCoreError>,
    ))
        ensures
            is_writer_removed(
                old(self).core@,
                old(thread)@,
                fd,
                done,
                final(self).core@,
                final(thread)@,
            ),
    {
        let state = self.core.state_mut();
        let removed = state.writer_keepalive.remove(&fd).is_some();
        let told = self.core.send_command(thread, LoopCommand::Io(LoopIoCommand::StopWriter(fd)));
        (removed, told)
    }

    /// Handles a signal. The watcher is started for a signal that was not handled before. A command
    /// that was sent needs a wake-up where the result says so.
    pub fn add_signal_handler(
        &mut self,
        thread: &mut ThreadReady,
        main_thread: bool,
        sig: i32,
        template: SignalHandlerTemplate,
    ) -> (done: Result<Option<Sent>, SignalError>)
        ensures
            is_signal_handler_added(
                old(self).core@,
                old(thread)@,
                main_thread,
                sig,
                template,
                done,
                final(self).core@,
                final(thread)@,
            ),
    {
        if !main_thread {
            return Err(SignalError::NotMainThread);
        }
        if sig == sigchld() {
            return Err(SignalError::Reserved);
        }
        let state = self.core.state_mut();
        let newly_installed = !state.signal_handlers.contains_key(&sig);
        state.signal_handlers.insert(sig, template);
        if !newly_installed {
            return Ok(None);
        }
        let command = LoopCommand::Signal(LoopSignalCommand::StartWatcher(sig));
        match self.core.send_command(thread, command) {
            Ok(sent) => Ok(Some(sent)),
            Err(error) => Err(SignalError::Loop(error)),
        }
    }

    /// Handles a signal no longer. `None` where it was not handled.
    pub fn remove_signal_handler(&mut self, thread: &mut ThreadReady, sig: i32) -> (done: Option<
        Result<Sent, LoopCoreError>,
    >)
        ensures
            is_signal_handler_removed(
                old(self).core@,
                old(thread)@,
                sig,
                done,
                final(self).core@,
                final(thread)@,
            ),
    {
        let ghost v = self.core@;
        let state = self.core.state_mut();
        let removed = state.signal_handlers.remove(&sig).is_some();
        if !removed {
            assert(self.core@.state.signal_handlers =~= v.state.signal_handlers);
            assert(self.core@ =~= v);
            return None;
        }
        let state = self.core.state_mut();
        state.previous_signal_handlers.remove(&sig);
        assert(self.core@ =~= without_handler(v, sig));
        Some(
            self.core.send_command(
                thread,
                LoopCommand::Signal(LoopSignalCommand::StopWatcher(sig)),
            ),
        )
    }

    /// The message of the error that a feature is missing.
    pub fn not_implemented(feature: &str) -> (text: String)
        ensures
            text@ == feature@ + " is not implemented in rust-impl yet"@,
    {
        let mut text = feature.to_owned();
        text.append(" is not implemented in rust-impl yet");
        text
    }
}

/// The loop with another task factory, or with none.
pub open spec fn with_task_factory(v: LoopView, factory: Option<ObjectId>) -> LoopView {
    LoopView {
        state: LoopStateView { task_factory: factory, ..v.state },
        task_factory_installed: factory is Some,
        ..v
    }
}

/// The loop with another exception handler, or with none.
pub open spec fn with_exception_handler(v: LoopView, handler: Option<ObjectId>) -> LoopView {
    LoopView { state: LoopStateView { exception_handler: handler, ..v.state }, ..v }
}

/// The loop with another default executor, or with none.
pub open spec fn with_default_executor(v: LoopView, executor: Option<ObjectId>) -> LoopView {
    LoopView { state: LoopStateView { default_executor: executor, ..v.state }, ..v }
}

/// The loop with a descriptor watched for reading.
pub open spec fn with_reader(v: LoopView, fd: RawFd, keepalive: ObjectId) -> LoopView {
    LoopView {
        state: LoopStateView {
            reader_keepalive: v.state.reader_keepalive.insert(fd, keepalive),
            ..v.state
        },
        ..v
    }
}

/// The loop with a descriptor no longer watched for reading.
pub open spec fn without_reader(v: LoopView, fd: RawFd) -> LoopView {
    LoopView {
        state: LoopStateView {
            reader_keepalive: v.state.reader_keepalive.remove(fd),
            ..v.state
        },
        ..v
    }
}

/// The loop with a descriptor watched for writing.
pub open spec fn with_writer(v: LoopView, fd: RawFd, keepalive: ObjectId) -> LoopView {
    LoopView {
        state: LoopStateView {
            writer_keepalive: v.state.writer_keepalive.insert(fd, keepalive),
            ..v.state
        },
        ..v
    }
}

/// The loop with a descriptor no longer watched for writing.
pub open spec fn without_writer(v: LoopView, fd: RawFd) -> LoopView {
    LoopView {
        state: LoopStateView {
            writer_keepalive: v.state.writer_keepalive.remove(fd),
            ..v.state
        },
        ..v
    }
}

/// What watching a descriptor for reading comes to.
pub open spec fn is_reader_added(
    v: LoopView,
    thread: ThreadView,
    watch: FdWatch,
    keepalive: ObjectId,
    done: Result<Sent, LoopCoreError>,
    v_after: LoopView,
    thread_after: ThreadView,
) -> bool {
    is_sent(
        with_reader(v, watch.fd, keepalive),
        thread,
        LoopCommand::Io(LoopIoCommand::StartReader(watch)),
        done,
        v_after,
        thread_after,
    )
}

/// What watching a descriptor no longer for reading comes to.
pub open spec fn is_reader_removed(
    v: LoopView,
    thread: ThreadView,
    fd: RawFd,
    done: (bool, Result<Sent, LoopCoreError>),
    v_after: LoopView,
    thread_after: ThreadView,
) -> bool {
    &&& done.0 == v.state.reader_keepalive.contains_key(fd)
    &&& is_sent(
        without_reader(v, fd),
        thread,
        LoopCommand::Io(LoopIoCommand::StopReader(fd)),
        done.1,
        v_after,
        thread_after,
    )
}

/// What watching a descriptor for writing comes to.
pub open spec fn is_writer_added(
    v: LoopView,
    thread: ThreadView,
    watch: FdWatch,
    keepalive: ObjectId,
    done: Result<Sent, LoopCoreError>,
    v_after: LoopView,
    thread_after: ThreadView,
) -> bool {
    is_sent(
        with_writer(v, watch.fd, keepalive),
        thread,
        LoopCommand::Io(LoopIoCommand::StartWriter(watch)),
        done,
        v_after,
        thread_after,
    )
}

/// What watching a descriptor no longer for writing comes to.
pub open spec fn is_writer_removed(
    v: LoopView,
    thread: ThreadView,
    fd: RawFd,
    done: (bool, Result<Sent, LoopCoreError>),
    v_after: LoopView,
    thread_after: ThreadView,
) -> bool {
    &&& done.0 == v.state.writer_keepalive.contains_key(fd)
    &&& is_sent(
        without_writer(v, fd),
        thread,
        LoopCommand::Io(LoopIoCommand::StopWriter(fd)),
        done.1,
        v_after,
        thread_after,
    )
}

/// What adding a signal handler comes to.
pub open spec fn is_signal_handler_added(
    v: LoopView,
    thread: ThreadView,
    main_thread: bool,
    sig: i32,
    template: SignalHandlerTemplate,
    done: Result<Option<Sent>, SignalError>,
    v_after: LoopView,
    thread_after: ThreadView,
) -> bool {
    let handling = with_handler(v, sig, template);
    let command = LoopCommand::Signal(LoopSignalCommand::StartWatcher(sig));
    if !main_thread {
        done == Result::<Option<Sent>, SignalError>::Err(SignalError::NotMainThread) && v_after == v
            && thread_after == thread
    } else if sig == SIGCHLD {
        done == Result::<Option<Sent>, SignalError>::Err(SignalError::Reserved) && v_after == v
            && thread_after == thread
    } else if v.state.signal_handlers.contains_key(sig) {
        done == Result::<Option<Sent>, SignalError>::Ok(None) && v_after == handling
            && thread_after == thread
    } else {
        match done {
            Ok(told) => told matches Some(sent) && is_sent(
                handling,
                thread,
                command,
                Ok(sent),
                v_after,
                thread_after,
            ),
            Err(error) => error matches SignalError::Loop(error) && is_sent(
                handling,
                thread,
                command,
                Err(error),
                v_after,
                thread_after,
            ),
        }
    }
}

/// What removing a signal handler comes to.
pub open spec fn is_signal_handler_removed(
    v: LoopView,
    thread: ThreadView,
    sig: i32,
    done: Option<Result<Sent, LoopCoreError>>,
    v_after: LoopView,
    thread_after: ThreadView,
) -> bool {
    match done {
        None => !v.state.signal_handlers.contains_key(sig) && v_after == v && thread_after
            == thread,
        Some(told) => v.state.signal_handlers.contains_key(sig) && is_sent(
            without_handler(v, sig),
            thread,
            LoopCommand::Signal(LoopSignalCommand::StopWatcher(sig)),
            told,
            v_after,
            thread_after,
        ),
    }
}

/// The loop with a handler for a signal.
pub open spec fn with_handler(v: LoopView, sig: i32, template: SignalHandlerTemplate) -> LoopView {
    LoopView {
        state: LoopStateView {
            signal_handlers: v.state.signal_handlers.insert(sig, template),
            ..v.state
        },
        ..v
    }
}

/// The loop without a handler for a signal. What was there before the handler is forgotten too.
pub open spec fn without_handler(v: LoopView, sig: i32) -> LoopView {
    LoopView {
        state: LoopStateView {
            signal_handlers: v.state.signal_handlers.remove(sig),
            previous_signal_handlers: v.state.previous_signal_handlers.remove(sig),
            ..v.state
        },
        ..v
    }
}

/// A callback, and behind it its arguments.
pub open spec fn call_list(callback: ObjectId, args: Seq<ObjectId>) -> Seq<ObjectId> {
    seq![callback] + args
}

/// A callback with its arguments, as one list.
pub fn call_items(callback: ObjectId, args: &Vec<ObjectId>) -> (items: Vec<ObjectId>)
    ensures
        items@ == call_list(callback, args@),
{
    let mut items: Vec<ObjectId> = Vec::new();
    items.push(callback);
    let mut done: usize = 0;
    while done < args.len()
        invariant
            done <= args@.len(),
            items@ == seq![callback] + args@.take(done as int),
        decreases args@.len() - done,
    {
        items.push(args[done]);
        assert(items@ =~= seq![callback] + args@.take(done + 1));
        done += 1;
    }
    assert(args@.take(args@.len() as int) =~= args@);
    items
}

/// What the loop's thread is asked to call for a signal: the handler with its arguments.
pub fn signal_bridge(callback: ObjectId, args: &Vec<ObjectId>) -> (items: Vec<ObjectId>)
    ensures
        items@ == call_list(callback, args@),
{
    call_items(callback, args)
}

/// What a finished future holds.
#[derive(Clone, Copy, PartialEq, Eq, Debug, Structural)]
pub enum FutureEnd {
    Cancelled,
    Result,
    SystemExit,
    KeyboardInterrupt,
    OtherException,
}

/// The end of the future has to stop the loop.
pub open spec fn stops_the_loop(end: FutureEnd) -> bool {
    !(end is SystemExit || end is KeyboardInterrupt)
}

/// A finished future stops the loop that ran for it. An exception that ends the interpreter comes
/// out of the loop by itself.
pub fn future_done_stop(end: FutureEnd) -> (stop: bool)
    ensures
        stop == stops_the_loop(end),
{
    match end {
        FutureEnd::SystemExit => false,
        FutureEnd::KeyboardInterrupt => false,
        _ => true,
    }
}

/// Where running until a future is done stands.
#[derive(Clone, Copy, PartialEq, Eq, Debug, Structural)]
pub enum CompletePhase {
    Ready,
    Running,
    /// The callback that stops the loop is taken off. The loop failed with this exception.
    Removing(Option<ObjectId>),
    AskingDone(Option<ObjectId>),
    AskingCancelled(ObjectId),
    CollectingResult(ObjectId),
    CollectingException(ObjectId),
    Over,
}

/// What came of the action before.
#[derive(Clone, Copy, PartialEq, Eq, Debug, Structural)]
pub enum CompleteEvent {
    Begin,
    Ran,
    Failed(ObjectId),
    /// The action is over. Whether it raised does not matter.
    Over,
    Answer(bool),
    Raised(ObjectId),
}

/// What running until a future is done does next.
#[derive(Clone, Copy, PartialEq, Eq, Debug, Structural)]
pub enum CompleteAction {
    Run,
    RemoveStopper,
    AskDone,
    AskCancelled,
    /// Fetch the future's result, so that nobody misses it.
    CollectResult,
    /// Fetch the future's exception, so that nobody misses it.
    CollectException,
    /// Give back the future's result, or raise what it raises.
    ReturnResult,
    Fail(ObjectId),
    /// Fail because the loop was stopped early.
    FailStopped,
}

/// The message of the error that the loop was stopped early.
pub fn stopped_early_message() -> (text: &'static str)
    ensures
        text@ == "Event loop stopped before Future completed."@,
{
    "Event loop stopped before Future completed."
}

/// One step of running until a future is done. `new_task` says that the future was made for this
/// run, so nobody else looks at it. Where the loop failed, its exception comes out, unless asking
/// the future raises.
pub open spec fn complete_step(new_task: bool, phase: CompletePhase, event: CompleteEvent) -> (
    CompletePhase,
    CompleteAction,
) {
    match (phase, event) {
        (CompletePhase::Ready, CompleteEvent::Begin) => (
            CompletePhase::Running,
            CompleteAction::Run,
        ),
        (CompletePhase::Running, CompleteEvent::Ran) => (
            CompletePhase::Removing(None),
            CompleteAction::RemoveStopper,
        ),
        (CompletePhase::Running, CompleteEvent::Failed(raised)) => (
            CompletePhase::Removing(Some(raised)),
            CompleteAction::RemoveStopper,
        ),
        (CompletePhase::Removing(failure), CompleteEvent::Over) => (
            CompletePhase::AskingDone(failure),
            CompleteAction::AskDone,
        ),
        (CompletePhase::AskingDone(None), CompleteEvent::Answer(done)) => (
            CompletePhase::Over,
            if done {
                CompleteAction::ReturnResult
            } else {
                CompleteAction::FailStopped
            },
        ),
        (CompletePhase::AskingDone(Some(failure)), CompleteEvent::Answer(done)) => if done {
            (CompletePhase::AskingCancelled(failure), CompleteAction::AskCancelled)
        } else {
            (CompletePhase::Over, CompleteAction::Fail(failure))
        },
        (CompletePhase::AskingCancelled(failure), CompleteEvent::Answer(cancelled)) => if cancelled {
            (CompletePhase::Over, CompleteAction::Fail(failure))
        } else {
            (CompletePhase::CollectingResult(failure), CompleteAction::CollectResult)
        },
        (CompletePhase::CollectingResult(failure), CompleteEvent::Over) => if new_task {
            (CompletePhase::CollectingException(failure), CompleteAction::CollectException)
        } else {
            (CompletePhase::Over, CompleteAction::Fail(failure))
        },
        (CompletePhase::CollectingException(failure), CompleteEvent::Over) => (
            CompletePhase::Over,
            CompleteAction::Fail(failure),
        ),
        (_, CompleteEvent::Raised(raised)) => (CompletePhase::Over, CompleteAction::Fail(raised)),
        _ => (CompletePhase::Over, CompleteAction::FailStopped),
    }
}

/// Runs a loop until a future is done.
pub struct RunUntilComplete {
    new_task: bool,
    phase: CompletePhase,
}

impl RunUntilComplete {
    pub closed spec fn spec_new_task(&self) -> bool {
        self.new_task
    }

    pub closed spec fn spec_phase(&self) -> CompletePhase {
        self.phase
    }

    pub fn new(new_task: bool) -> (run: Self)
        ensures
            run.spec_new_task() == new_task,
            run.spec_phase() == CompletePhase::Ready,
    {
        RunUntilComplete { new_task, phase: CompletePhase::Ready }
    }

    /// Takes what came of the action before and says what to do next.
    pub fn step(&mut self, event: CompleteEvent) -> (action: CompleteAction)
        ensures
            final(self).spec_new_task() == old(self).spec_new_task(),
            (final(self).spec_phase(), action) == complete_step(
                old(self).spec_new_task(),
                old(self).spec_phase(),
                event,
            ),
    {
        let (phase, action) = match (self.phase, event) {
            (CompletePhase::Ready, CompleteEvent::Begin) => (
                CompletePhase::Running,
                CompleteAction::Run,
            ),
            (CompletePhase::Running, CompleteEvent::Ran) => (
                CompletePhase::Removing(None),
                CompleteAction::RemoveStopper,
            ),
            (CompletePhase::Running, CompleteEvent::Failed(raised)) => (
                CompletePhase::Removing(Some(raised)),
                CompleteAction::RemoveStopper,
            ),
            (CompletePhase::Removing(failure), CompleteEvent::Over) => (
                CompletePhase::AskingDone(failure),
                CompleteAction::AskDone,
            ),
            (CompletePhase::AskingDone(None), CompleteEvent::Answer(true)) => (
                CompletePhase::Over,
                CompleteAction::ReturnResult,
            ),
            (CompletePhase::AskingDone(Some(failure)), CompleteEvent::Answer(true)) => (
                CompletePhase::AskingCancelled(failure),
                CompleteAction::AskCancelled,
            ),
            (CompletePhase::AskingDone(Some(failure)), CompleteEvent::Answer(false)) => (
                CompletePhase::Over,
                CompleteAction::Fail(failure),
            ),
            (CompletePhase::AskingCancelled(failure), CompleteEvent::Answer(true)) => (
                CompletePhase::Over,
                CompleteAction::Fail(failure),
            ),
            (CompletePhase::AskingCancelled(failure), CompleteEvent::Answer(false)) => (
                CompletePhase::CollectingResult(failure),
                CompleteAction::CollectResult,
            ),
            (CompletePhase::CollectingResult(failure), CompleteEvent::Over) => {
                if self.new_task {
                    (
                        CompletePhase::CollectingException(failure),
                        CompleteAction::CollectException,
                    )
                } else {
                    (CompletePhase::Over, CompleteAction::Fail(failure))
                }
            },
            (CompletePhase::CollectingException(failure), CompleteEvent::Over) => (
                CompletePhase::Over,
                CompleteAction::Fail(failure),
            ),
            (_, CompleteEvent::Raised(raised)) => (
                CompletePhase::Over,
                CompleteAction::Fail(raised),
            ),
            _ => (CompletePhase::Over, CompleteAction::FailStopped),
        };
        self.phase = phase;
        action
    }
}

/// The exception with which the loop failed, as far as the run knows of one.
pub open spec fn failure_of(phase: CompletePhase) -> Option<ObjectId> {
    match phase {
        CompletePhase::Removing(failure) => failure,
        CompletePhase::AskingDone(failure) => failure,
        CompletePhase::AskingCancelled(failure) => Some(failure),
        CompletePhase::CollectingResult(failure) => Some(failure),
        CompletePhase::CollectingException(failure) => Some(failure),
        _ => None,
    }
}

/// The event answers what the run asked for in this phase.
pub open spec fn answers(phase: CompletePhase, event: CompleteEvent) -> bool {
    match phase {
        CompletePhase::Ready => event is Begin,
        CompletePhase::Running => event is Ran || event is Failed,
        CompletePhase::Removing(_) => event is Over,
        CompletePhase::AskingDone(_) => event is Answer || event is Raised,
        CompletePhase::AskingCancelled(_) => event is Answer || event is Raised,
        CompletePhase::CollectingResult(_) => event is Over,
        CompletePhase::CollectingException(_) => event is Over,
        CompletePhase::Over => false,
    }
}

/// A result is given back only by a future that is done, after a loop that did not fail. A failure
/// of the loop stays known until it comes out, unless asking the future raised. That the loop was
/// stopped early is said only of a future that is not done.
pub proof fn law_results_come_from_done_futures(
    new_task: bool,
    phase: CompletePhase,
    event: CompleteEvent,
)
    requires
        answers(phase, event),
    ensures
        ({
            let (after, action) = complete_step(new_task, phase, event);
            &&& action is ReturnResult ==> phase == CompletePhase::AskingDone(None) && event
                == CompleteEvent::Answer(true)
            &&& action is FailStopped ==> phase == CompletePhase::AskingDone(None) && event
                == CompleteEvent::Answer(false)
            &&& event matches CompleteEvent::Failed(failure) ==> failure_of(after) == Some(failure)
            &&& failure_of(phase) matches Some(failure) ==> failure_of(after) == Some(failure)
                || action == CompleteAction::Fail(failure) || event is Raised
        }),
{
}

/// A signal handler that was added and removed leaves no trace.
pub proof fn law_removing_a_signal_handler_undoes_adding_it(
    v: LoopView,
    sig: i32,
    template: SignalHandlerTemplate,
)
    requires
        !v.state.signal_handlers.contains_key(sig),
        !v.state.previous_signal_handlers.contains_key(sig),
    ensures
        without_handler(with_handler(v, sig, template), sig) == v,
{
    let after = without_handler(with_handler(v, sig, template), sig);
    assert(after.state.signal_handlers =~= v.state.signal_handlers);
    assert(after.state.previous_signal_handlers =~= v.state.previous_signal_handlers);
}

} // verus!
