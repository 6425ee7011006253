//! The loop's shared state, and the ways in which work reaches it.

use std::collections::{HashMap, VecDeque};
use vstd::prelude::*;
use crossbeam_channel::{Receiver, Sender};
use crate::loop_commands::{
    ready_item_of, CallbackId, CallbackKind, FdWatch, LoopCommand, LoopIoCommand,
    RawFd, ReadyCallback, ReadyItem,
};
use crate::objects::{ExceptionClass, ObjectId};

verus! {

broadcast use vstd::std_specs::hash::group_hash_axioms;

/// The sending end of a crossbeam channel.
#[verifier::external_type_specification]
#[verifier::external_body]
#[verifier::reject_recursive_types(T)]
pub struct ExSender<T>(crossbeam_channel::Sender<T>);

/// The receiving end of a crossbeam channel.
#[verifier::external_type_specification]
#[verifier::external_body]
#[verifier::reject_recursive_types(T)]
pub struct ExReceiver<T>(crossbeam_channel::Receiver<T>);

/// The commands that went into the channel through this end, in order.
pub uninterp spec fn sent_commands(tx: Sender<LoopCommand>) -> Seq<LoopCommand>;

/// A command came back from this end: the receiving end is gone.
pub uninterp spec fn came_back(tx: Sender<LoopCommand>) -> bool;

/// The channel into which this end sends.
pub uninterp spec fn channel_into(tx: Sender<LoopCommand>) -> int;

/// The channel from which this end receives.
pub uninterp spec fn channel_from(rx: Receiver<LoopCommand>) -> int;

/// `crossbeam_channel::unbounded` makes a channel into which nothing was sent and from which
/// nothing came back. What goes in at the first end comes out at the second.
#[verifier::external_body]
fn command_channel() -> (ends: (Sender<LoopCommand>, Receiver<LoopCommand>))
    ensures
        sent_commands(ends.0) == Seq::<LoopCommand>::empty(),
        !came_back(ends.0),
        channel_into(ends.0) == channel_from(ends.1),
{
    crossbeam_channel::unbounded()
}

/// `crossbeam_channel::Sender::send` on an unbounded channel puts the message behind those that
/// were sent before, or hands it back where the receiving end is gone. A receiving end that is gone
/// stays so: after one message every later one comes back too. It never waits.
#[verifier::external_body]
fn send_on_channel(tx: &mut Sender<LoopCommand>, command: LoopCommand) -> (sent: Result<
    (),
    LoopCommand,
>)
    ensures
        match sent {
            Ok(()) => !came_back(*old(tx)) && !came_back(*final(tx)) && sent_commands(*final(tx))
                == sent_commands(*old(tx)).push(command),
            Err(back) => back == command && came_back(*final(tx)) && sent_commands(*final(tx))
                == sent_commands(*old(tx)),
        },
        channel_into(*final(tx)) == channel_into(*old(tx)),
{
    tx.send(command).map_err(|error| error.0)
}

#[derive(Clone, Copy, PartialEq, Eq, Debug, Structural)]
pub enum LoopCoreError {
    Closed,
    Running,
    NotRunning,
    ChannelClosed,
    ThreadJoin,
}

impl LoopCoreError {
    pub open spec fn text(self) -> Seq<char> {
        match self {
            LoopCoreError::Closed => "event loop is closed"@,
            LoopCoreError::Running => "event loop is already running"@,
            LoopCoreError::NotRunning => "event loop is not running"@,
            LoopCoreError::ChannelClosed => "event loop runtime channel is closed"@,
            LoopCoreError::ThreadJoin => "failed to join loop runtime thread"@,
        }
    }

    pub fn message(&self) -> (text: &'static str)
        ensures
            text@ == self.text(),
    {
        match self {
            LoopCoreError::Closed => "event loop is closed",
            LoopCoreError::Running => "event loop is already running",
            LoopCoreError::NotRunning => "event loop is not running",
            LoopCoreError::ChannelClosed => "event loop runtime channel is closed",
            LoopCoreError::ThreadJoin => "failed to join loop runtime thread",
        }
    }

    /// The class of the exception that it becomes.
    pub open spec fn class(self) -> ExceptionClass {
        ExceptionClass::RuntimeError
    }

    pub fn exception(&self) -> (class: ExceptionClass)
        ensures
            class == self.class(),
    {
        ExceptionClass::RuntimeError
    }
}

/// What to schedule when a signal arrives.
#[derive(Clone, Copy, PartialEq, Eq, Debug, Structural)]
pub struct SignalHandlerTemplate {
    pub callback: ObjectId,
    pub args: ObjectId,
    pub context: ObjectId,
    pub context_needs_run: bool,
}

/// What waits for a running loop from other threads. `wake_pending` says that the loop was woken
/// and has not looked yet.
pub struct ActiveReadyDispatch {
    pending_ready: VecDeque<ReadyItem>,
    wake_pending: bool,
}

/// The model of `ActiveReadyDispatch`.
#[verifier::ext_equal]
pub struct DispatchView {
    pub pending: Seq<ReadyItem>,
    pub wake: bool,
}

pub struct LoopState {
    pub closed: bool,
    pub running: bool,
    pub stopping: bool,
    pub asyncgens_shutdown_called: bool,
    pub active_asyncgens: Option<ObjectId>,
    pub executor_shutdown_called: bool,
    pub signal_handlers: HashMap<i32, SignalHandlerTemplate>,
    pub previous_signal_handlers: HashMap<i32, ObjectId>,
    pub reader_keepalive: HashMap<RawFd, ObjectId>,
    pub writer_keepalive: HashMap<RawFd, ObjectId>,
    pub task_factory: Option<ObjectId>,
    pub exception_handler: Option<ObjectId>,
    pub default_executor: Option<ObjectId>,
}

/// The model of `LoopState`.
#[verifier::ext_equal]
pub struct LoopStateView {
    pub closed: bool,
    pub running: bool,
    pub stopping: bool,
    pub asyncgens_shutdown_called: bool,
    pub active_asyncgens: Option<ObjectId>,
    pub executor_shutdown_called: bool,
    pub signal_handlers: Map<i32, SignalHandlerTemplate>,
    pub previous_signal_handlers: Map<i32, ObjectId>,
    pub reader_keepalive: Map<RawFd, ObjectId>,
    pub writer_keepalive: Map<RawFd, ObjectId>,
    pub task_factory: Option<ObjectId>,
    pub exception_handler: Option<ObjectId>,
    pub default_executor: Option<ObjectId>,
}

impl View for LoopState {
    type V = LoopStateView;

    open spec fn view(&self) -> LoopStateView {
        LoopStateView {
            closed: self.closed,
            running: self.running,
            stopping: self.stopping,
            asyncgens_shutdown_called: self.asyncgens_shutdown_called,
            active_asyncgens: self.active_asyncgens,
            executor_shutdown_called: self.executor_shutdown_called,
            signal_handlers: self.signal_handlers@,
            previous_signal_handlers: self.previous_signal_handlers@,
            reader_keepalive: self.reader_keepalive@,
            writer_keepalive: self.writer_keepalive@,
            task_factory: self.task_factory,
            exception_handler: self.exception_handler,
            default_executor: self.default_executor,
        }
    }
}

/// A loop that was never run.
pub open spec fn fresh_state() -> LoopStateView {
    LoopStateView {
        closed: false,
        running: false,
        stopping: false,
        asyncgens_shutdown_called: false,
        active_asyncgens: None,
        executor_shutdown_called: false,
        signal_handlers: Map::empty(),
        previous_signal_handlers: Map::empty(),
        reader_keepalive: Map::empty(),
        writer_keepalive: Map::empty(),
        task_factory: None,
        exception_handler: None,
        default_executor: None,
    }
}

impl LoopState {
    pub fn new() -> (state: Self)
        ensures
            state@ == fresh_state(),
    {
        let state = LoopState {
            closed: false,
            running: false,
            stopping: false,
            asyncgens_shutdown_called: false,
            active_asyncgens: None,
            executor_shutdown_called: false,
            signal_handlers: HashMap::new(),
            previous_signal_handlers: HashMap::new(),
            reader_keepalive: HashMap::new(),
            writer_keepalive: HashMap::new(),
            task_factory: None,
            exception_handler: None,
            default_executor: None,
        };
        assert(state@ =~= fresh_state());
        state
    }
}

/// What one thread knows of the loop that it runs. The queue is there while a loop runs; work goes
/// into it only while that loop drains its ready items.
pub struct ThreadReady {
    active_loop: Option<u64>,
    queue: Option<VecDeque<ReadyItem>>,
    drain_active: bool,
}

/// The model of `ThreadReady`.
#[verifier::ext_equal]
pub struct ThreadView {
    pub active_loop: Option<u64>,
    pub queue: Option<Seq<ReadyItem>>,
    pub drain_active: bool,
}

impl View for ThreadReady {
    type V = ThreadView;

    closed spec fn view(&self) -> ThreadView {
        ThreadView {
            active_loop: self.active_loop,
            queue: match self.queue {
                Some(queue) => Some(queue@),
                None => None,
            },
            drain_active: self.drain_active,
        }
    }
}

impl ThreadReady {
    /// A thread that runs no loop.
    pub fn new() -> (thread: Self)
        ensures
            thread@ == (ThreadView { active_loop: None, queue: None, drain_active: false }),
    {
        ThreadReady { active_loop: None, queue: None, drain_active: false }
    }

    pub fn has_queue(&self) -> (has: bool)
        ensures
            has == self@.queue is Some,
    {
        self.queue.is_some()
    }

    /// Takes what was queued. The queue itself stays.
    pub fn take_queued(&mut self) -> (items: VecDeque<ReadyItem>)
        ensures
            match old(self)@.queue {
                Some(queue) => items@ == queue && final(self)@ == (ThreadView {
                    queue: Some(Seq::empty()),
                    ..old(self)@
                }),
                None => items@ == Seq::<ReadyItem>::empty() && final(self)@ == old(self)@,
            },
    {
        let mut items: VecDeque<ReadyItem> = VecDeque::new();
        let mut queue: Option<VecDeque<ReadyItem>> = None;
        core::mem::swap(&mut self.queue, &mut queue);
        if let Some(mut queued) = queue {
            core::mem::swap(&mut items, &mut queued);
            self.queue = Some(queued);
        }
        items
    }
}

/// How a command reached the loop.
#[derive(Clone, Copy, PartialEq, Eq, Debug, Structural)]
pub enum Sent {
    /// Into the queue of the thread that runs the loop.
    Local,
    /// Into the queue for other threads. The loop has to be woken where `wake` says so.
    Pending { wake: bool },
    /// Into the channel. The runtime thread has to be woken.
    Channel,
}

/// The model of the loop.
#[verifier::ext_equal]
pub struct LoopView {
    pub id: u64,
    pub state: LoopStateView,
    pub debug_enabled: bool,
    pub task_factory_installed: bool,
    pub next_callback_id: CallbackId,
    /// The channel to the runtime thread.
    pub channel: int,
    /// What went to the runtime thread.
    pub sent: Seq<LoopCommand>,
    /// A command came back: the runtime thread takes none any more.
    pub unheard: bool,
    /// There while the loop runs.
    pub dispatch: Option<DispatchView>,
}

/// The thread runs this loop and is in the middle of its ready items.
pub open spec fn is_local(v: LoopView, thread: ThreadView) -> bool {
    &&& thread.active_loop == Some(v.id)
    &&& thread.drain_active
    &&& thread.queue is Some
}

/// The item joins the thread's own queue.
pub open spec fn with_local(thread: ThreadView, item: ReadyItem) -> ThreadView {
    ThreadView { queue: Some(thread.queue.unwrap().push(item)), ..thread }
}

/// The item joins the queue for other threads.
pub open spec fn with_pending(v: LoopView, item: ReadyItem) -> LoopView {
    let dispatch = v.dispatch.unwrap();
    LoopView {
        dispatch: Some(DispatchView { pending: dispatch.pending.push(item), wake: true }),
        ..v
    }
}

/// What becomes of a command that a queue can take, or nothing where it has to go into the channel.
pub open spec fn queued(v: LoopView, thread: ThreadView, command: LoopCommand) -> Option<
    (LoopView, ThreadView, Sent),
> {
    match ready_item_of(command) {
        Some(item) => if is_local(v, thread) {
            Some((v, with_local(thread, item), Sent::Local))
        } else if v.dispatch is Some {
            Some(
                (
                    with_pending(v, item),
                    thread,
                    Sent::Pending { wake: !v.dispatch.unwrap().wake },
                ),
            )
        } else {
            None
        },
        None => None,
    }
}

/// The runtime thread got the command.
pub open spec fn is_heard(v: LoopView, command: LoopCommand, v_after: LoopView) -> bool {
    !v.unheard && v_after == (LoopView { sent: v.sent.push(command), ..v })
}

/// The command came back. That happens only when the runtime thread is gone, and then to every
/// command.
pub open spec fn is_unheard(v: LoopView, v_after: LoopView) -> bool {
    v_after == (LoopView { unheard: true, ..v })
}

/// What a sent command comes to: `result` and the two states after it.
pub open spec fn is_sent(
    v: LoopView,
    thread: ThreadView,
    command: LoopCommand,
    result: Result<Sent, LoopCoreError>,
    v_after: LoopView,
    thread_after: ThreadView,
) -> bool {
    match queued(v, thread, command) {
        Some((v_queued, thread_queued, sent)) => result == Result::<Sent, LoopCoreError>::Ok(sent)
            && v_after == v_queued && thread_after == thread_queued,
        None => thread_after == thread && match result {
            Ok(sent) => sent == Sent::Channel && is_heard(v, command, v_after),
            Err(error) => error == LoopCoreError::ChannelClosed && is_unheard(v, v_after),
        },
    }
}

/// The loop marked as closed.
pub open spec fn marked_closed(v: LoopView) -> LoopView {
    LoopView { state: LoopStateView { closed: true, ..v.state }, ..v }
}

/// What closing a loop comes to: refused while the loop runs, nothing where it was closed before.
pub open spec fn is_close(
    v: LoopView,
    thread: ThreadView,
    done: Result<CloseStep, LoopCoreError>,
    v_after: LoopView,
    thread_after: ThreadView,
) -> bool {
    &&& thread_after == thread
    &&& if v.state.running {
        done == Result::<CloseStep, LoopCoreError>::Err(LoopCoreError::Running) && v_after == v
    } else if v.state.closed {
        done == Result::<CloseStep, LoopCoreError>::Ok(CloseStep::AlreadyClosed) && v_after == v
    } else {
        match done {
            Ok(step) => step == CloseStep::JoinRuntime && is_heard(
                marked_closed(v),
                LoopCommand::Close,
                v_after,
            ),
            Err(error) => error == LoopCoreError::ChannelClosed && is_unheard(
                marked_closed(v),
                v_after,
            ),
        }
    }
}

/// What to do about a closed loop.
#[derive(Clone, Copy, PartialEq, Eq, Debug, Structural)]
pub enum CloseStep {
    /// It was closed before.
    AlreadyClosed,
    /// Join the runtime thread and hand the outcome to `runtime_joined`.
    JoinRuntime,
}

/// How an exception context is handled.
#[derive(Clone, Copy, PartialEq, Eq, Debug, Structural)]
pub enum HandlerStep {
    /// Call the handler with the loop, or `None` where there is no loop, and the context.
    Call { handler: ObjectId, loop_obj: Option<ObjectId> },
    /// Use the default handler.
    Default,
}

pub struct LoopCore {
    id: u64,
    state: LoopState,
    debug_enabled: bool,
    task_factory_installed: bool,
    next_callback_id: CallbackId,
    command_tx: Sender<LoopCommand>,
    active_ready_dispatch: Option<ActiveReadyDispatch>,
}

impl View for LoopCore {
    type V = LoopView;

    closed spec fn view(&self) -> LoopView {
        LoopView {
            id: self.id,
            state: self.state@,
            debug_enabled: self.debug_enabled,
            task_factory_installed: self.task_factory_installed,
            next_callback_id: self.next_callback_id,
            channel: channel_into(self.command_tx),
            sent: sent_commands(self.command_tx),
            unheard: came_back(self.command_tx),
            dispatch: match self.active_ready_dispatch {
                Some(dispatch) => Some(
                    DispatchView {
                        pending: dispatch.pending_ready@,
                        wake: dispatch.wake_pending,
                    },
                ),
                None => None,
            },
        }
    }
}

impl LoopCore {
    /// A new loop, and the receiving end for its runtime thread. `id` tells it from other loops.
    pub fn new(id: u64) -> (made: (LoopCore, Receiver<LoopCommand>))
        ensures
            made.0@ == (LoopView {
                id,
                state: fresh_state(),
                debug_enabled: false,
                task_factory_installed: false,
                next_callback_id: 1,
                channel: channel_from(made.1),
                sent: Seq::empty(),
                unheard: false,
                dispatch: None,
            }),
    {
        let (command_tx, command_rx) = command_channel();
        let core = LoopCore {
            id,
            state: LoopState::new(),
            debug_enabled: false,
            task_factory_installed: false,
            next_callback_id: 1,
            command_tx,
            active_ready_dispatch: None,
        };
        (core, command_rx)
    }

    pub fn state(&self) -> (state: &LoopState)
        ensures
            state@ == self@.state,
    {
        &self.state
    }

    /// The library's own functions change the state; from outside it can only be read.
    pub(crate) fn state_mut(&mut self) -> (state: &mut LoopState)
        ensures
            state@ == old(self)@.state,
            final(self)@ == (LoopView { state: final(state)@, ..old(self)@ }),
    {
        &mut self.state
    }

    pub fn is_running(&self) -> (running: bool)
        ensures
            running == self@.state.running,
    {
        self.state.running
    }

    pub fn is_closed(&self) -> (closed: bool)
        ensures
            closed == self@.state.closed,
    {
        self.state.closed
    }

    pub fn set_debug(&mut self, enabled: bool)
        ensures
            final(self)@ == with_debug(old(self)@, enabled),
    {
        self.debug_enabled = enabled;
    }

    pub fn get_debug(&self) -> (enabled: bool)
        ensures
            enabled == self@.debug_enabled,
    {
        self.debug_enabled
    }

    pub fn has_task_factory(&self) -> (has: bool)
        ensures
            has == self@.task_factory_installed,
    {
        self.task_factory_installed
    }

    pub fn set_task_factory_installed(&mut self, installed: bool)
        ensures
            final(self)@ == (LoopView { task_factory_installed: installed, ..old(self)@ }),
    {
        self.task_factory_installed = installed;
    }

    /// Numbers run from one on, and begin again after the largest.
    pub fn next_callback_id(&mut self) -> (id: CallbackId)
        ensures
            id == old(self)@.next_callback_id,
            final(self)@ == numbered(old(self)@),
    {
        let id: u64 = self.next_callback_id;
        self.next_callback_id = id.wrapping_add(1);
        id
    }

    pub fn on_runtime_thread(&self, thread: &ThreadReady) -> (on: bool)
        ensures
            on == (thread@.active_loop == Some(self@.id)),
    {
        match thread.active_loop {
            Some(id) => id == self.id,
            None => false,
        }
    }

    pub fn mark_runtime_thread(&self, thread: &mut ThreadReady)
        ensures
            final(thread)@ == running_here(self@, old(thread)@),
    {
        thread.active_loop = Some(self.id);
    }

    /// Gives the thread a queue of its own. A thread runs one loop at a time.
    pub fn install_local_ready_queue(&self, thread: &mut ThreadReady)
        requires
            old(thread)@.queue is None,
        ensures
            final(thread)@ == with_queue(old(thread)@),
    {
        thread.queue = Some(VecDeque::new());
    }

    /// The thread runs no loop any more. What was still in its queue is handed back.
    pub fn clear_runtime_thread(&self, thread: &mut ThreadReady) -> (left: VecDeque<ReadyItem>)
        ensures
            left@ == queued_in(old(thread)@),
            final(thread)@ == released(self@, old(thread)@),
    {
        let left = thread.take_queued();
        if self.on_runtime_thread(thread) {
            thread.active_loop = None;
        }
        thread.queue = None;
        thread.drain_active = false;
        left
    }

    pub fn set_ready_drain_active(&self, thread: &mut ThreadReady, active: bool)
        ensures
            final(thread)@ == with_drain(old(thread)@, active),
    {
        thread.drain_active = active;
    }

    /// Puts the item into the queue of the thread, if that thread is draining this loop.
    fn try_enqueue_local_ready(&self, thread: &mut ThreadReady, item: ReadyItem) -> (done: Result<
        (),
        ReadyItem,
    >)
        ensures
            match done {
                Ok(()) => is_local(self@, old(thread)@) && final(thread)@ == with_local(
                    old(thread)@,
                    item,
                ),
                Err(back) => !is_local(self@, old(thread)@) && back == item && final(thread)@
                    == old(thread)@,
            },
    {
        if !self.on_runtime_thread(thread) {
            return Err(item);
        }
        if !thread.drain_active {
            return Err(item);
        }
        let mut queue: Option<VecDeque<ReadyItem>> = None;
        core::mem::swap(&mut thread.queue, &mut queue);
        match queue {
            Some(mut ready) => {
                ready.push_back(item);
                thread.queue = Some(ready);
                Ok(())
            },
            None => Err(item),
        }
    }

    /// Puts the item into the queue for other threads, if the loop runs. The result says whether
    /// the loop has to be woken.
    fn try_enqueue_active_ready(&mut self, item: ReadyItem) -> (done: Result<bool, ReadyItem>)
        ensures
            match done {
                Ok(wake) => old(self)@.dispatch is Some && wake
                    == !old(self)@.dispatch.unwrap().wake && final(self)@ == with_pending(
                    old(self)@,
                    item,
                ),
                Err(back) => old(self)@.dispatch is None && back == item && final(self)@
                    == old(self)@,
            },
    {
        let mut active: Option<ActiveReadyDispatch> = None;
        core::mem::swap(&mut self.active_ready_dispatch, &mut active);
        match active {
            Some(mut dispatch) => {
                dispatch.pending_ready.push_back(item);
                let wake = !dispatch.wake_pending;
                dispatch.wake_pending = true;
                self.active_ready_dispatch = Some(dispatch);
                Ok(wake)
            },
            None => Err(item),
        }
    }

    /// Takes everything that other threads queued. The loop has looked, so the next item from
    /// another thread wakes it again.
    pub fn take_pending(&mut self) -> (items: VecDeque<ReadyItem>)
        ensures
            items@ == pending_of(old(self)@),
            final(self)@ == with_pending_taken(old(self)@),
    {
        let mut items: VecDeque<ReadyItem> = VecDeque::new();
        let mut active: Option<ActiveReadyDispatch> = None;
        core::mem::swap(&mut self.active_ready_dispatch, &mut active);
        if let Some(mut dispatch) = active {
            core::mem::swap(&mut items, &mut dispatch.pending_ready);
            dispatch.wake_pending = false;
            self.active_ready_dispatch = Some(dispatch);
        }
        items
    }

    pub fn is_wake_pending(&self) -> (wake: bool)
        ensures
            wake == is_woken(self@),
    {
        match &self.active_ready_dispatch {
            Some(dispatch) => dispatch.wake_pending,
            None => false,
        }
    }

    /// From here on other threads can queue work directly.
    pub fn install_dispatch(&mut self)
        ensures
            final(self)@ == with_dispatch(old(self)@),
    {
        self.active_ready_dispatch =
        Some(ActiveReadyDispatch { pending_ready: VecDeque::new(), wake_pending: false });
    }

    /// From here on other threads go through the channel. What they queued is handed back.
    pub fn remove_dispatch(&mut self) -> (left: VecDeque<ReadyItem>)
        ensures
            left@ == pending_of(old(self)@),
            final(self)@ == without_dispatch(old(self)@),
    {
        let left = self.take_pending();
        self.active_ready_dispatch = None;
        left
    }

    /// Queues what the command asks for without a detour through the runtime thread. A command
    /// for which that cannot be done comes back as it was.
    fn try_handle_local_command(&mut self, thread: &mut ThreadReady, command: LoopCommand) -> (done:
        Result<Sent, LoopCommand>)
        ensures
            match queued(old(self)@, old(thread)@, command) {
                Some((v, t, sent)) => done == Result::<Sent, LoopCommand>::Ok(sent)
                    && final(self)@ == v && final(thread)@ == t,
                None => done == Result::<Sent, LoopCommand>::Err(command) && final(self)@
                    == old(self)@ && final(thread)@ == old(thread)@,
            },
    {
        let item = match command.ready_item() {
            Some(item) => item,
            None => {
                return Err(command);
            },
        };
        let item = match self.try_enqueue_local_ready(thread, item) {
            Ok(()) => {
                return Ok(Sent::Local);
            },
            Err(item) => item,
        };
        match self.try_enqueue_active_ready(item) {
            Ok(wake) => Ok(Sent::Pending { wake }),
            Err(item) => Err(item.into_command()),
        }
    }

    /// Gets a command to the loop: into one of the ready queues where one can take it, else to the
    /// runtime thread.
    pub fn send_command(&mut self, thread: &mut ThreadReady, command: LoopCommand) -> (done: Result<
        Sent,
        LoopCoreError,
    >)
        ensures
            is_sent(old(self)@, old(thread)@, command, done, final(self)@, final(thread)@),
    {
        let command = match self.try_handle_local_command(thread, command) {
            Ok(sent) => {
                return Ok(sent);
            },
            Err(command) => command,
        };
        let sent = send_on_channel(&mut self.command_tx, command);
        finish_send(sent)
    }

    /// Schedules a callback. It gets the next number.
    pub fn schedule_callback(
        &mut self,
        thread: &mut ThreadReady,
        kind: CallbackKind,
        callback: ObjectId,
        args: ObjectId,
        context: ObjectId,
        context_needs_run: bool,
    ) -> (done: Result<(ReadyCallback, Sent), LoopCoreError>)
        ensures
            scheduled(
                old(self)@,
                old(thread)@,
                ReadyCallback {
                    id: old(self)@.next_callback_id,
                    kind,
                    callback,
                    args,
                    context,
                    context_needs_run,
                },
                None,
                done,
                final(self)@,
                final(thread)@,
            ),
    {
        let id: CallbackId = self.next_callback_id();
        let ready = ReadyCallback { id, kind, callback, args, context, context_needs_run };
        match self.send_command(thread, LoopCommand::ScheduleReady(ready)) {
            Ok(sent) => Ok((ready, sent)),
            Err(error) => Err(error),
        }
    }

    /// Schedules a callback for a later time.
    pub fn schedule_timer(
        &mut self,
        thread: &mut ThreadReady,
        deadline: u128,
        callback: ObjectId,
        args: ObjectId,
        context: ObjectId,
        context_needs_run: bool,
    ) -> (done: Result<(ReadyCallback, Sent), LoopCoreError>)
        ensures
            scheduled(
                old(self)@,
                old(thread)@,
                ReadyCallback {
                    id: old(self)@.next_callback_id,
                    kind: CallbackKind::Timer,
                    callback,
                    args,
                    context,
                    context_needs_run,
                },
                Some(deadline),
                done,
                final(self)@,
                final(thread)@,
            ),
    {
        let id: CallbackId = self.next_callback_id();
        let ready = ReadyCallback {
            id,
            kind: CallbackKind::Timer,
            callback,
            args,
            context,
            context_needs_run,
        };
        let command = LoopCommand::ScheduleTimer { callback: ready, when: deadline };
        match self.send_command(thread, command) {
            Ok(sent) => Ok((ready, sent)),
            Err(error) => Err(error),
        }
    }

    pub fn schedule_stop(&mut self, thread: &mut ThreadReady) -> (done: Result<Sent, LoopCoreError>)
        ensures
            is_sent(
                old(self)@,
                old(thread)@,
                LoopCommand::RequestStop,
                done,
                final(self)@,
                final(thread)@,
            ),
    {
        self.send_command(thread, LoopCommand::RequestStop)
    }

    /// Closes the loop, if it does not run. A closed loop stays as it is.
    pub fn close(&mut self, thread: &mut ThreadReady) -> (done: Result<CloseStep, LoopCoreError>)
        ensures
            is_close(old(self)@, old(thread)@, done, final(self)@, final(thread)@),
    {
        if self.state.running {
            return Err(LoopCoreError::Running);
        }
        if self.state.closed {
            return Ok(CloseStep::AlreadyClosed);
        }
        self.state.closed = true;
        match self.send_command(thread, LoopCommand::Close) {
            Ok(_) => Ok(CloseStep::JoinRuntime),
            Err(error) => Err(error),
        }
    }

    /// A handler that was set gets every exception context.
    pub fn call_exception_handler(&self, loop_obj: Option<ObjectId>) -> (step: HandlerStep)
        ensures
            step == handler_step(self@, loop_obj),
    {
        match self.state.exception_handler {
            Some(handler) => HandlerStep::Call { handler, loop_obj },
            None => HandlerStep::Default,
        }
    }

    /// The line that the default handler prints. A context without a message, or with one that is
    /// no text, gets a message of its own.
    pub fn default_exception_handler(&self, message: Option<String>) -> (line: String)
        ensures
            line@ == match message {
                Some(text) => text@ + "\n"@,
                None => "Unhandled exception in rsloop"@ + "\n"@,
            },
    {
        match message {
            Some(text) => text.concat("\n"),
            None => "Unhandled exception in rsloop".to_owned().concat("\n"),
        }
    }

    /// A callback that was cancelled is not called. What to do after a call is said by
    /// `executed_ready`.
    pub fn execute_ready(&self, cancelled: bool) -> (invoke: bool)
        ensures
            invoke == is_invoked(cancelled),
    {
        if cancelled {
            return false;
        }
        true
    }

    /// A descriptor whose callback ran is watched again, if it was not removed meanwhile. That the
    /// command could not be sent is no error here.
    pub fn rearm_fd_watch_if_needed(&mut self, thread: &mut ThreadReady, ready: ReadyCallback) -> (done:
        Option<Result<Sent, LoopCoreError>>)
        ensures
            match (rearming(old(self)@, ready), done) {
                (Some(command), Some(result)) => is_sent(
                    old(self)@,
                    old(thread)@,
                    command,
                    result,
                    final(self)@,
                    final(thread)@,
                ),
                (None, None) => final(self)@ == old(self)@ && final(thread)@ == old(thread)@,
                _ => false,
            },
    {
        let command = match ready.kind {
            CallbackKind::Reader(fd) => {
                if self.state.reader_keepalive.contains_key(&fd) {
                    Some(LoopCommand::Io(LoopIoCommand::StartReader(watch_of(fd, ready))))
                } else {
                    None
                }
            },
            CallbackKind::Writer(fd) => {
                if self.state.writer_keepalive.contains_key(&fd) {
                    Some(LoopCommand::Io(LoopIoCommand::StartWriter(watch_of(fd, ready))))
                } else {
                    None
                }
            },
            _ => None,
        };
        match command {
            Some(command) => Some(self.send_command(thread, command)),
            None => None,
        }
    }
}

/// The thread works on this loop.
pub open spec fn running_here(v: LoopView, thread: ThreadView) -> ThreadView {
    ThreadView { active_loop: Some(v.id), ..thread }
}

/// The thread has a queue of its own.
pub open spec fn with_queue(thread: ThreadView) -> ThreadView {
    ThreadView { queue: Some(Seq::empty()), ..thread }
}

/// What waits in the thread's own queue.
pub open spec fn queued_in(thread: ThreadView) -> Seq<ReadyItem> {
    match thread.queue {
        Some(queue) => queue,
        None => Seq::empty(),
    }
}

/// The thread works on this loop no longer.
pub open spec fn released(v: LoopView, thread: ThreadView) -> ThreadView {
    ThreadView {
        active_loop: if thread.active_loop == Some(v.id) {
            None
        } else {
            thread.active_loop
        },
        queue: None,
        drain_active: false,
    }
}

/// Whether the thread is in the middle of the loop's ready items.
pub open spec fn with_drain(thread: ThreadView, active: bool) -> ThreadView {
    ThreadView { drain_active: active, ..thread }
}

/// What other threads queued.
pub open spec fn pending_of(v: LoopView) -> Seq<ReadyItem> {
    match v.dispatch {
        Some(dispatch) => dispatch.pending,
        None => Seq::empty(),
    }
}

/// The loop was woken and has not looked yet.
pub open spec fn is_woken(v: LoopView) -> bool {
    match v.dispatch {
        Some(dispatch) => dispatch.wake,
        None => false,
    }
}

/// The loop took what other threads queued.
pub open spec fn with_pending_taken(v: LoopView) -> LoopView {
    match v.dispatch {
        Some(_) => with_dispatch(v),
        None => v,
    }
}

/// Other threads can queue work directly, and have not yet.
pub open spec fn with_dispatch(v: LoopView) -> LoopView {
    LoopView { dispatch: Some(DispatchView { pending: Seq::empty(), wake: false }), ..v }
}

/// Other threads go through the channel.
pub open spec fn without_dispatch(v: LoopView) -> LoopView {
    LoopView { dispatch: None, ..v }
}

/// The loop in debug mode, or not.
pub open spec fn with_debug(v: LoopView, enabled: bool) -> LoopView {
    LoopView { debug_enabled: enabled, ..v }
}

/// A ready callback is called.
pub open spec fn is_invoked(cancelled: bool) -> bool {
    !cancelled
}

/// What the channel's answer means.
pub open spec fn channel_outcome(sent: Result<(), LoopCommand>) -> Result<Sent, LoopCoreError> {
    match sent {
        Ok(()) => Ok(Sent::Channel),
        Err(_) => Err(LoopCoreError::ChannelClosed),
    }
}

/// What the end of the runtime thread means.
pub open spec fn join_outcome(ended: bool) -> Result<(), LoopCoreError> {
    if ended {
        Ok(())
    } else {
        Err(LoopCoreError::ThreadJoin)
    }
}

/// How an exception context of the loop is handled.
pub open spec fn handler_step(v: LoopView, loop_obj: Option<ObjectId>) -> HandlerStep {
    match v.state.exception_handler {
        Some(handler) => HandlerStep::Call { handler, loop_obj },
        None => HandlerStep::Default,
    }
}

/// The watch that calls the callback again.
pub open spec fn watch_again(fd: RawFd, ready: ReadyCallback) -> FdWatch {
    FdWatch {
        fd,
        callback: ready.callback,
        args: ready.args,
        context: ready.context,
        context_needs_run: ready.context_needs_run,
    }
}

fn watch_of(fd: RawFd, ready: ReadyCallback) -> (watch: FdWatch)
    ensures
        watch == watch_again(fd, ready),
{
    FdWatch {
        fd,
        callback: ready.callback,
        args: ready.args,
        context: ready.context,
        context_needs_run: ready.context_needs_run,
    }
}

/// The command that watches the descriptor of a callback again, where it is still wanted.
pub open spec fn rearming(v: LoopView, ready: ReadyCallback) -> Option<LoopCommand> {
    match ready.kind {
        CallbackKind::Reader(fd) => if v.state.reader_keepalive.contains_key(fd) {
            Some(LoopCommand::Io(LoopIoCommand::StartReader(watch_again(fd, ready))))
        } else {
            None
        },
        CallbackKind::Writer(fd) => if v.state.writer_keepalive.contains_key(fd) {
            Some(LoopCommand::Io(LoopIoCommand::StartWriter(watch_again(fd, ready))))
        } else {
            None
        },
        _ => None,
    }
}

/// The loop after it gave out a number.
pub open spec fn numbered(v: LoopView) -> LoopView {
    LoopView {
        next_callback_id: if v.next_callback_id == u64::MAX {
            0
        } else {
            (v.next_callback_id + 1) as u64
        },
        ..v
    }
}

/// What scheduling comes to. `when` is there for a timer.
pub open spec fn scheduled(
    v: LoopView,
    thread: ThreadView,
    ready: ReadyCallback,
    when: Option<u128>,
    done: Result<(ReadyCallback, Sent), LoopCoreError>,
    v_after: LoopView,
    thread_after: ThreadView,
) -> bool {
    let command = match when {
        Some(when) => LoopCommand::ScheduleTimer { callback: ready, when },
        None => LoopCommand::ScheduleReady(ready),
    };
    let result = match done {
        Ok((_, sent)) => Result::<Sent, LoopCoreError>::Ok(sent),
        Err(error) => Result::<Sent, LoopCoreError>::Err(error),
    };
    &&& is_sent(numbered(v), thread, command, result, v_after, thread_after)
    &&& done matches Ok((given, _)) ==> given == ready
}

/// What the channel's answer means.
pub fn finish_send(sent: Result<(), LoopCommand>) -> (done: Result<Sent, LoopCoreError>)
    ensures
        done == channel_outcome(sent),
{
    match sent {
        Ok(()) => Ok(Sent::Channel),
        Err(_) => Err(LoopCoreError::ChannelClosed),
    }
}

/// What it means that the runtime thread ended, or that it panicked.
pub fn runtime_joined(ended: bool) -> (done: Result<(), LoopCoreError>)
    ensures
        done == join_outcome(ended),
{
    if ended {
        Ok(())
    } else {
        Err(LoopCoreError::ThreadJoin)
    }
}

} // verus!
