//! One run of the loop: take ready items, have them done, wait for more, stop.

use std::collections::VecDeque;
use vstd::prelude::*;
use crate::loop_commands::{LoopCommand, LoopRunCommand, ReadyCallback, ReadyItem};
use crate::loop_core::{
    is_heard, is_sent, is_unheard, rearming, DispatchView, LoopCore, LoopCoreError, LoopStateView,
    LoopView, Sent, ThreadReady, ThreadView,
};
use crate::objects::{ExceptionClass, ObjectId};

verus! {

/// So many items are done at most before the loop looks for new ones.
pub const READY_DRAIN_SLICE: usize = 64;

/// How long the loop waits for work before it looks for signals, in milliseconds.
pub const SIGNAL_POLL_INTERVAL_MS: u64 = 50;

/// Why a run ends in an error.
#[derive(Clone, Copy, PartialEq, Eq, Debug, Structural)]
pub enum RunError {
    /// The loop could not be run, or could not be told that the run is over.
    Core(LoopCoreError),
    /// A callback or a signal handler raised.
    Raised(ObjectId),
    RuntimeTerminated,
    FinishTimedOut,
    /// The thread is in the middle of a run of another loop.
    OtherLoopRuns,
}

impl RunError {
    /// The text of an error that is the loop's own.
    pub fn message(&self) -> (text: Option<&'static str>)
        ensures
            match *self {
                RunError::RuntimeTerminated => text is Some && text.unwrap()@
                    == "event loop runtime terminated unexpectedly"@,
                RunError::FinishTimedOut => text is Some && text.unwrap()@
                    == "timed out while finishing event loop run"@,
                RunError::OtherLoopRuns => text is Some && text.unwrap()@
                    == "Cannot run the event loop while another loop is running"@,
                RunError::Core(error) => text is Some && text.unwrap()@ == error.text(),
                RunError::Raised(_) => text is None,
            },
    {
        match self {
            RunError::RuntimeTerminated => Some("event loop runtime terminated unexpectedly"),
            RunError::FinishTimedOut => Some("timed out while finishing event loop run"),
            RunError::OtherLoopRuns => Some(
                "Cannot run the event loop while another loop is running",
            ),
            RunError::Core(error) => Some(error.message()),
            RunError::Raised(_) => None,
        }
    }

    /// The class of the exception that it becomes, unless it is one already.
    pub open spec fn class(self) -> Option<ExceptionClass> {
        if self is Raised {
            None
        } else {
            Some(ExceptionClass::RuntimeError)
        }
    }

    /// The class of an error that is the loop's own.
    pub fn exception(&self) -> (class: Option<ExceptionClass>)
        ensures
            class == self.class(),
    {
        match self {
            RunError::Raised(_) => None,
            _ => Some(ExceptionClass::RuntimeError),
        }
    }
}

/// What happened since the last step.
#[derive(Clone, Copy, PartialEq, Eq, Debug, Structural)]
pub enum RunEvent {
    Begin,
    /// The item was done. What a callback raised was reported.
    ItemDone,
    /// A callback raised what is not to be reported but let through.
    CallbackFailed(ObjectId),
    /// The item itself failed.
    ItemRaised(ObjectId),
    SignalsChecked,
    SignalRaised(ObjectId),
    /// Someone woke the loop, or the waiting time is over.
    Woken,
    /// There is no one left who could.
    Disconnected,
}

/// What has to be done next.
#[derive(Clone, Copy, PartialEq, Eq, Debug, Structural)]
pub enum RunAction {
    Execute(ReadyItem),
    CheckSignals,
    /// Wait until woken, at most for the poll interval.
    WaitWake,
    /// Leave the loop, and clean up with `finish`.
    Finish,
    /// Leave the loop with an error, and clean up with `finish`.
    FinishWith(RunError),
    /// Leave at once.
    Abort(ObjectId),
}

/// The model of a run: what this run took and has not done, and the two states that it works on.
#[verifier::ext_equal]
pub struct RunView {
    pub batch: Seq<ReadyItem>,
    /// The items done since the loop last looked for new ones.
    pub processed: nat,
    pub signal_error: Option<ObjectId>,
    pub core: LoopView,
    pub thread: ThreadView,
}

impl RunView {
    /// What other threads queued.
    pub open spec fn pending(self) -> Seq<ReadyItem> {
        match self.core.dispatch {
            Some(dispatch) => dispatch.pending,
            None => Seq::empty(),
        }
    }

    /// What the loop's own callbacks queued.
    pub open spec fn local(self) -> Seq<ReadyItem> {
        match self.thread.queue {
            Some(queue) => queue,
            None => Seq::empty(),
        }
    }

    pub open spec fn wake(self) -> bool {
        match self.core.dispatch {
            Some(dispatch) => dispatch.wake,
            None => false,
        }
    }

    /// Everything that waits to be done.
    pub open spec fn waiting(self) -> nat {
        self.batch.len() + self.pending().len() + self.local().len()
    }

    pub open spec fn with_pending_taken(self) -> RunView {
        RunView {
            core: LoopView {
                dispatch: match self.core.dispatch {
                    Some(_) => Some(DispatchView { pending: Seq::empty(), wake: false }),
                    None => None,
                },
                ..self.core
            },
            ..self
        }
    }

    pub open spec fn with_local_taken(self) -> RunView {
        RunView {
            thread: ThreadView {
                queue: match self.thread.queue {
                    Some(_) => Some(Seq::empty()),
                    None => None,
                },
                ..self.thread
            },
            ..self
        }
    }

    pub open spec fn with_drain(self, active: bool) -> RunView {
        RunView { thread: ThreadView { drain_active: active, ..self.thread }, ..self }
    }

    pub open spec fn with_stopping(self) -> RunView {
        RunView {
            core: LoopView {
                state: LoopStateView { stopping: true, ..self.core.state },
                ..self.core
            },
            ..self
        }
    }

    /// One more item is done.
    pub open spec fn with_one_done(self) -> RunView {
        RunView {
            processed: if self.processed < READY_DRAIN_SLICE {
                self.processed + 1
            } else {
                self.processed
            },
            ..self
        }
    }
}

/// The loop looks for new items. Those of other threads go to the front, where the batch is used up
/// or where one of them woke the loop; those of the loop's own callbacks go to the end.
pub open spec fn refilled(r: RunView) -> RunView {
    let from_pending = r.batch.len() == 0 || r.wake();
    let r1 = if from_pending {
        RunView { batch: r.pending() + r.batch, ..r.with_pending_taken() }
    } else {
        r
    };
    RunView { batch: r1.batch + r1.local(), processed: 0, ..r1.with_local_taken() }
}

/// It is time to look.
pub open spec fn needs_refill(r: RunView) -> bool {
    r.batch.len() == 0 || r.processed >= READY_DRAIN_SLICE
}

/// Nothing is left to be done: stop, or look for signals, or wait.
pub open spec fn idle(r: RunView) -> (RunView, RunAction) {
    let r1 = r.with_drain(false);
    (
        r1,
        if r1.core.state.stopping {
            match r1.signal_error {
                Some(raised) => RunAction::FinishWith(RunError::Raised(raised)),
                None => RunAction::Finish,
            }
        } else if r1.signal_error is None {
            RunAction::CheckSignals
        } else {
            RunAction::WaitWake
        },
    )
}

/// The next item that is not a mere request to stop, or what to do where there is none.
pub open spec fn pumped(r: RunView) -> (RunView, RunAction)
    decreases r.waiting(),
{
    let r1 = if needs_refill(r) {
        refilled(r)
    } else {
        r
    };
    if r1.batch.len() == 0 {
        idle(r1)
    } else {
        let item = r1.batch[0];
        let r2 = RunView { batch: r1.batch.drop_first(), ..r1 };
        if item is Stop {
            proof {
                lemma_refill_keeps_count(r);
            }
            pumped(r2.with_stopping().with_one_done())
        } else {
            (r2, RunAction::Execute(item))
        }
    }
}

/// The loop begins to take items again.
pub open spec fn drained(r: RunView) -> (RunView, RunAction) {
    pumped(RunView { processed: 0, ..r.with_drain(true) })
}

/// Looking for new items neither loses nor makes up one.
pub proof fn lemma_refill_keeps_count(r: RunView)
    ensures
        refilled(r).waiting() == r.waiting(),
{
}

/// One step of a run.
pub open spec fn is_step(r: RunView, event: RunEvent, after: RunView, action: RunAction) -> bool {
    match event {
        RunEvent::Begin => (after, action) == drained(r),
        RunEvent::Woken => (after, action) == drained(r),
        RunEvent::ItemDone => (after, action) == pumped(r.with_one_done()),
        RunEvent::CallbackFailed(raised) => after == r.with_drain(false) && action
            == RunAction::FinishWith(RunError::Raised(raised)),
        RunEvent::ItemRaised(raised) => after == r && action == RunAction::Abort(raised),
        RunEvent::SignalsChecked => after == r && action == RunAction::WaitWake,
        RunEvent::Disconnected => after == r && action == RunAction::FinishWith(
            RunError::RuntimeTerminated,
        ),
        RunEvent::SignalRaised(raised) => exists|
            core: LoopView,
            thread: ThreadView,
            sent: Result<Sent, LoopCoreError>,
        | #[trigger]
            is_sent(r.core, r.thread, LoopCommand::RequestStop, sent, core, thread) && (
            after,
            action,
        ) == drained(RunView { signal_error: Some(raised), core, thread, ..r }),
    }
}

/// A run of the loop.
pub struct LoopRun {
    batch: VecDeque<ReadyItem>,
    processed: usize,
    signal_error: Option<ObjectId>,
}

impl LoopRun {
    pub open spec fn wf(&self) -> bool {
        self.spec_processed() <= READY_DRAIN_SLICE
    }

    pub closed spec fn spec_batch(&self) -> Seq<ReadyItem> {
        self.batch@
    }

    pub closed spec fn spec_processed(&self) -> nat {
        self.processed as nat
    }

    pub closed spec fn spec_signal_error(&self) -> Option<ObjectId> {
        self.signal_error
    }

    /// The run together with what it works on.
    pub open spec fn on(&self, core: LoopView, thread: ThreadView) -> RunView {
        RunView {
            batch: self.spec_batch(),
            processed: self.spec_processed(),
            signal_error: self.spec_signal_error(),
            core,
            thread,
        }
    }

    fn refill(&mut self, core: &mut LoopCore, thread: &mut ThreadReady)
        ensures
            final(self).wf(),
            final(self).on(final(core)@, final(thread)@) == refilled(
                old(self).on(old(core)@, old(thread)@),
            ),
    {
        if self.batch.len() == 0 || core.is_wake_pending() {
            let mut pending = core.take_pending();
            pending.append(&mut self.batch);
            self.batch = pending;
        }
        let mut local = thread.take_queued();
        self.batch.append(&mut local);
        self.processed = 0;
        assert(self.on(core@, thread@) =~= refilled(old(self).on(old(core)@, old(thread)@)));
    }

    fn become_idle(&mut self, core: &LoopCore, thread: &mut ThreadReady) -> (action: RunAction)
        requires
            old(self).wf(),
        ensures
            final(self).wf(),
            (final(self).on(core@, final(thread)@), action) == idle(
                old(self).on(core@, old(thread)@),
            ),
    {
        core.set_ready_drain_active(thread, false);
        if core.state().stopping {
            return match self.signal_error {
                Some(raised) => RunAction::FinishWith(RunError::Raised(raised)),
                None => RunAction::Finish,
            };
        }
        if self.signal_error.is_none() {
            RunAction::CheckSignals
        } else {
            RunAction::WaitWake
        }
    }

    /// Takes the next item that has to be done outside.
    fn pump(&mut self, core: &mut LoopCore, thread: &mut ThreadReady) -> (action: RunAction)
        requires
            old(self).wf(),
        ensures
            final(self).wf(),
            (final(self).on(final(core)@, final(thread)@), action) == pumped(
                old(self).on(old(core)@, old(thread)@),
            ),
    {
        let ghost start = self.on(core@, thread@);
        loop
            invariant
                self.wf(),
                start == old(self).on(old(core)@, old(thread)@),
                pumped(self.on(core@, thread@)) == pumped(start),
            decreases self.on(core@, thread@).waiting(),
        {
            let ghost r = self.on(core@, thread@);
            proof {
                lemma_refill_keeps_count(r);
            }
            if self.batch.len() == 0 || self.processed >= READY_DRAIN_SLICE {
                self.refill(core, thread);
                if self.batch.len() == 0 {
                    return self.become_idle(core, thread);
                }
            }
            let ghost r1 = self.on(core@, thread@);
            match self.batch.pop_front() {
                Some(ReadyItem::Stop) => {
                    core.state_mut().stopping = true;
                    if self.processed < READY_DRAIN_SLICE {
                        self.processed = self.processed + 1;
                    }
                    assert(self.on(core@, thread@) =~= (RunView {
                        batch: r1.batch.drop_first(),
                        ..r1
                    }).with_stopping().with_one_done());
                },
                Some(item) => {
                    assert(self.on(core@, thread@) =~= (RunView {
                        batch: r1.batch.drop_first(),
                        ..r1
                    }));
                    return RunAction::Execute(item);
                },
                None => {
                    return self.become_idle(core, thread);
                },
            }
        }
    }

    fn drain(&mut self, core: &mut LoopCore, thread: &mut ThreadReady) -> (action: RunAction)
        requires
            old(self).wf(),
        ensures
            final(self).wf(),
            (final(self).on(final(core)@, final(thread)@), action) == drained(
                old(self).on(old(core)@, old(thread)@),
            ),
    {
        core.set_ready_drain_active(thread, true);
        self.processed = 0;
        self.pump(core, thread)
    }

    /// Takes what happened and says what to do next.
    pub fn step(&mut self, core: &mut LoopCore, thread: &mut ThreadReady, event: RunEvent) -> (action:
        RunAction)
        requires
            old(self).wf(),
        ensures
            final(self).wf(),
            is_step(
                old(self).on(old(core)@, old(thread)@),
                event,
                final(self).on(final(core)@, final(thread)@),
                action,
            ),
    {
        match event {
            RunEvent::Begin => self.drain(core, thread),
            RunEvent::Woken => self.drain(core, thread),
            RunEvent::ItemDone => {
                if self.processed < READY_DRAIN_SLICE {
                    self.processed = self.processed + 1;
                }
                self.pump(core, thread)
            },
            RunEvent::CallbackFailed(raised) => {
                core.set_ready_drain_active(thread, false);
                RunAction::FinishWith(RunError::Raised(raised))
            },
            RunEvent::ItemRaised(raised) => RunAction::Abort(raised),
            RunEvent::SignalsChecked => RunAction::WaitWake,
            RunEvent::SignalRaised(raised) => {
                let sent = core.send_command(thread, LoopCommand::RequestStop);
                self.signal_error = Some(raised);
                assert(is_sent(
                    old(core)@,
                    old(thread)@,
                    LoopCommand::RequestStop,
                    sent,
                    core@,
                    thread@,
                ));
                self.drain(core, thread)
            },
            RunEvent::Disconnected => RunAction::FinishWith(RunError::RuntimeTerminated),
        }
    }
}

/// Whether the thread can be bound to a run of a loop that could begin one.
pub open spec fn thread_is_free(v: LoopView, thread: ThreadView) -> Result<(), RunError> {
    if !v.state.closed && !v.state.running && thread.queue is Some {
        Err(RunError::OtherLoopRuns)
    } else {
        Ok(())
    }
}

impl LoopCore {
    /// Whether the thread can be bound to a run of this loop. A loop that cannot be run at all is
    /// left to `run_forever` to refuse.
    pub fn check_thread(&self, thread: &ThreadReady) -> (free: Result<(), RunError>)
        ensures
            free == thread_is_free(self@, thread@),
    {
        if !self.is_closed() && !self.is_running() && thread.has_queue() {
            return Err(RunError::OtherLoopRuns);
        }
        Ok(())
    }

    /// Starts a run: refused where the loop is closed or runs already. From here on the loop runs,
    /// also where the runtime thread could not be told.
    pub fn run_forever(&mut self, thread: &mut ThreadReady) -> (started: Result<
        LoopRun,
        LoopCoreError,
    >)
        ensures
            is_run_start(old(self)@, old(thread)@, started, final(self)@, final(thread)@),
    {
        if self.state().closed {
            return Err(LoopCoreError::Closed);
        }
        if self.state().running {
            return Err(LoopCoreError::Running);
        }
        self.state_mut().running = true;
        self.state_mut().stopping = false;
        self.install_dispatch();
        let ghost entered = entered_run(old(self)@);
        assert(self@ =~= entered);
        match self.send_command(thread, LoopCommand::Run(LoopRunCommand::EnterRun)) {
            Ok(_) => Ok(LoopRun { batch: VecDeque::new(), processed: 0, signal_error: None }),
            Err(error) => Err(error),
        }
    }
}

/// What starting a run comes to: refused where the loop is closed or runs already.
pub open spec fn is_run_start(
    v: LoopView,
    thread: ThreadView,
    started: Result<LoopRun, LoopCoreError>,
    v_after: LoopView,
    thread_after: ThreadView,
) -> bool {
    &&& thread_after == thread
    &&& if v.state.closed {
        started is Err && started->Err_0 == LoopCoreError::Closed && v_after == v
    } else if v.state.running {
        started is Err && started->Err_0 == LoopCoreError::Running && v_after == v
    } else {
        match started {
            Ok(run) => run.wf() && is_heard(
                entered_run(v),
                LoopCommand::Run(LoopRunCommand::EnterRun),
                v_after,
            ) && run.on(v_after, thread_after) == (RunView {
                batch: Seq::empty(),
                processed: 0,
                signal_error: None,
                core: v_after,
                thread: thread_after,
            }),
            Err(error) => error == LoopCoreError::ChannelClosed && is_unheard(
                entered_run(v),
                v_after,
            ),
        }
    }
}

/// What ending a run comes to. `left` is what was not done, in order.
pub open spec fn is_finish(
    r: RunView,
    left: Seq<ReadyItem>,
    told: Result<Sent, LoopCoreError>,
    v_after: LoopView,
    thread_after: ThreadView,
) -> bool {
    let v = LoopView { dispatch: None, ..r.core };
    &&& left == r.batch + r.pending()
    &&& thread_after == r.thread
    &&& match told {
        Ok(sent) => sent == Sent::Channel && is_heard(
            v,
            LoopCommand::Run(LoopRunCommand::FinishRun),
            v_after,
        ),
        Err(error) => error == LoopCoreError::ChannelClosed && is_unheard(v, v_after),
    }
}

/// A loop whose run is over, as the runtime thread notes it.
pub open spec fn noted(v: LoopView) -> LoopView {
    LoopView { state: LoopStateView { running: false, ..v.state }, ..v }
}

impl LoopCore {
    /// The runtime thread notes the end of a run: the loop runs no longer.
    pub fn run_noted(&mut self)
        ensures
            final(self)@ == noted(old(self)@),
    {
        self.state_mut().running = false;
    }
}

/// A loop that began to run.
pub open spec fn entered_run(v: LoopView) -> LoopView {
    LoopView {
        state: LoopStateView { running: true, stopping: false, ..v.state },
        dispatch: Some(DispatchView { pending: Seq::empty(), wake: false }),
        ..v
    }
}

/// A thread that runs a loop.
pub open spec fn bound(v: LoopView, thread: ThreadView) -> ThreadView {
    ThreadView { active_loop: Some(v.id), queue: Some(Seq::empty()), ..thread }
}

/// A run that let its thread go. What the thread's queue held joins what the run did not get to.
pub open spec fn let_go(r: RunView) -> RunView {
    RunView {
        batch: r.batch + r.local(),
        thread: ThreadView {
            active_loop: if r.thread.active_loop == Some(r.core.id) {
                None
            } else {
                r.thread.active_loop
            },
            queue: None,
            drain_active: false,
        },
        ..r
    }
}

impl LoopRun {
    /// Binds the run to the thread. A thread runs one loop at a time.
    pub fn enter(&self, core: &LoopCore, thread: &mut ThreadReady)
        requires
            old(thread)@.queue is None,
        ensures
            final(thread)@ == bound(core@, old(thread)@),
    {
        core.mark_runtime_thread(thread);
        core.install_local_ready_queue(thread);
    }

    /// Lets the thread go. What its queue still held joins what the run did not get to.
    pub fn leave(&mut self, core: &LoopCore, thread: &mut ThreadReady)
        requires
            old(self).wf(),
        ensures
            final(self).wf(),
            final(self).on(core@, final(thread)@) == let_go(old(self).on(core@, old(thread)@)),
    {
        core.set_ready_drain_active(thread, false);
        let mut local = core.clear_runtime_thread(thread);
        self.batch.append(&mut local);
    }

    /// Ends the run. What was not done comes back in order, for the runtime thread to keep: what
    /// the run had taken first, then what other threads queued.
    pub fn finish(self, core: &mut LoopCore, thread: &mut ThreadReady) -> (ended: (
        VecDeque<ReadyItem>,
        Result<Sent, LoopCoreError>,
    ))
        ensures
            is_finish(
                self.on(old(core)@, old(thread)@),
                ended.0@,
                ended.1,
                final(core)@,
                final(thread)@,
            ),
    {
        let mut left: VecDeque<ReadyItem> = self.batch;
        let mut pending = core.remove_dispatch();
        left.append(&mut pending);
        let sent = core.send_command(thread, LoopCommand::Run(LoopRunCommand::FinishRun));
        (left, sent)
    }
}

/// What came of calling a callback.
#[derive(Clone, Copy, PartialEq, Eq, Debug, Structural)]
pub enum CallbackEnd {
    /// It returned, or what it raised was reported.
    Settled,
    /// It raised what is to be let through.
    LetThrough(ObjectId),
    /// What it raised could not be reported, for this reason.
    ReportFailed(ObjectId),
}

/// What the run is told of a callback that was called.
pub open spec fn told_run(end: CallbackEnd) -> RunEvent {
    match end {
        CallbackEnd::Settled => RunEvent::ItemDone,
        CallbackEnd::LetThrough(raised) => RunEvent::CallbackFailed(raised),
        CallbackEnd::ReportFailed(raised) => RunEvent::ItemRaised(raised),
    }
}

impl LoopCore {
    /// A callback was called. However it ended, the descriptor that it belongs to is watched again
    /// where that is still wanted; the first result is what the run has to be told.
    pub fn executed_ready(
        &mut self,
        thread: &mut ThreadReady,
        ready: ReadyCallback,
        end: CallbackEnd,
    ) -> (done: (RunEvent, Option<Result<Sent, LoopCoreError>>))
        ensures
            done.0 == told_run(end),
            match (rearming(old(self)@, ready), done.1) {
                (Some(command), Some(result)) => is_sent(
                    old(self)@,
                    old(thread)@,
                    command,
                    result,
                    final(self)@,
                    final(thread)@,
                ),
                (None, None) => final(self)@ == old(self)@ && final(thread)@ == old(thread)@,
                _ => false,
            },
    {
        let sent = self.rearm_fd_watch_if_needed(thread, ready);
        let event = match end {
            CallbackEnd::Settled => RunEvent::ItemDone,
            CallbackEnd::LetThrough(raised) => RunEvent::CallbackFailed(raised),
            CallbackEnd::ReportFailed(raised) => RunEvent::ItemRaised(raised),
        };
        (event, sent)
    }
}

/// What came of waiting for the runtime thread to note the end of the run.
#[derive(Clone, Copy, PartialEq, Eq, Debug, Structural)]
pub enum FinishWait {
    Done,
    Timeout,
    Disconnected,
}

/// What a run returns.
pub open spec fn run_returns(result: Result<(), RunError>, wait: FinishWait) -> Result<
    (),
    RunError,
> {
    match wait {
        FinishWait::Done => result,
        FinishWait::Timeout => Result::<(), RunError>::Err(RunError::FinishTimedOut),
        FinishWait::Disconnected => Result::<(), RunError>::Err(RunError::RuntimeTerminated),
    }
}

/// What a run returns: its own result, unless the runtime thread could not note the end of it.
pub fn run_result(result: Result<(), RunError>, wait: FinishWait) -> (returned: Result<(), RunError>)
    ensures
        returned == run_returns(result, wait),
{
    match wait {
        FinishWait::Done => result,
        FinishWait::Timeout => Err(RunError::FinishTimedOut),
        FinishWait::Disconnected => Err(RunError::RuntimeTerminated),
    }
}

} // verus!
