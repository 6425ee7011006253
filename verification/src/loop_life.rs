//! What holds of a loop from its making to its end, whatever is done to it.

use vstd::prelude::*;
use crate::asyncgens::{with_asyncgens, without_new_asyncgens};
use crate::executor::without_executor;
use crate::loop_commands::{FdWatch, LoopCommand, LoopIoCommand, RawFd, ReadyCallback, ReadyItem};
use crate::loop_core::{
    is_close, is_sent, marked_closed, numbered, rearming, scheduled, with_dispatch,
    with_pending_taken, without_dispatch, CloseStep, LoopCoreError, LoopStateView, LoopView, Sent,
    SignalHandlerTemplate, ThreadView,
};
use crate::loop_run::{
    entered_run, is_finish, is_run_start, is_step, lemma_refill_keeps_count, needs_refill, noted,
    pumped, refilled, LoopRun, RunAction, RunEvent, RunView,
};
use crate::objects::ObjectId;
use crate::py_loop::{
    is_loop_close, is_signal_handler_added, is_signal_handler_removed, with_default_executor,
    with_exception_handler, with_reader, with_task_factory, with_writer, without_reader,
    without_writer, LoopClosing, SignalError,
};

verus! {

/// A loop and the thread that works on it.
pub struct LoopMoment {
    pub core: LoopView,
    pub thread: ThreadView,
}

/// Something that is done to a loop. Transports, processes and servers send commands and do nothing
/// else to it.
pub enum LoopOp {
    Send(LoopCommand),
    Schedule { ready: ReadyCallback, when: Option<u128> },
    Rearm(ReadyCallback),
    /// The core alone is closed.
    CloseCore,
    /// The loop is closed with its helpers.
    CloseLoop,
    StartRun,
    RunStep(RunEvent),
    FinishRun,
    NoteRun,
    /// Something is done to the thread alone.
    TouchThread,
    NextCallbackId,
    TakePending,
    InstallDispatch,
    RemoveDispatch,
    SetDebug(bool),
    SetTaskFactoryInstalled(bool),
    SetTaskFactory(Option<ObjectId>),
    SetExceptionHandler(Option<ObjectId>),
    SetDefaultExecutor(Option<ObjectId>),
    AddReader(FdWatch, ObjectId),
    RemoveReader(RawFd),
    AddWriter(FdWatch, ObjectId),
    RemoveWriter(RawFd),
    AddSignalHandler { main_thread: bool, sig: i32, template: SignalHandlerTemplate },
    RemoveSignalHandler(i32),
    /// A generator is iterated for the first time, or is dropped.
    KeepAsyncgens(ObjectId),
    ShutDownAsyncgens,
    ShutDownExecutor,
}

/// The loop where only its state was changed.
pub open spec fn with_state(v: LoopView, state: LoopStateView) -> LoopView {
    LoopView { state, ..v }
}

/// A command was sent after the loop changed to `v`.
pub open spec fn sends(v: LoopView, thread: ThreadView, command: LoopCommand, after: LoopMoment) -> bool {
    exists|told: Result<Sent, LoopCoreError>| #[trigger]
        is_sent(v, thread, command, told, after.core, after.thread)
}

/// `op` took the loop from one moment to the other, as the contracts of the functions say.
pub open spec fn performed(before: LoopMoment, op: LoopOp, after: LoopMoment) -> bool {
    let v = before.core;
    match op {
        LoopOp::Send(command) => sends(v, before.thread, command, after),
        LoopOp::Schedule { ready, when } => exists|
            done: Result<(ReadyCallback, Sent), LoopCoreError>,
        | #[trigger]
            scheduled(v, before.thread, ready, when, done, after.core, after.thread),
        LoopOp::Rearm(ready) => match rearming(v, ready) {
            Some(command) => sends(v, before.thread, command, after),
            None => after == before,
        },
        LoopOp::CloseCore => exists|done: Result<CloseStep, LoopCoreError>| #[trigger]
            is_close(v, before.thread, done, after.core, after.thread),
        LoopOp::CloseLoop => exists|done: Result<LoopClosing, LoopCoreError>| #[trigger]
            is_loop_close(v, before.thread, done, after.core, after.thread),
        LoopOp::StartRun => exists|started: Result<LoopRun, LoopCoreError>| #[trigger]
            is_run_start(v, before.thread, started, after.core, after.thread),
        LoopOp::RunStep(event) => exists|r: RunView, r_after: RunView, action: RunAction|
            r.core == v && r.thread == before.thread && r_after.core == after.core && r_after.thread
                == after.thread && #[trigger] is_step(r, event, r_after, action),
        LoopOp::FinishRun => exists|
            r: RunView,
            left: Seq<ReadyItem>,
            told: Result<Sent, LoopCoreError>,
        |
            r.core == v && r.thread == before.thread && #[trigger] is_finish(
                r,
                left,
                told,
                after.core,
                after.thread,
            ),
        LoopOp::NoteRun => after.core == noted(v) && after.thread == before.thread,
        LoopOp::TouchThread => after.core == v,
        LoopOp::NextCallbackId => after.core == numbered(v) && after.thread == before.thread,
        LoopOp::TakePending => after.thread == before.thread && after.core
            == with_pending_taken(v),
        LoopOp::InstallDispatch => after.thread == before.thread && after.core
            == with_dispatch(v),
        LoopOp::RemoveDispatch => after.thread == before.thread && after.core
            == without_dispatch(v),
        LoopOp::SetDebug(enabled) => after.thread == before.thread && after.core == (LoopView {
            debug_enabled: enabled,
            ..v
        }),
        LoopOp::SetTaskFactoryInstalled(installed) => after.thread == before.thread && after.core
            == (LoopView { task_factory_installed: installed, ..v }),
        LoopOp::SetTaskFactory(factory) => after.thread == before.thread && after.core
            == with_task_factory(v, factory),
        LoopOp::SetExceptionHandler(handler) => after.thread == before.thread && after.core
            == with_state(v, with_exception_handler(v, handler).state),
        LoopOp::SetDefaultExecutor(executor) => after.thread == before.thread && after.core
            == with_state(v, with_default_executor(v, executor).state),
        LoopOp::AddReader(watch, keepalive) => sends(
            with_reader(v, watch.fd, keepalive),
            before.thread,
            LoopCommand::Io(LoopIoCommand::StartReader(watch)),
            after,
        ),
        LoopOp::RemoveReader(fd) => sends(
            without_reader(v, fd),
            before.thread,
            LoopCommand::Io(LoopIoCommand::StopReader(fd)),
            after,
        ),
        LoopOp::AddWriter(watch, keepalive) => sends(
            with_writer(v, watch.fd, keepalive),
            before.thread,
            LoopCommand::Io(LoopIoCommand::StartWriter(watch)),
            after,
        ),
        LoopOp::RemoveWriter(fd) => sends(
            without_writer(v, fd),
            before.thread,
            LoopCommand::Io(LoopIoCommand::StopWriter(fd)),
            after,
        ),
        LoopOp::AddSignalHandler { main_thread, sig, template } => exists|
            done: Result<Option<Sent>, SignalError>,
        | #[trigger]
            is_signal_handler_added(
                v,
                before.thread,
                main_thread,
                sig,
                template,
                done,
                after.core,
                after.thread,
            ),
        LoopOp::RemoveSignalHandler(sig) => exists|done: Option<Result<Sent, LoopCoreError>>|
         #[trigger]
            is_signal_handler_removed(v, before.thread, sig, done, after.core, after.thread),
        LoopOp::KeepAsyncgens(set) => after.core == with_asyncgens(v, set) && after.thread
            == before.thread,
        LoopOp::ShutDownAsyncgens => after.core == without_new_asyncgens(v) && after.thread
            == before.thread,
        LoopOp::ShutDownExecutor => after.core == without_executor(v) && after.thread
            == before.thread,
    }
}

/// The moments of a loop: each operation leads from one to the next.
pub open spec fn is_history(moments: Seq<LoopMoment>, ops: Seq<LoopOp>) -> bool {
    &&& moments.len() == ops.len() + 1
    &&& forall|i: int|
        0 <= i < ops.len() ==> performed(moments[i], #[trigger] ops[i], moments[i + 1])
}

/// Taking items neither closes a loop nor ends its run, and sends nothing.
proof fn lemma_pump_keeps_the_marks(r: RunView)
    ensures
        pumped(r).0.core.unheard == r.core.unheard,
        pumped(r).0.core.state.closed == r.core.state.closed,
        pumped(r).0.core.state.running == r.core.state.running,
    decreases r.waiting(),
{
    lemma_refill_keeps_count(r);
    let r1 = if needs_refill(r) {
        refilled(r)
    } else {
        r
    };
    if r1.batch.len() > 0 && r1.batch[0] is Stop {
        lemma_pump_keeps_the_marks(
            (RunView { batch: r1.batch.drop_first(), ..r1 }).with_stopping().with_one_done(),
        );
    }
}

/// A step of a run neither closes the loop nor ends the run, and a runtime thread that is gone stays
/// gone.
pub proof fn law_step_keeps_the_marks(r: RunView, event: RunEvent, after: RunView, action: RunAction)
    requires
        is_step(r, event, after, action),
    ensures
        after.core.state.closed == r.core.state.closed,
        after.core.state.running == r.core.state.running,
        r.core.unheard ==> after.core.unheard,
{
    match event {
        RunEvent::Begin => {
            lemma_pump_keeps_the_marks(RunView { processed: 0, ..r.with_drain(true) });
        },
        RunEvent::Woken => {
            lemma_pump_keeps_the_marks(RunView { processed: 0, ..r.with_drain(true) });
        },
        RunEvent::ItemDone => {
            lemma_pump_keeps_the_marks(r.with_one_done());
        },
        RunEvent::SignalRaised(raised) => {
            let (core, thread, sent) = choose|
                core: LoopView,
                thread: ThreadView,
                sent: Result<Sent, LoopCoreError>,
            | #[trigger]
                is_sent(r.core, r.thread, LoopCommand::RequestStop, sent, core, thread) && (
                after,
                action,
            ) == crate::loop_run::drained(
                RunView { signal_error: Some(raised), core, thread, ..r },
            );
            let raising = RunView { signal_error: Some(raised), core, thread, ..r };
            lemma_pump_keeps_the_marks(RunView { processed: 0, ..raising.with_drain(true) });
        },
        _ => {},
    }
}

/// What each operation does to the marks.
proof fn lemma_marks_after(before: LoopMoment, op: LoopOp, after: LoopMoment)
    requires
        performed(before, op, after),
    ensures
        before.core.state.closed ==> after.core.state.closed,
        before.core.unheard ==> after.core.unheard,
        before.core.state.running && !(op is NoteRun) ==> after.core.state.running
            && after.core.state.closed == before.core.state.closed,
{
    if let LoopOp::RunStep(event) = op {
        let (r, r_after, action) = choose|r: RunView, r_after: RunView, action: RunAction|
            r.core == before.core && r.thread == before.thread && r_after.core == after.core
                && r_after.thread == after.thread && #[trigger] is_step(r, event, r_after, action);
        law_step_keeps_the_marks(r, event, r_after, action);
    }
}

/// A closed loop stays closed, whatever is done to it.
pub proof fn law_closed_loop_stays_closed(before: LoopMoment, op: LoopOp, after: LoopMoment)
    requires
        performed(before, op, after),
        before.core.state.closed,
    ensures
        after.core.state.closed,
{
    lemma_marks_after(before, op, after);
}

/// Once a command came back from the runtime thread, no later one reaches it, whatever is done to
/// the loop in between.
pub proof fn law_unheard_loop_stays_unheard(
    before: LoopMoment,
    op: LoopOp,
    after: LoopMoment,
    command: LoopCommand,
    told: Result<Sent, LoopCoreError>,
    later: LoopMoment,
)
    requires
        before.core.unheard,
        performed(before, op, after),
        is_sent(after.core, after.thread, command, told, later.core, later.thread),
    ensures
        after.core.unheard,
        told != Result::<Sent, LoopCoreError>::Ok(Sent::Channel),
        later.core.unheard,
        later.core.sent == after.core.sent,
{
    lemma_marks_after(before, op, after);
}

/// So a loop that is closed at one moment is closed at every later one.
pub proof fn law_closed_loop_is_closed_forever(
    moments: Seq<LoopMoment>,
    ops: Seq<LoopOp>,
    i: int,
    j: int,
)
    requires
        is_history(moments, ops),
        0 <= i <= j < moments.len(),
        moments[i].core.state.closed,
    ensures
        moments[j].core.state.closed,
    decreases j - i,
{
    if i < j {
        law_closed_loop_is_closed_forever(moments, ops, i, j - 1);
        assert(performed(moments[j - 1], ops[j - 1], moments[j - 1 + 1]));
        law_closed_loop_stays_closed(moments[j - 1], ops[j - 1], moments[j]);
    }
}

/// A loop that runs goes on running, and is not closed, until the end of its run is noted.
pub proof fn law_running_loop_runs_until_noted(moments: Seq<LoopMoment>, ops: Seq<LoopOp>)
    requires
        is_history(moments, ops),
        forall|i: int| 0 <= i < ops.len() ==> !(#[trigger] ops[i] is NoteRun),
        moments[0].core.state.running,
    ensures
        moments.last().core.state.running,
        moments.last().core.state.closed == moments[0].core.state.closed,
    decreases ops.len(),
{
    if ops.len() > 0 {
        let n = ops.len() as int;
        let earlier = moments.drop_last();
        let front = ops.drop_last();
        assert forall|i: int| 0 <= i < front.len() implies performed(
            earlier[i],
            #[trigger] front[i],
            earlier[i + 1],
        ) && !(front[i] is NoteRun) by {
            assert(front[i] == ops[i]);
        }
        law_running_loop_runs_until_noted(earlier, front);
        assert(performed(moments[n - 1], ops[n - 1], moments[n - 1 + 1]));
        lemma_marks_after(moments[n - 1], ops[n - 1], moments[n]);
    }
}

/// A run that was finished and noted leaves a loop that can be closed and that can be run again:
/// neither is refused, and whatever becomes of telling the runtime thread, the loop is closed and
/// does not run, or runs and is not closed. `moments` are those from the start of the run on.
pub proof fn law_noted_loop_can_be_closed_and_run_again(
    start: LoopView,
    moments: Seq<LoopMoment>,
    ops: Seq<LoopOp>,
)
    requires
        !start.state.closed,
        !start.state.running,
        is_history(moments, ops),
        forall|i: int| 0 <= i < ops.len() ==> !(#[trigger] ops[i] is NoteRun),
        moments[0].core.state == entered_run(start).state,
    ensures
        ({
            let v = noted(moments.last().core);
            let thread = moments.last().thread;
            &&& !v.state.running && !v.state.closed
            &&& forall|done: Result<CloseStep, LoopCoreError>, after: LoopView, t: ThreadView|
             #[trigger]
                is_close(v, thread, done, after, t) ==> after.state.closed && !after.state.running
                    && (done == Result::<CloseStep, LoopCoreError>::Ok(CloseStep::JoinRuntime)
                    || done == Result::<CloseStep, LoopCoreError>::Err(
                    LoopCoreError::ChannelClosed,
                ))
            &&& forall|done: Result<LoopClosing, LoopCoreError>, after: LoopView, t: ThreadView|
             #[trigger]
                is_loop_close(v, thread, done, after, t) ==> after.state.closed
                    && !after.state.running && (match done {
                    Ok(closing) => closing is JoinRuntime,
                    Err(error) => error == LoopCoreError::ChannelClosed,
                })
            &&& forall|started: Result<LoopRun, LoopCoreError>, after: LoopView, t: ThreadView|
             #[trigger]
                is_run_start(v, thread, started, after, t) ==> after.state.running
                    && !after.state.closed && (started matches Err(error) ==> error
                    == LoopCoreError::ChannelClosed)
        }),
{
    law_running_loop_runs_until_noted(moments, ops);
}

/// Closing a loop a second time does nothing more than closing it once.
pub proof fn law_closing_twice_is_closing_once(
    v: LoopView,
    thread: ThreadView,
    first: Result<CloseStep, LoopCoreError>,
    once: LoopView,
    second: Result<CloseStep, LoopCoreError>,
    twice: LoopView,
)
    requires
        !v.state.running,
        is_close(v, thread, first, once, thread),
        is_close(once, thread, second, twice, thread),
    ensures
        once.state == marked_closed(v).state,
        twice == once,
        second == Result::<CloseStep, LoopCoreError>::Ok(CloseStep::AlreadyClosed),
{
}

} // verus!
