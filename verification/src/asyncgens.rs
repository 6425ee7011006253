//! Asynchronous generators: who is alive, and how they are closed.

use vstd::prelude::*;
use crate::loop_core::{LoopCore, LoopStateView, LoopView};
use crate::objects::ObjectId;

verus! {

/// The loop with a set for its generators.
pub open spec fn with_asyncgens(v: LoopView, set: ObjectId) -> LoopView {
    LoopView {
        state: LoopStateView {
            active_asyncgens: if v.state.active_asyncgens is Some {
                v.state.active_asyncgens
            } else {
                Some(set)
            },
            ..v.state
        },
        ..v
    }
}

/// A generator that is iterated now comes too late: the others were shut down already.
pub open spec fn comes_late(v: LoopView) -> bool {
    v.state.asyncgens_shutdown_called
}

/// A generator that is dropped now is closed by a task.
pub open spec fn closes_dropped(v: LoopView) -> bool {
    !v.state.closed
}

/// The set of the generators that are alive. `fresh` is a new set for a loop that has none.
pub fn active_asyncgens_set(core: &mut LoopCore, fresh: ObjectId) -> (set: ObjectId)
    ensures
        final(core)@ == with_asyncgens(old(core)@, fresh),
        final(core)@.state.active_asyncgens == Some(set),
{
    if let Some(active) = core.state().active_asyncgens {
        return active;
    }
    let state = core.state_mut();
    state.active_asyncgens = Some(fresh);
    fresh
}

/// What happens when a generator is iterated for the first time: a warning where the loop's
/// generators were shut down already, then it joins the set.
pub struct FirstIter {
    pub warn: bool,
    pub set: ObjectId,
}

pub fn asyncgen_firstiter_hook(core: &mut LoopCore, fresh: ObjectId) -> (first: FirstIter)
    ensures
        final(core)@ == with_asyncgens(old(core)@, fresh),
        final(core)@.state.active_asyncgens == Some(first.set),
        first.warn == comes_late(old(core)@),
{
    let warn = core.state().asyncgens_shutdown_called;
    let set = active_asyncgens_set(core, fresh);
    FirstIter { warn, set }
}

/// What happens when a generator is dropped: it leaves the set, then it is closed by a task, unless
/// the loop is closed.
pub struct Finalizing {
    pub set: ObjectId,
    pub schedule_close: bool,
}

pub fn asyncgen_finalizer_hook(core: &mut LoopCore, fresh: ObjectId) -> (finalizing: Finalizing)
    ensures
        final(core)@ == with_asyncgens(old(core)@, fresh),
        final(core)@.state.active_asyncgens == Some(finalizing.set),
        finalizing.schedule_close == closes_dropped(old(core)@),
{
    let set = active_asyncgens_set(core, fresh);
    let schedule_close = !core.is_closed();
    Finalizing { set, schedule_close }
}

/// The text of the warning. `agen` is the generator's representation.
pub fn late_asyncgen_message(agen: &str) -> (text: String)
    ensures
        text@ == "asynchronous generator "@ + agen@
            + " was scheduled after loop.shutdown_asyncgens() call"@,
{
    let mut text = "asynchronous generator ".to_owned();
    text.append(agen);
    text.append(" was scheduled after loop.shutdown_asyncgens() call");
    text
}

/// The message under which a generator that failed to close is reported.
pub fn asyncgen_close_failed_message(agen: &str) -> (text: String)
    ensures
        text@ == "an error occurred during closing of asynchronous generator "@ + agen@,
{
    let mut text = "an error occurred during closing of asynchronous generator ".to_owned();
    text.append(agen);
    text
}

/// Where closing the generators stands.
#[derive(Clone, Copy, PartialEq, Eq, Debug, Structural)]
pub enum AsyncgenPhase {
    Next,
    Closing(ObjectId),
    Over,
}

/// What came of the action before.
#[derive(Clone, Copy, PartialEq, Eq, Debug, Structural)]
pub enum AsyncgenEvent {
    Begin,
    Closed,
    /// The generator raised while it closed.
    CloseFailed(ObjectId),
    Reported,
    /// Something else raised.
    Raised(ObjectId),
}

/// What closing the generators does next.
#[derive(Clone, Copy, PartialEq, Eq, Debug, Structural)]
pub enum AsyncgenAction {
    /// Close the generator and wait for that.
    Close(ObjectId),
    /// Report that it failed to close.
    Report { agen: ObjectId, raised: ObjectId },
    Finish,
    Fail(ObjectId),
}

/// The model of closing the generators.
#[verifier::ext_equal]
pub struct AsyncgensView {
    pub left: Seq<ObjectId>,
    pub phase: AsyncgenPhase,
}

/// The next generator, or the end where there is none.
pub open spec fn next_asyncgen(v: AsyncgensView) -> (AsyncgensView, AsyncgenAction) {
    if v.left.len() == 0 {
        (AsyncgensView { phase: AsyncgenPhase::Over, ..v }, AsyncgenAction::Finish)
    } else {
        (
            AsyncgensView { left: v.left.drop_first(), phase: AsyncgenPhase::Closing(v.left[0]) },
            AsyncgenAction::Close(v.left[0]),
        )
    }
}

/// One step of closing the generators. One that fails to close is reported, and the others are
/// closed all the same.
pub open spec fn asyncgen_step(v: AsyncgensView, event: AsyncgenEvent) -> (
    AsyncgensView,
    AsyncgenAction,
) {
    match (v.phase, event) {
        (_, AsyncgenEvent::Raised(raised)) => (
            AsyncgensView { phase: AsyncgenPhase::Over, ..v },
            AsyncgenAction::Fail(raised),
        ),
        (AsyncgenPhase::Next, AsyncgenEvent::Begin) => next_asyncgen(v),
        (AsyncgenPhase::Next, AsyncgenEvent::Reported) => next_asyncgen(v),
        (AsyncgenPhase::Closing(_), AsyncgenEvent::Closed) => next_asyncgen(v),
        (AsyncgenPhase::Closing(agen), AsyncgenEvent::CloseFailed(raised)) => (
            AsyncgensView { phase: AsyncgenPhase::Next, ..v },
            AsyncgenAction::Report { agen, raised },
        ),
        _ => (AsyncgensView { phase: AsyncgenPhase::Over, ..v }, AsyncgenAction::Finish),
    }
}

/// Closes generators, one after the other.
pub struct AsyncgenShutdown {
    agens: Vec<ObjectId>,
    next: usize,
    phase: AsyncgenPhase,
}

impl View for AsyncgenShutdown {
    type V = AsyncgensView;

    closed spec fn view(&self) -> AsyncgensView {
        AsyncgensView { left: self.agens@.skip(self.next as int), phase: self.phase }
    }
}

impl AsyncgenShutdown {
    pub closed spec fn wf(&self) -> bool {
        self.next <= self.agens@.len()
    }

    fn next(&mut self) -> (action: AsyncgenAction)
        requires
            old(self).wf(),
        ensures
            final(self).wf(),
            (final(self)@, action) == next_asyncgen(old(self)@),
    {
        if self.next >= self.agens.len() {
            self.phase = AsyncgenPhase::Over;
            return AsyncgenAction::Finish;
        }
        let agen = self.agens[self.next];
        self.next += 1;
        self.phase = AsyncgenPhase::Closing(agen);
        assert(self@.left =~= old(self)@.left.drop_first());
        AsyncgenAction::Close(agen)
    }

    /// Takes what came of the action before and says what to do next.
    pub fn step(&mut self, event: AsyncgenEvent) -> (action: AsyncgenAction)
        requires
            old(self).wf(),
        ensures
            final(self).wf(),
            (final(self)@, action) == asyncgen_step(old(self)@, event),
    {
        match (self.phase, event) {
            (_, AsyncgenEvent::Raised(raised)) => {
                self.phase = AsyncgenPhase::Over;
                AsyncgenAction::Fail(raised)
            },
            (AsyncgenPhase::Next, AsyncgenEvent::Begin) => self.next(),
            (AsyncgenPhase::Next, AsyncgenEvent::Reported) => self.next(),
            (AsyncgenPhase::Closing(_), AsyncgenEvent::Closed) => self.next(),
            (AsyncgenPhase::Closing(agen), AsyncgenEvent::CloseFailed(raised)) => {
                self.phase = AsyncgenPhase::Next;
                AsyncgenAction::Report { agen, raised }
            },
            _ => {
                self.phase = AsyncgenPhase::Over;
                AsyncgenAction::Finish
            },
        }
    }
}

/// The loop once its generators are shut down.
pub open spec fn without_new_asyncgens(v: LoopView) -> LoopView {
    LoopView { state: LoopStateView { asyncgens_shutdown_called: true, ..v.state }, ..v }
}

/// Closes the generators that were alive. Those that come later are warned about.
pub fn shutdown_asyncgens(core: &mut LoopCore, agens: Vec<ObjectId>) -> (shutdown: AsyncgenShutdown)
    ensures
        final(core)@ == without_new_asyncgens(old(core)@),
        shutdown.wf(),
        shutdown@ == (AsyncgensView { left: agens@, phase: AsyncgenPhase::Next }),
{
    let state = core.state_mut();
    state.asyncgens_shutdown_called = true;
    let shutdown = AsyncgenShutdown { agens, next: 0, phase: AsyncgenPhase::Next };
    assert(shutdown@.left =~= agens@);
    shutdown
}

/// All that is done from an event on, where closing raises as given, one generator after the other.
pub open spec fn asyncgen_run(
    v: AsyncgensView,
    event: AsyncgenEvent,
    raises: Seq<Option<ObjectId>>,
) -> Seq<AsyncgenAction>
    decreases
            raises.len(),
            if event is CloseFailed {
                1int
            } else {
                0int
            },
{
    let (after, action) = asyncgen_step(v, event);
    let rest = match action {
        AsyncgenAction::Close(_) => if raises.len() == 0 {
            Seq::empty()
        } else {
            match raises[0] {
                None => asyncgen_run(after, AsyncgenEvent::Closed, raises.drop_first()),
                Some(raised) => asyncgen_run(
                    after,
                    AsyncgenEvent::CloseFailed(raised),
                    raises.drop_first(),
                ),
            }
        },
        AsyncgenAction::Report { .. } => if event is CloseFailed {
            asyncgen_run(after, AsyncgenEvent::Reported, raises)
        } else {
            Seq::empty()
        },
        _ => Seq::empty(),
    };
    seq![action] + rest
}

/// The event with which the next generator's turn comes.
pub open spec fn brings_the_next(v: AsyncgensView, event: AsyncgenEvent) -> bool {
    ||| v.phase is Next && (event is Begin || event is Reported)
    ||| v.phase is Closing && event is Closed
}

/// What follows in a run stands in the whole.
proof fn lemma_later(
    action: AsyncgenAction,
    rest: Seq<AsyncgenAction>,
    later: AsyncgenAction,
)
    requires
        rest.contains(later),
    ensures
        (seq![action] + rest).contains(later),
{
    let at = choose|k: int| 0 <= k < rest.len() && rest[k] == later;
    assert((seq![action] + rest)[at + 1] == later);
}

/// Every generator is closed, whatever others raised, and each one that raised is reported.
pub proof fn law_every_asyncgen_is_closed(
    v: AsyncgensView,
    event: AsyncgenEvent,
    raises: Seq<Option<ObjectId>>,
    i: int,
)
    requires
        brings_the_next(v, event),
        raises.len() == v.left.len(),
        0 <= i < v.left.len(),
    ensures
        asyncgen_run(v, event, raises).contains(AsyncgenAction::Close(v.left[i])),
        raises[i] matches Some(raised) ==> asyncgen_run(v, event, raises).contains(
            AsyncgenAction::Report { agen: v.left[i], raised },
        ),
    decreases v.left.len(),
{
    reveal_with_fuel(asyncgen_run, 2);
    let (closing, action) = asyncgen_step(v, event);
    let others = raises.drop_first();
    let all = asyncgen_run(v, event, raises);
    match raises[0] {
        None => {
            let rest = asyncgen_run(closing, AsyncgenEvent::Closed, others);
            assert(all == seq![action] + rest);
            if i > 0 {
                law_every_asyncgen_is_closed(closing, AsyncgenEvent::Closed, others, i - 1);
                lemma_later(action, rest, AsyncgenAction::Close(v.left[i]));
                if let Some(raised) = raises[i] {
                    lemma_later(
                        action,
                        rest,
                        AsyncgenAction::Report { agen: v.left[i], raised },
                    );
                }
            }
        },
        Some(raised_here) => {
            let failed = AsyncgenEvent::CloseFailed(raised_here);
            let (reporting, report) = asyncgen_step(closing, failed);
            let rest = asyncgen_run(closing, failed, others);
            let later = asyncgen_run(reporting, AsyncgenEvent::Reported, others);
            assert(all == seq![action] + rest);
            assert(rest == seq![report] + later);
            if i == 0 {
                assert(rest[0] == report);
                lemma_later(action, rest, report);
            } else {
                law_every_asyncgen_is_closed(reporting, AsyncgenEvent::Reported, others, i - 1);
                lemma_later(report, later, AsyncgenAction::Close(v.left[i]));
                lemma_later(action, rest, AsyncgenAction::Close(v.left[i]));
                if let Some(raised) = raises[i] {
                    let told = AsyncgenAction::Report { agen: v.left[i], raised };
                    lemma_later(report, later, told);
                    lemma_later(action, rest, told);
                }
            }
        },
    }
    if i == 0 {
        assert(all[0] == action);
    }
}

} // verus!
